use cgmath::{Deg, Matrix4, One, PerspectiveFov, Point3, Rad};
use cube_renderer::camera::{viewport_aspect, CameraParameters, Ratio, Vector3};

fn single(ratio: Ratio) -> f32 {
    ratio.numerator as f32 / ratio.denominator as f32
}

fn point(v: Vector3) -> Point3<f32> {
    Point3::new(v.x as f32, v.y as f32, v.z as f32)
}

fn direction(v: Vector3) -> cgmath::Vector3<f32> {
    cgmath::Vector3::new(v.x as f32, v.y as f32, v.z as f32)
}

fn combined(camera: &CameraParameters, aspect: Ratio) -> Matrix4<f32> {
    let projection = Matrix4::from(PerspectiveFov {
        fovy: Rad::from(Deg(camera.fov_degrees as f32)),
        aspect: single(aspect),
        near: single(camera.near),
        far: single(camera.far),
    });
    let view = Matrix4::look_at(point(camera.eye), point(camera.target), direction(camera.up));
    projection * view * Matrix4::one()
}

fn bits(matrix: &Matrix4<f32>) -> Vec<u32> {
    let columns: &[[f32; 4]; 4] = matrix.as_ref();
    columns.iter().flat_map(|column| column.iter().map(|value| value.to_bits())).collect()
}

fn cross(a: [f64; 3], b: [f64; 3]) -> [f64; 3] {
    [a[1] * b[2] - a[2] * b[1], a[2] * b[0] - a[0] * b[2], a[0] * b[1] - a[1] * b[0]]
}

fn dot(a: [f64; 3], b: [f64; 3]) -> f64 {
    a[0] * b[0] + a[1] * b[1] + a[2] * b[2]
}

fn unit(a: [f64; 3]) -> [f64; 3] {
    let length = dot(a, a).sqrt();
    [a[0] / length, a[1] / length, a[2] / length]
}

// Rows of the view matrix, by the textbook look-at construction.
fn view_rows(eye: [f64; 3], target: [f64; 3], up: [f64; 3]) -> [[f64; 4]; 4] {
    let forward = unit([target[0] - eye[0], target[1] - eye[1], target[2] - eye[2]]);
    let side = unit(cross(forward, up));
    let over = cross(side, forward);
    [
        [side[0], side[1], side[2], -dot(side, eye)],
        [over[0], over[1], over[2], -dot(over, eye)],
        [-forward[0], -forward[1], -forward[2], dot(forward, eye)],
        [0.0, 0.0, 0.0, 1.0],
    ]
}

// Rows of the projection matrix, by the textbook perspective construction.
fn projection_rows(fov_degrees: f64, aspect: f64, near: f64, far: f64) -> [[f64; 4]; 4] {
    let f = 1.0 / (fov_degrees.to_radians() / 2.0).tan();
    [
        [f / aspect, 0.0, 0.0, 0.0],
        [0.0, f, 0.0, 0.0],
        [0.0, 0.0, (far + near) / (near - far), 2.0 * far * near / (near - far)],
        [0.0, 0.0, -1.0, 0.0],
    ]
}

fn product(a: [[f64; 4]; 4], b: [[f64; 4]; 4]) -> [[f64; 4]; 4] {
    let mut out = [[0.0; 4]; 4];
    for row in 0..4 {
        for column in 0..4 {
            for k in 0..4 {
                out[row][column] += a[row][k] * b[k][column];
            }
        }
    }
    out
}

#[test]
fn combined_matrix_of_the_fixed_camera_at_800_by_600() {
    let camera = CameraParameters::fixed();
    let aspect = viewport_aspect(Some((800, 600)));
    let matrix = combined(&camera, aspect);

    let view = view_rows([4.0, 3.0, -3.0], [0.0, 0.0, 0.0], [0.0, 1.0, 0.0]);
    let projection = projection_rows(90.0, 800.0 / 600.0, 0.1, 128.0);
    let expected = product(projection, view);

    // The bottom row is the view's third row times the projection's -1.
    for column in 0..4 {
        let bottom = matrix[column][3] as f64;
        assert!((bottom - -1.0 * view[2][column]).abs() < 1e-5);
    }
    let root = 34.0f64.sqrt();
    let bottom_row = [-4.0 / root, -3.0 / root, 3.0 / root, root];
    for column in 0..4 {
        assert!((matrix[column][3] as f64 - bottom_row[column]).abs() < 1e-5);
    }
    for row in 0..4 {
        for column in 0..4 {
            assert!((matrix[column][row] as f64 - expected[row][column]).abs() < 1e-5);
        }
    }
}

#[test]
fn combined_matrix_is_the_same_every_time() {
    let camera = CameraParameters::fixed();
    for viewport in [None, Some((800, 600)), Some((1920, 1080)), Some((1, 1000))] {
        let first = combined(&camera, viewport_aspect(viewport));
        let second = combined(&camera, viewport_aspect(viewport));
        assert_eq!(bits(&first), bits(&second));
    }
}

#[test]
fn combined_matrix_without_a_viewport_is_that_of_four_to_three() {
    let camera = CameraParameters::fixed();
    let missing = combined(&camera, viewport_aspect(None));
    let projection = Matrix4::from(PerspectiveFov {
        fovy: Rad::from(Deg(90.0f32)),
        aspect: 4.0f32 / 3.0f32,
        near: 0.1f32,
        far: 128.0f32,
    });
    let view = Matrix4::look_at(
        Point3::new(4.0f32, 3.0, -3.0),
        Point3::new(0.0f32, 0.0, 0.0),
        cgmath::Vector3::new(0.0f32, 1.0, 0.0),
    );
    let explicit = projection * view * Matrix4::one();
    assert_eq!(bits(&missing), bits(&explicit));
    assert_eq!(bits(&missing), bits(&combined(&camera, viewport_aspect(Some((800, 600))))));
}
