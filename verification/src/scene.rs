//! Everything one frame is drawn from, checked once and then fixed.

use vstd::prelude::*;
use crate::camera::CameraParameters;
use crate::geometry::{
    AttributeBinding, DeviceBuffer, Mesh, MeshView, BYTES_PER_VALUE, COLOR_SLOT, MAX_COMPONENTS,
    POSITION_SLOT,
};
use crate::program::{Program, ProgramView, UniformHandle};

verus! {

/// Why a scene cannot be put together.
#[derive(Clone, Copy, Debug, PartialEq, Eq, Structural)]
pub enum SceneError {
    /// The program did not link, so nothing may be drawn with it.
    ProgramNotUsable,
    /// A buffer does not hold as many bytes as the stream it stands for.
    BufferMismatch,
}

/// A linked program, the two bound streams of a mesh and a camera.
#[derive(Debug)]
pub struct Scene {
    program: Program,
    transform: UniformHandle,
    positions: AttributeBinding,
    colors: AttributeBinding,
    vertex_count: u32,
    camera: CameraParameters,
}

/// What a scene is, as plain values.
pub struct SceneView {
    /// The program every frame is drawn with.
    pub program: ProgramView,
    /// Where the program takes its transform matrix.
    pub transform: UniformHandle,
    /// The stream of positions and its slot.
    pub positions: AttributeBinding,
    /// The stream of colours and its slot.
    pub colors: AttributeBinding,
    /// How many vertices one frame draws.
    pub vertex_count: u32,
    /// The camera the transform is computed from.
    pub camera: CameraParameters,
}

impl SceneView {
    /// What holds of every scene: its program is usable, positions and
    /// colours sit in their two slots, and the vertices fit one draw call.
    pub open spec fn well_formed(self) -> bool {
        &&& self.program.usable()
        &&& self.positions.slot == POSITION_SLOT
        &&& self.colors.slot == COLOR_SLOT
        &&& 1 <= self.positions.components <= MAX_COMPONENTS
        &&& 1 <= self.colors.components <= MAX_COMPONENTS
        &&& self.vertex_count <= i32::MAX
    }
}

impl View for Scene {
    type V = SceneView;

    closed spec fn view(&self) -> SceneView {
        SceneView {
            program: self.program@,
            transform: self.transform,
            positions: self.positions,
            colors: self.colors,
            vertex_count: self.vertex_count,
            camera: self.camera,
        }
    }
}

/// What `Scene::new` answers for the given parts.
pub open spec fn scene_of(
    program: ProgramView,
    transform: UniformHandle,
    mesh: MeshView,
    position_buffer: DeviceBuffer,
    color_buffer: DeviceBuffer,
    camera: CameraParameters,
) -> Result<SceneView, SceneError> {
    if !program.usable() {
        Err(SceneError::ProgramNotUsable)
    } else if position_buffer.byte_size != mesh.positions.byte_size() || color_buffer.byte_size
        != mesh.colors.byte_size() {
        Err(SceneError::BufferMismatch)
    } else {
        Ok(
            SceneView {
                program,
                transform,
                positions: AttributeBinding {
                    buffer: position_buffer.handle,
                    slot: POSITION_SLOT,
                    components: mesh.positions.components as u32,
                },
                colors: AttributeBinding {
                    buffer: color_buffer.handle,
                    slot: COLOR_SLOT,
                    components: mesh.colors.components as u32,
                },
                vertex_count: mesh.vertex_count() as u32,
                camera,
            },
        )
    }
}

/// The bytes of a stream of whole vertices divide into whole vertices.
proof fn lemma_whole_stream_binds(len: nat, components: nat)
    requires
        components > 0,
        len % components == 0,
    ensures
        (len * BYTES_PER_VALUE) % (components * BYTES_PER_VALUE) == 0,
{
    let count = len / components;
    assert(len == components * count + len % components) by (nonlinear_arith)
        requires
            components > 0,
            count == len / components,
    ;
    let vertex_bytes = components * BYTES_PER_VALUE;
    assert(len * BYTES_PER_VALUE == vertex_bytes * count) by (nonlinear_arith)
        requires
            len == components * count,
            vertex_bytes == components * BYTES_PER_VALUE,
    ;
    assert((vertex_bytes * count) % vertex_bytes == 0) by (nonlinear_arith)
        requires
            vertex_bytes > 0,
    ;
}

impl Scene {
    #[verifier::type_invariant]
    spec fn drawable(self) -> bool {
        self@.well_formed()
    }

    /// Puts a scene together from a linked program, the handle of its
    /// transform uniform, a mesh, the two buffers the mesh was uploaded to,
    /// and a camera.
    ///
    /// The program is looked at first, then the sizes of the buffers. The
    /// transform handle is taken as it is: one that does not resolve is no
    /// fault, and only means that no frame uploads a matrix.
    pub fn new(
        program: Program,
        transform: UniformHandle,
        mesh: &Mesh,
        position_buffer: DeviceBuffer,
        color_buffer: DeviceBuffer,
        camera: CameraParameters,
    ) -> (out: Result<Scene, SceneError>)
        ensures
            match scene_of(program@, transform, mesh@, position_buffer, color_buffer, camera) {
                Ok(view) => out matches Ok(scene) && scene@ == view && view.well_formed(),
                Err(error) => out matches Err(e) && e == error,
            },
    {
        if !program.is_usable() {
            return Err(SceneError::ProgramNotUsable);
        }
        let vertex_count = mesh.vertex_count();
        let position_components = mesh.positions().components();
        let color_components = mesh.colors().components();
        if position_buffer.byte_size != mesh.positions().byte_size() || color_buffer.byte_size
            != mesh.colors().byte_size() {
            return Err(SceneError::BufferMismatch);
        }
        proof {
            lemma_whole_stream_binds(mesh@.positions.halves.len(), mesh@.positions.components);
            lemma_whole_stream_binds(mesh@.colors.halves.len(), mesh@.colors.components);
        }
        let positions = match position_buffer.bind(POSITION_SLOT, position_components) {
            Ok(binding) => binding,
            Err(_) => unreached(),
        };
        let colors = match color_buffer.bind(COLOR_SLOT, color_components) {
            Ok(binding) => binding,
            Err(_) => unreached(),
        };
        Ok(Scene { program, transform, positions, colors, vertex_count, camera })
    }

    /// The program every frame is drawn with. It is usable.
    pub fn program(&self) -> (program: &Program)
        ensures
            program@ == self@.program,
            program@.usable(),
    {
        proof {
            use_type_invariant(self);
        }
        &self.program
    }

    /// Where the program takes its transform matrix.
    pub fn transform(&self) -> (transform: UniformHandle)
        ensures
            transform == self@.transform,
    {
        self.transform
    }

    /// The stream of positions and its slot.
    pub fn positions(&self) -> (binding: AttributeBinding)
        ensures
            binding == self@.positions,
    {
        self.positions
    }

    /// The stream of colours and its slot.
    pub fn colors(&self) -> (binding: AttributeBinding)
        ensures
            binding == self@.colors,
    {
        self.colors
    }

    /// How many vertices one frame draws.
    pub fn vertex_count(&self) -> (count: u32)
        ensures
            count == self@.vertex_count,
            self@.well_formed(),
    {
        proof {
            use_type_invariant(self);
        }
        self.vertex_count
    }

    /// The camera the transform is computed from.
    pub fn camera(&self) -> (camera: CameraParameters)
        ensures
            camera == self@.camera,
    {
        self.camera
    }
}

} // verus!
