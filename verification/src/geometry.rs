//! The static geometry of the cube, and the record of its upload to device
//! memory.
//!
//! Attribute values are kept as whole numbers of halves: every value the
//! cube needs is a multiple of one half, and a host turns a stored `n` into
//! the single-precision number `n / 2` without rounding.

use vstd::prelude::*;
use vstd::slice::slice_to_vec;

verus! {

/// How many stored units make up the value one.
pub const UNITS_PER_ONE: i8 = 2;

/// Bytes that one attribute value takes in device memory.
pub const BYTES_PER_VALUE: usize = 4;

/// Values that make up one vertex in each of the cube's streams.
pub const CUBE_COMPONENTS: usize = 3;

/// Faces of the cube.
pub const CUBE_FACES: usize = 6;

/// Vertices that make up one face: two triangles.
pub const VERTICES_PER_FACE: usize = 6;

/// Vertices of the cube: six faces of two triangles each.
pub const CUBE_VERTEX_COUNT: usize = 36;

/// The most values a vertex attribute can have.
pub const MAX_COMPONENTS: usize = 4;

/// Attribute slot that the positions are bound to.
pub const POSITION_SLOT: u32 = 0;

/// Attribute slot that the colours are bound to.
pub const COLOR_SLOT: u32 = 1;

/// Corner positions of the cube's triangles, in halves: x, y, z per vertex,
/// three vertices per triangle, two triangles per face.
pub const CUBE_POSITIONS: [i8; 108] = [
    // front
    -2, -2, -2,
    2, -2, -2,
    -2, 2, -2,
    2, -2, -2,
    2, 2, -2,
    -2, 2, -2,
    // back
    -2, -2, 2,
    2, -2, 2,
    -2, 2, 2,
    2, -2, 2,
    2, 2, 2,
    -2, 2, 2,
    // right
    2, -2, -2,
    2, -2, 2,
    2, 2, -2,
    2, 2, 2,
    2, 2, -2,
    2, -2, 2,
    // left
    -2, -2, -2,
    -2, -2, 2,
    -2, 2, -2,
    -2, 2, 2,
    -2, 2, -2,
    -2, -2, 2,
    // bottom
    -2, -2, -2,
    2, -2, -2,
    -2, -2, 2,
    2, -2, 2,
    -2, -2, 2,
    2, -2, -2,
    // top
    -2, 2, -2,
    2, 2, -2,
    -2, 2, 2,
    2, 2, 2,
    -2, 2, 2,
    2, 2, -2,
];

/// Colours of the cube's vertices, in halves: red, green, blue per vertex,
/// in the order of `CUBE_POSITIONS`.
pub const CUBE_COLORS: [i8; 108] = [
    // front
    2, 2, 2,
    1, 1, 1,
    1, 1, 1,
    1, 1, 1,
    0, 0, 0,
    1, 1, 1,
    // back
    0, 2, 0,
    0, 1, 0,
    0, 1, 0,
    0, 1, 0,
    0, 0, 0,
    0, 1, 0,
    // right
    2, 0, 0,
    1, 0, 0,
    1, 0, 0,
    0, 0, 0,
    1, 0, 0,
    1, 0, 0,
    // left
    0, 0, 2,
    0, 0, 1,
    0, 0, 1,
    0, 0, 0,
    0, 0, 1,
    0, 0, 1,
    // bottom
    0, 2, 2,
    0, 1, 1,
    0, 1, 1,
    0, 0, 0,
    0, 1, 1,
    0, 1, 1,
    // top
    2, 0, 2,
    1, 0, 1,
    1, 0, 1,
    0, 0, 0,
    1, 0, 1,
    1, 0, 1,
];

/// How a buffer in device memory is going to be used.
#[derive(Clone, Copy, Debug, PartialEq, Eq, Structural)]
pub enum Usage {
    /// Written once, drawn from many times.
    Static,
}

/// Why geometry cannot be uploaded as it is.
#[derive(Clone, Copy, Debug, PartialEq, Eq, Structural)]
pub enum GeometryError {
    /// A vertex must have between one and four values.
    BadComponentCount,
    /// The stream does not divide into whole vertices.
    RaggedStream,
    /// The stream's size in bytes, or its number of vertices, is beyond
    /// what the driver can be told.
    TooLarge,
    /// The two streams of a mesh describe different numbers of vertices.
    VertexCountMismatch,
}

/// One stream of per-vertex values, with the same number of values for each
/// vertex.
#[derive(Debug, PartialEq, Eq)]
pub struct VertexAttributeSet {
    halves: Vec<i8>,
    components: usize,
}

/// What an attribute stream is, as plain values.
pub struct AttributeSetView {
    /// The values, in halves, vertex after vertex.
    pub halves: Seq<i8>,
    /// How many values belong to one vertex.
    pub components: nat,
}

impl AttributeSetView {
    /// What makes a stream fit for upload: between one and four values per
    /// vertex, whole vertices only, and a size in bytes that fits the
    /// signed size the driver takes.
    pub open spec fn well_formed(self) -> bool {
        &&& 1 <= self.components <= MAX_COMPONENTS
        &&& self.halves.len() % self.components == 0
        &&& self.halves.len() * BYTES_PER_VALUE <= isize::MAX
    }

    /// The number of vertices in the stream.
    pub open spec fn vertex_count(self) -> nat {
        self.halves.len() / self.components
    }

    /// The bytes that the stream takes in device memory.
    pub open spec fn byte_size(self) -> int {
        self.halves.len() * BYTES_PER_VALUE
    }
}

impl View for VertexAttributeSet {
    type V = AttributeSetView;

    closed spec fn view(&self) -> AttributeSetView {
        AttributeSetView { halves: self.halves@, components: self.components as nat }
    }
}

/// What `VertexAttributeSet::new` answers for the given values.
pub open spec fn attribute_set_of(halves: Seq<i8>, components: usize) -> Result<
    AttributeSetView,
    GeometryError,
> {
    if components < 1 || components > MAX_COMPONENTS {
        Err(GeometryError::BadComponentCount)
    } else if halves.len() % (components as nat) != 0 {
        Err(GeometryError::RaggedStream)
    } else if halves.len() * BYTES_PER_VALUE > isize::MAX {
        Err(GeometryError::TooLarge)
    } else {
        Ok(AttributeSetView { halves, components: components as nat })
    }
}

impl VertexAttributeSet {
    #[verifier::type_invariant]
    spec fn fit_for_upload(self) -> bool {
        self@.well_formed()
    }

    /// Makes a stream of `halves`, taken `components` at a time.
    ///
    /// The checks are made in this order: the number of values per vertex,
    /// then that the values divide into whole vertices, then the size.
    pub fn new(halves: Vec<i8>, components: usize) -> (out: Result<Self, GeometryError>)
        ensures
            match attribute_set_of(halves@, components) {
                Ok(view) => out matches Ok(set) && set@ == view && view.well_formed(),
                Err(error) => out matches Err(e) && e == error,
            },
    {
        if components < 1 || components > MAX_COMPONENTS {
            return Err(GeometryError::BadComponentCount);
        }
        if halves.len() % components != 0 {
            return Err(GeometryError::RaggedStream);
        }
        if halves.len() > (isize::MAX as usize) / BYTES_PER_VALUE {
            return Err(GeometryError::TooLarge);
        }
        Ok(VertexAttributeSet { halves, components })
    }

    /// The positions of the cube's vertices.
    pub fn cube_positions() -> (set: Self)
        ensures
            set@.halves == CUBE_POSITIONS@,
            set@.components == CUBE_COMPONENTS,
            set@.well_formed(),
            set@.vertex_count() == CUBE_VERTEX_COUNT,
    {
        let table = CUBE_POSITIONS;
        VertexAttributeSet { halves: slice_to_vec(&table), components: CUBE_COMPONENTS }
    }

    /// The colours of the cube's vertices.
    pub fn cube_colors() -> (set: Self)
        ensures
            set@.halves == CUBE_COLORS@,
            set@.components == CUBE_COMPONENTS,
            set@.well_formed(),
            set@.vertex_count() == CUBE_VERTEX_COUNT,
    {
        let table = CUBE_COLORS;
        VertexAttributeSet { halves: slice_to_vec(&table), components: CUBE_COMPONENTS }
    }

    /// The values of the stream, in halves.
    pub fn halves(&self) -> (halves: &Vec<i8>)
        ensures
            halves@ == self@.halves,
    {
        &self.halves
    }

    /// How many values the stream holds.
    pub fn len(&self) -> (len: usize)
        ensures
            len == self@.halves.len(),
    {
        self.halves.len()
    }

    /// How many values belong to one vertex.
    pub fn components(&self) -> (components: usize)
        ensures
            components == self@.components,
            self@.well_formed(),
    {
        proof {
            use_type_invariant(self);
        }
        self.components
    }

    /// How many vertices the stream describes.
    pub fn vertex_count(&self) -> (count: usize)
        ensures
            count == self@.vertex_count(),
            count * self@.components == self@.halves.len(),
            self@.well_formed(),
    {
        proof {
            use_type_invariant(self);
            lemma_whole_vertices(self@.halves.len(), self@.components);
        }
        self.halves.len() / self.components
    }

    /// How many bytes the stream takes in device memory.
    pub fn byte_size(&self) -> (bytes: usize)
        ensures
            bytes == self@.byte_size(),
            bytes <= isize::MAX,
    {
        proof {
            use_type_invariant(self);
        }
        self.halves.len() * BYTES_PER_VALUE
    }
}

/// A stream of whole vertices is as long as its vertices together.
proof fn lemma_whole_vertices(len: nat, components: nat)
    requires
        components > 0,
        len % components == 0,
    ensures
        (len / components) * components == len,
{
    assert(len == components * (len / components) + len % components) by (nonlinear_arith)
        requires
            components > 0,
    ;
    assert((len / components) * components == components * (len / components))
        by (nonlinear_arith);
}

/// The two streams of one mesh: a position and a colour for each vertex.
#[derive(Debug, PartialEq, Eq)]
pub struct Mesh {
    positions: VertexAttributeSet,
    colors: VertexAttributeSet,
}

/// What a mesh is, as plain values.
pub struct MeshView {
    /// Where the vertices are.
    pub positions: AttributeSetView,
    /// What colour each vertex has.
    pub colors: AttributeSetView,
}

impl MeshView {
    /// What makes a mesh fit for drawing: two streams fit for upload that
    /// describe the same number of vertices, few enough for one draw call.
    pub open spec fn well_formed(self) -> bool {
        &&& self.positions.well_formed()
        &&& self.colors.well_formed()
        &&& self.positions.vertex_count() == self.colors.vertex_count()
        &&& self.positions.vertex_count() <= i32::MAX
    }

    /// The number of vertices in the mesh.
    pub open spec fn vertex_count(self) -> nat {
        self.positions.vertex_count()
    }
}

impl View for Mesh {
    type V = MeshView;

    closed spec fn view(&self) -> MeshView {
        MeshView { positions: self.positions@, colors: self.colors@ }
    }
}

/// What `Mesh::new` answers for the given streams.
pub open spec fn mesh_of(positions: AttributeSetView, colors: AttributeSetView) -> Result<
    MeshView,
    GeometryError,
> {
    if positions.vertex_count() != colors.vertex_count() {
        Err(GeometryError::VertexCountMismatch)
    } else if positions.vertex_count() > i32::MAX {
        Err(GeometryError::TooLarge)
    } else {
        Ok(MeshView { positions, colors })
    }
}

impl Mesh {
    #[verifier::type_invariant]
    spec fn fit_for_drawing(self) -> bool {
        self@.well_formed()
    }

    /// Pairs a stream of positions with a stream of colours.
    ///
    /// Streams that disagree on the number of vertices are refused here,
    /// before anything is uploaded.
    pub fn new(positions: VertexAttributeSet, colors: VertexAttributeSet) -> (out: Result<
        Self,
        GeometryError,
    >)
        ensures
            match mesh_of(positions@, colors@) {
                Ok(view) => out matches Ok(mesh) && mesh@ == view && view.well_formed(),
                Err(error) => out matches Err(e) && e == error,
            },
    {
        let count = positions.vertex_count();
        if count != colors.vertex_count() {
            return Err(GeometryError::VertexCountMismatch);
        }
        if count > i32::MAX as usize {
            return Err(GeometryError::TooLarge);
        }
        Ok(Mesh { positions, colors })
    }

    /// The cube: thirty-six vertices, three values each in either stream.
    pub fn cube() -> (mesh: Self)
        ensures
            mesh@.positions.halves == CUBE_POSITIONS@,
            mesh@.colors.halves == CUBE_COLORS@,
            mesh@.positions.components == CUBE_COMPONENTS,
            mesh@.colors.components == CUBE_COMPONENTS,
            mesh@.positions.halves.len() == CUBE_VERTEX_COUNT * CUBE_COMPONENTS,
            mesh@.colors.halves.len() == CUBE_VERTEX_COUNT * CUBE_COMPONENTS,
            mesh@.vertex_count() == CUBE_VERTEX_COUNT,
            mesh@.well_formed(),
    {
        Mesh {
            positions: VertexAttributeSet::cube_positions(),
            colors: VertexAttributeSet::cube_colors(),
        }
    }

    /// Where the vertices are.
    pub fn positions(&self) -> (set: &VertexAttributeSet)
        ensures
            set@ == self@.positions,
    {
        &self.positions
    }

    /// What colour each vertex has.
    pub fn colors(&self) -> (set: &VertexAttributeSet)
        ensures
            set@ == self@.colors,
    {
        &self.colors
    }

    /// How many vertices the mesh has.
    pub fn vertex_count(&self) -> (count: u32)
        ensures
            count == self@.vertex_count(),
            count <= i32::MAX,
            self@.well_formed(),
    {
        proof {
            use_type_invariant(self);
        }
        self.positions.vertex_count() as u32
    }
}

/// One stream as it lies in device memory after its upload. Nothing here
/// changes it afterwards.
#[derive(Clone, Copy, Debug, PartialEq, Eq, Structural)]
pub struct DeviceBuffer {
    /// The driver's name for the buffer.
    pub handle: u32,
    /// How many bytes were uploaded.
    pub byte_size: usize,
    /// What the driver was told about the buffer's use.
    pub usage: Usage,
}

/// A buffer tied to a numbered attribute slot: consecutive vertices lie
/// back to back from the buffer's first byte on, each of `components`
/// single-precision values taken as they are.
#[derive(Clone, Copy, Debug, PartialEq, Eq, Structural)]
pub struct AttributeBinding {
    /// The driver's name for the buffer.
    pub buffer: u32,
    /// The attribute slot the vertex stage reads from.
    pub slot: u32,
    /// How many values belong to one vertex.
    pub components: u32,
}

/// What `DeviceBuffer::bind` answers for the given buffer.
pub open spec fn binding_of(buffer: DeviceBuffer, slot: u32, components: usize) -> Result<
    AttributeBinding,
    GeometryError,
> {
    if components < 1 || components > MAX_COMPONENTS {
        Err(GeometryError::BadComponentCount)
    } else if buffer.byte_size as int % (components * BYTES_PER_VALUE) != 0 {
        Err(GeometryError::RaggedStream)
    } else {
        Ok(AttributeBinding { buffer: buffer.handle, slot, components: components as u32 })
    }
}

impl DeviceBuffer {
    /// The record of an upload: the whole of `data` was copied, once, into
    /// the buffer that the driver calls `handle`.
    pub fn uploaded(handle: u32, data: &VertexAttributeSet, usage: Usage) -> (buffer: Self)
        ensures
            buffer.handle == handle,
            buffer.byte_size == data@.byte_size(),
            buffer.usage == usage,
    {
        DeviceBuffer { handle, byte_size: data.byte_size(), usage }
    }

    /// Ties the buffer to an attribute slot, `components` values to a
    /// vertex. A buffer that does not divide into such vertices is refused.
    pub fn bind(&self, slot: u32, components: usize) -> (out: Result<
        AttributeBinding,
        GeometryError,
    >)
        ensures
            out == binding_of(*self, slot, components),
    {
        if components < 1 || components > MAX_COMPONENTS {
            return Err(GeometryError::BadComponentCount);
        }
        if self.byte_size % (components * BYTES_PER_VALUE) != 0 {
            return Err(GeometryError::RaggedStream);
        }
        Ok(AttributeBinding { buffer: self.handle, slot, components: components as u32 })
    }
}

/// Which coordinate is the same all over a face of the cube: 0 for x, 1 for
/// y, 2 for z. The faces come in the order front, back, right, left,
/// bottom, top.
pub open spec fn face_axis(face: int) -> int {
    if face < 2 {
        2
    } else if face < 4 {
        0
    } else {
        1
    }
}

/// The value, in halves, of the coordinate that is the same all over a face.
pub open spec fn face_level(face: int) -> int {
    if face == 0 || face == 3 || face == 4 {
        -(UNITS_PER_ONE as int)
    } else {
        UNITS_PER_ONE as int
    }
}

/// Where a vertex of the cube lies: x, y and z, in halves.
pub open spec fn cube_corner(vertex: int) -> (int, int, int) {
    (
        CUBE_POSITIONS@[vertex * CUBE_COMPONENTS] as int,
        CUBE_POSITIONS@[vertex * CUBE_COMPONENTS + 1] as int,
        CUBE_POSITIONS@[vertex * CUBE_COMPONENTS + 2] as int,
    )
}

/// The coordinate of a point along an axis: 0 for x, 1 for y, 2 for z.
pub open spec fn along(point: (int, int, int), axis: int) -> int {
    if axis == 0 {
        point.0
    } else if axis == 1 {
        point.1
    } else {
        point.2
    }
}

/// Whether a coordinate is one or minus one.
pub open spec fn at_unit_distance(halves: int) -> bool {
    halves == UNITS_PER_ONE || halves == -UNITS_PER_ONE
}

/// Both streams of the cube hold 108 values: three for each of its 36
/// vertices.
pub proof fn lemma_cube_streams_match()
    ensures
        CUBE_POSITIONS@.len() == CUBE_VERTEX_COUNT * CUBE_COMPONENTS,
        CUBE_COLORS@.len() == CUBE_VERTEX_COUNT * CUBE_COMPONENTS,
        CUBE_VERTEX_COUNT * CUBE_COMPONENTS == 108,
        CUBE_VERTEX_COUNT == CUBE_FACES * VERTICES_PER_FACE,
{
}

/// Every vertex of the cube is a corner of it: each coordinate is one or
/// minus one.
pub proof fn lemma_cube_corners(i: int)
    requires
        0 <= i < CUBE_POSITIONS@.len(),
    ensures
        at_unit_distance(CUBE_POSITIONS@[i] as int),
{
}

/// The cube's vertices come face by face, six to a face, and all six lie in
/// the plane of their face.
pub proof fn lemma_cube_faces(vertex: int)
    requires
        0 <= vertex < CUBE_VERTEX_COUNT,
    ensures
        along(cube_corner(vertex), face_axis(vertex / VERTICES_PER_FACE as int)) == face_level(
            vertex / VERTICES_PER_FACE as int,
        ),
{
}

/// The two triangles of a face reach all four corners of the face: every
/// corner of the cube that lies in the plane of a face is a vertex of one of
/// the face's triangles.
pub proof fn lemma_faces_are_covered(face: int, x: int, y: int, z: int)
    requires
        0 <= face < CUBE_FACES,
        at_unit_distance(x),
        at_unit_distance(y),
        at_unit_distance(z),
        along((x, y, z), face_axis(face)) == face_level(face),
    ensures
        exists|vertex: int|
            face * VERTICES_PER_FACE <= vertex < (face + 1) * VERTICES_PER_FACE && cube_corner(
                vertex,
            ) == (x, y, z),
{
    if face == 0 && x == -2 && y == -2 && z == -2 {
        assert(cube_corner(0) == (x, y, z));
    }
    if face == 0 && x == 2 && y == -2 && z == -2 {
        assert(cube_corner(1) == (x, y, z));
    }
    if face == 0 && x == -2 && y == 2 && z == -2 {
        assert(cube_corner(2) == (x, y, z));
    }
    if face == 0 && x == 2 && y == 2 && z == -2 {
        assert(cube_corner(4) == (x, y, z));
    }
    if face == 1 && x == -2 && y == -2 && z == 2 {
        assert(cube_corner(6) == (x, y, z));
    }
    if face == 1 && x == 2 && y == -2 && z == 2 {
        assert(cube_corner(7) == (x, y, z));
    }
    if face == 1 && x == -2 && y == 2 && z == 2 {
        assert(cube_corner(8) == (x, y, z));
    }
    if face == 1 && x == 2 && y == 2 && z == 2 {
        assert(cube_corner(10) == (x, y, z));
    }
    if face == 2 && x == 2 && y == -2 && z == -2 {
        assert(cube_corner(12) == (x, y, z));
    }
    if face == 2 && x == 2 && y == -2 && z == 2 {
        assert(cube_corner(13) == (x, y, z));
    }
    if face == 2 && x == 2 && y == 2 && z == -2 {
        assert(cube_corner(14) == (x, y, z));
    }
    if face == 2 && x == 2 && y == 2 && z == 2 {
        assert(cube_corner(15) == (x, y, z));
    }
    if face == 3 && x == -2 && y == -2 && z == -2 {
        assert(cube_corner(18) == (x, y, z));
    }
    if face == 3 && x == -2 && y == -2 && z == 2 {
        assert(cube_corner(19) == (x, y, z));
    }
    if face == 3 && x == -2 && y == 2 && z == -2 {
        assert(cube_corner(20) == (x, y, z));
    }
    if face == 3 && x == -2 && y == 2 && z == 2 {
        assert(cube_corner(21) == (x, y, z));
    }
    if face == 4 && x == -2 && y == -2 && z == -2 {
        assert(cube_corner(24) == (x, y, z));
    }
    if face == 4 && x == 2 && y == -2 && z == -2 {
        assert(cube_corner(25) == (x, y, z));
    }
    if face == 4 && x == -2 && y == -2 && z == 2 {
        assert(cube_corner(26) == (x, y, z));
    }
    if face == 4 && x == 2 && y == -2 && z == 2 {
        assert(cube_corner(27) == (x, y, z));
    }
    if face == 5 && x == -2 && y == 2 && z == -2 {
        assert(cube_corner(30) == (x, y, z));
    }
    if face == 5 && x == 2 && y == 2 && z == -2 {
        assert(cube_corner(31) == (x, y, z));
    }
    if face == 5 && x == -2 && y == 2 && z == 2 {
        assert(cube_corner(32) == (x, y, z));
    }
    if face == 5 && x == 2 && y == 2 && z == 2 {
        assert(cube_corner(33) == (x, y, z));
    }
}

/// Every colour value lies between nought and one.
pub proof fn lemma_cube_colors_in_range(i: int)
    requires
        0 <= i < CUBE_COLORS@.len(),
    ensures
        0 <= CUBE_COLORS@[i] <= UNITS_PER_ONE,
{
}

} // verus!
