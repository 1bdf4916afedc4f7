//! The triangle's vertex data and the vertex layout of its pipeline.
//!
//! Every component is a single-precision number held as its IEEE-754 bit
//! pattern, so that the data is exact and can be handed to a GPU buffer word
//! for word.

use vstd::prelude::*;

verus! {

/// Bit pattern of the single-precision number 0.0.
pub const ZERO: u32 = 0x0000_0000;

/// Bit pattern of the single-precision number 1.0.
pub const ONE: u32 = 0x3F80_0000;

/// Bit pattern of the single-precision number 0.5.
pub const HALF: u32 = 0x3F00_0000;

/// Bit pattern of the single-precision number -0.5.
pub const NEG_HALF: u32 = 0xBF00_0000;

/// Number of vertices in the buffer.
pub const VERTEX_COUNT: usize = 3;

/// Number of components of one vertex: three of position, four of colour.
pub const COMPONENTS_PER_VERTEX: usize = 7;

/// Number of components in the whole buffer.
pub const BUFFER_COMPONENTS: usize = 21;

/// Attribute slot of the position.
pub const ATTR_POSITION: usize = 0;

/// Attribute slot of the colour.
pub const ATTR_COLOR0: usize = 1;

/// One vertex: a position (x, y, z) followed by a colour (r, g, b, a).
#[derive(Clone, Copy, Debug, PartialEq, Eq, Structural)]
pub struct Vertex {
    pub x: u32,
    pub y: u32,
    pub z: u32,
    pub r: u32,
    pub g: u32,
    pub b: u32,
    pub a: u32,
}

/// Format of one vertex attribute.
#[derive(Clone, Copy, Debug, PartialEq, Eq, Structural)]
pub enum VertexFormat {
    /// Three single-precision components.
    Float3,
    /// Four single-precision components.
    Float4,
}

/// What the resource initializer asks the backend to create, in this order:
/// first the immutable vertex buffer, then the pipeline with its layout.
#[derive(Debug)]
pub struct ResourcePlan {
    /// Contents of the vertex buffer, component by component.
    pub vertex_data: Vec<u32>,
    /// Format of each attribute slot, indexed by slot.
    pub layout: Vec<VertexFormat>,
}

/// The three corners: top in red, bottom right in green, bottom left in blue.
pub open spec fn triangle() -> Seq<Vertex> {
    seq![
        Vertex { x: ZERO, y: HALF, z: HALF, r: ONE, g: ZERO, b: ZERO, a: ONE },
        Vertex { x: HALF, y: NEG_HALF, z: HALF, r: ZERO, g: ONE, b: ZERO, a: ONE },
        Vertex { x: NEG_HALF, y: NEG_HALF, z: HALF, r: ZERO, g: ZERO, b: ONE, a: ONE },
    ]
}

/// Component `k` of a vertex, counted from the position's x.
pub open spec fn component(v: Vertex, k: int) -> u32 {
    if k == 0 {
        v.x
    } else if k == 1 {
        v.y
    } else if k == 2 {
        v.z
    } else if k == 3 {
        v.r
    } else if k == 4 {
        v.g
    } else if k == 5 {
        v.b
    } else {
        v.a
    }
}

/// The vertices laid out tightly one after another, seven components each.
pub open spec fn interleaved(vertices: Seq<Vertex>) -> Seq<u32> {
    Seq::new(
        (7 * vertices.len()) as nat,
        |i: int| component(vertices[i / 7], i % 7),
    )
}

/// Number of components that an attribute of the given format takes.
pub open spec fn format_components(format: VertexFormat) -> nat {
    match format {
        VertexFormat::Float3 => 3,
        VertexFormat::Float4 => 4,
    }
}

/// The pipeline's vertex layout by attribute slot: position, then colour.
pub open spec fn triangle_layout() -> Seq<VertexFormat> {
    seq![VertexFormat::Float3, VertexFormat::Float4]
}

/// The three vertices of the triangle.
pub fn triangle_vertices() -> (vertices: Vec<Vertex>)
    ensures
        vertices@ == triangle(),
        vertices@.len() == VERTEX_COUNT,
{
    let mut vertices: Vec<Vertex> = Vec::new();
    vertices.push(Vertex { x: ZERO, y: HALF, z: HALF, r: ONE, g: ZERO, b: ZERO, a: ONE });
    vertices.push(Vertex { x: HALF, y: NEG_HALF, z: HALF, r: ZERO, g: ONE, b: ZERO, a: ONE });
    vertices.push(Vertex { x: NEG_HALF, y: NEG_HALF, z: HALF, r: ZERO, g: ZERO, b: ONE, a: ONE });
    assert(vertices@ =~= triangle());
    vertices
}

/// Lays vertices out for a vertex buffer: seven components per vertex, in
/// order, with nothing between them.
pub fn interleave(vertices: &Vec<Vertex>) -> (data: Vec<u32>)
    requires
        7 * vertices@.len() <= usize::MAX,
    ensures
        data@ == interleaved(vertices@),
        data@.len() == 7 * vertices@.len(),
{
    let mut data: Vec<u32> = Vec::new();
    let mut i: usize = 0;
    while i < vertices.len()
        invariant
            i <= vertices@.len(),
            7 * vertices@.len() <= usize::MAX,
            data@.len() == 7 * i,
            forall|j: int| 0 <= j < data@.len() ==> data@[j] == component(vertices@[j / 7], j % 7),
        decreases vertices@.len() - i,
    {
        let v = vertices[i];
        data.push(v.x);
        data.push(v.y);
        data.push(v.z);
        data.push(v.r);
        data.push(v.g);
        data.push(v.b);
        data.push(v.a);
        i += 1;
    }
    assert(data@ =~= interleaved(vertices@));
    data
}

/// Contents of the triangle's vertex buffer: 21 components, three vertices of
/// seven each.
pub fn vertex_buffer_data() -> (data: Vec<u32>)
    ensures
        data@ == interleaved(triangle()),
        data@.len() == BUFFER_COMPONENTS,
{
    let vertices = triangle_vertices();
    interleave(&vertices)
}

/// The pipeline's vertex layout: slot `ATTR_POSITION` holds three components,
/// slot `ATTR_COLOR0` four.
pub fn pipeline_layout() -> (layout: Vec<VertexFormat>)
    ensures
        layout@ == triangle_layout(),
        layout@[ATTR_POSITION as int] == VertexFormat::Float3,
        layout@[ATTR_COLOR0 as int] == VertexFormat::Float4,
{
    let mut layout: Vec<VertexFormat> = Vec::new();
    layout.push(VertexFormat::Float3);
    layout.push(VertexFormat::Float4);
    assert(layout@ =~= triangle_layout());
    layout
}

/// What the resource initializer creates: the vertex buffer's contents and
/// the pipeline's layout.
pub fn resource_plan() -> (plan: ResourcePlan)
    ensures
        plan.vertex_data@ == interleaved(triangle()),
        plan.layout@ == triangle_layout(),
{
    ResourcePlan { vertex_data: vertex_buffer_data(), layout: pipeline_layout() }
}

/// The buffer holds exactly the 21 components of the three corners, each
/// vertex's position in its first three places and its colour in the four
/// that follow.
pub proof fn lemma_buffer_contents()
    ensures
        interleaved(triangle()).len() == 21,
        interleaved(triangle()) == seq![
            ZERO, HALF, HALF, ONE, ZERO, ZERO, ONE,
            HALF, NEG_HALF, HALF, ZERO, ONE, ZERO, ONE,
            NEG_HALF, NEG_HALF, HALF, ZERO, ZERO, ONE, ONE,
        ],
        forall|v: int| 0 <= v < 3 ==> {
            &&& #[trigger] interleaved(triangle())[7 * v] == triangle()[v].x
            &&& interleaved(triangle())[7 * v + 1] == triangle()[v].y
            &&& interleaved(triangle())[7 * v + 2] == triangle()[v].z
            &&& interleaved(triangle())[7 * v + 3] == triangle()[v].r
            &&& interleaved(triangle())[7 * v + 4] == triangle()[v].g
            &&& interleaved(triangle())[7 * v + 5] == triangle()[v].b
            &&& interleaved(triangle())[7 * v + 6] == triangle()[v].a
        },
{
    let flat = seq![
        ZERO, HALF, HALF, ONE, ZERO, ZERO, ONE,
        HALF, NEG_HALF, HALF, ZERO, ONE, ZERO, ONE,
        NEG_HALF, NEG_HALF, HALF, ZERO, ZERO, ONE, ONE,
    ];
    assert(interleaved(triangle()) =~= flat);
}

/// The layout's attributes together take exactly the components of one
/// vertex, so the buffer is read without gaps.
pub proof fn lemma_layout_covers_vertex()
    ensures
        triangle_layout().len() == 2,
        format_components(triangle_layout()[ATTR_POSITION as int]) + format_components(
            triangle_layout()[ATTR_COLOR0 as int],
        ) == COMPONENTS_PER_VERTEX,
        VERTEX_COUNT * COMPONENTS_PER_VERTEX == BUFFER_COMPONENTS,
{
}

} // verus!
