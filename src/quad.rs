//! The full-viewport quad: its geometry, and the draw that samples the texture across it.
use crate::command::{GlCommand, VertexAttribute};
use crate::resolution::Resolution;
use crate::shader::{Shader, sets_vec2};
use vstd::prelude::*;

verus! {

/// Components per vertex: position (3), colour (3), texture coordinate (2).
pub const VERTEX_STRIDE: u32 = 8;

/// Indices drawn per frame: two triangles.
pub const QUAD_INDEX_COUNT: u32 = 6;

/// The four corners, each as position, colour and texture coordinate:
/// top right, bottom right, bottom left, top left.
pub open spec fn quad_vertex_data() -> Seq<i8> {
    seq![
        1i8, 1, 0, 1, 0, 0, 1, 1,
        1, -1i8, 0, 0, 1, 0, 1, 0,
        -1i8, -1i8, 0, 0, 0, 1, 0, 0,
        -1i8, 1, 0, 1, 1, 0, 0, 1,
    ]
}

/// The two triangles, as corners of the quad.
pub open spec fn quad_index_data() -> Seq<u32> {
    seq![0u32, 1, 3, 1, 2, 3]
}

/// The attributes of one vertex: position, colour, texture coordinate.
pub open spec fn vertex_layout_data() -> Seq<VertexAttribute> {
    seq![
        VertexAttribute { location: 0, components: 3, offset: 0, stride: VERTEX_STRIDE },
        VertexAttribute { location: 1, components: 3, offset: 3, stride: VERTEX_STRIDE },
        VertexAttribute { location: 2, components: 2, offset: 6, stride: VERTEX_STRIDE },
    ]
}

/// The vertex components of the quad, which spans clip space from -1 to 1.
pub fn quad_vertices() -> (r: Vec<i8>)
    ensures
        r@ == quad_vertex_data(),
        r@.len() == 4 * VERTEX_STRIDE,
{
    let r: Vec<i8> = vec![
        1, 1, 0, 1, 0, 0, 1, 1,
        1, -1, 0, 0, 1, 0, 1, 0,
        -1, -1, 0, 0, 0, 1, 0, 0,
        -1, 1, 0, 1, 1, 0, 0, 1,
    ];
    assert(r@ =~= quad_vertex_data());
    r
}

pub fn quad_indices() -> (r: Vec<u32>)
    ensures
        r@ == quad_index_data(),
        r@.len() == QUAD_INDEX_COUNT,
{
    let r: Vec<u32> = vec![0, 1, 3, 1, 2, 3];
    assert(r@ =~= quad_index_data());
    r
}

pub fn vertex_layout() -> (r: Vec<VertexAttribute>)
    ensures
        r@ == vertex_layout_data(),
{
    let r: Vec<VertexAttribute> = vec![
        VertexAttribute { location: 0, components: 3, offset: 0, stride: VERTEX_STRIDE },
        VertexAttribute { location: 1, components: 3, offset: 3, stride: VERTEX_STRIDE },
        VertexAttribute { location: 2, components: 2, offset: 6, stride: VERTEX_STRIDE },
    ];
    assert(r@ =~= vertex_layout_data());
    r
}

/// The handles that the renderer owns.
pub struct QuadView {
    pub program: u32,
    pub vao: u32,
    pub vbo: u32,
    pub ebo: u32,
}

/// Whether `s` is the setup of the geometry: the vertex array bound, the vertex
/// buffer bound and filled with the quad's vertices, the index buffer bound and
/// filled with its indices, then the three attributes described and enabled.
pub open spec fn is_quad_setup(s: Seq<GlCommand>, q: QuadView) -> bool {
    &&& s.len() == 8
    &&& s[0] == GlCommand::BindVertexArray(q.vao)
    &&& s[1] == GlCommand::BindArrayBuffer(q.vbo)
    &&& s[2] is ArrayBufferData && s[2]->ArrayBufferData_0@ == quad_vertex_data()
    &&& s[3] == GlCommand::BindElementBuffer(q.ebo)
    &&& s[4] is ElementBufferData && s[4]->ElementBufferData_0@ == quad_index_data()
    &&& forall|k: int| 0 <= k < 3 ==> s[5 + k] == GlCommand::EnableAttribute(#[trigger] vertex_layout_data()[k])
}

/// Whether `s` is one draw of the quad at resolution `res`: the program made
/// current, its "resolution" uniform set, the vertex array bound, six indices drawn.
pub open spec fn is_render(s: Seq<GlCommand>, q: QuadView, res: Resolution) -> bool {
    &&& s.len() == 4
    &&& s[0] == GlCommand::UseProgram(q.program)
    &&& sets_vec2(s[1], "resolution"@, res.width, res.height)
    &&& s[2] == GlCommand::BindVertexArray(q.vao)
    &&& s[3] == GlCommand::DrawElements(QUAD_INDEX_COUNT)
}

/// The commands that release the geometry and the program, newest first.
pub open spec fn quad_release(q: QuadView) -> Seq<GlCommand> {
    seq![
        GlCommand::DeleteBuffer(q.ebo),
        GlCommand::DeleteBuffer(q.vbo),
        GlCommand::DeleteVertexArray(q.vao),
        GlCommand::DeleteProgram(q.program),
    ]
}

/// Draws the quad with the shader program, sampling the bound texture.
pub struct QuadRenderer {
    shader: Shader,
    vao: u32,
    vbo: u32,
    ebo: u32,
}

impl View for QuadRenderer {
    type V = QuadView;

    closed spec fn view(&self) -> QuadView {
        QuadView { program: self.shader.id, vao: self.vao, vbo: self.vbo, ebo: self.ebo }
    }
}

impl QuadRenderer {
    /// Takes charge of the program and the three geometry handles, and gives
    /// the commands that fill and describe the geometry.
    pub fn new(shader: Shader, vao: u32, vbo: u32, ebo: u32) -> (r: (QuadRenderer, Vec<GlCommand>))
        ensures
            r.0@ == (QuadView { program: shader.id, vao, vbo, ebo }),
            is_quad_setup(r.1@, r.0@),
    {
        let layout = vertex_layout();
        let mut commands: Vec<GlCommand> = Vec::new();
        commands.push(GlCommand::BindVertexArray(vao));
        commands.push(GlCommand::BindArrayBuffer(vbo));
        commands.push(GlCommand::ArrayBufferData(quad_vertices()));
        commands.push(GlCommand::BindElementBuffer(ebo));
        commands.push(GlCommand::ElementBufferData(quad_indices()));
        let mut i: usize = 0;
        while i < layout.len()
            invariant
                layout@ == vertex_layout_data(),
                0 <= i <= 3,
                commands@.len() == 5 + i,
                commands@[0] == GlCommand::BindVertexArray(vao),
                commands@[1] == GlCommand::BindArrayBuffer(vbo),
                commands@[2] is ArrayBufferData && commands@[2]->ArrayBufferData_0@ == quad_vertex_data(),
                commands@[3] == GlCommand::BindElementBuffer(ebo),
                commands@[4] is ElementBufferData && commands@[4]->ElementBufferData_0@ == quad_index_data(),
                forall|k: int| 0 <= k < i ==> commands@[5 + k] == GlCommand::EnableAttribute(#[trigger] layout@[k]),
            decreases 3 - i,
        {
            commands.push(GlCommand::EnableAttribute(layout[i]));
            i = i + 1;
        }
        (QuadRenderer { shader, vao, vbo, ebo }, commands)
    }

    pub fn shader(&self) -> (r: Shader)
        ensures
            r.id == self@.program,
    {
        self.shader
    }

    /// One draw of the quad at `res`. It reads only the renderer and `res`,
    /// so two draws with the same resolution issue the same commands.
    pub fn render(&self, res: Resolution) -> (r: Vec<GlCommand>)
        ensures
            is_render(r@, self@, res),
    {
        let mut r: Vec<GlCommand> = Vec::new();
        r.push(self.shader.use_program());
        r.push(self.shader.set_vec2("resolution", (res.width, res.height)));
        r.push(GlCommand::BindVertexArray(self.vao));
        r.push(GlCommand::DrawElements(QUAD_INDEX_COUNT));
        r
    }

    /// The commands that release the index buffer, the vertex buffer, the
    /// vertex array and the program, in that order.
    pub fn release(&self) -> (r: Vec<GlCommand>)
        ensures
            r@ == quad_release(self@),
    {
        let ghost v = self@;
        let r = vec![
            GlCommand::DeleteBuffer(self.ebo),
            GlCommand::DeleteBuffer(self.vbo),
            GlCommand::DeleteVertexArray(self.vao),
            self.shader.release(),
        ];
        assert(r@ =~= quad_release(v));
        r
    }
}

/// Two draws of the same renderer at the same resolution issue the same
/// commands, the uniform's name and values included: drawing keeps no state.
pub proof fn lemma_render_repeatable(q: QuadView, res: Resolution, a: Seq<GlCommand>, b: Seq<GlCommand>)
    requires
        is_render(a, q, res),
        is_render(b, q, res),
    ensures
        a.len() == b.len(),
        forall|i: int| 0 <= i < a.len() && i != 1 ==> a[i] == b[i],
        a[1] is UniformVec2 && b[1] is UniformVec2,
        a[1]->UniformVec2_0@ == b[1]->UniformVec2_0@,
        a[1]->UniformVec2_1 == b[1]->UniformVec2_1,
        a[1]->UniformVec2_2 == b[1]->UniformVec2_2,
{
}

} // verus!
