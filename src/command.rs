//! The GPU commands that the library decides on, in the order they are to be issued.
use crate::frame::Frame;
use vstd::prelude::*;

verus! {

/// A texture parameter that is set once, when the texture is made.
#[derive(Debug, PartialEq, Eq, Structural, Clone, Copy)]
pub enum TexParam {
    WrapS,
    WrapT,
    MinFilter,
    MagFilter,
}

/// The value given to a texture parameter.
#[derive(Debug, PartialEq, Eq, Structural, Clone, Copy)]
pub enum TexValue {
    Repeat,
    Linear,
}

/// One vertex attribute of the interleaved quad geometry, in counts of components.
#[derive(Debug, PartialEq, Eq, Structural, Clone, Copy)]
pub struct VertexAttribute {
    /// The shader's attribute slot.
    pub location: u32,
    /// How many components the attribute has.
    pub components: u32,
    /// Where the attribute starts within one vertex.
    pub offset: u32,
    /// How many components one vertex holds in all.
    pub stride: u32,
}

/// One call to issue to the GPU or the window.
#[derive(Debug, PartialEq, Eq)]
pub enum GlCommand {
    /// Clear the colour buffer to the background colour.
    Clear,
    /// Make the texture current on the active texture unit.
    BindTexture(u32),
    /// Set a parameter of the current texture.
    TexParameter(TexParam, TexValue),
    /// Replace the current texture's whole image with the frame, as
    /// four unsigned bytes per pixel, with no mipmaps.
    TexImage2D(Frame),
    /// Make the program current.
    UseProgram(u32),
    /// Set an integer uniform of the current program.
    UniformInt(String, i32),
    /// Set a two-component uniform of the current program; the
    /// components are whole numbers, handed to the shader as floats.
    UniformVec2(String, i32, i32),
    /// Make the vertex-array object current.
    BindVertexArray(u32),
    /// Make the buffer the current vertex buffer.
    BindArrayBuffer(u32),
    /// Fill the current vertex buffer with these vertex components.
    ArrayBufferData(Vec<i8>),
    /// Make the buffer the current index buffer.
    BindElementBuffer(u32),
    /// Fill the current index buffer with these indices.
    ElementBufferData(Vec<u32>),
    /// Describe and enable one vertex attribute.
    EnableAttribute(VertexAttribute),
    /// Draw triangles from this many indices of the current index buffer.
    DrawElements(u32),
    /// Map clip space onto a viewport of this width and height.
    Viewport(i32, i32),
    /// Show the rendered framebuffer.
    Present,
    DeleteTexture(u32),
    DeleteBuffer(u32),
    DeleteVertexArray(u32),
    DeleteProgram(u32),
}

/// Whether the command releases a GPU resource.
pub open spec fn is_release(c: GlCommand) -> bool {
    c is DeleteTexture || c is DeleteBuffer || c is DeleteVertexArray || c is DeleteProgram
}

/// How many times `c` occurs in `s`.
pub open spec fn count_of(s: Seq<GlCommand>, c: GlCommand) -> nat
    decreases s.len(),
{
    if s.len() == 0 {
        0
    } else {
        count_of(s.drop_last(), c) + if s.last() == c { 1nat } else { 0nat }
    }
}

/// Counting occurrences adds up over concatenation.
pub proof fn lemma_count_of_add(a: Seq<GlCommand>, b: Seq<GlCommand>, c: GlCommand)
    ensures
        count_of(a + b, c) == count_of(a, c) + count_of(b, c),
    decreases b.len(),
{
    if b.len() == 0 {
        assert(a + b =~= a);
    } else {
        assert((a + b).drop_last() =~= a + b.drop_last());
        lemma_count_of_add(a, b.drop_last(), c);
    }
}

/// A sequence that does not hold `c` counts it zero times.
pub proof fn lemma_count_of_absent(s: Seq<GlCommand>, c: GlCommand)
    requires
        forall|i: int| 0 <= i < s.len() ==> s[i] != c,
    ensures
        count_of(s, c) == 0,
    decreases s.len(),
{
    if s.len() > 0 {
        lemma_count_of_absent(s.drop_last(), c);
    }
}

} // verus!
