//! The one streamed texture: made once, its whole image replaced by each frame.
use crate::command::{GlCommand, TexParam, TexValue};
use crate::frame::Frame;
use vstd::prelude::*;

verus! {

/// What the texture is: its handle and the dimensions of its current image.
pub struct TextureView {
    pub handle: u32,
    pub width: nat,
    pub height: nat,
}

/// The commands that configure a fresh texture: linear filtering, repeat wrapping.
pub open spec fn texture_setup(handle: u32) -> Seq<GlCommand> {
    seq![
        GlCommand::BindTexture(handle),
        GlCommand::TexParameter(TexParam::WrapS, TexValue::Repeat),
        GlCommand::TexParameter(TexParam::WrapT, TexValue::Repeat),
        GlCommand::TexParameter(TexParam::MinFilter, TexValue::Linear),
        GlCommand::TexParameter(TexParam::MagFilter, TexValue::Linear),
    ]
}

/// The commands that replace the texture's image by `frame`.
pub open spec fn upload_commands(handle: u32, frame: Frame) -> Seq<GlCommand> {
    seq![GlCommand::BindTexture(handle), GlCommand::TexImage2D(frame)]
}

/// The single GPU texture that captured frames stream into.
pub struct TextureStreamer {
    handle: u32,
    width: u32,
    height: u32,
}

impl View for TextureStreamer {
    type V = TextureView;

    closed spec fn view(&self) -> TextureView {
        TextureView { handle: self.handle, width: self.width as nat, height: self.height as nat }
    }
}

impl TextureStreamer {
    /// Takes charge of the texture `handle`, which holds no image yet, and
    /// gives the commands that configure it.
    pub fn create(handle: u32) -> (r: (TextureStreamer, Vec<GlCommand>))
        ensures
            r.0@ == (TextureView { handle, width: 0, height: 0 }),
            r.1@ == texture_setup(handle),
    {
        let commands = vec![
            GlCommand::BindTexture(handle),
            GlCommand::TexParameter(TexParam::WrapS, TexValue::Repeat),
            GlCommand::TexParameter(TexParam::WrapT, TexValue::Repeat),
            GlCommand::TexParameter(TexParam::MinFilter, TexValue::Linear),
            GlCommand::TexParameter(TexParam::MagFilter, TexValue::Linear),
        ];
        (TextureStreamer { handle, width: 0, height: 0 }, commands)
    }

    /// Replaces the texture's whole image by `frame`: binds the texture, then
    /// specifies its image anew. Afterwards the texture has the frame's dimensions.
    pub fn upload(&mut self, frame: Frame) -> (r: Vec<GlCommand>)
        ensures
            final(self)@ == (TextureView { handle: old(self)@.handle, width: frame@.width, height: frame@.height }),
            r@ == upload_commands(old(self)@.handle, frame),
    {
        self.width = frame.width();
        self.height = frame.height();
        vec![GlCommand::BindTexture(self.handle), GlCommand::TexImage2D(frame)]
    }

    pub fn handle(&self) -> (r: u32)
        ensures
            r == self@.handle,
    {
        self.handle
    }

    /// The width and height of the texture's current image.
    pub fn dimensions(&self) -> (r: (u32, u32))
        ensures
            r.0 == self@.width,
            r.1 == self@.height,
    {
        (self.width, self.height)
    }

    /// The command that deletes the texture.
    pub fn release(&self) -> (r: GlCommand)
        ensures
            r == GlCommand::DeleteTexture(self@.handle),
    {
        GlCommand::DeleteTexture(self.handle)
    }
}

} // verus!
