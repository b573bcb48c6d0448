//! The resolution vector and the window events that change it.
use crate::command::GlCommand;
use vstd::prelude::*;

verus! {

/// The window's width at startup, in screen coordinates.
pub const WINDOW_WIDTH: u32 = 800;

/// The window's height at startup, in screen coordinates.
pub const WINDOW_HEIGHT: u32 = 450;

/// The viewport's size in pixels, as the shader's resolution uniform holds it.
#[derive(Debug, PartialEq, Eq, Structural, Clone, Copy)]
pub struct Resolution {
    pub width: i32,
    pub height: i32,
}

/// A key of the keyboard, as far as the mirror cares.
#[derive(Debug, PartialEq, Eq, Structural, Clone, Copy)]
pub enum Key {
    Escape,
    Other,
}

#[derive(Debug, PartialEq, Eq, Structural, Clone, Copy)]
pub enum KeyAction {
    Press,
    Release,
    Repeat,
}

/// An event of the window.
#[derive(Debug, PartialEq, Eq, Structural, Clone, Copy)]
pub enum WindowEvent {
    /// The framebuffer now has this width and height in pixels.
    FramebufferSize(i32, i32),
    Key(Key, KeyAction),
    Other,
}

impl Resolution {
    /// The starting resolution for a window of `width` by `height`: twice
    /// each, as a high-density framebuffer has it.
    pub fn for_window(width: u32, height: u32) -> (r: Resolution)
        requires
            2 * width <= i32::MAX,
            2 * height <= i32::MAX,
        ensures
            r.width == 2 * width,
            r.height == 2 * height,
    {
        Resolution { width: (2 * width) as i32, height: (2 * height) as i32 }
    }

    /// The starting resolution of the mirror's window.
    pub fn initial() -> (r: Resolution)
        ensures
            r.width == 2 * WINDOW_WIDTH,
            r.height == 2 * WINDOW_HEIGHT,
    {
        Resolution::for_window(WINDOW_WIDTH, WINDOW_HEIGHT)
    }

    /// Takes the new framebuffer size: the vector becomes `(width, height)`
    /// whatever it was, and the viewport is set to the same size.
    pub fn on_resize(&mut self, width: i32, height: i32) -> (r: GlCommand)
        ensures
            *final(self) == (Resolution { width, height }),
            r == GlCommand::Viewport(width, height),
    {
        self.width = width;
        self.height = height;
        GlCommand::Viewport(width, height)
    }
}

/// Whether the key event asks for the window to close: a press of Escape.
pub open spec fn is_close_key(e: WindowEvent) -> bool {
    e == WindowEvent::Key(Key::Escape, KeyAction::Press)
}

/// Whether the event asks for the window to close.
pub fn requests_close(e: WindowEvent) -> (r: bool)
    ensures
        r == is_close_key(e),
{
    match e {
        WindowEvent::Key(Key::Escape, KeyAction::Press) => true,
        _ => false,
    }
}

/// The resolution after the events, starting from `r`: the last resize wins.
pub open spec fn resolution_after(r: Resolution, events: Seq<WindowEvent>) -> Resolution
    decreases events.len(),
{
    if events.len() == 0 {
        r
    } else {
        let before = resolution_after(r, events.drop_last());
        match events.last() {
            WindowEvent::FramebufferSize(w, h) => Resolution { width: w, height: h },
            _ => before,
        }
    }
}

/// The viewport commands that the events call for, in order.
pub open spec fn viewports_of(events: Seq<WindowEvent>) -> Seq<GlCommand>
    decreases events.len(),
{
    if events.len() == 0 {
        seq![]
    } else {
        let before = viewports_of(events.drop_last());
        match events.last() {
            WindowEvent::FramebufferSize(w, h) => before.push(GlCommand::Viewport(w, h)),
            _ => before,
        }
    }
}

/// Dispatches the pending window events in order: each resize overwrites the
/// resolution and sets the viewport; a press of Escape asks to close.
/// Returns the commands and whether to close.
pub fn process_events(resolution: &mut Resolution, events: &Vec<WindowEvent>) -> (r: (Vec<GlCommand>, bool))
    ensures
        *final(resolution) == resolution_after(*old(resolution), events@),
        r.0@ == viewports_of(events@),
        r.1 == exists|i: int| 0 <= i < events@.len() && is_close_key(#[trigger] events@[i]),
{
    let mut commands: Vec<GlCommand> = Vec::new();
    let mut close = false;
    let mut i: usize = 0;
    while i < events.len()
        invariant
            i <= events@.len(),
            *resolution == resolution_after(*old(resolution), events@.subrange(0, i as int)),
            commands@ == viewports_of(events@.subrange(0, i as int)),
            close == exists|k: int| 0 <= k < i && is_close_key(#[trigger] events@[k]),
        decreases events@.len() - i,
    {
        let e = events[i];
        assert(events@.subrange(0, i + 1).drop_last() =~= events@.subrange(0, i as int));
        match e {
            WindowEvent::FramebufferSize(w, h) => {
                let c = resolution.on_resize(w, h);
                commands.push(c);
            },
            _ => {
                if requests_close(e) {
                    close = true;
                }
            },
        }
        i = i + 1;
    }
    assert(events@.subrange(0, i as int) =~= events@);
    (commands, close)
}

/// A resize overwrites the resolution whatever it was: the vector then holds
/// exactly the new size.
pub proof fn lemma_resize_overwrites(prior: Resolution, events: Seq<WindowEvent>, w: i32, h: i32)
    ensures
        resolution_after(prior, events.push(WindowEvent::FramebufferSize(w, h))) == (Resolution { width: w, height: h }),
        viewports_of(events.push(WindowEvent::FramebufferSize(w, h))).last() == GlCommand::Viewport(w, h),
{
    assert(events.push(WindowEvent::FramebufferSize(w, h)).drop_last() =~= events);
}

} // verus!
