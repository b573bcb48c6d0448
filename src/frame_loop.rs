//! The frame loop: Init, then Running once a first frame is uploaded, then
//! Shutdown, where every GPU resource is released once.
use crate::command::{GlCommand, count_of, is_release, lemma_count_of_absent, lemma_count_of_add};
use crate::frame::Frame;
use crate::quad::{QuadRenderer, QuadView, is_render, quad_release};
use crate::resolution::{Resolution, WindowEvent, is_close_key, requests_close};
use crate::texture::{TextureStreamer, TextureView, upload_commands};
use vstd::prelude::*;

verus! {

#[derive(Debug, PartialEq, Eq, Structural, Clone, Copy)]
pub enum Phase {
    /// Resources made; no frame uploaded yet.
    Init,
    /// A frame is on screen; each tick streams the next one.
    Running,
    /// Resources released; nothing more happens.
    Shutdown,
}

/// What reaches the loop.
#[derive(Debug, PartialEq, Eq)]
pub enum LoopEvent {
    /// An event of the window.
    Window(WindowEvent),
    /// A frame that the stager acquired.
    Captured(Frame),
    /// Acquiring failed with a hard capture error.
    CaptureFailed,
    /// The window was asked to close.
    CloseRequested,
}

/// What the loop is: its phase, the resolution, the texture and the quad's handles.
pub struct LoopView {
    pub phase: Phase,
    pub resolution: Resolution,
    pub texture: TextureView,
    pub quad: QuadView,
}

/// What the loop asks for after an event.
#[derive(Debug, PartialEq, Eq)]
pub struct Step {
    /// The commands to issue, in order.
    pub commands: Vec<GlCommand>,
    /// Whether to set the window's close flag.
    pub request_close: bool,
}

/// The state after event `e`.
pub open spec fn next_state(s: LoopView, e: LoopEvent) -> LoopView {
    if s.phase == Phase::Shutdown {
        s
    } else {
        match e {
            LoopEvent::Window(WindowEvent::FramebufferSize(w, h)) => LoopView {
                resolution: Resolution { width: w, height: h },
                ..s
            },
            LoopEvent::Window(_) => s,
            LoopEvent::Captured(f) => LoopView {
                phase: Phase::Running,
                texture: TextureView { handle: s.texture.handle, width: f@.width, height: f@.height },
                ..s
            },
            _ => LoopView { phase: Phase::Shutdown, ..s },
        }
    }
}

/// The commands that release every resource, newest first: the texture, then
/// the geometry and the program.
pub open spec fn release_commands(s: LoopView) -> Seq<GlCommand> {
    seq![GlCommand::DeleteTexture(s.texture.handle)] + quad_release(s.quad)
}

/// Whether `out` is what the loop in state `s` issues on event `e`.
pub open spec fn is_step_output(s: LoopView, e: LoopEvent, out: Seq<GlCommand>) -> bool {
    if s.phase == Phase::Shutdown {
        out == Seq::<GlCommand>::empty()
    } else {
        match e {
            LoopEvent::Window(WindowEvent::FramebufferSize(w, h)) => out == seq![GlCommand::Viewport(w, h)],
            LoopEvent::Window(_) => out == Seq::<GlCommand>::empty(),
            LoopEvent::Captured(f) => if s.phase == Phase::Init {
                out == upload_commands(s.texture.handle, f)
            } else {
                &&& out.len() == 8
                &&& out[0] == GlCommand::Clear
                &&& out.subrange(1, 3) == upload_commands(s.texture.handle, f)
                &&& is_render(out.subrange(3, 7), s.quad, s.resolution)
                &&& out[7] == GlCommand::Present
            },
            _ => out == release_commands(s),
        }
    }
}

/// The state after each of `events`, in order.
pub open spec fn run(s: LoopView, events: Seq<LoopEvent>) -> LoopView
    decreases events.len(),
{
    if events.len() == 0 {
        s
    } else {
        run(next_state(s, events[0]), events.drop_first())
    }
}

/// Whether `outs[i]` is what the loop issued on `events[i]`, for each `i`,
/// starting from `s`.
pub open spec fn is_trace(s: LoopView, events: Seq<LoopEvent>, outs: Seq<Seq<GlCommand>>) -> bool
    decreases events.len(),
{
    outs.len() == events.len() && (events.len() > 0 ==> is_step_output(s, events[0], outs[0]) && is_trace(
        next_state(s, events[0]),
        events.drop_first(),
        outs.drop_first(),
    ))
}

/// The commands of all steps, one after another.
pub open spec fn flatten(outs: Seq<Seq<GlCommand>>) -> Seq<GlCommand>
    decreases outs.len(),
{
    if outs.len() == 0 {
        seq![]
    } else {
        outs[0] + flatten(outs.drop_first())
    }
}

/// The vertex buffer and the index buffer are two objects, not one.
pub open spec fn handles_distinct(s: LoopView) -> bool {
    s.quad.vbo != s.quad.ebo
}

proof fn lemma_release_counts(s: LoopView, c: GlCommand)
    requires
        handles_distinct(s),
        release_commands(s).contains(c),
    ensures
        count_of(release_commands(s), c) == 1,
{
    reveal_with_fuel(count_of, 6);
    let r = release_commands(s);
    assert(r =~= seq![
        GlCommand::DeleteTexture(s.texture.handle),
        GlCommand::DeleteBuffer(s.quad.ebo),
        GlCommand::DeleteBuffer(s.quad.vbo),
        GlCommand::DeleteVertexArray(s.quad.vao),
        GlCommand::DeleteProgram(s.quad.program),
    ]);
    assert(r.drop_last() =~= r.subrange(0, 4));
    assert(r.drop_last().drop_last() =~= r.subrange(0, 3));
    assert(r.drop_last().drop_last().drop_last() =~= r.subrange(0, 2));
    assert(r.drop_last().drop_last().drop_last().drop_last() =~= r.subrange(0, 1));
    assert(r.subrange(0, 1).drop_last() =~= Seq::<GlCommand>::empty());
}

/// Whatever the loop issues on an event that does not end it releases nothing.
proof fn lemma_step_releases_nothing(s: LoopView, e: LoopEvent, out: Seq<GlCommand>, c: GlCommand)
    requires
        is_step_output(s, e, out),
        is_release(c),
        s.phase == Phase::Shutdown || e is Window || e is Captured,
    ensures
        count_of(out, c) == 0,
{
    assert forall|i: int| 0 <= i < out.len() implies out[i] != c by {
        if s.phase != Phase::Shutdown && e is Captured && s.phase != Phase::Init {
            if 1 <= i < 3 {
                assert(out[i] == out.subrange(1, 3)[i - 1]);
            } else if 3 <= i < 7 {
                assert(out[i] == out.subrange(3, 7)[i - 3]);
            }
        }
    }
    lemma_count_of_absent(out, c);
}

/// Each resource is released exactly once if the loop reaches Shutdown, and
/// never otherwise: whatever events come, in whatever order, a loop that
/// starts before Shutdown with two distinct geometry buffers issues each
/// release command once when it shuts down and never again.
pub proof fn lemma_release_once(s: LoopView, events: Seq<LoopEvent>, outs: Seq<Seq<GlCommand>>, c: GlCommand)
    requires
        handles_distinct(s),
        is_trace(s, events, outs),
        release_commands(s).contains(c),
    ensures
        count_of(flatten(outs), c) == if s.phase != Phase::Shutdown && run(s, events).phase == Phase::Shutdown {
            1nat
        } else {
            0nat
        },
    decreases events.len(),
{
    if events.len() == 0 {
        assert(outs.len() == 0);
        assert(flatten(outs) =~= Seq::<GlCommand>::empty());
    } else {
        let e = events[0];
        let s1 = next_state(s, e);
        assert(release_commands(s1) == release_commands(s));
        lemma_release_once(s1, events.drop_first(), outs.drop_first(), c);
        lemma_count_of_add(outs[0], flatten(outs.drop_first()), c);
        assert(is_release(c)) by {
            let i = choose|i: int| 0 <= i < release_commands(s).len() && release_commands(s)[i] == c;
            assert(0 <= i < 5);
        }
        if s.phase != Phase::Shutdown && !(e is Window) && !(e is Captured) {
            lemma_release_counts(s, c);
            lemma_stays_shut(s1, events.drop_first());
        } else {
            lemma_step_releases_nothing(s, e, outs[0], c);
        }
    }
}

/// Once shut down, the loop stays shut down.
pub proof fn lemma_stays_shut(s: LoopView, events: Seq<LoopEvent>)
    requires
        s.phase == Phase::Shutdown,
    ensures
        run(s, events) == s,
    decreases events.len(),
{
    if events.len() > 0 {
        lemma_stays_shut(next_state(s, events[0]), events.drop_first());
    }
}

/// The frame loop: owns the texture, the quad and the resolution vector.
pub struct FrameLoop {
    phase: Phase,
    texture: TextureStreamer,
    renderer: QuadRenderer,
    resolution: Resolution,
}

impl View for FrameLoop {
    type V = LoopView;

    closed spec fn view(&self) -> LoopView {
        LoopView {
            phase: self.phase,
            resolution: self.resolution,
            texture: self.texture@,
            quad: self.renderer@,
        }
    }
}

impl FrameLoop {
    /// A loop in Init over resources that are made and configured.
    pub fn new(texture: TextureStreamer, renderer: QuadRenderer, resolution: Resolution) -> (r: FrameLoop)
        ensures
            r@ == (LoopView { phase: Phase::Init, resolution, texture: texture@, quad: renderer@ }),
    {
        FrameLoop { phase: Phase::Init, texture, renderer, resolution }
    }

    pub fn phase(&self) -> (r: Phase)
        ensures
            r == self@.phase,
    {
        self.phase
    }

    pub fn resolution(&self) -> (r: Resolution)
        ensures
            r == self@.resolution,
    {
        self.resolution
    }

    /// The width and height of the texture's current image.
    pub fn texture_dimensions(&self) -> (r: (u32, u32))
        ensures
            r.0 == self@.texture.width,
            r.1 == self@.texture.height,
    {
        self.texture.dimensions()
    }

    /// Takes one event. A resize overwrites the resolution and sets the
    /// viewport; Escape asks to close. The first frame is uploaded and starts
    /// the loop; each later frame is a tick: clear, upload, draw at the current
    /// resolution, present. A hard capture error or a close request releases
    /// every resource and ends the loop; after that nothing is issued.
    pub fn step(&mut self, e: LoopEvent) -> (r: Step)
        ensures
            final(self)@ == next_state(old(self)@, e),
            is_step_output(old(self)@, e, r.commands@),
            r.request_close == (old(self)@.phase != Phase::Shutdown && e is Window && is_close_key(e->Window_0)),
    {
        if self.phase == Phase::Shutdown {
            return Step { commands: Vec::new(), request_close: false };
        }
        match e {
            LoopEvent::Window(w) => match w {
                WindowEvent::FramebufferSize(width, height) => {
                    let c = self.resolution.on_resize(width, height);
                    let commands = vec![c];
                    assert(commands@ =~= seq![GlCommand::Viewport(width, height)]);
                    Step { commands, request_close: false }
                },
                _ => {
                    let commands: Vec<GlCommand> = Vec::new();
                    assert(commands@ =~= Seq::<GlCommand>::empty());
                    Step { commands, request_close: requests_close(w) }
                },
            },
            LoopEvent::Captured(f) => {
                if self.phase == Phase::Init {
                    let commands = self.texture.upload(f);
                    self.phase = Phase::Running;
                    Step { commands, request_close: false }
                } else {
                    let mut commands = vec![GlCommand::Clear];
                    let mut upload = self.texture.upload(f);
                    commands.append(&mut upload);
                    let mut draw = self.renderer.render(self.resolution);
                    let ghost drawn = draw@;
                    commands.append(&mut draw);
                    commands.push(GlCommand::Present);
                    assert(commands@.subrange(1, 3) =~= upload_commands(old(self)@.texture.handle, f));
                    assert(commands@.subrange(3, 7) =~= drawn);
                    Step { commands, request_close: false }
                }
            },
            _ => {
                let mut commands = vec![self.texture.release()];
                let mut rest = self.renderer.release();
                commands.append(&mut rest);
                self.phase = Phase::Shutdown;
                assert(commands@ =~= release_commands(old(self)@));
                Step { commands, request_close: false }
            },
        }
    }
}

} // verus!
