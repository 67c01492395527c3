//! The window-event state machine.
//!
//! The dispatcher holds the whole per-run state the core decides on: its
//! phase (`Running` until a close request, then `Terminated` for good),
//! the cursor uniform, the most recently observed window size, and the
//! surface configuration that size demands. Each event maps to at most
//! one action for the driver: reconfigure the surface, render a planned
//! frame, exit the loop, or nothing. Events that arrive after termination
//! are ignored and change nothing.

use vstd::prelude::*;

use crate::frame::{frame_plan, spec_frame_plan_ok, FrameCommand};
use crate::surface::{config_for, spec_config_for, SurfaceConfig, SurfaceSize};
use crate::uniform::{spec_encoding, UniformState};

verus! {

/// A window event, already reduced to the plain values the core reads.
/// Cursor coordinates arrive as f32 bit patterns; `Other` stands for every
/// event kind the application does not react to.
#[derive(Clone, Copy, PartialEq, Eq, Structural, Debug)]
pub enum Event {
    Resized { width: u32, height: u32 },
    CursorMoved { x_bits: u32, y_bits: u32 },
    RedrawRequested,
    CloseRequested,
    Other,
}

/// The dispatcher's phase: `Terminated` is terminal.
#[derive(Clone, Copy, PartialEq, Eq, Structural, Debug)]
pub enum Phase {
    Running,
    Terminated,
}

/// What the driver must do in response to one event.
#[derive(PartialEq, Eq, Debug)]
pub enum Action {
    /// Re-apply the surface configuration.
    Reconfigure { config: SurfaceConfig },
    /// Execute one frame, command by command, in order.
    Render { commands: Vec<FrameCommand> },
    /// Ask the external event loop to exit.
    Exit,
    /// Do nothing.
    Ignore,
}

/// The verified application state, constructed once and driven by events.
#[derive(Clone, Copy, PartialEq, Eq, Structural, Debug)]
pub struct Dispatcher {
    pub phase: Phase,
    pub uniform: UniformState,
    /// The most recently observed window size, as reported (may be 0x0).
    pub size: SurfaceSize,
    /// The configuration the surface currently holds.
    pub config: SurfaceConfig,
}

/// The state a fresh dispatcher starts in: running, cursor unknown, the
/// surface configured for the initial window size.
pub open spec fn spec_init(size: SurfaceSize) -> Dispatcher {
    Dispatcher {
        phase: Phase::Running,
        uniform: UniformState::Unset,
        size,
        config: spec_config_for(size),
    }
}

/// The state transition one event causes. A terminated dispatcher never
/// changes again; while running, a resize retargets the surface
/// synchronously, a cursor move overwrites the uniform, and a close
/// request terminates.
pub open spec fn spec_step(s: Dispatcher, e: Event) -> Dispatcher {
    if s.phase is Terminated {
        s
    } else {
        match e {
            Event::Resized { width, height } => Dispatcher {
                size: SurfaceSize { width, height },
                config: spec_config_for(SurfaceSize { width, height }),
                ..s
            },
            Event::CursorMoved { x_bits, y_bits } => Dispatcher {
                uniform: UniformState::Known { x_bits, y_bits },
                ..s
            },
            Event::RedrawRequested => s,
            Event::CloseRequested => Dispatcher { phase: Phase::Terminated, ..s },
            Event::Other => s,
        }
    }
}

/// The action owed for one event: nothing once terminated; otherwise a
/// reconfigure for a resize, a full frame plan for a cursor move (against
/// the just-updated uniform) or a redraw request (against the current
/// uniform), an exit for a close request, and nothing for the rest.
pub open spec fn spec_action_ok(s: Dispatcher, e: Event, a: Action) -> bool {
    if s.phase is Terminated {
        a is Ignore
    } else {
        match e {
            Event::Resized { width, height } => (a matches Action::Reconfigure { config }
                && config == spec_config_for(SurfaceSize { width, height })),
            Event::CursorMoved { x_bits, y_bits } => (a matches Action::Render { commands }
                && spec_frame_plan_ok(UniformState::Known { x_bits, y_bits }, commands@)),
            Event::RedrawRequested => (a matches Action::Render { commands }
                && spec_frame_plan_ok(s.uniform, commands@)),
            Event::CloseRequested => a is Exit,
            Event::Other => a is Ignore,
        }
    }
}

/// The state a sequence of events drives `s` to, first event first.
pub open spec fn spec_run(s: Dispatcher, es: Seq<Event>) -> Dispatcher
    decreases es.len(),
{
    if es.len() == 0 {
        s
    } else {
        spec_run(spec_step(s, es[0]), es.drop_first())
    }
}

impl Dispatcher {
    /// The surface configuration always matches the most recently observed
    /// window size, clamped; reconfiguration is never deferred.
    pub open spec fn wf(self) -> bool {
        self.config == spec_config_for(self.size)
    }

    /// A dispatcher for a window first observed at `size`. The driver must
    /// apply `config` to the surface before the first frame.
    pub fn new(size: SurfaceSize) -> (d: Dispatcher)
        ensures
            d == spec_init(size),
            d.wf(),
    {
        let config = config_for(size);
        Dispatcher { phase: Phase::Running, uniform: UniformState::Unset, size, config }
    }

    /// Process one event: step the state and hand back the action owed.
    pub fn handle_event(&mut self, e: Event) -> (a: Action)
        ensures
            *final(self) == spec_step(*old(self), e),
            spec_action_ok(*old(self), e, a),
            old(self).wf() ==> final(self).wf(),
    {
        match self.phase {
            Phase::Terminated => Action::Ignore,
            Phase::Running => match e {
                Event::Resized { width, height } => {
                    self.size = SurfaceSize { width, height };
                    let config = config_for(self.size);
                    self.config = config;
                    Action::Reconfigure { config }
                }
                Event::CursorMoved { x_bits, y_bits } => {
                    self.uniform.update(x_bits, y_bits);
                    Action::Render { commands: frame_plan(&self.uniform) }
                }
                Event::RedrawRequested => Action::Render { commands: frame_plan(&self.uniform) },
                Event::CloseRequested => {
                    self.phase = Phase::Terminated;
                    Action::Exit
                }
                Event::Other => Action::Ignore,
            },
        }
    }

    /// The configuration to re-apply when acquiring a surface image fails
    /// because the surface is outdated or lost: the current known size,
    /// clamped. The frame is skipped; the state does not change.
    pub fn recover_surface(&self) -> (c: SurfaceConfig)
        ensures
            c == spec_config_for(self.size),
            c.non_degenerate(),
    {
        config_for(self.size)
    }
}

/// Once terminated, no sequence of further events changes the dispatcher.
pub proof fn lemma_terminated_absorbs(s: Dispatcher, es: Seq<Event>)
    requires
        s.phase is Terminated,
    ensures
        spec_run(s, es) == s,
    decreases es.len(),
{
    if es.len() != 0 {
        lemma_terminated_absorbs(s, es.drop_first());
    }
}

/// A close request terminates the dispatcher, and nothing it sees
/// afterwards is processed: the state after any further events is exactly
/// the state at termination.
pub proof fn lemma_close_is_final(s: Dispatcher, es: Seq<Event>)
    requires
        s.phase is Running,
    ensures
        spec_step(s, Event::CloseRequested).phase is Terminated,
        spec_run(spec_step(s, Event::CloseRequested), es) == spec_step(s, Event::CloseRequested),
{
    lemma_terminated_absorbs(spec_step(s, Event::CloseRequested), es);
}

/// No event but a cursor move ever changes the uniform; in particular the
/// last observed cursor position is kept until the next one (last write
/// wins, never cleared).
pub proof fn lemma_uniform_preserved(s: Dispatcher, es: Seq<Event>)
    requires
        forall|i: int| 0 <= i < es.len() ==> !(#[trigger] es[i] is CursorMoved),
    ensures
        spec_run(s, es).uniform == s.uniform,
    decreases es.len(),
{
    if es.len() != 0 {
        lemma_uniform_preserved(spec_step(s, es[0]), es.drop_first());
    }
}

/// No event but a resize ever changes the observed size or the surface
/// configuration.
pub proof fn lemma_config_preserved(s: Dispatcher, es: Seq<Event>)
    requires
        forall|i: int| 0 <= i < es.len() ==> !(#[trigger] es[i] is Resized),
    ensures
        spec_run(s, es).config == s.config,
        spec_run(s, es).size == s.size,
    decreases es.len(),
{
    if es.len() != 0 {
        lemma_config_preserved(spec_step(s, es[0]), es.drop_first());
    }
}

/// Once a cursor position is known, the uniform never returns to `Unset`,
/// whatever events follow.
pub proof fn lemma_known_stays_known(s: Dispatcher, es: Seq<Event>)
    requires
        s.uniform is Known,
    ensures
        spec_run(s, es).uniform is Known,
    decreases es.len(),
{
    if es.len() != 0 {
        lemma_known_stays_known(spec_step(s, es[0]), es.drop_first());
    }
}

/// Well-formedness — the surface configuration matching the most recently
/// observed window size, clamped — holds after any sequence of events.
pub proof fn lemma_wf_preserved(s: Dispatcher, es: Seq<Event>)
    requires
        s.wf(),
    ensures
        spec_run(s, es).wf(),
    decreases es.len(),
{
    if es.len() != 0 {
        lemma_wf_preserved(spec_step(s, es[0]), es.drop_first());
    }
}

/// Before any cursor move, the uniform still encodes to `None`, and a
/// frame planned then writes nothing to the uniform buffer.
pub proof fn lemma_never_written_before_cursor(
    s: Dispatcher,
    es: Seq<Event>,
    cmds: Seq<FrameCommand>,
)
    requires
        s.uniform is Unset,
        forall|i: int| 0 <= i < es.len() ==> !(#[trigger] es[i] is CursorMoved),
        spec_frame_plan_ok(spec_run(s, es).uniform, cmds),
    ensures
        spec_run(s, es).uniform is Unset,
        spec_run(s, es).uniform.spec_encode() is None,
        forall|i: int| 0 <= i < cmds.len() ==> !(#[trigger] cmds[i] is WriteUniform),
{
    lemma_uniform_preserved(s, es);
    crate::frame::lemma_unset_never_writes(cmds);
}

/// After a cursor move to `(x_bits, y_bits)`, the next frame plan — however
/// many non-cursor events come between — writes exactly the little-endian
/// eight-byte encoding of that position, at the fixed place in the plan.
pub proof fn lemma_next_write_is_cursor(
    s: Dispatcher,
    x_bits: u32,
    y_bits: u32,
    es: Seq<Event>,
    cmds: Seq<FrameCommand>,
)
    requires
        s.phase is Running,
        forall|i: int| 0 <= i < es.len() ==> !(#[trigger] es[i] is CursorMoved),
        spec_frame_plan_ok(
            spec_run(spec_step(s, Event::CursorMoved { x_bits, y_bits }), es).uniform,
            cmds,
        ),
    ensures
        cmds.len() == 9,
        cmds[5] matches FrameCommand::WriteUniform { bytes }
            && bytes@ == spec_encoding(x_bits, y_bits),
{
    lemma_uniform_preserved(spec_step(s, Event::CursorMoved { x_bits, y_bits }), es);
}

/// The surface configuration a render observes matches the most recent
/// resize exactly, clamped to a minimum of 1x1: if `es[k]` is the last
/// resize of the sequence and the dispatcher is still running when it
/// arrives, the final configuration is that size, clamped.
pub proof fn lemma_config_matches_last_resize(s: Dispatcher, es: Seq<Event>, k: int)
    requires
        s.phase is Running,
        0 <= k < es.len(),
        es[k] is Resized,
        forall|i: int| 0 <= i < k ==> !(#[trigger] es[i] is CloseRequested),
        forall|i: int| k < i < es.len() ==> !(#[trigger] es[i] is Resized),
    ensures
        spec_run(s, es).config == spec_config_for(
            SurfaceSize { width: es[k]->width, height: es[k]->height },
        ),
        spec_run(s, es).config.non_degenerate(),
    decreases es.len(),
{
    let stepped = spec_step(s, es[0]);
    if k == 0 {
        lemma_config_preserved(stepped, es.drop_first());
    } else {
        assert(stepped.phase is Running);
        lemma_config_matches_last_resize(stepped, es.drop_first(), k - 1);
    }
}

} // verus!
