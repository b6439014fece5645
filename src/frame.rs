//! The frame loop's decisions. Each frame runs, in order: poll input, the
//! guest's `update`, a clearing pass, the guest's `draw` (which submits draw
//! calls), present. The caller performs each action and reports what
//! happened as an event; `FrameLoop::step` decides what comes next.
use vstd::prelude::*;

use crate::engine::{FrameStats, Phase, RenderState, Rock, RockView, after_begin_frame, render_state_of};

verus! {

/// The step of the loop that the next event reports on.
#[derive(Copy, Clone, Debug, PartialEq, Eq, Structural)]
pub enum Stage {
    Load,
    Poll,
    Update,
    Clear,
    Draw,
    Present,
    Done,
}

/// What happened when the caller performed the last action.
#[derive(Copy, Clone, Debug, PartialEq, Eq, Structural)]
pub enum Event {
    /// The guest's `load` ran; `ok` is false if it raised an error.
    Loaded { ok: bool },
    /// Input was polled; `quit` is true on a quit or escape signal.
    Polled { quit: bool },
    /// The guest's `update` ran.
    Updated { ok: bool },
    /// The clearing pass ran; `ok` is false on a render error.
    Cleared { ok: bool },
    /// The guest's `draw` ran.
    Drawn { ok: bool },
    /// The frame was presented.
    Presented,
}

/// What the caller is to do next.
#[derive(Copy, Clone, Debug, PartialEq, Eq)]
pub enum Action {
    CallLoad,
    PollInput,
    /// Call the guest's `update` with the time since the last frame began.
    CallUpdate,
    /// Run a pass with this render state (which clears).
    BeginPass(RenderState),
    CallDraw,
    /// Present the frame whose counters these are.
    Present(FrameStats),
    /// Release resources and leave the loop.
    Shutdown,
}

/// The event that the stage waits for.
pub open spec fn expects(stage: Stage, event: Event) -> bool {
    match stage {
        Stage::Load => event is Loaded,
        Stage::Poll => event is Polled,
        Stage::Update => event is Updated,
        Stage::Clear => event is Cleared,
        Stage::Draw => event is Drawn,
        Stage::Present => event is Presented,
        Stage::Done => false,
    }
}

/// The event reports success (a poll that brings no quit signal counts as one).
pub open spec fn succeeded(event: Event) -> bool {
    match event {
        Event::Loaded { ok } => ok,
        Event::Polled { quit } => !quit,
        Event::Updated { ok } => ok,
        Event::Cleared { ok } => ok,
        Event::Drawn { ok } => ok,
        Event::Presented => true,
    }
}

/// The stage after `stage` when its event succeeded.
pub open spec fn next_stage(stage: Stage) -> Stage {
    match stage {
        Stage::Load => Stage::Poll,
        Stage::Poll => Stage::Update,
        Stage::Update => Stage::Clear,
        Stage::Clear => Stage::Draw,
        Stage::Draw => Stage::Present,
        Stage::Present => Stage::Poll,
        Stage::Done => Stage::Done,
    }
}

/// The engine phase that goes with each stage of a running loop.
pub open spec fn phase_of(stage: Stage) -> Phase {
    match stage {
        Stage::Clear | Stage::Draw => Phase::InFrame,
        Stage::Done => Phase::Stopped,
        _ => Phase::Ready,
    }
}

/// The loop moves on: the stage waits for this event, the event reports
/// success, and the engine is in the phase that goes with the stage (it has
/// not been stopped, by a render error for one).
pub open spec fn proceeds(stage: Stage, event: Event, phase: Phase) -> bool {
    expects(stage, event) && succeeded(event) && phase == phase_of(stage)
}

fn stage_phase(stage: Stage) -> (r: Phase)
    ensures
        r == phase_of(stage),
{
    match stage {
        Stage::Clear | Stage::Draw => Phase::InFrame,
        Stage::Done => Phase::Stopped,
        _ => Phase::Ready,
    }
}

pub struct FrameLoop {
    stage: Stage,
}

impl View for FrameLoop {
    type V = Stage;

    closed spec fn view(&self) -> Stage {
        self.stage
    }
}

impl FrameLoop {
    /// A loop whose first action is to call the guest's `load`; the engine it
    /// steps is to have been initialized.
    pub fn start() -> (r: (FrameLoop, Action))
        ensures
            r.0@ == Stage::Load,
            r.1 == Action::CallLoad,
    {
        (FrameLoop { stage: Stage::Load }, Action::CallLoad)
    }

    pub fn stage(&self) -> (r: Stage)
        ensures
            r == self@,
    {
        self.stage
    }

    /// Decides the next action. An event that fails (a guest error, a render
    /// error, a quit signal), an event the stage does not wait for, or an
    /// engine whose phase does not go with the stage (one stopped by a render
    /// error during the guest's `draw`, say), stops the engine and the loop.
    pub fn step(&mut self, rock: &mut Rock, event: Event) -> (r: Action)
        ensures
            final(rock)@.phase == phase_of(final(self)@),
            proceeds(old(self)@, event, old(rock)@.phase) ==> {
                &&& final(self)@ == next_stage(old(self)@)
                &&& old(self)@ is Load ==> r == Action::PollInput && final(rock)@ == old(rock)@
                &&& old(self)@ is Poll ==> r == Action::CallUpdate && final(rock)@ == old(rock)@
                &&& old(self)@ is Update ==> r == Action::BeginPass(render_state_of(old(rock)@)) && final(rock)@ == after_begin_frame(old(rock)@)
                &&& old(self)@ is Clear ==> r == Action::CallDraw && final(rock)@ == old(rock)@
                &&& old(self)@ is Draw ==> r == Action::Present(FrameStats {
                    draw_calls: old(rock)@.draw_calls as u64,
                    triangles: old(rock)@.triangles as u64,
                }) && final(rock)@ == (RockView { phase: Phase::Ready, ..old(rock)@ })
                &&& old(self)@ is Present ==> r == Action::PollInput && final(rock)@ == old(rock)@
            },
            !proceeds(old(self)@, event, old(rock)@.phase) ==> {
                &&& final(self)@ == Stage::Done
                &&& r == Action::Shutdown
                &&& final(rock)@ == (RockView { phase: Phase::Stopped, ..old(rock)@ })
            },
    {
        let ok = match (self.stage, event) {
            (Stage::Load, Event::Loaded { ok }) => ok,
            (Stage::Poll, Event::Polled { quit }) => !quit,
            (Stage::Update, Event::Updated { ok }) => ok,
            (Stage::Clear, Event::Cleared { ok }) => ok,
            (Stage::Draw, Event::Drawn { ok }) => ok,
            (Stage::Present, Event::Presented) => true,
            _ => false,
        };
        if !ok || rock.phase() != stage_phase(self.stage) {
            rock.stop();
            self.stage = Stage::Done;
            return Action::Shutdown;
        }
        match self.stage {
            Stage::Load => {
                self.stage = Stage::Poll;
                Action::PollInput
            },
            Stage::Poll => {
                self.stage = Stage::Update;
                Action::CallUpdate
            },
            Stage::Update => {
                match rock.begin_frame() {
                    Ok(state) => {
                        self.stage = Stage::Clear;
                        Action::BeginPass(state)
                    },
                    Err(_) => {
                        rock.stop();
                        self.stage = Stage::Done;
                        Action::Shutdown
                    },
                }
            },
            Stage::Clear => {
                self.stage = Stage::Draw;
                Action::CallDraw
            },
            Stage::Draw => {
                match rock.end_frame() {
                    Ok(stats) => {
                        self.stage = Stage::Present;
                        Action::Present(stats)
                    },
                    Err(_) => {
                        rock.stop();
                        self.stage = Stage::Done;
                        Action::Shutdown
                    },
                }
            },
            Stage::Present => {
                self.stage = Stage::Poll;
                Action::PollInput
            },
            Stage::Done => {
                rock.stop();
                Action::Shutdown
            },
        }
    }
}

} // verus!
