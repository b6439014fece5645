//! The engine state: the one long-lived object that holds the renderer
//! configuration, the active camera and the per-frame counters, and decides
//! which draw calls may be issued.
use vstd::prelude::*;

use crate::bits::{ONE, QUARTER};
use crate::camera::Camera;
use crate::math::Transform;
use crate::mesh::{Mesh, MeshGeometry, triangle_count_of};

verus! {

/// Where the engine is in its life.
#[derive(Copy, Clone, Debug, PartialEq, Eq, Structural)]
pub enum Phase {
    /// Constructed; no draw call may be issued yet.
    Uninitialized,
    /// Initialized, between frames.
    Ready,
    /// A frame has begun and draw calls may be issued.
    InFrame,
    /// Shut down after a quit signal or a fatal error.
    Stopped,
}

/// Why the engine refused an operation.
#[derive(Copy, Clone, Debug, PartialEq, Eq, Structural)]
pub enum EngineError {
    /// The engine has not been initialized.
    NotInitialized,
    /// The engine was initialized before.
    AlreadyInitialized,
    /// No frame is in progress.
    NotInFrame,
    /// A frame is already in progress.
    FrameInProgress,
    /// The engine has stopped.
    Stopped,
    /// A frame counter would exceed its range.
    CounterOverflow,
    /// The graphics device failed to carry out a draw call; the engine has
    /// stopped.
    RenderError,
}

/// The render state of one pass: the clear color (red, green, blue, alpha
/// as single-precision bit patterns) and whether the pass clears.
#[derive(Copy, Clone, Debug, PartialEq, Eq)]
pub struct RenderState {
    pub clear_color: [u32; 4],
    pub clear: bool,
}

/// The counters of a finished frame.
#[derive(Copy, Clone, Debug, PartialEq, Eq, Structural)]
pub struct FrameStats {
    pub draw_calls: u64,
    pub triangles: u64,
}

/// A draw call that the engine accepted: the geometry, its transform, the
/// camera and render state in force when it was submitted, and the frame's
/// counters from before it was counted.
pub struct DrawCall {
    pub mesh: Mesh,
    pub model: Transform,
    pub camera: Camera,
    pub render_state: RenderState,
    pub counts_before: FrameStats,
}

/// The clear color that the engine starts with: (0.25, 0.25, 0.25, 1.0).
pub const DEFAULT_CLEAR_COLOR: [u32; 4] = [QUARTER, QUARTER, QUARTER, ONE];

/// The state of the engine as a mathematical value.
pub ghost struct RockView {
    pub phase: Phase,
    pub clear_color: [u32; 4],
    pub camera: Camera,
    pub draw_calls: nat,
    pub triangles: nat,
}

/// The render state for the next pass: a pass that begins a frame clears,
/// the passes of draw calls within a frame do not.
pub open spec fn render_state_of(v: RockView) -> RenderState {
    RenderState { clear_color: v.clear_color, clear: !(v.phase is InFrame) }
}

/// The error that `submit_draw` gives in a phase other than `InFrame`.
pub open spec fn draw_refusal(phase: Phase) -> EngineError {
    match phase {
        Phase::Uninitialized => EngineError::NotInitialized,
        Phase::Stopped => EngineError::Stopped,
        _ => EngineError::NotInFrame,
    }
}

/// Counting one more draw call of `g` keeps both counters within 64 bits.
pub open spec fn draw_fits(v: RockView, g: MeshGeometry) -> bool {
    v.draw_calls + 1 <= u64::MAX && v.triangles + triangle_count_of(g) <= u64::MAX
}

/// The state after a draw call of `g` was accepted.
pub open spec fn after_draw(v: RockView, g: MeshGeometry) -> RockView {
    RockView { draw_calls: v.draw_calls + 1, triangles: v.triangles + triangle_count_of(g), ..v }
}

/// The state after a frame began.
pub open spec fn after_begin_frame(v: RockView) -> RockView {
    RockView { phase: Phase::InFrame, draw_calls: 0, triangles: 0, ..v }
}

/// The state after draw calls of each of `gs`, in order, were accepted.
pub open spec fn after_draws(v: RockView, gs: Seq<MeshGeometry>) -> RockView
    decreases gs.len(),
{
    if gs.len() == 0 {
        v
    } else {
        after_draw(after_draws(v, gs.drop_last()), gs.last())
    }
}

/// The triangles of all of `gs`.
pub open spec fn total_triangles(gs: Seq<MeshGeometry>) -> nat
    decreases gs.len(),
{
    if gs.len() == 0 {
        0
    } else {
        total_triangles(gs.drop_last()) + triangle_count_of(gs.last())
    }
}

/// Within a frame, the counters start at zero and, after any sequence of
/// accepted draw calls, hold exactly the number of those calls and the sum
/// of their meshes' triangles; nothing else about the engine changes.
pub proof fn lemma_frame_counters(v: RockView, gs: Seq<MeshGeometry>)
    requires
        v.phase is Ready,
    ensures
        after_begin_frame(v).draw_calls == 0,
        after_begin_frame(v).triangles == 0,
        after_draws(after_begin_frame(v), gs).draw_calls == gs.len(),
        after_draws(after_begin_frame(v), gs).triangles == total_triangles(gs),
        after_draws(after_begin_frame(v), gs) == (RockView {
            draw_calls: gs.len(),
            triangles: total_triangles(gs),
            ..after_begin_frame(v)
        }),
    decreases gs.len(),
{
    if gs.len() > 0 {
        lemma_frame_counters(v, gs.drop_last());
    }
}

/// The engine state. There is one per process; it is handed by exclusive
/// reference to whatever needs to change it.
pub struct Rock {
    phase: Phase,
    clear_color: [u32; 4],
    camera: Camera,
    draw_calls: u64,
    tri_count: u64,
}

impl View for Rock {
    type V = RockView;

    closed spec fn view(&self) -> RockView {
        RockView {
            phase: self.phase,
            clear_color: self.clear_color,
            camera: self.camera,
            draw_calls: self.draw_calls as nat,
            triangles: self.tri_count as nat,
        }
    }
}

impl Rock {
    /// An uninitialized engine with the default clear color and camera.
    pub fn new() -> (r: Rock)
        ensures
            r@.phase == Phase::Uninitialized,
            r@.clear_color == DEFAULT_CLEAR_COLOR,
            r@.camera == Camera::default_camera_spec(),
            r@.draw_calls == 0,
            r@.triangles == 0,
    {
        Rock {
            phase: Phase::Uninitialized,
            clear_color: DEFAULT_CLEAR_COLOR,
            camera: Camera::default_camera(),
            draw_calls: 0,
            tri_count: 0,
        }
    }

    pub fn phase(&self) -> (r: Phase)
        ensures
            r == self@.phase,
    {
        self.phase
    }

    /// Moves an uninitialized engine to `Ready`.
    pub fn init(&mut self) -> (r: Result<(), EngineError>)
        ensures
            old(self)@.phase is Uninitialized ==> r is Ok && final(self)@ == (RockView { phase: Phase::Ready, ..old(self)@ }),
            old(self)@.phase is Stopped ==> r == Err::<(), EngineError>(EngineError::Stopped) && final(self)@ == old(self)@,
            (old(self)@.phase is Ready || old(self)@.phase is InFrame) ==> r == Err::<(), EngineError>(EngineError::AlreadyInitialized) && final(self)@ == old(self)@,
    {
        match self.phase {
            Phase::Uninitialized => {
                self.phase = Phase::Ready;
                Ok(())
            },
            Phase::Stopped => Err(EngineError::Stopped),
            _ => Err(EngineError::AlreadyInitialized),
        }
    }

    /// Sets the clear color; the next pass that clears uses it.
    pub fn set_clear_color(&mut self, rgba: [u32; 4])
        ensures
            final(self)@ == (RockView { clear_color: rgba, ..old(self)@ }),
    {
        self.clear_color = rgba;
    }

    pub fn clear_color(&self) -> (r: [u32; 4])
        ensures
            r == self@.clear_color,
    {
        self.clear_color
    }

    /// The render state to use for the next pass.
    pub fn current_render_state(&self) -> (r: RenderState)
        ensures
            r == render_state_of(self@),
    {
        RenderState { clear_color: self.clear_color, clear: !matches!(self.phase, Phase::InFrame) }
    }

    pub fn active_camera(&self) -> (r: Camera)
        ensures
            r == self@.camera,
    {
        self.camera
    }

    /// Replaces the active camera; draw calls submitted later use it.
    pub fn set_active_camera(&mut self, camera: Camera)
        ensures
            final(self)@ == (RockView { camera, ..old(self)@ }),
    {
        self.camera = camera;
    }

    /// Begins a frame: resets the counters and returns the render state of
    /// the frame's first pass, which clears.
    pub fn begin_frame(&mut self) -> (r: Result<RenderState, EngineError>)
        ensures
            old(self)@.phase is Ready ==> {
                &&& final(self)@ == after_begin_frame(old(self)@)
                &&& r == Ok::<RenderState, EngineError>(render_state_of(old(self)@))
                &&& render_state_of(old(self)@).clear
            },
            !(old(self)@.phase is Ready) ==> final(self)@ == old(self)@ && r == Err::<RenderState, EngineError>(
                match old(self)@.phase {
                    Phase::Uninitialized => EngineError::NotInitialized,
                    Phase::InFrame => EngineError::FrameInProgress,
                    _ => EngineError::Stopped,
                },
            ),
    {
        match self.phase {
            Phase::Ready => {
                let state = self.current_render_state();
                self.phase = Phase::InFrame;
                self.draw_calls = 0;
                self.tri_count = 0;
                Ok(state)
            },
            Phase::Uninitialized => Err(EngineError::NotInitialized),
            Phase::InFrame => Err(EngineError::FrameInProgress),
            Phase::Stopped => Err(EngineError::Stopped),
        }
    }

    /// Accepts a draw call of `mesh` placed by `transform` under the active
    /// camera, and counts it and its triangles. Outside a frame, and before
    /// initialization in particular, the call is refused.
    pub fn submit_draw(&mut self, mesh: &Mesh, transform: &Transform) -> (r: Result<DrawCall, EngineError>)
        ensures
            !(old(self)@.phase is InFrame) ==> (final(self)@ == old(self)@ && r is Err && r->Err_0 == draw_refusal(old(self)@.phase)),
            old(self)@.phase is InFrame && draw_fits(old(self)@, mesh@) ==> {
                &&& final(self)@ == after_draw(old(self)@, mesh@)
                &&& r is Ok
                &&& r->Ok_0.mesh@ == mesh@
                &&& r->Ok_0.model == *transform
                &&& r->Ok_0.camera == old(self)@.camera
                &&& r->Ok_0.render_state == render_state_of(old(self)@)
                &&& !r->Ok_0.render_state.clear
                &&& r->Ok_0.counts_before.draw_calls == old(self)@.draw_calls
                &&& r->Ok_0.counts_before.triangles == old(self)@.triangles
            },
            old(self)@.phase is InFrame && !draw_fits(old(self)@, mesh@) ==> (final(self)@ == old(self)@ && r is Err && r->Err_0 == EngineError::CounterOverflow),
    {
        match self.phase {
            Phase::InFrame => {},
            Phase::Uninitialized => {
                return Err(EngineError::NotInitialized);
            },
            Phase::Stopped => {
                return Err(EngineError::Stopped);
            },
            _ => {
                return Err(EngineError::NotInFrame);
            },
        }
        let tris = mesh.tri_count() as u64;
        if self.draw_calls == u64::MAX || self.tri_count > u64::MAX - tris {
            return Err(EngineError::CounterOverflow);
        }
        let render_state = self.current_render_state();
        let counts_before = FrameStats { draw_calls: self.draw_calls, triangles: self.tri_count };
        self.draw_calls = self.draw_calls + 1;
        self.tri_count = self.tri_count + tris;
        Ok(DrawCall { mesh: mesh.share(), model: *transform, camera: self.camera, render_state, counts_before })
    }

    /// Ends the frame in progress and returns its counters.
    pub fn end_frame(&mut self) -> (r: Result<FrameStats, EngineError>)
        ensures
            old(self)@.phase is InFrame ==> {
                &&& final(self)@ == (RockView { phase: Phase::Ready, ..old(self)@ })
                &&& r matches Ok(s) && s.draw_calls == old(self)@.draw_calls && s.triangles == old(self)@.triangles
            },
            !(old(self)@.phase is InFrame) ==> (final(self)@ == old(self)@ && r is Err && r->Err_0 == draw_refusal(old(self)@.phase)),
    {
        match self.phase {
            Phase::InFrame => {
                self.phase = Phase::Ready;
                Ok(FrameStats { draw_calls: self.draw_calls, triangles: self.tri_count })
            },
            Phase::Uninitialized => Err(EngineError::NotInitialized),
            Phase::Stopped => Err(EngineError::Stopped),
            _ => Err(EngineError::NotInFrame),
        }
    }

    /// The draw calls counted in the current (or last) frame.
    pub fn draw_calls(&self) -> (r: u64)
        ensures
            r == self@.draw_calls,
    {
        self.draw_calls
    }

    /// The triangles counted in the current (or last) frame.
    pub fn triangles(&self) -> (r: u64)
        ensures
            r == self@.triangles,
    {
        self.tri_count
    }

    /// Records that the graphics device failed to carry out `call`: the call
    /// is taken back out of the counters and the engine stops, since the
    /// renderer's state is then unknown.
    pub fn report_render_error(&mut self, call: &DrawCall) -> (r: EngineError)
        ensures
            r == EngineError::RenderError,
            final(self)@ == (RockView {
                phase: Phase::Stopped,
                draw_calls: call.counts_before.draw_calls as nat,
                triangles: call.counts_before.triangles as nat,
                ..old(self)@
            }),
    {
        self.draw_calls = call.counts_before.draw_calls;
        self.tri_count = call.counts_before.triangles;
        self.phase = Phase::Stopped;
        EngineError::RenderError
    }

    /// Shuts the engine down; nothing is drawn after this.
    pub fn stop(&mut self)
        ensures
            final(self)@ == (RockView { phase: Phase::Stopped, ..old(self)@ }),
    {
        self.phase = Phase::Stopped;
    }
}

} // verus!
