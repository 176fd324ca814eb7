//! The decisions of the engine's event loop: for each event from the windowing layer,
//! which work to run on the frontend and backend jobs, and how their execution states
//! change. The caller performs the work and reports the next event.

use vstd::prelude::*;

use crate::job::ExecutionState;

verus! {

/// Window events the loop reacts to.
#[derive(Copy, Clone, PartialEq, Eq, Structural, Debug)]
pub enum WindowEventKind {
    Resized,
    ScaleFactorChanged,
    CloseRequested,
    Touch,
    MouseInput,
    MouseWheel,
    CursorMoved,
    CursorEntered,
    CursorLeft,
    Other,
}

/// Events of the loop.
#[derive(Copy, Clone, PartialEq, Eq, Structural, Debug)]
pub enum LoopEvent {
    /// The loop starts.
    Init,
    /// New events arrive for another cause than the start.
    NewEvents,
    Window(WindowEventKind),
    Suspended,
    Resumed,
    MainEventsCleared,
    RedrawRequested,
    RedrawEventsCleared,
    LoopDestroyed,
    Other,
}

/// Work the caller performs for an event.
#[derive(Copy, Clone, PartialEq, Eq, Structural, Debug)]
pub enum LoopAction {
    /// Create the window and graphics, attach every part, run both startup tasks.
    Startup,
    /// Report the new size and scale factor to both jobs.
    Resize,
    /// Stop the loop.
    Exit,
    /// Hand the touch to the touch adapter.
    RegisterTouch,
    /// Hand the button report to the mouse adapter.
    RegisterMouseClick,
    /// Record the cursor location.
    SetMouseLocation,
    /// Send a cancellation and mark every followed button course as cancelled.
    CancelMouse,
    /// Run the frontend's main task.
    RunFrontendMain,
    /// Stop the loop if the frontend asked to exit.
    ExitIfRequested,
    /// Extract what the backend renders from the frontend.
    Extract,
    /// Run the backend's main task.
    RunBackendMain,
    /// Render the frame.
    Render,
    /// Ask the window for another redraw.
    RequestRedraw,
    /// Wait for the next event instead of polling.
    Wait,
    /// Run both teardown tasks.
    Teardown,
}

/// What the loop knows of its two jobs.
#[derive(Copy, Clone, PartialEq, Eq, Structural, Debug)]
pub struct LoopState {
    pub frontend: ExecutionState,
    pub backend: ExecutionState,
}

/// The actions for `event`, given the jobs' states and whether each may idle.
pub open spec fn loop_actions(
    state: LoopState,
    event: LoopEvent,
    frontend_can_idle: bool,
    backend_can_idle: bool,
) -> Seq<LoopAction> {
    match event {
        LoopEvent::Init => seq![LoopAction::Startup],
        LoopEvent::Window(kind) => match kind {
            WindowEventKind::Resized => seq![LoopAction::Resize],
            WindowEventKind::ScaleFactorChanged => seq![LoopAction::Resize],
            WindowEventKind::CloseRequested => seq![LoopAction::Exit],
            WindowEventKind::Touch => seq![LoopAction::RegisterTouch],
            WindowEventKind::MouseInput => seq![LoopAction::RegisterMouseClick],
            WindowEventKind::CursorMoved => seq![LoopAction::SetMouseLocation],
            WindowEventKind::CursorLeft => seq![LoopAction::CancelMouse],
            _ => Seq::empty(),
        },
        LoopEvent::MainEventsCleared => if state.frontend == ExecutionState::Active {
            seq![LoopAction::RunFrontendMain, LoopAction::ExitIfRequested]
        } else {
            seq![LoopAction::ExitIfRequested]
        },
        LoopEvent::RedrawRequested => if state.backend == ExecutionState::Active {
            seq![LoopAction::Extract, LoopAction::RunBackendMain, LoopAction::Render]
        } else {
            Seq::empty()
        },
        LoopEvent::RedrawEventsCleared => {
            let redraw: Seq<LoopAction> = if state.backend == ExecutionState::Active {
                seq![LoopAction::RequestRedraw]
            } else {
                Seq::empty()
            };
            if frontend_can_idle && backend_can_idle {
                redraw.push(LoopAction::Wait)
            } else {
                redraw
            }
        },
        LoopEvent::LoopDestroyed => seq![LoopAction::Teardown],
        _ => Seq::empty(),
    }
}

/// The jobs' states after `event`: a suspension suspends both jobs while the frontend is
/// active; a resumption activates both while the frontend is suspended.
pub open spec fn loop_state_after(state: LoopState, event: LoopEvent) -> LoopState {
    match event {
        LoopEvent::Suspended => if state.frontend == ExecutionState::Active {
            LoopState { frontend: ExecutionState::Suspended, backend: ExecutionState::Suspended }
        } else {
            state
        },
        LoopEvent::Resumed => if state.frontend == ExecutionState::Suspended {
            LoopState { frontend: ExecutionState::Active, backend: ExecutionState::Active }
        } else {
            state
        },
        _ => state,
    }
}

/// Decides what the loop does for `event`: updates the jobs' execution states and returns
/// the work to perform, in order.
pub fn loop_step(
    state: &mut LoopState,
    event: LoopEvent,
    frontend_can_idle: bool,
    backend_can_idle: bool,
) -> (actions: Vec<LoopAction>)
    ensures
        *final(state) == loop_state_after(*old(state), event),
        actions@ == loop_actions(*old(state), event, frontend_can_idle, backend_can_idle),
{
    let mut actions: Vec<LoopAction> = Vec::new();
    match event {
        LoopEvent::Init => {
            actions.push(LoopAction::Startup);
        },
        LoopEvent::Window(kind) => {
            match kind {
                WindowEventKind::Resized | WindowEventKind::ScaleFactorChanged => {
                    actions.push(LoopAction::Resize);
                },
                WindowEventKind::CloseRequested => {
                    actions.push(LoopAction::Exit);
                },
                WindowEventKind::Touch => {
                    actions.push(LoopAction::RegisterTouch);
                },
                WindowEventKind::MouseInput => {
                    actions.push(LoopAction::RegisterMouseClick);
                },
                WindowEventKind::CursorMoved => {
                    actions.push(LoopAction::SetMouseLocation);
                },
                WindowEventKind::CursorLeft => {
                    actions.push(LoopAction::CancelMouse);
                },
                _ => {},
            }
        },
        LoopEvent::Suspended => {
            if state.frontend.resumed() {
                state.frontend = ExecutionState::Suspended;
                state.backend = ExecutionState::Suspended;
            }
        },
        LoopEvent::Resumed => {
            if state.frontend.suspended() {
                state.frontend = ExecutionState::Active;
                state.backend = ExecutionState::Active;
            }
        },
        LoopEvent::MainEventsCleared => {
            if state.frontend.resumed() {
                actions.push(LoopAction::RunFrontendMain);
            }
            actions.push(LoopAction::ExitIfRequested);
        },
        LoopEvent::RedrawRequested => {
            if state.backend.resumed() {
                actions.push(LoopAction::Extract);
                actions.push(LoopAction::RunBackendMain);
                actions.push(LoopAction::Render);
            }
        },
        LoopEvent::RedrawEventsCleared => {
            if state.backend.resumed() {
                actions.push(LoopAction::RequestRedraw);
            }
            if frontend_can_idle && backend_can_idle {
                actions.push(LoopAction::Wait);
            }
        },
        LoopEvent::LoopDestroyed => {
            actions.push(LoopAction::Teardown);
        },
        _ => {},
    }
    proof {
        assert(actions@ =~= loop_actions(*old(state), event, frontend_can_idle, backend_can_idle));
    }
    actions
}

/// A suspension followed by a resumption brings running jobs back to running.
pub proof fn lemma_suspend_then_resume(state: LoopState)
    requires
        state.frontend == ExecutionState::Active,
        state.backend == ExecutionState::Active,
    ensures
        loop_state_after(loop_state_after(state, LoopEvent::Suspended), LoopEvent::Resumed)
            == state,
{
}

/// While the jobs are suspended, no frame is rendered and the frontend's main task does
/// not run, but an exit request is still honoured.
pub proof fn lemma_suspended_jobs_do_no_work(state: LoopState, fi: bool, bi: bool)
    requires
        state.frontend == ExecutionState::Suspended,
        state.backend == ExecutionState::Suspended,
    ensures
        loop_actions(state, LoopEvent::RedrawRequested, fi, bi).len() == 0,
        loop_actions(state, LoopEvent::MainEventsCleared, fi, bi) == seq![LoopAction::ExitIfRequested],
        !loop_actions(state, LoopEvent::RedrawEventsCleared, fi, bi).contains(LoopAction::RequestRedraw),
{
    let redraw = loop_actions(state, LoopEvent::RedrawEventsCleared, fi, bi);
    if fi && bi {
        assert(redraw == seq![LoopAction::Wait]);
    }
}

/// Suspending twice is suspending once.
pub proof fn lemma_suspend_idempotent(state: LoopState)
    ensures
        loop_state_after(loop_state_after(state, LoopEvent::Suspended), LoopEvent::Suspended)
            == loop_state_after(state, LoopEvent::Suspended),
{
}

/// Every input the window reports is handed to its handler, whatever the jobs' states:
/// a touch to the touch adapter, a button report to the mouse adapter, a cursor move to
/// the mouse location, the cursor leaving to the mouse cancellation; a resize or a change
/// of scale factor resizes, and a close request exits. None of them changes the jobs'
/// states.
pub proof fn lemma_window_events_are_handled(state: LoopState, fi: bool, bi: bool)
    ensures
        loop_actions(state, LoopEvent::Window(WindowEventKind::Touch), fi, bi)
            == seq![LoopAction::RegisterTouch],
        loop_actions(state, LoopEvent::Window(WindowEventKind::MouseInput), fi, bi)
            == seq![LoopAction::RegisterMouseClick],
        loop_actions(state, LoopEvent::Window(WindowEventKind::CursorMoved), fi, bi)
            == seq![LoopAction::SetMouseLocation],
        loop_actions(state, LoopEvent::Window(WindowEventKind::CursorLeft), fi, bi)
            == seq![LoopAction::CancelMouse],
        loop_actions(state, LoopEvent::Window(WindowEventKind::Resized), fi, bi)
            == seq![LoopAction::Resize],
        loop_actions(state, LoopEvent::Window(WindowEventKind::ScaleFactorChanged), fi, bi)
            == seq![LoopAction::Resize],
        loop_actions(state, LoopEvent::Window(WindowEventKind::CloseRequested), fi, bi)
            == seq![LoopAction::Exit],
        forall|kind: WindowEventKind|
            #[trigger] loop_state_after(state, LoopEvent::Window(kind)) == state,
{
}

/// While the jobs run, the loop starts once, runs the frontend's main task and then
/// checks for an exit when the events are cleared, extracts, runs the backend's main task
/// and renders (in that order) on a redraw, asks for another redraw afterwards (waiting
/// as well exactly when both jobs may idle), and tears down at the end.
pub proof fn lemma_running_loop_does_its_work(state: LoopState, fi: bool, bi: bool)
    requires
        state.frontend == ExecutionState::Active,
        state.backend == ExecutionState::Active,
    ensures
        loop_actions(state, LoopEvent::Init, fi, bi) == seq![LoopAction::Startup],
        loop_actions(state, LoopEvent::MainEventsCleared, fi, bi) == seq![
            LoopAction::RunFrontendMain,
            LoopAction::ExitIfRequested,
        ],
        loop_actions(state, LoopEvent::RedrawRequested, fi, bi) == seq![
            LoopAction::Extract,
            LoopAction::RunBackendMain,
            LoopAction::Render,
        ],
        loop_actions(state, LoopEvent::RedrawEventsCleared, fi, bi) == if fi && bi {
            seq![LoopAction::RequestRedraw, LoopAction::Wait]
        } else {
            seq![LoopAction::RequestRedraw]
        },
        loop_actions(state, LoopEvent::LoopDestroyed, fi, bi) == seq![LoopAction::Teardown],
        loop_state_after(state, LoopEvent::Suspended) == (LoopState {
            frontend: ExecutionState::Suspended,
            backend: ExecutionState::Suspended,
        }),
{
    if fi && bi {
        assert(seq![LoopAction::RequestRedraw].push(LoopAction::Wait) =~= seq![
            LoopAction::RequestRedraw,
            LoopAction::Wait,
        ]);
    }
}

} // verus!
