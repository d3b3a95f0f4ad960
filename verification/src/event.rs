//! Events delivered to a game, and where the errors its handlers return
//! come from.

use vstd::prelude::*;
use crate::keyboard::KeyCode;

verus! {

/// The handler in which an error originated.
#[derive(Debug, Copy, Clone, PartialEq, Eq, Structural)]
pub enum ErrorOrigin {
    /// The error originated in `update()`.
    Update,
    /// The error originated in `draw()`.
    Draw,
    /// The error originated in `mouse_button_down_event()`.
    MouseButtonDownEvent,
    /// The error originated in `mouse_button_up_event()`.
    MouseButtonUpEvent,
    /// The error originated in `mouse_motion_event()`.
    MouseMotionEvent,
    /// The error originated in `mouse_enter_or_leave()`.
    MouseEnterOrLeave,
    /// The error originated in `mouse_wheel_event()`.
    MouseWheelEvent,
    /// The error originated in `key_down_event()`.
    KeyDownEvent,
    /// The error originated in `key_up_event()`.
    KeyUpEvent,
    /// The error originated in `text_input_event()`.
    TextInputEvent,
    /// The error originated in `touch_event()`.
    TouchEvent,
    /// The error originated in `gamepad_button_down_event()`.
    GamepadButtonDownEvent,
    /// The error originated in `gamepad_button_up_event()`.
    GamepadButtonUpEvent,
    /// The error originated in `gamepad_axis_event()`.
    GamepadAxisEvent,
    /// The error originated in `focus_event()`.
    FocusEvent,
    /// The error originated in `quit_event()`.
    QuitEvent,
    /// The error originated in `resize_event()`.
    ResizeEvent,
}

/// The flags of a game context that steer the event loop.
#[derive(Debug, Copy, Clone, PartialEq, Eq, Structural)]
pub struct LoopFlags {
    /// Whether the loop keeps running; once `false` the loop ends.
    pub continuing: bool,
    /// Whether the game asked to quit since the last turn of the loop.
    pub quit_requested: bool,
}

/// What the event loop does with the current event.
#[derive(Debug, Copy, Clone, PartialEq, Eq, Structural)]
pub enum LoopStep {
    /// Handle the event and go on.
    Proceed,
    /// Stop the loop.
    Exit,
}

/// Hands the error of a handler, if there is one, to `on_error` with the
/// handler it came from; `on_error` says whether the game ends, and that is
/// returned.  Without an error the game goes on and `on_error` is not called.
pub fn catch_error<T, E, H: FnOnce(ErrorOrigin, E) -> bool>(event_result: Result<T, E>, origin: ErrorOrigin, on_error: H) -> (exit: bool)
    requires
        forall|e: E| call_requires(on_error, (origin, e)),
    ensures
        match event_result {
            Ok(_) => !exit,
            Err(e) => call_ensures(on_error, (origin, e), exit),
        },
{
    match event_result {
        Ok(_) => false,
        Err(e) => on_error(origin, e),
    }
}

/// Acts on what the quit handler answered: `Ok(false)` lets the game quit,
/// so the loop stops running; `Ok(true)` cancels the quit; an error goes to
/// `on_error`.  Returns whether the loop must stop at once.
pub fn after_quit_event<E, H: FnOnce(ErrorOrigin, E) -> bool>(flags: &mut LoopFlags, res: Result<bool, E>, on_error: H) -> (exit_now: bool)
    requires
        forall|e: E| call_requires(on_error, (ErrorOrigin::QuitEvent, e)),
    ensures
        final(flags).quit_requested == old(flags).quit_requested,
        match res {
            Ok(false) => !exit_now && !final(flags).continuing,
            Ok(true) => !exit_now && final(flags).continuing == old(flags).continuing,
            Err(e) => call_ensures(on_error, (ErrorOrigin::QuitEvent, e), exit_now)
                && final(flags).continuing == old(flags).continuing,
        },
{
    match res {
        Ok(false) => {
            flags.continuing = false;
            false
        },
        Ok(true) => false,
        Err(e) => catch_error(Err::<bool, E>(e), ErrorOrigin::QuitEvent, on_error),
    }
}

/// The start of each turn of the event loop.  A pending quit request is
/// cleared and put to the quit handler `quit_event`, whose answer
/// [`after_quit_event`] acts on; the loop stops where that says so or where
/// it is no longer running, and else goes on to the event.
pub fn begin_turn<E, Q: FnOnce() -> Result<bool, E>, H: FnOnce(ErrorOrigin, E) -> bool>(
    flags: &mut LoopFlags,
    quit_event: Q,
    on_error: H,
) -> (step: LoopStep)
    requires
        call_requires(quit_event, ()),
        forall|e: E| call_requires(on_error, (ErrorOrigin::QuitEvent, e)),
    ensures
        !final(flags).quit_requested,
        !old(flags).quit_requested ==> {
            &&& *final(flags) == *old(flags)
            &&& step == (if old(flags).continuing { LoopStep::Proceed } else { LoopStep::Exit })
        },
        old(flags).quit_requested ==> exists|res: Result<bool, E>| {
            &&& #[trigger] call_ensures(quit_event, (), res)
            &&& match res {
                Ok(false) => !final(flags).continuing && step == LoopStep::Exit,
                Ok(true) => final(flags).continuing == old(flags).continuing
                    && step == (if old(flags).continuing { LoopStep::Proceed } else { LoopStep::Exit }),
                Err(e) => final(flags).continuing == old(flags).continuing && exists|exit: bool| {
                    &&& #[trigger] call_ensures(on_error, (ErrorOrigin::QuitEvent, e), exit)
                    &&& step == (if exit || !old(flags).continuing { LoopStep::Exit } else { LoopStep::Proceed })
                },
            }
        },
{
    if flags.quit_requested {
        let res = quit_event();
        flags.quit_requested = false;
        let exit_now = after_quit_event(flags, res, on_error);
        if exit_now {
            return LoopStep::Exit;
        }
    }
    if !flags.continuing {
        LoopStep::Exit
    } else {
        LoopStep::Proceed
    }
}

/// A request to close the window, which the event loop treats as a quit
/// request made now: the quit handler `quit_event` is asked, and its answer
/// is acted on by [`after_quit_event`].  Returns whether the loop must stop
/// at once.
pub fn close_requested<E, Q: FnOnce() -> Result<bool, E>, H: FnOnce(ErrorOrigin, E) -> bool>(
    flags: &mut LoopFlags,
    quit_event: Q,
    on_error: H,
) -> (exit_now: bool)
    requires
        call_requires(quit_event, ()),
        forall|e: E| call_requires(on_error, (ErrorOrigin::QuitEvent, e)),
    ensures
        final(flags).quit_requested == old(flags).quit_requested,
        exists|res: Result<bool, E>| {
            &&& #[trigger] call_ensures(quit_event, (), res)
            &&& match res {
                Ok(false) => !exit_now && !final(flags).continuing,
                Ok(true) => !exit_now && final(flags).continuing == old(flags).continuing,
                Err(e) => call_ensures(on_error, (ErrorOrigin::QuitEvent, e), exit_now)
                    && final(flags).continuing == old(flags).continuing,
            }
        },
{
    let res = quit_event();
    after_quit_event(flags, res, on_error)
}

/// The pieces of work of a frame, in the order the event loop does them:
/// the game's `update`, the start of the graphics frame, the game's `draw`,
/// the end of the graphics frame, and keeping the keyboard and mouse state
/// for the next frame.
#[derive(Debug, Copy, Clone, PartialEq, Eq, Structural)]
pub enum FrameWork {
    /// The game's `update` handler.
    Update,
    /// The graphics context starts a frame.
    BeginFrame,
    /// The game's `draw` handler.
    Draw,
    /// The graphics context ends the frame.
    EndFrame,
    /// The keyboard and mouse state is kept as that of the previous frame.
    SaveInputState,
}

/// How a piece of a frame's work came out.
#[derive(Debug, Copy, Clone, PartialEq, Eq, Structural)]
pub enum FrameOutcome {
    /// It succeeded.
    Done,
    /// The game's handler returned an error, and the error handler answered
    /// whether the game ends.
    HandlerFailed(bool),
    /// The graphics context returned an error.
    GraphicsFailed,
}

/// Where a frame stands: the work to do next, if any (none: the turn of the
/// loop is over), and whether the loop stops after this turn.
#[derive(Debug, Copy, Clone, PartialEq, Eq, Structural)]
pub struct FrameState {
    /// The next piece of work, if the frame goes on.
    pub next: Option<FrameWork>,
    /// Whether the event loop is told to exit.
    pub exit: bool,
}

/// The start of a frame: `update` comes first, and the loop is not told to
/// exit.
pub fn frame_start() -> (s: FrameState)
    ensures
        s == (FrameState { next: Some(FrameWork::Update), exit: false }),
{
    FrameState { next: Some(FrameWork::Update), exit: false }
}

/// Whether `outcome` of the work `w` tells the loop to exit: a handler
/// error (of `update` or `draw`) does where the error handler says so, and
/// an error of the graphics context (at the start or end of the frame)
/// always does.
pub open spec fn outcome_exits(w: FrameWork, outcome: FrameOutcome) -> bool {
    match w {
        FrameWork::Update | FrameWork::Draw => outcome == FrameOutcome::HandlerFailed(true),
        FrameWork::BeginFrame | FrameWork::EndFrame => outcome == FrameOutcome::GraphicsFailed,
        FrameWork::SaveInputState => false,
    }
}

/// The work after `w` in a frame that goes on.
pub open spec fn work_after(w: FrameWork) -> Option<FrameWork> {
    match w {
        FrameWork::Update => Some(FrameWork::BeginFrame),
        FrameWork::BeginFrame => Some(FrameWork::Draw),
        FrameWork::Draw => Some(FrameWork::EndFrame),
        FrameWork::EndFrame => Some(FrameWork::SaveInputState),
        FrameWork::SaveInputState => None,
    }
}

/// Where the frame stands after its current work came out as `outcome`.
pub open spec fn frame_next(state: FrameState, outcome: FrameOutcome) -> FrameState {
    FrameState {
        next: if outcome == FrameOutcome::HandlerFailed(true)
            && (state.next == Some(FrameWork::Update) || state.next == Some(FrameWork::Draw)) {
            None
        } else {
            work_after(state.next->0)
        },
        exit: state.exit || outcome_exits(state.next->0, outcome),
    }
}

/// Where the frame stands after its pieces of work came out as `outcomes`,
/// in turn, for as long as it went on.
pub open spec fn frame_after(state: FrameState, outcomes: Seq<FrameOutcome>) -> FrameState
    decreases outcomes.len(),
{
    if outcomes.len() == 0 || state.next is None {
        state
    } else {
        frame_after(frame_next(state, outcomes[0]), outcomes.drop_first())
    }
}

/// Whatever its pieces of work come out as, a frame begun by
/// [`frame_start`] is over after at most five of them, and once the loop
/// is told to exit it stays told for the rest of the frame.
pub proof fn lemma_frame_ends_and_exit_sticks(state: FrameState, outcomes: Seq<FrameOutcome>)
    ensures
        outcomes.len() >= 5 ==> frame_after(FrameState { next: Some(FrameWork::Update), exit: false }, outcomes).next is None,
        state.exit ==> frame_after(state, outcomes).exit,
    decreases outcomes.len(),
{
    if outcomes.len() > 0 && state.next is Some {
        lemma_frame_ends_and_exit_sticks(frame_next(state, outcomes[0]), outcomes.drop_first());
    }
    if outcomes.len() >= 5 {
        lemma_frame_over_from(0, FrameState { next: Some(FrameWork::Update), exit: false }, outcomes);
    }
}

/// A frame standing before its piece of work at position `k` (or already
/// over) is over after `5 - k` more pieces.
proof fn lemma_frame_over_from(k: int, state: FrameState, outcomes: Seq<FrameOutcome>)
    requires
        0 <= k <= 5,
        state.next is None || (k < 5 && state.next == Some(frame_work_at(k))),
        outcomes.len() >= 5 - k,
    ensures
        frame_after(state, outcomes).next is None,
    decreases 5 - k,
{
    if state.next is Some {
        lemma_frame_over_from(k + 1, frame_next(state, outcomes[0]), outcomes.drop_first());
    }
}

/// How each outcome of a frame's work steers the loop, for any frame
/// standing before any work:
/// - a handler error whose error handler answers `false`, like work that
///   succeeds, never tells the loop to exit and lets the frame go on;
/// - a handler error (of `update` or `draw`) whose error handler answers
///   `true` tells the loop to exit and ends the turn at once;
/// - an error of the graphics context (starting or ending the frame)
///   tells the loop to exit, but the frame still goes on;
/// - the loop, once told to exit, stays told.
pub proof fn lemma_frame_routing(state: FrameState, w: FrameWork)
    requires
        state.next == Some(w),
    ensures
        frame_next(state, FrameOutcome::Done).exit == state.exit,
        frame_next(state, FrameOutcome::Done).next == work_after(w),
        (w == FrameWork::Update || w == FrameWork::Draw) ==> {
            &&& frame_next(state, FrameOutcome::HandlerFailed(false)).exit == state.exit
            &&& frame_next(state, FrameOutcome::HandlerFailed(false)).next == work_after(w)
            &&& frame_next(state, FrameOutcome::HandlerFailed(true)).exit
            &&& frame_next(state, FrameOutcome::HandlerFailed(true)).next is None
        },
        (w == FrameWork::BeginFrame || w == FrameWork::EndFrame) ==> {
            &&& frame_next(state, FrameOutcome::GraphicsFailed).exit
            &&& frame_next(state, FrameOutcome::GraphicsFailed).next == work_after(w)
        },
        forall|o: FrameOutcome| state.exit ==> (#[trigger] frame_next(state, o)).exit,
        work_after(FrameWork::Update) == Some(FrameWork::BeginFrame),
        work_after(FrameWork::BeginFrame) == Some(FrameWork::Draw),
        work_after(FrameWork::Draw) == Some(FrameWork::EndFrame),
        work_after(FrameWork::EndFrame) == Some(FrameWork::SaveInputState),
        work_after(FrameWork::SaveInputState) is None,
{
}

/// The piece of work at position `k` of a frame.
pub open spec fn frame_work_at(k: int) -> FrameWork {
    if k == 0 {
        FrameWork::Update
    } else if k == 1 {
        FrameWork::BeginFrame
    } else if k == 2 {
        FrameWork::Draw
    } else if k == 3 {
        FrameWork::EndFrame
    } else {
        FrameWork::SaveInputState
    }
}

/// Acts on how the frame's current work came out.  The loop is told to
/// exit where the outcome says so ([`outcome_exits`]), and stays told once
/// it was.  A handler error that ends the game cuts the frame short: the
/// turn is over at once.  Else the frame goes on with the next work (a
/// failed start of the graphics frame still lets `draw` run, and a failed
/// end still lets the input state be kept), until none is left.
pub fn frame_step(state: FrameState, outcome: FrameOutcome) -> (r: FrameState)
    requires
        state.next is Some,
    ensures
        r == frame_next(state, outcome),
        outcome == FrameOutcome::Done || outcome == FrameOutcome::HandlerFailed(false) ==> r.exit == state.exit,
        outcome == FrameOutcome::HandlerFailed(true) && (state.next == Some(FrameWork::Update)
            || state.next == Some(FrameWork::Draw)) ==> r.exit && r.next is None,
        outcome == FrameOutcome::GraphicsFailed && (state.next == Some(FrameWork::BeginFrame)
            || state.next == Some(FrameWork::EndFrame)) ==> r.exit,
{
    let w = match state.next {
        Some(w) => w,
        None => return state,
    };
    let handler_work = match w {
        FrameWork::Update | FrameWork::Draw => true,
        _ => false,
    };
    let graphics_work = match w {
        FrameWork::BeginFrame | FrameWork::EndFrame => true,
        _ => false,
    };
    let handler_exits = match outcome {
        FrameOutcome::HandlerFailed(exit) => exit,
        _ => false,
    };
    let graphics_failed = match outcome {
        FrameOutcome::GraphicsFailed => true,
        _ => false,
    };
    let exit = state.exit || (handler_work && handler_exits) || (graphics_work && graphics_failed);
    if handler_work && handler_exits {
        return FrameState { next: None, exit };
    }
    let next = match w {
        FrameWork::Update => Some(FrameWork::BeginFrame),
        FrameWork::BeginFrame => Some(FrameWork::Draw),
        FrameWork::Draw => Some(FrameWork::EndFrame),
        FrameWork::EndFrame => Some(FrameWork::SaveInputState),
        FrameWork::SaveInputState => None,
    };
    FrameState { next, exit }
}

/// Whether a key going down, by default, asks the game to quit: the Escape
/// key does.
pub fn key_down_requests_quit(keycode: Option<KeyCode>) -> (quit: bool)
    ensures
        quit == (keycode == Some(KeyCode::Escape)),
{
    match keycode {
        Some(KeyCode::Escape) => true,
        _ => false,
    }
}

} // verus!
