use ggez::event::{
    after_quit_event, begin_turn, catch_error, close_requested, frame_start, frame_step, key_down_requests_quit,
    ErrorOrigin, FrameOutcome, FrameState, FrameWork, LoopFlags, LoopStep,
};
use ggez::keyboard::KeyCode;

fn flags(continuing: bool, quit_requested: bool) -> LoopFlags {
    LoopFlags { continuing, quit_requested }
}

fn run_frame(outcomes: &[FrameOutcome]) -> (Vec<FrameWork>, FrameState) {
    let mut s = frame_start();
    let mut done = Vec::new();
    for o in outcomes {
        match s.next {
            Some(w) => {
                done.push(w);
                s = frame_step(s, *o);
            }
            None => break,
        }
    }
    (done, s)
}

#[test]
fn handler_errors_go_to_the_error_handler() {
    assert!(!catch_error(Ok::<(), String>(()), ErrorOrigin::Update, |_, _: String| -> bool { panic!("not called") }));
    let mut seen = None;
    let exit = catch_error(Err::<(), String>(String::from("boom")), ErrorOrigin::Draw, |o, e| {
        seen = Some((o, e));
        true
    });
    assert!(exit);
    assert_eq!(seen, Some((ErrorOrigin::Draw, String::from("boom"))));
    assert!(!catch_error(Err::<(), String>(String::from("minor")), ErrorOrigin::Update, |_, _| false));
}

#[test]
fn quit_answers_are_acted_on() {
    let mut f = flags(true, false);
    assert!(!after_quit_event(&mut f, Ok::<bool, String>(false), |_, _| true));
    assert!(!f.continuing);
    let mut f = flags(true, false);
    assert!(!after_quit_event(&mut f, Ok::<bool, String>(true), |_, _| true));
    assert!(f.continuing);
    let mut f = flags(true, false);
    assert!(after_quit_event(&mut f, Err::<bool, String>(String::from("e")), |o, _| o == ErrorOrigin::QuitEvent));
    assert!(f.continuing);
}

#[test]
fn a_turn_puts_a_pending_quit_to_the_game() {
    let mut f = flags(true, true);
    assert_eq!(begin_turn(&mut f, || Ok::<bool, String>(false), |_, _| false), LoopStep::Exit);
    assert_eq!(f, flags(false, false));
    let mut f = flags(true, true);
    assert_eq!(begin_turn(&mut f, || Ok::<bool, String>(true), |_, _| false), LoopStep::Proceed);
    assert_eq!(f, flags(true, false));
    let mut f = flags(true, false);
    assert_eq!(begin_turn(&mut f, || -> Result<bool, String> { panic!("not asked") }, |_, _| false), LoopStep::Proceed);
    let mut f = flags(false, false);
    assert_eq!(begin_turn(&mut f, || Ok::<bool, String>(true), |_, _| false), LoopStep::Exit);
}

#[test]
fn closing_the_window_asks_the_quit_handler() {
    let mut f = flags(true, false);
    assert!(!close_requested(&mut f, || Ok::<bool, String>(false), |_, _| true));
    assert_eq!(f, flags(false, false));
    let mut f = flags(true, true);
    assert!(!close_requested(&mut f, || Ok::<bool, String>(true), |_, _| true));
    assert_eq!(f, flags(true, true));
    let mut f = flags(true, false);
    assert!(close_requested(&mut f, || Err::<bool, String>(String::from("no")), |_, _| true));
    assert_eq!(f, flags(true, false));
    let mut f = flags(true, false);
    assert!(!close_requested(&mut f, || Err::<bool, String>(String::from("no")), |_, _| false));
}

#[test]
fn escape_asks_to_quit() {
    assert!(key_down_requests_quit(Some(KeyCode::Escape)));
    assert!(!key_down_requests_quit(Some(KeyCode::A)));
    assert!(!key_down_requests_quit(None));
}

#[test]
fn an_untroubled_frame_does_all_its_work() {
    let (done, end) = run_frame(&[FrameOutcome::Done; 6]);
    assert_eq!(
        done,
        vec![FrameWork::Update, FrameWork::BeginFrame, FrameWork::Draw, FrameWork::EndFrame, FrameWork::SaveInputState]
    );
    assert_eq!(end, FrameState { next: None, exit: false });
}

#[test]
fn frame_errors_are_routed() {
    // An update error that ends the game cuts the frame short.
    let (done, end) = run_frame(&[FrameOutcome::HandlerFailed(true), FrameOutcome::Done]);
    assert_eq!(done, vec![FrameWork::Update]);
    assert_eq!(end, FrameState { next: None, exit: true });
    // One that does not lets the frame go on.
    let (done, end) = run_frame(&[FrameOutcome::HandlerFailed(false), FrameOutcome::Done, FrameOutcome::Done, FrameOutcome::Done, FrameOutcome::Done]);
    assert_eq!(done.len(), 5);
    assert!(!end.exit);
    // A failed start of the graphics frame exits, but draw still runs.
    let (done, end) = run_frame(&[FrameOutcome::Done, FrameOutcome::GraphicsFailed, FrameOutcome::Done, FrameOutcome::Done, FrameOutcome::Done]);
    assert_eq!(done.len(), 5);
    assert!(end.exit);
    // A draw error that ends the game skips the end of the frame.
    let (done, end) = run_frame(&[FrameOutcome::Done, FrameOutcome::Done, FrameOutcome::HandlerFailed(true), FrameOutcome::Done]);
    assert_eq!(done, vec![FrameWork::Update, FrameWork::BeginFrame, FrameWork::Draw]);
    assert!(end.exit && end.next.is_none());
    // A failed end of the frame exits, and the input state is still kept.
    let (done, end) = run_frame(&[FrameOutcome::Done, FrameOutcome::Done, FrameOutcome::Done, FrameOutcome::GraphicsFailed, FrameOutcome::Done]);
    assert_eq!(done.last(), Some(&FrameWork::SaveInputState));
    assert!(end.exit);
}
