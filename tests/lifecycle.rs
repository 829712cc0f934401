use iwindows::{
    route_message, InitError, InitOutcome, InitStep, LifecycleState, MessageAction, PumpAction,
    Release, Window, WM_CLOSE, WM_DESTROY,
};

const MODULE: isize = 0x40_0000;
const ATOM: u16 = 0xC0DE;
const HWND: isize = 0x1_2345;

fn initialized() -> Window {
    let mut w = Window::new();
    assert_eq!(w.initialize(), Ok(InitStep::ResolveModule));
    assert_eq!(w.advance(InitOutcome::Module(MODULE)), Ok(InitStep::RegisterClass { module: MODULE }));
    assert_eq!(w.advance(InitOutcome::Class(ATOM)), Ok(InitStep::CreateWindow { module: MODULE }));
    assert_eq!(w.advance(InitOutcome::Created(HWND)), Ok(InitStep::AttachOwner { handle: HWND }));
    assert_eq!(w.advance(InitOutcome::Attached(true)), Ok(InitStep::Done));
    w
}

fn is_v4_hyphenated(s: &str) -> bool {
    let b = s.as_bytes();
    b.len() == 36
        && b.iter().enumerate().all(|(i, c)| match i {
            8 | 13 | 18 | 23 => *c == b'-',
            _ => c.is_ascii_digit() || (b'a'..=b'f').contains(c),
        })
        && b[14] == b'4'
        && matches!(b[19], b'8' | b'9' | b'a' | b'b')
}

#[test]
fn full_lifecycle_scenario() {
    let mut w = initialized();
    assert_eq!(w.state(), LifecycleState::Initialized);
    assert_eq!(w.show(), Some(HWND));

    let mut destroys = 0;
    if let MessageAction::DestroyWindow(h) = w.on_message(HWND, WM_CLOSE) {
        assert_eq!(h, HWND);
        destroys += 1;
    } else {
        panic!("close request must ask for the window to be destroyed");
    }
    assert_eq!(w.on_message(HWND, WM_DESTROY), MessageAction::PostQuit);

    w.process_messages();
    assert_eq!(w.state(), LifecycleState::Running);
    assert_eq!(w.on_retrieval(0), PumpAction::Stop);
    assert_eq!(w.state(), LifecycleState::Terminated);

    let plan = w.teardown();
    destroys += plan.iter().filter(|r| matches!(r, Release::DestroyWindow(_))).count();
    let unregisters = plan.iter().filter(|r| matches!(r, Release::UnregisterClass { .. })).count();
    assert_eq!(destroys, 1);
    assert_eq!(unregisters, 1);
    assert_eq!(plan, vec![Release::UnregisterClass { atom: ATOM, module: MODULE }]);
}

#[test]
fn second_initialize_fails_without_change() {
    let mut w = initialized();
    let name = w.class_name().to_string();
    assert_eq!(w.initialize(), Err(InitError::AlreadyInitialized));
    assert_eq!(w.state(), LifecycleState::Initialized);
    assert_eq!(w.handle(), Some(HWND));
    assert_eq!(w.atom(), Some(ATOM));
    assert_eq!(w.module(), Some(MODULE));
    assert_eq!(w.class_name(), name);
}

#[test]
fn initialize_while_initializing_fails() {
    let mut w = Window::new();
    assert_eq!(w.initialize(), Ok(InitStep::ResolveModule));
    assert_eq!(w.initialize(), Err(InitError::AlreadyInitialized));
    assert_eq!(w.state(), LifecycleState::ResolvingModule);
}

#[test]
fn teardown_destroys_window_before_class() {
    let mut w = initialized();
    w.process_messages();
    assert_eq!(
        w.teardown(),
        vec![Release::DestroyWindow(HWND), Release::UnregisterClass { atom: ATOM, module: MODULE }]
    );
    assert_eq!(w.state(), LifecycleState::Terminated);
    assert_eq!(w.handle(), None);
    assert_eq!(w.atom(), None);
}

#[test]
fn teardown_twice_releases_nothing_more() {
    let mut w = initialized();
    assert_eq!(w.teardown().len(), 2);
    assert!(w.teardown().is_empty());
    assert_eq!(w.state(), LifecycleState::Terminated);
}

#[test]
fn teardown_of_fresh_window_is_empty() {
    let mut w = Window::new();
    assert!(w.teardown().is_empty());
    assert_eq!(w.state(), LifecycleState::Uninitialized);
    assert_eq!(w.show(), None);
}

#[test]
fn module_failure_is_terminal() {
    let mut w = Window::new();
    w.initialize().unwrap();
    assert_eq!(w.advance(InitOutcome::Module(0)), Err(InitError::ModuleError));
    assert_eq!(w.state(), LifecycleState::Failed);
    assert_eq!(w.class_name(), "");
    assert_eq!(w.initialize(), Err(InitError::AlreadyInitialized));
    assert_eq!(w.advance(InitOutcome::Module(MODULE)), Err(InitError::OutOfSequence));
    assert!(w.teardown().is_empty());
}

#[test]
fn registration_failure_never_unregisters() {
    let mut w = Window::new();
    w.initialize().unwrap();
    w.advance(InitOutcome::Module(MODULE)).unwrap();
    assert_eq!(w.advance(InitOutcome::Class(0)), Err(InitError::RegistrationError));
    assert_eq!(w.state(), LifecycleState::Failed);
    assert_eq!(w.atom(), None);
    assert!(w.teardown().is_empty());
}

#[test]
fn creation_failure_releases_the_class() {
    let mut w = Window::new();
    w.initialize().unwrap();
    w.advance(InitOutcome::Module(MODULE)).unwrap();
    w.advance(InitOutcome::Class(ATOM)).unwrap();
    assert_eq!(
        w.advance(InitOutcome::Created(0)),
        Err(InitError::CreationError(Release::UnregisterClass { atom: ATOM, module: MODULE }))
    );
    assert_eq!(w.state(), LifecycleState::Failed);
    assert_eq!(w.atom(), None);
    assert_eq!(w.handle(), None);
    assert_eq!(w.show(), None);
    assert!(w.teardown().is_empty());
}

#[test]
fn owner_attachment_failure_is_not_fatal() {
    let mut w = Window::new();
    w.initialize().unwrap();
    w.advance(InitOutcome::Module(MODULE)).unwrap();
    w.advance(InitOutcome::Class(ATOM)).unwrap();
    w.advance(InitOutcome::Created(HWND)).unwrap();
    assert_eq!(w.advance(InitOutcome::Attached(false)), Ok(InitStep::Done));
    assert_eq!(w.state(), LifecycleState::Initialized);
    assert!(!w.owner_attached());
}

#[test]
fn outcome_out_of_sequence_changes_nothing() {
    let mut w = Window::new();
    assert_eq!(w.advance(InitOutcome::Class(ATOM)), Err(InitError::OutOfSequence));
    assert_eq!(w.state(), LifecycleState::Uninitialized);
    w.initialize().unwrap();
    assert_eq!(w.advance(InitOutcome::Created(HWND)), Err(InitError::OutOfSequence));
    assert_eq!(w.state(), LifecycleState::ResolvingModule);
    assert_eq!(w.handle(), None);
}

#[test]
fn class_name_is_a_fresh_v4_uuid() {
    let mut a = Window::new();
    let mut b = Window::new();
    assert_eq!(a.class_name(), "");
    for w in [&mut a, &mut b] {
        w.initialize().unwrap();
        w.advance(InitOutcome::Module(MODULE)).unwrap();
        assert!(is_v4_hyphenated(w.class_name()), "{}", w.class_name());
    }
    assert_ne!(a.class_name(), b.class_name());
}

#[test]
fn pump_stops_only_on_quit() {
    let mut w = initialized();
    w.process_messages();
    assert_eq!(w.on_retrieval(1), PumpAction::Dispatch);
    assert_eq!(w.on_retrieval(-1), PumpAction::Retry);
    assert_eq!(w.state(), LifecycleState::Running);
    assert_eq!(w.show(), Some(HWND));
    assert_eq!(w.on_retrieval(0), PumpAction::Stop);
    assert_eq!(w.state(), LifecycleState::Terminated);
    assert_eq!(w.show(), None);
}

#[test]
fn pump_on_uninitialized_window_stays_put() {
    let mut w = Window::new();
    w.process_messages();
    assert_eq!(w.state(), LifecycleState::Uninitialized);
    assert_eq!(w.on_retrieval(0), PumpAction::Stop);
    assert_eq!(w.state(), LifecycleState::Uninitialized);
}

#[test]
fn close_request_destroys_the_same_window() {
    assert_eq!(route_message(HWND, WM_CLOSE), MessageAction::DestroyWindow(HWND));
    assert_eq!(route_message(7, WM_CLOSE), MessageAction::DestroyWindow(7));
    let mut w = initialized();
    assert_eq!(w.on_message(HWND, WM_CLOSE), MessageAction::DestroyWindow(HWND));
    assert_eq!(w.handle(), Some(HWND));
}

#[test]
fn destroy_notification_posts_quit_and_releases_handle() {
    let mut w = initialized();
    assert_eq!(w.on_message(HWND + 1, WM_DESTROY), MessageAction::PostQuit);
    assert_eq!(w.handle(), Some(HWND));
    assert_eq!(w.on_message(HWND, WM_DESTROY), MessageAction::PostQuit);
    assert_eq!(w.handle(), None);
    assert_eq!(w.show(), None);
}

#[test]
fn other_messages_pass_to_default() {
    const WM_PAINT: u32 = 0x000F;
    const WM_SIZE: u32 = 0x0005;
    assert_eq!(route_message(HWND, WM_PAINT), MessageAction::PassToDefault);
    assert_eq!(route_message(HWND, WM_SIZE), MessageAction::PassToDefault);
    let mut w = initialized();
    assert_eq!(w.on_message(HWND, WM_PAINT), MessageAction::PassToDefault);
    assert_eq!(w.handle(), Some(HWND));
}

#[test]
fn message_constants_match_the_platform() {
    assert_eq!(WM_CLOSE, 0x0010);
    assert_eq!(WM_DESTROY, 0x0002);
}
