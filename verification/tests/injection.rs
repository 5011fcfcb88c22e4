use prompt_picker::errors::PickerError;
use prompt_picker::focus::FocusMemory;
use prompt_picker::focus::QueryOutput;
use prompt_picker::focus::capture_frontmost_app;
use prompt_picker::inject::InjectAction;
use prompt_picker::inject::InjectEvent;
use prompt_picker::inject::InjectPhase;
use prompt_picker::inject::InjectSession;
use prompt_picker::inject::InjectionRequest;
use prompt_picker::inject::check_accessibility_permissions;
use prompt_picker::inject::inject_text;

fn remembered(name: &[u8]) -> FocusMemory {
    let mut mem = FocusMemory::new();
    let out = Some(QueryOutput { status_ok: true, stdout: name.to_vec() });
    capture_frontmost_app(&mut mem, out).unwrap();
    mem
}

#[test]
fn empty_text_fails_before_any_os_action() {
    let mem = remembered(b"Editor");
    let req = InjectionRequest { text: Vec::new(), target_index: None };
    let (mut session, action) = inject_text(req, &mem);
    // Rejected at once: no activation, no backend init, no typing.
    assert_eq!(action, InjectAction::Halt);
    assert_eq!(session.phase(), InjectPhase::Failed(PickerError::EmptyInput));
    assert_eq!(session.outcome(), Some(Err(PickerError::EmptyInput)));
    // Whatever events the host would feed, the session stays inert.
    for ev in [
        InjectEvent::Activated(true),
        InjectEvent::InputReady(true),
        InjectEvent::Paused,
        InjectEvent::Typed(true),
    ] {
        assert_eq!(session.step(ev), InjectAction::Halt);
        assert_eq!(session.outcome(), Some(Err(PickerError::EmptyInput)));
    }
}

#[test]
fn full_session_types_the_payload() {
    let mem = remembered(b"Editor");
    let req = InjectionRequest { text: b"hello".to_vec(), target_index: Some(0) };
    let (mut session, action) = inject_text(req, &mem);
    assert_eq!(action, InjectAction::Activate);
    assert_eq!(session.target(), Some(&b"Editor".to_vec()));
    assert_eq!(session.text(), &b"hello".to_vec());
    assert_eq!(session.step(InjectEvent::Activated(true)), InjectAction::InitInput);
    assert_eq!(session.step(InjectEvent::InputReady(true)), InjectAction::Pause);
    assert_eq!(session.step(InjectEvent::Paused), InjectAction::TypeText);
    assert_eq!(session.step(InjectEvent::Typed(true)), InjectAction::Halt);
    assert_eq!(session.phase(), InjectPhase::Done);
    assert_eq!(session.outcome(), Some(Ok(())));
}

#[test]
fn failed_activation_still_reaches_typing() {
    // A declined re-activation must not stop the injection: the session
    // proceeds to the typing attempt exactly as on success.
    let mem = remembered(b"Editor");
    let req = InjectionRequest { text: b"hello".to_vec(), target_index: None };
    let (mut session, action) = inject_text(req, &mem);
    assert_eq!(action, InjectAction::Activate);
    assert_eq!(session.step(InjectEvent::Activated(false)), InjectAction::InitInput);
    assert_eq!(session.step(InjectEvent::InputReady(true)), InjectAction::Pause);
    assert_eq!(session.step(InjectEvent::Paused), InjectAction::TypeText);
    assert_eq!(session.step(InjectEvent::Typed(true)), InjectAction::Halt);
    assert_eq!(session.outcome(), Some(Ok(())));
}

#[test]
fn no_remembered_target_skips_activation() {
    let mem = FocusMemory::new();
    let req = InjectionRequest { text: b"hello".to_vec(), target_index: None };
    let (session, action) = inject_text(req, &mem);
    assert_eq!(action, InjectAction::InitInput);
    assert_eq!(session.target(), None);
    assert_eq!(session.phase(), InjectPhase::FocusRestoring);
}

#[test]
fn backend_init_failure_is_reported() {
    let mem = FocusMemory::new();
    let req = InjectionRequest { text: b"hello".to_vec(), target_index: None };
    let (mut session, _) = inject_text(req, &mem);
    assert_eq!(session.step(InjectEvent::InputReady(false)), InjectAction::Halt);
    assert_eq!(session.outcome(), Some(Err(PickerError::InputSystemUnavailable)));
}

#[test]
fn typing_failure_is_reported() {
    let mem = FocusMemory::new();
    let req = InjectionRequest { text: b"hello".to_vec(), target_index: None };
    let (mut session, _) = inject_text(req, &mem);
    session.step(InjectEvent::InputReady(true));
    session.step(InjectEvent::Paused);
    assert_eq!(session.step(InjectEvent::Typed(false)), InjectAction::Halt);
    assert_eq!(session.outcome(), Some(Err(PickerError::InjectionFailed)));
}

#[test]
fn out_of_place_events_change_nothing() {
    let mem = FocusMemory::new();
    let req = InjectionRequest { text: b"hello".to_vec(), target_index: None };
    let (mut session, _) = inject_text(req, &mem);
    assert_eq!(session.phase(), InjectPhase::FocusRestoring);
    assert_eq!(session.step(InjectEvent::Paused), InjectAction::Halt);
    assert_eq!(session.step(InjectEvent::Typed(true)), InjectAction::Halt);
    assert_eq!(session.phase(), InjectPhase::FocusRestoring);
    assert_eq!(session.outcome(), None);
}

#[test]
fn an_idle_session_starts_on_begin() {
    let mem = remembered(b"Editor");
    let req = InjectionRequest { text: b"hello".to_vec(), target_index: None };
    let mut session = InjectSession::idle(req, &mem);
    assert_eq!(session.phase(), InjectPhase::Idle);
    assert_eq!(session.outcome(), None);
    assert_eq!(session.begin(), InjectAction::Activate);
    assert_eq!(session.phase(), InjectPhase::FocusRestoring);
}

#[test]
fn accessibility_probe_is_passed_through() {
    assert_eq!(check_accessibility_permissions(Some(true)), Ok(true));
    assert_eq!(check_accessibility_permissions(Some(false)), Ok(false));
    assert_eq!(check_accessibility_permissions(None), Ok(true));
}

#[test]
fn error_messages_name_the_failure() {
    assert_eq!(PickerError::EmptyInput.message(), "Cannot inject empty text");
    assert_eq!(PickerError::InputSystemUnavailable.message(), "Failed to initialize input system");
    assert_eq!(
        PickerError::InjectionFailed.message(),
        "No active text field found or missing accessibility permissions"
    );
    assert_eq!(PickerError::WindowNotFound.message(), "Could not find main window");
    assert_eq!(PickerError::ActivationFailed.message(), "Failed to activate the last application");
    assert_eq!(PickerError::ShortcutRegistrationFailed.message(), "Failed to register shortcut");
}
