use prompt_picker::errors::PickerError;
use prompt_picker::focus::FocusMemory;
use prompt_picker::focus::QueryOutput;
use prompt_picker::focus::activate_app;
use prompt_picker::focus::activate_last_app;
use prompt_picker::focus::capture_frontmost_app;
use prompt_picker::focus::get_frontmost_app;
use prompt_picker::focus::trim_bytes;

fn ok_output(bytes: &[u8]) -> Option<QueryOutput> {
    Some(QueryOutput { status_ok: true, stdout: bytes.to_vec() })
}

#[test]
fn trim_removes_surrounding_whitespace() {
    assert_eq!(trim_bytes(&b"  hi\n".to_vec()), b"hi".to_vec());
    assert_eq!(trim_bytes(&b"\r\n\t ".to_vec()), Vec::<u8>::new());
    assert_eq!(trim_bytes(&Vec::new()), Vec::<u8>::new());
    assert_eq!(trim_bytes(&b"Editor".to_vec()), b"Editor".to_vec());
    assert_eq!(trim_bytes(&b"a b".to_vec()), b"a b".to_vec());
}

#[test]
fn query_success_yields_trimmed_name() {
    assert_eq!(get_frontmost_app(ok_output(b"Editor\n")), Some(b"Editor".to_vec()));
}

#[test]
fn query_failure_yields_no_name() {
    assert_eq!(get_frontmost_app(None), None);
    assert_eq!(
        get_frontmost_app(Some(QueryOutput { status_ok: false, stdout: b"Editor\n".to_vec() })),
        None
    );
    assert_eq!(get_frontmost_app(ok_output(b"\n")), None);
    assert_eq!(get_frontmost_app(ok_output(b"")), None);
}

#[test]
fn activation_outcome_decides() {
    assert!(activate_app(Some(true)));
    assert!(!activate_app(Some(false)));
    assert!(!activate_app(None));
}

#[test]
fn memory_starts_empty() {
    let mem = FocusMemory::new();
    assert_eq!(mem.recall(), None);
}

#[test]
fn memory_keeps_value_through_failed_queries() {
    let mut mem = FocusMemory::new();
    assert_eq!(capture_frontmost_app(&mut mem, ok_output(b"Editor\n")), Ok(()));
    assert_eq!(mem.recall(), Some(b"Editor".to_vec()));

    // A query that did not run, one that failed, and one that printed only
    // padding: none of them may overwrite the slot.
    assert_eq!(capture_frontmost_app(&mut mem, None), Ok(()));
    assert_eq!(mem.recall(), Some(b"Editor".to_vec()));
    assert_eq!(
        capture_frontmost_app(
            &mut mem,
            Some(QueryOutput { status_ok: false, stdout: b"Other\n".to_vec() })
        ),
        Ok(())
    );
    assert_eq!(mem.recall(), Some(b"Editor".to_vec()));
    assert_eq!(capture_frontmost_app(&mut mem, ok_output(b" \n")), Ok(()));
    assert_eq!(mem.recall(), Some(b"Editor".to_vec()));

    // The next successful query overwrites it.
    assert_eq!(capture_frontmost_app(&mut mem, ok_output(b"Terminal\n")), Ok(()));
    assert_eq!(mem.recall(), Some(b"Terminal".to_vec()));
}

#[test]
fn activate_last_app_uses_remembered_name() {
    // Scenario: the query returned "Editor", the overlay was shown, the user
    // picked a prompt, and the explicit re-activation command runs: the
    // activation targets "Editor".
    let mut mem = FocusMemory::new();
    assert_eq!(capture_frontmost_app(&mut mem, ok_output(b"Editor\n")), Ok(()));
    let target = mem.recall();
    assert_eq!(target, Some(b"Editor".to_vec()));
    let outcome = Some(true);  // the OS accepted the activation of "Editor"
    assert_eq!(activate_last_app(&mem, outcome), Ok(()));
}

#[test]
fn activate_last_app_skips_without_memory() {
    // Scenario: the query failed, so the slot holds its prior value — empty
    // on a first run — and the activation step is skipped entirely.
    let mut mem = FocusMemory::new();
    assert_eq!(capture_frontmost_app(&mut mem, None), Ok(()));
    assert_eq!(mem.recall(), None);
    assert_eq!(activate_last_app(&mem, None), Ok(()));
}

#[test]
fn activate_last_app_reports_declined_activation() {
    let mut mem = FocusMemory::new();
    assert_eq!(capture_frontmost_app(&mut mem, ok_output(b"Editor\n")), Ok(()));
    assert_eq!(activate_last_app(&mem, Some(false)), Err(PickerError::ActivationFailed));
    assert_eq!(activate_last_app(&mem, None), Err(PickerError::ActivationFailed));
}
