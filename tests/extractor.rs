use envvars::checksum::checksum;
use envvars::extractor::{Extractor, ReadyAction, ReadyEvent};
use envvars::{EnvError, Platform};

fn payload() -> Vec<u8> {
    vec![0x7f, 0x45, 0x4c, 0x46, 2, 1, 1, 0]
}

fn denied() -> std::io::Error {
    std::io::Error::new(std::io::ErrorKind::PermissionDenied, "denied")
}

#[test]
fn first_ready_on_empty_directory_writes_payload() {
    let mut ex = Extractor::new("/tmp/helper".to_string(), payload(), checksum(&payload()));
    assert!(!ex.is_ready());
    assert!(matches!(ex.step(ReadyEvent::Begin), ReadyAction::CheckExists));
    assert!(matches!(ex.step(ReadyEvent::Exists(false)), ReadyAction::WritePayload));
    assert_eq!(ex.payload(), &payload()[..]);
    assert!(matches!(ex.step(ReadyEvent::Written(Ok(()))), ReadyAction::Ready));
    assert!(ex.is_ready());
}

#[test]
fn valid_file_is_not_rewritten() {
    let expected = checksum(&payload());
    let mut ex = Extractor::new("/tmp/helper".to_string(), payload(), expected.clone());
    assert!(matches!(ex.step(ReadyEvent::Begin), ReadyAction::CheckExists));
    assert!(matches!(ex.step(ReadyEvent::Exists(true)), ReadyAction::ComputeChecksum));
    assert!(matches!(ex.step(ReadyEvent::Digested(Ok(expected))), ReadyAction::Ready));
    assert!(ex.is_ready());
}

#[test]
fn truncated_file_is_rewritten() {
    let expected = checksum(&payload());
    let mut ex = Extractor::new("/tmp/helper".to_string(), payload(), expected.clone());
    assert!(matches!(ex.step(ReadyEvent::Begin), ReadyAction::CheckExists));
    assert!(matches!(ex.step(ReadyEvent::Exists(true)), ReadyAction::ComputeChecksum));
    let damaged = checksum(&[0u8; 9]);
    assert_ne!(damaged, expected);
    assert!(matches!(ex.step(ReadyEvent::Digested(Ok(damaged))), ReadyAction::RemoveFile));
    assert!(matches!(ex.step(ReadyEvent::Removed(Ok(()))), ReadyAction::WritePayload));
    assert!(matches!(ex.step(ReadyEvent::Written(Ok(()))), ReadyAction::Ready));
    assert_eq!(checksum(ex.payload()), ex.expected_checksum());
}

#[test]
fn unreadable_file_is_rewritten() {
    let mut ex = Extractor::new("/tmp/helper".to_string(), payload(), checksum(&payload()));
    ex.step(ReadyEvent::Begin);
    ex.step(ReadyEvent::Exists(true));
    assert!(matches!(ex.step(ReadyEvent::Digested(Err(denied()))), ReadyAction::RemoveFile));
}

#[test]
fn ready_is_idempotent() {
    let expected = checksum(&payload());
    let mut ex = Extractor::new("/tmp/helper".to_string(), payload(), expected.clone());
    ex.step(ReadyEvent::Begin);
    ex.step(ReadyEvent::Exists(false));
    assert!(matches!(ex.step(ReadyEvent::Written(Ok(()))), ReadyAction::Ready));
    for _ in 0..5 {
        assert!(matches!(ex.step(ReadyEvent::Begin), ReadyAction::CheckExists));
        assert!(!ex.is_ready());
        assert!(matches!(ex.step(ReadyEvent::Exists(true)), ReadyAction::ComputeChecksum));
        assert!(matches!(
            ex.step(ReadyEvent::Digested(Ok(expected.clone()))),
            ReadyAction::Ready
        ));
        assert!(ex.is_ready());
    }
}

#[test]
fn corruption_after_success_is_rewritten() {
    let expected = checksum(&payload());
    let mut ex = Extractor::new("/tmp/helper".to_string(), payload(), expected.clone());
    ex.step(ReadyEvent::Begin);
    ex.step(ReadyEvent::Exists(true));
    assert!(matches!(ex.step(ReadyEvent::Digested(Ok(expected))), ReadyAction::Ready));
    let mut damaged = payload();
    damaged[..4].copy_from_slice(&[0, 0, 0, 0]);
    assert!(matches!(ex.step(ReadyEvent::Begin), ReadyAction::CheckExists));
    assert!(matches!(ex.step(ReadyEvent::Exists(true)), ReadyAction::ComputeChecksum));
    assert!(matches!(
        ex.step(ReadyEvent::Digested(Ok(checksum(&damaged)))),
        ReadyAction::RemoveFile
    ));
    assert!(matches!(ex.step(ReadyEvent::Removed(Ok(()))), ReadyAction::WritePayload));
    assert!(matches!(ex.step(ReadyEvent::Written(Ok(()))), ReadyAction::Ready));
    assert_eq!(checksum(ex.payload()), ex.expected_checksum());
}

#[test]
fn helper_removed_after_success_is_written_again() {
    let mut ex = ready_extractor("/tmp/helper");
    assert!(matches!(ex.step(ReadyEvent::Begin), ReadyAction::CheckExists));
    assert!(matches!(ex.step(ReadyEvent::Exists(false)), ReadyAction::WritePayload));
    assert!(matches!(ex.step(ReadyEvent::Written(Ok(()))), ReadyAction::Ready));
}

#[test]
fn failed_write_is_a_create_error() {
    let mut ex = Extractor::new("/tmp/helper".to_string(), payload(), checksum(&payload()));
    ex.step(ReadyEvent::Begin);
    ex.step(ReadyEvent::Exists(false));
    match ex.step(ReadyEvent::Written(Err(denied()))) {
        ReadyAction::Failed(EnvError::Create(e)) => {
            assert_eq!(e.kind(), std::io::ErrorKind::PermissionDenied)
        }
        other => panic!("unexpected {:?}", other),
    }
    assert!(!ex.is_ready());
    assert!(matches!(ex.step(ReadyEvent::Begin), ReadyAction::CheckExists));
}

#[test]
fn failed_remove_is_a_create_error() {
    let mut ex = Extractor::new("/tmp/helper".to_string(), payload(), checksum(&payload()));
    ex.step(ReadyEvent::Begin);
    ex.step(ReadyEvent::Exists(true));
    ex.step(ReadyEvent::Digested(Ok("0".to_string())));
    assert!(matches!(
        ex.step(ReadyEvent::Removed(Err(denied()))),
        ReadyAction::Failed(EnvError::Create(_))
    ));
}

#[test]
fn unexpected_event_restarts() {
    let mut ex = Extractor::new("/tmp/helper".to_string(), payload(), checksum(&payload()));
    assert!(matches!(ex.step(ReadyEvent::Written(Ok(()))), ReadyAction::CheckExists));
    assert!(!ex.is_ready());
}

fn ready_extractor(location: &str) -> Extractor {
    let mut ex = Extractor::new(location.to_string(), payload(), checksum(&payload()));
    ex.step(ReadyEvent::Begin);
    ex.step(ReadyEvent::Exists(false));
    ex.step(ReadyEvent::Written(Ok(())));
    ex
}

#[test]
fn invocation_through_a_shell() {
    let ex = ready_extractor("/tmp/helper");
    let args = vec!["--login".to_string(), "-i".to_string(), "-c".to_string()];
    let inv = ex.invocation(Some("/bin/bash"), &args, Platform::Unix).unwrap();
    assert_eq!(inv.program, "/bin/bash");
    assert_eq!(inv.args, vec!["--login", "-i", "-c", "/tmp/helper"]);
}

#[test]
fn invocation_without_a_shell() {
    let ex = ready_extractor("/tmp/helper");
    let inv = ex.invocation(None, &[], Platform::Unix).unwrap();
    assert_eq!(inv.program, "/tmp/helper");
    assert!(inv.args.is_empty());
}

#[test]
fn invocation_on_windows_doubles_backslashes() {
    let ex = ready_extractor("C:\\Temp\\helper.exe");
    let args = vec!["-c".to_string()];
    let inv = ex.invocation(Some("C:\\cygwin\\bin\\bash.exe"), &args, Platform::Windows).unwrap();
    assert_eq!(inv.program, "C:\\cygwin\\bin\\bash.exe");
    assert_eq!(inv.args, vec!["-c", "C:\\\\Temp\\\\helper.exe"]);
}

#[test]
fn invocation_refused_before_ready() {
    let ex = Extractor::new("/tmp/helper".to_string(), payload(), checksum(&payload()));
    assert!(matches!(ex.invocation(None, &[], Platform::Unix), Err(EnvError::Other(_))));
}

#[test]
fn invocation_refused_on_unsupported_platform() {
    let ex = ready_extractor("/tmp/helper");
    match ex.invocation(None, &[], Platform::Unsupported) {
        Err(EnvError::Executing(e)) => assert_eq!(e.kind(), std::io::ErrorKind::Other),
        _ => panic!("expected an execution error"),
    }
}
