use rust_hooking_utils::pausing::{pausable_threads, PauseAction, PausePhase, PauseSession, ThreadEntry};
use rust_hooking_utils::process::ProcessErrorKind;

fn t(thread_id: u32, owner_process_id: u32) -> ThreadEntry {
    ThreadEntry { thread_id, owner_process_id }
}

#[test]
fn enumeration_failure_never_runs_critical_section() {
    let mut session = PauseSession::new(100, 7);
    let action = session.on_enumeration_failed();
    assert!(matches!(action, PauseAction::Finish(Err(ProcessErrorKind::ThreadEnumeration))));
    assert!(!matches!(action, PauseAction::RunCriticalSection));
    assert_eq!(session.current_phase(), PausePhase::Finished);
}

#[test]
fn pausable_threads_skip_caller_and_other_processes() {
    let entries = [t(1, 100), t(7, 100), t(2, 200), t(3, 100)];
    assert_eq!(pausable_threads(&entries, 100, 7), vec![1, 3]);
    assert_eq!(pausable_threads(&[], 100, 7), Vec::<u32>::new());
}

#[test]
fn full_pause_resumes_exactly_the_suspended_threads() {
    let entries = [t(1, 100), t(7, 100), t(2, 200), t(3, 100), t(4, 100)];
    let mut session = PauseSession::new(100, 7);
    let mut suspended = Vec::new();
    let mut resumed = Vec::new();
    let mut critical_runs = 0;
    let mut action = session.on_enumerated(&entries);
    loop {
        action = match action {
            PauseAction::Suspend(id) => {
                // thread 3 cannot be opened: it is skipped
                let ok = id != 3;
                if ok {
                    suspended.push(id);
                }
                session.on_suspended(ok)
            }
            PauseAction::RunCriticalSection => {
                critical_runs += 1;
                session.on_critical_section_done()
            }
            PauseAction::Resume(id) => {
                resumed.push(id);
                session.on_resumed()
            }
            PauseAction::Finish(result) => {
                assert!(result.is_ok());
                break;
            }
        };
    }
    assert_eq!(critical_runs, 1);
    assert_eq!(suspended, vec![1, 4]);
    assert_eq!(resumed, vec![1, 4]);
    assert_eq!(session.current_phase(), PausePhase::Finished);
}

#[test]
fn no_other_threads_runs_critical_section_at_once() {
    let mut session = PauseSession::new(100, 7);
    let action = session.on_enumerated(&[t(7, 100), t(8, 300)]);
    assert!(matches!(action, PauseAction::RunCriticalSection));
    assert_eq!(session.current_phase(), PausePhase::InCriticalSection);
    let action = session.on_critical_section_done();
    assert!(matches!(action, PauseAction::Finish(Ok(()))));
}
