use readiness_barrier::barrier::InvalidTaskError;
use readiness_barrier::barrier::ReadinessBarrier;

#[test]
fn new_barrier_has_every_task_pending() {
    let b = ReadinessBarrier::new();
    assert_eq!(b.is_complete("frontend"), Ok(false));
    assert_eq!(b.is_complete("backend"), Ok(false));
    assert!(!b.all_complete());
}

#[test]
fn frontend_then_backend_fires_on_second_report() {
    let mut b = ReadinessBarrier::new();
    assert_eq!(b.mark_complete("frontend"), Ok(false));
    assert!(!b.all_complete());
    assert_eq!(b.mark_complete("backend"), Ok(true));
    assert_eq!(b.is_complete("frontend"), Ok(true));
    assert_eq!(b.is_complete("backend"), Ok(true));
    assert!(b.all_complete());
}

#[test]
fn backend_then_frontend_reaches_the_same_end_state() {
    let mut b = ReadinessBarrier::new();
    assert_eq!(b.mark_complete("backend"), Ok(false));
    assert!(!b.all_complete());
    assert_eq!(b.mark_complete("frontend"), Ok(true));
    assert_eq!(b.is_complete("frontend"), Ok(true));
    assert_eq!(b.is_complete("backend"), Ok(true));
    assert!(b.all_complete());
}

#[test]
fn repeating_frontend_does_not_fire() {
    let mut b = ReadinessBarrier::new();
    assert_eq!(b.mark_complete("frontend"), Ok(false));
    assert_eq!(b.mark_complete("frontend"), Ok(false));
    assert_eq!(b.is_complete("frontend"), Ok(true));
    assert_eq!(b.is_complete("backend"), Ok(false));
    assert!(!b.all_complete());
}

#[test]
fn completed_tasks_stay_completed() {
    let mut b = ReadinessBarrier::new();
    assert_eq!(b.mark_complete("frontend"), Ok(false));
    assert_eq!(b.mark_complete("backend"), Ok(true));
    assert_eq!(b.mark_complete("frontend"), Ok(false));
    assert_eq!(b.mark_complete("backend"), Ok(false));
    let _ = b.mark_complete("unknown");
    assert_eq!(b.is_complete("frontend"), Ok(true));
    assert_eq!(b.is_complete("backend"), Ok(true));
    assert!(b.all_complete());
}

#[test]
fn unknown_task_is_rejected_and_changes_nothing() {
    let mut b = ReadinessBarrier::new();
    assert_eq!(b.mark_complete("unknown"), Err(InvalidTaskError));
    assert_eq!(b.is_complete("frontend"), Ok(false));
    assert_eq!(b.is_complete("backend"), Ok(false));
    assert!(!b.all_complete());

    assert_eq!(b.mark_complete("frontend"), Ok(false));
    assert_eq!(b.mark_complete("unknown"), Err(InvalidTaskError));
    assert_eq!(b.is_complete("frontend"), Ok(true));
    assert_eq!(b.is_complete("backend"), Ok(false));
    assert!(!b.all_complete());
}

#[test]
fn task_names_are_exact_and_case_sensitive() {
    let mut b = ReadinessBarrier::new();
    assert_eq!(b.mark_complete("Frontend"), Err(InvalidTaskError));
    assert_eq!(b.mark_complete("FRONTEND"), Err(InvalidTaskError));
    assert_eq!(b.mark_complete("frontend "), Err(InvalidTaskError));
    assert_eq!(b.mark_complete(""), Err(InvalidTaskError));
    assert_eq!(b.is_complete("Backend"), Err(InvalidTaskError));
    assert!(!b.all_complete());
}

#[test]
fn transition_fires_exactly_once_under_many_interleaved_reports() {
    // Many callers alternating frontend and backend reports, in a repeating
    // interleaving: however the reports are ordered, exactly one of them
    // completes the set.
    let mut b = ReadinessBarrier::new();
    let callers: usize = 8;
    let rounds: usize = 5;
    let mut fired: usize = 0;
    for round in 0..rounds {
        for caller in 0..callers {
            let task = if (round + caller) % 2 == 0 {
                "frontend"
            } else {
                "backend"
            };
            match b.mark_complete(task) {
                Ok(true) => fired += 1,
                Ok(false) => {}
                Err(e) => panic!("valid task rejected: {:?}", e),
            }
        }
    }
    assert_eq!(fired, 1);
    assert!(b.all_complete());
}

#[test]
fn reports_after_completion_never_refire() {
    let mut b = ReadinessBarrier::new();
    assert_eq!(b.mark_complete("backend"), Ok(false));
    assert_eq!(b.mark_complete("frontend"), Ok(true));
    for _ in 0..10 {
        assert_eq!(b.mark_complete("frontend"), Ok(false));
        assert_eq!(b.mark_complete("backend"), Ok(false));
    }
    assert!(b.all_complete());
}
