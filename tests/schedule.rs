use linear_classifiers::schedule::Schedule;

#[test]
fn runs_the_whole_budget_without_convergence() {
    let mut s = Schedule::new(3);
    let mut seen = Vec::new();
    while let Some(it) = s.next_iteration() {
        seen.push(it);
        s.record(false);
    }
    assert_eq!(seen, vec![0, 1, 2]);
    assert_eq!(s.iterations_run(), 3);
    assert!(s.is_done());
}

#[test]
fn stops_after_a_zero_metric() {
    let mut s = Schedule::new(100);
    let mut seen = Vec::new();
    while let Some(it) = s.next_iteration() {
        seen.push(it);
        s.record(it == 4);
    }
    assert_eq!(seen, vec![0, 1, 2, 3, 4]);
    assert_eq!(s.iterations_run(), 5);
}

#[test]
fn zero_budget_runs_nothing() {
    let mut s = Schedule::new(0);
    assert!(s.is_done());
    assert_eq!(s.next_iteration(), None);
    assert_eq!(s.iterations_run(), 0);
}

#[test]
fn fresh_schedule_is_not_done() {
    let s = Schedule::new(1);
    assert!(!s.is_done());
    assert_eq!(s.iterations_run(), 0);
}
