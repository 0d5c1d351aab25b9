use graph_bench::error::ErrorClass;
use graph_bench::error::StoreError;
use graph_bench::phase::begin_writes;
use graph_bench::phase::reset_request;
use graph_bench::phase::FanIn;
use graph_bench::phase::Progress;
use graph_bench::request::Request;
use graph_bench::retry::Fatal;

fn fatal(text: &str) -> Fatal {
    Fatal { error: StoreError::Connection(text.to_string()), class: ErrorClass::Connection, retries: 0 }
}

#[test]
fn a_write_phase_opens_with_the_reset() {
    assert!(matches!(reset_request(), Request::Reset));
}

#[test]
fn writes_follow_a_successful_reset() {
    let plan = match begin_writes(Ok(()), 1000) {
        Ok(plan) => plan,
        Err(f) => panic!("unexpected failure {:?}", f),
    };
    assert_eq!(plan.len(), 2000);
    for k in 1..=1000u64 {
        let i = 2 * (k as usize - 1);
        match &plan[i] {
            Request::CreateFoo { foo, bar_pk } => {
                assert_eq!(foo.pk(), k);
                assert_eq!(*bar_pk, k);
            },
            other => panic!("expected a foo at {}, got {:?}", i, other),
        }
        match &plan[i + 1] {
            Request::CreateBar { bar } => assert_eq!(bar.pk(), k),
            other => panic!("expected a bar at {}, got {:?}", i + 1, other),
        }
    }
}

#[test]
fn no_write_follows_a_failed_reset() {
    match begin_writes(Err(StoreError::Connection("refused".to_string())), 1000) {
        Err(f) => {
            assert_eq!(f.retries, 0);
            assert_eq!(f.class, ErrorClass::Connection);
            assert_eq!(f.error.message(), "refused");
        },
        Ok(plan) => panic!("{} requests after a failed reset", plan.len()),
    }
}

#[test]
fn a_contended_reset_is_not_retried() {
    match begin_writes(Err(StoreError::Query("Resource busy: x".to_string())), 10) {
        Err(f) => {
            assert_eq!(f.retries, 0);
            assert_eq!(f.class, ErrorClass::Contention);
        },
        Ok(plan) => panic!("{} requests after a failed reset", plan.len()),
    }
}

#[test]
fn an_empty_data_set_has_no_writes() {
    match begin_writes(Ok(()), 0) {
        Ok(plan) => assert!(plan.is_empty()),
        Err(f) => panic!("unexpected failure {:?}", f),
    }
}

#[test]
fn fan_in_waits_for_every_task() {
    let mut fan = FanIn::new(2000);
    assert_eq!(fan.outstanding(), 2000);
    assert!(!fan.is_complete());
    for k in 1..2000usize {
        assert!(matches!(fan.settle(Ok(())), Progress::Wait));
        assert_eq!(fan.outstanding(), 2000 - k);
    }
    assert!(!fan.is_complete());
    assert!(matches!(fan.settle(Ok(())), Progress::Done));
    assert_eq!(fan.outstanding(), 0);
    assert!(fan.is_complete());
}

#[test]
fn fan_in_halts_on_a_failure() {
    let mut fan = FanIn::new(3);
    assert!(matches!(fan.settle(Ok(())), Progress::Wait));
    match fan.settle(Err(fatal("lost"))) {
        Progress::Halt(f) => assert_eq!(f.error.message(), "lost"),
        other => panic!("expected halt, got {:?}", other),
    }
    assert_eq!(fan.outstanding(), 1);
}

#[test]
fn fan_in_halts_on_a_failure_of_the_last_task() {
    let mut fan = FanIn::new(1);
    assert!(matches!(fan.settle(Err(fatal("late"))), Progress::Halt(_)));
    assert_eq!(fan.outstanding(), 0);
}

#[test]
fn fan_in_of_no_tasks_is_complete() {
    let mut fan = FanIn::new(0);
    assert!(fan.is_complete());
    assert_eq!(fan.outstanding(), 0);
    assert!(matches!(fan.settle(Ok(())), Progress::Done));
    assert_eq!(fan.outstanding(), 0);
}
