use graph_bench::error::ErrorClass;
use graph_bench::error::StoreError;
use graph_bench::retry::RetryPolicy;
use graph_bench::retry::RetryState;
use graph_bench::retry::Step;
use graph_bench::retry::WRITE_BACKOFF_MS;
use graph_bench::retry::WRITE_MAX_RETRIES;

fn busy() -> Result<(), StoreError> {
    Err(StoreError::Query("Resource busy: try again".to_string()))
}

#[test]
fn write_policy_values() {
    assert_eq!(WRITE_MAX_RETRIES, 50);
    assert_eq!(WRITE_BACKOFF_MS, 100);
    let p = RetryPolicy::for_writes();
    assert_eq!(p.max_retries, 50);
    assert_eq!(p.backoff_ms, 100);
}

#[test]
fn read_policy_values() {
    let p = RetryPolicy::for_reads();
    assert_eq!(p.max_retries, 0);
    assert_eq!(p.backoff_ms, 0);
}

#[test]
fn success_finishes() {
    let p = RetryPolicy::for_writes();
    let mut s = RetryState::new();
    assert_eq!(s.retries(), 0);
    assert!(matches!(s.on_outcome(&p, Ok(())), Step::Finished));
    assert_eq!(s.retries(), 0);
}

#[test]
fn contention_is_retried_fifty_times_then_fatal() {
    let p = RetryPolicy::for_writes();
    let mut s = RetryState::new();
    for k in 0..50u32 {
        assert_eq!(s.retries(), k);
        match s.on_outcome(&p, busy()) {
            Step::RetryAfter(ms) => assert_eq!(ms, 100),
            other => panic!("retry {} gave {:?}", k, other),
        }
    }
    assert_eq!(s.retries(), 50);
    match s.on_outcome(&p, busy()) {
        Step::Abort(fatal) => {
            assert_eq!(fatal.retries, 50);
            assert_eq!(fatal.class, ErrorClass::Contention);
            assert_eq!(fatal.error.message(), "Resource busy: try again");
        },
        other => panic!("expected abort, got {:?}", other),
    }
    assert_eq!(s.retries(), 50);
}

#[test]
fn contention_then_success() {
    let p = RetryPolicy::for_writes();
    let mut s = RetryState::new();
    assert!(matches!(s.on_outcome(&p, busy()), Step::RetryAfter(100)));
    assert!(matches!(s.on_outcome(&p, busy()), Step::RetryAfter(100)));
    assert!(matches!(s.on_outcome(&p, Ok(())), Step::Finished));
    assert_eq!(s.retries(), 2);
}

#[test]
fn success_on_the_last_allowed_attempt() {
    let p = RetryPolicy::for_writes();
    let mut s = RetryState::new();
    for _ in 0..50 {
        assert!(matches!(s.on_outcome(&p, busy()), Step::RetryAfter(100)));
    }
    assert!(matches!(s.on_outcome(&p, Ok(())), Step::Finished));
    assert_eq!(s.retries(), 50);
}

#[test]
fn other_errors_never_retry() {
    let p = RetryPolicy::for_writes();
    let errors = vec![
        StoreError::Query("Database record `foo:[1]` already exists".to_string()),
        StoreError::Protocol("Resource busy: but not a query error".to_string()),
        StoreError::Connection("broken pipe".to_string()),
    ];
    let classes = vec![ErrorClass::Query, ErrorClass::Query, ErrorClass::Connection];
    for (e, class) in errors.into_iter().zip(classes) {
        let text = e.message().to_string();
        let mut s = RetryState::new();
        match s.on_outcome(&p, Err(e)) {
            Step::Abort(fatal) => {
                assert_eq!(fatal.retries, 0);
                assert_eq!(fatal.class, class);
                assert_eq!(fatal.error.message(), text);
            },
            other => panic!("expected abort, got {:?}", other),
        }
        assert_eq!(s.retries(), 0);
    }
}

#[test]
fn other_error_after_retries_aborts_with_the_count() {
    let p = RetryPolicy::for_writes();
    let mut s = RetryState::new();
    for _ in 0..3 {
        assert!(matches!(s.on_outcome(&p, busy()), Step::RetryAfter(100)));
    }
    match s.on_outcome(&p, Err(StoreError::Connection("gone".to_string()))) {
        Step::Abort(fatal) => {
            assert_eq!(fatal.retries, 3);
            assert_eq!(fatal.class, ErrorClass::Connection);
        },
        other => panic!("expected abort, got {:?}", other),
    }
}

#[test]
fn reads_do_not_retry_contention() {
    let p = RetryPolicy::for_reads();
    let mut s = RetryState::new();
    match s.on_outcome(&p, busy()) {
        Step::Abort(fatal) => {
            assert_eq!(fatal.retries, 0);
            assert_eq!(fatal.class, ErrorClass::Contention);
        },
        other => panic!("expected abort, got {:?}", other),
    }
    let mut s = RetryState::new();
    assert!(matches!(s.on_outcome(&p, Ok(())), Step::Finished));
}

#[test]
fn custom_policy_backoff_and_bound() {
    let p = RetryPolicy { max_retries: 2, backoff_ms: 7 };
    let mut s = RetryState::new();
    assert!(matches!(s.on_outcome(&p, busy()), Step::RetryAfter(7)));
    assert!(matches!(s.on_outcome(&p, busy()), Step::RetryAfter(7)));
    assert!(matches!(s.on_outcome(&p, busy()), Step::Abort(_)));
    assert_eq!(s.retries(), 2);
}
