use graph_util::outcome::TimeoutError;
use graph_util::policy::Attempt;
use graph_util::retry;
use graph_util::time::TimeSpan;
use std::sync::Mutex;

#[test]
fn test() {
    let c = Mutex::new(0);
    let result = retry("test")
        .no_logging()
        .no_limit()
        .no_timeout()
        .run(move |_| {
            let mut c_guard = c.lock().unwrap();
            *c_guard += 1;

            if *c_guard >= 10 {
                Ok(*c_guard)
            } else {
                Err(())
            }
        });
    assert_eq!(result, Ok(10));
}

#[test]
fn limit_reached() {
    let c = Mutex::new(0);
    let result = retry("test")
        .no_logging()
        .limit(5)
        .no_timeout()
        .run(move |_| {
            let mut c_guard = c.lock().unwrap();
            *c_guard += 1;

            if *c_guard >= 10 {
                Ok(*c_guard)
            } else {
                Err(*c_guard)
            }
        });
    assert_eq!(result, Err(5));
}

#[test]
fn limit_not_reached() {
    let c = Mutex::new(0);
    let result = retry("test")
        .no_logging()
        .limit(20)
        .no_timeout()
        .run(move |_| {
            let mut c_guard = c.lock().unwrap();
            *c_guard += 1;

            if *c_guard >= 10 {
                Ok(*c_guard)
            } else {
                Err(*c_guard)
            }
        });
    assert_eq!(result, Ok(10));
}

#[test]
fn custom_when() {
    let c = Mutex::new(0);

    let result = retry("test")
        .when(|result| result.unwrap() < 10)
        .no_logging()
        .limit(20)
        .no_timeout()
        .run(move |_| {
            let mut c_guard = c.lock().unwrap();
            *c_guard += 1;
            if *c_guard > 30 {
                Err(())
            } else {
                Ok(*c_guard)
            }
        });
    assert_eq!(result, Ok(10));
}

#[test]
fn eventual_success_takes_the_value_of_the_last_attempt() {
    let calls = Mutex::new(0u32);
    let result: Result<u32, &str> = retry("eventually").no_limit().no_timeout().run(|_| {
        let mut made = calls.lock().unwrap();
        *made += 1;
        if *made == 7 {
            Ok(*made * 100)
        } else {
            Err("not yet")
        }
    });
    assert_eq!(result, Ok(700));
    assert_eq!(*calls.lock().unwrap(), 7);
}

#[test]
fn limit_is_enforced_with_exactly_that_many_attempts() {
    let calls = Mutex::new(0u64);
    let result: Result<(), u64> = retry("never").no_logging().limit(5).no_timeout().run(|_| {
        let mut made = calls.lock().unwrap();
        *made += 1;
        Err(*made)
    });
    assert_eq!(result, Err(5));
    assert_eq!(*calls.lock().unwrap(), 5);
}

#[test]
fn limit_of_one_makes_one_attempt() {
    let calls = Mutex::new(0u64);
    let result: Result<(), u64> = retry("once").limit(1).no_timeout().run(|_| {
        let mut made = calls.lock().unwrap();
        *made += 1;
        Err(*made)
    });
    assert_eq!(result, Err(1));
    assert_eq!(*calls.lock().unwrap(), 1);
}

#[test]
fn success_before_the_limit_stops_there() {
    let calls = Mutex::new(0u64);
    let result: Result<u64, u64> = retry("soon").limit(20).no_timeout().run(|_| {
        let mut made = calls.lock().unwrap();
        *made += 1;
        if *made >= 10 {
            Ok(*made)
        } else {
            Err(*made)
        }
    });
    assert_eq!(result, Ok(10));
    assert_eq!(*calls.lock().unwrap(), 10);
}

#[test]
fn success_at_the_limit_is_a_success() {
    let calls = Mutex::new(0u64);
    let result: Result<u64, u64> = retry("just").limit(3).no_timeout().run(|_| {
        let mut made = calls.lock().unwrap();
        *made += 1;
        if *made >= 3 {
            Ok(*made)
        } else {
            Err(*made)
        }
    });
    assert_eq!(result, Ok(3));
    assert_eq!(*calls.lock().unwrap(), 3);
}

#[test]
fn predicate_keeps_going_past_a_success() {
    let calls = Mutex::new(0u64);
    let result: Result<u64, ()> = retry("more")
        .when(|result: &Result<u64, ()>| result.unwrap() < 10)
        .limit(20)
        .no_timeout()
        .run(|_| {
            let mut made = calls.lock().unwrap();
            *made += 1;
            if *made > 30 {
                Err(())
            } else {
                Ok(*made)
            }
        });
    assert_eq!(result, Ok(10));
    assert_eq!(*calls.lock().unwrap(), 10);
}

#[test]
fn predicate_can_stop_at_an_error() {
    let calls = Mutex::new(0u64);
    let result: Result<u64, u64> = retry("fatal")
        .when(|result: &Result<u64, u64>| match result {
            Ok(_) => false,
            Err(code) => *code < 3,
        })
        .no_limit()
        .no_timeout()
        .run(|_| {
            let mut made = calls.lock().unwrap();
            *made += 1;
            Err(*made)
        });
    assert_eq!(result, Err(3));
    assert_eq!(*calls.lock().unwrap(), 3);
}

#[test]
fn predicate_retrying_a_success_ends_with_it_at_the_limit() {
    let result: Result<u64, ()> = retry("always")
        .when(|_: &Result<u64, ()>| true)
        .limit(4)
        .no_timeout()
        .run(|attempt| Ok(attempt.number));
    assert_eq!(result, Ok(4));
}

#[test]
fn second_when_replaces_the_first() {
    let calls = Mutex::new(0u64);
    let result: Result<u64, ()> = retry("twice")
        .when(|_: &Result<u64, ()>| true)
        .when(|_: &Result<u64, ()>| false)
        .limit(4)
        .no_timeout()
        .run(|_| {
            *calls.lock().unwrap() += 1;
            Err(())
        });
    assert_eq!(result, Err(()));
    assert_eq!(*calls.lock().unwrap(), 1);
}

#[test]
fn attempts_are_numbered_and_delayed_within_the_backoff() {
    let seen: Mutex<Vec<(u64, u64)>> = Mutex::new(Vec::new());
    let result: Result<(), ()> = retry("numbers").no_logging().limit(30).no_timeout().run(
        |attempt: Attempt<(), ()>| {
            assert_eq!(attempt.timeout, None);
            assert_eq!(attempt.notice, None);
            seen.lock().unwrap().push((attempt.number, attempt.delay_ms));
            Err(())
        },
    );
    assert_eq!(result, Err(()));
    let seen = seen.lock().unwrap();
    assert_eq!(seen.len(), 30);
    assert_eq!(seen[0], (1, 0));
    let mut bound: u64 = 1;
    for (i, (number, delay_ms)) in seen.iter().enumerate() {
        assert_eq!(*number, i as u64 + 1);
        if i > 0 {
            bound = if bound * 2 > 30_000 { 30_000 } else { bound * 2 };
            assert!(*delay_ms <= bound, "delay {} of attempt {}", delay_ms, number);
        }
    }
    assert_eq!(bound, 30_000);
}

#[test]
fn exceeded_deadlines_are_retried_until_the_limit() {
    let calls = Mutex::new(0u64);
    let result: Result<u8, TimeoutError<u8>> = retry("slow")
        .when(|_: &Result<u8, u8>| false)
        .limit(3)
        .timeout_secs(30)
        .run(|attempt| {
            assert_eq!(attempt.timeout, Some(TimeSpan::from_secs(30)));
            *calls.lock().unwrap() += 1;
            Err(TimeoutError::Elapsed)
        });
    assert_eq!(result, Err(TimeoutError::Elapsed));
    assert_eq!(*calls.lock().unwrap(), 3);
}

#[test]
fn inner_error_under_a_deadline_is_told_apart() {
    let result: Result<u8, TimeoutError<u8>> =
        retry("broken").limit(2).timeout_millis(1_500).run(|attempt| {
            assert_eq!(attempt.timeout, Some(TimeSpan::new(1, 500_000_000)));
            Err(TimeoutError::inner(attempt.number as u8))
        });
    assert_eq!(result, Err(TimeoutError::Inner(2)));
}

#[test]
fn success_after_an_exceeded_deadline() {
    let result: Result<u64, TimeoutError<()>> =
        retry("late").no_limit().timeout(TimeSpan::from_millis(250)).run(|attempt| {
            if attempt.number < 4 {
                Err(TimeoutError::Elapsed)
            } else {
                Ok(attempt.number)
            }
        });
    assert_eq!(result, Ok(4));
}

#[test]
fn result_without_timeout_is_the_operation_s_own() {
    let failed: Result<u8, &str> = retry("plain").limit(2).no_timeout().run(|_| Err("inner"));
    assert_eq!(failed, Err("inner"));
    let passed: Result<u8, &str> = retry("plain").limit(2).no_timeout().run(|_| Ok(1));
    assert_eq!(passed, Ok(1));
}

#[test]
fn a_decision_is_taken_once() {
    let config = retry::<u8, u8>("staged");
    assert!(!config.limit_decided());
    assert!(!config.logging_decided());
    let config = config.limit(5);
    assert!(config.limit_decided());
    let config = retry::<u8, u8>("staged").no_limit();
    assert!(config.limit_decided());
    let config = config.log_after(3);
    assert!(config.logging_decided());
    let config = retry::<u8, u8>("staged").no_logging();
    assert!(config.logging_decided());
    assert!(!config.no_timeout().limit_decided());
    assert!(retry::<u8, u8>("staged").limit(2).timeout_secs(1).limit_decided());
}
