use std::cell::Cell;
use std::time::Duration;
use zeroconf::avahi::poll::{sleep_time, ManagedAvahiSimplePoll};
use zeroconf::Error;

fn describe(code: i32) -> String {
    format!("native message {}", code)
}

fn already_finished() -> Error {
    Error::SystemError {
        message: "avahi_simple_poll_iterate(..) already finished".to_string(),
    }
}

fn iterate_failure(code: i32, message: &str) -> Error {
    Error::MdnsSystemError {
        code,
        message: message.to_string(),
    }
}

#[test]
fn poll_new_fails_without_a_native_poll() {
    let r = ManagedAvahiSimplePoll::<u8>::new(None);
    assert_eq!(
        r.err(),
        Some(Error::SystemError {
            message: "could not initialize AvahiSimplePoll".to_string(),
        })
    );
}

#[test]
fn poll_new_starts_active_and_keeps_the_native_poll() {
    let poll = ManagedAvahiSimplePoll::new(Some(42u8)).ok().unwrap();
    assert!(!poll.has_finished());
    assert_eq!(*poll.inner(), 42);
}

#[test]
fn sleep_time_is_the_millisecond_count_or_the_largest_i32() {
    assert_eq!(sleep_time(0), 0);
    assert_eq!(sleep_time(250), 250);
    assert_eq!(sleep_time(i32::MAX as u128 - 1), i32::MAX - 1);
    assert_eq!(sleep_time(i32::MAX as u128), i32::MAX);
    assert_eq!(sleep_time(i32::MAX as u128 + 1), i32::MAX);
    assert_eq!(sleep_time(u64::MAX as u128), i32::MAX);
    assert_eq!(sleep_time(u128::MAX), i32::MAX);
}

#[test]
fn begin_iterate_converts_the_timeout_to_milliseconds() {
    let poll = ManagedAvahiSimplePoll::new(Some(())).ok().unwrap();
    assert_eq!(poll.begin_iterate(Duration::from_millis(250)), Ok(250));
    assert_eq!(poll.begin_iterate(Duration::from_secs(2)), Ok(2000));
    assert_eq!(poll.begin_iterate(Duration::from_micros(1999)), Ok(1));
    assert_eq!(poll.begin_iterate(Duration::ZERO), Ok(0));
    assert_eq!(
        poll.begin_iterate(Duration::from_millis(i32::MAX as u64)),
        Ok(i32::MAX)
    );
    assert_eq!(
        poll.begin_iterate(Duration::from_millis(i32::MAX as u64 + 1)),
        Ok(i32::MAX)
    );
    assert_eq!(poll.begin_iterate(Duration::MAX), Ok(i32::MAX));
}

#[test]
fn iterate_hands_the_sleep_time_and_the_poll_to_the_native_call() {
    let mut poll = ManagedAvahiSimplePoll::new(Some(9u8)).ok().unwrap();
    let seen = Cell::new((0u8, 0i32));
    let r = poll.iterate(Duration::from_millis(1500), |native: &u8, sleep: i32| {
        seen.set((*native, sleep));
        0
    });
    assert_eq!(r, Ok(()));
    assert_eq!(seen.get(), (9, 1500));
    assert!(!poll.has_finished());

    let r = poll.iterate(Duration::MAX, |_: &u8, sleep: i32| {
        seen.set((0, sleep));
        0
    });
    assert_eq!(r, Ok(()));
    assert_eq!(seen.get(), (0, i32::MAX));
}

#[test]
fn iterate_reports_each_native_outcome() {
    let cases = [
        (1, "avahi_simple_poll_iterate(..) disconnected"),
        (-1, "avahi_simple_poll_iterate(..) threw an error result"),
        (2, "avahi_simple_poll_iterate(..) returned an unknown result"),
        (-2, "avahi_simple_poll_iterate(..) returned an unknown result"),
        (i32::MAX, "avahi_simple_poll_iterate(..) returned an unknown result"),
        (i32::MIN, "avahi_simple_poll_iterate(..) returned an unknown result"),
    ];
    for (code, message) in cases {
        let mut poll = ManagedAvahiSimplePoll::new(Some(())).ok().unwrap();
        let r = poll.iterate(Duration::from_millis(1), |_: &(), _: i32| code);
        assert_eq!(r, Err(iterate_failure(code, message)));
        assert!(poll.has_finished());
    }
}

#[test]
fn iterate_after_disconnect_never_calls_the_native_routine_again() {
    let mut poll = ManagedAvahiSimplePoll::new(Some(())).ok().unwrap();
    let calls = Cell::new(0);
    let answers = [0, 0, 1, 0, 0, -1, 0];
    let mut results = Vec::new();
    for answer in answers {
        results.push(poll.iterate(Duration::from_millis(10), |_: &(), _: i32| {
            calls.set(calls.get() + 1);
            answer
        }));
    }
    assert_eq!(calls.get(), 3);
    assert_eq!(results[0], Ok(()));
    assert_eq!(results[1], Ok(()));
    assert_eq!(
        results[2],
        Err(iterate_failure(
            1,
            "avahi_simple_poll_iterate(..) disconnected"
        ))
    );
    for later in &results[3..] {
        assert_eq!(*later, Err(already_finished()));
    }
    assert!(poll.has_finished());
}

#[test]
fn iterate_after_error_never_calls_the_native_routine_again() {
    let mut poll = ManagedAvahiSimplePoll::new(Some(())).ok().unwrap();
    let calls = Cell::new(0);
    let first = poll.iterate(Duration::ZERO, |_: &(), _: i32| {
        calls.set(calls.get() + 1);
        -1
    });
    assert!(first.is_err());
    for _ in 0..5 {
        let r = poll.iterate(Duration::ZERO, |_: &(), _: i32| {
            calls.set(calls.get() + 1);
            0
        });
        assert_eq!(r, Err(already_finished()));
        assert_eq!(poll.begin_iterate(Duration::ZERO), Err(already_finished()));
    }
    assert_eq!(calls.get(), 1);
}

#[test]
fn finish_iterate_takes_note_of_the_code() {
    let mut poll = ManagedAvahiSimplePoll::new(Some(3u8)).ok().unwrap();
    assert_eq!(poll.finish_iterate(0), Ok(()));
    assert!(!poll.has_finished());
    assert_eq!(
        poll.finish_iterate(-1),
        Err(iterate_failure(
            -1,
            "avahi_simple_poll_iterate(..) threw an error result"
        ))
    );
    assert!(poll.has_finished());
    assert_eq!(poll.finish_iterate(0), Ok(()));
    assert!(poll.has_finished());
    assert_eq!(*poll.inner(), 3);
}

#[test]
fn start_loop_returns_normally_after_a_quit_and_finishes() {
    let mut poll = ManagedAvahiSimplePoll::new(Some(7u8)).ok().unwrap();
    let seen = Cell::new(0u8);
    let r = poll.start_loop(
        |native: &u8| {
            seen.set(*native);
            1
        },
        describe,
    );
    assert_eq!(r, Ok(()));
    assert_eq!(seen.get(), 7);
    assert!(poll.has_finished());
    assert_eq!(
        poll.iterate(Duration::from_millis(5), |_: &u8, _: i32| 0),
        Err(already_finished())
    );
}

#[test]
fn start_loop_reports_a_negative_result() {
    let mut poll = ManagedAvahiSimplePoll::new(Some(())).ok().unwrap();
    let r = poll.start_loop(|_: &()| -1, describe);
    assert_eq!(
        r,
        Err(Error::MdnsSystemError {
            code: -1,
            message:
                "could not start AvahiSimplePoll: (code: -1, message:\"native message -1\")"
                    .to_string(),
        })
    );
    assert!(poll.has_finished());
}

#[test]
fn finish_loop_leaves_the_handle_active_on_zero() {
    let mut poll = ManagedAvahiSimplePoll::new(Some(())).ok().unwrap();
    assert_eq!(poll.finish_loop(0, describe), Ok(()));
    assert!(!poll.has_finished());
    assert_eq!(poll.finish_loop(3, describe), Ok(()));
    assert!(poll.has_finished());
}

#[test]
fn quit_seen_by_a_later_iteration_finishes_the_handle() {
    let mut poll = ManagedAvahiSimplePoll::new(Some(())).ok().unwrap();
    let quit = Cell::new(false);
    let native = |_: &(), _: i32| if quit.get() { 1 } else { 0 };
    assert_eq!(poll.iterate(Duration::from_millis(1), native), Ok(()));
    assert!(!poll.has_finished());
    poll.quit(|_: &()| quit.set(true));
    assert!(quit.get());
    assert!(!poll.has_finished());
    let mut rounds = 0;
    while !poll.has_finished() && rounds < 10 {
        let _ = poll.iterate(Duration::from_millis(1), native);
        rounds += 1;
    }
    assert!(poll.has_finished());
    assert_eq!(rounds, 1);
}
