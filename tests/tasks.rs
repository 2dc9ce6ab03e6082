use lkaas::message::{append_int, cmd_topic, report_text, Msg};
use lkaas::status::Status;
use lkaas::tasks::{
    command_slot, extra_delay_ms, poll_step_at, status_report_at, PollAction, QueryResult,
};

const ALL_OPEN_EMPTY: &str = "OE,OE,OE,OE,OE,OE,OE,OE,OE,OE,OE,OE,OE,OE,OE,OE";

fn event_text(a: &PollAction) -> Option<String> {
    match a {
        PollAction::Publish(Msg::Event(t)) => Some(t.clone()),
        _ => None,
    }
}

#[test]
fn poll_emits_once_per_change() {
    let a = Status::from_words(0b1, 0);
    let b = Status::from_words(0b11, 0);
    let mut cur = Status::new();
    let r1 = poll_step_at(&mut cur, QueryResult::Decoded(a.clone()), 10);
    assert_eq!(
        event_text(&r1).unwrap(),
        "10,CE,OE,OE,OE,OE,OE,OE,OE,OE,OE,OE,OE,OE,OE,OE,OE"
    );
    assert!(cur == a);
    let r2 = poll_step_at(&mut cur, QueryResult::Decoded(a.clone()), 11);
    assert!(matches!(r2, PollAction::Idle));
    assert!(cur == a);
    let r3 = poll_step_at(&mut cur, QueryResult::Decoded(b.clone()), 12);
    assert_eq!(
        event_text(&r3).unwrap(),
        "12,CE,CE,OE,OE,OE,OE,OE,OE,OE,OE,OE,OE,OE,OE,OE,OE"
    );
    assert!(cur == b);
}

#[test]
fn poll_timeout_and_failure_keep_state() {
    let a = Status::from_words(0x00f0, 0x0f00);
    let mut cur = a.clone();
    assert!(matches!(poll_step_at(&mut cur, QueryResult::TimedOut, 1), PollAction::Idle));
    assert!(cur == a);
    assert!(matches!(poll_step_at(&mut cur, QueryResult::Failed, 1), PollAction::Backoff));
    assert!(cur == a);
}

#[test]
fn status_report_on_initial_state() {
    let s = Status::new();
    match status_report_at(&s, 42) {
        Msg::Status(t) => assert_eq!(t, "42,"),
        Msg::Event(_) => panic!("a report is a status message"),
    }
}

#[test]
fn status_report_every_tick_when_unchanged() {
    let s = Status::from_words(0, 0);
    for ts in [60i64, 120, 180] {
        match status_report_at(&s, ts) {
            Msg::Status(t) => assert_eq!(t, format!("{},{}", ts, ALL_OPEN_EMPTY)),
            Msg::Event(_) => panic!("a report is a status message"),
        }
    }
}

#[test]
fn timestamp_text() {
    let s = Status::new();
    assert_eq!(report_text(0, &s), "0,");
    assert_eq!(report_text(1700000000, &s), "1700000000,");
    assert_eq!(report_text(-7, &s), "-7,");
    assert_eq!(report_text(i64::MIN, &s), "-9223372036854775808,");
    assert_eq!(report_text(i64::MAX, &s), "9223372036854775807,");
    let mut out = String::from("t=");
    append_int(&mut out, 905);
    assert_eq!(out, "t=905");
}

#[test]
fn command_five_opens_slot_four() {
    assert_eq!(command_slot(b"5"), Some(4));
}

#[test]
fn command_rejects_out_of_range_and_garbage() {
    for p in ["0", "17", "abc", "", "+", "-5", "256", "5 ", " 5", "1a"] {
        assert_eq!(command_slot(p.as_bytes()), None, "payload {:?}", p);
    }
}

#[test]
fn command_accepts_every_locker_number() {
    for n in 1u8..=16 {
        assert_eq!(command_slot(n.to_string().as_bytes()), Some(n - 1));
    }
    assert_eq!(command_slot(b"+16"), Some(15));
    assert_eq!(command_slot(b"007"), Some(6));
    assert_eq!(command_slot(b"99999999999999999999"), None);
}

#[test]
fn topics() {
    assert_eq!(cmd_topic("dev1"), "dev1/cmd");
    assert_eq!(Msg::Status("x".to_string()).topic("dev1"), "dev1/status");
    assert_eq!(Msg::Event("x".to_string()).topic("dev1"), "dev1/events");
    assert_eq!(Msg::Event("x".to_string()).payload(), "x");
}

#[test]
fn backoff_delay() {
    assert_eq!(extra_delay_ms(&PollAction::Backoff, 50), 100);
    assert_eq!(extra_delay_ms(&PollAction::Backoff, u64::MAX), u64::MAX);
    assert_eq!(extra_delay_ms(&PollAction::Idle, 50), 0);
}
