//! The decisions of the long-running tasks: the poller, which publishes each
//! change of the lockers; the status reporter, which publishes a snapshot on
//! every tick; and the command handler, which turns an inbound payload into
//! the locker to unlock. Running the loops, the locks and the I/O is left to
//! the caller, which hands each decision its inputs, the current time among
//! them.
use vstd::prelude::*;
use crate::command::{Command, unlock_frame};
use crate::message::{Msg, message_text, report_text};
use crate::status::{Locker, Status};

verus! {

/// What one query of the board came back with.
pub enum QueryResult {
    /// A full status frame, decoded.
    Decoded(Status),
    /// No answer within the read deadline: expected, and ignored.
    TimedOut,
    /// Any other transport failure.
    Failed,
}

/// What the poller does after one query.
#[derive(Debug)]
pub enum PollAction {
    /// The lockers changed: queue this message.
    Publish(Msg),
    /// Nothing to do until the next tick.
    Idle,
    /// The transport failed: wait longer before the next tick.
    Backoff,
}

/// A poll that sees `new` while `cur` is cached publishes an event.
pub open spec fn emits_change(cur: Seq<Locker>, new: Seq<Locker>) -> bool {
    cur != new
}

/// The cached state after a poll that sees `new` while `cur` is cached: it is
/// replaced only where it differs.
pub open spec fn state_after(cur: Seq<Locker>, new: Seq<Locker>) -> Seq<Locker> {
    if emits_change(cur, new) {
        new
    } else {
        cur
    }
}

/// `a` is the event that carries `text`.
pub open spec fn is_event_with(a: PollAction, text: Seq<char>) -> bool {
    match a {
        PollAction::Publish(Msg::Event(t)) => t@ == text,
        _ => false,
    }
}

/// `m` is the snapshot that carries `text`.
pub open spec fn is_status_with(m: Msg, text: Seq<char>) -> bool {
    match m {
        Msg::Status(t) => t@ == text,
        _ => false,
    }
}

/// One step of the poller, at time `timestamp`. A decoded state that differs
/// from the cached one replaces it and is published as an event; an equal one,
/// and a timeout, change nothing; a transport failure asks for a backoff.
pub fn poll_step_at(current: &mut Status, result: QueryResult, timestamp: i64) -> (r: PollAction)
    ensures
        match result {
            QueryResult::Decoded(new) => {
                &&& final(current)@ == state_after(old(current)@, new@)
                &&& emits_change(old(current)@, new@) ==> is_event_with(
                    r,
                    message_text(timestamp as int, new@),
                )
                &&& !emits_change(old(current)@, new@) ==> r is Idle
            },
            QueryResult::TimedOut => final(current)@ == old(current)@ && r is Idle,
            QueryResult::Failed => final(current)@ == old(current)@ && r is Backoff,
        },
{
    match result {
        QueryResult::Decoded(new) => {
            if new != *current {
                let text = report_text(timestamp, &new);
                *current = new;
                PollAction::Publish(Msg::Event(text))
            } else {
                PollAction::Idle
            }
        },
        QueryResult::TimedOut => PollAction::Idle,
        QueryResult::Failed => PollAction::Backoff,
    }
}

/// The snapshot that the status reporter publishes of `state` at time
/// `timestamp`, whatever the state, the initial empty one included.
pub fn status_report_at(state: &Status, timestamp: i64) -> (r: Msg)
    ensures
        is_status_with(r, message_text(timestamp as int, state@)),
{
    Msg::Status(report_text(timestamp, state))
}

/// How much longer than one tick the poller waits after `action`: twice the
/// interval after a transport failure (held at the largest `u64`), else
/// nothing.
pub fn extra_delay_ms(action: &PollAction, interval_ms: u64) -> (r: u64)
    ensures
        action is Backoff ==> r == (if 2 * interval_ms > u64::MAX { u64::MAX as int } else { 2 * interval_ms }),
        !(action is Backoff) ==> r == 0,
{
    match action {
        PollAction::Backoff => if interval_ms > u64::MAX / 2 {
            u64::MAX
        } else {
            interval_ms * 2
        },
        _ => 0,
    }
}

/// An ASCII decimal digit.
pub open spec fn is_digit(c: u8) -> bool {
    48 <= c <= 57
}

/// The value of a string of decimal digits.
pub open spec fn digits_value(s: Seq<u8>) -> nat
    decreases s.len(),
{
    if s.len() == 0 {
        0
    } else {
        digits_value(s.drop_last()) * 10 + (s.last() - 48) as nat
    }
}

/// Every byte of `d` is a decimal digit.
pub open spec fn all_digits(d: Seq<u8>) -> bool {
    forall|i: int| 0 <= i < d.len() ==> is_digit(#[trigger] d[i])
}

/// The digits of an unsigned decimal, after an optional leading `+`.
pub open spec fn unsigned_digits(s: Seq<u8>) -> Seq<u8> {
    if s.len() > 0 && s[0] == 43 {
        s.subrange(1, s.len() as int)
    } else {
        s
    }
}

/// The number an unsigned decimal payload spells: an optional `+`, then one
/// digit or more and nothing else.
pub open spec fn parsed_number(s: Seq<u8>) -> Option<nat> {
    if unsigned_digits(s).len() > 0 && all_digits(unsigned_digits(s)) {
        Some(digits_value(unsigned_digits(s)))
    } else {
        None
    }
}

/// The 0-based slot that a command payload asks to unlock: the payload's
/// number less one, where that number is a locker number 1 to 16; none for
/// any other payload.
pub open spec fn command_slot_of(payload: Seq<u8>) -> Option<u8> {
    match parsed_number(payload) {
        Some(n) => if 1 <= n <= 16 {
            Some((n - 1) as u8)
        } else {
            None
        },
        None => None,
    }
}

proof fn lemma_digits_value_grows(s: Seq<u8>, c: u8)
    requires
        is_digit(c),
    ensures
        digits_value(s.push(c)) == digits_value(s) * 10 + (c - 48) as nat,
{
    assert(s.push(c).drop_last() =~= s);
}

/// The 0-based slot that an inbound command payload asks to unlock, or none
/// where the payload is not a locker number 1 to 16 in decimal. Such payloads
/// are dropped.
pub fn command_slot(payload: &[u8]) -> (r: Option<u8>)
    ensures
        r == command_slot_of(payload@),
        r matches Some(slot) ==> slot < 16,
{
    let len = payload.len();
    let mut start: usize = 0;
    if len > 0 && payload[0] == 43 {
        start = 1;
    }
    let ghost d = unsigned_digits(payload@);
    assert(d =~= payload@.subrange(start as int, len as int));
    if start >= len {
        return None;
    }
    // `value` is the number read so far, held at 17 once it is past 16.
    let mut value: u32 = 0;
    let mut i: usize = start;
    while i < len
        invariant
            start <= i <= len,
            len == payload@.len(),
            d == payload@.subrange(start as int, len as int),
            d == unsigned_digits(payload@),
            value <= 17,
            forall|k: int| 0 <= k < i - start ==> is_digit(#[trigger] d[k]),
            digits_value(d.take(i - start)) <= 16 ==> value == digits_value(d.take(i - start)),
            digits_value(d.take(i - start)) > 16 ==> value == 17,
        decreases len - i,
    {
        let c = payload[i];
        if c < 48 || c > 57 {
            assert(d[i - start] == c);
            assert(!is_digit(d[i - start]));
            assert(!all_digits(d));
            return None;
        }
        proof {
            assert(d.take(i - start + 1) =~= d.take(i - start).push(c));
            lemma_digits_value_grows(d.take(i - start), c);
        }
        let next: u32 = value * 10 + (c - 48) as u32;
        value = if next > 16 { 17 } else { next };
        i = i + 1;
    }
    assert(d.take(len - start) =~= d);
    if value >= 1 && value <= 16 {
        Some((value - 1) as u8)
    } else {
        None
    }
}

impl Command {
    /// The frame that unlocks the locker at 0-based `slot`, which is locker
    /// number `slot + 1`.
    pub fn unlock_slot(slot: u8) -> (r: Command)
        requires
            slot < 16,
        ensures
            r@ == unlock_frame((slot + 1) as u8),
    {
        Command::unlock_one(slot + 1)
    }
}

/// Polling the same state twice and then a different one: the second poll
/// publishes nothing and the third publishes one event, whatever was cached
/// before the first.
pub proof fn lemma_poll_once_per_change(s0: Seq<Locker>, a: Seq<Locker>, b: Seq<Locker>)
    requires
        a != b,
    ensures
        state_after(s0, a) == a,
        !emits_change(state_after(s0, a), a),
        state_after(state_after(s0, a), a) == a,
        emits_change(state_after(state_after(s0, a), a), b),
        state_after(state_after(state_after(s0, a), a), b) == b,
{
}

} // verus!
