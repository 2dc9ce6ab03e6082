//! Outbound messages: `"{unixTimestamp},{state}"` payloads and their topics.
use vstd::prelude::*;
use crate::status::{Locker, Status, state_text};

verus! {

/// The decimal digit `d` as a character.
pub open spec fn digit_char(d: nat) -> char {
    seq!['0', '1', '2', '3', '4', '5', '6', '7', '8', '9'][d as int]
}

/// The decimal text of `n`, without leading zeros.
pub open spec fn nat_text(n: nat) -> Seq<char>
    decreases n,
{
    if n < 10 {
        seq![digit_char(n)]
    } else {
        nat_text(n / 10) + seq![digit_char(n % 10)]
    }
}

/// The decimal text of `n`, with a leading `-` when it is negative.
pub open spec fn int_text(n: int) -> Seq<char> {
    if n < 0 {
        seq!['-'] + nat_text((-n) as nat)
    } else {
        nat_text(n as nat)
    }
}

/// The payload that reports `s` at time `ts`: `"{ts},{state}"`.
pub open spec fn message_text(ts: int, s: Seq<Locker>) -> Seq<char> {
    int_text(ts) + seq![','] + state_text(s)
}

/// An outbound message. The variant decides the topic it goes to.
#[derive(Debug)]
pub enum Msg {
    /// A periodic snapshot.
    Status(String),
    /// A detected change.
    Event(String),
}

fn append_digit(out: &mut String, d: u64)
    requires
        d < 10,
    ensures
        final(out)@ == old(out)@ + seq![digit_char(d as nat)],
{
    proof {
        reveal_strlit("0");
        reveal_strlit("1");
        reveal_strlit("2");
        reveal_strlit("3");
        reveal_strlit("4");
        reveal_strlit("5");
        reveal_strlit("6");
        reveal_strlit("7");
        reveal_strlit("8");
        reveal_strlit("9");
    }
    match d {
        0 => out.append("0"),
        1 => out.append("1"),
        2 => out.append("2"),
        3 => out.append("3"),
        4 => out.append("4"),
        5 => out.append("5"),
        6 => out.append("6"),
        7 => out.append("7"),
        8 => out.append("8"),
        _ => out.append("9"),
    }
    assert(final(out)@ =~= old(out)@ + seq![digit_char(d as nat)]);
}

fn append_nat(out: &mut String, n: u64)
    ensures
        final(out)@ == old(out)@ + nat_text(n as nat),
    decreases n,
{
    if n >= 10 {
        append_nat(out, n / 10);
    }
    append_digit(out, n % 10);
    assert(final(out)@ =~= old(out)@ + nat_text(n as nat));
}

/// Appends the decimal text of `n` to `out`.
pub fn append_int(out: &mut String, n: i64)
    ensures
        final(out)@ == old(out)@ + int_text(n as int),
{
    if n < 0 {
        proof {
            reveal_strlit("-");
        }
        out.append("-");
        let m: u64 = (0i128 - n as i128) as u64;
        append_nat(out, m);
        assert(final(out)@ =~= old(out)@ + int_text(n as int));
    } else {
        append_nat(out, n as u64);
    }
}

/// The payload that reports `state` at time `timestamp`.
pub fn report_text(timestamp: i64, state: &Status) -> (r: String)
    ensures
        r@ == message_text(timestamp as int, state@),
{
    let mut out = String::new();
    append_int(&mut out, timestamp);
    proof {
        reveal_strlit(",");
    }
    out.append(",");
    state.append_text(&mut out);
    assert(out@ =~= message_text(timestamp as int, state@));
    out
}

/// `uid` followed by `suffix`.
fn topic_of(uid: &str, suffix: &str) -> (r: String)
    ensures
        r@ == uid@ + suffix@,
{
    let mut t = String::from_str(uid);
    t.append(suffix);
    t
}

/// The topic on which unlock commands arrive: `"{uid}/cmd"`.
pub fn cmd_topic(uid: &str) -> (r: String)
    ensures
        r@ == uid@ + "/cmd"@,
{
    topic_of(uid, "/cmd")
}

impl Msg {
    /// The topic this message is published on: `"{uid}/status"` for a
    /// snapshot, `"{uid}/events"` for a change.
    pub fn topic(&self, uid: &str) -> (r: String)
        ensures
            self is Status ==> r@ == uid@ + "/status"@,
            self is Event ==> r@ == uid@ + "/events"@,
    {
        match self {
            Msg::Status(_) => topic_of(uid, "/status"),
            Msg::Event(_) => topic_of(uid, "/events"),
        }
    }

    /// The message's payload text.
    pub fn payload(&self) -> (r: &String)
        ensures
            self is Status ==> r == self->Status_0,
            self is Event ==> r == self->Event_0,
    {
        match self {
            Msg::Status(s) => s,
            Msg::Event(s) => s,
        }
    }
}

} // verus!
