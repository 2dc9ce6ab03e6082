//! The state of the sixteen lockers, as the board reports it.
use vstd::prelude::*;

verus! {

/// Number of lockers on one board.
pub const LOCKER_COUNT: usize = 16;

/// Length of the board's answer to a query.
pub const STATUS_FRAME_LEN: usize = 9;

/// Offset of the little-endian latch word in a status frame.
pub const LATCH_INDEX: usize = 3;

/// Offset of the little-endian infrared word in a status frame.
pub const INFRARED_INDEX: usize = 5;

/// One locker's observation.
#[derive(PartialEq, Eq, Structural, Debug, Clone, Copy)]
pub struct Locker {
    /// The locker's number, 1 to 16.
    pub number: u8,
    /// The latch sensor: the door is closed.
    pub closed: bool,
    /// The infrared sensor: something is inside.
    pub loaded: bool,
}

/// A status frame that does not have the expected shape.
#[derive(PartialEq, Eq, Structural, Debug, Clone, Copy)]
pub enum ProtocolError {
    /// The frame is not exactly nine bytes long.
    BadLength,
}

/// Bit `i` of `w` is set.
pub open spec fn word_bit(w: u16, i: int) -> bool {
    (w >> (i as u16)) & 1u16 == 1u16
}

/// The 16-bit word whose low byte is `lo` and high byte is `hi`.
pub open spec fn le_word(lo: u8, hi: u8) -> u16 {
    ((hi as u16) << 8u16) | (lo as u16)
}

/// The sixteen lockers described by a latch word and an infrared word:
/// locker `i + 1` is closed iff bit `i` of the latch word is set, and loaded
/// iff bit `i` of the infrared word is set.
pub open spec fn lockers_of(latch: u16, infrared: u16) -> Seq<Locker> {
    Seq::new(
        16,
        |i: int| Locker { number: (i + 1) as u8, closed: word_bit(latch, i), loaded: word_bit(infrared, i) },
    )
}

/// The latch word of a status frame.
pub open spec fn latch_word(b: Seq<u8>) -> u16 {
    le_word(b[3], b[4])
}

/// The infrared word of a status frame.
pub open spec fn infrared_word(b: Seq<u8>) -> u16 {
    le_word(b[5], b[6])
}

/// The lockers that a nine-byte status frame describes.
pub open spec fn decoded(b: Seq<u8>) -> Seq<Locker> {
    lockers_of(latch_word(b), infrared_word(b))
}

/// The observation of all lockers, in locker-number order. The initial value
/// holds no locker at all, and so differs from every decoded frame.
#[derive(Debug, Clone)]
pub struct Status {
    pub lockers: Vec<Locker>,
}

impl View for Status {
    type V = Seq<Locker>;

    open spec fn view(&self) -> Seq<Locker> {
        self.lockers@
    }
}

/// A well-formed state: empty, or the sixteen lockers numbered 1 to 16 in order.
pub open spec fn wf_lockers(s: Seq<Locker>) -> bool {
    s.len() == 0 || (s.len() == 16 && forall|i: int| 0 <= i < 16 ==> (#[trigger] s[i]).number == i + 1)
}

impl Status {
    /// The initial state, which holds no locker.
    pub fn new() -> (r: Status)
        ensures
            r@ == Seq::<Locker>::empty(),
            r.wf(),
    {
        Status { lockers: Vec::new() }
    }

    pub open spec fn wf(&self) -> bool {
        wf_lockers(self@)
    }

    /// The state described by a latch word and an infrared word.
    pub fn from_words(latch: u16, infrared: u16) -> (r: Status)
        ensures
            r@ == lockers_of(latch, infrared),
            r.wf(),
    {
        let mut lockers: Vec<Locker> = Vec::new();
        let mut i: u16 = 0;
        while i < 16
            invariant
                i <= 16,
                lockers@ == lockers_of(latch, infrared).take(i as int),
            decreases 16 - i,
        {
            let latch_bit = (latch >> i) & 1;
            let infrared_bit = (infrared >> i) & 1;
            lockers.push(Locker { number: (i + 1) as u8, closed: latch_bit == 1, loaded: infrared_bit == 1 });
            i = i + 1;
            assert(lockers@ =~= lockers_of(latch, infrared).take(i as int));
        }
        assert(lockers@ =~= lockers_of(latch, infrared));
        Status { lockers }
    }

    /// Decodes the latch and infrared words of a nine-byte status frame.
    fn from_status_bytes(bytes: &[u8]) -> (r: Status)
        requires
            bytes@.len() == 9,
        ensures
            r@ == decoded(bytes@),
            r.wf(),
    {
        let latches = ((bytes[LATCH_INDEX + 1] as u16) << 8) | (bytes[LATCH_INDEX] as u16);
        let infrareds = ((bytes[INFRARED_INDEX + 1] as u16) << 8) | (bytes[INFRARED_INDEX] as u16);
        Status::from_words(latches, infrareds)
    }

    /// Decodes a nine-byte answer to a query.
    pub fn from_frame(value: [u8; 9]) -> (r: Status)
        ensures
            r@ == decoded(value@),
            r.wf(),
    {
        Status::from_status_bytes(value.as_slice())
    }

    /// Decodes an answer to a query, which must be exactly nine bytes long.
    /// Only the latch and infrared words are read.
    pub fn decode(bytes: &[u8]) -> (r: Result<Status, ProtocolError>)
        ensures
            bytes@.len() != 9 <==> r == Err::<Status, ProtocolError>(ProtocolError::BadLength),
            r is Ok ==> r->Ok_0@ == decoded(bytes@) && r->Ok_0.wf(),
    {
        if bytes.len() != STATUS_FRAME_LEN {
            return Err(ProtocolError::BadLength);
        }
        Ok(Status::from_status_bytes(bytes))
    }

    /// The number of lockers held: 0 for the initial state, else 16.
    pub fn len(&self) -> (r: usize)
        ensures
            r == self@.len(),
    {
        self.lockers.len()
    }

    /// The observation of the locker at index `i` (locker number `i + 1`).
    pub fn locker(&self, i: usize) -> (r: Locker)
        requires
            i < self@.len(),
        ensures
            r == self@[i as int],
    {
        self.lockers[i]
    }

    /// A copy of this state.
    pub fn duplicate(&self) -> (r: Status)
        ensures
            r@ == self@,
    {
        let mut lockers: Vec<Locker> = Vec::new();
        let mut i: usize = 0;
        while i < self.lockers.len()
            invariant
                i <= self@.len(),
                lockers@ == self@.take(i as int),
            decreases self@.len() - i,
        {
            lockers.push(self.lockers[i]);
            i = i + 1;
            assert(lockers@ =~= self@.take(i as int));
        }
        assert(lockers@ =~= self@);
        Status { lockers }
    }
}

impl Default for Status {
    /// The initial state, which holds no locker.
    fn default() -> (r: Status)
        ensures
            r@ == Seq::<Locker>::empty(),
    {
        Status::new()
    }
}

impl PartialEq for Status {
    /// Pairwise equality of the lockers.
    fn eq(&self, o: &Status) -> (r: bool)
        ensures
            r == (self@ == o@),
    {
        if self.lockers.len() != o.lockers.len() {
            return false;
        }
        let mut i: usize = 0;
        while i < self.lockers.len()
            invariant
                i <= self@.len(),
                self@.len() == o@.len(),
                forall|j: int| 0 <= j < i ==> self@[j] == o@[j],
            decreases self@.len() - i,
        {
            if self.lockers[i] != o.lockers[i] {
                return false;
            }
            i = i + 1;
        }
        assert(self@ =~= o@);
        true
    }
}

impl vstd::std_specs::cmp::PartialEqSpecImpl for Status {
    open spec fn obeys_eq_spec() -> bool {
        true
    }

    open spec fn eq_spec(&self, o: &Status) -> bool {
        self@ == o@
    }
}


/// The two-character code of a locker: `C` (closed) or `O` (open), then `L`
/// (loaded) or `E` (empty).
pub open spec fn locker_code(l: Locker) -> Seq<char> {
    seq![if l.closed { 'C' } else { 'O' }, if l.loaded { 'L' } else { 'E' }]
}

/// The codes of the lockers, in order, joined by commas.
pub open spec fn state_text(s: Seq<Locker>) -> Seq<char>
    decreases s.len(),
{
    if s.len() == 0 {
        Seq::empty()
    } else if s.len() == 1 {
        locker_code(s[0])
    } else {
        state_text(s.drop_last()) + seq![','] + locker_code(s.last())
    }
}

/// Appends the code of `l` to `out`.
fn append_code(out: &mut String, l: Locker)
    ensures
        final(out)@ == old(out)@ + locker_code(l),
{
    proof {
        reveal_strlit("CL");
        reveal_strlit("CE");
        reveal_strlit("OL");
        reveal_strlit("OE");
    }
    if l.closed {
        if l.loaded {
            out.append("CL");
        } else {
            out.append("CE");
        }
    } else {
        if l.loaded {
            out.append("OL");
        } else {
            out.append("OE");
        }
    }
    assert(final(out)@ =~= old(out)@ + locker_code(l));
}

impl Status {
    /// Appends the text form of this state to `out`.
    pub fn append_text(&self, out: &mut String)
        ensures
            final(out)@ == old(out)@ + state_text(self@),
    {
        let ghost start = out@;
        let mut i: usize = 0;
        while i < self.lockers.len()
            invariant
                i <= self@.len(),
                out@ == start + state_text(self@.take(i as int)),
            decreases self@.len() - i,
        {
            if i > 0 {
                proof {
                    reveal_strlit(",");
                }
                out.append(",");
            }
            append_code(out, self.lockers[i]);
            proof {
                let t = self@.take(i as int + 1);
                assert(t.drop_last() =~= self@.take(i as int));
                assert(t.last() == self@[i as int]);
                assert(out@ =~= start + state_text(t));
            }
            i = i + 1;
        }
        assert(self@.take(self@.len() as int) =~= self@);
    }

    /// The text form of this state: the two-character code of each locker in
    /// number order, joined by commas (`"CL,OE,CE,..."`).
    pub fn to_string(&self) -> (r: String)
        ensures
            r@ == state_text(self@),
    {
        let mut out = String::new();
        self.append_text(&mut out);
        assert(out@ =~= state_text(self@));
        out
    }
}

/// Flipping bit `i` of `w` flips bit `i` and no other.
proof fn lemma_flip_bit(w: u16, i: u16, j: u16)
    by (bit_vector)
    requires
        i < 16,
        j < 16,
    ensures
        (((w ^ (1u16 << i)) >> j) & 1u16 == 1u16) == (if i == j {
            !((w >> j) & 1u16 == 1u16)
        } else {
            (w >> j) & 1u16 == 1u16
        }),
{
}

/// Between two status frames whose latch words differ in bit `i` alone and
/// whose infrared words agree, only the `closed` flag of locker `i + 1`
/// differs.
pub proof fn lemma_latch_bit_flip(a: Seq<u8>, b: Seq<u8>, i: int)
    requires
        a.len() == 9,
        b.len() == 9,
        0 <= i < 16,
        latch_word(b) == latch_word(a) ^ (1u16 << (i as u16)),
        infrared_word(b) == infrared_word(a),
    ensures
        decoded(b)[i].closed == !decoded(a)[i].closed,
        decoded(b)[i].loaded == decoded(a)[i].loaded,
        decoded(b)[i].number == decoded(a)[i].number,
        forall|j: int| 0 <= j < 16 && j != i ==> decoded(b)[j] == decoded(a)[j],
{
    lemma_flip_bit(latch_word(a), i as u16, i as u16);
    assert forall|j: int| 0 <= j < 16 && j != i implies decoded(b)[j] == decoded(a)[j] by {
        lemma_flip_bit(latch_word(a), i as u16, j as u16);
    }
}

/// Between two status frames whose infrared words differ in bit `i` alone and
/// whose latch words agree, only the `loaded` flag of locker `i + 1` differs.
pub proof fn lemma_infrared_bit_flip(a: Seq<u8>, b: Seq<u8>, i: int)
    requires
        a.len() == 9,
        b.len() == 9,
        0 <= i < 16,
        infrared_word(b) == infrared_word(a) ^ (1u16 << (i as u16)),
        latch_word(b) == latch_word(a),
    ensures
        decoded(b)[i].loaded == !decoded(a)[i].loaded,
        decoded(b)[i].closed == decoded(a)[i].closed,
        decoded(b)[i].number == decoded(a)[i].number,
        forall|j: int| 0 <= j < 16 && j != i ==> decoded(b)[j] == decoded(a)[j],
{
    lemma_flip_bit(infrared_word(a), i as u16, i as u16);
    assert forall|j: int| 0 <= j < 16 && j != i implies decoded(b)[j] == decoded(a)[j] by {
        lemma_flip_bit(infrared_word(a), i as u16, j as u16);
    }
}

/// Two full states are equal iff every locker's `(closed, loaded)` pair is
/// equal.
pub proof fn lemma_eq_pairwise(a: Status, b: Status)
    requires
        a.wf(),
        b.wf(),
        a@.len() == 16,
        b@.len() == 16,
    ensures
        (a@ == b@) <==> (forall|i: int|
            0 <= i < 16 ==> (#[trigger] a@[i]).closed == b@[i].closed && a@[i].loaded == b@[i].loaded),
{
    if forall|i: int| 0 <= i < 16 ==> (#[trigger] a@[i]).closed == b@[i].closed && a@[i].loaded == b@[i].loaded {
        assert forall|i: int| 0 <= i < 16 implies a@[i] == b@[i] by {
            assert(a@[i].number == b@[i].number);
        }
        assert(a@ =~= b@);
    }
}

} // verus!
