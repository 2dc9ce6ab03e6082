//! Command frames sent to the locker controller board.
use vstd::prelude::*;

verus! {

/// Data head / frame head, fixed value.
pub const STX: u8 = 0x02;

/// Data tail / frame tail, fixed value.
pub const ETX: u8 = 0x03;

/// Opcode that unlocks one locker.
pub const UNLOCK_ONE: u8 = 0x31;

/// Opcode that asks for the state of every locker.
pub const QUERY_ALL: u8 = 0x32;

/// Fixed checksum of the query-all frame.
pub const QTX: u8 = 0x37;

/// Offset added to the locker number to form the unlock checksum.
pub const UNLOCK_CHECKSUM_BASE: u8 = 0x36;

/// `a + b`, held at 255 where it would overflow.
pub open spec fn saturating_add_u8(a: u8, b: u8) -> u8 {
    if a as int + b as int > 255 {
        255
    } else {
        (a + b) as u8
    }
}

/// The five bytes that unlock locker `n`.
pub open spec fn unlock_frame(n: u8) -> Seq<u8> {
    seq![STX, n, UNLOCK_ONE, ETX, saturating_add_u8(n, UNLOCK_CHECKSUM_BASE)]
}

/// The five bytes that query every locker.
pub open spec fn query_frame() -> Seq<u8> {
    seq![STX, 0u8, QUERY_ALL, ETX, QTX]
}

/// A fixed five-byte frame: `[STX, address, opcode, ETX, checksum]`.
pub struct Command([u8; 5]);

impl View for Command {
    type V = Seq<u8>;

    closed spec fn view(&self) -> Seq<u8> {
        self.0@
    }
}

impl Command {
    /// The frame that unlocks locker `n` (numbered from 1); the checksum is
    /// `n + 0x36`, held at 255.
    pub fn unlock_one(n: u8) -> (r: Command)
        ensures
            r@ == unlock_frame(n),
    {
        let c = Command([STX, n, UNLOCK_ONE, ETX, n.saturating_add(UNLOCK_CHECKSUM_BASE)]);
        assert(c@ =~= unlock_frame(n));
        c
    }

    /// The frame that asks the board for the state of every locker.
    pub fn query_all() -> (r: Command)
        ensures
            r@ == query_frame(),
    {
        let c = Command([STX, 0, QUERY_ALL, ETX, QTX]);
        assert(c@ =~= query_frame());
        c
    }

    /// The checksum, the frame's last byte.
    pub fn checksum(&self) -> (r: u8)
        ensures
            r == self@[4],
            self@.len() == 5,
    {
        self.0[4]
    }

    /// The frame's bytes, as they go on the wire.
    pub fn as_bytes(&self) -> (r: &[u8])
        ensures
            r@ == self@,
            r@.len() == 5,
    {
        self.0.as_slice()
    }
}

/// Every unlock frame for a locker numbered 1 to 16 carries the checksum
/// `slot + 0x36`.
pub proof fn lemma_unlock_checksum(slot: u8)
    requires
        1 <= slot <= 16,
    ensures
        unlock_frame(slot)[4] == slot + 0x36,
        unlock_frame(slot).len() == 5,
{
}

} // verus!
