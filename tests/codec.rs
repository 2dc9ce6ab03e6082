use lkaas::command::Command;
use lkaas::status::{Locker, ProtocolError, Status};

fn frame(latch: u16, infrared: u16) -> [u8; 9] {
    let l = latch.to_le_bytes();
    let r = infrared.to_le_bytes();
    [0x02, 0x00, 0x35, l[0], l[1], r[0], r[1], 0x03, 0x00]
}

#[test]
fn unlock_frame_bytes() {
    assert_eq!(Command::unlock_one(5).as_bytes(), &[0x02, 0x05, 0x31, 0x03, 0x3b]);
}

#[test]
fn unlock_checksum_for_every_locker() {
    for slot in 1u8..=16 {
        let c = Command::unlock_one(slot);
        assert_eq!(c.checksum(), slot + 0x36);
        assert_eq!(c.as_bytes()[1], slot);
    }
}

#[test]
fn unlock_checksum_saturates() {
    assert_eq!(Command::unlock_one(250).checksum(), 255);
    assert_eq!(Command::unlock_one(0xc9).checksum(), 255);
    assert_eq!(Command::unlock_one(0xc8).checksum(), 254);
}

#[test]
fn unlock_slot_is_one_based_on_the_wire() {
    assert_eq!(Command::unlock_slot(4).as_bytes(), &[0x02, 0x05, 0x31, 0x03, 0x3b]);
    assert_eq!(Command::unlock_slot(0).as_bytes(), &[0x02, 0x01, 0x31, 0x03, 0x37]);
    assert_eq!(Command::unlock_slot(15).as_bytes(), &[0x02, 0x10, 0x31, 0x03, 0x46]);
}

#[test]
fn query_frame_bytes() {
    assert_eq!(Command::query_all().as_bytes(), &[0x02, 0x00, 0x32, 0x03, 0x37]);
    assert_eq!(Command::query_all().as_bytes().len(), 5);
}

#[test]
fn decode_fixture_lockers_one_and_three_closed() {
    let s = Status::from_frame(frame(0b0000_0000_0000_0101, 0));
    assert_eq!(s.len(), 16);
    for i in 0..16usize {
        let l = s.locker(i);
        assert_eq!(l.number as usize, i + 1);
        assert_eq!(l.closed, i == 0 || i == 2);
        assert!(!l.loaded);
    }
}

#[test]
fn decode_reads_high_bytes() {
    let s = Status::from_frame(frame(0x8000, 0x0100));
    assert!(s.locker(15).closed);
    assert!(s.locker(8).loaded);
    assert!(!s.locker(7).loaded);
    assert!(!s.locker(0).closed);
}

#[test]
fn decode_ignores_framing_bytes() {
    let mut a = frame(0x1234, 0xabcd);
    let b = a;
    a[0] = 0xff;
    a[1] = 0xee;
    a[2] = 0xdd;
    a[7] = 0xcc;
    a[8] = 0xbb;
    assert!(Status::from_frame(a) == Status::from_frame(b));
}

#[test]
fn decode_slice_of_nine() {
    let f = frame(0b101, 0b10);
    let s = Status::decode(&f).unwrap();
    assert!(s == Status::from_frame(f));
    assert!(s.locker(1).loaded);
}

#[test]
fn decode_bad_length() {
    assert_eq!(Status::decode(&[0u8; 8]).unwrap_err(), ProtocolError::BadLength);
    assert_eq!(Status::decode(&[0u8; 10]).unwrap_err(), ProtocolError::BadLength);
    assert_eq!(Status::decode(&[]).unwrap_err(), ProtocolError::BadLength);
}

#[test]
fn flipping_one_latch_bit_flips_one_locker() {
    for i in 0..16usize {
        let base = Status::from_frame(frame(0x5a5a, 0x0ff0));
        let flipped = Status::from_frame(frame(0x5a5a ^ (1 << i), 0x0ff0));
        for j in 0..16usize {
            let (a, b) = (base.locker(j), flipped.locker(j));
            assert_eq!(a.loaded, b.loaded);
            assert_eq!(a.number, b.number);
            assert_eq!(a.closed != b.closed, i == j);
        }
    }
}

#[test]
fn flipping_one_infrared_bit_flips_one_locker() {
    for i in 0..16usize {
        let base = Status::from_frame(frame(0x00ff, 0x3c3c));
        let flipped = Status::from_frame(frame(0x00ff, 0x3c3c ^ (1 << i)));
        for j in 0..16usize {
            let (a, b) = (base.locker(j), flipped.locker(j));
            assert_eq!(a.closed, b.closed);
            assert_eq!(a.loaded != b.loaded, i == j);
        }
    }
}

#[test]
fn state_equality_is_pairwise() {
    let a = Status::from_frame(frame(0x0101, 0x0202));
    let b = Status::from_words(0x0101, 0x0202);
    let c = Status::from_words(0x0101, 0x0203);
    assert!(a == b);
    assert!(a != c);
    assert!(a != Status::new());
    assert!(Status::new() == Status::default());
    assert_eq!(Status::new().len(), 0);
}

#[test]
fn state_text_form() {
    let s = Status::from_words(0b101, 0b110);
    assert_eq!(s.to_string(), "CE,OL,CL,OE,OE,OE,OE,OE,OE,OE,OE,OE,OE,OE,OE,OE");
    assert_eq!(Status::new().to_string(), "");
    let d = s.duplicate();
    assert!(d == s);
    assert_eq!(
        d.locker(0),
        Locker { number: 1, closed: true, loaded: false }
    );
}
