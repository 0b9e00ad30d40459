//! Tests for the value-level codecs: sentinel timestamps, the flag set,
//! and the compliance level mapping.

use media_frame::compliance::{
    Compliance, EXPERIMENTAL_CODE, NORMAL_CODE, STRICT_CODE, UNOFFICIAL_CODE, VERY_STRICT_CODE,
};
use media_frame::flag::{ALL_FLAGS, CORRUPT, DISCARD, INTERLACED, KEY};
use media_frame::{Flags, Frame, NO_TIMESTAMP};

#[test]
fn pts_round_trip_concrete_values() {
    let mut frame = Frame::empty();
    for v in [None, Some(0i64), Some(42), Some(-1), Some(i64::MAX), Some(i64::MIN + 1)] {
        frame.set_pts(v);
        assert_eq!(frame.pts(), v);
    }
    let _ = frame.release();
}

#[test]
fn pts_absent_on_fresh_frame() {
    let frame = Frame::empty();
    assert_eq!(frame.pts(), None);
    assert_eq!(frame.timestamp(), None);
    let _ = frame.release();
}

#[test]
fn pts_sentinel_surfaces_as_absence() {
    let mut frame = Frame::empty();
    frame.as_mut_ptr().pts = NO_TIMESTAMP;
    assert_eq!(frame.pts(), None);
    frame.set_pts(None);
    assert_eq!(frame.pts(), None);
    let _ = frame.release();
}

#[test]
fn timestamp_reads_best_effort_field() {
    let mut buf = media_frame::Buffer::allocate();
    buf.best_effort_timestamp = 9000;
    buf.pts = NO_TIMESTAMP;
    let frame = Frame::wrap(buf);
    assert_eq!(frame.timestamp(), Some(9000));
    assert_eq!(frame.pts(), None);
    let _ = frame.release();
}

#[test]
fn flags_truncate_drops_unknown_bits() {
    let raw = CORRUPT | KEY | 0xffff_0000;
    assert_eq!(Flags::from_bits_truncate(raw), Flags::from_bits_truncate(CORRUPT | KEY));
    assert_eq!(Flags::from_bits_truncate(raw).bits(), CORRUPT | KEY);
    assert_eq!(Flags::from_bits_truncate(0xffff_ff00 | DISCARD).bits(), DISCARD);
}

#[test]
fn flags_containment_queries() {
    let f = Flags::from_bits_truncate(CORRUPT | INTERLACED);
    assert!(f.contains(Flags { bits: CORRUPT }));
    assert!(f.contains(Flags { bits: INTERLACED }));
    assert!(f.contains(Flags { bits: CORRUPT | INTERLACED }));
    assert!(!f.contains(Flags { bits: KEY }));
    assert!(!f.contains(Flags { bits: CORRUPT | KEY }));
    assert!(f.contains(Flags::empty()));
    assert!(!f.is_empty());
    assert!(Flags::empty().is_empty());
}

#[test]
fn flags_all_known_bits_survive() {
    let f = Flags::from_bits_truncate(u32::MAX);
    assert_eq!(f.bits(), ALL_FLAGS);
}

#[test]
fn compliance_known_codes_decode() {
    assert_eq!(Compliance::from(VERY_STRICT_CODE), Compliance::VeryStrict);
    assert_eq!(Compliance::from(STRICT_CODE), Compliance::Strict);
    assert_eq!(Compliance::from(NORMAL_CODE), Compliance::Normal);
    assert_eq!(Compliance::from(UNOFFICIAL_CODE), Compliance::Unofficial);
    assert_eq!(Compliance::from(EXPERIMENTAL_CODE), Compliance::Experimental);
}

#[test]
fn compliance_levels_encode() {
    assert_eq!(i32::from(Compliance::VeryStrict), 2);
    assert_eq!(i32::from(Compliance::Strict), 1);
    assert_eq!(i32::from(Compliance::Normal), 0);
    assert_eq!(i32::from(Compliance::Unofficial), -1);
    assert_eq!(i32::from(Compliance::Experimental), -2);
}

#[test]
fn compliance_unknown_codes_fall_back_to_normal() {
    for code in [3, 17, -3, -100, i32::MAX, i32::MIN] {
        let level = Compliance::from(code);
        assert_eq!(level, Compliance::Normal);
        assert_eq!(i32::from(level), NORMAL_CODE);
    }
}
