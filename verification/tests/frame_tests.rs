//! Tests for the frame aggregate: ownership and release discipline,
//! side-data lifecycle, packet snapshots and metadata.

use media_frame::flag::{CORRUPT, KEY};
use media_frame::side_data::Type;
use media_frame::{Buffer, Dictionary, Flags, Frame};

#[test]
fn wrapped_frame_never_releases() {
    let buf = Buffer::allocate();
    assert_eq!(buf.release_count, 0);
    let frame = Frame::wrap(buf);
    let back = frame.release();
    assert_eq!(back.release_count, 0);
}

#[test]
fn owned_frame_releases_exactly_once() {
    let frame = Frame::empty();
    let back = frame.release();
    assert_eq!(back.release_count, 1);
    assert_eq!(back.side_data.len(), 0);
    assert_eq!(back.metadata.len(), 0);
    assert!(!back.data_present);
}

#[test]
fn wrapping_returns_buffer_untouched() {
    let mut buf = Buffer::allocate();
    buf.pkt_duration = 5;
    buf.quality = 7;
    let frame = Frame::wrap(buf);
    let back = frame.release();
    assert_eq!(back.pkt_duration, 5);
    assert_eq!(back.quality, 7);
    assert_eq!(back.release_count, 0);
}

#[test]
fn side_data_lifecycle() {
    let mut frame = Frame::empty();
    let made = frame.new_side_data(Type::Stereo3D, 16).unwrap();
    assert_eq!(made.kind(), Type::Stereo3D);
    assert_eq!(made.size(), 16);
    let found = frame.side_data(Type::Stereo3D).unwrap();
    assert_eq!(found.kind(), Type::Stereo3D);
    assert_eq!(found.size(), 16);
    frame.remove_side_data(Type::Stereo3D);
    assert!(frame.side_data(Type::Stereo3D).is_none());
    let _ = frame.release();
}

#[test]
fn empty_frame_side_data_scenario() {
    let mut frame = Frame::empty();
    assert!(frame.is_empty());
    let made = frame.new_side_data(Type::MotionVectors, 64);
    assert!(made.is_some());
    assert!(frame.is_empty());
    let found = frame.side_data(Type::MotionVectors);
    assert_eq!(found.unwrap().size(), 64);
    frame.remove_side_data(Type::MotionVectors);
    assert!(frame.side_data(Type::MotionVectors).is_none());
    let _ = frame.release();
}

#[test]
fn side_data_lookup_returns_first_match() {
    let mut frame = Frame::empty();
    frame.new_side_data(Type::ReplayGain, 8).unwrap();
    frame.new_side_data(Type::MotionVectors, 32).unwrap();
    frame.new_side_data(Type::ReplayGain, 24).unwrap();
    assert_eq!(frame.side_data(Type::ReplayGain).unwrap().size(), 8);
    frame.remove_side_data(Type::ReplayGain);
    assert!(frame.side_data(Type::ReplayGain).is_none());
    assert_eq!(frame.side_data(Type::MotionVectors).unwrap().size(), 32);
    let _ = frame.release();
}

#[test]
fn side_data_missing_kind_is_absent() {
    let frame = Frame::empty();
    assert!(frame.side_data(Type::PanScan).is_none());
    let _ = frame.release();
}

#[test]
fn remove_side_data_is_noop_when_absent() {
    let mut frame = Frame::empty();
    frame.new_side_data(Type::PanScan, 4).unwrap();
    frame.remove_side_data(Type::ContentLightLevel);
    assert_eq!(frame.side_data(Type::PanScan).unwrap().size(), 4);
    let _ = frame.release();
}

#[test]
fn oversized_side_data_is_refused() {
    let mut frame = Frame::empty();
    let r = frame.new_side_data(Type::MotionVectors, 0x8000_0000usize);
    assert!(r.is_none());
    assert!(frame.side_data(Type::MotionVectors).is_none());
    let _ = frame.release();
}

#[test]
fn wrapped_key_and_corrupt_scenario() {
    let mut buf = Buffer::allocate();
    buf.key_frame = 1;
    buf.flags = CORRUPT | 0xff00_0000;
    let frame = Frame::wrap(buf);
    assert!(frame.is_key());
    assert!(frame.is_corrupt());
    let flags = frame.flags();
    assert!(flags.contains(Flags { bits: CORRUPT }));
    assert_eq!(flags.bits(), CORRUPT);
    assert!(!flags.contains(Flags { bits: KEY }));
    let back = frame.release();
    assert_eq!(back.release_count, 0);
}

#[test]
fn non_key_frame_is_not_key() {
    let mut buf = Buffer::allocate();
    buf.key_frame = 2;
    let frame = Frame::wrap(buf);
    assert!(!frame.is_key());
    assert!(!frame.is_corrupt());
    let _ = frame.release();
}

#[test]
fn packet_snapshots_fields() {
    let mut buf = Buffer::allocate();
    buf.pkt_duration = 40;
    buf.pkt_position = 1234;
    buf.pkt_size = 512;
    buf.pkt_pts = 90000;
    buf.pkt_dts = 89000;
    let frame = Frame::wrap(buf);
    let p = frame.packet();
    assert_eq!(p.duration, 40);
    assert_eq!(p.position, 1234);
    assert_eq!(p.size, 512);
    assert_eq!(p.pts, 90000);
    assert_eq!(p.dts, 89000);
    let _ = frame.release();
}

#[test]
fn quality_reads_indicator() {
    let mut buf = Buffer::allocate();
    buf.quality = 31;
    let frame = Frame::wrap(buf);
    assert_eq!(frame.quality(), 31);
    let _ = frame.release();
}

#[test]
fn fresh_metadata_view_is_empty() {
    let frame = Frame::empty();
    let view = frame.metadata();
    assert!(view.is_empty());
    assert_eq!(view.len(), 0);
    assert!(view.get(&"language".to_string()).is_none());
    let _ = frame.release();
}

#[test]
fn set_metadata_replaces_dictionary() {
    let mut dict = Dictionary::new();
    dict.set("language".to_string(), "en".to_string());
    dict.set("title".to_string(), "intro".to_string());
    let mut frame = Frame::empty();
    frame.set_metadata(dict);
    {
        let view = frame.metadata();
        assert_eq!(view.len(), 2);
        assert_eq!(view.get(&"language".to_string()).unwrap().as_str(), "en");
        assert_eq!(view.get(&"title".to_string()).unwrap().as_str(), "intro");
        assert!(view.get(&"author".to_string()).is_none());
    }
    let mut replacement = Dictionary::new();
    replacement.set("language".to_string(), "de".to_string());
    frame.set_metadata(replacement);
    let view = frame.metadata();
    assert_eq!(view.len(), 1);
    assert_eq!(view.get(&"language".to_string()).unwrap().as_str(), "de");
    assert!(view.get(&"title".to_string()).is_none());
    let _ = frame.release();
}

#[test]
fn dictionary_set_replaces_existing_key() {
    let mut dict = Dictionary::new();
    dict.set("codec".to_string(), "h264".to_string());
    dict.set("codec".to_string(), "av1".to_string());
    assert_eq!(dict.len(), 1);
    assert_eq!(dict.get(&"codec".to_string()).unwrap().as_str(), "av1");
    dict.set("profile".to_string(), "main".to_string());
    assert_eq!(dict.len(), 2);
    assert_eq!(dict.get(&"profile".to_string()).unwrap().as_str(), "main");
}

#[test]
fn fresh_frame_is_empty_and_unflagged() {
    let frame = Frame::empty();
    assert!(frame.is_empty());
    assert!(!frame.is_key());
    assert!(!frame.is_corrupt());
    assert!(frame.flags().is_empty());
    assert_eq!(frame.quality(), 0);
    let p = frame.packet();
    assert_eq!(p.duration, 0);
    assert_eq!(p.size, 0);
    let _ = frame.release();
}

#[test]
fn data_present_buffer_is_not_empty() {
    let mut buf = Buffer::allocate();
    buf.data_present = true;
    let frame = Frame::wrap(buf);
    assert!(!frame.is_empty());
    let _ = frame.release();
}

#[test]
fn mutable_buffer_access_is_observed() {
    let mut frame = Frame::empty();
    frame.as_mut_ptr().quality = 9;
    assert_eq!(frame.quality(), 9);
    assert_eq!(frame.as_ptr().quality, 9);
    let _ = frame.release();
}
