//! The original header block.

use str0m::rtp::ohb::{Ohb, CONFIG_B, CONFIG_M, CONFIG_P, CONFIG_Q};

#[test]
fn empty_ohb_roundtrip() {
    let ohb = Ohb::empty();
    assert!(ohb.is_empty());

    let bytes = ohb.to_bytes();
    assert_eq!(bytes, vec![0x00]);

    let (parsed, len) = Ohb::parse(&bytes).unwrap();
    assert_eq!(len, 1);
    assert!(parsed.is_empty());
    assert_eq!(ohb, parsed);
}

#[test]
fn ohb_with_pt_only() {
    let ohb = Ohb {
        original_pt: Some(96),
        original_seq: None,
        original_marker: None,
    };

    let bytes = ohb.to_bytes();
    assert_eq!(bytes.len(), 2); // PT + config
    assert_eq!(bytes[0], 96);
    assert_eq!(bytes[1], CONFIG_P);

    let (parsed, len) = Ohb::parse(&bytes).unwrap();
    assert_eq!(len, 2);
    assert_eq!(parsed.original_pt, Some(96));
    assert_eq!(parsed.original_seq, None);
    assert_eq!(parsed.original_marker, None);
}

#[test]
fn ohb_with_seq_only() {
    let ohb = Ohb {
        original_pt: None,
        original_seq: Some(0x1234),
        original_marker: None,
    };

    let bytes = ohb.to_bytes();
    assert_eq!(bytes.len(), 3); // SEQ(2) + config
    assert_eq!(bytes[0], 0x12);
    assert_eq!(bytes[1], 0x34);
    assert_eq!(bytes[2], CONFIG_Q);

    let (parsed, len) = Ohb::parse(&bytes).unwrap();
    assert_eq!(len, 3);
    assert_eq!(parsed.original_seq, Some(0x1234));
}

#[test]
fn ohb_with_marker() {
    let ohb = Ohb {
        original_pt: None,
        original_seq: None,
        original_marker: Some(true),
    };

    let bytes = ohb.to_bytes();
    assert_eq!(bytes.len(), 1);
    assert_eq!(bytes[0], CONFIG_M | CONFIG_B);

    let (parsed, _) = Ohb::parse(&bytes).unwrap();
    assert_eq!(parsed.original_marker, Some(true));
}

#[test]
fn ohb_with_all_fields() {
    let ohb = Ohb {
        original_pt: Some(111),
        original_seq: Some(0xABCD),
        original_marker: Some(false),
    };

    let bytes = ohb.to_bytes();
    assert_eq!(bytes.len(), 4); // PT + SEQ(2) + config

    let (parsed, len) = Ohb::parse(&bytes).unwrap();
    assert_eq!(len, 4);
    assert_eq!(parsed.original_pt, Some(111));
    assert_eq!(parsed.original_seq, Some(0xABCD));
    assert_eq!(parsed.original_marker, Some(false));
}

#[test]
fn ohb_from_diff_no_changes() {
    let ohb = Ohb::from_diff(96, 96, 100, 100, false, false);
    assert!(ohb.is_empty());
}

#[test]
fn ohb_from_diff_pt_changed() {
    let ohb = Ohb::from_diff(96, 111, 100, 100, false, false);
    assert_eq!(ohb.original_pt, Some(96));
    assert_eq!(ohb.original_seq, None);
}

#[test]
fn ohb_update_preserves_original() {
    // Original sender: PT=96, SEQ=100
    // First MD changes PT to 111
    let ohb1 = Ohb::from_diff(96, 111, 100, 100, false, false);
    assert_eq!(ohb1.original_pt, Some(96));

    // Second MD changes PT again to 120 — should still record original 96
    let ohb2 = ohb1.update(111, 120, 100, 100, false, false);
    assert_eq!(ohb2.original_pt, Some(96));
}

#[test]
fn ohb_update_removes_when_restored() {
    // Original: PT=96, MD changes to 111
    let ohb = Ohb::from_diff(96, 111, 100, 100, false, false);
    assert_eq!(ohb.original_pt, Some(96));

    // MD changes back to 96 — OHB should clear
    let ohb2 = ohb.update(111, 96, 100, 100, false, false);
    assert_eq!(ohb2.original_pt, None);
}

#[test]
fn parse_ohb_from_larger_buffer() {
    // Simulate: [encrypted_payload... | ohb_bytes]
    let ohb = Ohb {
        original_pt: Some(96),
        original_seq: None,
        original_marker: None,
    };
    let ohb_bytes = ohb.to_bytes();

    let mut buf = vec![0xDE, 0xAD, 0xBE, 0xEF]; // fake payload
    buf.extend_from_slice(&ohb_bytes);

    // Parse from end of buffer
    let (parsed, len) = Ohb::parse(&buf[buf.len() - ohb_bytes.len()..]).unwrap();
    assert_eq!(len, 2);
    assert_eq!(parsed.original_pt, Some(96));
}

#[test]
fn parse_of_nothing_is_none() {
    assert_eq!(Ohb::parse(&[]), None);
}

#[test]
fn parse_of_a_truncated_block_is_none() {
    assert_eq!(Ohb::parse(&[CONFIG_P]), None);
    assert_eq!(Ohb::parse(&[CONFIG_Q]), None);
    assert_eq!(Ohb::parse(&[0x12, CONFIG_Q]), None);
    assert_eq!(Ohb::parse(&[0x12, 0x34, CONFIG_P | CONFIG_Q]), None);
}

#[test]
fn parse_reads_the_end_of_the_buffer() {
    let buf = [0xAA, 0xBB, 0x60, 0x12, 0x34, CONFIG_P | CONFIG_Q | CONFIG_M | CONFIG_B];
    let (ohb, len) = Ohb::parse(&buf).unwrap();
    assert_eq!(len, 4);
    assert_eq!(ohb.original_pt, Some(0x60));
    assert_eq!(ohb.original_seq, Some(0x1234));
    assert_eq!(ohb.original_marker, Some(true));

    // What lies before the block plays no part.
    assert_eq!(Ohb::parse(&buf[2..]), Ohb::parse(&buf));
}

#[test]
fn parse_takes_seven_bits_of_the_payload_type() {
    let (ohb, _) = Ohb::parse(&[0xE0, CONFIG_P]).unwrap();
    assert_eq!(ohb.original_pt, Some(0x60));
}

#[test]
fn parse_takes_the_marker_bit_only_where_it_is_announced() {
    let (ohb, len) = Ohb::parse(&[CONFIG_B]).unwrap();
    assert_eq!(len, 1);
    assert_eq!(ohb.original_marker, None);
}

#[test]
fn to_bytes_leaves_the_reserved_bits_clear() {
    for pt in [None, Some(0), Some(127)] {
        for seq in [None, Some(0), Some(0xFFFF)] {
            for marker in [None, Some(false), Some(true)] {
                let ohb = Ohb {
                    original_pt: pt,
                    original_seq: seq,
                    original_marker: marker,
                };
                let bytes = ohb.to_bytes();
                assert_eq!(bytes[bytes.len() - 1] & 0x0F, 0);

                let mut buf = vec![1, 2, 3];
                buf.extend_from_slice(&bytes);
                assert_eq!(Ohb::parse(&buf), Some((ohb, bytes.len())));
            }
        }
    }
}

#[test]
fn to_bytes_of_all_fields() {
    let ohb = Ohb {
        original_pt: Some(111),
        original_seq: Some(0xABCD),
        original_marker: Some(false),
    };
    assert_eq!(ohb.to_bytes(), vec![111, 0xAB, 0xCD, CONFIG_P | CONFIG_Q | CONFIG_M]);
}

#[test]
fn to_bytes_gives_back_the_parsed_block() {
    let block = vec![0x12, 0x34, CONFIG_Q | CONFIG_M | CONFIG_B];
    let (ohb, _) = Ohb::parse(&block).unwrap();
    assert_eq!(ohb.to_bytes(), block);
}

#[test]
fn zero_config_is_unmodified() {
    let (ohb, len) = Ohb::parse(&[0x60, 0x00]).unwrap();
    assert_eq!(len, 1);
    assert!(ohb.is_empty());
}

#[test]
fn from_diff_records_every_change() {
    let ohb = Ohb::from_diff(96, 111, 100, 200, true, false);
    assert_eq!(ohb.original_pt, Some(96));
    assert_eq!(ohb.original_seq, Some(100));
    assert_eq!(ohb.original_marker, Some(true));
    assert!(!ohb.is_empty());
}

#[test]
fn update_follows_every_field() {
    let first = Ohb::from_diff(96, 111, 100, 200, true, false);
    // The sequence number is restored, the payload type changes once more.
    let second = first.update(111, 120, 200, 100, false, false);
    assert_eq!(second.original_pt, Some(96));
    assert_eq!(second.original_seq, None);
    assert_eq!(second.original_marker, Some(true));
    // Everything is restored.
    let third = second.update(120, 96, 100, 100, false, true);
    assert!(third.is_empty());
    assert_eq!(third, Ohb::empty());
}

#[test]
fn update_of_an_unmodified_header_is_a_diff() {
    let updated = Ohb::empty().update(96, 111, 100, 100, false, true);
    assert_eq!(updated, Ohb::from_diff(96, 111, 100, 100, false, true));
}

#[test]
fn parse_does_not_look_at_the_reserved_bits() {
    assert_eq!(Ohb::parse(&[0x60, CONFIG_P | 0x0F]), Ohb::parse(&[0x60, CONFIG_P]));
}
