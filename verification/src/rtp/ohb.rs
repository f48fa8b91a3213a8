//! Original Header Block (OHB) for PERC Double Encryption (RFC 8723 §4).
//!
//! The OHB carries the original values of RTP header fields that a Media Distributor (MD, an
//! SFU) may have modified. It is appended after the E2E-encrypted payload and before the HBH
//! authentication tag.
//!
//! Wire format:
//!   `[RTP header] [E2E ciphertext + E2E auth tag] [OHB] [HBH auth tag]`
//!
//! OHB format:
//!   `[ PT (1 byte, optional) ] [ SEQ (2 bytes, optional) ] [ Config (1 byte) ]`
//!
//! Config byte, from the most significant bit:
//!   - P = 1: PT field present
//!   - Q = 1: SEQ field present
//!   - M = 1: marker bit present in config (overrides RTP header marker)
//!   - B = marker bit value (only meaningful when M = 1)
//!   - R (4 bits) = reserved, must be 0
//!
//! An all-zero config byte (0x00) means no header fields were modified.

use vstd::prelude::*;

verus! {

/// Config bit: PT present.
pub const CONFIG_P: u8 = 0x80;

/// Config bit: SEQ present.
pub const CONFIG_Q: u8 = 0x40;

/// Config bit: marker present.
pub const CONFIG_M: u8 = 0x20;

/// Config bit: marker value.
pub const CONFIG_B: u8 = 0x10;

/// Parsed Original Header Block.
#[derive(Debug, Clone, PartialEq, Eq, Structural)]
pub struct Ohb {
    /// Original payload type (if the MD changed it).
    pub original_pt: Option<u8>,
    /// Original sequence number (if the MD changed it).
    pub original_seq: Option<u16>,
    /// Original marker bit value (if the MD changed it).
    pub original_marker: Option<bool>,
}

/// The value of `condition`'s bit in a config byte: `mask` or nothing.
pub open spec fn bit_if(condition: bool, mask: u8) -> u8 {
    if condition {
        mask
    } else {
        0
    }
}

/// Whether any bit of `mask` is set in `config`.
pub open spec fn has_bit(config: u8, mask: u8) -> bool {
    config & mask != 0
}

/// Bytes that the PT field takes in a block with this config byte.
pub open spec fn pt_field_len(config: u8) -> int {
    if has_bit(config, CONFIG_P) {
        1
    } else {
        0
    }
}

/// Bytes that the SEQ field takes in a block with this config byte.
pub open spec fn seq_field_len(config: u8) -> int {
    if has_bit(config, CONFIG_Q) {
        2
    } else {
        0
    }
}

/// Length of a whole block with this config byte.
pub open spec fn block_len(config: u8) -> int {
    pt_field_len(config) + seq_field_len(config) + 1
}

/// Whether `buf` ends in a complete block: its last byte is the config byte, and the fields that
/// byte announces are there.
pub open spec fn ends_in_block(buf: Seq<u8>) -> bool {
    buf.len() > 0 && block_len(buf.last()) <= buf.len()
}

/// The block that `buf` ends in.
pub open spec fn block_at_end(buf: Seq<u8>) -> Ohb
    recommends
        ends_in_block(buf),
{
    let config = buf.last();
    let pt_at = buf.len() - block_len(config);
    let seq_at = pt_at + pt_field_len(config);
    Ohb {
        original_pt: if has_bit(config, CONFIG_P) {
            Some(buf[pt_at] & 0x7F)
        } else {
            None
        },
        original_seq: if has_bit(config, CONFIG_Q) {
            Some((buf[seq_at] * 256 + buf[seq_at + 1]) as u16)
        } else {
            None
        },
        original_marker: if has_bit(config, CONFIG_M) {
            Some(has_bit(config, CONFIG_B))
        } else {
            None
        },
    }
}

/// The entry for a header field that was `original` and has become `modified`: the original
/// value, if the two differ.
pub open spec fn diff_entry<T>(original: T, modified: T) -> Option<T> {
    if original != modified {
        Some(original)
    } else {
        None
    }
}

/// The value that a header field had at the sender, given its OHB entry and its present value.
pub open spec fn restored<T>(entry: Option<T>, current: T) -> T {
    match entry {
        Some(original) => original,
        None => current,
    }
}

impl Ohb {
    /// The PT field on the wire; only the low seven bits of a payload type travel.
    pub open spec fn pt_field(self) -> Seq<u8> {
        match self.original_pt {
            Some(pt) => seq![pt & 0x7F],
            None => seq![],
        }
    }

    /// The SEQ field on the wire, in network byte order.
    pub open spec fn seq_field(self) -> Seq<u8> {
        match self.original_seq {
            Some(seq) => seq![(seq / 256) as u8, (seq % 256) as u8],
            None => seq![],
        }
    }

    /// The config byte on the wire.
    pub open spec fn config_byte(self) -> u8 {
        bit_if(self.original_pt is Some, CONFIG_P) | bit_if(self.original_seq is Some, CONFIG_Q)
            | bit_if(self.original_marker is Some, CONFIG_M) | bit_if(
            self.original_marker == Some(true),
            CONFIG_B,
        )
    }

    /// The block on the wire.
    pub open spec fn encoding(self) -> Seq<u8> {
        self.pt_field() + self.seq_field() + seq![self.config_byte()]
    }

    /// The block as it comes back from the wire: the payload type cut to seven bits.
    pub open spec fn as_received(self) -> Ohb {
        Ohb {
            original_pt: match self.original_pt {
                Some(pt) => Some(pt & 0x7F),
                None => None,
            },
            original_seq: self.original_seq,
            original_marker: self.original_marker,
        }
    }

    /// The header fields (PT, SEQ, marker) at the sender, given those of the packet at hand.
    pub open spec fn restore(self, pt: u8, seq: u16, marker: bool) -> (u8, u16, bool) {
        (
            restored(self.original_pt, pt),
            restored(self.original_seq, seq),
            restored(self.original_marker, marker),
        )
    }

    /// The block that records the difference between two sets of header fields.
    pub open spec fn diff(original: (u8, u16, bool), modified: (u8, u16, bool)) -> Ohb {
        Ohb {
            original_pt: diff_entry(original.0, modified.0),
            original_seq: diff_entry(original.1, modified.1),
            original_marker: diff_entry(original.2, modified.2),
        }
    }

    /// The block after a further change of the header fields from `current` to `new`.
    pub open spec fn updated(self, current: (u8, u16, bool), new: (u8, u16, bool)) -> Ohb {
        Ohb::diff(self.restore(current.0, current.1, current.2), new)
    }

    /// The block that records no modification.
    pub open spec fn none() -> Ohb {
        Ohb { original_pt: None, original_seq: None, original_marker: None }
    }

    /// Create an empty OHB (no modifications).
    pub fn empty() -> (ohb: Self)
        ensures
            ohb == Ohb::none(),
            ohb.original_pt is None,
            ohb.original_seq is None,
            ohb.original_marker is None,
    {
        Ohb { original_pt: None, original_seq: None, original_marker: None }
    }

    /// Check if this OHB indicates no header modifications.
    pub fn is_empty(&self) -> (empty: bool)
        ensures
            empty <==> *self == Ohb::none(),
            empty <==> self.original_pt is None && self.original_seq is None
                && self.original_marker is None,
    {
        self.original_pt.is_none() && self.original_seq.is_none() && self.original_marker.is_none()
    }

    /// Parse an OHB from the end of a decrypted PERC payload.
    ///
    /// The OHB is the last 1-4 bytes of the buffer (after E2E ciphertext + E2E auth tag).
    /// The config byte is always the last byte. Its reserved bits are not looked at.
    ///
    /// Returns `(ohb, ohb_len)` where `ohb_len` is the number of bytes consumed from the end.
    pub fn parse(buf: &[u8]) -> (result: Option<(Self, usize)>)
        ensures
            result is Some <==> ends_in_block(buf@),
            result matches Some((ohb, ohb_len)) ==> {
                &&& ohb == block_at_end(buf@)
                &&& ohb_len == block_len(buf@.last())
                &&& 1 <= ohb_len <= 4
            },
            // The same on the bytes.
            result is None <==> buf@.len() == 0 || buf@.len() < 1 + (if buf@.last() & 0x80 != 0 {
                1int
            } else {
                0
            }) + (if buf@.last() & 0x40 != 0 {
                2int
            } else {
                0
            }),
            result matches Some((ohb, ohb_len)) ==> {
                let n = buf@.len() as int;
                let config = buf@[n - 1];
                &&& ohb_len == 1 + (if config & 0x80 != 0 {
                    1int
                } else {
                    0
                }) + (if config & 0x40 != 0 {
                    2int
                } else {
                    0
                })
                &&& match ohb.original_pt {
                    Some(pt) => config & 0x80 != 0 && pt == buf@[n - ohb_len] % 128,
                    None => config & 0x80 == 0,
                }
                &&& match ohb.original_seq {
                    Some(seq) => config & 0x40 != 0 && seq == 256 * buf@[n - 3] + buf@[n - 2],
                    None => config & 0x40 == 0,
                }
                &&& match ohb.original_marker {
                    Some(marker) => config & 0x20 != 0 && marker == (config & 0x10 != 0),
                    None => config & 0x20 == 0,
                }
            },
    {
        if buf.is_empty() {
            return None;
        }
        let config = buf[buf.len() - 1];
        let has_pt = config & CONFIG_P != 0;
        let has_seq = config & CONFIG_Q != 0;
        let has_marker = config & CONFIG_M != 0;
        let marker_value = config & CONFIG_B != 0;

        let mut ohb_len: usize = 1;  // config byte
        if has_pt {
            ohb_len += 1;
        }
        if has_seq {
            ohb_len += 2;
        }
        if buf.len() < ohb_len {
            return None;
        }
        let mut pos: usize = buf.len() - ohb_len;

        let original_pt = if has_pt {
            let byte: u8 = buf[pos];
            assert(byte & 0x7F == byte % 128) by (bit_vector);
            let pt: u8 = byte & 0x7F;
            pos += 1;
            Some(pt)
        } else {
            None
        };

        let original_seq = if has_seq {
            let seq: u16 = buf[pos] as u16 * 256 + buf[pos + 1] as u16;
            Some(seq)
        } else {
            None
        };

        let original_marker = if has_marker {
            Some(marker_value)
        } else {
            None
        };

        Some((Ohb { original_pt, original_seq, original_marker }, ohb_len))
    }

    /// Serialize this OHB to bytes.
    pub fn to_bytes(&self) -> (bytes: Vec<u8>)
        ensures
            bytes@ == self.encoding(),
            bytes@.len() == block_len(self.config_byte()),
            1 <= bytes@.len() <= 4,
            bytes@.last() & 0x0F == 0,
            // The same on the bytes.
            ({
                let n = bytes@.len() as int;
                let config = bytes@[n - 1];
                &&& n == 1 + (if self.original_pt is Some {
                    1int
                } else {
                    0
                }) + (if self.original_seq is Some {
                    2int
                } else {
                    0
                })
                &&& config & 0x80 != 0 <==> self.original_pt is Some
                &&& config & 0x40 != 0 <==> self.original_seq is Some
                &&& config & 0x20 != 0 <==> self.original_marker is Some
                &&& config & 0x10 != 0 <==> self.original_marker == Some(true)
                &&& self.original_pt matches Some(pt) ==> bytes@[0] == pt % 128
                &&& self.original_seq matches Some(seq) ==> bytes@[n - 3] == seq / 256 && bytes@[n
                    - 2] == seq % 256
            }),
    {
        let mut buf: Vec<u8> = Vec::with_capacity(4);
        let mut config: u8 = 0;

        if let Some(pt) = self.original_pt {
            assert(pt & 0x7F == pt % 128) by (bit_vector);
            buf.push(pt & 0x7F);
            config |= CONFIG_P;
        }
        if let Some(seq) = self.original_seq {
            assert((seq >> 8) as u8 == (seq / 256) as u8) by (bit_vector);
            assert((seq & 0xFF) as u8 == (seq % 256) as u8) by (bit_vector);
            buf.push((seq >> 8) as u8);
            buf.push((seq & 0xFF) as u8);
            config |= CONFIG_Q;
        }
        if let Some(marker) = self.original_marker {
            config |= CONFIG_M;
            if marker {
                config |= CONFIG_B;
            }
        }
        buf.push(config);
        proof {
            lemma_config_bits(
                self.original_pt is Some,
                self.original_seq is Some,
                self.original_marker is Some,
                self.original_marker == Some(true),
            );
            assert(forall|x: u8| #[trigger] (x | 0) == x) by (bit_vector);
            assert(forall|x: u8| #[trigger] (0 | x) == x) by (bit_vector);
            assert(config == self.config_byte());
            assert(buf@ =~= self.encoding());
        }
        buf
    }

    /// Build an OHB from the difference between original and modified header fields.
    ///
    /// `orig_*` are the values from the sender's original packet.
    /// `modified_*` are the values after the MD's changes.
    /// Only fields that differ are recorded in the OHB.
    pub fn from_diff(
        orig_pt: u8,
        modified_pt: u8,
        orig_seq: u16,
        modified_seq: u16,
        orig_marker: bool,
        modified_marker: bool,
    ) -> (ohb: Self)
        ensures
            ohb == Ohb::diff(
                (orig_pt, orig_seq, orig_marker),
                (modified_pt, modified_seq, modified_marker),
            ),
            match ohb.original_pt {
                Some(pt) => pt == orig_pt && orig_pt != modified_pt,
                None => orig_pt == modified_pt,
            },
            match ohb.original_seq {
                Some(seq) => seq == orig_seq && orig_seq != modified_seq,
                None => orig_seq == modified_seq,
            },
            match ohb.original_marker {
                Some(marker) => marker == orig_marker && orig_marker != modified_marker,
                None => orig_marker == modified_marker,
            },
    {
        Ohb {
            original_pt: if orig_pt != modified_pt {
                Some(orig_pt)
            } else {
                None
            },
            original_seq: if orig_seq != modified_seq {
                Some(orig_seq)
            } else {
                None
            },
            original_marker: if orig_marker != modified_marker {
                Some(orig_marker)
            } else {
                None
            },
        }
    }

    /// Merge this OHB with a new set of MD modifications.
    ///
    /// If the MD changes a field that already has an OHB entry, keep the original.
    /// If the MD changes a field back to its original value, remove the OHB entry.
    pub fn update(
        &self,
        current_pt: u8,
        new_pt: u8,
        current_seq: u16,
        new_seq: u16,
        current_marker: bool,
        new_marker: bool,
    ) -> (ohb: Self)
        ensures
            ohb == self.updated(
                (current_pt, current_seq, current_marker),
                (new_pt, new_seq, new_marker),
            ),
            match (self.original_pt, ohb.original_pt) {
                (Some(sent), Some(kept)) => kept == sent && new_pt != sent,
                (Some(sent), None) => new_pt == sent,
                (None, Some(kept)) => kept == current_pt && new_pt != current_pt,
                (None, None) => new_pt == current_pt,
            },
            match (self.original_seq, ohb.original_seq) {
                (Some(sent), Some(kept)) => kept == sent && new_seq != sent,
                (Some(sent), None) => new_seq == sent,
                (None, Some(kept)) => kept == current_seq && new_seq != current_seq,
                (None, None) => new_seq == current_seq,
            },
            match (self.original_marker, ohb.original_marker) {
                (Some(sent), Some(kept)) => kept == sent && new_marker != sent,
                (Some(sent), None) => new_marker == sent,
                (None, Some(kept)) => kept == current_marker && new_marker != current_marker,
                (None, None) => new_marker == current_marker,
            },
    {
        let sent_pt = self.original_pt.unwrap_or(current_pt);
        let original_pt = if new_pt != sent_pt {
            Some(sent_pt)
        } else {
            None  // changed back to original
        };

        let sent_seq = self.original_seq.unwrap_or(current_seq);
        let original_seq = if new_seq != sent_seq {
            Some(sent_seq)
        } else {
            None
        };

        let sent_marker = self.original_marker.unwrap_or(current_marker);
        let original_marker = if new_marker != sent_marker {
            Some(sent_marker)
        } else {
            None
        };

        Ohb { original_pt, original_seq, original_marker }
    }
}

/// Each bit of a config byte reads back as it was set, and the reserved bits stay clear.
proof fn lemma_config_bits(p: bool, q: bool, m: bool, b: bool)
    ensures
        ({
            let config = bit_if(p, CONFIG_P) | bit_if(q, CONFIG_Q) | bit_if(m, CONFIG_M) | bit_if(
                b,
                CONFIG_B,
            );
            &&& has_bit(config, CONFIG_P) <==> p
            &&& has_bit(config, CONFIG_Q) <==> q
            &&& has_bit(config, CONFIG_M) <==> m
            &&& has_bit(config, CONFIG_B) <==> b
            &&& config & 0x0F == 0
        }),
{
    assert({
        let c: u8 = (if p { 0x80u8 } else { 0u8 }) | (if q { 0x40u8 } else { 0u8 }) | (if m {
            0x20u8
        } else {
            0u8
        }) | (if b { 0x10u8 } else { 0u8 });
        &&& (c & 0x80 != 0) == p
        &&& (c & 0x40 != 0) == q
        &&& (c & 0x20 != 0) == m
        &&& (c & 0x10 != 0) == b
        &&& c & 0x0F == 0
    }) by (bit_vector);
}

/// Parsing a buffer that ends in a serialized block gives that block back, whatever stands before
/// it, and consumes exactly the serialized bytes. A payload type comes back cut to seven bits, so
/// a block whose payload type fits in seven bits comes back unchanged.
pub proof fn parse_gives_back_what_to_bytes_wrote(payload: Seq<u8>, ohb: Ohb)
    ensures
        ends_in_block(payload + ohb.encoding()),
        block_len((payload + ohb.encoding()).last()) == ohb.encoding().len(),
        block_at_end(payload + ohb.encoding()) == ohb.as_received(),
        (ohb.original_pt matches Some(pt) ==> pt < 128) ==> ohb.as_received() == ohb,
{
    let buf = payload + ohb.encoding();
    lemma_config_bits(
        ohb.original_pt is Some,
        ohb.original_seq is Some,
        ohb.original_marker is Some,
        ohb.original_marker == Some(true),
    );
    assert(buf.last() == ohb.config_byte());
    assert(buf.len() == payload.len() + block_len(ohb.config_byte()));
    if let Some(pt) = ohb.original_pt {
        assert(buf[payload.len() as int] == pt & 0x7F);
        assert((pt & 0x7F) & 0x7F == pt & 0x7F) by (bit_vector);
        assert(pt < 128 ==> pt & 0x7F == pt) by (bit_vector);
    }
    if let Some(seq) = ohb.original_seq {
        let at = payload.len() + pt_field_len(ohb.config_byte());
        assert(buf[at] == (seq / 256) as u8);
        assert(buf[at + 1] == (seq % 256) as u8);
        assert((seq / 256) as u8 * 256 + (seq % 256) as u8 == seq) by (bit_vector);
    }
    let parsed = block_at_end(buf);
    assert(parsed.original_pt == ohb.as_received().original_pt);
    assert(parsed.original_seq == ohb.original_seq);
    assert(parsed.original_marker == ohb.original_marker);
}

/// Serializing a parsed block gives back the bytes it was parsed from, provided those were
/// canonical: the reserved bits clear, no marker value without the marker flag, and a payload type
/// of seven bits.
pub proof fn to_bytes_gives_back_what_was_parsed(buf: Seq<u8>)
    requires
        ends_in_block(buf),
        buf.last() & 0x0F == 0,
        has_bit(buf.last(), CONFIG_B) ==> has_bit(buf.last(), CONFIG_M),
        has_bit(buf.last(), CONFIG_P) ==> buf[buf.len() - block_len(buf.last())] < 128,
    ensures
        block_at_end(buf).encoding() == buf.subrange(
            buf.len() - block_len(buf.last()),
            buf.len() as int,
        ),
{
    let config = buf.last();
    let start = buf.len() - block_len(config);
    let ohb = block_at_end(buf);
    assert(config & 0x0F == 0 ==> config == (if config & 0x80 != 0 {
        0x80u8
    } else {
        0u8
    }) | (if config & 0x40 != 0 {
        0x40u8
    } else {
        0u8
    }) | (if config & 0x20 != 0 {
        0x20u8
    } else {
        0u8
    }) | (if config & 0x10 != 0 {
        0x10u8
    } else {
        0u8
    })) by (bit_vector);
    assert(ohb.config_byte() == config);
    if has_bit(config, CONFIG_P) {
        let pt = buf[start];
        assert(pt < 128 ==> pt & 0x7F == pt) by (bit_vector);
    }
    assert(ohb.encoding() =~= buf.subrange(start, buf.len() as int));
}

/// A serialized block, read from its end, is the config byte, before it the sequence number in
/// network byte order if there is one, and before that the payload type if there is one. The four
/// high bits of the config byte say, from the top, whether there is a payload type, a sequence
/// number and a marker, and what the marker is; the four low bits are clear.
pub proof fn to_bytes_follows_the_wire_format(ohb: Ohb)
    ensures
        ({
            let bytes = ohb.encoding();
            let n = bytes.len() as int;
            let config = bytes[n - 1];
            &&& n == 1 + (if ohb.original_pt is Some {
                1int
            } else {
                0
            }) + (if ohb.original_seq is Some {
                2int
            } else {
                0
            })
            &&& config & 0x80 != 0 <==> ohb.original_pt is Some
            &&& config & 0x40 != 0 <==> ohb.original_seq is Some
            &&& config & 0x20 != 0 <==> ohb.original_marker is Some
            &&& config & 0x10 != 0 <==> ohb.original_marker == Some(true)
            &&& config & 0x0F == 0
            &&& ohb.original_pt matches Some(pt) ==> bytes[0] == pt % 128
            &&& ohb.original_seq matches Some(seq) ==> bytes[n - 3] == seq / 256 && bytes[n - 2]
                == seq % 256
        }),
{
    lemma_config_bits(
        ohb.original_pt is Some,
        ohb.original_seq is Some,
        ohb.original_marker is Some,
        ohb.original_marker == Some(true),
    );
    if let Some(pt) = ohb.original_pt {
        assert(pt & 0x7F == pt % 128) by (bit_vector);
    }
}

/// A buffer ends in a block if it holds the bytes that its last byte announces: one for the top bit,
/// two for the next. The sequence number is read in network byte order from the two bytes before the
/// last, whatever else there is, the payload type from the low seven bits of the first byte of the
/// block, and the marker from the fourth bit if the third is set.
pub proof fn parse_follows_the_wire_format(buf: Seq<u8>)
    requires
        buf.len() > 0,
    ensures
        ({
            let n = buf.len() as int;
            let config = buf[n - 1];
            let len = 1 + (if config & 0x80 != 0 {
                1int
            } else {
                0
            }) + (if config & 0x40 != 0 {
                2int
            } else {
                0
            });
            &&& ends_in_block(buf) <==> len <= n
            &&& block_len(config) == len
            &&& ends_in_block(buf) ==> {
                let ohb = block_at_end(buf);
                &&& match ohb.original_pt {
                    Some(pt) => config & 0x80 != 0 && pt == buf[n - len] % 128,
                    None => config & 0x80 == 0,
                }
                &&& match ohb.original_seq {
                    Some(seq) => config & 0x40 != 0 && seq == 256 * buf[n - 3] + buf[n - 2],
                    None => config & 0x40 == 0,
                }
                &&& match ohb.original_marker {
                    Some(marker) => config & 0x20 != 0 && marker == (config & 0x10 != 0),
                    None => config & 0x20 == 0,
                }
            }
        }),
{
    if ends_in_block(buf) {
        let byte = buf[buf.len() - block_len(buf.last())];
        assert(byte & 0x7F == byte % 128) by (bit_vector);
    }
}

/// Two blocks are serialized alike only if they are the same, but for the top bit of the payload
/// type, which does not travel.
pub proof fn different_blocks_are_serialized_differently(a: Ohb, b: Ohb)
    requires
        a.encoding() == b.encoding(),
    ensures
        a.original_seq == b.original_seq,
        a.original_marker == b.original_marker,
        match (a.original_pt, b.original_pt) {
            (Some(p), Some(q)) => p % 128 == q % 128,
            (None, None) => true,
            _ => false,
        },
{
    to_bytes_follows_the_wire_format(a);
    to_bytes_follows_the_wire_format(b);
}

/// What stands before a block has no part in how it is read.
pub proof fn parse_reads_only_the_block(payload: Seq<u8>, buf: Seq<u8>)
    requires
        ends_in_block(buf),
    ensures
        ends_in_block(payload + buf),
        (payload + buf).last() == buf.last(),
        block_at_end(payload + buf) == block_at_end(buf),
{
    assert((payload + buf).last() == buf.last());
}

/// A block says that nothing was modified exactly when the P, Q and M flags of its config byte are
/// clear; an all-zero config byte is such a block, of a single byte, and it is how the empty block
/// is serialized.
pub proof fn zero_config_means_unmodified(buf: Seq<u8>)
    requires
        buf.len() > 0,
    ensures
        ends_in_block(buf) ==> (block_at_end(buf) == Ohb::none() <==> !has_bit(
            buf.last(),
            CONFIG_P,
        ) && !has_bit(buf.last(), CONFIG_Q) && !has_bit(buf.last(), CONFIG_M)),
        buf.last() == 0 ==> ends_in_block(buf) && block_at_end(buf) == Ohb::none() && block_len(
            buf.last(),
        ) == 1,
        Ohb::none().encoding() == seq![0u8],
{
    assert(0u8 & 0x80 == 0 && 0u8 & 0x40 == 0 && 0u8 & 0x20 == 0) by (bit_vector);
    assert(0u8 | 0u8 | 0u8 | 0u8 == 0u8) by (bit_vector);
    assert(Ohb::none().encoding() =~= seq![0u8]);
}

/// Every entry of the block of a difference is the very value that the sender had set, and there is
/// one exactly for the fields that differ.
pub proof fn entries_are_the_values_of_the_sender(
    original: (u8, u16, bool),
    modified: (u8, u16, bool),
    diff: Ohb,
)
    requires
        diff == Ohb::diff(original, modified),
    ensures
        match diff.original_pt {
            Some(pt) => pt == original.0 && original.0 != modified.0,
            None => original.0 == modified.0,
        },
        match diff.original_seq {
            Some(seq) => seq == original.1 && original.1 != modified.1,
            None => original.1 == modified.1,
        },
        match diff.original_marker {
            Some(marker) => marker == original.2 && original.2 != modified.2,
            None => original.2 == modified.2,
        },
{
}

/// An update keeps an entry as it is, or drops it if the field gets that value back. Where there was
/// no entry, a field that changes gets one with the value it had.
pub proof fn update_keeps_or_drops_every_entry(
    ohb: Ohb,
    current: (u8, u16, bool),
    new: (u8, u16, bool),
    updated: Ohb,
)
    requires
        updated == ohb.updated(current, new),
    ensures
        match (ohb.original_pt, updated.original_pt) {
            (Some(sent), Some(kept)) => kept == sent && new.0 != sent,
            (Some(sent), None) => new.0 == sent,
            (None, Some(kept)) => kept == current.0 && new.0 != current.0,
            (None, None) => new.0 == current.0,
        },
        match (ohb.original_seq, updated.original_seq) {
            (Some(sent), Some(kept)) => kept == sent && new.1 != sent,
            (Some(sent), None) => new.1 == sent,
            (None, Some(kept)) => kept == current.1 && new.1 != current.1,
            (None, None) => new.1 == current.1,
        },
        match (ohb.original_marker, updated.original_marker) {
            (Some(sent), Some(kept)) => kept == sent && new.2 != sent,
            (Some(sent), None) => new.2 == sent,
            (None, Some(kept)) => kept == current.2 && new.2 != current.2,
            (None, None) => new.2 == current.2,
        },
{
}

/// Restoring takes every entry for the value that the sender had set, and a field without an entry
/// for unmodified.
pub proof fn restore_takes_the_entries(
    ohb: Ohb,
    current: (u8, u16, bool),
    sent: (u8, u16, bool),
)
    requires
        sent == ohb.restore(current.0, current.1, current.2),
    ensures
        match ohb.original_pt {
            Some(pt) => sent.0 == pt,
            None => sent.0 == current.0,
        },
        match ohb.original_seq {
            Some(seq) => sent.1 == seq,
            None => sent.1 == current.1,
        },
        match ohb.original_marker {
            Some(marker) => sent.2 == marker,
            None => sent.2 == current.2,
        },
{
}

/// The block of a difference leads from the modified header fields back to the original ones, and
/// it is empty exactly when nothing was modified.
pub proof fn restore_undoes_modification(original: (u8, u16, bool), modified: (u8, u16, bool))
    ensures
        Ohb::diff(original, modified).restore(modified.0, modified.1, modified.2) == original,
        Ohb::diff(original, modified) == Ohb::none() <==> original == modified,
{
}

/// However a block came about, updating it keeps what it restores: the header fields at the sender
/// are the same before the change, read through the old block, and after it, read through the new
/// one.
pub proof fn update_keeps_the_original(ohb: Ohb, current: (u8, u16, bool), new: (u8, u16, bool))
    ensures
        ohb.updated(current, new).restore(new.0, new.1, new.2) == ohb.restore(
            current.0,
            current.1,
            current.2,
        ),
{
}

/// A chain of modifications is recorded as the one modification from its start to its end, so a
/// second change keeps the sender's value and not the value in between.
pub proof fn update_after_diff_is_diff(
    original: (u8, u16, bool),
    modified: (u8, u16, bool),
    new: (u8, u16, bool),
)
    ensures
        Ohb::diff(original, modified).updated(modified, new) == Ohb::diff(original, new),
        Ohb::none().updated(modified, new) == Ohb::diff(modified, new),
{
}

/// Changing every field back to what the sender had set empties the block, and no other change
/// does.
pub proof fn update_back_to_the_original_empties(
    ohb: Ohb,
    current: (u8, u16, bool),
    new: (u8, u16, bool),
)
    ensures
        ohb.updated(current, new) == Ohb::none() <==> new == ohb.restore(
            current.0,
            current.1,
            current.2,
        ),
{
}

} // verus!
