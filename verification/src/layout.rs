//! The bytes of the records as they lie on the ledger.
//!
//! A creator record is its owner, its username field, then its two
//! counters. A tip record is the address of the creator record, the tipper,
//! the amount, the time, the annotation and the bump. Numbers take eight
//! bytes with the low byte first. An annotation is one byte that says
//! whether it is there and, where it is, its length in four bytes, low byte
//! first, and its text in UTF-8.

use crate::state::{
    message_bytes, message_view, Creator, CreatorView, Pubkey, TipMetadata, TipMetadataView,
};
use vstd::bytes::{
    lemma_auto_spec_u32_to_from_le_bytes, lemma_auto_spec_u64_to_from_le_bytes,
    spec_u32_from_le_bytes, spec_u32_to_le_bytes, spec_u64_from_le_bytes, spec_u64_to_le_bytes,
    u32_from_le_bytes, u32_to_le_bytes, u64_from_le_bytes, u64_to_le_bytes,
};
use vstd::utf8::{decode_utf8, encode_utf8, valid_utf8};
use vstd::prelude::*;
use vstd::slice::slice_subrange;

verus! {

impl CreatorView {
    /// Whether the record can lie on the ledger: its owner and its username
    /// field are thirty-two bytes each, its counters within the unsigned
    /// 64-bit range.
    pub open spec fn fits(self) -> bool {
        &&& self.owner.len() == 32
        &&& self.username.len() == 32
        &&& self.tip_count <= u64::MAX
        &&& self.total_tips <= u64::MAX
    }

    /// The bytes of the record.
    pub open spec fn encoded(self) -> Seq<u8> {
        self.owner + self.username + spec_u64_to_le_bytes(self.tip_count as u64)
            + spec_u64_to_le_bytes(self.total_tips as u64)
    }

    /// The record that the bytes hold: none unless they are eighty.
    pub open spec fn decoded(bytes: Seq<u8>) -> Option<CreatorView> {
        if bytes.len() == 80 {
            Some(
                CreatorView {
                    owner: bytes.subrange(0, 32),
                    username: bytes.subrange(32, 64),
                    tip_count: spec_u64_from_le_bytes(bytes.subrange(64, 72)) as nat,
                    total_tips: spec_u64_from_le_bytes(bytes.subrange(72, 80)) as nat,
                },
            )
        } else {
            None
        }
    }
}

/// A record takes eighty bytes, and reading them gives the record back.
pub proof fn law_creator_decodes_to_itself(c: CreatorView)
    requires
        c.fits(),
    ensures
        c.encoded().len() == 80,
        CreatorView::decoded(c.encoded()) == Some(c),
{
    lemma_auto_spec_u64_to_from_le_bytes();
    let bytes = c.encoded();
    assert(bytes.subrange(0, 32) =~= c.owner);
    assert(bytes.subrange(32, 64) =~= c.username);
    assert(bytes.subrange(64, 72) =~= spec_u64_to_le_bytes(c.tip_count as u64));
    assert(bytes.subrange(72, 80) =~= spec_u64_to_le_bytes(c.total_tips as u64));
}

/// Eighty bytes hold exactly one record: writing what was read gives the
/// bytes back.
pub proof fn law_creator_encodes_what_was_read(bytes: Seq<u8>)
    requires
        bytes.len() == 80,
    ensures
        CreatorView::decoded(bytes).unwrap().fits(),
        CreatorView::decoded(bytes).unwrap().encoded() == bytes,
{
    lemma_auto_spec_u64_to_from_le_bytes();
    let c = CreatorView::decoded(bytes).unwrap();
    assert(spec_u64_to_le_bytes(c.tip_count as u64) == bytes.subrange(64, 72));
    assert(spec_u64_to_le_bytes(c.total_tips as u64) == bytes.subrange(72, 80));
    assert(c.encoded() =~= bytes);
}

/// Appends `part` to `out`.
fn push_all(out: &mut Vec<u8>, part: &[u8])
    ensures
        final(out)@ == old(out)@ + part@,
{
    let mut i: usize = 0;
    while i < part.len()
        invariant
            i <= part@.len(),
            out@ == old(out)@ + part@.subrange(0, i as int),
        decreases part@.len() - i,
    {
        out.push(part[i]);
        i += 1;
        assert(out@ =~= old(out)@ + part@.subrange(0, i as int));
    }
    assert(part@.subrange(0, part@.len() as int) =~= part@);
}

/// The thirty-two bytes of `bytes` from `start` on.
fn take_32(bytes: &[u8], start: usize) -> (out: [u8; 32])
    requires
        start + 32 <= bytes@.len(),
    ensures
        out@ == bytes@.subrange(start as int, start + 32),
{
    let mut out: [u8; 32] = [0u8; 32];
    let len = bytes.len();
    let mut i: usize = 0;
    while i < 32
        invariant
            i <= 32,
            start + 32 <= len == bytes@.len(),
            forall|j: int| 0 <= j < i ==> out@[j] == bytes@[start + j],
        decreases 32 - i,
    {
        out[i] = bytes[start + i];
        i += 1;
    }
    assert(out@ =~= bytes@.subrange(start as int, start + 32));
    out
}

impl Creator {
    /// Writes the record as the eighty bytes that it takes on the ledger.
    pub fn to_bytes(&self) -> (out: Vec<u8>)
        ensures
            out@ == self@.encoded(),
            out@.len() == Creator::MAX_SIZE,
    {
        let mut out: Vec<u8> = Vec::new();
        push_all(&mut out, self.owner.bytes.as_slice());
        push_all(&mut out, self.username.as_slice());
        push_all(&mut out, u64_to_le_bytes(self.tip_count).as_slice());
        push_all(&mut out, u64_to_le_bytes(self.total_tips).as_slice());
        assert(out@ =~= self@.encoded());
        out
    }

    /// Reads a record from the bytes that it takes on the ledger. Bytes that
    /// are not eighty hold no record.
    pub fn from_bytes(bytes: &[u8]) -> (found: Option<Creator>)
        ensures
            match found {
                Some(c) => CreatorView::decoded(bytes@) == Some(c@),
                None => CreatorView::decoded(bytes@) is None,
            },
    {
        if bytes.len() != 80 {
            return None;
        }
        let c = Creator {
            owner: Pubkey { bytes: take_32(bytes, 0) },
            username: take_32(bytes, 32),
            tip_count: u64_from_le_bytes(slice_subrange(bytes, 64, 72)),
            total_tips: u64_from_le_bytes(slice_subrange(bytes, 72, 80)),
        };
        Some(c)
    }
}

/// The bytes of an annotation: a zero where there is none; else a one, the
/// length of its text in bytes, and the text.
pub open spec fn message_encoded(message: Option<Seq<char>>) -> Seq<u8> {
    match message {
        None => seq![0u8],
        Some(text) => seq![1u8] + spec_u32_to_le_bytes(encode_utf8(text).len() as u32)
            + encode_utf8(text),
    }
}

impl TipMetadataView {
    /// Whether the record can lie on the ledger: its two identities are
    /// thirty-two bytes each, its amount and its time within their 64-bit
    /// ranges, its annotation at most 256 bytes long.
    pub open spec fn fits(self) -> bool {
        &&& self.creator.len() == 32
        &&& self.tipper.len() == 32
        &&& self.amount <= u64::MAX
        &&& i64::MIN <= self.timestamp <= i64::MAX
        &&& message_bytes(self.message) <= 256
    }

    /// The bytes of the record.
    pub open spec fn encoded(self) -> Seq<u8> {
        self.creator + self.tipper + spec_u64_to_le_bytes(self.amount as u64)
            + spec_u64_to_le_bytes(self.timestamp as u64) + message_encoded(self.message)
            + seq![self.bump]
    }

    /// The record whose first eighty bytes are those of `bytes`, with the
    /// annotation and the bump given.
    pub open spec fn with_head(bytes: Seq<u8>, message: Option<Seq<char>>, bump: u8)
        -> TipMetadataView {
        TipMetadataView {
            creator: bytes.subrange(0, 32),
            tipper: bytes.subrange(32, 64),
            amount: spec_u64_from_le_bytes(bytes.subrange(64, 72)) as nat,
            timestamp: (spec_u64_from_le_bytes(bytes.subrange(72, 80)) as i64) as int,
            message,
            bump,
        }
    }

    /// The record that the bytes hold, if they hold one: the bytes end with
    /// the bump, the annotation is absent or is valid UTF-8 of the length
    /// stated and of at most 256 bytes.
    pub open spec fn decoded(bytes: Seq<u8>) -> Option<TipMetadataView> {
        if bytes.len() < 82 {
            None
        } else if bytes[80] == 0 {
            if bytes.len() == 82 {
                Some(TipMetadataView::with_head(bytes, None, bytes[81]))
            } else {
                None
            }
        } else if bytes[80] == 1 && bytes.len() >= 86 {
            let len = spec_u32_from_le_bytes(bytes.subrange(81, 85)) as int;
            if len <= 256 && bytes.len() == 86 + len && valid_utf8(bytes.subrange(85, 85 + len)) {
                Some(
                    TipMetadataView::with_head(
                        bytes,
                        Some(decode_utf8(bytes.subrange(85, 85 + len))),
                        bytes[85 + len],
                    ),
                )
            } else {
                None
            }
        } else {
            None
        }
    }
}

proof fn lemma_time_survives(t: i64, x: u64)
    ensures
        ((t as u64) as i64) == t,
        ((x as i64) as u64) == x,
{
    assert(((t as u64) as i64) == t) by (bit_vector);
    assert(((x as i64) as u64) == x) by (bit_vector);
}

/// A tip record takes at most the bytes set aside for it, and reading them
/// gives the record back.
pub proof fn law_tip_decodes_to_itself(t: TipMetadataView)
    requires
        t.fits(),
    ensures
        82 <= t.encoded().len() <= TipMetadata::MAX_SIZE,
        t.encoded().len() == 82 + (if t.message is Some {
            4 + message_bytes(t.message)
        } else {
            0
        }),
        TipMetadataView::decoded(t.encoded()) == Some(t),
{
    lemma_auto_spec_u64_to_from_le_bytes();
    lemma_auto_spec_u32_to_from_le_bytes();
    lemma_time_survives(t.timestamp as i64, 0);
    let bytes = t.encoded();
    let head = t.creator + t.tipper + spec_u64_to_le_bytes(t.amount as u64) + spec_u64_to_le_bytes(
        t.timestamp as u64,
    );
    assert(head.len() == 80);
    assert(bytes.subrange(0, 32) =~= t.creator);
    assert(bytes.subrange(32, 64) =~= t.tipper);
    assert(bytes.subrange(64, 72) =~= spec_u64_to_le_bytes(t.amount as u64));
    assert(bytes.subrange(72, 80) =~= spec_u64_to_le_bytes(t.timestamp as u64));
    match t.message {
        None => {
            assert(bytes[80] == 0);
            assert(bytes[81] == t.bump);
        },
        Some(text) => {
            let body = encode_utf8(text);
            assert(bytes[80] == 1);
            assert(bytes.subrange(81, 85) =~= spec_u32_to_le_bytes(body.len() as u32));
            assert(bytes.subrange(85, 85 + body.len() as int) =~= body);
            assert(bytes[85 + body.len() as int] == t.bump);
            vstd::utf8::encode_utf8_valid_utf8(text);
            vstd::utf8::encode_utf8_decode_utf8(text);
        },
    }
}

/// Bytes that hold a tip record hold exactly one: writing what was read
/// gives the bytes back.
pub proof fn law_tip_encodes_what_was_read(bytes: Seq<u8>)
    requires
        TipMetadataView::decoded(bytes) is Some,
    ensures
        TipMetadataView::decoded(bytes).unwrap().fits(),
        TipMetadataView::decoded(bytes).unwrap().encoded() == bytes,
{
    lemma_auto_spec_u64_to_from_le_bytes();
    lemma_auto_spec_u32_to_from_le_bytes();
    let t = TipMetadataView::decoded(bytes).unwrap();
    lemma_time_survives(0, spec_u64_from_le_bytes(bytes.subrange(72, 80)));
    assert(spec_u64_to_le_bytes(t.amount as u64) == bytes.subrange(64, 72));
    assert(spec_u64_to_le_bytes(t.timestamp as u64) == bytes.subrange(72, 80));
    if bytes[80] == 0 {
        assert(t.encoded() =~= bytes);
    } else {
        let len = spec_u32_from_le_bytes(bytes.subrange(81, 85)) as int;
        let body = bytes.subrange(85, 85 + len);
        vstd::utf8::decode_utf8_encode_utf8(body);
        assert(encode_utf8(decode_utf8(body)) == body);
        assert(spec_u32_to_le_bytes(body.len() as u32) == bytes.subrange(81, 85));
        assert(t.encoded() =~= bytes);
    }
}

/// Calls `String::from_utf8` of std, which gives the text that the bytes
/// encode in UTF-8, and none where they are not valid UTF-8.
#[verifier::external_body]
fn text_of(bytes: Vec<u8>) -> (text: Option<String>)
    ensures
        match text {
            Some(t) => valid_utf8(bytes@) && t@ == decode_utf8(bytes@),
            None => !valid_utf8(bytes@),
        },
{
    String::from_utf8(bytes).ok()
}

impl TipMetadata {
    /// Writes the record as the bytes that it takes on the ledger. A record
    /// whose annotation is longer than 256 bytes is not written.
    pub fn to_bytes(&self) -> (out: Option<Vec<u8>>)
        ensures
            match out {
                Some(bytes) => {
                    &&& message_bytes(self@.message) <= 256
                    &&& bytes@ == self@.encoded()
                    &&& bytes@.len() <= TipMetadata::MAX_SIZE
                },
                None => message_bytes(self@.message) > 256,
            },
    {
        let mut out: Vec<u8> = Vec::new();
        push_all(&mut out, self.creator.bytes.as_slice());
        push_all(&mut out, self.tipper.bytes.as_slice());
        push_all(&mut out, u64_to_le_bytes(self.amount).as_slice());
        push_all(&mut out, u64_to_le_bytes(self.timestamp as u64).as_slice());
        match &self.message {
            None => {
                out.push(0u8);
            },
            Some(text) => {
                let body = text.as_str().as_bytes();
                if body.len() > 256 {
                    return None;
                }
                out.push(1u8);
                push_all(&mut out, u32_to_le_bytes(body.len() as u32).as_slice());
                push_all(&mut out, body);
            },
        }
        out.push(self.bump);
        proof {
            lemma_auto_spec_u32_to_from_le_bytes();
            assert(out@ =~= self@.encoded());
        }
        Some(out)
    }

    /// Reads a record from the bytes that it takes on the ledger.
    pub fn from_bytes(bytes: &[u8]) -> (found: Option<TipMetadata>)
        ensures
            match found {
                Some(t) => TipMetadataView::decoded(bytes@) == Some(t@),
                None => TipMetadataView::decoded(bytes@) is None,
            },
    {
        let total = bytes.len();
        if total < 82 {
            return None;
        }
        let tag = bytes[80];
        let (message, bump) = if tag == 0 {
            if total != 82 {
                return None;
            }
            (None, bytes[81])
        } else if tag == 1 && total >= 86 {
            let len = u32_from_le_bytes(slice_subrange(bytes, 81, 85));
            if len > 256 || total - 86 != len as usize {
                return None;
            }
            let end = 85 + len as usize;
            let body = vstd::slice::slice_to_vec(slice_subrange(bytes, 85, end));
            match text_of(body) {
                None => {
                    return None;
                },
                Some(text) => (Some(text), bytes[end]),
            }
        } else {
            return None;
        };
        let t = TipMetadata {
            creator: Pubkey { bytes: take_32(bytes, 0) },
            tipper: Pubkey { bytes: take_32(bytes, 32) },
            amount: u64_from_le_bytes(slice_subrange(bytes, 64, 72)),
            timestamp: u64_from_le_bytes(slice_subrange(bytes, 72, 80)) as i64,
            message,
            bump,
        };
        Some(t)
    }
}

} // verus!
