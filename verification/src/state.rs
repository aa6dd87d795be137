//! The records that the ledger holds, and what each of them stands for.

use vstd::prelude::*;
use vstd::std_specs::cmp::PartialEqSpecImpl;

verus! {

/// An identity or an address: thirty-two bytes.
#[derive(Clone, Copy, Debug)]
pub struct Pubkey {
    pub bytes: [u8; 32],
}

impl View for Pubkey {
    type V = Seq<u8>;

    open spec fn view(&self) -> Seq<u8> {
        self.bytes@
    }
}

impl PartialEq for Pubkey {
    fn eq(&self, other: &Pubkey) -> (r: bool) {
        let mut i: usize = 0;
        while i < 32
            invariant
                i <= 32,
                forall|j: int| 0 <= j < i ==> self.bytes@[j] == other.bytes@[j],
            decreases 32 - i,
        {
            if self.bytes[i] != other.bytes[i] {
                return false;
            }
            i += 1;
        }
        assert(self.bytes@ =~= other.bytes@);
        true
    }
}

impl Eq for Pubkey {

}

impl PartialEqSpecImpl for Pubkey {
    open spec fn obeys_eq_spec() -> bool {
        true
    }

    open spec fn eq_spec(&self, other: &Pubkey) -> bool {
        self@ == other@
    }
}

impl Pubkey {
    /// The identity made of the given bytes.
    pub fn new(bytes: [u8; 32]) -> (r: Pubkey)
        ensures
            r@ == bytes@,
    {
        Pubkey { bytes }
    }

    /// The bytes of this identity.
    pub fn to_bytes(&self) -> (r: [u8; 32])
        ensures
            r@ == self@,
    {
        self.bytes
    }
}

/// What stands in the username field for a requested name: the first
/// thirty-two bytes of the name, then zeros up to the field's width.
pub open spec fn username_field(name: Seq<u8>) -> Seq<u8> {
    Seq::new(
        32,
        |i: int|
            if i < name.len() {
                name[i]
            } else {
                0u8
            },
    )
}

/// Fills a username field from the bytes of a requested name. A name longer
/// than the field loses its tail; a shorter one is followed by zeros.
pub fn pack_username(name: &[u8]) -> (field: [u8; 32])
    ensures
        field@ == username_field(name@),
{
    let mut field: [u8; 32] = [0u8; 32];
    let copy_len: usize = if name.len() < 32 {
        name.len()
    } else {
        32
    };
    let mut i: usize = 0;
    while i < copy_len
        invariant
            i <= copy_len <= 32,
            copy_len <= name@.len(),
            forall|j: int| 0 <= j < i ==> field@[j] == name@[j],
            forall|j: int| i <= j < 32 ==> field@[j] == 0u8,
        decreases copy_len - i,
    {
        field[i] = name[i];
        i += 1;
    }
    assert(field@ =~= username_field(name@));
    field
}

/// The record of one registered creator.
#[derive(Clone, Copy, Debug, PartialEq, Eq)]
pub struct Creator {
    /// The identity that controls the record.
    pub owner: Pubkey,
    /// The creator's name, left-aligned and followed by zeros.
    pub username: [u8; 32],
    /// How many tips the creator has received.
    pub tip_count: u64,
    /// The value the creator has received, over all tips.
    pub total_tips: u64,
}

/// What a creator record stands for.
pub struct CreatorView {
    pub owner: Seq<u8>,
    pub username: Seq<u8>,
    pub tip_count: nat,
    pub total_tips: nat,
}

impl View for Creator {
    type V = CreatorView;

    open spec fn view(&self) -> CreatorView {
        CreatorView {
            owner: self.owner@,
            username: self.username@,
            tip_count: self.tip_count as nat,
            total_tips: self.total_tips as nat,
        }
    }
}

impl CreatorView {
    /// The record of a creator who has just registered under `name`.
    pub open spec fn registered(owner: Seq<u8>, name: Seq<u8>) -> CreatorView {
        CreatorView { owner, username: username_field(name), tip_count: 0, total_tips: 0 }
    }

    /// The record after one more tip of `amount`.
    pub open spec fn tipped(self, amount: nat) -> CreatorView {
        CreatorView {
            tip_count: self.tip_count + 1,
            total_tips: self.total_tips + amount,
            ..self
        }
    }
}

impl Creator {
    /// The bytes that a creator record takes: owner, username, two counters.
    pub const MAX_SIZE: usize = 32 + 32 + 8 + 8;

    /// A record as the ledger hands it out before anything is written to it:
    /// every byte zero.
    pub fn blank() -> (r: Creator)
        ensures
            r@ == (CreatorView {
                owner: Seq::new(32, |i: int| 0u8),
                username: Seq::new(32, |i: int| 0u8),
                tip_count: 0,
                total_tips: 0,
            }),
    {
        let r = Creator {
            owner: Pubkey { bytes: [0u8; 32] },
            username: [0u8; 32],
            tip_count: 0,
            total_tips: 0,
        };
        assert(r.owner@ =~= Seq::new(32, |i: int| 0u8));
        assert(r.username@ =~= Seq::new(32, |i: int| 0u8));
        r
    }
}

/// The record of one tip. It is written once and never changed.
#[derive(Clone, Debug, PartialEq, Eq)]
pub struct TipMetadata {
    /// The address of the creator record that the tip belongs to.
    pub creator: Pubkey,
    /// The identity that paid.
    pub tipper: Pubkey,
    /// The value moved.
    pub amount: u64,
    /// The host's time when the tip was recorded.
    pub timestamp: i64,
    /// What the tipper wrote along with the tip, if anything.
    pub message: Option<String>,
    /// The bump of the address at which the record lies.
    pub bump: u8,
}

/// What a tip record stands for.
pub struct TipMetadataView {
    pub creator: Seq<u8>,
    pub tipper: Seq<u8>,
    pub amount: nat,
    pub timestamp: int,
    pub message: Option<Seq<char>>,
    pub bump: u8,
}

/// What an optional annotation stands for: its characters, if it is there.
pub open spec fn message_view(message: Option<String>) -> Option<Seq<char>> {
    match message {
        Some(m) => Some(m@),
        None => None,
    }
}

/// The length of an annotation in bytes, as it is counted against the cap:
/// that of its UTF-8 encoding, and zero where there is none.
pub open spec fn message_bytes(message: Option<Seq<char>>) -> nat {
    match message {
        Some(m) => vstd::utf8::encode_utf8(m).len(),
        None => 0,
    }
}

impl View for TipMetadata {
    type V = TipMetadataView;

    open spec fn view(&self) -> TipMetadataView {
        TipMetadataView {
            creator: self.creator@,
            tipper: self.tipper@,
            amount: self.amount as nat,
            timestamp: self.timestamp as int,
            message: message_view(self.message),
            bump: self.bump,
        }
    }
}

impl TipMetadata {
    /// The bytes set aside for a tip record: two identities, amount, time,
    /// the annotation with the byte that says whether it is there and with
    /// its length, and the bump.
    pub const MAX_SIZE: usize = 32 + 32 + 8 + 8 + 1 + 4 + 256 + 1;

    /// A record as the ledger hands it out before anything is written to it.
    pub fn blank() -> (r: TipMetadata)
        ensures
            r@ == (TipMetadataView {
                creator: Seq::new(32, |i: int| 0u8),
                tipper: Seq::new(32, |i: int| 0u8),
                amount: 0,
                timestamp: 0,
                message: None,
                bump: 0,
            }),
    {
        let r = TipMetadata {
            creator: Pubkey { bytes: [0u8; 32] },
            tipper: Pubkey { bytes: [0u8; 32] },
            amount: 0,
            timestamp: 0,
            message: None,
            bump: 0,
        };
        assert(r.creator@ =~= Seq::new(32, |i: int| 0u8));
        assert(r.tipper@ =~= Seq::new(32, |i: int| 0u8));
        r
    }
}

/// The notice that goes out with each recorded tip.
#[derive(Clone, Debug, PartialEq, Eq)]
pub struct TipEvent {
    /// The wallet that received the value.
    pub creator: Pubkey,
    /// The identity that paid.
    pub tipper: Pubkey,
    /// The value moved.
    pub amount: u64,
    /// What the tipper wrote along with the tip, if anything.
    pub message: Option<String>,
}

/// What a notice stands for.
pub struct TipEventView {
    pub creator: Seq<u8>,
    pub tipper: Seq<u8>,
    pub amount: nat,
    pub message: Option<Seq<char>>,
}

impl View for TipEvent {
    type V = TipEventView;

    open spec fn view(&self) -> TipEventView {
        TipEventView {
            creator: self.creator@,
            tipper: self.tipper@,
            amount: self.amount as nat,
            message: message_view(self.message),
        }
    }
}

} // verus!
