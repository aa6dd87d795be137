//! Recording a tip.

use crate::error::{TipfinityError, TransitionError};
use crate::state::{
    message_bytes, message_view, Creator, Pubkey, TipEvent, TipEventView, TipMetadata,
    TipMetadataView,
};
use vstd::prelude::*;

verus! {

/// What the instruction is handed.
#[derive(Clone, Debug, PartialEq, Eq)]
pub struct SendTip {
    /// The identity that pays, which has proven control of its key before
    /// this code runs.
    pub tipper: Pubkey,
    /// The address of the creator record.
    pub creator_key: Pubkey,
    /// The creator record, as it stands before the tip.
    pub creator: Creator,
    /// The wallet that the request declares as the creator's.
    pub creator_wallet: Pubkey,
    /// The tip record to fill.
    pub tip: TipMetadata,
    /// The bump of the address at which the tip record lies.
    pub bump: u8,
}

/// Why a tip is refused before any value moves, if it is: the declared
/// wallet is not the recorded owner, or else the amount is zero, or else the
/// annotation is longer than 256 bytes.
pub open spec fn tip_refusal(
    owner: Seq<u8>,
    creator_wallet: Seq<u8>,
    amount: nat,
    message: Option<Seq<char>>,
) -> Option<TransitionError> {
    if creator_wallet != owner {
        Some(TransitionError::WalletMismatch)
    } else if amount == 0 {
        Some(TransitionError::Program(TipfinityError::InvalidAmount))
    } else if message_bytes(message) > 256 {
        Some(TransitionError::Program(TipfinityError::MessageTooLong))
    } else {
        None
    }
}

/// Whether the counters of a creator record can take one more tip of
/// `amount` without leaving the unsigned 64-bit range.
pub open spec fn counters_take(tip_count: nat, total_tips: nat, amount: nat) -> bool {
    tip_count + 1 <= u64::MAX && total_tips + amount <= u64::MAX
}

/// Why a tip is refused, if it is: for one of the reasons of `tip_refusal`,
/// or else because a counter would overflow.
pub open spec fn tip_failure(
    owner: Seq<u8>,
    creator_wallet: Seq<u8>,
    tip_count: nat,
    total_tips: nat,
    amount: nat,
    message: Option<Seq<char>>,
) -> Option<TransitionError> {
    if tip_refusal(owner, creator_wallet, amount, message) is Some {
        tip_refusal(owner, creator_wallet, amount, message)
    } else if !counters_take(tip_count, total_tips, amount) {
        Some(TransitionError::Program(TipfinityError::Overflow))
    } else {
        None
    }
}

impl SendTip {
    /// Why this tip is refused before any value moves, if it is.
    pub open spec fn refusal(self, amount: u64, message: Option<String>) -> Option<
        TransitionError,
    > {
        tip_refusal(
            self.creator.owner@,
            self.creator_wallet@,
            amount as nat,
            message_view(message),
        )
    }

    /// Why this tip is refused, if it is.
    pub open spec fn failure(self, amount: u64, message: Option<String>) -> Option<
        TransitionError,
    > {
        tip_failure(
            self.creator.owner@,
            self.creator_wallet@,
            self.creator.tip_count as nat,
            self.creator.total_tips as nat,
            amount as nat,
            message_view(message),
        )
    }

    /// Checks what must hold before any value moves: that the declared
    /// wallet is the owner that the creator record names, that the amount is
    /// not zero, and that the annotation is at most 256 bytes long.
    pub fn validate(&self, amount: u64, message: &Option<String>) -> (r: Result<
        (),
        TransitionError,
    >)
        ensures
            self.refusal(amount, *message) matches Some(e) ==> r == Err::<(), TransitionError>(e),
            self.refusal(amount, *message) is None ==> r == Ok::<(), TransitionError>(()),
    {
        if self.creator_wallet != self.creator.owner {
            return Err(TransitionError::WalletMismatch);
        }
        if amount == 0 {
            return Err(TransitionError::Program(TipfinityError::InvalidAmount));
        }
        match message {
            Some(m) => {
                if m.as_str().as_bytes().len() > 256 {
                    return Err(TransitionError::Program(TipfinityError::MessageTooLong));
                }
            },
            None => {},
        }
        Ok(())
    }
}

/// Records a tip of `amount` from `ctx.tipper` on the records in `ctx`.
///
/// The tip is refused, and `ctx` left as it was, where `validate` refuses it
/// or where a counter of the creator record would overflow. Otherwise the
/// tip record is filled, the creator record counts one more tip and `amount`
/// more value, and the notice for the tip is returned.
pub fn handle(ctx: &mut SendTip, amount: u64, message: Option<String>, timestamp: i64) -> (r:
    Result<TipEvent, TransitionError>)
    ensures
        old(ctx).failure(amount, message) matches Some(e) ==> r == Err::<
            TipEvent,
            TransitionError,
        >(e),
        old(ctx).failure(amount, message) is None ==> r is Ok,
        r is Err ==> *final(ctx) == *old(ctx),
        r matches Ok(event) ==> {
            &&& final(ctx).creator@ == old(ctx).creator@.tipped(amount as nat)
            &&& final(ctx).tip@ == (TipMetadataView {
                creator: old(ctx).creator_key@,
                tipper: old(ctx).tipper@,
                amount: amount as nat,
                timestamp: timestamp as int,
                message: message_view(message),
                bump: old(ctx).bump,
            })
            &&& event@ == (TipEventView {
                creator: old(ctx).creator_wallet@,
                tipper: old(ctx).tipper@,
                amount: amount as nat,
                message: message_view(message),
            })
            &&& final(ctx).tipper == old(ctx).tipper
            &&& final(ctx).creator_key == old(ctx).creator_key
            &&& final(ctx).creator_wallet == old(ctx).creator_wallet
            &&& final(ctx).bump == old(ctx).bump
        },
{
    match ctx.validate(amount, &message) {
        Err(e) => {
            return Err(e);
        },
        Ok(_) => {},
    }
    let tip_count = match ctx.creator.tip_count.checked_add(1) {
        Some(n) => n,
        None => {
            return Err(TransitionError::Program(TipfinityError::Overflow));
        },
    };
    let total_tips = match ctx.creator.total_tips.checked_add(amount) {
        Some(n) => n,
        None => {
            return Err(TransitionError::Program(TipfinityError::Overflow));
        },
    };
    let event = TipEvent {
        creator: ctx.creator_wallet,
        tipper: ctx.tipper,
        amount,
        message: message.clone(),
    };
    ctx.tip.creator = ctx.creator_key;
    ctx.tip.tipper = ctx.tipper;
    ctx.tip.amount = amount;
    ctx.tip.timestamp = timestamp;
    ctx.tip.message = message;
    ctx.tip.bump = ctx.bump;
    ctx.creator.tip_count = tip_count;
    ctx.creator.total_tips = total_tips;
    Ok(event)
}

} // verus!
