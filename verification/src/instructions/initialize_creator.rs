//! Registering a creator.

use crate::error::TipfinityError;
use crate::state::{pack_username, Creator, CreatorView, Pubkey};
use vstd::prelude::*;

verus! {

/// What the instruction is handed: the identity that authorizes the request,
/// which has proven control of its key before this code runs, and the
/// creator record to fill.
#[derive(Clone, Copy, Debug, PartialEq, Eq)]
pub struct InitializeCreator {
    pub authority: Pubkey,
    pub creator: Creator,
}

/// The bytes of a requested username.
pub open spec fn username_bytes(username: Seq<char>) -> Seq<u8> {
    vstd::utf8::encode_utf8(username)
}

/// Whether a requested username fits the username field.
pub open spec fn username_fits(username: Seq<char>) -> bool {
    username_bytes(username).len() <= 32
}

/// Fills the creator record for `ctx.authority` under `username`.
///
/// A username of more than thirty-two bytes is refused and the record is
/// left as it was. Otherwise the record is owned by the authority, holds the
/// username left-aligned and followed by zeros, and both counters are zero.
pub fn handle(ctx: &mut InitializeCreator, username: String) -> (r: Result<(), TipfinityError>)
    ensures
        username_fits(username@) ==> r == Ok::<(), TipfinityError>(()),
        !username_fits(username@) ==> r == Err::<(), TipfinityError>(
            TipfinityError::UsernameTooLong,
        ),
        r is Ok ==> final(ctx).creator@ == CreatorView::registered(
            old(ctx).authority@,
            username_bytes(username@),
        ),
        r is Ok ==> final(ctx).authority == old(ctx).authority,
        r is Err ==> *final(ctx) == *old(ctx),
{
    let name = username.as_str().as_bytes();
    if name.len() > 32 {
        return Err(TipfinityError::UsernameTooLong);
    }
    ctx.creator.owner = ctx.authority;
    ctx.creator.username = pack_username(name);
    ctx.creator.tip_count = 0;
    ctx.creator.total_tips = 0;
    Ok(())
}

} // verus!
