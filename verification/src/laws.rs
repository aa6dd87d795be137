//! What holds of the transitions of the ledger, whatever the ledger and the
//! request.

use crate::address::{creator_address_spec, tip_address_spec};
use crate::error::{ErrorKind, TipfinityError, TransitionError};
use crate::instructions::initialize_creator::username_bytes;
use crate::instructions::tip::tip_refusal;
use crate::program::{held, LedgerView, TipView};
use crate::state::username_field;
use vstd::prelude::*;

verus! {

/// A registration that succeeds leaves, at the address derived from the
/// authority, a record that the authority owns, with the username field
/// filled from the requested name and both counters at zero.
pub proof fn law_registration_starts_at_zero(
    pre: LedgerView,
    authority: Seq<u8>,
    username: Seq<char>,
)
    requires
        pre.register_failure(authority, username) is None,
    ensures
        creator_address_spec(authority) matches Some((address, _)) && pre.after_register(
            authority,
            username,
        ).creator(address) matches Some(c) && {
            &&& c.owner == authority
            &&& c.username == username_field(username_bytes(username))
            &&& c.tip_count == 0
            &&& c.total_tips == 0
        },
{
}

/// A username of more than thirty-two bytes is refused as a validation
/// error, and the ledger stays as it was: no record is created.
pub proof fn law_long_username_is_refused(
    pre: LedgerView,
    authority: Seq<u8>,
    username: Seq<char>,
)
    requires
        username_bytes(username).len() > 32,
    ensures
        pre.register_failure(authority, username) == Some(
            TransitionError::Program(TipfinityError::UsernameTooLong),
        ),
        pre.register_failure(authority, username).unwrap().kind_spec()
            == ErrorKind::ValidationError,
        pre.after_register(authority, username) == pre,
{
}

/// After a registration of an identity has succeeded, every further
/// registration of that identity is refused and changes nothing, and the
/// record at the address derived from the identity is the only creator
/// record that the identity owns.
pub proof fn law_registration_is_once(
    pre: LedgerView,
    authority: Seq<u8>,
    first: Seq<char>,
    second: Seq<char>,
)
    requires
        pre.wf(),
        pre.register_failure(authority, first) is None,
    ensures
        ({
            let post = pre.after_register(authority, first);
            &&& post.register_failure(authority, second) is Some
            &&& post.after_register(authority, second) == post
            &&& creator_address_spec(authority) matches Some((address, _))
            &&& post.creator(address) is Some
            &&& forall|a: Seq<u8>|
                (#[trigger] post.creator(a)) matches Some(c) && c.owner == authority ==> a
                    == address
        }),
{
    crate::program::lemma_register_keeps_wf(pre, authority, first);
}

/// In a well-formed ledger no identity owns two creator records.
pub proof fn law_one_record_per_owner(ledger: LedgerView, a: Seq<u8>, b: Seq<u8>)
    requires
        ledger.wf(),
        ledger.creator(a) is Some,
        ledger.creator(b) is Some,
        ledger.creator(a).unwrap().owner == ledger.creator(b).unwrap().owner,
    ensures
        a == b,
{
}

/// In a well-formed ledger the tips of a creator are found without an
/// index: for each sequence number below the creator's tip count, a tip
/// record that names the creator record lies at the address derived from
/// the creator record's address and that number.
pub proof fn law_tips_are_found(ledger: LedgerView, creator: Seq<u8>, index: u64)
    requires
        ledger.wf(),
        ledger.creator(creator) is Some,
        (index as nat) < ledger.creator(creator).unwrap().tip_count,
    ensures
        tip_address_spec(creator, index) matches Some((address, _)) && ledger.tip_record(
            address,
        ) matches Some(t) && t.creator == creator,
{
}

/// In a well-formed ledger the total of a creator is the sum of the amounts
/// of the creator's tips.
pub proof fn law_total_is_the_sum_of_the_tips(ledger: LedgerView, creator: Seq<u8>)
    requires
        ledger.wf(),
        ledger.creator(creator) is Some,
    ensures
        ledger.creator(creator).unwrap().total_tips == ledger.tips_total(
            creator,
            ledger.creator(creator).unwrap().tip_count,
        ),
{
}

/// Every ledger that the transitions reach from the empty one is well
/// formed: the empty ledger is, and each transition keeps it so.
pub proof fn law_transitions_keep_the_ledger_well_formed(
    pre: LedgerView,
    authority: Seq<u8>,
    username: Seq<char>,
    accounts: TipView,
    amount: nat,
    message: Option<Seq<char>>,
    timestamp: int,
)
    ensures
        LedgerView::empty().wf(),
        pre.wf() ==> pre.after_deposit(authority, amount).wf(),
        pre.wf() ==> pre.after_register(authority, username).wf(),
        pre.wf() ==> pre.after_tip(accounts, amount, message, timestamp).wf(),
{
    if pre.wf() {
        crate::program::lemma_deposit_keeps_wf(pre, authority, amount);
        crate::program::lemma_register_keeps_wf(pre, authority, username);
        crate::program::lemma_tip_keeps_wf(pre, accounts, amount, message, timestamp);
    }
}

/// A tip that succeeds raises the creator's tip count by exactly one and
/// the creator's total by exactly the amount, and leaves a new tip record
/// at the address derived from the creator record's address and the tip
/// count before the tip. The record names the creator record, the tipper,
/// the amount, the time and the annotation.
pub proof fn law_tip_is_counted(
    pre: LedgerView,
    accounts: TipView,
    amount: nat,
    message: Option<Seq<char>>,
    timestamp: int,
)
    requires
        pre.tip_failure(accounts, amount, message) is None,
    ensures
        ({
            let post = pre.after_tip(accounts, amount, message, timestamp);
            &&& pre.creator(accounts.creator) matches Some(before)
            &&& post.creator(accounts.creator) matches Some(after)
            &&& after.tip_count == before.tip_count + 1
            &&& after.total_tips == before.total_tips + amount
            &&& after.owner == before.owner
            &&& after.username == before.username
            &&& tip_address_spec(accounts.creator, before.tip_count as u64) matches Some(
                (address, _),
            )
            &&& pre.tip_record(address) is None
            &&& post.tip_record(address) matches Some(t)
            &&& t.creator == accounts.creator
            &&& t.tipper == accounts.tipper
            &&& t.amount == amount
            &&& t.timestamp == timestamp
            &&& t.message == message
            &&& post.events == pre.events.push(
                crate::state::TipEventView {
                    creator: accounts.creator_wallet,
                    tipper: accounts.tipper,
                    amount,
                    message,
                },
            )
        }),
{
}

/// A tip that succeeds moves exactly the amount from the tipper to the
/// creator's wallet, which is the recorded owner, and leaves every other
/// holding as it was. Where the tipper is that wallet, it holds what it
/// held.
pub proof fn law_tip_moves_value(
    pre: LedgerView,
    accounts: TipView,
    amount: nat,
    message: Option<Seq<char>>,
    timestamp: int,
    other: Seq<u8>,
)
    requires
        pre.tip_failure(accounts, amount, message) is None,
    ensures
        ({
            let post = pre.after_tip(accounts, amount, message, timestamp);
            &&& pre.creator(accounts.creator) matches Some(before)
            &&& before.owner == accounts.creator_wallet
            &&& amount > 0
            &&& accounts.tipper != accounts.creator_wallet ==> {
                &&& post.balance(accounts.tipper) == pre.balance(accounts.tipper) - amount
                &&& post.balance(accounts.creator_wallet) == pre.balance(accounts.creator_wallet)
                    + amount
            }
            &&& accounts.tipper == accounts.creator_wallet ==> post.balance(accounts.tipper)
                == pre.balance(accounts.tipper)
            &&& other != accounts.tipper && other != accounts.creator_wallet ==> post.balance(other)
                == pre.balance(other)
        }),
{
}

/// A tip of zero to a creator's recorded owner is refused as a validation
/// error, and the ledger stays as it was: no counter changes and no value
/// moves.
pub proof fn law_zero_amount_is_refused(
    pre: LedgerView,
    accounts: TipView,
    message: Option<Seq<char>>,
    timestamp: int,
)
    requires
        pre.creator(accounts.creator) is Some,
        pre.creator(accounts.creator).unwrap().owner == accounts.creator_wallet,
    ensures
        pre.tip_failure(accounts, 0, message) == Some(
            TransitionError::Program(TipfinityError::InvalidAmount),
        ),
        pre.tip_failure(accounts, 0, message).unwrap().kind_spec() == ErrorKind::ValidationError,
        pre.after_tip(accounts, 0, message, timestamp) == pre,
{
}

/// A tip whose declared wallet is not the owner that the creator record
/// names is refused as an authorization mismatch, whatever else the request
/// holds, and the ledger stays as it was: no value moves.
pub proof fn law_wrong_wallet_is_refused(
    pre: LedgerView,
    accounts: TipView,
    amount: nat,
    message: Option<Seq<char>>,
    timestamp: int,
)
    requires
        pre.creator(accounts.creator) is Some,
        pre.creator(accounts.creator).unwrap().owner != accounts.creator_wallet,
    ensures
        pre.tip_failure(accounts, amount, message) == Some(TransitionError::WalletMismatch),
        pre.tip_failure(accounts, amount, message).unwrap().kind_spec()
            == ErrorKind::AuthorizationMismatch,
        pre.after_tip(accounts, amount, message, timestamp) == pre,
{
}

/// A tip to a creator whose tip count is at the top of the unsigned 64-bit
/// range is refused, whatever else the request holds, and the ledger stays
/// as it was: no counter changes.
pub proof fn law_full_count_takes_no_tip(
    pre: LedgerView,
    accounts: TipView,
    amount: nat,
    message: Option<Seq<char>>,
    timestamp: int,
)
    requires
        pre.creator(accounts.creator) is Some,
        pre.creator(accounts.creator).unwrap().tip_count == u64::MAX,
    ensures
        pre.tip_failure(accounts, amount, message) is Some,
        pre.after_tip(accounts, amount, message, timestamp) == pre,
{
}

/// A tip to a creator whose tip count is at the top of the unsigned 64-bit
/// range is refused as an overflow, where nothing that is checked before
/// the counters refuses it: the request passes validation, the value can
/// move, and the address of the tip record is derived and free.
pub proof fn law_full_count_overflows(
    pre: LedgerView,
    accounts: TipView,
    amount: nat,
    message: Option<Seq<char>>,
)
    requires
        pre.creator(accounts.creator) is Some,
        pre.creator(accounts.creator).unwrap().tip_count == u64::MAX,
        tip_refusal(
            pre.creator(accounts.creator).unwrap().owner,
            accounts.creator_wallet,
            amount,
            message,
        ) is None,
        pre.balance(accounts.tipper) >= amount,
        held(
            pre.balances.insert(accounts.tipper, (pre.balance(accounts.tipper) - amount) as u64),
            accounts.creator_wallet,
        ) + amount <= u64::MAX,
        pre.tip_slot(accounts.creator) is Some,
        !pre.records.contains_key(pre.tip_slot(accounts.creator).unwrap().0),
    ensures
        pre.tip_failure(accounts, amount, message) == Some(
            TransitionError::Program(TipfinityError::Overflow),
        ),
        pre.tip_failure(accounts, amount, message).unwrap().kind_spec()
            == ErrorKind::OverflowError,
{
}

/// A request that is refused changes nothing.
pub proof fn law_refusal_changes_nothing(
    pre: LedgerView,
    authority: Seq<u8>,
    username: Seq<char>,
    accounts: TipView,
    amount: nat,
    message: Option<Seq<char>>,
    timestamp: int,
)
    ensures
        pre.register_failure(authority, username) is Some ==> pre.after_register(
            authority,
            username,
        ) == pre,
        pre.tip_failure(accounts, amount, message) is Some ==> pre.after_tip(
            accounts,
            amount,
            message,
            timestamp,
        ) == pre,
        pre.deposit_failure(authority, amount) is Some ==> pre.after_deposit(authority, amount)
            == pre,
{
}

/// Whether `post` holds every record of `pre` as far as records may not
/// change: each tip record as it was; each creator record with its owner
/// and username as they were and with counters that are not lower.
pub open spec fn keeps_records(pre: LedgerView, post: LedgerView) -> bool {
    &&& forall|a: Seq<u8>| (#[trigger] pre.tip_record(a)) is Some ==> post.tip_record(a)
        == pre.tip_record(a)
    &&& forall|a: Seq<u8>|
        (#[trigger] pre.creator(a)) matches Some(before) ==> {
            &&& post.creator(a) matches Some(after)
            &&& after.owner == before.owner
            &&& after.username == before.username
            &&& after.tip_count >= before.tip_count
            &&& after.total_tips >= before.total_tips
        }
}

/// No transition deletes or rewrites a tip record, deletes a creator record
/// or changes its owner or username, or lowers a counter. Only a tip
/// changes a creator record, and only the record that it names.
pub proof fn law_records_persist(
    pre: LedgerView,
    authority: Seq<u8>,
    username: Seq<char>,
    accounts: TipView,
    amount: nat,
    message: Option<Seq<char>>,
    timestamp: int,
)
    ensures
        keeps_records(pre, pre.after_deposit(authority, amount)),
        keeps_records(pre, pre.after_register(authority, username)),
        keeps_records(pre, pre.after_tip(accounts, amount, message, timestamp)),
        forall|a: Seq<u8>|
            (#[trigger] pre.creator(a)) is Some ==> pre.after_deposit(authority, amount).creator(a)
                == pre.creator(a) && pre.after_register(authority, username).creator(a)
                == pre.creator(a),
        forall|a: Seq<u8>|
            (#[trigger] pre.creator(a)) is Some && a != accounts.creator ==> pre.after_tip(
                accounts,
                amount,
                message,
                timestamp,
            ).creator(a) == pre.creator(a),
{
    let slot = pre.tip_slot(accounts.creator);
    let post = pre.after_tip(accounts, amount, message, timestamp);
    if pre.tip_failure(accounts, amount, message) is None {
        let address = slot.unwrap().0;
        assert forall|a: Seq<u8>| (#[trigger] pre.tip_record(a)) is Some implies post.tip_record(a)
            == pre.tip_record(a) by {
            assert(a != address);
            assert(a != accounts.creator);
        }
        assert forall|a: Seq<u8>| (#[trigger] pre.creator(a)) is Some && a
            != accounts.creator implies post.creator(a) == pre.creator(a) by {
            assert(a != address);
        }
    }
}

} // verus!
