//! The ledger and its two transitions: registering a creator and recording
//! a tip. A transition takes effect as a whole or not at all.

use crate::address::{
    address_view, creator_address, creator_address_spec, tip_address, tip_address_spec,
};
use crate::error::{TipfinityError, TransitionError};
use crate::instructions::initialize_creator::{username_bytes, username_fits, InitializeCreator};
use crate::instructions::tip::{counters_take, tip_refusal, SendTip};
use crate::state::{
    message_view, Creator, CreatorView, Pubkey, TipEvent, TipEventView, TipMetadata,
    TipMetadataView,
};
use crate::store::AddressMap;
use vstd::prelude::*;

verus! {

/// What lies at an address of the ledger.
#[derive(Clone, Debug, PartialEq, Eq)]
pub enum Record {
    Creator(Creator),
    Tip(TipMetadata),
}

/// What a record stands for.
pub enum RecordView {
    Creator(CreatorView),
    Tip(TipMetadataView),
}

impl View for Record {
    type V = RecordView;

    open spec fn view(&self) -> RecordView {
        match self {
            Record::Creator(c) => RecordView::Creator(c@),
            Record::Tip(t) => RecordView::Tip(t@),
        }
    }
}

/// The accounts that a request to record a tip names.
#[derive(Clone, Copy, Debug, PartialEq, Eq)]
pub struct Tip {
    /// The identity that pays, which has proven control of its key.
    pub tipper: Pubkey,
    /// The address of the creator record.
    pub creator: Pubkey,
    /// The wallet that the request declares as the creator's.
    pub creator_wallet: Pubkey,
}

/// What the accounts of a tip stand for.
pub struct TipView {
    pub tipper: Seq<u8>,
    pub creator: Seq<u8>,
    pub creator_wallet: Seq<u8>,
}

impl View for Tip {
    type V = TipView;

    open spec fn view(&self) -> TipView {
        TipView {
            tipper: self.tipper@,
            creator: self.creator@,
            creator_wallet: self.creator_wallet@,
        }
    }
}

/// What a recorded tip answers with: where the tip record lies, and the
/// creator's counters after the tip.
#[derive(Clone, Copy, Debug, PartialEq, Eq)]
pub struct TipReceipt {
    pub tip: Pubkey,
    pub tip_count: u64,
    pub total_tips: u64,
}

/// What a wallet holds under `balances`: nothing, where it is not listed.
pub open spec fn held(balances: Map<Seq<u8>, u64>, who: Seq<u8>) -> nat {
    if balances.contains_key(who) {
        balances[who] as nat
    } else {
        0
    }
}

/// The balances after `amount` has left `from` and reached `to`.
pub open spec fn moved(balances: Map<Seq<u8>, u64>, from: Seq<u8>, to: Seq<u8>, amount: nat) -> Map<
    Seq<u8>,
    u64,
> {
    let debited = balances.insert(from, (held(balances, from) - amount) as u64);
    debited.insert(to, (held(debited, to) + amount) as u64)
}

/// What a ledger stands for: the records by address, the value that each
/// wallet holds, and the notices sent so far, oldest first.
pub struct LedgerView {
    pub records: Map<Seq<u8>, RecordView>,
    pub balances: Map<Seq<u8>, u64>,
    pub events: Seq<TipEventView>,
}

impl LedgerView {
    /// The ledger on which nothing has happened.
    pub open spec fn empty() -> LedgerView {
        LedgerView { records: Map::empty(), balances: Map::empty(), events: Seq::empty() }
    }

    /// The creator record at `address`, if one lies there.
    pub open spec fn creator(self, address: Seq<u8>) -> Option<CreatorView> {
        if self.records.contains_key(address) {
            match self.records[address] {
                RecordView::Creator(c) => Some(c),
                RecordView::Tip(_) => None,
            }
        } else {
            None
        }
    }

    /// The tip record at `address`, if one lies there.
    pub open spec fn tip_record(self, address: Seq<u8>) -> Option<TipMetadataView> {
        if self.records.contains_key(address) {
            match self.records[address] {
                RecordView::Tip(t) => Some(t),
                RecordView::Creator(_) => None,
            }
        } else {
            None
        }
    }

    /// The value that `who` holds.
    pub open spec fn balance(self, who: Seq<u8>) -> nat {
        held(self.balances, who)
    }

    /// Where the next tip of the creator record at `creator` will lie:
    /// the address derived from the record's address and its tip count.
    pub open spec fn tip_slot(self, creator: Seq<u8>) -> Option<(Seq<u8>, u8)> {
        match self.creator(creator) {
            Some(c) => tip_address_spec(creator, c.tip_count as u64),
            None => None,
        }
    }

    /// The amount of the tip with sequence number `index` of the creator
    /// record at `creator`: that of the tip record at the derived address,
    /// and zero where none lies there.
    pub open spec fn tip_amount(self, creator: Seq<u8>, index: u64) -> nat {
        match tip_address_spec(creator, index) {
            Some((at, _)) => match self.tip_record(at) {
                Some(t) => t.amount,
                None => 0,
            },
            None => 0,
        }
    }

    /// The amounts of the tips of the creator record at `creator` with
    /// sequence numbers below `count`, summed.
    pub open spec fn tips_total(self, creator: Seq<u8>, count: nat) -> nat
        decreases count,
    {
        if count == 0 {
            0
        } else {
            self.tips_total(creator, (count - 1) as nat) + self.tip_amount(
                creator,
                (count - 1) as u64,
            )
        }
    }

    /// What holds of every ledger that the transitions can reach.
    ///
    /// Each creator record lies at the address derived from its owner, so
    /// no identity owns two. Its counters are within the unsigned 64-bit
    /// range, and its total is the sum of the amounts of its tips. And for
    /// each sequence number below its tip count, a tip record that names it
    /// lies at the address derived from the creator record's address and
    /// that number.
    pub open spec fn wf(self) -> bool {
        &&& forall|a: Seq<u8>| #[trigger]
            self.creator(a) matches Some(c) ==> {
                &&& creator_address_spec(c.owner) matches Some((at, _)) && at == a
                &&& c.tip_count <= u64::MAX
                &&& c.total_tips <= u64::MAX
                &&& c.total_tips == self.tips_total(a, c.tip_count)
            }
        &&& forall|a: Seq<u8>, i: u64|
            self.creator(a) matches Some(c) && (i as nat) < c.tip_count ==> {
                &&& #[trigger] tip_address_spec(a, i) matches Some((at, bump))
                &&& self.tip_record(at) matches Some(t)
                &&& t.creator == a
                &&& t.bump == bump
            }
    }

    /// Why adding `amount` to what `who` holds is refused, if it is: the
    /// sum would leave the unsigned 64-bit range.
    pub open spec fn deposit_failure(self, who: Seq<u8>, amount: nat) -> Option<TransitionError> {
        if self.balance(who) + amount > u64::MAX {
            Some(TransitionError::BalanceOverflow)
        } else {
            None
        }
    }

    /// The ledger after a request to add `amount` to what `who` holds.
    pub open spec fn after_deposit(self, who: Seq<u8>, amount: nat) -> LedgerView {
        if self.deposit_failure(who, amount) is None {
            LedgerView {
                balances: self.balances.insert(who, (self.balance(who) + amount) as u64),
                ..self
            }
        } else {
            self
        }
    }

    /// Why registering a creator under `username` at the derived address
    /// `slot` is refused, if it is: the username is too long, or else no
    /// address was derived, or else the address is occupied.
    pub open spec fn register_failure_at(
        self,
        slot: Option<(Seq<u8>, u8)>,
        username: Seq<char>,
    ) -> Option<TransitionError> {
        if !username_fits(username) {
            Some(TransitionError::Program(TipfinityError::UsernameTooLong))
        } else {
            match slot {
                None => Some(TransitionError::NoViableAddress),
                Some((address, _)) => if self.records.contains_key(address) {
                    Some(TransitionError::AddressInUse)
                } else {
                    None
                },
            }
        }
    }

    /// The ledger after a request of `authority` to register under
    /// `username` at the derived address `slot`: with the new creator record
    /// at that address, or, where the request is refused, as it was.
    pub open spec fn after_register_at(
        self,
        slot: Option<(Seq<u8>, u8)>,
        authority: Seq<u8>,
        username: Seq<char>,
    ) -> LedgerView {
        if self.register_failure_at(slot, username) is None {
            LedgerView {
                records: self.records.insert(
                    slot.unwrap().0,
                    RecordView::Creator(
                        CreatorView::registered(authority, username_bytes(username)),
                    ),
                ),
                ..self
            }
        } else {
            self
        }
    }

    /// Why a request of `authority` to register under `username` is
    /// refused, if it is.
    pub open spec fn register_failure(self, authority: Seq<u8>, username: Seq<char>) -> Option<
        TransitionError,
    > {
        self.register_failure_at(creator_address_spec(authority), username)
    }

    /// The ledger after a request of `authority` to register under
    /// `username`.
    pub open spec fn after_register(self, authority: Seq<u8>, username: Seq<char>) -> LedgerView {
        self.after_register_at(creator_address_spec(authority), authority, username)
    }

    /// Why recording a tip with its record at the derived address `slot` is
    /// refused, if it is. The first of these that holds decides: no creator
    /// record lies at the address named; the declared wallet is not the
    /// recorded owner; the amount is zero; the annotation is too long; the
    /// tipper holds less than the amount; the wallet cannot hold the amount;
    /// no address was derived for the tip record; that address is occupied;
    /// a counter would overflow.
    pub open spec fn tip_failure_at(
        self,
        slot: Option<(Seq<u8>, u8)>,
        accounts: TipView,
        amount: nat,
        message: Option<Seq<char>>,
    ) -> Option<TransitionError> {
        match self.creator(accounts.creator) {
            None => Some(TransitionError::UnknownCreator),
            Some(c) => {
                let debited = self.balances.insert(
                    accounts.tipper,
                    (self.balance(accounts.tipper) - amount) as u64,
                );
                if tip_refusal(c.owner, accounts.creator_wallet, amount, message) is Some {
                    tip_refusal(c.owner, accounts.creator_wallet, amount, message)
                } else if self.balance(accounts.tipper) < amount {
                    Some(TransitionError::InsufficientFunds)
                } else if held(debited, accounts.creator_wallet) + amount > u64::MAX {
                    Some(TransitionError::BalanceOverflow)
                } else {
                    match slot {
                        None => Some(TransitionError::NoViableAddress),
                        Some((address, _)) => if self.records.contains_key(address) {
                            Some(TransitionError::AddressInUse)
                        } else if !counters_take(c.tip_count, c.total_tips, amount) {
                            Some(TransitionError::Program(TipfinityError::Overflow))
                        } else {
                            None
                        },
                    }
                }
            },
        }
    }

    /// The ledger after a request to record a tip with its record at the
    /// derived address `slot`. Where the request is refused, the ledger is
    /// as it was. Otherwise the value has moved, the tip record lies at the
    /// address, the creator record counts the tip, and the notice is the
    /// last one sent.
    pub open spec fn after_tip_at(
        self,
        slot: Option<(Seq<u8>, u8)>,
        accounts: TipView,
        amount: nat,
        message: Option<Seq<char>>,
        timestamp: int,
    ) -> LedgerView {
        if self.tip_failure_at(slot, accounts, amount, message) is None {
            LedgerView {
                records: self.records.insert(
                    slot.unwrap().0,
                    RecordView::Tip(
                        TipMetadataView {
                            creator: accounts.creator,
                            tipper: accounts.tipper,
                            amount,
                            timestamp,
                            message,
                            bump: slot.unwrap().1,
                        },
                    ),
                ).insert(
                    accounts.creator,
                    RecordView::Creator(self.creator(accounts.creator).unwrap().tipped(amount)),
                ),
                balances: moved(self.balances, accounts.tipper, accounts.creator_wallet, amount),
                events: self.events.push(
                    TipEventView {
                        creator: accounts.creator_wallet,
                        tipper: accounts.tipper,
                        amount,
                        message,
                    },
                ),
            }
        } else {
            self
        }
    }

    /// Why a request to record a tip is refused, if it is.
    pub open spec fn tip_failure(
        self,
        accounts: TipView,
        amount: nat,
        message: Option<Seq<char>>,
    ) -> Option<TransitionError> {
        self.tip_failure_at(self.tip_slot(accounts.creator), accounts, amount, message)
    }

    /// The ledger after a request to record a tip.
    pub open spec fn after_tip(
        self,
        accounts: TipView,
        amount: nat,
        message: Option<Seq<char>>,
        timestamp: int,
    ) -> LedgerView {
        self.after_tip_at(self.tip_slot(accounts.creator), accounts, amount, message, timestamp)
    }
}

/// The sum of a creator's tips is the same in two ledgers that agree on
/// the amount of each of them.
pub proof fn lemma_tips_total_agrees(a: LedgerView, b: LedgerView, creator: Seq<u8>, count: nat)
    requires
        count <= u64::MAX + 1,
        forall|i: u64| (i as nat) < count ==> #[trigger] a.tip_amount(creator, i) == b.tip_amount(
            creator,
            i,
        ),
    ensures
        a.tips_total(creator, count) == b.tips_total(creator, count),
    decreases count,
{
    if count > 0 {
        lemma_tips_total_agrees(a, b, creator, (count - 1) as nat);
        assert(a.tip_amount(creator, (count - 1) as u64) == b.tip_amount(
            creator,
            (count - 1) as u64,
        ));
    }
}

/// Adding to what a wallet holds keeps the ledger well formed.
pub proof fn lemma_deposit_keeps_wf(pre: LedgerView, who: Seq<u8>, amount: nat)
    requires
        pre.wf(),
    ensures
        pre.after_deposit(who, amount).wf(),
{
    let post = pre.after_deposit(who, amount);
    assert forall|a: Seq<u8>| #[trigger] post.creator(a) == pre.creator(a) by {}
    assert forall|a: Seq<u8>| #[trigger] post.tip_record(a) == pre.tip_record(a) by {}
    assert forall|a: Seq<u8>| #[trigger] post.creator(a) is Some implies post.creator(
        a,
    ).unwrap().total_tips == post.tips_total(a, post.creator(a).unwrap().tip_count) by {
        lemma_tips_total_agrees(pre, post, a, pre.creator(a).unwrap().tip_count);
    }
}

/// Registering a creator keeps the ledger well formed.
pub proof fn lemma_register_keeps_wf(pre: LedgerView, authority: Seq<u8>, username: Seq<char>)
    requires
        pre.wf(),
    ensures
        pre.after_register(authority, username).wf(),
{
    let slot = creator_address_spec(authority);
    if pre.register_failure_at(slot, username) is None {
        let address = slot.unwrap().0;
        let post = pre.after_register(authority, username);
        assert forall|a: Seq<u8>| #[trigger] post.creator(a) is Some implies {
            let c = post.creator(a).unwrap();
            &&& creator_address_spec(c.owner) matches Some((at, _)) && at == a
            &&& c.tip_count <= u64::MAX
            &&& c.total_tips <= u64::MAX
            &&& c.total_tips == post.tips_total(a, c.tip_count)
        } by {
            if a != address {
                assert(post.creator(a) == pre.creator(a));
                let c = pre.creator(a).unwrap();
                assert forall|i: u64| (i as nat) < c.tip_count implies #[trigger] pre.tip_amount(
                    a,
                    i,
                ) == post.tip_amount(a, i) by {
                    let at = tip_address_spec(a, i).unwrap().0;
                    assert(pre.tip_record(at) is Some);
                    assert(post.tip_record(at) == pre.tip_record(at));
                }
                lemma_tips_total_agrees(pre, post, a, c.tip_count);
            }
        }
        assert forall|a: Seq<u8>, i: u64|
            post.creator(a) matches Some(c) && (i as nat) < c.tip_count implies {
                &&& #[trigger] tip_address_spec(a, i) matches Some((at, bump))
                &&& post.tip_record(at) matches Some(t)
                &&& t.creator == a
                &&& t.bump == bump
            } by {
            assert(a != address);
            assert(post.creator(a) == pre.creator(a));
            let at = tip_address_spec(a, i).unwrap().0;
            assert(pre.tip_record(at) is Some);
            assert(post.tip_record(at) == pre.tip_record(at));
        }
    }
}

/// Recording a tip keeps the ledger well formed.
pub proof fn lemma_tip_keeps_wf(
    pre: LedgerView,
    accounts: TipView,
    amount: nat,
    message: Option<Seq<char>>,
    timestamp: int,
)
    requires
        pre.wf(),
    ensures
        pre.after_tip(accounts, amount, message, timestamp).wf(),
{
    let slot = pre.tip_slot(accounts.creator);
    if pre.tip_failure_at(slot, accounts, amount, message) is None {
        let address = slot.unwrap().0;
        let home = accounts.creator;
        let before = pre.creator(home).unwrap();
        let post = pre.after_tip(accounts, amount, message, timestamp);
        assert(address != home);
        assert(post.creator(home) == Some(before.tipped(amount)));
        assert(post.tip_record(address) is Some);
        // Every tip that was counted before lies where it lay, as it was.
        assert forall|a: Seq<u8>, i: u64|
            pre.creator(a) matches Some(c) && (i as nat) < c.tip_count implies #[trigger] pre.tip_amount(
            a,
            i,
        ) == post.tip_amount(a, i) by {
            let at = tip_address_spec(a, i).unwrap().0;
            assert(pre.tip_record(at) is Some);
            assert(at != address);
            assert(at != home);
            assert(post.tip_record(at) == pre.tip_record(at));
        }
        assert forall|a: Seq<u8>| #[trigger] post.creator(a) is Some implies {
            let c = post.creator(a).unwrap();
            &&& creator_address_spec(c.owner) matches Some((at, _)) && at == a
            &&& c.tip_count <= u64::MAX
            &&& c.total_tips <= u64::MAX
            &&& c.total_tips == post.tips_total(a, c.tip_count)
        } by {
            if a != home {
                assert(a != address);
                assert(post.creator(a) == pre.creator(a));
                lemma_tips_total_agrees(pre, post, a, pre.creator(a).unwrap().tip_count);
            } else {
                assert(pre.creator(a) is Some);
                lemma_tips_total_agrees(pre, post, a, before.tip_count);
                assert(tip_address_spec(home, before.tip_count as u64) == slot);
                assert(post.tip_amount(home, before.tip_count as u64) == amount);
            }
        }
        assert forall|a: Seq<u8>, i: u64|
            post.creator(a) matches Some(c) && (i as nat) < c.tip_count implies {
                &&& #[trigger] tip_address_spec(a, i) matches Some((at, bump))
                &&& post.tip_record(at) matches Some(t)
                &&& t.creator == a
                &&& t.bump == bump
            } by {
            if a == home && i as nat == before.tip_count {
                assert(tip_address_spec(a, i) == slot);
            } else {
                if a != home {
                    assert(a != address);
                    assert(post.creator(a) == pre.creator(a));
                }
                let at = tip_address_spec(a, i).unwrap().0;
                assert(pre.tip_record(at) is Some);
                assert(at != address);
                assert(at != home);
                assert(post.tip_record(at) == pre.tip_record(at));
            }
        }
    }
}

/// The ledger: the records by address, the value that each wallet holds,
/// and the notices sent so far.
pub struct Ledger {
    records: AddressMap<Record>,
    balances: AddressMap<u64>,
    events: Vec<TipEvent>,
}

impl View for Ledger {
    type V = LedgerView;

    closed spec fn view(&self) -> LedgerView {
        LedgerView {
            records: self.records@,
            balances: self.balances@,
            events: self.events@.map_values(|e: TipEvent| e@),
        }
    }
}

impl Ledger {
    /// Whether the ledger is well formed: what it stands for is, and its
    /// two maps are.
    pub closed spec fn wf(&self) -> bool {
        &&& self.records.wf()
        &&& self.balances.wf()
        &&& self@.wf()
    }

    /// What a well-formed ledger stands for is well formed.
    pub proof fn lemma_wf_view(&self)
        requires
            self.wf(),
        ensures
            self@.wf(),
    {
    }

    /// The ledger on which nothing has happened.
    pub fn new() -> (ledger: Ledger)
        ensures
            ledger.wf(),
            ledger@ == LedgerView::empty(),
    {
        let ledger = Ledger {
            records: AddressMap::new(),
            balances: AddressMap::new(),
            events: Vec::new(),
        };
        assert(ledger@.events =~= Seq::empty());
        ledger
    }

    /// The creator record at `address`, if one lies there.
    pub fn creator(&self, address: &Pubkey) -> (found: Option<Creator>)
        requires
            self.wf(),
        ensures
            match found {
                Some(c) => self@.creator(address@) == Some(c@),
                None => self@.creator(address@) is None,
            },
    {
        match self.records.get(address) {
            Some(Record::Creator(c)) => Some(*c),
            _ => None,
        }
    }

    /// The tip record at `address`, if one lies there.
    pub fn tip_record(&self, address: &Pubkey) -> (found: Option<&TipMetadata>)
        requires
            self.wf(),
        ensures
            match found {
                Some(t) => self@.tip_record(address@) == Some(t@),
                None => self@.tip_record(address@) is None,
            },
    {
        match self.records.get(address) {
            Some(Record::Tip(t)) => Some(t),
            _ => None,
        }
    }

    /// The value that `who` holds.
    pub fn balance(&self, who: &Pubkey) -> (value: u64)
        requires
            self.wf(),
        ensures
            value == self@.balance(who@),
    {
        match self.balances.get(who) {
            Some(value) => *value,
            None => 0,
        }
    }

    /// The notices sent so far, oldest first.
    pub fn events(&self) -> (sent: &Vec<TipEvent>)
        ensures
            sent@.len() == self@.events.len(),
            forall|i: int| 0 <= i < sent@.len() ==> (#[trigger] sent@[i])@ == self@.events[i],
    {
        &self.events
    }

    /// Adds `amount` to what `who` holds, unless the sum would leave the
    /// unsigned 64-bit range: then nothing changes.
    pub fn deposit(&mut self, who: &Pubkey, amount: u64) -> (r: Result<(), TransitionError>)
        requires
            old(self).wf(),
        ensures
            final(self).wf(),
            final(self)@ == old(self)@.after_deposit(who@, amount as nat),
            match old(self)@.deposit_failure(who@, amount as nat) {
                Some(e) => r == Err::<(), TransitionError>(e),
                None => r == Ok::<(), TransitionError>(()),
            },
    {
        let before = self.balance(who);
        if before > u64::MAX - amount {
            return Err(TransitionError::BalanceOverflow);
        }
        proof {
            lemma_deposit_keeps_wf(self@, who@, amount as nat);
        }
        self.balances.insert(*who, before + amount);
        Ok(())
    }

    /// Registers `authority` as a creator under `username`, at the address
    /// `slot` that was derived for the authority.
    ///
    /// On success the new creator record lies at the address, which is
    /// returned. A refusal leaves the ledger as it was.
    pub fn register_at(
        &mut self,
        slot: Option<(Pubkey, u8)>,
        authority: &Pubkey,
        username: String,
    ) -> (r: Result<Pubkey, TransitionError>)
        requires
            old(self).wf(),
            address_view(slot) == creator_address_spec(authority@),
        ensures
            final(self).wf(),
            final(self)@ == old(self)@.after_register_at(
                address_view(slot),
                authority@,
                username@,
            ),
            match old(self)@.register_failure_at(address_view(slot), username@) {
                Some(e) => r == Err::<Pubkey, TransitionError>(e),
                None => r == Ok::<Pubkey, TransitionError>(slot.unwrap().0),
            },
    {
        let mut ctx = InitializeCreator { authority: *authority, creator: Creator::blank() };
        match crate::instructions::initialize_creator::handle(&mut ctx, username) {
            Err(e) => {
                return Err(TransitionError::Program(e));
            },
            Ok(_) => {},
        }
        let (address, _bump) = match slot {
            None => {
                return Err(TransitionError::NoViableAddress);
            },
            Some(found) => found,
        };
        if self.records.contains(&address) {
            return Err(TransitionError::AddressInUse);
        }
        proof {
            lemma_register_keeps_wf(self@, authority@, username@);
        }
        self.records.insert(address, Record::Creator(ctx.creator));
        Ok(address)
    }

    /// Records a tip of `amount` on the accounts named, with its record at
    /// the address `slot` that was derived for the creator's next tip.
    ///
    /// On success the value has moved from the tipper to the creator's
    /// wallet, the tip record lies at the address, the creator record counts
    /// one more tip and `amount` more value, and the notice is the last one
    /// sent. The receipt gives the address and the counters after the tip. A
    /// refusal leaves the ledger as it was.
    pub fn tip_at(
        &mut self,
        slot: Option<(Pubkey, u8)>,
        accounts: Tip,
        amount: u64,
        message: Option<String>,
        timestamp: i64,
    ) -> (r: Result<TipReceipt, TransitionError>)
        requires
            old(self).wf(),
            address_view(slot) == old(self)@.tip_slot(accounts.creator@),
        ensures
            final(self).wf(),
            final(self)@ == old(self)@.after_tip_at(
                address_view(slot),
                accounts@,
                amount as nat,
                message_view(message),
                timestamp as int,
            ),
            match old(self)@.tip_failure_at(
                address_view(slot),
                accounts@,
                amount as nat,
                message_view(message),
            ) {
                Some(e) => r == Err::<TipReceipt, TransitionError>(e),
                None => {
                    &&& r matches Ok(receipt)
                    &&& receipt.tip == slot.unwrap().0
                    &&& final(self)@.creator(accounts.creator@) matches Some(after)
                    &&& receipt.tip_count == after.tip_count
                    &&& receipt.total_tips == after.total_tips
                },
            },
    {
        let creator = match self.creator(&accounts.creator) {
            None => {
                return Err(TransitionError::UnknownCreator);
            },
            Some(c) => c,
        };
        let mut ctx = SendTip {
            tipper: accounts.tipper,
            creator_key: accounts.creator,
            creator,
            creator_wallet: accounts.creator_wallet,
            tip: TipMetadata::blank(),
            bump: 0,
        };
        match ctx.validate(amount, &message) {
            Err(e) => {
                return Err(e);
            },
            Ok(_) => {},
        }
        let paid_from = self.balance(&accounts.tipper);
        if paid_from < amount {
            return Err(TransitionError::InsufficientFunds);
        }
        let paid_to = if accounts.creator_wallet == accounts.tipper {
            paid_from - amount
        } else {
            self.balance(&accounts.creator_wallet)
        };
        if paid_to > u64::MAX - amount {
            return Err(TransitionError::BalanceOverflow);
        }
        let (address, bump) = match slot {
            None => {
                return Err(TransitionError::NoViableAddress);
            },
            Some(found) => found,
        };
        if self.records.contains(&address) {
            return Err(TransitionError::AddressInUse);
        }
        ctx.bump = bump;
        let event = match crate::instructions::tip::handle(&mut ctx, amount, message, timestamp) {
            Err(e) => {
                return Err(e);
            },
            Ok(event) => event,
        };
        proof {
            lemma_tip_keeps_wf(
                self@,
                accounts@,
                amount as nat,
                message_view(message),
                timestamp as int,
            );
        }
        let receipt = TipReceipt {
            tip: address,
            tip_count: ctx.creator.tip_count,
            total_tips: ctx.creator.total_tips,
        };
        self.balances.insert(accounts.tipper, paid_from - amount);
        self.balances.insert(accounts.creator_wallet, paid_to + amount);
        self.records.insert(address, Record::Tip(ctx.tip));
        self.records.insert(accounts.creator, Record::Creator(ctx.creator));
        self.events.push(event);
        proof {
            let post = old(self)@.after_tip_at(
                address_view(slot),
                accounts@,
                amount as nat,
                message_view(message),
                timestamp as int,
            );
            assert(self@.events =~= post.events);
            assert(self@.balances =~= post.balances);
            assert(self@.records =~= post.records);
        }
        Ok(receipt)
    }
}

/// Registers `authority` as a creator under `username`.
///
/// The record is created at the address derived from the authority, so a
/// second registration of the same identity finds the address occupied and
/// is refused. On success the address of the new record is returned. A
/// refusal leaves the ledger as it was.
pub fn initialize_creator(ledger: &mut Ledger, authority: &Pubkey, username: String) -> (r: Result<
    Pubkey,
    TransitionError,
>)
    requires
        old(ledger).wf(),
    ensures
        final(ledger).wf(),
        final(ledger)@ == old(ledger)@.after_register(authority@, username@),
        match old(ledger)@.register_failure(authority@, username@) {
            Some(e) => r == Err::<Pubkey, TransitionError>(e),
            None => {
                &&& r matches Ok(address)
                &&& creator_address_spec(authority@) matches Some(found)
                &&& address@ == found.0
            },
        },
{
    let slot = creator_address(authority);
    ledger.register_at(slot, authority, username)
}

/// Records a tip of `amount` from `accounts.tipper` to the creator whose
/// record lies at `accounts.creator`.
///
/// The tip record is created at the address derived from the creator
/// record's address and its tip count before the tip. On success the receipt
/// gives that address and the creator's counters after the tip. A refusal
/// leaves the ledger as it was.
pub fn tip(
    ledger: &mut Ledger,
    accounts: Tip,
    amount: u64,
    message: Option<String>,
    timestamp: i64,
) -> (r: Result<TipReceipt, TransitionError>)
    requires
        old(ledger).wf(),
    ensures
        final(ledger).wf(),
        final(ledger)@ == old(ledger)@.after_tip(
            accounts@,
            amount as nat,
            message_view(message),
            timestamp as int,
        ),
        match old(ledger)@.tip_failure(accounts@, amount as nat, message_view(message)) {
            Some(e) => r == Err::<TipReceipt, TransitionError>(e),
            None => {
                &&& r matches Ok(receipt)
                &&& old(ledger)@.tip_slot(accounts.creator@) matches Some(found)
                &&& receipt.tip@ == found.0
                &&& final(ledger)@.creator(accounts.creator@) matches Some(after)
                &&& receipt.tip_count == after.tip_count
                &&& receipt.total_tips == after.total_tips
            },
        },
{
    let slot = match ledger.creator(&accounts.creator) {
        Some(c) => tip_address(&accounts.creator, c.tip_count),
        None => None,
    };
    ledger.tip_at(slot, accounts, amount, message, timestamp)
}

} // verus!
