//! Transactions to commit, with what they do to the ledger.

use vstd::prelude::*;
use crate::address::{same_bytes, vec_of, AccountAddress, ADDRESS_LENGTH};
use crate::codec::CanonicalSerialize;
use crate::codec::views;
use crate::convert::{from_proto_all, into_proto_all, FromProto, IntoProto};
use crate::convert::{read_all, written_all};
use crate::error::Error;
use crate::event::{clone_events, ContractEvent};
use crate::event::{lemma_valid_events, valid_events, EventView};
use crate::fields::{
    transactions_to_commit_are_read_by_field, transactions_to_commit_are_written_by_field,
};
use crate::laws::transaction_to_commit_message_round_trip;
use crate::proto::{account_states_in, events_in};
use crate::proto::{repeated_account_states, repeated_events, take_account_states, take_events};
use crate::proto::{AccountStateProto, TransactionToCommitProto};
use crate::proto::{AccountStateMessage, TransactionToCommitMessage};
use crate::show::{append_items, shown_text, wants_lines, write_shown, write_text, Shown};
use crate::show::{asks_for_lines, items_shown, text_in};
use crate::status::StatusCode;
use crate::text::{append_hex, append_indented};
use crate::text::{hex, indented};
use crate::transaction::SignedTransaction;
use crate::transaction::SignedTransactionView;

verus! {

// ---------------------------------------------------------------------------------------------
// Account states
// ---------------------------------------------------------------------------------------------

/// The state of an account, as bytes.
#[derive(PartialEq, Eq)]
pub struct AccountStateBlob {
    pub blob: Vec<u8>,
}

impl View for AccountStateBlob {
    type V = Seq<u8>;

    open spec fn view(&self) -> Seq<u8> {
        self.blob@
    }
}

impl Clone for AccountStateBlob {
    fn clone(&self) -> (r: AccountStateBlob)
        ensures
            r@ == self@,
    {
        AccountStateBlob { blob: vec_of(self.blob.as_slice()) }
    }
}

impl Shown for AccountStateBlob {
    open spec fn shown(v: Seq<u8>) -> Seq<char> {
        hex(v)
    }

    fn append_shown(&self, out: &mut String) {
        append_hex(out, self.blob.as_slice());
    }
}

impl core::fmt::Debug for AccountStateBlob {
    fn fmt(&self, f: &mut core::fmt::Formatter<'_>) -> (r: core::fmt::Result)
        ensures
            r is Ok ==> text_in(*final(f)) == text_in(*old(f)) + AccountStateBlob::shown(self@),
    {
        write_shown(self, f)
    }
}

/// An account and its state.
#[derive(PartialEq, Eq)]
pub struct AccountState {
    pub address: AccountAddress,
    pub blob: AccountStateBlob,
}

/// What the state of an account holds.
pub ghost struct AccountStateView {
    pub address: Seq<u8>,
    pub blob: Seq<u8>,
}

impl View for AccountState {
    type V = AccountStateView;

    open spec fn view(&self) -> AccountStateView {
        AccountStateView { address: self.address@, blob: self.blob@ }
    }
}

impl Clone for AccountState {
    fn clone(&self) -> (r: AccountState)
        ensures
            r@ == self@,
    {
        AccountState { address: self.address, blob: self.blob.clone() }
    }
}

impl Shown for AccountState {
    open spec fn shown(v: AccountStateView) -> Seq<char> {
        hex(v.address) + ": "@ + hex(v.blob)
    }

    fn append_shown(&self, out: &mut String) {
        append_hex(out, self.address.as_bytes());
        out.append(": ");
        append_hex(out, self.blob.blob.as_slice());
        assert(out@ =~= old(out)@ + Self::shown(self@));
    }
}

impl core::fmt::Debug for AccountState {
    fn fmt(&self, f: &mut core::fmt::Formatter<'_>) -> (r: core::fmt::Result)
        ensures
            r is Ok ==> text_in(*final(f)) == text_in(*old(f)) + AccountState::shown(self@),
    {
        write_shown(self, f)
    }
}

impl FromProto for AccountState {
    type ProtoType = AccountStateProto;

    open spec fn read(object: AccountStateMessage) -> Result<AccountStateView, Error> {
        match AccountAddress::read(object.address) {
            Ok(address) => Ok(AccountStateView { address, blob: object.blob }),
            Err(e) => Err(e),
        }
    }

    fn from_proto(object: AccountStateProto) -> (r: Result<Self, Error>) {
        let ghost message = object@;
        match AccountAddress::from_proto(object.address) {
            Ok(address) => Ok(
                AccountState { address, blob: AccountStateBlob { blob: object.blob } },
            ),
            Err(e) => Err(e),
        }
    }
}

impl IntoProto for AccountState {
    type ProtoType = AccountStateProto;

    open spec fn written(v: AccountStateView) -> AccountStateMessage {
        AccountStateMessage { address: v.address, blob: v.blob }
    }

    fn into_proto(self) -> (r: AccountStateProto) {
        let object = AccountStateProto {
            address: self.address.into_proto(),
            blob: self.blob.blob,
        };
        let ghost message = object@;
        object
    }
}

/// Every address is as long as addresses are.
pub open spec fn valid_accounts(s: Seq<AccountStateView>) -> bool {
    forall|i: int| 0 <= i < s.len() ==> (#[trigger] s[i]).address.len() == ADDRESS_LENGTH
}

/// Every address is always as long as addresses are.
pub proof fn lemma_valid_accounts(states: Seq<AccountState>)
    ensures
        valid_accounts(views(states)),
{
    assert forall|i: int| 0 <= i < states.len() implies (#[trigger] views(states)[i]).address.len()
        == ADDRESS_LENGTH by {
        states[i].address.lemma_length();
    }
}

/// No two of the states are for the same account.
pub open spec fn distinct_accounts(s: Seq<AccountStateView>) -> bool {
    forall|i: int, j: int| 0 <= i < j < s.len() ==> s[i].address != s[j].address
}

/// The state of each account; of two states for one account the later one counts.
pub open spec fn state_map(s: Seq<AccountStateView>) -> Map<Seq<u8>, Seq<u8>>
    decreases s.len(),
{
    if s.len() == 0 {
        Map::empty()
    } else {
        state_map(s.drop_last()).insert(s.last().address, s.last().blob)
    }
}

/// The map has the accounts of the list, and no others.
pub proof fn lemma_state_map_accounts(s: Seq<AccountStateView>, address: Seq<u8>)
    ensures
        state_map(s).contains_key(address) <==> exists|i: int|
            0 <= i < s.len() && #[trigger] s[i].address == address,
    decreases s.len(),
{
    if s.len() > 0 {
        let before = s.drop_last();
        lemma_state_map_accounts(before, address);
        if s.last().address == address {
            assert(s[s.len() - 1].address == address);
        } else if state_map(before).contains_key(address) {
            let i = choose|i: int| 0 <= i < before.len() && #[trigger] before[i].address == address;
            assert(s[i].address == address);
        }
        if exists|i: int| 0 <= i < s.len() && #[trigger] s[i].address == address {
            let i = choose|i: int| 0 <= i < s.len() && #[trigger] s[i].address == address;
            if i < s.len() - 1 {
                assert(before[i].address == address);
            }
        }
    }
}

/// Where no account occurs twice, the map has for each account the state in the list.
pub proof fn lemma_state_map_states(s: Seq<AccountStateView>, i: int)
    requires
        distinct_accounts(s),
        0 <= i < s.len(),
    ensures
        state_map(s).contains_key(s[i].address),
        state_map(s)[s[i].address] == s[i].blob,
    decreases s.len(),
{
    if i < s.len() - 1 {
        lemma_state_map_states(s.drop_last(), i);
        assert(s.drop_last()[i] == s[i]);
        assert(s[i].address != s[s.len() - 1].address);
    }
}

/// The map has as many accounts as the list has states exactly where no account occurs twice.
pub proof fn lemma_state_map_size(s: Seq<AccountStateView>)
    ensures
        state_map(s).dom().finite(),
        state_map(s).dom().len() <= s.len(),
        state_map(s).dom().len() == s.len() <==> distinct_accounts(s),
    decreases s.len(),
{
    if s.len() > 0 {
        let before = s.drop_last();
        let address = s.last().address;
        lemma_state_map_size(before);
        lemma_state_map_accounts(before, address);
        assert(state_map(s).dom() =~= state_map(before).dom().insert(address));
        if distinct_accounts(s) {
            assert forall|i: int, j: int| 0 <= i < j < before.len() implies before[i].address
                != before[j].address by {
                assert(s[i].address != s[j].address);
            }
            if state_map(before).contains_key(address) {
                let i = choose|i: int|
                    0 <= i < before.len() && #[trigger] before[i].address == address;
                assert(s[i].address != s[s.len() - 1].address);
            }
        } else {
            let (i, j) = choose|i: int, j: int|
                0 <= i < j < s.len() && s[i].address == s[j].address;
            if j < s.len() - 1 {
                assert(before[i].address == before[j].address);
                assert(!distinct_accounts(before));
            } else {
                assert(before[i].address == address);
            }
        }
    }
}

/// The states of several accounts, one for each.
pub struct AccountStates {
    entries: Vec<AccountState>,
}

impl View for AccountStates {
    type V = Seq<AccountStateView>;

    closed spec fn view(&self) -> Seq<AccountStateView> {
        views(self.entries@)
    }
}

impl AccountStates {
    #[verifier::type_invariant]
    spec fn no_duplication(self) -> bool {
        distinct_accounts(views(self.entries@))
    }

    /// No account has a state yet.
    pub fn new() -> (r: AccountStates)
        ensures
            r@ == Seq::<AccountStateView>::empty(),
            state_map(r@) == Map::<Seq<u8>, Seq<u8>>::empty(),
    {
        let r = AccountStates { entries: Vec::new() };
        assert(r@ =~= Seq::empty());
        r
    }

    /// The states in the list, which is refused where an account occurs twice.
    pub fn from_entries(entries: Vec<AccountState>) -> (r: Result<AccountStates, Error>)
        ensures
            distinct_accounts(views(entries@)) ==> r is Ok && r->Ok_0@ == views(entries@),
            !distinct_accounts(views(entries@)) ==> r == Err::<AccountStates, Error>(
                Error::DuplicateAccount,
            ),
    {
        let ghost all = views(entries@);
        let mut j: usize = 0;
        while j < entries.len()
            invariant
                j <= entries@.len(),
                all == views(entries@),
                distinct_accounts(all.take(j as int)),
            decreases entries@.len() - j,
        {
            let mut i: usize = 0;
            while i < j
                invariant
                    i <= j < entries@.len(),
                    all == views(entries@),
                    distinct_accounts(all.take(j as int)),
                    forall|k: int| 0 <= k < i ==> (#[trigger] all[k]).address != all[j as int].address,
                decreases j - i,
            {
                if entries[i].address.same_as(&entries[j].address) {
                    assert(all[i as int].address == all[j as int].address);
                    return Err(Error::DuplicateAccount);
                }
                i = i + 1;
            }
            proof {
                let upto = all.take(j as int);
                let next = all.take(j + 1);
                assert forall|a: int, b: int| 0 <= a < b < next.len() implies next[a].address
                    != next[b].address by {
                    if b < j {
                        assert(upto[a].address != upto[b].address);
                    } else {
                        assert(all[a].address != all[j as int].address);
                    }
                }
            }
            j = j + 1;
        }
        assert(all.take(j as int) =~= all);
        Ok(AccountStates { entries })
    }

    /// How many accounts have a state.
    pub fn len(&self) -> (r: usize)
        ensures
            r == self@.len(),
            r == state_map(self@).dom().len(),
    {
        proof {
            use_type_invariant(self);
            lemma_state_map_size(self@);
        }
        self.entries.len()
    }

    /// The states, in the order in which their accounts were first given one.
    pub fn entries(&self) -> (r: &[AccountState])
        ensures
            views(r@) == self@,
            distinct_accounts(self@),
    {
        proof {
            use_type_invariant(self);
        }
        self.entries.as_slice()
    }

    /// Where the state of an account stands.
    fn position(&self, address: &AccountAddress) -> (r: Option<usize>)
        ensures
            match r {
                Some(i) => i < self@.len() && self@[i as int].address == address@,
                None => forall|i: int|
                    0 <= i < self@.len() ==> (#[trigger] self@[i]).address != address@,
            },
    {
        let mut i: usize = 0;
        while i < self.entries.len()
            invariant
                i <= self.entries@.len(),
                forall|k: int| 0 <= k < i ==> (#[trigger] self@[k]).address != address@,
            decreases self.entries@.len() - i,
        {
            if self.entries[i].address.same_as(address) {
                return Some(i);
            }
            i = i + 1;
        }
        None
    }

    /// The state of an account, if it has one.
    pub fn get(&self, address: &AccountAddress) -> (r: Option<&AccountStateBlob>)
        ensures
            match r {
                Some(blob) => state_map(self@).contains_key(address@) && blob@ == state_map(
                    self@,
                )[address@],
                None => !state_map(self@).contains_key(address@),
            },
    {
        proof {
            use_type_invariant(self);
            lemma_state_map_accounts(self@, address@);
        }
        match self.position(address) {
            Some(i) => {
                proof {
                    lemma_state_map_states(self@, i as int);
                }
                Some(&self.entries[i].blob)
            },
            None => None,
        }
    }

    /// Gives an account a state, in place of the one that it had, if any.
    pub fn insert(&mut self, address: AccountAddress, blob: AccountStateBlob)
        ensures
            state_map(final(self)@) == state_map(old(self)@).insert(address@, blob@),
            forall|i: int|
                0 <= i < old(self)@.len() && (#[trigger] old(self)@[i]).address == address@
                    ==> final(self)@ == old(self)@.update(
                    i,
                    (AccountStateView { address: address@, blob: blob@ }),
                ),
            !state_map(old(self)@).contains_key(address@) ==> final(self)@ == old(self)@.push(
                (AccountStateView { address: address@, blob: blob@ }),
            ),
    {
        proof {
            use_type_invariant(&*self);
        }
        let ghost before = self@;
        let ghost state = AccountStateView { address: address@, blob: blob@ };
        proof {
            lemma_state_map_accounts(before, address@);
        }
        let place = self.position(&address);
        let mut entries: Vec<AccountState> = Vec::new();
        core::mem::swap(&mut entries, &mut self.entries);
        match place {
            Some(i) => {
                entries.set(i, AccountState { address, blob });
                proof {
                    assert(views(entries@) =~= before.update(i as int, state));
                    assert(distinct_accounts(before.update(i as int, state)));
                    lemma_state_map_update(before, i as int, state);
                }
            },
            None => {
                entries.push(AccountState { address, blob });
                proof {
                    assert(views(entries@) =~= before.push(state));
                    assert(before.push(state).drop_last() =~= before);
                }
            },
        }
        self.entries = entries;
    }
}

impl Clone for AccountStates {
    fn clone(&self) -> (r: AccountStates)
        ensures
            r@ == self@,
    {
        proof {
            use_type_invariant(self);
        }
        let entries = self.entries.clone();
        assert(views(entries@) =~= views(self.entries@));
        AccountStates { entries }
    }
}

/// To replace the state of an account in the list is to replace it in the map.
proof fn lemma_state_map_update(s: Seq<AccountStateView>, i: int, state: AccountStateView)
    requires
        distinct_accounts(s),
        0 <= i < s.len(),
        s[i].address == state.address,
    ensures
        state_map(s.update(i, state)) == state_map(s).insert(state.address, state.blob),
    decreases s.len(),
{
    let before = s.drop_last();
    let after = s.update(i, state);
    if i == s.len() - 1 {
        assert(after.drop_last() =~= before);
        assert(state_map(after) =~= state_map(s).insert(state.address, state.blob));
    } else {
        assert(after.drop_last() =~= before.update(i, state));
        assert(before[i] == s[i]);
        lemma_state_map_update(before, i, state);
        assert(s[i].address != s[s.len() - 1].address);
        assert(state_map(after) =~= state_map(s).insert(state.address, state.blob));
    }
}

/// Every account of `a` has the same state in `b`.
pub open spec fn same_states(a: Map<Seq<u8>, Seq<u8>>, b: Map<Seq<u8>, Seq<u8>>) -> bool {
    forall|address: Seq<u8>| #[trigger]
        a.contains_key(address) ==> b.contains_key(address) && a[address] == b[address]
}

impl AccountStates {
    /// Whether every account has the same state in `other`.
    fn is_part_of(&self, other: &AccountStates) -> (r: bool)
        ensures
            r == same_states(state_map(self@), state_map(other@)),
    {
        proof {
            use_type_invariant(self);
        }
        let ghost a = state_map(self@);
        let ghost b = state_map(other@);
        let mut i: usize = 0;
        while i < self.entries.len()
            invariant
                i <= self.entries@.len(),
                distinct_accounts(self@),
                a == state_map(self@),
                b == state_map(other@),
                forall|k: int|
                    0 <= k < i ==> b.contains_key((#[trigger] self@[k]).address)
                        && b[self@[k].address] == self@[k].blob,
            decreases self.entries@.len() - i,
        {
            let entry = &self.entries[i];
            proof {
                lemma_state_map_states(self@, i as int);
            }
            let same = match other.get(&entry.address) {
                Some(blob) => same_bytes(blob.blob.as_slice(), entry.blob.blob.as_slice()),
                None => false,
            };
            if !same {
                assert(a.contains_key(entry@.address));
                return false;
            }
            i = i + 1;
        }
        proof {
            assert forall|address: Seq<u8>| #[trigger] a.contains_key(address) implies b.contains_key(
                address,
            ) && a[address] == b[address] by {
                lemma_state_map_accounts(self@, address);
                let k = choose|k: int|
                    0 <= k < self@.len() && #[trigger] self@[k].address == address;
                lemma_state_map_states(self@, k);
            }
        }
        true
    }
}

impl PartialEq for AccountStates {
    /// The order of the accounts does not matter.
    fn eq(&self, other: &AccountStates) -> (r: bool) {
        let r = self.is_part_of(other) && other.is_part_of(self);
        assert(r ==> state_map(self@) =~= state_map(other@));
        r
    }
}

impl vstd::std_specs::cmp::PartialEqSpecImpl for AccountStates {
    open spec fn obeys_eq_spec() -> bool {
        true
    }

    open spec fn eq_spec(&self, other: &AccountStates) -> bool {
        state_map(self@) == state_map(other@)
    }
}

impl Eq for AccountStates {

}

/// The states, each on a line of its own.
pub open spec fn state_lines(s: Seq<AccountStateView>) -> Seq<char>
    decreases s.len(),
{
    if s.len() == 0 {
        Seq::empty()
    } else {
        state_lines(s.drop_last()) + indented(AccountState::shown(s.last()) + ",\n"@)
    }
}

/// The states as a map is shown: in one line, or each on a line of its own.
pub open spec fn states_text(s: Seq<AccountStateView>, on_lines: bool) -> Seq<char> {
    if on_lines && s.len() > 0 {
        "{\n"@ + state_lines(s) + "}"@
    } else {
        "{"@ + items_shown::<AccountState>(s) + "}"@
    }
}

impl AccountStates {
    /// The states as a map is shown: in one line, or each on a line of its own.
    pub fn text(&self, on_lines: bool) -> (r: String)
        ensures
            r@ == states_text(self@, on_lines),
    {
        let ghost all = views(self.entries@);
        let mut out = String::new();
        if on_lines && self.entries.len() > 0 {
            out.append("{\n");
            let ghost start = out@;
            let mut i: usize = 0;
            assert(out@ =~= start + state_lines(all.take(0)));
            while i < self.entries.len()
                invariant
                    i <= self.entries@.len(),
                    all == views(self.entries@),
                    out@ == start + state_lines(all.take(i as int)),
                decreases self.entries@.len() - i,
            {
                let mut line = shown_text(&self.entries[i]);
                line.append(",\n");
                append_indented(&mut out, line.as_str());
                proof {
                    let next = all.take(i + 1);
                    assert(next.drop_last() =~= all.take(i as int));
                    assert(next.last() == self.entries@[i as int]@);
                    assert(out@ =~= start + state_lines(next));
                }
                i = i + 1;
            }
            assert(all.take(i as int) =~= all);
            out.append("}");
        } else {
            out.append("{");
            append_items(&mut out, self.entries.as_slice());
            out.append("}");
        }
        assert(out@ =~= states_text(self@, on_lines));
        out
    }
}

impl core::fmt::Debug for AccountStates {
    fn fmt(&self, f: &mut core::fmt::Formatter<'_>) -> (r: core::fmt::Result)
        ensures
            r is Ok ==> text_in(*final(f)) == text_in(*old(f)) + states_text(
                self@,
                asks_for_lines(*old(f)),
            ),
    {
        let text = self.text(wants_lines(f));
        write_text(f, text.as_str())
    }
}

// ---------------------------------------------------------------------------------------------
// Transactions to commit
// ---------------------------------------------------------------------------------------------

/// A transaction to commit: the states that it leaves accounts in, the events that it emitted,
/// the gas that it used, and how it ended.
#[derive(Debug, PartialEq, Eq)]
pub struct TransactionToCommit {
    signed_txn: SignedTransaction,
    account_states: AccountStates,
    events: Vec<ContractEvent>,
    gas_used: u64,
    major_status: StatusCode,
}

/// What a transaction to commit holds.
pub ghost struct TransactionToCommitView {
    pub signed_txn: SignedTransactionView,
    pub account_states: Seq<AccountStateView>,
    pub events: Seq<EventView>,
    pub gas_used: u64,
    pub major_status: StatusCode,
}

impl TransactionToCommitView {
    /// The transaction can be encoded, the parts of fixed length have it, and no account occurs
    /// twice.
    pub open spec fn valid(self) -> bool {
        &&& SignedTransaction::encodable(self.signed_txn)
        &&& valid_accounts(self.account_states)
        &&& distinct_accounts(self.account_states)
        &&& valid_events(self.events)
    }

    /// The transaction with the fraction of a second taken off its expiration time.
    pub open spec fn whole_seconds(self) -> TransactionToCommitView {
        TransactionToCommitView { signed_txn: self.signed_txn.whole_seconds(), ..self }
    }
}

impl View for TransactionToCommit {
    type V = TransactionToCommitView;

    closed spec fn view(&self) -> TransactionToCommitView {
        TransactionToCommitView {
            signed_txn: self.signed_txn@,
            account_states: self.account_states@,
            events: views(self.events@),
            gas_used: self.gas_used,
            major_status: self.major_status,
        }
    }
}

impl Clone for TransactionToCommit {
    fn clone(&self) -> (r: TransactionToCommit)
        ensures
            r@ == self@,
    {
        TransactionToCommit {
            signed_txn: self.signed_txn.clone(),
            account_states: self.account_states.clone(),
            events: clone_events(&self.events),
            gas_used: self.gas_used,
            major_status: self.major_status,
        }
    }
}

impl TransactionToCommit {
    /// The transaction with these effects.
    pub fn new(
        signed_txn: SignedTransaction,
        account_states: AccountStates,
        events: Vec<ContractEvent>,
        gas_used: u64,
        major_status: StatusCode,
    ) -> (r: TransactionToCommit)
        ensures
            r@ == (TransactionToCommitView {
                signed_txn: signed_txn@,
                account_states: account_states@,
                events: views(events@),
                gas_used,
                major_status,
            }),
    {
        TransactionToCommit { signed_txn, account_states, events, gas_used, major_status }
    }

    /// The transaction.
    pub fn signed_txn(&self) -> (r: &SignedTransaction)
        ensures
            r@ == self@.signed_txn,
    {
        &self.signed_txn
    }

    /// The states that the transaction leaves accounts in.
    pub fn account_states(&self) -> (r: &AccountStates)
        ensures
            r@ == self@.account_states,
            distinct_accounts(self@.account_states),
    {
        let _entries = self.account_states.entries();
        &self.account_states
    }

    /// The events that the transaction emitted.
    pub fn events(&self) -> (r: &[ContractEvent])
        ensures
            views(r@) == self@.events,
    {
        self.events.as_slice()
    }

    /// The gas that the transaction used.
    pub fn gas_used(&self) -> (r: u64)
        ensures
            r == self@.gas_used,
    {
        self.gas_used
    }

    /// How the transaction ended.
    pub fn major_status(&self) -> (r: StatusCode)
        ensures
            r == self@.major_status,
    {
        self.major_status
    }
}

impl TransactionToCommit {
    /// What the message says, where `major_status` is what its status says.
    pub open spec fn read_with_status(
        object: TransactionToCommitMessage,
        major_status: Result<StatusCode, Error>,
    ) -> Result<TransactionToCommitView, Error> {
        match SignedTransaction::read(object.signed_txn) {
            Err(e) => Err(e),
            Ok(signed_txn) => match read_all::<AccountState>(object.account_states) {
                Err(e) => Err(e),
                Ok(account_states) => if !distinct_accounts(account_states) {
                    Err(Error::DuplicateAccount)
                } else {
                    match read_all::<ContractEvent>(object.events) {
                        Err(e) => Err(e),
                        Ok(events) => match major_status {
                            Err(e) => Err(e),
                            Ok(major_status) => Ok(
                                TransactionToCommitView {
                                    signed_txn,
                                    account_states,
                                    events,
                                    gas_used: object.gas_used,
                                    major_status,
                                },
                            ),
                        },
                    }
                },
            },
        }
    }

    /// Reads the message, where `major_status` is what reading its status gave. What is wrong with
    /// the transaction, the accounts or the events is named before a status that is none.
    pub fn from_proto_with_status(
        object: TransactionToCommitProto,
        major_status: Result<StatusCode, Error>,
    ) -> (r: Result<TransactionToCommit, Error>)
        ensures
            match TransactionToCommit::read_with_status(object@, major_status) {
                Ok(v) => r is Ok && r->Ok_0@ == v,
                Err(e) => r == Err::<TransactionToCommit, Error>(e),
            },
            r matches Ok(txn) ==> {
                &&& txn@.events.len() == events_in(object.events).len()
                &&& forall|i: int| #![trigger txn@.events[i]]
                    0 <= i < txn@.events.len() ==> ContractEvent::read(
                        events_in(object.events)[i]@,
                    ) == Ok::<EventView, Error>(txn@.events[i])
                &&& txn@.account_states.len() == account_states_in(object.account_states).len()
                &&& forall|i: int| #![trigger txn@.account_states[i]]
                    0 <= i < txn@.account_states.len() ==> AccountState::read(
                        account_states_in(object.account_states)[i]@,
                    ) == Ok::<AccountStateView, Error>(txn@.account_states[i])
                &&& txn@.gas_used == object.gas_used
            },
    {
        proof {
            transactions_to_commit_are_read_by_field(object@, major_status);
        }
        let signed_txn = match SignedTransaction::from_proto(object.signed_txn) {
            Ok(signed_txn) => signed_txn,
            Err(e) => return Err(e),
        };
        let entries = match from_proto_all::<AccountState>(
            take_account_states(object.account_states),
        ) {
            Ok(entries) => entries,
            Err(e) => return Err(e),
        };
        let account_states = match AccountStates::from_entries(entries) {
            Ok(account_states) => account_states,
            Err(e) => return Err(e),
        };
        let events = match from_proto_all::<ContractEvent>(take_events(object.events)) {
            Ok(events) => events,
            Err(e) => return Err(e),
        };
        let major_status = match major_status {
            Ok(major_status) => major_status,
            Err(e) => return Err(e),
        };
        Ok(
            TransactionToCommit {
                signed_txn,
                account_states,
                events,
                gas_used: object.gas_used,
                major_status,
            },
        )
    }
}

impl FromProto for TransactionToCommit {
    type ProtoType = TransactionToCommitProto;

    open spec fn read(object: TransactionToCommitMessage) -> Result<
        TransactionToCommitView,
        Error,
    > {
        TransactionToCommit::read_with_status(object, StatusCode::read(object.major_status))
    }

    /// The events and the account states stand at the places that they have in the message.
    fn from_proto(object: TransactionToCommitProto) -> (r: Result<Self, Error>)
        ensures
            r matches Ok(txn) ==> {
                &&& txn@.events.len() == events_in(object.events).len()
                &&& forall|i: int| #![trigger txn@.events[i]]
                    0 <= i < txn@.events.len() ==> ContractEvent::read(
                        events_in(object.events)[i]@,
                    ) == Ok::<EventView, Error>(txn@.events[i])
                &&& txn@.account_states.len() == account_states_in(object.account_states).len()
                &&& forall|i: int| #![trigger txn@.account_states[i]]
                    0 <= i < txn@.account_states.len() ==> AccountState::read(
                        account_states_in(object.account_states)[i]@,
                    ) == Ok::<AccountStateView, Error>(txn@.account_states[i])
                &&& txn@.gas_used == object.gas_used
                &&& txn@.major_status.code == object.major_status
            },
    {
        let ghost message = object@;
        let major_status = StatusCode::from_proto(object.major_status);
        TransactionToCommit::from_proto_with_status(object, major_status)
    }
}

impl IntoProto for TransactionToCommit {
    type ProtoType = TransactionToCommitProto;

    open spec fn written(v: TransactionToCommitView) -> TransactionToCommitMessage {
        TransactionToCommitMessage {
            signed_txn: SignedTransaction::written(v.signed_txn),
            account_states: written_all::<AccountState>(v.account_states),
            events: written_all::<ContractEvent>(v.events),
            gas_used: v.gas_used,
            major_status: StatusCode::written(v.major_status),
        }
    }

    /// Reading the message gives back the transaction, to the second. The events and the account
    /// states keep their places.
    fn into_proto(self) -> (r: TransactionToCommitProto)
        ensures
            TransactionToCommit::read(r@) == Ok::<TransactionToCommitView, Error>(
                self@.whole_seconds(),
            ),
            events_in(r.events).len() == self@.events.len(),
            forall|i: int| #![trigger self@.events[i]]
                0 <= i < self@.events.len() ==> events_in(r.events)[i]@ == ContractEvent::written(
                    self@.events[i],
                ),
            account_states_in(r.account_states).len() == self@.account_states.len(),
            forall|i: int| #![trigger self@.account_states[i]]
                0 <= i < self@.account_states.len() ==> account_states_in(r.account_states)[i]@
                    == AccountState::written(self@.account_states[i]),
            r.gas_used == self@.gas_used,
            r.major_status == self@.major_status.code,
    {
        proof {
            use_type_invariant(&self.account_states);
            lemma_valid_accounts(self.account_states.entries@);
            lemma_valid_events(self.events@);
        }
        let object = TransactionToCommitProto {
            signed_txn: self.signed_txn.into_proto(),
            account_states: repeated_account_states(into_proto_all(self.account_states.entries)),
            events: repeated_events(into_proto_all(self.events)),
            gas_used: self.gas_used,
            major_status: self.major_status.into_proto(),
        };
        let ghost message = object@;
        proof {
            transaction_to_commit_message_round_trip(self@);
            transactions_to_commit_are_written_by_field(self@);
            let (states, events) = (message.account_states, message.events);
            assert forall|i: int| #![trigger self@.events[i]] 0 <= i < self@.events.len() implies
                events_in(object.events)[i]@ == ContractEvent::written(self@.events[i]) by {
                assert(events[i] == events_in(object.events)[i]@);
            }
            assert forall|i: int| #![trigger self@.account_states[i]]
                0 <= i < self@.account_states.len() implies account_states_in(
                object.account_states,
            )[i]@ == AccountState::written(self@.account_states[i]) by {
                assert(states[i] == account_states_in(object.account_states)[i]@);
            }
        }
        object
    }
}

} // verus!
