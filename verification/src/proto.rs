//! The messages in which transactions travel.
//!
//! Repeated fields of messages are the `RepeatedField` of the `protobuf` crate; the siblings of a
//! path, which are byte strings, are a `Vec`. A field whose absence means something is an `Option`;
//! any other field that is absent reads as an empty one.

use vstd::prelude::*;
use protobuf::RepeatedField;
use crate::address::vec_of;
use crate::codec::views;

verus! {

// ---------------------------------------------------------------------------------------------
// Messages
// ---------------------------------------------------------------------------------------------

/// A signed transaction, in its canonical bytes.
#[derive(Debug, PartialEq, Eq)]
pub struct SignedTransactionProto {
    pub signed_txn: Vec<u8>,
}

impl View for SignedTransactionProto {
    type V = Seq<u8>;

    open spec fn view(&self) -> Seq<u8> {
        self.signed_txn@
    }
}

impl Clone for SignedTransactionProto {
    fn clone(&self) -> (r: SignedTransactionProto)
        ensures
            r@ == self@,
    {
        SignedTransactionProto { signed_txn: vec_of(self.signed_txn.as_slice()) }
    }
}

/// What came of a transaction.
#[derive(Debug, PartialEq, Eq)]
pub struct TransactionInfoProto {
    pub signed_transaction_hash: Vec<u8>,
    pub state_root_hash: Vec<u8>,
    pub event_root_hash: Vec<u8>,
    pub gas_used: u64,
    pub major_status: u64,
}

/// What a `TransactionInfoProto` holds.
pub ghost struct TransactionInfoMessage {
    pub signed_transaction_hash: Seq<u8>,
    pub state_root_hash: Seq<u8>,
    pub event_root_hash: Seq<u8>,
    pub gas_used: u64,
    pub major_status: u64,
}

impl View for TransactionInfoProto {
    type V = TransactionInfoMessage;

    open spec fn view(&self) -> TransactionInfoMessage {
        TransactionInfoMessage {
            signed_transaction_hash: self.signed_transaction_hash@,
            state_root_hash: self.state_root_hash@,
            event_root_hash: self.event_root_hash@,
            gas_used: self.gas_used,
            major_status: self.major_status,
        }
    }
}

impl Clone for TransactionInfoProto {
    fn clone(&self) -> (r: TransactionInfoProto)
        ensures
            r@ == self@,
    {
        TransactionInfoProto {
            signed_transaction_hash: vec_of(self.signed_transaction_hash.as_slice()),
            state_root_hash: vec_of(self.state_root_hash.as_slice()),
            event_root_hash: vec_of(self.event_root_hash.as_slice()),
            gas_used: self.gas_used,
            major_status: self.major_status,
        }
    }
}

/// An event.
#[derive(Debug, PartialEq, Eq)]
pub struct EventProto {
    pub key: Vec<u8>,
    pub sequence_number: u64,
    pub event_data: Vec<u8>,
}

/// What an `EventProto` holds.
pub ghost struct EventMessage {
    pub key: Seq<u8>,
    pub sequence_number: u64,
    pub event_data: Seq<u8>,
}

impl View for EventProto {
    type V = EventMessage;

    open spec fn view(&self) -> EventMessage {
        EventMessage {
            key: self.key@,
            sequence_number: self.sequence_number,
            event_data: self.event_data@,
        }
    }
}

impl Clone for EventProto {
    fn clone(&self) -> (r: EventProto)
        ensures
            r@ == self@,
    {
        EventProto {
            key: vec_of(self.key.as_slice()),
            sequence_number: self.sequence_number,
            event_data: vec_of(self.event_data.as_slice()),
        }
    }
}

/// The events of one transaction.
#[derive(Debug, PartialEq)]
pub struct EventsListProto {
    pub events: RepeatedField<EventProto>,
}

impl View for EventsListProto {
    type V = Seq<EventMessage>;

    open spec fn view(&self) -> Seq<EventMessage> {
        views(events_in(self.events))
    }
}

/// The events of several transactions.
#[derive(Debug, PartialEq)]
pub struct EventsForVersionsProto {
    pub events_for_version: RepeatedField<EventsListProto>,
}

impl View for EventsForVersionsProto {
    type V = Seq<Seq<EventMessage>>;

    open spec fn view(&self) -> Seq<Seq<EventMessage>> {
        views(events_lists_in(self.events_for_version))
    }
}

/// A path through an accumulator, by the hashes beside it.
#[derive(Debug, PartialEq, Eq)]
pub struct AccumulatorProofProto {
    pub siblings: Vec<Vec<u8>>,
}

impl View for AccumulatorProofProto {
    type V = Seq<Seq<u8>>;

    open spec fn view(&self) -> Seq<Seq<u8>> {
        views(self.siblings@)
    }
}

impl Clone for AccumulatorProofProto {
    fn clone(&self) -> (r: AccumulatorProofProto)
        ensures
            r@ == self@,
    {
        let siblings = self.siblings.clone();
        assert(views(siblings@) =~= views(self.siblings@));
        AccumulatorProofProto { siblings }
    }
}

/// The proof that a transaction is in a ledger.
#[derive(Debug, PartialEq, Eq)]
pub struct SignedTransactionProofProto {
    pub ledger_info_to_transaction_info_proof: AccumulatorProofProto,
    pub transaction_info: TransactionInfoProto,
}

/// What a `SignedTransactionProofProto` holds.
pub ghost struct SignedTransactionProofMessage {
    pub ledger_info_to_transaction_info_proof: Seq<Seq<u8>>,
    pub transaction_info: TransactionInfoMessage,
}

impl View for SignedTransactionProofProto {
    type V = SignedTransactionProofMessage;

    open spec fn view(&self) -> SignedTransactionProofMessage {
        SignedTransactionProofMessage {
            ledger_info_to_transaction_info_proof: self.ledger_info_to_transaction_info_proof@,
            transaction_info: self.transaction_info@,
        }
    }
}

impl Clone for SignedTransactionProofProto {
    fn clone(&self) -> (r: SignedTransactionProofProto)
        ensures
            r@ == self@,
    {
        SignedTransactionProofProto {
            ledger_info_to_transaction_info_proof:
                self.ledger_info_to_transaction_info_proof.clone(),
            transaction_info: self.transaction_info.clone(),
        }
    }
}

/// A signed transaction with the proof that it is in a ledger.
#[derive(Debug, PartialEq)]
pub struct SignedTransactionWithProofProto {
    pub version: u64,
    pub signed_transaction: SignedTransactionProto,
    pub proof: SignedTransactionProofProto,
    pub events: Option<EventsListProto>,
}

/// What a `SignedTransactionWithProofProto` holds.
pub ghost struct SignedTransactionWithProofMessage {
    pub version: u64,
    pub signed_transaction: Seq<u8>,
    pub proof: SignedTransactionProofMessage,
    pub events: Option<Seq<EventMessage>>,
}

impl View for SignedTransactionWithProofProto {
    type V = SignedTransactionWithProofMessage;

    open spec fn view(&self) -> SignedTransactionWithProofMessage {
        SignedTransactionWithProofMessage {
            version: self.version,
            signed_transaction: self.signed_transaction@,
            proof: self.proof@,
            events: option_view(self.events),
        }
    }
}

/// The state of an account.
#[derive(Debug, PartialEq, Eq)]
pub struct AccountStateProto {
    pub address: Vec<u8>,
    pub blob: Vec<u8>,
}

/// What an `AccountStateProto` holds.
pub ghost struct AccountStateMessage {
    pub address: Seq<u8>,
    pub blob: Seq<u8>,
}

impl View for AccountStateProto {
    type V = AccountStateMessage;

    open spec fn view(&self) -> AccountStateMessage {
        AccountStateMessage { address: self.address@, blob: self.blob@ }
    }
}

impl Clone for AccountStateProto {
    fn clone(&self) -> (r: AccountStateProto)
        ensures
            r@ == self@,
    {
        AccountStateProto { address: vec_of(self.address.as_slice()), blob: vec_of(self.blob.as_slice()) }
    }
}

/// A transaction to commit, with what it does to the ledger.
#[derive(Debug, PartialEq)]
pub struct TransactionToCommitProto {
    pub signed_txn: SignedTransactionProto,
    pub account_states: RepeatedField<AccountStateProto>,
    pub events: RepeatedField<EventProto>,
    pub gas_used: u64,
    pub major_status: u64,
}

/// What a `TransactionToCommitProto` holds.
pub ghost struct TransactionToCommitMessage {
    pub signed_txn: Seq<u8>,
    pub account_states: Seq<AccountStateMessage>,
    pub events: Seq<EventMessage>,
    pub gas_used: u64,
    pub major_status: u64,
}

impl View for TransactionToCommitProto {
    type V = TransactionToCommitMessage;

    open spec fn view(&self) -> TransactionToCommitMessage {
        TransactionToCommitMessage {
            signed_txn: self.signed_txn@,
            account_states: views(account_states_in(self.account_states)),
            events: views(events_in(self.events)),
            gas_used: self.gas_used,
            major_status: self.major_status,
        }
    }
}

/// A list of transactions with what came of them, and the proofs of the first and the last.
#[derive(Debug, PartialEq)]
pub struct TransactionListWithProofProto {
    pub transactions: RepeatedField<SignedTransactionProto>,
    pub infos: RepeatedField<TransactionInfoProto>,
    pub events_for_versions: Option<EventsForVersionsProto>,
    pub first_transaction_version: Option<u64>,
    pub proof_of_first_transaction: Option<AccumulatorProofProto>,
    pub proof_of_last_transaction: Option<AccumulatorProofProto>,
}

/// What a `TransactionListWithProofProto` holds.
pub ghost struct TransactionListWithProofMessage {
    pub transactions: Seq<Seq<u8>>,
    pub infos: Seq<TransactionInfoMessage>,
    pub events_for_versions: Option<Seq<Seq<EventMessage>>>,
    pub first_transaction_version: Option<u64>,
    pub proof_of_first_transaction: Option<Seq<Seq<u8>>>,
    pub proof_of_last_transaction: Option<Seq<Seq<u8>>>,
}

impl View for TransactionListWithProofProto {
    type V = TransactionListWithProofMessage;

    open spec fn view(&self) -> TransactionListWithProofMessage {
        TransactionListWithProofMessage {
            transactions: views(transactions_in(self.transactions)),
            infos: views(infos_in(self.infos)),
            events_for_versions: option_view(self.events_for_versions),
            first_transaction_version: self.first_transaction_version,
            proof_of_first_transaction: option_view(self.proof_of_first_transaction),
            proof_of_last_transaction: option_view(self.proof_of_last_transaction),
        }
    }
}

/// The view of what an option holds.
pub open spec fn option_view<T: View>(o: Option<T>) -> Option<T::V> {
    match o {
        Some(x) => Some(x@),
        None => None,
    }
}

// ---------------------------------------------------------------------------------------------
// Repeated fields
// ---------------------------------------------------------------------------------------------

/// `protobuf::RepeatedField`, of which nothing but its items is known.
#[verifier::external_type_specification]
#[verifier::external_body]
#[verifier::reject_recursive_types(T)]
pub struct ExRepeatedField<T>(RepeatedField<T>);

/// The items of a repeated field of transactions, in order.
pub uninterp spec fn transactions_in(field: RepeatedField<SignedTransactionProto>) -> Seq<
    SignedTransactionProto,
>;

/// The items of a repeated field of transaction infos, in order.
pub uninterp spec fn infos_in(field: RepeatedField<TransactionInfoProto>) -> Seq<
    TransactionInfoProto,
>;

/// The items of a repeated field of events, in order.
pub uninterp spec fn events_in(field: RepeatedField<EventProto>) -> Seq<EventProto>;

/// The items of a repeated field of lists of events, in order.
pub uninterp spec fn events_lists_in(field: RepeatedField<EventsListProto>) -> Seq<
    EventsListProto,
>;

/// The items of a repeated field of account states, in order.
pub uninterp spec fn account_states_in(field: RepeatedField<AccountStateProto>) -> Seq<
    AccountStateProto,
>;

/// Calls `RepeatedField::from_vec`: the field holds the items of the vector.
#[verifier::external_body]
pub(crate) fn repeated_transactions(items: Vec<SignedTransactionProto>) -> (r: RepeatedField<
    SignedTransactionProto,
>)
    ensures
        transactions_in(r) == items@,
{
    RepeatedField::from_vec(items)
}

/// Calls `RepeatedField::into_vec`: the vector holds the items of the field.
#[verifier::external_body]
pub(crate) fn take_transactions(field: RepeatedField<SignedTransactionProto>) -> (r: Vec<
    SignedTransactionProto,
>)
    ensures
        r@ == transactions_in(field),
{
    field.into_vec()
}

/// Calls `RepeatedField::from_vec`: the field holds the items of the vector.
#[verifier::external_body]
pub(crate) fn repeated_infos(items: Vec<TransactionInfoProto>) -> (r: RepeatedField<
    TransactionInfoProto,
>)
    ensures
        infos_in(r) == items@,
{
    RepeatedField::from_vec(items)
}

/// Calls `RepeatedField::into_vec`: the vector holds the items of the field.
#[verifier::external_body]
pub(crate) fn take_infos(field: RepeatedField<TransactionInfoProto>) -> (r: Vec<
    TransactionInfoProto,
>)
    ensures
        r@ == infos_in(field),
{
    field.into_vec()
}

/// Calls `RepeatedField::from_vec`: the field holds the items of the vector.
#[verifier::external_body]
pub(crate) fn repeated_events(items: Vec<EventProto>) -> (r: RepeatedField<EventProto>)
    ensures
        events_in(r) == items@,
{
    RepeatedField::from_vec(items)
}

/// Calls `RepeatedField::into_vec`: the vector holds the items of the field.
#[verifier::external_body]
pub(crate) fn take_events(field: RepeatedField<EventProto>) -> (r: Vec<EventProto>)
    ensures
        r@ == events_in(field),
{
    field.into_vec()
}

/// Calls `RepeatedField::from_vec`: the field holds the items of the vector.
#[verifier::external_body]
pub(crate) fn repeated_events_lists(items: Vec<EventsListProto>) -> (r: RepeatedField<
    EventsListProto,
>)
    ensures
        events_lists_in(r) == items@,
{
    RepeatedField::from_vec(items)
}

/// Calls `RepeatedField::into_vec`: the vector holds the items of the field.
#[verifier::external_body]
pub(crate) fn take_events_lists(field: RepeatedField<EventsListProto>) -> (r: Vec<EventsListProto>)
    ensures
        r@ == events_lists_in(field),
{
    field.into_vec()
}

/// Calls `RepeatedField::from_vec`: the field holds the items of the vector.
#[verifier::external_body]
pub(crate) fn repeated_account_states(items: Vec<AccountStateProto>) -> (r: RepeatedField<
    AccountStateProto,
>)
    ensures
        account_states_in(r) == items@,
{
    RepeatedField::from_vec(items)
}

/// Calls `RepeatedField::into_vec`: the vector holds the items of the field.
#[verifier::external_body]
pub(crate) fn take_account_states(field: RepeatedField<AccountStateProto>) -> (r: Vec<
    AccountStateProto,
>)
    ensures
        r@ == account_states_in(field),
{
    field.into_vec()
}

/// Calls `itertools::zip_eq`, which goes through two lists of the same length side by side: each
/// pair holds the items that stand at its place. It panics on lists of different lengths.
#[verifier::external_body]
pub(crate) fn zip_equal<A, B>(left: Vec<A>, right: Vec<B>) -> (r: Vec<(A, B)>)
    requires
        left@.len() == right@.len(),
    ensures
        r@ == Seq::new(left@.len(), |i: int| (left@[i], right@[i])),
{
    itertools::zip_eq(left, right).collect()
}

} // verus!
