//! What each field of a message says, and what each field of a value puts in its message.

use vstd::prelude::*;
use crate::address::{AccountAddress, HashValue};
use crate::argument::{ArgumentView, TransactionArgument};
use crate::codec::views;
use crate::commit::{AccountState, AccountStateBlob, AccountStates, TransactionToCommit};
use crate::commit::{
    distinct_accounts, same_states, state_map, valid_accounts, AccountStateView,
    TransactionToCommitView,
};
use crate::codec::{CanonicalDeserialize, CanonicalSerialize};
use crate::convert::{FromProto, IntoProto};
use crate::convert::{lemma_read_all_items, read_all, written_all};
use crate::error::Error;
use crate::event::ContractEvent;
use crate::event::{
    event_lists, option_event_lists, option_events, read_event_lists, read_option_event_lists,
    read_option_events, valid_event_lists, valid_events, written_event_lists,
    written_option_event_lists, written_option_events, EventView,
};
use crate::info::{AccumulatorProof, SignedTransactionProof, TransactionInfo};
use crate::info::{valid_path, SignedTransactionProofView, TransactionInfoView};
use crate::list::TransactionListWithProof;
use crate::list::{
    read_option_proof, read_pairs, shape_error, written_option_proof, TransactionListView,
};
use crate::payload::{PayloadView, TransactionPayload};
use crate::proto::{
    AccountStateProto, AccumulatorProofProto, EventProto, EventsForVersionsProto, EventsListProto,
    SignedTransactionProofProto, SignedTransactionProto, SignedTransactionWithProofProto,
    TransactionInfoProto, TransactionListWithProofProto, TransactionToCommitProto,
};
use crate::proto::{
    account_states_in, events_in, events_lists_in, infos_in, option_view, transactions_in,
    AccountStateMessage, EventMessage, SignedTransactionProofMessage,
    SignedTransactionWithProofMessage, TransactionInfoMessage, TransactionListWithProofMessage,
    TransactionToCommitMessage,
};
use crate::status::{StatusCode, TransactionStatus, VMStatus};
use crate::transaction::{SignatureCheckedTransaction, SignedTransaction};
use crate::transaction::SignedTransactionView;
use crate::with_proof::SignedTransactionWithProof;
use crate::with_proof::SignedTransactionWithProofView;
use crate::write_set::{Write, WriteOp};

verus! {

// ---------------------------------------------------------------------------------------------
// What messages and values hold
// ---------------------------------------------------------------------------------------------

/// What an option holds is seen through its view, and nothing where it holds nothing.
pub proof fn views_of_options<T: View>(
    o: Option<T>,
    events: Option<Vec<ContractEvent>>,
    lists: Option<Vec<Vec<ContractEvent>>>,
)
    ensures
        o is None <==> option_view(o) is None,
        o is Some ==> option_view(o) == Some(o->Some_0@),
        events is None <==> option_events(events) is None,
        events is Some ==> option_events(events)->Some_0.len() == events->Some_0@.len() && forall|
            i: int,
        |
            0 <= i < events->Some_0@.len() ==> #[trigger] option_events(events)->Some_0[i]
                == events->Some_0@[i]@,
        lists is None <==> option_event_lists(lists) is None,
        lists is Some ==> option_event_lists(lists)->Some_0.len() == lists->Some_0@.len()
            && forall|i: int| #![trigger lists->Some_0@[i]]
            0 <= i < lists->Some_0@.len() ==> option_event_lists(lists)->Some_0[i]
                == lists->Some_0@[i]@.map_values(|e: ContractEvent| e@),
{
    if lists is Some {
        assert forall|i: int| #![trigger lists->Some_0@[i]]
            0 <= i < lists->Some_0@.len() implies option_event_lists(lists)->Some_0[i]
            == lists->Some_0@[i]@.map_values(|e: ContractEvent| e@) by {
            assert(option_event_lists(lists)->Some_0[i] =~= lists->Some_0@[i]@.map_values(
                |e: ContractEvent| e@,
            ));
        }
    }
}

/// A message for a transaction, an info, an event, a path or an account holds its fields.
pub proof fn small_messages_hold_their_fields(
    transaction: SignedTransactionProto,
    info: TransactionInfoProto,
    event: EventProto,
    path: AccumulatorProofProto,
    transaction_proof: SignedTransactionProofProto,
    account: AccountStateProto,
)
    ensures
        transaction@ == transaction.signed_txn@,
        info@.signed_transaction_hash == info.signed_transaction_hash@,
        info@.state_root_hash == info.state_root_hash@,
        info@.event_root_hash == info.event_root_hash@,
        info@.gas_used == info.gas_used,
        info@.major_status == info.major_status,
        event@.key == event.key@,
        event@.sequence_number == event.sequence_number,
        event@.event_data == event.event_data@,
        path@.len() == path.siblings@.len(),
        forall|i: int| 0 <= i < path@.len() ==> #[trigger] path@[i] == path.siblings@[i]@,
        transaction_proof@.ledger_info_to_transaction_info_proof
            == transaction_proof.ledger_info_to_transaction_info_proof@,
        transaction_proof@.transaction_info == transaction_proof.transaction_info@,
        account@.address == account.address@,
        account@.blob == account.blob@,
{
}

/// A message for events holds them in order, and one for the events of several transactions holds
/// the lists in order.
pub proof fn event_messages_hold_their_items(
    list: EventsListProto,
    lists: EventsForVersionsProto,
)
    ensures
        list@.len() == events_in(list.events).len(),
        forall|i: int| 0 <= i < list@.len() ==> #[trigger] list@[i] == events_in(list.events)[i]@,
        lists@.len() == events_lists_in(lists.events_for_version).len(),
        forall|i: int|
            0 <= i < lists@.len() ==> #[trigger] lists@[i] == events_lists_in(
                lists.events_for_version,
            )[i]@,
{
}

/// A message for a transaction with its proof, for a transaction to commit or for a list of
/// transactions holds its fields, and the items of its repeated fields in order.
pub proof fn large_messages_hold_their_fields(
    with_proof: SignedTransactionWithProofProto,
    commit: TransactionToCommitProto,
    list: TransactionListWithProofProto,
)
    ensures
        with_proof@.version == with_proof.version,
        with_proof@.signed_transaction == with_proof.signed_transaction@,
        with_proof@.proof == with_proof.proof@,
        with_proof@.events == option_view(with_proof.events),
        commit@.signed_txn == commit.signed_txn@,
        commit@.account_states.len() == account_states_in(commit.account_states).len(),
        forall|i: int|
            0 <= i < commit@.account_states.len() ==> #[trigger] commit@.account_states[i]
                == account_states_in(commit.account_states)[i]@,
        commit@.events.len() == events_in(commit.events).len(),
        forall|i: int|
            0 <= i < commit@.events.len() ==> #[trigger] commit@.events[i] == events_in(
                commit.events,
            )[i]@,
        commit@.gas_used == commit.gas_used,
        commit@.major_status == commit.major_status,
        list@.transactions.len() == transactions_in(list.transactions).len(),
        forall|i: int|
            0 <= i < list@.transactions.len() ==> #[trigger] list@.transactions[i]
                == transactions_in(list.transactions)[i]@,
        list@.infos.len() == infos_in(list.infos).len(),
        forall|i: int|
            0 <= i < list@.infos.len() ==> #[trigger] list@.infos[i] == infos_in(list.infos)[i]@,
        list@.events_for_versions == option_view(list.events_for_versions),
        list@.first_transaction_version == list.first_transaction_version,
        list@.proof_of_first_transaction == option_view(list.proof_of_first_transaction),
        list@.proof_of_last_transaction == option_view(list.proof_of_last_transaction),
{
}

/// A transaction with its proof, a list of transactions and their parts hold their fields.
pub proof fn values_hold_their_fields(
    path: AccumulatorProof,
    transaction_proof: SignedTransactionProof,
    account: AccountState,
    blob: AccountStateBlob,
    with_proof: SignedTransactionWithProof,
    list: TransactionListWithProof,
)
    ensures
        path@.len() == path.siblings@.len(),
        forall|i: int| 0 <= i < path@.len() ==> #[trigger] path@[i] == path.siblings@[i]@,
        transaction_proof@.ledger_info_to_transaction_info_proof
            == transaction_proof.ledger_info_to_transaction_info_proof@,
        transaction_proof@.transaction_info == transaction_proof.transaction_info@,
        account@.address == account.address@,
        account@.blob == account.blob@,
        blob@ == blob.blob@,
        with_proof@.version == with_proof.version,
        with_proof@.signed_transaction == with_proof.signed_transaction@,
        with_proof@.events == option_events(with_proof.events),
        with_proof@.proof == with_proof.proof@,
        list@.transaction_and_infos.len() == list.transaction_and_infos@.len(),
        forall|i: int|
            0 <= i < list@.transaction_and_infos.len() ==> (
            #[trigger] list@.transaction_and_infos[i]).0 == list.transaction_and_infos@[i].0@
                && list@.transaction_and_infos[i].1 == list.transaction_and_infos@[i].1@,
        list@.events == option_event_lists(list.events),
        list@.first_transaction_version == list.first_transaction_version,
        list@.proof_of_first_transaction == option_view(list.proof_of_first_transaction),
        list@.proof_of_last_transaction == option_view(list.proof_of_last_transaction),
{
}

/// Payloads, arguments and writes are seen as what they hold, kind by kind.
pub proof fn public_values_hold_their_parts(
    payload: TransactionPayload,
    argument: TransactionArgument,
    op: WriteOp,
    write: Write,
    status: StatusCode,
)
    ensures
        payload matches TransactionPayload::Program(program) ==> payload@ == PayloadView::Program(
            program@,
        ),
        payload matches TransactionPayload::WriteSet(write_set) ==> payload@
            == PayloadView::WriteSet(write_set@),
        payload matches TransactionPayload::Script(script) ==> payload@ == PayloadView::Script(
            script@,
        ),
        payload matches TransactionPayload::Module(module) ==> payload@ == PayloadView::Module(
            module@,
        ),
        argument matches TransactionArgument::U64(n) ==> argument@ == ArgumentView::U64(n),
        argument matches TransactionArgument::Address(a) ==> argument@ == ArgumentView::Address(a@),
        argument matches TransactionArgument::Text(t) ==> argument@ == ArgumentView::Text(t@),
        argument matches TransactionArgument::ByteArray(b) ==> argument@ == ArgumentView::ByteArray(
            b@,
        ),
        op matches WriteOp::Value(value) ==> op@ == Some(value@),
        op is Deletion ==> op@ is None,
        write@.address == write.address@,
        write@.path == write.path@,
        write@.op == write.op@,
        status@ == status,
{
}

// ---------------------------------------------------------------------------------------------
// Lists of messages
// ---------------------------------------------------------------------------------------------

/// A list of messages is read place by place: there are as many values as messages, and the value
/// at each place is what the message there says. Where a message says nothing, the first such one
/// says why.
pub proof fn messages_are_read_in_place<T: FromProto>(s: Seq<<T::ProtoType as View>::V>)
    ensures
        match read_all::<T>(s) {
            Ok(values) => values.len() == s.len() && forall|i: int|
                0 <= i < s.len() ==> T::read(#[trigger] s[i]) == Ok::<T::V, Error>(values[i]),
            Err(e) => exists|n: int| #![trigger s[n]]
                0 <= n < s.len() && T::read(s[n]) == Err::<T::V, Error>(e) && forall|i: int|
                    0 <= i < n ==> T::read(#[trigger] s[i]) is Ok,
        },
    decreases s.len(),
{
    lemma_read_all_items::<T>(s);
    if read_all::<T>(s) is Err {
        let e = read_all::<T>(s)->Err_0;
        let before = s.drop_last();
        messages_are_read_in_place::<T>(before);
        if read_all::<T>(before) is Err {
            let n = choose|n: int| #![trigger before[n]]
                0 <= n < before.len() && T::read(before[n]) == Err::<T::V, Error>(e) && forall|
                    i: int,
                |
                    0 <= i < n ==> T::read(#[trigger] before[i]) is Ok;
            assert(s[n] == before[n]);
            assert forall|i: int| 0 <= i < n implies T::read(#[trigger] s[i]) is Ok by {
                assert(before[i] == s[i]);
            }
        } else {
            let n = s.len() - 1;
            assert(T::read(s[n]) == Err::<T::V, Error>(e));
            assert forall|i: int| 0 <= i < n implies T::read(#[trigger] s[i]) is Ok by {
                assert(before[i] == s[i]);
            }
        }
    }
}

/// A list of values is written place by place.
pub proof fn messages_are_written_in_place<T: IntoProto>(s: Seq<T::V>)
    ensures
        written_all::<T>(s).len() == s.len(),
        forall|i: int| 0 <= i < s.len() ==> #[trigger] written_all::<T>(s)[i] == T::written(s[i]),
{
}

/// Lists of event messages are read place by place, and so are the events of each. The first list
/// that says nothing says why.
pub proof fn event_lists_are_read_in_place(s: Seq<Seq<EventMessage>>)
    ensures
        match read_event_lists(s) {
            Ok(lists) => lists.len() == s.len() && forall|i: int|
                0 <= i < s.len() ==> read_all::<ContractEvent>(#[trigger] s[i]) == Ok::<
                    Seq<EventView>,
                    Error,
                >(lists[i]),
            Err(e) => exists|n: int| #![trigger s[n]]
                0 <= n < s.len() && read_all::<ContractEvent>(s[n]) == Err::<Seq<EventView>, Error>(
                    e,
                ) && forall|i: int| 0 <= i < n ==> read_all::<ContractEvent>(#[trigger] s[i]) is Ok,
        },
    decreases s.len(),
{
    if s.len() > 0 {
        let before = s.drop_last();
        event_lists_are_read_in_place(before);
        match read_event_lists(s) {
            Ok(lists) => {
                let earlier = read_event_lists(before)->Ok_0;
                assert forall|i: int| 0 <= i < s.len() implies read_all::<ContractEvent>(
                    #[trigger] s[i],
                ) == Ok::<Seq<EventView>, Error>(lists[i]) by {
                    if i < before.len() {
                        assert(before[i] == s[i]);
                        assert(lists[i] == earlier[i]);
                    }
                }
            },
            Err(e) => {
                if read_event_lists(before) is Err {
                    let n = choose|n: int| #![trigger before[n]]
                        0 <= n < before.len() && read_all::<ContractEvent>(before[n]) == Err::<
                            Seq<EventView>,
                            Error,
                        >(e) && forall|i: int|
                            0 <= i < n ==> read_all::<ContractEvent>(#[trigger] before[i]) is Ok;
                    assert(s[n] == before[n]);
                    assert forall|i: int| 0 <= i < n implies read_all::<ContractEvent>(
                        #[trigger] s[i],
                    ) is Ok by {
                        assert(before[i] == s[i]);
                    }
                } else {
                    let n = s.len() - 1;
                    assert(read_all::<ContractEvent>(s[n]) == Err::<Seq<EventView>, Error>(e));
                    assert forall|i: int| 0 <= i < n implies read_all::<ContractEvent>(
                        #[trigger] s[i],
                    ) is Ok by {
                        assert(before[i] == s[i]);
                    }
                }
            },
        }
    }
}

/// Lists of events hold their events, and are written, place by place.
pub proof fn event_lists_are_written_in_place(
    s: Seq<Seq<EventView>>,
    lists: Seq<Vec<ContractEvent>>,
)
    ensures
        written_event_lists(s).len() == s.len(),
        forall|i: int|
            0 <= i < s.len() ==> #[trigger] written_event_lists(s)[i] == written_all::<
                ContractEvent,
            >(s[i]),
        event_lists(lists).len() == lists.len(),
        forall|i: int|
            0 <= i < lists.len() ==> #[trigger] event_lists(lists)[i] == views(lists[i]@),
{
}

/// Events that may be absent are read and written where they are present, and stay absent where
/// they are not.
pub proof fn absent_events_stay_absent(
    messages: Option<Seq<EventMessage>>,
    events: Option<Seq<EventView>>,
    lists_of_messages: Option<Seq<Seq<EventMessage>>>,
    lists: Option<Seq<Seq<EventView>>>,
)
    ensures
        messages is None ==> read_option_events(messages) == Ok::<Option<Seq<EventView>>, Error>(
            None,
        ),
        messages is Some ==> match read_all::<ContractEvent>(messages->Some_0) {
            Ok(read) => read_option_events(messages) == Ok::<Option<Seq<EventView>>, Error>(
                Some(read),
            ),
            Err(e) => read_option_events(messages) == Err::<Option<Seq<EventView>>, Error>(e),
        },
        events is None ==> written_option_events(events) is None,
        events is Some ==> written_option_events(events) == Some(
            written_all::<ContractEvent>(events->Some_0),
        ),
        lists_of_messages is None ==> read_option_event_lists(lists_of_messages) == Ok::<
            Option<Seq<Seq<EventView>>>,
            Error,
        >(None),
        lists_of_messages is Some ==> match read_event_lists(lists_of_messages->Some_0) {
            Ok(read) => read_option_event_lists(lists_of_messages) == Ok::<
                Option<Seq<Seq<EventView>>>,
                Error,
            >(Some(read)),
            Err(e) => read_option_event_lists(lists_of_messages) == Err::<
                Option<Seq<Seq<EventView>>>,
                Error,
            >(e),
        },
        lists is None ==> written_option_event_lists(lists) is None,
        lists is Some ==> written_option_event_lists(lists) == Some(
            written_event_lists(lists->Some_0),
        ),
{
}

// ---------------------------------------------------------------------------------------------
// Parts of messages
// ---------------------------------------------------------------------------------------------

/// Hashes and addresses are 32 bytes and are carried as they are; other bytes are none. A status
/// is carried as its number.
pub proof fn bytes_and_numbers_are_carried_as_they_are(bytes: Seq<u8>, status: StatusCode, n: u64)
    ensures
        bytes.len() == 32 ==> HashValue::read(bytes) == Ok::<Seq<u8>, Error>(bytes),
        bytes.len() != 32 ==> HashValue::read(bytes) == Err::<Seq<u8>, Error>(
            Error::InvalidHashLength,
        ),
        HashValue::written(bytes) == bytes,
        bytes.len() == 32 ==> AccountAddress::read(bytes) == Ok::<Seq<u8>, Error>(bytes),
        bytes.len() != 32 ==> AccountAddress::read(bytes) == Err::<Seq<u8>, Error>(
            Error::InvalidAddressLength,
        ),
        AccountAddress::written(bytes) == bytes,
        StatusCode::read(n) == Ok::<StatusCode, Error>(StatusCode { code: n }),
        StatusCode::written(status) == status.code,
{
}

/// The message of a signed transaction, checked or not, is its bytes; it is read off their start.
pub proof fn transactions_are_carried_as_bytes(v: SignedTransactionView, object: Seq<u8>)
    ensures
        SignedTransaction::written(v) == SignedTransaction::encoding(v),
        SignatureCheckedTransaction::written(v) == SignedTransaction::encoding(v),
        match SignedTransaction::decoding(object) {
            Ok((read, _)) => SignedTransaction::read(object) == Ok::<SignedTransactionView, Error>(
                read,
            ),
            Err(e) => SignedTransaction::read(object) == Err::<SignedTransactionView, Error>(e),
        },
{
}

/// Each field of an event is carried by the field of the same name; a key of other than 40 bytes
/// is none.
pub proof fn fields_of_events(v: EventView, object: EventMessage)
    ensures
        ContractEvent::written(v).key == v.key,
        ContractEvent::written(v).sequence_number == v.sequence_number,
        ContractEvent::written(v).event_data == v.event_data,
        object.key.len() != 40 <==> ContractEvent::read(object) is Err,
        object.key.len() != 40 ==> ContractEvent::read(object)->Err_0
            == Error::InvalidEventKeyLength,
        ContractEvent::read(object) matches Ok(read) ==> read.key == object.key
            && read.sequence_number == object.sequence_number && read.event_data
            == object.event_data,
{
}

/// Each field of a transaction info is carried by the field of the same name. It is read where
/// each hash has 32 bytes and the status is one; a hash that is none is named before the status.
pub proof fn fields_of_infos(
    v: TransactionInfoView,
    object: TransactionInfoMessage,
    major_status: Result<StatusCode, Error>,
)
    ensures
        TransactionInfo::written(v).signed_transaction_hash == v.signed_transaction_hash,
        TransactionInfo::written(v).state_root_hash == v.state_root_hash,
        TransactionInfo::written(v).event_root_hash == v.event_root_hash,
        TransactionInfo::written(v).gas_used == v.gas_used,
        TransactionInfo::written(v).major_status == v.major_status.code,
        object.signed_transaction_hash.len() != 32 || object.state_root_hash.len() != 32
            || object.event_root_hash.len() != 32 ==> TransactionInfo::read_with_status(
            object,
            major_status,
        ) == Err::<TransactionInfoView, Error>(Error::InvalidHashLength),
        object.signed_transaction_hash.len() == 32 && object.state_root_hash.len() == 32
            && object.event_root_hash.len() == 32 ==> match major_status {
            Err(e) => TransactionInfo::read_with_status(object, major_status) == Err::<
                TransactionInfoView,
                Error,
            >(e),
            Ok(status) => TransactionInfo::read_with_status(object, major_status) is Ok
                && TransactionInfo::read_with_status(object, major_status)->Ok_0.major_status
                == status,
        },
        TransactionInfo::read_with_status(object, major_status) matches Ok(read) ==> {
            &&& read.signed_transaction_hash == object.signed_transaction_hash
            &&& read.state_root_hash == object.state_root_hash
            &&& read.event_root_hash == object.event_root_hash
            &&& read.gas_used == object.gas_used
        },
        TransactionInfo::read(object) == TransactionInfo::read_with_status(
            object,
            Ok(StatusCode { code: object.major_status }),
        ),
{
}

/// A path is carried hash by hash, in order; it is read where each has 32 bytes. The path and the
/// info of the proof of a transaction are carried by the fields of the same names, and the path is
/// read first. A path that is absent stays absent.
pub proof fn fields_of_proofs(
    path: Seq<Seq<u8>>,
    v: SignedTransactionProofView,
    object: SignedTransactionProofMessage,
)
    ensures
        AccumulatorProof::written(path) == path,
        valid_path(path) <==> forall|i: int| 0 <= i < path.len() ==> (#[trigger] path[i]).len()
            == 32,
        valid_path(path) ==> AccumulatorProof::read(path) == Ok::<Seq<Seq<u8>>, Error>(path),
        !valid_path(path) ==> AccumulatorProof::read(path) == Err::<Seq<Seq<u8>>, Error>(
            Error::InvalidHashLength,
        ),
        SignedTransactionProof::written(v).ledger_info_to_transaction_info_proof
            == v.ledger_info_to_transaction_info_proof,
        SignedTransactionProof::written(v).transaction_info == TransactionInfo::written(
            v.transaction_info,
        ),
        match AccumulatorProof::read(object.ledger_info_to_transaction_info_proof) {
            Err(e) => SignedTransactionProof::read(object) == Err::<
                SignedTransactionProofView,
                Error,
            >(e),
            Ok(read_path) => match TransactionInfo::read(object.transaction_info) {
                Err(e) => SignedTransactionProof::read(object) == Err::<
                    SignedTransactionProofView,
                    Error,
                >(e),
                Ok(read_info) => SignedTransactionProof::read(object) is Ok
                    && SignedTransactionProof::read(
                    object,
                )->Ok_0.ledger_info_to_transaction_info_proof == read_path
                    && SignedTransactionProof::read(object)->Ok_0.transaction_info == read_info,
            },
        },
        read_option_proof(None) == Ok::<Option<Seq<Seq<u8>>>, Error>(None),
        written_option_proof(None) is None,
        written_option_proof(Some(path)) == Some(path),
        match AccumulatorProof::read(path) {
            Ok(read) => read_option_proof(Some(path)) == Ok::<Option<Seq<Seq<u8>>>, Error>(
                Some(read),
            ),
            Err(e) => read_option_proof(Some(path)) == Err::<Option<Seq<Seq<u8>>>, Error>(e),
        },
{
    let other = v.ledger_info_to_transaction_info_proof;
    assert(AccumulatorProof::written(path) =~= path);
    assert(AccumulatorProof::written(other) =~= other);
    messages_are_read_in_place::<HashValue>(path);
    if valid_path(path) {
        if let Ok(values) = AccumulatorProof::read(path) {
            assert forall|i: int| 0 <= i < path.len() implies values[i] == path[i] by {
                assert(HashValue::read(path[i]) == Ok::<Seq<u8>, Error>(values[i]));
            }
            assert(values =~= path);
        }
    } else {
        let i = choose|i: int| 0 <= i < path.len() && (#[trigger] path[i]).len() != 32;
        assert(HashValue::read(path[i]) is Err);
    }
}

/// The address and the state of an account are carried by the fields of the same names; it is read
/// where the address has 32 bytes.
pub proof fn fields_of_account_states(v: AccountStateView, object: AccountStateMessage)
    ensures
        AccountState::written(v).address == v.address,
        AccountState::written(v).blob == v.blob,
        object.address.len() != 32 ==> AccountState::read(object) == Err::<AccountStateView, Error>(
            Error::InvalidAddressLength,
        ),
        object.address.len() == 32 ==> AccountState::read(object) is Ok && AccountState::read(
            object,
        )->Ok_0.address == object.address && AccountState::read(object)->Ok_0.blob == object.blob,
{
}

// ---------------------------------------------------------------------------------------------
// Transactions with their proofs
// ---------------------------------------------------------------------------------------------

/// Each field of a transaction with its proof is written to the field of the same name, the events
/// place by place.
pub proof fn transactions_with_proofs_are_written_by_field(v: SignedTransactionWithProofView)
    ensures
        SignedTransactionWithProof::written(v).version == v.version,
        SignedTransactionWithProof::written(v).signed_transaction == SignedTransaction::encoding(
            v.signed_transaction,
        ),
        SignedTransactionWithProof::written(v).proof.ledger_info_to_transaction_info_proof
            == v.proof.ledger_info_to_transaction_info_proof,
        SignedTransactionWithProof::written(v).proof.transaction_info == TransactionInfo::written(
            v.proof.transaction_info,
        ),
        SignedTransactionWithProof::written(v).events is Some <==> v.events is Some,
        v.events is Some ==> SignedTransactionWithProof::written(v).events->Some_0.len()
            == v.events->Some_0.len() && forall|i: int| #![trigger v.events->Some_0[i]]
            0 <= i < v.events->Some_0.len() ==> SignedTransactionWithProof::written(
                v,
            ).events->Some_0[i] == ContractEvent::written(v.events->Some_0[i]),
{
    fields_of_proofs(
        v.proof.ledger_info_to_transaction_info_proof,
        v.proof,
        SignedTransactionProof::written(v.proof),
    );
}

/// Each field of a transaction with its proof is read from the field of the same name, the events
/// place by place. A field that says nothing is named: the transaction, then the proof, then the
/// events.
pub proof fn transactions_with_proofs_are_read_by_field(object: SignedTransactionWithProofMessage)
    ensures
        SignedTransactionWithProof::read(object) matches Ok(v) ==> {
            &&& v.version == object.version
            &&& SignedTransaction::read(object.signed_transaction) == Ok::<
                SignedTransactionView,
                Error,
            >(v.signed_transaction)
            &&& SignedTransactionProof::read(object.proof) == Ok::<
                SignedTransactionProofView,
                Error,
            >(v.proof)
            &&& v.events is Some <==> object.events is Some
            &&& v.events is Some ==> v.events->Some_0.len() == object.events->Some_0.len()
                && forall|i: int| #![trigger v.events->Some_0[i]]
                0 <= i < v.events->Some_0.len() ==> ContractEvent::read(object.events->Some_0[i])
                    == Ok::<EventView, Error>(v.events->Some_0[i])
        },
        SignedTransactionWithProof::read(object) is Ok <==> {
            &&& SignedTransaction::read(object.signed_transaction) is Ok
            &&& SignedTransactionProof::read(object.proof) is Ok
            &&& object.events is Some ==> forall|i: int| #![trigger object.events->Some_0[i]]
                0 <= i < object.events->Some_0.len() ==> ContractEvent::read(
                    object.events->Some_0[i],
                ) is Ok
        },
        SignedTransaction::read(object.signed_transaction) matches Err(e)
            ==> SignedTransactionWithProof::read(object) == Err::<
            SignedTransactionWithProofView,
            Error,
        >(e),
        SignedTransaction::read(object.signed_transaction) is Ok ==> (
        SignedTransactionProof::read(object.proof) matches Err(e)
            ==> SignedTransactionWithProof::read(object) == Err::<
            SignedTransactionWithProofView,
            Error,
        >(e)),
        SignedTransaction::read(object.signed_transaction) is Ok && SignedTransactionProof::read(
            object.proof,
        ) is Ok && object.events is Some ==> (read_all::<ContractEvent>(
            object.events->Some_0,
        ) matches Err(e) ==> SignedTransactionWithProof::read(object) == Err::<
            SignedTransactionWithProofView,
            Error,
        >(e)),
{
    if object.events is Some {
        let messages = object.events->Some_0;
        messages_are_read_in_place::<ContractEvent>(messages);
        if let Ok(events) = read_all::<ContractEvent>(messages) {
            assert forall|i: int| #![trigger messages[i]]
                0 <= i < messages.len() implies ContractEvent::read(messages[i]) is Ok by {
                assert(ContractEvent::read(messages[i]) == Ok::<EventView, Error>(events[i]));
            }
        }
    }
}

// ---------------------------------------------------------------------------------------------
// Transactions to commit
// ---------------------------------------------------------------------------------------------

/// Each field of a transaction to commit is written to the field of the same name, the account
/// states and the events place by place.
pub proof fn transactions_to_commit_are_written_by_field(v: TransactionToCommitView)
    ensures
        TransactionToCommit::written(v).signed_txn == SignedTransaction::encoding(v.signed_txn),
        TransactionToCommit::written(v).account_states.len() == v.account_states.len(),
        forall|i: int| #![trigger v.account_states[i]]
            0 <= i < v.account_states.len() ==> TransactionToCommit::written(v).account_states[i]
                == AccountState::written(v.account_states[i]),
        TransactionToCommit::written(v).events.len() == v.events.len(),
        forall|i: int| #![trigger v.events[i]]
            0 <= i < v.events.len() ==> TransactionToCommit::written(v).events[i]
                == ContractEvent::written(v.events[i]),
        TransactionToCommit::written(v).gas_used == v.gas_used,
        TransactionToCommit::written(v).major_status == v.major_status.code,
{
}

/// Each field of a transaction to commit is read from the field of the same name, the account
/// states and the events place by place.
pub proof fn transactions_to_commit_are_read_by_field(
    object: TransactionToCommitMessage,
    major_status: Result<StatusCode, Error>,
)
    ensures
        TransactionToCommit::read_with_status(object, major_status) matches Ok(v) ==> {
            &&& SignedTransaction::read(object.signed_txn) == Ok::<SignedTransactionView, Error>(
                v.signed_txn,
            )
            &&& v.account_states.len() == object.account_states.len()
            &&& forall|i: int| #![trigger v.account_states[i]]
                0 <= i < v.account_states.len() ==> AccountState::read(object.account_states[i])
                    == Ok::<AccountStateView, Error>(v.account_states[i])
            &&& v.events.len() == object.events.len()
            &&& forall|i: int| #![trigger v.events[i]]
                0 <= i < v.events.len() ==> ContractEvent::read(object.events[i]) == Ok::<
                    EventView,
                    Error,
                >(v.events[i])
            &&& v.gas_used == object.gas_used
            &&& major_status == Ok::<StatusCode, Error>(v.major_status)
        },
        TransactionToCommit::read(object) == TransactionToCommit::read_with_status(
            object,
            Ok(StatusCode { code: object.major_status }),
        ),
{
    messages_are_read_in_place::<AccountState>(object.account_states);
    messages_are_read_in_place::<ContractEvent>(object.events);
}

/// A transaction to commit is read where its transaction, each of its account states, each of its
/// events and its status are, and no two account states are of one account. What is wrong first
/// is named: the transaction, an account state, two of one account, an event, the status.
pub proof fn transactions_to_commit_that_are_refused(
    object: TransactionToCommitMessage,
    major_status: Result<StatusCode, Error>,
)
    ensures
        TransactionToCommit::read_with_status(object, major_status) is Ok <==> {
            &&& SignedTransaction::read(object.signed_txn) is Ok
            &&& forall|i: int| #![trigger object.account_states[i]]
                0 <= i < object.account_states.len() ==> object.account_states[i].address.len()
                    == 32
            &&& forall|i: int, j: int| #![trigger object.account_states[i], object.account_states[j]]
                0 <= i < j < object.account_states.len() ==> object.account_states[i].address
                    != object.account_states[j].address
            &&& forall|i: int| #![trigger object.events[i]]
                0 <= i < object.events.len() ==> object.events[i].key.len() == 40
            &&& major_status is Ok
        },
        TransactionToCommit::read_with_status(object, major_status) matches Err(e) ==> {
            let accounts = object.account_states;
            let good_accounts = forall|i: int| #![trigger accounts[i]]
                0 <= i < accounts.len() ==> accounts[i].address.len() == 32;
            let twice = exists|i: int, j: int| #![trigger accounts[i], accounts[j]]
                0 <= i < j < accounts.len() && accounts[i].address == accounts[j].address;
            let good_events = forall|i: int| #![trigger object.events[i]]
                0 <= i < object.events.len() ==> object.events[i].key.len() == 40;
            if SignedTransaction::read(object.signed_txn) is Err {
                e == SignedTransaction::read(object.signed_txn)->Err_0
            } else if !good_accounts {
                e == Error::InvalidAddressLength
            } else if twice {
                e == Error::DuplicateAccount
            } else if !good_events {
                e == Error::InvalidEventKeyLength
            } else {
                major_status == Err::<StatusCode, Error>(e)
            }
        },
{
    let accounts = object.account_states;
    messages_are_read_in_place::<AccountState>(accounts);
    messages_are_read_in_place::<ContractEvent>(object.events);
    match read_all::<AccountState>(accounts) {
        Ok(states) => {
            assert forall|i: int| #![trigger accounts[i]] 0 <= i < accounts.len() implies accounts[i].address.len()
                == 32 && states[i].address == accounts[i].address by {
                assert(AccountState::read(accounts[i]) == Ok::<AccountStateView, Error>(states[i]));
            }
            if distinct_accounts(states) {
                assert forall|i: int, j: int| #![trigger accounts[i], accounts[j]]
                    0 <= i < j < accounts.len() implies accounts[i].address
                    != accounts[j].address by {
                    assert(states[i].address != states[j].address);
                }
            } else {
                let (i, j) = choose|i: int, j: int|
                    0 <= i < j < states.len() && states[i].address == states[j].address;
                assert(accounts[i].address == accounts[j].address);
            }
        },
        Err(e) => {
            let n = choose|n: int| #![trigger accounts[n]]
                0 <= n < accounts.len() && AccountState::read(accounts[n]) == Err::<
                    AccountStateView,
                    Error,
                >(e);
            assert(accounts[n].address.len() != 32);
        },
    }
    match read_all::<ContractEvent>(object.events) {
        Ok(events) => {
            assert forall|i: int| #![trigger object.events[i]]
                0 <= i < object.events.len() implies object.events[i].key.len() == 40 by {
                assert(ContractEvent::read(object.events[i]) == Ok::<EventView, Error>(events[i]));
            }
        },
        Err(e) => {
            let n = choose|n: int| #![trigger object.events[n]]
                0 <= n < object.events.len() && ContractEvent::read(object.events[n]) == Err::<
                    EventView,
                    Error,
                >(e);
            assert(object.events[n].key.len() != 40);
        },
    }
}

/// No two account states are of one account: exactly then they are distinct.
pub proof fn accounts_are_distinct(s: Seq<AccountStateView>)
    ensures
        distinct_accounts(s) <==> !exists|i: int, j: int| #![trigger s[i], s[j]]
            0 <= i < j < s.len() && s[i].address == s[j].address,
        valid_accounts(s) <==> forall|i: int| #![trigger s[i]]
            0 <= i < s.len() ==> s[i].address.len() == 32,
{
    if !distinct_accounts(s) {
        let (i, j) = choose|i: int, j: int|
            0 <= i < j < s.len() && s[i].address == s[j].address;
        assert(s[i].address == s[j].address);
    }
}

/// The states of no account are the empty map, and a further state takes the place of an earlier
/// one of its account.
pub proof fn states_by_account(s: Seq<AccountStateView>, state: AccountStateView)
    ensures
        state_map(Seq::<AccountStateView>::empty()) == Map::<Seq<u8>, Seq<u8>>::empty(),
        state_map(s.push(state)) == state_map(s).insert(state.address, state.blob),
{
    assert(s.push(state).drop_last() =~= s);
}

/// Of accounts that are distinct, each has its state, and no other account has one.
pub proof fn states_of_distinct_accounts(s: Seq<AccountStateView>, address: Seq<u8>)
    requires
        distinct_accounts(s),
    ensures
        forall|i: int| #![trigger s[i]]
            0 <= i < s.len() ==> state_map(s).contains_key(s[i].address) && state_map(
                s,
            )[s[i].address] == s[i].blob,
        state_map(s).contains_key(address) ==> exists|i: int| #![trigger s[i]]
            0 <= i < s.len() && s[i].address == address,
{
    crate::commit::lemma_state_map_accounts(s, address);
    assert forall|i: int| #![trigger s[i]] 0 <= i < s.len() implies state_map(s).contains_key(
        s[i].address,
    ) && state_map(s)[s[i].address] == s[i].blob by {
        crate::commit::lemma_state_map_states(s, i);
    }
}

/// States of accounts are among others where each account has the same state there; they are equal
/// where that holds both ways.
pub proof fn same_states_by_account(a: Map<Seq<u8>, Seq<u8>>, b: Map<Seq<u8>, Seq<u8>>)
    ensures
        same_states(a, b) <==> forall|address: Seq<u8>| #![trigger a.contains_key(address)]
            a.contains_key(address) ==> b.contains_key(address) && b[address] == a[address],
        same_states(a, b) && same_states(b, a) <==> a == b,
{
    if same_states(a, b) && same_states(b, a) {
        assert(a =~= b);
    }
}

/// Account states are equal where they give each account the same state, in whatever order.
pub proof fn equal_account_states(a: AccountStates, b: AccountStates)
    ensures
        vstd::std_specs::cmp::PartialEqSpec::eq_spec(&a, &b) <==> forall|address: Seq<u8>|
            #![trigger state_map(a@).contains_key(address)]
            #![trigger state_map(b@).contains_key(address)]
            (state_map(a@).contains_key(address) <==> state_map(b@).contains_key(address)) && (
            state_map(a@).contains_key(address) ==> state_map(a@)[address]
                == state_map(b@)[address]),
{
    let (left, right) = (state_map(a@), state_map(b@));
    if forall|address: Seq<u8>|
        #![trigger left.contains_key(address)]
        #![trigger right.contains_key(address)]
        (left.contains_key(address) <==> right.contains_key(address)) && (left.contains_key(
            address,
        ) ==> left[address] == right[address]) {
        assert(left =~= right);
    }
}

// ---------------------------------------------------------------------------------------------
// Lists of transactions
// ---------------------------------------------------------------------------------------------

/// Which proofs a list carries goes by how many transactions it has: none without transactions,
/// that of the first with one, both with more. The first version is there where a transaction is.
pub proof fn shapes_of_lists(n: nat, has_first: bool, has_last: bool, has_version: bool)
    ensures
        n == 0 ==> (shape_error(n, has_first, has_last, has_version) is None <==> !has_first
            && !has_last && !has_version),
        n == 1 ==> (shape_error(n, has_first, has_last, has_version) is None <==> has_first
            && !has_last && has_version),
        n >= 2 ==> (shape_error(n, has_first, has_last, has_version) is None <==> has_first
            && has_last && has_version),
        shape_error(n, has_first, has_last, has_version) matches Some(e) ==> {
            &&& n == 0 ==> e == Error::ProofForEmptyList
            &&& n == 1 ==> e == Error::ProofForSingleTransaction
            &&& n >= 2 ==> e == Error::ProofForManyTransactions
        },
{
}

/// A list is well formed where it carries the proofs and the version that go with how many
/// transactions it has.
pub proof fn well_formed_lists(v: TransactionListView)
    ensures
        v.well_formed() <==> {
            let n = v.transaction_and_infos.len();
            &&& v.first_transaction_version is Some <==> n > 0
            &&& v.proof_of_first_transaction is Some <==> n > 0
            &&& v.proof_of_last_transaction is Some <==> n > 1
        },
{
}

/// Transactions and their infos are read in pairs, place by place. The first pair that says
/// nothing says why, for its transaction before its info.
pub proof fn pairs_are_read_in_place(
    transactions: Seq<Seq<u8>>,
    infos: Seq<TransactionInfoMessage>,
)
    requires
        transactions.len() == infos.len(),
    ensures
        match read_pairs(transactions, infos) {
            Ok(pairs) => pairs.len() == transactions.len() && forall|i: int| #![trigger pairs[i]]
                0 <= i < pairs.len() ==> SignedTransaction::read(transactions[i]) == Ok::<
                    SignedTransactionView,
                    Error,
                >(pairs[i].0) && TransactionInfo::read(infos[i]) == Ok::<TransactionInfoView, Error>(
                    pairs[i].1,
                ),
            Err(e) => exists|n: int| #![trigger transactions[n]]
                0 <= n < transactions.len() && (SignedTransaction::read(transactions[n]) == Err::<
                    SignedTransactionView,
                    Error,
                >(e) || SignedTransaction::read(transactions[n]) is Ok && TransactionInfo::read(
                    infos[n],
                ) == Err::<TransactionInfoView, Error>(e)) && forall|i: int| #![trigger transactions[i]]
                    0 <= i < n ==> SignedTransaction::read(transactions[i]) is Ok
                        && TransactionInfo::read(infos[i]) is Ok,
        },
    decreases transactions.len(),
{
    crate::list::lemma_read_pairs_items(transactions, infos);
    if read_pairs(transactions, infos) is Err {
        let e = read_pairs(transactions, infos)->Err_0;
        let (before, infos_before) = (transactions.drop_last(), infos.drop_last());
        pairs_are_read_in_place(before, infos_before);
        let last = transactions.len() - 1;
        match read_pairs(before, infos_before) {
            Ok(pairs) => {
                assert forall|i: int| #![trigger transactions[i]]
                    0 <= i < last implies SignedTransaction::read(transactions[i]) is Ok
                    && TransactionInfo::read(infos[i]) is Ok by {
                    assert(before[i] == transactions[i] && infos_before[i] == infos[i]);
                    assert(SignedTransaction::read(before[i]) == Ok::<SignedTransactionView, Error>(
                        pairs[i].0,
                    ));
                }
                assert(transactions[last] == transactions.last());
            },
            Err(_) => {
                let n = choose|n: int| #![trigger before[n]]
                    0 <= n < before.len() && (SignedTransaction::read(before[n]) == Err::<
                        SignedTransactionView,
                        Error,
                    >(e) || SignedTransaction::read(before[n]) is Ok && TransactionInfo::read(
                        infos_before[n],
                    ) == Err::<TransactionInfoView, Error>(e)) && forall|i: int| #![trigger before[i]]
                        0 <= i < n ==> SignedTransaction::read(before[i]) is Ok
                            && TransactionInfo::read(infos_before[i]) is Ok;
                assert(transactions[n] == before[n] && infos[n] == infos_before[n]);
                assert forall|i: int| #![trigger transactions[i]]
                    0 <= i < n implies SignedTransaction::read(transactions[i]) is Ok
                    && TransactionInfo::read(infos[i]) is Ok by {
                    assert(before[i] == transactions[i] && infos_before[i] == infos[i]);
                }
            },
        }
    }
}

/// Each field of a list of transactions is written to the field of the same name: the transactions
/// and their infos place by place, the events list by list, and each proof to its own field.
pub proof fn lists_are_written_by_field(v: TransactionListView)
    ensures
        TransactionListWithProof::written(v).transactions.len() == v.transaction_and_infos.len(),
        TransactionListWithProof::written(v).infos.len() == v.transaction_and_infos.len(),
        forall|i: int| #![trigger v.transaction_and_infos[i]]
            0 <= i < v.transaction_and_infos.len() ==> TransactionListWithProof::written(
                v,
            ).transactions[i] == SignedTransaction::encoding(v.transaction_and_infos[i].0)
                && TransactionListWithProof::written(v).infos[i] == TransactionInfo::written(
                v.transaction_and_infos[i].1,
            ),
        TransactionListWithProof::written(v).events_for_versions is Some <==> v.events is Some,
        v.events is Some ==> TransactionListWithProof::written(
            v,
        ).events_for_versions->Some_0.len() == v.events->Some_0.len() && forall|i: int|
            #![trigger v.events->Some_0[i]]
            0 <= i < v.events->Some_0.len() ==> TransactionListWithProof::written(
                v,
            ).events_for_versions->Some_0[i] == written_all::<ContractEvent>(v.events->Some_0[i]),
        TransactionListWithProof::written(v).first_transaction_version
            == v.first_transaction_version,
        TransactionListWithProof::written(v).proof_of_first_transaction
            == v.proof_of_first_transaction,
        TransactionListWithProof::written(v).proof_of_last_transaction
            == v.proof_of_last_transaction,
{
    if let Some(path) = v.proof_of_first_transaction {
        assert(AccumulatorProof::written(path) =~= path);
    }
    if let Some(path) = v.proof_of_last_transaction {
        assert(AccumulatorProof::written(path) =~= path);
    }
}

/// Each field of a list of transactions is read from the field of the same name: the transactions
/// and their infos place by place, the events list by list, and each proof from its own field.
pub proof fn lists_are_read_by_field(object: TransactionListWithProofMessage)
    ensures
        TransactionListWithProof::read(object) matches Ok(v) ==> {
            &&& v.transaction_and_infos.len() == object.transactions.len()
            &&& v.transaction_and_infos.len() == object.infos.len()
            &&& forall|i: int| #![trigger v.transaction_and_infos[i]]
                0 <= i < v.transaction_and_infos.len() ==> SignedTransaction::read(
                    object.transactions[i],
                ) == Ok::<SignedTransactionView, Error>(v.transaction_and_infos[i].0)
                    && TransactionInfo::read(object.infos[i]) == Ok::<TransactionInfoView, Error>(
                    v.transaction_and_infos[i].1,
                )
            &&& v.events is Some <==> object.events_for_versions is Some
            &&& v.events is Some ==> v.events->Some_0.len()
                == object.events_for_versions->Some_0.len() && forall|i: int|
                #![trigger v.events->Some_0[i]]
                0 <= i < v.events->Some_0.len() ==> read_all::<ContractEvent>(
                    object.events_for_versions->Some_0[i],
                ) == Ok::<Seq<EventView>, Error>(v.events->Some_0[i])
            &&& v.first_transaction_version == object.first_transaction_version
            &&& v.proof_of_first_transaction == object.proof_of_first_transaction
            &&& v.proof_of_last_transaction == object.proof_of_last_transaction
        },
{
    if let Ok(v) = TransactionListWithProof::read(object) {
        pairs_are_read_in_place(object.transactions, object.infos);
        if let Some(lists) = object.events_for_versions {
            event_lists_are_read_in_place(lists);
        }
        if let Some(path) = object.proof_of_first_transaction {
            lemma_path_is_read_as_it_is(path);
        }
        if let Some(path) = object.proof_of_last_transaction {
            lemma_path_is_read_as_it_is(path);
        }
    }
}

/// A path that is read is the path in the message.
proof fn lemma_path_is_read_as_it_is(path: Seq<Seq<u8>>)
    ensures
        AccumulatorProof::read(path) matches Ok(v) ==> v == path,
{
    messages_are_read_in_place::<HashValue>(path);
    if let Ok(v) = AccumulatorProof::read(path) {
        assert forall|i: int| 0 <= i < path.len() implies v[i] == path[i] by {
            assert(HashValue::read(path[i]) == Ok::<Seq<u8>, Error>(v[i]));
        }
        assert(v =~= path);
    }
}

/// A list of transactions is read where there is an info for each transaction, the proofs are
/// those of so many transactions, and the events, the pairs and the proofs are each read. What is
/// wrong first, in that order, is named; of the proofs, the first comes first.
pub proof fn lists_that_are_refused(object: TransactionListWithProofMessage)
    ensures
        TransactionListWithProof::read(object) is Ok <==> {
            let n = object.transactions.len();
            &&& n == object.infos.len()
            &&& object.first_transaction_version is Some <==> n > 0
            &&& object.proof_of_first_transaction is Some <==> n > 0
            &&& object.proof_of_last_transaction is Some <==> n > 1
            &&& object.events_for_versions matches Some(lists) ==> read_event_lists(lists) is Ok
            &&& read_pairs(object.transactions, object.infos) is Ok
            &&& object.proof_of_first_transaction matches Some(path) ==> AccumulatorProof::read(
                path,
            ) is Ok
            &&& object.proof_of_last_transaction matches Some(path) ==> AccumulatorProof::read(
                path,
            ) is Ok
        },
        TransactionListWithProof::read(object) matches Err(e) ==> {
            let n = object.transactions.len();
            if n != object.infos.len() {
                e == (Error::InfoCountMismatch {
                    transactions: n as usize,
                    infos: object.infos.len() as usize,
                })
            } else if n == 0 && (object.proof_of_first_transaction is Some
                || object.proof_of_last_transaction is Some
                || object.first_transaction_version is Some) {
                e == Error::ProofForEmptyList
            } else if n == 1 && (object.proof_of_first_transaction is None
                || object.proof_of_last_transaction is Some
                || object.first_transaction_version is None) {
                e == Error::ProofForSingleTransaction
            } else if n > 1 && (object.proof_of_first_transaction is None
                || object.proof_of_last_transaction is None
                || object.first_transaction_version is None) {
                e == Error::ProofForManyTransactions
            } else if object.events_for_versions is Some && read_event_lists(
                object.events_for_versions->Some_0,
            ) is Err {
                e == read_event_lists(object.events_for_versions->Some_0)->Err_0
            } else if read_pairs(object.transactions, object.infos) is Err {
                e == read_pairs(object.transactions, object.infos)->Err_0
            } else {
                e == Error::InvalidHashLength
            }
        },
{
    if let Some(path) = object.proof_of_first_transaction {
        messages_are_read_in_place::<HashValue>(path);
    }
    if let Some(path) = object.proof_of_last_transaction {
        messages_are_read_in_place::<HashValue>(path);
    }
}

// ---------------------------------------------------------------------------------------------
// Valid values
// ---------------------------------------------------------------------------------------------

/// A value is valid where each hash in it has 32 bytes, each event key 40, each address 32, no
/// account occurs twice and its transactions can be encoded.
pub proof fn valid_values(
    event: EventView,
    events: Seq<EventView>,
    lists: Seq<Seq<EventView>>,
    info: TransactionInfoView,
    transaction_proof: SignedTransactionProofView,
    with_proof: SignedTransactionWithProofView,
    commit: TransactionToCommitView,
    list: TransactionListView,
)
    ensures
        event.valid() <==> event.key.len() == 40,
        valid_events(events) <==> forall|i: int| #![trigger events[i]]
            0 <= i < events.len() ==> events[i].key.len() == 40,
        valid_event_lists(lists) <==> forall|i: int| #![trigger lists[i]]
            0 <= i < lists.len() ==> valid_events(lists[i]),
        info.valid() <==> info.signed_transaction_hash.len() == 32 && info.state_root_hash.len()
            == 32 && info.event_root_hash.len() == 32,
        transaction_proof.valid() <==> transaction_proof.transaction_info.valid() && forall|i: int|
            #![trigger transaction_proof.ledger_info_to_transaction_info_proof[i]]
            0 <= i < transaction_proof.ledger_info_to_transaction_info_proof.len()
                ==> transaction_proof.ledger_info_to_transaction_info_proof[i].len() == 32,
        with_proof.valid() <==> SignedTransaction::encodable(with_proof.signed_transaction)
            && with_proof.proof.valid() && (with_proof.events is Some ==> valid_events(
            with_proof.events->Some_0,
        )),
        commit.valid() <==> SignedTransaction::encodable(commit.signed_txn) && valid_accounts(
            commit.account_states,
        ) && distinct_accounts(commit.account_states) && valid_events(commit.events),
        list.valid() <==> {
            &&& forall|i: int| #![trigger list.transaction_and_infos[i]]
                0 <= i < list.transaction_and_infos.len() ==> SignedTransaction::encodable(
                    list.transaction_and_infos[i].0,
                ) && list.transaction_and_infos[i].1.valid()
            &&& list.events is Some ==> valid_event_lists(list.events->Some_0)
            &&& list.proof_of_first_transaction is Some ==> valid_path(
                list.proof_of_first_transaction->Some_0,
            )
            &&& list.proof_of_last_transaction is Some ==> valid_path(
                list.proof_of_last_transaction->Some_0,
            )
        },
{
    assert forall|i: int| 0 <= i < events.len() implies (#[trigger] events[i]).valid() == (
    events[i].key.len() == 40) by {}
}

/// To the second, a value differs only in the expiration times of its transactions.
pub proof fn only_expiration_times_are_cut(
    with_proof: SignedTransactionWithProofView,
    commit: TransactionToCommitView,
    list: TransactionListView,
)
    ensures
        with_proof.whole_seconds().version == with_proof.version,
        with_proof.whole_seconds().signed_transaction
            == with_proof.signed_transaction.whole_seconds(),
        with_proof.whole_seconds().events == with_proof.events,
        with_proof.whole_seconds().proof == with_proof.proof,
        commit.whole_seconds().signed_txn == commit.signed_txn.whole_seconds(),
        commit.whole_seconds().account_states == commit.account_states,
        commit.whole_seconds().events == commit.events,
        commit.whole_seconds().gas_used == commit.gas_used,
        commit.whole_seconds().major_status == commit.major_status,
        list.whole_seconds().transaction_and_infos.len() == list.transaction_and_infos.len(),
        forall|i: int| #![trigger list.transaction_and_infos[i]]
            0 <= i < list.transaction_and_infos.len()
                ==> list.whole_seconds().transaction_and_infos[i].0
                == list.transaction_and_infos[i].0.whole_seconds()
                && list.whole_seconds().transaction_and_infos[i].1
                == list.transaction_and_infos[i].1,
        list.whole_seconds().events == list.events,
        list.whole_seconds().first_transaction_version == list.first_transaction_version,
        list.whole_seconds().proof_of_first_transaction == list.proof_of_first_transaction,
        list.whole_seconds().proof_of_last_transaction == list.proof_of_last_transaction,
{
}

// ---------------------------------------------------------------------------------------------
// Statuses
// ---------------------------------------------------------------------------------------------

/// A transaction is kept exactly where the number of its status is from 3000 to 4999, and is
/// otherwise discarded; the status stays what it was. Each thousand numbers are of one class.
pub proof fn statuses_by_number(s: VMStatus)
    ensures
        <TransactionStatus as vstd::std_specs::convert::FromSpec<VMStatus>>::from_spec(s) is Keep
            <==> 3000 <= s.major_status.code < 5000,
        <TransactionStatus as vstd::std_specs::convert::FromSpec<VMStatus>>::from_spec(s) is Discard
            <==> s.major_status.code < 3000 || 5000 <= s.major_status.code,
        <TransactionStatus as vstd::std_specs::convert::FromSpec<VMStatus>>::from_spec(s).status()
            == s,
        TransactionStatus::Keep(s).status() == s,
        TransactionStatus::Discard(s).status() == s,
        s.major_status.class() is Validation <==> s.major_status.code < 1000,
        s.major_status.class() is Verification <==> 1000 <= s.major_status.code < 2000,
        s.major_status.class() is InvariantViolation <==> 2000 <= s.major_status.code < 3000,
        s.major_status.class() is Deserialization <==> 3000 <= s.major_status.code < 4000,
        s.major_status.class() is Execution <==> 4000 <= s.major_status.code < 5000,
        s.major_status.class() is Unknown <==> 5000 <= s.major_status.code,
        s.major_status.class().discards() <==> s.major_status.code < 3000 || 5000
            <= s.major_status.code,
{
}

} // verus!
