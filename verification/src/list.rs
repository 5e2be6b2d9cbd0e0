//! Lists of transactions with what came of them, and the proofs that they are in a ledger.

use vstd::prelude::*;
use crate::codec::CanonicalSerialize;
use crate::codec::views;
use crate::convert::{FromProto, IntoProto};
use crate::error::Error;
use crate::event::{
    clone_event_lists, event_lists_from_proto, event_lists_into_proto, ContractEvent,
};
use crate::event::{
    lemma_valid_event_lists, option_event_lists, read_option_event_lists, valid_event_lists,
    written_option_event_lists, EventView,
};
use crate::info::{AccumulatorProof, TransactionInfo};
use crate::info::{valid_path, TransactionInfoView};
use crate::fields::{lists_are_read_by_field, lists_are_written_by_field};
use crate::laws::transaction_list_message_round_trip;
use crate::proto::{
    repeated_events_lists, repeated_infos, repeated_transactions, take_events_lists, take_infos,
    take_transactions, zip_equal, AccumulatorProofProto, EventsForVersionsProto,
    SignedTransactionProto, TransactionInfoProto, TransactionListWithProofProto,
};
use crate::proto::{
    infos_in, option_view, transactions_in, TransactionInfoMessage, TransactionListWithProofMessage,
};
use crate::text::append_decimal;
use crate::text::decimal;
use crate::transaction::{SignedTransaction, Version};
use crate::transaction::SignedTransactionView;

verus! {

/// The list may have three states:
/// 1. The list is empty. Both proofs must be `None`.
/// 2. The list has only 1 transaction/transaction_info. Then `proof_of_first_transaction`
/// must exist and `proof_of_last_transaction` must be `None`.
/// 3. The list has 2+ transactions/transaction_infos. The both proofs must exist.
#[derive(Debug, PartialEq, Eq)]
pub struct TransactionListWithProof {
    pub transaction_and_infos: Vec<(SignedTransaction, TransactionInfo)>,
    pub events: Option<Vec<Vec<ContractEvent>>>,
    pub first_transaction_version: Option<Version>,
    pub proof_of_first_transaction: Option<AccumulatorProof>,
    pub proof_of_last_transaction: Option<AccumulatorProof>,
}

/// What a list of transactions holds.
pub ghost struct TransactionListView {
    pub transaction_and_infos: Seq<(SignedTransactionView, TransactionInfoView)>,
    pub events: Option<Seq<Seq<EventView>>>,
    pub first_transaction_version: Option<Version>,
    pub proof_of_first_transaction: Option<Seq<Seq<u8>>>,
    pub proof_of_last_transaction: Option<Seq<Seq<u8>>>,
}

impl View for TransactionListWithProof {
    type V = TransactionListView;

    open spec fn view(&self) -> TransactionListView {
        TransactionListView {
            transaction_and_infos: views(self.transaction_and_infos@),
            events: option_event_lists(self.events),
            first_transaction_version: self.first_transaction_version,
            proof_of_first_transaction: option_view(self.proof_of_first_transaction),
            proof_of_last_transaction: option_view(self.proof_of_last_transaction),
        }
    }
}

impl Clone for TransactionListWithProof {
    fn clone(&self) -> (r: TransactionListWithProof)
        ensures
            r@ == self@,
    {
        let mut transaction_and_infos: Vec<(SignedTransaction, TransactionInfo)> = Vec::new();
        let mut i: usize = 0;
        while i < self.transaction_and_infos.len()
            invariant
                i <= self.transaction_and_infos@.len(),
                transaction_and_infos@.len() == i,
                forall|j: int|
                    0 <= j < i ==> (#[trigger] transaction_and_infos@[j])@
                        == self.transaction_and_infos@[j]@,
            decreases self.transaction_and_infos@.len() - i,
        {
            let pair = &self.transaction_and_infos[i];
            transaction_and_infos.push((pair.0.clone(), pair.1));
            i = i + 1;
        }
        assert(views(transaction_and_infos@) =~= views(self.transaction_and_infos@));
        let events = match &self.events {
            Some(lists) => Some(clone_event_lists(lists)),
            None => None,
        };
        let proof_of_first_transaction = match &self.proof_of_first_transaction {
            Some(path) => Some(path.clone()),
            None => None,
        };
        let proof_of_last_transaction = match &self.proof_of_last_transaction {
            Some(path) => Some(path.clone()),
            None => None,
        };
        TransactionListWithProof {
            transaction_and_infos,
            events,
            first_transaction_version: self.first_transaction_version,
            proof_of_first_transaction,
            proof_of_last_transaction,
        }
    }
}

// ---------------------------------------------------------------------------------------------
// The three states
// ---------------------------------------------------------------------------------------------

/// What is wrong with a list of `n` transactions that has these parts, if anything.
pub open spec fn shape_error(n: nat, has_first: bool, has_last: bool, has_version: bool) -> Option<
    Error,
> {
    if n == 0 {
        if has_first || has_last || has_version {
            Some(Error::ProofForEmptyList)
        } else {
            None
        }
    } else if n == 1 {
        if has_first && !has_last && has_version {
            None
        } else {
            Some(Error::ProofForSingleTransaction)
        }
    } else {
        if has_first && has_last && has_version {
            None
        } else {
            Some(Error::ProofForManyTransactions)
        }
    }
}

impl TransactionListView {
    /// The transactions can be encoded, and the parts of fixed length have it.
    pub open spec fn valid(self) -> bool {
        &&& forall|i: int| #![trigger self.transaction_and_infos[i]]
            0 <= i < self.transaction_and_infos.len() ==> SignedTransaction::encodable(
                self.transaction_and_infos[i].0,
            ) && self.transaction_and_infos[i].1.valid()
        &&& self.events matches Some(lists) ==> valid_event_lists(lists)
        &&& self.proof_of_first_transaction matches Some(path) ==> valid_path(path)
        &&& self.proof_of_last_transaction matches Some(path) ==> valid_path(path)
    }

    /// The list with the fractions of a second taken off the expiration times.
    pub open spec fn whole_seconds(self) -> TransactionListView {
        TransactionListView {
            transaction_and_infos: Seq::new(
                self.transaction_and_infos.len(),
                |i: int|
                    (
                        self.transaction_and_infos[i].0.whole_seconds(),
                        self.transaction_and_infos[i].1,
                    ),
            ),
            ..self
        }
    }

    /// The list is in one of the three states, with a version exactly where it is not empty.
    pub open spec fn well_formed(self) -> bool {
        shape_error(
            self.transaction_and_infos.len(),
            self.proof_of_first_transaction is Some,
            self.proof_of_last_transaction is Some,
            self.first_transaction_version is Some,
        ) is None
    }
}

/// Checks that a list of `n` transactions has the right parts.
pub fn check_shape(n: usize, has_first: bool, has_last: bool, has_version: bool) -> (r: Result<
    (),
    Error,
>)
    ensures
        match shape_error(n as nat, has_first, has_last, has_version) {
            None => r is Ok,
            Some(e) => r == Err::<(), Error>(e),
        },
{
    match n {
        0 => if has_first || has_last || has_version {
            return Err(Error::ProofForEmptyList);
        },
        1 => if !has_first || has_last || !has_version {
            return Err(Error::ProofForSingleTransaction);
        },
        _ => if !has_first || !has_last || !has_version {
            return Err(Error::ProofForManyTransactions);
        },
    }
    Ok(())
}

// ---------------------------------------------------------------------------------------------
// Lists
// ---------------------------------------------------------------------------------------------

/// A version as text; `absent` where there is none.
pub open spec fn version_text(version: Option<Version>) -> Seq<char> {
    match version {
        Some(v) => decimal(v as nat),
        None => "absent"@,
    }
}

impl TransactionListWithProof {
    /// Constructor.
    pub fn new(
        transaction_and_infos: Vec<(SignedTransaction, TransactionInfo)>,
        events: Option<Vec<Vec<ContractEvent>>>,
        first_transaction_version: Option<Version>,
        proof_of_first_transaction: Option<AccumulatorProof>,
        proof_of_last_transaction: Option<AccumulatorProof>,
    ) -> (r: TransactionListWithProof)
        ensures
            r.transaction_and_infos == transaction_and_infos,
            r.events == events,
            r.first_transaction_version == first_transaction_version,
            r.proof_of_first_transaction == proof_of_first_transaction,
            r.proof_of_last_transaction == proof_of_last_transaction,
    {
        TransactionListWithProof {
            transaction_and_infos,
            events,
            first_transaction_version,
            proof_of_first_transaction,
            proof_of_last_transaction,
        }
    }

    /// Creates an empty transaction list.
    pub fn new_empty() -> (r: TransactionListWithProof)
        ensures
            r@ == (TransactionListView {
                transaction_and_infos: Seq::empty(),
                events: None,
                first_transaction_version: None,
                proof_of_first_transaction: None,
                proof_of_last_transaction: None,
            }),
            r@.well_formed(),
    {
        let r = TransactionListWithProof::new(Vec::new(), None, None, None, None);
        assert(r@.transaction_and_infos =~= Seq::empty());
        r
    }

    /// Verifies the transaction list with the proofs, both carried on `self`.
    ///
    /// Two things are ensured if no error is raised:
    ///   1. All the transactions exist on the ledger represented by `ledger_info`.
    ///   2. And the transactions in the list has consecutive versions starting from
    /// `first_transaction_version`. When `first_transaction_version` is None, ensures the list is
    /// empty.
    ///
    /// `verify_transaction_list` checks the proofs of a list against a ledger. It is not asked
    /// about a list that has transactions but no version, which is refused.
    pub fn verify<L, P>(
        &self,
        ledger_info: &L,
        first_transaction_version: Option<Version>,
        verify_transaction_list: &P,
    ) -> (r: Result<(), Error>) where P: Fn(&L, &TransactionListWithProof) -> Result<(), Error>
        requires
            call_requires(*verify_transaction_list, (ledger_info, self)),
        ensures
            self.first_transaction_version != first_transaction_version ==> r == Err::<(), Error>(
                Error::FirstVersionMismatch {
                    found_first: self.first_transaction_version,
                    expected_first: first_transaction_version,
                },
            ),
            self.first_transaction_version == first_transaction_version
                && first_transaction_version is None && self.transaction_and_infos@.len() > 0 ==> r
                == Err::<(), Error>(Error::MissingFirstVersion),
            self.first_transaction_version == first_transaction_version && (
            first_transaction_version is Some || self.transaction_and_infos@.len() == 0)
                ==> call_ensures(*verify_transaction_list, (ledger_info, self), r),
            r is Ok ==> self.first_transaction_version == first_transaction_version,
            r is Ok && first_transaction_version is None ==> self.transaction_and_infos@.len() == 0,
            r is Ok && self@.well_formed() ==> (first_transaction_version is None <==>
                self.transaction_and_infos@.len() == 0),
    {
        let same = match (self.first_transaction_version, first_transaction_version) {
            (Some(found), Some(expected)) => found == expected,
            (None, None) => true,
            _ => false,
        };
        if !same {
            return Err(
                Error::FirstVersionMismatch {
                    found_first: self.first_transaction_version,
                    expected_first: first_transaction_version,
                },
            );
        }
        if first_transaction_version.is_none() && !self.is_empty() {
            return Err(Error::MissingFirstVersion);
        }
        verify_transaction_list(ledger_info, self)
    }

    /// Whether the list has no transactions.
    pub fn is_empty(&self) -> (r: bool)
        ensures
            r == (self.transaction_and_infos@.len() == 0),
    {
        self.transaction_and_infos.is_empty()
    }

    /// How many transactions the list has.
    pub fn len(&self) -> (r: usize)
        ensures
            r == self.transaction_and_infos@.len(),
    {
        self.transaction_and_infos.len()
    }

    /// A version as text; `absent` where there is none.
    pub fn display_option_version(version: Option<Version>) -> (r: String)
        ensures
            r@ == version_text(version),
    {
        match version {
            Some(v) => {
                let mut out = String::new();
                append_decimal(&mut out, v);
                assert(out@ =~= decimal(v as nat));
                out
            },
            None => String::from_str("absent"),
        }
    }
}

// ---------------------------------------------------------------------------------------------
// Messages
// ---------------------------------------------------------------------------------------------

/// What each transaction message and the info message beside it say; if one says nothing, why the
/// first such one does not, where a transaction comes before its info.
pub open spec fn read_pairs(
    transactions: Seq<Seq<u8>>,
    infos: Seq<TransactionInfoMessage>,
) -> Result<Seq<(SignedTransactionView, TransactionInfoView)>, Error>
    decreases transactions.len(),
{
    if transactions.len() == 0 {
        Ok(Seq::empty())
    } else {
        match read_pairs(transactions.drop_last(), infos.drop_last()) {
            Err(e) => Err(e),
            Ok(before) => match SignedTransaction::read(transactions.last()) {
                Err(e) => Err(e),
                Ok(transaction) => match TransactionInfo::read(infos.last()) {
                    Err(e) => Err(e),
                    Ok(info) => Ok(before.push((transaction, info))),
                },
            },
        }
    }
}

/// Lists with a message that says nothing say nothing as a whole.
proof fn lemma_read_pairs_stops(
    transactions: Seq<Seq<u8>>,
    infos: Seq<TransactionInfoMessage>,
    n: int,
)
    requires
        0 <= n <= transactions.len(),
        transactions.len() == infos.len(),
        read_pairs(transactions.take(n), infos.take(n)) is Err,
    ensures
        read_pairs(transactions, infos) == read_pairs(transactions.take(n), infos.take(n)),
    decreases transactions.len(),
{
    if n == transactions.len() {
        assert(transactions.take(n) =~= transactions);
        assert(infos.take(n) =~= infos);
    } else {
        assert(transactions.drop_last().take(n) =~= transactions.take(n));
        assert(infos.drop_last().take(n) =~= infos.take(n));
        lemma_read_pairs_stops(transactions.drop_last(), infos.drop_last(), n);
    }
}

/// What is read has a pair for each message, and each pair is what its two messages say.
pub proof fn lemma_read_pairs_items(
    transactions: Seq<Seq<u8>>,
    infos: Seq<TransactionInfoMessage>,
)
    requires
        transactions.len() == infos.len(),
    ensures
        read_pairs(transactions, infos) matches Ok(pairs) ==> pairs.len() == transactions.len()
            && forall|i: int| #![trigger pairs[i]]
            0 <= i < pairs.len() ==> SignedTransaction::read(transactions[i]) == Ok::<
                SignedTransactionView,
                Error,
            >(pairs[i].0) && TransactionInfo::read(infos[i]) == Ok::<TransactionInfoView, Error>(
                pairs[i].1,
            ),
    decreases transactions.len(),
{
    if read_pairs(transactions, infos) is Ok && transactions.len() > 0 {
        lemma_read_pairs_items(transactions.drop_last(), infos.drop_last());
        let before = read_pairs(transactions.drop_last(), infos.drop_last())->Ok_0;
        let pairs = read_pairs(transactions, infos)->Ok_0;
        assert forall|i: int| #![trigger pairs[i]] 0 <= i < pairs.len() implies SignedTransaction::read(
            transactions[i],
        ) == Ok::<SignedTransactionView, Error>(pairs[i].0) && TransactionInfo::read(infos[i])
            == Ok::<TransactionInfoView, Error>(pairs[i].1) by {
            if i < pairs.len() - 1 {
                assert(pairs[i] == before[i]);
                assert(transactions.drop_last()[i] == transactions[i]);
                assert(infos.drop_last()[i] == infos[i]);
            }
        }
    }
}

/// Reads transactions and the infos beside them.
fn pairs_from_proto(
    transactions: Vec<SignedTransactionProto>,
    infos: Vec<TransactionInfoProto>,
) -> (r: Result<Vec<(SignedTransaction, TransactionInfo)>, Error>)
    requires
        transactions@.len() == infos@.len(),
    ensures
        match read_pairs(views(transactions@), views(infos@)) {
            Ok(v) => r is Ok && views(r->Ok_0@) == v,
            Err(e) => r == Err::<Vec<(SignedTransaction, TransactionInfo)>, Error>(e),
        },
{
    let ghost txns = views(transactions@);
    let ghost outcomes = views(infos@);
    let objects = zip_equal(transactions, infos);
    let ghost given = objects@;
    let mut pairs: Vec<(SignedTransaction, TransactionInfo)> = Vec::new();
    assert(views(pairs@) =~= Seq::empty());
    assert(txns.take(0) =~= Seq::empty());
    for object in it: objects
        invariant
            it.seq() == given,
            txns == views(transactions@),
            outcomes == views(infos@),
            given.len() == txns.len(),
            given.len() == outcomes.len(),
            forall|i: int|
                0 <= i < given.len() ==> (#[trigger] given[i]).0@ == txns[i] && given[i].1@
                    == outcomes[i],
            read_pairs(txns.take(it.index() as int), outcomes.take(it.index() as int)) == Ok::<
                Seq<(SignedTransactionView, TransactionInfoView)>,
                Error,
            >(views(pairs@)),
    {
        let ghost k = it.index() as int;
        let ghost before = pairs@;
        proof {
            assert(object == given[k]);
            assert(txns.take(k + 1).drop_last() =~= txns.take(k));
            assert(outcomes.take(k + 1).drop_last() =~= outcomes.take(k));
            assert(txns.take(k + 1).last() == object.0@);
            assert(outcomes.take(k + 1).last() == object.1@);
        }
        let (txn, info) = object;
        let transaction = match SignedTransaction::from_proto(txn) {
            Ok(transaction) => transaction,
            Err(e) => {
                proof {
                    lemma_read_pairs_stops(txns, outcomes, k + 1);
                }
                return Err(e);
            },
        };
        let outcome = match TransactionInfo::from_proto(info) {
            Ok(outcome) => outcome,
            Err(e) => {
                proof {
                    lemma_read_pairs_stops(txns, outcomes, k + 1);
                }
                return Err(e);
            },
        };
        let ghost pair = (transaction@, outcome@);
        pairs.push((transaction, outcome));
        assert(views(pairs@) =~= views(before).push(pair));
    }
    assert(txns.take(given.len() as int) =~= txns);
    assert(outcomes.take(given.len() as int) =~= outcomes);
    Ok(pairs)
}

/// What the message of a proof says, where there is one.
pub open spec fn read_option_proof(o: Option<Seq<Seq<u8>>>) -> Result<
    Option<Seq<Seq<u8>>>,
    Error,
> {
    match o {
        None => Ok(None),
        Some(message) => match AccumulatorProof::read(message) {
            Ok(path) => Ok(Some(path)),
            Err(e) => Err(e),
        },
    }
}

/// The message of a proof, where there is one.
pub open spec fn written_option_proof(o: Option<Seq<Seq<u8>>>) -> Option<Seq<Seq<u8>>> {
    match o {
        None => None,
        Some(path) => Some(AccumulatorProof::written(path)),
    }
}

/// Reads a proof, where there is one.
fn option_proof_from_proto(object: Option<AccumulatorProofProto>) -> (r: Result<
    Option<AccumulatorProof>,
    Error,
>)
    ensures
        match read_option_proof(option_view(object)) {
            Ok(v) => r is Ok && option_view(r->Ok_0) == v,
            Err(e) => r == Err::<Option<AccumulatorProof>, Error>(e),
        },
{
    match object {
        None => Ok(None),
        Some(message) => match AccumulatorProof::from_proto(message) {
            Ok(path) => Ok(Some(path)),
            Err(e) => Err(e),
        },
    }
}

/// Writes a proof, where there is one.
fn option_proof_into_proto(path: Option<AccumulatorProof>) -> (r: Option<AccumulatorProofProto>)
    ensures
        option_view(r) == written_option_proof(option_view(path)),
{
    match path {
        None => None,
        Some(path) => Some(path.into_proto()),
    }
}

impl FromProto for TransactionListWithProof {
    type ProtoType = TransactionListWithProofProto;

    open spec fn read(object: TransactionListWithProofMessage) -> Result<
        TransactionListView,
        Error,
    > {
        if object.transactions.len() != object.infos.len() {
            Err(
                Error::InfoCountMismatch {
                    transactions: object.transactions.len() as usize,
                    infos: object.infos.len() as usize,
                },
            )
        } else {
            match shape_error(
                object.transactions.len(),
                object.proof_of_first_transaction is Some,
                object.proof_of_last_transaction is Some,
                object.first_transaction_version is Some,
            ) {
                Some(e) => Err(e),
                None => match read_option_event_lists(object.events_for_versions) {
                    Err(e) => Err(e),
                    Ok(events) => match read_pairs(object.transactions, object.infos) {
                        Err(e) => Err(e),
                        Ok(transaction_and_infos) => match read_option_proof(
                            object.proof_of_first_transaction,
                        ) {
                            Err(e) => Err(e),
                            Ok(proof_of_first_transaction) => match read_option_proof(
                                object.proof_of_last_transaction,
                            ) {
                                Err(e) => Err(e),
                                Ok(proof_of_last_transaction) => Ok(
                                    TransactionListView {
                                        transaction_and_infos,
                                        events,
                                        first_transaction_version: object.first_transaction_version,
                                        proof_of_first_transaction,
                                        proof_of_last_transaction,
                                    },
                                ),
                            },
                        },
                    },
                },
            }
        }
    }

    /// What the list has, it has from the fields of the same names: each proof from its own.
    fn from_proto(object: TransactionListWithProofProto) -> (r: Result<Self, Error>)
        ensures
            r matches Ok(list) ==> {
                &&& list.transaction_and_infos@.len() == transactions_in(object.transactions).len()
                &&& list.transaction_and_infos@.len() == infos_in(object.infos).len()
                &&& list.events is Some <==> object.events_for_versions is Some
                &&& list.first_transaction_version == object.first_transaction_version
                &&& option_view(list.proof_of_first_transaction) == option_view(
                    object.proof_of_first_transaction,
                )
                &&& option_view(list.proof_of_last_transaction) == option_view(
                    object.proof_of_last_transaction,
                )
            },
    {
        proof {
            lists_are_read_by_field(object@);
        }
        let transactions = take_transactions(object.transactions);
        let infos = take_infos(object.infos);
        let num_txns: usize = transactions.len();
        let num_infos: usize = infos.len();
        if num_txns != num_infos {
            return Err(Error::InfoCountMismatch { transactions: num_txns, infos: num_infos });
        }
        match check_shape(
            num_txns,
            object.proof_of_first_transaction.is_some(),
            object.proof_of_last_transaction.is_some(),
            object.first_transaction_version.is_some(),
        ) {
            Ok(_) => {},
            Err(e) => return Err(e),
        }
        let events = match object.events_for_versions {
            None => None,
            Some(lists) => match event_lists_from_proto(
                take_events_lists(lists.events_for_version),
            ) {
                Ok(events) => Some(events),
                Err(e) => return Err(e),
            },
        };
        let transaction_and_infos = match pairs_from_proto(transactions, infos) {
            Ok(pairs) => pairs,
            Err(e) => return Err(e),
        };
        let proof_of_first_transaction = match option_proof_from_proto(
            object.proof_of_first_transaction,
        ) {
            Ok(path) => path,
            Err(e) => return Err(e),
        };
        let proof_of_last_transaction = match option_proof_from_proto(
            object.proof_of_last_transaction,
        ) {
            Ok(path) => path,
            Err(e) => return Err(e),
        };
        Ok(
            TransactionListWithProof {
                transaction_and_infos,
                events,
                first_transaction_version: object.first_transaction_version,
                proof_of_first_transaction,
                proof_of_last_transaction,
            },
        )
    }
}

impl IntoProto for TransactionListWithProof {
    type ProtoType = TransactionListWithProofProto;

    open spec fn written(v: TransactionListView) -> TransactionListWithProofMessage {
        TransactionListWithProofMessage {
            transactions: Seq::new(
                v.transaction_and_infos.len(),
                |i: int| SignedTransaction::written(v.transaction_and_infos[i].0),
            ),
            infos: Seq::new(
                v.transaction_and_infos.len(),
                |i: int| TransactionInfo::written(v.transaction_and_infos[i].1),
            ),
            events_for_versions: written_option_event_lists(v.events),
            first_transaction_version: v.first_transaction_version,
            proof_of_first_transaction: written_option_proof(v.proof_of_first_transaction),
            proof_of_last_transaction: written_option_proof(v.proof_of_last_transaction),
        }
    }

    /// Reading the message gives back the list, to the second, where it is in one of the three
    /// states; otherwise the message is refused for its shape. Each proof goes to its own field.
    fn into_proto(self) -> (r: TransactionListWithProofProto)
        ensures
            self@.well_formed() ==> TransactionListWithProof::read(r@) == Ok::<
                TransactionListView,
                Error,
            >(self@.whole_seconds()),
            !self@.well_formed() ==> TransactionListWithProof::read(r@) is Err,
            transactions_in(r.transactions).len() == self.transaction_and_infos@.len(),
            infos_in(r.infos).len() == self.transaction_and_infos@.len(),
            r.events_for_versions is Some <==> self.events is Some,
            r.first_transaction_version == self.first_transaction_version,
            option_view(r.proof_of_first_transaction) == option_view(
                self.proof_of_first_transaction,
            ),
            option_view(r.proof_of_last_transaction) == option_view(self.proof_of_last_transaction),
    {
        proof {
            if self.proof_of_first_transaction is Some {
                self.proof_of_first_transaction->Some_0.lemma_valid();
            }
            if self.proof_of_last_transaction is Some {
                self.proof_of_last_transaction->Some_0.lemma_valid();
            }
            if self.events is Some {
                lemma_valid_event_lists(self.events->Some_0@);
            }
        }
        let ghost given = self.transaction_and_infos@;
        let mut transactions: Vec<SignedTransactionProto> = Vec::new();
        let mut infos: Vec<TransactionInfoProto> = Vec::new();
        for pair in it: self.transaction_and_infos
            invariant
                it.seq() == given,
                transactions@.len() == it.index(),
                infos@.len() == it.index(),
                forall|j: int|
                    0 <= j < transactions@.len() ==> (#[trigger] transactions@[j])@
                        == SignedTransaction::written(given[j].0@),
                forall|j: int|
                    0 <= j < transactions@.len() ==> SignedTransaction::encodable(
                        (#[trigger] given[j]).0@,
                    ),
                forall|j: int|
                    0 <= j < infos@.len() ==> (#[trigger] infos@[j])@ == TransactionInfo::written(
                        given[j].1@,
                    ),
        {
            let ghost k = it.index() as int;
            assert(pair == given[k]);
            let (txn, info) = pair;
            transactions.push(txn.into_proto());
            infos.push(info.into_proto());
        }
        let events_for_versions = match self.events {
            Some(lists) => Some(
                EventsForVersionsProto {
                    events_for_version: repeated_events_lists(event_lists_into_proto(lists)),
                },
            ),
            None => None,
        };
        let object = TransactionListWithProofProto {
            transactions: repeated_transactions(transactions),
            infos: repeated_infos(infos),
            events_for_versions,
            first_transaction_version: self.first_transaction_version,
            proof_of_first_transaction: option_proof_into_proto(self.proof_of_first_transaction),
            proof_of_last_transaction: option_proof_into_proto(self.proof_of_last_transaction),
        };
        let ghost message = object@;
        assert(message.transactions =~= Self::written(self@).transactions);
        assert(message.infos =~= Self::written(self@).infos);
        proof {
            let pairs = self@.transaction_and_infos;
            assert forall|i: int| #![trigger pairs[i]] 0 <= i < pairs.len() implies
                SignedTransaction::encodable(pairs[i].0) && pairs[i].1.valid() by {
                assert(SignedTransaction::encodable(given[i].0@));
                given[i].1.lemma_valid();
            }
            transaction_list_message_round_trip(self@);
            lists_are_written_by_field(self@);
        }
        object
    }
}

} // verus!
