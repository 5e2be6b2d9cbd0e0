//! A signed transaction with the proof that it is in a ledger.

use vstd::prelude::*;
use crate::address::{AccountAddress, HashValue};
use crate::codec::CanonicalSerialize;
use crate::convert::{FromProto, IntoProto};
use crate::error::Error;
use crate::event::{clone_events, events_from_proto, events_into_proto, ContractEvent};
use crate::event::{
    lemma_valid_events, option_events, read_option_events, valid_events, written_option_events,
    EventView,
};
use crate::info::SignedTransactionProof;
use crate::info::SignedTransactionProofView;
use crate::laws::transaction_with_proof_message_round_trip;
use crate::proto::SignedTransactionWithProofProto;
use crate::proto::SignedTransactionWithProofMessage;
use crate::transaction::{SignedTransaction, Version};
use crate::transaction::{hashed, hashes, SignedTransactionView};

verus! {

/// A signed transaction, its version, the events that it emitted, and the proof that it is in a
/// ledger.
#[derive(Debug, PartialEq, Eq)]
pub struct SignedTransactionWithProof {
    pub version: Version,
    pub signed_transaction: SignedTransaction,
    pub events: Option<Vec<ContractEvent>>,
    pub proof: SignedTransactionProof,
}

/// What a transaction with its proof holds.
pub ghost struct SignedTransactionWithProofView {
    pub version: Version,
    pub signed_transaction: SignedTransactionView,
    pub events: Option<Seq<EventView>>,
    pub proof: SignedTransactionProofView,
}

impl View for SignedTransactionWithProof {
    type V = SignedTransactionWithProofView;

    open spec fn view(&self) -> SignedTransactionWithProofView {
        SignedTransactionWithProofView {
            version: self.version,
            signed_transaction: self.signed_transaction@,
            events: option_events(self.events),
            proof: self.proof@,
        }
    }
}

impl Clone for SignedTransactionWithProof {
    fn clone(&self) -> (r: SignedTransactionWithProof)
        ensures
            r@ == self@,
    {
        let events = match &self.events {
            Some(events) => Some(clone_events(events)),
            None => None,
        };
        SignedTransactionWithProof {
            version: self.version,
            signed_transaction: self.signed_transaction.clone(),
            events,
            proof: self.proof.clone(),
        }
    }
}

// ---------------------------------------------------------------------------------------------
// Verification
// ---------------------------------------------------------------------------------------------

/// `root` is what `event_root` makes of the hashes that `hash_event` makes of the events; there
/// is none where there are no events.
pub open spec fn is_events_root<E, R>(
    hash_event: E,
    event_root: R,
    events: Option<Vec<ContractEvent>>,
    root: Option<HashValue>,
) -> bool where E: Fn(&ContractEvent) -> HashValue, R: Fn(&[HashValue]) -> HashValue {
    match (events, root) {
        (None, None) => true,
        (Some(events), Some(root)) => is_root(hash_event, event_root, events@, root),
        _ => false,
    }
}

/// `root` is what `event_root` makes of the hashes that `hash_event` makes of the events.
pub open spec fn is_root<E, R>(
    hash_event: E,
    event_root: R,
    events: Seq<ContractEvent>,
    root: HashValue,
) -> bool where E: Fn(&ContractEvent) -> HashValue, R: Fn(&[HashValue]) -> HashValue {
    exists|event_hashes: &[HashValue]|
        are_event_hashes(hash_event, events, event_hashes@) && #[trigger] call_ensures(
            event_root,
            (event_hashes,),
            root,
        )
}

/// Each of `event_hashes` is what `hash_event` makes of the event at its place.
pub open spec fn are_event_hashes<E: Fn(&ContractEvent) -> HashValue>(
    hash_event: E,
    events: Seq<ContractEvent>,
    event_hashes: Seq<HashValue>,
) -> bool {
    event_hashes.len() == events.len() && forall|i: int|
        0 <= i < events.len() ==> call_ensures(hash_event, (&events[i],), #[trigger] event_hashes[i])
}

/// The root of the events, which is the only thing that a proof says of them.
pub fn events_root_hash<E, R>(
    events: &Option<Vec<ContractEvent>>,
    hash_event: &E,
    event_root: &R,
) -> (r: Option<HashValue>) where
    E: Fn(&ContractEvent) -> HashValue,
    R: Fn(&[HashValue]) -> HashValue,

    requires
        forall|event: &ContractEvent| #[trigger] call_requires(*hash_event, (event,)),
        forall|event_hashes: &[HashValue]| #[trigger] call_requires(*event_root, (event_hashes,)),
    ensures
        is_events_root(*hash_event, *event_root, *events, r),
        *events is Some <==> r is Some,
        match (*events, r) {
            (Some(list), Some(root)) => exists|event_hashes: &[HashValue]|
                event_hashes@.len() == list@.len() && (forall|i: int|
                    0 <= i < list@.len() ==> call_ensures(
                        *hash_event,
                        (&list@[i],),
                        #[trigger] event_hashes@[i],
                    )) && #[trigger] call_ensures(*event_root, (event_hashes,), root),
            _ => true,
        },
{
    match events {
        None => None,
        Some(list) => {
            let mut event_hashes: Vec<HashValue> = Vec::new();
            let mut i: usize = 0;
            while i < list.len()
                invariant
                    i <= list@.len(),
                    event_hashes@.len() == i,
                    forall|event: &ContractEvent| #[trigger] call_requires(*hash_event, (event,)),
                    forall|j: int|
                        0 <= j < i ==> call_ensures(
                            *hash_event,
                            (&list@[j],),
                            #[trigger] event_hashes@[j],
                        ),
                decreases list@.len() - i,
            {
                let event_hash = hash_event(&list[i]);
                event_hashes.push(event_hash);
                i = i + 1;
            }
            let event_hashes = event_hashes.as_slice();
            assert(are_event_hashes(*hash_event, list@, event_hashes@));
            let root = event_root(event_hashes);
            Some(root)
        },
    }
}

impl SignedTransactionWithProofView {
    /// The transaction can be encoded, and the parts of fixed length have it.
    pub open spec fn valid(self) -> bool {
        &&& SignedTransaction::encodable(self.signed_transaction)
        &&& self.proof.valid()
        &&& self.events matches Some(events) ==> valid_events(events)
    }

    /// The transaction with the fraction of a second taken off its expiration time.
    pub open spec fn whole_seconds(self) -> SignedTransactionWithProofView {
        SignedTransactionWithProofView {
            signed_transaction: self.signed_transaction.whole_seconds(),
            ..self
        }
    }

    /// The transaction is the one of this version, sender and sequence number.
    pub open spec fn is_expected(
        self,
        version: Version,
        sender: Seq<u8>,
        sequence_number: u64,
    ) -> bool {
        &&& self.version == version
        &&& self.signed_transaction.raw_txn.sender == sender
        &&& self.signed_transaction.raw_txn.sequence_number == sequence_number
    }
}

impl SignedTransactionWithProof {
    /// Checks that the transaction is the one of this version, sender and sequence number. The
    /// first of these that differs is named.
    pub fn check_expected(
        &self,
        version: Version,
        sender: AccountAddress,
        sequence_number: u64,
    ) -> (r: Result<(), Error>)
        ensures
            r is Ok <==> self@.is_expected(version, sender@, sequence_number),
            r is Ok <==> self.version == version && self.signed_transaction@.raw_txn.sender
                == sender@ && self.signed_transaction@.raw_txn.sequence_number == sequence_number,
            r is Err ==> if self.version != version {
                r->Err_0 == (Error::VersionMismatch {
                    found_version: self.version,
                    expected_version: version,
                })
            } else if self@.signed_transaction.raw_txn.sender != sender@ {
                r->Err_0 is SenderMismatch && r->Err_0->found_sender@
                    == self@.signed_transaction.raw_txn.sender && r->Err_0->expected_sender@
                    == sender@
            } else {
                r->Err_0 == (Error::SequenceNumberMismatch {
                    found_number: self@.signed_transaction.raw_txn.sequence_number,
                    expected_number: sequence_number,
                })
            },
    {
        if self.version != version {
            return Err(
                Error::VersionMismatch { found_version: self.version, expected_version: version },
            );
        }
        let found_sender = self.signed_transaction.sender();
        if !found_sender.same_as(&sender) {
            return Err(Error::SenderMismatch { found_sender, expected_sender: sender });
        }
        let found_number: u64 = self.signed_transaction.sequence_number();
        if found_number != sequence_number {
            return Err(
                Error::SequenceNumberMismatch { found_number, expected_number: sequence_number },
            );
        }
        Ok(())
    }

    /// Verifies the signed transaction with the proof, both carried by `self`.
    ///
    /// Two things are ensured if no error is raised:
    ///   1. This signed transaction exists in the ledger represented by `ledger_info`.
    ///   2. And this signed transaction has the same `version`, `sender`, and `sequence_number` as
    /// indicated by the parameter list. If any of these parameter is unknown to the call site that
    /// is supposed to be informed via this struct, get it from the struct itself, such as:
    /// `signed_txn_with_proof.version`, `signed_txn_with_proof.signed_transaction.sender()`, etc.
    ///
    /// `hash_transaction` is the hash function for signed transactions, `hash_event` hashes an
    /// event, `event_root` is the root of an accumulator of such hashes, and
    /// `verify_signed_transaction` checks the proof of a transaction against a ledger.
    pub fn verify<L, T, E, R, P>(
        &self,
        ledger_info: &L,
        version: Version,
        sender: AccountAddress,
        sequence_number: u64,
        hash_transaction: &T,
        hash_event: &E,
        event_root: &R,
        verify_signed_transaction: &P,
    ) -> (r: Result<(), Error>) where
        T: Fn(&[u8]) -> HashValue,
        E: Fn(&ContractEvent) -> HashValue,
        R: Fn(&[HashValue]) -> HashValue,
        P: Fn(&L, HashValue, Option<HashValue>, Version, &SignedTransactionProof) -> Result<
            (),
            Error,
        >,

        requires
            hashes(*hash_transaction, SignedTransaction::encoding(self@.signed_transaction)),
            forall|event: &ContractEvent| #[trigger] call_requires(*hash_event, (event,)),
            forall|event_hashes: &[HashValue]| #[trigger]
                call_requires(*event_root, (event_hashes,)),
            forall|hash: HashValue, root: Option<HashValue>| #[trigger]
                call_requires(
                    *verify_signed_transaction,
                    (ledger_info, hash, root, version, &self.proof),
                ),
        ensures
            self.version != version ==> r == Err::<(), Error>(
                Error::VersionMismatch { found_version: self.version, expected_version: version },
            ),
            self.version == version && self@.signed_transaction.raw_txn.sender != sender@ ==> {
                &&& r is Err
                &&& r->Err_0 is SenderMismatch
                &&& r->Err_0->found_sender@ == self@.signed_transaction.raw_txn.sender
                &&& r->Err_0->expected_sender@ == sender@
            },
            self.version == version && self@.signed_transaction.raw_txn.sender == sender@
                && self@.signed_transaction.raw_txn.sequence_number != sequence_number ==> r
                == Err::<(), Error>(
                Error::SequenceNumberMismatch {
                    found_number: self@.signed_transaction.raw_txn.sequence_number,
                    expected_number: sequence_number,
                },
            ),
            self@.is_expected(version, sender@, sequence_number) ==> exists|
                hash: HashValue,
                root: Option<HashValue>,
            |
                hashed(
                    *hash_transaction,
                    SignedTransaction::encoding(self@.signed_transaction),
                    hash,
                ) && is_events_root(*hash_event, *event_root, self.events, root)
                    && #[trigger] call_ensures(
                    *verify_signed_transaction,
                    (ledger_info, hash, root, version, &self.proof),
                    r,
                ),
            r is Ok ==> self@.is_expected(version, sender@, sequence_number),
            self.version == version && self.signed_transaction@.raw_txn.sender == sender@
                && self.signed_transaction@.raw_txn.sequence_number == sequence_number ==> exists|
                bytes: &[u8],
                hash: HashValue,
                root: Option<HashValue>,
            |
                #![trigger call_ensures(*hash_transaction, (bytes,), hash), call_ensures(*verify_signed_transaction, (ledger_info, hash, root, version, &self.proof), r)]
                bytes@ == SignedTransaction::encoding(self.signed_transaction@) && call_ensures(
                    *hash_transaction,
                    (bytes,),
                    hash,
                ) && (self.events is Some <==> root is Some) && (match (self.events, root) {
                    (Some(list), Some(root_hash)) => exists|event_hashes: &[HashValue]|
                        event_hashes@.len() == list@.len() && (forall|i: int|
                            0 <= i < list@.len() ==> call_ensures(
                                *hash_event,
                                (&list@[i],),
                                #[trigger] event_hashes@[i],
                            )) && #[trigger] call_ensures(*event_root, (event_hashes,), root_hash),
                    _ => true,
                }) && call_ensures(
                    *verify_signed_transaction,
                    (ledger_info, hash, root, version, &self.proof),
                    r,
                ),
            r is Ok ==> self.version == version && self.signed_transaction@.raw_txn.sender
                == sender@ && self.signed_transaction@.raw_txn.sequence_number == sequence_number,
    {
        match self.check_expected(version, sender, sequence_number) {
            Ok(_) => {},
            Err(e) => return Err(e),
        }
        let root = events_root_hash(&self.events, hash_event, event_root);
        let hash = self.signed_transaction.hash(hash_transaction);
        verify_signed_transaction(ledger_info, hash, root, version, &self.proof)
    }
}

// ---------------------------------------------------------------------------------------------
// Messages
// ---------------------------------------------------------------------------------------------

impl FromProto for SignedTransactionWithProof {
    type ProtoType = SignedTransactionWithProofProto;

    open spec fn read(object: SignedTransactionWithProofMessage) -> Result<
        SignedTransactionWithProofView,
        Error,
    > {
        match SignedTransaction::read(object.signed_transaction) {
            Err(e) => Err(e),
            Ok(signed_transaction) => match SignedTransactionProof::read(object.proof) {
                Err(e) => Err(e),
                Ok(proof_view) => match read_option_events(object.events) {
                    Err(e) => Err(e),
                    Ok(events) => Ok(
                        SignedTransactionWithProofView {
                            version: object.version,
                            signed_transaction,
                            events,
                            proof: proof_view,
                        },
                    ),
                },
            },
        }
    }

    fn from_proto(object: SignedTransactionWithProofProto) -> (r: Result<Self, Error>) {
        let ghost message = object@;
        let version: Version = object.version;
        let signed_transaction = match SignedTransaction::from_proto(object.signed_transaction) {
            Ok(signed_transaction) => signed_transaction,
            Err(e) => return Err(e),
        };
        let transaction_proof = match SignedTransactionProof::from_proto(object.proof) {
            Ok(transaction_proof) => transaction_proof,
            Err(e) => return Err(e),
        };
        let events = match object.events {
            None => None,
            Some(list) => match events_from_proto(list) {
                Ok(events) => Some(events),
                Err(e) => return Err(e),
            },
        };
        Ok(
            SignedTransactionWithProof {
                version,
                signed_transaction,
                events,
                proof: transaction_proof,
            },
        )
    }
}

impl IntoProto for SignedTransactionWithProof {
    type ProtoType = SignedTransactionWithProofProto;

    open spec fn written(v: SignedTransactionWithProofView) -> SignedTransactionWithProofMessage {
        SignedTransactionWithProofMessage {
            version: v.version,
            signed_transaction: SignedTransaction::written(v.signed_transaction),
            proof: SignedTransactionProof::written(v.proof),
            events: written_option_events(v.events),
        }
    }

    /// Reading the message gives back the transaction with its proof, to the second.
    fn into_proto(self) -> (r: SignedTransactionWithProofProto)
        ensures
            SignedTransactionWithProof::read(r@) == Ok::<SignedTransactionWithProofView, Error>(
                self@.whole_seconds(),
            ),
    {
        proof {
            self.proof.lemma_valid();
            if self.events is Some {
                lemma_valid_events(self.events->Some_0@);
            }
        }
        let events = match self.events {
            Some(events) => Some(events_into_proto(events)),
            None => None,
        };
        let object = SignedTransactionWithProofProto {
            version: self.version,
            signed_transaction: self.signed_transaction.into_proto(),
            proof: self.proof.into_proto(),
            events,
        };
        let ghost message = object@;
        proof {
            transaction_with_proof_message_round_trip(self@);
        }
        object
    }
}

} // verus!
