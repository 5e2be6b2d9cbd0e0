//! What came of transactions, and the proofs that they are in a ledger.

use vstd::prelude::*;
use crate::address::{HashValue, HASH_LENGTH};
use crate::canonical::{encode_bytes, encode_u64};
use crate::canonical::{bytes_encoding, u64_bytes};
use crate::codec::CanonicalSerialize;
use crate::codec::views;
use crate::convert::{from_proto_all, into_proto_all, FromProto, IntoProto};
use crate::convert::{read_all, written_all};
use crate::error::Error;
use crate::laws::accumulator_proof_message_round_trip;
use crate::proto::{AccumulatorProofProto, SignedTransactionProofProto, TransactionInfoProto};
use crate::proto::{SignedTransactionProofMessage, TransactionInfoMessage};
use crate::status::StatusCode;
use crate::transaction::hash_canonical_bytes;
use crate::transaction::{hashed, hashes};

verus! {

// ---------------------------------------------------------------------------------------------
// Transaction infos
// ---------------------------------------------------------------------------------------------

/// `TransactionInfo` is the object we store in the transaction accumulator. It consists of the
/// transaction as well as the execution result of this transaction.
#[derive(Debug, Clone, Copy, PartialEq, Eq)]
pub struct TransactionInfo {
    /// The hash of this transaction.
    signed_transaction_hash: HashValue,
    /// The root hash of Sparse Merkle Tree describing the world state at the end of this
    /// transaction.
    state_root_hash: HashValue,
    /// The root hash of Merkle Accumulator storing all events emitted during this transaction.
    event_root_hash: HashValue,
    /// The amount of gas used.
    gas_used: u64,
    /// The major status. This will provide the general error class. Note that this is not
    /// particularly high fidelity in the presence of sub statuses but, the major status does
    /// determine whether or not the transaction is applied to the global state or not.
    major_status: StatusCode,
}

/// What a transaction info holds.
pub ghost struct TransactionInfoView {
    pub signed_transaction_hash: Seq<u8>,
    pub state_root_hash: Seq<u8>,
    pub event_root_hash: Seq<u8>,
    pub gas_used: u64,
    pub major_status: StatusCode,
}

impl View for TransactionInfo {
    type V = TransactionInfoView;

    closed spec fn view(&self) -> TransactionInfoView {
        TransactionInfoView {
            signed_transaction_hash: self.signed_transaction_hash@,
            state_root_hash: self.state_root_hash@,
            event_root_hash: self.event_root_hash@,
            gas_used: self.gas_used,
            major_status: self.major_status,
        }
    }
}

impl TransactionInfoView {
    /// The hashes are as long as hashes are.
    pub open spec fn valid(self) -> bool {
        &&& self.signed_transaction_hash.len() == HASH_LENGTH
        &&& self.state_root_hash.len() == HASH_LENGTH
        &&& self.event_root_hash.len() == HASH_LENGTH
    }
}

impl TransactionInfo {
    /// Constructs a new `TransactionInfo` object using signed transaction hash, state root hash
    /// and event root hash.
    pub fn new(
        signed_transaction_hash: HashValue,
        state_root_hash: HashValue,
        event_root_hash: HashValue,
        gas_used: u64,
        major_status: StatusCode,
    ) -> (r: TransactionInfo)
        ensures
            r@ == (TransactionInfoView {
                signed_transaction_hash: signed_transaction_hash@,
                state_root_hash: state_root_hash@,
                event_root_hash: event_root_hash@,
                gas_used,
                major_status,
            }),
    {
        TransactionInfo {
            signed_transaction_hash,
            state_root_hash,
            event_root_hash,
            gas_used,
            major_status,
        }
    }

    /// Returns the hash of this transaction.
    pub fn signed_transaction_hash(&self) -> (r: HashValue)
        ensures
            r@ == self@.signed_transaction_hash,
    {
        self.signed_transaction_hash
    }

    /// Returns root hash of Sparse Merkle Tree describing the world state at the end of this
    /// transaction.
    pub fn state_root_hash(&self) -> (r: HashValue)
        ensures
            r@ == self@.state_root_hash,
    {
        self.state_root_hash
    }

    /// Returns the root hash of Merkle Accumulator storing all events emitted during this
    /// transaction.
    pub fn event_root_hash(&self) -> (r: HashValue)
        ensures
            r@ == self@.event_root_hash,
    {
        self.event_root_hash
    }

    /// Returns the amount of gas used by this transaction.
    pub fn gas_used(&self) -> (r: u64)
        ensures
            r == self@.gas_used,
    {
        self.gas_used
    }

    /// Returns the major status of this transaction.
    pub fn major_status(&self) -> (r: StatusCode)
        ensures
            r == self@.major_status,
    {
        self.major_status
    }

    /// The hash of the info. `hasher` is the hash function for transaction infos.
    pub fn hash<H: Fn(&[u8]) -> HashValue>(&self, hasher: &H) -> (r: HashValue)
        requires
            hashes(*hasher, TransactionInfo::encoding(self@)),
        ensures
            hashed(*hasher, TransactionInfo::encoding(self@), r),
    {
        proof {
            self.lemma_valid();
        }
        hash_canonical_bytes(self, hasher)
    }

    /// The hashes are always as long as hashes are.
    pub proof fn lemma_valid(self)
        ensures
            self@.valid(),
    {
        self.signed_transaction_hash.lemma_length();
        self.state_root_hash.lemma_length();
        self.event_root_hash.lemma_length();
    }
}

impl CanonicalSerialize for TransactionInfo {
    open spec fn encodable(v: TransactionInfoView) -> bool {
        v.valid()
    }

    open spec fn encoding(v: TransactionInfoView) -> Seq<u8> {
        bytes_encoding(v.signed_transaction_hash) + (bytes_encoding(v.state_root_hash) + (
        bytes_encoding(v.event_root_hash) + (u64_bytes(v.gas_used) + u64_bytes(
            v.major_status.code,
        ))))
    }

    /// Nothing is ever refused.
    open spec fn written_part(v: TransactionInfoView) -> Seq<u8> {
        Seq::empty()
    }

    fn serialize(&self, out: &mut Vec<u8>) -> (r: Result<(), Error>) {
        proof {
            self.lemma_valid();
        }
        let ghost start = out@;
        match encode_bytes(self.signed_transaction_hash.as_bytes(), out) {
            Ok(_) => {},
            Err(e) => return Err(e),
        }
        match encode_bytes(self.state_root_hash.as_bytes(), out) {
            Ok(_) => {},
            Err(e) => return Err(e),
        }
        match encode_bytes(self.event_root_hash.as_bytes(), out) {
            Ok(_) => {},
            Err(e) => return Err(e),
        }
        encode_u64(self.gas_used, out);
        encode_u64(self.major_status.code, out);
        assert(out@ =~= start + Self::encoding(self@));
        Ok(())
    }
}

impl TransactionInfo {
    /// What the message says, where `major_status` is what its status says.
    pub open spec fn read_with_status(
        object: TransactionInfoMessage,
        major_status: Result<StatusCode, Error>,
    ) -> Result<TransactionInfoView, Error> {
        match HashValue::read(object.signed_transaction_hash) {
            Err(e) => Err(e),
            Ok(signed_transaction_hash) => match HashValue::read(object.state_root_hash) {
                Err(e) => Err(e),
                Ok(state_root_hash) => match HashValue::read(object.event_root_hash) {
                    Err(e) => Err(e),
                    Ok(event_root_hash) => match major_status {
                        Err(e) => Err(e),
                        Ok(major_status) => Ok(
                            TransactionInfoView {
                                signed_transaction_hash,
                                state_root_hash,
                                event_root_hash,
                                gas_used: object.gas_used,
                                major_status,
                            },
                        ),
                    },
                },
            },
        }
    }

    /// Reads the message, where `major_status` is what reading its status gave. A hash that is
    /// none is named before a status that is none.
    pub fn from_proto_with_status(
        object: TransactionInfoProto,
        major_status: Result<StatusCode, Error>,
    ) -> (r: Result<TransactionInfo, Error>)
        ensures
            match TransactionInfo::read_with_status(object@, major_status) {
                Ok(v) => r is Ok && r->Ok_0@ == v,
                Err(e) => r == Err::<TransactionInfo, Error>(e),
            },
    {
        let signed_transaction_hash = match HashValue::from_proto(object.signed_transaction_hash) {
            Ok(hash) => hash,
            Err(e) => return Err(e),
        };
        let state_root_hash = match HashValue::from_proto(object.state_root_hash) {
            Ok(hash) => hash,
            Err(e) => return Err(e),
        };
        let event_root_hash = match HashValue::from_proto(object.event_root_hash) {
            Ok(hash) => hash,
            Err(e) => return Err(e),
        };
        let major_status = match major_status {
            Ok(major_status) => major_status,
            Err(e) => return Err(e),
        };
        Ok(
            TransactionInfo::new(
                signed_transaction_hash,
                state_root_hash,
                event_root_hash,
                object.gas_used,
                major_status,
            ),
        )
    }
}

impl FromProto for TransactionInfo {
    type ProtoType = TransactionInfoProto;

    open spec fn read(object: TransactionInfoMessage) -> Result<TransactionInfoView, Error> {
        TransactionInfo::read_with_status(object, StatusCode::read(object.major_status))
    }

    fn from_proto(object: TransactionInfoProto) -> (r: Result<Self, Error>) {
        let ghost message = object@;
        let major_status = StatusCode::from_proto(object.major_status);
        TransactionInfo::from_proto_with_status(object, major_status)
    }
}

impl IntoProto for TransactionInfo {
    type ProtoType = TransactionInfoProto;

    open spec fn written(v: TransactionInfoView) -> TransactionInfoMessage {
        TransactionInfoMessage {
            signed_transaction_hash: v.signed_transaction_hash,
            state_root_hash: v.state_root_hash,
            event_root_hash: v.event_root_hash,
            gas_used: v.gas_used,
            major_status: StatusCode::written(v.major_status),
        }
    }

    /// Reading the message gives back the info.
    fn into_proto(self) -> (r: TransactionInfoProto)
        ensures
            TransactionInfo::read(r@) == Ok::<TransactionInfoView, Error>(self@),
    {
        proof {
            self.lemma_valid();
        }
        let object = TransactionInfoProto {
            signed_transaction_hash: self.signed_transaction_hash.into_proto(),
            state_root_hash: self.state_root_hash.into_proto(),
            event_root_hash: self.event_root_hash.into_proto(),
            gas_used: self.gas_used,
            major_status: self.major_status.into_proto(),
        };
        let ghost message = object@;
        object
    }
}

// ---------------------------------------------------------------------------------------------
// Proofs
// ---------------------------------------------------------------------------------------------

/// A path through an accumulator, by the hashes beside it.
#[derive(Debug, PartialEq, Eq)]
pub struct AccumulatorProof {
    pub siblings: Vec<HashValue>,
}

impl View for AccumulatorProof {
    type V = Seq<Seq<u8>>;

    open spec fn view(&self) -> Seq<Seq<u8>> {
        views(self.siblings@)
    }
}

impl FromProto for AccumulatorProof {
    type ProtoType = AccumulatorProofProto;

    open spec fn read(object: Seq<Seq<u8>>) -> Result<Seq<Seq<u8>>, Error> {
        read_all::<HashValue>(object)
    }

    fn from_proto(object: AccumulatorProofProto) -> (r: Result<Self, Error>) {
        let ghost message = object@;
        match from_proto_all::<HashValue>(object.siblings) {
            Ok(siblings) => Ok(AccumulatorProof { siblings }),
            Err(e) => Err(e),
        }
    }
}

impl IntoProto for AccumulatorProof {
    type ProtoType = AccumulatorProofProto;

    open spec fn written(v: Seq<Seq<u8>>) -> Seq<Seq<u8>> {
        written_all::<HashValue>(v)
    }

    /// Reading the message gives back the path.
    fn into_proto(self) -> (r: AccumulatorProofProto)
        ensures
            AccumulatorProof::read(r@) == Ok::<Seq<Seq<u8>>, Error>(self@),
    {
        proof {
            self.lemma_valid();
            accumulator_proof_message_round_trip(self@);
        }
        let object = AccumulatorProofProto { siblings: into_proto_all(self.siblings) };
        let ghost message = object@;
        object
    }
}

/// The proof that a transaction is in a ledger: what came of the transaction, and the path to
/// that in the accumulator of the ledger.
#[derive(Debug, PartialEq, Eq)]
pub struct SignedTransactionProof {
    pub ledger_info_to_transaction_info_proof: AccumulatorProof,
    pub transaction_info: TransactionInfo,
}

/// What the proof of a transaction holds.
pub ghost struct SignedTransactionProofView {
    pub ledger_info_to_transaction_info_proof: Seq<Seq<u8>>,
    pub transaction_info: TransactionInfoView,
}

impl Clone for AccumulatorProof {
    fn clone(&self) -> (r: AccumulatorProof)
        ensures
            r@ == self@,
    {
        let siblings = self.siblings.clone();
        assert(views(siblings@) =~= views(self.siblings@));
        AccumulatorProof { siblings }
    }
}

impl Clone for SignedTransactionProof {
    fn clone(&self) -> (r: SignedTransactionProof)
        ensures
            r@ == self@,
    {
        SignedTransactionProof {
            ledger_info_to_transaction_info_proof:
                self.ledger_info_to_transaction_info_proof.clone(),
            transaction_info: self.transaction_info,
        }
    }
}

/// Every sibling is as long as a hash is.
pub open spec fn valid_path(path: Seq<Seq<u8>>) -> bool {
    forall|i: int| 0 <= i < path.len() ==> (#[trigger] path[i]).len() == HASH_LENGTH
}

impl AccumulatorProof {
    /// Every sibling is always as long as a hash is.
    pub proof fn lemma_valid(self)
        ensures
            valid_path(self@),
    {
        assert forall|i: int| 0 <= i < self@.len() implies (#[trigger] self@[i]).len()
            == HASH_LENGTH by {
            self.siblings@[i].lemma_length();
        }
    }
}

impl SignedTransactionProofView {
    /// The hashes are as long as hashes are.
    pub open spec fn valid(self) -> bool {
        valid_path(self.ledger_info_to_transaction_info_proof) && self.transaction_info.valid()
    }
}

impl SignedTransactionProof {
    /// The hashes are always as long as hashes are.
    pub proof fn lemma_valid(self)
        ensures
            self@.valid(),
    {
        self.ledger_info_to_transaction_info_proof.lemma_valid();
        self.transaction_info.lemma_valid();
    }
}

impl View for SignedTransactionProof {
    type V = SignedTransactionProofView;

    open spec fn view(&self) -> SignedTransactionProofView {
        SignedTransactionProofView {
            ledger_info_to_transaction_info_proof: self.ledger_info_to_transaction_info_proof@,
            transaction_info: self.transaction_info@,
        }
    }
}

impl FromProto for SignedTransactionProof {
    type ProtoType = SignedTransactionProofProto;

    open spec fn read(object: SignedTransactionProofMessage) -> Result<
        SignedTransactionProofView,
        Error,
    > {
        match AccumulatorProof::read(object.ledger_info_to_transaction_info_proof) {
            Err(e) => Err(e),
            Ok(ledger_info_to_transaction_info_proof) => match TransactionInfo::read(
                object.transaction_info,
            ) {
                Err(e) => Err(e),
                Ok(transaction_info) => Ok(
                    SignedTransactionProofView {
                        ledger_info_to_transaction_info_proof,
                        transaction_info,
                    },
                ),
            },
        }
    }

    fn from_proto(object: SignedTransactionProofProto) -> (r: Result<Self, Error>) {
        let ghost message = object@;
        let ledger_info_to_transaction_info_proof = match AccumulatorProof::from_proto(
            object.ledger_info_to_transaction_info_proof,
        ) {
            Ok(path) => path,
            Err(e) => return Err(e),
        };
        let transaction_info = match TransactionInfo::from_proto(object.transaction_info) {
            Ok(info) => info,
            Err(e) => return Err(e),
        };
        Ok(SignedTransactionProof { ledger_info_to_transaction_info_proof, transaction_info })
    }
}

impl IntoProto for SignedTransactionProof {
    type ProtoType = SignedTransactionProofProto;

    open spec fn written(v: SignedTransactionProofView) -> SignedTransactionProofMessage {
        SignedTransactionProofMessage {
            ledger_info_to_transaction_info_proof: AccumulatorProof::written(
                v.ledger_info_to_transaction_info_proof,
            ),
            transaction_info: TransactionInfo::written(v.transaction_info),
        }
    }

    /// Reading the message gives back the proof.
    fn into_proto(self) -> (r: SignedTransactionProofProto)
        ensures
            SignedTransactionProof::read(r@) == Ok::<SignedTransactionProofView, Error>(self@),
    {
        let object = SignedTransactionProofProto {
            ledger_info_to_transaction_info_proof:
                self.ledger_info_to_transaction_info_proof.into_proto(),
            transaction_info: self.transaction_info.into_proto(),
        };
        let ghost message = object@;
        object
    }
}

} // verus!
