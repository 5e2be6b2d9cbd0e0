//! What holds of the library as a whole.

use vstd::prelude::*;
use crate::address::{
    Ed25519PublicKey, Ed25519Signature, HashValue, ADDRESS_LENGTH, HASH_LENGTH,
};
use crate::canonical::{
    bytes_encoding, lemma_bytes_decode_encode, lemma_u64_decode_encode, u64_bytes,
};
use crate::codec::{CanonicalDeserialize, CanonicalSerialize};
use crate::commit::{AccountState, TransactionToCommit};
use crate::commit::{
    distinct_accounts, lemma_state_map_accounts, lemma_state_map_size, lemma_state_map_states,
    state_map, AccountStateView, TransactionToCommitView,
};
use crate::convert::{FromProto, IntoProto};
use crate::convert::{lemma_read_all_each, lemma_read_all_items, read_all, written_all};
use crate::error::Error;
use crate::event::ContractEvent;
use crate::event::{
    lemma_event_lists_read_written, lemma_events_read_written, read_event_lists,
    read_option_event_lists, read_option_events, valid_event_lists, valid_events,
    written_option_event_lists, written_option_events, EventView,
};
use crate::info::{AccumulatorProof, SignedTransactionProof, TransactionInfo};
use crate::info::{valid_path, SignedTransactionProofView, TransactionInfoView};
use crate::list::TransactionListWithProof;
use crate::list::{
    lemma_read_pairs_items, read_option_proof, read_pairs, shape_error, written_option_proof,
    TransactionListView,
};
use crate::payload::{TransactionPayload, TransactionPayloadType};
use crate::payload::PayloadView;
use crate::proto::{
    AccountStateMessage, EventMessage, SignedTransactionWithProofMessage, TransactionInfoMessage,
    TransactionListWithProofMessage, TransactionToCommitMessage,
};
use crate::status::TransactionStatus;
use crate::status::VMStatus;
use crate::transaction::{RawTransaction, SignatureCheckedTransaction, SignedTransaction};
use crate::transaction::{
    hashed, is_accepted, is_checking, is_hash_function, is_key_pair, is_signature, is_signing,
    is_verdict, RawTransactionView, SignedTransactionView,
};
use crate::with_proof::SignedTransactionWithProof;
use crate::with_proof::SignedTransactionWithProofView;

verus! {

// ---------------------------------------------------------------------------------------------
// The canonical format
// ---------------------------------------------------------------------------------------------

/// Reading the bytes of a raw transaction gives back the transaction, to the second, whatever
/// follows the bytes.
pub proof fn raw_transaction_round_trip(v: RawTransactionView, rest: Seq<u8>)
    requires
        RawTransaction::encodable(v),
    ensures
        RawTransaction::decoding(RawTransaction::encoding(v) + rest) == Ok::<
            (RawTransactionView, Seq<u8>),
            Error,
        >((v.whole_seconds(), rest)),
        v.expiration_time.nanos == 0 ==> v.whole_seconds() == v,
{
    RawTransaction::lemma_decode_encode(v, rest);
}

/// Reading the bytes of a payload gives back the payload, whatever follows the bytes.
pub proof fn payload_round_trip(v: PayloadView, rest: Seq<u8>)
    requires
        TransactionPayload::encodable(v),
    ensures
        TransactionPayload::decoding(TransactionPayload::encoding(v) + rest) == Ok::<
            (PayloadView, Seq<u8>),
            Error,
        >((v, rest)),
{
    TransactionPayload::lemma_decode_encode(v, rest);
}

/// Reading the bytes of a signed transaction gives back the transaction, to the second, whatever
/// follows the bytes.
pub proof fn signed_transaction_round_trip(v: SignedTransactionView, rest: Seq<u8>)
    requires
        SignedTransaction::encodable(v),
    ensures
        SignedTransaction::decoding(SignedTransaction::encoding(v) + rest) == Ok::<
            (SignedTransactionView, Seq<u8>),
            Error,
        >((v.whole_seconds(), rest)),
        v.raw_txn.expiration_time.nanos == 0 ==> v.whole_seconds() == v,
{
    SignedTransaction::lemma_decode_encode(v, rest);
}

/// Only canonical bytes are read: what can be read starts with the encoding of what is read.
pub proof fn only_canonical_bytes_are_read<T: CanonicalDeserialize>(s: Seq<u8>)
    ensures
        T::decoding(s) matches Ok((v, rest)) ==> T::encodable(v) && T::canonical(v) == v
            && T::encoding(v) + rest == s,
{
    T::lemma_encode_decode(s);
}

/// No encoding is the start of another: where two encodings agree, whatever follows them, they
/// are of the same value and the same follows.
pub proof fn encodings_are_prefix_free<T: CanonicalDeserialize>(
    a: T::V,
    b: T::V,
    after_a: Seq<u8>,
    after_b: Seq<u8>,
)
    requires
        T::encodable(a),
        T::encodable(b),
        T::encoding(a) + after_a == T::encoding(b) + after_b,
    ensures
        T::canonical(a) == T::canonical(b),
        after_a == after_b,
{
    T::lemma_decode_encode(a, after_a);
    T::lemma_decode_encode(b, after_b);
}

/// Two raw transactions with the same bytes, and so the same hash and the same signatures, are
/// the same to the second.
pub proof fn raw_transaction_bytes_identify(a: RawTransactionView, b: RawTransactionView)
    requires
        RawTransaction::encodable(a),
        RawTransaction::encodable(b),
    ensures
        RawTransaction::encoding(a) == RawTransaction::encoding(b) <==> a.whole_seconds()
            == b.whole_seconds(),
{
    if RawTransaction::encoding(a) == RawTransaction::encoding(b) {
        encodings_are_prefix_free::<RawTransaction>(a, b, Seq::empty(), Seq::empty());
    }
    if a.whole_seconds() == b.whole_seconds() {
        assert(a.expiration_time.whole_seconds().secs == b.expiration_time.whole_seconds().secs);
        assert(a.whole_seconds().sender == b.whole_seconds().sender);
    }
}

/// Two signed transactions with the same bytes, and so the same hash, are the same to the second.
pub proof fn signed_transaction_bytes_identify(a: SignedTransactionView, b: SignedTransactionView)
    requires
        SignedTransaction::encodable(a),
        SignedTransaction::encodable(b),
    ensures
        SignedTransaction::encoding(a) == SignedTransaction::encoding(b) <==> a.whole_seconds()
            == b.whole_seconds(),
{
    if SignedTransaction::encoding(a) == SignedTransaction::encoding(b) {
        encodings_are_prefix_free::<SignedTransaction>(a, b, Seq::empty(), Seq::empty());
    }
    if a.whole_seconds() == b.whole_seconds() {
        assert(a.whole_seconds().raw_txn == b.whole_seconds().raw_txn);
        assert(a.whole_seconds().public_key == b.whole_seconds().public_key);
        assert(a.whole_seconds().signature == b.whole_seconds().signature);
        raw_transaction_bytes_identify(a.raw_txn, b.raw_txn);
    }
}

/// Two transaction infos with the same bytes, and so the same hash, are the same.
pub proof fn transaction_info_bytes_identify(a: TransactionInfoView, b: TransactionInfoView)
    requires
        a.valid(),
        b.valid(),
        TransactionInfo::encoding(a) == TransactionInfo::encoding(b),
    ensures
        a == b,
{
    let a4 = u64_bytes(a.major_status.code);
    let b4 = u64_bytes(b.major_status.code);
    let a3 = u64_bytes(a.gas_used) + a4;
    let b3 = u64_bytes(b.gas_used) + b4;
    let a2 = bytes_encoding(a.event_root_hash) + a3;
    let b2 = bytes_encoding(b.event_root_hash) + b3;
    let a1 = bytes_encoding(a.state_root_hash) + a2;
    let b1 = bytes_encoding(b.state_root_hash) + b2;
    lemma_bytes_decode_encode(a.signed_transaction_hash, a1);
    lemma_bytes_decode_encode(b.signed_transaction_hash, b1);
    lemma_bytes_decode_encode(a.state_root_hash, a2);
    lemma_bytes_decode_encode(b.state_root_hash, b2);
    lemma_bytes_decode_encode(a.event_root_hash, a3);
    lemma_bytes_decode_encode(b.event_root_hash, b3);
    lemma_u64_decode_encode(a.gas_used, a4);
    lemma_u64_decode_encode(b.gas_used, b4);
    assert(a4 + Seq::<u8>::empty() =~= a4);
    assert(b4 + Seq::<u8>::empty() =~= b4);
    lemma_u64_decode_encode(a.major_status.code, Seq::empty());
    lemma_u64_decode_encode(b.major_status.code, Seq::empty());
}

/// The kinds of payload have different numbers, which are those below four.
pub proof fn payload_type_numbers(a: TransactionPayloadType, b: TransactionPayloadType, n: u32)
    ensures
        a.number() == b.number() <==> a == b,
        n < 4 <==> exists|kind: TransactionPayloadType| #[trigger] kind.number() == n,
{
    assert(TransactionPayloadType::Program.number() == 0);
    assert(TransactionPayloadType::WriteSet.number() == 1);
    assert(TransactionPayloadType::Script.number() == 2);
    assert(TransactionPayloadType::Module.number() == 3);
}

// ---------------------------------------------------------------------------------------------
// Signatures
// ---------------------------------------------------------------------------------------------

/// The signature of a transaction that has just been signed is valid: where the public key is that
/// of the private key, verification accepts the signed transaction.
pub proof fn fresh_signature_is_accepted<K, H, S, V>(
    private_key: &K,
    hasher: H,
    sign_message: S,
    verify_signature: V,
    signed: SignedTransactionView,
    verdict: Result<(), Error>,
) where
    H: Fn(&[u8]) -> HashValue,
    S: Fn(&K, &HashValue) -> Ed25519Signature,
    V: Fn(&Ed25519PublicKey, &HashValue, &Ed25519Signature) -> Result<(), Error>,

    requires
        is_signature(private_key, hasher, sign_message, signed.raw_txn, signed.signature),
        is_verdict(hasher, verify_signature, signed, verdict),
        is_hash_function(hasher),
        is_key_pair(private_key, signed.public_key, sign_message, verify_signature),
    ensures
        verdict is Ok,
{
    let bytes = RawTransaction::encoding(signed.raw_txn);
    let (hash, made) = choose|hash: HashValue, made: Ed25519Signature|
        hashed(hasher, bytes, hash) && #[trigger] call_ensures(
            sign_message,
            (private_key, &hash),
            made,
        ) && signed.signature == made@;
    let (key, again, given) = choose|
        key: &Ed25519PublicKey,
        again: HashValue,
        given: &Ed25519Signature,
    |
        key@ == signed.public_key && given@ == signed.signature && hashed(hasher, bytes, again)
            && #[trigger] call_ensures(verify_signature, (key, &again, given), verdict);
    assert(hashed(hasher, bytes, hash) && hashed(hasher, bytes, again));
}

/// Both ways of making a `SignatureCheckedTransaction`, signing and checking, come with a verdict
/// that accepts its signature.
pub proof fn checked_signatures_were_accepted<K, H, S, V>(
    private_key: &K,
    hasher: H,
    sign_message: S,
    verify_signature: V,
    raw_txn: RawTransactionView,
    public_key: Seq<u8>,
    signed: SignedTransactionView,
    r: Result<SignatureCheckedTransaction, Error>,
) where
    H: Fn(&[u8]) -> HashValue,
    S: Fn(&K, &HashValue) -> Ed25519Signature,
    V: Fn(&Ed25519PublicKey, &HashValue, &Ed25519Signature) -> Result<(), Error>,

    requires
        is_signing(private_key, hasher, sign_message, verify_signature, raw_txn, public_key, r)
            || is_checking(hasher, verify_signature, signed, r),
    ensures
        r is Ok ==> is_accepted(hasher, verify_signature, r->Ok_0@),
{
}

/// A `SignatureCheckedTransaction` passes any later check of its signature: where verification
/// answers a question one way, and a transaction has one hash, what was accepted once is not
/// refused.
pub proof fn checked_signatures_stay_accepted<H, V>(
    hasher: H,
    verify_signature: V,
    checked: SignedTransactionView,
    again: Result<SignatureCheckedTransaction, Error>,
) where
    H: Fn(&[u8]) -> HashValue,
    V: Fn(&Ed25519PublicKey, &HashValue, &Ed25519Signature) -> Result<(), Error>,

    requires
        is_accepted(hasher, verify_signature, checked),
        is_checking(hasher, verify_signature, checked, again),
        forall|a: Result<(), Error>, b: Result<(), Error>|
            #![trigger is_verdict(hasher, verify_signature, checked, a), is_verdict(hasher, verify_signature, checked, b)]
            is_verdict(hasher, verify_signature, checked, a) && is_verdict(
                hasher,
                verify_signature,
                checked,
                b,
            ) ==> a == b,
    ensures
        again is Ok,
        again->Ok_0@ == checked,
{
}

/// Signing succeeds where the public key is that of the private key.
pub proof fn signing_succeeds_with_a_pair_of_keys<K, H, S, V>(
    private_key: &K,
    hasher: H,
    sign_message: S,
    verify_signature: V,
    raw_txn: RawTransactionView,
    public_key: Seq<u8>,
    r: Result<SignatureCheckedTransaction, Error>,
) where
    H: Fn(&[u8]) -> HashValue,
    S: Fn(&K, &HashValue) -> Ed25519Signature,
    V: Fn(&Ed25519PublicKey, &HashValue, &Ed25519Signature) -> Result<(), Error>,

    requires
        is_signing(private_key, hasher, sign_message, verify_signature, raw_txn, public_key, r),
        is_hash_function(hasher),
        is_key_pair(private_key, public_key, sign_message, verify_signature),
    ensures
        r is Ok,
        r->Ok_0@.raw_txn == raw_txn,
        r->Ok_0@.public_key == public_key,
{
    let signed = choose|signed: SignedTransactionView| #[trigger]
        is_checking(hasher, verify_signature, signed, r) && signed.raw_txn == raw_txn
            && signed.public_key == public_key && is_signature(
            private_key,
            hasher,
            sign_message,
            raw_txn,
            signed.signature,
        );
    let verdict = choose|verdict: Result<(), Error>| #[trigger]
        is_verdict(hasher, verify_signature, signed, verdict) && match verdict {
            Ok(_) => r is Ok && r->Ok_0@ == signed,
            Err(e) => r == Err::<SignatureCheckedTransaction, Error>(e),
        };
    fresh_signature_is_accepted(
        private_key,
        hasher,
        sign_message,
        verify_signature,
        signed,
        verdict,
    );
}

/// A transaction that has just been signed passes a check of its signature, which gives back the
/// same transaction, where the public key is that of the private key.
pub proof fn signed_transactions_pass_the_check<K, H, S, V>(
    private_key: &K,
    hasher: H,
    sign_message: S,
    verify_signature: V,
    raw_txn: RawTransactionView,
    public_key: Seq<u8>,
    r: Result<SignatureCheckedTransaction, Error>,
    again: Result<SignatureCheckedTransaction, Error>,
) where
    H: Fn(&[u8]) -> HashValue,
    S: Fn(&K, &HashValue) -> Ed25519Signature,
    V: Fn(&Ed25519PublicKey, &HashValue, &Ed25519Signature) -> Result<(), Error>,

    requires
        is_signing(private_key, hasher, sign_message, verify_signature, raw_txn, public_key, r),
        is_checking(hasher, verify_signature, r->Ok_0@, again),
        is_hash_function(hasher),
        is_key_pair(private_key, public_key, sign_message, verify_signature),
    ensures
        r is Ok,
        again is Ok,
        again->Ok_0@ == r->Ok_0@,
{
    signing_succeeds_with_a_pair_of_keys(
        private_key,
        hasher,
        sign_message,
        verify_signature,
        raw_txn,
        public_key,
        r,
    );
    let signed = r->Ok_0@;
    let verdict = choose|verdict: Result<(), Error>| #[trigger]
        is_verdict(hasher, verify_signature, signed, verdict) && match verdict {
            Ok(_) => again is Ok && again->Ok_0@ == signed,
            Err(e) => again == Err::<SignatureCheckedTransaction, Error>(e),
        };
    fresh_signature_is_accepted(
        private_key,
        hasher,
        sign_message,
        verify_signature,
        signed,
        verdict,
    );
}

/// Raw transactions that are equal to the second hash alike: what can be a hash of one can be a
/// hash of the other, and a hash function makes the same hash of both. A signature is one of both
/// or of neither: every verdict on one is a verdict on the other.
pub proof fn equal_to_the_second_hash_alike<H, V>(
    hasher: H,
    verify_signature: V,
    a: SignedTransactionView,
    b: SignedTransactionView,
    hash_of_a: HashValue,
    hash_of_b: HashValue,
    verdict: Result<(), Error>,
) where
    H: Fn(&[u8]) -> HashValue,
    V: Fn(&Ed25519PublicKey, &HashValue, &Ed25519Signature) -> Result<(), Error>,

    requires
        a.whole_seconds() == b.whole_seconds(),
        SignedTransaction::encodable(a),
        SignedTransaction::encodable(b),
    ensures
        hashed(hasher, RawTransaction::encoding(a.raw_txn), hash_of_a) <==> hashed(
            hasher,
            RawTransaction::encoding(b.raw_txn),
            hash_of_a,
        ),
        is_hash_function(hasher) && hashed(hasher, RawTransaction::encoding(a.raw_txn), hash_of_a)
            && hashed(hasher, RawTransaction::encoding(b.raw_txn), hash_of_b) ==> hash_of_a
            == hash_of_b,
        is_verdict(hasher, verify_signature, a, verdict) <==> is_verdict(
            hasher,
            verify_signature,
            b,
            verdict,
        ),
{
    assert(a.whole_seconds().raw_txn == b.whole_seconds().raw_txn);
    assert(a.whole_seconds().public_key == b.whole_seconds().public_key);
    assert(a.whole_seconds().signature == b.whole_seconds().signature);
    raw_transaction_bytes_identify(a.raw_txn, b.raw_txn);
}

/// A signed transaction that comes back from its message hashes as before: what can be its hash
/// could be its hash before, and a hash function makes the same hash. Every verdict on it is a
/// verdict on the transaction before.
pub proof fn message_keeps_hash_and_verdicts<H, V>(
    hasher: H,
    verify_signature: V,
    v: SignedTransactionView,
    hash_before: HashValue,
    hash_after: HashValue,
    verdict: Result<(), Error>,
) where
    H: Fn(&[u8]) -> HashValue,
    V: Fn(&Ed25519PublicKey, &HashValue, &Ed25519Signature) -> Result<(), Error>,

    requires
        SignedTransaction::encodable(v),
    ensures
        SignedTransaction::read(SignedTransaction::written(v)) matches Ok(back) && {
            &&& back == v.whole_seconds()
            &&& hashed(hasher, SignedTransaction::encoding(back), hash_after) <==> hashed(
                hasher,
                SignedTransaction::encoding(v),
                hash_after,
            )
            &&& is_hash_function(hasher) && hashed(
                hasher,
                SignedTransaction::encoding(v),
                hash_before,
            ) && hashed(hasher, SignedTransaction::encoding(back), hash_after) ==> hash_before
                == hash_after
            &&& is_verdict(hasher, verify_signature, back, verdict) <==> is_verdict(
                hasher,
                verify_signature,
                v,
                verdict,
            )
        },
{
    signed_transaction_message_round_trip(v);
    let back = v.whole_seconds();
    assert(back.whole_seconds() == back);
    signed_transaction_bytes_identify(v, back);
    raw_transaction_bytes_identify(v.raw_txn, back.raw_txn);
}

/// Signing fails where verification refuses, under the public key, every signature that signing
/// makes with the private key.
pub proof fn signing_fails_with_a_foreign_key<K, H, S, V>(
    private_key: &K,
    hasher: H,
    sign_message: S,
    verify_signature: V,
    raw_txn: RawTransactionView,
    public_key: Seq<u8>,
    r: Result<SignatureCheckedTransaction, Error>,
) where
    H: Fn(&[u8]) -> HashValue,
    S: Fn(&K, &HashValue) -> Ed25519Signature,
    V: Fn(&Ed25519PublicKey, &HashValue, &Ed25519Signature) -> Result<(), Error>,

    requires
        is_signing(private_key, hasher, sign_message, verify_signature, raw_txn, public_key, r),
        forall|
            key: &Ed25519PublicKey,
            hash: HashValue,
            signature: &Ed25519Signature,
            answer: Result<(), Error>,
        |
            #![trigger call_ensures(verify_signature, (key, &hash, signature), answer)]
            key@ == public_key && is_signature(
                private_key,
                hasher,
                sign_message,
                raw_txn,
                signature@,
            ) && call_ensures(verify_signature, (key, &hash, signature), answer) ==> answer is Err,
    ensures
        r is Err,
{
}

// ---------------------------------------------------------------------------------------------
// Status
// ---------------------------------------------------------------------------------------------

/// A status is kept or discarded as a whole, and which of the two depends on its class alone.
pub proof fn status_is_kept_or_discarded(s: VMStatus, t: VMStatus)
    ensures
        <TransactionStatus as vstd::std_specs::convert::FromSpec<VMStatus>>::from_spec(s).status()
            == s,
        <TransactionStatus as vstd::std_specs::convert::FromSpec<VMStatus>>::from_spec(
            s,
        ) is Keep <==> s.major_status.class() is Deserialization || s.major_status.class() is Execution,
        s.major_status.class() == t.major_status.class() ==> (
        <TransactionStatus as vstd::std_specs::convert::FromSpec<VMStatus>>::from_spec(s) is Keep
            <==> <TransactionStatus as vstd::std_specs::convert::FromSpec<VMStatus>>::from_spec(
            t,
        ) is Keep),
{
}

// ---------------------------------------------------------------------------------------------
// Messages
// ---------------------------------------------------------------------------------------------

/// Reading the message of a signed transaction gives back the transaction, to the second.
pub proof fn signed_transaction_message_round_trip(v: SignedTransactionView)
    requires
        SignedTransaction::encodable(v),
    ensures
        SignedTransaction::read(SignedTransaction::written(v)) == Ok::<
            SignedTransactionView,
            Error,
        >(v.whole_seconds()),
{
    let bytes = SignedTransaction::encoding(v);
    assert(bytes + Seq::<u8>::empty() =~= bytes);
    SignedTransaction::lemma_decode_encode(v, Seq::empty());
}

/// What a signed transaction is read from starts with its message.
pub proof fn signed_transaction_message_is_canonical(object: Seq<u8>)
    ensures
        SignedTransaction::read(object) matches Ok(v) ==> SignedTransaction::encodable(v)
            && SignedTransaction::written(v).len() <= object.len() && object.take(
            SignedTransaction::written(v).len() as int,
        ) == SignedTransaction::written(v),
{
    SignedTransaction::lemma_encode_decode(object);
    if let Ok((v, rest)) = SignedTransaction::decoding(object) {
        let bytes = SignedTransaction::encoding(v);
        assert(object.len() == bytes.len() + rest.len());
        assert(object.take(bytes.len() as int) =~= bytes);
    }
}

/// Reading the message of a transaction info gives back the info, and it is the only message
/// that does.
pub proof fn transaction_info_message_round_trip(
    v: TransactionInfoView,
    object: TransactionInfoMessage,
)
    requires
        v.valid(),
    ensures
        TransactionInfo::read(object) == Ok::<TransactionInfoView, Error>(v) <==> object
            == TransactionInfo::written(v),
{
}

/// Reading the message of an event gives back the event, and it is the only message that does.
pub proof fn event_message_round_trip(v: EventView, object: EventMessage)
    requires
        v.valid(),
    ensures
        ContractEvent::read(object) == Ok::<EventView, Error>(v) <==> object
            == ContractEvent::written(v),
{
}

/// Reading the message of a path gives back the path.
pub proof fn accumulator_proof_message_round_trip(v: Seq<Seq<u8>>)
    requires
        valid_path(v),
    ensures
        AccumulatorProof::read(AccumulatorProof::written(v)) == Ok::<Seq<Seq<u8>>, Error>(v),
{
    lemma_read_all_each::<HashValue>(written_all::<HashValue>(v), v);
}

/// Reading the message of the proof of a transaction gives back the proof.
pub proof fn signed_transaction_proof_message_round_trip(v: SignedTransactionProofView)
    requires
        v.valid(),
    ensures
        SignedTransactionProof::read(SignedTransactionProof::written(v)) == Ok::<
            SignedTransactionProofView,
            Error,
        >(v),
{
    accumulator_proof_message_round_trip(v.ledger_info_to_transaction_info_proof);
}

/// Reading the message of a transaction with its proof gives it back, to the second.
pub proof fn transaction_with_proof_message_round_trip(v: SignedTransactionWithProofView)
    requires
        v.valid(),
    ensures
        SignedTransactionWithProof::read(SignedTransactionWithProof::written(v)) == Ok::<
            SignedTransactionWithProofView,
            Error,
        >(v.whole_seconds()),
{
    signed_transaction_message_round_trip(v.signed_transaction);
    signed_transaction_proof_message_round_trip(v.proof);
    if let Some(events) = v.events {
        lemma_events_read_written(events);
    }
    assert(read_option_events(written_option_events(v.events)) == Ok::<
        Option<Seq<EventView>>,
        Error,
    >(v.events));
}

/// Reading the message of a transaction to commit gives it back, to the second.
pub proof fn transaction_to_commit_message_round_trip(v: TransactionToCommitView)
    requires
        v.valid(),
    ensures
        TransactionToCommit::read(TransactionToCommit::written(v)) == Ok::<
            TransactionToCommitView,
            Error,
        >(v.whole_seconds()),
{
    signed_transaction_message_round_trip(v.signed_txn);
    lemma_read_all_each::<AccountState>(
        written_all::<AccountState>(v.account_states),
        v.account_states,
    );
    lemma_events_read_written(v.events);
}

/// A transaction to commit that is read off a message has as many accounts with a state as the
/// message has account states; a message in which an account occurs twice is never read.
pub proof fn committed_accounts_are_distinct(object: TransactionToCommitMessage)
    ensures
        TransactionToCommit::read(object) matches Ok(v) ==> {
            &&& distinct_accounts(v.account_states)
            &&& v.account_states.len() == object.account_states.len()
            &&& state_map(v.account_states).dom().len() == object.account_states.len()
        },
        read_all::<AccountState>(object.account_states) matches Ok(states) ==> (
        !distinct_accounts(states) ==> TransactionToCommit::read(object) is Err),
{
    lemma_read_all_items::<AccountState>(object.account_states);
    if let Ok(v) = TransactionToCommit::read(object) {
        lemma_state_map_size(v.account_states);
    }
}

/// To collect account states in a map and to compare the sizes is to look for an account that
/// occurs twice.
pub proof fn map_size_shows_duplication(states: Seq<AccountStateView>)
    ensures
        state_map(states).dom().len() == states.len() <==> distinct_accounts(states),
{
    lemma_state_map_size(states);
}

/// What is read off account states is the messages, address by address, or the one error that
/// there is.
proof fn lemma_read_account_states(s: Seq<AccountStateMessage>)
    ensures
        read_all::<AccountState>(s) == if forall|i: int|
            0 <= i < s.len() ==> (#[trigger] s[i]).address.len() == ADDRESS_LENGTH {
            Ok::<Seq<AccountStateView>, Error>(account_views(s))
        } else {
            Err::<Seq<AccountStateView>, Error>(Error::InvalidAddressLength)
        },
    decreases s.len(),
{
    if forall|i: int| 0 <= i < s.len() ==> (#[trigger] s[i]).address.len() == ADDRESS_LENGTH {
        lemma_read_all_each::<AccountState>(s, account_views(s));
    } else {
        let before = s.drop_last();
        lemma_read_account_states(before);
        let i = choose|i: int|
            0 <= i < s.len() && (#[trigger] s[i]).address.len() != ADDRESS_LENGTH;
        if i < s.len() - 1 {
            assert(before[i].address.len() != ADDRESS_LENGTH);
        }
    }
}

/// The account states that the messages stand for.
spec fn account_views(s: Seq<AccountStateMessage>) -> Seq<AccountStateView> {
    Seq::new(s.len(), |i: int| AccountStateView { address: s[i].address, blob: s[i].blob })
}

/// The accounts of a rearranged list are those of the list.
proof fn lemma_rearranged_accounts(a: Seq<AccountStateView>, b: Seq<AccountStateView>)
    requires
        a.len() == b.len(),
        forall|i: int| 0 <= i < a.len() ==> b.contains(#[trigger] a[i]),
        forall|i: int| 0 <= i < b.len() ==> a.contains(#[trigger] b[i]),
    ensures
        distinct_accounts(a) == distinct_accounts(b),
        distinct_accounts(a) ==> state_map(a) == state_map(b),
{
    assert forall|address: Seq<u8>| #[trigger] state_map(a).contains_key(address) == state_map(
        b,
    ).contains_key(address) by {
        lemma_state_map_accounts(a, address);
        lemma_state_map_accounts(b, address);
        if exists|i: int| 0 <= i < a.len() && #[trigger] a[i].address == address {
            let i = choose|i: int| 0 <= i < a.len() && #[trigger] a[i].address == address;
            let j = choose|j: int| 0 <= j < b.len() && b[j] == a[i];
            assert(b.contains(a[i]) && b[j].address == address);
        }
        if exists|i: int| 0 <= i < b.len() && #[trigger] b[i].address == address {
            let i = choose|i: int| 0 <= i < b.len() && #[trigger] b[i].address == address;
            let j = choose|j: int| 0 <= j < a.len() && a[j] == b[i];
            assert(a.contains(b[i]) && a[j].address == address);
        }
    }
    assert(state_map(a).dom() =~= state_map(b).dom());
    lemma_state_map_size(a);
    lemma_state_map_size(b);
    if distinct_accounts(a) {
        assert forall|address: Seq<u8>| #[trigger] state_map(a).contains_key(
            address,
        ) implies state_map(a)[address] == state_map(b)[address] by {
            lemma_state_map_accounts(a, address);
            let i = choose|i: int| 0 <= i < a.len() && #[trigger] a[i].address == address;
            assert(b.contains(a[i]));
            let j = choose|j: int| 0 <= j < b.len() && b[j] == a[i];
            lemma_state_map_states(a, i);
            lemma_state_map_states(b, j);
        }
        assert(state_map(a) =~= state_map(b));
    }
}

/// The order of the account states in a message does not matter: two messages that differ in it
/// alone are read alike, with the same state for each account, or refused alike.
pub proof fn order_of_account_states_does_not_matter(
    a: TransactionToCommitMessage,
    b: TransactionToCommitMessage,
)
    requires
        a.account_states.to_multiset() == b.account_states.to_multiset(),
        a == (TransactionToCommitMessage { account_states: a.account_states, ..b }),
    ensures
        match (TransactionToCommit::read(a), TransactionToCommit::read(b)) {
            (Ok(v), Ok(w)) => {
                &&& state_map(v.account_states) == state_map(w.account_states)
                &&& v == (TransactionToCommitView { account_states: v.account_states, ..w })
            },
            (Err(e), Err(f)) => e == f,
            _ => false,
        },
{
    broadcast use vstd::seq_lib::group_to_multiset_ensures;

    let s = a.account_states;
    let t = b.account_states;
    assert(s.len() == s.to_multiset().len() && t.len() == t.to_multiset().len());
    assert forall|i: int| 0 <= i < s.len() implies t.contains(#[trigger] s[i]) by {
        assert(s.contains(s[i]));
        assert(s.to_multiset().count(s[i]) > 0);
    }
    assert forall|i: int| 0 <= i < t.len() implies s.contains(#[trigger] t[i]) by {
        assert(t.contains(t[i]));
        assert(t.to_multiset().count(t[i]) > 0);
    }
    lemma_read_account_states(s);
    lemma_read_account_states(t);
    let v = account_views(s);
    let w = account_views(t);
    assert forall|i: int| 0 <= i < v.len() implies w.contains(#[trigger] v[i]) by {
        assert(t.contains(s[i]));
        let j = choose|j: int| 0 <= j < t.len() && t[j] == s[i];
        assert(w[j] == v[i]);
    }
    assert forall|i: int| 0 <= i < w.len() implies v.contains(#[trigger] w[i]) by {
        assert(s.contains(t[i]));
        let j = choose|j: int| 0 <= j < s.len() && s[j] == t[i];
        assert(v[j] == w[i]);
    }
    lemma_rearranged_accounts(v, w);
    let all_s = forall|i: int|
        0 <= i < s.len() ==> (#[trigger] s[i]).address.len() == ADDRESS_LENGTH;
    let all_t = forall|i: int|
        0 <= i < t.len() ==> (#[trigger] t[i]).address.len() == ADDRESS_LENGTH;
    assert(all_s == all_t) by {
        if all_s {
            assert forall|i: int| 0 <= i < t.len() implies (#[trigger] t[i]).address.len()
                == ADDRESS_LENGTH by {
                assert(s.contains(t[i]));
            }
        }
        if all_t {
            assert forall|i: int| 0 <= i < s.len() implies (#[trigger] s[i]).address.len()
                == ADDRESS_LENGTH by {
                assert(t.contains(s[i]));
            }
        }
    }
}

/// Pairs are read off their messages one by one.
proof fn lemma_read_pairs_each(
    transactions: Seq<Seq<u8>>,
    infos: Seq<TransactionInfoMessage>,
    pairs: Seq<(SignedTransactionView, TransactionInfoView)>,
)
    requires
        transactions.len() == pairs.len(),
        infos.len() == pairs.len(),
        forall|i: int| #![trigger pairs[i]]
            0 <= i < pairs.len() ==> SignedTransaction::read(transactions[i]) == Ok::<
                SignedTransactionView,
                Error,
            >(pairs[i].0) && TransactionInfo::read(infos[i]) == Ok::<TransactionInfoView, Error>(
                pairs[i].1,
            ),
    ensures
        read_pairs(transactions, infos) == Ok::<
            Seq<(SignedTransactionView, TransactionInfoView)>,
            Error,
        >(pairs),
    decreases pairs.len(),
{
    if pairs.len() == 0 {
        assert(pairs =~= Seq::empty());
    } else {
        let before = pairs.drop_last();
        assert forall|i: int| #![trigger before[i]] 0 <= i < before.len() implies SignedTransaction::read(
            transactions.drop_last()[i],
        ) == Ok::<SignedTransactionView, Error>(before[i].0) && TransactionInfo::read(
            infos.drop_last()[i],
        ) == Ok::<TransactionInfoView, Error>(before[i].1) by {
            assert(before[i] == pairs[i]);
        }
        lemma_read_pairs_each(transactions.drop_last(), infos.drop_last(), before);
        let last = pairs[pairs.len() - 1];
        assert(SignedTransaction::read(transactions.last()) == Ok::<SignedTransactionView, Error>(
            last.0,
        ));
        assert(before.push((last.0, last.1)) =~= pairs);
    }
}

/// Reading the message of a list of transactions gives back the list, to the second, where it is
/// in one of the three states; otherwise the message is refused for its shape.
pub proof fn transaction_list_message_round_trip(v: TransactionListView)
    requires
        v.valid(),
    ensures
        v.well_formed() ==> TransactionListWithProof::read(TransactionListWithProof::written(v))
            == Ok::<TransactionListView, Error>(v.whole_seconds()),
        !v.well_formed() ==> TransactionListWithProof::read(TransactionListWithProof::written(v))
            == Err::<TransactionListView, Error>(
            shape_error(
                v.transaction_and_infos.len(),
                v.proof_of_first_transaction is Some,
                v.proof_of_last_transaction is Some,
                v.first_transaction_version is Some,
            )->Some_0,
        ),
{
    let message = TransactionListWithProof::written(v);
    if v.well_formed() {
        let expected = v.whole_seconds();
        assert forall|i: int| #![trigger expected.transaction_and_infos[i]]
            0 <= i < expected.transaction_and_infos.len() implies SignedTransaction::read(
            message.transactions[i],
        ) == Ok::<SignedTransactionView, Error>(expected.transaction_and_infos[i].0)
            && TransactionInfo::read(message.infos[i]) == Ok::<TransactionInfoView, Error>(
            expected.transaction_and_infos[i].1,
        ) by {
            let pair = v.transaction_and_infos[i];
            signed_transaction_message_round_trip(pair.0);
            transaction_info_message_round_trip(pair.1, TransactionInfo::written(pair.1));
        }
        lemma_read_pairs_each(message.transactions, message.infos, expected.transaction_and_infos);
        if let Some(lists) = v.events {
            lemma_event_lists_read_written(lists);
        }
        assert(read_option_event_lists(written_option_event_lists(v.events)) == Ok::<
            Option<Seq<Seq<EventView>>>,
            Error,
        >(v.events));
        option_proof_message_round_trip(v.proof_of_first_transaction);
        option_proof_message_round_trip(v.proof_of_last_transaction);
    }
}

/// Reading the message of a path, where there is one, gives back the path.
proof fn option_proof_message_round_trip(v: Option<Seq<Seq<u8>>>)
    requires
        v matches Some(path) ==> valid_path(path),
    ensures
        read_option_proof(written_option_proof(v)) == Ok::<Option<Seq<Seq<u8>>>, Error>(v),
{
    if let Some(path) = v {
        accumulator_proof_message_round_trip(path);
    }
}

/// A list of transactions that is read off a message is in one of the three states, has what
/// each message says at its place, and has a version exactly where it is not empty.
pub proof fn lists_are_read_well_formed(object: TransactionListWithProofMessage)
    ensures
        TransactionListWithProof::read(object) matches Ok(v) ==> {
            &&& v.well_formed()
            &&& object.transactions.len() == object.infos.len()
            &&& v.transaction_and_infos.len() == object.transactions.len()
            &&& v.first_transaction_version is None <==> v.transaction_and_infos.len() == 0
            &&& forall|i: int| #![trigger v.transaction_and_infos[i]]
                0 <= i < v.transaction_and_infos.len() ==> SignedTransaction::read(
                    object.transactions[i],
                ) == Ok::<SignedTransactionView, Error>(v.transaction_and_infos[i].0)
                    && TransactionInfo::read(object.infos[i]) == Ok::<TransactionInfoView, Error>(
                    v.transaction_and_infos[i].1,
                )
        },
{
    if TransactionListWithProof::read(object) is Ok {
        lemma_read_pairs_items(object.transactions, object.infos);
    }
}

/// The three states: an empty list has no proof, a list of one transaction has the first proof
/// and not the last, and a longer list has both.
pub proof fn three_states(v: TransactionListView)
    requires
        v.well_formed(),
    ensures
        v.transaction_and_infos.len() == 0 ==> v.proof_of_first_transaction is None
            && v.proof_of_last_transaction is None,
        v.transaction_and_infos.len() == 1 ==> v.proof_of_first_transaction is Some
            && v.proof_of_last_transaction is None,
        v.transaction_and_infos.len() >= 2 ==> v.proof_of_first_transaction is Some
            && v.proof_of_last_transaction is Some,
        v.first_transaction_version is Some <==> v.transaction_and_infos.len() > 0,
{
}

// ---------------------------------------------------------------------------------------------
// What is read is valid
// ---------------------------------------------------------------------------------------------

/// Events that are read are valid.
proof fn lemma_read_events_valid(s: Seq<EventMessage>)
    ensures
        read_all::<ContractEvent>(s) matches Ok(events) ==> valid_events(events),
{
    lemma_read_all_items::<ContractEvent>(s);
    if let Ok(events) = read_all::<ContractEvent>(s) {
        assert forall|i: int| 0 <= i < events.len() implies (#[trigger] events[i]).valid() by {
            assert(ContractEvent::read(s[i]) == Ok::<EventView, Error>(events[i]));
        }
    }
}

/// Lists of events that are read are valid.
proof fn lemma_read_event_lists_valid(s: Seq<Seq<EventMessage>>)
    ensures
        read_event_lists(s) matches Ok(lists) ==> valid_event_lists(lists),
    decreases s.len(),
{
    if s.len() > 0 && read_event_lists(s) is Ok {
        let before = read_event_lists(s.drop_last())->Ok_0;
        let lists = read_event_lists(s)->Ok_0;
        lemma_read_event_lists_valid(s.drop_last());
        lemma_read_events_valid(s.last());
        assert forall|i: int| 0 <= i < lists.len() implies valid_events(#[trigger] lists[i]) by {
            if i < before.len() {
                assert(lists[i] == before[i]);
            }
        }
    }
}

/// A path that is read is valid.
proof fn lemma_read_path_valid(s: Seq<Seq<u8>>)
    ensures
        AccumulatorProof::read(s) matches Ok(path) ==> valid_path(path),
{
    lemma_read_all_items::<HashValue>(s);
    if let Ok(path) = AccumulatorProof::read(s) {
        assert forall|i: int| 0 <= i < path.len() implies (#[trigger] path[i]).len()
            == HASH_LENGTH by {
            assert(HashValue::read(s[i]) == Ok::<Seq<u8>, Error>(path[i]));
        }
    }
}

/// A transaction with its proof that is read is valid and expires at a whole second, so that
/// writing it and reading it again changes nothing.
pub proof fn transaction_with_proof_is_read_valid(object: SignedTransactionWithProofMessage)
    ensures
        SignedTransactionWithProof::read(object) matches Ok(v) ==> v.valid() && v.whole_seconds()
            == v && SignedTransactionWithProof::read(SignedTransactionWithProof::written(v))
            == SignedTransactionWithProof::read(object),
{
    if let Ok(v) = SignedTransactionWithProof::read(object) {
        signed_transaction_is_read_valid(object.signed_transaction);
        lemma_read_path_valid(object.proof.ledger_info_to_transaction_info_proof);
        if let Some(messages) = object.events {
            lemma_read_events_valid(messages);
        }
        transaction_with_proof_message_round_trip(v);
    }
}

/// A signed transaction that is read can be encoded and expires at a whole second, so that
/// writing it and reading it again changes nothing.
pub proof fn signed_transaction_is_read_valid(object: Seq<u8>)
    ensures
        SignedTransaction::read(object) matches Ok(v) ==> SignedTransaction::encodable(v)
            && v.whole_seconds() == v && SignedTransaction::read(SignedTransaction::written(v))
            == SignedTransaction::read(object),
{
    SignedTransaction::lemma_encode_decode(object);
    if let Ok(v) = SignedTransaction::read(object) {
        signed_transaction_message_round_trip(v);
    }
}

/// A transaction to commit that is read is valid and expires at a whole second, so that writing
/// it and reading it again changes nothing.
pub proof fn transaction_to_commit_is_read_valid(object: TransactionToCommitMessage)
    ensures
        TransactionToCommit::read(object) matches Ok(v) ==> v.valid() && v.whole_seconds() == v
            && TransactionToCommit::read(TransactionToCommit::written(v))
            == TransactionToCommit::read(object),
{
    if let Ok(v) = TransactionToCommit::read(object) {
        signed_transaction_is_read_valid(object.signed_txn);
        lemma_read_all_items::<AccountState>(object.account_states);
        assert forall|i: int| 0 <= i < v.account_states.len() implies (
        #[trigger] v.account_states[i]).address.len() == ADDRESS_LENGTH by {
            assert(AccountState::read(object.account_states[i]) == Ok::<AccountStateView, Error>(
                v.account_states[i],
            ));
        }
        lemma_read_events_valid(object.events);
        transaction_to_commit_message_round_trip(v);
    }
}

/// A list of transactions that is read is valid and its transactions expire at whole seconds, so
/// that writing it and reading it again changes nothing.
pub proof fn transaction_list_is_read_valid(object: TransactionListWithProofMessage)
    ensures
        TransactionListWithProof::read(object) matches Ok(v) ==> v.valid() && v.whole_seconds()
            == v && TransactionListWithProof::read(TransactionListWithProof::written(v))
            == TransactionListWithProof::read(object),
{
    if let Ok(v) = TransactionListWithProof::read(object) {
        lists_are_read_well_formed(object);
        let pairs = v.transaction_and_infos;
        assert forall|i: int| #![trigger pairs[i]] 0 <= i < pairs.len() implies
            SignedTransaction::encodable(pairs[i].0) && pairs[i].1.valid()
            && pairs[i].0.whole_seconds() == pairs[i].0 by {
            signed_transaction_is_read_valid(object.transactions[i]);
        }
        assert(v.whole_seconds().transaction_and_infos =~= pairs);
        if let Some(messages) = object.events_for_versions {
            lemma_read_event_lists_valid(messages);
        }
        if let Some(path) = object.proof_of_first_transaction {
            lemma_read_path_valid(path);
        }
        if let Some(path) = object.proof_of_last_transaction {
            lemma_read_path_valid(path);
        }
        transaction_list_message_round_trip(v);
    }
}

} // verus!
