//! What the functions handed to the library are called with, and what becomes of their answers.

use vstd::prelude::*;
use crate::address::{Ed25519PublicKey, Ed25519Signature, HashValue};
use crate::codec::CanonicalSerialize;
use crate::error::Error;
use crate::event::ContractEvent;
use crate::payload::PayloadView;
use crate::transaction::{RawTransaction, SignatureCheckedTransaction};
use crate::transaction::{
    hashed, hashes, is_accepted, is_checking, is_hash_function, is_key_pair, is_signature,
    is_signing, is_verdict, RawTransactionView, SignedTransactionView,
};
use crate::with_proof::{are_event_hashes, is_events_root, is_root, SignedTransactionWithProofView};

verus! {

// ---------------------------------------------------------------------------------------------
// Hashes
// ---------------------------------------------------------------------------------------------

/// A hash of bytes is what the hasher answers for exactly those bytes, and bytes can be hashed
/// where the hasher takes them.
pub proof fn hashes_are_of_the_bytes<H: Fn(&[u8]) -> HashValue>(
    hasher: H,
    bytes: Seq<u8>,
    hash: HashValue,
)
    ensures
        hashed(hasher, bytes, hash) <==> exists|s: &[u8]|
            s@ == bytes && #[trigger] call_ensures(hasher, (s,), hash),
        hashes(hasher, bytes) <==> forall|s: &[u8]|
            s@ == bytes ==> #[trigger] call_requires(hasher, (s,)),
{
}

/// A hasher is a function where two of its answers for the same bytes are the same.
pub proof fn hash_functions_answer_alike<H: Fn(&[u8]) -> HashValue>(hasher: H)
    ensures
        is_hash_function(hasher) <==> forall|s: &[u8], t: &[u8], a: HashValue, b: HashValue|
            #![trigger call_ensures(hasher, (s,), a), call_ensures(hasher, (t,), b)]
            s@ == t@ && call_ensures(hasher, (s,), a) && call_ensures(hasher, (t,), b) ==> a == b,
{
    if is_hash_function(hasher) {
        assert forall|s: &[u8], t: &[u8], a: HashValue, b: HashValue|
            #![trigger call_ensures(hasher, (s,), a), call_ensures(hasher, (t,), b)]
            s@ == t@ && call_ensures(hasher, (s,), a) && call_ensures(
                hasher,
                (t,),
                b,
            ) implies a == b by {
            assert(hashed(hasher, s@, a));
            assert(hashed(hasher, s@, b));
        }
    }
}

// ---------------------------------------------------------------------------------------------
// Signatures
// ---------------------------------------------------------------------------------------------

/// A signature of a transaction is what the signer answers for the private key and a hash of the
/// transaction's bytes.
pub proof fn signatures_are_of_the_hash<K, H, S>(
    private_key: &K,
    hasher: H,
    sign_message: S,
    raw_txn: RawTransactionView,
    signature: Seq<u8>,
) where H: Fn(&[u8]) -> HashValue, S: Fn(&K, &HashValue) -> Ed25519Signature
    ensures
        is_signature(private_key, hasher, sign_message, raw_txn, signature) <==> exists|
            bytes: &[u8],
            hash: HashValue,
            made: Ed25519Signature,
        |
            bytes@ == RawTransaction::encoding(raw_txn) && #[trigger] call_ensures(
                hasher,
                (bytes,),
                hash,
            ) && #[trigger] call_ensures(sign_message, (private_key, &hash), made) && made@
                == signature,
{
    if is_signature(private_key, hasher, sign_message, raw_txn, signature) {
        let (hash, made) = choose|hash: HashValue, made: Ed25519Signature|
            hashed(hasher, RawTransaction::encoding(raw_txn), hash) && #[trigger] call_ensures(
                sign_message,
                (private_key, &hash),
                made,
            ) && signature == made@;
        let bytes = choose|bytes: &[u8]|
            bytes@ == RawTransaction::encoding(raw_txn) && #[trigger] call_ensures(
                hasher,
                (bytes,),
                hash,
            );
        assert(call_ensures(hasher, (bytes,), hash));
    }
    if exists|bytes: &[u8], hash: HashValue, made: Ed25519Signature|
        bytes@ == RawTransaction::encoding(raw_txn) && #[trigger] call_ensures(
            hasher,
            (bytes,),
            hash,
        ) && #[trigger] call_ensures(sign_message, (private_key, &hash), made) && made@
            == signature {
        let (bytes, hash, made) = choose|bytes: &[u8], hash: HashValue, made: Ed25519Signature|
            bytes@ == RawTransaction::encoding(raw_txn) && #[trigger] call_ensures(
                hasher,
                (bytes,),
                hash,
            ) && #[trigger] call_ensures(sign_message, (private_key, &hash), made) && made@
                == signature;
        assert(hashed(hasher, RawTransaction::encoding(raw_txn), hash));
    }
}

/// A verdict on a signed transaction is what the verifier answers for its key, a hash of the bytes
/// of its raw transaction and its signature. It is accepted where such an answer is `Ok`.
pub proof fn verdicts_are_on_the_hash<H, V>(
    hasher: H,
    verify_signature: V,
    signed: SignedTransactionView,
    verdict: Result<(), Error>,
) where
    H: Fn(&[u8]) -> HashValue,
    V: Fn(&Ed25519PublicKey, &HashValue, &Ed25519Signature) -> Result<(), Error>,

    ensures
        is_verdict(hasher, verify_signature, signed, verdict) <==> exists|
            bytes: &[u8],
            key: &Ed25519PublicKey,
            hash: HashValue,
            signature: &Ed25519Signature,
        |
            bytes@ == RawTransaction::encoding(signed.raw_txn) && key@ == signed.public_key
                && signature@ == signed.signature && #[trigger] call_ensures(
                hasher,
                (bytes,),
                hash,
            ) && #[trigger] call_ensures(verify_signature, (key, &hash, signature), verdict),
        is_accepted(hasher, verify_signature, signed) <==> exists|answer: Result<(), Error>|
            answer is Ok && #[trigger] is_verdict(hasher, verify_signature, signed, answer),
{
    let encoding = RawTransaction::encoding(signed.raw_txn);
    if is_verdict(hasher, verify_signature, signed, verdict) {
        let (key, hash, signature) = choose|
            key: &Ed25519PublicKey,
            hash: HashValue,
            signature: &Ed25519Signature,
        |
            key@ == signed.public_key && signature@ == signed.signature && hashed(
                hasher,
                encoding,
                hash,
            ) && #[trigger] call_ensures(verify_signature, (key, &hash, signature), verdict);
        let bytes = choose|bytes: &[u8]|
            bytes@ == encoding && #[trigger] call_ensures(hasher, (bytes,), hash);
        assert(call_ensures(hasher, (bytes,), hash));
        assert(call_ensures(verify_signature, (key, &hash, signature), verdict));
    }
    if exists|
        bytes: &[u8],
        key: &Ed25519PublicKey,
        hash: HashValue,
        signature: &Ed25519Signature,
    |
        bytes@ == encoding && key@ == signed.public_key && signature@ == signed.signature
            && #[trigger] call_ensures(hasher, (bytes,), hash) && #[trigger] call_ensures(
            verify_signature,
            (key, &hash, signature),
            verdict,
        ) {
        let (bytes, key, hash, signature) = choose|
            bytes: &[u8],
            key: &Ed25519PublicKey,
            hash: HashValue,
            signature: &Ed25519Signature,
        |
            bytes@ == encoding && key@ == signed.public_key && signature@ == signed.signature
                && #[trigger] call_ensures(hasher, (bytes,), hash) && #[trigger] call_ensures(
                verify_signature,
                (key, &hash, signature),
                verdict,
            );
        assert(hashed(hasher, encoding, hash));
    }
}

/// A check of a signed transaction gives the transaction itself where the verdict is `Ok`, and
/// otherwise the verdict's error.
pub proof fn checks_follow_the_verdict<H, V>(
    hasher: H,
    verify_signature: V,
    signed: SignedTransactionView,
    r: Result<SignatureCheckedTransaction, Error>,
) where
    H: Fn(&[u8]) -> HashValue,
    V: Fn(&Ed25519PublicKey, &HashValue, &Ed25519Signature) -> Result<(), Error>,

    ensures
        r matches Ok(checked) ==> (is_checking(hasher, verify_signature, signed, r) <==> checked@
            == signed && is_verdict(hasher, verify_signature, signed, Ok(()))),
        r matches Err(e) ==> (is_checking(hasher, verify_signature, signed, r) <==> is_verdict(
            hasher,
            verify_signature,
            signed,
            Err(e),
        )),
{
    if is_checking(hasher, verify_signature, signed, r) {
        let verdict = choose|verdict: Result<(), Error>| #[trigger]
            is_verdict(hasher, verify_signature, signed, verdict) && match verdict {
                Ok(_) => r is Ok && r->Ok_0@ == signed,
                Err(e) => r == Err::<SignatureCheckedTransaction, Error>(e),
            };
        if let Ok(done) = verdict {
            assert(done == ());
            assert(is_verdict(hasher, verify_signature, signed, Ok(())));
        }
    }
    if r is Ok && r->Ok_0@ == signed && is_verdict(hasher, verify_signature, signed, Ok(())) {
        let verdict: Result<(), Error> = Ok(());
        assert(is_verdict(hasher, verify_signature, signed, verdict));
    }
}

/// Signing makes a signature of the transaction, puts it beside the transaction and the key, and
/// gives what the check of that gives.
pub proof fn signing_ends_with_the_check<K, H, S, V>(
    private_key: &K,
    hasher: H,
    sign_message: S,
    verify_signature: V,
    raw_txn: RawTransactionView,
    public_key: Seq<u8>,
    r: Result<SignatureCheckedTransaction, Error>,
) where
    H: Fn(&[u8]) -> HashValue,
    S: Fn(&K, &HashValue) -> Ed25519Signature,
    V: Fn(&Ed25519PublicKey, &HashValue, &Ed25519Signature) -> Result<(), Error>,

    ensures
        is_signing(private_key, hasher, sign_message, verify_signature, raw_txn, public_key, r)
            <==> exists|signature: Seq<u8>| #[trigger]
            is_signature(private_key, hasher, sign_message, raw_txn, signature) && is_checking(
                hasher,
                verify_signature,
                (SignedTransactionView { raw_txn, public_key, signature }),
                r,
            ),
        is_signing(private_key, hasher, sign_message, verify_signature, raw_txn, public_key, r)
            ==> (r matches Ok(checked) ==> checked@.raw_txn == raw_txn && checked@.public_key
            == public_key && is_signature(
            private_key,
            hasher,
            sign_message,
            raw_txn,
            checked@.signature,
        )),
{
    if is_signing(private_key, hasher, sign_message, verify_signature, raw_txn, public_key, r) {
        let signed = choose|signed: SignedTransactionView| #[trigger]
            is_checking(hasher, verify_signature, signed, r) && signed.raw_txn == raw_txn
                && signed.public_key == public_key && is_signature(
                private_key,
                hasher,
                sign_message,
                raw_txn,
                signed.signature,
            );
        let signature = signed.signature;
        assert(signed == SignedTransactionView { raw_txn, public_key, signature });
        assert(is_signature(private_key, hasher, sign_message, raw_txn, signature));
    }
    if exists|signature: Seq<u8>| #[trigger]
        is_signature(private_key, hasher, sign_message, raw_txn, signature) && is_checking(
            hasher,
            verify_signature,
            (SignedTransactionView { raw_txn, public_key, signature }),
            r,
        ) {
        let signature = choose|signature: Seq<u8>| #[trigger]
            is_signature(private_key, hasher, sign_message, raw_txn, signature) && is_checking(
                hasher,
                verify_signature,
                (SignedTransactionView { raw_txn, public_key, signature }),
                r,
            );
        let signed = SignedTransactionView { raw_txn, public_key, signature };
        assert(is_checking(hasher, verify_signature, signed, r));
    }
}

/// Keys are a pair where the verifier answers `Ok` for each signature that the signer makes, with
/// the same hash.
pub proof fn key_pairs_accept_their_signatures<K, S, V>(
    private_key: &K,
    public_key: Seq<u8>,
    sign_message: S,
    verify_signature: V,
) where
    S: Fn(&K, &HashValue) -> Ed25519Signature,
    V: Fn(&Ed25519PublicKey, &HashValue, &Ed25519Signature) -> Result<(), Error>,

    ensures
        is_key_pair(private_key, public_key, sign_message, verify_signature) <==> forall|
            hash: HashValue,
            made: Ed25519Signature,
            key: &Ed25519PublicKey,
            given: &Ed25519Signature,
            answer: Result<(), Error>,
        |
            #![trigger call_ensures(sign_message, (private_key, &hash), made), call_ensures(verify_signature, (key, &hash, given), answer)]
            call_ensures(sign_message, (private_key, &hash), made) && call_ensures(
                verify_signature,
                (key, &hash, given),
                answer,
            ) && key@ == public_key && given@ == made@ ==> answer is Ok,
{
}

// ---------------------------------------------------------------------------------------------
// Names
// ---------------------------------------------------------------------------------------------

/// A payload that runs code is called what the given function answers for that code; the others
/// have names of their own.
pub proof fn payloads_are_called_by_their_code<F: Fn(&[u8]) -> String>(
    payload: PayloadView,
    get_transaction_name: F,
    name: Seq<char>,
)
    ensures
        payload matches PayloadView::Program(program) ==> (payload.is_called(
            get_transaction_name,
            name,
        ) <==> exists|code: &[u8], r: String|
            code@ == program.code && r@ == name && #[trigger] call_ensures(
                get_transaction_name,
                (code,),
                r,
            )),
        payload matches PayloadView::Script(script) ==> (payload.is_called(
            get_transaction_name,
            name,
        ) <==> exists|code: &[u8], r: String|
            code@ == script.code && r@ == name && #[trigger] call_ensures(
                get_transaction_name,
                (code,),
                r,
            )),
        payload is WriteSet ==> (payload.is_called(get_transaction_name, name) <==> name
            == "genesis"@),
        payload is Module ==> (payload.is_called(get_transaction_name, name) <==> name
            == "module publishing"@),
        payload matches PayloadView::Program(program) ==> payload.named_code() == Some(program.code),
        payload matches PayloadView::Script(script) ==> payload.named_code() == Some(script.code),
        payload is WriteSet || payload is Module ==> payload.named_code() is None,
{
}

// ---------------------------------------------------------------------------------------------
// Proofs
// ---------------------------------------------------------------------------------------------

/// The hashes of events are, place by place, what the hasher answers for each event.
pub proof fn event_hashes_are_in_place<E: Fn(&ContractEvent) -> HashValue>(
    hash_event: E,
    events: Seq<ContractEvent>,
    event_hashes: Seq<HashValue>,
)
    ensures
        are_event_hashes(hash_event, events, event_hashes) <==> {
            &&& event_hashes.len() == events.len()
            &&& forall|i: int| #![trigger event_hashes[i]]
                0 <= i < event_hashes.len() ==> call_ensures(
                    hash_event,
                    (&events[i],),
                    event_hashes[i],
                )
        },
{
}

/// There is a root of events exactly where there are events, however few. It is what the given
/// function answers for their hashes.
pub proof fn roots_are_of_all_events<E, R>(
    hash_event: E,
    event_root: R,
    events: Option<Vec<ContractEvent>>,
    root: Option<HashValue>,
) where E: Fn(&ContractEvent) -> HashValue, R: Fn(&[HashValue]) -> HashValue
    ensures
        is_events_root(hash_event, event_root, events, root) ==> (events is Some <==> root is Some),
        events is None && root is None ==> is_events_root(hash_event, event_root, events, root),
        events is Some && root is Some ==> (is_events_root(hash_event, event_root, events, root)
            <==> is_root(hash_event, event_root, events->Some_0@, root->Some_0)),
        events is Some && root is Some ==> (is_root(
            hash_event,
            event_root,
            events->Some_0@,
            root->Some_0,
        ) <==> exists|event_hashes: &[HashValue]|
            {
                &&& event_hashes@.len() == events->Some_0@.len()
                &&& forall|i: int| #![trigger event_hashes@[i]]
                    0 <= i < event_hashes@.len() ==> call_ensures(
                        hash_event,
                        (&events->Some_0@[i],),
                        event_hashes@[i],
                    )
                &&& #[trigger] call_ensures(event_root, (event_hashes,), root->Some_0)
            }),
{
    if events is Some && root is Some {
        let events = events->Some_0@;
        let root = root->Some_0;
        if exists|event_hashes: &[HashValue]|
            {
                &&& event_hashes@.len() == events.len()
                &&& forall|i: int| #![trigger event_hashes@[i]]
                    0 <= i < event_hashes@.len() ==> call_ensures(
                        hash_event,
                        (&events[i],),
                        event_hashes@[i],
                    )
                &&& #[trigger] call_ensures(event_root, (event_hashes,), root)
            } {
            let event_hashes = choose|event_hashes: &[HashValue]|
                {
                    &&& event_hashes@.len() == events.len()
                    &&& forall|i: int| #![trigger event_hashes@[i]]
                        0 <= i < event_hashes@.len() ==> call_ensures(
                            hash_event,
                            (&events[i],),
                            event_hashes@[i],
                        )
                    &&& #[trigger] call_ensures(event_root, (event_hashes,), root)
                };
            assert(are_event_hashes(hash_event, events, event_hashes@));
        }
    }
}

/// A transaction with its proof is the expected one where its version, the sender and the sequence
/// number of the transaction are all three as expected.
pub proof fn expected_transactions_match_in_three_fields(
    v: SignedTransactionWithProofView,
    version: u64,
    sender: Seq<u8>,
    sequence_number: u64,
)
    ensures
        v.is_expected(version, sender, sequence_number) <==> v.version == version
            && v.signed_transaction.raw_txn.sender == sender
            && v.signed_transaction.raw_txn.sequence_number == sequence_number,
{
}

} // verus!
