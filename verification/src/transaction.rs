//! Transactions, before and after they are signed.

use vstd::prelude::*;
use crate::address::{AccountAddress, Ed25519PublicKey, Ed25519Signature, HashValue};
use crate::argument::TransactionArgument;
use crate::argument::ArgumentView;
use crate::canonical::{encode_u64, SimpleDeserializer};
use crate::canonical::{
    lemma_u64_decode_encode, lemma_u64_encode_decode, u64_bytes, u64_decoding, Decoded,
};
use crate::codec::{
    from_canonical_bytes, CanonicalDeserialize, CanonicalSerialize,
};
use crate::codec::views;
use crate::convert::{FromProto, IntoProto};
use crate::error::Error;
use crate::laws::signed_transaction_message_round_trip;
use crate::payload::TransactionPayload;
use crate::payload::PayloadView;
use crate::program::{Module, Script};
use crate::proto::SignedTransactionProto;
use crate::show::{shown_text, write_shown, Shown};
use crate::show::text_in;
use crate::text::{append_decimal, append_field, append_hex, decimal_text};
use crate::text::{decimal, field_line, hex};
use crate::time::Duration;
use crate::time::{duration_text, DurationView};
use crate::write_set::WriteSet;

verus! {

/// The height of the ledger at which a transaction stands.
pub type Version = u64;

/// The longest transaction that the VM accepts.
pub const MAX_TRANSACTION_SIZE_IN_BYTES: usize = 4096;

// ---------------------------------------------------------------------------------------------
// Raw transactions
// ---------------------------------------------------------------------------------------------

/// The portion of a transaction that a client signs.
#[derive(Debug, PartialEq, Eq, Hash)]
pub struct RawTransaction {
    /// Sender's address.
    sender: AccountAddress,
    /// Sequence number of this transaction corresponding to sender's account.
    sequence_number: u64,
    /// What the transaction does.
    payload: TransactionPayload,
    /// Maximal total gas specified by wallet to spend for this transaction.
    max_gas_amount: u64,
    /// Maximal price that can be paid per gas.
    gas_unit_price: u64,
    /// Expiration time for this transaction. If storage is queried and the time returned is
    /// greater than or equal to this time and this transaction has not been included, you can be
    /// certain that it will never be included. A transaction that doesn't expire is represented
    /// by a very large value like `u64::MAX`.
    expiration_time: Duration,
}

/// What a raw transaction holds.
pub ghost struct RawTransactionView {
    pub sender: Seq<u8>,
    pub sequence_number: u64,
    pub payload: PayloadView,
    pub max_gas_amount: u64,
    pub gas_unit_price: u64,
    pub expiration_time: DurationView,
}

impl View for RawTransaction {
    type V = RawTransactionView;

    closed spec fn view(&self) -> RawTransactionView {
        RawTransactionView {
            sender: self.sender@,
            sequence_number: self.sequence_number,
            payload: self.payload@,
            max_gas_amount: self.max_gas_amount,
            gas_unit_price: self.gas_unit_price,
            expiration_time: self.expiration_time@,
        }
    }
}

impl Clone for RawTransaction {
    fn clone(&self) -> (r: RawTransaction)
        ensures
            r@ == self@,
    {
        RawTransaction {
            sender: self.sender,
            sequence_number: self.sequence_number,
            payload: self.payload.clone(),
            max_gas_amount: self.max_gas_amount,
            gas_unit_price: self.gas_unit_price,
            expiration_time: self.expiration_time,
        }
    }
}

impl RawTransactionView {
    /// The transaction with the fraction of a second taken off its expiration time.
    pub open spec fn whole_seconds(self) -> RawTransactionView {
        RawTransactionView { expiration_time: self.expiration_time.whole_seconds(), ..self }
    }
}

impl RawTransaction {
    /// Create a new `RawTransaction` with a payload.
    ///
    /// It can be either to publish a module, to execute a script, or to issue a writeset
    /// transaction.
    pub fn new(
        sender: AccountAddress,
        sequence_number: u64,
        payload: TransactionPayload,
        max_gas_amount: u64,
        gas_unit_price: u64,
        expiration_time: Duration,
    ) -> (r: RawTransaction)
        ensures
            r@ == (RawTransactionView {
                sender: sender@,
                sequence_number,
                payload: payload@,
                max_gas_amount,
                gas_unit_price,
                expiration_time: expiration_time@,
            }),
    {
        RawTransaction {
            sender,
            sequence_number,
            payload,
            max_gas_amount,
            gas_unit_price,
            expiration_time,
        }
    }

    /// Create a new `RawTransaction` with a script.
    ///
    /// A script transaction contains only code to execute. No publishing is allowed in scripts.
    pub fn new_script(
        sender: AccountAddress,
        sequence_number: u64,
        script: Script,
        max_gas_amount: u64,
        gas_unit_price: u64,
        expiration_time: Duration,
    ) -> (r: RawTransaction)
        ensures
            r@ == (RawTransactionView {
                sender: sender@,
                sequence_number,
                payload: PayloadView::Script(script@),
                max_gas_amount,
                gas_unit_price,
                expiration_time: expiration_time@,
            }),
    {
        RawTransaction {
            sender,
            sequence_number,
            payload: TransactionPayload::Script(script),
            max_gas_amount,
            gas_unit_price,
            expiration_time,
        }
    }

    /// Create a new `RawTransaction` with a module to publish.
    ///
    /// A module transaction is the only way to publish code. Only one module per transaction
    /// can be published.
    pub fn new_module(
        sender: AccountAddress,
        sequence_number: u64,
        module: Module,
        max_gas_amount: u64,
        gas_unit_price: u64,
        expiration_time: Duration,
    ) -> (r: RawTransaction)
        ensures
            r@ == (RawTransactionView {
                sender: sender@,
                sequence_number,
                payload: PayloadView::Module(module@),
                max_gas_amount,
                gas_unit_price,
                expiration_time: expiration_time@,
            }),
    {
        RawTransaction {
            sender,
            sequence_number,
            payload: TransactionPayload::Module(module),
            max_gas_amount,
            gas_unit_price,
            expiration_time,
        }
    }

    /// Create a new `RawTransaction` that issues a write set. It pays for no gas, since
    /// write-set transactions bypass the VM, and does not expire.
    pub fn new_write_set(
        sender: AccountAddress,
        sequence_number: u64,
        write_set: WriteSet,
    ) -> (r: RawTransaction)
        ensures
            r@ == (RawTransactionView {
                sender: sender@,
                sequence_number,
                payload: PayloadView::WriteSet(write_set@),
                max_gas_amount: 0,
                gas_unit_price: 0,
                expiration_time: DurationView { secs: u64::MAX, nanos: 0 },
            }),
    {
        RawTransaction {
            sender,
            sequence_number,
            payload: TransactionPayload::WriteSet(write_set),
            max_gas_amount: 0,
            gas_unit_price: 0,
            expiration_time: Duration::new(u64::MAX, 0),
        }
    }

    /// What the transaction does.
    pub fn into_payload(self) -> (r: TransactionPayload)
        ensures
            r@ == self@.payload,
    {
        self.payload
    }

    /// Return the sender of this transaction.
    pub fn sender(&self) -> (r: AccountAddress)
        ensures
            r@ == self@.sender,
    {
        self.sender
    }

    /// The sequence number of the transaction.
    pub fn sequence_number(&self) -> (r: u64)
        ensures
            r == self@.sequence_number,
    {
        self.sequence_number
    }

    /// What the transaction does.
    pub fn payload(&self) -> (r: &TransactionPayload)
        ensures
            r@ == self@.payload,
    {
        &self.payload
    }

    /// The gas that the transaction may use.
    pub fn max_gas_amount(&self) -> (r: u64)
        ensures
            r == self@.max_gas_amount,
    {
        self.max_gas_amount
    }

    /// The price that is paid per gas.
    pub fn gas_unit_price(&self) -> (r: u64)
        ensures
            r == self@.gas_unit_price,
    {
        self.gas_unit_price
    }

    /// When the transaction expires.
    pub fn expiration_time(&self) -> (r: Duration)
        ensures
            r@ == self@.expiration_time,
    {
        self.expiration_time
    }
}

impl CanonicalSerialize for RawTransaction {
    open spec fn encodable(v: RawTransactionView) -> bool {
        AccountAddress::encodable(v.sender) && TransactionPayload::encodable(v.payload)
    }

    open spec fn encoding(v: RawTransactionView) -> Seq<u8> {
        AccountAddress::encoding(v.sender) + (u64_bytes(v.sequence_number) + (
        TransactionPayload::encoding(v.payload) + (u64_bytes(v.max_gas_amount) + (u64_bytes(
            v.gas_unit_price,
        ) + u64_bytes(v.expiration_time.secs)))))
    }

    open spec fn written_part(v: RawTransactionView) -> Seq<u8> {
        if !AccountAddress::encodable(v.sender) {
            Seq::empty()
        } else {
            AccountAddress::encoding(v.sender) + (u64_bytes(v.sequence_number)
                + TransactionPayload::written_part(v.payload))
        }
    }

    fn serialize(&self, out: &mut Vec<u8>) -> (r: Result<(), Error>) {
        let ghost start = out@;
        match self.sender.serialize(out) {
            Ok(_) => {},
            Err(e) => {
                assert(out@ =~= start + Self::written_part(self@));
                return Err(e);
            },
        }
        encode_u64(self.sequence_number, out);
        match self.payload.serialize(out) {
            Ok(_) => {},
            Err(e) => {
                assert(out@ =~= start + Self::written_part(self@));
                return Err(e);
            },
        }
        encode_u64(self.max_gas_amount, out);
        encode_u64(self.gas_unit_price, out);
        encode_u64(self.expiration_time.as_secs(), out);
        assert(out@ =~= start + Self::encoding(self@));
        Ok(())
    }
}

impl CanonicalDeserialize for RawTransaction {
    open spec fn canonical(v: RawTransactionView) -> RawTransactionView {
        v.whole_seconds()
    }

    open spec fn decoding(s: Seq<u8>) -> Decoded<RawTransactionView> {
        match AccountAddress::decoding(s) {
            Err(e) => Err(e),
            Ok((sender, s1)) => match u64_decoding(s1) {
                Err(e) => Err(e),
                Ok((sequence_number, s2)) => match TransactionPayload::decoding(s2) {
                    Err(e) => Err(e),
                    Ok((payload, s3)) => match u64_decoding(s3) {
                        Err(e) => Err(e),
                        Ok((max_gas_amount, s4)) => match u64_decoding(s4) {
                            Err(e) => Err(e),
                            Ok((gas_unit_price, s5)) => match u64_decoding(s5) {
                                Err(e) => Err(e),
                                Ok((secs, rest)) => Ok(
                                    (
                                        RawTransactionView {
                                            sender,
                                            sequence_number,
                                            payload,
                                            max_gas_amount,
                                            gas_unit_price,
                                            expiration_time: DurationView { secs, nanos: 0 },
                                        },
                                        rest,
                                    ),
                                ),
                            },
                        },
                    },
                },
            },
        }
    }

    open spec fn unread(s: Seq<u8>) -> Seq<u8> {
        match AccountAddress::decoding(s) {
            Err(_) => AccountAddress::unread(s),
            Ok((_, s1)) => match u64_decoding(s1) {
                Err(_) => s1,
                Ok((_, s2)) => match TransactionPayload::decoding(s2) {
                    Err(_) => TransactionPayload::unread(s2),
                    Ok((_, s3)) => match u64_decoding(s3) {
                        Err(_) => s3,
                        Ok((_, s4)) => match u64_decoding(s4) {
                            Err(_) => s4,
                            Ok((_, s5)) => s5,
                        },
                    },
                },
            },
        }
    }

    fn deserialize(input: &mut SimpleDeserializer) -> (r: Result<Self, Error>) {
        let sender = match AccountAddress::deserialize(input) {
            Ok(sender) => sender,
            Err(e) => return Err(e),
        };
        let sequence_number: u64 = match input.decode_u64() {
            Ok(n) => n,
            Err(e) => return Err(e),
        };
        let payload = match TransactionPayload::deserialize(input) {
            Ok(payload) => payload,
            Err(e) => return Err(e),
        };
        let max_gas_amount: u64 = match input.decode_u64() {
            Ok(n) => n,
            Err(e) => return Err(e),
        };
        let gas_unit_price: u64 = match input.decode_u64() {
            Ok(n) => n,
            Err(e) => return Err(e),
        };
        let expiration_time = match input.decode_u64() {
            Ok(n) => Duration::from_secs(n),
            Err(e) => return Err(e),
        };
        Ok(
            RawTransaction {
                sender,
                sequence_number,
                payload,
                max_gas_amount,
                gas_unit_price,
                expiration_time,
            },
        )
    }

    proof fn lemma_decode_encode(v: RawTransactionView, rest: Seq<u8>) {
        let s5 = u64_bytes(v.expiration_time.secs) + rest;
        let s4 = u64_bytes(v.gas_unit_price) + s5;
        let s3 = u64_bytes(v.max_gas_amount) + s4;
        let s2 = TransactionPayload::encoding(v.payload) + s3;
        let s1 = u64_bytes(v.sequence_number) + s2;
        assert(Self::encoding(v) + rest =~= AccountAddress::encoding(v.sender) + s1);
        AccountAddress::lemma_decode_encode(v.sender, s1);
        lemma_u64_decode_encode(v.sequence_number, s2);
        TransactionPayload::lemma_decode_encode(v.payload, s3);
        lemma_u64_decode_encode(v.max_gas_amount, s4);
        lemma_u64_decode_encode(v.gas_unit_price, s5);
        lemma_u64_decode_encode(v.expiration_time.secs, rest);
    }

    proof fn lemma_encode_decode(s: Seq<u8>) {
        if let Ok((v, rest)) = Self::decoding(s) {
            AccountAddress::lemma_encode_decode(s);
            let s1 = AccountAddress::decoding(s)->Ok_0.1;
            lemma_u64_encode_decode(s1);
            let s2 = u64_decoding(s1)->Ok_0.1;
            TransactionPayload::lemma_encode_decode(s2);
            let s3 = TransactionPayload::decoding(s2)->Ok_0.1;
            lemma_u64_encode_decode(s3);
            let s4 = u64_decoding(s3)->Ok_0.1;
            lemma_u64_encode_decode(s4);
            let s5 = u64_decoding(s4)->Ok_0.1;
            lemma_u64_encode_decode(s5);
            assert(Self::encoding(v) + rest =~= AccountAddress::encoding(v.sender) + (u64_bytes(
                v.sequence_number,
            ) + (TransactionPayload::encoding(v.payload) + (u64_bytes(v.max_gas_amount) + (
            u64_bytes(v.gas_unit_price) + (u64_bytes(v.expiration_time.secs) + rest))))));
        }
    }
}

// ---------------------------------------------------------------------------------------------
// Raw transactions as text
// ---------------------------------------------------------------------------------------------

/// The arguments, each on a line of its own.
pub open spec fn args_text(args: Seq<ArgumentView>) -> Seq<char>
    decreases args.len(),
{
    if args.len() == 0 {
        Seq::empty()
    } else {
        args_text(args.drop_last()) + "\n\t\t\t"@ + args.last().text() + ","@
    }
}

impl PayloadView {
    /// The code that names the transaction, where there is some.
    pub open spec fn named_code(self) -> Option<Seq<u8>> {
        match self {
            PayloadView::Program(program) => Some(program.code),
            PayloadView::Script(script) => Some(script.code),
            PayloadView::WriteSet(_) => None,
            PayloadView::Module(_) => None,
        }
    }

    /// The arguments that the code is run with.
    pub open spec fn shown_args(self) -> Seq<ArgumentView> {
        match self {
            PayloadView::Program(program) => program.args,
            PayloadView::Script(script) => script.args,
            PayloadView::WriteSet(_) => Seq::empty(),
            PayloadView::Module(_) => Seq::empty(),
        }
    }

    /// `name` is what the transaction is called: what `get_transaction_name` makes of its code,
    /// or a fixed name where it runs none.
    pub open spec fn is_called<F: Fn(&[u8]) -> String>(
        self,
        get_transaction_name: F,
        name: Seq<char>,
    ) -> bool {
        match self {
            PayloadView::WriteSet(_) => name == "genesis"@,
            PayloadView::Module(_) => name == "module publishing"@,
            _ => exists|code: &[u8], r: String|
                self.named_code() == Some(code@) && r@ == name && #[trigger] call_ensures(
                    get_transaction_name,
                    (code,),
                    r,
                ),
        }
    }
}

impl RawTransactionView {
    /// The transaction as it is shown to a client who calls it `name`, with its expiration time
    /// as text.
    pub open spec fn client_text(self, name: Seq<char>, expiration_time: Seq<char>) -> Seq<char> {
        "RawTransaction { \n\tsender: "@ + hex(self.sender) + ", \n\tsequence_number: "@ + decimal(
            self.sequence_number as nat,
        ) + ", \n\tpayload: {, \n\t\ttransaction: "@ + name + ", \n\t\targs: [ "@ + args_text(
            self.payload.shown_args(),
        ) + " \n\t\t]\n\t}, \n\tmax_gas_amount: "@ + decimal(self.max_gas_amount as nat)
            + ", \n\tgas_unit_price: "@ + decimal(self.gas_unit_price as nat)
            + ", \n\texpiration_time: "@ + expiration_time + ", \n}"@
    }
}

impl TransactionPayload {
    /// The arguments that the code is run with; a payload that runs none has none.
    fn shown_args(&self) -> (r: Option<&[TransactionArgument]>)
        ensures
            r matches Some(args) ==> views(args@) == self@.shown_args(),
            r is None ==> self@.shown_args().len() == 0,
    {
        match self {
            TransactionPayload::Program(program) => Some(program.args()),
            TransactionPayload::Script(script) => Some(script.args()),
            TransactionPayload::WriteSet(_) => None,
            TransactionPayload::Module(_) => None,
        }
    }
}

/// Appends the arguments, each on a line of its own.
fn append_args(out: &mut String, args: &[TransactionArgument])
    ensures
        final(out)@ == old(out)@ + args_text(views(args@)),
{
    let ghost start = out@;
    let ghost all = views(args@);
    let mut i: usize = 0;
    assert(out@ =~= start + args_text(all.take(0)));
    while i < args.len()
        invariant
            i <= args@.len(),
            all == views(args@),
            out@ == start + args_text(all.take(i as int)),
        decreases args@.len() - i,
    {
        out.append("\n\t\t\t");
        args[i].append_text(out);
        out.append(",");
        proof {
            let next = all.take(i + 1);
            assert(next.drop_last() =~= all.take(i as int));
            assert(next.last() == args@[i as int]@);
            assert(out@ =~= start + args_text(next));
        }
        i = i + 1;
    }
    assert(all.take(i as int) =~= all);
}

impl RawTransaction {
    /// The transaction as it is shown to a client who calls it `name`, with its expiration time
    /// as text.
    pub fn format_with(&self, name: &str, expiration_time: &str) -> (r: String)
        ensures
            r@ == self@.client_text(name@, expiration_time@),
    {
        let mut out = String::new();
        out.append("RawTransaction { \n\tsender: ");
        append_hex(&mut out, self.sender.as_bytes());
        out.append(", \n\tsequence_number: ");
        append_decimal(&mut out, self.sequence_number);
        out.append(", \n\tpayload: {, \n\t\ttransaction: ");
        out.append(name);
        out.append(", \n\t\targs: [ ");
        let ghost before = out@;
        match self.payload.shown_args() {
            Some(args) => append_args(&mut out, args),
            None => {},
        }
        assert(out@ =~= before + args_text(self@.payload.shown_args()));
        out.append(" \n\t\t]\n\t}, \n\tmax_gas_amount: ");
        append_decimal(&mut out, self.max_gas_amount);
        out.append(", \n\tgas_unit_price: ");
        append_decimal(&mut out, self.gas_unit_price);
        out.append(", \n\texpiration_time: ");
        out.append(expiration_time);
        out.append(", \n}");
        assert(out@ =~= self@.client_text(name@, expiration_time@));
        out
    }

    /// The transaction as it is shown to a client. `get_transaction_name` tells what a script or
    /// a program is called.
    pub fn format_for_client<F: Fn(&[u8]) -> String>(&self, get_transaction_name: F) -> (r: String)
        requires
            forall|code: &[u8]|
                self@.payload.named_code() == Some(code@) ==> #[trigger] call_requires(
                    get_transaction_name,
                    (code,),
                ),
        ensures
            exists|name: Seq<char>| #[trigger]
                self@.payload.is_called(get_transaction_name, name) && r@ == self@.client_text(
                    name,
                    duration_text(
                        self@.expiration_time.secs,
                        self@.expiration_time.nanos,
                    ),
                ) && r@ == "RawTransaction { \n\tsender: "@ + hex(self@.sender)
                    + ", \n\tsequence_number: "@ + decimal(self@.sequence_number as nat)
                    + ", \n\tpayload: {, \n\t\ttransaction: "@ + name + ", \n\t\targs: [ "@
                    + args_text(
                    match self@.payload {
                        PayloadView::Program(program) => program.args,
                        PayloadView::Script(script) => script.args,
                        PayloadView::WriteSet(_) => Seq::empty(),
                        PayloadView::Module(_) => Seq::empty(),
                    },
                ) + " \n\t\t]\n\t}, \n\tmax_gas_amount: "@ + decimal(self@.max_gas_amount as nat)
                    + ", \n\tgas_unit_price: "@ + decimal(self@.gas_unit_price as nat)
                    + ", \n\texpiration_time: "@ + duration_text(
                    self@.expiration_time.secs,
                    self@.expiration_time.nanos,
                ) + ", \n}"@,
    {
        let name = match &self.payload {
            TransactionPayload::Program(program) => get_transaction_name(program.code()),
            TransactionPayload::WriteSet(_) => String::from_str("genesis"),
            TransactionPayload::Script(script) => get_transaction_name(script.code()),
            TransactionPayload::Module(_) => String::from_str("module publishing"),
        };
        assert(self@.payload.is_called(get_transaction_name, name@));
        let expiration_time = self.expiration_time.to_text();
        self.format_with(name.as_str(), expiration_time.as_str())
    }
}

// ---------------------------------------------------------------------------------------------
// Hashing
// ---------------------------------------------------------------------------------------------

/// `hash` is what `hasher` makes of `bytes`.
pub open spec fn hashed<H: Fn(&[u8]) -> HashValue>(
    hasher: H,
    bytes: Seq<u8>,
    hash: HashValue,
) -> bool {
    exists|s: &[u8]| s@ == bytes && #[trigger] call_ensures(hasher, (s,), hash)
}

/// `hasher` can be called on `bytes`.
pub open spec fn hashes<H: Fn(&[u8]) -> HashValue>(hasher: H, bytes: Seq<u8>) -> bool {
    forall|s: &[u8]| s@ == bytes ==> #[trigger] call_requires(hasher, (s,))
}

/// `hasher` is a hash function: it makes one hash of the same bytes.
pub open spec fn is_hash_function<H: Fn(&[u8]) -> HashValue>(hasher: H) -> bool {
    forall|bytes: Seq<u8>, a: HashValue, b: HashValue|
        #![trigger hashed(hasher, bytes, a), hashed(hasher, bytes, b)]
        hashed(hasher, bytes, a) && hashed(hasher, bytes, b) ==> a == b
}

/// What `hasher` makes of the canonical bytes of `value`.
pub fn hash_canonical_bytes<T: CanonicalSerialize, H: Fn(&[u8]) -> HashValue>(
    value: &T,
    hasher: &H,
) -> (r: HashValue)
    requires
        T::encodable(value@),
        hashes(*hasher, T::encoding(value@)),
    ensures
        hashed(*hasher, T::encoding(value@), r),
{
    let mut bytes: Vec<u8> = Vec::new();
    let _written = value.serialize(&mut bytes);
    assert(bytes@ =~= T::encoding(value@));
    hasher(bytes.as_slice())
}

impl RawTransaction {
    /// The hash of the transaction. `hasher` is the hash function for raw transactions.
    pub fn hash<H: Fn(&[u8]) -> HashValue>(&self, hasher: &H) -> (r: HashValue)
        requires
            RawTransaction::encodable(self@),
            hashes(*hasher, RawTransaction::encoding(self@)),
        ensures
            hashed(*hasher, RawTransaction::encoding(self@), r),
    {
        hash_canonical_bytes(self, hasher)
    }
}

// ---------------------------------------------------------------------------------------------
// Signed transactions
// ---------------------------------------------------------------------------------------------

/// A transaction that has been signed.
///
/// A `SignedTransaction` is a single transaction that can be atomically executed. Clients submit
/// these to validator nodes, and the validator and executor submits these to the VM.
///
/// **IMPORTANT:** The signature of a `SignedTransaction` is not guaranteed to be verified. For a
/// transaction whose signature is statically guaranteed to be verified, see
/// [`SignatureCheckedTransaction`].
#[derive(PartialEq, Eq, Hash)]
pub struct SignedTransaction {
    /// The raw transaction
    raw_txn: RawTransaction,
    /// Sender's public key. When checking the signature, we first need to check whether this key
    /// is indeed the pre-image of the pubkey hash stored under sender's account.
    public_key: Ed25519PublicKey,
    /// Signature of the transaction that correspond to the public key
    signature: Ed25519Signature,
    /// The transaction length is used by the VM to limit the size of transactions
    transaction_length: usize,
}

/// What a signed transaction holds.
pub ghost struct SignedTransactionView {
    pub raw_txn: RawTransactionView,
    pub public_key: Seq<u8>,
    pub signature: Seq<u8>,
}

impl View for SignedTransaction {
    type V = SignedTransactionView;

    closed spec fn view(&self) -> SignedTransactionView {
        SignedTransactionView {
            raw_txn: self.raw_txn@,
            public_key: self.public_key@,
            signature: self.signature@,
        }
    }
}

impl Clone for SignedTransaction {
    fn clone(&self) -> (r: SignedTransaction)
        ensures
            r@ == self@,
    {
        proof {
            use_type_invariant(self);
        }
        SignedTransaction {
            raw_txn: self.raw_txn.clone(),
            public_key: self.public_key,
            signature: self.signature,
            transaction_length: self.transaction_length,
        }
    }
}

impl SignedTransactionView {
    /// The transaction with the fraction of a second taken off its expiration time.
    pub open spec fn whole_seconds(self) -> SignedTransactionView {
        SignedTransactionView { raw_txn: self.raw_txn.whole_seconds(), ..self }
    }
}

impl SignedTransaction {
    /// The length is that of the raw transaction in its canonical bytes.
    #[verifier::type_invariant]
    spec fn length_of_raw_transaction(self) -> bool {
        RawTransaction::encodable(self.raw_txn@) && self.transaction_length
            == RawTransaction::encoding(self.raw_txn@).len()
    }

    /// A raw transaction with a public key and a signature, which are not checked.
    pub fn new(
        raw_txn: RawTransaction,
        public_key: Ed25519PublicKey,
        signature: Ed25519Signature,
    ) -> (r: SignedTransaction)
        requires
            RawTransaction::encodable(raw_txn@),
        ensures
            r@ == (SignedTransactionView {
                raw_txn: raw_txn@,
                public_key: public_key@,
                signature: signature@,
            }),
    {
        let mut bytes: Vec<u8> = Vec::new();
        let _written = raw_txn.serialize(&mut bytes);
        assert(bytes@ =~= RawTransaction::encoding(raw_txn@));
        let transaction_length: usize = bytes.len();
        SignedTransaction { raw_txn, public_key, signature, transaction_length }
    }

    /// The public key that the signature is to be checked with.
    pub fn public_key(&self) -> (r: Ed25519PublicKey)
        ensures
            r@ == self@.public_key,
    {
        self.public_key
    }

    /// The signature.
    pub fn signature(&self) -> (r: Ed25519Signature)
        ensures
            r@ == self@.signature,
    {
        self.signature
    }

    /// The sender of the transaction.
    pub fn sender(&self) -> (r: AccountAddress)
        ensures
            r@ == self@.raw_txn.sender,
    {
        self.raw_txn.sender
    }

    /// The raw transaction.
    pub fn into_raw_transaction(self) -> (r: RawTransaction)
        ensures
            r@ == self@.raw_txn,
    {
        self.raw_txn
    }

    /// The sequence number of the transaction.
    pub fn sequence_number(&self) -> (r: u64)
        ensures
            r == self@.raw_txn.sequence_number,
    {
        self.raw_txn.sequence_number
    }

    /// What the transaction does.
    pub fn payload(&self) -> (r: &TransactionPayload)
        ensures
            r@ == self@.raw_txn.payload,
    {
        &self.raw_txn.payload
    }

    /// The gas that the transaction may use.
    pub fn max_gas_amount(&self) -> (r: u64)
        ensures
            r == self@.raw_txn.max_gas_amount,
    {
        self.raw_txn.max_gas_amount
    }

    /// The price that is paid per gas.
    pub fn gas_unit_price(&self) -> (r: u64)
        ensures
            r == self@.raw_txn.gas_unit_price,
    {
        self.raw_txn.gas_unit_price
    }

    /// When the transaction expires.
    pub fn expiration_time(&self) -> (r: Duration)
        ensures
            r@ == self@.raw_txn.expiration_time,
    {
        self.raw_txn.expiration_time
    }

    /// How long the raw transaction is in its canonical bytes.
    pub fn raw_txn_bytes_len(&self) -> (r: usize)
        ensures
            r == RawTransaction::encoding(self@.raw_txn).len(),
    {
        proof {
            use_type_invariant(self);
        }
        self.transaction_length
    }
}

impl CanonicalSerialize for SignedTransaction {
    open spec fn encodable(v: SignedTransactionView) -> bool {
        RawTransaction::encodable(v.raw_txn) && Ed25519PublicKey::encodable(v.public_key)
            && Ed25519Signature::encodable(v.signature)
    }

    open spec fn encoding(v: SignedTransactionView) -> Seq<u8> {
        RawTransaction::encoding(v.raw_txn) + (Ed25519PublicKey::encoding(v.public_key)
            + Ed25519Signature::encoding(v.signature))
    }

    open spec fn written_part(v: SignedTransactionView) -> Seq<u8> {
        if !RawTransaction::encodable(v.raw_txn) {
            RawTransaction::written_part(v.raw_txn)
        } else if !Ed25519PublicKey::encodable(v.public_key) {
            RawTransaction::encoding(v.raw_txn)
        } else {
            RawTransaction::encoding(v.raw_txn) + Ed25519PublicKey::encoding(v.public_key)
        }
    }

    fn serialize(&self, out: &mut Vec<u8>) -> (r: Result<(), Error>) {
        let ghost start = out@;
        match self.raw_txn.serialize(out) {
            Ok(_) => {},
            Err(e) => {
                assert(out@ =~= start + Self::written_part(self@));
                return Err(e);
            },
        }
        match self.public_key.serialize(out) {
            Ok(_) => {},
            Err(e) => {
                assert(out@ =~= start + Self::written_part(self@));
                return Err(e);
            },
        }
        let r = self.signature.serialize(out);
        assert(r is Ok ==> out@ =~= start + Self::encoding(self@));
        assert(r is Err ==> out@ =~= start + Self::written_part(self@));
        r
    }
}

impl CanonicalDeserialize for SignedTransaction {
    open spec fn canonical(v: SignedTransactionView) -> SignedTransactionView {
        v.whole_seconds()
    }

    open spec fn decoding(s: Seq<u8>) -> Decoded<SignedTransactionView> {
        match RawTransaction::decoding(s) {
            Err(e) => Err(e),
            Ok((raw_txn, s1)) => match Ed25519PublicKey::decoding(s1) {
                Err(e) => Err(e),
                Ok((public_key, s2)) => match Ed25519Signature::decoding(s2) {
                    Err(e) => Err(e),
                    Ok((signature, rest)) => Ok(
                        (SignedTransactionView { raw_txn, public_key, signature }, rest),
                    ),
                },
            },
        }
    }

    open spec fn unread(s: Seq<u8>) -> Seq<u8> {
        match RawTransaction::decoding(s) {
            Err(_) => RawTransaction::unread(s),
            Ok((_, s1)) => match Ed25519PublicKey::decoding(s1) {
                Err(_) => Ed25519PublicKey::unread(s1),
                Ok((_, s2)) => Ed25519Signature::unread(s2),
            },
        }
    }

    fn deserialize(input: &mut SimpleDeserializer) -> (r: Result<Self, Error>) {
        let ghost start = input.remaining();
        let raw_txn = match RawTransaction::deserialize(input) {
            Ok(raw_txn) => raw_txn,
            Err(e) => return Err(e),
        };
        let public_key = match Ed25519PublicKey::deserialize(input) {
            Ok(public_key) => public_key,
            Err(e) => return Err(e),
        };
        let signature = match Ed25519Signature::deserialize(input) {
            Ok(signature) => signature,
            Err(e) => return Err(e),
        };
        proof {
            RawTransaction::lemma_encode_decode(start);
        }
        Ok(SignedTransaction::new(raw_txn, public_key, signature))
    }

    proof fn lemma_decode_encode(v: SignedTransactionView, rest: Seq<u8>) {
        let s2 = Ed25519Signature::encoding(v.signature) + rest;
        let s1 = Ed25519PublicKey::encoding(v.public_key) + s2;
        assert(Self::encoding(v) + rest =~= RawTransaction::encoding(v.raw_txn) + s1);
        RawTransaction::lemma_decode_encode(v.raw_txn, s1);
        Ed25519PublicKey::lemma_decode_encode(v.public_key, s2);
        Ed25519Signature::lemma_decode_encode(v.signature, rest);
    }

    proof fn lemma_encode_decode(s: Seq<u8>) {
        if let Ok((v, rest)) = Self::decoding(s) {
            RawTransaction::lemma_encode_decode(s);
            let s1 = RawTransaction::decoding(s)->Ok_0.1;
            Ed25519PublicKey::lemma_encode_decode(s1);
            let s2 = Ed25519PublicKey::decoding(s1)->Ok_0.1;
            Ed25519Signature::lemma_encode_decode(s2);
            assert(Self::encoding(v) + rest =~= RawTransaction::encoding(v.raw_txn) + (
            Ed25519PublicKey::encoding(v.public_key) + (Ed25519Signature::encoding(v.signature)
                + rest)));
        }
    }
}

impl SignedTransaction {
    /// The hash of the transaction. `hasher` is the hash function for signed transactions.
    pub fn hash<H: Fn(&[u8]) -> HashValue>(&self, hasher: &H) -> (r: HashValue)
        requires
            hashes(*hasher, SignedTransaction::encoding(self@)),
        ensures
            hashed(*hasher, SignedTransaction::encoding(self@), r),
    {
        proof {
            use_type_invariant(self);
            self.public_key.lemma_length();
            self.signature.lemma_length();
        }
        hash_canonical_bytes(self, hasher)
    }
}

impl FromProto for SignedTransaction {
    type ProtoType = SignedTransactionProto;

    open spec fn read(object: Seq<u8>) -> Result<SignedTransactionView, Error> {
        match SignedTransaction::decoding(object) {
            Ok((v, _)) => Ok(v),
            Err(e) => Err(e),
        }
    }

    fn from_proto(object: SignedTransactionProto) -> (r: Result<Self, Error>) {
        let ghost message = object@;
        from_canonical_bytes(object.signed_txn.as_slice())
    }
}

impl IntoProto for SignedTransaction {
    type ProtoType = SignedTransactionProto;

    open spec fn written(v: SignedTransactionView) -> Seq<u8> {
        SignedTransaction::encoding(v)
    }

    /// Reading the message gives back the transaction, to the second.
    fn into_proto(self) -> (r: SignedTransactionProto)
        ensures
            SignedTransaction::encodable(self@),
            SignedTransaction::read(r@) == Ok::<SignedTransactionView, Error>(
                self@.whole_seconds(),
            ),
    {
        proof {
            use_type_invariant(&self);
            self.public_key.lemma_length();
            self.signature.lemma_length();
            signed_transaction_message_round_trip(self@);
        }
        let mut signed_txn: Vec<u8> = Vec::new();
        let _written = self.serialize(&mut signed_txn);
        assert(signed_txn@ =~= SignedTransaction::encoding(self@));
        let object = SignedTransactionProto { signed_txn };
        let ghost message = object@;
        object
    }
}

// ---------------------------------------------------------------------------------------------
// Signing and checking signatures
// ---------------------------------------------------------------------------------------------

/// A transaction for which the signature has been verified. Created by
/// [`SignedTransaction::check_signature`] and [`RawTransaction::sign`].
#[derive(Debug, PartialEq, Eq, Hash)]
pub struct SignatureCheckedTransaction(SignedTransaction);

impl View for SignatureCheckedTransaction {
    type V = SignedTransactionView;

    closed spec fn view(&self) -> SignedTransactionView {
        self.0@
    }
}

impl Clone for SignatureCheckedTransaction {
    fn clone(&self) -> (r: SignatureCheckedTransaction)
        ensures
            r@ == self@,
    {
        SignatureCheckedTransaction(self.0.clone())
    }
}

impl SignatureCheckedTransaction {
    /// Returns the `SignedTransaction` within.
    pub fn into_inner(self) -> (r: SignedTransaction)
        ensures
            r@ == self@,
    {
        self.0
    }

    /// Returns the `RawTransaction` within.
    pub fn into_raw_transaction(self) -> (r: RawTransaction)
        ensures
            r@ == self@.raw_txn,
    {
        self.0.into_raw_transaction()
    }
}

impl core::ops::Deref for SignatureCheckedTransaction {
    type Target = SignedTransaction;

    fn deref(&self) -> (r: &SignedTransaction)
        ensures
            r@ == self@,
    {
        &self.0
    }
}

impl IntoProto for SignatureCheckedTransaction {
    type ProtoType = SignedTransactionProto;

    open spec fn written(v: SignedTransactionView) -> Seq<u8> {
        SignedTransaction::encoding(v)
    }

    /// Reading the message gives back the transaction, to the second.
    fn into_proto(self) -> (r: SignedTransactionProto)
        ensures
            SignedTransaction::read(r@) == Ok::<SignedTransactionView, Error>(
                self@.whole_seconds(),
            ),
    {
        let object = self.0.into_proto();
        let ghost message = object@;
        object
    }
}

/// `signature` is what `sign_message` makes of the private key and the hash of the transaction.
pub open spec fn is_signature<K, H, S>(
    private_key: &K,
    hasher: H,
    sign_message: S,
    raw_txn: RawTransactionView,
    signature: Seq<u8>,
) -> bool where
    H: Fn(&[u8]) -> HashValue,
    S: Fn(&K, &HashValue) -> Ed25519Signature,
 {
    exists|hash: HashValue, s: Ed25519Signature|
        hashed(hasher, RawTransaction::encoding(raw_txn), hash) && #[trigger] call_ensures(
            sign_message,
            (private_key, &hash),
            s,
        ) && signature == s@
}

/// `verdict` is what `verify_signature` says of the public key, the hash of the transaction and
/// the signature.
pub open spec fn is_verdict<H, V>(
    hasher: H,
    verify_signature: V,
    signed: SignedTransactionView,
    verdict: Result<(), Error>,
) -> bool where
    H: Fn(&[u8]) -> HashValue,
    V: Fn(&Ed25519PublicKey, &HashValue, &Ed25519Signature) -> Result<(), Error>,
 {
    exists|key: &Ed25519PublicKey, hash: HashValue, signature: &Ed25519Signature|
        key@ == signed.public_key && signature@ == signed.signature && hashed(
            hasher,
            RawTransaction::encoding(signed.raw_txn),
            hash,
        ) && #[trigger] call_ensures(verify_signature, (key, &hash, signature), verdict)
}

/// `verify_signature` accepts the signature of the transaction.
pub open spec fn is_accepted<H, V>(
    hasher: H,
    verify_signature: V,
    signed: SignedTransactionView,
) -> bool where
    H: Fn(&[u8]) -> HashValue,
    V: Fn(&Ed25519PublicKey, &HashValue, &Ed25519Signature) -> Result<(), Error>,
 {
    exists|verdict: Result<(), Error>| #[trigger]
        is_verdict(hasher, verify_signature, signed, verdict) && verdict is Ok
}

/// `r` is what checking the signature of a transaction gives: the transaction where
/// `verify_signature` accepts the signature, and what it says where it does not.
pub open spec fn is_checking<H, V>(
    hasher: H,
    verify_signature: V,
    signed: SignedTransactionView,
    r: Result<SignatureCheckedTransaction, Error>,
) -> bool where
    H: Fn(&[u8]) -> HashValue,
    V: Fn(&Ed25519PublicKey, &HashValue, &Ed25519Signature) -> Result<(), Error>,
 {
    exists|verdict: Result<(), Error>| #[trigger]
        is_verdict(hasher, verify_signature, signed, verdict) && match verdict {
            Ok(_) => r is Ok && r->Ok_0@ == signed,
            Err(e) => r == Err::<SignatureCheckedTransaction, Error>(e),
        }
}

/// `r` is what signing a transaction gives: a signature is made with the private key, put with the
/// transaction and the public key, and checked.
pub open spec fn is_signing<K, H, S, V>(
    private_key: &K,
    hasher: H,
    sign_message: S,
    verify_signature: V,
    raw_txn: RawTransactionView,
    public_key: Seq<u8>,
    r: Result<SignatureCheckedTransaction, Error>,
) -> bool where
    H: Fn(&[u8]) -> HashValue,
    S: Fn(&K, &HashValue) -> Ed25519Signature,
    V: Fn(&Ed25519PublicKey, &HashValue, &Ed25519Signature) -> Result<(), Error>,
 {
    exists|signed: SignedTransactionView| #[trigger]
        is_checking(hasher, verify_signature, signed, r) && signed.raw_txn == raw_txn
            && signed.public_key == public_key && is_signature(
            private_key,
            hasher,
            sign_message,
            raw_txn,
            signed.signature,
        )
}

/// The public key is that of the private key: `verify_signature` accepts under it every signature
/// that `sign_message` makes of a hash with the private key.
pub open spec fn is_key_pair<K, S, V>(
    private_key: &K,
    public_key: Seq<u8>,
    sign_message: S,
    verify_signature: V,
) -> bool where
    S: Fn(&K, &HashValue) -> Ed25519Signature,
    V: Fn(&Ed25519PublicKey, &HashValue, &Ed25519Signature) -> Result<(), Error>,
 {
    forall|
        hash: HashValue,
        made: Ed25519Signature,
        key: &Ed25519PublicKey,
        given: &Ed25519Signature,
        answer: Result<(), Error>,
    |
        #![trigger call_ensures(sign_message, (private_key, &hash), made), call_ensures(verify_signature, (key, &hash, given), answer)]
        call_ensures(sign_message, (private_key, &hash), made) && key@ == public_key && given@
            == made@ && call_ensures(verify_signature, (key, &hash, given), answer) ==> answer is Ok
}

impl RawTransaction {
    /// Signs the given `RawTransaction`. Note that this consumes the `RawTransaction` and turns it
    /// into a `SignatureCheckedTransaction`.
    ///
    /// `hasher` is the hash function for raw transactions. `sign_message` signs a hash with the
    /// private key, and `verify_signature` tells whether a signature is one of a hash under a
    /// public key. For a transaction that has just been signed, its signature is expected to be
    /// valid; where it is not, because the keys do not belong together, there is no
    /// `SignatureCheckedTransaction`, and what `verify_signature` says is returned.
    pub fn sign<K, H, S, V>(
        self,
        private_key: &K,
        public_key: Ed25519PublicKey,
        hasher: &H,
        sign_message: &S,
        verify_signature: &V,
    ) -> (r: Result<SignatureCheckedTransaction, Error>) where
        H: Fn(&[u8]) -> HashValue,
        S: Fn(&K, &HashValue) -> Ed25519Signature,
        V: Fn(&Ed25519PublicKey, &HashValue, &Ed25519Signature) -> Result<(), Error>,

        requires
            RawTransaction::encodable(self@),
            hashes(*hasher, RawTransaction::encoding(self@)),
            forall|hash: &HashValue| #[trigger] call_requires(*sign_message, (private_key, hash)),
            forall|key: &Ed25519PublicKey, hash: &HashValue, signature: &Ed25519Signature|
                #[trigger] call_requires(*verify_signature, (key, hash, signature)),
        ensures
            is_signing(
                private_key,
                *hasher,
                *sign_message,
                *verify_signature,
                self@,
                public_key@,
                r,
            ),
            r is Ok ==> {
                &&& r->Ok_0@.raw_txn == self@
                &&& r->Ok_0@.public_key == public_key@
                &&& is_signature(private_key, *hasher, *sign_message, self@, r->Ok_0@.signature)
                &&& is_accepted(*hasher, *verify_signature, r->Ok_0@)
            },
    {
        let hash = self.hash(hasher);
        let signature = sign_message(private_key, &hash);
        let signed = SignedTransaction::new(self, public_key, signature);
        assert(is_signature(private_key, *hasher, *sign_message, self@, signed@.signature));
        signed.check_signature(hasher, verify_signature)
    }
}

impl SignedTransaction {
    /// Checks that the signature of given transaction. Returns `Ok(SignatureCheckedTransaction)`
    /// if the signature is valid.
    ///
    /// `hasher` is the hash function for raw transactions. `verify_signature` tells whether the
    /// signature is one of the hash under the public key.
    pub fn check_signature<H, V>(self, hasher: &H, verify_signature: &V) -> (r: Result<
        SignatureCheckedTransaction,
        Error,
    >) where
        H: Fn(&[u8]) -> HashValue,
        V: Fn(&Ed25519PublicKey, &HashValue, &Ed25519Signature) -> Result<(), Error>,

        requires
            hashes(*hasher, RawTransaction::encoding(self@.raw_txn)),
            forall|key: &Ed25519PublicKey, hash: &HashValue, signature: &Ed25519Signature|
                #[trigger] call_requires(*verify_signature, (key, hash, signature)),
        ensures
            is_checking(*hasher, *verify_signature, self@, r),
            r is Ok ==> r->Ok_0@ == self@ && is_accepted(*hasher, *verify_signature, r->Ok_0@),
    {
        proof {
            use_type_invariant(&self);
        }
        let hash = self.raw_txn.hash(hasher);
        let verdict = verify_signature(&self.public_key, &hash, &self.signature);
        assert(is_verdict(*hasher, *verify_signature, self@, verdict));
        match verdict {
            Ok(_) => Ok(SignatureCheckedTransaction(self)),
            Err(e) => Err(e),
        }
    }
}

// ---------------------------------------------------------------------------------------------
// Signed transactions as text
// ---------------------------------------------------------------------------------------------

/// A signed transaction as it is shown to a client, by the texts of its parts.
pub open spec fn signed_client_text(
    raw_txn: Seq<char>,
    public_key: Seq<char>,
    signature: Seq<char>,
) -> Seq<char> {
    "SignedTransaction { \n raw_txn: "@ + raw_txn + ", \n public_key: "@ + public_key
        + ", \n signature: "@ + signature + ", \n }"@
}

/// A signed transaction as it is shown in a log, by the texts of its parts.
pub open spec fn signed_debug_text(
    raw_txn: Seq<char>,
    public_key: Seq<char>,
    signature: Seq<char>,
) -> Seq<char> {
    "SignedTransaction { \n { raw_txn: "@ + raw_txn + ", \n public_key: "@ + public_key
        + ", \n signature: "@ + signature + ", \n } \n }"@
}

impl SignedTransaction {
    /// A signed transaction as it is shown to a client, by the texts of its parts.
    pub fn client_text(raw_txn: &str, public_key: &str, signature: &str) -> (r: String)
        ensures
            r@ == signed_client_text(raw_txn@, public_key@, signature@),
    {
        let mut out = String::new();
        out.append("SignedTransaction { \n raw_txn: ");
        out.append(raw_txn);
        out.append(", \n public_key: ");
        out.append(public_key);
        out.append(", \n signature: ");
        out.append(signature);
        out.append(", \n }");
        assert(out@ =~= signed_client_text(raw_txn@, public_key@, signature@));
        out
    }

    /// A signed transaction as it is shown in a log, by the texts of its parts.
    pub fn debug_text(raw_txn: &str, public_key: &str, signature: &str) -> (r: String)
        ensures
            r@ == signed_debug_text(raw_txn@, public_key@, signature@),
    {
        let mut out = String::new();
        out.append("SignedTransaction { \n { raw_txn: ");
        out.append(raw_txn);
        out.append(", \n public_key: ");
        out.append(public_key);
        out.append(", \n signature: ");
        out.append(signature);
        out.append(", \n } \n }");
        assert(out@ =~= signed_debug_text(raw_txn@, public_key@, signature@));
        out
    }

    /// The transaction as it is shown to a client. `get_transaction_name` tells what a script or
    /// a program is called.
    pub fn format_for_client<F: Fn(&[u8]) -> String>(&self, get_transaction_name: F) -> (r: String)
        requires
            forall|code: &[u8]|
                self@.raw_txn.payload.named_code() == Some(code@) ==> #[trigger] call_requires(
                    get_transaction_name,
                    (code,),
                ),
        ensures
            exists|name: Seq<char>| #[trigger]
                self@.raw_txn.payload.is_called(get_transaction_name, name) && r@
                    == signed_client_text(
                    self@.raw_txn.client_text(
                        name,
                        duration_text(
                            self@.raw_txn.expiration_time.secs,
                            self@.raw_txn.expiration_time.nanos,
                        ),
                    ),
                    hex(self@.public_key),
                    hex(self@.signature),
                ) && r@ == "SignedTransaction { \n raw_txn: "@ + (
                "RawTransaction { \n\tsender: "@ + hex(self@.raw_txn.sender)
                    + ", \n\tsequence_number: "@ + decimal(self@.raw_txn.sequence_number as nat)
                    + ", \n\tpayload: {, \n\t\ttransaction: "@ + name + ", \n\t\targs: [ "@
                    + args_text(
                    match self@.raw_txn.payload {
                        PayloadView::Program(program) => program.args,
                        PayloadView::Script(script) => script.args,
                        PayloadView::WriteSet(_) => Seq::empty(),
                        PayloadView::Module(_) => Seq::empty(),
                    },
                ) + " \n\t\t]\n\t}, \n\tmax_gas_amount: "@ + decimal(
                    self@.raw_txn.max_gas_amount as nat,
                ) + ", \n\tgas_unit_price: "@ + decimal(self@.raw_txn.gas_unit_price as nat)
                    + ", \n\texpiration_time: "@ + duration_text(
                    self@.raw_txn.expiration_time.secs,
                    self@.raw_txn.expiration_time.nanos,
                ) + ", \n}"@) + ", \n public_key: "@ + hex(self@.public_key)
                    + ", \n signature: "@ + hex(self@.signature) + ", \n }"@,
    {
        let raw_txn = self.raw_txn.format_for_client(get_transaction_name);
        SignedTransaction::client_text(
            raw_txn.as_str(),
            shown_text(&self.public_key).as_str(),
            shown_text(&self.signature).as_str(),
        )
    }
}

// ---------------------------------------------------------------------------------------------
// Transactions in a log
// ---------------------------------------------------------------------------------------------

impl RawTransactionView {
    /// The transaction as it is shown on several lines.
    pub open spec fn pretty_text(self) -> Seq<char> {
        "RawTransaction {\n"@ + field_line("sender"@, hex(self.sender)) + field_line(
            "sequence_number"@,
            decimal(self.sequence_number as nat),
        ) + field_line("payload"@, self.payload.pretty_text()) + field_line(
            "max_gas_amount"@,
            decimal(self.max_gas_amount as nat),
        ) + field_line("gas_unit_price"@, decimal(self.gas_unit_price as nat)) + field_line(
            "expiration_time"@,
            Duration::shown(self.expiration_time),
        ) + "}"@
    }
}

impl RawTransaction {
    /// The transaction as it is shown on several lines.
    pub fn pretty_text(&self) -> (r: String)
        ensures
            r@ == self@.pretty_text(),
    {
        let mut out = String::new();
        out.append("RawTransaction {\n");
        append_field(&mut out, "sender", shown_text(&self.sender).as_str());
        append_field(&mut out, "sequence_number", decimal_text(self.sequence_number).as_str());
        append_field(&mut out, "payload", self.payload.pretty_text().as_str());
        append_field(&mut out, "max_gas_amount", decimal_text(self.max_gas_amount).as_str());
        append_field(&mut out, "gas_unit_price", decimal_text(self.gas_unit_price).as_str());
        append_field(&mut out, "expiration_time", shown_text(&self.expiration_time).as_str());
        out.append("}");
        assert(out@ =~= self@.pretty_text());
        out
    }
}

impl Shown for SignedTransaction {
    open spec fn shown(v: SignedTransactionView) -> Seq<char> {
        signed_debug_text(v.raw_txn.pretty_text(), hex(v.public_key), hex(v.signature))
    }

    fn append_shown(&self, out: &mut String) {
        let text = SignedTransaction::debug_text(
            self.raw_txn.pretty_text().as_str(),
            shown_text(&self.public_key).as_str(),
            shown_text(&self.signature).as_str(),
        );
        out.append(text.as_str());
    }
}

impl core::fmt::Debug for SignedTransaction {
    fn fmt(&self, f: &mut core::fmt::Formatter<'_>) -> (r: core::fmt::Result)
        ensures
            r is Ok ==> text_in(*final(f)) == text_in(*old(f)) + SignedTransaction::shown(self@),
    {
        write_shown(self, f)
    }
}

} // verus!
