//! Fixed-length identifiers: account addresses, hashes, keys and signatures.

use vstd::prelude::*;
use crate::canonical::{encode_bytes, SimpleDeserializer};
use crate::canonical::{
    bytes_decoding, bytes_encoding, bytes_unread, lemma_bytes_decode_encode,
    lemma_bytes_encode_decode, Decoded,
};
use crate::codec::{CanonicalDeserialize, CanonicalSerialize};
use crate::convert::{FromProto, IntoProto};
use crate::error::Error;
use crate::show::{write_shown, Shown};
use crate::show::text_in;
use crate::text::append_hex;
use crate::text::hex;

verus! {

/// How many bytes an account address has.
pub const ADDRESS_LENGTH: usize = 32;

/// How many bytes a hash has.
pub const HASH_LENGTH: usize = 32;

/// How many bytes a public key has.
pub const PUBLIC_KEY_LENGTH: usize = 32;

/// How many bytes a signature has.
pub const SIGNATURE_LENGTH: usize = 64;

/// The bytes of `v` as an array.
pub fn array_of<const N: usize>(v: &[u8]) -> (r: [u8; N])
    requires
        v@.len() == N,
    ensures
        r@ == v@,
{
    let mut r: [u8; N] = [0u8; N];
    let mut i: usize = 0;
    while i < N
        invariant
            i <= N,
            v@.len() == N,
            r@.len() == N,
            forall|j: int| 0 <= j < i ==> r@[j] == v@[j],
        decreases N - i,
    {
        r[i] = v[i];
        i = i + 1;
    }
    assert(r@ =~= v@);
    r
}

/// The bytes of `v` in a vector.
pub fn vec_of(v: &[u8]) -> (r: Vec<u8>)
    ensures
        r@ == v@,
{
    let mut r: Vec<u8> = Vec::new();
    r.extend_from_slice(v);
    assert(r@ =~= v@);
    r
}

/// Whether two byte strings are the same.
pub fn same_bytes(a: &[u8], b: &[u8]) -> (r: bool)
    ensures
        r == (a@ == b@),
{
    if a.len() != b.len() {
        return false;
    }
    let mut i: usize = 0;
    while i < a.len()
        invariant
            i <= a@.len(),
            a@.len() == b@.len(),
            forall|j: int| 0 <= j < i ==> a@[j] == b@[j],
        decreases a@.len() - i,
    {
        if a[i] != b[i] {
            return false;
        }
        i = i + 1;
    }
    assert(a@ =~= b@);
    true
}

// ---------------------------------------------------------------------------------------------
// Account addresses
// ---------------------------------------------------------------------------------------------

/// The address of an account.
#[derive(Clone, Copy, PartialEq, Eq, Hash)]
pub struct AccountAddress {
    bytes: [u8; 32],
}

impl View for AccountAddress {
    type V = Seq<u8>;

    closed spec fn view(&self) -> Seq<u8> {
        self.bytes@
    }
}

impl Shown for AccountAddress {
    open spec fn shown(v: Seq<u8>) -> Seq<char> {
        hex(v)
    }

    fn append_shown(&self, out: &mut String) {
        append_hex(out, self.as_bytes());
    }
}

impl core::fmt::Debug for AccountAddress {
    fn fmt(&self, f: &mut core::fmt::Formatter<'_>) -> (r: core::fmt::Result)
        ensures
            r is Ok ==> text_in(*final(f)) == text_in(*old(f)) + AccountAddress::shown(self@),
    {
        write_shown(self, f)
    }
}

impl AccountAddress {
    /// There are always as many bytes.
    pub proof fn lemma_length(self)
        ensures
            self@.len() == ADDRESS_LENGTH,
    {
    }

    /// The value with these bytes.
    pub fn new(bytes: [u8; 32]) -> (r: AccountAddress)
        ensures
            r@ == bytes@,
    {
        AccountAddress { bytes }
    }

    /// The value with these bytes; there is none unless there are 32 of them.
    pub fn from_slice(bytes: &[u8]) -> (r: Result<AccountAddress, Error>)
        ensures
            bytes@.len() == ADDRESS_LENGTH ==> r is Ok && r->Ok_0@ == bytes@,
            bytes@.len() != ADDRESS_LENGTH ==> r == Err::<AccountAddress, Error>(Error::InvalidAddressLength),
    {
        if bytes.len() != ADDRESS_LENGTH {
            return Err(Error::InvalidAddressLength);
        }
        Ok(AccountAddress { bytes: array_of(bytes) })
    }

    /// The bytes.
    pub fn as_bytes(&self) -> (r: &[u8])
        ensures
            r@ == self@,
            r@.len() == ADDRESS_LENGTH,
    {
        vstd::array::array_as_slice(&self.bytes)
    }

    /// Whether two addresses are the same.
    pub fn same_as(&self, other: &AccountAddress) -> (r: bool)
        ensures
            r == (self@ == other@),
    {
        same_bytes(self.as_bytes(), other.as_bytes())
    }
}

impl CanonicalSerialize for AccountAddress {
    open spec fn encodable(v: Seq<u8>) -> bool {
        v.len() == ADDRESS_LENGTH
    }

    open spec fn encoding(v: Seq<u8>) -> Seq<u8> {
        bytes_encoding(v)
    }

    open spec fn written_part(v: Seq<u8>) -> Seq<u8> {
        Seq::empty()
    }

    fn serialize(&self, out: &mut Vec<u8>) -> (r: Result<(), Error>) {
        encode_bytes(self.as_bytes(), out)
    }
}

impl CanonicalDeserialize for AccountAddress {
    open spec fn canonical(v: Seq<u8>) -> Seq<u8> {
        v
    }

    open spec fn decoding(s: Seq<u8>) -> Decoded<Seq<u8>> {
        match bytes_decoding(s) {
            Err(e) => Err(e),
            Ok((v, rest)) => if v.len() == ADDRESS_LENGTH {
                Ok((v, rest))
            } else {
                Err(Error::InvalidAddressLength)
            },
        }
    }

    open spec fn unread(s: Seq<u8>) -> Seq<u8> {
        match bytes_decoding(s) {
            Err(_) => bytes_unread(s),
            Ok((_, rest)) => rest,
        }
    }

    fn deserialize(input: &mut SimpleDeserializer) -> (r: Result<Self, Error>) {
        match input.decode_bytes() {
            Ok(bytes) => AccountAddress::from_slice(bytes.as_slice()),
            Err(e) => Err(e),
        }
    }

    proof fn lemma_decode_encode(v: Seq<u8>, rest: Seq<u8>) {
        lemma_bytes_decode_encode(v, rest);
    }

    proof fn lemma_encode_decode(s: Seq<u8>) {
        lemma_bytes_encode_decode(s);
    }
}

impl FromProto for AccountAddress {
    type ProtoType = Vec<u8>;

    open spec fn read(object: Seq<u8>) -> Result<Seq<u8>, Error> {
        if object.len() == ADDRESS_LENGTH {
            Ok(object)
        } else {
            Err(Error::InvalidAddressLength)
        }
    }

    fn from_proto(object: Vec<u8>) -> (r: Result<Self, Error>) {
        AccountAddress::from_slice(object.as_slice())
    }
}

impl IntoProto for AccountAddress {
    type ProtoType = Vec<u8>;

    open spec fn written(v: Seq<u8>) -> Seq<u8> {
        v
    }

    fn into_proto(self) -> (r: Vec<u8>) {
        vec_of(self.as_bytes())
    }
}

// ---------------------------------------------------------------------------------------------
// Hashes
// ---------------------------------------------------------------------------------------------

/// A hash.
#[derive(Clone, Copy, PartialEq, Eq, Hash)]
pub struct HashValue {
    bytes: [u8; 32],
}

impl View for HashValue {
    type V = Seq<u8>;

    closed spec fn view(&self) -> Seq<u8> {
        self.bytes@
    }
}

impl Shown for HashValue {
    open spec fn shown(v: Seq<u8>) -> Seq<char> {
        hex(v)
    }

    fn append_shown(&self, out: &mut String) {
        append_hex(out, self.as_bytes());
    }
}

impl core::fmt::Debug for HashValue {
    fn fmt(&self, f: &mut core::fmt::Formatter<'_>) -> (r: core::fmt::Result)
        ensures
            r is Ok ==> text_in(*final(f)) == text_in(*old(f)) + HashValue::shown(self@),
    {
        write_shown(self, f)
    }
}

impl HashValue {
    /// There are always as many bytes.
    pub proof fn lemma_length(self)
        ensures
            self@.len() == HASH_LENGTH,
    {
    }

    /// The value with these bytes.
    pub fn new(bytes: [u8; 32]) -> (r: HashValue)
        ensures
            r@ == bytes@,
    {
        HashValue { bytes }
    }

    /// The value with these bytes; there is none unless there are 32 of them.
    pub fn from_slice(bytes: &[u8]) -> (r: Result<HashValue, Error>)
        ensures
            bytes@.len() == HASH_LENGTH ==> r is Ok && r->Ok_0@ == bytes@,
            bytes@.len() != HASH_LENGTH ==> r == Err::<HashValue, Error>(Error::InvalidHashLength),
    {
        if bytes.len() != HASH_LENGTH {
            return Err(Error::InvalidHashLength);
        }
        Ok(HashValue { bytes: array_of(bytes) })
    }

    /// The bytes.
    pub fn as_bytes(&self) -> (r: &[u8])
        ensures
            r@ == self@,
            r@.len() == HASH_LENGTH,
    {
        vstd::array::array_as_slice(&self.bytes)
    }
}

impl FromProto for HashValue {
    type ProtoType = Vec<u8>;

    open spec fn read(object: Seq<u8>) -> Result<Seq<u8>, Error> {
        if object.len() == HASH_LENGTH {
            Ok(object)
        } else {
            Err(Error::InvalidHashLength)
        }
    }

    fn from_proto(object: Vec<u8>) -> (r: Result<Self, Error>) {
        HashValue::from_slice(object.as_slice())
    }
}

impl IntoProto for HashValue {
    type ProtoType = Vec<u8>;

    open spec fn written(v: Seq<u8>) -> Seq<u8> {
        v
    }

    fn into_proto(self) -> (r: Vec<u8>) {
        vec_of(self.as_bytes())
    }
}

// ---------------------------------------------------------------------------------------------
// Public keys
// ---------------------------------------------------------------------------------------------

/// A public key, by its bytes. Whether they are a key that a signature can be checked with is for
/// the code that checks signatures to say.
#[derive(Clone, Copy, PartialEq, Eq, Hash)]
pub struct Ed25519PublicKey {
    bytes: [u8; 32],
}

impl View for Ed25519PublicKey {
    type V = Seq<u8>;

    closed spec fn view(&self) -> Seq<u8> {
        self.bytes@
    }
}

impl Shown for Ed25519PublicKey {
    open spec fn shown(v: Seq<u8>) -> Seq<char> {
        hex(v)
    }

    fn append_shown(&self, out: &mut String) {
        append_hex(out, self.as_bytes());
    }
}

impl core::fmt::Debug for Ed25519PublicKey {
    fn fmt(&self, f: &mut core::fmt::Formatter<'_>) -> (r: core::fmt::Result)
        ensures
            r is Ok ==> text_in(*final(f)) == text_in(*old(f)) + Ed25519PublicKey::shown(self@),
    {
        write_shown(self, f)
    }
}

impl Ed25519PublicKey {
    /// There are always as many bytes.
    pub proof fn lemma_length(self)
        ensures
            self@.len() == PUBLIC_KEY_LENGTH,
    {
    }

    /// The value with these bytes.
    pub fn new(bytes: [u8; 32]) -> (r: Ed25519PublicKey)
        ensures
            r@ == bytes@,
    {
        Ed25519PublicKey { bytes }
    }

    /// The value with these bytes; there is none unless there are 32 of them.
    pub fn from_slice(bytes: &[u8]) -> (r: Result<Ed25519PublicKey, Error>)
        ensures
            bytes@.len() == PUBLIC_KEY_LENGTH ==> r is Ok && r->Ok_0@ == bytes@,
            bytes@.len() != PUBLIC_KEY_LENGTH ==> r == Err::<Ed25519PublicKey, Error>(Error::InvalidPublicKeyLength),
    {
        if bytes.len() != PUBLIC_KEY_LENGTH {
            return Err(Error::InvalidPublicKeyLength);
        }
        Ok(Ed25519PublicKey { bytes: array_of(bytes) })
    }

    /// The bytes.
    pub fn as_bytes(&self) -> (r: &[u8])
        ensures
            r@ == self@,
            r@.len() == PUBLIC_KEY_LENGTH,
    {
        vstd::array::array_as_slice(&self.bytes)
    }
}

impl CanonicalSerialize for Ed25519PublicKey {
    open spec fn encodable(v: Seq<u8>) -> bool {
        v.len() == PUBLIC_KEY_LENGTH
    }

    open spec fn encoding(v: Seq<u8>) -> Seq<u8> {
        bytes_encoding(v)
    }

    open spec fn written_part(v: Seq<u8>) -> Seq<u8> {
        Seq::empty()
    }

    fn serialize(&self, out: &mut Vec<u8>) -> (r: Result<(), Error>) {
        encode_bytes(self.as_bytes(), out)
    }
}

impl CanonicalDeserialize for Ed25519PublicKey {
    open spec fn canonical(v: Seq<u8>) -> Seq<u8> {
        v
    }

    open spec fn decoding(s: Seq<u8>) -> Decoded<Seq<u8>> {
        match bytes_decoding(s) {
            Err(e) => Err(e),
            Ok((v, rest)) => if v.len() == PUBLIC_KEY_LENGTH {
                Ok((v, rest))
            } else {
                Err(Error::InvalidPublicKeyLength)
            },
        }
    }

    open spec fn unread(s: Seq<u8>) -> Seq<u8> {
        match bytes_decoding(s) {
            Err(_) => bytes_unread(s),
            Ok((_, rest)) => rest,
        }
    }

    fn deserialize(input: &mut SimpleDeserializer) -> (r: Result<Self, Error>) {
        match input.decode_bytes() {
            Ok(bytes) => Ed25519PublicKey::from_slice(bytes.as_slice()),
            Err(e) => Err(e),
        }
    }

    proof fn lemma_decode_encode(v: Seq<u8>, rest: Seq<u8>) {
        lemma_bytes_decode_encode(v, rest);
    }

    proof fn lemma_encode_decode(s: Seq<u8>) {
        lemma_bytes_encode_decode(s);
    }
}

// ---------------------------------------------------------------------------------------------
// Signatures
// ---------------------------------------------------------------------------------------------

/// A signature, by its bytes.
#[derive(Clone, Copy, PartialEq, Eq, Hash)]
pub struct Ed25519Signature {
    bytes: [u8; 64],
}

impl View for Ed25519Signature {
    type V = Seq<u8>;

    closed spec fn view(&self) -> Seq<u8> {
        self.bytes@
    }
}

impl Shown for Ed25519Signature {
    open spec fn shown(v: Seq<u8>) -> Seq<char> {
        hex(v)
    }

    fn append_shown(&self, out: &mut String) {
        append_hex(out, self.as_bytes());
    }
}

impl core::fmt::Debug for Ed25519Signature {
    fn fmt(&self, f: &mut core::fmt::Formatter<'_>) -> (r: core::fmt::Result)
        ensures
            r is Ok ==> text_in(*final(f)) == text_in(*old(f)) + Ed25519Signature::shown(self@),
    {
        write_shown(self, f)
    }
}

impl Ed25519Signature {
    /// There are always as many bytes.
    pub proof fn lemma_length(self)
        ensures
            self@.len() == SIGNATURE_LENGTH,
    {
    }

    /// The value with these bytes.
    pub fn new(bytes: [u8; 64]) -> (r: Ed25519Signature)
        ensures
            r@ == bytes@,
    {
        Ed25519Signature { bytes }
    }

    /// The value with these bytes; there is none unless there are 64 of them.
    pub fn from_slice(bytes: &[u8]) -> (r: Result<Ed25519Signature, Error>)
        ensures
            bytes@.len() == SIGNATURE_LENGTH ==> r is Ok && r->Ok_0@ == bytes@,
            bytes@.len() != SIGNATURE_LENGTH ==> r == Err::<Ed25519Signature, Error>(Error::InvalidSignatureLength),
    {
        if bytes.len() != SIGNATURE_LENGTH {
            return Err(Error::InvalidSignatureLength);
        }
        Ok(Ed25519Signature { bytes: array_of(bytes) })
    }

    /// The bytes.
    pub fn as_bytes(&self) -> (r: &[u8])
        ensures
            r@ == self@,
            r@.len() == SIGNATURE_LENGTH,
    {
        vstd::array::array_as_slice(&self.bytes)
    }
}

impl CanonicalSerialize for Ed25519Signature {
    open spec fn encodable(v: Seq<u8>) -> bool {
        v.len() == SIGNATURE_LENGTH
    }

    open spec fn encoding(v: Seq<u8>) -> Seq<u8> {
        bytes_encoding(v)
    }

    open spec fn written_part(v: Seq<u8>) -> Seq<u8> {
        Seq::empty()
    }

    fn serialize(&self, out: &mut Vec<u8>) -> (r: Result<(), Error>) {
        encode_bytes(self.as_bytes(), out)
    }
}

impl CanonicalDeserialize for Ed25519Signature {
    open spec fn canonical(v: Seq<u8>) -> Seq<u8> {
        v
    }

    open spec fn decoding(s: Seq<u8>) -> Decoded<Seq<u8>> {
        match bytes_decoding(s) {
            Err(e) => Err(e),
            Ok((v, rest)) => if v.len() == SIGNATURE_LENGTH {
                Ok((v, rest))
            } else {
                Err(Error::InvalidSignatureLength)
            },
        }
    }

    open spec fn unread(s: Seq<u8>) -> Seq<u8> {
        match bytes_decoding(s) {
            Err(_) => bytes_unread(s),
            Ok((_, rest)) => rest,
        }
    }

    fn deserialize(input: &mut SimpleDeserializer) -> (r: Result<Self, Error>) {
        match input.decode_bytes() {
            Ok(bytes) => Ed25519Signature::from_slice(bytes.as_slice()),
            Err(e) => Err(e),
        }
    }

    proof fn lemma_decode_encode(v: Seq<u8>, rest: Seq<u8>) {
        lemma_bytes_decode_encode(v, rest);
    }

    proof fn lemma_encode_decode(s: Seq<u8>) {
        lemma_bytes_encode_decode(s);
    }
}

} // verus!
