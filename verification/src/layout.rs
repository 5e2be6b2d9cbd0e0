//! What the canonical bytes of each kind of value are, part by part.

use vstd::prelude::*;
use vstd::utf8::{decode_utf8, encode_utf8, valid_utf8};
use crate::address::{AccountAddress, Ed25519PublicKey, Ed25519Signature};
use crate::address::{ADDRESS_LENGTH, HASH_LENGTH, PUBLIC_KEY_LENGTH, SIGNATURE_LENGTH};
use crate::argument::TransactionArgument;
use crate::argument::ArgumentView;
use crate::canonical::{
    bytes_decoding, bytes_encoding, bytes_unread, decoded, u32_bytes, u32_decoding,
    u32_value, u64_bytes, u64_decoding, Decoded, MAX_LENGTH,
};
use crate::codec::{CanonicalDeserialize, CanonicalSerialize};
use crate::codec::{
    items_canonical, items_decoding, items_encodable, items_encoding, items_unread,
    items_written_part, list_decoding, list_encodable, list_encoding, list_unread,
    list_written_part, views,
};
use crate::error::Error;
use crate::event::EVENT_KEY_LENGTH;
use crate::info::TransactionInfo;
use crate::info::TransactionInfoView;
use crate::payload::{TransactionPayload, TransactionPayloadType};
use crate::payload::PayloadView;
use crate::program::{Module, Program, Script};
use crate::program::{ProgramView, ScriptView};
use crate::time::{DurationView, NANOS_PER_SEC};
use crate::transaction::{RawTransaction, SignedTransaction, MAX_TRANSACTION_SIZE_IN_BYTES};
use crate::transaction::{RawTransactionView, SignedTransactionView};
use crate::write_set::{Write, WriteOp, WriteSet};
use crate::write_set::WriteView;

verus! {

// ---------------------------------------------------------------------------------------------
// Numbers and byte strings
// ---------------------------------------------------------------------------------------------

/// The number whose base is 256 and whose digits, the least significant one first, `s` is.
pub open spec fn number_of(s: Seq<u8>) -> nat
    decreases s.len(),
{
    if s.len() == 0 {
        0
    } else {
        s[0] as nat + 256 * number_of(s.skip(1))
    }
}

/// The number of four digits.
proof fn lemma_number_of_four(s: Seq<u8>)
    requires
        s.len() == 4,
    ensures
        number_of(s) == s[0] + 256 * s[1] + 65536 * s[2] + 16777216 * s[3],
{
    reveal_with_fuel(number_of, 6);
    assert(s.skip(1).skip(1) =~= s.skip(2));
    assert(s.skip(2).skip(1) =~= s.skip(3));
    assert(s.skip(3).skip(1) =~= Seq::empty());
}

/// The number of two parts, of which the first has four digits.
proof fn lemma_number_of_two(a: Seq<u8>, b: Seq<u8>)
    requires
        a.len() == 4,
    ensures
        number_of(a + b) == number_of(a) + 0x1_0000_0000 * number_of(b),
{
    lemma_number_of_four(a);
    reveal_with_fuel(number_of, 6);
    let s = a + b;
    assert(s.skip(1).skip(1) =~= s.skip(2));
    assert(s.skip(2).skip(1) =~= s.skip(3));
    assert(s.skip(3).skip(1) =~= b);
}

/// A 32-bit number is four bytes, the least significant one first, and is read off its bytes.
/// Fewer bytes are no number.
pub proof fn numbers_of_32_bits(n: u32, s: Seq<u8>)
    ensures
        u32_bytes(n).len() == 4,
        number_of(u32_bytes(n)) == n,
        u32_bytes(n)[0] + 256 * u32_bytes(n)[1] + 65536 * u32_bytes(n)[2] + 16777216 * u32_bytes(
            n,
        )[3] == n,
        s.len() >= 4 ==> number_of(s.take(4)) == s[0] + 256 * s[1] + 65536 * s[2] + 16777216 * s[3],
        s.len() < 4 ==> u32_decoding(s) == Err::<(u32, Seq<u8>), Error>(Error::UnexpectedEnd),
        s.len() >= 4 ==> u32_decoding(s) is Ok && u32_decoding(s)->Ok_0.0 == number_of(s.take(4))
            && u32_decoding(s)->Ok_0.1 == s.skip(4),
{
    reveal(u32_bytes);
    reveal(u32_decoding);
    reveal(u32_value);
    lemma_number_of_four(u32_bytes(n));
    if s.len() >= 4 {
        lemma_number_of_four(s.take(4));
    }
}

/// A 64-bit number is eight bytes, the least significant one first, and is read off its bytes.
/// Fewer bytes are no number.
pub proof fn numbers_of_64_bits(n: u64, s: Seq<u8>)
    ensures
        u64_bytes(n).len() == 8,
        number_of(u64_bytes(n)) == n,
        s.len() >= 8 ==> number_of(s.take(8)) == s[0] + 0x100 * s[1] + 0x1_0000 * s[2] + 0x100_0000
            * s[3] + 0x1_0000_0000 * s[4] + 0x100_0000_0000 * s[5] + 0x1_0000_0000_0000 * s[6]
            + 0x100_0000_0000_0000 * s[7],
        s.len() < 8 ==> u64_decoding(s) == Err::<(u64, Seq<u8>), Error>(Error::UnexpectedEnd),
        s.len() >= 8 ==> u64_decoding(s) is Ok && u64_decoding(s)->Ok_0.0 == number_of(s.take(8))
            && u64_decoding(s)->Ok_0.1 == s.skip(8),
{
    reveal(u64_bytes);
    reveal(u64_decoding);
    let low = (n % 0x1_0000_0000) as u32;
    let high = (n / 0x1_0000_0000) as u32;
    numbers_of_32_bits(low, s);
    numbers_of_32_bits(high, s);
    lemma_number_of_two(u32_bytes(low), u32_bytes(high));
    if s.len() >= 8 {
        reveal(u32_decoding);
        numbers_of_32_bits(0, s);
        numbers_of_32_bits(0, s.skip(4));
        assert(s.take(8) =~= s.take(4) + s.skip(4).take(4));
        lemma_number_of_two(s.take(4), s.skip(4).take(4));
        lemma_number_of_four(s.take(4));
        lemma_number_of_four(s.skip(4).take(4));
    }
}

/// How long what has a fixed length is, and the limits.
pub proof fn lengths_and_limits()
    ensures
        ADDRESS_LENGTH == 32,
        HASH_LENGTH == 32,
        PUBLIC_KEY_LENGTH == 32,
        SIGNATURE_LENGTH == 64,
        EVENT_KEY_LENGTH == 40,
        NANOS_PER_SEC == 1_000_000_000,
        MAX_LENGTH == 0x7fff_ffff,
        MAX_TRANSACTION_SIZE_IN_BYTES == 4096,
{
}

/// A byte string is its length in four bytes and then its bytes. It is read off four bytes and as
/// many bytes as they say, up to `0x7fff_ffff`. Where that fails, at most the length was read.
pub proof fn byte_strings(v: Seq<u8>, s: Seq<u8>)
    ensures
        v.len() <= 0x7fff_ffff ==> {
            &&& bytes_encoding(v).len() == 4 + v.len()
            &&& number_of(bytes_encoding(v).take(4)) == v.len()
            &&& bytes_encoding(v).skip(4) == v
        },
        s.len() < 4 ==> bytes_decoding(s) == Err::<(Seq<u8>, Seq<u8>), Error>(Error::UnexpectedEnd)
            && bytes_unread(s) == s,
        s.len() >= 4 && number_of(s.take(4)) > 0x7fff_ffff ==> bytes_decoding(s) == Err::<
            (Seq<u8>, Seq<u8>),
            Error,
        >(Error::LengthLimit) && bytes_unread(s) == s.skip(4),
        s.len() >= 4 && number_of(s.take(4)) <= 0x7fff_ffff && s.len() < 4 + number_of(s.take(4))
            ==> bytes_decoding(s) == Err::<(Seq<u8>, Seq<u8>), Error>(Error::UnexpectedEnd)
            && bytes_unread(s) == s.skip(4),
        s.len() >= 4 && number_of(s.take(4)) <= 0x7fff_ffff && s.len() >= 4 + number_of(s.take(4))
            ==> bytes_decoding(s) == Ok::<(Seq<u8>, Seq<u8>), Error>(
            (
                s.subrange(4, 4 + number_of(s.take(4)) as int),
                s.skip(4 + number_of(s.take(4)) as int),
            ),
        ),
{
    reveal(bytes_encoding);
    reveal(bytes_decoding);
    reveal(bytes_unread);
    if v.len() <= 0x7fff_ffff {
        numbers_of_32_bits(v.len() as u32, s);
        assert(bytes_encoding(v).take(4) =~= u32_bytes(v.len() as u32));
        assert(bytes_encoding(v).skip(4) =~= v);
    }
    numbers_of_32_bits(0, s);
    if s.len() >= 4 && s.len() >= 4 + number_of(s.take(4)) {
        let n = number_of(s.take(4)) as int;
        assert(s.skip(4).take(n) =~= s.subrange(4, 4 + n));
        assert(s.skip(4).skip(n) =~= s.skip(4 + n));
    }
}

/// The outcome of a read is the value with what follows it, or the error with what is left.
pub proof fn outcomes_of_reads<V>(
    d: Decoded<V>,
    unread: Seq<u8>,
    r: Result<V, Error>,
    remaining: Seq<u8>,
)
    requires
        decoded(d, unread, r, remaining),
    ensures
        d is Ok <==> r is Ok,
        d is Ok ==> d->Ok_0.0 == r->Ok_0 && d->Ok_0.1 == remaining,
        d is Err ==> d->Err_0 == r->Err_0 && remaining == unread,
{
}

/// The views of a list are those of its items, place by place.
pub proof fn views_of_lists<T: View>(s: Seq<T>)
    ensures
        views(s).len() == s.len(),
        forall|i: int| 0 <= i < s.len() ==> #[trigger] views(s)[i] == s[i]@,
{
}

/// Exactly the encodings are read: what is read off some bytes is the one value whose encoding
/// they start with, and what follows it.
pub proof fn exactly_encodings_are_read<T: CanonicalDeserialize>(
    s: Seq<u8>,
    v: T::V,
    rest: Seq<u8>,
)
    ensures
        T::decoding(s) == Ok::<(T::V, Seq<u8>), Error>((v, rest)) <==> T::encodable(v)
            && T::canonical(v) == v && s == T::encoding(v) + rest,
{
    T::lemma_encode_decode(s);
    if T::encodable(v) && T::canonical(v) == v && s == T::encoding(v) + rest {
        T::lemma_decode_encode(v, rest);
    }
}

// ---------------------------------------------------------------------------------------------
// Lists
// ---------------------------------------------------------------------------------------------

/// The encoding of a list is the number of its items and then their encodings, in order.
pub proof fn encodings_of_lists<T: CanonicalSerialize>(s: Seq<T::V>, x: T::V)
    requires
        s.len() < 0x7fff_ffff,
    ensures
        list_encoding::<T>(s).take(4) == u32_bytes(s.len() as u32),
        list_encoding::<T>(s.push(x)).skip(4) == list_encoding::<T>(s).skip(4) + T::encoding(x),
        list_encoding::<T>(Seq::empty()) == u32_bytes(0),
        list_encodable::<T>(s.push(x)) <==> list_encodable::<T>(s) && T::encodable(x),
        list_encodable::<T>(Seq::empty()),
{
    reveal(list_encoding);
    reveal(list_encodable);
    numbers_of_32_bits(s.len() as u32, Seq::empty());
    numbers_of_32_bits((s.len() + 1) as u32, Seq::empty());
    numbers_of_32_bits(0, Seq::empty());
    lemma_items_encoding_behind::<T>(s, x);
    assert(list_encoding::<T>(s).take(4) =~= u32_bytes(s.len() as u32));
    assert(list_encoding::<T>(s).skip(4) =~= items_encoding::<T>(s));
    assert(list_encoding::<T>(s.push(x)).skip(4) =~= items_encoding::<T>(s.push(x)));
    assert(list_encoding::<T>(Seq::empty()) =~= u32_bytes(0));
    if list_encodable::<T>(s.push(x)) {
        assert(T::encodable(s.push(x)[s.len() as int]));
        assert forall|i: int| 0 <= i < s.len() implies T::encodable(#[trigger] s[i]) by {
            assert(T::encodable(s.push(x)[i]));
        }
    }
}

/// One more item is written behind the others.
proof fn lemma_items_encoding_behind<T: CanonicalSerialize>(s: Seq<T::V>, x: T::V)
    ensures
        items_encoding::<T>(s.push(x)) == items_encoding::<T>(s) + T::encoding(x),
    decreases s.len(),
{
    if s.len() == 0 {
        assert(s.push(x).skip(1) =~= Seq::empty());
        assert(items_encoding::<T>(s.push(x).skip(1)) =~= Seq::empty());
        assert(items_encoding::<T>(s.push(x)) =~= items_encoding::<T>(s) + T::encoding(x));
    } else {
        lemma_items_encoding_behind::<T>(s.skip(1), x);
        assert(s.push(x).skip(1) =~= s.skip(1).push(x));
        assert(items_encoding::<T>(s.push(x)) =~= items_encoding::<T>(s) + T::encoding(x));
    }
}

/// A list that is too long for the format is refused before anything is written.
pub proof fn lists_that_are_too_long<T: CanonicalSerialize>(s: Seq<T::V>)
    requires
        s.len() > 0x7fff_ffff,
    ensures
        !list_encodable::<T>(s),
        list_written_part::<T>(s) == Seq::<u8>::empty(),
{
    reveal(list_encodable);
    reveal(list_written_part);
}

/// Of a list with an item that the format cannot hold, the number of items, the items before the
/// first such one and the part of that one are written.
pub proof fn lists_with_a_refused_item<T: CanonicalSerialize>(s: Seq<T::V>, n: int)
    requires
        s.len() <= 0x7fff_ffff,
        0 <= n < s.len(),
        list_encodable::<T>(s.take(n)),
        !T::encodable(s[n]),
    ensures
        !list_encodable::<T>(s),
        list_written_part::<T>(s) == u32_bytes(s.len() as u32) + list_encoding::<T>(
            s.take(n),
        ).skip(4) + T::written_part(s[n]),
{
    reveal(list_encodable);
    reveal(list_encoding);
    reveal(list_written_part);
    numbers_of_32_bits(n as u32, Seq::empty());
    assert(list_encoding::<T>(s.take(n)).skip(4) =~= items_encoding::<T>(s.take(n)));
    assert forall|j: int| 0 <= j < n implies T::encodable(#[trigger] s[j]) by {
        assert(T::encodable(s.take(n)[j]));
    }
    lemma_items_written_behind::<T>(s, n);
    assert(list_written_part::<T>(s) =~= u32_bytes(s.len() as u32) + list_encoding::<T>(
        s.take(n),
    ).skip(4) + T::written_part(s[n]));
}

/// What is written of items is the items up to the first one that the format cannot hold.
proof fn lemma_items_written_behind<T: CanonicalSerialize>(s: Seq<T::V>, n: int)
    requires
        0 <= n < s.len(),
        forall|j: int| 0 <= j < n ==> T::encodable(#[trigger] s[j]),
        !T::encodable(s[n]),
    ensures
        items_written_part::<T>(s) == items_encoding::<T>(s.take(n)) + T::written_part(s[n]),
    decreases n,
{
    if n == 0 {
        assert(s.take(0) =~= Seq::empty());
        assert(items_encoding::<T>(s.take(0)) + T::written_part(s[0]) =~= T::written_part(s[0]));
    } else {
        let others = s.skip(1);
        assert forall|j: int| 0 <= j < n - 1 implies T::encodable(#[trigger] others[j]) by {
            assert(others[j] == s[j + 1]);
        }
        assert(others[n - 1] == s[n]);
        lemma_items_written_behind::<T>(others, n - 1);
        assert(s.take(n).skip(1) =~= others.take(n - 1));
        assert(s.take(n)[0] == s[0]);
        assert(T::encodable(s[0]));
        assert(items_written_part::<T>(s) =~= items_encoding::<T>(s.take(n)) + T::written_part(
            s[n],
        ));
    }
}

/// A list is read item by item: its number of items, which has to be within the limit, and then
/// the items, one behind the other. The first item that cannot be read says why the list cannot,
/// and what is left.
pub proof fn lists_are_read_item_by_item<T: CanonicalDeserialize>(n: nat, s: Seq<u8>)
    ensures
        u32_decoding(s) matches Err(e) ==> list_decoding::<T>(s) == Err::<
            (Seq<T::V>, Seq<u8>),
            Error,
        >(e) && list_unread::<T>(s) == s,
        u32_decoding(s) matches Ok((count, rest)) ==> if count > 0x7fff_ffff {
            list_decoding::<T>(s) == Err::<(Seq<T::V>, Seq<u8>), Error>(Error::LengthLimit)
                && list_unread::<T>(s) == rest
        } else {
            list_decoding::<T>(s) == items_decoding::<T>(count as nat, rest) && list_unread::<T>(s)
                == items_unread::<T>(count as nat, rest)
        },
        items_decoding::<T>(0, s) == Ok::<(Seq<T::V>, Seq<u8>), Error>((Seq::empty(), s)),
        T::decoding(s) matches Err(e) ==> items_decoding::<T>(n + 1, s) == Err::<
            (Seq<T::V>, Seq<u8>),
            Error,
        >(e) && items_unread::<T>(n + 1, s) == T::unread(s),
        T::decoding(s) matches Ok((first, after)) ==> items_unread::<T>(n + 1, s)
            == items_unread::<T>(n, after) && match items_decoding::<T>(n, after) {
            Err(e) => items_decoding::<T>(n + 1, s) == Err::<(Seq<T::V>, Seq<u8>), Error>(e),
            Ok((others, rest)) => items_decoding::<T>(n + 1, s) == Ok::<
                (Seq<T::V>, Seq<u8>),
                Error,
            >((seq![first] + others, rest)),
        },
{
    reveal(list_decoding);
    reveal(list_unread);
}

/// The items of a list come back one by one.
pub proof fn items_come_back_one_by_one<T: CanonicalDeserialize>(s: Seq<T::V>)
    ensures
        items_canonical::<T>(s).len() == s.len(),
        forall|i: int|
            0 <= i < s.len() ==> #[trigger] items_canonical::<T>(s)[i] == T::canonical(s[i]),
        items_encodable::<T>(s) <==> forall|i: int|
            0 <= i < s.len() ==> T::encodable(#[trigger] s[i]),
{
}

// ---------------------------------------------------------------------------------------------
// Parts of transactions
// ---------------------------------------------------------------------------------------------

/// An address is a byte string of 32 bytes; a byte string of another length is none.
pub proof fn addresses_in_bytes(v: Seq<u8>, s: Seq<u8>)
    ensures
        AccountAddress::encodable(v) <==> v.len() == 32,
        AccountAddress::encoding(v) == bytes_encoding(v),
        AccountAddress::canonical(v) == v,
        bytes_decoding(s) matches Err(e) ==> AccountAddress::decoding(s) == Err::<
            (Seq<u8>, Seq<u8>),
            Error,
        >(e) && AccountAddress::unread(s) == bytes_unread(s),
        bytes_decoding(s) matches Ok((bytes, rest)) ==> if bytes.len() == 32 {
            AccountAddress::decoding(s) == Ok::<(Seq<u8>, Seq<u8>), Error>((bytes, rest))
        } else {
            AccountAddress::decoding(s) == Err::<(Seq<u8>, Seq<u8>), Error>(Error::InvalidAddressLength)
                && AccountAddress::unread(s) == rest
        },
{
}

/// A public key is a byte string of 32 bytes; a byte string of another length is none.
pub proof fn public_keys_in_bytes(v: Seq<u8>, s: Seq<u8>)
    ensures
        Ed25519PublicKey::encodable(v) <==> v.len() == 32,
        Ed25519PublicKey::encoding(v) == bytes_encoding(v),
        Ed25519PublicKey::canonical(v) == v,
        bytes_decoding(s) matches Err(e) ==> Ed25519PublicKey::decoding(s) == Err::<
            (Seq<u8>, Seq<u8>),
            Error,
        >(e) && Ed25519PublicKey::unread(s) == bytes_unread(s),
        bytes_decoding(s) matches Ok((bytes, rest)) ==> if bytes.len() == 32 {
            Ed25519PublicKey::decoding(s) == Ok::<(Seq<u8>, Seq<u8>), Error>((bytes, rest))
        } else {
            Ed25519PublicKey::decoding(s) == Err::<(Seq<u8>, Seq<u8>), Error>(Error::InvalidPublicKeyLength)
                && Ed25519PublicKey::unread(s) == rest
        },
{
}

/// A signature is a byte string of 64 bytes; a byte string of another length is none.
pub proof fn signatures_in_bytes(v: Seq<u8>, s: Seq<u8>)
    ensures
        Ed25519Signature::encodable(v) <==> v.len() == 64,
        Ed25519Signature::encoding(v) == bytes_encoding(v),
        Ed25519Signature::canonical(v) == v,
        bytes_decoding(s) matches Err(e) ==> Ed25519Signature::decoding(s) == Err::<
            (Seq<u8>, Seq<u8>),
            Error,
        >(e) && Ed25519Signature::unread(s) == bytes_unread(s),
        bytes_decoding(s) matches Ok((bytes, rest)) ==> if bytes.len() == 64 {
            Ed25519Signature::decoding(s) == Ok::<(Seq<u8>, Seq<u8>), Error>((bytes, rest))
        } else {
            Ed25519Signature::decoding(s) == Err::<(Seq<u8>, Seq<u8>), Error>(Error::InvalidSignatureLength)
                && Ed25519Signature::unread(s) == rest
        },
{
}

/// A byte string in a list, and a module, are byte strings of at most `0x7fff_ffff` bytes. Of one
/// that is longer, nothing is written.
pub proof fn modules_in_bytes(v: Seq<u8>, s: Seq<u8>)
    ensures
        Module::encodable(v) <==> v.len() <= 0x7fff_ffff,
        Module::encoding(v) == bytes_encoding(v),
        Module::canonical(v) == v,
        Module::written_part(v) == Seq::<u8>::empty(),
        Module::decoding(s) == bytes_decoding(s),
        Module::unread(s) == bytes_unread(s),
        Vec::<u8>::encodable(v) <==> v.len() <= 0x7fff_ffff,
        Vec::<u8>::encoding(v) == bytes_encoding(v),
        Vec::<u8>::canonical(v) == v,
        Vec::<u8>::written_part(v) == Seq::<u8>::empty(),
        Vec::<u8>::decoding(s) == bytes_decoding(s),
        Vec::<u8>::unread(s) == bytes_unread(s),
{
}

/// An argument is the number of its kind and then what it holds: a number, an address, a text in
/// UTF-8 or a byte string.
pub proof fn arguments_in_bytes(n: u64, bytes: Seq<u8>, text: Seq<char>)
    ensures
        TransactionArgument::encoding(ArgumentView::U64(n)) == u32_bytes(0) + u64_bytes(n),
        TransactionArgument::encoding(ArgumentView::Address(bytes)) == u32_bytes(1)
            + bytes_encoding(bytes),
        TransactionArgument::encoding(ArgumentView::Text(text)) == u32_bytes(2) + bytes_encoding(
            encode_utf8(text),
        ),
        TransactionArgument::encoding(ArgumentView::ByteArray(bytes)) == u32_bytes(3)
            + bytes_encoding(bytes),
        TransactionArgument::encodable(ArgumentView::U64(n)),
        TransactionArgument::encodable(ArgumentView::Address(bytes)) <==> bytes.len() == 32,
        TransactionArgument::encodable(ArgumentView::Text(text)) <==> encode_utf8(text).len()
            <= 0x7fff_ffff,
        TransactionArgument::encodable(ArgumentView::ByteArray(bytes)) <==> bytes.len()
            <= 0x7fff_ffff,
        TransactionArgument::written_part(ArgumentView::Text(text)) == u32_bytes(2),
        TransactionArgument::written_part(ArgumentView::ByteArray(bytes)) == u32_bytes(3),
{
}

/// An argument is read by the number of its kind, of which there are four. A text has to be UTF-8.
pub proof fn arguments_are_read(s: Seq<u8>, v: ArgumentView)
    ensures
        TransactionArgument::canonical(v) == v,
        u32_decoding(s) matches Err(e) ==> TransactionArgument::decoding(s) == Err::<
            (ArgumentView, Seq<u8>),
            Error,
        >(e) && TransactionArgument::unread(s) == s,
        u32_decoding(s) matches Ok((kind, after)) ==> {
            &&& kind == 0 ==> match u64_decoding(after) {
                Err(e) => TransactionArgument::decoding(s) == Err::<(ArgumentView, Seq<u8>), Error>(
                    e,
                ) && TransactionArgument::unread(s) == after,
                Ok((n, rest)) => TransactionArgument::decoding(s) == Ok::<
                    (ArgumentView, Seq<u8>),
                    Error,
                >((ArgumentView::U64(n), rest)),
            }
            &&& kind == 1 ==> match AccountAddress::decoding(after) {
                Err(e) => TransactionArgument::decoding(s) == Err::<(ArgumentView, Seq<u8>), Error>(
                    e,
                ) && TransactionArgument::unread(s) == AccountAddress::unread(after),
                Ok((a, rest)) => TransactionArgument::decoding(s) == Ok::<
                    (ArgumentView, Seq<u8>),
                    Error,
                >((ArgumentView::Address(a), rest)),
            }
            &&& kind == 2 ==> match bytes_decoding(after) {
                Err(e) => TransactionArgument::decoding(s) == Err::<(ArgumentView, Seq<u8>), Error>(
                    e,
                ) && TransactionArgument::unread(s) == bytes_unread(after),
                Ok((b, rest)) => if valid_utf8(b) {
                    TransactionArgument::decoding(s) == Ok::<(ArgumentView, Seq<u8>), Error>(
                        (ArgumentView::Text(decode_utf8(b)), rest),
                    )
                } else {
                    TransactionArgument::decoding(s) == Err::<(ArgumentView, Seq<u8>), Error>(
                        Error::InvalidUtf8,
                    ) && TransactionArgument::unread(s) == rest
                },
            }
            &&& kind == 3 ==> match bytes_decoding(after) {
                Err(e) => TransactionArgument::decoding(s) == Err::<(ArgumentView, Seq<u8>), Error>(
                    e,
                ) && TransactionArgument::unread(s) == bytes_unread(after),
                Ok((b, rest)) => TransactionArgument::decoding(s) == Ok::<
                    (ArgumentView, Seq<u8>),
                    Error,
                >((ArgumentView::ByteArray(b), rest)),
            }
            &&& kind > 3 ==> TransactionArgument::decoding(s) == Err::<
                (ArgumentView, Seq<u8>),
                Error,
            >(Error::UnknownArgumentType(kind)) && TransactionArgument::unread(s) == after
        },
{
}

/// A script is its code and then its arguments.
pub proof fn scripts_in_bytes(v: ScriptView, s: Seq<u8>)
    ensures
        Script::encoding(v) == bytes_encoding(v.code) + list_encoding::<TransactionArgument>(
            v.args,
        ),
        Script::encodable(v) <==> v.code.len() <= 0x7fff_ffff && list_encodable::<
            TransactionArgument,
        >(v.args),
        Script::canonical(v) == v,
        v.code.len() > 0x7fff_ffff ==> Script::written_part(v) == Seq::<u8>::empty(),
        v.code.len() <= 0x7fff_ffff ==> Script::written_part(v) == bytes_encoding(v.code)
            + list_written_part::<TransactionArgument>(v.args),
        match bytes_decoding(s) {
            Err(e) => Script::decoding(s) == Err::<(ScriptView, Seq<u8>), Error>(e)
                && Script::unread(s) == bytes_unread(s),
            Ok((code, behind_code)) => match list_decoding::<TransactionArgument>(behind_code) {
                Err(e) => Script::decoding(s) == Err::<(ScriptView, Seq<u8>), Error>(e)
                    && Script::unread(s) == list_unread::<TransactionArgument>(behind_code),
                Ok((args, rest)) => Script::decoding(s) == Ok::<(ScriptView, Seq<u8>), Error>(
                    (ScriptView { code, args }, rest),
                ),
            },
        },
{
}

/// A program is its code, then its arguments, then its modules.
pub proof fn programs_in_bytes(v: ProgramView, s: Seq<u8>)
    ensures
        Program::encoding(v) == bytes_encoding(v.code) + list_encoding::<TransactionArgument>(
            v.args,
        ) + list_encoding::<Vec<u8>>(v.modules),
        Program::encodable(v) <==> v.code.len() <= 0x7fff_ffff && list_encodable::<
            TransactionArgument,
        >(v.args) && list_encodable::<Vec<u8>>(v.modules),
        Program::canonical(v) == v,
        v.code.len() > 0x7fff_ffff ==> Program::written_part(v) == Seq::<u8>::empty(),
        v.code.len() <= 0x7fff_ffff && !list_encodable::<TransactionArgument>(v.args)
            ==> Program::written_part(v) == bytes_encoding(v.code) + list_written_part::<
            TransactionArgument,
        >(v.args),
        v.code.len() <= 0x7fff_ffff && list_encodable::<TransactionArgument>(v.args)
            ==> Program::written_part(v) == bytes_encoding(v.code) + list_encoding::<
            TransactionArgument,
        >(v.args) + list_written_part::<Vec<u8>>(v.modules),
        match bytes_decoding(s) {
            Err(e) => Program::decoding(s) == Err::<(ProgramView, Seq<u8>), Error>(e)
                && Program::unread(s) == bytes_unread(s),
            Ok((code, behind_code)) => match list_decoding::<TransactionArgument>(behind_code) {
                Err(e) => Program::decoding(s) == Err::<(ProgramView, Seq<u8>), Error>(e)
                    && Program::unread(s) == list_unread::<TransactionArgument>(behind_code),
                Ok((args, behind_args)) => match list_decoding::<Vec<u8>>(behind_args) {
                    Err(e) => Program::decoding(s) == Err::<(ProgramView, Seq<u8>), Error>(e)
                        && Program::unread(s) == list_unread::<Vec<u8>>(behind_args),
                    Ok((modules, rest)) => Program::decoding(s) == Ok::<
                        (ProgramView, Seq<u8>),
                        Error,
                    >((ProgramView { code, args, modules }, rest)),
                },
            },
        },
{
}

/// A write is the address, the path and then what is written: nought for a deletion, or one and
/// the value. A write set is a list of writes.
pub proof fn writes_in_bytes(v: WriteView, value: Seq<u8>, writes: Seq<WriteView>)
    ensures
        WriteOp::encoding(None) == u32_bytes(0),
        WriteOp::encoding(Some(value)) == u32_bytes(1) + bytes_encoding(value),
        WriteOp::encodable(None),
        WriteOp::encodable(Some(value)) <==> value.len() <= 0x7fff_ffff,
        WriteOp::written_part(Some(value)) == u32_bytes(1),
        WriteOp::canonical(v.op) == v.op,
        Write::encoding(v) == bytes_encoding(v.address) + bytes_encoding(v.path)
            + WriteOp::encoding(v.op),
        Write::encodable(v) <==> v.address.len() == 32 && v.path.len() <= 0x7fff_ffff
            && WriteOp::encodable(v.op),
        Write::canonical(v) == v,
        v.address.len() == 32 && v.path.len() > 0x7fff_ffff ==> Write::written_part(v)
            == bytes_encoding(v.address),
        v.address.len() == 32 && v.path.len() <= 0x7fff_ffff ==> Write::written_part(v)
            == bytes_encoding(v.address) + bytes_encoding(v.path) + WriteOp::written_part(v.op),
        WriteSet::encoding(writes) == list_encoding::<Write>(writes),
        WriteSet::encodable(writes) <==> list_encodable::<Write>(writes),
        WriteSet::canonical(writes) == writes,
        WriteSet::written_part(writes) == list_written_part::<Write>(writes),
{
}

/// Writes are read as they are written, and stop where the first part cannot be read.
pub proof fn writes_are_read(s: Seq<u8>)
    ensures
        match u32_decoding(s) {
            Err(e) => WriteOp::decoding(s) == Err::<(Option<Seq<u8>>, Seq<u8>), Error>(e)
                && WriteOp::unread(s) == s,
            Ok((kind, after)) => {
                &&& kind == 0 ==> WriteOp::decoding(s) == Ok::<(Option<Seq<u8>>, Seq<u8>), Error>(
                    (None, after),
                )
                &&& kind == 1 ==> match bytes_decoding(after) {
                    Err(e) => WriteOp::decoding(s) == Err::<(Option<Seq<u8>>, Seq<u8>), Error>(e)
                        && WriteOp::unread(s) == bytes_unread(after),
                    Ok((value, rest)) => WriteOp::decoding(s) == Ok::<
                        (Option<Seq<u8>>, Seq<u8>),
                        Error,
                    >((Some(value), rest)),
                }
                &&& kind > 1 ==> WriteOp::decoding(s) == Err::<(Option<Seq<u8>>, Seq<u8>), Error>(
                    Error::UnknownWriteOpType(kind),
                ) && WriteOp::unread(s) == after
            },
        },
        match AccountAddress::decoding(s) {
            Err(e) => Write::decoding(s) == Err::<(WriteView, Seq<u8>), Error>(e) && Write::unread(
                s,
            ) == AccountAddress::unread(s),
            Ok((address, behind_address)) => match bytes_decoding(behind_address) {
                Err(e) => Write::decoding(s) == Err::<(WriteView, Seq<u8>), Error>(e)
                    && Write::unread(s) == bytes_unread(behind_address),
                Ok((path, behind_path)) => match WriteOp::decoding(behind_path) {
                    Err(e) => Write::decoding(s) == Err::<(WriteView, Seq<u8>), Error>(e)
                        && Write::unread(s) == WriteOp::unread(behind_path),
                    Ok((op, rest)) => Write::decoding(s) == Ok::<(WriteView, Seq<u8>), Error>(
                        (WriteView { address, path, op }, rest),
                    ),
                },
            },
        },
        WriteSet::decoding(s) == list_decoding::<Write>(s),
        WriteSet::unread(s) == list_unread::<Write>(s),
{
}

/// A payload is the number of its kind and then what it holds: nought and a program, one and a
/// write set, two and a script, or three and a module.
pub proof fn payloads_in_bytes(
    program: ProgramView,
    write_set: Seq<WriteView>,
    script: ScriptView,
    module: Seq<u8>,
)
    ensures
        TransactionPayload::encoding(PayloadView::Program(program)) == u32_bytes(0)
            + Program::encoding(program),
        TransactionPayload::encoding(PayloadView::WriteSet(write_set)) == u32_bytes(1)
            + WriteSet::encoding(write_set),
        TransactionPayload::encoding(PayloadView::Script(script)) == u32_bytes(2)
            + Script::encoding(script),
        TransactionPayload::encoding(PayloadView::Module(module)) == u32_bytes(3)
            + Module::encoding(module),
        TransactionPayload::written_part(PayloadView::Program(program)) == u32_bytes(0)
            + Program::written_part(program),
        TransactionPayload::written_part(PayloadView::WriteSet(write_set)) == u32_bytes(1)
            + WriteSet::written_part(write_set),
        TransactionPayload::written_part(PayloadView::Script(script)) == u32_bytes(2)
            + Script::written_part(script),
        TransactionPayload::written_part(PayloadView::Module(module)) == u32_bytes(3)
            + Module::written_part(module),
        TransactionPayload::encodable(PayloadView::Program(program)) <==> Program::encodable(
            program,
        ),
        TransactionPayload::encodable(PayloadView::WriteSet(write_set)) <==> WriteSet::encodable(
            write_set,
        ),
        TransactionPayload::encodable(PayloadView::Script(script)) <==> Script::encodable(script),
        TransactionPayload::encodable(PayloadView::Module(module)) <==> Module::encodable(module),
        TransactionPayloadType::Program.number() == 0,
        TransactionPayloadType::WriteSet.number() == 1,
        TransactionPayloadType::Script.number() == 2,
        TransactionPayloadType::Module.number() == 3,
{
}

/// A payload is read by the number of its kind; there is none behind another number, and nothing
/// behind that number is read.
pub proof fn payloads_are_read(s: Seq<u8>, v: PayloadView)
    ensures
        TransactionPayload::canonical(v) == v,
        u32_decoding(s) matches Err(e) ==> TransactionPayload::decoding(s) == Err::<
            (PayloadView, Seq<u8>),
            Error,
        >(e) && TransactionPayload::unread(s) == s,
        u32_decoding(s) matches Ok((kind, after)) ==> {
            &&& kind == 0 ==> match Program::decoding(after) {
                Err(e) => TransactionPayload::decoding(s) == Err::<(PayloadView, Seq<u8>), Error>(e)
                    && TransactionPayload::unread(s) == Program::unread(after),
                Ok((program, rest)) => TransactionPayload::decoding(s) == Ok::<
                    (PayloadView, Seq<u8>),
                    Error,
                >((PayloadView::Program(program), rest)),
            }
            &&& kind == 1 ==> match WriteSet::decoding(after) {
                Err(e) => TransactionPayload::decoding(s) == Err::<(PayloadView, Seq<u8>), Error>(e)
                    && TransactionPayload::unread(s) == WriteSet::unread(after),
                Ok((write_set, rest)) => TransactionPayload::decoding(s) == Ok::<
                    (PayloadView, Seq<u8>),
                    Error,
                >((PayloadView::WriteSet(write_set), rest)),
            }
            &&& kind == 2 ==> match Script::decoding(after) {
                Err(e) => TransactionPayload::decoding(s) == Err::<(PayloadView, Seq<u8>), Error>(e)
                    && TransactionPayload::unread(s) == Script::unread(after),
                Ok((script, rest)) => TransactionPayload::decoding(s) == Ok::<
                    (PayloadView, Seq<u8>),
                    Error,
                >((PayloadView::Script(script), rest)),
            }
            &&& kind == 3 ==> match Module::decoding(after) {
                Err(e) => TransactionPayload::decoding(s) == Err::<(PayloadView, Seq<u8>), Error>(e)
                    && TransactionPayload::unread(s) == Module::unread(after),
                Ok((module, rest)) => TransactionPayload::decoding(s) == Ok::<
                    (PayloadView, Seq<u8>),
                    Error,
                >((PayloadView::Module(module), rest)),
            }
            &&& kind > 3 ==> TransactionPayload::decoding(s) == Err::<
                (PayloadView, Seq<u8>),
                Error,
            >(Error::UnknownPayloadType(kind)) && TransactionPayload::unread(s) == after
        },
{
}

// ---------------------------------------------------------------------------------------------
// Transactions
// ---------------------------------------------------------------------------------------------

/// A raw transaction, whatever it does, is the sender, the sequence number, the payload, the gas
/// that it may use, the price per gas and the whole seconds of its expiration time, in this order.
/// So its last 24 bytes are three numbers of 64 bits, and its first 44 are the sender and the
/// sequence number.
pub proof fn raw_transactions_in_bytes(v: RawTransactionView)
    requires
        v.sender.len() == 32,
    ensures
        RawTransaction::encoding(v) == bytes_encoding(v.sender) + u64_bytes(v.sequence_number)
            + TransactionPayload::encoding(v.payload) + u64_bytes(v.max_gas_amount) + u64_bytes(
            v.gas_unit_price,
        ) + u64_bytes(v.expiration_time.secs),
        RawTransaction::encoding(v).len() == 68 + TransactionPayload::encoding(v.payload).len(),
        RawTransaction::encoding(v).take(36) == bytes_encoding(v.sender),
        RawTransaction::encoding(v).subrange(36, 44) == u64_bytes(v.sequence_number),
        RawTransaction::encoding(v).subrange(44, RawTransaction::encoding(v).len() - 24)
            == TransactionPayload::encoding(v.payload),
        RawTransaction::encoding(v).skip(RawTransaction::encoding(v).len() - 24) == u64_bytes(
            v.max_gas_amount,
        ) + u64_bytes(v.gas_unit_price) + u64_bytes(v.expiration_time.secs),
        RawTransaction::encodable(v) <==> TransactionPayload::encodable(v.payload),
        RawTransaction::written_part(v) == bytes_encoding(v.sender) + u64_bytes(v.sequence_number)
            + TransactionPayload::written_part(v.payload),
{
    let sender = bytes_encoding(v.sender);
    let number = u64_bytes(v.sequence_number);
    let payload = TransactionPayload::encoding(v.payload);
    let gas = u64_bytes(v.max_gas_amount);
    let price = u64_bytes(v.gas_unit_price);
    let secs = u64_bytes(v.expiration_time.secs);
    byte_strings(v.sender, Seq::empty());
    numbers_of_64_bits(v.sequence_number, Seq::empty());
    numbers_of_64_bits(v.max_gas_amount, Seq::empty());
    numbers_of_64_bits(v.gas_unit_price, Seq::empty());
    numbers_of_64_bits(v.expiration_time.secs, Seq::empty());
    let bytes = RawTransaction::encoding(v);
    assert(bytes =~= sender + number + payload + gas + price + secs);
    assert(bytes.take(36) =~= sender);
    assert(bytes.subrange(36, 44) =~= number);
    assert(bytes.subrange(44, bytes.len() - 24) =~= payload);
    assert(bytes.skip(bytes.len() - 24) =~= gas + price + secs);
    assert(RawTransaction::written_part(v) =~= sender + number + TransactionPayload::written_part(
        v.payload,
    ));
}

/// A raw transaction is read part by part, in the order in which it is written; the first part
/// that cannot be read says why the transaction cannot, and what is left.
pub proof fn raw_transactions_are_read(s: Seq<u8>)
    ensures
        match AccountAddress::decoding(s) {
            Err(e) => RawTransaction::decoding(s) == Err::<(RawTransactionView, Seq<u8>), Error>(e)
                && RawTransaction::unread(s) == AccountAddress::unread(s),
            Ok((sender, behind_sender)) => match u64_decoding(behind_sender) {
                Err(e) => RawTransaction::decoding(s) == Err::<(RawTransactionView, Seq<u8>), Error>(
                    e,
                ) && RawTransaction::unread(s) == behind_sender,
                Ok((sequence_number, behind_number)) => match TransactionPayload::decoding(
                    behind_number,
                ) {
                    Err(e) => RawTransaction::decoding(s) == Err::<
                        (RawTransactionView, Seq<u8>),
                        Error,
                    >(e) && RawTransaction::unread(s) == TransactionPayload::unread(behind_number),
                    Ok((payload, behind_payload)) => if behind_payload.len() < 24 {
                        RawTransaction::decoding(s) == Err::<(RawTransactionView, Seq<u8>), Error>(
                            Error::UnexpectedEnd,
                        ) && RawTransaction::unread(s) == behind_payload.skip(
                            8 * (behind_payload.len() / 8) as int,
                        )
                    } else {
                        RawTransaction::decoding(s) == Ok::<(RawTransactionView, Seq<u8>), Error>(
                            (
                                RawTransactionView {
                                    sender,
                                    sequence_number,
                                    payload,
                                    max_gas_amount: number_of(behind_payload.take(8)) as u64,
                                    gas_unit_price: number_of(
                                        behind_payload.subrange(8, 16),
                                    ) as u64,
                                    expiration_time: DurationView {
                                        secs: number_of(behind_payload.subrange(16, 24)) as u64,
                                        nanos: 0,
                                    },
                                },
                                behind_payload.skip(24),
                            ),
                        )
                    },
                },
            },
        },
{
    if let Ok((_, s1)) = AccountAddress::decoding(s) {
        if let Ok((_, s2)) = u64_decoding(s1) {
            if let Ok((_, s3)) = TransactionPayload::decoding(s2) {
                numbers_of_64_bits(0, s3);
                if s3.len() >= 8 {
                    numbers_of_64_bits(0, s3.skip(8));
                    assert(s3.skip(8).take(8) =~= s3.subrange(8, 16) || s3.len() < 16);
                    if s3.len() >= 16 {
                        assert(s3.skip(8).skip(8) =~= s3.skip(16));
                        numbers_of_64_bits(0, s3.skip(16));
                        if s3.len() >= 24 {
                            assert(s3.skip(16).take(8) =~= s3.subrange(16, 24));
                            assert(s3.skip(16).skip(8) =~= s3.skip(24));
                        }
                    }
                } else {
                    assert(s3.skip(0) =~= s3);
                }
            }
        }
    }
}

/// A signed transaction is the raw transaction, the public key and the signature, in this order,
/// and is read in this order. So it is 104 bytes longer than the raw transaction.
pub proof fn signed_transactions_in_bytes(v: SignedTransactionView, s: Seq<u8>)
    ensures
        SignedTransaction::encoding(v) == RawTransaction::encoding(v.raw_txn) + bytes_encoding(
            v.public_key,
        ) + bytes_encoding(v.signature),
        SignedTransaction::encodable(v) <==> RawTransaction::encodable(v.raw_txn)
            && v.public_key.len() == 32 && v.signature.len() == 64,
        SignedTransaction::encodable(v) ==> SignedTransaction::encoding(v).len()
            == RawTransaction::encoding(v.raw_txn).len() + 104,
        !RawTransaction::encodable(v.raw_txn) ==> SignedTransaction::written_part(v)
            == RawTransaction::written_part(v.raw_txn),
        match RawTransaction::decoding(s) {
            Err(e) => SignedTransaction::decoding(s) == Err::<
                (SignedTransactionView, Seq<u8>),
                Error,
            >(e) && SignedTransaction::unread(s) == RawTransaction::unread(s),
            Ok((raw_txn, behind_raw)) => match Ed25519PublicKey::decoding(behind_raw) {
                Err(e) => SignedTransaction::decoding(s) == Err::<
                    (SignedTransactionView, Seq<u8>),
                    Error,
                >(e) && SignedTransaction::unread(s) == Ed25519PublicKey::unread(behind_raw),
                Ok((public_key, behind_key)) => match Ed25519Signature::decoding(behind_key) {
                    Err(e) => SignedTransaction::decoding(s) == Err::<
                        (SignedTransactionView, Seq<u8>),
                        Error,
                    >(e) && SignedTransaction::unread(s) == Ed25519Signature::unread(behind_key),
                    Ok((signature, rest)) => SignedTransaction::decoding(s) == Ok::<
                        (SignedTransactionView, Seq<u8>),
                        Error,
                    >((SignedTransactionView { raw_txn, public_key, signature }, rest)),
                },
            },
        },
{
    byte_strings(v.public_key, s);
    byte_strings(v.signature, s);
    assert(SignedTransaction::encoding(v) =~= RawTransaction::encoding(v.raw_txn) + bytes_encoding(
        v.public_key,
    ) + bytes_encoding(v.signature));
}

/// What comes back of a transaction from its bytes is the transaction with the fraction of a
/// second taken off its expiration time, and nothing else changed.
pub proof fn transactions_come_back_to_the_second(v: RawTransactionView, w: SignedTransactionView)
    ensures
        RawTransaction::canonical(v) == (RawTransactionView {
            expiration_time: DurationView { secs: v.expiration_time.secs, nanos: 0 },
            ..v
        }),
        SignedTransaction::canonical(w) == (SignedTransactionView {
            raw_txn: RawTransaction::canonical(w.raw_txn),
            ..w
        }),
        v.whole_seconds() == RawTransaction::canonical(v),
        w.whole_seconds() == SignedTransaction::canonical(w),
        v.expiration_time.whole_seconds() == (DurationView {
            secs: v.expiration_time.secs,
            nanos: 0,
        }),
{
}

/// A transaction info is the hash of the transaction, the state root, the event root, the gas used
/// and the status, in this order: three byte strings of 32 bytes and two numbers of 64 bits.
pub proof fn transaction_infos_in_bytes(v: TransactionInfoView)
    ensures
        TransactionInfo::encodable(v) <==> v.signed_transaction_hash.len() == 32
            && v.state_root_hash.len() == 32 && v.event_root_hash.len() == 32,
        TransactionInfo::encoding(v) == bytes_encoding(v.signed_transaction_hash) + bytes_encoding(
            v.state_root_hash,
        ) + bytes_encoding(v.event_root_hash) + u64_bytes(v.gas_used) + u64_bytes(
            v.major_status.code,
        ),
        TransactionInfo::encodable(v) ==> TransactionInfo::encoding(v).len() == 124,
{
    byte_strings(v.signed_transaction_hash, Seq::empty());
    byte_strings(v.state_root_hash, Seq::empty());
    byte_strings(v.event_root_hash, Seq::empty());
    numbers_of_64_bits(v.gas_used, Seq::empty());
    numbers_of_64_bits(v.major_status.code, Seq::empty());
    assert(TransactionInfo::encoding(v) =~= bytes_encoding(v.signed_transaction_hash)
        + bytes_encoding(v.state_root_hash) + bytes_encoding(v.event_root_hash) + u64_bytes(
        v.gas_used,
    ) + u64_bytes(v.major_status.code));
}

} // verus!
