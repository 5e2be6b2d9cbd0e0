//! Values with a canonical encoding, and lists of them.

use vstd::prelude::*;
use crate::canonical::{encode_bytes, encode_u32, SimpleDeserializer, MAX_LENGTH};
use crate::canonical::{
    bytes_decoding, bytes_encoding, bytes_unread, lemma_bytes_decode_encode, lemma_bytes_encode_decode,
    lemma_u32_decode_encode, lemma_u32_encode_decode, u32_bytes, u32_decoding, Decoded,
};
use crate::error::Error;

verus! {

/// A value that can be written in the canonical format.
pub trait CanonicalSerialize: View + Sized {
    /// Whether the format can hold the value.
    spec fn encodable(v: Self::V) -> bool;

    /// The bytes that stand for the value.
    spec fn encoding(v: Self::V) -> Seq<u8>;

    /// The bytes that stand for what comes before the first part that the format cannot hold.
    spec fn written_part(v: Self::V) -> Seq<u8>;

    /// Appends the encoding to `out`. A value that the format cannot hold is refused; writing then
    /// stops at the first part that it cannot hold.
    fn serialize(&self, out: &mut Vec<u8>) -> (r: Result<(), Error>)
        ensures
            Self::encodable(self@) ==> r is Ok && final(out)@ == old(out)@ + Self::encoding(self@),
            !Self::encodable(self@) ==> r == Err::<(), Error>(Error::LengthLimit) && final(out)@
                == old(out)@ + Self::written_part(self@),
    ;
}

/// A value that can be read in the canonical format.
pub trait CanonicalDeserialize: CanonicalSerialize {
    /// The value as it comes back from its encoding.
    spec fn canonical(v: Self::V) -> Self::V;

    /// What the start of `s` says.
    spec fn decoding(s: Seq<u8>) -> Decoded<Self::V>;

    /// What is left of `s` at the place where reading a value off it fails.
    spec fn unread(s: Seq<u8>) -> Seq<u8>;

    /// Reads a value. Where there is none, nothing is read behind the place where that shows.
    fn deserialize(input: &mut SimpleDeserializer) -> (r: Result<Self, Error>)
        ensures
            match Self::decoding(old(input).remaining()) {
                Ok((v, rest)) => r is Ok && r->Ok_0@ == v && final(input).remaining() == rest,
                Err(e) => r == Err::<Self, Error>(e) && final(input).remaining() == Self::unread(
                    old(input).remaining(),
                ),
            },
    ;

    /// Reading an encoding gives back the value, whatever follows it.
    proof fn lemma_decode_encode(v: Self::V, rest: Seq<u8>)
        requires
            Self::encodable(v),
        ensures
            Self::decoding(Self::encoding(v) + rest) == Ok::<(Self::V, Seq<u8>), Error>(
                (Self::canonical(v), rest),
            ),
    ;

    /// What can be read is the encoding of the value that is read and what follows it.
    proof fn lemma_encode_decode(s: Seq<u8>)
        ensures
            Self::decoding(s) matches Ok((v, rest)) ==> Self::encodable(v) && Self::canonical(v)
                == v && Self::encoding(v) + rest == s,
    ;
}

/// The canonical bytes of a value; one that the format cannot hold is refused.
pub fn to_canonical_bytes<T: CanonicalSerialize>(value: &T) -> (r: Result<Vec<u8>, Error>)
    ensures
        T::encodable(value@) ==> r is Ok && r->Ok_0@ == T::encoding(value@),
        !T::encodable(value@) ==> r == Err::<Vec<u8>, Error>(Error::LengthLimit),
{
    let mut out: Vec<u8> = Vec::new();
    match value.serialize(&mut out) {
        Ok(_) => {
            assert(out@ =~= T::encoding(value@));
            Ok(out)
        },
        Err(e) => Err(e),
    }
}

/// The value that `data` starts with; what follows it is left alone.
pub fn from_canonical_bytes<T: CanonicalDeserialize>(data: &[u8]) -> (r: Result<T, Error>)
    ensures
        match T::decoding(data@) {
            Ok((v, _)) => r is Ok && r->Ok_0@ == v,
            Err(e) => r == Err::<T, Error>(e),
        },
{
    let mut input = SimpleDeserializer::new(data);
    T::deserialize(&mut input)
}

// ---------------------------------------------------------------------------------------------
// Byte strings
// ---------------------------------------------------------------------------------------------

impl CanonicalSerialize for Vec<u8> {
    open spec fn encodable(v: Seq<u8>) -> bool {
        v.len() <= MAX_LENGTH
    }

    open spec fn encoding(v: Seq<u8>) -> Seq<u8> {
        bytes_encoding(v)
    }

    open spec fn written_part(v: Seq<u8>) -> Seq<u8> {
        Seq::empty()
    }

    fn serialize(&self, out: &mut Vec<u8>) -> (r: Result<(), Error>) {
        let ghost start = out@;
        assert(start + Seq::<u8>::empty() =~= start);
        encode_bytes(self.as_slice(), out)
    }
}

impl CanonicalDeserialize for Vec<u8> {
    open spec fn canonical(v: Seq<u8>) -> Seq<u8> {
        v
    }

    open spec fn decoding(s: Seq<u8>) -> Decoded<Seq<u8>> {
        bytes_decoding(s)
    }

    open spec fn unread(s: Seq<u8>) -> Seq<u8> {
        bytes_unread(s)
    }

    fn deserialize(input: &mut SimpleDeserializer) -> (r: Result<Self, Error>) {
        input.decode_bytes()
    }

    proof fn lemma_decode_encode(v: Seq<u8>, rest: Seq<u8>) {
        lemma_bytes_decode_encode(v, rest);
    }

    proof fn lemma_encode_decode(s: Seq<u8>) {
        lemma_bytes_encode_decode(s);
    }
}

// ---------------------------------------------------------------------------------------------
// Lists
// ---------------------------------------------------------------------------------------------

/// The views of the items of a list.
pub open spec fn views<T: View>(s: Seq<T>) -> Seq<T::V> {
    Seq::new(s.len(), |i: int| s[i]@)
}

/// Whether the format can hold every item.
pub open spec fn items_encodable<T: CanonicalSerialize>(s: Seq<T::V>) -> bool {
    forall|i: int| 0 <= i < s.len() ==> T::encodable(#[trigger] s[i])
}

/// The encodings of the items, one after the other.
pub open spec fn items_encoding<T: CanonicalSerialize>(s: Seq<T::V>) -> Seq<u8>
    decreases s.len(),
{
    if s.len() == 0 {
        Seq::empty()
    } else {
        T::encoding(s[0]) + items_encoding::<T>(s.skip(1))
    }
}

/// The encodings of the items before the first one that the format cannot hold, and what is
/// written of that one.
pub open spec fn items_written_part<T: CanonicalSerialize>(s: Seq<T::V>) -> Seq<u8>
    decreases s.len(),
{
    if s.len() == 0 {
        Seq::empty()
    } else if !T::encodable(s[0]) {
        T::written_part(s[0])
    } else {
        T::encoding(s[0]) + items_written_part::<T>(s.skip(1))
    }
}

/// The items that the start of `s` holds, `n` of them.
pub open spec fn items_decoding<T: CanonicalDeserialize>(n: nat, s: Seq<u8>) -> Decoded<Seq<T::V>>
    decreases n,
{
    if n == 0 {
        Ok((Seq::empty(), s))
    } else {
        match T::decoding(s) {
            Err(e) => Err(e),
            Ok((first, after)) => match items_decoding::<T>((n - 1) as nat, after) {
                Err(e) => Err(e),
                Ok((others, rest)) => Ok((seq![first] + others, rest)),
            },
        }
    }
}

/// What is left of `s` at the place where reading `n` items off it fails.
pub open spec fn items_unread<T: CanonicalDeserialize>(n: nat, s: Seq<u8>) -> Seq<u8>
    decreases n,
{
    if n == 0 {
        s
    } else {
        match T::decoding(s) {
            Err(_) => T::unread(s),
            Ok((_, after)) => items_unread::<T>((n - 1) as nat, after),
        }
    }
}

/// Each item as it comes back from its encoding.
pub open spec fn items_canonical<T: CanonicalDeserialize>(s: Seq<T::V>) -> Seq<T::V> {
    Seq::new(s.len(), |i: int| T::canonical(s[i]))
}

/// Whether the format can hold a list.
#[verifier::opaque]
pub open spec fn list_encodable<T: CanonicalSerialize>(s: Seq<T::V>) -> bool {
    s.len() <= MAX_LENGTH && items_encodable::<T>(s)
}

/// A list behind the number of its items.
#[verifier::opaque]
pub open spec fn list_encoding<T: CanonicalSerialize>(s: Seq<T::V>) -> Seq<u8> {
    u32_bytes(s.len() as u32) + items_encoding::<T>(s)
}

/// What is written of a list that the format cannot hold: nothing where it is too long.
#[verifier::opaque]
pub open spec fn list_written_part<T: CanonicalSerialize>(s: Seq<T::V>) -> Seq<u8> {
    if s.len() > MAX_LENGTH {
        Seq::empty()
    } else {
        u32_bytes(s.len() as u32) + items_written_part::<T>(s)
    }
}

/// What is left of `s` at the place where reading a list off it fails.
#[verifier::opaque]
pub open spec fn list_unread<T: CanonicalDeserialize>(s: Seq<u8>) -> Seq<u8> {
    match u32_decoding(s) {
        Err(_) => s,
        Ok((n, rest)) => if n > MAX_LENGTH {
            rest
        } else {
            items_unread::<T>(n as nat, rest)
        },
    }
}

/// What the start of `s` says as a list.
#[verifier::opaque]
pub open spec fn list_decoding<T: CanonicalDeserialize>(s: Seq<u8>) -> Decoded<Seq<T::V>> {
    match u32_decoding(s) {
        Err(e) => Err(e),
        Ok((n, rest)) => if n > MAX_LENGTH {
            Err(Error::LengthLimit)
        } else {
            items_decoding::<T>(n as nat, rest)
        },
    }
}

/// Reading the encodings of items gives back the items.
proof fn lemma_items_decode_encode<T: CanonicalDeserialize>(s: Seq<T::V>, rest: Seq<u8>)
    requires
        items_encodable::<T>(s),
    ensures
        items_decoding::<T>(s.len(), items_encoding::<T>(s) + rest) == Ok::<
            (Seq<T::V>, Seq<u8>),
            Error,
        >((items_canonical::<T>(s), rest)),
    decreases s.len(),
{
    if s.len() == 0 {
        assert(items_encoding::<T>(s) + rest =~= rest);
        assert(items_canonical::<T>(s) =~= Seq::empty());
    } else {
        let others = s.skip(1);
        let after = items_encoding::<T>(others) + rest;
        assert(items_encoding::<T>(s) + rest =~= T::encoding(s[0]) + after);
        T::lemma_decode_encode(s[0], after);
        lemma_items_decode_encode::<T>(others, rest);
        assert(items_canonical::<T>(s) =~= seq![T::canonical(s[0])] + items_canonical::<T>(
            others,
        ));
    }
}

/// Writing the items that were read gives back their bytes.
proof fn lemma_items_encode_decode<T: CanonicalDeserialize>(n: nat, s: Seq<u8>)
    ensures
        items_decoding::<T>(n, s) matches Ok((v, rest)) ==> v.len() == n && items_encodable::<T>(v)
            && items_canonical::<T>(v) == v && items_encoding::<T>(v) + rest == s,
    decreases n,
{
    if let Ok((v, rest)) = items_decoding::<T>(n, s) {
        if n == 0 {
            assert(items_encoding::<T>(v) + rest =~= s);
            assert(items_canonical::<T>(v) =~= v);
        } else {
            T::lemma_encode_decode(s);
            let (first, after) = T::decoding(s)->Ok_0;
            lemma_items_encode_decode::<T>((n - 1) as nat, after);
            let (others, _) = items_decoding::<T>((n - 1) as nat, after)->Ok_0;
            assert(v.skip(1) =~= others);
            assert(v[0] == first);
            assert forall|i: int| 0 <= i < v.len() implies T::encodable(#[trigger] v[i])
                && T::canonical(v[i]) == v[i] by {
                if i > 0 {
                    assert(v[i] == others[i - 1]);
                    assert(items_canonical::<T>(others)[i - 1] == others[i - 1]);
                }
            }
            assert(items_canonical::<T>(v) =~= v);
            assert(items_encoding::<T>(v) + rest =~= T::encoding(first) + (items_encoding::<T>(
                others,
            ) + rest));
        }
    }
}

/// Reading a list gives back the one that was written.
pub proof fn lemma_list_decode_encode<T: CanonicalDeserialize>(s: Seq<T::V>, rest: Seq<u8>)
    requires
        list_encodable::<T>(s),
    ensures
        list_decoding::<T>(list_encoding::<T>(s) + rest) == Ok::<(Seq<T::V>, Seq<u8>), Error>(
            (items_canonical::<T>(s), rest),
        ),
{
    reveal(list_encodable);
    reveal(list_encoding);
    reveal(list_decoding);
    let after = items_encoding::<T>(s) + rest;
    assert(list_encoding::<T>(s) + rest =~= u32_bytes(s.len() as u32) + after);
    lemma_u32_decode_encode(s.len() as u32, after);
    lemma_items_decode_encode::<T>(s, rest);
}

/// Writing the list that was read gives back its bytes.
pub proof fn lemma_list_encode_decode<T: CanonicalDeserialize>(s: Seq<u8>)
    ensures
        list_decoding::<T>(s) matches Ok((v, rest)) ==> list_encodable::<T>(v)
            && items_canonical::<T>(v) == v && list_encoding::<T>(v) + rest == s,
{
    reveal(list_encodable);
    reveal(list_encoding);
    reveal(list_decoding);
    if let Ok((v, rest)) = list_decoding::<T>(s) {
        lemma_u32_encode_decode(s);
        let (n, after) = u32_decoding(s)->Ok_0;
        lemma_items_encode_decode::<T>(n as nat, after);
        assert(list_encoding::<T>(v) + rest =~= u32_bytes(n) + (items_encoding::<T>(v) + rest));
    }
}

/// What is written of a list is its items up to the first one that the format cannot hold.
proof fn lemma_items_written_part<T: CanonicalSerialize>(s: Seq<T::V>, n: int)
    requires
        0 <= n < s.len(),
        forall|j: int| 0 <= j < n ==> T::encodable(#[trigger] s[j]),
        !T::encodable(s[n]),
    ensures
        items_written_part::<T>(s) == items_encoding::<T>(s.take(n)) + T::written_part(s[n]),
    decreases n,
{
    if n == 0 {
        assert(s.take(0) =~= Seq::empty());
        assert(items_encoding::<T>(s.take(0)) + T::written_part(s[0]) =~= T::written_part(s[0]));
    } else {
        let others = s.skip(1);
        assert forall|j: int| 0 <= j < n - 1 implies T::encodable(#[trigger] others[j]) by {
            assert(others[j] == s[j + 1]);
        }
        assert(others[n - 1] == s[n]);
        lemma_items_written_part::<T>(others, n - 1);
        assert(s.take(n).skip(1) =~= others.take(n - 1));
        assert(s.take(n)[0] == s[0]);
        assert(T::encodable(s[0]));
        assert(items_written_part::<T>(s) =~= items_encoding::<T>(s.take(n)) + T::written_part(
            s[n],
        ));
    }
}

/// One more item is written behind the others.
proof fn lemma_items_encoding_push<T: CanonicalSerialize>(s: Seq<T::V>, x: T::V)
    ensures
        items_encoding::<T>(s.push(x)) == items_encoding::<T>(s) + T::encoding(x),
    decreases s.len(),
{
    if s.len() == 0 {
        assert(s.push(x).skip(1) =~= Seq::empty());
        assert(items_encoding::<T>(s.push(x).skip(1)) =~= Seq::empty());
        assert(items_encoding::<T>(s.push(x)) =~= items_encoding::<T>(s) + T::encoding(x));
    } else {
        lemma_items_encoding_push::<T>(s.skip(1), x);
        assert(s.push(x).skip(1) =~= s.skip(1).push(x));
        assert(items_encoding::<T>(s.push(x)) =~= items_encoding::<T>(s) + T::encoding(x));
    }
}

/// Appends a list behind the number of its items to `out`; a list that the format cannot hold
/// is refused.
pub fn encode_list<T: CanonicalSerialize>(items: &Vec<T>, out: &mut Vec<u8>) -> (r: Result<
    (),
    Error,
>)
    ensures
        list_encodable::<T>(views(items@)) ==> r is Ok && final(out)@ == old(out)@ + list_encoding::<
            T,
        >(views(items@)),
        !list_encodable::<T>(views(items@)) ==> r == Err::<(), Error>(Error::LengthLimit)
            && final(out)@ == old(out)@ + list_written_part::<T>(views(items@)),
{
    reveal(list_encodable);
    reveal(list_encoding);
    reveal(list_written_part);
    if items.len() > MAX_LENGTH {
        assert(out@ + Seq::<u8>::empty() =~= out@);
        return Err(Error::LengthLimit);
    }
    let ghost all = views(items@);
    encode_u32(items.len() as u32, out);
    let ghost start = out@;
    let mut i: usize = 0;
    proof {
        assert(all.take(0) =~= Seq::empty());
        assert(out@ =~= start + items_encoding::<T>(all.take(0)));
    }
    while i < items.len()
        invariant
            i <= items.len(),
            items.len() <= MAX_LENGTH,
            all == views(items@),
            start == old(out)@ + u32_bytes(items.len() as u32),
            forall|j: int| 0 <= j < i ==> T::encodable(#[trigger] all[j]),
            out@ == start + items_encoding::<T>(all.take(i as int)),
        decreases items.len() - i,
    {
        assert(all[i as int] == items@[i as int]@);
        match items[i].serialize(out) {
            Ok(_) => {},
            Err(e) => {
                proof {
                    reveal(list_encodable);
                    reveal(list_written_part);
                    assert(!T::encodable(all[i as int]));
                    lemma_items_written_part::<T>(all, i as int);
                    assert(out@ =~= old(out)@ + list_written_part::<T>(all));
                }
                return Err(e);
            },
        }
        proof {
            assert(T::encodable(all[i as int]));
            lemma_items_encoding_push::<T>(all.take(i as int), all[i as int]);
            assert(all.take(i as int).push(all[i as int]) =~= all.take(i + 1));
            assert(out@ =~= start + items_encoding::<T>(all.take(i + 1)));
        }
        i = i + 1;
    }
    assert(all.take(i as int) =~= all);
    assert(out@ =~= old(out)@ + list_encoding::<T>(all));
    Ok(())
}

/// Reads a list.
pub fn decode_list<T: CanonicalDeserialize>(input: &mut SimpleDeserializer) -> (r: Result<
    Vec<T>,
    Error,
>)
    ensures
        match list_decoding::<T>(old(input).remaining()) {
            Ok((v, rest)) => r is Ok && views(r->Ok_0@) == v && final(input).remaining() == rest,
            Err(e) => r == Err::<Vec<T>, Error>(e) && final(input).remaining() == list_unread::<T>(
                old(input).remaining(),
            ),
        },
{
    reveal(list_decoding);
    reveal(list_unread);
    let n: u32 = match input.decode_u32() {
        Ok(n) => n,
        Err(e) => return Err(e),
    };
    let n: usize = n as usize;
    if n > MAX_LENGTH {
        return Err(Error::LengthLimit);
    }
    let ghost start = input.remaining();
    let mut items: Vec<T> = Vec::new();
    proof {
        let whole = items_decoding::<T>(n as nat, start);
        if let Ok((v, rest)) = whole {
            assert(views(items@) + v =~= v);
        }
    }
    while items.len() < n
        invariant
            items.len() <= n,
            list_decoding::<T>(old(input).remaining()) == items_decoding::<T>(n as nat, start),
            list_unread::<T>(old(input).remaining()) == items_unread::<T>(
                (n - items.len()) as nat,
                input.remaining(),
            ),
            match items_decoding::<T>((n - items.len()) as nat, input.remaining()) {
                Ok((v, rest)) => items_decoding::<T>(n as nat, start) == Ok::<
                    (Seq<T::V>, Seq<u8>),
                    Error,
                >((views(items@) + v, rest)),
                Err(e) => items_decoding::<T>(n as nat, start) == Err::<
                    (Seq<T::V>, Seq<u8>),
                    Error,
                >(e),
            },
        decreases n - items.len(),
    {
        let ghost before = items@;
        let item = match T::deserialize(input) {
            Ok(item) => item,
            Err(e) => return Err(e),
        };
        items.push(item);
        proof {
            if let Ok((v, rest)) = items_decoding::<T>(
                (n - items.len()) as nat,
                input.remaining(),
            ) {
                assert(views(before) + (seq![item@] + v) =~= views(items@) + v);
            }
        }
    }
    assert(views(items@) + Seq::<T::V>::empty() =~= views(items@));
    Ok(items)
}

} // verus!
