//! The canonical byte format: integers in little endian, byte strings and lists behind their
//! length in four bytes, the fields of a struct one after the other.

use vstd::prelude::*;
use crate::error::Error;

verus! {

/// The longest list or byte string that the format can hold.
pub const MAX_LENGTH: usize = 0x7fff_ffff;

/// What a decoder makes of some bytes: the value and the bytes after it, or the reason why
/// there is none.
pub type Decoded<V> = Result<(V, Seq<u8>), Error>;

// ---------------------------------------------------------------------------------------------
// Integers
// ---------------------------------------------------------------------------------------------

/// The four bytes of `n`, the least significant one first.
#[verifier::opaque]
pub open spec fn u32_bytes(n: u32) -> Seq<u8> {
    seq![
        (n % 256) as u8,
        (n / 256 % 256) as u8,
        (n / 65536 % 256) as u8,
        (n / 16777216) as u8,
    ]
}

/// The number whose bytes, the least significant one first, `s` starts with.
#[verifier::opaque]
pub open spec fn u32_value(s: Seq<u8>) -> u32 {
    (s[0] + 256 * s[1] + 65536 * s[2] + 16777216 * s[3]) as u32
}

/// What the start of `s` says as a 32-bit number.
#[verifier::opaque]
pub open spec fn u32_decoding(s: Seq<u8>) -> Decoded<u32> {
    if s.len() < 4 {
        Err(Error::UnexpectedEnd)
    } else {
        Ok((u32_value(s), s.skip(4)))
    }
}

/// The eight bytes of `n`, the least significant one first.
#[verifier::opaque]
pub open spec fn u64_bytes(n: u64) -> Seq<u8> {
    u32_bytes((n % 0x1_0000_0000) as u32) + u32_bytes((n / 0x1_0000_0000) as u32)
}

/// What the start of `s` says as a 64-bit number.
#[verifier::opaque]
pub open spec fn u64_decoding(s: Seq<u8>) -> Decoded<u64> {
    if s.len() < 8 {
        Err(Error::UnexpectedEnd)
    } else {
        Ok(((u32_value(s) + 0x1_0000_0000 * u32_value(s.skip(4))) as u64, s.skip(8)))
    }
}

/// Reading a 32-bit number gives back the one that was written.
pub proof fn lemma_u32_decode_encode(n: u32, rest: Seq<u8>)
    ensures
        u32_decoding(u32_bytes(n) + rest) == Ok::<(u32, Seq<u8>), Error>((n, rest)),
{
    reveal(u32_bytes);
    reveal(u32_value);
    reveal(u32_decoding);
    let s = u32_bytes(n) + rest;
    assert(s.skip(4) =~= rest);
    assert(u32_value(s) == n);
}

/// Writing the number that was read gives back its bytes.
pub proof fn lemma_u32_encode_decode(s: Seq<u8>)
    ensures
        u32_decoding(s) matches Ok((n, rest)) ==> u32_bytes(n) + rest == s,
{
    reveal(u32_bytes);
    reveal(u32_value);
    reveal(u32_decoding);
    if s.len() >= 4 {
        let n = u32_value(s);
        assert(n == s[0] + 256 * s[1] + 65536 * s[2] + 16777216 * s[3]);
        assert(n / 256 == s[1] + 256 * s[2] + 65536 * s[3]);
        assert(n / 65536 == s[2] + 256 * s[3]);
        assert(n / 16777216 == s[3]);
        assert(u32_bytes(n) + s.skip(4) =~= s);
    }
}

/// Reading a 64-bit number gives back the one that was written.
pub proof fn lemma_u64_decode_encode(n: u64, rest: Seq<u8>)
    ensures
        u64_decoding(u64_bytes(n) + rest) == Ok::<(u64, Seq<u8>), Error>((n, rest)),
{
    reveal(u32_bytes);
    reveal(u32_decoding);
    reveal(u64_bytes);
    reveal(u64_decoding);
    let low = (n % 0x1_0000_0000) as u32;
    let high = (n / 0x1_0000_0000) as u32;
    let s = u64_bytes(n) + rest;
    assert(s =~= u32_bytes(low) + (u32_bytes(high) + rest));
    lemma_u32_decode_encode(low, u32_bytes(high) + rest);
    lemma_u32_decode_encode(high, rest);
    assert(s.skip(4) =~= u32_bytes(high) + rest);
    assert(s.skip(8) =~= rest);
}

/// A 64-bit number has the two halves that it was put together from.
proof fn lemma_halves(low: u32, high: u32)
    ensures
        low + 0x1_0000_0000 * high <= u64::MAX,
        (low + 0x1_0000_0000 * high) as u64 % 0x1_0000_0000 == low,
        (low + 0x1_0000_0000 * high) as u64 / 0x1_0000_0000 == high,
{
}

/// Writing the 64-bit number that was read gives back its bytes.
pub proof fn lemma_u64_encode_decode(s: Seq<u8>)
    ensures
        u64_decoding(s) matches Ok((n, rest)) ==> u64_bytes(n) + rest == s,
{
    reveal(u32_decoding);
    reveal(u64_bytes);
    reveal(u64_decoding);
    if s.len() >= 8 {
        lemma_u32_encode_decode(s);
        lemma_u32_encode_decode(s.skip(4));
        let low = u32_value(s);
        let high = u32_value(s.skip(4));
        let n = (low + 0x1_0000_0000 * high) as u64;
        lemma_halves(low, high);
        assert(s.skip(4).skip(4) =~= s.skip(8));
        assert(u64_bytes(n) + s.skip(8) =~= u32_bytes(low) + (u32_bytes(high) + s.skip(8)));
    }
}

// ---------------------------------------------------------------------------------------------
// Byte strings
// ---------------------------------------------------------------------------------------------

/// A byte string behind its length.
#[verifier::opaque]
pub open spec fn bytes_encoding(v: Seq<u8>) -> Seq<u8> {
    u32_bytes(v.len() as u32) + v
}

/// What the start of `s` says as a byte string.
#[verifier::opaque]
pub open spec fn bytes_decoding(s: Seq<u8>) -> Decoded<Seq<u8>> {
    match u32_decoding(s) {
        Err(e) => Err(e),
        Ok((n, rest)) => if n > MAX_LENGTH {
            Err(Error::LengthLimit)
        } else if rest.len() < n {
            Err(Error::UnexpectedEnd)
        } else {
            Ok((rest.take(n as int), rest.skip(n as int)))
        },
    }
}

/// What is left of `s` where no byte string can be read off it: everything where there is no
/// length, and what is behind the length otherwise.
#[verifier::opaque]
pub open spec fn bytes_unread(s: Seq<u8>) -> Seq<u8> {
    match u32_decoding(s) {
        Err(_) => s,
        Ok((_, rest)) => rest,
    }
}

/// Reading a byte string gives back the one that was written.
pub proof fn lemma_bytes_decode_encode(v: Seq<u8>, rest: Seq<u8>)
    requires
        v.len() <= MAX_LENGTH,
    ensures
        bytes_decoding(bytes_encoding(v) + rest) == Ok::<(Seq<u8>, Seq<u8>), Error>((v, rest)),
{
    reveal(bytes_encoding);
    reveal(bytes_decoding);
    assert(bytes_encoding(v) + rest =~= u32_bytes(v.len() as u32) + (v + rest));
    lemma_u32_decode_encode(v.len() as u32, v + rest);
    assert((v + rest).take(v.len() as int) =~= v);
    assert((v + rest).skip(v.len() as int) =~= rest);
}

/// Writing the byte string that was read gives back its bytes.
pub proof fn lemma_bytes_encode_decode(s: Seq<u8>)
    ensures
        bytes_decoding(s) matches Ok((v, rest)) ==> v.len() <= MAX_LENGTH && bytes_encoding(v)
            + rest == s,
{
    reveal(bytes_encoding);
    reveal(bytes_decoding);
    if let Ok((v, rest)) = bytes_decoding(s) {
        lemma_u32_encode_decode(s);
        let (n, after) = u32_decoding(s)->Ok_0;
        assert(v.len() == n);
        assert(v + rest =~= after);
        assert(bytes_encoding(v) + rest =~= u32_bytes(n) + (v + rest));
    }
}

// ---------------------------------------------------------------------------------------------
// Writing
// ---------------------------------------------------------------------------------------------

/// Appends `v` to `out`.
pub fn encode_raw_bytes(v: &[u8], out: &mut Vec<u8>)
    ensures
        final(out)@ == old(out)@ + v@,
{
    out.extend_from_slice(v);
    assert(out@ =~= old(out)@ + v@);
}

/// Appends the four bytes of `n` to `out`.
pub fn encode_u32(n: u32, out: &mut Vec<u8>)
    ensures
        final(out)@ == old(out)@ + u32_bytes(n),
{
    reveal(u32_bytes);
    out.push((n % 256) as u8);
    out.push((n / 256 % 256) as u8);
    out.push((n / 65536 % 256) as u8);
    out.push((n / 16777216) as u8);
    assert(out@ =~= old(out)@ + u32_bytes(n));
}

/// Appends the eight bytes of `n` to `out`.
pub fn encode_u64(n: u64, out: &mut Vec<u8>)
    ensures
        final(out)@ == old(out)@ + u64_bytes(n),
{
    reveal(u64_bytes);
    encode_u32((n % 0x1_0000_0000) as u32, out);
    encode_u32((n / 0x1_0000_0000) as u32, out);
    assert(out@ =~= old(out)@ + u64_bytes(n));
}

/// Appends `v` behind its length to `out`; a byte string that is too long is refused.
pub fn encode_bytes(v: &[u8], out: &mut Vec<u8>) -> (r: Result<(), Error>)
    ensures
        v@.len() <= MAX_LENGTH ==> r is Ok && final(out)@ == old(out)@ + bytes_encoding(v@),
        v@.len() > MAX_LENGTH ==> r == Err::<(), Error>(Error::LengthLimit) && final(out)@ == old(
            out,
        )@,
{
    reveal(bytes_encoding);
    if v.len() > MAX_LENGTH {
        return Err(Error::LengthLimit);
    }
    encode_u32(v.len() as u32, out);
    encode_raw_bytes(v, out);
    assert(out@ =~= old(out)@ + bytes_encoding(v@));
    Ok(())
}

// ---------------------------------------------------------------------------------------------
// Reading
// ---------------------------------------------------------------------------------------------

/// Reads values off the front of some bytes.
pub struct SimpleDeserializer<'a> {
    data: &'a [u8],
    position: usize,
}

impl<'a> SimpleDeserializer<'a> {
    #[verifier::type_invariant]
    spec fn within_data(self) -> bool {
        self.position <= self.data@.len()
    }

    /// The bytes that have not been read.
    pub closed spec fn remaining(&self) -> Seq<u8> {
        self.data@.skip(self.position as int)
    }

    /// Starts at the first of the bytes.
    pub fn new(data: &'a [u8]) -> (r: SimpleDeserializer<'a>)
        ensures
            r.remaining() == data@,
    {
        let r = SimpleDeserializer { data, position: 0 };
        assert(r.remaining() =~= data@);
        r
    }

    /// Reads a 32-bit number. Nothing is read where there is none.
    pub fn decode_u32(&mut self) -> (r: Result<u32, Error>)
        ensures
            decoded(
                u32_decoding(old(self).remaining()),
                old(self).remaining(),
                r,
                final(self).remaining(),
            ),
    {
        proof {
            reveal(u32_value);
            reveal(u32_decoding);
            use_type_invariant(&*self);
        }
        if self.data.len() - self.position < 4 {
            return Err(Error::UnexpectedEnd);
        }
        let p: usize = self.position;
        let a: u32 = self.data[p] as u32;
        let b: u32 = self.data[p + 1] as u32;
        let c: u32 = self.data[p + 2] as u32;
        let d: u32 = self.data[p + 3] as u32;
        self.position = p + 4;
        assert(self.remaining() =~= old(self).remaining().skip(4));
        Ok(a + 256 * b + 65536 * c + 16777216 * d)
    }

    /// Reads a 64-bit number. Nothing is read where there is none.
    pub fn decode_u64(&mut self) -> (r: Result<u64, Error>)
        ensures
            decoded(
                u64_decoding(old(self).remaining()),
                old(self).remaining(),
                r,
                final(self).remaining(),
            ),
    {
        proof {
            reveal(u32_decoding);
            reveal(u64_decoding);
            use_type_invariant(&*self);
        }
        if self.data.len() - self.position < 8 {
            return Err(Error::UnexpectedEnd);
        }
        let low: u64 = match self.decode_u32() {
            Ok(n) => n as u64,
            Err(e) => return Err(e),
        };
        let high: u64 = match self.decode_u32() {
            Ok(n) => n as u64,
            Err(e) => return Err(e),
        };
        assert(old(self).remaining().skip(4).skip(4) =~= old(self).remaining().skip(8));
        Ok(low + 0x1_0000_0000 * high)
    }

    /// Reads a byte string.
    pub fn decode_bytes(&mut self) -> (r: Result<Vec<u8>, Error>)
        ensures
            match bytes_decoding(old(self).remaining()) {
                Ok((v, rest)) => r is Ok && r->Ok_0@ == v && final(self).remaining() == rest,
                Err(e) => r == Err::<Vec<u8>, Error>(e) && final(self).remaining() == bytes_unread(
                    old(self).remaining(),
                ),
            },
    {
        reveal(bytes_decoding);
        reveal(bytes_unread);
        let n: u32 = match self.decode_u32() {
            Ok(n) => n,
            Err(e) => return Err(e),
        };
        let n: usize = n as usize;
        if n > MAX_LENGTH {
            return Err(Error::LengthLimit);
        }
        proof {
            use_type_invariant(&*self);
        }
        if self.data.len() - self.position < n {
            return Err(Error::UnexpectedEnd);
        }
        let ghost after = self.remaining();
        let p: usize = self.position;
        let mut v: Vec<u8> = Vec::new();
        encode_raw_bytes(vstd::slice::slice_subrange(self.data, p, p + n), &mut v);
        self.position = p + n;
        assert(v@ =~= after.take(n as int));
        assert(self.remaining() =~= after.skip(n as int));
        Ok(v)
    }
}

/// The outcome `r` of a read that leaves `remaining` is what `d` says; where it fails, it leaves
/// `unread`.
pub open spec fn decoded<V>(
    d: Decoded<V>,
    unread: Seq<u8>,
    r: Result<V, Error>,
    remaining: Seq<u8>,
) -> bool {
    match d {
        Ok((v, rest)) => r == Ok::<V, Error>(v) && remaining == rest,
        Err(e) => r == Err::<V, Error>(e) && remaining == unread,
    }
}

} // verus!
