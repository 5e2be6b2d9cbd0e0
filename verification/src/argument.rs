//! The arguments of a transaction script.

use vstd::prelude::*;
use vstd::utf8::{decode_utf8, encode_utf8, valid_utf8};
use crate::address::{vec_of, AccountAddress};
use crate::canonical::{encode_bytes, encode_u32, encode_u64, SimpleDeserializer, MAX_LENGTH};
use crate::canonical::{
    bytes_decoding, bytes_encoding, bytes_unread, lemma_bytes_decode_encode,
    lemma_bytes_encode_decode,
    lemma_u32_decode_encode, lemma_u32_encode_decode, lemma_u64_decode_encode,
    lemma_u64_encode_decode, u32_bytes, u32_decoding, u64_bytes, u64_decoding, Decoded,
};
use crate::codec::{CanonicalDeserialize, CanonicalSerialize};
use crate::error::Error;
use crate::show::{write_shown, Shown};
use crate::show::text_in;
use crate::text::{append_decimal, append_hex};
use crate::text::{decimal, hex};

verus! {

/// An argument of a transaction script.
#[derive(PartialEq, Eq, Hash)]
pub enum TransactionArgument {
    U64(u64),
    Address(AccountAddress),
    Text(String),
    ByteArray(Vec<u8>),
}

/// What an argument holds.
pub ghost enum ArgumentView {
    U64(u64),
    Address(Seq<u8>),
    Text(Seq<char>),
    ByteArray(Seq<u8>),
}

impl View for TransactionArgument {
    type V = ArgumentView;

    open spec fn view(&self) -> ArgumentView {
        match self {
            TransactionArgument::U64(n) => ArgumentView::U64(*n),
            TransactionArgument::Address(a) => ArgumentView::Address(a@),
            TransactionArgument::Text(t) => ArgumentView::Text(t@),
            TransactionArgument::ByteArray(b) => ArgumentView::ByteArray(b@),
        }
    }
}

impl Clone for TransactionArgument {
    fn clone(&self) -> (r: TransactionArgument)
        ensures
            r@ == self@,
    {
        match self {
            TransactionArgument::U64(n) => TransactionArgument::U64(*n),
            TransactionArgument::Address(a) => TransactionArgument::Address(*a),
            TransactionArgument::Text(t) => TransactionArgument::Text(t.clone()),
            TransactionArgument::ByteArray(b) => TransactionArgument::ByteArray(
                vec_of(b.as_slice()),
            ),
        }
    }
}

impl ArgumentView {
    /// The argument as it is shown to a client.
    pub open spec fn text(self) -> Seq<char> {
        match self {
            ArgumentView::U64(n) => "{U64: "@ + decimal(n as nat) + "}"@,
            ArgumentView::Address(a) => "{ADDRESS: "@ + hex(a) + "}"@,
            ArgumentView::Text(t) => "{STRING: "@ + t + "}"@,
            ArgumentView::ByteArray(b) => "{ByteArray: 0x"@ + hex(b) + "}"@,
        }
    }
}

impl TransactionArgument {
    /// Appends the argument as it is shown to a client.
    pub fn append_text(&self, out: &mut String)
        ensures
            final(out)@ == old(out)@ + self@.text(),
    {
        match self {
            TransactionArgument::U64(n) => {
                out.append("{U64: ");
                append_decimal(out, *n);
            },
            TransactionArgument::Address(a) => {
                out.append("{ADDRESS: ");
                append_hex(out, a.as_bytes());
            },
            TransactionArgument::Text(t) => {
                out.append("{STRING: ");
                out.append(t.as_str());
            },
            TransactionArgument::ByteArray(b) => {
                out.append("{ByteArray: 0x");
                append_hex(out, b.as_slice());
            },
        }
        out.append("}");
        assert(out@ =~= old(out)@ + self@.text());
    }
}

impl Shown for TransactionArgument {
    open spec fn shown(v: ArgumentView) -> Seq<char> {
        v.text()
    }

    fn append_shown(&self, out: &mut String) {
        self.append_text(out);
    }
}

impl core::fmt::Debug for TransactionArgument {
    fn fmt(&self, f: &mut core::fmt::Formatter<'_>) -> (r: core::fmt::Result)
        ensures
            r is Ok ==> text_in(*final(f)) == text_in(*old(f)) + TransactionArgument::shown(self@),
    {
        write_shown(self, f)
    }
}

/// Calls `String::from_utf8`, which takes bytes that are valid UTF-8, as the text they encode,
/// and no others.
#[verifier::external_body]
fn string_from_utf8(bytes: Vec<u8>) -> (r: Option<String>)
    ensures
        valid_utf8(bytes@) ==> r is Some && r->0@ == decode_utf8(bytes@),
        !valid_utf8(bytes@) ==> r is None,
{
    String::from_utf8(bytes).ok()
}

impl CanonicalSerialize for TransactionArgument {
    open spec fn encodable(v: ArgumentView) -> bool {
        match v {
            ArgumentView::U64(_) => true,
            ArgumentView::Address(a) => AccountAddress::encodable(a),
            ArgumentView::Text(t) => encode_utf8(t).len() <= MAX_LENGTH,
            ArgumentView::ByteArray(b) => b.len() <= MAX_LENGTH,
        }
    }

    open spec fn encoding(v: ArgumentView) -> Seq<u8> {
        match v {
            ArgumentView::U64(n) => u32_bytes(0) + u64_bytes(n),
            ArgumentView::Address(a) => u32_bytes(1) + AccountAddress::encoding(a),
            ArgumentView::Text(t) => u32_bytes(2) + bytes_encoding(encode_utf8(t)),
            ArgumentView::ByteArray(b) => u32_bytes(3) + bytes_encoding(b),
        }
    }

    open spec fn written_part(v: ArgumentView) -> Seq<u8> {
        match v {
            ArgumentView::U64(_) => u32_bytes(0),
            ArgumentView::Address(_) => u32_bytes(1),
            ArgumentView::Text(_) => u32_bytes(2),
            ArgumentView::ByteArray(_) => u32_bytes(3),
        }
    }

    fn serialize(&self, out: &mut Vec<u8>) -> (r: Result<(), Error>) {
        let ghost start = out@;
        let r = match self {
            TransactionArgument::U64(n) => {
                encode_u32(0, out);
                encode_u64(*n, out);
                Ok(())
            },
            TransactionArgument::Address(a) => {
                encode_u32(1, out);
                a.serialize(out)
            },
            TransactionArgument::Text(t) => {
                encode_u32(2, out);
                encode_bytes(t.as_str().as_bytes(), out)
            },
            TransactionArgument::ByteArray(b) => {
                encode_u32(3, out);
                encode_bytes(b.as_slice(), out)
            },
        };
        assert(r is Ok ==> out@ =~= start + Self::encoding(self@));
        assert(r is Err ==> out@ =~= start + Self::written_part(self@));
        r
    }
}

impl CanonicalDeserialize for TransactionArgument {
    open spec fn canonical(v: ArgumentView) -> ArgumentView {
        v
    }

    open spec fn decoding(s: Seq<u8>) -> Decoded<ArgumentView> {
        match u32_decoding(s) {
            Err(e) => Err(e),
            Ok((tag, after)) => if tag == 0 {
                match u64_decoding(after) {
                    Err(e) => Err(e),
                    Ok((n, rest)) => Ok((ArgumentView::U64(n), rest)),
                }
            } else if tag == 1 {
                match AccountAddress::decoding(after) {
                    Err(e) => Err(e),
                    Ok((a, rest)) => Ok((ArgumentView::Address(a), rest)),
                }
            } else if tag == 2 {
                match bytes_decoding(after) {
                    Err(e) => Err(e),
                    Ok((b, rest)) => if valid_utf8(b) {
                        Ok((ArgumentView::Text(decode_utf8(b)), rest))
                    } else {
                        Err(Error::InvalidUtf8)
                    },
                }
            } else if tag == 3 {
                match bytes_decoding(after) {
                    Err(e) => Err(e),
                    Ok((b, rest)) => Ok((ArgumentView::ByteArray(b), rest)),
                }
            } else {
                Err(Error::UnknownArgumentType(tag))
            },
        }
    }

    open spec fn unread(s: Seq<u8>) -> Seq<u8> {
        match u32_decoding(s) {
            Err(_) => s,
            Ok((tag, after)) => if tag == 1 {
                AccountAddress::unread(after)
            } else if tag == 2 || tag == 3 {
                match bytes_decoding(after) {
                    Err(_) => bytes_unread(after),
                    Ok((_, rest)) => rest,
                }
            } else {
                after
            },
        }
    }

    fn deserialize(input: &mut SimpleDeserializer) -> (r: Result<Self, Error>) {
        let tag: u32 = match input.decode_u32() {
            Ok(tag) => tag,
            Err(e) => return Err(e),
        };
        if tag == 0 {
            match input.decode_u64() {
                Ok(n) => Ok(TransactionArgument::U64(n)),
                Err(e) => Err(e),
            }
        } else if tag == 1 {
            match AccountAddress::deserialize(input) {
                Ok(a) => Ok(TransactionArgument::Address(a)),
                Err(e) => Err(e),
            }
        } else if tag == 2 {
            match input.decode_bytes() {
                Ok(b) => match string_from_utf8(b) {
                    Some(t) => Ok(TransactionArgument::Text(t)),
                    None => Err(Error::InvalidUtf8),
                },
                Err(e) => Err(e),
            }
        } else if tag == 3 {
            match input.decode_bytes() {
                Ok(b) => Ok(TransactionArgument::ByteArray(b)),
                Err(e) => Err(e),
            }
        } else {
            Err(Error::UnknownArgumentType(tag))
        }
    }

    proof fn lemma_decode_encode(v: ArgumentView, rest: Seq<u8>) {
        match v {
            ArgumentView::U64(n) => {
                assert(Self::encoding(v) + rest =~= u32_bytes(0) + (u64_bytes(n) + rest));
                lemma_u32_decode_encode(0, u64_bytes(n) + rest);
                lemma_u64_decode_encode(n, rest);
            },
            ArgumentView::Address(a) => {
                let after = AccountAddress::encoding(a) + rest;
                assert(Self::encoding(v) + rest =~= u32_bytes(1) + after);
                lemma_u32_decode_encode(1, after);
                AccountAddress::lemma_decode_encode(a, rest);
            },
            ArgumentView::Text(t) => {
                let after = bytes_encoding(encode_utf8(t)) + rest;
                assert(Self::encoding(v) + rest =~= u32_bytes(2) + after);
                lemma_u32_decode_encode(2, after);
                lemma_bytes_decode_encode(encode_utf8(t), rest);
                vstd::utf8::encode_utf8_valid_utf8(t);
                vstd::utf8::encode_utf8_decode_utf8(t);
            },
            ArgumentView::ByteArray(b) => {
                let after = bytes_encoding(b) + rest;
                assert(Self::encoding(v) + rest =~= u32_bytes(3) + after);
                lemma_u32_decode_encode(3, after);
                lemma_bytes_decode_encode(b, rest);
            },
        }
    }

    proof fn lemma_encode_decode(s: Seq<u8>) {
        if let Ok((v, rest)) = Self::decoding(s) {
            lemma_u32_encode_decode(s);
            let after = u32_decoding(s)->Ok_0.1;
            match v {
                ArgumentView::U64(n) => {
                    lemma_u64_encode_decode(after);
                },
                ArgumentView::Address(a) => {
                    AccountAddress::lemma_encode_decode(after);
                },
                ArgumentView::Text(t) => {
                    lemma_bytes_encode_decode(after);
                    vstd::utf8::decode_utf8_encode_utf8(bytes_decoding(after)->Ok_0.0);
                },
                ArgumentView::ByteArray(b) => {
                    lemma_bytes_encode_decode(after);
                },
            }
            assert(Self::encoding(v) + rest =~= s);
        }
    }
}

} // verus!
