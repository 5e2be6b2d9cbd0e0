//! The writes that a transaction makes to the state of the ledger.

use vstd::prelude::*;
use crate::address::{vec_of, AccountAddress};
use crate::canonical::{encode_bytes, encode_u32, SimpleDeserializer, MAX_LENGTH};
use crate::canonical::{
    bytes_decoding, bytes_encoding, bytes_unread, lemma_bytes_decode_encode,
    lemma_bytes_encode_decode,
    lemma_u32_decode_encode, lemma_u32_encode_decode, u32_bytes, u32_decoding, Decoded,
};
use crate::codec::{decode_list, encode_list, CanonicalDeserialize, CanonicalSerialize};
use crate::codec::{
    items_canonical, lemma_list_decode_encode, lemma_list_encode_decode, list_decoding,
    list_encodable, list_encoding, list_unread, list_written_part, views,
};
use crate::error::Error;
use crate::show::{append_list, write_shown, Shown};
use crate::show::{list_shown, text_in};
use crate::text::append_hex;
use crate::text::hex;

verus! {

/// What is written at a place.
#[derive(PartialEq, Eq, Hash)]
pub enum WriteOp {
    Value(Vec<u8>),
    Deletion,
}

impl View for WriteOp {
    type V = Option<Seq<u8>>;

    open spec fn view(&self) -> Option<Seq<u8>> {
        match self {
            WriteOp::Value(v) => Some(v@),
            WriteOp::Deletion => None,
        }
    }
}

impl Clone for WriteOp {
    fn clone(&self) -> (r: WriteOp)
        ensures
            r@ == self@,
    {
        match self {
            WriteOp::Value(v) => WriteOp::Value(vec_of(v.as_slice())),
            WriteOp::Deletion => WriteOp::Deletion,
        }
    }
}

impl Shown for WriteOp {
    open spec fn shown(v: Option<Seq<u8>>) -> Seq<char> {
        match v {
            Some(value) => "Value("@ + hex(value) + ")"@,
            None => "Deletion"@,
        }
    }

    fn append_shown(&self, out: &mut String) {
        match self {
            WriteOp::Value(value) => {
                out.append("Value(");
                append_hex(out, value.as_slice());
                out.append(")");
            },
            WriteOp::Deletion => out.append("Deletion"),
        }
        assert(out@ =~= old(out)@ + Self::shown(self@));
    }
}

impl core::fmt::Debug for WriteOp {
    fn fmt(&self, f: &mut core::fmt::Formatter<'_>) -> (r: core::fmt::Result)
        ensures
            r is Ok ==> text_in(*final(f)) == text_in(*old(f)) + WriteOp::shown(self@),
    {
        write_shown(self, f)
    }
}

impl CanonicalSerialize for WriteOp {
    open spec fn encodable(v: Option<Seq<u8>>) -> bool {
        v matches Some(b) ==> b.len() <= MAX_LENGTH
    }

    open spec fn encoding(v: Option<Seq<u8>>) -> Seq<u8> {
        match v {
            None => u32_bytes(0),
            Some(b) => u32_bytes(1) + bytes_encoding(b),
        }
    }

    open spec fn written_part(v: Option<Seq<u8>>) -> Seq<u8> {
        match v {
            None => u32_bytes(0),
            Some(_) => u32_bytes(1),
        }
    }

    fn serialize(&self, out: &mut Vec<u8>) -> (r: Result<(), Error>) {
        let ghost start = out@;
        let r = match self {
            WriteOp::Deletion => {
                encode_u32(0, out);
                Ok(())
            },
            WriteOp::Value(v) => {
                encode_u32(1, out);
                encode_bytes(v.as_slice(), out)
            },
        };
        assert(r is Ok ==> out@ =~= start + Self::encoding(self@));
        assert(r is Err ==> out@ =~= start + Self::written_part(self@));
        r
    }
}

impl CanonicalDeserialize for WriteOp {
    open spec fn canonical(v: Option<Seq<u8>>) -> Option<Seq<u8>> {
        v
    }

    open spec fn decoding(s: Seq<u8>) -> Decoded<Option<Seq<u8>>> {
        match u32_decoding(s) {
            Err(e) => Err(e),
            Ok((tag, after)) => if tag == 0 {
                Ok((None, after))
            } else if tag == 1 {
                match bytes_decoding(after) {
                    Err(e) => Err(e),
                    Ok((b, rest)) => Ok((Some(b), rest)),
                }
            } else {
                Err(Error::UnknownWriteOpType(tag))
            },
        }
    }

    open spec fn unread(s: Seq<u8>) -> Seq<u8> {
        match u32_decoding(s) {
            Err(_) => s,
            Ok((tag, after)) => if tag == 1 {
                bytes_unread(after)
            } else {
                after
            },
        }
    }

    fn deserialize(input: &mut SimpleDeserializer) -> (r: Result<Self, Error>) {
        let tag: u32 = match input.decode_u32() {
            Ok(tag) => tag,
            Err(e) => return Err(e),
        };
        if tag == 0 {
            Ok(WriteOp::Deletion)
        } else if tag == 1 {
            match input.decode_bytes() {
                Ok(v) => Ok(WriteOp::Value(v)),
                Err(e) => Err(e),
            }
        } else {
            Err(Error::UnknownWriteOpType(tag))
        }
    }

    proof fn lemma_decode_encode(v: Option<Seq<u8>>, rest: Seq<u8>) {
        match v {
            None => {
                lemma_u32_decode_encode(0, rest);
            },
            Some(b) => {
                let after = bytes_encoding(b) + rest;
                assert(Self::encoding(v) + rest =~= u32_bytes(1) + after);
                lemma_u32_decode_encode(1, after);
                lemma_bytes_decode_encode(b, rest);
            },
        }
    }

    proof fn lemma_encode_decode(s: Seq<u8>) {
        if let Ok((v, rest)) = Self::decoding(s) {
            lemma_u32_encode_decode(s);
            if v is Some {
                lemma_bytes_encode_decode(u32_decoding(s)->Ok_0.1);
            }
            assert(Self::encoding(v) + rest =~= s);
        }
    }
}

/// A write: a place under an account, and what is written there.
#[derive(PartialEq, Eq, Hash)]
pub struct Write {
    pub address: AccountAddress,
    pub path: Vec<u8>,
    pub op: WriteOp,
}

/// What a write holds.
pub ghost struct WriteView {
    pub address: Seq<u8>,
    pub path: Seq<u8>,
    pub op: Option<Seq<u8>>,
}

impl View for Write {
    type V = WriteView;

    open spec fn view(&self) -> WriteView {
        WriteView { address: self.address@, path: self.path@, op: self.op@ }
    }
}

impl Clone for Write {
    fn clone(&self) -> (r: Write)
        ensures
            r@ == self@,
    {
        Write {
            address: self.address,
            path: vec_of(self.path.as_slice()),
            op: self.op.clone(),
        }
    }
}

impl Shown for Write {
    open spec fn shown(v: WriteView) -> Seq<char> {
        "Write { address: "@ + hex(v.address) + ", path: "@ + hex(v.path) + ", op: "@
            + WriteOp::shown(v.op) + " }"@
    }

    fn append_shown(&self, out: &mut String) {
        out.append("Write { address: ");
        append_hex(out, self.address.as_bytes());
        out.append(", path: ");
        append_hex(out, self.path.as_slice());
        out.append(", op: ");
        self.op.append_shown(out);
        out.append(" }");
        assert(out@ =~= old(out)@ + Self::shown(self@));
    }
}

impl core::fmt::Debug for Write {
    fn fmt(&self, f: &mut core::fmt::Formatter<'_>) -> (r: core::fmt::Result)
        ensures
            r is Ok ==> text_in(*final(f)) == text_in(*old(f)) + Write::shown(self@),
    {
        write_shown(self, f)
    }
}

impl CanonicalSerialize for Write {
    open spec fn encodable(v: WriteView) -> bool {
        AccountAddress::encodable(v.address) && v.path.len() <= MAX_LENGTH && WriteOp::encodable(
            v.op,
        )
    }

    open spec fn encoding(v: WriteView) -> Seq<u8> {
        AccountAddress::encoding(v.address) + bytes_encoding(v.path) + WriteOp::encoding(v.op)
    }

    open spec fn written_part(v: WriteView) -> Seq<u8> {
        if !AccountAddress::encodable(v.address) {
            Seq::empty()
        } else if v.path.len() > MAX_LENGTH {
            AccountAddress::encoding(v.address)
        } else {
            AccountAddress::encoding(v.address) + bytes_encoding(v.path) + WriteOp::written_part(
                v.op,
            )
        }
    }

    fn serialize(&self, out: &mut Vec<u8>) -> (r: Result<(), Error>) {
        let ghost start = out@;
        match self.address.serialize(out) {
            Ok(_) => {},
            Err(e) => {
                assert(out@ =~= start + Self::written_part(self@));
                return Err(e);
            },
        }
        match encode_bytes(self.path.as_slice(), out) {
            Ok(_) => {},
            Err(e) => {
                assert(out@ =~= start + Self::written_part(self@));
                return Err(e);
            },
        }
        let r = self.op.serialize(out);
        assert(r is Ok ==> out@ =~= start + Self::encoding(self@));
        assert(r is Err ==> out@ =~= start + Self::written_part(self@));
        r
    }
}

impl CanonicalDeserialize for Write {
    open spec fn canonical(v: WriteView) -> WriteView {
        v
    }

    open spec fn decoding(s: Seq<u8>) -> Decoded<WriteView> {
        match AccountAddress::decoding(s) {
            Err(e) => Err(e),
            Ok((address, s1)) => match bytes_decoding(s1) {
                Err(e) => Err(e),
                Ok((path, s2)) => match WriteOp::decoding(s2) {
                    Err(e) => Err(e),
                    Ok((op, rest)) => Ok((WriteView { address, path, op }, rest)),
                },
            },
        }
    }

    open spec fn unread(s: Seq<u8>) -> Seq<u8> {
        match AccountAddress::decoding(s) {
            Err(_) => AccountAddress::unread(s),
            Ok((_, s1)) => match bytes_decoding(s1) {
                Err(_) => bytes_unread(s1),
                Ok((_, s2)) => WriteOp::unread(s2),
            },
        }
    }

    fn deserialize(input: &mut SimpleDeserializer) -> (r: Result<Self, Error>) {
        let address = match AccountAddress::deserialize(input) {
            Ok(address) => address,
            Err(e) => return Err(e),
        };
        let path = match input.decode_bytes() {
            Ok(path) => path,
            Err(e) => return Err(e),
        };
        let op = match WriteOp::deserialize(input) {
            Ok(op) => op,
            Err(e) => return Err(e),
        };
        Ok(Write { address, path, op })
    }

    proof fn lemma_decode_encode(v: WriteView, rest: Seq<u8>) {
        let s2 = WriteOp::encoding(v.op) + rest;
        let s1 = bytes_encoding(v.path) + s2;
        assert(Self::encoding(v) + rest =~= AccountAddress::encoding(v.address) + s1);
        AccountAddress::lemma_decode_encode(v.address, s1);
        lemma_bytes_decode_encode(v.path, s2);
        WriteOp::lemma_decode_encode(v.op, rest);
    }

    proof fn lemma_encode_decode(s: Seq<u8>) {
        if let Ok((v, rest)) = Self::decoding(s) {
            AccountAddress::lemma_encode_decode(s);
            let s1 = AccountAddress::decoding(s)->Ok_0.1;
            lemma_bytes_encode_decode(s1);
            let s2 = bytes_decoding(s1)->Ok_0.1;
            WriteOp::lemma_encode_decode(s2);
            assert(Self::encoding(v) + rest =~= AccountAddress::encoding(v.address) + (
            bytes_encoding(v.path) + (WriteOp::encoding(v.op) + rest)));
        }
    }
}

/// A list of writes.
#[derive(PartialEq, Eq, Hash)]
pub struct WriteSet {
    writes: Vec<Write>,
}

impl View for WriteSet {
    type V = Seq<WriteView>;

    closed spec fn view(&self) -> Seq<WriteView> {
        views(self.writes@)
    }
}

impl Clone for WriteSet {
    fn clone(&self) -> (r: WriteSet)
        ensures
            r@ == self@,
    {
        let writes = self.writes.clone();
        assert(views(writes@) =~= views(self.writes@));
        WriteSet { writes }
    }
}

impl WriteSet {
    /// The set of these writes.
    pub fn new(writes: Vec<Write>) -> (r: WriteSet)
        ensures
            r@ == views(writes@),
    {
        WriteSet { writes }
    }

    /// The writes.
    pub fn writes(&self) -> (r: &[Write])
        ensures
            views(r@) == self@,
    {
        self.writes.as_slice()
    }
}

impl Shown for WriteSet {
    open spec fn shown(v: Seq<WriteView>) -> Seq<char> {
        "WriteSet { writes: "@ + list_shown::<Write>(v) + " }"@
    }

    fn append_shown(&self, out: &mut String) {
        out.append("WriteSet { writes: ");
        append_list(out, self.writes.as_slice());
        out.append(" }");
        assert(out@ =~= old(out)@ + Self::shown(self@));
    }
}

impl core::fmt::Debug for WriteSet {
    fn fmt(&self, f: &mut core::fmt::Formatter<'_>) -> (r: core::fmt::Result)
        ensures
            r is Ok ==> text_in(*final(f)) == text_in(*old(f)) + WriteSet::shown(self@),
    {
        write_shown(self, f)
    }
}

impl CanonicalSerialize for WriteSet {
    open spec fn encodable(v: Seq<WriteView>) -> bool {
        list_encodable::<Write>(v)
    }

    open spec fn encoding(v: Seq<WriteView>) -> Seq<u8> {
        list_encoding::<Write>(v)
    }

    open spec fn written_part(v: Seq<WriteView>) -> Seq<u8> {
        list_written_part::<Write>(v)
    }

    fn serialize(&self, out: &mut Vec<u8>) -> (r: Result<(), Error>) {
        encode_list(&self.writes, out)
    }
}

impl CanonicalDeserialize for WriteSet {
    open spec fn canonical(v: Seq<WriteView>) -> Seq<WriteView> {
        v
    }

    open spec fn decoding(s: Seq<u8>) -> Decoded<Seq<WriteView>> {
        list_decoding::<Write>(s)
    }

    open spec fn unread(s: Seq<u8>) -> Seq<u8> {
        list_unread::<Write>(s)
    }

    fn deserialize(input: &mut SimpleDeserializer) -> (r: Result<Self, Error>) {
        match decode_list::<Write>(input) {
            Ok(writes) => Ok(WriteSet { writes }),
            Err(e) => Err(e),
        }
    }

    proof fn lemma_decode_encode(v: Seq<WriteView>, rest: Seq<u8>) {
        lemma_list_decode_encode::<Write>(v, rest);
        assert(items_canonical::<Write>(v) =~= v);
    }

    proof fn lemma_encode_decode(s: Seq<u8>) {
        lemma_list_encode_decode::<Write>(s);
    }
}

} // verus!
