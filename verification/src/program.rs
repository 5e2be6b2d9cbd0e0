//! Code that a transaction runs or publishes.

use vstd::prelude::*;
use crate::address::vec_of;
use crate::argument::{ArgumentView, TransactionArgument};
use crate::canonical::{encode_bytes, SimpleDeserializer, MAX_LENGTH};
use crate::canonical::{
    bytes_decoding, bytes_encoding, bytes_unread, lemma_bytes_decode_encode,
    lemma_bytes_encode_decode, Decoded,
};
use crate::codec::{decode_list, encode_list, CanonicalDeserialize, CanonicalSerialize};
use crate::codec::{
    items_canonical, lemma_list_decode_encode, lemma_list_encode_decode, list_decoding,
    list_encodable, list_encoding, list_unread, list_written_part, views,
};
use crate::error::Error;
use crate::show::{append_list, write_shown, Shown};
use crate::show::{list_shown, text_in};
use crate::text::append_hex;
use crate::text::hex;

verus! {

// ---------------------------------------------------------------------------------------------
// Scripts
// ---------------------------------------------------------------------------------------------

/// A script and its arguments.
#[derive(PartialEq, Eq, Hash)]
pub struct Script {
    code: Vec<u8>,
    args: Vec<TransactionArgument>,
}

/// What a script holds.
pub ghost struct ScriptView {
    pub code: Seq<u8>,
    pub args: Seq<ArgumentView>,
}

impl View for Script {
    type V = ScriptView;

    closed spec fn view(&self) -> ScriptView {
        ScriptView { code: self.code@, args: views(self.args@) }
    }
}

impl Clone for Script {
    fn clone(&self) -> (r: Script)
        ensures
            r@ == self@,
    {
        let code = vec_of(self.code.as_slice());
        let args = self.args.clone();
        assert(views(args@) =~= views(self.args@));
        Script { code, args }
    }
}

impl Script {
    /// A script with its arguments.
    pub fn new(code: Vec<u8>, args: Vec<TransactionArgument>) -> (r: Script)
        ensures
            r@ == (ScriptView { code: code@, args: views(args@) }),
    {
        Script { code, args }
    }

    /// The code of the script.
    pub fn code(&self) -> (r: &[u8])
        ensures
            r@ == self@.code,
    {
        self.code.as_slice()
    }

    /// The arguments of the script.
    pub fn args(&self) -> (r: &[TransactionArgument])
        ensures
            views(r@) == self@.args,
    {
        self.args.as_slice()
    }
}

impl Shown for Script {
    open spec fn shown(v: ScriptView) -> Seq<char> {
        "Script { code: "@ + hex(v.code) + ", args: "@ + list_shown::<TransactionArgument>(v.args)
            + " }"@
    }

    fn append_shown(&self, out: &mut String) {
        out.append("Script { code: ");
        append_hex(out, self.code.as_slice());
        out.append(", args: ");
        append_list(out, self.args.as_slice());
        out.append(" }");
        assert(out@ =~= old(out)@ + Self::shown(self@));
    }
}

impl core::fmt::Debug for Script {
    fn fmt(&self, f: &mut core::fmt::Formatter<'_>) -> (r: core::fmt::Result)
        ensures
            r is Ok ==> text_in(*final(f)) == text_in(*old(f)) + Script::shown(self@),
    {
        write_shown(self, f)
    }
}

impl CanonicalSerialize for Script {
    open spec fn encodable(v: ScriptView) -> bool {
        v.code.len() <= MAX_LENGTH && list_encodable::<TransactionArgument>(v.args)
    }

    open spec fn encoding(v: ScriptView) -> Seq<u8> {
        bytes_encoding(v.code) + list_encoding::<TransactionArgument>(v.args)
    }

    open spec fn written_part(v: ScriptView) -> Seq<u8> {
        if v.code.len() > MAX_LENGTH {
            Seq::empty()
        } else {
            bytes_encoding(v.code) + list_written_part::<TransactionArgument>(v.args)
        }
    }

    fn serialize(&self, out: &mut Vec<u8>) -> (r: Result<(), Error>) {
        let ghost start = out@;
        match encode_bytes(self.code.as_slice(), out) {
            Ok(_) => {},
            Err(e) => {
                assert(out@ =~= start + Self::written_part(self@));
                return Err(e);
            },
        }
        let r = encode_list(&self.args, out);
        assert(r is Ok ==> out@ =~= start + Self::encoding(self@));
        assert(r is Err ==> out@ =~= start + Self::written_part(self@));
        r
    }
}

impl CanonicalDeserialize for Script {
    open spec fn canonical(v: ScriptView) -> ScriptView {
        v
    }

    open spec fn decoding(s: Seq<u8>) -> Decoded<ScriptView> {
        match bytes_decoding(s) {
            Err(e) => Err(e),
            Ok((code, s1)) => match list_decoding::<TransactionArgument>(s1) {
                Err(e) => Err(e),
                Ok((args, rest)) => Ok((ScriptView { code, args }, rest)),
            },
        }
    }

    open spec fn unread(s: Seq<u8>) -> Seq<u8> {
        match bytes_decoding(s) {
            Err(_) => bytes_unread(s),
            Ok((_, s1)) => list_unread::<TransactionArgument>(s1),
        }
    }

    fn deserialize(input: &mut SimpleDeserializer) -> (r: Result<Self, Error>) {
        let code = match input.decode_bytes() {
            Ok(code) => code,
            Err(e) => return Err(e),
        };
        match decode_list::<TransactionArgument>(input) {
            Ok(args) => Ok(Script { code, args }),
            Err(e) => Err(e),
        }
    }

    proof fn lemma_decode_encode(v: ScriptView, rest: Seq<u8>) {
        let s1 = list_encoding::<TransactionArgument>(v.args) + rest;
        assert(Self::encoding(v) + rest =~= bytes_encoding(v.code) + s1);
        lemma_bytes_decode_encode(v.code, s1);
        lemma_list_decode_encode::<TransactionArgument>(v.args, rest);
        assert(items_canonical::<TransactionArgument>(v.args) =~= v.args);
    }

    proof fn lemma_encode_decode(s: Seq<u8>) {
        if let Ok((v, rest)) = Self::decoding(s) {
            lemma_bytes_encode_decode(s);
            lemma_list_encode_decode::<TransactionArgument>(bytes_decoding(s)->Ok_0.1);
            assert(Self::encoding(v) + rest =~= bytes_encoding(v.code) + (list_encoding::<
                TransactionArgument,
            >(v.args) + rest));
        }
    }
}

// ---------------------------------------------------------------------------------------------
// Modules
// ---------------------------------------------------------------------------------------------

/// A module to publish.
#[derive(PartialEq, Eq, Hash)]
pub struct Module {
    code: Vec<u8>,
}

impl View for Module {
    type V = Seq<u8>;

    closed spec fn view(&self) -> Seq<u8> {
        self.code@
    }
}

impl Clone for Module {
    fn clone(&self) -> (r: Module)
        ensures
            r@ == self@,
    {
        Module { code: vec_of(self.code.as_slice()) }
    }
}

impl Module {
    /// The module with this code.
    pub fn new(code: Vec<u8>) -> (r: Module)
        ensures
            r@ == code@,
    {
        Module { code }
    }

    /// The code of the module.
    pub fn code(&self) -> (r: &[u8])
        ensures
            r@ == self@,
    {
        self.code.as_slice()
    }
}

impl Shown for Module {
    open spec fn shown(v: Seq<u8>) -> Seq<char> {
        "Module { code: "@ + hex(v) + " }"@
    }

    fn append_shown(&self, out: &mut String) {
        out.append("Module { code: ");
        append_hex(out, self.code.as_slice());
        out.append(" }");
        assert(out@ =~= old(out)@ + Self::shown(self@));
    }
}

impl core::fmt::Debug for Module {
    fn fmt(&self, f: &mut core::fmt::Formatter<'_>) -> (r: core::fmt::Result)
        ensures
            r is Ok ==> text_in(*final(f)) == text_in(*old(f)) + Module::shown(self@),
    {
        write_shown(self, f)
    }
}

impl CanonicalSerialize for Module {
    open spec fn encodable(v: Seq<u8>) -> bool {
        v.len() <= MAX_LENGTH
    }

    open spec fn encoding(v: Seq<u8>) -> Seq<u8> {
        bytes_encoding(v)
    }

    open spec fn written_part(v: Seq<u8>) -> Seq<u8> {
        Seq::empty()
    }

    fn serialize(&self, out: &mut Vec<u8>) -> (r: Result<(), Error>) {
        let ghost start = out@;
        assert(start + Seq::<u8>::empty() =~= start);
        encode_bytes(self.code.as_slice(), out)
    }
}

impl CanonicalDeserialize for Module {
    open spec fn canonical(v: Seq<u8>) -> Seq<u8> {
        v
    }

    open spec fn decoding(s: Seq<u8>) -> Decoded<Seq<u8>> {
        bytes_decoding(s)
    }

    open spec fn unread(s: Seq<u8>) -> Seq<u8> {
        bytes_unread(s)
    }

    fn deserialize(input: &mut SimpleDeserializer) -> (r: Result<Self, Error>) {
        match input.decode_bytes() {
            Ok(code) => Ok(Module { code }),
            Err(e) => Err(e),
        }
    }

    proof fn lemma_decode_encode(v: Seq<u8>, rest: Seq<u8>) {
        lemma_bytes_decode_encode(v, rest);
    }

    proof fn lemma_encode_decode(s: Seq<u8>) {
        lemma_bytes_encode_decode(s);
    }
}

// ---------------------------------------------------------------------------------------------
// Programs
// ---------------------------------------------------------------------------------------------

/// A script with its arguments, and the modules that it publishes.
#[derive(PartialEq, Eq, Hash)]
pub struct Program {
    code: Vec<u8>,
    args: Vec<TransactionArgument>,
    modules: Vec<Vec<u8>>,
}

/// What a program holds.
pub ghost struct ProgramView {
    pub code: Seq<u8>,
    pub args: Seq<ArgumentView>,
    pub modules: Seq<Seq<u8>>,
}

impl View for Program {
    type V = ProgramView;

    closed spec fn view(&self) -> ProgramView {
        ProgramView { code: self.code@, args: views(self.args@), modules: views(self.modules@) }
    }
}

impl Clone for Program {
    fn clone(&self) -> (r: Program)
        ensures
            r@ == self@,
    {
        let code = vec_of(self.code.as_slice());
        let args = self.args.clone();
        assert(views(args@) =~= views(self.args@));
        let mut modules: Vec<Vec<u8>> = Vec::new();
        let mut i: usize = 0;
        while i < self.modules.len()
            invariant
                i <= self.modules.len(),
                modules@.len() == i,
                forall|j: int| 0 <= j < i ==> (#[trigger] modules@[j])@ == self.modules@[j]@,
            decreases self.modules.len() - i,
        {
            modules.push(vec_of(self.modules[i].as_slice()));
            i = i + 1;
        }
        assert(views(modules@) =~= views(self.modules@));
        Program { code, args, modules }
    }
}

impl Program {
    /// A program.
    pub fn new(
        code: Vec<u8>,
        modules: Vec<Vec<u8>>,
        args: Vec<TransactionArgument>,
    ) -> (r: Program)
        ensures
            r@ == (ProgramView { code: code@, args: views(args@), modules: views(modules@) }),
    {
        Program { code, args, modules }
    }

    /// The code of the script.
    pub fn code(&self) -> (r: &[u8])
        ensures
            r@ == self@.code,
    {
        self.code.as_slice()
    }

    /// The arguments of the script.
    pub fn args(&self) -> (r: &[TransactionArgument])
        ensures
            views(r@) == self@.args,
    {
        self.args.as_slice()
    }

    /// The modules that are published.
    pub fn modules(&self) -> (r: &[Vec<u8>])
        ensures
            views(r@) == self@.modules,
    {
        self.modules.as_slice()
    }
}

impl Shown for Program {
    open spec fn shown(v: ProgramView) -> Seq<char> {
        "Program { code: "@ + hex(v.code) + ", args: "@ + list_shown::<TransactionArgument>(v.args)
            + ", modules: "@ + list_shown::<Vec<u8>>(v.modules) + " }"@
    }

    fn append_shown(&self, out: &mut String) {
        out.append("Program { code: ");
        append_hex(out, self.code.as_slice());
        out.append(", args: ");
        append_list(out, self.args.as_slice());
        out.append(", modules: ");
        append_list(out, self.modules.as_slice());
        out.append(" }");
        assert(out@ =~= old(out)@ + Self::shown(self@));
    }
}

impl core::fmt::Debug for Program {
    fn fmt(&self, f: &mut core::fmt::Formatter<'_>) -> (r: core::fmt::Result)
        ensures
            r is Ok ==> text_in(*final(f)) == text_in(*old(f)) + Program::shown(self@),
    {
        write_shown(self, f)
    }
}

impl CanonicalSerialize for Program {
    open spec fn encodable(v: ProgramView) -> bool {
        v.code.len() <= MAX_LENGTH && list_encodable::<TransactionArgument>(v.args)
            && list_encodable::<Vec<u8>>(v.modules)
    }

    open spec fn encoding(v: ProgramView) -> Seq<u8> {
        bytes_encoding(v.code) + list_encoding::<TransactionArgument>(v.args) + list_encoding::<
            Vec<u8>,
        >(v.modules)
    }

    open spec fn written_part(v: ProgramView) -> Seq<u8> {
        if v.code.len() > MAX_LENGTH {
            Seq::empty()
        } else if !list_encodable::<TransactionArgument>(v.args) {
            bytes_encoding(v.code) + list_written_part::<TransactionArgument>(v.args)
        } else {
            bytes_encoding(v.code) + list_encoding::<TransactionArgument>(v.args)
                + list_written_part::<Vec<u8>>(v.modules)
        }
    }

    fn serialize(&self, out: &mut Vec<u8>) -> (r: Result<(), Error>) {
        let ghost start = out@;
        match encode_bytes(self.code.as_slice(), out) {
            Ok(_) => {},
            Err(e) => {
                assert(out@ =~= start + Self::written_part(self@));
                return Err(e);
            },
        }
        match encode_list(&self.args, out) {
            Ok(_) => {},
            Err(e) => {
                assert(out@ =~= start + Self::written_part(self@));
                return Err(e);
            },
        }
        let r = encode_list(&self.modules, out);
        assert(r is Ok ==> out@ =~= start + Self::encoding(self@));
        assert(r is Err ==> out@ =~= start + Self::written_part(self@));
        r
    }
}

impl CanonicalDeserialize for Program {
    open spec fn canonical(v: ProgramView) -> ProgramView {
        v
    }

    open spec fn decoding(s: Seq<u8>) -> Decoded<ProgramView> {
        match bytes_decoding(s) {
            Err(e) => Err(e),
            Ok((code, s1)) => match list_decoding::<TransactionArgument>(s1) {
                Err(e) => Err(e),
                Ok((args, s2)) => match list_decoding::<Vec<u8>>(s2) {
                    Err(e) => Err(e),
                    Ok((modules, rest)) => Ok((ProgramView { code, args, modules }, rest)),
                },
            },
        }
    }

    open spec fn unread(s: Seq<u8>) -> Seq<u8> {
        match bytes_decoding(s) {
            Err(_) => bytes_unread(s),
            Ok((_, s1)) => match list_decoding::<TransactionArgument>(s1) {
                Err(_) => list_unread::<TransactionArgument>(s1),
                Ok((_, s2)) => list_unread::<Vec<u8>>(s2),
            },
        }
    }

    fn deserialize(input: &mut SimpleDeserializer) -> (r: Result<Self, Error>) {
        let code = match input.decode_bytes() {
            Ok(code) => code,
            Err(e) => return Err(e),
        };
        let args = match decode_list::<TransactionArgument>(input) {
            Ok(args) => args,
            Err(e) => return Err(e),
        };
        match decode_list::<Vec<u8>>(input) {
            Ok(modules) => Ok(Program { code, args, modules }),
            Err(e) => Err(e),
        }
    }

    proof fn lemma_decode_encode(v: ProgramView, rest: Seq<u8>) {
        let s2 = list_encoding::<Vec<u8>>(v.modules) + rest;
        let s1 = list_encoding::<TransactionArgument>(v.args) + s2;
        assert(Self::encoding(v) + rest =~= bytes_encoding(v.code) + s1);
        lemma_bytes_decode_encode(v.code, s1);
        lemma_list_decode_encode::<TransactionArgument>(v.args, s2);
        assert(items_canonical::<TransactionArgument>(v.args) =~= v.args);
        lemma_list_decode_encode::<Vec<u8>>(v.modules, rest);
        assert(items_canonical::<Vec<u8>>(v.modules) =~= v.modules);
    }

    proof fn lemma_encode_decode(s: Seq<u8>) {
        if let Ok((v, rest)) = Self::decoding(s) {
            lemma_bytes_encode_decode(s);
            let s1 = bytes_decoding(s)->Ok_0.1;
            lemma_list_encode_decode::<TransactionArgument>(s1);
            let s2 = list_decoding::<TransactionArgument>(s1)->Ok_0.1;
            lemma_list_encode_decode::<Vec<u8>>(s2);
            assert(Self::encoding(v) + rest =~= bytes_encoding(v.code) + (list_encoding::<
                TransactionArgument,
            >(v.args) + (list_encoding::<Vec<u8>>(v.modules) + rest)));
        }
    }
}

} // verus!
