//! What a transaction does.

use vstd::prelude::*;
use crate::canonical::{encode_u32, SimpleDeserializer};
use crate::canonical::{
    lemma_u32_decode_encode, lemma_u32_encode_decode, u32_bytes, u32_decoding, Decoded,
};
use crate::codec::{CanonicalDeserialize, CanonicalSerialize};
use crate::error::Error;
use crate::program::{Module, Program, Script};
use crate::show::{shown_text, Shown};
use crate::text::append_variant;
use crate::text::variant_lines;
use crate::program::{ProgramView, ScriptView};
use crate::write_set::WriteSet;
use crate::write_set::WriteView;

verus! {

/// The kinds of payload, as the canonical format numbers them.
#[derive(Debug, Clone, Copy, PartialEq, Eq, Hash, Structural)]
pub enum TransactionPayloadType {
    Program,
    WriteSet,
    Script,
    Module,
}

impl TransactionPayloadType {
    /// The number of the kind.
    pub open spec fn number(self) -> u32 {
        match self {
            TransactionPayloadType::Program => 0,
            TransactionPayloadType::WriteSet => 1,
            TransactionPayloadType::Script => 2,
            TransactionPayloadType::Module => 3,
        }
    }

    /// The number of the kind.
    pub fn to_u32(self) -> (r: u32)
        ensures
            r == self.number(),
    {
        match self {
            TransactionPayloadType::Program => 0,
            TransactionPayloadType::WriteSet => 1,
            TransactionPayloadType::Script => 2,
            TransactionPayloadType::Module => 3,
        }
    }

    /// The kind with this number, if there is one.
    pub fn from_u32(value: u32) -> (r: Option<TransactionPayloadType>)
        ensures
            r matches Some(kind) ==> kind.number() == value,
            r is None ==> forall|kind: TransactionPayloadType| kind.number() != value,
    {
        match value {
            0 => Some(TransactionPayloadType::Program),
            1 => Some(TransactionPayloadType::WriteSet),
            2 => Some(TransactionPayloadType::Script),
            3 => Some(TransactionPayloadType::Module),
            _ => None,
        }
    }
}

/// What a transaction does.
#[derive(Debug, PartialEq, Eq, Hash)]
pub enum TransactionPayload {
    /// A regular programmatic transaction that is executed by the VM.
    Program(Program),
    WriteSet(WriteSet),
    /// A transaction that publishes code.
    Module(Module),
    /// A transaction that executes code.
    Script(Script),
}

/// What a payload holds.
pub ghost enum PayloadView {
    Program(ProgramView),
    WriteSet(Seq<WriteView>),
    Module(Seq<u8>),
    Script(ScriptView),
}

impl View for TransactionPayload {
    type V = PayloadView;

    open spec fn view(&self) -> PayloadView {
        match self {
            TransactionPayload::Program(program) => PayloadView::Program(program@),
            TransactionPayload::WriteSet(write_set) => PayloadView::WriteSet(write_set@),
            TransactionPayload::Module(module) => PayloadView::Module(module@),
            TransactionPayload::Script(script) => PayloadView::Script(script@),
        }
    }
}

impl Clone for TransactionPayload {
    fn clone(&self) -> (r: TransactionPayload)
        ensures
            r@ == self@,
    {
        match self {
            TransactionPayload::Program(program) => TransactionPayload::Program(program.clone()),
            TransactionPayload::WriteSet(write_set) => TransactionPayload::WriteSet(
                write_set.clone(),
            ),
            TransactionPayload::Module(module) => TransactionPayload::Module(module.clone()),
            TransactionPayload::Script(script) => TransactionPayload::Script(script.clone()),
        }
    }
}

impl PayloadView {
    /// The kind of the payload.
    pub open spec fn kind(self) -> TransactionPayloadType {
        match self {
            PayloadView::Program(_) => TransactionPayloadType::Program,
            PayloadView::WriteSet(_) => TransactionPayloadType::WriteSet,
            PayloadView::Module(_) => TransactionPayloadType::Module,
            PayloadView::Script(_) => TransactionPayloadType::Script,
        }
    }

    /// The encoding of what stands behind the number of the kind.
    pub open spec fn body(self) -> Seq<u8> {
        match self {
            PayloadView::Program(program) => Program::encoding(program),
            PayloadView::WriteSet(write_set) => WriteSet::encoding(write_set),
            PayloadView::Module(module) => Module::encoding(module),
            PayloadView::Script(script) => Script::encoding(script),
        }
    }
}

impl PayloadView {
    /// The payload as it is shown on several lines.
    pub open spec fn pretty_text(self) -> Seq<char> {
        match self {
            PayloadView::Program(program) => variant_lines("Program"@, Program::shown(program)),
            PayloadView::WriteSet(write_set) => variant_lines(
                "WriteSet"@,
                WriteSet::shown(write_set),
            ),
            PayloadView::Module(module) => variant_lines("Module"@, Module::shown(module)),
            PayloadView::Script(script) => variant_lines("Script"@, Script::shown(script)),
        }
    }
}

impl TransactionPayload {
    /// The payload as it is shown on several lines.
    pub fn pretty_text(&self) -> (r: String)
        ensures
            r@ == self@.pretty_text(),
    {
        let mut out = String::new();
        match self {
            TransactionPayload::Program(program) => {
                append_variant(&mut out, "Program", shown_text(program).as_str());
            },
            TransactionPayload::WriteSet(write_set) => {
                append_variant(&mut out, "WriteSet", shown_text(write_set).as_str());
            },
            TransactionPayload::Module(module) => {
                append_variant(&mut out, "Module", shown_text(module).as_str());
            },
            TransactionPayload::Script(script) => {
                append_variant(&mut out, "Script", shown_text(script).as_str());
            },
        }
        assert(out@ =~= self@.pretty_text());
        out
    }
}

impl CanonicalSerialize for TransactionPayload {
    open spec fn encodable(v: PayloadView) -> bool {
        match v {
            PayloadView::Program(program) => Program::encodable(program),
            PayloadView::WriteSet(write_set) => WriteSet::encodable(write_set),
            PayloadView::Module(module) => Module::encodable(module),
            PayloadView::Script(script) => Script::encodable(script),
        }
    }

    open spec fn encoding(v: PayloadView) -> Seq<u8> {
        u32_bytes(v.kind().number()) + v.body()
    }

    open spec fn written_part(v: PayloadView) -> Seq<u8> {
        u32_bytes(v.kind().number()) + match v {
            PayloadView::Program(program) => Program::written_part(program),
            PayloadView::WriteSet(write_set) => WriteSet::written_part(write_set),
            PayloadView::Module(module) => Module::written_part(module),
            PayloadView::Script(script) => Script::written_part(script),
        }
    }

    fn serialize(&self, out: &mut Vec<u8>) -> (r: Result<(), Error>) {
        let ghost start = out@;
        let r = match self {
            TransactionPayload::Program(program) => {
                encode_u32(TransactionPayloadType::Program.to_u32(), out);
                program.serialize(out)
            },
            TransactionPayload::WriteSet(write_set) => {
                encode_u32(TransactionPayloadType::WriteSet.to_u32(), out);
                write_set.serialize(out)
            },
            TransactionPayload::Script(script) => {
                encode_u32(TransactionPayloadType::Script.to_u32(), out);
                script.serialize(out)
            },
            TransactionPayload::Module(module) => {
                encode_u32(TransactionPayloadType::Module.to_u32(), out);
                module.serialize(out)
            },
        };
        assert(r is Ok ==> out@ =~= start + Self::encoding(self@));
        assert(r is Err ==> out@ =~= start + Self::written_part(self@));
        r
    }
}

impl CanonicalDeserialize for TransactionPayload {
    open spec fn canonical(v: PayloadView) -> PayloadView {
        v
    }

    open spec fn decoding(s: Seq<u8>) -> Decoded<PayloadView> {
        match u32_decoding(s) {
            Err(e) => Err(e),
            Ok((tag, after)) => if tag == TransactionPayloadType::Program.number() {
                match Program::decoding(after) {
                    Err(e) => Err(e),
                    Ok((program, rest)) => Ok((PayloadView::Program(program), rest)),
                }
            } else if tag == TransactionPayloadType::WriteSet.number() {
                match WriteSet::decoding(after) {
                    Err(e) => Err(e),
                    Ok((write_set, rest)) => Ok((PayloadView::WriteSet(write_set), rest)),
                }
            } else if tag == TransactionPayloadType::Script.number() {
                match Script::decoding(after) {
                    Err(e) => Err(e),
                    Ok((script, rest)) => Ok((PayloadView::Script(script), rest)),
                }
            } else if tag == TransactionPayloadType::Module.number() {
                match Module::decoding(after) {
                    Err(e) => Err(e),
                    Ok((module, rest)) => Ok((PayloadView::Module(module), rest)),
                }
            } else {
                Err(Error::UnknownPayloadType(tag))
            },
        }
    }

    open spec fn unread(s: Seq<u8>) -> Seq<u8> {
        match u32_decoding(s) {
            Err(_) => s,
            Ok((tag, after)) => if tag == TransactionPayloadType::Program.number() {
                Program::unread(after)
            } else if tag == TransactionPayloadType::WriteSet.number() {
                WriteSet::unread(after)
            } else if tag == TransactionPayloadType::Script.number() {
                Script::unread(after)
            } else if tag == TransactionPayloadType::Module.number() {
                Module::unread(after)
            } else {
                after
            },
        }
    }

    fn deserialize(input: &mut SimpleDeserializer) -> (r: Result<Self, Error>) {
        let decoded_payload_type: u32 = match input.decode_u32() {
            Ok(tag) => tag,
            Err(e) => return Err(e),
        };
        match TransactionPayloadType::from_u32(decoded_payload_type) {
            Some(TransactionPayloadType::Program) => match Program::deserialize(input) {
                Ok(program) => Ok(TransactionPayload::Program(program)),
                Err(e) => Err(e),
            },
            Some(TransactionPayloadType::WriteSet) => match WriteSet::deserialize(input) {
                Ok(write_set) => Ok(TransactionPayload::WriteSet(write_set)),
                Err(e) => Err(e),
            },
            Some(TransactionPayloadType::Script) => match Script::deserialize(input) {
                Ok(script) => Ok(TransactionPayload::Script(script)),
                Err(e) => Err(e),
            },
            Some(TransactionPayloadType::Module) => match Module::deserialize(input) {
                Ok(module) => Ok(TransactionPayload::Module(module)),
                Err(e) => Err(e),
            },
            None => Err(Error::UnknownPayloadType(decoded_payload_type)),
        }
    }

    proof fn lemma_decode_encode(v: PayloadView, rest: Seq<u8>) {
        let after = v.body() + rest;
        assert(Self::encoding(v) + rest =~= u32_bytes(v.kind().number()) + after);
        lemma_u32_decode_encode(v.kind().number(), after);
        match v {
            PayloadView::Program(program) => Program::lemma_decode_encode(program, rest),
            PayloadView::WriteSet(write_set) => WriteSet::lemma_decode_encode(write_set, rest),
            PayloadView::Module(module) => Module::lemma_decode_encode(module, rest),
            PayloadView::Script(script) => Script::lemma_decode_encode(script, rest),
        }
    }

    proof fn lemma_encode_decode(s: Seq<u8>) {
        if let Ok((v, rest)) = Self::decoding(s) {
            lemma_u32_encode_decode(s);
            let after = u32_decoding(s)->Ok_0.1;
            match v {
                PayloadView::Program(_) => Program::lemma_encode_decode(after),
                PayloadView::WriteSet(_) => WriteSet::lemma_encode_decode(after),
                PayloadView::Module(_) => Module::lemma_encode_decode(after),
                PayloadView::Script(_) => Script::lemma_encode_decode(after),
            }
            assert(Self::encoding(v) + rest =~= u32_bytes(v.kind().number()) + (v.body() + rest));
        }
    }
}

} // verus!
