//! What the texts of values say.

use vstd::prelude::*;
use crate::address::{AccountAddress, Ed25519PublicKey, Ed25519Signature, HashValue};
use crate::argument::{ArgumentView, TransactionArgument};
use crate::commit::{AccountState, AccountStateBlob};
use crate::commit::{state_lines, states_text, AccountStateView};
use crate::error::Error;
use crate::list::version_text;
use crate::payload::PayloadView;
use crate::program::{Module, Program, Script};
use crate::program::{ProgramView, ScriptView};
use crate::show::Shown;
use crate::show::{items_shown, list_shown};
use crate::text::{decimal, digit, field_line, hex, indented, variant_lines};
use crate::time::duration_text;
use crate::time::{Duration, DurationView};
use crate::transaction::SignedTransaction;
use crate::transaction::{
    args_text, signed_client_text, signed_debug_text, RawTransactionView, SignedTransactionView,
};
use crate::write_set::{Write, WriteOp, WriteSet};
use crate::write_set::WriteView;

verus! {

// ---------------------------------------------------------------------------------------------
// Digits
// ---------------------------------------------------------------------------------------------

/// The digits are those of base sixteen, in lower case.
pub proof fn digits(d: nat)
    requires
        d < 16,
    ensures
        digit(d) == "0123456789abcdef"@[d as int],
{
    reveal_strlit("0123456789abcdef");
}

/// A number is written in base ten, its last digit last, and starts with no zero unless it is
/// zero.
pub proof fn numbers_in_base_ten(n: nat)
    ensures
        n < 10 ==> decimal(n) == seq![digit(n)],
        n >= 10 ==> decimal(n) == decimal(n / 10) + seq![digit(n % 10)],
        decimal(n).len() > 0,
        n > 0 ==> decimal(n)[0] != '0',
        forall|i: int| 0 <= i < decimal(n).len() ==> '0' <= #[trigger] decimal(n)[i] <= '9',
    decreases n,
{
    if n >= 10 {
        numbers_in_base_ten(n / 10);
        assert(decimal(n)[0] == decimal(n / 10)[0]);
        assert forall|i: int| 0 <= i < decimal(n).len() implies '0' <= #[trigger] decimal(n)[i]
            <= '9' by {
            if i < decimal(n / 10).len() {
                assert(decimal(n)[i] == decimal(n / 10)[i]);
            }
        }
    }
}

/// Bytes are written two digits each, in order, the higher digit first.
pub proof fn bytes_in_base_sixteen(s: Seq<u8>)
    ensures
        hex(s).len() == 2 * s.len(),
        forall|i: int| #![trigger s[i]]
            0 <= i < s.len() ==> hex(s)[2 * i] == digit(s[i] as nat / 16) && hex(s)[2 * i + 1]
                == digit(s[i] as nat % 16),
    decreases s.len(),
{
    if s.len() > 0 {
        let before = s.drop_last();
        bytes_in_base_sixteen(before);
        assert forall|i: int| #![trigger s[i]] 0 <= i < s.len() implies hex(s)[2 * i] == digit(
            s[i] as nat / 16,
        ) && hex(s)[2 * i + 1] == digit(s[i] as nat % 16) by {
            if i < before.len() {
                assert(before[i] == s[i]);
                assert(hex(s)[2 * i] == hex(before)[2 * i]);
                assert(hex(s)[2 * i + 1] == hex(before)[2 * i + 1]);
            }
        }
    }
}

// ---------------------------------------------------------------------------------------------
// Lines
// ---------------------------------------------------------------------------------------------

/// Four spaces go before the first character of each line, and nothing else is added.
pub proof fn lines_are_indented(s: Seq<char>, c: char)
    ensures
        indented(Seq::<char>::empty()) == Seq::<char>::empty(),
        s.len() == 0 || s.last() == '\n' ==> indented(s.push(c)) == indented(s) + "    "@ + seq![c],
        s.len() > 0 && s.last() != '\n' ==> indented(s.push(c)) == indented(s) + seq![c],
{
    assert(s.push(c).drop_last() =~= s);
}

/// A field is shown on lines of its own, by its name and its text; so is what a variant holds.
pub proof fn fields_and_variants_on_lines(name: Seq<char>, text: Seq<char>)
    ensures
        field_line(name, text) == indented(name + ": "@ + text + ",\n"@),
        variant_lines(name, text) == name + "(\n"@ + indented(text + ",\n"@) + ")"@,
{
}

// ---------------------------------------------------------------------------------------------
// Lists
// ---------------------------------------------------------------------------------------------

/// The items of a list are shown in order, with a comma and a space between two, in square
/// brackets.
pub proof fn lists_show_each_item<T: Shown>(s: Seq<T::V>, item: T::V)
    ensures
        items_shown::<T>(Seq::<T::V>::empty()) == Seq::<char>::empty(),
        s.len() == 0 ==> items_shown::<T>(s.push(item)) == T::shown(item),
        s.len() > 0 ==> items_shown::<T>(s.push(item)) == items_shown::<T>(s) + ", "@ + T::shown(
            item,
        ),
        list_shown::<T>(s) == "["@ + items_shown::<T>(s) + "]"@,
{
    assert(s.push(item).drop_last() =~= s);
}

// ---------------------------------------------------------------------------------------------
// Arguments
// ---------------------------------------------------------------------------------------------

/// An argument is shown by its kind and its value.
pub proof fn texts_of_arguments(v: ArgumentView)
    ensures
        v matches ArgumentView::U64(n) ==> v.text() == "{U64: "@ + decimal(n as nat) + "}"@,
        v matches ArgumentView::Address(a) ==> v.text() == "{ADDRESS: "@ + hex(a) + "}"@,
        v matches ArgumentView::Text(t) ==> v.text() == "{STRING: "@ + t + "}"@,
        v matches ArgumentView::ByteArray(b) ==> v.text() == "{ByteArray: 0x"@ + hex(b) + "}"@,
        TransactionArgument::shown(v) == v.text(),
{
}

/// Each further argument adds one line, with its text.
pub proof fn each_argument_adds_a_line(args: Seq<ArgumentView>, arg: ArgumentView)
    ensures
        args_text(Seq::<ArgumentView>::empty()) == Seq::<char>::empty(),
        args_text(args.push(arg)) == args_text(args) + "\n\t\t\t"@ + arg.text() + ","@,
{
    assert(args.push(arg).drop_last() =~= args);
}

/// The lines of arguments follow in the arguments' order.
pub proof fn arguments_are_shown_in_order(a: Seq<ArgumentView>, b: Seq<ArgumentView>)
    ensures
        args_text(a + b) == args_text(a) + args_text(b),
    decreases b.len(),
{
    if b.len() == 0 {
        assert(a + b =~= a);
    } else {
        arguments_are_shown_in_order(a, b.drop_last());
        assert((a + b).drop_last() =~= a + b.drop_last());
        assert((a + b).last() == b.last());
    }
}

/// Every argument has its line: behind those of the arguments before it and before those of the
/// arguments after it.
pub proof fn every_argument_is_shown(args: Seq<ArgumentView>, i: int)
    requires
        0 <= i < args.len(),
    ensures
        args_text(args) == args_text(args.take(i)) + "\n\t\t\t"@ + args[i].text() + ","@
            + args_text(args.skip(i + 1)),
{
    assert(args.take(i).push(args[i]) + args.skip(i + 1) =~= args);
    each_argument_adds_a_line(args.take(i), args[i]);
    arguments_are_shown_in_order(args.take(i).push(args[i]), args.skip(i + 1));
}

// ---------------------------------------------------------------------------------------------
// Transactions
// ---------------------------------------------------------------------------------------------

/// The arguments shown are all those that the program or the script is run with, and no others.
pub proof fn shown_arguments_are_those_of_the_code(v: PayloadView)
    ensures
        v matches PayloadView::Program(program) ==> v.shown_args() == program.args,
        v matches PayloadView::Script(script) ==> v.shown_args() == script.args,
        v is WriteSet || v is Module ==> v.shown_args() == Seq::<ArgumentView>::empty(),
{
}

/// A client is shown each field of a transaction by its name, in order, with all arguments.
pub proof fn texts_for_clients(v: RawTransactionView, name: Seq<char>, expiration_time: Seq<char>)
    ensures
        v.client_text(name, expiration_time) == "RawTransaction { \n\tsender: "@ + hex(v.sender)
            + ", \n\tsequence_number: "@ + decimal(v.sequence_number as nat)
            + ", \n\tpayload: {, \n\t\ttransaction: "@ + name + ", \n\t\targs: [ "@ + args_text(
            match v.payload {
                PayloadView::Program(program) => program.args,
                PayloadView::Script(script) => script.args,
                PayloadView::WriteSet(_) => Seq::empty(),
                PayloadView::Module(_) => Seq::empty(),
            },
        ) + " \n\t\t]\n\t}, \n\tmax_gas_amount: "@ + decimal(v.max_gas_amount as nat)
            + ", \n\tgas_unit_price: "@ + decimal(v.gas_unit_price as nat)
            + ", \n\texpiration_time: "@ + expiration_time + ", \n}"@,
{
}

/// A signed transaction is shown by the texts of its raw transaction, its key and its signature, in
/// that order.
pub proof fn texts_of_signed_transactions(
    v: SignedTransactionView,
    raw_txn: Seq<char>,
    public_key: Seq<char>,
    signature: Seq<char>,
)
    ensures
        signed_client_text(raw_txn, public_key, signature) == "SignedTransaction { \n raw_txn: "@
            + raw_txn + ", \n public_key: "@ + public_key + ", \n signature: "@ + signature
            + ", \n }"@,
        signed_debug_text(raw_txn, public_key, signature) == "SignedTransaction { \n { raw_txn: "@
            + raw_txn + ", \n public_key: "@ + public_key + ", \n signature: "@ + signature
            + ", \n } \n }"@,
        SignedTransaction::shown(v) == "SignedTransaction { \n { raw_txn: "@
            + v.raw_txn.pretty_text() + ", \n public_key: "@ + hex(v.public_key)
            + ", \n signature: "@ + hex(v.signature) + ", \n } \n }"@,
{
}

/// On several lines a transaction shows each field on lines of its own, in order.
pub proof fn texts_on_several_lines(v: RawTransactionView)
    ensures
        v.pretty_text() == "RawTransaction {\n"@ + indented("sender"@ + ": "@ + hex(v.sender)
            + ",\n"@) + indented(
            "sequence_number"@ + ": "@ + decimal(v.sequence_number as nat) + ",\n"@,
        ) + indented("payload"@ + ": "@ + v.payload.pretty_text() + ",\n"@) + indented(
            "max_gas_amount"@ + ": "@ + decimal(v.max_gas_amount as nat) + ",\n"@,
        ) + indented("gas_unit_price"@ + ": "@ + decimal(v.gas_unit_price as nat) + ",\n"@)
            + indented(
            "expiration_time"@ + ": "@ + duration_text(
                v.expiration_time.secs,
                v.expiration_time.nanos,
            ) + ",\n"@,
        ) + "}"@,
{
}

/// On several lines a payload shows its kind and what it holds.
pub proof fn texts_of_payloads(v: PayloadView)
    ensures
        v matches PayloadView::Program(program) ==> v.pretty_text() == "Program"@ + "(\n"@
            + indented(Program::shown(program) + ",\n"@) + ")"@,
        v matches PayloadView::WriteSet(write_set) ==> v.pretty_text() == "WriteSet"@ + "(\n"@
            + indented(WriteSet::shown(write_set) + ",\n"@) + ")"@,
        v matches PayloadView::Module(module) ==> v.pretty_text() == "Module"@ + "(\n"@ + indented(
            Module::shown(module) + ",\n"@,
        ) + ")"@,
        v matches PayloadView::Script(script) ==> v.pretty_text() == "Script"@ + "(\n"@ + indented(
            Script::shown(script) + ",\n"@,
        ) + ")"@,
{
}

/// Programs, scripts and modules show their code, and the first two all of their arguments; a
/// program shows its modules too.
pub proof fn texts_of_code(program: ProgramView, script: ScriptView, module: Seq<u8>)
    ensures
        Program::shown(program) == "Program { code: "@ + hex(program.code) + ", args: "@ + ("["@
            + items_shown::<TransactionArgument>(program.args) + "]"@) + ", modules: "@ + ("["@
            + items_shown::<Vec<u8>>(program.modules) + "]"@) + " }"@,
        Script::shown(script) == "Script { code: "@ + hex(script.code) + ", args: "@ + ("["@
            + items_shown::<TransactionArgument>(script.args) + "]"@) + " }"@,
        Module::shown(module) == "Module { code: "@ + hex(module) + " }"@,
{
}

/// A write set shows its writes, and a write its address, its path and what is written there.
pub proof fn texts_of_writes(writes: Seq<WriteView>, v: WriteView, value: Seq<u8>)
    ensures
        WriteSet::shown(writes) == "WriteSet { writes: "@ + ("["@ + items_shown::<Write>(writes)
            + "]"@) + " }"@,
        Write::shown(v) == "Write { address: "@ + hex(v.address) + ", path: "@ + hex(v.path)
            + ", op: "@ + WriteOp::shown(v.op) + " }"@,
        WriteOp::shown(Some(value)) == "Value("@ + hex(value) + ")"@,
        WriteOp::shown(None) == "Deletion"@,
{
}

/// What is bytes is shown as bytes are, and a duration as the standard library shows it.
pub proof fn texts_of_bytes(bytes: Seq<u8>, time: DurationView)
    ensures
        Vec::<u8>::shown(bytes) == hex(bytes),
        AccountAddress::shown(bytes) == hex(bytes),
        HashValue::shown(bytes) == hex(bytes),
        Ed25519PublicKey::shown(bytes) == hex(bytes),
        Ed25519Signature::shown(bytes) == hex(bytes),
        AccountStateBlob::shown(bytes) == hex(bytes),
        Duration::shown(time) == duration_text(time.secs, time.nanos),
{
}

// ---------------------------------------------------------------------------------------------
// Account states
// ---------------------------------------------------------------------------------------------

/// Account states are shown in braces, each as its address and its state: in one line, with a
/// comma and a space between two, or each on a line of its own.
pub proof fn texts_of_account_states(s: Seq<AccountStateView>, state: AccountStateView)
    ensures
        AccountState::shown(state) == hex(state.address) + ": "@ + hex(state.blob),
        state_lines(Seq::<AccountStateView>::empty()) == Seq::<char>::empty(),
        state_lines(s.push(state)) == state_lines(s) + indented(
            hex(state.address) + ": "@ + hex(state.blob) + ",\n"@,
        ),
        states_text(s, false) == "{"@ + items_shown::<AccountState>(s) + "}"@,
        s.len() > 0 ==> states_text(s, true) == "{\n"@ + state_lines(s) + "}"@,
        states_text(Seq::<AccountStateView>::empty(), true) == "{"@ + "}"@,
{
    assert(s.push(state).drop_last() =~= s);
    let nothing = Seq::<AccountStateView>::empty();
    assert("{"@ + items_shown::<AccountState>(nothing) + "}"@ =~= "{"@ + "}"@);
}

// ---------------------------------------------------------------------------------------------
// Versions and errors
// ---------------------------------------------------------------------------------------------

/// A version is shown as a number, and as `absent` where there is none.
pub proof fn texts_of_versions(version: u64)
    ensures
        version_text(Some(version)) == decimal(version as nat),
        version_text(None) == "absent"@,
{
}

/// Each error says what is wrong, and with which values.
pub proof fn texts_of_errors(e: Error)
    ensures
        Error::UnexpectedEnd.text() == "Unexpected end of input"@,
        Error::LengthLimit.text() == "Length exceeds the limit of the canonical format"@,
        Error::InvalidUtf8.text() == "Text is not valid UTF-8"@,
        Error::InvalidAddressLength.text() == "Account address has a wrong length"@,
        Error::InvalidHashLength.text() == "Hash has a wrong length"@,
        Error::InvalidPublicKeyLength.text() == "Public key has a wrong length"@,
        Error::InvalidSignatureLength.text() == "Signature has a wrong length"@,
        Error::InvalidEventKeyLength.text() == "Event key has a wrong length"@,
        Error::DuplicateAccount.text() == "account_states should have no duplication."@,
        Error::ProofForEmptyList.text() == "Some proof exists with 0 transactions"@,
        Error::ProofForSingleTransaction.text() == "Proof of last transaction exists with 1 transaction"@,
        Error::ProofForManyTransactions.text() == "Both proofs of first and last transactions must exist with 2+ transactions"@,
        Error::MissingFirstVersion.text() == "First transaction version is absent with 1+ transactions"@,
        e matches Error::UnknownPayloadType(n) ==> e.text() == "ParseError: Unable to decode TransactionPayloadType, found "@ + decimal(n as nat),
        e matches Error::UnknownArgumentType(n) ==> e.text() == "ParseError: Unable to decode TransactionArgument type, found "@ + decimal(n as nat),
        e matches Error::UnknownWriteOpType(n) ==> e.text() == "ParseError: Unable to decode WriteOp type, found "@ + decimal(n as nat),
        e matches Error::VersionMismatch { found_version, expected_version } ==> e.text() == "Version ("@ + decimal(found_version as nat) + ") is not expected ("@ + decimal(expected_version as nat) + ")."@,
        e matches Error::SenderMismatch { found_sender, expected_sender } ==> e.text() == "Sender ("@ + hex(found_sender@) + ") not expected ("@ + hex(expected_sender@) + ")."@,
        e matches Error::SequenceNumberMismatch { found_number, expected_number } ==> e.text() == "Sequence number ("@ + decimal(found_number as nat) + ") not expected ("@ + decimal(expected_number as nat) + ")."@,
        e matches Error::FirstVersionMismatch { found_first, expected_first } ==> e.text() == "First transaction version ("@ + version_text(found_first) + ") not expected ("@ + version_text(expected_first) + ")."@,
        e matches Error::InfoCountMismatch { transactions, infos } ==> e.text() == "Number of transactions ("@ + decimal(transactions as nat) + ") does not match the number of transaction infos ("@ + decimal(infos as nat) + ")."@,
        e matches Error::Rejected(reason) ==> e.text() == reason@,
{
}

} // verus!
