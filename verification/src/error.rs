//! What can go wrong when a transaction is read, checked or written.

use vstd::prelude::*;
use crate::address::AccountAddress;
use crate::list::TransactionListWithProof;
use crate::list::version_text;
use crate::text::{append_decimal, append_hex};
use crate::text::{decimal, hex};

verus! {

/// Why an operation of this library was refused.
#[derive(Debug, PartialEq, Eq)]
pub enum Error {
    /// The bytes end before the value that they encode does.
    UnexpectedEnd,
    /// A list or a byte string is longer than the canonical format allows.
    LengthLimit,
    /// No kind of payload has this number.
    UnknownPayloadType(u32),
    /// No kind of transaction argument has this number.
    UnknownArgumentType(u32),
    /// No kind of write has this number.
    UnknownWriteOpType(u32),
    /// A text is not valid UTF-8.
    InvalidUtf8,
    /// An account address of another length than 32 bytes.
    InvalidAddressLength,
    /// A hash of another length than 32 bytes.
    InvalidHashLength,
    /// A public key of another length than 32 bytes.
    InvalidPublicKeyLength,
    /// A signature of another length than 64 bytes.
    InvalidSignatureLength,
    /// An event key of another length than 40 bytes.
    InvalidEventKeyLength,
    /// Two account states in one message are for the same account.
    DuplicateAccount,
    /// A transaction list without as many infos as transactions.
    InfoCountMismatch { transactions: usize, infos: usize },
    /// A list of no transactions that comes with a proof or a version.
    ProofForEmptyList,
    /// A list of one transaction without exactly the first proof and a version.
    ProofForSingleTransaction,
    /// A list of several transactions that lacks a proof or the version.
    ProofForManyTransactions,
    /// The version that a proof carries is not the expected one.
    VersionMismatch { found_version: u64, expected_version: u64 },
    /// The sender is not the expected one.
    SenderMismatch { found_sender: AccountAddress, expected_sender: AccountAddress },
    /// The sequence number is not the expected one.
    SequenceNumberMismatch { found_number: u64, expected_number: u64 },
    /// A list does not start at the expected version.
    FirstVersionMismatch { found_first: Option<u64>, expected_first: Option<u64> },
    /// A list of transactions without the version of the first one.
    MissingFirstVersion,
    /// A signature, a proof or a status was refused by the code that checks it.
    Rejected(String),
}

impl Error {
    /// The error in words.
    pub open spec fn text(self) -> Seq<char> {
        match self {
            Error::UnexpectedEnd => "Unexpected end of input"@,
            Error::LengthLimit => "Length exceeds the limit of the canonical format"@,
            Error::InvalidUtf8 => "Text is not valid UTF-8"@,
            Error::InvalidAddressLength => "Account address has a wrong length"@,
            Error::InvalidHashLength => "Hash has a wrong length"@,
            Error::InvalidPublicKeyLength => "Public key has a wrong length"@,
            Error::InvalidSignatureLength => "Signature has a wrong length"@,
            Error::InvalidEventKeyLength => "Event key has a wrong length"@,
            Error::DuplicateAccount => "account_states should have no duplication."@,
            Error::ProofForEmptyList => "Some proof exists with 0 transactions"@,
            Error::ProofForSingleTransaction => "Proof of last transaction exists with 1 transaction"@,
            Error::ProofForManyTransactions => "Both proofs of first and last transactions must exist with 2+ transactions"@,
            Error::MissingFirstVersion => "First transaction version is absent with 1+ transactions"@,
            Error::UnknownPayloadType(n) => "ParseError: Unable to decode TransactionPayloadType, found "@ + decimal(n as nat),
            Error::UnknownArgumentType(n) => "ParseError: Unable to decode TransactionArgument type, found "@ + decimal(n as nat),
            Error::UnknownWriteOpType(n) => "ParseError: Unable to decode WriteOp type, found "@ + decimal(n as nat),
            Error::VersionMismatch { found_version, expected_version } => "Version ("@ + decimal(found_version as nat) + ") is not expected ("@ + decimal(expected_version as nat) + ")."@,
            Error::SenderMismatch { found_sender, expected_sender } => "Sender ("@ + hex(found_sender@) + ") not expected ("@ + hex(expected_sender@) + ")."@,
            Error::SequenceNumberMismatch { found_number, expected_number } => "Sequence number ("@ + decimal(found_number as nat) + ") not expected ("@ + decimal(expected_number as nat) + ")."@,
            Error::FirstVersionMismatch { found_first, expected_first } => "First transaction version ("@ + version_text(found_first) + ") not expected ("@ + version_text(expected_first) + ")."@,
            Error::InfoCountMismatch { transactions, infos } => "Number of transactions ("@ + decimal(transactions as nat) + ") does not match the number of transaction infos ("@ + decimal(infos as nat) + ")."@,
            Error::Rejected(reason) => reason@,
        }
    }

    /// The error in words.
    pub fn message(&self) -> (r: String)
        ensures
            r@ == self.text(),
    {
        let mut out = String::new();
        match self {
            Error::UnexpectedEnd => out.append("Unexpected end of input"),
            Error::LengthLimit => out.append("Length exceeds the limit of the canonical format"),
            Error::InvalidUtf8 => out.append("Text is not valid UTF-8"),
            Error::InvalidAddressLength => out.append("Account address has a wrong length"),
            Error::InvalidHashLength => out.append("Hash has a wrong length"),
            Error::InvalidPublicKeyLength => out.append("Public key has a wrong length"),
            Error::InvalidSignatureLength => out.append("Signature has a wrong length"),
            Error::InvalidEventKeyLength => out.append("Event key has a wrong length"),
            Error::DuplicateAccount => out.append("account_states should have no duplication."),
            Error::ProofForEmptyList => out.append("Some proof exists with 0 transactions"),
            Error::ProofForSingleTransaction => out.append("Proof of last transaction exists with 1 transaction"),
            Error::ProofForManyTransactions => out.append("Both proofs of first and last transactions must exist with 2+ transactions"),
            Error::MissingFirstVersion => out.append(
                "First transaction version is absent with 1+ transactions",
            ),
            Error::UnknownPayloadType(n) => {
                out.append("ParseError: Unable to decode TransactionPayloadType, found ");
                append_decimal(&mut out, *n as u64);
            },
            Error::UnknownArgumentType(n) => {
                out.append("ParseError: Unable to decode TransactionArgument type, found ");
                append_decimal(&mut out, *n as u64);
            },
            Error::UnknownWriteOpType(n) => {
                out.append("ParseError: Unable to decode WriteOp type, found ");
                append_decimal(&mut out, *n as u64);
            },
            Error::VersionMismatch { found_version, expected_version } => {
                out.append("Version (");
                append_decimal(&mut out, *found_version);
                out.append(") is not expected (");
                append_decimal(&mut out, *expected_version);
                out.append(").");
            },
            Error::SenderMismatch { found_sender, expected_sender } => {
                out.append("Sender (");
                append_hex(&mut out, found_sender.as_bytes());
                out.append(") not expected (");
                append_hex(&mut out, expected_sender.as_bytes());
                out.append(").");
            },
            Error::SequenceNumberMismatch { found_number, expected_number } => {
                out.append("Sequence number (");
                append_decimal(&mut out, *found_number);
                out.append(") not expected (");
                append_decimal(&mut out, *expected_number);
                out.append(").");
            },
            Error::FirstVersionMismatch { found_first, expected_first } => {
                out.append("First transaction version (");
                out.append(TransactionListWithProof::display_option_version(*found_first).as_str());
                out.append(") not expected (");
                out.append(TransactionListWithProof::display_option_version(*expected_first).as_str());
                out.append(").");
            },
            Error::InfoCountMismatch { transactions, infos } => {
                out.append("Number of transactions (");
                append_decimal(&mut out, *transactions as u64);
                out.append(") does not match the number of transaction infos (");
                append_decimal(&mut out, *infos as u64);
                out.append(").");
            },
            Error::Rejected(reason) => out.append(reason.as_str()),
        }
        assert(out@ =~= self.text());
        out
    }
}

} // verus!
