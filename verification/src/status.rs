//! How the execution of a transaction ended.

use vstd::prelude::*;
use crate::convert::{FromProto, IntoProto};
use crate::error::Error;

verus! {

/// The number of a status.
#[derive(Debug, Clone, Copy, PartialEq, Eq, Hash, Structural)]
pub struct StatusCode {
    pub code: u64,
}

impl View for StatusCode {
    type V = StatusCode;

    open spec fn view(&self) -> StatusCode {
        *self
    }
}

impl FromProto for StatusCode {
    type ProtoType = u64;

    open spec fn read(object: u64) -> Result<StatusCode, Error> {
        Ok(StatusCode { code: object })
    }

    /// Every number is that of a status. Where fewer are, say what became of the number to
    /// `TransactionInfo::from_proto_with_status` and `TransactionToCommit::from_proto_with_status`.
    fn from_proto(object: u64) -> (r: Result<Self, Error>) {
        let ghost message = object@;
        Ok(StatusCode { code: object })
    }
}

impl IntoProto for StatusCode {
    type ProtoType = u64;

    open spec fn written(v: StatusCode) -> u64 {
        v.code
    }

    /// Reading the number gives back the status.
    fn into_proto(self) -> (r: u64)
        ensures
            StatusCode::read(r) == Ok::<StatusCode, Error>(self),
    {
        let ghost message = self.code@;
        self.code
    }
}

/// The classes of status.
#[derive(Debug, Clone, Copy, PartialEq, Eq, Hash, Structural)]
pub enum StatusType {
    Validation,
    Verification,
    InvariantViolation,
    Deserialization,
    Execution,
    Unknown,
}

impl StatusCode {
    /// The class that a status belongs to: one for each thousand of numbers, up to five thousand.
    pub open spec fn class(self) -> StatusType {
        if self.code < 1000 {
            StatusType::Validation
        } else if self.code < 2000 {
            StatusType::Verification
        } else if self.code < 3000 {
            StatusType::InvariantViolation
        } else if self.code < 4000 {
            StatusType::Deserialization
        } else if self.code < 5000 {
            StatusType::Execution
        } else {
            StatusType::Unknown
        }
    }
}

/// A status of the VM: its number and what more is known.
#[derive(Debug, PartialEq, Eq)]
pub struct VMStatus {
    pub major_status: StatusCode,
    pub sub_status: Option<u64>,
    pub message: Option<String>,
}

impl Clone for VMStatus {
    fn clone(&self) -> (r: VMStatus)
        ensures
            r == *self,
    {
        VMStatus {
            major_status: self.major_status,
            sub_status: self.sub_status,
            message: match &self.message {
                Some(message) => Some(message.clone()),
                None => None,
            },
        }
    }
}

impl VMStatus {
    /// A status with nothing more known.
    pub fn new(major_status: StatusCode) -> (r: VMStatus)
        ensures
            r == (VMStatus { major_status, sub_status: None, message: None }),
    {
        VMStatus { major_status, sub_status: None, message: None }
    }

    /// The class of the status.
    pub fn status_type(&self) -> (r: StatusType)
        ensures
            r == self.major_status.class(),
    {
        let code: u64 = self.major_status.code;
        if code < 1000 {
            StatusType::Validation
        } else if code < 2000 {
            StatusType::Verification
        } else if code < 3000 {
            StatusType::InvariantViolation
        } else if code < 4000 {
            StatusType::Deserialization
        } else if code < 5000 {
            StatusType::Execution
        } else {
            StatusType::Unknown
        }
    }
}

/// The status of executing a transaction. The VM decides whether or not we should `Keep` the
/// transaction output or `Discard` it based upon the execution of the transaction. We wrap these
/// decisions around a `VMStatus` that provides more detail on the final execution state of the VM.
#[derive(Debug, PartialEq, Eq)]
pub enum TransactionStatus {
    /// Discard the transaction output
    Discard(VMStatus),
    /// Keep the transaction output
    Keep(VMStatus),
}

impl Clone for TransactionStatus {
    fn clone(&self) -> (r: TransactionStatus)
        ensures
            r == *self,
    {
        match self {
            TransactionStatus::Discard(vm_status) => TransactionStatus::Discard(vm_status.clone()),
            TransactionStatus::Keep(vm_status) => TransactionStatus::Keep(vm_status.clone()),
        }
    }
}

impl StatusType {
    /// Whether a transaction that ends in a status of this class is left out of the ledger.
    ///
    /// - Any unknown error should be discarded.
    /// - Any error that is a validation status (i.e. an error arising from the prologue) causes
    ///   the transaction to not be included.
    /// - If the VM encountered an invalid internal state, we should discard the transaction.
    /// - A transaction that publishes code that cannot be verified is currently not charged.
    ///   Therefore the transaction can be excluded.
    /// - Even if we are unable to decode the transaction, there should be a charge made to that
    ///   user's account for the gas fees related to decoding, running the prologue etc.
    /// - Any error encountered during the execution of the transaction will charge gas.
    pub open spec fn discards(self) -> bool {
        match self {
            StatusType::Unknown => true,
            StatusType::Validation => true,
            StatusType::InvariantViolation => true,
            StatusType::Verification => true,
            StatusType::Deserialization => false,
            StatusType::Execution => false,
        }
    }
}

impl TransactionStatus {
    /// The status of the VM within.
    pub open spec fn status(self) -> VMStatus {
        match self {
            TransactionStatus::Discard(vm_status) => vm_status,
            TransactionStatus::Keep(vm_status) => vm_status,
        }
    }

    /// The status of the VM within.
    pub fn vm_status(&self) -> (r: &VMStatus)
        ensures
            *r == self.status(),
    {
        match self {
            TransactionStatus::Discard(vm_status) => vm_status,
            TransactionStatus::Keep(vm_status) => vm_status,
        }
    }
}

impl From<VMStatus> for TransactionStatus {
    fn from(vm_status: VMStatus) -> (r: TransactionStatus) {
        let should_discard = match vm_status.status_type() {
            StatusType::Unknown => true,
            StatusType::Validation => true,
            StatusType::InvariantViolation => true,
            StatusType::Verification => true,
            StatusType::Deserialization => false,
            StatusType::Execution => false,
        };
        if should_discard {
            TransactionStatus::Discard(vm_status)
        } else {
            TransactionStatus::Keep(vm_status)
        }
    }
}

impl vstd::std_specs::convert::FromSpecImpl<VMStatus> for TransactionStatus {
    open spec fn obeys_from_spec() -> bool {
        true
    }

    open spec fn from_spec(vm_status: VMStatus) -> TransactionStatus {
        if vm_status.major_status.class().discards() {
            TransactionStatus::Discard(vm_status)
        } else {
            TransactionStatus::Keep(vm_status)
        }
    }
}

} // verus!
