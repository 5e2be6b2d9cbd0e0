//! What the execution of a transaction yields.

use vstd::prelude::*;
use crate::codec::views;
use crate::event::{clone_events, ContractEvent};
use crate::event::EventView;
use crate::status::TransactionStatus;
use crate::write_set::WriteSet;
use crate::write_set::WriteView;

verus! {

/// The output of executing a transaction.
#[derive(Debug, PartialEq, Eq)]
pub struct TransactionOutput {
    /// The list of writes this transaction intends to do.
    write_set: WriteSet,
    /// The list of events emitted during this transaction.
    events: Vec<ContractEvent>,
    /// The amount of gas used during execution.
    gas_used: u64,
    /// The execution status.
    status: TransactionStatus,
}

/// What the output of a transaction holds.
pub ghost struct TransactionOutputView {
    pub write_set: Seq<WriteView>,
    pub events: Seq<EventView>,
    pub gas_used: u64,
    pub status: TransactionStatus,
}

impl View for TransactionOutput {
    type V = TransactionOutputView;

    closed spec fn view(&self) -> TransactionOutputView {
        TransactionOutputView {
            write_set: self.write_set@,
            events: views(self.events@),
            gas_used: self.gas_used,
            status: self.status,
        }
    }
}

impl Clone for TransactionOutput {
    fn clone(&self) -> (r: TransactionOutput)
        ensures
            r@ == self@,
    {
        TransactionOutput {
            write_set: self.write_set.clone(),
            events: clone_events(&self.events),
            gas_used: self.gas_used,
            status: self.status.clone(),
        }
    }
}

impl TransactionOutput {
    /// The output with these parts.
    pub fn new(
        write_set: WriteSet,
        events: Vec<ContractEvent>,
        gas_used: u64,
        status: TransactionStatus,
    ) -> (r: TransactionOutput)
        ensures
            r@ == (TransactionOutputView {
                write_set: write_set@,
                events: views(events@),
                gas_used,
                status,
            }),
    {
        TransactionOutput { write_set, events, gas_used, status }
    }

    /// The writes that the transaction intends to do.
    pub fn write_set(&self) -> (r: &WriteSet)
        ensures
            r@ == self@.write_set,
    {
        &self.write_set
    }

    /// The events that the transaction emitted.
    pub fn events(&self) -> (r: &[ContractEvent])
        ensures
            views(r@) == self@.events,
    {
        self.events.as_slice()
    }

    /// The gas that the transaction used.
    pub fn gas_used(&self) -> (r: u64)
        ensures
            r == self@.gas_used,
    {
        self.gas_used
    }

    /// How the execution ended.
    pub fn status(&self) -> (r: &TransactionStatus)
        ensures
            *r == self@.status,
    {
        &self.status
    }
}

} // verus!
