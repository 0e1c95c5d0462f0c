//! Executable transaction plans. Each operation of the protocol is also
//! available as a plan: the list of transactions it performs, as concrete
//! byte vectors. An embedding that cannot hand its bus to [`crate::St7789`]
//! — for instance one whose transport is asynchronous — runs the plan
//! itself, one transaction at a time, with command/data framing and settling
//! delays as [`crate::St7789`]'s primitives perform them. Each plan is
//! proved equal, transaction for transaction, to the trace the session
//! operation appends.

use vstd::prelude::*;

use crate::commands;
use crate::trace::{col_window_trace, init_trace, memory_write_trace, row_window_trace,
    window_payload, Transaction};

verus! {

/// One planned transaction: the bytes to transmit and the selector-line
/// level to drive first.
pub enum Burst {
    /// Transmit with the selector line at the command level, a settling
    /// delay before and after the transmission.
    Command(Vec<u8>),
    /// Transmit with the selector line at the data level.
    Data(Vec<u8>),
}

impl View for Burst {
    type V = Transaction;

    open spec fn view(&self) -> Transaction {
        match self {
            Burst::Command(p) => Transaction::Command(p@),
            Burst::Data(p) => Transaction::Data(p@),
        }
    }
}

/// The transactions a plan performs, oldest first.
pub open spec fn plan_trace(plan: Seq<Burst>) -> Seq<Transaction> {
    plan.map_values(|b: Burst| b@)
}

/// The initialization plan: exactly the transactions of
/// [`init_trace`]. Before running it, assert chip-select and let the
/// controller settle, as [`crate::St7789::init`] does.
pub fn init_plan() -> (r: Vec<Burst>)
    ensures
        plan_trace(r@) == init_trace(),
{
    let mut r: Vec<Burst> = Vec::new();
    r.push(Burst::Command(vec![commands::RESET]));
    r.push(
        Burst::Command(
            vec![commands::SLEEP_OUT, commands::DISPLAY_ON, commands::DISPLAY_INVERSION_ON],
        ),
    );
    r.push(Burst::Command(vec![commands::COL_MODE]));
    r.push(Burst::Data(vec![commands::PIXEL_FORMAT_RGB565]));
    proof {
        assert(plan_trace(r@) =~~= init_trace());
    }
    r
}

/// The row-window plan: exactly the transactions of [`row_window_trace`].
pub fn row_window_plan(start: u16, end: u16) -> (r: Vec<Burst>)
    ensures
        plan_trace(r@) == row_window_trace(start, end),
{
    let mut r: Vec<Burst> = Vec::new();
    r.push(Burst::Command(vec![commands::ROW_ADDRESS_SET]));
    r.push(Burst::Data(window_payload(start, end)));
    proof {
        assert(plan_trace(r@) =~~= row_window_trace(start, end));
    }
    r
}

/// The column-window plan: exactly the transactions of [`col_window_trace`].
pub fn col_window_plan(start: u16, end: u16) -> (r: Vec<Burst>)
    ensures
        plan_trace(r@) == col_window_trace(start, end),
{
    let mut r: Vec<Burst> = Vec::new();
    r.push(Burst::Command(vec![commands::COLUMN_ADDRESS_SET]));
    r.push(Burst::Data(window_payload(start, end)));
    proof {
        assert(plan_trace(r@) =~~= col_window_trace(start, end));
    }
    r
}

/// The begin-memory-write plan: exactly the transaction of
/// [`memory_write_trace`].
pub fn memory_write_plan() -> (r: Vec<Burst>)
    ensures
        plan_trace(r@) == memory_write_trace(),
{
    let mut r: Vec<Burst> = Vec::new();
    r.push(Burst::Command(vec![commands::MEMORY_WRITE]));
    proof {
        assert(plan_trace(r@) =~~= memory_write_trace());
    }
    r
}

} // verus!
