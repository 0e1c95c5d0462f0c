//! Mathematical model of what the driver puts on the wire: a trace of
//! transactions, each a burst of bytes written while the data/command
//! selector line is at the command level or at the data level.

use vstd::prelude::*;

use crate::commands;

verus! {

/// One bus transaction, as the controller sees it: the selector-line level
/// in force while the bytes were written, and the bytes themselves.
#[verifier::ext_equal]
pub enum Transaction {
    /// Bytes written while the selector line was at the command level.
    Command(Seq<u8>),
    /// Bytes written while the selector line was at the data level.
    Data(Seq<u8>),
}

impl Transaction {
    /// The bytes of the transaction, whatever its kind.
    pub open spec fn payload(self) -> Seq<u8> {
        match self {
            Transaction::Command(p) => p,
            Transaction::Data(p) => p,
        }
    }
}

/// The 4 parameter bytes of an address-window command: the 16-bit start and
/// end bounds, each split most-significant byte first.
pub open spec fn window_bytes(start: u16, end: u16) -> Seq<u8> {
    seq![
        (start >> 8) as u8,
        (start & 0xff) as u8,
        (end >> 8) as u8,
        (end & 0xff) as u8,
    ]
}

/// The transactions a successful initialization appends: the software reset,
/// the exit-sleep/display-on/inversion-on burst, then the pixel-format
/// command with its single data byte selecting 16-bit color.
pub open spec fn init_trace() -> Seq<Transaction> {
    seq![
        Transaction::Command(seq![commands::RESET]),
        Transaction::Command(
            seq![commands::SLEEP_OUT, commands::DISPLAY_ON, commands::DISPLAY_INVERSION_ON],
        ),
        Transaction::Command(seq![commands::COL_MODE]),
        Transaction::Data(seq![commands::PIXEL_FORMAT_RGB565]),
    ]
}

/// The transactions of a row-window operation: the row-address-set command
/// with no payload, then the 4 window bytes as data.
pub open spec fn row_window_trace(start: u16, end: u16) -> Seq<Transaction> {
    seq![
        Transaction::Command(seq![commands::ROW_ADDRESS_SET]),
        Transaction::Data(window_bytes(start, end)),
    ]
}

/// The transactions of a column-window operation: the column-address-set
/// command with no payload, then the 4 window bytes as data.
pub open spec fn col_window_trace(start: u16, end: u16) -> Seq<Transaction> {
    seq![
        Transaction::Command(seq![commands::COLUMN_ADDRESS_SET]),
        Transaction::Data(window_bytes(start, end)),
    ]
}

/// The single transaction of a begin-memory-write operation.
pub open spec fn memory_write_trace() -> Seq<Transaction> {
    seq![Transaction::Command(seq![commands::MEMORY_WRITE])]
}

/// The bus writes a trace performs, one per transaction, framing dropped.
pub open spec fn writes_of(trace: Seq<Transaction>) -> Seq<Seq<u8>> {
    trace.map_values(|t: Transaction| t.payload())
}

/// Split a 16-bit (start, end) pair of address-window bounds into the 4
/// parameter bytes the controller expects, most-significant byte first.
pub fn window_payload(start: u16, end: u16) -> (r: Vec<u8>)
    ensures
        r@ == window_bytes(start, end),
{
    let r: Vec<u8> = vec![
        (start >> 8) as u8,
        (start & 0xff) as u8,
        (end >> 8) as u8,
        (end & 0xff) as u8,
    ];
    proof {
        assert(r@ =~= window_bytes(start, end));
    }
    r
}

/// The address-window payload is faithful: for every 16-bit pair it has
/// exactly 4 bytes, `[start >> 8, start & 0xFF, end >> 8, end & 0xFF]`, and
/// those bytes determine the pair again.
pub proof fn lemma_window_bytes_faithful(start: u16, end: u16)
    ensures
        window_bytes(start, end).len() == 4,
        window_bytes(start, end) == seq![
            (start >> 8) as u8,
            (start & 0xff) as u8,
            (end >> 8) as u8,
            (end & 0xff) as u8,
        ],
        ((window_bytes(start, end)[0] as u16) << 8) | (window_bytes(start, end)[1] as u16)
            == start,
        ((window_bytes(start, end)[2] as u16) << 8) | (window_bytes(start, end)[3] as u16) == end,
{
    assert((((start >> 8) as u8 as u16) << 8) | ((start & 0xff) as u8 as u16) == start)
        by (bit_vector);
    assert((((end >> 8) as u8 as u16) << 8) | ((end & 0xff) as u8 as u16) == end) by (bit_vector);
}

/// The initialization trace is the same four transactions in the same order
/// whatever came before: the reset, the three-opcode burst, the pixel-format
/// command, and its one data byte.
pub proof fn lemma_init_trace_shape()
    ensures
        init_trace().len() == 4,
        init_trace()[0] == Transaction::Command(seq![commands::RESET]),
        init_trace()[1] == Transaction::Command(
            seq![commands::SLEEP_OUT, commands::DISPLAY_ON, commands::DISPLAY_INVERSION_ON],
        ),
        init_trace()[2] == Transaction::Command(seq![commands::COL_MODE]),
        init_trace()[3] == Transaction::Data(seq![commands::PIXEL_FORMAT_RGB565]),
{
}

/// Initialization is idempotent at the protocol level: run once from trace
/// `t0` and again from the trace `t1` that the first run left, the two runs
/// append the very same transaction segment.
pub proof fn lemma_init_idempotent(t0: Seq<Transaction>, t1: Seq<Transaction>, t2: Seq<Transaction>)
    requires
        t1 == t0 + init_trace(),
        t2 == t1 + init_trace(),
    ensures
        t1.subrange(t0.len() as int, t1.len() as int)
            == t2.subrange(t1.len() as int, t2.len() as int),
{
    assert(t1.subrange(t0.len() as int, t1.len() as int) =~= init_trace());
    assert(t2.subrange(t1.len() as int, t2.len() as int) =~= init_trace());
}

/// The two window operations are independent: after a row-window operation
/// and then a column-window operation, the trace still holds the row bytes
/// for the row arguments and the column bytes for the column arguments —
/// neither operation alters the address bytes the other produced.
pub proof fn lemma_windows_independent(
    t0: Seq<Transaction>,
    row_start: u16,
    row_end: u16,
    col_start: u16,
    col_end: u16,
)
    ensures
        ({
            let t1 = t0 + row_window_trace(row_start, row_end);
            let t2 = t1 + col_window_trace(col_start, col_end);
            &&& t2[t0.len() as int] == Transaction::Command(seq![commands::ROW_ADDRESS_SET])
            &&& t2[t0.len() as int + 1] == Transaction::Data(window_bytes(row_start, row_end))
            &&& t2[t1.len() as int] == Transaction::Command(seq![commands::COLUMN_ADDRESS_SET])
            &&& t2[t1.len() as int + 1] == Transaction::Data(window_bytes(col_start, col_end))
        }),
{
}

} // verus!
