//! Driver core for an ST7789 display controller on a synchronous serial bus.
//!
//! The controller is reached through three capabilities supplied by the
//! embedding firmware: a serial bus, two digital output lines (chip select
//! and the data/command selector), and a millisecond delay source. The
//! session type [`St7789`] owns those capabilities and sequences the
//! initialization, addressing and data transactions; its contracts describe
//! the exact transaction trace each operation appends.

pub mod commands;
pub mod mock;
pub mod plan;
pub mod trace;

use vstd::prelude::*;

verus! {

/// The two levels a digital output line can be driven to.
#[derive(Clone, Copy, PartialEq, Eq, Structural, Debug)]
pub enum Level {
    Low,
    High,
}

/// Serial bus capability: transmit a byte burst, or fail with a
/// transport-specific error. `history` abstracts the bus as the sequence of
/// bursts successfully transmitted so far; a failed transmission promises
/// nothing — the bytes may have left partially, and the caller must treat
/// the controller state as unknown.
pub trait SerialBus: Sized {
    /// The transport's own error type.
    type BusError;

    /// The byte bursts transmitted so far, oldest first.
    ///
    /// The empty default is a placeholder for implementations written
    /// outside Verus, which cannot carry ghost state; an implementation
    /// whose `write` can succeed must override it, since a successful
    /// `write` grows the history.
    open spec fn history(&self) -> Seq<Seq<u8>> {
        Seq::empty()
    }

    /// Transmit one burst of bytes.
    fn write(&mut self, data: &[u8]) -> (r: Result<(), Self::BusError>)
        ensures
            r is Ok ==> final(self).history() == old(self).history().push(data@),
    ;
}

/// Digital output line capability. Setting the level is infallible at this
/// layer: an implementation over a pin driver that can fail must escalate
/// the fault itself, since protocol logic cannot recover from it.
pub trait DigitalOut: Sized {
    /// The level the line is currently driven to.
    ///
    /// The constant default is a placeholder for implementations written
    /// outside Verus, which cannot carry ghost state; any implementation
    /// must override it to prove `set_high`.
    open spec fn level(&self) -> Level {
        Level::Low
    }

    /// Drive the line high.
    fn set_high(&mut self)
        ensures
            final(self).level() == Level::High,
    ;

    /// Drive the line low.
    fn set_low(&mut self)
        ensures
            final(self).level() == Level::Low,
    ;
}

/// Delay capability: wait the given number of milliseconds, yielding to the
/// embedding scheduler meanwhile. `history` abstracts the source as the
/// sequence of waits performed so far, so that contracts can state the
/// settling delays the protocol requires.
pub trait Timer_: Sized {
    /// The waits performed so far, in milliseconds, oldest first.
    ///
    /// The empty default is a placeholder for implementations written
    /// outside Verus, which cannot carry ghost state; any implementation
    /// must override it to prove `delay_ms`.
    open spec fn history(&self) -> Seq<u64> {
        Seq::empty()
    }

    /// Wait for the given number of milliseconds.
    fn delay_ms(&mut self, ms: u64)
        ensures
            final(self).history() == old(self).history().push(ms),
    ;
}

/// Why a session operation failed.
#[derive(Debug)]
pub enum DriverError<E> {
    /// Contract violation: a command or data operation ran before
    /// initialization. The session is unchanged.
    NotInitialized,
    /// The bus reported a transport fault. The session clears its ready
    /// flag, since a partially transmitted burst leaves the controller in an
    /// unknown state; the caller must re-initialize.
    Transport(E),
}

/// A session with one ST7789 controller: owns the bus, the chip-select and
/// data/command-select lines and the delay source, and sequences every
/// transaction. `transactions()` is the trace of transactions completed so
/// far; each operation's contract states exactly what it appends.
pub struct St7789<SPI: SerialBus, OUTPUT: DigitalOut, TIMER: Timer_> {
    /// Serial bus.
    bus: SPI,
    /// Settling delay in milliseconds around command transactions.
    delay_ms: u64,
    /// Chip-select line.
    cs: OUTPUT,
    /// Data/command-select line.
    dc: OUTPUT,
    /// Whether initialization has completed; gates every transaction.
    is_initiated: bool,
    /// Delay source.
    timer: TIMER,
    /// The transactions completed so far.
    trace: Ghost<Seq<trace::Transaction>>,
}

impl<SPI: SerialBus, OUTPUT: DigitalOut, TIMER: Timer_> St7789<SPI, OUTPUT, TIMER> {
    /// Whether initialization has completed, so that transactions are
    /// permitted.
    pub closed spec fn ready(self) -> bool {
        self.is_initiated
    }

    /// The trace of transactions completed so far, oldest first.
    pub closed spec fn transactions(self) -> Seq<trace::Transaction> {
        self.trace@
    }

    /// The byte bursts the owned bus has transmitted, oldest first —
    /// including any it transmitted before the session was constructed.
    pub closed spec fn bus_history(self) -> Seq<Seq<u8>> {
        self.bus.history()
    }

    /// The waits the owned delay source has performed, oldest first.
    pub closed spec fn delays(self) -> Seq<u64> {
        self.timer.history()
    }

    /// The level of the chip-select line.
    pub closed spec fn cs_level(self) -> Level {
        self.cs.level()
    }

    /// The level of the data/command-select line.
    pub closed spec fn dc_level(self) -> Level {
        self.dc.level()
    }

    /// The configured settling delay, in milliseconds.
    pub closed spec fn delay(self) -> u64 {
        self.delay_ms
    }

    /// Construct a session over the given capabilities. Both output lines
    /// are driven to their inactive-high level; the session starts not
    /// ready, with an empty transaction trace and a 1 ms settling delay.
    pub fn new(spi: SPI, cs: OUTPUT, dc: OUTPUT, timer: TIMER) -> (r: Self)
        ensures
            !r.ready(),
            r.transactions() === Seq::empty(),
            r.cs_level() == Level::High,
            r.dc_level() == Level::High,
            r.delay() == 1u64,
            r.bus_history() == spi.history(),
            r.delays() == timer.history(),
    {
        let mut cs = cs;
        let mut dc = dc;
        cs.set_high();
        dc.set_high();
        St7789 {
            bus: spi,
            delay_ms: 1,
            cs,
            dc,
            is_initiated: false,
            timer,
            trace: Ghost(Seq::empty()),
        }
    }

    /// Command transaction primitive: drive the selector line to the command
    /// level, wait the settling delay, transmit the bytes, wait again. On a
    /// transport fault the ready flag is cleared and the trace is unchanged
    /// (the transaction did not complete).
    fn write_command(&mut self, data: &[u8]) -> (r: Result<(), DriverError<SPI::BusError>>)
        ensures
            !old(self).ready() ==> (r matches Err(e) && e is NotInitialized) && *final(self)
                == *old(self),
            old(self).ready() && r is Ok ==> {
                &&& final(self).ready()
                &&& final(self).transactions() == old(self).transactions().push(
                    trace::Transaction::Command(data@),
                )
                &&& final(self).bus_history() == old(self).bus_history().push(data@)
                &&& final(self).delays() == old(self).delays() + seq![
                    old(self).delay(),
                    old(self).delay(),
                ]
                &&& final(self).dc_level() == Level::Low
                &&& final(self).cs_level() == old(self).cs_level()
                &&& final(self).delay() == old(self).delay()
            },
            old(self).ready() && r is Err ==> {
                &&& (r matches Err(e) && e is Transport)
                &&& !final(self).ready()
                &&& final(self).transactions() == old(self).transactions()
                &&& final(self).delays() == old(self).delays().push(old(self).delay())
                &&& final(self).dc_level() == Level::Low
                &&& final(self).cs_level() == old(self).cs_level()
                &&& final(self).delay() == old(self).delay()
            },
    {
        if !self.is_initiated {
            return Err(DriverError::NotInitialized);
        }
        self.dc.set_low();
        self.timer.delay_ms(self.delay_ms);
        match self.bus.write(data) {
            Ok(()) => {
                self.timer.delay_ms(self.delay_ms);
                self.trace = Ghost(self.trace@.push(trace::Transaction::Command(data@)));
                Ok(())
            },
            Err(e) => {
                self.is_initiated = false;
                Err(DriverError::Transport(e))
            },
        }
    }

    /// Initialize the display: wait, assert chip-select, wait, then issue
    /// the software reset, the exit-sleep/display-on/inversion-on burst, and
    /// the pixel-format command with its 16-bit-color data byte. On success
    /// the session is ready and the trace has grown by exactly
    /// [`trace::init_trace`]; running it again appends the identical
    /// segment. On a transport fault the ready flag is cleared and the trace
    /// has grown by a proper prefix of that segment.
    pub fn init(&mut self) -> (r: Result<(), DriverError<SPI::BusError>>)
        ensures
            r is Ok ==> {
                &&& final(self).ready()
                &&& final(self).transactions() == old(self).transactions() + trace::init_trace()
                &&& final(self).bus_history() == old(self).bus_history() + trace::writes_of(
                    trace::init_trace(),
                )
                &&& final(self).delays() == old(self).delays() + seq![
                    old(self).delay(); 8
                ]
                &&& final(self).cs_level() == Level::Low
                &&& final(self).dc_level() == Level::High
                &&& final(self).delay() == old(self).delay()
            },
            r is Err ==> {
                &&& (r matches Err(e) && e is Transport)
                &&& !final(self).ready()
                &&& final(self).cs_level() == Level::Low
                &&& final(self).delay() == old(self).delay()
                &&& (exists|k: int|
                    0 <= k < 4 && final(self).transactions() == old(self).transactions()
                        + #[trigger] trace::init_trace().take(k))
            },
    {
        let ghost t0 = self.trace@;
        self.timer.delay_ms(self.delay_ms);
        self.cs.set_low();
        self.timer.delay_ms(self.delay_ms);
        // The flag must be set before the first command transaction, since
        // the command primitive itself refuses to run while it is false.
        self.is_initiated = true;
        match self.write_command(&[commands::RESET]) {
            Ok(()) => (),
            Err(e) => {
                proof {
                    assert(self.trace@ == t0 + trace::init_trace().take(0)) by {
                        assert(t0 + trace::init_trace().take(0) =~~= t0);
                    }
                }
                return Err(e);
            },
        }
        match self.write_command(
            &[commands::SLEEP_OUT, commands::DISPLAY_ON, commands::DISPLAY_INVERSION_ON],
        ) {
            Ok(()) => (),
            Err(e) => {
                proof {
                    assert(self.trace@ =~~= t0 + trace::init_trace().take(1));
                }
                return Err(e);
            },
        }
        match self.write_command(&[commands::COL_MODE]) {
            Ok(()) => (),
            Err(e) => {
                proof {
                    assert(self.trace@ =~~= t0 + trace::init_trace().take(2));
                }
                return Err(e);
            },
        }
        match self.write_data(&[commands::PIXEL_FORMAT_RGB565]) {
            Ok(()) => (),
            Err(e) => {
                proof {
                    assert(self.trace@ =~~= t0 + trace::init_trace().take(3));
                }
                return Err(e);
            },
        }
        proof {
            assert(self.trace@ =~~= t0 + trace::init_trace());
            assert(self.bus.history() =~~= old(self).bus.history() + trace::writes_of(
                trace::init_trace(),
            ));
            assert(self.timer.history() =~~= old(self).timer.history() + seq![
                old(self).delay(); 8
            ]);
        }
        Ok(())
    }

    /// Set the row address window: the row-address-set command with no
    /// payload, then a 4-byte data transaction holding the big-endian 16-bit
    /// start and end bounds. The bounds are not range-checked here: the
    /// panel defines its own valid range. On a transport fault the ready
    /// flag is cleared and the trace has grown by a proper prefix of the
    /// segment.
    pub fn set_row(&mut self, start: u16, end: u16) -> (r: Result<
        (),
        DriverError<SPI::BusError>,
    >)
        ensures
            !old(self).ready() ==> (r matches Err(e) && e is NotInitialized) && *final(self)
                == *old(self),
            old(self).ready() && r is Ok ==> {
                &&& final(self).ready()
                &&& final(self).transactions() == old(self).transactions()
                    + trace::row_window_trace(start, end)
                &&& final(self).bus_history() == old(self).bus_history() + trace::writes_of(
                    trace::row_window_trace(start, end),
                )
                &&& final(self).delays() == old(self).delays() + seq![
                    old(self).delay(),
                    old(self).delay(),
                ]
                &&& final(self).dc_level() == Level::High
                &&& final(self).cs_level() == old(self).cs_level()
                &&& final(self).delay() == old(self).delay()
            },
            old(self).ready() && r is Err ==> {
                &&& (r matches Err(e) && e is Transport)
                &&& !final(self).ready()
                &&& final(self).cs_level() == old(self).cs_level()
                &&& final(self).delay() == old(self).delay()
                &&& (exists|k: int|
                    0 <= k < 2 && final(self).transactions() == old(self).transactions()
                        + #[trigger] trace::row_window_trace(start, end).take(k))
            },
    {
        let ghost t0 = self.trace@;
        match self.write_command(&[commands::ROW_ADDRESS_SET]) {
            Ok(()) => (),
            Err(e) => {
                proof {
                    assert(self.trace@ == t0 + trace::row_window_trace(start, end).take(0)) by {
                        assert(t0 + trace::row_window_trace(start, end).take(0) =~~= t0);
                    }
                }
                return Err(e);
            },
        }
        let payload = trace::window_payload(start, end);
        match self.write_data(payload.as_slice()) {
            Ok(()) => (),
            Err(e) => {
                proof {
                    assert(self.trace@ =~~= t0 + trace::row_window_trace(start, end).take(1));
                }
                return Err(e);
            },
        }
        proof {
            assert(self.trace@ =~~= t0 + trace::row_window_trace(start, end));
            assert(self.bus.history() =~~= old(self).bus.history() + trace::writes_of(
                trace::row_window_trace(start, end),
            ));
        }
        Ok(())
    }

    /// Set the column address window: the column-address-set command with no
    /// payload, then a 4-byte data transaction holding the big-endian 16-bit
    /// start and end bounds. The bounds are not range-checked here: the
    /// panel defines its own valid range. On a transport fault the ready
    /// flag is cleared and the trace has grown by a proper prefix of the
    /// segment.
    pub fn set_col(&mut self, start: u16, end: u16) -> (r: Result<
        (),
        DriverError<SPI::BusError>,
    >)
        ensures
            !old(self).ready() ==> (r matches Err(e) && e is NotInitialized) && *final(self)
                == *old(self),
            old(self).ready() && r is Ok ==> {
                &&& final(self).ready()
                &&& final(self).transactions() == old(self).transactions()
                    + trace::col_window_trace(start, end)
                &&& final(self).bus_history() == old(self).bus_history() + trace::writes_of(
                    trace::col_window_trace(start, end),
                )
                &&& final(self).delays() == old(self).delays() + seq![
                    old(self).delay(),
                    old(self).delay(),
                ]
                &&& final(self).dc_level() == Level::High
                &&& final(self).cs_level() == old(self).cs_level()
                &&& final(self).delay() == old(self).delay()
            },
            old(self).ready() && r is Err ==> {
                &&& (r matches Err(e) && e is Transport)
                &&& !final(self).ready()
                &&& final(self).cs_level() == old(self).cs_level()
                &&& final(self).delay() == old(self).delay()
                &&& (exists|k: int|
                    0 <= k < 2 && final(self).transactions() == old(self).transactions()
                        + #[trigger] trace::col_window_trace(start, end).take(k))
            },
    {
        let ghost t0 = self.trace@;
        match self.write_command(&[commands::COLUMN_ADDRESS_SET]) {
            Ok(()) => (),
            Err(e) => {
                proof {
                    assert(self.trace@ == t0 + trace::col_window_trace(start, end).take(0)) by {
                        assert(t0 + trace::col_window_trace(start, end).take(0) =~~= t0);
                    }
                }
                return Err(e);
            },
        }
        let payload = trace::window_payload(start, end);
        match self.write_data(payload.as_slice()) {
            Ok(()) => (),
            Err(e) => {
                proof {
                    assert(self.trace@ =~~= t0 + trace::col_window_trace(start, end).take(1));
                }
                return Err(e);
            },
        }
        proof {
            assert(self.trace@ =~~= t0 + trace::col_window_trace(start, end));
            assert(self.bus.history() =~~= old(self).bus.history() + trace::writes_of(
                trace::col_window_trace(start, end),
            ));
        }
        Ok(())
    }

    /// Begin a memory write: issue the memory-write command with no payload,
    /// so that subsequent data transactions fill the current address window.
    pub fn write_memory(&mut self) -> (r: Result<(), DriverError<SPI::BusError>>)
        ensures
            !old(self).ready() ==> (r matches Err(e) && e is NotInitialized) && *final(self)
                == *old(self),
            old(self).ready() && r is Ok ==> {
                &&& final(self).ready()
                &&& final(self).transactions() == old(self).transactions()
                    + trace::memory_write_trace()
                &&& final(self).bus_history() == old(self).bus_history() + trace::writes_of(
                    trace::memory_write_trace(),
                )
                &&& final(self).delays() == old(self).delays() + seq![
                    old(self).delay(),
                    old(self).delay(),
                ]
                &&& final(self).dc_level() == Level::Low
                &&& final(self).cs_level() == old(self).cs_level()
                &&& final(self).delay() == old(self).delay()
            },
            old(self).ready() && r is Err ==> {
                &&& (r matches Err(e) && e is Transport)
                &&& !final(self).ready()
                &&& final(self).transactions() == old(self).transactions()
                &&& final(self).cs_level() == old(self).cs_level()
                &&& final(self).delay() == old(self).delay()
            },
    {
        let ghost t0 = self.trace@;
        self.write_command(&[commands::MEMORY_WRITE])?;
        proof {
            assert(self.trace@ =~~= t0 + trace::memory_write_trace());
            assert(self.bus.history() =~~= old(self).bus.history() + trace::writes_of(
                trace::memory_write_trace(),
            ));
        }
        Ok(())
    }

    /// Release the session, handing the owned capabilities back to the
    /// caller in construction order: bus, chip-select line, data/command
    /// line, delay source.
    pub fn free(self) -> (r: (SPI, OUTPUT, OUTPUT, TIMER))
        ensures
            r.0.history() == self.bus_history(),
            r.1.level() == self.cs_level(),
            r.2.level() == self.dc_level(),
            r.3.history() == self.delays(),
    {
        (self.bus, self.cs, self.dc, self.timer)
    }

    /// Write a data transaction: drive the selector line to the data level
    /// and transmit the bytes unmodified as a single burst. On a transport
    /// fault the ready flag is cleared and the trace is unchanged.
    pub fn write_data(&mut self, data: &[u8]) -> (r: Result<(), DriverError<SPI::BusError>>)
        ensures
            !old(self).ready() ==> (r matches Err(e) && e is NotInitialized) && *final(self)
                == *old(self),
            old(self).ready() && r is Ok ==> {
                &&& final(self).ready()
                &&& final(self).transactions() == old(self).transactions().push(
                    trace::Transaction::Data(data@),
                )
                &&& final(self).bus_history() == old(self).bus_history().push(data@)
                &&& final(self).delays() == old(self).delays()
                &&& final(self).dc_level() == Level::High
                &&& final(self).cs_level() == old(self).cs_level()
                &&& final(self).delay() == old(self).delay()
            },
            old(self).ready() && r is Err ==> {
                &&& (r matches Err(e) && e is Transport)
                &&& !final(self).ready()
                &&& final(self).transactions() == old(self).transactions()
                &&& final(self).delays() == old(self).delays()
                &&& final(self).dc_level() == Level::High
                &&& final(self).cs_level() == old(self).cs_level()
                &&& final(self).delay() == old(self).delay()
            },
    {
        if !self.is_initiated {
            return Err(DriverError::NotInitialized);
        }
        self.dc.set_high();
        match self.bus.write(data) {
            Ok(()) => {
                self.trace = Ghost(self.trace@.push(trace::Transaction::Data(data@)));
                Ok(())
            },
            Err(e) => {
                self.is_initiated = false;
                Err(DriverError::Transport(e))
            },
        }
    }
}

} // verus!
