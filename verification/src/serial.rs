//! Blocking byte transfers over a UART whose halves are handed over at
//! start-up.
//!
//! A transfer is retried for as long as the peripheral reports that it
//! would block; it completes on the first ready result, and a hardware
//! error is a fault that the firmware does not recover from. The
//! peripheral itself is driven by the firmware; this module decides, from
//! each attempt's outcome, what happens next.
use vstd::prelude::*;

verus! {

/// What one attempt of a non-blocking transfer reported.
#[derive(PartialEq, Eq, Debug)]
pub enum NbOutcome<T> {
    /// The transfer happened, with this result.
    Ready(T),
    /// The peripheral is busy; the attempt may be repeated.
    WouldBlock,
    /// The peripheral reported an error.
    Failed,
}

/// What a blocking transfer does after an attempt.
#[derive(PartialEq, Eq, Debug)]
pub enum BlockStep<T> {
    /// The transfer is complete, with this result.
    Done(T),
    /// Attempt the transfer again.
    Retry,
    /// The transfer failed; the firmware halts.
    Fault,
}

/// The step that follows an attempt with this outcome.
pub open spec fn block_step_spec<T>(attempt: NbOutcome<T>) -> BlockStep<T> {
    match attempt {
        NbOutcome::Ready(v) => BlockStep::Done(v),
        NbOutcome::WouldBlock => BlockStep::Retry,
        NbOutcome::Failed => BlockStep::Fault,
    }
}

/// Decides what a blocking transfer does after an attempt: finish on a
/// ready result, retry while the peripheral would block, fault on error.
pub fn block_step<T>(attempt: NbOutcome<T>) -> (r: BlockStep<T>)
    ensures
        r == block_step_spec(attempt),
{
    match attempt {
        NbOutcome::Ready(v) => BlockStep::Done(v),
        NbOutcome::WouldBlock => BlockStep::Retry,
        NbOutcome::Failed => BlockStep::Fault,
    }
}

/// A UART whose transmit and receive halves are handed over at start-up.
pub struct UartType {
    /// Whether the transmit half has been handed over.
    pub tx: bool,
    /// Whether the receive half has been handed over.
    pub rx: bool,
}

impl UartType {
    /// A UART whose halves have not been handed over yet.
    pub fn new() -> (r: UartType)
        ensures
            !r.tx,
            !r.rx,
    {
        UartType { tx: false, rx: false }
    }

    /// Takes over both halves of a configured serial port.
    pub fn from_serial(&mut self)
        ensures
            final(self).tx,
            final(self).rx,
    {
        self.rx = true;
        self.tx = true;
    }

    /// What writing a byte does after an attempt with this outcome. Only a
    /// UART whose transmit half was handed over can write.
    pub fn write_step(&self, attempt: NbOutcome<()>) -> (r: BlockStep<()>)
        requires
            self.tx,
        ensures
            r == block_step_spec(attempt),
    {
        block_step(attempt)
    }

    /// What reading a byte does after an attempt with this outcome. Only a
    /// UART whose receive half was handed over can read.
    pub fn read_step(&self, attempt: NbOutcome<u8>) -> (r: BlockStep<u8>)
        requires
            self.rx,
        ensures
            r == block_step_spec(attempt),
    {
        block_step(attempt)
    }
}

} // verus!
