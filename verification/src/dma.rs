//! An on-going DMA transfer as an owned value.
//!
//! A `Transfer` bundles the buffer handed to the hardware with the
//! peripheral that issued the operation. Consuming it through `wait` is the
//! only way to get either back, so neither can be touched while the
//! hardware may still write into the buffer.

use vstd::prelude::*;
use crate::dma2::{DMAStream, DmaRegisters, Error, StreamRegs};
use crate::rcc::ENR;

verus! {

/// Stream transfer mode.
#[derive(Clone, Copy, PartialEq, Eq, Structural, Debug)]
pub enum Mode {
    Normal,
    Circular,
    PeripheralFlowControl,
}

/// Splits a DMA engine into its stream handles, enabling its clock.
pub trait DmaExt {
    type Streams;

    fn split(self, enr: &mut ENR) -> Self::Streams;
}

/// One outstanding DMA operation: owns the buffer the hardware works on and
/// the payload (typically the peripheral) that issued it.
pub struct Transfer<B, P> {
    stream: DMAStream,
    buffer: B,
    payload: P,
}

/// What one polling step of `Transfer::wait` produced.
pub enum WaitOutcome<B, P> {
    /// The transfer finished; the buffer and the payload are owned again.
    Done(B, P),
    /// The hardware is still busy; the handle comes back for the next poll,
    /// after the status flags have been read from the device again.
    Pending(Transfer<B, P>),
    /// The hardware reported a transfer error. The handle is consumed and
    /// the buffer and payload are lost with it; the status flags are left
    /// untouched for inspection.
    Failed(Error),
}

impl<B, P> Transfer<B, P> {
    /// The buffer the hardware works on.
    pub closed spec fn buffer_spec(self) -> B {
        self.buffer
    }

    /// The payload that issued the operation.
    pub closed spec fn payload_spec(self) -> P {
        self.payload
    }

    /// The stream carrying the operation.
    pub closed spec fn stream_id(self) -> DMAStream {
        self.stream
    }

    /// Wraps the buffer and payload of a submitted operation. The caller
    /// configures and enables the stream first; the handle only records that
    /// the operation now owns both values.
    pub fn new(buffer: B, payload: P, stream: DMAStream) -> (t: Transfer<B, P>)
        ensures
            t.buffer_spec() == buffer,
            t.payload_spec() == payload,
            t.stream_id() == stream,
    {
        Transfer { stream, buffer, payload }
    }

    /// Whether the hardware has finished this transfer. Reads the stream's
    /// error flag first and reports a transfer error if it is set; otherwise
    /// returns the transfer-complete flag. No side effect.
    pub fn is_done(&self, regs: &DmaRegisters) -> (r: Result<bool, Error>)
        ensures
            regs.stream_spec(self.stream_id()).teif ==> r == Result::<bool, Error>::Err(
                Error::Transfer,
            ),
            !regs.stream_spec(self.stream_id()).teif ==> r == Result::<bool, Error>::Ok(
                regs.stream_spec(self.stream_id()).tcif,
            ),
    {
        let st = regs.get_stream(self.stream);
        if st.teif {
            Err(Error::Transfer)
        } else {
            Ok(st.tcif)
        }
    }

    /// One step of waiting for the transfer, consuming the handle.
    ///
    /// On a set error flag the operation failed: the handle is gone and the
    /// flags stay as they are. On a set transfer-complete flag the buffer's
    /// memory is fenced, the flag is cleared, and the buffer and payload are
    /// returned. Otherwise the hardware is still busy and the handle comes
    /// back; the caller re-reads the status flags from the device and polls
    /// again.
    pub fn wait(self, regs: &mut DmaRegisters) -> (r: WaitOutcome<B, P>)
        ensures
            old(regs).stream_spec(self.stream_id()).teif ==> {
                &&& r is Failed
                &&& r == WaitOutcome::<B, P>::Failed(Error::Transfer)
                &&& *final(regs) == *old(regs)
            },
            !old(regs).stream_spec(self.stream_id()).teif
                && old(regs).stream_spec(self.stream_id()).tcif ==> {
                &&& r == WaitOutcome::Done(self.buffer_spec(), self.payload_spec())
                &&& *final(regs) == old(regs).with_stream(
                    self.stream_id(),
                    (StreamRegs { tcif: false, ..old(regs).stream_spec(self.stream_id()) }),
                )
            },
            !old(regs).stream_spec(self.stream_id()).teif
                && !old(regs).stream_spec(self.stream_id()).tcif ==> {
                &&& r == WaitOutcome::Pending(self)
                &&& *final(regs) == *old(regs)
            },
    {
        let st = regs.get_stream(self.stream);
        if st.teif {
            WaitOutcome::Failed(Error::Transfer)
        } else if st.tcif {
            crate::dma2::memory_fence();
            let mut st2 = st;
            st2.tcif = false;
            regs.set_stream(self.stream, st2);
            WaitOutcome::Done(self.buffer, self.payload)
        } else {
            WaitOutcome::Pending(self)
        }
    }
}

} // verus!
