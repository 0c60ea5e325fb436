//! The serial peripheral interface: configuration surface, the polled
//! byte-wise paths, and the DMA-driven block transfers that lock a shared
//! buffer, program a stream and enable it.

use vstd::prelude::*;
use crate::dma2::{Buffer, Dma, DmaRegisters, StreamRegs};

verus! {

/// An SPI instance usable with this driver.
pub trait SPI {

}

/// An SPI error.
#[derive(Clone, Copy, PartialEq, Eq, Structural, Debug)]
pub enum Error {
    /// Overrun occurred.
    Overrun,
    /// Mode fault occurred.
    ModeFault,
    /// CRC error.
    Crc,
}

/// An interrupt event.
#[derive(Clone, Copy, PartialEq, Eq, Structural, Debug)]
pub enum Event {
    /// RX buffer not empty: new data available.
    Rxne,
    /// Transmission complete.
    Tc,
    /// TX buffer empty: more data can be sent.
    Txe,
}

/// Which of the peripheral's data lines are in use.
#[derive(Clone, Copy, PartialEq, Eq, Structural, Debug)]
pub enum Direction {
    Bidirectional,
    BidirectionalRxOnly,
    Unidirectional,
}

/// How the slave-select line is driven.
#[derive(Clone, Copy, PartialEq, Eq, Structural, Debug)]
pub enum NSS {
    Soft,
    HardInput,
    HardOutput,
}

/// Whether this side drives the clock.
#[derive(Clone, Copy, PartialEq, Eq, Structural, Debug)]
pub enum Role {
    Master,
    Slave,
}

/// The frame size on the wire.
#[derive(Clone, Copy, PartialEq, Eq, Structural, Debug)]
pub enum DataSize {
    Bits8,
    Bits16,
}

/// The clock line's idle level.
#[derive(Clone, Copy, PartialEq, Eq, Structural, Debug)]
pub enum Polarity {
    IdleLow,
    IdleHigh,
}

/// Which clock edge captures data.
#[derive(Clone, Copy, PartialEq, Eq, Structural, Debug)]
pub enum Phase {
    FirstEdge,
    SecondEdge,
}

/// The registers of the SPI peripheral, as plain values.
#[derive(Clone, Copy, PartialEq, Eq, Structural, Debug)]
pub struct SpiRegs {
    /// Bidirectional-mode bit.
    pub bidimode: bool,
    /// Receive-only bit.
    pub rxonly: bool,
    /// Master-selection bit.
    pub master: bool,
    /// Frame size.
    pub dff: DataSize,
    /// Clock polarity.
    pub cpol: Polarity,
    /// Clock phase.
    pub cpha: Phase,
    /// Software slave management.
    pub ssm: bool,
    /// Slave-select output enable.
    pub ssoe: bool,
    /// Baud-rate prescaler bits.
    pub br: u8,
    /// Least-significant bit first.
    pub lsbfirst: bool,
    /// TI frame format.
    pub frf: bool,
    /// CRC calculation enable.
    pub crcen: bool,
    /// Peripheral enable.
    pub spe: bool,
    /// Overrun status flag.
    pub ovr: bool,
    /// Mode-fault status flag.
    pub modf: bool,
    /// CRC-error status flag.
    pub crcerr: bool,
    /// RX-not-empty status flag.
    pub rxne: bool,
    /// TX-empty status flag.
    pub txe: bool,
    /// Busy status flag.
    pub bsy: bool,
    /// Data register.
    pub dr: u8,
}

impl SpiRegs {
    /// The peripheral after reset: everything cleared, 8-bit frames.
    pub open spec fn reset() -> SpiRegs {
        SpiRegs {
            bidimode: false,
            rxonly: false,
            master: false,
            dff: DataSize::Bits8,
            cpol: Polarity::IdleLow,
            cpha: Phase::FirstEdge,
            ssm: false,
            ssoe: false,
            br: 0,
            lsbfirst: false,
            frf: false,
            crcen: false,
            spe: false,
            ovr: false,
            modf: false,
            crcerr: false,
            rxne: false,
            txe: false,
            bsy: false,
            dr: 0,
        }
    }

    /// Builds the register model in its reset state.
    pub fn new() -> (r: SpiRegs)
        ensures
            r == SpiRegs::reset(),
    {
        SpiRegs {
            bidimode: false,
            rxonly: false,
            master: false,
            dff: DataSize::Bits8,
            cpol: Polarity::IdleLow,
            cpha: Phase::FirstEdge,
            ssm: false,
            ssoe: false,
            br: 0,
            lsbfirst: false,
            frf: false,
            crcen: false,
            spe: false,
            ovr: false,
            modf: false,
            crcerr: false,
            rxne: false,
            txe: false,
            bsy: false,
            dr: 0,
        }
    }
}

/// The SPI driver: remembers the address of the peripheral's data register,
/// which the DMA streams read from and write to, and which stream serves
/// each direction.
pub struct Spi {
    dr_addr: u32,
    dmatx: Option<Dma>,
    dmarx: Option<Dma>,
}

impl Spi {
    /// The address of the peripheral's data register.
    pub closed spec fn dr_addr_spec(self) -> u32 {
        self.dr_addr
    }

    /// The stream that carries transmissions, if one was given.
    pub closed spec fn dmatx_spec(self) -> Option<Dma> {
        self.dmatx
    }

    /// The stream that carries receptions, if one was given.
    pub closed spec fn dmarx_spec(self) -> Option<Dma> {
        self.dmarx
    }

    /// Builds the driver around the data-register address and the streams
    /// serving it.
    pub fn new(dr_addr: u32, dmarx: Option<Dma>, dmatx: Option<Dma>) -> (s: Spi)
        ensures
            s.dr_addr_spec() == dr_addr,
            s.dmarx_spec() == dmarx,
            s.dmatx_spec() == dmatx,
    {
        Spi { dr_addr, dmatx, dmarx }
    }

    /// Selects master or slave role.
    pub fn init(&self, regs: &mut SpiRegs, role: Role)
        ensures
            *final(regs) == (SpiRegs { master: role is Master, ..*old(regs) }),
    {
        let master: bool = match role {
            Role::Master => true,
            Role::Slave => false,
        };
        regs.master = master;
    }

    /// Selects which data lines are in use.
    pub fn direction(&self, regs: &mut SpiRegs, direction: Direction)
        ensures
            direction is Bidirectional ==> *final(regs) == (SpiRegs {
                bidimode: false,
                ..*old(regs)
            }),
            direction is BidirectionalRxOnly ==> *final(regs) == (SpiRegs {
                rxonly: true,
                ..*old(regs)
            }),
            direction is Unidirectional ==> *final(regs) == (SpiRegs {
                bidimode: true,
                ..*old(regs)
            }),
    {
        match direction {
            Direction::Bidirectional => {
                regs.bidimode = false;
            }
            Direction::BidirectionalRxOnly => {
                regs.rxonly = true;
            }
            Direction::Unidirectional => {
                regs.bidimode = true;
            }
        }
    }

    /// Sets the frame size.
    pub fn data_size(&self, regs: &mut SpiRegs, size: DataSize)
        ensures
            *final(regs) == (SpiRegs { dff: size, ..*old(regs) }),
    {
        regs.dff = size;
    }

    /// Sets the clock line's idle level.
    pub fn clk_polarity(&self, regs: &mut SpiRegs, polarity: Polarity)
        ensures
            *final(regs) == (SpiRegs { cpol: polarity, ..*old(regs) }),
    {
        regs.cpol = polarity;
    }

    /// Sets which clock edge captures data.
    pub fn clk_phase(&self, regs: &mut SpiRegs, phase: Phase)
        ensures
            *final(regs) == (SpiRegs { cpha: phase, ..*old(regs) }),
    {
        regs.cpha = phase;
    }

    /// Configures the slave-select line.
    pub fn nss(&self, regs: &mut SpiRegs, nss: NSS)
        ensures
            nss is HardInput ==> *final(regs) == (SpiRegs { ssm: false, ..*old(regs) }),
            nss is HardOutput ==> *final(regs) == (SpiRegs { ssoe: true, ..*old(regs) }),
            nss is Soft ==> *final(regs) == (SpiRegs { ssm: true, ssoe: true, ..*old(regs) }),
    {
        match nss {
            NSS::HardInput => {
                regs.ssm = false;
            }
            NSS::HardOutput => {
                regs.ssoe = true;
            }
            NSS::Soft => {
                regs.ssm = true;
                regs.ssoe = true;
            }
        }
    }

    /// Sets the baud-rate prescaler bits.
    pub fn baud_rate_prescaler(&self, regs: &mut SpiRegs, scale: u8)
        ensures
            *final(regs) == (SpiRegs { br: scale, ..*old(regs) }),
    {
        regs.br = scale;
    }

    /// Selects most- or least-significant-bit-first framing.
    pub fn msb_first(&self, regs: &mut SpiRegs, msb: bool)
        ensures
            *final(regs) == (SpiRegs { lsbfirst: !msb, ..*old(regs) }),
    {
        regs.lsbfirst = !msb;
    }

    /// Turns the TI frame format on or off.
    pub fn ti_mode(&self, regs: &mut SpiRegs, mode: bool)
        ensures
            *final(regs) == (SpiRegs { frf: mode, ..*old(regs) }),
    {
        regs.frf = mode;
    }

    /// Turns CRC calculation on or off.
    pub fn crc_calculation(&self, regs: &mut SpiRegs, crc: bool)
        ensures
            *final(regs) == (SpiRegs { crcen: crc, ..*old(regs) }),
    {
        regs.crcen = crc;
    }

    /// Enables the peripheral.
    pub fn enable(&self, regs: &mut SpiRegs)
        ensures
            *final(regs) == (SpiRegs { spe: true, ..*old(regs) }),
    {
        regs.spe = true;
    }

    /// Disables the peripheral.
    pub fn disable(&self, regs: &mut SpiRegs)
        ensures
            *final(regs) == (SpiRegs { spe: false, ..*old(regs) }),
    {
        regs.spe = false;
    }

    /// Polls for a received byte. The error flags take precedence, overrun
    /// first; with no error and nothing received the poll reports so. Taking
    /// the byte consumes it: the receive flag is cleared, as the hardware
    /// clears it when the data register is read.
    pub fn read(&self, regs: &mut SpiRegs) -> (r: Result<Option<u8>, Error>)
        ensures
            old(regs).ovr ==> r == Result::<Option<u8>, Error>::Err(Error::Overrun) && *final(regs)
                == *old(regs),
            !old(regs).ovr && old(regs).modf ==> r == Result::<Option<u8>, Error>::Err(
                Error::ModeFault,
            ) && *final(regs) == *old(regs),
            !old(regs).ovr && !old(regs).modf && old(regs).crcerr ==> r == Result::<
                Option<u8>,
                Error,
            >::Err(Error::Crc) && *final(regs) == *old(regs),
            !old(regs).ovr && !old(regs).modf && !old(regs).crcerr && old(regs).rxne ==> r
                == Result::<Option<u8>, Error>::Ok(Some(old(regs).dr)) && *final(regs) == (SpiRegs {
                rxne: false,
                ..*old(regs)
            }),
            !old(regs).ovr && !old(regs).modf && !old(regs).crcerr && !old(regs).rxne ==> r
                == Result::<Option<u8>, Error>::Ok(None) && *final(regs) == *old(regs),
    {
        if regs.ovr {
            Err(Error::Overrun)
        } else if regs.modf {
            Err(Error::ModeFault)
        } else if regs.crcerr {
            Err(Error::Crc)
        } else if regs.rxne {
            regs.rxne = false;
            Ok(Some(regs.dr))
        } else {
            Ok(None)
        }
    }

    /// Tries to hand one byte to the transmitter. The error flags take
    /// precedence, overrun first. `Ok(true)` means the byte was placed in
    /// the data register; `Ok(false)` means the transmitter is still busy
    /// and the caller retries.
    pub fn send(&self, regs: &mut SpiRegs, byte: u8) -> (r: Result<bool, Error>)
        ensures
            old(regs).ovr ==> r == Result::<bool, Error>::Err(Error::Overrun) && *final(regs)
                == *old(regs),
            !old(regs).ovr && old(regs).modf ==> r == Result::<bool, Error>::Err(Error::ModeFault)
                && *final(regs) == *old(regs),
            !old(regs).ovr && !old(regs).modf && old(regs).crcerr ==> r == Result::<
                bool,
                Error,
            >::Err(Error::Crc) && *final(regs) == *old(regs),
            !old(regs).ovr && !old(regs).modf && !old(regs).crcerr && old(regs).txe ==> r
                == Result::<bool, Error>::Ok(true) && *final(regs) == (SpiRegs {
                dr: byte,
                ..*old(regs)
            }),
            !old(regs).ovr && !old(regs).modf && !old(regs).crcerr && !old(regs).txe ==> r
                == Result::<bool, Error>::Ok(false) && *final(regs) == *old(regs),
    {
        if regs.ovr {
            Err(Error::Overrun)
        } else if regs.modf {
            Err(Error::ModeFault)
        } else if regs.crcerr {
            Err(Error::Crc)
        } else if regs.txe {
            regs.dr = byte;
            Ok(true)
        } else {
            Ok(false)
        }
    }

    /// Starts a DMA transmission out of `buffer`.
    ///
    /// Fails with `InUse` when the transmit stream is already enabled, or
    /// when the buffer cannot take the hardware read-lock. Otherwise the
    /// buffer is read-locked, the stream is programmed with the buffer's
    /// address, the data register's address and the length, and enabled.
    /// The caller releases the buffer once the transfer completes.
    pub fn send_dma<B>(
        &self,
        regs: &mut DmaRegisters,
        buffer: &mut Buffer<B>,
        buffer_addr: u32,
        length: u16,
    ) -> (r: Result<(), crate::dma2::Error>)
        requires
            self.dmatx_spec() is Some,
        ensures
            ({
                let d = self.dmatx_spec().unwrap();
                let st = old(regs).stream_spec(d.stream_id());
                &&& st.en ==> {
                    &&& r == Result::<(), crate::dma2::Error>::Err(crate::dma2::Error::InUse)
                    &&& *final(regs) == *old(regs)
                    &&& *final(buffer) == *old(buffer)
                }
                &&& !st.en && !old(buffer).can_lock() ==> {
                    &&& r == Result::<(), crate::dma2::Error>::Err(crate::dma2::Error::InUse)
                    &&& *final(regs) == *old(regs)
                    &&& *final(buffer) == *old(buffer)
                }
                &&& !st.en && old(buffer).can_lock() ==> {
                    &&& r is Ok
                    &&& *final(buffer) == old(buffer).lock_spec()
                    &&& final(buffer).hw_state() is LockedForRead
                    &&& final(buffer).count() == old(buffer).count() + 1
                    &&& final(buffer).contents() == old(buffer).contents()
                    &&& final(buffer).stream_id() == old(buffer).stream_id()
                    &&& *final(regs) == old(regs).with_stream(
                        d.stream_id(),
                        stream_started(st, buffer_addr, self.dr_addr_spec(), length),
                    )
                }
            }),
            old(buffer).wf() ==> final(buffer).wf(),
    {
        let dma = match &self.dmatx {
            Some(d) => *d,
            None => {
                proof {
                    assert(false);
                }
                Dma::new(crate::dma2::DMAStream::Stream0)
            }
        };
        if dma.is_enabled(regs) {
            return Err(crate::dma2::Error::InUse);
        }
        match buffer.lock() {
            Ok(()) => {}
            Err(e) => {
                return Err(e);
            }
        }
        start_stream(dma, regs, buffer_addr, self.dr_addr, length);
        Ok(())
    }

    /// Starts a DMA transmission and reception pair: `tx_buffer` feeds the
    /// peripheral while `rx_buffer` collects what comes back.
    ///
    /// Fails with `InUse` when either stream is already enabled, or when
    /// either buffer cannot take its hardware lock; in that case nothing is
    /// changed. Otherwise the transmit buffer, which the hardware only
    /// reads, is read-locked, while the receive buffer, which the hardware
    /// fills, is write-locked so that every CPU access stays rejected until
    /// the transfer completes. Both streams are then programmed and
    /// enabled, the receive stream before the transmit stream so that no
    /// incoming byte is missed.
    pub fn rxtx_dma<B>(
        &self,
        regs: &mut DmaRegisters,
        tx_buffer: &mut Buffer<B>,
        tx_addr: u32,
        tx_length: u16,
        rx_buffer: &mut Buffer<B>,
        rx_addr: u32,
        rx_length: u16,
    ) -> (r: Result<(), crate::dma2::Error>)
        requires
            self.dmatx_spec() is Some,
            self.dmarx_spec() is Some,
            self.dmatx_spec().unwrap().stream_id() != self.dmarx_spec().unwrap().stream_id(),
        ensures
            ({
                let dt = self.dmatx_spec().unwrap();
                let dr = self.dmarx_spec().unwrap();
                let stt = old(regs).stream_spec(dt.stream_id());
                let str0 = old(regs).stream_spec(dr.stream_id());
                let blocked = stt.en || str0.en || !old(tx_buffer).can_lock() || !old(
                    rx_buffer,
                ).can_lock_mut();
                &&& blocked ==> {
                    &&& r == Result::<(), crate::dma2::Error>::Err(crate::dma2::Error::InUse)
                    &&& *final(regs) == *old(regs)
                    &&& *final(tx_buffer) == *old(tx_buffer)
                    &&& *final(rx_buffer) == *old(rx_buffer)
                }
                &&& !blocked ==> {
                    &&& r is Ok
                    &&& *final(tx_buffer) == old(tx_buffer).lock_spec()
                    &&& final(tx_buffer).hw_state() is LockedForRead
                    &&& final(tx_buffer).count() == old(tx_buffer).count() + 1
                    &&& final(tx_buffer).contents() == old(tx_buffer).contents()
                    &&& final(tx_buffer).stream_id() == old(tx_buffer).stream_id()
                    &&& *final(rx_buffer) == old(rx_buffer).lock_mut_spec()
                    &&& final(rx_buffer).hw_state() is LockedForWrite
                    &&& final(rx_buffer).count() == crate::dma2::WRITING
                    &&& final(rx_buffer).contents() == old(rx_buffer).contents()
                    &&& final(rx_buffer).stream_id() == old(rx_buffer).stream_id()
                    &&& *final(regs) == old(regs).with_stream(
                        dr.stream_id(),
                        stream_started(str0, self.dr_addr_spec(), rx_addr, rx_length),
                    ).with_stream(
                        dt.stream_id(),
                        stream_started(stt, tx_addr, self.dr_addr_spec(), tx_length),
                    )
                }
            }),
            old(tx_buffer).wf() ==> final(tx_buffer).wf(),
            old(rx_buffer).wf() ==> final(rx_buffer).wf(),
    {
        let dma_tx = match &self.dmatx {
            Some(d) => *d,
            None => {
                proof {
                    assert(false);
                }
                Dma::new(crate::dma2::DMAStream::Stream0)
            }
        };
        let dma_rx = match &self.dmarx {
            Some(d) => *d,
            None => {
                proof {
                    assert(false);
                }
                Dma::new(crate::dma2::DMAStream::Stream0)
            }
        };
        if dma_tx.is_enabled(regs) || dma_rx.is_enabled(regs) {
            return Err(crate::dma2::Error::InUse);
        }
        if !tx_buffer.lock_available() || !rx_buffer.lock_mut_available() {
            return Err(crate::dma2::Error::InUse);
        }
        match tx_buffer.lock() {
            Ok(()) => {}
            Err(_) => {
                proof {
                    assert(false);
                }
                return Err(crate::dma2::Error::InUse);
            }
        }
        match rx_buffer.lock_mut() {
            Ok(()) => {}
            Err(_) => {
                proof {
                    assert(false);
                }
                return Err(crate::dma2::Error::InUse);
            }
        }
        let ghost ts = dma_tx.stream_id();
        let ghost rs = dma_rx.stream_id();
        start_stream(dma_rx, regs, self.dr_addr, rx_addr, rx_length);
        proof {
            crate::dma2::lemma_with_stream_read(
                *old(regs),
                rs,
                stream_started(
                    old(regs).stream_spec(rs),
                    self.dr_addr_spec(),
                    rx_addr,
                    rx_length,
                ),
                ts,
            );
        }
        start_stream(dma_tx, regs, tx_addr, self.dr_addr, tx_length);
        Ok(())
    }
}

impl Spi {
    /// Starts a DMA exchange over two raw memory regions, `length` items in
    /// each direction, without locking any buffer: the caller owns the
    /// regions for the duration of the exchange.
    ///
    /// Fails with `InUse` when the transmit stream is already enabled.
    /// Otherwise both streams are programmed and enabled, the receive
    /// stream before the transmit stream so that no incoming byte is
    /// missed.
    pub fn transfer(
        &self,
        regs: &mut DmaRegisters,
        tx_address: u32,
        rx_address: u32,
        length: u16,
    ) -> (r: Result<(), crate::dma2::Error>)
        requires
            self.dmatx_spec() is Some,
            self.dmarx_spec() is Some,
            self.dmatx_spec().unwrap().stream_id() != self.dmarx_spec().unwrap().stream_id(),
        ensures
            ({
                let dt = self.dmatx_spec().unwrap();
                let dr = self.dmarx_spec().unwrap();
                let stt = old(regs).stream_spec(dt.stream_id());
                let str0 = old(regs).stream_spec(dr.stream_id());
                &&& stt.en ==> {
                    &&& r == Result::<(), crate::dma2::Error>::Err(crate::dma2::Error::InUse)
                    &&& *final(regs) == *old(regs)
                }
                &&& !stt.en ==> {
                    &&& r is Ok
                    &&& *final(regs) == old(regs).with_stream(
                        dr.stream_id(),
                        stream_started(str0, self.dr_addr_spec(), rx_address, length),
                    ).with_stream(
                        dt.stream_id(),
                        stream_started(stt, tx_address, self.dr_addr_spec(), length),
                    )
                }
            }),
    {
        let dma_tx = match &self.dmatx {
            Some(d) => *d,
            None => {
                proof {
                    assert(false);
                }
                Dma::new(crate::dma2::DMAStream::Stream0)
            }
        };
        let dma_rx = match &self.dmarx {
            Some(d) => *d,
            None => {
                proof {
                    assert(false);
                }
                Dma::new(crate::dma2::DMAStream::Stream0)
            }
        };
        if dma_tx.is_enabled(regs) {
            return Err(crate::dma2::Error::InUse);
        }
        let ghost ts = dma_tx.stream_id();
        let ghost rs = dma_rx.stream_id();
        start_stream(dma_rx, regs, self.dr_addr, rx_address, length);
        proof {
            crate::dma2::lemma_with_stream_read(
                *old(regs),
                rs,
                stream_started(old(regs).stream_spec(rs), self.dr_addr_spec(), rx_address, length),
                ts,
            );
        }
        start_stream(dma_tx, regs, tx_address, self.dr_addr, length);
        Ok(())
    }
}

/// A stream's registers once a transfer from `src_address` to `dst_address`
/// of `length` items has been programmed and the stream enabled: which
/// address lands in the peripheral-address register depends on the
/// direction the stream was configured for.
pub open spec fn stream_started(
    st: StreamRegs,
    src_address: u32,
    dst_address: u32,
    length: u16,
) -> StreamRegs {
    StreamRegs {
        en: true,
        ndtr: length,
        par: if st.dir is PeriphToMemory {
            src_address
        } else {
            dst_address
        },
        m0ar: if st.dir is PeriphToMemory {
            dst_address
        } else {
            src_address
        },
        ..st
    }
}

/// Programs one stream with a transfer and enables it.
fn start_stream(d: Dma, regs: &mut DmaRegisters, src_address: u32, dst_address: u32, length: u16)
    ensures
        *final(regs) == old(regs).with_stream(
            d.stream_id(),
            stream_started(old(regs).stream_spec(d.stream_id()), src_address, dst_address, length),
        ),
{
    let ghost r0 = *regs;
    let ghost s = d.stream_id();
    let ghost cfg = (StreamRegs {
        ndtr: length,
        par: if r0.stream_spec(s).dir is PeriphToMemory {
            src_address
        } else {
            dst_address
        },
        m0ar: if r0.stream_spec(s).dir is PeriphToMemory {
            dst_address
        } else {
            src_address
        },
        ..r0.stream_spec(s)
    });
    d.set_config(regs, src_address, dst_address, length);
    proof {
        assert(*regs == r0.with_stream(s, cfg));
        crate::dma2::lemma_with_stream_read(r0, s, cfg, s);
    }
    d.enable(regs);
    proof {
        crate::dma2::lemma_with_stream_order(r0, s, cfg, s, (StreamRegs { en: true, ..cfg }));
        assert((StreamRegs { en: true, ..cfg }) == stream_started(
            r0.stream_spec(s),
            src_address,
            dst_address,
            length,
        ));
    }
}

} // verus!
