//! Direct memory access: per-stream register model, stream controller, and
//! the shared buffers that CPU code and the DMA engine hand back and forth.
//!
//! The DMA engine's registers are modelled as plain values. On the device,
//! unverified glue mirrors these values into the memory-mapped registers and
//! copies the status flags back before each poll; the state machines over
//! them live here and are verified.

use vstd::prelude::*;

verus! {

/// Marker for stream 0 of the first DMA engine.
pub struct DMA1Stream0();

/// Marker for stream 1 of the second DMA engine.
pub struct DMA2Stream1();

/// Marker for stream 4 of the second DMA engine.
pub struct DMA2Stream4();

/// Identifies one stream of a DMA engine.
#[derive(Clone, Copy, PartialEq, Eq, Structural, Debug)]
pub enum DMAStream {
    Stream0,
    Stream1,
    Stream2,
    Stream3,
    Stream4,
}

/// DMA error.
#[derive(Clone, Copy, PartialEq, Eq, Structural, Debug)]
pub enum Error {
    /// The stream is already enabled with a previous transfer.
    InUse,
    /// New data arrived before the previous data was consumed.
    Overrun,
    /// The hardware reported a transfer error.
    Transfer,
}

/// Stream transfer mode.
#[derive(Clone, Copy, PartialEq, Eq, Structural, Debug)]
pub enum Mode {
    Normal,
    Circular,
    PeripheralFlowControl,
}

/// Channel selector of a stream.
#[derive(Clone, Copy, PartialEq, Eq, Structural, Debug)]
pub enum Channel {
    C0,
    C1,
    C2,
    C3,
    C4,
    C5,
    C6,
    C7,
}

/// Transfer direction of a stream.
#[derive(Clone, Copy, PartialEq, Eq, Structural, Debug)]
pub enum Direction {
    PeriphToMemory,
    MemoryToPeriph,
    MemoryToMemory,
}

/// Data width of one transfer beat.
#[derive(Clone, Copy, PartialEq, Eq, Structural, Debug)]
pub enum DataSize {
    Bits8,
    Bits16,
    Bits32,
}

/// Arbitration priority of a stream.
#[derive(Clone, Copy, PartialEq, Eq, Structural, Debug)]
pub enum Priority {
    Low,
    Medium,
    High,
    VeryHigh,
}

/// Burst length of memory or peripheral accesses.
#[derive(Clone, Copy, PartialEq, Eq, Structural, Debug)]
pub enum Burst {
    Single,
    Incr4,
    Incr8,
    Incr16,
}

/// The configuration, transfer and status registers of one stream,
/// as plain values.
#[derive(Clone, Copy, PartialEq, Eq, Structural, Debug)]
pub struct StreamRegs {
    /// Stream enable bit.
    pub en: bool,
    /// Channel selector.
    pub chsel: Channel,
    /// Transfer direction.
    pub dir: Direction,
    /// Peripheral address increment.
    pub pinc: bool,
    /// Memory address increment.
    pub minc: bool,
    /// Peripheral data width.
    pub psize: DataSize,
    /// Memory data width.
    pub msize: DataSize,
    /// Circular mode bit.
    pub circ: bool,
    /// Peripheral flow control bit.
    pub pfctrl: bool,
    /// Priority level.
    pub pl: Priority,
    /// Memory burst length.
    pub mburst: Burst,
    /// Peripheral burst length.
    pub pburst: Burst,
    /// Number of data items left to transfer.
    pub ndtr: u16,
    /// Peripheral address register.
    pub par: u32,
    /// First memory address register.
    pub m0ar: u32,
    /// Second memory address register, for double-buffered transfers.
    pub m1ar: u32,
    /// Transfer-complete status flag.
    pub tcif: bool,
    /// Half-transfer status flag.
    pub htif: bool,
    /// Transfer-error status flag.
    pub teif: bool,
    /// Direct-mode-error status flag.
    pub dmeif: bool,
}

impl StreamRegs {
    /// The state of a stream after reset: disabled, everything cleared.
    pub open spec fn reset() -> StreamRegs {
        StreamRegs {
            en: false,
            chsel: Channel::C0,
            dir: Direction::PeriphToMemory,
            pinc: false,
            minc: false,
            psize: DataSize::Bits8,
            msize: DataSize::Bits8,
            circ: false,
            pfctrl: false,
            pl: Priority::Low,
            mburst: Burst::Single,
            pburst: Burst::Single,
            ndtr: 0,
            par: 0,
            m0ar: 0,
            m1ar: 0,
            tcif: false,
            htif: false,
            teif: false,
            dmeif: false,
        }
    }

    /// Builds the reset state of one stream.
    pub fn new() -> (r: StreamRegs)
        ensures
            r == StreamRegs::reset(),
    {
        StreamRegs {
            en: false,
            chsel: Channel::C0,
            dir: Direction::PeriphToMemory,
            pinc: false,
            minc: false,
            psize: DataSize::Bits8,
            msize: DataSize::Bits8,
            circ: false,
            pfctrl: false,
            pl: Priority::Low,
            mburst: Burst::Single,
            pburst: Burst::Single,
            ndtr: 0,
            par: 0,
            m0ar: 0,
            m1ar: 0,
            tcif: false,
            htif: false,
            teif: false,
            dmeif: false,
        }
    }
}

/// The register block of one DMA engine: one set of stream registers per
/// stream.
#[derive(Clone, Copy, PartialEq, Eq, Structural, Debug)]
pub struct DmaRegisters {
    pub s0: StreamRegs,
    pub s1: StreamRegs,
    pub s2: StreamRegs,
    pub s3: StreamRegs,
    pub s4: StreamRegs,
}

impl DmaRegisters {
    /// The registers of the given stream.
    pub open spec fn stream_spec(self, s: DMAStream) -> StreamRegs {
        match s {
            DMAStream::Stream0 => self.s0,
            DMAStream::Stream1 => self.s1,
            DMAStream::Stream2 => self.s2,
            DMAStream::Stream3 => self.s3,
            DMAStream::Stream4 => self.s4,
        }
    }

    /// This register block with the given stream's registers replaced.
    pub open spec fn with_stream(self, s: DMAStream, r: StreamRegs) -> DmaRegisters {
        match s {
            DMAStream::Stream0 => (DmaRegisters { s0: r, ..self }),
            DMAStream::Stream1 => (DmaRegisters { s1: r, ..self }),
            DMAStream::Stream2 => (DmaRegisters { s2: r, ..self }),
            DMAStream::Stream3 => (DmaRegisters { s3: r, ..self }),
            DMAStream::Stream4 => (DmaRegisters { s4: r, ..self }),
        }
    }

    /// The register block after reset: every stream in its reset state.
    pub open spec fn reset() -> DmaRegisters {
        DmaRegisters {
            s0: StreamRegs::reset(),
            s1: StreamRegs::reset(),
            s2: StreamRegs::reset(),
            s3: StreamRegs::reset(),
            s4: StreamRegs::reset(),
        }
    }

    /// Builds a register block in its reset state.
    pub fn new() -> (r: DmaRegisters)
        ensures
            r == DmaRegisters::reset(),
    {
        DmaRegisters {
            s0: StreamRegs::new(),
            s1: StreamRegs::new(),
            s2: StreamRegs::new(),
            s3: StreamRegs::new(),
            s4: StreamRegs::new(),
        }
    }

    /// Reads the registers of one stream.
    pub fn get_stream(&self, s: DMAStream) -> (r: StreamRegs)
        ensures
            r == self.stream_spec(s),
    {
        match s {
            DMAStream::Stream0 => self.s0,
            DMAStream::Stream1 => self.s1,
            DMAStream::Stream2 => self.s2,
            DMAStream::Stream3 => self.s3,
            DMAStream::Stream4 => self.s4,
        }
    }

    /// Writes the registers of one stream, leaving the other streams as they
    /// were.
    pub fn set_stream(&mut self, s: DMAStream, r: StreamRegs)
        ensures
            *final(self) == old(self).with_stream(s, r),
    {
        match s {
            DMAStream::Stream0 => {
                self.s0 = r;
            }
            DMAStream::Stream1 => {
                self.s1 = r;
            }
            DMAStream::Stream2 => {
                self.s2 = r;
            }
            DMAStream::Stream3 => {
                self.s3 = r;
            }
            DMAStream::Stream4 => {
                self.s4 = r;
            }
        }
    }
}

/// Replacing a stream's registers and reading them back gives the written
/// value; the other streams read as before.
pub proof fn lemma_with_stream_read(r: DmaRegisters, s: DMAStream, v: StreamRegs, t: DMAStream)
    ensures
        r.with_stream(s, v).stream_spec(s) == v,
        s != t ==> r.with_stream(s, v).stream_spec(t) == r.stream_spec(t),
{
}

/// Two writes to the same stream collapse into the second; writes to
/// different streams commute.
pub proof fn lemma_with_stream_order(
    r: DmaRegisters,
    s: DMAStream,
    v1: StreamRegs,
    t: DMAStream,
    v2: StreamRegs,
)
    ensures
        s == t ==> r.with_stream(s, v1).with_stream(t, v2) == r.with_stream(t, v2),
        s != t ==> r.with_stream(s, v1).with_stream(t, v2) == r.with_stream(t, v2).with_stream(
            s,
            v1,
        ),
{
}

/// Configuration and enable surface of one stream: every operation is an
/// immediate register write with no failure path.
#[derive(Clone, Copy, PartialEq, Eq, Structural, Debug)]
pub struct Dma {
    stream: DMAStream,
}

impl Dma {
    /// The stream this controller drives.
    pub closed spec fn stream_id(self) -> DMAStream {
        self.stream
    }

    /// Builds a controller for the given stream.
    pub fn new(stream: DMAStream) -> (d: Dma)
        ensures
            d.stream_id() == stream,
    {
        Dma { stream }
    }

    /// Re-targets the controller at another stream.
    pub fn init(&mut self, stream: DMAStream)
        ensures
            final(self).stream_id() == stream,
    {
        self.stream = stream;
    }

    /// Selects the request channel of the stream.
    pub fn channel(&self, regs: &mut DmaRegisters, channel: Channel)
        ensures
            *final(regs) == old(regs).with_stream(
                self.stream_id(),
                (StreamRegs { chsel: channel, ..old(regs).stream_spec(self.stream_id()) }),
            ),
    {
        let mut st = regs.get_stream(self.stream);
        st.chsel = channel;
        regs.set_stream(self.stream, st);
    }

    /// Sets the transfer direction of the stream.
    pub fn direction(&self, regs: &mut DmaRegisters, direction: Direction)
        ensures
            *final(regs) == old(regs).with_stream(
                self.stream_id(),
                (StreamRegs { dir: direction, ..old(regs).stream_spec(self.stream_id()) }),
            ),
    {
        let mut st = regs.get_stream(self.stream);
        st.dir = direction;
        regs.set_stream(self.stream, st);
    }

    /// Turns peripheral address incrementing on or off.
    pub fn peripheral_increment(&self, regs: &mut DmaRegisters, inc: bool)
        ensures
            *final(regs) == old(regs).with_stream(
                self.stream_id(),
                (StreamRegs { pinc: inc, ..old(regs).stream_spec(self.stream_id()) }),
            ),
    {
        let mut st = regs.get_stream(self.stream);
        st.pinc = inc;
        regs.set_stream(self.stream, st);
    }

    /// Turns memory address incrementing on or off.
    pub fn memory_increment(&self, regs: &mut DmaRegisters, inc: bool)
        ensures
            *final(regs) == old(regs).with_stream(
                self.stream_id(),
                (StreamRegs { minc: inc, ..old(regs).stream_spec(self.stream_id()) }),
            ),
    {
        let mut st = regs.get_stream(self.stream);
        st.minc = inc;
        regs.set_stream(self.stream, st);
    }

    /// Sets the peripheral-side data width.
    pub fn periphdata_alignment(&self, regs: &mut DmaRegisters, size: DataSize)
        ensures
            *final(regs) == old(regs).with_stream(
                self.stream_id(),
                (StreamRegs { psize: size, ..old(regs).stream_spec(self.stream_id()) }),
            ),
    {
        let mut st = regs.get_stream(self.stream);
        st.psize = size;
        regs.set_stream(self.stream, st);
    }

    /// Sets the memory-side data width.
    pub fn memdata_alignment(&self, regs: &mut DmaRegisters, size: DataSize)
        ensures
            *final(regs) == old(regs).with_stream(
                self.stream_id(),
                (StreamRegs { msize: size, ..old(regs).stream_spec(self.stream_id()) }),
            ),
    {
        let mut st = regs.get_stream(self.stream);
        st.msize = size;
        regs.set_stream(self.stream, st);
    }

    /// Sets the transfer mode: the circular and flow-control bits together.
    pub fn mode(&self, regs: &mut DmaRegisters, mode: Mode)
        ensures
            *final(regs) == old(regs).with_stream(
                self.stream_id(),
                (StreamRegs {
                    circ: mode is Circular,
                    pfctrl: mode is PeripheralFlowControl,
                    ..old(regs).stream_spec(self.stream_id())
                }),
            ),
    {
        let circular: bool = match mode {
            Mode::Circular => true,
            _ => false,
        };
        let flow_control: bool = match mode {
            Mode::PeripheralFlowControl => true,
            _ => false,
        };
        let mut st = regs.get_stream(self.stream);
        st.circ = circular;
        st.pfctrl = flow_control;
        regs.set_stream(self.stream, st);
    }

    /// Sets the arbitration priority of the stream.
    pub fn priority(&self, regs: &mut DmaRegisters, priority: Priority)
        ensures
            *final(regs) == old(regs).with_stream(
                self.stream_id(),
                (StreamRegs { pl: priority, ..old(regs).stream_spec(self.stream_id()) }),
            ),
    {
        let mut st = regs.get_stream(self.stream);
        st.pl = priority;
        regs.set_stream(self.stream, st);
    }

    /// Sets the memory burst length.
    pub fn memory_burst(&self, regs: &mut DmaRegisters, burst: Burst)
        ensures
            *final(regs) == old(regs).with_stream(
                self.stream_id(),
                (StreamRegs { mburst: burst, ..old(regs).stream_spec(self.stream_id()) }),
            ),
    {
        let mut st = regs.get_stream(self.stream);
        st.mburst = burst;
        regs.set_stream(self.stream, st);
    }

    /// Sets the peripheral burst length.
    pub fn peripheral_burst(&self, regs: &mut DmaRegisters, burst: Burst)
        ensures
            *final(regs) == old(regs).with_stream(
                self.stream_id(),
                (StreamRegs { pburst: burst, ..old(regs).stream_spec(self.stream_id()) }),
            ),
    {
        let mut st = regs.get_stream(self.stream);
        st.pburst = burst;
        regs.set_stream(self.stream, st);
    }

    /// Sets the stream's enable bit, starting the configured transfer.
    pub fn enable(&self, regs: &mut DmaRegisters)
        ensures
            *final(regs) == old(regs).with_stream(
                self.stream_id(),
                (StreamRegs { en: true, ..old(regs).stream_spec(self.stream_id()) }),
            ),
    {
        let mut st = regs.get_stream(self.stream);
        st.en = true;
        regs.set_stream(self.stream, st);
    }

    /// Clears the stream's enable bit.
    pub fn disable(&self, regs: &mut DmaRegisters)
        ensures
            *final(regs) == old(regs).with_stream(
                self.stream_id(),
                (StreamRegs { en: false, ..old(regs).stream_spec(self.stream_id()) }),
            ),
    {
        let mut st = regs.get_stream(self.stream);
        st.en = false;
        regs.set_stream(self.stream, st);
    }

    /// Whether the stream's enable bit is set.
    pub fn is_enabled(&self, regs: &DmaRegisters) -> (r: bool)
        ensures
            r == regs.stream_spec(self.stream_id()).en,
    {
        regs.get_stream(self.stream).en
    }

    /// Writes the transfer count and the two address registers. Which address
    /// goes into the peripheral-address register depends on the direction the
    /// stream is configured for.
    pub fn set_config(&self, regs: &mut DmaRegisters, src_address: u32, dst_address: u32, length: u16)
        ensures
            *final(regs) == old(regs).with_stream(
                self.stream_id(),
                (StreamRegs {
                    ndtr: length,
                    par: if old(regs).stream_spec(self.stream_id()).dir is PeriphToMemory {
                        src_address
                    } else {
                        dst_address
                    },
                    m0ar: if old(regs).stream_spec(self.stream_id()).dir is PeriphToMemory {
                        dst_address
                    } else {
                        src_address
                    },
                    ..old(regs).stream_spec(self.stream_id())
                }),
            ),
    {
        let mut st = regs.get_stream(self.stream);
        st.ndtr = length;
        if st.dir == Direction::PeriphToMemory {
            st.par = src_address;
            st.m0ar = dst_address;
        } else {
            st.par = dst_address;
            st.m0ar = src_address;
        }
        regs.set_stream(self.stream, st);
    }
}

/// Whether the hardware currently holds a reference into a buffer, and of
/// which kind.
#[derive(Clone, Copy, PartialEq, Eq, Structural, Debug)]
pub enum LockState {
    /// The hardware holds no reference.
    Unlocked,
    /// The hardware holds a read-only reference: it is sending the buffer.
    LockedForRead,
    /// The hardware holds an exclusive reference: it is filling the buffer.
    LockedForWrite,
}

/// The borrow-count value that stands for one live exclusive borrow.
pub const WRITING: usize = usize::MAX;

/// Witness of one live shared borrow of a `Buffer`; hand it back through
/// `Buffer::end_borrow` when done reading.
pub struct Ref {
    token: (),
}

/// Witness of the live exclusive borrow of a `Buffer`; hand it back through
/// `Buffer::end_borrow_mut` when done writing.
pub struct RefMut {
    token: (),
}

/// Outcome of polling a buffer's release.
#[derive(Clone, Copy, PartialEq, Eq, Structural, Debug)]
pub enum Poll {
    /// The hardware has not finished with the buffer yet; poll again.
    Pending,
    /// The buffer is back under CPU ownership.
    Done,
    /// The hardware reported an error; the buffer stays locked for
    /// inspection.
    Failed(Error),
}

/// Orders the DMA engine's memory writes before the CPU reads that follow.
/// Every completion path issues this before giving the buffer back.
///
/// Relies on core::sync::atomic::compiler_fence: a SeqCst compiler fence,
/// with no effect a contract could state.
#[verifier::external_body]
pub(crate) fn memory_fence() {
    core::sync::atomic::compiler_fence(core::sync::atomic::Ordering::SeqCst);
}

/// A value shared between CPU code and one DMA stream. CPU borrows are
/// counted at run time; a separate lock state records whether the hardware
/// currently holds the buffer. The two together enforce that no CPU writer
/// can coexist with any other access, and that the hardware's exclusive
/// access excludes every CPU access.
pub struct Buffer<T> {
    data: T,
    flag: usize,
    state: LockState,
    stream: DMAStream,
}

impl<T> Buffer<T> {
    /// The wrapped value.
    pub closed spec fn contents(self) -> T {
        self.data
    }

    /// The CPU borrow count: 0 for none, a positive count for that many
    /// shared borrows, `WRITING` for one exclusive borrow.
    pub closed spec fn count(self) -> usize {
        self.flag
    }

    /// Whether, and how, the hardware holds the buffer.
    pub closed spec fn hw_state(self) -> LockState {
        self.state
    }

    /// The stream this buffer is tied to.
    pub closed spec fn stream_id(self) -> DMAStream {
        self.stream
    }

    /// Well-formedness: the borrow count is consistent with the hardware
    /// lock. A hardware write-lock holds the exclusive count; a hardware
    /// read-lock holds at least one shared count.
    pub open spec fn wf(self) -> bool {
        &&& (self.hw_state() is LockedForWrite ==> self.count() == WRITING)
        &&& (self.hw_state() is LockedForRead ==> 1 <= self.count() < WRITING)
    }

    /// Some shared borrow is live.
    pub open spec fn live_shared(self) -> bool {
        0 < self.count() < WRITING
    }

    /// The exclusive borrow is live (held by CPU code or by a hardware
    /// write-lock).
    pub open spec fn live_exclusive(self) -> bool {
        self.count() == WRITING
    }

    /// A new shared borrow may be created: no exclusive borrow, no hardware
    /// write-lock, and room left in the counter.
    pub open spec fn can_borrow(self) -> bool {
        &&& self.count() + 1 < WRITING
        &&& !(self.hw_state() is LockedForWrite)
    }

    /// The exclusive borrow may be created: no borrow of any kind and no
    /// hardware lock.
    pub open spec fn can_borrow_mut(self) -> bool {
        &&& self.count() == 0
        &&& self.hw_state() is Unlocked
    }

    /// The hardware may take a read-lock: it is not holding the buffer
    /// already, no exclusive borrow is live, and the counter has room.
    pub open spec fn can_lock(self) -> bool {
        &&& self.hw_state() is Unlocked
        &&& self.count() + 1 < WRITING
    }

    /// The hardware may take a write-lock: it is not holding the buffer
    /// already and no CPU borrow of any kind is live.
    pub open spec fn can_lock_mut(self) -> bool {
        &&& self.hw_state() is Unlocked
        &&& self.count() == 0
    }

    /// The buffer after the hardware takes a read-lock.
    pub closed spec fn lock_spec(self) -> Buffer<T> {
        Buffer { state: LockState::LockedForRead, flag: (self.flag + 1) as usize, ..self }
    }

    /// The buffer after the hardware takes a write-lock.
    pub closed spec fn lock_mut_spec(self) -> Buffer<T> {
        Buffer { state: LockState::LockedForWrite, flag: WRITING, ..self }
    }

    /// The buffer after the hardware gives it back: unlocked, with the
    /// borrow-count adjustment of the lock undone.
    pub closed spec fn unlock_spec(self) -> Buffer<T> {
        Buffer {
            state: LockState::Unlocked,
            flag: if self.state is LockedForRead {
                (self.flag - 1) as usize
            } else {
                0
            },
            ..self
        }
    }

    /// Creates a new buffer tied to `stream`: unlocked, with no live borrow.
    pub fn new(data: T, stream: DMAStream) -> (b: Buffer<T>)
        ensures
            b.contents() == data,
            b.count() == 0,
            b.hw_state() is Unlocked,
            b.stream_id() == stream,
            b.wf(),
    {
        Buffer { stream, data, state: LockState::Unlocked, flag: 0 }
    }

    /// The current CPU borrow count.
    pub fn borrow_count(&self) -> (r: usize)
        ensures
            r == self.count(),
    {
        self.flag
    }

    /// The current hardware lock state.
    pub fn lock_state(&self) -> (r: LockState)
        ensures
            r == self.hw_state(),
    {
        self.state
    }

    /// Reads the wrapped value. No live exclusive borrow may exist: while
    /// CPU code or the hardware may write the buffer, reading it would race.
    pub fn data(&self) -> (r: &T)
        requires
            self.count() != WRITING,
            !(self.hw_state() is LockedForWrite),
        ensures
            *r == self.contents(),
    {
        &self.data
    }

    /// Replaces the wrapped value through the live exclusive borrow.
    pub fn set_data(&mut self, value: T)
        requires
            old(self).count() == WRITING,
        ensures
            final(self).contents() == value,
            final(self).count() == old(self).count(),
            final(self).hw_state() == old(self).hw_state(),
            final(self).stream_id() == old(self).stream_id(),
    {
        self.data = value;
    }

    /// Takes a shared borrow of the wrapped value, or reports the conflict.
    ///
    /// Returns a witness exactly when no exclusive borrow and no hardware
    /// write-lock is live; the count goes up by one and comes back down when
    /// the witness is returned through `end_borrow`.
    pub fn borrow(&mut self) -> (r: Option<Ref>)
        ensures
            r is Some <==> old(self).can_borrow(),
            r is Some ==> {
                &&& final(self).count() == old(self).count() + 1
                &&& final(self).hw_state() == old(self).hw_state()
                &&& final(self).contents() == old(self).contents()
                &&& final(self).stream_id() == old(self).stream_id()
            },
            r is None ==> *final(self) == *old(self),
            old(self).wf() ==> final(self).wf(),
    {
        if self.flag < WRITING - 1 && self.state != LockState::LockedForWrite {
            self.flag = self.flag + 1;
            Some(Ref { token: () })
        } else {
            None
        }
    }

    /// Takes the exclusive borrow of the wrapped value, or reports the
    /// conflict.
    ///
    /// Returns a witness exactly when no borrow of any kind and no hardware
    /// lock is live; the count becomes `WRITING` and is reset when the
    /// witness is returned through `end_borrow_mut`.
    pub fn borrow_mut(&mut self) -> (r: Option<RefMut>)
        ensures
            r is Some <==> old(self).can_borrow_mut(),
            r is Some ==> {
                &&& final(self).count() == WRITING
                &&& final(self).hw_state() == old(self).hw_state()
                &&& final(self).contents() == old(self).contents()
                &&& final(self).stream_id() == old(self).stream_id()
            },
            r is None ==> *final(self) == *old(self),
            old(self).wf() ==> final(self).wf(),
    {
        if self.flag == 0 && self.state == LockState::Unlocked {
            self.flag = WRITING;
            Some(RefMut { token: () })
        } else {
            None
        }
    }

    /// Ends one shared borrow: the count goes back down by one.
    pub fn end_borrow(&mut self, witness: Ref)
        requires
            old(self).live_shared(),
        ensures
            final(self).count() == old(self).count() - 1,
            final(self).hw_state() == old(self).hw_state(),
            final(self).contents() == old(self).contents(),
            final(self).stream_id() == old(self).stream_id(),
            old(self).wf() && old(self).hw_state() is Unlocked ==> final(self).wf(),
    {
        let Ref { token: () } = witness;
        self.flag = self.flag - 1;
    }

    /// Ends the exclusive borrow: the count goes back to zero.
    pub fn end_borrow_mut(&mut self, witness: RefMut)
        requires
            old(self).live_exclusive(),
            !(old(self).hw_state() is LockedForWrite),
        ensures
            final(self).count() == 0,
            final(self).hw_state() == old(self).hw_state(),
            final(self).contents() == old(self).contents(),
            final(self).stream_id() == old(self).stream_id(),
            old(self).wf() ==> final(self).wf(),
    {
        let RefMut { token: () } = witness;
        self.flag = 0;
    }

    /// Whether the hardware could take a read-lock right now.
    pub fn lock_available(&self) -> (r: bool)
        ensures
            r == self.can_lock(),
    {
        self.state == LockState::Unlocked && self.flag < WRITING - 1
    }

    /// Whether the hardware could take a write-lock right now.
    pub fn lock_mut_available(&self) -> (r: bool)
        ensures
            r == self.can_lock_mut(),
    {
        self.state == LockState::Unlocked && self.flag == 0
    }

    /// Hands the hardware a read-only reference for the duration of a
    /// transfer out of the buffer. Fails with `InUse` when the hardware
    /// already holds the buffer; the shared count goes up by one so that
    /// conflicting CPU borrows stay rejected while the hardware reads.
    pub fn lock(&mut self) -> (r: Result<(), Error>)
        ensures
            r is Ok <==> old(self).can_lock(),
            r is Ok ==> *final(self) == old(self).lock_spec(),
            r is Ok ==> {
                &&& final(self).count() == old(self).count() + 1
                &&& final(self).hw_state() is LockedForRead
                &&& final(self).contents() == old(self).contents()
                &&& final(self).stream_id() == old(self).stream_id()
            },
            r is Err ==> r == Result::<(), Error>::Err(Error::InUse) && *final(self) == *old(self),
            old(self).wf() ==> final(self).wf(),
    {
        if self.state == LockState::Unlocked && self.flag < WRITING - 1 {
            self.flag = self.flag + 1;
            self.state = LockState::LockedForRead;
            Ok(())
        } else {
            Err(Error::InUse)
        }
    }

    /// Hands the hardware an exclusive reference for the duration of a
    /// transfer into the buffer. Fails with `InUse` when the hardware
    /// already holds the buffer or any CPU borrow is live; the count becomes
    /// `WRITING` so that every CPU access stays rejected while the hardware
    /// writes.
    pub fn lock_mut(&mut self) -> (r: Result<(), Error>)
        ensures
            r is Ok <==> old(self).can_lock_mut(),
            r is Ok ==> *final(self) == old(self).lock_mut_spec(),
            r is Ok ==> {
                &&& final(self).count() == WRITING
                &&& final(self).hw_state() is LockedForWrite
                &&& final(self).contents() == old(self).contents()
                &&& final(self).stream_id() == old(self).stream_id()
            },
            r is Err ==> r == Result::<(), Error>::Err(Error::InUse) && *final(self) == *old(self),
            old(self).wf() ==> final(self).wf(),
    {
        if self.state == LockState::Unlocked && self.flag == 0 {
            self.flag = WRITING;
            self.state = LockState::LockedForWrite;
            Ok(())
        } else {
            Err(Error::InUse)
        }
    }

    /// Polls whether the hardware has released this buffer.
    ///
    /// A buffer that is not locked is already released: `Done`, no side
    /// effect. Otherwise the stream's error flag is read first: if set, the
    /// poll reports the transfer error and changes nothing, leaving the
    /// stream and the lock in place for inspection. Otherwise, if the
    /// transfer-complete flag is set, the flag is cleared, the stream is
    /// disabled, the lock's borrow-count adjustment is undone and the buffer
    /// is `Unlocked` again: `Done`. With neither flag set the transfer is
    /// still running: `Pending`.
    pub fn release(&mut self, regs: &mut DmaRegisters) -> (r: Poll)
        requires
            old(self).wf(),
        ensures
            final(self).wf(),
            old(self).hw_state() is Unlocked ==> {
                &&& r == Poll::Done
                &&& *final(self) == *old(self)
                &&& *final(regs) == *old(regs)
            },
            !(old(self).hw_state() is Unlocked)
                && old(regs).stream_spec(old(self).stream_id()).teif ==> {
                &&& r == Poll::Failed(Error::Transfer)
                &&& *final(self) == *old(self)
                &&& *final(regs) == *old(regs)
            },
            !(old(self).hw_state() is Unlocked)
                && !old(regs).stream_spec(old(self).stream_id()).teif
                && old(regs).stream_spec(old(self).stream_id()).tcif ==> {
                &&& r == Poll::Done
                &&& *final(self) == old(self).unlock_spec()
                &&& final(self).hw_state() is Unlocked
                &&& final(self).contents() == old(self).contents()
                &&& final(self).stream_id() == old(self).stream_id()
                &&& (old(self).hw_state() is LockedForRead ==> final(self).count() == old(
                    self,
                ).count() - 1)
                &&& (old(self).hw_state() is LockedForWrite ==> final(self).count() == 0)
                &&& *final(regs) == old(regs).with_stream(
                    old(self).stream_id(),
                    (StreamRegs {
                        tcif: false,
                        en: false,
                        ..old(regs).stream_spec(old(self).stream_id())
                    }),
                )
            },
            !(old(self).hw_state() is Unlocked)
                && !old(regs).stream_spec(old(self).stream_id()).teif
                && !old(regs).stream_spec(old(self).stream_id()).tcif ==> {
                &&& r == Poll::Pending
                &&& *final(self) == *old(self)
                &&& *final(regs) == *old(regs)
            },
    {
        if self.state == LockState::Unlocked {
            return Poll::Done;
        }
        let st = regs.get_stream(self.stream);
        if st.teif {
            Poll::Failed(Error::Transfer)
        } else if st.tcif {
            memory_fence();
            if self.state == LockState::LockedForRead {
                self.flag = self.flag - 1;
            } else {
                self.flag = 0;
            }
            self.state = LockState::Unlocked;
            let mut st2 = st;
            st2.tcif = false;
            st2.en = false;
            regs.set_stream(self.stream, st2);
            Poll::Done
        } else {
            Poll::Pending
        }
    }
}

/// State of a circular double buffer: which half, if any, the hardware is
/// currently filling.
#[derive(Clone, Copy, PartialEq, Eq, Structural, Debug)]
pub enum CircState {
    /// No capture is running.
    Free,
    /// The hardware is filling half 0; half 1 is safe to read.
    FillingHalf0,
    /// The hardware is filling half 1; half 0 is safe to read.
    FillingHalf1,
}

/// Outcome of polling a circular buffer for a finished half.
#[derive(Clone, Copy, PartialEq, Eq, Structural, Debug)]
pub enum CircOutcome {
    /// The hardware has not finished a half since the last read.
    Pending,
    /// The half with this index has just been finished and is safe to read.
    Ready(usize),
    /// The hardware reported an error, or a half was overwritten before it
    /// was read.
    Failed(Error),
}

/// A fixed pair of buffer halves dedicated to one stream, for continuous
/// capture: the hardware fills one half while the CPU reads the other, and
/// the half-transfer and transfer-complete flags drive the hand-over.
pub struct CircBuffer<T> {
    half0: T,
    half1: T,
    state: CircState,
    stream: DMAStream,
}

impl<T> CircBuffer<T> {
    /// The first half.
    pub closed spec fn half0_spec(self) -> T {
        self.half0
    }

    /// The second half.
    pub closed spec fn half1_spec(self) -> T {
        self.half1
    }

    /// Which half, if any, the hardware is filling.
    pub closed spec fn circ_state(self) -> CircState {
        self.state
    }

    /// The stream this buffer pair is tied to.
    pub closed spec fn stream_id(self) -> DMAStream {
        self.stream
    }

    /// Creates a buffer pair for `stream`, with no capture running.
    pub fn new(half0: T, half1: T, stream: DMAStream) -> (b: CircBuffer<T>)
        ensures
            b.half0_spec() == half0,
            b.half1_spec() == half1,
            b.circ_state() is Free,
            b.stream_id() == stream,
    {
        CircBuffer { half0, half1, stream, state: CircState::Free }
    }

    /// Which half, if any, the hardware is filling.
    pub fn state(&self) -> (r: CircState)
        ensures
            r == self.circ_state(),
    {
        self.state
    }

    /// Reads one half. No capture may be running while CPU code holds a
    /// reference into the pair, so this is allowed only while `Free`, or for
    /// the half the hardware is not filling via the index that `read`
    /// returned.
    pub fn half(&self, index: usize) -> (r: &T)
        requires
            index < 2,
        ensures
            index == 0 ==> *r == self.half0_spec(),
            index == 1 ==> *r == self.half1_spec(),
    {
        if index == 0 {
            &self.half0
        } else {
            &self.half1
        }
    }

    /// Starts continuous capture: the hardware begins filling half 0. Fails
    /// with `InUse` when a capture is already running.
    pub fn lock(&mut self) -> (r: Result<(), Error>)
        ensures
            r is Ok <==> old(self).circ_state() is Free,
            r is Ok ==> {
                &&& final(self).circ_state() is FillingHalf0
                &&& final(self).half0_spec() == old(self).half0_spec()
                &&& final(self).half1_spec() == old(self).half1_spec()
                &&& final(self).stream_id() == old(self).stream_id()
            },
            r is Err ==> r == Result::<(), Error>::Err(Error::InUse) && *final(self) == *old(self),
    {
        if self.state == CircState::Free {
            self.state = CircState::FillingHalf0;
            Ok(())
        } else {
            Err(Error::InUse)
        }
    }

    /// Polls for a finished half. A capture must be running.
    ///
    /// The stream's error flag is read first: if set, the poll fails with
    /// the transfer error and changes nothing. While the hardware fills half
    /// 0, a set transfer-complete flag means it has already wrapped past the
    /// unread half: `Overrun`, nothing changed. A set half-transfer flag
    /// means half 0 is finished: the flag is cleared, the hardware moves on
    /// to half 1 and half 0 is handed out. While the hardware fills half 1
    /// the same holds with the two flags and halves exchanged. With no flag
    /// set: `Pending`.
    pub fn read(&mut self, regs: &mut DmaRegisters) -> (r: CircOutcome)
        requires
            !(old(self).circ_state() is Free),
        ensures
            final(self).half0_spec() == old(self).half0_spec(),
            final(self).half1_spec() == old(self).half1_spec(),
            final(self).stream_id() == old(self).stream_id(),
            old(regs).stream_spec(old(self).stream_id()).teif ==> {
                &&& r == CircOutcome::Failed(Error::Transfer)
                &&& *final(self) == *old(self)
                &&& *final(regs) == *old(regs)
            },
            old(self).circ_state() is FillingHalf0
                && !old(regs).stream_spec(old(self).stream_id()).teif ==> {
                let st = old(regs).stream_spec(old(self).stream_id());
                &&& st.tcif ==> {
                    &&& r == CircOutcome::Failed(Error::Overrun)
                    &&& *final(self) == *old(self)
                    &&& *final(regs) == *old(regs)
                }
                &&& !st.tcif && st.htif ==> {
                    &&& r == CircOutcome::Ready(0)
                    &&& final(self).circ_state() is FillingHalf1
                    &&& *final(regs) == old(regs).with_stream(
                        old(self).stream_id(),
                        (StreamRegs { htif: false, ..st }),
                    )
                }
                &&& !st.tcif && !st.htif ==> {
                    &&& r == CircOutcome::Pending
                    &&& *final(self) == *old(self)
                    &&& *final(regs) == *old(regs)
                }
            },
            old(self).circ_state() is FillingHalf1
                && !old(regs).stream_spec(old(self).stream_id()).teif ==> {
                let st = old(regs).stream_spec(old(self).stream_id());
                &&& st.htif ==> {
                    &&& r == CircOutcome::Failed(Error::Overrun)
                    &&& *final(self) == *old(self)
                    &&& *final(regs) == *old(regs)
                }
                &&& !st.htif && st.tcif ==> {
                    &&& r == CircOutcome::Ready(1)
                    &&& final(self).circ_state() is FillingHalf0
                    &&& *final(regs) == old(regs).with_stream(
                        old(self).stream_id(),
                        (StreamRegs { tcif: false, ..st }),
                    )
                }
                &&& !st.htif && !st.tcif ==> {
                    &&& r == CircOutcome::Pending
                    &&& *final(self) == *old(self)
                    &&& *final(regs) == *old(regs)
                }
            },
    {
        let st = regs.get_stream(self.stream);
        if st.teif {
            return CircOutcome::Failed(Error::Transfer);
        }
        if self.state == CircState::FillingHalf0 {
            if st.tcif {
                CircOutcome::Failed(Error::Overrun)
            } else if st.htif {
                memory_fence();
                let mut st2 = st;
                st2.htif = false;
                regs.set_stream(self.stream, st2);
                self.state = CircState::FillingHalf1;
                CircOutcome::Ready(0)
            } else {
                CircOutcome::Pending
            }
        } else {
            if st.htif {
                CircOutcome::Failed(Error::Overrun)
            } else if st.tcif {
                memory_fence();
                let mut st2 = st;
                st2.tcif = false;
                regs.set_stream(self.stream, st2);
                self.state = CircState::FillingHalf0;
                CircOutcome::Ready(1)
            } else {
                CircOutcome::Pending
            }
        }
    }
}

/// At most one exclusive borrow, or any number of shared borrows, can be
/// live at once: while the exclusive borrow is live no further borrow of
/// either kind can be created, and while any shared borrow is live the
/// exclusive borrow cannot be created. A conflicting call is thus rejected
/// before it can touch the wrapped value.
pub proof fn lemma_borrow_exclusion<T>(b: Buffer<T>)
    ensures
        b.live_exclusive() ==> !b.can_borrow() && !b.can_borrow_mut(),
        b.live_shared() ==> !b.can_borrow_mut(),
{
}

/// Locking and then releasing a buffer (once the hardware has signalled
/// completion) returns it to `Unlocked` with the borrow count it had before
/// the lock, and leaves the wrapped value untouched; the same holds for a
/// write-lock.
pub proof fn lemma_lock_release_round_trip<T>(b: Buffer<T>)
    requires
        b.wf(),
    ensures
        b.can_lock() ==> {
            &&& b.lock_spec().unlock_spec().hw_state() is Unlocked
            &&& b.lock_spec().unlock_spec().count() == b.count()
            &&& b.lock_spec().unlock_spec().contents() == b.contents()
            &&& b.lock_spec().unlock_spec().stream_id() == b.stream_id()
        },
        b.can_lock_mut() ==> {
            &&& b.lock_mut_spec().unlock_spec().hw_state() is Unlocked
            &&& b.lock_mut_spec().unlock_spec().count() == b.count()
            &&& b.lock_mut_spec().unlock_spec().contents() == b.contents()
            &&& b.lock_mut_spec().unlock_spec().stream_id() == b.stream_id()
        },
{
}

} // verus!
