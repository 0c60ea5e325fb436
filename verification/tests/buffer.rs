use stm32f411_hal::dma2::{
    Buffer, Burst, Channel, DataSize, Dma, DmaRegisters, DMAStream, Direction, Error, LockState,
    Mode, Poll, Priority, StreamRegs,
};

#[test]
fn two_shared_borrows_then_exclusive_rejected() {
    let mut b = Buffer::new(7u32, DMAStream::Stream0);
    let r1 = b.borrow();
    assert!(r1.is_some());
    let r2 = b.borrow();
    assert!(r2.is_some());
    assert_eq!(b.borrow_count(), 2);
    assert!(b.borrow_mut().is_none());
    b.end_borrow(r1.unwrap());
    b.end_borrow(r2.unwrap());
    assert_eq!(b.borrow_count(), 0);
}

#[test]
fn exclusive_borrow_excludes_everything() {
    let mut b = Buffer::new([1u8, 2, 3], DMAStream::Stream1);
    let w = b.borrow_mut();
    assert!(w.is_some());
    assert!(b.borrow().is_none());
    assert!(b.borrow_mut().is_none());
    assert!(b.lock().is_err());
    assert!(b.lock_mut().is_err());
    b.end_borrow_mut(w.unwrap());
    let r = b.borrow();
    assert!(r.is_some());
}

#[test]
fn lock_then_release_restores_borrow_count() {
    let mut regs = DmaRegisters::new();
    let mut b = Buffer::new(vec![0u8; 8], DMAStream::Stream0);
    let r = b.borrow().unwrap();
    assert_eq!(b.borrow_count(), 1);
    assert!(b.lock().is_ok());
    assert_eq!(b.lock_state(), LockState::LockedForRead);
    assert_eq!(b.borrow_count(), 2);
    regs.s0.tcif = true;
    assert_eq!(b.release(&mut regs), Poll::Done);
    assert_eq!(b.lock_state(), LockState::Unlocked);
    assert_eq!(b.borrow_count(), 1);
    assert!(!regs.s0.tcif);
    assert!(!regs.s0.en);
    b.end_borrow(r);
}

#[test]
fn release_when_unlocked_succeeds_without_side_effects() {
    let mut regs = DmaRegisters::new();
    regs.s2.tcif = true;
    regs.s2.teif = true;
    let snapshot = regs;
    let mut b = Buffer::new(5u32, DMAStream::Stream2);
    assert_eq!(b.release(&mut regs), Poll::Done);
    assert_eq!(regs, snapshot);
    assert_eq!(b.lock_state(), LockState::Unlocked);
    assert_eq!(b.borrow_count(), 0);
}

#[test]
fn transfer_error_leaves_buffer_stuck() {
    let mut regs = DmaRegisters::new();
    let d = Dma::new(DMAStream::Stream3);
    d.enable(&mut regs);
    let mut b = Buffer::new(vec![0u8; 4], DMAStream::Stream3);
    assert!(b.lock_mut().is_ok());
    assert_eq!(b.lock_state(), LockState::LockedForWrite);
    regs.s3.teif = true;
    regs.s3.tcif = true;
    assert_eq!(b.release(&mut regs), Poll::Failed(Error::Transfer));
    assert_eq!(b.lock_state(), LockState::LockedForWrite);
    assert!(regs.s3.en);
    assert!(regs.s3.tcif);
    assert_eq!(b.release(&mut regs), Poll::Failed(Error::Transfer));
}

#[test]
fn release_pending_while_no_flag_set() {
    let mut regs = DmaRegisters::new();
    let mut b = Buffer::new(1u8, DMAStream::Stream1);
    assert!(b.lock().is_ok());
    assert_eq!(b.release(&mut regs), Poll::Pending);
    assert_eq!(b.lock_state(), LockState::LockedForRead);
}

#[test]
fn double_lock_is_rejected() {
    let mut b = Buffer::new(0u32, DMAStream::Stream0);
    assert!(b.lock().is_ok());
    assert_eq!(b.lock(), Err(Error::InUse));
    assert_eq!(b.lock_mut(), Err(Error::InUse));
}

#[test]
fn lock_mut_rejected_while_borrowed() {
    let mut b = Buffer::new(0u32, DMAStream::Stream0);
    let r = b.borrow().unwrap();
    assert_eq!(b.lock_mut(), Err(Error::InUse));
    assert!(b.lock().is_ok());
    b.end_borrow(r);
}

#[test]
fn borrow_rejected_while_write_locked() {
    let mut b = Buffer::new(9u64, DMAStream::Stream4);
    assert!(b.lock_mut().is_ok());
    assert!(b.borrow().is_none());
    assert!(b.borrow_mut().is_none());
}

#[test]
fn end_to_end_sixteen_byte_transfer() {
    let mut regs = DmaRegisters::new();
    let d = Dma::new(DMAStream::Stream4);
    let mut b = Buffer::new(vec![0u8; 16], DMAStream::Stream4);
    d.direction(&mut regs, Direction::MemoryToPeriph);
    assert!(b.lock_mut().is_ok());
    d.set_config(&mut regs, 0x1000, 0x2000, 16);
    d.enable(&mut regs);
    assert!(d.is_enabled(&regs));
    assert_eq!(regs.s4.ndtr, 16);
    assert_eq!(regs.s4.par, 0x2000);
    assert_eq!(regs.s4.m0ar, 0x1000);
    regs.s4.tcif = true;
    assert_eq!(b.release(&mut regs), Poll::Done);
    assert_eq!(b.lock_state(), LockState::Unlocked);
    assert!(!d.is_enabled(&regs));
    let r = b.borrow();
    assert!(r.is_some());
}

#[test]
fn set_config_periph_to_memory_address_order() {
    let mut regs = DmaRegisters::new();
    let d = Dma::new(DMAStream::Stream2);
    d.direction(&mut regs, Direction::PeriphToMemory);
    d.set_config(&mut regs, 0x4000_3804, 0x2000_0100, 32);
    assert_eq!(regs.s2.ndtr, 32);
    assert_eq!(regs.s2.par, 0x4000_3804);
    assert_eq!(regs.s2.m0ar, 0x2000_0100);
}

#[test]
fn stream_controller_configuration_surface() {
    let mut regs = DmaRegisters::new();
    let mut d = Dma::new(DMAStream::Stream2);
    d.channel(&mut regs, Channel::C3);
    assert_eq!(regs.s2.chsel, Channel::C3);
    d.mode(&mut regs, Mode::Circular);
    assert!(regs.s2.circ);
    assert!(!regs.s2.pfctrl);
    d.mode(&mut regs, Mode::PeripheralFlowControl);
    assert!(!regs.s2.circ);
    assert!(regs.s2.pfctrl);
    d.mode(&mut regs, Mode::Normal);
    assert!(!regs.s2.circ);
    assert!(!regs.s2.pfctrl);
    d.priority(&mut regs, Priority::VeryHigh);
    assert_eq!(regs.s2.pl, Priority::VeryHigh);
    d.peripheral_increment(&mut regs, true);
    assert!(regs.s2.pinc);
    d.memory_increment(&mut regs, true);
    assert!(regs.s2.minc);
    d.periphdata_alignment(&mut regs, DataSize::Bits16);
    assert_eq!(regs.s2.psize, DataSize::Bits16);
    d.memdata_alignment(&mut regs, DataSize::Bits32);
    assert_eq!(regs.s2.msize, DataSize::Bits32);
    d.memory_burst(&mut regs, Burst::Incr8);
    assert_eq!(regs.s2.mburst, Burst::Incr8);
    d.peripheral_burst(&mut regs, Burst::Incr4);
    assert_eq!(regs.s2.pburst, Burst::Incr4);
    d.init(DMAStream::Stream0);
    d.enable(&mut regs);
    assert!(regs.s0.en);
    assert!(!regs.s2.en);
    // a stream that nothing touched keeps its reset state
    assert_eq!(regs.s3, StreamRegs::new());
}

#[test]
fn buffer_data_reads_wrapped_value() {
    let mut b = Buffer::new(vec![4u8, 5, 6], DMAStream::Stream0);
    assert_eq!(b.data(), &vec![4u8, 5, 6]);
    let r = b.borrow().unwrap();
    assert_eq!(b.data()[1], 5);
    b.end_borrow(r);
}
