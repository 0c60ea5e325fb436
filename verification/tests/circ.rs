use stm32f411_hal::dma2::{CircBuffer, CircOutcome, CircState, DmaRegisters, DMAStream, Error};

#[test]
fn half_transfer_yields_half_zero() {
    let mut regs = DmaRegisters::new();
    let mut cb = CircBuffer::new(vec![1u8, 2], vec![3u8, 4], DMAStream::Stream1);
    assert_eq!(cb.state(), CircState::Free);
    assert!(cb.lock().is_ok());
    assert_eq!(cb.state(), CircState::FillingHalf0);
    regs.s1.htif = true;
    assert_eq!(cb.read(&mut regs), CircOutcome::Ready(0));
    assert_eq!(cb.state(), CircState::FillingHalf1);
    assert!(!regs.s1.htif);
    assert_eq!(cb.half(0), &vec![1u8, 2]);
}

#[test]
fn transfer_complete_yields_half_one() {
    let mut regs = DmaRegisters::new();
    let mut cb = CircBuffer::new(vec![1u8, 2], vec![3u8, 4], DMAStream::Stream1);
    assert!(cb.lock().is_ok());
    regs.s1.htif = true;
    assert_eq!(cb.read(&mut regs), CircOutcome::Ready(0));
    regs.s1.tcif = true;
    assert_eq!(cb.read(&mut regs), CircOutcome::Ready(1));
    assert_eq!(cb.state(), CircState::FillingHalf0);
    assert!(!regs.s1.tcif);
    assert_eq!(cb.half(1), &vec![3u8, 4]);
}

#[test]
fn overrun_when_hardware_wraps_first() {
    let mut regs = DmaRegisters::new();
    let mut cb = CircBuffer::new([0u16; 8], [0u16; 8], DMAStream::Stream0);
    assert!(cb.lock().is_ok());
    regs.s0.tcif = true;
    regs.s0.htif = true;
    assert_eq!(cb.read(&mut regs), CircOutcome::Failed(Error::Overrun));
    assert_eq!(cb.state(), CircState::FillingHalf0);
    assert!(regs.s0.tcif);
    assert!(regs.s0.htif);
}

#[test]
fn overrun_in_second_half_on_stale_half_flag() {
    let mut regs = DmaRegisters::new();
    let mut cb = CircBuffer::new(0u32, 0u32, DMAStream::Stream2);
    assert!(cb.lock().is_ok());
    regs.s2.htif = true;
    assert_eq!(cb.read(&mut regs), CircOutcome::Ready(0));
    regs.s2.htif = true;
    regs.s2.tcif = true;
    assert_eq!(cb.read(&mut regs), CircOutcome::Failed(Error::Overrun));
    assert_eq!(cb.state(), CircState::FillingHalf1);
}

#[test]
fn read_pending_with_no_flag() {
    let mut regs = DmaRegisters::new();
    let mut cb = CircBuffer::new(1u8, 2u8, DMAStream::Stream3);
    assert!(cb.lock().is_ok());
    assert_eq!(cb.read(&mut regs), CircOutcome::Pending);
    assert_eq!(cb.state(), CircState::FillingHalf0);
}

#[test]
fn read_reports_transfer_error_first() {
    let mut regs = DmaRegisters::new();
    let mut cb = CircBuffer::new(1u8, 2u8, DMAStream::Stream4);
    assert!(cb.lock().is_ok());
    regs.s4.teif = true;
    regs.s4.htif = true;
    assert_eq!(cb.read(&mut regs), CircOutcome::Failed(Error::Transfer));
    assert_eq!(cb.state(), CircState::FillingHalf0);
    assert!(regs.s4.htif);
}

#[test]
fn lock_twice_is_in_use() {
    let mut cb = CircBuffer::new(0u8, 0u8, DMAStream::Stream0);
    assert!(cb.lock().is_ok());
    assert_eq!(cb.lock(), Err(Error::InUse));
    assert_eq!(cb.state(), CircState::FillingHalf0);
}
