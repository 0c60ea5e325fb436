use stm32f411_hal::dma::{Transfer, WaitOutcome};
use stm32f411_hal::dma2::{Buffer, Dma, DmaRegisters, DMAStream, Direction, Error, LockState};
use stm32f411_hal::spi2::Spi;

#[test]
fn is_done_reflects_flags() {
    let mut regs = DmaRegisters::new();
    let t = Transfer::new(vec![0u8; 4], 7u32, DMAStream::Stream2);
    assert_eq!(t.is_done(&regs), Ok(false));
    regs.s2.tcif = true;
    assert_eq!(t.is_done(&regs), Ok(true));
    regs.s2.teif = true;
    assert_eq!(t.is_done(&regs), Err(Error::Transfer));
}

#[test]
fn wait_consumes_handle_and_returns_both_values() {
    let mut regs = DmaRegisters::new();
    regs.s2.tcif = true;
    let t = Transfer::new(vec![9u8; 4], "port", DMAStream::Stream2);
    match t.wait(&mut regs) {
        WaitOutcome::Done(buffer, payload) => {
            assert_eq!(buffer, vec![9u8; 4]);
            assert_eq!(payload, "port");
        }
        _ => panic!("transfer should have completed"),
    }
    // `t` has been moved into `wait`: the handle cannot be waited on again,
    // so the buffer cannot be reclaimed twice.
    assert!(!regs.s2.tcif);
}

#[test]
fn wait_hands_the_handle_back_while_pending() {
    let mut regs = DmaRegisters::new();
    let t = Transfer::new([1u16, 2], 0u8, DMAStream::Stream0);
    let t2 = match t.wait(&mut regs) {
        WaitOutcome::Pending(again) => again,
        _ => panic!("nothing signalled, the transfer cannot have finished"),
    };
    regs.s0.tcif = true;
    match t2.wait(&mut regs) {
        WaitOutcome::Done(buffer, payload) => {
            assert_eq!(buffer, [1u16, 2]);
            assert_eq!(payload, 0u8);
        }
        _ => panic!("transfer should have completed"),
    }
}

#[test]
fn wait_on_error_consumes_buffer_and_payload() {
    let mut regs = DmaRegisters::new();
    regs.s3.teif = true;
    regs.s3.tcif = true;
    let t = Transfer::new(vec![1u8], 2u8, DMAStream::Stream3);
    match t.wait(&mut regs) {
        WaitOutcome::Failed(e) => assert_eq!(e, Error::Transfer),
        _ => panic!("the error flag must win"),
    }
    assert!(regs.s3.teif);
    assert!(regs.s3.tcif);
}

#[test]
fn send_dma_configures_locks_and_enables() {
    let mut regs = DmaRegisters::new();
    let tx = Dma::new(DMAStream::Stream1);
    tx.direction(&mut regs, Direction::MemoryToPeriph);
    let spi = Spi::new(0x4001_300C, None, Some(tx));
    let mut buffer = Buffer::new(vec![0xAAu8; 8], DMAStream::Stream1);
    assert!(spi.send_dma(&mut regs, &mut buffer, 0x2000_0000, 8).is_ok());
    assert_eq!(buffer.lock_state(), LockState::LockedForRead);
    assert_eq!(buffer.borrow_count(), 1);
    assert!(regs.s1.en);
    assert_eq!(regs.s1.ndtr, 8);
    assert_eq!(regs.s1.par, 0x4001_300C);
    assert_eq!(regs.s1.m0ar, 0x2000_0000);
}

#[test]
fn send_dma_rejects_running_stream() {
    let mut regs = DmaRegisters::new();
    let tx = Dma::new(DMAStream::Stream1);
    tx.enable(&mut regs);
    let spi = Spi::new(0x4001_300C, None, Some(tx));
    let mut buffer = Buffer::new(vec![0u8; 8], DMAStream::Stream1);
    assert_eq!(spi.send_dma(&mut regs, &mut buffer, 0x2000_0000, 8), Err(Error::InUse));
    assert_eq!(buffer.lock_state(), LockState::Unlocked);
    assert_eq!(buffer.borrow_count(), 0);
}

#[test]
fn rxtx_dma_programs_both_streams() {
    let mut regs = DmaRegisters::new();
    let tx = Dma::new(DMAStream::Stream1);
    let rx = Dma::new(DMAStream::Stream4);
    tx.direction(&mut regs, Direction::MemoryToPeriph);
    rx.direction(&mut regs, Direction::PeriphToMemory);
    let spi = Spi::new(0x4001_300C, Some(rx), Some(tx));
    let mut txb = Buffer::new(vec![1u8; 4], DMAStream::Stream1);
    let mut rxb = Buffer::new(vec![0u8; 4], DMAStream::Stream4);
    let outcome = spi.rxtx_dma(
        &mut regs,
        &mut txb,
        0x2000_0000,
        4,
        &mut rxb,
        0x2000_0100,
        4,
    );
    assert!(outcome.is_ok());
    assert_eq!(txb.lock_state(), LockState::LockedForRead);
    assert_eq!(txb.borrow_count(), 1);
    // the hardware fills the receive buffer, so it holds the exclusive lock
    assert_eq!(rxb.lock_state(), LockState::LockedForWrite);
    assert!(rxb.borrow().is_none());
    assert!(regs.s1.en);
    assert!(regs.s4.en);
    assert_eq!(regs.s1.par, 0x4001_300C);
    assert_eq!(regs.s1.m0ar, 0x2000_0000);
    assert_eq!(regs.s4.par, 0x4001_300C);
    assert_eq!(regs.s4.m0ar, 0x2000_0100);
}

#[test]
fn raw_transfer_programs_both_streams() {
    let mut regs = DmaRegisters::new();
    let tx = Dma::new(DMAStream::Stream0);
    let rx = Dma::new(DMAStream::Stream3);
    tx.direction(&mut regs, Direction::MemoryToPeriph);
    rx.direction(&mut regs, Direction::PeriphToMemory);
    let spi = Spi::new(0x4001_300C, Some(rx), Some(tx));
    assert!(spi.transfer(&mut regs, 0x2000_0000, 0x2000_0200, 6).is_ok());
    assert!(regs.s0.en);
    assert!(regs.s3.en);
    assert_eq!(regs.s0.ndtr, 6);
    assert_eq!(regs.s3.ndtr, 6);
    assert_eq!(regs.s0.par, 0x4001_300C);
    assert_eq!(regs.s0.m0ar, 0x2000_0000);
    assert_eq!(regs.s3.par, 0x4001_300C);
    assert_eq!(regs.s3.m0ar, 0x2000_0200);
    tx.disable(&mut regs);
    assert!(!regs.s0.en);
    // a still-running transmit stream blocks the next exchange
    tx.enable(&mut regs);
    assert_eq!(spi.transfer(&mut regs, 0, 0, 1), Err(Error::InUse));
}

#[test]
fn rxtx_dma_rejects_a_borrowed_receive_buffer() {
    let mut regs = DmaRegisters::new();
    let tx = Dma::new(DMAStream::Stream1);
    let rx = Dma::new(DMAStream::Stream4);
    let spi = Spi::new(0x4001_300C, Some(rx), Some(tx));
    let mut txb = Buffer::new(vec![1u8; 4], DMAStream::Stream1);
    let mut rxb = Buffer::new(vec![0u8; 4], DMAStream::Stream4);
    let reader = rxb.borrow().unwrap();
    let outcome = spi.rxtx_dma(
        &mut regs,
        &mut txb,
        0x2000_0000,
        4,
        &mut rxb,
        0x2000_0100,
        4,
    );
    assert_eq!(outcome, Err(Error::InUse));
    assert_eq!(txb.lock_state(), LockState::Unlocked);
    assert_eq!(txb.borrow_count(), 0);
    assert!(!regs.s1.en);
    assert!(!regs.s4.en);
    rxb.end_borrow(reader);
}

#[test]
fn rxtx_dma_rejects_when_either_stream_runs() {
    let mut regs = DmaRegisters::new();
    let tx = Dma::new(DMAStream::Stream1);
    let rx = Dma::new(DMAStream::Stream4);
    rx.enable(&mut regs);
    let spi = Spi::new(0x4001_300C, Some(rx), Some(tx));
    let mut txb = Buffer::new(vec![1u8; 4], DMAStream::Stream1);
    let mut rxb = Buffer::new(vec![0u8; 4], DMAStream::Stream4);
    let outcome = spi.rxtx_dma(
        &mut regs,
        &mut txb,
        0x2000_0000,
        4,
        &mut rxb,
        0x2000_0100,
        4,
    );
    assert_eq!(outcome, Err(Error::InUse));
    assert_eq!(txb.lock_state(), LockState::Unlocked);
    assert_eq!(rxb.lock_state(), LockState::Unlocked);
    assert!(!regs.s1.en);
}
