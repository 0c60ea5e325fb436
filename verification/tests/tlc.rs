use stm32f411_hal::dma2::{Buffer, DmaRegisters, DMAStream, LockState, Poll};
use stm32f411_hal::tlc5955::{
    add_bits, clear_buffer, compare_buffers, shift_buffer_by_7, TLC5955,
};

// Mirror of the frame assembly, written independently for cross-checking:
// bit `pos` counts from the end of the buffer.
fn reference_add_bits(buffer: &mut [u8], mut val: u32, mut size: u32, mut pos: usize) -> usize {
    let len = buffer.len();
    while size > 0 {
        if (val & 1) > 0 {
            buffer[len - 1 - (pos >> 3)] |= 1 << (pos & 7);
        }
        val >>= 1;
        pos += 1;
        size -= 1;
    }
    pos
}

fn reference_control_chunk(chunk: &mut [u8]) {
    let mut pos = 0;
    for _ in 0..48 {
        pos = reference_add_bits(chunk, 0x6A, 7, pos);
    }
    for _ in 0..3 {
        pos = reference_add_bits(chunk, 5, 3, pos);
    }
    for _ in 0..3 {
        pos = reference_add_bits(chunk, 110, 7, pos);
    }
    reference_add_bits(chunk, 0x0B, 5, pos);
    reference_add_bits(chunk, 0x96, 8, 760);
}

#[test]
fn add_bits_within_one_byte() {
    let mut buf: Vec<u8> = vec![0, 0];
    let next = add_bits(&mut buf, 0b101, 3, 0);
    assert_eq!(next, 3);
    assert_eq!(buf, vec![0, 0b101]);
}

#[test]
fn add_bits_across_byte_boundary() {
    let mut buf: Vec<u8> = vec![0, 0];
    let next = add_bits(&mut buf, 0xFF, 8, 4);
    assert_eq!(next, 12);
    assert_eq!(buf, vec![0x0F, 0xF0]);
}

#[test]
fn add_bits_only_ors_bits_in() {
    let mut buf: Vec<u8> = vec![0x80, 0x01];
    let next = add_bits(&mut buf, 0b10, 2, 0);
    assert_eq!(next, 2);
    assert_eq!(buf, vec![0x80, 0x03]);
}

#[test]
fn clear_buffer_zeroes_everything() {
    let mut buf: Vec<u8> = vec![1, 2, 3, 255];
    clear_buffer(&mut buf);
    assert_eq!(buf, vec![0, 0, 0, 0]);
}

#[test]
fn compare_buffers_checks_bytes() {
    assert!(compare_buffers(&vec![1, 2, 3], &vec![1, 2, 3]));
    assert!(!compare_buffers(&vec![1, 2, 3], &vec![1, 2, 4]));
    assert!(!compare_buffers(&vec![1, 2], &vec![1, 2, 3]));
    assert!(compare_buffers(&vec![], &vec![]));
}

#[test]
fn shift_buffer_moves_high_bits_forward() {
    let mut buf: Vec<u8> = vec![0b1000_0001, 0b0100_0001];
    shift_buffer_by_7(&mut buf);
    assert_eq!(buf, vec![0b0000_0001, 0b0000_0010]);
}

#[test]
fn control_frame_matches_reference() {
    let tlc = TLC5955::new(2);
    let mut buf: Vec<u8> = vec![0; 192];
    tlc.fill_control_data(&mut buf);
    let mut expected = [0u8; 192];
    {
        let (first, second) = expected.split_at_mut(96);
        reference_control_chunk(first);
        reference_control_chunk(second);
    }
    assert_eq!(buf, expected.to_vec());
    // the write key sits alone in the top byte of each chunk
    assert_eq!(buf[0], 0x96);
    assert_eq!(buf[96], 0x96);
    // the lowest byte starts with dot-correction data
    assert_eq!(buf[191], 0x6A);
}

#[test]
fn function_data_collapses_onto_one_bit() {
    let mut tlc = TLC5955::new(4);
    assert_eq!(tlc.function_data(), 0);
    tlc.set_function_data(false, false, false, false, false);
    assert_eq!(tlc.function_data(), 0);
    tlc.set_function_data(false, false, true, false, false);
    assert_eq!(tlc.function_data(), 1);
    tlc.set_function_data(true, true, true, true, true);
    assert_eq!(tlc.function_data(), 1);
}

#[test]
fn brightness_and_current_are_recorded() {
    let mut tlc = TLC5955::new(4);
    tlc.set_brightness_current(10, 20, 30);
    assert_eq!(tlc.brightness(), (10, 20, 30));
    tlc.set_max_current(1, 2, 3);
    assert_eq!(tlc.max_current(), (1, 2, 3));
    assert_eq!(tlc.no_chips(), 4);
}

#[test]
fn setall_dcdata_fills_and_write_locks() {
    let tlc = TLC5955::new(1);
    let mut buffer = Buffer::new(vec![0u8; 12], DMAStream::Stream0);
    tlc.setall_dcdata(&mut buffer, 0x6A);
    assert_eq!(buffer.lock_state(), LockState::LockedForWrite);
    let mut regs = DmaRegisters::new();
    regs.s0.tcif = true;
    assert_eq!(buffer.release(&mut regs), Poll::Done);
    assert_eq!(buffer.data(), &vec![0x6A; 12]);
}

#[test]
fn set_dcdata_writes_one_led() {
    let tlc = TLC5955::new(1);
    let mut buffer = Buffer::new(vec![0u8; 9], DMAStream::Stream0);
    tlc.set_dcdata(&mut buffer, 2, 11, 22, 33);
    assert_eq!(buffer.lock_state(), LockState::LockedForWrite);
    let mut regs = DmaRegisters::new();
    regs.s0.tcif = true;
    assert_eq!(buffer.release(&mut regs), Poll::Done);
    assert_eq!(buffer.data(), &vec![0, 0, 0, 0, 0, 0, 11, 22, 33]);
}

#[test]
fn setall_led_paints_every_led() {
    let tlc = TLC5955::new(1);
    let mut buffer = Buffer::new(vec![0u16; 50], DMAStream::Stream1);
    tlc.setall_led(&mut buffer, 100, 200, 300);
    let mut regs = DmaRegisters::new();
    regs.s1.tcif = true;
    assert_eq!(buffer.release(&mut regs), Poll::Done);
    let data = buffer.data();
    for led in 0..16 {
        assert_eq!(data[3 * led], 100);
        assert_eq!(data[3 * led + 1], 200);
        assert_eq!(data[3 * led + 2], 300);
    }
    assert_eq!(data[48], 0);
    assert_eq!(data[49], 0);
}

#[test]
fn set_led_writes_one_led() {
    let tlc = TLC5955::new(1);
    let mut buffer = Buffer::new(vec![0u16; 6], DMAStream::Stream1);
    tlc.set_led(&mut buffer, 1, 7, 8, 9);
    let mut regs = DmaRegisters::new();
    regs.s1.tcif = true;
    assert_eq!(buffer.release(&mut regs), Poll::Done);
    assert_eq!(buffer.data(), &vec![0, 0, 0, 7, 8, 9]);
}
