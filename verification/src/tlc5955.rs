//! Driver state for a chain of constant-current LED chips: the control
//! frame is assembled bit by bit into the transmit buffers that the DMA
//! engine then ships out over the serial peripheral.

use vstd::prelude::*;
use vstd::arithmetic::div_mod::{lemma_fundamental_div_mod, lemma_multiply_divide_lt};
use vstd::arithmetic::mul::lemma_mul_inequality;
use crate::dma2::Buffer;

verus! {

/// PWM channels of one chip.
pub const CHANNELS_PER_TLC: u8 = 48;

/// LEDs of one chip: three channels each.
pub const LEDS_PER_CHIP: u8 = CHANNELS_PER_TLC / 3;

/// Dot-correction value written for every channel.
pub const DC_DATA: u8 = 0x6A;

/// Width of one dot-correction field, in bits.
pub const DC_BITS: u32 = 7;

/// Maximum-current code written for each colour.
pub const MC_DATA: u8 = 5;

/// Width of one maximum-current field, in bits.
pub const MC_BITS: u32 = 3;

/// Global-brightness value written for each colour.
pub const BC_DATA: u8 = 110;

/// Width of one global-brightness field, in bits.
pub const BC_BITS: u32 = 7;

/// How many chips hang in the chain, one buffer each.
pub const NO_LED_DRIVERS: usize = 4;

/// The port a deployment provides for this driver to reach its chips:
/// pin-level access, delays, and buffer transport over the serial bus.
pub trait TLCHardwareLayer {
    fn as_gpio(&self);

    fn as_spi(&self);

    fn latch(&self, delay: u32);

    fn write_bit(&self, bit: u8);

    fn delay(&self, count: u16);

    fn read_write_byte(&self, byte: u8) -> u8;

    fn write(&self, tx_buffer: &Buffer<Vec<u8>>, rx_buffer: &Buffer<Vec<u8>>);

    fn wait(&self, buffer: &Buffer<Vec<u8>>);

    fn dump_buffer(&self, buffer: &Vec<u8>);

    fn debug(&self, data: &str);
}

/// A colour triple.
struct RGB<T> {
    red: T,
    green: T,
    blue: T,
}

/// The frame layout counts bit positions from the end of the buffer: bit
/// `pos` lives in byte `len - 1 - pos / 8`, at bit `pos % 8`.
pub open spec fn with_bit_set(s: Seq<u8>, pos: nat) -> Seq<u8> {
    let i = s.len() - 1 - pos / 8;
    s.update(i, s[i] | (1u8 << ((pos % 8) as u32)))
}

/// The buffer after the low `size` bits of `val` are OR-ed in, one by one,
/// starting at bit position `pos` counted from the end of the buffer.
pub open spec fn with_bits(s: Seq<u8>, val: u32, size: nat, pos: nat) -> Seq<u8>
    decreases size,
{
    if size == 0 {
        s
    } else {
        let s1 = if val & 1 > 0 {
            with_bit_set(s, pos)
        } else {
            s
        };
        with_bits(s1, val >> 1u32, (size - 1) as nat, pos + 1)
    }
}

/// OR-s the low `size` bits of `val` into the buffer, starting at bit
/// position `pos` counted from the end, and returns the position after the
/// last bit written.
pub fn add_bits(buffer: &mut Vec<u8>, val: u32, size: u32, pos: usize) -> (r: usize)
    requires
        size <= 32,
        pos + size <= usize::MAX,
        pos + size <= old(buffer)@.len() * 8,
    ensures
        r == pos + size,
        final(buffer)@ == with_bits(old(buffer)@, val, size as nat, pos as nat),
        final(buffer)@.len() == old(buffer)@.len(),
{
    let ghost orig = buffer@;
    let mut v: u32 = val;
    let mut sz: u32 = size;
    let mut p: usize = pos;
    while sz > 0
        invariant
            buffer@.len() == orig.len(),
            p + sz <= buffer@.len() * 8,
            p + sz <= usize::MAX,
            p == pos + size - sz,
            sz <= size,
            with_bits(orig, val, size as nat, pos as nat) == with_bits(
                buffer@,
                v,
                sz as nat,
                p as nat,
            ),
        decreases sz,
    {
        let ghost before = buffer@;
        if v & 1 > 0 {
            proof {
                assert(p < buffer@.len() * 8);
                lemma_multiply_divide_lt(p as int, 8, buffer@.len() as int);
                assert((p as int) / 8 < buffer@.len());
                assert(p >> 3usize == p / 8) by (bit_vector);
                assert(p & 7usize == p % 8) by (bit_vector);
                assert(p & 7usize < 8) by (bit_vector);
            }
            let len: usize = buffer.len();
            let idx: usize = len - 1 - (p >> 3usize);
            let bit: u8 = 1u8 << ((p & 7usize) as u32);
            let b: u8 = buffer[idx];
            buffer[idx] = b | bit;
            proof {
                assert(buffer@ == with_bit_set(before, p as nat));
            }
        }
        v = v >> 1u32;
        p = p + 1;
        sz = sz - 1;
    }
    p
}

/// Sets every byte of the buffer to zero.
pub fn clear_buffer(buffer: &mut Vec<u8>)
    ensures
        final(buffer)@.len() == old(buffer)@.len(),
        forall|i: int| 0 <= i < final(buffer)@.len() ==> final(buffer)@[i] == 0u8,
{
    let n: usize = buffer.len();
    let mut index: usize = 0;
    while index < n
        invariant
            buffer@.len() == n,
            index <= n,
            forall|i: int| 0 <= i < index ==> buffer@[i] == 0u8,
        decreases n - index,
    {
        buffer[index] = 0;
        index = index + 1;
    }
}

/// Whether two buffers hold the same bytes.
pub fn compare_buffers(buffer1: &Vec<u8>, buffer2: &Vec<u8>) -> (r: bool)
    ensures
        r <==> buffer1@ == buffer2@,
{
    if buffer1.len() != buffer2.len() {
        return false;
    }
    let n: usize = buffer1.len();
    let mut index: usize = 0;
    while index < n
        invariant
            buffer1@.len() == n,
            buffer2@.len() == n,
            index <= n,
            forall|i: int| 0 <= i < index ==> buffer1@[i] == buffer2@[i],
        decreases n - index,
    {
        if buffer1[index] != buffer2[index] {
            return false;
        }
        index = index + 1;
    }
    proof {
        assert(buffer1@ =~= buffer2@);
    }
    true
}

/// The buffer after `count` fields of `size` bits, each holding `val`,
/// are OR-ed in back to back from bit position `pos`.
pub open spec fn rep_bits(s: Seq<u8>, val: u32, size: nat, count: nat, pos: nat) -> Seq<u8>
    decreases count,
{
    if count == 0 {
        s
    } else {
        rep_bits(with_bits(s, val, size, pos), val, size, (count - 1) as nat, pos + size)
    }
}

/// One chip's slice of the transmit buffer once the control frame is OR-ed
/// in: a dot-correction field per channel, then the maximum-current and
/// global-brightness fields per colour, the function bits, and the write
/// key in the top byte.
pub open spec fn control_chunk(s: Seq<u8>) -> Seq<u8> {
    let a = rep_bits(s, DC_DATA as u32, DC_BITS as nat, CHANNELS_PER_TLC as nat, 0);
    let b = rep_bits(a, MC_DATA as u32, MC_BITS as nat, 3, 336);
    let c = rep_bits(b, BC_DATA as u32, BC_BITS as nat, 3, 345);
    let d = with_bits(c, 0x0B, 5, 366);
    with_bits(d, 0x96, 8, 760)
}

/// OR-s `count` fields of `size` bits, each holding `val`, into the buffer
/// back to back from bit position `pos`, and returns the position after the
/// last field.
fn apply_rep(buffer: &mut Vec<u8>, val: u32, size: u32, count: u32, pos: usize) -> (r: usize)
    requires
        size <= 32,
        pos + size * count <= usize::MAX,
        pos + size * count <= old(buffer)@.len() * 8,
    ensures
        r == pos + size * count,
        final(buffer)@ == rep_bits(old(buffer)@, val, size as nat, count as nat, pos as nat),
        final(buffer)@.len() == old(buffer)@.len(),
{
    let ghost orig = buffer@;
    let mut c: u32 = count;
    let mut p: usize = pos;
    while c > 0
        invariant
            buffer@.len() == orig.len(),
            size <= 32,
            c <= count,
            p == pos + size * (count - c),
            p + size * c <= usize::MAX,
            p + size * c <= buffer@.len() * 8,
            rep_bits(orig, val, size as nat, count as nat, pos as nat) == rep_bits(
                buffer@,
                val,
                size as nat,
                c as nat,
                p as nat,
            ),
        decreases c,
    {
        proof {
            assert(size * c >= size * 1) by (nonlinear_arith)
                requires
                    c >= 1,
                    size >= 0,
            ;
            assert(size * (count - (c - 1)) == size * (count - c) + size) by (nonlinear_arith);
            assert(size * c == size * (c - 1) + size) by (nonlinear_arith);
        }
        let p2: usize = add_bits(buffer, val, size, p);
        p = p2;
        c = c - 1;
    }
    p
}

/// Slice `k` of a buffer split into chunks of `cs` bytes.
pub open spec fn chunk_of(s: Seq<u8>, cs: int, k: int) -> Seq<u8> {
    s.subrange(k * cs, (k + 1) * cs)
}

/// One byte of a buffer shifted left by seven bit positions: the high
/// seven bits of each byte move into the byte before it.
pub open spec fn shifted_byte(prev: u8, cur: u8) -> u8 {
    (prev << 1u32) | (cur >> 7u32)
}

/// Shifts the whole buffer left by seven bit positions.
pub fn shift_buffer_by_7(buffer: &mut Vec<u8>)
    ensures
        final(buffer)@.len() == old(buffer)@.len(),
        forall|i: int| 0 <= i < final(buffer)@.len() ==> final(buffer)@[i] == shifted_byte(
            if i == 0 {
                0u8
            } else {
                old(buffer)@[i - 1]
            },
            old(buffer)@[i],
        ),
{
    let ghost orig = buffer@;
    let n: usize = buffer.len();
    let mut carry: u8 = 0;
    let mut index: usize = 0;
    while index < n
        invariant
            buffer@.len() == n,
            orig.len() == n,
            index <= n,
            carry == (if index == 0 {
                0u8
            } else {
                orig[index - 1]
            }),
            forall|i: int| index <= i < n ==> buffer@[i] == orig[i],
            forall|i: int|
                0 <= i < index ==> buffer@[i] == shifted_byte(
                    if i == 0 {
                        0u8
                    } else {
                        orig[i - 1]
                    },
                    orig[i],
                ),
        decreases n - index,
    {
        let val: u8 = buffer[index];
        buffer[index] = (carry << 1u32) | (val >> 7u32);
        carry = val;
        index = index + 1;
    }
}

/// Copies a byte buffer.
fn copy_bytes(src: &Vec<u8>) -> (r: Vec<u8>)
    ensures
        r@ == src@,
{
    let n: usize = src.len();
    let mut r: Vec<u8> = Vec::new();
    let mut i: usize = 0;
    while i < n
        invariant
            src@.len() == n,
            i <= n,
            r@.len() == i,
            forall|j: int| 0 <= j < i ==> r@[j] == src@[j],
        decreases n - i,
    {
        let b: u8 = src[i];
        r.push(b);
        i = i + 1;
    }
    proof {
        assert(r@ =~= src@);
    }
    r
}

/// Copies a buffer of 16-bit words.
fn copy_words(src: &Vec<u16>) -> (r: Vec<u16>)
    ensures
        r@ == src@,
{
    let n: usize = src.len();
    let mut r: Vec<u16> = Vec::new();
    let mut i: usize = 0;
    while i < n
        invariant
            src@.len() == n,
            i <= n,
            r@.len() == i,
            forall|j: int| 0 <= j < i ==> r@[j] == src@[j],
        decreases n - i,
    {
        let w: u16 = src[i];
        r.push(w);
        i = i + 1;
    }
    proof {
        assert(r@ =~= src@);
    }
    r
}

/// Driver state for a chain of LED chips.
pub struct TLC5955 {
    no_chips: u8,
    function_data: u8,
    brightness: RGB<u8>,
    max_current: RGB<u8>,
}

impl TLC5955 {
    /// How many chips hang in the chain.
    pub closed spec fn no_chips_spec(self) -> u8 {
        self.no_chips
    }

    /// The function bits to send.
    pub closed spec fn function_data_spec(self) -> u8 {
        self.function_data
    }

    /// The global-brightness values to send, as a red, green, blue triple.
    pub closed spec fn brightness_spec(self) -> (u8, u8, u8) {
        (self.brightness.red, self.brightness.green, self.brightness.blue)
    }

    /// The maximum-current values to send, as a red, green, blue triple.
    pub closed spec fn max_current_spec(self) -> (u8, u8, u8) {
        (self.max_current.red, self.max_current.green, self.max_current.blue)
    }

    /// Builds driver state for a chain of `no_chips` chips, with every
    /// value still zero.
    pub fn new(no_chips: u8) -> (t: TLC5955)
        ensures
            t.no_chips_spec() == no_chips,
            t.function_data_spec() == 0u8,
            t.brightness_spec() == (0u8, 0u8, 0u8),
            t.max_current_spec() == (0u8, 0u8, 0u8),
    {
        TLC5955 {
            no_chips,
            function_data: 0,
            brightness: RGB { red: 0, blue: 0, green: 0 },
            max_current: RGB { red: 0, blue: 0, green: 0 },
        }
    }

    /// How many chips hang in the chain.
    pub fn no_chips(&self) -> (r: u8)
        ensures
            r == self.no_chips_spec(),
    {
        self.no_chips
    }

    /// The function bits to send.
    pub fn function_data(&self) -> (r: u8)
        ensures
            r == self.function_data_spec(),
    {
        self.function_data
    }

    /// The global-brightness values to send, as a red, green, blue triple.
    pub fn brightness(&self) -> (r: (u8, u8, u8))
        ensures
            r == self.brightness_spec(),
    {
        (self.brightness.red, self.brightness.green, self.brightness.blue)
    }

    /// The maximum-current values to send, as a red, green, blue triple.
    pub fn max_current(&self) -> (r: (u8, u8, u8))
        ensures
            r == self.max_current_spec(),
    {
        (self.max_current.red, self.max_current.green, self.max_current.blue)
    }

    /// Collects the function flags into the function-bits byte. Every flag
    /// lands on the lowest bit, so the byte records whether any flag was
    /// set.
    pub fn set_function_data(
        &mut self,
        dsprpt: bool,
        tmgrst: bool,
        rfresh: bool,
        espwm: bool,
        lsdvlt: bool,
    )
        ensures
            final(self).function_data_spec() == (if dsprpt || tmgrst || rfresh || espwm || lsdvlt {
                1u8
            } else {
                0u8
            }),
            final(self).no_chips_spec() == old(self).no_chips_spec(),
            final(self).brightness_spec() == old(self).brightness_spec(),
            final(self).max_current_spec() == old(self).max_current_spec(),
    {
        let mut data: u8 = 0;
        data = data | (if dsprpt {
            1u8 << 0u32
        } else {
            0
        });
        data = data | (if tmgrst {
            1u8 << 0u32
        } else {
            0
        });
        data = data | (if rfresh {
            1u8 << 0u32
        } else {
            0
        });
        data = data | (if espwm {
            1u8 << 0u32
        } else {
            0
        });
        data = data | (if lsdvlt {
            1u8 << 0u32
        } else {
            0
        });
        proof {
            assert(1u8 << 0u32 == 1u8) by (bit_vector);
            assert(0u8 | 1u8 == 1u8) by (bit_vector);
            assert(1u8 | 1u8 == 1u8) by (bit_vector);
            assert(0u8 | 0u8 == 0u8) by (bit_vector);
            assert(1u8 | 0u8 == 1u8) by (bit_vector);
        }
        self.function_data = data;
    }

    /// Records the global-brightness value for each colour.
    pub fn set_brightness_current(&mut self, red: u8, green: u8, blue: u8)
        ensures
            final(self).brightness_spec() == (red, green, blue),
            final(self).no_chips_spec() == old(self).no_chips_spec(),
            final(self).function_data_spec() == old(self).function_data_spec(),
            final(self).max_current_spec() == old(self).max_current_spec(),
    {
        self.brightness = RGB { red, blue, green };
    }

    /// Fills every dot-correction byte of the buffer with one value. The
    /// buffer is write-locked for the transfer that follows and stays so
    /// until the transfer's completion releases it.
    pub fn setall_dcdata(&self, buffer: &mut Buffer<Vec<u8>>, value: u8)
        requires
            old(buffer).can_lock_mut(),
        ensures
            final(buffer).hw_state() is LockedForWrite,
            final(buffer).count() == crate::dma2::WRITING,
            final(buffer).stream_id() == old(buffer).stream_id(),
            final(buffer).contents()@.len() == old(buffer).contents()@.len(),
            forall|i: int|
                0 <= i < final(buffer).contents()@.len() ==> final(buffer).contents()@[i] == value,
            final(buffer).wf(),
    {
        let n: usize = buffer.data().len();
        match buffer.lock_mut() {
            Ok(()) => {}
            Err(_) => {
                proof {
                    assert(false);
                }
                return ;
            }
        }
        let mut d: Vec<u8> = Vec::new();
        let mut i: usize = 0;
        while i < n
            invariant
                i <= n,
                d@.len() == i,
                forall|j: int| 0 <= j < i ==> d@[j] == value,
            decreases n - i,
        {
            d.push(value);
            i = i + 1;
        }
        buffer.set_data(d);
    }

    /// Sets the dot-correction bytes of one LED: three consecutive bytes,
    /// one per colour. The buffer is write-locked for the transfer that
    /// follows.
    pub fn set_dcdata(
        &self,
        buffer: &mut Buffer<Vec<u8>>,
        led_num: u16,
        red: u8,
        green: u8,
        blue: u8,
    )
        requires
            old(buffer).can_lock_mut(),
            3 * (led_num as int) + 2 < old(buffer).contents()@.len(),
        ensures
            final(buffer).hw_state() is LockedForWrite,
            final(buffer).count() == crate::dma2::WRITING,
            final(buffer).stream_id() == old(buffer).stream_id(),
            final(buffer).contents()@ == old(buffer).contents()@.update(
                3 * (led_num as int),
                red,
            ).update(3 * (led_num as int) + 1, green).update(3 * (led_num as int) + 2, blue),
            final(buffer).wf(),
    {
        let mut d: Vec<u8> = copy_bytes(buffer.data());
        let index: usize = (led_num as usize) * 3;
        d[index] = red;
        d[index + 1] = green;
        d[index + 2] = blue;
        match buffer.lock_mut() {
            Ok(()) => {}
            Err(_) => {
                proof {
                    assert(false);
                }
                return ;
            }
        }
        buffer.set_data(d);
    }

    /// Sets every LED of the chain to one colour: for each LED its three
    /// consecutive words, one per colour. The buffer is write-locked for
    /// the transfer that follows.
    pub fn setall_led(&self, buffer: &mut Buffer<Vec<u16>>, red: u16, green: u16, blue: u16)
        requires
            old(buffer).can_lock_mut(),
            self.no_chips_spec() <= 15,
            3 * (LEDS_PER_CHIP as int) * (self.no_chips_spec() as int)
                <= old(buffer).contents()@.len(),
        ensures
            final(buffer).hw_state() is LockedForWrite,
            final(buffer).count() == crate::dma2::WRITING,
            final(buffer).stream_id() == old(buffer).stream_id(),
            final(buffer).contents()@.len() == old(buffer).contents()@.len(),
            forall|j: int|
                0 <= j < 3 * (LEDS_PER_CHIP as int) * (self.no_chips_spec() as int)
                    ==> final(buffer).contents()@[j] == (if j % 3 == 0 {
                    red
                } else if j % 3 == 1 {
                    green
                } else {
                    blue
                }),
            forall|j: int|
                3 * (LEDS_PER_CHIP as int) * (self.no_chips_spec() as int) <= j
                    < final(buffer).contents()@.len() ==> final(buffer).contents()@[j] == old(
                    buffer,
                ).contents()@[j],
            final(buffer).wf(),
    {
        let mut d: Vec<u16> = copy_words(buffer.data());
        let no_leds: u8 = LEDS_PER_CHIP * self.no_chips;
        let ghost total = 3 * (LEDS_PER_CHIP as int) * (self.no_chips_spec() as int);
        proof {
            assert(total == 3 * (no_leds as int)) by (nonlinear_arith)
                requires
                    no_leds == LEDS_PER_CHIP * self.no_chips_spec(),
                    total == 3 * (LEDS_PER_CHIP as int) * (self.no_chips_spec() as int),
            ;
        }
        let mut i: usize = 0;
        while i < no_leds as usize
            invariant
                d@.len() == old(buffer).contents()@.len(),
                3 * (no_leds as int) <= d@.len(),
                i <= no_leds,
                forall|j: int|
                    0 <= j < 3 * i ==> d@[j] == (if j % 3 == 0 {
                        red
                    } else if j % 3 == 1 {
                        green
                    } else {
                        blue
                    }),
                forall|j: int| 3 * i <= j < d@.len() ==> d@[j] == old(buffer).contents()@[j],
            decreases no_leds - i,
        {
            let idx: usize = i * 3;
            proof {
                assert(i * 3 == 3 * (i as int)) by (nonlinear_arith);
                assert((3 * (i as int)) % 3 == 0 && (3 * (i as int) + 1) % 3 == 1 && (3 * (
                i as int) + 2) % 3 == 2) by (nonlinear_arith);
                assert(3 * (i as int) + 3 == 3 * (i as int + 1)) by (nonlinear_arith);
                assert(3 * (i as int + 1) <= 3 * (no_leds as int)) by (nonlinear_arith)
                    requires
                        i + 1 <= no_leds,
                ;
            }
            d[idx] = red;
            d[idx + 1] = green;
            d[idx + 2] = blue;
            i = i + 1;
        }
        match buffer.lock_mut() {
            Ok(()) => {}
            Err(_) => {
                proof {
                    assert(false);
                }
                return ;
            }
        }
        buffer.set_data(d);
    }

    /// Sets one LED to one colour: its three consecutive words, one per
    /// colour. The buffer is write-locked for the transfer that follows.
    pub fn set_led(
        &self,
        buffer: &mut Buffer<Vec<u16>>,
        led_num: u16,
        red: u16,
        green: u16,
        blue: u16,
    )
        requires
            old(buffer).can_lock_mut(),
            3 * (led_num as int) + 2 < old(buffer).contents()@.len(),
        ensures
            final(buffer).hw_state() is LockedForWrite,
            final(buffer).count() == crate::dma2::WRITING,
            final(buffer).stream_id() == old(buffer).stream_id(),
            final(buffer).contents()@ == old(buffer).contents()@.update(
                3 * (led_num as int),
                red,
            ).update(3 * (led_num as int) + 1, green).update(3 * (led_num as int) + 2, blue),
            final(buffer).wf(),
    {
        let mut d: Vec<u16> = copy_words(buffer.data());
        let index: usize = (led_num as usize) * 3;
        d[index] = red;
        d[index + 1] = green;
        d[index + 2] = blue;
        match buffer.lock_mut() {
            Ok(()) => {}
            Err(_) => {
                proof {
                    assert(false);
                }
                return ;
            }
        }
        buffer.set_data(d);
    }

    /// Assembles the control frame: the buffer is split into one equal
    /// slice per chip, and each slice gets the dot-correction,
    /// maximum-current, global-brightness, function and write-key fields
    /// OR-ed in at their fixed bit positions.
    pub fn fill_control_data(&self, buffer: &mut Vec<u8>)
        requires
            self.no_chips_spec() >= 1,
            old(buffer)@.len() as int % (self.no_chips_spec() as int) == 0,
            old(buffer)@.len() as int / (self.no_chips_spec() as int) >= 96,
        ensures
            final(buffer)@.len() == old(buffer)@.len(),
            ({
                let cs = old(buffer)@.len() as int / (self.no_chips_spec() as int);
                forall|k: int|
                    0 <= k < self.no_chips_spec() ==> #[trigger] chunk_of(final(buffer)@, cs, k)
                        == control_chunk(chunk_of(old(buffer)@, cs, k))
            }),
    {
        let ghost orig = buffer@;
        let n: usize = buffer.len();
        let chips: usize = self.no_chips as usize;
        let chunk_size: usize = n / chips;
        proof {
            lemma_fundamental_div_mod(n as int, chips as int);
        }
        let mut k: usize = 0;
        while k < chips
            invariant
                buffer@.len() == n,
                orig.len() == n,
                chips >= 1,
                chunk_size >= 96,
                n as int == chips as int * chunk_size as int,
                k <= chips,
                forall|kk: int|
                    0 <= kk < k ==> #[trigger] chunk_of(buffer@, chunk_size as int, kk)
                        == control_chunk(chunk_of(orig, chunk_size as int, kk)),
                forall|j: int| k * chunk_size as int <= j < n ==> buffer@[j] == orig[j],
            decreases chips - k,
        {
            proof {
                lemma_mul_inequality(k as int + 1, chips as int, chunk_size as int);
                lemma_mul_inequality(1, k as int + 1, chunk_size as int);
                assert((k as int + 1) * chunk_size as int == k as int * chunk_size as int
                    + chunk_size as int) by (nonlinear_arith);
            }
            let start: usize = k * chunk_size;
            let mut chunk: Vec<u8> = Vec::new();
            let mut j: usize = 0;
            while j < chunk_size
                invariant
                    buffer@.len() == n,
                    start + chunk_size <= n,
                    j <= chunk_size,
                    chunk@.len() == j,
                    forall|i: int| 0 <= i < j ==> chunk@[i] == buffer@[start + i],
                decreases chunk_size - j,
            {
                let b: u8 = buffer[start + j];
                chunk.push(b);
                j = j + 1;
            }
            proof {
                assert(chunk@ =~= orig.subrange(
                    start as int,
                    start as int + chunk_size as int,
                ));
            }
            let ghost c0 = chunk@;
            let mut pos: usize = apply_rep(
                &mut chunk,
                DC_DATA as u32,
                DC_BITS,
                CHANNELS_PER_TLC as u32,
                0,
            );
            pos = apply_rep(&mut chunk, MC_DATA as u32, MC_BITS, 3, pos);
            pos = apply_rep(&mut chunk, BC_DATA as u32, BC_BITS, 3, pos);
            pos = add_bits(&mut chunk, 0x0B, 5, pos);
            pos = 760;
            pos = add_bits(&mut chunk, 0x96, 8, pos);
            proof {
                assert(chunk@ == control_chunk(c0));
            }
            let ghost pre = buffer@;
            let mut j2: usize = 0;
            while j2 < chunk_size
                invariant
                    buffer@.len() == n,
                    pre.len() == n,
                    start + chunk_size <= n,
                    chunk@.len() == chunk_size,
                    j2 <= chunk_size,
                    forall|i: int| 0 <= i < start ==> buffer@[i] == pre[i],
                    forall|i: int| 0 <= i < j2 ==> buffer@[start + i] == chunk@[i],
                    forall|i: int| start + j2 <= i < n ==> buffer@[i] == pre[i],
                decreases chunk_size - j2,
            {
                let b: u8 = chunk[j2];
                buffer[start + j2] = b;
                j2 = j2 + 1;
            }
            proof {
                let cs = chunk_size as int;
                assert forall|kk: int| 0 <= kk < k + 1 implies #[trigger] chunk_of(
                    buffer@,
                    cs,
                    kk,
                ) == control_chunk(chunk_of(orig, cs, kk)) by {
                    if kk < k {
                        lemma_mul_inequality(kk + 1, k as int, cs);
                        lemma_mul_inequality(0, kk, cs);
                        lemma_mul_inequality(kk, kk + 1, cs);
                        lemma_mul_inequality(kk + 1, chips as int, cs);
                        assert(0 * cs == 0) by (nonlinear_arith);
                        assert(buffer@.subrange(kk * cs, (kk + 1) * cs) =~= pre.subrange(
                            kk * cs,
                            (kk + 1) * cs,
                        ));
                        assert(chunk_of(buffer@, cs, kk) == chunk_of(pre, cs, kk));
                    } else {
                        assert(buffer@.subrange(k as int * cs, (k as int + 1) * cs) =~= chunk@);
                    }
                }
                assert forall|j3: int| (k + 1) * chunk_size as int <= j3 < n implies buffer@[j3]
                    == orig[j3] by {
                }
            }
            k = k + 1;
        }
    }

    /// Records the maximum-current value for each colour.
    pub fn set_max_current(&mut self, red: u8, green: u8, blue: u8)
        ensures
            final(self).max_current_spec() == (red, green, blue),
            final(self).no_chips_spec() == old(self).no_chips_spec(),
            final(self).function_data_spec() == old(self).function_data_spec(),
            final(self).brightness_spec() == old(self).brightness_spec(),
    {
        self.max_current = RGB { red, blue, green };
    }
}

} // verus!
