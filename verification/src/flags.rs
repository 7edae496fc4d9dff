use vstd::prelude::*;

verus! {

/// Bit 0: the carry out of the last addition, shift or comparison.
pub const CARRY: u8 = 0b0000_0001;

/// Bit 1: the last result was zero.
pub const ZERO: u8 = 0b0000_0010;

/// Bit 2: interrupt requests are ignored.
pub const INTERRUPT_DISABLE: u8 = 0b0000_0100;

/// Bit 3: additions and subtractions are decimal.
pub const DECIMAL_MODE: u8 = 0b0000_1000;

/// Bit 4: set in the status byte that `BRK` and `PHP` push.
pub const BREAK_COMMAND: u8 = 0b0001_0000;

/// Bit 5: no flag, and always set.
pub const UNUSED: u8 = 0b0010_0000;

/// Bit 6: the last addition overflowed for signed numbers.
pub const OVERFLOW: u8 = 0b0100_0000;

/// Bit 7: the last result had bit 7 set.
pub const NEGATIVE: u8 = 0b1000_0000;

/// What a status byte stands for: the seven flags and the unused bit 5,
/// from carry (bit 0) up to negative (bit 7).
pub struct Status {
    pub carry: bool,
    pub zero: bool,
    pub interrupt_disable: bool,
    pub decimal_mode: bool,
    pub break_command: bool,
    pub unused: bool,
    pub overflow: bool,
    pub negative: bool,
}

/// What a bit of the given weight adds to its byte.
pub open spec fn bit_value(set: bool, weight: int) -> int {
    if set {
        weight
    } else {
        0
    }
}

impl Status {
    /// The flags that the byte `b` holds: bit 0 is carry, bit 1 zero, and so
    /// on up to bit 7, negative. Bit `k` of `b` is set when `b / 2^k` is odd.
    pub open spec fn from_byte(b: u8) -> Status {
        Status {
            carry: b % 2 == 1,
            zero: (b / 2) % 2 == 1,
            interrupt_disable: (b / 4) % 2 == 1,
            decimal_mode: (b / 8) % 2 == 1,
            break_command: (b / 16) % 2 == 1,
            unused: (b / 32) % 2 == 1,
            overflow: (b / 64) % 2 == 1,
            negative: (b / 128) % 2 == 1,
        }
    }

    /// The byte that holds these flags: each set flag adds its bit's weight.
    pub open spec fn to_byte(self) -> u8 {
        (bit_value(self.carry, 1) + bit_value(self.zero, 2) + bit_value(self.interrupt_disable, 4)
            + bit_value(self.decimal_mode, 8) + bit_value(self.break_command, 16) + bit_value(
            self.unused,
            32,
        ) + bit_value(self.overflow, 64) + bit_value(self.negative, 128)) as u8
    }

    /// These flags with zero and negative taken from `value`: zero is set
    /// for the value 0 and negative for a value with bit 7 set, which is a
    /// value of `0x80` or more.
    pub open spec fn with_zero_and_negative(self, value: u8) -> Status {
        Status { zero: value == 0, negative: value >= 0x80, ..self }
    }

    /// The byte that stands for these flags on the stack: break and the
    /// unused bit are set in it whatever the register holds.
    pub open spec fn pushed(self) -> u8 {
        (Status { break_command: true, unused: true, ..self }).to_byte()
    }

    /// These flags once `byte` has been pulled from the stack into them:
    /// break and the unused bit stay, the other flags are those of `byte`.
    pub open spec fn restored(self, byte: u8) -> Status {
        Status {
            break_command: self.break_command,
            unused: self.unused,
            ..Status::from_byte(byte)
        }
    }

    /// The status of a processor after reset: only the unused bit is set.
    pub open spec fn reset() -> Status {
        Status {
            carry: false,
            zero: false,
            interrupt_disable: false,
            decimal_mode: false,
            break_command: false,
            unused: true,
            overflow: false,
            negative: false,
        }
    }
}

/// What each mask of the status register finds in a byte.
proof fn lemma_masks(b: u8)
    by (bit_vector)
    ensures
        (b & 0x01 != 0) == (b % 2 == 1),
        (b & 0x02 != 0) == ((b / 2) % 2 == 1),
        (b & 0x04 != 0) == ((b / 4) % 2 == 1),
        (b & 0x08 != 0) == ((b / 8) % 2 == 1),
        (b & 0x10 != 0) == ((b / 16) % 2 == 1),
        (b & 0x20 != 0) == ((b / 32) % 2 == 1),
        (b & 0x40 != 0) == ((b / 64) % 2 == 1),
        (b & 0x80 != 0) == ((b / 128) % 2 == 1),
{
}

/// A byte is the sum of the weights of its set bits.
proof fn lemma_byte_is_sum_of_bits(b: u8)
    by (bit_vector)
    ensures
        b == (if b & 0x01 != 0 { 1u8 } else { 0u8 })
            + (if b & 0x02 != 0 { 2u8 } else { 0u8 })
            + (if b & 0x04 != 0 { 4u8 } else { 0u8 })
            + (if b & 0x08 != 0 { 8u8 } else { 0u8 })
            + (if b & 0x10 != 0 { 16u8 } else { 0u8 })
            + (if b & 0x20 != 0 { 32u8 } else { 0u8 })
            + (if b & 0x40 != 0 { 64u8 } else { 0u8 })
            + (if b & 0x80 != 0 { 128u8 } else { 0u8 }),
{
}

/// A byte holds exactly the flags it was made from, and flags read from a
/// byte make that byte again.
pub proof fn lemma_status_byte_round_trip(b: u8, st: Status)
    ensures
        Status::from_byte(b).to_byte() == b,
        Status::from_byte(st.to_byte()) == st,
{
    lemma_masks(b);
    lemma_byte_is_sum_of_bits(b);
    lemma_masks(st.to_byte());
    lemma_byte_is_sum_of_bits(st.to_byte());
}

/// Bits 4 and 5 set in a byte: the other bits stay.
proof fn lemma_bits_of_pushed(b: u8)
    by (bit_vector)
    ensures
        ((b | 0x30) & 0x01 != 0) == (b & 0x01 != 0),
        ((b | 0x30) & 0x02 != 0) == (b & 0x02 != 0),
        ((b | 0x30) & 0x04 != 0) == (b & 0x04 != 0),
        ((b | 0x30) & 0x08 != 0) == (b & 0x08 != 0),
        (b | 0x30) & 0x10 != 0,
        (b | 0x30) & 0x20 != 0,
        ((b | 0x30) & 0x40 != 0) == (b & 0x40 != 0),
        ((b | 0x30) & 0x80 != 0) == (b & 0x80 != 0),
{
}

/// Bits 4 and 5 of `b` put into `pulled`: the other bits of `pulled` stay.
proof fn lemma_bits_of_restored(b: u8, pulled: u8)
    by (bit_vector)
    ensures
        (((pulled & 0xCF) | (b & 0x30)) & 0x01 != 0) == (pulled & 0x01 != 0),
        (((pulled & 0xCF) | (b & 0x30)) & 0x02 != 0) == (pulled & 0x02 != 0),
        (((pulled & 0xCF) | (b & 0x30)) & 0x04 != 0) == (pulled & 0x04 != 0),
        (((pulled & 0xCF) | (b & 0x30)) & 0x08 != 0) == (pulled & 0x08 != 0),
        (((pulled & 0xCF) | (b & 0x30)) & 0x10 != 0) == (b & 0x10 != 0),
        (((pulled & 0xCF) | (b & 0x30)) & 0x20 != 0) == (b & 0x20 != 0),
        (((pulled & 0xCF) | (b & 0x30)) & 0x40 != 0) == (pulled & 0x40 != 0),
        (((pulled & 0xCF) | (b & 0x30)) & 0x80 != 0) == (pulled & 0x80 != 0),
{
}

/// Setting bits 4 and 5 of a status byte gives the byte that is pushed.
pub proof fn lemma_pushed_byte(st: Status)
    ensures
        st.pushed() == st.to_byte() | 0x30,
{
    let b = st.to_byte();
    lemma_status_byte_round_trip(b, st);
    lemma_bits_of_pushed(b);
    lemma_masks(b);
    lemma_masks(b | 0x30);
    lemma_status_byte_round_trip(b | 0x30, st);
}

/// Taking bits 4 and 5 from the status byte and the other bits from the
/// pulled byte gives the restored flags.
pub proof fn lemma_restored_byte(st: Status, pulled: u8)
    ensures
        st.restored(pulled) == Status::from_byte((pulled & 0xCF) | (st.to_byte() & 0x30)),
{
    lemma_status_byte_round_trip(pulled, st);
    lemma_bits_of_restored(st.to_byte(), pulled);
    lemma_masks(st.to_byte());
    lemma_masks(pulled);
    lemma_masks((pulled & 0xCF) | (st.to_byte() & 0x30));
}

/// Setting the single bit `m` in `b` sets that bit and leaves the others.
proof fn lemma_set_bit(b: u8, m: u8)
    by (bit_vector)
    requires
        m == 0x01 || m == 0x02 || m == 0x04 || m == 0x08 || m == 0x10 || m == 0x20 || m == 0x40
            || m == 0x80,
    ensures
        ((b | m) & 0x01 != 0) == (m == 0x01 || b & 0x01 != 0),
        ((b | m) & 0x02 != 0) == (m == 0x02 || b & 0x02 != 0),
        ((b | m) & 0x04 != 0) == (m == 0x04 || b & 0x04 != 0),
        ((b | m) & 0x08 != 0) == (m == 0x08 || b & 0x08 != 0),
        ((b | m) & 0x10 != 0) == (m == 0x10 || b & 0x10 != 0),
        ((b | m) & 0x20 != 0) == (m == 0x20 || b & 0x20 != 0),
        ((b | m) & 0x40 != 0) == (m == 0x40 || b & 0x40 != 0),
        ((b | m) & 0x80 != 0) == (m == 0x80 || b & 0x80 != 0),
{
}

/// Clearing the single bit `m` in `b` clears that bit and leaves the others.
proof fn lemma_clear_bit(b: u8, m: u8)
    by (bit_vector)
    requires
        m == 0x01 || m == 0x02 || m == 0x04 || m == 0x08 || m == 0x10 || m == 0x20 || m == 0x40
            || m == 0x80,
    ensures
        ((b & !m) & 0x01 != 0) == (m != 0x01 && b & 0x01 != 0),
        ((b & !m) & 0x02 != 0) == (m != 0x02 && b & 0x02 != 0),
        ((b & !m) & 0x04 != 0) == (m != 0x04 && b & 0x04 != 0),
        ((b & !m) & 0x08 != 0) == (m != 0x08 && b & 0x08 != 0),
        ((b & !m) & 0x10 != 0) == (m != 0x10 && b & 0x10 != 0),
        ((b & !m) & 0x20 != 0) == (m != 0x20 && b & 0x20 != 0),
        ((b & !m) & 0x40 != 0) == (m != 0x40 && b & 0x40 != 0),
        ((b & !m) & 0x80 != 0) == (m != 0x80 && b & 0x80 != 0),
{
}

/// Wrapper around a `u8` with convenience methods for manually setting specific bits:
/// the processor status register, with a flag in each bit but bit 5.
#[derive(Debug)]
pub struct Flags(u8);

impl View for Flags {
    type V = Status;

    closed spec fn view(&self) -> Status {
        Status::from_byte(self.0)
    }
}

impl Default for Flags {
    fn default() -> (flags: Self)
        ensures
            flags@ == Status::reset(),
    {
        Self::new()
    }
}

impl Flags {
    /// The status after reset: every flag clear, the unused bit set.
    pub fn new() -> (flags: Self)
        ensures
            flags@ == Status::reset(),
    {
        Self(UNUSED)
    }

    pub fn get_carry_flag(&self) -> (set: bool)
        ensures
            set == self@.carry,
    {
        proof {
            lemma_masks(self.0);
        }
        (self.0 & CARRY) != 0
    }

    pub fn set_carry_flag(&mut self)
        ensures
            final(self)@ == (Status { carry: true, ..old(self)@ }),
    {
        proof {
            lemma_set_bit(self.0, CARRY);
            lemma_masks(self.0);
            lemma_masks(self.0 | CARRY);
        }
        self.0 |= CARRY
    }

    pub fn clear_carry_flag(&mut self)
        ensures
            final(self)@ == (Status { carry: false, ..old(self)@ }),
    {
        proof {
            lemma_clear_bit(self.0, CARRY);
            lemma_masks(self.0);
            lemma_masks(self.0 & !CARRY);
        }
        self.0 &= !CARRY
    }

    pub fn get_zero_flag(&self) -> (set: bool)
        ensures
            set == self@.zero,
    {
        proof {
            lemma_masks(self.0);
        }
        (self.0 & ZERO) != 0
    }

    pub fn set_zero_flag(&mut self)
        ensures
            final(self)@ == (Status { zero: true, ..old(self)@ }),
    {
        proof {
            lemma_set_bit(self.0, ZERO);
            lemma_masks(self.0);
            lemma_masks(self.0 | ZERO);
        }
        self.0 |= ZERO
    }

    pub fn clear_zero_flag(&mut self)
        ensures
            final(self)@ == (Status { zero: false, ..old(self)@ }),
    {
        proof {
            lemma_clear_bit(self.0, ZERO);
            lemma_masks(self.0);
            lemma_masks(self.0 & !ZERO);
        }
        self.0 &= !ZERO
    }

    pub fn get_interrupt_disable_flag(&self) -> (set: bool)
        ensures
            set == self@.interrupt_disable,
    {
        proof {
            lemma_masks(self.0);
        }
        (self.0 & INTERRUPT_DISABLE) != 0
    }

    pub fn set_interrupt_disable_flag(&mut self)
        ensures
            final(self)@ == (Status { interrupt_disable: true, ..old(self)@ }),
    {
        proof {
            lemma_set_bit(self.0, INTERRUPT_DISABLE);
            lemma_masks(self.0);
            lemma_masks(self.0 | INTERRUPT_DISABLE);
        }
        self.0 |= INTERRUPT_DISABLE
    }

    pub fn clear_interrupt_disable_flag(&mut self)
        ensures
            final(self)@ == (Status { interrupt_disable: false, ..old(self)@ }),
    {
        proof {
            lemma_clear_bit(self.0, INTERRUPT_DISABLE);
            lemma_masks(self.0);
            lemma_masks(self.0 & !INTERRUPT_DISABLE);
        }
        self.0 &= !INTERRUPT_DISABLE
    }

    pub fn get_decimal_mode_flag(&self) -> (set: bool)
        ensures
            set == self@.decimal_mode,
    {
        proof {
            lemma_masks(self.0);
        }
        (self.0 & DECIMAL_MODE) != 0
    }

    pub fn set_decimal_mode_flag(&mut self)
        ensures
            final(self)@ == (Status { decimal_mode: true, ..old(self)@ }),
    {
        proof {
            lemma_set_bit(self.0, DECIMAL_MODE);
            lemma_masks(self.0);
            lemma_masks(self.0 | DECIMAL_MODE);
        }
        self.0 |= DECIMAL_MODE
    }

    pub fn clear_decimal_mode_flag(&mut self)
        ensures
            final(self)@ == (Status { decimal_mode: false, ..old(self)@ }),
    {
        proof {
            lemma_clear_bit(self.0, DECIMAL_MODE);
            lemma_masks(self.0);
            lemma_masks(self.0 & !DECIMAL_MODE);
        }
        self.0 &= !DECIMAL_MODE
    }

    pub fn get_break_command_flag(&self) -> (set: bool)
        ensures
            set == self@.break_command,
    {
        proof {
            lemma_masks(self.0);
        }
        (self.0 & BREAK_COMMAND) != 0
    }

    pub fn set_break_command_flag(&mut self)
        ensures
            final(self)@ == (Status { break_command: true, ..old(self)@ }),
    {
        proof {
            lemma_set_bit(self.0, BREAK_COMMAND);
            lemma_masks(self.0);
            lemma_masks(self.0 | BREAK_COMMAND);
        }
        self.0 |= BREAK_COMMAND
    }

    pub fn clear_break_command_flag(&mut self)
        ensures
            final(self)@ == (Status { break_command: false, ..old(self)@ }),
    {
        proof {
            lemma_clear_bit(self.0, BREAK_COMMAND);
            lemma_masks(self.0);
            lemma_masks(self.0 & !BREAK_COMMAND);
        }
        self.0 &= !BREAK_COMMAND
    }

    pub fn get_overflow_flag(&self) -> (set: bool)
        ensures
            set == self@.overflow,
    {
        proof {
            lemma_masks(self.0);
        }
        (self.0 & OVERFLOW) != 0
    }

    pub fn set_overflow_flag(&mut self)
        ensures
            final(self)@ == (Status { overflow: true, ..old(self)@ }),
    {
        proof {
            lemma_set_bit(self.0, OVERFLOW);
            lemma_masks(self.0);
            lemma_masks(self.0 | OVERFLOW);
        }
        self.0 |= OVERFLOW
    }

    pub fn clear_overflow_flag(&mut self)
        ensures
            final(self)@ == (Status { overflow: false, ..old(self)@ }),
    {
        proof {
            lemma_clear_bit(self.0, OVERFLOW);
            lemma_masks(self.0);
            lemma_masks(self.0 & !OVERFLOW);
        }
        self.0 &= !OVERFLOW
    }

    pub fn get_negative_flag(&self) -> (set: bool)
        ensures
            set == self@.negative,
    {
        proof {
            lemma_masks(self.0);
        }
        (self.0 & NEGATIVE) != 0
    }

    pub fn set_negative_flag(&mut self)
        ensures
            final(self)@ == (Status { negative: true, ..old(self)@ }),
    {
        proof {
            lemma_set_bit(self.0, NEGATIVE);
            lemma_masks(self.0);
            lemma_masks(self.0 | NEGATIVE);
        }
        self.0 |= NEGATIVE
    }

    pub fn clear_negative_flag(&mut self)
        ensures
            final(self)@ == (Status { negative: false, ..old(self)@ }),
    {
        proof {
            lemma_clear_bit(self.0, NEGATIVE);
            lemma_masks(self.0);
            lemma_masks(self.0 & !NEGATIVE);
        }
        self.0 &= !NEGATIVE
    }

    /// The status byte as it stands.
    pub fn raw(&self) -> (byte: &u8)
        ensures
            *byte == self@.to_byte(),
    {
        proof {
            lemma_status_byte_round_trip(self.0, self@);
        }
        &self.0
    }

    /// The status byte, open to be overwritten: the flags afterwards are
    /// those of whatever byte the caller leaves there.
    pub fn raw_mut(&mut self) -> (byte: &mut u8)
        ensures
            *byte == old(self)@.to_byte(),
            final(self)@ == Status::from_byte(*final(byte)),
    {
        proof {
            lemma_status_byte_round_trip(self.0, self@);
        }
        &mut self.0
    }
}

} // verus!
