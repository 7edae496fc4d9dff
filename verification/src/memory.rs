use vstd::prelude::*;

verus! {

/// Number of bytes in the address space.
pub const MEMORY_SIZE: usize = 0x10000;

/// The byte found at `a` once `bytes` have been written upwards from `base`,
/// one address after the other and from the top of memory on to address 0.
/// An address reached more than once keeps the last byte written to it.
pub open spec fn byte_after_write(mem: Seq<u8>, base: int, bytes: Seq<u8>, a: int) -> u8 {
    let first = (a - base) % 0x10000;
    if first >= bytes.len() {
        mem[a]
    } else {
        bytes[first + 0x10000 * ((bytes.len() - 1 - first) / 0x10000)]
    }
}

/// The flat 64 KiB address space.
#[derive(Debug)]
pub struct Memory([u8; MEMORY_SIZE]);

impl View for Memory {
    type V = Seq<u8>;

    closed spec fn view(&self) -> Seq<u8> {
        self.0@
    }
}

impl Default for Memory {
    fn default() -> (memory: Self)
        ensures
            memory@ == Seq::new(0x10000, |a: int| 0u8),
    {
        Self::new()
    }
}

impl Memory {
    /// Every memory holds exactly `MEMORY_SIZE` bytes.
    pub proof fn lemma_size(&self)
        ensures
            self@.len() == 0x10000,
    {
    }

    /// Create new `Memory`, initialised to 0
    pub fn new() -> (memory: Self)
        ensures
            memory@ == Seq::new(0x10000, |a: int| 0u8),
    {
        Memory([0; MEMORY_SIZE])
    }

    /// Writes `byte` to `addr` and leaves every other address.
    pub fn write_byte(&mut self, addr: u16, byte: u8)
        ensures
            final(self)@ == old(self)@.update(addr as int, byte),
    {
        self.0[addr as usize] = byte;
    }

    /// Writes `bytes` to `addr` and the addresses after it; past the top of
    /// memory the writing goes on at address 0.
    #[verifier::rlimit(40)]
    pub fn write_bytes(&mut self, addr: u16, bytes: &[u8])
        ensures
            final(self)@.len() == 0x10000,
            forall|a: int|
                0 <= a < 0x10000 ==> #[trigger] final(self)@[a] == byte_after_write(
                    old(self)@,
                    addr as int,
                    bytes@,
                    a,
                ),
    {
        let mut i: usize = 0;
        let mut at: u16 = addr;
        while i < bytes.len()
            invariant
                i <= bytes.len(),
                at == (addr + i) % 0x10000,
                self@.len() == 0x10000,
                forall|a: int|
                    0 <= a < 0x10000 ==> #[trigger] self@[a] == byte_after_write(
                        old(self)@,
                        addr as int,
                        bytes@.take(i as int),
                        a,
                    ),
            decreases bytes.len() - i,
        {
            let ghost before = self@;
            self.0[at as usize] = bytes[i];
            assert forall|a: int| 0 <= a < 0x10000 implies #[trigger] self@[a] == byte_after_write(
                old(self)@,
                addr as int,
                bytes@.take(i + 1),
                a,
            ) by {
                assert(before[a] == byte_after_write(
                    old(self)@,
                    addr as int,
                    bytes@.take(i as int),
                    a,
                ));
            }
            at = at.wrapping_add(1);
            i += 1;
        }
        assert(bytes@.take(i as int) == bytes@);
    }

    /// The byte at `addr`.
    pub fn read_byte(&self, addr: u16) -> (byte: u8)
        ensures
            byte == self@[addr as int],
    {
        self.0[addr as usize]
    }

    /// The byte at `addr`, open to be overwritten in place.
    pub fn mut_byte(&mut self, addr: u16) -> (byte: &mut u8)
        ensures
            *byte == old(self)@[addr as int],
            final(self)@ == old(self)@.update(addr as int, *final(byte)),
    {
        &mut self.0[addr as usize]
    }

    /// The `number` bytes found from `addr` upwards; past the top of memory
    /// the reading goes on at address 0.
    pub fn read_bytes(&self, addr: u16, number: u16) -> (bytes: Vec<u8>)
        ensures
            bytes@ == Seq::new(number as nat, |i: int| self@[(addr + i) % 0x10000]),
    {
        let mut bytes: Vec<u8> = Vec::new();
        let mut i: u16 = 0;
        let mut at: u16 = addr;
        while i < number
            invariant
                i <= number,
                at == (addr + i) % 0x10000,
                bytes@ == Seq::new(i as nat, |k: int| self@[(addr + k) % 0x10000]),
            decreases number - i,
        {
            bytes.push(self.0[at as usize]);
            at = at.wrapping_add(1);
            i += 1;
        }
        bytes
    }

    /// A copy of the whole address space, from address 0 upwards.
    pub fn to_bytes(&self) -> (bytes: Vec<u8>)
        ensures
            bytes@ == self@,
    {
        let mut bytes: Vec<u8> = Vec::new();
        let mut i: usize = 0;
        while i < MEMORY_SIZE
            invariant
                i <= MEMORY_SIZE,
                bytes@ == self@.take(i as int),
            decreases MEMORY_SIZE - i,
        {
            bytes.push(self.0[i]);
            i += 1;
        }
        assert(self@.take(MEMORY_SIZE as int) == self@);
        bytes
    }
}

} // verus!
