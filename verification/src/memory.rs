//! The memory: a byte at each address, and words of four bytes, the most
//! significant byte first.

use crate::narrow::U20;
use vstd::prelude::*;

verus! {

/// The number of bytes of memory, and the number of addresses.
pub const MEMORY_SIZE: usize = 0x10_0000;

/// The last address at which four bytes lie within the memory.
pub const LAST_WORD: u32 = 0xF_FFFC;

/// The word that the four bytes from `address` on hold, the first byte being
/// the most significant.
pub open spec fn word_at(memory: Seq<u8>, address: int) -> u32 {
    (memory[address] * 0x100_0000 + memory[address + 1] * 0x1_0000 + memory[address + 2] * 0x100
        + memory[address + 3]) as u32
}

/// The memory after a write of the four bytes of `value` from `address` on,
/// the most significant byte first.
pub open spec fn write_word(memory: Seq<u8>, address: int, value: u32) -> Seq<u8> {
    memory.update(address, (value / 0x100_0000) as u8).update(
        address + 1,
        (value / 0x1_0000 % 0x100) as u8,
    ).update(address + 2, (value / 0x100 % 0x100) as u8).update(
        address + 3,
        (value % 0x100) as u8,
    )
}

/// A write of a word changes the four bytes from its address on and no other
/// byte, and a read at that address gives the word back.
pub proof fn lemma_write_then_read(memory: Seq<u8>, address: int, value: u32)
    requires
        0 <= address,
        address + 4 <= memory.len(),
    ensures
        write_word(memory, address, value).len() == memory.len(),
        word_at(write_word(memory, address, value), address) == value,
        forall|i: int|
            0 <= i < memory.len() && !(address <= i < address + 4) ==> write_word(
                memory,
                address,
                value,
            )[i] == memory[i],
{
    lemma_word_bytes(value);
}

/// The four bytes of a word, by shifts and by division.
proof fn lemma_word_bytes(value: u32)
    by (bit_vector)
    ensures
        (value >> 24) & 0xff == value / 0x100_0000,
        (value >> 16) & 0xff == value / 0x1_0000 % 0x100,
        (value >> 8) & 0xff == value / 0x100 % 0x100,
        value & 0xff == value % 0x100,
        value / 0x100_0000 <= 0xff,
        (value / 0x100_0000) * 0x100_0000 + (value / 0x1_0000 % 0x100) * 0x1_0000 + (value / 0x100
            % 0x100) * 0x100 + value % 0x100 == value,
{
}

/// The word of four bytes, by shifts and by multiplication.
proof fn lemma_bytes_word(b0: u8, b1: u8, b2: u8, b3: u8)
    by (bit_vector)
    ensures
        0u32 | ((b0 as u32) << 24) | ((b1 as u32) << 16) | ((b2 as u32) << 8) | (b3 as u32) == b0
            * 0x100_0000 + b1 * 0x1_0000 + b2 * 0x100 + b3,
{
}

/// The memory: one byte at each 20-bit address.
#[derive(Debug)]
pub struct Memory {
    bytes: Vec<u8>,
}

impl View for Memory {
    type V = Seq<u8>;

    closed spec fn view(&self) -> Seq<u8> {
        self.bytes@
    }
}

impl Default for Memory {
    /// The memory, all zero.
    fn default() -> (r: Memory)
        ensures
            r@ == Seq::new(MEMORY_SIZE as nat, |i: int| 0u8),
    {
        let r = Memory { bytes: vec![0u8; MEMORY_SIZE] };
        assert(r@ =~= Seq::new(MEMORY_SIZE as nat, |i: int| 0u8));
        r
    }
}

impl Memory {
    /// Every address has its byte.
    #[verifier::type_invariant]
    pub open spec fn wf(self) -> bool {
        self@.len() == MEMORY_SIZE
    }

    /// Writes the byte at `index`.
    pub fn set(&mut self, index: U20, value: u8)
        ensures
            final(self)@ == old(self)@.update(index@ as int, value),
    {
        proof {
            use_type_invariant(&*self);
        }
        self.bytes[index.value() as usize] = value;
    }

    /// The byte at `index`.
    pub fn get(&mut self, index: U20) -> (r: u8)
        ensures
            r == old(self)@[index@ as int],
            final(self)@ == old(self)@,
    {
        proof {
            use_type_invariant(&*self);
        }
        self.bytes[index.value() as usize]
    }

    /// Writes the four bytes of `value` from `index` on, the most significant
    /// byte first. The four bytes must lie within the memory.
    pub fn set_four_byte(&mut self, index: U20, value: u32)
        requires
            index@ + 4 <= MEMORY_SIZE,
        ensures
            final(self)@ == write_word(old(self)@, index@ as int, value),
    {
        proof {
            use_type_invariant(&*self);
            lemma_word_bytes(value);
        }
        let start = index.value() as usize;
        self.bytes[start] = ((value >> 24) & 0xff) as u8;
        self.bytes[start + 1] = ((value >> 16) & 0xff) as u8;
        self.bytes[start + 2] = ((value >> 8) & 0xff) as u8;
        self.bytes[start + 3] = ((value) & 0xff) as u8;
    }

    /// The word that the four bytes from `index` on hold, the first byte being
    /// the most significant. The four bytes must lie within the memory.
    pub fn get_aligned(&self, index: U20) -> (r: u32)
        requires
            index@ + 4 <= MEMORY_SIZE,
        ensures
            r == word_at(self@, index@ as int),
    {
        proof {
            use_type_invariant(self);
        }
        let mut out: u32 = 0;
        let start = index.value() as usize;
        proof {
            lemma_bytes_word(
                self.bytes@[start as int],
                self.bytes@[start + 1],
                self.bytes@[start + 2],
                self.bytes@[start + 3],
            );
        }
        out |= (self.bytes[start] as u32) << 24;
        out |= (self.bytes[start + 1] as u32) << 16;
        out |= (self.bytes[start + 2] as u32) << 8;
        out |= self.bytes[start + 3] as u32;
        out
    }
}

} // verus!
