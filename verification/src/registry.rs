//! The register file.

use crate::narrow::U5;
use vstd::prelude::*;

verus! {

/// The registers after a write of `value` to register `index`. Register 0 is
/// hardwired to zero: a write to it changes nothing.
pub open spec fn registers_after_set(registers: Seq<u32>, index: nat, value: u32) -> Seq<u32> {
    if index == 0 {
        registers
    } else {
        registers.update(index as int, value)
    }
}

/// The 32 registers. Register 0 always holds zero.
#[derive(Debug)]
pub struct Registry {
    registers: [u32; 32],
}

impl View for Registry {
    type V = Seq<u32>;

    closed spec fn view(&self) -> Seq<u32> {
        self.registers@
    }
}

impl Default for Registry {
    /// The registers, all zero.
    fn default() -> (r: Registry)
        ensures
            r@ == Seq::new(32, |i: int| 0u32),
    {
        let r = Registry { registers: [0u32;32] };
        assert(r@ =~= Seq::new(32, |i: int| 0u32));
        r
    }
}

impl Registry {
    /// There are 32 registers, and register 0 holds zero.
    #[verifier::type_invariant]
    pub open spec fn wf(self) -> bool {
        self@.len() == 32 && self@[0] == 0
    }

    /// Writes `value` to register `index`, unless that is register 0.
    pub fn set(&mut self, index: U5, value: u32)
        ensures
            final(self)@ == registers_after_set(old(self)@, index@, value),
    {
        let i = index.value();
        if i == 0 {
            return ;
        }
        proof {
            use_type_invariant(&*self);
        }
        self.registers[i as usize] = value;
    }

    /// The value of register `index`.
    pub fn get(&self, index: U5) -> (r: u32)
        ensures
            r == self@[index@ as int],
    {
        self.registers[index.value() as usize]
    }
}

/// Register 0 holds zero after any write, and a write to another register is
/// read back from it and changes no other register.
pub proof fn lemma_registers_after_set(registers: Seq<u32>, index: nat, value: u32)
    requires
        registers.len() == 32,
        registers[0] == 0,
        index < 32,
    ensures
        registers_after_set(registers, index, value).len() == 32,
        registers_after_set(registers, index, value)[0] == 0,
        index != 0 ==> registers_after_set(registers, index, value)[index as int] == value,
        forall|i: int|
            0 <= i < 32 && i != index ==> registers_after_set(registers, index, value)[i]
                == registers[i],
{
}

} // verus!
