//! The machine that fetches, decodes and executes one instruction per step.

pub use crate::instruction::{CPUInstruction, DecodeError};
pub use crate::memory::{Memory, MEMORY_SIZE};
pub use crate::registry::Registry;

use crate::memory::{word_at, write_word, LAST_WORD};
use crate::narrow::{U20, U5};
use crate::registry::registers_after_set;
use crate::word::signed;
use vstd::prelude::*;

verus! {

/// Why the machine stopped.
#[derive(PartialEq, Eq, Debug, Clone, Copy)]
pub enum MachineError {
    /// The word at the program counter is no instruction.
    InvalidInstruction,
    /// An address lies outside the memory: the target of a `JALR`, the four
    /// bytes of a load or a store, or the four bytes of the next instruction.
    AddressRange,
}

/// The sum of `a` and `b`, or the largest `u32` if the sum exceeds it.
pub open spec fn saturating_sum(a: u32, b: u32) -> u32 {
    if a + b > u32::MAX {
        u32::MAX
    } else {
        (a + b) as u32
    }
}

/// The difference of `a` and `b`, or zero if `b` exceeds `a`.
pub open spec fn saturating_difference(a: u32, b: u32) -> u32 {
    if a < b {
        0
    } else {
        (a - b) as u32
    }
}

/// The address of the instruction that follows the one at `pc`. Addresses
/// wrap around at the end of the memory.
pub open spec fn next_pc(pc: nat) -> nat {
    (pc + 4) % (MEMORY_SIZE as nat)
}

/// The address that lies `offset` bytes from `pc`, where `offset` is a signed
/// number in two's complement. Addresses wrap around at both ends of the
/// memory. As 2^32 is a multiple of the number of addresses, the offset can be
/// added as it stands.
pub open spec fn jump_target(pc: nat, offset: u32) -> nat {
    ((pc + offset) % (MEMORY_SIZE as int)) as nat
}

/// The sum of a base address and a signed offset in two's complement, as a
/// `u32`.
pub open spec fn effective_address(base: u32, offset: u32) -> nat {
    ((base + offset) % 0x1_0000_0000) as nat
}

/// What a machine holds: the model of a `RISCMachine`.
pub struct MachineState {
    pub registers: Seq<u32>,
    pub memory: Seq<u8>,
    pub pc: nat,
}

/// A state together with what the step that led to it returned.
pub struct Step {
    pub state: MachineState,
    pub result: Result<(), MachineError>,
}

impl MachineState {
    /// There are 32 registers, of which register 0 holds zero, a byte at each
    /// address, and the program counter is an address.
    pub open spec fn wf(self) -> bool {
        &&& self.registers.len() == 32
        &&& self.registers[0] == 0
        &&& self.memory.len() == MEMORY_SIZE
        &&& self.pc < MEMORY_SIZE
    }

    /// The state with `value` written to register `index`.
    pub open spec fn with_register(self, index: nat, value: u32) -> MachineState {
        MachineState {
            registers: registers_after_set(self.registers, index, value),
            memory: self.memory,
            pc: self.pc,
        }
    }

    /// The state with the word `value` written to memory at `address`.
    pub open spec fn with_word(self, address: nat, value: u32) -> MachineState {
        MachineState {
            registers: self.registers,
            memory: write_word(self.memory, address as int, value),
            pc: self.pc,
        }
    }

    /// The state with the program counter at `pc`.
    pub open spec fn with_pc(self, pc: nat) -> MachineState {
        MachineState { registers: self.registers, memory: self.memory, pc }
    }

    /// The state after `instruction`, and whether the instruction succeeded.
    ///
    /// `ADD` and `SUB` saturate. A load or a store whose four bytes do not
    /// all lie within the memory fails and changes nothing. `JAL` and `JALR`
    /// write the address of the next instruction to `rd` first; a `JALR` whose
    /// target is no address then fails and leaves the program counter as it
    /// was.
    pub open spec fn execute(self, instruction: CPUInstruction) -> Step {
        match instruction {
            CPUInstruction::ADD { rd, rs1, rs2 } => Step {
                state: self.with_register(
                    rd@,
                    saturating_sum(self.registers[rs1@ as int], self.registers[rs2@ as int]),
                ).with_pc(next_pc(self.pc)),
                result: Ok(()),
            },
            CPUInstruction::SUB { rd, rs1, rs2 } => Step {
                state: self.with_register(
                    rd@,
                    saturating_difference(
                        self.registers[rs1@ as int],
                        self.registers[rs2@ as int],
                    ),
                ).with_pc(next_pc(self.pc)),
                result: Ok(()),
            },
            CPUInstruction::LW { rd, rs1, imm } => {
                let address = effective_address(self.registers[rs1@ as int], imm);
                if address + 4 <= MEMORY_SIZE {
                    Step {
                        state: self.with_register(rd@, word_at(self.memory, address as int))
                            .with_pc(next_pc(self.pc)),
                        result: Ok(()),
                    }
                } else {
                    Step { state: self, result: Err(MachineError::AddressRange) }
                }
            },
            CPUInstruction::SW { rs1, rs2, imm } => {
                let address = effective_address(self.registers[rs1@ as int], imm);
                if address + 4 <= MEMORY_SIZE {
                    Step {
                        state: self.with_word(address, self.registers[rs2@ as int]).with_pc(
                            next_pc(self.pc),
                        ),
                        result: Ok(()),
                    }
                } else {
                    Step { state: self, result: Err(MachineError::AddressRange) }
                }
            },
            CPUInstruction::JAL { rd, imm } => Step {
                state: self.with_register(rd@, next_pc(self.pc) as u32).with_pc(
                    jump_target(self.pc, imm),
                ),
                result: Ok(()),
            },
            CPUInstruction::JALR { rd, rs1, imm } => {
                let linked = self.with_register(rd@, next_pc(self.pc) as u32);
                let sum = effective_address(linked.registers[rs1@ as int], imm);
                let target = (sum - sum % 2) as nat;
                if target < MEMORY_SIZE {
                    Step { state: linked.with_pc(target), result: Ok(()) }
                } else {
                    Step { state: linked, result: Err(MachineError::AddressRange) }
                }
            },
            CPUInstruction::BEQ { rs1, rs2, imm } => Step {
                state: if self.registers[rs1@ as int] == self.registers[rs2@ as int] {
                    self.with_pc(jump_target(self.pc, imm))
                } else {
                    self.with_pc(next_pc(self.pc))
                },
                result: Ok(()),
            },
            CPUInstruction::BNE { rs1, rs2, imm } => Step {
                state: if self.registers[rs1@ as int] != self.registers[rs2@ as int] {
                    self.with_pc(jump_target(self.pc, imm))
                } else {
                    self.with_pc(next_pc(self.pc))
                },
                result: Ok(()),
            },
        }
    }

    /// The state after one tick, and whether the tick succeeded: the word at
    /// the program counter is fetched, decoded and executed. A tick that
    /// cannot fetch four bytes, or that fetches a word that is no instruction,
    /// fails and changes nothing.
    #[verifier::opaque]
    pub open spec fn tick(self) -> Step {
        if self.pc + 4 <= MEMORY_SIZE {
            match CPUInstruction::decode_spec(word_at(self.memory, self.pc as int)) {
                Ok(instruction) => self.execute(instruction),
                Err(_) => Step { state: self, result: Err(MachineError::InvalidInstruction) },
            }
        } else {
            Step { state: self, result: Err(MachineError::AddressRange) }
        }
    }

    /// The state after `n` ticks.
    pub open spec fn after(self, n: nat) -> MachineState
        decreases n,
    {
        if n == 0 {
            self
        } else {
            self.after((n - 1) as nat).tick().state
        }
    }

    /// Whether the first `n` ticks all succeed.
    pub open spec fn runs(self, n: nat) -> bool
        decreases n,
    {
        n == 0 || (self.runs((n - 1) as nat) && self.after((n - 1) as nat).tick().result is Ok)
    }

    /// The program counter, as the value that a stopping predicate is given.
    pub open spec fn pc_value(self) -> U20 {
        U20::spec_new(self.pc as u32)
    }
}

/// Where no address wraps around, the next instruction lies 4 bytes on and a
/// jump leads to the program counter plus the signed offset.
pub proof fn lemma_addresses(pc: nat, offset: u32)
    requires
        pc < MEMORY_SIZE,
    ensures
        next_pc(pc) < MEMORY_SIZE,
        jump_target(pc, offset) < MEMORY_SIZE,
        pc + 4 < MEMORY_SIZE ==> next_pc(pc) == pc + 4,
        0 <= pc + signed(offset) < MEMORY_SIZE ==> jump_target(pc, offset) == pc + signed(offset),
{
    if 0 <= pc + signed(offset) < MEMORY_SIZE && offset >= 0x8000_0000 {
        assert(pc + offset == 4096 * 0x10_0000 + (pc + signed(offset)));
    }
}

/// `JAL` writes the address of the next instruction to `rd`, unless `rd` is
/// register 0, and sets the program counter to the target of the jump. It
/// changes nothing else and does not fail. Where neither address wraps
/// around, the link is the program counter plus 4 and the target is the
/// program counter plus the signed immediate.
pub proof fn lemma_jal_links(state: MachineState, rd: U5, imm: u32)
    requires
        state.wf(),
        rd.wf(),
    ensures
        state.execute(CPUInstruction::JAL { rd, imm }).result is Ok,
        state.execute(CPUInstruction::JAL { rd, imm }).state.pc == jump_target(state.pc, imm),
        rd@ != 0 ==> state.execute(CPUInstruction::JAL { rd, imm }).state.registers[rd@ as int]
            == next_pc(state.pc),
        forall|i: int|
            0 <= i < 32 && i != rd@ ==> state.execute(
                CPUInstruction::JAL { rd, imm },
            ).state.registers[i] == state.registers[i],
        state.execute(CPUInstruction::JAL { rd, imm }).state.memory == state.memory,
        rd@ != 0 && state.pc + 4 < MEMORY_SIZE ==> state.execute(
            CPUInstruction::JAL { rd, imm },
        ).state.registers[rd@ as int] == state.pc + 4,
        0 <= state.pc + signed(imm) < MEMORY_SIZE ==> state.execute(
            CPUInstruction::JAL { rd, imm },
        ).state.pc == state.pc + signed(imm),
{
    lemma_addresses(state.pc, imm);
}

/// A branch whose condition does not hold moves the program counter to the
/// next instruction, which lies 4 bytes on unless the address wraps around,
/// and changes nothing else.
pub proof fn lemma_branch_not_taken(state: MachineState, rs1: U5, rs2: U5, imm: u32)
    requires
        state.wf(),
        rs1.wf(),
        rs2.wf(),
    ensures
        state.registers[rs1@ as int] != state.registers[rs2@ as int] ==> state.execute(
            CPUInstruction::BEQ { rs1, rs2, imm },
        ) == (Step { state: state.with_pc(next_pc(state.pc)), result: Ok(()) }),
        state.registers[rs1@ as int] == state.registers[rs2@ as int] ==> state.execute(
            CPUInstruction::BNE { rs1, rs2, imm },
        ) == (Step { state: state.with_pc(next_pc(state.pc)), result: Ok(()) }),
        state.pc + 4 < MEMORY_SIZE ==> next_pc(state.pc) == state.pc + 4,
{
    lemma_addresses(state.pc, imm);
}

/// A tick on a word that is no instruction fails and changes nothing.
pub proof fn lemma_tick_on_invalid_word(state: MachineState)
    requires
        state.pc + 4 <= MEMORY_SIZE,
        CPUInstruction::decode_spec(word_at(state.memory, state.pc as int)) is Err,
    ensures
        state.tick() == (Step { state, result: Err(MachineError::InvalidInstruction) }),
{
    reveal(MachineState::tick);
}

/// Every step leaves a well-formed state well-formed.
pub proof fn lemma_tick_keeps_wf(state: MachineState)
    requires
        state.wf(),
    ensures
        state.tick().state.wf(),
{
    reveal(MachineState::tick);
    if state.pc + 4 <= MEMORY_SIZE {
        let word = word_at(state.memory, state.pc as int);
        CPUInstruction::lemma_encode_decode(word);
        match CPUInstruction::decode_spec(word) {
            Ok(instruction) => {
                lemma_execute_keeps_wf(state, instruction);
            },
            Err(_) => {},
        }
    }
}

/// Every state that a well-formed state reaches is well-formed, and the value
/// that a stopping predicate is given there is its program counter.
pub proof fn lemma_after_keeps_wf(start: MachineState, n: nat)
    requires
        start.wf(),
    ensures
        start.after(n).wf(),
        start.after(n).pc_value().wf(),
        start.after(n).pc_value()@ == start.after(n).pc,
    decreases n,
{
    if n > 0 {
        lemma_after_keeps_wf(start, (n - 1) as nat);
        lemma_tick_keeps_wf(start.after((n - 1) as nat));
    }
    U20::lemma_spec_new(start.after(n).pc as u32);
}

/// Every instruction leaves a well-formed state well-formed.
pub proof fn lemma_execute_keeps_wf(state: MachineState, instruction: CPUInstruction)
    requires
        state.wf(),
        instruction.wf(),
    ensures
        state.execute(instruction).state.wf(),
{
    match instruction {
        CPUInstruction::LW { imm, .. }
        | CPUInstruction::SW { imm, .. }
        | CPUInstruction::JAL { imm, .. }
        | CPUInstruction::JALR { imm, .. }
        | CPUInstruction::BEQ { imm, .. }
        | CPUInstruction::BNE { imm, .. } => {
            lemma_addresses(state.pc, imm);
        },
        _ => {
            lemma_addresses(state.pc, 0);
        },
    }
}

/// What `run` may return and leave behind: `ticks` ticks were made from
/// `start`, `until` was asked after each tick that succeeded, and `end` is the
/// state that was reached and `result` what was returned.
///
/// Every tick but the last succeeded and was followed by `false` from `until`.
/// With `Ok(true)` the last tick succeeded and `until` said `true`; with
/// `Ok(false)` all `max_ticks` ticks succeeded and `until` never said `true`;
/// with an error one more tick was tried after `ticks` ticks, and failed.
pub open spec fn run_outcome<F: Fn(U20) -> bool>(
    until: F,
    start: MachineState,
    max_ticks: nat,
    ticks: nat,
    end: MachineState,
    result: Result<bool, MachineError>,
) -> bool {
    &&& ticks <= max_ticks
    &&& start.runs(ticks)
    &&& forall|k: nat|
        1 <= k < ticks ==> call_ensures(until, (#[trigger] start.after(k).pc_value(),), false)
    &&& match result {
        Ok(stopped) => {
            &&& end == start.after(ticks)
            &&& stopped ==> ticks >= 1
            &&& !stopped ==> ticks == max_ticks
            &&& ticks >= 1 ==> call_ensures(until, (end.pc_value(),), stopped)
        },
        Err(error) => {
            &&& ticks < max_ticks
            &&& ticks >= 1 ==> call_ensures(until, (start.after(ticks).pc_value(),), false)
            &&& start.after(ticks).tick() == (Step { state: end, result: Err(error) })
        },
    }
}

/// The machine: its memory, its registers and the address of the next
/// instruction.
#[derive(Debug)]
pub struct RISCMachine {
    pub memory: Memory,
    pub registry: Registry,
    pub program_counter: U20,
}

impl View for RISCMachine {
    type V = MachineState;

    open spec fn view(&self) -> MachineState {
        MachineState {
            registers: self.registry@,
            memory: self.memory@,
            pc: self.program_counter@,
        }
    }
}

impl Default for RISCMachine {
    /// The machine with memory and registers all zero, at address 0.
    fn default() -> (r: RISCMachine)
        ensures
            r@.registers == Seq::new(32, |i: int| 0u32),
            r@.memory == Seq::new(MEMORY_SIZE as nat, |i: int| 0u8),
            r@.pc == 0,
    {
        RISCMachine {
            memory: Memory::default(),
            registry: Registry::default(),
            program_counter: U20::default(),
        }
    }
}

/// The address that lies `offset` bytes from `pc`, modulo the number of
/// addresses.
fn offset_address(pc: U20, offset: u32) -> (r: U20)
    ensures
        r@ == jump_target(pc@, offset),
{
    let sum: u32 = pc.value().wrapping_add(offset);
    proof {
        lemma_low_bits(sum);
    }
    U20::new(sum & 0xF_FFFF)
}

/// The low 20 bits of a number are its remainder modulo 2^20.
proof fn lemma_low_bits(v: u32)
    by (bit_vector)
    ensures
        v & 0xF_FFFF == v % 0x10_0000,
        v & 0xffff_fffe == v - v % 2,
{
}

impl RISCMachine {
    /// Replaces the memory of the machine by `memory`.
    pub fn load_memory(&mut self, memory: Memory)
        ensures
            final(self)@ == (MachineState { memory: memory@, ..old(self)@ }),
    {
        self.memory = memory;
    }

    /// Executes `instruction` on the machine.
    fn execute(&mut self, instruction: CPUInstruction) -> (r: Result<(), MachineError>)
        ensures
            (Step { state: final(self)@, result: r }) == old(self)@.execute(instruction),
    {
        proof {
            use_type_invariant(&self.memory);
            use_type_invariant(&self.registry);
            use_type_invariant(&self.program_counter);
        }
        match instruction {
            CPUInstruction::ADD { rd, rs1, rs2 } => {
                let value = self.registry.get(rs1).saturating_add(self.registry.get(rs2));
                self.registry.set(rd, value);
                self.program_counter = self.program_counter.wrapping_add(U20::new(4));
                Ok(())
            },
            CPUInstruction::SUB { rd, rs1, rs2 } => {
                let value = self.registry.get(rs1).saturating_sub(self.registry.get(rs2));
                self.registry.set(rd, value);
                self.program_counter = self.program_counter.wrapping_add(U20::new(4));
                Ok(())
            },
            CPUInstruction::LW { rd, rs1, imm } => {
                let address = self.registry.get(rs1).wrapping_add(imm);
                if address > LAST_WORD {
                    return Err(MachineError::AddressRange);
                }
                let value = self.memory.get_aligned(U20::new(address));
                self.registry.set(rd, value);
                self.program_counter = self.program_counter.wrapping_add(U20::new(4));
                Ok(())
            },
            CPUInstruction::SW { rs1, rs2, imm } => {
                let value = self.registry.get(rs2);
                let address = self.registry.get(rs1).wrapping_add(imm);
                if address > LAST_WORD {
                    return Err(MachineError::AddressRange);
                }
                self.memory.set_four_byte(U20::new(address), value);
                self.program_counter = self.program_counter.wrapping_add(U20::new(4));
                Ok(())
            },
            CPUInstruction::JAL { rd, imm } => {
                self.registry.set(rd, self.program_counter.wrapping_add(U20::new(4)).value());
                self.program_counter = offset_address(self.program_counter, imm);
                Ok(())
            },
            CPUInstruction::JALR { rd, rs1, imm } => {
                self.registry.set(rd, self.program_counter.wrapping_add(U20::new(4)).value());
                let sum = self.registry.get(rs1).wrapping_add(imm);
                proof {
                    lemma_low_bits(sum);
                }
                let value = sum & 0xffff_fffe;
                if value > U20::MAX {
                    return Err(MachineError::AddressRange);
                }
                self.program_counter = U20::new(value);
                Ok(())
            },
            CPUInstruction::BEQ { rs1, rs2, imm } => {
                if self.registry.get(rs1) == self.registry.get(rs2) {
                    self.program_counter = offset_address(self.program_counter, imm);
                } else {
                    self.program_counter = self.program_counter.wrapping_add(U20::new(4));
                }
                Ok(())
            },
            CPUInstruction::BNE { rs1, rs2, imm } => {
                if self.registry.get(rs1) != self.registry.get(rs2) {
                    self.program_counter = offset_address(self.program_counter, imm);
                } else {
                    self.program_counter = self.program_counter.wrapping_add(U20::new(4));
                }
                Ok(())
            },
        }
    }

    /// The word at the program counter.
    fn get_next_instruction(&self) -> (r: u32)
        requires
            self@.pc + 4 <= MEMORY_SIZE,
        ensures
            r == word_at(self@.memory, self@.pc as int),
    {
        self.memory.get_aligned(self.program_counter)
    }

    /// Fetches the word at the program counter, decodes it and executes it.
    pub fn tick(&mut self) -> (r: Result<(), MachineError>)
        ensures
            (Step { state: final(self)@, result: r }) == old(self)@.tick(),
    {
        proof {
            reveal(MachineState::tick);
        }
        if self.program_counter.value() > LAST_WORD {
            return Err(MachineError::AddressRange);
        }
        let instruction = self.get_next_instruction();
        match CPUInstruction::decode(instruction) {
            Ok(instruction) => self.execute(instruction),
            Err(_) => Err(MachineError::InvalidInstruction),
        }
    }

    /// Makes ticks until `until` says `true` of the program counter after a
    /// tick, a tick fails, or `max_ticks` ticks were made. Returns `Ok(true)`
    /// in the first case, the error of the tick in the second and `Ok(false)`
    /// in the third.
    pub fn run<F: Fn(U20) -> bool>(&mut self, until: F, max_ticks: u64) -> (r: Result<
        bool,
        MachineError,
    >)
        requires
            forall|pc: U20| pc.wf() ==> call_requires(until, (pc,)),
        ensures
            exists|ticks: nat|
                run_outcome(until, old(self)@, max_ticks as nat, ticks, final(self)@, r),
    {
        let ghost start = self@;
        let mut ticks: u64 = 0;
        while ticks < max_ticks
            invariant
                forall|pc: U20| pc.wf() ==> call_requires(until, (pc,)),
                ticks <= max_ticks,
                start == old(self)@,
                start.runs(ticks as nat),
                self@ == start.after(ticks as nat),
                forall|k: nat|
                    1 <= k <= ticks ==> call_ensures(
                        until,
                        (#[trigger] start.after(k).pc_value(),),
                        false,
                    ),
            decreases max_ticks - ticks,
        {
            match self.tick() {
                Ok(()) => {},
                Err(error) => {
                    assert(run_outcome(
                        until,
                        start,
                        max_ticks as nat,
                        ticks as nat,
                        self@,
                        Err(error),
                    ));
                    return Err(error);
                },
            }
            ticks += 1;
            proof {
                use_type_invariant(&self.program_counter);
                U20::lemma_spec_new_of_view(self.program_counter);
            }
            if until(self.program_counter) {
                assert(run_outcome(until, start, max_ticks as nat, ticks as nat, self@, Ok(true)));
                return Ok(true);
            }
        }
        assert(run_outcome(until, start, max_ticks as nat, ticks as nat, self@, Ok(false)));
        Ok(false)
    }
}

} // verus!
