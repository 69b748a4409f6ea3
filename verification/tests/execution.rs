use riscv_core::narrow::{U20, U5};
use riscv_core::risc_machine::{
    CPUInstruction, MachineError, Memory, RISCMachine, Registry, MEMORY_SIZE,
};

fn x(index: u8) -> U5 {
    U5::new(index)
}

/// A machine at `pc` with `instruction` there and the given register values.
fn machine_with(pc: u32, instruction: CPUInstruction, registers: &[(u8, u32)]) -> RISCMachine {
    let mut memory = Memory::default();
    memory.set_four_byte(U20::new(pc), instruction.encode());
    let mut registry = Registry::default();
    for &(index, value) in registers {
        registry.set(x(index), value);
    }
    RISCMachine { memory, registry, program_counter: U20::new(pc) }
}

#[test]
fn register_zero_stays_zero() {
    let mut registry = Registry::default();
    for value in [0u32, 1, 0x1234_5678, 0xffff_ffff] {
        registry.set(x(0), value);
        assert_eq!(registry.get(x(0)), 0);
    }
    for index in 1..=31u8 {
        registry.set(x(index), 100 + index as u32);
    }
    for index in 1..=31u8 {
        assert_eq!(registry.get(x(index)), 100 + index as u32);
    }
    assert_eq!(registry.get(x(0)), 0);
}

#[test]
fn an_instruction_cannot_write_register_zero() -> Result<(), MachineError> {
    let add = CPUInstruction::ADD { rd: x(0), rs1: x(1), rs2: x(2) };
    let mut machine = machine_with(0, add, &[(1, 5), (2, 6)]);
    machine.tick()?;
    assert_eq!(machine.registry.get(x(0)), 0);
    assert_eq!(machine.program_counter, U20::new(4));
    Ok(())
}

#[test]
fn add_saturates() -> Result<(), MachineError> {
    let add = CPUInstruction::ADD { rd: x(3), rs1: x(1), rs2: x(2) };
    let mut machine = machine_with(0, add, &[(1, 0xffff_ffff), (2, 1)]);
    machine.tick()?;
    assert_eq!(machine.registry.get(x(3)), 0xffff_ffff);
    let mut machine = machine_with(0, add, &[(1, 0x8000_0000), (2, 0x8000_0000)]);
    machine.tick()?;
    assert_eq!(machine.registry.get(x(3)), 0xffff_ffff);
    let mut machine = machine_with(0, add, &[(1, 0x7fff_ffff), (2, 0x8000_0000)]);
    machine.tick()?;
    assert_eq!(machine.registry.get(x(3)), 0xffff_ffff);
    let mut machine = machine_with(0, add, &[(1, 40), (2, 2)]);
    machine.tick()?;
    assert_eq!(machine.registry.get(x(3)), 42);
    assert_eq!(machine.program_counter, U20::new(4));
    Ok(())
}

#[test]
fn sub_saturates() -> Result<(), MachineError> {
    let sub = CPUInstruction::SUB { rd: x(3), rs1: x(1), rs2: x(2) };
    let mut machine = machine_with(0, sub, &[(1, 0), (2, 1)]);
    machine.tick()?;
    assert_eq!(machine.registry.get(x(3)), 0);
    let mut machine = machine_with(0, sub, &[(1, 5), (2, 0xffff_ffff)]);
    machine.tick()?;
    assert_eq!(machine.registry.get(x(3)), 0);
    let mut machine = machine_with(0, sub, &[(1, 44), (2, 2)]);
    machine.tick()?;
    assert_eq!(machine.registry.get(x(3)), 42);
    assert_eq!(machine.program_counter, U20::new(4));
    Ok(())
}

#[test]
fn a_word_written_to_memory_is_read_back() {
    let mut memory = Memory::default();
    let last = MEMORY_SIZE as u32 - 4;
    let words =
        [(0u32, 0x0102_0304u32), (4, 0xffff_ffff), (0x8000, 0), (last, 0xdead_beef), (13, 0x8000_0001)];
    for (address, word) in words {
        memory.set_four_byte(U20::new(address), word);
        assert_eq!(memory.get_aligned(U20::new(address)), word);
    }
    // the neighbours of a written word are untouched
    memory.set_four_byte(U20::new(100), 0x1111_1111);
    memory.set_four_byte(U20::new(108), 0x3333_3333);
    memory.set_four_byte(U20::new(104), 0x2222_2222);
    assert_eq!(memory.get_aligned(U20::new(100)), 0x1111_1111);
    assert_eq!(memory.get_aligned(U20::new(104)), 0x2222_2222);
    assert_eq!(memory.get_aligned(U20::new(108)), 0x3333_3333);
}

#[test]
fn memory_holds_the_most_significant_byte_first() {
    let mut memory = Memory::default();
    assert_eq!(memory.get(U20::new(0)), 0);
    assert_eq!(memory.get(U20::new(0xf_ffff)), 0);
    memory.set_four_byte(U20::new(8), 0x0102_0304);
    assert_eq!(memory.get(U20::new(8)), 1);
    assert_eq!(memory.get(U20::new(9)), 2);
    assert_eq!(memory.get(U20::new(10)), 3);
    assert_eq!(memory.get(U20::new(11)), 4);
    assert_eq!(memory.get(U20::new(7)), 0);
    assert_eq!(memory.get(U20::new(12)), 0);
    memory.set(U20::new(0xf_ffff), 0xab);
    memory.set(U20::new(0xf_fffc), 0x12);
    assert_eq!(memory.get(U20::new(0xf_ffff)), 0xab);
    assert_eq!(memory.get_aligned(U20::new(0xf_fffc)), 0x1200_00ab);
}

#[test]
fn a_store_is_read_back_by_a_load() -> Result<(), MachineError> {
    let mut memory = Memory::default();
    memory.set_four_byte(
        U20::new(0),
        CPUInstruction::SW { rs1: x(1), rs2: x(2), imm: 8 }.encode(),
    );
    memory.set_four_byte(
        U20::new(4),
        CPUInstruction::LW { rd: x(3), rs1: x(4), imm: 0xffff_fffc }.encode(),
    );
    let mut registry = Registry::default();
    registry.set(x(1), 0x1000);
    registry.set(x(2), 0xcafe_f00d);
    registry.set(x(4), 0x100c);
    let mut machine = RISCMachine { memory, registry, program_counter: U20::new(0) };
    machine.tick()?;
    assert_eq!(machine.memory.get_aligned(U20::new(0x1008)), 0xcafe_f00d);
    assert_eq!(machine.program_counter, U20::new(4));
    machine.tick()?;
    assert_eq!(machine.registry.get(x(3)), 0xcafe_f00d);
    assert_eq!(machine.program_counter, U20::new(8));
    Ok(())
}

#[test]
fn a_load_takes_its_base_address_from_the_register() -> Result<(), MachineError> {
    let load = CPUInstruction::LW { rd: x(3), rs1: x(5), imm: 4 };
    let mut machine = machine_with(0, load, &[(5, 0x200)]);
    machine.memory.set_four_byte(U20::new(0x204), 77);
    machine.memory.set_four_byte(U20::new(9), 99);
    machine.tick()?;
    assert_eq!(machine.registry.get(x(3)), 77);
    Ok(())
}

#[test]
fn a_load_outside_the_memory_fails_and_changes_nothing() {
    let load = CPUInstruction::LW { rd: x(3), rs1: x(5), imm: 0 };
    for base in [0x000f_fffdu32, 0x0010_0000, 0xffff_ffff] {
        let mut machine = machine_with(16, load, &[(3, 7), (5, base)]);
        assert_eq!(machine.tick(), Err(MachineError::AddressRange));
        assert_eq!(machine.registry.get(x(3)), 7);
        assert_eq!(machine.program_counter, U20::new(16));
    }
    let mut machine = machine_with(16, load, &[(3, 7), (5, 0x000f_fffc)]);
    machine.memory.set_four_byte(U20::new(0xf_fffc), 5);
    assert_eq!(machine.tick(), Ok(()));
    assert_eq!(machine.registry.get(x(3)), 5);
}

#[test]
fn a_store_outside_the_memory_fails_and_changes_nothing() {
    let store = CPUInstruction::SW { rs1: x(5), rs2: x(6), imm: 4 };
    let mut machine = machine_with(16, store, &[(5, 0x000f_fffa), (6, 0xffff_ffff)]);
    assert_eq!(machine.tick(), Err(MachineError::AddressRange));
    assert_eq!(machine.program_counter, U20::new(16));
    assert_eq!(machine.memory.get_aligned(U20::new(0xf_fffc)), 0);
    assert_eq!(machine.memory.get_aligned(U20::new(0)), 0);
    let mut machine = machine_with(16, store, &[(5, 0x000f_fff8), (6, 0xffff_ffff)]);
    assert_eq!(machine.tick(), Ok(()));
    assert_eq!(machine.memory.get_aligned(U20::new(0xf_fffc)), 0xffff_ffff);
}

#[test]
fn jal_links_and_jumps() -> Result<(), MachineError> {
    let mut machine = machine_with(100, CPUInstruction::JAL { rd: x(1), imm: 0xffff_ffec }, &[]);
    machine.tick()?;
    assert_eq!(machine.program_counter, U20::new(80));
    assert_eq!(machine.registry.get(x(1)), 104);

    let mut machine = machine_with(100, CPUInstruction::JAL { rd: x(31), imm: 2048 }, &[]);
    machine.tick()?;
    assert_eq!(machine.program_counter, U20::new(2148));
    assert_eq!(machine.registry.get(x(31)), 104);

    let mut machine = machine_with(100, CPUInstruction::JAL { rd: x(0), imm: 8 }, &[]);
    machine.tick()?;
    assert_eq!(machine.program_counter, U20::new(108));
    assert_eq!(machine.registry.get(x(0)), 0);
    Ok(())
}

#[test]
fn addresses_wrap_around_the_end_of_the_memory() -> Result<(), MachineError> {
    let mut machine = machine_with(0xf_fffc, CPUInstruction::JAL { rd: x(1), imm: 8 }, &[]);
    machine.tick()?;
    assert_eq!(machine.program_counter, U20::new(4));
    assert_eq!(machine.registry.get(x(1)), 0);

    let mut machine = machine_with(4, CPUInstruction::JAL { rd: x(1), imm: 0xffff_fff8 }, &[]);
    machine.tick()?;
    assert_eq!(machine.program_counter, U20::new(0xf_fffc));
    assert_eq!(machine.registry.get(x(1)), 8);

    let add = CPUInstruction::ADD { rd: x(1), rs1: x(0), rs2: x(0) };
    let mut machine = machine_with(0xf_fffc, add, &[]);
    machine.tick()?;
    assert_eq!(machine.program_counter, U20::new(0));
    Ok(())
}

#[test]
fn a_branch_not_taken_goes_to_the_next_instruction() -> Result<(), MachineError> {
    let beq = CPUInstruction::BEQ { rs1: x(1), rs2: x(2), imm: 40 };
    let mut machine = machine_with(200, beq, &[(1, 5), (2, 6)]);
    machine.tick()?;
    assert_eq!(machine.program_counter, U20::new(204));

    let bne = CPUInstruction::BNE { rs1: x(1), rs2: x(2), imm: 40 };
    let mut machine = machine_with(200, bne, &[(1, 5), (2, 5)]);
    machine.tick()?;
    assert_eq!(machine.program_counter, U20::new(204));
    assert_eq!(machine.registry.get(x(1)), 5);
    assert_eq!(machine.registry.get(x(2)), 5);
    Ok(())
}

#[test]
fn a_branch_taken_goes_to_its_target() -> Result<(), MachineError> {
    let beq = CPUInstruction::BEQ { rs1: x(1), rs2: x(2), imm: 40 };
    let mut machine = machine_with(200, beq, &[(1, 5), (2, 5)]);
    machine.tick()?;
    assert_eq!(machine.program_counter, U20::new(240));

    let bne = CPUInstruction::BNE { rs1: x(1), rs2: x(2), imm: 0xffff_fff8 };
    let mut machine = machine_with(200, bne, &[(1, 5), (2, 6)]);
    machine.tick()?;
    assert_eq!(machine.program_counter, U20::new(192));
    Ok(())
}

#[test]
fn jalr_links_and_jumps_to_an_even_address() -> Result<(), MachineError> {
    let jalr = CPUInstruction::JALR { rd: x(1), rs1: x(2), imm: 13 };
    let mut machine = machine_with(64, jalr, &[(2, 0x300)]);
    machine.tick()?;
    assert_eq!(machine.program_counter, U20::new(0x30c));
    assert_eq!(machine.registry.get(x(1)), 68);

    let jalr = CPUInstruction::JALR { rd: x(1), rs1: x(2), imm: 0xffff_fffc };
    let mut machine = machine_with(64, jalr, &[(2, 0x300)]);
    machine.tick()?;
    assert_eq!(machine.program_counter, U20::new(0x2fc));

    // the link is written first, so a base in `rd` is the link
    let jalr = CPUInstruction::JALR { rd: x(2), rs1: x(2), imm: 8 };
    let mut machine = machine_with(64, jalr, &[(2, 0x300)]);
    machine.tick()?;
    assert_eq!(machine.registry.get(x(2)), 68);
    assert_eq!(machine.program_counter, U20::new(76));
    Ok(())
}

#[test]
fn jalr_outside_the_address_space_fails_and_keeps_the_program_counter() {
    let jalr = CPUInstruction::JALR { rd: x(1), rs1: x(2), imm: 0 };
    let mut machine = machine_with(64, jalr, &[(2, 0x0010_0000)]);
    assert_eq!(machine.tick(), Err(MachineError::AddressRange));
    assert_eq!(machine.program_counter, U20::new(64));
    assert_eq!(machine.registry.get(x(1)), 68);

    let mut machine = machine_with(64, jalr, &[(2, 0x000f_ffff)]);
    assert_eq!(machine.tick(), Ok(()));
    assert_eq!(machine.program_counter, U20::new(0xf_fffe));
}

#[test]
fn an_invalid_word_stops_the_machine_and_changes_nothing() {
    let mut memory = Memory::default();
    memory.set_four_byte(U20::new(32), 0b1111111);
    memory.set_four_byte(U20::new(36), 0x1234_5678);
    let mut registry = Registry::default();
    for index in 1..=31u8 {
        registry.set(x(index), index as u32 * 3);
    }
    let mut machine = RISCMachine { memory, registry, program_counter: U20::new(32) };
    assert_eq!(machine.tick(), Err(MachineError::InvalidInstruction));
    assert_eq!(machine.program_counter, U20::new(32));
    for index in 0..=31u8 {
        assert_eq!(machine.registry.get(x(index)), index as u32 * 3);
    }
    assert_eq!(machine.memory.get_aligned(U20::new(32)), 0b1111111);
    assert_eq!(machine.memory.get_aligned(U20::new(36)), 0x1234_5678);
    assert_eq!(machine.run(|_pc: U20| true, 10), Err(MachineError::InvalidInstruction));
    assert_eq!(machine.program_counter, U20::new(32));
}

#[test]
fn an_instruction_cut_off_by_the_end_of_the_memory_is_not_fetched() {
    let mut machine = RISCMachine::default();
    for pc in [0x000f_fffdu32, 0x000f_fffe, 0x000f_ffff] {
        machine.program_counter = U20::new(pc);
        assert_eq!(machine.tick(), Err(MachineError::AddressRange));
        assert_eq!(machine.program_counter, U20::new(pc));
    }
}

#[test]
fn a_new_machine_is_all_zero() {
    let mut machine = RISCMachine::default();
    assert_eq!(machine.program_counter, U20::new(0));
    for index in 0..=31u8 {
        assert_eq!(machine.registry.get(x(index)), 0);
    }
    for address in [0u32, 1, 0x8_0000, 0xf_ffff] {
        assert_eq!(machine.memory.get(U20::new(address)), 0);
    }
    assert_eq!(machine.tick(), Err(MachineError::InvalidInstruction));
}

#[test]
fn load_memory_replaces_the_memory_only() {
    let mut machine = RISCMachine::default();
    machine.registry.set(x(9), 9);
    machine.program_counter = U20::new(12);
    let mut memory = Memory::default();
    memory.set_four_byte(U20::new(0), 0x0102_0304);
    machine.load_memory(memory);
    assert_eq!(machine.memory.get_aligned(U20::new(0)), 0x0102_0304);
    assert_eq!(machine.registry.get(x(9)), 9);
    assert_eq!(machine.program_counter, U20::new(12));
}

#[test]
fn run_stops_when_the_predicate_holds() -> Result<(), MachineError> {
    let mut memory = Memory::default();
    for slot in 0..8u32 {
        memory.set_four_byte(
            U20::new(slot * 4),
            CPUInstruction::ADD { rd: x(1), rs1: x(1), rs2: x(2) }.encode(),
        );
    }
    let mut registry = Registry::default();
    registry.set(x(2), 10);
    let mut machine = RISCMachine { memory, registry, program_counter: U20::new(0) };
    let stopped = machine.run(|pc: U20| pc.value() >= 12, 100)?;
    assert!(stopped);
    assert_eq!(machine.program_counter, U20::new(12));
    assert_eq!(machine.registry.get(x(1)), 30);
    // the predicate is asked after a tick, never before the first
    let stopped = machine.run(|_pc: U20| true, 100)?;
    assert!(stopped);
    assert_eq!(machine.program_counter, U20::new(16));
    assert_eq!(machine.registry.get(x(1)), 40);
    Ok(())
}

#[test]
fn run_gives_up_after_the_ticks_it_was_given() -> Result<(), MachineError> {
    // a jump to itself, counted by nothing, never ends
    let mut machine = machine_with(8, CPUInstruction::JAL { rd: x(1), imm: 0 }, &[]);
    let stopped = machine.run(|_pc: U20| false, 7)?;
    assert!(!stopped);
    assert_eq!(machine.program_counter, U20::new(8));
    assert_eq!(machine.registry.get(x(1)), 12);

    let mut memory = Memory::default();
    for slot in 0..8u32 {
        memory.set_four_byte(
            U20::new(slot * 4),
            CPUInstruction::ADD { rd: x(1), rs1: x(1), rs2: x(2) }.encode(),
        );
    }
    let mut machine = RISCMachine::default();
    machine.load_memory(memory);
    machine.registry.set(x(2), 1);
    assert_eq!(machine.run(|_pc: U20| false, 5), Ok(false));
    assert_eq!(machine.program_counter, U20::new(20));
    assert_eq!(machine.registry.get(x(1)), 5);
    assert_eq!(machine.run(|_pc: U20| true, 0), Ok(false));
    assert_eq!(machine.program_counter, U20::new(20));
    Ok(())
}

#[test]
fn run_hands_on_the_error_of_a_tick() {
    let mut memory = Memory::default();
    memory.set_four_byte(
        U20::new(0),
        CPUInstruction::ADD { rd: x(1), rs1: x(1), rs2: x(2) }.encode(),
    );
    memory.set_four_byte(
        U20::new(4),
        CPUInstruction::JALR { rd: x(3), rs1: x(4), imm: 0 }.encode(),
    );
    let mut registry = Registry::default();
    registry.set(x(2), 1);
    registry.set(x(4), 0x8000_0000);
    let mut machine = RISCMachine { memory, registry, program_counter: U20::new(0) };
    assert_eq!(machine.run(|_pc: U20| false, 100), Err(MachineError::AddressRange));
    assert_eq!(machine.program_counter, U20::new(4));
    assert_eq!(machine.registry.get(x(1)), 1);
    assert_eq!(machine.registry.get(x(3)), 8);
}
