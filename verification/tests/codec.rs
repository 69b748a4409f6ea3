use riscv_core::narrow::{U1, U20, U3, U4, U5, U6, U7};
use riscv_core::risc_machine::{CPUInstruction, DecodeError};
use riscv_core::riscv_instruction::{
    ITypeIImmediateInstruction, RISCVImmediate, RISCVInstruction, RTypeInstructionFormat,
    STypeBImmediateInstruction, STypeSImmediateInstruction, UTypeJImmediateInstruction,
};

fn x(index: u8) -> U5 {
    U5::new(index)
}

/// Instructions with the words that the instruction set manual gives them.
fn known_words() -> Vec<(CPUInstruction, u32)> {
    vec![
        (CPUInstruction::ADD { rd: x(1), rs1: x(2), rs2: x(3) }, 0x0031_00b3),
        (CPUInstruction::SUB { rd: x(1), rs1: x(2), rs2: x(3) }, 0x4031_00b3),
        (CPUInstruction::LW { rd: x(5), rs1: x(0), imm: 44 }, 0x02c0_2283),
        (CPUInstruction::LW { rd: x(5), rs1: x(6), imm: 0xffff_fffc }, 0xffc3_2283),
        (CPUInstruction::SW { rs1: x(1), rs2: x(2), imm: 8 }, 0x0020_a423),
        (CPUInstruction::SW { rs1: x(30), rs2: x(31), imm: 0xffff_f800 }, 0x81ff_2023),
        (CPUInstruction::JAL { rd: x(1), imm: 2048 }, 0x0010_00ef),
        (CPUInstruction::JAL { rd: x(0), imm: 0xffff_ffec }, 0xfedf_f06f),
        (CPUInstruction::JALR { rd: x(1), rs1: x(2), imm: 12 }, 0x00c1_00e7),
        (CPUInstruction::BEQ { rs1: x(0), rs2: x(7), imm: 24 }, 0x0070_0c63),
        (CPUInstruction::BNE { rs1: x(3), rs2: x(4), imm: 0xffff_fff8 }, 0xfe41_9ce3),
        (CPUInstruction::BEQ { rs1: x(1), rs2: x(2), imm: 4094 }, 0x7e20_8fe3),
    ]
}

#[test]
fn encode_gives_the_words_of_the_manual() {
    for (instruction, word) in known_words() {
        assert_eq!(instruction.encode(), word, "{:?}", instruction);
        assert_eq!(u32::from(instruction), word, "{:?}", instruction);
    }
}

#[test]
fn decode_reads_the_words_of_the_manual() {
    for (instruction, word) in known_words() {
        assert_eq!(CPUInstruction::decode(word), Ok(instruction));
        assert_eq!(CPUInstruction::try_from(word), Ok(instruction));
    }
}

#[test]
fn decode_undoes_encode_for_every_variant() {
    let registers = [x(0), x(1), x(15), x(16), x(31)];
    let twelve_bit = [0u32, 1, 0x7ff, 0xffff_f800, 0xffff_ffff];
    let thirteen_bit = [0u32, 2, 0xffe, 0xffff_f000, 0xffff_fffe];
    let twenty_one_bit = [0u32, 2, 0x800, 0x000f_fffe, 0xfff0_0000, 0xffff_fffe];
    let mut instructions = Vec::new();
    for &a in &registers {
        for &b in &registers {
            for &c in &registers {
                instructions.push(CPUInstruction::ADD { rd: a, rs1: b, rs2: c });
                instructions.push(CPUInstruction::SUB { rd: a, rs1: b, rs2: c });
            }
            for &imm in &twelve_bit {
                instructions.push(CPUInstruction::LW { rd: a, rs1: b, imm });
                instructions.push(CPUInstruction::SW { rs1: a, rs2: b, imm });
                instructions.push(CPUInstruction::JALR { rd: a, rs1: b, imm });
            }
            for &imm in &thirteen_bit {
                instructions.push(CPUInstruction::BEQ { rs1: a, rs2: b, imm });
                instructions.push(CPUInstruction::BNE { rs1: a, rs2: b, imm });
            }
        }
        for &imm in &twenty_one_bit {
            instructions.push(CPUInstruction::JAL { rd: a, imm });
        }
    }
    for instruction in instructions {
        let word = instruction.encode();
        assert_eq!(CPUInstruction::decode(word), Ok(instruction));
        assert_eq!(CPUInstruction::decode(word).map(|i| i.encode()), Ok(word));
    }
}

#[test]
fn encode_drops_the_bits_an_encoding_has_no_room_for() {
    let load = CPUInstruction::LW { rd: x(1), rs1: x(2), imm: 0x1004 };
    assert_eq!(
        CPUInstruction::decode(load.encode()),
        Ok(CPUInstruction::LW { rd: x(1), rs1: x(2), imm: 4 })
    );
    let branch = CPUInstruction::BEQ { rs1: x(1), rs2: x(2), imm: 9 };
    assert_eq!(
        CPUInstruction::decode(branch.encode()),
        Ok(CPUInstruction::BEQ { rs1: x(1), rs2: x(2), imm: 8 })
    );
}

#[test]
fn decode_rejects_an_undefined_opcode() {
    assert_eq!(CPUInstruction::decode(0b1111111), Err(DecodeError::InvalidInstruction));
    assert_eq!(CPUInstruction::decode(0xffff_ffff), Err(DecodeError::InvalidInstruction));
    assert_eq!(CPUInstruction::decode(0), Err(DecodeError::InvalidInstruction));
    assert_eq!(CPUInstruction::try_from(0x0000_007fu32), Err(DecodeError::InvalidInstruction));
}

#[test]
fn decode_rejects_undefined_selectors() {
    // R-type with funct3 = 001, and with funct7 = 0000001
    assert_eq!(CPUInstruction::decode(0x0031_10b3), Err(DecodeError::InvalidInstruction));
    assert_eq!(CPUInstruction::decode(0x0231_00b3), Err(DecodeError::InvalidInstruction));
    // R-type with funct7 of SUB and funct3 = 001
    assert_eq!(CPUInstruction::decode(0x4031_10b3), Err(DecodeError::InvalidInstruction));
    // load and store of a byte
    assert_eq!(CPUInstruction::decode(0x02c0_0283), Err(DecodeError::InvalidInstruction));
    assert_eq!(CPUInstruction::decode(0x0020_8423), Err(DecodeError::InvalidInstruction));
    // JALR with funct3 = 001
    assert_eq!(CPUInstruction::decode(0x00c1_10e7), Err(DecodeError::InvalidInstruction));
    // branch with funct3 = 100
    assert_eq!(CPUInstruction::decode(0x0070_4c63), Err(DecodeError::InvalidInstruction));
}

#[test]
fn immediate_is_read_back_in_every_encoding() {
    let cases: [(RISCVImmediate, &[u32]); 5] = [
        (RISCVImmediate::I, &[0, 1, 0b1010100, 0x7ff, 0xffff_f800, 0xffff_ffff]),
        (RISCVImmediate::S, &[0, 1, 0b1010100, 0x7ff, 0xffff_f800, 0xffff_ffff]),
        (RISCVImmediate::B, &[0, 2, 0b1010100, 0x800, 0xffe, 0xffff_f000, 0xffff_fffe]),
        (RISCVImmediate::U, &[0, 0x1000, 0x0010_0000, 0x7fff_f000, 0x8000_0000, 0xffff_f000]),
        (RISCVImmediate::J, &[0, 2, 0b1010100, 0x800, 0x000f_fffe, 0xfff0_0000, 0xffff_fffe]),
    ];
    for (encoding, values) in cases {
        for &value in values {
            let from_zero: u32 = 0.with_immediate(value, &encoding);
            assert_eq!(from_zero.immediate(&encoding), value, "{:?} {:#x}", encoding, value);
            let from_ones: u32 = 0xffff_ffffu32.with_immediate(value, &encoding);
            assert_eq!(from_ones.immediate(&encoding), value, "{:?} {:#x}", encoding, value);
        }
    }
}

#[test]
fn with_immediate_keeps_the_bits_outside_its_encoding() {
    let ones = 0xffff_ffffu32;
    assert_eq!(ones.with_immediate(0, &RISCVImmediate::I), 0x000f_ffff);
    assert_eq!(ones.with_immediate(0, &RISCVImmediate::S), 0x01ff_f07f);
    assert_eq!(ones.with_immediate(0, &RISCVImmediate::B), 0x01ff_f07f);
    assert_eq!(ones.with_immediate(0, &RISCVImmediate::U), 0x0000_0fff);
    assert_eq!(ones.with_immediate(0, &RISCVImmediate::J), 0x0000_0fff);
    assert_eq!(0u32.with_immediate(0xffff_ffff, &RISCVImmediate::I), 0xfff0_0000);
    assert_eq!(0u32.with_immediate(0xffff_ffff, &RISCVImmediate::S), 0xfe00_0f80);
    assert_eq!(0u32.with_immediate(0xffff_fffe, &RISCVImmediate::B), 0xfe00_0f80);
    assert_eq!(0u32.with_immediate(0xffff_ffff, &RISCVImmediate::U), 0xffff_f000);
    assert_eq!(0u32.with_immediate(0xffff_fffe, &RISCVImmediate::J), 0xffff_f000);
}

#[test]
fn immediate_of_known_words() {
    assert_eq!(0x02c0_2283u32.immediate(&RISCVImmediate::I), 44);
    assert_eq!(0xffc3_2283u32.immediate(&RISCVImmediate::I), 0xffff_fffc);
    assert_eq!(0x0020_a423u32.immediate(&RISCVImmediate::S), 8);
    assert_eq!(0x81ff_2023u32.immediate(&RISCVImmediate::S), 0xffff_f800);
    assert_eq!(0x0070_0c63u32.immediate(&RISCVImmediate::B), 24);
    assert_eq!(0xfe41_9ce3u32.immediate(&RISCVImmediate::B), 0xffff_fff8);
    assert_eq!(0x7e20_8fe3u32.immediate(&RISCVImmediate::B), 4094);
    assert_eq!(0x0010_00efu32.immediate(&RISCVImmediate::J), 2048);
    assert_eq!(0xfedf_f06fu32.immediate(&RISCVImmediate::J), 0xffff_ffec);
    assert_eq!(0x1234_5678u32.immediate(&RISCVImmediate::U), 0x1234_5000);
    assert_eq!(0x8000_0fffu32.immediate(&RISCVImmediate::U), 0x8000_0000);
    assert_eq!(0x0010_0000u32.immediate(&RISCVImmediate::U), 0x0010_0000);
}

#[test]
fn fields_of_a_word() {
    let word = 0x4031_00b3u32;
    assert_eq!(word.opcode().value(), 0b0110011);
    assert_eq!(word.rd().value(), 1);
    assert_eq!(word.funct3().value(), 0);
    assert_eq!(word.rs1().value(), 2);
    assert_eq!(word.rs2().value(), 3);
    assert_eq!(word.funct7().value(), 0b0100000);
    let ones = 0xffff_ffffu32;
    assert_eq!(ones.opcode(), U7::new(127));
    assert_eq!(ones.rd(), U5::new(31));
    assert_eq!(ones.funct3(), U3::new(7));
    assert_eq!(ones.rs1(), U5::new(31));
    assert_eq!(ones.rs2(), U5::new(31));
    assert_eq!(ones.funct7(), U7::new(127));
}

#[test]
fn a_field_is_replaced_and_the_others_stay() {
    let ones = 0xffff_ffffu32;
    assert_eq!(ones.with_opcode(U7::new(0b0110011)), 0xffff_ffb3);
    assert_eq!(ones.with_rd(U5::new(0)), 0xffff_f07f);
    assert_eq!(ones.with_funct3(U3::new(0)), 0xffff_8fff);
    assert_eq!(ones.with_rs1(U5::new(0)), 0xfff0_7fff);
    assert_eq!(ones.with_rs2(U5::new(0)), 0xfe0f_ffff);
    assert_eq!(ones.with_funct7(U7::new(0)), 0x01ff_ffff);
    assert_eq!(0u32.with_opcode(U7::new(127)), 0x0000_007f);
    assert_eq!(0u32.with_rd(U5::new(31)), 0x0000_0f80);
    assert_eq!(0u32.with_funct3(U3::new(7)), 0x0000_7000);
    assert_eq!(0u32.with_rs1(U5::new(31)), 0x000f_8000);
    assert_eq!(0u32.with_rs2(U5::new(31)), 0x01f0_0000);
    assert_eq!(0u32.with_funct7(U7::new(127)), 0xfe00_0000);
}

#[test]
fn groups_of_immediate_bits() {
    // bits 7, 20 and 31 set, and a pattern in each of the wider groups
    let word = (1u32 << 7) | (0b1010 << 8) | (0b1100_0011 << 12) | (1 << 20) | (0b0110 << 21)
        | (0b10_0001 << 25) | (1 << 31);
    assert_eq!(word.im_7(), U1::new(1));
    assert_eq!(word.im_8_11(), U4::new(0b1010));
    assert_eq!(word.im_12_19(), 0b1100_0011);
    assert_eq!(word.im_20(), U1::new(1));
    assert_eq!(word.im_21_24(), U4::new(0b0110));
    assert_eq!(word.im_25_30(), U6::new(0b10_0001));
    assert_eq!(word.im_31(), U1::new(1));
    assert_eq!((!word).im_7().value(), 0);
    assert_eq!((!word).im_8_11().value(), 0b0101);
    assert_eq!((!word).im_12_19(), 0b0011_1100);
    assert_eq!((!word).im_20().value(), 0);
    assert_eq!((!word).im_21_24().value(), 0b1001);
    assert_eq!((!word).im_25_30().value(), 0b01_1110);
    assert_eq!((!word).im_31().value(), 0);
}

#[test]
fn a_group_is_replaced_and_the_other_bits_stay() {
    let ones = 0xffff_ffffu32;
    assert_eq!(ones.with_im_7(U1::new(0)), !(1u32 << 7));
    assert_eq!(ones.with_im_8_11(U4::new(0)), !(0xfu32 << 8));
    assert_eq!(ones.with_im_12_19(0), !(0xffu32 << 12));
    assert_eq!(ones.with_im_20(U1::new(0)), !(1u32 << 20));
    assert_eq!(ones.with_im_21_24(U4::new(0)), !(0xfu32 << 21));
    assert_eq!(ones.with_im_25_30(U6::new(0)), !(0x3fu32 << 25));
    assert_eq!(ones.with_im_31(U1::new(0)), !(1u32 << 31));
    assert_eq!(0u32.with_im_7(U1::new(1)), 1 << 7);
    assert_eq!(0u32.with_im_8_11(U4::new(0b1001)), 0b1001 << 8);
    assert_eq!(0u32.with_im_12_19(0b1000_0001), 0b1000_0001 << 12);
    assert_eq!(0u32.with_im_20(U1::new(1)), 1 << 20);
    assert_eq!(0u32.with_im_21_24(U4::new(0b1001)), 0b1001 << 21);
    assert_eq!(0u32.with_im_25_30(U6::new(0b10_0001)), 0b10_0001 << 25);
    assert_eq!(0u32.with_im_31(U1::new(1)), 1 << 31);
}

#[test]
fn formats_take_a_word_apart_and_put_it_together() {
    let r = RTypeInstructionFormat::from(0x4031_00b3u32);
    assert_eq!(
        r,
        RTypeInstructionFormat {
            opcode: U7::new(0b0110011),
            rd: U5::new(1),
            funct3: U3::new(0),
            rs1: U5::new(2),
            rs2: U5::new(3),
            funct7: U7::new(0b0100000),
        }
    );
    assert_eq!(u32::from(r), 0x4031_00b3);

    let i = ITypeIImmediateInstruction::from(0xffc3_2283u32);
    assert_eq!(
        i,
        ITypeIImmediateInstruction {
            opcode: U7::new(0b0000011),
            rd: U5::new(5),
            funct3: U3::new(0b010),
            rs1: U5::new(6),
            imm: 0xffff_fffc,
        }
    );
    assert_eq!(u32::from(i), 0xffc3_2283);

    let s = STypeSImmediateInstruction::from(0x81ff_2023u32);
    assert_eq!(
        s,
        STypeSImmediateInstruction {
            opcode: U7::new(0b0100011),
            funct3: U3::new(0b010),
            rs1: U5::new(30),
            rs2: U5::new(31),
            imm: 0xffff_f800,
        }
    );
    assert_eq!(u32::from(s), 0x81ff_2023);

    let b = STypeBImmediateInstruction::from(0xfe41_9ce3u32);
    assert_eq!(
        b,
        STypeBImmediateInstruction {
            opcode: U7::new(0b1100011),
            funct3: U3::new(0b001),
            rs1: U5::new(3),
            rs2: U5::new(4),
            imm: 0xffff_fff8,
        }
    );
    assert_eq!(u32::from(b), 0xfe41_9ce3);

    let j = UTypeJImmediateInstruction::from(0xfedf_f06fu32);
    assert_eq!(
        j,
        UTypeJImmediateInstruction { opcode: U7::new(0b1101111), rd: U5::new(0), imm: 0xffff_ffec }
    );
    assert_eq!(u32::from(j), 0xfedf_f06f);
}

#[test]
fn every_word_is_rebuilt_from_each_format() {
    for word in [0u32, 0xffff_ffff, 0x1234_5678, 0x8765_4321, 0xdead_beef, 0x0000_0080] {
        assert_eq!(u32::from(RTypeInstructionFormat::from(word)), word);
        assert_eq!(u32::from(ITypeIImmediateInstruction::from(word)), word);
        assert_eq!(u32::from(STypeSImmediateInstruction::from(word)), word);
        assert_eq!(u32::from(STypeBImmediateInstruction::from(word)), word);
        assert_eq!(u32::from(UTypeJImmediateInstruction::from(word)), word);
    }
}

#[test]
fn narrow_integers_hold_their_values() {
    assert_eq!(U1::new(1).value(), 1);
    assert_eq!(U3::new(7).value(), 7);
    assert_eq!(U4::new(15).value(), 15);
    assert_eq!(U5::new(31).value(), 31);
    assert_eq!(U6::new(63).value(), 63);
    assert_eq!(U7::new(127).value(), 127);
    assert_eq!(U20::new(0xf_ffff).value(), 0xf_ffff);
    assert_eq!(U1::MAX, 1);
    assert_eq!(U3::MAX, 7);
    assert_eq!(U4::MAX, 15);
    assert_eq!(U5::MAX, 31);
    assert_eq!(U6::MAX, 63);
    assert_eq!(U7::MAX, 127);
    assert_eq!(U20::MAX, 0xf_ffff);
    assert_eq!(U20::default(), U20::new(0));
    assert_ne!(U5::new(3), U5::new(4));
}

#[test]
fn addresses_add_modulo_two_to_the_twentieth() {
    assert_eq!(U20::new(5).wrapping_add(U20::new(4)), U20::new(9));
    assert_eq!(U20::new(0xf_ffff).wrapping_add(U20::new(1)), U20::new(0));
    assert_eq!(U20::new(0xf_fffc).wrapping_add(U20::new(4)), U20::new(0));
    assert_eq!(U20::new(0xf_ffff).wrapping_add(U20::new(0xf_ffff)), U20::new(0xf_fffe));
    assert_eq!(U20::new(0).wrapping_add(U20::new(0)), U20::new(0));
}
