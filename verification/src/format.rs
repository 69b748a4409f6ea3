//! The formats of an instruction word: the fields that a word of each format
//! holds, and the conversions between a word and its fields.

use crate::narrow::{U3, U5, U7};
use crate::riscv_instruction::{RISCVImmediate, RISCVInstruction};
use crate::word::{
    b_type_word, funct3_of, funct7_of, i_type_word, immediate_of, j_type_word,
    lemma_b_type_fields, lemma_i_type_fields, lemma_j_type_fields, lemma_r_type_fields,
    lemma_s_type_fields, lemma_word_of_its_fields, opcode_of, r_type_word, rd_of, representable,
    rs1_of, rs2_of, s_type_word, with_funct3_of, with_funct7_of, with_opcode_of, with_rd_of,
    with_rs1_of, with_rs2_of,
};
use vstd::prelude::*;
use vstd::std_specs::convert::FromSpecImpl;

verus! {

/// The fields of an R-type instruction word.
#[derive(PartialEq, Eq, Debug)]
pub struct RTypeInstructionFormat {
    pub opcode: U7,
    pub rd: U5,
    pub funct3: U3,
    pub rs1: U5,
    pub rs2: U5,
    pub funct7: U7,
}

impl RTypeInstructionFormat {
    /// Every field is in the range of its type.
    pub open spec fn wf(self) -> bool {
        &&& self.opcode.wf()
        &&& self.rd.wf()
        &&& self.funct3.wf()
        &&& self.rs1.wf()
        &&& self.rs2.wf()
        &&& self.funct7.wf()
    }

    /// The fields that `w` holds.
    pub open spec fn of_word(w: u32) -> RTypeInstructionFormat {
        RTypeInstructionFormat {
            opcode: U7::spec_new(opcode_of(w) as u8),
            rd: U5::spec_new(rd_of(w) as u8),
            funct3: U3::spec_new(funct3_of(w) as u8),
            rs1: U5::spec_new(rs1_of(w) as u8),
            rs2: U5::spec_new(rs2_of(w) as u8),
            funct7: U7::spec_new(funct7_of(w) as u8),
        }
    }

    /// The word that holds these fields.
    pub open spec fn to_word(self) -> u32 {
        r_type_word(
            self.opcode@ as u32,
            self.rd@ as u32,
            self.funct3@ as u32,
            self.rs1@ as u32,
            self.rs2@ as u32,
            self.funct7@ as u32,
        )
    }

    /// Taking apart the word of these fields gives them back, where the fields
    /// are in range.
    pub proof fn lemma_of_word_to_word(self)
        requires
            self.wf(),
        ensures
            Self::of_word(self.to_word()) == self,
    {
        lemma_r_type_fields(
            self.opcode@ as u32,
            self.rd@ as u32,
            self.funct3@ as u32,
            self.rs1@ as u32,
            self.rs2@ as u32,
            self.funct7@ as u32,
        );
        U7::lemma_spec_new_of_view(self.opcode);
        U5::lemma_spec_new_of_view(self.rd);
        U3::lemma_spec_new_of_view(self.funct3);
        U5::lemma_spec_new_of_view(self.rs1);
        U5::lemma_spec_new_of_view(self.rs2);
        U7::lemma_spec_new_of_view(self.funct7);
    }

    /// What a word is taken apart into is in range, and its word is that word.
    pub proof fn lemma_to_word_of_word(w: u32)
        ensures
            Self::of_word(w).wf(),
            Self::of_word(w).to_word() == w,
    {
        lemma_word_of_its_fields(w);
        U7::lemma_spec_new(opcode_of(w) as u8);
        U5::lemma_spec_new(rd_of(w) as u8);
        U3::lemma_spec_new(funct3_of(w) as u8);
        U5::lemma_spec_new(rs1_of(w) as u8);
        U5::lemma_spec_new(rs2_of(w) as u8);
        U7::lemma_spec_new(funct7_of(w) as u8);
    }
}

impl FromSpecImpl<u32> for RTypeInstructionFormat {
    open spec fn obeys_from_spec() -> bool {
        true
    }

    open spec fn from_spec(value: u32) -> RTypeInstructionFormat {
        RTypeInstructionFormat::of_word(value)
    }
}

impl From<u32> for RTypeInstructionFormat {
    fn from(value: u32) -> (r: RTypeInstructionFormat) {
        let r = RTypeInstructionFormat {
            opcode: value.opcode(),
            funct7: value.funct7(),
            funct3: value.funct3(),
            rd: value.rd(),
            rs1: value.rs1(),
            rs2: value.rs2(),
        };
        proof {
            U7::lemma_spec_new_of_view(r.opcode);
            U7::lemma_spec_new_of_view(r.funct7);
            U3::lemma_spec_new_of_view(r.funct3);
            U5::lemma_spec_new_of_view(r.rd);
            U5::lemma_spec_new_of_view(r.rs1);
            U5::lemma_spec_new_of_view(r.rs2);
        }
        r
    }
}

impl FromSpecImpl<RTypeInstructionFormat> for u32 {
    open spec fn obeys_from_spec() -> bool {
        true
    }

    open spec fn from_spec(value: RTypeInstructionFormat) -> u32 {
        value.to_word()
    }
}

impl From<RTypeInstructionFormat> for u32 {
    fn from(value: RTypeInstructionFormat) -> (r: u32) {
        proof {
            use_type_invariant(&value.opcode);
            use_type_invariant(&value.rd);
            use_type_invariant(&value.funct3);
            use_type_invariant(&value.rs1);
            use_type_invariant(&value.rs2);
            use_type_invariant(&value.funct7);
            lemma_fields_into_zero(
                value.opcode@ as u32,
                value.rd@ as u32,
                value.funct3@ as u32,
                value.rs1@ as u32,
                value.rs2@ as u32,
                value.funct7@ as u32,
            );
        }
        0u32.with_opcode(value.opcode)
            .with_rd(value.rd)
            .with_funct3(value.funct3)
            .with_funct7(value.funct7)
            .with_rs1(value.rs1)
            .with_rs2(value.rs2)
    }
}

/// The fields of an S-type instruction word, with its immediate in the S encoding.
#[derive(PartialEq, Eq, Debug)]
pub struct STypeSImmediateInstruction {
    pub opcode: U7,
    pub funct3: U3,
    pub rs1: U5,
    pub rs2: U5,
    pub imm: u32,
}

impl STypeSImmediateInstruction {
    /// Every field is in the range of its type.
    pub open spec fn wf(self) -> bool {
        &&& self.opcode.wf()
        &&& self.funct3.wf()
        &&& self.rs1.wf()
        &&& self.rs2.wf()
    }

    /// The fields and the immediate that `w` holds.
    pub open spec fn of_word(w: u32) -> STypeSImmediateInstruction {
        STypeSImmediateInstruction {
            opcode: U7::spec_new(opcode_of(w) as u8),
            funct3: U3::spec_new(funct3_of(w) as u8),
            rs1: U5::spec_new(rs1_of(w) as u8),
            rs2: U5::spec_new(rs2_of(w) as u8),
            imm: immediate_of(w, RISCVImmediate::S),
        }
    }

    /// The word that holds these fields and as much of the immediate as the
    /// encoding has room for.
    pub open spec fn to_word(self) -> u32 {
        s_type_word(
            self.opcode@ as u32,
            self.funct3@ as u32,
            self.rs1@ as u32,
            self.rs2@ as u32,
            self.imm,
        )
    }

    /// Taking apart the word of these fields and the immediate gives them
    /// back, where the fields are in range and the encoding can hold the
    /// immediate.
    pub proof fn lemma_of_word_to_word(self)
        requires
            self.wf(),
            representable(self.imm, RISCVImmediate::S),
        ensures
            Self::of_word(self.to_word()) == self,
    {
        lemma_s_type_fields(
            self.opcode@ as u32,
            self.funct3@ as u32,
            self.rs1@ as u32,
            self.rs2@ as u32,
            self.imm,
        );
        U7::lemma_spec_new_of_view(self.opcode);
        U3::lemma_spec_new_of_view(self.funct3);
        U5::lemma_spec_new_of_view(self.rs1);
        U5::lemma_spec_new_of_view(self.rs2);
    }

    /// What a word is taken apart into is in range, and its word is that word.
    pub proof fn lemma_to_word_of_word(w: u32)
        ensures
            Self::of_word(w).wf(),
            Self::of_word(w).to_word() == w,
    {
        lemma_word_of_its_fields(w);
        U7::lemma_spec_new(opcode_of(w) as u8);
        U3::lemma_spec_new(funct3_of(w) as u8);
        U5::lemma_spec_new(rs1_of(w) as u8);
        U5::lemma_spec_new(rs2_of(w) as u8);
    }
}

impl FromSpecImpl<u32> for STypeSImmediateInstruction {
    open spec fn obeys_from_spec() -> bool {
        true
    }

    open spec fn from_spec(value: u32) -> STypeSImmediateInstruction {
        STypeSImmediateInstruction::of_word(value)
    }
}

impl From<u32> for STypeSImmediateInstruction {
    fn from(value: u32) -> (r: STypeSImmediateInstruction) {
        let r = STypeSImmediateInstruction {
            opcode: value.opcode(),
            funct3: value.funct3(),
            rs1: value.rs1(),
            rs2: value.rs2(),
            imm: value.immediate(&RISCVImmediate::S),
        };
        proof {
            U7::lemma_spec_new_of_view(r.opcode);
            U3::lemma_spec_new_of_view(r.funct3);
            U5::lemma_spec_new_of_view(r.rs1);
            U5::lemma_spec_new_of_view(r.rs2);
        }
        r
    }
}

impl FromSpecImpl<STypeSImmediateInstruction> for u32 {
    open spec fn obeys_from_spec() -> bool {
        true
    }

    open spec fn from_spec(value: STypeSImmediateInstruction) -> u32 {
        value.to_word()
    }
}

impl From<STypeSImmediateInstruction> for u32 {
    fn from(value: STypeSImmediateInstruction) -> (r: u32) {
        proof {
            use_type_invariant(&value.opcode);
            use_type_invariant(&value.funct3);
            use_type_invariant(&value.rs1);
            use_type_invariant(&value.rs2);
            lemma_fields_into_zero(
                value.opcode@ as u32,
                0,
                value.funct3@ as u32,
                value.rs1@ as u32,
                value.rs2@ as u32,
                0,
            );
        }
        0u32.with_opcode(value.opcode)
            .with_funct3(value.funct3)
            .with_rs1(value.rs1)
            .with_rs2(value.rs2)
            .with_immediate(value.imm, &RISCVImmediate::S)
    }
}

/// The fields of an S-type instruction word, with its immediate in the B encoding.
#[derive(PartialEq, Eq, Debug)]
pub struct STypeBImmediateInstruction {
    pub opcode: U7,
    pub funct3: U3,
    pub rs1: U5,
    pub rs2: U5,
    pub imm: u32,
}

impl STypeBImmediateInstruction {
    /// Every field is in the range of its type.
    pub open spec fn wf(self) -> bool {
        &&& self.opcode.wf()
        &&& self.funct3.wf()
        &&& self.rs1.wf()
        &&& self.rs2.wf()
    }

    /// The fields and the immediate that `w` holds.
    pub open spec fn of_word(w: u32) -> STypeBImmediateInstruction {
        STypeBImmediateInstruction {
            opcode: U7::spec_new(opcode_of(w) as u8),
            funct3: U3::spec_new(funct3_of(w) as u8),
            rs1: U5::spec_new(rs1_of(w) as u8),
            rs2: U5::spec_new(rs2_of(w) as u8),
            imm: immediate_of(w, RISCVImmediate::B),
        }
    }

    /// The word that holds these fields and as much of the immediate as the
    /// encoding has room for.
    pub open spec fn to_word(self) -> u32 {
        b_type_word(
            self.opcode@ as u32,
            self.funct3@ as u32,
            self.rs1@ as u32,
            self.rs2@ as u32,
            self.imm,
        )
    }

    /// Taking apart the word of these fields and the immediate gives them
    /// back, where the fields are in range and the encoding can hold the
    /// immediate.
    pub proof fn lemma_of_word_to_word(self)
        requires
            self.wf(),
            representable(self.imm, RISCVImmediate::B),
        ensures
            Self::of_word(self.to_word()) == self,
    {
        lemma_b_type_fields(
            self.opcode@ as u32,
            self.funct3@ as u32,
            self.rs1@ as u32,
            self.rs2@ as u32,
            self.imm,
        );
        U7::lemma_spec_new_of_view(self.opcode);
        U3::lemma_spec_new_of_view(self.funct3);
        U5::lemma_spec_new_of_view(self.rs1);
        U5::lemma_spec_new_of_view(self.rs2);
    }

    /// What a word is taken apart into is in range, and its word is that word.
    pub proof fn lemma_to_word_of_word(w: u32)
        ensures
            Self::of_word(w).wf(),
            Self::of_word(w).to_word() == w,
    {
        lemma_word_of_its_fields(w);
        U7::lemma_spec_new(opcode_of(w) as u8);
        U3::lemma_spec_new(funct3_of(w) as u8);
        U5::lemma_spec_new(rs1_of(w) as u8);
        U5::lemma_spec_new(rs2_of(w) as u8);
    }
}

impl FromSpecImpl<u32> for STypeBImmediateInstruction {
    open spec fn obeys_from_spec() -> bool {
        true
    }

    open spec fn from_spec(value: u32) -> STypeBImmediateInstruction {
        STypeBImmediateInstruction::of_word(value)
    }
}

impl From<u32> for STypeBImmediateInstruction {
    fn from(value: u32) -> (r: STypeBImmediateInstruction) {
        let r = STypeBImmediateInstruction {
            opcode: value.opcode(),
            funct3: value.funct3(),
            rs1: value.rs1(),
            rs2: value.rs2(),
            imm: value.immediate(&RISCVImmediate::B),
        };
        proof {
            U7::lemma_spec_new_of_view(r.opcode);
            U3::lemma_spec_new_of_view(r.funct3);
            U5::lemma_spec_new_of_view(r.rs1);
            U5::lemma_spec_new_of_view(r.rs2);
        }
        r
    }
}

impl FromSpecImpl<STypeBImmediateInstruction> for u32 {
    open spec fn obeys_from_spec() -> bool {
        true
    }

    open spec fn from_spec(value: STypeBImmediateInstruction) -> u32 {
        value.to_word()
    }
}

impl From<STypeBImmediateInstruction> for u32 {
    fn from(value: STypeBImmediateInstruction) -> (r: u32) {
        proof {
            use_type_invariant(&value.opcode);
            use_type_invariant(&value.funct3);
            use_type_invariant(&value.rs1);
            use_type_invariant(&value.rs2);
            lemma_fields_into_zero(
                value.opcode@ as u32,
                0,
                value.funct3@ as u32,
                value.rs1@ as u32,
                value.rs2@ as u32,
                0,
            );
        }
        0u32.with_opcode(value.opcode)
            .with_funct3(value.funct3)
            .with_rs1(value.rs1)
            .with_rs2(value.rs2)
            .with_immediate(value.imm, &RISCVImmediate::B)
    }
}

/// The fields of an I-type instruction word, with its immediate in the I encoding.
#[derive(PartialEq, Eq, Debug)]
pub struct ITypeIImmediateInstruction {
    pub opcode: U7,
    pub rd: U5,
    pub funct3: U3,
    pub rs1: U5,
    pub imm: u32,
}

impl ITypeIImmediateInstruction {
    /// Every field is in the range of its type.
    pub open spec fn wf(self) -> bool {
        &&& self.opcode.wf()
        &&& self.rd.wf()
        &&& self.funct3.wf()
        &&& self.rs1.wf()
    }

    /// The fields and the immediate that `w` holds.
    pub open spec fn of_word(w: u32) -> ITypeIImmediateInstruction {
        ITypeIImmediateInstruction {
            opcode: U7::spec_new(opcode_of(w) as u8),
            rd: U5::spec_new(rd_of(w) as u8),
            funct3: U3::spec_new(funct3_of(w) as u8),
            rs1: U5::spec_new(rs1_of(w) as u8),
            imm: immediate_of(w, RISCVImmediate::I),
        }
    }

    /// The word that holds these fields and as much of the immediate as the
    /// encoding has room for.
    pub open spec fn to_word(self) -> u32 {
        i_type_word(
            self.opcode@ as u32,
            self.rd@ as u32,
            self.funct3@ as u32,
            self.rs1@ as u32,
            self.imm,
        )
    }

    /// Taking apart the word of these fields and the immediate gives them
    /// back, where the fields are in range and the encoding can hold the
    /// immediate.
    pub proof fn lemma_of_word_to_word(self)
        requires
            self.wf(),
            representable(self.imm, RISCVImmediate::I),
        ensures
            Self::of_word(self.to_word()) == self,
    {
        lemma_i_type_fields(
            self.opcode@ as u32,
            self.rd@ as u32,
            self.funct3@ as u32,
            self.rs1@ as u32,
            self.imm,
        );
        U7::lemma_spec_new_of_view(self.opcode);
        U5::lemma_spec_new_of_view(self.rd);
        U3::lemma_spec_new_of_view(self.funct3);
        U5::lemma_spec_new_of_view(self.rs1);
    }

    /// What a word is taken apart into is in range, and its word is that word.
    pub proof fn lemma_to_word_of_word(w: u32)
        ensures
            Self::of_word(w).wf(),
            Self::of_word(w).to_word() == w,
    {
        lemma_word_of_its_fields(w);
        U7::lemma_spec_new(opcode_of(w) as u8);
        U5::lemma_spec_new(rd_of(w) as u8);
        U3::lemma_spec_new(funct3_of(w) as u8);
        U5::lemma_spec_new(rs1_of(w) as u8);
    }
}

impl FromSpecImpl<u32> for ITypeIImmediateInstruction {
    open spec fn obeys_from_spec() -> bool {
        true
    }

    open spec fn from_spec(value: u32) -> ITypeIImmediateInstruction {
        ITypeIImmediateInstruction::of_word(value)
    }
}

impl From<u32> for ITypeIImmediateInstruction {
    fn from(value: u32) -> (r: ITypeIImmediateInstruction) {
        let r = ITypeIImmediateInstruction {
            opcode: value.opcode(),
            rd: value.rd(),
            funct3: value.funct3(),
            rs1: value.rs1(),
            imm: value.immediate(&RISCVImmediate::I),
        };
        proof {
            U7::lemma_spec_new_of_view(r.opcode);
            U5::lemma_spec_new_of_view(r.rd);
            U3::lemma_spec_new_of_view(r.funct3);
            U5::lemma_spec_new_of_view(r.rs1);
        }
        r
    }
}

impl FromSpecImpl<ITypeIImmediateInstruction> for u32 {
    open spec fn obeys_from_spec() -> bool {
        true
    }

    open spec fn from_spec(value: ITypeIImmediateInstruction) -> u32 {
        value.to_word()
    }
}

impl From<ITypeIImmediateInstruction> for u32 {
    fn from(value: ITypeIImmediateInstruction) -> (r: u32) {
        proof {
            use_type_invariant(&value.opcode);
            use_type_invariant(&value.rd);
            use_type_invariant(&value.funct3);
            use_type_invariant(&value.rs1);
            lemma_fields_into_zero(
                value.opcode@ as u32,
                value.rd@ as u32,
                value.funct3@ as u32,
                value.rs1@ as u32,
                0,
                0,
            );
        }
        0u32.with_opcode(value.opcode)
            .with_rd(value.rd)
            .with_funct3(value.funct3)
            .with_rs1(value.rs1)
            .with_immediate(value.imm, &RISCVImmediate::I)
    }
}

/// The fields of a U-type instruction word, with its immediate in the J encoding.
#[derive(PartialEq, Eq, Debug)]
pub struct UTypeJImmediateInstruction {
    pub opcode: U7,
    pub rd: U5,
    pub imm: u32,
}

impl UTypeJImmediateInstruction {
    /// Every field is in the range of its type.
    pub open spec fn wf(self) -> bool {
        &&& self.opcode.wf()
        &&& self.rd.wf()
    }

    /// The fields and the immediate that `w` holds.
    pub open spec fn of_word(w: u32) -> UTypeJImmediateInstruction {
        UTypeJImmediateInstruction {
            opcode: U7::spec_new(opcode_of(w) as u8),
            rd: U5::spec_new(rd_of(w) as u8),
            imm: immediate_of(w, RISCVImmediate::J),
        }
    }

    /// The word that holds these fields and as much of the immediate as the
    /// encoding has room for.
    pub open spec fn to_word(self) -> u32 {
        j_type_word(
            self.opcode@ as u32,
            self.rd@ as u32,
            self.imm,
        )
    }

    /// Taking apart the word of these fields and the immediate gives them
    /// back, where the fields are in range and the encoding can hold the
    /// immediate.
    pub proof fn lemma_of_word_to_word(self)
        requires
            self.wf(),
            representable(self.imm, RISCVImmediate::J),
        ensures
            Self::of_word(self.to_word()) == self,
    {
        lemma_j_type_fields(
            self.opcode@ as u32,
            self.rd@ as u32,
            self.imm,
        );
        U7::lemma_spec_new_of_view(self.opcode);
        U5::lemma_spec_new_of_view(self.rd);
    }

    /// What a word is taken apart into is in range, and its word is that word.
    pub proof fn lemma_to_word_of_word(w: u32)
        ensures
            Self::of_word(w).wf(),
            Self::of_word(w).to_word() == w,
    {
        lemma_word_of_its_fields(w);
        U7::lemma_spec_new(opcode_of(w) as u8);
        U5::lemma_spec_new(rd_of(w) as u8);
    }
}

impl FromSpecImpl<u32> for UTypeJImmediateInstruction {
    open spec fn obeys_from_spec() -> bool {
        true
    }

    open spec fn from_spec(value: u32) -> UTypeJImmediateInstruction {
        UTypeJImmediateInstruction::of_word(value)
    }
}

impl From<u32> for UTypeJImmediateInstruction {
    fn from(value: u32) -> (r: UTypeJImmediateInstruction) {
        let r = UTypeJImmediateInstruction {
            opcode: value.opcode(),
            rd: value.rd(),
            imm: value.immediate(&RISCVImmediate::J),
        };
        proof {
            U7::lemma_spec_new_of_view(r.opcode);
            U5::lemma_spec_new_of_view(r.rd);
        }
        r
    }
}

impl FromSpecImpl<UTypeJImmediateInstruction> for u32 {
    open spec fn obeys_from_spec() -> bool {
        true
    }

    open spec fn from_spec(value: UTypeJImmediateInstruction) -> u32 {
        value.to_word()
    }
}

impl From<UTypeJImmediateInstruction> for u32 {
    fn from(value: UTypeJImmediateInstruction) -> (r: u32) {
        proof {
            use_type_invariant(&value.opcode);
            use_type_invariant(&value.rd);
            lemma_fields_into_zero(
                value.opcode@ as u32,
                value.rd@ as u32,
                0,
                0,
                0,
                0,
            );
        }
        0u32.with_opcode(value.opcode)
            .with_rd(value.rd)
            .with_immediate(value.imm, &RISCVImmediate::J)
    }
}

/// Writing fields one after the other into the zero word gives the word that
/// holds them side by side. A field that is left out is zero.
proof fn lemma_fields_into_zero(opcode: u32, rd: u32, funct3: u32, rs1: u32, rs2: u32, funct7: u32)
    by (bit_vector)
    requires
        opcode <= 127,
        rd <= 31,
        funct3 <= 7,
        rs1 <= 31,
        rs2 <= 31,
        funct7 <= 127,
    ensures
        with_rs2_of(
            with_rs1_of(
                with_funct7_of(
                    with_funct3_of(with_rd_of(with_opcode_of(0, opcode), rd), funct3),
                    funct7,
                ),
                rs1,
            ),
            rs2,
        ) == r_type_word(opcode, rd, funct3, rs1, rs2, funct7),
        with_rs2_of(with_rs1_of(with_funct3_of(with_opcode_of(0, opcode), funct3), rs1), rs2)
            == opcode | (funct3 << 12) | (rs1 << 15) | (rs2 << 20),
        with_rs1_of(with_funct3_of(with_rd_of(with_opcode_of(0, opcode), rd), funct3), rs1)
            == opcode | (rd << 7) | (funct3 << 12) | (rs1 << 15),
        with_rd_of(with_opcode_of(0, opcode), rd) == opcode | (rd << 7),
{
}

} // verus!
