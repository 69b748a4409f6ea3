//! The instructions of the machine and their words.

use crate::narrow::{U3, U5, U7};
use crate::riscv_instruction::{
    ITypeIImmediateInstruction, RISCVImmediate, RISCVInstruction, RTypeInstructionFormat,
    STypeBImmediateInstruction, STypeSImmediateInstruction, UTypeJImmediateInstruction,
};
use crate::word::{
    b_type_word, funct3_of, funct7_of, i_type_word, immediate_of, j_type_word,
    lemma_b_type_fields, lemma_i_type_fields, lemma_immediate_of_word, lemma_j_type_fields,
    lemma_r_type_fields, lemma_s_type_fields, lemma_word_of_its_fields, opcode_of, r_type_word,
    rd_of, representable, rs1_of, rs2_of, s_type_word,
};
use vstd::prelude::*;
use vstd::std_specs::convert::{FromSpecImpl, TryFromSpecImpl};

verus! {

/// The opcode of the register-to-register arithmetic instructions.
pub const OPCODE_OP: u8 = 0b0110011;

/// The opcode of the load instructions.
pub const OPCODE_LOAD: u8 = 0b0000011;

/// The opcode of the store instructions.
pub const OPCODE_STORE: u8 = 0b0100011;

/// The opcode of `JAL`.
pub const OPCODE_JAL: u8 = 0b1101111;

/// The opcode of `JALR`.
pub const OPCODE_JALR: u8 = 0b1100111;

/// The opcode of the conditional branches.
pub const OPCODE_BRANCH: u8 = 0b1100011;

/// `funct3` of `ADD` and `SUB`.
pub const FUNCT3_ADD_SUB: u8 = 0b000;

/// `funct7` of `ADD`.
pub const FUNCT7_ADD: u8 = 0b0000000;

/// `funct7` of `SUB`.
pub const FUNCT7_SUB: u8 = 0b0100000;

/// `funct3` of the loads and stores of a word.
pub const FUNCT3_WORD: u8 = 0b010;

/// `funct3` of `JALR`.
pub const FUNCT3_JALR: u8 = 0b000;

/// `funct3` of `BEQ`.
pub const FUNCT3_BEQ: u8 = 0b000;

/// `funct3` of `BNE`.
pub const FUNCT3_BNE: u8 = 0b001;

/// An instruction of the machine, with the operands it needs.
#[derive(PartialEq, Eq, Debug, Clone, Copy)]
pub enum CPUInstruction {
    ADD { rd: U5, rs1: U5, rs2: U5 },
    SUB { rd: U5, rs1: U5, rs2: U5 },
    LW { rd: U5, rs1: U5, imm: u32 },
    SW { rs1: U5, rs2: U5, imm: u32 },
    JAL { rd: U5, imm: u32 },
    JALR { rd: U5, rs1: U5, imm: u32 },
    BEQ { rs1: U5, rs2: U5, imm: u32 },
    BNE { rs1: U5, rs2: U5, imm: u32 },
}

/// Why a word is no instruction.
#[derive(PartialEq, Eq, Debug, Clone, Copy)]
pub enum DecodeError {
    /// The opcode, `funct3` and `funct7` of the word name no instruction.
    InvalidInstruction,
}

impl CPUInstruction {
    /// Every register index is in range.
    pub open spec fn wf(self) -> bool {
        match self {
            CPUInstruction::ADD { rd, rs1, rs2 } | CPUInstruction::SUB { rd, rs1, rs2 } => rd.wf()
                && rs1.wf() && rs2.wf(),
            CPUInstruction::LW { rd, rs1, .. } | CPUInstruction::JALR { rd, rs1, .. } => rd.wf()
                && rs1.wf(),
            CPUInstruction::SW { rs1, rs2, .. }
            | CPUInstruction::BEQ { rs1, rs2, .. }
            | CPUInstruction::BNE { rs1, rs2, .. } => rs1.wf() && rs2.wf(),
            CPUInstruction::JAL { rd, .. } => rd.wf(),
        }
    }

    /// The immediate, where there is one, is representable in the encoding of
    /// the instruction, so that the word holds all of it.
    pub open spec fn encodable(self) -> bool {
        match self {
            CPUInstruction::ADD { .. } | CPUInstruction::SUB { .. } => true,
            CPUInstruction::LW { imm, .. } | CPUInstruction::JALR { imm, .. } => representable(
                imm,
                RISCVImmediate::I,
            ),
            CPUInstruction::SW { imm, .. } => representable(imm, RISCVImmediate::S),
            CPUInstruction::JAL { imm, .. } => representable(imm, RISCVImmediate::J),
            CPUInstruction::BEQ { imm, .. } | CPUInstruction::BNE { imm, .. } => representable(
                imm,
                RISCVImmediate::B,
            ),
        }
    }

    /// The word of the instruction.
    pub open spec fn encode_spec(self) -> u32 {
        match self {
            CPUInstruction::ADD { rd, rs1, rs2 } => r_type_word(
                OPCODE_OP as u32,
                rd@ as u32,
                FUNCT3_ADD_SUB as u32,
                rs1@ as u32,
                rs2@ as u32,
                FUNCT7_ADD as u32,
            ),
            CPUInstruction::SUB { rd, rs1, rs2 } => r_type_word(
                OPCODE_OP as u32,
                rd@ as u32,
                FUNCT3_ADD_SUB as u32,
                rs1@ as u32,
                rs2@ as u32,
                FUNCT7_SUB as u32,
            ),
            CPUInstruction::LW { rd, rs1, imm } => i_type_word(
                OPCODE_LOAD as u32,
                rd@ as u32,
                FUNCT3_WORD as u32,
                rs1@ as u32,
                imm,
            ),
            CPUInstruction::SW { rs1, rs2, imm } => s_type_word(
                OPCODE_STORE as u32,
                FUNCT3_WORD as u32,
                rs1@ as u32,
                rs2@ as u32,
                imm,
            ),
            CPUInstruction::JAL { rd, imm } => j_type_word(OPCODE_JAL as u32, rd@ as u32, imm),
            CPUInstruction::JALR { rd, rs1, imm } => i_type_word(
                OPCODE_JALR as u32,
                rd@ as u32,
                FUNCT3_JALR as u32,
                rs1@ as u32,
                imm,
            ),
            CPUInstruction::BEQ { rs1, rs2, imm } => b_type_word(
                OPCODE_BRANCH as u32,
                FUNCT3_BEQ as u32,
                rs1@ as u32,
                rs2@ as u32,
                imm,
            ),
            CPUInstruction::BNE { rs1, rs2, imm } => b_type_word(
                OPCODE_BRANCH as u32,
                FUNCT3_BNE as u32,
                rs1@ as u32,
                rs2@ as u32,
                imm,
            ),
        }
    }

    /// The instruction that `w` holds, or the error if its opcode, `funct3`
    /// and `funct7` name none.
    pub open spec fn decode_spec(w: u32) -> Result<CPUInstruction, DecodeError> {
        let rd = U5::spec_new(rd_of(w) as u8);
        let rs1 = U5::spec_new(rs1_of(w) as u8);
        let rs2 = U5::spec_new(rs2_of(w) as u8);
        if opcode_of(w) == OPCODE_OP && funct3_of(w) == FUNCT3_ADD_SUB && funct7_of(w)
            == FUNCT7_ADD {
            Ok(CPUInstruction::ADD { rd, rs1, rs2 })
        } else if opcode_of(w) == OPCODE_OP && funct3_of(w) == FUNCT3_ADD_SUB && funct7_of(w)
            == FUNCT7_SUB {
            Ok(CPUInstruction::SUB { rd, rs1, rs2 })
        } else if opcode_of(w) == OPCODE_LOAD && funct3_of(w) == FUNCT3_WORD {
            Ok(CPUInstruction::LW { rd, rs1, imm: immediate_of(w, RISCVImmediate::I) })
        } else if opcode_of(w) == OPCODE_STORE && funct3_of(w) == FUNCT3_WORD {
            Ok(CPUInstruction::SW { rs1, rs2, imm: immediate_of(w, RISCVImmediate::S) })
        } else if opcode_of(w) == OPCODE_JAL {
            Ok(CPUInstruction::JAL { rd, imm: immediate_of(w, RISCVImmediate::J) })
        } else if opcode_of(w) == OPCODE_JALR && funct3_of(w) == FUNCT3_JALR {
            Ok(CPUInstruction::JALR { rd, rs1, imm: immediate_of(w, RISCVImmediate::I) })
        } else if opcode_of(w) == OPCODE_BRANCH && funct3_of(w) == FUNCT3_BEQ {
            Ok(CPUInstruction::BEQ { rs1, rs2, imm: immediate_of(w, RISCVImmediate::B) })
        } else if opcode_of(w) == OPCODE_BRANCH && funct3_of(w) == FUNCT3_BNE {
            Ok(CPUInstruction::BNE { rs1, rs2, imm: immediate_of(w, RISCVImmediate::B) })
        } else {
            Err(DecodeError::InvalidInstruction)
        }
    }

    /// Encodes the instruction as a word. An immediate that its encoding
    /// cannot represent loses the bits the encoding has no room for.
    pub fn encode(self) -> (r: u32)
        ensures
            r == self.encode_spec(),
    {
        match self {
            CPUInstruction::ADD { rd, rs1, rs2 } => u32::from(
                RTypeInstructionFormat {
                    opcode: U7::new(OPCODE_OP),
                    rd,
                    funct3: U3::new(FUNCT3_ADD_SUB),
                    rs1,
                    funct7: U7::new(FUNCT7_ADD),
                    rs2,
                },
            ),
            CPUInstruction::SUB { rd, rs1, rs2 } => u32::from(
                RTypeInstructionFormat {
                    opcode: U7::new(OPCODE_OP),
                    rd,
                    funct3: U3::new(FUNCT3_ADD_SUB),
                    rs1,
                    funct7: U7::new(FUNCT7_SUB),
                    rs2,
                },
            ),
            CPUInstruction::LW { rd, rs1, imm } => u32::from(
                ITypeIImmediateInstruction {
                    opcode: U7::new(OPCODE_LOAD),
                    rd,
                    funct3: U3::new(FUNCT3_WORD),
                    rs1,
                    imm,
                },
            ),
            CPUInstruction::SW { rs1, rs2, imm } => u32::from(
                STypeSImmediateInstruction {
                    opcode: U7::new(OPCODE_STORE),
                    funct3: U3::new(FUNCT3_WORD),
                    rs1,
                    rs2,
                    imm,
                },
            ),
            CPUInstruction::JAL { rd, imm } => u32::from(
                UTypeJImmediateInstruction { opcode: U7::new(OPCODE_JAL), rd, imm },
            ),
            CPUInstruction::JALR { rd, rs1, imm } => u32::from(
                ITypeIImmediateInstruction {
                    opcode: U7::new(OPCODE_JALR),
                    rd,
                    funct3: U3::new(FUNCT3_JALR),
                    rs1,
                    imm,
                },
            ),
            CPUInstruction::BEQ { rs1, rs2, imm } => u32::from(
                STypeBImmediateInstruction {
                    opcode: U7::new(OPCODE_BRANCH),
                    funct3: U3::new(FUNCT3_BEQ),
                    rs1,
                    rs2,
                    imm,
                },
            ),
            CPUInstruction::BNE { rs1, rs2, imm } => u32::from(
                STypeBImmediateInstruction {
                    opcode: U7::new(OPCODE_BRANCH),
                    funct3: U3::new(FUNCT3_BNE),
                    rs1,
                    rs2,
                    imm,
                },
            ),
        }
    }

    /// Decodes a word. The opcode selects the format, and within a format
    /// `funct3` and `funct7` select the instruction.
    pub fn decode(value: u32) -> (r: Result<CPUInstruction, DecodeError>)
        ensures
            r == Self::decode_spec(value),
    {
        let opcode = value.opcode().value();
        proof {
            lemma_word_of_its_fields(value);
            U3::lemma_spec_new(funct3_of(value) as u8);
            U7::lemma_spec_new(funct7_of(value) as u8);
        }
        if opcode == OPCODE_OP {
            let parsed = RTypeInstructionFormat::from(value);
            if parsed.funct3.value() == FUNCT3_ADD_SUB {
                if parsed.funct7.value() == FUNCT7_ADD {
                    return Ok(
                        CPUInstruction::ADD { rd: parsed.rd, rs1: parsed.rs1, rs2: parsed.rs2 },
                    );
                }
                if parsed.funct7.value() == FUNCT7_SUB {
                    return Ok(
                        CPUInstruction::SUB { rd: parsed.rd, rs1: parsed.rs1, rs2: parsed.rs2 },
                    );
                }
            }
            Err(DecodeError::InvalidInstruction)
        } else if opcode == OPCODE_STORE {
            let parsed = STypeSImmediateInstruction::from(value);
            if parsed.funct3.value() != FUNCT3_WORD {
                return Err(DecodeError::InvalidInstruction);
            }
            Ok(CPUInstruction::SW { rs1: parsed.rs1, rs2: parsed.rs2, imm: parsed.imm })
        } else if opcode == OPCODE_LOAD {
            let parsed = ITypeIImmediateInstruction::from(value);
            if parsed.funct3.value() != FUNCT3_WORD {
                return Err(DecodeError::InvalidInstruction);
            }
            Ok(CPUInstruction::LW { rd: parsed.rd, rs1: parsed.rs1, imm: parsed.imm })
        } else if opcode == OPCODE_JAL {
            let parsed = UTypeJImmediateInstruction::from(value);
            Ok(CPUInstruction::JAL { rd: parsed.rd, imm: parsed.imm })
        } else if opcode == OPCODE_JALR {
            let parsed = ITypeIImmediateInstruction::from(value);
            if parsed.funct3.value() != FUNCT3_JALR {
                return Err(DecodeError::InvalidInstruction);
            }
            Ok(CPUInstruction::JALR { rd: parsed.rd, rs1: parsed.rs1, imm: parsed.imm })
        } else if opcode == OPCODE_BRANCH {
            let parsed = STypeBImmediateInstruction::from(value);
            if parsed.funct3.value() == FUNCT3_BEQ {
                return Ok(
                    CPUInstruction::BEQ { rs1: parsed.rs1, rs2: parsed.rs2, imm: parsed.imm },
                );
            }
            if parsed.funct3.value() == FUNCT3_BNE {
                return Ok(
                    CPUInstruction::BNE { rs1: parsed.rs1, rs2: parsed.rs2, imm: parsed.imm },
                );
            }
            Err(DecodeError::InvalidInstruction)
        } else {
            Err(DecodeError::InvalidInstruction)
        }
    }

    /// Decoding the word of an instruction gives the instruction back, where
    /// its register indices are in range and its immediate is representable.
    pub proof fn lemma_decode_encode(instruction: CPUInstruction)
        requires
            instruction.wf(),
            instruction.encodable(),
        ensures
            Self::decode_spec(instruction.encode_spec()) == Ok::<CPUInstruction, DecodeError>(
                instruction,
            ),
    {
        match instruction {
            CPUInstruction::ADD { rd, rs1, rs2 } => {
                lemma_r_type_fields(
                    OPCODE_OP as u32,
                    rd@ as u32,
                    FUNCT3_ADD_SUB as u32,
                    rs1@ as u32,
                    rs2@ as u32,
                    FUNCT7_ADD as u32,
                );
                U5::lemma_spec_new_of_view(rd);
                U5::lemma_spec_new_of_view(rs1);
                U5::lemma_spec_new_of_view(rs2);
            },
            CPUInstruction::SUB { rd, rs1, rs2 } => {
                lemma_r_type_fields(
                    OPCODE_OP as u32,
                    rd@ as u32,
                    FUNCT3_ADD_SUB as u32,
                    rs1@ as u32,
                    rs2@ as u32,
                    FUNCT7_SUB as u32,
                );
                U5::lemma_spec_new_of_view(rd);
                U5::lemma_spec_new_of_view(rs1);
                U5::lemma_spec_new_of_view(rs2);
            },
            CPUInstruction::LW { rd, rs1, imm } => {
                lemma_i_type_fields(
                    OPCODE_LOAD as u32,
                    rd@ as u32,
                    FUNCT3_WORD as u32,
                    rs1@ as u32,
                    imm,
                );
                U5::lemma_spec_new_of_view(rd);
                U5::lemma_spec_new_of_view(rs1);
            },
            CPUInstruction::SW { rs1, rs2, imm } => {
                lemma_s_type_fields(
                    OPCODE_STORE as u32,
                    FUNCT3_WORD as u32,
                    rs1@ as u32,
                    rs2@ as u32,
                    imm,
                );
                U5::lemma_spec_new_of_view(rs1);
                U5::lemma_spec_new_of_view(rs2);
            },
            CPUInstruction::JAL { rd, imm } => {
                lemma_j_type_fields(OPCODE_JAL as u32, rd@ as u32, imm);
                U5::lemma_spec_new_of_view(rd);
            },
            CPUInstruction::JALR { rd, rs1, imm } => {
                lemma_i_type_fields(
                    OPCODE_JALR as u32,
                    rd@ as u32,
                    FUNCT3_JALR as u32,
                    rs1@ as u32,
                    imm,
                );
                U5::lemma_spec_new_of_view(rd);
                U5::lemma_spec_new_of_view(rs1);
            },
            CPUInstruction::BEQ { rs1, rs2, imm } => {
                lemma_b_type_fields(
                    OPCODE_BRANCH as u32,
                    FUNCT3_BEQ as u32,
                    rs1@ as u32,
                    rs2@ as u32,
                    imm,
                );
                U5::lemma_spec_new_of_view(rs1);
                U5::lemma_spec_new_of_view(rs2);
            },
            CPUInstruction::BNE { rs1, rs2, imm } => {
                lemma_b_type_fields(
                    OPCODE_BRANCH as u32,
                    FUNCT3_BNE as u32,
                    rs1@ as u32,
                    rs2@ as u32,
                    imm,
                );
                U5::lemma_spec_new_of_view(rs1);
                U5::lemma_spec_new_of_view(rs2);
            },
        }
    }

    /// The instruction that a word decodes to has its register indices in
    /// range and its immediate representable, and its word is that word.
    pub proof fn lemma_encode_decode(w: u32)
        ensures
            Self::decode_spec(w) matches Ok(instruction) ==> instruction.wf()
                && instruction.encodable() && instruction.encode_spec() == w,
    {
        lemma_word_of_its_fields(w);
        lemma_immediate_of_word(w, RISCVImmediate::I);
        lemma_immediate_of_word(w, RISCVImmediate::S);
        lemma_immediate_of_word(w, RISCVImmediate::B);
        lemma_immediate_of_word(w, RISCVImmediate::J);
        U5::lemma_spec_new(rd_of(w) as u8);
        U5::lemma_spec_new(rs1_of(w) as u8);
        U5::lemma_spec_new(rs2_of(w) as u8);
    }

    /// A word whose opcode is none of the six that the machine knows holds no
    /// instruction.
    pub proof fn lemma_unknown_opcode(w: u32)
        requires
            opcode_of(w) != OPCODE_OP,
            opcode_of(w) != OPCODE_LOAD,
            opcode_of(w) != OPCODE_STORE,
            opcode_of(w) != OPCODE_JAL,
            opcode_of(w) != OPCODE_JALR,
            opcode_of(w) != OPCODE_BRANCH,
        ensures
            Self::decode_spec(w) == Err::<CPUInstruction, DecodeError>(
                DecodeError::InvalidInstruction,
            ),
    {
    }
}

impl FromSpecImpl<CPUInstruction> for u32 {
    open spec fn obeys_from_spec() -> bool {
        true
    }

    open spec fn from_spec(instruction: CPUInstruction) -> u32 {
        instruction.encode_spec()
    }
}

impl From<CPUInstruction> for u32 {
    fn from(instruction: CPUInstruction) -> (r: u32) {
        instruction.encode()
    }
}

impl TryFromSpecImpl<u32> for CPUInstruction {
    open spec fn obeys_try_from_spec() -> bool {
        true
    }

    open spec fn try_from_spec(value: u32) -> Result<CPUInstruction, DecodeError> {
        CPUInstruction::decode_spec(value)
    }
}

impl TryFrom<u32> for CPUInstruction {
    type Error = DecodeError;

    fn try_from(value: u32) -> (r: Result<CPUInstruction, DecodeError>) {
        CPUInstruction::decode(value)
    }
}

} // verus!
