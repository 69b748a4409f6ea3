//! Instruction words and their fields.

pub use crate::format::{
    ITypeIImmediateInstruction, RTypeInstructionFormat, STypeBImmediateInstruction,
    STypeSImmediateInstruction, UTypeJImmediateInstruction,
};

use crate::narrow::{U1, U3, U4, U5, U6, U7};
use crate::word::{
    funct3_of, funct7_of, im_12_19_of, im_20_of, im_21_24_of, im_25_30_of, im_31_of, im_7_of,
    im_8_11_of, immediate_of, lemma_word_of_its_fields, opcode_of, rd_of, rs1_of, rs2_of,
    with_funct3_of, with_funct7_of, with_im_12_19_of, with_im_20_of, with_im_21_24_of,
    with_im_25_30_of, with_im_31_of, with_im_7_of, with_im_8_11_of, with_immediate_of,
    with_opcode_of, with_rd_of, with_rs1_of, with_rs2_of,
};
use vstd::prelude::*;

verus! {

/// The kinds of immediate encoding.
#[derive(Clone, Copy, Debug, PartialEq, Eq)]
pub enum RISCVImmediate {
    I,
    S,
    B,
    U,
    J,
}

/// A value that stands for a 32-bit instruction word.
///
/// An implementation gives the six fields of the word. The groups of immediate
/// bits and the immediates themselves are built from the fields here, once,
/// for every implementation.
pub trait RISCVInstruction: Sized {
    /// The word that `self` stands for.
    spec fn word(&self) -> u32;

    /// Bits 0 to 6 of the word.
    fn opcode(&self) -> (r: U7)
        ensures
            r@ == opcode_of(self.word()),
    ;

    /// The word with bits 0 to 6 replaced by `opcode`.
    fn with_opcode(&self, opcode: U7) -> (r: Self)
        ensures
            r.word() == with_opcode_of(self.word(), opcode@ as u32),
    ;

    /// Bits 7 to 11 of the word.
    fn rd(&self) -> (r: U5)
        ensures
            r@ == rd_of(self.word()),
    ;

    /// The word with bits 7 to 11 replaced by `rd`.
    fn with_rd(&self, rd: U5) -> (r: Self)
        ensures
            r.word() == with_rd_of(self.word(), rd@ as u32),
    ;

    /// Bits 12 to 14 of the word.
    fn funct3(&self) -> (r: U3)
        ensures
            r@ == funct3_of(self.word()),
    ;

    /// The word with bits 12 to 14 replaced by `funct3`.
    fn with_funct3(&self, funct3: U3) -> (r: Self)
        ensures
            r.word() == with_funct3_of(self.word(), funct3@ as u32),
    ;

    /// Bits 15 to 19 of the word.
    fn rs1(&self) -> (r: U5)
        ensures
            r@ == rs1_of(self.word()),
    ;

    /// The word with bits 15 to 19 replaced by `rs1`.
    fn with_rs1(&self, rs1: U5) -> (r: Self)
        ensures
            r.word() == with_rs1_of(self.word(), rs1@ as u32),
    ;

    /// Bits 20 to 24 of the word.
    fn rs2(&self) -> (r: U5)
        ensures
            r@ == rs2_of(self.word()),
    ;

    /// The word with bits 20 to 24 replaced by `rs2`.
    fn with_rs2(&self, rs2: U5) -> (r: Self)
        ensures
            r.word() == with_rs2_of(self.word(), rs2@ as u32),
    ;

    /// Bits 25 to 31 of the word.
    fn funct7(&self) -> (r: U7)
        ensures
            r@ == funct7_of(self.word()),
    ;

    /// The word with bits 25 to 31 replaced by `funct7`.
    fn with_funct7(&self, funct7: U7) -> (r: Self)
        ensures
            r.word() == with_funct7_of(self.word(), funct7@ as u32),
    ;

    /// Bit 7 of the word: the low bit of `rd`.
    fn im_7(&self) -> (r: U1)
        ensures
            r@ == im_7_of(self.word()),
    {
        let rd: u8 = self.rd().value();
        proof {
            lemma_rd_groups(self.word(), rd);
        }
        U1::new(rd & 1)
    }

    /// The word with bit 7 replaced by `im_7`.
    fn with_im_7(&self, im_7: U1) -> (r: Self)
        ensures
            r.word() == with_im_7_of(self.word(), im_7@ as u32),
    {
        let mut rd: u8 = self.rd().value();
        let bit: u8 = im_7.value();
        proof {
            lemma_with_rd_groups(self.word(), rd, bit, 0);
        }
        rd &= !1;
        rd |= bit;
        self.with_rd(U5::new(rd))
    }

    /// Bits 8 to 11 of the word: the upper four bits of `rd`.
    fn im_8_11(&self) -> (r: U4)
        ensures
            r@ == im_8_11_of(self.word()),
    {
        let rd: u8 = self.rd().value();
        proof {
            lemma_rd_groups(self.word(), rd);
        }
        U4::new(rd >> 1)
    }

    /// The word with bits 8 to 11 replaced by `im_8_11`.
    fn with_im_8_11(&self, im_8_11: U4) -> (r: Self)
        ensures
            r.word() == with_im_8_11_of(self.word(), im_8_11@ as u32),
    {
        let mut rd: u8 = self.im_7().value();
        let bits: u8 = im_8_11.value();
        proof {
            lemma_with_rd_groups(self.word(), rd, 0, bits);
        }
        rd |= bits << 1;
        self.with_rd(U5::new(rd))
    }

    /// Bits 12 to 19 of the word: `funct3` below `rs1`.
    fn im_12_19(&self) -> (r: u8)
        ensures
            r == im_12_19_of(self.word()),
    {
        let rs1: u8 = self.rs1().value();
        let funct3: u8 = self.funct3().value();
        proof {
            lemma_im_12_19(self.word(), rs1, funct3);
        }
        (rs1 << 3) | funct3
    }

    /// The word with bits 12 to 19 replaced by `im_12_19`.
    fn with_im_12_19(&self, im_12_19: u8) -> (r: Self)
        ensures
            r.word() == with_im_12_19_of(self.word(), im_12_19 as u32),
    {
        proof {
            lemma_with_im_12_19(self.word(), im_12_19);
        }
        self.with_funct3(U3::new(im_12_19 & 0b111)).with_rs1(U5::new(im_12_19 >> 3))
    }

    /// Bit 20 of the word: the low bit of `rs2`.
    fn im_20(&self) -> (r: U1)
        ensures
            r@ == im_20_of(self.word()),
    {
        let rs2: u8 = self.rs2().value();
        proof {
            lemma_rs2_groups(self.word(), rs2);
        }
        U1::new(rs2 & 1)
    }

    /// The word with bit 20 replaced by `im_20`.
    fn with_im_20(&self, im_20: U1) -> (r: Self)
        ensures
            r.word() == with_im_20_of(self.word(), im_20@ as u32),
    {
        let mut rs2: u8 = self.rs2().value();
        let bit: u8 = im_20.value();
        proof {
            lemma_with_rs2_groups(self.word(), rs2, bit, 0);
        }
        rs2 &= !1;
        rs2 |= bit;
        self.with_rs2(U5::new(rs2))
    }

    /// Bits 21 to 24 of the word: the upper four bits of `rs2`.
    fn im_21_24(&self) -> (r: U4)
        ensures
            r@ == im_21_24_of(self.word()),
    {
        let rs2: u8 = self.rs2().value();
        proof {
            lemma_rs2_groups(self.word(), rs2);
        }
        U4::new(rs2 >> 1)
    }

    /// The word with bits 21 to 24 replaced by `im_21_24`.
    fn with_im_21_24(&self, im_21_24: U4) -> (r: Self)
        ensures
            r.word() == with_im_21_24_of(self.word(), im_21_24@ as u32),
    {
        let mut rs2: u8 = self.im_20().value();
        let bits: u8 = im_21_24.value();
        proof {
            lemma_with_rs2_groups(self.word(), rs2, 0, bits);
        }
        rs2 |= bits << 1;
        self.with_rs2(U5::new(rs2))
    }

    /// Bits 25 to 30 of the word: the lower six bits of `funct7`.
    fn im_25_30(&self) -> (r: U6)
        ensures
            r@ == im_25_30_of(self.word()),
    {
        let funct7: u8 = self.funct7().value();
        proof {
            lemma_funct7_groups(self.word(), funct7);
        }
        U6::new(funct7 & 0b111111)
    }

    /// The word with bits 25 to 30 replaced by `im_25_30`.
    fn with_im_25_30(&self, im_25_30: U6) -> (r: Self)
        ensures
            r.word() == with_im_25_30_of(self.word(), im_25_30@ as u32),
    {
        let top: u8 = self.im_31().value();
        let bits: u8 = im_25_30.value();
        proof {
            lemma_with_funct7_groups(self.word(), top, bits, 0);
        }
        let mut funct7: u8 = top << 6;
        funct7 |= bits;
        self.with_funct7(U7::new(funct7))
    }

    /// Bit 31 of the word: the top bit of `funct7`, and the sign of an immediate.
    fn im_31(&self) -> (r: U1)
        ensures
            r@ == im_31_of(self.word()),
    {
        let funct7: u8 = self.funct7().value();
        proof {
            lemma_funct7_groups(self.word(), funct7);
        }
        U1::new(funct7 >> 6)
    }

    /// The word with bit 31 replaced by `im_31`.
    fn with_im_31(&self, im_31: U1) -> (r: Self)
        ensures
            r.word() == with_im_31_of(self.word(), im_31@ as u32),
    {
        let mut funct7: u8 = self.funct7().value();
        let bit: u8 = im_31.value();
        proof {
            lemma_with_funct7_groups(self.word(), funct7, 0, bit);
        }
        funct7 &= 0b0111111;
        funct7 |= bit << 6;
        self.with_funct7(U7::new(funct7))
    }

    /// The immediate that the word holds under `encoding`.
    fn immediate(&self, encoding: &RISCVImmediate) -> (r: u32)
        ensures
            r == immediate_of(self.word(), *encoding),
    {
        proof {
            lemma_immediate_from_groups(self.word());
        }
        match encoding {
            RISCVImmediate::I => {
                let mut ret: u32 = 0;
                ret |= self.im_20().value() as u32;
                ret |= (self.im_21_24().value() as u32) << 1;
                ret |= (self.im_25_30().value() as u32) << 5;
                ret |= if self.im_31().value() == 1 {
                    !0b11111111111
                } else {
                    0
                };
                ret
            },
            RISCVImmediate::S => {
                let mut ret: u32 = 0;
                ret |= self.im_7().value() as u32;
                ret |= (self.im_8_11().value() as u32) << 1;
                ret |= (self.im_25_30().value() as u32) << 5;
                ret |= if self.im_31().value() == 1 {
                    !0b11111111111
                } else {
                    0
                };
                ret
            },
            RISCVImmediate::B => {
                let mut ret: u32 = 0;
                // the lowest bit is always zero
                ret |= (self.im_8_11().value() as u32) << 1;
                ret |= (self.im_25_30().value() as u32) << 5;
                ret |= (self.im_7().value() as u32) << 11;
                ret |= if self.im_31().value() == 1 {
                    !0b111111111111
                } else {
                    0
                };
                ret
            },
            RISCVImmediate::U => {
                let mut ret: u32 = 0;
                // the lowest 12 bits are always zero
                ret |= (self.im_12_19() as u32) << 12;
                ret |= (self.im_20().value() as u32) << 20;
                ret |= (self.im_21_24().value() as u32) << 21;
                ret |= (self.im_25_30().value() as u32) << 25;
                ret |= (self.im_31().value() as u32) << 31;
                ret
            },
            RISCVImmediate::J => {
                let mut ret: u32 = 0;
                // the lowest bit is always zero
                ret |= (self.im_21_24().value() as u32) << 1;
                ret |= (self.im_25_30().value() as u32) << 5;
                ret |= (self.im_20().value() as u32) << 11;
                ret |= (self.im_12_19() as u32) << 12;
                ret |= if self.im_31().value() == 1 {
                    !0b11111111111111111111
                } else {
                    0
                };
                ret
            },
        }
    }

    /// The word with `immediate` stored under `encoding`. The other bits of
    /// the word stay, and so do the bits of `immediate` that the encoding has
    /// no room for.
    fn with_immediate(&self, immediate: u32, encoding: &RISCVImmediate) -> (r: Self)
        ensures
            r.word() == with_immediate_of(self.word(), immediate, *encoding),
    {
        proof {
            lemma_immediate_into_groups(self.word(), immediate);
        }
        match encoding {
            RISCVImmediate::I => self.with_im_20(U1::new((immediate & 0b1) as u8)).with_im_21_24(
                U4::new((immediate >> 1 & 0b1111) as u8),
            ).with_im_25_30(U6::new((immediate >> 5 & 0b111111) as u8)).with_im_31(
                U1::new((immediate >> 11 & 0b1) as u8),
            ),
            RISCVImmediate::S => self.with_im_7(U1::new((immediate & 0b1) as u8)).with_im_8_11(
                U4::new((immediate >> 1 & 0b1111) as u8),
            ).with_im_25_30(U6::new((immediate >> 5 & 0b111111) as u8)).with_im_31(
                U1::new((immediate >> 11 & 0b1) as u8),
            ),
            RISCVImmediate::B => self.with_im_8_11(
                U4::new((immediate >> 1 & 0b1111) as u8),
            ).with_im_25_30(U6::new((immediate >> 5 & 0b111111) as u8)).with_im_7(
                U1::new((immediate >> 11 & 0b1) as u8),
            ).with_im_31(U1::new((immediate >> 12 & 0b1) as u8)),
            RISCVImmediate::U => self.with_im_12_19(
                (immediate >> 12 & 0b11111111) as u8,
            ).with_im_20(U1::new((immediate >> 20 & 0b1) as u8)).with_im_21_24(
                U4::new((immediate >> 21 & 0b1111) as u8),
            ).with_im_25_30(U6::new((immediate >> 25 & 0b111111) as u8)).with_im_31(
                U1::new((immediate >> 31 & 0b1) as u8),
            ),
            RISCVImmediate::J => self.with_im_21_24(
                U4::new((immediate >> 1 & 0b1111) as u8),
            ).with_im_25_30(U6::new((immediate >> 5 & 0b111111) as u8)).with_im_20(
                U1::new((immediate >> 11 & 0b1) as u8),
            ).with_im_12_19((immediate >> 12 & 0b11111111) as u8).with_im_31(
                U1::new((immediate >> 20 & 0b1) as u8),
            ),
        }
    }
}

impl RISCVInstruction for u32 {
    open spec fn word(&self) -> u32 {
        *self
    }

    fn opcode(&self) -> (r: U7) {
        proof {
            lemma_word_of_its_fields(*self);
        }
        U7::new((*self & 0b1111111) as u8)
    }

    fn with_opcode(&self, opcode: U7) -> (r: u32) {
        let mut ret = *self;
        ret &= !0b1111111;
        ret |= opcode.value() as u32;
        ret
    }

    fn rd(&self) -> (r: U5) {
        proof {
            lemma_word_of_its_fields(*self);
        }
        U5::new(((*self >> 7) & 0b11111) as u8)
    }

    fn with_rd(&self, rd: U5) -> (r: u32) {
        let mut ret = *self;
        ret &= !(0b11111 << 7);
        ret |= (rd.value() as u32) << 7;
        ret
    }

    fn funct3(&self) -> (r: U3) {
        proof {
            lemma_word_of_its_fields(*self);
        }
        U3::new(((*self >> 12) & 0b111) as u8)
    }

    fn with_funct3(&self, funct3: U3) -> (r: u32) {
        let mut ret = *self;
        ret &= !(0b111 << 12);
        ret |= (funct3.value() as u32) << 12;
        ret
    }

    fn rs1(&self) -> (r: U5) {
        proof {
            lemma_word_of_its_fields(*self);
        }
        U5::new(((*self >> 15) & 0b11111) as u8)
    }

    fn with_rs1(&self, rs1: U5) -> (r: u32) {
        let mut ret = *self;
        ret &= !(0b11111 << 15);
        ret |= (rs1.value() as u32) << 15;
        ret
    }

    fn rs2(&self) -> (r: U5) {
        proof {
            lemma_word_of_its_fields(*self);
        }
        U5::new(((*self >> 20) & 0b11111) as u8)
    }

    fn with_rs2(&self, rs2: U5) -> (r: u32) {
        let mut ret = *self;
        ret &= !(0b11111 << 20);
        ret |= (rs2.value() as u32) << 20;
        ret
    }

    fn funct7(&self) -> (r: U7) {
        proof {
            lemma_word_of_its_fields(*self);
        }
        U7::new(((*self >> 25) & 0b1111111) as u8)
    }

    fn with_funct7(&self, funct7: U7) -> (r: u32) {
        let mut ret = *self;
        ret &= !(0b1111111 << 25);
        ret |= (funct7.value() as u32) << 25;
        ret
    }
}

/// The two groups of immediate bits that the `rd` field holds.
proof fn lemma_rd_groups(w: u32, rd: u8)
    by (bit_vector)
    requires
        rd as u32 == rd_of(w),
    ensures
        rd & 1 <= 1,
        (rd & 1) as u32 == im_7_of(w),
        rd >> 1 <= 15,
        (rd >> 1) as u32 == im_8_11_of(w),
{
}

/// Replacing one of its groups in the `rd` field replaces that group in the word.
proof fn lemma_with_rd_groups(w: u32, rd: u8, bit: u8, bits: u8)
    by (bit_vector)
    requires
        bit <= 1,
        bits <= 15,
    ensures
        rd as u32 == rd_of(w) ==> ((rd & !1u8) | bit) <= 31 && with_rd_of(
            w,
            ((rd & !1u8) | bit) as u32,
        ) == with_im_7_of(w, bit as u32),
        rd as u32 == im_7_of(w) ==> (rd | (bits << 1)) <= 31 && with_rd_of(
            w,
            (rd | (bits << 1)) as u32,
        ) == with_im_8_11_of(w, bits as u32),
{
}

/// The group of immediate bits that the `rs1` and `funct3` fields hold.
proof fn lemma_im_12_19(w: u32, rs1: u8, funct3: u8)
    by (bit_vector)
    requires
        rs1 as u32 == rs1_of(w),
        funct3 as u32 == funct3_of(w),
    ensures
        ((rs1 << 3) | funct3) as u32 == im_12_19_of(w),
{
}

/// Replacing `funct3` and then `rs1` replaces bits 12 to 19 of the word.
proof fn lemma_with_im_12_19(w: u32, v: u8)
    by (bit_vector)
    ensures
        v & 0b111 <= 7,
        v >> 3 <= 31,
        with_rs1_of(with_funct3_of(w, (v & 0b111) as u32), (v >> 3) as u32) == with_im_12_19_of(
            w,
            v as u32,
        ),
{
}

/// The two groups of immediate bits that the `rs2` field holds.
proof fn lemma_rs2_groups(w: u32, rs2: u8)
    by (bit_vector)
    requires
        rs2 as u32 == rs2_of(w),
    ensures
        rs2 & 1 <= 1,
        (rs2 & 1) as u32 == im_20_of(w),
        rs2 >> 1 <= 15,
        (rs2 >> 1) as u32 == im_21_24_of(w),
{
}

/// Replacing one of its groups in the `rs2` field replaces that group in the word.
proof fn lemma_with_rs2_groups(w: u32, rs2: u8, bit: u8, bits: u8)
    by (bit_vector)
    requires
        bit <= 1,
        bits <= 15,
    ensures
        rs2 as u32 == rs2_of(w) ==> ((rs2 & !1u8) | bit) <= 31 && with_rs2_of(
            w,
            ((rs2 & !1u8) | bit) as u32,
        ) == with_im_20_of(w, bit as u32),
        rs2 as u32 == im_20_of(w) ==> (rs2 | (bits << 1)) <= 31 && with_rs2_of(
            w,
            (rs2 | (bits << 1)) as u32,
        ) == with_im_21_24_of(w, bits as u32),
{
}

/// The two groups of immediate bits that the `funct7` field holds.
proof fn lemma_funct7_groups(w: u32, funct7: u8)
    by (bit_vector)
    requires
        funct7 as u32 == funct7_of(w),
    ensures
        funct7 & 0b111111 <= 63,
        (funct7 & 0b111111) as u32 == im_25_30_of(w),
        funct7 >> 6 <= 1,
        (funct7 >> 6) as u32 == im_31_of(w),
{
}

/// Replacing one of its groups in the `funct7` field replaces that group in the word.
proof fn lemma_with_funct7_groups(w: u32, funct7: u8, bits: u8, bit: u8)
    by (bit_vector)
    requires
        bits <= 63,
        bit <= 1,
    ensures
        funct7 as u32 == im_31_of(w) ==> ((funct7 << 6) | bits) <= 127 && with_funct7_of(
            w,
            ((funct7 << 6) | bits) as u32,
        ) == with_im_25_30_of(w, bits as u32),
        funct7 as u32 == funct7_of(w) ==> ((funct7 & 0b0111111u8) | (bit << 6)) <= 127
            && with_funct7_of(w, ((funct7 & 0b0111111u8) | (bit << 6)) as u32) == with_im_31_of(
            w,
            bit as u32,
        ),
{
}

/// Each immediate, put together from the groups of immediate bits.
proof fn lemma_immediate_from_groups(w: u32)
    by (bit_vector)
    ensures
        im_31_of(w) <= 1,
        immediate_of(w, RISCVImmediate::I) == 0u32 | im_20_of(w) | (im_21_24_of(w) << 1) | (
        im_25_30_of(w) << 5) | (if im_31_of(w) == 1 {
            !0b11111111111u32
        } else {
            0u32
        }),
        immediate_of(w, RISCVImmediate::S) == 0u32 | im_7_of(w) | (im_8_11_of(w) << 1) | (
        im_25_30_of(w) << 5) | (if im_31_of(w) == 1 {
            !0b11111111111u32
        } else {
            0u32
        }),
        immediate_of(w, RISCVImmediate::B) == 0u32 | (im_8_11_of(w) << 1) | (im_25_30_of(w) << 5)
            | (im_7_of(w) << 11) | (if im_31_of(w) == 1 {
            !0b111111111111u32
        } else {
            0u32
        }),
        immediate_of(w, RISCVImmediate::U) == 0u32 | (im_12_19_of(w) << 12) | (im_20_of(w) << 20)
            | (im_21_24_of(w) << 21) | (im_25_30_of(w) << 25) | (im_31_of(w) << 31),
        immediate_of(w, RISCVImmediate::J) == 0u32 | (im_21_24_of(w) << 1) | (im_25_30_of(w) << 5)
            | (im_20_of(w) << 11) | (im_12_19_of(w) << 12) | (if im_31_of(w) == 1 {
            !0b11111111111111111111u32
        } else {
            0u32
        }),
{
}

/// Each immediate, stored group by group.
proof fn lemma_immediate_into_groups(w: u32, v: u32)
    by (bit_vector)
    ensures
        v & 0b1 <= 1,
        v >> 1 & 0b1111 <= 15,
        v >> 5 & 0b111111 <= 63,
        v >> 11 & 0b1 <= 1,
        v >> 12 & 0b1 <= 1,
        v >> 12 & 0b11111111 <= 255,
        v >> 20 & 0b1 <= 1,
        v >> 21 & 0b1111 <= 15,
        v >> 25 & 0b111111 <= 63,
        v >> 31 & 0b1 <= 1,
        with_immediate_of(w, v, RISCVImmediate::I) == with_im_31_of(
            with_im_25_30_of(
                with_im_21_24_of(with_im_20_of(w, v & 0b1), v >> 1 & 0b1111),
                v >> 5 & 0b111111,
            ),
            v >> 11 & 0b1,
        ),
        with_immediate_of(w, v, RISCVImmediate::S) == with_im_31_of(
            with_im_25_30_of(
                with_im_8_11_of(with_im_7_of(w, v & 0b1), v >> 1 & 0b1111),
                v >> 5 & 0b111111,
            ),
            v >> 11 & 0b1,
        ),
        with_immediate_of(w, v, RISCVImmediate::B) == with_im_31_of(
            with_im_7_of(
                with_im_25_30_of(with_im_8_11_of(w, v >> 1 & 0b1111), v >> 5 & 0b111111),
                v >> 11 & 0b1,
            ),
            v >> 12 & 0b1,
        ),
        with_immediate_of(w, v, RISCVImmediate::U) == with_im_31_of(
            with_im_25_30_of(
                with_im_21_24_of(
                    with_im_20_of(with_im_12_19_of(w, v >> 12 & 0b11111111), v >> 20 & 0b1),
                    v >> 21 & 0b1111,
                ),
                v >> 25 & 0b111111,
            ),
            v >> 31 & 0b1,
        ),
        with_immediate_of(w, v, RISCVImmediate::J) == with_im_31_of(
            with_im_12_19_of(
                with_im_20_of(
                    with_im_25_30_of(with_im_21_24_of(w, v >> 1 & 0b1111), v >> 5 & 0b111111),
                    v >> 11 & 0b1,
                ),
                v >> 12 & 0b11111111,
            ),
            v >> 20 & 0b1,
        ),
{
}

} // verus!
