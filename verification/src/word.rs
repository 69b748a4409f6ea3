//! The layout of a 32-bit instruction word, as specification functions.
//!
//! A word holds six fields at fixed positions. The immediate of an instruction
//! is stored in the same positions, with its bits in an order that depends on
//! the encoding kind.

use crate::riscv_instruction::RISCVImmediate;
use vstd::prelude::*;

verus! {

/// Bits 0 to 6 of `w`.
pub open spec fn opcode_of(w: u32) -> u32 {
    w & 0x7f
}

/// Bits 7 to 11 of `w`.
pub open spec fn rd_of(w: u32) -> u32 {
    (w >> 7) & 0x1f
}

/// Bits 12 to 14 of `w`.
pub open spec fn funct3_of(w: u32) -> u32 {
    (w >> 12) & 0x7
}

/// Bits 15 to 19 of `w`.
pub open spec fn rs1_of(w: u32) -> u32 {
    (w >> 15) & 0x1f
}

/// Bits 20 to 24 of `w`.
pub open spec fn rs2_of(w: u32) -> u32 {
    (w >> 20) & 0x1f
}

/// Bits 25 to 31 of `w`.
pub open spec fn funct7_of(w: u32) -> u32 {
    (w >> 25) & 0x7f
}

/// `w` with bits 0 to 6 replaced by `v`, a value below 2^7.
pub open spec fn with_opcode_of(w: u32, v: u32) -> u32 {
    (w & !0x7fu32) | v
}

/// `w` with bits 7 to 11 replaced by `v`, a value below 2^5.
pub open spec fn with_rd_of(w: u32, v: u32) -> u32 {
    (w & !(0x1fu32 << 7)) | (v << 7)
}

/// `w` with bits 12 to 14 replaced by `v`, a value below 2^3.
pub open spec fn with_funct3_of(w: u32, v: u32) -> u32 {
    (w & !(0x7u32 << 12)) | (v << 12)
}

/// `w` with bits 15 to 19 replaced by `v`, a value below 2^5.
pub open spec fn with_rs1_of(w: u32, v: u32) -> u32 {
    (w & !(0x1fu32 << 15)) | (v << 15)
}

/// `w` with bits 20 to 24 replaced by `v`, a value below 2^5.
pub open spec fn with_rs2_of(w: u32, v: u32) -> u32 {
    (w & !(0x1fu32 << 20)) | (v << 20)
}

/// `w` with bits 25 to 31 replaced by `v`, a value below 2^7.
pub open spec fn with_funct7_of(w: u32, v: u32) -> u32 {
    (w & !(0x7fu32 << 25)) | (v << 25)
}

/// Bit 7 of `w`.
pub open spec fn im_7_of(w: u32) -> u32 {
    (w >> 7) & 0x1
}

/// Bits 8 to 11 of `w`.
pub open spec fn im_8_11_of(w: u32) -> u32 {
    (w >> 8) & 0xf
}

/// Bits 12 to 19 of `w`.
pub open spec fn im_12_19_of(w: u32) -> u32 {
    (w >> 12) & 0xff
}

/// Bit 20 of `w`.
pub open spec fn im_20_of(w: u32) -> u32 {
    (w >> 20) & 0x1
}

/// Bits 21 to 24 of `w`.
pub open spec fn im_21_24_of(w: u32) -> u32 {
    (w >> 21) & 0xf
}

/// Bits 25 to 30 of `w`.
pub open spec fn im_25_30_of(w: u32) -> u32 {
    (w >> 25) & 0x3f
}

/// Bit 31 of `w`.
pub open spec fn im_31_of(w: u32) -> u32 {
    w >> 31
}

/// `w` with bit 7 replaced by `v`, which is 0 or 1.
pub open spec fn with_im_7_of(w: u32, v: u32) -> u32 {
    (w & !(0x1u32 << 7)) | (v << 7)
}

/// `w` with bits 8 to 11 replaced by `v`, a value below 2^4.
pub open spec fn with_im_8_11_of(w: u32, v: u32) -> u32 {
    (w & !(0xfu32 << 8)) | (v << 8)
}

/// `w` with bits 12 to 19 replaced by `v`, a value below 2^8.
pub open spec fn with_im_12_19_of(w: u32, v: u32) -> u32 {
    (w & !(0xffu32 << 12)) | (v << 12)
}

/// `w` with bit 20 replaced by `v`, which is 0 or 1.
pub open spec fn with_im_20_of(w: u32, v: u32) -> u32 {
    (w & !(0x1u32 << 20)) | (v << 20)
}

/// `w` with bits 21 to 24 replaced by `v`, a value below 2^4.
pub open spec fn with_im_21_24_of(w: u32, v: u32) -> u32 {
    (w & !(0xfu32 << 21)) | (v << 21)
}

/// `w` with bits 25 to 30 replaced by `v`, a value below 2^6.
pub open spec fn with_im_25_30_of(w: u32, v: u32) -> u32 {
    (w & !(0x3fu32 << 25)) | (v << 25)
}

/// `w` with bit 31 replaced by `v`, which is 0 or 1.
pub open spec fn with_im_31_of(w: u32, v: u32) -> u32 {
    (w & !(0x1u32 << 31)) | (v << 31)
}

/// `v` with every bit above bit `sign` set to bit `sign` of `v`.
pub open spec fn sign_extend(v: u32, sign: u32) -> u32 {
    if (v >> sign) & 1 == 1 {
        v | (0xffff_fffeu32 << sign)
    } else {
        v
    }
}

/// The immediate that `w` holds under the encoding `kind`.
///
/// For I and S it is a 12-bit signed value, for B a 13-bit and for J a 21-bit
/// signed value whose lowest bit is zero, each sign-extended to 32 bits. For U
/// it is the upper 20 bits of the word with the lower 12 bits zero.
pub open spec fn immediate_of(w: u32, kind: RISCVImmediate) -> u32 {
    match kind {
        RISCVImmediate::I => sign_extend(w >> 20, 11),
        RISCVImmediate::S => sign_extend(((w >> 25) << 5) | ((w >> 7) & 0x1f), 11),
        RISCVImmediate::B => sign_extend(
            ((w >> 31) << 12) | (((w >> 7) & 0x1) << 11) | (((w >> 25) & 0x3f) << 5) | (((w >> 8)
                & 0xf) << 1),
            12,
        ),
        RISCVImmediate::U => w & 0xffff_f000,
        RISCVImmediate::J => sign_extend(
            ((w >> 31) << 20) | (((w >> 12) & 0xff) << 12) | (((w >> 20) & 0x1) << 11) | (((w
                >> 21) & 0x3ff) << 1),
            20,
        ),
    }
}

/// The bits of a word in which the encoding `kind` stores its immediate.
pub open spec fn immediate_bits(kind: RISCVImmediate) -> u32 {
    match kind {
        RISCVImmediate::I => 0xfff0_0000,
        RISCVImmediate::S | RISCVImmediate::B => 0xfe00_0f80,
        RISCVImmediate::U | RISCVImmediate::J => 0xffff_f000,
    }
}

/// `w` with the immediate `v` stored under the encoding `kind`.
///
/// Only the bits of `v` that the encoding has room for are stored, and only
/// the bits of `immediate_bits(kind)` change.
pub open spec fn with_immediate_of(w: u32, v: u32, kind: RISCVImmediate) -> u32 {
    match kind {
        RISCVImmediate::I => (w & 0x000f_ffff) | ((v & 0xfff) << 20),
        RISCVImmediate::S => (w & 0x01ff_f07f) | ((v & 0x1f) << 7) | (((v >> 5) & 0x7f) << 25),
        RISCVImmediate::B => (w & 0x01ff_f07f) | (((v >> 11) & 0x1) << 7) | (((v >> 1) & 0xf) << 8)
            | (((v >> 5) & 0x3f) << 25) | (((v >> 12) & 0x1) << 31),
        RISCVImmediate::U => (w & 0x0000_0fff) | (v & 0xffff_f000),
        RISCVImmediate::J => (w & 0x0000_0fff) | (((v >> 12) & 0xff) << 12) | (((v >> 11) & 0x1)
            << 20) | (((v >> 1) & 0x3ff) << 21) | (((v >> 20) & 0x1) << 31),
    }
}

/// `v` read as a signed number in two's complement.
pub open spec fn signed(v: u32) -> int {
    if v < 0x8000_0000 {
        v as int
    } else {
        v - 0x1_0000_0000
    }
}

/// Whether the encoding `kind` can hold the immediate `v` without loss.
pub open spec fn representable(v: u32, kind: RISCVImmediate) -> bool {
    match kind {
        RISCVImmediate::I | RISCVImmediate::S => -0x800 <= signed(v) < 0x800,
        RISCVImmediate::B => -0x1000 <= signed(v) < 0x1000 && v % 2 == 0,
        RISCVImmediate::U => v % 0x1000 == 0,
        RISCVImmediate::J => -0x10_0000 <= signed(v) < 0x10_0000 && v % 2 == 0,
    }
}

/// The word of an R-type instruction with the given fields, each below the
/// bound of its width.
pub open spec fn r_type_word(
    opcode: u32,
    rd: u32,
    funct3: u32,
    rs1: u32,
    rs2: u32,
    funct7: u32,
) -> u32 {
    opcode | (rd << 7) | (funct3 << 12) | (rs1 << 15) | (rs2 << 20) | (funct7 << 25)
}

/// The word of an I-type instruction with the given fields and immediate.
pub open spec fn i_type_word(opcode: u32, rd: u32, funct3: u32, rs1: u32, imm: u32) -> u32 {
    with_immediate_of(opcode | (rd << 7) | (funct3 << 12) | (rs1 << 15), imm, RISCVImmediate::I)
}

/// The word of an S-type instruction with the given fields and immediate.
pub open spec fn s_type_word(opcode: u32, funct3: u32, rs1: u32, rs2: u32, imm: u32) -> u32 {
    with_immediate_of(opcode | (funct3 << 12) | (rs1 << 15) | (rs2 << 20), imm, RISCVImmediate::S)
}

/// The word of a B-type instruction with the given fields and immediate.
pub open spec fn b_type_word(opcode: u32, funct3: u32, rs1: u32, rs2: u32, imm: u32) -> u32 {
    with_immediate_of(opcode | (funct3 << 12) | (rs1 << 15) | (rs2 << 20), imm, RISCVImmediate::B)
}

/// The word of a J-type instruction with the given fields and immediate.
pub open spec fn j_type_word(opcode: u32, rd: u32, imm: u32) -> u32 {
    with_immediate_of(opcode | (rd << 7), imm, RISCVImmediate::J)
}

/// Storing a representable immediate and reading it back gives the same
/// immediate, whatever the word held before.
pub proof fn lemma_immediate_round_trip(w: u32, v: u32, kind: RISCVImmediate)
    requires
        representable(v, kind),
    ensures
        immediate_of(with_immediate_of(w, v, kind), kind) == v,
{
    lemma_immediate_bits(w, v);
}

/// Storing an immediate changes no bit of the word outside the bits of its
/// encoding.
pub proof fn lemma_with_immediate_keeps_other_bits(w: u32, v: u32, kind: RISCVImmediate)
    ensures
        with_immediate_of(w, v, kind) & !immediate_bits(kind) == w & !immediate_bits(kind),
{
    lemma_immediate_bits(w, v);
}

/// The immediate that a word holds is representable in its encoding, and
/// storing it again gives the word back.
pub proof fn lemma_immediate_of_word(w: u32, kind: RISCVImmediate)
    ensures
        representable(immediate_of(w, kind), kind),
        with_immediate_of(w, immediate_of(w, kind), kind) == w,
{
    lemma_immediate_bits(w, 0);
}

/// The fields of the R-type word that is built from given fields are those
/// fields.
pub proof fn lemma_r_type_fields(
    opcode: u32,
    rd: u32,
    funct3: u32,
    rs1: u32,
    rs2: u32,
    funct7: u32,
)
    by (bit_vector)
    requires
        opcode <= 127,
        rd <= 31,
        funct3 <= 7,
        rs1 <= 31,
        rs2 <= 31,
        funct7 <= 127,
    ensures
        opcode_of(r_type_word(opcode, rd, funct3, rs1, rs2, funct7)) == opcode,
        rd_of(r_type_word(opcode, rd, funct3, rs1, rs2, funct7)) == rd,
        funct3_of(r_type_word(opcode, rd, funct3, rs1, rs2, funct7)) == funct3,
        rs1_of(r_type_word(opcode, rd, funct3, rs1, rs2, funct7)) == rs1,
        rs2_of(r_type_word(opcode, rd, funct3, rs1, rs2, funct7)) == rs2,
        funct7_of(r_type_word(opcode, rd, funct3, rs1, rs2, funct7)) == funct7,
{
}

/// The fields of the I-type word that is built from given fields are those
/// fields, and so is its immediate where the encoding can hold it.
pub proof fn lemma_i_type_fields(opcode: u32, rd: u32, funct3: u32, rs1: u32, imm: u32)
    by (bit_vector)
    requires
        opcode <= 127,
        rd <= 31,
        funct3 <= 7,
        rs1 <= 31,
    ensures
        opcode_of(i_type_word(opcode, rd, funct3, rs1, imm)) == opcode,
        rd_of(i_type_word(opcode, rd, funct3, rs1, imm)) == rd,
        funct3_of(i_type_word(opcode, rd, funct3, rs1, imm)) == funct3,
        rs1_of(i_type_word(opcode, rd, funct3, rs1, imm)) == rs1,
        representable(imm, RISCVImmediate::I) ==> immediate_of(
            i_type_word(opcode, rd, funct3, rs1, imm),
            RISCVImmediate::I,
        ) == imm,
{
}

/// The fields of the S-type word that is built from given fields are those
/// fields, and so is its immediate where the encoding can hold it.
pub proof fn lemma_s_type_fields(opcode: u32, funct3: u32, rs1: u32, rs2: u32, imm: u32)
    by (bit_vector)
    requires
        opcode <= 127,
        funct3 <= 7,
        rs1 <= 31,
        rs2 <= 31,
    ensures
        opcode_of(s_type_word(opcode, funct3, rs1, rs2, imm)) == opcode,
        funct3_of(s_type_word(opcode, funct3, rs1, rs2, imm)) == funct3,
        rs1_of(s_type_word(opcode, funct3, rs1, rs2, imm)) == rs1,
        rs2_of(s_type_word(opcode, funct3, rs1, rs2, imm)) == rs2,
        representable(imm, RISCVImmediate::S) ==> immediate_of(
            s_type_word(opcode, funct3, rs1, rs2, imm),
            RISCVImmediate::S,
        ) == imm,
{
}

/// The fields of the B-type word that is built from given fields are those
/// fields, and so is its immediate where the encoding can hold it.
pub proof fn lemma_b_type_fields(opcode: u32, funct3: u32, rs1: u32, rs2: u32, imm: u32)
    by (bit_vector)
    requires
        opcode <= 127,
        funct3 <= 7,
        rs1 <= 31,
        rs2 <= 31,
    ensures
        opcode_of(b_type_word(opcode, funct3, rs1, rs2, imm)) == opcode,
        funct3_of(b_type_word(opcode, funct3, rs1, rs2, imm)) == funct3,
        rs1_of(b_type_word(opcode, funct3, rs1, rs2, imm)) == rs1,
        rs2_of(b_type_word(opcode, funct3, rs1, rs2, imm)) == rs2,
        representable(imm, RISCVImmediate::B) ==> immediate_of(
            b_type_word(opcode, funct3, rs1, rs2, imm),
            RISCVImmediate::B,
        ) == imm,
{
}

/// The fields of the J-type word that is built from given fields are those
/// fields, and so is its immediate where the encoding can hold it.
pub proof fn lemma_j_type_fields(opcode: u32, rd: u32, imm: u32)
    by (bit_vector)
    requires
        opcode <= 127,
        rd <= 31,
    ensures
        opcode_of(j_type_word(opcode, rd, imm)) == opcode,
        rd_of(j_type_word(opcode, rd, imm)) == rd,
        representable(imm, RISCVImmediate::J) ==> immediate_of(
            j_type_word(opcode, rd, imm),
            RISCVImmediate::J,
        ) == imm,
{
}

/// Every word is the word of each format, built from its own fields and
/// immediate; and each of its fields is below the bound of its width.
pub proof fn lemma_word_of_its_fields(w: u32)
    by (bit_vector)
    ensures
        opcode_of(w) <= 127,
        rd_of(w) <= 31,
        funct3_of(w) <= 7,
        rs1_of(w) <= 31,
        rs2_of(w) <= 31,
        funct7_of(w) <= 127,
        r_type_word(opcode_of(w), rd_of(w), funct3_of(w), rs1_of(w), rs2_of(w), funct7_of(w))
            == w,
        i_type_word(
            opcode_of(w),
            rd_of(w),
            funct3_of(w),
            rs1_of(w),
            immediate_of(w, RISCVImmediate::I),
        ) == w,
        s_type_word(
            opcode_of(w),
            funct3_of(w),
            rs1_of(w),
            rs2_of(w),
            immediate_of(w, RISCVImmediate::S),
        ) == w,
        b_type_word(
            opcode_of(w),
            funct3_of(w),
            rs1_of(w),
            rs2_of(w),
            immediate_of(w, RISCVImmediate::B),
        ) == w,
        j_type_word(opcode_of(w), rd_of(w), immediate_of(w, RISCVImmediate::J)) == w,
{
}

/// What the public laws on immediates state, for the five encodings at once.
proof fn lemma_immediate_bits(w: u32, v: u32)
    by (bit_vector)
    ensures
        representable(v, RISCVImmediate::I) ==> immediate_of(
            with_immediate_of(w, v, RISCVImmediate::I),
            RISCVImmediate::I,
        ) == v,
        representable(v, RISCVImmediate::S) ==> immediate_of(
            with_immediate_of(w, v, RISCVImmediate::S),
            RISCVImmediate::S,
        ) == v,
        representable(v, RISCVImmediate::B) ==> immediate_of(
            with_immediate_of(w, v, RISCVImmediate::B),
            RISCVImmediate::B,
        ) == v,
        representable(v, RISCVImmediate::U) ==> immediate_of(
            with_immediate_of(w, v, RISCVImmediate::U),
            RISCVImmediate::U,
        ) == v,
        representable(v, RISCVImmediate::J) ==> immediate_of(
            with_immediate_of(w, v, RISCVImmediate::J),
            RISCVImmediate::J,
        ) == v,
        with_immediate_of(w, v, RISCVImmediate::I) & !0xfff0_0000u32 == w & !0xfff0_0000u32,
        with_immediate_of(w, v, RISCVImmediate::S) & !0xfe00_0f80u32 == w & !0xfe00_0f80u32,
        with_immediate_of(w, v, RISCVImmediate::B) & !0xfe00_0f80u32 == w & !0xfe00_0f80u32,
        with_immediate_of(w, v, RISCVImmediate::U) & !0xffff_f000u32 == w & !0xffff_f000u32,
        with_immediate_of(w, v, RISCVImmediate::J) & !0xffff_f000u32 == w & !0xffff_f000u32,
        representable(immediate_of(w, RISCVImmediate::I), RISCVImmediate::I),
        representable(immediate_of(w, RISCVImmediate::S), RISCVImmediate::S),
        representable(immediate_of(w, RISCVImmediate::B), RISCVImmediate::B),
        representable(immediate_of(w, RISCVImmediate::U), RISCVImmediate::U),
        representable(immediate_of(w, RISCVImmediate::J), RISCVImmediate::J),
        with_immediate_of(w, immediate_of(w, RISCVImmediate::I), RISCVImmediate::I) == w,
        with_immediate_of(w, immediate_of(w, RISCVImmediate::S), RISCVImmediate::S) == w,
        with_immediate_of(w, immediate_of(w, RISCVImmediate::B), RISCVImmediate::B) == w,
        with_immediate_of(w, immediate_of(w, RISCVImmediate::U), RISCVImmediate::U) == w,
        with_immediate_of(w, immediate_of(w, RISCVImmediate::J), RISCVImmediate::J) == w,
{
}

} // verus!
