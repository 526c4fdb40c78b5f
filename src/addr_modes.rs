//! Addressing-mode decoding for the 6502 opcode matrix, official and
//! unofficial opcodes alike.
use vstd::prelude::*;

verus! {

/// Addressing value type | Abbreviation | Mode name
#[derive(Debug, Clone, Copy, PartialEq, Eq, Structural)]
pub enum AddrMode {
    /// u8  | d,x   | Zero page indexed X
    ZeroPageX,
    /// u8  | d,y   | Zero page indexed Y
    ZeroPageY,
    /// u16 | a,x   | Absolute indexed X
    AbsIdxX,
    /// u16 | a,y   | Absolute indexed Y
    AbsIdxY,
    /// u16 | (d,x) | Indexed indirect X
    IndIdxX,
    /// u16 | (d),y | Indirect indexed Y
    IndIdxY,
    /// ()  |       | Implicit
    Implicit,
    /// u8  | #v    | Immediate
    Imm,
    /// u8  | d     | Zero page
    ZeroPage,
    /// u16 | a     | Absolute
    Abs,
    /// i8  | label | Relative
    Rel,
    /// u16 | (a)   | Indirect
    Ind,
}

/// The high field of an opcode: bits 7..5.
pub open spec fn hi_field(opcode: u8) -> u8 {
    (opcode & 0xE0u8) >> 5u8
}

/// The low field of an opcode: bits 4..0.
pub open spec fn lo_field(opcode: u8) -> u8 {
    opcode & 0x1Fu8
}

/// `JMP (a)`: the one opcode of the 0x0C column that is not absolute.
pub open spec fn is_ind_pattern(opcode: u8) -> bool {
    opcode == 0x6Cu8
}

/// `l[4:2] == 0b001`: the 0x04 column.
pub open spec fn is_zero_page_pattern(opcode: u8) -> bool {
    lo_field(opcode) >> 2u8 == 0b001u8
}

/// `h[2:1] == 0b10` and `l[4:1] == 0b1011`: LDX/STX/SAX/LAX zero page, Y.
pub open spec fn is_zero_page_y_pattern(opcode: u8) -> bool {
    hi_field(opcode) >> 1u8 == 0b10u8 && lo_field(opcode) >> 1u8 == 0b1011u8
}

/// `l[4:2] == 0b101`: the 0x14 column.
pub open spec fn is_zero_page_x_pattern(opcode: u8) -> bool {
    lo_field(opcode) >> 2u8 == 0b101u8
}

/// `l[4:2] == 0b011` (the 0x0C column), or `JSR`.
pub open spec fn is_abs_pattern(opcode: u8) -> bool {
    lo_field(opcode) >> 2u8 == 0b011u8 || opcode == 0x20u8
}

/// `h[2] == 1` and `l` is 0b000?0, or `l` is 0b010?1.
pub open spec fn is_imm_pattern(opcode: u8) -> bool {
    (hi_field(opcode) >> 2u8 != 0u8 && lo_field(opcode) & !0b00010u8 == 0u8)
        || lo_field(opcode) & !0b00010u8 == 0b01001u8
}

/// `l == 0x10`: the branches.
pub open spec fn is_rel_pattern(opcode: u8) -> bool {
    lo_field(opcode) == 0x10u8
}

/// `l` is 0b000?1.
pub open spec fn is_ind_idx_x_pattern(opcode: u8) -> bool {
    lo_field(opcode) & !0b00010u8 == 0b00001u8
}

/// `l` is 0b100?1.
pub open spec fn is_ind_idx_y_pattern(opcode: u8) -> bool {
    lo_field(opcode) & !0b00010u8 == 0b10001u8
}

/// The opcode 0x19, or `h[2:1] == 0b10` and `l[4:1] == 0b1111`.
pub open spec fn is_abs_idx_y_pattern(opcode: u8) -> bool {
    opcode == 0x19u8 || (hi_field(opcode) >> 1u8 == 0b10u8 && lo_field(opcode) >> 1u8 == 0b1111u8)
}

/// `l[4:2] == 0b111`: the 0x1C column.
pub open spec fn is_abs_idx_x_pattern(opcode: u8) -> bool {
    lo_field(opcode) >> 2u8 == 0b111u8
}

/// The addressing mode of an opcode: the mode of the first pattern that
/// matches, in this order, and `Implicit` where none does. Several patterns
/// overlap, so the order is part of the definition.
pub open spec fn addr_mode_of(opcode: u8) -> AddrMode {
    if is_ind_pattern(opcode) {
        AddrMode::Ind
    } else if is_zero_page_pattern(opcode) {
        AddrMode::ZeroPage
    } else if is_zero_page_y_pattern(opcode) {
        AddrMode::ZeroPageY
    } else if is_zero_page_x_pattern(opcode) {
        AddrMode::ZeroPageX
    } else if is_abs_pattern(opcode) {
        AddrMode::Abs
    } else if is_imm_pattern(opcode) {
        AddrMode::Imm
    } else if is_rel_pattern(opcode) {
        AddrMode::Rel
    } else if is_ind_idx_x_pattern(opcode) {
        AddrMode::IndIdxX
    } else if is_ind_idx_y_pattern(opcode) {
        AddrMode::IndIdxY
    } else if is_abs_idx_y_pattern(opcode) {
        AddrMode::AbsIdxY
    } else if is_abs_idx_x_pattern(opcode) {
        AddrMode::AbsIdxX
    } else {
        AddrMode::Implicit
    }
}

/// The number of operand bytes that follow an opcode of the given mode.
pub open spec fn operand_size_of(mode: AddrMode) -> nat {
    match mode {
        AddrMode::ZeroPage | AddrMode::ZeroPageX | AddrMode::ZeroPageY | AddrMode::IndIdxX
        | AddrMode::IndIdxY | AddrMode::Imm | AddrMode::Rel => 1,
        AddrMode::Abs | AddrMode::AbsIdxX | AddrMode::AbsIdxY | AddrMode::Ind => 2,
        AddrMode::Implicit => 0,
    }
}

/// Classification is total: every one of the 256 opcode bytes is given one
/// of the twelve addressing modes.
pub proof fn lemma_classify_total(opcode: u8)
    ensures
        addr_mode_of(opcode) is ZeroPage || addr_mode_of(opcode) is ZeroPageX
            || addr_mode_of(opcode) is ZeroPageY || addr_mode_of(opcode) is Abs
            || addr_mode_of(opcode) is AbsIdxX || addr_mode_of(opcode) is AbsIdxY
            || addr_mode_of(opcode) is IndIdxX || addr_mode_of(opcode) is IndIdxY
            || addr_mode_of(opcode) is Ind || addr_mode_of(opcode) is Imm
            || addr_mode_of(opcode) is Rel || addr_mode_of(opcode) is Implicit,
        operand_size_of(addr_mode_of(opcode)) <= 2,
{
}

/// An opcode that matches both the zero page,Y pattern and the wider
/// zero page,X pattern is zero page,Y.
pub proof fn lemma_zero_page_y_precedes_x(opcode: u8)
    requires
        is_zero_page_y_pattern(opcode),
        is_zero_page_x_pattern(opcode),
    ensures
        addr_mode_of(opcode) == AddrMode::ZeroPageY,
{
    assert(((opcode & 0xE0u8) >> 5u8) >> 1u8 == 0b10u8 && (opcode & 0x1Fu8) >> 1u8 == 0b1011u8
        ==> opcode != 0x6Cu8 && (opcode & 0x1Fu8) >> 2u8 != 0b001u8) by (bit_vector);
}

/// An opcode that matches both the absolute,Y pattern and the wider
/// absolute,X pattern is absolute,Y.
pub proof fn lemma_abs_idx_y_precedes_x(opcode: u8)
    requires
        is_abs_idx_y_pattern(opcode),
        is_abs_idx_x_pattern(opcode),
    ensures
        addr_mode_of(opcode) == AddrMode::AbsIdxY,
{
    assert(((opcode & 0x1Fu8) >> 2u8 == 0b111u8) ==> {
        let h = (opcode & 0xE0u8) >> 5u8;
        let l = opcode & 0x1Fu8;
        &&& opcode != 0x6Cu8
        &&& l >> 2u8 != 0b001u8
        &&& !(h >> 1u8 == 0b10u8 && l >> 1u8 == 0b1011u8)
        &&& l >> 2u8 != 0b101u8
        &&& !(l >> 2u8 == 0b011u8 || opcode == 0x20u8)
        &&& !((h >> 2u8 != 0u8 && l & !0b00010u8 == 0u8) || l & !0b00010u8 == 0b01001u8)
        &&& l != 0x10u8
        &&& l & !0b00010u8 != 0b00001u8
        &&& l & !0b00010u8 != 0b10001u8
    }) by (bit_vector);
}

/// The operand size of an instruction depends on its addressing mode alone:
/// two opcodes of the same mode have operands of the same size.
pub proof fn lemma_operand_size_by_mode_only(opcode1: u8, opcode2: u8)
    requires
        addr_mode_of(opcode1) == addr_mode_of(opcode2),
    ensures
        operand_size_of(addr_mode_of(opcode1)) == operand_size_of(addr_mode_of(opcode2)),
{
}

/// The lookups hold no state: equal inputs give equal modes and sizes, in
/// whatever order and however often they are asked for.
pub proof fn lemma_lookups_deterministic(opcode1: u8, opcode2: u8, mode1: AddrMode, mode2: AddrMode)
    requires
        opcode1 == opcode2,
        mode1 == mode2,
    ensures
        addr_mode_of(opcode1) == addr_mode_of(opcode2),
        operand_size_of(mode1) == operand_size_of(mode2),
{
}

/// Decodes the addressing mode of an opcode byte.
pub fn get_addr_mode(opcode: u8) -> (r: AddrMode)
    ensures
        r == addr_mode_of(opcode),
{
    let h: u8 = (opcode & 0xE0u8) >> 5u8;  // h = opcode[7:5]
    let l: u8 = opcode & 0x1Fu8;  // l = opcode[4:0]
    if opcode == 0x6Cu8 {
        // JMP (a) sits in the 0x0C column, so it is filtered out first.
        AddrMode::Ind
    } else if (l >> 2u8) == 0b001u8 {
        // h = *, l = 0b001??: d
        AddrMode::ZeroPage
    } else if (h >> 1u8) == 0b10u8 && (l >> 1u8) == 0b1011u8 {
        // h = 0b10?, l = 0b1011?: d,y, tested before its superset d,x
        AddrMode::ZeroPageY
    } else if (l >> 2u8) == 0b101u8 {
        // h = *, l = 0b101??: d,x
        AddrMode::ZeroPageX
    } else if (l >> 2u8) == 0b011u8 || opcode == 0x20u8 {
        // h = *, l = 0b011??, or JSR: a
        AddrMode::Abs
    } else if ((h >> 2u8) != 0u8 && (l & !0b00010u8) == 0u8) || (l & !0b00010u8) == 0b01001u8 {
        // h = 0b1??, l = 0b000?0; or h = *, l = 0b010?1: #i
        AddrMode::Imm
    } else if l == 0x10u8 {
        // h = *, l = 0x10: *+d
        AddrMode::Rel
    } else if (l & !0b00010u8) == 0b00001u8 {
        // h = *, l = 0b000?1: (d,x)
        AddrMode::IndIdxX
    } else if (l & !0b00010u8) == 0b10001u8 {
        // h = *, l = 0b100?1: (d),y
        AddrMode::IndIdxY
    } else if opcode == 0x19u8 || ((h >> 1u8) == 0b10u8 && (l >> 1u8) == 0b1111u8) {
        // 0x19, or h = 0b10?, l = 0b1111?: a,y, tested before its superset a,x
        AddrMode::AbsIdxY
    } else if (l >> 2u8) == 0b111u8 {
        // h = *, l = 0b111??: a,x
        AddrMode::AbsIdxX
    } else {
        AddrMode::Implicit
    }
}

/// The number of operand bytes (0, 1 or 2) that follow an opcode of the
/// given addressing mode.
pub fn get_operand_size(mode: AddrMode) -> (r: usize)
    ensures
        r == operand_size_of(mode),
        r <= 2,
{
    match mode {
        AddrMode::ZeroPage | AddrMode::ZeroPageX | AddrMode::ZeroPageY | AddrMode::IndIdxX
        | AddrMode::IndIdxY | AddrMode::Imm | AddrMode::Rel => 1,
        AddrMode::Abs | AddrMode::AbsIdxX | AddrMode::AbsIdxY | AddrMode::Ind => 2,
        AddrMode::Implicit => 0,
    }
}

} // verus!
