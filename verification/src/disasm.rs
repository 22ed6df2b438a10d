//! 6502 instruction decoding: mnemonic and addressing mode for all 256
//! opcodes (official plus the common unofficial ones), and the operand
//! arithmetic a disassembly listing needs.

use vstd::prelude::*;
use vstd::string::StringSliceAdditionalSpecFns;

verus! {

/// Addressing modes.
#[derive(Debug, Clone, Copy, PartialEq, Eq, Structural)]
pub enum Mode {
    Imp,
    Acc,
    Imm,
    Zp,
    ZpX,
    ZpY,
    Abs,
    AbsX,
    AbsY,
    Ind,
    IzX,
    IzY,
    Rel,
}

pub open spec fn mode_len(m: Mode) -> u16 {
    match m {
        Mode::Imp | Mode::Acc => 1,
        Mode::Imm | Mode::Zp | Mode::ZpX | Mode::ZpY | Mode::IzX | Mode::IzY | Mode::Rel => 2,
        Mode::Abs | Mode::AbsX | Mode::AbsY | Mode::Ind => 3,
    }
}

impl Mode {
    /// Instruction length in bytes (opcode plus operand).
    pub fn len(self) -> (r: u16)
        ensures r == mode_len(self), 1 <= r <= 3,
    {
        match self {
            Mode::Imp | Mode::Acc => 1,
            Mode::Imm | Mode::Zp | Mode::ZpX | Mode::ZpY | Mode::IzX | Mode::IzY | Mode::Rel => 2,
            Mode::Abs | Mode::AbsX | Mode::AbsY | Mode::Ind => 3,
        }
    }
}

/// Instruction mnemonics (`Unofficial*` print with a leading `*`).
#[derive(Debug, Clone, Copy, PartialEq, Eq, Structural)]
pub enum Mnemonic {
    UnofficialLax,
    UnofficialNop,
    UnofficialSax,
    UnofficialSbc,
    Adc,
    And,
    Asl,
    Bcc,
    Bcs,
    Beq,
    Bit,
    Bmi,
    Bne,
    Bpl,
    Brk,
    Bvc,
    Bvs,
    Clc,
    Cld,
    Cli,
    Clv,
    Cmp,
    Cpx,
    Cpy,
    Dec,
    Dex,
    Dey,
    Eor,
    Inc,
    Inx,
    Iny,
    Jmp,
    Jsr,
    Lda,
    Ldx,
    Ldy,
    Lsr,
    Nop,
    Ora,
    Pha,
    Php,
    Pla,
    Plp,
    Rol,
    Ror,
    Rti,
    Rts,
    Sbc,
    Sec,
    Sed,
    Sei,
    Sta,
    Stx,
    Sty,
    Tax,
    Tay,
    Tsx,
    Txa,
    Txs,
    Tya,
    Unknown,
}

pub open spec fn mnemonic_text(m: Mnemonic) -> Seq<u8> {
    match m {
        Mnemonic::UnofficialLax => "*LAX".spec_bytes(),
        Mnemonic::UnofficialNop => "*NOP".spec_bytes(),
        Mnemonic::UnofficialSax => "*SAX".spec_bytes(),
        Mnemonic::UnofficialSbc => "*SBC".spec_bytes(),
        Mnemonic::Adc => "ADC".spec_bytes(),
        Mnemonic::And => "AND".spec_bytes(),
        Mnemonic::Asl => "ASL".spec_bytes(),
        Mnemonic::Bcc => "BCC".spec_bytes(),
        Mnemonic::Bcs => "BCS".spec_bytes(),
        Mnemonic::Beq => "BEQ".spec_bytes(),
        Mnemonic::Bit => "BIT".spec_bytes(),
        Mnemonic::Bmi => "BMI".spec_bytes(),
        Mnemonic::Bne => "BNE".spec_bytes(),
        Mnemonic::Bpl => "BPL".spec_bytes(),
        Mnemonic::Brk => "BRK".spec_bytes(),
        Mnemonic::Bvc => "BVC".spec_bytes(),
        Mnemonic::Bvs => "BVS".spec_bytes(),
        Mnemonic::Clc => "CLC".spec_bytes(),
        Mnemonic::Cld => "CLD".spec_bytes(),
        Mnemonic::Cli => "CLI".spec_bytes(),
        Mnemonic::Clv => "CLV".spec_bytes(),
        Mnemonic::Cmp => "CMP".spec_bytes(),
        Mnemonic::Cpx => "CPX".spec_bytes(),
        Mnemonic::Cpy => "CPY".spec_bytes(),
        Mnemonic::Dec => "DEC".spec_bytes(),
        Mnemonic::Dex => "DEX".spec_bytes(),
        Mnemonic::Dey => "DEY".spec_bytes(),
        Mnemonic::Eor => "EOR".spec_bytes(),
        Mnemonic::Inc => "INC".spec_bytes(),
        Mnemonic::Inx => "INX".spec_bytes(),
        Mnemonic::Iny => "INY".spec_bytes(),
        Mnemonic::Jmp => "JMP".spec_bytes(),
        Mnemonic::Jsr => "JSR".spec_bytes(),
        Mnemonic::Lda => "LDA".spec_bytes(),
        Mnemonic::Ldx => "LDX".spec_bytes(),
        Mnemonic::Ldy => "LDY".spec_bytes(),
        Mnemonic::Lsr => "LSR".spec_bytes(),
        Mnemonic::Nop => "NOP".spec_bytes(),
        Mnemonic::Ora => "ORA".spec_bytes(),
        Mnemonic::Pha => "PHA".spec_bytes(),
        Mnemonic::Php => "PHP".spec_bytes(),
        Mnemonic::Pla => "PLA".spec_bytes(),
        Mnemonic::Plp => "PLP".spec_bytes(),
        Mnemonic::Rol => "ROL".spec_bytes(),
        Mnemonic::Ror => "ROR".spec_bytes(),
        Mnemonic::Rti => "RTI".spec_bytes(),
        Mnemonic::Rts => "RTS".spec_bytes(),
        Mnemonic::Sbc => "SBC".spec_bytes(),
        Mnemonic::Sec => "SEC".spec_bytes(),
        Mnemonic::Sed => "SED".spec_bytes(),
        Mnemonic::Sei => "SEI".spec_bytes(),
        Mnemonic::Sta => "STA".spec_bytes(),
        Mnemonic::Stx => "STX".spec_bytes(),
        Mnemonic::Sty => "STY".spec_bytes(),
        Mnemonic::Tax => "TAX".spec_bytes(),
        Mnemonic::Tay => "TAY".spec_bytes(),
        Mnemonic::Tsx => "TSX".spec_bytes(),
        Mnemonic::Txa => "TXA".spec_bytes(),
        Mnemonic::Txs => "TXS".spec_bytes(),
        Mnemonic::Tya => "TYA".spec_bytes(),
        Mnemonic::Unknown => "???".spec_bytes(),
    }
}

impl Mnemonic {
    pub fn text(self) -> (r: &'static str)
        ensures r.spec_bytes() == mnemonic_text(self),
    {
        match self {
            Mnemonic::UnofficialLax => "*LAX",
            Mnemonic::UnofficialNop => "*NOP",
            Mnemonic::UnofficialSax => "*SAX",
            Mnemonic::UnofficialSbc => "*SBC",
            Mnemonic::Adc => "ADC",
            Mnemonic::And => "AND",
            Mnemonic::Asl => "ASL",
            Mnemonic::Bcc => "BCC",
            Mnemonic::Bcs => "BCS",
            Mnemonic::Beq => "BEQ",
            Mnemonic::Bit => "BIT",
            Mnemonic::Bmi => "BMI",
            Mnemonic::Bne => "BNE",
            Mnemonic::Bpl => "BPL",
            Mnemonic::Brk => "BRK",
            Mnemonic::Bvc => "BVC",
            Mnemonic::Bvs => "BVS",
            Mnemonic::Clc => "CLC",
            Mnemonic::Cld => "CLD",
            Mnemonic::Cli => "CLI",
            Mnemonic::Clv => "CLV",
            Mnemonic::Cmp => "CMP",
            Mnemonic::Cpx => "CPX",
            Mnemonic::Cpy => "CPY",
            Mnemonic::Dec => "DEC",
            Mnemonic::Dex => "DEX",
            Mnemonic::Dey => "DEY",
            Mnemonic::Eor => "EOR",
            Mnemonic::Inc => "INC",
            Mnemonic::Inx => "INX",
            Mnemonic::Iny => "INY",
            Mnemonic::Jmp => "JMP",
            Mnemonic::Jsr => "JSR",
            Mnemonic::Lda => "LDA",
            Mnemonic::Ldx => "LDX",
            Mnemonic::Ldy => "LDY",
            Mnemonic::Lsr => "LSR",
            Mnemonic::Nop => "NOP",
            Mnemonic::Ora => "ORA",
            Mnemonic::Pha => "PHA",
            Mnemonic::Php => "PHP",
            Mnemonic::Pla => "PLA",
            Mnemonic::Plp => "PLP",
            Mnemonic::Rol => "ROL",
            Mnemonic::Ror => "ROR",
            Mnemonic::Rti => "RTI",
            Mnemonic::Rts => "RTS",
            Mnemonic::Sbc => "SBC",
            Mnemonic::Sec => "SEC",
            Mnemonic::Sed => "SED",
            Mnemonic::Sei => "SEI",
            Mnemonic::Sta => "STA",
            Mnemonic::Stx => "STX",
            Mnemonic::Sty => "STY",
            Mnemonic::Tax => "TAX",
            Mnemonic::Tay => "TAY",
            Mnemonic::Tsx => "TSX",
            Mnemonic::Txa => "TXA",
            Mnemonic::Txs => "TXS",
            Mnemonic::Tya => "TYA",
            Mnemonic::Unknown => "???",
        }
    }
}

/// The opcode table.
pub open spec fn opcode_spec(op: u8) -> (Mnemonic, Mode) {
    match op {
        0x00 => (Mnemonic::Brk, Mode::Imp),
        0x01 => (Mnemonic::Ora, Mode::IzX),
        0x04 => (Mnemonic::UnofficialNop, Mode::Zp),
        0x05 => (Mnemonic::Ora, Mode::Zp),
        0x06 => (Mnemonic::Asl, Mode::Zp),
        0x08 => (Mnemonic::Php, Mode::Imp),
        0x09 => (Mnemonic::Ora, Mode::Imm),
        0x0A => (Mnemonic::Asl, Mode::Acc),
        0x0C => (Mnemonic::UnofficialNop, Mode::Abs),
        0x0D => (Mnemonic::Ora, Mode::Abs),
        0x0E => (Mnemonic::Asl, Mode::Abs),
        0x10 => (Mnemonic::Bpl, Mode::Rel),
        0x11 => (Mnemonic::Ora, Mode::IzY),
        0x14 => (Mnemonic::UnofficialNop, Mode::ZpX),
        0x15 => (Mnemonic::Ora, Mode::ZpX),
        0x16 => (Mnemonic::Asl, Mode::ZpX),
        0x18 => (Mnemonic::Clc, Mode::Imp),
        0x19 => (Mnemonic::Ora, Mode::AbsY),
        0x1A => (Mnemonic::UnofficialNop, Mode::Imp),
        0x1C => (Mnemonic::UnofficialNop, Mode::AbsX),
        0x1D => (Mnemonic::Ora, Mode::AbsX),
        0x1E => (Mnemonic::Asl, Mode::AbsX),
        0x20 => (Mnemonic::Jsr, Mode::Abs),
        0x21 => (Mnemonic::And, Mode::IzX),
        0x24 => (Mnemonic::Bit, Mode::Zp),
        0x25 => (Mnemonic::And, Mode::Zp),
        0x26 => (Mnemonic::Rol, Mode::Zp),
        0x28 => (Mnemonic::Plp, Mode::Imp),
        0x29 => (Mnemonic::And, Mode::Imm),
        0x2A => (Mnemonic::Rol, Mode::Acc),
        0x2C => (Mnemonic::Bit, Mode::Abs),
        0x2D => (Mnemonic::And, Mode::Abs),
        0x2E => (Mnemonic::Rol, Mode::Abs),
        0x30 => (Mnemonic::Bmi, Mode::Rel),
        0x31 => (Mnemonic::And, Mode::IzY),
        0x34 => (Mnemonic::UnofficialNop, Mode::ZpX),
        0x35 => (Mnemonic::And, Mode::ZpX),
        0x36 => (Mnemonic::Rol, Mode::ZpX),
        0x38 => (Mnemonic::Sec, Mode::Imp),
        0x39 => (Mnemonic::And, Mode::AbsY),
        0x3A => (Mnemonic::UnofficialNop, Mode::Imp),
        0x3C => (Mnemonic::UnofficialNop, Mode::AbsX),
        0x3D => (Mnemonic::And, Mode::AbsX),
        0x3E => (Mnemonic::Rol, Mode::AbsX),
        0x40 => (Mnemonic::Rti, Mode::Imp),
        0x41 => (Mnemonic::Eor, Mode::IzX),
        0x44 => (Mnemonic::UnofficialNop, Mode::Zp),
        0x45 => (Mnemonic::Eor, Mode::Zp),
        0x46 => (Mnemonic::Lsr, Mode::Zp),
        0x48 => (Mnemonic::Pha, Mode::Imp),
        0x49 => (Mnemonic::Eor, Mode::Imm),
        0x4A => (Mnemonic::Lsr, Mode::Acc),
        0x4C => (Mnemonic::Jmp, Mode::Abs),
        0x4D => (Mnemonic::Eor, Mode::Abs),
        0x4E => (Mnemonic::Lsr, Mode::Abs),
        0x50 => (Mnemonic::Bvc, Mode::Rel),
        0x51 => (Mnemonic::Eor, Mode::IzY),
        0x54 => (Mnemonic::UnofficialNop, Mode::ZpX),
        0x55 => (Mnemonic::Eor, Mode::ZpX),
        0x56 => (Mnemonic::Lsr, Mode::ZpX),
        0x58 => (Mnemonic::Cli, Mode::Imp),
        0x59 => (Mnemonic::Eor, Mode::AbsY),
        0x5A => (Mnemonic::UnofficialNop, Mode::Imp),
        0x5C => (Mnemonic::UnofficialNop, Mode::AbsX),
        0x5D => (Mnemonic::Eor, Mode::AbsX),
        0x5E => (Mnemonic::Lsr, Mode::AbsX),
        0x60 => (Mnemonic::Rts, Mode::Imp),
        0x61 => (Mnemonic::Adc, Mode::IzX),
        0x64 => (Mnemonic::UnofficialNop, Mode::Zp),
        0x65 => (Mnemonic::Adc, Mode::Zp),
        0x66 => (Mnemonic::Ror, Mode::Zp),
        0x68 => (Mnemonic::Pla, Mode::Imp),
        0x69 => (Mnemonic::Adc, Mode::Imm),
        0x6A => (Mnemonic::Ror, Mode::Acc),
        0x6C => (Mnemonic::Jmp, Mode::Ind),
        0x6D => (Mnemonic::Adc, Mode::Abs),
        0x6E => (Mnemonic::Ror, Mode::Abs),
        0x70 => (Mnemonic::Bvs, Mode::Rel),
        0x71 => (Mnemonic::Adc, Mode::IzY),
        0x74 => (Mnemonic::UnofficialNop, Mode::ZpX),
        0x75 => (Mnemonic::Adc, Mode::ZpX),
        0x76 => (Mnemonic::Ror, Mode::ZpX),
        0x78 => (Mnemonic::Sei, Mode::Imp),
        0x79 => (Mnemonic::Adc, Mode::AbsY),
        0x7A => (Mnemonic::UnofficialNop, Mode::Imp),
        0x7C => (Mnemonic::UnofficialNop, Mode::AbsX),
        0x7D => (Mnemonic::Adc, Mode::AbsX),
        0x7E => (Mnemonic::Ror, Mode::AbsX),
        0x80 => (Mnemonic::UnofficialNop, Mode::Imm),
        0x81 => (Mnemonic::Sta, Mode::IzX),
        0x82 => (Mnemonic::UnofficialNop, Mode::Imm),
        0x83 => (Mnemonic::UnofficialSax, Mode::IzX),
        0x84 => (Mnemonic::Sty, Mode::Zp),
        0x85 => (Mnemonic::Sta, Mode::Zp),
        0x86 => (Mnemonic::Stx, Mode::Zp),
        0x87 => (Mnemonic::UnofficialSax, Mode::Zp),
        0x88 => (Mnemonic::Dey, Mode::Imp),
        0x89 => (Mnemonic::UnofficialNop, Mode::Imm),
        0x8A => (Mnemonic::Txa, Mode::Imp),
        0x8C => (Mnemonic::Sty, Mode::Abs),
        0x8D => (Mnemonic::Sta, Mode::Abs),
        0x8E => (Mnemonic::Stx, Mode::Abs),
        0x8F => (Mnemonic::UnofficialSax, Mode::Abs),
        0x90 => (Mnemonic::Bcc, Mode::Rel),
        0x91 => (Mnemonic::Sta, Mode::IzY),
        0x94 => (Mnemonic::Sty, Mode::ZpX),
        0x95 => (Mnemonic::Sta, Mode::ZpX),
        0x96 => (Mnemonic::Stx, Mode::ZpY),
        0x97 => (Mnemonic::UnofficialSax, Mode::ZpY),
        0x98 => (Mnemonic::Tya, Mode::Imp),
        0x99 => (Mnemonic::Sta, Mode::AbsY),
        0x9A => (Mnemonic::Txs, Mode::Imp),
        0x9D => (Mnemonic::Sta, Mode::AbsX),
        0xA0 => (Mnemonic::Ldy, Mode::Imm),
        0xA1 => (Mnemonic::Lda, Mode::IzX),
        0xA2 => (Mnemonic::Ldx, Mode::Imm),
        0xA3 => (Mnemonic::UnofficialLax, Mode::IzX),
        0xA4 => (Mnemonic::Ldy, Mode::Zp),
        0xA5 => (Mnemonic::Lda, Mode::Zp),
        0xA6 => (Mnemonic::Ldx, Mode::Zp),
        0xA7 => (Mnemonic::UnofficialLax, Mode::Zp),
        0xA8 => (Mnemonic::Tay, Mode::Imp),
        0xA9 => (Mnemonic::Lda, Mode::Imm),
        0xAA => (Mnemonic::Tax, Mode::Imp),
        0xAC => (Mnemonic::Ldy, Mode::Abs),
        0xAD => (Mnemonic::Lda, Mode::Abs),
        0xAE => (Mnemonic::Ldx, Mode::Abs),
        0xAF => (Mnemonic::UnofficialLax, Mode::Abs),
        0xB0 => (Mnemonic::Bcs, Mode::Rel),
        0xB1 => (Mnemonic::Lda, Mode::IzY),
        0xB3 => (Mnemonic::UnofficialLax, Mode::IzY),
        0xB4 => (Mnemonic::Ldy, Mode::ZpX),
        0xB5 => (Mnemonic::Lda, Mode::ZpX),
        0xB6 => (Mnemonic::Ldx, Mode::ZpY),
        0xB7 => (Mnemonic::UnofficialLax, Mode::ZpY),
        0xB8 => (Mnemonic::Clv, Mode::Imp),
        0xB9 => (Mnemonic::Lda, Mode::AbsY),
        0xBA => (Mnemonic::Tsx, Mode::Imp),
        0xBC => (Mnemonic::Ldy, Mode::AbsX),
        0xBD => (Mnemonic::Lda, Mode::AbsX),
        0xBE => (Mnemonic::Ldx, Mode::AbsY),
        0xBF => (Mnemonic::UnofficialLax, Mode::AbsY),
        0xC0 => (Mnemonic::Cpy, Mode::Imm),
        0xC1 => (Mnemonic::Cmp, Mode::IzX),
        0xC2 => (Mnemonic::UnofficialNop, Mode::Imm),
        0xC4 => (Mnemonic::Cpy, Mode::Zp),
        0xC5 => (Mnemonic::Cmp, Mode::Zp),
        0xC6 => (Mnemonic::Dec, Mode::Zp),
        0xC8 => (Mnemonic::Iny, Mode::Imp),
        0xC9 => (Mnemonic::Cmp, Mode::Imm),
        0xCA => (Mnemonic::Dex, Mode::Imp),
        0xCC => (Mnemonic::Cpy, Mode::Abs),
        0xCD => (Mnemonic::Cmp, Mode::Abs),
        0xCE => (Mnemonic::Dec, Mode::Abs),
        0xD0 => (Mnemonic::Bne, Mode::Rel),
        0xD1 => (Mnemonic::Cmp, Mode::IzY),
        0xD4 => (Mnemonic::UnofficialNop, Mode::ZpX),
        0xD5 => (Mnemonic::Cmp, Mode::ZpX),
        0xD6 => (Mnemonic::Dec, Mode::ZpX),
        0xD8 => (Mnemonic::Cld, Mode::Imp),
        0xD9 => (Mnemonic::Cmp, Mode::AbsY),
        0xDA => (Mnemonic::UnofficialNop, Mode::Imp),
        0xDC => (Mnemonic::UnofficialNop, Mode::AbsX),
        0xDD => (Mnemonic::Cmp, Mode::AbsX),
        0xDE => (Mnemonic::Dec, Mode::AbsX),
        0xE0 => (Mnemonic::Cpx, Mode::Imm),
        0xE1 => (Mnemonic::Sbc, Mode::IzX),
        0xE2 => (Mnemonic::UnofficialNop, Mode::Imm),
        0xE4 => (Mnemonic::Cpx, Mode::Zp),
        0xE5 => (Mnemonic::Sbc, Mode::Zp),
        0xE6 => (Mnemonic::Inc, Mode::Zp),
        0xE8 => (Mnemonic::Inx, Mode::Imp),
        0xE9 => (Mnemonic::Sbc, Mode::Imm),
        0xEA => (Mnemonic::Nop, Mode::Imp),
        0xEB => (Mnemonic::UnofficialSbc, Mode::Imm),
        0xEC => (Mnemonic::Cpx, Mode::Abs),
        0xED => (Mnemonic::Sbc, Mode::Abs),
        0xEE => (Mnemonic::Inc, Mode::Abs),
        0xF0 => (Mnemonic::Beq, Mode::Rel),
        0xF1 => (Mnemonic::Sbc, Mode::IzY),
        0xF4 => (Mnemonic::UnofficialNop, Mode::ZpX),
        0xF5 => (Mnemonic::Sbc, Mode::ZpX),
        0xF6 => (Mnemonic::Inc, Mode::ZpX),
        0xF8 => (Mnemonic::Sed, Mode::Imp),
        0xF9 => (Mnemonic::Sbc, Mode::AbsY),
        0xFA => (Mnemonic::UnofficialNop, Mode::Imp),
        0xFC => (Mnemonic::UnofficialNop, Mode::AbsX),
        0xFD => (Mnemonic::Sbc, Mode::AbsX),
        0xFE => (Mnemonic::Inc, Mode::AbsX),
        _ => (Mnemonic::Unknown, Mode::Imp),
    }
}

/// Mnemonic and addressing mode of an opcode (table lookup).
pub fn opcode(op: u8) -> (r: (Mnemonic, Mode))
    ensures r == opcode_spec(op),
{
    match op {
        0x00 => (Mnemonic::Brk, Mode::Imp),
        0x01 => (Mnemonic::Ora, Mode::IzX),
        0x04 => (Mnemonic::UnofficialNop, Mode::Zp),
        0x05 => (Mnemonic::Ora, Mode::Zp),
        0x06 => (Mnemonic::Asl, Mode::Zp),
        0x08 => (Mnemonic::Php, Mode::Imp),
        0x09 => (Mnemonic::Ora, Mode::Imm),
        0x0A => (Mnemonic::Asl, Mode::Acc),
        0x0C => (Mnemonic::UnofficialNop, Mode::Abs),
        0x0D => (Mnemonic::Ora, Mode::Abs),
        0x0E => (Mnemonic::Asl, Mode::Abs),
        0x10 => (Mnemonic::Bpl, Mode::Rel),
        0x11 => (Mnemonic::Ora, Mode::IzY),
        0x14 => (Mnemonic::UnofficialNop, Mode::ZpX),
        0x15 => (Mnemonic::Ora, Mode::ZpX),
        0x16 => (Mnemonic::Asl, Mode::ZpX),
        0x18 => (Mnemonic::Clc, Mode::Imp),
        0x19 => (Mnemonic::Ora, Mode::AbsY),
        0x1A => (Mnemonic::UnofficialNop, Mode::Imp),
        0x1C => (Mnemonic::UnofficialNop, Mode::AbsX),
        0x1D => (Mnemonic::Ora, Mode::AbsX),
        0x1E => (Mnemonic::Asl, Mode::AbsX),
        0x20 => (Mnemonic::Jsr, Mode::Abs),
        0x21 => (Mnemonic::And, Mode::IzX),
        0x24 => (Mnemonic::Bit, Mode::Zp),
        0x25 => (Mnemonic::And, Mode::Zp),
        0x26 => (Mnemonic::Rol, Mode::Zp),
        0x28 => (Mnemonic::Plp, Mode::Imp),
        0x29 => (Mnemonic::And, Mode::Imm),
        0x2A => (Mnemonic::Rol, Mode::Acc),
        0x2C => (Mnemonic::Bit, Mode::Abs),
        0x2D => (Mnemonic::And, Mode::Abs),
        0x2E => (Mnemonic::Rol, Mode::Abs),
        0x30 => (Mnemonic::Bmi, Mode::Rel),
        0x31 => (Mnemonic::And, Mode::IzY),
        0x34 => (Mnemonic::UnofficialNop, Mode::ZpX),
        0x35 => (Mnemonic::And, Mode::ZpX),
        0x36 => (Mnemonic::Rol, Mode::ZpX),
        0x38 => (Mnemonic::Sec, Mode::Imp),
        0x39 => (Mnemonic::And, Mode::AbsY),
        0x3A => (Mnemonic::UnofficialNop, Mode::Imp),
        0x3C => (Mnemonic::UnofficialNop, Mode::AbsX),
        0x3D => (Mnemonic::And, Mode::AbsX),
        0x3E => (Mnemonic::Rol, Mode::AbsX),
        0x40 => (Mnemonic::Rti, Mode::Imp),
        0x41 => (Mnemonic::Eor, Mode::IzX),
        0x44 => (Mnemonic::UnofficialNop, Mode::Zp),
        0x45 => (Mnemonic::Eor, Mode::Zp),
        0x46 => (Mnemonic::Lsr, Mode::Zp),
        0x48 => (Mnemonic::Pha, Mode::Imp),
        0x49 => (Mnemonic::Eor, Mode::Imm),
        0x4A => (Mnemonic::Lsr, Mode::Acc),
        0x4C => (Mnemonic::Jmp, Mode::Abs),
        0x4D => (Mnemonic::Eor, Mode::Abs),
        0x4E => (Mnemonic::Lsr, Mode::Abs),
        0x50 => (Mnemonic::Bvc, Mode::Rel),
        0x51 => (Mnemonic::Eor, Mode::IzY),
        0x54 => (Mnemonic::UnofficialNop, Mode::ZpX),
        0x55 => (Mnemonic::Eor, Mode::ZpX),
        0x56 => (Mnemonic::Lsr, Mode::ZpX),
        0x58 => (Mnemonic::Cli, Mode::Imp),
        0x59 => (Mnemonic::Eor, Mode::AbsY),
        0x5A => (Mnemonic::UnofficialNop, Mode::Imp),
        0x5C => (Mnemonic::UnofficialNop, Mode::AbsX),
        0x5D => (Mnemonic::Eor, Mode::AbsX),
        0x5E => (Mnemonic::Lsr, Mode::AbsX),
        0x60 => (Mnemonic::Rts, Mode::Imp),
        0x61 => (Mnemonic::Adc, Mode::IzX),
        0x64 => (Mnemonic::UnofficialNop, Mode::Zp),
        0x65 => (Mnemonic::Adc, Mode::Zp),
        0x66 => (Mnemonic::Ror, Mode::Zp),
        0x68 => (Mnemonic::Pla, Mode::Imp),
        0x69 => (Mnemonic::Adc, Mode::Imm),
        0x6A => (Mnemonic::Ror, Mode::Acc),
        0x6C => (Mnemonic::Jmp, Mode::Ind),
        0x6D => (Mnemonic::Adc, Mode::Abs),
        0x6E => (Mnemonic::Ror, Mode::Abs),
        0x70 => (Mnemonic::Bvs, Mode::Rel),
        0x71 => (Mnemonic::Adc, Mode::IzY),
        0x74 => (Mnemonic::UnofficialNop, Mode::ZpX),
        0x75 => (Mnemonic::Adc, Mode::ZpX),
        0x76 => (Mnemonic::Ror, Mode::ZpX),
        0x78 => (Mnemonic::Sei, Mode::Imp),
        0x79 => (Mnemonic::Adc, Mode::AbsY),
        0x7A => (Mnemonic::UnofficialNop, Mode::Imp),
        0x7C => (Mnemonic::UnofficialNop, Mode::AbsX),
        0x7D => (Mnemonic::Adc, Mode::AbsX),
        0x7E => (Mnemonic::Ror, Mode::AbsX),
        0x80 => (Mnemonic::UnofficialNop, Mode::Imm),
        0x81 => (Mnemonic::Sta, Mode::IzX),
        0x82 => (Mnemonic::UnofficialNop, Mode::Imm),
        0x83 => (Mnemonic::UnofficialSax, Mode::IzX),
        0x84 => (Mnemonic::Sty, Mode::Zp),
        0x85 => (Mnemonic::Sta, Mode::Zp),
        0x86 => (Mnemonic::Stx, Mode::Zp),
        0x87 => (Mnemonic::UnofficialSax, Mode::Zp),
        0x88 => (Mnemonic::Dey, Mode::Imp),
        0x89 => (Mnemonic::UnofficialNop, Mode::Imm),
        0x8A => (Mnemonic::Txa, Mode::Imp),
        0x8C => (Mnemonic::Sty, Mode::Abs),
        0x8D => (Mnemonic::Sta, Mode::Abs),
        0x8E => (Mnemonic::Stx, Mode::Abs),
        0x8F => (Mnemonic::UnofficialSax, Mode::Abs),
        0x90 => (Mnemonic::Bcc, Mode::Rel),
        0x91 => (Mnemonic::Sta, Mode::IzY),
        0x94 => (Mnemonic::Sty, Mode::ZpX),
        0x95 => (Mnemonic::Sta, Mode::ZpX),
        0x96 => (Mnemonic::Stx, Mode::ZpY),
        0x97 => (Mnemonic::UnofficialSax, Mode::ZpY),
        0x98 => (Mnemonic::Tya, Mode::Imp),
        0x99 => (Mnemonic::Sta, Mode::AbsY),
        0x9A => (Mnemonic::Txs, Mode::Imp),
        0x9D => (Mnemonic::Sta, Mode::AbsX),
        0xA0 => (Mnemonic::Ldy, Mode::Imm),
        0xA1 => (Mnemonic::Lda, Mode::IzX),
        0xA2 => (Mnemonic::Ldx, Mode::Imm),
        0xA3 => (Mnemonic::UnofficialLax, Mode::IzX),
        0xA4 => (Mnemonic::Ldy, Mode::Zp),
        0xA5 => (Mnemonic::Lda, Mode::Zp),
        0xA6 => (Mnemonic::Ldx, Mode::Zp),
        0xA7 => (Mnemonic::UnofficialLax, Mode::Zp),
        0xA8 => (Mnemonic::Tay, Mode::Imp),
        0xA9 => (Mnemonic::Lda, Mode::Imm),
        0xAA => (Mnemonic::Tax, Mode::Imp),
        0xAC => (Mnemonic::Ldy, Mode::Abs),
        0xAD => (Mnemonic::Lda, Mode::Abs),
        0xAE => (Mnemonic::Ldx, Mode::Abs),
        0xAF => (Mnemonic::UnofficialLax, Mode::Abs),
        0xB0 => (Mnemonic::Bcs, Mode::Rel),
        0xB1 => (Mnemonic::Lda, Mode::IzY),
        0xB3 => (Mnemonic::UnofficialLax, Mode::IzY),
        0xB4 => (Mnemonic::Ldy, Mode::ZpX),
        0xB5 => (Mnemonic::Lda, Mode::ZpX),
        0xB6 => (Mnemonic::Ldx, Mode::ZpY),
        0xB7 => (Mnemonic::UnofficialLax, Mode::ZpY),
        0xB8 => (Mnemonic::Clv, Mode::Imp),
        0xB9 => (Mnemonic::Lda, Mode::AbsY),
        0xBA => (Mnemonic::Tsx, Mode::Imp),
        0xBC => (Mnemonic::Ldy, Mode::AbsX),
        0xBD => (Mnemonic::Lda, Mode::AbsX),
        0xBE => (Mnemonic::Ldx, Mode::AbsY),
        0xBF => (Mnemonic::UnofficialLax, Mode::AbsY),
        0xC0 => (Mnemonic::Cpy, Mode::Imm),
        0xC1 => (Mnemonic::Cmp, Mode::IzX),
        0xC2 => (Mnemonic::UnofficialNop, Mode::Imm),
        0xC4 => (Mnemonic::Cpy, Mode::Zp),
        0xC5 => (Mnemonic::Cmp, Mode::Zp),
        0xC6 => (Mnemonic::Dec, Mode::Zp),
        0xC8 => (Mnemonic::Iny, Mode::Imp),
        0xC9 => (Mnemonic::Cmp, Mode::Imm),
        0xCA => (Mnemonic::Dex, Mode::Imp),
        0xCC => (Mnemonic::Cpy, Mode::Abs),
        0xCD => (Mnemonic::Cmp, Mode::Abs),
        0xCE => (Mnemonic::Dec, Mode::Abs),
        0xD0 => (Mnemonic::Bne, Mode::Rel),
        0xD1 => (Mnemonic::Cmp, Mode::IzY),
        0xD4 => (Mnemonic::UnofficialNop, Mode::ZpX),
        0xD5 => (Mnemonic::Cmp, Mode::ZpX),
        0xD6 => (Mnemonic::Dec, Mode::ZpX),
        0xD8 => (Mnemonic::Cld, Mode::Imp),
        0xD9 => (Mnemonic::Cmp, Mode::AbsY),
        0xDA => (Mnemonic::UnofficialNop, Mode::Imp),
        0xDC => (Mnemonic::UnofficialNop, Mode::AbsX),
        0xDD => (Mnemonic::Cmp, Mode::AbsX),
        0xDE => (Mnemonic::Dec, Mode::AbsX),
        0xE0 => (Mnemonic::Cpx, Mode::Imm),
        0xE1 => (Mnemonic::Sbc, Mode::IzX),
        0xE2 => (Mnemonic::UnofficialNop, Mode::Imm),
        0xE4 => (Mnemonic::Cpx, Mode::Zp),
        0xE5 => (Mnemonic::Sbc, Mode::Zp),
        0xE6 => (Mnemonic::Inc, Mode::Zp),
        0xE8 => (Mnemonic::Inx, Mode::Imp),
        0xE9 => (Mnemonic::Sbc, Mode::Imm),
        0xEA => (Mnemonic::Nop, Mode::Imp),
        0xEB => (Mnemonic::UnofficialSbc, Mode::Imm),
        0xEC => (Mnemonic::Cpx, Mode::Abs),
        0xED => (Mnemonic::Sbc, Mode::Abs),
        0xEE => (Mnemonic::Inc, Mode::Abs),
        0xF0 => (Mnemonic::Beq, Mode::Rel),
        0xF1 => (Mnemonic::Sbc, Mode::IzY),
        0xF4 => (Mnemonic::UnofficialNop, Mode::ZpX),
        0xF5 => (Mnemonic::Sbc, Mode::ZpX),
        0xF6 => (Mnemonic::Inc, Mode::ZpX),
        0xF8 => (Mnemonic::Sed, Mode::Imp),
        0xF9 => (Mnemonic::Sbc, Mode::AbsY),
        0xFA => (Mnemonic::UnofficialNop, Mode::Imp),
        0xFC => (Mnemonic::UnofficialNop, Mode::AbsX),
        0xFD => (Mnemonic::Sbc, Mode::AbsX),
        0xFE => (Mnemonic::Inc, Mode::AbsX),
        _ => (Mnemonic::Unknown, Mode::Imp),
    }
}

/// `(mnemonic, addressing mode)` for an opcode.
pub fn decode(op: u8) -> (r: (&'static str, Mode))
    ensures r.0.spec_bytes() == mnemonic_text(opcode_spec(op).0), r.1 == opcode_spec(op).1,
{
    let (m, mode) = opcode(op);
    (m.text(), mode)
}

/// Little-endian operand word.
pub fn operand_word(lo: u8, hi: u8) -> (r: u16)
    ensures r == hi as int * 256 + lo as int,
{
    (hi as u16) * 256 + (lo as u16)
}

/// Branch target of a relative branch at `addr` with offset byte `b1`:
/// the address after the 2-byte instruction plus the signed offset, modulo
/// 64 KiB.
pub fn branch_target(addr: u16, b1: u8) -> (r: u16)
    ensures r == (addr + 2 + (if b1 >= 0x80 { b1 - 256 } else { b1 as int })) % 0x10000,
{
    let base = addr.wrapping_add(2);
    if b1 >= 0x80 {
        base.wrapping_sub(256 - b1 as u16)
    } else {
        base.wrapping_add(b1 as u16)
    }
}

/// Address of the instruction following one at `addr` of length `size`
/// (at least one byte), modulo 64 KiB.
pub fn next_instruction(addr: u16, size: u16) -> (r: u16)
    ensures r == (addr + (if size == 0 { 1 } else { size as int })) % 0x10000,
{
    addr.wrapping_add(if size == 0 { 1 } else { size })
}

/// Upper-case hex digit.
pub open spec fn hex_char(d: int) -> u8 {
    if d < 10 { (0x30 + d) as u8 } else { (0x41 + d - 10) as u8 }
}

pub open spec fn hex2(b: int) -> Seq<u8> {
    seq![hex_char((b / 16) % 16), hex_char(b % 16)]
}

pub open spec fn hex4(w: int) -> Seq<u8> {
    hex2((w / 256) % 256) + hex2(w % 256)
}

/// The operand column of a listing line.
pub open spec fn operand_text(mode: Mode, addr: u16, b1: u8, b2: u8) -> Seq<u8> {
    let w = b2 as int * 256 + b1 as int;
    match mode {
        Mode::Imp => Seq::empty(),
        Mode::Acc => seq![0x41u8],
        Mode::Imm => seq![0x23u8, 0x24] + hex2(b1 as int),
        Mode::Zp => seq![0x24u8] + hex2(b1 as int),
        Mode::ZpX => seq![0x24u8] + hex2(b1 as int) + seq![0x2Cu8, 0x58],
        Mode::ZpY => seq![0x24u8] + hex2(b1 as int) + seq![0x2Cu8, 0x59],
        Mode::Abs => seq![0x24u8] + hex4(w),
        Mode::AbsX => seq![0x24u8] + hex4(w) + seq![0x2Cu8, 0x58],
        Mode::AbsY => seq![0x24u8] + hex4(w) + seq![0x2Cu8, 0x59],
        Mode::Ind => seq![0x28u8, 0x24] + hex4(w) + seq![0x29u8],
        Mode::IzX => seq![0x28u8, 0x24] + hex2(b1 as int) + seq![0x2Cu8, 0x58, 0x29],
        Mode::IzY => seq![0x28u8, 0x24] + hex2(b1 as int) + seq![0x29u8, 0x2C, 0x59],
        Mode::Rel => seq![0x24u8] + hex4((addr + 2 + (if b1 >= 0x80 { b1 - 256 } else { b1 as int })) % 0x10000),
    }
}

/// A listing line `$AAAA: MNE operand` (no operand column for implied
/// instructions).
pub open spec fn listing_line(addr: u16, op: u8, b1: u8, b2: u8) -> Seq<u8> {
    let (m, mode) = opcode_spec(op);
    let head = seq![0x24u8] + hex4(addr as int) + seq![0x3Au8, 0x20] + mnemonic_text(m);
    let operand = operand_text(mode, addr, b1, b2);
    if operand.len() == 0 { head } else { head + seq![0x20u8] + operand }
}

fn push_hex_digit(out: &mut Vec<u8>, d: u8)
    requires d < 16,
    ensures final(out)@ == old(out)@.push(hex_char(d as int)),
{
    out.push(if d < 10 { 0x30 + d } else { 0x41 + d - 10 });
}

fn push_hex2(out: &mut Vec<u8>, b: u8)
    ensures final(out)@ == old(out)@ + hex2(b as int),
{
    push_hex_digit(out, b / 16);
    push_hex_digit(out, b % 16);
    assert(final(out)@ =~= old(out)@ + hex2(b as int));
}

fn push_hex4(out: &mut Vec<u8>, w: u16)
    ensures final(out)@ == old(out)@ + hex4(w as int),
{
    push_hex2(out, (w / 256) as u8);
    push_hex2(out, (w % 256) as u8);
    assert(final(out)@ =~= old(out)@ + hex4(w as int));
}

fn push_bytes(out: &mut Vec<u8>, s: &[u8])
    ensures final(out)@ == old(out)@ + s@,
{
    let mut i: usize = 0;
    while i < s.len()
        invariant i <= s@.len(), out@ == old(out)@ + s@.take(i as int),
        decreases s@.len() - i,
    {
        out.push(s[i]);
        assert(out@ =~= old(out)@ + s@.take(i + 1));
        i += 1;
    }
    assert(s@.take(s@.len() as int) =~= s@);
}

fn push_operand(out: &mut Vec<u8>, mode: Mode, addr: u16, b1: u8, b2: u8)
    ensures final(out)@ == old(out)@ + operand_text(mode, addr, b1, b2),
{
    let w = operand_word(b1, b2);
    match mode {
        Mode::Imp => {},
        Mode::Acc => out.push(0x41),
        Mode::Imm => {
            out.push(0x23);
            out.push(0x24);
            push_hex2(out, b1);
        },
        Mode::Zp => {
            out.push(0x24);
            push_hex2(out, b1);
        },
        Mode::ZpX | Mode::ZpY => {
            out.push(0x24);
            push_hex2(out, b1);
            out.push(0x2C);
            out.push(if mode == Mode::ZpX { 0x58 } else { 0x59 });
        },
        Mode::Abs => {
            out.push(0x24);
            push_hex4(out, w);
        },
        Mode::AbsX | Mode::AbsY => {
            out.push(0x24);
            push_hex4(out, w);
            out.push(0x2C);
            out.push(if mode == Mode::AbsX { 0x58 } else { 0x59 });
        },
        Mode::Ind => {
            out.push(0x28);
            out.push(0x24);
            push_hex4(out, w);
            out.push(0x29);
        },
        Mode::IzX => {
            out.push(0x28);
            out.push(0x24);
            push_hex2(out, b1);
            out.push(0x2C);
            out.push(0x58);
            out.push(0x29);
        },
        Mode::IzY => {
            out.push(0x28);
            out.push(0x24);
            push_hex2(out, b1);
            out.push(0x29);
            out.push(0x2C);
            out.push(0x59);
        },
        Mode::Rel => {
            out.push(0x24);
            push_hex4(out, branch_target(addr, b1));
        },
    }
    assert(final(out)@ =~= old(out)@ + operand_text(mode, addr, b1, b2));
}

/// One disassembly line for the instruction whose bytes are `op`, `b1`,
/// `b2` at `addr` (ASCII text), and the instruction's length.
pub fn disassemble_bytes(addr: u16, op: u8, b1: u8, b2: u8) -> (r: (Vec<u8>, u16))
    ensures r.0@ == listing_line(addr, op, b1, b2), r.1 == mode_len(opcode_spec(op).1),
{
    let (name, mode) = decode(op);
    let mut out: Vec<u8> = Vec::new();
    out.push(0x24);
    push_hex4(&mut out, addr);
    out.push(0x3A);
    out.push(0x20);
    push_bytes(&mut out, name.as_bytes());
    let ghost head = out@;
    if mode != Mode::Imp {
        out.push(0x20);
        push_operand(&mut out, mode, addr, b1, b2);
    }
    proof {
        let (m, md) = opcode_spec(op);
        assert(head =~= seq![0x24u8] + hex4(addr as int) + seq![0x3Au8, 0x20] + mnemonic_text(m));
        if mode == Mode::Imp {
            assert(operand_text(md, addr, b1, b2).len() == 0);
        } else {
            assert(operand_text(md, addr, b1, b2).len() > 0);
            assert(out@ =~= head + seq![0x20u8] + operand_text(md, addr, b1, b2));
        }
    }
    (out, mode.len())
}

} // verus!
