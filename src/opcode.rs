use vstd::prelude::*;

verus! {

/// The mnemonics that the table knows.
#[allow(non_camel_case_types, clippy::upper_case_acronyms)]
#[derive(Debug, Clone, Copy, PartialEq, Eq, Structural)]
pub enum Instruction {
    ADC,
    AND,
    ASL,
    BCC,
    BCS,
    BEQ,
    BIT,
    BMI,
    BNE,
    BPL,
    BRK,
    BVC,
    BVS,
    CLC,
    CLD,
    CLI,
    CLV,
    CMP,
    CPX,
    CPY,
    DEC,
    DEX,
    DEY,
    EOR,
    INC,
    INX,
    INY,
    JMP,
    JSR,
    LDA,
    LDX,
    LDY,
    LSR,
    NOP,
    ORA,
    PHA,
    PHP,
    PLA,
    PLP,
    ROL,
    ROR,
    RTI,
    RTS,
    SBC,
    SEC,
    SED,
    SEI,
    STA,
    STX,
    STY,
    TAX,
    TAY,
    TSX,
    TXA,
    TXS,
    TYA,
    /// Loads A and X with the same byte (an undocumented opcode).
    LAX,
    /// An opcode byte without a table entry.
    XXX,
}

/// How an instruction finds its operand.
#[derive(Debug, Clone, Copy, PartialEq, Eq, Structural)]
pub enum AddressMode {
    Accumulator,
    Absolute,
    AbsoluteXIndexed,
    AbsoluteYIndexed,
    Immediate,
    Implied,
    Indirect,
    IndirectXIndexed,
    IndirectYIndexed,
    Relative,
    Zeropage,
    ZeropageXIndexed,
    ZeropageYIndexed,
}

/// One entry of the opcode table.
#[derive(Debug, Clone, Copy, PartialEq, Eq, Structural)]
pub struct Opcode {
    pub inst: Instruction,
    pub addr: AddressMode,
    pub cycles: u8,
}

pub open spec fn is_read_modify_write(inst: Instruction) -> bool {
    matches!(inst, Instruction::ASL | Instruction::LSR | Instruction::ROL | Instruction::ROR
        | Instruction::INC | Instruction::DEC)
}

pub open spec fn is_store(inst: Instruction) -> bool {
    matches!(inst, Instruction::STA | Instruction::STX | Instruction::STY)
}

/// The documented 6502 cycle cost of `inst` in addressing mode `mode`, before
/// any page-cross or branch penalty.
pub open spec fn reference_cycles(inst: Instruction, mode: AddressMode) -> u8 {
    match mode {
        AddressMode::Implied => match inst {
            Instruction::BRK => 7,
            Instruction::RTI | Instruction::RTS => 6,
            Instruction::PHA | Instruction::PHP => 3,
            Instruction::PLA | Instruction::PLP => 4,
            _ => 2,
        },
        AddressMode::Accumulator | AddressMode::Immediate | AddressMode::Relative => 2,
        AddressMode::Absolute => if inst == Instruction::JMP {
            3
        } else if inst == Instruction::JSR || is_read_modify_write(inst) {
            6
        } else {
            4
        },
        AddressMode::Indirect => 5,
        AddressMode::Zeropage => if is_read_modify_write(inst) {
            5
        } else {
            3
        },
        AddressMode::ZeropageXIndexed | AddressMode::ZeropageYIndexed => if is_read_modify_write(inst) {
            6
        } else {
            4
        },
        AddressMode::AbsoluteXIndexed | AddressMode::AbsoluteYIndexed => if is_read_modify_write(inst) {
            7
        } else if is_store(inst) {
            5
        } else {
            4
        },
        AddressMode::IndirectXIndexed => 6,
        AddressMode::IndirectYIndexed => if is_store(inst) {
            6
        } else {
            5
        },
    }
}

/// Whether the instruction pays one more cycle when its indexed operand
/// crosses a page: the reads do, stores and read-modify-writes never do.
pub open spec fn pays_page_cross(inst: Instruction, mode: AddressMode) -> bool {
    match inst {
        Instruction::ADC | Instruction::AND | Instruction::CMP | Instruction::EOR | Instruction::LDA
        | Instruction::LDX | Instruction::LDY | Instruction::LAX | Instruction::ORA
        | Instruction::SBC => true,
        Instruction::NOP => mode == AddressMode::AbsoluteXIndexed,
        _ => false,
    }
}

impl Opcode {
    pub open spec fn spec_new(inst: Instruction, addr: AddressMode, cycles: u8) -> Opcode {
        Opcode { inst, addr, cycles }
    }

    pub fn new(inst: Instruction, addr: AddressMode, cycles: u8) -> (r: Opcode)
        ensures
            r == Opcode::spec_new(inst, addr, cycles),
    {
        Opcode { inst, addr, cycles }
    }

    /// The entry of an opcode byte that the table does not know: executed as
    /// a two-cycle implied no-op.
    pub open spec fn spec_invalid() -> Opcode {
        Opcode { inst: Instruction::XXX, addr: AddressMode::Implied, cycles: 2 }
    }

    pub fn invalid() -> (r: Opcode)
        ensures
            r == Opcode::spec_invalid(),
    {
        Opcode::new(Instruction::XXX, AddressMode::Implied, 2)
    }

    pub fn pays_page_cross(&self) -> (r: bool)
        ensures
            r == pays_page_cross(self.inst, self.addr),
    {
        match self.inst {
            Instruction::ADC | Instruction::AND | Instruction::CMP | Instruction::EOR
            | Instruction::LDA | Instruction::LDX | Instruction::LDY | Instruction::LAX
            | Instruction::ORA | Instruction::SBC => true,
            Instruction::NOP => match self.addr {
                AddressMode::AbsoluteXIndexed => true,
                _ => false,
            },
            _ => false,
        }
    }

    /// The table entry of opcode byte `b`.
    pub fn lookup(b: u8) -> (r: Opcode)
        ensures
            r == opcode_entry(b),
    {
        proof {
            reveal(opcode_entry);
        }
        match b {
            0x00 => Opcode::new(Instruction::BRK, AddressMode::Implied, 7),
            0x01 => Opcode::new(Instruction::ORA, AddressMode::IndirectXIndexed, 6),
            0x04 => Opcode::new(Instruction::NOP, AddressMode::Zeropage, 3),
            0x05 => Opcode::new(Instruction::ORA, AddressMode::Zeropage, 3),
            0x06 => Opcode::new(Instruction::ASL, AddressMode::Zeropage, 5),
            0x08 => Opcode::new(Instruction::PHP, AddressMode::Implied, 3),
            0x09 => Opcode::new(Instruction::ORA, AddressMode::Immediate, 2),
            0x0A => Opcode::new(Instruction::ASL, AddressMode::Accumulator, 2),
            0x0C => Opcode::new(Instruction::NOP, AddressMode::Absolute, 4),
            0x0D => Opcode::new(Instruction::ORA, AddressMode::Absolute, 4),
            0x0E => Opcode::new(Instruction::ASL, AddressMode::Absolute, 6),
            0x10 => Opcode::new(Instruction::BPL, AddressMode::Relative, 2),
            0x11 => Opcode::new(Instruction::ORA, AddressMode::IndirectYIndexed, 5),
            0x14 => Opcode::new(Instruction::NOP, AddressMode::ZeropageXIndexed, 4),
            0x15 => Opcode::new(Instruction::ORA, AddressMode::ZeropageXIndexed, 4),
            0x16 => Opcode::new(Instruction::ASL, AddressMode::ZeropageXIndexed, 6),
            0x18 => Opcode::new(Instruction::CLC, AddressMode::Implied, 2),
            0x19 => Opcode::new(Instruction::ORA, AddressMode::AbsoluteYIndexed, 4),
            0x1A => Opcode::new(Instruction::NOP, AddressMode::Implied, 2),
            0x1C => Opcode::new(Instruction::NOP, AddressMode::AbsoluteXIndexed, 4),
            0x1D => Opcode::new(Instruction::ORA, AddressMode::AbsoluteXIndexed, 4),
            0x1E => Opcode::new(Instruction::ASL, AddressMode::AbsoluteXIndexed, 7),
            0x20 => Opcode::new(Instruction::JSR, AddressMode::Absolute, 6),
            0x21 => Opcode::new(Instruction::AND, AddressMode::IndirectXIndexed, 6),
            0x24 => Opcode::new(Instruction::BIT, AddressMode::Zeropage, 3),
            0x25 => Opcode::new(Instruction::AND, AddressMode::Zeropage, 3),
            0x26 => Opcode::new(Instruction::ROL, AddressMode::Zeropage, 5),
            0x28 => Opcode::new(Instruction::PLP, AddressMode::Implied, 4),
            0x29 => Opcode::new(Instruction::AND, AddressMode::Immediate, 2),
            0x2A => Opcode::new(Instruction::ROL, AddressMode::Accumulator, 2),
            0x2C => Opcode::new(Instruction::BIT, AddressMode::Absolute, 4),
            0x2D => Opcode::new(Instruction::AND, AddressMode::Absolute, 4),
            0x2E => Opcode::new(Instruction::ROL, AddressMode::Absolute, 6),
            0x30 => Opcode::new(Instruction::BMI, AddressMode::Relative, 2),
            0x31 => Opcode::new(Instruction::AND, AddressMode::IndirectYIndexed, 5),
            0x34 => Opcode::new(Instruction::NOP, AddressMode::ZeropageXIndexed, 4),
            0x35 => Opcode::new(Instruction::AND, AddressMode::ZeropageXIndexed, 4),
            0x36 => Opcode::new(Instruction::ROL, AddressMode::ZeropageXIndexed, 6),
            0x38 => Opcode::new(Instruction::SEC, AddressMode::Implied, 2),
            0x39 => Opcode::new(Instruction::AND, AddressMode::AbsoluteYIndexed, 4),
            0x3A => Opcode::new(Instruction::NOP, AddressMode::Implied, 2),
            0x3C => Opcode::new(Instruction::NOP, AddressMode::AbsoluteXIndexed, 4),
            0x3D => Opcode::new(Instruction::AND, AddressMode::AbsoluteXIndexed, 4),
            0x3E => Opcode::new(Instruction::ROL, AddressMode::AbsoluteXIndexed, 7),
            0x40 => Opcode::new(Instruction::RTI, AddressMode::Implied, 6),
            0x41 => Opcode::new(Instruction::EOR, AddressMode::IndirectXIndexed, 6),
            0x44 => Opcode::new(Instruction::NOP, AddressMode::Zeropage, 3),
            0x45 => Opcode::new(Instruction::EOR, AddressMode::Zeropage, 3),
            0x46 => Opcode::new(Instruction::LSR, AddressMode::Zeropage, 5),
            0x48 => Opcode::new(Instruction::PHA, AddressMode::Implied, 3),
            0x49 => Opcode::new(Instruction::EOR, AddressMode::Immediate, 2),
            0x4A => Opcode::new(Instruction::LSR, AddressMode::Accumulator, 2),
            0x4C => Opcode::new(Instruction::JMP, AddressMode::Absolute, 3),
            0x4D => Opcode::new(Instruction::EOR, AddressMode::Absolute, 4),
            0x4E => Opcode::new(Instruction::LSR, AddressMode::Absolute, 6),
            0x50 => Opcode::new(Instruction::BVC, AddressMode::Relative, 2),
            0x51 => Opcode::new(Instruction::EOR, AddressMode::IndirectYIndexed, 5),
            0x54 => Opcode::new(Instruction::NOP, AddressMode::ZeropageXIndexed, 4),
            0x55 => Opcode::new(Instruction::EOR, AddressMode::ZeropageXIndexed, 4),
            0x56 => Opcode::new(Instruction::LSR, AddressMode::ZeropageXIndexed, 6),
            0x58 => Opcode::new(Instruction::CLI, AddressMode::Implied, 2),
            0x59 => Opcode::new(Instruction::EOR, AddressMode::AbsoluteYIndexed, 4),
            0x5A => Opcode::new(Instruction::NOP, AddressMode::Implied, 2),
            0x5C => Opcode::new(Instruction::NOP, AddressMode::AbsoluteXIndexed, 4),
            0x5D => Opcode::new(Instruction::EOR, AddressMode::AbsoluteXIndexed, 4),
            0x5E => Opcode::new(Instruction::LSR, AddressMode::AbsoluteXIndexed, 7),
            0x60 => Opcode::new(Instruction::RTS, AddressMode::Implied, 6),
            0x61 => Opcode::new(Instruction::ADC, AddressMode::IndirectXIndexed, 6),
            0x64 => Opcode::new(Instruction::NOP, AddressMode::Zeropage, 3),
            0x65 => Opcode::new(Instruction::ADC, AddressMode::Zeropage, 3),
            0x66 => Opcode::new(Instruction::ROR, AddressMode::Zeropage, 5),
            0x68 => Opcode::new(Instruction::PLA, AddressMode::Implied, 4),
            0x69 => Opcode::new(Instruction::ADC, AddressMode::Immediate, 2),
            0x6A => Opcode::new(Instruction::ROR, AddressMode::Accumulator, 2),
            0x6C => Opcode::new(Instruction::JMP, AddressMode::Indirect, 5),
            0x6D => Opcode::new(Instruction::ADC, AddressMode::Absolute, 4),
            0x6E => Opcode::new(Instruction::ROR, AddressMode::Absolute, 6),
            0x70 => Opcode::new(Instruction::BVS, AddressMode::Relative, 2),
            0x71 => Opcode::new(Instruction::ADC, AddressMode::IndirectYIndexed, 5),
            0x74 => Opcode::new(Instruction::NOP, AddressMode::ZeropageXIndexed, 4),
            0x75 => Opcode::new(Instruction::ADC, AddressMode::ZeropageXIndexed, 4),
            0x76 => Opcode::new(Instruction::ROR, AddressMode::ZeropageXIndexed, 6),
            0x78 => Opcode::new(Instruction::SEI, AddressMode::Implied, 2),
            0x79 => Opcode::new(Instruction::ADC, AddressMode::AbsoluteYIndexed, 4),
            0x7A => Opcode::new(Instruction::NOP, AddressMode::Implied, 2),
            0x7C => Opcode::new(Instruction::NOP, AddressMode::AbsoluteXIndexed, 4),
            0x7D => Opcode::new(Instruction::ADC, AddressMode::AbsoluteXIndexed, 4),
            0x7E => Opcode::new(Instruction::ROR, AddressMode::AbsoluteXIndexed, 7),
            0x80 => Opcode::new(Instruction::NOP, AddressMode::Immediate, 2),
            0x81 => Opcode::new(Instruction::STA, AddressMode::IndirectXIndexed, 6),
            0x82 => Opcode::new(Instruction::NOP, AddressMode::Immediate, 2),
            0x84 => Opcode::new(Instruction::STY, AddressMode::Zeropage, 3),
            0x85 => Opcode::new(Instruction::STA, AddressMode::Zeropage, 3),
            0x86 => Opcode::new(Instruction::STX, AddressMode::Zeropage, 3),
            0x88 => Opcode::new(Instruction::DEY, AddressMode::Implied, 2),
            0x89 => Opcode::new(Instruction::NOP, AddressMode::Immediate, 2),
            0x8A => Opcode::new(Instruction::TXA, AddressMode::Implied, 2),
            0x8C => Opcode::new(Instruction::STY, AddressMode::Absolute, 4),
            0x8D => Opcode::new(Instruction::STA, AddressMode::Absolute, 4),
            0x8E => Opcode::new(Instruction::STX, AddressMode::Absolute, 4),
            0x90 => Opcode::new(Instruction::BCC, AddressMode::Relative, 2),
            0x91 => Opcode::new(Instruction::STA, AddressMode::IndirectYIndexed, 6),
            0x94 => Opcode::new(Instruction::STY, AddressMode::ZeropageXIndexed, 4),
            0x95 => Opcode::new(Instruction::STA, AddressMode::ZeropageXIndexed, 4),
            0x96 => Opcode::new(Instruction::STX, AddressMode::ZeropageYIndexed, 4),
            0x98 => Opcode::new(Instruction::TYA, AddressMode::Implied, 2),
            0x99 => Opcode::new(Instruction::STA, AddressMode::AbsoluteYIndexed, 5),
            0x9A => Opcode::new(Instruction::TXS, AddressMode::Implied, 2),
            0x9D => Opcode::new(Instruction::STA, AddressMode::AbsoluteXIndexed, 5),
            0xA0 => Opcode::new(Instruction::LDY, AddressMode::Immediate, 2),
            0xA1 => Opcode::new(Instruction::LDA, AddressMode::IndirectXIndexed, 6),
            0xA2 => Opcode::new(Instruction::LDX, AddressMode::Immediate, 2),
            0xA3 => Opcode::new(Instruction::LAX, AddressMode::IndirectXIndexed, 6),
            0xA4 => Opcode::new(Instruction::LDY, AddressMode::Zeropage, 3),
            0xA5 => Opcode::new(Instruction::LDA, AddressMode::Zeropage, 3),
            0xA6 => Opcode::new(Instruction::LDX, AddressMode::Zeropage, 3),
            0xA7 => Opcode::new(Instruction::LAX, AddressMode::Zeropage, 3),
            0xA8 => Opcode::new(Instruction::TAY, AddressMode::Implied, 2),
            0xA9 => Opcode::new(Instruction::LDA, AddressMode::Immediate, 2),
            0xAA => Opcode::new(Instruction::TAX, AddressMode::Implied, 2),
            0xAC => Opcode::new(Instruction::LDY, AddressMode::Absolute, 4),
            0xAD => Opcode::new(Instruction::LDA, AddressMode::Absolute, 4),
            0xAE => Opcode::new(Instruction::LDX, AddressMode::Absolute, 4),
            0xAF => Opcode::new(Instruction::LAX, AddressMode::Absolute, 4),
            0xB0 => Opcode::new(Instruction::BCS, AddressMode::Relative, 2),
            0xB1 => Opcode::new(Instruction::LDA, AddressMode::IndirectYIndexed, 5),
            0xB3 => Opcode::new(Instruction::LAX, AddressMode::IndirectYIndexed, 5),
            0xB4 => Opcode::new(Instruction::LDY, AddressMode::ZeropageXIndexed, 4),
            0xB5 => Opcode::new(Instruction::LDA, AddressMode::ZeropageXIndexed, 4),
            0xB6 => Opcode::new(Instruction::LDX, AddressMode::ZeropageYIndexed, 4),
            0xB7 => Opcode::new(Instruction::LAX, AddressMode::ZeropageYIndexed, 4),
            0xB8 => Opcode::new(Instruction::CLV, AddressMode::Implied, 2),
            0xB9 => Opcode::new(Instruction::LDA, AddressMode::AbsoluteYIndexed, 4),
            0xBA => Opcode::new(Instruction::TSX, AddressMode::Implied, 2),
            0xBC => Opcode::new(Instruction::LDY, AddressMode::AbsoluteXIndexed, 4),
            0xBD => Opcode::new(Instruction::LDA, AddressMode::AbsoluteXIndexed, 4),
            0xBE => Opcode::new(Instruction::LDX, AddressMode::AbsoluteYIndexed, 4),
            0xBF => Opcode::new(Instruction::LAX, AddressMode::AbsoluteYIndexed, 4),
            0xC0 => Opcode::new(Instruction::CPY, AddressMode::Immediate, 2),
            0xC1 => Opcode::new(Instruction::CMP, AddressMode::IndirectXIndexed, 6),
            0xC2 => Opcode::new(Instruction::NOP, AddressMode::Immediate, 2),
            0xC4 => Opcode::new(Instruction::CPY, AddressMode::Zeropage, 3),
            0xC5 => Opcode::new(Instruction::CMP, AddressMode::Zeropage, 3),
            0xC6 => Opcode::new(Instruction::DEC, AddressMode::Zeropage, 5),
            0xC8 => Opcode::new(Instruction::INY, AddressMode::Implied, 2),
            0xC9 => Opcode::new(Instruction::CMP, AddressMode::Immediate, 2),
            0xCA => Opcode::new(Instruction::DEX, AddressMode::Implied, 2),
            0xCC => Opcode::new(Instruction::CPY, AddressMode::Absolute, 4),
            0xCD => Opcode::new(Instruction::CMP, AddressMode::Absolute, 4),
            0xCE => Opcode::new(Instruction::DEC, AddressMode::Absolute, 6),
            0xD0 => Opcode::new(Instruction::BNE, AddressMode::Relative, 2),
            0xD1 => Opcode::new(Instruction::CMP, AddressMode::IndirectYIndexed, 5),
            0xD4 => Opcode::new(Instruction::NOP, AddressMode::ZeropageXIndexed, 4),
            0xD5 => Opcode::new(Instruction::CMP, AddressMode::ZeropageXIndexed, 4),
            0xD6 => Opcode::new(Instruction::DEC, AddressMode::ZeropageXIndexed, 6),
            0xD8 => Opcode::new(Instruction::CLD, AddressMode::Implied, 2),
            0xD9 => Opcode::new(Instruction::CMP, AddressMode::AbsoluteYIndexed, 4),
            0xDA => Opcode::new(Instruction::NOP, AddressMode::Implied, 2),
            0xDC => Opcode::new(Instruction::NOP, AddressMode::AbsoluteXIndexed, 4),
            0xDD => Opcode::new(Instruction::CMP, AddressMode::AbsoluteXIndexed, 4),
            0xDE => Opcode::new(Instruction::DEC, AddressMode::AbsoluteXIndexed, 7),
            0xE0 => Opcode::new(Instruction::CPX, AddressMode::Immediate, 2),
            0xE1 => Opcode::new(Instruction::SBC, AddressMode::IndirectXIndexed, 6),
            0xE2 => Opcode::new(Instruction::NOP, AddressMode::Immediate, 2),
            0xE4 => Opcode::new(Instruction::CPX, AddressMode::Zeropage, 3),
            0xE5 => Opcode::new(Instruction::SBC, AddressMode::Zeropage, 3),
            0xE6 => Opcode::new(Instruction::INC, AddressMode::Zeropage, 5),
            0xE8 => Opcode::new(Instruction::INX, AddressMode::Implied, 2),
            0xE9 => Opcode::new(Instruction::SBC, AddressMode::Immediate, 2),
            0xEA => Opcode::new(Instruction::NOP, AddressMode::Implied, 2),
            0xEB => Opcode::new(Instruction::SBC, AddressMode::Immediate, 2),
            0xEC => Opcode::new(Instruction::CPX, AddressMode::Absolute, 4),
            0xED => Opcode::new(Instruction::SBC, AddressMode::Absolute, 4),
            0xEE => Opcode::new(Instruction::INC, AddressMode::Absolute, 6),
            0xF0 => Opcode::new(Instruction::BEQ, AddressMode::Relative, 2),
            0xF1 => Opcode::new(Instruction::SBC, AddressMode::IndirectYIndexed, 5),
            0xF4 => Opcode::new(Instruction::NOP, AddressMode::ZeropageXIndexed, 4),
            0xF5 => Opcode::new(Instruction::SBC, AddressMode::ZeropageXIndexed, 4),
            0xF6 => Opcode::new(Instruction::INC, AddressMode::ZeropageXIndexed, 6),
            0xF8 => Opcode::new(Instruction::SED, AddressMode::Implied, 2),
            0xF9 => Opcode::new(Instruction::SBC, AddressMode::AbsoluteYIndexed, 4),
            0xFA => Opcode::new(Instruction::NOP, AddressMode::Implied, 2),
            0xFC => Opcode::new(Instruction::NOP, AddressMode::AbsoluteXIndexed, 4),
            0xFD => Opcode::new(Instruction::SBC, AddressMode::AbsoluteXIndexed, 4),
            0xFE => Opcode::new(Instruction::INC, AddressMode::AbsoluteXIndexed, 7),
            _ => Opcode::invalid(),
        }
    }
}

/// The opcode table: mnemonic, addressing mode and base cycles of each byte.
#[verifier::opaque]
pub open spec fn opcode_entry(b: u8) -> Opcode {
    match b {
        0x00 => Opcode::spec_new(Instruction::BRK, AddressMode::Implied, 7),
        0x01 => Opcode::spec_new(Instruction::ORA, AddressMode::IndirectXIndexed, 6),
        0x04 => Opcode::spec_new(Instruction::NOP, AddressMode::Zeropage, 3),
        0x05 => Opcode::spec_new(Instruction::ORA, AddressMode::Zeropage, 3),
        0x06 => Opcode::spec_new(Instruction::ASL, AddressMode::Zeropage, 5),
        0x08 => Opcode::spec_new(Instruction::PHP, AddressMode::Implied, 3),
        0x09 => Opcode::spec_new(Instruction::ORA, AddressMode::Immediate, 2),
        0x0A => Opcode::spec_new(Instruction::ASL, AddressMode::Accumulator, 2),
        0x0C => Opcode::spec_new(Instruction::NOP, AddressMode::Absolute, 4),
        0x0D => Opcode::spec_new(Instruction::ORA, AddressMode::Absolute, 4),
        0x0E => Opcode::spec_new(Instruction::ASL, AddressMode::Absolute, 6),
        0x10 => Opcode::spec_new(Instruction::BPL, AddressMode::Relative, 2),
        0x11 => Opcode::spec_new(Instruction::ORA, AddressMode::IndirectYIndexed, 5),
        0x14 => Opcode::spec_new(Instruction::NOP, AddressMode::ZeropageXIndexed, 4),
        0x15 => Opcode::spec_new(Instruction::ORA, AddressMode::ZeropageXIndexed, 4),
        0x16 => Opcode::spec_new(Instruction::ASL, AddressMode::ZeropageXIndexed, 6),
        0x18 => Opcode::spec_new(Instruction::CLC, AddressMode::Implied, 2),
        0x19 => Opcode::spec_new(Instruction::ORA, AddressMode::AbsoluteYIndexed, 4),
        0x1A => Opcode::spec_new(Instruction::NOP, AddressMode::Implied, 2),
        0x1C => Opcode::spec_new(Instruction::NOP, AddressMode::AbsoluteXIndexed, 4),
        0x1D => Opcode::spec_new(Instruction::ORA, AddressMode::AbsoluteXIndexed, 4),
        0x1E => Opcode::spec_new(Instruction::ASL, AddressMode::AbsoluteXIndexed, 7),
        0x20 => Opcode::spec_new(Instruction::JSR, AddressMode::Absolute, 6),
        0x21 => Opcode::spec_new(Instruction::AND, AddressMode::IndirectXIndexed, 6),
        0x24 => Opcode::spec_new(Instruction::BIT, AddressMode::Zeropage, 3),
        0x25 => Opcode::spec_new(Instruction::AND, AddressMode::Zeropage, 3),
        0x26 => Opcode::spec_new(Instruction::ROL, AddressMode::Zeropage, 5),
        0x28 => Opcode::spec_new(Instruction::PLP, AddressMode::Implied, 4),
        0x29 => Opcode::spec_new(Instruction::AND, AddressMode::Immediate, 2),
        0x2A => Opcode::spec_new(Instruction::ROL, AddressMode::Accumulator, 2),
        0x2C => Opcode::spec_new(Instruction::BIT, AddressMode::Absolute, 4),
        0x2D => Opcode::spec_new(Instruction::AND, AddressMode::Absolute, 4),
        0x2E => Opcode::spec_new(Instruction::ROL, AddressMode::Absolute, 6),
        0x30 => Opcode::spec_new(Instruction::BMI, AddressMode::Relative, 2),
        0x31 => Opcode::spec_new(Instruction::AND, AddressMode::IndirectYIndexed, 5),
        0x34 => Opcode::spec_new(Instruction::NOP, AddressMode::ZeropageXIndexed, 4),
        0x35 => Opcode::spec_new(Instruction::AND, AddressMode::ZeropageXIndexed, 4),
        0x36 => Opcode::spec_new(Instruction::ROL, AddressMode::ZeropageXIndexed, 6),
        0x38 => Opcode::spec_new(Instruction::SEC, AddressMode::Implied, 2),
        0x39 => Opcode::spec_new(Instruction::AND, AddressMode::AbsoluteYIndexed, 4),
        0x3A => Opcode::spec_new(Instruction::NOP, AddressMode::Implied, 2),
        0x3C => Opcode::spec_new(Instruction::NOP, AddressMode::AbsoluteXIndexed, 4),
        0x3D => Opcode::spec_new(Instruction::AND, AddressMode::AbsoluteXIndexed, 4),
        0x3E => Opcode::spec_new(Instruction::ROL, AddressMode::AbsoluteXIndexed, 7),
        0x40 => Opcode::spec_new(Instruction::RTI, AddressMode::Implied, 6),
        0x41 => Opcode::spec_new(Instruction::EOR, AddressMode::IndirectXIndexed, 6),
        0x44 => Opcode::spec_new(Instruction::NOP, AddressMode::Zeropage, 3),
        0x45 => Opcode::spec_new(Instruction::EOR, AddressMode::Zeropage, 3),
        0x46 => Opcode::spec_new(Instruction::LSR, AddressMode::Zeropage, 5),
        0x48 => Opcode::spec_new(Instruction::PHA, AddressMode::Implied, 3),
        0x49 => Opcode::spec_new(Instruction::EOR, AddressMode::Immediate, 2),
        0x4A => Opcode::spec_new(Instruction::LSR, AddressMode::Accumulator, 2),
        0x4C => Opcode::spec_new(Instruction::JMP, AddressMode::Absolute, 3),
        0x4D => Opcode::spec_new(Instruction::EOR, AddressMode::Absolute, 4),
        0x4E => Opcode::spec_new(Instruction::LSR, AddressMode::Absolute, 6),
        0x50 => Opcode::spec_new(Instruction::BVC, AddressMode::Relative, 2),
        0x51 => Opcode::spec_new(Instruction::EOR, AddressMode::IndirectYIndexed, 5),
        0x54 => Opcode::spec_new(Instruction::NOP, AddressMode::ZeropageXIndexed, 4),
        0x55 => Opcode::spec_new(Instruction::EOR, AddressMode::ZeropageXIndexed, 4),
        0x56 => Opcode::spec_new(Instruction::LSR, AddressMode::ZeropageXIndexed, 6),
        0x58 => Opcode::spec_new(Instruction::CLI, AddressMode::Implied, 2),
        0x59 => Opcode::spec_new(Instruction::EOR, AddressMode::AbsoluteYIndexed, 4),
        0x5A => Opcode::spec_new(Instruction::NOP, AddressMode::Implied, 2),
        0x5C => Opcode::spec_new(Instruction::NOP, AddressMode::AbsoluteXIndexed, 4),
        0x5D => Opcode::spec_new(Instruction::EOR, AddressMode::AbsoluteXIndexed, 4),
        0x5E => Opcode::spec_new(Instruction::LSR, AddressMode::AbsoluteXIndexed, 7),
        0x60 => Opcode::spec_new(Instruction::RTS, AddressMode::Implied, 6),
        0x61 => Opcode::spec_new(Instruction::ADC, AddressMode::IndirectXIndexed, 6),
        0x64 => Opcode::spec_new(Instruction::NOP, AddressMode::Zeropage, 3),
        0x65 => Opcode::spec_new(Instruction::ADC, AddressMode::Zeropage, 3),
        0x66 => Opcode::spec_new(Instruction::ROR, AddressMode::Zeropage, 5),
        0x68 => Opcode::spec_new(Instruction::PLA, AddressMode::Implied, 4),
        0x69 => Opcode::spec_new(Instruction::ADC, AddressMode::Immediate, 2),
        0x6A => Opcode::spec_new(Instruction::ROR, AddressMode::Accumulator, 2),
        0x6C => Opcode::spec_new(Instruction::JMP, AddressMode::Indirect, 5),
        0x6D => Opcode::spec_new(Instruction::ADC, AddressMode::Absolute, 4),
        0x6E => Opcode::spec_new(Instruction::ROR, AddressMode::Absolute, 6),
        0x70 => Opcode::spec_new(Instruction::BVS, AddressMode::Relative, 2),
        0x71 => Opcode::spec_new(Instruction::ADC, AddressMode::IndirectYIndexed, 5),
        0x74 => Opcode::spec_new(Instruction::NOP, AddressMode::ZeropageXIndexed, 4),
        0x75 => Opcode::spec_new(Instruction::ADC, AddressMode::ZeropageXIndexed, 4),
        0x76 => Opcode::spec_new(Instruction::ROR, AddressMode::ZeropageXIndexed, 6),
        0x78 => Opcode::spec_new(Instruction::SEI, AddressMode::Implied, 2),
        0x79 => Opcode::spec_new(Instruction::ADC, AddressMode::AbsoluteYIndexed, 4),
        0x7A => Opcode::spec_new(Instruction::NOP, AddressMode::Implied, 2),
        0x7C => Opcode::spec_new(Instruction::NOP, AddressMode::AbsoluteXIndexed, 4),
        0x7D => Opcode::spec_new(Instruction::ADC, AddressMode::AbsoluteXIndexed, 4),
        0x7E => Opcode::spec_new(Instruction::ROR, AddressMode::AbsoluteXIndexed, 7),
        0x80 => Opcode::spec_new(Instruction::NOP, AddressMode::Immediate, 2),
        0x81 => Opcode::spec_new(Instruction::STA, AddressMode::IndirectXIndexed, 6),
        0x82 => Opcode::spec_new(Instruction::NOP, AddressMode::Immediate, 2),
        0x84 => Opcode::spec_new(Instruction::STY, AddressMode::Zeropage, 3),
        0x85 => Opcode::spec_new(Instruction::STA, AddressMode::Zeropage, 3),
        0x86 => Opcode::spec_new(Instruction::STX, AddressMode::Zeropage, 3),
        0x88 => Opcode::spec_new(Instruction::DEY, AddressMode::Implied, 2),
        0x89 => Opcode::spec_new(Instruction::NOP, AddressMode::Immediate, 2),
        0x8A => Opcode::spec_new(Instruction::TXA, AddressMode::Implied, 2),
        0x8C => Opcode::spec_new(Instruction::STY, AddressMode::Absolute, 4),
        0x8D => Opcode::spec_new(Instruction::STA, AddressMode::Absolute, 4),
        0x8E => Opcode::spec_new(Instruction::STX, AddressMode::Absolute, 4),
        0x90 => Opcode::spec_new(Instruction::BCC, AddressMode::Relative, 2),
        0x91 => Opcode::spec_new(Instruction::STA, AddressMode::IndirectYIndexed, 6),
        0x94 => Opcode::spec_new(Instruction::STY, AddressMode::ZeropageXIndexed, 4),
        0x95 => Opcode::spec_new(Instruction::STA, AddressMode::ZeropageXIndexed, 4),
        0x96 => Opcode::spec_new(Instruction::STX, AddressMode::ZeropageYIndexed, 4),
        0x98 => Opcode::spec_new(Instruction::TYA, AddressMode::Implied, 2),
        0x99 => Opcode::spec_new(Instruction::STA, AddressMode::AbsoluteYIndexed, 5),
        0x9A => Opcode::spec_new(Instruction::TXS, AddressMode::Implied, 2),
        0x9D => Opcode::spec_new(Instruction::STA, AddressMode::AbsoluteXIndexed, 5),
        0xA0 => Opcode::spec_new(Instruction::LDY, AddressMode::Immediate, 2),
        0xA1 => Opcode::spec_new(Instruction::LDA, AddressMode::IndirectXIndexed, 6),
        0xA2 => Opcode::spec_new(Instruction::LDX, AddressMode::Immediate, 2),
        0xA3 => Opcode::spec_new(Instruction::LAX, AddressMode::IndirectXIndexed, 6),
        0xA4 => Opcode::spec_new(Instruction::LDY, AddressMode::Zeropage, 3),
        0xA5 => Opcode::spec_new(Instruction::LDA, AddressMode::Zeropage, 3),
        0xA6 => Opcode::spec_new(Instruction::LDX, AddressMode::Zeropage, 3),
        0xA7 => Opcode::spec_new(Instruction::LAX, AddressMode::Zeropage, 3),
        0xA8 => Opcode::spec_new(Instruction::TAY, AddressMode::Implied, 2),
        0xA9 => Opcode::spec_new(Instruction::LDA, AddressMode::Immediate, 2),
        0xAA => Opcode::spec_new(Instruction::TAX, AddressMode::Implied, 2),
        0xAC => Opcode::spec_new(Instruction::LDY, AddressMode::Absolute, 4),
        0xAD => Opcode::spec_new(Instruction::LDA, AddressMode::Absolute, 4),
        0xAE => Opcode::spec_new(Instruction::LDX, AddressMode::Absolute, 4),
        0xAF => Opcode::spec_new(Instruction::LAX, AddressMode::Absolute, 4),
        0xB0 => Opcode::spec_new(Instruction::BCS, AddressMode::Relative, 2),
        0xB1 => Opcode::spec_new(Instruction::LDA, AddressMode::IndirectYIndexed, 5),
        0xB3 => Opcode::spec_new(Instruction::LAX, AddressMode::IndirectYIndexed, 5),
        0xB4 => Opcode::spec_new(Instruction::LDY, AddressMode::ZeropageXIndexed, 4),
        0xB5 => Opcode::spec_new(Instruction::LDA, AddressMode::ZeropageXIndexed, 4),
        0xB6 => Opcode::spec_new(Instruction::LDX, AddressMode::ZeropageYIndexed, 4),
        0xB7 => Opcode::spec_new(Instruction::LAX, AddressMode::ZeropageYIndexed, 4),
        0xB8 => Opcode::spec_new(Instruction::CLV, AddressMode::Implied, 2),
        0xB9 => Opcode::spec_new(Instruction::LDA, AddressMode::AbsoluteYIndexed, 4),
        0xBA => Opcode::spec_new(Instruction::TSX, AddressMode::Implied, 2),
        0xBC => Opcode::spec_new(Instruction::LDY, AddressMode::AbsoluteXIndexed, 4),
        0xBD => Opcode::spec_new(Instruction::LDA, AddressMode::AbsoluteXIndexed, 4),
        0xBE => Opcode::spec_new(Instruction::LDX, AddressMode::AbsoluteYIndexed, 4),
        0xBF => Opcode::spec_new(Instruction::LAX, AddressMode::AbsoluteYIndexed, 4),
        0xC0 => Opcode::spec_new(Instruction::CPY, AddressMode::Immediate, 2),
        0xC1 => Opcode::spec_new(Instruction::CMP, AddressMode::IndirectXIndexed, 6),
        0xC2 => Opcode::spec_new(Instruction::NOP, AddressMode::Immediate, 2),
        0xC4 => Opcode::spec_new(Instruction::CPY, AddressMode::Zeropage, 3),
        0xC5 => Opcode::spec_new(Instruction::CMP, AddressMode::Zeropage, 3),
        0xC6 => Opcode::spec_new(Instruction::DEC, AddressMode::Zeropage, 5),
        0xC8 => Opcode::spec_new(Instruction::INY, AddressMode::Implied, 2),
        0xC9 => Opcode::spec_new(Instruction::CMP, AddressMode::Immediate, 2),
        0xCA => Opcode::spec_new(Instruction::DEX, AddressMode::Implied, 2),
        0xCC => Opcode::spec_new(Instruction::CPY, AddressMode::Absolute, 4),
        0xCD => Opcode::spec_new(Instruction::CMP, AddressMode::Absolute, 4),
        0xCE => Opcode::spec_new(Instruction::DEC, AddressMode::Absolute, 6),
        0xD0 => Opcode::spec_new(Instruction::BNE, AddressMode::Relative, 2),
        0xD1 => Opcode::spec_new(Instruction::CMP, AddressMode::IndirectYIndexed, 5),
        0xD4 => Opcode::spec_new(Instruction::NOP, AddressMode::ZeropageXIndexed, 4),
        0xD5 => Opcode::spec_new(Instruction::CMP, AddressMode::ZeropageXIndexed, 4),
        0xD6 => Opcode::spec_new(Instruction::DEC, AddressMode::ZeropageXIndexed, 6),
        0xD8 => Opcode::spec_new(Instruction::CLD, AddressMode::Implied, 2),
        0xD9 => Opcode::spec_new(Instruction::CMP, AddressMode::AbsoluteYIndexed, 4),
        0xDA => Opcode::spec_new(Instruction::NOP, AddressMode::Implied, 2),
        0xDC => Opcode::spec_new(Instruction::NOP, AddressMode::AbsoluteXIndexed, 4),
        0xDD => Opcode::spec_new(Instruction::CMP, AddressMode::AbsoluteXIndexed, 4),
        0xDE => Opcode::spec_new(Instruction::DEC, AddressMode::AbsoluteXIndexed, 7),
        0xE0 => Opcode::spec_new(Instruction::CPX, AddressMode::Immediate, 2),
        0xE1 => Opcode::spec_new(Instruction::SBC, AddressMode::IndirectXIndexed, 6),
        0xE2 => Opcode::spec_new(Instruction::NOP, AddressMode::Immediate, 2),
        0xE4 => Opcode::spec_new(Instruction::CPX, AddressMode::Zeropage, 3),
        0xE5 => Opcode::spec_new(Instruction::SBC, AddressMode::Zeropage, 3),
        0xE6 => Opcode::spec_new(Instruction::INC, AddressMode::Zeropage, 5),
        0xE8 => Opcode::spec_new(Instruction::INX, AddressMode::Implied, 2),
        0xE9 => Opcode::spec_new(Instruction::SBC, AddressMode::Immediate, 2),
        0xEA => Opcode::spec_new(Instruction::NOP, AddressMode::Implied, 2),
        0xEB => Opcode::spec_new(Instruction::SBC, AddressMode::Immediate, 2),
        0xEC => Opcode::spec_new(Instruction::CPX, AddressMode::Absolute, 4),
        0xED => Opcode::spec_new(Instruction::SBC, AddressMode::Absolute, 4),
        0xEE => Opcode::spec_new(Instruction::INC, AddressMode::Absolute, 6),
        0xF0 => Opcode::spec_new(Instruction::BEQ, AddressMode::Relative, 2),
        0xF1 => Opcode::spec_new(Instruction::SBC, AddressMode::IndirectYIndexed, 5),
        0xF4 => Opcode::spec_new(Instruction::NOP, AddressMode::ZeropageXIndexed, 4),
        0xF5 => Opcode::spec_new(Instruction::SBC, AddressMode::ZeropageXIndexed, 4),
        0xF6 => Opcode::spec_new(Instruction::INC, AddressMode::ZeropageXIndexed, 6),
        0xF8 => Opcode::spec_new(Instruction::SED, AddressMode::Implied, 2),
        0xF9 => Opcode::spec_new(Instruction::SBC, AddressMode::AbsoluteYIndexed, 4),
        0xFA => Opcode::spec_new(Instruction::NOP, AddressMode::Implied, 2),
        0xFC => Opcode::spec_new(Instruction::NOP, AddressMode::AbsoluteXIndexed, 4),
        0xFD => Opcode::spec_new(Instruction::SBC, AddressMode::AbsoluteXIndexed, 4),
        0xFE => Opcode::spec_new(Instruction::INC, AddressMode::AbsoluteXIndexed, 7),
        _ => Opcode::spec_invalid(),
    }
}

/// Every entry's base cycle count is the documented cost of its mnemonic in
/// its addressing mode.
pub proof fn lemma_table_cycles(b: u8)
    ensures
        opcode_entry(b).cycles == reference_cycles(opcode_entry(b).inst, opcode_entry(b).addr),
{
    reveal(opcode_entry);
}

} // verus!
