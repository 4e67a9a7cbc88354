use vstd::prelude::*;
use crate::bus::{BusState, next_addr};
use crate::cpu::Operand;
use crate::opcode::{AddressMode, Instruction, opcode_entry, pays_page_cross};
use crate::registers::{Registers, StatusFlag, flag_of, with_flag, with_nz};

verus! {

/// The page that holds the stack.
pub const STACK_PAGE: u16 = 0x0100;

/// Where the NMI handler's address is stored.
pub const NMI_VECTOR: u16 = 0xFFFA;

/// Where the reset handler's address is stored.
pub const RESET_VECTOR: u16 = 0xFFFC;

/// Where the IRQ and BRK handler's address is stored.
pub const IRQ_VECTOR: u16 = 0xFFFE;

/// Everything the CPU can observe or change: its registers, the memory behind
/// the bus, the cycle counters and the interrupt lines.
pub struct CpuState {
    pub reg: Registers,
    pub mem: BusState,
    /// Cycles left before the next fetch.
    pub cycles: u8,
    /// Cycles spent since reset.
    pub cycle_count: u64,
    /// Whether the current instruction's operand crossed a page.
    pub additional_cycle: bool,
    pub nmi_pending: bool,
    pub irq_pending: bool,
    /// The last opcode byte that the table did not know.
    pub invalid_opcode: Option<u8>,
}

/// `v` reduced to a byte.
pub open spec fn wrap8(v: int) -> u8 {
    (v % 256) as u8
}

/// `v` reduced to a 16-bit word.
pub open spec fn wrap16(v: int) -> u16 {
    (v % 0x10000) as u16
}

/// `v` reduced to a 64-bit word.
pub open spec fn wrap64(v: int) -> u64 {
    (v % 0x1_0000_0000_0000_0000) as u64
}

/// The two's-complement value of a byte.
pub open spec fn signed8(b: u8) -> int {
    if b < 128 {
        b as int
    } else {
        b - 256
    }
}

/// The little-endian word made of `lo` and `hi`.
pub open spec fn word(lo: u8, hi: u8) -> u16 {
    (lo + 256 * hi) as u16
}

/// The stack slot that SP value `sp` designates.
pub open spec fn stack_addr(sp: u8) -> u16 {
    (STACK_PAGE + sp) as u16
}

/// Whether two addresses lie on different pages.
pub open spec fn crosses_page(a: u16, b: u16) -> bool {
    a / 256 != b / 256
}

/// Signed overflow of an 8-bit addition `a + m` whose truncated result is `r`:
/// both operands have one sign and the result the other.
pub open spec fn add_overflows(a: u8, m: u8, r: u8) -> bool {
    (a < 128) == (m < 128) && (r < 128) != (a < 128)
}

/// The status byte as PLP and RTI take it from the stack: U set, B clear.
pub open spec fn pulled_status(v: u8) -> u8 {
    with_flag(with_flag(v, StatusFlag::Unused, true), StatusFlag::Break, false)
}

/// The status byte as PHP and BRK push it: B and U set.
pub open spec fn pushed_status(p: u8) -> u8 {
    with_flag(with_flag(p, StatusFlag::Break, true), StatusFlag::Unused, true)
}

/// The status byte as an interrupt pushes it: B clear, U set.
pub open spec fn interrupt_status(p: u8) -> u8 {
    with_flag(with_flag(p, StatusFlag::Break, false), StatusFlag::Unused, true)
}

impl CpuState {
    pub open spec fn with_reg(self, reg: Registers) -> CpuState {
        CpuState { reg, ..self }
    }

    pub open spec fn with_p(self, p: u8) -> CpuState {
        self.with_reg(Registers { p, ..self.reg })
    }

    pub open spec fn with_pc(self, pc: u16) -> CpuState {
        self.with_reg(Registers { pc, ..self.reg })
    }

    pub open spec fn with_sp(self, sp: u8) -> CpuState {
        self.with_reg(Registers { sp, ..self.reg })
    }

    pub open spec fn with_a(self, a: u8) -> CpuState {
        self.with_reg(Registers { a, ..self.reg })
    }

    pub open spec fn with_x(self, x: u8) -> CpuState {
        self.with_reg(Registers { x, ..self.reg })
    }

    pub open spec fn with_y(self, y: u8) -> CpuState {
        self.with_reg(Registers { y, ..self.reg })
    }

    pub open spec fn flag(self, f: StatusFlag) -> bool {
        flag_of(self.reg.p, f)
    }

    /// Writes `v` to the stack slot and moves SP down, within page 1.
    pub open spec fn push(self, v: u8) -> CpuState {
        CpuState { mem: self.mem.write(stack_addr(self.reg.sp), v), ..self }.with_sp(
            wrap8(self.reg.sp - 1),
        )
    }

    /// Pushes the high byte of `v`, then the low byte.
    pub open spec fn push_word(self, v: u16) -> CpuState {
        self.push((v / 256) as u8).push((v % 256) as u8)
    }

    /// Moves SP up within page 1 and reads the slot it then designates.
    pub open spec fn pop(self) -> (CpuState, u8) {
        let sp = wrap8(self.reg.sp + 1);
        (self.with_sp(sp), self.mem.read(stack_addr(sp)))
    }

    /// Pops the low byte, then the high byte.
    pub open spec fn pop_word(self) -> (CpuState, u16) {
        let (s1, lo) = self.pop();
        let (s2, hi) = s1.pop();
        (s2, word(lo, hi))
    }

    /// Reads the byte at PC and moves PC past it.
    pub open spec fn fetch(self) -> (CpuState, u8) {
        (self.with_pc(next_addr(self.reg.pc)), self.mem.read(self.reg.pc))
    }

    /// Fetches a little-endian word.
    pub open spec fn fetch_word(self) -> (CpuState, u16) {
        let (s1, lo) = self.fetch();
        let (s2, hi) = s1.fetch();
        (s2, word(lo, hi))
    }

    /// The state with the page-cross mark set when `crossed` holds.
    pub open spec fn mark_cross(self, crossed: bool) -> CpuState {
        if crossed {
            CpuState { additional_cycle: true, ..self }
        } else {
            self
        }
    }

    /// Absolute indexed: a fetched base plus `offset`, marking a page cross.
    pub open spec fn absolute_indexed(self, offset: u8) -> (CpuState, u16) {
        let (s1, base) = self.fetch_word();
        let addr = wrap16(base + offset);
        (s1.mark_cross(crosses_page(addr, base)), addr)
    }

    /// Indirect: the word at a fetched pointer, whose high byte is read from
    /// the start of the pointer's page when the pointer ends a page.
    pub open spec fn indirect(self) -> (CpuState, u16) {
        let (s1, ptr) = self.fetch_word();
        let hi_at = if ptr % 256 == 255 {
            (ptr - 255) as u16
        } else {
            (ptr + 1) as u16
        };
        (s1, word(self.mem.read(ptr), self.mem.read(hi_at)))
    }

    /// The word at zero-page address `p`, its high byte wrapping within page 0.
    pub open spec fn zeropage_word(self, p: u8) -> u16 {
        word(self.mem.read(p as u16), self.mem.read(wrap8(p + 1) as u16))
    }

    /// (Indirect,X): the zero-page word at the fetched byte plus X.
    pub open spec fn indirect_x(self) -> (CpuState, u16) {
        let (s1, b) = self.fetch();
        (s1, self.zeropage_word(wrap8(b + self.reg.x)))
    }

    /// (Indirect),Y: the zero-page word at the fetched byte, plus Y, marking a
    /// page cross.
    pub open spec fn indirect_y(self) -> (CpuState, u16) {
        let (s1, b) = self.fetch();
        let base = self.zeropage_word(b);
        let addr = wrap16(base + self.reg.y);
        (s1.mark_cross(crosses_page(addr, base)), addr)
    }

    /// Zero page indexed: the fetched byte plus `offset`, within page 0.
    pub open spec fn zeropage_indexed(self, offset: u8) -> (CpuState, u16) {
        let (s1, b) = self.fetch();
        (s1, wrap8(b + offset) as u16)
    }

    /// The byte an operand designates.
    pub open spec fn value(self, op: Operand) -> u8 {
        match op {
            Operand::Accumulator => self.reg.a,
            Operand::XRegister => self.reg.x,
            Operand::YRegister => self.reg.y,
            Operand::Address(addr) => self.mem.read(addr),
            _ => 0,
        }
    }

    /// The state after `v` is written where the operand designates.
    pub open spec fn store(self, op: Operand, v: u8) -> CpuState {
        match op {
            Operand::Accumulator => self.with_a(v),
            Operand::XRegister => self.with_x(v),
            Operand::YRegister => self.with_y(v),
            Operand::Address(addr) => CpuState { mem: self.mem.write(addr, v), ..self },
            _ => self,
        }
    }

    /// Where a jump or branch operand leads.
    pub open spec fn target(self, op: Operand) -> u16 {
        match op {
            Operand::Address(addr) => addr,
            Operand::Relative(off) => wrap16(self.reg.pc + off),
            _ => self.reg.pc,
        }
    }

    /// ADC: A + M + C into A; C from the ninth bit, V from signed overflow.
    pub open spec fn add_with_carry(self, m: u8) -> CpuState {
        let a = self.reg.a;
        let sum = a + m + if self.flag(StatusFlag::Carry) {
            1int
        } else {
            0
        };
        let r = wrap8(sum);
        let p = with_flag(
            with_flag(self.reg.p, StatusFlag::Overflow, add_overflows(a, m, r)),
            StatusFlag::Carry,
            sum > 255,
        );
        self.with_a(r).with_p(with_nz(p, r))
    }

    /// A logical result stored in A, with N and Z.
    pub open spec fn load_a(self, v: u8) -> CpuState {
        self.with_a(v).with_p(with_nz(self.reg.p, v))
    }

    /// A shift or rotate result `r` written back, with C from `carry` and then N and Z.
    pub open spec fn shift(self, op: Operand, r: u8, carry: bool) -> CpuState {
        self.with_p(with_nz(with_flag(self.reg.p, StatusFlag::Carry, carry), r)).store(op, r)
    }

    /// A result `r` written to the operand, with N and Z.
    pub open spec fn modify(self, op: Operand, r: u8) -> CpuState {
        self.with_p(with_nz(self.reg.p, r)).store(op, r)
    }

    /// CMP, CPX, CPY: C if `reg >= m`, Z if equal, N from bit 7 of `reg - m`.
    pub open spec fn compare(self, reg: u8, m: u8) -> CpuState {
        let p = with_flag(self.reg.p, StatusFlag::Carry, reg >= m);
        let p = with_flag(p, StatusFlag::Zero, reg == m);
        self.with_p(with_flag(p, StatusFlag::Negative, wrap8(reg - m) >= 128))
    }

    /// BIT: Z from A AND M, V from bit 6 of M, N from bit 7 of M.
    pub open spec fn bit_test(self, m: u8) -> CpuState {
        let p = with_flag(self.reg.p, StatusFlag::Zero, self.reg.a & m == 0);
        let p = with_flag(p, StatusFlag::Overflow, (m / 64) % 2 == 1);
        self.with_p(with_flag(p, StatusFlag::Negative, m >= 128))
    }

    /// A branch: when taken, one more cycle, another when the target lies on
    /// another page, and PC moves to the target.
    pub open spec fn branch(self, op: Operand, taken: bool) -> CpuState {
        if taken {
            let t = self.target(op);
            let extra: u8 = if crosses_page(t, self.reg.pc) {
                2
            } else {
                1
            };
            CpuState { cycles: (self.cycles + extra) as u8, ..self }.with_pc(t)
        } else {
            self
        }
    }

    /// Pushes PC and a status byte, sets I and jumps through `vector`.
    pub open spec fn enter_handler(self, status: u8, vector: u16) -> CpuState {
        let s = self.push_word(self.reg.pc).push(status);
        s.with_p(with_flag(s.reg.p, StatusFlag::NoInterrupts, true)).with_pc(
            s.mem.read_word(vector),
        )
    }

    /// RTI: P from the stack (U set, B clear), then PC.
    pub open spec fn return_from_interrupt(self) -> CpuState {
        let (s1, v) = self.pop();
        let (s2, pc) = s1.with_p(pulled_status(v)).pop_word();
        s2.with_pc(pc)
    }

    /// RTS: PC from the stack, plus one.
    pub open spec fn return_from_subroutine(self) -> CpuState {
        let (s1, pc) = self.pop_word();
        s1.with_pc(next_addr(pc))
    }
}

/// Whether an operand of this shape suits the instruction: branches take a
/// relative offset, jumps an address, and the instructions that read their
/// operand a byte.
pub open spec fn operand_fits(inst: Instruction, op: Operand) -> bool {
    match inst {
        Instruction::BCC | Instruction::BCS | Instruction::BEQ | Instruction::BMI
        | Instruction::BNE | Instruction::BPL | Instruction::BVC | Instruction::BVS => op is Relative,
        Instruction::JMP | Instruction::JSR => op is Address,
        Instruction::ADC | Instruction::AND | Instruction::ASL | Instruction::BIT
        | Instruction::CMP | Instruction::CPX | Instruction::CPY | Instruction::DEC
        | Instruction::EOR | Instruction::INC | Instruction::LDA | Instruction::LDX
        | Instruction::LDY | Instruction::LAX | Instruction::LSR | Instruction::ORA
        | Instruction::ROL | Instruction::ROR | Instruction::SBC => op.has_value(),
        _ => true,
    }
}

/// Whether addressing mode `mode` yields an operand that suits `inst`.
pub open spec fn mode_fits(inst: Instruction, mode: AddressMode) -> bool {
    match inst {
        Instruction::BCC | Instruction::BCS | Instruction::BEQ | Instruction::BMI
        | Instruction::BNE | Instruction::BPL | Instruction::BVC | Instruction::BVS => mode
            == AddressMode::Relative,
        Instruction::JMP | Instruction::JSR => mode == AddressMode::Absolute || mode
            == AddressMode::Indirect,
        Instruction::ADC | Instruction::AND | Instruction::ASL | Instruction::BIT
        | Instruction::CMP | Instruction::CPX | Instruction::CPY | Instruction::DEC
        | Instruction::EOR | Instruction::INC | Instruction::LDA | Instruction::LDX
        | Instruction::LDY | Instruction::LAX | Instruction::LSR | Instruction::ORA
        | Instruction::ROL | Instruction::ROR | Instruction::SBC => mode != AddressMode::Implied
            && mode != AddressMode::Relative,
        _ => true,
    }
}

/// Every table entry pairs its mnemonic with an addressing mode that suits it,
/// and costs at most seven base cycles.
pub proof fn lemma_table_modes(b: u8)
    ensures
        mode_fits(opcode_entry(b).inst, opcode_entry(b).addr),
        opcode_entry(b).cycles <= 7,
{
    reveal(opcode_entry);
    crate::opcode::lemma_table_cycles(b);
}

/// A mode that suits an instruction decodes to an operand that suits it.
pub proof fn lemma_decode_fits(s: CpuState, inst: Instruction, mode: AddressMode)
    requires
        mode_fits(inst, mode),
    ensures
        operand_fits(inst, decode_operand(s, mode).1),
{
    reveal(decode_operand);
}

/// The effect of executing `inst` on operand `op`; `raw` is the opcode byte.
#[verifier::opaque]
pub open spec fn execute(s: CpuState, inst: Instruction, op: Operand, raw: u8) -> CpuState {
    let m = s.value(op);
    let c: int = if s.flag(StatusFlag::Carry) {
        1
    } else {
        0
    };
    let r = s.reg;
    match inst {
        Instruction::ADC => s.add_with_carry(m),
        Instruction::SBC => s.add_with_carry((255 - m) as u8),
        Instruction::AND => s.load_a(r.a & m),
        Instruction::ORA => s.load_a(r.a | m),
        Instruction::EOR => s.load_a(r.a ^ m),
        Instruction::ASL => s.shift(op, wrap8(2 * m), m >= 128),
        Instruction::LSR => s.shift(op, m / 2, m % 2 == 1),
        Instruction::ROL => s.shift(op, wrap8(2 * m + c), m >= 128),
        Instruction::ROR => s.shift(op, (m / 2 + 128 * c) as u8, m % 2 == 1),
        Instruction::BIT => s.bit_test(m),
        Instruction::BCC => s.branch(op, !s.flag(StatusFlag::Carry)),
        Instruction::BCS => s.branch(op, s.flag(StatusFlag::Carry)),
        Instruction::BEQ => s.branch(op, s.flag(StatusFlag::Zero)),
        Instruction::BNE => s.branch(op, !s.flag(StatusFlag::Zero)),
        Instruction::BMI => s.branch(op, s.flag(StatusFlag::Negative)),
        Instruction::BPL => s.branch(op, !s.flag(StatusFlag::Negative)),
        Instruction::BVC => s.branch(op, !s.flag(StatusFlag::Overflow)),
        Instruction::BVS => s.branch(op, s.flag(StatusFlag::Overflow)),
        Instruction::BRK => {
            let t = s.push_word(r.pc).push(pushed_status(r.p));
            t.with_p(
                with_flag(with_flag(r.p, StatusFlag::Break, false), StatusFlag::NoInterrupts, true),
            ).with_pc(t.mem.read_word(IRQ_VECTOR))
        },
        Instruction::CLC => s.with_p(with_flag(r.p, StatusFlag::Carry, false)),
        Instruction::CLD => s.with_p(with_flag(r.p, StatusFlag::Decimal, false)),
        Instruction::CLI => s.with_p(with_flag(r.p, StatusFlag::NoInterrupts, false)),
        Instruction::CLV => s.with_p(with_flag(r.p, StatusFlag::Overflow, false)),
        Instruction::SEC => s.with_p(with_flag(r.p, StatusFlag::Carry, true)),
        Instruction::SED => s.with_p(with_flag(r.p, StatusFlag::Decimal, true)),
        Instruction::SEI => s.with_p(with_flag(r.p, StatusFlag::NoInterrupts, true)),
        Instruction::CMP => s.compare(r.a, m),
        Instruction::CPX => s.compare(r.x, m),
        Instruction::CPY => s.compare(r.y, m),
        Instruction::DEC => s.modify(op, wrap8(m + 255)),
        Instruction::DEX => s.modify(Operand::XRegister, wrap8(r.x + 255)),
        Instruction::DEY => s.modify(Operand::YRegister, wrap8(r.y + 255)),
        Instruction::INC => s.modify(op, wrap8(m + 1)),
        Instruction::INX => s.modify(Operand::XRegister, wrap8(r.x + 1)),
        Instruction::INY => s.modify(Operand::YRegister, wrap8(r.y + 1)),
        Instruction::JMP => s.with_pc(s.target(op)),
        Instruction::JSR => s.push_word(wrap16(r.pc - 1)).with_pc(s.target(op)),
        Instruction::LDA => s.modify(Operand::Accumulator, m),
        Instruction::LDX => s.modify(Operand::XRegister, m),
        Instruction::LDY => s.modify(Operand::YRegister, m),
        Instruction::LAX => s.modify(Operand::Accumulator, m).with_x(m),
        Instruction::NOP => s,
        Instruction::PHA => s.push(r.a),
        Instruction::PHP => s.push(pushed_status(r.p)),
        Instruction::PLA => {
            let (t, v) = s.pop();
            t.modify(Operand::Accumulator, v)
        },
        Instruction::PLP => {
            let (t, v) = s.pop();
            t.with_p(pulled_status(v))
        },
        Instruction::RTI => s.return_from_interrupt(),
        Instruction::RTS => s.return_from_subroutine(),
        Instruction::STA => s.store(op, r.a),
        Instruction::STX => s.store(op, r.x),
        Instruction::STY => s.store(op, r.y),
        Instruction::TAX => s.modify(Operand::XRegister, r.a),
        Instruction::TAY => s.modify(Operand::YRegister, r.a),
        Instruction::TSX => s.modify(Operand::XRegister, r.sp),
        Instruction::TXA => s.modify(Operand::Accumulator, r.x),
        Instruction::TYA => s.modify(Operand::Accumulator, r.y),
        Instruction::TXS => s.with_sp(r.x),
        Instruction::XXX => CpuState { invalid_opcode: Some(raw), ..s },
    }
}

/// The operand that addressing mode `mode` yields, and the state after its
/// bytes are consumed.
#[verifier::opaque]
pub open spec fn decode_operand(s: CpuState, mode: AddressMode) -> (CpuState, Operand) {
    match mode {
        AddressMode::Accumulator => (s, Operand::Accumulator),
        AddressMode::Implied => (s, Operand::Implied),
        AddressMode::Immediate => (s.with_pc(next_addr(s.reg.pc)), Operand::Address(s.reg.pc)),
        AddressMode::Zeropage => {
            let (t, a) = s.zeropage_indexed(0);
            (t, Operand::Address(a))
        },
        AddressMode::ZeropageXIndexed => {
            let (t, a) = s.zeropage_indexed(s.reg.x);
            (t, Operand::Address(a))
        },
        AddressMode::ZeropageYIndexed => {
            let (t, a) = s.zeropage_indexed(s.reg.y);
            (t, Operand::Address(a))
        },
        AddressMode::Relative => {
            let (t, b) = s.fetch();
            (t, Operand::Relative(signed8(b) as i8))
        },
        AddressMode::Absolute => {
            let (t, a) = s.fetch_word();
            (t, Operand::Address(a))
        },
        AddressMode::AbsoluteXIndexed => {
            let (t, a) = s.absolute_indexed(s.reg.x);
            (t, Operand::Address(a))
        },
        AddressMode::AbsoluteYIndexed => {
            let (t, a) = s.absolute_indexed(s.reg.y);
            (t, Operand::Address(a))
        },
        AddressMode::Indirect => {
            let (t, a) = s.indirect();
            (t, Operand::Address(a))
        },
        AddressMode::IndirectXIndexed => {
            let (t, a) = s.indirect_x();
            (t, Operand::Address(a))
        },
        AddressMode::IndirectYIndexed => {
            let (t, a) = s.indirect_y();
            (t, Operand::Address(a))
        },
    }
}

/// One instruction: fetch the opcode, load its base cycles, decode the
/// operand, execute, and account for a page-cross penalty.
pub open spec fn step(s: CpuState) -> CpuState {
    let (s1, raw) = s.fetch();
    let code = opcode_entry(raw);
    let s2 = CpuState { cycles: code.cycles, additional_cycle: false, ..s1 };
    let (s3, op) = decode_operand(s2, code.addr);
    let s4 = execute(s3, code.inst, op, raw);
    let cycles = if s4.additional_cycle && pays_page_cross(code.inst, code.addr) {
        (s4.cycles + 1) as u8
    } else {
        s4.cycles
    };
    CpuState { cycles, cycle_count: wrap64(s4.cycle_count + cycles), ..s4 }
}

/// Services an interrupt through `vector`: seven cycles.
pub open spec fn interrupt(s: CpuState, vector: u16) -> CpuState {
    let t = s.enter_handler(interrupt_status(s.reg.p), vector);
    CpuState { cycles: 7, cycle_count: wrap64(t.cycle_count + 7), ..t }
}

/// One clock cycle.
pub open spec fn tick(s: CpuState) -> CpuState {
    if s.cycles > 0 {
        CpuState { cycles: (s.cycles - 1) as u8, ..s }
    } else if s.nmi_pending {
        interrupt(CpuState { nmi_pending: false, ..s }, NMI_VECTOR)
    } else if s.irq_pending && !s.flag(StatusFlag::NoInterrupts) {
        interrupt(CpuState { irq_pending: false, ..s }, IRQ_VECTOR)
    } else {
        step(s)
    }
}

/// The state with the cycles left run down to zero.
pub open spec fn settle(s: CpuState) -> CpuState {
    CpuState { cycles: 0, ..s }
}

/// Reset: A, X, Y cleared, SP lowered by three, P = 0x24, PC from the reset
/// vector, seven cycles.
pub open spec fn reset(s: CpuState) -> CpuState {
    CpuState {
        reg: Registers {
            a: 0,
            x: 0,
            y: 0,
            pc: s.mem.read_word(RESET_VECTOR),
            sp: wrap8(s.reg.sp - 3),
            p: 0x24,
        },
        cycles: 7,
        cycle_count: 7,
        additional_cycle: false,
        nmi_pending: false,
        irq_pending: false,
        ..s
    }
}

/// Whether `inst` is one of the eight conditional branches.
pub open spec fn is_branch(inst: Instruction) -> bool {
    matches!(inst, Instruction::BCC | Instruction::BCS | Instruction::BEQ | Instruction::BMI
        | Instruction::BNE | Instruction::BPL | Instruction::BVC | Instruction::BVS)
}

/// How many operand bytes follow the opcode in addressing mode `mode`.
pub open spec fn operand_bytes(mode: AddressMode) -> int {
    match mode {
        AddressMode::Accumulator | AddressMode::Implied => 0,
        AddressMode::Absolute | AddressMode::AbsoluteXIndexed | AddressMode::AbsoluteYIndexed
        | AddressMode::Indirect => 2,
        _ => 1,
    }
}

/// The state in which the next instruction's operand is decoded: PC past the
/// opcode, base cycles loaded, no page cross yet.
pub open spec fn after_opcode(s: CpuState) -> CpuState {
    let (s1, raw) = s.fetch();
    CpuState { cycles: opcode_entry(raw).cycles, additional_cycle: false, ..s1 }
}

/// The opcode table entry of the next instruction.
pub open spec fn next_opcode(s: CpuState) -> crate::opcode::Opcode {
    opcode_entry(s.mem.read(s.reg.pc))
}

/// Whether decoding the next instruction's operand crosses a page.
pub open spec fn next_crosses_page(s: CpuState) -> bool {
    decode_operand(after_opcode(s), next_opcode(s).addr).0.additional_cycle
}

/// Pushing a byte and popping it again yields the byte and leaves every
/// register, SP included, as it was.
pub proof fn lemma_push_pop(s: CpuState, v: u8)
    requires
        s.mem.wf(),
    ensures
        s.push(v).pop().1 == v,
        s.push(v).pop().0.reg == s.reg,
{
    let sp1 = wrap8(s.reg.sp - 1);
    assert(wrap8(sp1 + 1) == s.reg.sp);
    assert(stack_addr(s.reg.sp) < 0x2000);
}

/// With the carry clear, ADC leaves `(A + M) mod 256` in A, sets C exactly
/// when `A + M >= 256`, and sets V exactly when the signed sum leaves
/// -128..=127.
pub proof fn lemma_adc_without_carry(s: CpuState, op: Operand, raw: u8)
    requires
        !s.flag(StatusFlag::Carry),
    ensures
        ({
            let a = s.reg.a;
            let m = s.value(op);
            let t = execute(s, Instruction::ADC, op, raw);
            &&& t.reg.a == (a + m) % 256
            &&& t.flag(StatusFlag::Carry) == (a + m >= 256)
            &&& t.flag(StatusFlag::Overflow) == (signed8(a) + signed8(m) < -128 || signed8(a)
                + signed8(m) > 127)
        }),
{
    assert(execute(s, Instruction::ADC, op, raw) == s.add_with_carry(s.value(op))) by {
        reveal(execute);
    }
    let a = s.reg.a;
    let m = s.value(op);
    let r = wrap8(a + m);
    let p0 = s.reg.p;
    let p1 = with_flag(p0, StatusFlag::Overflow, add_overflows(a, m, r));
    let p2 = with_flag(p1, StatusFlag::Carry, a + m > 255);
    let p3 = with_flag(p2, StatusFlag::Zero, r == 0);
    crate::registers::lemma_with_flag(p1, StatusFlag::Carry, a + m > 255, StatusFlag::Overflow);
    crate::registers::lemma_with_flag(p0, StatusFlag::Overflow, add_overflows(a, m, r), StatusFlag::Overflow);
    crate::registers::lemma_with_flag(p2, StatusFlag::Zero, r == 0, StatusFlag::Carry);
    crate::registers::lemma_with_flag(p2, StatusFlag::Zero, r == 0, StatusFlag::Overflow);
    crate::registers::lemma_with_flag(p3, StatusFlag::Negative, r >= 128, StatusFlag::Carry);
    crate::registers::lemma_with_flag(p3, StatusFlag::Negative, r >= 128, StatusFlag::Overflow);
    crate::registers::lemma_with_flag(p1, StatusFlag::Carry, a + m > 255, StatusFlag::Carry);
}

/// JMP's indirect mode with a pointer at the end of a page takes the target's
/// high byte from the start of that same page, not from the next page.
pub proof fn lemma_indirect_page_wrap(s: CpuState)
    requires
        s.fetch_word().1 % 256 == 255,
    ensures
        ({
            let ptr = s.fetch_word().1;
            decode_operand(s, AddressMode::Indirect).1 == Operand::Address(
                word(s.mem.read(ptr), s.mem.read(((ptr / 256) * 256) as u16)),
            )
        }),
{
    reveal(decode_operand);
}

/// Decoding an operand moves PC past exactly the mode's operand bytes.
/// Moving one address on, and two.
proof fn lemma_next_addr_twice(pc: u16)
    ensures
        next_addr(pc) == wrap16(pc + 1),
        next_addr(next_addr(pc)) == wrap16(pc + 2),
        wrap16(pc + 0) == pc,
{
}

proof fn lemma_decode_pc(s: CpuState, mode: AddressMode)
    ensures
        decode_operand(s, mode).0.reg.pc == wrap16(s.reg.pc + operand_bytes(mode)),
{
    lemma_next_addr_twice(s.reg.pc);
    match mode {
        AddressMode::Accumulator => {
            assert(decode_operand(s, mode).0.reg.pc == wrap16(s.reg.pc + operand_bytes(mode))) by {
                reveal(decode_operand);
            }
        },
        AddressMode::Absolute => {
            assert(decode_operand(s, mode).0.reg.pc == wrap16(s.reg.pc + operand_bytes(mode))) by {
                reveal(decode_operand);
            }
        },
        AddressMode::AbsoluteXIndexed => {
            assert(decode_operand(s, mode).0.reg.pc == wrap16(s.reg.pc + operand_bytes(mode))) by {
                reveal(decode_operand);
            }
        },
        AddressMode::AbsoluteYIndexed => {
            assert(decode_operand(s, mode).0.reg.pc == wrap16(s.reg.pc + operand_bytes(mode))) by {
                reveal(decode_operand);
            }
        },
        AddressMode::Immediate => {
            assert(decode_operand(s, mode).0.reg.pc == wrap16(s.reg.pc + operand_bytes(mode))) by {
                reveal(decode_operand);
            }
        },
        AddressMode::Implied => {
            assert(decode_operand(s, mode).0.reg.pc == wrap16(s.reg.pc + operand_bytes(mode))) by {
                reveal(decode_operand);
            }
        },
        AddressMode::Indirect => {
            assert(decode_operand(s, mode).0.reg.pc == wrap16(s.reg.pc + operand_bytes(mode))) by {
                reveal(decode_operand);
            }
        },
        AddressMode::IndirectXIndexed => {
            assert(decode_operand(s, mode).0.reg.pc == wrap16(s.reg.pc + operand_bytes(mode))) by {
                reveal(decode_operand);
            }
        },
        AddressMode::IndirectYIndexed => {
            assert(decode_operand(s, mode).0.reg.pc == wrap16(s.reg.pc + operand_bytes(mode))) by {
                reveal(decode_operand);
            }
        },
        AddressMode::Relative => {
            assert(decode_operand(s, mode).0.reg.pc == wrap16(s.reg.pc + operand_bytes(mode))) by {
                reveal(decode_operand);
            }
        },
        AddressMode::Zeropage => {
            assert(decode_operand(s, mode).0.reg.pc == wrap16(s.reg.pc + operand_bytes(mode))) by {
                reveal(decode_operand);
            }
        },
        AddressMode::ZeropageXIndexed => {
            assert(decode_operand(s, mode).0.reg.pc == wrap16(s.reg.pc + operand_bytes(mode))) by {
                reveal(decode_operand);
            }
        },
        AddressMode::ZeropageYIndexed => {
            assert(decode_operand(s, mode).0.reg.pc == wrap16(s.reg.pc + operand_bytes(mode))) by {
                reveal(decode_operand);
            }
        },
    }
}

/// Before an instruction executes, PC has moved past its opcode and exactly
/// as many operand bytes as its addressing mode takes.
pub proof fn lemma_pc_advance(s: CpuState)
    ensures
        decode_operand(after_opcode(s), next_opcode(s).addr).0.reg.pc == wrap16(
            s.reg.pc + 1 + operand_bytes(next_opcode(s).addr),
        ),
{
    let mode = next_opcode(s).addr;
    lemma_decode_pc(after_opcode(s), mode);
    let n = operand_bytes(mode);
    assert(0 <= n <= 2);
    assert(wrap16(next_addr(s.reg.pc) + n) == wrap16(s.reg.pc + 1 + n));
}

/// Executing anything but a branch leaves the cycle counters and the
/// page-cross mark alone.
proof fn lemma_execute_keeps_cycles(s: CpuState, inst: Instruction, op: Operand, raw: u8)
    requires
        !is_branch(inst),
    ensures
        execute(s, inst, op, raw).cycles == s.cycles,
        execute(s, inst, op, raw).cycle_count == s.cycle_count,
        execute(s, inst, op, raw).additional_cycle == s.additional_cycle,
{
    reveal(execute);
    match inst {
        Instruction::ADC => {},
        Instruction::AND => {},
        Instruction::ASL => {},
        Instruction::BCC => {},
        Instruction::BCS => {},
        Instruction::BEQ => {},
        Instruction::BIT => {},
        Instruction::BMI => {},
        Instruction::BNE => {},
        Instruction::BPL => {},
        Instruction::BRK => {},
        Instruction::BVC => {},
        Instruction::BVS => {},
        Instruction::CLC => {},
        Instruction::CLD => {},
        Instruction::CLI => {},
        Instruction::CLV => {},
        Instruction::CMP => {},
        Instruction::CPX => {},
        Instruction::CPY => {},
        Instruction::DEC => {},
        Instruction::DEX => {},
        Instruction::DEY => {},
        Instruction::EOR => {},
        Instruction::INC => {},
        Instruction::INX => {},
        Instruction::INY => {},
        Instruction::JMP => {},
        Instruction::JSR => {},
        Instruction::LDA => {},
        Instruction::LDX => {},
        Instruction::LDY => {},
        Instruction::LSR => {},
        Instruction::NOP => {},
        Instruction::ORA => {},
        Instruction::PHA => {},
        Instruction::PHP => {},
        Instruction::PLA => {},
        Instruction::PLP => {},
        Instruction::ROL => {},
        Instruction::ROR => {},
        Instruction::RTI => {},
        Instruction::RTS => {},
        Instruction::SBC => {},
        Instruction::SEC => {},
        Instruction::SED => {},
        Instruction::SEI => {},
        Instruction::STA => {},
        Instruction::STX => {},
        Instruction::STY => {},
        Instruction::TAX => {},
        Instruction::TAY => {},
        Instruction::TSX => {},
        Instruction::TXA => {},
        Instruction::TXS => {},
        Instruction::TYA => {},
        Instruction::LAX => {},
        Instruction::XXX => {},
    }
}

/// An instruction that neither branches nor crosses a page takes exactly its
/// base cycle count from the table.
pub proof fn lemma_base_cycles(s: CpuState)
    requires
        !is_branch(next_opcode(s).inst),
        !next_crosses_page(s),
    ensures
        step(s).cycles == next_opcode(s).cycles,
        step(s).cycle_count == wrap64(s.cycle_count + next_opcode(s).cycles),
{
    let (s3, op) = decode_operand(after_opcode(s), next_opcode(s).addr);
    assert(s3.cycles == next_opcode(s).cycles && s3.cycle_count == s.cycle_count) by {
        reveal(decode_operand);
    }
    lemma_execute_keeps_cycles(s3, next_opcode(s).inst, op, s.mem.read(s.reg.pc));
}

} // verus!
