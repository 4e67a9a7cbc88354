use vstd::prelude::*;
use crate::bus::{Bus, Memory, next_addr};
use crate::opcode::{AddressMode, Instruction, Opcode};
use crate::registers::{Registers, StatusFlag, with_flag, with_nz};
use crate::semantics::{
    CpuState, IRQ_VECTOR, NMI_VECTOR, RESET_VECTOR, STACK_PAGE, decode_operand, execute,
    interrupt, lemma_decode_fits, lemma_table_modes, operand_fits, pulled_status, pushed_status,
    reset, settle, step, tick, wrap16, wrap8,
};

verus! {

/// What an instruction works on, as its addressing mode resolved it.
#[derive(Debug, Clone, Copy, PartialEq, Eq, Structural)]
pub enum Operand {
    Accumulator,
    XRegister,
    YRegister,
    Address(u16),
    Relative(i8),
    Implied,
}

impl Operand {
    /// Whether the operand designates a byte that can be read and written.
    pub open spec fn has_value(self) -> bool {
        !(self is Relative || self is Implied)
    }

    /// The byte the operand designates; none for an offset or an implied operand.
    pub fn read(&self, cpu: &Cpu) -> (r: Option<u8>)
        ensures
            r == if self.has_value() {
                Some(cpu@.value(*self))
            } else {
                None
            },
    {
        match self {
            Operand::Accumulator => Some(cpu.reg.a),
            Operand::Address(addr) => Some(cpu.read(*addr)),
            Operand::XRegister => Some(cpu.reg.x),
            Operand::YRegister => Some(cpu.reg.y),
            _ => None,
        }
    }

    /// Stores `val` where the operand designates; nothing for an offset or an
    /// implied operand.
    pub fn write(&self, cpu: &mut Cpu, val: u8)
        ensures
            final(cpu)@ == old(cpu)@.store(*self, val),
    {
        match self {
            Operand::Accumulator => cpu.reg.a = val,
            Operand::XRegister => cpu.reg.x = val,
            Operand::YRegister => cpu.reg.y = val,
            Operand::Address(addr) => cpu.write(*addr, val),
            _ => {},
        };
    }

    /// Where a jump or branch operand leads: an address itself, or an offset
    /// from PC.
    pub fn absolute_addr(&self, cpu: &Cpu) -> (r: Option<u16>)
        ensures
            r == if *self is Address || *self is Relative {
                Some(cpu@.target(*self))
            } else {
                None
            },
    {
        match self {
            Operand::Address(addr) => Some(*addr),
            Operand::Relative(off) => {
                let t: i32 = cpu.reg.pc as i32 + *off as i32;
                if t < 0 {
                    Some((t + 0x10000) as u16)
                } else if t >= 0x10000 {
                    Some((t - 0x10000) as u16)
                } else {
                    Some(t as u16)
                }
            },
            _ => None,
        }
    }
}

/// The 6502: its registers, the bus it drives, and its cycle accounting.
pub struct Cpu {
    pub bus: Bus,
    pub reg: Registers,
    /// Cycles left before the next fetch.
    pub cycles: u8,
    /// Cycles spent since reset.
    pub cycle_count: u64,
    /// Whether the current instruction's operand crossed a page.
    pub additional_cycle: bool,
    /// Whether an NMI waits to be serviced.
    pub nmi_pending: bool,
    /// Whether the IRQ line is asserted.
    pub irq_pending: bool,
    /// The last opcode byte that the table did not know.
    pub invalid_opcode: Option<u8>,
}

impl View for Cpu {
    type V = CpuState;

    open spec fn view(&self) -> CpuState {
        CpuState {
            reg: self.reg,
            mem: self.bus@,
            cycles: self.cycles,
            cycle_count: self.cycle_count,
            additional_cycle: self.additional_cycle,
            nmi_pending: self.nmi_pending,
            irq_pending: self.irq_pending,
            invalid_opcode: self.invalid_opcode,
        }
    }
}

impl Cpu {
    pub fn new(bus: Bus, reg: Registers) -> (r: Cpu)
        ensures
            r.bus == bus,
            r.reg == reg,
            r.cycles == 0,
            r.cycle_count == 0,
            !r.additional_cycle,
            !r.nmi_pending,
            !r.irq_pending,
            r.invalid_opcode is None,
    {
        Cpu {
            bus,
            reg,
            cycles: 0,
            cycle_count: 0,
            additional_cycle: false,
            nmi_pending: false,
            irq_pending: false,
            invalid_opcode: None,
        }
    }

    pub fn registers(&self) -> (r: &Registers)
        ensures
            *r == self.reg,
    {
        &self.reg
    }

    /// Cycles spent since reset.
    pub fn cycle_count(&self) -> (r: u64)
        ensures
            r == self.cycle_count,
    {
        self.cycle_count
    }

    pub fn read(&self, addr: u16) -> (r: u8)
        ensures
            r == self@.mem.read(addr),
    {
        self.bus.read(addr)
    }

    pub fn write(&mut self, addr: u16, val: u8)
        ensures
            final(self)@ == (CpuState { mem: old(self)@.mem.write(addr, val), ..old(self)@ }),
    {
        self.bus.write(addr, val);
    }

    pub fn read_word(&self, addr: u16) -> (r: u16)
        ensures
            r == self@.mem.read_word(addr),
    {
        self.bus.read_word(addr)
    }

    fn fetch(&mut self) -> (r: u8)
        ensures
            (final(self)@, r) == old(self)@.fetch(),
    {
        let result = self.read(self.reg.pc);
        self.reg.pc = self.reg.pc.wrapping_add(1);
        result
    }

    fn fetch_word(&mut self) -> (r: u16)
        ensures
            (final(self)@, r) == old(self)@.fetch_word(),
    {
        let lower = self.fetch() as u16;
        let upper = self.fetch() as u16;
        upper * 256 + lower
    }

    fn fetch_immediate(&mut self) -> (r: u16)
        ensures
            final(self)@ == old(self)@.with_pc(next_addr(old(self).reg.pc)),
            r == old(self).reg.pc,
    {
        let addr = self.reg.pc;
        self.reg.pc = self.reg.pc.wrapping_add(1);
        addr
    }

    fn fetch_absolute(&mut self, offset: u8) -> (r: u16)
        ensures
            (final(self)@, r) == old(self)@.absolute_indexed(offset),
    {
        let base = self.fetch_word();
        let addr = base.wrapping_add(offset as u16);
        if addr / 256 != base / 256 {
            self.additional_cycle = true;
        }
        addr
    }

    fn fetch_indirect(&mut self) -> (r: u16)
        ensures
            (final(self)@, r) == old(self)@.indirect(),
    {
        let ptr = self.fetch_word();
        let hi_at = if ptr % 256 == 255 {
            ptr - 255
        } else {
            ptr + 1
        };
        let lower = self.read(ptr) as u16;
        let upper = self.read(hi_at) as u16;
        upper * 256 + lower
    }

    /// The little-endian word at zero-page address `p`, wrapping within page 0.
    fn read_zeropage_word(&self, p: u8) -> (r: u16)
        ensures
            r == self@.zeropage_word(p),
    {
        let lower = self.read(p as u16) as u16;
        let upper = self.read(((p as u16 + 1) % 256)) as u16;
        upper * 256 + lower
    }

    fn fetch_indirect_x(&mut self) -> (r: u16)
        ensures
            (final(self)@, r) == old(self)@.indirect_x(),
    {
        let b = self.fetch();
        let p = ((b as u16 + self.reg.x as u16) % 256) as u8;
        self.read_zeropage_word(p)
    }

    fn fetch_indirect_y(&mut self) -> (r: u16)
        ensures
            (final(self)@, r) == old(self)@.indirect_y(),
    {
        let b = self.fetch();
        let base = self.read_zeropage_word(b);
        let addr = base.wrapping_add(self.reg.y as u16);
        if addr / 256 != base / 256 {
            self.additional_cycle = true;
        }
        addr
    }

    fn fetch_zeropage(&mut self) -> (r: u16)
        ensures
            (final(self)@, r) == old(self)@.zeropage_indexed(0),
    {
        self.fetch() as u16
    }

    fn fetch_zeropage_x(&mut self) -> (r: u16)
        ensures
            (final(self)@, r) == old(self)@.zeropage_indexed(old(self).reg.x),
    {
        let b = self.fetch();
        (b as u16 + self.reg.x as u16) % 256
    }

    fn fetch_zeropage_y(&mut self) -> (r: u16)
        ensures
            (final(self)@, r) == old(self)@.zeropage_indexed(old(self).reg.y),
    {
        let b = self.fetch();
        (b as u16 + self.reg.y as u16) % 256
    }

    fn fetch_operand(&mut self, op: &Opcode) -> (r: Operand)
        ensures
            (final(self)@, r) == decode_operand(old(self)@, op.addr),
            final(self).cycles == old(self).cycles,
    {
        proof {
            reveal(decode_operand);
        }
        match op.addr {
            AddressMode::Accumulator => Operand::Accumulator,
            AddressMode::Absolute => Operand::Address(self.fetch_word()),
            AddressMode::AbsoluteXIndexed => {
                let x = self.reg.x;
                Operand::Address(self.fetch_absolute(x))
            },
            AddressMode::AbsoluteYIndexed => {
                let y = self.reg.y;
                Operand::Address(self.fetch_absolute(y))
            },
            AddressMode::Immediate => Operand::Address(self.fetch_immediate()),
            AddressMode::Implied => Operand::Implied,
            AddressMode::Indirect => Operand::Address(self.fetch_indirect()),
            AddressMode::IndirectXIndexed => Operand::Address(self.fetch_indirect_x()),
            AddressMode::IndirectYIndexed => Operand::Address(self.fetch_indirect_y()),
            AddressMode::Relative => {
                let b = self.fetch();
                let off: i8 = if b < 128 {
                    b as i8
                } else {
                    (b as i16 - 256) as i8
                };
                Operand::Relative(off)
            },
            AddressMode::Zeropage => Operand::Address(self.fetch_zeropage()),
            AddressMode::ZeropageXIndexed => Operand::Address(self.fetch_zeropage_x()),
            AddressMode::ZeropageYIndexed => Operand::Address(self.fetch_zeropage_y()),
        }
    }

    fn push(&mut self, val: u8)
        ensures
            final(self)@ == old(self)@.push(val),
    {
        self.write(STACK_PAGE + self.reg.sp as u16, val);
        self.reg.sp = self.reg.sp.wrapping_sub(1);
    }

    fn push_word(&mut self, val: u16)
        ensures
            final(self)@ == old(self)@.push_word(val),
    {
        self.push((val / 256) as u8);
        self.push((val % 256) as u8);
    }

    fn pop(&mut self) -> (r: u8)
        ensures
            (final(self)@, r) == old(self)@.pop(),
    {
        self.reg.sp = self.reg.sp.wrapping_add(1);
        self.read(STACK_PAGE + self.reg.sp as u16)
    }

    fn pop_word(&mut self) -> (r: u16)
        ensures
            (final(self)@, r) == old(self)@.pop_word(),
    {
        let lower = self.pop() as u16;
        let upper = self.pop() as u16;
        upper * 256 + lower
    }
}

impl Cpu {
    /// Sets Z and N from `v`.
    fn set_nz(&mut self, v: u8)
        ensures
            final(self)@ == old(self)@.with_p(with_nz(old(self).reg.p, v)),
    {
        self.reg.set_flag(StatusFlag::Zero, v == 0);
        self.reg.set_flag(StatusFlag::Negative, v >= 0x80);
    }

    /// A + m + C into A, with V, C, Z and N.
    fn add_to_accumulator(&mut self, m: u8)
        ensures
            final(self)@ == old(self)@.add_with_carry(m),
    {
        let a = self.reg.a;
        let carry: u16 = if self.reg.get_flag(StatusFlag::Carry) {
            1
        } else {
            0
        };
        let sum: u16 = a as u16 + m as u16 + carry;
        let r = (sum % 256) as u8;
        let overflow = (a < 128) == (m < 128) && (r < 128) != (a < 128);
        self.reg.set_flag(StatusFlag::Overflow, overflow);
        self.reg.set_flag(StatusFlag::Carry, sum > 255);
        self.reg.a = r;
        self.set_nz(r);
    }

    fn adc(&mut self, op: Operand)
        requires
            op.has_value(),
        ensures
            final(self)@ == old(self)@.add_with_carry(old(self)@.value(op)),
    {
        let m = op.read(self).unwrap();
        self.add_to_accumulator(m);
    }

    /// SBC adds the one's complement of the operand.
    fn sbc(&mut self, op: Operand)
        requires
            op.has_value(),
        ensures
            final(self)@ == old(self)@.add_with_carry((255 - old(self)@.value(op)) as u8),
    {
        let m = op.read(self).unwrap();
        self.add_to_accumulator(255 - m);
    }

    fn and(&mut self, op: Operand)
        requires
            op.has_value(),
        ensures
            final(self)@ == old(self)@.load_a(old(self).reg.a & old(self)@.value(op)),
    {
        let m = op.read(self).unwrap();
        let v = self.reg.a & m;
        self.reg.a = v;
        self.set_nz(v);
    }

    fn ora(&mut self, op: Operand)
        requires
            op.has_value(),
        ensures
            final(self)@ == old(self)@.load_a(old(self).reg.a | old(self)@.value(op)),
    {
        let m = op.read(self).unwrap();
        let v = self.reg.a | m;
        self.reg.a = v;
        self.set_nz(v);
    }

    fn eor(&mut self, op: Operand)
        requires
            op.has_value(),
        ensures
            final(self)@ == old(self)@.load_a(old(self).reg.a ^ old(self)@.value(op)),
    {
        let m = op.read(self).unwrap();
        let v = self.reg.a ^ m;
        self.reg.a = v;
        self.set_nz(v);
    }

    /// Writes a shift result back: C from `carry`, then Z and N.
    fn shift_result(&mut self, op: Operand, r: u8, carry: bool)
        ensures
            final(self)@ == old(self)@.shift(op, r, carry),
    {
        self.reg.set_flag(StatusFlag::Carry, carry);
        self.set_nz(r);
        op.write(self, r);
    }

    fn asl(&mut self, op: Operand)
        requires
            op.has_value(),
        ensures
            ({
                let m = old(self)@.value(op);
                final(self)@ == old(self)@.shift(op, wrap8(2 * m), m >= 128)
            }),
    {
        let m = op.read(self).unwrap();
        self.shift_result(op, ((m as u16 * 2) % 256) as u8, m >= 128);
    }

    fn lsr(&mut self, op: Operand)
        requires
            op.has_value(),
        ensures
            ({
                let m = old(self)@.value(op);
                final(self)@ == old(self)@.shift(op, m / 2, m % 2 == 1)
            }),
    {
        let m = op.read(self).unwrap();
        self.shift_result(op, m / 2, m % 2 == 1);
    }

    fn rol(&mut self, op: Operand)
        requires
            op.has_value(),
        ensures
            ({
                let m = old(self)@.value(op);
                let c: int = if old(self)@.flag(StatusFlag::Carry) { 1 } else { 0 };
                final(self)@ == old(self)@.shift(op, wrap8(2 * m + c), m >= 128)
            }),
    {
        let m = op.read(self).unwrap();
        let carry: u16 = if self.reg.get_flag(StatusFlag::Carry) {
            1
        } else {
            0
        };
        self.shift_result(op, ((m as u16 * 2 + carry) % 256) as u8, m >= 128);
    }

    fn ror(&mut self, op: Operand)
        requires
            op.has_value(),
        ensures
            ({
                let m = old(self)@.value(op);
                let c: int = if old(self)@.flag(StatusFlag::Carry) { 1 } else { 0 };
                final(self)@ == old(self)@.shift(op, (m / 2 + 128 * c) as u8, m % 2 == 1)
            }),
    {
        let m = op.read(self).unwrap();
        let carry: u8 = if self.reg.get_flag(StatusFlag::Carry) {
            128
        } else {
            0
        };
        self.shift_result(op, m / 2 + carry, m % 2 == 1);
    }

    fn bit(&mut self, op: Operand)
        requires
            op.has_value(),
        ensures
            final(self)@ == old(self)@.bit_test(old(self)@.value(op)),
    {
        let m = op.read(self).unwrap();
        self.reg.set_flag(StatusFlag::Zero, self.reg.a & m == 0);
        self.reg.set_flag(StatusFlag::Overflow, (m / 64) % 2 == 1);
        self.reg.set_flag(StatusFlag::Negative, m >= 128);
    }

    fn branch(&mut self, op: Operand, condition: bool)
        requires
            op is Relative,
            old(self).cycles <= 7,
        ensures
            final(self)@ == old(self)@.branch(op, condition),
            final(self).cycles <= old(self).cycles + 2,
    {
        if condition {
            let addr = op.absolute_addr(self).unwrap();
            let extra: u8 = if addr / 256 != self.reg.pc / 256 {
                2
            } else {
                1
            };
            self.cycles = self.cycles + extra;
            self.reg.pc = addr;
        }
    }

    fn bcc(&mut self, op: Operand)
        requires
            op is Relative,
            old(self).cycles <= 7,
        ensures
            final(self)@ == old(self)@.branch(op, !old(self)@.flag(StatusFlag::Carry)),
            final(self).cycles <= old(self).cycles + 2,
    {
        let condition = !self.reg.get_flag(StatusFlag::Carry);
        self.branch(op, condition);
    }

    fn bcs(&mut self, op: Operand)
        requires
            op is Relative,
            old(self).cycles <= 7,
        ensures
            final(self)@ == old(self)@.branch(op, old(self)@.flag(StatusFlag::Carry)),
            final(self).cycles <= old(self).cycles + 2,
    {
        let condition = self.reg.get_flag(StatusFlag::Carry);
        self.branch(op, condition);
    }

    fn beq(&mut self, op: Operand)
        requires
            op is Relative,
            old(self).cycles <= 7,
        ensures
            final(self)@ == old(self)@.branch(op, old(self)@.flag(StatusFlag::Zero)),
            final(self).cycles <= old(self).cycles + 2,
    {
        let condition = self.reg.get_flag(StatusFlag::Zero);
        self.branch(op, condition);
    }

    fn bmi(&mut self, op: Operand)
        requires
            op is Relative,
            old(self).cycles <= 7,
        ensures
            final(self)@ == old(self)@.branch(op, old(self)@.flag(StatusFlag::Negative)),
            final(self).cycles <= old(self).cycles + 2,
    {
        let condition = self.reg.get_flag(StatusFlag::Negative);
        self.branch(op, condition);
    }

    fn bne(&mut self, op: Operand)
        requires
            op is Relative,
            old(self).cycles <= 7,
        ensures
            final(self)@ == old(self)@.branch(op, !old(self)@.flag(StatusFlag::Zero)),
            final(self).cycles <= old(self).cycles + 2,
    {
        let condition = !self.reg.get_flag(StatusFlag::Zero);
        self.branch(op, condition);
    }

    fn bpl(&mut self, op: Operand)
        requires
            op is Relative,
            old(self).cycles <= 7,
        ensures
            final(self)@ == old(self)@.branch(op, !old(self)@.flag(StatusFlag::Negative)),
            final(self).cycles <= old(self).cycles + 2,
    {
        let condition = !self.reg.get_flag(StatusFlag::Negative);
        self.branch(op, condition);
    }

    fn bvc(&mut self, op: Operand)
        requires
            op is Relative,
            old(self).cycles <= 7,
        ensures
            final(self)@ == old(self)@.branch(op, !old(self)@.flag(StatusFlag::Overflow)),
            final(self).cycles <= old(self).cycles + 2,
    {
        let condition = !self.reg.get_flag(StatusFlag::Overflow);
        self.branch(op, condition);
    }

    fn bvs(&mut self, op: Operand)
        requires
            op is Relative,
            old(self).cycles <= 7,
        ensures
            final(self)@ == old(self)@.branch(op, old(self)@.flag(StatusFlag::Overflow)),
            final(self).cycles <= old(self).cycles + 2,
    {
        let condition = self.reg.get_flag(StatusFlag::Overflow);
        self.branch(op, condition);
    }

    fn clc(&mut self)
        ensures
            final(self)@ == old(self)@.with_p(with_flag(old(self).reg.p, StatusFlag::Carry, false)),
    {
        self.reg.set_flag(StatusFlag::Carry, false);
    }

    fn cld(&mut self)
        ensures
            final(self)@ == old(self)@.with_p(with_flag(old(self).reg.p, StatusFlag::Decimal, false)),
    {
        self.reg.set_flag(StatusFlag::Decimal, false);
    }

    fn cli(&mut self)
        ensures
            final(self)@ == old(self)@.with_p(with_flag(old(self).reg.p, StatusFlag::NoInterrupts, false)),
    {
        self.reg.set_flag(StatusFlag::NoInterrupts, false);
    }

    fn clv(&mut self)
        ensures
            final(self)@ == old(self)@.with_p(with_flag(old(self).reg.p, StatusFlag::Overflow, false)),
    {
        self.reg.set_flag(StatusFlag::Overflow, false);
    }

    fn sec(&mut self)
        ensures
            final(self)@ == old(self)@.with_p(with_flag(old(self).reg.p, StatusFlag::Carry, true)),
    {
        self.reg.set_flag(StatusFlag::Carry, true);
    }

    fn sed(&mut self)
        ensures
            final(self)@ == old(self)@.with_p(with_flag(old(self).reg.p, StatusFlag::Decimal, true)),
    {
        self.reg.set_flag(StatusFlag::Decimal, true);
    }

    fn sei(&mut self)
        ensures
            final(self)@ == old(self)@.with_p(with_flag(old(self).reg.p, StatusFlag::NoInterrupts, true)),
    {
        self.reg.set_flag(StatusFlag::NoInterrupts, true);
    }

    /// BRK: pushes PC and P (with B and U set), clears B, sets I and jumps
    /// through the IRQ vector.
    fn brk(&mut self)
        ensures
            final(self)@ == execute(old(self)@, Instruction::BRK, Operand::Implied, 0),
    {
        proof {
            reveal(execute);
        }
        self.push_word(self.reg.pc);
        let status = (self.reg.p | StatusFlag::Break.mask()) | StatusFlag::Unused.mask();
        self.push(status);
        self.reg.set_flag(StatusFlag::Break, false);
        self.reg.set_flag(StatusFlag::NoInterrupts, true);
        self.reg.pc = self.read_word(IRQ_VECTOR);
    }

    fn compare(&mut self, op: Operand, reg: Operand)
        requires
            op.has_value(),
            reg.has_value(),
        ensures
            final(self)@ == old(self)@.compare(old(self)@.value(reg), old(self)@.value(op)),
    {
        let m = op.read(self).unwrap();
        let r = reg.read(self).unwrap();
        let diff = ((r as u16 + 256 - m as u16) % 256) as u8;
        self.reg.set_flag(StatusFlag::Carry, r >= m);
        self.reg.set_flag(StatusFlag::Zero, r == m);
        self.reg.set_flag(StatusFlag::Negative, diff >= 128);
    }

    fn cmp(&mut self, op: Operand)
        requires
            op.has_value(),
        ensures
            final(self)@ == old(self)@.compare(old(self).reg.a, old(self)@.value(op)),
    {
        self.compare(op, Operand::Accumulator);
    }

    fn cpx(&mut self, op: Operand)
        requires
            op.has_value(),
        ensures
            final(self)@ == old(self)@.compare(old(self).reg.x, old(self)@.value(op)),
    {
        self.compare(op, Operand::XRegister);
    }

    fn cpy(&mut self, op: Operand)
        requires
            op.has_value(),
        ensures
            final(self)@ == old(self)@.compare(old(self).reg.y, old(self)@.value(op)),
    {
        self.compare(op, Operand::YRegister);
    }

    fn dec(&mut self, op: Operand)
        requires
            op.has_value(),
        ensures
            final(self)@ == old(self)@.modify(op, wrap8(old(self)@.value(op) + 255)),
    {
        let m = op.read(self).unwrap();
        let v = ((m as u16 + 255) % 256) as u8;
        self.set_nz(v);
        op.write(self, v);
    }

    fn dex(&mut self)
        ensures
            final(self)@ == old(self)@.modify(Operand::XRegister, wrap8(old(self).reg.x + 255)),
    {
        self.dec(Operand::XRegister);
    }

    fn dey(&mut self)
        ensures
            final(self)@ == old(self)@.modify(Operand::YRegister, wrap8(old(self).reg.y + 255)),
    {
        self.dec(Operand::YRegister);
    }

    fn inc(&mut self, op: Operand)
        requires
            op.has_value(),
        ensures
            final(self)@ == old(self)@.modify(op, wrap8(old(self)@.value(op) + 1)),
    {
        let m = op.read(self).unwrap();
        let v = m.wrapping_add(1);
        self.set_nz(v);
        op.write(self, v);
    }

    fn inx(&mut self)
        ensures
            final(self)@ == old(self)@.modify(Operand::XRegister, wrap8(old(self).reg.x + 1)),
    {
        self.inc(Operand::XRegister);
    }

    fn iny(&mut self)
        ensures
            final(self)@ == old(self)@.modify(Operand::YRegister, wrap8(old(self).reg.y + 1)),
    {
        self.inc(Operand::YRegister);
    }

    fn jmp(&mut self, op: Operand)
        requires
            op is Address,
        ensures
            final(self)@ == old(self)@.with_pc(old(self)@.target(op)),
    {
        self.reg.pc = op.absolute_addr(self).unwrap();
    }

    /// JSR pushes the address of the instruction's last byte, then jumps.
    fn jsr(&mut self, op: Operand)
        requires
            op is Address,
        ensures
            final(self)@ == old(self)@.push_word(wrap16(old(self).reg.pc - 1)).with_pc(
                old(self)@.target(op),
            ),
    {
        let target = op.absolute_addr(self).unwrap();
        self.push_word(self.reg.pc.wrapping_sub(1));
        self.reg.pc = target;
    }

    /// Loads the operand's byte into the register `reg`, with Z and N.
    fn ld_reg(&mut self, op: Operand, reg: Operand)
        requires
            op.has_value(),
        ensures
            final(self)@ == old(self)@.modify(reg, old(self)@.value(op)),
    {
        let m = op.read(self).unwrap();
        self.set_nz(m);
        reg.write(self, m);
    }

    fn lda(&mut self, op: Operand)
        requires
            op.has_value(),
        ensures
            final(self)@ == old(self)@.modify(Operand::Accumulator, old(self)@.value(op)),
    {
        self.ld_reg(op, Operand::Accumulator);
    }

    fn ldx(&mut self, op: Operand)
        requires
            op.has_value(),
        ensures
            final(self)@ == old(self)@.modify(Operand::XRegister, old(self)@.value(op)),
    {
        self.ld_reg(op, Operand::XRegister);
    }

    fn ldy(&mut self, op: Operand)
        requires
            op.has_value(),
        ensures
            final(self)@ == old(self)@.modify(Operand::YRegister, old(self)@.value(op)),
    {
        self.ld_reg(op, Operand::YRegister);
    }

    /// LAX loads the same byte into A and X.
    fn lax(&mut self, op: Operand)
        requires
            op.has_value(),
        ensures
            final(self)@ == old(self)@.modify(Operand::Accumulator, old(self)@.value(op)).with_x(
                old(self)@.value(op),
            ),
    {
        self.ld_reg(op, Operand::Accumulator);
        self.reg.x = self.reg.a;
    }

    fn nop(&mut self)
        ensures
            final(self)@ == old(self)@,
    {
    }

    /// An opcode without a table entry runs as a no-op and is recorded.
    fn invalid(&mut self, raw: u8)
        ensures
            final(self)@ == (CpuState { invalid_opcode: Some(raw), ..old(self)@ }),
    {
        self.invalid_opcode = Some(raw);
    }

    fn pha(&mut self)
        ensures
            final(self)@ == old(self)@.push(old(self).reg.a),
    {
        self.push(self.reg.a);
    }

    /// PHP pushes P with B and U set; P itself is unchanged.
    fn php(&mut self)
        ensures
            final(self)@ == old(self)@.push(pushed_status(old(self).reg.p)),
    {
        let status = (self.reg.p | StatusFlag::Break.mask()) | StatusFlag::Unused.mask();
        self.push(status);
    }

    fn pla(&mut self)
        ensures
            final(self)@ == old(self)@.pop().0.modify(Operand::Accumulator, old(self)@.pop().1),
    {
        let v = self.pop();
        self.set_nz(v);
        self.reg.a = v;
    }

    /// PLP takes P from the stack with U set and B clear.
    fn plp(&mut self)
        ensures
            final(self)@ == old(self)@.pop().0.with_p(pulled_status(old(self)@.pop().1)),
    {
        let v = self.pop();
        self.reg.p = v;
        self.reg.set_flag(StatusFlag::Unused, true);
        self.reg.set_flag(StatusFlag::Break, false);
    }

    fn rti(&mut self)
        ensures
            final(self)@ == old(self)@.return_from_interrupt(),
    {
        self.plp();
        self.reg.pc = self.pop_word();
    }

    fn rts(&mut self)
        ensures
            final(self)@ == old(self)@.return_from_subroutine(),
    {
        self.reg.pc = self.pop_word().wrapping_add(1);
    }

    fn sta(&mut self, op: Operand)
        ensures
            final(self)@ == old(self)@.store(op, old(self).reg.a),
    {
        let val = self.reg.a;
        op.write(self, val);
    }

    fn stx(&mut self, op: Operand)
        ensures
            final(self)@ == old(self)@.store(op, old(self).reg.x),
    {
        let val = self.reg.x;
        op.write(self, val);
    }

    fn sty(&mut self, op: Operand)
        ensures
            final(self)@ == old(self)@.store(op, old(self).reg.y),
    {
        let val = self.reg.y;
        op.write(self, val);
    }

    fn tax(&mut self)
        ensures
            final(self)@ == old(self)@.modify(Operand::XRegister, old(self).reg.a),
    {
        let v = self.reg.a;
        self.reg.x = v;
        self.set_nz(v);
    }

    fn tay(&mut self)
        ensures
            final(self)@ == old(self)@.modify(Operand::YRegister, old(self).reg.a),
    {
        let v = self.reg.a;
        self.reg.y = v;
        self.set_nz(v);
    }

    fn tsx(&mut self)
        ensures
            final(self)@ == old(self)@.modify(Operand::XRegister, old(self).reg.sp),
    {
        let v = self.reg.sp;
        self.reg.x = v;
        self.set_nz(v);
    }

    fn txa(&mut self)
        ensures
            final(self)@ == old(self)@.modify(Operand::Accumulator, old(self).reg.x),
    {
        let v = self.reg.x;
        self.reg.a = v;
        self.set_nz(v);
    }

    fn tya(&mut self)
        ensures
            final(self)@ == old(self)@.modify(Operand::Accumulator, old(self).reg.y),
    {
        let v = self.reg.y;
        self.reg.a = v;
        self.set_nz(v);
    }

    fn txs(&mut self)
        ensures
            final(self)@ == old(self)@.with_sp(old(self).reg.x),
    {
        self.reg.sp = self.reg.x;
    }
}

impl Cpu {
    #[verifier::rlimit(50)]
    fn execute_op(&mut self, code: &Opcode, op: Operand, raw: u8)
        requires
            operand_fits(code.inst, op),
            old(self).cycles <= 7,
        ensures
            final(self)@ == execute(old(self)@, code.inst, op, raw),
            final(self).cycles <= old(self).cycles + 2,
    {
        proof {
            reveal(execute);
        }
        match code.inst {
            Instruction::ADC => self.adc(op),
            Instruction::AND => self.and(op),
            Instruction::ASL => self.asl(op),
            Instruction::BCC => self.bcc(op),
            Instruction::BCS => self.bcs(op),
            Instruction::BEQ => self.beq(op),
            Instruction::BIT => self.bit(op),
            Instruction::BMI => self.bmi(op),
            Instruction::BNE => self.bne(op),
            Instruction::BPL => self.bpl(op),
            Instruction::BRK => self.brk(),
            Instruction::BVC => self.bvc(op),
            Instruction::BVS => self.bvs(op),
            Instruction::CLC => self.clc(),
            Instruction::CLD => self.cld(),
            Instruction::CLI => self.cli(),
            Instruction::CLV => self.clv(),
            Instruction::CMP => self.cmp(op),
            Instruction::CPX => self.cpx(op),
            Instruction::CPY => self.cpy(op),
            Instruction::DEC => self.dec(op),
            Instruction::DEX => self.dex(),
            Instruction::DEY => self.dey(),
            Instruction::EOR => self.eor(op),
            Instruction::INC => self.inc(op),
            Instruction::INX => self.inx(),
            Instruction::INY => self.iny(),
            Instruction::JMP => self.jmp(op),
            Instruction::JSR => self.jsr(op),
            Instruction::LDA => self.lda(op),
            Instruction::LDX => self.ldx(op),
            Instruction::LDY => self.ldy(op),
            Instruction::LAX => self.lax(op),
            Instruction::LSR => self.lsr(op),
            Instruction::NOP => self.nop(),
            Instruction::ORA => self.ora(op),
            Instruction::PHA => self.pha(),
            Instruction::PHP => self.php(),
            Instruction::PLA => self.pla(),
            Instruction::PLP => self.plp(),
            Instruction::ROL => self.rol(op),
            Instruction::ROR => self.ror(op),
            Instruction::RTI => self.rti(),
            Instruction::RTS => self.rts(),
            Instruction::SBC => self.sbc(op),
            Instruction::SEC => self.sec(),
            Instruction::SED => self.sed(),
            Instruction::SEI => self.sei(),
            Instruction::STA => self.sta(op),
            Instruction::STX => self.stx(op),
            Instruction::STY => self.sty(op),
            Instruction::TAX => self.tax(),
            Instruction::TAY => self.tay(),
            Instruction::TSX => self.tsx(),
            Instruction::TXA => self.txa(),
            Instruction::TXS => self.txs(),
            Instruction::TYA => self.tya(),
            Instruction::XXX => self.invalid(raw),
        };
    }

    /// Pushes PC and P (B clear, U set), sets I, jumps through `vector` and
    /// takes seven cycles.
    fn service_interrupt(&mut self, vector: u16)
        ensures
            final(self)@ == interrupt(old(self)@, vector),
    {
        self.push_word(self.reg.pc);
        let status = (self.reg.p & !StatusFlag::Break.mask()) | StatusFlag::Unused.mask();
        self.push(status);
        self.reg.set_flag(StatusFlag::NoInterrupts, true);
        self.reg.pc = self.read_word(vector);
        self.cycles = 7;
        self.cycle_count = self.cycle_count.wrapping_add(7);
    }

    /// One clock cycle: counts down the cycles left; at zero, services a
    /// pending NMI, else an unmasked IRQ, else runs the next instruction.
    pub fn clock(&mut self)
        ensures
            final(self)@ == tick(old(self)@),
    {
        if self.cycles > 0 {
            self.cycles = self.cycles - 1;
            return;
        }
        if self.nmi_pending {
            self.nmi_pending = false;
            self.service_interrupt(NMI_VECTOR);
            return;
        }
        if self.irq_pending && !self.reg.get_flag(StatusFlag::NoInterrupts) {
            self.irq_pending = false;
            self.service_interrupt(IRQ_VECTOR);
            return;
        }
        self.run_instruction();
    }

    /// Fetches, decodes and executes one instruction, then accounts its cycles.
    fn run_instruction(&mut self)
        ensures
            final(self)@ == step(old(self)@),
    {
        let raw = self.fetch();
        let code = Opcode::lookup(raw);
        self.cycles = code.cycles;
        self.additional_cycle = false;
        let ghost before = self@;
        let operand = self.fetch_operand(&code);
        proof {
            lemma_table_modes(raw);
            lemma_decode_fits(before, code.inst, code.addr);
        }
        self.execute_op(&code, operand, raw);
        if self.additional_cycle && code.pays_page_cross() {
            self.cycles = self.cycles + 1;
        }
        self.cycle_count = self.cycle_count.wrapping_add(self.cycles as u64);
    }

    /// Runs the cycles left, then one instruction (or interrupt entry) and
    /// all of its cycles.
    pub fn execute_instruction(&mut self)
        ensures
            final(self)@ == settle(tick(settle(old(self)@))),
    {
        while self.cycles > 0
            invariant
                self@ == (CpuState { cycles: self.cycles, ..old(self)@ }),
            decreases self.cycles,
        {
            self.clock();
        }
        self.clock();
        let ghost mid = self@;
        while self.cycles > 0
            invariant
                self@ == (CpuState { cycles: self.cycles, ..mid }),
            decreases self.cycles,
        {
            self.clock();
        }
    }

    /// Reset: A, X and Y cleared, SP lowered by three, P = 0x24 (I and U set),
    /// PC from the reset vector, seven cycles.
    pub fn reset(&mut self)
        ensures
            final(self)@ == reset(old(self)@),
    {
        self.reg.a = 0;
        self.reg.x = 0;
        self.reg.y = 0;
        self.reg.sp = self.reg.sp.wrapping_sub(3);
        self.reg.p = 0x24;
        self.reg.pc = self.read_word(RESET_VECTOR);
        self.cycles = 7;
        self.cycle_count = 7;
        self.additional_cycle = false;
        self.nmi_pending = false;
        self.irq_pending = false;
    }

    /// Asserts the IRQ line; it is serviced between instructions while I is clear.
    pub fn irq(&mut self)
        ensures
            final(self)@ == (CpuState { irq_pending: true, ..old(self)@ }),
    {
        self.irq_pending = true;
    }

    /// Signals an NMI; it is serviced before the next instruction.
    pub fn nmi(&mut self)
        ensures
            final(self)@ == (CpuState { nmi_pending: true, ..old(self)@ }),
    {
        self.nmi_pending = true;
    }
}

} // verus!
