use vstd::prelude::*;

verus! {

/// The eight bits of the processor status register, least significant first.
#[derive(Debug, Clone, Copy, PartialEq, Eq, Structural)]
pub enum StatusFlag {
    Carry,
    Zero,
    NoInterrupts,
    Decimal,
    Break,
    Unused,
    Overflow,
    Negative,
}

impl StatusFlag {
    /// The bit that the flag occupies in P.
    pub open spec fn spec_mask(self) -> u8 {
        match self {
            StatusFlag::Carry => 0x01,
            StatusFlag::Zero => 0x02,
            StatusFlag::NoInterrupts => 0x04,
            StatusFlag::Decimal => 0x08,
            StatusFlag::Break => 0x10,
            StatusFlag::Unused => 0x20,
            StatusFlag::Overflow => 0x40,
            StatusFlag::Negative => 0x80,
        }
    }

    pub fn mask(self) -> (r: u8)
        ensures
            r == self.spec_mask(),
    {
        match self {
            StatusFlag::Carry => 0x01,
            StatusFlag::Zero => 0x02,
            StatusFlag::NoInterrupts => 0x04,
            StatusFlag::Decimal => 0x08,
            StatusFlag::Break => 0x10,
            StatusFlag::Unused => 0x20,
            StatusFlag::Overflow => 0x40,
            StatusFlag::Negative => 0x80,
        }
    }
}

/// Whether `flag` is set in the status byte `p`.
pub open spec fn flag_of(p: u8, flag: StatusFlag) -> bool {
    p & flag.spec_mask() != 0
}

/// The status byte `p` with `flag` set to `on` and every other bit kept.
pub open spec fn with_flag(p: u8, flag: StatusFlag, on: bool) -> u8 {
    if on {
        p | flag.spec_mask()
    } else {
        p & !flag.spec_mask()
    }
}

/// The status byte `p` with Z and N taken from the result `v`.
pub open spec fn with_nz(p: u8, v: u8) -> u8 {
    with_flag(with_flag(p, StatusFlag::Zero, v == 0), StatusFlag::Negative, v >= 0x80)
}

/// Setting a flag makes it read back as set, and leaves the other seven alone.
pub proof fn lemma_with_flag(p: u8, flag: StatusFlag, on: bool, other: StatusFlag)
    ensures
        flag_of(with_flag(p, flag, on), flag) == on,
        other != flag ==> flag_of(with_flag(p, flag, on), other) == flag_of(p, other),
{
    let m = flag.spec_mask();
    let o = other.spec_mask();
    assert(m == 1 || m == 2 || m == 4 || m == 8 || m == 16 || m == 32 || m == 64 || m == 128);
    assert(other != flag ==> o != m);
    lemma_bit_masks(p, m, o);
}

proof fn lemma_bit_masks(p: u8, m: u8, o: u8)
    requires
        m == 1 || m == 2 || m == 4 || m == 8 || m == 16 || m == 32 || m == 64 || m == 128,
        o == 1 || o == 2 || o == 4 || o == 8 || o == 16 || o == 32 || o == 64 || o == 128,
    ensures
        (p | m) & m != 0,
        (p & !m) & m == 0,
        o != m ==> ((p | m) & o != 0) == (p & o != 0),
        o != m ==> ((p & !m) & o != 0) == (p & o != 0),
{
    assert((p | m) & m != 0) by (bit_vector)
        requires m == 1 || m == 2 || m == 4 || m == 8 || m == 16 || m == 32 || m == 64 || m == 128;
    assert((p & !m) & m == 0) by (bit_vector);
    assert(o != m ==> ((p | m) & o != 0) == (p & o != 0)) by (bit_vector)
        requires
            m == 1 || m == 2 || m == 4 || m == 8 || m == 16 || m == 32 || m == 64 || m == 128,
            o == 1 || o == 2 || o == 4 || o == 8 || o == 16 || o == 32 || o == 64 || o == 128;
    assert(o != m ==> ((p & !m) & o != 0) == (p & o != 0)) by (bit_vector)
        requires
            m == 1 || m == 2 || m == 4 || m == 8 || m == 16 || m == 32 || m == 64 || m == 128,
            o == 1 || o == 2 || o == 4 || o == 8 || o == 16 || o == 32 || o == 64 || o == 128;
}

/// The six registers of the 6502.
#[derive(Clone, Copy, Debug, PartialEq, Eq, Structural)]
pub struct Registers {
    pub a: u8,
    pub x: u8,
    pub y: u8,
    pub pc: u16,
    pub sp: u8,
    pub p: u8,
}

impl Registers {
    pub fn set_flag(&mut self, flag: StatusFlag, mode: bool)
        ensures
            *final(self) == (Registers { p: with_flag(old(self).p, flag, mode), ..*old(self) }),
    {
        if mode {
            self.p = self.p | flag.mask();
        } else {
            self.p = self.p & !flag.mask();
        }
    }

    pub fn get_flag(&self, flag: StatusFlag) -> (r: bool)
        ensures
            r == flag_of(self.p, flag),
    {
        (self.p & flag.mask()) != 0
    }
}

impl Default for Registers {
    /// The power-on state: a reset then brings SP to 0xFD and P to 0x24.
    fn default() -> (r: Self)
        ensures
            r == (Registers { a: 0, x: 0, y: 0, pc: 0, sp: 0, p: 0x34 }),
    {
        Registers { a: 0, x: 0, y: 0, pc: 0, sp: 0, p: 0x34 }
    }
}

} // verus!
