use vstd::prelude::*;
use crate::semantics::word;

verus! {

/// Bytes of CPU work RAM.
pub const RAM_SIZE: usize = 0x800;

/// Bytes of the cartridge space, 0x4020 through 0xFFFF.
pub const CART_SIZE: usize = 0xBFE0;

/// First address of the cartridge space.
pub const CART_START: u16 = 0x4020;

/// First address of PRG ROM; writes from here on are dropped.
pub const PRG_START: u16 = 0x8000;

/// The contents of every region behind the bus.
pub struct BusState {
    /// The 2 KiB of work RAM.
    pub ram: Seq<u8>,
    /// The last byte stored to each of the eight PPU registers.
    pub ppu: Seq<u8>,
    /// The last byte stored to each APU and input register, 0x4000 through 0x4017.
    pub io: Seq<u8>,
    /// The cartridge space, 0x4020 through 0xFFFF.
    pub cart: Seq<u8>,
}

impl BusState {
    pub open spec fn wf(self) -> bool {
        &&& self.ram.len() == RAM_SIZE
        &&& self.ppu.len() == 8
        &&& self.io.len() == 0x18
        &&& self.cart.len() == CART_SIZE
    }

    /// The byte that a read of `addr` yields.
    pub open spec fn read(self, addr: u16) -> u8 {
        if addr < 0x2000 {
            self.ram[(addr % 0x800) as int]
        } else if addr < 0x4000 {
            self.ppu[(addr % 8) as int]
        } else if addr < 0x4018 {
            self.io[addr - 0x4000]
        } else if addr < CART_START {
            0
        } else {
            self.cart[addr - CART_START]
        }
    }

    /// The regions after `val` is written to `addr`.
    pub open spec fn write(self, addr: u16, val: u8) -> BusState {
        if addr < 0x2000 {
            BusState { ram: self.ram.update((addr % 0x800) as int, val), ..self }
        } else if addr < 0x4000 {
            BusState { ppu: self.ppu.update((addr % 8) as int, val), ..self }
        } else if addr < 0x4018 {
            BusState { io: self.io.update(addr - 0x4000, val), ..self }
        } else if CART_START <= addr < PRG_START {
            BusState { cart: self.cart.update(addr - CART_START, val), ..self }
        } else {
            self
        }
    }

    /// The little-endian word at `addr` and the address after it.
    pub open spec fn read_word(self, addr: u16) -> u16 {
        word(self.read(addr), self.read(next_addr(addr)))
    }
}

/// The address after `addr`, wrapping at the end of the address space.
pub open spec fn next_addr(addr: u16) -> u16 {
    ((addr + 1) % 0x10000) as u16
}

/// A memory that the CPU reads and writes through 16-bit addresses.
pub trait Memory {
    /// The byte that a read of `addr` yields.
    spec fn peek(&self, addr: u16) -> u8;

    /// Whether `after` is this memory once `val` has been written to `addr`.
    spec fn stored(&self, addr: u16, val: u8, after: &Self) -> bool;

    fn read(&self, addr: u16) -> (r: u8)
        ensures
            r == self.peek(addr),
    ;

    fn write(&mut self, addr: u16, val: u8)
        ensures
            old(self).stored(addr, val, final(self)),
    ;

    /// The little-endian word at `addr`; the high byte comes from the next
    /// address, wrapping after 0xFFFF.
    fn read_word(&self, addr: u16) -> (r: u16)
        ensures
            r == word(self.peek(addr), self.peek(next_addr(addr))),
    {
        let lower = self.read(addr) as u16;
        let upper = self.read(addr.wrapping_add(1)) as u16;
        upper * 256 + lower
    }
}

/// The CPU's 2 KiB of work RAM, seen through its four mirrors.
pub struct Ram {
    ram: Vec<u8>,
}

impl View for Ram {
    type V = Seq<u8>;

    closed spec fn view(&self) -> Seq<u8> {
        self.ram@
    }
}

impl Default for Ram {
    fn default() -> (r: Self)
        ensures
            r@ == Seq::new(RAM_SIZE as nat, |i: int| 0u8),
    {
        let r = Ram { ram: vec![0u8; RAM_SIZE] };
        assert(r@ =~= Seq::new(RAM_SIZE as nat, |i: int| 0u8));
        r
    }
}

impl Ram {
    #[verifier::type_invariant]
    spec fn inv(self) -> bool {
        self.ram@.len() == RAM_SIZE
    }
}

impl Memory for Ram {
    open spec fn peek(&self, addr: u16) -> u8 {
        self@[(addr % 0x800) as int]
    }

    open spec fn stored(&self, addr: u16, val: u8, after: &Ram) -> bool {
        after@ == self@.update((addr % 0x800) as int, val)
    }

    fn read(&self, addr: u16) -> (r: u8) {
        proof {
            use_type_invariant(self);
        }
        self.ram[(addr % 0x800) as usize]
    }

    fn write(&mut self, addr: u16, val: u8) {
        proof {
            use_type_invariant(&*self);
        }
        self.ram[(addr % 0x800) as usize] = val;
    }
}

/// Routes the 6502's address space to work RAM, the PPU and APU register
/// windows and the cartridge.
pub struct Bus {
    ram: Vec<u8>,
    ppu: Vec<u8>,
    io: Vec<u8>,
    cart: Vec<u8>,
}

impl View for Bus {
    type V = BusState;

    closed spec fn view(&self) -> BusState {
        BusState { ram: self.ram@, ppu: self.ppu@, io: self.io@, cart: self.cart@ }
    }
}

impl Default for Bus {
    /// A bus with cleared RAM and registers and an empty cartridge space.
    fn default() -> (r: Self)
        ensures
            r@.wf(),
            r@.ram == Seq::new(RAM_SIZE as nat, |i: int| 0u8),
            r@.ppu == Seq::new(8, |i: int| 0u8),
            r@.io == Seq::new(0x18, |i: int| 0u8),
            r@.cart == Seq::new(CART_SIZE as nat, |i: int| 0u8),
    {
        let r = Bus {
            ram: vec![0u8; RAM_SIZE],
            ppu: vec![0u8; 8],
            io: vec![0u8; 0x18],
            cart: vec![0u8; CART_SIZE],
        };
        assert(r@.ram =~= Seq::new(RAM_SIZE as nat, |i: int| 0u8));
        assert(r@.ppu =~= Seq::new(8, |i: int| 0u8));
        assert(r@.io =~= Seq::new(0x18, |i: int| 0u8));
        assert(r@.cart =~= Seq::new(CART_SIZE as nat, |i: int| 0u8));
        r
    }
}

/// The byte of a PRG ROM image that appears at `addr` of the cartridge space:
/// a 16 KiB image fills 0x8000 through 0xFFFF twice, a 32 KiB image once.
pub open spec fn prg_byte(prg: Seq<u8>, addr: int) -> u8 {
    if addr < PRG_START {
        0
    } else {
        prg[(addr - PRG_START) % (prg.len() as int)]
    }
}

impl Bus {
    #[verifier::type_invariant]
    spec fn inv(self) -> bool {
        &&& self.ram@.len() == RAM_SIZE
        &&& self.ppu@.len() == 8
        &&& self.io@.len() == 0x18
        &&& self.cart@.len() == CART_SIZE
    }

    /// A bus with a PRG ROM image mapped at 0x8000, if the image is 16 or 32 KiB.
    pub fn with_prg(prg: &Vec<u8>) -> (r: Option<Bus>)
        ensures
            r is Some <==> (prg@.len() == 0x4000 || prg@.len() == 0x8000),
            r is Some ==> {
                let s = r->Some_0@;
                &&& s.wf()
                &&& s.ram == Seq::new(RAM_SIZE as nat, |i: int| 0u8)
                &&& s.ppu == Seq::new(8, |i: int| 0u8)
                &&& s.io == Seq::new(0x18, |i: int| 0u8)
                &&& forall|i: int|
                    0 <= i < CART_SIZE ==> #[trigger] s.cart[i] == prg_byte(
                        prg@,
                        i + CART_START,
                    )
            },
    {
        let n = prg.len();
        if n != 0x4000 && n != 0x8000 {
            return None;
        }
        let mut bus = Bus::default();
        let start: usize = (PRG_START - CART_START) as usize;
        let mut i: usize = 0;
        while i < CART_SIZE
            invariant
                n == prg@.len(),
                n == 0x4000 || n == 0x8000,
                start == PRG_START - CART_START,
                bus@.wf(),
                bus@.ram == Seq::new(RAM_SIZE as nat, |i: int| 0u8),
                bus@.ppu == Seq::new(8, |i: int| 0u8),
                bus@.io == Seq::new(0x18, |i: int| 0u8),
                forall|j: int|
                    0 <= j < i ==> #[trigger] bus@.cart[j] == prg_byte(prg@, j + CART_START),
            decreases CART_SIZE - i,
        {
            let b: u8 = if i < start {
                0
            } else {
                prg[(i - start) % n]
            };
            bus.cart[i] = b;
            i = i + 1;
        }
        Some(bus)
    }
}

impl Memory for Bus {
    open spec fn peek(&self, addr: u16) -> u8 {
        self@.read(addr)
    }

    open spec fn stored(&self, addr: u16, val: u8, after: &Bus) -> bool {
        after@ == self@.write(addr, val)
    }

    fn read(&self, addr: u16) -> (r: u8) {
        proof {
            use_type_invariant(self);
        }
        if addr < 0x2000 {
            self.ram[(addr % 0x800) as usize]
        } else if addr < 0x4000 {
            self.ppu[(addr % 8) as usize]
        } else if addr < 0x4018 {
            self.io[(addr - 0x4000) as usize]
        } else if addr < CART_START {
            0
        } else {
            self.cart[(addr - CART_START) as usize]
        }
    }

    fn write(&mut self, addr: u16, val: u8) {
        proof {
            use_type_invariant(&*self);
        }
        if addr < 0x2000 {
            self.ram[(addr % 0x800) as usize] = val;
        } else if addr < 0x4000 {
            self.ppu[(addr % 8) as usize] = val;
        } else if addr < 0x4018 {
            self.io[(addr - 0x4000) as usize] = val;
        } else if CART_START <= addr && addr < PRG_START {
            self.cart[(addr - CART_START) as usize] = val;
        }
    }
}

} // verus!
