//! The register file and the word-addressed memory with its keyboard device.
use vstd::prelude::*;

use crate::enums::Register;

verus! {

/// Where the program counter starts.
pub const PC_START: u16 = 0x3000;

/// Number of addressable words.
pub const MAX_MEMORY: usize = 65536;

/// Keyboard status register: its high bit is set when a key is waiting.
pub const KBSR: u16 = 0xFE00;

/// Keyboard data register: the last key read.
pub const KBDR: u16 = 0xFE02;

/// The ten 16-bit registers, indexed as `Register::spec_index` gives.
pub struct RegisterManager {
    pub(crate) registers: [u16; 10],
}

impl View for RegisterManager {
    type V = Seq<u16>;

    open(crate) spec fn view(&self) -> Seq<u16> {
        self.registers@
    }
}

/// The registers at start: all zero but the program counter, which holds
/// `PC_START`.
pub open spec fn initial_registers() -> Seq<u16> {
    seq![0, 0, 0, 0, 0, 0, 0, 0, PC_START, 0]
}

impl Default for RegisterManager {
    fn default() -> (r: RegisterManager)
        ensures
            r@ == initial_registers(),
    {
        RegisterManager::new()
    }
}

impl RegisterManager {
    pub fn new() -> (r: RegisterManager)
        ensures
            r@ == initial_registers(),
    {
        let r = RegisterManager { registers: [0, 0, 0, 0, 0, 0, 0, 0, PC_START, 0] };
        assert(r@ =~= initial_registers());
        r
    }

    pub fn get(&self, reg: Register) -> (r: u16)
        ensures
            r == self@[reg.spec_index()],
    {
        self.registers[reg.index()]
    }

    pub fn set(&mut self, reg: Register, val: u16)
        ensures
            final(self)@ == old(self)@.update(reg.spec_index(), val),
    {
        self.registers[reg.index()] = val;
    }

    /// Adds one to the register, wrapping at 16 bits.
    pub fn incr(&mut self, reg: Register)
        ensures
            final(self)@ == old(self)@.update(
                reg.spec_index(),
                old(self)@[reg.spec_index()].wrapping_add(1),
            ),
    {
        let i = reg.index();
        self.registers[i] = self.registers[i].wrapping_add(1);
    }

    /// Adds `val` to the register, wrapping at 16 bits.
    pub fn incr_by(&mut self, reg: Register, val: u16)
        ensures
            final(self)@ == old(self)@.update(
                reg.spec_index(),
                old(self)@[reg.spec_index()].wrapping_add(val),
            ),
    {
        let i = reg.index();
        self.registers[i] = self.registers[i].wrapping_add(val);
    }

    /// Copies the value of `src` into `sink`.
    pub fn copy(&mut self, sink: Register, src: Register)
        ensures
            final(self)@ == old(self)@.update(sink.spec_index(), old(self)@[src.spec_index()]),
    {
        self.registers[sink.index()] = self.registers[src.index()];
    }
}


/// Memory after a key `b` has been read by the keyboard device: the status
/// register says whether a key is waiting, and a nonzero key lands in the
/// data register.
pub open spec fn after_key(mem: Seq<u16>, b: u8) -> Seq<u16> {
    if b != 0 {
        mem.update(KBSR as int, 0x8000).update(KBDR as int, b as u16)
    } else {
        mem.update(KBSR as int, 0)
    }
}

/// A read of `addr` through the device: memory afterwards and the value read.
/// A read of the keyboard status register that is handed a key takes it in
/// first; every other read is plain storage access.
pub open spec fn load(mem: Seq<u16>, addr: u16, key: Option<u8>) -> (Seq<u16>, u16) {
    if addr == KBSR && key is Some {
        let m = after_key(mem, key->0);
        (m, m[KBSR as int])
    } else {
        (mem, mem[addr as int])
    }
}

/// The 65536 words of memory.
pub struct MemoryManager {
    pub(crate) memory: [u16; 65536],
}

impl View for MemoryManager {
    type V = Seq<u16>;

    open(crate) spec fn view(&self) -> Seq<u16> {
        self.memory@
    }
}

impl Default for MemoryManager {
    fn default() -> (r: MemoryManager)
        ensures
            r@ == Seq::new(65536, |i: int| 0u16),
    {
        MemoryManager::new()
    }
}

impl MemoryManager {
    /// All words zero.
    pub fn new() -> (r: MemoryManager)
        ensures
            r@ == Seq::new(65536, |i: int| 0u16),
    {
        let r = MemoryManager { memory: [0u16; 65536] };
        assert(r@ =~= Seq::new(65536, |i: int| 0u16));
        r
    }

    /// The word stored at `addr`, without involving the keyboard device.
    pub fn peek(&self, addr: u16) -> (r: u16)
        ensures
            r == self@[addr as int],
    {
        self.memory[addr as usize]
    }

    /// Reads `addr`. A read of the keyboard status register takes in `key`,
    /// the byte that the console delivered, before the status is returned.
    pub fn read(&mut self, addr: u16, key: Option<u8>) -> (r: u16)
        ensures
            (final(self)@, r) == load(old(self)@, addr, key),
    {
        if addr == KBSR {
            if let Some(b) = key {
                if b != 0 {
                    self.write(KBSR, 0x8000);
                    self.write(KBDR, b as u16);
                } else {
                    self.write(KBSR, 0);
                }
            }
        }
        self.memory[addr as usize]
    }

    pub fn write(&mut self, addr: u16, val: u16)
        ensures
            final(self)@ == old(self)@.update(addr as int, val),
    {
        self.memory[addr as usize] = val;
    }
}

} // verus!
