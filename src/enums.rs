//! The machine's named values: registers, opcodes, condition flags and trap
//! vectors.
use vstd::prelude::*;

verus! {

/// The ten registers: eight general-purpose ones, the program counter and the
/// condition-flags register.
#[derive(Clone, Copy, Debug, PartialEq, Eq, Structural)]
pub enum Register {
    R0,
    R1,
    R2,
    R3,
    R4,
    R5,
    R6,
    R7,
    PC,
    COND,
}

/// Position of the program counter in the register file.
pub const PC_INDEX: usize = 8;

/// Position of the condition-flags register in the register file.
pub const COND_INDEX: usize = 9;

/// Position of the register that receives subroutine return addresses.
pub const R7_INDEX: usize = 7;

impl Register {
    /// Position of the register in the register file.
    pub open spec fn spec_index(self) -> int {
        match self {
            Register::R0 => 0,
            Register::R1 => 1,
            Register::R2 => 2,
            Register::R3 => 3,
            Register::R4 => 4,
            Register::R5 => 5,
            Register::R6 => 6,
            Register::R7 => 7,
            Register::PC => 8,
            Register::COND => 9,
        }
    }

    /// Position of the register in the register file.
    pub fn index(self) -> (r: usize)
        ensures
            r == self.spec_index(),
            r < 10,
    {
        match self {
            Register::R0 => 0,
            Register::R1 => 1,
            Register::R2 => 2,
            Register::R3 => 3,
            Register::R4 => 4,
            Register::R5 => 5,
            Register::R6 => 6,
            Register::R7 => 7,
            Register::PC => 8,
            Register::COND => 9,
        }
    }

    /// The general-purpose register named by a 3-bit instruction field.
    pub fn from_field(field: u16) -> (r: Register)
        requires
            field < 8,
        ensures
            r.spec_index() == field,
    {
        match field {
            0 => Register::R0,
            1 => Register::R1,
            2 => Register::R2,
            3 => Register::R3,
            4 => Register::R4,
            5 => Register::R5,
            6 => Register::R6,
            _ => Register::R7,
        }
    }
}

/// The sixteen values of an instruction's opcode field (bits 15-12).
/// `Rti` and `Noop` are reserved: this machine executes them as no-ops.
#[derive(Clone, Copy, Debug, PartialEq, Eq, Structural)]
pub enum RawOpCode {
    Br,
    Add,
    Ld,
    St,
    Jsr,
    And,
    Ldr,
    Str,
    Rti,
    Not,
    Ldi,
    Sti,
    Jmp,
    Noop,
    Lea,
    Trap,
}

impl RawOpCode {
    /// The 4-bit value that encodes the opcode.
    pub open spec fn spec_code(self) -> u16 {
        match self {
            RawOpCode::Br => 0,
            RawOpCode::Add => 1,
            RawOpCode::Ld => 2,
            RawOpCode::St => 3,
            RawOpCode::Jsr => 4,
            RawOpCode::And => 5,
            RawOpCode::Ldr => 6,
            RawOpCode::Str => 7,
            RawOpCode::Rti => 8,
            RawOpCode::Not => 9,
            RawOpCode::Ldi => 10,
            RawOpCode::Sti => 11,
            RawOpCode::Jmp => 12,
            RawOpCode::Noop => 13,
            RawOpCode::Lea => 14,
            RawOpCode::Trap => 15,
        }
    }

    /// The opcode of an instruction word: every word decodes to one.
    pub fn from_instruction(instr: u16) -> (r: RawOpCode)
        ensures
            r.spec_code() == instr >> 12,
    {
        let code = instr >> 12;
        assert(instr >> 12 < 16) by (bit_vector);
        match code {
            0 => RawOpCode::Br,
            1 => RawOpCode::Add,
            2 => RawOpCode::Ld,
            3 => RawOpCode::St,
            4 => RawOpCode::Jsr,
            5 => RawOpCode::And,
            6 => RawOpCode::Ldr,
            7 => RawOpCode::Str,
            8 => RawOpCode::Rti,
            9 => RawOpCode::Not,
            10 => RawOpCode::Ldi,
            11 => RawOpCode::Sti,
            12 => RawOpCode::Jmp,
            13 => RawOpCode::Noop,
            14 => RawOpCode::Lea,
            _ => RawOpCode::Trap,
        }
    }
}

/// The three condition flags; exactly one is held in `COND` at a time.
#[derive(Clone, Copy, Debug, PartialEq, Eq, Structural)]
pub enum CondFlag {
    Pos,
    Zero,
    Neg,
}

/// The flag value that classifies a register value: zero, negative (high bit
/// set) or positive.
pub open spec fn flag_of(val: u16) -> u16 {
    if val == 0 {
        2
    } else if val >= 0x8000 {
        4
    } else {
        1
    }
}

impl CondFlag {
    /// The bit that stands for the flag in `COND`.
    pub open spec fn spec_value(self) -> u16 {
        match self {
            CondFlag::Pos => 1,
            CondFlag::Zero => 2,
            CondFlag::Neg => 4,
        }
    }

    /// The bit that stands for the flag in `COND`.
    pub fn value(self) -> (r: u16)
        ensures
            r == self.spec_value(),
    {
        match self {
            CondFlag::Pos => 1,
            CondFlag::Zero => 2,
            CondFlag::Neg => 4,
        }
    }

    /// The flag that classifies a register value.
    pub fn from_reg_value(val: u16) -> (r: CondFlag)
        ensures
            r.spec_value() == flag_of(val),
            val == 0 <==> r == CondFlag::Zero,
            val >= 0x8000 <==> r == CondFlag::Neg,
    {
        if val == 0 {
            CondFlag::Zero
        } else if (val >> 15) != 0 {
            assert((val >> 15) != 0 ==> val >= 0x8000) by (bit_vector);
            CondFlag::Neg
        } else {
            assert((val >> 15) == 0 ==> val < 0x8000) by (bit_vector);
            CondFlag::Pos
        }
    }
}

/// The system routines that a trap instruction can name (its low byte).
#[derive(Clone, Copy, Debug, PartialEq, Eq, Structural)]
pub enum TrapCode {
    GetC,
    Out,
    Puts,
    In,
    PutsP,
    Halt,
}

impl TrapCode {
    /// The trap vector that names the routine.
    pub open spec fn spec_code(self) -> u16 {
        match self {
            TrapCode::GetC => 0x20,
            TrapCode::Out => 0x21,
            TrapCode::Puts => 0x22,
            TrapCode::In => 0x23,
            TrapCode::PutsP => 0x24,
            TrapCode::Halt => 0x25,
        }
    }

    /// The routine named by a trap vector, if there is one.
    pub fn from_code(code: u16) -> (r: Option<TrapCode>)
        ensures
            r is Some <==> 0x20 <= code <= 0x25,
            r matches Some(t) ==> t.spec_code() == code,
    {
        match code {
            0x20 => Some(TrapCode::GetC),
            0x21 => Some(TrapCode::Out),
            0x22 => Some(TrapCode::Puts),
            0x23 => Some(TrapCode::In),
            0x24 => Some(TrapCode::PutsP),
            0x25 => Some(TrapCode::Halt),
            _ => None,
        }
    }
}

} // verus!
