//! The execution engine: fetch, decode and execute, the trap routines, the
//! run loop and the image loader.
//!
//! The engine does no I/O itself. Whenever a step needs the console it hands
//! back an [`Action`]: bytes to print, or a request for one input byte, which
//! the caller passes to the next step. A step that asks for a byte changes
//! nothing, so it can simply be repeated with the byte.
//!
//! Policies where the machine leaves a choice: the reserved opcodes (8 and
//! 13) are no-ops; a trap vector that names no routine is reported and
//! changes nothing; the string routines PUTS and PUTSP read the string as
//! stored, without involving the keyboard device, and read at most the whole
//! address space once. Only the fetch and the load instructions read through
//! the device, so a cycle takes at most one input byte.
use vstd::prelude::*;

use crate::enums::{flag_of, CondFlag, RawOpCode, Register, TrapCode, COND_INDEX, PC_INDEX, R7_INDEX};
use crate::error::{Error, ErrorKind};
use crate::image::{image_origin, image_words, loaded, placed, read_be_u16};
use crate::memory::{initial_registers, load, MemoryManager, RegisterManager, KBSR};
use crate::utils::{sext, sign_extend};

verus! {

/// Number of words a string routine reads at most: the whole address space.
pub const SCAN_LIMIT: u32 = 65536;

/// Where the engine is in its life: created, running, or stopped by HALT.
#[derive(Clone, Copy, Debug, PartialEq, Eq, Structural)]
pub enum RunState {
    Idle,
    Running,
    Halted,
}

/// What a step asks of the console.
pub enum Action {
    /// Nothing: the next step can follow at once.
    Continue,
    /// Nothing was executed: read one input byte (no echo) and pass it to the
    /// next step.
    Key,
    /// Nothing was executed: print the input prompt, read one byte and pass
    /// it to the next step.
    Prompt,
    /// Print these characters, one per byte, and flush.
    Write(Vec<u8>),
    /// The machine has halted: print the halt notice and flush.
    Halt,
    /// The trap instruction held here names no routine; nothing changed.
    Report(u16),
}

/// The mathematical value of an [`Action`].
pub ghost enum ActionView {
    Continue,
    Key,
    Prompt,
    Write(Seq<u8>),
    Halt,
    Report(u16),
}

impl View for Action {
    type V = ActionView;

    open spec fn view(&self) -> ActionView {
        match self {
            Action::Continue => ActionView::Continue,
            Action::Key => ActionView::Key,
            Action::Prompt => ActionView::Prompt,
            Action::Write(v) => ActionView::Write(v@),
            Action::Halt => ActionView::Halt,
            Action::Report(i) => ActionView::Report(*i),
        }
    }
}

impl ActionView {
    /// The step waits for an input byte.
    pub open spec fn wants_input(self) -> bool {
        self is Key || self is Prompt
    }
}

/// The whole state of a machine: ten registers, 65536 words of memory, the
/// run state and whether tracing was asked for.
pub ghost struct MachineView {
    pub regs: Seq<u16>,
    pub mem: Seq<u16>,
    pub state: RunState,
    pub debug: bool,
}

impl MachineView {
    pub open spec fn pc(self) -> u16 {
        self.regs[PC_INDEX as int]
    }

    /// Register `r` set to `v`.
    pub open spec fn with_reg(self, r: int, v: u16) -> MachineView {
        MachineView { regs: self.regs.update(r, v), ..self }
    }

    /// Register `r` set to `v`, and the condition flags set from `v`.
    pub open spec fn with_result(self, r: int, v: u16) -> MachineView {
        MachineView { regs: self.regs.update(r, v).update(COND_INDEX as int, flag_of(v)), ..self }
    }

    pub open spec fn with_mem(self, mem: Seq<u16>) -> MachineView {
        MachineView { mem, ..self }
    }
}

/// Bits 15-12: the opcode.
pub open spec fn opcode(i: u16) -> u16 {
    i >> 12
}

/// Bits 11-9: destination or source register, or the BR condition bits.
pub open spec fn field_dr(i: u16) -> u16 {
    (i >> 9) & 7
}

/// Bits 8-6: first source or base register.
pub open spec fn field_sr1(i: u16) -> u16 {
    (i >> 6) & 7
}

/// Bits 2-0: second source register.
pub open spec fn field_sr2(i: u16) -> u16 {
    i & 7
}

/// Bit 5: ADD and AND take a 5-bit immediate operand.
pub open spec fn imm_mode(i: u16) -> bool {
    (i >> 5) & 1 == 1
}

/// Bit 11: JSR (PC-relative) rather than JSRR (through a register).
pub open spec fn jsr_mode(i: u16) -> bool {
    (i >> 11) & 1 == 1
}

pub open spec fn imm5(i: u16) -> u16 {
    sext(i & 0x1F, 5)
}

pub open spec fn offset6(i: u16) -> u16 {
    sext(i & 0x3F, 6)
}

pub open spec fn offset9(i: u16) -> u16 {
    sext(i & 0x1FF, 9)
}

pub open spec fn offset11(i: u16) -> u16 {
    sext(i & 0x7FF, 11)
}

/// Bits 7-0 of a trap instruction.
pub open spec fn trap_vector(i: u16) -> u16 {
    i & 0xFF
}

pub open spec fn low_byte(w: u16) -> u8 {
    (w & 0xFF) as u8
}

pub open spec fn high_byte(w: u16) -> u8 {
    (w >> 8) as u8
}

/// The PC-relative address of a 9-bit offset instruction.
pub open spec fn pc_target(m: MachineView, i: u16) -> u16 {
    m.pc().wrapping_add(offset9(i))
}

/// The base-plus-offset address of LDR and STR.
pub open spec fn base_target(m: MachineView, i: u16) -> u16 {
    m.regs[field_sr1(i) as int].wrapping_add(offset6(i))
}

/// The instruction takes an input byte: GETC and IN always, and a load whose
/// read reaches the keyboard status register.
pub open spec fn wants_key(m: MachineView, i: u16) -> bool {
    let op = opcode(i);
    &&& i != 0
    &&& {
        ||| (op == 2 || op == 11) && pc_target(m, i) == KBSR
        ||| op == 6 && base_target(m, i) == KBSR
        ||| op == 10 && (pc_target(m, i) == KBSR || m.mem[pc_target(m, i) as int] == KBSR)
        ||| op == 15 && (trap_vector(i) == 0x20 || trap_vector(i) == 0x23)
    }
}

/// The characters of the string at `a`, one per word (its low byte), up to
/// the first zero word, reading at most `n` words.
pub open spec fn text_at(mem: Seq<u16>, a: u16, n: nat) -> Seq<u8>
    decreases n,
{
    if n == 0 || mem[a as int] == 0 {
        seq![]
    } else {
        seq![low_byte(mem[a as int])] + text_at(mem, a.wrapping_add(1), (n - 1) as nat)
    }
}

/// The characters packed in one word: the low byte, then the high byte
/// unless it is zero.
pub open spec fn packed_chars(w: u16) -> Seq<u8> {
    if high_byte(w) == 0 {
        seq![low_byte(w)]
    } else {
        seq![low_byte(w), high_byte(w)]
    }
}

/// The characters of the string at `a`, two per word, up to the first zero
/// word, reading at most `n` words.
pub open spec fn packed_text_at(mem: Seq<u16>, a: u16, n: nat) -> Seq<u8>
    decreases n,
{
    if n == 0 || mem[a as int] == 0 {
        seq![]
    } else {
        packed_chars(mem[a as int]) + packed_text_at(mem, a.wrapping_add(1), (n - 1) as nat)
    }
}

/// The effect of an instruction other than TRAP, given the input byte it may
/// need. The reserved opcodes 8 and 13 change nothing.
pub open spec fn execute_op(m: MachineView, i: u16, key: Option<u8>) -> MachineView {
    let op = opcode(i);
    let pc = m.pc();
    let regs = m.regs;
    let dr = field_dr(i) as int;
    let sr1 = field_sr1(i) as int;
    if op == 0 {
        if field_dr(i) & regs[COND_INDEX as int] != 0 {
            m.with_reg(PC_INDEX as int, pc_target(m, i))
        } else {
            m
        }
    } else if op == 1 {
        let b = if imm_mode(i) { imm5(i) } else { regs[field_sr2(i) as int] };
        m.with_result(dr, regs[sr1].wrapping_add(b))
    } else if op == 5 {
        let b = if imm_mode(i) { imm5(i) } else { regs[field_sr2(i) as int] };
        m.with_result(dr, regs[sr1] & b)
    } else if op == 9 {
        m.with_result(dr, !regs[sr1])
    } else if op == 12 {
        m.with_reg(PC_INDEX as int, regs[sr1])
    } else if op == 4 {
        let saved = m.with_reg(R7_INDEX as int, pc);
        let target = if jsr_mode(i) { pc.wrapping_add(offset11(i)) } else { saved.regs[sr1] };
        saved.with_reg(PC_INDEX as int, target)
    } else if op == 2 {
        let (mem, v) = load(m.mem, pc_target(m, i), key);
        m.with_mem(mem).with_result(dr, v)
    } else if op == 6 {
        let (mem, v) = load(m.mem, base_target(m, i), key);
        m.with_mem(mem).with_result(dr, v)
    } else if op == 10 {
        let (mem1, a) = load(m.mem, pc_target(m, i), key);
        let (mem2, v) = load(mem1, a, key);
        m.with_mem(mem2).with_result(dr, v)
    } else if op == 14 {
        m.with_result(dr, pc_target(m, i))
    } else if op == 3 {
        m.with_mem(m.mem.update(pc_target(m, i) as int, regs[dr]))
    } else if op == 11 {
        let (mem1, a) = load(m.mem, pc_target(m, i), key);
        m.with_mem(mem1.update(a as int, regs[dr]))
    } else if op == 7 {
        m.with_mem(m.mem.update(base_target(m, i) as int, regs[dr]))
    } else {
        m
    }
}

/// The effect of a TRAP instruction, given the input byte it may need.
pub open spec fn execute_trap(m: MachineView, i: u16, key: Option<u8>) -> (MachineView, ActionView) {
    let v = trap_vector(i);
    let r0 = m.regs[0];
    if v == 0x20 {
        (m.with_reg(0, key->0 as u16), ActionView::Continue)
    } else if v == 0x21 {
        (m, ActionView::Write(seq![low_byte(r0)]))
    } else if v == 0x22 {
        (m, ActionView::Write(text_at(m.mem, r0, SCAN_LIMIT as nat)))
    } else if v == 0x23 {
        (m.with_reg(0, key->0 as u16), ActionView::Write(seq![key->0]))
    } else if v == 0x24 {
        (m, ActionView::Write(packed_text_at(m.mem, r0, SCAN_LIMIT as nat)))
    } else if v == 0x25 {
        (MachineView { state: RunState::Halted, ..m }, ActionView::Halt)
    } else {
        (m, ActionView::Report(i))
    }
}

/// The effect of executing instruction `i` (already fetched: the PC is past
/// it), with `key` the input byte supplied for it, if any. The zero word is a
/// no-op. An instruction that needs a byte and was given none changes nothing
/// and asks for one.
pub open spec fn execute(m: MachineView, i: u16, key: Option<u8>) -> (MachineView, ActionView) {
    if i == 0 {
        (m, ActionView::Continue)
    } else if key is None && wants_key(m, i) {
        if opcode(i) == 15 && trap_vector(i) == 0x23 {
            (m, ActionView::Prompt)
        } else {
            (m, ActionView::Key)
        }
    } else if opcode(i) == 15 {
        execute_trap(m, i, key)
    } else {
        (execute_op(m, i, key), ActionView::Continue)
    }
}

/// One fetch-decode-execute cycle. A halted machine does nothing. The fetch
/// reads memory at the PC through the device and advances the PC; a cycle
/// that needs an input byte it was not given leaves the machine as it was.
pub open spec fn step(m: MachineView, key: Option<u8>) -> (MachineView, ActionView) {
    if m.state == RunState::Halted {
        (m, ActionView::Continue)
    } else if m.pc() == KBSR && key is None {
        (m, ActionView::Key)
    } else {
        let (mem1, i) = load(m.mem, m.pc(), key);
        let fetched = MachineView {
            regs: m.regs.update(PC_INDEX as int, m.pc().wrapping_add(1)),
            mem: mem1,
            ..m
        };
        let k = if m.pc() == KBSR { None } else { key };
        let (m2, a) = execute(fetched, i, k);
        if a.wants_input() {
            (m, a)
        } else {
            (m2, a)
        }
    }
}

/// The machine after `run` has been entered: an idle machine starts running.
pub open spec fn started(m: MachineView) -> MachineView {
    if m.state == RunState::Idle {
        MachineView { state: RunState::Running, ..m }
    } else {
        m
    }
}

/// Cycles of a running machine, at most `fuel` of them, until one has work
/// for the console; `key` goes to the first cycle.
pub open spec fn run_cycles(m: MachineView, key: Option<u8>, fuel: nat) -> (MachineView, ActionView)
    decreases fuel,
{
    if fuel == 0 || m.state != RunState::Running {
        (m, ActionView::Continue)
    } else {
        let (m1, a) = step(m, key);
        if a is Continue {
            run_cycles(m1, None, (fuel - 1) as nat)
        } else {
            (m1, a)
        }
    }
}


fn dest_reg(i: u16) -> (r: Register)
    ensures
        r.spec_index() == field_dr(i),
{
    assert((i >> 9) & 7 < 8) by (bit_vector);
    Register::from_field((i >> 9) & 7)
}

fn base_reg(i: u16) -> (r: Register)
    ensures
        r.spec_index() == field_sr1(i),
{
    assert((i >> 6) & 7 < 8) by (bit_vector);
    Register::from_field((i >> 6) & 7)
}

fn second_reg(i: u16) -> (r: Register)
    ensures
        r.spec_index() == field_sr2(i),
{
    assert(i & 7 < 8) by (bit_vector);
    Register::from_field(i & 7)
}

/// The engine: registers, memory, run state and the tracing switch.
pub struct Machine {
    pub reg: RegisterManager,
    pub mem: MemoryManager,
    pub(crate) state: RunState,
    pub(crate) debug_mode: bool,
}

impl View for Machine {
    type V = MachineView;

    open(crate) spec fn view(&self) -> MachineView {
        MachineView { regs: self.reg@, mem: self.mem@, state: self.state, debug: self.debug_mode }
    }
}

/// A new machine: registers zero but the PC, which holds `PC_START`; memory
/// zero; idle; no tracing.
pub open spec fn initial_machine() -> MachineView {
    MachineView {
        regs: initial_registers(),
        mem: Seq::new(65536, |k: int| 0u16),
        state: RunState::Idle,
        debug: false,
    }
}

impl Default for Machine {
    fn default() -> (r: Machine)
        ensures
            r@ == initial_machine(),
    {
        Machine::new()
    }
}

impl Machine {
    pub fn new() -> (r: Machine)
        ensures
            r@ == initial_machine(),
    {
        Machine {
            reg: RegisterManager::new(),
            mem: MemoryManager::new(),
            state: RunState::Idle,
            debug_mode: false,
        }
    }

    pub fn enter_debug_mode(&mut self)
        ensures
            final(self)@ == (MachineView { debug: true, ..old(self)@ }),
    {
        self.debug_mode = true;
    }

    /// Whether tracing was asked for.
    pub fn debug_mode(&self) -> (r: bool)
        ensures
            r == self@.debug,
    {
        self.debug_mode
    }

    pub fn state(&self) -> (r: RunState)
        ensures
            r == self@.state,
    {
        self.state
    }

    pub fn is_running(&self) -> (r: bool)
        ensures
            r == (self@.state == RunState::Running),
    {
        match self.state {
            RunState::Running => true,
            _ => false,
        }
    }

    /// Sets the condition flags from the value of `register`.
    fn update_flags(&mut self, register: Register)
        ensures
            final(self)@ == (MachineView {
                regs: old(self)@.regs.update(
                    COND_INDEX as int,
                    flag_of(old(self)@.regs[register.spec_index()]),
                ),
                ..old(self)@
            }),
    {
        let flag = CondFlag::from_reg_value(self.reg.get(register));
        self.reg.set(Register::COND, flag.value());
    }

    /// Writes `v` to `dest` and sets the flags from it.
    fn set_result(&mut self, dest: Register, v: u16)
        ensures
            final(self)@ == old(self)@.with_result(dest.spec_index(), v),
    {
        self.reg.set(dest, v);
        self.update_flags(dest);
        assert(self@.regs =~= old(self)@.with_result(dest.spec_index(), v).regs);
    }

    /// The PC-relative address named by the instruction's 9-bit offset.
    fn pc_address(&self, i: u16) -> (r: u16)
        ensures
            r == pc_target(self@, i),
    {
        self.reg.get(Register::PC).wrapping_add(sign_extend(i & 0x1FF, 9))
    }

    /// The base-plus-offset address of LDR and STR.
    fn base_address(&self, i: u16) -> (r: u16)
        ensures
            r == base_target(self@, i),
    {
        self.reg.get(base_reg(i)).wrapping_add(sign_extend(i & 0x3F, 6))
    }

    /// The second operand of ADD and AND: an immediate or a register.
    fn operand(&self, i: u16) -> (r: u16)
        ensures
            r == (if imm_mode(i) { imm5(i) } else { self@.regs[field_sr2(i) as int] }),
    {
        if (i >> 5) & 1 == 1 {
            sign_extend(i & 0x1F, 5)
        } else {
            self.reg.get(second_reg(i))
        }
    }

    /// ADD, AND and NOT.
    fn exec_arith(&mut self, i: u16)
        requires
            opcode(i) == 1 || opcode(i) == 5 || opcode(i) == 9,
        ensures
            final(self)@ == execute_op(old(self)@, i, None),
    {
        let dest = dest_reg(i);
        let a = self.reg.get(base_reg(i));
        let v = match RawOpCode::from_instruction(i) {
            RawOpCode::Add => a.wrapping_add(self.operand(i)),
            RawOpCode::And => a & self.operand(i),
            _ => !a,
        };
        self.set_result(dest, v);
    }

    /// BR, JMP and JSR/JSRR.
    fn exec_jump(&mut self, i: u16)
        requires
            opcode(i) == 0 || opcode(i) == 4 || opcode(i) == 12,
        ensures
            final(self)@ == execute_op(old(self)@, i, None),
    {
        match RawOpCode::from_instruction(i) {
            RawOpCode::Br => {
                let tested = (i >> 9) & 7;
                if tested & self.reg.get(Register::COND) != 0 {
                    let target = self.pc_address(i);
                    self.reg.set(Register::PC, target);
                }
            },
            RawOpCode::Jmp => {
                self.reg.copy(Register::PC, base_reg(i));
            },
            _ => {
                self.reg.copy(Register::R7, Register::PC);
                if (i >> 11) & 1 == 1 {
                    self.reg.incr_by(Register::PC, sign_extend(i & 0x7FF, 11));
                } else {
                    self.reg.copy(Register::PC, base_reg(i));
                }
            },
        }
    }

    /// LD, LDR, LDI and LEA.
    fn exec_load(&mut self, i: u16, key: Option<u8>)
        requires
            opcode(i) == 2 || opcode(i) == 6 || opcode(i) == 10 || opcode(i) == 14,
        ensures
            final(self)@ == execute_op(old(self)@, i, key),
    {
        let dest = dest_reg(i);
        let v = match RawOpCode::from_instruction(i) {
            RawOpCode::Ld => {
                let addr = self.pc_address(i);
                self.mem.read(addr, key)
            },
            RawOpCode::Ldr => {
                let addr = self.base_address(i);
                self.mem.read(addr, key)
            },
            RawOpCode::Ldi => {
                let addr = self.pc_address(i);
                let indirect = self.mem.read(addr, key);
                self.mem.read(indirect, key)
            },
            _ => self.pc_address(i),
        };
        self.set_result(dest, v);
    }

    /// ST, STR and STI.
    fn exec_store(&mut self, i: u16, key: Option<u8>)
        requires
            opcode(i) == 3 || opcode(i) == 7 || opcode(i) == 11,
        ensures
            final(self)@ == execute_op(old(self)@, i, key),
    {
        let v = self.reg.get(dest_reg(i));
        let addr = match RawOpCode::from_instruction(i) {
            RawOpCode::St => self.pc_address(i),
            RawOpCode::Str => self.base_address(i),
            _ => {
                let pointer = self.pc_address(i);
                self.mem.read(pointer, key)
            },
        };
        self.mem.write(addr, v);
    }

    /// Whether instruction `i`, executed now, takes an input byte.
    fn wants_key(&self, i: u16) -> (r: bool)
        ensures
            r == wants_key(self@, i),
    {
        if i == 0 {
            return false;
        }
        match RawOpCode::from_instruction(i) {
            RawOpCode::Ld | RawOpCode::Sti => self.pc_address(i) == KBSR,
            RawOpCode::Ldr => self.base_address(i) == KBSR,
            RawOpCode::Ldi => {
                let addr = self.pc_address(i);
                addr == KBSR || self.mem.peek(addr) == KBSR
            },
            RawOpCode::Trap => match TrapCode::from_code(i & 0xFF) {
                Some(TrapCode::GetC) | Some(TrapCode::In) => true,
                _ => false,
            },
            _ => false,
        }
    }

    /// The string at `start`, one character per word, for PUTS.
    fn text(&self, start: u16) -> (r: Vec<u8>)
        ensures
            r@ == text_at(self@.mem, start, SCAN_LIMIT as nat),
    {
        let mut out: Vec<u8> = Vec::new();
        let mut a = start;
        let mut n: u32 = SCAN_LIMIT;
        while n > 0 && self.mem.peek(a) != 0
            invariant
                n <= SCAN_LIMIT,
                out@ + text_at(self@.mem, a, n as nat) == text_at(self@.mem, start, SCAN_LIMIT as nat),
            decreases n,
        {
            let w = self.mem.peek(a);
            assert(w & 0xFF <= 0xFF) by (bit_vector);
            let c = (w & 0xFF) as u8;
            assert(out@.push(c) + text_at(self@.mem, a.wrapping_add(1), (n - 1) as nat)
                =~= out@ + text_at(self@.mem, a, n as nat));
            out.push(c);
            a = a.wrapping_add(1);
            n = n - 1;
        }
        assert(out@ + text_at(self@.mem, a, n as nat) =~= out@);
        out
    }

    /// The string at `start`, two characters per word, for PUTSP.
    fn packed_text(&self, start: u16) -> (r: Vec<u8>)
        ensures
            r@ == packed_text_at(self@.mem, start, SCAN_LIMIT as nat),
    {
        let mut out: Vec<u8> = Vec::new();
        let mut a = start;
        let mut n: u32 = SCAN_LIMIT;
        while n > 0 && self.mem.peek(a) != 0
            invariant
                n <= SCAN_LIMIT,
                out@ + packed_text_at(self@.mem, a, n as nat) == packed_text_at(
                    self@.mem,
                    start,
                    SCAN_LIMIT as nat,
                ),
            decreases n,
        {
            let w = self.mem.peek(a);
            let ghost before = out@;
            assert(w & 0xFF <= 0xFF && w >> 8 <= 0xFF) by (bit_vector);
            out.push((w & 0xFF) as u8);
            let high = (w >> 8) as u8;
            if high != 0 {
                out.push(high);
            }
            assert(out@ =~= before + packed_chars(w));
            assert(out@ + packed_text_at(self@.mem, a.wrapping_add(1), (n - 1) as nat)
                =~= before + packed_text_at(self@.mem, a, n as nat));
            a = a.wrapping_add(1);
            n = n - 1;
        }
        assert(out@ + packed_text_at(self@.mem, a, n as nat) =~= out@);
        out
    }

    /// The trap routines.
    fn exec_trap(&mut self, i: u16, key: Option<u8>) -> (r: Action)
        requires
            opcode(i) == 15,
            key is None ==> !wants_key(old(self)@, i),
        ensures
            (final(self)@, r@) == execute_trap(old(self)@, i, key),
    {
        assert(i >> 12 == 15 ==> i != 0) by (bit_vector);
        match TrapCode::from_code(i & 0xFF) {
            Some(TrapCode::GetC) => {
                let b = key.unwrap();
                self.reg.set(Register::R0, b as u16);
                Action::Continue
            },
            Some(TrapCode::Out) => {
                let r0 = self.reg.get(Register::R0);
                assert(r0 & 0xFF <= 0xFF) by (bit_vector);
                let c = (r0 & 0xFF) as u8;
                let out = vec![c];
                assert(out@ =~= seq![c]);
                Action::Write(out)
            },
            Some(TrapCode::Puts) => Action::Write(self.text(self.reg.get(Register::R0))),
            Some(TrapCode::In) => {
                let b = key.unwrap();
                self.reg.set(Register::R0, b as u16);
                let out = vec![b];
                assert(out@ =~= seq![b]);
                Action::Write(out)
            },
            Some(TrapCode::PutsP) => Action::Write(self.packed_text(self.reg.get(Register::R0))),
            Some(TrapCode::Halt) => {
                self.state = RunState::Halted;
                Action::Halt
            },
            None => Action::Report(i),
        }
    }

    /// Executes one instruction word that has already been fetched, with
    /// `key` the input byte supplied for it, if any.
    pub fn decode_and_execute(&mut self, raw_instr: u16, key: Option<u8>) -> (r: Action)
        ensures
            (final(self)@, r@) == execute(old(self)@, raw_instr, key),
    {
        if raw_instr == 0 {
            return Action::Continue;
        }
        if key.is_none() && self.wants_key(raw_instr) {
            if raw_instr >> 12 == 15 && raw_instr & 0xFF == 0x23 {
                return Action::Prompt;
            }
            return Action::Key;
        }
        match RawOpCode::from_instruction(raw_instr) {
            RawOpCode::Trap => self.exec_trap(raw_instr, key),
            RawOpCode::Add | RawOpCode::And | RawOpCode::Not => {
                self.exec_arith(raw_instr);
                Action::Continue
            },
            RawOpCode::Br | RawOpCode::Jsr | RawOpCode::Jmp => {
                self.exec_jump(raw_instr);
                Action::Continue
            },
            RawOpCode::Ld | RawOpCode::Ldr | RawOpCode::Ldi | RawOpCode::Lea => {
                self.exec_load(raw_instr, key);
                Action::Continue
            },
            RawOpCode::St | RawOpCode::Str | RawOpCode::Sti => {
                self.exec_store(raw_instr, key);
                Action::Continue
            },
            RawOpCode::Rti | RawOpCode::Noop => Action::Continue,
        }
    }

    /// Reads the word at the PC, through the device, and advances the PC.
    fn fetch(&mut self, key: Option<u8>) -> (r: u16)
        ensures
            ({
                let (mem1, i) = load(old(self)@.mem, old(self)@.pc(), key);
                &&& r == i
                &&& final(self)@ == (MachineView {
                    regs: old(self)@.regs.update(PC_INDEX as int, old(self)@.pc().wrapping_add(1)),
                    mem: mem1,
                    ..old(self)@
                })
            }),
    {
        let instr = self.mem.read(self.reg.get(Register::PC), key);
        self.reg.incr(Register::PC);
        instr
    }

    /// One fetch-decode-execute cycle, with `key` the input byte that the
    /// previous cycle asked for, if it did.
    pub fn step(&mut self, key: Option<u8>) -> (r: Action)
        ensures
            (final(self)@, r@) == step(old(self)@, key),
    {
        if let RunState::Halted = self.state {
            return Action::Continue;
        }
        let pc = self.reg.get(Register::PC);
        if pc == KBSR && key.is_none() {
            return Action::Key;
        }
        let instr = self.fetch(key);
        let k = if pc == KBSR {
            None
        } else {
            key
        };
        proof {
            if pc == KBSR {
                assert((0x8000u16 >> 12) == 8) by (bit_vector);
            }
        }
        let a = self.decode_and_execute(instr, k);
        let asks = match a {
            Action::Key | Action::Prompt => true,
            _ => false,
        };
        if asks {
            self.reg.set(Register::PC, pc);
            assert(self@.regs =~= old(self)@.regs);
        }
        a
    }

    /// Runs the machine, an idle one being started first, for at most `fuel`
    /// cycles and until a cycle has work for the console, which is returned.
    /// `key` goes to the first cycle. A machine that has halted, or that has
    /// used up its fuel, returns `Continue`.
    pub fn run(&mut self, key: Option<u8>, fuel: u64) -> (r: Action)
        ensures
            (final(self)@, r@) == run_cycles(started(old(self)@), key, fuel as nat),
    {
        if let RunState::Idle = self.state {
            self.state = RunState::Running;
        }
        let mut next = key;
        let mut left = fuel;
        while left > 0 && self.is_running()
            invariant
                run_cycles(self@, next, left as nat) == run_cycles(started(old(self)@), key, fuel as nat),
            decreases left,
        {
            let a = self.step(next);
            if let Action::Continue = a {
            } else {
                return a;
            }
            next = None;
            left = left - 1;
        }
        Action::Continue
    }

    /// Loads a program image: a big-endian origin word, then big-endian words
    /// written one after another from the origin, wrapping past `0xFFFF`. An
    /// odd last byte is ignored. An image shorter than its origin word is an
    /// I/O error and loads nothing.
    pub fn load_image(&mut self, image: &[u8]) -> (r: Result<(), Error>)
        ensures
            r is Err <==> image@.len() < 2,
            r matches Err(e) ==> e.spec_kind() == ErrorKind::IOError,
            image@.len() < 2 ==> final(self)@ == old(self)@,
            image@.len() >= 2 ==> final(self)@ == old(self)@.with_mem(loaded(old(self)@.mem, image@)),
    {
        if image.len() < 2 {
            return Err(Error::new(ErrorKind::IOError));
        }
        let origin = read_be_u16(image, 0);
        let ghost words = image_words(image@);
        let ghost mem0 = self@.mem;
        let ghost mut k: nat = 0;
        let mut addr = origin;
        let mut pos: usize = 2;
        while image.len() - pos >= 2
            invariant
                2 <= pos <= image@.len(),
                pos == 2 + 2 * k,
                origin == image_origin(image@),
                words == image_words(image@),
                addr as int == (origin + k) % 65536,
                self@ == old(self)@.with_mem(placed(mem0, origin, words, k)),
                mem0 == old(self)@.mem,
            decreases image@.len() - pos,
        {
            let w = read_be_u16(image, pos);
            assert(w == words[k as int]);
            self.mem.write(addr, w);
            addr = addr.wrapping_add(1);
            pos = pos + 2;
            proof {
                k = k + 1;
            }
        }
        assert(k == words.len());
        Ok(())
    }
}

} // verus!
