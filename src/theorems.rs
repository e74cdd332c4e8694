//! Properties of the engine that relate its operations, proved over the
//! specifications that the executable functions meet.
use vstd::prelude::*;

use crate::enums::{flag_of, COND_INDEX, PC_INDEX, R7_INDEX};
use crate::memory::{load, KBSR};
use crate::utils::sext;
use crate::vm::{
    execute, field_dr, field_sr1, high_byte, jsr_mode, low_byte, opcode, packed_chars,
    packed_text_at, pc_target, run_cycles, started, step, trap_vector, wants_key, ActionView,
    MachineView, RunState, SCAN_LIMIT,
};

verus! {

/// A BR instruction branches exactly when its condition bits share a bit with
/// `COND`: then the PC moves by the sign-extended 9-bit offset, and otherwise
/// nothing changes.
pub proof fn lemma_branch(m: MachineView, i: u16, key: Option<u8>)
    requires
        opcode(i) == 0,
    ensures
        execute(m, i, key).1 == ActionView::Continue,
        ((i >> 9) & 7) & m.regs[COND_INDEX as int] != 0 ==> execute(m, i, key).0 == m.with_reg(
            PC_INDEX as int,
            m.pc().wrapping_add(sext(i & 0x1FF, 9)),
        ),
        ((i >> 9) & 7) & m.regs[COND_INDEX as int] == 0 ==> execute(m, i, key).0 == m,
{
    assert(i == 0 ==> (i >> 9) & 7 == 0) by (bit_vector);
    let c = m.regs[COND_INDEX as int];
    assert(0u16 & c == 0) by (bit_vector);
}

/// JSR and JSRR save the PC (already past the instruction) in R7. JSR then
/// moves the PC by the sign-extended 11-bit offset; JSRR jumps to the value
/// of its base register, read after R7 was written. Nothing else changes.
pub proof fn lemma_subroutine_call(m: MachineView, i: u16, key: Option<u8>)
    requires
        opcode(i) == 4,
        m.regs.len() == 10,
    ensures
        ({
            let (after, a) = execute(m, i, key);
            &&& a == ActionView::Continue
            &&& after.regs[R7_INDEX as int] == m.pc()
            &&& jsr_mode(i) ==> after.pc() == m.pc().wrapping_add(sext(i & 0x7FF, 11))
            &&& !jsr_mode(i) && field_sr1(i) != 7 ==> after.pc() == m.regs[field_sr1(i) as int]
            &&& !jsr_mode(i) && field_sr1(i) == 7 ==> after.pc() == m.pc()
            &&& forall|r: int| 0 <= r < 10 && r != R7_INDEX && r != PC_INDEX ==> after.regs[r] == m.regs[r]
            &&& after.mem == m.mem
            &&& after.state == m.state
        }),
{
    assert(opcode(i) == 4 ==> i != 0) by (bit_vector);
    assert(field_sr1(i) < 8) by (bit_vector);
}

/// LDI reads twice: the word at the PC-relative address is the address of the
/// value loaded. The flags are set from that final value, not from the
/// intermediate address. Away from the keyboard registers both reads are
/// plain memory reads.
pub proof fn lemma_load_indirect(m: MachineView, i: u16, key: Option<u8>)
    requires
        opcode(i) == 10,
        m.regs.len() == 10,
        m.mem.len() == 65536,
        key is None ==> !wants_key(m, i),
    ensures
        ({
            let (mem1, pointer) = load(m.mem, pc_target(m, i), key);
            let (mem2, v) = load(mem1, pointer, key);
            let after = execute(m, i, key).0;
            &&& after.regs[field_dr(i) as int] == v
            &&& after.regs[COND_INDEX as int] == flag_of(v)
            &&& after.mem == mem2
        }),
        pc_target(m, i) != KBSR && m.mem[pc_target(m, i) as int] != KBSR ==> ({
            let v = m.mem[m.mem[pc_target(m, i) as int] as int];
            let after = execute(m, i, key).0;
            &&& after.regs[field_dr(i) as int] == v
            &&& after.regs[COND_INDEX as int] == flag_of(v)
            &&& after.mem == m.mem
        }),
{
    assert(opcode(i) == 10 ==> i != 0) by (bit_vector);
    assert(field_dr(i) < 8) by (bit_vector);
}

/// HALT moves the machine to the halted state and reports it. From then on a
/// cycle fetches nothing and changes nothing, and running it does nothing.
pub proof fn lemma_halt_stops(m: MachineView, i: u16, key: Option<u8>, next: Option<u8>, fuel: nat)
    requires
        opcode(i) == 15,
        trap_vector(i) == 0x25,
    ensures
        execute(m, i, key).0.state == RunState::Halted,
        execute(m, i, key).1 == ActionView::Halt,
        step(execute(m, i, key).0, next) == (execute(m, i, key).0, ActionView::Continue),
        run_cycles(started(execute(m, i, key).0), next, fuel) == (
            execute(m, i, key).0,
            ActionView::Continue,
        ),
{
    assert(opcode(i) == 15 ==> i != 0) by (bit_vector);
}

/// PUTSP takes the low byte of a word first and its high byte second, and
/// drops a zero high byte; the characters taken recombine into the word.
pub proof fn lemma_packed_chars(w: u16)
    ensures
        packed_chars(w)[0] == low_byte(w),
        high_byte(w) == 0 ==> packed_chars(w).len() == 1 && packed_chars(w)[0] as u16 == w,
        high_byte(w) != 0 ==> packed_chars(w).len() == 2 && packed_chars(w)[1] == high_byte(w)
            && (packed_chars(w)[0] as u16 | ((packed_chars(w)[1] as u16) << 8)) == w,
{
    assert(((w >> 8) as u8) == 0 ==> (((w & 0xFF) as u8) as u16) == w) by (bit_vector);
    assert((((w & 0xFF) as u8) as u16 | ((((w >> 8) as u8) as u16) << 8)) == w) by (bit_vector);
}

/// A PUTSP over a one-word string prints that word's characters, low byte
/// first, with a zero high byte dropped.
pub proof fn lemma_putsp_one_word(m: MachineView, i: u16, key: Option<u8>)
    requires
        opcode(i) == 15,
        trap_vector(i) == 0x24,
        m.mem.len() == 65536,
        m.mem[m.regs[0] as int] != 0,
        m.mem[m.regs[0].wrapping_add(1) as int] == 0,
    ensures
        execute(m, i, key) == (m, ActionView::Write(packed_chars(m.mem[m.regs[0] as int]))),
{
    assert(opcode(i) == 15 ==> i != 0) by (bit_vector);
    let a = m.regs[0];
    let rest = packed_text_at(m.mem, a.wrapping_add(1), (SCAN_LIMIT - 1) as nat);
    assert(rest == Seq::<u8>::empty());
    assert(packed_chars(m.mem[a as int]) + rest =~= packed_chars(m.mem[a as int]));
}

} // verus!
