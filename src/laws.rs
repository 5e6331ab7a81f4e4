use vstd::prelude::*;

use crate::machine::{
    advanced, as_signed, branch_taken, exec_result, exec_state, fetched, flag_of, mem_after_read,
    offset_addr, step_result, step_state, wrap, ConditionFlag, Machine, VMError, MR_KBDR, MR_KBSR,
    REG_RET,
};
use crate::memory::{image_origin, load_spec, MEMORY_SIZE};
use crate::opcodes::{decode_spec, opcode_of, Argument, Opcode, TrapCode};
use crate::vm::{console_need_spec, ConsoleNeed};

verus! {

/// The register whose new value sets the condition code, for the
/// instructions that set it.
pub open spec fn flag_register(op: Opcode) -> Option<usize> {
    match op {
        Opcode::ADD { dr, .. } => Some(dr),
        Opcode::AND { dr, .. } => Some(dr),
        Opcode::LD { dr, .. } => Some(dr),
        Opcode::LDI { dr, .. } => Some(dr),
        Opcode::LDR { dr, .. } => Some(dr),
        Opcode::LEA { dr, .. } => Some(dr),
        Opcode::NOT { dr, .. } => Some(dr),
        Opcode::TRAP { trap_code: TrapCode::Getc } => Some(0),
        Opcode::TRAP { trap_code: TrapCode::In } => Some(0),
        _ => None,
    }
}

/// After an instruction that sets the condition code, exactly one of
/// Negative, Zero and Positive holds, and it is the sign of the value written
/// to the destination register read as a signed word.
pub proof fn lemma_flags_follow_result(m: Machine, op: Opcode, input: Option<u8>)
    requires
        m.wf(),
        op.wf(),
        flag_register(op) is Some,
    ensures
        ({
            let after = exec_state(m, op, input);
            let v = after.reg(flag_register(op)->0);
            &&& after.cond != ConditionFlag::Unset
            &&& (after.cond == ConditionFlag::Neg) == (as_signed(v) < 0)
            &&& (after.cond == ConditionFlag::Zero) == (as_signed(v) == 0)
            &&& (after.cond == ConditionFlag::Pos) == (as_signed(v) > 0)
        }),
{
}

/// A branch changes nothing but the program counter, and moves it (by its
/// offset, wrapping) exactly when one of its asserted condition bits matches
/// the active flag.
pub proof fn lemma_branch_taken_iff(
    m: Machine,
    n: bool,
    z: bool,
    p: bool,
    offset: i16,
    input: Option<u8>,
)
    ensures
        ({
            let after = exec_state(m, Opcode::BR { n, z, p, offset }, input);
            &&& after == m.with_pc(after.pc)
            &&& (after.pc == offset_addr(m.pc, offset) || after.pc == m.pc)
            &&& ((n && m.cond == ConditionFlag::Neg) || (z && m.cond == ConditionFlag::Zero) || (p
                && m.cond == ConditionFlag::Pos)) ==> after.pc == offset_addr(m.pc, offset)
            &&& !((n && m.cond == ConditionFlag::Neg) || (z && m.cond == ConditionFlag::Zero) || (p
                && m.cond == ConditionFlag::Pos)) ==> after.pc == m.pc
        }),
{
}

/// Program-counter arithmetic is modulo 2^16: the address that an offset
/// reaches is the one that differs from the base by the offset, modulo 2^16.
pub proof fn lemma_pc_offset_wraps(base: u16, offset: i16)
    ensures
        (offset_addr(base, offset) as int - (base as int + offset as int)) % 65536 == 0,
        0 <= base as int + offset as int <= 0xFFFF ==> offset_addr(base, offset) as int == base as int
            + offset as int,
{
}

/// JSR and JSRR save the address after their own word (the incremented
/// program counter) into the link register before jumping.
pub proof fn lemma_subroutine_links(m: Machine, input: Option<u8>)
    requires
        m.wf(),
        decode_spec(fetched(m)) matches Ok(op) && (op is JSR || op is JSRR),
    ensures
        step_state(m, input).reg(REG_RET) == wrap(m.pc + 1),
        decode_spec(fetched(m)) matches Ok(Opcode::JSR { offset }) ==> step_state(m, input).pc
            == offset_addr(wrap(m.pc + 1), offset),
{
}

/// Loading an image changes only the cells from its origin on: every cell
/// below the origin keeps its value.
pub proof fn lemma_load_keeps_cells_below_origin(mem: Seq<u16>, image: Seq<u8>, addr: int)
    requires
        image.len() >= 2,
        0 <= addr < image_origin(image),
        addr < mem.len(),
    ensures
        load_spec(mem, image)[addr] == mem[addr],
{
}

/// Reading the keyboard status cell polls the keyboard: with no character
/// waiting (or a zero byte) the status reads 0; with a character `b` waiting
/// the status reads 0x8000 and the data cell holds `b`. No other cell changes.
pub proof fn lemma_keyboard_status(mem: Seq<u16>, key: Option<u8>)
    requires
        mem.len() == MEMORY_SIZE,
    ensures
        ({
            let after = mem_after_read(mem, MR_KBSR, key);
            &&& after.len() == mem.len()
            &&& (key is None || key == Some(0u8)) ==> after[MR_KBSR as int] == 0
            &&& (key matches Some(b) && b != 0) ==> after[MR_KBSR as int] == 0x8000
                && after[MR_KBDR as int] == key->0 as u16
            &&& forall|a: int|
                0 <= a < mem.len() && a != MR_KBSR && a != MR_KBDR ==> #[trigger] after[a] == mem[a]
        }),
{
}

/// A word with opcode 1101 decodes (to the reserved instruction), and the step
/// that executes it stops the machine with an illegal-instruction error.
pub proof fn lemma_reserved_halts(m: Machine, input: Option<u8>)
    requires
        m.wf(),
        opcode_of(fetched(m)) == 0b1101,
    ensures
        decode_spec(fetched(m)) == Ok::<Opcode, crate::opcodes::DecodeError>(Opcode::RESERVED),
        step_result(m) == Err::<Seq<u8>, VMError>(VMError::IllegalInstruction),
        !step_state(m, input).running,
{
}

/// When the console is asked for nothing, the step does not depend on what it
/// would have answered.
pub proof fn lemma_input_unused(m: Machine, a: Option<u8>, b: Option<u8>)
    requires
        m.wf(),
        console_need_spec(m) == ConsoleNeed::Nothing,
    ensures
        step_state(m, a) == step_state(m, b),
{
}

/// ADD and AND work on 16-bit words: ADD adds modulo 2^16 in both its
/// register and its immediate form (the immediate taken as signed), and AND
/// takes the bits common to both operands (the immediate taken as its 16-bit
/// two's-complement pattern).
pub proof fn lemma_operate_wraps(m: Machine, dr: usize, sr1: usize, sr2: usize, imm: i16)
    requires
        m.wf(),
        dr < 8,
        sr1 < 8,
        sr2 < 8,
    ensures
        exec_state(m, Opcode::ADD { dr, sr1, sr2: Argument::Reg(sr2) }, None).reg(dr) as int == (
        m.reg(sr1) as int + m.reg(sr2) as int) % 65536,
        exec_state(m, Opcode::ADD { dr, sr1, sr2: Argument::Immediate(imm) }, None).reg(dr) as int
            == (m.reg(sr1) as int + imm as int) % 65536,
        exec_state(m, Opcode::AND { dr, sr1, sr2: Argument::Reg(sr2) }, None).reg(dr) == m.reg(sr1)
            & m.reg(sr2),
        exec_state(m, Opcode::AND { dr, sr1, sr2: Argument::Immediate(imm) }, None).reg(dr) == m.reg(
            sr1,
        ) & (imm as u16),
{
}

} // verus!
