use vstd::prelude::*;

use crate::opcodes::{decode_spec, Argument, DecodeError, Opcode, TrapCode};

verus! {

/// Address at which execution starts.
pub const PC_START: u16 = 0x3000;

/// The register that receives return addresses.
pub const REG_RET: usize = 7;

/// Keyboard status cell: bit 15 is set when a character is available.
pub const MR_KBSR: u16 = 0xFE00;

/// Keyboard data cell: the last character read.
pub const MR_KBDR: u16 = 0xFE02;

/// The condition code: the sign of the last result that set it.
#[derive(Debug, Clone, Copy, PartialEq, Eq, Structural)]
pub enum ConditionFlag {
    Pos,
    Neg,
    Zero,
    Unset,
}

/// Why the machine stopped on an error.
#[derive(Debug, Clone, Copy, PartialEq, Eq, Structural)]
pub enum VMError {
    /// The word at the program counter is not an instruction.
    DecodeFailure(DecodeError),
    /// The reserved opcode was executed.
    IllegalInstruction,
    /// An access outside the address space.
    MemoryAccess(crate::memory::MemoryError),
}

/// The abstract state of the machine.
pub ghost struct Machine {
    pub running: bool,
    /// The eight general-purpose registers.
    pub regs: Seq<u16>,
    pub pc: u16,
    pub cond: ConditionFlag,
    /// One word per address.
    pub mem: Seq<u16>,
}

/// Reduction modulo 2^16: 16-bit wraparound.
pub open spec fn wrap(x: int) -> u16 {
    (x % 65536) as u16
}

/// Two's-complement reading of a word.
pub open spec fn as_signed(v: u16) -> int {
    if v >= 0x8000 {
        v as int - 65536
    } else {
        v as int
    }
}

/// The condition code of a result: its sign as a signed word.
pub open spec fn flag_of(v: u16) -> ConditionFlag {
    if as_signed(v) < 0 {
        ConditionFlag::Neg
    } else if as_signed(v) == 0 {
        ConditionFlag::Zero
    } else {
        ConditionFlag::Pos
    }
}

/// A branch is taken when one of its asserted bits names the active flag.
pub open spec fn branch_taken(n: bool, z: bool, p: bool, cond: ConditionFlag) -> bool {
    (n && cond == ConditionFlag::Neg) || (z && cond == ConditionFlag::Zero) || (p && cond
        == ConditionFlag::Pos)
}

/// `base + offset`, wrapping around the address space.
pub open spec fn offset_addr(base: u16, offset: i16) -> u16 {
    wrap(base + offset)
}

/// The low byte of a word.
pub open spec fn low_byte(v: u16) -> u8 {
    (v % 256) as u8
}

/// The keyboard cells after a poll that found `key` (a zero byte counts as
/// no input).
pub open spec fn poll_keyboard(mem: Seq<u16>, key: Option<u8>) -> Seq<u16> {
    match key {
        Some(b) => if b != 0 {
            mem.update(MR_KBSR as int, 0x8000u16).update(MR_KBDR as int, b as u16)
        } else {
            mem.update(MR_KBSR as int, 0u16)
        },
        None => mem.update(MR_KBSR as int, 0u16),
    }
}

/// Memory after a read of `addr`: only the keyboard status cell has a side
/// effect, the poll.
pub open spec fn mem_after_read(mem: Seq<u16>, addr: u16, key: Option<u8>) -> Seq<u16> {
    if addr == MR_KBSR {
        poll_keyboard(mem, key)
    } else {
        mem
    }
}

/// The byte that an input trap receives.
pub open spec fn input_byte(input: Option<u8>) -> u8 {
    match input {
        Some(b) => b,
        None => 0,
    }
}

/// What a string trap writes: the low byte of each cell from `start` up to
/// the first zero cell (or the end of memory).
pub open spec fn puts_output(mem: Seq<u16>, start: int) -> Seq<u8>
    decreases mem.len() - start,
{
    if start < 0 || start >= mem.len() || mem[start] == 0 {
        seq![]
    } else {
        seq![low_byte(mem[start])] + puts_output(mem, start + 1)
    }
}

/// The characters that one cell holds two by two: low byte first, then the
/// high byte unless it is zero.
pub open spec fn packed_chars(v: u16) -> Seq<u8> {
    if v / 256 != 0 {
        seq![low_byte(v), (v / 256) as u8]
    } else {
        seq![low_byte(v)]
    }
}

/// What a packed string trap writes, up to the first zero cell (or the end of
/// memory).
pub open spec fn putsp_output(mem: Seq<u16>, start: int) -> Seq<u8>
    decreases mem.len() - start,
{
    if start < 0 || start >= mem.len() || mem[start] == 0 {
        seq![]
    } else {
        packed_chars(mem[start]) + putsp_output(mem, start + 1)
    }
}

impl Machine {
    pub open spec fn reg(self, r: usize) -> u16 {
        self.regs[r as int]
    }

    pub open spec fn with_reg(self, r: usize, v: u16) -> Machine {
        Machine { regs: self.regs.update(r as int, v), ..self }
    }

    /// Writes a result register and sets the condition code from it.
    pub open spec fn with_result(self, r: usize, v: u16) -> Machine {
        Machine { regs: self.regs.update(r as int, v), cond: flag_of(v), ..self }
    }

    pub open spec fn with_pc(self, pc: u16) -> Machine {
        Machine { pc, ..self }
    }

    pub open spec fn with_mem(self, mem: Seq<u16>) -> Machine {
        Machine { mem, ..self }
    }

    pub open spec fn halted(self) -> Machine {
        Machine { running: false, ..self }
    }

    /// Eight registers and one cell per address.
    pub open spec fn wf(self) -> bool {
        self.regs.len() == 8 && self.mem.len() == crate::memory::MEMORY_SIZE
    }
}

/// Second operand of ADD, as a number.
pub open spec fn add_operand(m: Machine, a: Argument) -> int {
    match a {
        Argument::Reg(r) => m.reg(r) as int,
        Argument::Immediate(i) => i as int,
    }
}

/// Second operand of AND, as a bit pattern.
pub open spec fn and_operand(m: Machine, a: Argument) -> u16 {
    match a {
        Argument::Reg(r) => m.reg(r),
        Argument::Immediate(i) => i as u16,
    }
}

/// Reads `addr` (polling the keyboard if it is the status cell) into `dr`.
pub open spec fn load_into(m: Machine, dr: usize, addr: u16, key: Option<u8>) -> Machine {
    let mem = mem_after_read(m.mem, addr, key);
    m.with_mem(mem).with_result(dr, mem[addr as int])
}

/// State after a system call; `m` already holds the return address.
pub open spec fn trap_state(m: Machine, code: TrapCode, input: Option<u8>) -> Machine {
    match code {
        TrapCode::Getc => m.with_result(0, input_byte(input) as u16),
        TrapCode::In => m.with_result(0, input_byte(input) as u16),
        TrapCode::Halt => m.halted(),
        _ => m,
    }
}

/// State after executing `op` from `m` (whose pc is already past `op`).
/// `input` is the console's answer: the byte read by an input trap, or what a
/// poll of the keyboard found.
pub open spec fn exec_state(m: Machine, op: Opcode, input: Option<u8>) -> Machine {
    match op {
        Opcode::ADD { dr, sr1, sr2 } => m.with_result(dr, wrap(m.reg(sr1) + add_operand(m, sr2))),
        Opcode::AND { dr, sr1, sr2 } => m.with_result(dr, m.reg(sr1) & and_operand(m, sr2)),
        Opcode::BR { n, z, p, offset } => if branch_taken(n, z, p, m.cond) {
            m.with_pc(offset_addr(m.pc, offset))
        } else {
            m
        },
        Opcode::JMP { base_r } => m.with_pc(m.reg(base_r)),
        Opcode::RET => m.with_pc(m.reg(REG_RET)),
        Opcode::JSR { offset } => m.with_reg(REG_RET, m.pc).with_pc(offset_addr(m.pc, offset)),
        Opcode::JSRR { base_r } => {
            let m1 = m.with_reg(REG_RET, m.pc);
            m1.with_pc(m1.reg(base_r))
        },
        Opcode::LD { dr, offset } => load_into(m, dr, offset_addr(m.pc, offset), input),
        Opcode::LDI { dr, offset } => {
            let a = offset_addr(m.pc, offset);
            let m1 = m.with_mem(mem_after_read(m.mem, a, input));
            load_into(m1, dr, m1.mem[a as int], input)
        },
        Opcode::LDR { dr, base_r, offset } => load_into(
            m,
            dr,
            offset_addr(m.reg(base_r), offset),
            input,
        ),
        Opcode::LEA { dr, offset } => m.with_result(dr, offset_addr(m.pc, offset)),
        Opcode::NOT { dr, sr } => m.with_result(dr, !m.reg(sr)),
        Opcode::RTI => m,
        Opcode::ST { sr, offset } => m.with_mem(
            m.mem.update(offset_addr(m.pc, offset) as int, m.reg(sr)),
        ),
        Opcode::STI { sr, offset } => {
            let a = offset_addr(m.pc, offset);
            let mem = mem_after_read(m.mem, a, input);
            m.with_mem(mem.update(mem[a as int] as int, m.reg(sr)))
        },
        Opcode::STR { sr, base_r, offset } => m.with_mem(
            m.mem.update(offset_addr(m.reg(base_r), offset) as int, m.reg(sr)),
        ),
        Opcode::TRAP { trap_code } => trap_state(m.with_reg(REG_RET, m.pc), trap_code, input),
        Opcode::RESERVED => m.halted(),
    }
}

/// What executing `op` from `m` writes to the console.
pub open spec fn exec_output(m: Machine, op: Opcode) -> Seq<u8> {
    match op {
        Opcode::TRAP { trap_code } => match trap_code {
            TrapCode::Out => seq![low_byte(m.reg(0))],
            TrapCode::Puts => puts_output(m.mem, m.reg(0) as int),
            TrapCode::Putsp => putsp_output(m.mem, m.reg(0) as int),
            _ => seq![],
        },
        _ => seq![],
    }
}

/// The outcome of executing `op`: its output, or the error that stops the
/// machine.
pub open spec fn exec_result(m: Machine, op: Opcode) -> Result<Seq<u8>, VMError> {
    if op is RESERVED {
        Err(VMError::IllegalInstruction)
    } else {
        Ok(exec_output(m, op))
    }
}

/// Whether `op` waits for a character from the console.
pub open spec fn needs_char(op: Opcode) -> bool {
    op == (Opcode::TRAP { trap_code: TrapCode::Getc }) || op == (Opcode::TRAP {
        trap_code: TrapCode::In,
    })
}

/// Whether executing `op` from `m` reads the keyboard status cell.
pub open spec fn reads_keyboard(m: Machine, op: Opcode) -> bool {
    match op {
        Opcode::LD { offset, .. } => offset_addr(m.pc, offset) == MR_KBSR,
        Opcode::LDI { offset, .. } => offset_addr(m.pc, offset) == MR_KBSR || m.mem[offset_addr(
            m.pc,
            offset,
        ) as int] == MR_KBSR,
        Opcode::LDR { base_r, offset, .. } => offset_addr(m.reg(base_r), offset) == MR_KBSR,
        Opcode::STI { offset, .. } => offset_addr(m.pc, offset) == MR_KBSR,
        _ => false,
    }
}

/// The word at the program counter.
pub open spec fn fetched(m: Machine) -> u16 {
    m.mem[m.pc as int]
}

/// The machine with its program counter moved past the fetched word.
pub open spec fn advanced(m: Machine) -> Machine {
    m.with_pc(wrap(m.pc + 1))
}

/// State after one fetch-decode-execute step.
pub open spec fn step_state(m: Machine, input: Option<u8>) -> Machine {
    match decode_spec(fetched(m)) {
        Ok(op) => exec_state(advanced(m), op, input),
        Err(_) => advanced(m).halted(),
    }
}

/// Outcome of one step: the output, or the error that stopped the machine.
pub open spec fn step_result(m: Machine) -> Result<Seq<u8>, VMError> {
    match decode_spec(fetched(m)) {
        Ok(op) => exec_result(advanced(m), op),
        Err(e) => Err(VMError::DecodeFailure(e)),
    }
}

/// Whether the next step waits for a character from the console.
pub open spec fn step_needs_char(m: Machine) -> bool {
    decode_spec(fetched(m)) matches Ok(op) && needs_char(op)
}

/// The initial state for a program image: running, registers zero, the
/// condition code unset and the program counter at its start address.
pub open spec fn initial_machine(image: Seq<u8>) -> Machine {
    Machine {
        running: true,
        regs: Seq::new(8, |i: int| 0u16),
        pc: PC_START,
        cond: ConditionFlag::Unset,
        mem: crate::memory::load_spec(
            Seq::new(crate::memory::MEMORY_SIZE as nat, |a: int| 0u16),
            image,
        ),
    }
}

} // verus!
