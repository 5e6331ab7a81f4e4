use vstd::prelude::*;

use crate::machine::{
    add_operand, advanced, exec_output, exec_result, exec_state, fetched, flag_of,
    initial_machine, mem_after_read, needs_char, offset_addr, packed_chars, poll_keyboard,
    puts_output, putsp_output, reads_keyboard, step_needs_char, step_result, step_state,
    trap_state, wrap, ConditionFlag, Machine, VMError, MR_KBDR, MR_KBSR, PC_START, REG_RET,
};
use crate::memory::{Memory, MEMORY_SIZE};
use crate::opcodes::{decode_spec, Argument, Opcode, TrapCode};

verus! {

/// What the next instruction asks of the console before it can run.
#[derive(Debug, Clone, Copy, PartialEq, Eq, Structural)]
pub enum ConsoleNeed {
    /// Nothing: any input is ignored.
    Nothing,
    /// A non-blocking poll: the key if one is waiting, else none.
    KeyPoll,
    /// One character, waited for.
    Char,
    /// One character, waited for after a prompt.
    PromptedChar,
}

/// The machine: eight registers, program counter, condition code and memory.
pub struct VM {
    running: bool,
    registers: Vec<u16>,
    pc: u16,
    cond: ConditionFlag,
    memory: Memory,
}

impl View for VM {
    type V = Machine;

    closed spec fn view(&self) -> Machine {
        Machine {
            running: self.running,
            regs: self.registers@,
            pc: self.pc,
            cond: self.cond,
            mem: self.memory@,
        }
    }
}

/// The console need of the step that starts from `m`.
pub open spec fn console_need_spec(m: Machine) -> ConsoleNeed {
    match decode_spec(fetched(m)) {
        Ok(op) => if op == (Opcode::TRAP { trap_code: TrapCode::Getc }) {
            ConsoleNeed::Char
        } else if op == (Opcode::TRAP { trap_code: TrapCode::In }) {
            ConsoleNeed::PromptedChar
        } else if reads_keyboard(advanced(m), op) {
            ConsoleNeed::KeyPoll
        } else {
            ConsoleNeed::Nothing
        },
        Err(_) => ConsoleNeed::Nothing,
    }
}

/// An outcome of execution with its output as a sequence.
pub open spec fn result_view(r: Result<Vec<u8>, VMError>) -> Result<Seq<u8>, VMError> {
    match r {
        Ok(out) => Ok(out@),
        Err(e) => Err(e),
    }
}

impl VM {
    pub open spec fn wf(&self) -> bool {
        self@.wf()
    }

    /// A running machine with `data` loaded as its program image.
    pub fn new(data: &[u8]) -> (r: VM)
        ensures
            r.wf(),
            r@ == initial_machine(data@),
    {
        let mut memory = Memory::new();
        memory.load_bulk(data);
        let vm = VM {
            running: true,
            registers: vec![0u16; 8],
            pc: PC_START,
            cond: ConditionFlag::Unset,
            memory,
        };
        assert(vm@.regs =~= Seq::new(8, |i: int| 0u16));
        vm
    }

    pub fn is_running(&self) -> (r: bool)
        ensures
            r == self@.running,
    {
        self.running
    }

    /// Register `idx`.
    pub fn reg(&self, idx: usize) -> (r: u16)
        requires
            self.wf(),
            idx < 8,
        ensures
            r == self@.reg(idx),
    {
        self.registers[idx]
    }

    /// Sets register `idx`.
    pub fn reg_set(&mut self, idx: usize, val: u16)
        requires
            old(self).wf(),
            idx < 8,
        ensures
            final(self)@ == old(self)@.with_reg(idx, val),
    {
        self.registers.set(idx, val);
    }

    /// The word at `addr`, read without the keyboard's side effect.
    pub fn peek(&self, addr: u16) -> (r: u16)
        requires
            self.wf(),
        ensures
            r == self@.mem[addr as int],
    {
        match self.memory.read(addr as usize) {
            Ok(v) => v,
            Err(_) => 0,
        }
    }

    /// The word at the program counter.
    fn fetch(&self) -> (r: Result<u16, VMError>)
        requires
            self.wf(),
        ensures
            r == Ok::<u16, VMError>(fetched(self@)),
    {
        match self.memory.read(self.pc as usize) {
            Ok(v) => Ok(v),
            Err(e) => Err(VMError::MemoryAccess(e)),
        }
    }

    pub fn cond_flag(&self) -> (r: ConditionFlag)
        ensures
            r == self@.cond,
    {
        self.cond
    }

    pub fn set_cond_flag(&mut self, cond: ConditionFlag)
        ensures
            final(self)@ == (Machine { cond, ..old(self)@ }),
    {
        self.cond = cond;
    }

    /// Sets the condition code from the sign of `res`.
    fn set_flags(&mut self, res: u16)
        ensures
            final(self)@ == (Machine { cond: flag_of(res), ..old(self)@ }),
    {
        let cond = if res == 0 {
            ConditionFlag::Zero
        } else if res >= 0x8000 {
            ConditionFlag::Neg
        } else {
            ConditionFlag::Pos
        };
        self.set_cond_flag(cond);
    }

    /// Writes a result register and sets the condition code from it.
    fn set_result(&mut self, dr: usize, res: u16)
        requires
            old(self).wf(),
            dr < 8,
        ensures
            final(self)@ == old(self)@.with_result(dr, res),
    {
        self.reg_set(dr, res);
        self.set_flags(res);
    }

    /// The program counter.
    pub fn pc(&self) -> (r: usize)
        ensures
            r == self@.pc as usize,
    {
        self.pc as usize
    }

    /// Moves the program counter to `new_pc`, which must be an address.
    pub fn set_pc(&mut self, new_pc: usize)
        requires
            new_pc < MEMORY_SIZE,
        ensures
            final(self)@ == old(self)@.with_pc(new_pc as u16),
    {
        self.pc = new_pc as u16;
    }

    fn advance_pc(&mut self)
        ensures
            final(self)@ == advanced(old(self)@),
    {
        self.pc = self.pc_with_offset(1);
    }

    /// The program counter plus `offset`, wrapping.
    fn pc_with_offset(&self, offset: i16) -> (r: u16)
        ensures
            r == offset_addr(self@.pc, offset),
    {
        self.pc.wrapping_add_signed(offset)
    }

    /// Takes the result of a keyboard poll into the keyboard cells.
    fn handle_keyboard(&mut self, key: Option<u8>)
        requires
            old(self).wf(),
        ensures
            final(self)@ == old(self)@.with_mem(poll_keyboard(old(self)@.mem, key)),
    {
        match key {
            Some(b) if b != 0 => {
                let _ = self.memory.write(MR_KBSR as usize, 0x8000);
                let _ = self.memory.write(MR_KBDR as usize, b as u16);
            },
            _ => {
                let _ = self.memory.write(MR_KBSR as usize, 0);
            },
        }
    }

    /// Reads `position`; reading the keyboard status cell polls the keyboard,
    /// whose answer is `key`.
    fn read(&mut self, position: u16, key: Option<u8>) -> (r: Result<u16, VMError>)
        requires
            old(self).wf(),
        ensures
            final(self)@ == old(self)@.with_mem(mem_after_read(old(self)@.mem, position, key)),
            r == Ok::<u16, VMError>(final(self)@.mem[position as int]),
    {
        if position == MR_KBSR {
            self.handle_keyboard(key);
        }
        match self.memory.read(position as usize) {
            Ok(v) => Ok(v),
            Err(e) => Err(VMError::MemoryAccess(e)),
        }
    }

    fn read_with_offset(&mut self, offset: i16, key: Option<u8>) -> (r: Result<u16, VMError>)
        requires
            old(self).wf(),
        ensures
            final(self)@ == old(self)@.with_mem(
                mem_after_read(old(self)@.mem, offset_addr(old(self)@.pc, offset), key),
            ),
            r == Ok::<u16, VMError>(final(self)@.mem[offset_addr(old(self)@.pc, offset) as int]),
    {
        let addr = self.pc_with_offset(offset);
        self.read(addr, key)
    }

    /// Stores `val` at `addr`.
    fn write(&mut self, addr: u16, val: u16) -> (r: Result<(), VMError>)
        requires
            old(self).wf(),
        ensures
            final(self)@ == old(self)@.with_mem(old(self)@.mem.update(addr as int, val)),
            r is Ok,
    {
        match self.memory.write(addr as usize, val) {
            Ok(()) => Ok(()),
            Err(e) => Err(VMError::MemoryAccess(e)),
        }
    }

    /// The characters of the string at `start`: one per cell, up to the first
    /// zero cell.
    fn string_at(&self, start: u16) -> (out: Vec<u8>)
        requires
            self.wf(),
        ensures
            out@ == puts_output(self@.mem, start as int),
    {
        let mut out: Vec<u8> = Vec::new();
        let mut i: usize = start as usize;
        while i < MEMORY_SIZE && self.peek(i as u16) != 0
            invariant
                self.wf(),
                start <= i <= MEMORY_SIZE,
                out@ + puts_output(self@.mem, i as int) == puts_output(self@.mem, start as int),
            decreases MEMORY_SIZE - i,
        {
            let cell = self.peek(i as u16);
            let ghost before = out@;
            out.push((cell % 256) as u8);
            assert(out@ + puts_output(self@.mem, i + 1) =~= before + puts_output(
                self@.mem,
                i as int,
            ));
            i += 1;
        }
        assert(out@ + puts_output(self@.mem, i as int) =~= out@);
        out
    }

    /// The characters of the packed string at `start`: two per cell, low byte
    /// first, up to the first zero cell.
    fn packed_string_at(&self, start: u16) -> (out: Vec<u8>)
        requires
            self.wf(),
        ensures
            out@ == putsp_output(self@.mem, start as int),
    {
        let mut out: Vec<u8> = Vec::new();
        let mut i: usize = start as usize;
        while i < MEMORY_SIZE && self.peek(i as u16) != 0
            invariant
                self.wf(),
                start <= i <= MEMORY_SIZE,
                out@ + putsp_output(self@.mem, i as int) == putsp_output(self@.mem, start as int),
            decreases MEMORY_SIZE - i,
        {
            let cell = self.peek(i as u16);
            let ghost before = out@;
            let (lo, hi) = (cell % 256, cell / 256);
            out.push(lo as u8);
            if hi != 0 {
                out.push(hi as u8);
            }
            assert(out@ =~= before + packed_chars(cell));
            assert(out@ + putsp_output(self@.mem, i + 1) =~= before + putsp_output(
                self@.mem,
                i as int,
            ));
            i += 1;
        }
        assert(out@ + putsp_output(self@.mem, i as int) =~= out@);
        out
    }

    /// Runs a system call; `input` is the character an input trap receives.
    /// Returns what the call writes to the console.
    fn handle_trap_code(&mut self, trap_code: TrapCode, input: Option<u8>) -> (out: Vec<u8>)
        requires
            old(self).wf(),
        ensures
            final(self)@ == trap_state(old(self)@, trap_code, input),
            out@ == exec_output(old(self)@, Opcode::TRAP { trap_code }),
    {
        match trap_code {
            TrapCode::Getc | TrapCode::In => {
                let ch = match input {
                    Some(b) => b,
                    None => 0,
                };
                self.set_result(0, ch as u16);
                Vec::new()
            },
            TrapCode::Out => {
                let ch = (self.reg(0) % 256) as u8;
                vec![ch]
            },
            TrapCode::Puts => self.string_at(self.reg(0)),
            TrapCode::Putsp => self.packed_string_at(self.reg(0)),
            TrapCode::Halt => {
                self.running = false;
                Vec::new()
            },
        }
    }

    /// Executes a register instruction: ADD, AND, NOT or LEA.
    fn execute_operate(&mut self, opcode: Opcode)
        requires
            old(self).wf(),
            opcode.wf(),
            opcode is ADD || opcode is AND || opcode is NOT || opcode is LEA,
        ensures
            final(self)@ == exec_state(old(self)@, opcode, None),
    {
        match opcode {
            Opcode::ADD { dr, sr1, sr2 } => {
                let res = match sr2 {
                    Argument::Reg(sr2) => self.reg(sr1).wrapping_add(self.reg(sr2)),
                    Argument::Immediate(val) => self.reg(sr1).wrapping_add_signed(val),
                };
                assert(res == wrap(self@.reg(sr1) + add_operand(self@, sr2)));
                self.set_result(dr, res);
            },
            Opcode::AND { dr, sr1, sr2 } => {
                let res = match sr2 {
                    Argument::Reg(sr2) => self.reg(sr1) & self.reg(sr2),
                    Argument::Immediate(val) => self.reg(sr1) & (val as u16),
                };
                self.set_result(dr, res);
            },
            Opcode::NOT { dr, sr } => {
                let res = !self.reg(sr);
                self.set_result(dr, res);
            },
            Opcode::LEA { dr, offset } => {
                let addr = self.pc_with_offset(offset);
                self.set_result(dr, addr);
            },
            _ => {},
        }
    }

    /// Executes a control transfer: BR, JMP, RET, JSR or JSRR.
    fn execute_control(&mut self, opcode: Opcode)
        requires
            old(self).wf(),
            opcode.wf(),
            opcode is BR || opcode is JMP || opcode is RET || opcode is JSR || opcode is JSRR,
        ensures
            final(self)@ == exec_state(old(self)@, opcode, None),
    {
        match opcode {
            Opcode::BR { n, z, p, offset } => {
                let taken = match self.cond {
                    ConditionFlag::Neg => n,
                    ConditionFlag::Zero => z,
                    ConditionFlag::Pos => p,
                    ConditionFlag::Unset => false,
                };
                if taken {
                    self.pc = self.pc_with_offset(offset);
                }
            },
            Opcode::JMP { base_r } => {
                self.pc = self.reg(base_r);
            },
            Opcode::RET => {
                self.pc = self.reg(REG_RET);
            },
            Opcode::JSR { offset } => {
                let pc = self.pc;
                self.reg_set(REG_RET, pc);
                self.pc = self.pc_with_offset(offset);
            },
            Opcode::JSRR { base_r } => {
                let pc = self.pc;
                self.reg_set(REG_RET, pc);
                self.pc = self.reg(base_r);
            },
            _ => {},
        }
    }

    /// Executes a memory access: LD, LDI, LDR, ST, STI or STR.
    fn execute_memory(&mut self, opcode: Opcode, key: Option<u8>) -> (r: Result<(), VMError>)
        requires
            old(self).wf(),
            opcode.wf(),
            opcode is LD || opcode is LDI || opcode is LDR || opcode is ST || opcode is STI
                || opcode is STR,
        ensures
            final(self).wf(),
            final(self)@ == exec_state(old(self)@, opcode, key),
            r is Ok,
    {
        match opcode {
            Opcode::LD { dr, offset } => {
                let res = self.read_with_offset(offset, key)?;
                self.set_result(dr, res);
            },
            Opcode::LDI { dr, offset } => {
                let addr = self.read_with_offset(offset, key)?;
                let res = self.read(addr, key)?;
                self.set_result(dr, res);
            },
            Opcode::LDR { dr, base_r, offset } => {
                let addr = self.reg(base_r).wrapping_add_signed(offset);
                let res = self.read(addr, key)?;
                self.set_result(dr, res);
            },
            Opcode::ST { sr, offset } => {
                let addr = self.pc_with_offset(offset);
                let val = self.reg(sr);
                self.write(addr, val)?;
            },
            Opcode::STI { sr, offset } => {
                let addr = self.read_with_offset(offset, key)?;
                let val = self.reg(sr);
                self.write(addr, val)?;
            },
            Opcode::STR { sr, base_r, offset } => {
                let addr = self.reg(base_r).wrapping_add_signed(offset);
                let val = self.reg(sr);
                self.write(addr, val)?;
            },
            _ => {},
        }
        Ok(())
    }

    /// Executes one decoded instruction (the program counter already points
    /// past it). `input` is the console's answer for this instruction: the
    /// character an input trap reads, or what a keyboard poll found. Returns
    /// what the instruction writes to the console; the reserved opcode stops
    /// the machine with an error.
    pub fn execute(&mut self, opcode: Opcode, input: Option<u8>) -> (r: Result<Vec<u8>, VMError>)
        requires
            old(self).wf(),
            opcode.wf(),
            needs_char(opcode) ==> input is Some,
        ensures
            final(self).wf(),
            final(self)@ == exec_state(old(self)@, opcode, input),
            result_view(r) == exec_result(old(self)@, opcode),
    {
        match opcode {
            Opcode::ADD { .. } | Opcode::AND { .. } | Opcode::NOT { .. } | Opcode::LEA { .. } => {
                self.execute_operate(opcode);
                Ok(Vec::new())
            },
            Opcode::BR { .. } | Opcode::JMP { .. } | Opcode::RET | Opcode::JSR { .. }
            | Opcode::JSRR { .. } => {
                self.execute_control(opcode);
                Ok(Vec::new())
            },
            Opcode::LD { .. } | Opcode::LDI { .. } | Opcode::LDR { .. } | Opcode::ST { .. }
            | Opcode::STI { .. } | Opcode::STR { .. } => {
                self.execute_memory(opcode, input)?;
                Ok(Vec::new())
            },
            Opcode::RTI => Ok(Vec::new()),
            Opcode::TRAP { trap_code } => {
                let pc = self.pc;
                self.reg_set(REG_RET, pc);
                Ok(self.handle_trap_code(trap_code, input))
            },
            Opcode::RESERVED => {
                self.running = false;
                Err(VMError::IllegalInstruction)
            },
        }
    }

    /// Whether executing `opcode` with the program counter at `pc` reads the
    /// keyboard status cell.
    fn reads_keyboard_at(&self, pc: u16, opcode: Opcode) -> (r: bool)
        requires
            self.wf(),
            opcode.wf(),
        ensures
            r == reads_keyboard(self@.with_pc(pc), opcode),
    {
        match opcode {
            Opcode::LD { offset, .. } | Opcode::STI { offset, .. } => pc.wrapping_add_signed(offset)
                == MR_KBSR,
            Opcode::LDI { offset, .. } => {
                let addr = pc.wrapping_add_signed(offset);
                addr == MR_KBSR || self.peek(addr) == MR_KBSR
            },
            Opcode::LDR { base_r, offset, .. } => self.reg(base_r).wrapping_add_signed(offset)
                == MR_KBSR,
            _ => false,
        }
    }

    /// What the next step asks of the console: nothing, a keyboard poll, or
    /// a character (with or without a prompt).
    pub fn console_need(&self) -> (r: ConsoleNeed)
        requires
            self.wf(),
        ensures
            r == console_need_spec(self@),
    {
        let instruction = self.peek(self.pc);
        let next_pc = self.pc.wrapping_add(1);
        match Opcode::decode(instruction) {
            Ok(Opcode::TRAP { trap_code: TrapCode::Getc }) => ConsoleNeed::Char,
            Ok(Opcode::TRAP { trap_code: TrapCode::In }) => ConsoleNeed::PromptedChar,
            Ok(opcode) => if self.reads_keyboard_at(next_pc, opcode) {
                ConsoleNeed::KeyPoll
            } else {
                ConsoleNeed::Nothing
            },
            Err(_) => ConsoleNeed::Nothing,
        }
    }

    /// One fetch-decode-execute step of a running machine. `input` is the
    /// console's answer to what `console_need` asked. A word that is not an
    /// instruction, or the reserved opcode, stops the machine with an error.
    pub fn step(&mut self, input: Option<u8>) -> (r: Result<Vec<u8>, VMError>)
        requires
            old(self).wf(),
            old(self)@.running,
            step_needs_char(old(self)@) ==> input is Some,
        ensures
            final(self).wf(),
            final(self)@ == step_state(old(self)@, input),
            result_view(r) == step_result(old(self)@),
    {
        let instruction = self.fetch()?;
        self.advance_pc();
        match Opcode::decode(instruction) {
            Ok(opcode) => self.execute(opcode, input),
            Err(e) => {
                self.running = false;
                Err(VMError::DecodeFailure(e))
            },
        }
    }
}

} // verus!
