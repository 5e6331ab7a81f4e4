use vstd::prelude::*;

use crate::util::{sign_ext_imm11, sign_ext_imm5, sign_ext_imm6, sign_ext_imm9, sign_extend};

verus! {

/// Second operand of ADD and AND: a register or a sign-extended immediate.
#[derive(Debug, Clone, Copy, PartialEq, Eq, Structural)]
pub enum Argument {
    Reg(usize),
    Immediate(i16),
}

/// The console system calls that a TRAP instruction can name.
#[derive(Debug, Clone, Copy, PartialEq, Eq, Structural)]
pub enum TrapCode {
    /// Read one character into R0, without echo.
    Getc,
    /// Write the low byte of R0.
    Out,
    /// Write the string of one character per cell that R0 points to.
    Puts,
    /// Prompt, then read one character into R0.
    In,
    /// Write the string of two characters per cell that R0 points to.
    Putsp,
    /// Stop the machine.
    Halt,
}

/// A decoded instruction.
#[derive(Debug, Clone, Copy, PartialEq, Eq, Structural)]
pub enum Opcode {
    /// dr <- sr1 + sr2/imm5
    ADD { dr: usize, sr1: usize, sr2: Argument },
    /// dr <- sr1 & sr2/imm5
    AND { dr: usize, sr1: usize, sr2: Argument },
    /// if one of n/z/p matches the condition flag: pc <- pc + offset
    BR { n: bool, z: bool, p: bool, offset: i16 },
    /// pc <- base_r
    JMP { base_r: usize },
    /// pc <- r7
    RET,
    /// r7 <- pc; pc <- pc + offset
    JSR { offset: i16 },
    /// r7 <- pc; pc <- base_r
    JSRR { base_r: usize },
    /// dr <- mem[pc + offset]
    LD { dr: usize, offset: i16 },
    /// dr <- mem[mem[pc + offset]]
    LDI { dr: usize, offset: i16 },
    /// dr <- mem[base_r + offset]
    LDR { dr: usize, base_r: usize, offset: i16 },
    /// dr <- pc + offset
    LEA { dr: usize, offset: i16 },
    /// dr <- !sr
    NOT { dr: usize, sr: usize },
    /// Return from interrupt: nothing to do without interrupts.
    RTI,
    /// mem[pc + offset] <- sr
    ST { sr: usize, offset: i16 },
    /// mem[mem[pc + offset]] <- sr
    STI { sr: usize, offset: i16 },
    /// mem[base_r + offset] <- sr
    STR { sr: usize, base_r: usize, offset: i16 },
    /// r7 <- pc; run the system call
    TRAP { trap_code: TrapCode },
    /// The unused opcode: executing it is an illegal instruction.
    RESERVED,
}

/// Why a word is not an instruction.
#[derive(Debug, Clone, Copy, PartialEq, Eq, Structural)]
pub enum DecodeError {
    /// A TRAP whose code (the low byte) names no system call.
    InvalidTrapCode(u16),
}

/// The field of `w` that starts at the bit of value `unit` and takes values
/// in `0..span`: bits `[k+n-1 : k]` are `field(w, 2^k, 2^n)`.
pub open spec fn field(w: u16, unit: int, span: int) -> int {
    (w as int / unit) % span
}

/// Whether the bit of value `unit` is set in `w`.
pub open spec fn bit_set(w: u16, unit: int) -> bool {
    field(w, unit, 2) == 1
}

/// The top four bits: the opcode family.
pub open spec fn opcode_of(w: u16) -> int {
    w as int / 4096
}

/// Bits [11:9]: the destination or source register.
pub open spec fn reg_a(w: u16) -> usize {
    field(w, 512, 8) as usize
}

/// Bits [8:6]: the first source or base register.
pub open spec fn reg_b(w: u16) -> usize {
    field(w, 64, 8) as usize
}

/// Bits [2:0]: the second source register.
pub open spec fn reg_c(w: u16) -> usize {
    field(w, 1, 8) as usize
}

pub open spec fn imm5(w: u16) -> i16 {
    sign_extend(field(w, 1, 32), 32) as i16
}

pub open spec fn offset6(w: u16) -> i16 {
    sign_extend(field(w, 1, 64), 64) as i16
}

pub open spec fn offset9(w: u16) -> i16 {
    sign_extend(field(w, 1, 512), 512) as i16
}

pub open spec fn offset11(w: u16) -> i16 {
    sign_extend(field(w, 1, 2048), 2048) as i16
}

/// The system call of a trap code.
pub open spec fn trap_of(code: int) -> Option<TrapCode> {
    if code == 0x20 {
        Some(TrapCode::Getc)
    } else if code == 0x21 {
        Some(TrapCode::Out)
    } else if code == 0x22 {
        Some(TrapCode::Puts)
    } else if code == 0x23 {
        Some(TrapCode::In)
    } else if code == 0x24 {
        Some(TrapCode::Putsp)
    } else if code == 0x25 {
        Some(TrapCode::Halt)
    } else {
        None
    }
}

/// Second operand of ADD/AND: bit 5 chooses the immediate.
pub open spec fn operand_of(w: u16) -> Argument {
    if bit_set(w, 32) {
        Argument::Immediate(imm5(w))
    } else {
        Argument::Reg(reg_c(w))
    }
}

/// The instruction that a word encodes.
pub open spec fn decode_spec(w: u16) -> Result<Opcode, DecodeError> {
    let op = opcode_of(w);
    if op == 0b0001 {
        Ok(Opcode::ADD { dr: reg_a(w), sr1: reg_b(w), sr2: operand_of(w) })
    } else if op == 0b0101 {
        Ok(Opcode::AND { dr: reg_a(w), sr1: reg_b(w), sr2: operand_of(w) })
    } else if op == 0b0000 {
        Ok(
            Opcode::BR {
                n: bit_set(w, 2048),
                z: bit_set(w, 1024),
                p: bit_set(w, 512),
                offset: offset9(w),
            },
        )
    } else if op == 0b1100 {
        if reg_b(w) == 7 {
            Ok(Opcode::RET)
        } else {
            Ok(Opcode::JMP { base_r: reg_b(w) })
        }
    } else if op == 0b0100 {
        if bit_set(w, 2048) {
            Ok(Opcode::JSR { offset: offset11(w) })
        } else {
            Ok(Opcode::JSRR { base_r: reg_b(w) })
        }
    } else if op == 0b0010 {
        Ok(Opcode::LD { dr: reg_a(w), offset: offset9(w) })
    } else if op == 0b1010 {
        Ok(Opcode::LDI { dr: reg_a(w), offset: offset9(w) })
    } else if op == 0b0110 {
        Ok(Opcode::LDR { dr: reg_a(w), base_r: reg_b(w), offset: offset6(w) })
    } else if op == 0b1110 {
        Ok(Opcode::LEA { dr: reg_a(w), offset: offset9(w) })
    } else if op == 0b1001 {
        Ok(Opcode::NOT { dr: reg_a(w), sr: reg_b(w) })
    } else if op == 0b1000 {
        Ok(Opcode::RTI)
    } else if op == 0b0011 {
        Ok(Opcode::ST { sr: reg_a(w), offset: offset9(w) })
    } else if op == 0b1011 {
        Ok(Opcode::STI { sr: reg_a(w), offset: offset9(w) })
    } else if op == 0b0111 {
        Ok(Opcode::STR { sr: reg_a(w), base_r: reg_b(w), offset: offset6(w) })
    } else if op == 0b1101 {
        Ok(Opcode::RESERVED)
    } else {
        match trap_of(field(w, 1, 256)) {
            Some(trap_code) => Ok(Opcode::TRAP { trap_code }),
            None => Err(DecodeError::InvalidTrapCode(field(w, 1, 256) as u16)),
        }
    }
}

impl Argument {
    /// Register indices name one of the eight general-purpose registers.
    pub open spec fn wf(self) -> bool {
        match self {
            Argument::Reg(r) => r < 8,
            Argument::Immediate(_) => true,
        }
    }
}

impl Opcode {
    /// Every register index names one of the eight general-purpose registers.
    pub open spec fn wf(self) -> bool {
        match self {
            Opcode::ADD { dr, sr1, sr2 } => dr < 8 && sr1 < 8 && sr2.wf(),
            Opcode::AND { dr, sr1, sr2 } => dr < 8 && sr1 < 8 && sr2.wf(),
            Opcode::JMP { base_r } => base_r < 8,
            Opcode::JSRR { base_r } => base_r < 8,
            Opcode::LD { dr, .. } => dr < 8,
            Opcode::LDI { dr, .. } => dr < 8,
            Opcode::LDR { dr, base_r, .. } => dr < 8 && base_r < 8,
            Opcode::LEA { dr, .. } => dr < 8,
            Opcode::NOT { dr, sr } => dr < 8 && sr < 8,
            Opcode::ST { sr, .. } => sr < 8,
            Opcode::STI { sr, .. } => sr < 8,
            Opcode::STR { sr, base_r, .. } => sr < 8 && base_r < 8,
            _ => true,
        }
    }

    /// Decodes one instruction word.
    pub fn decode(instruction: u16) -> (r: Result<Opcode, DecodeError>)
        ensures
            r == decode_spec(instruction),
            r matches Ok(op) ==> op.wf(),
            r is Err <==> (opcode_of(instruction) == 0b1111 && trap_of(field(instruction, 1, 256)) is None),
    {
        let w = instruction;
        let op = w >> 12;
        let a = ((w >> 9) & 0b111) as usize;
        let b = ((w >> 6) & 0b111) as usize;
        let c = (w & 0b111) as usize;
        let bit5 = w & 0x20u16 != 0;
        let bit9 = w & 0x200u16 != 0;
        let bit10 = w & 0x400u16 != 0;
        let bit11 = w & 0x800u16 != 0;
        let code = w & 0xFF;
        proof {
            assert(w >> 12 == w / 4096) by (bit_vector);
            assert((w >> 9) & 0b111 == (w / 512) % 8) by (bit_vector);
            assert((w >> 6) & 0b111 == (w / 64) % 8) by (bit_vector);
            assert(w & 0b111 == w % 8) by (bit_vector);
            assert((w & 0x20u16 != 0) == ((w / 32) % 2 == 1)) by (bit_vector);
            assert((w & 0x200u16 != 0) == ((w / 512) % 2 == 1)) by (bit_vector);
            assert((w & 0x400u16 != 0) == ((w / 1024) % 2 == 1)) by (bit_vector);
            assert((w & 0x800u16 != 0) == ((w / 2048) % 2 == 1)) by (bit_vector);
            assert(w & 0xFF == w % 256) by (bit_vector);
        }
        if op == 0b0001 {
            let sr2 = if bit5 {
                Argument::Immediate(sign_ext_imm5(w))
            } else {
                Argument::Reg(c)
            };
            Ok(Opcode::ADD { dr: a, sr1: b, sr2 })
        } else if op == 0b0101 {
            let sr2 = if bit5 {
                Argument::Immediate(sign_ext_imm5(w))
            } else {
                Argument::Reg(c)
            };
            Ok(Opcode::AND { dr: a, sr1: b, sr2 })
        } else if op == 0b0000 {
            Ok(Opcode::BR { n: bit11, z: bit10, p: bit9, offset: sign_ext_imm9(w) })
        } else if op == 0b1100 {
            if b == 7 {
                Ok(Opcode::RET)
            } else {
                Ok(Opcode::JMP { base_r: b })
            }
        } else if op == 0b0100 {
            if bit11 {
                Ok(Opcode::JSR { offset: sign_ext_imm11(w) })
            } else {
                Ok(Opcode::JSRR { base_r: b })
            }
        } else if op == 0b0010 {
            Ok(Opcode::LD { dr: a, offset: sign_ext_imm9(w) })
        } else if op == 0b1010 {
            Ok(Opcode::LDI { dr: a, offset: sign_ext_imm9(w) })
        } else if op == 0b0110 {
            Ok(Opcode::LDR { dr: a, base_r: b, offset: sign_ext_imm6(w) })
        } else if op == 0b1110 {
            Ok(Opcode::LEA { dr: a, offset: sign_ext_imm9(w) })
        } else if op == 0b1001 {
            Ok(Opcode::NOT { dr: a, sr: b })
        } else if op == 0b1000 {
            Ok(Opcode::RTI)
        } else if op == 0b0011 {
            Ok(Opcode::ST { sr: a, offset: sign_ext_imm9(w) })
        } else if op == 0b1011 {
            Ok(Opcode::STI { sr: a, offset: sign_ext_imm9(w) })
        } else if op == 0b0111 {
            Ok(Opcode::STR { sr: a, base_r: b, offset: sign_ext_imm6(w) })
        } else if op == 0b1101 {
            Ok(Opcode::RESERVED)
        } else {
            let trap_code = if code == 0x20 {
                TrapCode::Getc
            } else if code == 0x21 {
                TrapCode::Out
            } else if code == 0x22 {
                TrapCode::Puts
            } else if code == 0x23 {
                TrapCode::In
            } else if code == 0x24 {
                TrapCode::Putsp
            } else if code == 0x25 {
                TrapCode::Halt
            } else {
                return Err(DecodeError::InvalidTrapCode(code));
            };
            Ok(Opcode::TRAP { trap_code })
        }
    }
}

impl TryFrom<u16> for Opcode {
    type Error = DecodeError;

    fn try_from(instruction: u16) -> (r: Result<Opcode, DecodeError>) {
        Opcode::decode(instruction)
    }
}

impl vstd::std_specs::convert::TryFromSpecImpl<u16> for Opcode {
    open spec fn obeys_try_from_spec() -> bool {
        true
    }

    open spec fn try_from_spec(w: u16) -> Result<Opcode, DecodeError> {
        decode_spec(w)
    }
}

} // verus!
