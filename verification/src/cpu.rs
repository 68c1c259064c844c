//! Instruction-execution core of an 8-bit CPU modeled on the 6502:
//! a register/flag state machine driven by a fetch-decode-execute loop
//! over an immutable program byte sequence.

use vstd::prelude::*;

verus! {

/// Mask of the carry bit (bit 0) of the processor status register.
pub const CARRY_FLAG: u8 = 1 << 0;
/// Mask of the zero bit (bit 1): set when an operation's result byte is zero.
pub const ZERO_FLAG: u8 = 1 << 1;
/// Mask of the interrupt-disable bit (bit 2).
pub const INTERRUPT_DISABLE_FLAG: u8 = 1 << 2;
/// Mask of the decimal-mode bit (bit 3).
pub const DECIMAL_FLAG: u8 = 1 << 3;
/// Mask of the overflow bit (bit 6).
pub const OVERFLOW_FLAG: u8 = 1 << 6;
/// Mask of the negative bit (bit 7): set when bit 7 of an operation's
/// result byte is set.
pub const NEGATIVE_FLAG: u8 = 1 << 7;

/// The CPU's register and flag state. The program counter indexes the
/// program buffer handed to `run`; the stack pointer is reserved for
/// future stack instructions and untouched by the current instruction set.
#[derive(Clone, Copy, Debug, PartialEq, Eq, Structural)]
pub struct Cpu {
    pub program_counter: u16,
    pub stack_pointer: u8,
    pub accumulator: u8,
    pub register_x: u8,
    pub processor_status: u8,
}

/// A fatal condition that aborts a `run` call.
#[derive(Clone, Copy, Debug, PartialEq, Eq, Structural)]
pub enum RunError {
    /// The fetched byte matches no supported instruction. Carries the
    /// offending byte and the program-counter value at fetch time.
    UnimplementedOpcode { opcode: u8, program_counter: u16 },
    /// A fetch or operand read indexed past the end of the program buffer.
    /// Carries the out-of-range program-counter value.
    ProgramTruncated { program_counter: u16 },
}

/// The status register with the zero bit derived from a result byte:
/// set when the byte is zero, cleared otherwise, no other bit touched.
pub open spec fn status_with_zero_flag(status: u8, result: u8) -> u8 {
    if result == 0 {
        status | ZERO_FLAG
    } else {
        status & !ZERO_FLAG
    }
}

/// The status register with the negative bit derived from a result byte:
/// set when bit 7 of the byte is set, cleared otherwise, no other bit touched.
pub open spec fn status_with_negative_flag(status: u8, result: u8) -> u8 {
    if result & 0x80 == 0x80 {
        status | NEGATIVE_FLAG
    } else {
        status & !NEGATIVE_FLAG
    }
}

/// The combined flag update applied after every load, transfer and
/// increment: zero and negative bits derived from the result byte.
pub open spec fn status_with_result_flags(status: u8, result: u8) -> u8 {
    status_with_negative_flag(status_with_zero_flag(status, result), result)
}

/// Whether the zero bit of the status register is set.
pub open spec fn is_zero_set(status: u8) -> bool {
    status & ZERO_FLAG != 0
}

/// Whether the negative bit of the status register is set.
pub open spec fn is_negative_set(status: u8) -> bool {
    status & NEGATIVE_FLAG != 0
}

/// The effect of LDA immediate on the registers and flags: the operand
/// is loaded into the accumulator and the result flags are derived from it.
/// The program counter is handled by the execution loop.
pub open spec fn lda_effect(cpu: Cpu, value: u8) -> Cpu {
    Cpu {
        accumulator: value,
        processor_status: status_with_result_flags(cpu.processor_status, value),
        ..cpu
    }
}

/// The effect of TAX on the registers and flags: the accumulator is copied
/// into the X register and the result flags are derived from the copied value.
pub open spec fn tax_effect(cpu: Cpu) -> Cpu {
    Cpu {
        register_x: cpu.accumulator,
        processor_status: status_with_result_flags(cpu.processor_status, cpu.accumulator),
        ..cpu
    }
}

/// The effect of INX on the registers and flags: the X register is
/// incremented, wrapping from 0xFF back to 0x00, and the result flags
/// are derived from the incremented value.
pub open spec fn inx_effect(cpu: Cpu) -> Cpu {
    Cpu {
        register_x: ((cpu.register_x + 1) % 256) as u8,
        processor_status: status_with_result_flags(
            cpu.processor_status,
            ((cpu.register_x + 1) % 256) as u8,
        ),
        ..cpu
    }
}

/// The state a `run` call starts from: the prior program counter is
/// discarded and execution begins at the start of the program.
pub open spec fn reset(cpu: Cpu) -> Cpu {
    Cpu { program_counter: 0, ..cpu }
}

/// The execution relation: the state and outcome that the fetch-decode-execute
/// loop yields when driven from `cpu`'s current program counter over `program`.
/// BRK (0x00) is the only normal termination; an out-of-range fetch or operand
/// read, and a byte matching no supported instruction, are fatal conditions.
pub open spec fn run_from(cpu: Cpu, program: Seq<u8>) -> (Cpu, Result<(), RunError>)
    decreases program.len() - cpu.program_counter,
    when program.len() <= 0xFFFF
{
    if cpu.program_counter >= program.len() {
        (cpu, Err(RunError::ProgramTruncated { program_counter: cpu.program_counter }))
    } else {
        let opcode = program[cpu.program_counter as int];
        let fetched = Cpu { program_counter: (cpu.program_counter + 1) as u16, ..cpu };
        if opcode == 0x00 {
            (fetched, Ok(()))
        } else if opcode == 0xA9 {
            if fetched.program_counter >= program.len() {
                (
                    fetched,
                    Err(RunError::ProgramTruncated {
                        program_counter: fetched.program_counter,
                    }),
                )
            } else {
                let operand = program[fetched.program_counter as int];
                run_from(
                    Cpu {
                        program_counter: (fetched.program_counter + 1) as u16,
                        ..lda_effect(cpu, operand)
                    },
                    program,
                )
            }
        } else if opcode == 0xAA {
            run_from(Cpu { program_counter: fetched.program_counter, ..tax_effect(cpu) }, program)
        } else if opcode == 0xE8 {
            run_from(Cpu { program_counter: fetched.program_counter, ..inx_effect(cpu) }, program)
        } else {
            (
                fetched,
                Err(RunError::UnimplementedOpcode {
                    opcode,
                    program_counter: cpu.program_counter,
                }),
            )
        }
    }
}

/// Law: the combined flag update sets the zero bit exactly when the result
/// byte is zero, sets the negative bit exactly when bit 7 of the result byte
/// is set, and leaves every other bit of the status register unchanged; in
/// particular the unused bits 4 and 5 stay clear under all defined operations.
pub proof fn lemma_result_flags(status: u8, result: u8)
    ensures
        is_zero_set(status_with_result_flags(status, result)) <==> result == 0,
        is_negative_set(status_with_result_flags(status, result)) <==> result & 0x80 != 0,
        status_with_result_flags(status, result) & CARRY_FLAG == status & CARRY_FLAG,
        status_with_result_flags(status, result) & INTERRUPT_DISABLE_FLAG == status
            & INTERRUPT_DISABLE_FLAG,
        status_with_result_flags(status, result) & DECIMAL_FLAG == status & DECIMAL_FLAG,
        status_with_result_flags(status, result) & OVERFLOW_FLAG == status & OVERFLOW_FLAG,
        status & 0x30 == 0 ==> status_with_result_flags(status, result) & 0x30 == 0,
{
    assert(is_zero_set(status_with_result_flags(status, result)) <==> result == 0)
        by (bit_vector);
    assert(is_negative_set(status_with_result_flags(status, result)) <==> result & 0x80 != 0)
        by (bit_vector);
    assert(status_with_result_flags(status, result) & CARRY_FLAG == status & CARRY_FLAG)
        by (bit_vector);
    assert(status_with_result_flags(status, result) & INTERRUPT_DISABLE_FLAG == status
        & INTERRUPT_DISABLE_FLAG) by (bit_vector);
    assert(status_with_result_flags(status, result) & DECIMAL_FLAG == status & DECIMAL_FLAG)
        by (bit_vector);
    assert(status_with_result_flags(status, result) & OVERFLOW_FLAG == status & OVERFLOW_FLAG)
        by (bit_vector);
    assert(status & 0x30 == 0 ==> status_with_result_flags(status, result) & 0x30 == 0)
        by (bit_vector);
}

/// Law: for every operand value, LDA immediate loads it into the accumulator,
/// sets the zero flag exactly when it is zero and the negative flag exactly
/// when its bit 7 is set, and touches no other register.
pub proof fn lemma_lda_immediate(cpu: Cpu, value: u8)
    ensures
        lda_effect(cpu, value).accumulator == value,
        is_zero_set(lda_effect(cpu, value).processor_status) <==> value == 0,
        is_negative_set(lda_effect(cpu, value).processor_status) <==> value & 0x80 != 0,
        lda_effect(cpu, value).register_x == cpu.register_x,
        lda_effect(cpu, value).stack_pointer == cpu.stack_pointer,
        lda_effect(cpu, value).program_counter == cpu.program_counter,
{
    lemma_result_flags(cpu.processor_status, value);
}

/// Law: TAX copies the prior accumulator into the X register and updates the
/// zero and negative flags exactly as LDA's flag rule applied to that value.
pub proof fn lemma_tax_matches_lda_flag_rule(cpu: Cpu)
    ensures
        tax_effect(cpu).register_x == cpu.accumulator,
        tax_effect(cpu).accumulator == cpu.accumulator,
        tax_effect(cpu).processor_status == lda_effect(cpu, cpu.accumulator).processor_status,
{
}

/// Law: INX increments the X register modulo 256; the zero flag is set
/// exactly on the wrap from 0xFF to 0x00, and the negative flag exactly when
/// the incremented value has bit 7 set.
pub proof fn lemma_inx_wraps(cpu: Cpu)
    ensures
        inx_effect(cpu).register_x == (cpu.register_x + 1) % 256,
        is_zero_set(inx_effect(cpu).processor_status) <==> cpu.register_x == 0xFF,
        is_negative_set(inx_effect(cpu).processor_status) <==> (cpu.register_x + 1) % 256
            >= 0x80,
{
    let x = cpu.register_x;
    lemma_result_flags(cpu.processor_status, ((x + 1) % 256) as u8);
    assert(((x + 1) % 256) as u8 == 0 <==> x == 0xFF) by (bit_vector);
    assert((((x + 1) % 256) as u8) & 0x80 != 0 <==> ((x + 1) % 256) as u8 >= 0x80)
        by (bit_vector);
}

/// Law: a run is insensitive to the program counter an earlier run left
/// behind. Two states that agree on every field but the program counter are
/// reset to the same state, so they run any program identically.
pub proof fn lemma_restart_ignores_prior_counter(a: Cpu, b: Cpu, program: Seq<u8>)
    requires
        a.stack_pointer == b.stack_pointer,
        a.accumulator == b.accumulator,
        a.register_x == b.register_x,
        a.processor_status == b.processor_status,
    ensures
        run_from(reset(a), program) == run_from(reset(b), program),
{
    assert(reset(a) == reset(b));
}

impl Cpu {
    /// Constructs a CPU state with every register and flag zero.
    pub fn new() -> (cpu: Cpu)
        ensures
            cpu.program_counter == 0,
            cpu.stack_pointer == 0,
            cpu.accumulator == 0,
            cpu.register_x == 0,
            cpu.processor_status == 0,
    {
        Cpu {
            program_counter: 0,
            stack_pointer: 0,
            accumulator: 0,
            register_x: 0,
            processor_status: 0,
        }
    }

    /// Sets or clears the negative bit from a result byte; every other
    /// bit of the status register and every other field is untouched.
    pub fn update_negative_flag(&mut self, last_operation: u8)
        ensures
            *final(self) == (Cpu {
                processor_status: status_with_negative_flag(
                    old(self).processor_status,
                    last_operation,
                ),
                ..*old(self)
            }),
    {
        if last_operation & 0x80 == 0x80 {
            self.processor_status = self.processor_status | NEGATIVE_FLAG;
        } else {
            self.processor_status = self.processor_status & !NEGATIVE_FLAG;
        }
    }

    /// Sets or clears the zero bit from a result byte; every other
    /// bit of the status register and every other field is untouched.
    pub fn udpate_zero_flag(&mut self, last_operation: u8)
        ensures
            *final(self) == (Cpu {
                processor_status: status_with_zero_flag(
                    old(self).processor_status,
                    last_operation,
                ),
                ..*old(self)
            }),
    {
        if last_operation == 0 {
            self.processor_status = self.processor_status | ZERO_FLAG;
        } else {
            self.processor_status = self.processor_status & !ZERO_FLAG;
        }
    }

    /// The combined flag update of the two above, applied to one result byte.
    fn update_negative_and_zero_flags(&mut self, result: u8)
        ensures
            *final(self) == (Cpu {
                processor_status: status_with_result_flags(
                    old(self).processor_status,
                    result,
                ),
                ..*old(self)
            }),
    {
        self.udpate_zero_flag(result);
        self.update_negative_flag(result);
    }

    /// LDA immediate: loads the operand into the accumulator and updates
    /// the zero and negative flags from it.
    fn lda(&mut self, value: u8)
        ensures
            *final(self) == lda_effect(*old(self), value),
    {
        self.accumulator = value;
        self.update_negative_and_zero_flags(self.accumulator);
    }

    /// TAX: copies the accumulator into the X register and updates the
    /// zero and negative flags from the copied value.
    fn tax(&mut self)
        ensures
            *final(self) == tax_effect(*old(self)),
    {
        self.register_x = self.accumulator;
        self.update_negative_and_zero_flags(self.register_x);
    }

    /// INX: increments the X register, wrapping from 0xFF back to 0x00,
    /// and updates the zero and negative flags from the incremented value.
    fn inx(&mut self)
        ensures
            *final(self) == inx_effect(*old(self)),
    {
        self.register_x = self.register_x.wrapping_add(1);
        self.update_negative_and_zero_flags(self.register_x);
    }

    /// Drives the fetch-decode-execute loop over `program`, mutating the
    /// CPU state in place. The program counter is unconditionally reset to
    /// zero at entry: the core only ever runs a program from its start, so
    /// any externally pre-set starting address is discarded. Returns
    /// normally when BRK is fetched, or reports the fatal condition that
    /// aborted the loop. The program must be addressable by the 16-bit
    /// program counter, which advances past every byte it fetches.
    pub fn run(&mut self, program: Vec<u8>) -> (r: Result<(), RunError>)
        requires
            program@.len() <= 0xFFFF,
        ensures
            *final(self) == run_from(reset(*old(self)), program@).0,
            r == run_from(reset(*old(self)), program@).1,
    {
        self.program_counter = 0;
        loop
            invariant
                program@.len() <= 0xFFFF,
                self.program_counter <= program@.len(),
                run_from(*self, program@) == run_from(reset(*old(self)), program@),
            decreases program@.len() - self.program_counter,
        {
            let counter = self.program_counter as usize;
            if counter >= program.len() {
                return Err(RunError::ProgramTruncated { program_counter: self.program_counter });
            }
            let opcode = program[counter];
            let fetch_pc = self.program_counter;
            self.program_counter = fetch_pc + 1;

            match opcode {
                0xa9 => {
                    let operand_index = self.program_counter as usize;
                    if operand_index >= program.len() {
                        return Err(RunError::ProgramTruncated {
                            program_counter: self.program_counter,
                        });
                    }
                    let operand = program[operand_index];
                    self.program_counter = self.program_counter + 1;
                    self.lda(operand);
                }

                0xaa => self.tax(),

                0xe8 => self.inx(),

                0x00 => return Ok(()),

                _ => {
                    return Err(RunError::UnimplementedOpcode {
                        opcode,
                        program_counter: fetch_pc,
                    });
                }
            }
        }
    }
}

} // verus!
