//! The modelled CPU and the interpreter that applies instructions to it.

use crate::laws::{
    lemma_lanes_of_packed_sum, lemma_load_after_store, lemma_step_keeps_the_frame,
};
use crate::parser::{
    shape_of, Instruction, InstructionType, MemoryDumpFormat, MemoryDumpOptions, Register,
    RegisterDisplayOptions, Shape,
};
use crate::semantics::{
    carried_out, in_bounds, initial_state, lane, load, pack_flags,
    packed_sum, rotated_left, rotated_right, shift_count, sign_extend, step, store,
    wrapping_difference, wrapping_sum, CpuView, ExecuteError, Gprs,
};
use crate::text::{numeral, padded, push_numeral, push_padded_numeral};
use vstd::bytes::{spec_u64_to_le_bytes, u64_from_le_bytes, u64_to_le_bytes};
use vstd::prelude::*;
use vstd::slice::slice_subrange;
use vstd::string::StringExecFns;
use vstd::std_specs::bits::u64_trailing_zeros;

verus! {

/// Size of the linear memory in bytes.
pub const MEMORY_SIZE: usize = 1024 * 1024;

/// The architectural state: sixteen general-purpose registers, instruction
/// pointer, flags, segment selectors, a linear memory and sixteen XMM
/// registers.
#[derive(Debug)]
pub struct CPU {
    pub rax: u64,
    pub rbx: u64,
    pub rcx: u64,
    pub rdx: u64,
    pub rsi: u64,
    pub rdi: u64,
    pub rbp: u64,
    pub rsp: u64,
    pub r8: u64,
    pub r9: u64,
    pub r10: u64,
    pub r11: u64,
    pub r12: u64,
    pub r13: u64,
    pub r14: u64,
    pub r15: u64,
    pub rip: u64,
    pub rflags: u64,
    pub cs: u16,
    pub fs: u16,
    pub gs: u16,
    pub cf: bool,
    pub zf: bool,
    pub sf: bool,
    pub of: bool,
    pub memory: Vec<u8>,
    pub xmm: [u128; 16],
}

impl View for CPU {
    type V = CpuView;

    open spec fn view(&self) -> CpuView {
        CpuView {
            gprs: Gprs {
                rax: self.rax,
                rbx: self.rbx,
                rcx: self.rcx,
                rdx: self.rdx,
                rsi: self.rsi,
                rdi: self.rdi,
                rbp: self.rbp,
                rsp: self.rsp,
                r8: self.r8,
                r9: self.r9,
                r10: self.r10,
                r11: self.r11,
                r12: self.r12,
                r13: self.r13,
                r14: self.r14,
                r15: self.r15,
            },
            rip: self.rip,
            rflags: self.rflags,
            cs: self.cs,
            fs: self.fs,
            gs: self.gs,
            cf: self.cf,
            zf: self.zf,
            sf: self.sf,
            of: self.of,
            memory: self.memory@,
            xmm: self.xmm@,
        }
    }
}

/// How a register is shown: its name, then either ` = ` and the value in
/// decimal, or `: 0x` and the value as sixteen hexadecimal digits.
pub open spec fn register_text(
    register: Register,
    value: u64,
    options: RegisterDisplayOptions,
) -> Seq<char> {
    if options.human_readable {
        register.name() + " = "@ + numeral(value as nat, 10)
    } else {
        register.name() + ": 0x"@ + padded(numeral(value as nat, 16), 16, '0')
    }
}

/// One byte of a dump, followed by a blank: two hexadecimal digits, or the
/// decimal number right-aligned in three columns, or `??` where `index`
/// lies outside the memory.
pub open spec fn dump_cell(memory: Seq<u8>, index: int, format: MemoryDumpFormat) -> Seq<char> {
    if 0 <= index < memory.len() {
        match format {
            MemoryDumpFormat::Hex => padded(numeral(memory[index] as nat, 16), 2, '0') + " "@,
            MemoryDumpFormat::Decimal => padded(numeral(memory[index] as nat, 10), 3, ' ') + " "@,
        }
    } else {
        "?? "@
    }
}

/// The first `count` bytes of a row that begins at index `first`.
pub open spec fn dump_cells(
    memory: Seq<u8>,
    first: int,
    format: MemoryDumpFormat,
    count: nat,
) -> Seq<char>
    decreases count,
{
    if count == 0 {
        Seq::empty()
    } else {
        dump_cells(memory, first, format, (count - 1) as nat) + dump_cell(
            memory,
            first + count - 1,
            format,
        )
    }
}

/// Row number `row` of a dump: the row's address in at least eight
/// hexadecimal digits, sixteen bytes, and a line feed. The address shown
/// wraps at 2^64; the bytes beyond the memory do not wrap.
pub open spec fn dump_row(memory: Seq<u8>, options: MemoryDumpOptions, row: nat) -> Seq<char> {
    "0x"@ + padded(
        numeral(wrapping_sum(options.address, (row * 16) as u64) as nat, 16),
        8,
        '0',
    ) + ":  "@ + dump_cells(memory, options.address + row * 16, options.format, 16) + "\n"@
}

/// The first `count` rows of a dump.
pub open spec fn dump_rows(memory: Seq<u8>, options: MemoryDumpOptions, count: nat) -> Seq<char>
    decreases count,
{
    if count == 0 {
        Seq::empty()
    } else {
        dump_rows(memory, options, (count - 1) as nat) + dump_row(
            memory,
            options,
            (count - 1) as nat,
        )
    }
}

/// A memory dump: a heading with the address, then one row for every full
/// sixteen bytes of the size asked for.
pub open spec fn dump_text(memory: Seq<u8>, options: MemoryDumpOptions) -> Seq<char> {
    "Memory Dump at 0x"@ + numeral(options.address as nat, 16) + ":\n"@ + dump_rows(
        memory,
        options,
        (options.size / 16) as nat,
    )
}

impl CPU {
    /// A CPU in its initial state, with a zeroed memory of [`MEMORY_SIZE`]
    /// bytes.
    pub fn new() -> (cpu: CPU)
        ensures
            cpu@ == initial_state(MEMORY_SIZE as nat),
    {
        let cpu = CPU {
            rax: 0,
            rbx: 0,
            rcx: 0,
            rdx: 0,
            rsi: 0,
            rdi: 0,
            rbp: 0,
            rsp: 1024 * 1024 - 8,
            r8: 0,
            r9: 0,
            r10: 0,
            r11: 0,
            r12: 0,
            r13: 0,
            r14: 0,
            r15: 0,
            rip: 0,
            rflags: 0x0002,
            cs: 0,
            fs: 0,
            gs: 0,
            cf: false,
            zf: false,
            sf: false,
            of: false,
            memory: vec![0u8; MEMORY_SIZE],
            xmm: [0u128; 16],
        };
        proof {
            assert(cpu.memory@ =~= Seq::new(MEMORY_SIZE as nat, |i: int| 0u8));
            assert(cpu.xmm@ =~= Seq::new(16, |i: int| 0u128));
        }
        cpu
    }

    /// The slot of a general-purpose register, for reading.
    pub fn index(&self, register: &Register) -> (slot: &u64)
        ensures
            *slot == self@.gpr(*register),
    {
        match register {
            Register::Rax => &self.rax,
            Register::Rbx => &self.rbx,
            Register::Rcx => &self.rcx,
            Register::Rdx => &self.rdx,
            Register::Rsi => &self.rsi,
            Register::Rdi => &self.rdi,
            Register::Rbp => &self.rbp,
            Register::Rsp => &self.rsp,
            Register::R8 => &self.r8,
            Register::R9 => &self.r9,
            Register::R10 => &self.r10,
            Register::R11 => &self.r11,
            Register::R12 => &self.r12,
            Register::R13 => &self.r13,
            Register::R14 => &self.r14,
            Register::R15 => &self.r15,
        }
    }

    /// The slot of a general-purpose register, for writing. Nothing but that
    /// register changes through it.
    pub fn index_mut(&mut self, register: &Register) -> (slot: &mut u64)
        ensures
            *slot == old(self)@.gpr(*register),
            final(self)@ == old(self)@.with_gpr(*register, *final(slot)),
    {
        match register {
            Register::Rax => &mut self.rax,
            Register::Rbx => &mut self.rbx,
            Register::Rcx => &mut self.rcx,
            Register::Rdx => &mut self.rdx,
            Register::Rsi => &mut self.rsi,
            Register::Rdi => &mut self.rdi,
            Register::Rbp => &mut self.rbp,
            Register::Rsp => &mut self.rsp,
            Register::R8 => &mut self.r8,
            Register::R9 => &mut self.r9,
            Register::R10 => &mut self.r10,
            Register::R11 => &mut self.r11,
            Register::R12 => &mut self.r12,
            Register::R13 => &mut self.r13,
            Register::R14 => &mut self.r14,
            Register::R15 => &mut self.r15,
        }
    }

    /// The value of a general-purpose register.
    pub fn get_register_value(&self, register: &Register) -> (value: u64)
        ensures
            value == self@.gpr(*register),
    {
        *self.index(register)
    }

    /// The text that shows one register.
    pub fn format_register_value(
        &self,
        register: &Register,
        options: &RegisterDisplayOptions,
    ) -> (text: String)
        ensures
            text@ == register_text(*register, self@.gpr(*register), *options),
    {
        let value: u64 = self.get_register_value(register);
        let mut text = String::from_str(register.label());
        if options.human_readable {
            text.append(" = ");
            push_numeral(&mut text, value, 10);
        } else {
            text.append(": 0x");
            proof {
                reveal_strlit("0");
            }
            push_padded_numeral(&mut text, value, 16, 16, "0");
        }
        text
    }

    /// One byte of a dump.
    fn dump_cell_text(&self, index: u128, format: &MemoryDumpFormat) -> (text: String)
        ensures
            text@ == dump_cell(self@.memory, index as int, *format),
    {
        let len: usize = self.memory.len();
        if index < len as u128 {
            let byte: u8 = self.memory[index as usize];
            let mut text = String::new();
            proof {
                reveal_strlit("0");
                reveal_strlit(" ");
            }
            match format {
                MemoryDumpFormat::Hex => push_padded_numeral(&mut text, byte as u64, 16, 2, "0"),
                MemoryDumpFormat::Decimal => push_padded_numeral(
                    &mut text,
                    byte as u64,
                    10,
                    3,
                    " ",
                ),
            }
            text.append(" ");
            proof {
                assert(text@ =~= dump_cell(self@.memory, index as int, *format));
            }
            text
        } else {
            String::from_str("?? ")
        }
    }

    /// One row of a dump.
    fn dump_row_text(&self, options: &MemoryDumpOptions, row: usize) -> (text: String)
        requires
            row < options.size / 16,
        ensures
            text@ == dump_row(self@.memory, *options, row as nat),
    {
        let mut text = String::from_str("0x");
        proof {
            reveal_strlit("0");
        }
        let offset: u64 = (row * 16) as u64;
        push_padded_numeral(&mut text, options.address.wrapping_add(offset), 16, 8, "0");
        text.append(":  ");
        let first: u128 = options.address as u128 + (row as u128) * 16;
        let ghost start = text@;
        let mut j: usize = 0;
        while j < 16
            invariant
                j <= 16,
                first == options.address + row * 16,
                text@ == start + dump_cells(self@.memory, first as int, options.format, j as nat),
            decreases 16 - j,
        {
            let cell = self.dump_cell_text(first + j as u128, &options.format);
            text.append(cell.as_str());
            j = j + 1;
            proof {
                assert(text@ =~= start + dump_cells(
                    self@.memory,
                    first as int,
                    options.format,
                    j as nat,
                ));
            }
        }
        text.append("\n");
        proof {
            assert(start + Seq::<char>::empty() =~= start);
            assert(text@ =~= dump_row(self@.memory, *options, row as nat));
        }
        text
    }

    /// The text of a memory dump.
    pub fn dump_memory(&self, options: &MemoryDumpOptions) -> (text: String)
        ensures
            text@ == dump_text(self@.memory, *options),
    {
        let mut text = String::from_str("Memory Dump at 0x");
        push_numeral(&mut text, options.address, 16);
        text.append(":\n");
        let ghost start = text@;
        let rows: usize = options.size / 16;
        let mut i: usize = 0;
        while i < rows
            invariant
                i <= rows,
                rows == options.size / 16,
                text@ == start + dump_rows(self@.memory, *options, i as nat),
            decreases rows - i,
        {
            let row = self.dump_row_text(options, i);
            text.append(row.as_str());
            i = i + 1;
            proof {
                assert(text@ =~= start + dump_rows(self@.memory, *options, i as nat));
            }
        }
        proof {
            assert(start + Seq::<char>::empty() =~= start);
            assert(text@ =~= dump_text(self@.memory, *options));
        }
        text
    }

    /// The flags register that the four flags stand for.
    pub fn packed_flags(&self) -> (word: u64)
        ensures
            word == pack_flags(self.cf, self.zf, self.sf, self.of),
    {
        let mut word: u64 = 0;
        if self.cf {
            word = word + 0x1;
        }
        if self.zf {
            word = word + 0x40;
        }
        if self.sf {
            word = word + 0x80;
        }
        if self.of {
            word = word + 0x800;
        }
        word
    }

    /// The shared flag update after an operation that produced `result`.
    pub fn update_flags(&mut self, result: u64, overflow: bool)
        ensures
            final(self)@ == old(self)@.with_flags(result, overflow),
    {
        self.zf = result == 0;
        self.sf = result >= 0x8000_0000_0000_0000;
        self.cf = result < self.rax;
        self.of = overflow;
        self.rflags = self.packed_flags();
    }

    /// Whether the eight bytes at `address` lie inside the memory.
    pub fn in_memory(&self, address: u64) -> (inside: bool)
        ensures
            inside == in_bounds(self@.memory, address),
    {
        let len: usize = self.memory.len();
        len >= 8 && address <= (len - 8) as u64
    }

    /// Reads eight bytes at `address`, little-endian.
    pub fn read_memory(&self, address: u64) -> (value: u64)
        requires
            in_bounds(self@.memory, address),
        ensures
            value == load(self@.memory, address),
    {
        let len: usize = self.memory.len();
        let base: usize = address as usize;
        u64_from_le_bytes(slice_subrange(self.memory.as_slice(), base, base + 8))
    }

    /// Writes `value` as eight bytes at `address`, little-endian. Nothing
    /// but those bytes changes.
    pub fn write_memory(&mut self, address: u64, value: u64)
        requires
            in_bounds(old(self)@.memory, address),
        ensures
            final(self)@ == (CpuView {
                memory: store(old(self)@.memory, address, value),
                ..old(self)@
            }),
            load(final(self)@.memory, address) == value,
            final(self)@.memory.len() == old(self)@.memory.len(),
    {
        let len: usize = self.memory.len();
        let base: usize = address as usize;
        let bytes = u64_to_le_bytes(value);
        proof {
            vstd::bytes::lemma_auto_spec_u64_to_from_le_bytes();
        }
        let mut k: usize = 0;
        while k < 8
            invariant
                k <= 8,
                bytes@ == spec_u64_to_le_bytes(value),
                bytes@.len() == 8,
                base == address,
                base + 8 <= len,
                len == self.memory@.len(),
                self.memory@.len() == old(self).memory@.len(),
                self@ == (CpuView { memory: self.memory@, ..old(self)@ }),
                self.memory@ =~= old(self).memory@.subrange(0, base as int) + bytes@.subrange(
                    0,
                    k as int,
                ) + old(self).memory@.subrange(base + k, old(self).memory@.len() as int),
            decreases 8 - k,
        {
            self.memory.set(base + k, bytes[k]);
            k = k + 1;
        }
        proof {
            assert(bytes@.subrange(0, 8) =~= bytes@);
            lemma_load_after_store(old(self)@.memory, address, value);
        }
    }

    /// The value that the second operand of a two-operand form supplies.
    fn source_value(&self, shape: Shape) -> (value: u64)
        ensures
            value == self@.source(shape),
    {
        match shape {
            Shape::RegReg(_, s) => self.get_register_value(&s),
            Shape::RegImm(_, v) => extend(v),
            _ => 0,
        }
    }

    /// Carries out one instruction and advances the instruction pointer by
    /// one. The operands are checked against the mnemonic before anything is
    /// changed, then the stack bounds where the stack is used: on an error
    /// the state is exactly as it was.
    pub fn execute(&mut self, instruction: &Instruction) -> (r: Result<(), ExecuteError>)
        ensures
            match step(old(self)@, instruction@) {
                Ok(next) => r is Ok && final(self)@ == next,
                Err(e) => r == Err::<(), ExecuteError>(e) && final(self)@ == old(self)@,
            },
            final(self)@.memory.len() == old(self)@.memory.len(),
            r is Ok && instruction.instruction_type == InstructionType::Push ==> load(
                final(self)@.memory,
                final(self)@.gprs.rsp,
            ) == final(self)@.gpr(shape_of(instruction@)->Some_0.dest()),
            r is Ok && instruction.instruction_type == InstructionType::Call ==> load(
                final(self)@.memory,
                final(self)@.gprs.rsp,
            ) == wrapping_sum(old(self)@.rip, 1),
    {
        proof {
            if step(old(self)@, instruction@) is Ok {
                lemma_step_keeps_the_frame(old(self)@, instruction@);
            }
        }
        let done = match instruction.instruction_type {
            InstructionType::Mov => self.execute_mov(instruction),
            InstructionType::Add => self.execute_add(instruction),
            InstructionType::Sub => self.execute_sub(instruction),
            InstructionType::And => self.execute_and(instruction),
            InstructionType::Or => self.execute_or(instruction),
            InstructionType::Xor => self.execute_xor(instruction),
            InstructionType::Inc => self.execute_inc(instruction),
            InstructionType::Dec => self.execute_dec(instruction),
            InstructionType::Neg => self.execute_neg(instruction),
            InstructionType::Not => self.execute_not(instruction),
            InstructionType::Shl => self.execute_shl(instruction),
            InstructionType::Shr => self.execute_shr(instruction),
            InstructionType::Rol => self.execute_rol(instruction),
            InstructionType::Ror => self.execute_ror(instruction),
            InstructionType::Push => self.execute_push(instruction),
            InstructionType::Pop => self.execute_pop(instruction),
            InstructionType::Cmp => self.execute_cmp(instruction),
            InstructionType::Test => self.execute_test(instruction),
            InstructionType::Jmp => self.execute_jmp(instruction),
            InstructionType::Je => self.execute_je(instruction),
            InstructionType::Jne => self.execute_jne(instruction),
            InstructionType::Jg => self.execute_jg(instruction),
            InstructionType::Jge => self.execute_jge(instruction),
            InstructionType::Jl => self.execute_jl(instruction),
            InstructionType::Jle => self.execute_jle(instruction),
            InstructionType::Call => self.execute_call(instruction),
            InstructionType::Ret => self.execute_ret(instruction),
            InstructionType::Paddd => self.execute_paddd(instruction),
            InstructionType::Bsf => self.execute_bsf(instruction),
            InstructionType::Cmovne => self.execute_cmovne(instruction),
        };
        match done {
            Ok(()) => {
                self.rip = self.rip.wrapping_add(1);
                Ok(())
            },
            Err(e) => Err(e),
        }
    }

    /// `MOV dest, src`: copies the source into the destination. No flag
    /// changes.
    pub fn execute_mov(&mut self, instruction: &Instruction) -> (r: Result<(), ExecuteError>)
        requires
            instruction.instruction_type == InstructionType::Mov,
        ensures
            carried_out(old(self)@, final(self)@, instruction@, r),
    {
        match instruction.shape() {
            None => Err(ExecuteError::InvalidOperands),
            Some(shape) => {
                let dest = shape.destination();
                let value: u64 = self.source_value(shape);
                *self.index_mut(&dest) = value;
                Ok(())
            },
        }
    }

    /// `ADD dest, src`: wrapping sum; OF reports the unsigned carry.
    pub fn execute_add(&mut self, instruction: &Instruction) -> (r: Result<(), ExecuteError>)
        requires
            instruction.instruction_type == InstructionType::Add,
        ensures
            carried_out(old(self)@, final(self)@, instruction@, r),
    {
        match instruction.shape() {
            None => Err(ExecuteError::InvalidOperands),
            Some(shape) => {
                let dest = shape.destination();
                let a: u64 = self.get_register_value(&dest);
                let b: u64 = self.source_value(shape);
                let result: u64 = a.wrapping_add(b);
                let overflow: bool = a > u64::MAX - b;
                *self.index_mut(&dest) = result;
                self.update_flags(result, overflow);
                Ok(())
            },
        }
    }

    /// `SUB dest, src`: wrapping difference; OF reports the unsigned borrow.
    pub fn execute_sub(&mut self, instruction: &Instruction) -> (r: Result<(), ExecuteError>)
        requires
            instruction.instruction_type == InstructionType::Sub,
        ensures
            carried_out(old(self)@, final(self)@, instruction@, r),
    {
        match instruction.shape() {
            None => Err(ExecuteError::InvalidOperands),
            Some(shape) => {
                let dest = shape.destination();
                let a: u64 = self.get_register_value(&dest);
                let b: u64 = self.source_value(shape);
                let result: u64 = a.wrapping_sub(b);
                let overflow: bool = a < b;
                *self.index_mut(&dest) = result;
                self.update_flags(result, overflow);
                Ok(())
            },
        }
    }

    /// `AND dest, src`: bitwise and; OF is cleared.
    pub fn execute_and(&mut self, instruction: &Instruction) -> (r: Result<(), ExecuteError>)
        requires
            instruction.instruction_type == InstructionType::And,
        ensures
            carried_out(old(self)@, final(self)@, instruction@, r),
    {
        match instruction.shape() {
            None => Err(ExecuteError::InvalidOperands),
            Some(shape) => {
                let dest = shape.destination();
                let a: u64 = self.get_register_value(&dest);
                let b: u64 = self.source_value(shape);
                let result: u64 = a & b;
                let overflow: bool = false;
                *self.index_mut(&dest) = result;
                self.update_flags(result, overflow);
                Ok(())
            },
        }
    }

    /// `OR dest, src`: bitwise or; OF is cleared.
    pub fn execute_or(&mut self, instruction: &Instruction) -> (r: Result<(), ExecuteError>)
        requires
            instruction.instruction_type == InstructionType::Or,
        ensures
            carried_out(old(self)@, final(self)@, instruction@, r),
    {
        match instruction.shape() {
            None => Err(ExecuteError::InvalidOperands),
            Some(shape) => {
                let dest = shape.destination();
                let a: u64 = self.get_register_value(&dest);
                let b: u64 = self.source_value(shape);
                let result: u64 = a | b;
                let overflow: bool = false;
                *self.index_mut(&dest) = result;
                self.update_flags(result, overflow);
                Ok(())
            },
        }
    }

    /// `XOR dest, src`: bitwise exclusive or; OF is cleared.
    pub fn execute_xor(&mut self, instruction: &Instruction) -> (r: Result<(), ExecuteError>)
        requires
            instruction.instruction_type == InstructionType::Xor,
        ensures
            carried_out(old(self)@, final(self)@, instruction@, r),
    {
        match instruction.shape() {
            None => Err(ExecuteError::InvalidOperands),
            Some(shape) => {
                let dest = shape.destination();
                let a: u64 = self.get_register_value(&dest);
                let b: u64 = self.source_value(shape);
                let result: u64 = a ^ b;
                let overflow: bool = false;
                *self.index_mut(&dest) = result;
                self.update_flags(result, overflow);
                Ok(())
            },
        }
    }

    /// `INC reg`: as `ADD reg, 1`.
    pub fn execute_inc(&mut self, instruction: &Instruction) -> (r: Result<(), ExecuteError>)
        requires
            instruction.instruction_type == InstructionType::Inc,
        ensures
            carried_out(old(self)@, final(self)@, instruction@, r),
    {
        match instruction.shape() {
            None => Err(ExecuteError::InvalidOperands),
            Some(shape) => {
                let dest = shape.destination();
                let a: u64 = self.get_register_value(&dest);
                let result: u64 = a.wrapping_add(1);
                let overflow: bool = a == u64::MAX;
                *self.index_mut(&dest) = result;
                self.update_flags(result, overflow);
                Ok(())
            },
        }
    }

    /// `DEC reg`: as `SUB reg, 1`.
    pub fn execute_dec(&mut self, instruction: &Instruction) -> (r: Result<(), ExecuteError>)
        requires
            instruction.instruction_type == InstructionType::Dec,
        ensures
            carried_out(old(self)@, final(self)@, instruction@, r),
    {
        match instruction.shape() {
            None => Err(ExecuteError::InvalidOperands),
            Some(shape) => {
                let dest = shape.destination();
                let a: u64 = self.get_register_value(&dest);
                let result: u64 = a.wrapping_sub(1);
                let overflow: bool = a == 0;
                *self.index_mut(&dest) = result;
                self.update_flags(result, overflow);
                Ok(())
            },
        }
    }

    /// `NEG reg`: two's complement, `0 - reg`.
    pub fn execute_neg(&mut self, instruction: &Instruction) -> (r: Result<(), ExecuteError>)
        requires
            instruction.instruction_type == InstructionType::Neg,
        ensures
            carried_out(old(self)@, final(self)@, instruction@, r),
    {
        match instruction.shape() {
            None => Err(ExecuteError::InvalidOperands),
            Some(shape) => {
                let dest = shape.destination();
                let a: u64 = self.get_register_value(&dest);
                let result: u64 = 0u64.wrapping_sub(a);
                let overflow: bool = a != 0;
                *self.index_mut(&dest) = result;
                self.update_flags(result, overflow);
                Ok(())
            },
        }
    }

    /// `NOT reg`: bitwise complement; the flags follow the result.
    pub fn execute_not(&mut self, instruction: &Instruction) -> (r: Result<(), ExecuteError>)
        requires
            instruction.instruction_type == InstructionType::Not,
        ensures
            carried_out(old(self)@, final(self)@, instruction@, r),
    {
        match instruction.shape() {
            None => Err(ExecuteError::InvalidOperands),
            Some(shape) => {
                let dest = shape.destination();
                let a: u64 = self.get_register_value(&dest);
                let result: u64 = !a;
                let overflow: bool = false;
                *self.index_mut(&dest) = result;
                self.update_flags(result, overflow);
                Ok(())
            },
        }
    }

    /// `SHL reg, count`: logical left shift by the low six bits of the count.
    pub fn execute_shl(&mut self, instruction: &Instruction) -> (r: Result<(), ExecuteError>)
        requires
            instruction.instruction_type == InstructionType::Shl,
        ensures
            carried_out(old(self)@, final(self)@, instruction@, r),
    {
        match instruction.shape() {
            None => Err(ExecuteError::InvalidOperands),
            Some(shape) => {
                let dest = shape.destination();
                let a: u64 = self.get_register_value(&dest);
                let count: u64 = shift_amount(shape.constant());
                let result: u64 = a << count;
                let overflow: bool = false;
                *self.index_mut(&dest) = result;
                self.update_flags(result, overflow);
                Ok(())
            },
        }
    }

    /// `SHR reg, count`: logical right shift by the low six bits of the count.
    pub fn execute_shr(&mut self, instruction: &Instruction) -> (r: Result<(), ExecuteError>)
        requires
            instruction.instruction_type == InstructionType::Shr,
        ensures
            carried_out(old(self)@, final(self)@, instruction@, r),
    {
        match instruction.shape() {
            None => Err(ExecuteError::InvalidOperands),
            Some(shape) => {
                let dest = shape.destination();
                let a: u64 = self.get_register_value(&dest);
                let count: u64 = shift_amount(shape.constant());
                let result: u64 = a >> count;
                let overflow: bool = false;
                *self.index_mut(&dest) = result;
                self.update_flags(result, overflow);
                Ok(())
            },
        }
    }

    /// `ROL reg, count`: rotate left by the low six bits of the count.
    pub fn execute_rol(&mut self, instruction: &Instruction) -> (r: Result<(), ExecuteError>)
        requires
            instruction.instruction_type == InstructionType::Rol,
        ensures
            carried_out(old(self)@, final(self)@, instruction@, r),
    {
        match instruction.shape() {
            None => Err(ExecuteError::InvalidOperands),
            Some(shape) => {
                let dest = shape.destination();
                let a: u64 = self.get_register_value(&dest);
                let count: u64 = shift_amount(shape.constant());
                let result: u64 = rotate_left(a, count);
                let overflow: bool = false;
                *self.index_mut(&dest) = result;
                self.update_flags(result, overflow);
                Ok(())
            },
        }
    }

    /// `ROR reg, count`: rotate right by the low six bits of the count.
    pub fn execute_ror(&mut self, instruction: &Instruction) -> (r: Result<(), ExecuteError>)
        requires
            instruction.instruction_type == InstructionType::Ror,
        ensures
            carried_out(old(self)@, final(self)@, instruction@, r),
    {
        match instruction.shape() {
            None => Err(ExecuteError::InvalidOperands),
            Some(shape) => {
                let dest = shape.destination();
                let a: u64 = self.get_register_value(&dest);
                let count: u64 = shift_amount(shape.constant());
                let result: u64 = rotate_right(a, count);
                let overflow: bool = false;
                *self.index_mut(&dest) = result;
                self.update_flags(result, overflow);
                Ok(())
            },
        }
    }

    /// `PUSH reg`: lowers the stack pointer by eight, then writes the
    /// register there.
    pub fn execute_push(&mut self, instruction: &Instruction) -> (r: Result<(), ExecuteError>)
        requires
            instruction.instruction_type == InstructionType::Push,
        ensures
            carried_out(old(self)@, final(self)@, instruction@, r),
            final(self)@.memory.len() == old(self)@.memory.len(),
            r is Ok ==> final(self)@.gprs.rsp == wrapping_difference(old(self)@.gprs.rsp, 8)
                && load(final(self)@.memory, final(self)@.gprs.rsp) == final(self)@.gpr(
                shape_of(instruction@)->Some_0.dest(),
            ),
    {
        match instruction.shape() {
            None => Err(ExecuteError::InvalidOperands),
            Some(shape) => {
                let reg = shape.destination();
                let top: u64 = self.rsp.wrapping_sub(8);
                if !self.in_memory(top) {
                    return Err(ExecuteError::MemoryOutOfBounds);
                }
                self.rsp = top;
                let value: u64 = self.get_register_value(&reg);
                self.write_memory(top, value);
                Ok(())
            },
        }
    }

    /// `POP reg`: reads the register from the top of the stack, then raises
    /// the stack pointer by eight.
    pub fn execute_pop(&mut self, instruction: &Instruction) -> (r: Result<(), ExecuteError>)
        requires
            instruction.instruction_type == InstructionType::Pop,
        ensures
            carried_out(old(self)@, final(self)@, instruction@, r),
            r is Ok ==> final(self)@.memory == old(self)@.memory,
            r is Ok && shape_of(instruction@)->Some_0.dest() != Register::Rsp ==> ({
                &&& final(self)@.gprs.rsp == wrapping_sum(old(self)@.gprs.rsp, 8)
                &&& final(self)@.gpr(shape_of(instruction@)->Some_0.dest()) == load(
                    old(self)@.memory,
                    old(self)@.gprs.rsp,
                )
            }),
    {
        match instruction.shape() {
            None => Err(ExecuteError::InvalidOperands),
            Some(shape) => {
                let reg = shape.destination();
                if !self.in_memory(self.rsp) {
                    return Err(ExecuteError::MemoryOutOfBounds);
                }
                let value: u64 = self.read_memory(self.rsp);
                *self.index_mut(&reg) = value;
                self.rsp = self.rsp.wrapping_add(8);
                Ok(())
            },
        }
    }

    /// `CMP a, b`: the flags of `a - b`; no register changes.
    pub fn execute_cmp(&mut self, instruction: &Instruction) -> (r: Result<(), ExecuteError>)
        requires
            instruction.instruction_type == InstructionType::Cmp,
        ensures
            carried_out(old(self)@, final(self)@, instruction@, r),
    {
        match instruction.shape() {
            None => Err(ExecuteError::InvalidOperands),
            Some(shape) => {
                let dest = shape.destination();
                let a: u64 = self.get_register_value(&dest);
                let b: u64 = self.source_value(shape);
                let result: u64 = a.wrapping_sub(b);
                let overflow: bool = a < b;
                self.update_flags(result, overflow);
                Ok(())
            },
        }
    }

    /// `TEST a, b`: the flags of `a AND b`; no register changes.
    pub fn execute_test(&mut self, instruction: &Instruction) -> (r: Result<(), ExecuteError>)
        requires
            instruction.instruction_type == InstructionType::Test,
        ensures
            carried_out(old(self)@, final(self)@, instruction@, r),
    {
        match instruction.shape() {
            None => Err(ExecuteError::InvalidOperands),
            Some(shape) => {
                let dest = shape.destination();
                let a: u64 = self.get_register_value(&dest);
                let b: u64 = self.source_value(shape);
                let result: u64 = a & b;
                let overflow: bool = false;
                self.update_flags(result, overflow);
                Ok(())
            },
        }
    }

    /// Sets the instruction pointer one below the target of a branch or
    /// call, so that the increment that ends the step lands on the target.
    pub fn execute_jmp(&mut self, instruction: &Instruction) -> (r: Result<(), ExecuteError>)
        requires
            instruction.instruction_type.takes_target(),
        ensures
            match shape_of(instruction@) {
                None => final(self)@ == old(self)@ && r == Err::<(), ExecuteError>(
                    ExecuteError::InvalidOperands,
                ),
                Some(shape) => r is Ok && final(self)@ == old(self)@.jumped(shape.immediate()),
            },
    {
        match instruction.shape() {
            None => Err(ExecuteError::InvalidOperands),
            Some(shape) => {
                self.rip = extend(shape.constant()).wrapping_sub(1);
                Ok(())
            },
        }
    }

    /// `JE target`: branches when ZF is set.
    pub fn execute_je(&mut self, instruction: &Instruction) -> (r: Result<(), ExecuteError>)
        requires
            instruction.instruction_type == InstructionType::Je,
        ensures
            carried_out(old(self)@, final(self)@, instruction@, r),
            shape_of(instruction@) matches Some(Shape::Imm(target)) ==> r is Ok && final(self)@
                == (if old(self).zf {
                old(self)@.jumped(target)
            } else {
                old(self)@
            }),
    {
        match instruction.shape() {
            None => Err(ExecuteError::InvalidOperands),
            Some(_) => {
                if self.zf {
                    self.execute_jmp(instruction)
                } else {
                    Ok(())
                }
            },
        }
    }

    /// `JNE target`: branches when ZF is clear.
    pub fn execute_jne(&mut self, instruction: &Instruction) -> (r: Result<(), ExecuteError>)
        requires
            instruction.instruction_type == InstructionType::Jne,
        ensures
            carried_out(old(self)@, final(self)@, instruction@, r),
            shape_of(instruction@) matches Some(Shape::Imm(target)) ==> r is Ok && final(self)@
                == (if !old(self).zf {
                old(self)@.jumped(target)
            } else {
                old(self)@
            }),
    {
        match instruction.shape() {
            None => Err(ExecuteError::InvalidOperands),
            Some(_) => {
                if !self.zf {
                    self.execute_jmp(instruction)
                } else {
                    Ok(())
                }
            },
        }
    }

    /// `JG target`: branches when ZF is clear and SF equals OF.
    pub fn execute_jg(&mut self, instruction: &Instruction) -> (r: Result<(), ExecuteError>)
        requires
            instruction.instruction_type == InstructionType::Jg,
        ensures
            carried_out(old(self)@, final(self)@, instruction@, r),
            shape_of(instruction@) matches Some(Shape::Imm(target)) ==> r is Ok && final(self)@
                == (if !old(self).zf && old(self).sf == old(self).of {
                old(self)@.jumped(target)
            } else {
                old(self)@
            }),
    {
        match instruction.shape() {
            None => Err(ExecuteError::InvalidOperands),
            Some(_) => {
                if !self.zf && self.sf == self.of {
                    self.execute_jmp(instruction)
                } else {
                    Ok(())
                }
            },
        }
    }

    /// `JGE target`: branches when SF equals OF.
    pub fn execute_jge(&mut self, instruction: &Instruction) -> (r: Result<(), ExecuteError>)
        requires
            instruction.instruction_type == InstructionType::Jge,
        ensures
            carried_out(old(self)@, final(self)@, instruction@, r),
            shape_of(instruction@) matches Some(Shape::Imm(target)) ==> r is Ok && final(self)@
                == (if old(self).sf == old(self).of {
                old(self)@.jumped(target)
            } else {
                old(self)@
            }),
    {
        match instruction.shape() {
            None => Err(ExecuteError::InvalidOperands),
            Some(_) => {
                if self.sf == self.of {
                    self.execute_jmp(instruction)
                } else {
                    Ok(())
                }
            },
        }
    }

    /// `JL target`: branches when SF differs from OF.
    pub fn execute_jl(&mut self, instruction: &Instruction) -> (r: Result<(), ExecuteError>)
        requires
            instruction.instruction_type == InstructionType::Jl,
        ensures
            carried_out(old(self)@, final(self)@, instruction@, r),
            shape_of(instruction@) matches Some(Shape::Imm(target)) ==> r is Ok && final(self)@
                == (if old(self).sf != old(self).of {
                old(self)@.jumped(target)
            } else {
                old(self)@
            }),
    {
        match instruction.shape() {
            None => Err(ExecuteError::InvalidOperands),
            Some(_) => {
                if self.sf != self.of {
                    self.execute_jmp(instruction)
                } else {
                    Ok(())
                }
            },
        }
    }

    /// `JLE target`: branches when ZF is set or SF differs from OF.
    pub fn execute_jle(&mut self, instruction: &Instruction) -> (r: Result<(), ExecuteError>)
        requires
            instruction.instruction_type == InstructionType::Jle,
        ensures
            carried_out(old(self)@, final(self)@, instruction@, r),
            shape_of(instruction@) matches Some(Shape::Imm(target)) ==> r is Ok && final(self)@
                == (if old(self).zf || old(self).sf != old(self).of {
                old(self)@.jumped(target)
            } else {
                old(self)@
            }),
    {
        match instruction.shape() {
            None => Err(ExecuteError::InvalidOperands),
            Some(_) => {
                if self.zf || self.sf != self.of {
                    self.execute_jmp(instruction)
                } else {
                    Ok(())
                }
            },
        }
    }

    /// `CALL target`: pushes the address of the next instruction, then
    /// branches.
    pub fn execute_call(&mut self, instruction: &Instruction) -> (r: Result<(), ExecuteError>)
        requires
            instruction.instruction_type == InstructionType::Call,
        ensures
            carried_out(old(self)@, final(self)@, instruction@, r),
            final(self)@.memory.len() == old(self)@.memory.len(),
            r is Ok ==> final(self)@.gprs.rsp == wrapping_difference(old(self)@.gprs.rsp, 8)
                && load(final(self)@.memory, final(self)@.gprs.rsp) == wrapping_sum(
                old(self)@.rip,
                1,
            ),
    {
        match instruction.shape() {
            None => Err(ExecuteError::InvalidOperands),
            Some(_) => {
                let top: u64 = self.rsp.wrapping_sub(8);
                if !self.in_memory(top) {
                    return Err(ExecuteError::MemoryOutOfBounds);
                }
                self.rsp = top;
                self.write_memory(top, self.rip.wrapping_add(1));
                self.execute_jmp(instruction)
            },
        }
    }

    /// `RET`: branches to the address on top of the stack and raises the
    /// stack pointer by eight.
    pub fn execute_ret(&mut self, instruction: &Instruction) -> (r: Result<(), ExecuteError>)
        requires
            instruction.instruction_type == InstructionType::Ret,
        ensures
            carried_out(old(self)@, final(self)@, instruction@, r),
    {
        match instruction.shape() {
            None => Err(ExecuteError::InvalidOperands),
            Some(_) => {
                if !self.in_memory(self.rsp) {
                    return Err(ExecuteError::MemoryOutOfBounds);
                }
                self.rip = self.read_memory(self.rsp).wrapping_sub(1);
                self.rsp = self.rsp.wrapping_add(8);
                Ok(())
            },
        }
    }

    /// `BSF dest, src`: with a zero source sets ZF and leaves the
    /// destination; otherwise clears ZF and writes the index of the lowest
    /// set bit of the source.
    pub fn execute_bsf(&mut self, instruction: &Instruction) -> (r: Result<(), ExecuteError>)
        requires
            instruction.instruction_type == InstructionType::Bsf,
        ensures
            carried_out(old(self)@, final(self)@, instruction@, r),
            shape_of(instruction@) matches Some(Shape::RegReg(d, s)) ==> r is Ok && ({
                let v = old(self)@.gpr(s);
                &&& v != 0 ==> final(self)@.gpr(d) == u64_trailing_zeros(v) && !final(self)@.zf
                &&& v == 0 ==> final(self)@.zf && final(self)@.gprs == old(self)@.gprs
            }),
    {
        match instruction.shape() {
            None => Err(ExecuteError::InvalidOperands),
            Some(shape) => {
                let dest = shape.destination();
                let source_value: u64 = self.source_value(shape);
                if source_value == 0 {
                    self.zf = true;
                    self.rflags = self.packed_flags();
                } else {
                    self.zf = false;
                    self.rflags = self.packed_flags();
                    let index: u64 = lowest_set_bit(source_value);
                    *self.index_mut(&dest) = index;
                }
                Ok(())
            },
        }
    }

    /// `CMOVNE dest, src`: copies the source into the destination when ZF is
    /// clear. No flag changes.
    pub fn execute_cmovne(&mut self, instruction: &Instruction) -> (r: Result<(), ExecuteError>)
        requires
            instruction.instruction_type == InstructionType::Cmovne,
        ensures
            carried_out(old(self)@, final(self)@, instruction@, r),
    {
        match instruction.shape() {
            None => Err(ExecuteError::InvalidOperands),
            Some(shape) => {
                if !self.zf {
                    let dest = shape.destination();
                    let value: u64 = self.source_value(shape);
                    *self.index_mut(&dest) = value;
                }
                Ok(())
            },
        }
    }

    /// `PADDD dest, src`: adds the four 32-bit lanes of the source to those
    /// of the destination, each lane wrapping on its own.
    pub fn execute_paddd(&mut self, instruction: &Instruction) -> (r: Result<(), ExecuteError>)
        requires
            instruction.instruction_type == InstructionType::Paddd,
        ensures
            carried_out(old(self)@, final(self)@, instruction@, r),
            shape_of(instruction@) matches Some(Shape::XmmXmm(d, s)) ==> r is Ok && forall|k: int|
                0 <= k < 4 ==> #[trigger] lane(final(self)@.xmm[d as int], k) == (lane(
                    old(self)@.xmm[d as int],
                    k,
                ) + lane(old(self)@.xmm[s as int], k)) % 0x1_0000_0000,
    {
        match instruction.shape() {
            Some(Shape::XmmXmm(dest, src)) => {
                let dest_val: u128 = self.xmm[dest as usize];
                let src_val: u128 = self.xmm[src as usize];
                let result: u128 = add_lanes(dest_val, src_val);
                self.xmm[dest as usize] = result;
                Ok(())
            },
            _ => Err(ExecuteError::InvalidOperands),
        }
    }
}

/// Sign-extends an immediate to 64 bits.
pub fn extend(imm: i32) -> (value: u64)
    ensures
        value == sign_extend(imm),
{
    let value: u64 = imm as u64;
    assert(value == sign_extend(imm)) by (bit_vector)
        requires
            value == imm as u64,
    ;
    value
}

/// The low six bits of a shift or rotate count.
pub fn shift_amount(imm: i32) -> (count: u64)
    ensures
        count == shift_count(imm),
        count < 64,
{
    ((imm as i64 + 0x8000_0000) % 64) as u64
}

/// Rotates `value` left by `count` bits.
pub fn rotate_left(value: u64, count: u64) -> (r: u64)
    requires
        count < 64,
    ensures
        r == rotated_left(value, count),
{
    if count == 0 {
        value
    } else {
        (value << count) | (value >> (64 - count))
    }
}

/// Rotates `value` right by `count` bits.
pub fn rotate_right(value: u64, count: u64) -> (r: u64)
    requires
        count < 64,
    ensures
        r == rotated_right(value, count),
{
    if count == 0 {
        value
    } else {
        (value >> count) | (value << (64 - count))
    }
}

/// The index of the lowest set bit of a value that is not zero.
pub fn lowest_set_bit(value: u64) -> (index: u64)
    requires
        value != 0,
    ensures
        index == u64_trailing_zeros(value),
        index < 64,
{
    broadcast use vstd::std_specs::bits::axiom_u64_trailing_zeros;

    let mut index: u64 = 0;
    while value & (1u64 << index) == 0
        invariant
            value != 0,
            index <= u64_trailing_zeros(value),
            u64_trailing_zeros(value) < 64,
        decreases 64 - index,
    {
        proof {
            let tz = u64_trailing_zeros(value) as u64;
            assert((value >> tz) & 1u64 == 1u64);
            assert(value & (1u64 << index) == 0 && (value >> tz) & 1u64 == 1u64 && tz < 64
                ==> index != tz) by (bit_vector);
        }
        index = index + 1;
    }
    proof {
        let tz = u64_trailing_zeros(value) as u64;
        assert(index < 64 && value & (1u64 << index) != 0 ==> (value >> index) & 1u64 != 0u64)
            by (bit_vector);
    }
    index
}

/// The lane-wise sum of two vectors of four 32-bit lanes.
pub fn add_lanes(a: u128, b: u128) -> (sum: u128)
    ensures
        sum == packed_sum(a, b),
        forall|k: int|
            0 <= k < 4 ==> #[trigger] lane(sum, k) == (lane(a, k) + lane(b, k)) % 0x1_0000_0000,
{
    proof {
        lemma_lanes_of_packed_sum(a, b, 0);
        lemma_lanes_of_packed_sum(a, b, 1);
        lemma_lanes_of_packed_sum(a, b, 2);
        lemma_lanes_of_packed_sum(a, b, 3);
    }
    let a0: u32 = (a & 0xFFFF_FFFF) as u32;
    let a1: u32 = ((a >> 32) & 0xFFFF_FFFF) as u32;
    let a2: u32 = ((a >> 64) & 0xFFFF_FFFF) as u32;
    let a3: u32 = ((a >> 96) & 0xFFFF_FFFF) as u32;
    let b0: u32 = (b & 0xFFFF_FFFF) as u32;
    let b1: u32 = ((b >> 32) & 0xFFFF_FFFF) as u32;
    let b2: u32 = ((b >> 64) & 0xFFFF_FFFF) as u32;
    let b3: u32 = ((b >> 96) & 0xFFFF_FFFF) as u32;
    let s0: u32 = a0.wrapping_add(b0);
    let s1: u32 = a1.wrapping_add(b1);
    let s2: u32 = a2.wrapping_add(b2);
    let s3: u32 = a3.wrapping_add(b3);
    (s0 as u128) | ((s1 as u128) << 32) | ((s2 as u128) << 64) | ((s3 as u128) << 96)
}

} // verus!