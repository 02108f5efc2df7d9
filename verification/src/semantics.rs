//! The meaning of each instruction, as a function from one architectural
//! state to the next.

use crate::parser::{shape_of, InstructionType, InstructionView, Register, Shape};
use vstd::bytes::{spec_u64_from_le_bytes, spec_u64_to_le_bytes};
use vstd::prelude::*;
use vstd::std_specs::bits::u64_trailing_zeros;

verus! {

/// Why an instruction was not carried out. The state is left as it was.
#[derive(Debug, PartialEq, Eq, Clone, Copy, Structural)]
pub enum ExecuteError {
    /// The operands do not fit the mnemonic in number or in kind.
    InvalidOperands,
    /// A stack access would fall outside the memory.
    MemoryOutOfBounds,
}

/// The sixteen general-purpose registers.
pub struct Gprs {
    pub rax: u64,
    pub rbx: u64,
    pub rcx: u64,
    pub rdx: u64,
    pub rsi: u64,
    pub rdi: u64,
    pub rbp: u64,
    pub rsp: u64,
    pub r8: u64,
    pub r9: u64,
    pub r10: u64,
    pub r11: u64,
    pub r12: u64,
    pub r13: u64,
    pub r14: u64,
    pub r15: u64,
}

/// The architectural state as plain mathematical values.
pub struct CpuView {
    pub gprs: Gprs,
    pub rip: u64,
    pub rflags: u64,
    pub cs: u16,
    pub fs: u16,
    pub gs: u16,
    pub cf: bool,
    pub zf: bool,
    pub sf: bool,
    pub of: bool,
    pub memory: Seq<u8>,
    pub xmm: Seq<u128>,
}

/// The 64-bit value with the same two's-complement meaning as `imm`.
pub open spec fn sign_extend(imm: i32) -> u64 {
    if imm >= 0 {
        imm as u64
    } else {
        (0x1_0000_0000_0000_0000 + imm) as u64
    }
}

/// `a + b` modulo 2^64.
pub open spec fn wrapping_sum(a: u64, b: u64) -> u64 {
    if a + b > u64::MAX {
        (a + b - 0x1_0000_0000_0000_0000) as u64
    } else {
        (a + b) as u64
    }
}

/// `a - b` modulo 2^64.
pub open spec fn wrapping_difference(a: u64, b: u64) -> u64 {
    if a < b {
        (a - b + 0x1_0000_0000_0000_0000) as u64
    } else {
        (a - b) as u64
    }
}

/// The count a shift or rotate uses: the low six bits of the immediate.
pub open spec fn shift_count(imm: i32) -> u64 {
    ((imm + 0x8000_0000) % 64) as u64
}

/// `value` rotated left by `count` bits, for a count below 64.
pub open spec fn rotated_left(value: u64, count: u64) -> u64 {
    if count == 0 {
        value
    } else {
        (value << count) | (value >> ((64 - count) as u64))
    }
}

/// `value` rotated right by `count` bits, for a count below 64.
pub open spec fn rotated_right(value: u64, count: u64) -> u64 {
    if count == 0 {
        value
    } else {
        (value >> count) | (value << ((64 - count) as u64))
    }
}

/// The flags register that mirrors the four flags: CF in bit 0, ZF in bit 6,
/// SF in bit 7, OF in bit 11, every other bit clear.
pub open spec fn pack_flags(cf: bool, zf: bool, sf: bool, of: bool) -> u64 {
    ((if cf { 0x1int } else { 0 }) + (if zf { 0x40int } else { 0 }) + (if sf { 0x80int } else { 0 })
        + (if of { 0x800int } else { 0 })) as u64
}

/// The `k`-th 32-bit lane of a 128-bit vector, lane 0 being the lowest.
pub open spec fn lane(v: u128, k: int) -> u32 {
    if k == 0 {
        (v & 0xFFFF_FFFF) as u32
    } else if k == 1 {
        ((v >> 32) & 0xFFFF_FFFF) as u32
    } else if k == 2 {
        ((v >> 64) & 0xFFFF_FFFF) as u32
    } else {
        ((v >> 96) & 0xFFFF_FFFF) as u32
    }
}

/// The 128-bit vector with the given lanes, lowest first.
pub open spec fn from_lanes(l0: u32, l1: u32, l2: u32, l3: u32) -> u128 {
    (l0 as u128) | ((l1 as u128) << 32) | ((l2 as u128) << 64) | ((l3 as u128) << 96)
}

/// `a + b` modulo 2^32.
pub open spec fn lane_sum(a: u32, b: u32) -> u32 {
    ((a + b) % 0x1_0000_0000) as u32
}

/// Lane-wise sum of two vectors of four 32-bit lanes.
pub open spec fn packed_sum(a: u128, b: u128) -> u128 {
    from_lanes(
        lane_sum(lane(a, 0), lane(b, 0)),
        lane_sum(lane(a, 1), lane(b, 1)),
        lane_sum(lane(a, 2), lane(b, 2)),
        lane_sum(lane(a, 3), lane(b, 3)),
    )
}

/// Whether the eight bytes at `address` lie inside the memory.
pub open spec fn in_bounds(memory: Seq<u8>, address: u64) -> bool {
    address + 8 <= memory.len()
}

/// The little-endian 64-bit value at `address`.
pub open spec fn load(memory: Seq<u8>, address: u64) -> u64 {
    spec_u64_from_le_bytes(memory.subrange(address as int, address + 8))
}

/// The memory with `value` written little-endian at `address`.
pub open spec fn store(memory: Seq<u8>, address: u64, value: u64) -> Seq<u8> {
    memory.subrange(0, address as int) + spec_u64_to_le_bytes(value) + memory.subrange(
        address + 8,
        memory.len() as int,
    )
}

/// What an arithmetic, bitwise, shift or rotate mnemonic computes from its
/// two inputs. One-operand mnemonics fix the other input: `Inc` and `Dec`
/// take 1 as `b`, `Neg` takes 0 as `a`.
pub open spec fn alu_result(kind: InstructionType, a: u64, b: u64) -> u64 {
    match kind {
        InstructionType::Add | InstructionType::Inc => wrapping_sum(a, b),
        InstructionType::Sub | InstructionType::Dec | InstructionType::Cmp
        | InstructionType::Neg => wrapping_difference(a, b),
        InstructionType::And | InstructionType::Test => a & b,
        InstructionType::Or => a | b,
        InstructionType::Xor => a ^ b,
        InstructionType::Not => !a,
        InstructionType::Shl => a << b,
        InstructionType::Shr => a >> b,
        InstructionType::Rol => rotated_left(a, b),
        InstructionType::Ror => rotated_right(a, b),
        _ => a,
    }
}

/// The overflow flag after [`alu_result`]: unsigned carry for sums, unsigned
/// borrow for differences, clear for everything else.
pub open spec fn alu_overflow(kind: InstructionType, a: u64, b: u64) -> bool {
    match kind {
        InstructionType::Add | InstructionType::Inc => a + b > u64::MAX,
        InstructionType::Sub | InstructionType::Dec | InstructionType::Cmp
        | InstructionType::Neg => a < b,
        _ => false,
    }
}

impl Gprs {
    /// The value of a register.
    pub open spec fn get(self, r: Register) -> u64 {
        match r {
            Register::Rax => self.rax,
            Register::Rbx => self.rbx,
            Register::Rcx => self.rcx,
            Register::Rdx => self.rdx,
            Register::Rsi => self.rsi,
            Register::Rdi => self.rdi,
            Register::Rbp => self.rbp,
            Register::Rsp => self.rsp,
            Register::R8 => self.r8,
            Register::R9 => self.r9,
            Register::R10 => self.r10,
            Register::R11 => self.r11,
            Register::R12 => self.r12,
            Register::R13 => self.r13,
            Register::R14 => self.r14,
            Register::R15 => self.r15,
        }
    }

    /// The registers with one of them replaced.
    pub open spec fn with(self, r: Register, value: u64) -> Gprs {
        match r {
            Register::Rax => Gprs { rax: value, ..self },
            Register::Rbx => Gprs { rbx: value, ..self },
            Register::Rcx => Gprs { rcx: value, ..self },
            Register::Rdx => Gprs { rdx: value, ..self },
            Register::Rsi => Gprs { rsi: value, ..self },
            Register::Rdi => Gprs { rdi: value, ..self },
            Register::Rbp => Gprs { rbp: value, ..self },
            Register::Rsp => Gprs { rsp: value, ..self },
            Register::R8 => Gprs { r8: value, ..self },
            Register::R9 => Gprs { r9: value, ..self },
            Register::R10 => Gprs { r10: value, ..self },
            Register::R11 => Gprs { r11: value, ..self },
            Register::R12 => Gprs { r12: value, ..self },
            Register::R13 => Gprs { r13: value, ..self },
            Register::R14 => Gprs { r14: value, ..self },
            Register::R15 => Gprs { r15: value, ..self },
        }
    }
}

impl CpuView {
    /// The value of a general-purpose register.
    pub open spec fn gpr(self, r: Register) -> u64 {
        self.gprs.get(r)
    }

    /// The state with one general-purpose register replaced.
    pub open spec fn with_gpr(self, r: Register, value: u64) -> CpuView {
        CpuView { gprs: self.gprs.with(r, value), ..self }
    }

    /// The state after the shared flag update for `result`. ZF and SF come
    /// from the result and OF from the operation. CF follows this model's
    /// simplified rule: it is set when the result is below the value that RAX
    /// holds at the time of the update.
    pub open spec fn with_flags(self, result: u64, overflow: bool) -> CpuView {
        let cf = result < self.gprs.rax;
        let zf = result == 0;
        let sf = result >= 0x8000_0000_0000_0000;
        CpuView { cf, zf, sf, of: overflow, rflags: pack_flags(cf, zf, sf, overflow), ..self }
    }

    /// The state with ZF replaced and the flags register packed anew.
    pub open spec fn with_zero_flag(self, zf: bool) -> CpuView {
        CpuView { zf, rflags: pack_flags(self.cf, zf, self.sf, self.of), ..self }
    }

    /// The value that the second operand of a two-operand form supplies.
    pub open spec fn source(self, shape: Shape) -> u64 {
        match shape {
            Shape::RegReg(_, s) => self.gpr(s),
            Shape::RegImm(_, v) => sign_extend(v),
            _ => 0,
        }
    }

    /// The state after writing `result` to `dest` and updating the flags.
    pub open spec fn computed(self, dest: Register, result: u64, overflow: bool) -> CpuView {
        self.with_gpr(dest, result).with_flags(result, overflow)
    }

    /// The state with the instruction pointer set so that the increment that
    /// ends every step lands on `target`.
    pub open spec fn jumped(self, target: i32) -> CpuView {
        CpuView { rip: wrapping_difference(sign_extend(target), 1), ..self }
    }

    /// Whether a conditional branch is taken in this state.
    pub open spec fn branch_taken(self, kind: InstructionType) -> bool {
        match kind {
            InstructionType::Jmp => true,
            InstructionType::Je => self.zf,
            InstructionType::Jne => !self.zf,
            InstructionType::Jg => !self.zf && self.sf == self.of,
            InstructionType::Jge => self.sf == self.of,
            InstructionType::Jl => self.sf != self.of,
            InstructionType::Jle => self.zf || self.sf != self.of,
            _ => false,
        }
    }

    /// The state after lowering the stack pointer by eight and writing
    /// `value` where it then points.
    pub open spec fn pushed(self, value: u64) -> CpuView {
        let top = wrapping_difference(self.gprs.rsp, 8);
        CpuView {
            gprs: Gprs { rsp: top, ..self.gprs },
            memory: store(self.memory, top, value),
            ..self
        }
    }

    /// The state with the instruction pointer advanced by one.
    pub open spec fn advanced(self) -> CpuView {
        CpuView { rip: wrapping_sum(self.rip, 1), ..self }
    }
}

/// What an instruction does to the state before the instruction pointer
/// advances, or the error that leaves the state as it was. The operands are
/// checked first, then the stack bounds.
pub open spec fn effect(s: CpuView, i: InstructionView) -> Result<CpuView, ExecuteError> {
    match shape_of(i) {
        None => Err(ExecuteError::InvalidOperands),
        Some(shape) => {
            let dest = shape.dest();
            match i.kind {
                InstructionType::Mov => Ok(s.with_gpr(dest, s.source(shape))),
                InstructionType::Add | InstructionType::Sub | InstructionType::And
                | InstructionType::Or | InstructionType::Xor => {
                    let (a, b) = (s.gpr(dest), s.source(shape));
                    Ok(s.computed(dest, alu_result(i.kind, a, b), alu_overflow(i.kind, a, b)))
                },
                InstructionType::Cmp | InstructionType::Test => {
                    let (a, b) = (s.gpr(dest), s.source(shape));
                    Ok(s.with_flags(alu_result(i.kind, a, b), alu_overflow(i.kind, a, b)))
                },
                InstructionType::Inc | InstructionType::Dec => {
                    let a = s.gpr(dest);
                    Ok(s.computed(dest, alu_result(i.kind, a, 1), alu_overflow(i.kind, a, 1)))
                },
                InstructionType::Neg => {
                    let b = s.gpr(dest);
                    Ok(s.computed(dest, alu_result(i.kind, 0, b), alu_overflow(i.kind, 0, b)))
                },
                InstructionType::Not => Ok(
                    s.computed(dest, alu_result(i.kind, s.gpr(dest), 0), false),
                ),
                InstructionType::Shl | InstructionType::Shr | InstructionType::Rol
                | InstructionType::Ror => {
                    let count = shift_count(shape.immediate());
                    Ok(s.computed(dest, alu_result(i.kind, s.gpr(dest), count), false))
                },
                InstructionType::Push => {
                    let top = wrapping_difference(s.gprs.rsp, 8);
                    if in_bounds(s.memory, top) {
                        Ok(s.pushed(s.with_gpr(Register::Rsp, top).gpr(dest)))
                    } else {
                        Err(ExecuteError::MemoryOutOfBounds)
                    }
                },
                InstructionType::Pop => {
                    if in_bounds(s.memory, s.gprs.rsp) {
                        let loaded = s.with_gpr(dest, load(s.memory, s.gprs.rsp));
                        Ok(loaded.with_gpr(Register::Rsp, wrapping_sum(loaded.gprs.rsp, 8)))
                    } else {
                        Err(ExecuteError::MemoryOutOfBounds)
                    }
                },
                InstructionType::Jmp | InstructionType::Je | InstructionType::Jne
                | InstructionType::Jg | InstructionType::Jge | InstructionType::Jl
                | InstructionType::Jle => {
                    if s.branch_taken(i.kind) {
                        Ok(s.jumped(shape.immediate()))
                    } else {
                        Ok(s)
                    }
                },
                InstructionType::Call => {
                    if in_bounds(s.memory, wrapping_difference(s.gprs.rsp, 8)) {
                        Ok(s.pushed(wrapping_sum(s.rip, 1)).jumped(shape.immediate()))
                    } else {
                        Err(ExecuteError::MemoryOutOfBounds)
                    }
                },
                InstructionType::Ret => {
                    if in_bounds(s.memory, s.gprs.rsp) {
                        Ok(
                            CpuView {
                                rip: wrapping_difference(load(s.memory, s.gprs.rsp), 1),
                                gprs: Gprs { rsp: wrapping_sum(s.gprs.rsp, 8), ..s.gprs },
                                ..s
                            },
                        )
                    } else {
                        Err(ExecuteError::MemoryOutOfBounds)
                    }
                },
                InstructionType::Bsf => {
                    let value = s.source(shape);
                    if value == 0 {
                        Ok(s.with_zero_flag(true))
                    } else {
                        Ok(s.with_zero_flag(false).with_gpr(dest, u64_trailing_zeros(value) as u64))
                    }
                },
                InstructionType::Cmovne => {
                    if !s.zf {
                        Ok(s.with_gpr(dest, s.source(shape)))
                    } else {
                        Ok(s)
                    }
                },
                InstructionType::Paddd => match shape {
                    Shape::XmmXmm(d, src) => Ok(
                        CpuView {
                            xmm: s.xmm.update(
                                d as int,
                                packed_sum(s.xmm[d as int], s.xmm[src as int]),
                            ),
                            ..s
                        },
                    ),
                    _ => Ok(s),
                },
            }
        },
    }
}

/// The state of a new CPU: every register and flag clear but the stack
/// pointer, which sits eight bytes below the top of a zeroed memory of
/// `memory_size` bytes, and the flags register, whose reserved bit 1 is set.
pub open spec fn initial_state(memory_size: nat) -> CpuView {
    CpuView {
        gprs: Gprs {
            rax: 0,
            rbx: 0,
            rcx: 0,
            rdx: 0,
            rsi: 0,
            rdi: 0,
            rbp: 0,
            rsp: (memory_size - 8) as u64,
            r8: 0,
            r9: 0,
            r10: 0,
            r11: 0,
            r12: 0,
            r13: 0,
            r14: 0,
            r15: 0,
        },
        rip: 0,
        rflags: 0x0002,
        cs: 0,
        fs: 0,
        gs: 0,
        cf: false,
        zf: false,
        sf: false,
        of: false,
        memory: Seq::new(memory_size, |i: int| 0u8),
        xmm: Seq::new(16, |i: int| 0u128),
    }
}

/// Whether `after` and `r` are what carrying out `i` on `before` gives,
/// before the instruction pointer advances.
pub open spec fn carried_out(
    before: CpuView,
    after: CpuView,
    i: InstructionView,
    r: Result<(), ExecuteError>,
) -> bool {
    match effect(before, i) {
        Ok(next) => r is Ok && after == next,
        Err(e) => r == Err::<(), ExecuteError>(e) && after == before,
    }
}

/// One execution step: the instruction's effect, then the instruction
/// pointer advances by one. On an error nothing changes.
pub open spec fn step(s: CpuView, i: InstructionView) -> Result<CpuView, ExecuteError> {
    match effect(s, i) {
        Ok(next) => Ok(next.advanced()),
        Err(e) => Err(e),
    }
}

} // verus!
