//! The instruction vocabulary shared by the parser, the interpreter and the
//! encoder adapter, and the parser for one input line.

use crate::lexer::{
    at_int, decimal, decimal_at, first, has_word, hex_at, hexadecimal, skip_spaces, spaces, word,
    word_at,
};
use vstd::prelude::*;
use vstd::string::StringSliceAdditionalSpecFns;

verus! {

/// One of the sixteen 64-bit general-purpose registers.
#[derive(Debug, PartialEq, Eq, Clone, Copy, Structural)]
pub enum Register {
    Rax,
    Rbx,
    Rcx,
    Rdx,
    Rsi,
    Rdi,
    Rbp,
    Rsp,
    R8,
    R9,
    R10,
    R11,
    R12,
    R13,
    R14,
    R15,
}

/// The supported mnemonics.
#[derive(Debug, PartialEq, Eq, Clone, Copy, Structural)]
pub enum InstructionType {
    Mov,
    Add,
    Sub,
    And,
    Or,
    Xor,
    Inc,
    Dec,
    Neg,
    Not,
    Shl,
    Shr,
    Rol,
    Ror,
    Push,
    Pop,
    Cmp,
    Test,
    Jmp,
    Je,
    Jne,
    Jg,
    Jge,
    Jl,
    Jle,
    Call,
    Ret,
    Paddd,
    Bsf,
    Cmovne,
}

/// An instruction operand: a general-purpose register, a signed 32-bit
/// immediate, or the index of an XMM register.
#[derive(Debug, PartialEq, Eq, Clone, Copy, Structural)]
pub enum Operand {
    Register(Register),
    Immediate(i32),
    XmmRegister(u8),
}

#[derive(Debug, PartialEq, Eq, Clone, Copy, Structural)]
pub struct RegisterDisplayOptions {
    pub human_readable: bool,
}

#[derive(Debug, PartialEq, Eq, Clone, Copy, Structural)]
pub enum MemoryDumpFormat {
    Hex,
    Decimal,
}

#[derive(Debug, PartialEq, Eq, Clone, Copy, Structural)]
pub struct MemoryDumpOptions {
    pub address: u64,
    pub size: usize,
    pub format: MemoryDumpFormat,
}

/// A mnemonic with its operands in source order.
#[derive(Debug, PartialEq, Eq, Clone)]
pub struct Instruction {
    pub instruction_type: InstructionType,
    pub operands: Vec<Operand>,
}

/// What one input line can be.
#[derive(Debug, PartialEq, Eq, Clone)]
pub enum InputType {
    Instruction(Instruction),
    Register(Register, RegisterDisplayOptions),
    Memory(MemoryDumpOptions),
}

/// The mathematical content of an [`Instruction`].
pub struct InstructionView {
    pub kind: InstructionType,
    pub operands: Seq<Operand>,
}

impl View for Instruction {
    type V = InstructionView;

    open spec fn view(&self) -> InstructionView {
        InstructionView { kind: self.instruction_type, operands: self.operands@ }
    }
}

impl Register {
    /// The name under which a register is shown.
    pub open spec fn name(self) -> Seq<char> {
        match self {
            Register::Rax => "Rax"@,
            Register::Rbx => "Rbx"@,
            Register::Rcx => "Rcx"@,
            Register::Rdx => "Rdx"@,
            Register::Rsi => "Rsi"@,
            Register::Rdi => "Rdi"@,
            Register::Rbp => "Rbp"@,
            Register::Rsp => "Rsp"@,
            Register::R8 => "R8"@,
            Register::R9 => "R9"@,
            Register::R10 => "R10"@,
            Register::R11 => "R11"@,
            Register::R12 => "R12"@,
            Register::R13 => "R13"@,
            Register::R14 => "R14"@,
            Register::R15 => "R15"@,
        }
    }

    /// The name under which the register is shown.
    pub fn label(&self) -> (text: &'static str)
        ensures
            text@ == self.name(),
    {
        match self {
            Register::Rax => "Rax",
            Register::Rbx => "Rbx",
            Register::Rcx => "Rcx",
            Register::Rdx => "Rdx",
            Register::Rsi => "Rsi",
            Register::Rdi => "Rdi",
            Register::Rbp => "Rbp",
            Register::Rsp => "Rsp",
            Register::R8 => "R8",
            Register::R9 => "R9",
            Register::R10 => "R10",
            Register::R11 => "R11",
            Register::R12 => "R12",
            Register::R13 => "R13",
            Register::R14 => "R14",
            Register::R15 => "R15",
        }
    }
}

/// The operand list of an instruction whose operands fit its mnemonic.
#[derive(Debug, PartialEq, Eq, Clone, Copy, Structural)]
pub enum Shape {
    /// No operand.
    Bare,
    /// One general-purpose register.
    Reg(Register),
    /// One immediate.
    Imm(i32),
    /// Destination and source register.
    RegReg(Register, Register),
    /// Destination register and immediate.
    RegImm(Register, i32),
    /// Destination and source XMM index, both below sixteen.
    XmmXmm(u8, u8),
}

impl Shape {
    /// The register that a one- or two-operand register form names first.
    pub open spec fn dest(self) -> Register {
        match self {
            Shape::Reg(r) => r,
            Shape::RegReg(r, _) => r,
            Shape::RegImm(r, _) => r,
            _ => Register::Rax,
        }
    }

    /// The immediate of a form that carries one.
    pub open spec fn immediate(self) -> i32 {
        match self {
            Shape::Imm(v) => v,
            Shape::RegImm(_, v) => v,
            _ => 0,
        }
    }
}

impl Shape {
    /// The register that the form names first; see [`Shape::dest`].
    pub fn destination(&self) -> (r: Register)
        ensures
            r == self.dest(),
    {
        match self {
            Shape::Reg(r) => *r,
            Shape::RegReg(r, _) => *r,
            Shape::RegImm(r, _) => *r,
            _ => Register::Rax,
        }
    }

    /// The immediate that the form carries; see [`Shape::immediate`].
    pub fn constant(&self) -> (v: i32)
        ensures
            v == self.immediate(),
    {
        match self {
            Shape::Imm(v) => *v,
            Shape::RegImm(_, v) => *v,
            _ => 0,
        }
    }
}

impl InstructionType {
    /// Mnemonics that take a register and then a register or an immediate.
    pub open spec fn takes_register_and_source(self) -> bool {
        matches!(
            self,
            InstructionType::Mov | InstructionType::Add | InstructionType::Sub
                | InstructionType::And | InstructionType::Or | InstructionType::Xor
                | InstructionType::Cmp | InstructionType::Test
        )
    }

    /// Mnemonics that take one register.
    pub open spec fn takes_register(self) -> bool {
        matches!(
            self,
            InstructionType::Inc | InstructionType::Dec | InstructionType::Neg
                | InstructionType::Not | InstructionType::Push | InstructionType::Pop
        )
    }

    /// Mnemonics that take a register and an immediate count.
    pub open spec fn takes_register_and_count(self) -> bool {
        matches!(
            self,
            InstructionType::Shl | InstructionType::Shr | InstructionType::Rol
                | InstructionType::Ror
        )
    }

    /// Mnemonics that take one immediate, an absolute target.
    pub open spec fn takes_target(self) -> bool {
        matches!(
            self,
            InstructionType::Jmp | InstructionType::Je | InstructionType::Jne
                | InstructionType::Jg | InstructionType::Jge | InstructionType::Jl
                | InstructionType::Jle | InstructionType::Call
        )
    }

    /// Mnemonics that take two registers.
    pub open spec fn takes_two_registers(self) -> bool {
        matches!(self, InstructionType::Bsf | InstructionType::Cmovne)
    }
}

/// The form of an instruction, or `None` when its operands do not fit its
/// mnemonic in number or in kind.
pub open spec fn shape_of(i: InstructionView) -> Option<Shape> {
    let ops = i.operands;
    if i.kind.takes_register_and_source() {
        if ops.len() == 2 {
            match (ops[0], ops[1]) {
                (Operand::Register(d), Operand::Immediate(v)) => Some(Shape::RegImm(d, v)),
                (Operand::Register(d), Operand::Register(s)) => Some(Shape::RegReg(d, s)),
                _ => None,
            }
        } else {
            None
        }
    } else if i.kind.takes_register() {
        if ops.len() == 1 {
            match ops[0] {
                Operand::Register(r) => Some(Shape::Reg(r)),
                _ => None,
            }
        } else {
            None
        }
    } else if i.kind.takes_register_and_count() {
        if ops.len() == 2 {
            match (ops[0], ops[1]) {
                (Operand::Register(d), Operand::Immediate(v)) => Some(Shape::RegImm(d, v)),
                _ => None,
            }
        } else {
            None
        }
    } else if i.kind.takes_target() {
        if ops.len() == 1 {
            match ops[0] {
                Operand::Immediate(v) => Some(Shape::Imm(v)),
                _ => None,
            }
        } else {
            None
        }
    } else if i.kind.takes_two_registers() {
        if ops.len() == 2 {
            match (ops[0], ops[1]) {
                (Operand::Register(d), Operand::Register(s)) => Some(Shape::RegReg(d, s)),
                _ => None,
            }
        } else {
            None
        }
    } else if i.kind == InstructionType::Paddd {
        if ops.len() == 2 {
            match (ops[0], ops[1]) {
                (Operand::XmmRegister(d), Operand::XmmRegister(s)) => if d < 16 && s < 16 {
                    Some(Shape::XmmXmm(d, s))
                } else {
                    None
                },
                _ => None,
            }
        } else {
            None
        }
    } else {
        if ops.len() == 0 {
            Some(Shape::Bare)
        } else {
            None
        }
    }
}

impl Instruction {
    /// Checks the operands against the mnemonic and hands them out by form.
    pub fn shape(&self) -> (r: Option<Shape>)
        ensures
            r == shape_of(self@),
    {
        let n: usize = self.operands.len();
        match self.instruction_type {
            InstructionType::Mov | InstructionType::Add | InstructionType::Sub
            | InstructionType::And | InstructionType::Or | InstructionType::Xor
            | InstructionType::Cmp | InstructionType::Test => {
                if n == 2 {
                    match (self.operands[0], self.operands[1]) {
                        (Operand::Register(d), Operand::Immediate(v)) => Some(Shape::RegImm(d, v)),
                        (Operand::Register(d), Operand::Register(s)) => Some(Shape::RegReg(d, s)),
                        _ => None,
                    }
                } else {
                    None
                }
            },
            InstructionType::Inc | InstructionType::Dec | InstructionType::Neg
            | InstructionType::Not | InstructionType::Push | InstructionType::Pop => {
                if n == 1 {
                    match self.operands[0] {
                        Operand::Register(r) => Some(Shape::Reg(r)),
                        _ => None,
                    }
                } else {
                    None
                }
            },
            InstructionType::Shl | InstructionType::Shr | InstructionType::Rol
            | InstructionType::Ror => {
                if n == 2 {
                    match (self.operands[0], self.operands[1]) {
                        (Operand::Register(d), Operand::Immediate(v)) => Some(Shape::RegImm(d, v)),
                        _ => None,
                    }
                } else {
                    None
                }
            },
            InstructionType::Jmp | InstructionType::Je | InstructionType::Jne
            | InstructionType::Jg | InstructionType::Jge | InstructionType::Jl
            | InstructionType::Jle | InstructionType::Call => {
                if n == 1 {
                    match self.operands[0] {
                        Operand::Immediate(v) => Some(Shape::Imm(v)),
                        _ => None,
                    }
                } else {
                    None
                }
            },
            InstructionType::Bsf | InstructionType::Cmovne => {
                if n == 2 {
                    match (self.operands[0], self.operands[1]) {
                        (Operand::Register(d), Operand::Register(s)) => Some(Shape::RegReg(d, s)),
                        _ => None,
                    }
                } else {
                    None
                }
            },
            InstructionType::Paddd => {
                if n == 2 {
                    match (self.operands[0], self.operands[1]) {
                        (Operand::XmmRegister(d), Operand::XmmRegister(s)) => {
                            if d < 16 && s < 16 {
                                Some(Shape::XmmXmm(d, s))
                            } else {
                                None
                            }
                        },
                        _ => None,
                    }
                } else {
                    None
                }
            },
            InstructionType::Ret => {
                if n == 0 {
                    Some(Shape::Bare)
                } else {
                    None
                }
            },
        }
    }
}


/// Where and why a line could not be parsed.
#[derive(Debug, PartialEq, Eq, Clone, Copy, Structural)]
pub struct ParseError {
    /// Byte offset at which the expected text was missing.
    pub position: usize,
    pub kind: ParseErrorKind,
}

#[derive(Debug, PartialEq, Eq, Clone, Copy, Structural)]
pub enum ParseErrorKind {
    /// No mnemonic, register name or command stands here.
    Unrecognized,
    /// A blank was expected after the command word.
    ExpectedSpace,
    /// `0x` and at least one hexadecimal digit were expected.
    ExpectedAddress,
    /// The address does not fit in 64 bits.
    AddressTooLarge,
}

/// The mathematical content of an [`InputType`].
pub enum InputView {
    Instruction(InstructionView),
    Register(Register, RegisterDisplayOptions),
    Memory(MemoryDumpOptions),
}

impl View for InputType {
    type V = InputView;

    open spec fn view(&self) -> InputView {
        match self {
            InputType::Instruction(i) => InputView::Instruction(i@),
            InputType::Register(r, options) => InputView::Register(*r, *options),
            InputType::Memory(options) => InputView::Memory(*options),
        }
    }
}

/// The data-movement and arithmetic mnemonic at `at`, with the position after
/// it.
pub open spec fn arithmetic_mnemonic_at(s: Seq<u8>, at: int) -> Option<(InstructionType, int)> {
    if has_word(s, at, "mov"@) {
        Some((InstructionType::Mov, at + "mov"@.len()))
    } else if has_word(s, at, "add"@) {
        Some((InstructionType::Add, at + "add"@.len()))
    } else if has_word(s, at, "sub"@) {
        Some((InstructionType::Sub, at + "sub"@.len()))
    } else if has_word(s, at, "inc"@) {
        Some((InstructionType::Inc, at + "inc"@.len()))
    } else if has_word(s, at, "dec"@) {
        Some((InstructionType::Dec, at + "dec"@.len()))
    } else if has_word(s, at, "neg"@) {
        Some((InstructionType::Neg, at + "neg"@.len()))
    } else {
        None
    }
}

/// The bitwise mnemonic at `at`, with the position after it.
pub open spec fn logic_mnemonic_at(s: Seq<u8>, at: int) -> Option<(InstructionType, int)> {
    if has_word(s, at, "and"@) {
        Some((InstructionType::And, at + "and"@.len()))
    } else if has_word(s, at, "or"@) {
        Some((InstructionType::Or, at + "or"@.len()))
    } else if has_word(s, at, "xor"@) {
        Some((InstructionType::Xor, at + "xor"@.len()))
    } else if has_word(s, at, "not"@) {
        Some((InstructionType::Not, at + "not"@.len()))
    } else {
        None
    }
}

/// The shift or rotate mnemonic at `at`, with the position after it.
pub open spec fn shift_rotate_mnemonic_at(s: Seq<u8>, at: int) -> Option<(InstructionType, int)> {
    if has_word(s, at, "shl"@) {
        Some((InstructionType::Shl, at + "shl"@.len()))
    } else if has_word(s, at, "shr"@) {
        Some((InstructionType::Shr, at + "shr"@.len()))
    } else if has_word(s, at, "rol"@) {
        Some((InstructionType::Rol, at + "rol"@.len()))
    } else if has_word(s, at, "ror"@) {
        Some((InstructionType::Ror, at + "ror"@.len()))
    } else {
        None
    }
}

/// The stack mnemonic at `at`, with the position after it.
pub open spec fn stack_mnemonic_at(s: Seq<u8>, at: int) -> Option<(InstructionType, int)> {
    if has_word(s, at, "push"@) {
        Some((InstructionType::Push, at + "push"@.len()))
    } else if has_word(s, at, "pop"@) {
        Some((InstructionType::Pop, at + "pop"@.len()))
    } else {
        None
    }
}

/// The comparison mnemonic at `at`, with the position after it.
pub open spec fn compare_mnemonic_at(s: Seq<u8>, at: int) -> Option<(InstructionType, int)> {
    if has_word(s, at, "cmp"@) {
        Some((InstructionType::Cmp, at + "cmp"@.len()))
    } else if has_word(s, at, "test"@) {
        Some((InstructionType::Test, at + "test"@.len()))
    } else {
        None
    }
}

/// The branch mnemonic at `at`, with the position after it. Where one
/// spelling begins another, the longer is tried first.
pub open spec fn jump_mnemonic_at(s: Seq<u8>, at: int) -> Option<(InstructionType, int)> {
    if has_word(s, at, "jmp"@) {
        Some((InstructionType::Jmp, at + "jmp"@.len()))
    } else if has_word(s, at, "jne"@) {
        Some((InstructionType::Jne, at + "jne"@.len()))
    } else if has_word(s, at, "je"@) {
        Some((InstructionType::Je, at + "je"@.len()))
    } else if has_word(s, at, "jge"@) {
        Some((InstructionType::Jge, at + "jge"@.len()))
    } else if has_word(s, at, "jg"@) {
        Some((InstructionType::Jg, at + "jg"@.len()))
    } else if has_word(s, at, "jle"@) {
        Some((InstructionType::Jle, at + "jle"@.len()))
    } else if has_word(s, at, "jl"@) {
        Some((InstructionType::Jl, at + "jl"@.len()))
    } else {
        None
    }
}

/// The call or return mnemonic at `at`, with the position after it.
pub open spec fn call_ret_mnemonic_at(s: Seq<u8>, at: int) -> Option<(InstructionType, int)> {
    if has_word(s, at, "call"@) {
        Some((InstructionType::Call, at + "call"@.len()))
    } else if has_word(s, at, "ret"@) {
        Some((InstructionType::Ret, at + "ret"@.len()))
    } else {
        None
    }
}

/// The packed-sum, bit-scan or conditional-move mnemonic at `at`, with the
/// position after it.
pub open spec fn advanced_mnemonic_at(s: Seq<u8>, at: int) -> Option<(InstructionType, int)> {
    if has_word(s, at, "paddd"@) {
        Some((InstructionType::Paddd, at + "paddd"@.len()))
    } else if has_word(s, at, "bsf"@) {
        Some((InstructionType::Bsf, at + "bsf"@.len()))
    } else if has_word(s, at, "cmovne"@) {
        Some((InstructionType::Cmovne, at + "cmovne"@.len()))
    } else {
        None
    }
}

/// The mnemonic at `at`, with the position after it.
pub open spec fn mnemonic_at(s: Seq<u8>, at: int) -> Option<(InstructionType, int)> {
    if arithmetic_mnemonic_at(s, at) is Some {
        arithmetic_mnemonic_at(s, at)
    } else if logic_mnemonic_at(s, at) is Some {
        logic_mnemonic_at(s, at)
    } else if shift_rotate_mnemonic_at(s, at) is Some {
        shift_rotate_mnemonic_at(s, at)
    } else if stack_mnemonic_at(s, at) is Some {
        stack_mnemonic_at(s, at)
    } else if compare_mnemonic_at(s, at) is Some {
        compare_mnemonic_at(s, at)
    } else if jump_mnemonic_at(s, at) is Some {
        jump_mnemonic_at(s, at)
    } else if call_ret_mnemonic_at(s, at) is Some {
        call_ret_mnemonic_at(s, at)
    } else {
        advanced_mnemonic_at(s, at)
    }
}

/// The register name at `at`, with the position after it.
pub open spec fn register_at(s: Seq<u8>, at: int) -> Option<(Register, int)> {
    if has_word(s, at, "rax"@) {
        Some((Register::Rax, at + "rax"@.len()))
    } else if has_word(s, at, "rbx"@) {
        Some((Register::Rbx, at + "rbx"@.len()))
    } else if has_word(s, at, "rcx"@) {
        Some((Register::Rcx, at + "rcx"@.len()))
    } else if has_word(s, at, "rdx"@) {
        Some((Register::Rdx, at + "rdx"@.len()))
    } else if has_word(s, at, "rsi"@) {
        Some((Register::Rsi, at + "rsi"@.len()))
    } else if has_word(s, at, "rdi"@) {
        Some((Register::Rdi, at + "rdi"@.len()))
    } else if has_word(s, at, "rbp"@) {
        Some((Register::Rbp, at + "rbp"@.len()))
    } else if has_word(s, at, "rsp"@) {
        Some((Register::Rsp, at + "rsp"@.len()))
    } else if has_word(s, at, "r8"@) {
        Some((Register::R8, at + "r8"@.len()))
    } else if has_word(s, at, "r9"@) {
        Some((Register::R9, at + "r9"@.len()))
    } else if has_word(s, at, "r10"@) {
        Some((Register::R10, at + "r10"@.len()))
    } else if has_word(s, at, "r11"@) {
        Some((Register::R11, at + "r11"@.len()))
    } else if has_word(s, at, "r12"@) {
        Some((Register::R12, at + "r12"@.len()))
    } else if has_word(s, at, "r13"@) {
        Some((Register::R13, at + "r13"@.len()))
    } else if has_word(s, at, "r14"@) {
        Some((Register::R14, at + "r14"@.len()))
    } else if has_word(s, at, "r15"@) {
        Some((Register::R15, at + "r15"@.len()))
    } else {
        None
    }
}

/// A decimal immediate at `at`: a run of digits that writes a number of at
/// most `i32::MAX`.
pub open spec fn immediate_at(s: Seq<u8>, at: int) -> Option<(i32, int)> {
    match decimal_at(s, at, 0x7fff_ffff) {
        Some((value, end)) => Some((value as i32, end)),
        None => None,
    }
}

/// An XMM register at `at`: `xmm` and a run of digits that writes a number
/// of at most 15. A higher index is no operand.
pub open spec fn xmm_register_at(s: Seq<u8>, at: int) -> Option<(u8, int)> {
    match word_at(s, at, "xmm"@) {
        Some(digits) => match decimal_at(s, digits, 15) {
            Some((value, end)) => Some((value as u8, end)),
            None => None,
        },
        None => None,
    }
}

/// An operand at `at`: a register, an immediate or an XMM register.
pub open spec fn operand_at(s: Seq<u8>, at: int) -> Option<(Operand, int)> {
    match register_at(s, at) {
        Some((r, end)) => Some((Operand::Register(r), end)),
        None => match immediate_at(s, at) {
            Some((v, end)) => Some((Operand::Immediate(v), end)),
            None => match xmm_register_at(s, at) {
                Some((x, end)) => Some((Operand::XmmRegister(x), end)),
                None => None,
            },
        },
    }
}

/// The position at which a second operand may begin after the first ended
/// at `at`: blanks, an optional comma, and blanks again are passed over.
pub open spec fn after_separator(s: Seq<u8>, at: int) -> int {
    let comma = skip_spaces(s, at);
    if 0 <= comma < s.len() && s[comma] == 0x2c {
        skip_spaces(s, comma + 1)
    } else {
        comma
    }
}

/// Up to two operands after a mnemonic that ended at `at`, with the position
/// after them. The first operand needs at least one blank before it; the
/// blanks after the last operand are passed over. Where no operand follows,
/// nothing is consumed.
pub open spec fn operands_at(s: Seq<u8>, at: int) -> (Seq<Operand>, int) {
    let start = skip_spaces(s, at);
    if start > at {
        match operand_at(s, start) {
            Some((one, end_one)) => match operand_at(s, after_separator(s, end_one)) {
                Some((two, end_two)) => (seq![one, two], skip_spaces(s, end_two)),
                None => (seq![one], skip_spaces(s, end_one)),
            },
            None => (Seq::empty(), at),
        }
    } else {
        (Seq::empty(), at)
    }
}

/// The instruction that a line begins with, after any leading blanks, and
/// the position after it.
pub open spec fn instruction_at(s: Seq<u8>) -> Result<(InstructionView, int), ParseError> {
    let start = skip_spaces(s, 0);
    match mnemonic_at(s, start) {
        Some((kind, end)) => {
            let (operands, rest) = operands_at(s, end);
            Ok((InstructionView { kind, operands }, rest))
        },
        None => Err(ParseError { position: start as usize, kind: ParseErrorKind::Unrecognized }),
    }
}

/// The register query that a line begins with: a register name, directly
/// followed by `-h` for the readable form.
pub open spec fn register_query_at(s: Seq<u8>) -> Option<(InputView, int)> {
    match register_at(s, 0) {
        Some((register, end)) => match word_at(s, end, "-h"@) {
            Some(rest) => Some(
                (
                    InputView::Register(register, RegisterDisplayOptions { human_readable: true }),
                    rest,
                ),
            ),
            None => Some(
                (
                    InputView::Register(register, RegisterDisplayOptions { human_readable: false }),
                    end,
                ),
            ),
        },
        None => None,
    }
}

/// The size option of a memory command after position `at`: blanks, `-s` or
/// `--size`, optional blanks, and a decimal number that fits in `usize`.
pub open spec fn size_option_at(s: Seq<u8>, at: int) -> Option<(usize, int)> {
    let flag = skip_spaces(s, at);
    if flag > at {
        match first(word_at(s, flag, "--size"@), word_at(s, flag, "-s"@)) {
            Some(end) => match decimal_at(s, skip_spaces(s, end), usize::MAX as nat) {
                Some((value, rest)) => Some((value as usize, rest)),
                None => None,
            },
            None => None,
        }
    } else {
        None
    }
}

/// The format option of a memory command after position `at`: blanks and
/// one of `-x`, `--hex`, `-d`, `--decimal`.
pub open spec fn format_option_at(s: Seq<u8>, at: int) -> Option<(MemoryDumpFormat, int)> {
    let flag = skip_spaces(s, at);
    if flag > at {
        match first(word_at(s, flag, "--hex"@), word_at(s, flag, "-x"@)) {
            Some(end) => Some((MemoryDumpFormat::Hex, end)),
            None => match first(word_at(s, flag, "--decimal"@), word_at(s, flag, "-d"@)) {
                Some(end) => Some((MemoryDumpFormat::Decimal, end)),
                None => None,
            },
        }
    } else {
        None
    }
}

/// The memory command that a line begins with: `memory`, blanks, `0x` and a
/// hexadecimal address, then the size option and the format option, each of
/// which may be missing. The size is 16 and the format hexadecimal unless
/// the line says otherwise.
pub open spec fn memory_command_at(s: Seq<u8>) -> Result<(MemoryDumpOptions, int), ParseError> {
    match word_at(s, 0, "memory"@) {
        None => Err(ParseError { position: 0, kind: ParseErrorKind::Unrecognized }),
        Some(keyword_end) => {
            let prefix = skip_spaces(s, keyword_end);
            if prefix == keyword_end {
                Err(ParseError { position: prefix as usize, kind: ParseErrorKind::ExpectedSpace })
            } else {
                match word_at(s, prefix, "0x"@) {
                    None => Err(
                        ParseError {
                            position: prefix as usize,
                            kind: ParseErrorKind::ExpectedAddress,
                        },
                    ),
                    Some(digits) => match hex_at(s, digits) {
                        None => Err(
                            ParseError {
                                position: digits as usize,
                                kind: ParseErrorKind::ExpectedAddress,
                            },
                        ),
                        Some((None, _)) => Err(
                            ParseError {
                                position: prefix as usize,
                                kind: ParseErrorKind::AddressTooLarge,
                            },
                        ),
                        Some((Some(address), address_end)) => {
                            let (size, size_end) = match size_option_at(s, address_end) {
                                Some((size, end)) => (size, end),
                                None => (16usize, address_end),
                            };
                            let (format, end) = match format_option_at(s, size_end) {
                                Some((format, end)) => (format, end),
                                None => (MemoryDumpFormat::Hex, size_end),
                            };
                            Ok((MemoryDumpOptions { address, size, format }, end))
                        },
                    },
                }
            }
        },
    }
}

/// What a line is: an instruction, else a register query, else a memory
/// command, with the position after what was recognized.
pub open spec fn input_at(s: Seq<u8>) -> Result<(InputView, int), ParseError> {
    match instruction_at(s) {
        Ok((instruction, end)) => Ok((InputView::Instruction(instruction), end)),
        Err(_) => match register_query_at(s) {
            Some(found) => Ok(found),
            None => match memory_command_at(s) {
                Ok((options, end)) => Ok((InputView::Memory(options), end)),
                Err(e) => Err(e),
            },
        },
    }
}

/// The data-movement and arithmetic mnemonics.
fn parse_arithmetic_instructions(input: &[u8], at: usize) -> (r: Option<(InstructionType, usize)>)
    ensures
        at_int(r) == arithmetic_mnemonic_at(input@, at as int),
        r is Some ==> at <= r->Some_0.1 <= input@.len(),
{
    match word(input, at, "mov") {
        Some(end) => {
            return Some((InstructionType::Mov, end));
        },
        None => {},
    }
    match word(input, at, "add") {
        Some(end) => {
            return Some((InstructionType::Add, end));
        },
        None => {},
    }
    match word(input, at, "sub") {
        Some(end) => {
            return Some((InstructionType::Sub, end));
        },
        None => {},
    }
    match word(input, at, "inc") {
        Some(end) => {
            return Some((InstructionType::Inc, end));
        },
        None => {},
    }
    match word(input, at, "dec") {
        Some(end) => {
            return Some((InstructionType::Dec, end));
        },
        None => {},
    }
    match word(input, at, "neg") {
        Some(end) => {
            return Some((InstructionType::Neg, end));
        },
        None => {},
    }
    None
}

/// The bitwise mnemonics.
fn parse_logic_instructions(input: &[u8], at: usize) -> (r: Option<(InstructionType, usize)>)
    ensures
        at_int(r) == logic_mnemonic_at(input@, at as int),
        r is Some ==> at <= r->Some_0.1 <= input@.len(),
{
    match word(input, at, "and") {
        Some(end) => {
            return Some((InstructionType::And, end));
        },
        None => {},
    }
    match word(input, at, "or") {
        Some(end) => {
            return Some((InstructionType::Or, end));
        },
        None => {},
    }
    match word(input, at, "xor") {
        Some(end) => {
            return Some((InstructionType::Xor, end));
        },
        None => {},
    }
    match word(input, at, "not") {
        Some(end) => {
            return Some((InstructionType::Not, end));
        },
        None => {},
    }
    None
}

/// The shift and rotate mnemonics.
fn parse_shift_rotate_instructions(input: &[u8], at: usize) -> (r: Option<(InstructionType, usize)>)
    ensures
        at_int(r) == shift_rotate_mnemonic_at(input@, at as int),
        r is Some ==> at <= r->Some_0.1 <= input@.len(),
{
    match word(input, at, "shl") {
        Some(end) => {
            return Some((InstructionType::Shl, end));
        },
        None => {},
    }
    match word(input, at, "shr") {
        Some(end) => {
            return Some((InstructionType::Shr, end));
        },
        None => {},
    }
    match word(input, at, "rol") {
        Some(end) => {
            return Some((InstructionType::Rol, end));
        },
        None => {},
    }
    match word(input, at, "ror") {
        Some(end) => {
            return Some((InstructionType::Ror, end));
        },
        None => {},
    }
    None
}

/// The stack mnemonics.
fn parse_stack_instructions(input: &[u8], at: usize) -> (r: Option<(InstructionType, usize)>)
    ensures
        at_int(r) == stack_mnemonic_at(input@, at as int),
        r is Some ==> at <= r->Some_0.1 <= input@.len(),
{
    match word(input, at, "push") {
        Some(end) => {
            return Some((InstructionType::Push, end));
        },
        None => {},
    }
    match word(input, at, "pop") {
        Some(end) => {
            return Some((InstructionType::Pop, end));
        },
        None => {},
    }
    None
}

/// The comparison mnemonics.
fn parse_compare_instructions(input: &[u8], at: usize) -> (r: Option<(InstructionType, usize)>)
    ensures
        at_int(r) == compare_mnemonic_at(input@, at as int),
        r is Some ==> at <= r->Some_0.1 <= input@.len(),
{
    match word(input, at, "cmp") {
        Some(end) => {
            return Some((InstructionType::Cmp, end));
        },
        None => {},
    }
    match word(input, at, "test") {
        Some(end) => {
            return Some((InstructionType::Test, end));
        },
        None => {},
    }
    None
}

/// The branch mnemonics. Where one spelling begins another, the longer is tried first.
fn parse_jump_instructions(input: &[u8], at: usize) -> (r: Option<(InstructionType, usize)>)
    ensures
        at_int(r) == jump_mnemonic_at(input@, at as int),
        r is Some ==> at <= r->Some_0.1 <= input@.len(),
{
    match word(input, at, "jmp") {
        Some(end) => {
            return Some((InstructionType::Jmp, end));
        },
        None => {},
    }
    match word(input, at, "jne") {
        Some(end) => {
            return Some((InstructionType::Jne, end));
        },
        None => {},
    }
    match word(input, at, "je") {
        Some(end) => {
            return Some((InstructionType::Je, end));
        },
        None => {},
    }
    match word(input, at, "jge") {
        Some(end) => {
            return Some((InstructionType::Jge, end));
        },
        None => {},
    }
    match word(input, at, "jg") {
        Some(end) => {
            return Some((InstructionType::Jg, end));
        },
        None => {},
    }
    match word(input, at, "jle") {
        Some(end) => {
            return Some((InstructionType::Jle, end));
        },
        None => {},
    }
    match word(input, at, "jl") {
        Some(end) => {
            return Some((InstructionType::Jl, end));
        },
        None => {},
    }
    None
}

/// The call and return mnemonics.
fn parse_call_ret_instructions(input: &[u8], at: usize) -> (r: Option<(InstructionType, usize)>)
    ensures
        at_int(r) == call_ret_mnemonic_at(input@, at as int),
        r is Some ==> at <= r->Some_0.1 <= input@.len(),
{
    match word(input, at, "call") {
        Some(end) => {
            return Some((InstructionType::Call, end));
        },
        None => {},
    }
    match word(input, at, "ret") {
        Some(end) => {
            return Some((InstructionType::Ret, end));
        },
        None => {},
    }
    None
}

/// The packed-integer, bit-scan and conditional-move mnemonics.
fn parse_advanced_instructions(input: &[u8], at: usize) -> (r: Option<(InstructionType, usize)>)
    ensures
        at_int(r) == advanced_mnemonic_at(input@, at as int),
        r is Some ==> at <= r->Some_0.1 <= input@.len(),
{
    match word(input, at, "paddd") {
        Some(end) => {
            return Some((InstructionType::Paddd, end));
        },
        None => {},
    }
    match word(input, at, "bsf") {
        Some(end) => {
            return Some((InstructionType::Bsf, end));
        },
        None => {},
    }
    match word(input, at, "cmovne") {
        Some(end) => {
            return Some((InstructionType::Cmovne, end));
        },
        None => {},
    }
    None
}

/// Reads the mnemonic at `at`.
fn parse_instruction_type(input: &[u8], at: usize) -> (r: Option<(InstructionType, usize)>)
    ensures
        at_int(r) == mnemonic_at(input@, at as int),
        r is Some ==> at <= r->Some_0.1 <= input@.len(),
{
    let found = parse_arithmetic_instructions(input, at);
    if found.is_some() {
        return found;
    }
    let found = parse_logic_instructions(input, at);
    if found.is_some() {
        return found;
    }
    let found = parse_shift_rotate_instructions(input, at);
    if found.is_some() {
        return found;
    }
    let found = parse_stack_instructions(input, at);
    if found.is_some() {
        return found;
    }
    let found = parse_compare_instructions(input, at);
    if found.is_some() {
        return found;
    }
    let found = parse_jump_instructions(input, at);
    if found.is_some() {
        return found;
    }
    let found = parse_call_ret_instructions(input, at);
    if found.is_some() {
        return found;
    }
    parse_advanced_instructions(input, at)
}

/// Reads the register name at `at`.
fn register(input: &[u8], at: usize) -> (r: Option<(Register, usize)>)
    ensures
        at_int(r) == register_at(input@, at as int),
        r is Some ==> at <= r->Some_0.1 <= input@.len(),
{
    match word(input, at, "rax") {
        Some(end) => {
            return Some((Register::Rax, end));
        },
        None => {},
    }
    match word(input, at, "rbx") {
        Some(end) => {
            return Some((Register::Rbx, end));
        },
        None => {},
    }
    match word(input, at, "rcx") {
        Some(end) => {
            return Some((Register::Rcx, end));
        },
        None => {},
    }
    match word(input, at, "rdx") {
        Some(end) => {
            return Some((Register::Rdx, end));
        },
        None => {},
    }
    match word(input, at, "rsi") {
        Some(end) => {
            return Some((Register::Rsi, end));
        },
        None => {},
    }
    match word(input, at, "rdi") {
        Some(end) => {
            return Some((Register::Rdi, end));
        },
        None => {},
    }
    match word(input, at, "rbp") {
        Some(end) => {
            return Some((Register::Rbp, end));
        },
        None => {},
    }
    match word(input, at, "rsp") {
        Some(end) => {
            return Some((Register::Rsp, end));
        },
        None => {},
    }
    match word(input, at, "r8") {
        Some(end) => {
            return Some((Register::R8, end));
        },
        None => {},
    }
    match word(input, at, "r9") {
        Some(end) => {
            return Some((Register::R9, end));
        },
        None => {},
    }
    match word(input, at, "r10") {
        Some(end) => {
            return Some((Register::R10, end));
        },
        None => {},
    }
    match word(input, at, "r11") {
        Some(end) => {
            return Some((Register::R11, end));
        },
        None => {},
    }
    match word(input, at, "r12") {
        Some(end) => {
            return Some((Register::R12, end));
        },
        None => {},
    }
    match word(input, at, "r13") {
        Some(end) => {
            return Some((Register::R13, end));
        },
        None => {},
    }
    match word(input, at, "r14") {
        Some(end) => {
            return Some((Register::R14, end));
        },
        None => {},
    }
    match word(input, at, "r15") {
        Some(end) => {
            return Some((Register::R15, end));
        },
        None => {},
    }
    None
}

/// Reads the decimal immediate at `at`.
fn immediate(input: &[u8], at: usize) -> (r: Option<(i32, usize)>)
    requires
        at <= input@.len(),
    ensures
        at_int(r) == immediate_at(input@, at as int),
        r is Some ==> at <= r->Some_0.1 <= input@.len(),
{
    match decimal(input, at, 0x7fff_ffff) {
        Some((value, end)) => Some((value as i32, end)),
        None => None,
    }
}

/// Reads the XMM register at `at`.
fn xmm_register(input: &[u8], at: usize) -> (r: Option<(u8, usize)>)
    ensures
        at_int(r) == xmm_register_at(input@, at as int),
        r is Some ==> at <= r->Some_0.1 <= input@.len(),
{
    match word(input, at, "xmm") {
        Some(digits) => match decimal(input, digits, 15) {
            Some((value, end)) => Some((value as u8, end)),
            None => None,
        },
        None => None,
    }
}

/// Reads the operand at `at`.
fn operand(input: &[u8], at: usize) -> (r: Option<(Operand, usize)>)
    requires
        at <= input@.len(),
    ensures
        at_int(r) == operand_at(input@, at as int),
        r is Some ==> at <= r->Some_0.1 <= input@.len(),
{
    match register(input, at) {
        Some((r, end)) => Some((Operand::Register(r), end)),
        None => match immediate(input, at) {
            Some((v, end)) => Some((Operand::Immediate(v), end)),
            None => match xmm_register(input, at) {
                Some((x, end)) => Some((Operand::XmmRegister(x), end)),
                None => None,
            },
        },
    }
}

/// Passes over what may stand between two operands.
fn separator(input: &[u8], at: usize) -> (end: usize)
    requires
        at <= input@.len(),
    ensures
        end == after_separator(input@, at as int),
        at <= end <= input@.len(),
{
    let comma: usize = spaces(input, at);
    if comma < input.len() && input[comma] == 0x2c {
        spaces(input, comma + 1)
    } else {
        comma
    }
}

/// Reads up to two operands after a mnemonic that ended at `at`.
fn parse_operands(input: &[u8], at: usize) -> (r: (Vec<Operand>, usize))
    requires
        at <= input@.len(),
    ensures
        (r.0@, r.1 as int) == operands_at(input@, at as int),
        at <= r.1 <= input@.len(),
{
    let mut operands: Vec<Operand> = Vec::new();
    let start: usize = spaces(input, at);
    if start == at {
        return (operands, at);
    }
    match operand(input, start) {
        None => (operands, at),
        Some((one, end_one)) => {
            operands.push(one);
            match operand(input, separator(input, end_one)) {
                None => {
                    let rest: usize = spaces(input, end_one);
                    proof {
                        assert(operands@ =~= seq![one]);
                    }
                    (operands, rest)
                },
                Some((two, end_two)) => {
                    operands.push(two);
                    let rest: usize = spaces(input, end_two);
                    proof {
                        assert(operands@ =~= seq![one, two]);
                    }
                    (operands, rest)
                },
            }
        },
    }
}

/// Reads the instruction that the bytes begin with.
fn instruction(input: &[u8]) -> (r: Result<(usize, Instruction), ParseError>)
    ensures
        match instruction_at(input@) {
            Ok((view, end)) => r is Ok && r->Ok_0.0 == end && r->Ok_0.1@ == view,
            Err(e) => r is Err && r->Err_0 == e,
        },
        r is Ok ==> r->Ok_0.0 <= input@.len(),
{
    let start: usize = spaces(input, 0);
    match parse_instruction_type(input, start) {
        None => Err(ParseError { position: start, kind: ParseErrorKind::Unrecognized }),
        Some((instruction_type, end)) => {
            let (operands, rest) = parse_operands(input, end);
            Ok((rest, Instruction { instruction_type, operands }))
        },
    }
}

/// Reads a decimal number that fits in `usize`.
fn usize_decimal(input: &[u8], at: usize) -> (r: Option<(usize, usize)>)
    requires
        at <= input@.len(),
    ensures
        at_int(r) == (match decimal_at(input@, at as int, usize::MAX as nat) {
            Some((value, end)) => Some((value as usize, end)),
            None => None,
        }),
        r is Some ==> at <= r->Some_0.1 <= input@.len(),
{
    match decimal(input, at, usize::MAX as u64) {
        Some((value, end)) => Some((value as usize, end)),
        None => None,
    }
}

/// Reads the size option of a memory command.
fn size_option(input: &[u8], at: usize) -> (r: Option<(usize, usize)>)
    requires
        at <= input@.len(),
    ensures
        at_int(r) == size_option_at(input@, at as int),
        r is Some ==> at <= r->Some_0.1 <= input@.len(),
{
    let flag: usize = spaces(input, at);
    if flag == at {
        return None;
    }
    let end = match word(input, flag, "--size") {
        Some(end) => Some(end),
        None => word(input, flag, "-s"),
    };
    match end {
        Some(end) => usize_decimal(input, spaces(input, end)),
        None => None,
    }
}

/// Reads the format option of a memory command.
fn format_option(input: &[u8], at: usize) -> (r: Option<(MemoryDumpFormat, usize)>)
    requires
        at <= input@.len(),
    ensures
        at_int(r) == format_option_at(input@, at as int),
        r is Some ==> at <= r->Some_0.1 <= input@.len(),
{
    let flag: usize = spaces(input, at);
    if flag == at {
        return None;
    }
    let hex = match word(input, flag, "--hex") {
        Some(end) => Some(end),
        None => word(input, flag, "-x"),
    };
    match hex {
        Some(end) => Some((MemoryDumpFormat::Hex, end)),
        None => {
            let dec = match word(input, flag, "--decimal") {
                Some(end) => Some(end),
                None => word(input, flag, "-d"),
            };
            match dec {
                Some(end) => Some((MemoryDumpFormat::Decimal, end)),
                None => None,
            }
        },
    }
}

/// Reads the memory command that the bytes begin with.
fn memory_command(input: &[u8]) -> (r: Result<(usize, MemoryDumpOptions), ParseError>)
    ensures
        match r {
            Ok((end, options)) => memory_command_at(input@) == Ok::<
                (MemoryDumpOptions, int),
                ParseError,
            >((options, end as int)) && end <= input@.len(),
            Err(e) => memory_command_at(input@) == Err::<(MemoryDumpOptions, int), ParseError>(e),
        },
{
    let keyword_end: usize = match word(input, 0, "memory") {
        Some(end) => end,
        None => {
            return Err(ParseError { position: 0, kind: ParseErrorKind::Unrecognized });
        },
    };
    let prefix: usize = spaces(input, keyword_end);
    if prefix == keyword_end {
        return Err(ParseError { position: prefix, kind: ParseErrorKind::ExpectedSpace });
    }
    let digits: usize = match word(input, prefix, "0x") {
        Some(end) => end,
        None => {
            return Err(ParseError { position: prefix, kind: ParseErrorKind::ExpectedAddress });
        },
    };
    let (address, address_end) = match hexadecimal(input, digits) {
        None => {
            return Err(ParseError { position: digits, kind: ParseErrorKind::ExpectedAddress });
        },
        Some((None, _)) => {
            return Err(ParseError { position: prefix, kind: ParseErrorKind::AddressTooLarge });
        },
        Some((Some(address), end)) => (address, end),
    };
    let (size, size_end) = match size_option(input, address_end) {
        Some((size, end)) => (size, end),
        None => (16usize, address_end),
    };
    let (format, end) = match format_option(input, size_end) {
        Some((format, end)) => (format, end),
        None => (MemoryDumpFormat::Hex, size_end),
    };
    Ok((end, MemoryDumpOptions { address, size, format }))
}

/// Parses the instruction that a line begins with: optional blanks, a
/// mnemonic, and up to two operands. Returns the instruction and the byte
/// offset at which the unread rest of the line begins. The only failure is
/// a line that does not begin with a mnemonic. Whether the operands fit the
/// mnemonic is not looked at here.
pub fn parse_instruction(input: &str) -> (r: Result<(usize, Instruction), ParseError>)
    ensures
        match instruction_at(input.spec_bytes()) {
            Ok((view, end)) => r is Ok && r->Ok_0.0 == end && r->Ok_0.1@ == view,
            Err(e) => r is Err && r->Err_0 == e,
        },
        r is Ok ==> r->Ok_0.0 <= input.spec_bytes().len(),
{
    instruction(input.as_bytes())
}

/// Parses a line as an instruction, else as a register query, else as a
/// memory command. Returns what was recognized and the byte offset at
/// which the unread rest of the line begins.
pub fn parse_input(input: &str) -> (r: Result<(usize, InputType), ParseError>)
    ensures
        match input_at(input.spec_bytes()) {
            Ok((view, end)) => r is Ok && r->Ok_0.0 == end && r->Ok_0.1@ == view,
            Err(e) => r is Err && r->Err_0 == e,
        },
        r is Ok ==> r->Ok_0.0 <= input.spec_bytes().len(),
{
    let bytes = input.as_bytes();
    match instruction(bytes) {
        Ok((end, found)) => Ok((end, InputType::Instruction(found))),
        Err(_) => match register(bytes, 0) {
            Some((found, end)) => match word(bytes, end, "-h") {
                Some(rest) => Ok(
                    (
                        rest,
                        InputType::Register(found, RegisterDisplayOptions { human_readable: true }),
                    ),
                ),
                None => Ok(
                    (
                        end,
                        InputType::Register(found, RegisterDisplayOptions { human_readable: false }),
                    ),
                ),
            },
            None => match memory_command(bytes) {
                Ok((end, options)) => Ok((end, InputType::Memory(options))),
                Err(e) => Err(e),
            },
        },
    }
}

} // verus!
