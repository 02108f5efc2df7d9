//! The adapter from instructions to machine code. It checks that the
//! operands fit the mnemonic, hands the instruction to the encoder in its
//! 64-bit form, and returns the bytes or the error as text.

use crate::encoder::{
    assemble, assembled, bare, bitness_of, error_text, gpr64_handle, held_gpr, held_xmm,
    message_of, new_assembler, queued, refusal_of, settled, with_one, with_two, xmm_handle,
    Encoded, Queued,
};
use crate::encoder::{
    queue_add_imm, queue_add_reg, queue_and_imm, queue_and_reg, queue_bsf, queue_call,
    queue_cmovne, queue_cmp_imm, queue_cmp_reg, queue_dec, queue_inc, queue_je, queue_jg,
    queue_jge, queue_jl, queue_jle, queue_jmp, queue_jne, queue_mov_imm, queue_mov_reg,
    queue_neg, queue_not, queue_or_imm, queue_or_reg, queue_paddd, queue_pop, queue_push,
    queue_ret, queue_rol, queue_ror, queue_shl, queue_shr, queue_sub_imm, queue_sub_reg,
    queue_test_imm, queue_test_reg, queue_xor_imm, queue_xor_reg,
};
use crate::cpu::extend;
use crate::parser::{
    shape_of, Instruction, InstructionType, InstructionView, Operand, Register, Shape,
};
use crate::semantics::sign_extend;
use iced_x86::code_asm::{AsmRegister64, AsmRegisterXmm, CodeAssembler};
use iced_x86::IcedError;
use vstd::prelude::*;

verus! {

/// The number under which the encoder knows a general-purpose register:
/// its number in the machine code.
pub open spec fn encoder_number(reg: Register) -> u8 {
    match reg {
        Register::Rax => 0,
        Register::Rcx => 1,
        Register::Rdx => 2,
        Register::Rbx => 3,
        Register::Rsp => 4,
        Register::Rbp => 5,
        Register::Rsi => 6,
        Register::Rdi => 7,
        Register::R8 => 8,
        Register::R9 => 9,
        Register::R10 => 10,
        Register::R11 => 11,
        Register::R12 => 12,
        Register::R13 => 13,
        Register::R14 => 14,
        Register::R15 => 15,
    }
}

/// The encoder's handle for a general-purpose register.
pub(crate) fn parser_register_to_asm_register64(reg: &Register) -> (handle: AsmRegister64)
    ensures
        held_gpr(handle) == encoder_number(*reg),
{
    let number: u8 = match reg {
        Register::Rax => 0,
        Register::Rcx => 1,
        Register::Rdx => 2,
        Register::Rbx => 3,
        Register::Rsp => 4,
        Register::Rbp => 5,
        Register::Rsi => 6,
        Register::Rdi => 7,
        Register::R8 => 8,
        Register::R9 => 9,
        Register::R10 => 10,
        Register::R11 => 11,
        Register::R12 => 12,
        Register::R13 => 13,
        Register::R14 => 14,
        Register::R15 => 15,
    };
    gpr64_handle(number).unwrap()
}

/// The operands as the adapter gives them to the encoder. Immediates keep
/// their value; branch and call targets are the immediate sign-extended to
/// an absolute 64-bit address.
pub open spec fn request(kind: InstructionType, shape: Shape) -> Queued {
    match shape {
        Shape::Bare => bare(kind),
        Shape::Reg(r) => with_one(kind, Encoded::Gpr(encoder_number(r))),
        Shape::Imm(v) => with_one(kind, Encoded::Immediate(sign_extend(v) as int)),
        Shape::RegReg(d, s) => with_two(
            kind,
            Encoded::Gpr(encoder_number(d)),
            Encoded::Gpr(encoder_number(s)),
        ),
        Shape::RegImm(d, v) => with_two(
            kind,
            Encoded::Gpr(encoder_number(d)),
            Encoded::Immediate(v as int),
        ),
        Shape::XmmXmm(d, s) => with_two(kind, Encoded::Xmm(d), Encoded::Xmm(s)),
    }
}

/// The instruction as the encoder holds it once it has taken it: the
/// [`request`], but for the count of a shift or rotation, of which the
/// instruction keeps one byte.
pub open spec fn queue_item(kind: InstructionType, shape: Shape) -> Queued {
    match shape {
        Shape::RegImm(d, v) => if kind.takes_register_and_count() {
            with_two(kind, Encoded::Gpr(encoder_number(d)), Encoded::Immediate(v as int % 256))
        } else {
            request(kind, shape)
        },
        _ => request(kind, shape),
    }
}

/// The encoder's answer to a request: `None` when it takes the instruction,
/// else the text of its error. Registers alone, and no operand at all, are
/// always taken; with an immediate or a target the answer is the encoder's.
pub open spec fn refusal(bitness: u32, kind: InstructionType, shape: Shape) -> Option<Seq<char>> {
    match shape {
        Shape::Imm(_) | Shape::RegImm(_, _) => refusal_of(bitness, request(kind, shape)),
        _ => None,
    }
}

/// The message for an instruction whose operands do not fit its mnemonic.
pub open spec fn shape_error(i: InstructionView) -> Seq<char> {
    match i.kind {
        InstructionType::Mov => if i.operands.len() != 2 {
            "MOV instruction requires exactly two operands"@
        } else {
            "Invalid operands for mov instruction"@
        },
        InstructionType::Add => "Invalid operands for add instruction"@,
        InstructionType::Sub => "Invalid operands for sub instruction"@,
        InstructionType::And => "Invalid operands for and instruction"@,
        InstructionType::Or => "Invalid operands for or instruction"@,
        InstructionType::Xor => "Invalid operands for xor instruction"@,
        InstructionType::Inc => "Invalid operand for inc instruction"@,
        InstructionType::Dec => "Invalid operand for dec instruction"@,
        InstructionType::Neg => "Invalid operand for neg instruction"@,
        InstructionType::Not => "Invalid operand for not instruction"@,
        InstructionType::Shl => "Invalid operands for shl instruction"@,
        InstructionType::Shr => "Invalid operands for shr instruction"@,
        InstructionType::Rol => "Invalid operands for rol instruction"@,
        InstructionType::Ror => "Invalid operands for ror instruction"@,
        InstructionType::Push => "Invalid operand for push instruction"@,
        InstructionType::Pop => "Invalid operand for pop instruction"@,
        InstructionType::Cmp => "Invalid operands for cmp instruction"@,
        InstructionType::Test => "Invalid operands for test instruction"@,
        InstructionType::Jmp => "Invalid operand for jmp instruction"@,
        InstructionType::Je => "Invalid operand for je instruction"@,
        InstructionType::Jne => "Invalid operand for jne instruction"@,
        InstructionType::Jg => "Invalid operand for jg instruction"@,
        InstructionType::Jge => "Invalid operand for jge instruction"@,
        InstructionType::Jl => "Invalid operand for jl instruction"@,
        InstructionType::Jle => "Invalid operand for jle instruction"@,
        InstructionType::Call => "Invalid operand for call instruction"@,
        InstructionType::Ret => "Invalid operands for ret instruction"@,
        InstructionType::Paddd => if i.operands.len() != 2 {
            "PADDD instruction requires exactly two operands"@
        } else {
            match (i.operands[0], i.operands[1]) {
                (Operand::XmmRegister(d), Operand::XmmRegister(s)) => if d >= 16 {
                    "Invalid destination XMM register"@
                } else {
                    "Invalid source XMM register"@
                },
                _ => "Invalid operands for paddd instruction"@,
            }
        },
        InstructionType::Bsf => if i.operands.len() != 2 {
            "BSF instruction requires exactly two operands"@
        } else {
            "Invalid operands for bsf instruction"@
        },
        InstructionType::Cmovne => if i.operands.len() != 2 {
            "CMOVNE instruction requires exactly two operands"@
        } else {
            "Invalid operands for cmovne instruction"@
        },
    }
}

/// What handing `i` to an assembler gives. Operands that do not fit the
/// mnemonic give the message of [`shape_error`] and add nothing. Otherwise
/// the instruction of [`queue_item`] is added, unless the encoder refuses
/// the [`request`], and then the error is the encoder's text and nothing is
/// added.
pub open spec fn queue_outcome(
    before: CodeAssembler,
    after: CodeAssembler,
    i: InstructionView,
    r: Result<(), String>,
) -> bool {
    &&& settled(after)
    &&& bitness_of(after) == bitness_of(before)
    &&& match shape_of(i) {
        None => r is Err && r->Err_0@ == shape_error(i) && queued(after) == queued(before),
        Some(shape) => match r {
            Ok(_) => refusal(bitness_of(before), i.kind, shape) is None && queued(after)
                == queued(before).push(queue_item(i.kind, shape)),
            Err(text) => refusal(bitness_of(before), i.kind, shape) == Some(text@) && queued(
                after,
            ) == queued(before),
        },
    }
}

/// The machine code of a well-formed instruction: what the encoder makes of
/// it alone, in 64-bit mode, at base address 0, or the text of the error
/// with which the encoder refuses it.
pub open spec fn encoding(kind: InstructionType, shape: Shape) -> Result<Seq<u8>, Seq<char>> {
    match refusal(64, kind, shape) {
        Some(text) => Err(text),
        None => assembled(64, seq![queue_item(kind, shape)], 0),
    }
}

/// The result of assembling an instruction: the message of [`shape_error`]
/// where the operands do not fit the mnemonic, else the [`encoding`].
pub open spec fn assembly_of(i: InstructionView) -> Result<Seq<u8>, Seq<char>> {
    match shape_of(i) {
        None => Err(shape_error(i)),
        Some(shape) => encoding(i.kind, shape),
    }
}

/// The bytes or the text of a result.
pub open spec fn assembled_view(r: Result<Vec<u8>, String>) -> Result<Seq<u8>, Seq<char>> {
    match r {
        Ok(bytes) => Ok(bytes@),
        Err(text) => Err(text@),
    }
}

/// Turns the encoder's error into its text.
pub(crate) fn surfaced(r: Result<(), IcedError>) -> (s: Result<(), String>)
    ensures
        r is Ok <==> s is Ok,
        r is Err ==> s->Err_0@ == message_of(r->Err_0),
{
    match r {
        Ok(()) => Ok(()),
        Err(e) => Err(error_text(&e)),
    }
}

/// The handle of the XMM register with the given index, for an index below
/// sixteen.
fn xmm_index_to_register(index: u8) -> (handle: Option<AsmRegisterXmm>)
    ensures
        handle is Some <==> index < 16,
        handle is Some ==> held_xmm(handle->Some_0) == index,
{
    if index < 16 {
        xmm_handle(index)
    } else {
        None
    }
}

/// Encodes one instruction in its 64-bit form, at base address 0.
pub fn assemble_instruction(instruction: &Instruction) -> (r: Result<Vec<u8>, String>)
    ensures
        assembled_view(r) == assembly_of(instruction@),
{
    let mut assembler = match new_assembler(64) {
        Ok(made) => made,
        Err(e) => {
            return Err(error_text(&e));
        },
    };
    let handed = match instruction.instruction_type {
        InstructionType::Mov => assemble_mov(&mut assembler, instruction),
        InstructionType::Add => assemble_add(&mut assembler, instruction),
        InstructionType::Sub => assemble_sub(&mut assembler, instruction),
        InstructionType::And => assemble_and(&mut assembler, instruction),
        InstructionType::Or => assemble_or(&mut assembler, instruction),
        InstructionType::Xor => assemble_xor(&mut assembler, instruction),
        InstructionType::Inc => assemble_inc(&mut assembler, instruction),
        InstructionType::Dec => assemble_dec(&mut assembler, instruction),
        InstructionType::Neg => assemble_neg(&mut assembler, instruction),
        InstructionType::Not => assemble_not(&mut assembler, instruction),
        InstructionType::Shl => assemble_shl(&mut assembler, instruction),
        InstructionType::Shr => assemble_shr(&mut assembler, instruction),
        InstructionType::Rol => assemble_rol(&mut assembler, instruction),
        InstructionType::Ror => assemble_ror(&mut assembler, instruction),
        InstructionType::Push => assemble_push(&mut assembler, instruction),
        InstructionType::Pop => assemble_pop(&mut assembler, instruction),
        InstructionType::Cmp => assemble_cmp(&mut assembler, instruction),
        InstructionType::Test => assemble_test(&mut assembler, instruction),
        InstructionType::Jmp => assemble_jmp(&mut assembler, instruction),
        InstructionType::Je => assemble_je(&mut assembler, instruction),
        InstructionType::Jne => assemble_jne(&mut assembler, instruction),
        InstructionType::Jg => assemble_jg(&mut assembler, instruction),
        InstructionType::Jge => assemble_jge(&mut assembler, instruction),
        InstructionType::Jl => assemble_jl(&mut assembler, instruction),
        InstructionType::Jle => assemble_jle(&mut assembler, instruction),
        InstructionType::Call => assemble_call(&mut assembler, instruction),
        InstructionType::Ret => assemble_ret(&mut assembler, instruction),
        InstructionType::Paddd => assemble_paddd(&mut assembler, instruction),
        InstructionType::Bsf => assemble_bsf(&mut assembler, instruction),
        InstructionType::Cmovne => assemble_cmovne(&mut assembler, instruction),
    };
    match handed {
        Err(text) => Err(text),
        Ok(()) => match assemble(&mut assembler, 0) {
            Ok(bytes) => Ok(bytes),
            Err(e) => Err(error_text(&e)),
        },
    }
}

/// `MOV`: a register and a register, or a register and an immediate in the
/// 64-bit form.
fn assemble_mov(
    assembler: &mut CodeAssembler,
    instruction: &Instruction,
) -> (r: Result<(), String>)
    requires
        settled(*old(assembler)),
        instruction.instruction_type == InstructionType::Mov,
    ensures
        queue_outcome(*old(assembler), *final(assembler), instruction@, r),
{
    if instruction.operands.len() != 2 {
        return Err("MOV instruction requires exactly two operands".to_owned());
    }
    match instruction.shape() {
        Some(Shape::RegImm(dest, imm)) => {
            let dest_reg = parser_register_to_asm_register64(&dest);
            surfaced(queue_mov_imm(assembler, dest_reg, imm as i64))
        },
        Some(Shape::RegReg(dest, src)) => {
            let dest_reg = parser_register_to_asm_register64(&dest);
            let src_reg = parser_register_to_asm_register64(&src);
            surfaced(queue_mov_reg(assembler, dest_reg, src_reg))
        },
        _ => Err("Invalid operands for mov instruction".to_owned()),
    }
}

/// `ADD`: a register and a register, or a register and a 32-bit immediate.
fn assemble_add(
    assembler: &mut CodeAssembler,
    instruction: &Instruction,
) -> (r: Result<(), String>)
    requires
        settled(*old(assembler)),
        instruction.instruction_type == InstructionType::Add,
    ensures
        queue_outcome(*old(assembler), *final(assembler), instruction@, r),
{
    match instruction.shape() {
        Some(Shape::RegImm(dest, imm)) => {
            let dest_reg = parser_register_to_asm_register64(&dest);
            surfaced(queue_add_imm(assembler, dest_reg, imm))
        },
        Some(Shape::RegReg(dest, src)) => {
            let dest_reg = parser_register_to_asm_register64(&dest);
            let src_reg = parser_register_to_asm_register64(&src);
            surfaced(queue_add_reg(assembler, dest_reg, src_reg))
        },
        _ => Err("Invalid operands for add instruction".to_owned()),
    }
}

/// `SUB`: a register and a register, or a register and a 32-bit immediate.
fn assemble_sub(
    assembler: &mut CodeAssembler,
    instruction: &Instruction,
) -> (r: Result<(), String>)
    requires
        settled(*old(assembler)),
        instruction.instruction_type == InstructionType::Sub,
    ensures
        queue_outcome(*old(assembler), *final(assembler), instruction@, r),
{
    match instruction.shape() {
        Some(Shape::RegImm(dest, imm)) => {
            let dest_reg = parser_register_to_asm_register64(&dest);
            surfaced(queue_sub_imm(assembler, dest_reg, imm))
        },
        Some(Shape::RegReg(dest, src)) => {
            let dest_reg = parser_register_to_asm_register64(&dest);
            let src_reg = parser_register_to_asm_register64(&src);
            surfaced(queue_sub_reg(assembler, dest_reg, src_reg))
        },
        _ => Err("Invalid operands for sub instruction".to_owned()),
    }
}

/// `AND`: a register and a register, or a register and a 32-bit immediate.
fn assemble_and(
    assembler: &mut CodeAssembler,
    instruction: &Instruction,
) -> (r: Result<(), String>)
    requires
        settled(*old(assembler)),
        instruction.instruction_type == InstructionType::And,
    ensures
        queue_outcome(*old(assembler), *final(assembler), instruction@, r),
{
    match instruction.shape() {
        Some(Shape::RegImm(dest, imm)) => {
            let dest_reg = parser_register_to_asm_register64(&dest);
            surfaced(queue_and_imm(assembler, dest_reg, imm))
        },
        Some(Shape::RegReg(dest, src)) => {
            let dest_reg = parser_register_to_asm_register64(&dest);
            let src_reg = parser_register_to_asm_register64(&src);
            surfaced(queue_and_reg(assembler, dest_reg, src_reg))
        },
        _ => Err("Invalid operands for and instruction".to_owned()),
    }
}

/// `OR`: a register and a register, or a register and a 32-bit immediate.
fn assemble_or(
    assembler: &mut CodeAssembler,
    instruction: &Instruction,
) -> (r: Result<(), String>)
    requires
        settled(*old(assembler)),
        instruction.instruction_type == InstructionType::Or,
    ensures
        queue_outcome(*old(assembler), *final(assembler), instruction@, r),
{
    match instruction.shape() {
        Some(Shape::RegImm(dest, imm)) => {
            let dest_reg = parser_register_to_asm_register64(&dest);
            surfaced(queue_or_imm(assembler, dest_reg, imm))
        },
        Some(Shape::RegReg(dest, src)) => {
            let dest_reg = parser_register_to_asm_register64(&dest);
            let src_reg = parser_register_to_asm_register64(&src);
            surfaced(queue_or_reg(assembler, dest_reg, src_reg))
        },
        _ => Err("Invalid operands for or instruction".to_owned()),
    }
}

/// `XOR`: a register and a register, or a register and a 32-bit immediate.
fn assemble_xor(
    assembler: &mut CodeAssembler,
    instruction: &Instruction,
) -> (r: Result<(), String>)
    requires
        settled(*old(assembler)),
        instruction.instruction_type == InstructionType::Xor,
    ensures
        queue_outcome(*old(assembler), *final(assembler), instruction@, r),
{
    match instruction.shape() {
        Some(Shape::RegImm(dest, imm)) => {
            let dest_reg = parser_register_to_asm_register64(&dest);
            surfaced(queue_xor_imm(assembler, dest_reg, imm))
        },
        Some(Shape::RegReg(dest, src)) => {
            let dest_reg = parser_register_to_asm_register64(&dest);
            let src_reg = parser_register_to_asm_register64(&src);
            surfaced(queue_xor_reg(assembler, dest_reg, src_reg))
        },
        _ => Err("Invalid operands for xor instruction".to_owned()),
    }
}

/// `INC`: one register.
fn assemble_inc(
    assembler: &mut CodeAssembler,
    instruction: &Instruction,
) -> (r: Result<(), String>)
    requires
        settled(*old(assembler)),
        instruction.instruction_type == InstructionType::Inc,
    ensures
        queue_outcome(*old(assembler), *final(assembler), instruction@, r),
{
    match instruction.shape() {
        Some(Shape::Reg(reg)) => {
            let asm_reg = parser_register_to_asm_register64(&reg);
            surfaced(queue_inc(assembler, asm_reg))
        },
        _ => Err("Invalid operand for inc instruction".to_owned()),
    }
}

/// `DEC`: one register.
fn assemble_dec(
    assembler: &mut CodeAssembler,
    instruction: &Instruction,
) -> (r: Result<(), String>)
    requires
        settled(*old(assembler)),
        instruction.instruction_type == InstructionType::Dec,
    ensures
        queue_outcome(*old(assembler), *final(assembler), instruction@, r),
{
    match instruction.shape() {
        Some(Shape::Reg(reg)) => {
            let asm_reg = parser_register_to_asm_register64(&reg);
            surfaced(queue_dec(assembler, asm_reg))
        },
        _ => Err("Invalid operand for dec instruction".to_owned()),
    }
}

/// `NEG`: one register.
fn assemble_neg(
    assembler: &mut CodeAssembler,
    instruction: &Instruction,
) -> (r: Result<(), String>)
    requires
        settled(*old(assembler)),
        instruction.instruction_type == InstructionType::Neg,
    ensures
        queue_outcome(*old(assembler), *final(assembler), instruction@, r),
{
    match instruction.shape() {
        Some(Shape::Reg(reg)) => {
            let asm_reg = parser_register_to_asm_register64(&reg);
            surfaced(queue_neg(assembler, asm_reg))
        },
        _ => Err("Invalid operand for neg instruction".to_owned()),
    }
}

/// `NOT`: one register.
fn assemble_not(
    assembler: &mut CodeAssembler,
    instruction: &Instruction,
) -> (r: Result<(), String>)
    requires
        settled(*old(assembler)),
        instruction.instruction_type == InstructionType::Not,
    ensures
        queue_outcome(*old(assembler), *final(assembler), instruction@, r),
{
    match instruction.shape() {
        Some(Shape::Reg(reg)) => {
            let asm_reg = parser_register_to_asm_register64(&reg);
            surfaced(queue_not(assembler, asm_reg))
        },
        _ => Err("Invalid operand for not instruction".to_owned()),
    }
}

/// `SHL`: a register and an immediate count.
fn assemble_shl(
    assembler: &mut CodeAssembler,
    instruction: &Instruction,
) -> (r: Result<(), String>)
    requires
        settled(*old(assembler)),
        instruction.instruction_type == InstructionType::Shl,
    ensures
        queue_outcome(*old(assembler), *final(assembler), instruction@, r),
{
    match instruction.shape() {
        Some(Shape::RegImm(reg, shift)) => {
            let asm_reg = parser_register_to_asm_register64(&reg);
            surfaced(queue_shl(assembler, asm_reg, shift))
        },
        _ => Err("Invalid operands for shl instruction".to_owned()),
    }
}

/// `SHR`: a register and an immediate count.
fn assemble_shr(
    assembler: &mut CodeAssembler,
    instruction: &Instruction,
) -> (r: Result<(), String>)
    requires
        settled(*old(assembler)),
        instruction.instruction_type == InstructionType::Shr,
    ensures
        queue_outcome(*old(assembler), *final(assembler), instruction@, r),
{
    match instruction.shape() {
        Some(Shape::RegImm(reg, shift)) => {
            let asm_reg = parser_register_to_asm_register64(&reg);
            surfaced(queue_shr(assembler, asm_reg, shift))
        },
        _ => Err("Invalid operands for shr instruction".to_owned()),
    }
}

/// `ROL`: a register and an immediate count.
fn assemble_rol(
    assembler: &mut CodeAssembler,
    instruction: &Instruction,
) -> (r: Result<(), String>)
    requires
        settled(*old(assembler)),
        instruction.instruction_type == InstructionType::Rol,
    ensures
        queue_outcome(*old(assembler), *final(assembler), instruction@, r),
{
    match instruction.shape() {
        Some(Shape::RegImm(reg, shift)) => {
            let asm_reg = parser_register_to_asm_register64(&reg);
            surfaced(queue_rol(assembler, asm_reg, shift))
        },
        _ => Err("Invalid operands for rol instruction".to_owned()),
    }
}

/// `ROR`: a register and an immediate count.
fn assemble_ror(
    assembler: &mut CodeAssembler,
    instruction: &Instruction,
) -> (r: Result<(), String>)
    requires
        settled(*old(assembler)),
        instruction.instruction_type == InstructionType::Ror,
    ensures
        queue_outcome(*old(assembler), *final(assembler), instruction@, r),
{
    match instruction.shape() {
        Some(Shape::RegImm(reg, shift)) => {
            let asm_reg = parser_register_to_asm_register64(&reg);
            surfaced(queue_ror(assembler, asm_reg, shift))
        },
        _ => Err("Invalid operands for ror instruction".to_owned()),
    }
}

/// `PUSH`: one register.
fn assemble_push(
    assembler: &mut CodeAssembler,
    instruction: &Instruction,
) -> (r: Result<(), String>)
    requires
        settled(*old(assembler)),
        instruction.instruction_type == InstructionType::Push,
    ensures
        queue_outcome(*old(assembler), *final(assembler), instruction@, r),
{
    match instruction.shape() {
        Some(Shape::Reg(reg)) => {
            let asm_reg = parser_register_to_asm_register64(&reg);
            surfaced(queue_push(assembler, asm_reg))
        },
        _ => Err("Invalid operand for push instruction".to_owned()),
    }
}

/// `POP`: one register.
fn assemble_pop(
    assembler: &mut CodeAssembler,
    instruction: &Instruction,
) -> (r: Result<(), String>)
    requires
        settled(*old(assembler)),
        instruction.instruction_type == InstructionType::Pop,
    ensures
        queue_outcome(*old(assembler), *final(assembler), instruction@, r),
{
    match instruction.shape() {
        Some(Shape::Reg(reg)) => {
            let asm_reg = parser_register_to_asm_register64(&reg);
            surfaced(queue_pop(assembler, asm_reg))
        },
        _ => Err("Invalid operand for pop instruction".to_owned()),
    }
}

/// `CMP`: a register and a register, or a register and a 32-bit immediate.
fn assemble_cmp(
    assembler: &mut CodeAssembler,
    instruction: &Instruction,
) -> (r: Result<(), String>)
    requires
        settled(*old(assembler)),
        instruction.instruction_type == InstructionType::Cmp,
    ensures
        queue_outcome(*old(assembler), *final(assembler), instruction@, r),
{
    match instruction.shape() {
        Some(Shape::RegImm(dest, imm)) => {
            let dest_reg = parser_register_to_asm_register64(&dest);
            surfaced(queue_cmp_imm(assembler, dest_reg, imm))
        },
        Some(Shape::RegReg(dest, src)) => {
            let dest_reg = parser_register_to_asm_register64(&dest);
            let src_reg = parser_register_to_asm_register64(&src);
            surfaced(queue_cmp_reg(assembler, dest_reg, src_reg))
        },
        _ => Err("Invalid operands for cmp instruction".to_owned()),
    }
}

/// `TEST`: a register and a register, or a register and a 32-bit immediate.
fn assemble_test(
    assembler: &mut CodeAssembler,
    instruction: &Instruction,
) -> (r: Result<(), String>)
    requires
        settled(*old(assembler)),
        instruction.instruction_type == InstructionType::Test,
    ensures
        queue_outcome(*old(assembler), *final(assembler), instruction@, r),
{
    match instruction.shape() {
        Some(Shape::RegImm(dest, imm)) => {
            let dest_reg = parser_register_to_asm_register64(&dest);
            surfaced(queue_test_imm(assembler, dest_reg, imm))
        },
        Some(Shape::RegReg(dest, src)) => {
            let dest_reg = parser_register_to_asm_register64(&dest);
            let src_reg = parser_register_to_asm_register64(&src);
            surfaced(queue_test_reg(assembler, dest_reg, src_reg))
        },
        _ => Err("Invalid operands for test instruction".to_owned()),
    }
}

/// `JMP`: an immediate, taken as an absolute target.
fn assemble_jmp(
    assembler: &mut CodeAssembler,
    instruction: &Instruction,
) -> (r: Result<(), String>)
    requires
        settled(*old(assembler)),
        instruction.instruction_type == InstructionType::Jmp,
    ensures
        queue_outcome(*old(assembler), *final(assembler), instruction@, r),
{
    match instruction.shape() {
        Some(Shape::Imm(target)) => surfaced(queue_jmp(assembler, extend(target))),
        _ => Err("Invalid operand for jmp instruction".to_owned()),
    }
}

/// `JE`: an immediate, taken as an absolute target.
fn assemble_je(
    assembler: &mut CodeAssembler,
    instruction: &Instruction,
) -> (r: Result<(), String>)
    requires
        settled(*old(assembler)),
        instruction.instruction_type == InstructionType::Je,
    ensures
        queue_outcome(*old(assembler), *final(assembler), instruction@, r),
{
    match instruction.shape() {
        Some(Shape::Imm(target)) => surfaced(queue_je(assembler, extend(target))),
        _ => Err("Invalid operand for je instruction".to_owned()),
    }
}

/// `JNE`: an immediate, taken as an absolute target.
fn assemble_jne(
    assembler: &mut CodeAssembler,
    instruction: &Instruction,
) -> (r: Result<(), String>)
    requires
        settled(*old(assembler)),
        instruction.instruction_type == InstructionType::Jne,
    ensures
        queue_outcome(*old(assembler), *final(assembler), instruction@, r),
{
    match instruction.shape() {
        Some(Shape::Imm(target)) => surfaced(queue_jne(assembler, extend(target))),
        _ => Err("Invalid operand for jne instruction".to_owned()),
    }
}

/// `JG`: an immediate, taken as an absolute target.
fn assemble_jg(
    assembler: &mut CodeAssembler,
    instruction: &Instruction,
) -> (r: Result<(), String>)
    requires
        settled(*old(assembler)),
        instruction.instruction_type == InstructionType::Jg,
    ensures
        queue_outcome(*old(assembler), *final(assembler), instruction@, r),
{
    match instruction.shape() {
        Some(Shape::Imm(target)) => surfaced(queue_jg(assembler, extend(target))),
        _ => Err("Invalid operand for jg instruction".to_owned()),
    }
}

/// `JGE`: an immediate, taken as an absolute target.
fn assemble_jge(
    assembler: &mut CodeAssembler,
    instruction: &Instruction,
) -> (r: Result<(), String>)
    requires
        settled(*old(assembler)),
        instruction.instruction_type == InstructionType::Jge,
    ensures
        queue_outcome(*old(assembler), *final(assembler), instruction@, r),
{
    match instruction.shape() {
        Some(Shape::Imm(target)) => surfaced(queue_jge(assembler, extend(target))),
        _ => Err("Invalid operand for jge instruction".to_owned()),
    }
}

/// `JL`: an immediate, taken as an absolute target.
fn assemble_jl(
    assembler: &mut CodeAssembler,
    instruction: &Instruction,
) -> (r: Result<(), String>)
    requires
        settled(*old(assembler)),
        instruction.instruction_type == InstructionType::Jl,
    ensures
        queue_outcome(*old(assembler), *final(assembler), instruction@, r),
{
    match instruction.shape() {
        Some(Shape::Imm(target)) => surfaced(queue_jl(assembler, extend(target))),
        _ => Err("Invalid operand for jl instruction".to_owned()),
    }
}

/// `JLE`: an immediate, taken as an absolute target.
fn assemble_jle(
    assembler: &mut CodeAssembler,
    instruction: &Instruction,
) -> (r: Result<(), String>)
    requires
        settled(*old(assembler)),
        instruction.instruction_type == InstructionType::Jle,
    ensures
        queue_outcome(*old(assembler), *final(assembler), instruction@, r),
{
    match instruction.shape() {
        Some(Shape::Imm(target)) => surfaced(queue_jle(assembler, extend(target))),
        _ => Err("Invalid operand for jle instruction".to_owned()),
    }
}

/// `CALL`: an immediate, taken as an absolute target.
fn assemble_call(
    assembler: &mut CodeAssembler,
    instruction: &Instruction,
) -> (r: Result<(), String>)
    requires
        settled(*old(assembler)),
        instruction.instruction_type == InstructionType::Call,
    ensures
        queue_outcome(*old(assembler), *final(assembler), instruction@, r),
{
    match instruction.shape() {
        Some(Shape::Imm(target)) => surfaced(queue_call(assembler, extend(target))),
        _ => Err("Invalid operand for call instruction".to_owned()),
    }
}

/// `RET`: no operand.
fn assemble_ret(
    assembler: &mut CodeAssembler,
    instruction: &Instruction,
) -> (r: Result<(), String>)
    requires
        settled(*old(assembler)),
        instruction.instruction_type == InstructionType::Ret,
    ensures
        queue_outcome(*old(assembler), *final(assembler), instruction@, r),
{
    match instruction.shape() {
        Some(Shape::Bare) => surfaced(queue_ret(assembler)),
        _ => Err("Invalid operands for ret instruction".to_owned()),
    }
}

/// `PADDD`: two XMM registers with an index below sixteen.
fn assemble_paddd(
    assembler: &mut CodeAssembler,
    instruction: &Instruction,
) -> (r: Result<(), String>)
    requires
        settled(*old(assembler)),
        instruction.instruction_type == InstructionType::Paddd,
    ensures
        queue_outcome(*old(assembler), *final(assembler), instruction@, r),
{
    if instruction.operands.len() != 2 {
        return Err("PADDD instruction requires exactly two operands".to_owned());
    }
    match (instruction.operands[0], instruction.operands[1]) {
        (Operand::XmmRegister(dest), Operand::XmmRegister(src)) => {
            let dest_reg = match xmm_index_to_register(dest) {
                Some(handle) => handle,
                None => {
                    return Err("Invalid destination XMM register".to_owned());
                },
            };
            let src_reg = match xmm_index_to_register(src) {
                Some(handle) => handle,
                None => {
                    return Err("Invalid source XMM register".to_owned());
                },
            };
            surfaced(queue_paddd(assembler, dest_reg, src_reg))
        },
        _ => Err("Invalid operands for paddd instruction".to_owned()),
    }
}

/// `BSF`: two registers.
fn assemble_bsf(
    assembler: &mut CodeAssembler,
    instruction: &Instruction,
) -> (r: Result<(), String>)
    requires
        settled(*old(assembler)),
        instruction.instruction_type == InstructionType::Bsf,
    ensures
        queue_outcome(*old(assembler), *final(assembler), instruction@, r),
{
    if instruction.operands.len() != 2 {
        return Err("BSF instruction requires exactly two operands".to_owned());
    }
    match instruction.shape() {
        Some(Shape::RegReg(dest, src)) => {
            let dest_reg = parser_register_to_asm_register64(&dest);
            let src_reg = parser_register_to_asm_register64(&src);
            surfaced(queue_bsf(assembler, dest_reg, src_reg))
        },
        _ => Err("Invalid operands for bsf instruction".to_owned()),
    }
}

/// `CMOVNE`: two registers.
fn assemble_cmovne(
    assembler: &mut CodeAssembler,
    instruction: &Instruction,
) -> (r: Result<(), String>)
    requires
        settled(*old(assembler)),
        instruction.instruction_type == InstructionType::Cmovne,
    ensures
        queue_outcome(*old(assembler), *final(assembler), instruction@, r),
{
    if instruction.operands.len() != 2 {
        return Err("CMOVNE instruction requires exactly two operands".to_owned());
    }
    match instruction.shape() {
        Some(Shape::RegReg(dest, src)) => {
            let dest_reg = parser_register_to_asm_register64(&dest);
            let src_reg = parser_register_to_asm_register64(&src);
            surfaced(queue_cmovne(assembler, dest_reg, src_reg))
        },
        _ => Err("Invalid operands for cmovne instruction".to_owned()),
    }
}

} // verus!
