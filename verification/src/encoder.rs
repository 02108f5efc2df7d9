//! The machine-code encoder of the `iced_x86` crate, as far as the adapter
//! uses it. Nothing in this module is proved: each contract states what the
//! encoder's source shows of the function it stands for.
//!
//! An assembler is modelled by the instructions it holds, each by its
//! mnemonic and by its operands as the instruction holds them, by its
//! bitness, and by whether it is settled. Every function here that adds an instruction adds exactly
//! one at the end when it succeeds and none when it fails. With registers
//! alone, and without operands, it always succeeds; with an immediate or a
//! branch target, which of the two happens is a matter of the bitness and of
//! the operands alone.

use crate::parser::InstructionType;
use iced_x86::code_asm::registers::{gpr64, xmm};
use iced_x86::code_asm::{AsmRegister64, AsmRegisterXmm, CodeAssembler};
use iced_x86::IcedError;
use vstd::prelude::*;

verus! {

/// The assembler of `iced_x86::code_asm`. Nothing inside it is visible
/// here.
#[verifier::external_type_specification]
#[verifier::external_body]
pub struct ExCodeAssembler(CodeAssembler);

/// The handle of a 64-bit general-purpose register in `iced_x86::code_asm`.
#[verifier::external_type_specification]
#[verifier::external_body]
pub struct ExAsmRegister64(AsmRegister64);

/// The handle of an XMM register in `iced_x86::code_asm`.
#[verifier::external_type_specification]
#[verifier::external_body]
pub struct ExAsmRegisterXmm(AsmRegisterXmm);

/// The error type of `iced_x86`.
#[verifier::external_type_specification]
#[verifier::external_body]
pub struct ExIcedError(IcedError);

/// An operand as an instruction holds it.
pub enum Encoded {
    /// A 64-bit general-purpose register by its number in the encoder's
    /// order: RAX, RCX, RDX, RBX, RSP, RBP, RSI, RDI, R8 to R15.
    Gpr(u8),
    /// An XMM register by its index.
    Xmm(u8),
    /// An immediate or a branch target by its value.
    Immediate(int),
}

/// An instruction as the assembler holds it: the mnemonic, the registers
/// by number and the immediates by value.
pub struct Queued {
    pub kind: InstructionType,
    pub operands: Seq<Encoded>,
}

/// The instructions that an assembler holds, in the order in which they
/// were added.
pub uninterp spec fn queued(a: CodeAssembler) -> Seq<Queued>;

/// The bitness that an assembler was made with.
pub uninterp spec fn bitness_of(a: CodeAssembler) -> u32;

/// Whether an assembler is as `CodeAssembler::new` made it but for the
/// instructions added since: no prefix and no label waits for the next
/// instruction, and the options are the defaults.
pub uninterp spec fn settled(a: CodeAssembler) -> bool;

/// The number of the general-purpose register that a register handle
/// stands for, in the encoder's order: RAX is 0, then RCX, RDX, RBX, RSP,
/// RBP, RSI, RDI, and R8 to R15 are 8 to 15.
pub uninterp spec fn held_gpr(r: AsmRegister64) -> u8;

/// The index of the XMM register that a register handle stands for.
pub uninterp spec fn held_xmm(r: AsmRegisterXmm) -> u8;

/// The text that an encoder error holds.
pub uninterp spec fn message_of(e: IcedError) -> Seq<char>;

/// What a settled assembler of the given bitness answers when the method
/// for a mnemonic is called with an immediate or a branch target: `None`
/// when the assembler takes the instruction, else the text of its error.
/// The request holds the operands as the call gives them.
pub uninterp spec fn refusal_of(bitness: u32, request: Queued) -> Option<Seq<char>>;

/// The outcome of `CodeAssembler::assemble` for a settled assembler of the
/// given bitness that holds the given instructions: the machine code at
/// base address `ip`, or the text of the encoder's error.
pub uninterp spec fn assembled(bitness: u32, queue: Seq<Queued>, ip: u64) -> Result<
    Seq<u8>,
    Seq<char>,
>;

/// A 32-bit immediate operand.
pub open spec fn immediate32(value: i32) -> Encoded {
    Encoded::Immediate(value as int)
}

/// A 64-bit immediate operand.
pub open spec fn immediate64(value: i64) -> Encoded {
    Encoded::Immediate(value as int)
}

/// An absolute 64-bit branch target.
pub open spec fn target64(value: u64) -> Encoded {
    Encoded::Immediate(value as int)
}

/// An instruction without operands.
pub open spec fn bare(kind: InstructionType) -> Queued {
    Queued { kind, operands: Seq::empty() }
}

/// An instruction with one operand.
pub open spec fn with_one(kind: InstructionType, first: Encoded) -> Queued {
    Queued { kind, operands: seq![first] }
}

/// An instruction with two operands.
pub open spec fn with_two(kind: InstructionType, first: Encoded, second: Encoded) -> Queued {
    Queued { kind, operands: seq![first, second] }
}

/// An instruction with one register handle.
pub open spec fn one_reg(kind: InstructionType, reg: AsmRegister64) -> Queued {
    with_one(kind, Encoded::Gpr(held_gpr(reg)))
}

/// An instruction with two register handles.
pub open spec fn reg_reg(kind: InstructionType, dest: AsmRegister64, src: AsmRegister64) -> Queued {
    with_two(kind, Encoded::Gpr(held_gpr(dest)), Encoded::Gpr(held_gpr(src)))
}

/// An instruction with a register handle and a 32-bit immediate.
pub open spec fn reg_imm32(kind: InstructionType, dest: AsmRegister64, imm: i32) -> Queued {
    with_two(kind, Encoded::Gpr(held_gpr(dest)), immediate32(imm))
}

/// A shift or rotation as the instruction holds it: the count is kept in
/// one byte, so a count and the same count plus or minus 256 leave the same
/// instruction.
pub open spec fn reg_count(kind: InstructionType, reg: AsmRegister64, count: i32) -> Queued {
    with_two(kind, Encoded::Gpr(held_gpr(reg)), Encoded::Immediate(count as int % 256))
}

/// An instruction with a register handle and a 64-bit immediate.
pub open spec fn reg_imm64(kind: InstructionType, dest: AsmRegister64, imm: i64) -> Queued {
    with_two(kind, Encoded::Gpr(held_gpr(dest)), immediate64(imm))
}

/// An instruction with two XMM register handles.
pub open spec fn xmm_xmm(
    kind: InstructionType,
    dest: AsmRegisterXmm,
    src: AsmRegisterXmm,
) -> Queued {
    with_two(kind, Encoded::Xmm(held_xmm(dest)), Encoded::Xmm(held_xmm(src)))
}

/// An instruction with an absolute 64-bit target.
pub open spec fn to_target(kind: InstructionType, target: u64) -> Queued {
    with_one(kind, target64(target))
}

/// What a call that hands over `item` leaves behind: on success the
/// instruction stands at the end of the queue, on failure the queue is as
/// it was; either way the assembler is settled and keeps its bitness.
pub open spec fn adds(
    before: CodeAssembler,
    after: CodeAssembler,
    r: Result<(), IcedError>,
    item: Queued,
) -> bool {
    &&& settled(after)
    &&& bitness_of(after) == bitness_of(before)
    &&& r is Ok ==> queued(after) == queued(before).push(item)
    &&& r is Err ==> queued(after) == queued(before)
}

/// The answer of the assembler in the form of [`refusal_of`]: `None` for
/// success, else the text of the error.
pub open spec fn refused(r: Result<(), IcedError>) -> Option<Seq<char>> {
    match r {
        Ok(_) => None,
        Err(e) => Some(message_of(e)),
    }
}

/// `CodeAssembler::new`. It succeeds exactly for a bitness of 16, 32 or 64;
/// the new assembler is settled and holds no instruction.
#[verifier::external_body]
pub(crate) fn new_assembler(bitness: u32) -> (r: Result<CodeAssembler, IcedError>)
    ensures
        r is Ok <==> (bitness == 16 || bitness == 32 || bitness == 64),
        r is Ok ==> queued(r->Ok_0) == Seq::<Queued>::empty() && bitness_of(r->Ok_0) == bitness
            && settled(r->Ok_0),
{
    CodeAssembler::new(bitness)
}

/// `CodeAssembler::assemble`. For a settled assembler the outcome depends
/// on the bitness, the instructions held and the base address alone. The
/// call reads the assembler and leaves it as it was.
#[verifier::external_body]
pub(crate) fn assemble(assembler: &mut CodeAssembler, ip: u64) -> (r: Result<Vec<u8>, IcedError>)
    requires
        settled(*old(assembler)),
    ensures
        settled(*final(assembler)),
        bitness_of(*final(assembler)) == bitness_of(*old(assembler)),
        queued(*final(assembler)) == queued(*old(assembler)),
        match r {
            Ok(bytes) => assembled(bitness_of(*old(assembler)), queued(*old(assembler)), ip)
                == Ok::<Seq<u8>, Seq<char>>(bytes@),
            Err(e) => assembled(bitness_of(*old(assembler)), queued(*old(assembler)), ip)
                == Err::<Seq<u8>, Seq<char>>(message_of(e)),
        },
{
    assembler.assemble(ip)
}

/// `Display` of `IcedError`, through `to_string`: the text that the error
/// holds.
#[verifier::external_body]
pub(crate) fn error_text(e: &IcedError) -> (text: String)
    ensures
        text@ == message_of(*e),
{
    e.to_string()
}

/// `gpr64::get_gpr64` on the register `number` places after
/// `Register::RAX`. The registers from `RAX` on are, in this order, RAX,
/// RCX, RDX, RBX, RSP, RBP, RSI, RDI and R8 to R15; `get_gpr64` accepts each
/// of them, and the handle stands for it.
#[verifier::external_body]
pub(crate) fn gpr64_handle(number: u8) -> (handle: Option<AsmRegister64>)
    requires
        number < 16,
    ensures
        handle is Some,
        held_gpr(handle->Some_0) == number,
{
    gpr64::get_gpr64(iced_x86::Register::RAX + u32::from(number))
}

/// `xmm::get_xmm` on the register `index` places after `Register::XMM0`.
/// For an index below sixteen that register is one of `XMM0` to `XMM15`,
/// which `get_xmm` accepts, and the handle stands for it.
#[verifier::external_body]
pub(crate) fn xmm_handle(index: u8) -> (handle: Option<AsmRegisterXmm>)
    requires
        index < 16,
    ensures
        handle is Some,
        held_xmm(handle->Some_0) == index,
{
    xmm::get_xmm(iced_x86::Register::XMM0 + u32::from(index))
}

/// `CodeAssembler::mov` with a 64-bit register and a 64-bit immediate.
/// Whether it succeeds, and with which error it fails, depends on the
/// bitness and the operands alone. When it succeeds, exactly that
/// instruction has been added at the end; when it fails, nothing has been
/// added.
#[verifier::external_body]
pub(crate) fn queue_mov_imm(
    assembler: &mut CodeAssembler,
    dest: AsmRegister64,
    imm: i64,
) -> (r: Result<(), IcedError>)
    requires
        settled(*old(assembler)),
    ensures
        adds(*old(assembler), *final(assembler), r, reg_imm64(InstructionType::Mov, dest, imm)),
        refusal_of(bitness_of(*old(assembler)), reg_imm64(InstructionType::Mov, dest, imm))
            == refused(r),
{
    assembler.mov(dest, imm)
}

/// `CodeAssembler::mov` with two 64-bit registers.
/// It builds the instruction from the registers without any check and
/// adds it: it always succeeds, and exactly that instruction has been added
/// at the end.
#[verifier::external_body]
pub(crate) fn queue_mov_reg(
    assembler: &mut CodeAssembler,
    dest: AsmRegister64,
    src: AsmRegister64,
) -> (r: Result<(), IcedError>)
    requires
        settled(*old(assembler)),
    ensures
        adds(*old(assembler), *final(assembler), r, reg_reg(InstructionType::Mov, dest, src)),
        r is Ok,
{
    assembler.mov(dest, src)
}

/// `CodeAssembler::add` with a 64-bit register and a 32-bit immediate.
/// Whether it succeeds, and with which error it fails, depends on the
/// bitness and the operands alone. When it succeeds, exactly that
/// instruction has been added at the end; when it fails, nothing has been
/// added.
#[verifier::external_body]
pub(crate) fn queue_add_imm(
    assembler: &mut CodeAssembler,
    dest: AsmRegister64,
    imm: i32,
) -> (r: Result<(), IcedError>)
    requires
        settled(*old(assembler)),
    ensures
        adds(*old(assembler), *final(assembler), r, reg_imm32(InstructionType::Add, dest, imm)),
        refusal_of(bitness_of(*old(assembler)), reg_imm32(InstructionType::Add, dest, imm))
            == refused(r),
{
    assembler.add(dest, imm)
}

/// `CodeAssembler::add` with two 64-bit registers.
/// It builds the instruction from the registers without any check and
/// adds it: it always succeeds, and exactly that instruction has been added
/// at the end.
#[verifier::external_body]
pub(crate) fn queue_add_reg(
    assembler: &mut CodeAssembler,
    dest: AsmRegister64,
    src: AsmRegister64,
) -> (r: Result<(), IcedError>)
    requires
        settled(*old(assembler)),
    ensures
        adds(*old(assembler), *final(assembler), r, reg_reg(InstructionType::Add, dest, src)),
        r is Ok,
{
    assembler.add(dest, src)
}

/// `CodeAssembler::sub` with a 64-bit register and a 32-bit immediate.
/// Whether it succeeds, and with which error it fails, depends on the
/// bitness and the operands alone. When it succeeds, exactly that
/// instruction has been added at the end; when it fails, nothing has been
/// added.
#[verifier::external_body]
pub(crate) fn queue_sub_imm(
    assembler: &mut CodeAssembler,
    dest: AsmRegister64,
    imm: i32,
) -> (r: Result<(), IcedError>)
    requires
        settled(*old(assembler)),
    ensures
        adds(*old(assembler), *final(assembler), r, reg_imm32(InstructionType::Sub, dest, imm)),
        refusal_of(bitness_of(*old(assembler)), reg_imm32(InstructionType::Sub, dest, imm))
            == refused(r),
{
    assembler.sub(dest, imm)
}

/// `CodeAssembler::sub` with two 64-bit registers.
/// It builds the instruction from the registers without any check and
/// adds it: it always succeeds, and exactly that instruction has been added
/// at the end.
#[verifier::external_body]
pub(crate) fn queue_sub_reg(
    assembler: &mut CodeAssembler,
    dest: AsmRegister64,
    src: AsmRegister64,
) -> (r: Result<(), IcedError>)
    requires
        settled(*old(assembler)),
    ensures
        adds(*old(assembler), *final(assembler), r, reg_reg(InstructionType::Sub, dest, src)),
        r is Ok,
{
    assembler.sub(dest, src)
}

/// `CodeAssembler::and` with a 64-bit register and a 32-bit immediate.
/// Whether it succeeds, and with which error it fails, depends on the
/// bitness and the operands alone. When it succeeds, exactly that
/// instruction has been added at the end; when it fails, nothing has been
/// added.
#[verifier::external_body]
pub(crate) fn queue_and_imm(
    assembler: &mut CodeAssembler,
    dest: AsmRegister64,
    imm: i32,
) -> (r: Result<(), IcedError>)
    requires
        settled(*old(assembler)),
    ensures
        adds(*old(assembler), *final(assembler), r, reg_imm32(InstructionType::And, dest, imm)),
        refusal_of(bitness_of(*old(assembler)), reg_imm32(InstructionType::And, dest, imm))
            == refused(r),
{
    assembler.and(dest, imm)
}

/// `CodeAssembler::and` with two 64-bit registers.
/// It builds the instruction from the registers without any check and
/// adds it: it always succeeds, and exactly that instruction has been added
/// at the end.
#[verifier::external_body]
pub(crate) fn queue_and_reg(
    assembler: &mut CodeAssembler,
    dest: AsmRegister64,
    src: AsmRegister64,
) -> (r: Result<(), IcedError>)
    requires
        settled(*old(assembler)),
    ensures
        adds(*old(assembler), *final(assembler), r, reg_reg(InstructionType::And, dest, src)),
        r is Ok,
{
    assembler.and(dest, src)
}

/// `CodeAssembler::or` with a 64-bit register and a 32-bit immediate.
/// Whether it succeeds, and with which error it fails, depends on the
/// bitness and the operands alone. When it succeeds, exactly that
/// instruction has been added at the end; when it fails, nothing has been
/// added.
#[verifier::external_body]
pub(crate) fn queue_or_imm(
    assembler: &mut CodeAssembler,
    dest: AsmRegister64,
    imm: i32,
) -> (r: Result<(), IcedError>)
    requires
        settled(*old(assembler)),
    ensures
        adds(*old(assembler), *final(assembler), r, reg_imm32(InstructionType::Or, dest, imm)),
        refusal_of(bitness_of(*old(assembler)), reg_imm32(InstructionType::Or, dest, imm))
            == refused(r),
{
    assembler.or(dest, imm)
}

/// `CodeAssembler::or` with two 64-bit registers.
/// It builds the instruction from the registers without any check and
/// adds it: it always succeeds, and exactly that instruction has been added
/// at the end.
#[verifier::external_body]
pub(crate) fn queue_or_reg(
    assembler: &mut CodeAssembler,
    dest: AsmRegister64,
    src: AsmRegister64,
) -> (r: Result<(), IcedError>)
    requires
        settled(*old(assembler)),
    ensures
        adds(*old(assembler), *final(assembler), r, reg_reg(InstructionType::Or, dest, src)),
        r is Ok,
{
    assembler.or(dest, src)
}

/// `CodeAssembler::xor` with a 64-bit register and a 32-bit immediate.
/// Whether it succeeds, and with which error it fails, depends on the
/// bitness and the operands alone. When it succeeds, exactly that
/// instruction has been added at the end; when it fails, nothing has been
/// added.
#[verifier::external_body]
pub(crate) fn queue_xor_imm(
    assembler: &mut CodeAssembler,
    dest: AsmRegister64,
    imm: i32,
) -> (r: Result<(), IcedError>)
    requires
        settled(*old(assembler)),
    ensures
        adds(*old(assembler), *final(assembler), r, reg_imm32(InstructionType::Xor, dest, imm)),
        refusal_of(bitness_of(*old(assembler)), reg_imm32(InstructionType::Xor, dest, imm))
            == refused(r),
{
    assembler.xor(dest, imm)
}

/// `CodeAssembler::xor` with two 64-bit registers.
/// It builds the instruction from the registers without any check and
/// adds it: it always succeeds, and exactly that instruction has been added
/// at the end.
#[verifier::external_body]
pub(crate) fn queue_xor_reg(
    assembler: &mut CodeAssembler,
    dest: AsmRegister64,
    src: AsmRegister64,
) -> (r: Result<(), IcedError>)
    requires
        settled(*old(assembler)),
    ensures
        adds(*old(assembler), *final(assembler), r, reg_reg(InstructionType::Xor, dest, src)),
        r is Ok,
{
    assembler.xor(dest, src)
}

/// `CodeAssembler::cmp` with a 64-bit register and a 32-bit immediate.
/// Whether it succeeds, and with which error it fails, depends on the
/// bitness and the operands alone. When it succeeds, exactly that
/// instruction has been added at the end; when it fails, nothing has been
/// added.
#[verifier::external_body]
pub(crate) fn queue_cmp_imm(
    assembler: &mut CodeAssembler,
    dest: AsmRegister64,
    imm: i32,
) -> (r: Result<(), IcedError>)
    requires
        settled(*old(assembler)),
    ensures
        adds(*old(assembler), *final(assembler), r, reg_imm32(InstructionType::Cmp, dest, imm)),
        refusal_of(bitness_of(*old(assembler)), reg_imm32(InstructionType::Cmp, dest, imm))
            == refused(r),
{
    assembler.cmp(dest, imm)
}

/// `CodeAssembler::cmp` with two 64-bit registers.
/// It builds the instruction from the registers without any check and
/// adds it: it always succeeds, and exactly that instruction has been added
/// at the end.
#[verifier::external_body]
pub(crate) fn queue_cmp_reg(
    assembler: &mut CodeAssembler,
    dest: AsmRegister64,
    src: AsmRegister64,
) -> (r: Result<(), IcedError>)
    requires
        settled(*old(assembler)),
    ensures
        adds(*old(assembler), *final(assembler), r, reg_reg(InstructionType::Cmp, dest, src)),
        r is Ok,
{
    assembler.cmp(dest, src)
}

/// `CodeAssembler::test` with a 64-bit register and a 32-bit immediate.
/// Whether it succeeds, and with which error it fails, depends on the
/// bitness and the operands alone. When it succeeds, exactly that
/// instruction has been added at the end; when it fails, nothing has been
/// added.
#[verifier::external_body]
pub(crate) fn queue_test_imm(
    assembler: &mut CodeAssembler,
    dest: AsmRegister64,
    imm: i32,
) -> (r: Result<(), IcedError>)
    requires
        settled(*old(assembler)),
    ensures
        adds(*old(assembler), *final(assembler), r, reg_imm32(InstructionType::Test, dest, imm)),
        refusal_of(bitness_of(*old(assembler)), reg_imm32(InstructionType::Test, dest, imm))
            == refused(r),
{
    assembler.test(dest, imm)
}

/// `CodeAssembler::test` with two 64-bit registers.
/// It builds the instruction from the registers without any check and
/// adds it: it always succeeds, and exactly that instruction has been added
/// at the end.
#[verifier::external_body]
pub(crate) fn queue_test_reg(
    assembler: &mut CodeAssembler,
    dest: AsmRegister64,
    src: AsmRegister64,
) -> (r: Result<(), IcedError>)
    requires
        settled(*old(assembler)),
    ensures
        adds(*old(assembler), *final(assembler), r, reg_reg(InstructionType::Test, dest, src)),
        r is Ok,
{
    assembler.test(dest, src)
}

/// `CodeAssembler::inc` with a 64-bit register.
/// It builds the instruction from the registers without any check and
/// adds it: it always succeeds, and exactly that instruction has been added
/// at the end.
#[verifier::external_body]
pub(crate) fn queue_inc(
    assembler: &mut CodeAssembler,
    reg: AsmRegister64,
) -> (r: Result<(), IcedError>)
    requires
        settled(*old(assembler)),
    ensures
        adds(*old(assembler), *final(assembler), r, one_reg(InstructionType::Inc, reg)),
        r is Ok,
{
    assembler.inc(reg)
}

/// `CodeAssembler::dec` with a 64-bit register.
/// It builds the instruction from the registers without any check and
/// adds it: it always succeeds, and exactly that instruction has been added
/// at the end.
#[verifier::external_body]
pub(crate) fn queue_dec(
    assembler: &mut CodeAssembler,
    reg: AsmRegister64,
) -> (r: Result<(), IcedError>)
    requires
        settled(*old(assembler)),
    ensures
        adds(*old(assembler), *final(assembler), r, one_reg(InstructionType::Dec, reg)),
        r is Ok,
{
    assembler.dec(reg)
}

/// `CodeAssembler::neg` with a 64-bit register.
/// It builds the instruction from the registers without any check and
/// adds it: it always succeeds, and exactly that instruction has been added
/// at the end.
#[verifier::external_body]
pub(crate) fn queue_neg(
    assembler: &mut CodeAssembler,
    reg: AsmRegister64,
) -> (r: Result<(), IcedError>)
    requires
        settled(*old(assembler)),
    ensures
        adds(*old(assembler), *final(assembler), r, one_reg(InstructionType::Neg, reg)),
        r is Ok,
{
    assembler.neg(reg)
}

/// `CodeAssembler::not` with a 64-bit register.
/// It builds the instruction from the registers without any check and
/// adds it: it always succeeds, and exactly that instruction has been added
/// at the end.
#[verifier::external_body]
pub(crate) fn queue_not(
    assembler: &mut CodeAssembler,
    reg: AsmRegister64,
) -> (r: Result<(), IcedError>)
    requires
        settled(*old(assembler)),
    ensures
        adds(*old(assembler), *final(assembler), r, one_reg(InstructionType::Not, reg)),
        r is Ok,
{
    assembler.not(reg)
}

/// `CodeAssembler::push` with a 64-bit register.
/// It builds the instruction from the registers without any check and
/// adds it: it always succeeds, and exactly that instruction has been added
/// at the end.
#[verifier::external_body]
pub(crate) fn queue_push(
    assembler: &mut CodeAssembler,
    reg: AsmRegister64,
) -> (r: Result<(), IcedError>)
    requires
        settled(*old(assembler)),
    ensures
        adds(*old(assembler), *final(assembler), r, one_reg(InstructionType::Push, reg)),
        r is Ok,
{
    assembler.push(reg)
}

/// `CodeAssembler::pop` with a 64-bit register.
/// It builds the instruction from the registers without any check and
/// adds it: it always succeeds, and exactly that instruction has been added
/// at the end.
#[verifier::external_body]
pub(crate) fn queue_pop(
    assembler: &mut CodeAssembler,
    reg: AsmRegister64,
) -> (r: Result<(), IcedError>)
    requires
        settled(*old(assembler)),
    ensures
        adds(*old(assembler), *final(assembler), r, one_reg(InstructionType::Pop, reg)),
        r is Ok,
{
    assembler.pop(reg)
}

/// `CodeAssembler::shl` with a 64-bit register and a 32-bit count.
/// Whether it succeeds, and with which error it fails, depends on the
/// bitness and the operands alone. When it succeeds, exactly that
/// instruction has been added at the end; when it fails, nothing has been
/// added.
#[verifier::external_body]
pub(crate) fn queue_shl(
    assembler: &mut CodeAssembler,
    reg: AsmRegister64,
    count: i32,
) -> (r: Result<(), IcedError>)
    requires
        settled(*old(assembler)),
    ensures
        adds(*old(assembler), *final(assembler), r, reg_count(InstructionType::Shl, reg, count)),
        refusal_of(bitness_of(*old(assembler)), reg_imm32(InstructionType::Shl, reg, count))
            == refused(r),
{
    assembler.shl(reg, count)
}

/// `CodeAssembler::shr` with a 64-bit register and a 32-bit count.
/// Whether it succeeds, and with which error it fails, depends on the
/// bitness and the operands alone. When it succeeds, exactly that
/// instruction has been added at the end; when it fails, nothing has been
/// added.
#[verifier::external_body]
pub(crate) fn queue_shr(
    assembler: &mut CodeAssembler,
    reg: AsmRegister64,
    count: i32,
) -> (r: Result<(), IcedError>)
    requires
        settled(*old(assembler)),
    ensures
        adds(*old(assembler), *final(assembler), r, reg_count(InstructionType::Shr, reg, count)),
        refusal_of(bitness_of(*old(assembler)), reg_imm32(InstructionType::Shr, reg, count))
            == refused(r),
{
    assembler.shr(reg, count)
}

/// `CodeAssembler::rol` with a 64-bit register and a 32-bit count.
/// Whether it succeeds, and with which error it fails, depends on the
/// bitness and the operands alone. When it succeeds, exactly that
/// instruction has been added at the end; when it fails, nothing has been
/// added.
#[verifier::external_body]
pub(crate) fn queue_rol(
    assembler: &mut CodeAssembler,
    reg: AsmRegister64,
    count: i32,
) -> (r: Result<(), IcedError>)
    requires
        settled(*old(assembler)),
    ensures
        adds(*old(assembler), *final(assembler), r, reg_count(InstructionType::Rol, reg, count)),
        refusal_of(bitness_of(*old(assembler)), reg_imm32(InstructionType::Rol, reg, count))
            == refused(r),
{
    assembler.rol(reg, count)
}

/// `CodeAssembler::ror` with a 64-bit register and a 32-bit count.
/// Whether it succeeds, and with which error it fails, depends on the
/// bitness and the operands alone. When it succeeds, exactly that
/// instruction has been added at the end; when it fails, nothing has been
/// added.
#[verifier::external_body]
pub(crate) fn queue_ror(
    assembler: &mut CodeAssembler,
    reg: AsmRegister64,
    count: i32,
) -> (r: Result<(), IcedError>)
    requires
        settled(*old(assembler)),
    ensures
        adds(*old(assembler), *final(assembler), r, reg_count(InstructionType::Ror, reg, count)),
        refusal_of(bitness_of(*old(assembler)), reg_imm32(InstructionType::Ror, reg, count))
            == refused(r),
{
    assembler.ror(reg, count)
}

/// `CodeAssembler::jmp` with an absolute 64-bit target.
/// Whether it succeeds, and with which error it fails, depends on the
/// bitness and the operands alone. When it succeeds, exactly that
/// instruction has been added at the end; when it fails, nothing has been
/// added.
#[verifier::external_body]
pub(crate) fn queue_jmp(
    assembler: &mut CodeAssembler,
    target: u64,
) -> (r: Result<(), IcedError>)
    requires
        settled(*old(assembler)),
    ensures
        adds(*old(assembler), *final(assembler), r, to_target(InstructionType::Jmp, target)),
        refusal_of(bitness_of(*old(assembler)), to_target(InstructionType::Jmp, target))
            == refused(r),
{
    assembler.jmp(target)
}

/// `CodeAssembler::je` with an absolute 64-bit target.
/// Whether it succeeds, and with which error it fails, depends on the
/// bitness and the operands alone. When it succeeds, exactly that
/// instruction has been added at the end; when it fails, nothing has been
/// added.
#[verifier::external_body]
pub(crate) fn queue_je(
    assembler: &mut CodeAssembler,
    target: u64,
) -> (r: Result<(), IcedError>)
    requires
        settled(*old(assembler)),
    ensures
        adds(*old(assembler), *final(assembler), r, to_target(InstructionType::Je, target)),
        refusal_of(bitness_of(*old(assembler)), to_target(InstructionType::Je, target))
            == refused(r),
{
    assembler.je(target)
}

/// `CodeAssembler::jne` with an absolute 64-bit target.
/// Whether it succeeds, and with which error it fails, depends on the
/// bitness and the operands alone. When it succeeds, exactly that
/// instruction has been added at the end; when it fails, nothing has been
/// added.
#[verifier::external_body]
pub(crate) fn queue_jne(
    assembler: &mut CodeAssembler,
    target: u64,
) -> (r: Result<(), IcedError>)
    requires
        settled(*old(assembler)),
    ensures
        adds(*old(assembler), *final(assembler), r, to_target(InstructionType::Jne, target)),
        refusal_of(bitness_of(*old(assembler)), to_target(InstructionType::Jne, target))
            == refused(r),
{
    assembler.jne(target)
}

/// `CodeAssembler::jg` with an absolute 64-bit target.
/// Whether it succeeds, and with which error it fails, depends on the
/// bitness and the operands alone. When it succeeds, exactly that
/// instruction has been added at the end; when it fails, nothing has been
/// added.
#[verifier::external_body]
pub(crate) fn queue_jg(
    assembler: &mut CodeAssembler,
    target: u64,
) -> (r: Result<(), IcedError>)
    requires
        settled(*old(assembler)),
    ensures
        adds(*old(assembler), *final(assembler), r, to_target(InstructionType::Jg, target)),
        refusal_of(bitness_of(*old(assembler)), to_target(InstructionType::Jg, target))
            == refused(r),
{
    assembler.jg(target)
}

/// `CodeAssembler::jge` with an absolute 64-bit target.
/// Whether it succeeds, and with which error it fails, depends on the
/// bitness and the operands alone. When it succeeds, exactly that
/// instruction has been added at the end; when it fails, nothing has been
/// added.
#[verifier::external_body]
pub(crate) fn queue_jge(
    assembler: &mut CodeAssembler,
    target: u64,
) -> (r: Result<(), IcedError>)
    requires
        settled(*old(assembler)),
    ensures
        adds(*old(assembler), *final(assembler), r, to_target(InstructionType::Jge, target)),
        refusal_of(bitness_of(*old(assembler)), to_target(InstructionType::Jge, target))
            == refused(r),
{
    assembler.jge(target)
}

/// `CodeAssembler::jl` with an absolute 64-bit target.
/// Whether it succeeds, and with which error it fails, depends on the
/// bitness and the operands alone. When it succeeds, exactly that
/// instruction has been added at the end; when it fails, nothing has been
/// added.
#[verifier::external_body]
pub(crate) fn queue_jl(
    assembler: &mut CodeAssembler,
    target: u64,
) -> (r: Result<(), IcedError>)
    requires
        settled(*old(assembler)),
    ensures
        adds(*old(assembler), *final(assembler), r, to_target(InstructionType::Jl, target)),
        refusal_of(bitness_of(*old(assembler)), to_target(InstructionType::Jl, target))
            == refused(r),
{
    assembler.jl(target)
}

/// `CodeAssembler::jle` with an absolute 64-bit target.
/// Whether it succeeds, and with which error it fails, depends on the
/// bitness and the operands alone. When it succeeds, exactly that
/// instruction has been added at the end; when it fails, nothing has been
/// added.
#[verifier::external_body]
pub(crate) fn queue_jle(
    assembler: &mut CodeAssembler,
    target: u64,
) -> (r: Result<(), IcedError>)
    requires
        settled(*old(assembler)),
    ensures
        adds(*old(assembler), *final(assembler), r, to_target(InstructionType::Jle, target)),
        refusal_of(bitness_of(*old(assembler)), to_target(InstructionType::Jle, target))
            == refused(r),
{
    assembler.jle(target)
}

/// `CodeAssembler::call` with an absolute 64-bit target.
/// Whether it succeeds, and with which error it fails, depends on the
/// bitness and the operands alone. When it succeeds, exactly that
/// instruction has been added at the end; when it fails, nothing has been
/// added.
#[verifier::external_body]
pub(crate) fn queue_call(
    assembler: &mut CodeAssembler,
    target: u64,
) -> (r: Result<(), IcedError>)
    requires
        settled(*old(assembler)),
    ensures
        adds(*old(assembler), *final(assembler), r, to_target(InstructionType::Call, target)),
        refusal_of(bitness_of(*old(assembler)), to_target(InstructionType::Call, target))
            == refused(r),
{
    assembler.call(target)
}

/// `CodeAssembler::ret`.
/// It builds the instruction without any check and adds it: it always
/// succeeds, and exactly that instruction has been added at the end.
#[verifier::external_body]
pub(crate) fn queue_ret(
    assembler: &mut CodeAssembler,
) -> (r: Result<(), IcedError>)
    requires
        settled(*old(assembler)),
    ensures
        adds(*old(assembler), *final(assembler), r, bare(InstructionType::Ret)),
        r is Ok,
{
    assembler.ret()
}

/// `CodeAssembler::paddd` with two XMM registers.
/// It builds the instruction from the registers without any check and
/// adds it: it always succeeds, and exactly that instruction has been added
/// at the end.
#[verifier::external_body]
pub(crate) fn queue_paddd(
    assembler: &mut CodeAssembler,
    dest: AsmRegisterXmm,
    src: AsmRegisterXmm,
) -> (r: Result<(), IcedError>)
    requires
        settled(*old(assembler)),
    ensures
        adds(*old(assembler), *final(assembler), r, xmm_xmm(InstructionType::Paddd, dest, src)),
        r is Ok,
{
    assembler.paddd(dest, src)
}

/// `CodeAssembler::bsf` with two 64-bit registers.
/// It builds the instruction from the registers without any check and
/// adds it: it always succeeds, and exactly that instruction has been added
/// at the end.
#[verifier::external_body]
pub(crate) fn queue_bsf(
    assembler: &mut CodeAssembler,
    dest: AsmRegister64,
    src: AsmRegister64,
) -> (r: Result<(), IcedError>)
    requires
        settled(*old(assembler)),
    ensures
        adds(*old(assembler), *final(assembler), r, reg_reg(InstructionType::Bsf, dest, src)),
        r is Ok,
{
    assembler.bsf(dest, src)
}

/// `CodeAssembler::cmovne` with two 64-bit registers.
/// It builds the instruction from the registers without any check and
/// adds it: it always succeeds, and exactly that instruction has been added
/// at the end.
#[verifier::external_body]
pub(crate) fn queue_cmovne(
    assembler: &mut CodeAssembler,
    dest: AsmRegister64,
    src: AsmRegister64,
) -> (r: Result<(), IcedError>)
    requires
        settled(*old(assembler)),
    ensures
        adds(*old(assembler), *final(assembler), r, reg_reg(InstructionType::Cmovne, dest, src)),
        r is Ok,
{
    assembler.cmovne(dest, src)
}

} // verus!
