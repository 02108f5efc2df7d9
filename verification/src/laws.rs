//! What holds of every state, every instruction and every line: properties
//! of the interpreter, of the parser and of the encoder adapter.

use crate::assembler::{assembled_view, assembly_of, shape_error};
use crate::lexer::has_word;
use crate::parser::{
    instruction_at, mnemonic_at, operand_at, shape_of, InstructionType, InstructionView, Operand,
    Register,
};
use crate::semantics::{
    in_bounds, lane, load, pack_flags, packed_sum, sign_extend, step, store,
    wrapping_difference, wrapping_sum, CpuView, ExecuteError,
};
use crate::session::{processed, Processed};
use vstd::prelude::*;
use vstd::std_specs::bits::u64_trailing_zeros;

verus! {

/// An instruction of the given mnemonic with one operand.
pub open spec fn unary(kind: InstructionType, first: Operand) -> InstructionView {
    InstructionView { kind, operands: seq![first] }
}

/// An instruction of the given mnemonic with two operands.
pub open spec fn binary(kind: InstructionType, first: Operand, second: Operand) -> InstructionView {
    InstructionView { kind, operands: seq![first, second] }
}

/// An instruction whose operands do not fit its mnemonic is refused,
/// whatever the state; the step then leaves the state as it was.
pub proof fn lemma_misfit_is_refused(s: CpuView, i: InstructionView)
    requires
        shape_of(i) is None,
    ensures
        step(s, i) == Err::<CpuView, ExecuteError>(ExecuteError::InvalidOperands),
{
}

/// An instruction whose operands do not fit its mnemonic is refused by the
/// encoder with the message for that misfit, is not carried out, and leaves
/// the state as it was.
pub proof fn lemma_misfit_changes_nothing(
    i: InstructionView,
    before: CpuView,
    after: CpuView,
    p: Processed,
)
    requires
        shape_of(i) is None,
        processed(i, before, after, p),
    ensures
        p is Refused,
        p->Refused_0@ == shape_error(i),
        after == before,
{
}

/// `MOV r, imm` sets the register to the sign extension of the immediate;
/// nothing else changes but the instruction pointer, which advances by one.
pub proof fn lemma_mov_immediate(s: CpuView, r: Register, imm: i32)
    ensures
        step(s, binary(InstructionType::Mov, Operand::Register(r), Operand::Immediate(imm)))
            == Ok::<CpuView, ExecuteError>(s.with_gpr(r, sign_extend(imm)).advanced()),
        s.with_gpr(r, sign_extend(imm)).advanced().gpr(r) == sign_extend(imm),
{
}

/// Reading back what was just written gives the value written.
pub proof fn lemma_load_after_store(memory: Seq<u8>, address: u64, value: u64)
    requires
        in_bounds(memory, address),
    ensures
        load(store(memory, address, value), address) == value,
        store(memory, address, value).len() == memory.len(),
{
    vstd::bytes::lemma_auto_spec_u64_to_from_le_bytes();
    let written = store(memory, address, value);
    assert(written.subrange(address as int, address + 8) =~= vstd::bytes::spec_u64_to_le_bytes(
        value,
    ));
}

/// `PUSH r`, any overwriting of `r`, then `POP r` brings back both the
/// register and the stack pointer. This holds for every register but the
/// stack pointer itself and wherever the push stays inside the memory.
pub proof fn lemma_push_pop_round_trip(s: CpuView, r: Register, clobber: u64)
    requires
        r != Register::Rsp,
        in_bounds(s.memory, wrapping_difference(s.gprs.rsp, 8)),
    ensures
        ({
            let pushed = step(s, unary(InstructionType::Push, Operand::Register(r)));
            &&& pushed is Ok
            &&& ({
                let popped = step(
                    pushed->Ok_0.with_gpr(r, clobber),
                    unary(InstructionType::Pop, Operand::Register(r)),
                );
                &&& popped is Ok
                &&& popped->Ok_0.gpr(r) == s.gpr(r)
                &&& popped->Ok_0.gprs.rsp == s.gprs.rsp
            })
        }),
{
    let top = wrapping_difference(s.gprs.rsp, 8);
    lemma_load_after_store(s.memory, top, s.gpr(r));
}

/// `CALL target` continues at the target; a `RET` there continues at the
/// instruction after the call, with the stack pointer where it was before
/// the call. This holds wherever the push stays inside the memory.
pub proof fn lemma_call_ret_round_trip(s: CpuView, target: i32)
    requires
        in_bounds(s.memory, wrapping_difference(s.gprs.rsp, 8)),
    ensures
        ({
            let called = step(s, unary(InstructionType::Call, Operand::Immediate(target)));
            &&& called is Ok
            &&& called->Ok_0.rip == sign_extend(target)
            &&& ({
                let returned = step(
                    called->Ok_0,
                    InstructionView { kind: InstructionType::Ret, operands: seq![] },
                );
                &&& returned is Ok
                &&& returned->Ok_0.rip == wrapping_sum(s.rip, 1)
                &&& returned->Ok_0.gprs.rsp == s.gprs.rsp
            })
        }),
{
    let top = wrapping_difference(s.gprs.rsp, 8);
    lemma_load_after_store(s.memory, top, wrapping_sum(s.rip, 1));
}

/// The condition under which each branch is taken, by the flags alone.
pub open spec fn condition_holds(kind: InstructionType, zf: bool, sf: bool, of: bool) -> bool {
    match kind {
        InstructionType::Je => zf,
        InstructionType::Jne => !zf,
        InstructionType::Jg => !zf && sf == of,
        InstructionType::Jge => sf == of,
        InstructionType::Jl => sf != of,
        InstructionType::Jle => zf || sf != of,
        _ => true,
    }
}

/// A branch continues at its target when its condition holds and at the
/// next instruction when it does not. `JMP` is always taken; the carry flag
/// plays no part; nothing but the instruction pointer changes.
pub proof fn lemma_branch_conditions(s: CpuView, kind: InstructionType, target: i32)
    requires
        kind.takes_target(),
        kind != InstructionType::Call,
    ensures
        step(s, unary(kind, Operand::Immediate(target))) == Ok::<CpuView, ExecuteError>(
            if condition_holds(kind, s.zf, s.sf, s.of) {
                CpuView { rip: sign_extend(target), ..s }
            } else {
                CpuView { rip: wrapping_sum(s.rip, 1), ..s }
            },
        ),
{
}

/// Each lane of a vector built from four lanes is the lane it was built
/// from.
pub proof fn lemma_lanes_of_packed_sum(a: u128, b: u128, k: int)
    requires
        0 <= k < 4,
    ensures
        lane(packed_sum(a, b), k) == (lane(a, k) + lane(b, k)) % 0x1_0000_0000,
{
    let l0 = crate::semantics::lane_sum(lane(a, 0), lane(b, 0));
    let l1 = crate::semantics::lane_sum(lane(a, 1), lane(b, 1));
    let l2 = crate::semantics::lane_sum(lane(a, 2), lane(b, 2));
    let l3 = crate::semantics::lane_sum(lane(a, 3), lane(b, 3));
    let v = crate::semantics::from_lanes(l0, l1, l2, l3);
    assert((v & 0xFFFF_FFFF) as u32 == l0 && ((v >> 32) & 0xFFFF_FFFF) as u32 == l1 && ((v >> 64)
        & 0xFFFF_FFFF) as u32 == l2 && ((v >> 96) & 0xFFFF_FFFF) as u32 == l3) by (bit_vector)
        requires
            v == (l0 as u128) | ((l1 as u128) << 32) | ((l2 as u128) << 64) | ((l3 as u128)
                << 96),
    ;
}

/// `PADDD d, s` leaves in each lane of `d` the sum of that lane of `d` and
/// of `s`, modulo 2^32, whatever the other lanes hold.
pub proof fn lemma_paddd_lane_independence(s: CpuView, d: u8, src: u8, k: int)
    requires
        d < 16,
        src < 16,
        s.xmm.len() == 16,
        0 <= k < 4,
    ensures
        ({
            let next = step(
                s,
                binary(InstructionType::Paddd, Operand::XmmRegister(d), Operand::XmmRegister(src)),
            );
            &&& next is Ok
            &&& lane(next->Ok_0.xmm[d as int], k) == (lane(s.xmm[d as int], k) + lane(
                s.xmm[src as int],
                k,
            )) % 0x1_0000_0000
        }),
{
    lemma_lanes_of_packed_sum(s.xmm[d as int], s.xmm[src as int], k);
}

/// `BSF d, s` on a source that is not zero writes the number of trailing
/// zero bits of the source to `d` and clears ZF; on a zero source it sets ZF
/// and leaves `d` as it was.
pub proof fn lemma_bit_scan_forward(s: CpuView, d: Register, src: Register)
    ensures
        ({
            let next = step(
                s,
                binary(InstructionType::Bsf, Operand::Register(d), Operand::Register(src)),
            );
            let v = s.gpr(src);
            &&& next is Ok
            &&& v != 0 ==> next->Ok_0.gpr(d) == u64_trailing_zeros(v) && !next->Ok_0.zf
            &&& v == 0 ==> next->Ok_0.gpr(d) == s.gpr(d) && next->Ok_0.zf
        }),
{
    broadcast use vstd::std_specs::bits::axiom_u64_trailing_zeros;

}

/// Mnemonics that set the flags from their result.
pub open spec fn sets_flags(kind: InstructionType) -> bool {
    ||| kind.takes_register_and_count()
    ||| matches!(
        kind,
        InstructionType::Add | InstructionType::Sub | InstructionType::And | InstructionType::Or
            | InstructionType::Xor | InstructionType::Cmp | InstructionType::Test
            | InstructionType::Inc | InstructionType::Dec | InstructionType::Neg
            | InstructionType::Not | InstructionType::Bsf
    )
}

/// After every instruction that sets flags, the flags register mirrors the
/// four flags: CF in bit 0, ZF in bit 6, SF in bit 7, OF in bit 11, and no
/// other bit set. Every other instruction leaves the flags and the flags
/// register as they were.
pub proof fn lemma_flags_register_mirrors_flags(s: CpuView, i: InstructionView)
    requires
        step(s, i) is Ok,
    ensures
        ({
            let next = step(s, i)->Ok_0;
            if sets_flags(i.kind) {
                next.rflags == pack_flags(next.cf, next.zf, next.sf, next.of)
            } else {
                &&& next.rflags == s.rflags
                &&& next.cf == s.cf
                &&& next.zf == s.zf
                &&& next.sf == s.sf
                &&& next.of == s.of
            }
        }),
{
}

/// Whether a mnemonic writes to the memory.
pub open spec fn writes_memory(kind: InstructionType) -> bool {
    kind == InstructionType::Push || kind == InstructionType::Call
}

/// The memory after a push or a call: the old memory with eight bytes
/// written at the lowered stack pointer.
proof fn lemma_memory_written(s: CpuView, i: InstructionView)
    requires
        step(s, i) is Ok,
        writes_memory(i.kind),
    ensures
        ({
            let next = step(s, i)->Ok_0;
            let top = wrapping_difference(s.gprs.rsp, 8);
            &&& in_bounds(s.memory, top)
            &&& next.gprs.rsp == top
            &&& exists|value: u64| next.memory == store(s.memory, top, value)
            &&& next.xmm == s.xmm
        }),
{
    let top = wrapping_difference(s.gprs.rsp, 8);
    if i.kind == InstructionType::Push {
        let value = s.with_gpr(Register::Rsp, top).gpr(shape_of(i)->Some_0.dest());
        assert(step(s, i)->Ok_0.memory == store(s.memory, top, value));
    } else {
        assert(step(s, i)->Ok_0.memory == store(s.memory, top, wrapping_sum(s.rip, 1)));
    }
}

/// Every mnemonic but the push and the call keeps the memory.
pub proof fn lemma_memory_kept(s: CpuView, i: InstructionView)
    requires
        step(s, i) is Ok,
        !writes_memory(i.kind),
    ensures
        step(s, i)->Ok_0.memory == s.memory,
        s.xmm.len() == 16 ==> step(s, i)->Ok_0.xmm.len() == 16,
{
}

/// No instruction changes the size of the memory, the number of XMM
/// registers, or a segment selector.
pub proof fn lemma_step_keeps_the_frame(s: CpuView, i: InstructionView)
    requires
        step(s, i) is Ok,
        s.xmm.len() == 16,
    ensures
        step(s, i)->Ok_0.memory.len() == s.memory.len(),
        step(s, i)->Ok_0.xmm.len() == 16,
        step(s, i)->Ok_0.cs == s.cs,
        step(s, i)->Ok_0.fs == s.fs,
        step(s, i)->Ok_0.gs == s.gs,
{
    if writes_memory(i.kind) {
        lemma_memory_written(s, i);
        let top = wrapping_difference(s.gprs.rsp, 8);
        let value = choose|value: u64| step(s, i)->Ok_0.memory == store(s.memory, top, value);
        lemma_load_after_store(s.memory, top, value);
    } else {
        lemma_memory_kept(s, i);
    }
}

/// The stack stays inside the memory: after a push or a call the stack
/// pointer is eight lower and the eight bytes at it lie inside; after a
/// return, or a pop into any other register, it is eight higher and not
/// beyond the end of the memory. The memory is one that 64-bit addresses
/// reach.
pub proof fn lemma_stack_pointer_stays_inside(s: CpuView, i: InstructionView)
    requires
        step(s, i) is Ok,
        s.memory.len() <= u64::MAX,
    ensures
        writes_memory(i.kind) ==> step(s, i)->Ok_0.gprs.rsp == s.gprs.rsp - 8 && in_bounds(
            step(s, i)->Ok_0.memory,
            step(s, i)->Ok_0.gprs.rsp,
        ),
        i.kind == InstructionType::Ret || (i.kind == InstructionType::Pop && i.operands[0]
            != Operand::Register(Register::Rsp)) ==> step(s, i)->Ok_0.gprs.rsp == s.gprs.rsp + 8
            && step(s, i)->Ok_0.gprs.rsp <= step(s, i)->Ok_0.memory.len(),
{
    if writes_memory(i.kind) {
        lemma_memory_written(s, i);
        let top = wrapping_difference(s.gprs.rsp, 8);
        let value = choose|value: u64| step(s, i)->Ok_0.memory == store(s.memory, top, value);
        lemma_load_after_store(s.memory, top, value);
    } else if i.kind == InstructionType::Ret || (i.kind == InstructionType::Pop && i.operands[0]
        != Operand::Register(Register::Rsp)) {
        lemma_memory_kept(s, i);
    }
}

/// Every instruction but a branch, a call and a return leaves the
/// instruction pointer one higher, modulo 2^64.
pub proof fn lemma_instruction_pointer_advances(s: CpuView, i: InstructionView)
    requires
        step(s, i) is Ok,
        !i.kind.takes_target(),
        i.kind != InstructionType::Ret,
    ensures
        step(s, i)->Ok_0.rip == wrapping_sum(s.rip, 1),
{
}

/// Writing eight bytes leaves every other byte as it was.
pub proof fn lemma_store_elsewhere(memory: Seq<u8>, address: u64, value: u64, at: int)
    requires
        in_bounds(memory, address),
        0 <= at < memory.len(),
        !(address <= at < address + 8),
    ensures
        store(memory, address, value)[at] == memory[at],
{
    vstd::bytes::lemma_auto_spec_u64_to_from_le_bytes();
}

/// A step changes the memory only through a push or a call, and then only
/// the eight bytes at the new stack pointer.
pub proof fn lemma_memory_changes_only_at_the_stack(s: CpuView, i: InstructionView, at: int)
    requires
        step(s, i) is Ok,
        0 <= at < s.memory.len(),
        !writes_memory(i.kind) || !(step(s, i)->Ok_0.gprs.rsp <= at < step(s, i)->Ok_0.gprs.rsp
            + 8),
    ensures
        step(s, i)->Ok_0.memory[at] == s.memory[at],
{
    if writes_memory(i.kind) {
        lemma_memory_written(s, i);
        let top = wrapping_difference(s.gprs.rsp, 8);
        let value = choose|value: u64| step(s, i)->Ok_0.memory == store(s.memory, top, value);
        lemma_store_elsewhere(s.memory, top, value, at);
    } else {
        lemma_memory_kept(s, i);
    }
}

/// An XMM operand that the parser reads has an index of at most fifteen.
pub proof fn lemma_parsed_xmm_index(s: Seq<u8>, at: int)
    requires
        operand_at(s, at) is Some,
    ensures
        operand_at(s, at)->Some_0.0 matches Operand::XmmRegister(index) ==> index < 16,
{
}

/// A parsed instruction has at most two operands.
pub proof fn lemma_parsed_operand_count(s: Seq<u8>)
    requires
        instruction_at(s) is Ok,
    ensures
        instruction_at(s)->Ok_0.0.operands.len() <= 2,
{
}

/// Where the bytes spell `jge` or `jle`, that mnemonic is read and not the
/// `jg` or `jl` that it begins with: the longer spelling wins.
pub proof fn lemma_longer_branch_spelling_wins(s: Seq<u8>, at: int)
    ensures
        has_word(s, at, "jge"@) ==> mnemonic_at(s, at) == Some((InstructionType::Jge, at + 3)),
        has_word(s, at, "jle"@) ==> mnemonic_at(s, at) == Some((InstructionType::Jle, at + 3)),
{
    reveal_strlit("mov");
    reveal_strlit("add");
    reveal_strlit("sub");
    reveal_strlit("inc");
    reveal_strlit("dec");
    reveal_strlit("neg");
    reveal_strlit("and");
    reveal_strlit("or");
    reveal_strlit("xor");
    reveal_strlit("not");
    reveal_strlit("shl");
    reveal_strlit("shr");
    reveal_strlit("rol");
    reveal_strlit("ror");
    reveal_strlit("push");
    reveal_strlit("pop");
    reveal_strlit("cmp");
    reveal_strlit("test");
    reveal_strlit("jmp");
    reveal_strlit("jne");
    reveal_strlit("je");
    reveal_strlit("jge");
    reveal_strlit("jg");
    reveal_strlit("jle");
    reveal_strlit("jl");
    if has_word(s, at, "jge"@) || has_word(s, at, "jle"@) {
        assert(s[at + 0] == 'j' as u8);
        assert(s[at + 1] == 'g' as u8 || s[at + 1] == 'l' as u8);
        assert(s[at + 2] == 'e' as u8);
    }
}

/// Two encodings of one instruction are the same: the same bytes, or the
/// same error.
pub proof fn lemma_encoding_is_determined(
    i: InstructionView,
    first: Result<Vec<u8>, String>,
    second: Result<Vec<u8>, String>,
)
    requires
        assembled_view(first) == assembly_of(i),
        assembled_view(second) == assembly_of(i),
    ensures
        assembled_view(first) == assembled_view(second),
        first is Ok && second is Ok ==> first->Ok_0@ == second->Ok_0@,
{
}

} // verus!
