//! One line of the prompt, from text to effect: an instruction is encoded
//! first and carried out only when the encoder accepted it.

use crate::assembler::{assemble_instruction, assembly_of};
use crate::cpu::{dump_text, register_text, CPU};
use crate::parser::{
    input_at, instruction_at, parse_input, parse_instruction, InputType, InputView, Instruction,
    InstructionView, ParseError,
};
use crate::semantics::{step, CpuView, ExecuteError};
use vstd::prelude::*;
use vstd::string::StringSliceAdditionalSpecFns;
use vstd::utf8::encode_utf8;

verus! {

/// What became of an instruction.
#[derive(Debug, PartialEq, Eq)]
pub enum Processed {
    /// The encoder did not accept it, with the reason; nothing was
    /// carried out.
    Refused(String),
    /// It was encoded to these bytes, but could not be carried out.
    Failed(Vec<u8>, ExecuteError),
    /// It was encoded to these bytes and carried out.
    Done(Vec<u8>),
}

/// What became of a line.
#[derive(Debug, PartialEq, Eq)]
pub enum Handled {
    /// The line was an instruction.
    Instruction(Processed),
    /// The line asked for a register; this is its text.
    Register(String),
    /// The line asked for a memory dump; this is its text.
    Memory(String),
    /// The line could not be parsed.
    Unparsed(ParseError),
}

/// What became of a batch of lines.
#[derive(Debug, PartialEq, Eq)]
pub struct Batch {
    /// What became of each line up to the first that could not be parsed.
    pub processed: Vec<Processed>,
    /// The number of the line that could not be parsed, counted from zero,
    /// and why.
    pub stopped: Option<(usize, ParseError)>,
}

/// Whether `p` and `after` are what processing `i` in state `before` gives.
/// The state changes only when the instruction was both encoded and
/// carried out, and then by one step.
pub open spec fn processed(
    i: InstructionView,
    before: CpuView,
    after: CpuView,
    p: Processed,
) -> bool {
    match p {
        Processed::Refused(text) => assembly_of(i) == Err::<Seq<u8>, Seq<char>>(text@) && after
            == before,
        Processed::Failed(bytes, e) => assembly_of(i) == Ok::<Seq<u8>, Seq<char>>(bytes@) && step(
            before,
            i,
        ) == Err::<CpuView, ExecuteError>(e) && after == before,
        Processed::Done(bytes) => assembly_of(i) == Ok::<Seq<u8>, Seq<char>>(bytes@) && step(
            before,
            i,
        ) == Ok::<CpuView, ExecuteError>(after),
    }
}

/// Encodes an instruction and, where that succeeds, carries it out.
pub fn process_instruction(instruction: &Instruction, cpu: &mut CPU) -> (p: Processed)
    ensures
        processed(instruction@, old(cpu)@, final(cpu)@, p),
{
    match assemble_instruction(instruction) {
        Err(text) => Processed::Refused(text),
        Ok(bytes) => match cpu.execute(instruction) {
            Ok(()) => Processed::Done(bytes),
            Err(e) => Processed::Failed(bytes, e),
        },
    }
}

/// Whether `h` and `after` are what handling the line `bytes` in state
/// `before` gives. Only an instruction can change the state.
pub open spec fn handled(bytes: Seq<u8>, before: CpuView, after: CpuView, h: Handled) -> bool {
    match input_at(bytes) {
        Err(e) => h == Handled::Unparsed(e) && after == before,
        Ok((InputView::Instruction(i), _)) => h is Instruction && processed(
            i,
            before,
            after,
            h->Instruction_0,
        ),
        Ok((InputView::Register(register, options), _)) => h is Register && h->Register_0@
            == register_text(register, before.gpr(register), options) && after == before,
        Ok((InputView::Memory(options), _)) => h is Memory && h->Memory_0@ == dump_text(
            before.memory,
            options,
        ) && after == before,
    }
}

/// Parses a line and does what it asks for: processes an instruction,
/// shows a register, or dumps memory.
pub fn handle_single_instruction(input: &str, cpu: &mut CPU) -> (h: Handled)
    ensures
        handled(input.spec_bytes(), old(cpu)@, final(cpu)@, h),
{
    match parse_input(input) {
        Ok((_, InputType::Instruction(instruction))) => Handled::Instruction(
            process_instruction(&instruction, cpu),
        ),
        Ok((_, InputType::Register(register, options))) => Handled::Register(
            cpu.format_register_value(&register, &options),
        ),
        Ok((_, InputType::Memory(options))) => Handled::Memory(cpu.dump_memory(&options)),
        Err(e) => Handled::Unparsed(e),
    }
}

/// The instruction that a line of text begins with, or why it begins with
/// none.
#[verifier::opaque]
pub open spec fn line_instruction(line: Seq<char>) -> Result<InstructionView, ParseError> {
    match instruction_at(encode_utf8(line)) {
        Ok((instruction, _)) => Ok(instruction),
        Err(e) => Err(e),
    }
}

/// Parses the instruction that a line begins with.
fn parse_line(line: &String) -> (r: Result<Instruction, ParseError>)
    ensures
        match r {
            Ok(instruction) => line_instruction(line@) == Ok::<InstructionView, ParseError>(
                instruction@,
            ),
            Err(e) => line_instruction(line@) == Err::<InstructionView, ParseError>(e),
        },
{
    reveal(line_instruction);
    match parse_instruction(line.as_str()) {
        Ok((_, instruction)) => Ok(instruction),
        Err(e) => Err(e),
    }
}

/// The number of the first line at or after `from` that is no instruction,
/// or the number of lines.
pub open spec fn first_unparsed(lines: Seq<String>, from: int) -> int
    decreases lines.len() - from,
{
    if from < 0 || from >= lines.len() {
        lines.len() as int
    } else if line_instruction(lines[from]@) is Err {
        from
    } else {
        first_unparsed(lines, from + 1)
    }
}

/// Whether `states` are the states that the processed lines of a batch went
/// through, from `before` to `after`: each line is processed in the state
/// that the line before it left.
pub open spec fn went_through(
    lines: Seq<String>,
    done: Seq<Processed>,
    states: Seq<CpuView>,
    before: CpuView,
    after: CpuView,
) -> bool {
    &&& states.len() == done.len() + 1
    &&& states[0] == before
    &&& states[done.len() as int] == after
    &&& forall|k: int|
        #![trigger lines[k]]
        0 <= k < done.len() ==> line_instruction(lines[k]@) is Ok && processed(
            line_instruction(lines[k]@)->Ok_0,
            states[k],
            states[k + 1],
            done[k],
        )
}

/// Whether `batch` and `after` are what running the lines in state `before`
/// gives. The lines are processed in order, each whether or not the one
/// before it succeeded, up to the first line that is no instruction; that
/// line ends the batch.
pub open spec fn batched(
    lines: Seq<String>,
    before: CpuView,
    after: CpuView,
    batch: Batch,
) -> bool {
    let stop = first_unparsed(lines, 0);
    &&& batch.processed@.len() == stop
    &&& stop < lines.len() ==> batch.stopped == Some(
        (stop as usize, line_instruction(lines[stop]@)->Err_0),
    )
    &&& stop >= lines.len() ==> batch.stopped is None
    &&& exists|states: Seq<CpuView>|
        went_through(lines, batch.processed@, states, before, after)
}

/// Runs a batch of lines, each an instruction.
pub fn execute_multi_instructions(cpu: &mut CPU, instructions: &[String]) -> (batch: Batch)
    ensures
        batched(instructions@, old(cpu)@, final(cpu)@, batch),
{
    let mut done: Vec<Processed> = Vec::new();
    let ghost lines = instructions@;
    let ghost mut states: Seq<CpuView> = seq![cpu@];
    let mut i: usize = 0;
    while i < instructions.len()
        invariant
            lines == instructions@,
            i <= lines.len(),
            done@.len() == i,
            first_unparsed(lines, 0) == first_unparsed(lines, i as int),
            went_through(lines, done@, states, old(cpu)@, cpu@),
        decreases lines.len() - i,
    {
        match parse_line(&instructions[i]) {
            Err(e) => {
                let batch = Batch { processed: done, stopped: Some((i, e)) };
                proof {
                    assert(went_through(lines, batch.processed@, states, old(cpu)@, cpu@));
                }
                return batch;
            },
            Ok(instruction) => {
                let ghost earlier = done@;
                let ghost passed = states;
                let ghost entered = cpu@;
                let p = process_instruction(&instruction, cpu);
                done.push(p);
                proof {
                    states = passed.push(cpu@);
                    assert(passed[earlier.len() as int] == entered);
                    assert forall|k: int|
                        #![trigger lines[k]]
                        0 <= k < done@.len() implies line_instruction(lines[k]@) is Ok
                            && processed(
                            line_instruction(lines[k]@)->Ok_0,
                            states[k],
                            states[k + 1],
                            done@[k],
                        ) by {
                        if k < earlier.len() {
                            assert(done@[k] == earlier[k]);
                            assert(states[k] == passed[k]);
                            assert(states[k + 1] == passed[k + 1]);
                        } else {
                            assert(done@[k] == p);
                            assert(states[k] == entered);
                            assert(states[k + 1] == cpu@);
                        }
                    }
                    assert(states[0] == passed[0]);
                }
            },
        }
        i = i + 1;
    }
    let batch = Batch { processed: done, stopped: None };
    proof {
        assert(went_through(lines, batch.processed@, states, old(cpu)@, cpu@));
    }
    batch
}

} // verus!
