use asm_repl::cpu::CPU;
use asm_repl::parser::{Instruction, InstructionType, Operand, ParseError, ParseErrorKind, Register};
use asm_repl::semantics::ExecuteError;
use asm_repl::session::{
    execute_multi_instructions, handle_single_instruction, process_instruction, Batch, Handled,
    Processed,
};

fn state(cpu: &CPU) -> String {
    format!("{:?}", cpu)
}

#[test]
fn an_instruction_is_encoded_and_carried_out() {
    let mut cpu = CPU::new();
    let mov = Instruction {
        instruction_type: InstructionType::Mov,
        operands: vec![Operand::Register(Register::Rbx), Operand::Register(Register::Rsp)],
    };
    assert_eq!(process_instruction(&mov, &mut cpu), Processed::Done(vec![0x48, 0x89, 0xE3]));
    assert_eq!(cpu.rbx, cpu.rsp);
    assert_eq!(cpu.rip, 1);
}

#[test]
fn a_refused_instruction_changes_nothing() {
    let mut cpu = CPU::new();
    let before = state(&cpu);
    let bad = Instruction { instruction_type: InstructionType::Push, operands: vec![] };
    assert_eq!(
        process_instruction(&bad, &mut cpu),
        Processed::Refused("Invalid operand for push instruction".to_string())
    );
    assert_eq!(state(&cpu), before);
    // The encoder cannot hold this count, so the shift is not carried out either.
    let wide = Instruction {
        instruction_type: InstructionType::Shl,
        operands: vec![Operand::Register(Register::Rax), Operand::Immediate(100_000)],
    };
    assert!(matches!(process_instruction(&wide, &mut cpu), Processed::Refused(_)));
    assert_eq!(state(&cpu), before);
}

#[test]
fn an_instruction_that_cannot_run_keeps_its_bytes() {
    let mut cpu = CPU::new();
    cpu.rsp = 0;
    let before = state(&cpu);
    let push = Instruction {
        instruction_type: InstructionType::Push,
        operands: vec![Operand::Register(Register::Rax)],
    };
    assert_eq!(
        process_instruction(&push, &mut cpu),
        Processed::Failed(vec![0x50], ExecuteError::MemoryOutOfBounds)
    );
    assert_eq!(state(&cpu), before);
}

#[test]
fn lines_of_every_kind() {
    let mut cpu = CPU::new();
    assert_eq!(
        handle_single_instruction("mov rax 255", &mut cpu),
        Handled::Instruction(Processed::Done(vec![0x48, 0xB8, 0xFF, 0, 0, 0, 0, 0, 0, 0]))
    );
    assert_eq!(
        handle_single_instruction("rax", &mut cpu),
        Handled::Register("Rax: 0x00000000000000ff".to_string())
    );
    assert_eq!(
        handle_single_instruction("rax-h", &mut cpu),
        Handled::Register("Rax = 255".to_string())
    );
    assert_eq!(
        handle_single_instruction("memory 0x0 -s 16 -d", &mut cpu),
        Handled::Memory(
            "Memory Dump at 0x0:\n0x00000000:    0   0   0   0   0   0   0   0   0   0   0   0   0   0   0   0 \n"
                .to_string()
        )
    );
    let before = state(&cpu);
    assert_eq!(
        handle_single_instruction("what", &mut cpu),
        Handled::Unparsed(ParseError { position: 0, kind: ParseErrorKind::Unrecognized })
    );
    assert_eq!(
        handle_single_instruction("mov 5 rax", &mut cpu),
        Handled::Instruction(Processed::Refused("Invalid operands for mov instruction".to_string()))
    );
    assert_eq!(state(&cpu), before);
}

#[test]
fn a_batch_runs_in_order() {
    let mut cpu = CPU::new();
    let lines: Vec<String> =
        ["mov rax 5", "mov rbx 3", "sub rax rbx", "push", "inc rax"].iter().map(|s| s.to_string()).collect();
    let batch = execute_multi_instructions(&mut cpu, &lines);
    assert_eq!(batch.stopped, None);
    assert_eq!(batch.processed.len(), 5);
    assert_eq!(batch.processed[2], Processed::Done(vec![0x48, 0x29, 0xD8]));
    assert_eq!(
        batch.processed[3],
        Processed::Refused("Invalid operand for push instruction".to_string())
    );
    assert_eq!(batch.processed[4], Processed::Done(vec![0x48, 0xFF, 0xC0]));
    assert_eq!(cpu.rax, 3);
    assert_eq!(cpu.rip, 4);
}

#[test]
fn a_batch_ends_at_the_first_line_that_is_no_instruction() {
    let mut cpu = CPU::new();
    let lines: Vec<String> = ["inc rax", "rax", "inc rax"].iter().map(|s| s.to_string()).collect();
    let batch = execute_multi_instructions(&mut cpu, &lines);
    assert_eq!(
        batch,
        Batch {
            processed: vec![Processed::Done(vec![0x48, 0xFF, 0xC0])],
            stopped: Some((1, ParseError { position: 0, kind: ParseErrorKind::Unrecognized })),
        }
    );
    assert_eq!(cpu.rax, 1);
    let none: Vec<String> = Vec::new();
    assert_eq!(
        execute_multi_instructions(&mut cpu, &none),
        Batch { processed: vec![], stopped: None }
    );
}
