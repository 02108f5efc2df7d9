use asm_repl::parser::{
    parse_input, parse_instruction, InputType, Instruction, InstructionType, MemoryDumpFormat,
    MemoryDumpOptions, Operand, ParseError, ParseErrorKind, Register, RegisterDisplayOptions, Shape,
};

fn parsed(line: &str) -> (usize, Instruction) {
    parse_instruction(line).expect("the line parses")
}

fn make(kind: InstructionType, operands: Vec<Operand>) -> Instruction {
    Instruction { instruction_type: kind, operands }
}

#[test]
fn every_mnemonic_is_recognized() {
    let table = [
        ("mov", InstructionType::Mov), ("add", InstructionType::Add), ("sub", InstructionType::Sub),
        ("and", InstructionType::And), ("or", InstructionType::Or), ("xor", InstructionType::Xor),
        ("inc", InstructionType::Inc), ("dec", InstructionType::Dec), ("neg", InstructionType::Neg),
        ("not", InstructionType::Not), ("shl", InstructionType::Shl), ("shr", InstructionType::Shr),
        ("rol", InstructionType::Rol), ("ror", InstructionType::Ror), ("push", InstructionType::Push),
        ("pop", InstructionType::Pop), ("cmp", InstructionType::Cmp), ("test", InstructionType::Test),
        ("jmp", InstructionType::Jmp), ("je", InstructionType::Je), ("jne", InstructionType::Jne),
        ("jg", InstructionType::Jg), ("jge", InstructionType::Jge), ("jl", InstructionType::Jl),
        ("jle", InstructionType::Jle), ("call", InstructionType::Call), ("ret", InstructionType::Ret),
        ("paddd", InstructionType::Paddd), ("bsf", InstructionType::Bsf),
        ("cmovne", InstructionType::Cmovne),
    ];
    for (text, kind) in table {
        assert_eq!(parsed(text), (text.len(), make(kind, vec![])), "{}", text);
    }
}

#[test]
fn every_register_is_recognized() {
    let table = [
        ("rax", Register::Rax), ("rbx", Register::Rbx), ("rcx", Register::Rcx),
        ("rdx", Register::Rdx), ("rsi", Register::Rsi), ("rdi", Register::Rdi),
        ("rbp", Register::Rbp), ("rsp", Register::Rsp), ("r8", Register::R8), ("r9", Register::R9),
        ("r10", Register::R10), ("r11", Register::R11), ("r12", Register::R12),
        ("r13", Register::R13), ("r14", Register::R14), ("r15", Register::R15),
    ];
    for (text, register) in table {
        let line = format!("push {}", text);
        assert_eq!(
            parsed(&line),
            (line.len(), make(InstructionType::Push, vec![Operand::Register(register)]))
        );
        assert_eq!(
            parse_input(text),
            Ok((
                text.len(),
                InputType::Register(register, RegisterDisplayOptions { human_readable: false })
            ))
        );
    }
}

#[test]
fn operands_with_blank_or_comma() {
    let expected = make(
        InstructionType::Mov,
        vec![Operand::Register(Register::Rax), Operand::Immediate(5)],
    );
    for line in ["mov rax 5", "mov rax, 5", "mov rax,5", "mov rax , 5", "  mov\trax\t,\t5", "mov rax 5  "] {
        assert_eq!(parsed(line), (line.len(), expected.clone()), "{:?}", line);
    }
}

#[test]
fn longer_branch_spellings_win() {
    assert_eq!(parsed("jge 5"), (5, make(InstructionType::Jge, vec![Operand::Immediate(5)])));
    assert_eq!(parsed("jle 5"), (5, make(InstructionType::Jle, vec![Operand::Immediate(5)])));
    assert_eq!(parsed("jg 5"), (4, make(InstructionType::Jg, vec![Operand::Immediate(5)])));
    assert_eq!(parsed("jl 5"), (4, make(InstructionType::Jl, vec![Operand::Immediate(5)])));
    assert_eq!(parsed("jne 5"), (5, make(InstructionType::Jne, vec![Operand::Immediate(5)])));
    assert_eq!(parsed("je 5"), (4, make(InstructionType::Je, vec![Operand::Immediate(5)])));
}

#[test]
fn two_digit_registers_are_read_whole() {
    assert_eq!(
        parsed("mov r10 r8"),
        (
            10,
            make(
                InstructionType::Mov,
                vec![Operand::Register(Register::R10), Operand::Register(Register::R8)]
            )
        )
    );
    assert_eq!(
        parsed("inc r15"),
        (7, make(InstructionType::Inc, vec![Operand::Register(Register::R15)]))
    );
}

#[test]
fn the_parser_does_not_judge_arity() {
    assert_eq!(parsed("ret 1 2"), (7, make(InstructionType::Ret, vec![Operand::Immediate(1), Operand::Immediate(2)])));
    assert_eq!(parsed("mov"), (3, make(InstructionType::Mov, vec![])));
    assert_eq!(parsed("mov rax"), (7, make(InstructionType::Mov, vec![Operand::Register(Register::Rax)])));
    // A third operand is left unread.
    assert_eq!(
        parsed("add rax 1 2"),
        (10, make(InstructionType::Add, vec![Operand::Register(Register::Rax), Operand::Immediate(1)]))
    );
}

#[test]
fn operands_need_a_blank_after_the_mnemonic() {
    assert_eq!(parsed("ret5"), (3, make(InstructionType::Ret, vec![])));
    assert_eq!(parsed("mov,rax"), (3, make(InstructionType::Mov, vec![])));
    assert_eq!(parsed("push  qword"), (4, make(InstructionType::Push, vec![])));
}

#[test]
fn immediates() {
    assert_eq!(parsed("jmp 0"), (5, make(InstructionType::Jmp, vec![Operand::Immediate(0)])));
    assert_eq!(parsed("jmp 007"), (7, make(InstructionType::Jmp, vec![Operand::Immediate(7)])));
    assert_eq!(
        parsed("jmp 2147483647"),
        (14, make(InstructionType::Jmp, vec![Operand::Immediate(i32::MAX)]))
    );
    // One more does not fit: no operand is read.
    assert_eq!(parsed("jmp 2147483648"), (3, make(InstructionType::Jmp, vec![])));
    assert_eq!(parsed("jmp 99999999999999999999999"), (3, make(InstructionType::Jmp, vec![])));
    // No sign is part of the syntax.
    assert_eq!(parsed("jmp -1"), (3, make(InstructionType::Jmp, vec![])));
}

#[test]
fn xmm_operands() {
    assert_eq!(
        parsed("paddd xmm0, xmm15"),
        (
            17,
            make(InstructionType::Paddd, vec![Operand::XmmRegister(0), Operand::XmmRegister(15)])
        )
    );
    for index in 0..16u8 {
        let line = format!("paddd xmm{} xmm{}", index, 15 - index);
        assert_eq!(
            parsed(&line),
            (
                line.len(),
                make(
                    InstructionType::Paddd,
                    vec![Operand::XmmRegister(index), Operand::XmmRegister(15 - index)]
                )
            )
        );
    }
    // Leading zeros do not change the index.
    assert_eq!(
        parsed("paddd xmm007 xmm015"),
        (
            19,
            make(InstructionType::Paddd, vec![Operand::XmmRegister(7), Operand::XmmRegister(15)])
        )
    );
}

#[test]
fn xmm_indices_above_fifteen_are_no_operands() {
    assert_eq!(parsed("paddd xmm16 xmm1"), (5, make(InstructionType::Paddd, vec![])));
    assert_eq!(parsed("paddd xmm016 xmm1"), (5, make(InstructionType::Paddd, vec![])));
    assert_eq!(parsed("paddd xmm255 xmm1"), (5, make(InstructionType::Paddd, vec![])));
    assert_eq!(parsed("paddd xmm256 xmm1"), (5, make(InstructionType::Paddd, vec![])));
    assert_eq!(parsed("paddd xmm99999999999999999999 xmm1"), (5, make(InstructionType::Paddd, vec![])));
    assert_eq!(parsed("paddd xmm"), (5, make(InstructionType::Paddd, vec![])));
    // The first operand is read, the second is not.
    assert_eq!(
        parsed("paddd xmm1 xmm16"),
        (11, make(InstructionType::Paddd, vec![Operand::XmmRegister(1)]))
    );
}

#[test]
fn unknown_mnemonic_is_an_error_at_its_position() {
    assert_eq!(
        parse_instruction("foo rax"),
        Err(ParseError { position: 0, kind: ParseErrorKind::Unrecognized })
    );
    assert_eq!(
        parse_instruction("   \tfoo"),
        Err(ParseError { position: 4, kind: ParseErrorKind::Unrecognized })
    );
    assert_eq!(
        parse_instruction(""),
        Err(ParseError { position: 0, kind: ParseErrorKind::Unrecognized })
    );
    assert_eq!(
        parse_instruction("MOV rax 5"),
        Err(ParseError { position: 0, kind: ParseErrorKind::Unrecognized })
    );
    assert_eq!(
        parse_instruction("rax"),
        Err(ParseError { position: 0, kind: ParseErrorKind::Unrecognized })
    );
}

#[test]
fn input_is_an_instruction_first() {
    assert_eq!(
        parse_input("mov rax 5"),
        Ok((
            9,
            InputType::Instruction(make(
                InstructionType::Mov,
                vec![Operand::Register(Register::Rax), Operand::Immediate(5)]
            ))
        ))
    );
    assert_eq!(parse_input(" ret"), Ok((4, InputType::Instruction(make(InstructionType::Ret, vec![])))));
}

#[test]
fn register_queries() {
    assert_eq!(
        parse_input("rax-h"),
        Ok((5, InputType::Register(Register::Rax, RegisterDisplayOptions { human_readable: true })))
    );
    assert_eq!(
        parse_input("r12 -h"),
        Ok((3, InputType::Register(Register::R12, RegisterDisplayOptions { human_readable: false })))
    );
    assert_eq!(
        parse_input(" rax"),
        Err(ParseError { position: 0, kind: ParseErrorKind::Unrecognized })
    );
    assert_eq!(
        parse_input("r16"),
        Err(ParseError { position: 0, kind: ParseErrorKind::Unrecognized })
    );
}

fn memory(address: u64, size: usize, format: MemoryDumpFormat) -> InputType {
    InputType::Memory(MemoryDumpOptions { address, size, format })
}

#[test]
fn memory_commands() {
    assert_eq!(parse_input("memory 0x10"), Ok((11, memory(0x10, 16, MemoryDumpFormat::Hex))));
    assert_eq!(parse_input("memory 0xFfA0"), Ok((13, memory(0xFFA0, 16, MemoryDumpFormat::Hex))));
    assert_eq!(
        parse_input("memory 0x0 -s 64"),
        Ok((16, memory(0, 64, MemoryDumpFormat::Hex)))
    );
    assert_eq!(
        parse_input("memory 0x0 --size 64"),
        Ok((20, memory(0, 64, MemoryDumpFormat::Hex)))
    );
    assert_eq!(
        parse_input("memory 0x0 -s64 -d"),
        Ok((18, memory(0, 64, MemoryDumpFormat::Decimal)))
    );
    assert_eq!(
        parse_input("memory 0x20 -s 32 --decimal"),
        Ok((27, memory(0x20, 32, MemoryDumpFormat::Decimal)))
    );
    assert_eq!(
        parse_input("memory 0x20 --size 32 -x"),
        Ok((24, memory(0x20, 32, MemoryDumpFormat::Hex)))
    );
    assert_eq!(parse_input("memory 0x20 --hex"), Ok((17, memory(0x20, 16, MemoryDumpFormat::Hex))));
    assert_eq!(parse_input("memory 0x20 -d"), Ok((14, memory(0x20, 16, MemoryDumpFormat::Decimal))));
    assert_eq!(
        parse_input("memory \t 0xffffffffffffffff"),
        Ok((27, memory(u64::MAX, 16, MemoryDumpFormat::Hex)))
    );
    // A size without digits is no size option; the rest stays unread.
    assert_eq!(parse_input("memory 0x20 -s x"), Ok((11, memory(0x20, 16, MemoryDumpFormat::Hex))));
}

#[test]
fn memory_command_errors() {
    assert_eq!(
        parse_input("memory"),
        Err(ParseError { position: 6, kind: ParseErrorKind::ExpectedSpace })
    );
    assert_eq!(
        parse_input("memory0x10"),
        Err(ParseError { position: 6, kind: ParseErrorKind::ExpectedSpace })
    );
    assert_eq!(
        parse_input("memory  10"),
        Err(ParseError { position: 8, kind: ParseErrorKind::ExpectedAddress })
    );
    assert_eq!(
        parse_input("memory 0x"),
        Err(ParseError { position: 9, kind: ParseErrorKind::ExpectedAddress })
    );
    assert_eq!(
        parse_input("memory 0xg"),
        Err(ParseError { position: 9, kind: ParseErrorKind::ExpectedAddress })
    );
    assert_eq!(
        parse_input("memory 0x10000000000000000"),
        Err(ParseError { position: 7, kind: ParseErrorKind::AddressTooLarge })
    );
    assert_eq!(
        parse_input("hello"),
        Err(ParseError { position: 0, kind: ParseErrorKind::Unrecognized })
    );
    assert_eq!(
        parse_input(""),
        Err(ParseError { position: 0, kind: ParseErrorKind::Unrecognized })
    );
}

#[test]
fn text_beyond_ascii_is_left_unread() {
    assert_eq!(parsed("ret → 5"), (3, make(InstructionType::Ret, vec![])));
    assert_eq!(
        parsed("push rax→"),
        (8, make(InstructionType::Push, vec![Operand::Register(Register::Rax)]))
    );
    assert_eq!(
        parse_input("→"),
        Err(ParseError { position: 0, kind: ParseErrorKind::Unrecognized })
    );
}

#[test]
fn shapes_follow_the_table() {
    let rax = Operand::Register(Register::Rax);
    let rbx = Operand::Register(Register::Rbx);
    let five = Operand::Immediate(5);
    assert_eq!(
        make(InstructionType::Mov, vec![rax, five]).shape(),
        Some(Shape::RegImm(Register::Rax, 5))
    );
    assert_eq!(
        make(InstructionType::Test, vec![rax, rbx]).shape(),
        Some(Shape::RegReg(Register::Rax, Register::Rbx))
    );
    assert_eq!(make(InstructionType::Neg, vec![rbx]).shape(), Some(Shape::Reg(Register::Rbx)));
    assert_eq!(
        make(InstructionType::Rol, vec![rbx, five]).shape(),
        Some(Shape::RegImm(Register::Rbx, 5))
    );
    assert_eq!(make(InstructionType::Rol, vec![rbx, rax]).shape(), None);
    assert_eq!(make(InstructionType::Jle, vec![five]).shape(), Some(Shape::Imm(5)));
    assert_eq!(make(InstructionType::Ret, vec![]).shape(), Some(Shape::Bare));
    assert_eq!(make(InstructionType::Ret, vec![five]).shape(), None);
    assert_eq!(
        make(InstructionType::Paddd, vec![Operand::XmmRegister(15), Operand::XmmRegister(0)])
            .shape(),
        Some(Shape::XmmXmm(15, 0))
    );
    assert_eq!(
        make(InstructionType::Paddd, vec![Operand::XmmRegister(15), Operand::XmmRegister(16)])
            .shape(),
        None
    );
    assert_eq!(
        make(InstructionType::Cmovne, vec![rax, rbx]).shape(),
        Some(Shape::RegReg(Register::Rax, Register::Rbx))
    );
    assert_eq!(make(InstructionType::Bsf, vec![rax, five]).shape(), None);
    assert_eq!(Shape::RegImm(Register::Rdx, 9).destination(), Register::Rdx);
    assert_eq!(Shape::RegImm(Register::Rdx, 9).constant(), 9);
    assert_eq!(Shape::Imm(-4).constant(), -4);
}
