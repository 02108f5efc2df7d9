use asm_repl::assembler::assemble_instruction;
use asm_repl::parser::{parse_instruction, Instruction, InstructionType, Operand, Register};

fn encode(line: &str) -> Result<Vec<u8>, String> {
    let (_, instruction) = parse_instruction(line).expect("the line parses");
    assemble_instruction(&instruction)
}

fn make(kind: InstructionType, operands: Vec<Operand>) -> Instruction {
    Instruction { instruction_type: kind, operands }
}

fn error(kind: InstructionType, operands: Vec<Operand>) -> String {
    assemble_instruction(&make(kind, operands)).expect_err("the operands do not fit")
}

#[test]
fn mov_forms() {
    assert_eq!(
        encode("mov rax 5"),
        Ok(vec![0x48, 0xB8, 0x05, 0x00, 0x00, 0x00, 0x00, 0x00, 0x00, 0x00])
    );
    assert_eq!(encode("mov rax rbx"), Ok(vec![0x48, 0x89, 0xD8]));
    assert_eq!(encode("mov r8 r15"), Ok(vec![0x4D, 0x89, 0xF8]));
    assert_eq!(
        assemble_instruction(&make(
            InstructionType::Mov,
            vec![Operand::Register(Register::Rcx), Operand::Immediate(-1)]
        )),
        Ok(vec![0x48, 0xB9, 0xFF, 0xFF, 0xFF, 0xFF, 0xFF, 0xFF, 0xFF, 0xFF])
    );
}

#[test]
fn every_register_reaches_the_encoder_under_its_own_name() {
    let pushes: [(&str, Vec<u8>); 16] = [
        ("rax", vec![0x50]), ("rcx", vec![0x51]), ("rdx", vec![0x52]), ("rbx", vec![0x53]),
        ("rsp", vec![0x54]), ("rbp", vec![0x55]), ("rsi", vec![0x56]), ("rdi", vec![0x57]),
        ("r8", vec![0x41, 0x50]), ("r9", vec![0x41, 0x51]), ("r10", vec![0x41, 0x52]),
        ("r11", vec![0x41, 0x53]), ("r12", vec![0x41, 0x54]), ("r13", vec![0x41, 0x55]),
        ("r14", vec![0x41, 0x56]), ("r15", vec![0x41, 0x57]),
    ];
    for (name, bytes) in pushes {
        assert_eq!(encode(&format!("push {}", name)), Ok(bytes), "{}", name);
    }
}

#[test]
fn arithmetic_with_registers() {
    assert_eq!(encode("add rax rbx"), Ok(vec![0x48, 0x01, 0xD8]));
    assert_eq!(encode("sub rax rbx"), Ok(vec![0x48, 0x29, 0xD8]));
    assert_eq!(encode("and rax rbx"), Ok(vec![0x48, 0x21, 0xD8]));
    assert_eq!(encode("or rax rbx"), Ok(vec![0x48, 0x09, 0xD8]));
    assert_eq!(encode("xor rax rax"), Ok(vec![0x48, 0x31, 0xC0]));
    assert_eq!(encode("cmp rax rbx"), Ok(vec![0x48, 0x39, 0xD8]));
    assert_eq!(encode("test rax rbx"), Ok(vec![0x48, 0x85, 0xD8]));
}

#[test]
fn arithmetic_with_immediates() {
    assert_eq!(encode("add rbx 5"), Ok(vec![0x48, 0x83, 0xC3, 0x05]));
    assert_eq!(encode("sub rbx 5"), Ok(vec![0x48, 0x83, 0xEB, 0x05]));
    assert_eq!(encode("and rbx 5"), Ok(vec![0x48, 0x83, 0xE3, 0x05]));
    assert_eq!(encode("or rbx 5"), Ok(vec![0x48, 0x83, 0xCB, 0x05]));
    assert_eq!(encode("xor rbx 5"), Ok(vec![0x48, 0x83, 0xF3, 0x05]));
    assert_eq!(encode("cmp rbx 5"), Ok(vec![0x48, 0x83, 0xFB, 0x05]));
    assert_eq!(encode("test rbx 5"), Ok(vec![0x48, 0xF7, 0xC3, 0x05, 0x00, 0x00, 0x00]));
    assert_eq!(encode("add rbx 1000"), Ok(vec![0x48, 0x81, 0xC3, 0xE8, 0x03, 0x00, 0x00]));
    assert_eq!(encode("add rax 5"), Ok(vec![0x48, 0x05, 0x05, 0x00, 0x00, 0x00]));
}

#[test]
fn one_register_forms() {
    assert_eq!(encode("inc rax"), Ok(vec![0x48, 0xFF, 0xC0]));
    assert_eq!(encode("dec rax"), Ok(vec![0x48, 0xFF, 0xC8]));
    assert_eq!(encode("neg rax"), Ok(vec![0x48, 0xF7, 0xD8]));
    assert_eq!(encode("not rax"), Ok(vec![0x48, 0xF7, 0xD0]));
    assert_eq!(encode("push rax"), Ok(vec![0x50]));
    assert_eq!(encode("pop rax"), Ok(vec![0x58]));
    assert_eq!(encode("pop r12"), Ok(vec![0x41, 0x5C]));
}

#[test]
fn shifts_and_rotates() {
    assert_eq!(encode("shl rax 1"), Ok(vec![0x48, 0xD1, 0xE0]));
    assert_eq!(encode("shl rax 4"), Ok(vec![0x48, 0xC1, 0xE0, 0x04]));
    assert_eq!(encode("shr rax 4"), Ok(vec![0x48, 0xC1, 0xE8, 0x04]));
    assert_eq!(encode("rol rax 4"), Ok(vec![0x48, 0xC1, 0xC0, 0x04]));
    assert_eq!(encode("ror rax 4"), Ok(vec![0x48, 0xC1, 0xC8, 0x04]));
}

#[test]
fn branches_and_calls() {
    assert_eq!(encode("jmp 16"), Ok(vec![0xEB, 0x0E]));
    assert_eq!(encode("je 16"), Ok(vec![0x74, 0x0E]));
    assert_eq!(encode("jne 16"), Ok(vec![0x75, 0x0E]));
    assert_eq!(encode("jg 16"), Ok(vec![0x7F, 0x0E]));
    assert_eq!(encode("jge 16"), Ok(vec![0x7D, 0x0E]));
    assert_eq!(encode("jl 16"), Ok(vec![0x7C, 0x0E]));
    assert_eq!(encode("jle 16"), Ok(vec![0x7E, 0x0E]));
    assert_eq!(encode("call 16"), Ok(vec![0xE8, 0x0B, 0x00, 0x00, 0x00]));
    assert_eq!(encode("ret"), Ok(vec![0xC3]));
}

#[test]
fn packed_and_scanning_forms() {
    assert_eq!(encode("paddd xmm0 xmm1"), Ok(vec![0x66, 0x0F, 0xFE, 0xC1]));
    assert_eq!(encode("paddd xmm15 xmm8"), Ok(vec![0x66, 0x45, 0x0F, 0xFE, 0xF8]));
    assert_eq!(encode("bsf rax rbx"), Ok(vec![0x48, 0x0F, 0xBC, 0xC3]));
    assert_eq!(encode("cmovne rax rbx"), Ok(vec![0x48, 0x0F, 0x45, 0xC3]));
}

#[test]
fn two_encodings_are_the_same_bytes() {
    for line in ["mov rax 5", "add r9 r10", "jle 1000", "paddd xmm3 xmm4", "ret", "shl rdx 63"] {
        let first = encode(line);
        let second = encode(line);
        assert!(first.is_ok(), "{}", line);
        assert_eq!(first, second, "{}", line);
    }
}

#[test]
fn misfit_messages() {
    let rax = Operand::Register(Register::Rax);
    let one = Operand::Immediate(1);
    let x0 = Operand::XmmRegister(0);
    assert_eq!(error(InstructionType::Mov, vec![]), "MOV instruction requires exactly two operands");
    assert_eq!(error(InstructionType::Mov, vec![rax]), "MOV instruction requires exactly two operands");
    assert_eq!(error(InstructionType::Mov, vec![one, rax]), "Invalid operands for mov instruction");
    assert_eq!(error(InstructionType::Add, vec![]), "Invalid operands for add instruction");
    assert_eq!(error(InstructionType::Sub, vec![rax]), "Invalid operands for sub instruction");
    assert_eq!(error(InstructionType::And, vec![rax, x0]), "Invalid operands for and instruction");
    assert_eq!(error(InstructionType::Or, vec![one, one]), "Invalid operands for or instruction");
    assert_eq!(error(InstructionType::Xor, vec![x0, x0]), "Invalid operands for xor instruction");
    assert_eq!(error(InstructionType::Cmp, vec![rax, rax, rax]), "Invalid operands for cmp instruction");
    assert_eq!(error(InstructionType::Test, vec![]), "Invalid operands for test instruction");
    assert_eq!(error(InstructionType::Inc, vec![one]), "Invalid operand for inc instruction");
    assert_eq!(error(InstructionType::Dec, vec![]), "Invalid operand for dec instruction");
    assert_eq!(error(InstructionType::Neg, vec![x0]), "Invalid operand for neg instruction");
    assert_eq!(error(InstructionType::Not, vec![rax, rax]), "Invalid operand for not instruction");
    assert_eq!(error(InstructionType::Push, vec![one]), "Invalid operand for push instruction");
    assert_eq!(error(InstructionType::Pop, vec![]), "Invalid operand for pop instruction");
    assert_eq!(error(InstructionType::Shl, vec![rax, rax]), "Invalid operands for shl instruction");
    assert_eq!(error(InstructionType::Shr, vec![rax]), "Invalid operands for shr instruction");
    assert_eq!(error(InstructionType::Rol, vec![one, one]), "Invalid operands for rol instruction");
    assert_eq!(error(InstructionType::Ror, vec![]), "Invalid operands for ror instruction");
    assert_eq!(error(InstructionType::Jmp, vec![rax]), "Invalid operand for jmp instruction");
    assert_eq!(error(InstructionType::Je, vec![]), "Invalid operand for je instruction");
    assert_eq!(error(InstructionType::Jne, vec![x0]), "Invalid operand for jne instruction");
    assert_eq!(error(InstructionType::Jg, vec![one, one]), "Invalid operand for jg instruction");
    assert_eq!(error(InstructionType::Jge, vec![rax]), "Invalid operand for jge instruction");
    assert_eq!(error(InstructionType::Jl, vec![rax]), "Invalid operand for jl instruction");
    assert_eq!(error(InstructionType::Jle, vec![rax]), "Invalid operand for jle instruction");
    assert_eq!(error(InstructionType::Call, vec![rax]), "Invalid operand for call instruction");
    assert_eq!(error(InstructionType::Ret, vec![one]), "Invalid operands for ret instruction");
    assert_eq!(error(InstructionType::Paddd, vec![x0]), "PADDD instruction requires exactly two operands");
    assert_eq!(error(InstructionType::Paddd, vec![rax, x0]), "Invalid operands for paddd instruction");
    assert_eq!(
        error(InstructionType::Paddd, vec![Operand::XmmRegister(16), x0]),
        "Invalid destination XMM register"
    );
    assert_eq!(
        error(InstructionType::Paddd, vec![Operand::XmmRegister(16), Operand::XmmRegister(17)]),
        "Invalid destination XMM register"
    );
    assert_eq!(
        error(InstructionType::Paddd, vec![x0, Operand::XmmRegister(255)]),
        "Invalid source XMM register"
    );
    assert_eq!(error(InstructionType::Bsf, vec![rax]), "BSF instruction requires exactly two operands");
    assert_eq!(error(InstructionType::Bsf, vec![rax, one]), "Invalid operands for bsf instruction");
    assert_eq!(error(InstructionType::Cmovne, vec![]), "CMOVNE instruction requires exactly two operands");
    assert_eq!(error(InstructionType::Cmovne, vec![one, rax]), "Invalid operands for cmovne instruction");
}

#[test]
fn counts_that_share_a_byte_share_their_bytes() {
    let shl = |count: i32| {
        assemble_instruction(&make(
            InstructionType::Shl,
            vec![Operand::Register(Register::Rax), Operand::Immediate(count)],
        ))
    };
    assert_eq!(shl(255), Ok(vec![0x48, 0xC1, 0xE0, 0xFF]));
    assert_eq!(shl(-1), Ok(vec![0x48, 0xC1, 0xE0, 0xFF]));
    assert_eq!(shl(-128), Ok(vec![0x48, 0xC1, 0xE0, 0x80]));
    assert_eq!(shl(128), Ok(vec![0x48, 0xC1, 0xE0, 0x80]));
    assert!(shl(256).is_err());
    assert!(shl(-129).is_err());
    for (kind, byte) in [
        (InstructionType::Shr, 0xE8u8),
        (InstructionType::Rol, 0xC0),
        (InstructionType::Ror, 0xC8),
    ] {
        for count in [-1, 255] {
            assert_eq!(
                assemble_instruction(&make(
                    kind,
                    vec![Operand::Register(Register::Rbx), Operand::Immediate(count)]
                )),
                Ok(vec![0x48, 0xC1, byte + 3, 0xFF])
            );
        }
    }
}

#[test]
fn a_count_that_the_encoder_cannot_hold_is_its_error() {
    let refused = assemble_instruction(&make(
        InstructionType::Shl,
        vec![Operand::Register(Register::Rax), Operand::Immediate(100_000)],
    ));
    assert!(refused.is_err());
    assert!(!refused.unwrap_err().is_empty());
}
