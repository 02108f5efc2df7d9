use asm_repl::cpu::CPU;
use asm_repl::parser::{MemoryDumpFormat, MemoryDumpOptions, Register, RegisterDisplayOptions};
use asm_repl::text::{digit_text, numeral_len, push_numeral, push_padded_numeral, push_repeated};

#[test]
fn register_in_hexadecimal() {
    let mut cpu = CPU::new();
    cpu.rax = 5;
    let plain = RegisterDisplayOptions { human_readable: false };
    assert_eq!(cpu.format_register_value(&Register::Rax, &plain), format!("{:?}: {:#018x}", Register::Rax, 5));
    assert_eq!(cpu.format_register_value(&Register::Rax, &plain), "Rax: 0x0000000000000005");
    assert_eq!(cpu.format_register_value(&Register::Rsp, &plain), "Rsp: 0x00000000000ffff8");
    cpu.r15 = u64::MAX;
    assert_eq!(cpu.format_register_value(&Register::R15, &plain), "R15: 0xffffffffffffffff");
}

#[test]
fn register_in_decimal() {
    let mut cpu = CPU::new();
    cpu.r8 = 1234567890;
    let human = RegisterDisplayOptions { human_readable: true };
    assert_eq!(cpu.format_register_value(&Register::R8, &human), "R8 = 1234567890");
    assert_eq!(cpu.format_register_value(&Register::Rbx, &human), "Rbx = 0");
    cpu.rbp = u64::MAX;
    assert_eq!(cpu.format_register_value(&Register::Rbp, &human), format!("Rbp = {}", u64::MAX));
}

#[test]
fn register_labels_are_the_debug_names() {
    for r in [
        Register::Rax, Register::Rbx, Register::Rcx, Register::Rdx, Register::Rsi, Register::Rdi,
        Register::Rbp, Register::Rsp, Register::R8, Register::R9, Register::R10, Register::R11,
        Register::R12, Register::R13, Register::R14, Register::R15,
    ] {
        assert_eq!(r.label(), format!("{:?}", r));
    }
}

#[test]
fn numerals() {
    let mut out = String::from("x");
    push_numeral(&mut out, 0, 10);
    push_numeral(&mut out, 255, 16);
    push_numeral(&mut out, 5, 2);
    push_numeral(&mut out, 1_000_000, 10);
    assert_eq!(out, "x0ff1011000000");
    assert_eq!(numeral_len(0, 10), 1);
    assert_eq!(numeral_len(9, 10), 1);
    assert_eq!(numeral_len(10, 10), 2);
    assert_eq!(numeral_len(u64::MAX, 2), 64);
    assert_eq!(numeral_len(u64::MAX, 16), 16);
    assert_eq!(digit_text(11), "b");
}

#[test]
fn padding() {
    let mut out = String::new();
    push_padded_numeral(&mut out, 7, 10, 3, " ");
    push_padded_numeral(&mut out, 0xabc, 16, 2, "0");
    push_padded_numeral(&mut out, 0xa, 16, 2, "0");
    push_repeated(&mut out, "-", 3);
    push_repeated(&mut out, "-", 0);
    assert_eq!(out, "  7abc0a---");
}

#[test]
fn dump_in_hexadecimal() {
    let mut cpu = CPU::new();
    cpu.memory[0x10] = 0xAB;
    cpu.memory[0x1f] = 0x01;
    cpu.memory[0x20] = 0xFF;
    let text = cpu.dump_memory(&MemoryDumpOptions { address: 0x10, size: 32, format: MemoryDumpFormat::Hex });
    assert_eq!(
        text,
        "Memory Dump at 0x10:\n\
         0x00000010:  ab 00 00 00 00 00 00 00 00 00 00 00 00 00 00 01 \n\
         0x00000020:  ff 00 00 00 00 00 00 00 00 00 00 00 00 00 00 00 \n"
    );
}

#[test]
fn dump_in_decimal() {
    let mut cpu = CPU::new();
    cpu.memory[0] = 7;
    cpu.memory[1] = 42;
    cpu.memory[2] = 255;
    let text = cpu.dump_memory(&MemoryDumpOptions { address: 0, size: 16, format: MemoryDumpFormat::Decimal });
    assert_eq!(
        text,
        "Memory Dump at 0x0:\n\
         0x00000000:    7  42 255   0   0   0   0   0   0   0   0   0   0   0   0   0 \n"
    );
}

#[test]
fn dump_counts_whole_rows_only() {
    let cpu = CPU::new();
    let hex = MemoryDumpFormat::Hex;
    assert_eq!(cpu.dump_memory(&MemoryDumpOptions { address: 0xff, size: 15, format: hex }), "Memory Dump at 0xff:\n");
    assert_eq!(cpu.dump_memory(&MemoryDumpOptions { address: 0, size: 0, format: hex }), "Memory Dump at 0x0:\n");
    let text = cpu.dump_memory(&MemoryDumpOptions { address: 0, size: 47, format: hex });
    assert_eq!(text.lines().count(), 3);
}

#[test]
fn dump_beyond_the_memory_shows_question_marks() {
    let cpu = CPU::new();
    let text = cpu.dump_memory(&MemoryDumpOptions {
        address: 1024 * 1024 - 4,
        size: 16,
        format: MemoryDumpFormat::Hex,
    });
    assert_eq!(
        text,
        "Memory Dump at 0xffffc:\n\
         0x000ffffc:  00 00 00 00 ?? ?? ?? ?? ?? ?? ?? ?? ?? ?? ?? ?? \n"
    );
    let far = cpu.dump_memory(&MemoryDumpOptions {
        address: u64::MAX - 7,
        size: 32,
        format: MemoryDumpFormat::Decimal,
    });
    assert_eq!(
        far,
        "Memory Dump at 0xfffffffffffffff8:\n\
         0xfffffffffffffff8:  ?? ?? ?? ?? ?? ?? ?? ?? ?? ?? ?? ?? ?? ?? ?? ?? \n\
         0x00000008:  ?? ?? ?? ?? ?? ?? ?? ?? ?? ?? ?? ?? ?? ?? ?? ?? \n"
    );
}
