use asm_repl::calculator::{
    bit_rotate, bit_shift, bits, bitwise_op, calculate, convert_base, push_signed,
    register_value, twos_complement, Calculation,
};
use asm_repl::cpu::CPU;

fn answer(line: &str) -> Result<String, String> {
    match calculate(line, &CPU::new()) {
        Calculation::Answer(r) => r,
        other => panic!("not an answer: {:?}", other),
    }
}

fn ok(text: &str) -> Result<String, String> {
    Ok(text.to_string())
}

fn err(text: &str) -> Result<String, String> {
    Err(text.to_string())
}

#[test]
fn empty_and_unknown_input() {
    assert_eq!(answer(""), err("No input provided"));
    assert_eq!(answer("  \t "), err("No input provided"));
    assert_eq!(answer("frobnicate 1"), err("Unknown operation"));
    assert_eq!(answer("HEX 10"), err("Unknown operation"));
}

#[test]
fn base_conversion() {
    assert_eq!(answer("hex ff"), ok("Hex: 0xff\nDecimal: 255\nBinary: 0b11111111"));
    assert_eq!(answer("hex ff"), ok(&format!("Hex: {:#x}\nDecimal: {}\nBinary: {:#b}", 255i64, 255i64, 255i64)));
    assert_eq!(answer("hex FF"), ok("Hex: 0xff\nDecimal: 255\nBinary: 0b11111111"));
    assert_eq!(answer("bin 101"), ok("Hex: 0x5\nDecimal: 5\nBinary: 0b101"));
    assert_eq!(answer("dec 0"), ok("Hex: 0x0\nDecimal: 0\nBinary: 0b0"));
    assert_eq!(answer("dec -1"), ok(&format!("Hex: {:#x}\nDecimal: {}\nBinary: {:#b}", -1i64, -1i64, -1i64)));
    assert_eq!(
        answer("dec -9223372036854775808"),
        ok(&format!("Hex: {:#x}\nDecimal: {}\nBinary: {:#b}", i64::MIN, i64::MIN, i64::MIN))
    );
    assert_eq!(answer("dec +7"), ok("Hex: 0x7\nDecimal: 7\nBinary: 0b111"));
    assert_eq!(answer("hex"), err("Usage: hex/bin/dec <value>"));
    assert_eq!(answer("hex 1 2"), err("Usage: hex/bin/dec <value>"));
    assert_eq!(convert_base(&["oct", "7"]), err("Invalid base specified"));
}

#[test]
fn base_conversion_errors_carry_the_reason() {
    for (line, text, radix) in [
        ("bin 12", "12", 2),
        ("dec 1a", "1a", 10),
        ("hex 0x10", "0x10", 16),
        ("dec -", "-", 10),
        ("dec +", "+", 10),
        ("dec 9223372036854775808", "9223372036854775808", 10),
        ("dec -9223372036854775809", "-9223372036854775809", 10),
        ("hex 8000000000000000", "8000000000000000", 16),
        ("dec 99999999999999999999x", "99999999999999999999x", 10),
        ("dec 1_000", "1_000", 10),
    ] {
        let reason = i64::from_str_radix(text, radix).unwrap_err();
        assert_eq!(answer(line), Err(format!("Invalid input: {}", reason)), "{}", line);
    }
    assert_eq!(answer("dec 1a"), err("Invalid input: invalid digit found in string"));
    assert_eq!(
        answer("dec 9223372036854775808"),
        err("Invalid input: number too large to fit in target type")
    );
    assert_eq!(
        answer("dec -9223372036854775809"),
        err("Invalid input: number too small to fit in target type")
    );
}

#[test]
fn an_empty_number_has_its_own_reason() {
    let reason = "".parse::<u64>().unwrap_err();
    assert_eq!(bit_shift(&["shl", "", "1"]), Err(format!("Invalid value: {}", reason)));
    assert_eq!(
        bit_shift(&["shl", "", "1"]),
        err("Invalid value: cannot parse integer from empty string")
    );
}

#[test]
fn bitwise_operations_on_many_values() {
    assert_eq!(answer("and 255 15 9"), ok("Result: 0x9 (9)"));
    assert_eq!(answer("and 255"), ok("Result: 0xff (255)"));
    assert_eq!(answer("or 1 2 4"), ok("Result: 0x7 (7)"));
    assert_eq!(answer("xor 7 1 2"), ok("Result: 0x4 (4)"));
    assert_eq!(answer("not 0"), ok("Result: 0xffffffffffffffff (18446744073709551615)"));
    assert_eq!(answer("not 1 2"), ok("Result: 0xfffffffffffffffe (18446744073709551614)"));
    assert_eq!(answer("and"), err("Not enough arguments for bitwise operation"));
    assert_eq!(answer("or 1 x 99999999999999999999"), err("Invalid input: invalid digit found in string"));
    assert_eq!(
        answer("or 1 99999999999999999999 x"),
        err("Invalid input: number too large to fit in target type")
    );
    assert_eq!(answer("not 1 -2"), err("Invalid input: invalid digit found in string"));
    assert_eq!(bitwise_op(&["nand", "1"]), err("Unknown bitwise operation"));
}

#[test]
fn shifts_and_rotations() {
    assert_eq!(answer("shl 1 4"), ok("Result: 0x10 (16)"));
    assert_eq!(answer("shr 256 4"), ok("Result: 0x10 (16)"));
    assert_eq!(answer("shl 1 64"), ok("Result: 0x1 (1)"));
    assert_eq!(answer("shl 1"), err("Usage: shl/shr <value> <shift amount>"));
    assert_eq!(answer("shl x 1"), err("Invalid value: invalid digit found in string"));
    assert_eq!(answer("shl 1 x"), err("Invalid shift amount: invalid digit found in string"));
    assert_eq!(
        answer("shr 1 4294967296"),
        err("Invalid shift amount: number too large to fit in target type")
    );
    assert_eq!(answer("rol 9223372036854775809 1"), ok("Result: 0x3 (3)"));
    assert_eq!(answer("ror 3 1"), ok("Result: 0x8000000000000001 (9223372036854775809)"));
    assert_eq!(answer("ror 3 65"), ok("Result: 0x8000000000000001 (9223372036854775809)"));
    assert_eq!(answer("rol 3 2 1"), err("Usage: rol/ror <value> <rotate amount>"));
    assert_eq!(answer("rol -3 2"), err("Invalid value: invalid digit found in string"));
    assert_eq!(answer("rol 3 y"), err("Invalid rotate amount: invalid digit found in string"));
    assert_eq!(bit_rotate(&["ror", "1", "1"]), ok("Result: 0x8000000000000000 (9223372036854775808)"));
}

#[test]
fn twos_complement_of_signed_numbers() {
    assert_eq!(answer("twos 5"), ok(&format!("Two's complement: {:#x} ({})", -5i64, -5i64)));
    assert_eq!(answer("twos 5"), ok("Two's complement: 0xfffffffffffffffb (-5)"));
    assert_eq!(answer("twos -5"), ok("Two's complement: 0x5 (5)"));
    assert_eq!(answer("twos 0"), ok("Two's complement: 0x0 (0)"));
    assert_eq!(
        answer("twos -9223372036854775808"),
        ok("Two's complement: 0x8000000000000000 (-9223372036854775808)")
    );
    assert_eq!(answer("twos"), err("Usage: twos <value>"));
    assert_eq!(answer("twos five"), err("Invalid value: invalid digit found in string"));
    assert_eq!(twos_complement(&["twos", "1"]), ok("Two's complement: 0xffffffffffffffff (-1)"));
}

#[test]
fn register_values() {
    let mut cpu = CPU::new();
    cpu.rax = 255;
    cpu.rdx = 1;
    assert_eq!(calculate("reg rax", &cpu), Calculation::Answer(ok("RAX value: 0xff (255)")));
    assert_eq!(calculate("reg RDX", &cpu), Calculation::Answer(ok("RDX value: 0x1 (1)")));
    assert_eq!(calculate("reg rbx", &cpu), Calculation::Answer(ok("RBX value: 0x0 (0)")));
    assert_eq!(calculate("reg Rcx", &cpu), Calculation::Answer(ok("RCX value: 0x0 (0)")));
    assert_eq!(calculate("reg rsi", &cpu), Calculation::Answer(err("Unknown register: RSI")));
    assert_eq!(calculate("reg", &cpu), Calculation::Answer(err("Usage: reg <register_name>")));
    assert_eq!(register_value(&["reg", "straße"], &cpu), err("Unknown register: STRASSE"));
}

#[test]
fn floating_point_operations_are_handed_back() {
    let cpu = CPU::new();
    assert_eq!(
        calculate("sin 30", &cpu),
        Calculation::Trigonometric("sin".to_string(), "30".to_string())
    );
    assert_eq!(
        calculate("  tan   x ", &cpu),
        Calculation::Trigonometric("tan".to_string(), "x".to_string())
    );
    assert_eq!(
        calculate("cos", &cpu),
        Calculation::Answer(err("Invalid number of arguments for trigonometric operation"))
    );
    assert_eq!(
        calculate("/ 1 0", &cpu),
        Calculation::Arithmetic("/".to_string(), "1".to_string(), "0".to_string())
    );
    assert_eq!(
        calculate("+ 1.5 2", &cpu),
        Calculation::Arithmetic("+".to_string(), "1.5".to_string(), "2".to_string())
    );
    assert_eq!(
        calculate("* 1", &cpu),
        Calculation::Answer(err("Invalid number of arguments for arithmetic operation"))
    );
    assert_eq!(calculate("float_to_ieee 1.0", &cpu), Calculation::FloatBits("1.0".to_string()));
    assert_eq!(
        calculate("float_to_ieee", &cpu),
        Calculation::Answer(err("Usage: float_to_ieee <value>"))
    );
}

#[test]
fn signed_numbers_as_text_and_bits() {
    let mut out = String::new();
    push_signed(&mut out, -42);
    push_signed(&mut out, 42);
    push_signed(&mut out, i64::MIN);
    assert_eq!(out, "-4242-9223372036854775808");
    assert_eq!(bits(-1), u64::MAX);
    assert_eq!(bits(i64::MIN), 1 << 63);
    assert_eq!(bits(9), 9);
}
