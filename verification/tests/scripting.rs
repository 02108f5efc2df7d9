use asm_repl::cpu::CPU;
use asm_repl::script_mode::{
    arithmetic, assignment, bitwise, call, decimal, evaluate_expression, get_value,
    memory_operation, range, register_by_name, rotate, shift, upper_label, ScriptEnvironment,
    ScriptFunction,
};
use asm_repl::parser::Register;
use asm_repl::table::Table;
use asm_repl::user_functions::{binary, double, load_user_functions};

fn ok(text: &str) -> Result<String, String> {
    Ok(text.to_string())
}

fn err(text: &str) -> Result<String, String> {
    Err(text.to_string())
}

fn run(env: &mut ScriptEnvironment, script: &str) -> Result<String, String> {
    env.execute_script(script, &CPU::new())
}

#[test]
fn default_functions_are_callable() {
    let mut env = ScriptEnvironment::new();
    let mut cpu = CPU::new();
    cpu.rax = 42;
    assert_eq!(env.execute_script("decimal rax", &cpu), ok("RAX in decimal: 42\n"));
    assert_eq!(run(&mut env, "→ x 5"), ok("x ← 5\n"));
    assert_eq!(run(&mut env, "+ x 3"), ok("Result: 8\n"));
    assert_eq!(run(&mut env, "- x 3"), ok("Result: 2\n"));
    assert_eq!(run(&mut env, "× x 3"), ok("Result: 15\n"));
    assert_eq!(run(&mut env, "÷ x 2"), ok("Result: 2\n"));
    assert_eq!(run(&mut env, "∧ 12 10"), ok("Result: 0x8\n"));
    assert_eq!(run(&mut env, "∨ 12 10"), ok("Result: 0xe\n"));
    assert_eq!(run(&mut env, "⊻ 12 10"), ok("Result: 0x6\n"));
    assert_eq!(run(&mut env, "⌽ 1 4"), ok("Result: 0x10\n"));
    assert_eq!(run(&mut env, "↑ 1 4"), ok("Result: 0x10\n"));
    assert_eq!(run(&mut env, "↓ 256 4"), ok("Result: 0x10\n"));
    assert_eq!(run(&mut env, "? 0"), ok("Value at address 0x0: 0x0\n"));
    assert_eq!(run(&mut env, "ι 3"), ok("Range: [0, 1, 2]\n"));
}

#[test]
fn user_functions_are_not_there_until_loaded() {
    let mut env = ScriptEnvironment::new();
    assert_eq!(run(&mut env, "double 4"), err("Unknown function: double"));
    load_user_functions(&mut env);
    assert_eq!(run(&mut env, "double 4"), ok("Result: 8\n"));
    let mut cpu = CPU::new();
    cpu.rbx = 5;
    assert_eq!(env.execute_script("binary RBX", &cpu), ok("RBX in binary: 101\n"));
}

#[test]
fn add_function_binds_and_rebinds_a_name() {
    let mut env = ScriptEnvironment::new();
    env.add_function("twice", ScriptFunction::Double);
    assert_eq!(run(&mut env, "twice 21"), ok("Result: 42\n"));
    env.add_function("+", ScriptFunction::Subtract);
    assert_eq!(run(&mut env, "+ 5 3"), ok("Result: 2\n"));
    assert_eq!(run(&mut env, "- 5 3"), ok("Result: 2\n"));
}

#[test]
fn scripts_run_line_by_line() {
    let mut env = ScriptEnvironment::new();
    assert_eq!(run(&mut env, ""), ok(""));
    assert_eq!(run(&mut env, "\n"), ok("\n"));
    assert_eq!(run(&mut env, "   "), ok("\n"));
    assert_eq!(run(&mut env, "// a comment"), ok("\n"));
    assert_eq!(
        run(&mut env, "→ a 2\n  → b 3  \r\n\n// sum\n+ a b\n"),
        ok("a ← 2\nb ← 3\n\n\nResult: 5\n")
    );
    assert_eq!(run(&mut env, "+ a b"), ok("Result: 5\n"));
}

#[test]
fn the_first_error_ends_the_script_and_keeps_earlier_assignments() {
    let mut env = ScriptEnvironment::new();
    assert_eq!(
        run(&mut env, "→ a 7\nnope 1\n→ a 8"),
        err("Unknown function: nope")
    );
    assert_eq!(run(&mut env, "+ a 0"), ok("Result: 7\n"));
}

#[test]
fn values_are_literals_or_variables() {
    let mut vars: Table<u64> = Table::new();
    vars.insert("x", 9);
    vars.insert("12", 1);
    assert_eq!(get_value("x", &vars), Ok(9));
    assert_eq!(get_value("12", &vars), Ok(12));
    assert_eq!(get_value("+12", &vars), Ok(12));
    assert_eq!(get_value("18446744073709551615", &vars), Ok(u64::MAX));
    assert_eq!(
        get_value("18446744073709551616", &vars),
        Err("Unknown variable or invalid literal: 18446744073709551616".to_string())
    );
    assert_eq!(get_value("y", &vars), Err("Unknown variable or invalid literal: y".to_string()));
    assert_eq!(evaluate_expression("x", &vars), Ok(9));
    assert_eq!(evaluate_expression("", &vars), Err("Unknown variable or invalid literal: ".to_string()));
}

#[test]
fn table_keeps_the_latest_value() {
    let mut table: Table<u64> = Table::new();
    assert_eq!(table.get("a"), None);
    table.insert("a", 1);
    table.insert("b", 2);
    table.insert("a", 3);
    assert_eq!(table.get("a"), Some(3));
    assert_eq!(table.get("b"), Some(2));
    assert_eq!(table.get("A"), None);
    assert_eq!(table.get(""), None);
}

#[test]
fn decimal_function() {
    let mut vars: Table<u64> = Table::new();
    let mut cpu = CPU::new();
    cpu.r15 = 77;
    assert_eq!(decimal(&["R15"], &cpu, &mut vars), ok("R15 in decimal: 77"));
    assert_eq!(decimal(&["rsp"], &cpu, &mut vars), ok("RSP in decimal: 1048568"));
    assert_eq!(decimal(&["RiP"], &cpu, &mut vars), err("Unknown register: rip"));
    assert_eq!(decimal(&[], &cpu, &mut vars), err("Usage: decimal <register>"));
    assert_eq!(decimal(&["rax", "rbx"], &cpu, &mut vars), err("Usage: decimal <register>"));
}

#[test]
fn register_names() {
    let all = [
        ("rax", Register::Rax, "RAX"), ("rbx", Register::Rbx, "RBX"), ("rcx", Register::Rcx, "RCX"),
        ("rdx", Register::Rdx, "RDX"), ("rsi", Register::Rsi, "RSI"), ("rdi", Register::Rdi, "RDI"),
        ("rbp", Register::Rbp, "RBP"), ("rsp", Register::Rsp, "RSP"), ("r8", Register::R8, "R8"),
        ("r9", Register::R9, "R9"), ("r10", Register::R10, "R10"), ("r11", Register::R11, "R11"),
        ("r12", Register::R12, "R12"), ("r13", Register::R13, "R13"), ("r14", Register::R14, "R14"),
        ("r15", Register::R15, "R15"),
    ];
    for (name, register, upper) in all {
        assert_eq!(register_by_name(name), Some(register));
        assert_eq!(upper_label(&register), upper);
    }
    assert_eq!(register_by_name("RAX"), None);
    assert_eq!(register_by_name("r16"), None);
}

#[test]
fn assignment_function() {
    let cpu = CPU::new();
    let mut vars: Table<u64> = Table::new();
    assert_eq!(assignment(&["x", "5"], &cpu, &mut vars), ok("x ← 5"));
    assert_eq!(assignment(&["y", "x"], &cpu, &mut vars), ok("y ← 5"));
    assert_eq!(vars.get("y"), Some(5));
    assert_eq!(
        assignment(&["z", "w"], &cpu, &mut vars),
        err("Unknown variable or invalid literal: w")
    );
    assert_eq!(vars.get("z"), None);
    assert_eq!(assignment(&["x"], &cpu, &mut vars), err("Invalid assignment syntax"));
}

#[test]
fn arithmetic_function() {
    let cpu = CPU::new();
    let mut vars: Table<u64> = Table::new();
    vars.insert("max", u64::MAX);
    assert_eq!(arithmetic(&["max", "2"], &cpu, &mut vars, '+'), ok("Result: 1"));
    assert_eq!(arithmetic(&["0", "1"], &cpu, &mut vars, '-'), ok("Result: 18446744073709551615"));
    assert_eq!(arithmetic(&["max", "2"], &cpu, &mut vars, '*'), ok("Result: 18446744073709551614"));
    assert_eq!(arithmetic(&["7", "2"], &cpu, &mut vars, '/'), ok("Result: 3"));
    assert_eq!(arithmetic(&["7", "0"], &cpu, &mut vars, '/'), err("Division by zero"));
    assert_eq!(arithmetic(&["7", "0"], &cpu, &mut vars, '%'), err("Unknown arithmetic operation"));
    assert_eq!(arithmetic(&["7"], &cpu, &mut vars, '+'), err("Invalid arithmetic syntax"));
    assert_eq!(
        arithmetic(&["a", "b"], &cpu, &mut vars, '+'),
        err("Unknown variable or invalid literal: a")
    );
    assert_eq!(
        arithmetic(&["1", "b"], &cpu, &mut vars, '+'),
        err("Unknown variable or invalid literal: b")
    );
}

#[test]
fn bitwise_function() {
    let cpu = CPU::new();
    let mut vars: Table<u64> = Table::new();
    assert_eq!(bitwise(&["255", "15"], &cpu, &mut vars, '&'), ok("Result: 0xf"));
    assert_eq!(bitwise(&["240", "15"], &cpu, &mut vars, '|'), ok("Result: 0xff"));
    assert_eq!(bitwise(&["255", "15"], &cpu, &mut vars, '^'), ok("Result: 0xf0"));
    assert_eq!(bitwise(&["255", "15"], &cpu, &mut vars, '!'), err("Unknown bitwise operation"));
    assert_eq!(bitwise(&["255"], &cpu, &mut vars, '&'), err("Invalid bitwise syntax"));
}

#[test]
fn rotate_and_shift_functions() {
    let cpu = CPU::new();
    let mut vars: Table<u64> = Table::new();
    assert_eq!(rotate(&["9223372036854775809", "1"], &cpu, &mut vars), ok("Result: 0x3"));
    assert_eq!(rotate(&["3", "64"], &cpu, &mut vars), ok("Result: 0x3"));
    assert_eq!(rotate(&["3", "65"], &cpu, &mut vars), ok("Result: 0x6"));
    assert_eq!(rotate(&["3", "x"], &cpu, &mut vars), err("Invalid shift amount"));
    assert_eq!(rotate(&["3", "4294967296"], &cpu, &mut vars), err("Invalid shift amount"));
    assert_eq!(rotate(&["3"], &cpu, &mut vars), err("Invalid rotate syntax"));
    assert_eq!(shift(&["3", "2"], &cpu, &mut vars, true), ok("Result: 0xc"));
    assert_eq!(shift(&["12", "2"], &cpu, &mut vars, false), ok("Result: 0x3"));
    assert_eq!(shift(&["12", "66"], &cpu, &mut vars, false), ok("Result: 0x3"));
    assert_eq!(shift(&["9223372036854775808", "1"], &cpu, &mut vars, true), ok("Result: 0x0"));
    assert_eq!(shift(&["12", "-1"], &cpu, &mut vars, true), err("Invalid shift amount"));
    assert_eq!(shift(&[], &cpu, &mut vars, true), err("Invalid shift syntax"));
}

#[test]
fn memory_function() {
    let mut cpu = CPU::new();
    cpu.memory[100] = 0xAB;
    let mut vars: Table<u64> = Table::new();
    assert_eq!(memory_operation(&["100"], &cpu, &mut vars), ok("Value at address 0x64: 0xab"));
    assert_eq!(memory_operation(&["1048575"], &cpu, &mut vars), ok("Value at address 0xfffff: 0x0"));
    assert_eq!(memory_operation(&["1048576"], &cpu, &mut vars), err("Memory address out of bounds"));
    assert_eq!(memory_operation(&["0x10"], &cpu, &mut vars), err("Invalid memory address"));
    assert_eq!(memory_operation(&[], &cpu, &mut vars), err("Invalid memory operation syntax"));
}

#[test]
fn range_function() {
    let cpu = CPU::new();
    let mut vars: Table<u64> = Table::new();
    assert_eq!(range(&["4"], &cpu, &mut vars), ok(&format!("Range: {:?}", (0..4u64).collect::<Vec<u64>>())));
    assert_eq!(range(&["4"], &cpu, &mut vars), ok("Range: [0, 1, 2, 3]"));
    assert_eq!(range(&["2", "5"], &cpu, &mut vars), ok("Range: [2, 3, 4]"));
    assert_eq!(range(&["5", "6"], &cpu, &mut vars), ok("Range: [5]"));
    assert_eq!(range(&["5", "5"], &cpu, &mut vars), ok("Range: []"));
    assert_eq!(range(&["5", "2"], &cpu, &mut vars), ok("Range: []"));
    assert_eq!(range(&["0"], &cpu, &mut vars), ok("Range: []"));
    assert_eq!(range(&["a", "2"], &cpu, &mut vars), err("Invalid start value"));
    assert_eq!(range(&["2", "b"], &cpu, &mut vars), err("Invalid end value"));
    assert_eq!(range(&["b"], &cpu, &mut vars), err("Invalid end value"));
    assert_eq!(range(&[], &cpu, &mut vars), err("Invalid range syntax"));
    assert_eq!(range(&["1", "2", "3"], &cpu, &mut vars), err("Invalid range syntax"));
}

#[test]
fn double_and_binary_functions() {
    let mut cpu = CPU::new();
    cpu.rax = 10;
    let mut vars: Table<u64> = Table::new();
    assert_eq!(double(&["21"], &cpu, &mut vars), ok("Result: 42"));
    assert_eq!(double(&["9223372036854775808"], &cpu, &mut vars), ok("Result: 0"));
    assert_eq!(double(&["x"], &cpu, &mut vars), err("Invalid number"));
    assert_eq!(double(&[], &cpu, &mut vars), err("Usage: double <value>"));
    assert_eq!(binary(&["Rax"], &cpu, &mut vars), ok("RAX in binary: 1010"));
    assert_eq!(binary(&["rbx"], &cpu, &mut vars), ok("RBX in binary: 0"));
    assert_eq!(binary(&["RCX"], &cpu, &mut vars), err("Unknown register: rcx"));
    assert_eq!(binary(&[], &cpu, &mut vars), err("Usage: binary <register>"));
}

#[test]
fn call_dispatches_on_the_function() {
    let cpu = CPU::new();
    let mut vars: Table<u64> = Table::new();
    assert_eq!(call(ScriptFunction::Assignment, &["n", "6"], &cpu, &mut vars), ok("n ← 6"));
    assert_eq!(call(ScriptFunction::Add, &["n", "1"], &cpu, &mut vars), ok("Result: 7"));
    assert_eq!(call(ScriptFunction::Subtract, &["n", "1"], &cpu, &mut vars), ok("Result: 5"));
    assert_eq!(call(ScriptFunction::Multiply, &["n", "2"], &cpu, &mut vars), ok("Result: 12"));
    assert_eq!(call(ScriptFunction::Divide, &["n", "2"], &cpu, &mut vars), ok("Result: 3"));
    assert_eq!(call(ScriptFunction::And, &["n", "3"], &cpu, &mut vars), ok("Result: 0x2"));
    assert_eq!(call(ScriptFunction::Or, &["n", "1"], &cpu, &mut vars), ok("Result: 0x7"));
    assert_eq!(call(ScriptFunction::Xor, &["n", "2"], &cpu, &mut vars), ok("Result: 0x4"));
    assert_eq!(call(ScriptFunction::Rotate, &["n", "1"], &cpu, &mut vars), ok("Result: 0xc"));
    assert_eq!(call(ScriptFunction::ShiftLeft, &["n", "1"], &cpu, &mut vars), ok("Result: 0xc"));
    assert_eq!(call(ScriptFunction::ShiftRight, &["n", "1"], &cpu, &mut vars), ok("Result: 0x3"));
    assert_eq!(call(ScriptFunction::Memory, &["8"], &cpu, &mut vars), ok("Value at address 0x8: 0x0"));
    assert_eq!(call(ScriptFunction::Range, &["2"], &cpu, &mut vars), ok("Range: [0, 1]"));
    assert_eq!(call(ScriptFunction::Decimal, &["rax"], &cpu, &mut vars), ok("RAX in decimal: 0"));
    assert_eq!(call(ScriptFunction::Double, &["3"], &cpu, &mut vars), ok("Result: 6"));
    assert_eq!(call(ScriptFunction::Binary, &["rax"], &cpu, &mut vars), ok("RAX in binary: 0"));
}
