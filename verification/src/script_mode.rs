//! A small scripting mode: each line names a function and gives it
//! arguments; functions read the CPU and read or set named variables.

use crate::cpu::{rotate_left, CPU};
use crate::parser::Register;
use crate::semantics::{rotated_left, wrapping_difference, wrapping_sum, CpuView};
use crate::table::Table;
use crate::text::{numeral, push_numeral};
use crate::user_functions::{binary, binary_outcome, double, double_outcome};
use crate::words::{
    begins_with, lines, lines_of, lowercase_of, parse_unsigned, same_text, split_whitespace, texts,
    to_lowercase, trim, trimmed, unsigned_of, words_of, IntegerError,
};
use vstd::prelude::*;
use vstd::slice::slice_subrange;
use vstd::string::{StrSliceExecFns, StringExecFns};

verus! {

/// The functions that a script can call.
#[derive(Debug, PartialEq, Eq, Clone, Copy, Structural)]
pub enum ScriptFunction {
    /// A register in decimal.
    Decimal,
    /// Sets a variable.
    Assignment,
    /// Wrapping sum of two values.
    Add,
    /// Wrapping difference of two values.
    Subtract,
    /// Wrapping product of two values.
    Multiply,
    /// Quotient of two values.
    Divide,
    /// Bitwise and of two values.
    And,
    /// Bitwise or of two values.
    Or,
    /// Bitwise exclusive or of two values.
    Xor,
    /// A value rotated left.
    Rotate,
    /// A value shifted left.
    ShiftLeft,
    /// A value shifted right.
    ShiftRight,
    /// One byte of the memory.
    Memory,
    /// The numbers of a range.
    Range,
    /// Twice a number.
    Double,
    /// A register in binary.
    Binary,
}

/// What a function call gives: the text of its answer or of its error, and
/// the variables after it.
pub struct Outcome {
    pub result: Result<Seq<char>, Seq<char>>,
    pub variables: Map<Seq<char>, u64>,
}

/// The texts of a result.
pub open spec fn text_result(r: Result<String, String>) -> Result<Seq<char>, Seq<char>> {
    match r {
        Ok(text) => Ok(text@),
        Err(text) => Err(text@),
    }
}

/// The register with the given lower-case name.
pub open spec fn register_named(name: Seq<char>) -> Option<Register> {
    if name == "rax"@ {
        Some(Register::Rax)
    } else if name == "rbx"@ {
        Some(Register::Rbx)
    } else if name == "rcx"@ {
        Some(Register::Rcx)
    } else if name == "rdx"@ {
        Some(Register::Rdx)
    } else if name == "rsi"@ {
        Some(Register::Rsi)
    } else if name == "rdi"@ {
        Some(Register::Rdi)
    } else if name == "rbp"@ {
        Some(Register::Rbp)
    } else if name == "rsp"@ {
        Some(Register::Rsp)
    } else if name == "r8"@ {
        Some(Register::R8)
    } else if name == "r9"@ {
        Some(Register::R9)
    } else if name == "r10"@ {
        Some(Register::R10)
    } else if name == "r11"@ {
        Some(Register::R11)
    } else if name == "r12"@ {
        Some(Register::R12)
    } else if name == "r13"@ {
        Some(Register::R13)
    } else if name == "r14"@ {
        Some(Register::R14)
    } else if name == "r15"@ {
        Some(Register::R15)
    } else {
        None
    }
}

/// The upper-case name of a register.
pub open spec fn upper_name(register: Register) -> Seq<char> {
    match register {
        Register::Rax => "RAX"@,
        Register::Rbx => "RBX"@,
        Register::Rcx => "RCX"@,
        Register::Rdx => "RDX"@,
        Register::Rsi => "RSI"@,
        Register::Rdi => "RDI"@,
        Register::Rbp => "RBP"@,
        Register::Rsp => "RSP"@,
        Register::R8 => "R8"@,
        Register::R9 => "R9"@,
        Register::R10 => "R10"@,
        Register::R11 => "R11"@,
        Register::R12 => "R12"@,
        Register::R13 => "R13"@,
        Register::R14 => "R14"@,
        Register::R15 => "R15"@,
    }
}

/// The register with the given lower-case name.
pub fn register_by_name(name: &str) -> (r: Option<Register>)
    ensures
        r == register_named(name@),
{
    if same_text(name, "rax") {
        Some(Register::Rax)
    } else if same_text(name, "rbx") {
        Some(Register::Rbx)
    } else if same_text(name, "rcx") {
        Some(Register::Rcx)
    } else if same_text(name, "rdx") {
        Some(Register::Rdx)
    } else if same_text(name, "rsi") {
        Some(Register::Rsi)
    } else if same_text(name, "rdi") {
        Some(Register::Rdi)
    } else if same_text(name, "rbp") {
        Some(Register::Rbp)
    } else if same_text(name, "rsp") {
        Some(Register::Rsp)
    } else if same_text(name, "r8") {
        Some(Register::R8)
    } else if same_text(name, "r9") {
        Some(Register::R9)
    } else if same_text(name, "r10") {
        Some(Register::R10)
    } else if same_text(name, "r11") {
        Some(Register::R11)
    } else if same_text(name, "r12") {
        Some(Register::R12)
    } else if same_text(name, "r13") {
        Some(Register::R13)
    } else if same_text(name, "r14") {
        Some(Register::R14)
    } else if same_text(name, "r15") {
        Some(Register::R15)
    } else {
        None
    }
}

/// The upper-case name of a register.
pub fn upper_label(register: &Register) -> (text: &'static str)
    ensures
        text@ == upper_name(*register),
{
    match register {
        Register::Rax => "RAX",
        Register::Rbx => "RBX",
        Register::Rcx => "RCX",
        Register::Rdx => "RDX",
        Register::Rsi => "RSI",
        Register::Rdi => "RDI",
        Register::Rbp => "RBP",
        Register::Rsp => "RSP",
        Register::R8 => "R8",
        Register::R9 => "R9",
        Register::R10 => "R10",
        Register::R11 => "R11",
        Register::R12 => "R12",
        Register::R13 => "R13",
        Register::R14 => "R14",
        Register::R15 => "R15",
    }
}

/// A number in hexadecimal after `0x`.
pub open spec fn hex_text(value: u64) -> Seq<char> {
    "0x"@ + numeral(value as nat, 16)
}

/// Appends a number in hexadecimal after `0x`.
pub fn push_hex(out: &mut String, value: u64)
    ensures
        final(out)@ == old(out)@ + hex_text(value),
{
    out.append("0x");
    push_numeral(out, value, 16);
    proof {
        assert(out@ =~= old(out)@ + hex_text(value));
    }
}

/// The value that a token stands for: the number it writes in decimal, or
/// else the variable of that name.
pub open spec fn value_of(token: Seq<char>, vars: Map<Seq<char>, u64>) -> Result<u64, Seq<char>> {
    match unsigned_of(token, 10, u64::MAX as nat) {
        Ok(value) => Ok(value as u64),
        Err(_) => if vars.contains_key(token) {
            Ok(vars[token])
        } else {
            Err("Unknown variable or invalid literal: "@ + token)
        },
    }
}

/// The value that a token stands for.
pub fn get_value(token: &str, vars: &Table<u64>) -> (r: Result<u64, String>)
    ensures
        match r {
            Ok(value) => value_of(token@, vars@) == Ok::<u64, Seq<char>>(value),
            Err(text) => value_of(token@, vars@) == Err::<u64, Seq<char>>(text@),
        },
{
    match parse_unsigned(token, 10, u64::MAX) {
        Ok(value) => Ok(value),
        Err(_) => match vars.get(token) {
            Some(value) => Ok(value),
            None => {
                let mut text = String::from_str("Unknown variable or invalid literal: ");
                text.append(token);
                Err(text)
            },
        },
    }
}

/// The value of an expression; an expression is a single token.
pub fn evaluate_expression(expr: &str, vars: &Table<u64>) -> (r: Result<u64, String>)
    ensures
        match r {
            Ok(value) => value_of(expr@, vars@) == Ok::<u64, Seq<char>>(value),
            Err(text) => value_of(expr@, vars@) == Err::<u64, Seq<char>>(text@),
        },
{
    get_value(expr, vars)
}

/// `decimal <register>`: the register in decimal, under its upper-case
/// name. The name is taken in any case.
pub open spec fn decimal_outcome(args: Seq<Seq<char>>, cpu: CpuView) -> Result<
    Seq<char>,
    Seq<char>,
> {
    if args.len() != 1 {
        Err("Usage: decimal <register>"@)
    } else {
        let register = lowercase_of(args[0]);
        match register_named(register) {
            Some(r) => Ok(upper_name(r) + " in decimal: "@ + numeral(cpu.gpr(r) as nat, 10)),
            None => Err("Unknown register: "@ + register),
        }
    }
}

/// Shows a register in decimal.
pub fn decimal(args: &[&str], cpu: &CPU, _vars: &mut Table<u64>) -> (r: Result<String, String>)
    ensures
        text_result(r) == decimal_outcome(texts(args@), cpu@),
        final(_vars)@ == old(_vars)@,
{
    if args.len() != 1 {
        return Err(String::from_str("Usage: decimal <register>"));
    }
    let register = to_lowercase(args[0]);
    match register_by_name(register.as_str()) {
        Some(found) => {
            let mut text = String::from_str(upper_label(&found));
            text.append(" in decimal: ");
            push_numeral(&mut text, cpu.get_register_value(&found), 10);
            Ok(text)
        },
        None => {
            let mut text = String::from_str("Unknown register: ");
            text.append(register.as_str());
            Err(text)
        },
    }
}

/// The assignment, under the name of a rightwards arrow, with a name and a
/// value: sets the variable to the value and answers with both, a leftwards
/// arrow between them.
pub open spec fn assignment_outcome(args: Seq<Seq<char>>, vars: Map<Seq<char>, u64>) -> Outcome {
    if args.len() != 2 {
        Outcome { result: Err("Invalid assignment syntax"@), variables: vars }
    } else {
        match value_of(args[1], vars) {
            Err(text) => Outcome { result: Err(text), variables: vars },
            Ok(value) => Outcome {
                result: Ok(args[0] + " \u{2190} "@ + numeral(value as nat, 10)),
                variables: vars.insert(args[0], value),
            },
        }
    }
}

/// Sets a variable.
pub fn assignment(args: &[&str], _cpu: &CPU, vars: &mut Table<u64>) -> (r: Result<String, String>)
    ensures
        text_result(r) == assignment_outcome(texts(args@), old(vars)@).result,
        final(vars)@ == assignment_outcome(texts(args@), old(vars)@).variables,
{
    if args.len() != 2 {
        return Err(String::from_str("Invalid assignment syntax"));
    }
    let value: u64 = match evaluate_expression(args[1], vars) {
        Ok(value) => value,
        Err(text) => {
            return Err(text);
        },
    };
    vars.insert(args[0], value);
    let mut text = String::from_str(args[0]);
    text.append(" \u{2190} ");
    push_numeral(&mut text, value, 10);
    Ok(text)
}

/// `a * b` modulo 2^64.
pub open spec fn wrapping_product(a: u64, b: u64) -> u64 {
    ((a * b) % 0x1_0000_0000_0000_0000) as u64
}

/// The four operations on two values: the sum, difference or product
/// modulo 2^64, or the quotient.
pub open spec fn arithmetic_outcome(
    args: Seq<Seq<char>>,
    vars: Map<Seq<char>, u64>,
    op: char,
) -> Result<Seq<char>, Seq<char>> {
    if args.len() != 2 {
        Err("Invalid arithmetic syntax"@)
    } else {
        match value_of(args[0], vars) {
            Err(text) => Err(text),
            Ok(a) => match value_of(args[1], vars) {
                Err(text) => Err(text),
                Ok(b) => if op == '+' {
                    Ok("Result: "@ + numeral(wrapping_sum(a, b) as nat, 10))
                } else if op == '-' {
                    Ok("Result: "@ + numeral(wrapping_difference(a, b) as nat, 10))
                } else if op == '*' {
                    Ok("Result: "@ + numeral(wrapping_product(a, b) as nat, 10))
                } else if op == '/' {
                    if b == 0 {
                        Err("Division by zero"@)
                    } else {
                        Ok("Result: "@ + numeral((a / b) as nat, 10))
                    }
                } else {
                    Err("Unknown arithmetic operation"@)
                },
            },
        }
    }
}

/// Adds, subtracts, multiplies or divides two values; `op` is one of
/// `+`, `-`, `*`, `/`.
pub fn arithmetic(args: &[&str], _cpu: &CPU, vars: &mut Table<u64>, op: char) -> (r: Result<
    String,
    String,
>)
    ensures
        text_result(r) == arithmetic_outcome(texts(args@), old(vars)@, op),
        final(vars)@ == old(vars)@,
{
    if args.len() != 2 {
        return Err(String::from_str("Invalid arithmetic syntax"));
    }
    let a: u64 = match get_value(args[0], vars) {
        Ok(value) => value,
        Err(text) => {
            return Err(text);
        },
    };
    let b: u64 = match get_value(args[1], vars) {
        Ok(value) => value,
        Err(text) => {
            return Err(text);
        },
    };
    let result: u64 = if op == '+' {
        a.wrapping_add(b)
    } else if op == '-' {
        a.wrapping_sub(b)
    } else if op == '*' {
        a.wrapping_mul(b)
    } else if op == '/' {
        if b == 0 {
            return Err(String::from_str("Division by zero"));
        } else {
            a / b
        }
    } else {
        return Err(String::from_str("Unknown arithmetic operation"));
    };
    let mut text = String::from_str("Result: ");
    push_numeral(&mut text, result, 10);
    Ok(text)
}

/// The three bitwise operations on two values: and, or, exclusive or,
/// shown in hexadecimal.
pub open spec fn bitwise_outcome(
    args: Seq<Seq<char>>,
    vars: Map<Seq<char>, u64>,
    op: char,
) -> Result<Seq<char>, Seq<char>> {
    if args.len() != 2 {
        Err("Invalid bitwise syntax"@)
    } else {
        match value_of(args[0], vars) {
            Err(text) => Err(text),
            Ok(a) => match value_of(args[1], vars) {
                Err(text) => Err(text),
                Ok(b) => if op == '&' {
                    Ok("Result: "@ + hex_text(a & b))
                } else if op == '|' {
                    Ok("Result: "@ + hex_text(a | b))
                } else if op == '^' {
                    Ok("Result: "@ + hex_text(a ^ b))
                } else {
                    Err("Unknown bitwise operation"@)
                },
            },
        }
    }
}

/// Combines two values bit by bit; `op` is one of `&`, `|`, `^`.
pub fn bitwise(args: &[&str], _cpu: &CPU, vars: &mut Table<u64>, op: char) -> (r: Result<
    String,
    String,
>)
    ensures
        text_result(r) == bitwise_outcome(texts(args@), old(vars)@, op),
        final(vars)@ == old(vars)@,
{
    if args.len() != 2 {
        return Err(String::from_str("Invalid bitwise syntax"));
    }
    let a: u64 = match get_value(args[0], vars) {
        Ok(value) => value,
        Err(text) => {
            return Err(text);
        },
    };
    let b: u64 = match get_value(args[1], vars) {
        Ok(value) => value,
        Err(text) => {
            return Err(text);
        },
    };
    let result: u64 = if op == '&' {
        a & b
    } else if op == '|' {
        a | b
    } else if op == '^' {
        a ^ b
    } else {
        return Err(String::from_str("Unknown bitwise operation"));
    };
    let mut text = String::from_str("Result: ");
    push_hex(&mut text, result);
    Ok(text)
}

/// The count of a shift or rotation: a number that fits in 32 bits.
pub open spec fn count_of(token: Seq<char>) -> Option<u32> {
    match unsigned_of(token, 10, u32::MAX as nat) {
        Ok(value) => Some(value as u32),
        Err(_) => None,
    }
}

/// Reads the count of a shift or rotation.
fn count(token: &str) -> (r: Option<u32>)
    ensures
        r == count_of(token@),
{
    match parse_unsigned(token, 10, 0xffff_ffff) {
        Ok(value) => Some(value as u32),
        Err(_) => None,
    }
}

/// The rotation of a value to the left by a count; a rotation by 64 is
/// none.
pub open spec fn rotate_outcome(args: Seq<Seq<char>>, vars: Map<Seq<char>, u64>) -> Result<
    Seq<char>,
    Seq<char>,
> {
    if args.len() != 2 {
        Err("Invalid rotate syntax"@)
    } else {
        match value_of(args[0], vars) {
            Err(text) => Err(text),
            Ok(value) => match count_of(args[1]) {
                None => Err("Invalid shift amount"@),
                Some(by) => Ok("Result: "@ + hex_text(rotated_left(value, (by % 64) as u64))),
            },
        }
    }
}

/// Rotates a value to the left.
pub fn rotate(args: &[&str], _cpu: &CPU, vars: &mut Table<u64>) -> (r: Result<String, String>)
    ensures
        text_result(r) == rotate_outcome(texts(args@), old(vars)@),
        final(vars)@ == old(vars)@,
{
    if args.len() != 2 {
        return Err(String::from_str("Invalid rotate syntax"));
    }
    let value: u64 = match get_value(args[0], vars) {
        Ok(value) => value,
        Err(text) => {
            return Err(text);
        },
    };
    let by: u32 = match count(args[1]) {
        Some(by) => by,
        None => {
            return Err(String::from_str("Invalid shift amount"));
        },
    };
    let result: u64 = rotate_left(value, (by % 64) as u64);
    let mut text = String::from_str("Result: ");
    push_hex(&mut text, result);
    Ok(text)
}

/// The shift of a value to the left or to the right by the low six bits of
/// a count.
pub open spec fn shift_outcome(
    args: Seq<Seq<char>>,
    vars: Map<Seq<char>, u64>,
    left: bool,
) -> Result<Seq<char>, Seq<char>> {
    if args.len() != 2 {
        Err("Invalid shift syntax"@)
    } else {
        match value_of(args[0], vars) {
            Err(text) => Err(text),
            Ok(value) => match count_of(args[1]) {
                None => Err("Invalid shift amount"@),
                Some(by) => if left {
                    Ok("Result: "@ + hex_text(value << ((by % 64) as u64)))
                } else {
                    Ok("Result: "@ + hex_text(value >> ((by % 64) as u64)))
                },
            },
        }
    }
}

/// Shifts a value to the left or to the right.
pub fn shift(args: &[&str], _cpu: &CPU, vars: &mut Table<u64>, left: bool) -> (r: Result<
    String,
    String,
>)
    ensures
        text_result(r) == shift_outcome(texts(args@), old(vars)@, left),
        final(vars)@ == old(vars)@,
{
    if args.len() != 2 {
        return Err(String::from_str("Invalid shift syntax"));
    }
    let value: u64 = match get_value(args[0], vars) {
        Ok(value) => value,
        Err(text) => {
            return Err(text);
        },
    };
    let by: u32 = match count(args[1]) {
        Some(by) => by,
        None => {
            return Err(String::from_str("Invalid shift amount"));
        },
    };
    let bits: u64 = (by % 64) as u64;
    let result: u64 = if left {
        value << bits
    } else {
        value >> bits
    };
    let mut text = String::from_str("Result: ");
    push_hex(&mut text, result);
    Ok(text)
}

/// The byte of the memory at a decimal address.
pub open spec fn memory_outcome(args: Seq<Seq<char>>, cpu: CpuView) -> Result<
    Seq<char>,
    Seq<char>,
> {
    if args.len() != 1 {
        Err("Invalid memory operation syntax"@)
    } else {
        match unsigned_of(args[0], 10, usize::MAX as nat) {
            Err(_) => Err("Invalid memory address"@),
            Ok(address) => if address >= cpu.memory.len() {
                Err("Memory address out of bounds"@)
            } else {
                Ok(
                    "Value at address "@ + hex_text(address as u64) + ": "@ + hex_text(
                        cpu.memory[address as int] as u64,
                    ),
                )
            },
        }
    }
}

/// Shows one byte of the memory.
pub fn memory_operation(args: &[&str], cpu: &CPU, _vars: &mut Table<u64>) -> (r: Result<
    String,
    String,
>)
    ensures
        text_result(r) == memory_outcome(texts(args@), cpu@),
        final(_vars)@ == old(_vars)@,
{
    if args.len() != 1 {
        return Err(String::from_str("Invalid memory operation syntax"));
    }
    let address: usize = match parse_unsigned(args[0], 10, usize::MAX as u64) {
        Ok(value) => value as usize,
        Err(_) => {
            return Err(String::from_str("Invalid memory address"));
        },
    };
    if address >= cpu.memory.len() {
        return Err(String::from_str("Memory address out of bounds"));
    }
    let mut text = String::from_str("Value at address ");
    push_hex(&mut text, address as u64);
    text.append(": ");
    push_hex(&mut text, cpu.memory[address] as u64);
    Ok(text)
}

/// The numbers from `start` up to but without `end`, in decimal, with `, `
/// between them.
pub open spec fn listed(start: u64, end: u64) -> Seq<char>
    decreases end - start,
{
    if end <= start {
        Seq::empty()
    } else if end == start + 1 {
        numeral(start as nat, 10)
    } else {
        listed(start, (end - 1) as u64) + ", "@ + numeral((end - 1) as nat, 10)
    }
}

/// The first number of a range: the first of two arguments, or zero.
pub open spec fn range_start(args: Seq<Seq<char>>) -> Result<nat, IntegerError> {
    if args.len() == 2 {
        unsigned_of(args[0], 10, u64::MAX as nat)
    } else {
        Ok(0nat)
    }
}

/// The numbers of a range, from the start, or from zero, up to but without
/// the end.
pub open spec fn range_outcome(args: Seq<Seq<char>>) -> Result<Seq<char>, Seq<char>> {
    if args.len() != 1 && args.len() != 2 {
        Err("Invalid range syntax"@)
    } else {
        match range_start(args) {
            Err(_) => Err("Invalid start value"@),
            Ok(first) => match unsigned_of(args[args.len() - 1], 10, u64::MAX as nat) {
                Err(_) => Err("Invalid end value"@),
                Ok(end) => Ok("Range: ["@ + listed(first as u64, end as u64) + "]"@),
            },
        }
    }
}

/// Lists the numbers of a range.
pub fn range(args: &[&str], _cpu: &CPU, _vars: &mut Table<u64>) -> (r: Result<String, String>)
    ensures
        text_result(r) == range_outcome(texts(args@)),
        final(_vars)@ == old(_vars)@,
{
    if args.len() != 1 && args.len() != 2 {
        return Err(String::from_str("Invalid range syntax"));
    }
    let start: u64 = if args.len() == 2 {
        match parse_unsigned(args[0], 10, u64::MAX) {
            Ok(value) => value,
            Err(_) => {
                return Err(String::from_str("Invalid start value"));
            },
        }
    } else {
        0
    };
    let end: u64 = match parse_unsigned(args[args.len() - 1], 10, u64::MAX) {
        Ok(value) => value,
        Err(_) => {
            return Err(String::from_str("Invalid end value"));
        },
    };
    let mut text = String::from_str("Range: [");
    let ghost opening = text@;
    let mut i: u64 = start;
    proof {
        assert(opening + listed(start, start) =~= opening);
    }
    while i < end
        invariant
            start <= i,
            i <= end || (end < start && i == start),
            text@ == opening + listed(start, i),
        decreases end - i,
    {
        if i > start {
            text.append(", ");
        }
        push_numeral(&mut text, i, 10);
        i = i + 1;
        proof {
            assert(text@ =~= opening + listed(start, i));
        }
    }
    proof {
        if end < start {
            assert(listed(start, end) =~= listed(start, start));
        }
        assert(text@ == opening + listed(start, end));
    }
    text.append("]");
    proof {
        assert(text@ =~= "Range: ["@ + listed(start, end) + "]"@);
    }
    Ok(text)
}

/// What calling a function gives.
pub open spec fn applied(
    func: ScriptFunction,
    args: Seq<Seq<char>>,
    cpu: CpuView,
    vars: Map<Seq<char>, u64>,
) -> Outcome {
    match func {
        ScriptFunction::Assignment => assignment_outcome(args, vars),
        _ => Outcome {
            result: match func {
                ScriptFunction::Decimal => decimal_outcome(args, cpu),
                ScriptFunction::Add => arithmetic_outcome(args, vars, '+'),
                ScriptFunction::Subtract => arithmetic_outcome(args, vars, '-'),
                ScriptFunction::Multiply => arithmetic_outcome(args, vars, '*'),
                ScriptFunction::Divide => arithmetic_outcome(args, vars, '/'),
                ScriptFunction::And => bitwise_outcome(args, vars, '&'),
                ScriptFunction::Or => bitwise_outcome(args, vars, '|'),
                ScriptFunction::Xor => bitwise_outcome(args, vars, '^'),
                ScriptFunction::Rotate => rotate_outcome(args, vars),
                ScriptFunction::ShiftLeft => shift_outcome(args, vars, true),
                ScriptFunction::ShiftRight => shift_outcome(args, vars, false),
                ScriptFunction::Memory => memory_outcome(args, cpu),
                ScriptFunction::Range => range_outcome(args),
                ScriptFunction::Double => double_outcome(args),
                _ => binary_outcome(args, cpu),
            },
            variables: vars,
        },
    }
}

/// Whether a line is a comment: it begins with two slashes.
pub open spec fn is_comment(line: Seq<char>) -> bool {
    "//"@.len() <= line.len() && line.subrange(0, "//"@.len() as int) == "//"@
}

/// What one line gives, white space at its ends removed. An empty line and
/// a comment give an empty answer. Any other line is split into words: the
/// first names the function, the others are its arguments.
pub open spec fn line_outcome(
    line: Seq<char>,
    functions: Map<Seq<char>, ScriptFunction>,
    cpu: CpuView,
    vars: Map<Seq<char>, u64>,
) -> Outcome {
    let tokens = words_of(line);
    if line.len() == 0 || is_comment(line) || tokens.len() == 0 {
        Outcome { result: Ok(Seq::empty()), variables: vars }
    } else if functions.contains_key(tokens[0]) {
        applied(functions[tokens[0]], tokens.subrange(1, tokens.len() as int), cpu, vars)
    } else {
        Outcome { result: Err("Unknown function: "@ + tokens[0]), variables: vars }
    }
}

/// An outcome whose answer stands after `output`.
pub open spec fn after(output: Seq<char>, rest: Outcome) -> Outcome {
    match rest.result {
        Ok(text) => Outcome { result: Ok(output + text), variables: rest.variables },
        Err(_) => rest,
    }
}

/// What the lines from number `from` on give, one after the other: the
/// answers, each followed by a line feed, or the first error, which ends
/// the run. What earlier lines did to the variables stays done.
pub open spec fn script_outcome(
    lines: Seq<Seq<char>>,
    functions: Map<Seq<char>, ScriptFunction>,
    cpu: CpuView,
    vars: Map<Seq<char>, u64>,
    from: int,
) -> Outcome
    decreases lines.len() - from,
{
    if from < 0 || from >= lines.len() {
        Outcome { result: Ok(Seq::empty()), variables: vars }
    } else {
        let one = line_outcome(trimmed(lines[from]), functions, cpu, vars);
        match one.result {
            Err(_) => one,
            Ok(text) => after(
                text + "\n"@,
                script_outcome(lines, functions, cpu, one.variables, from + 1),
            ),
        }
    }
}

/// The functions that every environment begins with.
pub open spec fn default_functions() -> Map<Seq<char>, ScriptFunction> {
    Map::<Seq<char>, ScriptFunction>::empty().insert("decimal"@, ScriptFunction::Decimal).insert(
        "\u{2192}"@,
        ScriptFunction::Assignment,
    ).insert("+"@, ScriptFunction::Add).insert("-"@, ScriptFunction::Subtract).insert(
        "\u{d7}"@,
        ScriptFunction::Multiply,
    ).insert("\u{f7}"@, ScriptFunction::Divide).insert("\u{2227}"@, ScriptFunction::And).insert(
        "\u{2228}"@,
        ScriptFunction::Or,
    ).insert("\u{22bb}"@, ScriptFunction::Xor).insert("\u{233d}"@, ScriptFunction::Rotate).insert(
        "\u{2191}"@,
        ScriptFunction::ShiftLeft,
    ).insert("\u{2193}"@, ScriptFunction::ShiftRight).insert("?"@, ScriptFunction::Memory).insert(
        "\u{3b9}"@,
        ScriptFunction::Range,
    )
}

/// The functions that a script can call, by name, and the variables that it
/// has set.
pub struct ScriptEnvironment {
    functions: Table<ScriptFunction>,
    variables: Table<u64>,
}

impl ScriptEnvironment {
    /// The functions by name.
    pub closed spec fn functions(&self) -> Map<Seq<char>, ScriptFunction> {
        self.functions@
    }

    /// The variables by name.
    pub closed spec fn variables(&self) -> Map<Seq<char>, u64> {
        self.variables@
    }

    /// An environment with the default functions and no variable.
    pub fn new() -> (env: Self)
        ensures
            env.functions() == default_functions(),
            env.variables() == Map::<Seq<char>, u64>::empty(),
    {
        let mut env = ScriptEnvironment { functions: Table::new(), variables: Table::new() };
        env.load_default_functions();
        env
    }

    /// Makes the default functions callable.
    fn load_default_functions(&mut self)
        requires
            old(self).functions() == Map::<Seq<char>, ScriptFunction>::empty(),
        ensures
            final(self).functions() == default_functions(),
            final(self).variables() == old(self).variables(),
    {
        self.add_function("decimal", ScriptFunction::Decimal);
        self.add_function("\u{2192}", ScriptFunction::Assignment);
        self.add_function("+", ScriptFunction::Add);
        self.add_function("-", ScriptFunction::Subtract);
        self.add_function("\u{d7}", ScriptFunction::Multiply);
        self.add_function("\u{f7}", ScriptFunction::Divide);
        self.add_function("\u{2227}", ScriptFunction::And);
        self.add_function("\u{2228}", ScriptFunction::Or);
        self.add_function("\u{22bb}", ScriptFunction::Xor);
        self.add_function("\u{233d}", ScriptFunction::Rotate);
        self.add_function("\u{2191}", ScriptFunction::ShiftLeft);
        self.add_function("\u{2193}", ScriptFunction::ShiftRight);
        self.add_function("?", ScriptFunction::Memory);
        self.add_function("\u{3b9}", ScriptFunction::Range);
    }

    /// Makes `func` callable under `name`, in place of what had that name.
    pub fn add_function(&mut self, name: &str, func: ScriptFunction)
        ensures
            final(self).functions() == old(self).functions().insert(name@, func),
            final(self).variables() == old(self).variables(),
    {
        self.functions.insert(name, func);
    }

    /// Runs a script line by line and returns the answers, each followed by
    /// a line feed. The first error ends the run and is returned alone.
    pub fn execute_script(&mut self, script: &str, cpu: &CPU) -> (r: Result<String, String>)
        ensures
            text_result(r) == script_outcome(
                lines_of(script@),
                old(self).functions(),
                cpu@,
                old(self).variables(),
                0,
            ).result,
            final(self).variables() == script_outcome(
                lines_of(script@),
                old(self).functions(),
                cpu@,
                old(self).variables(),
                0,
            ).variables,
            final(self).functions() == old(self).functions(),
    {
        let all = lines(script);
        let ghost every = lines_of(script@);
        let ghost functions = self.functions();
        let ghost whole = script_outcome(every, functions, cpu@, self.variables(), 0);
        let mut output = String::new();
        let mut i: usize = 0;
        proof {
            lemma_after_nothing(whole);
        }
        while i < all.len()
            invariant
                i <= all@.len(),
                texts(all@) == every,
                every == lines_of(script@),
                functions == old(self).functions(),
                whole == script_outcome(every, functions, cpu@, old(self).variables(), 0),
                self.functions() == functions,
                whole == after(
                    output@,
                    script_outcome(every, functions, cpu@, self.variables(), i as int),
                ),
            decreases all@.len() - i,
        {
            let ghost before = output@;
            let ghost vars = self.variables();
            let line = trim(all[i]);
            proof {
                assert(texts(all@)[i as int] == all@[i as int]@);
                let one = line_outcome(trimmed(every[i as int]), functions, cpu@, vars);
                assert(script_outcome(every, functions, cpu@, vars, i as int) == (match one.result {
                    Err(_) => one,
                    Ok(text) => after(
                        text + "\n"@,
                        script_outcome(every, functions, cpu@, one.variables, i as int + 1),
                    ),
                }));
            }
            match self.execute_line(line, cpu) {
                Err(text) => {
                    proof {
                        let one = line_outcome(trimmed(every[i as int]), functions, cpu@, vars);
                        assert(one.result == Err::<Seq<char>, Seq<char>>(text@));
                        assert(script_outcome(every, functions, cpu@, vars, i as int) == one);
                        assert(whole == one);
                    }
                    return Err(text);
                },
                Ok(text) => {
                    output.append(text.as_str());
                    output.append("\n");
                    proof {
                        let rest = script_outcome(
                            every,
                            functions,
                            cpu@,
                            self.variables(),
                            i as int + 1,
                        );
                        lemma_after_after(before, text@ + "\n"@, rest);
                        assert(output@ =~= before + (text@ + "\n"@));
                    }
                },
            }
            i = i + 1;
        }
        proof {
            assert(output@ + Seq::<char>::empty() =~= output@);
        }
        Ok(output)
    }

    /// Runs one line, white space at its ends removed.
    fn execute_line(&mut self, line: &str, cpu: &CPU) -> (r: Result<String, String>)
        ensures
            text_result(r) == line_outcome(
                line@,
                old(self).functions(),
                cpu@,
                old(self).variables(),
            ).result,
            final(self).variables() == line_outcome(
                line@,
                old(self).functions(),
                cpu@,
                old(self).variables(),
            ).variables,
            final(self).functions() == old(self).functions(),
    {
        if line.unicode_len() == 0 || begins_with(line, "//") {
            return Ok(String::new());
        }
        let tokens = split_whitespace(line);
        if tokens.len() == 0 {
            return Ok(String::new());
        }
        let function_name = tokens[0];
        let args = slice_subrange(tokens.as_slice(), 1, tokens.len());
        proof {
            assert(texts(args@) =~= words_of(line@).subrange(1, tokens@.len() as int));
            assert(texts(tokens@)[0] == function_name@);
        }
        match self.functions.get(function_name) {
            Some(func) => call(func, args, cpu, &mut self.variables),
            None => {
                let mut text = String::from_str("Unknown function: ");
                text.append(function_name);
                Err(text)
            },
        }
    }
}

/// Nothing before an outcome leaves it as it is.
proof fn lemma_after_nothing(rest: Outcome)
    ensures
        after(Seq::empty(), rest) == rest,
{
    match rest.result {
        Ok(text) => {
            assert(Seq::<char>::empty() + text =~= text);
        },
        Err(_) => {},
    }
}

/// Two texts before an outcome, one after the other, are their
/// concatenation before it.
proof fn lemma_after_after(first: Seq<char>, second: Seq<char>, rest: Outcome)
    ensures
        after(first, after(second, rest)) == after(first + second, rest),
{
    match rest.result {
        Ok(text) => {
            assert(first + (second + text) =~= (first + second) + text);
        },
        Err(_) => {},
    }
}

/// Calls a function.
pub fn call(func: ScriptFunction, args: &[&str], cpu: &CPU, vars: &mut Table<u64>) -> (r: Result<
    String,
    String,
>)
    ensures
        text_result(r) == applied(func, texts(args@), cpu@, old(vars)@).result,
        final(vars)@ == applied(func, texts(args@), cpu@, old(vars)@).variables,
{
    match func {
        ScriptFunction::Decimal => decimal(args, cpu, vars),
        ScriptFunction::Assignment => assignment(args, cpu, vars),
        ScriptFunction::Add => arithmetic(args, cpu, vars, '+'),
        ScriptFunction::Subtract => arithmetic(args, cpu, vars, '-'),
        ScriptFunction::Multiply => arithmetic(args, cpu, vars, '*'),
        ScriptFunction::Divide => arithmetic(args, cpu, vars, '/'),
        ScriptFunction::And => bitwise(args, cpu, vars, '&'),
        ScriptFunction::Or => bitwise(args, cpu, vars, '|'),
        ScriptFunction::Xor => bitwise(args, cpu, vars, '^'),
        ScriptFunction::Rotate => rotate(args, cpu, vars),
        ScriptFunction::ShiftLeft => shift(args, cpu, vars, true),
        ScriptFunction::ShiftRight => shift(args, cpu, vars, false),
        ScriptFunction::Memory => memory_operation(args, cpu, vars),
        ScriptFunction::Range => range(args, cpu, vars),
        ScriptFunction::Double => double(args, cpu, vars),
        ScriptFunction::Binary => binary(args, cpu, vars),
    }
}

} // verus!
