//! A calculator on integers and registers. Operations on floating-point
//! numbers are recognized and handed back to the caller to carry out.

use crate::cpu::{rotate_left, rotate_right, CPU};
use crate::script_mode::{hex_text, push_hex};
use crate::semantics::{rotated_left, rotated_right, CpuView};
use crate::text::{numeral, push_numeral};
use crate::words::{
    integer_error_text, parse_signed, parse_unsigned, same_text, signed_of, split_whitespace,
    texts, to_uppercase, unsigned_of, uppercase_of, words_of, IntegerError,
};
use vstd::prelude::*;
use vstd::string::StringExecFns;

verus! {

/// What the calculator makes of a line.
#[derive(Debug, PartialEq, Eq)]
pub enum Calculation {
    /// The answer, or the error, of an operation that this library carries
    /// out.
    Answer(Result<String, String>),
    /// `sin`, `cos` or `tan` of an angle in degrees; both as written.
    Trigonometric(String, String),
    /// `+`, `-`, `*` or `/` on two numbers; all three as written.
    Arithmetic(String, String, String),
    /// The bits of a single-precision number, as written.
    FloatBits(String),
}

/// The mathematical content of a [`Calculation`].
pub enum CalculationView {
    Answer(Result<Seq<char>, Seq<char>>),
    Trigonometric(Seq<char>, Seq<char>),
    Arithmetic(Seq<char>, Seq<char>, Seq<char>),
    FloatBits(Seq<char>),
}

impl View for Calculation {
    type V = CalculationView;

    open spec fn view(&self) -> CalculationView {
        match self {
            Calculation::Answer(Ok(text)) => CalculationView::Answer(Ok(text@)),
            Calculation::Answer(Err(text)) => CalculationView::Answer(Err(text@)),
            Calculation::Trigonometric(function, angle) => CalculationView::Trigonometric(
                function@,
                angle@,
            ),
            Calculation::Arithmetic(operator, left, right) => CalculationView::Arithmetic(
                operator@,
                left@,
                right@,
            ),
            Calculation::FloatBits(value) => CalculationView::FloatBits(value@),
        }
    }
}

/// The 64 bits of a signed number in two's complement.
pub open spec fn bits_of(value: i64) -> u64 {
    if value < 0 {
        (value + 0x1_0000_0000_0000_0000) as u64
    } else {
        value as u64
    }
}

/// A signed number in decimal.
pub open spec fn signed_text(value: i64) -> Seq<char> {
    if value < 0 {
        "-"@ + numeral((-value) as nat, 10)
    } else {
        numeral(value as nat, 10)
    }
}

/// A number in binary after `0b`.
pub open spec fn binary_text(value: u64) -> Seq<char> {
    "0b"@ + numeral(value as nat, 2)
}

/// A number in hexadecimal and, in brackets, in decimal.
pub open spec fn result_text(value: u64) -> Seq<char> {
    "Result: "@ + hex_text(value) + " ("@ + numeral(value as nat, 10) + ")"@
}

/// The 64 bits of a signed number in two's complement.
pub fn bits(value: i64) -> (r: u64)
    ensures
        r == bits_of(value),
{
    let r: u64 = value as u64;
    assert(r == bits_of(value)) by (bit_vector)
        requires
            r == value as u64,
    ;
    r
}

/// Appends a signed number in decimal.
pub fn push_signed(out: &mut String, value: i64)
    ensures
        final(out)@ == old(out)@ + signed_text(value),
{
    if value < 0 {
        out.append("-");
        let magnitude: u64 = if value == i64::MIN {
            0x8000_0000_0000_0000
        } else {
            (-value) as u64
        };
        push_numeral(out, magnitude, 10);
        proof {
            assert(out@ =~= old(out)@ + signed_text(value));
        }
    } else {
        push_numeral(out, value as u64, 10);
    }
}

/// The text of a result in hexadecimal and decimal.
fn result(value: u64) -> (text: String)
    ensures
        text@ == result_text(value),
{
    let mut text = String::from_str("Result: ");
    push_hex(&mut text, value);
    text.append(" (");
    push_numeral(&mut text, value, 10);
    text.append(")");
    proof {
        assert(text@ =~= result_text(value));
    }
    text
}

/// An error text: what was wrong, then why the text is no integer.
fn invalid(what: &str, e: IntegerError) -> (text: String)
    ensures
        text@ == what@ + integer_error_text(e),
{
    let mut text = String::from_str(what);
    text.append(e.message());
    text
}

/// `hex`, `bin`, `dec` with a number in that base: the number in
/// hexadecimal, decimal and binary. The number is a signed 64-bit one;
/// hexadecimal and binary show its two's complement.
pub open spec fn convert_base_outcome(tokens: Seq<Seq<char>>) -> Result<Seq<char>, Seq<char>> {
    if tokens.len() != 2 {
        Err("Usage: hex/bin/dec <value>"@)
    } else {
        let base: nat = if tokens[0] == "hex"@ {
            16
        } else if tokens[0] == "bin"@ {
            2
        } else if tokens[0] == "dec"@ {
            10
        } else {
            0
        };
        if base == 0 {
            Err("Invalid base specified"@)
        } else {
            match signed_of(tokens[1], base) {
                Err(e) => Err("Invalid input: "@ + integer_error_text(e)),
                Ok(value) => Ok(
                    "Hex: "@ + hex_text(bits_of(value as i64)) + "\nDecimal: "@ + signed_text(
                        value as i64,
                    ) + "\nBinary: "@ + binary_text(bits_of(value as i64)),
                ),
            }
        }
    }
}

/// Shows a number, given in base 16, 2 or 10, in all three.
pub fn convert_base(tokens: &[&str]) -> (r: Result<String, String>)
    ensures
        crate::script_mode::text_result(r) == convert_base_outcome(texts(tokens@)),
{
    if tokens.len() != 2 {
        return Err(String::from_str("Usage: hex/bin/dec <value>"));
    }
    let base: u64 = if same_text(tokens[0], "hex") {
        16
    } else if same_text(tokens[0], "bin") {
        2
    } else if same_text(tokens[0], "dec") {
        10
    } else {
        return Err(String::from_str("Invalid base specified"));
    };
    let value: i64 = match parse_signed(tokens[1], base) {
        Ok(value) => value,
        Err(e) => {
            return Err(invalid("Invalid input: ", e));
        },
    };
    let mut text = String::from_str("Hex: ");
    push_hex(&mut text, bits(value));
    text.append("\nDecimal: ");
    push_signed(&mut text, value);
    text.append("\nBinary: ");
    text.append("0b");
    push_numeral(&mut text, bits(value), 2);
    proof {
        assert(text@ =~= "Hex: "@ + hex_text(bits_of(value)) + "\nDecimal: "@ + signed_text(value)
            + "\nBinary: "@ + binary_text(bits_of(value)));
    }
    Ok(text)
}

/// The numbers that the tokens from `from` on write, or the first error.
pub open spec fn numbers_from(tokens: Seq<Seq<char>>, from: int) -> Result<Seq<u64>, IntegerError>
    decreases tokens.len() - from,
{
    if from < 0 || from >= tokens.len() {
        Ok(Seq::empty())
    } else {
        match unsigned_of(tokens[from], 10, u64::MAX as nat) {
            Err(e) => Err(e),
            Ok(value) => match numbers_from(tokens, from + 1) {
                Err(e) => Err(e),
                Ok(rest) => Ok(seq![value as u64] + rest),
            },
        }
    }
}

/// The numbers folded by a bitwise operation, beginning with `start`.
pub open spec fn folded(values: Seq<u64>, op: char, start: u64) -> u64
    decreases values.len(),
{
    if values.len() == 0 {
        start
    } else {
        let before = folded(values.drop_last(), op, start);
        if op == '&' {
            before & values.last()
        } else if op == '|' {
            before | values.last()
        } else {
            before ^ values.last()
        }
    }
}

/// `and`, `or`, `xor` of any number of values, and `not` of the first.
pub open spec fn bitwise_op_outcome(tokens: Seq<Seq<char>>) -> Result<Seq<char>, Seq<char>> {
    if tokens.len() < 2 {
        Err("Not enough arguments for bitwise operation"@)
    } else {
        match numbers_from(tokens, 1) {
            Err(e) => Err("Invalid input: "@ + integer_error_text(e)),
            Ok(values) => if tokens[0] == "and"@ {
                Ok(result_text(folded(values, '&', u64::MAX)))
            } else if tokens[0] == "or"@ {
                Ok(result_text(folded(values, '|', 0)))
            } else if tokens[0] == "xor"@ {
                Ok(result_text(folded(values, '^', 0)))
            } else if tokens[0] == "not"@ {
                Ok(result_text(!values[0]))
            } else {
                Err("Unknown bitwise operation"@)
            },
        }
    }
}

/// Combines the values bit by bit, or complements the first.
pub fn bitwise_op(tokens: &[&str]) -> (r: Result<String, String>)
    ensures
        crate::script_mode::text_result(r) == bitwise_op_outcome(texts(tokens@)),
{
    if tokens.len() < 2 {
        return Err(String::from_str("Not enough arguments for bitwise operation"));
    }
    let values = match read_numbers(tokens) {
        Ok(values) => values,
        Err(e) => {
            return Err(invalid("Invalid input: ", e));
        },
    };
    if same_text(tokens[0], "and") {
        Ok(result(fold(&values, '&', u64::MAX)))
    } else if same_text(tokens[0], "or") {
        Ok(result(fold(&values, '|', 0)))
    } else if same_text(tokens[0], "xor") {
        Ok(result(fold(&values, '^', 0)))
    } else if same_text(tokens[0], "not") {
        Ok(result(!values[0]))
    } else {
        Err(String::from_str("Unknown bitwise operation"))
    }
}

/// Reads the numbers that the tokens after the first write, from the left,
/// up to the first that is no number.
fn read_numbers(tokens: &[&str]) -> (r: Result<Vec<u64>, IntegerError>)
    requires
        tokens@.len() >= 1,
    ensures
        match r {
            Ok(values) => numbers_from(texts(tokens@), 1) == Ok::<Seq<u64>, IntegerError>(values@),
            Err(e) => numbers_from(texts(tokens@), 1) == Err::<Seq<u64>, IntegerError>(e),
        },
        r is Ok ==> r->Ok_0@.len() == tokens@.len() - 1,
{
    let ghost all = texts(tokens@);
    let mut values: Vec<u64> = Vec::new();
    let mut i: usize = 1;
    while i < tokens.len()
        invariant
            1 <= i <= tokens@.len(),
            all == texts(tokens@),
            values@.len() == i - 1,
            forall|j: int|
                1 <= j < i ==> unsigned_of(#[trigger] all[j], 10, u64::MAX as nat) == Ok::<
                    nat,
                    IntegerError,
                >(values@[j - 1] as nat),
        decreases tokens@.len() - i,
    {
        match parse_unsigned(tokens[i], 10, u64::MAX) {
            Ok(value) => {
                values.push(value);
            },
            Err(e) => {
                proof {
                    lemma_numbers_stop(all, values@, 1, i as int, e);
                }
                return Err(e);
            },
        }
        i = i + 1;
    }
    proof {
        lemma_numbers_all(all, values@, 1);
        assert(values@.subrange(0, values@.len() as int) =~= values@);
    }
    Ok(values)
}

/// Where every token from `from` on writes a number, the numbers are read
/// in order.
proof fn lemma_numbers_all(all: Seq<Seq<char>>, values: Seq<u64>, from: int)
    requires
        1 <= from <= all.len(),
        values.len() == all.len() - 1,
        forall|j: int|
            1 <= j < all.len() ==> unsigned_of(#[trigger] all[j], 10, u64::MAX as nat) == Ok::<
                nat,
                IntegerError,
            >(values[j - 1] as nat),
    ensures
        numbers_from(all, from) == Ok::<Seq<u64>, IntegerError>(
            values.subrange(from - 1, values.len() as int),
        ),
    decreases all.len() - from,
{
    if from < all.len() {
        lemma_numbers_all(all, values, from + 1);
        assert(seq![values[from - 1]] + values.subrange(from, values.len() as int)
            =~= values.subrange(from - 1, values.len() as int));
    } else {
        assert(values.subrange(from - 1, values.len() as int) =~= Seq::<u64>::empty());
    }
    if from == 1 {
        assert(values.subrange(0, values.len() as int) =~= values);
    }
}

/// Where the token at `stop` is the first that writes no number, its error
/// is the outcome.
proof fn lemma_numbers_stop(
    all: Seq<Seq<char>>,
    values: Seq<u64>,
    from: int,
    stop: int,
    e: IntegerError,
)
    requires
        1 <= from <= stop < all.len(),
        values.len() == stop - 1,
        forall|j: int|
            1 <= j < stop ==> unsigned_of(#[trigger] all[j], 10, u64::MAX as nat) == Ok::<
                nat,
                IntegerError,
            >(values[j - 1] as nat),
        unsigned_of(all[stop], 10, u64::MAX as nat) == Err::<nat, IntegerError>(e),
    ensures
        numbers_from(all, from) == Err::<Seq<u64>, IntegerError>(e),
    decreases stop - from,
{
    if from < stop {
        lemma_numbers_stop(all, values, from + 1, stop, e);
    }
}

/// Folds the numbers by a bitwise operation.
fn fold(values: &Vec<u64>, op: char, start: u64) -> (r: u64)
    ensures
        r == folded(values@, op, start),
{
    let mut acc: u64 = start;
    let mut i: usize = 0;
    while i < values.len()
        invariant
            i <= values@.len(),
            acc == folded(values@.subrange(0, i as int), op, start),
        decreases values@.len() - i,
    {
        proof {
            let next = values@.subrange(0, i as int + 1);
            assert(next.drop_last() =~= values@.subrange(0, i as int));
            assert(next.last() == values@[i as int]);
        }
        acc = if op == '&' {
            acc & values[i]
        } else if op == '|' {
            acc | values[i]
        } else {
            acc ^ values[i]
        };
        i = i + 1;
    }
    proof {
        assert(values@.subrange(0, values@.len() as int) =~= values@);
    }
    acc
}

/// `shl` and `shr` of a value by a count, of which the low six bits count.
pub open spec fn bit_shift_outcome(tokens: Seq<Seq<char>>) -> Result<Seq<char>, Seq<char>> {
    if tokens.len() != 3 {
        Err("Usage: shl/shr <value> <shift amount>"@)
    } else {
        match unsigned_of(tokens[1], 10, u64::MAX as nat) {
            Err(e) => Err("Invalid value: "@ + integer_error_text(e)),
            Ok(value) => match unsigned_of(tokens[2], 10, u32::MAX as nat) {
                Err(e) => Err("Invalid shift amount: "@ + integer_error_text(e)),
                Ok(by) => if tokens[0] == "shl"@ {
                    Ok(result_text((value as u64) << ((by % 64) as u64)))
                } else {
                    Ok(result_text((value as u64) >> ((by % 64) as u64)))
                },
            },
        }
    }
}

/// Shifts a value to the left or to the right.
pub fn bit_shift(tokens: &[&str]) -> (r: Result<String, String>)
    ensures
        crate::script_mode::text_result(r) == bit_shift_outcome(texts(tokens@)),
{
    if tokens.len() != 3 {
        return Err(String::from_str("Usage: shl/shr <value> <shift amount>"));
    }
    let value: u64 = match parse_unsigned(tokens[1], 10, u64::MAX) {
        Ok(value) => value,
        Err(e) => {
            return Err(invalid("Invalid value: ", e));
        },
    };
    let by: u64 = match parse_unsigned(tokens[2], 10, 0xffff_ffff) {
        Ok(by) => by,
        Err(e) => {
            return Err(invalid("Invalid shift amount: ", e));
        },
    };
    if same_text(tokens[0], "shl") {
        Ok(result(value << (by % 64)))
    } else {
        Ok(result(value >> (by % 64)))
    }
}

/// `rol` and `ror` of a value by a count; a rotation by 64 is none.
pub open spec fn bit_rotate_outcome(tokens: Seq<Seq<char>>) -> Result<Seq<char>, Seq<char>> {
    if tokens.len() != 3 {
        Err("Usage: rol/ror <value> <rotate amount>"@)
    } else {
        match unsigned_of(tokens[1], 10, u64::MAX as nat) {
            Err(e) => Err("Invalid value: "@ + integer_error_text(e)),
            Ok(value) => match unsigned_of(tokens[2], 10, u32::MAX as nat) {
                Err(e) => Err("Invalid rotate amount: "@ + integer_error_text(e)),
                Ok(by) => if tokens[0] == "rol"@ {
                    Ok(result_text(rotated_left(value as u64, (by % 64) as u64)))
                } else {
                    Ok(result_text(rotated_right(value as u64, (by % 64) as u64)))
                },
            },
        }
    }
}

/// Rotates a value to the left or to the right.
pub fn bit_rotate(tokens: &[&str]) -> (r: Result<String, String>)
    ensures
        crate::script_mode::text_result(r) == bit_rotate_outcome(texts(tokens@)),
{
    if tokens.len() != 3 {
        return Err(String::from_str("Usage: rol/ror <value> <rotate amount>"));
    }
    let value: u64 = match parse_unsigned(tokens[1], 10, u64::MAX) {
        Ok(value) => value,
        Err(e) => {
            return Err(invalid("Invalid value: ", e));
        },
    };
    let by: u64 = match parse_unsigned(tokens[2], 10, 0xffff_ffff) {
        Ok(by) => by,
        Err(e) => {
            return Err(invalid("Invalid rotate amount: ", e));
        },
    };
    if same_text(tokens[0], "rol") {
        Ok(result(rotate_left(value, by % 64)))
    } else {
        Ok(result(rotate_right(value, by % 64)))
    }
}

/// The negative of a signed number, modulo 2^64.
pub open spec fn negated(value: i64) -> i64 {
    if value == i64::MIN {
        value
    } else {
        (-value) as i64
    }
}

/// `twos` of a signed number: its negative in two's complement.
pub open spec fn twos_complement_outcome(tokens: Seq<Seq<char>>) -> Result<Seq<char>, Seq<char>> {
    if tokens.len() != 2 {
        Err("Usage: twos <value>"@)
    } else {
        match signed_of(tokens[1], 10) {
            Err(e) => Err("Invalid value: "@ + integer_error_text(e)),
            Ok(value) => Ok(
                "Two's complement: "@ + hex_text(bits_of(negated(value as i64))) + " ("@
                    + signed_text(negated(value as i64)) + ")"@,
            ),
        }
    }
}

/// Negates a signed number.
pub fn twos_complement(tokens: &[&str]) -> (r: Result<String, String>)
    ensures
        crate::script_mode::text_result(r) == twos_complement_outcome(texts(tokens@)),
{
    if tokens.len() != 2 {
        return Err(String::from_str("Usage: twos <value>"));
    }
    let value: i64 = match parse_signed(tokens[1], 10) {
        Ok(value) => value,
        Err(e) => {
            return Err(invalid("Invalid value: ", e));
        },
    };
    let result: i64 = if value == i64::MIN {
        value
    } else {
        -value
    };
    let mut text = String::from_str("Two's complement: ");
    push_hex(&mut text, bits(result));
    text.append(" (");
    push_signed(&mut text, result);
    text.append(")");
    proof {
        assert(text@ =~= "Two's complement: "@ + hex_text(bits_of(negated(value))) + " ("@
            + signed_text(negated(value)) + ")"@);
    }
    Ok(text)
}

/// A register under a name, in hexadecimal and, in brackets, in decimal.
pub open spec fn register_shown(name: Seq<char>, value: u64) -> Seq<char> {
    name + " value: "@ + hex_text(value) + " ("@ + numeral(value as nat, 10) + ")"@
}

/// `reg` with the name of RAX, RBX, RCX or RDX in any case: the register in
/// hexadecimal and decimal, under its upper-case name.
pub open spec fn register_value_outcome(tokens: Seq<Seq<char>>, cpu: CpuView) -> Result<
    Seq<char>,
    Seq<char>,
> {
    if tokens.len() != 2 {
        Err("Usage: reg <register_name>"@)
    } else {
        let name = uppercase_of(tokens[1]);
        if name == "RAX"@ {
            Ok(register_shown(name, cpu.gprs.rax))
        } else if name == "RBX"@ {
            Ok(register_shown(name, cpu.gprs.rbx))
        } else if name == "RCX"@ {
            Ok(register_shown(name, cpu.gprs.rcx))
        } else if name == "RDX"@ {
            Ok(register_shown(name, cpu.gprs.rdx))
        } else {
            Err("Unknown register: "@ + name)
        }
    }
}

/// Shows RAX, RBX, RCX or RDX in hexadecimal and decimal.
pub fn register_value(tokens: &[&str], cpu: &CPU) -> (r: Result<String, String>)
    ensures
        crate::script_mode::text_result(r) == register_value_outcome(texts(tokens@), cpu@),
{
    if tokens.len() != 2 {
        return Err(String::from_str("Usage: reg <register_name>"));
    }
    let reg_name = to_uppercase(tokens[1]);
    let value: u64 = if same_text(reg_name.as_str(), "RAX") {
        cpu.rax
    } else if same_text(reg_name.as_str(), "RBX") {
        cpu.rbx
    } else if same_text(reg_name.as_str(), "RCX") {
        cpu.rcx
    } else if same_text(reg_name.as_str(), "RDX") {
        cpu.rdx
    } else {
        let mut text = String::from_str("Unknown register: ");
        text.append(reg_name.as_str());
        return Err(text);
    };
    let mut text = String::from_str(reg_name.as_str());
    text.append(" value: ");
    push_hex(&mut text, value);
    text.append(" (");
    push_numeral(&mut text, value, 10);
    text.append(")");
    proof {
        assert(text@ =~= register_shown(reg_name@, value));
    }
    Ok(text)
}

/// Whether `word` is one of up to four operation names.
pub open spec fn one_of(
    word: Seq<char>,
    a: Seq<char>,
    b: Seq<char>,
    c: Seq<char>,
    d: Seq<char>,
) -> bool {
    word == a || word == b || word == c || word == d
}

/// What the calculator makes of the words of a line. The first word names
/// the operation.
pub open spec fn calculation_of(tokens: Seq<Seq<char>>, cpu: CpuView) -> CalculationView {
    if tokens.len() == 0 {
        CalculationView::Answer(Err("No input provided"@))
    } else if one_of(tokens[0], "hex"@, "bin"@, "dec"@, "dec"@) {
        CalculationView::Answer(convert_base_outcome(tokens))
    } else if one_of(tokens[0], "and"@, "or"@, "xor"@, "not"@) {
        CalculationView::Answer(bitwise_op_outcome(tokens))
    } else if one_of(tokens[0], "sin"@, "cos"@, "tan"@, "tan"@) {
        if tokens.len() != 2 {
            CalculationView::Answer(
                Err("Invalid number of arguments for trigonometric operation"@),
            )
        } else {
            CalculationView::Trigonometric(tokens[0], tokens[1])
        }
    } else if one_of(tokens[0], "+"@, "-"@, "*"@, "/"@) {
        if tokens.len() != 3 {
            CalculationView::Answer(Err("Invalid number of arguments for arithmetic operation"@))
        } else {
            CalculationView::Arithmetic(tokens[0], tokens[1], tokens[2])
        }
    } else if one_of(tokens[0], "shl"@, "shr"@, "shr"@, "shr"@) {
        CalculationView::Answer(bit_shift_outcome(tokens))
    } else if one_of(tokens[0], "rol"@, "ror"@, "ror"@, "ror"@) {
        CalculationView::Answer(bit_rotate_outcome(tokens))
    } else if tokens[0] == "twos"@ {
        CalculationView::Answer(twos_complement_outcome(tokens))
    } else if tokens[0] == "float_to_ieee"@ {
        if tokens.len() != 2 {
            CalculationView::Answer(Err("Usage: float_to_ieee <value>"@))
        } else {
            CalculationView::FloatBits(tokens[1])
        }
    } else if tokens[0] == "reg"@ {
        CalculationView::Answer(register_value_outcome(tokens, cpu))
    } else {
        CalculationView::Answer(Err("Unknown operation"@))
    }
}

/// Whether `word` is one of up to four operation names.
fn is_one_of(word: &str, a: &str, b: &str, c: &str, d: &str) -> (r: bool)
    ensures
        r == one_of(word@, a@, b@, c@, d@),
{
    same_text(word, a) || same_text(word, b) || same_text(word, c) || same_text(word, d)
}

/// An answer.
fn answer(r: Result<String, String>) -> (c: Calculation)
    ensures
        c@ == CalculationView::Answer(crate::script_mode::text_result(r)),
{
    Calculation::Answer(r)
}

/// Splits a line into words and carries out the operation that the first
/// word names, or hands back what is to be done in floating point.
pub fn calculate(input: &str, cpu: &CPU) -> (r: Calculation)
    ensures
        r@ == calculation_of(words_of(input@), cpu@),
{
    let words = split_whitespace(input);
    let tokens = words.as_slice();
    if tokens.len() == 0 {
        return answer(Err(String::from_str("No input provided")));
    }
    proof {
        assert(texts(tokens@)[0] == tokens@[0]@);
    }
    let name = tokens[0];
    if is_one_of(name, "hex", "bin", "dec", "dec") {
        answer(convert_base(tokens))
    } else if is_one_of(name, "and", "or", "xor", "not") {
        answer(bitwise_op(tokens))
    } else if is_one_of(name, "sin", "cos", "tan", "tan") {
        if tokens.len() != 2 {
            answer(
                Err(String::from_str("Invalid number of arguments for trigonometric operation")),
            )
        } else {
            proof {
                assert(texts(tokens@)[1] == tokens@[1]@);
            }
            Calculation::Trigonometric(String::from_str(name), String::from_str(tokens[1]))
        }
    } else if is_one_of(name, "+", "-", "*", "/") {
        if tokens.len() != 3 {
            answer(Err(String::from_str("Invalid number of arguments for arithmetic operation")))
        } else {
            proof {
                assert(texts(tokens@)[1] == tokens@[1]@);
                assert(texts(tokens@)[2] == tokens@[2]@);
            }
            Calculation::Arithmetic(
                String::from_str(name),
                String::from_str(tokens[1]),
                String::from_str(tokens[2]),
            )
        }
    } else if is_one_of(name, "shl", "shr", "shr", "shr") {
        answer(bit_shift(tokens))
    } else if is_one_of(name, "rol", "ror", "ror", "ror") {
        answer(bit_rotate(tokens))
    } else if same_text(name, "twos") {
        answer(twos_complement(tokens))
    } else if same_text(name, "float_to_ieee") {
        if tokens.len() != 2 {
            answer(Err(String::from_str("Usage: float_to_ieee <value>")))
        } else {
            proof {
                assert(texts(tokens@)[1] == tokens@[1]@);
            }
            Calculation::FloatBits(String::from_str(tokens[1]))
        }
    } else if same_text(name, "reg") {
        answer(register_value(tokens, cpu))
    } else {
        answer(Err(String::from_str("Unknown operation")))
    }
}

} // verus!
