//! Functions that extend the scripting mode.

use crate::cpu::CPU;
use crate::script_mode::{text_result, ScriptEnvironment, ScriptFunction};
use crate::semantics::CpuView;
use crate::table::Table;
use crate::text::{numeral, push_numeral};
use crate::words::{lowercase_of, parse_unsigned, same_text, texts, to_lowercase, unsigned_of};
use vstd::prelude::*;
use vstd::string::StringExecFns;

verus! {

/// Makes `double` and `binary` callable in an environment.
pub fn load_user_functions(env: &mut ScriptEnvironment)
    ensures
        final(env).functions() == old(env).functions().insert(
            "double"@,
            ScriptFunction::Double,
        ).insert("binary"@, ScriptFunction::Binary),
        final(env).variables() == old(env).variables(),
{
    env.add_function("double", ScriptFunction::Double);
    env.add_function("binary", ScriptFunction::Binary);
}

/// `double <value>`: twice the number, modulo 2^64.
pub open spec fn double_outcome(args: Seq<Seq<char>>) -> Result<Seq<char>, Seq<char>> {
    if args.len() != 1 {
        Err("Usage: double <value>"@)
    } else {
        match unsigned_of(args[0], 10, u64::MAX as nat) {
            Err(_) => Err("Invalid number"@),
            Ok(value) => Ok("Result: "@ + numeral((value * 2) % 0x1_0000_0000_0000_0000, 10)),
        }
    }
}

/// Doubles a number.
pub fn double(args: &[&str], _cpu: &CPU, _vars: &mut Table<u64>) -> (r: Result<String, String>)
    ensures
        text_result(r) == double_outcome(texts(args@)),
        final(_vars)@ == old(_vars)@,
{
    if args.len() != 1 {
        return Err(String::from_str("Usage: double <value>"));
    }
    let value: u64 = match parse_unsigned(args[0], 10, u64::MAX) {
        Ok(value) => value,
        Err(_) => {
            return Err(String::from_str("Invalid number"));
        },
    };
    let mut text = String::from_str("Result: ");
    push_numeral(&mut text, value.wrapping_mul(2), 10);
    Ok(text)
}

/// `binary <register>`: RAX or RBX in binary. The name is taken in any
/// case.
pub open spec fn binary_outcome(args: Seq<Seq<char>>, cpu: CpuView) -> Result<
    Seq<char>,
    Seq<char>,
> {
    if args.len() != 1 {
        Err("Usage: binary <register>"@)
    } else {
        let register = lowercase_of(args[0]);
        if register == "rax"@ {
            Ok("RAX in binary: "@ + numeral(cpu.gprs.rax as nat, 2))
        } else if register == "rbx"@ {
            Ok("RBX in binary: "@ + numeral(cpu.gprs.rbx as nat, 2))
        } else {
            Err("Unknown register: "@ + register)
        }
    }
}

/// Shows RAX or RBX in binary.
pub fn binary(args: &[&str], cpu: &CPU, _vars: &mut Table<u64>) -> (r: Result<String, String>)
    ensures
        text_result(r) == binary_outcome(texts(args@), cpu@),
        final(_vars)@ == old(_vars)@,
{
    if args.len() != 1 {
        return Err(String::from_str("Usage: binary <register>"));
    }
    let register = to_lowercase(args[0]);
    if same_text(register.as_str(), "rax") {
        let mut text = String::from_str("RAX in binary: ");
        push_numeral(&mut text, cpu.rax, 2);
        Ok(text)
    } else if same_text(register.as_str(), "rbx") {
        let mut text = String::from_str("RBX in binary: ");
        push_numeral(&mut text, cpu.rbx, 2);
        Ok(text)
    } else {
        let mut text = String::from_str("Unknown register: ");
        text.append(register.as_str());
        Err(text)
    }
}

} // verus!
