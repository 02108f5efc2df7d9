//! A workbench for learning x86-64 assembly: it parses one instruction per
//! line, encodes it to machine code, and carries it out on a modelled CPU.
//!
//! - [`parser`]: the instruction vocabulary and the parser for one line.
//! - [`semantics`]: the meaning of each instruction as a function on states.
//! - [`cpu`]: the CPU and the interpreter, proved against [`semantics`].
//! - [`assembler`]: the adapter to the machine-code encoder; [`encoder`]
//!   holds what is taken on trust from the `iced_x86` crate.
//! - [`session`] and [`repl`]: one line, a batch of lines, and the prompt
//!   as a state machine.
//! - [`calculator`], [`script_mode`], [`user_functions`]: the calculator and
//!   the scripting mode.
//! - [`lexer`], [`words`], [`text`], [`table`]: scanning of bytes and of
//!   text, numbers as text, and a map from names to values.
//! - [`laws`]: what holds of every state and every instruction.

pub mod assembler;
pub mod calculator;
pub mod cpu;
pub mod encoder;
pub mod laws;
pub mod lexer;
pub mod parser;
pub mod repl;
pub mod script_mode;
pub mod semantics;
pub mod session;
pub mod table;
pub mod text;
pub mod user_functions;
pub mod words;
