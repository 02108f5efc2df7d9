//! The prompt as a state machine: what each line does to the session and
//! what is to be shown for it. Reading lines and showing answers is left
//! to the caller.

use crate::calculator::{calculate, calculation_of, Calculation};
use crate::cpu::{CPU, MEMORY_SIZE};
use crate::script_mode::{
    default_functions, script_outcome, text_result, ScriptEnvironment, ScriptFunction,
};
use crate::semantics::initial_state;
use crate::session::{
    batched, execute_multi_instructions, handle_single_instruction, handled, Batch, Handled,
};
use crate::user_functions::load_user_functions;
use crate::words::{lines_of, same_text, trim, trimmed, words_of};
use vstd::prelude::*;
use vstd::string::StringExecFns;
use vstd::utf8::encode_utf8;

verus! {

/// What the prompt does with a line that is no command.
#[derive(Debug, PartialEq, Eq, Clone, Copy, Structural)]
pub enum ReplMode {
    /// The line is parsed and carried out at once.
    Single,
    /// The line is kept until `run`.
    Multi,
    /// The line goes to the calculator.
    Calculator,
    /// The line is run as a script.
    Script,
}

/// What a line asks for, white space at its ends removed.
#[derive(Debug, PartialEq, Eq, Clone, Copy, Structural)]
pub enum Command {
    /// `exit`
    Exit,
    /// `help`
    Help,
    /// `cpu`
    CompactState,
    /// `state`
    DetailedState,
    /// `:single`, `:multi`, `:calc`, `:script`
    Switch(ReplMode),
    /// `run`
    Run,
    /// Any other line: input for the mode that is active.
    Input,
}

/// What became of a line.
#[derive(Debug, PartialEq, Eq)]
pub enum Outcome {
    /// The session is to end.
    Exit,
    /// The help text is to be shown.
    Help,
    /// The compact view of the CPU is to be shown.
    CompactState,
    /// The detailed view of the CPU is to be shown.
    DetailedState,
    /// The mode is now this one.
    Switched(ReplMode),
    /// `run` was asked for outside the multi-instruction mode.
    RunUnavailable,
    /// The kept lines were run; these are the lines and what became of
    /// them.
    Ran(Vec<String>, Batch),
    /// The line was handled in single-instruction mode.
    Handled(Handled),
    /// The line was kept.
    Buffered,
    /// The calculator's answer, or what is left to compute.
    Calculated(Calculation),
    /// The script's answer.
    Scripted(Result<String, String>),
}

/// The command that a line is.
pub open spec fn command_of(line: Seq<char>) -> Command {
    if line == "exit"@ {
        Command::Exit
    } else if line == "help"@ {
        Command::Help
    } else if line == "cpu"@ {
        Command::CompactState
    } else if line == "state"@ {
        Command::DetailedState
    } else if line == ":single"@ {
        Command::Switch(ReplMode::Single)
    } else if line == ":multi"@ {
        Command::Switch(ReplMode::Multi)
    } else if line == ":calc"@ {
        Command::Switch(ReplMode::Calculator)
    } else if line == ":script"@ {
        Command::Switch(ReplMode::Script)
    } else if line == "run"@ {
        Command::Run
    } else {
        Command::Input
    }
}

/// The command that a line is.
pub fn classify(line: &str) -> (command: Command)
    ensures
        command == command_of(line@),
{
    if same_text(line, "exit") {
        Command::Exit
    } else if same_text(line, "help") {
        Command::Help
    } else if same_text(line, "cpu") {
        Command::CompactState
    } else if same_text(line, "state") {
        Command::DetailedState
    } else if same_text(line, ":single") {
        Command::Switch(ReplMode::Single)
    } else if same_text(line, ":multi") {
        Command::Switch(ReplMode::Multi)
    } else if same_text(line, ":calc") {
        Command::Switch(ReplMode::Calculator)
    } else if same_text(line, ":script") {
        Command::Switch(ReplMode::Script)
    } else if same_text(line, "run") {
        Command::Run
    } else {
        Command::Input
    }
}

/// One interactive session: the CPU, the mode, the lines kept for `run`,
/// and the script environment.
pub struct Session {
    pub cpu: CPU,
    pub mode: ReplMode,
    pub code_buffer: Vec<String>,
    pub script_env: ScriptEnvironment,
}

/// The functions of a new session: the default ones and the user's.
pub open spec fn session_functions() -> Map<Seq<char>, ScriptFunction> {
    default_functions().insert("double"@, ScriptFunction::Double).insert(
        "binary"@,
        ScriptFunction::Binary,
    )
}

impl Session {
    /// Whether the session but for the CPU is as `before` was.
    pub open spec fn same_surroundings(&self, before: &Session) -> bool {
        &&& self.mode == before.mode
        &&& self.code_buffer == before.code_buffer
        &&& self.script_env.functions() == before.script_env.functions()
        &&& self.script_env.variables() == before.script_env.variables()
    }

    /// Whether the session is as `before` was.
    pub open spec fn unchanged(&self, before: &Session) -> bool {
        self.cpu@ == before.cpu@ && self.same_surroundings(before)
    }

    /// Whether `self` and `outcome` are what entering a line of input, with
    /// the given text once trimmed, makes of the session `before`.
    pub open spec fn entered(&self, before: &Session, line: Seq<char>, outcome: Outcome) -> bool {
        match command_of(line) {
            Command::Exit => outcome == Outcome::Exit && self.unchanged(before),
            Command::Help => outcome == Outcome::Help && self.unchanged(before),
            Command::CompactState => outcome == Outcome::CompactState && self.unchanged(before),
            Command::DetailedState => outcome == Outcome::DetailedState && self.unchanged(before),
            Command::Switch(mode) => {
                &&& outcome == Outcome::Switched(mode)
                &&& self.mode == mode
                &&& self.cpu@ == before.cpu@
                &&& self.code_buffer == before.code_buffer
                &&& self.script_env.functions() == before.script_env.functions()
                &&& self.script_env.variables() == before.script_env.variables()
            },
            Command::Run => if before.mode == ReplMode::Multi {
                &&& outcome is Ran
                &&& outcome->Ran_0 == before.code_buffer
                &&& batched(before.code_buffer@, before.cpu@, self.cpu@, outcome->Ran_1)
                &&& self.code_buffer@.len() == 0
                &&& self.mode == before.mode
                &&& self.script_env.functions() == before.script_env.functions()
                &&& self.script_env.variables() == before.script_env.variables()
            } else {
                outcome == Outcome::RunUnavailable && self.unchanged(before)
            },
            Command::Input => match before.mode {
                ReplMode::Single => {
                    &&& outcome is Handled
                    &&& handled(encode_utf8(line), before.cpu@, self.cpu@, outcome->Handled_0)
                    &&& self.same_surroundings(before)
                },
                ReplMode::Multi => {
                    &&& outcome == Outcome::Buffered
                    &&& self.code_buffer@.len() == before.code_buffer@.len() + 1
                    &&& self.code_buffer@.last()@ == line
                    &&& self.code_buffer@.drop_last() == before.code_buffer@
                    &&& self.cpu@ == before.cpu@
                    &&& self.mode == before.mode
                    &&& self.script_env.functions() == before.script_env.functions()
                    &&& self.script_env.variables() == before.script_env.variables()
                },
                ReplMode::Calculator => {
                    &&& outcome is Calculated
                    &&& outcome->Calculated_0@ == calculation_of(words_of(line), before.cpu@)
                    &&& self.unchanged(before)
                },
                ReplMode::Script => {
                    let run = script_outcome(
                        lines_of(line),
                        before.script_env.functions(),
                        before.cpu@,
                        before.script_env.variables(),
                        0,
                    );
                    &&& outcome is Scripted
                    &&& text_result(outcome->Scripted_0) == run.result
                    &&& self.script_env.variables() == run.variables
                    &&& self.script_env.functions() == before.script_env.functions()
                    &&& self.cpu@ == before.cpu@
                    &&& self.mode == before.mode
                    &&& self.code_buffer == before.code_buffer
                },
            },
        }
    }

    /// A session at its start: a new CPU, single-instruction mode, no line
    /// kept, and the default and the user's functions.
    pub fn new() -> (session: Session)
        ensures
            session.cpu@ == initial_state(MEMORY_SIZE as nat),
            session.mode == ReplMode::Single,
            session.code_buffer@.len() == 0,
            session.script_env.functions() == session_functions(),
            session.script_env.variables() == Map::<Seq<char>, u64>::empty(),
    {
        let mut script_env = ScriptEnvironment::new();
        load_user_functions(&mut script_env);
        Session { cpu: CPU::new(), mode: ReplMode::Single, code_buffer: Vec::new(), script_env }
    }

    /// Enters one line. Commands are recognized first, whatever the mode;
    /// any other line goes to the mode that is active. White space at the
    /// ends of the line does not count.
    pub fn enter(&mut self, input: &str) -> (outcome: Outcome)
        ensures
            final(self).entered(old(self), trimmed(input@), outcome),
    {
        let line = trim(input);
        match classify(line) {
            Command::Exit => Outcome::Exit,
            Command::Help => Outcome::Help,
            Command::CompactState => Outcome::CompactState,
            Command::DetailedState => Outcome::DetailedState,
            Command::Switch(mode) => {
                self.mode = mode;
                Outcome::Switched(mode)
            },
            Command::Run => match self.mode {
                ReplMode::Multi => {
                    let mut lines: Vec<String> = Vec::new();
                    core::mem::swap(&mut self.code_buffer, &mut lines);
                    let batch = execute_multi_instructions(&mut self.cpu, lines.as_slice());
                    Outcome::Ran(lines, batch)
                },
                _ => Outcome::RunUnavailable,
            },
            Command::Input => match self.mode {
                ReplMode::Single => Outcome::Handled(
                    handle_single_instruction(line, &mut self.cpu),
                ),
                ReplMode::Multi => {
                    self.code_buffer.push(String::from_str(line));
                    proof {
                        assert(self.code_buffer@.drop_last() =~= old(self).code_buffer@);
                    }
                    Outcome::Buffered
                },
                ReplMode::Calculator => Outcome::Calculated(calculate(line, &self.cpu)),
                ReplMode::Script => Outcome::Scripted(
                    self.script_env.execute_script(line, &self.cpu),
                ),
            },
        }
    }
}

} // verus!
