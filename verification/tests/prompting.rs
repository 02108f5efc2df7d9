use asm_repl::calculator::Calculation;
use asm_repl::repl::{classify, Command, Outcome, ReplMode, Session};
use asm_repl::session::{Batch, Handled, Processed};

#[test]
fn commands_are_recognized_by_their_exact_spelling() {
    assert_eq!(classify("exit"), Command::Exit);
    assert_eq!(classify("help"), Command::Help);
    assert_eq!(classify("cpu"), Command::CompactState);
    assert_eq!(classify("state"), Command::DetailedState);
    assert_eq!(classify(":single"), Command::Switch(ReplMode::Single));
    assert_eq!(classify(":multi"), Command::Switch(ReplMode::Multi));
    assert_eq!(classify(":calc"), Command::Switch(ReplMode::Calculator));
    assert_eq!(classify(":script"), Command::Switch(ReplMode::Script));
    assert_eq!(classify("run"), Command::Run);
    assert_eq!(classify("Exit"), Command::Input);
    assert_eq!(classify("run now"), Command::Input);
    assert_eq!(classify(""), Command::Input);
    assert_eq!(classify("mov rax 5"), Command::Input);
}

#[test]
fn a_new_session_starts_in_single_mode() {
    let session = Session::new();
    assert_eq!(session.mode, ReplMode::Single);
    assert!(session.code_buffer.is_empty());
    assert_eq!(session.cpu.rsp, 1024 * 1024 - 8);
}

#[test]
fn commands_work_in_every_mode() {
    let mut session = Session::new();
    for mode in [":single", ":multi", ":calc", ":script"] {
        assert!(matches!(session.enter(mode), Outcome::Switched(_)));
        assert_eq!(session.enter("  help  "), Outcome::Help);
        assert_eq!(session.enter("cpu"), Outcome::CompactState);
        assert_eq!(session.enter("state"), Outcome::DetailedState);
        assert_eq!(session.enter("exit\n"), Outcome::Exit);
    }
    assert_eq!(session.mode, ReplMode::Script);
    assert_eq!(session.enter(":calc"), Outcome::Switched(ReplMode::Calculator));
    assert_eq!(session.mode, ReplMode::Calculator);
}

#[test]
fn single_mode_carries_lines_out_at_once() {
    let mut session = Session::new();
    assert_eq!(
        session.enter(" inc rbx "),
        Outcome::Handled(Handled::Instruction(Processed::Done(vec![0x48, 0xFF, 0xC3])))
    );
    assert_eq!(session.cpu.rbx, 1);
    assert_eq!(
        session.enter("rbx-h"),
        Outcome::Handled(Handled::Register("Rbx = 1".to_string()))
    );
    assert_eq!(session.enter("run"), Outcome::RunUnavailable);
    assert_eq!(session.cpu.rip, 1);
}

#[test]
fn multi_mode_keeps_lines_until_run() {
    let mut session = Session::new();
    assert_eq!(session.enter(":multi"), Outcome::Switched(ReplMode::Multi));
    assert_eq!(session.enter("mov rax 2"), Outcome::Buffered);
    assert_eq!(session.enter("  add rax rax  "), Outcome::Buffered);
    assert_eq!(session.cpu.rax, 0);
    assert_eq!(session.code_buffer, vec!["mov rax 2".to_string(), "add rax rax".to_string()]);
    assert_eq!(
        session.enter("run"),
        Outcome::Ran(
            vec!["mov rax 2".to_string(), "add rax rax".to_string()],
            Batch {
                processed: vec![
                    Processed::Done(vec![0x48, 0xB8, 2, 0, 0, 0, 0, 0, 0, 0]),
                    Processed::Done(vec![0x48, 0x01, 0xC0]),
                ],
                stopped: None,
            }
        )
    );
    assert_eq!(session.cpu.rax, 4);
    assert!(session.code_buffer.is_empty());
    assert_eq!(session.mode, ReplMode::Multi);
    assert_eq!(session.enter("run"), Outcome::Ran(vec![], Batch { processed: vec![], stopped: None }));
}

#[test]
fn calculator_and_script_modes() {
    let mut session = Session::new();
    session.enter(":calc");
    assert_eq!(
        session.enter("and 12 10"),
        Outcome::Calculated(Calculation::Answer(Ok("Result: 0x8 (8)".to_string())))
    );
    assert_eq!(
        session.enter("sin 90"),
        Outcome::Calculated(Calculation::Trigonometric("sin".to_string(), "90".to_string()))
    );
    session.enter(":script");
    assert_eq!(session.enter("→ n 20"), Outcome::Scripted(Ok("n ← 20\n".to_string())));
    assert_eq!(session.enter("double 4"), Outcome::Scripted(Ok("Result: 8\n".to_string())));
    assert_eq!(session.enter("+ n 1"), Outcome::Scripted(Ok("Result: 21\n".to_string())));
    assert_eq!(
        session.enter("nothing"),
        Outcome::Scripted(Err("Unknown function: nothing".to_string()))
    );
    assert_eq!(session.enter(""), Outcome::Scripted(Ok("".to_string())));
}
