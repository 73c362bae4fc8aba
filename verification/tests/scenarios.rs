use tis_emulator::{Emulator, ExecError, RunError, RunStatus};

fn load(text: &str) -> Emulator {
    let mut emulator = Emulator::new();
    emulator.load_program(text.lines().map(|line| line.to_string()).collect());
    emulator
}

fn run_to_end(text: &str) -> Emulator {
    let mut emulator = load(text);
    assert_eq!(emulator.run(1_000_000), Ok(RunStatus::Halted));
    emulator
}

#[test]
fn countdown_loop_ends_at_zero() {
    let emulator = run_to_end("mov 5 acc\nloop:\nadd -1\njnz loop\nret");
    assert_eq!(emulator.acc, 0);
    assert_eq!(emulator.bak, 0);
}

#[test]
fn instruction_after_label_on_same_line_is_dropped() {
    // The line `loop: add -1` only declares `loop`, so the accumulator never
    // changes and the jump is taken for ever.
    let mut emulator = load("mov 5 acc\nloop: add -1\njnz loop\nret");
    assert_eq!(emulator.run(10_000), Ok(RunStatus::Paused));
    assert_eq!(emulator.acc, 5);
    assert_eq!(emulator.bak, 0);
    assert!(emulator.pc < 4);
}

#[test]
fn branch_on_zero_reaches_its_label() {
    let emulator = run_to_end("mov 0 acc\njez is_zero\nmov 1 acc\nret\nis_zero:\nmov 42 acc\nret");
    assert_eq!(emulator.acc, 42);
}

#[test]
fn branch_on_zero_to_label_with_trailing_instruction() {
    // `is_zero: mov 42 acc` only declares `is_zero`: the run falls through
    // to `ret` with the accumulator as it was.
    let emulator = run_to_end("mov 0 acc\njez is_zero\nmov 1 acc\nret\nis_zero: mov 42 acc\nret");
    assert_eq!(emulator.acc, 0);
    assert_eq!(emulator.pc, 6);
}

#[test]
fn branch_on_zero_falls_through_when_not_zero() {
    let emulator = run_to_end("mov 7 acc\njez is_zero\nmov 1 acc\nret\nis_zero:\nmov 42 acc\nret");
    assert_eq!(emulator.acc, 1);
}

#[test]
fn move_above_range_saturates() {
    let emulator = run_to_end("mov 1000 acc");
    assert_eq!(emulator.acc, 999);
}

#[test]
fn move_below_range_saturates() {
    let emulator = run_to_end("mov -1000 acc");
    assert_eq!(emulator.acc, -999);
}

#[test]
fn empty_program_is_halted_at_once() {
    let mut emulator = Emulator::new();
    assert_eq!(emulator.run(0), Ok(RunStatus::Halted));
    assert_eq!((emulator.acc, emulator.bak, emulator.pc), (0, 0, 0));
}

#[test]
fn running_off_the_end_halts() {
    let emulator = run_to_end("mov 3 acc\nsave\nadd 4");
    assert_eq!((emulator.acc, emulator.bak, emulator.pc), (7, 3, 3));
}

#[test]
fn ret_skips_the_rest() {
    let emulator = run_to_end("mov 3 acc\nret\nmov 9 acc");
    assert_eq!((emulator.acc, emulator.pc), (3, 3));
}

#[test]
fn comments_and_blank_lines_take_a_step_each() {
    let mut emulator = load("# set up\n\n   # indented\nmov 2 acc\n");
    assert_eq!(emulator.run(3), Ok(RunStatus::Paused));
    assert_eq!((emulator.acc, emulator.pc), (0, 3));
    assert_eq!(emulator.run(1), Ok(RunStatus::Halted));
    assert_eq!((emulator.acc, emulator.pc), (2, 4));
}

#[test]
fn step_limit_pauses_and_run_resumes() {
    let text = "mov 5 acc\nloop:\nadd -1\njnz loop\nret";
    let mut paused = load(text);
    assert_eq!(paused.run(4), Ok(RunStatus::Paused));
    assert_eq!((paused.acc, paused.pc), (4, 1));
    assert_eq!(paused.run(1_000), Ok(RunStatus::Halted));
    let whole = run_to_end(text);
    assert_eq!((paused.acc, paused.bak, paused.pc), (whole.acc, whole.bak, whole.pc));
}

#[test]
fn endless_loop_never_halts() {
    let mut emulator = load("here:\njmp here");
    assert_eq!(emulator.run(100_000), Ok(RunStatus::Paused));
    assert!(emulator.pc < 2);
}

#[test]
fn unknown_label_is_reported_with_its_line() {
    let mut emulator = load("mov 1 acc\n\njmp nowhere\nmov 2 acc");
    assert_eq!(
        emulator.run(100),
        Err(RunError { line: 3, error: ExecError::UnknownLabel("nowhere".to_string()) })
    );
    assert_eq!((emulator.acc, emulator.bak, emulator.pc), (1, 0, 2));
}

#[test]
fn conditional_jump_to_unknown_label_only_fails_when_taken() {
    let emulator = run_to_end("mov 1 acc\njez nowhere\nmov 2 acc");
    assert_eq!(emulator.acc, 2);
    let mut failing = load("jez nowhere\nmov 2 acc");
    assert_eq!(
        failing.run(100),
        Err(RunError { line: 1, error: ExecError::UnknownLabel("nowhere".to_string()) })
    );
    assert_eq!((failing.acc, failing.pc), (0, 0));
}

#[test]
fn write_to_backup_is_reported_with_its_line() {
    let mut emulator = load("mov 7 acc\nsave\nmov 1 bak\nmov 2 acc");
    assert_eq!(emulator.run(100), Err(RunError { line: 3, error: ExecError::WriteToBackup }));
    assert_eq!((emulator.acc, emulator.bak, emulator.pc), (7, 7, 2));
}

#[test]
fn label_as_value_is_reported_with_its_line() {
    let mut emulator = load("add thing");
    assert_eq!(
        emulator.run(100),
        Err(RunError { line: 1, error: ExecError::LabelAsValue("thing".to_string()) })
    );
}

#[test]
fn write_to_immediate_and_label_are_reported() {
    let mut first = load("mov 1 2");
    assert_eq!(first.run(100), Err(RunError { line: 1, error: ExecError::WriteToImmediate }));
    let mut second = load("mov 1 somewhere");
    assert_eq!(
        second.run(100),
        Err(RunError { line: 1, error: ExecError::WriteToLabel("somewhere".to_string()) })
    );
}

#[test]
fn load_program_binds_labels_and_keeps_registers() {
    let mut emulator = load("mov 5 acc\nsave\nend:");
    assert_eq!(emulator.run(100), Ok(RunStatus::Halted));
    assert_eq!((emulator.acc, emulator.bak, emulator.pc), (5, 5, 3));
    emulator.load_program(vec!["a:".to_string(), "nop".to_string(), "b:".to_string(), "a:".to_string()]);
    assert_eq!((emulator.acc, emulator.bak, emulator.pc), (5, 5, 0));
    assert_eq!(emulator.program.len(), 4);
    assert_eq!(emulator.lookup("a"), Ok(3));
    assert_eq!(emulator.lookup("b"), Ok(2));
    assert_eq!(emulator.lookup("end"), Err(ExecError::UnknownLabel("end".to_string())));
    assert_eq!(emulator.lookup("A"), Err(ExecError::UnknownLabel("A".to_string())));
}

#[test]
fn swap_and_save_through_a_program() {
    let emulator = run_to_end("mov 3 acc\nsave\nmov 8 acc\nswp\nadd bak\nadd acc");
    // after swp: acc 3, bak 8; add bak: 11; add acc: 22
    assert_eq!((emulator.acc, emulator.bak), (22, 8));
}

#[test]
fn registers_stay_in_range_through_a_long_run() {
    let mut emulator = load("top:\nadd 700\nsave\nadd 700\nswp\nadd -2000\njmp top");
    for _ in 0..200 {
        assert_eq!(emulator.run(1), Ok(RunStatus::Paused));
        assert!((-999..=999).contains(&emulator.acc));
        assert!((-999..=999).contains(&emulator.bak));
    }
}
