use rush::config::{parse_config_from_args, select_source, Config, Mode};
use rush::driver::{
    advance, exit_code, interpret_next_line, CycleOutcome, LoopState, Session, Termination,
};
use rush::errors::{diagnostic_line, Error, ErrorKind};
use rush::executor::command_of_tokens;
use rush::source::{ConsoleInputReader, InputReader, MemoryInputReader, ReadStep};
use rush::tokenizer::Parser;

fn session_over(steps: Vec<ReadStep>) -> Session<MemoryInputReader> {
    Session::new(MemoryInputReader::new(steps))
}

#[test]
fn empty_source_terminates_clean_on_first_cycle() {
    let mut session = session_over(Vec::new());
    let mut parser = Parser::new();
    let r = interpret_next_line(&mut session, &mut parser);
    assert!(matches!(r, Ok(CycleOutcome::EndOfInput)));
    let state = advance(LoopState::Reading, &r);
    assert_eq!(state, LoopState::Terminated(Termination::Clean));
    assert_eq!(exit_code(Termination::Clean), 0);
}

#[test]
fn end_of_stream_is_absorbing() {
    let mut session = session_over(Vec::new());
    let mut parser = Parser::new();
    for _ in 0..3 {
        let r = interpret_next_line(&mut session, &mut parser);
        assert!(matches!(r, Ok(CycleOutcome::EndOfInput)));
    }
}

#[test]
fn second_read_failure_terminates_failed() {
    let mut session = session_over(vec![
        ReadStep::Line("echo a\n".to_string()),
        ReadStep::Failure(ErrorKind::SourceRead, "device error".to_string()),
    ]);
    let mut parser = Parser::new();

    let first = interpret_next_line(&mut session, &mut parser);
    assert!(matches!(first, Ok(CycleOutcome::Execute(_))));
    let state = advance(LoopState::Reading, &first);
    assert_eq!(state, LoopState::Reading);

    let second = interpret_next_line(&mut session, &mut parser);
    let error = match second {
        Err(e) => e,
        Ok(_) => panic!("the failing read must surface as an error"),
    };
    assert_eq!(error.kind, ErrorKind::SourceRead);
    assert_eq!(error.message, "device error");
    let state = advance(state, &Err(error));
    assert_eq!(state, LoopState::Terminated(Termination::Failed));
    assert_eq!(exit_code(Termination::Failed), 1);
}

#[test]
fn diagnostic_carries_prefix_and_newline() {
    let e = Error::new(ErrorKind::SourceRead, "device error".to_string());
    let line = diagnostic_line(&e);
    assert_eq!(line, "rush: device error\n");
    assert!(line.starts_with("rush: "));
}

#[test]
fn empty_token_sequence_spawns_nothing() {
    assert!(command_of_tokens(Vec::new()).is_none());
}

#[test]
fn command_splits_program_and_arguments() {
    let tokens = vec!["echo".to_string(), "a".to_string(), "b".to_string()];
    let command = command_of_tokens(tokens).expect("a non-empty line names a program");
    assert_eq!(command.program, "echo");
    assert_eq!(command.args, vec!["a", "b"]);
}

#[test]
fn spawn_failure_never_terminates_the_loop() {
    // The executed command's outcome is not an input of the state machine:
    // after any executed line the driver is reading again.
    let mut session = session_over(vec![ReadStep::Line("no-such-program\n".to_string())]);
    let mut parser = Parser::new();
    let r = interpret_next_line(&mut session, &mut parser);
    assert!(matches!(r, Ok(CycleOutcome::Execute(_))));
    assert_eq!(advance(LoopState::Reading, &r), LoopState::Reading);
}

#[test]
fn terminal_states_absorb_every_event() {
    let clean = LoopState::Terminated(Termination::Clean);
    let failed = LoopState::Terminated(Termination::Failed);
    let r = interpret_next_line(&mut session_over(Vec::new()), &mut Parser::new());
    assert_eq!(advance(clean, &r), clean);
    assert_eq!(advance(failed, &r), failed);
}

#[test]
fn blank_lines_execute_nothing_and_continue() {
    let mut session = session_over(vec![
        ReadStep::Line("\n".to_string()),
        ReadStep::Line("   \n".to_string()),
        ReadStep::Line("echo a\n".to_string()),
    ]);
    let mut parser = Parser::new();
    let r1 = interpret_next_line(&mut session, &mut parser);
    assert!(matches!(r1, Ok(CycleOutcome::Blank)));
    assert_eq!(advance(LoopState::Reading, &r1), LoopState::Reading);
    let r2 = interpret_next_line(&mut session, &mut parser);
    assert!(matches!(r2, Ok(CycleOutcome::Blank)));
    let r3 = interpret_next_line(&mut session, &mut parser);
    match r3 {
        Ok(CycleOutcome::Execute(c)) => assert_eq!(c.program, "echo"),
        _ => panic!("the third line names a program"),
    }
}

#[test]
fn two_line_script_spawns_two_commands_in_order() {
    let mut session = session_over(vec![
        ReadStep::Line("echo a\n".to_string()),
        ReadStep::Line("echo b\n".to_string()),
    ]);
    let mut parser = Parser::new();
    let mut state = LoopState::Reading;
    let mut spawned: Vec<(String, Vec<String>)> = Vec::new();
    while state == LoopState::Reading {
        let r = interpret_next_line(&mut session, &mut parser);
        if let Ok(CycleOutcome::Execute(c)) = &r {
            spawned.push((c.program.clone(), c.args.clone()));
        }
        state = advance(state, &r);
    }
    assert_eq!(
        spawned,
        vec![
            ("echo".to_string(), vec!["a".to_string()]),
            ("echo".to_string(), vec!["b".to_string()]),
        ]
    );
    assert_eq!(state, LoopState::Terminated(Termination::Clean));
    assert_eq!(exit_code(Termination::Clean), 0);
}

#[test]
fn script_path_selects_the_file_source() {
    let config = parse_config_from_args(vec!["rush".to_string(), "script.sh".to_string()]);
    assert_eq!(config.mode, Mode::Bourne);
    assert_eq!(config.input_file.as_deref(), Some("script.sh"));
    let selected = select_source(config);
    assert_eq!(selected.ok().as_deref(), Some("script.sh"));
}

#[test]
fn interactive_mode_is_a_config_error() {
    let config = parse_config_from_args(vec!["rush".to_string()]);
    assert!(config.input_file.is_none());
    let e = match select_source(config) {
        Err(e) => e,
        Ok(_) => panic!("interactive mode is unsupported"),
    };
    assert_eq!(e.kind, ErrorKind::Config);
    assert_eq!(e.message, "interactive mode is not supported");
    assert_eq!(exit_code(Termination::Failed), 1);
}

#[test]
fn console_source_fails_explicitly_every_time() {
    let mut console = ConsoleInputReader;
    for _ in 0..2 {
        let e = match console.read_input() {
            Err(e) => e,
            Ok(_) => panic!("the console source must fail explicitly"),
        };
        assert_eq!(e.kind, ErrorKind::Config);
        assert_eq!(e.message, "interactive input is not supported");
    }
}

#[test]
fn open_failure_error_kind_exists() {
    let config = Config { mode: Mode::BourneAgain, input_file: Some("missing.sh".to_string()) };
    let path = select_source(config).expect("a supplied path is always selected");
    let e = Error::new(ErrorKind::SourceOpen, format!("could not open {}", path));
    assert_eq!(e.kind, ErrorKind::SourceOpen);
    assert!(diagnostic_line(&e).starts_with("rush: "));
}
