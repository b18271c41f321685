use mech_repl::command::{
    clear, command, core_cmd, help, mech_code, parse_repl_command, pause, quit, resume, runtime,
    ReplCommand,
};

#[test]
fn keyword_commands_parse_whole() {
    let cases: Vec<(&str, fn(&ReplCommand) -> bool)> = vec![
        (":quit", |c| matches!(c, ReplCommand::Quit)),
        (":exit", |c| matches!(c, ReplCommand::Quit)),
        (":help", |c| matches!(c, ReplCommand::Help)),
        (":pause", |c| matches!(c, ReplCommand::Pause)),
        (":resume", |c| matches!(c, ReplCommand::Resume)),
        (":core", |c| matches!(c, ReplCommand::PrintCore)),
        (":runtime", |c| matches!(c, ReplCommand::PrintRuntime)),
        (":clear", |c| matches!(c, ReplCommand::Clear)),
    ];
    for (line, expected) in cases {
        let (rest, cmd) = parse_repl_command(line).expect(line);
        assert_eq!(rest, "", "{} left input", line);
        assert!(expected(&cmd), "{} parsed to {:?}", line, cmd);
    }
}

#[test]
fn quit_and_exit_both_quit() {
    let (_, a) = parse_repl_command(":quit").unwrap();
    let (_, b) = parse_repl_command(":exit").unwrap();
    assert!(matches!(a, ReplCommand::Quit));
    assert!(matches!(b, ReplCommand::Quit));
}

#[test]
fn empty_line_is_empty_command() {
    let (rest, cmd) = parse_repl_command("").unwrap();
    assert_eq!(rest, "");
    assert!(matches!(cmd, ReplCommand::Empty));
}

#[test]
fn unknown_colon_command_fails() {
    assert!(parse_repl_command(":bogus").is_err());
    assert!(parse_repl_command(":").is_err());
}

#[test]
fn keyword_match_consumes_only_keyword() {
    let (rest, cmd) = parse_repl_command(":quitfoo").unwrap();
    assert_eq!(rest, "foo");
    assert!(matches!(cmd, ReplCommand::Quit));
}

#[test]
fn source_line_becomes_code() {
    let (rest, cmd) = parse_repl_command("x = 1 + 1").unwrap();
    assert_eq!(rest, "");
    match cmd {
        ReplCommand::Code(s) => assert_eq!(s, "x = 1 + 1"),
        other => panic!("expected code, got {:?}", other),
    }
}

#[test]
fn standalone_keyword_parsers() {
    assert!(matches!(quit("quit"), Ok(("", ReplCommand::Quit))));
    assert!(matches!(quit("exit"), Ok(("", ReplCommand::Quit))));
    assert!(quit("halt").is_err());
    assert!(matches!(help("help"), Ok(("", ReplCommand::Help))));
    assert!(matches!(pause("pause"), Ok(("", ReplCommand::Pause))));
    assert!(matches!(resume("resume"), Ok(("", ReplCommand::Resume))));
    assert!(matches!(core_cmd("core"), Ok(("", ReplCommand::PrintCore))));
    assert!(matches!(runtime("runtime"), Ok(("", ReplCommand::PrintRuntime))));
    assert!(matches!(clear("clear"), Ok(("", ReplCommand::Clear))));
    assert!(clear("wipe").is_err());
    assert!(matches!(command(":pause"), Ok(("", ReplCommand::Pause))));
    assert!(command("pause").is_err());
    assert!(matches!(mech_code(""), Ok(("", ReplCommand::Empty))));
    match mech_code("x = 1") {
        Ok((rest, ReplCommand::Code(s))) => {
            assert_eq!(rest, "");
            assert_eq!(s, "x = 1");
        }
        other => panic!("expected code, got {:?}", other),
    }
}
