use mech_repl::command::ReplCommand;
use mech_repl::protocol::{
    anonymous_wrap, dispatch, interpret_code_parse, repl_step, response_note, to_request,
    CodeAction, LockstepClient, ReplAction, RuntimeRequest, RuntimeResponse,
};

#[test]
fn commands_map_to_identically_named_requests() {
    assert!(matches!(
        to_request(ReplCommand::Table(7)),
        Some(RuntimeRequest::Table(7))
    ));
    assert!(matches!(
        to_request(ReplCommand::Clear),
        Some(RuntimeRequest::Clear)
    ));
    assert!(matches!(
        to_request(ReplCommand::PrintCore),
        Some(RuntimeRequest::PrintCore)
    ));
    assert!(matches!(
        to_request(ReplCommand::PrintRuntime),
        Some(RuntimeRequest::PrintRuntime)
    ));
    assert!(matches!(
        to_request(ReplCommand::Pause),
        Some(RuntimeRequest::Pause)
    ));
    assert!(matches!(
        to_request(ReplCommand::Resume),
        Some(RuntimeRequest::Resume)
    ));
    match to_request(ReplCommand::Code("x = 1".to_string())) {
        Some(RuntimeRequest::Code(s)) => assert_eq!(s, "x = 1"),
        other => panic!("expected code request, got {:?}", other),
    }
}

#[test]
fn local_commands_send_nothing() {
    assert!(to_request(ReplCommand::Help).is_none());
    assert!(to_request(ReplCommand::Quit).is_none());
    assert!(to_request(ReplCommand::Empty).is_none());
    assert!(to_request(ReplCommand::Stop).is_none());
}

#[test]
fn empty_line_sends_no_request() {
    assert!(matches!(repl_step(""), ReplAction::Nothing));
    assert!(to_request(ReplCommand::Empty).is_none());
}

#[test]
fn repl_step_dispatches() {
    assert!(matches!(repl_step(":help"), ReplAction::ShowHelp));
    assert!(matches!(repl_step(":quit"), ReplAction::Quit));
    assert!(matches!(
        repl_step(":pause"),
        ReplAction::Send(RuntimeRequest::Pause)
    ));
    assert!(matches!(repl_step(":bogus"), ReplAction::ReportUnknown));
    match repl_step("x = 1 + 1") {
        ReplAction::TryCode(s) => assert_eq!(s, "x = 1 + 1"),
        other => panic!("expected source fallback, got {:?}", other),
    }
}

#[test]
fn stop_falls_back_to_help() {
    assert!(matches!(dispatch(ReplCommand::Stop), ReplAction::ShowHelp));
}

#[test]
fn source_fallback_order() {
    assert_eq!(interpret_code_parse(true, true), CodeAction::SendVerbatim);
    assert_eq!(interpret_code_parse(true, false), CodeAction::SendVerbatim);
    assert_eq!(interpret_code_parse(false, true), CodeAction::SendWrapped);
    assert_eq!(interpret_code_parse(false, false), CodeAction::SyntaxError);
}

#[test]
fn anonymous_assignment_wrap() {
    assert_eq!(anonymous_wrap("1 + 1"), "#ans = 1 + 1");
}

#[test]
fn compiled_block_count_renders() {
    let note = response_note("Mech REPL", &RuntimeResponse::NewBlocksCompiled(2)).unwrap();
    assert_eq!(note, "Compiled 2 blocks.");
    let note = response_note("Mech REPL", &RuntimeResponse::NewBlocksCompiled(0)).unwrap();
    assert_eq!(note, "Compiled 0 blocks.");
}

#[test]
fn state_change_notes_carry_client_name() {
    let note = response_note("Mech REPL", &RuntimeResponse::Pause).unwrap();
    assert_eq!(note, "[Mech REPL] Paused");
    let note = response_note("Mech REPL", &RuntimeResponse::Resume).unwrap();
    assert_eq!(note, "[Mech REPL] Resumed");
    let note = response_note("Mech REPL", &RuntimeResponse::Clear).unwrap();
    assert_eq!(note, "[Mech REPL] Cleared");
    assert!(response_note("Mech REPL", &RuntimeResponse::Table(None)).is_none());
}

#[test]
fn lockstep_alternates_send_and_receive() {
    let mut client = LockstepClient::new();
    assert!(client.is_idle());
    client.record_send();
    assert!(!client.is_idle());
    client.record_receive();
    assert!(client.is_idle());
    assert_eq!(client.sent, 1);
    assert_eq!(client.received, 1);
}
