//! The request/response protocol spoken with the engine's run loop, and
//! the decisions the interactive loop takes for each parsed line.
//!
//! The exchange is lockstep: one request is enqueued, then exactly one
//! response is waited for before the next line is read.  The library
//! decides what to send and what each response means; enqueueing,
//! blocking, and the engine itself stay outside.

use vstd::prelude::*;
use crate::command::{
    ReplCommand,
    parse_repl_command,
    spec_command,
    spec_is_source_line,
};
use crate::text::{spec_digits, append_u64};

verus! {

/// One message sent to the engine's run loop.
#[derive(Debug, Clone)]
pub enum RuntimeRequest {
    Table(u64),
    Clear,
    PrintCore,
    PrintRuntime,
    Pause,
    Resume,
    Code(String),
}

/// One message received back from the engine's run loop.  Exactly one
/// arrives per request, in send order.
#[derive(Debug, Clone)]
pub enum RuntimeResponse {
    Table(Option<crate::table::Table>),
    Pause,
    Resume,
    Clear,
    NewBlocksCompiled(u64),
}

/// The request a command maps to.  Help and Quit are handled locally, an
/// empty line sends nothing, and the stop command has no request; every
/// other command maps to the identically named request.
pub open spec fn spec_to_request(c: ReplCommand) -> Option<RuntimeRequest> {
    match c {
        ReplCommand::Table(id) => Some(RuntimeRequest::Table(id)),
        ReplCommand::Clear => Some(RuntimeRequest::Clear),
        ReplCommand::PrintCore => Some(RuntimeRequest::PrintCore),
        ReplCommand::PrintRuntime => Some(RuntimeRequest::PrintRuntime),
        ReplCommand::Pause => Some(RuntimeRequest::Pause),
        ReplCommand::Resume => Some(RuntimeRequest::Resume),
        ReplCommand::Code(s) => Some(RuntimeRequest::Code(s)),
        ReplCommand::Help => None,
        ReplCommand::Quit => None,
        ReplCommand::Stop => None,
        ReplCommand::Empty => None,
    }
}

/// Maps a command to the request it sends, if any.
pub fn to_request(c: ReplCommand) -> (r: Option<RuntimeRequest>)
    ensures
        r == spec_to_request(c),
{
    match c {
        ReplCommand::Table(id) => Some(RuntimeRequest::Table(id)),
        ReplCommand::Clear => Some(RuntimeRequest::Clear),
        ReplCommand::PrintCore => Some(RuntimeRequest::PrintCore),
        ReplCommand::PrintRuntime => Some(RuntimeRequest::PrintRuntime),
        ReplCommand::Pause => Some(RuntimeRequest::Pause),
        ReplCommand::Resume => Some(RuntimeRequest::Resume),
        ReplCommand::Code(s) => Some(RuntimeRequest::Code(s)),
        ReplCommand::Help => None,
        ReplCommand::Quit => None,
        ReplCommand::Stop => None,
        ReplCommand::Empty => None,
    }
}

/// What the interactive loop does with one line of input.
#[derive(Debug)]
pub enum ReplAction {
    /// Nothing: the line was empty.
    Nothing,
    /// Print the help text locally.
    ShowHelp,
    /// Leave the interactive loop.
    Quit,
    /// Send one request and wait for its response.
    Send(RuntimeRequest),
    /// Hand the line to the engine's own parser as program source.
    TryCode(String),
    /// Report an unrecognized built-in command.
    ReportUnknown,
}

/// The action one command dispatches to.  Help is printed locally, quit
/// leaves the loop, the no-op command does nothing, a unit of source goes
/// to the engine's parser, and the stop command, like any command with no
/// request, falls back to the help text.
pub open spec fn spec_dispatch(c: ReplCommand) -> ReplAction {
    match c {
        ReplCommand::Help => ReplAction::ShowHelp,
        ReplCommand::Quit => ReplAction::Quit,
        ReplCommand::Empty => ReplAction::Nothing,
        ReplCommand::Code(s) => ReplAction::TryCode(s),
        _ => match spec_to_request(c) {
            Some(q) => ReplAction::Send(q),
            None => ReplAction::ShowHelp,
        },
    }
}

/// Dispatches one parsed command.
pub fn dispatch(c: ReplCommand) -> (a: ReplAction)
    ensures
        a == spec_dispatch(c),
{
    match c {
        ReplCommand::Help => ReplAction::ShowHelp,
        ReplCommand::Quit => ReplAction::Quit,
        ReplCommand::Empty => ReplAction::Nothing,
        ReplCommand::Code(s) => ReplAction::TryCode(s),
        other => match to_request(other) {
            Some(q) => ReplAction::Send(q),
            None => ReplAction::ShowHelp,
        },
    }
}

/// Parses one trimmed line and decides what the loop does with it: a
/// built-in command dispatches to its action, an unrecognized built-in is
/// reported, an empty line does nothing, and anything else goes to the
/// engine's parser as source.
pub fn repl_step(line: &str) -> (a: ReplAction)
    ensures
        spec_command(line@) matches Some(p) ==> a == spec_dispatch(p.1),
        ":"@.is_prefix_of(line@) && spec_command(line@) is None ==> a is ReportUnknown,
        !":"@.is_prefix_of(line@) && line@.len() == 0 ==> a is Nothing,
        spec_is_source_line(line@) ==> (a matches ReplAction::TryCode(s) && s@ == line@),
{
    match parse_repl_command(line) {
        Ok((_, c)) => dispatch(c),
        Err(_) => ReplAction::ReportUnknown,
    }
}

/// A parse failure on a colon line never sends anything: the grammar
/// yields no command for it; and the no-op command of an empty line maps
/// to no request either.
pub proof fn lemma_empty_line_sends_nothing()
    ensures
        spec_command(Seq::<char>::empty()) is None,
        spec_to_request(ReplCommand::Empty) is None,
        spec_dispatch(ReplCommand::Empty) is Nothing,
{
    reveal_strlit(":");
    assert(!":"@.is_prefix_of(Seq::<char>::empty()));
}

/// The text used to retry a line as an anonymous assignment: the line
/// prefixed with a synthetic destination.
pub open spec fn spec_anonymous_wrap(line: Seq<char>) -> Seq<char> {
    "#ans = "@ + line
}

/// Wraps a line as an anonymous assignment for the engine's second parse
/// attempt.
pub fn anonymous_wrap(line: &str) -> (r: String)
    ensures
        r@ == spec_anonymous_wrap(line@),
{
    let mut out = String::from_str("#ans = ");
    out.append(line);
    out
}

/// The outcome of the two-stage source fallback.
#[derive(Debug, PartialEq, Eq, Structural)]
pub enum CodeAction {
    /// The line parsed whole: send it verbatim.
    SendVerbatim,
    /// Only the anonymous-assignment form parsed whole: send that form.
    SendWrapped,
    /// Neither attempt consumed the whole line: report a syntax error and
    /// send nothing.
    SyntaxError,
}

/// Decides the source fallback from the engine parser's two verdicts: the
/// attempts stand in a fixed order and the first that consumed the whole
/// line wins.
pub fn interpret_code_parse(verbatim_consumed: bool, wrapped_consumed: bool) -> (a: CodeAction)
    ensures
        verbatim_consumed ==> a is SendVerbatim,
        !verbatim_consumed && wrapped_consumed ==> a is SendWrapped,
        !verbatim_consumed && !wrapped_consumed ==> a is SyntaxError,
{
    if verbatim_consumed {
        CodeAction::SendVerbatim
    } else if wrapped_consumed {
        CodeAction::SendWrapped
    } else {
        CodeAction::SyntaxError
    }
}

/// The line printed for a response, if the response prints one: the
/// client's name in brackets for the state changes, or the count of newly
/// compiled blocks.  A table response prints no line here; its table is
/// rendered instead.
pub open spec fn spec_response_note(name: Seq<char>, resp: RuntimeResponse) -> Option<Seq<char>> {
    match resp {
        RuntimeResponse::Pause => Some("["@ + name + "] Paused"@),
        RuntimeResponse::Resume => Some("["@ + name + "] Resumed"@),
        RuntimeResponse::Clear => Some("["@ + name + "] Cleared"@),
        RuntimeResponse::NewBlocksCompiled(n) => Some(
            "Compiled "@ + spec_digits(n as nat) + " blocks."@,
        ),
        RuntimeResponse::Table(_) => None,
    }
}

/// Builds the line a response prints, if any.
pub fn response_note(name: &str, resp: &RuntimeResponse) -> (r: Option<String>)
    ensures
        match spec_response_note(name@, *resp) {
            Some(text) => r matches Some(s) && s@ == text,
            None => r is None,
        },
{
    match resp {
        RuntimeResponse::Pause => {
            let mut out = String::from_str("[");
            out.append(name);
            out.append("] Paused");
            Some(out)
        },
        RuntimeResponse::Resume => {
            let mut out = String::from_str("[");
            out.append(name);
            out.append("] Resumed");
            Some(out)
        },
        RuntimeResponse::Clear => {
            let mut out = String::from_str("[");
            out.append(name);
            out.append("] Cleared");
            Some(out)
        },
        RuntimeResponse::NewBlocksCompiled(n) => {
            let mut out = String::from_str("Compiled ");
            append_u64(&mut out, *n);
            out.append(" blocks.");
            Some(out)
        },
        RuntimeResponse::Table(_) => None,
    }
}

/// The client's side of the lockstep exchange: at most one request is
/// outstanding, and each request is answered before the next is sent.
/// The loop that owns the channels threads this record through its
/// iterations; the record's counters witness the discipline.
pub struct LockstepClient {
    /// Requests sent so far.
    pub sent: u64,
    /// Responses received so far.
    pub received: u64,
}

impl LockstepClient {
    /// Every response answers an earlier request, and at most one request
    /// is unanswered.
    pub open spec fn wf(&self) -> bool {
        self.received <= self.sent <= self.received + 1
    }

    /// No request is waiting for its response.
    pub open spec fn idle(&self) -> bool {
        self.sent == self.received
    }

    /// Starts a session with nothing in flight.
    pub fn new() -> (c: LockstepClient)
        ensures
            c.wf(),
            c.idle(),
            c.sent == 0,
    {
        LockstepClient { sent: 0, received: 0 }
    }

    /// Records that one request was enqueued.  Only an idle client may
    /// send: the discipline allows no second outstanding request.
    pub fn record_send(&mut self)
        requires
            old(self).wf(),
            old(self).idle(),
            old(self).sent < u64::MAX,
        ensures
            final(self).wf(),
            !final(self).idle(),
            final(self).sent == old(self).sent + 1,
            final(self).received == old(self).received,
    {
        self.sent = self.sent + 1;
    }

    /// Records that the one outstanding response arrived, making the
    /// client idle again.
    pub fn record_receive(&mut self)
        requires
            old(self).wf(),
            !old(self).idle(),
        ensures
            final(self).wf(),
            final(self).idle(),
            final(self).received == old(self).received + 1,
            final(self).sent == old(self).sent,
    {
        self.received = self.received + 1;
    }

    /// Whether a request is outstanding, for the loop that owns the
    /// channels.
    pub fn is_idle(&self) -> (b: bool)
        ensures
            b == self.idle(),
    {
        self.sent == self.received
    }
}

} // verus!
