//! The command grammar: turns one trimmed line of input into a tagged
//! command, or a unit of program source, or a parse failure.
//!
//! A line beginning with the control character `:` is matched against a
//! fixed ordered list of keywords; the first match wins and the matched
//! keyword is consumed.  A colon line matching no keyword fails to parse.
//! An empty line is the no-op command; any other line is a unit of program
//! source, to be tried against the engine's own parser.

use vstd::prelude::*;

verus! {

/// One parsed line of terminal input.
#[derive(Debug, Clone)]
pub enum ReplCommand {
    Help,
    Quit,
    Pause,
    Resume,
    Stop,
    PrintCore,
    PrintRuntime,
    Clear,
    Table(u64),
    Code(String),
    Empty,
}

/// A line that the grammar rejects: the control character followed by no
/// recognized keyword.
#[derive(Debug, Clone, PartialEq, Eq, Structural)]
pub struct ParseFailure;

/// The result of matching the keyword table against the text after the
/// control character: the unconsumed remainder and the command, or nothing.
/// The keywords are tried in a fixed order and the first match wins.
pub open spec fn spec_keyword(t: Seq<char>) -> Option<(Seq<char>, ReplCommand)> {
    if "quit"@.is_prefix_of(t) {
        Some((t.skip("quit"@.len() as int), ReplCommand::Quit))
    } else if "exit"@.is_prefix_of(t) {
        Some((t.skip("exit"@.len() as int), ReplCommand::Quit))
    } else if "help"@.is_prefix_of(t) {
        Some((t.skip("help"@.len() as int), ReplCommand::Help))
    } else if "pause"@.is_prefix_of(t) {
        Some((t.skip("pause"@.len() as int), ReplCommand::Pause))
    } else if "resume"@.is_prefix_of(t) {
        Some((t.skip("resume"@.len() as int), ReplCommand::Resume))
    } else if "core"@.is_prefix_of(t) {
        Some((t.skip("core"@.len() as int), ReplCommand::PrintCore))
    } else if "runtime"@.is_prefix_of(t) {
        Some((t.skip("runtime"@.len() as int), ReplCommand::PrintRuntime))
    } else if "clear"@.is_prefix_of(t) {
        Some((t.skip("clear"@.len() as int), ReplCommand::Clear))
    } else {
        None
    }
}

/// What a whole line parses to when it is a built-in command: the line must
/// begin with the control character and the remainder must match a keyword.
pub open spec fn spec_command(s: Seq<char>) -> Option<(Seq<char>, ReplCommand)> {
    if ":"@.is_prefix_of(s) {
        spec_keyword(s.skip(":"@.len() as int))
    } else {
        None
    }
}

/// True when the line is neither empty nor a colon line, so the grammar
/// hands it on as program source.
pub open spec fn spec_is_source_line(s: Seq<char>) -> bool {
    s.len() > 0 && !":"@.is_prefix_of(s)
}

/// Consumes `kw` from the front of `input` when it is a prefix, handing
/// back the remainder.
fn match_keyword<'a>(input: &'a str, kw: &str) -> (r: Option<&'a str>)
    ensures
        kw@.is_prefix_of(input@) ==> (r matches Some(rest) && rest@ == input@.skip(
            kw@.len() as int,
        )),
        !kw@.is_prefix_of(input@) ==> r is None,
{
    let kl = kw.unicode_len();
    let il = input.unicode_len();
    if il < kl {
        return None;
    }
    let mut i: usize = 0;
    while i < kl
        invariant
            i <= kl,
            kl == kw@.len(),
            il == input@.len(),
            kl <= il,
            forall|j: int| 0 <= j < i ==> input@[j] == kw@[j],
        decreases kl - i,
    {
        if input.get_char(i) != kw.get_char(i) {
            proof {
                assert(input@[i as int] != kw@[i as int]);
                assert(!kw@.is_prefix_of(input@));
            }
            return None;
        }
        i = i + 1;
    }
    proof {
        assert(kw@ =~= input@.subrange(0, kl as int));
    }
    Some(input.substring_char(kl, il))
}

/// Recognizes the `quit` or `exit` keyword; either quits the session.
pub fn quit(input: &str) -> (r: Result<(&str, ReplCommand), ParseFailure>)
    ensures
        "quit"@.is_prefix_of(input@) ==> (r matches Ok(p) && p.0@ == input@.skip(
            "quit"@.len() as int,
        ) && p.1 is Quit),
        !"quit"@.is_prefix_of(input@) && "exit"@.is_prefix_of(input@) ==> (r matches Ok(p)
            && p.0@ == input@.skip("exit"@.len() as int) && p.1 is Quit),
        !"quit"@.is_prefix_of(input@) && !"exit"@.is_prefix_of(input@) ==> r is Err,
{
    if let Some(rest) = match_keyword(input, "quit") {
        Ok((rest, ReplCommand::Quit))
    } else if let Some(rest) = match_keyword(input, "exit") {
        Ok((rest, ReplCommand::Quit))
    } else {
        Err(ParseFailure)
    }
}

/// Recognizes the `help` keyword.
pub fn help(input: &str) -> (r: Result<(&str, ReplCommand), ParseFailure>)
    ensures
        "help"@.is_prefix_of(input@) ==> (r matches Ok(p) && p.0@ == input@.skip(
            "help"@.len() as int,
        ) && p.1 is Help),
        !"help"@.is_prefix_of(input@) ==> r is Err,
{
    match match_keyword(input, "help") {
        Some(rest) => Ok((rest, ReplCommand::Help)),
        None => Err(ParseFailure),
    }
}

/// Recognizes the `pause` keyword.
pub fn pause(input: &str) -> (r: Result<(&str, ReplCommand), ParseFailure>)
    ensures
        "pause"@.is_prefix_of(input@) ==> (r matches Ok(p) && p.0@ == input@.skip(
            "pause"@.len() as int,
        ) && p.1 is Pause),
        !"pause"@.is_prefix_of(input@) ==> r is Err,
{
    match match_keyword(input, "pause") {
        Some(rest) => Ok((rest, ReplCommand::Pause)),
        None => Err(ParseFailure),
    }
}

/// Recognizes the `resume` keyword.
pub fn resume(input: &str) -> (r: Result<(&str, ReplCommand), ParseFailure>)
    ensures
        "resume"@.is_prefix_of(input@) ==> (r matches Ok(p) && p.0@ == input@.skip(
            "resume"@.len() as int,
        ) && p.1 is Resume),
        !"resume"@.is_prefix_of(input@) ==> r is Err,
{
    match match_keyword(input, "resume") {
        Some(rest) => Ok((rest, ReplCommand::Resume)),
        None => Err(ParseFailure),
    }
}

/// Recognizes the `core` keyword, which asks for a report on the engine
/// core.
pub fn core_cmd(input: &str) -> (r: Result<(&str, ReplCommand), ParseFailure>)
    ensures
        "core"@.is_prefix_of(input@) ==> (r matches Ok(p) && p.0@ == input@.skip(
            "core"@.len() as int,
        ) && p.1 is PrintCore),
        !"core"@.is_prefix_of(input@) ==> r is Err,
{
    match match_keyword(input, "core") {
        Some(rest) => Ok((rest, ReplCommand::PrintCore)),
        None => Err(ParseFailure),
    }
}

/// Recognizes the `runtime` keyword, which asks for a report on the
/// engine's runtime.
pub fn runtime(input: &str) -> (r: Result<(&str, ReplCommand), ParseFailure>)
    ensures
        "runtime"@.is_prefix_of(input@) ==> (r matches Ok(p) && p.0@ == input@.skip(
            "runtime"@.len() as int,
        ) && p.1 is PrintRuntime),
        !"runtime"@.is_prefix_of(input@) ==> r is Err,
{
    match match_keyword(input, "runtime") {
        Some(rest) => Ok((rest, ReplCommand::PrintRuntime)),
        None => Err(ParseFailure),
    }
}

/// Recognizes the `clear` keyword.
pub fn clear(input: &str) -> (r: Result<(&str, ReplCommand), ParseFailure>)
    ensures
        "clear"@.is_prefix_of(input@) ==> (r matches Ok(p) && p.0@ == input@.skip(
            "clear"@.len() as int,
        ) && p.1 is Clear),
        !"clear"@.is_prefix_of(input@) ==> r is Err,
{
    match match_keyword(input, "clear") {
        Some(rest) => Ok((rest, ReplCommand::Clear)),
        None => Err(ParseFailure),
    }
}

/// Recognizes a whole built-in command: the control character followed by
/// one keyword from the fixed ordered list.
pub fn command(input: &str) -> (r: Result<(&str, ReplCommand), ParseFailure>)
    ensures
        spec_command(input@) matches Some(p) ==> (r matches Ok(q) && q.0@ == p.0 && q.1 == p.1),
        spec_command(input@) is None ==> r is Err,
{
    let rest = match match_keyword(input, ":") {
        Some(rest) => rest,
        None => {
            return Err(ParseFailure);
        },
    };
    if let Some(r2) = match_keyword(rest, "quit") {
        Ok((r2, ReplCommand::Quit))
    } else if let Some(r2) = match_keyword(rest, "exit") {
        Ok((r2, ReplCommand::Quit))
    } else if let Some(r2) = match_keyword(rest, "help") {
        Ok((r2, ReplCommand::Help))
    } else if let Some(r2) = match_keyword(rest, "pause") {
        Ok((r2, ReplCommand::Pause))
    } else if let Some(r2) = match_keyword(rest, "resume") {
        Ok((r2, ReplCommand::Resume))
    } else if let Some(r2) = match_keyword(rest, "core") {
        Ok((r2, ReplCommand::PrintCore))
    } else if let Some(r2) = match_keyword(rest, "runtime") {
        Ok((r2, ReplCommand::PrintRuntime))
    } else if let Some(r2) = match_keyword(rest, "clear") {
        Ok((r2, ReplCommand::Clear))
    } else {
        Err(ParseFailure)
    }
}

/// The fallback for a line that is not a built-in command: an empty line is
/// the no-op command, anything else is a unit of program source.  Always
/// succeeds and consumes the whole line.
pub fn mech_code(input: &str) -> (r: Result<(&str, ReplCommand), ParseFailure>)
    ensures
        input@.len() == 0 ==> (r matches Ok(p) && p.0@ == input@ && p.1 is Empty),
        input@.len() > 0 ==> (r matches Ok(p) && p.0@.len() == 0 && (p.1 matches ReplCommand::Code(
            s,
        ) && s@ == input@)),
{
    if input.is_empty() {
        Ok((input, ReplCommand::Empty))
    } else {
        let l = input.unicode_len();
        let rest = input.substring_char(l, l);
        proof {
            assert(rest@ =~= Seq::<char>::empty());
        }
        Ok((rest, ReplCommand::Code(input.to_owned())))
    }
}

/// Parses one trimmed line.  A colon line is matched against the keyword
/// table and fails when no keyword matches; an empty line is the no-op
/// command; any other line is handed on as program source.
pub fn parse_repl_command(input: &str) -> (r: Result<(&str, ReplCommand), ParseFailure>)
    ensures
        spec_command(input@) matches Some(p) ==> (r matches Ok(q) && q.0@ == p.0 && q.1 == p.1),
        ":"@.is_prefix_of(input@) && spec_command(input@) is None ==> r is Err,
        !":"@.is_prefix_of(input@) && input@.len() == 0 ==> (r matches Ok(p) && p.1 is Empty),
        spec_is_source_line(input@) ==> (r matches Ok(p) && p.0@.len() == 0 && (
        p.1 matches ReplCommand::Code(s) && s@ == input@)),
{
    if match_keyword(input, ":").is_some() {
        command(input)
    } else {
        mech_code(input)
    }
}

/// A sequence with an index differing from `b` at a position inside both
/// is not a prefix of `b`.
proof fn lemma_not_prefix(a: Seq<char>, b: Seq<char>, i: int)
    requires
        0 <= i < a.len(),
        i < b.len(),
        a[i] != b[i],
    ensures
        !a.is_prefix_of(b),
{
    if a.is_prefix_of(b) {
        assert(a[i] == b.subrange(0, a.len() as int)[i]);
    }
}

/// Each recognized keyword, written with the control character, parses to
/// its command and consumes the entire input; in particular `quit` and
/// `exit` both quit.
pub proof fn lemma_keyword_commands()
    ensures
        spec_command(":quit"@) matches Some(p) && p.0.len() == 0 && p.1 is Quit,
        spec_command(":exit"@) matches Some(p) && p.0.len() == 0 && p.1 is Quit,
        spec_command(":help"@) matches Some(p) && p.0.len() == 0 && p.1 is Help,
        spec_command(":pause"@) matches Some(p) && p.0.len() == 0 && p.1 is Pause,
        spec_command(":resume"@) matches Some(p) && p.0.len() == 0 && p.1 is Resume,
        spec_command(":core"@) matches Some(p) && p.0.len() == 0 && p.1 is PrintCore,
        spec_command(":runtime"@) matches Some(p) && p.0.len() == 0 && p.1 is PrintRuntime,
        spec_command(":clear"@) matches Some(p) && p.0.len() == 0 && p.1 is Clear,
{
    reveal_strlit(":");
    reveal_strlit("quit");
    reveal_strlit("exit");
    reveal_strlit("help");
    reveal_strlit("pause");
    reveal_strlit("resume");
    reveal_strlit("core");
    reveal_strlit("runtime");
    reveal_strlit("clear");
    reveal_strlit(":quit");
    reveal_strlit(":exit");
    reveal_strlit(":help");
    reveal_strlit(":pause");
    reveal_strlit(":resume");
    reveal_strlit(":core");
    reveal_strlit(":runtime");
    reveal_strlit(":clear");
    let quit_t = ":quit"@.skip(1);
    assert(":"@.is_prefix_of(":quit"@));
    assert("quit"@.is_prefix_of(quit_t));
    let exit_t = ":exit"@.skip(1);
    assert(":"@.is_prefix_of(":exit"@));
    lemma_not_prefix("quit"@, exit_t, 0);
    assert("exit"@.is_prefix_of(exit_t));
    let help_t = ":help"@.skip(1);
    assert(":"@.is_prefix_of(":help"@));
    lemma_not_prefix("quit"@, help_t, 0);
    lemma_not_prefix("exit"@, help_t, 0);
    assert("help"@.is_prefix_of(help_t));
    let pause_t = ":pause"@.skip(1);
    assert(":"@.is_prefix_of(":pause"@));
    lemma_not_prefix("quit"@, pause_t, 0);
    lemma_not_prefix("exit"@, pause_t, 0);
    lemma_not_prefix("help"@, pause_t, 0);
    assert("pause"@.is_prefix_of(pause_t));
    let resume_t = ":resume"@.skip(1);
    assert(":"@.is_prefix_of(":resume"@));
    lemma_not_prefix("quit"@, resume_t, 0);
    lemma_not_prefix("exit"@, resume_t, 0);
    lemma_not_prefix("help"@, resume_t, 0);
    lemma_not_prefix("pause"@, resume_t, 0);
    assert("resume"@.is_prefix_of(resume_t));
    let core_t = ":core"@.skip(1);
    assert(":"@.is_prefix_of(":core"@));
    lemma_not_prefix("quit"@, core_t, 0);
    lemma_not_prefix("exit"@, core_t, 0);
    lemma_not_prefix("help"@, core_t, 0);
    assert("core"@.is_prefix_of(core_t));
    let runtime_t = ":runtime"@.skip(1);
    assert(":"@.is_prefix_of(":runtime"@));
    lemma_not_prefix("quit"@, runtime_t, 0);
    lemma_not_prefix("exit"@, runtime_t, 0);
    lemma_not_prefix("help"@, runtime_t, 0);
    lemma_not_prefix("pause"@, runtime_t, 0);
    lemma_not_prefix("resume"@, runtime_t, 1);
    lemma_not_prefix("core"@, runtime_t, 0);
    assert("runtime"@.is_prefix_of(runtime_t));
    let clear_t = ":clear"@.skip(1);
    assert(":"@.is_prefix_of(":clear"@));
    lemma_not_prefix("quit"@, clear_t, 0);
    lemma_not_prefix("exit"@, clear_t, 0);
    lemma_not_prefix("help"@, clear_t, 0);
    lemma_not_prefix("pause"@, clear_t, 0);
    lemma_not_prefix("core"@, clear_t, 1);
    assert("clear"@.is_prefix_of(clear_t));
}

} // verus!
