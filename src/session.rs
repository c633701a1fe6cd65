use vstd::prelude::*;
use vstd::string::*;
use crate::text::{join, joined, trim, trimmed};

verus! {

#[derive(Clone, Copy, Debug, PartialEq, Eq, Structural)]
pub enum Mode {
    /// Answer a question, streamed.
    Chat,
    /// Generate a command and offer to run it.
    Command,
}

#[derive(Clone, Copy, Debug, PartialEq, Eq, Structural)]
pub enum SessionError {
    /// Neither a description nor piped input was given.
    NoInput,
    /// The endpoint returned no command.
    EmptyCommand,
}

/// What one run of the tool works on.
pub struct Invocation {
    pub mode: Mode,
    pub description: String,
    pub stdin_content: Option<String>,
}

/// Piped input counts only where it holds more than white space.
pub open spec fn piped_text(buffer: Option<String>) -> Option<Seq<char>> {
    match buffer {
        Some(b) => if trimmed(b@).len() > 0 {
            Some(b@)
        } else {
            None
        },
        None => None,
    }
}

/// The description: the positional arguments joined by single spaces.
pub fn join_description(args: &Vec<String>) -> (r: String)
    ensures
        r@ == joined(args.deep_view(), " "@),
{
    join(args, " ")
}

/// The piped input, kept as it was read, or `None` where it is blank.
pub fn normalize_piped(buffer: Option<String>) -> (r: Option<String>)
    ensures
        match r {
            Some(s) => piped_text(buffer) == Some(s@),
            None => piped_text(buffer) is None,
        },
{
    match buffer {
        Some(b) => {
            let blank = trim(b.as_str()).unicode_len() == 0;
            if blank {
                None
            } else {
                Some(b)
            }
        },
        None => None,
    }
}

/// Decides what the run works on, from the chat flag, the positional arguments and what
/// was read from a pipe (`None` where standard input is a terminal). Fails where there is
/// neither a description nor piped input.
pub fn plan_invocation(chat_mode: bool, args: &Vec<String>, piped: Option<String>) -> (r: Result<
    Invocation,
    SessionError,
>)
    ensures
        r is Err <==> joined(args.deep_view(), " "@).len() == 0 && piped_text(piped) is None,
        r matches Err(e) ==> e == SessionError::NoInput,
        r matches Ok(inv) ==> inv.description@ == joined(args.deep_view(), " "@) && inv.mode == (
        if chat_mode {
            Mode::Chat
        } else {
            Mode::Command
        }) && match inv.stdin_content {
            Some(s) => piped_text(piped) == Some(s@),
            None => piped_text(piped) is None,
        },
{
    let description = join_description(args);
    let stdin_content = normalize_piped(piped);
    if description.as_str().unicode_len() == 0 && stdin_content.is_none() {
        return Err(SessionError::NoInput);
    }
    let mode = if chat_mode {
        Mode::Chat
    } else {
        Mode::Command
    };
    Ok(Invocation { mode, description, stdin_content })
}

/// The generated command, unless it is empty.
pub fn check_generated_command(command: String) -> (r: Result<String, SessionError>)
    ensures
        r is Err <==> command@.len() == 0,
        r matches Err(e) ==> e == SessionError::EmptyCommand,
        r matches Ok(c) ==> c@ == command@,
{
    if command.as_str().unicode_len() == 0 {
        Err(SessionError::EmptyCommand)
    } else {
        Ok(command)
    }
}

} // verus!
