use vstd::prelude::*;
use vstd::string::*;
use crate::text::{same_text, trim, trimmed};

verus! {

/// What one line typed at the confirmation prompt asks for.
#[derive(Clone, Copy, Debug, PartialEq, Eq, Structural)]
pub enum InteractionChoice {
    Execute,
    Explain,
    Quit,
    Invalid,
}

/// Where the confirmation loop reads a line from.
#[derive(Clone, Copy, Debug, PartialEq, Eq, Structural)]
pub enum InputSource {
    /// The controlling terminal, since standard input was taken by a pipe.
    Terminal,
    Stdin,
}

/// The choice that a typed line makes. A blank line executes; anything that is not a
/// known answer is invalid.
pub open spec fn choice_of(line: Seq<char>) -> InteractionChoice {
    let t = trimmed(line);
    if t.len() == 0 || t == "e"@ || t == "E"@ || t == "exec"@ || t == "EXEC"@ {
        InteractionChoice::Execute
    } else if t == "d"@ || t == "D"@ {
        InteractionChoice::Explain
    } else if t == "q"@ || t == "Q"@ || t == "quit"@ || t == "QUIT"@ {
        InteractionChoice::Quit
    } else {
        InteractionChoice::Invalid
    }
}

/// Reads the choice that one line typed at the prompt makes.
pub fn parse_choice(line: &str) -> (r: InteractionChoice)
    ensures
        r == choice_of(line@),
{
    let t = trim(line);
    if t.unicode_len() == 0 || same_text(t, "e") || same_text(t, "E") || same_text(t, "exec")
        || same_text(t, "EXEC") {
        InteractionChoice::Execute
    } else if same_text(t, "d") || same_text(t, "D") {
        InteractionChoice::Explain
    } else if same_text(t, "q") || same_text(t, "Q") || same_text(t, "quit") || same_text(
        t,
        "QUIT",
    ) {
        InteractionChoice::Quit
    } else {
        InteractionChoice::Invalid
    }
}

impl InteractionChoice {
    pub open spec fn ends_loop_spec(&self) -> bool {
        !(*self is Explain)
    }

    /// Whether the loop stops after this choice: all but an explanation end it, an
    /// invalid answer included.
    pub fn ends_loop(&self) -> (r: bool)
        ensures
            r == self.ends_loop_spec(),
    {
        !matches!(self, InteractionChoice::Explain)
    }

    /// Whether the generated command is run.
    pub fn runs_command(&self) -> (r: bool)
        ensures
            r == (*self is Execute),
    {
        matches!(self, InteractionChoice::Execute)
    }
}

/// The source of the next answer: the terminal device where piped input took standard
/// input, else standard input.
pub fn choice_source(has_piped_input: bool) -> (r: InputSource)
    ensures
        r == (if has_piped_input {
            InputSource::Terminal
        } else {
            InputSource::Stdin
        }),
{
    if has_piped_input {
        InputSource::Terminal
    } else {
        InputSource::Stdin
    }
}

/// The question asked before each answer is read.
pub fn confirm_prompt() -> (r: &'static str)
    ensures
        r@ == "执行命令? [回车/e-执行/d-解释/q-退出]: "@,
{
    "执行命令? [回车/e-执行/d-解释/q-退出]: "
}

/// A blank line answers as `e` does: it runs the command.
pub proof fn blank_line_executes(line: Seq<char>)
    requires
        trimmed(line).len() == 0,
    ensures
        choice_of(line) == choice_of("e"@),
        choice_of(line) == InteractionChoice::Execute,
{
    reveal_strlit("e");
    let e = "e"@;
    assert(e.len() == 1 && !crate::text::is_space(e[0]));
    assert(crate::text::trim_start(e) == e);
    assert(crate::text::trim_end(e) == e);
}

/// Only `d` or `D` asks again; every other answer, an unknown one included, ends the
/// loop.
pub proof fn only_explain_asks_again(line: Seq<char>)
    ensures
        !choice_of(line).ends_loop_spec() <==> (trimmed(line) == "d"@ || trimmed(line) == "D"@),
{
    reveal_strlit("d");
    reveal_strlit("D");
    reveal_strlit("e");
    reveal_strlit("E");
    reveal_strlit("exec");
    reveal_strlit("EXEC");
    let t = trimmed(line);
    if t == "d"@ || t == "D"@ {
        assert(t[0] != "e"@[0] && t[0] != "E"@[0]);
        assert(t.len() != "exec"@.len() && t.len() != "EXEC"@.len());
    }
}

} // verus!
