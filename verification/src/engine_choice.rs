use vstd::prelude::*;
use vstd::string::StrSliceExecFns;
use vstd::string::StringExecFns;

verus! {

/// The engines that a user can ask for by name.
#[derive(Debug, Clone, Copy, PartialEq, Eq, Structural)]
pub enum EngineChoice {
    Google,
    Vosk,
}

/// A line without the line end that closes it: a carriage return and a line
/// feed, or a line feed alone.
pub open spec fn without_line_end(line: Seq<char>) -> Seq<char> {
    let n = line.len() as int;
    if n >= 2 && line[n - 2] == '\r' && line[n - 1] == '\n' {
        line.subrange(0, n - 2)
    } else if n >= 1 && line[n - 1] == '\n' {
        line.subrange(0, n - 1)
    } else {
        line
    }
}

/// The engine that an answer names, if it names one.
pub open spec fn choice_of(answer: Seq<char>) -> Option<EngineChoice> {
    if answer == "google"@ {
        Some(EngineChoice::Google)
    } else if answer == "vosk"@ {
        Some(EngineChoice::Vosk)
    } else {
        None
    }
}

/// Takes the closing line end off a line that was read from a terminal.
pub fn strip_line_end(line: &str) -> (stripped: &str)
    ensures
        stripped@ == without_line_end(line@),
{
    let n = line.unicode_len();
    if n >= 2 && line.get_char(n - 2) == '\r' && line.get_char(n - 1) == '\n' {
        line.substring_char(0, n - 2)
    } else if n >= 1 && line.get_char(n - 1) == '\n' {
        line.substring_char(0, n - 1)
    } else {
        line
    }
}

/// The engine that an answer names: `google` or `vosk`, written exactly so.
pub fn engine_choice(answer: &str) -> (choice: Option<EngineChoice>)
    ensures
        choice == choice_of(answer@),
{
    let given = answer.to_owned();
    if given == String::from_str("google") {
        Some(EngineChoice::Google)
    } else if given == String::from_str("vosk") {
        Some(EngineChoice::Vosk)
    } else {
        None
    }
}

} // verus!
