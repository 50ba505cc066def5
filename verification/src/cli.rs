//! The command line: what an invocation asks for, and what is said of how
//! the tool is used.

use vstd::prelude::*;
use vstd::string::StringExecFns;

verus! {

/// What an invocation asks for.
#[derive(Clone, Debug, PartialEq, Eq)]
pub enum Invocation {
    /// Nothing: no argument was given, and the description is shown.
    Usage,
    /// A run over the tracks under `directory`, the one argument given.
    Run { directory: String },
    /// Nothing that can be done: more than one argument was given, or the
    /// command line does not even hold the name the tool was called by.
    TooMany,
}

pub ghost enum InvocationView {
    Usage,
    Run { directory: Seq<char> },
    TooMany,
}

impl View for Invocation {
    type V = InvocationView;

    open spec fn view(&self) -> InvocationView {
        match self {
            Invocation::Usage => InvocationView::Usage,
            Invocation::Run { directory } => InvocationView::Run { directory: directory@ },
            Invocation::TooMany => InvocationView::TooMany,
        }
    }
}

/// What the words of a command line ask for. The first word is the name the
/// tool was called by; the arguments follow it.
pub open spec fn invocation_of(words: Seq<Seq<char>>) -> InvocationView {
    if words.len() == 1 {
        InvocationView::Usage
    } else if words.len() == 2 {
        InvocationView::Run { directory: words[1] }
    } else {
        InvocationView::TooMany
    }
}

/// The description of the tool.
pub open spec fn description_lines() -> Seq<Seq<char>> {
    seq![
        "rustlrc is a simple command line tool that fetches lyrics for tracks in a given directory using the lrclib.net API to fetch lyrics."@,
        "Usage: rustlrc <file_path>"@,
        "Example: rustlrc /home/user/Music"@,
    ]
}

/// The lines that answer an invocation before anything is done.
pub open spec fn opening_lines(invocation: InvocationView) -> Seq<Seq<char>> {
    match invocation {
        InvocationView::Usage => description_lines(),
        InvocationView::Run { .. } => Seq::empty(),
        InvocationView::TooMany => seq!["Too many arguments provided."@] + description_lines(),
    }
}

/// What the words of a command line ask for.
pub fn invocation(words: &Vec<String>) -> (asked: Invocation)
    ensures
        asked@ == invocation_of(words.deep_view()),
{
    if words.len() == 1 {
        Invocation::Usage
    } else if words.len() == 2 {
        Invocation::Run { directory: words[1].clone() }
    } else {
        Invocation::TooMany
    }
}

/// The description of the tool, line by line.
pub fn description() -> (lines: Vec<String>)
    ensures
        lines.deep_view() == description_lines(),
{
    let mut lines: Vec<String> = Vec::new();
    lines.push(
        String::from_str(
            "rustlrc is a simple command line tool that fetches lyrics for tracks in a given directory using the lrclib.net API to fetch lyrics.",
        ),
    );
    lines.push(String::from_str("Usage: rustlrc <file_path>"));
    lines.push(String::from_str("Example: rustlrc /home/user/Music"));
    lines
}

/// The lines that answer `asked` before anything is done.
pub fn opening(asked: &Invocation) -> (lines: Vec<String>)
    ensures
        lines.deep_view() == opening_lines(asked@),
{
    let mut lines: Vec<String> = Vec::new();
    match asked {
        Invocation::Usage => description(),
        Invocation::Run { .. } => lines,
        Invocation::TooMany => {
            lines.push(String::from_str("Too many arguments provided."));
            let mut rest = description();
            lines.append(&mut rest);
            lines
        },
    }
}

} // verus!
