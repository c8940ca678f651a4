//! Where the finished text goes, and the messages a run reports.

use vstd::prelude::*;
use crate::aggregate::AggregateError;

verus! {

/// The text that `Debug` prints for a string: quoted, with escapes.
pub uninterp spec fn debug_of(s: Seq<char>) -> Seq<char>;

/// Relies on `<str as Debug>::fmt` through `format!("{:?}")`: the quoted,
/// escaped form of the string, which depends on its characters alone.
#[verifier::external_body]
fn debug_text(s: &str) -> (r: String)
    ensures
        r@ == debug_of(s@),
{
    format!("{:?}", s)
}

/// The file written when no other path is given.
pub const DEFAULT_OUTPUT: &'static str = "fileagg_output.txt";

/// The one destination of a run's text.
#[derive(Clone, Debug)]
pub enum Sink {
    /// Create or overwrite the file at this path.
    File(String),
    /// Print to the terminal.
    Terminal,
    /// Hand to the platform clipboard.
    Clipboard,
}

/// Picks the destination: the terminal when asked for, else the clipboard
/// when asked for, else the given output file or the default one.
pub fn select_sink(output: Option<String>, stdout: bool, clipboard: bool) -> (r: Sink)
    ensures
        stdout ==> r is Terminal,
        !stdout && clipboard ==> r is Clipboard,
        !stdout && !clipboard ==> (r matches Sink::File(p) && p@ == match output {
            Some(o) => o@,
            None => DEFAULT_OUTPUT@,
        }),
{
    if stdout {
        Sink::Terminal
    } else if clipboard {
        Sink::Clipboard
    } else {
        match output {
            Some(o) => Sink::File(o),
            None => Sink::File(String::from_str(DEFAULT_OUTPUT)),
        }
    }
}

impl AggregateError {
    /// The message that names the failure and the path it concerns, the
    /// path quoted and escaped as `Debug` prints it.
    pub fn message(&self) -> (r: String)
        ensures
            r@ == match self {
                AggregateError::NotADirectory(p) => "Path is not a directory: "@ + debug_of(p@),
            },
    {
        match self {
            AggregateError::NotADirectory(p) => {
                let mut r = String::from_str("Path is not a directory: ");
                let quoted = debug_text(p.as_str());
                r.append(quoted.as_str());
                r
            },
        }
    }
}

} // verus!
