//! The detached launcher's reading of its command: the first word is the
//! program, the words after it are its arguments.

use vstd::prelude::*;

verus! {

/// A program with its arguments.
pub struct CommandLine {
    pub program: String,
    pub args: Vec<String>,
}

/// The command line that the words of a command make: none without a word,
/// else the first word as program and the others, in order, as arguments.
pub fn command_line(parts: Vec<String>) -> (line: Option<CommandLine>)
    ensures
        parts@.len() == 0 ==> line is None,
        parts@.len() > 0 ==> line is Some && line->0.program == parts@[0] && line->0.args@
            == parts@.subrange(1, parts@.len() as int),
{
    let mut parts = parts;
    if parts.len() == 0 {
        return None;
    }
    let ghost words = parts@;
    let program = parts.remove(0);
    assert(parts@ =~= words.subrange(1, words.len() as int));
    Some(CommandLine { program, args: parts })
}

} // verus!
