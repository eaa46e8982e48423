//! The command line: a command word and, for most commands, one argument.

use vstd::prelude::*;

use crate::text::same_text;

verus! {

/// Why the command line was not accepted.
#[derive(Debug, Clone, Copy, PartialEq, Eq, PartialOrd, Ord, Structural)]
pub enum ParsingError {
    /// The command word is not one of the known commands.
    UnknownArgs,
    /// The argument at this position is missing.
    MissingArg(usize),
    /// No command word was given.
    NoArgs,
}

/// A parsed command.
#[derive(Debug, PartialEq, Eq, PartialOrd, Ord)]
pub enum ParsedArgs {
    /// Restore the entry with this name.
    Restore(String),
    /// Watch this directory.
    WatchDir(String),
    /// Delete the entry at this path.
    Delete(String),
    /// Add the file at this path.
    Add(String),
    /// Describe the project.
    About,
}

/// The command of a parsed command line, with the characters of its
/// argument (empty for `About`).
pub open spec fn command_of(p: ParsedArgs) -> (int, Seq<char>) {
    match p {
        ParsedArgs::Restore(s) => (0, s@),
        ParsedArgs::WatchDir(s) => (1, s@),
        ParsedArgs::Delete(s) => (2, s@),
        ParsedArgs::Add(s) => (3, s@),
        ParsedArgs::About => (4, Seq::empty()),
    }
}

/// What parsing a command line (program name first) gives, as the command
/// number and argument of `command_of`.
pub open spec fn parse_spec(args: Seq<Seq<char>>) -> Result<(int, Seq<char>), ParsingError> {
    if args.len() < 2 {
        Err(ParsingError::NoArgs)
    } else {
        let cmd = args[1];
        let code = if cmd == "add"@ {
            3int
        } else if cmd == "delete"@ {
            2int
        } else if cmd == "restore"@ {
            0int
        } else if cmd == "about"@ {
            4int
        } else if cmd == "watchd"@ {
            1int
        } else {
            -1int
        };
        if code == -1 {
            Err(ParsingError::UnknownArgs)
        } else if code == 4 {
            Ok((4, Seq::empty()))
        } else if args.len() < 3 {
            Err(ParsingError::MissingArg(2))
        } else {
            Ok((code, args[2]))
        }
    }
}

/// The argument at `pos`, or `MissingArg(pos)`.
fn get_args(args: &Vec<String>, pos: usize) -> (r: Result<String, ParsingError>)
    ensures
        pos < args@.len() ==> (r matches Ok(s) && s@ == args@[pos as int]@),
        pos >= args@.len() ==> r == Err::<String, ParsingError>(ParsingError::MissingArg(pos)),
{
    if pos < args.len() {
        Ok(args[pos].clone())
    } else {
        Err(ParsingError::MissingArg(pos))
    }
}

/// Parses the command line `full_args`, whose first item is the program
/// name.
pub fn parse(full_args: &Vec<String>) -> (r: Result<ParsedArgs, ParsingError>)
    ensures
        match parse_spec(full_args@.map_values(|s: String| s@)) {
            Ok(c) => r matches Ok(p) && command_of(p) == c,
            Err(e) => r == Err::<ParsedArgs, ParsingError>(e),
        },
{
    let ghost views = full_args@.map_values(|s: String| s@);
    if full_args.len() < 2 {
        return Err(ParsingError::NoArgs);
    }
    let cmd = full_args[1].as_str();
    assert(views[1] == cmd@);
    if same_text(cmd, "add") {
        match get_args(full_args, 2) {
            Ok(s) => Ok(ParsedArgs::Add(s)),
            Err(e) => Err(e),
        }
    } else if same_text(cmd, "delete") {
        match get_args(full_args, 2) {
            Ok(s) => Ok(ParsedArgs::Delete(s)),
            Err(e) => Err(e),
        }
    } else if same_text(cmd, "restore") {
        match get_args(full_args, 2) {
            Ok(s) => Ok(ParsedArgs::Restore(s)),
            Err(e) => Err(e),
        }
    } else if same_text(cmd, "about") {
        Ok(ParsedArgs::About)
    } else if same_text(cmd, "watchd") {
        match get_args(full_args, 2) {
            Ok(s) => Ok(ParsedArgs::WatchDir(s)),
            Err(e) => Err(e),
        }
    } else {
        Err(ParsingError::UnknownArgs)
    }
}

} // verus!
