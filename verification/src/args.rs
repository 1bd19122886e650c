//! The command line: exactly one argument after the program's name, the path
//! of a file that exists.

use vstd::prelude::*;

verus! {

/// The message for a command line without an argument.
pub const NO_ARGUMENTS: &'static str = "No arguments provided";

/// The message for a command line with more than one argument.
pub const TOO_MANY_ARGUMENTS: &'static str = "Too many arguments provided.";

/// The message for a path that names nothing in the file system.
pub const PATH_NOT_FOUND: &'static str = "Path does not exist";

/// The message with which a command line of `count` entries, the program's
/// name among them, is turned down, or `None` where it is accepted.
/// `path_exists` counts only where there is exactly one argument.
pub open spec fn rejection(count: nat, path_exists: bool) -> Option<Seq<char>> {
    if count < 2 {
        Some(NO_ARGUMENTS@)
    } else if count > 2 {
        Some(TOO_MANY_ARGUMENTS@)
    } else if !path_exists {
        Some(PATH_NOT_FOUND@)
    } else {
        None
    }
}

/// Checks the command line and returns the path it names.  `arguments` begins
/// with the program's name; `path_exists` says whether the one argument, where
/// there is exactly one, names an entry of the file system.
pub fn parse_args(arguments: &Vec<String>, path_exists: bool) -> (parsed: Result<
    String,
    &'static str,
>)
    ensures
        match parsed {
            Ok(path) => rejection(arguments.len() as nat, path_exists) is None && path@
                == arguments[1]@,
            Err(message) => rejection(arguments.len() as nat, path_exists) == Some(message@),
        },
{
    if arguments.len() < 2 {
        return Err(NO_ARGUMENTS);
    }
    if arguments.len() > 2 {
        return Err(TOO_MANY_ARGUMENTS);
    }
    if path_exists {
        Ok(arguments[1].clone())
    } else {
        Err(PATH_NOT_FOUND)
    }
}

/// The three messages differ from one another, so a message tells which
/// check failed.
pub proof fn lemma_messages_distinct()
    ensures
        NO_ARGUMENTS@ != TOO_MANY_ARGUMENTS@,
        NO_ARGUMENTS@ != PATH_NOT_FOUND@,
        TOO_MANY_ARGUMENTS@ != PATH_NOT_FOUND@,
{
    reveal_strlit("No arguments provided");
    reveal_strlit("Too many arguments provided.");
    reveal_strlit("Path does not exist");
    assert(NO_ARGUMENTS@.len() == 21);
    assert(TOO_MANY_ARGUMENTS@.len() == 28);
    assert(PATH_NOT_FOUND@.len() == 19);
}

} // verus!
