//! The command line: one optional argument, the sound file.

use vstd::prelude::*;
use vstd::string::*;

verus! {

/// The sound file that the command line names: the first argument after the
/// program's name, if there is one.
pub fn handle_args(args: &Vec<String>) -> (sound_file: Option<String>)
    ensures
        args.len() < 2 ==> sound_file is None,
        args.len() >= 2 ==> sound_file is Some && sound_file->Some_0@ == args[1]@,
{
    if args.len() < 2 {
        None
    } else {
        Some(args[1].clone())
    }
}

/// The usage message for a program called `program`.
pub fn usage(program: &str) -> (message: String)
    ensures
        message@ == "Usage: "@ + program@ + " <sound_file>"@,
{
    let mut message = String::from_str("Usage: ");
    message.append(program);
    message.append(" <sound_file>");
    message
}

} // verus!
