//! The process launcher: runs a caller-supplied command through the login shell.

use vstd::prelude::*;
use vstd::string::*;
use crate::invocation::Invocation;
use crate::quoting::{join_words, joined};

verus! {

/// The text handed to the shell: the command as given, one space, and the
/// arguments joined in shell quoting. The command itself is not quoted.
pub open spec fn launch_line(cmd: Seq<char>, args: Seq<Seq<char>>) -> Seq<char> {
    cmd + seq![' '] + joined(args)
}

/// Forms the shell text for `cmd` with `args`.
pub fn launch_command_line(cmd: &str, args: &Vec<String>) -> (line: String)
    ensures
        line@ == launch_line(cmd@, args.deep_view()),
{
    let words = join_words(args);
    let mut line = String::from_str(cmd);
    line.append(" ");
    line.append(words.as_str());
    proof {
        reveal_strlit(" ");
    }
    line
}

/// Prepares the launch of `cmd` with `args`: the invocation `sh -lc <line>`,
/// where `<line>` is [`launch_line`]. The process is started and not waited for.
pub fn launch_app_command(cmd: String, args: Vec<String>) -> (inv: Invocation)
    ensures
        inv@.program == "sh"@,
        inv@.args == seq!["-lc"@, launch_line(cmd@, args.deep_view())],
        !inv@.capture,
{
    let line = launch_command_line(cmd.as_str(), &args);
    let mut argv: Vec<String> = Vec::new();
    argv.push(String::from_str("-lc"));
    argv.push(line);
    Invocation { program: String::from_str("sh"), args: argv, capture: false }
}

/// Turns what the host observed of a launch into the handler's reply.
///
/// `started` is `Ok` once the process was started, whatever becomes of it
/// afterwards, or the reason why it could not be started. The reply carries
/// no payload on success and the reason, unchanged, on failure.
pub fn launch_app_reply(started: Result<(), String>) -> (reply: Result<(), String>)
    ensures
        reply == started,
{
    started
}

} // verus!
