//! The window-manager dispatcher: forwards argument words to `hyprctl dispatch`
//! and hands back what the utility printed.

use vstd::prelude::*;
use vstd::string::*;
use vstd::utf8::{decode_utf8, valid_utf8};
use crate::invocation::Invocation;

verus! {

/// The text that lossy UTF-8 decoding makes of `bytes`: well-formed parts are
/// decoded, and each ill-formed part is replaced by U+FFFD.
pub uninterp spec fn lossy_text(bytes: Seq<u8>) -> Seq<char>;

/// Decodes `bytes` with `String::from_utf8_lossy`.
///
/// Trusted, not proved: the result is a function of the bytes alone, named
/// [`lossy_text`], and for well-formed UTF-8 it is the plain decoding of the
/// bytes. Where the replacement characters fall in ill-formed input is left to
/// the standard library.
#[verifier::external_body]
pub(crate) fn decode_lossy(bytes: &[u8]) -> (text: String)
    ensures
        text@ == lossy_text(bytes@),
        valid_utf8(bytes@) ==> text@ == decode_utf8(bytes@),
{
    String::from_utf8_lossy(bytes).into_owned()
}

/// Prepares a dispatch: the invocation `hyprctl dispatch <args...>`, the
/// arguments passed on as given, one process argument each. The host waits
/// for the utility and collects its standard output.
pub fn hypr_dispatch_command(args: Vec<String>) -> (inv: Invocation)
    ensures
        inv@.program == "hyprctl"@,
        inv@.args == seq!["dispatch"@] + args.deep_view(),
        inv@.capture,
{
    let mut argv = args;
    argv.insert(0, String::from_str("dispatch"));
    Invocation { program: String::from_str("hyprctl"), args: argv, capture: true }
}

/// Turns what the host observed of a dispatch into the handler's reply.
///
/// `outcome` is the utility's captured standard output, or the reason why it
/// could not be run. Output is decoded lossily and always accepted; a failure
/// is passed on with its reason unchanged.
pub fn hypr_dispatch_reply(outcome: Result<Vec<u8>, String>) -> (reply: Result<String, String>)
    ensures
        match outcome {
            Ok(stdout) => {
                &&& reply matches Ok(text)
                &&& text@ == lossy_text(stdout@)
                &&& valid_utf8(stdout@) ==> text@ == decode_utf8(stdout@)
            },
            Err(reason) => reply == Err::<String, String>(reason),
        },
{
    match outcome {
        Ok(stdout) => Ok(decode_lossy(stdout.as_slice())),
        Err(reason) => Err(reason),
    }
}

} // verus!
