//! The echo handler: hands a prompt back behind a fixed prefix.

use vstd::prelude::*;
use vstd::string::*;

verus! {

/// The reply to a prompt: the prefix `You said: ` followed by the prompt itself.
pub open spec fn echo_reply(text: Seq<char>) -> Seq<char> {
    "You said: "@ + text
}

/// Echoes `text` back behind the fixed prefix. Never fails.
pub fn ingest_prompt(text: String) -> (reply: Result<String, String>)
    ensures
        reply matches Ok(s) && s@ == echo_reply(text@),
{
    let prefix = String::from_str("You said: ");
    Ok(prefix.concat(text.as_str()))
}

} // verus!
