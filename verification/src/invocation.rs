//! What a handler asks the host to run.

use vstd::prelude::*;

verus! {

/// An external process for the host to start.
#[derive(Debug, Clone, PartialEq, Eq)]
pub struct Invocation {
    /// Name of the program, looked up by the host as usual.
    pub program: String,
    /// The arguments handed to the program, the program's own name not among them.
    pub args: Vec<String>,
    /// Whether the host waits for the process to end and collects what it
    /// wrote to standard output. Where this is `false` the process is started
    /// and left alone: its exit and its output are never looked at.
    pub capture: bool,
}

/// An [`Invocation`] as plain values.
pub struct InvocationView {
    pub program: Seq<char>,
    pub args: Seq<Seq<char>>,
    pub capture: bool,
}

impl View for Invocation {
    type V = InvocationView;

    open spec fn view(&self) -> InvocationView {
        InvocationView {
            program: self.program@,
            args: self.args.deep_view(),
            capture: self.capture,
        }
    }
}

} // verus!
