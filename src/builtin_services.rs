use vstd::prelude::*;

verus! {

/// The built-in `lifeline` service: it ties a client's standard input and output
/// to the SSH port of the peer that runs the server side.
#[derive(Clone, Copy, Debug)]
pub struct Lifeline {}

impl Lifeline {
    pub fn new() -> (r: Lifeline) {
        Lifeline {}
    }

    /// The name under which the service is offered.
    pub fn name(&self) -> (r: &'static str)
        ensures
            r@ == "lifeline"@,
    {
        "lifeline"
    }
}

} // verus!
