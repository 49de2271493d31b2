use vstd::prelude::*;

verus! {

/// An optional extension.
#[derive(Clone, Copy, Debug, PartialEq, Eq, Structural)]
pub enum Extension {
    IncDec,
    Mul,
}

impl Extension {
    /// The diagnostic emitted when a command needs this extension and the
    /// target does not have it.
    pub fn diagnostic(&self) -> (r: &'static str)
        ensures
            *self == Extension::IncDec ==> r@ == "IncDec extension not supported!"@,
            *self == Extension::Mul ==> r@ == "Mul extension not supported!"@,
    {
        proof {
            reveal_strlit("IncDec extension not supported!");
            reveal_strlit("Mul extension not supported!");
        }
        match self {
            Extension::IncDec => "IncDec extension not supported!",
            Extension::Mul => "Mul extension not supported!",
        }
    }
}

/// What the controller hands to the output sink.
#[derive(Clone, Copy, Debug, PartialEq, Eq, Structural)]
pub enum Output {
    /// The register, to be printed in decimal.
    State(isize),
    /// A command needed an extension that the target lacks.
    Unsupported(Extension),
}

/// Where the controller sends printed state and diagnostics, as they occur.
pub trait OutputSink {
    /// Everything emitted so far, oldest first.
    spec fn emitted(&self) -> Seq<Output>;

    fn emit(&mut self, out: Output)
        ensures
            final(self).emitted() == old(self).emitted().push(out),
    ;
}

/// A sink that keeps what it is given.
pub struct Transcript {
    pub lines: Vec<Output>,
}

impl Transcript {
    pub fn new() -> (r: Transcript)
        ensures
            r.lines@ == Seq::<Output>::empty(),
    {
        Transcript { lines: Vec::new() }
    }
}

impl OutputSink for Transcript {
    open spec fn emitted(&self) -> Seq<Output> {
        self.lines@
    }

    fn emit(&mut self, out: Output) {
        self.lines.push(out);
    }
}

} // verus!
