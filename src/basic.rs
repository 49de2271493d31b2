use vstd::prelude::*;

use crate::target::{Absent, Target, TargetBase};

verus! {

/// A target with the base capability only.
pub struct BasicTarget {
    /// The register.
    pub state: isize,
}

impl BasicTarget {
    pub fn new(state: isize) -> (r: BasicTarget)
        ensures
            r.state() == state,
    {
        BasicTarget { state }
    }
}

impl TargetBase for BasicTarget {
    type Error = &'static str;

    open spec fn state(&self) -> isize {
        self.state
    }

    open spec fn set_state_spec(&self, n: isize) -> (BasicTarget, Result<(), &'static str>) {
        (BasicTarget { state: n }, Ok(()))
    }

    proof fn lemma_set_state(&self, n: isize) {
    }

    fn get_state(&self) -> (r: isize) {
        self.state
    }

    fn set_state(&mut self, n: isize) -> (r: Result<(), &'static str>) {
        self.state = n;
        Ok(())
    }
}

impl Target for BasicTarget {
    type IncDec = Absent;

    type Mul = Absent;

    open spec fn ext_incdec_spec(&self) -> Option<Absent> {
        None
    }

    open spec fn ext_mul_spec(&self) -> Option<Absent> {
        None
    }

    fn ext_incdec(&self) -> (r: Option<Absent>) {
        None
    }

    fn ext_mul(&self) -> (r: Option<Absent>) {
        None
    }
}

} // verus!
