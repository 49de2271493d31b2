use vstd::prelude::*;

use crate::target::{Absent, Target, TargetBase, TargetExtIncDec, TargetExtIncDecOps};

verus! {

/// A target that declares the IncDec extension but whose `dec` always fails,
/// and that lacks the Mul extension.
pub struct FaultyTarget {
    /// The register.
    pub state: isize,
}

impl FaultyTarget {
    pub fn new(state: isize) -> (r: FaultyTarget)
        ensures
            r.state() == state,
    {
        FaultyTarget { state }
    }
}

impl TargetBase for FaultyTarget {
    type Error = &'static str;

    open spec fn state(&self) -> isize {
        self.state
    }

    open spec fn set_state_spec(&self, n: isize) -> (FaultyTarget, Result<(), &'static str>) {
        (FaultyTarget { state: n }, Ok(()))
    }

    proof fn lemma_set_state(&self, n: isize) {
    }

    fn get_state(&self) -> (r: isize) {
        self.state
    }

    fn set_state(&mut self, n: isize) -> (r: Result<(), &'static str>) {
        self.state = n;
        Ok(())
    }
}

impl TargetExtIncDec<FaultyTarget> for TargetExtIncDecOps {
    open spec fn inc_spec(&self, t: FaultyTarget) -> (FaultyTarget, Result<(), &'static str>) {
        match t.state.checked_add(1) {
            Some(s) => (FaultyTarget { state: s }, Ok(())),
            None => (t, Err("register overflow")),
        }
    }

    open spec fn dec_spec(&self, t: FaultyTarget) -> (FaultyTarget, Result<(), &'static str>) {
        (t, Err("`dec` operations are not supported yet"))
    }

    proof fn lemma_inc_dec(&self, t: FaultyTarget) {
    }

    fn inc(&self, target: &mut FaultyTarget) -> (r: Result<(), &'static str>) {
        match target.state.checked_add(1) {
            Some(s) => {
                target.state = s;
                Ok(())
            },
            None => Err("register overflow"),
        }
    }

    /// A stub that fails whatever the register holds.
    fn dec(&self, target: &mut FaultyTarget) -> (r: Result<(), &'static str>) {
        Err("`dec` operations are not supported yet")
    }
}

impl Target for FaultyTarget {
    type IncDec = TargetExtIncDecOps;

    type Mul = Absent;

    open spec fn ext_incdec_spec(&self) -> Option<TargetExtIncDecOps> {
        Some(TargetExtIncDecOps)
    }

    open spec fn ext_mul_spec(&self) -> Option<Absent> {
        None
    }

    fn ext_incdec(&self) -> (r: Option<TargetExtIncDecOps>) {
        Some(TargetExtIncDecOps)
    }

    fn ext_mul(&self) -> (r: Option<Absent>) {
        None
    }
}

} // verus!
