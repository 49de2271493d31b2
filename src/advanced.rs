use vstd::prelude::*;

use crate::target::{
    Target, TargetBase, TargetExtIncDec, TargetExtIncDecOps, TargetExtMul, TargetExtMulOps,
};

verus! {

/// A target with both extensions. Multiplying by 7 is refused, and so is any
/// operation whose result would not fit in the register.
pub struct AdvancedTarget {
    /// The register.
    pub state: isize,
}

impl AdvancedTarget {
    pub fn new(state: isize) -> (r: AdvancedTarget)
        ensures
            r.state() == state,
    {
        AdvancedTarget { state }
    }
}

impl TargetBase for AdvancedTarget {
    type Error = &'static str;

    open spec fn state(&self) -> isize {
        self.state
    }

    open spec fn set_state_spec(&self, n: isize) -> (AdvancedTarget, Result<(), &'static str>) {
        (AdvancedTarget { state: n }, Ok(()))
    }

    proof fn lemma_set_state(&self, n: isize) {
    }

    fn get_state(&self) -> (r: isize) {
        self.state
    }

    fn set_state(&mut self, n: isize) -> (r: Result<(), &'static str>) {
        self.state = n;
        Ok(())
    }
}

impl TargetExtIncDec<AdvancedTarget> for TargetExtIncDecOps {
    open spec fn inc_spec(&self, t: AdvancedTarget) -> (AdvancedTarget, Result<(), &'static str>) {
        match t.state.checked_add(1) {
            Some(s) => (AdvancedTarget { state: s }, Ok(())),
            None => (t, Err("register overflow")),
        }
    }

    open spec fn dec_spec(&self, t: AdvancedTarget) -> (AdvancedTarget, Result<(), &'static str>) {
        match t.state.checked_sub(1) {
            Some(s) => (AdvancedTarget { state: s }, Ok(())),
            None => (t, Err("register overflow")),
        }
    }

    proof fn lemma_inc_dec(&self, t: AdvancedTarget) {
    }

    fn inc(&self, target: &mut AdvancedTarget) -> (r: Result<(), &'static str>) {
        match target.state.checked_add(1) {
            Some(s) => {
                target.state = s;
                Ok(())
            },
            None => Err("register overflow"),
        }
    }

    fn dec(&self, target: &mut AdvancedTarget) -> (r: Result<(), &'static str>) {
        match target.state.checked_sub(1) {
            Some(s) => {
                target.state = s;
                Ok(())
            },
            None => Err("register overflow"),
        }
    }
}

impl TargetExtMul<AdvancedTarget> for TargetExtMulOps {
    open spec fn mul_spec(&self, t: AdvancedTarget, n: isize) -> (AdvancedTarget, Result<(), &'static str>) {
        if n == 7 {
            (t, Err("multiplying by 7 is unlucky!"))
        } else {
            match t.state.checked_mul(n) {
                Some(s) => (AdvancedTarget { state: s }, Ok(())),
                None => (t, Err("register overflow")),
            }
        }
    }

    proof fn lemma_mul(&self, t: AdvancedTarget, n: isize) {
    }

    fn mul(&self, target: &mut AdvancedTarget, n: isize) -> (r: Result<(), &'static str>) {
        if n == 7 {
            return Err("multiplying by 7 is unlucky!");
        }
        match target.state.checked_mul(n) {
            Some(s) => {
                target.state = s;
                Ok(())
            },
            None => Err("register overflow"),
        }
    }
}

impl Target for AdvancedTarget {
    type IncDec = TargetExtIncDecOps;

    type Mul = TargetExtMulOps;

    open spec fn ext_incdec_spec(&self) -> Option<TargetExtIncDecOps> {
        Some(TargetExtIncDecOps)
    }

    open spec fn ext_mul_spec(&self) -> Option<TargetExtMulOps> {
        Some(TargetExtMulOps)
    }

    fn ext_incdec(&self) -> (r: Option<TargetExtIncDecOps>) {
        Some(TargetExtIncDecOps)
    }

    fn ext_mul(&self) -> (r: Option<TargetExtMulOps>) {
        Some(TargetExtMulOps)
    }
}

} // verus!
