use vstd::prelude::*;

verus! {

/// The mandatory capability group of a target: reading and writing its
/// register.
///
/// A target is modelled as a deterministic value: each operation is described
/// by a spec function from the target before the call to the target after it,
/// together with the operation's result.
pub trait TargetBase: Sized {
    /// The target's domain error.
    type Error;

    /// The register.
    spec fn state(&self) -> isize;

    /// What `set_state(n)` does to this target.
    spec fn set_state_spec(&self, n: isize) -> (Self, Result<(), Self::Error>);

    /// A successful `set_state(n)` leaves `n` in the register.
    proof fn lemma_set_state(&self, n: isize)
        ensures
            self.set_state_spec(n).1 is Ok ==> self.set_state_spec(n).0.state() == n,
    ;

    fn get_state(&self) -> (r: isize)
        ensures
            r == self.state(),
    ;

    fn set_state(&mut self, n: isize) -> (r: Result<(), Self::Error>)
        ensures
            (*final(self), r) == old(self).set_state_spec(n),
    ;
}

/// A handle to the IncDec extension of targets of type `T`. Holding one is
/// the only way to reach `inc` and `dec`, and a handle always carries both.
pub trait TargetExtIncDec<T: TargetBase> {
    /// What `inc` does to a target.
    spec fn inc_spec(&self, t: T) -> (T, Result<(), T::Error>);

    /// What `dec` does to a target.
    spec fn dec_spec(&self, t: T) -> (T, Result<(), T::Error>);

    /// A successful `inc` adds one to the register, a successful `dec`
    /// subtracts one.
    proof fn lemma_inc_dec(&self, t: T)
        ensures
            self.inc_spec(t).1 is Ok ==> self.inc_spec(t).0.state() == t.state() + 1,
            self.dec_spec(t).1 is Ok ==> self.dec_spec(t).0.state() == t.state() - 1,
    ;

    fn inc(&self, target: &mut T) -> (r: Result<(), T::Error>)
        ensures
            (*final(target), r) == self.inc_spec(*old(target)),
    ;

    fn dec(&self, target: &mut T) -> (r: Result<(), T::Error>)
        ensures
            (*final(target), r) == self.dec_spec(*old(target)),
    ;
}

/// A handle to the Mul extension of targets of type `T`.
pub trait TargetExtMul<T: TargetBase> {
    /// What `mul(n)` does to a target.
    spec fn mul_spec(&self, t: T, n: isize) -> (T, Result<(), T::Error>);

    /// A successful `mul(n)` multiplies the register by `n`.
    proof fn lemma_mul(&self, t: T, n: isize)
        ensures
            self.mul_spec(t, n).1 is Ok ==> self.mul_spec(t, n).0.state() == t.state() * n,
    ;

    fn mul(&self, target: &mut T, n: isize) -> (r: Result<(), T::Error>)
        ensures
            (*final(target), r) == self.mul_spec(*old(target), n),
    ;
}

/// A target: the mandatory base capability, and a query for each optional
/// extension that answers with a handle or with `None`.
pub trait Target: TargetBase {
    /// The handle type of the IncDec extension.
    type IncDec: TargetExtIncDec<Self>;

    /// The handle type of the Mul extension.
    type Mul: TargetExtMul<Self>;

    /// What the IncDec query answers for this target.
    spec fn ext_incdec_spec(&self) -> Option<Self::IncDec>;

    /// What the Mul query answers for this target.
    spec fn ext_mul_spec(&self) -> Option<Self::Mul>;

    fn ext_incdec(&self) -> (r: Option<Self::IncDec>)
        ensures
            r == self.ext_incdec_spec(),
    ;

    fn ext_mul(&self) -> (r: Option<Self::Mul>)
        ensures
            r == self.ext_mul_spec(),
    ;
}

/// The IncDec handle of the targets of this library.
pub struct TargetExtIncDecOps;

/// The Mul handle of the targets of this library.
pub struct TargetExtMulOps;

/// The handle type of an extension that a target does not have. Its
/// invariant is `false`, so no value of it can be built and a query for such
/// an extension can only answer `None`.
pub struct Absent {
    never: (),
}

impl Absent {
    #[verifier::type_invariant]
    spec fn inv(&self) -> bool {
        false
    }
}

impl<T: TargetBase> TargetExtIncDec<T> for Absent {
    open spec fn inc_spec(&self, t: T) -> (T, Result<(), T::Error>) {
        (t, Err(arbitrary()))
    }

    open spec fn dec_spec(&self, t: T) -> (T, Result<(), T::Error>) {
        (t, Err(arbitrary()))
    }

    proof fn lemma_inc_dec(&self, t: T) {
    }

    #[verifier::loop_isolation(false)]
    fn inc(&self, target: &mut T) -> (r: Result<(), T::Error>) {
        proof {
            use_type_invariant(self);
        }
        // Never reached: no `Absent` exists to call this on.
        loop
            decreases 0nat,
        {
        }
    }

    #[verifier::loop_isolation(false)]
    fn dec(&self, target: &mut T) -> (r: Result<(), T::Error>) {
        proof {
            use_type_invariant(self);
        }
        // Never reached: no `Absent` exists to call this on.
        loop
            decreases 0nat,
        {
        }
    }
}

impl<T: TargetBase> TargetExtMul<T> for Absent {
    open spec fn mul_spec(&self, t: T, n: isize) -> (T, Result<(), T::Error>) {
        (t, Err(arbitrary()))
    }

    proof fn lemma_mul(&self, t: T, n: isize) {
    }

    #[verifier::loop_isolation(false)]
    fn mul(&self, target: &mut T, n: isize) -> (r: Result<(), T::Error>) {
        proof {
            use_type_invariant(self);
        }
        // Never reached: no `Absent` exists to call this on.
        loop
            decreases 0nat,
        {
        }
    }
}

} // verus!
