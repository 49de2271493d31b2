use vstd::prelude::*;

verus! {

/// A protocol command.
#[derive(Clone, Copy, Debug)]
pub enum Command {
    /// Emit the register.
    PrintState,
    /// Set the register.
    SetState(isize),
    /// Add one to the register (IncDec extension).
    Inc,
    /// Subtract one from the register (IncDec extension).
    Dec,
    /// `Inc` followed by `Dec` under one capability check (IncDec extension).
    IncDec,
    /// Multiply the register (Mul extension).
    Mul(isize),
}

} // verus!
