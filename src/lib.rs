//! A capability-negotiated command dispatcher: a controller runs protocol
//! commands against a target that has a mandatory base capability and
//! optional extensions, each reached through a handle that carries all of its
//! operations or is absent.

pub mod advanced;
pub mod basic;
pub mod command;
pub mod controller;
pub mod faulty;
pub mod output;
pub mod semantics;
pub mod target;

pub use advanced::AdvancedTarget;
pub use basic::BasicTarget;
pub use command::Command;
pub use controller::{Error, TargetController};
pub use faulty::FaultyTarget;
pub use output::{Extension, Output, OutputSink, Transcript};
pub use target::{
    Absent, Target, TargetBase, TargetExtIncDec, TargetExtIncDecOps, TargetExtMul, TargetExtMulOps,
};
