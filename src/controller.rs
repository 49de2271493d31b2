use vstd::prelude::*;

use crate::command::Command;
use crate::output::{Extension, Output, OutputSink};
use crate::semantics::{lemma_run_stops_at_failure, lift, run_spec, step_spec};
use crate::target::{Target, TargetBase, TargetExtIncDec, TargetExtMul};

verus! {

/// Why a run stopped early.
#[derive(Debug)]
pub enum Error<E> {
    /// An operation of the target failed with its domain error.
    Target(E),
}

/// Runs commands against a target that it owns.
pub struct TargetController<T: Target> {
    target: T,
}

impl<T: Target> View for TargetController<T> {
    type V = T;

    closed spec fn view(&self) -> T {
        self.target
    }
}

impl<T: Target> TargetController<T> {
    pub fn new(target: T) -> (r: TargetController<T>)
        ensures
            r@ == target,
    {
        TargetController { target }
    }

    /// The target, for reading its state between runs.
    pub fn target(&self) -> (r: &T)
        ensures
            *r == self@,
    {
        &self.target
    }

    fn handle<S: OutputSink>(&mut self, cmd: &Command, sink: &mut S) -> (r: Result<(), Error<T::Error>>)
        ensures
            final(self)@ == step_spec(old(self)@, *cmd).0,
            final(sink).emitted() == old(sink).emitted() + step_spec(old(self)@, *cmd).1,
            r == lift(step_spec(old(self)@, *cmd).2),
    {
        match *cmd {
            Command::PrintState => {
                let n = self.target.get_state();
                sink.emit(Output::State(n));
            },
            Command::SetState(n) => {
                if let Err(e) = self.target.set_state(n) {
                    return Err(Error::Target(e));
                }
            },
            Command::Inc | Command::Dec | Command::IncDec => {
                let ops = match self.target.ext_incdec() {
                    Some(ops) => ops,
                    None => {
                        sink.emit(Output::Unsupported(Extension::IncDec));
                        return Ok(());
                    },
                };
                if let Command::Dec = *cmd {
                } else if let Err(e) = ops.inc(&mut self.target) {
                    return Err(Error::Target(e));
                }
                if let Command::Inc = *cmd {
                } else if let Err(e) = ops.dec(&mut self.target) {
                    return Err(Error::Target(e));
                }
            },
            Command::Mul(n) => {
                let ops = match self.target.ext_mul() {
                    Some(ops) => ops,
                    None => {
                        sink.emit(Output::Unsupported(Extension::Mul));
                        return Ok(());
                    },
                };
                if let Err(e) = ops.mul(&mut self.target, n) {
                    return Err(Error::Target(e));
                }
            },
        }
        proof {
            assert(sink.emitted() =~= old(sink).emitted() + step_spec(old(self)@, *cmd).1);
        }
        Ok(())
    }

    /// Runs `cmds` in order, sending what they print to `sink`. The first
    /// failing operation ends the run with its error; the commands before it
    /// keep their effect.
    pub fn run<S: OutputSink>(&mut self, cmds: &[Command], sink: &mut S) -> (r: Result<(), Error<T::Error>>)
        ensures
            final(self)@ == run_spec(old(self)@, cmds@).0,
            final(sink).emitted() == old(sink).emitted() + run_spec(old(self)@, cmds@).1,
            r == run_spec(old(self)@, cmds@).2,
    {
        let ghost t0 = self@;
        let ghost e0 = sink.emitted();
        // After `i` commands the controller stands where the model of the
        // first `i` commands leaves it, and none of them failed.
        let mut i: usize = 0;
        while i < cmds.len()
            invariant
                0 <= i <= cmds@.len(),
                t0 == old(self)@,
                e0 == old(sink).emitted(),
                self@ == run_spec(t0, cmds@.take(i as int)).0,
                sink.emitted() == e0 + run_spec(t0, cmds@.take(i as int)).1,
                run_spec(t0, cmds@.take(i as int)).2 is Ok,
            decreases cmds@.len() - i,
        {
            let ghost pre = cmds@.take(i as int);
            assert(cmds@.take(i + 1).drop_last() == pre);
            let res = self.handle(&cmds[i], sink);
            assert(cmds@.take(i + 1).last() == cmds@[i as int]);
            assert(sink.emitted() =~= e0 + run_spec(t0, cmds@.take(i + 1)).1);
            if res.is_err() {
                proof {
                    lemma_run_stops_at_failure(t0, cmds@, i + 1);
                }
                return res;
            }
            i = i + 1;
        }
        assert(cmds@.take(i as int) == cmds@);
        Ok(())
    }
}

} // verus!
