use vstd::prelude::*;

use crate::basic::BasicTarget;
use crate::command::Command;
use crate::controller::Error;
use crate::faulty::FaultyTarget;
use crate::output::{Extension, Output};
use crate::target::{Target, TargetBase, TargetExtIncDec, TargetExtMul};

verus! {

/// A command result as the target gave it, lifted to the controller's error.
pub open spec fn lift<E>(r: Result<(), E>) -> Result<(), Error<E>> {
    match r {
        Ok(_) => Ok(()),
        Err(e) => Err(Error::Target(e)),
    }
}

/// What the controller does with one command: the target after it, what it
/// emitted, and how the command ended.
pub open spec fn step_spec<T: Target>(t: T, cmd: Command) -> (T, Seq<Output>, Result<(), T::Error>) {
    match cmd {
        Command::PrintState => (t, seq![Output::State(t.state())], Ok(())),
        Command::SetState(n) => (t.set_state_spec(n).0, seq![], t.set_state_spec(n).1),
        Command::Inc => match t.ext_incdec_spec() {
            None => (t, seq![Output::Unsupported(Extension::IncDec)], Ok(())),
            Some(ops) => (ops.inc_spec(t).0, seq![], ops.inc_spec(t).1),
        },
        Command::Dec => match t.ext_incdec_spec() {
            None => (t, seq![Output::Unsupported(Extension::IncDec)], Ok(())),
            Some(ops) => (ops.dec_spec(t).0, seq![], ops.dec_spec(t).1),
        },
        Command::IncDec => match t.ext_incdec_spec() {
            None => (t, seq![Output::Unsupported(Extension::IncDec)], Ok(())),
            Some(ops) => {
                let (t1, r1) = ops.inc_spec(t);
                if r1 is Err {
                    (t1, seq![], r1)
                } else {
                    (ops.dec_spec(t1).0, seq![], ops.dec_spec(t1).1)
                }
            },
        },
        Command::Mul(n) => match t.ext_mul_spec() {
            None => (t, seq![Output::Unsupported(Extension::Mul)], Ok(())),
            Some(ops) => (ops.mul_spec(t, n).0, seq![], ops.mul_spec(t, n).1),
        },
    }
}

/// What the controller does with a command sequence: the commands run in
/// order, and the first failure ends the run.
pub open spec fn run_spec<T: Target>(t: T, cmds: Seq<Command>) -> (T, Seq<Output>, Result<(), Error<T::Error>>)
    decreases cmds.len(),
{
    if cmds.len() == 0 {
        (t, seq![], Ok(()))
    } else {
        let (t1, o1, r1) = run_spec(t, cmds.drop_last());
        if r1 is Err {
            (t1, o1, r1)
        } else {
            let (t2, o2, r2) = step_spec(t1, cmds.last());
            (t2, o1 + o2, lift(r2))
        }
    }
}

/// Once a prefix of the commands has failed, the rest of them change nothing.
pub proof fn lemma_run_stops_at_failure<T: Target>(t: T, cmds: Seq<Command>, k: int)
    requires
        0 <= k <= cmds.len(),
        run_spec(t, cmds.take(k)).2 is Err,
    ensures
        run_spec(t, cmds) == run_spec(t, cmds.take(k)),
    decreases cmds.len(),
{
    if k < cmds.len() {
        assert(cmds.drop_last().take(k) == cmds.take(k));
        lemma_run_stops_at_failure(t, cmds.drop_last(), k);
    } else {
        assert(cmds.take(k) == cmds);
    }
}

/// Running `a` and then `b` is running `a + b`: a command's effect depends
/// only on the commands before it, and a failure in `a` means that `b` never
/// runs.
pub proof fn lemma_run_concat<T: Target>(t: T, a: Seq<Command>, b: Seq<Command>)
    ensures
        run_spec(t, a + b) == (if run_spec(t, a).2 is Err {
            run_spec(t, a)
        } else {
            (
                run_spec(run_spec(t, a).0, b).0,
                run_spec(t, a).1 + run_spec(run_spec(t, a).0, b).1,
                run_spec(run_spec(t, a).0, b).2,
            )
        }),
    decreases b.len(),
{
    let ta = run_spec(t, a).0;
    if b.len() == 0 {
        assert(a + b == a);
        assert(run_spec(t, a).1 + seq![] == run_spec(t, a).1);
    } else {
        assert((a + b).drop_last() == a + b.drop_last());
        assert((a + b).last() == b.last());
        lemma_run_concat(t, a, b.drop_last());
        if run_spec(t, a).2 is Ok && run_spec(ta, b.drop_last()).2 is Ok {
            let o2 = step_spec(run_spec(ta, b.drop_last()).0, b.last()).1;
            assert(run_spec(t, a).1 + run_spec(ta, b.drop_last()).1 + o2
                == run_spec(t, a).1 + (run_spec(ta, b.drop_last()).1 + o2));
        }
    }
}

/// When the first `k` commands succeed and command `k` fails, the run ends
/// there: its target is the one that the first `k` commands leave, changed
/// only by the failing command, and nothing after it runs.
pub proof fn lemma_run_prefix_before_failure<T: Target>(t: T, cmds: Seq<Command>, k: int)
    requires
        0 <= k < cmds.len(),
        run_spec(t, cmds.take(k)).2 is Ok,
        step_spec(run_spec(t, cmds.take(k)).0, cmds[k]).2 is Err,
    ensures
        run_spec(t, cmds).0 == step_spec(run_spec(t, cmds.take(k)).0, cmds[k]).0,
        run_spec(t, cmds).1 == run_spec(t, cmds.take(k)).1 + step_spec(
            run_spec(t, cmds.take(k)).0,
            cmds[k],
        ).1,
        run_spec(t, cmds).2 == lift(step_spec(run_spec(t, cmds.take(k)).0, cmds[k]).2),
{
    assert(cmds.take(k + 1).drop_last() == cmds.take(k));
    assert(cmds.take(k + 1).last() == cmds[k]);
    lemma_run_stops_at_failure(t, cmds, k + 1);
}

/// On every target, a `PrintState` right after a successful `SetState(n)`
/// emits `n`.
pub proof fn lemma_print_after_set<T: Target>(t: T, pre: Seq<Command>, n: isize)
    ensures
        ({
            let r = run_spec(t, pre + seq![Command::SetState(n), Command::PrintState]);
            r.2 is Ok ==> r.1.last() == Output::State(n)
        }),
{
    let cmds = pre + seq![Command::SetState(n), Command::PrintState];
    let first = pre + seq![Command::SetState(n)];
    assert(cmds.drop_last() == first);
    assert(first.drop_last() == pre);
    assert(cmds.last() == Command::PrintState);
    assert(first.last() == Command::SetState(n));
    let tp = run_spec(t, pre).0;
    tp.lemma_set_state(n);
    if run_spec(t, cmds).2 is Ok {
        assert(run_spec(t, first).2 is Ok);
        assert(run_spec(t, pre).2 is Ok);
        assert(run_spec(t, first).0.state() == n);
        assert(run_spec(t, cmds).1 == run_spec(t, first).1 + seq![Output::State(n)]);
    }
}

/// Two `PrintState` commands in a row emit the same value and leave the
/// target as it was.
pub proof fn lemma_print_state_repeats<T: Target>(t: T, pre: Seq<Command>)
    ensures
        ({
            let p = run_spec(t, pre);
            let r = run_spec(t, pre + seq![Command::PrintState, Command::PrintState]);
            p.2 is Ok ==> r == (
                p.0,
                p.1 + seq![Output::State(p.0.state()), Output::State(p.0.state())],
                Ok::<(), Error<T::Error>>(()),
            )
        }),
{
    let cmds = pre + seq![Command::PrintState, Command::PrintState];
    let first = pre + seq![Command::PrintState];
    assert(cmds.drop_last() == first);
    assert(first.drop_last() == pre);
    assert(cmds.last() == Command::PrintState);
    assert(first.last() == Command::PrintState);
    let p = run_spec(t, pre);
    if p.2 is Ok {
        assert(run_spec(t, first) == (p.0, p.1 + seq![Output::State(p.0.state())], Ok::<(), Error<T::Error>>(())));
    }
    assert(p.1 + seq![Output::State(p.0.state())] + seq![Output::State(p.0.state())]
        == p.1 + seq![Output::State(p.0.state()), Output::State(p.0.state())]);
}

/// On the basic target every extension command emits the diagnostic of its
/// extension, succeeds, and leaves the target as it was.
pub proof fn lemma_basic_extensions_unsupported(t: BasicTarget, n: isize)
    ensures
        step_spec(t, Command::Inc) == (t, seq![Output::Unsupported(Extension::IncDec)], Ok::<(), &'static str>(())),
        step_spec(t, Command::Dec) == (t, seq![Output::Unsupported(Extension::IncDec)], Ok::<(), &'static str>(())),
        step_spec(t, Command::IncDec) == (t, seq![Output::Unsupported(Extension::IncDec)], Ok::<(), &'static str>(())),
        step_spec(t, Command::Mul(n)) == (t, seq![Output::Unsupported(Extension::Mul)], Ok::<(), &'static str>(())),
{
}

/// On the faulty target `IncDec` keeps the increment and then fails on the
/// decrement: no rollback.
pub proof fn lemma_faulty_incdec_keeps_increment(t: FaultyTarget)
    requires
        t.state() < isize::MAX,
    ensures
        step_spec(t, Command::IncDec) == (
            FaultyTarget { state: (t.state() + 1) as isize },
            Seq::<Output>::empty(),
            Err::<(), &'static str>("`dec` operations are not supported yet"),
        ),
{
}

} // verus!
