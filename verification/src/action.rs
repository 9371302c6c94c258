//! The two-variant action result and the driving loop.
//!
//! The rewritten inner computation yields either a resumption carrying the
//! next argument tuple or a terminal value. `trampoline` is the loop the
//! rebuilder's output embodies: it feeds a step function its own
//! resumptions until a terminal value appears, in constant stack space —
//! the loop holds one accumulator and never recurses.

use vstd::prelude::*;

verus! {

/// What one evaluation of the inner computation produced: a resumption
/// carrying the next argument tuple, or a terminal value.
pub enum Action<C, R> {
    Continue(C),
    Return(R),
}

/// Every chain of resumptions that `f` can produce from `c` reaches a
/// terminal value within `fuel` steps.
pub open spec fn must_halt<C, R, F: Fn(C) -> Action<C, R>>(f: F, c: C, fuel: nat) -> bool
    decreases fuel,
{
    &&& fuel > 0
    &&& forall|a: Action<C, R>| #[trigger] call_ensures(f, (c,), a) ==> (a matches Action::Continue(
        c2,
    ) ==> must_halt(f, c2, (fuel - 1) as nat))
}

/// Iterated application of `f`, starting from `c`, can yield the terminal
/// value `r` after exactly `k` resumptions.
pub open spec fn reaches<C, R, F: Fn(C) -> Action<C, R>>(f: F, c: C, r: R, k: nat) -> bool
    decreases k,
{
    if k == 0 {
        call_ensures(f, (c,), Action::Return(r))
    } else {
        exists|c2: C|
            #[trigger] call_ensures(f, (c,), Action::Continue(c2)) && reaches(
                f,
                c2,
                r,
                (k - 1) as nat,
            )
    }
}

/// The driving loop: applies `step` to its own resumptions until a
/// terminal value appears, and returns that value. The returned value is
/// exactly one that iterated application of `step` yields; the loop keeps
/// a single accumulator and adds no stack frame per resumption, however
/// many steps the run takes.
#[verifier::loop_isolation(false)]
pub fn trampoline<C, R, F: Fn(C) -> Action<C, R>>(step: F, init: C) -> (r: R)
    requires
        forall|c: C| #[trigger] call_requires(step, (c,)),
        exists|n: nat| must_halt(step, init, n),
    ensures
        exists|k: nat| reaches(step, init, r, k),
{
    let ghost init_snap = init;
    let ghost mut fuel: nat = choose|n: nat| must_halt(step, init, n);
    let ghost mut steps: nat = 0;
    let mut acc = init;
    loop
        invariant
            forall|c: C| #[trigger] call_requires(step, (c,)),
            must_halt(step, acc, fuel),
            forall|r2: R, k2: nat|
                #[trigger] reaches(step, acc, r2, k2) ==> reaches(step, init_snap, r2, k2 + steps),
        decreases fuel,
    {
        let ghost prev = acc;
        match step(acc) {
            Action::Return(r) => {
                proof {
                    assert(reaches(step, prev, r, 0));
                    assert(reaches(step, init_snap, r, 0 + steps));
                    assert(reaches(step, init_snap, r, steps));
                }
                return r;
            },
            Action::Continue(c2) => {
                proof {
                    assert(must_halt(step, c2, (fuel - 1) as nat));
                    assert forall|r2: R, k2: nat| #[trigger] reaches(step, c2, r2, k2) implies reaches(
                        step,
                        init_snap,
                        r2,
                        k2 + (steps + 1),
                    ) by {
                        assert(reaches(step, prev, r2, k2 + 1));
                        assert(reaches(step, init_snap, r2, (k2 + 1) + steps));
                    }
                    fuel = (fuel - 1) as nat;
                    steps = steps + 1;
                }
                acc = c2;
            },
        }
    }
}

} // verus!
