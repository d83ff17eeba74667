//! Small transforms to build actors from: the two classic pure functions,
//! and one stateful transform showing that an actor's unit of computation
//! may carry internal state of its own.

use vstd::prelude::*;

use crate::node::NodeState;

verus! {

/// Twice the input, saturating at the top of the range so that the
/// transform is total, as an actor's transform must be.
pub fn double(x: u64) -> (r: u64)
    ensures
        r == (if 2 * x <= u64::MAX { 2 * x } else { u64::MAX as int }),
{
    if x <= u64::MAX / 2 {
        x * 2
    } else {
        u64::MAX
    }
}

/// The input times itself, saturating at the top of the range so that the
/// transform is total, as an actor's transform must be.
pub fn square(x: u64) -> (r: u64)
    ensures
        r == (if x * x <= u64::MAX { x * x } else { u64::MAX as int }),
{
    if x <= 0xffff_ffff {
        proof {
            assert((x as int) * (x as int) <= 0xffff_ffff * 0xffff_ffff) by (nonlinear_arith)
                requires
                    x <= 0xffff_ffff,
            ;
        }
        x * x
    } else {
        proof {
            assert((x as int) * (x as int) > u64::MAX as int) by (nonlinear_arith)
                requires
                    x > 0xffff_ffff,
            ;
        }
        u64::MAX
    }
}

/// A one-value delay line: each application emits the previously seen value
/// and remembers the new one. Order-sensitive, so it shows that an actor
/// feeds its transform the inputs one at a time, in order, threading the
/// state through.
pub struct Delay {
    pub last: u64,
}

impl NodeState<u64, u64> for Delay {
    open spec fn wf(self) -> bool {
        true
    }

    open spec fn transition(self, msg: u64, next: Self, out: u64) -> bool {
        next.last == msg && out == self.last
    }

    fn act(&mut self, msg: u64) -> (out: u64) {
        let out = self.last;
        self.last = msg;
        out
    }
}

} // verus!
