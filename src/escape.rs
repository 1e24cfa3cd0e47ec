use vstd::prelude::*;

verus! {

/// Magnitude of an iterate beyond which the point is taken to diverge.
pub const BAILOUT: u32 = 6000000;

/// Magnitude below which a point whose iterates all stayed within the
/// bailout counts as a member of the set.
pub const MEMBER_LIMIT: u32 = 1000;

/// How the magnitude `|z|` of the current iterate compares with the two
/// thresholds: `beyond_bailout` is `|z| > BAILOUT`, `below_limit` is
/// `|z| < MEMBER_LIMIT`.
#[derive(Debug, Clone, Copy, PartialEq, Eq, Structural)]
pub struct Probe {
    pub beyond_bailout: bool,
    pub below_limit: bool,
}

/// What the escape-time test does next.
#[derive(Debug, Clone, Copy, PartialEq, Eq, Structural)]
pub enum Step {
    /// Compute the next iterate `z * z + c` and probe it.
    Iterate,
    /// The test is over: whether the point belongs to the set.
    Verdict(bool),
}

/// The decision on the probe of iterate `z_done`, under an iteration budget
/// of `bound`. The starting iterate `z_0 = 0` is never checked against the
/// bailout; once the budget is spent the last iterate decides by the member
/// limit.
pub open spec fn step_of(done: nat, bound: nat, probe: Probe) -> Step {
    if done > 0 && probe.beyond_bailout {
        Step::Verdict(false)
    } else if done >= bound {
        Step::Verdict(probe.below_limit)
    } else {
        Step::Iterate
    }
}

/// The escape-time verdict for a point whose iterates `z_0 .. z_bound` gave
/// `probes`: no iterate after the first went beyond the bailout, and the
/// last is below the member limit.
pub open spec fn escape_verdict(probes: Seq<Probe>, bound: nat) -> bool
    recommends
        probes.len() == bound + 1,
{
    &&& forall|k: int| 1 <= k <= bound ==> !(#[trigger] probes[k]).beyond_bailout
    &&& probes[bound as int].below_limit
}

/// Where a run that has probed `done` iterates ends when fed the rest of
/// `probes` one at a time.
pub open spec fn run_from(done: nat, bound: nat, probes: Seq<Probe>) -> Step
    decreases bound - done,
{
    match step_of(done, bound, probes[done as int]) {
        Step::Iterate => if done < bound {
            run_from(done + 1, bound, probes)
        } else {
            Step::Iterate
        },
        s => s,
    }
}

proof fn lemma_run_from(done: nat, bound: nat, probes: Seq<Probe>)
    requires
        done <= bound,
        probes.len() == bound + 1,
    ensures
        run_from(done, bound, probes) == Step::Verdict(
            (forall|k: int| done <= k <= bound && k >= 1 ==> !(#[trigger] probes[k]).beyond_bailout)
                && probes[bound as int].below_limit,
        ),
    decreases bound - done,
{
    if done < bound {
        lemma_run_from(done + 1, bound, probes);
        if done > 0 && probes[done as int].beyond_bailout {
        } else {
            assert forall|k: int| done <= k <= bound && k >= 1 && (forall|j: int|
                done + 1 <= j <= bound && j >= 1 ==> !(#[trigger] probes[j]).beyond_bailout)
                implies !(#[trigger] probes[k]).beyond_bailout by {
                if k > done {
                    assert(done + 1 <= k <= bound);
                }
            }
        }
    }
}

/// A run of the step machine, started with an iteration budget and fed the
/// probes of the iterates `z_0, z_1, ..` in turn, ends in the escape-time
/// verdict of those probes.
pub proof fn lemma_run_gives_verdict(bound: nat, probes: Seq<Probe>)
    requires
        probes.len() == bound + 1,
    ensures
        run_from(0, bound, probes) == Step::Verdict(escape_verdict(probes, bound)),
{
    lemma_run_from(0, bound, probes);
}

/// One escape-time test in progress: how many iterates past `z_0` have been
/// computed, and the iteration budget.
#[derive(Debug, Clone, Copy, PartialEq, Eq, Structural)]
pub struct EscapeRun {
    done: u32,
    bound: u32,
}

impl View for EscapeRun {
    /// `(done, bound)`.
    type V = (nat, nat);

    closed spec fn view(&self) -> (nat, nat) {
        (self.done as nat, self.bound as nat)
    }
}

impl EscapeRun {
    /// A run about to probe `z_0 = 0`, with `bound` iterations allowed.
    pub fn new(bound: u32) -> (r: Self)
        ensures
            r@ == (0nat, bound as nat),
    {
        EscapeRun { done: 0, bound }
    }

    /// Decides on the probe of the current iterate. On `Iterate` the caller
    /// computes the next iterate and probes it in the following call.
    pub fn step(&mut self, probe: Probe) -> (s: Step)
        ensures
            s == step_of(old(self)@.0, old(self)@.1, probe),
            final(self)@ == (if s == Step::Iterate {
                (old(self)@.0 + 1, old(self)@.1)
            } else {
                old(self)@
            }),
    {
        if self.done > 0 && probe.beyond_bailout {
            Step::Verdict(false)
        } else if self.done >= self.bound {
            Step::Verdict(probe.below_limit)
        } else {
            self.done = self.done + 1;
            Step::Iterate
        }
    }

    pub fn done(&self) -> (r: u32)
        ensures
            r == self@.0,
    {
        self.done
    }

    pub fn bound(&self) -> (r: u32)
        ensures
            r == self@.1,
    {
        self.bound
    }
}

} // verus!
