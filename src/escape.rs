//! The decisions of the escape-time loop. The caller owns the complex
//! iterate and its arithmetic; each round it reports whether the iterate is
//! still within the escape radius, and the counter says whether one more
//! step `z <- z * z + c` is owed.

use vstd::prelude::*;

verus! {

/// How many reports at the front of `reports` say "within the radius".
pub open spec fn leading_within(reports: Seq<bool>) -> nat
    decreases reports.len(),
{
    if reports.len() == 0 {
        0
    } else if reports[0] {
        1 + leading_within(reports.drop_first())
    } else {
        0
    }
}

/// The iteration count of a run with cap `max_iterations` whose iterates
/// reported `reports`, in order: the steps taken before the first escape,
/// never more than the cap.
pub open spec fn escape_count_spec(max_iterations: nat, reports: Seq<bool>) -> nat {
    if leading_within(reports) < max_iterations {
        leading_within(reports)
    } else {
        max_iterations
    }
}

/// Reporting one more value after a sequence of reports extends the leading
/// run of "within" reports only when every earlier report was "within".
proof fn lemma_leading_within_push(reports: Seq<bool>, within_radius: bool)
    ensures
        leading_within(reports) <= reports.len(),
        leading_within(reports.push(within_radius)) == (if leading_within(reports) == reports.len()
            && within_radius {
            reports.len() + 1int
        } else {
            leading_within(reports) as int
        }),
    decreases reports.len(),
{
    let pushed = reports.push(within_radius);
    assert(pushed[0] == if reports.len() > 0 { reports[0] } else { within_radius });
    if reports.len() > 0 {
        assert(pushed.drop_first() =~= reports.drop_first().push(within_radius));
        lemma_leading_within_push(reports.drop_first(), within_radius);
    } else {
        assert(pushed.drop_first() =~= Seq::<bool>::empty());
        assert(leading_within(pushed.drop_first()) == 0);
    }
}

/// Counts the steps of one escape-time run, stopping at the first escape or
/// at the iteration cap.
pub struct EscapeCounter {
    count: u8,
    max_iterations: u8,
    running: bool,
    reports: Ghost<Seq<bool>>,
}

impl EscapeCounter {
    /// Steps taken so far.
    pub closed spec fn count_spec(&self) -> u8 {
        self.count
    }

    /// The iteration cap.
    pub closed spec fn max_spec(&self) -> u8 {
        self.max_iterations
    }

    /// Whether the run may still take steps.
    pub closed spec fn running_spec(&self) -> bool {
        self.running
    }

    /// The radius reports received so far, in order.
    pub closed spec fn reports_spec(&self) -> Seq<bool> {
        self.reports@
    }

    /// The count is the escape count of the reports so far, and the run goes
    /// on exactly while every report was "within" and the cap still allows
    /// the steps they ask for.
    pub closed spec fn wf(&self) -> bool {
        &&& self.count == escape_count_spec(self.max_iterations as nat, self.reports@)
        &&& self.running == (leading_within(self.reports@) == self.reports@.len()
            && self.reports@.len() <= self.max_iterations)
    }

    /// A run that has taken no step yet.
    pub fn new(max_iterations: u8) -> (c: EscapeCounter)
        ensures
            c.wf(),
            c.count_spec() == 0,
            c.max_spec() == max_iterations,
            c.running_spec(),
            c.reports_spec() == Seq::<bool>::empty(),
    {
        EscapeCounter { count: 0, max_iterations, running: true, reports: Ghost(Seq::empty()) }
    }

    /// Reports whether the current iterate lies within the escape radius and
    /// returns whether one more step is owed. A step is owed while the run
    /// has neither escaped nor reached the cap; once it stops it stays
    /// stopped.
    pub fn advance(&mut self, within_radius: bool) -> (step: bool)
        requires
            old(self).wf(),
        ensures
            final(self).wf(),
            step == (old(self).running_spec() && old(self).count_spec() < old(self).max_spec()
                && within_radius),
            final(self).count_spec() == (if step {
                old(self).count_spec() + 1
            } else {
                old(self).count_spec() as int
            }),
            final(self).running_spec() == step,
            final(self).max_spec() == old(self).max_spec(),
            final(self).reports_spec() == old(self).reports_spec().push(within_radius),
    {
        proof {
            lemma_leading_within_push(self.reports@, within_radius);
        }
        let step = self.running && self.count < self.max_iterations && within_radius;
        if step {
            self.count = self.count + 1;
        }
        self.running = step;
        self.reports = Ghost(self.reports@.push(within_radius));
        step
    }

    /// Steps taken so far: the escape count of the reports received, which
    /// never passes the cap.
    pub fn count(&self) -> (n: u8)
        requires
            self.wf(),
        ensures
            n == self.count_spec(),
            n == escape_count_spec(self.max_spec() as nat, self.reports_spec()),
            n <= self.max_spec(),
    {
        self.count
    }
}

/// The iteration count of a run depends on nothing but its cap and the
/// radius reports of its iterates: two runs that agree on both agree on the
/// count, and the count stays within `[0, max_iterations]`.
pub proof fn lemma_escape_count_determined(
    a: EscapeCounter,
    b: EscapeCounter,
)
    requires
        a.wf(),
        b.wf(),
        a.max_spec() == b.max_spec(),
        a.reports_spec() == b.reports_spec(),
    ensures
        a.count_spec() == b.count_spec(),
        0 <= a.count_spec() <= a.max_spec(),
{
}

} // verus!
