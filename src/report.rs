use vstd::prelude::*;

verus! {

/// The result of running one scenario.
#[derive(Debug, Clone)]
pub struct ConformanceOutcome {
    pub name: String,
    pub passed: bool,
    pub detail: String,
}

/// Number of outcomes in `s` that did not pass.
pub open spec fn count_failed(s: Seq<ConformanceOutcome>) -> nat
    decreases s.len(),
{
    if s.len() == 0 {
        0
    } else {
        count_failed(s.drop_last()) + if s.last().passed { 0nat } else { 1nat }
    }
}

/// No outcome of `s` failed exactly when the count of failures is zero.
pub proof fn lemma_no_failures(s: Seq<ConformanceOutcome>)
    ensures
        count_failed(s) <= s.len(),
        (count_failed(s) == 0) <==> forall|i: int| 0 <= i < s.len() ==> (#[trigger] s[i]).passed,
    decreases s.len(),
{
    if s.len() > 0 {
        lemma_no_failures(s.drop_last());
        assert forall|i: int| 0 <= i < s.len() - 1 implies (#[trigger] s.drop_last()[i]) == s[i] by {}
        if count_failed(s) == 0 {
            assert forall|i: int| 0 <= i < s.len() implies (#[trigger] s[i]).passed by {
                if i < s.len() - 1 {
                    assert(s.drop_last()[i] == s[i]);
                }
            }
        }
    }
}

/// Aggregate of a full catalog run.
#[derive(Debug, Clone)]
pub struct ConformanceReport {
    pub total: usize,
    pub failed: usize,
    pub outcomes: Vec<ConformanceOutcome>,
}

impl ConformanceReport {
    /// Well-formed: the counts agree with the outcomes.
    pub open spec fn wf(&self) -> bool {
        &&& self.total as nat == self.outcomes@.len()
        &&& self.failed as nat == count_failed(self.outcomes@)
    }

    pub fn new(outcomes: Vec<ConformanceOutcome>) -> (r: Self)
        ensures
            r.outcomes@ == outcomes@,
            r.wf(),
    {
        let total = outcomes.len();
        let mut failed: usize = 0;
        let mut i: usize = 0;
        while i < outcomes.len()
            invariant
                i <= outcomes@.len(),
                failed as nat == count_failed(outcomes@.subrange(0, i as int)),
                failed <= i,
            decreases outcomes@.len() - i,
        {
            assert(outcomes@.subrange(0, i as int + 1).drop_last() == outcomes@.subrange(0, i as int));
            if !outcomes[i].passed {
                failed = failed + 1;
            }
            i = i + 1;
        }
        assert(outcomes@.subrange(0, outcomes@.len() as int) == outcomes@);
        ConformanceReport { total, failed, outcomes }
    }

    /// A well-formed report counts at most as many failures as outcomes, and
    /// counts none exactly when every outcome passed.
    pub proof fn lemma_passing_iff_all_passed(&self)
        requires
            self.wf(),
        ensures
            self.failed <= self.total,
            (self.failed == 0) <==> forall|i: int|
                0 <= i < self.outcomes@.len() ==> (#[trigger] self.outcomes@[i]).passed,
    {
        lemma_no_failures(self.outcomes@);
    }

    pub fn is_passing(&self) -> (r: bool)
        ensures
            r == (self.failed == 0),
    {
        self.failed == 0
    }
}

} // verus!
