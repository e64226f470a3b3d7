use vstd::prelude::*;

use crate::report::{count_failed, lemma_no_failures, ConformanceOutcome, ConformanceReport};
use crate::clock::RunIds;
use crate::scenario::{
    catalog, lemma_catalog_names_unique, lemma_catalog_positions, position, reported, Scenario,
};
use crate::transport::ConformanceTransport;
use crate::EXPECTED_PROTOCOL_VERSION;

verus! {

/// The sequence number of the run identifier that the scenario at catalog
/// position `i` draws: the session scenarios, from position 6 on, draw one
/// each, in order.
pub open spec fn draw_of(i: int) -> nat {
    if i <= 6 {
        0
    } else {
        (i - 6) as nat
    }
}

/// Runs the whole catalog, in order, against one transport.
pub struct ConformanceRunner<T: ConformanceTransport> {
    transport: T,
    expected_version: u64,
}

impl<T: ConformanceTransport> ConformanceRunner<T> {
    /// The transport the runner calls.
    pub closed spec fn transport(&self) -> T {
        self.transport
    }

    /// The protocol version the runner expects the gateway to advertise.
    pub closed spec fn expected_version(&self) -> u64 {
        self.expected_version
    }

    /// A runner expecting `EXPECTED_PROTOCOL_VERSION`.
    pub fn new(transport: T) -> (r: Self)
        ensures
            r.transport() == transport,
            r.expected_version() == EXPECTED_PROTOCOL_VERSION,
    {
        ConformanceRunner { transport, expected_version: EXPECTED_PROTOCOL_VERSION }
    }

    /// A runner expecting `expected_version`.
    pub fn with_protocol_version(transport: T, expected_version: u64) -> (r: Self)
        ensures
            r.transport() == transport,
            r.expected_version() == expected_version,
    {
        ConformanceRunner { transport, expected_version }
    }

    /// Runs every scenario once, one after the other; each yields exactly one
    /// outcome, in catalog order.
    pub fn run(&self) -> (r: ConformanceReport)
        ensures
            r.wf(),
            r.total == catalog().len(),
            forall|i: int|
                0 <= i < catalog().len() ==> (#[trigger] r.outcomes@[i]).name@ == catalog()[i].spec_name(),
            forall|i: int, j: int|
                0 <= i < r.outcomes@.len() && 0 <= j < r.outcomes@.len() && i != j
                    ==> #[trigger] r.outcomes@[i].name@ != #[trigger] r.outcomes@[j].name@,
            forall|i: int|
                0 <= i < catalog().len() ==> reported(
                    catalog()[i],
                    self.transport(),
                    self.expected_version(),
                    draw_of(i),
                    #[trigger] r.outcomes@[i],
                ),
            reports_run(r, self.transport(), self.expected_version()),
    {
        proof {
            lemma_catalog_positions();
        }
        let all = Scenario::all();
        let mut ids = RunIds::new();
        let mut outcomes: Vec<ConformanceOutcome> = Vec::new();
        let mut i: usize = 0;
        while i < all.len()
            invariant
                all@ == catalog(),
                i <= all@.len(),
                outcomes@.len() == i,
                forall|j: int| 0 <= j < i ==> (#[trigger] outcomes@[j]).name@ == catalog()[j].spec_name(),
                forall|j: int|
                    0 <= j < i ==> reported(
                        catalog()[j],
                        self.transport,
                        self.expected_version,
                        draw_of(j),
                        #[trigger] outcomes@[j],
                    ),
                ids.next as int == draw_of(i as int),
                forall|k: int| 0 <= k < 17 ==> position(#[trigger] catalog()[k]) == k,
            decreases all@.len() - i,
        {
            let outcome = all[i].run_expecting(&self.transport, self.expected_version, &mut ids);
            outcomes.push(outcome);
            i = i + 1;
        }
        proof {
            lemma_catalog_names_unique();
        }
        let r = ConformanceReport::new(outcomes);
        assert forall|i: int, j: int|
            0 <= i < r.outcomes@.len() && 0 <= j < r.outcomes@.len() && i != j implies
                #[trigger] r.outcomes@[i].name@ != #[trigger] r.outcomes@[j].name@ by {
            assert(catalog()[i].spec_name() != catalog()[j].spec_name());
        }
        r
    }
}

/// Every outcome of `s` that the answers of `t` allow passes: `t` meets the
/// scenario's invariant whatever it answers.
pub open spec fn always_passes<T: ConformanceTransport>(s: Scenario, t: T, expected: u64, seq: nat) -> bool {
    forall|o: ConformanceOutcome| #[trigger] reported(s, t, expected, seq, o) ==> o.passed
}

/// No outcome of `s` that the answers of `t` allow passes: `t` breaks the
/// scenario's invariant whatever it answers.
pub open spec fn never_passes<T: ConformanceTransport>(s: Scenario, t: T, expected: u64, seq: nat) -> bool {
    forall|o: ConformanceOutcome| #[trigger] reported(s, t, expected, seq, o) ==> !o.passed
}

/// `r` reports a run of the catalog against `t`, as `ConformanceRunner::run`
/// ensures.
pub open spec fn reports_run<T: ConformanceTransport>(r: ConformanceReport, t: T, expected: u64) -> bool {
    &&& r.wf()
    &&& r.outcomes@.len() == catalog().len()
    &&& forall|i: int|
        0 <= i < catalog().len() ==> reported(
            catalog()[i],
            t,
            expected,
            draw_of(i),
            #[trigger] r.outcomes@[i],
        )
}

/// Exactly one outcome, the one at `k`, failed.
proof fn lemma_one_failure(s: Seq<ConformanceOutcome>, k: int)
    requires
        0 <= k < s.len(),
        !s[k].passed,
        forall|i: int| 0 <= i < s.len() && i != k ==> (#[trigger] s[i]).passed,
    ensures
        count_failed(s) == 1,
    decreases s.len(),
{
    let rest = s.drop_last();
    assert forall|i: int| 0 <= i < rest.len() && i != k implies (#[trigger] rest[i]).passed by {
        assert(rest[i] == s[i]);
    }
    if k == s.len() - 1 {
        lemma_no_failures(rest);
    } else {
        assert(rest[k] == s[k]);
        lemma_one_failure(rest, k);
    }
}

/// A run against a transport that meets every scenario's invariant reports
/// no failure.
pub proof fn lemma_conforming_gateway_passes<T: ConformanceTransport>(
    r: ConformanceReport,
    t: T,
    expected: u64,
)
    requires
        reports_run(r, t, expected),
        forall|i: int|
            0 <= i < catalog().len() ==> always_passes(catalog()[i], t, expected, draw_of(i)),
    ensures
        r.total == catalog().len(),
        r.failed == 0,
{
    assert forall|i: int| 0 <= i < r.outcomes@.len() implies (#[trigger] r.outcomes@[i]).passed by {
        assert(always_passes(catalog()[i], t, expected, draw_of(i)));
        assert(reported(catalog()[i], t, expected, draw_of(i), r.outcomes@[i]));
    }
    r.lemma_passing_iff_all_passed();
}

/// A run against a transport that breaks the invariant of the scenario at
/// position `k` alone reports that scenario, and no other, as failed.
pub proof fn lemma_one_broken_scenario_fails_alone<T: ConformanceTransport>(
    r: ConformanceReport,
    t: T,
    expected: u64,
    k: int,
)
    requires
        reports_run(r, t, expected),
        0 <= k < catalog().len(),
        never_passes(catalog()[k], t, expected, draw_of(k)),
        forall|i: int|
            0 <= i < catalog().len() && i != k ==> always_passes(
                catalog()[i],
                t,
                expected,
                draw_of(i),
            ),
    ensures
        r.total == catalog().len(),
        r.failed == 1,
        !r.outcomes@[k].passed,
        forall|i: int| 0 <= i < r.outcomes@.len() && i != k ==> (#[trigger] r.outcomes@[i]).passed,
{
    assert(reported(catalog()[k], t, expected, draw_of(k), r.outcomes@[k]));
    assert forall|i: int| 0 <= i < r.outcomes@.len() && i != k implies (
    #[trigger] r.outcomes@[i]).passed by {
        assert(always_passes(catalog()[i], t, expected, draw_of(i)));
        assert(reported(catalog()[i], t, expected, draw_of(i), r.outcomes@[i]));
    }
    lemma_one_failure(r.outcomes@, k);
}

} // verus!
