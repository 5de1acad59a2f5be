//! UBench Score (UBS): a 100-point scale.
//!
//! Each test of the profile contributes a sub-score in 0..=100; the UBS is the
//! weighted average of the sub-scores, rounded to the nearest integer.
//! The sub-score of one measurement follows a logarithmic curve between the
//! test's floor and target; that curve is evaluated in
//! floating point by the caller and reaches this module as an integer.

use vstd::prelude::*;
use crate::profile::{BenchProfile, TestId, TestSpec, TestSpecView, spec_profile_tests};

verus! {

/// Letter grade of a UBS.
#[derive(Debug, Clone, Copy, PartialEq, Eq, Structural)]
pub enum Grade {
    /// Excellent: premium drive, suitable for OS / heavy workload.
    A,
    /// Good: daily driver, fine for most use.
    B,
    /// Acceptable: light use, document storage only.
    C,
    /// Poor: slow, painful for many small files.
    D,
    /// Garbage: likely fake or damaged, do not use.
    F,
}

/// The grade of a UBS; anything outside 25..=100 is F.
pub open spec fn spec_grade(ubs: int) -> Grade {
    if 85 <= ubs <= 100 {
        Grade::A
    } else if 70 <= ubs <= 84 {
        Grade::B
    } else if 50 <= ubs <= 69 {
        Grade::C
    } else if 25 <= ubs <= 49 {
        Grade::D
    } else {
        Grade::F
    }
}

/// Position of a grade from worst (0) to best (4).
pub open spec fn grade_rank(g: Grade) -> int {
    match g {
        Grade::F => 0,
        Grade::D => 1,
        Grade::C => 2,
        Grade::B => 3,
        Grade::A => 4,
    }
}

pub open spec fn spec_grade_label(g: Grade) -> Seq<char> {
    match g {
        Grade::A => "A (Excellent)"@,
        Grade::B => "B (Good)"@,
        Grade::C => "C (Acceptable)"@,
        Grade::D => "D (Poor)"@,
        Grade::F => "F (Garbage)"@,
    }
}

impl Grade {
    pub fn from_ubs(ubs: u32) -> (g: Grade)
        ensures
            g == spec_grade(ubs as int),
    {
        if 85 <= ubs && ubs <= 100 {
            Grade::A
        } else if 70 <= ubs && ubs <= 84 {
            Grade::B
        } else if 50 <= ubs && ubs <= 69 {
            Grade::C
        } else if 25 <= ubs && ubs <= 49 {
            Grade::D
        } else {
            Grade::F
        }
    }

    pub fn label(self) -> (s: &'static str)
        ensures
            s@ == spec_grade_label(self),
    {
        match self {
            Grade::A => "A (Excellent)",
            Grade::B => "B (Good)",
            Grade::C => "C (Acceptable)",
            Grade::D => "D (Poor)",
            Grade::F => "F (Garbage)",
        }
    }
}

/// Reference values of one test: `target` scores 100, `floor` and below
/// score 0 (MB/s for sequential tests, IOPS for random ones); `weight_pct`
/// is the test's weight in the UBS.
#[derive(Debug, Clone, Copy, PartialEq, Eq, Structural)]
pub struct Target {
    pub target: u64,
    pub floor: u64,
    pub weight_pct: u32,
}

/// The reference table of UBench v1.0.
pub open spec fn spec_target(id: TestId) -> Target {
    match id {
        TestId::Seq1mWrite => Target { target: 1000, floor: 5, weight_pct: 15 },
        TestId::Seq1mRead => Target { target: 1000, floor: 10, weight_pct: 10 },
        TestId::Rnd4kWrite => Target { target: 15000, floor: 5, weight_pct: 25 },
        TestId::Rnd4kRead => Target { target: 15000, floor: 30, weight_pct: 35 },
        TestId::Sustained60sWrite => Target { target: 500, floor: 2, weight_pct: 10 },
        TestId::ColdStartRead => Target { target: 5000, floor: 30, weight_pct: 5 },
    }
}

/// The reference values of a test.
pub fn target_for(test_id: TestId) -> (t: Target)
    ensures
        t == spec_target(test_id),
{
    match test_id {
        TestId::Seq1mWrite => Target { target: 1000, floor: 5, weight_pct: 15 },
        TestId::Seq1mRead => Target { target: 1000, floor: 10, weight_pct: 10 },
        TestId::Rnd4kWrite => Target { target: 15000, floor: 5, weight_pct: 25 },
        TestId::Rnd4kRead => Target { target: 15000, floor: 30, weight_pct: 35 },
        TestId::Sustained60sWrite => Target { target: 500, floor: 2, weight_pct: 10 },
        TestId::ColdStartRead => Target { target: 5000, floor: 30, weight_pct: 5 },
    }
}

/// One measurement of a run, with the sub-score that its median earned.
#[derive(Debug, Clone, Copy, PartialEq, Eq, Structural)]
pub struct ScoredMeasurement {
    pub test_id: TestId,
    pub score: u32,
}

/// The score of one test of the profile.
#[derive(Debug, Clone)]
pub struct SubScore {
    pub test_id: TestId,
    pub label: String,
    /// Index of the measurement that was scored; `None` when the test failed.
    pub measurement: Option<usize>,
    /// The 100-point value.
    pub target: u64,
    /// Weight in the UBS, in percent.
    pub weight_pct: u32,
    pub score: u32,
}

/// The aggregated result.
#[derive(Debug, Clone)]
pub struct UBenchScore {
    /// Final UBS, 0..=100.
    pub ubs: u32,
    pub grade: Grade,
    pub sub_scores: Vec<SubScore>,
    pub formula_version: String,
}

/// The version of the scoring formula.
pub open spec fn spec_formula_version() -> Seq<char> {
    "UBench-v1.0"@
}

/// Index of the last measurement of test `id` among the first `n` of `ms`
/// (a later measurement of the same test replaces an earlier one).
pub open spec fn last_match_upto(ms: Seq<ScoredMeasurement>, id: TestId, n: int) -> Option<int>
    decreases n,
{
    if n <= 0 {
        None
    } else if ms[n - 1].test_id == id {
        Some(n - 1)
    } else {
        last_match_upto(ms, id, n - 1)
    }
}

pub open spec fn last_match(ms: Seq<ScoredMeasurement>, id: TestId) -> Option<int> {
    last_match_upto(ms, id, ms.len() as int)
}

/// The sub-score of test `id`: that of its last measurement, 0 when it has none.
pub open spec fn spec_sub_score(ms: Seq<ScoredMeasurement>, id: TestId) -> nat {
    match last_match(ms, id) {
        Some(j) => ms[j].score as nat,
        None => 0,
    }
}

/// Sum of weight * sub-score over the first `n` tests of `tests`.
pub open spec fn weighted_total(tests: Seq<TestSpecView>, ms: Seq<ScoredMeasurement>, n: int) -> nat
    decreases n,
{
    if n <= 0 {
        0
    } else {
        weighted_total(tests, ms, n - 1) + spec_target(tests[n - 1].id).weight_pct as nat
            * spec_sub_score(ms, tests[n - 1].id)
    }
}

/// Sum of the weights of the first `n` tests of `tests`.
pub open spec fn weight_sum(tests: Seq<TestSpecView>, n: int) -> nat
    decreases n,
{
    if n <= 0 {
        0
    } else {
        weight_sum(tests, n - 1) + spec_target(tests[n - 1].id).weight_pct as nat
    }
}

/// `a / b` rounded to the nearest integer, halves rounded up.
pub open spec fn round_div(a: nat, b: nat) -> nat
    recommends
        b > 0,
{
    (2 * a + b) / (2 * b)
}

/// UBS = round(sum(sub_score * weight) / sum(weight)), clamped to 0..=100
///; 0 when the weights sum to 0.
pub open spec fn spec_ubs(p: BenchProfile, ms: Seq<ScoredMeasurement>) -> nat {
    let tests = spec_profile_tests(p);
    let total = weighted_total(tests, ms, tests.len() as int);
    let used = weight_sum(tests, tests.len() as int);
    if used > 0 {
        let r = round_div(total, used);
        if r > 100 { 100 } else { r }
    } else {
        0
    }
}

/// The index of the last measurement of test `id`.
fn find_last(ms: &Vec<ScoredMeasurement>, id: TestId) -> (r: Option<usize>)
    ensures
        match r {
            Some(j) => j < ms@.len() && last_match(ms@, id) == Some(j as int),
            None => last_match(ms@, id) is None,
        },
{
    let mut i: usize = ms.len();
    while i > 0
        invariant
            i <= ms.len(),
            forall|k: int| i <= k < ms.len() ==> (#[trigger] ms@[k]).test_id != id,
            last_match(ms@, id) == last_match_upto(ms@, id, i as int),
        decreases i,
    {
        if ms[i - 1].test_id == id {
            return Some(i - 1);
        }
        i = i - 1;
    }
    None
}

/// Score every test of the profile from the measurements of a run: a test
/// takes the sub-score of its last measurement, a test without a measurement
/// (it failed) scores 0. Then the UBS and the grade.
pub fn score_report(profile: BenchProfile, measurements: &Vec<ScoredMeasurement>) -> (res: UBenchScore)
    ensures
        res.sub_scores@.len() == spec_profile_tests(profile).len(),
        forall|i: int| 0 <= i < res.sub_scores@.len() ==> {
            let s = #[trigger] res.sub_scores@[i];
            let t = spec_profile_tests(profile)[i];
            &&& s.test_id == t.id
            &&& s.label@ == t.label
            &&& s.target == spec_target(t.id).target
            &&& s.weight_pct == spec_target(t.id).weight_pct
            &&& s.score == spec_sub_score(measurements@, t.id)
            &&& match s.measurement {
                Some(j) => last_match(measurements@, t.id) == Some(j as int),
                None => last_match(measurements@, t.id) is None,
            }
        },
        res.ubs == spec_ubs(profile, measurements@),
        res.grade == spec_grade(res.ubs as int),
        res.formula_version@ == spec_formula_version(),
{
    let tests = profile.tests();
    let ghost tv = tests@.map_values(|t: TestSpec| t@);
    let mut sub_scores: Vec<SubScore> = Vec::new();
    let mut weighted: u64 = 0;
    let mut used: u64 = 0;
    let mut i: usize = 0;
    assert(tv.len() <= 6);
    while i < tests.len()
        invariant
            tv == spec_profile_tests(profile),
            tv == tests@.map_values(|t: TestSpec| t@),
            tv.len() == tests@.len(),
            tests@.len() <= 6,
            i <= tests.len(),
            sub_scores@.len() == i,
            weighted == weighted_total(tv, measurements@, i as int),
            used == weight_sum(tv, i as int),
            weighted <= i * 35 * 0xffff_ffff,
            used <= i * 35,
            forall|k: int| 0 <= k < i ==> {
                let s = #[trigger] sub_scores@[k];
                let t = tv[k];
                &&& s.test_id == t.id
                &&& s.label@ == t.label
                &&& s.target == spec_target(t.id).target
                &&& s.weight_pct == spec_target(t.id).weight_pct
                &&& s.score == spec_sub_score(measurements@, t.id)
                &&& match s.measurement {
                    Some(j) => last_match(measurements@, t.id) == Some(j as int),
                    None => last_match(measurements@, t.id) is None,
                }
            },
        decreases tests.len() - i,
    {
        let spec = tests[i];
        assert(tv[i as int] == spec@);
        let target = target_for(spec.id);
        let found = find_last(measurements, spec.id);
        let score: u32 = match found {
            Some(j) => measurements[j].score,
            None => 0,
        };
        assert(target.weight_pct <= 35);
        assert(score as u64 * target.weight_pct as u64 <= 35 * 0xffff_ffff) by (nonlinear_arith)
            requires
                target.weight_pct <= 35,
                score <= 0xffff_ffff,
        ;
        weighted = weighted + score as u64 * target.weight_pct as u64;
        used = used + target.weight_pct as u64;
        assert(weighted_total(tv, measurements@, i + 1) == weighted_total(tv, measurements@, i as int)
            + spec_target(tv[i as int].id).weight_pct as nat * spec_sub_score(measurements@, tv[i as int].id));
        sub_scores.push(SubScore {
            test_id: spec.id,
            label: String::from_str(spec.label),
            measurement: found,
            target: target.target,
            weight_pct: target.weight_pct,
            score,
        });
        i = i + 1;
    }
    let ubs: u32 = if used > 0 {
        let r = (2 * weighted + used) / (2 * used);
        if r > 100 { 100 } else { r as u32 }
    } else {
        0
    };
    UBenchScore {
        ubs,
        grade: Grade::from_ubs(ubs),
        sub_scores,
        formula_version: String::from_str("UBench-v1.0"),
    }
}

/// The weights of the full profile add up to 100.
/// The quick profile leaves the sustained and cold-start tests out, so its
/// weights add up to 85; the UBS divides by that sum, so it stays an
/// average on both.
pub proof fn lemma_weight_sums()
    ensures
        ({
            let t = spec_profile_tests(BenchProfile::Full);
            weight_sum(t, t.len() as int) == 100
        }),
        ({
            let t = spec_profile_tests(BenchProfile::Quick);
            weight_sum(t, t.len() as int) == 85
        }),
{
    let t = spec_profile_tests(BenchProfile::Full);
    reveal_with_fuel(weight_sum, 7);
    let q = spec_profile_tests(BenchProfile::Quick);
    assert(weight_sum(t, t.len() as int) == 100);
    assert(weight_sum(q, q.len() as int) == 85);
}

proof fn lemma_totals_monotone(
    tests: Seq<TestSpecView>,
    ms1: Seq<ScoredMeasurement>,
    ms2: Seq<ScoredMeasurement>,
    n: int,
)
    requires
        0 <= n <= tests.len(),
        forall|i: int| 0 <= i < tests.len() ==> spec_sub_score(ms1, #[trigger] tests[i].id)
            <= spec_sub_score(ms2, tests[i].id),
    ensures
        weighted_total(tests, ms1, n) <= weighted_total(tests, ms2, n),
    decreases n,
{
    if n > 0 {
        lemma_totals_monotone(tests, ms1, ms2, n - 1);
        let w = spec_target(tests[n - 1].id).weight_pct as nat;
        let a = spec_sub_score(ms1, tests[n - 1].id);
        let b = spec_sub_score(ms2, tests[n - 1].id);
        assert(w * a <= w * b) by (nonlinear_arith)
            requires
                a <= b,
        ;
    }
}

proof fn lemma_round_div_monotone(a: nat, b: nat, d: nat)
    requires
        a <= b,
        d > 0,
    ensures
        round_div(a, d) <= round_div(b, d),
{
    assert((2 * a + d) / (2 * d) <= (2 * b + d) / (2 * d)) by (nonlinear_arith)
        requires
            a <= b,
            d > 0,
    ;
}

/// Better sub-scores never lower the UBS: if every test of the profile
/// scores at least as much in the second run as in the first, so does the UBS.
pub proof fn lemma_ubs_monotone(p: BenchProfile, ms1: Seq<ScoredMeasurement>, ms2: Seq<ScoredMeasurement>)
    requires
        forall|i: int|
            0 <= i < spec_profile_tests(p).len() ==> spec_sub_score(
                ms1,
                #[trigger] spec_profile_tests(p)[i].id,
            ) <= spec_sub_score(ms2, spec_profile_tests(p)[i].id),
    ensures
        spec_ubs(p, ms1) <= spec_ubs(p, ms2),
{
    let t = spec_profile_tests(p);
    lemma_totals_monotone(t, ms1, ms2, t.len() as int);
    let used = weight_sum(t, t.len() as int);
    if used > 0 {
        lemma_round_div_monotone(
            weighted_total(t, ms1, t.len() as int),
            weighted_total(t, ms2, t.len() as int),
            used,
        );
    }
}

proof fn lemma_total_bounded(tests: Seq<TestSpecView>, ms: Seq<ScoredMeasurement>, n: int, cap: nat)
    requires
        0 <= n <= tests.len(),
        forall|i: int| 0 <= i < tests.len() ==> spec_sub_score(ms, #[trigger] tests[i].id) <= cap,
    ensures
        weighted_total(tests, ms, n) <= cap * weight_sum(tests, n),
    decreases n,
{
    if n > 0 {
        lemma_total_bounded(tests, ms, n - 1, cap);
        let w = spec_target(tests[n - 1].id).weight_pct as nat;
        let a = spec_sub_score(ms, tests[n - 1].id);
        assert(w * a <= cap * w) by (nonlinear_arith)
            requires
                a <= cap,
        ;
        assert(cap * weight_sum(tests, n) == cap * weight_sum(tests, n - 1) + cap * w)
            by (nonlinear_arith)
            requires
                weight_sum(tests, n) == weight_sum(tests, n - 1) + w,
        ;
    } else {
        assert(cap * 0 == 0) by (nonlinear_arith);
    }
}

proof fn lemma_total_exact(tests: Seq<TestSpecView>, ms: Seq<ScoredMeasurement>, n: int, v: nat)
    requires
        0 <= n <= tests.len(),
        forall|i: int| 0 <= i < tests.len() ==> spec_sub_score(ms, #[trigger] tests[i].id) == v,
    ensures
        weighted_total(tests, ms, n) == v * weight_sum(tests, n),
    decreases n,
{
    if n > 0 {
        lemma_total_exact(tests, ms, n - 1, v);
        let w = spec_target(tests[n - 1].id).weight_pct as nat;
        assert(spec_sub_score(ms, tests[n - 1].id) == v);
        assert(w * v + v * weight_sum(tests, n - 1) == v * weight_sum(tests, n))
            by (nonlinear_arith)
            requires
                weight_sum(tests, n) == weight_sum(tests, n - 1) + w,
        ;
    } else {
        assert(v * 0 == 0) by (nonlinear_arith);
    }
}

/// Sub-scores never exceed 100 (the logarithmic curve is clamped), and then
/// the rounded weighted average never exceeds 100 either: the final clamp of
/// the UBS only guards against sub-scores outside that range.
pub proof fn lemma_average_within_range(p: BenchProfile, ms: Seq<ScoredMeasurement>)
    requires
        forall|i: int|
            0 <= i < spec_profile_tests(p).len() ==> spec_sub_score(
                ms,
                #[trigger] spec_profile_tests(p)[i].id,
            ) <= 100,
    ensures
        ({
            let t = spec_profile_tests(p);
            round_div(weighted_total(t, ms, t.len() as int), weight_sum(t, t.len() as int)) <= 100
        }),
{
    let t = spec_profile_tests(p);
    lemma_weight_sums();
    lemma_total_bounded(t, ms, t.len() as int, 100);
    let total = weighted_total(t, ms, t.len() as int);
    let used = weight_sum(t, t.len() as int);
    assert(used > 0);
    assert((2 * total + used) / (2 * used) <= 100) by (nonlinear_arith)
        requires
            total <= 100 * used,
            used > 0,
    ;
}

/// A drive that reaches every target scores UBS 100, grade A.
pub proof fn lemma_perfect_drive(p: BenchProfile, ms: Seq<ScoredMeasurement>)
    requires
        forall|i: int|
            0 <= i < spec_profile_tests(p).len() ==> spec_sub_score(
                ms,
                #[trigger] spec_profile_tests(p)[i].id,
            ) == 100,
    ensures
        spec_ubs(p, ms) == 100,
        spec_grade(spec_ubs(p, ms) as int) == Grade::A,
{
    let t = spec_profile_tests(p);
    lemma_weight_sums();
    lemma_total_exact(t, ms, t.len() as int, 100);
    let used = weight_sum(t, t.len() as int);
    assert((2 * (100 * used) + used) / (2 * used) == 100) by (nonlinear_arith)
        requires
            used > 0,
    ;
}

/// A run in which every test failed (no measurement) scores UBS 0, grade F.
pub proof fn lemma_all_tests_failed(p: BenchProfile)
    ensures
        spec_ubs(p, Seq::empty()) == 0,
        spec_grade(spec_ubs(p, Seq::empty()) as int) == Grade::F,
{
    let t = spec_profile_tests(p);
    let ms = Seq::<ScoredMeasurement>::empty();
    assert forall|i: int| 0 <= i < t.len() implies spec_sub_score(ms, #[trigger] t[i].id) == 0 by {
        assert(last_match_upto(ms, t[i].id, 0) is None);
    }
    lemma_weight_sums();
    lemma_total_exact(t, ms, t.len() as int, 0);
    let used = weight_sum(t, t.len() as int);
    assert((2 * (0 * used) + used) / (2 * used) == 0) by (nonlinear_arith)
        requires
            used > 0,
    ;
}

/// On 0..=100 a higher UBS never has a worse grade.
pub proof fn lemma_grade_monotone(a: int, b: int)
    requires
        0 <= a <= b <= 100,
    ensures
        grade_rank(spec_grade(a)) <= grade_rank(spec_grade(b)),
{
}


proof fn lemma_last_match_prefix(ms: Seq<ScoredMeasurement>, x: ScoredMeasurement, id: TestId, n: int)
    requires
        0 <= n <= ms.len(),
    ensures
        last_match_upto(ms.push(x), id, n) == last_match_upto(ms, id, n),
        last_match_upto(ms, id, n) matches Some(j) ==> 0 <= j < n,
    decreases n,
{
    if n > 0 {
        lemma_last_match_prefix(ms, x, id, n - 1);
    }
}

/// A measurement for a test that had none never lowers the UBS: the test's
/// sub-score rises from 0 to the new measurement's score, and every other
/// test keeps its own.
pub proof fn lemma_new_measurement_never_lowers_ubs(
    p: BenchProfile,
    ms: Seq<ScoredMeasurement>,
    m: ScoredMeasurement,
)
    requires
        last_match(ms, m.test_id) is None,
    ensures
        spec_sub_score(ms.push(m), m.test_id) == m.score,
        forall|id: TestId| id != m.test_id ==> #[trigger] spec_sub_score(ms.push(m), id)
            == spec_sub_score(ms, id),
        spec_ubs(p, ms) <= spec_ubs(p, ms.push(m)),
{
    let ms2 = ms.push(m);
    assert forall|id: TestId| id != m.test_id implies #[trigger] spec_sub_score(ms2, id)
        == spec_sub_score(ms, id) by {
        lemma_last_match_prefix(ms, m, id, ms.len() as int);
        assert(last_match(ms2, id) == last_match_upto(ms2, id, ms.len() as int));
        match last_match(ms, id) {
            Some(j) => {
                assert(ms2[j] == ms[j]);
            },
            None => {},
        }
    }
    let t = spec_profile_tests(p);
    assert forall|i: int| 0 <= i < t.len() implies spec_sub_score(ms, #[trigger] t[i].id)
        <= spec_sub_score(ms2, t[i].id) by {
        if t[i].id != m.test_id {
            assert(spec_sub_score(ms2, t[i].id) == spec_sub_score(ms, t[i].id));
        }
    }
    lemma_ubs_monotone(p, ms, ms2);
}


/// The grade table of the specification: 85-100 is A, 70-84 B, 50-69 C,
/// 25-49 D and 0-24 F.
pub proof fn lemma_grade_table(ubs: int)
    requires
        0 <= ubs <= 100,
    ensures
        spec_grade(ubs) == Grade::A <==> 85 <= ubs,
        spec_grade(ubs) == Grade::B <==> 70 <= ubs < 85,
        spec_grade(ubs) == Grade::C <==> 50 <= ubs < 70,
        spec_grade(ubs) == Grade::D <==> 25 <= ubs < 50,
        spec_grade(ubs) == Grade::F <==> ubs < 25,
{
}

/// The reference table of the specification (floor scores 0, target 100,
/// weight in percent): SEQ1M write 5 / 1000 MB/s, 15%; SEQ1M read 10 / 1000
/// MB/s, 10%; RND4K write 5 / 15000 IOPS, 25%; RND4K read 30 / 15000 IOPS,
/// 35%; sustained write 2 / 500 MB/s, 10%; cold-start read 30 / 5000 IOPS,
/// 5%. Every floor lies below its target.
pub proof fn lemma_reference_table(id: TestId)
    ensures
        id == TestId::Seq1mWrite ==> spec_target(id).floor == 5 && spec_target(id).target == 1000
            && spec_target(id).weight_pct == 15,
        id == TestId::Seq1mRead ==> spec_target(id).floor == 10 && spec_target(id).target == 1000
            && spec_target(id).weight_pct == 10,
        id == TestId::Rnd4kWrite ==> spec_target(id).floor == 5 && spec_target(id).target == 15000
            && spec_target(id).weight_pct == 25,
        id == TestId::Rnd4kRead ==> spec_target(id).floor == 30 && spec_target(id).target == 15000
            && spec_target(id).weight_pct == 35,
        id == TestId::Sustained60sWrite ==> spec_target(id).floor == 2 && spec_target(id).target
            == 500 && spec_target(id).weight_pct == 10,
        id == TestId::ColdStartRead ==> spec_target(id).floor == 30 && spec_target(id).target
            == 5000 && spec_target(id).weight_pct == 5,
        0 < spec_target(id).floor < spec_target(id).target,
{
}

} // verus!
