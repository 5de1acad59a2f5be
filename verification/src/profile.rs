//! The UBench v1.0 standard test profiles.
//!
//! The numbers below are the specification: changing them makes scores
//! incomparable across runs.

use vstd::prelude::*;
use crate::text::{ascii_lower, lower_equals};

verus! {

/// Benchmark profile.
#[derive(Debug, Clone, Copy, PartialEq, Eq, Structural)]
pub enum BenchProfile {
    /// About one minute: the four core tests.
    Quick,
    /// About ten minutes: the full standard benchmark (recommended for scoring).
    Full,
}

/// Identifier of one standard test.
#[derive(Debug, Clone, Copy, PartialEq, Eq, Hash, Structural)]
pub enum TestId {
    Seq1mRead,
    Seq1mWrite,
    Rnd4kRead,
    Rnd4kWrite,
    Sustained60sWrite,
    ColdStartRead,
}

/// Sequential or random access.
#[derive(Debug, Clone, Copy, PartialEq, Eq, Structural)]
pub enum AccessPattern {
    Sequential,
    Random,
}

/// Read or write.
#[derive(Debug, Clone, Copy, PartialEq, Eq, Structural)]
pub enum Op {
    Read,
    Write,
}

/// One test of a profile.
#[derive(Debug, Clone, Copy)]
pub struct TestSpec {
    pub id: TestId,
    /// Human label, e.g. "SEQ1M Q1T1 Read".
    pub label: &'static str,
    /// Block size in bytes (a multiple of the sector size).
    pub block_size: usize,
    /// Sequential or random.
    pub access: AccessPattern,
    /// Read or write.
    pub op: Op,
    /// Working-set (test file) size in bytes.
    pub working_set: u64,
    /// Time budget in seconds; a test stops at the first of: budget spent,
    /// working set done.
    pub duration_secs: u64,
    /// Number of runs; the first one is a discarded warm-up.
    pub repeat: u32,
}

/// The mathematical content of a [`TestSpec`].
pub struct TestSpecView {
    pub id: TestId,
    pub label: Seq<char>,
    pub block_size: nat,
    pub access: AccessPattern,
    pub op: Op,
    pub working_set: nat,
    pub duration_secs: nat,
    pub repeat: nat,
}

impl View for TestSpec {
    type V = TestSpecView;

    open spec fn view(&self) -> TestSpecView {
        TestSpecView {
            id: self.id,
            label: self.label@,
            block_size: self.block_size as nat,
            access: self.access,
            op: self.op,
            working_set: self.working_set as nat,
            duration_secs: self.duration_secs as nat,
            repeat: self.repeat as nat,
        }
    }
}

/// One mebibyte.
pub const MB: u64 = 1024 * 1024;

/// The label shown for each test.
pub open spec fn spec_test_label(id: TestId) -> Seq<char> {
    match id {
        TestId::Seq1mWrite => "SEQ1M Q1T1 Write"@,
        TestId::Seq1mRead => "SEQ1M Q1T1 Read"@,
        TestId::Rnd4kWrite => "RND4K Q1T1 Write"@,
        TestId::Rnd4kRead => "RND4K Q1T1 Read"@,
        TestId::Sustained60sWrite => "Sustained 60s Write (SLC cache exhaustion)"@,
        TestId::ColdStartRead => "Cold-start First-byte Read Latency"@,
    }
}

/// The specification row of one test: label, block size, pattern and operation.
pub open spec fn spec_row(
    id: TestId,
    block_size: nat,
    access: AccessPattern,
    op: Op,
    working_set: nat,
    duration_secs: nat,
    repeat: nat,
) -> TestSpecView {
    TestSpecView {
        id,
        label: spec_test_label(id),
        block_size,
        access,
        op,
        working_set,
        duration_secs,
        repeat,
    }
}

/// The tests of a profile, in the order in which they run.
pub open spec fn spec_profile_tests(p: BenchProfile) -> Seq<TestSpecView> {
    let mb: nat = 1048576;
    match p {
        BenchProfile::Quick => seq![
            spec_row(TestId::Seq1mWrite, mb, AccessPattern::Sequential, Op::Write, 256 * mb, 5, 3),
            spec_row(TestId::Seq1mRead, mb, AccessPattern::Sequential, Op::Read, 256 * mb, 5, 3),
            spec_row(TestId::Rnd4kWrite, 4096, AccessPattern::Random, Op::Write, 256 * mb, 5, 3),
            spec_row(TestId::Rnd4kRead, 4096, AccessPattern::Random, Op::Read, 256 * mb, 5, 3),
        ],
        BenchProfile::Full => seq![
            spec_row(TestId::Seq1mWrite, mb, AccessPattern::Sequential, Op::Write, 1024 * mb, 5, 5),
            spec_row(TestId::Seq1mRead, mb, AccessPattern::Sequential, Op::Read, 1024 * mb, 5, 5),
            spec_row(TestId::Rnd4kWrite, 4096, AccessPattern::Random, Op::Write, 1024 * mb, 5, 5),
            spec_row(TestId::Rnd4kRead, 4096, AccessPattern::Random, Op::Read, 1024 * mb, 5, 5),
            spec_row(
                TestId::Sustained60sWrite,
                mb,
                AccessPattern::Sequential,
                Op::Write,
                8 * 1024 * mb,
                60,
                1,
            ),
            spec_row(TestId::ColdStartRead, 4096, AccessPattern::Random, Op::Read, 16 * mb, 1, 3),
        ],
    }
}

/// The name of a profile.
pub open spec fn spec_profile_name(p: BenchProfile) -> Seq<char> {
    match p {
        BenchProfile::Quick => "quick"@,
        BenchProfile::Full => "full"@,
    }
}

/// What `BenchProfile::parse` accepts: "quick" / "q" and "full" / "f",
/// in any ASCII letter case.
pub open spec fn spec_parse_profile(s: Seq<char>) -> Option<BenchProfile> {
    let l = ascii_lower(s);
    if l == "quick"@ || l == "q"@ {
        Some(BenchProfile::Quick)
    } else if l == "full"@ || l == "f"@ {
        Some(BenchProfile::Full)
    } else {
        None
    }
}

/// The identifier string of a test, as used in reports.
pub open spec fn spec_test_id_name(id: TestId) -> Seq<char> {
    match id {
        TestId::Seq1mRead => "SEQ1M_READ"@,
        TestId::Seq1mWrite => "SEQ1M_WRITE"@,
        TestId::Rnd4kRead => "RND4K_READ"@,
        TestId::Rnd4kWrite => "RND4K_WRITE"@,
        TestId::Sustained60sWrite => "SUSTAINED_60S_WRITE"@,
        TestId::ColdStartRead => "COLD_START_READ"@,
    }
}

fn make_spec(
    id: TestId,
    block_size: usize,
    access: AccessPattern,
    op: Op,
    working_set: u64,
    duration_secs: u64,
    repeat: u32,
) -> (t: TestSpec)
    ensures
        t@ == spec_row(
            id,
            block_size as nat,
            access,
            op,
            working_set as nat,
            duration_secs as nat,
            repeat as nat,
        ),
{
    let label: &'static str = match id {
        TestId::Seq1mWrite => "SEQ1M Q1T1 Write",
        TestId::Seq1mRead => "SEQ1M Q1T1 Read",
        TestId::Rnd4kWrite => "RND4K Q1T1 Write",
        TestId::Rnd4kRead => "RND4K Q1T1 Read",
        TestId::Sustained60sWrite => "Sustained 60s Write (SLC cache exhaustion)",
        TestId::ColdStartRead => "Cold-start First-byte Read Latency",
    };
    TestSpec { id, label, block_size, access, op, working_set, duration_secs, repeat }
}

impl BenchProfile {
    /// "quick" or "full".
    pub fn as_str(self) -> (s: &'static str)
        ensures
            s@ == spec_profile_name(self),
    {
        match self {
            BenchProfile::Quick => "quick",
            BenchProfile::Full => "full",
        }
    }

    /// Parse a profile name, ignoring ASCII case; "q" and "f" are accepted too.
    pub fn parse(s: &str) -> (r: Option<BenchProfile>)
        ensures
            r == spec_parse_profile(s@),
    {
        if lower_equals(s, "quick") || lower_equals(s, "q") {
            Some(BenchProfile::Quick)
        } else if lower_equals(s, "full") || lower_equals(s, "f") {
            Some(BenchProfile::Full)
        } else {
            None
        }
    }

    /// The tests of this profile, in the order in which they run.
    pub fn tests(self) -> (v: Vec<TestSpec>)
        ensures
            v@.map_values(|t: TestSpec| t@) == spec_profile_tests(self),
    {
        match self {
            BenchProfile::Quick => {
                let v = vec![
                    make_spec(TestId::Seq1mWrite, 1024 * 1024, AccessPattern::Sequential, Op::Write, 256 * MB, 5, 3),
                    make_spec(TestId::Seq1mRead, 1024 * 1024, AccessPattern::Sequential, Op::Read, 256 * MB, 5, 3),
                    make_spec(TestId::Rnd4kWrite, 4 * 1024, AccessPattern::Random, Op::Write, 256 * MB, 5, 3),
                    make_spec(TestId::Rnd4kRead, 4 * 1024, AccessPattern::Random, Op::Read, 256 * MB, 5, 3),
                ];
                assert(v@.map_values(|t: TestSpec| t@) =~= spec_profile_tests(self));
                v
            },
            BenchProfile::Full => {
                let v = vec![
                    make_spec(TestId::Seq1mWrite, 1024 * 1024, AccessPattern::Sequential, Op::Write, 1024 * MB, 5, 5),
                    make_spec(TestId::Seq1mRead, 1024 * 1024, AccessPattern::Sequential, Op::Read, 1024 * MB, 5, 5),
                    make_spec(TestId::Rnd4kWrite, 4 * 1024, AccessPattern::Random, Op::Write, 1024 * MB, 5, 5),
                    make_spec(TestId::Rnd4kRead, 4 * 1024, AccessPattern::Random, Op::Read, 1024 * MB, 5, 5),
                    make_spec(TestId::Sustained60sWrite, 1024 * 1024, AccessPattern::Sequential, Op::Write, 8 * 1024 * MB, 60, 1),
                    make_spec(TestId::ColdStartRead, 4 * 1024, AccessPattern::Random, Op::Read, 16 * MB, 1, 3),
                ];
                assert(v@.map_values(|t: TestSpec| t@) =~= spec_profile_tests(self));
                v
            },
        }
    }
}

impl TestId {
    /// The identifier string of the test, e.g. "SEQ1M_READ".
    pub fn as_str(self) -> (s: &'static str)
        ensures
            s@ == spec_test_id_name(self),
    {
        match self {
            TestId::Seq1mRead => "SEQ1M_READ",
            TestId::Seq1mWrite => "SEQ1M_WRITE",
            TestId::Rnd4kRead => "RND4K_READ",
            TestId::Rnd4kWrite => "RND4K_WRITE",
            TestId::Sustained60sWrite => "SUSTAINED_60S_WRITE",
            TestId::ColdStartRead => "COLD_START_READ",
        }
    }
}

/// `BenchProfile::parse` reads back what `BenchProfile::as_str` writes.
pub proof fn lemma_parse_as_str_roundtrip(p: BenchProfile)
    ensures
        spec_parse_profile(spec_profile_name(p)) == Some(p),
{
    reveal_strlit("quick");
    reveal_strlit("full");
    reveal_strlit("q");
    reveal_strlit("f");
    let n = spec_profile_name(p);
    assert(ascii_lower(n) =~= n);
}

/// Every test of a profile uses whole sectors (direct I/O accepts its
/// buffers) and has a working set of at least one block.
pub proof fn lemma_profile_tests_sector_aligned(p: BenchProfile)
    ensures
        forall|i: int| 0 <= i < spec_profile_tests(p).len() ==> {
            &&& (#[trigger] spec_profile_tests(p)[i]).block_size % 4096 == 0
            &&& spec_profile_tests(p)[i].block_size > 0
            &&& spec_profile_tests(p)[i].working_set >= spec_profile_tests(p)[i].block_size
        },
{
}

/// No test runs twice in a profile.
pub proof fn lemma_profile_test_ids_distinct(p: BenchProfile)
    ensures
        forall|i: int, j: int|
            0 <= i < j < spec_profile_tests(p).len() ==> (#[trigger] spec_profile_tests(p)[i]).id
                != (#[trigger] spec_profile_tests(p)[j]).id,
{
}

/// The full profile starts with the four tests of the quick profile (same
/// tests, block sizes, patterns and operations) and adds two.
pub proof fn lemma_full_extends_quick()
    ensures
        spec_profile_tests(BenchProfile::Quick).len() == 4,
        spec_profile_tests(BenchProfile::Full).len() == 6,
        forall|i: int| 0 <= i < 4 ==> {
            let q = #[trigger] spec_profile_tests(BenchProfile::Quick)[i];
            let f = spec_profile_tests(BenchProfile::Full)[i];
            q.id == f.id && q.label == f.label && q.block_size == f.block_size && q.access
                == f.access && q.op == f.op
        },
{
}

/// Distinct tests have distinct identifier strings.
pub proof fn lemma_test_id_names_distinct(a: TestId, b: TestId)
    requires
        a != b,
    ensures
        spec_test_id_name(a) != spec_test_id_name(b),
{
    reveal_strlit("SEQ1M_READ");
    reveal_strlit("SEQ1M_WRITE");
    reveal_strlit("RND4K_READ");
    reveal_strlit("RND4K_WRITE");
    reveal_strlit("SUSTAINED_60S_WRITE");
    reveal_strlit("COLD_START_READ");
    let x = spec_test_id_name(a);
    let y = spec_test_id_name(b);
    if x.len() == y.len() {
        assert(x[0] != y[0] || x[1] != y[1] || x[6] != y[6] || x[7] != y[7]);
    }
}


/// Every test's operation, pattern and block size agree with what it is:
/// the write tests (SEQ1M write, RND4K write, sustained write) write and the
/// others read; the SEQ1M and sustained tests are sequential with 1 MiB
/// blocks, the RND4K and cold-start tests random with 4 KiB blocks.
pub proof fn lemma_profile_tests_match_their_ids(p: BenchProfile)
    ensures
        forall|i: int| 0 <= i < spec_profile_tests(p).len() ==> {
            let t = #[trigger] spec_profile_tests(p)[i];
            &&& (t.op == Op::Write <==> (t.id == TestId::Seq1mWrite || t.id == TestId::Rnd4kWrite
                || t.id == TestId::Sustained60sWrite))
            &&& (t.op == Op::Read <==> (t.id == TestId::Seq1mRead || t.id == TestId::Rnd4kRead
                || t.id == TestId::ColdStartRead))
            &&& (t.access == AccessPattern::Sequential <==> (t.id == TestId::Seq1mWrite || t.id
                == TestId::Seq1mRead || t.id == TestId::Sustained60sWrite))
            &&& (t.access == AccessPattern::Sequential ==> t.block_size == 1048576)
            &&& (t.access == AccessPattern::Random ==> t.block_size == 4096)
        },
{
}

/// The profiles of the UBench v1.0 specification: the tests in order, and
/// each test's working set, time budget and repeat count.
/// Quick: SEQ1M write, SEQ1M read, RND4K write, RND4K read, each over
/// 256 MiB for 5 s, 3 runs. Full: the same four over 1 GiB for 5 s, 5 runs,
/// then the sustained write (8 GiB, 60 s, 1 run) and the cold-start read
/// (16 MiB, 1 s, 3 runs).
pub proof fn lemma_profiles_follow_the_specification()
    ensures
        ({
            let q = spec_profile_tests(BenchProfile::Quick);
            &&& q.len() == 4
            &&& q[0].id == TestId::Seq1mWrite && q[1].id == TestId::Seq1mRead
            &&& q[2].id == TestId::Rnd4kWrite && q[3].id == TestId::Rnd4kRead
            &&& forall|i: int| 0 <= i < 4 ==> {
                &&& (#[trigger] q[i]).working_set == 256 * 1048576
                &&& q[i].duration_secs == 5
                &&& q[i].repeat == 3
            }
        }),
        ({
            let f = spec_profile_tests(BenchProfile::Full);
            &&& f.len() == 6
            &&& f[0].id == TestId::Seq1mWrite && f[1].id == TestId::Seq1mRead
            &&& f[2].id == TestId::Rnd4kWrite && f[3].id == TestId::Rnd4kRead
            &&& f[4].id == TestId::Sustained60sWrite && f[5].id == TestId::ColdStartRead
            &&& forall|i: int| 0 <= i < 4 ==> {
                &&& (#[trigger] f[i]).working_set == 1024 * 1048576
                &&& f[i].duration_secs == 5
                &&& f[i].repeat == 5
            }
            &&& f[4].working_set == 8 * 1024 * 1048576 && f[4].duration_secs == 60 && f[4].repeat == 1
            &&& f[5].working_set == 16 * 1048576 && f[5].duration_secs == 1 && f[5].repeat == 3
        }),
{
}

} // verus!
