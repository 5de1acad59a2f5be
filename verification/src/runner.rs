//! The decisions of the test runner.
//!
//! The runner alternates direct I/O with decisions; the I/O is done by the
//! caller, and every decision is taken here: how many runs a test gets and
//! which of them count, when a time-window loop stops and where its next
//! transfer goes, when a work file must be written, and how the results of
//! a profile are tallied. Rates are floating-point and measured by the caller.
//!
//! Honesty rules: a test stops at its time budget or when its working set
//! is covered, whichever comes first; the first run of every test is a
//! discarded warm-up; random offsets are deterministic.

use vstd::prelude::*;
use crate::profile::{AccessPattern, TestSpec, BenchProfile, spec_profile_tests};
use crate::prng::{XorShift64, random_offset, spec_random_offset, xorshift_step, xorshift_iter, seed_state, OFFSET_SEED};
use crate::buffer::SECTOR_SIZE;
use crate::text::{decimal, decimal_string};

verus! {

/// The message of a test whose block size is not a multiple of the sector size.
pub open spec fn alignment_error(label: Seq<char>, block_size: nat) -> Seq<char> {
    "test "@ + label + " block size "@ + decimal(block_size) + " not sector-aligned"@
}

/// Refuse a test whose block size is not a multiple of the sector size.
pub fn check_block_alignment(spec: &TestSpec) -> (r: Result<(), String>)
    ensures
        r is Ok <==> spec.block_size % 4096 == 0,
        r matches Err(e) ==> e@ == alignment_error(spec.label@, spec.block_size as nat),
{
    if spec.block_size % SECTOR_SIZE != 0 {
        let mut e = String::from_str("test ");
        e.append(spec.label);
        e.append(" block size ");
        let n = decimal_string(spec.block_size as u64);
        e.append(n.as_str());
        e.append(" not sector-aligned");
        Err(e)
    } else {
        Ok(())
    }
}

/// Number of runs of a test: `repeat`, but at least one warm-up and one measured run.
pub open spec fn spec_run_count(repeat: u32) -> u32 {
    if repeat > 2 { repeat } else { 2 }
}

/// The progress text of run `run_idx` out of `runs`.
pub open spec fn spec_run_label(label: Seq<char>, run_idx: nat, runs: nat) -> Seq<char> {
    if run_idx == 0 {
        label + " (warmup)"@
    } else {
        label + " (run "@ + decimal(run_idx) + "/"@ + decimal((runs - 1) as nat) + ")"@
    }
}

/// "SEQ1M Q1T1 Read (warmup)", "SEQ1M Q1T1 Read (run 1/2)", ...
pub fn run_label(label: &str, run_idx: u32, runs: u32) -> (s: String)
    requires
        runs >= 1,
    ensures
        s@ == spec_run_label(label@, run_idx as nat, runs as nat),
{
    let mut s = String::from_str(label);
    if run_idx == 0 {
        s.append(" (warmup)");
    } else {
        s.append(" (run ");
        let a = decimal_string(run_idx as u64);
        s.append(a.as_str());
        s.append("/");
        let b = decimal_string((runs - 1) as u64);
        s.append(b.as_str());
        s.append(")");
    }
    s
}

/// The progress text of test `index` (0-based) out of `total`.
pub open spec fn spec_progress_label(index: nat, total: nat, label: Seq<char>) -> Seq<char> {
    "["@ + decimal(index + 1) + "/"@ + decimal(total) + "] "@ + label
}

/// "[1/4] SEQ1M Q1T1 Write", ...
pub fn progress_label(index: usize, total: usize, label: &str) -> (s: String)
    requires
        index < usize::MAX,
    ensures
        s@ == spec_progress_label(index as nat, total as nat, label@),
{
    let mut s = String::from_str("[");
    let a = decimal_string((index + 1) as u64);
    s.append(a.as_str());
    s.append("/");
    let b = decimal_string(total as u64);
    s.append(b.as_str());
    s.append("] ");
    s.append(label);
    s
}

/// The unit of a rate: MB/s for sequential tests, IOPS for random ones.
pub open spec fn spec_unit(access: AccessPattern) -> Seq<char> {
    match access {
        AccessPattern::Sequential => "MB/s"@,
        AccessPattern::Random => "IOPS"@,
    }
}

pub fn unit_for(access: AccessPattern) -> (s: String)
    ensures
        s@ == spec_unit(access),
{
    match access {
        AccessPattern::Sequential => String::from_str("MB/s"),
        AccessPattern::Random => String::from_str("IOPS"),
    }
}

/// What to do next in the repeat loop of one test.
#[derive(Debug, Clone, Copy, PartialEq, Eq, Structural)]
pub enum RunStep {
    /// Do run `index`; its rate counts only when `keep_sample` holds.
    Run { index: u32, keep_sample: bool },
    /// No more runs.
    Done,
}

/// The repeat loop of one test: run 0 is the warm-up, runs 1.. are measured.
pub struct RepeatRun {
    runs: u32,
    next: u32,
    stopped: bool,
}

/// The state of a repeat loop: total runs, runs started, whether it stopped.
pub struct RepeatRunView {
    pub runs: nat,
    pub next: nat,
    pub stopped: bool,
}

impl RepeatRunView {
    /// The ranges that every repeat loop stays in.
    pub open spec fn bounded(self) -> bool {
        &&& 2 <= self.runs <= u32::MAX
        &&& self.next <= self.runs
    }
}

impl View for RepeatRun {
    type V = RepeatRunView;

    closed spec fn view(&self) -> RepeatRunView {
        RepeatRunView { runs: self.runs as nat, next: self.next as nat, stopped: self.stopped }
    }
}

/// Measured (non-warm-up) runs among the first `next`.
pub open spec fn measured_runs(next: nat) -> nat {
    if next > 0 { (next - 1) as nat } else { 0 }
}

impl RepeatRun {
    #[verifier::type_invariant]
    spec fn inv(self) -> bool {
        2 <= self.runs && self.next <= self.runs
    }

    pub fn new(repeat: u32) -> (r: RepeatRun)
        ensures
            r@.bounded(),
            r@.runs == spec_run_count(repeat),
            r@.next == 0,
            !r@.stopped,
    {
        RepeatRun { runs: if repeat > 2 { repeat } else { 2 }, next: 0, stopped: false }
    }

    /// Total number of runs (warm-up included).
    pub fn runs(&self) -> (n: u32)
        ensures
            self@.bounded(),
            n == self@.runs,
    {
        proof {
            use_type_invariant(self);
        }
        self.runs
    }

    /// The next run, or `Done` when all runs are done or a stop was requested.
    pub fn step(&mut self, stop_requested: bool) -> (s: RunStep)
        ensures
            final(self)@.bounded(),
            (stop_requested || old(self)@.stopped || old(self)@.next >= old(self)@.runs) ==> {
                &&& s == RunStep::Done
                &&& final(self)@.runs == old(self)@.runs
                &&& final(self)@.next == old(self)@.next
                &&& final(self)@.stopped == (old(self)@.stopped || stop_requested)
            },
            !(stop_requested || old(self)@.stopped || old(self)@.next >= old(self)@.runs) ==> {
                &&& s == RunStep::Run {
                    index: old(self)@.next as u32,
                    keep_sample: old(self)@.next > 0,
                }
                &&& final(self)@ == RepeatRunView {
                    runs: old(self)@.runs,
                    next: old(self)@.next + 1,
                    stopped: false,
                }
            },
    {
        proof {
            use_type_invariant(&*self);
        }
        if stop_requested || self.stopped {
            self.stopped = true;
            return RunStep::Done;
        }
        if self.next >= self.runs {
            return RunStep::Done;
        }
        let index = self.next;
        self.next = self.next + 1;
        RunStep::Run { index, keep_sample: index > 0 }
    }

    /// Whether any measured run was started; a test with none fails with
    /// "no measured runs (all aborted)".
    pub fn outcome(&self) -> (r: Result<(), String>)
        ensures
            self@.bounded(),
            r is Ok <==> measured_runs(self@.next) > 0,
            r is Ok <==> self@.next >= 2,
            r matches Err(e) ==> e@ == "no measured runs (all aborted)"@,
    {
        proof {
            use_type_invariant(self);
        }
        if self.next > 1 {
            Ok(())
        } else {
            Err(String::from_str("no measured runs (all aborted)"))
        }
    }
}

/// A test runs `repeat` times, but never fewer than twice: one warm-up and
/// at least one measured run.
pub proof fn lemma_run_count(repeat: u32)
    ensures
        spec_run_count(repeat) >= 2,
        repeat >= 2 ==> spec_run_count(repeat) == repeat,
        repeat < 2 ==> spec_run_count(repeat) == 2,
{
}

/// Run 0 is the warm-up and every later run is measured: the first `next`
/// runs hold exactly `next - 1` measured runs (none before any run), so a
/// test has a measured run once its second run has started.
pub proof fn lemma_measured_runs_count(next: nat)
    ensures
        next >= 1 ==> measured_runs(next) + 1 == next,
        next == 0 ==> measured_runs(next) == 0,
        measured_runs(next) > 0 <==> next >= 2,
{
}

/// A repeat loop that was not stopped runs all its runs, and then it has a
/// measured run: at least two runs were started, so the test has a sample
/// (`outcome` is `Ok`) whatever its `repeat`, 1 included.
pub proof fn lemma_completed_loop_has_a_sample(v: RepeatRunView)
    requires
        v.bounded(),
        v.next == v.runs,
    ensures
        v.next >= 2,
        measured_runs(v.next) == v.runs - 1,
{
}

/// What to do next in a time-window transfer loop.
#[derive(Debug, Clone, Copy, PartialEq, Eq, Structural)]
pub enum IoStep {
    /// Transfer the next block at the current position.
    Next,
    /// Seek to the offset, then transfer one block.
    SeekTo(u64),
    /// The loop is over.
    Done,
}

/// The offset of transfer `k` (0-based) of a random run: the same in every
/// run, on every machine.
pub open spec fn spec_nth_offset(working_set: u64, block_size: u64, k: nat) -> int {
    spec_random_offset(xorshift_iter(seed_state(OFFSET_SEED), k), working_set, block_size)
}

/// A random offset is a whole number of blocks, and the block at it lies
/// inside the working set.
pub proof fn lemma_random_offset_in_working_set(x: u64, working_set: u64, block_size: u64)
    requires
        block_size > 0,
        working_set >= block_size,
    ensures
        spec_random_offset(x, working_set, block_size) >= 0,
        spec_random_offset(x, working_set, block_size) % (block_size as int) == 0,
        spec_random_offset(x, working_set, block_size) + block_size <= working_set,
{
    let m = crate::prng::spec_max_block_index(working_set, block_size);
    let bound = if m > 1 { m } else { 1 };
    let q = xorshift_step(x) as int % bound;
    assert(m * block_size <= working_set - block_size) by (nonlinear_arith)
        requires
            m == (working_set - block_size) / (block_size as int),
            block_size > 0,
            working_set >= block_size,
    ;
    assert(0 <= q < bound);
    assert(q * block_size >= 0 && (q * block_size) % (block_size as int) == 0) by (nonlinear_arith)
        requires
            q >= 0,
            block_size > 0,
    ;
    assert(q * block_size + block_size <= working_set) by (nonlinear_arith)
        requires
            0 <= q < bound,
            bound == if m > 1 { m } else { 1 },
            m * block_size <= working_set - block_size,
            working_set >= block_size,
            block_size > 0,
    ;
}

/// Transfer `k` (0-based) of every random run seeks to block
/// `x % max(1, (working_set - block_size) / block_size)`, where `x` is output
/// `k + 1` of XorShift64 from the fixed seed: the same offset in every run,
/// a whole number of blocks, with the block inside `max(working_set,
/// block_size)` bytes.
pub proof fn lemma_nth_offset(working_set: u64, block_size: u64, k: nat)
    requires
        block_size > 0,
    ensures
        ({
            let m = crate::prng::spec_max_block_index(working_set, block_size);
            let bound = if m > 1 { m } else { 1 };
            spec_nth_offset(working_set, block_size, k) == (xorshift_iter(
                seed_state(OFFSET_SEED),
                k + 1,
            ) as int % bound) * block_size
        }),
        spec_nth_offset(working_set, block_size, k) >= 0,
        spec_nth_offset(working_set, block_size, k) % (block_size as int) == 0,
        spec_nth_offset(working_set, block_size, k) + block_size <= if working_set >= block_size {
            working_set as int
        } else {
            block_size as int
        },
{
    let x = xorshift_iter(seed_state(OFFSET_SEED), k);
    assert(xorshift_iter(seed_state(OFFSET_SEED), k + 1) == xorshift_step(x));
    if working_set >= block_size {
        lemma_random_offset_in_working_set(x, working_set, block_size);
    } else {
        let m = crate::prng::spec_max_block_index(working_set, block_size);
        assert(m == 0);
        let q = xorshift_step(x) as int % 1;
        assert(q == 0);
        assert(q * block_size == 0) by (nonlinear_arith)
            requires
                q == 0,
        ;
    }
}

/// Every random transfer of a standard test starts on a sector boundary
/// (direct I/O accepts the offset) and stays inside the test's working set.
pub proof fn lemma_profile_offsets_sector_aligned(p: BenchProfile, i: int, k: nat)
    requires
        0 <= i < spec_profile_tests(p).len(),
    ensures
        ({
            let t = spec_profile_tests(p)[i];
            let off = spec_nth_offset(t.working_set as u64, t.block_size as u64, k);
            &&& off >= 0
            &&& off % 4096 == 0
            &&& off + t.block_size <= t.working_set
        }),
{
    let t = spec_profile_tests(p)[i];
    crate::profile::lemma_profile_tests_sector_aligned(p);
    assert(t.block_size % 4096 == 0 && t.block_size > 0 && t.working_set >= t.block_size);
    assert(t.working_set <= u64::MAX && t.block_size <= u64::MAX);
    let ws = t.working_set as u64;
    let bs = t.block_size as u64;
    let x = xorshift_iter(seed_state(OFFSET_SEED), k);
    lemma_random_offset_in_working_set(x, ws, bs);
    let off = spec_random_offset(x, ws, bs);
    assert(off % 4096 == 0) by (nonlinear_arith)
        requires
            off >= 0,
            off % (bs as int) == 0,
            (bs as int) % 4096 == 0,
            bs > 0,
    {
        let q = off / (bs as int);
        let c = (bs as int) / 4096;
        assert(off == q * (bs as int));
        assert(bs as int == c * 4096);
        assert(off == (q * c) * 4096);
    }
}

/// The time-window loop of one run. A run stops at the first of: its time
/// budget spent, its working set done, or a stop request. Sequential runs
/// cover the working set block by block; random runs visit deterministic
/// random offsets, one block each, until as many bytes as the working set
/// holds have been moved.
pub struct TransferLoop {
    access: AccessPattern,
    working_set: u64,
    block_size: u64,
    bytes: u64,
    ops: u64,
    prng: XorShift64,
}

pub struct TransferLoopView {
    pub access: AccessPattern,
    pub working_set: nat,
    pub block_size: nat,
    pub bytes: nat,
    pub ops: nat,
    pub prng: u64,
}

impl TransferLoopView {
    /// The ranges that every transfer loop stays in: whole blocks, never a
    /// block past the working set, and no overflow.
    pub open spec fn bounded(self) -> bool {
        &&& self.block_size > 0
        &&& self.working_set + self.block_size <= u64::MAX
        &&& self.bytes < self.working_set + self.block_size
        &&& self.bytes == self.ops * self.block_size
        &&& self.ops <= u64::MAX
    }
}

impl View for TransferLoop {
    type V = TransferLoopView;

    closed spec fn view(&self) -> TransferLoopView {
        TransferLoopView {
            access: self.access,
            working_set: self.working_set as nat,
            block_size: self.block_size as nat,
            bytes: self.bytes as nat,
            ops: self.ops as nat,
            prng: self.prng@,
        }
    }
}

impl TransferLoop {
    #[verifier::type_invariant]
    spec fn inv(self) -> bool {
        &&& self.block_size > 0
        &&& self.bytes < self.working_set + self.block_size
        &&& self.working_set + self.block_size <= u64::MAX
        &&& self.bytes == self.ops * self.block_size
        &&& self.access == AccessPattern::Random ==> self.prng@ == xorshift_iter(
            seed_state(OFFSET_SEED),
            self.ops as nat,
        )
    }

    /// The loop of one run of `spec`; random runs start from the fixed seed.
    pub fn new(spec: &TestSpec) -> (r: TransferLoop)
        requires
            spec.block_size > 0,
            spec.working_set + spec.block_size <= u64::MAX,
        ensures
            r@.bounded(),
            r@ == (TransferLoopView {
                access: spec.access,
                working_set: spec.working_set as nat,
                block_size: spec.block_size as nat,
                bytes: 0,
                ops: 0,
                prng: seed_state(OFFSET_SEED),
            }),
            r@.bytes == r@.ops * r@.block_size,
    {
        TransferLoop {
            access: spec.access,
            working_set: spec.working_set,
            block_size: spec.block_size as u64,
            bytes: 0,
            ops: 0,
            prng: XorShift64::new(OFFSET_SEED),
        }
    }

    /// The next transfer, given whether a stop was requested and whether
    /// the time budget is spent.
    pub fn step(&mut self, stop_requested: bool, time_up: bool) -> (s: IoStep)
        ensures
            final(self)@.bounded(),
            final(self)@.access == old(self)@.access,
            final(self)@.working_set == old(self)@.working_set,
            final(self)@.block_size == old(self)@.block_size,
            final(self)@.bytes == final(self)@.ops * final(self)@.block_size,
            final(self)@.bytes < final(self)@.working_set + final(self)@.block_size,
            old(self)@.bytes >= old(self)@.working_set || stop_requested || time_up ==> {
                s == IoStep::Done && final(self)@ == old(self)@
            },
            !(old(self)@.bytes >= old(self)@.working_set || stop_requested || time_up) ==> {
                &&& final(self)@.bytes == old(self)@.bytes + old(self)@.block_size
                &&& final(self)@.ops == old(self)@.ops + 1
                &&& old(self)@.access == AccessPattern::Sequential ==> {
                    &&& s == IoStep::Next
                    &&& final(self)@.prng == old(self)@.prng
                }
                &&& old(self)@.access == AccessPattern::Random ==> {
                    &&& s == IoStep::SeekTo(
                        spec_nth_offset(
                            old(self)@.working_set as u64,
                            old(self)@.block_size as u64,
                            old(self)@.ops,
                        ) as u64,
                    )
                    &&& final(self)@.prng == xorshift_step(old(self)@.prng)
                }
            },
    {
        proof {
            use_type_invariant(&*self);
        }
        if self.bytes >= self.working_set || stop_requested || time_up {
            return IoStep::Done;
        }
        proof {
            assert(self.ops <= self.bytes) by (nonlinear_arith)
                requires
                    self.block_size > 0,
                    self.bytes == self.ops * self.block_size,
            ;
            assert((self.ops + 1) * self.block_size == self.bytes + self.block_size)
                by (nonlinear_arith)
                requires
                    self.bytes == self.ops * self.block_size,
            ;
        }
        match self.access {
            AccessPattern::Sequential => {
                *self = TransferLoop {
                    access: self.access,
                    working_set: self.working_set,
                    block_size: self.block_size,
                    bytes: self.bytes + self.block_size,
                    ops: self.ops + 1,
                    prng: self.prng,
                };
                IoStep::Next
            },
            AccessPattern::Random => {
                let mut prng = self.prng;
                let off = random_offset(&mut prng, self.working_set, self.block_size);
                *self = TransferLoop {
                    access: self.access,
                    working_set: self.working_set,
                    block_size: self.block_size,
                    bytes: self.bytes + self.block_size,
                    ops: self.ops + 1,
                    prng,
                };
                IoStep::SeekTo(off)
            },
        }
    }

    /// Bytes transferred so far.
    pub fn bytes(&self) -> (n: u64)
        ensures
            self@.bounded(),
            n == self@.bytes,
    {
        proof {
            use_type_invariant(self);
        }
        self.bytes
    }

    /// Transfers done so far.
    pub fn ops(&self) -> (n: u64)
        ensures
            self@.bounded(),
            n == self@.ops,
    {
        proof {
            use_type_invariant(self);
        }
        self.ops
    }
}

/// Whether the work file must be written: it is missing (`None`) or shorter
/// than `size` bytes.
pub fn workfile_needs_create(existing_len: Option<u64>, size: u64) -> (b: bool)
    ensures
        b == match existing_len {
            Some(len) => len < size,
            None => true,
        },
{
    match existing_len {
        Some(len) => len < size,
        None => true,
    }
}

/// The loop that writes a work file of at least `size` bytes, block by block.
pub struct WorkfileFill {
    size: u64,
    block_size: u64,
    written: u64,
}

pub struct WorkfileFillView {
    pub size: nat,
    pub block_size: nat,
    pub written: nat,
}

impl WorkfileFillView {
    /// The ranges that every work-file loop stays in.
    pub open spec fn bounded(self) -> bool {
        &&& self.block_size > 0
        &&& self.size + self.block_size <= u64::MAX
        &&& self.written <= self.size + self.block_size
    }
}

impl View for WorkfileFill {
    type V = WorkfileFillView;

    closed spec fn view(&self) -> WorkfileFillView {
        WorkfileFillView {
            size: self.size as nat,
            block_size: self.block_size as nat,
            written: self.written as nat,
        }
    }
}

impl WorkfileFill {
    #[verifier::type_invariant]
    spec fn inv(self) -> bool {
        &&& self.block_size > 0
        &&& self.size + self.block_size <= u64::MAX
        &&& self.written <= self.size + self.block_size
    }

    pub fn new(size: u64, block_size: usize) -> (r: WorkfileFill)
        requires
            block_size > 0,
            size + block_size <= u64::MAX,
        ensures
            r@.bounded(),
            r@ == (WorkfileFillView { size: size as nat, block_size: block_size as nat, written: 0 }),
    {
        WorkfileFill { size, block_size: block_size as u64, written: 0 }
    }

    /// `Ok(true)`: write one more block; `Ok(false)`: the file is long
    /// enough; `Err("aborted")`: a stop was requested before it was.
    pub fn step(&mut self, stop_requested: bool) -> (r: Result<bool, String>)
        ensures
            final(self)@.bounded(),
            final(self)@.size == old(self)@.size,
            final(self)@.block_size == old(self)@.block_size,
            old(self)@.written >= old(self)@.size ==> r == Ok::<bool, String>(false)
                && final(self)@.written == old(self)@.written,
            old(self)@.written < old(self)@.size && stop_requested ==> (r matches Err(e) && e@
                == "aborted"@) && final(self)@.written == old(self)@.written,
            old(self)@.written < old(self)@.size && !stop_requested ==> r == Ok::<bool, String>(
                true,
            ) && final(self)@.written == old(self)@.written + old(self)@.block_size,
    {
        proof {
            use_type_invariant(&*self);
        }
        if self.written >= self.size {
            return Ok(false);
        }
        if stop_requested {
            return Err(String::from_str("aborted"));
        }
        self.written = self.written + self.block_size;
        Ok(true)
    }
}

/// What to do next in a benchmark run.
pub enum BenchStep {
    /// Run test `index` of the profile; `message` is its progress text.
    RunTest { index: usize, message: String },
    /// The run is over.
    Finished,
}

/// A benchmark run over the tests of a profile, with its tally: the largest
/// number of bytes that one test moved, and whether a stop cut the run short.
pub struct BenchRun {
    tests: Vec<TestSpec>,
    next: usize,
    finished: bool,
    working_set_actual_bytes: u64,
    aborted: bool,
}

pub struct BenchRunView {
    pub tests: Seq<crate::profile::TestSpecView>,
    pub next: nat,
    pub finished: bool,
    pub working_set_actual_bytes: nat,
    pub aborted: bool,
}

impl View for BenchRun {
    type V = BenchRunView;

    closed spec fn view(&self) -> BenchRunView {
        BenchRunView {
            tests: self.tests@.map_values(|t: TestSpec| t@),
            next: self.next as nat,
            finished: self.finished,
            working_set_actual_bytes: self.working_set_actual_bytes as nat,
            aborted: self.aborted,
        }
    }
}

impl BenchRun {
    #[verifier::type_invariant]
    spec fn inv(self) -> bool {
        self.next <= self.tests.len()
    }

    pub fn new(profile: BenchProfile) -> (r: BenchRun)
        ensures
            r@.tests == spec_profile_tests(profile),
            r@.next == 0,
            !r@.finished,
            r@.working_set_actual_bytes == 0,
            !r@.aborted,
    {
        BenchRun {
            tests: profile.tests(),
            next: 0,
            finished: false,
            working_set_actual_bytes: 0,
            aborted: false,
        }
    }

    /// Number of tests of the profile.
    pub fn total(&self) -> (n: usize)
        ensures
            n == self@.tests.len(),
    {
        self.tests.len()
    }

    /// Test `index` of the profile.
    pub fn test(&self, index: usize) -> (t: TestSpec)
        requires
            index < self@.tests.len(),
        ensures
            t@ == self@.tests[index as int],
    {
        self.tests[index]
    }

    /// The next test to run. A stop requested before a test starts ends the
    /// run and marks it aborted.
    pub fn step(&mut self, stop_requested: bool) -> (s: BenchStep)
        ensures
            final(self)@.tests == old(self)@.tests,
            final(self)@.working_set_actual_bytes == old(self)@.working_set_actual_bytes,
            (old(self)@.finished || old(self)@.next >= old(self)@.tests.len()) ==> {
                &&& s is Finished
                &&& final(self)@.finished
                &&& final(self)@.aborted == old(self)@.aborted
                &&& final(self)@.next == old(self)@.next
            },
            !(old(self)@.finished || old(self)@.next >= old(self)@.tests.len()) && stop_requested
                ==> {
                &&& s is Finished
                &&& final(self)@.finished
                &&& final(self)@.aborted
                &&& final(self)@.next == old(self)@.next
            },
            !(old(self)@.finished || old(self)@.next >= old(self)@.tests.len()) && !stop_requested
                ==> {
                &&& (s matches BenchStep::RunTest { index, message } && index == old(self)@.next
                    && message@ == spec_progress_label(
                    old(self)@.next,
                    old(self)@.tests.len(),
                    old(self)@.tests[old(self)@.next as int].label,
                ))
                &&& !final(self)@.finished
                &&& final(self)@.aborted == old(self)@.aborted
                &&& final(self)@.next == old(self)@.next + 1
            },
    {
        proof {
            use_type_invariant(&*self);
        }
        if self.finished || self.next >= self.tests.len() {
            self.finished = true;
            return BenchStep::Finished;
        }
        if stop_requested {
            self.aborted = true;
            self.finished = true;
            return BenchStep::Finished;
        }
        let index = self.next;
        let ghost tv = self.tests@.map_values(|t: TestSpec| t@);
        assert(tv[index as int] == self.tests@[index as int]@);
        let message = progress_label(index, self.tests.len(), self.tests[index].label);
        self.next = self.next + 1;
        BenchStep::RunTest { index, message }
    }

    /// A test completed after moving `bytes` bytes.
    pub fn record_success(&mut self, bytes: u64)
        ensures
            final(self)@.tests == old(self)@.tests,
            final(self)@.next == old(self)@.next,
            final(self)@.finished == old(self)@.finished,
            final(self)@.aborted == old(self)@.aborted,
            final(self)@.working_set_actual_bytes == if bytes > old(self)@.working_set_actual_bytes {
                bytes as nat
            } else {
                old(self)@.working_set_actual_bytes
            },
    {
        proof {
            use_type_invariant(&*self);
        }
        if bytes > self.working_set_actual_bytes {
            self.working_set_actual_bytes = bytes;
        }
    }

    pub fn working_set_actual_bytes(&self) -> (n: u64)
        ensures
            n == self@.working_set_actual_bytes,
    {
        self.working_set_actual_bytes
    }

    pub fn aborted(&self) -> (b: bool)
        ensures
            b == self@.aborted,
    {
        self.aborted
    }
}

} // verus!
