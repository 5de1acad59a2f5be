use ubench::profile::{AccessPattern, BenchProfile, Op, TestId, TestSpec};
use ubench::runner::{
    check_block_alignment, progress_label, run_label, unit_for, workfile_needs_create, BenchRun,
    BenchStep, IoStep, RepeatRun, RunStep, TransferLoop, WorkfileFill,
};
use ubench::prng::{random_offset, XorShift64, OFFSET_SEED};

fn spec(access: AccessPattern, block_size: usize, working_set: u64) -> TestSpec {
    TestSpec {
        id: TestId::Seq1mWrite,
        label: "T",
        block_size,
        access,
        op: Op::Write,
        working_set,
        duration_secs: 5,
        repeat: 3,
    }
}

#[test]
fn unaligned_block_size_is_refused() {
    let mut s = spec(AccessPattern::Sequential, 1000, 4096);
    s.label = "SEQ odd";
    assert_eq!(
        check_block_alignment(&s),
        Err("test SEQ odd block size 1000 not sector-aligned".to_string())
    );
    assert_eq!(check_block_alignment(&spec(AccessPattern::Sequential, 8192, 4096)), Ok(()));
    assert_eq!(check_block_alignment(&spec(AccessPattern::Sequential, 0, 4096)), Ok(()));
}

#[test]
fn run_labels() {
    assert_eq!(run_label("SEQ1M Q1T1 Read", 0, 3), "SEQ1M Q1T1 Read (warmup)");
    assert_eq!(run_label("SEQ1M Q1T1 Read", 1, 3), "SEQ1M Q1T1 Read (run 1/2)");
    assert_eq!(run_label("X", 12, 21), "X (run 12/20)");
    assert_eq!(progress_label(0, 4, "SEQ1M Q1T1 Write"), "[1/4] SEQ1M Q1T1 Write");
    assert_eq!(progress_label(9, 10, "Y"), "[10/10] Y");
    assert_eq!(progress_label(4, 4, "Z"), "[5/4] Z");
}

#[test]
fn units() {
    assert_eq!(unit_for(AccessPattern::Sequential), "MB/s");
    assert_eq!(unit_for(AccessPattern::Random), "IOPS");
}

#[test]
fn first_run_is_a_discarded_warmup() {
    let mut r = RepeatRun::new(3);
    assert_eq!(r.runs(), 3);
    assert_eq!(r.step(false), RunStep::Run { index: 0, keep_sample: false });
    assert!(r.outcome().is_err());
    assert_eq!(r.step(false), RunStep::Run { index: 1, keep_sample: true });
    assert_eq!(r.step(false), RunStep::Run { index: 2, keep_sample: true });
    assert_eq!(r.step(false), RunStep::Done);
    assert_eq!(r.outcome(), Ok(()));
}

#[test]
fn at_least_one_measured_run() {
    let mut r = RepeatRun::new(1);
    assert_eq!(r.runs(), 2);
    assert_eq!(r.step(false), RunStep::Run { index: 0, keep_sample: false });
    assert_eq!(r.step(false), RunStep::Run { index: 1, keep_sample: true });
    assert_eq!(r.step(false), RunStep::Done);
    assert_eq!(RepeatRun::new(0).runs(), 2);
    assert_eq!(RepeatRun::new(5).runs(), 5);
}

#[test]
fn stop_ends_the_repeat_loop() {
    let mut r = RepeatRun::new(5);
    assert_eq!(r.step(false), RunStep::Run { index: 0, keep_sample: false });
    assert_eq!(r.step(true), RunStep::Done);
    assert_eq!(r.step(false), RunStep::Done);
    assert_eq!(r.outcome(), Err("no measured runs (all aborted)".to_string()));
}

#[test]
fn sequential_loop_covers_the_working_set_once() {
    let s = spec(AccessPattern::Sequential, 4096, 10000);
    let mut l = TransferLoop::new(&s);
    let mut n = 0;
    while l.step(false, false) == IoStep::Next {
        n += 1;
    }
    assert_eq!(n, 3);
    assert_eq!(l.bytes(), 12288);
    assert_eq!(l.ops(), 3);
    assert_eq!(l.step(false, false), IoStep::Done);
}

#[test]
fn sequential_loop_stops_on_time_or_request() {
    let s = spec(AccessPattern::Sequential, 4096, 1 << 20);
    let mut l = TransferLoop::new(&s);
    assert_eq!(l.step(false, false), IoStep::Next);
    assert_eq!(l.step(false, true), IoStep::Done);
    assert_eq!(l.step(true, false), IoStep::Done);
    assert_eq!(l.bytes(), 4096);
}

#[test]
fn random_loop_visits_the_standard_offsets() {
    let s = spec(AccessPattern::Random, 4096, 256 * 1024 * 1024);
    let mut l = TransferLoop::new(&s);
    let mut p = XorShift64::new(OFFSET_SEED);
    for _ in 0..100 {
        let expected = random_offset(&mut p, 256 * 1024 * 1024, 4096);
        assert_eq!(l.step(false, false), IoStep::SeekTo(expected));
    }
    assert_eq!(l.ops(), 100);
    assert_eq!(l.bytes(), 100 * 4096);
    assert_eq!(l.step(false, true), IoStep::Done);
    assert_eq!(l.ops(), 100);
}

#[test]
fn workfile_decisions() {
    assert!(workfile_needs_create(None, 10));
    assert!(workfile_needs_create(Some(9), 10));
    assert!(!workfile_needs_create(Some(10), 10));
    let mut f = WorkfileFill::new(10000, 4096);
    assert_eq!(f.step(false), Ok(true));
    assert_eq!(f.step(false), Ok(true));
    assert_eq!(f.step(true), Err("aborted".to_string()));
    assert_eq!(f.step(false), Ok(true));
    assert_eq!(f.step(false), Ok(false));
    assert_eq!(f.step(true), Ok(false));
}

#[test]
fn bench_run_walks_the_profile_and_tallies() {
    let mut r = BenchRun::new(BenchProfile::Quick);
    assert_eq!(r.total(), 4);
    let mut seen = Vec::new();
    loop {
        match r.step(false) {
            BenchStep::RunTest { index, message } => {
                seen.push(message);
                r.record_success(1000 * (index as u64 + 1) % 3000);
                assert_eq!(r.test(index).id, BenchProfile::Quick.tests()[index].id);
            }
            BenchStep::Finished => break,
        }
    }
    assert_eq!(seen[0], "[1/4] SEQ1M Q1T1 Write");
    assert_eq!(seen[3], "[4/4] RND4K Q1T1 Read");
    assert_eq!(r.working_set_actual_bytes(), 2000);
    assert!(!r.aborted());
}

#[test]
fn stop_before_a_test_aborts_the_run() {
    let mut r = BenchRun::new(BenchProfile::Full);
    assert!(matches!(r.step(false), BenchStep::RunTest { index: 0, .. }));
    assert!(matches!(r.step(true), BenchStep::Finished));
    assert!(r.aborted());
    assert!(matches!(r.step(false), BenchStep::Finished));
}

#[test]
fn random_offsets_of_every_profile_test_are_sector_aligned() {
    for profile in [BenchProfile::Quick, BenchProfile::Full] {
        for t in profile.tests().iter().filter(|t| t.access == AccessPattern::Random) {
            let mut l = TransferLoop::new(t);
            for _ in 0..2000 {
                match l.step(false, false) {
                    IoStep::SeekTo(off) => {
                        assert_eq!(off % 4096, 0);
                        assert!(off + t.block_size as u64 <= t.working_set);
                    }
                    other => panic!("unexpected step {:?}", other),
                }
            }
        }
    }
}

#[test]
fn random_loop_stops_when_the_working_set_is_done() {
    let s = spec(AccessPattern::Random, 4096, 4096);
    let mut l = TransferLoop::new(&s);
    assert_eq!(l.step(false, false), IoStep::SeekTo(0));
    assert_eq!(l.step(false, false), IoStep::Done);
    assert_eq!((l.bytes(), l.ops()), (4096, 1));

    let s = spec(AccessPattern::Random, 4096, 16 * 1024 * 1024);
    let mut l = TransferLoop::new(&s);
    let mut n = 0u64;
    while let IoStep::SeekTo(_) = l.step(false, false) {
        n += 1;
    }
    assert_eq!(n, 4096);
    assert_eq!(l.bytes(), 16 * 1024 * 1024);
    assert_eq!(l.bytes(), l.ops() * 4096);
}

#[test]
fn random_seeks_follow_the_seeded_generator() {
    let (ws, bs) = (256u64 * 1024 * 1024, 4096u64);
    let s = spec(AccessPattern::Random, bs as usize, ws);
    let mut l = TransferLoop::new(&s);
    let mut g = XorShift64::new(0x4242_4242_4242_4242);
    let n = std::cmp::max(1, ws.saturating_sub(bs) / bs);
    for _ in 0..500 {
        let x = g.next();
        assert_eq!(l.step(false, false), IoStep::SeekTo((x % n) * bs));
    }
    assert_eq!(l.bytes(), 500 * bs);
}
