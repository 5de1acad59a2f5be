use ubench::profile::{AccessPattern, BenchProfile, Op, TestId, MB};

#[test]
fn profile_names_round_trip() {
    assert_eq!(BenchProfile::Quick.as_str(), "quick");
    assert_eq!(BenchProfile::Full.as_str(), "full");
    assert_eq!(BenchProfile::parse(BenchProfile::Quick.as_str()), Some(BenchProfile::Quick));
    assert_eq!(BenchProfile::parse(BenchProfile::Full.as_str()), Some(BenchProfile::Full));
}

#[test]
fn profile_parse_ignores_case_and_accepts_short_names() {
    assert_eq!(BenchProfile::parse("QUICK"), Some(BenchProfile::Quick));
    assert_eq!(BenchProfile::parse("Q"), Some(BenchProfile::Quick));
    assert_eq!(BenchProfile::parse("q"), Some(BenchProfile::Quick));
    assert_eq!(BenchProfile::parse("Full"), Some(BenchProfile::Full));
    assert_eq!(BenchProfile::parse("f"), Some(BenchProfile::Full));
}

#[test]
fn profile_parse_rejects_unknown_names() {
    assert_eq!(BenchProfile::parse(""), None);
    assert_eq!(BenchProfile::parse("quickly"), None);
    assert_eq!(BenchProfile::parse(" quick"), None);
    assert_eq!(BenchProfile::parse("asssd"), None);
    assert_eq!(BenchProfile::parse("ｑ"), None);
}

#[test]
fn quick_profile_matches_the_standard() {
    let t = BenchProfile::Quick.tests();
    assert_eq!(t.len(), 4);
    let ids: Vec<TestId> = t.iter().map(|s| s.id).collect();
    assert_eq!(ids, vec![TestId::Seq1mWrite, TestId::Seq1mRead, TestId::Rnd4kWrite, TestId::Rnd4kRead]);
    for s in &t {
        assert_eq!(s.working_set, 256 * MB);
        assert_eq!(s.duration_secs, 5);
        assert_eq!(s.repeat, 3);
    }
    assert_eq!(t[0].label, "SEQ1M Q1T1 Write");
    assert_eq!(t[0].block_size, 1024 * 1024);
    assert_eq!(t[0].access, AccessPattern::Sequential);
    assert_eq!(t[0].op, Op::Write);
    assert_eq!(t[3].label, "RND4K Q1T1 Read");
    assert_eq!(t[3].block_size, 4096);
    assert_eq!(t[3].access, AccessPattern::Random);
    assert_eq!(t[3].op, Op::Read);
}

#[test]
fn full_profile_matches_the_standard() {
    let t = BenchProfile::Full.tests();
    assert_eq!(t.len(), 6);
    for s in &t[..4] {
        assert_eq!(s.working_set, 1024 * MB);
        assert_eq!(s.duration_secs, 5);
        assert_eq!(s.repeat, 5);
    }
    assert_eq!(t[4].id, TestId::Sustained60sWrite);
    assert_eq!(t[4].label, "Sustained 60s Write (SLC cache exhaustion)");
    assert_eq!(t[4].working_set, 8 * 1024 * MB);
    assert_eq!(t[4].duration_secs, 60);
    assert_eq!(t[4].repeat, 1);
    assert_eq!(t[5].id, TestId::ColdStartRead);
    assert_eq!(t[5].label, "Cold-start First-byte Read Latency");
    assert_eq!(t[5].block_size, 4096);
    assert_eq!(t[5].working_set, 16 * MB);
    assert_eq!(t[5].duration_secs, 1);
    assert_eq!(t[5].repeat, 3);
}

#[test]
fn full_profile_starts_with_quick_tests() {
    let q = BenchProfile::Quick.tests();
    let f = BenchProfile::Full.tests();
    for i in 0..4 {
        assert_eq!(q[i].id, f[i].id);
        assert_eq!(q[i].label, f[i].label);
        assert_eq!(q[i].block_size, f[i].block_size);
    }
}

#[test]
fn every_profile_test_is_sector_aligned() {
    for p in [BenchProfile::Quick, BenchProfile::Full] {
        for s in p.tests() {
            assert_eq!(s.block_size % 4096, 0);
            assert!(s.working_set >= s.block_size as u64);
        }
    }
}

#[test]
fn test_id_names() {
    assert_eq!(TestId::Seq1mRead.as_str(), "SEQ1M_READ");
    assert_eq!(TestId::Seq1mWrite.as_str(), "SEQ1M_WRITE");
    assert_eq!(TestId::Rnd4kRead.as_str(), "RND4K_READ");
    assert_eq!(TestId::Rnd4kWrite.as_str(), "RND4K_WRITE");
    assert_eq!(TestId::Sustained60sWrite.as_str(), "SUSTAINED_60S_WRITE");
    assert_eq!(TestId::ColdStartRead.as_str(), "COLD_START_READ");
}
