use ubench::profile::{BenchProfile, TestId};
use ubench::score::{score_report, target_for, Grade, ScoredMeasurement, Target};

fn m(id: TestId, score: u32) -> ScoredMeasurement {
    ScoredMeasurement { test_id: id, score }
}

#[test]
fn grade_boundaries() {
    assert_eq!(Grade::from_ubs(100), Grade::A);
    assert_eq!(Grade::from_ubs(85), Grade::A);
    assert_eq!(Grade::from_ubs(84), Grade::B);
    assert_eq!(Grade::from_ubs(70), Grade::B);
    assert_eq!(Grade::from_ubs(69), Grade::C);
    assert_eq!(Grade::from_ubs(50), Grade::C);
    assert_eq!(Grade::from_ubs(49), Grade::D);
    assert_eq!(Grade::from_ubs(25), Grade::D);
    assert_eq!(Grade::from_ubs(24), Grade::F);
    assert_eq!(Grade::from_ubs(0), Grade::F);
    assert_eq!(Grade::from_ubs(101), Grade::F);
}

#[test]
fn grade_labels() {
    assert_eq!(Grade::A.label(), "A (Excellent)");
    assert_eq!(Grade::B.label(), "B (Good)");
    assert_eq!(Grade::C.label(), "C (Acceptable)");
    assert_eq!(Grade::D.label(), "D (Poor)");
    assert_eq!(Grade::F.label(), "F (Garbage)");
}

#[test]
fn reference_targets() {
    assert_eq!(target_for(TestId::Seq1mWrite), Target { target: 1000, floor: 5, weight_pct: 15 });
    assert_eq!(target_for(TestId::Seq1mRead), Target { target: 1000, floor: 10, weight_pct: 10 });
    assert_eq!(target_for(TestId::Rnd4kWrite), Target { target: 15000, floor: 5, weight_pct: 25 });
    assert_eq!(target_for(TestId::Rnd4kRead), Target { target: 15000, floor: 30, weight_pct: 35 });
    assert_eq!(target_for(TestId::Sustained60sWrite), Target { target: 500, floor: 2, weight_pct: 10 });
    assert_eq!(target_for(TestId::ColdStartRead), Target { target: 5000, floor: 30, weight_pct: 5 });
}

#[test]
fn full_profile_weights_sum_to_100() {
    let total: u32 = BenchProfile::Full.tests().iter().map(|t| target_for(t.id).weight_pct).sum();
    assert_eq!(total, 100);
    let quick: u32 = BenchProfile::Quick.tests().iter().map(|t| target_for(t.id).weight_pct).sum();
    assert_eq!(quick, 85);
}

#[test]
fn ubs_is_rounded_weighted_average() {
    // quick: (80*15 + 60*10 + 40*25 + 90*35) / 85 = 5950 / 85 = 70
    let ms = vec![
        m(TestId::Seq1mWrite, 80),
        m(TestId::Seq1mRead, 60),
        m(TestId::Rnd4kWrite, 40),
        m(TestId::Rnd4kRead, 90),
    ];
    let s = score_report(BenchProfile::Quick, &ms);
    assert_eq!(s.ubs, 70);
    assert_eq!(s.grade, Grade::B);
    assert_eq!(s.formula_version, "UBench-v1.0");
    assert_eq!(s.sub_scores.len(), 4);
    assert_eq!(s.sub_scores[0].test_id, TestId::Seq1mWrite);
    assert_eq!(s.sub_scores[0].label, "SEQ1M Q1T1 Write");
    assert_eq!(s.sub_scores[0].target, 1000);
    assert_eq!(s.sub_scores[0].weight_pct, 15);
    assert_eq!(s.sub_scores[3].score, 90);
    assert_eq!(s.sub_scores[3].measurement, Some(3));
}

#[test]
fn ubs_rounds_half_up() {
    // full: 50 on seq write only -> 750 / 100 = 7.5 -> 8
    let ms = vec![m(TestId::Seq1mWrite, 50)];
    let s = score_report(BenchProfile::Full, &ms);
    assert_eq!(s.ubs, 8);
    // 49 -> 735 / 100 = 7.35 -> 7
    let s = score_report(BenchProfile::Full, &vec![m(TestId::Seq1mWrite, 49)]);
    assert_eq!(s.ubs, 7);
}

#[test]
fn failed_tests_score_zero() {
    let s = score_report(BenchProfile::Full, &vec![]);
    assert_eq!(s.ubs, 0);
    assert_eq!(s.grade, Grade::F);
    assert!(s.sub_scores.iter().all(|x| x.score == 0 && x.measurement.is_none()));
    assert_eq!(s.sub_scores.len(), 6);
}

#[test]
fn perfect_drive_scores_100() {
    let ms: Vec<ScoredMeasurement> =
        BenchProfile::Full.tests().iter().map(|t| m(t.id, 100)).collect();
    let s = score_report(BenchProfile::Full, &ms);
    assert_eq!(s.ubs, 100);
    assert_eq!(s.grade, Grade::A);
}

#[test]
fn later_measurement_of_a_test_wins() {
    let ms = vec![m(TestId::Rnd4kRead, 10), m(TestId::Seq1mRead, 30), m(TestId::Rnd4kRead, 100)];
    let s = score_report(BenchProfile::Quick, &ms);
    assert_eq!(s.sub_scores[3].score, 100);
    assert_eq!(s.sub_scores[3].measurement, Some(2));
    assert_eq!(s.sub_scores[1].measurement, Some(1));
    // (30*10 + 100*35) / 85 = 3800 / 85 = 44.7 -> 45
    assert_eq!(s.ubs, 45);
    assert_eq!(s.grade, Grade::D);
}

#[test]
fn measurements_outside_the_profile_are_ignored() {
    let ms = vec![m(TestId::ColdStartRead, 100), m(TestId::Sustained60sWrite, 100)];
    let s = score_report(BenchProfile::Quick, &ms);
    assert_eq!(s.ubs, 0);
}

#[test]
fn ubs_is_clamped_to_100() {
    let ms = vec![m(TestId::Rnd4kRead, 1000)];
    let s = score_report(BenchProfile::Quick, &ms);
    assert_eq!(s.ubs, 100);
    assert_eq!(s.grade, Grade::A);
}

#[test]
fn better_sub_scores_never_lower_ubs() {
    let low = vec![m(TestId::Seq1mWrite, 40), m(TestId::Rnd4kRead, 20)];
    let high = vec![m(TestId::Seq1mWrite, 41), m(TestId::Rnd4kRead, 20), m(TestId::Seq1mRead, 1)];
    assert!(score_report(BenchProfile::Full, &low).ubs <= score_report(BenchProfile::Full, &high).ubs);
}

#[test]
fn a_new_measurement_never_lowers_ubs() {
    let before = vec![m(TestId::Seq1mWrite, 80), m(TestId::Rnd4kRead, 40)];
    let mut after = before.clone();
    after.push(m(TestId::Rnd4kWrite, 10));
    let a = score_report(BenchProfile::Quick, &before);
    let b = score_report(BenchProfile::Quick, &after);
    assert!(b.ubs >= a.ubs);
    assert_eq!(a.sub_scores[2].score, 0);
    assert_eq!(b.sub_scores[2].score, 10);
    for i in [0usize, 1, 3] {
        assert_eq!(a.sub_scores[i].score, b.sub_scores[i].score);
    }
}
