use ubench::html::{generate_bench_html, generate_html_report, BenchPage, PageMeasurement, PageSubScore};
use ubench::report::DeviceClass;
use ubench::score::Grade;

pub fn page() -> BenchPage {
    BenchPage {
        mount_point: "E:\\".to_string(),
        drive_label: "SANDISK".to_string(),
        generated_at_secs: 1_700_000_000,
        generated_at_nanos: 0,
        ubench_version: "1.0.0".to_string(),
        formula_version: "UBench-v1.0".to_string(),
        signature: "e8971c0e0e2307edf151281a0df2586f0123456789abcdef0123456789abcdef".to_string(),
        ubs: 88,
        grade: Grade::A,
        device_class: DeviceClass::UsbFlashDrive,
        bus_type: "USB".to_string(),
        usb_version: None,
        model: String::new(),
        file_system: String::new(),
        claimed_capacity_bytes: 64 * 1024 * 1024 * 1024,
        capacity_gib_text: "64.0".to_string(),
        sub_scores: vec![
            PageSubScore {
                label: "SEQ1M \"Q1T1\" Write".to_string(),
                measured_text: "426.6".to_string(),
                unit: "MB/s".to_string(),
                target: 1000,
                weight_pct: 15,
                score: 86,
            },
            PageSubScore {
                label: "Hidden".to_string(),
                measured_text: "1.0".to_string(),
                unit: "IOPS".to_string(),
                target: 5,
                weight_pct: 0,
                score: 3,
            },
            PageSubScore {
                label: "RND4K Q1T1 Read".to_string(),
                measured_text: "4214.8".to_string(),
                unit: "IOPS".to_string(),
                target: 15000,
                weight_pct: 35,
                score: 40,
            },
        ],
        measurements: vec![PageMeasurement {
            label: "SEQ1M Q1T1 Write".to_string(),
            median_text: "426.6".to_string(),
            min_text: "423.5".to_string(),
            max_text: "426.6".to_string(),
            cv_text: "0.4%".to_string(),
            unit: "MB/s".to_string(),
        }],
    }
}

#[test]
fn bench_page_fields() {
    let h = generate_bench_html(&page()).unwrap();
    assert!(h.starts_with("<!DOCTYPE html>\n<html lang=\"zh-CN\">"));
    assert!(h.contains("<title>UBench 跑分报告 — E:\\</title>"));
    assert!(h.contains("E:\\ &nbsp;·&nbsp; 2023-11-14 22:13:20 UTC &nbsp;·&nbsp; v1.0.0"));
    assert!(h.contains("<div class=\"score-num excellent\">88</div>"));
    assert!(h.contains("<div class=\"grade-badge grade-excellent\">A (Excellent)</div>"));
    assert!(h.contains("<div class=\"sig\">sha256:e8971c0e0e2307edf151281a0df2586f</div>"));
    assert!(h.contains("<div class=\"meta-value\">USB Flash Drive (U盘)</div>"));
    assert!(h.contains("<div class=\"meta-value\">64.0 GiB</div>"));
    assert!(h.contains("<div class=\"meta-label\">文件系统</div><div class=\"meta-value\">N/A</div>"));
    assert!(h.contains("Direct I/O (绕过 OS 缓存)"));
    assert!(!h.contains("型号"));
    assert!(h.ends_with("</html>"));
}

#[test]
fn bench_page_rows_and_chart() {
    let h = generate_bench_html(&page()).unwrap();
    assert!(h.contains("<tr><td>SEQ1M \"Q1T1\" Write</td><td>426.6 MB/s</td><td>1000 MB/s</td><td>15%</td><td><div class='sbar-wrap'><div class='sbar' style='width:86%;background:#22c55e'></div><span>86/100</span></div></td></tr>\n"));
    assert!(h.contains("background:#ef4444'></div><span>40/100</span>"));
    assert!(!h.contains("Hidden"));
    assert!(h.contains("data: [\"SEQ1M 'Q1T1' Write\",\"RND4K Q1T1 Read\"]"));
    assert!(h.contains("data: [86,40]"));
    assert!(h.contains("var tips = [\"426.6 MB/s\",\"4214.8 IOPS\"];"));
    assert!(h.contains("<tr><td>SEQ1M Q1T1 Write</td><td>426.6 MB/s</td><td>423.5</td><td>426.6</td><td>0.4%</td></tr>\n"));
}

#[test]
fn bench_page_for_an_internal_disk() {
    let mut p = page();
    p.device_class = DeviceClass::NvmeSsd;
    p.model = "Samsung".to_string();
    p.file_system = "APFS".to_string();
    p.claimed_capacity_bytes = 0;
    p.ubs = 24;
    p.grade = Grade::F;
    let h = generate_bench_html(&p).unwrap();
    assert!(h.contains("<div class=\"meta-value\">Direct I/O</div>"));
    assert!(h.contains("<div class='meta-item'><div class='meta-label'>型号</div><div class='meta-value'>Samsung</div></div>"));
    assert!(h.contains("<div class=\"meta-value\">APFS</div>"));
    assert!(h.contains("<div class=\"meta-label\">容量</div><div class=\"meta-value\">N/A</div>"));
    assert!(h.contains("score-num fail\">24<"));
    assert!(h.contains("grade-badge grade-fail\">F (Garbage)<"));
}

#[test]
fn bench_page_epoch_date() {
    let mut p = page();
    p.generated_at_secs = 0;
    let h = generate_bench_html(&p).unwrap();
    assert!(h.contains("1970-01-01 00:00:00 UTC"));
    p.generated_at_secs = i64::MAX;
    assert_eq!(generate_bench_html(&p), None);
}

#[test]
fn quality_page() {
    let h = generate_html_report(
        "SanDisk",
        "2024-01-02 03:04:05",
        "64.0",
        &Some("7.9".to_string()),
        &Some("120.5".to_string()),
        &None,
        &Some("3500".to_string()),
        &None,
        &Some("97".to_string()),
        3,
        100,
        72,
        "[]",
        "[5,9]",
    );
    assert!(h.contains("<title>UBench 跑分报告 - SanDisk</title>"));
    assert!(h.contains("<p>SanDisk | 检测日期: 2024-01-02 03:04:05</p>"));
    assert!(h.contains("<div class=\"score good\">72<span"));
    assert!(h.contains("<span class=\"grade-badge grade-good\">良好</span>"));
    assert!(h.contains("<div class=\"stat-value\">64.0 GB</div>"));
    assert!(h.contains("<div class=\"stat-value\">7.9 GB</div>"));
    assert!(h.contains("<div class=\"stat-value\">120.5 MB/s</div>"));
    assert!(h.contains("<div class=\"stat-value\">N/A</div>\n      <div class=\"stat-label\">顺序写入</div>"));
    assert!(h.contains("<div class=\"stat-value\">3500</div>"));
    assert!(h.contains("<div class=\"stat-value\">97%</div>"));
    assert!(h.contains("<div class=\"stat-value\">3</div>"));
    assert!(h.contains("var speedData = [];"));
    assert!(h.contains("var badData = [5,9];"));
}

#[test]
fn quality_page_verdicts() {
    let none: Option<String> = None;
    let render = |score: u32| {
        generate_html_report("d", "t", "1.0", &none, &none, &none, &none, &none, &none, 0, 0, score, "[]", "[]")
    };
    assert!(render(90).contains("grade-excellent\">优秀<"));
    assert!(render(50).contains("grade-fair\">一般<"));
    assert!(render(49).contains("grade-poor\">差<"));
    assert!(render(10).contains("<div class=\"stat-value\">未测试</div>"));
}

#[test]
fn bench_page_dates_across_the_accepted_range() {
    let mut p = page();
    p.generated_at_secs = -1;
    assert!(generate_bench_html(&p).unwrap().contains("1969-12-31 23:59:59 UTC"));
    p.generated_at_secs = 253_402_300_800;
    assert!(generate_bench_html(&p).unwrap().contains("+10000-01-01 00:00:00 UTC"));
    for secs in [8_000_000_000_000i64, -8_000_000_000_000] {
        p.generated_at_secs = secs;
        p.generated_at_nanos = 999_999_999;
        assert!(generate_bench_html(&p).is_some());
    }
}
