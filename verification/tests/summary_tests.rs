use ubench::html::{BenchPage, PageMeasurement, PageSubScore};
use ubench::report::DeviceClass;
use ubench::score::Grade;
use ubench::summary::{bench_summary, DRIVE_FOOTER, DRIVE_HEADING, RESULTS_HEADING, SCORE_HEADING};

fn summary_page() -> BenchPage {
    BenchPage {
        mount_point: "E:\\".to_string(),
        drive_label: "SANDISK".to_string(),
        generated_at_secs: 1_700_000_000,
        generated_at_nanos: 0,
        ubench_version: "1.0.0".to_string(),
        formula_version: "UBench-v1.0".to_string(),
        signature: "e8971c0e0e2307edf151281a0df2586f0123456789abcdef0123456789abcdef".to_string(),
        ubs: 88,
        grade: Grade::A,
        device_class: DeviceClass::UsbFlashDrive,
        bus_type: "USB".to_string(),
        usb_version: Some("3.2".to_string()),
        model: "SanDisk Extreme".to_string(),
        file_system: "exFAT".to_string(),
        claimed_capacity_bytes: 64 * 1024 * 1024 * 1024,
        capacity_gib_text: "64.0".to_string(),
        sub_scores: vec![PageSubScore {
            label: "SEQ1M Q1T1 Write".to_string(),
            measured_text: "426.6".to_string(),
            unit: "MB/s".to_string(),
            target: 1000,
            weight_pct: 15,
            score: 86,
        }],
        measurements: vec![PageMeasurement {
            label: "SEQ1M Q1T1 Write".to_string(),
            median_text: "426.6".to_string(),
            min_text: "423.5".to_string(),
            max_text: "426.6".to_string(),
            cv_text: "0.4%".to_string(),
            unit: "MB/s".to_string(),
        }],
    }
}

#[test]
fn summary_drive_block() {
    let text = bench_summary(&summary_page());
    let lines: Vec<&str> = text.lines().collect();
    assert_eq!(lines[0], "");
    assert_eq!(lines[1], DRIVE_HEADING);
    assert_eq!(lines[2], "│  挂载点: E:\\");
    assert_eq!(lines[3], "│  标签  : SANDISK");
    assert_eq!(lines[4], "│  容量  : 64.0 GiB");
    assert_eq!(lines[5], "│  文件系统: exFAT");
    assert_eq!(lines[6], "│  型号  : SanDisk Extreme");
    assert_eq!(lines[7], "│  类型  : USB Flash Drive (U盘)");
    assert_eq!(lines[8], "│  接口  : USB 3.2");
    assert_eq!(lines[9], DRIVE_FOOTER);
    assert_eq!(lines[10], "");
    assert_eq!(lines[11], RESULTS_HEADING);
}

#[test]
fn summary_omits_empty_drive_fields() {
    let mut p = summary_page();
    p.drive_label = String::new();
    p.file_system = String::new();
    p.model = String::new();
    p.claimed_capacity_bytes = 0;
    p.usb_version = None;
    let text = bench_summary(&p);
    assert!(!text.contains("标签"));
    assert!(!text.contains("容量"));
    assert!(!text.contains("文件系统"));
    assert!(!text.contains("型号"));
    assert!(text.contains("│  接口  : USB \n"));
    let lines: Vec<&str> = text.lines().collect();
    assert_eq!(lines[3], "│  类型  : USB Flash Drive (U盘)");
}

#[test]
fn summary_tables_hold_the_cells() {
    let text = bench_summary(&summary_page());
    assert!(text.contains(SCORE_HEADING));
    for cell in ["测试项", "中位数", "最小", "最大", "稳定性", "426.6 MB/s", "423.5", "0.4%"] {
        assert!(text.contains(cell), "missing {}", cell);
    }
    for cell in ["项目", "测得", "目标(满分)", "权重", "得分", "1000 MB/s", "15%", "86/100"] {
        assert!(text.contains(cell), "missing {}", cell);
    }
    assert!(text.contains('┌') && text.contains('╞'));
}

#[test]
fn summary_score_and_signature() {
    let text = bench_summary(&summary_page());
    assert!(text.contains("  ▶▶  UBench Score (UBS): 88 / 100\n"));
    assert!(text.contains("  ▶▶  Grade            : A (Excellent)\n"));
    assert!(text.contains("  签名: sha256:e8971c0e0e2307edf151281a0df2586f\n"));
    assert!(!text.contains("0123456789abcdef0123"));
    assert!(text.ends_with("  规则版本: UBench-v1.0\n\n"));
}
