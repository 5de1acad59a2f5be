use ubench::cli::{
    bench_banner, check_selection, collect_drive_info, collect_interface_info, find_drive,
    merge_speed_samples, normalize_mount, output_mode, select_bench_profile, test_selection, OutputMode, RunSample,
    TestSelection, UsbDrive,
};
use ubench::profile::BenchProfile;
use ubench::report::DeviceClass;

fn drive(name: &str, path: &str, mount: &str) -> UsbDrive {
    UsbDrive {
        name: name.to_string(),
        path: path.to_string(),
        mount_point: mount.to_string(),
        capacity_bytes: 64_000_000_000,
        free_bytes: 1,
        file_system: "exFAT".to_string(),
        serial: "S".to_string(),
        is_removable: true,
    }
}

#[test]
fn output_modes() {
    assert_eq!(output_mode(true), OutputMode::Json);
    assert_eq!(output_mode(false), OutputMode::Human);
}

#[test]
fn bench_profile_flags() {
    assert_eq!(select_bench_profile(false, false, false), Ok(BenchProfile::Quick));
    assert_eq!(select_bench_profile(true, false, false), Ok(BenchProfile::Quick));
    assert_eq!(select_bench_profile(false, true, false), Ok(BenchProfile::Full));
    assert_eq!(
        select_bench_profile(true, true, false),
        Err("--quick / --full / --asssd 只能三选一".to_string())
    );
    assert!(select_bench_profile(false, true, true).is_err());
    assert!(select_bench_profile(false, false, true).is_err());
}

#[test]
fn all_selects_every_test() {
    let s = test_selection(false, false, false, None, true);
    assert_eq!(s, TestSelection { capacity: true, speed: true, badblock: true, thermal: Some(120) });
    let s = test_selection(false, true, false, Some(30), false);
    assert_eq!(s, TestSelection { capacity: false, speed: true, badblock: false, thermal: Some(30) });
    assert_eq!(check_selection(&s), Ok(()));
    let none = test_selection(false, false, false, None, false);
    assert_eq!(
        check_selection(&none),
        Err("No test selected. Use --capacity, --speed, --badblock, --thermal SECS, or --all".to_string())
    );
}

#[test]
fn mount_points_normalize() {
    assert_eq!(normalize_mount("e:\\"), "E:");
    assert_eq!(normalize_mount("/Volumes/usb//"), "/VOLUMES/USB");
    assert_eq!(normalize_mount("\\/"), "");
    assert_eq!(normalize_mount("straße/"), "STRASSE");
}

#[test]
fn drive_info_comes_from_the_first_matching_drive() {
    let drives = vec![drive("A", "/dev/a", "F:\\"), drive("B", "/dev/b", "e:"), drive("C", "/dev/c", "E:\\")];
    let d = collect_drive_info("E:\\", &drives);
    assert_eq!(d.mount_point, "e:");
    assert_eq!(d.label, "B");
    assert_eq!(d.file_system, "exFAT");
    assert_eq!(d.claimed_capacity_bytes, 64_000_000_000);
}

#[test]
fn unknown_mount_point_gets_a_bare_record() {
    let drives = vec![drive("A", "/dev/a", "F:\\")];
    let d = collect_drive_info("G:", &drives);
    assert_eq!(d.mount_point, "G:");
    assert_eq!(d.label, "");
    assert_eq!(d.file_system, "");
    assert_eq!(d.claimed_capacity_bytes, 0);
    assert_eq!(collect_interface_info("G:").device_class, DeviceClass::Unknown);
}

#[test]
fn drives_are_found_by_path_or_mount_point() {
    let drives = vec![drive("A", "/dev/a", "F:\\"), drive("B", "/dev/b", "E:\\"), drive("C", "/dev/b", "X:")];
    assert_eq!(find_drive(&drives, "/dev/b"), Some(1));
    assert_eq!(find_drive(&drives, "F:\\"), Some(0));
    assert_eq!(find_drive(&drives, "X:"), Some(2));
    assert_eq!(find_drive(&drives, "f:\\"), None);
}

#[test]
fn bench_banner_text() {
    let b = bench_banner("E:\\", BenchProfile::Quick, "1.0.0");
    let lines: Vec<&str> = b.split('\n').collect();
    assert_eq!(lines[0], "");
    assert!(lines[1].starts_with('╔'));
    assert_eq!(lines[2], "║  UBench v1.0.0 — 行业标准 U盘跑分                       ║");
    assert!(lines[4].starts_with('╚'));
    assert_eq!(lines[5], "");
    assert_eq!(lines[6], "  目标盘     : E:\\");
    assert_eq!(lines[7], "  测试模式   : QUICK (~1 分钟,4 项)");
    assert_eq!(lines[8], "  测试项数   : 4");
    assert_eq!(lines[9], "");
    let f = bench_banner("/mnt", BenchProfile::Full, "2");
    assert!(f.contains("  测试模式   : FULL (~10 分钟,6 项)\n  测试项数   : 6\n"));
}

#[test]
fn speed_curve_pairs_samples_by_position() {
    let write = vec![
        RunSample { offset_mb: 0, speed: 30.5f64 },
        RunSample { offset_mb: 64, speed: 28.0 },
        RunSample { offset_mb: 128, speed: 12.25 },
    ];
    let read = vec![RunSample { offset_mb: 0, speed: 90.0f64 }, RunSample { offset_mb: 64, speed: 88.5 }];
    let points = merge_speed_samples(&write, &read, 0.0);
    assert_eq!(points.len(), 3);
    assert_eq!((points[1].offset_mb, points[1].write_speed, points[1].read_speed), (64, 28.0, 88.5));
    assert_eq!((points[2].offset_mb, points[2].write_speed, points[2].read_speed), (128, 12.25, 0.0));
}

#[test]
fn speed_curve_takes_read_offsets_past_the_writes() {
    let write: Vec<RunSample<f64>> = vec![];
    let read = vec![RunSample { offset_mb: 7, speed: 1.5f64 }];
    let points = merge_speed_samples(&write, &read, 0.0);
    assert_eq!(points.len(), 1);
    assert_eq!((points[0].offset_mb, points[0].write_speed, points[0].read_speed), (7, 0.0, 1.5));
    assert!(merge_speed_samples::<f64>(&vec![], &vec![], 0.0).is_empty());
}
