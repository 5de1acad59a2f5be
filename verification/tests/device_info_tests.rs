use ubench::device_info::{
    detect_for_mount, detect_usb_version, drive_letter, interface_from_probe_output, parse_u32,
    probe_script, split_str, trim_str, PROBE_HEAD, PROBE_TAIL,
};
use ubench::report::DeviceClass;

#[test]
fn trim_removes_unicode_whitespace() {
    assert_eq!(trim_str("  a b \t\n"), "a b");
    assert_eq!(trim_str("\u{3000}x\u{a0}"), "x");
    assert_eq!(trim_str("   "), "");
    assert_eq!(trim_str(""), "");
    for s in ["\r\nUSB|Model X|SSD|0|512\r\n", " \u{2003}y ", "z"] {
        assert_eq!(trim_str(s), s.trim());
    }
}

#[test]
fn split_matches_str_split() {
    for s in ["a|b||c", "", "|", "||||", "abc", "USB|SanDisk|Unspecified|0|512"] {
        let mine = split_str(s, '|');
        let theirs: Vec<String> = s.split('|').map(|x| x.to_string()).collect();
        assert_eq!(mine, theirs);
    }
}

#[test]
fn parse_u32_matches_str_parse() {
    for s in ["0", "7200", "+5", "+", "", "-1", "4294967295", "4294967296", "12a", " 1", "007", "99999999999999999999"] {
        assert_eq!(parse_u32(s), s.parse::<u32>().ok(), "{}", s);
    }
}

#[test]
fn probe_answer_of_a_usb_stick() {
    let r = interface_from_probe_output("USB|SanDisk Ultra|Unspecified|0|512\r\n");
    assert_eq!(r.bus_type, "USB");
    assert_eq!(r.model, "SanDisk Ultra");
    assert_eq!(r.media_type, "Unspecified");
    assert_eq!(r.device_class, DeviceClass::UsbFlashDrive);
    assert_eq!(r.usb_version, None);
    assert_eq!(r.link_speed_mbps, None);
}

#[test]
fn probe_answer_of_a_usb_hard_disk_and_an_nvme() {
    let r = interface_from_probe_output(" USB | WD Passport | Unspecified | 5400 | 4096 ");
    assert_eq!(r.device_class, DeviceClass::UsbHardDisk);
    assert_eq!(r.model, "WD Passport");
    let r = interface_from_probe_output("NVMe|Samsung MZAL4512HBLU-00BL2|SSD|0|512");
    assert_eq!(r.device_class, DeviceClass::NvmeSsd);
    assert_eq!(r.bus_type, "NVMe");
}

#[test]
fn failed_probe_reports_unknown() {
    for out in ["", "|||||", "garbage"] {
        let r = interface_from_probe_output(out);
        assert_eq!(r.device_class, DeviceClass::Unknown);
        assert_eq!(r.media_type, "");
    }
    assert_eq!(interface_from_probe_output("|||||").bus_type, "Unknown");
    assert_eq!(interface_from_probe_output("").model, "");
    assert_eq!(interface_from_probe_output("garbage").bus_type, "garbage");
}

#[test]
fn unreadable_spindle_speed_counts_as_zero() {
    let r = interface_from_probe_output("SATA|Disk|Unspecified|fast|512");
    assert_eq!(r.device_class, DeviceClass::SataSsd);
    let r = interface_from_probe_output("SATA|Disk|Unspecified");
    assert_eq!(r.device_class, DeviceClass::SataSsd);
}

#[test]
fn no_probe_means_unknown_interface() {
    let r = detect_for_mount("/Volumes/USB");
    assert_eq!(r.bus_type, "Unknown");
    assert_eq!(r.device_class, DeviceClass::Unknown);
    assert_eq!(r.model, "");
    assert_eq!(r.media_type, "");
    assert_eq!(r.usb_version, None);
    assert_eq!(detect_usb_version(DeviceClass::PortableSsd), None);
}

#[test]
fn probe_script_names_the_drive_letter() {
    assert_eq!(drive_letter("e:\\"), 'E');
    assert_eq!(drive_letter(""), '?');
    let s = probe_script("f:\\");
    assert_eq!(s, format!("{}F{}", PROBE_HEAD, PROBE_TAIL));
    assert!(s.contains("Get-Partition -DriveLetter 'F' 2>$null"));
    assert!(s.starts_with("\n$ErrorActionPreference = 'SilentlyContinue'\n"));
    assert!(s.ends_with("Write-Host \"$bus|$model|$media|$spindle|$linkSpeed\"\n"));
}
