use ubench::report::{compute_signature, to_hex_lower, verify_signature, DeviceClass};

#[test]
fn device_class_labels() {
    assert_eq!(DeviceClass::UsbFlashDrive.label(), "USB Flash Drive (U盘)");
    assert_eq!(DeviceClass::PortableSsd.label(), "Portable SSD (移动固态)");
    assert_eq!(DeviceClass::UsbHardDisk.label(), "USB Hard Disk (USB 移动硬盘)");
    assert_eq!(DeviceClass::NvmeSsd.label(), "NVMe SSD");
    assert_eq!(DeviceClass::SataSsd.label(), "SATA SSD");
    assert_eq!(DeviceClass::HardDisk.label(), "Hard Disk Drive (机械硬盘)");
    assert_eq!(DeviceClass::Unknown.label(), "Unknown");
}

#[test]
fn classification_by_bus_and_media() {
    assert_eq!(DeviceClass::classify("USB", "SSD", 0), DeviceClass::PortableSsd);
    assert_eq!(DeviceClass::classify("USB", "HDD", 0), DeviceClass::UsbHardDisk);
    assert_eq!(DeviceClass::classify("USB", "Unspecified", 0), DeviceClass::UsbFlashDrive);
    assert_eq!(DeviceClass::classify("USB", "Unspecified", 5400), DeviceClass::UsbHardDisk);
    assert_eq!(DeviceClass::classify("NVMe", "", 0), DeviceClass::NvmeSsd);
    assert_eq!(DeviceClass::classify("SATA", "SSD", 0), DeviceClass::SataSsd);
    assert_eq!(DeviceClass::classify("SATA", "HDD", 0), DeviceClass::HardDisk);
    assert_eq!(DeviceClass::classify("SATA", "", 7200), DeviceClass::HardDisk);
    assert_eq!(DeviceClass::classify("SATA", "", 0), DeviceClass::SataSsd);
    assert_eq!(DeviceClass::classify("SCSI", "SSD", 0), DeviceClass::Unknown);
    assert_eq!(DeviceClass::classify("", "", 0), DeviceClass::Unknown);
}

#[test]
fn classification_ignores_ascii_case() {
    assert_eq!(DeviceClass::classify("usb", "ssd", 0), DeviceClass::PortableSsd);
    assert_eq!(DeviceClass::classify("nvme", "x", 0), DeviceClass::NvmeSsd);
    assert_eq!(DeviceClass::classify("Sata", "hdd", 0), DeviceClass::HardDisk);
    assert_eq!(DeviceClass::classify(" USB", "SSD", 0), DeviceClass::Unknown);
}

#[test]
fn hex_encoding_is_lower_case() {
    assert_eq!(to_hex_lower(&[0x00, 0xab, 0x0f, 0xf0]), "00ab0ff0");
    assert_eq!(to_hex_lower(&[]), "");
}

#[test]
fn signature_is_sha256_in_lower_hex() {
    assert_eq!(
        compute_signature("abc"),
        "ba7816bf8f01cfea414140de5dae2223b00361a396177a9cb410ff61f20015ad"
    );
    assert_eq!(
        compute_signature(""),
        "e3b0c44298fc1c149afbf4c8996fb92427ae41e4649b934ca495991b7852b855"
    );
    assert_eq!(compute_signature("{\"a\":1}").len(), 64);
}

#[test]
fn signed_payload_verifies_and_altered_payload_does_not() {
    let payload = "{\"ubench_version\":\"1.0.0\",\"score\":{\"ubs\":88}}";
    let sig = compute_signature(payload);
    assert!(verify_signature(&sig, payload));
    assert!(!verify_signature(&sig, "{\"ubench_version\":\"1.0.0\",\"score\":{\"ubs\":98}}"));
    assert!(!verify_signature("deadbeef", payload));
}
