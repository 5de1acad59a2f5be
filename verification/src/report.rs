//! Report records (host, drive and interface), device classification, and
//! the report signature: SHA-256 over the canonical JSON payload, written in
//! lower-case hex. Anyone can recompute it to check that a report was not
//! altered.

use vstd::prelude::*;
use crate::text::{ascii_upper, upper_equals};
use sha2::{Digest, Sha256};
use vstd::string::StringSliceAdditionalSpecFns;

verus! {

/// The machine a report was produced on.
#[derive(Debug, Clone)]
pub struct HostInfo {
    pub os: String,
    pub arch: String,
    pub hostname: String,
}

/// The drive under test.
#[derive(Debug, Clone)]
pub struct DriveInfo {
    pub mount_point: String,
    pub label: String,
    pub file_system: String,
    pub claimed_capacity_bytes: u64,
}

/// How the drive is attached, best-effort.
#[derive(Debug, Clone)]
pub struct InterfaceInfo {
    /// Bus type as reported by the OS ("USB", "NVMe", "SATA", ...).
    pub bus_type: String,
    /// USB version if known.
    pub usb_version: Option<String>,
    /// Negotiated link speed in MB/s, if known.
    pub link_speed_mbps: Option<u32>,
    /// Device classification; a label only, the score formula is the same for all.
    pub device_class: DeviceClass,
    /// Hardware model string.
    pub model: String,
    /// Media type from the OS (SSD / HDD / Unspecified).
    pub media_type: String,
}

/// Kind of storage device.
#[derive(Debug, Clone, Copy, PartialEq, Eq, Structural)]
pub enum DeviceClass {
    /// Plain USB stick (USB bus, no SSD media).
    UsbFlashDrive,
    /// Portable SSD in a USB enclosure.
    PortableSsd,
    /// USB-attached spinning hard disk.
    UsbHardDisk,
    /// Internal NVMe SSD.
    NvmeSsd,
    /// Internal SATA SSD.
    SataSsd,
    /// Internal SATA hard disk.
    HardDisk,
    /// Cannot be determined from OS metadata.
    Unknown,
}

pub open spec fn spec_device_class_label(c: DeviceClass) -> Seq<char> {
    match c {
        DeviceClass::UsbFlashDrive => "USB Flash Drive (U盘)"@,
        DeviceClass::PortableSsd => "Portable SSD (移动固态)"@,
        DeviceClass::UsbHardDisk => "USB Hard Disk (USB 移动硬盘)"@,
        DeviceClass::NvmeSsd => "NVMe SSD"@,
        DeviceClass::SataSsd => "SATA SSD"@,
        DeviceClass::HardDisk => "Hard Disk Drive (机械硬盘)"@,
        DeviceClass::Unknown => "Unknown"@,
    }
}

/// Classification from bus type, media type and spindle speed, with bus and
/// media compared after ASCII upper-casing.
pub open spec fn spec_classify(bus: Seq<char>, media: Seq<char>, spindle_rpm: u32) -> DeviceClass {
    let b = ascii_upper(bus);
    let m = ascii_upper(media);
    if b == "USB"@ {
        if m == "SSD"@ {
            DeviceClass::PortableSsd
        } else if m == "HDD"@ {
            DeviceClass::UsbHardDisk
        } else if spindle_rpm > 0 {
            DeviceClass::UsbHardDisk
        } else {
            DeviceClass::UsbFlashDrive
        }
    } else if b == "NVME"@ {
        DeviceClass::NvmeSsd
    } else if b == "SATA"@ {
        if m == "SSD"@ {
            DeviceClass::SataSsd
        } else if m == "HDD"@ {
            DeviceClass::HardDisk
        } else if spindle_rpm > 0 {
            DeviceClass::HardDisk
        } else {
            DeviceClass::SataSsd
        }
    } else {
        DeviceClass::Unknown
    }
}

impl DeviceClass {
    pub fn label(self) -> (s: &'static str)
        ensures
            s@ == spec_device_class_label(self),
    {
        match self {
            DeviceClass::UsbFlashDrive => "USB Flash Drive (U盘)",
            DeviceClass::PortableSsd => "Portable SSD (移动固态)",
            DeviceClass::UsbHardDisk => "USB Hard Disk (USB 移动硬盘)",
            DeviceClass::NvmeSsd => "NVMe SSD",
            DeviceClass::SataSsd => "SATA SSD",
            DeviceClass::HardDisk => "Hard Disk Drive (机械硬盘)",
            DeviceClass::Unknown => "Unknown",
        }
    }

    /// Classify by bus ("USB" / "NVMe" / "SATA" / ...), media ("SSD" / "HDD" /
    /// "Unspecified" / "") and spindle speed (0 for SSDs); letter case is ignored.
    pub fn classify(bus: &str, media: &str, spindle_rpm: u32) -> (c: DeviceClass)
        ensures
            c == spec_classify(bus@, media@, spindle_rpm),
    {
        let is_ssd = upper_equals(media, "SSD");
        let is_hdd = upper_equals(media, "HDD");
        if upper_equals(bus, "USB") {
            if is_ssd {
                DeviceClass::PortableSsd
            } else if is_hdd {
                DeviceClass::UsbHardDisk
            } else if spindle_rpm > 0 {
                DeviceClass::UsbHardDisk
            } else {
                DeviceClass::UsbFlashDrive
            }
        } else if upper_equals(bus, "NVME") {
            DeviceClass::NvmeSsd
        } else if upper_equals(bus, "SATA") {
            if is_ssd {
                DeviceClass::SataSsd
            } else if is_hdd {
                DeviceClass::HardDisk
            } else if spindle_rpm > 0 {
                DeviceClass::HardDisk
            } else {
                DeviceClass::SataSsd
            }
        } else {
            DeviceClass::Unknown
        }
    }
}

/// Classification ignores letter case: bus and media that differ only in
/// ASCII case classify alike.
pub proof fn lemma_classify_ignores_case(bus: Seq<char>, media: Seq<char>, spindle_rpm: u32)
    ensures
        spec_classify(bus, media, spindle_rpm) == spec_classify(
            ascii_upper(bus),
            ascii_upper(media),
            spindle_rpm,
        ),
{
    assert(ascii_upper(ascii_upper(bus)) =~= ascii_upper(bus));
    assert(ascii_upper(ascii_upper(media)) =~= ascii_upper(media));
}

/// The SHA-256 digest of a byte sequence.
pub uninterp spec fn sha256(data: Seq<u8>) -> Seq<u8>;

/// Calls `sha2::Sha256::digest` (through `digest::Digest`). Claimed: the
/// result is the digest of the input bytes (a function of them alone) and it
/// is 32 bytes long, the output size of `Sha256`.
#[verifier::external_body]
fn sha256_digest(data: &[u8]) -> (d: Vec<u8>)
    ensures
        d@ == sha256(data@),
        d@.len() == 32,
{
    Sha256::digest(data).to_vec()
}

/// Lower-case hex digit of a nibble.
pub open spec fn hex_digit(n: nat) -> char {
    if n < 10 {
        (48 + n) as char
    } else {
        (87 + n) as char
    }
}

/// Lower-case hex of bytes, two digits per byte, high nibble first.
pub open spec fn hex_lower(d: Seq<u8>) -> Seq<char> {
    Seq::new(
        2 * d.len(),
        |i: int|
            if i % 2 == 0 {
                hex_digit((d[i / 2] / 16) as nat)
            } else {
                hex_digit((d[i / 2] % 16) as nat)
            },
    )
}

/// The signature of a canonical payload.
pub open spec fn spec_signature(payload: Seq<u8>) -> Seq<char> {
    hex_lower(sha256(payload))
}

fn hex_digit_str(n: u8) -> (s: &'static str)
    requires
        n < 16,
    ensures
        s@ == seq![hex_digit(n as nat)],
{
    proof {
        reveal_strlit("0");
        reveal_strlit("1");
        reveal_strlit("2");
        reveal_strlit("3");
        reveal_strlit("4");
        reveal_strlit("5");
        reveal_strlit("6");
        reveal_strlit("7");
        reveal_strlit("8");
        reveal_strlit("9");
        reveal_strlit("a");
        reveal_strlit("b");
        reveal_strlit("c");
        reveal_strlit("d");
        reveal_strlit("e");
        reveal_strlit("f");
    }
    let s = match n {
        0 => "0",
        1 => "1",
        2 => "2",
        3 => "3",
        4 => "4",
        5 => "5",
        6 => "6",
        7 => "7",
        8 => "8",
        9 => "9",
        10 => "a",
        11 => "b",
        12 => "c",
        13 => "d",
        14 => "e",
        _ => "f",
    };
    assert(s@ =~= seq![hex_digit(n as nat)]);
    s
}

/// Bytes in lower-case hex, as `format!("{:x}", digest)` writes a digest.
pub fn to_hex_lower(data: &[u8]) -> (s: String)
    ensures
        s@ == hex_lower(data@),
{
    let mut s = String::new();
    let mut i: usize = 0;
    while i < data.len()
        invariant
            i <= data@.len(),
            s@ == hex_lower(data@.take(i as int)),
        decreases data@.len() - i,
    {
        let b = data[i];
        let hi = hex_digit_str(b / 16);
        let lo = hex_digit_str(b % 16);
        s.append(hi);
        s.append(lo);
        assert(s@ =~= hex_lower(data@.take(i + 1)));
        i = i + 1;
    }
    assert(data@.take(data@.len() as int) =~= data@);
    s
}

/// The signature of a report: SHA-256 of its canonical JSON payload (every
/// field but the signature), in lower-case hex.
pub fn compute_signature(canonical_payload: &str) -> (sig: String)
    ensures
        sig@ == spec_signature(canonical_payload.spec_bytes()),
        sig@.len() == 64,
        forall|i: int| 0 <= i < sig@.len() ==> is_lower_hex(#[trigger] sig@[i]),
{
    let digest = sha256_digest(canonical_payload.as_bytes());
    let sig = to_hex_lower(digest.as_slice());
    proof {
        lemma_hex_lower_shape(digest@);
    }
    sig
}

/// A lower-case hexadecimal digit.
pub open spec fn is_lower_hex(c: char) -> bool {
    ('0' <= c && c <= '9') || ('a' <= c && c <= 'f')
}

/// Hex text is twice as long as its bytes and made of lower-case hex digits.
pub proof fn lemma_hex_lower_shape(d: Seq<u8>)
    ensures
        hex_lower(d).len() == 2 * d.len(),
        forall|i: int| 0 <= i < hex_lower(d).len() ==> is_lower_hex(#[trigger] hex_lower(d)[i]),
{
    assert forall|i: int| 0 <= i < hex_lower(d).len() implies is_lower_hex(
        #[trigger] hex_lower(d)[i],
    ) by {
        let b = d[i / 2];
        assert(b / 16 < 16 && b % 16 < 16);
    }
}

/// A report checks out when its signature is the one computed over its payload.
pub open spec fn spec_verifies(signature: Seq<char>, payload: Seq<u8>) -> bool {
    signature == spec_signature(payload)
}

/// Whether `signature` is the signature of the payload.
pub fn verify_signature(signature: &str, canonical_payload: &str) -> (ok: bool)
    ensures
        ok == spec_verifies(signature@, canonical_payload.spec_bytes()),
{
    let expected = compute_signature(canonical_payload);
    let given = String::from_str(signature);
    given == expected
}

/// A freshly signed report verifies, and so does every report whose payload
/// and signature are left as they were; a report verifies under one
/// signature only.
pub proof fn lemma_signed_report_verifies(payload: Seq<u8>, signature: Seq<char>)
    ensures
        spec_verifies(spec_signature(payload), payload),
        spec_verifies(signature, payload) ==> signature == spec_signature(payload),
{
}

} // verus!
