//! The decisions of the command-line interface: which command runs with
//! which options, which drive a mount point names, and the text of the
//! benchmark banner. Parsing the command line, printing and file I/O are
//! done by the program around the library.

use vstd::prelude::*;
use crate::profile::{BenchProfile, spec_profile_name, spec_profile_tests};
use crate::report::{DriveInfo, InterfaceInfo};
use crate::device_info::{detect_for_mount, spec_unknown_interface};
use crate::text::{ascii_upper, decimal, decimal_string};

verus! {

/// How results are printed.
#[derive(Debug, Clone, Copy, PartialEq, Eq, Structural)]
pub enum OutputMode {
    /// JSON, for scripts and AI tools.
    Json,
    /// Tables and text.
    Human,
}

pub fn output_mode(json: bool) -> (m: OutputMode)
    ensures
        m == (if json { OutputMode::Json } else { OutputMode::Human }),
{
    if json {
        OutputMode::Json
    } else {
        OutputMode::Human
    }
}

/// The command line: `ubench [--json] [--db PATH] [-v] <command>`.
#[derive(Debug, Clone)]
pub struct Cli {
    /// Print JSON (for AI tools and scripts).
    pub json: bool,
    /// Report database path.
    pub db: String,
    /// Verbose logging.
    pub verbose: bool,
    pub command: Commands,
}

/// The commands.
#[derive(Debug, Clone)]
pub enum Commands {
    /// List USB drives.
    List,
    /// Details of one drive.
    Info { drive: String },
    /// Quality tests (capacity, speed, bad blocks, thermal).
    Test {
        mount: String,
        capacity: bool,
        speed: bool,
        badblock: bool,
        thermal: Option<u64>,
        all: bool,
        no_save: bool,
        export_html: Option<String>,
        test_size_mb: u64,
    },
    /// Report management.
    Report { action: ReportAction },
    /// The UBench v1.0 benchmark.
    Bench {
        mount: String,
        quick: bool,
        full: bool,
        asssd: bool,
        out: Option<String>,
        export_html: Option<String>,
    },
}

/// Report management actions.
#[derive(Debug, Clone)]
pub enum ReportAction {
    List,
    Show { id: String },
    Export { id: String, html: String },
    Delete { id: String },
}

/// The error for more than one of --quick / --full / --asssd.
pub open spec fn spec_mode_conflict_error() -> Seq<char> {
    "--quick / --full / --asssd 只能三选一"@
}

/// The error for --asssd, whose profile this library does not define.
pub open spec fn spec_asssd_unavailable_error() -> Seq<char> {
    "--asssd: the AS SSD compatibility profile is not available in this build"@
}

/// The profile of `ubench bench`: at most one of the three flags; --full
/// selects the full profile, no flag the quick one.
pub fn select_bench_profile(quick: bool, full: bool, asssd: bool) -> (r: Result<BenchProfile, String>)
    ensures
        (quick as int) + (full as int) + (asssd as int) > 1 ==> (r matches Err(e) && e@
            == spec_mode_conflict_error()),
        (quick as int) + (full as int) + (asssd as int) <= 1 ==> {
            &&& full ==> r == Ok::<BenchProfile, String>(BenchProfile::Full)
            &&& asssd ==> (r matches Err(e) && e@ == spec_asssd_unavailable_error())
            &&& !full && !asssd ==> r == Ok::<BenchProfile, String>(BenchProfile::Quick)
        },
{
    let count: u8 = (quick as u8) + (full as u8) + (asssd as u8);
    if count > 1 {
        return Err(String::from_str("--quick / --full / --asssd 只能三选一"));
    }
    if full {
        Ok(BenchProfile::Full)
    } else if asssd {
        Err(String::from_str("--asssd: the AS SSD compatibility profile is not available in this build"))
    } else {
        Ok(BenchProfile::Quick)
    }
}

/// Which quality tests `ubench test` runs.
#[derive(Debug, Clone, Copy, PartialEq, Eq, Structural)]
pub struct TestSelection {
    pub capacity: bool,
    pub speed: bool,
    pub badblock: bool,
    /// Thermal test duration in seconds.
    pub thermal: Option<u64>,
}

/// --all selects every test, with a 120-second thermal test.
pub fn test_selection(capacity: bool, speed: bool, badblock: bool, thermal: Option<u64>, all: bool) -> (s: TestSelection)
    ensures
        s == (TestSelection {
            capacity: capacity || all,
            speed: speed || all,
            badblock: badblock || all,
            thermal: if all { Some(120u64) } else { thermal },
        }),
{
    TestSelection {
        capacity: capacity || all,
        speed: speed || all,
        badblock: badblock || all,
        thermal: if all { Some(120) } else { thermal },
    }
}

pub open spec fn spec_no_test_error() -> Seq<char> {
    "No test selected. Use --capacity, --speed, --badblock, --thermal SECS, or --all"@
}

/// A selection without any test is refused.
pub fn check_selection(s: &TestSelection) -> (r: Result<(), String>)
    ensures
        r is Ok <==> (s.capacity || s.speed || s.badblock || s.thermal is Some),
        r matches Err(e) ==> e@ == spec_no_test_error(),
{
    if !s.capacity && !s.speed && !s.badblock && s.thermal.is_none() {
        Err(String::from_str("No test selected. Use --capacity, --speed, --badblock, --thermal SECS, or --all"))
    } else {
        Ok(())
    }
}

/// A sample of a speed run: where on the drive it was taken, and the speed.
#[derive(Debug, Clone, Copy)]
pub struct RunSample<S> {
    pub offset_mb: u64,
    pub speed: S,
}

/// A point of the speed curve: the write and read speed at one offset.
#[derive(Debug, Clone, Copy)]
pub struct SpeedPoint<S> {
    pub offset_mb: u64,
    pub write_speed: S,
    pub read_speed: S,
}

/// The `i`-th point of the curve: the `i`-th write and read samples, a
/// missing one counting as `zero`; the offset is the write sample's, else the
/// read sample's, else 0.
pub open spec fn spec_speed_point<S>(write: Seq<RunSample<S>>, read: Seq<RunSample<S>>, zero: S, i: int) -> SpeedPoint<S> {
    SpeedPoint {
        offset_mb: if i < write.len() { write[i].offset_mb } else if i < read.len() { read[i].offset_mb } else { 0 },
        write_speed: if i < write.len() { write[i].speed } else { zero },
        read_speed: if i < read.len() { read[i].speed } else { zero },
    }
}

/// Pairs the write and read samples of a speed test by position into one
/// curve, as long as the longer of the two.
pub fn merge_speed_samples<S: Copy>(write: &Vec<RunSample<S>>, read: &Vec<RunSample<S>>, zero: S) -> (points: Vec<SpeedPoint<S>>)
    ensures
        points@.len() == if write@.len() >= read@.len() { write@.len() } else { read@.len() },
        forall|i: int| 0 <= i < points@.len() ==> #[trigger] points@[i] == spec_speed_point(write@, read@, zero, i),
{
    let n: usize = if write.len() >= read.len() { write.len() } else { read.len() };
    let mut points: Vec<SpeedPoint<S>> = Vec::new();
    let mut i: usize = 0;
    while i < n
        invariant
            n == if write@.len() >= read@.len() { write@.len() } else { read@.len() },
            i <= n,
            points@.len() == i,
            forall|j: int| 0 <= j < i ==> #[trigger] points@[j] == spec_speed_point(write@, read@, zero, j),
        decreases n - i,
    {
        let write_speed: S = if i < write.len() { write[i].speed } else { zero };
        let read_speed: S = if i < read.len() { read[i].speed } else { zero };
        let offset_mb: u64 = if i < write.len() {
            write[i].offset_mb
        } else if i < read.len() {
            read[i].offset_mb
        } else {
            0
        };
        points.push(SpeedPoint { offset_mb, write_speed, read_speed });
        i = i + 1;
    }
    points
}

/// A removable drive as the drive list reports it.
#[derive(Debug, Clone)]
pub struct UsbDrive {
    pub name: String,
    pub path: String,
    pub mount_point: String,
    pub capacity_bytes: u64,
    pub free_bytes: u64,
    pub file_system: String,
    pub serial: String,
    pub is_removable: bool,
}

/// Index of the first drive whose device path or mount point is `key`.
pub open spec fn first_drive_named(drives: Seq<UsbDrive>, key: Seq<char>, from: int) -> Option<int>
    decreases drives.len() - from,
{
    if from < 0 || from >= drives.len() {
        None
    } else if drives[from].path@ == key || drives[from].mount_point@ == key {
        Some(from)
    } else {
        first_drive_named(drives, key, from + 1)
    }
}

/// The drive that a command names, by device path or mount point.
pub fn find_drive(drives: &Vec<UsbDrive>, key: &str) -> (r: Option<usize>)
    ensures
        match r {
            Some(i) => i < drives@.len() && first_drive_named(drives@, key@, 0) == Some(i as int),
            None => first_drive_named(drives@, key@, 0) is None,
        },
{
    let mut i: usize = drives.len();
    let mut found: Option<usize> = None;
    // scan from the end, keeping the earliest match
    while i > 0
        invariant
            i <= drives@.len(),
            match found {
                Some(j) => i <= j < drives@.len() && first_drive_named(drives@, key@, i as int)
                    == Some(j as int),
                None => first_drive_named(drives@, key@, i as int) is None,
            },
        decreases i,
    {
        i = i - 1;
        let d = &drives[i];
        if d.path == String::from_str(key) || d.mount_point == String::from_str(key) {
            found = Some(i);
        }
    }
    found
}

/// Unicode upper-casing of a character sequence.
pub uninterp spec fn unicode_upper(s: Seq<char>) -> Seq<char>;

/// Calls `str::to_uppercase`. Claimed: the result (the Unicode upper-case
/// mapping) is a function of the characters alone. Nothing more is stated of
/// it.
#[verifier::external_body]
fn to_uppercase(s: &str) -> (r: String)
    ensures
        r@ == unicode_upper(s@),
{
    s.to_uppercase()
}

/// `s` without trailing path separators (`\\` or `/`).
pub open spec fn strip_separators(s: Seq<char>) -> Seq<char>
    decreases s.len(),
{
    if s.len() > 0 && (s.last() == '\\' || s.last() == '/') {
        strip_separators(s.drop_last())
    } else {
        s
    }
}

/// The form under which mount points are compared.
pub open spec fn spec_normalize_mount(s: Seq<char>) -> Seq<char> {
    unicode_upper(strip_separators(s))
}

proof fn lemma_strip_take(s: Seq<char>, i: int)
    requires
        0 <= i <= s.len(),
        forall|j: int| i <= j < s.len() ==> (#[trigger] s[j] == '\\' || s[j] == '/'),
    ensures
        strip_separators(s) == strip_separators(s.take(i)),
    decreases s.len() - i,
{
    if i < s.len() {
        lemma_strip_take(s.drop_last(), i);
        assert(s.drop_last().take(i) =~= s.take(i));
    } else {
        assert(s.take(i) =~= s);
    }
}

/// Mount points compare without trailing separators and in upper case
/// ("e:\\" and "E:" name the same drive).
pub fn normalize_mount(s: &str) -> (r: String)
    ensures
        r@ == spec_normalize_mount(s@),
{
    let n = s.unicode_len();
    let mut b: usize = n;
    while b > 0 && (s.get_char(b - 1) == '\\' || s.get_char(b - 1) == '/')
        invariant
            n == s@.len(),
            b <= n,
            forall|j: int| b <= j < n ==> (#[trigger] s@[j] == '\\' || s@[j] == '/'),
        decreases b,
    {
        b = b - 1;
    }
    proof {
        lemma_strip_take(s@, b as int);
        assert(s@.take(b as int) =~= s@.subrange(0, b as int));
    }
    to_uppercase(s.substring_char(0, b))
}

/// Trailing separators do not change the drive a mount point names:
/// "E:\\" and "E:" normalize alike.
pub proof fn lemma_normalize_ignores_trailing_separator(s: Seq<char>, c: char)
    requires
        c == '\\' || c == '/',
    ensures
        spec_normalize_mount(s.push(c)) == spec_normalize_mount(s),
{
    assert(s.push(c).drop_last() =~= s);
}

/// Index of the first drive whose mount point normalizes like `mount`.
pub open spec fn first_mount_match(drives: Seq<UsbDrive>, mount: Seq<char>, from: int) -> Option<int>
    decreases drives.len() - from,
{
    if from < 0 || from >= drives.len() {
        None
    } else if spec_normalize_mount(drives[from].mount_point@) == spec_normalize_mount(mount) {
        Some(from)
    } else {
        first_mount_match(drives, mount, from + 1)
    }
}

/// The drive record of a report: from the first listed drive mounted at
/// `mount`, or a record with only the mount point when none is.
pub fn collect_drive_info(mount: &str, drives: &Vec<UsbDrive>) -> (r: DriveInfo)
    ensures
        match first_mount_match(drives@, mount@, 0) {
            Some(i) => {
                &&& r.mount_point@ == drives@[i].mount_point@
                &&& r.label@ == drives@[i].name@
                &&& r.file_system@ == drives@[i].file_system@
                &&& r.claimed_capacity_bytes == drives@[i].capacity_bytes
            },
            None => {
                &&& r.mount_point@ == mount@
                &&& r.label@ == Seq::<char>::empty()
                &&& r.file_system@ == Seq::<char>::empty()
                &&& r.claimed_capacity_bytes == 0
            },
        },
{
    let key = normalize_mount(mount);
    let mut i: usize = drives.len();
    let mut found: Option<usize> = None;
    while i > 0
        invariant
            i <= drives@.len(),
            key@ == spec_normalize_mount(mount@),
            match found {
                Some(j) => i <= j < drives@.len() && first_mount_match(drives@, mount@, i as int)
                    == Some(j as int),
                None => first_mount_match(drives@, mount@, i as int) is None,
            },
        decreases i,
    {
        i = i - 1;
        let norm = normalize_mount(drives[i].mount_point.as_str());
        if norm == key {
            found = Some(i);
        }
    }
    match found {
        Some(j) => {
            let d = &drives[j];
            DriveInfo {
                mount_point: d.mount_point.clone(),
                label: d.name.clone(),
                file_system: d.file_system.clone(),
                claimed_capacity_bytes: d.capacity_bytes,
            }
        },
        None => DriveInfo {
            mount_point: String::from_str(mount),
            label: String::new(),
            file_system: String::new(),
            claimed_capacity_bytes: 0,
        },
    }
}

/// The interface record of a report.
pub fn collect_interface_info(mount: &str) -> (r: InterfaceInfo)
    ensures
        spec_unknown_interface(r),
{
    detect_for_mount(mount)
}


/// Line 1 of the banner frame.
pub const BANNER_TOP: &'static str = "╔══════════════════════════════════════════════════════════════╗";
/// The version line, before and after the version.
pub const BANNER_VERSION_HEAD: &'static str = "║  UBench v";
pub const BANNER_VERSION_TAIL: &'static str = " — 行业标准 U盘跑分                       ║";
/// The line that names the method.
pub const BANNER_METHOD: &'static str = "║  绕过 OS 缓存的真实速度测量 (Direct I/O)                       ║";
/// The last line of the banner frame.
pub const BANNER_BOTTOM: &'static str = "╚══════════════════════════════════════════════════════════════╝";

/// The upper-case name of a profile and its duration note.
pub open spec fn spec_profile_note(p: BenchProfile) -> Seq<char> {
    match p {
        BenchProfile::Quick => "~1 分钟,4 项"@,
        BenchProfile::Full => "~10 分钟,6 项"@,
    }
}

/// The banner that `ubench bench` prints before it starts: a blank line,
/// the frame with the version, a blank line, the target, the profile and
/// its test count, and a blank line; every line ends with a newline.
pub open spec fn spec_bench_banner(mount: Seq<char>, p: BenchProfile, version: Seq<char>) -> Seq<char> {
    "\n"@ + BANNER_TOP@ + "\n"@ + BANNER_VERSION_HEAD@ + version + BANNER_VERSION_TAIL@ + "\n"@
        + BANNER_METHOD@ + "\n"@ + BANNER_BOTTOM@ + "\n"@ + "\n"@
        + "  目标盘     : "@ + mount + "\n"@
        + "  测试模式   : "@ + ascii_upper(spec_profile_name(p)) + " ("@ + spec_profile_note(p) + ")"@ + "\n"@
        + "  测试项数   : "@ + decimal(spec_profile_tests(p).len()) + "\n"@
        + "\n"@
}

pub fn bench_banner(mount: &str, profile: BenchProfile, version: &str) -> (s: String)
    ensures
        s@ == spec_bench_banner(mount@, profile, version@),
{
    let mut s = String::from_str("\n");
    s.append(BANNER_TOP);
    s.append("\n");
    s.append(BANNER_VERSION_HEAD);
    s.append(version);
    s.append(BANNER_VERSION_TAIL);
    s.append("\n");
    s.append(BANNER_METHOD);
    s.append("\n");
    s.append(BANNER_BOTTOM);
    s.append("\n");
    s.append("\n");
    s.append("  目标盘     : ");
    s.append(mount);
    s.append("\n");
    s.append("  测试模式   : ");
    let (upper, note): (&str, &str) = match profile {
        BenchProfile::Quick => ("QUICK", "~1 分钟,4 项"),
        BenchProfile::Full => ("FULL", "~10 分钟,6 项"),
    };
    proof {
        reveal_strlit("QUICK");
        reveal_strlit("quick");
        reveal_strlit("FULL");
        reveal_strlit("full");
        assert(upper@ =~= ascii_upper(spec_profile_name(profile)));
    }
    s.append(upper);
    s.append(" (");
    s.append(note);
    s.append(")");
    s.append("\n");
    s.append("  测试项数   : ");
    let tests = profile.tests();
    let count = decimal_string(tests.len() as u64);
    proof {
        assert(tests@.map_values(|t: crate::profile::TestSpec| t@).len() == tests@.len());
    }
    s.append(count.as_str());
    s.append("\n");
    s.append("\n");
    s
}

} // verus!
