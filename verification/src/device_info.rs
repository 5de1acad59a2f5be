//! Device-info detection: bus type, media type and model, used to label
//! reports. The score formula is the same whatever the device class.
//!
//! On Windows the drive is probed with a PowerShell script whose one-line,
//! `|`-separated answer is parsed here; elsewhere nothing is probed.

use vstd::prelude::*;
use crate::report::{DeviceClass, InterfaceInfo, spec_classify};
use crate::text::{upper_char, to_upper_char, push_char};

verus! {

/// `char::is_whitespace`: the Unicode White_Space property.
pub open spec fn is_ws(c: char) -> bool {
    let u = c as u32;
    ||| 0x09 <= u <= 0x0d
    ||| u == 0x20
    ||| u == 0x85
    ||| u == 0xa0
    ||| u == 0x1680
    ||| 0x2000 <= u <= 0x200a
    ||| u == 0x2028
    ||| u == 0x2029
    ||| u == 0x202f
    ||| u == 0x205f
    ||| u == 0x3000
}

pub fn is_whitespace(c: char) -> (b: bool)
    ensures
        b == is_ws(c),
{
    let u = c as u32;
    (0x09 <= u && u <= 0x0d) || u == 0x20 || u == 0x85 || u == 0xa0 || u == 0x1680 || (0x2000
        <= u && u <= 0x200a) || u == 0x2028 || u == 0x2029 || u == 0x202f || u == 0x205f || u
        == 0x3000
}

/// `s` without leading whitespace.
pub open spec fn trim_start(s: Seq<char>) -> Seq<char>
    decreases s.len(),
{
    if s.len() > 0 && is_ws(s[0]) {
        trim_start(s.drop_first())
    } else {
        s
    }
}

/// `s` without trailing whitespace.
pub open spec fn trim_end(s: Seq<char>) -> Seq<char>
    decreases s.len(),
{
    if s.len() > 0 && is_ws(s.last()) {
        trim_end(s.drop_last())
    } else {
        s
    }
}

/// `str::trim`.
pub open spec fn trim(s: Seq<char>) -> Seq<char> {
    trim_end(trim_start(s))
}

proof fn lemma_trim_start_skip(s: Seq<char>, i: int)
    requires
        0 <= i <= s.len(),
        forall|j: int| 0 <= j < i ==> is_ws(#[trigger] s[j]),
    ensures
        trim_start(s) == trim_start(s.skip(i)),
    decreases i,
{
    if i > 0 {
        assert(s.skip(1) == s.drop_first());
        lemma_trim_start_skip(s.drop_first(), i - 1);
        assert(s.drop_first().skip(i - 1) =~= s.skip(i));
    } else {
        assert(s.skip(0) =~= s);
    }
}

proof fn lemma_trim_end_take(s: Seq<char>, i: int)
    requires
        0 <= i <= s.len(),
        forall|j: int| i <= j < s.len() ==> is_ws(#[trigger] s[j]),
    ensures
        trim_end(s) == trim_end(s.take(i)),
    decreases s.len() - i,
{
    if i < s.len() {
        lemma_trim_end_take(s.drop_last(), i);
        assert(s.drop_last().take(i) =~= s.take(i));
    } else {
        assert(s.take(i) =~= s);
    }
}

/// `s.trim()`.
pub fn trim_str(s: &str) -> (r: String)
    ensures
        r@ == trim(s@),
{
    let n = s.unicode_len();
    let mut a: usize = 0;
    while a < n && is_whitespace(s.get_char(a))
        invariant
            n == s@.len(),
            a <= n,
            forall|j: int| 0 <= j < a ==> is_ws(#[trigger] s@[j]),
        decreases n - a,
    {
        a = a + 1;
    }
    proof {
        lemma_trim_start_skip(s@, a as int);
    }
    let ghost t = s@.skip(a as int);
    assert(a < n ==> !is_ws(t[0]));
    assert(trim_start(t) == t);
    let mut b: usize = n;
    while b > a && is_whitespace(s.get_char(b - 1))
        invariant
            n == s@.len(),
            a <= b <= n,
            forall|j: int| b <= j < n ==> is_ws(#[trigger] s@[j]),
        decreases b,
    {
        b = b - 1;
    }
    proof {
        let k = (b - a) as int;
        assert forall|j: int| k <= j < t.len() implies is_ws(#[trigger] t[j]) by {
            assert(t[j] == s@[a + j]);
        }
        lemma_trim_end_take(t, k);
        assert(t.take(k) =~= s@.subrange(a as int, b as int));
        if k > 0 {
            assert(t.take(k).last() == s@[b - 1]);
        }
        assert(trim_end(t.take(k)) == t.take(k));
    }
    String::from_str(s.substring_char(a, b))
}

/// `s.split(sep)`: the pieces between separators; never empty.
pub open spec fn split_fields(s: Seq<char>, sep: char) -> Seq<Seq<char>>
    decreases s.len(),
{
    if s.len() == 0 {
        seq![Seq::<char>::empty()]
    } else {
        let p = split_fields(s.drop_last(), sep);
        if s.last() == sep {
            p.push(Seq::<char>::empty())
        } else {
            p.update(p.len() - 1, p.last().push(s.last()))
        }
    }
}

proof fn lemma_split_nonempty(s: Seq<char>, sep: char)
    ensures
        split_fields(s, sep).len() >= 1,
    decreases s.len(),
{
    if s.len() > 0 {
        lemma_split_nonempty(s.drop_last(), sep);
    }
}

/// `s.split(sep)`, each piece owned.
pub fn split_str(s: &str, sep: char) -> (v: Vec<String>)
    ensures
        v@.map_values(|x: String| x@) == split_fields(s@, sep),
{
    let n = s.unicode_len();
    let mut fields: Vec<String> = Vec::new();
    let mut start: usize = 0;
    let mut i: usize = 0;
    assert(fields@.map_values(|x: String| x@) =~= Seq::<Seq<char>>::empty());
    assert(s@.subrange(0, 0) =~= Seq::<char>::empty());
    assert(fields@.map_values(|x: String| x@).push(s@.subrange(0, 0)) =~= seq![
        Seq::<char>::empty(),
    ]);
    assert(s@.take(0) =~= Seq::<char>::empty());
    while i < n
        invariant
            n == s@.len(),
            start <= i <= n,
            fields@.map_values(|x: String| x@).push(s@.subrange(start as int, i as int))
                == split_fields(s@.take(i as int), sep),
        decreases n - i,
    {
        proof {
            lemma_split_nonempty(s@.take(i as int), sep);
            assert(s@.take(i + 1).drop_last() =~= s@.take(i as int));
        }
        let c = s.get_char(i);
        if c == sep {
            let piece = String::from_str(s.substring_char(start, i));
            let ghost before = fields@.map_values(|x: String| x@);
            fields.push(piece);
            assert(fields@.map_values(|x: String| x@) =~= before.push(
                s@.subrange(start as int, i as int),
            ));
            start = i + 1;
            assert(s@.subrange(start as int, i + 1) =~= Seq::<char>::empty());
        } else {
            assert(s@.subrange(start as int, i + 1) =~= s@.subrange(start as int, i as int).push(
                c,
            ));
        }
        i = i + 1;
    }
    let last = String::from_str(s.substring_char(start, n));
    fields.push(last);
    assert(s@.take(n as int) =~= s@);
    assert(fields@.map_values(|x: String| x@) =~= split_fields(s@, sep));
    fields
}

/// Whether a character is an ASCII digit.
pub open spec fn is_digit(c: char) -> bool {
    '0' <= c && c <= '9'
}

/// The value of a string of ASCII digits.
pub open spec fn digits_value(d: Seq<char>) -> nat
    decreases d.len(),
{
    if d.len() == 0 {
        0
    } else {
        digits_value(d.drop_last()) * 10 + ((d.last() as u32) - 48) as nat
    }
}

/// The digits of an unsigned number: `s` without one leading `+`.
pub open spec fn unsigned_digits(s: Seq<char>) -> Seq<char> {
    if s.len() > 0 && s[0] == '+' { s.drop_first() } else { s }
}

/// Whether every character is an ASCII digit.
pub open spec fn all_digits(d: Seq<char>) -> bool {
    forall|i: int| 0 <= i < d.len() ==> is_digit(#[trigger] d[i])
}

/// `str::parse::<u32>()`: an optional `+`, then at least one ASCII digit,
/// with a value that fits in `u32`.
pub open spec fn spec_parse_u32(s: Seq<char>) -> Option<u32> {
    let d = unsigned_digits(s);
    if d.len() > 0 && all_digits(d) && digits_value(d) <= u32::MAX {
        Some(digits_value(d) as u32)
    } else {
        None
    }
}

/// `s.parse::<u32>().ok()`.
pub fn parse_u32(s: &str) -> (r: Option<u32>)
    ensures
        r == spec_parse_u32(s@),
{
    let n = s.unicode_len();
    let mut i: usize = 0;
    if n > 0 && s.get_char(0) == '+' {
        i = 1;
    }
    let ghost d = unsigned_digits(s@);
    assert(d =~= s@.skip(i as int));
    if i >= n {
        return None;
    }
    let start = i;
    // value of the digits so far, saturated at 2^32
    let mut acc: u64 = 0;
    while i < n
        invariant
            n == s@.len(),
            start <= i <= n,
            d =~= s@.skip(start as int),
            d == unsigned_digits(s@),
            forall|j: int| start <= j < i ==> is_digit(#[trigger] s@[j]),
            acc == if digits_value(s@.subrange(start as int, i as int)) > u32::MAX {
                0x1_0000_0000nat
            } else {
                digits_value(s@.subrange(start as int, i as int))
            },
        decreases n - i,
    {
        let c = s.get_char(i);
        if !('0' <= c && c <= '9') {
            assert(d[i - start] == c);
            assert(!is_digit(d[i - start]));
            assert(d.len() == n - start);
            assert(!all_digits(d));
            return None;
        }
        let v = (c as u32 - 48) as u64;
        let ghost prev = s@.subrange(start as int, i as int);
        assert(s@.subrange(start as int, i + 1).drop_last() =~= prev);
        assert(digits_value(s@.subrange(start as int, i + 1)) == digits_value(prev) * 10 + v);
        let next = acc * 10 + v;
        acc = if next > 0xffff_ffff { 0x1_0000_0000 } else { next };
        i = i + 1;
    }
    assert(s@.subrange(start as int, n as int) =~= d);
    if acc > 0xffff_ffff {
        None
    } else {
        Some(acc as u32)
    }
}

/// The piece `k` of a split line, or `default` when there are fewer pieces.
pub open spec fn piece_or(parts: Seq<Seq<char>>, k: int, default: Seq<char>) -> Seq<char> {
    if k < parts.len() { parts[k] } else { default }
}

/// The interface record of a drive that could not be probed.
pub open spec fn spec_unknown_interface(r: InterfaceInfo) -> bool {
    &&& r.bus_type@ == "Unknown"@
    &&& r.usb_version is None
    &&& r.link_speed_mbps is None
    &&& r.device_class == DeviceClass::Unknown
    &&& r.model@ == Seq::<char>::empty()
    &&& r.media_type@ == Seq::<char>::empty()
}

/// The record described by a probe answer "bus|model|media|spindle|...":
/// each field trimmed, a missing or unreadable spindle speed taken as 0,
/// an empty bus reported as "Unknown".
pub open spec fn spec_probe_interface(out: Seq<char>, r: InterfaceInfo) -> bool {
    let parts = split_fields(trim(out), '|');
    let bus = trim(piece_or(parts, 0, Seq::empty()));
    let model = trim(piece_or(parts, 1, Seq::empty()));
    let media = trim(piece_or(parts, 2, Seq::empty()));
    let spindle = match spec_parse_u32(trim(piece_or(parts, 3, "0"@))) {
        Some(v) => v,
        None => 0u32,
    };
    &&& r.bus_type@ == (if bus.len() == 0 { "Unknown"@ } else { bus })
    &&& r.usb_version is None
    &&& r.link_speed_mbps is None
    &&& r.device_class == spec_classify(bus, media, spindle)
    &&& r.model@ == model
    &&& r.media_type@ == media
}

/// USB version of a device. Reading it needs the USB device descriptors,
/// which are not queried, so it is never known.
pub fn detect_usb_version(class: DeviceClass) -> (v: Option<String>)
    ensures
        v is None,
{
    None
}

fn piece(parts: &Vec<String>, k: usize, default: &str) -> (r: String)
    ensures
        r@ == piece_or(parts@.map_values(|x: String| x@), k as int, default@),
{
    if k < parts.len() {
        parts[k].clone()
    } else {
        String::from_str(default)
    }
}

/// Parse the answer of the device probe (its standard output).
pub fn interface_from_probe_output(out: &str) -> (r: InterfaceInfo)
    ensures
        spec_probe_interface(out@, r),
{
    let line = trim_str(out);
    let parts = split_str(line.as_str(), '|');
    let bus_raw = piece(&parts, 0, "");
    let bus = trim_str(bus_raw.as_str());
    let model_raw = piece(&parts, 1, "");
    let model = trim_str(model_raw.as_str());
    let media_raw = piece(&parts, 2, "");
    let media = trim_str(media_raw.as_str());
    let spindle_raw = piece(&parts, 3, "0");
    let spindle_text = trim_str(spindle_raw.as_str());
    let spindle: u32 = match parse_u32(spindle_text.as_str()) {
        Some(v) => v,
        None => 0,
    };
    let device_class = DeviceClass::classify(bus.as_str(), media.as_str(), spindle);
    proof {
        reveal_strlit("");
        let ps = split_fields(trim(out@), '|');
        assert(parts@.map_values(|x: String| x@) == ps);
        assert(bus@ == trim(piece_or(ps, 0, Seq::empty())));
        assert(media@ == trim(piece_or(ps, 2, Seq::empty())));
        assert(spindle_text@ == trim(piece_or(ps, 3, "0"@)));
        assert(spindle == match spec_parse_u32(trim(piece_or(ps, 3, "0"@))) {
            Some(v) => v,
            None => 0u32,
        });
    }
    let bus_type = if bus.as_str().unicode_len() == 0 {
        String::from_str("Unknown")
    } else {
        bus
    };
    InterfaceInfo {
        bus_type,
        usb_version: detect_usb_version(device_class),
        link_speed_mbps: None,
        device_class,
        model,
        media_type: media,
    }
}

/// The record of a drive that could not be probed.
pub fn unknown_interface() -> (r: InterfaceInfo)
    ensures
        spec_unknown_interface(r),
{
    InterfaceInfo {
        bus_type: String::from_str("Unknown"),
        usb_version: None,
        link_speed_mbps: None,
        device_class: DeviceClass::Unknown,
        model: String::new(),
        media_type: String::new(),
    }
}

/// Device info for a mount point where no device probe is available (every
/// system but Windows): the unknown record. Never fails.
pub fn detect_for_mount(mount: &str) -> (r: InterfaceInfo)
    ensures
        spec_unknown_interface(r),
{
    unknown_interface()
}

/// The drive letter of a Windows mount point ("E" for "e:\\"), '?' for an
/// empty one.
pub open spec fn spec_drive_letter(mount: Seq<char>) -> char {
    if mount.len() > 0 { upper_char(mount[0]) } else { '?' }
}

pub fn drive_letter(mount: &str) -> (c: char)
    ensures
        c == spec_drive_letter(mount@),
{
    if mount.unicode_len() > 0 {
        to_upper_char(mount.get_char(0))
    } else {
        '?'
    }
}

/// The PowerShell probe for a drive letter: it chains Get-Partition,
/// Get-Disk and Get-PhysicalDisk and prints one line
/// "bus|model|media|spindle|sector", or "|||||" when the letter has no partition.
pub open spec fn spec_probe_script(letter: char) -> Seq<char> {
    PROBE_HEAD@.push(letter) + PROBE_TAIL@
}

/// The text of the probe before the drive letter.
pub const PROBE_HEAD: &'static str =
    "\n$ErrorActionPreference = 'SilentlyContinue'\n$p = Get-Partition -DriveLetter '";

/// The text of the probe after the drive letter.
pub const PROBE_TAIL: &'static str =
    "' 2>$null\nif (-not $p) { Write-Host '|||||'; exit 0 }\n$disk = Get-Disk -Number $p.DiskNumber 2>$null\n$pd = Get-PhysicalDisk | Where-Object DeviceId -eq $p.DiskNumber 2>$null\n$bus = if ($disk) { \"$($disk.BusType)\" } else { '' }\n$model = if ($disk) { \"$($disk.FriendlyName)\" } else { '' }\n$media = if ($pd) { \"$($pd.MediaType)\" } else { '' }\n$spindle = if ($pd) { \"$($pd.SpindleSpeed)\" } else { '0' }\n$linkSpeed = if ($pd) { \"$($pd.PhysicalSectorSize)\" } else { '0' }\nWrite-Host \"$bus|$model|$media|$spindle|$linkSpeed\"\n";

/// The probe script for the drive of a mount point.
pub fn probe_script(mount: &str) -> (s: String)
    ensures
        s@ == spec_probe_script(spec_drive_letter(mount@)),
{
    let mut s = String::from_str(PROBE_HEAD);
    push_char(&mut s, drive_letter(mount));
    s.append(PROBE_TAIL);
    s
}

} // verus!
