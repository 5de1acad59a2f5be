//! The HTML report pages.
//!
//! The benchmark page shows the UBS, the device, a bar chart of the
//! sub-scores and the raw measurements; the quality-test page shows the
//! results of `ubench test`. Rates are floating-point: their text comes in
//! already formatted, everything else is decided here.

use vstd::prelude::*;
use std::fmt::Write;
use crate::score::{Grade, spec_grade, spec_grade_label};
use crate::report::{DeviceClass, spec_device_class_label};
use crate::text::{decimal, decimal_string, push_char, has_infix, ends_with, starts_with, lemma_infix_self, lemma_infix_left, lemma_infix_right, lemma_infix_across, lemma_ends_with_append, lemma_ends_with_concat, lemma_infix_between};
use vstd::utf8::{decode_utf8, encode_utf8, is_char_boundary};
use vstd::string::StringSliceAdditionalSpecFns;
use crate::page::{fill_bench_page, spec_fill_bench_page, fill_quality_page, spec_fill_quality_page, QUALITY_PAGE_7, QUALITY_PAGE_8, QUALITY_PAGE_9, QUALITY_PAGE_10, QUALITY_PAGE_11, QUALITY_PAGE_12, QUALITY_PAGE_13, QUALITY_PAGE_14, QUALITY_PAGE_15};

verus! {

/// One sub-score as the benchmark page shows it.
#[derive(Debug, Clone)]
pub struct PageSubScore {
    pub label: String,
    /// The measured rate, one decimal.
    pub measured_text: String,
    pub unit: String,
    /// The 100-point value.
    pub target: u64,
    /// Weight in percent; a test without weight is not shown.
    pub weight_pct: u32,
    pub score: u32,
}

/// One measurement as the benchmark page shows it (rates with one decimal).
#[derive(Debug, Clone)]
pub struct PageMeasurement {
    pub label: String,
    pub median_text: String,
    pub min_text: String,
    pub max_text: String,
    /// The coefficient of variation in percent with one decimal and a `%`,
    /// or "-" when it is zero.
    pub cv_text: String,
    pub unit: String,
}

/// What the benchmark page and the text summary show of a signed report.
#[derive(Debug, Clone)]
pub struct BenchPage {
    pub mount_point: String,
    /// The drive's volume label.
    pub drive_label: String,
    /// Generation time, seconds and nanoseconds since the Unix epoch (UTC).
    pub generated_at_secs: i64,
    pub generated_at_nanos: u32,
    pub ubench_version: String,
    pub formula_version: String,
    pub signature: String,
    pub ubs: u32,
    pub grade: Grade,
    pub device_class: DeviceClass,
    pub bus_type: String,
    pub usb_version: Option<String>,
    pub model: String,
    pub file_system: String,
    pub claimed_capacity_bytes: u64,
    /// The claimed capacity in GiB, one decimal.
    pub capacity_gib_text: String,
    pub sub_scores: Vec<PageSubScore>,
    pub measurements: Vec<PageMeasurement>,
}

/// CSS class of the score number.
pub open spec fn spec_score_class(ubs: u32) -> Seq<char> {
    if 85 <= ubs <= 100 {
        "excellent"@
    } else if 70 <= ubs <= 84 {
        "good"@
    } else if 50 <= ubs <= 69 {
        "fair"@
    } else if 25 <= ubs <= 49 {
        "poor"@
    } else {
        "fail"@
    }
}

/// The colour class of the score follows the grade: excellent for A, good
/// for B, fair for C, poor for D and fail for F.
pub proof fn lemma_score_class_follows_grade(ubs: u32)
    ensures
        spec_score_class(ubs) == match spec_grade(ubs as int) {
            Grade::A => "excellent"@,
            Grade::B => "good"@,
            Grade::C => "fair"@,
            Grade::D => "poor"@,
            Grade::F => "fail"@,
        },
{
}

/// CSS class of the grade badge.
pub open spec fn spec_grade_class(ubs: u32) -> Seq<char> {
    "grade-"@ + spec_score_class(ubs)
}

/// Colour of a sub-score bar.
pub open spec fn spec_bar_color(score: u32) -> Seq<char> {
    if score >= 85 {
        "#22c55e"@
    } else if score >= 70 {
        "#3b82f6"@
    } else if score >= 50 {
        "#eab308"@
    } else {
        "#ef4444"@
    }
}

/// The table row of one sub-score.
pub open spec fn spec_score_row(s: PageSubScore) -> Seq<char> {
    "<tr><td>"@ + s.label@ + "</td><td>"@ + s.measured_text@ + " "@ + s.unit@ + "</td><td>"@
        + decimal(s.target as nat) + " "@ + s.unit@ + "</td><td>"@ + decimal(s.weight_pct as nat)
        + "%</td><td><div class='sbar-wrap'><div class='sbar' style='width:"@ + decimal(
        s.score as nat,
    ) + "%;background:"@ + spec_bar_color(s.score) + "'></div><span>"@ + decimal(s.score as nat)
        + "/100</span></div></td></tr>\n"@
}

/// The sub-scores with a positive weight, in order.
pub open spec fn weighted(ss: Seq<PageSubScore>) -> Seq<PageSubScore>
    decreases ss.len(),
{
    if ss.len() == 0 {
        Seq::empty()
    } else if ss.last().weight_pct > 0 {
        weighted(ss.drop_last()).push(ss.last())
    } else {
        weighted(ss.drop_last())
    }
}

/// Concatenation of a sequence of texts.
pub open spec fn concat_all(items: Seq<Seq<char>>) -> Seq<char>
    decreases items.len(),
{
    if items.len() == 0 {
        Seq::empty()
    } else {
        concat_all(items.drop_last()) + items.last()
    }
}

/// A piece of one of a list of texts is a piece of their concatenation.
pub proof fn lemma_infix_concat(items: Seq<Seq<char>>, i: int, w: Seq<char>)
    requires
        0 <= i < items.len(),
        has_infix(items[i], w),
    ensures
        has_infix(concat_all(items), w),
    decreases items.len(),
{
    if i == items.len() - 1 {
        lemma_infix_right(concat_all(items.drop_last()), items[i], w);
    } else {
        lemma_infix_concat(items.drop_last(), i, w);
        lemma_infix_left(concat_all(items.drop_last()), items.last(), w);
    }
}

/// Texts joined with commas.
pub open spec fn join_comma(items: Seq<Seq<char>>) -> Seq<char>
    decreases items.len(),
{
    if items.len() == 0 {
        Seq::empty()
    } else if items.len() == 1 {
        items[0]
    } else {
        join_comma(items.drop_last()) + ","@ + items.last()
    }
}

/// A text between double quotes.
pub open spec fn quoted(x: Seq<char>) -> Seq<char> {
    "\""@ + x + "\""@
}

/// Double quotes replaced by single quotes.
pub open spec fn replace_quotes(x: Seq<char>) -> Seq<char> {
    x.map_values(|c: char| if c == '"' { '\'' } else { c })
}

/// The rows of the sub-score table.
pub open spec fn spec_score_rows(ss: Seq<PageSubScore>) -> Seq<char> {
    concat_all(weighted(ss).map_values(|s: PageSubScore| spec_score_row(s)))
}

/// The bar-chart labels: quoted, with their double quotes replaced.
pub open spec fn spec_bar_labels(ss: Seq<PageSubScore>) -> Seq<char> {
    join_comma(weighted(ss).map_values(|s: PageSubScore| quoted(replace_quotes(s.label@))))
}

/// The bar-chart values.
pub open spec fn spec_bar_scores(ss: Seq<PageSubScore>) -> Seq<char> {
    join_comma(weighted(ss).map_values(|s: PageSubScore| decimal(s.score as nat)))
}

/// The bar-chart tooltips: measured rate and unit, quoted.
pub open spec fn spec_bar_measured(ss: Seq<PageSubScore>) -> Seq<char> {
    join_comma(weighted(ss).map_values(|s: PageSubScore| quoted(s.measured_text@ + " "@ + s.unit@)))
}

/// The table row of one measurement.
pub open spec fn spec_measurement_row(m: PageMeasurement) -> Seq<char> {
    "<tr><td>"@ + m.label@ + "</td><td>"@ + m.median_text@ + " "@ + m.unit@ + "</td><td>"@
        + m.min_text@ + "</td><td>"@ + m.max_text@ + "</td><td>"@ + m.cv_text@ + "</td></tr>\n"@
}

pub open spec fn spec_measurement_rows(ms: Seq<PageMeasurement>) -> Seq<char> {
    concat_all(ms.map_values(|m: PageMeasurement| spec_measurement_row(m)))
}

/// Devices on an internal bus (NVMe, SATA) are measured without the
/// "bypasses the OS cache" note.
pub open spec fn spec_is_usb(c: DeviceClass) -> bool {
    !(c == DeviceClass::NvmeSsd || c == DeviceClass::SataSsd || c == DeviceClass::HardDisk)
}

pub open spec fn spec_usb_note(c: DeviceClass) -> Seq<char> {
    if spec_is_usb(c) { "Direct I/O (绕过 OS 缓存)"@ } else { "Direct I/O"@ }
}

pub open spec fn spec_capacity_text(page: BenchPage) -> Seq<char> {
    if page.claimed_capacity_bytes > 0 {
        page.capacity_gib_text@ + " GiB"@
    } else {
        "N/A"@
    }
}

pub open spec fn spec_fs_text(page: BenchPage) -> Seq<char> {
    if page.file_system@.len() == 0 { "N/A"@ } else { page.file_system@ }
}

pub open spec fn spec_model_html(model: Seq<char>) -> Seq<char> {
    if model.len() == 0 {
        Seq::empty()
    } else {
        "<div class='meta-item'><div class='meta-label'>型号</div><div class='meta-value'>"@ + model
            + "</div></div>"@
    }
}

/// The first 32 bytes of the signature, as text.
pub open spec fn spec_signature_prefix(sig: Seq<char>) -> Seq<char> {
    decode_utf8(encode_utf8(sig).subrange(0, 32))
}

/// Whether the first 32 bytes of the signature end on a character boundary
/// (always so for a hex signature of 64 digits).
pub open spec fn signature_prefix_ok(sig: Seq<char>) -> bool {
    is_char_boundary(encode_utf8(sig), 32)
}

/// The benchmark page of a report generated at the time written `date`.
pub open spec fn spec_bench_html(page: BenchPage, date: Seq<char>) -> Seq<char> {
    spec_fill_bench_page(
        page.mount_point@,
        date,
        page.ubench_version@,
        spec_score_class(page.ubs),
        decimal(page.ubs as nat),
        spec_grade_class(page.ubs),
        spec_grade_label(page.grade),
        page.formula_version@,
        spec_signature_prefix(page.signature@),
        spec_device_class_label(page.device_class),
        page.bus_type@,
        spec_capacity_text(page),
        spec_fs_text(page),
        spec_usb_note(page.device_class),
        spec_model_html(page.model@),
        spec_score_rows(page.sub_scores@),
        spec_measurement_rows(page.measurements@),
        spec_bar_labels(page.sub_scores@),
        spec_bar_scores(page.sub_scores@),
        spec_bar_measured(page.sub_scores@),
    )
}

fn score_class(ubs: u32) -> (s: &'static str)
    ensures
        s@ == spec_score_class(ubs),
{
    if 85 <= ubs && ubs <= 100 {
        "excellent"
    } else if 70 <= ubs && ubs <= 84 {
        "good"
    } else if 50 <= ubs && ubs <= 69 {
        "fair"
    } else if 25 <= ubs && ubs <= 49 {
        "poor"
    } else {
        "fail"
    }
}

fn bar_color(score: u32) -> (s: &'static str)
    ensures
        s@ == spec_bar_color(score),
{
    if score >= 85 {
        "#22c55e"
    } else if score >= 70 {
        "#3b82f6"
    } else if score >= 50 {
        "#eab308"
    } else {
        "#ef4444"
    }
}

fn score_row(s: &PageSubScore) -> (r: String)
    ensures
        r@ == spec_score_row(*s),
{
    let mut r = String::from_str("<tr><td>");
    r.append(s.label.as_str());
    r.append("</td><td>");
    r.append(s.measured_text.as_str());
    r.append(" ");
    r.append(s.unit.as_str());
    r.append("</td><td>");
    let target = decimal_string(s.target);
    r.append(target.as_str());
    r.append(" ");
    r.append(s.unit.as_str());
    r.append("</td><td>");
    let weight = decimal_string(s.weight_pct as u64);
    r.append(weight.as_str());
    r.append("%</td><td><div class='sbar-wrap'><div class='sbar' style='width:");
    let score = decimal_string(s.score as u64);
    r.append(score.as_str());
    r.append("%;background:");
    r.append(bar_color(s.score));
    r.append("'></div><span>");
    r.append(score.as_str());
    r.append("/100</span></div></td></tr>\n");
    r
}

fn measurement_row(m: &PageMeasurement) -> (r: String)
    ensures
        r@ == spec_measurement_row(*m),
{
    let mut r = String::from_str("<tr><td>");
    r.append(m.label.as_str());
    r.append("</td><td>");
    r.append(m.median_text.as_str());
    r.append(" ");
    r.append(m.unit.as_str());
    r.append("</td><td>");
    r.append(m.min_text.as_str());
    r.append("</td><td>");
    r.append(m.max_text.as_str());
    r.append("</td><td>");
    r.append(m.cv_text.as_str());
    r.append("</td></tr>\n");
    r
}

/// `s.replace('"', "'")`.
fn replace_double_quotes(s: &str) -> (r: String)
    ensures
        r@ == replace_quotes(s@),
{
    let n = s.unicode_len();
    let mut r = String::new();
    let mut i: usize = 0;
    while i < n
        invariant
            n == s@.len(),
            i <= n,
            r@ == replace_quotes(s@.take(i as int)),
        decreases n - i,
    {
        let c = s.get_char(i);
        push_char(&mut r, if c == '"' { '\'' } else { c });
        assert(replace_quotes(s@.take(i + 1)) =~= replace_quotes(s@.take(i as int)).push(
            if c == '"' { '\'' } else { c },
        ));
        i = i + 1;
    }
    assert(s@.take(n as int) =~= s@);
    r
}

fn quote(x: &str) -> (r: String)
    ensures
        r@ == quoted(x@),
{
    let mut r = String::from_str("\"");
    r.append(x);
    r.append("\"");
    r
}

/// Texts joined with commas.
fn join_with_commas(items: &Vec<String>) -> (r: String)
    ensures
        r@ == join_comma(items@.map_values(|x: String| x@)),
{
    let mut r = String::new();
    let mut i: usize = 0;
    while i < items.len()
        invariant
            i <= items@.len(),
            r@ == join_comma(items@.take(i as int).map_values(|x: String| x@)),
        decreases items@.len() - i,
    {
        let ghost prev = items@.take(i as int).map_values(|x: String| x@);
        let ghost next = items@.take(i + 1).map_values(|x: String| x@);
        assert(next.drop_last() =~= prev);
        if i > 0 {
            r.append(",");
        }
        r.append(items[i].as_str());
        assert(next.len() == i + 1);
        i = i + 1;
    }
    assert(items@.take(items@.len() as int) =~= items@);
    r
}

proof fn lemma_weighted_step(ss: Seq<PageSubScore>, i: int)
    requires
        0 <= i < ss.len(),
    ensures
        weighted(ss.take(i + 1)) == if ss[i].weight_pct > 0 {
            weighted(ss.take(i)).push(ss[i])
        } else {
            weighted(ss.take(i))
        },
{
    assert(ss.take(i + 1).drop_last() =~= ss.take(i));
}

/// The benchmark page, with the generation time already written as `date`.
pub fn bench_html_with_date(page: &BenchPage, date: &str) -> (html: String)
    requires
        signature_prefix_ok(page.signature@),
    ensures
        html@ == spec_bench_html(*page, date@),
{
    let ss = &page.sub_scores;
    let mut score_rows = String::new();
    let mut labels: Vec<String> = Vec::new();
    let mut scores: Vec<String> = Vec::new();
    let mut measured: Vec<String> = Vec::new();
    let mut i: usize = 0;
    while i < ss.len()
        invariant
            i <= ss@.len(),
            ss == &page.sub_scores,
            score_rows@ == concat_all(
                weighted(ss@.take(i as int)).map_values(|s: PageSubScore| spec_score_row(s)),
            ),
            labels@.map_values(|x: String| x@) == weighted(ss@.take(i as int)).map_values(
                |s: PageSubScore| quoted(replace_quotes(s.label@)),
            ),
            scores@.map_values(|x: String| x@) == weighted(ss@.take(i as int)).map_values(
                |s: PageSubScore| decimal(s.score as nat),
            ),
            measured@.map_values(|x: String| x@) == weighted(ss@.take(i as int)).map_values(
                |s: PageSubScore| quoted(s.measured_text@ + " "@ + s.unit@),
            ),
        decreases ss@.len() - i,
    {
        let s = &ss[i];
        proof {
            lemma_weighted_step(ss@, i as int);
        }
        if s.weight_pct > 0 {
            let ghost w = weighted(ss@.take(i as int));
            let row = score_row(s);
            score_rows.append(row.as_str());
            assert(w.push(*s).map_values(|s: PageSubScore| spec_score_row(s)).drop_last()
                =~= w.map_values(|s: PageSubScore| spec_score_row(s)));
            let ghost lv = labels@.map_values(|x: String| x@);
            let replaced = replace_double_quotes(s.label.as_str());
            labels.push(quote(replaced.as_str()));
            assert(labels@.map_values(|x: String| x@) =~= lv.push(
                quoted(replace_quotes(s.label@)),
            ));
            assert(w.push(*s).map_values(|s: PageSubScore| quoted(replace_quotes(s.label@)))
                =~= w.map_values(|s: PageSubScore| quoted(replace_quotes(s.label@))).push(
                quoted(replace_quotes(s.label@)),
            ));
            let ghost sv = scores@.map_values(|x: String| x@);
            scores.push(decimal_string(s.score as u64));
            assert(scores@.map_values(|x: String| x@) =~= sv.push(decimal(s.score as nat)));
            assert(w.push(*s).map_values(|s: PageSubScore| decimal(s.score as nat)) =~= w.map_values(
                |s: PageSubScore| decimal(s.score as nat),
            ).push(decimal(s.score as nat)));
            let ghost mv = measured@.map_values(|x: String| x@);
            let mut text = String::from_str(s.measured_text.as_str());
            text.append(" ");
            text.append(s.unit.as_str());
            measured.push(quote(text.as_str()));
            assert(measured@.map_values(|x: String| x@) =~= mv.push(
                quoted(s.measured_text@ + " "@ + s.unit@),
            ));
            assert(w.push(*s).map_values(|s: PageSubScore| quoted(s.measured_text@ + " "@ + s.unit@))
                =~= w.map_values(|s: PageSubScore| quoted(s.measured_text@ + " "@ + s.unit@)).push(
                quoted(s.measured_text@ + " "@ + s.unit@),
            ));
        }
        i = i + 1;
    }
    assert(ss@.take(ss@.len() as int) =~= ss@);
    let ms = &page.measurements;
    let mut rows = String::new();
    let mut k: usize = 0;
    while k < ms.len()
        invariant
            k <= ms@.len(),
            ms == &page.measurements,
            rows@ == concat_all(
                ms@.take(k as int).map_values(|m: PageMeasurement| spec_measurement_row(m)),
            ),
        decreases ms@.len() - k,
    {
        let row = measurement_row(&ms[k]);
        rows.append(row.as_str());
        assert(ms@.take(k + 1).map_values(|m: PageMeasurement| spec_measurement_row(m)).drop_last()
            =~= ms@.take(k as int).map_values(|m: PageMeasurement| spec_measurement_row(m)));
        k = k + 1;
    }
    assert(ms@.take(ms@.len() as int) =~= ms@);
    let bar_labels = join_with_commas(&labels);
    let bar_scores = join_with_commas(&scores);
    let bar_measured = join_with_commas(&measured);
    let score = decimal_string(page.ubs as u64);
    let mut grade_class = String::from_str("grade-");
    grade_class.append(score_class(page.ubs));
    let (sig, _) = page.signature.as_str().split_at(32);
    proof {
        broadcast use vstd::utf8::encode_utf8_decode_utf8;
        assert(sig@ == decode_utf8(sig.spec_bytes()));
    }
    let capacity = if page.claimed_capacity_bytes > 0 {
        let mut c = String::from_str(page.capacity_gib_text.as_str());
        c.append(" GiB");
        c
    } else {
        String::from_str("N/A")
    };
    let fs: &str = if page.file_system.as_str().unicode_len() == 0 {
        "N/A"
    } else {
        page.file_system.as_str()
    };
    let is_usb = !(page.device_class == DeviceClass::NvmeSsd || page.device_class
        == DeviceClass::SataSsd || page.device_class == DeviceClass::HardDisk);
    let usb_note: &str = if is_usb { "Direct I/O (绕过 OS 缓存)" } else { "Direct I/O" };
    let model_html = if page.model.as_str().unicode_len() == 0 {
        String::new()
    } else {
        let mut m = String::from_str(
            "<div class='meta-item'><div class='meta-label'>型号</div><div class='meta-value'>",
        );
        m.append(page.model.as_str());
        m.append("</div></div>");
        m
    };
    fill_bench_page(
        page.mount_point.as_str(),
        date,
        page.ubench_version.as_str(),
        score_class(page.ubs),
        score.as_str(),
        grade_class.as_str(),
        page.grade.label(),
        page.formula_version.as_str(),
        sig,
        page.device_class.label(),
        page.bus_type.as_str(),
        capacity.as_str(),
        fs,
        usb_note,
        model_html.as_str(),
        score_rows.as_str(),
        rows.as_str(),
        bar_labels.as_str(),
        bar_scores.as_str(),
        bar_measured.as_str(),
    )
}

/// The text of a UTC time as `chrono` formats it with a strftime pattern;
/// `None` for a timestamp that `chrono` refuses, or a pattern it cannot
/// format.
pub uninterp spec fn utc_time_text(secs: i64, nanos: u32, pattern: Seq<char>) -> Option<Seq<char>>;

/// A timestamp that `chrono` turns into a date: seconds within about
/// 253,000 years of 1970 (chrono's dates reach year 262,143 either way) and
/// a nanosecond part below one second.
pub open spec fn chrono_time_in_range(secs: i64, nanos: u32) -> bool {
    -8_000_000_000_000 <= secs <= 8_000_000_000_000 && nanos < 1_000_000_000
}

/// Calls `chrono::DateTime::from_timestamp`, then writes
/// `DateTime::format(pattern)` into a string. Claimed: the text is a function
/// of the timestamp and the pattern alone (UTC, no locale), and `None` comes
/// exactly when `from_timestamp` refuses the timestamp or the formatting
/// reports an error (a pattern with an unknown specifier). `from_timestamp`
/// accepts every timestamp in `chrono_time_in_range`, and the report's date
/// pattern (year, month, day, hour, minute, second and a literal) formats
/// without error, so that pair gives a text.
#[verifier::external_body]
fn format_utc(secs: i64, nanos: u32, pattern: &str) -> (r: Option<String>)
    ensures
        match r {
            Some(t) => utc_time_text(secs, nanos, pattern@) == Some(t@),
            None => utc_time_text(secs, nanos, pattern@) is None,
        },
        chrono_time_in_range(secs, nanos) && pattern@ == REPORT_DATE_PATTERN@ ==> r is Some,
{
    match chrono::DateTime::from_timestamp(secs, nanos) {
        Some(t) => {
            let mut text = String::new();
            match write!(text, "{}", t.format(pattern)) {
                Ok(()) => Some(text),
                Err(_) => None,
            }
        },
        None => None,
    }
}

/// The pattern of the report date, e.g. "2023-11-14 22:13:20 UTC".
pub const REPORT_DATE_PATTERN: &'static str = "%Y-%m-%d %H:%M:%S UTC";

/// The benchmark report page: `None` only when the generation time is not a
/// timestamp that `chrono` accepts; always a page for a time within
/// `chrono_time_in_range`.
pub fn generate_bench_html(page: &BenchPage) -> (html: Option<String>)
    requires
        signature_prefix_ok(page.signature@),
    ensures
        match utc_time_text(page.generated_at_secs, page.generated_at_nanos, REPORT_DATE_PATTERN@) {
            Some(date) => html matches Some(h) && h@ == spec_bench_html(*page, date),
            None => html is None,
        },
        chrono_time_in_range(page.generated_at_secs, page.generated_at_nanos) ==> html is Some,
{
    match format_utc(page.generated_at_secs, page.generated_at_nanos, REPORT_DATE_PATTERN) {
        Some(date) => Some(bench_html_with_date(page, date.as_str())),
        None => None,
    }
}

/// CSS class of the total score on the quality-test page.
pub open spec fn spec_quality_class(total: u32) -> Seq<char> {
    if total >= 90 {
        "excellent"@
    } else if total >= 70 {
        "good"@
    } else if total >= 50 {
        "fair"@
    } else {
        "poor"@
    }
}

/// Verdict of the total score on the quality-test page.
pub open spec fn spec_quality_grade(total: u32) -> Seq<char> {
    if total >= 90 {
        "优秀"@
    } else if total >= 70 {
        "良好"@
    } else if total >= 50 {
        "一般"@
    } else {
        "差"@
    }
}

/// A measured value with its suffix, or `missing` when it was not measured.
pub open spec fn value_or(v: Option<String>, suffix: Seq<char>, missing: Seq<char>) -> Seq<char> {
    match v {
        Some(t) => t@ + suffix,
        None => missing,
    }
}

fn text_or(v: &Option<String>, suffix: &str, missing: &str) -> (r: String)
    ensures
        r@ == value_or(*v, suffix@, missing@),
{
    match v {
        Some(t) => {
            let mut r = String::from_str(t.as_str());
            r.append(suffix);
            r
        },
        None => String::from_str(missing),
    }
}

/// The page of `ubench test` for its inputs.
pub open spec fn spec_quality_report(
    drive_name: Seq<char>,
    test_date: Seq<char>,
    claimed_capacity_gb_text: Seq<char>,
    real_capacity_gb_text: Option<String>,
    seq_read_text: Option<String>,
    seq_write_text: Option<String>,
    random_read_iops_text: Option<String>,
    random_write_iops_text: Option<String>,
    stability_pct_text: Option<String>,
    bad_blocks: u64,
    total_score: u32,
    speed_samples_json: Seq<char>,
    bad_block_positions_json: Seq<char>,
) -> Seq<char> {
    spec_fill_quality_page(
        drive_name,
        test_date,
        spec_quality_class(total_score),
        decimal(total_score as nat),
        spec_quality_grade(total_score),
        claimed_capacity_gb_text,
        value_or(real_capacity_gb_text, " GB"@, "未测试"@),
        value_or(seq_read_text, " MB/s"@, "N/A"@),
        value_or(seq_write_text, " MB/s"@, "N/A"@),
        value_or(random_read_iops_text, Seq::empty(), "N/A"@),
        value_or(random_write_iops_text, Seq::empty(), "N/A"@),
        value_or(stability_pct_text, "%"@, "N/A"@),
        decimal(bad_blocks as nat),
        speed_samples_json,
        bad_block_positions_json,
    )
}

/// The page of `ubench test`. Rates come formatted: capacities and speeds
/// with one decimal, IOPS and the stability percentage with none.
pub fn generate_html_report(
    drive_name: &str,
    test_date: &str,
    claimed_capacity_gb_text: &str,
    real_capacity_gb_text: &Option<String>,
    seq_read_text: &Option<String>,
    seq_write_text: &Option<String>,
    random_read_iops_text: &Option<String>,
    random_write_iops_text: &Option<String>,
    stability_pct_text: &Option<String>,
    bad_blocks: u64,
    total_blocks: u64,
    total_score: u32,
    speed_samples_json: &str,
    bad_block_positions_json: &str,
) -> (html: String)
    ensures
        html@ == spec_quality_report(
            drive_name@,
            test_date@,
            claimed_capacity_gb_text@,
            *real_capacity_gb_text,
            *seq_read_text,
            *seq_write_text,
            *random_read_iops_text,
            *random_write_iops_text,
            *stability_pct_text,
            bad_blocks,
            total_score,
            speed_samples_json@,
            bad_block_positions_json@,
        ),
        html@ == spec_fill_quality_page(
            drive_name@,
            test_date@,
            spec_quality_class(total_score),
            decimal(total_score as nat),
            spec_quality_grade(total_score),
            claimed_capacity_gb_text@,
            value_or(*real_capacity_gb_text, " GB"@, "未测试"@),
            value_or(*seq_read_text, " MB/s"@, "N/A"@),
            value_or(*seq_write_text, " MB/s"@, "N/A"@),
            value_or(*random_read_iops_text, Seq::empty(), "N/A"@),
            value_or(*random_write_iops_text, Seq::empty(), "N/A"@),
            value_or(*stability_pct_text, "%"@, "N/A"@),
            decimal(bad_blocks as nat),
            speed_samples_json@,
            bad_block_positions_json@,
        ),
{
    proof {
        reveal_strlit("");
    }
    let class: &str = if total_score >= 90 {
        "excellent"
    } else if total_score >= 70 {
        "good"
    } else if total_score >= 50 {
        "fair"
    } else {
        "poor"
    };
    let grade: &str = if total_score >= 90 {
        "优秀"
    } else if total_score >= 70 {
        "良好"
    } else if total_score >= 50 {
        "一般"
    } else {
        "差"
    };
    let score = decimal_string(total_score as u64);
    let real_gb = text_or(real_capacity_gb_text, " GB", "未测试");
    let seq_read = text_or(seq_read_text, " MB/s", "N/A");
    let seq_write = text_or(seq_write_text, " MB/s", "N/A");
    let rand_read = text_or(random_read_iops_text, "", "N/A");
    let rand_write = text_or(random_write_iops_text, "", "N/A");
    let stability = text_or(stability_pct_text, "%", "N/A");
    let bad = decimal_string(bad_blocks);
    fill_quality_page(
        drive_name,
        test_date,
        class,
        score.as_str(),
        grade,
        claimed_capacity_gb_text,
        real_gb.as_str(),
        seq_read.as_str(),
        seq_write.as_str(),
        rand_read.as_str(),
        rand_write.as_str(),
        stability.as_str(),
        bad.as_str(),
        speed_samples_json,
        bad_block_positions_json,
    )
}


/// Each measurement appears on the benchmark page as one table row: its
/// label, then its median with the unit, its minimum, its maximum and its
/// stability, in the order of the table's header (测试项, 中位数, 最小, 最大,
/// 稳定性).
pub proof fn lemma_bench_page_shows_measurements(page: BenchPage, date: Seq<char>, i: int)
    requires
        0 <= i < page.measurements@.len(),
    ensures
        ({
            let m = page.measurements@[i];
            has_infix(
                spec_bench_html(page, date),
                "<tr><td>"@ + m.label@ + "</td><td>"@ + m.median_text@ + " "@ + m.unit@
                    + "</td><td>"@ + m.min_text@ + "</td><td>"@ + m.max_text@ + "</td><td>"@
                    + m.cv_text@ + "</td></tr>\n"@,
            )
        }),
{
    broadcast use lemma_infix_left, lemma_infix_right;
    let m = page.measurements@[i];
    let w = "<tr><td>"@ + m.label@ + "</td><td>"@ + m.median_text@ + " "@ + m.unit@
        + "</td><td>"@ + m.min_text@ + "</td><td>"@ + m.max_text@ + "</td><td>"@ + m.cv_text@
        + "</td></tr>\n"@;
    let rows = page.measurements@.map_values(|x: PageMeasurement| spec_measurement_row(x));
    assert(rows[i] == w);
    lemma_infix_self(w);
    lemma_infix_concat(rows, i, w);
    assert(has_infix(spec_measurement_rows(page.measurements@), w));
    assert(has_infix(spec_bench_html(page, date), w));
}


proof fn lemma_weighted_keeps(ss: Seq<PageSubScore>, j: int)
    requires
        0 <= j < ss.len(),
        ss[j].weight_pct > 0,
    ensures
        exists|k: int| 0 <= k < weighted(ss).len() && #[trigger] weighted(ss)[k] == ss[j],
    decreases ss.len(),
{
    if j == ss.len() - 1 {
        let k = weighted(ss.drop_last()).len() as int;
        assert(weighted(ss)[k] == ss[j]);
    } else {
        lemma_weighted_keeps(ss.drop_last(), j);
        let k = choose|k: int| 0 <= k < weighted(ss.drop_last()).len() && #[trigger] weighted(ss.drop_last())[k] == ss.drop_last()[j];
        assert(weighted(ss)[k] == ss[j]);
    }
}

/// Every sub-score with a weight appears on the benchmark page as one row of
/// the score table: its label, the measured rate with the unit, the target
/// with the unit, the weight in percent, then a bar as wide as the score and
/// the score out of 100.
pub proof fn lemma_bench_page_shows_sub_scores(page: BenchPage, date: Seq<char>, j: int)
    requires
        0 <= j < page.sub_scores@.len(),
        page.sub_scores@[j].weight_pct > 0,
    ensures
        ({
            let s = page.sub_scores@[j];
            has_infix(
                spec_bench_html(page, date),
                "<tr><td>"@ + s.label@ + "</td><td>"@ + s.measured_text@ + " "@ + s.unit@
                    + "</td><td>"@ + decimal(s.target as nat) + " "@ + s.unit@ + "</td><td>"@
                    + decimal(s.weight_pct as nat)
                    + "%</td><td><div class='sbar-wrap'><div class='sbar' style='width:"@
                    + decimal(s.score as nat) + "%;background:"@ + spec_bar_color(s.score)
                    + "'></div><span>"@ + decimal(s.score as nat)
                    + "/100</span></div></td></tr>\n"@,
            )
        }),
{
    broadcast use lemma_infix_left, lemma_infix_right;
    let s = page.sub_scores@[j];
    let w = "<tr><td>"@ + s.label@ + "</td><td>"@ + s.measured_text@ + " "@ + s.unit@
        + "</td><td>"@ + decimal(s.target as nat) + " "@ + s.unit@ + "</td><td>"@
        + decimal(s.weight_pct as nat)
        + "%</td><td><div class='sbar-wrap'><div class='sbar' style='width:"@
        + decimal(s.score as nat) + "%;background:"@ + spec_bar_color(s.score)
        + "'></div><span>"@ + decimal(s.score as nat) + "/100</span></div></td></tr>\n"@;
    lemma_weighted_keeps(page.sub_scores@, j);
    let ws = weighted(page.sub_scores@);
    let k = choose|k: int| 0 <= k < ws.len() && #[trigger] ws[k] == s;
    let rows = ws.map_values(|x: PageSubScore| spec_score_row(x));
    assert(rows[k] == w);
    lemma_infix_self(w);
    lemma_infix_concat(rows, k, w);
    assert(has_infix(spec_score_rows(page.sub_scores@), w));
    assert(has_infix(spec_bench_html(page, date), w));
}


/// The quality-test page shows each measured value in its own cell, right
/// above its own label: the claimed capacity (标称容量), the real capacity
/// (真实容量, "未测试" when it was not measured), sequential read (顺序读取)
/// and write (顺序写入), random read (随机读取 IOPS) and write (随机写入 IOPS),
/// speed stability (速度稳定性), each "N/A" when it was not measured, and the
/// bad-block count (坏块数量).
pub proof fn lemma_quality_page_cells(
    drive_name: Seq<char>,
    test_date: Seq<char>,
    claimed_capacity_gb_text: Seq<char>,
    real_capacity_gb_text: Option<String>,
    seq_read_text: Option<String>,
    seq_write_text: Option<String>,
    random_read_iops_text: Option<String>,
    random_write_iops_text: Option<String>,
    stability_pct_text: Option<String>,
    bad_blocks: u64,
    total_score: u32,
    speed_samples_json: Seq<char>,
    bad_block_positions_json: Seq<char>,
)
    ensures
        has_infix(
            spec_quality_report(
                drive_name,
                test_date,
                claimed_capacity_gb_text,
                real_capacity_gb_text,
                seq_read_text,
                seq_write_text,
                random_read_iops_text,
                random_write_iops_text,
                stability_pct_text,
                bad_blocks,
                total_score,
                speed_samples_json,
                bad_block_positions_json,
            ),
            "<div class=\"stat-value\">"@ + claimed_capacity_gb_text + " GB</div>\n      <div class=\"stat-label\">标称容量</div>"@,
        ),
        has_infix(
            spec_quality_report(
                drive_name,
                test_date,
                claimed_capacity_gb_text,
                real_capacity_gb_text,
                seq_read_text,
                seq_write_text,
                random_read_iops_text,
                random_write_iops_text,
                stability_pct_text,
                bad_blocks,
                total_score,
                speed_samples_json,
                bad_block_positions_json,
            ),
            "<div class=\"stat-value\">"@ + (match real_capacity_gb_text { Some(t) => t@ + " GB"@, None => "未测试"@ }) + "</div>\n      <div class=\"stat-label\">真实容量</div>"@,
        ),
        has_infix(
            spec_quality_report(
                drive_name,
                test_date,
                claimed_capacity_gb_text,
                real_capacity_gb_text,
                seq_read_text,
                seq_write_text,
                random_read_iops_text,
                random_write_iops_text,
                stability_pct_text,
                bad_blocks,
                total_score,
                speed_samples_json,
                bad_block_positions_json,
            ),
            "<div class=\"stat-value\">"@ + (match seq_read_text { Some(t) => t@ + " MB/s"@, None => "N/A"@ }) + "</div>\n      <div class=\"stat-label\">顺序读取</div>"@,
        ),
        has_infix(
            spec_quality_report(
                drive_name,
                test_date,
                claimed_capacity_gb_text,
                real_capacity_gb_text,
                seq_read_text,
                seq_write_text,
                random_read_iops_text,
                random_write_iops_text,
                stability_pct_text,
                bad_blocks,
                total_score,
                speed_samples_json,
                bad_block_positions_json,
            ),
            "<div class=\"stat-value\">"@ + (match seq_write_text { Some(t) => t@ + " MB/s"@, None => "N/A"@ }) + "</div>\n      <div class=\"stat-label\">顺序写入</div>"@,
        ),
        has_infix(
            spec_quality_report(
                drive_name,
                test_date,
                claimed_capacity_gb_text,
                real_capacity_gb_text,
                seq_read_text,
                seq_write_text,
                random_read_iops_text,
                random_write_iops_text,
                stability_pct_text,
                bad_blocks,
                total_score,
                speed_samples_json,
                bad_block_positions_json,
            ),
            "<div class=\"stat-value\">"@ + (match random_read_iops_text { Some(t) => t@, None => "N/A"@ }) + "</div>\n      <div class=\"stat-label\">随机读取 IOPS</div>"@,
        ),
        has_infix(
            spec_quality_report(
                drive_name,
                test_date,
                claimed_capacity_gb_text,
                real_capacity_gb_text,
                seq_read_text,
                seq_write_text,
                random_read_iops_text,
                random_write_iops_text,
                stability_pct_text,
                bad_blocks,
                total_score,
                speed_samples_json,
                bad_block_positions_json,
            ),
            "<div class=\"stat-value\">"@ + (match random_write_iops_text { Some(t) => t@, None => "N/A"@ }) + "</div>\n      <div class=\"stat-label\">随机写入 IOPS</div>"@,
        ),
        has_infix(
            spec_quality_report(
                drive_name,
                test_date,
                claimed_capacity_gb_text,
                real_capacity_gb_text,
                seq_read_text,
                seq_write_text,
                random_read_iops_text,
                random_write_iops_text,
                stability_pct_text,
                bad_blocks,
                total_score,
                speed_samples_json,
                bad_block_positions_json,
            ),
            "<div class=\"stat-value\">"@ + (match stability_pct_text { Some(t) => t@ + "%"@, None => "N/A"@ }) + "</div>\n      <div class=\"stat-label\">速度稳定性</div>"@,
        ),
        has_infix(
            spec_quality_report(
                drive_name,
                test_date,
                claimed_capacity_gb_text,
                real_capacity_gb_text,
                seq_read_text,
                seq_write_text,
                random_read_iops_text,
                random_write_iops_text,
                stability_pct_text,
                bad_blocks,
                total_score,
                speed_samples_json,
                bad_block_positions_json,
            ),
            "<div class=\"stat-value\">"@ + decimal(bad_blocks as nat) + "</div>\n      <div class=\"stat-label\">坏块数量</div>"@,
        ),
{
    broadcast use lemma_infix_left, lemma_infix_right, lemma_ends_with_concat, lemma_infix_between;
    reveal_strlit("<div class=\"stat-value\">");
    reveal_strlit("</span></div>\n</div>\n\n<div class=\"card\">\n  <h2>检测数据</h2>\n  <div class=\"stat-grid\">\n    <div class=\"stat\">\n      <div class=\"stat-value\">");
    reveal_strlit(" GB</div>\n      <div class=\"stat-label\">标称容量</div>\n    </div>\n    <div class=\"stat\">\n      <div class=\"stat-value\">");
    reveal_strlit("</div>\n      <div class=\"stat-label\">真实容量</div>\n    </div>\n    <div class=\"stat\">\n      <div class=\"stat-value\">");
    reveal_strlit("</div>\n      <div class=\"stat-label\">顺序读取</div>\n    </div>\n    <div class=\"stat\">\n      <div class=\"stat-value\">");
    reveal_strlit("</div>\n      <div class=\"stat-label\">顺序写入</div>\n    </div>\n    <div class=\"stat\">\n      <div class=\"stat-value\">");
    reveal_strlit("</div>\n      <div class=\"stat-label\">随机读取 IOPS</div>\n    </div>\n    <div class=\"stat\">\n      <div class=\"stat-value\">");
    reveal_strlit("</div>\n      <div class=\"stat-label\">随机写入 IOPS</div>\n    </div>\n    <div class=\"stat\">\n      <div class=\"stat-value\">");
    reveal_strlit("</div>\n      <div class=\"stat-label\">速度稳定性</div>\n    </div>\n    <div class=\"stat\">\n      <div class=\"stat-value\">");
    reveal_strlit("</div>\n      <div class=\"stat-label\">坏块数量</div>\n    </div>\n  </div>\n</div>\n\n<div class=\"card\">\n  <h2>读写速度曲线</h2>\n  <div id=\"speedChart\" class=\"chart\"></div>\n</div>\n\n<div class=\"card\">\n  <h2>坏块分布</h2>\n  <div id=\"badBlockChart\" class=\"chart\"></div>\n</div>\n\n<script>\nvar speedData = ");
    reveal_strlit(" GB</div>\n      <div class=\"stat-label\">标称容量</div>");
    reveal_strlit("</div>\n      <div class=\"stat-label\">真实容量</div>");
    reveal_strlit("</div>\n      <div class=\"stat-label\">顺序读取</div>");
    reveal_strlit("</div>\n      <div class=\"stat-label\">顺序写入</div>");
    reveal_strlit("</div>\n      <div class=\"stat-label\">随机读取 IOPS</div>");
    reveal_strlit("</div>\n      <div class=\"stat-label\">随机写入 IOPS</div>");
    reveal_strlit("</div>\n      <div class=\"stat-label\">速度稳定性</div>");
    reveal_strlit("</div>\n      <div class=\"stat-label\">坏块数量</div>");
    assert(QUALITY_PAGE_7@.subrange(QUALITY_PAGE_7@.len() - "<div class=\"stat-value\">"@.len(), QUALITY_PAGE_7@.len() as int) =~= "<div class=\"stat-value\">"@);
    assert(ends_with(QUALITY_PAGE_7@, "<div class=\"stat-value\">"@));
    assert(QUALITY_PAGE_8@.subrange(QUALITY_PAGE_8@.len() - "<div class=\"stat-value\">"@.len(), QUALITY_PAGE_8@.len() as int) =~= "<div class=\"stat-value\">"@);
    assert(ends_with(QUALITY_PAGE_8@, "<div class=\"stat-value\">"@));
    assert(QUALITY_PAGE_9@.subrange(QUALITY_PAGE_9@.len() - "<div class=\"stat-value\">"@.len(), QUALITY_PAGE_9@.len() as int) =~= "<div class=\"stat-value\">"@);
    assert(ends_with(QUALITY_PAGE_9@, "<div class=\"stat-value\">"@));
    assert(QUALITY_PAGE_10@.subrange(QUALITY_PAGE_10@.len() - "<div class=\"stat-value\">"@.len(), QUALITY_PAGE_10@.len() as int) =~= "<div class=\"stat-value\">"@);
    assert(ends_with(QUALITY_PAGE_10@, "<div class=\"stat-value\">"@));
    assert(QUALITY_PAGE_11@.subrange(QUALITY_PAGE_11@.len() - "<div class=\"stat-value\">"@.len(), QUALITY_PAGE_11@.len() as int) =~= "<div class=\"stat-value\">"@);
    assert(ends_with(QUALITY_PAGE_11@, "<div class=\"stat-value\">"@));
    assert(QUALITY_PAGE_12@.subrange(QUALITY_PAGE_12@.len() - "<div class=\"stat-value\">"@.len(), QUALITY_PAGE_12@.len() as int) =~= "<div class=\"stat-value\">"@);
    assert(ends_with(QUALITY_PAGE_12@, "<div class=\"stat-value\">"@));
    assert(QUALITY_PAGE_13@.subrange(QUALITY_PAGE_13@.len() - "<div class=\"stat-value\">"@.len(), QUALITY_PAGE_13@.len() as int) =~= "<div class=\"stat-value\">"@);
    assert(ends_with(QUALITY_PAGE_13@, "<div class=\"stat-value\">"@));
    assert(QUALITY_PAGE_14@.subrange(QUALITY_PAGE_14@.len() - "<div class=\"stat-value\">"@.len(), QUALITY_PAGE_14@.len() as int) =~= "<div class=\"stat-value\">"@);
    assert(ends_with(QUALITY_PAGE_14@, "<div class=\"stat-value\">"@));
    assert(QUALITY_PAGE_8@.subrange(0, " GB</div>\n      <div class=\"stat-label\">标称容量</div>"@.len() as int) =~= " GB</div>\n      <div class=\"stat-label\">标称容量</div>"@);
    assert(starts_with(QUALITY_PAGE_8@, " GB</div>\n      <div class=\"stat-label\">标称容量</div>"@));
    assert(QUALITY_PAGE_9@.subrange(0, "</div>\n      <div class=\"stat-label\">真实容量</div>"@.len() as int) =~= "</div>\n      <div class=\"stat-label\">真实容量</div>"@);
    assert(starts_with(QUALITY_PAGE_9@, "</div>\n      <div class=\"stat-label\">真实容量</div>"@));
    assert(QUALITY_PAGE_10@.subrange(0, "</div>\n      <div class=\"stat-label\">顺序读取</div>"@.len() as int) =~= "</div>\n      <div class=\"stat-label\">顺序读取</div>"@);
    assert(starts_with(QUALITY_PAGE_10@, "</div>\n      <div class=\"stat-label\">顺序读取</div>"@));
    assert(QUALITY_PAGE_11@.subrange(0, "</div>\n      <div class=\"stat-label\">顺序写入</div>"@.len() as int) =~= "</div>\n      <div class=\"stat-label\">顺序写入</div>"@);
    assert(starts_with(QUALITY_PAGE_11@, "</div>\n      <div class=\"stat-label\">顺序写入</div>"@));
    assert(QUALITY_PAGE_12@.subrange(0, "</div>\n      <div class=\"stat-label\">随机读取 IOPS</div>"@.len() as int) =~= "</div>\n      <div class=\"stat-label\">随机读取 IOPS</div>"@);
    assert(starts_with(QUALITY_PAGE_12@, "</div>\n      <div class=\"stat-label\">随机读取 IOPS</div>"@));
    assert(QUALITY_PAGE_13@.subrange(0, "</div>\n      <div class=\"stat-label\">随机写入 IOPS</div>"@.len() as int) =~= "</div>\n      <div class=\"stat-label\">随机写入 IOPS</div>"@);
    assert(starts_with(QUALITY_PAGE_13@, "</div>\n      <div class=\"stat-label\">随机写入 IOPS</div>"@));
    assert(QUALITY_PAGE_14@.subrange(0, "</div>\n      <div class=\"stat-label\">速度稳定性</div>"@.len() as int) =~= "</div>\n      <div class=\"stat-label\">速度稳定性</div>"@);
    assert(starts_with(QUALITY_PAGE_14@, "</div>\n      <div class=\"stat-label\">速度稳定性</div>"@));
    assert(QUALITY_PAGE_15@.subrange(0, "</div>\n      <div class=\"stat-label\">坏块数量</div>"@.len() as int) =~= "</div>\n      <div class=\"stat-label\">坏块数量</div>"@);
    assert(starts_with(QUALITY_PAGE_15@, "</div>\n      <div class=\"stat-label\">坏块数量</div>"@));
    assert(has_infix(spec_quality_report(
            drive_name,
            test_date,
            claimed_capacity_gb_text,
            real_capacity_gb_text,
            seq_read_text,
            seq_write_text,
            random_read_iops_text,
            random_write_iops_text,
            stability_pct_text,
            bad_blocks,
            total_score,
            speed_samples_json,
            bad_block_positions_json,
        ), "<div class=\"stat-value\">"@ + claimed_capacity_gb_text + " GB</div>\n      <div class=\"stat-label\">标称容量</div>"@));
    assert(has_infix(spec_quality_report(
            drive_name,
            test_date,
            claimed_capacity_gb_text,
            real_capacity_gb_text,
            seq_read_text,
            seq_write_text,
            random_read_iops_text,
            random_write_iops_text,
            stability_pct_text,
            bad_blocks,
            total_score,
            speed_samples_json,
            bad_block_positions_json,
        ), "<div class=\"stat-value\">"@ + (match real_capacity_gb_text { Some(t) => t@ + " GB"@, None => "未测试"@ }) + "</div>\n      <div class=\"stat-label\">真实容量</div>"@));
    assert(has_infix(spec_quality_report(
            drive_name,
            test_date,
            claimed_capacity_gb_text,
            real_capacity_gb_text,
            seq_read_text,
            seq_write_text,
            random_read_iops_text,
            random_write_iops_text,
            stability_pct_text,
            bad_blocks,
            total_score,
            speed_samples_json,
            bad_block_positions_json,
        ), "<div class=\"stat-value\">"@ + (match seq_read_text { Some(t) => t@ + " MB/s"@, None => "N/A"@ }) + "</div>\n      <div class=\"stat-label\">顺序读取</div>"@));
    assert(has_infix(spec_quality_report(
            drive_name,
            test_date,
            claimed_capacity_gb_text,
            real_capacity_gb_text,
            seq_read_text,
            seq_write_text,
            random_read_iops_text,
            random_write_iops_text,
            stability_pct_text,
            bad_blocks,
            total_score,
            speed_samples_json,
            bad_block_positions_json,
        ), "<div class=\"stat-value\">"@ + (match seq_write_text { Some(t) => t@ + " MB/s"@, None => "N/A"@ }) + "</div>\n      <div class=\"stat-label\">顺序写入</div>"@));
    assert(has_infix(spec_quality_report(
            drive_name,
            test_date,
            claimed_capacity_gb_text,
            real_capacity_gb_text,
            seq_read_text,
            seq_write_text,
            random_read_iops_text,
            random_write_iops_text,
            stability_pct_text,
            bad_blocks,
            total_score,
            speed_samples_json,
            bad_block_positions_json,
        ), "<div class=\"stat-value\">"@ + (match random_read_iops_text { Some(t) => t@, None => "N/A"@ }) + "</div>\n      <div class=\"stat-label\">随机读取 IOPS</div>"@));
    assert(has_infix(spec_quality_report(
            drive_name,
            test_date,
            claimed_capacity_gb_text,
            real_capacity_gb_text,
            seq_read_text,
            seq_write_text,
            random_read_iops_text,
            random_write_iops_text,
            stability_pct_text,
            bad_blocks,
            total_score,
            speed_samples_json,
            bad_block_positions_json,
        ), "<div class=\"stat-value\">"@ + (match random_write_iops_text { Some(t) => t@, None => "N/A"@ }) + "</div>\n      <div class=\"stat-label\">随机写入 IOPS</div>"@));
    assert(has_infix(spec_quality_report(
            drive_name,
            test_date,
            claimed_capacity_gb_text,
            real_capacity_gb_text,
            seq_read_text,
            seq_write_text,
            random_read_iops_text,
            random_write_iops_text,
            stability_pct_text,
            bad_blocks,
            total_score,
            speed_samples_json,
            bad_block_positions_json,
        ), "<div class=\"stat-value\">"@ + (match stability_pct_text { Some(t) => t@ + "%"@, None => "N/A"@ }) + "</div>\n      <div class=\"stat-label\">速度稳定性</div>"@));
    assert(has_infix(spec_quality_report(
            drive_name,
            test_date,
            claimed_capacity_gb_text,
            real_capacity_gb_text,
            seq_read_text,
            seq_write_text,
            random_read_iops_text,
            random_write_iops_text,
            stability_pct_text,
            bad_blocks,
            total_score,
            speed_samples_json,
            bad_block_positions_json,
        ), "<div class=\"stat-value\">"@ + decimal(bad_blocks as nat) + "</div>\n      <div class=\"stat-label\">坏块数量</div>"@));
}

} // verus!
