//! The text summary that `ubench bench` prints: drive, results table,
//! score table, UBS, grade and signature. Rates come formatted.

use vstd::prelude::*;
use vstd::utf8::{decode_utf8, encode_utf8, is_char_boundary};
use vstd::string::StringSliceAdditionalSpecFns;
use crate::html::{BenchPage, PageMeasurement, PageSubScore, spec_signature_prefix, signature_prefix_ok};
use crate::score::spec_grade_label;
use crate::report::spec_device_class_label;
use crate::text::{decimal, decimal_string, has_infix, ends_with, starts_with, lemma_infix_self, lemma_infix_left, lemma_infix_right, lemma_ends_with_concat, lemma_infix_between};

verus! {

/// Heading of the drive block.
pub const DRIVE_HEADING: &'static str = "┌─ 盘信息 ─────────────────────────────────────────────────────";
/// Closing line of the drive block.
pub const DRIVE_FOOTER: &'static str = "└──────────────────────────────────────────────────────────────";
/// Heading of the results table.
pub const RESULTS_HEADING: &'static str = "┌─ 测试结果 ───────────────────────────────────────────────────";
/// Heading of the score table.
pub const SCORE_HEADING: &'static str = "┌─ UBench Score ───────────────────────────────────────────────";

/// A table drawn with the UTF8_FULL preset of `comfy_table`: one header row
/// and the given rows of cells.
pub uninterp spec fn utf8_full_table(header: Seq<Seq<char>>, rows: Seq<Seq<Seq<char>>>) -> Seq<char>;

/// Calls `comfy_table::Table` (`new`, `load_preset(UTF8_FULL)`, `set_header`,
/// `add_rows`, `to_string`). Claimed: the drawing is a function of the header
/// and the rows alone. The table keeps comfy_table's default layout, which
/// ignores the terminal width, and no cell is styled, so a terminal on
/// standard output changes nothing.
#[verifier::external_body]
fn render_table(header: &Vec<String>, rows: &Vec<Vec<String>>) -> (t: String)
    ensures
        t@ == utf8_full_table(
            header@.map_values(|h: String| h@),
            rows@.map_values(|r: Vec<String>| r@.map_values(|c: String| c@)),
        ),
{
    let mut table = comfy_table::Table::new();
    table.load_preset(comfy_table::presets::UTF8_FULL);
    table.set_header(header.clone());
    table.add_rows(rows.clone());
    table.to_string()
}

/// The header of the results table.
pub open spec fn results_header() -> Seq<Seq<char>> {
    seq!["测试项"@, "中位数"@, "最小"@, "最大"@, "稳定性"@]
}

/// One row of the results table.
pub open spec fn results_row(m: PageMeasurement) -> Seq<Seq<char>> {
    seq![m.label@, m.median_text@ + " "@ + m.unit@, m.min_text@, m.max_text@, m.cv_text@]
}

/// The header of the score table.
pub open spec fn score_header() -> Seq<Seq<char>> {
    seq!["项目"@, "测得"@, "目标(满分)"@, "权重"@, "得分"@]
}

/// One row of the score table.
pub open spec fn score_table_row(s: PageSubScore) -> Seq<Seq<char>> {
    seq![
        s.label@,
        s.measured_text@ + " "@ + s.unit@,
        decimal(s.target as nat) + " "@ + s.unit@,
        decimal(s.weight_pct as nat) + "%"@,
        decimal(s.score as nat) + "/100"@,
    ]
}

/// A line of the drive block when `value` is not empty.
pub open spec fn optional_line(prefix: Seq<char>, value: Seq<char>) -> Seq<char> {
    if value.len() == 0 { Seq::empty() } else { prefix + value + "\n"@ }
}

/// The drive block.
pub open spec fn spec_drive_block(p: BenchPage) -> Seq<char> {
    DRIVE_HEADING@ + "\n"@
        + "│  挂载点: "@ + p.mount_point@ + "\n"@
        + optional_line("│  标签  : "@, p.drive_label@)
        + (if p.claimed_capacity_bytes > 0 { "│  容量  : "@ + p.capacity_gib_text@ + " GiB\n"@ } else { Seq::empty() })
        + optional_line("│  文件系统: "@, p.file_system@)
        + optional_line("│  型号  : "@, p.model@)
        + "│  类型  : "@ + spec_device_class_label(p.device_class) + "\n"@
        + "│  接口  : "@ + p.bus_type@ + " "@ + (match p.usb_version { Some(v) => v@, None => Seq::empty() }) + "\n"@
        + DRIVE_FOOTER@ + "\n"@
}

/// The summary printed after a benchmark.
pub open spec fn spec_bench_summary(p: BenchPage) -> Seq<char> {
    "\n"@ + spec_drive_block(p) + "\n"@
        + RESULTS_HEADING@ + "\n"@
        + utf8_full_table(results_header(), p.measurements@.map_values(|m: PageMeasurement| results_row(m))) + "\n"@
        + "\n"@
        + SCORE_HEADING@ + "\n"@
        + utf8_full_table(score_header(), p.sub_scores@.map_values(|s: PageSubScore| score_table_row(s))) + "\n"@
        + "\n"@
        + "  ▶▶  UBench Score (UBS): "@ + decimal(p.ubs as nat) + " / 100\n"@
        + "  ▶▶  Grade            : "@ + spec_grade_label(p.grade) + "\n"@
        + "\n"@
        + "  签名: sha256:"@ + spec_signature_prefix(p.signature@) + "\n"@
        + "  规则版本: "@ + p.formula_version@ + "\n"@
        + "\n"@
}

fn strings5(a: &str, b: &str, c: &str, d: &str, e: &str) -> (v: Vec<String>)
    ensures
        v@.map_values(|x: String| x@) == seq![a@, b@, c@, d@, e@],
{
    let v = vec![String::from_str(a), String::from_str(b), String::from_str(c), String::from_str(d), String::from_str(e)];
    assert(v@.map_values(|x: String| x@) =~= seq![a@, b@, c@, d@, e@]);
    v
}

fn optional_line_text(out: &mut String, prefix: &str, value: &str)
    ensures
        final(out)@ == old(out)@ + optional_line(prefix@, value@),
{
    if value.unicode_len() > 0 {
        out.append(prefix);
        out.append(value);
        out.append("\n");
    } else {
        assert(old(out)@ + Seq::<char>::empty() =~= old(out)@);
    }
}

/// The summary printed after a benchmark.
#[verifier::rlimit(80)]
pub fn bench_summary(p: &BenchPage) -> (text: String)
    requires
        signature_prefix_ok(p.signature@),
    ensures
        text@ == spec_bench_summary(*p),
{
    // drive block
    let mut d = String::from_str(DRIVE_HEADING);
    d.append("\n");
    d.append("│  挂载点: ");
    d.append(p.mount_point.as_str());
    d.append("\n");
    optional_line_text(&mut d, "│  标签  : ", p.drive_label.as_str());
    if p.claimed_capacity_bytes > 0 {
        d.append("│  容量  : ");
        d.append(p.capacity_gib_text.as_str());
        d.append(" GiB\n");
    } else {
        assert(d@ + Seq::<char>::empty() =~= d@);
    }
    optional_line_text(&mut d, "│  文件系统: ", p.file_system.as_str());
    optional_line_text(&mut d, "│  型号  : ", p.model.as_str());
    d.append("│  类型  : ");
    d.append(p.device_class.label());
    d.append("\n");
    d.append("│  接口  : ");
    d.append(p.bus_type.as_str());
    d.append(" ");
    match &p.usb_version {
        Some(v) => d.append(v.as_str()),
        None => {
            assert(d@ + Seq::<char>::empty() =~= d@);
        },
    }
    d.append("\n");
    d.append(DRIVE_FOOTER);
    d.append("\n");
    assert(d@ =~= spec_drive_block(*p));

    // results table
    let mut rows1: Vec<Vec<String>> = Vec::new();
    let mut i: usize = 0;
    while i < p.measurements.len()
        invariant
            i <= p.measurements@.len(),
            rows1@.map_values(|r: Vec<String>| r@.map_values(|c: String| c@)) == p.measurements@.take(i as int).map_values(|m: PageMeasurement| results_row(m)),
        decreases p.measurements@.len() - i,
    {
        let m = &p.measurements[i];
        let mut median = String::from_str(m.median_text.as_str());
        median.append(" ");
        median.append(m.unit.as_str());
        let row = strings5(m.label.as_str(), median.as_str(), m.min_text.as_str(), m.max_text.as_str(), m.cv_text.as_str());
        let ghost before = rows1@.map_values(|r: Vec<String>| r@.map_values(|c: String| c@));
        rows1.push(row);
        assert(rows1@.map_values(|r: Vec<String>| r@.map_values(|c: String| c@)) =~= before.push(results_row(*m)));
        assert(p.measurements@.take(i + 1).map_values(|m: PageMeasurement| results_row(m)) =~= p.measurements@.take(i as int).map_values(|m: PageMeasurement| results_row(m)).push(results_row(*m)));
        i = i + 1;
    }
    assert(p.measurements@.take(p.measurements@.len() as int) =~= p.measurements@);
    let header1 = strings5("测试项", "中位数", "最小", "最大", "稳定性");
    let table1 = render_table(&header1, &rows1);

    // score table
    let mut rows2: Vec<Vec<String>> = Vec::new();
    let mut k: usize = 0;
    while k < p.sub_scores.len()
        invariant
            k <= p.sub_scores@.len(),
            rows2@.map_values(|r: Vec<String>| r@.map_values(|c: String| c@)) == p.sub_scores@.take(k as int).map_values(|s: PageSubScore| score_table_row(s)),
        decreases p.sub_scores@.len() - k,
    {
        let s = &p.sub_scores[k];
        let mut measured = String::from_str(s.measured_text.as_str());
        measured.append(" ");
        measured.append(s.unit.as_str());
        let mut target = decimal_string(s.target);
        target.append(" ");
        target.append(s.unit.as_str());
        let mut weight = decimal_string(s.weight_pct as u64);
        weight.append("%");
        let mut score = decimal_string(s.score as u64);
        score.append("/100");
        let row = strings5(s.label.as_str(), measured.as_str(), target.as_str(), weight.as_str(), score.as_str());
        let ghost before = rows2@.map_values(|r: Vec<String>| r@.map_values(|c: String| c@));
        rows2.push(row);
        assert(rows2@.map_values(|r: Vec<String>| r@.map_values(|c: String| c@)) =~= before.push(score_table_row(*s)));
        assert(p.sub_scores@.take(k + 1).map_values(|s: PageSubScore| score_table_row(s)) =~= p.sub_scores@.take(k as int).map_values(|s: PageSubScore| score_table_row(s)).push(score_table_row(*s)));
        k = k + 1;
    }
    assert(p.sub_scores@.take(p.sub_scores@.len() as int) =~= p.sub_scores@);
    let header2 = strings5("项目", "测得", "目标(满分)", "权重", "得分");
    let table2 = render_table(&header2, &rows2);

    let (sig, _) = p.signature.as_str().split_at(32);
    proof {
        broadcast use vstd::utf8::encode_utf8_decode_utf8;
        assert(sig@ == decode_utf8(sig.spec_bytes()));
    }
    let ubs = decimal_string(p.ubs as u64);

    let mut t = String::from_str("\n");
    t.append(d.as_str());
    t.append("\n");
    t.append(RESULTS_HEADING);
    t.append("\n");
    t.append(table1.as_str());
    t.append("\n");
    t.append("\n");
    t.append(SCORE_HEADING);
    t.append("\n");
    t.append(table2.as_str());
    t.append("\n");
    t.append("\n");
    t.append("  ▶▶  UBench Score (UBS): ");
    t.append(ubs.as_str());
    t.append(" / 100\n");
    t.append("  ▶▶  Grade            : ");
    t.append(p.grade.label());
    t.append("\n");
    t.append("\n");
    t.append("  签名: sha256:");
    t.append(sig);
    t.append("\n");
    t.append("  规则版本: ");
    t.append(p.formula_version.as_str());
    t.append("\n");
    t.append("\n");
    t
}


/// The summary holds the results table: under the header 测试项, 中位数, 最小,
/// 最大, 稳定性, one row per measurement, in order, made of its label, its
/// median with the unit, its minimum, its maximum and its stability; and the
/// score table: under 项目, 测得, 目标(满分), 权重, 得分, one row per
/// sub-score with its label, the measured rate with the unit, the target with
/// the unit, the weight in percent and the score out of 100. It states the
/// UBS out of 100.
pub proof fn lemma_summary_tables(p: BenchPage)
    ensures
        has_infix(
            spec_bench_summary(p),
            utf8_full_table(
                seq!["测试项"@, "中位数"@, "最小"@, "最大"@, "稳定性"@],
                Seq::new(
                    p.measurements@.len(),
                    |i: int|
                        seq![
                            p.measurements@[i].label@,
                            p.measurements@[i].median_text@ + " "@ + p.measurements@[i].unit@,
                            p.measurements@[i].min_text@,
                            p.measurements@[i].max_text@,
                            p.measurements@[i].cv_text@,
                        ],
                ),
            ),
        ),
        has_infix(
            spec_bench_summary(p),
            utf8_full_table(
                seq!["项目"@, "测得"@, "目标(满分)"@, "权重"@, "得分"@],
                Seq::new(
                    p.sub_scores@.len(),
                    |i: int|
                        seq![
                            p.sub_scores@[i].label@,
                            p.sub_scores@[i].measured_text@ + " "@ + p.sub_scores@[i].unit@,
                            decimal(p.sub_scores@[i].target as nat) + " "@ + p.sub_scores@[i].unit@,
                            decimal(p.sub_scores@[i].weight_pct as nat) + "%"@,
                            decimal(p.sub_scores@[i].score as nat) + "/100"@,
                        ],
                ),
            ),
        ),
        has_infix(spec_bench_summary(p), "UBench Score (UBS): "@ + decimal(p.ubs as nat) + " / 100\n"@),
{
    broadcast use lemma_infix_left, lemma_infix_right, lemma_ends_with_concat, lemma_infix_between;
    let rows1 = p.measurements@.map_values(|m: PageMeasurement| results_row(m));
    let want1 = Seq::new(
        p.measurements@.len(),
        |i: int|
            seq![
                p.measurements@[i].label@,
                p.measurements@[i].median_text@ + " "@ + p.measurements@[i].unit@,
                p.measurements@[i].min_text@,
                p.measurements@[i].max_text@,
                p.measurements@[i].cv_text@,
            ],
    );
    assert(rows1 =~= want1);
    let rows2 = p.sub_scores@.map_values(|s: PageSubScore| score_table_row(s));
    let want2 = Seq::new(
        p.sub_scores@.len(),
        |i: int|
            seq![
                p.sub_scores@[i].label@,
                p.sub_scores@[i].measured_text@ + " "@ + p.sub_scores@[i].unit@,
                decimal(p.sub_scores@[i].target as nat) + " "@ + p.sub_scores@[i].unit@,
                decimal(p.sub_scores@[i].weight_pct as nat) + "%"@,
                decimal(p.sub_scores@[i].score as nat) + "/100"@,
            ],
    );
    assert(rows2 =~= want2);
    let t1 = utf8_full_table(results_header(), rows1);
    let t2 = utf8_full_table(score_header(), rows2);
    lemma_infix_self(t1);
    lemma_infix_self(t2);
    assert(has_infix(spec_bench_summary(p), t1));
    assert(has_infix(spec_bench_summary(p), t2));
    let line = "UBench Score (UBS): "@ + decimal(p.ubs as nat) + " / 100\n"@;
    reveal_strlit("  ▶▶  UBench Score (UBS): ");
    reveal_strlit("UBench Score (UBS): ");
    let lead = "  ▶▶  UBench Score (UBS): "@;
    let u = "UBench Score (UBS): "@;
    assert(lead.subrange(lead.len() - u.len(), lead.len() as int) =~= u);
    assert(ends_with(lead, u));
    let tail = " / 100\n"@;
    assert(tail.subrange(0, tail.len() as int) =~= tail);
    assert(starts_with(tail, tail));
    assert(has_infix(spec_bench_summary(p), line));
}

} // verus!
