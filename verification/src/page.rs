//! The HTML templates of the two report pages, cut at their fields.

use vstd::prelude::*;

verus! {

/// Piece 0 of the benchmark report page.
pub const BENCH_PAGE_0: &'static str = "<!DOCTYPE html>\n<html lang=\"zh-CN\">\n<head>\n<meta charset=\"UTF-8\">\n<meta name=\"viewport\" content=\"width=device-width,initial-scale=1\">\n<title>UBench 跑分报告 — ";

/// Piece 1 of the benchmark report page.
pub const BENCH_PAGE_1: &'static str = "</title>\n<script src=\"https://cdn.jsdelivr.net/npm/echarts@5/dist/echarts.min.js\"></script>\n<style>\n  *{box-sizing:border-box;margin:0;padding:0}\n  body{font-family:-apple-system,BlinkMacSystemFont,'Segoe UI',sans-serif;background:#0f172a;color:#e2e8f0;min-height:100vh}\n  .hero{background:linear-gradient(135deg,#1e3a5f 0%,#0f1f3c 100%);padding:32px 24px 24px;border-bottom:1px solid #1e40af22}\n  .hero h1{font-size:22px;font-weight:700;color:#60a5fa;letter-spacing:0.5px}\n  .hero .sub{font-size:13px;color:#94a3b8;margin-top:4px}\n  .container{max-width:960px;margin:0 auto;padding:24px 16px}\n  .card{background:#1e293b;border-radius:12px;padding:24px;margin-bottom:20px;border:1px solid #334155}\n  .card h2{font-size:15px;font-weight:600;color:#94a3b8;text-transform:uppercase;letter-spacing:1px;margin-bottom:16px;border-bottom:1px solid #334155;padding-bottom:10px}\n  .score-wrap{display:flex;align-items:center;gap:32px;flex-wrap:wrap}\n  .score-num{font-size:96px;font-weight:900;line-height:1}\n  .score-num.excellent{color:#22c55e}\n  .score-num.good{color:#3b82f6}\n  .score-num.fair{color:#eab308}\n  .score-num.poor{color:#f97316}\n  .score-num.fail{color:#ef4444}\n  .score-detail{flex:1;min-width:200px}\n  .grade-badge{display:inline-block;padding:6px 16px;border-radius:20px;font-size:16px;font-weight:700;margin-bottom:12px}\n  .grade-excellent{background:#14532d;color:#22c55e}\n  .grade-good{background:#1e3a8a;color:#60a5fa}\n  .grade-fair{background:#713f12;color:#fbbf24}\n  .grade-poor{background:#7c2d12;color:#fb923c}\n  .grade-fail{background:#450a0a;color:#ef4444}\n  .meta-grid{display:grid;grid-template-columns:repeat(auto-fit,minmax(160px,1fr));gap:12px}\n  .meta-item{background:#0f172a;border-radius:8px;padding:12px 14px}\n  .meta-label{font-size:11px;color:#64748b;text-transform:uppercase;letter-spacing:0.5px}\n  .meta-value{font-size:15px;font-weight:600;color:#e2e8f0;margin-top:2px}\n  table{width:100%;border-collapse:collapse;font-size:13px}\n  th{text-align:left;color:#64748b;font-weight:500;padding:8px 10px;border-bottom:1px solid #334155}\n  td{padding:8px 10px;border-bottom:1px solid #1e293b}\n  tr:last-child td{border-bottom:none}\n  tr:hover td{background:#1e3a5f22}\n  .sbar-wrap{display:flex;align-items:center;gap:8px}\n  .sbar{height:8px;border-radius:4px;min-width:2px}\n  .sbar-wrap span{font-size:12px;color:#94a3b8;white-space:nowrap}\n  #barChart{width:100%;height:280px}\n  .sig{font-size:11px;color:#475569;margin-top:4px;font-family:monospace}\n  .footer{text-align:center;color:#334155;font-size:12px;padding:24px}\n  .footer a{color:#3b82f6;text-decoration:none}\n  .pill{display:inline-block;background:#1e3a8a;color:#93c5fd;font-size:11px;padding:2px 8px;border-radius:10px;margin-left:6px}\n</style>\n</head>\n<body>\n<div class=\"hero\">\n  <div style=\"max-width:960px;margin:0 auto\">\n    <h1>UBench — 行业标准 U盘跑分<span class=\"pill\">Direct I/O</span></h1>\n    <div class=\"sub\">";

/// Piece 2 of the benchmark report page.
pub const BENCH_PAGE_2: &'static str = " &nbsp;·&nbsp; ";

/// Piece 3 of the benchmark report page.
pub const BENCH_PAGE_3: &'static str = " &nbsp;·&nbsp; v";

/// Piece 4 of the benchmark report page.
pub const BENCH_PAGE_4: &'static str = "</div>\n  </div>\n</div>\n\n<div class=\"container\">\n\n<div class=\"card\">\n  <h2>UBench Score (UBS)</h2>\n  <div class=\"score-wrap\">\n    <div class=\"score-num ";

/// Piece 5 of the benchmark report page.
pub const BENCH_PAGE_5: &'static str = "\">";

/// Piece 6 of the benchmark report page.
pub const BENCH_PAGE_6: &'static str = "</div>\n    <div class=\"score-detail\">\n      <div class=\"grade-badge ";

/// Piece 7 of the benchmark report page.
pub const BENCH_PAGE_7: &'static str = "\">";

/// Piece 8 of the benchmark report page.
pub const BENCH_PAGE_8: &'static str = "</div>\n      <div style=\"font-size:13px;color:#94a3b8;margin-top:8px\">规则版本: ";

/// Piece 9 of the benchmark report page.
pub const BENCH_PAGE_9: &'static str = "</div>\n      <div class=\"sig\">sha256:";

/// Piece 10 of the benchmark report page.
pub const BENCH_PAGE_10: &'static str = "</div>\n    </div>\n  </div>\n</div>\n\n<div class=\"card\">\n  <h2>设备信息</h2>\n  <div class=\"meta-grid\">\n    <div class=\"meta-item\"><div class=\"meta-label\">挂载点</div><div class=\"meta-value\">";

/// Piece 11 of the benchmark report page.
pub const BENCH_PAGE_11: &'static str = "</div></div>\n    <div class=\"meta-item\"><div class=\"meta-label\">类型</div><div class=\"meta-value\">";

/// Piece 12 of the benchmark report page.
pub const BENCH_PAGE_12: &'static str = "</div></div>\n    <div class=\"meta-item\"><div class=\"meta-label\">接口</div><div class=\"meta-value\">";

/// Piece 13 of the benchmark report page.
pub const BENCH_PAGE_13: &'static str = "</div></div>\n    <div class=\"meta-item\"><div class=\"meta-label\">容量</div><div class=\"meta-value\">";

/// Piece 14 of the benchmark report page.
pub const BENCH_PAGE_14: &'static str = "</div></div>\n    <div class=\"meta-item\"><div class=\"meta-label\">文件系统</div><div class=\"meta-value\">";

/// Piece 15 of the benchmark report page.
pub const BENCH_PAGE_15: &'static str = "</div></div>\n    <div class=\"meta-item\"><div class=\"meta-label\">测量方式</div><div class=\"meta-value\">";

/// Piece 16 of the benchmark report page.
pub const BENCH_PAGE_16: &'static str = "</div></div>\n    ";

/// Piece 17 of the benchmark report page.
pub const BENCH_PAGE_17: &'static str = "\n  </div>\n</div>\n\n<div class=\"card\">\n  <h2>各项分数</h2>\n  <div id=\"barChart\"></div>\n</div>\n\n<div class=\"card\">\n  <h2>详细分数</h2>\n  <table>\n    <thead><tr><th>测试项</th><th>测得值</th><th>目标(满分)</th><th>权重</th><th>得分</th></tr></thead>\n    <tbody>";

/// Piece 18 of the benchmark report page.
pub const BENCH_PAGE_18: &'static str = "</tbody>\n  </table>\n</div>\n\n<div class=\"card\">\n  <h2>原始测量数据</h2>\n  <table>\n    <thead><tr><th>测试项</th><th>中位数</th><th>最小</th><th>最大</th><th>稳定性</th></tr></thead>\n    <tbody>";

/// Piece 19 of the benchmark report page.
pub const BENCH_PAGE_19: &'static str = "</tbody>\n  </table>\n</div>\n\n</div>\n\n<div class=\"footer\">\n  Generated by <a href=\"https://github.com/dongsheng123132/ubench\">UBench</a> — 开源 U盘跑分工具 | MIT License\n</div>\n\n<script>\nvar chart = echarts.init(document.getElementById('barChart'));\nchart.setOption({\n  tooltip: { trigger: 'axis', formatter: function(p) {\n    var s = p[0]; return s.name + '<br/>' + s.value + '/100';\n  } },\n  grid: { left: '180px', right: '40px', top: '20px', bottom: '20px' },\n  xAxis: { type: 'value', max: 100, splitLine: { lineStyle: { color: '#334155' } }, axisLabel: { color: '#64748b' } },\n  yAxis: { type: 'category', data: [";

/// Piece 20 of the benchmark report page.
pub const BENCH_PAGE_20: &'static str = "], axisLabel: { color: '#e2e8f0', fontSize: 12 } },\n  series: [{\n    type: 'bar',\n    data: [";

/// Piece 21 of the benchmark report page.
pub const BENCH_PAGE_21: &'static str = "],\n    barMaxWidth: 24,\n    itemStyle: { borderRadius: 4, color: function(p) {\n      var v = p.value;\n      if (v >= 85) return '#22c55e';\n      if (v >= 70) return '#3b82f6';\n      if (v >= 50) return '#eab308';\n      if (v >= 25) return '#f97316';\n      return '#ef4444';\n    } },\n    label: { show: true, position: 'right', color: '#94a3b8', formatter: function(p) {\n      var tips = [";

/// Piece 22 of the benchmark report page.
pub const BENCH_PAGE_22: &'static str = "];\n      return p.value + '/100  ' + (tips[p.dataIndex] || '');\n    } }\n  }]\n});\nwindow.addEventListener('resize', function() { chart.resize(); });\n</script>\n</body>\n</html>";

/// The benchmark report page with its fields filled in.
pub open spec fn spec_fill_bench_page(mount: Seq<char>, date: Seq<char>, version: Seq<char>, score_class: Seq<char>, score: Seq<char>, grade_class: Seq<char>, grade: Seq<char>, formula: Seq<char>, sig: Seq<char>, device_class: Seq<char>, bus_type: Seq<char>, capacity: Seq<char>, fs: Seq<char>, usb_note: Seq<char>, model_html: Seq<char>, score_rows: Seq<char>, rows: Seq<char>, bar_labels: Seq<char>, bar_scores: Seq<char>, bar_measured_js: Seq<char>) -> Seq<char> {
    BENCH_PAGE_0@
        + mount
        + BENCH_PAGE_1@
        + mount
        + BENCH_PAGE_2@
        + date
        + BENCH_PAGE_3@
        + version
        + BENCH_PAGE_4@
        + score_class
        + BENCH_PAGE_5@
        + score
        + BENCH_PAGE_6@
        + grade_class
        + BENCH_PAGE_7@
        + grade
        + BENCH_PAGE_8@
        + formula
        + BENCH_PAGE_9@
        + sig
        + BENCH_PAGE_10@
        + mount
        + BENCH_PAGE_11@
        + device_class
        + BENCH_PAGE_12@
        + bus_type
        + BENCH_PAGE_13@
        + capacity
        + BENCH_PAGE_14@
        + fs
        + BENCH_PAGE_15@
        + usb_note
        + BENCH_PAGE_16@
        + model_html
        + BENCH_PAGE_17@
        + score_rows
        + BENCH_PAGE_18@
        + rows
        + BENCH_PAGE_19@
        + bar_labels
        + BENCH_PAGE_20@
        + bar_scores
        + BENCH_PAGE_21@
        + bar_measured_js
        + BENCH_PAGE_22@
}

/// Fill in the benchmark report page.
pub fn fill_bench_page(mount: &str, date: &str, version: &str, score_class: &str, score: &str, grade_class: &str, grade: &str, formula: &str, sig: &str, device_class: &str, bus_type: &str, capacity: &str, fs: &str, usb_note: &str, model_html: &str, score_rows: &str, rows: &str, bar_labels: &str, bar_scores: &str, bar_measured_js: &str) -> (s: String)
    ensures
        s@ == spec_fill_bench_page(mount@, date@, version@, score_class@, score@, grade_class@, grade@, formula@, sig@, device_class@, bus_type@, capacity@, fs@, usb_note@, model_html@, score_rows@, rows@, bar_labels@, bar_scores@, bar_measured_js@),
{
    let mut s = String::new();
    s.append(BENCH_PAGE_0);
    s.append(mount);
    s.append(BENCH_PAGE_1);
    s.append(mount);
    s.append(BENCH_PAGE_2);
    s.append(date);
    s.append(BENCH_PAGE_3);
    s.append(version);
    s.append(BENCH_PAGE_4);
    s.append(score_class);
    s.append(BENCH_PAGE_5);
    s.append(score);
    s.append(BENCH_PAGE_6);
    s.append(grade_class);
    s.append(BENCH_PAGE_7);
    s.append(grade);
    s.append(BENCH_PAGE_8);
    s.append(formula);
    s.append(BENCH_PAGE_9);
    s.append(sig);
    s.append(BENCH_PAGE_10);
    s.append(mount);
    s.append(BENCH_PAGE_11);
    s.append(device_class);
    s.append(BENCH_PAGE_12);
    s.append(bus_type);
    s.append(BENCH_PAGE_13);
    s.append(capacity);
    s.append(BENCH_PAGE_14);
    s.append(fs);
    s.append(BENCH_PAGE_15);
    s.append(usb_note);
    s.append(BENCH_PAGE_16);
    s.append(model_html);
    s.append(BENCH_PAGE_17);
    s.append(score_rows);
    s.append(BENCH_PAGE_18);
    s.append(rows);
    s.append(BENCH_PAGE_19);
    s.append(bar_labels);
    s.append(BENCH_PAGE_20);
    s.append(bar_scores);
    s.append(BENCH_PAGE_21);
    s.append(bar_measured_js);
    s.append(BENCH_PAGE_22);
    s
}

/// Piece 0 of the quality-test report page.
pub const QUALITY_PAGE_0: &'static str = "<!DOCTYPE html>\n<html lang=\"zh-CN\">\n<head>\n<meta charset=\"UTF-8\">\n<title>UBench 跑分报告 - ";

/// Piece 1 of the quality-test report page.
pub const QUALITY_PAGE_1: &'static str = "</title>\n<script src=\"https://cdn.jsdelivr.net/npm/echarts@5/dist/echarts.min.js\"></script>\n<style>\n  body { font-family: -apple-system, BlinkMacSystemFont, 'Segoe UI', sans-serif; max-width: 900px; margin: 0 auto; padding: 20px; background: #f5f5f5; }\n  .header { background: linear-gradient(135deg, #667eea 0%, #764ba2 100%); color: white; padding: 30px; border-radius: 12px; margin-bottom: 20px; }\n  .header h1 { margin: 0 0 8px 0; font-size: 24px; }\n  .header p { margin: 0; opacity: 0.9; }\n  .card { background: white; border-radius: 12px; padding: 24px; margin-bottom: 16px; box-shadow: 0 2px 8px rgba(0,0,0,0.08); }\n  .card h2 { margin-top: 0; color: #333; font-size: 18px; border-bottom: 2px solid #eee; padding-bottom: 8px; }\n  .score { font-size: 64px; font-weight: bold; text-align: center; }\n  .score.excellent { color: #22c55e; }\n  .score.good { color: #3b82f6; }\n  .score.fair { color: #eab308; }\n  .score.poor { color: #ef4444; }\n  .stat-grid { display: grid; grid-template-columns: repeat(auto-fit, minmax(200px, 1fr)); gap: 16px; }\n  .stat { text-align: center; padding: 16px; background: #f8fafc; border-radius: 8px; }\n  .stat-value { font-size: 28px; font-weight: bold; color: #1e40af; }\n  .stat-label { font-size: 14px; color: #64748b; margin-top: 4px; }\n  .chart { width: 100%; height: 300px; }\n  .grade-badge { display: inline-block; padding: 4px 12px; border-radius: 20px; font-size: 14px; font-weight: 600; }\n  .grade-excellent { background: #dcfce7; color: #166534; }\n  .grade-good { background: #dbeafe; color: #1e40af; }\n  .grade-fair { background: #fef3c7; color: #92400e; }\n  .grade-poor { background: #fee2e2; color: #991b1b; }\n</style>\n</head>\n<body>\n<div class=\"header\">\n  <h1>U盘质量检测报告</h1>\n  <p>";

/// Piece 2 of the quality-test report page.
pub const QUALITY_PAGE_2: &'static str = " | 检测日期: ";

/// Piece 3 of the quality-test report page.
pub const QUALITY_PAGE_3: &'static str = "</p>\n</div>\n\n<div class=\"card\">\n  <h2>综合评分</h2>\n  <div class=\"score ";

/// Piece 4 of the quality-test report page.
pub const QUALITY_PAGE_4: &'static str = "\">";

/// Piece 5 of the quality-test report page.
pub const QUALITY_PAGE_5: &'static str = "<span style=\"font-size:24px\">/100</span></div>\n  <div style=\"text-align:center\"><span class=\"grade-badge grade-";

/// Piece 6 of the quality-test report page.
pub const QUALITY_PAGE_6: &'static str = "\">";

/// Piece 7 of the quality-test report page.
pub const QUALITY_PAGE_7: &'static str = "</span></div>\n</div>\n\n<div class=\"card\">\n  <h2>检测数据</h2>\n  <div class=\"stat-grid\">\n    <div class=\"stat\">\n      <div class=\"stat-value\">";

/// Piece 8 of the quality-test report page.
pub const QUALITY_PAGE_8: &'static str = " GB</div>\n      <div class=\"stat-label\">标称容量</div>\n    </div>\n    <div class=\"stat\">\n      <div class=\"stat-value\">";

/// Piece 9 of the quality-test report page.
pub const QUALITY_PAGE_9: &'static str = "</div>\n      <div class=\"stat-label\">真实容量</div>\n    </div>\n    <div class=\"stat\">\n      <div class=\"stat-value\">";

/// Piece 10 of the quality-test report page.
pub const QUALITY_PAGE_10: &'static str = "</div>\n      <div class=\"stat-label\">顺序读取</div>\n    </div>\n    <div class=\"stat\">\n      <div class=\"stat-value\">";

/// Piece 11 of the quality-test report page.
pub const QUALITY_PAGE_11: &'static str = "</div>\n      <div class=\"stat-label\">顺序写入</div>\n    </div>\n    <div class=\"stat\">\n      <div class=\"stat-value\">";

/// Piece 12 of the quality-test report page.
pub const QUALITY_PAGE_12: &'static str = "</div>\n      <div class=\"stat-label\">随机读取 IOPS</div>\n    </div>\n    <div class=\"stat\">\n      <div class=\"stat-value\">";

/// Piece 13 of the quality-test report page.
pub const QUALITY_PAGE_13: &'static str = "</div>\n      <div class=\"stat-label\">随机写入 IOPS</div>\n    </div>\n    <div class=\"stat\">\n      <div class=\"stat-value\">";

/// Piece 14 of the quality-test report page.
pub const QUALITY_PAGE_14: &'static str = "</div>\n      <div class=\"stat-label\">速度稳定性</div>\n    </div>\n    <div class=\"stat\">\n      <div class=\"stat-value\">";

/// Piece 15 of the quality-test report page.
pub const QUALITY_PAGE_15: &'static str = "</div>\n      <div class=\"stat-label\">坏块数量</div>\n    </div>\n  </div>\n</div>\n\n<div class=\"card\">\n  <h2>读写速度曲线</h2>\n  <div id=\"speedChart\" class=\"chart\"></div>\n</div>\n\n<div class=\"card\">\n  <h2>坏块分布</h2>\n  <div id=\"badBlockChart\" class=\"chart\"></div>\n</div>\n\n<script>\nvar speedData = ";

/// Piece 16 of the quality-test report page.
pub const QUALITY_PAGE_16: &'static str = ";\nif (speedData && speedData.length > 0) {\n  var chart = echarts.init(document.getElementById('speedChart'));\n  chart.setOption({\n    tooltip: { trigger: 'axis' },\n    legend: { data: ['写入速度', '读取速度'] },\n    xAxis: { type: 'category', data: speedData.map(s => s.offset_mb + ' MB'), name: '偏移量' },\n    yAxis: { type: 'value', name: 'MB/s' },\n    series: [\n      { name: '写入速度', type: 'line', data: speedData.map(s => s.write_speed), smooth: true, itemStyle: { color: '#ef4444' } },\n      { name: '读取速度', type: 'line', data: speedData.map(s => s.read_speed), smooth: true, itemStyle: { color: '#3b82f6' } }\n    ]\n  });\n}\n\nvar badData = ";

/// Piece 17 of the quality-test report page.
pub const QUALITY_PAGE_17: &'static str = ";\nif (badData && badData.length > 0) {\n  var chart2 = echarts.init(document.getElementById('badBlockChart'));\n  var heatData = badData.map((pos, i) => [pos % 100, Math.floor(pos / 100), 1]);\n  chart2.setOption({\n    tooltip: {},\n    xAxis: { type: 'category', splitArea: { show: true } },\n    yAxis: { type: 'category', splitArea: { show: true } },\n    visualMap: { min: 0, max: 1, calculable: false, orient: 'horizontal', left: 'center', bottom: 0, inRange: { color: ['#22c55e', '#ef4444'] } },\n    series: [{ type: 'heatmap', data: heatData, label: { show: false } }]\n  });\n} else {\n  document.getElementById('badBlockChart').innerHTML = '<p style=\"text-align:center;color:#22c55e;font-size:18px;padding:40px\">未发现坏块</p>';\n}\n</script>\n<div style=\"text-align:center;color:#94a3b8;font-size:12px;margin-top:20px\">\n  Generated by UBench (https://github.com/dongsheng123132/ubench) | ";

/// Piece 18 of the quality-test report page.
pub const QUALITY_PAGE_18: &'static str = "\n</div>\n</body>\n</html>";

/// The quality-test report page with its fields filled in.
pub open spec fn spec_fill_quality_page(drive_name: Seq<char>, test_date: Seq<char>, score_class: Seq<char>, total_score: Seq<char>, grade_text: Seq<char>, claimed_gb: Seq<char>, real_gb: Seq<char>, seq_read_str: Seq<char>, seq_write_str: Seq<char>, rand_read_str: Seq<char>, rand_write_str: Seq<char>, stability_str: Seq<char>, bad_blocks: Seq<char>, speed_samples_json: Seq<char>, bad_block_positions_json: Seq<char>) -> Seq<char> {
    QUALITY_PAGE_0@
        + drive_name
        + QUALITY_PAGE_1@
        + drive_name
        + QUALITY_PAGE_2@
        + test_date
        + QUALITY_PAGE_3@
        + score_class
        + QUALITY_PAGE_4@
        + total_score
        + QUALITY_PAGE_5@
        + score_class
        + QUALITY_PAGE_6@
        + grade_text
        + QUALITY_PAGE_7@
        + claimed_gb
        + QUALITY_PAGE_8@
        + real_gb
        + QUALITY_PAGE_9@
        + seq_read_str
        + QUALITY_PAGE_10@
        + seq_write_str
        + QUALITY_PAGE_11@
        + rand_read_str
        + QUALITY_PAGE_12@
        + rand_write_str
        + QUALITY_PAGE_13@
        + stability_str
        + QUALITY_PAGE_14@
        + bad_blocks
        + QUALITY_PAGE_15@
        + speed_samples_json
        + QUALITY_PAGE_16@
        + bad_block_positions_json
        + QUALITY_PAGE_17@
        + test_date
        + QUALITY_PAGE_18@
}

/// Fill in the quality-test report page.
pub fn fill_quality_page(drive_name: &str, test_date: &str, score_class: &str, total_score: &str, grade_text: &str, claimed_gb: &str, real_gb: &str, seq_read_str: &str, seq_write_str: &str, rand_read_str: &str, rand_write_str: &str, stability_str: &str, bad_blocks: &str, speed_samples_json: &str, bad_block_positions_json: &str) -> (s: String)
    ensures
        s@ == spec_fill_quality_page(drive_name@, test_date@, score_class@, total_score@, grade_text@, claimed_gb@, real_gb@, seq_read_str@, seq_write_str@, rand_read_str@, rand_write_str@, stability_str@, bad_blocks@, speed_samples_json@, bad_block_positions_json@),
{
    let mut s = String::new();
    s.append(QUALITY_PAGE_0);
    s.append(drive_name);
    s.append(QUALITY_PAGE_1);
    s.append(drive_name);
    s.append(QUALITY_PAGE_2);
    s.append(test_date);
    s.append(QUALITY_PAGE_3);
    s.append(score_class);
    s.append(QUALITY_PAGE_4);
    s.append(total_score);
    s.append(QUALITY_PAGE_5);
    s.append(score_class);
    s.append(QUALITY_PAGE_6);
    s.append(grade_text);
    s.append(QUALITY_PAGE_7);
    s.append(claimed_gb);
    s.append(QUALITY_PAGE_8);
    s.append(real_gb);
    s.append(QUALITY_PAGE_9);
    s.append(seq_read_str);
    s.append(QUALITY_PAGE_10);
    s.append(seq_write_str);
    s.append(QUALITY_PAGE_11);
    s.append(rand_read_str);
    s.append(QUALITY_PAGE_12);
    s.append(rand_write_str);
    s.append(QUALITY_PAGE_13);
    s.append(stability_str);
    s.append(QUALITY_PAGE_14);
    s.append(bad_blocks);
    s.append(QUALITY_PAGE_15);
    s.append(speed_samples_json);
    s.append(QUALITY_PAGE_16);
    s.append(bad_block_positions_json);
    s.append(QUALITY_PAGE_17);
    s.append(test_date);
    s.append(QUALITY_PAGE_18);
    s
}

} // verus!
