//! What the client shows of a detection: the filter over the detection feed,
//! the texts of a detection's row, and the detail lines of an expanded
//! detection or file context.
//!
//! Times and probabilities are handed out as values; rendering them in the
//! local time zone or as a percentage is left to the caller.

use vstd::prelude::*;

use crate::client_view::{
    contains_text, display_path_text, flags_text, key_text, marked_rows, none_marked,
    optional_u64_text, selects, verdict_text, display_path, format_flags, format_key,
    format_optional_u64, verdict_label, ListingContent,
};
use crate::correlation::ProcessInfo;
use crate::detection::{AuthenticodeInfo, DetectionDetails, HeuristicResults, MlPrediction, SignatureMatch};
use crate::file_context::FileTime;
use crate::snapshot::{FileContextSnapshot, FileScanSummarySnapshot};
use crate::text::{chars_of, dec_chars, dec_digits, lowercase, str_lowercase, string_from_chars};

verus! {

/// The value of a detail line.
#[derive(Debug, Clone, PartialEq)]
pub enum DetailValue {
    Text(String),
    /// A point in time, shown in the local time zone.
    Time(FileTime),
    /// A probability, as the bit pattern of its `f32` value, shown as a
    /// percentage.
    Probability(u32),
}

/// A line of an expanded row: a section heading or a labelled value.
#[derive(Debug, Clone, PartialEq)]
pub enum DetailLine {
    Heading(String),
    Row(String, DetailValue),
}

/// The value of a detail line, with its text as characters.
pub enum DetailValueView {
    Text(Seq<char>),
    Time(FileTime),
    Probability(u32),
}

/// A detail line, with its texts as characters.
pub enum DetailLineView {
    Heading(Seq<char>),
    Row(Seq<char>, DetailValueView),
}

impl View for DetailValue {
    type V = DetailValueView;

    open spec fn view(&self) -> DetailValueView {
        match self {
            DetailValue::Text(s) => DetailValueView::Text(s@),
            DetailValue::Time(t) => DetailValueView::Time(*t),
            DetailValue::Probability(p) => DetailValueView::Probability(*p),
        }
    }
}

impl View for DetailLine {
    type V = DetailLineView;

    open spec fn view(&self) -> DetailLineView {
        match self {
            DetailLine::Heading(h) => DetailLineView::Heading(h@),
            DetailLine::Row(l, v) => DetailLineView::Row(l@, v@),
        }
    }
}

/// The views of a list of detail lines.
pub open spec fn line_views(lines: Seq<DetailLine>) -> Seq<DetailLineView> {
    lines.map_values(|l: DetailLine| l@)
}

/// A decimal integer, with a leading `-` when negative.
pub open spec fn int_text(i: int) -> Seq<char> {
    if i < 0 {
        seq!['-'] + dec_digits((-i) as nat)
    } else {
        dec_digits(i as nat)
    }
}

/// `Yes` or `No`.
pub open spec fn yes_no(b: bool) -> Seq<char> {
    if b {
        "Yes"@
    } else {
        "No"@
    }
}

/// A heading line.
pub open spec fn heading(h: Seq<char>) -> DetailLineView {
    DetailLineView::Heading(h)
}

/// A line with a text value.
pub open spec fn text_row(label: Seq<char>, value: Seq<char>) -> DetailLineView {
    DetailLineView::Row(label, DetailValueView::Text(value))
}

/// A line with an optional time: the time, or `-`.
pub open spec fn time_row(label: Seq<char>, t: Option<FileTime>) -> DetailLineView {
    match t {
        Some(t) => DetailLineView::Row(label, DetailValueView::Time(t)),
        None => text_row(label, seq!['-']),
    }
}

/// A line for an optional text, present only when the text is.
pub open spec fn optional_row(label: Seq<char>, value: Option<String>) -> Seq<DetailLineView> {
    match value {
        Some(v) => seq![text_row(label, v@)],
        None => seq![],
    }
}

/// The lines describing the process of a detection.
pub open spec fn process_lines(info: ProcessInfo) -> Seq<DetailLineView> {
    seq![heading("Process Information"@), text_row("Path"@, info.path@)]
        + optional_row("Command Line"@, info.command_line)
        + match info.parent_pid {
        Some(p) => seq![text_row("Parent PID"@, dec_digits(p as nat))],
        None => seq![],
    } + match info.creation_time {
        Some(t) => seq![DetailLineView::Row("Created"@, DetailValueView::Time(t))],
        None => seq![],
    }
}

/// The lines of the image hash, when there is one.
pub open spec fn hash_lines(md5: Option<String>) -> Seq<DetailLineView> {
    match md5 {
        Some(h) => seq![heading("Hash Information"@), text_row("MD5"@, h@)],
        None => seq![],
    }
}

/// The lines of a signature database match, when there is one.
pub open spec fn signature_lines(m: Option<SignatureMatch>) -> Seq<DetailLineView> {
    match m {
        Some(m) => seq![
            heading("Signature Match"@),
            text_row("Hash"@, m.hash@),
            text_row("Score"@, int_text(m.verdict_score as int)),
            text_row("Metadata"@, m.metadata@),
        ],
        None => seq![],
    }
}

/// The lines of the Authenticode check, when it ran.
pub open spec fn authenticode_lines(a: Option<AuthenticodeInfo>) -> Seq<DetailLineView> {
    match a {
        Some(a) => seq![
            heading("Authenticode Information"@),
            text_row("Signed"@, yes_no(a.is_signed)),
            text_row("Trusted"@, yes_no(a.is_trusted)),
            text_row("Revoked"@, yes_no(a.is_revoked)),
        ] + optional_row("Signer"@, a.signer) + seq![
            text_row("Score Modifier"@, int_text(a.score_modifier as int)),
        ],
        None => seq![],
    }
}

/// The lines of the heuristic analysis, when it ran.
pub open spec fn heuristic_lines(h: Option<HeuristicResults>) -> Seq<DetailLineView> {
    match h {
        Some(h) => seq![heading("Heuristic Analysis"@), text_row("Packed"@, yes_no(h.is_packed))]
            + optional_row("Packer"@, h.packer_name) + seq![
            text_row("RWX Sections"@, yes_no(h.has_rwx_sections)),
            text_row("High Entropy"@, yes_no(h.high_entropy)),
        ] + optional_row("ImpHash"@, h.imphash) + seq![
            text_row("Score Modifier"@, int_text(h.score_modifier as int)),
        ],
        None => seq![],
    }
}

/// The lines of the classifier's prediction, when it made one.
pub open spec fn ml_lines(m: Option<MlPrediction>) -> Seq<DetailLineView> {
    match m {
        Some(m) => seq![
            heading("ML Prediction"@),
            DetailLineView::Row(
                "Malicious Probability"@,
                DetailValueView::Probability(m.probability_bits),
            ),
            text_row("Score Modifier"@, int_text(m.score_modifier as int)),
        ],
        None => seq![],
    }
}

/// The detail lines of an expanded detection: its process, then each
/// finding the scan recorded.
pub open spec fn detection_lines(info: ProcessInfo, d: DetectionDetails) -> Seq<DetailLineView> {
    process_lines(info) + hash_lines(d.md5_hash) + signature_lines(d.signature_match)
        + authenticode_lines(d.authenticode) + heuristic_lines(d.heuristics) + ml_lines(
        d.ml_prediction,
    )
}

/// The lines of a file context's latest scan.
pub open spec fn scan_summary_lines(s: FileScanSummarySnapshot) -> Seq<DetailLineView> {
    seq![
        heading("Latest Static Scan"@),
        text_row("Verdict"@, verdict_text(s.verdict)),
        text_row("Threat Score"@, int_text(s.threat_score as int)),
        text_row("File Size"@, dec_digits(s.file_size as nat)),
        DetailLineView::Row("Modified"@, DetailValueView::Time(s.mod_time)),
        text_row("Scan File Index"@, optional_u64_text(s.file_index)),
    ]
}

/// The detail lines of an expanded file context.
pub open spec fn file_context_lines(c: FileContextSnapshot) -> Seq<DetailLineView> {
    seq![
        heading("File Context"@),
        text_row("Cache Key"@, key_text(c.key)),
        text_row("Path"@, display_path_text(c)),
        text_row("File Index"@, optional_u64_text(c.file_index)),
        text_row("Flags"@, flags_text(c.matching_flags@)),
    ] + optional_row("Last Writer"@, c.last_write_process) + seq![
        time_row("Last Write"@, c.last_write_time),
        time_row("Last Rename"@, c.last_rename_time),
    ] + optional_row("Original Name"@, c.original_name) + match c.last_scan_summary {
        Some(s) => scan_summary_lines(s),
        None => seq![],
    }
}

/// Whether a detection's row is shown under a filter: always for an empty
/// filter, else when the lower-cased filter occurs in the lower-cased process
/// name or in the decimal process ID.
pub open spec fn detection_matches(name: Seq<char>, pid: u64, filter: Seq<char>) -> bool {
    ||| filter.len() == 0
    ||| contains_text(str_lowercase(name), str_lowercase(filter))
    ||| contains_text(dec_digits(pid as nat), str_lowercase(filter))
}

/// The characters of a decimal integer.
fn int_chars(i: i32) -> (r: Vec<char>)
    ensures
        r@ == int_text(i as int),
{
    if i < 0 {
        let magnitude: u64 = (-(i as i64)) as u64;
        let mut out: Vec<char> = Vec::new();
        out.push('-');
        let mut digits = dec_chars(magnitude);
        out.append(&mut digits);
        assert(out@ =~= int_text(i as int));
        out
    } else {
        dec_chars(i as u64)
    }
}

/// A decimal integer as text.
pub fn int_string(i: i32) -> (r: String)
    ensures
        r@ == int_text(i as int),
{
    string_from_chars(&int_chars(i))
}

fn yes_no_string(b: bool) -> (r: String)
    ensures
        r@ == yes_no(b),
{
    if b {
        String::from_str("Yes")
    } else {
        String::from_str("No")
    }
}

fn heading_line(h: &str) -> (r: DetailLine)
    ensures
        r@ == heading(h@),
{
    DetailLine::Heading(String::from_str(h))
}

fn text_line(label: &str, value: String) -> (r: DetailLine)
    ensures
        r@ == text_row(label@, value@),
{
    DetailLine::Row(String::from_str(label), DetailValue::Text(value))
}

fn time_line(label: &str, t: Option<FileTime>) -> (r: DetailLine)
    ensures
        r@ == time_row(label@, t),
{
    match t {
        Some(t) => DetailLine::Row(String::from_str(label), DetailValue::Time(t)),
        None => {
            let mut dash: Vec<char> = Vec::new();
            dash.push('-');
            assert(dash@ =~= seq!['-']);
            text_line(label, string_from_chars(&dash))
        },
    }
}

/// Appends a line.
fn push_line(lines: &mut Vec<DetailLine>, line: DetailLine)
    ensures
        line_views(final(lines)@) == line_views(old(lines)@).push(line@),
{
    let ghost before = lines@;
    lines.push(line);
    assert(line_views(lines@) =~= line_views(before).push(line@));
}

/// Appends a line for an optional text.
fn push_optional(lines: &mut Vec<DetailLine>, label: &str, value: &Option<String>)
    ensures
        line_views(final(lines)@) == line_views(old(lines)@) + optional_row(label@, *value),
{
    match value {
        Some(v) => {
            push_line(lines, text_line(label, v.clone()));
            assert(line_views(lines@) =~= line_views(old(lines)@) + optional_row(label@, *value));
        },
        None => {
            assert(line_views(lines@) =~= line_views(old(lines)@) + optional_row(label@, *value));
        },
    }
}

fn push_process_lines(lines: &mut Vec<DetailLine>, info: &ProcessInfo)
    ensures
        line_views(final(lines)@) == line_views(old(lines)@) + process_lines(*info),
{
    push_line(lines, heading_line("Process Information"));
    push_line(lines, text_line("Path", info.path.clone()));
    push_optional(lines, "Command Line", &info.command_line);
    if let Some(parent) = info.parent_pid {
        push_line(lines, text_line("Parent PID", string_from_chars(&dec_chars(parent))));
    }
    if let Some(t) = info.creation_time {
        push_line(lines, DetailLine::Row(String::from_str("Created"), DetailValue::Time(t)));
    }
    assert(line_views(lines@) =~= line_views(old(lines)@) + process_lines(*info));
}

fn push_hash_lines(lines: &mut Vec<DetailLine>, md5: &Option<String>)
    ensures
        line_views(final(lines)@) == line_views(old(lines)@) + hash_lines(*md5),
{
    if let Some(h) = md5 {
        push_line(lines, heading_line("Hash Information"));
        push_line(lines, text_line("MD5", h.clone()));
    }
    assert(line_views(lines@) =~= line_views(old(lines)@) + hash_lines(*md5));
}

fn push_signature_lines(lines: &mut Vec<DetailLine>, m: &Option<SignatureMatch>)
    ensures
        line_views(final(lines)@) == line_views(old(lines)@) + signature_lines(*m),
{
    if let Some(m) = m {
        push_line(lines, heading_line("Signature Match"));
        push_line(lines, text_line("Hash", m.hash.clone()));
        push_line(lines, text_line("Score", int_string(m.verdict_score)));
        push_line(lines, text_line("Metadata", m.metadata.clone()));
    }
    assert(line_views(lines@) =~= line_views(old(lines)@) + signature_lines(*m));
}

fn push_authenticode_lines(lines: &mut Vec<DetailLine>, a: &Option<AuthenticodeInfo>)
    ensures
        line_views(final(lines)@) == line_views(old(lines)@) + authenticode_lines(*a),
{
    if let Some(a) = a {
        push_line(lines, heading_line("Authenticode Information"));
        push_line(lines, text_line("Signed", yes_no_string(a.is_signed)));
        push_line(lines, text_line("Trusted", yes_no_string(a.is_trusted)));
        push_line(lines, text_line("Revoked", yes_no_string(a.is_revoked)));
        push_optional(lines, "Signer", &a.signer);
        push_line(lines, text_line("Score Modifier", int_string(a.score_modifier)));
    }
    assert(line_views(lines@) =~= line_views(old(lines)@) + authenticode_lines(*a));
}

fn push_heuristic_lines(lines: &mut Vec<DetailLine>, h: &Option<HeuristicResults>)
    ensures
        line_views(final(lines)@) == line_views(old(lines)@) + heuristic_lines(*h),
{
    if let Some(h) = h {
        push_line(lines, heading_line("Heuristic Analysis"));
        push_line(lines, text_line("Packed", yes_no_string(h.is_packed)));
        push_optional(lines, "Packer", &h.packer_name);
        push_line(lines, text_line("RWX Sections", yes_no_string(h.has_rwx_sections)));
        push_line(lines, text_line("High Entropy", yes_no_string(h.high_entropy)));
        push_optional(lines, "ImpHash", &h.imphash);
        push_line(lines, text_line("Score Modifier", int_string(h.score_modifier)));
    }
    assert(line_views(lines@) =~= line_views(old(lines)@) + heuristic_lines(*h));
}

fn push_ml_lines(lines: &mut Vec<DetailLine>, m: &Option<MlPrediction>)
    ensures
        line_views(final(lines)@) == line_views(old(lines)@) + ml_lines(*m),
{
    if let Some(m) = m {
        push_line(lines, heading_line("ML Prediction"));
        push_line(
            lines,
            DetailLine::Row(
                String::from_str("Malicious Probability"),
                DetailValue::Probability(m.probability_bits),
            ),
        );
        push_line(lines, text_line("Score Modifier", int_string(m.score_modifier)));
    }
    assert(line_views(lines@) =~= line_views(old(lines)@) + ml_lines(*m));
}

/// The detail lines of an expanded detection.
pub fn detection_details(info: &ProcessInfo, d: &DetectionDetails) -> (r: Vec<DetailLine>)
    ensures
        line_views(r@) == detection_lines(*info, *d),
{
    let mut lines: Vec<DetailLine> = Vec::new();
    assert(line_views(lines@) =~= seq![]);
    push_process_lines(&mut lines, info);
    push_hash_lines(&mut lines, &d.md5_hash);
    push_signature_lines(&mut lines, &d.signature_match);
    push_authenticode_lines(&mut lines, &d.authenticode);
    push_heuristic_lines(&mut lines, &d.heuristics);
    push_ml_lines(&mut lines, &d.ml_prediction);
    assert(line_views(lines@) =~= detection_lines(*info, *d));
    lines
}

/// The detail lines of an expanded file context.
pub fn file_context_details(c: &FileContextSnapshot) -> (r: Vec<DetailLine>)
    ensures
        line_views(r@) == file_context_lines(*c),
{
    let mut lines: Vec<DetailLine> = Vec::new();
    assert(line_views(lines@) =~= seq![]);
    push_line(&mut lines, heading_line("File Context"));
    push_line(&mut lines, text_line("Cache Key", format_key(&c.key)));
    push_line(&mut lines, text_line("Path", display_path(c)));
    push_line(&mut lines, text_line("File Index", format_optional_u64(c.file_index)));
    push_line(&mut lines, text_line("Flags", format_flags(c.matching_flags.as_slice())));
    push_optional(&mut lines, "Last Writer", &c.last_write_process);
    push_line(&mut lines, time_line("Last Write", c.last_write_time));
    push_line(&mut lines, time_line("Last Rename", c.last_rename_time));
    push_optional(&mut lines, "Original Name", &c.original_name);
    let ghost before_scan = line_views(lines@);
    if let Some(s) = &c.last_scan_summary {
        push_line(&mut lines, heading_line("Latest Static Scan"));
        push_line(&mut lines, text_line("Verdict", String::from_str(verdict_label(s.verdict))));
        push_line(&mut lines, text_line("Threat Score", int_string(s.threat_score)));
        push_line(&mut lines, text_line("File Size", string_from_chars(&dec_chars(s.file_size))));
        push_line(&mut lines, DetailLine::Row(String::from_str("Modified"), DetailValue::Time(s.mod_time)));
        push_line(&mut lines, text_line("Scan File Index", format_optional_u64(s.file_index)));
    }
    assert(line_views(lines@) =~= file_context_lines(*c));
    lines
}

/// Lower-cases a text and returns its characters.
fn lower_chars(s: &str) -> (r: Vec<char>)
    ensures
        r@ == str_lowercase(s@),
{
    chars_of(lowercase(s).as_str())
}

/// Whether a detection's row is shown under `filter`.
pub fn detection_matches_filter(info: &ProcessInfo, filter: &str) -> (r: bool)
    ensures
        r == detection_matches(info.name@, info.pid, filter@),
{
    if filter.is_empty() {
        return true;
    }
    let needle = lower_chars(filter);
    let name = lower_chars(info.name.as_str());
    if crate::client_view::text_contains(&name, &needle) {
        return true;
    }
    let pid = dec_chars(info.pid);
    crate::client_view::text_contains(&pid, &needle)
}

/// The process ID column of a detection's row.
pub fn pid_column(pid: u64) -> (r: String)
    ensures
        r@ == "PID: "@ + dec_digits(pid as nat),
{
    let mut out = chars_of("PID: ");
    let mut digits = dec_chars(pid);
    out.append(&mut digits);
    string_from_chars(&out)
}

/// The score column of a detection's row.
pub fn score_column(score: i32) -> (r: String)
    ensures
        r@ == "Score: "@ + int_text(score as int),
{
    let mut out = chars_of("Score: ");
    let mut digits = int_chars(score);
    out.append(&mut digits);
    string_from_chars(&out)
}

/// Which detections a filter selects.
pub open spec fn detection_marks(infos: Seq<ProcessInfo>, filter: Seq<char>) -> Seq<bool> {
    Seq::new(infos.len(), |i: int| detection_matches(infos[i].name@, infos[i].pid, filter))
}

/// What the detection feed shows: the detections that match the filter, or
/// a message when none does.
pub fn detection_listing(infos: &[ProcessInfo], filter: &str) -> (r: ListingContent)
    ensures
        none_marked(detection_marks(infos@, filter@)) ==> (r matches ListingContent::Message(m) && m@
            == if infos@.len() == 0 {
            "No detections yet. Waiting for events from agent..."@
        } else {
            "No detections match the filter."@
        }),
        !none_marked(detection_marks(infos@, filter@)) ==> (r matches ListingContent::Rows(rows)
            && selects(rows@, detection_marks(infos@, filter@))),
{
    let ghost marks = detection_marks(infos@, filter@);
    let mut pick: Vec<bool> = Vec::new();
    let mut any = false;
    let mut i: usize = 0;
    while i < infos.len()
        invariant
            0 <= i <= infos@.len(),
            marks == detection_marks(infos@, filter@),
            pick@ == marks.take(i as int),
            any == exists|k: int| 0 <= k < i && #[trigger] marks[k],
        decreases infos@.len() - i,
    {
        let m = detection_matches_filter(&infos[i], filter);
        pick.push(m);
        proof {
            assert(pick@ =~= marks.take(i + 1));
            assert(marks[i as int] == m);
        }
        any = any || m;
        i = i + 1;
    }
    proof {
        assert(pick@ =~= marks);
    }
    if !any {
        if infos.len() == 0 {
            return ListingContent::Message(
                String::from_str("No detections yet. Waiting for events from agent..."),
            );
        }
        return ListingContent::Message(String::from_str("No detections match the filter."));
    }
    ListingContent::Rows(marked_rows(&pick))
}

} // verus!
