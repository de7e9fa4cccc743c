//! What the client shows: the header's texts, and of cached file contexts
//! the labels, keys, paths, the filter that selects the rows to show and
//! what stands in place of an empty listing.

use vstd::prelude::*;

use crate::gui::ViewMode;
use crate::snapshot::{
    FileContextKeySnapshot, FileContextSnapshot, FileFlagSnapshot, FileScanSummarySnapshot,
    FileVerdictSnapshot,
};
use crate::text::{chars_of, dec_chars, dec_digits, hex_chars, hex_digits, lowercase, str_lowercase, string_from_chars};
use crate::theme::{theme_name, AppTheme};

verus! {

/// The label of a file flag.
pub open spec fn flag_text(flag: FileFlagSnapshot) -> Seq<char> {
    match flag {
        FileFlagSnapshot::FileWriteSuccess => "FileWriteSuccess"@,
        FileFlagSnapshot::WhiteListed => "WhiteListed"@,
        FileFlagSnapshot::BlackListed => "BlackListed"@,
        FileFlagSnapshot::StaticScanMalicious => "StaticScanMalicious"@,
        FileFlagSnapshot::StaticScanSuspicious => "StaticScanSuspicious"@,
        FileFlagSnapshot::StaticScanBeneign => "StaticScanBeneign"@,
        FileFlagSnapshot::InAutoStartLocation => "InAutoStartLocation"@,
        FileFlagSnapshot::InTempLocation => "InTempLocation"@,
        FileFlagSnapshot::RenamedToExecutable => "RenamedToExecutable"@,
        FileFlagSnapshot::FileCreateSuccess => "FileCreated"@,
    }
}

/// The label of a file flag.
pub fn flag_label(flag: FileFlagSnapshot) -> (r: &'static str)
    ensures
        r@ == flag_text(flag),
{
    match flag {
        FileFlagSnapshot::FileWriteSuccess => "FileWriteSuccess",
        FileFlagSnapshot::WhiteListed => "WhiteListed",
        FileFlagSnapshot::BlackListed => "BlackListed",
        FileFlagSnapshot::StaticScanMalicious => "StaticScanMalicious",
        FileFlagSnapshot::StaticScanSuspicious => "StaticScanSuspicious",
        FileFlagSnapshot::StaticScanBeneign => "StaticScanBeneign",
        FileFlagSnapshot::InAutoStartLocation => "InAutoStartLocation",
        FileFlagSnapshot::InTempLocation => "InTempLocation",
        FileFlagSnapshot::RenamedToExecutable => "RenamedToExecutable",
        FileFlagSnapshot::FileCreateSuccess => "FileCreated",
    }
}

/// The label of a scan verdict.
pub open spec fn verdict_text(verdict: FileVerdictSnapshot) -> Seq<char> {
    match verdict {
        FileVerdictSnapshot::Benign => "Benign"@,
        FileVerdictSnapshot::Suspicious => "Suspicious"@,
        FileVerdictSnapshot::Malicious => "Malicious"@,
    }
}

/// The label of a scan verdict.
pub fn verdict_label(verdict: FileVerdictSnapshot) -> (r: &'static str)
    ensures
        r@ == verdict_text(verdict),
{
    match verdict {
        FileVerdictSnapshot::Benign => "Benign",
        FileVerdictSnapshot::Suspicious => "Suspicious",
        FileVerdictSnapshot::Malicious => "Malicious",
    }
}

/// `0x` and the lower-case hexadecimal digits of `n`.
pub open spec fn hex_text(n: u64) -> Seq<char> {
    seq!['0', 'x'] + hex_digits(n as nat)
}

/// An optional number in hexadecimal, or `-` when absent.
pub open spec fn optional_u64_text(value: Option<u64>) -> Seq<char> {
    match value {
        Some(n) => hex_text(n),
        None => seq!['-'],
    }
}

/// `0x` and the hexadecimal digits of `n`.
fn hex_text_chars(n: u64) -> (r: Vec<char>)
    ensures
        r@ == hex_text(n),
{
    let mut out: Vec<char> = Vec::new();
    out.push('0');
    out.push('x');
    let mut digits = hex_chars(n);
    out.append(&mut digits);
    assert(out@ =~= hex_text(n));
    out
}

/// Shows an optional number in hexadecimal, or `-` when absent.
pub fn format_optional_u64(value: Option<u64>) -> (r: String)
    ensures
        r@ == optional_u64_text(value),
{
    match value {
        Some(n) => string_from_chars(&hex_text_chars(n)),
        None => {
            let mut v: Vec<char> = Vec::new();
            v.push('-');
            assert(v@ =~= seq!['-']);
            string_from_chars(&v)
        },
    }
}

/// How a context key is shown: `file-index:` and the index in hexadecimal,
/// or the path.
pub open spec fn key_text(key: FileContextKeySnapshot) -> Seq<char> {
    match key {
        FileContextKeySnapshot::FileIndex(i) => "file-index:"@ + hex_text(i),
        FileContextKeySnapshot::Path(p) => p@,
    }
}

/// Shows a context key.
pub fn format_key(key: &FileContextKeySnapshot) -> (r: String)
    ensures
        r@ == key_text(*key),
{
    match key {
        FileContextKeySnapshot::FileIndex(i) => {
            let mut out = chars_of("file-index:");
            let mut digits = hex_text_chars(*i);
            out.append(&mut digits);
            string_from_chars(&out)
        },
        FileContextKeySnapshot::Path(p) => p.clone(),
    }
}

/// The key under which a context's row is remembered as expanded.
pub open spec fn expanded_key_text(context: FileContextSnapshot) -> Seq<char> {
    "file-context:"@ + key_text(context.key)
}

/// The key under which a context's row is remembered as expanded.
pub fn expanded_key(context: &FileContextSnapshot) -> (r: String)
    ensures
        r@ == expanded_key_text(*context),
{
    let mut out = chars_of("file-context:");
    let mut key = chars_of(format_key(&context.key).as_str());
    out.append(&mut key);
    string_from_chars(&out)
}

/// The path shown for a context: its normalized path, or its key.
pub open spec fn display_path_text(context: FileContextSnapshot) -> Seq<char> {
    match context.normalized_file_path {
        Some(p) => p@,
        None => key_text(context.key),
    }
}

/// The path shown for a context.
pub fn display_path(context: &FileContextSnapshot) -> (r: String)
    ensures
        r@ == display_path_text(*context),
{
    match &context.normalized_file_path {
        Some(p) => p.clone(),
        None => format_key(&context.key),
    }
}

/// The flag labels joined by `, `.
pub open spec fn joined_flags(flags: Seq<FileFlagSnapshot>) -> Seq<char>
    decreases flags.len(),
{
    if flags.len() == 0 {
        seq![]
    } else if flags.len() == 1 {
        flag_text(flags[0])
    } else {
        joined_flags(flags.drop_last()) + ", "@ + flag_text(flags.last())
    }
}

/// How a list of flags is shown: their labels joined by `, `, or `-` when
/// there are none.
pub open spec fn flags_text(flags: Seq<FileFlagSnapshot>) -> Seq<char> {
    if flags.len() == 0 {
        seq!['-']
    } else {
        joined_flags(flags)
    }
}

/// Shows a list of flags.
pub fn format_flags(flags: &[FileFlagSnapshot]) -> (r: String)
    ensures
        r@ == flags_text(flags@),
{
    let mut out: Vec<char> = Vec::new();
    if flags.len() == 0 {
        out.push('-');
        assert(out@ =~= seq!['-']);
        return string_from_chars(&out);
    }
    let mut i: usize = 0;
    while i < flags.len()
        invariant
            0 <= i <= flags@.len(),
            out@ == joined_flags(flags@.subrange(0, i as int)),
        decreases flags@.len() - i,
    {
        let ghost prev = flags@.subrange(0, i as int);
        let ghost next = flags@.subrange(0, i + 1);
        assert(next.drop_last() =~= prev);
        if i > 0 {
            let mut sep = chars_of(", ");
            out.append(&mut sep);
        } else {
            assert(out@ =~= Seq::<char>::empty());
        }
        let mut label = chars_of(flag_label(flags[i]));
        out.append(&mut label);
        assert(out@ =~= joined_flags(next));
        i = i + 1;
    }
    assert(flags@.subrange(0, flags@.len() as int) =~= flags@);
    string_from_chars(&out)
}

/// Whether `needle` occurs in `hay`.
pub open spec fn contains_text(hay: Seq<char>, needle: Seq<char>) -> bool {
    exists|i: int| 0 <= i <= hay.len() - needle.len() && #[trigger] hay.subrange(i, i + needle.len()) == needle
}

/// Whether `needle` occurs in `hay`.
pub fn text_contains(hay: &Vec<char>, needle: &Vec<char>) -> (r: bool)
    ensures
        r == contains_text(hay@, needle@),
{
    let n = hay.len();
    let m = needle.len();
    if m > n {
        return false;
    }
    let mut i: usize = 0;
    while i <= n - m
        invariant
            m <= n,
            n == hay@.len(),
            m == needle@.len(),
            0 <= i <= n - m + 1,
            forall|k: int| 0 <= k < i ==> #[trigger] hay@.subrange(k, k + m) != needle@,
        decreases n - m + 1 - i,
    {
        let mut j: usize = 0;
        let mut same = true;
        while j < m
            invariant
                0 <= j <= m,
                i + m <= n,
                n == hay@.len(),
                m == needle@.len(),
                same == (forall|t: int| 0 <= t < j ==> hay@[i + t] == needle@[t]),
            decreases m - j,
        {
            if hay[i + j] != needle[j] {
                same = false;
            }
            j = j + 1;
        }
        if same {
            assert(hay@.subrange(i as int, i + m) =~= needle@);
            return true;
        }
        proof {
            let k = choose|t: int| 0 <= t < m && hay@[i + t] != needle@[t];
            assert(hay@.subrange(i as int, i + m)[k] != needle@[k]);
        }
        i = i + 1;
    }
    false
}

/// The lower-cased texts a filter is matched against: the shown path, the
/// key, the last writer, the verdict and the flags of a context.
pub open spec fn searchable_texts(context: FileContextSnapshot) -> Seq<Seq<char>> {
    seq![
        str_lowercase(display_path_text(context)),
        str_lowercase(key_text(context.key)),
        str_lowercase(match context.last_write_process {
            Some(w) => w@,
            None => ""@,
        }),
        match context.last_scan_summary {
            Some(s) => str_lowercase(verdict_text(s.verdict)),
            None => seq![],
        },
        str_lowercase(flags_text(context.matching_flags@)),
    ]
}

/// Whether a context's row is shown under a filter: always for an empty
/// filter, else when its lower-cased form occurs in one of the context's
/// lower-cased texts.
pub open spec fn context_matches(context: FileContextSnapshot, filter: Seq<char>) -> bool {
    filter.len() == 0 || exists|i: int| 0 <= i < 5 && contains_text(#[trigger] searchable_texts(context)[i], str_lowercase(filter))
}

/// Lower-cases a text and returns its characters.
fn lower_chars(s: &str) -> (r: Vec<char>)
    ensures
        r@ == str_lowercase(s@),
{
    chars_of(lowercase(s).as_str())
}

/// Whether a context's row is shown under `filter`.
pub fn file_context_matches(context: &FileContextSnapshot, filter: &str) -> (r: bool)
    ensures
        r == context_matches(*context, filter@),
{
    if filter.is_empty() {
        return true;
    }
    let needle = lower_chars(filter);
    let path = lower_chars(display_path(context).as_str());
    let key = lower_chars(format_key(&context.key).as_str());
    let writer = match &context.last_write_process {
        Some(w) => lower_chars(w.as_str()),
        None => lower_chars(""),
    };
    let verdict: Vec<char> = match &context.last_scan_summary {
        Some(s) => lower_chars(verdict_label(s.verdict)),
        None => Vec::new(),
    };
    let flags = lower_chars(format_flags(context.matching_flags.as_slice()).as_str());
    let ghost t = searchable_texts(*context);
    assert(path@ == t[0]);
    assert(writer@ == t[2]);
    assert(key@ == t[1]);
    assert(verdict@ == t[3]);
    assert(flags@ == t[4]);
    let found = text_contains(&path, &needle) || text_contains(&key, &needle) || text_contains(&writer, &needle)
        || text_contains(&verdict, &needle) || text_contains(&flags, &needle);
    proof {
        if found {
            if contains_text(path@, needle@) {
                assert(contains_text(t[0], needle@));
            } else if contains_text(key@, needle@) {
                assert(contains_text(t[1], needle@));
            } else if contains_text(writer@, needle@) {
                assert(contains_text(t[2], needle@));
            } else if contains_text(verdict@, needle@) {
                assert(contains_text(t[3], needle@));
            } else {
                assert(contains_text(t[4], needle@));
            }
        } else {
            assert forall|i: int| 0 <= i < 5 implies !contains_text(
                #[trigger] t[i],
                needle@,
            ) by {
                if i == 0 {
                } else if i == 1 {
                } else if i == 2 {
                } else if i == 3 {
                } else {
                }
            }
        }
    }
    found
}

/// The connection status in the header.
pub open spec fn status_line(connected: bool, detections: usize, files: usize) -> Seq<char> {
    if connected {
        "Connected | "@ + dec_digits(detections as nat) + " detections | "@ + dec_digits(files as nat)
            + " files"@
    } else {
        "Disconnected - waiting for agent..."@
    }
}

/// The connection status in the header.
pub fn status_text(connected: bool, detection_count: usize, file_context_count: usize) -> (r: String)
    ensures
        r@ == status_line(connected, detection_count, file_context_count),
{
    if !connected {
        return String::from_str("Disconnected - waiting for agent...");
    }
    let mut out = chars_of("Connected | ");
    let mut n = dec_chars(detection_count as u64);
    out.append(&mut n);
    let mut mid = chars_of(" detections | ");
    out.append(&mut mid);
    let mut m = dec_chars(file_context_count as u64);
    out.append(&mut m);
    let mut tail = chars_of(" files");
    out.append(&mut tail);
    assert(out@ =~= status_line(connected, detection_count, file_context_count));
    string_from_chars(&out)
}

/// The hint in the filter box, by what is being listed.
pub open spec fn filter_hint(mode: ViewMode) -> Seq<char> {
    match mode {
        ViewMode::Detections => "Filter by process name or PID..."@,
        ViewMode::FileContexts => "Filter by path, file index, process, or verdict..."@,
    }
}

/// The hint in the filter box.
pub fn filter_placeholder(mode: ViewMode) -> (r: &'static str)
    ensures
        r@ == filter_hint(mode),
{
    match mode {
        ViewMode::Detections => "Filter by process name or PID...",
        ViewMode::FileContexts => "Filter by path, file index, process, or verdict...",
    }
}

/// The label of the refresh button.
pub fn refresh_label(loading: bool) -> (r: &'static str)
    ensures
        r@ == if loading {
            "Refreshing"@
        } else {
            "Refresh"@
        },
{
    if loading {
        "Refreshing"
    } else {
        "Refresh"
    }
}

/// The label of the pause button: live, or paused with the number of
/// detections held back when there are any.
pub open spec fn pause_text(paused: bool, pending: usize) -> Seq<char> {
    if !paused {
        " Live"@
    } else if pending > 0 {
        " Paused ("@ + dec_digits(pending as nat) + ")"@
    } else {
        " Paused"@
    }
}

/// The label of the pause button.
pub fn pause_label(paused: bool, pending_count: usize) -> (r: String)
    ensures
        r@ == pause_text(paused, pending_count),
{
    if !paused {
        return String::from_str(" Live");
    }
    if pending_count == 0 {
        return String::from_str(" Paused");
    }
    let mut out = chars_of(" Paused (");
    let mut n = dec_chars(pending_count as u64);
    out.append(&mut n);
    out.push(')');
    proof {
        reveal_strlit(")");
    }
    assert(out@ =~= pause_text(paused, pending_count));
    string_from_chars(&out)
}

/// The label of the theme button.
pub fn theme_label(theme: AppTheme) -> (r: String)
    ensures
        r@ == "Theme: "@ + theme_name(theme),
{
    let mut out = chars_of("Theme: ");
    let mut name = chars_of(theme.name());
    out.append(&mut name);
    string_from_chars(&out)
}

/// The verdict column of a context's row.
pub fn row_verdict_label(summary: &Option<FileScanSummarySnapshot>) -> (r: &'static str)
    ensures
        r@ == match summary {
            Some(s) => verdict_text(s.verdict),
            None => "Unscanned"@,
        },
{
    match summary {
        Some(s) => verdict_label(s.verdict),
        None => "Unscanned",
    }
}

/// What a listing shows: a message in place of the rows, or the positions
/// of the rows to show, in order.
#[derive(Debug, PartialEq)]
pub enum ListingContent {
    Message(String),
    Rows(Vec<usize>),
}

/// Whether `rows` are, in increasing order, exactly the positions that
/// `marks` marks.
pub open spec fn selects(rows: Seq<usize>, marks: Seq<bool>) -> bool {
    &&& forall|j: int| 0 <= j < rows.len() ==> (#[trigger] rows[j] as int) < marks.len() && marks[rows[j] as int]
    &&& forall|i: int| 0 <= i < marks.len() && #[trigger] marks[i] ==> rows.contains(i as usize)
    &&& forall|a: int, b: int| 0 <= a < b < rows.len() ==> rows[a] < rows[b]
}

/// Whether nothing is marked.
pub open spec fn none_marked(marks: Seq<bool>) -> bool {
    forall|i: int| 0 <= i < marks.len() ==> !#[trigger] marks[i]
}

/// The positions, in order, of the marked items.
pub fn marked_rows(marks: &Vec<bool>) -> (r: Vec<usize>)
    ensures
        selects(r@, marks@),
{
    let mut rows: Vec<usize> = Vec::new();
    let mut i: usize = 0;
    while i < marks.len()
        invariant
            0 <= i <= marks@.len(),
            forall|j: int| 0 <= j < rows@.len() ==> (#[trigger] rows@[j] as int) < i && marks@[rows@[j] as int],
            forall|k: int| 0 <= k < i && #[trigger] marks@[k] ==> rows@.contains(k as usize),
            forall|a: int, b: int| 0 <= a < b < rows@.len() ==> rows@[a] < rows@[b],
        decreases marks@.len() - i,
    {
        if marks[i] {
            let ghost before = rows@;
            rows.push(i);
            proof {
                assert(rows@[before.len() as int] == i);
                assert forall|k: int| 0 <= k < i + 1 && #[trigger] marks@[k] implies rows@.contains(k as usize) by {
                    if k < i {
                        let w = choose|w: int| 0 <= w < before.len() && before[w] == k as usize;
                        assert(rows@[w] == k as usize);
                    }
                }
            }
        }
        i = i + 1;
    }
    rows
}

/// Which contexts a filter selects.
pub open spec fn context_marks(contexts: Seq<FileContextSnapshot>, filter: Seq<char>) -> Seq<bool> {
    Seq::new(contexts.len(), |i: int| context_matches(contexts[i], filter))
}

/// The message shown in place of an empty file-context listing.
pub open spec fn empty_listing_text(total: nat, status: Option<Seq<char>>) -> Seq<char> {
    if total == 0 {
        match status {
            Some(s) => s,
            None => "No file contexts cached yet."@,
        }
    } else {
        "No file contexts match the filter."@
    }
}

/// What the file-context listing shows: a refresh message while the first
/// listing loads, the rows that match the filter, or a message when none
/// does (the status of the last refresh when nothing is cached).
pub fn file_context_listing(
    contexts: &[FileContextSnapshot],
    filter: &str,
    loading: bool,
    status: Option<&str>,
) -> (r: ListingContent)
    ensures
        loading && contexts@.len() == 0 ==> (r matches ListingContent::Message(m) && m@
            == "Refreshing file context cache..."@),
        !(loading && contexts@.len() == 0) && none_marked(context_marks(contexts@, filter@)) ==> (r matches ListingContent::Message(
            m,
        ) && m@ == empty_listing_text(
            contexts@.len() as nat,
            match status {
                Some(s) => Some(s@),
                None => None,
            },
        )),
        !(loading && contexts@.len() == 0) && !none_marked(context_marks(contexts@, filter@)) ==> (r matches ListingContent::Rows(
            rows,
        ) && selects(rows@, context_marks(contexts@, filter@))),
{
    if loading && contexts.len() == 0 {
        return ListingContent::Message(String::from_str("Refreshing file context cache..."));
    }
    let ghost marks = context_marks(contexts@, filter@);
    let mut pick: Vec<bool> = Vec::new();
    let mut any = false;
    let mut i: usize = 0;
    while i < contexts.len()
        invariant
            0 <= i <= contexts@.len(),
            marks == context_marks(contexts@, filter@),
            pick@ == marks.take(i as int),
            any == exists|k: int| 0 <= k < i && #[trigger] marks[k],
        decreases contexts@.len() - i,
    {
        let m = file_context_matches(&contexts[i], filter);
        pick.push(m);
        proof {
            assert(pick@ =~= marks.take(i + 1));
            assert(marks[i as int] == m);
        }
        any = any || m;
        i = i + 1;
    }
    proof {
        assert(pick@ =~= marks);
    }
    if !any {
        let text = match status {
            Some(s) => {
                if contexts.len() == 0 {
                    String::from_str(s)
                } else {
                    String::from_str("No file contexts match the filter.")
                }
            },
            None => {
                if contexts.len() == 0 {
                    String::from_str("No file contexts cached yet.")
                } else {
                    String::from_str("No file contexts match the filter.")
                }
            },
        };
        return ListingContent::Message(text);
    }
    let rows = marked_rows(&pick);
    ListingContent::Rows(rows)
}

} // verus!
