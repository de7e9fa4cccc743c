//! Heuristic scoring of a PE image: packer signatures, high-entropy and
//! writable-executable sections, and the import table with its hash.

use vstd::prelude::*;
use vstd::utf8::encode_utf8;
use crate::pe::{goblin_pe_parse, parse_image, PeInfo, PeInfoView, PeImport, PeImportView, PeSection};
use crate::packers::{PackerSignatureEngine, SignatureView, scan_result};
use crate::text::{chars_of, dec_chars, dec_digits, hex_encode, hex_encoding, is_lower_hex, lemma_hex_encoding, lowercase, str_lowercase, string_from_chars};
use md5::Digest;

verus! {

/// Score added when a known packer also shows high entropy.
pub const HEUR_KNOWN_PACKER_SCORE: i32 = 30;

/// Score added once for any high-entropy section.
pub const HEUR_ENTROPY_SCORE: i32 = 25;

/// Score named for a writable and executable section.
pub const HEUR_RWX_SEC_SCORE: i32 = 40;

/// Score added for an import table with fewer than three entries.
pub const HEUR_HIDDEN_IMP_SCORE: i32 = 20;

/// The section characteristics that together mean readable, writable and
/// executable.
pub const RWX_MASK: u32 = 0xE000_0000;

/// What the heuristic stage found in an image.
#[derive(Debug, Clone)]
pub struct HeurReport {
    pub is_packed: bool,
    pub packer: Option<String>,
    pub has_rwx: bool,
    pub high_entropy: bool,
    pub imphash: String,
    pub score_mod: i32,
}

/// The view of a report.
pub struct HeurReportView {
    pub is_packed: bool,
    pub packer: Option<Seq<char>>,
    pub has_rwx: bool,
    pub high_entropy: bool,
    pub imphash: Seq<char>,
    pub score_mod: i32,
}

impl View for HeurReport {
    type V = HeurReportView;

    open spec fn view(&self) -> HeurReportView {
        HeurReportView {
            is_packed: self.is_packed,
            packer: match self.packer {
                Some(p) => Some(p@),
                None => None,
            },
            has_rwx: self.has_rwx,
            high_entropy: self.high_entropy,
            imphash: self.imphash@,
            score_mod: self.score_mod,
        }
    }
}

impl HeurReport {
    /// A report that found nothing.
    pub fn new() -> (r: HeurReport)
        ensures
            !r.is_packed,
            r.packer is None,
            !r.has_rwx,
            !r.high_entropy,
            r.imphash@ == Seq::<char>::empty(),
            r.score_mod == 0,
    {
        HeurReport {
            is_packed: false,
            packer: None,
            has_rwx: false,
            high_entropy: false,
            imphash: String::new(),
            score_mod: 0,
        }
    }
}

/// What `Md5::digest` returns for a byte string: its MD5 hash.
pub uninterp spec fn md5_digest(data: Seq<u8>) -> Seq<u8>;

/// `<md5::Md5 as Digest>::digest`: the 16-byte MD5 hash of `data`.
#[verifier::external_body]
fn md5_hash(data: &[u8]) -> (r: Vec<u8>)
    ensures
        r@ == md5_digest(data@),
        r@.len() == 16,
{
    md5::Md5::digest(data).to_vec()
}

/// Whether a section's raw data lies wholly inside a file of `len` bytes
/// and starts before its end.
pub open spec fn section_in_file(s: PeSection, len: nat) -> bool {
    s.pointer_to_raw_data < len && s.pointer_to_raw_data + s.size_of_raw_data <= len
}

/// Whether a section is readable, writable and executable.
pub open spec fn section_is_rwx(s: PeSection) -> bool {
    s.characteristics & RWX_MASK == RWX_MASK
}

/// The byte range of a section's raw data in a file of `len` bytes, when it
/// lies inside the file.
pub fn section_range(s: &PeSection, len: usize) -> (r: Option<(usize, usize)>)
    ensures
        match r {
            Some((a, b)) => section_in_file(*s, len as nat) && a == s.pointer_to_raw_data && b
                == s.pointer_to_raw_data + s.size_of_raw_data,
            None => !section_in_file(*s, len as nat),
        },
{
    let start = s.pointer_to_raw_data as u64;
    let end = start + s.size_of_raw_data as u64;
    let l = len as u64;
    if start < l && end <= l {
        Some((start as usize, end as usize))
    } else {
        None
    }
}

/// Whether a lower-cased module name ends in `.dll`, `.sys` or `.ocx`.
pub open spec fn has_module_ext(l: Seq<char>) -> bool {
    let n = l.len() as int;
    &&& n >= 4
    &&& l[n - 4] == '.'
    &&& {
        ||| (l[n - 3] == 'd' && l[n - 2] == 'l' && l[n - 1] == 'l')
        ||| (l[n - 3] == 's' && l[n - 2] == 'y' && l[n - 1] == 's')
        ||| (l[n - 3] == 'o' && l[n - 2] == 'c' && l[n - 1] == 'x')
    }
}

/// A module name without its `.dll`, `.sys` or `.ocx` extension.
pub open spec fn module_stem(l: Seq<char>) -> Seq<char> {
    if has_module_ext(l) {
        l.subrange(0, l.len() - 4)
    } else {
        l
    }
}

/// The function part of an import entry: its lower-cased name, or `ord`
/// and its ordinal when it has no name.
pub open spec fn import_function(i: PeImportView) -> Seq<char> {
    if i.name.len() > 0 {
        str_lowercase(i.name)
    } else {
        seq!['o', 'r', 'd'] + dec_digits(i.ordinal as nat)
    }
}

/// One entry of the import list: `module.function`, lower-cased, the module
/// without its extension.
pub open spec fn import_entry(i: PeImportView) -> Seq<char> {
    module_stem(str_lowercase(i.dll)) + seq!['.'] + import_function(i)
}

/// The import entries joined by commas.
pub open spec fn joined_imports(imports: Seq<PeImportView>) -> Seq<char>
    decreases imports.len(),
{
    if imports.len() == 0 {
        seq![]
    } else if imports.len() == 1 {
        import_entry(imports[0])
    } else {
        joined_imports(imports.drop_last()) + seq![','] + import_entry(imports.last())
    }
}

/// The import hash: the hexadecimal MD5 of the joined import list, or empty
/// when there are no imports.
pub open spec fn imphash_of(imports: Seq<PeImportView>) -> Seq<char> {
    if imports.len() == 0 {
        seq![]
    } else {
        hex_encoding(md5_digest(encode_utf8(joined_imports(imports))))
    }
}

/// Whether some section inside the file was found to have high entropy.
pub open spec fn any_high_entropy(sections: Seq<PeSection>, len: nat, high: Seq<bool>) -> bool {
    exists|i: int| 0 <= i < sections.len() && section_in_file(sections[i], len) && #[trigger] high[i]
}

/// Whether some section is readable, writable and executable.
pub open spec fn any_rwx(sections: Seq<PeSection>) -> bool {
    exists|i: int| 0 <= i < sections.len() && #[trigger] section_is_rwx(sections[i])
}

/// The packer that the signature engine names for an image; an image
/// without sections is not scanned.
pub open spec fn packer_of(sigs: Seq<SignatureView>, pe: PeInfoView, data: Seq<u8>) -> Option<
    Seq<char>,
> {
    if pe.sections.len() == 0 {
        None
    } else {
        scan_result(sigs, pe, data)
    }
}

/// The score that the heuristics add: entropy (more with a known packer)
/// and a thin import table (less with a known packer).
pub open spec fn heuristic_score(packed: bool, high_entropy: bool, n_imports: nat) -> int {
    (if high_entropy {
        HEUR_ENTROPY_SCORE + if packed {
            HEUR_KNOWN_PACKER_SCORE as int
        } else {
            0
        }
    } else {
        0
    }) + (if n_imports < 3 {
        if packed {
            HEUR_HIDDEN_IMP_SCORE - 10
        } else {
            HEUR_HIDDEN_IMP_SCORE as int
        }
    } else {
        0
    })
}

/// The report of the heuristic stage for an image, given which sections
/// were measured as high-entropy.
pub open spec fn heuristic_report(
    sigs: Seq<SignatureView>,
    pe: PeInfoView,
    data: Seq<u8>,
    high: Seq<bool>,
) -> HeurReportView {
    let packer = packer_of(sigs, pe, data);
    let high_entropy = any_high_entropy(pe.sections, data.len(), high);
    HeurReportView {
        is_packed: packer is Some,
        packer,
        has_rwx: any_rwx(pe.sections),
        high_entropy,
        imphash: imphash_of(pe.imports),
        score_mod: heuristic_score(packer is Some, high_entropy, pe.imports.len()) as i32,
    }
}

/// Drops a `.dll`, `.sys` or `.ocx` extension.
fn strip_module_ext(l: Vec<char>) -> (r: Vec<char>)
    ensures
        r@ == module_stem(l@),
{
    let n = l.len();
    if n < 4 {
        return l;
    }
    let dot = l[n - 4];
    let a = l[n - 3];
    let b = l[n - 2];
    let c = l[n - 1];
    let ext = dot == '.' && ((a == 'd' && b == 'l' && c == 'l') || (a == 's' && b == 'y' && c
        == 's') || (a == 'o' && b == 'c' && c == 'x'));
    if !ext {
        return l;
    }
    let mut out: Vec<char> = Vec::new();
    let mut i: usize = 0;
    while i < n - 4
        invariant
            n == l@.len(),
            n >= 4,
            0 <= i <= n - 4,
            out@ == l@.subrange(0, i as int),
        decreases n - 4 - i,
    {
        out.push(l[i]);
        assert(l@.subrange(0, i + 1) =~= l@.subrange(0, i as int).push(l@[i as int]));
        i = i + 1;
    }
    out
}

/// The characters of one import entry.
fn import_entry_chars(imp: &PeImport) -> (r: Vec<char>)
    ensures
        r@ == import_entry(imp@),
{
    let dll = lowercase(imp.dll.as_str());
    let mut out = strip_module_ext(chars_of(dll.as_str()));
    out.push('.');
    let name = chars_of(imp.name.as_str());
    let mut func = if name.len() > 0 {
        let lower = lowercase(imp.name.as_str());
        chars_of(lower.as_str())
    } else {
        let mut f: Vec<char> = Vec::new();
        f.push('o');
        f.push('r');
        f.push('d');
        let mut digits = dec_chars(imp.ordinal as u64);
        f.append(&mut digits);
        assert(f@ =~= seq!['o', 'r', 'd'] + dec_digits(imp.ordinal as nat));
        f
    };
    let ghost stem = out@;
    out.append(&mut func);
    assert(out@ =~= import_entry(imp@));
    out
}

/// The comma-joined import list of an image.
fn join_imports(imports: &Vec<PeImport>) -> (r: Vec<char>)
    ensures
        r@ == joined_imports(imports@.map_values(|i: PeImport| i@)),
{
    let ghost views = imports@.map_values(|i: PeImport| i@);
    let mut out: Vec<char> = Vec::new();
    let mut i: usize = 0;
    while i < imports.len()
        invariant
            0 <= i <= imports@.len(),
            views == imports@.map_values(|i: PeImport| i@),
            out@ == joined_imports(views.subrange(0, i as int)),
        decreases imports@.len() - i,
    {
        let mut entry = import_entry_chars(&imports[i]);
        let ghost prev = views.subrange(0, i as int);
        let ghost next = views.subrange(0, i + 1);
        assert(next.drop_last() =~= prev);
        assert(next.last() == imports@[i as int]@);
        if i > 0 {
            out.push(',');
        } else {
            assert(out@ =~= Seq::<char>::empty());
        }
        out.append(&mut entry);
        assert(out@ =~= joined_imports(next));
        i = i + 1;
    }
    assert(views.subrange(0, imports@.len() as int) =~= views);
    out
}

/// Scores a parsed PE image. `high_entropy_sections[i]` says whether the raw
/// data of section `i` was measured above the entropy threshold; it is read
/// only for sections that lie inside the file. A writable and executable
/// section is reported but adds nothing to the score.
pub fn analyze_pe(
    buffer: &[u8],
    pe: &PeInfo,
    sig_engine: &PackerSignatureEngine,
    high_entropy_sections: &[bool],
) -> (r: HeurReport)
    requires
        high_entropy_sections@.len() == pe.sections@.len(),
    ensures
        r@ == heuristic_report(sig_engine.signatures(), pe@, buffer@, high_entropy_sections@),
        r@.imphash.len() == 0 <==> pe@.imports.len() == 0,
        pe@.imports.len() > 0 ==> r@.imphash.len() == 32 && forall|i: int|
            0 <= i < 32 ==> is_lower_hex(#[trigger] r@.imphash[i]),
{
    let mut report = HeurReport::new();
    let n = pe.sections.len();
    if n > 0 {
        match sig_engine.scan(pe, buffer) {
            Some(name) => {
                report.packer = Some(name);
                report.is_packed = true;
            },
            None => {},
        }
    }
    let ghost packer = packer_of(sig_engine.signatures(), pe@, buffer@);
    assert(report.is_packed == packer is Some);
    let mut added_ent = false;
    let mut i: usize = 0;
    while i < n
        invariant
            0 <= i <= n,
            n == pe.sections@.len(),
            high_entropy_sections@.len() == n,
            packer == packer_of(sig_engine.signatures(), pe@, buffer@),
            report.is_packed == packer is Some,
            match report.packer {
                Some(p) => packer == Some(p@),
                None => packer is None,
            },
            report.imphash@ == Seq::<char>::empty(),
            added_ent == report.high_entropy,
            report.high_entropy == any_high_entropy(
                pe.sections@.subrange(0, i as int),
                buffer@.len(),
                high_entropy_sections@,
            ),
            report.has_rwx == any_rwx(pe.sections@.subrange(0, i as int)),
            report.score_mod == heuristic_score(report.is_packed, report.high_entropy, 3),
        decreases n - i,
    {
        let s = pe.sections[i];
        let ghost before = pe.sections@.subrange(0, i as int);
        let ghost after = pe.sections@.subrange(0, i + 1);
        assert(after =~= before.push(s));
        match section_range(&s, buffer.len()) {
            Some(_) => {
                if high_entropy_sections[i] {
                    report.high_entropy = true;
                    if !added_ent {
                        if report.is_packed {
                            report.score_mod = report.score_mod + HEUR_KNOWN_PACKER_SCORE;
                        }
                        report.score_mod = report.score_mod + HEUR_ENTROPY_SCORE;
                        added_ent = true;
                    }
                }
            },
            None => {},
        }
        if s.characteristics & RWX_MASK == RWX_MASK {
            report.has_rwx = true;
        }
        proof {
            let len = buffer@.len();
            let hv = high_entropy_sections@;
            if any_high_entropy(after, len, hv) && !any_high_entropy(before, len, hv) {
                let j = choose|j: int|
                    0 <= j < after.len() && section_in_file(after[j], len) && #[trigger] hv[j];
                assert(j == i);
            }
            if any_high_entropy(before, len, hv) {
                let j = choose|j: int|
                    0 <= j < before.len() && section_in_file(before[j], len) && #[trigger] hv[j];
                assert(after[j] == before[j]);
            }
            if section_in_file(s, len) && hv[i as int] {
                assert(after[i as int] == s);
            }
            if any_rwx(after) && !any_rwx(before) {
                let j = choose|j: int| 0 <= j < after.len() && #[trigger] section_is_rwx(after[j]);
                assert(j == i);
            }
            if any_rwx(before) {
                let j = choose|j: int| 0 <= j < before.len() && #[trigger] section_is_rwx(before[j]);
                assert(after[j] == before[j]);
            }
            if section_is_rwx(s) {
                assert(after[i as int] == s);
            }
        }
        i = i + 1;
    }
    assert(pe.sections@.subrange(0, n as int) =~= pe.sections@);
    let m = pe.imports.len();
    assert(pe@.imports.len() == m);
    if m < 3 {
        if report.is_packed {
            report.score_mod = report.score_mod + (HEUR_HIDDEN_IMP_SCORE - 10);
        } else {
            report.score_mod = report.score_mod + HEUR_HIDDEN_IMP_SCORE;
        }
    }
    if m > 0 {
        let joined = string_from_chars(&join_imports(&pe.imports));
        let digest = md5_hash(joined.as_str().as_bytes());
        report.imphash = hex_encode(digest.as_slice());
        proof {
            lemma_hex_encoding(digest@);
        }
    }
    report
}

/// The MD5 of a file's contents as lower-case hexadecimal, as the signature
/// database keys files.
pub fn calc_md5(contents: &[u8]) -> (r: String)
    ensures
        r@ == hex_encoding(md5_digest(contents@)),
{
    let digest = md5_hash(contents);
    hex_encode(digest.as_slice())
}

/// Whether `high[j]` is what `is_high` answered for the raw data of each
/// section `j` that lies inside a file of `len` bytes, and `false` for the
/// others.
pub open spec fn entropy_marks<F: Fn(usize, usize) -> bool>(
    is_high: F,
    sections: Seq<PeSection>,
    len: nat,
    high: Seq<bool>,
) -> bool {
    &&& high.len() == sections.len()
    &&& forall|j: int|
        0 <= j < sections.len() ==> if section_in_file(sections[j], len) {
            is_high.ensures(
                (
                    sections[j].pointer_to_raw_data as usize,
                    (sections[j].pointer_to_raw_data + sections[j].size_of_raw_data) as usize,
                ),
                #[trigger] high[j],
            )
        } else {
            !high[j]
        }
}

/// Parses an image and scores it; nothing when the bytes are not a PE
/// image. `is_high(start, end)` says whether the bytes `start..end` of a
/// section lying inside the file are above the entropy threshold.
pub fn analyze_image<F: Fn(usize, usize) -> bool>(
    buffer: &[u8],
    sig_engine: &PackerSignatureEngine,
    is_high: F,
) -> (r: Option<HeurReport>)
    requires
        forall|a: usize, b: usize| is_high.requires((a, b)),
    ensures
        r is Some <==> goblin_pe_parse(buffer@) is Some,
        r matches Some(rep) ==> exists|high: Seq<bool>|
            {
                &&& entropy_marks(is_high, goblin_pe_parse(buffer@)->0.sections, buffer@.len(), high)
                &&& rep@ == heuristic_report(
                    sig_engine.signatures(),
                    goblin_pe_parse(buffer@)->0,
                    buffer@,
                    high,
                )
            },
{
    let pe = match parse_image(buffer) {
        Some(pe) => pe,
        None => {
            return None;
        },
    };
    let mut high: Vec<bool> = Vec::new();
    let n = pe.sections.len();
    let mut i: usize = 0;
    while i < n
        invariant
            0 <= i <= n,
            n == pe.sections@.len(),
            high@.len() == i,
            forall|a: usize, b: usize| is_high.requires((a, b)),
            forall|j: int|
                0 <= j < i ==> if section_in_file(pe.sections@[j], buffer@.len()) {
                    is_high.ensures(
                        (
                            pe.sections@[j].pointer_to_raw_data as usize,
                            (pe.sections@[j].pointer_to_raw_data + pe.sections@[j].size_of_raw_data) as usize,
                        ),
                        #[trigger] high@[j],
                    )
                } else {
                    !high@[j]
                },
        decreases n - i,
    {
        let h = match section_range(&pe.sections[i], buffer.len()) {
            Some((start, end)) => is_high(start, end),
            None => false,
        };
        let ghost before = high@;
        high.push(h);
        proof {
            assert forall|j: int|
                0 <= j < i + 1 implies if section_in_file(pe.sections@[j], buffer@.len()) {
                is_high.ensures(
                    (
                        pe.sections@[j].pointer_to_raw_data as usize,
                        (pe.sections@[j].pointer_to_raw_data + pe.sections@[j].size_of_raw_data) as usize,
                    ),
                    #[trigger] high@[j],
                )
            } else {
                !high@[j]
            } by {
                if j < i {
                    assert(high@[j] == before[j]);
                }
            }
        }
        i = i + 1;
    }
    let report = analyze_pe(buffer, &pe, sig_engine, high.as_slice());
    proof {
        assert(pe@ == goblin_pe_parse(buffer@)->0);
        assert(entropy_marks(is_high, pe@.sections, buffer@.len(), high@));
        assert(report@ == heuristic_report(sig_engine.signatures(), pe@, buffer@, high@));
    }
    Some(report)
}

/// How the heuristics score an image. A high-entropy section adds 25, and
/// 30 more when a known packer or toolchain signature matched; without a
/// high-entropy section a signature match adds nothing. An import table of
/// fewer than three entries adds 20, or 10 for a packed image. Nothing else
/// (a writable and executable section included) adds to the score.
pub proof fn law_packer_score_comes_with_entropy(
    sigs: Seq<SignatureView>,
    pe: PeInfoView,
    data: Seq<u8>,
    high: Seq<bool>,
)
    ensures
        !heuristic_report(sigs, pe, data, high).high_entropy ==> heuristic_report(
            sigs,
            pe,
            data,
            high,
        ).score_mod == (if pe.imports.len() < 3 {
            if heuristic_report(sigs, pe, data, high).is_packed {
                10int
            } else {
                20int
            }
        } else {
            0int
        }),
        heuristic_report(sigs, pe, data, high).high_entropy ==> heuristic_report(
            sigs,
            pe,
            data,
            high,
        ).score_mod == (if heuristic_report(sigs, pe, data, high).is_packed {
            55int
        } else {
            25int
        }) + (if pe.imports.len() < 3 {
            if heuristic_report(sigs, pe, data, high).is_packed {
                10int
            } else {
                20int
            }
        } else {
            0int
        }),
{
}

/// A known packer adds nothing on its own: a packed image with no
/// high-entropy section and at least three imports scores nothing.
pub proof fn law_packer_score_needs_entropy(
    sigs: Seq<SignatureView>,
    pe: PeInfoView,
    data: Seq<u8>,
    high: Seq<bool>,
)
    requires
        heuristic_report(sigs, pe, data, high).is_packed,
        !heuristic_report(sigs, pe, data, high).high_entropy,
        pe.imports.len() >= 3,
    ensures
        heuristic_report(sigs, pe, data, high).score_mod == 0,
{
}

} // verus!
