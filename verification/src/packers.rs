//! Packer signatures: byte patterns with wildcards, loaded from a PEiD-style
//! signature database, matched at a PE image's entry point or at its start.

use vstd::prelude::*;

use crate::pe::{PeInfo, PeInfoView, PeSection};
use crate::text::{
    chars_of, find_char, first_index_of, is_ws, lowercase, split_whitespace_chars, split_ws,
    str_lowercase, string_from_chars, trim, trim_chars,
};

verus! {

/// A known packer signature.
#[derive(Debug, Clone)]
pub struct PackSignature {
    pub name: String,
    pub pattern: Vec<Option<u8>>,
    pub ep_only: bool,
}

/// The view of a signature.
pub struct SignatureView {
    pub name: Seq<char>,
    pub pattern: Seq<Option<u8>>,
    pub ep_only: bool,
}

impl View for PackSignature {
    type V = SignatureView;

    open spec fn view(&self) -> SignatureView {
        SignatureView { name: self.name@, pattern: self.pattern@, ep_only: self.ep_only }
    }
}

/// The value of a hexadecimal digit.
pub open spec fn hex_val(c: char) -> Option<nat> {
    if '0' <= c <= '9' {
        Some((c as u32 - '0' as u32) as nat)
    } else if 'a' <= c <= 'f' {
        Some((c as u32 - 'a' as u32 + 10) as nat)
    } else if 'A' <= c <= 'F' {
        Some((c as u32 - 'A' as u32 + 10) as nat)
    } else {
        None
    }
}

/// Whether every character is a hexadecimal digit.
pub open spec fn all_hex(d: Seq<char>) -> bool {
    forall|i: int| 0 <= i < d.len() ==> (#[trigger] hex_val(d[i])) is Some
}

/// The value of a string of hexadecimal digits.
pub open spec fn hex_value(d: Seq<char>) -> nat
    decreases d.len(),
{
    if d.len() == 0 {
        0
    } else {
        hex_value(d.drop_last()) * 16 + hex_val(d.last()).unwrap()
    }
}

/// `u8::from_str_radix(t, 16)`: an optional `+`, then at least one
/// hexadecimal digit, with a value below 256.
pub open spec fn hex_byte(t: Seq<char>) -> Option<u8> {
    let d = if t.len() > 0 && t[0] == '+' {
        t.drop_first()
    } else {
        t
    };
    if d.len() > 0 && all_hex(d) && hex_value(d) < 256 {
        Some(hex_value(d) as u8)
    } else {
        None
    }
}

/// A pattern token: `??` is a wildcard, anything else a hexadecimal byte;
/// a token that is not a hexadecimal byte is a wildcard too.
pub open spec fn pattern_token(t: Seq<char>) -> Option<u8> {
    if t == seq!['?', '?'] {
        None
    } else {
        hex_byte(t)
    }
}

/// The pattern that a signature line spells out.
pub open spec fn pattern_of(s: Seq<char>) -> Seq<Option<u8>> {
    split_ws(s).map_values(|t: Seq<char>| pattern_token(t))
}

fn hex_digit_value(c: char) -> (r: Option<u8>)
    ensures
        match hex_val(c) {
            Some(v) => r == Some(v as u8),
            None => r is None,
        },
{
    if '0' <= c && c <= '9' {
        Some(((c as u32) - ('0' as u32)) as u8)
    } else if 'a' <= c && c <= 'f' {
        Some(((c as u32) - ('a' as u32) + 10) as u8)
    } else if 'A' <= c && c <= 'F' {
        Some(((c as u32) - ('A' as u32) + 10) as u8)
    } else {
        None
    }
}

/// `u8::from_str_radix(t, 16).ok()`.
pub fn parse_hex_byte(t: &Vec<char>) -> (r: Option<u8>)
    ensures
        r == hex_byte(t@),
{
    let start: usize = if t.len() > 0 && t[0] == '+' {
        1
    } else {
        0
    };
    let ghost d = if t@.len() > 0 && t@[0] == '+' {
        t@.drop_first()
    } else {
        t@
    };
    assert(d =~= t@.subrange(start as int, t@.len() as int));
    if start >= t.len() {
        return None;
    }
    let mut value: u64 = 0;
    let mut i: usize = start;
    while i < t.len()
        invariant
            start <= i <= t@.len(),
            d == t@.subrange(start as int, t@.len() as int),
            d == (if t@.len() > 0 && t@[0] == '+' {
                t@.drop_first()
            } else {
                t@
            }),
            all_hex(t@.subrange(start as int, i as int)),
            value == if hex_value(t@.subrange(start as int, i as int)) < 256 {
                hex_value(t@.subrange(start as int, i as int))
            } else {
                256
            },
        decreases t@.len() - i,
    {
        let ghost prefix = t@.subrange(start as int, i + 1);
        assert(prefix.drop_last() =~= t@.subrange(start as int, i as int));
        assert(prefix.last() == t@[i as int]);
        match hex_digit_value(t[i]) {
            Some(v) => {
                let next = value * 16 + v as u64;
                value = if next < 256 {
                    next
                } else {
                    256
                };
                assert forall|j: int| 0 <= j < prefix.len() implies (#[trigger] hex_val(prefix[j])) is Some by {
                    if j < prefix.len() - 1 {
                        assert(prefix[j] == t@.subrange(start as int, i as int)[j]);
                    }
                }
            },
            None => {
                assert(d[i - start] == t@[i as int]);
                assert(hex_val(d[i - start]) is None);
                assert(!all_hex(d));
                return None;
            },
        }
        i = i + 1;
    }
    assert(t@.subrange(start as int, t@.len() as int) == d);
    if value < 256 {
        Some(value as u8)
    } else {
        None
    }
}

/// Parses one whitespace-separated pattern token.
pub fn parse_pattern_token(t: &Vec<char>) -> (r: Option<u8>)
    ensures
        r == pattern_token(t@),
{
    if t.len() == 2 && t[0] == '?' && t[1] == '?' {
        assert(t@ =~= seq!['?', '?']);
        None
    } else {
        assert(t@ != seq!['?', '?']) by {
            if t@ == seq!['?', '?'] {
                assert(t@.len() == 2 && t@[0] == '?' && t@[1] == '?');
            }
        }
        parse_hex_byte(t)
    }
}

/// Parses a signature such as `60 E8 ?? 00`: whitespace-separated hex bytes,
/// `??` for a wildcard.
pub fn parse_pattern(hex_str: &str) -> (r: Vec<Option<u8>>)
    ensures
        r@ == pattern_of(hex_str@),
{
    let chars = chars_of(hex_str);
    let tokens = split_whitespace_chars(&chars);
    let ghost tv = tokens@.map_values(|t: Vec<char>| t@);
    let mut out: Vec<Option<u8>> = Vec::new();
    let mut i: usize = 0;
    while i < tokens.len()
        invariant
            0 <= i <= tokens@.len(),
            tv == tokens@.map_values(|t: Vec<char>| t@),
            tv == split_ws(chars@),
            out@ == tv.subrange(0, i as int).map_values(|t: Seq<char>| pattern_token(t)),
        decreases tokens@.len() - i,
    {
        let b = parse_pattern_token(&tokens[i]);
        out.push(b);
        assert(tv.subrange(0, i + 1).map_values(|t: Seq<char>| pattern_token(t)) =~= tv.subrange(
            0,
            i as int,
        ).map_values(|t: Seq<char>| pattern_token(t)).push(pattern_token(tv[i as int])));
        i = i + 1;
    }
    assert(tv.subrange(0, tv.len() as int) =~= tv);
    out
}

/// Whether `pattern` matches `data` at offset `start`: every byte that is not
/// a wildcard equals the data byte at its place.
pub open spec fn matches_at(data: Seq<u8>, start: int, pattern: Seq<Option<u8>>) -> bool {
    &&& 0 <= start
    &&& start + pattern.len() <= data.len()
    &&& forall|i: int|
        0 <= i < pattern.len() ==> (#[trigger] pattern[i] matches Some(b) ==> data[start + i] == b)
}

/// Whether `pattern` matches the start of `data`.
pub fn match_pattern(data: &[u8], pattern: &[Option<u8>]) -> (r: bool)
    ensures
        r == matches_at(data@, 0, pattern@),
{
    if data.len() < pattern.len() {
        return false;
    }
    let mut i: usize = 0;
    while i < pattern.len()
        invariant
            0 <= i <= pattern@.len(),
            pattern@.len() <= data@.len(),
            forall|j: int|
                0 <= j < i ==> (#[trigger] pattern@[j] matches Some(b) ==> data@[0 + j] == b),
        decreases pattern@.len() - i,
    {
        match pattern[i] {
            Some(b) => {
                if data[i] != b {
                    assert(pattern@[i as int] matches Some(x) && data@[0 + i] != x);
                    return false;
                }
            },
            None => {},
        }
        i = i + 1;
    }
    true
}

/// The file offset of the entry point: the first section whose virtual range
/// holds the entry address maps it to raw data.
pub open spec fn entry_offset(entry: u64, sections: Seq<PeSection>) -> Option<nat>
    decreases sections.len(),
{
    if sections.len() == 0 {
        None
    } else {
        let s = sections[0];
        if s.virtual_address <= entry < s.virtual_address + s.virtual_size {
            Some((s.pointer_to_raw_data + (entry - s.virtual_address)) as nat)
        } else {
            entry_offset(entry, sections.drop_first())
        }
    }
}

/// The file offset of the entry point of a parsed image.
pub fn find_entry_point_offset(pe: &PeInfo) -> (r: Option<u64>)
    ensures
        match r {
            Some(x) => entry_offset(pe.entry, pe.sections@) == Some(x as nat),
            None => entry_offset(pe.entry, pe.sections@) is None,
        },
{
    let entry = pe.entry;
    let n = pe.sections.len();
    let mut i: usize = 0;
    assert(pe.sections@.subrange(0, n as int) =~= pe.sections@);
    while i < n
        invariant
            0 <= i <= n,
            n == pe.sections@.len(),
            entry == pe.entry,
            entry_offset(entry, pe.sections@) == entry_offset(
                entry,
                pe.sections@.subrange(i as int, n as int),
            ),
        decreases n - i,
    {
        let s = pe.sections[i];
        let ghost rest = pe.sections@.subrange(i as int, n as int);
        assert(rest[0] == s);
        let v_start = s.virtual_address as u64;
        let v_size = s.virtual_size as u64;
        if entry >= v_start && entry < v_start + v_size {
            let offset_in_section = entry - v_start;
            let raw_start = s.pointer_to_raw_data as u64;
            return Some(raw_start + offset_in_section);
        }
        assert(rest.drop_first() =~= pe.sections@.subrange(i + 1, n as int));
        i = i + 1;
    }
    None
}

/// Whether a signature hits a file: at the entry point for an entry-point
/// signature, else at the start of the file.
pub open spec fn signature_hits(sig: SignatureView, data: Seq<u8>, ep: int) -> bool {
    if sig.ep_only {
        matches_at(data, ep, sig.pattern)
    } else {
        matches_at(data, 0, sig.pattern)
    }
}

/// The index of the first signature that hits.
pub open spec fn first_hit(sigs: Seq<SignatureView>, data: Seq<u8>, ep: int) -> Option<int>
    decreases sigs.len(),
{
    if sigs.len() == 0 {
        None
    } else if signature_hits(sigs[0], data, ep) {
        Some(0)
    } else {
        match first_hit(sigs.drop_first(), data, ep) {
            Some(i) => Some(i + 1),
            None => None,
        }
    }
}

/// What a scan reports: the name of the first signature that hits, provided
/// the entry point lies inside the file.
pub open spec fn scan_result(sigs: Seq<SignatureView>, pe: PeInfoView, data: Seq<u8>) -> Option<
    Seq<char>,
> {
    match entry_offset(pe.entry, pe.sections) {
        None => None,
        Some(ep) => if ep >= data.len() {
            None
        } else {
            match first_hit(sigs, data, ep as int) {
                Some(i) => Some(sigs[i].name),
                None => None,
            }
        },
    }
}

/// The state of the signature-database reader between lines: the block
/// being read and the signatures completed so far.
pub struct DbReadState {
    pub name: Seq<char>,
    pub pattern: Seq<Option<u8>>,
    pub ep_only: bool,
    pub done: Seq<SignatureView>,
}

/// The reader's state before the first line.
pub open spec fn db_start() -> DbReadState {
    DbReadState { name: seq![], pattern: seq![], ep_only: true, done: seq![] }
}

/// The signatures so far, with the block being read when it is complete.
pub open spec fn db_flushed(st: DbReadState) -> Seq<SignatureView> {
    if st.name.len() > 0 && st.pattern.len() > 0 {
        st.done.push(SignatureView { name: st.name, pattern: st.pattern, ep_only: st.ep_only })
    } else {
        st.done
    }
}

/// One line of the database: comments (`;`) and blank lines are skipped,
/// `[name]` starts a block, `signature = ...` and `ep_only = ...` set its
/// fields (keys compared case-insensitively).
pub open spec fn db_step(st: DbReadState, line: Seq<char>) -> DbReadState {
    let text = trim(line);
    if text.len() == 0 || text[0] == ';' {
        st
    } else if text[0] == '[' && text.last() == ']' {
        DbReadState {
            name: text.subrange(1, text.len() - 1),
            pattern: seq![],
            ep_only: true,
            done: db_flushed(st),
        }
    } else {
        match first_index_of(text, '=') {
            Some(i) => {
                let key = str_lowercase(trim(text.subrange(0, i)));
                let value = trim(text.subrange(i + 1, text.len() as int));
                if key == seq!['s', 'i', 'g', 'n', 'a', 't', 'u', 'r', 'e'] {
                    DbReadState { pattern: pattern_of(value), ..st }
                } else if key == seq!['e', 'p', '_', 'o', 'n', 'l', 'y'] {
                    DbReadState { ep_only: str_lowercase(value) == seq!['t', 'r', 'u', 'e'], ..st }
                } else {
                    st
                }
            },
            None => st,
        }
    }
}

/// The reader's state after a sequence of lines.
pub open spec fn db_read(lines: Seq<Seq<char>>) -> DbReadState
    decreases lines.len(),
{
    if lines.len() == 0 {
        db_start()
    } else {
        db_step(db_read(lines.drop_last()), lines.last())
    }
}

/// The signatures a database holds: when it was read to the end, the last
/// block counts too.
pub open spec fn db_signatures(lines: Seq<Seq<char>>, read_to_end: bool) -> Seq<SignatureView> {
    if read_to_end {
        db_flushed(db_read(lines))
    } else {
        db_read(lines).done
    }
}

fn chars_equal(a: &Vec<char>, b: &Vec<char>) -> (r: bool)
    ensures
        r == (a@ == b@),
{
    if a.len() != b.len() {
        return false;
    }
    let mut i: usize = 0;
    while i < a.len()
        invariant
            0 <= i <= a@.len(),
            a@.len() == b@.len(),
            forall|j: int| 0 <= j < i ==> a@[j] == b@[j],
        decreases a@.len() - i,
    {
        if a[i] != b[i] {
            return false;
        }
        i = i + 1;
    }
    assert(a@ =~= b@);
    true
}

fn sub_chars(v: &Vec<char>, from: usize, to: usize) -> (r: Vec<char>)
    requires
        from <= to <= v@.len(),
    ensures
        r@ == v@.subrange(from as int, to as int),
{
    let mut r: Vec<char> = Vec::new();
    let mut i = from;
    while i < to
        invariant
            from <= i <= to <= v@.len(),
            r@ == v@.subrange(from as int, i as int),
        decreases to - i,
    {
        r.push(v[i]);
        assert(v@.subrange(from as int, i + 1) =~= v@.subrange(from as int, i as int).push(
            v@[i as int],
        ));
        i = i + 1;
    }
    r
}

fn lowercase_chars(v: &Vec<char>) -> (r: Vec<char>)
    ensures
        r@ == str_lowercase(v@),
{
    let s = string_from_chars(v);
    let l = lowercase(s.as_str());
    chars_of(l.as_str())
}

fn copy_pattern(v: &Vec<Option<u8>>) -> (r: Vec<Option<u8>>)
    ensures
        r@ == v@,
{
    let mut r: Vec<Option<u8>> = Vec::new();
    let mut i: usize = 0;
    while i < v.len()
        invariant
            0 <= i <= v@.len(),
            r@ == v@.subrange(0, i as int),
        decreases v@.len() - i,
    {
        r.push(v[i]);
        assert(v@.subrange(0, i + 1) =~= v@.subrange(0, i as int).push(v@[i as int]));
        i = i + 1;
    }
    assert(v@.subrange(0, v@.len() as int) =~= v@);
    r
}

/// Scans PE images for known packer signatures.
pub struct PackerSignatureEngine {
    signatures: Vec<PackSignature>,
}

impl PackerSignatureEngine {
    /// The loaded signatures, in load order.
    pub closed spec fn signatures(&self) -> Seq<SignatureView> {
        self.signatures@.map_values(|s: PackSignature| s@)
    }

    /// An engine without signatures.
    pub fn new() -> (r: PackerSignatureEngine)
        ensures
            r.signatures() == Seq::<SignatureView>::empty(),
    {
        let r = PackerSignatureEngine { signatures: Vec::new() };
        assert(r.signatures() =~= Seq::<SignatureView>::empty());
        r
    }

    fn push_block(&mut self, name: &Vec<char>, pattern: &Vec<Option<u8>>, ep_only: bool)
        ensures
            final(self).signatures() == if name@.len() > 0 && pattern@.len() > 0 {
                old(self).signatures().push(
                    SignatureView { name: name@, pattern: pattern@, ep_only: ep_only },
                )
            } else {
                old(self).signatures()
            },
    {
        if name.len() > 0 && pattern.len() > 0 {
            let sig = PackSignature {
                name: string_from_chars(name),
                pattern: copy_pattern(pattern),
                ep_only,
            };
            self.signatures.push(sig);
            assert(self.signatures() =~= old(self).signatures().push(sig@));
        }
    }

    /// Adds the signatures of a database given as its lines; the block open
    /// at the end counts only when the database was read to its end.
    pub fn load(&mut self, lines: &Vec<String>, read_to_end: bool)
        ensures
            final(self).signatures() == old(self).signatures() + db_signatures(
                lines@.map_values(|l: String| l@),
                read_to_end,
            ),
    {
        let ghost lv = lines@.map_values(|l: String| l@);
        let ghost base = self.signatures();
        let mut name: Vec<char> = Vec::new();
        let mut pattern: Vec<Option<u8>> = Vec::new();
        let mut ep_only = true;
        let sig_key = chars_of("signature");
        let ep_key = chars_of("ep_only");
        let true_word = chars_of("true");
        proof {
            reveal_strlit("signature");
            reveal_strlit("ep_only");
            reveal_strlit("true");
        }
        assert(sig_key@ =~= seq!['s', 'i', 'g', 'n', 'a', 't', 'u', 'r', 'e']);
        assert(ep_key@ =~= seq!['e', 'p', '_', 'o', 'n', 'l', 'y']);
        assert(true_word@ =~= seq!['t', 'r', 'u', 'e']);
        let mut i: usize = 0;
        assert(lv.subrange(0, 0) =~= Seq::<Seq<char>>::empty());
        assert(db_start().done =~= Seq::<SignatureView>::empty());
        assert(base + db_start().done =~= base);
        while i < lines.len()
            invariant
                0 <= i <= lines@.len(),
                lv == lines@.map_values(|l: String| l@),
                sig_key@ == seq!['s', 'i', 'g', 'n', 'a', 't', 'u', 'r', 'e'],
                ep_key@ == seq!['e', 'p', '_', 'o', 'n', 'l', 'y'],
                true_word@ == seq!['t', 'r', 'u', 'e'],
                db_read(lv.subrange(0, i as int)) == (DbReadState {
                    name: name@,
                    pattern: pattern@,
                    ep_only,
                    done: db_read(lv.subrange(0, i as int)).done,
                }),
                self.signatures() == base + db_read(lv.subrange(0, i as int)).done,
            decreases lines@.len() - i,
        {
            let ghost st = db_read(lv.subrange(0, i as int));
            assert(lv.subrange(0, i + 1).drop_last() =~= lv.subrange(0, i as int));
            assert(lv.subrange(0, i + 1).last() == lines@[i as int]@);
            let line = chars_of(lines[i].as_str());
            let text = trim_chars(&line);
            let n = text.len();
            if n == 0 || text[0] == ';' {
            } else if text[0] == '[' && text[n - 1] == ']' {
                let ghost before = self.signatures();
                self.push_block(&name, &pattern, ep_only);
                assert(self.signatures() =~= base + db_flushed(st));
                name = sub_chars(&text, 1, n - 1);
                pattern = Vec::new();
                ep_only = true;
            } else {
                match find_char(&text, '=') {
                    Some(eq) => {
                        let key = lowercase_chars(&trim_chars(&sub_chars(&text, 0, eq)));
                        let value = trim_chars(&sub_chars(&text, eq + 1, n));
                        if chars_equal(&key, &sig_key) {
                            let value_str = string_from_chars(&value);
                            pattern = parse_pattern(value_str.as_str());
                        } else if chars_equal(&key, &ep_key) {
                            let lowered = lowercase_chars(&value);
                            ep_only = chars_equal(&lowered, &true_word);
                        }
                    },
                    None => {},
                }
            }
            i = i + 1;
        }
        assert(lv.subrange(0, lines@.len() as int) =~= lv);
        if read_to_end {
            self.push_block(&name, &pattern, ep_only);
            assert(self.signatures() =~= base + db_flushed(db_read(lv)));
        }
    }

    /// Checks whether the bytes of a file match a known packer: the name of
    /// the first signature that hits.
    pub fn scan(&self, pe: &PeInfo, buffer: &[u8]) -> (r: Option<String>)
        ensures
            match scan_result(self.signatures(), pe@, buffer@) {
                Some(n) => r matches Some(s) && s@ == n,
                None => r is None,
            },
    {
        let ep_offset = match find_entry_point_offset(pe) {
            Some(o) => o,
            None => {
                return None;
            },
        };
        if ep_offset >= buffer.len() as u64 {
            return None;
        }
        let ep = ep_offset as usize;
        let ep_data = vstd::slice::slice_subrange(buffer, ep, buffer.len());
        let ghost sigs = self.signatures();
        let n = self.signatures.len();
        let mut i: usize = 0;
        assert(sigs.subrange(0, n as int) =~= sigs);
        while i < n
            invariant
                0 <= i <= n,
                n == self.signatures@.len(),
                sigs == self.signatures(),
                ep_data@ == buffer@.subrange(ep as int, buffer@.len() as int),
                ep < buffer@.len(),
                entry_offset(pe@.entry, pe@.sections) == Some(ep as nat),
                first_hit(sigs, buffer@, ep as int) == match first_hit(
                    sigs.subrange(i as int, n as int),
                    buffer@,
                    ep as int,
                ) {
                    Some(k) => Some(k + i),
                    None => None,
                },
            decreases n - i,
        {
            let sig = &self.signatures[i];
            let ghost rest = sigs.subrange(i as int, n as int);
            assert(rest[0] == sig@);
            let hit = if sig.ep_only {
                if sig.pattern.len() > ep_data.len() {
                    false
                } else {
                    match_pattern(ep_data, sig.pattern.as_slice())
                }
            } else {
                if sig.pattern.len() > buffer.len() {
                    false
                } else {
                    match_pattern(buffer, sig.pattern.as_slice())
                }
            };
            proof {
                if sig.ep_only {
                    if matches_at(ep_data@, 0, sig.pattern@) {
                        assert forall|j: int| 0 <= j < sig.pattern@.len() implies (
                        #[trigger] sig.pattern@[j] matches Some(b) ==> buffer@[ep + j] == b) by {
                            assert(ep_data@[0 + j] == buffer@[ep + j]);
                        }
                    }
                    if matches_at(buffer@, ep as int, sig.pattern@) {
                        assert forall|j: int| 0 <= j < sig.pattern@.len() implies (
                        #[trigger] sig.pattern@[j] matches Some(b) ==> ep_data@[0 + j] == b) by {
                            assert(ep_data@[0 + j] == buffer@[ep + j]);
                        }
                    }
                }
                assert(hit == signature_hits(sig@, buffer@, ep as int));
            }
            if hit {
                return Some(sig.name.clone());
            }
            assert(rest.drop_first() =~= sigs.subrange(i + 1, n as int));
            i = i + 1;
        }
        None
    }
}

/// Whether the virtual range of a section holds `entry`.
pub open spec fn section_holds(s: PeSection, entry: u64) -> bool {
    s.virtual_address <= entry && entry < s.virtual_address + s.virtual_size
}

/// The entry point lies in the raw data of the first section whose virtual
/// range holds it, as far into that data as it lies into the section's
/// virtual range: for that section `k`, the offset is `k`'s raw-data
/// pointer plus the distance from `k`'s virtual address to the entry.
pub proof fn law_entry_offset_keeps_distance_into_section(entry: u64, sections: Seq<PeSection>, k: int)
    requires
        0 <= k < sections.len(),
        section_holds(sections[k], entry),
        forall|j: int| 0 <= j < k ==> !section_holds(#[trigger] sections[j], entry),
    ensures
        entry_offset(entry, sections) == Some(
            (sections[k].pointer_to_raw_data + (entry - sections[k].virtual_address)) as nat,
        ),
        entry_offset(entry, sections) matches Some(o) && o - sections[k].pointer_to_raw_data == entry
            - sections[k].virtual_address,
    decreases k,
{
    if k > 0 {
        assert(!section_holds(sections[0], entry));
        let rest = sections.drop_first();
        assert forall|j: int| 0 <= j < k - 1 implies !section_holds(#[trigger] rest[j], entry) by {
            assert(rest[j] == sections[j + 1]);
        }
        assert(rest[k - 1] == sections[k]);
        law_entry_offset_keeps_distance_into_section(entry, rest, k - 1);
    }
}

/// An entry point that no section's virtual range holds has no file offset.
pub proof fn law_entry_outside_every_section_has_no_offset(entry: u64, sections: Seq<PeSection>)
    requires
        forall|j: int| 0 <= j < sections.len() ==> !section_holds(#[trigger] sections[j], entry),
    ensures
        entry_offset(entry, sections) is None,
    decreases sections.len(),
{
    if sections.len() > 0 {
        assert(!section_holds(sections[0], entry));
        let rest = sections.drop_first();
        assert forall|j: int| 0 <= j < rest.len() implies !section_holds(#[trigger] rest[j], entry) by {
            assert(rest[j] == sections[j + 1]);
        }
        law_entry_outside_every_section_has_no_offset(entry, rest);
    }
}

/// Moving the entry point within the section that holds it moves its file
/// offset by the same distance.
pub proof fn law_entry_offset_moves_with_entry(e1: u64, e2: u64, sections: Seq<PeSection>, k: int)
    requires
        0 <= k < sections.len(),
        section_holds(sections[k], e1),
        section_holds(sections[k], e2),
        forall|j: int| 0 <= j < k ==> !section_holds(#[trigger] sections[j], e1),
        forall|j: int| 0 <= j < k ==> !section_holds(#[trigger] sections[j], e2),
    ensures
        entry_offset(e1, sections) matches Some(o1) && entry_offset(e2, sections) matches Some(o2)
            && o2 - o1 == e2 - e1,
{
    law_entry_offset_keeps_distance_into_section(e1, sections, k);
    law_entry_offset_keeps_distance_into_section(e2, sections, k);
}

} // verus!
