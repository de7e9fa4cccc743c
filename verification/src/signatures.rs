//! Flags: the building blocks of detection rules that telemetry and the
//! engine attach to file and process contexts, and the location rules that
//! derive file flags from a path.

use vstd::prelude::*;

use regex::RegexSet;

use crate::text::{ascii_lower, chars_of, string_from_chars, to_ascii_lower};

verus! {

/// Flags attached to file contexts. Flags are only ever added.
#[derive(Debug, Clone, Copy, PartialEq, Eq, Structural, Hash, Default)]
pub enum FileFlags {
    #[default]
    Unset,
    FileWriteSuccess,
    WhiteListed,
    BlackListed,
    StaticScanMalicious,
    StaticScanSuspicious,
    StaticScanBeneign,
    InAutoStartLocation,
    InTempLocation,
    RenamedToExecutable,
    FileCreateSuccess,
}

/// Flags attached to process contexts. Flags are only ever added.
#[derive(Debug, Clone, Copy, PartialEq, Eq, Structural, Hash, Default)]
pub enum ProcessFlags {
    #[default]
    Unset,
    WhiteListed,
    BlackListed,
    OpenedRemoteProcess,
    AllocedVMemInRemoteProcess,
}

/// The public interface of a threat signature: its identity and its check
/// against the matching context type (file contexts for file signatures,
/// process contexts for process signatures).
pub trait ThreatSiganture {
    fn get_tid();

    fn get_common_name();

    fn get_description();

    fn eval_on_context();
}

/// Files under a user's local temporary directory.
pub const USER_TEMP_PATTERN: &'static str = "^c:\\\\users\\\\[^\\\\]+\\\\appdata\\\\local\\\\temp(?:\\\\.*|$)";

/// Files under the system temporary directory.
pub const WINDOWS_TEMP_PATTERN: &'static str = "^c:\\\\windows\\\\temp(?:\\\\.*|$)";

/// Files in a user's startup folder.
pub const USER_STARTUP_PATTERN: &'static str = "^c:\\\\users\\\\[^\\\\]+\\\\appdata\\\\roaming\\\\microsoft\\\\windows\\\\start menu\\\\programs\\\\startup(?:\\\\.*|$)";

/// Files in the all-users startup folder.
pub const COMMON_STARTUP_PATTERN: &'static str = "^c:\\\\programdata\\\\microsoft\\\\windows\\\\start menu\\\\programs\\\\startup(?:\\\\.*|$)";

/// The location rules' patterns, in rule order.
pub open spec fn location_patterns() -> Seq<Seq<char>> {
    seq![USER_TEMP_PATTERN@, WINDOWS_TEMP_PATTERN@, USER_STARTUP_PATTERN@, COMMON_STARTUP_PATTERN@]
}

/// The flag of each location rule: the first two find temporary
/// directories, the others startup folders.
pub open spec fn location_flag(rule: int) -> FileFlags {
    if rule < 2 {
        FileFlags::InTempLocation
    } else {
        FileFlags::InAutoStartLocation
    }
}

/// What `RegexSet::new(patterns)` and then `matches(text)` yield: the
/// indices of the patterns that match `text`, or none when a pattern does
/// not compile.
pub uninterp spec fn regex_set_matches(patterns: Seq<Seq<char>>, text: Seq<char>) -> Option<Seq<usize>>;

/// `RegexSet::new(patterns)` and `SetMatches::into_iter` on `matches(text)`:
/// the indices of the matching patterns, each below the number of patterns
/// and in ascending order; none when a pattern does not compile.
#[verifier::external_body]
fn match_regex_set(patterns: &[&str], text: &str) -> (r: Option<Vec<usize>>)
    ensures
        r is Some == regex_set_matches(patterns@.map_values(|p: &str| p@), text@) is Some,
        r matches Some(v) ==> {
            &&& regex_set_matches(patterns@.map_values(|p: &str| p@), text@) == Some(v@)
            &&& forall|i: int| 0 <= i < v@.len() ==> #[trigger] v@[i] < patterns@.len()
            &&& forall|i: int, j: int| 0 <= i < j < v@.len() ==> v@[i] < v@[j]
        },
{
    match RegexSet::new(patterns) {
        Ok(set) => Some(set.matches(text).into_iter().collect()),
        Err(_) => None,
    }
}

/// A path as the location rules see it: `/` turned into `\\`, ASCII
/// letters lower-cased, without a `\\\\?\\` prefix.
pub open spec fn normalized_location(path: Seq<char>) -> Seq<char> {
    let t = path.map_values(|c: char| if c == '/' { '\\' } else { ascii_lower(c) });
    if t.len() >= 4 && t[0] == '\\' && t[1] == '\\' && t[2] == '?' && t[3] == '\\' {
        t.subrange(4, t.len() as int)
    } else {
        t
    }
}

/// Normalizes a path for the location rules: `/` becomes `\\`, ASCII
/// letters are lower-cased, and a `\\\\?\\` prefix is dropped.
pub fn normalize_location_path(path: &str) -> (r: String)
    ensures
        r@ == normalized_location(path@),
{
    let chars = chars_of(path);
    let n = chars.len();
    let ghost t = path@.map_values(|c: char| if c == '/' { '\\' } else { ascii_lower(c) });
    let mut mapped: Vec<char> = Vec::new();
    let mut i: usize = 0;
    while i < n
        invariant
            0 <= i <= n,
            n == chars@.len(),
            chars@ == path@,
            t == path@.map_values(|c: char| if c == '/' { '\\' } else { ascii_lower(c) }),
            mapped@ == t.subrange(0, i as int),
        decreases n - i,
    {
        let c = chars[i];
        let m = if c == '/' {
            '\\'
        } else {
            to_ascii_lower(c)
        };
        mapped.push(m);
        assert(t.subrange(0, i + 1) =~= t.subrange(0, i as int).push(t[i as int]));
        i = i + 1;
    }
    assert(t.subrange(0, n as int) =~= t);
    if n >= 4 && mapped[0] == '\\' && mapped[1] == '\\' && mapped[2] == '?' && mapped[3] == '\\' {
        let mut rest: Vec<char> = Vec::new();
        let mut k: usize = 4;
        while k < n
            invariant
                4 <= k <= n,
                n == mapped@.len(),
                rest@ == mapped@.subrange(4, k as int),
            decreases n - k,
        {
            rest.push(mapped[k]);
            assert(mapped@.subrange(4, k + 1) =~= mapped@.subrange(4, k as int).push(
                mapped@[k as int],
            ));
            k = k + 1;
        }
        string_from_chars(&rest)
    } else {
        string_from_chars(&mapped)
    }
}

/// The flags of the matched rules, each once, in the order first matched.
pub open spec fn flags_of_matches(rules: Seq<usize>) -> Seq<FileFlags>
    decreases rules.len(),
{
    if rules.len() == 0 {
        seq![]
    } else {
        let prev = flags_of_matches(rules.drop_last());
        let f = location_flag(rules.last() as int);
        if prev.contains(f) {
            prev
        } else {
            prev.push(f)
        }
    }
}

/// The flags that the location rules give a path, each once; none when the
/// rules do not compile.
pub open spec fn location_flags(path: Seq<char>) -> Seq<FileFlags> {
    match regex_set_matches(location_patterns(), normalized_location(path)) {
        Some(rules) => flags_of_matches(rules),
        None => seq![],
    }
}

proof fn lemma_flags_of_matches_distinct(rules: Seq<usize>)
    ensures
        flags_of_matches(rules).no_duplicates(),
    decreases rules.len(),
{
    if rules.len() > 0 {
        lemma_flags_of_matches_distinct(rules.drop_last());
        let prev = flags_of_matches(rules.drop_last());
        let f = location_flag(rules.last() as int);
        if !prev.contains(f) {
            assert forall|a: int, b: int| 0 <= a < b < prev.push(f).len() implies prev.push(f)[a]
                != prev.push(f)[b] by {
                if b == prev.len() {
                    assert(prev[a] == prev.push(f)[a]);
                }
            }
        }
    }
}

/// The location flags of a path: the flag of every location rule that
/// matches its normalized form, each flag once.
pub fn get_location_flags(path: &str) -> (r: Vec<FileFlags>)
    ensures
        r@ == location_flags(path@),
        r@.no_duplicates(),
{
    let normalized = normalize_location_path(path);
    let patterns: Vec<&str> = vec![
        USER_TEMP_PATTERN,
        WINDOWS_TEMP_PATTERN,
        USER_STARTUP_PATTERN,
        COMMON_STARTUP_PATTERN,
    ];
    assert(patterns@.map_values(|p: &str| p@) =~= location_patterns());
    let mut flags: Vec<FileFlags> = Vec::new();
    proof {
        lemma_flags_of_matches_distinct(seq![]);
    }
    match match_regex_set(patterns.as_slice(), normalized.as_str()) {
        None => {},
        Some(matched) => {
            let mut i: usize = 0;
            while i < matched.len()
                invariant
                    0 <= i <= matched@.len(),
                    forall|j: int| 0 <= j < matched@.len() ==> #[trigger] matched@[j] < 4,
                    flags@ == flags_of_matches(matched@.subrange(0, i as int)),
                decreases matched@.len() - i,
            {
                let rule = matched[i];
                let flag = if rule < 2 {
                    FileFlags::InTempLocation
                } else {
                    FileFlags::InAutoStartLocation
                };
                let ghost sub = matched@.subrange(0, i + 1);
                assert(sub.drop_last() =~= matched@.subrange(0, i as int));
                let mut seen = false;
                let mut k: usize = 0;
                while k < flags.len()
                    invariant
                        0 <= k <= flags@.len(),
                        seen == flags@.subrange(0, k as int).contains(flag),
                    decreases flags@.len() - k,
                {
                    proof {
                        crate::maps::lemma_prefix_contains(flags@, k as int);
                    }
                    if flags[k] == flag {
                        seen = true;
                    }
                    k = k + 1;
                }
                assert(flags@.subrange(0, flags@.len() as int) =~= flags@);
                if !seen {
                    flags.push(flag);
                }
                i = i + 1;
            }
            assert(matched@.subrange(0, matched@.len() as int) =~= matched@);
        },
    }
    proof {
        match regex_set_matches(location_patterns(), normalized@) {
            Some(rules) => lemma_flags_of_matches_distinct(rules),
            None => {},
        }
    }
    flags
}

/// `char::to_ascii_uppercase`.
pub open spec fn ascii_upper(c: char) -> char {
    if 'a' <= c <= 'z' {
        ((c as u32) - 32) as char
    } else {
        c
    }
}

/// Location rules ignore ASCII case and the separator style: a path, its
/// ASCII upper-case form and its form with `/` for every `\\` get the
/// same flags.
pub proof fn law_location_flags_ignore_case_and_separators(path: Seq<char>)
    ensures
        location_flags(path.map_values(|c: char| ascii_upper(c))) == location_flags(path),
        location_flags(path.map_values(|c: char| if c == '\\' { '/' } else { c })) == location_flags(path),
{
    let f = |c: char| if c == '/' { '\\' } else { ascii_lower(c) };
    let upper = path.map_values(|c: char| ascii_upper(c));
    let slashed = path.map_values(|c: char| if c == '\\' { '/' } else { c });
    assert(upper.map_values(f) =~= path.map_values(f)) by {
        assert forall|i: int| 0 <= i < path.len() implies #[trigger] upper.map_values(f)[i] == path.map_values(f)[i] by {
            let c = path[i];
            if 'a' <= c <= 'z' {
                assert(((c as u32) - 32) as char as u32 == (c as u32) - 32);
                assert((((((c as u32) - 32) as char) as u32) + 32) as char == c);
            }
        }
    }
    assert(slashed.map_values(f) =~= path.map_values(f));
    assert(normalized_location(upper) == normalized_location(path));
    assert(normalized_location(slashed) == normalized_location(path));
}

/// Whether a matched rule's pattern is `pattern`.
pub open spec fn matched_pattern(rules: Seq<usize>, pattern: Seq<char>) -> bool {
    exists|i: int| 0 <= i < rules.len() && location_patterns()[#[trigger] rules[i] as int] == pattern
}

proof fn lemma_location_patterns_differ()
    ensures
        location_patterns()[0] == USER_TEMP_PATTERN@,
        location_patterns()[1] == WINDOWS_TEMP_PATTERN@,
        location_patterns()[2] == USER_STARTUP_PATTERN@,
        location_patterns()[3] == COMMON_STARTUP_PATTERN@,
        USER_TEMP_PATTERN@.len() != WINDOWS_TEMP_PATTERN@.len(),
        USER_TEMP_PATTERN@.len() != USER_STARTUP_PATTERN@.len(),
        USER_TEMP_PATTERN@.len() != COMMON_STARTUP_PATTERN@.len(),
        WINDOWS_TEMP_PATTERN@.len() != USER_STARTUP_PATTERN@.len(),
        WINDOWS_TEMP_PATTERN@.len() != COMMON_STARTUP_PATTERN@.len(),
        USER_STARTUP_PATTERN@.len() != COMMON_STARTUP_PATTERN@.len(),
{
    reveal_strlit("^c:\\\\users\\\\[^\\\\]+\\\\appdata\\\\local\\\\temp(?:\\\\.*|$)");
    reveal_strlit("^c:\\\\windows\\\\temp(?:\\\\.*|$)");
    reveal_strlit("^c:\\\\users\\\\[^\\\\]+\\\\appdata\\\\roaming\\\\microsoft\\\\windows\\\\start menu\\\\programs\\\\startup(?:\\\\.*|$)");
    reveal_strlit("^c:\\\\programdata\\\\microsoft\\\\windows\\\\start menu\\\\programs\\\\startup(?:\\\\.*|$)");
}

proof fn lemma_flags_of_matches_contains(rules: Seq<usize>, f: FileFlags)
    ensures
        flags_of_matches(rules).contains(f) <==> exists|i: int|
            0 <= i < rules.len() && location_flag(#[trigger] rules[i] as int) == f,
        forall|j: int|
            0 <= j < flags_of_matches(rules).len() ==> #[trigger] flags_of_matches(rules)[j]
                == FileFlags::InTempLocation || flags_of_matches(rules)[j]
                == FileFlags::InAutoStartLocation,
    decreases rules.len(),
{
    if rules.len() > 0 {
        let front = rules.drop_last();
        lemma_flags_of_matches_contains(front, f);
        let prev = flags_of_matches(front);
        let g = location_flag(rules.last() as int);
        let n = rules.len() - 1;
        if flags_of_matches(rules).contains(f) {
            if prev.contains(f) {
                let i = choose|i: int| 0 <= i < front.len() && location_flag(#[trigger] front[i] as int) == f;
                assert(rules[i] == front[i]);
            } else {
                assert(f == g);
                assert(location_flag(rules[n] as int) == f);
            }
        }
        if exists|i: int| 0 <= i < rules.len() && location_flag(#[trigger] rules[i] as int) == f {
            let i = choose|i: int| 0 <= i < rules.len() && location_flag(#[trigger] rules[i] as int) == f;
            if i < n {
                assert(front[i] == rules[i]);
                assert(prev.contains(f));
                if !prev.contains(g) {
                    let k = choose|k: int| 0 <= k < prev.len() && prev[k] == f;
                    assert(prev.push(g)[k] == f);
                }
            } else {
                if !prev.contains(g) {
                    assert(prev.push(g)[prev.len() as int] == g);
                }
            }
        }
        assert forall|j: int| 0 <= j < flags_of_matches(rules).len() implies #[trigger] flags_of_matches(
            rules,
        )[j] == FileFlags::InTempLocation || flags_of_matches(rules)[j]
            == FileFlags::InAutoStartLocation by {
            if j < prev.len() {
                assert(flags_of_matches(rules)[j] == prev[j]);
            }
        }
    }
}

/// Each location rule gives the flag of its folder: a path is flagged as
/// temporary exactly when one of the temporary-directory patterns matches
/// it, and as an autostart location exactly when one of the startup-folder
/// patterns does; no other flag is given. So a path in a startup folder
/// and no temporary directory gets exactly `[InAutoStartLocation]`, one in
/// a temporary directory and no startup folder exactly `[InTempLocation]`,
/// and one in neither no flag.
pub proof fn law_location_flags_follow_their_patterns(path: Seq<char>, rules: Seq<usize>)
    requires
        regex_set_matches(location_patterns(), normalized_location(path)) == Some(rules),
        forall|i: int| 0 <= i < rules.len() ==> #[trigger] rules[i] < location_patterns().len(),
    ensures
        location_flags(path).contains(FileFlags::InTempLocation) <==> (matched_pattern(
            rules,
            USER_TEMP_PATTERN@,
        ) || matched_pattern(rules, WINDOWS_TEMP_PATTERN@)),
        location_flags(path).contains(FileFlags::InAutoStartLocation) <==> (matched_pattern(
            rules,
            USER_STARTUP_PATTERN@,
        ) || matched_pattern(rules, COMMON_STARTUP_PATTERN@)),
        forall|j: int|
            0 <= j < location_flags(path).len() ==> #[trigger] location_flags(path)[j]
                == FileFlags::InTempLocation || location_flags(path)[j]
                == FileFlags::InAutoStartLocation,
        (matched_pattern(rules, USER_STARTUP_PATTERN@) || matched_pattern(rules, COMMON_STARTUP_PATTERN@))
            && !matched_pattern(rules, USER_TEMP_PATTERN@) && !matched_pattern(
            rules,
            WINDOWS_TEMP_PATTERN@,
        ) ==> location_flags(path) == seq![FileFlags::InAutoStartLocation],
        (matched_pattern(rules, USER_TEMP_PATTERN@) || matched_pattern(rules, WINDOWS_TEMP_PATTERN@))
            && !matched_pattern(rules, USER_STARTUP_PATTERN@) && !matched_pattern(
            rules,
            COMMON_STARTUP_PATTERN@,
        ) ==> location_flags(path) == seq![FileFlags::InTempLocation],
        rules.len() == 0 ==> location_flags(path) == Seq::<FileFlags>::empty(),
{
    let t = FileFlags::InTempLocation;
    let a = FileFlags::InAutoStartLocation;
    let s = flags_of_matches(rules);
    assert(location_flags(path) == s);
    lemma_location_patterns_differ();
    lemma_flags_of_matches_contains(rules, t);
    lemma_flags_of_matches_contains(rules, a);
    lemma_flags_of_matches_distinct(rules);
    let temp = matched_pattern(rules, USER_TEMP_PATTERN@) || matched_pattern(rules, WINDOWS_TEMP_PATTERN@);
    let start = matched_pattern(rules, USER_STARTUP_PATTERN@) || matched_pattern(
        rules,
        COMMON_STARTUP_PATTERN@,
    );
    if temp {
        let i = if matched_pattern(rules, USER_TEMP_PATTERN@) {
            choose|i: int| 0 <= i < rules.len() && location_patterns()[#[trigger] rules[i] as int]
                == USER_TEMP_PATTERN@
        } else {
            choose|i: int| 0 <= i < rules.len() && location_patterns()[#[trigger] rules[i] as int]
                == WINDOWS_TEMP_PATTERN@
        };
        assert(rules[i] < 4);
        assert(rules[i] < 2);
        assert(location_flag(rules[i] as int) == t);
    }
    if s.contains(t) {
        let i = choose|i: int| 0 <= i < rules.len() && location_flag(#[trigger] rules[i] as int) == t;
        assert(rules[i] < 2);
        if rules[i] == 0 {
            assert(location_patterns()[rules[i] as int] == USER_TEMP_PATTERN@);
        } else {
            assert(location_patterns()[rules[i] as int] == WINDOWS_TEMP_PATTERN@);
        }
    }
    if start {
        let i = if matched_pattern(rules, USER_STARTUP_PATTERN@) {
            choose|i: int| 0 <= i < rules.len() && location_patterns()[#[trigger] rules[i] as int]
                == USER_STARTUP_PATTERN@
        } else {
            choose|i: int| 0 <= i < rules.len() && location_patterns()[#[trigger] rules[i] as int]
                == COMMON_STARTUP_PATTERN@
        };
        assert(rules[i] < 4);
        assert(rules[i] >= 2);
        assert(location_flag(rules[i] as int) == a);
    }
    if s.contains(a) {
        let i = choose|i: int| 0 <= i < rules.len() && location_flag(#[trigger] rules[i] as int) == a;
        assert(2 <= rules[i] < 4);
        if rules[i] == 2 {
            assert(location_patterns()[rules[i] as int] == USER_STARTUP_PATTERN@);
        } else {
            assert(location_patterns()[rules[i] as int] == COMMON_STARTUP_PATTERN@);
        }
    }
    if start && !temp {
        assert(s.contains(a) && !s.contains(t));
        assert(s.len() >= 1);
        if s.len() >= 2 {
            assert(s[0] == a);
            assert(s[1] == a);
        }
        assert(s.len() == 1);
        assert(s[0] == a);
        assert(s =~= seq![a]);
    }
    if temp && !start {
        assert(s.contains(t) && !s.contains(a));
        assert(s.len() >= 1);
        if s.len() >= 2 {
            assert(s[0] == t);
            assert(s[1] == t);
        }
        assert(s[0] == t);
        assert(s =~= seq![t]);
    }
    if rules.len() == 0 {
        assert(s =~= Seq::<FileFlags>::empty());
    }
}

} // verus!
