//! The version-identifier parser. A version identifier loosely matches
//! `[v]MAJOR.MINOR.PATCH[.BUILD]`, where BUILD is a lowercase hexadecimal
//! hash or a lowercase hyphenated label. The parser finds the leftmost such
//! match in the input, preferring a consumed `v`, maximal digit runs, and
//! the hexadecimal reading of the build over the label reading. A missing
//! BUILD group is a hard failure.

use vstd::prelude::*;

use crate::errors::FlashError;
use crate::strings::{
    chars_of, dec_digits, dec_val, is_digit_char, lemma_dec_digits_are_digits,
    lemma_dec_val_of_dec_digits, parse_u32_digits, u32_to_string,
};

verus! {

/// A structured firmware version: three numeric components and a build
/// identifier (a short content hash or a channel label).
#[derive(Debug, PartialEq, Eq)]
pub struct FirmwareVersion {
    pub major_version: u32,
    pub minor_version: u32,
    pub patch_version: u32,
    pub version_hash: String,
}

impl Clone for FirmwareVersion {
    fn clone(&self) -> (r: Self)
        ensures
            r == *self,
    {
        FirmwareVersion {
            major_version: self.major_version,
            minor_version: self.minor_version,
            patch_version: self.patch_version,
            version_hash: self.version_hash.clone(),
        }
    }
}

/// A lowercase hexadecimal digit.
pub open spec fn is_hex_char(c: char) -> bool {
    is_digit_char(c) || ('a' as u32 <= c as u32 && c as u32 <= 'f' as u32)
}

/// A character of a lowercase hyphenated label.
pub open spec fn is_label_char(c: char) -> bool {
    ('a' as u32 <= c as u32 && c as u32 <= 'z' as u32) || c == '-'
}

pub open spec fn digit_pred() -> spec_fn(char) -> bool {
    |c: char| is_digit_char(c)
}

pub open spec fn hex_pred() -> spec_fn(char) -> bool {
    |c: char| is_hex_char(c)
}

pub open spec fn label_pred() -> spec_fn(char) -> bool {
    |c: char| is_label_char(c)
}

/// The end of the maximal run of characters satisfying `p` that starts at
/// position `i`.
pub open spec fn run_end(s: Seq<char>, i: int, p: spec_fn(char) -> bool) -> int
    decreases s.len() - i when 0 <= i <= s.len()
{
    if i < s.len() && p(s[i]) {
        run_end(s, i + 1, p)
    } else {
        i
    }
}

pub proof fn lemma_run_end_bounds(s: Seq<char>, i: int, p: spec_fn(char) -> bool)
    requires
        0 <= i <= s.len(),
    ensures
        i <= run_end(s, i, p) <= s.len(),
        forall|j: int| i <= j < run_end(s, i, p) ==> p(s[j]),
        run_end(s, i, p) == s.len() || !p(s[run_end(s, i, p)]),
    decreases s.len() - i,
{
    if i < s.len() && p(s[i]) {
        lemma_run_end_bounds(s, i + 1, p);
    }
}

pub proof fn lemma_run_end_exact(s: Seq<char>, i: int, j: int, p: spec_fn(char) -> bool)
    requires
        0 <= i <= j <= s.len(),
        forall|k: int| i <= k < j ==> p(s[k]),
        j == s.len() || !p(s[j]),
    ensures
        run_end(s, i, p) == j,
    decreases j - i,
{
    if i < j {
        lemma_run_end_exact(s, i + 1, j, p);
    }
}

/// Where the numeric core begins: a single leading `v` is consumed exactly
/// when a digit follows it.
pub open spec fn vskip(s: Seq<char>, i: int) -> int {
    if i < s.len() && s[i] == 'v' && i + 1 < s.len() && is_digit_char(s[i + 1]) {
        i + 1
    } else {
        i
    }
}

/// The pattern `[v]MAJOR.MINOR.PATCH[.BUILD]` matches at position `i`.
pub open spec fn matches_at(s: Seq<char>, i: int) -> bool {
    let b = vskip(s, i);
    let e1 = run_end(s, b, digit_pred());
    let e2 = run_end(s, e1 + 1, digit_pred());
    &&& e1 > b
    &&& e1 < s.len()
    &&& s[e1] == '.'
    &&& e2 > e1 + 1
    &&& e2 < s.len()
    &&& s[e2] == '.'
    &&& run_end(s, e2 + 1, digit_pred()) > e2 + 1
}

/// The four capture groups of a match at position `i` (meaningful only when
/// `matches_at(s, i)` holds).
pub struct VersionGroups {
    pub major: Seq<char>,
    pub minor: Seq<char>,
    pub patch: Seq<char>,
    pub build: Option<Seq<char>>,
}

pub open spec fn match_groups(s: Seq<char>, i: int) -> VersionGroups {
    let b = vskip(s, i);
    let e1 = run_end(s, b, digit_pred());
    let e2 = run_end(s, e1 + 1, digit_pred());
    let e3 = run_end(s, e2 + 1, digit_pred());
    let build = if e3 < s.len() && s[e3] == '.' && e3 + 1 < s.len() && is_hex_char(s[e3 + 1]) {
        Some(s.subrange(e3 + 1, run_end(s, e3 + 1, hex_pred())))
    } else if e3 < s.len() && s[e3] == '.' && e3 + 1 < s.len() && is_label_char(s[e3 + 1]) {
        Some(s.subrange(e3 + 1, run_end(s, e3 + 1, label_pred())))
    } else {
        None
    };
    VersionGroups {
        major: s.subrange(b, e1),
        minor: s.subrange(e1 + 1, e2),
        patch: s.subrange(e2 + 1, e3),
        build,
    }
}

/// The position of the leftmost match at or after `i`.
pub open spec fn first_match_from(s: Seq<char>, i: int) -> Option<int>
    decreases s.len() - i when 0 <= i <= s.len()
{
    if i >= s.len() {
        None
    } else if matches_at(s, i) {
        Some(i)
    } else {
        first_match_from(s, i + 1)
    }
}

/// The position of the leftmost match in the whole string.
pub open spec fn first_match(s: Seq<char>) -> Option<int> {
    first_match_from(s, 0)
}

proof fn lemma_first_match_step(s: Seq<char>, i: int)
    requires
        0 <= i <= s.len(),
        forall|k: int| 0 <= k < i ==> !matches_at(s, k),
    ensures
        first_match(s) == first_match_from(s, i),
    decreases i,
{
    if i > 0 {
        lemma_first_match_step(s, i - 1);
    }
}

/// Whether any of the three numeric groups exceeds the 32-bit range.
pub open spec fn groups_overflow(g: VersionGroups) -> bool {
    dec_val(g.major) > u32::MAX || dec_val(g.minor) > u32::MAX || dec_val(g.patch) > u32::MAX
}

/// The identifier parses: it holds a match whose numeric groups fit and
/// whose build group is present.
pub open spec fn version_parses(s: Seq<char>) -> bool {
    &&& first_match(s) is Some
    &&& !groups_overflow(match_groups(s, first_match(s).unwrap()))
    &&& match_groups(s, first_match(s).unwrap()).build is Some
}

/// What parsing an identifier must yield.
pub open spec fn parse_version_spec(s: Seq<char>, r: Result<FirmwareVersion, FlashError>) -> bool {
    match first_match(s) {
        None => r matches Err(e) && (e matches FlashError::MalformedVersion { input } && input@
            == s),
        Some(i) => {
            let g = match_groups(s, i);
            if groups_overflow(g) {
                r matches Err(e) && (e matches FlashError::NumericOverflow { input } && input@
                    == s)
            } else if g.build is None {
                r matches Err(e) && (e matches FlashError::MissingBuild { input } && input@ == s)
            } else {
                r matches Ok(v) && {
                    &&& v.major_version as nat == dec_val(g.major)
                    &&& v.minor_version as nat == dec_val(g.minor)
                    &&& v.patch_version as nat == dec_val(g.patch)
                    &&& v.version_hash@ == g.build.unwrap()
                }
            }
        },
    }
}

fn is_digit_exec(c: char) -> (r: bool)
    ensures
        r == is_digit_char(c),
{
    let u = c as u32;
    ('0' as u32) <= u && u <= ('9' as u32)
}

fn is_hex_exec(c: char) -> (r: bool)
    ensures
        r == is_hex_char(c),
{
    let u = c as u32;
    (('0' as u32) <= u && u <= ('9' as u32)) || (('a' as u32) <= u && u <= ('f' as u32))
}

fn is_label_exec(c: char) -> (r: bool)
    ensures
        r == is_label_char(c),
{
    let u = c as u32;
    (('a' as u32) <= u && u <= ('z' as u32)) || c == '-'
}

fn scan_digits(cs: &Vec<char>, i: usize) -> (r: usize)
    requires
        i <= cs@.len(),
    ensures
        r as int == run_end(cs@, i as int, digit_pred()),
        i <= r <= cs@.len(),
{
    let mut j: usize = i;
    while j < cs.len() && is_digit_exec(cs[j])
        invariant
            i <= j <= cs@.len(),
            run_end(cs@, i as int, digit_pred()) == run_end(cs@, j as int, digit_pred()),
        decreases cs@.len() - j,
    {
        j = j + 1;
    }
    j
}

fn scan_hex(cs: &Vec<char>, i: usize) -> (r: usize)
    requires
        i <= cs@.len(),
    ensures
        r as int == run_end(cs@, i as int, hex_pred()),
        i <= r <= cs@.len(),
{
    let mut j: usize = i;
    while j < cs.len() && is_hex_exec(cs[j])
        invariant
            i <= j <= cs@.len(),
            run_end(cs@, i as int, hex_pred()) == run_end(cs@, j as int, hex_pred()),
        decreases cs@.len() - j,
    {
        j = j + 1;
    }
    j
}

fn scan_label(cs: &Vec<char>, i: usize) -> (r: usize)
    requires
        i <= cs@.len(),
    ensures
        r as int == run_end(cs@, i as int, label_pred()),
        i <= r <= cs@.len(),
{
    let mut j: usize = i;
    while j < cs.len() && is_label_exec(cs[j])
        invariant
            i <= j <= cs@.len(),
            run_end(cs@, i as int, label_pred()) == run_end(cs@, j as int, label_pred()),
        decreases cs@.len() - j,
    {
        j = j + 1;
    }
    j
}

/// The group boundaries of a successful match attempt: the numeric groups
/// are `[b, e1)`, `[e1 + 1, e2)`, `[e2 + 1, e3)`, and the build group, when
/// present, is `[b4, e4)`.
struct MatchIndices {
    b: usize,
    e1: usize,
    e2: usize,
    e3: usize,
    b4: usize,
    e4: usize,
    has_build: bool,
}

fn try_match_at(cs: &Vec<char>, start: usize) -> (r: Option<MatchIndices>)
    requires
        start < cs@.len(),
    ensures
        r is Some <==> matches_at(cs@, start as int),
        r matches Some(m) ==> {
            let g = match_groups(cs@, start as int);
            &&& m.b as int == vskip(cs@, start as int)
            &&& m.b < m.e1 < m.e2 < m.e3 <= cs@.len()
            &&& m.e1 + 1 < m.e2
            &&& m.e2 + 1 < m.e3
            &&& g.major == cs@.subrange(m.b as int, m.e1 as int)
            &&& g.minor == cs@.subrange(m.e1 + 1, m.e2 as int)
            &&& g.patch == cs@.subrange(m.e2 + 1, m.e3 as int)
            &&& (forall|j: int| m.b <= j < m.e1 ==> is_digit_char(#[trigger] cs@[j]))
            &&& (forall|j: int| m.e1 + 1 <= j < m.e2 ==> is_digit_char(#[trigger] cs@[j]))
            &&& (forall|j: int| m.e2 + 1 <= j < m.e3 ==> is_digit_char(#[trigger] cs@[j]))
            &&& m.has_build <==> g.build is Some
            &&& m.has_build ==> {
                &&& m.e3 < m.b4 <= m.e4 <= cs@.len()
                &&& g.build == Some(cs@.subrange(m.b4 as int, m.e4 as int))
            }
        },
{
    let n = cs.len();
    let b: usize = if cs[start] == 'v' && start + 1 < n && is_digit_exec(cs[start + 1]) {
        start + 1
    } else {
        start
    };
    let e1 = scan_digits(cs, b);
    proof {
        lemma_run_end_bounds(cs@, b as int, digit_pred());
    }
    if e1 == b || e1 == n || cs[e1] != '.' {
        return None;
    }
    let e2 = scan_digits(cs, e1 + 1);
    proof {
        lemma_run_end_bounds(cs@, e1 + 1, digit_pred());
    }
    if e2 == e1 + 1 || e2 == n || cs[e2] != '.' {
        return None;
    }
    let e3 = scan_digits(cs, e2 + 1);
    proof {
        lemma_run_end_bounds(cs@, e2 + 1, digit_pred());
        lemma_run_end_bounds(cs@, e3 as int, hex_pred());
        lemma_run_end_bounds(cs@, e3 as int, label_pred());
    }
    if e3 == e2 + 1 {
        return None;
    }
    if e3 < n && cs[e3] == '.' && e3 + 1 < n && is_hex_exec(cs[e3 + 1]) {
        let e4 = scan_hex(cs, e3 + 1);
        Some(MatchIndices { b, e1, e2, e3, b4: e3 + 1, e4, has_build: true })
    } else if e3 < n && cs[e3] == '.' && e3 + 1 < n && is_label_exec(cs[e3 + 1]) {
        let e4 = scan_label(cs, e3 + 1);
        Some(MatchIndices { b, e1, e2, e3, b4: e3 + 1, e4, has_build: true })
    } else {
        Some(MatchIndices { b, e1, e2, e3, b4: 0, e4: 0, has_build: false })
    }
}

/// Parse a version identifier into its numeric components and build
/// identifier, exactly as the leftmost pattern match reads them.
pub fn parse_firmware_version(firmware_version_id: &String) -> (r: Result<
    FirmwareVersion,
    FlashError,
>)
    ensures
        parse_version_spec(firmware_version_id@, r),
{
    let cs = chars_of(firmware_version_id.as_str());
    let n = cs.len();
    let mut start: usize = 0;
    while start < n
        invariant
            0 <= start <= n,
            n == cs@.len(),
            cs@ == firmware_version_id@,
            forall|k: int| 0 <= k < start ==> !matches_at(cs@, k),
        decreases n - start,
    {
        let attempt = try_match_at(&cs, start);
        match attempt {
            None => {
                start = start + 1;
            },
            Some(m) => {
                proof {
                    lemma_first_match_step(cs@, start as int);
                }
                let ghost g = match_groups(cs@, start as int);
                let major = match parse_u32_digits(&cs, m.b, m.e1) {
                    Some(v) => v,
                    None => {
                        return Err(FlashError::NumericOverflow {
                            input: firmware_version_id.clone(),
                        });
                    },
                };
                let minor = match parse_u32_digits(&cs, m.e1 + 1, m.e2) {
                    Some(v) => v,
                    None => {
                        return Err(FlashError::NumericOverflow {
                            input: firmware_version_id.clone(),
                        });
                    },
                };
                let patch = match parse_u32_digits(&cs, m.e2 + 1, m.e3) {
                    Some(v) => v,
                    None => {
                        return Err(FlashError::NumericOverflow {
                            input: firmware_version_id.clone(),
                        });
                    },
                };
                if !m.has_build {
                    return Err(FlashError::MissingBuild { input: firmware_version_id.clone() });
                }
                let hash = firmware_version_id.as_str().substring_char(m.b4, m.e4).to_owned();
                return Ok(FirmwareVersion {
                    major_version: major,
                    minor_version: minor,
                    patch_version: patch,
                    version_hash: hash,
                });
            },
        }
    }
    proof {
        lemma_first_match_step(cs@, n as int);
    }
    Err(FlashError::MalformedVersion { input: firmware_version_id.clone() })
}

/// The canonical `MAJOR.MINOR.PATCH.BUILD` rendering of a version.
pub open spec fn spec_version_string(v: FirmwareVersion) -> Seq<char> {
    dec_digits(v.major_version as nat) + seq!['.'] + dec_digits(v.minor_version as nat)
        + seq!['.'] + dec_digits(v.patch_version as nat) + seq!['.'] + v.version_hash@
}

/// Render a version back into its `MAJOR.MINOR.PATCH.BUILD` identifier.
pub fn format_firmware_version(v: &FirmwareVersion) -> (r: String)
    ensures
        r@ == spec_version_string(*v),
{
    proof {
        reveal_strlit(".");
        assert("."@ =~= seq!['.']);
    }
    let mut s = u32_to_string(v.major_version);
    s.append(".");
    let minor = u32_to_string(v.minor_version);
    s.append(minor.as_str());
    s.append(".");
    let patch = u32_to_string(v.patch_version);
    s.append(patch.as_str());
    s.append(".");
    s.append(v.version_hash.as_str());
    proof {
        assert(s@ =~= spec_version_string(*v));
    }
    s
}

/// A build identifier that the pattern reads back whole: a non-empty string
/// of hexadecimal digits, or a non-empty hyphenated lowercase label whose
/// first character is not also a hexadecimal digit (on such a build the
/// hexadecimal reading wins and stops early).
pub open spec fn valid_build_id(b: Seq<char>) -> bool {
    &&& b.len() > 0
    &&& {
        ||| forall|i: int| 0 <= i < b.len() ==> is_hex_char(#[trigger] b[i])
        ||| (forall|i: int| 0 <= i < b.len() ==> is_label_char(#[trigger] b[i])) && !is_hex_char(
            b[0],
        )
    }
}

/// Formatting a version and parsing the result recovers the version, for
/// every version whose build identifier the pattern reads back whole. With
/// the parser's contract this makes format-of-parse idempotent.
pub proof fn lemma_version_round_trip(v: FirmwareVersion)
    requires
        valid_build_id(v.version_hash@),
    ensures
        ({
            let s = spec_version_string(v);
            &&& first_match(s) == Some(0int)
            &&& !groups_overflow(match_groups(s, 0))
            &&& dec_val(match_groups(s, 0).major) == v.major_version as nat
            &&& dec_val(match_groups(s, 0).minor) == v.minor_version as nat
            &&& dec_val(match_groups(s, 0).patch) == v.patch_version as nat
            &&& match_groups(s, 0).build == Some(v.version_hash@)
        }),
{
    let s = spec_version_string(v);
    let d1 = dec_digits(v.major_version as nat);
    let d2 = dec_digits(v.minor_version as nat);
    let d3 = dec_digits(v.patch_version as nat);
    let h = v.version_hash@;
    let l1 = d1.len() as int;
    let p2 = l1 + 1 + d2.len() as int;
    let p3 = p2 + 1 + d3.len() as int;
    lemma_dec_digits_are_digits(v.major_version as nat);
    lemma_dec_digits_are_digits(v.minor_version as nat);
    lemma_dec_digits_are_digits(v.patch_version as nat);
    assert(s.len() == p3 + 1 + h.len());
    assert(forall|i: int| 0 <= i < l1 ==> s[i] == d1[i]);
    assert(s[l1] == '.');
    assert(forall|i: int| l1 + 1 <= i < p2 ==> s[i] == d2[i - (l1 + 1)]);
    assert(s[p2] == '.');
    assert(forall|i: int| p2 + 1 <= i < p3 ==> s[i] == d3[i - (p2 + 1)]);
    assert(s[p3] == '.');
    assert(forall|i: int| p3 + 1 <= i < s.len() ==> s[i] == h[i - (p3 + 1)]);

    assert(vskip(s, 0) == 0);
    lemma_run_end_exact(s, 0, l1, digit_pred());
    lemma_run_end_exact(s, l1 + 1, p2, digit_pred());
    lemma_run_end_exact(s, p2 + 1, p3, digit_pred());
    assert(matches_at(s, 0));
    assert(first_match(s) == Some(0int));

    let g = match_groups(s, 0);
    assert(g.major =~= d1);
    assert(g.minor =~= d2);
    assert(g.patch =~= d3);
    lemma_dec_val_of_dec_digits(v.major_version as nat);
    lemma_dec_val_of_dec_digits(v.minor_version as nat);
    lemma_dec_val_of_dec_digits(v.patch_version as nat);

    if forall|i: int| 0 <= i < h.len() ==> is_hex_char(#[trigger] h[i]) {
        assert(is_hex_char(s[p3 + 1]));
        lemma_run_end_exact(s, p3 + 1, s.len() as int, hex_pred());
        assert(g.build == Some(s.subrange(p3 + 1, s.len() as int)));
        assert(s.subrange(p3 + 1, s.len() as int) =~= h);
    } else {
        assert(forall|i: int| 0 <= i < h.len() ==> is_label_char(#[trigger] h[i]));
        assert(!is_hex_char(s[p3 + 1]));
        assert(is_label_char(s[p3 + 1]));
        lemma_run_end_exact(s, p3 + 1, s.len() as int, label_pred());
        assert(g.build == Some(s.subrange(p3 + 1, s.len() as int)));
        assert(s.subrange(p3 + 1, s.len() as int) =~= h);
    }
}

/// Every build identifier the parser captures is read back whole: the
/// hexadecimal reading captures a non-empty maximal hexadecimal run, and
/// the label reading a non-empty maximal label run whose first character
/// is not a hexadecimal digit.
pub proof fn lemma_captured_build_is_valid(s: Seq<char>, i: int)
    requires
        0 <= i <= s.len(),
        matches_at(s, i),
        match_groups(s, i).build is Some,
    ensures
        valid_build_id(match_groups(s, i).build.unwrap()),
{
    let b = vskip(s, i);
    let e1 = run_end(s, b, digit_pred());
    let e2 = run_end(s, e1 + 1, digit_pred());
    let e3 = run_end(s, e2 + 1, digit_pred());
    lemma_run_end_bounds(s, e2 + 1, digit_pred());
    if e3 < s.len() && s[e3] == '.' && e3 + 1 < s.len() && is_hex_char(s[e3 + 1]) {
        let e4 = run_end(s, e3 + 1, hex_pred());
        lemma_run_end_bounds(s, e3 + 1, hex_pred());
        let g = s.subrange(e3 + 1, e4);
        assert(g.len() > 0);
        assert(forall|j: int| 0 <= j < g.len() ==> is_hex_char(#[trigger] g[j])) by {
            assert(forall|j: int| 0 <= j < g.len() ==> g[j] == s[e3 + 1 + j]);
        }
    } else {
        let e4 = run_end(s, e3 + 1, label_pred());
        lemma_run_end_bounds(s, e3 + 1, label_pred());
        let g = s.subrange(e3 + 1, e4);
        assert(g.len() > 0);
        assert(forall|j: int| 0 <= j < g.len() ==> is_label_char(#[trigger] g[j])) by {
            assert(forall|j: int| 0 <= j < g.len() ==> g[j] == s[e3 + 1 + j]);
        }
        assert(!is_hex_char(g[0]));
    }
}

/// Idempotence of the parse-format pair on every input: a successful parse
/// always yields a version whose formatted string parses back to the same
/// components, with no side condition.
pub proof fn lemma_parse_result_round_trips(
    s: Seq<char>,
    r: Result<FirmwareVersion, FlashError>,
    r2: Result<FirmwareVersion, FlashError>,
)
    requires
        parse_version_spec(s, r),
        r matches Ok(v) && parse_version_spec(spec_version_string(v), r2),
    ensures
        r matches Ok(v) ==> r2 matches Ok(w) && {
            &&& w.major_version == v.major_version
            &&& w.minor_version == v.minor_version
            &&& w.patch_version == v.patch_version
            &&& w.version_hash@ == v.version_hash@
        },
{
    let v = r.unwrap();
    let i = first_match(s).unwrap();
    lemma_first_match_in_range(s, 0);
    lemma_captured_build_is_valid(s, i);
    lemma_parse_of_formatted_version(v, r2);
}

proof fn lemma_first_match_in_range(s: Seq<char>, i: int)
    requires
        0 <= i <= s.len(),
    ensures
        first_match_from(s, i) matches Some(j) ==> i <= j < s.len() && matches_at(s, j),
    decreases s.len() - i,
{
    if i < s.len() && !matches_at(s, i) {
        lemma_first_match_in_range(s, i + 1);
    }
}

/// P-style corollary: any parse result that meets the parser's contract on
/// a formatted version is `Ok` and component-wise equal to that version.
pub proof fn lemma_parse_of_formatted_version(
    v: FirmwareVersion,
    r: Result<FirmwareVersion, FlashError>,
)
    requires
        valid_build_id(v.version_hash@),
        parse_version_spec(spec_version_string(v), r),
    ensures
        r matches Ok(w) && {
            &&& w.major_version == v.major_version
            &&& w.minor_version == v.minor_version
            &&& w.patch_version == v.patch_version
            &&& w.version_hash@ == v.version_hash@
        },
{
    lemma_version_round_trip(v);
}

} // verus!
