//! Reading the medium identifier out of the text that `showmediuminfo` prints.
use vstd::prelude::*;
use vstd::string::StrSliceExecFns;
use vstd::string::StringExecFns;

verus! {

/// The pattern that finds the identifier line: `UUID:` at the start of a line,
/// blanks, then the identifier itself.
pub const UUID_LINE_PATTERN: &'static str = "(?m)^UUID:[ \\t]+[^ \\t\\r\\n]+";

/// The label that opens the identifier line.
pub const UUID_LABEL: &'static str = "UUID:";

/// What `regex::Regex::new(pattern)` followed by `find(text)` gives: `None`
/// when the pattern is refused, `Some(None)` when nothing matches, and
/// `Some(Some(m))` with the text of the leftmost match.
pub uninterp spec fn regex_first_match(pattern: Seq<char>, text: Seq<char>) -> Option<Option<Seq<char>>>;

pub open spec fn found_view(r: Option<Option<String>>) -> Option<Option<Seq<char>>> {
    match r {
        None => None,
        Some(None) => Some(None),
        Some(Some(m)) => Some(Some(m@)),
    }
}

/// Relies on `regex::Regex::new` and `regex::Regex::find` (with `Match::as_str`):
/// the leftmost match of `pattern` in `text`, which depends on the two texts alone.
#[verifier::external_body]
fn first_match(pattern: &str, text: &str) -> (r: Option<Option<String>>)
    ensures
        found_view(r) == regex_first_match(pattern@, text@),
{
    match regex::Regex::new(pattern) {
        Ok(re) => Some(re.find(text).map(|m| m.as_str().to_string())),
        Err(_) => None,
    }
}

pub open spec fn is_blank(c: char) -> bool {
    c == ' ' || c == '\t' || c == '\r' || c == '\n'
}

/// The first position at or after `i` that does not hold a blank.
pub open spec fn skip_blanks(s: Seq<char>, i: int) -> int
    decreases s.len() - i,
{
    if 0 <= i < s.len() && is_blank(s[i]) {
        skip_blanks(s, i + 1)
    } else {
        i
    }
}

/// The end of `s[lo..j]` once trailing blanks are dropped.
pub open spec fn drop_trailing_blanks(s: Seq<char>, lo: int, j: int) -> int
    decreases j - lo,
{
    if lo < j && j <= s.len() && is_blank(s[j - 1]) {
        drop_trailing_blanks(s, lo, j - 1)
    } else {
        j
    }
}

pub open spec fn has_label(s: Seq<char>) -> bool {
    s.len() >= 5 && s.subrange(0, 5) == UUID_LABEL@
}

/// The identifier held by a matched line: the label removed, then blanks
/// trimmed from both ends.
pub open spec fn medium_id_of(m: Seq<char>) -> Seq<char> {
    let start = if has_label(m) { 5int } else { 0int };
    let a = skip_blanks(m, start);
    let b = drop_trailing_blanks(m, a, m.len() as int);
    m.subrange(a, b)
}

/// The identifier that the `showmediuminfo` output `text` names, if any.
pub open spec fn medium_id_in(text: Seq<char>) -> Option<Seq<char>> {
    match regex_first_match(UUID_LINE_PATTERN@, text) {
        Some(Some(m)) => Some(medium_id_of(m)),
        _ => None,
    }
}

fn starts_with_label(s: &str) -> (r: bool)
    ensures
        r == has_label(s@),
{
    proof {
        reveal_strlit("UUID:");
    }
    let n = s.unicode_len();
    if n < 5 {
        return false;
    }
    let label = UUID_LABEL;
    let mut i: usize = 0;
    while i < 5
        invariant
            n == s@.len(),
            n >= 5,
            label@ == UUID_LABEL@,
            label@.len() == 5,
            i <= 5,
            forall|k: int| 0 <= k < i ==> s@[k] == label@[k],
        decreases 5 - i,
    {
        if s.get_char(i) != label.get_char(i) {
            assert(s@.subrange(0, 5)[i as int] != UUID_LABEL@[i as int]);
            return false;
        }
        i = i + 1;
    }
    assert(s@.subrange(0, 5) =~= UUID_LABEL@);
    true
}

/// The identifier held by a line that the identifier pattern matched:
/// `"UUID:   3f25...\n"` gives `"3f25..."`.
pub fn medium_id_from_match(m: &str) -> (r: String)
    ensures
        r@ == medium_id_of(m@),
{
    let n = m.unicode_len();
    let start: usize = if starts_with_label(m) { 5 } else { 0 };
    let mut a: usize = start;
    while a < n && is_blank_char(m.get_char(a))
        invariant
            n == m@.len(),
            start <= a <= n,
            skip_blanks(m@, a as int) == skip_blanks(m@, start as int),
        decreases n - a,
    {
        a = a + 1;
    }
    let mut b: usize = n;
    while b > a && is_blank_char(m.get_char(b - 1))
        invariant
            n == m@.len(),
            a <= b <= n,
            skip_blanks(m@, start as int) == a,
            drop_trailing_blanks(m@, a as int, b as int) == drop_trailing_blanks(m@, a as int, n as int),
        decreases b - a,
    {
        b = b - 1;
    }
    let id = m.substring_char(a, b);
    String::from_str(id)
}

fn is_blank_char(c: char) -> (r: bool)
    ensures
        r == is_blank(c),
{
    c == ' ' || c == '\t' || c == '\r' || c == '\n'
}

/// The medium identifier in the output of `showmediuminfo`: the token after
/// `UUID:` on the first line that opens with that label. `None` when no line
/// does, which means that the medium is not registered yet.
pub fn extract_medium_id(stdout: &str) -> (r: Option<String>)
    ensures
        match r {
            Some(id) => medium_id_in(stdout@) == Some(id@),
            None => medium_id_in(stdout@) is None,
        },
{
    match first_match(UUID_LINE_PATTERN, stdout) {
        Some(Some(m)) => Some(medium_id_from_match(m.as_str())),
        _ => None,
    }
}

proof fn lemma_skip_run(s: Seq<char>, i: int, e: int)
    requires
        0 <= i <= e <= s.len(),
        forall|k: int| i <= k < e ==> is_blank(#[trigger] s[k]),
        e == s.len() || !is_blank(s[e]),
    ensures
        skip_blanks(s, i) == e,
    decreases e - i,
{
    if i < e {
        lemma_skip_run(s, i + 1, e);
    }
}

proof fn lemma_drop_run(s: Seq<char>, lo: int, j: int, e: int)
    requires
        lo < e <= j <= s.len(),
        forall|k: int| e <= k < j ==> is_blank(#[trigger] s[k]),
        !is_blank(s[e - 1]),
    ensures
        drop_trailing_blanks(s, lo, j) == e,
    decreases j - e,
{
    if e < j {
        lemma_drop_run(s, lo, j - 1, e);
    }
}

/// A matched line made of the label, blanks, a token without blanks and
/// trailing blanks yields exactly that token: no label remnant and no blank
/// at either end.
pub proof fn label_and_blanks_are_stripped(blanks: Seq<char>, token: Seq<char>, trail: Seq<char>)
    requires
        forall|k: int| 0 <= k < blanks.len() ==> is_blank(#[trigger] blanks[k]),
        token.len() > 0,
        forall|k: int| 0 <= k < token.len() ==> !is_blank(#[trigger] token[k]),
        forall|k: int| 0 <= k < trail.len() ==> is_blank(#[trigger] trail[k]),
    ensures
        medium_id_of(UUID_LABEL@ + blanks + token + trail) == token,
{
    reveal_strlit("UUID:");
    let m = UUID_LABEL@ + blanks + token + trail;
    let a: int = 5 + blanks.len() as int;
    let b: int = a + token.len() as int;
    assert(m.subrange(0, 5) =~= UUID_LABEL@);
    assert forall|k: int| 5 <= k < a implies is_blank(#[trigger] m[k]) by {
        assert(m[k] == blanks[k - 5]);
    }
    assert(m[a] == token[0]);
    lemma_skip_run(m, 5, a);
    assert forall|k: int| b <= k < m.len() implies is_blank(#[trigger] m[k]) by {
        assert(m[k] == trail[k - b]);
    }
    assert(m[b - 1] == token[token.len() - 1]);
    lemma_drop_run(m, a, m.len() as int, b);
    assert(m.subrange(a, b) =~= token);
}

} // verus!
