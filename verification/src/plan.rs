//! Plan-title parsing and feature-branch slug derivation.

use vstd::prelude::*;
use crate::text::{
    chars_of, char_is_alphanumeric, char_is_whitespace, is_alphanumeric, is_whitespace,
    lowercase, push_char, str_to_lowercase, string_of_range,
};

verus! {

/// `"# "`, the marker of a level-1 heading.
pub open spec fn h1_marker() -> Seq<char> {
    seq!['#', ' ']
}

/// `"Feature:"`, the optional prefix of a plan title.
pub open spec fn feature_prefix() -> Seq<char> {
    seq!['F', 'e', 'a', 't', 'u', 'r', 'e', ':']
}

/// `"feat/"`, the prefix of every feature branch.
pub open spec fn feat_prefix() -> Seq<char> {
    seq!['f', 'e', 'a', 't', '/']
}

/// Whether `p` is a prefix of `s`.
pub open spec fn starts_with(s: Seq<char>, p: Seq<char>) -> bool {
    p.len() <= s.len() && s.subrange(0, p.len() as int) == p
}

/// The index of the first `'\n'` at or after `from`, or `s.len()` when there is none.
pub open spec fn line_end(s: Seq<char>, from: int) -> int
    decreases s.len() - from,
{
    if from >= s.len() {
        s.len() as int
    } else if s[from] == '\n' {
        from
    } else {
        line_end(s, from + 1)
    }
}

/// The line of `s` that starts at `from`, without its line ending: a `'\n'`,
/// or `"\r\n"`. A `'\r'` that no `'\n'` follows stays in the line.
pub open spec fn line_at(s: Seq<char>, from: int) -> Seq<char> {
    let end = line_end(s, from);
    let raw = s.subrange(from, end);
    if end < s.len() && raw.len() > 0 && raw.last() == '\r' {
        raw.drop_last()
    } else {
        raw
    }
}

/// A line that starts inside `s` ends inside `s`, no earlier than it starts.
pub proof fn lemma_line_end_bounds(s: Seq<char>, from: int)
    requires
        from <= s.len(),
    ensures
        from <= line_end(s, from) <= s.len(),
    decreases s.len() - from,
{
    if from < s.len() && s[from] != '\n' {
        lemma_line_end_bounds(s, from + 1);
    }
}

/// `s` without its leading whitespace.
pub open spec fn trim_start_ws(s: Seq<char>) -> Seq<char>
    decreases s.len(),
{
    if s.len() > 0 && is_whitespace(s[0]) {
        trim_start_ws(s.drop_first())
    } else {
        s
    }
}

/// `s` without its trailing whitespace.
pub open spec fn trim_end_ws(s: Seq<char>) -> Seq<char>
    decreases s.len(),
{
    if s.len() > 0 && is_whitespace(s.last()) {
        trim_end_ws(s.drop_last())
    } else {
        s
    }
}

/// `s` without leading and trailing whitespace.
pub open spec fn trim_ws(s: Seq<char>) -> Seq<char> {
    trim_end_ws(trim_start_ws(s))
}

/// The title carried by the text after `"# "`: a leading `"Feature:"` is
/// dropped, then surrounding whitespace.
pub open spec fn heading_title(rest: Seq<char>) -> Seq<char> {
    if starts_with(rest, feature_prefix()) {
        trim_ws(rest.skip(feature_prefix().len() as int))
    } else {
        trim_ws(rest)
    }
}

/// The title of the first level-1 heading among the lines of `s` that start at `from` or later.
pub open spec fn title_from(s: Seq<char>, from: int) -> Option<Seq<char>>
    decreases s.len() - from,
{
    if from >= s.len() {
        None
    } else {
        proof {
            lemma_line_end_bounds(s, from);
        }
        let line = line_at(s, from);
        if starts_with(line, h1_marker()) {
            Some(heading_title(line.skip(2)))
        } else if line_end(s, from) >= s.len() {
            None
        } else {
            title_from(s, line_end(s, from) + 1)
        }
    }
}

/// The title of the first level-1 heading of a Markdown document, if any.
pub open spec fn markdown_title(markdown: Seq<char>) -> Option<Seq<char>> {
    title_from(markdown, 0)
}

/// Replaces every run of non-alphanumeric characters of `s` by one `'-'`;
/// the flag tells whether `s` ends inside such a run.
pub open spec fn collapse_runs(s: Seq<char>) -> (Seq<char>, bool)
    decreases s.len(),
{
    if s.len() == 0 {
        (Seq::empty(), false)
    } else {
        let (prefix, in_sep) = collapse_runs(s.drop_last());
        let c = s.last();
        if is_alphanumeric(c) {
            (prefix.push(c), false)
        } else if !in_sep {
            (prefix.push('-'), true)
        } else {
            (prefix, true)
        }
    }
}

/// `s` without leading `'-'` characters.
pub open spec fn trim_start_dash(s: Seq<char>) -> Seq<char>
    decreases s.len(),
{
    if s.len() > 0 && s[0] == '-' {
        trim_start_dash(s.drop_first())
    } else {
        s
    }
}

/// `s` without trailing `'-'` characters.
pub open spec fn trim_end_dash(s: Seq<char>) -> Seq<char>
    decreases s.len(),
{
    if s.len() > 0 && s.last() == '-' {
        trim_end_dash(s.drop_last())
    } else {
        s
    }
}

/// The slug of a title: lowercased, runs of non-alphanumeric characters
/// replaced by a single `'-'`, and leading and trailing `'-'` removed.
pub open spec fn slug_of(title: Seq<char>) -> Seq<char> {
    trim_end_dash(trim_start_dash(collapse_runs(lowercase(title)).0))
}

/// The feature branch for a slug.
pub open spec fn branch_of(slug: Seq<char>) -> Seq<char> {
    feat_prefix() + slug
}

proof fn lemma_trim_start_ws_step(s: Seq<char>, a: int, hi: int)
    requires
        0 <= a < hi <= s.len(),
        is_whitespace(s[a]),
    ensures
        trim_start_ws(s.subrange(a, hi)) == trim_start_ws(s.subrange(a + 1, hi)),
{
    assert(s.subrange(a, hi).drop_first() == s.subrange(a + 1, hi));
}

proof fn lemma_trim_end_ws_step(s: Seq<char>, lo: int, b: int)
    requires
        0 <= lo < b <= s.len(),
        is_whitespace(s[b - 1]),
    ensures
        trim_end_ws(s.subrange(lo, b)) == trim_end_ws(s.subrange(lo, b - 1)),
{
    assert(s.subrange(lo, b).drop_last() == s.subrange(lo, b - 1));
}

/// The characters `chars[lo..hi]` without surrounding whitespace.
fn trimmed(chars: &Vec<char>, lo: usize, hi: usize) -> (r: String)
    requires
        lo <= hi <= chars.len(),
    ensures
        r@ == trim_ws(chars@.subrange(lo as int, hi as int)),
{
    let ghost s = chars@;
    let mut a = lo;
    while a < hi && char_is_whitespace(chars[a])
        invariant
            lo <= a <= hi <= chars.len(),
            s == chars@,
            trim_start_ws(s.subrange(lo as int, hi as int)) == trim_start_ws(
                s.subrange(a as int, hi as int),
            ),
        decreases hi - a,
    {
        proof {
            lemma_trim_start_ws_step(s, a as int, hi as int);
        }
        a += 1;
    }
    assert(trim_start_ws(s.subrange(a as int, hi as int)) == s.subrange(a as int, hi as int));
    let mut b = hi;
    while b > a && char_is_whitespace(chars[b - 1])
        invariant
            lo <= a <= b <= hi <= chars.len(),
            s == chars@,
            trim_end_ws(s.subrange(a as int, hi as int)) == trim_end_ws(
                s.subrange(a as int, b as int),
            ),
        decreases b - a,
    {
        proof {
            lemma_trim_end_ws_step(s, a as int, b as int);
        }
        b -= 1;
    }
    assert(trim_end_ws(s.subrange(a as int, b as int)) == s.subrange(a as int, b as int));
    string_of_range(chars, a, b)
}

/// `s` without leading and trailing whitespace, as `str::trim` gives it.
pub fn trim_whitespace(s: &str) -> (r: String)
    ensures
        r@ == trim_ws(s@),
{
    let chars = chars_of(s);
    let r = trimmed(&chars, 0, chars.len());
    assert(chars@.subrange(0, chars.len() as int) == s@);
    r
}

/// Whether `chars[at..]` starts with the characters of `p`.
fn has_prefix_at(chars: &Vec<char>, at: usize, end: usize, p: &Vec<char>) -> (b: bool)
    requires
        at <= end <= chars.len(),
    ensures
        b == starts_with(chars@.subrange(at as int, end as int), p@),
{
    if p.len() > end - at {
        return false;
    }
    let mut k: usize = 0;
    while k < p.len()
        invariant
            at <= end <= chars.len(),
            p.len() <= end - at,
            k <= p.len(),
            forall|j: int| 0 <= j < k ==> chars@[at + j] == p@[j],
        decreases p.len() - k,
    {
        if chars[at + k] != p[k] {
            assert(chars@.subrange(at as int, end as int).subrange(0, p.len() as int)[k as int]
                != p@[k as int]);
            return false;
        }
        k += 1;
    }
    assert(chars@.subrange(at as int, end as int).subrange(0, p.len() as int) =~= p@);
    true
}

fn feature_prefix_chars() -> (v: Vec<char>)
    ensures
        v@ == feature_prefix(),
{
    let v = vec!['F', 'e', 'a', 't', 'u', 'r', 'e', ':'];
    assert(v@ =~= feature_prefix());
    v
}

/// Extracts the text of the first level-1 Markdown heading from `markdown`.
///
/// A level-1 heading is a line that starts with `"# "`. If the extracted
/// text begins with `"Feature:"`, that prefix is stripped; the result is
/// trimmed of surrounding whitespace. Returns `None` when no such heading
/// exists.
pub fn parse_title(markdown: &str) -> (r: Option<String>)
    ensures
        match r {
            Some(t) => markdown_title(markdown@) == Some(t@),
            None => markdown_title(markdown@) is None,
        },
{
    let chars = chars_of(markdown);
    let ghost s = chars@;
    let n = chars.len();
    let feature = feature_prefix_chars();
    let mut start: usize = 0;
    while start < n
        invariant
            s == chars@,
            s == markdown@,
            n == chars.len(),
            start <= n,
            feature@ == feature_prefix(),
            markdown_title(s) == title_from(s, start as int),
        decreases n - start,
    {
        let mut end = start;
        while end < n && chars[end] != '\n'
            invariant
                start <= end <= n,
                n == chars.len(),
                s == chars@,
                line_end(s, start as int) == line_end(s, end as int),
            decreases n - end,
        {
            end += 1;
        }
        assert(line_end(s, end as int) == end);
        let line_stop = if end < n && end > start && chars[end - 1] == '\r' {
            end - 1
        } else {
            end
        };
        assert(line_at(s, start as int) =~= s.subrange(start as int, line_stop as int));
        let is_h1 = line_stop - start >= 2 && chars[start] == '#' && chars[start + 1] == ' ';
        assert(is_h1 == starts_with(s.subrange(start as int, line_stop as int), h1_marker())) by {
            if line_stop - start >= 2 {
                assert(s.subrange(start as int, line_stop as int).subrange(0, 2)[0] == s[start as int]);
                assert(s.subrange(start as int, line_stop as int).subrange(0, 2)[1] == s[start + 1]);
                if is_h1 {
                    assert(s.subrange(start as int, line_stop as int).subrange(0, 2) =~= h1_marker());
                }
            }
        }
        if is_h1 {
            let rest_start = start + 2;
            let ghost rest = s.subrange(rest_start as int, line_stop as int);
            assert(s.subrange(start as int, line_stop as int).skip(2) =~= rest);
            let title = if has_prefix_at(&chars, rest_start, line_stop, &feature) {
                assert(rest.skip(8) =~= s.subrange(rest_start + 8, line_stop as int));
                trimmed(&chars, rest_start + 8, line_stop)
            } else {
                trimmed(&chars, rest_start, line_stop)
            };
            assert(title@ == heading_title(rest));
            assert(title_from(s, start as int) == Some(heading_title(line_at(s, start as int).skip(2))));
            return Some(title);
        }
        if end == n {
            start = n;
        } else {
            start = end + 1;
        }
    }
    None
}

proof fn lemma_collapse_step(s: Seq<char>, i: int)
    requires
        0 <= i < s.len(),
    ensures
        collapse_runs(s.take(i + 1)) == ({
            let (prefix, in_sep) = collapse_runs(s.take(i));
            let c = s[i];
            if is_alphanumeric(c) {
                (prefix.push(c), false)
            } else if !in_sep {
                (prefix.push('-'), true)
            } else {
                (prefix, true)
            }
        }),
{
    assert(s.take(i + 1).drop_last() == s.take(i));
}

proof fn lemma_trim_start_dash_step(s: Seq<char>, a: int, hi: int)
    requires
        0 <= a < hi <= s.len(),
        s[a] == '-',
    ensures
        trim_start_dash(s.subrange(a, hi)) == trim_start_dash(s.subrange(a + 1, hi)),
{
    assert(s.subrange(a, hi).drop_first() == s.subrange(a + 1, hi));
}

proof fn lemma_trim_end_dash_step(s: Seq<char>, lo: int, b: int)
    requires
        0 <= lo < b <= s.len(),
        s[b - 1] == '-',
    ensures
        trim_end_dash(s.subrange(lo, b)) == trim_end_dash(s.subrange(lo, b - 1)),
{
    assert(s.subrange(lo, b).drop_last() == s.subrange(lo, b - 1));
}

/// Converts `title` into a URL-safe slug.
///
/// The title is lowercased, every run of non-alphanumeric characters is
/// replaced with a single `'-'`, and leading/trailing `'-'` characters are
/// trimmed.
pub fn slugify(title: &str) -> (r: String)
    ensures
        r@ == slug_of(title@),
{
    let lower = str_to_lowercase(title);
    let chars = chars_of(lower.as_str());
    let ghost s = chars@;
    let mut out: Vec<char> = Vec::new();
    let mut in_sep = false;
    let mut i: usize = 0;
    while i < chars.len()
        invariant
            s == chars@,
            s == lowercase(title@),
            i <= chars.len(),
            (out@, in_sep) == collapse_runs(s.take(i as int)),
        decreases chars.len() - i,
    {
        let ch = chars[i];
        proof {
            lemma_collapse_step(s, i as int);
        }
        if char_is_alphanumeric(ch) {
            out.push(ch);
            in_sep = false;
        } else if !in_sep {
            out.push('-');
            in_sep = true;
        }
        i += 1;
    }
    assert(s.take(chars.len() as int) == s);
    let ghost c = out@;
    let hi = out.len();
    let mut a: usize = 0;
    while a < hi && out[a] == '-'
        invariant
            a <= hi == out.len(),
            c == out@,
            trim_start_dash(c.subrange(0, hi as int)) == trim_start_dash(
                c.subrange(a as int, hi as int),
            ),
        decreases hi - a,
    {
        proof {
            lemma_trim_start_dash_step(c, a as int, hi as int);
        }
        a += 1;
    }
    assert(trim_start_dash(c.subrange(a as int, hi as int)) == c.subrange(a as int, hi as int));
    let mut b = hi;
    while b > a && out[b - 1] == '-'
        invariant
            a <= b <= hi == out.len(),
            c == out@,
            trim_end_dash(c.subrange(a as int, hi as int)) == trim_end_dash(
                c.subrange(a as int, b as int),
            ),
        decreases b - a,
    {
        proof {
            lemma_trim_end_dash_step(c, a as int, b as int);
        }
        b -= 1;
    }
    assert(trim_end_dash(c.subrange(a as int, b as int)) == c.subrange(a as int, b as int));
    assert(c.subrange(0, hi as int) == c);
    string_of_range(&out, a, b)
}

/// Returns the feature branch name for `slug`: always `"feat/<slug>"`.
pub fn branch_name(slug: &str) -> (r: String)
    ensures
        r@ == branch_of(slug@),
{
    let mut r = String::new();
    push_char(&mut r, 'f');
    push_char(&mut r, 'e');
    push_char(&mut r, 'a');
    push_char(&mut r, 't');
    push_char(&mut r, '/');
    assert(r@ =~= feat_prefix());
    r.append(slug);
    r
}

} // verus!

verus! {

proof fn lemma_trim_start_dash_first(s: Seq<char>)
    ensures
        trim_start_dash(s).len() > 0 ==> trim_start_dash(s)[0] != '-',
        trim_start_dash(s).len() <= s.len(),
        trim_start_dash(s) == s.skip(s.len() - trim_start_dash(s).len()),
    decreases s.len(),
{
    if s.len() > 0 && s[0] == '-' {
        lemma_trim_start_dash_first(s.drop_first());
        assert(s.drop_first().skip(s.drop_first().len() - trim_start_dash(s).len()) =~= s.skip(
            s.len() - trim_start_dash(s).len(),
        ));
    } else {
        assert(s.skip(0) =~= s);
    }
}

proof fn lemma_trim_end_dash_last(s: Seq<char>)
    ensures
        trim_end_dash(s).len() > 0 ==> trim_end_dash(s).last() != '-',
        trim_end_dash(s) == s.take(trim_end_dash(s).len() as int),
        trim_end_dash(s).len() <= s.len(),
    decreases s.len(),
{
    if s.len() > 0 && s.last() == '-' {
        lemma_trim_end_dash_last(s.drop_last());
        assert(s.drop_last().take(trim_end_dash(s).len() as int) =~= s.take(
            trim_end_dash(s).len() as int,
        ));
    } else {
        assert(s.take(s.len() as int) =~= s);
    }
}

/// A slug never starts or ends with `'-'`.
pub proof fn lemma_slug_edges(title: Seq<char>)
    ensures
        slug_of(title).len() > 0 ==> slug_of(title)[0] != '-' && slug_of(title).last() != '-',
{
    let c = collapse_runs(lowercase(title)).0;
    let a = trim_start_dash(c);
    lemma_trim_start_dash_first(c);
    lemma_trim_end_dash_last(a);
    let b = trim_end_dash(a);
    if b.len() > 0 {
        assert(b[0] == a[0]);
    }
}

/// Whether every character of `s` is alphanumeric or `'-'`, and no two
/// neighbouring characters are both not alphanumeric.
pub open spec fn dashed_words(s: Seq<char>) -> bool {
    &&& forall|i: int| 0 <= i < s.len() ==> is_alphanumeric(#[trigger] s[i]) || s[i] == '-'
    &&& forall|i: int|
        0 <= i < s.len() - 1 ==> is_alphanumeric(#[trigger] s[i]) || is_alphanumeric(s[i + 1])
}

proof fn lemma_collapse_shape(s: Seq<char>)
    ensures
        dashed_words(collapse_runs(s).0),
        collapse_runs(s).1 ==> collapse_runs(s).0.len() > 0 && collapse_runs(s).0.last() == '-',
        !collapse_runs(s).1 ==> collapse_runs(s).0.len() == 0 || is_alphanumeric(
            collapse_runs(s).0.last(),
        ),
    decreases s.len(),
{
    if s.len() > 0 {
        lemma_collapse_shape(s.drop_last());
        let (o, sep) = collapse_runs(s.drop_last());
        let o2 = collapse_runs(s).0;
        assert forall|i: int| 0 <= i < o2.len() implies is_alphanumeric(#[trigger] o2[i])
            || o2[i] == '-' by {
            if i < o.len() {
                assert(o2[i] == o[i]);
            }
        }
        assert forall|i: int| 0 <= i < o2.len() - 1 implies is_alphanumeric(#[trigger] o2[i])
            || is_alphanumeric(o2[i + 1]) by {
            if i + 1 < o.len() {
                assert(o2[i] == o[i] && o2[i + 1] == o[i + 1]);
            } else {
                assert(o2[i] == o.last());
            }
        }
    }
}

proof fn lemma_collapse_fixed(s: Seq<char>)
    requires
        dashed_words(s),
        s.len() > 0 ==> s[0] != '-',
    ensures
        collapse_runs(s) == (s, s.len() > 0 && !is_alphanumeric(s.last())),
    decreases s.len(),
{
    if s.len() > 0 {
        let p = s.drop_last();
        assert forall|i: int| 0 <= i < p.len() implies is_alphanumeric(#[trigger] p[i]) || p[i]
            == '-' by {
            assert(p[i] == s[i]);
        }
        assert forall|i: int| 0 <= i < p.len() - 1 implies is_alphanumeric(#[trigger] p[i])
            || is_alphanumeric(p[i + 1]) by {
            assert(p[i] == s[i] && p[i + 1] == s[i + 1]);
        }
        if p.len() > 0 {
            assert(p[0] == s[0]);
        }
        lemma_collapse_fixed(p);
        let c = s.last();
        if !is_alphanumeric(c) {
            assert(is_alphanumeric(s[s.len() - 1]) || s[s.len() - 1] == '-');
            if p.len() > 0 {
                assert(is_alphanumeric(s[s.len() - 2]) || is_alphanumeric(s[s.len() - 1]));
                assert(p.last() == s[s.len() - 2]);
            }
        }
        assert(p.push(c) =~= s);
    }
}

proof fn lemma_dashed_words_subrange(s: Seq<char>, a: int, b: int)
    requires
        dashed_words(s),
        0 <= a <= b <= s.len(),
    ensures
        dashed_words(s.subrange(a, b)),
{
    let t = s.subrange(a, b);
    assert forall|i: int| 0 <= i < t.len() implies is_alphanumeric(#[trigger] t[i]) || t[i]
        == '-' by {
        assert(t[i] == s[a + i]);
    }
    assert forall|i: int| 0 <= i < t.len() - 1 implies is_alphanumeric(#[trigger] t[i])
        || is_alphanumeric(t[i + 1]) by {
        assert(t[i] == s[a + i] && t[i + 1] == s[a + i + 1]);
    }
}

/// A slug whose lowercase mapping leaves it as it is slugs to itself: for
/// such titles, slugifying twice gives what slugifying once gives. (Whether
/// `str::to_lowercase` leaves every slug as it is, std does not say.)
pub proof fn lemma_slug_fixed_under_lowercase(title: Seq<char>)
    requires
        lowercase(slug_of(title)) == slug_of(title),
    ensures
        slug_of(slug_of(title)) == slug_of(title),
{
    let o = collapse_runs(lowercase(title)).0;
    lemma_collapse_shape(lowercase(title));
    let a = trim_start_dash(o);
    lemma_trim_start_dash_first(o);
    assert(a == o.subrange(o.len() - a.len(), o.len() as int));
    lemma_dashed_words_subrange(o, o.len() - a.len(), o.len() as int);
    let b = trim_end_dash(a);
    lemma_trim_end_dash_last(a);
    assert(b == a.subrange(0, b.len() as int));
    lemma_dashed_words_subrange(a, 0, b.len() as int);
    lemma_slug_edges(title);
    assert(b == slug_of(title));
    lemma_collapse_fixed(b);
    if b.len() > 0 {
        assert(trim_start_dash(b) == b);
        assert(trim_end_dash(b) == b);
    }
}

/// Every feature branch is `"feat/"` followed by the slug, so it is never
/// the trunk `"main"`.
pub proof fn lemma_branch_is_feature(slug: Seq<char>)
    ensures
        branch_of(slug).subrange(0, 5) == feat_prefix(),
        branch_of(slug) != seq!['m', 'a', 'i', 'n'],
{
    assert(branch_of(slug).subrange(0, 5) =~= feat_prefix());
    if branch_of(slug) == seq!['m', 'a', 'i', 'n'] {
        assert(branch_of(slug)[0] == 'f');
    }
}

} // verus!
