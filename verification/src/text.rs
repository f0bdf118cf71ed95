//! Character-sequence primitives shared by the text-processing nodes.
//!
//! Strings are modelled by their `Seq<char>` views. Whitespace is the short
//! Unicode `White_Space` list; the other character classes, which std
//! computes from its tables, are named here and reached through one small
//! wrapper each.

use vstd::prelude::*;

verus! {

broadcast use vstd::string::group_string_axioms;

// ---------------------------------------------------------------------------
// Unicode facts supplied by std
// ---------------------------------------------------------------------------

/// The Unicode `White_Space` property (PropList.txt), which is what
/// `char::is_whitespace` reports.
pub open spec fn spec_is_whitespace(c: char) -> bool {
    ||| c == '\t' || c == '\n' || c == '\u{0B}' || c == '\u{0C}' || c == '\r' || c == ' '
    ||| c == '\u{85}' || c == '\u{A0}' || c == '\u{1680}'
    ||| ('\u{2000}' <= c && c <= '\u{200A}')
    ||| c == '\u{2028}' || c == '\u{2029}' || c == '\u{202F}' || c == '\u{205F}'
    ||| c == '\u{3000}'
}

/// What `char::is_alphanumeric` returns (Unicode `Alphabetic` or `Numeric`).
pub uninterp spec fn spec_is_alphanumeric(c: char) -> bool;

/// What `char::is_alphabetic` returns (Unicode `Alphabetic`).
pub uninterp spec fn spec_is_alphabetic(c: char) -> bool;

/// What `char::is_lowercase` returns (Unicode `Lowercase`).
pub uninterp spec fn spec_is_lowercase(c: char) -> bool;

/// The characters that `char::to_uppercase` yields.
pub uninterp spec fn spec_to_uppercase(c: char) -> Seq<char>;

/// The characters of `str::to_lowercase` applied to a string.
pub uninterp spec fn spec_to_lowercase(s: Seq<char>) -> Seq<char>;

/// Whether `c` has the `White_Space` property, as `char::is_whitespace`.
pub(crate) fn is_whitespace(c: char) -> (r: bool)
    ensures
        r == spec_is_whitespace(c),
{
    c == '\t' || c == '\n' || c == '\u{0B}' || c == '\u{0C}' || c == '\r' || c == ' '
        || c == '\u{85}' || c == '\u{A0}' || c == '\u{1680}'
        || ('\u{2000}' <= c && c <= '\u{200A}')
        || c == '\u{2028}' || c == '\u{2029}' || c == '\u{202F}' || c == '\u{205F}'
        || c == '\u{3000}'
}

/// Calls `char::is_alphanumeric`; the result is named by `spec_is_alphanumeric`.
#[verifier::external_body]
pub(crate) fn is_alphanumeric(c: char) -> (r: bool)
    ensures
        r == spec_is_alphanumeric(c),
{
    c.is_alphanumeric()
}

/// Calls `char::is_alphabetic`; the result is named by `spec_is_alphabetic`.
#[verifier::external_body]
pub(crate) fn is_alphabetic(c: char) -> (r: bool)
    ensures
        r == spec_is_alphabetic(c),
{
    c.is_alphabetic()
}

/// Calls `char::is_lowercase`; the result is named by `spec_is_lowercase`.
#[verifier::external_body]
pub(crate) fn is_lowercase(c: char) -> (r: bool)
    ensures
        r == spec_is_lowercase(c),
{
    c.is_lowercase()
}

/// Calls `char::to_uppercase` and collects the characters it yields: the
/// uppercase mapping, which std documents as one or more characters.
#[verifier::external_body]
pub(crate) fn to_uppercase(c: char) -> (r: Vec<char>)
    ensures
        r@ == spec_to_uppercase(c),
        r@.len() > 0,
{
    c.to_uppercase().collect()
}

/// Calls `str::to_lowercase` on the string made of `s`; the result's
/// characters are named by `spec_to_lowercase`.
#[verifier::external_body]
pub(crate) fn to_lowercase(s: &[char]) -> (r: Vec<char>)
    ensures
        r@ == spec_to_lowercase(s@),
{
    s.iter().collect::<String>().to_lowercase().chars().collect()
}

/// Builds a `String` from its characters (`FromIterator<char>`).
#[verifier::external_body]
pub(crate) fn string_from_chars(v: &[char]) -> (r: String)
    ensures
        r@ == v@,
{
    v.iter().collect()
}

/// An owned copy of a string slice.
pub(crate) fn copy_str(s: &str) -> (r: String)
    ensures
        r@ == s@,
{
    string_from_chars(chars_of(s).as_slice())
}

/// The characters of a string slice.
pub fn chars_of(s: &str) -> (v: Vec<char>)
    ensures
        v@ == s@,
{
    let mut v: Vec<char> = Vec::new();
    for c in it: s.chars()
        invariant
            it.seq() == s@,
            v@ == it.seq().take(it.index()),
    {
        v.push(c);
    }
    v
}


// ---------------------------------------------------------------------------
// Specifications of the sequence operations
// ---------------------------------------------------------------------------

/// Drops leading characters that satisfy `p` (`trim_start_matches`).
pub open spec fn trim_front(s: Seq<char>, p: spec_fn(char) -> bool) -> Seq<char>
    decreases s.len(),
{
    if s.len() > 0 && p(s[0]) {
        trim_front(s.drop_first(), p)
    } else {
        s
    }
}

/// Drops trailing characters that satisfy `p` (`trim_end_matches`).
pub open spec fn trim_back(s: Seq<char>, p: spec_fn(char) -> bool) -> Seq<char>
    decreases s.len(),
{
    if s.len() > 0 && p(s.last()) {
        trim_back(s.drop_last(), p)
    } else {
        s
    }
}

/// Drops leading and trailing characters that satisfy `p` (`trim_matches`).
pub open spec fn trim_by(s: Seq<char>, p: spec_fn(char) -> bool) -> Seq<char> {
    trim_back(trim_front(s, p), p)
}

pub open spec fn ws_pred() -> spec_fn(char) -> bool {
    |c: char| spec_is_whitespace(c)
}

pub open spec fn non_alnum_pred() -> spec_fn(char) -> bool {
    |c: char| !spec_is_alphanumeric(c)
}

/// `str::trim`: leading and trailing whitespace removed.
pub open spec fn trim(s: Seq<char>) -> Seq<char> {
    trim_by(s, ws_pred())
}

/// One left-to-right step over whitespace-separated words: the words
/// completed so far and the word in progress.
pub open spec fn ws_scan(s: Seq<char>) -> (Seq<Seq<char>>, Seq<char>)
    decreases s.len(),
{
    if s.len() == 0 {
        (seq![], seq![])
    } else {
        let (words, cur) = ws_scan(s.drop_last());
        let c = s.last();
        if spec_is_whitespace(c) {
            if cur.len() > 0 {
                (words.push(cur), seq![])
            } else {
                (words, seq![])
            }
        } else {
            (words, cur.push(c))
        }
    }
}

/// `str::split_whitespace`: the maximal runs of non-whitespace characters.
pub open spec fn split_ws(s: Seq<char>) -> Seq<Seq<char>> {
    let (words, cur) = ws_scan(s);
    if cur.len() > 0 {
        words.push(cur)
    } else {
        words
    }
}

/// The words joined by single spaces (`[&str]::join(" ")`).
pub open spec fn join_space(ws: Seq<Seq<char>>) -> Seq<char>
    decreases ws.len(),
{
    if ws.len() == 0 {
        seq![]
    } else if ws.len() == 1 {
        ws[0]
    } else {
        join_space(ws.drop_last()) + seq![' '] + ws.last()
    }
}

/// Upper-cases the first character when it is an alphabetic lower-case letter.
pub open spec fn capitalize(s: Seq<char>) -> Seq<char> {
    if s.len() > 0 && spec_is_alphabetic(s[0]) && spec_is_lowercase(s[0]) {
        spec_to_uppercase(s[0]) + s.drop_first()
    } else {
        s
    }
}

pub open spec fn is_terminal(c: char) -> bool {
    c == '.' || c == '?' || c == '!'
}

/// Appends '.' unless the text already ends with '.', '?' or '!'.
pub open spec fn punctuate(s: Seq<char>) -> Seq<char> {
    if s.len() > 0 && is_terminal(s.last()) {
        s
    } else {
        s.push('.')
    }
}

/// `char::to_ascii_lowercase`.
pub open spec fn ascii_lower_char(c: char) -> char {
    if 'A' <= c && c <= 'Z' {
        ((c as u32) + 32) as char
    } else {
        c
    }
}

/// `str::to_ascii_lowercase`.
pub open spec fn ascii_lower(s: Seq<char>) -> Seq<char> {
    s.map_values(|c: char| ascii_lower_char(c))
}

/// `char::len_utf8`.
pub open spec fn utf8_width(c: char) -> nat {
    if (c as u32) < 0x80 {
        1
    } else if (c as u32) < 0x800 {
        2
    } else if (c as u32) < 0x10000 {
        3
    } else {
        4
    }
}

/// Number of bytes of the UTF-8 encoding (`str::len`).
pub open spec fn utf8_len(s: Seq<char>) -> nat
    decreases s.len(),
{
    if s.len() == 0 {
        0
    } else {
        utf8_len(s.drop_last()) + utf8_width(s.last())
    }
}

/// The views of a sequence of character vectors.
pub open spec fn seqs_of(v: Seq<Vec<char>>) -> Seq<Seq<char>> {
    v.map_values(|x: Vec<char>| x@)
}

/// The views of a sequence of strings.
pub open spec fn strings_of(v: Seq<String>) -> Seq<Seq<char>> {
    v.map_values(|x: String| x@)
}

// ---------------------------------------------------------------------------
// Lemmas
// ---------------------------------------------------------------------------

pub proof fn lemma_trim_front_skip(s: Seq<char>, p: spec_fn(char) -> bool, i: int)
    requires
        0 <= i <= s.len(),
        forall|k: int| 0 <= k < i ==> p(#[trigger] s[k]),
        i == s.len() || !p(s[i]),
    ensures
        trim_front(s, p) == s.skip(i),
    decreases i,
{
    if i == 0 {
        assert(s.skip(0) =~= s);
    } else {
        assert(p(s[0]));
        let t = s.drop_first();
        assert forall|k: int| 0 <= k < i - 1 implies p(#[trigger] t[k]) by {
            assert(t[k] == s[k + 1]);
        }
        lemma_trim_front_skip(t, p, i - 1);
        assert(t.skip(i - 1) =~= s.skip(i));
    }
}

pub proof fn lemma_trim_back_take(s: Seq<char>, p: spec_fn(char) -> bool, j: int)
    requires
        0 <= j <= s.len(),
        forall|k: int| j <= k < s.len() ==> p(#[trigger] s[k]),
        j == 0 || !p(s[j - 1]),
    ensures
        trim_back(s, p) == s.take(j),
    decreases s.len() - j,
{
    if j == s.len() {
        assert(s.take(j) =~= s);
    } else {
        assert(p(s.last()));
        let t = s.drop_last();
        assert forall|k: int| j <= k < t.len() implies p(#[trigger] t[k]) by {
            assert(t[k] == s[k]);
        }
        lemma_trim_back_take(t, p, j);
        assert(t.take(j) =~= s.take(j));
    }
}

/// The result of `trim_front` is a suffix that is empty or starts with a
/// character outside `p`.
pub proof fn lemma_trim_front_shape(s: Seq<char>, p: spec_fn(char) -> bool)
    ensures
        trim_front(s, p).len() <= s.len(),
        trim_front(s, p) == s.skip(s.len() - trim_front(s, p).len()),
        trim_front(s, p).len() == 0 || !p(trim_front(s, p)[0]),
    decreases s.len(),
{
    if s.len() > 0 && p(s[0]) {
        lemma_trim_front_shape(s.drop_first(), p);
        let r = trim_front(s.drop_first(), p);
        assert(s.drop_first().skip(s.drop_first().len() - r.len()) =~= s.skip(s.len() - r.len()));
    } else {
        assert(s.skip(0) =~= s);
    }
}

/// The result of `trim_back` is a prefix that is empty or ends with a
/// character outside `p`.
pub proof fn lemma_trim_back_shape(s: Seq<char>, p: spec_fn(char) -> bool)
    ensures
        trim_back(s, p).len() <= s.len(),
        trim_back(s, p) == s.take(trim_back(s, p).len() as int),
        trim_back(s, p).len() == 0 || !p(trim_back(s, p).last()),
    decreases s.len(),
{
    if s.len() > 0 && p(s.last()) {
        lemma_trim_back_shape(s.drop_last(), p);
        let r = trim_back(s.drop_last(), p);
        assert(s.drop_last().take(r.len() as int) =~= s.take(r.len() as int));
    } else {
        assert(s.take(s.len() as int) =~= s);
    }
}

/// Trimming twice is trimming once.
pub proof fn lemma_trim_by_idempotent(s: Seq<char>, p: spec_fn(char) -> bool)
    ensures
        trim_by(trim_by(s, p), p) == trim_by(s, p),
{
    let u = trim_front(s, p);
    lemma_trim_front_shape(s, p);
    lemma_trim_back_shape(u, p);
    let v = trim_back(u, p);
    if v.len() > 0 {
        assert(v[0] == u[0]);
        assert(trim_front(v, p) == v);
        assert(trim_back(v, p) == v);
    } else {
        assert(trim_front(v, p) == v);
        assert(trim_back(v, p) == v);
    }
}

// ---------------------------------------------------------------------------
// Executable operations
// ---------------------------------------------------------------------------

/// Characters `s[from..to]`.
pub fn slice_chars(s: &Vec<char>, from: usize, to: usize) -> (r: Vec<char>)
    requires
        from <= to <= s.len(),
    ensures
        r@ == s@.subrange(from as int, to as int),
{
    let mut r: Vec<char> = Vec::new();
    let mut i = from;
    while i < to
        invariant
            from <= i <= to <= s.len(),
            r@ == s@.subrange(from as int, i as int),
        decreases to - i,
    {
        r.push(s[i]);
        i += 1;
        assert(r@ =~= s@.subrange(from as int, i as int));
    }
    r
}

/// `str::trim` on a character vector.
pub fn trim_chars(s: &Vec<char>) -> (r: Vec<char>)
    ensures
        r@ == trim(s@),
{
    let n = s.len();
    let mut i: usize = 0;
    while i < n && is_whitespace(s[i])
        invariant
            0 <= i <= n == s.len(),
            forall|k: int| 0 <= k < i ==> spec_is_whitespace(#[trigger] s@[k]),
        decreases n - i,
    {
        i += 1;
    }
    proof {
        lemma_trim_front_skip(s@, ws_pred(), i as int);
    }
    let ghost u = s@.skip(i as int);
    let mut j: usize = n;
    while j > i && is_whitespace(s[j - 1])
        invariant
            i <= j <= n == s.len(),
            u == s@.skip(i as int),
            forall|k: int| j <= k < n ==> spec_is_whitespace(#[trigger] s@[k]),
        decreases j - i,
    {
        j -= 1;
    }
    proof {
        assert forall|k: int| (j - i) <= k < u.len() implies ws_pred()(#[trigger] u[k]) by {
            assert(u[k] == s@[k + i]);
        }
        if j > i {
            assert(u[j - i - 1] == s@[j - 1]);
        }
        lemma_trim_back_take(u, ws_pred(), (j - i) as int);
        assert(u.take((j - i) as int) =~= s@.subrange(i as int, j as int));
    }
    slice_chars(s, i, j)
}

/// `trim_matches(|c| !c.is_alphanumeric())` on a character vector.
pub fn trim_non_alnum(s: &Vec<char>) -> (r: Vec<char>)
    ensures
        r@ == trim_by(s@, non_alnum_pred()),
{
    let n = s.len();
    let mut i: usize = 0;
    while i < n && !is_alphanumeric(s[i])
        invariant
            0 <= i <= n == s.len(),
            forall|k: int| 0 <= k < i ==> !spec_is_alphanumeric(#[trigger] s@[k]),
        decreases n - i,
    {
        i += 1;
    }
    proof {
        lemma_trim_front_skip(s@, non_alnum_pred(), i as int);
    }
    let ghost u = s@.skip(i as int);
    let mut j: usize = n;
    while j > i && !is_alphanumeric(s[j - 1])
        invariant
            i <= j <= n == s.len(),
            u == s@.skip(i as int),
            forall|k: int| j <= k < n ==> !spec_is_alphanumeric(#[trigger] s@[k]),
        decreases j - i,
    {
        j -= 1;
    }
    proof {
        assert forall|k: int| (j - i) <= k < u.len() implies non_alnum_pred()(#[trigger] u[k]) by {
            assert(u[k] == s@[k + i]);
        }
        if j > i {
            assert(u[j - i - 1] == s@[j - 1]);
        }
        lemma_trim_back_take(u, non_alnum_pred(), (j - i) as int);
        assert(u.take((j - i) as int) =~= s@.subrange(i as int, j as int));
    }
    slice_chars(s, i, j)
}

/// Equality of two character sequences.
pub fn chars_eq(a: &[char], b: &[char]) -> (r: bool)
    ensures
        r == (a@ == b@),
{
    if a.len() != b.len() {
        return false;
    }
    let mut i: usize = 0;
    while i < a.len()
        invariant
            a.len() == b.len(),
            0 <= i <= a.len(),
            forall|k: int| 0 <= k < i ==> a@[k] == b@[k],
        decreases a.len() - i,
    {
        if a[i] != b[i] {
            return false;
        }
        i += 1;
    }
    assert(a@ =~= b@);
    true
}

/// Whether `w` occurs in `list`.
pub fn contains_chars(list: &Vec<Vec<char>>, w: &Vec<char>) -> (r: bool)
    ensures
        r == seqs_of(list@).contains(w@),
{
    let mut i: usize = 0;
    while i < list.len()
        invariant
            0 <= i <= list.len(),
            forall|k: int| 0 <= k < i ==> list@[k]@ != w@,
        decreases list.len() - i,
    {
        if chars_eq(list[i].as_slice(), w.as_slice()) {
            assert(seqs_of(list@)[i as int] == w@);
            return true;
        }
        i += 1;
    }
    proof {
        if seqs_of(list@).contains(w@) {
            let k = choose|k: int| 0 <= k < seqs_of(list@).len() && seqs_of(list@)[k] == w@;
            assert(list@[k]@ == w@);
        }
    }
    false
}

/// `str::split_whitespace` on a character vector.
pub fn split_whitespace(s: &Vec<char>) -> (r: Vec<Vec<char>>)
    ensures
        seqs_of(r@) == split_ws(s@),
{
    let mut words: Vec<Vec<char>> = Vec::new();
    let mut cur: Vec<char> = Vec::new();
    let mut i: usize = 0;
    while i < s.len()
        invariant
            0 <= i <= s.len(),
            (seqs_of(words@), cur@) == ws_scan(s@.take(i as int)),
        decreases s.len() - i,
    {
        let c = s[i];
        let ghost pre = s@.take(i as int);
        assert(s@.take(i + 1).drop_last() =~= pre);
        assert(s@.take(i + 1).last() == c);
        if is_whitespace(c) {
            if cur.len() > 0 {
                let done = cur;
                cur = Vec::new();
                proof {
                    assert(seqs_of(words@.push(done)) =~= seqs_of(words@).push(done@));
                }
                words.push(done);
            } else {
                cur = Vec::new();
            }
            assert(cur@ =~= Seq::<char>::empty());
        } else {
            cur.push(c);
        }
        i += 1;
    }
    assert(s@.take(s.len() as int) =~= s@);
    if cur.len() > 0 {
        proof {
            assert(seqs_of(words@.push(cur)) =~= seqs_of(words@).push(cur@));
        }
        words.push(cur);
    }
    words
}

/// Joins words with single spaces.
pub fn join_with_space(ws: &Vec<Vec<char>>) -> (r: Vec<char>)
    ensures
        r@ == join_space(seqs_of(ws@)),
{
    let mut out: Vec<char> = Vec::new();
    let mut i: usize = 0;
    while i < ws.len()
        invariant
            0 <= i <= ws.len(),
            out@ == join_space(seqs_of(ws@).take(i as int)),
        decreases ws.len() - i,
    {
        let ghost before = out@;
        let ghost t = seqs_of(ws@).take(i + 1);
        assert(t.drop_last() =~= seqs_of(ws@).take(i as int));
        assert(t.last() == ws@[i as int]@);
        if i > 0 {
            out.push(' ');
        }
        let w = &ws[i];
        let mut k: usize = 0;
        let ghost mid = out@;
        while k < w.len()
            invariant
                0 <= k <= w.len(),
                out@ == mid + w@.take(k as int),
            decreases w.len() - k,
        {
            out.push(w[k]);
            k += 1;
            assert(out@ =~= mid + w@.take(k as int));
        }
        assert(w@.take(w.len() as int) =~= w@);
        if i == 0 {
            assert(before =~= Seq::<char>::empty());
            assert(out@ =~= t[0]);
        } else {
            assert(out@ =~= join_space(t.drop_last()) + seq![' '] + t.last());
        }
        i += 1;
    }
    assert(seqs_of(ws@).take(ws.len() as int) =~= seqs_of(ws@));
    out
}

/// Upper-cases the first character when it is an alphabetic lower-case letter.
pub fn capitalize_chars(s: Vec<char>) -> (r: Vec<char>)
    ensures
        r@ == capitalize(s@),
{
    if s.len() > 0 && is_alphabetic(s[0]) && is_lowercase(s[0]) {
        let mut out = to_uppercase(s[0]);
        let ghost up = out@;
        let mut k: usize = 1;
        while k < s.len()
            invariant
                1 <= k <= s.len(),
                out@ == up + s@.subrange(1, k as int),
            decreases s.len() - k,
        {
            out.push(s[k]);
            k += 1;
            assert(out@ =~= up + s@.subrange(1, k as int));
        }
        assert(s@.subrange(1, s.len() as int) =~= s@.drop_first());
        out
    } else {
        s
    }
}

/// Appends '.' unless the text already ends with terminal punctuation.
pub fn punctuate_chars(s: Vec<char>) -> (r: Vec<char>)
    ensures
        r@ == punctuate(s@),
{
    let mut s = s;
    if s.len() > 0 && (s[s.len() - 1] == '.' || s[s.len() - 1] == '?' || s[s.len() - 1] == '!') {
        s
    } else {
        s.push('.');
        s
    }
}

/// `str::to_ascii_lowercase` on a character vector.
pub fn ascii_lower_chars(s: &Vec<char>) -> (r: Vec<char>)
    ensures
        r@ == ascii_lower(s@),
{
    let mut out: Vec<char> = Vec::new();
    let mut i: usize = 0;
    while i < s.len()
        invariant
            0 <= i <= s.len(),
            out@ == ascii_lower(s@.take(i as int)),
        decreases s.len() - i,
    {
        let c = s[i];
        let l = if 'A' <= c && c <= 'Z' {
            ((c as u8) + 32) as char
        } else {
            c
        };
        assert(l == ascii_lower_char(c));
        out.push(l);
        i += 1;
        assert(out@ =~= ascii_lower(s@.take(i as int)));
    }
    assert(s@.take(s.len() as int) =~= s@);
    out
}

/// Whether the UTF-8 encoding of `s` is longer than `limit` bytes.
pub fn utf8_len_exceeds(s: &Vec<char>, limit: usize) -> (r: bool)
    ensures
        r == (utf8_len(s@) > limit),
{
    let mut total: usize = 0;
    let mut i: usize = 0;
    while i < s.len()
        invariant
            0 <= i <= s.len(),
            total == utf8_len(s@.take(i as int)),
            total <= limit,
        decreases s.len() - i,
    {
        let c = s[i];
        let w: usize = if (c as u32) < 0x80 {
            1
        } else if (c as u32) < 0x800 {
            2
        } else if (c as u32) < 0x10000 {
            3
        } else {
            4
        };
        assert(s@.take(i + 1).drop_last() =~= s@.take(i as int));
        if w > limit - total {
            proof {
                lemma_utf8_len_monotone(s@, i + 1);
            }
            return true;
        }
        total = total + w;
        i += 1;
    }
    assert(s@.take(s.len() as int) =~= s@);
    false
}

/// Byte length only grows as characters are added.
pub proof fn lemma_utf8_len_monotone(s: Seq<char>, n: int)
    requires
        0 <= n <= s.len(),
    ensures
        utf8_len(s.take(n)) <= utf8_len(s),
    decreases s.len() - n,
{
    if n < s.len() {
        lemma_utf8_len_monotone(s, n + 1);
        assert(s.take(n + 1).drop_last() =~= s.take(n));
    } else {
        assert(s.take(n) =~= s);
    }
}

/// Whether `pat` occurs in `s` (`str::contains`).
pub open spec fn has_substring(s: Seq<char>, pat: Seq<char>) -> bool {
    exists|i: int| 0 <= i && i + pat.len() <= s.len() && #[trigger] s.subrange(i, i + pat.len()) == pat
}

/// `str::contains` on character vectors.
pub fn contains_substring(s: &Vec<char>, pat: &Vec<char>) -> (r: bool)
    ensures
        r == has_substring(s@, pat@),
{
    if pat.len() > s.len() {
        return false;
    }
    let last = s.len() - pat.len();
    let mut i: usize = 0;
    loop
        invariant
            last == s.len() - pat.len(),
            0 <= i <= last,
            forall|k: int| 0 <= k < i ==> #[trigger] s@.subrange(k, k + pat.len()) != pat@,
        decreases last - i,
    {
        let piece = slice_chars(s, i, i + pat.len());
        if chars_eq(piece.as_slice(), pat.as_slice()) {
            return true;
        }
        if i == last {
            return false;
        }
        i += 1;
    }
}

} // verus!
