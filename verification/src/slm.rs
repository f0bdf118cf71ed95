//! Small-language-model post-processing: disfluency removal and
//! bullet-point extraction. When no model weights are present the node uses
//! the deterministic rule-based cleaner and summarizer defined here.

use vstd::prelude::*;
use crate::profile::Manifest;
use crate::nodes::NodeError;
use crate::text::{spec_is_whitespace, spec_to_uppercase, ws_scan, capitalize, capitalize_chars, chars_eq, chars_of, contains_chars, join_space, join_with_space, non_alnum_pred, punctuate, punctuate_chars, seqs_of, spec_to_lowercase, split_whitespace, split_ws, string_from_chars, strings_of, to_lowercase, trim, trim_by, trim_chars, trim_non_alnum, utf8_len, utf8_len_exceeds};

verus! {

/// Cleaned text, extracted bullet points and word counts of one transcript.
pub struct SlmSummary {
    pub cleaned_text: String,
    pub bullet_points: Vec<String>,
    pub word_count_original: usize,
    pub word_count_cleaned: usize,
}

/// Single filler words that the cleaner drops.
pub open spec fn filler_words() -> Seq<Seq<char>> {
    seq![
        seq!['u', 'm'],
        seq!['u', 'h'],
        seq!['e', 'r', 'm'],
        seq!['a', 'h'],
        seq!['l', 'i', 'k', 'e'],
        seq!['e', 'r'],
        seq!['h', 'm', 'm'],
    ]
}

/// Two-word fillers that the cleaner drops, written with one space.
pub open spec fn filler_pairs() -> Seq<Seq<char>> {
    seq![
        seq!['y', 'o', 'u', ' ', 'k', 'n', 'o', 'w'],
    ]
}

/// A word lower-cased and stripped of surrounding non-alphanumeric characters.
pub open spec fn stripped_word(w: Seq<char>) -> Seq<char> {
    trim_by(spec_to_lowercase(w), non_alnum_pred())
}

/// Whether a word is a filler, by its stripped or lower-cased form.
pub open spec fn is_filler(w: Seq<char>) -> bool {
    filler_words().contains(stripped_word(w)) || filler_words().contains(spec_to_lowercase(w))
}

/// The key of two consecutive words: their stripped forms joined by a space.
pub open spec fn pair_key(a: Seq<char>, b: Seq<char>) -> Seq<char> {
    stripped_word(a) + seq![' '] + stripped_word(b)
}

/// Whether two consecutive words together form a two-word filler.
pub open spec fn is_filler_pair(a: Seq<char>, b: Seq<char>) -> bool {
    filler_pairs().contains(pair_key(a, b))
}

/// Left-to-right scan over the words from index `i`, given the words kept
/// so far and the stripped form of the last kept word. A filler word is
/// dropped; a word that starts a two-word filler is dropped with the next
/// word; a word whose non-empty stripped form repeats that of the word kept
/// before it is dropped; every other word is kept.
pub open spec fn clean_from(ws: Seq<Seq<char>>, i: nat, kept: Seq<Seq<char>>, prev: Seq<char>) -> Seq<Seq<char>>
    decreases ws.len() - i,
{
    if i >= ws.len() {
        kept
    } else if is_filler(ws[i as int]) {
        clean_from(ws, i + 1, kept, prev)
    } else if i + 1 < ws.len() && is_filler_pair(ws[i as int], ws[i + 1 as int]) {
        clean_from(ws, i + 2, kept, prev)
    } else if stripped_word(ws[i as int]) == prev && prev.len() > 0 {
        clean_from(ws, i + 1, kept, prev)
    } else {
        clean_from(ws, i + 1, kept.push(ws[i as int]), stripped_word(ws[i as int]))
    }
}

/// The words of `text` that the cleaner keeps.
pub open spec fn kept_words(text: Seq<char>) -> Seq<Seq<char>> {
    clean_from(split_ws(text), 0, seq![], seq![])
}

/// The text produced by the rule-based cleaner.
pub open spec fn clean_spec(text: Seq<char>) -> Seq<char> {
    if trim(text).len() == 0 {
        seq![]
    } else if kept_words(text).len() == 0 {
        seq![]
    } else {
        punctuate(capitalize(join_space(kept_words(text))))
    }
}

pub open spec fn is_sentence_end(c: char) -> bool {
    c == '.' || c == '?' || c == '!'
}

/// One left-to-right step of `str::split(['.', '?', '!'])`: completed pieces
/// and the piece in progress.
pub open spec fn sentence_scan(s: Seq<char>) -> (Seq<Seq<char>>, Seq<char>)
    decreases s.len(),
{
    if s.len() == 0 {
        (seq![], seq![])
    } else {
        let (pieces, cur) = sentence_scan(s.drop_last());
        let c = s.last();
        if is_sentence_end(c) {
            (pieces.push(cur), seq![])
        } else {
            (pieces, cur.push(c))
        }
    }
}

/// `str::split(['.', '?', '!'])`: every piece, empty ones included.
pub open spec fn split_sentences(s: Seq<char>) -> Seq<Seq<char>> {
    let (pieces, cur) = sentence_scan(s);
    pieces.push(cur)
}

/// A trimmed sentence is kept when it is longer than ten bytes.
pub open spec fn keeps_sentence(t: Seq<char>) -> bool {
    t.len() > 0 && utf8_len(t) > 10
}

/// The bullets made from a sequence of sentence pieces.
pub open spec fn bullets_of(pieces: Seq<Seq<char>>) -> Seq<Seq<char>>
    decreases pieces.len(),
{
    if pieces.len() == 0 {
        seq![]
    } else {
        let acc = bullets_of(pieces.drop_last());
        let t = trim(pieces.last());
        if keeps_sentence(t) {
            acc.push(capitalize(t))
        } else {
            acc
        }
    }
}

/// The bullet points extracted from `text`.
pub open spec fn bullet_points_spec(text: Seq<char>) -> Seq<Seq<char>> {
    if trim(text).len() == 0 {
        seq![]
    } else {
        let b = bullets_of(split_sentences(text));
        if b.len() == 0 {
            seq![trim(text)]
        } else {
            b
        }
    }
}

fn filler_list() -> (r: Vec<Vec<char>>)
    ensures
        seqs_of(r@) == filler_words(),
{
    let r = vec![
        vec!['u', 'm'],
        vec!['u', 'h'],
        vec!['e', 'r', 'm'],
        vec!['a', 'h'],
        vec!['l', 'i', 'k', 'e'],
        vec!['e', 'r'],
        vec!['h', 'm', 'm'],
    ];
    assert(seqs_of(r@) =~= filler_words());
    r
}

fn filler_pair_list() -> (r: Vec<Vec<char>>)
    ensures
        seqs_of(r@) == filler_pairs(),
{
    let r = vec![
        vec!['y', 'o', 'u', ' ', 'k', 'n', 'o', 'w'],
    ];
    assert(seqs_of(r@) =~= filler_pairs());
    r
}

/// The stripped form of a word.
fn stripped_exec(w: &Vec<char>) -> (r: Vec<char>)
    ensures
        r@ == stripped_word(w@),
{
    trim_non_alnum(&to_lowercase(w.as_slice()))
}

/// `a`, a space, then `b`.
fn join_pair(a: &Vec<char>, b: &Vec<char>) -> (r: Vec<char>)
    ensures
        r@ == a@ + seq![' '] + b@,
{
    let mut r: Vec<char> = Vec::new();
    let mut i: usize = 0;
    while i < a.len()
        invariant
            0 <= i <= a.len(),
            r@ == a@.take(i as int),
        decreases a.len() - i,
    {
        r.push(a[i]);
        i += 1;
        assert(r@ =~= a@.take(i as int));
    }
    r.push(' ');
    let mut j: usize = 0;
    while j < b.len()
        invariant
            0 <= j <= b.len(),
            r@ == a@ + seq![' '] + b@.take(j as int),
        decreases b.len() - j,
    {
        r.push(b[j]);
        j += 1;
        assert(r@ =~= a@ + seq![' '] + b@.take(j as int));
    }
    assert(a@.take(a.len() as int) =~= a@);
    assert(b@.take(b.len() as int) =~= b@);
    r
}

fn kept_words_exec(words: &Vec<Vec<char>>) -> (r: Vec<Vec<char>>)
    ensures
        seqs_of(r@) == clean_from(seqs_of(words@), 0, seq![], seq![]),
{
    let fillers = filler_list();
    let pairs = filler_pair_list();
    let mut kept: Vec<Vec<char>> = Vec::new();
    let mut prev: Vec<char> = Vec::new();
    let mut i: usize = 0;
    let ghost ws = seqs_of(words@);
    assert(seqs_of(kept@) =~= Seq::<Seq<char>>::empty());
    assert(prev@ =~= Seq::<char>::empty());
    while i < words.len()
        invariant
            0 <= i <= words.len(),
            ws == seqs_of(words@),
            seqs_of(fillers@) == filler_words(),
            seqs_of(pairs@) == filler_pairs(),
            clean_from(ws, i as nat, seqs_of(kept@), prev@) == clean_from(ws, 0, seq![], seq![]),
        decreases words.len() - i,
    {
        let w = &words[i];
        assert(ws[i as int] == w@);
        let lower = to_lowercase(w.as_slice());
        let stripped = trim_non_alnum(&lower);
        if contains_chars(&fillers, &stripped) || contains_chars(&fillers, &lower) {
            i += 1;
        } else {
            let is_pair = if i + 1 < words.len() {
                assert(ws[i + 1] == words@[i + 1]@);
                let next = stripped_exec(&words[i + 1]);
                contains_chars(&pairs, &join_pair(&stripped, &next))
            } else {
                false
            };
            if is_pair {
                i += 2;
            } else if chars_eq(stripped.as_slice(), prev.as_slice()) && prev.len() > 0 {
                i += 1;
            } else {
                let kw = w.clone();
                proof {
                    assert(seqs_of(kept@.push(kw)) =~= seqs_of(kept@).push(w@));
                }
                kept.push(kw);
                prev = stripped;
                i += 1;
            }
        }
    }
    kept
}

/// Rule-based disfluency remover: drops filler words and immediate word
/// repetitions, capitalizes the first letter and ends the text with
/// punctuation. Blank input gives the empty string.
pub fn clean_transcript_heuristics(text: &str) -> (r: String)
    ensures
        r@ == clean_spec(text@),
        r@.len() == 0 || is_sentence_end(r@.last()),
{
    let chars = chars_of(text);
    let trimmed = trim_chars(&chars);
    if trimmed.len() == 0 {
        return string_from_chars(&[]);
    }
    let words = split_whitespace(&chars);
    let kept = kept_words_exec(&words);
    if kept.len() == 0 {
        return string_from_chars(&[]);
    }
    let joined = join_with_space(&kept);
    let capitalized = capitalize_chars(joined);
    let result = punctuate_chars(capitalized);
    string_from_chars(result.as_slice())
}

fn split_sentences_exec(s: &Vec<char>) -> (r: Vec<Vec<char>>)
    ensures
        seqs_of(r@) == split_sentences(s@),
{
    let mut pieces: Vec<Vec<char>> = Vec::new();
    let mut cur: Vec<char> = Vec::new();
    let mut i: usize = 0;
    while i < s.len()
        invariant
            0 <= i <= s.len(),
            (seqs_of(pieces@), cur@) == sentence_scan(s@.take(i as int)),
        decreases s.len() - i,
    {
        let c = s[i];
        assert(s@.take(i + 1).drop_last() =~= s@.take(i as int));
        assert(s@.take(i + 1).last() == c);
        if c == '.' || c == '?' || c == '!' {
            let done = cur;
            cur = Vec::new();
            proof {
                assert(seqs_of(pieces@.push(done)) =~= seqs_of(pieces@).push(done@));
            }
            pieces.push(done);
            assert(cur@ =~= Seq::<char>::empty());
        } else {
            cur.push(c);
        }
        i += 1;
    }
    assert(s@.take(s.len() as int) =~= s@);
    proof {
        assert(seqs_of(pieces@.push(cur)) =~= seqs_of(pieces@).push(cur@));
    }
    pieces.push(cur);
    pieces
}

/// Extracts one bullet per sentence longer than ten bytes, capitalized.
/// When no sentence qualifies, the trimmed text is the only bullet; blank
/// text gives no bullets.
pub fn extract_bullet_points(text: &str) -> (r: Vec<String>)
    ensures
        strings_of(r@) == bullet_points_spec(text@),
        trim(text@).len() == 0 <==> r@.len() == 0,
{
    let chars = chars_of(text);
    let trimmed = trim_chars(&chars);
    let mut bullets: Vec<String> = Vec::new();
    if trimmed.len() == 0 {
        assert(strings_of(bullets@) =~= Seq::<Seq<char>>::empty());
        return bullets;
    }
    let pieces = split_sentences_exec(&chars);
    let mut i: usize = 0;
    while i < pieces.len()
        invariant
            0 <= i <= pieces.len(),
            strings_of(bullets@) == bullets_of(seqs_of(pieces@).take(i as int)),
        decreases pieces.len() - i,
    {
        let ghost t = seqs_of(pieces@).take(i + 1);
        assert(t.drop_last() =~= seqs_of(pieces@).take(i as int));
        assert(t.last() == pieces@[i as int]@);
        let sentence = trim_chars(&pieces[i]);
        if sentence.len() > 0 && utf8_len_exceeds(&sentence, 10) {
            let b = string_from_chars(capitalize_chars(sentence).as_slice());
            proof {
                assert(strings_of(bullets@.push(b)) =~= strings_of(bullets@).push(b@));
            }
            bullets.push(b);
        }
        i += 1;
    }
    assert(seqs_of(pieces@).take(pieces.len() as int) =~= seqs_of(pieces@));
    if bullets.len() == 0 {
        let only = string_from_chars(trimmed.as_slice());
        proof {
            assert(strings_of(bullets@.push(only)) =~= seq![trim(text@)]);
        }
        bullets.push(only);
    }
    bullets
}

/// Number of whitespace-separated words (`split_whitespace().count()`).
pub fn word_count(text: &str) -> (r: usize)
    ensures
        r == split_ws(text@).len(),
{
    let chars = chars_of(text);
    split_whitespace(&chars).len()
}

/// Post-processing node configured by a manifest.
pub struct SlmNode {
    pub manifest: Manifest,
    pub ready: bool,
}

impl SlmNode {
    /// A node over `manifest`; `ready` records whether the model weights exist.
    pub fn from_manifest(manifest: Manifest) -> (r: Self)
        ensures
            r.manifest == manifest,
    {
        let ready = crate::paths::path_exists(manifest.model_path.as_str());
        Self::with_model_status(manifest, ready)
    }

    /// A node over `manifest` whose model weights are present or not.
    pub fn with_model_status(manifest: Manifest, model_exists: bool) -> (r: Self)
        ensures
            r.manifest == manifest,
            r.ready == model_exists,
    {
        SlmNode { manifest, ready: model_exists }
    }

    /// Cleans speech disfluencies and filler words.
    pub fn clean_text(&self, text: &str) -> (r: String)
        ensures
            r@ == clean_spec(text@),
    {
        clean_transcript_heuristics(text)
    }

    /// Summarizes a transcript: the cleaned text, bullets extracted from the
    /// cleaned text, and the word counts before and after cleaning.
    pub fn summarize(&self, text: &str) -> (r: Result<SlmSummary, NodeError>)
        ensures
            r matches Ok(s) && s.cleaned_text@ == clean_spec(text@)
                && strings_of(s.bullet_points@) == bullet_points_spec(clean_spec(text@))
                && s.word_count_original == split_ws(text@).len()
                && s.word_count_cleaned == split_ws(clean_spec(text@)).len()
                && (uppercase_keeps_first_word(text@) ==> s.word_count_cleaned <= s.word_count_original),
    {
        proof {
            if uppercase_keeps_first_word(text@) {
                lemma_clean_word_count(text@);
            }
        }
        let original_words = word_count(text);
        let cleaned = clean_transcript_heuristics(text);
        let cleaned_words = word_count(cleaned.as_str());
        let bullets = extract_bullet_points(cleaned.as_str());
        Ok(SlmSummary {
            cleaned_text: cleaned,
            bullet_points: bullets,
            word_count_original: original_words,
            word_count_cleaned: cleaned_words,
        })
    }
}

// ---------------------------------------------------------------------------
// Laws of cleaning and sentence splitting
// ---------------------------------------------------------------------------

/// Whether `st` is one of the filler words um, uh, erm, ah, like, er, hmm.
pub open spec fn names_single_filler(st: Seq<char>) -> bool {
    ||| st == seq!['u', 'm']
    ||| st == seq!['u', 'h']
    ||| st == seq!['e', 'r', 'm']
    ||| st == seq!['a', 'h']
    ||| st == seq!['l', 'i', 'k', 'e']
    ||| st == seq!['e', 'r']
    ||| st == seq!['h', 'm', 'm']
}

proof fn lemma_clean_from_drops_fillers(ws: Seq<Seq<char>>, i: nat, kept: Seq<Seq<char>>, prev: Seq<char>)
    requires
        forall|k: int| 0 <= k < kept.len() ==> !names_single_filler(stripped_word(#[trigger] kept[k])),
    ensures
        forall|k: int| 0 <= k < clean_from(ws, i, kept, prev).len()
            ==> !names_single_filler(stripped_word(#[trigger] clean_from(ws, i, kept, prev)[k])),
    decreases ws.len() - i,
{
    if i < ws.len() {
        let w = ws[i as int];
        if is_filler(w) {
            lemma_clean_from_drops_fillers(ws, i + 1, kept, prev);
            assert(clean_from(ws, i, kept, prev) == clean_from(ws, i + 1, kept, prev));
        } else if i + 1 < ws.len() && is_filler_pair(w, ws[i + 1 as int]) {
            lemma_clean_from_drops_fillers(ws, i + 2, kept, prev);
            assert(clean_from(ws, i, kept, prev) == clean_from(ws, i + 2, kept, prev));
        } else if stripped_word(w) == prev && prev.len() > 0 {
            lemma_clean_from_drops_fillers(ws, i + 1, kept, prev);
            assert(clean_from(ws, i, kept, prev) == clean_from(ws, i + 1, kept, prev));
        } else {
            assert(!names_single_filler(stripped_word(w))) by {
                if names_single_filler(stripped_word(w)) {
                    let st = stripped_word(w);
                    let f = filler_words();
                    if st == seq!['u', 'm'] { assert(f[0] == st); }
                    if st == seq!['u', 'h'] { assert(f[1] == st); }
                    if st == seq!['e', 'r', 'm'] { assert(f[2] == st); }
                    if st == seq!['a', 'h'] { assert(f[3] == st); }
                    if st == seq!['l', 'i', 'k', 'e'] { assert(f[4] == st); }
                    if st == seq!['e', 'r'] { assert(f[5] == st); }
                    if st == seq!['h', 'm', 'm'] { assert(f[6] == st); }
                    assert(f.contains(st));
                }
            }
            let kp = kept.push(w);
            assert forall|k: int| 0 <= k < kp.len() implies !names_single_filler(stripped_word(#[trigger] kp[k])) by {
                if k < kept.len() {
                    assert(kp[k] == kept[k]);
                }
            }
            lemma_clean_from_drops_fillers(ws, i + 1, kp, stripped_word(w));
            assert(clean_from(ws, i, kept, prev) == clean_from(ws, i + 1, kp, stripped_word(w)));
        }
    }
}

/// The fillers um, uh, erm, ah, like, er and hmm never survive cleaning: no
/// kept word, lower-cased and stripped of surrounding non-alphanumeric
/// characters, is one of them.
pub proof fn lemma_fillers_dropped(text: Seq<char>)
    ensures
        forall|k: int| 0 <= k < kept_words(text).len() ==> !names_single_filler(stripped_word(#[trigger] kept_words(text)[k])),
{
    lemma_clean_from_drops_fillers(split_ws(text), 0, seq![], seq![]);
}

/// Whether `c` ends a sentence: '.', '?' or '!'.
pub open spec fn is_terminator(c: char) -> bool {
    c == '.' || c == '?' || c == '!'
}

/// Number of '.', '?' and '!' in `s`.
pub open spec fn count_terminators(s: Seq<char>) -> nat
    decreases s.len(),
{
    if s.len() == 0 {
        0
    } else {
        count_terminators(s.drop_last()) + if is_terminator(s.last()) { 1nat } else { 0nat }
    }
}

/// Total number of characters in the pieces.
pub open spec fn total_len(ps: Seq<Seq<char>>) -> nat
    decreases ps.len(),
{
    if ps.len() == 0 { 0 } else { total_len(ps.drop_last()) + ps.last().len() }
}

pub open spec fn free_of_terminators(p: Seq<char>) -> bool {
    forall|i: int| 0 <= i < p.len() ==> !is_terminator(#[trigger] p[i])
}

proof fn lemma_sentence_scan(s: Seq<char>)
    ensures
        forall|k: int| 0 <= k < sentence_scan(s).0.len() ==> free_of_terminators(#[trigger] sentence_scan(s).0[k]),
        free_of_terminators(sentence_scan(s).1),
        sentence_scan(s).0.len() == count_terminators(s),
        total_len(sentence_scan(s).0) + sentence_scan(s).0.len() + sentence_scan(s).1.len() == s.len(),
    decreases s.len(),
{
    if s.len() > 0 {
        lemma_sentence_scan(s.drop_last());
        let (pieces, cur) = sentence_scan(s.drop_last());
        let c = s.last();
        if c == '.' || c == '?' || c == '!' {
            let np = pieces.push(cur);
            assert(np.drop_last() =~= pieces);
            assert forall|k: int| 0 <= k < np.len() implies free_of_terminators(#[trigger] np[k]) by {
                if k < pieces.len() {
                    assert(np[k] == pieces[k]);
                }
            }
        } else {
            let nc = cur.push(c);
            assert forall|i: int| 0 <= i < nc.len() implies !is_terminator(#[trigger] nc[i]) by {
                if i < cur.len() {
                    assert(nc[i] == cur[i]);
                }
            }
        }
    }
}

/// Sentence splitting cuts the text at every '.', '?' and '!' and nowhere
/// else: no piece holds one of them, there is one piece more than there
/// are terminators, and the pieces with one terminator between each two
/// make up the whole text.
pub proof fn lemma_sentence_pieces(s: Seq<char>)
    ensures
        forall|k: int, i: int| 0 <= k < split_sentences(s).len() && 0 <= i < split_sentences(s)[k].len()
            ==> !(#[trigger] split_sentences(s)[k][i] == '.' || split_sentences(s)[k][i] == '?'
                || split_sentences(s)[k][i] == '!'),
        split_sentences(s).len() == count_terminators(s) + 1,
        total_len(split_sentences(s)) + count_terminators(s) == s.len(),
{
    lemma_sentence_scan(s);
    let (pieces, cur) = sentence_scan(s);
    let ps = pieces.push(cur);
    assert(ps.drop_last() =~= pieces);
    assert forall|k: int, i: int| 0 <= k < ps.len() && 0 <= i < ps[k].len()
        implies !(#[trigger] ps[k][i] == '.' || ps[k][i] == '?' || ps[k][i] == '!') by {
        if k < pieces.len() {
            assert(ps[k] == pieces[k]);
            assert(free_of_terminators(pieces[k]));
            assert(!is_terminator(pieces[k][i]));
        } else {
            assert(!is_terminator(cur[i]));
        }
    }
}

// ---------------------------------------------------------------------------
// Word-count law
// ---------------------------------------------------------------------------

/// A word in the sense of `split_whitespace`: non-empty, without whitespace.
pub open spec fn is_word(w: Seq<char>) -> bool {
    w.len() > 0 && forall|i: int| 0 <= i < w.len() ==> !spec_is_whitespace(#[trigger] w[i])
}

pub open spec fn no_whitespace(w: Seq<char>) -> bool {
    forall|i: int| 0 <= i < w.len() ==> !spec_is_whitespace(#[trigger] w[i])
}

pub open spec fn all_words(ws: Seq<Seq<char>>) -> bool {
    forall|i: int| 0 <= i < ws.len() ==> is_word(#[trigger] ws[i])
}

proof fn lemma_ws_scan_append(s: Seq<char>, w: Seq<char>)
    requires
        no_whitespace(w),
    ensures
        ws_scan(s + w) == (ws_scan(s).0, ws_scan(s).1 + w),
    decreases w.len(),
{
    if w.len() == 0 {
        assert(s + w =~= s);
        assert(ws_scan(s).1 + w =~= ws_scan(s).1);
    } else {
        let wd = w.drop_last();
        assert(no_whitespace(wd)) by {
            assert forall|i: int| 0 <= i < wd.len() implies !spec_is_whitespace(#[trigger] wd[i]) by {
                assert(wd[i] == w[i]);
            }
        }
        lemma_ws_scan_append(s, wd);
        assert((s + w).drop_last() =~= s + wd);
        assert((s + w).last() == w.last());
        assert(!spec_is_whitespace(w[w.len() - 1]));
        assert((ws_scan(s).1 + wd).push(w.last()) =~= ws_scan(s).1 + w);
    }
}

proof fn lemma_ws_scan_words(s: Seq<char>)
    ensures
        all_words(ws_scan(s).0),
        no_whitespace(ws_scan(s).1),
        ws_scan(s).0.len() + (if ws_scan(s).1.len() > 0 { 1int } else { 0int }) == crate::text::split_ws(s).len(),
    decreases s.len(),
{
    if s.len() > 0 {
        lemma_ws_scan_words(s.drop_last());
        let (w0, c0) = ws_scan(s.drop_last());
        let c = s.last();
        if spec_is_whitespace(c) {
            if c0.len() > 0 {
                assert forall|i: int| 0 <= i < w0.push(c0).len() implies is_word(#[trigger] w0.push(c0)[i]) by {
                    if i < w0.len() {
                        assert(w0.push(c0)[i] == w0[i]);
                    }
                }
            }
        } else {
            assert forall|i: int| 0 <= i < c0.push(c).len() implies !spec_is_whitespace(#[trigger] c0.push(c)[i]) by {
                if i < c0.len() {
                    assert(c0.push(c)[i] == c0[i]);
                }
            }
        }
    }
}

/// The words of any text are non-empty and free of whitespace.
proof fn lemma_split_ws_words(s: Seq<char>)
    ensures
        all_words(crate::text::split_ws(s)),
{
    lemma_ws_scan_words(s);
    let (w, c) = ws_scan(s);
    if c.len() > 0 {
        assert forall|i: int| 0 <= i < w.push(c).len() implies is_word(#[trigger] w.push(c)[i]) by {
            if i < w.len() {
                assert(w.push(c)[i] == w[i]);
            }
        }
    }
}

/// The scan keeps some of the words, so never more of them than it is
/// given, and every kept one is a word.
proof fn lemma_clean_from_words(ws: Seq<Seq<char>>, i: nat, kept: Seq<Seq<char>>, prev: Seq<char>)
    requires
        all_words(ws),
        all_words(kept),
        i <= ws.len(),
    ensures
        clean_from(ws, i, kept, prev).len() <= kept.len() + ws.len() - i,
        all_words(clean_from(ws, i, kept, prev)),
    decreases ws.len() - i,
{
    if i < ws.len() {
        let w = ws[i as int];
        if is_filler(w) {
            lemma_clean_from_words(ws, i + 1, kept, prev);
        } else if i + 1 < ws.len() && is_filler_pair(w, ws[i + 1 as int]) {
            lemma_clean_from_words(ws, i + 2, kept, prev);
        } else if stripped_word(w) == prev && prev.len() > 0 {
            lemma_clean_from_words(ws, i + 1, kept, prev);
        } else {
            assert(is_word(ws[i as int]));
            assert(all_words(kept.push(w))) by {
                assert forall|k: int| 0 <= k < kept.push(w).len() implies is_word(#[trigger] kept.push(w)[k]) by {
                    if k < kept.len() {
                        assert(kept.push(w)[k] == kept[k]);
                    }
                }
            }
            lemma_clean_from_words(ws, i + 1, kept.push(w), stripped_word(w));
        }
    }
}

/// Joining words with single spaces and splitting on whitespace gives the
/// words back.
proof fn lemma_ws_scan_join(k: Seq<Seq<char>>)
    requires
        k.len() > 0,
        all_words(k),
    ensures
        ws_scan(join_space(k)) == (k.drop_last(), k.last()),
    decreases k.len(),
{
    assert(is_word(k[k.len() - 1]));
    if k.len() == 1 {
        assert(is_word(k[0]));
        lemma_ws_scan_append(Seq::empty(), k[0]);
        assert(Seq::<char>::empty() + k[0] =~= k[0]);
        assert(Seq::<char>::empty() + k[0] =~= k[0]);
        assert(k.drop_last() =~= Seq::<Seq<char>>::empty());
    } else {
        let kd = k.drop_last();
        assert(all_words(kd)) by {
            assert forall|i: int| 0 <= i < kd.len() implies is_word(#[trigger] kd[i]) by {
                assert(kd[i] == k[i]);
            }
        }
        lemma_ws_scan_join(kd);
        let j = join_space(kd);
        assert(is_word(kd[kd.len() - 1]));
        let js = j + seq![' '];
        assert(js.drop_last() =~= j);
        assert(js.last() == ' ');
        assert(kd.drop_last().push(kd.last()) =~= kd);
        lemma_ws_scan_append(js, k.last());
        assert(ws_scan(js).1 + k.last() =~= k.last());
    }
}

/// The number of words of the joined text.
proof fn lemma_split_join(k: Seq<Seq<char>>)
    requires
        all_words(k),
    ensures
        crate::text::split_ws(join_space(k)) == k,
{
    if k.len() == 0 {
        assert(ws_scan(Seq::<char>::empty()) == (Seq::<Seq<char>>::empty(), Seq::<char>::empty()));
    } else {
        lemma_ws_scan_join(k);
        assert(is_word(k[k.len() - 1]));
        assert(k.drop_last().push(k.last()) =~= k);
    }
}

/// Capitalizing a text that starts with `x` capitalizes `x`.
proof fn lemma_capitalize_prefix(x: Seq<char>, y: Seq<char>)
    requires
        x.len() > 0,
    ensures
        capitalize(x + y) == capitalize(x) + y,
{
    assert((x + y)[0] == x[0]);
    assert((x + y).drop_first() =~= x.drop_first() + y);
    assert(spec_to_uppercase(x[0]) + (x.drop_first() + y) =~= (spec_to_uppercase(x[0]) + x.drop_first()) + y);
}

/// Joining and capitalizing is capitalizing the first word and joining.
proof fn lemma_capitalize_join(k: Seq<Seq<char>>)
    requires
        k.len() > 0,
        all_words(k),
    ensures
        capitalize(join_space(k)) == join_space(k.update(0, capitalize(k[0]))),
        join_space(k).len() > 0,
    decreases k.len(),
{
    assert(is_word(k[0]));
    if k.len() > 1 {
        let kd = k.drop_last();
        assert(all_words(kd)) by {
            assert forall|i: int| 0 <= i < kd.len() implies is_word(#[trigger] kd[i]) by {
                assert(kd[i] == k[i]);
            }
        }
        lemma_capitalize_join(kd);
        lemma_capitalize_prefix(join_space(kd), seq![' '] + k.last());
        assert(join_space(kd) + seq![' '] + k.last() =~= join_space(kd) + (seq![' '] + k.last()));
        let ku = k.update(0, capitalize(k[0]));
        assert(ku.drop_last() =~= kd.update(0, capitalize(kd[0])));
        assert(ku.last() == k.last());
        assert(capitalize(join_space(kd)) + (seq![' '] + k.last()) =~= join_space(ku.drop_last()) + seq![' '] + ku.last());
    } else {
        assert(k.update(0, capitalize(k[0])) =~= seq![capitalize(k[0])]);
    }
}

/// Appending a character that is not whitespace to text ending in a word
/// keeps the number of words.
proof fn lemma_split_push(s: Seq<char>, c: char)
    requires
        s.len() > 0,
        !spec_is_whitespace(s.last()),
        !spec_is_whitespace(c),
    ensures
        crate::text::split_ws(s.push(c)).len() == crate::text::split_ws(s).len(),
{
    assert(s.push(c).drop_last() =~= s);
    let (w, cur) = ws_scan(s.drop_last());
    assert(s.drop_last().push(s.last()) =~= s);
    assert(ws_scan(s).1.len() > 0);
}

/// Whether capitalizing the cleaned text keeps its first word one word:
/// the uppercase mapping of the first kept word's first character is
/// non-empty and free of whitespace (or nothing is kept).
pub open spec fn uppercase_keeps_first_word(text: Seq<char>) -> bool {
    kept_words(text).len() > 0 && kept_words(text)[0].len() > 0 ==> {
        let up = spec_to_uppercase(kept_words(text)[0][0]);
        up.len() > 0 && no_whitespace(up)
    }
}

/// Cleaning never adds words: the cleaned text has exactly the kept words,
/// so no more words than the input, provided capitalizing the first kept
/// word keeps it one word.
pub proof fn lemma_clean_word_count(text: Seq<char>)
    requires
        uppercase_keeps_first_word(text),
    ensures
        crate::text::split_ws(clean_spec(text)).len() <= crate::text::split_ws(text).len(),
        trim(text).len() > 0 ==> crate::text::split_ws(clean_spec(text)).len() == kept_words(text).len(),
{
    let ws = crate::text::split_ws(text);
    lemma_split_ws_words(text);
    lemma_clean_from_words(ws, 0, seq![], seq![]);
    let k = kept_words(text);
    if trim(text).len() == 0 || k.len() == 0 {
        assert(ws_scan(Seq::<char>::empty()) == (Seq::<Seq<char>>::empty(), Seq::<char>::empty()));
        return;
    }
    lemma_capitalize_join(k);
    let k0 = k[0];
    assert(is_word(k0));
    let ck0 = capitalize(k0);
    assert(is_word(ck0)) by {
        if k0.len() > 0 && crate::text::spec_is_alphabetic(k0[0]) && crate::text::spec_is_lowercase(k0[0]) {
            let up = spec_to_uppercase(k0[0]);
            assert(no_whitespace(up));
            assert forall|i: int| 0 <= i < ck0.len() implies !spec_is_whitespace(#[trigger] ck0[i]) by {
                if i < up.len() {
                    assert(ck0[i] == up[i]);
                } else {
                    assert(ck0[i] == k0[i - up.len() + 1]);
                }
            }
        }
    }
    let ku = k.update(0, ck0);
    assert(all_words(ku)) by {
        assert forall|i: int| 0 <= i < ku.len() implies is_word(#[trigger] ku[i]) by {
            if i != 0 {
                assert(ku[i] == k[i]);
            }
        }
    }
    lemma_split_join(ku);
    let j = join_space(ku);
    assert(capitalize(join_space(k)) == j);
    if !(j.len() > 0 && crate::text::is_terminal(j.last())) {
        lemma_ws_scan_join(ku);
        assert(is_word(ku[ku.len() - 1]));
        let lw = ku.last();
        assert(lw.len() > 0);
        lemma_ws_scan_append(Seq::empty(), seq!['.']);
        assert(j.len() > 0);
        lemma_last_of_join(ku);
        lemma_split_push(j, '.');
    }
}

/// The joined text ends with the last character of the last word.
proof fn lemma_last_of_join(k: Seq<Seq<char>>)
    requires
        k.len() > 0,
        all_words(k),
    ensures
        join_space(k).len() > 0,
        join_space(k).last() == k.last().last(),
{
    assert(is_word(k[k.len() - 1]));
    if k.len() > 1 {
        let kd = k.drop_last();
        let j = join_space(kd) + seq![' '] + k.last();
        assert(j.last() == k.last().last());
    }
}

} // verus!
