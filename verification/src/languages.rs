//! Supported language definitions, short codes, and script metadata.

use vstd::prelude::*;
use crate::text::{ascii_lower, ascii_lower_char, ascii_lower_chars, chars_eq, chars_of, spec_is_whitespace, trim, trim_chars};

verus! {

/// A language the speech pipeline can be configured for.
#[derive(Debug, Clone, Copy, PartialEq, Eq, Structural, Hash)]
pub enum SupportedLanguage {
    Auto,
    En,
    Fr,
    Es,
    Ar,
    Ru,
    Hi,
    Zh,
    ZhTw,
    Ko,
    Ja,
    Ur,
    Fa,
    Tr,
    Az,
    Hy,
}

impl SupportedLanguage {
    /// Complete list of all supported language choices.
    pub const ALL: [SupportedLanguage; 16] = [
        SupportedLanguage::Auto,
        SupportedLanguage::En,
        SupportedLanguage::Fr,
        SupportedLanguage::Es,
        SupportedLanguage::Ar,
        SupportedLanguage::Ru,
        SupportedLanguage::Hi,
        SupportedLanguage::Zh,
        SupportedLanguage::ZhTw,
        SupportedLanguage::Ko,
        SupportedLanguage::Ja,
        SupportedLanguage::Ur,
        SupportedLanguage::Fa,
        SupportedLanguage::Tr,
        SupportedLanguage::Az,
        SupportedLanguage::Hy,
    ];

    /// True if the language uses a right-to-left script.
    pub open spec fn spec_is_rtl(self) -> bool {
        self is Ar || self is Ur || self is Fa
    }

    /// True if the language uses a Chinese, Japanese or Korean script.
    pub open spec fn spec_is_cjk(self) -> bool {
        self is Zh || self is ZhTw || self is Ko || self is Ja
    }

    pub fn is_rtl(&self) -> (r: bool)
        ensures
            r == self.spec_is_rtl(),
    {
        match self {
            SupportedLanguage::Ar | SupportedLanguage::Ur | SupportedLanguage::Fa => true,
            _ => false,
        }
    }

    pub fn is_cjk(&self) -> (r: bool)
        ensures
            r == self.spec_is_cjk(),
    {
        match self {
            SupportedLanguage::Zh | SupportedLanguage::ZhTw | SupportedLanguage::Ko
            | SupportedLanguage::Ja => true,
            _ => false,
        }
    }
}


impl SupportedLanguage {
    /// The short (Whisper / BCP-47) code; both Chinese variants use "zh".
    pub open spec fn code_spec(self) -> Seq<char> {
        match self {
            SupportedLanguage::Auto => seq!['a', 'u', 't', 'o'],
            SupportedLanguage::En => seq!['e', 'n'],
            SupportedLanguage::Fr => seq!['f', 'r'],
            SupportedLanguage::Es => seq!['e', 's'],
            SupportedLanguage::Ar => seq!['a', 'r'],
            SupportedLanguage::Ru => seq!['r', 'u'],
            SupportedLanguage::Hi => seq!['h', 'i'],
            SupportedLanguage::Zh => seq!['z', 'h'],
            SupportedLanguage::ZhTw => seq!['z', 'h'],
            SupportedLanguage::Ko => seq!['k', 'o'],
            SupportedLanguage::Ja => seq!['j', 'a'],
            SupportedLanguage::Ur => seq!['u', 'r'],
            SupportedLanguage::Fa => seq!['f', 'a'],
            SupportedLanguage::Tr => seq!['t', 'r'],
            SupportedLanguage::Az => seq!['a', 'z'],
            SupportedLanguage::Hy => seq!['h', 'y'],
        }
    }

    /// The user-facing label.
    pub open spec fn label_spec(self) -> Seq<char> {
        match self {
            SupportedLanguage::Auto => "auto"@,
            SupportedLanguage::En => "English"@,
            SupportedLanguage::Fr => "French"@,
            SupportedLanguage::Es => "Spanish"@,
            SupportedLanguage::Ar => "Arabic"@,
            SupportedLanguage::Ru => "Russian"@,
            SupportedLanguage::Hi => "Hindi"@,
            SupportedLanguage::Zh => "Mandarin (zh)"@,
            SupportedLanguage::ZhTw => "Taiwanese (zh)"@,
            SupportedLanguage::Ko => "Korean"@,
            SupportedLanguage::Ja => "Japanese"@,
            SupportedLanguage::Ur => "Urdu (PK)"@,
            SupportedLanguage::Fa => "Farsi"@,
            SupportedLanguage::Tr => "Turkish"@,
            SupportedLanguage::Az => "Azerbaijani"@,
            SupportedLanguage::Hy => "Armenian"@,
        }
    }

    /// The language a code names once trimmed and ASCII-lower-cased.
    pub open spec fn from_code_spec(code: Seq<char>) -> Option<SupportedLanguage> {
        let t = ascii_lower(trim(code));
        if t == seq!['a', 'u', 't', 'o'] || t == seq!['d', 'e', 't', 'e', 'c', 't'] || t == seq!['m', 'u', 'l', 't', 'i', 'l', 'i', 'n', 'g', 'u', 'a', 'l'] {
            Some(SupportedLanguage::Auto)
        } else if t == seq!['e', 'n'] {
            Some(SupportedLanguage::En)
        } else if t == seq!['f', 'r'] {
            Some(SupportedLanguage::Fr)
        } else if t == seq!['e', 's'] {
            Some(SupportedLanguage::Es)
        } else if t == seq!['a', 'r'] {
            Some(SupportedLanguage::Ar)
        } else if t == seq!['r', 'u'] {
            Some(SupportedLanguage::Ru)
        } else if t == seq!['h', 'i'] {
            Some(SupportedLanguage::Hi)
        } else if t == seq!['z', 'h', '-', 't', 'w'] || t == seq!['z', 'h', 't', 'w'] || t == seq!['z', 'h', '_', 't', 'w'] {
            Some(SupportedLanguage::ZhTw)
        } else if t == seq!['z', 'h'] || t == seq!['z', 'h', '-', 'c', 'n'] || t == seq!['z', 'h', '_', 'c', 'n'] {
            Some(SupportedLanguage::Zh)
        } else if t == seq!['k', 'o'] {
            Some(SupportedLanguage::Ko)
        } else if t == seq!['j', 'a'] {
            Some(SupportedLanguage::Ja)
        } else if t == seq!['u', 'r'] {
            Some(SupportedLanguage::Ur)
        } else if t == seq!['f', 'a'] {
            Some(SupportedLanguage::Fa)
        } else if t == seq!['t', 'r'] {
            Some(SupportedLanguage::Tr)
        } else if t == seq!['a', 'z'] {
            Some(SupportedLanguage::Az)
        } else if t == seq!['h', 'y'] {
            Some(SupportedLanguage::Hy)
        } else {
            None
        }
    }

    /// Standard short code of the language, as used by the ASR model.
    pub fn code(&self) -> (r: &'static str)
        ensures
            r@ == self.code_spec(),
    {
        proof {
            reveal_strlit("ar");
            reveal_strlit("auto");
            reveal_strlit("az");
            reveal_strlit("en");
            reveal_strlit("es");
            reveal_strlit("fa");
            reveal_strlit("fr");
            reveal_strlit("hi");
            reveal_strlit("hy");
            reveal_strlit("ja");
            reveal_strlit("ko");
            reveal_strlit("ru");
            reveal_strlit("tr");
            reveal_strlit("ur");
            reveal_strlit("zh");
        }
        match self {
            SupportedLanguage::Auto => "auto",
            SupportedLanguage::En => "en",
            SupportedLanguage::Fr => "fr",
            SupportedLanguage::Es => "es",
            SupportedLanguage::Ar => "ar",
            SupportedLanguage::Ru => "ru",
            SupportedLanguage::Hi => "hi",
            SupportedLanguage::Zh => "zh",
            SupportedLanguage::ZhTw => "zh",
            SupportedLanguage::Ko => "ko",
            SupportedLanguage::Ja => "ja",
            SupportedLanguage::Ur => "ur",
            SupportedLanguage::Fa => "fa",
            SupportedLanguage::Tr => "tr",
            SupportedLanguage::Az => "az",
            SupportedLanguage::Hy => "hy",
        }
    }

    /// User-friendly display label.
    pub fn label(&self) -> (r: &'static str)
        ensures
            r@ == self.label_spec(),
    {
        match self {
            SupportedLanguage::Auto => "auto",
            SupportedLanguage::En => "English",
            SupportedLanguage::Fr => "French",
            SupportedLanguage::Es => "Spanish",
            SupportedLanguage::Ar => "Arabic",
            SupportedLanguage::Ru => "Russian",
            SupportedLanguage::Hi => "Hindi",
            SupportedLanguage::Zh => "Mandarin (zh)",
            SupportedLanguage::ZhTw => "Taiwanese (zh)",
            SupportedLanguage::Ko => "Korean",
            SupportedLanguage::Ja => "Japanese",
            SupportedLanguage::Ur => "Urdu (PK)",
            SupportedLanguage::Fa => "Farsi",
            SupportedLanguage::Tr => "Turkish",
            SupportedLanguage::Az => "Azerbaijani",
            SupportedLanguage::Hy => "Armenian",
        }
    }

    /// Parses a language code case-insensitively, ignoring surrounding
    /// whitespace (e.g. "en", "FR", "zh-tw", "auto").
    pub fn from_code(code: &str) -> (r: Option<Self>)
        ensures
            r == Self::from_code_spec(code@),
    {
        let t = ascii_lower_chars(&trim_chars(&chars_of(code)));
        if chars_eq(t.as_slice(), &['a', 'u', 't', 'o']) || chars_eq(t.as_slice(), &['d', 'e', 't', 'e', 'c', 't']) || chars_eq(t.as_slice(), &['m', 'u', 'l', 't', 'i', 'l', 'i', 'n', 'g', 'u', 'a', 'l']) {
            Some(SupportedLanguage::Auto)
        } else if chars_eq(t.as_slice(), &['e', 'n']) {
            Some(SupportedLanguage::En)
        } else if chars_eq(t.as_slice(), &['f', 'r']) {
            Some(SupportedLanguage::Fr)
        } else if chars_eq(t.as_slice(), &['e', 's']) {
            Some(SupportedLanguage::Es)
        } else if chars_eq(t.as_slice(), &['a', 'r']) {
            Some(SupportedLanguage::Ar)
        } else if chars_eq(t.as_slice(), &['r', 'u']) {
            Some(SupportedLanguage::Ru)
        } else if chars_eq(t.as_slice(), &['h', 'i']) {
            Some(SupportedLanguage::Hi)
        } else if chars_eq(t.as_slice(), &['z', 'h', '-', 't', 'w']) || chars_eq(t.as_slice(), &['z', 'h', 't', 'w']) || chars_eq(t.as_slice(), &['z', 'h', '_', 't', 'w']) {
            Some(SupportedLanguage::ZhTw)
        } else if chars_eq(t.as_slice(), &['z', 'h']) || chars_eq(t.as_slice(), &['z', 'h', '-', 'c', 'n']) || chars_eq(t.as_slice(), &['z', 'h', '_', 'c', 'n']) {
            Some(SupportedLanguage::Zh)
        } else if chars_eq(t.as_slice(), &['k', 'o']) {
            Some(SupportedLanguage::Ko)
        } else if chars_eq(t.as_slice(), &['j', 'a']) {
            Some(SupportedLanguage::Ja)
        } else if chars_eq(t.as_slice(), &['u', 'r']) {
            Some(SupportedLanguage::Ur)
        } else if chars_eq(t.as_slice(), &['f', 'a']) {
            Some(SupportedLanguage::Fa)
        } else if chars_eq(t.as_slice(), &['t', 'r']) {
            Some(SupportedLanguage::Tr)
        } else if chars_eq(t.as_slice(), &['a', 'z']) {
            Some(SupportedLanguage::Az)
        } else if chars_eq(t.as_slice(), &['h', 'y']) {
            Some(SupportedLanguage::Hy)
        } else {
            None
        }
    }
}

/// A sequence without whitespace at either end is its own trim.
proof fn lemma_trim_unchanged(s: Seq<char>)
    requires
        s.len() == 0 || (!spec_is_whitespace(s[0]) && !spec_is_whitespace(s.last())),
    ensures
        trim(s) == s,
{
    crate::text::lemma_trim_front_skip(s, crate::text::ws_pred(), 0);
    assert(s.skip(0) =~= s);
    crate::text::lemma_trim_back_take(s, crate::text::ws_pred(), s.len() as int);
    assert(s.take(s.len() as int) =~= s);
}

/// Parsing a language's own code gives the language back; both Chinese
/// variants share the code "zh", which parses as Mandarin.
pub proof fn lemma_code_round_trip(lang: SupportedLanguage)
    ensures
        SupportedLanguage::from_code_spec(lang.code_spec()) == Some(
            if lang == SupportedLanguage::ZhTw { SupportedLanguage::Zh } else { lang },
        ),
{
    let c = lang.code_spec();
    lemma_trim_unchanged(c);
    assert(ascii_lower(c) =~= c);
}

/// Every label is non-empty, and no two languages share a label.
pub proof fn lemma_labels_distinct(a: SupportedLanguage, b: SupportedLanguage)
    ensures
        a.label_spec().len() > 0,
        a.label_spec() == b.label_spec() ==> a == b,
{
    reveal_strlit("auto");
    reveal_strlit("English");
    reveal_strlit("French");
    reveal_strlit("Spanish");
    reveal_strlit("Arabic");
    reveal_strlit("Russian");
    reveal_strlit("Hindi");
    reveal_strlit("Mandarin (zh)");
    reveal_strlit("Taiwanese (zh)");
    reveal_strlit("Korean");
    reveal_strlit("Japanese");
    reveal_strlit("Urdu (PK)");
    reveal_strlit("Farsi");
    reveal_strlit("Turkish");
    reveal_strlit("Azerbaijani");
    reveal_strlit("Armenian");
    if a.label_spec() == b.label_spec() {
        assert(a.label_spec().len() == b.label_spec().len());
        assert(a.label_spec()[0] == b.label_spec()[0]);
    }
}

/// Parsing ignores ASCII case.
pub proof fn lemma_from_code_ignores_case(code: Seq<char>)
    ensures
        SupportedLanguage::from_code_spec(ascii_lower(code)) == SupportedLanguage::from_code_spec(code),
{
    lemma_ascii_lower_trim(code);
    lemma_ascii_lower_idempotent(trim(code));
}

/// Parsing ignores surrounding whitespace.
pub proof fn lemma_from_code_ignores_padding(code: Seq<char>)
    ensures
        SupportedLanguage::from_code_spec(trim(code)) == SupportedLanguage::from_code_spec(code),
{
    crate::text::lemma_trim_by_idempotent(code, crate::text::ws_pred());
}

proof fn lemma_ascii_lower_idempotent(s: Seq<char>)
    ensures
        ascii_lower(ascii_lower(s)) == ascii_lower(s),
{
    assert(ascii_lower(ascii_lower(s)) =~= ascii_lower(s));
}

/// ASCII lower-casing commutes with trimming: it changes no character's
/// whitespace status.
proof fn lemma_ascii_lower_trim(s: Seq<char>)
    ensures
        trim(ascii_lower(s)) == ascii_lower(trim(s)),
{
    assert forall|c: char| spec_is_whitespace(#[trigger] ascii_lower_char(c)) == spec_is_whitespace(c) by {}
    lemma_ascii_lower_trim_front(s);
    lemma_ascii_lower_trim_back(crate::text::trim_front(s, crate::text::ws_pred()));
}

proof fn lemma_ascii_lower_trim_front(s: Seq<char>)
    ensures
        crate::text::trim_front(ascii_lower(s), crate::text::ws_pred())
            == ascii_lower(crate::text::trim_front(s, crate::text::ws_pred())),
    decreases s.len(),
{
    if s.len() > 0 {
        assert(ascii_lower(s)[0] == ascii_lower_char(s[0]));
        assert(ascii_lower(s).drop_first() =~= ascii_lower(s.drop_first()));
        lemma_ascii_lower_trim_front(s.drop_first());
    } else {
        assert(ascii_lower(s) =~= s);
    }
}

proof fn lemma_ascii_lower_trim_back(s: Seq<char>)
    ensures
        crate::text::trim_back(ascii_lower(s), crate::text::ws_pred())
            == ascii_lower(crate::text::trim_back(s, crate::text::ws_pred())),
    decreases s.len(),
{
    if s.len() > 0 {
        assert(ascii_lower(s).last() == ascii_lower_char(s.last()));
        assert(ascii_lower(s).drop_last() =~= ascii_lower(s.drop_last()));
        lemma_ascii_lower_trim_back(s.drop_last());
    } else {
        assert(ascii_lower(s) =~= s);
    }
}

/// The list of all languages holds each language exactly once.
pub proof fn lemma_all_languages_listed()
    ensures
        SupportedLanguage::ALL@.len() == 16,
        forall|l: SupportedLanguage| SupportedLanguage::ALL@.contains(l),
        forall|i: int, j: int| 0 <= i < j < 16 ==> SupportedLanguage::ALL@[i] != SupportedLanguage::ALL@[j],
{
    let all = SupportedLanguage::ALL@;
    assert forall|l: SupportedLanguage| all.contains(l) by {
        match l {
            SupportedLanguage::Auto => assert(all[0] == l),
            SupportedLanguage::En => assert(all[1] == l),
            SupportedLanguage::Fr => assert(all[2] == l),
            SupportedLanguage::Es => assert(all[3] == l),
            SupportedLanguage::Ar => assert(all[4] == l),
            SupportedLanguage::Ru => assert(all[5] == l),
            SupportedLanguage::Hi => assert(all[6] == l),
            SupportedLanguage::Zh => assert(all[7] == l),
            SupportedLanguage::ZhTw => assert(all[8] == l),
            SupportedLanguage::Ko => assert(all[9] == l),
            SupportedLanguage::Ja => assert(all[10] == l),
            SupportedLanguage::Ur => assert(all[11] == l),
            SupportedLanguage::Fa => assert(all[12] == l),
            SupportedLanguage::Tr => assert(all[13] == l),
            SupportedLanguage::Az => assert(all[14] == l),
            SupportedLanguage::Hy => assert(all[15] == l),
        }
    }
}

} // verus!
