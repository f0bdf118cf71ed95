//! Mobile embedding: configuration, language and provider records for UI
//! pickers, and the text utilities exported to Android / iOS bindings.

use vstd::prelude::*;
use crate::ep::{default_chain_spec, probe_providers, probe_spec};
use crate::languages::SupportedLanguage;
use crate::slm::{bullet_points_spec, clean_spec, lemma_clean_word_count, uppercase_keeps_first_word, clean_transcript_heuristics, extract_bullet_points, word_count};
use crate::text::{copy_str, split_ws, strings_of};

verus! {

/// Settings of a mobile pipeline.
#[derive(Debug, Clone)]
pub struct MobileConfig {
    pub language: SupportedLanguage,
    pub enable_vad: bool,
    pub enable_mt: bool,
    /// Profile file to build the nodes from; none runs without nodes.
    pub profile_path: Option<String>,
}

impl Default for MobileConfig {
    fn default() -> (r: Self)
        ensures
            r.language == SupportedLanguage::Auto,
            r.enable_vad,
            r.enable_mt,
            r.profile_path is None,
    {
        MobileConfig { language: SupportedLanguage::Auto, enable_vad: true, enable_mt: true, profile_path: None }
    }
}

/// The configuration of a native pipeline handle: an unknown language code
/// falls back to automatic detection.
pub fn native_config(language_code: &str, enable_vad: bool, enable_mt: bool, profile_path: Option<String>) -> (r: MobileConfig)
    ensures
        r.language == match SupportedLanguage::from_code_spec(language_code@) {
            Some(l) => l,
            None => SupportedLanguage::Auto,
        },
        r.enable_vad == enable_vad,
        r.enable_mt == enable_mt,
        r.profile_path == profile_path,
{
    let language = match SupportedLanguage::from_code(language_code) {
        Some(l) => l,
        None => SupportedLanguage::Auto,
    };
    MobileConfig { language, enable_vad, enable_mt, profile_path }
}

/// Metadata of a supported language.
#[derive(Debug, Clone, PartialEq, Eq)]
pub struct LanguageInfo {
    pub code: String,
    pub label: String,
    pub is_rtl: bool,
    pub is_cjk: bool,
}

/// Metadata of an execution provider.
#[derive(Debug, Clone, PartialEq, Eq)]
pub struct ProviderInfoRecord {
    pub name: String,
    pub key: String,
    pub available: bool,
    pub platform_ok: bool,
}

/// Failure reported to the native bindings.
#[derive(Debug)]
pub enum NativePipelineError {
    ExecutionError { msg: String },
}

/// Summary of a transcript for the native bindings.
#[derive(Debug, Clone, PartialEq, Eq)]
pub struct NativeSlmSummary {
    pub cleaned_text: String,
    pub bullet_points: Vec<String>,
    pub word_count_original: u32,
    pub word_count_cleaned: u32,
}

/// Cleans transcript text without a pipeline.
pub fn clean_transcript_text(text: String) -> (r: String)
    ensures
        r@ == clean_spec(text@),
{
    clean_transcript_heuristics(text.as_str())
}

/// Summarizes transcript text: bullets from the text as given, the cleaned
/// text, and both word counts (truncated to `u32`).
pub fn summarize_transcript_text(text: String) -> (r: NativeSlmSummary)
    ensures
        r.cleaned_text@ == clean_spec(text@),
        strings_of(r.bullet_points@) == bullet_points_spec(text@),
        r.word_count_original == split_ws(text@).len() as u32,
        r.word_count_cleaned == split_ws(clean_spec(text@)).len() as u32,
        uppercase_keeps_first_word(text@) && split_ws(text@).len() <= u32::MAX
            ==> r.word_count_cleaned <= r.word_count_original,
{
    proof {
        if uppercase_keeps_first_word(text@) {
            lemma_clean_word_count(text@);
        }
    }
    let bullets = extract_bullet_points(text.as_str());
    let cleaned = clean_transcript_heuristics(text.as_str());
    let orig_words = word_count(text.as_str()) as u32;
    let clean_words = word_count(cleaned.as_str()) as u32;
    NativeSlmSummary {
        cleaned_text: cleaned,
        bullet_points: bullets,
        word_count_original: orig_words,
        word_count_cleaned: clean_words,
    }
}

/// The record of one language.
pub open spec fn language_info_spec(info: LanguageInfo, lang: SupportedLanguage) -> bool {
    &&& info.code@ == lang.code_spec()
    &&& info.label@ == lang.label_spec()
    &&& info.is_rtl == lang.spec_is_rtl()
    &&& info.is_cjk == lang.spec_is_cjk()
}


/// All supported languages with their metadata, in the order of
/// `SupportedLanguage::ALL`.
pub fn get_supported_languages() -> (r: Vec<LanguageInfo>)
    ensures
        r@.len() == SupportedLanguage::ALL@.len(),
        forall|i: int| 0 <= i < r@.len() ==> language_info_spec(#[trigger] r@[i], SupportedLanguage::ALL@[i]),
{
    let all = SupportedLanguage::ALL;
    let mut out: Vec<LanguageInfo> = Vec::new();
    let mut i: usize = 0;
    while i < all.len()
        invariant
            0 <= i <= all@.len(),
            all@ == SupportedLanguage::ALL@,
            out@.len() == i,
            forall|k: int| 0 <= k < i ==> language_info_spec(#[trigger] out@[k], SupportedLanguage::ALL@[k]),
        decreases all@.len() - i,
    {
        let l = all[i];
        out.push(LanguageInfo {
            code: copy_str(l.code()),
            label: copy_str(l.label()),
            is_rtl: l.is_rtl(),
            is_cjk: l.is_cjk(),
        });
        i += 1;
    }
    out
}

/// The record of one probed provider.
pub open spec fn provider_record_spec(rec: ProviderInfoRecord, pref: crate::ep::EpPreference) -> bool {
    &&& rec.name@ == pref.provider_name()
    &&& rec.key@ == pref.key()
    &&& rec.available == pref.compiled_in()
    &&& rec.platform_ok == pref.compiled_in()
}

/// The providers of the default chain and whether they are available here.
pub fn get_execution_providers() -> (r: Vec<ProviderInfoRecord>)
    ensures
        r@.len() == default_chain_spec().len(),
        forall|i: int| 0 <= i < r@.len() ==> provider_record_spec(#[trigger] r@[i], default_chain_spec()[i]),
{
    let probed = probe_providers();
    let mut out: Vec<ProviderInfoRecord> = Vec::new();
    let mut i: usize = 0;
    while i < probed.len()
        invariant
            0 <= i <= probed@.len(),
            probed@.len() == default_chain_spec().len(),
            forall|k: int| 0 <= k < probed@.len() ==> probe_spec(#[trigger] probed@[k], default_chain_spec()[k]),
            out@.len() == i,
            forall|k: int| 0 <= k < i ==> provider_record_spec(#[trigger] out@[k], default_chain_spec()[k]),
        decreases probed@.len() - i,
    {
        let p = &probed[i];
        assert(probe_spec(probed@[i as int], default_chain_spec()[i as int]));
        out.push(ProviderInfoRecord {
            name: copy_str(p.name.as_str()),
            key: copy_str(p.preference.as_str()),
            available: p.available,
            platform_ok: p.platform_ok,
        });
        i += 1;
    }
    out
}

} // verus!
