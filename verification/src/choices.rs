//! Choices offered by the desktop front end: audio source, recognition
//! language and Whisper model size.

use vstd::prelude::*;
use crate::paths::{path_join, spec_path_join};
use crate::text::{copy_str, strings_of};

verus! {

/// Audio source picked in the front end.
#[derive(Debug, Clone, Copy, PartialEq, Eq, Structural)]
pub enum SourceChoice {
    Fake,
    Mic,
    Monitor,
}

impl SourceChoice {
    pub open spec fn label_spec(self) -> Seq<char> {
        match self {
            SourceChoice::Fake => "fake"@,
            SourceChoice::Mic => "mic"@,
            SourceChoice::Monitor => "monitor"@,
        }
    }

    pub fn label(self) -> (r: &'static str)
        ensures
            r@ == self.label_spec(),
    {
        match self {
            SourceChoice::Fake => "fake",
            SourceChoice::Mic => "mic",
            SourceChoice::Monitor => "monitor",
        }
    }
}

/// Recognition language picked in the front end.
#[derive(Debug, Clone, Copy, PartialEq, Eq, Structural)]
pub enum LanguageChoice {
    Auto,
    En,
    Fr,
    Es,
    Ar,
    Ru,
    Hi,
    Zh,
    ZhTw,
    Ko,
    Ja,
    Ur,
    Fa,
    Tr,
    Az,
    Hy,
}

impl LanguageChoice {
    /// The Whisper language code; both Chinese variants use "zh".
    pub open spec fn code_spec(self) -> Seq<char> {
        match self {
            LanguageChoice::Auto => "auto"@,
            LanguageChoice::En => "en"@,
            LanguageChoice::Fr => "fr"@,
            LanguageChoice::Es => "es"@,
            LanguageChoice::Ar => "ar"@,
            LanguageChoice::Ru => "ru"@,
            LanguageChoice::Hi => "hi"@,
            LanguageChoice::Zh => "zh"@,
            LanguageChoice::ZhTw => "zh"@,
            LanguageChoice::Ko => "ko"@,
            LanguageChoice::Ja => "ja"@,
            LanguageChoice::Ur => "ur"@,
            LanguageChoice::Fa => "fa"@,
            LanguageChoice::Tr => "tr"@,
            LanguageChoice::Az => "az"@,
            LanguageChoice::Hy => "hy"@,
        }
    }

    pub open spec fn label_spec(self) -> Seq<char> {
        match self {
            LanguageChoice::Auto => "auto"@,
            LanguageChoice::En => "English"@,
            LanguageChoice::Fr => "French"@,
            LanguageChoice::Es => "Spanish"@,
            LanguageChoice::Ar => "Arabic"@,
            LanguageChoice::Ru => "Russian"@,
            LanguageChoice::Hi => "Hindi"@,
            LanguageChoice::Zh => "Mandarin (zh)"@,
            LanguageChoice::ZhTw => "Taiwanese (zh)"@,
            LanguageChoice::Ko => "Korean"@,
            LanguageChoice::Ja => "Japanese"@,
            LanguageChoice::Ur => "Urdu (PK)"@,
            LanguageChoice::Fa => "Farsi"@,
            LanguageChoice::Tr => "Turkish"@,
            LanguageChoice::Az => "Azerbaijani"@,
            LanguageChoice::Hy => "Armenian"@,
        }
    }

    pub fn code(self) -> (r: &'static str)
        ensures
            r@ == self.code_spec(),
    {
        match self {
            LanguageChoice::Auto => "auto",
            LanguageChoice::En => "en",
            LanguageChoice::Fr => "fr",
            LanguageChoice::Es => "es",
            LanguageChoice::Ar => "ar",
            LanguageChoice::Ru => "ru",
            LanguageChoice::Hi => "hi",
            LanguageChoice::Zh => "zh",
            LanguageChoice::ZhTw => "zh",
            LanguageChoice::Ko => "ko",
            LanguageChoice::Ja => "ja",
            LanguageChoice::Ur => "ur",
            LanguageChoice::Fa => "fa",
            LanguageChoice::Tr => "tr",
            LanguageChoice::Az => "az",
            LanguageChoice::Hy => "hy",
        }
    }

    pub fn label(self) -> (r: &'static str)
        ensures
            r@ == self.label_spec(),
    {
        match self {
            LanguageChoice::Auto => "auto",
            LanguageChoice::En => "English",
            LanguageChoice::Fr => "French",
            LanguageChoice::Es => "Spanish",
            LanguageChoice::Ar => "Arabic",
            LanguageChoice::Ru => "Russian",
            LanguageChoice::Hi => "Hindi",
            LanguageChoice::Zh => "Mandarin (zh)",
            LanguageChoice::ZhTw => "Taiwanese (zh)",
            LanguageChoice::Ko => "Korean",
            LanguageChoice::Ja => "Japanese",
            LanguageChoice::Ur => "Urdu (PK)",
            LanguageChoice::Fa => "Farsi",
            LanguageChoice::Tr => "Turkish",
            LanguageChoice::Az => "Azerbaijani",
            LanguageChoice::Hy => "Armenian",
        }
    }
}

/// Whisper model size picked in the front end.
#[derive(Debug, Clone, Copy, PartialEq, Eq, Structural)]
pub enum WhisperSize {
    Tiny,
    Base,
    Small,
    Medium,
    LargeV3,
}

impl WhisperSize {
    pub const ALL: [WhisperSize; 5] = [
        WhisperSize::Tiny,
        WhisperSize::Base,
        WhisperSize::Small,
        WhisperSize::Medium,
        WhisperSize::LargeV3,
    ];

    pub open spec fn label_spec(self) -> Seq<char> {
        match self {
            WhisperSize::Tiny => "tiny (~75MB)"@,
            WhisperSize::Base => "base (~142MB)"@,
            WhisperSize::Small => "small (~466MB)"@,
            WhisperSize::Medium => "medium (~1.5GB)"@,
            WhisperSize::LargeV3 => "large-v3 (huge)"@,
        }
    }

    pub open spec fn filename_spec(self) -> Seq<char> {
        match self {
            WhisperSize::Tiny => "ggml-tiny.bin"@,
            WhisperSize::Base => "ggml-base.bin"@,
            WhisperSize::Small => "ggml-small.bin"@,
            WhisperSize::Medium => "ggml-medium.bin"@,
            WhisperSize::LargeV3 => "ggml-large-v3.bin"@,
        }
    }

    /// The size's name in the download script's `WHISPER_SIZES`.
    pub open spec fn tag_spec(self) -> Seq<char> {
        match self {
            WhisperSize::Tiny => "tiny"@,
            WhisperSize::Base => "base"@,
            WhisperSize::Small => "small"@,
            WhisperSize::Medium => "medium"@,
            WhisperSize::LargeV3 => "large-v3"@,
        }
    }

    pub fn label(self) -> (r: &'static str)
        ensures
            r@ == self.label_spec(),
    {
        match self {
            WhisperSize::Tiny => "tiny (~75MB)",
            WhisperSize::Base => "base (~142MB)",
            WhisperSize::Small => "small (~466MB)",
            WhisperSize::Medium => "medium (~1.5GB)",
            WhisperSize::LargeV3 => "large-v3 (huge)",
        }
    }

    /// File name of the ggml weights.
    pub fn filename(self) -> (r: &'static str)
        ensures
            r@ == self.filename_spec(),
    {
        match self {
            WhisperSize::Tiny => "ggml-tiny.bin",
            WhisperSize::Base => "ggml-base.bin",
            WhisperSize::Small => "ggml-small.bin",
            WhisperSize::Medium => "ggml-medium.bin",
            WhisperSize::LargeV3 => "ggml-large-v3.bin",
        }
    }

    /// Where the weights are looked for first, relative to the working
    /// directory: under `models/`, then the bare file name.
    pub open spec fn path_candidates_spec(self) -> Seq<Seq<char>> {
        seq![spec_path_join("models"@, self.filename_spec()), self.filename_spec()]
    }

    /// The relative paths tried for the weights, in order.
    pub fn path_candidates(self) -> (r: Vec<String>)
        ensures
            strings_of(r@) == self.path_candidates_spec(),
    {
        let r = vec![path_join("models", self.filename()), copy_str(self.filename())];
        assert(strings_of(r@) =~= self.path_candidates_spec());
        r
    }

    /// The size's name in the download script's `WHISPER_SIZES`.
    pub fn tag(self) -> (r: &'static str)
        ensures
            r@ == self.tag_spec(),
    {
        match self {
            WhisperSize::Tiny => "tiny",
            WhisperSize::Base => "base",
            WhisperSize::Small => "small",
            WhisperSize::Medium => "medium",
            WhisperSize::LargeV3 => "large-v3",
        }
    }
}

} // verus!
