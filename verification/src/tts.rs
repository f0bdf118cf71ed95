//! Text-to-speech node: a Piper-style plug when the model is present, a
//! beep whose length tracks the text otherwise.

use vstd::prelude::*;
use vstd::string::StringSliceAdditionalSpecFns;
use crate::audio::PCM_SAMPLE_RATE;
use crate::paths::path_exists;
use crate::profile::Manifest;
use crate::text::{chars_of, string_from_chars};

verus! {

/// Text-to-speech node configured by a manifest.
pub struct TtsNode {
    pub manifest: Manifest,
    pub model_ready: bool,
    session_key: String,
    loaded: bool,
    /// The voice configuration next to the model (`<model>.json`), if present.
    config_path: Option<String>,
}

/// Length in milliseconds of the beep for a text of `len` bytes.
pub open spec fn beep_ms(len: nat) -> nat {
    if 50 + len * 15 < 800 { 50 + len * 15 } else { 800 }
}

/// The sample rate a synthesized beep uses.
pub open spec fn beep_rate(manifest_rate: u32) -> u32 {
    if manifest_rate > 0 { manifest_rate } else { PCM_SAMPLE_RATE }
}

impl TtsNode {
    pub closed spec fn spec_session_key(&self) -> Seq<char> {
        self.session_key@
    }

    pub closed spec fn spec_loaded(&self) -> bool {
        self.loaded
    }

    pub closed spec fn spec_config_path(&self) -> Option<Seq<char>> {
        match self.config_path {
            Some(p) => Some(p@),
            None => None,
        }
    }

    pub closed spec fn spec_manifest(&self) -> Manifest {
        self.manifest
    }

    pub closed spec fn spec_model_ready(&self) -> bool {
        self.model_ready
    }

    /// A node over `manifest`, checking whether the model and its
    /// configuration file exist.
    pub fn from_manifest(manifest: Manifest) -> (r: Self)
        ensures
            r.spec_manifest() == manifest,
            r.spec_session_key() == "tts:"@ + manifest.id@,
            !r.spec_loaded(),
            r.spec_config_path() matches Some(p) ==> p == manifest.model_path@ + ".json"@,
    {
        let model_ready = path_exists(manifest.model_path.as_str());
        let mut config = string_from_chars(chars_of(manifest.model_path.as_str()).as_slice());
        config.append(".json");
        let config_ready = path_exists(config.as_str());
        Self::with_files(manifest, model_ready, config_ready)
    }

    /// A node over `manifest` whose model and configuration exist or not.
    pub fn with_files(manifest: Manifest, model_exists: bool, config_exists: bool) -> (r: Self)
        ensures
            r.spec_manifest() == manifest,
            r.spec_model_ready() == model_exists,
            r.spec_session_key() == "tts:"@ + manifest.id@,
            !r.spec_loaded(),
            config_exists ==> r.spec_config_path() == Some(manifest.model_path@ + ".json"@),
            !config_exists ==> r.spec_config_path() is None,
    {
        let mut session_key = String::from_str("tts:");
        session_key.append(manifest.id.as_str());
        let config_path = if config_exists {
            let mut c = string_from_chars(chars_of(manifest.model_path.as_str()).as_slice());
            c.append(".json");
            Some(c)
        } else {
            None
        };
        TtsNode { manifest, model_ready: model_exists, session_key, loaded: false, config_path }
    }

    pub fn session_key(&self) -> (r: &str)
        ensures
            r@ == self.spec_session_key(),
    {
        self.session_key.as_str()
    }

    pub fn is_loaded(&self) -> (r: bool)
        ensures
            r == self.spec_loaded(),
    {
        self.loaded
    }

    pub fn has_config(&self) -> (r: bool)
        ensures
            r == self.spec_config_path() is Some,
    {
        self.config_path.is_some()
    }

    /// Whether a session should be loaded: the model is present and not loaded yet.
    pub fn needs_load(&self) -> (r: bool)
        ensures
            r == (!self.spec_loaded() && self.spec_model_ready()),
    {
        !self.loaded && self.model_ready
    }

    /// Records that the session has been loaded.
    pub fn mark_loaded(&mut self)
        ensures
            final(self).spec_loaded(),
            final(self).spec_manifest() == old(self).spec_manifest(),
            final(self).spec_model_ready() == old(self).spec_model_ready(),
            final(self).spec_session_key() == old(self).spec_session_key(),
            final(self).spec_config_path() == old(self).spec_config_path(),
    {
        self.loaded = true;
    }

    /// Sample rate and sample count of the beep for `text`: nothing for
    /// empty text (at no less than the bus rate); otherwise 50 ms plus 15 ms
    /// per byte, at most 800 ms, at the manifest's rate.
    pub fn beep_plan(&self, text: &str) -> (r: (u32, usize))
        requires
            50 + text.spec_bytes().len() * 15 <= usize::MAX,
            beep_rate(self.spec_manifest().sample_rate) as int * beep_ms(text.spec_bytes().len()) <= u32::MAX,
        ensures
            text@.len() == 0 ==> r.0 == (if self.spec_manifest().sample_rate > PCM_SAMPLE_RATE {
                self.spec_manifest().sample_rate
            } else {
                PCM_SAMPLE_RATE
            }) && r.1 == 0,
            text@.len() > 0 ==> r.0 == beep_rate(self.spec_manifest().sample_rate)
                && r.1 == (beep_rate(self.spec_manifest().sample_rate) as int * beep_ms(text.spec_bytes().len())) / 1000,
    {
        if text.is_empty() {
            let sr = if self.manifest.sample_rate > PCM_SAMPLE_RATE { self.manifest.sample_rate } else { PCM_SAMPLE_RATE };
            return (sr, 0);
        }
        let sr = if self.manifest.sample_rate > 0 { self.manifest.sample_rate } else { PCM_SAMPLE_RATE };
        let len = text.len();
        let ms_full = 50 + len * 15;
        let ms: u32 = if ms_full < 800 { ms_full as u32 } else { 800 };
        assert(sr as int * ms as int <= u32::MAX);
        let product: u32 = sr * ms;
        let n = (product / 1000) as usize;
        (sr, n)
    }
}

} // verus!
