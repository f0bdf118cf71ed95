//! Decision logic of the pipeline run: audio source, optional VAD gate, ASR,
//! optional translation, transcript delivery and optional speech output.
//!
//! The runner that performs the I/O feeds each outcome to
//! [`PipelineDriver`] and carries out the action it returns.

use vstd::prelude::*;
use std::sync::Arc;
use std::sync::atomic::AtomicBool;

verus! {

/// Settings of one pipeline run.
pub struct PipelineConfig {
    pub enable_vad: bool,
    pub enable_mt: bool,
    pub enable_tts: bool,
    /// Stop after this many chunks (none: until the source ends or a stop).
    pub max_chunks: Option<usize>,
    /// Cooperative cancellation flag.
    pub stop: Option<Arc<AtomicBool>>,
}

impl Default for PipelineConfig {
    fn default() -> (r: Self)
        ensures
            r.enable_vad,
            r.enable_mt,
            !r.enable_tts,
            r.max_chunks is None,
            r.stop is None,
    {
        PipelineConfig { enable_vad: true, enable_mt: true, enable_tts: false, max_chunks: None, stop: None }
    }
}

impl PipelineConfig {
    /// Whether a stop has been requested: reads the cancellation flag, whose
    /// value another thread may change at any time.
    pub fn stop_requested(&self) -> (r: bool)
        ensures
            self.stop is None ==> !r,
    {
        match &self.stop {
            Some(flag) => read_flag(flag),
            None => false,
        }
    }

    /// Whether the ASR node should decode English next to the spoken language:
    /// whenever translation is enabled.
    pub fn wants_dual_translate(&self) -> (r: bool)
        ensures
            r == self.enable_mt,
    {
        self.enable_mt
    }
}

fn read_flag(flag: &Arc<AtomicBool>) -> bool {
    flag.load(std::sync::atomic::Ordering::Relaxed)
}

/// Where a run stands.
#[derive(Debug, Clone, Copy, PartialEq, Eq, Structural)]
pub enum Phase {
    /// At the top of the loop: check for a stop and the chunk limit.
    Top,
    AwaitPull,
    AwaitVad,
    AwaitAsr,
    AwaitMt,
    AwaitDelivery,
    AwaitSpeech,
    Finished,
}

/// What the runner does next.
#[derive(Debug, Clone)]
pub enum PipelineAction {
    /// Go back to the top of the loop.
    Continue,
    /// Pull the next chunk from the source.
    Pull,
    /// Run voice-activity detection on the chunk.
    RunVad,
    /// Run speech recognition on the chunk.
    RunAsr,
    /// Translate this text.
    RunMt(String),
    /// Hand this transcript to the event handler.
    Deliver { text: String, translation: Option<String> },
    /// Synthesize and play this text.
    Speak(String),
    /// Emit the final event and end the run successfully.
    Finish,
}

/// The decision state of a pipeline run.
pub struct PipelineDriver {
    enable_vad: bool,
    enable_mt: bool,
    enable_tts: bool,
    max_chunks: Option<usize>,
    has_vad: bool,
    has_asr: bool,
    has_mt: bool,
    has_tts: bool,
    chunks: usize,
    phase: Phase,
    text: String,
    translation: Option<String>,
}

pub open spec fn opt_view(o: Option<String>) -> Option<Seq<char>> {
    match o {
        Some(s) => Some(s@),
        None => None,
    }
}

impl PipelineDriver {
    pub closed spec fn spec_phase(&self) -> Phase {
        self.phase
    }

    pub closed spec fn spec_chunks(&self) -> nat {
        self.chunks as nat
    }

    pub closed spec fn spec_max_chunks(&self) -> Option<usize> {
        self.max_chunks
    }

    pub closed spec fn spec_flags(&self) -> (bool, bool, bool, bool, bool, bool, bool) {
        (self.enable_vad, self.enable_mt, self.enable_tts, self.has_vad, self.has_asr, self.has_mt, self.has_tts)
    }

    pub closed spec fn spec_text(&self) -> Seq<char> {
        self.text@
    }

    pub closed spec fn spec_translation(&self) -> Option<Seq<char>> {
        opt_view(self.translation)
    }

    /// The chunk count never exceeds the limit.
    pub closed spec fn wf(&self) -> bool {
        self.max_chunks matches Some(m) ==> self.chunks <= m
    }

    /// A run over the configured nodes that are present.
    pub fn new(config: &PipelineConfig, has_vad: bool, has_asr: bool, has_mt: bool, has_tts: bool) -> (r: Self)
        ensures
            r.wf(),
            r.spec_phase() == Phase::Top,
            r.spec_chunks() == 0,
            r.spec_max_chunks() == config.max_chunks,
            r.spec_flags() == (config.enable_vad, config.enable_mt, config.enable_tts, has_vad, has_asr, has_mt, has_tts),
    {
        PipelineDriver {
            enable_vad: config.enable_vad,
            enable_mt: config.enable_mt,
            enable_tts: config.enable_tts,
            max_chunks: config.max_chunks,
            has_vad,
            has_asr,
            has_mt,
            has_tts,
            chunks: 0,
            phase: Phase::Top,
            text: String::new(),
            translation: None,
        }
    }

    /// Number of chunks pulled so far.
    pub fn chunks(&self) -> (r: usize)
        ensures
            r == self.spec_chunks(),
    {
        self.chunks
    }

    /// At the top of the loop: finish on a stop request or when the chunk
    /// limit is reached, else pull.
    pub fn resume(&mut self, stop_requested: bool) -> (r: PipelineAction)
        requires
            old(self).wf(),
            old(self).spec_phase() == Phase::Top,
        ensures
            final(self).wf(),
            final(self).spec_chunks() == old(self).spec_chunks(),
            final(self).spec_flags() == old(self).spec_flags(),
            final(self).spec_max_chunks() == old(self).spec_max_chunks(),
            (stop_requested || (old(self).spec_max_chunks() matches Some(m) && old(self).spec_chunks() >= m))
                ==> r is Finish && final(self).spec_phase() == Phase::Finished,
            !(stop_requested || (old(self).spec_max_chunks() matches Some(m) && old(self).spec_chunks() >= m))
                ==> r is Pull && final(self).spec_phase() == Phase::AwaitPull,
    {
        if stop_requested {
            self.phase = Phase::Finished;
            return PipelineAction::Finish;
        }
        if let Some(max) = self.max_chunks {
            if self.chunks >= max {
                self.phase = Phase::Finished;
                return PipelineAction::Finish;
            }
        }
        self.phase = Phase::AwaitPull;
        PipelineAction::Pull
    }

    /// After a pull: an empty chunk ends the run; otherwise the chunk is
    /// counted and goes to the VAD gate when enabled and present, else to
    /// recognition when present.
    pub fn pulled(&mut self, empty: bool) -> (r: PipelineAction)
        requires
            old(self).wf(),
            old(self).spec_phase() == Phase::AwaitPull,
            !(old(self).spec_max_chunks() matches Some(m) && old(self).spec_chunks() >= m),
            old(self).spec_chunks() < usize::MAX,
        ensures
            final(self).wf(),
            final(self).spec_flags() == old(self).spec_flags(),
            final(self).spec_max_chunks() == old(self).spec_max_chunks(),
            empty ==> r is Finish && final(self).spec_phase() == Phase::Finished
                && final(self).spec_chunks() == old(self).spec_chunks(),
            !empty ==> final(self).spec_chunks() == old(self).spec_chunks() + 1,
            !empty && old(self).spec_flags().0 && old(self).spec_flags().3
                ==> r is RunVad && final(self).spec_phase() == Phase::AwaitVad,
            !empty && !(old(self).spec_flags().0 && old(self).spec_flags().3) && old(self).spec_flags().4
                ==> r is RunAsr && final(self).spec_phase() == Phase::AwaitAsr,
            !empty && !(old(self).spec_flags().0 && old(self).spec_flags().3) && !old(self).spec_flags().4
                ==> r is Continue && final(self).spec_phase() == Phase::Top,
    {
        if empty {
            self.phase = Phase::Finished;
            return PipelineAction::Finish;
        }
        self.chunks = self.chunks + 1;
        if self.enable_vad && self.has_vad {
            self.phase = Phase::AwaitVad;
            PipelineAction::RunVad
        } else {
            self.to_asr()
        }
    }

    fn to_asr(&mut self) -> (r: PipelineAction)
        ensures
            final(self).spec_chunks() == old(self).spec_chunks(),
            final(self).spec_flags() == old(self).spec_flags(),
            final(self).spec_max_chunks() == old(self).spec_max_chunks(),
            old(self).spec_flags().4 ==> r is RunAsr && final(self).spec_phase() == Phase::AwaitAsr,
            !old(self).spec_flags().4 ==> r is Continue && final(self).spec_phase() == Phase::Top,
    {
        if self.has_asr {
            self.phase = Phase::AwaitAsr;
            PipelineAction::RunAsr
        } else {
            self.phase = Phase::Top;
            PipelineAction::Continue
        }
    }

    /// After VAD: a handler that asks to stop ends the run; silence skips
    /// the chunk; speech goes on to recognition when present.
    pub fn vad_done(&mut self, is_speech: bool, keep_going: bool) -> (r: PipelineAction)
        requires
            old(self).spec_phase() == Phase::AwaitVad,
        ensures
            final(self).spec_chunks() == old(self).spec_chunks(),
            final(self).spec_flags() == old(self).spec_flags(),
            final(self).spec_max_chunks() == old(self).spec_max_chunks(),
            !keep_going ==> r is Finish && final(self).spec_phase() == Phase::Finished,
            keep_going && !is_speech ==> r is Continue && final(self).spec_phase() == Phase::Top,
            keep_going && is_speech && old(self).spec_flags().4 ==> r is RunAsr && final(self).spec_phase() == Phase::AwaitAsr,
            keep_going && is_speech && !old(self).spec_flags().4 ==> r is Continue && final(self).spec_phase() == Phase::Top,
    {
        if !keep_going {
            self.phase = Phase::Finished;
            return PipelineAction::Finish;
        }
        if !is_speech {
            self.phase = Phase::Top;
            return PipelineAction::Continue;
        }
        self.to_asr()
    }

    /// After recognition: empty text skips the chunk; the recognizer's own
    /// translation is used when it gave one; otherwise, with translation
    /// enabled and a node present, the text is translated; otherwise the
    /// transcript is delivered without a translation.
    pub fn asr_done(&mut self, text: String, translation: Option<String>) -> (r: PipelineAction)
        requires
            old(self).spec_phase() == Phase::AwaitAsr,
        ensures
            final(self).spec_chunks() == old(self).spec_chunks(),
            final(self).spec_flags() == old(self).spec_flags(),
            final(self).spec_max_chunks() == old(self).spec_max_chunks(),
            text@.len() == 0 ==> r is Continue && final(self).spec_phase() == Phase::Top,
            text@.len() > 0 && translation is Some ==> final(self).spec_phase() == Phase::AwaitDelivery
                && (r matches PipelineAction::Deliver { text: t, translation: tr } && t@ == text@ && opt_view(tr) == opt_view(translation)),
            text@.len() > 0 && translation is None && old(self).spec_flags().1 && old(self).spec_flags().5
                ==> final(self).spec_phase() == Phase::AwaitMt && (r matches PipelineAction::RunMt(t) && t@ == text@),
            text@.len() > 0 && translation is None && !(old(self).spec_flags().1 && old(self).spec_flags().5)
                ==> final(self).spec_phase() == Phase::AwaitDelivery
                && (r matches PipelineAction::Deliver { text: t, translation: tr } && t@ == text@ && tr is None),
            final(self).spec_text() == if text@.len() > 0 { text@ } else { old(self).spec_text() },
            text@.len() > 0 ==> final(self).spec_translation() == opt_view(translation),
    {
        if text.as_str().is_empty() {
            self.phase = Phase::Top;
            return PipelineAction::Continue;
        }
        match translation {
            Some(tr) => {
                self.text = text.clone();
                self.translation = Some(tr.clone());
                self.phase = Phase::AwaitDelivery;
                PipelineAction::Deliver { text, translation: Some(tr) }
            },
            None => {
                self.text = text.clone();
                self.translation = None;
                if self.enable_mt && self.has_mt {
                    self.phase = Phase::AwaitMt;
                    PipelineAction::RunMt(text)
                } else {
                    self.phase = Phase::AwaitDelivery;
                    PipelineAction::Deliver { text, translation: None }
                }
            },
        }
    }

    /// After translation: the transcript is delivered with the translated
    /// text, or without a translation when it came back empty.
    pub fn mt_done(&mut self, translated: String) -> (r: PipelineAction)
        requires
            old(self).spec_phase() == Phase::AwaitMt,
        ensures
            final(self).spec_chunks() == old(self).spec_chunks(),
            final(self).spec_flags() == old(self).spec_flags(),
            final(self).spec_max_chunks() == old(self).spec_max_chunks(),
            final(self).spec_phase() == Phase::AwaitDelivery,
            final(self).spec_text() == old(self).spec_text(),
            final(self).spec_translation() == (if translated@.len() > 0 { Some(translated@) } else { None }),
            r matches PipelineAction::Deliver { text: t, translation: tr } && t@ == old(self).spec_text()
                && opt_view(tr) == final(self).spec_translation(),
    {
        let tr = if translated.as_str().is_empty() { None } else { Some(translated) };
        self.translation = match &tr {
            Some(t) => Some(t.clone()),
            None => None,
        };
        self.phase = Phase::AwaitDelivery;
        PipelineAction::Deliver { text: self.text.clone(), translation: tr }
    }

    /// After delivery: a handler that asks to stop ends the run; with speech
    /// output enabled and a node present, the translation (else the text) is
    /// spoken; otherwise the loop continues.
    pub fn delivered(&mut self, keep_going: bool) -> (r: PipelineAction)
        requires
            old(self).spec_phase() == Phase::AwaitDelivery,
        ensures
            final(self).spec_chunks() == old(self).spec_chunks(),
            final(self).spec_flags() == old(self).spec_flags(),
            final(self).spec_max_chunks() == old(self).spec_max_chunks(),
            !keep_going ==> r is Finish && final(self).spec_phase() == Phase::Finished,
            keep_going && old(self).spec_flags().2 && old(self).spec_flags().6 ==> final(self).spec_phase() == Phase::AwaitSpeech
                && (r matches PipelineAction::Speak(t) && t@ == match old(self).spec_translation() {
                    Some(tr) => tr,
                    None => old(self).spec_text(),
                }),
            keep_going && !(old(self).spec_flags().2 && old(self).spec_flags().6) ==> r is Continue
                && final(self).spec_phase() == Phase::Top,
    {
        if !keep_going {
            self.phase = Phase::Finished;
            return PipelineAction::Finish;
        }
        if self.enable_tts && self.has_tts {
            let speak = match &self.translation {
                Some(t) => t.clone(),
                None => self.text.clone(),
            };
            self.phase = Phase::AwaitSpeech;
            PipelineAction::Speak(speak)
        } else {
            self.phase = Phase::Top;
            PipelineAction::Continue
        }
    }

    /// After speech output the loop continues.
    pub fn spoken(&mut self) -> (r: PipelineAction)
        requires
            old(self).spec_phase() == Phase::AwaitSpeech,
        ensures
            final(self).spec_chunks() == old(self).spec_chunks(),
            final(self).spec_flags() == old(self).spec_flags(),
            final(self).spec_max_chunks() == old(self).spec_max_chunks(),
            r is Continue,
            final(self).spec_phase() == Phase::Top,
    {
        self.phase = Phase::Top;
        PipelineAction::Continue
    }
}

} // verus!
