//! State of the desktop front end: the transcript and translation panels,
//! status and error lines, provider list and last VAD reading, and how
//! each pipeline event and button changes them. Numbers are shown as text
//! that the front end formats.

use vstd::prelude::*;
use crate::choices::WhisperSize;
use crate::text::{chars_of, copy_str};

verus! {

/// Text shown in the transcript panel before the first run (a font check).
pub const PLACEHOLDER_ORIGINAL: &'static str = "مرحبا · 你好 · こんにちは · 안녕하세요 · नमस्ते · Привет";

/// Text shown in the translation panel before the first run.
pub const PLACEHOLDER_ENGLISH: &'static str = "Hello — font check";

/// What the front end shows.
pub struct GuiState {
    pub running: bool,
    /// Original-language transcript, one line per delivered transcript.
    pub transcript: String,
    /// English panel, one line per delivered transcript.
    pub translation: String,
    /// Whether both panels still show the placeholders.
    pub placeholders: bool,
    pub status: String,
    pub error: String,
    pub ep_lines: Vec<String>,
    pub last_vad: String,
}

/// `s` with `line` appended on a line of its own.
pub open spec fn append_line(s: Seq<char>, line: Seq<char>) -> Seq<char> {
    if s.len() > 0 { s + seq!['\n'] + line } else { line }
}

/// A panel line: the text and its confidence.
pub open spec fn conf_line(text: Seq<char>, conf: Seq<char>) -> Seq<char> {
    text + "  (conf="@ + conf + ")"@
}

/// The English panel line of a transcript: the translation when there is a
/// non-empty one, else a dash.
pub open spec fn translation_line(translation: Option<Seq<char>>, conf: Seq<char>) -> Seq<char> {
    match translation {
        Some(t) => if t.len() > 0 { conf_line(t, conf) } else { "—"@ },
        None => "—"@,
    }
}

/// A provider line: its key and whether it is available.
pub open spec fn ep_line_spec(key: Seq<char>, available: bool) -> Seq<char> {
    key + ": "@ + if available { "available"@ } else { "n/a"@ }
}

/// The VAD line: the probability text and the verdict.
pub open spec fn vad_line_spec(prob: Seq<char>, is_speech: bool) -> Seq<char> {
    "prob="@ + prob + " "@ + if is_speech { "SPEECH"@ } else { "silence"@ }
}

/// The status after the worker finished successfully.
pub open spec fn status_after_finish(status: Seq<char>) -> Seq<char> {
    if status == "stopping…"@ || (status.len() >= 7 && status.take(7) == "running"@) {
        "stopped"@
    } else {
        status
    }
}

/// Message for a selected Whisper model that is not on disk.
pub open spec fn missing_model_message_spec(path: Seq<char>, size: WhisperSize) -> Seq<char> {
    "Whisper model missing: "@ + path + " — run scripts/download-models.sh (WHISPER_SIZES includes "@
        + size.tag_spec() + ")"@
}

/// Status line announcing the recognition language and model file.
pub open spec fn asr_status_message_spec(code: Seq<char>, size: WhisperSize) -> Seq<char> {
    "asr language="@ + code + " model="@ + size.filename_spec()
}

fn concat(a: String, b: &str) -> (r: String)
    ensures
        r@ == a@ + b@,
{
    let mut a = a;
    a.append(b);
    a
}

fn starts_with_running(s: &str) -> (r: bool)
    ensures
        r == (s@.len() >= 7 && s@.take(7) == "running"@),
{
    proof {
        reveal_strlit("running");
    }
    let c = chars_of(s);
    let p = chars_of("running");
    if c.len() < 7 {
        return false;
    }
    let mut i: usize = 0;
    while i < 7
        invariant
            0 <= i <= 7,
            c@ == s@,
            p@ == "running"@,
            p@.len() == 7,
            c@.len() >= 7,
            forall|k: int| 0 <= k < i ==> c@[k] == p@[k],
        decreases 7 - i,
    {
        if c[i] != p[i] {
            return false;
        }
        i += 1;
    }
    assert(s@.take(7) =~= "running"@);
    true
}

fn str_equals(s: &str, lit: &str) -> (r: bool)
    ensures
        r == (s@ == lit@),
{
    crate::text::chars_eq(chars_of(s).as_slice(), chars_of(lit).as_slice())
}

/// A provider line for the list.
pub fn ep_line(key: &str, available: bool) -> (r: String)
    ensures
        r@ == ep_line_spec(key@, available),
{
    let r = concat(copy_str(key), ": ");
    concat(r, if available { "available" } else { "n/a" })
}

/// Message for a selected Whisper model that is not on disk.
pub fn missing_model_message(path: &str, size: WhisperSize) -> (r: String)
    ensures
        r@ == missing_model_message_spec(path@, size),
{
    let r = concat(String::from_str("Whisper model missing: "), path);
    let r = concat(r, " — run scripts/download-models.sh (WHISPER_SIZES includes ");
    let r = concat(r, size.tag());
    concat(r, ")")
}

/// Status line announcing the recognition language and model file.
pub fn asr_status_message(code: &str, size: WhisperSize) -> (r: String)
    ensures
        r@ == asr_status_message_spec(code@, size),
{
    let r = concat(String::from_str("asr language="), code);
    let r = concat(r, " model=");
    concat(r, size.filename())
}

impl GuiState {
    /// The idle state: placeholders in both panels and the given providers.
    pub fn new(ep_lines: Vec<String>) -> (r: Self)
        ensures
            !r.running,
            r.placeholders,
            r.transcript@ == PLACEHOLDER_ORIGINAL@,
            r.translation@ == PLACEHOLDER_ENGLISH@,
            r.status@ == "idle"@,
            r.error@.len() == 0,
            r.ep_lines@ == ep_lines@,
            r.last_vad@ == "—"@,
    {
        GuiState {
            running: false,
            transcript: String::from_str(PLACEHOLDER_ORIGINAL),
            translation: String::from_str(PLACEHOLDER_ENGLISH),
            placeholders: true,
            status: String::from_str("idle"),
            error: String::new(),
            ep_lines,
            last_vad: String::from_str("—"),
        }
    }

    /// Empties both panels the first time real text arrives.
    pub fn clear_placeholders(&mut self)
        ensures
            !final(self).placeholders,
            old(self).placeholders ==> final(self).transcript@.len() == 0 && final(self).translation@.len() == 0,
            !old(self).placeholders ==> final(self).transcript == old(self).transcript
                && final(self).translation == old(self).translation,
            final(self).running == old(self).running,
            final(self).status == old(self).status,
            final(self).error == old(self).error,
            final(self).ep_lines == old(self).ep_lines,
            final(self).last_vad == old(self).last_vad,
    {
        if self.placeholders {
            self.transcript = String::new();
            self.translation = String::new();
            self.placeholders = false;
        }
    }

    /// The Clear button: both panels and the error are emptied.
    pub fn clear(&mut self)
        ensures
            final(self).transcript@.len() == 0,
            final(self).translation@.len() == 0,
            !final(self).placeholders,
            final(self).error@.len() == 0,
            final(self).running == old(self).running,
            final(self).status == old(self).status,
            final(self).ep_lines == old(self).ep_lines,
            final(self).last_vad == old(self).last_vad,
    {
        self.transcript = String::new();
        self.translation = String::new();
        self.placeholders = false;
        self.error = String::new();
    }

    /// The Start button: refused (false) while running; otherwise the
    /// error is cleared, the placeholders go, and the start proceeds.
    pub fn begin_start(&mut self) -> (r: bool)
        ensures
            r == !old(self).running,
            old(self).running ==> *final(self) == *old(self),
            !old(self).running ==> final(self).error@.len() == 0 && !final(self).placeholders
                && (old(self).placeholders ==> final(self).transcript@.len() == 0 && final(self).translation@.len() == 0)
                && (!old(self).placeholders ==> final(self).transcript == old(self).transcript
                    && final(self).translation == old(self).translation)
                && !final(self).running
                && final(self).status == old(self).status
                && final(self).ep_lines == old(self).ep_lines
                && final(self).last_vad == old(self).last_vad,
    {
        if self.running {
            return false;
        }
        self.error = String::new();
        self.clear_placeholders();
        true
    }

    /// The start failed before the worker ran (no profile found).
    pub fn start_failed(&mut self, message: String)
        ensures
            final(self).error == message,
            final(self).running == old(self).running,
            final(self).transcript == old(self).transcript,
            final(self).translation == old(self).translation,
            final(self).placeholders == old(self).placeholders,
            final(self).status == old(self).status,
            final(self).ep_lines == old(self).ep_lines,
            final(self).last_vad == old(self).last_vad,
    {
        self.error = message;
    }

    /// The worker was started with the given model size.
    pub fn started(&mut self, size: WhisperSize)
        ensures
            final(self).running,
            final(self).status@ == "running ("@ + size.filename_spec() + ")"@,
            final(self).transcript == old(self).transcript,
            final(self).translation == old(self).translation,
            final(self).placeholders == old(self).placeholders,
            final(self).error == old(self).error,
            final(self).ep_lines == old(self).ep_lines,
            final(self).last_vad == old(self).last_vad,
    {
        self.running = true;
        let s = concat(String::from_str("running ("), size.filename());
        self.status = concat(s, ")");
    }

    /// The Stop button.
    pub fn request_stop(&mut self)
        ensures
            final(self).status@ == "stopping…"@,
            final(self).running == old(self).running,
            final(self).transcript == old(self).transcript,
            final(self).translation == old(self).translation,
            final(self).placeholders == old(self).placeholders,
            final(self).error == old(self).error,
            final(self).ep_lines == old(self).ep_lines,
            final(self).last_vad == old(self).last_vad,
    {
        self.status = String::from_str("stopping…");
    }

    /// A delivered transcript: one line in each panel, the English one a
    /// dash when there is no translation.
    pub fn push_transcript(&mut self, text: &str, translation: Option<&str>, conf: &str)
        ensures
            !final(self).placeholders,
            final(self).transcript@ == append_line(
                if old(self).placeholders { seq![] } else { old(self).transcript@ },
                conf_line(text@, conf@),
            ),
            final(self).translation@ == append_line(
                if old(self).placeholders { seq![] } else { old(self).translation@ },
                translation_line(match translation { Some(t) => Some(t@), None => None }, conf@),
            ),
            final(self).running == old(self).running,
            final(self).status == old(self).status,
            final(self).error == old(self).error,
            final(self).ep_lines == old(self).ep_lines,
            final(self).last_vad == old(self).last_vad,
    {
        proof {
            reveal_strlit("\n");
        }
        self.clear_placeholders();
        let mut t = String::new();
        std::mem::swap(&mut t, &mut self.transcript);
        if !t.as_str().is_empty() {
            t = concat(t, "\n");
        }
        let t = concat(t, text);
        let t = concat(t, "  (conf=");
        let t = concat(t, conf);
        self.transcript = concat(t, ")");

        let mut e = String::new();
        std::mem::swap(&mut e, &mut self.translation);
        if !e.as_str().is_empty() {
            e = concat(e, "\n");
        }
        let e = match translation {
            Some(tr) => {
                if !tr.is_empty() {
                    let e = concat(e, tr);
                    let e = concat(e, "  (conf=");
                    let e = concat(e, conf);
                    concat(e, ")")
                } else {
                    concat(e, "—")
                }
            },
            None => concat(e, "—"),
        };
        self.translation = e;
    }

    /// A VAD reading.
    pub fn set_vad(&mut self, prob: &str, is_speech: bool)
        ensures
            final(self).last_vad@ == vad_line_spec(prob@, is_speech),
            final(self).running == old(self).running,
            final(self).transcript == old(self).transcript,
            final(self).translation == old(self).translation,
            final(self).placeholders == old(self).placeholders,
            final(self).status == old(self).status,
            final(self).error == old(self).error,
            final(self).ep_lines == old(self).ep_lines,
    {
        let v = concat(String::from_str("prob="), prob);
        let v = concat(v, " ");
        self.last_vad = concat(v, if is_speech { "SPEECH" } else { "silence" });
    }

    /// A status message from the pipeline.
    pub fn set_status(&mut self, status: String)
        ensures
            final(self).status == status,
            final(self).running == old(self).running,
            final(self).transcript == old(self).transcript,
            final(self).translation == old(self).translation,
            final(self).placeholders == old(self).placeholders,
            final(self).error == old(self).error,
            final(self).ep_lines == old(self).ep_lines,
            final(self).last_vad == old(self).last_vad,
    {
        self.status = status;
    }

    /// An error reported by the pipeline.
    pub fn set_error(&mut self, error: String)
        ensures
            final(self).error == error,
            final(self).running == old(self).running,
            final(self).transcript == old(self).transcript,
            final(self).translation == old(self).translation,
            final(self).placeholders == old(self).placeholders,
            final(self).status == old(self).status,
            final(self).ep_lines == old(self).ep_lines,
            final(self).last_vad == old(self).last_vad,
    {
        self.error = error;
    }

    /// The pipeline reported that it is done.
    pub fn done(&mut self)
        ensures
            final(self).status@ == "done"@,
            final(self).running == old(self).running,
            final(self).transcript == old(self).transcript,
            final(self).translation == old(self).translation,
            final(self).placeholders == old(self).placeholders,
            final(self).error == old(self).error,
            final(self).ep_lines == old(self).ep_lines,
            final(self).last_vad == old(self).last_vad,
    {
        self.status = String::from_str("done");
    }

    /// A provider reported by the pipeline is added to the list.
    pub fn add_ep(&mut self, name: &str, available: bool)
        ensures
            final(self).ep_lines@.len() == old(self).ep_lines@.len() + 1,
            final(self).ep_lines@.take(old(self).ep_lines@.len() as int) == old(self).ep_lines@,
            final(self).ep_lines@.last()@ == ep_line_spec(name@, available),
            final(self).running == old(self).running,
            final(self).transcript == old(self).transcript,
            final(self).translation == old(self).translation,
            final(self).placeholders == old(self).placeholders,
            final(self).status == old(self).status,
            final(self).error == old(self).error,
            final(self).last_vad == old(self).last_vad,
    {
        let line = ep_line(name, available);
        self.ep_lines.push(line);
        assert(self.ep_lines@.take(old(self).ep_lines@.len() as int) =~= old(self).ep_lines@);
    }

    /// The worker finished: an error is shown with status "error"; a
    /// successful run that was running or stopping shows "stopped".
    pub fn finished(&mut self, result: Result<(), String>)
        ensures
            !final(self).running,
            result matches Err(e) ==> final(self).error == e && final(self).status@ == "error"@,
            result is Ok ==> final(self).error == old(self).error
                && final(self).status@ == status_after_finish(old(self).status@),
            final(self).transcript == old(self).transcript,
            final(self).translation == old(self).translation,
            final(self).placeholders == old(self).placeholders,
            final(self).ep_lines == old(self).ep_lines,
            final(self).last_vad == old(self).last_vad,
    {
        proof {
            reveal_strlit("stopping…");
        }
        match result {
            Err(e) => {
                self.error = e;
                self.status = String::from_str("error");
            },
            Ok(()) => {
                if str_equals(self.status.as_str(), "stopping…") || starts_with_running(self.status.as_str()) {
                    self.status = String::from_str("stopped");
                }
            },
        }
        self.running = false;
    }

    /// The worker went away without reporting.
    pub fn disconnected(&mut self)
        ensures
            !final(self).running,
            final(self).status@ == "worker disconnected"@,
            final(self).transcript == old(self).transcript,
            final(self).translation == old(self).translation,
            final(self).placeholders == old(self).placeholders,
            final(self).error == old(self).error,
            final(self).ep_lines == old(self).ep_lines,
            final(self).last_vad == old(self).last_vad,
    {
        self.running = false;
        self.status = String::from_str("worker disconnected");
    }
}

} // verus!
