//! Speech-recognition node configuration and the decision logic around its
//! backends, selected by the manifest's `meta.backend`:
//!
//! - `tiny_energy`: a small demo model (energy to four labels),
//! - `whisper`: a Whisper encoder through ONNX Runtime (diagnostic only),
//! - `whisper_ggml`: Whisper through whisper.cpp with `ggml-*.bin` weights.
//!
//! The node is generic over the sample type of the PCM it buffers.

use vstd::prelude::*;
use crate::paths::{path_exists, path_extension, spec_path_extension};
use crate::profile::{Manifest, meta_lookup, meta_signed, meta_text};
use crate::text::{
    ascii_lower, ascii_lower_chars, chars_eq, chars_of, contains_substring, has_substring,
    copy_str, spec_is_whitespace, string_from_chars, trim, trim_chars,
};

verus! {

/// Minimum buffered PCM before decoding with whisper.cpp (2 s at 16 kHz).
pub const WHISPER_MIN_SAMPLES: usize = 32_000;

/// whisper.cpp rejects inputs shorter than one second; shorter windows are
/// padded with silence up to this length.
pub const WHISPER_HARD_MIN_SAMPLES: usize = 16_000;

/// Cap on a decoding window (the 30 s Whisper window at 16 kHz).
pub const WHISPER_MAX_SAMPLES: usize = 480_000;

/// The recognizer implementation behind a node.
#[derive(Debug, Clone, Copy, PartialEq, Eq, Structural)]
pub enum AsrBackend {
    TinyEnergy,
    WhisperOrt,
    WhisperGgml,
}

/// The backend a manifest selects: an explicit `meta.backend`, else a
/// whisper plug with `.bin` weights is whisper.cpp, any other whisper plug
/// is the ONNX Whisper path, and everything else is the energy demo.
pub open spec fn backend_spec(backend: Seq<char>, id: Seq<char>, model_path: Seq<char>) -> AsrBackend {
    if backend == "whisper_ggml"@ || backend == "whisper-cpp"@ || backend == "ggml"@ {
        AsrBackend::WhisperGgml
    } else if backend == "whisper"@ || backend == "whisper_ort"@ {
        AsrBackend::WhisperOrt
    } else if backend == "tiny_energy"@ {
        AsrBackend::TinyEnergy
    } else if has_substring(id, "whisper"@) && spec_path_extension(model_path) == Some("bin"@) {
        AsrBackend::WhisperGgml
    } else if has_substring(id, "whisper"@) {
        AsrBackend::WhisperOrt
    } else {
        AsrBackend::TinyEnergy
    }
}

/// The manifest's `meta.backend` decides the backend whatever the id and
/// model path: "whisper_ggml", "whisper-cpp" and "ggml" select whisper.cpp,
/// "whisper" and "whisper_ort" select the ONNX Runtime Whisper plug, and
/// "tiny_energy" the energy demo model.
pub proof fn lemma_backend_by_name(id: Seq<char>, model_path: Seq<char>)
    ensures
        backend_spec("whisper_ggml"@, id, model_path) == AsrBackend::WhisperGgml,
        backend_spec("whisper-cpp"@, id, model_path) == AsrBackend::WhisperGgml,
        backend_spec("ggml"@, id, model_path) == AsrBackend::WhisperGgml,
        backend_spec("whisper"@, id, model_path) == AsrBackend::WhisperOrt,
        backend_spec("whisper_ort"@, id, model_path) == AsrBackend::WhisperOrt,
        backend_spec("tiny_energy"@, id, model_path) == AsrBackend::TinyEnergy,
{
    reveal_strlit("whisper_ggml");
    reveal_strlit("whisper-cpp");
    reveal_strlit("ggml");
    reveal_strlit("whisper");
    reveal_strlit("whisper_ort");
    reveal_strlit("tiny_energy");
    assert("whisper"@ != "whisper_ggml"@ && "whisper"@ != "whisper-cpp"@ && "whisper"@ != "ggml"@) by {
        assert("whisper"@.len() != "whisper_ggml"@.len());
        assert("whisper"@.len() != "whisper-cpp"@.len());
        assert("whisper"@.len() != "ggml"@.len());
    }
    assert("whisper_ort"@ != "whisper_ggml"@ && "whisper_ort"@ != "whisper-cpp"@ && "whisper_ort"@ != "ggml"@) by {
        assert("whisper_ort"@.len() != "whisper_ggml"@.len());
        assert("whisper_ort"@[7] != "whisper-cpp"@[7]);
        assert("whisper_ort"@.len() != "ggml"@.len());
    }
    assert("tiny_energy"@ != "whisper_ggml"@ && "tiny_energy"@ != "whisper-cpp"@ && "tiny_energy"@ != "ggml"@
        && "tiny_energy"@ != "whisper"@ && "tiny_energy"@ != "whisper_ort"@) by {
        assert("tiny_energy"@[0] != "whisper_ggml"@[0]);
        assert("tiny_energy"@[0] != "whisper-cpp"@[0]);
        assert("tiny_energy"@[0] != "ggml"@[0]);
        assert("tiny_energy"@[0] != "whisper"@[0]);
        assert("tiny_energy"@[0] != "whisper_ort"@[0]);
    }
}

/// A node built from a manifest whose `meta.backend` is "whisper" uses the
/// ONNX Runtime Whisper plug and loads it as a session.
pub proof fn lemma_whisper_backend_is_ort(m: Manifest)
    requires
        meta_text(meta_lookup(m.meta@, "backend"@)) == Some("whisper"@),
    ensures
        backend_spec(backend_name_spec(m), m.id@, m.model_path@) == AsrBackend::WhisperOrt,
{
    lemma_backend_by_name(m.id@, m.model_path@);
}

/// Whisper output is kept, trimmed, whenever its trimmed text holds any
/// character other than '.', '…' and whitespace; otherwise it is dropped.
pub proof fn lemma_sanitize_keeps_speech(text: Seq<char>)
    ensures
        (exists|i: int| 0 <= i < trim(text).len() && !(trim(text)[i] == '.' || trim(text)[i] == '…'
            || spec_is_whitespace(trim(text)[i]))) ==> sanitize_spec(text) == trim(text),
        (forall|i: int| 0 <= i < trim(text).len() ==> (trim(text)[i] == '.' || trim(text)[i] == '…'
            || spec_is_whitespace(trim(text)[i]))) ==> sanitize_spec(text).len() == 0,
{
    let t = trim(text);
    if exists|i: int| 0 <= i < t.len() && !(t[i] == '.' || t[i] == '…' || spec_is_whitespace(t[i])) {
        let i = choose|i: int| 0 <= i < t.len() && !(t[i] == '.' || t[i] == '…' || spec_is_whitespace(t[i]));
        assert(!(t[i] == '.' || t[i] == '…' || spec_is_whitespace(t[i])));
        assert(!dots_only(t));
    }
}

/// The first listed language that is neither "multilingual" nor "und".
pub open spec fn first_specific_language(languages: Seq<String>) -> Option<Seq<char>>
    decreases languages.len(),
{
    if languages.len() == 0 {
        None
    } else if languages[0]@ != "multilingual"@ && languages[0]@ != "und"@ {
        Some(languages[0]@)
    } else {
        first_specific_language(languages.drop_first())
    }
}

/// The recognition language of a manifest: `meta.language`, else the first
/// specific listed language, else "en".
pub open spec fn language_spec(m: Manifest) -> Seq<char> {
    match meta_text(meta_lookup(m.meta@, "language"@)) {
        Some(l) => l,
        None => match first_specific_language(m.languages@) {
            Some(l) => l,
            None => "en"@,
        },
    }
}

/// Whether `meta.task` asks for translation (ASCII case ignored).
pub open spec fn translate_spec(m: Manifest) -> bool {
    match meta_text(meta_lookup(m.meta@, "task"@)) {
        Some(t) => ascii_lower(t) == ascii_lower("translate"@),
        None => false,
    }
}

/// The decoder thread count of `meta.n_threads`, truncated to `i32`; none
/// means the machine's parallelism (capped at four) decides.
pub open spec fn threads_spec(m: Manifest) -> Option<i32> {
    match meta_signed(meta_lookup(m.meta@, "n_threads"@)) {
        Some(n) => Some(n as i32),
        None => None,
    }
}

/// The backend name read from a manifest, empty when absent.
pub open spec fn backend_name_spec(m: Manifest) -> Seq<char> {
    match meta_text(meta_lookup(m.meta@, "backend"@)) {
        Some(b) => b,
        None => Seq::empty(),
    }
}

/// What loading the node's model requires next.
#[derive(Debug, Clone, Copy, PartialEq, Eq, Structural)]
pub enum LoadStep {
    /// The model is loaded already.
    Ready,
    /// The model file is missing: the node stays unloaded and emits stubs.
    Missing,
    /// Create the whisper.cpp context from the model file.
    LoadWhisperContext,
    /// Load an ONNX Runtime session from the model file.
    LoadSession,
}

/// The last `n` elements of `s` (all of it when it is shorter).
pub open spec fn keep_last<S>(s: Seq<S>, n: nat) -> Seq<S> {
    if s.len() > n { s.skip(s.len() - n) } else { s }
}

/// Streaming whisper input: the window to decode now (if any) and the
/// buffer left afterwards, given the buffer and a new chunk.
pub open spec fn whisper_window_spec<S>(buf: Seq<S>, pcm: Seq<S>) -> (Option<Seq<S>>, Seq<S>) {
    let min = WHISPER_MIN_SAMPLES as nat;
    let max = WHISPER_MAX_SAMPLES as nat;
    if pcm.len() == 0 {
        (None, buf)
    } else if pcm.len() >= min {
        if buf.len() > 0 {
            (Some(keep_last(buf + pcm, max)), Seq::empty())
        } else {
            (Some(keep_last(pcm, max)), buf)
        }
    } else {
        let b = keep_last(buf + pcm, max);
        if b.len() < min {
            (None, b)
        } else {
            (Some(b), Seq::empty())
        }
    }
}

/// ASR node: configuration, load state and the streaming PCM buffer.
pub struct AsrNode<S> {
    pub manifest: Manifest,
    session_key: String,
    loaded: bool,
    backend: AsrBackend,
    /// Streaming PCM accumulator for short chunks.
    pcm_buf: Vec<S>,
    language: String,
    translate: bool,
    /// When set, whisper.cpp decodes twice: the spoken language and English.
    dual_translate: bool,
    /// Decoder threads from the manifest; none lets the machine decide.
    n_threads: Option<i32>,
}


fn str_is(s: &Vec<char>, lit: &str) -> (r: bool)
    ensures
        r == (s@ == lit@),
{
    chars_eq(s.as_slice(), chars_of(lit).as_slice())
}

impl<S: Copy> AsrNode<S> {
    pub closed spec fn spec_manifest(&self) -> Manifest {
        self.manifest
    }

    pub closed spec fn spec_session_key(&self) -> Seq<char> {
        self.session_key@
    }

    pub closed spec fn spec_loaded(&self) -> bool {
        self.loaded
    }

    pub closed spec fn spec_backend(&self) -> AsrBackend {
        self.backend
    }

    pub closed spec fn spec_buffer(&self) -> Seq<S> {
        self.pcm_buf@
    }

    pub closed spec fn spec_language(&self) -> Seq<char> {
        self.language@
    }

    pub closed spec fn spec_translate(&self) -> bool {
        self.translate
    }

    pub closed spec fn spec_dual_translate(&self) -> bool {
        self.dual_translate
    }

    pub closed spec fn spec_threads(&self) -> Option<i32> {
        self.n_threads
    }

    /// A node configured from a manifest, unloaded and with an empty buffer.
    pub fn from_manifest(manifest: Manifest) -> (r: Self)
        ensures
            r.spec_manifest() == manifest,
            r.spec_backend() == backend_spec(backend_name_spec(manifest), manifest.id@, manifest.model_path@),
            r.spec_language() == language_spec(manifest),
            r.spec_translate() == translate_spec(manifest),
            r.spec_threads() == threads_spec(manifest),
            r.spec_session_key() == "asr:"@ + manifest.id@,
            !r.spec_loaded(),
            !r.spec_dual_translate(),
            r.spec_buffer().len() == 0,
    {
        let backend_name: Vec<char> = match manifest.meta_str("backend") {
            Some(b) => chars_of(b.as_str()),
            None => Vec::new(),
        };
        let id = chars_of(manifest.id.as_str());
        let backend = if str_is(&backend_name, "whisper_ggml") || str_is(&backend_name, "whisper-cpp")
            || str_is(&backend_name, "ggml") {
            AsrBackend::WhisperGgml
        } else if str_is(&backend_name, "whisper") || str_is(&backend_name, "whisper_ort") {
            AsrBackend::WhisperOrt
        } else if str_is(&backend_name, "tiny_energy") {
            AsrBackend::TinyEnergy
        } else if contains_substring(&id, &chars_of("whisper")) && is_bin_extension(manifest.model_path.as_str()) {
            AsrBackend::WhisperGgml
        } else if contains_substring(&id, &chars_of("whisper")) {
            AsrBackend::WhisperOrt
        } else {
            AsrBackend::TinyEnergy
        };

        let language = match manifest.meta_str("language") {
            Some(l) => l,
            None => match first_specific(&manifest.languages) {
                Some(l) => l,
                None => String::from_str("en"),
            },
        };

        let translate = match manifest.meta_str("task") {
            Some(t) => chars_eq(
                ascii_lower_chars(&chars_of(t.as_str())).as_slice(),
                ascii_lower_chars(&chars_of("translate")).as_slice(),
            ),
            None => false,
        };

        let n_threads = match manifest.meta_i64("n_threads") {
            Some(n) => Some(n as i32),
            None => None,
        };

        let mut session_key = String::from_str("asr:");
        session_key.append(manifest.id.as_str());
        AsrNode {
            manifest,
            session_key,
            loaded: false,
            backend,
            pcm_buf: Vec::new(),
            language,
            translate,
            dual_translate: false,
            n_threads,
        }
    }

    /// Overrides the recognition language; the streaming buffer is cleared so
    /// that a language switch does not mix windows.
    pub fn set_language(&mut self, language: &str)
        ensures
            final(self).spec_language() == language@,
            final(self).spec_buffer().len() == 0,
            final(self).spec_manifest() == old(self).spec_manifest(),
            final(self).spec_backend() == old(self).spec_backend(),
            final(self).spec_loaded() == old(self).spec_loaded(),
            final(self).spec_translate() == old(self).spec_translate(),
            final(self).spec_dual_translate() == old(self).spec_dual_translate(),
            final(self).spec_session_key() == old(self).spec_session_key(),
            final(self).spec_threads() == old(self).spec_threads(),
    {
        self.language = copy_str(language);
        self.pcm_buf = Vec::new();
    }

    /// Points the node at another model file; the next load reloads it and
    /// the streaming buffer is cleared.
    pub fn set_model_path(&mut self, path: &str)
        ensures
            final(self).spec_manifest().model_path@ == path@,
            final(self).spec_manifest().id == old(self).spec_manifest().id,
            final(self).spec_manifest().capability == old(self).spec_manifest().capability,
            final(self).spec_manifest().ep_prefs == old(self).spec_manifest().ep_prefs,
            !final(self).spec_loaded(),
            final(self).spec_buffer().len() == 0,
            final(self).spec_language() == old(self).spec_language(),
            final(self).spec_backend() == old(self).spec_backend(),
            final(self).spec_translate() == old(self).spec_translate(),
            final(self).spec_dual_translate() == old(self).spec_dual_translate(),
            final(self).spec_session_key() == old(self).spec_session_key(),
            final(self).spec_threads() == old(self).spec_threads(),
    {
        self.manifest.model_path = copy_str(path);
        self.loaded = false;
        self.pcm_buf = Vec::new();
    }

    pub fn language(&self) -> (r: &str)
        ensures
            r@ == self.spec_language(),
    {
        self.language.as_str()
    }

    pub fn set_translate(&mut self, translate: bool)
        ensures
            final(self).spec_translate() == translate,
            final(self).spec_manifest() == old(self).spec_manifest(),
            final(self).spec_language() == old(self).spec_language(),
            final(self).spec_buffer() == old(self).spec_buffer(),
            final(self).spec_backend() == old(self).spec_backend(),
            final(self).spec_loaded() == old(self).spec_loaded(),
            final(self).spec_dual_translate() == old(self).spec_dual_translate(),
            final(self).spec_session_key() == old(self).spec_session_key(),
            final(self).spec_threads() == old(self).spec_threads(),
    {
        self.translate = translate;
    }

    pub fn translate(&self) -> (r: bool)
        ensures
            r == self.spec_translate(),
    {
        self.translate
    }

    pub fn set_dual_translate(&mut self, dual: bool)
        ensures
            final(self).spec_dual_translate() == dual,
            final(self).spec_manifest() == old(self).spec_manifest(),
            final(self).spec_language() == old(self).spec_language(),
            final(self).spec_buffer() == old(self).spec_buffer(),
            final(self).spec_backend() == old(self).spec_backend(),
            final(self).spec_loaded() == old(self).spec_loaded(),
            final(self).spec_translate() == old(self).spec_translate(),
            final(self).spec_session_key() == old(self).spec_session_key(),
            final(self).spec_threads() == old(self).spec_threads(),
    {
        self.dual_translate = dual;
    }

    pub fn dual_translate(&self) -> (r: bool)
        ensures
            r == self.spec_dual_translate(),
    {
        self.dual_translate
    }

    pub fn backend(&self) -> (r: AsrBackend)
        ensures
            r == self.spec_backend(),
    {
        self.backend
    }

    pub fn is_loaded(&self) -> (r: bool)
        ensures
            r == self.spec_loaded(),
    {
        self.loaded
    }

    pub fn session_key(&self) -> (r: &str)
        ensures
            r@ == self.spec_session_key(),
    {
        self.session_key.as_str()
    }

    pub fn n_threads(&self) -> (r: Option<i32>)
        ensures
            r == self.spec_threads(),
    {
        self.n_threads
    }

    /// Number of samples waiting in the streaming buffer.
    pub fn buffered_samples(&self) -> (r: usize)
        ensures
            r == self.spec_buffer().len(),
    {
        self.pcm_buf.len()
    }

    /// The load step that follows from the node's state and whether its
    /// model file exists.
    pub fn load_step_for(&self, model_exists: bool) -> (r: LoadStep)
        ensures
            self.spec_loaded() ==> r == LoadStep::Ready,
            !self.spec_loaded() && !model_exists ==> r == LoadStep::Missing,
            !self.spec_loaded() && model_exists && self.spec_backend() == AsrBackend::WhisperGgml
                ==> r == LoadStep::LoadWhisperContext,
            !self.spec_loaded() && model_exists && self.spec_backend() != AsrBackend::WhisperGgml
                ==> r == LoadStep::LoadSession,
    {
        if self.loaded {
            return LoadStep::Ready;
        }
        if !model_exists {
            return LoadStep::Missing;
        }
        match self.backend {
            AsrBackend::WhisperGgml => LoadStep::LoadWhisperContext,
            _ => LoadStep::LoadSession,
        }
    }

    /// The next load step, checking whether the model file exists.
    pub fn next_load_step(&self) -> (r: LoadStep)
        ensures
            self.spec_loaded() ==> r == LoadStep::Ready,
            !self.spec_loaded() && self.spec_backend() == AsrBackend::WhisperGgml
                ==> r != LoadStep::LoadSession && r != LoadStep::Ready,
            !self.spec_loaded() && self.spec_backend() != AsrBackend::WhisperGgml
                ==> r != LoadStep::LoadWhisperContext && r != LoadStep::Ready,
    {
        if self.loaded {
            return LoadStep::Ready;
        }
        let exists = path_exists(self.manifest.model_path.as_str());
        self.load_step_for(exists)
    }

    /// Records that the model has been loaded.
    pub fn mark_loaded(&mut self)
        ensures
            final(self).spec_loaded(),
            final(self).spec_manifest() == old(self).spec_manifest(),
            final(self).spec_language() == old(self).spec_language(),
            final(self).spec_buffer() == old(self).spec_buffer(),
            final(self).spec_backend() == old(self).spec_backend(),
            final(self).spec_translate() == old(self).spec_translate(),
            final(self).spec_dual_translate() == old(self).spec_dual_translate(),
            final(self).spec_session_key() == old(self).spec_session_key(),
            final(self).spec_threads() == old(self).spec_threads(),
    {
        self.loaded = true;
    }
}

fn is_bin_extension(path: &str) -> (r: bool)
    ensures
        r == (spec_path_extension(path@) == Some("bin"@)),
{
    match path_extension(path) {
        Some(e) => str_is(&chars_of(e.as_str()), "bin"),
        None => false,
    }
}

fn first_specific(languages: &Vec<String>) -> (r: Option<String>)
    ensures
        r matches Some(l) ==> first_specific_language(languages@) == Some(l@),
        r is None ==> first_specific_language(languages@) is None,
{
    let mut i: usize = 0;
    assert(languages@.skip(0) =~= languages@);
    while i < languages.len()
        invariant
            0 <= i <= languages.len(),
            first_specific_language(languages@) == first_specific_language(languages@.skip(i as int)),
        decreases languages.len() - i,
    {
        let ghost rest = languages@.skip(i as int);
        assert(rest[0] == languages@[i as int]);
        assert(rest.drop_first() =~= languages@.skip(i + 1));
        let l = chars_of(languages[i].as_str());
        if !str_is(&l, "multilingual") && !str_is(&l, "und") {
            return Some(copy_str(languages[i].as_str()));
        }
        i += 1;
    }
    None
}

/// Copies `s[from..to]`.
fn copy_range<S: Copy>(s: &[S], from: usize, to: usize) -> (r: Vec<S>)
    requires
        from <= to <= s.len(),
    ensures
        r@ == s@.subrange(from as int, to as int),
{
    let mut r: Vec<S> = Vec::new();
    let mut i = from;
    while i < to
        invariant
            from <= i <= to <= s.len(),
            r@ == s@.subrange(from as int, i as int),
        decreases to - i,
    {
        r.push(s[i]);
        i += 1;
        assert(r@ =~= s@.subrange(from as int, i as int));
    }
    r
}

/// Appends all of `s` to `v`.
fn extend_from<S: Copy>(v: &mut Vec<S>, s: &[S])
    ensures
        final(v)@ == old(v)@ + s@,
{
    let mut i: usize = 0;
    let ghost start = v@;
    while i < s.len()
        invariant
            0 <= i <= s.len(),
            v@ == start + s@.take(i as int),
        decreases s.len() - i,
    {
        v.push(s[i]);
        i += 1;
        assert(v@ =~= start + s@.take(i as int));
    }
    assert(s@.take(s.len() as int) =~= s@);
}

/// The last `n` elements of `v`.
fn keep_last_vec<S: Copy>(v: Vec<S>, n: usize) -> (r: Vec<S>)
    ensures
        r@ == keep_last(v@, n as nat),
{
    if v.len() > n {
        let r = copy_range(v.as_slice(), v.len() - n, v.len());
        assert(r@ =~= v@.skip(v@.len() - n));
        r
    } else {
        v
    }
}

impl<S: Copy> AsrNode<S> {
    /// Feeds one chunk to the streaming whisper input. Returns the window to
    /// decode now, or none while fewer than two seconds are buffered (and
    /// for an empty chunk). Long chunks are decoded at once together with
    /// what was buffered; every window is capped to its last 30 seconds.
    pub fn buffer_whisper_input(&mut self, pcm: &[S]) -> (r: Option<Vec<S>>)
        ensures
            ({
                let (win, buf) = whisper_window_spec(old(self).spec_buffer(), pcm@);
                &&& (r matches Some(w) ==> win == Some(w@))
                &&& (r is None ==> win is None)
                &&& final(self).spec_buffer() == buf
            }),
            final(self).spec_manifest() == old(self).spec_manifest(),
            final(self).spec_language() == old(self).spec_language(),
            final(self).spec_backend() == old(self).spec_backend(),
            final(self).spec_loaded() == old(self).spec_loaded(),
            final(self).spec_translate() == old(self).spec_translate(),
            final(self).spec_dual_translate() == old(self).spec_dual_translate(),
            final(self).spec_session_key() == old(self).spec_session_key(),
            final(self).spec_threads() == old(self).spec_threads(),
    {
        if pcm.len() == 0 {
            return None;
        }
        if pcm.len() >= WHISPER_MIN_SAMPLES {
            if self.pcm_buf.len() > 0 {
                let mut combined: Vec<S> = Vec::new();
                std::mem::swap(&mut combined, &mut self.pcm_buf);
                extend_from(&mut combined, pcm);
                return Some(keep_last_vec(combined, WHISPER_MAX_SAMPLES));
            }
            let window = if pcm.len() > WHISPER_MAX_SAMPLES {
                copy_range(pcm, pcm.len() - WHISPER_MAX_SAMPLES, pcm.len())
            } else {
                copy_range(pcm, 0, pcm.len())
            };
            assert(pcm@.subrange(0, pcm@.len() as int) =~= pcm@);
            assert(pcm@.len() > WHISPER_MAX_SAMPLES ==> pcm@.subrange(pcm@.len() - WHISPER_MAX_SAMPLES, pcm@.len() as int) =~= pcm@.skip(pcm@.len() - WHISPER_MAX_SAMPLES));
            return Some(window);
        }
        let mut buf: Vec<S> = Vec::new();
        std::mem::swap(&mut buf, &mut self.pcm_buf);
        extend_from(&mut buf, pcm);
        let buf = keep_last_vec(buf, WHISPER_MAX_SAMPLES);
        if buf.len() < WHISPER_MIN_SAMPLES {
            self.pcm_buf = buf;
            return None;
        }
        Some(buf)
    }

    /// Whether the first whisper pass translates: in dual mode it always
    /// transcribes; otherwise it follows the node's task.
    pub fn first_pass_translates(&self) -> (r: bool)
        ensures
            r == (!self.spec_dual_translate() && self.spec_translate()),
    {
        if self.dual_translate { false } else { self.translate }
    }

    /// Whether a non-empty first transcript is followed by an English
    /// (translate) pass: in dual mode, unless the language is English.
    pub fn wants_english_pass(&self) -> (r: bool)
        ensures
            r == (self.spec_dual_translate() && ascii_lower(self.spec_language()) != "en"@),
    {
        if !self.dual_translate {
            return false;
        }
        let lang = ascii_lower_chars(&chars_of(self.language.as_str()));
        !str_is(&lang, "en")
    }

    /// Whether an English pass follows a first pass that produced
    /// `first_text`: never after an empty transcript, otherwise as
    /// `wants_english_pass` says.
    pub fn english_pass_after(&self, first_text: &str) -> (r: bool)
        ensures
            r == (first_text@.len() > 0 && self.spec_dual_translate()
                && ascii_lower(self.spec_language()) != "en"@),
    {
        if first_text.is_empty() {
            return false;
        }
        self.wants_english_pass()
    }

    /// The language handed to whisper.cpp: "auto" for automatic detection
    /// ("auto", "detect" or "multilingual" in any ASCII case), else the
    /// node's language as it is.
    pub fn whisper_language(&self) -> (r: String)
        ensures
            r@ == whisper_language_spec(self.spec_language()),
    {
        let lang = ascii_lower_chars(&chars_of(self.language.as_str()));
        if str_is(&lang, "auto") || str_is(&lang, "detect") || str_is(&lang, "multilingual") {
            String::from_str("auto")
        } else {
            copy_str(self.language.as_str())
        }
    }
}

/// The language handed to whisper.cpp for a node language.
pub open spec fn whisper_language_spec(language: Seq<char>) -> Seq<char> {
    let l = ascii_lower(language);
    if l == "auto"@ || l == "detect"@ || l == "multilingual"@ {
        "auto"@
    } else {
        language
    }
}

/// The labels of the energy demo model's classes, by class index.
pub open spec fn tiny_energy_label(idx: nat) -> Seq<char> {
    if idx == 0 {
        "[silence]"@
    } else if idx == 1 {
        "[noise]"@
    } else if idx == 2 {
        "[speech]"@
    } else if idx == 3 {
        "[utterance]"@
    } else {
        "[?]"@
    }
}

/// The transcript of the energy demo model for its winning class: empty
/// for silence and noise, else the class label ("[?]" for an unknown class).
pub open spec fn tiny_energy_text_spec(idx: nat) -> Seq<char> {
    if idx <= 1 { seq![] } else { tiny_energy_label(idx) }
}

/// The label of the energy demo model's class `idx`.
pub fn tiny_energy_label_of(idx: usize) -> (r: &'static str)
    ensures
        r@ == tiny_energy_label(idx as nat),
{
    if idx == 0 {
        "[silence]"
    } else if idx == 1 {
        "[noise]"
    } else if idx == 2 {
        "[speech]"
    } else if idx == 3 {
        "[utterance]"
    } else {
        "[?]"
    }
}

/// The transcript of the energy demo model for its winning class.
pub fn tiny_energy_text(idx: usize) -> (r: String)
    ensures
        r@ == tiny_energy_text_spec(idx as nat),
{
    if idx <= 1 {
        String::new()
    } else {
        copy_str(tiny_energy_label_of(idx))
    }
}

/// The English translation of a second pass: none when it is empty.
pub fn translation_from(english: String) -> (r: Option<String>)
    ensures
        english@.len() == 0 ==> r is None,
        english@.len() > 0 ==> r == Some(english),
{
    if english.as_str().is_empty() { None } else { Some(english) }
}

/// Pads a decoding window with `silence` up to the one-second minimum.
pub fn pad_to_min<S: Copy>(pcm: &[S], silence: S) -> (r: Vec<S>)
    ensures
        pcm@.len() >= WHISPER_HARD_MIN_SAMPLES ==> r@ == pcm@,
        pcm@.len() < WHISPER_HARD_MIN_SAMPLES ==> r@.len() == WHISPER_HARD_MIN_SAMPLES
            && r@.take(pcm@.len() as int) == pcm@
            && forall|k: int| pcm@.len() <= k < WHISPER_HARD_MIN_SAMPLES ==> r@[k] == silence,
{
    let mut out = copy_range(pcm, 0, pcm.len());
    assert(pcm@.subrange(0, pcm@.len() as int) =~= pcm@);
    while out.len() < WHISPER_HARD_MIN_SAMPLES
        invariant
            pcm@.len() <= out@.len() <= (if pcm@.len() > WHISPER_HARD_MIN_SAMPLES { pcm@.len() as int } else { WHISPER_HARD_MIN_SAMPLES as int }),
            out@.take(pcm@.len() as int) == pcm@,
            forall|k: int| pcm@.len() <= k < out@.len() ==> out@[k] == silence,
        decreases WHISPER_HARD_MIN_SAMPLES - out.len(),
    {
        let ghost before = out@;
        out.push(silence);
        assert(out@.take(pcm@.len() as int) =~= before.take(pcm@.len() as int));
    }
    assert(pcm@.len() >= WHISPER_HARD_MIN_SAMPLES ==> out@ =~= out@.take(pcm@.len() as int));
    out
}

/// Whether every character is '.', '…' or whitespace.
pub open spec fn dots_only(t: Seq<char>) -> bool {
    forall|i: int| 0 <= i < t.len() ==> (t[i] == '.' || t[i] == '…' || spec_is_whitespace(#[trigger] t[i]))
}

/// A whisper transcript with empty and ellipsis-only hallucinations dropped.
pub open spec fn sanitize_spec(text: Seq<char>) -> Seq<char> {
    let t = trim(text);
    if t.len() == 0 {
        seq![]
    } else if dots_only(t) {
        seq![]
    } else {
        t
    }
}

/// Drops empty and ellipsis-only whisper output; otherwise trims it.
pub fn sanitize_whisper_text(text: String) -> (r: String)
    ensures
        r@ == sanitize_spec(text@),
{
    let t = trim_chars(&chars_of(text.as_str()));
    if t.len() == 0 {
        return String::new();
    }
    let mut i: usize = 0;
    while i < t.len()
        invariant
            0 <= i <= t.len(),
            t@ == trim(text@),
            t@.len() > 0,
            forall|k: int| 0 <= k < i ==> (t@[k] == '.' || t@[k] == '…' || spec_is_whitespace(#[trigger] t@[k])),
        decreases t.len() - i,
    {
        let c = t[i];
        if !(c == '.' || c == '…' || crate::text::is_whitespace(c)) {
            assert(!(t@[i as int] == '.' || t@[i as int] == '…' || spec_is_whitespace(t@[i as int])));
            assert(!dots_only(t@));
            return string_from_chars(t.as_slice());
        }
        i += 1;
    }
    String::new()
}

/// Cleaning whisper output twice changes nothing more.
pub proof fn lemma_sanitize_idempotent(text: Seq<char>)
    ensures
        sanitize_spec(sanitize_spec(text)) == sanitize_spec(text),
{
    crate::text::lemma_trim_by_idempotent(text, crate::text::ws_pred());
    let r = sanitize_spec(text);
    if r.len() == 0 {
        assert(trim(r) =~= r) by {
            assert(crate::text::trim_front(r, crate::text::ws_pred()) == r);
            assert(crate::text::trim_back(r, crate::text::ws_pred()) == r);
        }
    }
}

/// One step of assembling whisper segments: segments are trimmed and
/// separated by a space once some text exists.
pub open spec fn segments_text(segs: Seq<Seq<char>>) -> Seq<char>
    decreases segs.len(),
{
    if segs.len() == 0 {
        seq![]
    } else {
        let before = segments_text(segs.drop_last());
        let piece = trim(segs.last());
        if before.len() > 0 {
            before + seq![' '] + piece
        } else {
            before + piece
        }
    }
}

/// The transcript made from whisper's segment texts, sanitized.
pub fn assemble_transcript(segments: &Vec<String>) -> (r: String)
    ensures
        r@ == sanitize_spec(segments_text(crate::text::strings_of(segments@))),
{
    let mut text: Vec<char> = Vec::new();
    let mut i: usize = 0;
    while i < segments.len()
        invariant
            0 <= i <= segments.len(),
            text@ == segments_text(crate::text::strings_of(segments@).take(i as int)),
        decreases segments.len() - i,
    {
        let ghost t = crate::text::strings_of(segments@).take(i + 1);
        assert(t.drop_last() =~= crate::text::strings_of(segments@).take(i as int));
        assert(t.last() == segments@[i as int]@);
        if text.len() > 0 {
            text.push(' ');
        }
        let piece = trim_chars(&chars_of(segments[i].as_str()));
        extend_from(&mut text, piece.as_slice());
        i += 1;
    }
    assert(crate::text::strings_of(segments@).take(segments.len() as int) =~= crate::text::strings_of(segments@));
    sanitize_whisper_text(string_from_chars(text.as_slice()))
}

/// Streaming law: the buffer stays below the two-second threshold; when
/// nothing is cut by the 30-second cap, no sample is lost or reordered, and
/// a window is produced exactly when two seconds have accumulated or a long
/// chunk arrives.
pub proof fn lemma_whisper_window_conserves<S>(buf: Seq<S>, pcm: Seq<S>)
    requires
        buf.len() < WHISPER_MIN_SAMPLES,
    ensures
        ({
            let (win, next) = whisper_window_spec(buf, pcm);
            &&& next.len() < WHISPER_MIN_SAMPLES
            &&& (win matches Some(w) ==> w.len() <= WHISPER_MAX_SAMPLES)
            &&& (buf.len() + pcm.len() <= WHISPER_MAX_SAMPLES ==> match win {
                Some(w) => w + next == buf + pcm,
                None => next == buf + pcm,
            })
            &&& (win is Some <==> (pcm.len() > 0 && buf.len() + pcm.len() >= WHISPER_MIN_SAMPLES))
        }),
{
    let (win, next) = whisper_window_spec(buf, pcm);
    if pcm.len() == 0 {
        assert(buf + pcm =~= buf);
    } else if pcm.len() >= WHISPER_MIN_SAMPLES {
        if buf.len() > 0 {
            assert(win.unwrap() + next =~= keep_last(buf + pcm, WHISPER_MAX_SAMPLES as nat));
        } else {
            assert(buf + pcm =~= pcm);
            assert(win.unwrap() + next =~= keep_last(pcm, WHISPER_MAX_SAMPLES as nat));
        }
    } else {
        if next.len() == 0 {
            assert(win.unwrap() + next =~= win.unwrap());
        }
    }
}

} // verus!
