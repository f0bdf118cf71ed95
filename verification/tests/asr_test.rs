use edge_ort_runtime::asr::{
    assemble_transcript, pad_to_min, sanitize_whisper_text, tiny_energy_label_of, tiny_energy_text, translation_from, AsrBackend, AsrNode, LoadStep,
    WHISPER_HARD_MIN_SAMPLES, WHISPER_MAX_SAMPLES, WHISPER_MIN_SAMPLES,
};
use edge_ort_runtime::languages::SupportedLanguage;
use edge_ort_runtime::profile::{CapabilityKind, Manifest, MetaValue};

fn text(s: &str) -> MetaValue {
    MetaValue::Text(s.to_string())
}

fn sample_manifest(lang: Option<&str>, task: Option<&str>) -> Manifest {
    let mut meta = vec![("backend".to_string(), text("whisper_ggml"))];
    if let Some(l) = lang {
        meta.push(("language".to_string(), text(l)));
    }
    if let Some(t) = task {
        meta.push(("task".to_string(), text(t)));
    }
    Manifest {
        id: "test-whisper".into(),
        capability: CapabilityKind::Asr,
        model_path: "models/test.bin".into(),
        inputs: vec!["pcm".into()],
        outputs: vec!["text".into()],
        sample_rate: 16_000,
        languages: vec!["multilingual".into(), "fr".into()],
        ep_prefs: vec![],
        meta,
    }
}

#[test]
fn test_set_language_and_buffer_reset() {
    let mut node = AsrNode::<f32>::from_manifest(sample_manifest(Some("en"), None));
    assert_eq!(node.language(), "en");

    assert!(node.buffer_whisper_input(&[0.1, 0.2, 0.3]).is_none());
    assert!(node.buffered_samples() != 0);

    node.set_language("fr");
    assert_eq!(node.language(), "fr");
    assert!(node.buffered_samples() == 0, "changing language must reset buffer");
}

#[test]
fn test_dual_translate_toggle() {
    let mut node = AsrNode::<f32>::from_manifest(sample_manifest(Some("es"), None));
    assert!(!node.dual_translate());

    node.set_dual_translate(true);
    assert!(node.dual_translate());

    node.set_dual_translate(false);
    assert!(!node.dual_translate());
}

#[test]
fn test_from_manifest_language_resolution() {
    let n1 = AsrNode::<f32>::from_manifest(sample_manifest(Some("ru"), None));
    assert_eq!(n1.language(), "ru");

    let n2 = AsrNode::<f32>::from_manifest(sample_manifest(None, None));
    assert_eq!(n2.language(), "fr");

    let mut m3 = sample_manifest(None, None);
    m3.languages.clear();
    let n3 = AsrNode::<f32>::from_manifest(m3);
    assert_eq!(n3.language(), "en");
}

#[test]
fn test_from_manifest_translate_task() {
    let n_transcribe = AsrNode::<f32>::from_manifest(sample_manifest(None, Some("transcribe")));
    assert!(!n_transcribe.translate());

    let n_translate = AsrNode::<f32>::from_manifest(sample_manifest(None, Some("translate")));
    assert!(n_translate.translate());
}

#[test]
fn test_sanitize_whisper_text() {
    assert_eq!(sanitize_whisper_text("  Hello world!  ".into()), "Hello world!");
    assert_eq!(sanitize_whisper_text("  你好，世界！  ".into()), "你好，世界！");
    assert_eq!(sanitize_whisper_text("  こんにちは  ".into()), "こんにちは");
    assert_eq!(sanitize_whisper_text("  안녕하세요  ".into()), "안녕하세요");
    assert_eq!(sanitize_whisper_text("  مرحبا بالعالم  ".into()), "مرحبا بالعالم");
    assert_eq!(sanitize_whisper_text("  سلام دنیا  ".into()), "سلام دنیا");
    assert_eq!(sanitize_whisper_text("  Привет, мир!  ".into()), "Привет, мир!");
    assert_eq!(sanitize_whisper_text("  नमस्ते दुनिया  ".into()), "नमस्ते दुनिया");
    assert_eq!(sanitize_whisper_text("  Բարև աշխարհ  ".into()), "Բարև աշխարհ");
    assert_eq!(sanitize_whisper_text("...".into()), "");
    assert_eq!(sanitize_whisper_text("  …  ".into()), "");
    assert_eq!(sanitize_whisper_text(". . .".into()), "");
    assert_eq!(sanitize_whisper_text("   ".into()), "");
    assert_eq!(sanitize_whisper_text("".into()), "");
}

#[test]
fn test_all_languages_configurable_on_asr_node() {
    let manifest = Manifest {
        id: "whisper-test".into(),
        capability: CapabilityKind::Asr,
        model_path: "models/ggml-tiny.bin".into(),
        inputs: vec!["pcm".into()],
        outputs: vec!["text".into()],
        sample_rate: 16_000,
        languages: vec!["multilingual".into()],
        ep_prefs: vec![],
        meta: vec![("backend".to_string(), text("whisper_ggml"))],
    };

    let mut asr = AsrNode::<f32>::from_manifest(manifest);

    for lang in SupportedLanguage::ALL.iter() {
        let code = lang.code();
        asr.set_language(code);
        assert_eq!(asr.language(), code);

        let parsed = SupportedLanguage::from_code(code);
        if *lang == SupportedLanguage::ZhTw {
            assert_eq!(parsed, Some(SupportedLanguage::Zh));
        } else {
            assert_eq!(parsed, Some(*lang), "SupportedLanguage::from_code should round-trip for {code}");
        }
    }
}

fn plain_manifest(id: &str, path: &str, backend: Option<&str>) -> Manifest {
    let mut m = sample_manifest(None, None);
    m.id = id.into();
    m.model_path = path.into();
    m.meta = match backend {
        Some(b) => vec![("backend".to_string(), text(b))],
        None => vec![],
    };
    m
}

#[test]
fn backend_selection_follows_meta_then_id() {
    let b = |id: &str, path: &str, backend: Option<&str>| AsrNode::<f32>::from_manifest(plain_manifest(id, path, backend)).backend();
    assert_eq!(b("x", "m.onnx", Some("ggml")), AsrBackend::WhisperGgml);
    assert_eq!(b("x", "m.onnx", Some("whisper_ort")), AsrBackend::WhisperOrt);
    assert_eq!(b("whisper-x", "m.bin", Some("tiny_energy")), AsrBackend::TinyEnergy);
    assert_eq!(b("my-whisper", "models/w.bin", None), AsrBackend::WhisperGgml);
    assert_eq!(b("my-whisper", "models/w.onnx", None), AsrBackend::WhisperOrt);
    assert_eq!(b("energy", "models/w.bin", Some("WHISPER")), AsrBackend::TinyEnergy);
}

#[test]
fn threads_and_session_key_from_manifest() {
    let mut m = plain_manifest("tiny", "m.onnx", None);
    m.meta.push((
        "n_threads".to_string(),
        MetaValue::Number { signed: Some(3), unsigned: Some(3), literal: "3".to_string() },
    ));
    m.meta.push(("task".to_string(), text("TRANSLATE")));
    let node = AsrNode::<f32>::from_manifest(m);
    assert_eq!(node.n_threads(), Some(3));
    assert_eq!(node.session_key(), "asr:tiny");
    assert!(node.translate());
    assert!(!node.is_loaded());
    assert_eq!(node.load_step_for(false), LoadStep::Missing);
    assert_eq!(node.load_step_for(true), LoadStep::LoadSession);
    let ggml = AsrNode::<f32>::from_manifest(sample_manifest(None, None));
    assert_eq!(ggml.load_step_for(true), LoadStep::LoadWhisperContext);
    assert_eq!(ggml.next_load_step(), LoadStep::Missing);
}

#[test]
fn whisper_buffer_accumulates_until_two_seconds() {
    let mut node = AsrNode::<i16>::from_manifest(sample_manifest(Some("en"), None));
    let chunk = vec![1i16; 12_000];
    assert!(node.buffer_whisper_input(&chunk).is_none());
    assert!(node.buffer_whisper_input(&chunk).is_none());
    assert_eq!(node.buffered_samples(), 24_000);
    let w = node.buffer_whisper_input(&chunk).expect("window at two seconds");
    assert_eq!(w.len(), 36_000);
    assert_eq!(node.buffered_samples(), 0);
    assert!(node.buffer_whisper_input(&[]).is_none());

    let long: Vec<i16> = (0..40_000).map(|i| (i % 100) as i16).collect();
    let w2 = node.buffer_whisper_input(&long).expect("long chunk decodes at once");
    assert_eq!(w2, long);
    assert_eq!(WHISPER_MIN_SAMPLES, 32_000);

    let huge: Vec<i16> = (0..(WHISPER_MAX_SAMPLES + 5)).map(|i| (i % 7) as i16).collect();
    let w3 = node.buffer_whisper_input(&huge).unwrap();
    assert_eq!(w3.len(), WHISPER_MAX_SAMPLES);
    assert_eq!(w3[..], huge[5..]);
}

#[test]
fn dual_decode_plan() {
    let mut node = AsrNode::<f32>::from_manifest(sample_manifest(Some("fr"), Some("translate")));
    assert!(node.first_pass_translates());
    assert!(!node.wants_english_pass());
    node.set_dual_translate(true);
    assert!(!node.first_pass_translates());
    assert!(node.wants_english_pass());
    assert!(node.english_pass_after("Bonjour"));
    assert!(!node.english_pass_after(""));
    node.set_language("EN");
    assert!(!node.english_pass_after("Hello"));
    assert!(!node.wants_english_pass());
    assert_eq!(node.whisper_language(), "EN");
    node.set_language("Multilingual");
    assert_eq!(node.whisper_language(), "auto");
    assert_eq!(translation_from(String::new()), None);
    assert_eq!(translation_from("Hello".to_string()), Some("Hello".to_string()));
}

#[test]
fn segments_join_and_padding() {
    let segs = vec!["  Hello ".to_string(), "".to_string(), " world. ".to_string()];
    assert_eq!(assemble_transcript(&segs), "Hello  world.");
    let dots = vec![" ... ".to_string(), "…".to_string()];
    assert_eq!(assemble_transcript(&dots), "");
    let padded = pad_to_min(&[5i16, 6], 0);
    assert_eq!(padded.len(), WHISPER_HARD_MIN_SAMPLES);
    assert_eq!(&padded[..3], &[5, 6, 0]);
    let long = vec![1i16; WHISPER_HARD_MIN_SAMPLES + 1];
    assert_eq!(pad_to_min(&long, 0), long);
}

#[test]
fn tiny_energy_labels_drop_silence_and_noise() {
    assert_eq!(tiny_energy_text(0), "");
    assert_eq!(tiny_energy_text(1), "");
    assert_eq!(tiny_energy_text(2), "[speech]");
    assert_eq!(tiny_energy_text(3), "[utterance]");
    assert_eq!(tiny_energy_text(9), "[?]");
    assert_eq!(tiny_energy_label_of(0), "[silence]");
}
