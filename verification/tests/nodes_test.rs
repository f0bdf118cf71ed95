use edge_ort_runtime::mobile::get_supported_languages;
use edge_ort_runtime::mt::MtNode;
use edge_ort_runtime::profile::{CapabilityKind, Manifest};
use edge_ort_runtime::tts::TtsNode;

fn mt_manifest(languages: Vec<String>) -> Manifest {
    Manifest {
        id: "test-mt".into(),
        capability: CapabilityKind::Mt,
        model_path: "models/test_mt.onnx".into(),
        inputs: vec!["input_ids".into()],
        outputs: vec!["logits".into()],
        sample_rate: 16_000,
        languages,
        ep_prefs: vec![],
        meta: vec![],
    }
}

#[test]
fn test_mt_manifest_language_pairs() {
    let node = MtNode::from_manifest(mt_manifest(vec!["fr".into(), "en".into()]));
    assert_eq!(node.src_lang, "fr");
    assert_eq!(node.tgt_lang, "en");
}

#[test]
fn test_mt_manifest_fallback() {
    let empty_node = MtNode::from_manifest(mt_manifest(vec![]));
    assert_eq!(empty_node.src_lang, "auto");
    assert_eq!(empty_node.tgt_lang, "en");

    let single_node = MtNode::from_manifest(mt_manifest(vec!["es".into()]));
    assert_eq!(single_node.src_lang, "es");
    assert_eq!(single_node.tgt_lang, "en");
}

#[test]
fn test_mt_process_non_empty_text() {
    let mut node = MtNode::from_manifest(mt_manifest(vec!["es".into(), "en".into()]));
    let out = node.process("Hola mundo").expect("process mt");
    assert_eq!(out.text, "Hola mundo");
    assert_eq!(out.src_lang, "es");
    assert_eq!(out.tgt_lang, "en");
}

#[test]
fn test_mt_process_empty_text() {
    let mut node = MtNode::from_manifest(mt_manifest(vec!["fr".into(), "en".into()]));
    let out = node.process("").expect("process mt empty");
    assert_eq!(out.text, "");
    assert_eq!(out.src_lang, "fr");
    assert_eq!(out.tgt_lang, "en");
}

#[test]
fn test_mt_process_multilingual_utf8() {
    let mut node = MtNode::from_manifest(mt_manifest(vec!["auto".into(), "en".into()]));
    let samples = [
        "¿Cómo estás?",
        "Merci beaucoup",
        "شكرا جزيلا",
        "नमस्ते दुनिया",
        "早上好",
        "こんにちは世界",
        "Շնորհակալություն",
        "Привет мир",
    ];
    for sample in samples {
        let out = node.process(sample).expect("process sample");
        assert_eq!(out.text, sample);
    }
}

#[test]
fn test_get_supported_languages_export() {
    let langs = get_supported_languages();
    assert_eq!(langs.len(), 16);
    let ar = langs.iter().find(|l| l.code == "ar").unwrap();
    assert!(ar.is_rtl);
    let zh = langs.iter().find(|l| l.code == "zh").unwrap();
    assert!(zh.is_cjk);
}

#[test]
fn tts_beep_length_tracks_text() {
    let mut m = mt_manifest(vec![]);
    m.capability = CapabilityKind::Tts;
    m.id = "voice".into();
    m.sample_rate = 22_050;
    let node = TtsNode::with_files(m.clone(), true, true);
    assert_eq!(node.session_key(), "tts:voice");
    assert!(node.has_config());
    assert!(node.needs_load());
    assert_eq!(node.beep_plan(""), (22_050, 0));
    // 50 + 2 * 15 = 80 ms at 22 050 Hz.
    assert_eq!(node.beep_plan("hi"), (22_050, 1764));
    // Capped at 800 ms.
    assert_eq!(node.beep_plan(&"x".repeat(100)), (22_050, 17_640));
    m.sample_rate = 0;
    let quiet = TtsNode::with_files(m, false, false);
    assert!(!quiet.has_config());
    assert!(!quiet.needs_load());
    assert_eq!(quiet.beep_plan(""), (16_000, 0));
    assert_eq!(quiet.beep_plan("é"), (16_000, 1280));
}
