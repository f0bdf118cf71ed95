use edge_ort_runtime::mobile::{clean_transcript_text, summarize_transcript_text};
use edge_ort_runtime::profile::{CapabilityKind, Manifest};
use edge_ort_runtime::slm::{clean_transcript_heuristics, extract_bullet_points, SlmNode};

#[test]
fn test_clean_transcript_removes_fillers_and_duplicates() {
    let input = "um, we should uh like test the the pipeline now";
    let cleaned = clean_transcript_heuristics(input);
    assert_eq!(cleaned, "We should test the pipeline now.");
}

#[test]
fn test_clean_transcript_empty() {
    assert_eq!(clean_transcript_heuristics("   "), "");
}

#[test]
fn test_extract_bullet_points() {
    let input = "First we configure the NPU. Then we run the Whisper ASR model. Finally we save results.";
    let bullets = extract_bullet_points(input);
    assert_eq!(bullets.len(), 3);
    assert_eq!(bullets[0], "First we configure the NPU");
    assert_eq!(bullets[1], "Then we run the Whisper ASR model");
    assert_eq!(bullets[2], "Finally we save results");
}

#[test]
fn test_slm_node_summarize() {
    let manifest = Manifest {
        id: "slm-test".into(),
        capability: CapabilityKind::Slm,
        model_path: "missing.onnx".into(),
        inputs: vec![],
        outputs: vec![],
        sample_rate: 0,
        languages: vec![],
        ep_prefs: vec![],
        meta: Default::default(),
    };

    let node = SlmNode::from_manifest(manifest);
    assert!(!node.ready);

    let text = "Um, the meeting agreed to deploy Whisper on Android. We will start testing tomorrow.";
    let summary = node.summarize(text).unwrap();

    assert!(summary.cleaned_text.contains("The meeting agreed"));
    assert!(!summary.cleaned_text.contains("Um,"));
    assert_eq!(summary.bullet_points.len(), 2);
    assert!(summary.word_count_original >= summary.word_count_cleaned);
}

#[test]
fn clean_keeps_terminal_punctuation_and_drops_only_fillers() {
    assert_eq!(clean_transcript_heuristics("Is it ready?"), "Is it ready?");
    assert_eq!(clean_transcript_heuristics("um uh hmm"), "");
    assert_eq!(clean_transcript_heuristics("the The THE end!"), "The end!");
    assert_eq!(clean_transcript_heuristics("éclair time"), "Éclair time.");
    assert_eq!(clean_transcript_heuristics("42 is, like, fine"), "42 is, fine.");
}

#[test]
fn bullets_fall_back_to_whole_text() {
    assert_eq!(extract_bullet_points("Short. Tiny!"), vec!["Short. Tiny!".to_string()]);
    assert!(extract_bullet_points(" \t ").is_empty());
    assert_eq!(extract_bullet_points("a much longer sentence here"), vec!["A much longer sentence here".to_string()]);
}

#[test]
fn bullets_count_bytes_not_chars() {
    // Seven characters, thirteen bytes: kept although shorter than ten characters.
    let bullets = extract_bullet_points("ééééé é. x");
    assert_eq!(bullets, vec!["Ééééé é".to_string()]);
}

#[test]
fn summarize_transcript_text_counts_words() {
    let s = summarize_transcript_text("um so we ship it today. and then we test the build".to_string());
    assert_eq!(s.cleaned_text, "So we ship it today. and then we test the build.");
    assert_eq!(s.word_count_original, 12);
    assert_eq!(s.word_count_cleaned, 11);
    assert_eq!(s.bullet_points, vec!["Um so we ship it today".to_string(), "And then we test the build".to_string()]);
    assert_eq!(clean_transcript_text("you know".to_string()), "");
}

#[test]
fn two_word_fillers_are_removed() {
    assert_eq!(clean_transcript_heuristics("so you know we ship it"), "So we ship it.");
    assert_eq!(clean_transcript_heuristics("I mean, it works"), "I mean, it works.");
    assert_eq!(clean_transcript_heuristics("you see it, you know."), "You see it,.");
    assert_eq!(clean_transcript_heuristics("tell you now"), "Tell you now.");
}
