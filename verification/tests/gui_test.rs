use edge_ort_runtime::choices::WhisperSize;
use edge_ort_runtime::gui::{
    asr_status_message, ep_line, missing_model_message, GuiState, PLACEHOLDER_ENGLISH, PLACEHOLDER_ORIGINAL,
};

fn idle() -> GuiState {
    GuiState::new(vec![ep_line("cpu", true), ep_line("cuda", false)])
}

#[test]
fn gui_starts_idle_with_placeholders() {
    let g = idle();
    assert!(!g.running);
    assert!(g.placeholders);
    assert_eq!(g.transcript, PLACEHOLDER_ORIGINAL);
    assert_eq!(g.translation, PLACEHOLDER_ENGLISH);
    assert_eq!(g.status, "idle");
    assert_eq!(g.last_vad, "—");
    assert_eq!(g.ep_lines, vec!["cpu: available".to_string(), "cuda: n/a".to_string()]);
}

#[test]
fn gui_transcript_lines_replace_placeholders() {
    let mut g = idle();
    g.push_transcript("bonjour", Some("hello"), "0.91");
    assert!(!g.placeholders);
    assert_eq!(g.transcript, "bonjour  (conf=0.91)");
    assert_eq!(g.translation, "hello  (conf=0.91)");
    g.push_transcript("salut", None, "0.50");
    assert_eq!(g.transcript, "bonjour  (conf=0.91)\nsalut  (conf=0.50)");
    assert_eq!(g.translation, "hello  (conf=0.91)\n—");
    g.push_transcript("merci", Some(""), "0.70");
    assert_eq!(g.translation, "hello  (conf=0.91)\n—\n—");
}

#[test]
fn gui_start_stop_and_finish() {
    let mut g = idle();
    assert!(g.begin_start());
    assert!(g.transcript.is_empty());
    g.started(WhisperSize::Base);
    assert!(g.running);
    assert_eq!(g.status, "running (ggml-base.bin)");
    assert!(!g.begin_start());
    g.request_stop();
    assert_eq!(g.status, "stopping…");
    g.finished(Ok(()));
    assert!(!g.running);
    assert_eq!(g.status, "stopped");

    g.set_status("pipeline start (fake)".to_string());
    g.done();
    g.finished(Ok(()));
    assert_eq!(g.status, "done");

    g.finished(Err("boom".to_string()));
    assert_eq!(g.status, "error");
    assert_eq!(g.error, "boom");
}

#[test]
fn gui_vad_ep_and_clear() {
    let mut g = idle();
    g.set_vad("0.42", true);
    assert_eq!(g.last_vad, "prob=0.42 SPEECH");
    g.set_vad("0.01", false);
    assert_eq!(g.last_vad, "prob=0.01 silence");
    g.add_ep("XNNPACKExecutionProvider", false);
    assert_eq!(g.ep_lines.len(), 3);
    assert_eq!(g.ep_lines[2], "XNNPACKExecutionProvider: n/a");
    g.set_error("bad".to_string());
    g.clear();
    assert!(g.transcript.is_empty() && g.translation.is_empty() && g.error.is_empty());
    assert!(!g.placeholders);
    g.disconnected();
    assert_eq!(g.status, "worker disconnected");
}

#[test]
fn gui_messages() {
    assert_eq!(
        missing_model_message("models/ggml-large-v3.bin", WhisperSize::LargeV3),
        "Whisper model missing: models/ggml-large-v3.bin — run scripts/download-models.sh (WHISPER_SIZES includes large-v3)"
    );
    assert_eq!(asr_status_message("fr", WhisperSize::Tiny), "asr language=fr model=ggml-tiny.bin");
    let mut g = idle();
    g.start_failed("profile not found: x".to_string());
    assert_eq!(g.error, "profile not found: x");
}

#[test]
fn whisper_weights_are_looked_up_under_models() {
    assert_eq!(
        WhisperSize::Base.path_candidates(),
        vec!["models/ggml-base.bin".to_string(), "ggml-base.bin".to_string()]
    );
}
