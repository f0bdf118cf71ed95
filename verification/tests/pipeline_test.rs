use edge_ort_runtime::mobile::{native_config, MobileConfig};
use edge_ort_runtime::languages::SupportedLanguage;
use edge_ort_runtime::pipeline::{PipelineAction, PipelineConfig, PipelineDriver};
use std::sync::atomic::{AtomicBool, Ordering};
use std::sync::Arc;

fn config(vad: bool, mt: bool, tts: bool, max: Option<usize>) -> PipelineConfig {
    PipelineConfig { enable_vad: vad, enable_mt: mt, enable_tts: tts, max_chunks: max, stop: None }
}

#[test]
fn pipeline_enables_dual_translate_only_with_mt() {
    assert!(config(true, true, false, None).wants_dual_translate());
    assert!(!config(true, false, false, None).wants_dual_translate());
    let d = PipelineConfig::default();
    assert!(d.enable_vad && d.enable_mt && !d.enable_tts && d.max_chunks.is_none());
}

#[test]
fn stop_flag_is_read() {
    let flag = Arc::new(AtomicBool::new(false));
    let mut c = config(false, false, false, None);
    assert!(!c.stop_requested());
    c.stop = Some(Arc::clone(&flag));
    assert!(!c.stop_requested());
    flag.store(true, Ordering::SeqCst);
    assert!(c.stop_requested());
}

#[test]
fn driver_runs_vad_asr_mt_and_tts() {
    let cfg = config(true, true, true, Some(2));
    let mut d = PipelineDriver::new(&cfg, true, true, true, true);
    assert!(matches!(d.resume(false), PipelineAction::Pull));
    assert!(matches!(d.pulled(false), PipelineAction::RunVad));
    assert!(matches!(d.vad_done(true, true), PipelineAction::RunAsr));
    match d.asr_done("hola".to_string(), None) {
        PipelineAction::RunMt(t) => assert_eq!(t, "hola"),
        _ => panic!("expected translation"),
    }
    match d.mt_done("hello".to_string()) {
        PipelineAction::Deliver { text, translation } => {
            assert_eq!(text, "hola");
            assert_eq!(translation, Some("hello".to_string()));
        }
        _ => panic!("expected delivery"),
    }
    match d.delivered(true) {
        PipelineAction::Speak(t) => assert_eq!(t, "hello"),
        _ => panic!("expected speech"),
    }
    assert!(matches!(d.spoken(), PipelineAction::Continue));
    assert!(matches!(d.resume(false), PipelineAction::Pull));
    assert!(matches!(d.pulled(false), PipelineAction::RunVad));
    assert!(matches!(d.vad_done(false, true), PipelineAction::Continue));
    assert_eq!(d.chunks(), 2);
    assert!(matches!(d.resume(false), PipelineAction::Finish));
}

#[test]
fn driver_prefers_asr_translation_and_skips_empty_text() {
    let cfg = config(false, true, false, None);
    let mut d = PipelineDriver::new(&cfg, true, true, true, false);
    assert!(matches!(d.resume(false), PipelineAction::Pull));
    assert!(matches!(d.pulled(false), PipelineAction::RunAsr));
    assert!(matches!(d.asr_done(String::new(), None), PipelineAction::Continue));
    assert!(matches!(d.resume(false), PipelineAction::Pull));
    assert!(matches!(d.pulled(false), PipelineAction::RunAsr));
    match d.asr_done("bonjour".to_string(), Some("hello".to_string())) {
        PipelineAction::Deliver { translation, .. } => assert_eq!(translation, Some("hello".to_string())),
        _ => panic!("expected delivery"),
    }
    assert!(matches!(d.delivered(false), PipelineAction::Finish));
}

#[test]
fn driver_stops_on_request_and_end_of_source() {
    let cfg = config(true, false, false, None);
    let mut d = PipelineDriver::new(&cfg, false, false, false, false);
    assert!(matches!(d.resume(true), PipelineAction::Finish));
    let mut e = PipelineDriver::new(&cfg, false, true, false, false);
    assert!(matches!(e.resume(false), PipelineAction::Pull));
    assert!(matches!(e.pulled(true), PipelineAction::Finish));
    assert_eq!(e.chunks(), 0);
    let mut f = PipelineDriver::new(&config(false, false, false, Some(0)), true, true, true, true);
    assert!(matches!(f.resume(false), PipelineAction::Finish));
}

#[test]
fn native_config_falls_back_to_auto() {
    let c = native_config("es", true, false, None);
    assert_eq!(c.language, SupportedLanguage::Es);
    assert!(c.enable_vad && !c.enable_mt);
    assert_eq!(native_config("xx", true, true, Some("p.json".to_string())).language, SupportedLanguage::Auto);
    let d = MobileConfig::default();
    assert_eq!(d.language, SupportedLanguage::Auto);
    assert!(d.profile_path.is_none());
}
