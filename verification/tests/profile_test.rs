use edge_ort_runtime::ep::EpPreference;
use edge_ort_runtime::profile::{
    choose_model_path, default_sample_rate, model_path_candidate_list, CapabilityKind, Manifest, ManifestSet,
    profile_candidates, MetaValue, Profile, ProfileError,
};

#[test]
fn capability_keys_parse_case_insensitively() {
    for kind in [CapabilityKind::Vad, CapabilityKind::Asr, CapabilityKind::Mt, CapabilityKind::Tts, CapabilityKind::Slm] {
        assert_eq!(CapabilityKind::parse(kind.as_str()), Some(kind));
        assert_eq!(CapabilityKind::parse(&kind.as_str().to_uppercase()), Some(kind));
    }
    assert_eq!(CapabilityKind::parse(" asr"), None);
    assert_eq!(CapabilityKind::parse("speech"), None);
}

#[test]
fn manifest_defaults() {
    let m = Manifest::default();
    assert_eq!(m.sample_rate, 16_000);
    assert_eq!(default_sample_rate(), 16_000);
    assert_eq!(m.ep_prefs, EpPreference::default_chain());
    assert_eq!(m.capability, CapabilityKind::Vad);
    assert!(m.id.is_empty() && m.meta.is_empty());
}

#[test]
fn meta_lookup_reads_first_entry() {
    let mut m = Manifest::default();
    m.meta = vec![
        ("language".to_string(), MetaValue::Text("fr".to_string())),
        ("n".to_string(), MetaValue::Number { signed: Some(-2), unsigned: None, literal: "-2".to_string() }),
        ("flag".to_string(), MetaValue::Other),
    ];
    assert_eq!(m.meta_str("language"), Some("fr".to_string()));
    assert_eq!(m.meta_str("n"), None);
    assert_eq!(m.meta_i64("n"), Some(-2));
    assert_eq!(m.meta_i64("flag"), None);
    assert!(m.meta_get("missing").is_none());
}

#[test]
fn profile_entries_resolve_against_profile_dir() {
    assert_eq!(Profile::manifest_base("profiles/default/profile.json"), "profiles/default");
    let (kind, path) = Profile::resolve_entry("profiles/default", "ASR", "asr.json").ok().unwrap();
    assert_eq!(kind, CapabilityKind::Asr);
    assert_eq!(path, "profiles/default/asr.json");
    let (_, abs) = Profile::resolve_entry("profiles/default", "vad", "/opt/vad.json").ok().unwrap();
    assert_eq!(abs, "/opt/vad.json");
    match Profile::resolve_entry("p", "speech", "x.json") {
        Err(ProfileError::Other(msg)) => assert_eq!(msg, "unknown capability in profile: speech"),
        _ => panic!("expected an error"),
    }
}

#[test]
fn capability_mismatch_is_reported() {
    let mut m = Manifest::default();
    m.capability = CapabilityKind::Tts;
    assert!(Profile::check_capability(CapabilityKind::Tts, "tts", "t.json", &m).is_ok());
    match Profile::check_capability(CapabilityKind::Asr, "asr", "p/asr.json", &m) {
        Err(ProfileError::Other(msg)) => {
            assert_eq!(msg, "manifest p/asr.json capability Tts does not match profile key asr")
        }
        _ => panic!("expected a mismatch"),
    }
}

#[test]
fn manifest_set_replaces_by_capability() {
    let mut set = ManifestSet::new();
    let mut a = Manifest::default();
    a.id = "first".into();
    let mut b = Manifest::default();
    b.id = "second".into();
    set.insert(CapabilityKind::Asr, a);
    set.insert(CapabilityKind::Vad, Manifest::default());
    set.insert(CapabilityKind::Asr, b);
    assert!(set.contains_key(CapabilityKind::Asr));
    assert!(!set.contains_key(CapabilityKind::Tts));
    assert_eq!(set.get(CapabilityKind::Asr).unwrap().id, "second");
    assert_eq!(set.into_entries().len(), 2);
}

#[test]
fn model_path_candidates_in_order() {
    let c = model_path_candidate_list("profiles/default", "models/ggml-tiny.bin");
    assert_eq!(c, vec![
        "profiles/default/models/ggml-tiny.bin".to_string(),
        "profiles/default/../../models/ggml-tiny.bin".to_string(),
        "profiles/default/../../models/ggml-tiny.bin".to_string(),
    ]);
    let abs = model_path_candidate_list("p", "/m/a.onnx");
    assert_eq!(abs[0], "/m/a.onnx");
    assert_eq!(choose_model_path(&c, &vec![false, true]), 1);
    assert_eq!(choose_model_path(&c, &vec![false, false, false]), 0);
}

#[test]
fn profile_names_are_looked_up_under_profiles() {
    assert_eq!(
        profile_candidates("mobile"),
        vec!["profiles/mobile/profile.json".to_string(), "profiles/mobile.json".to_string()]
    );
}
