use edge_ort_runtime::ep::{probe_providers, resolve_ep_chain, resolve_ep_plan, EpPreference};
use edge_ort_runtime::mobile::get_execution_providers;

#[test]
fn test_ep_preference_as_str() {
    assert_eq!(EpPreference::TensorRt.as_str(), "tensorrt");
    assert_eq!(EpPreference::Cuda.as_str(), "cuda");
    assert_eq!(EpPreference::Rocm.as_str(), "rocm");
    assert_eq!(EpPreference::OpenVino.as_str(), "openvino");
    assert_eq!(EpPreference::Qnn.as_str(), "qnn");
    assert_eq!(EpPreference::Nnapi.as_str(), "nnapi");
    assert_eq!(EpPreference::Xnnpack.as_str(), "xnnpack");
    assert_eq!(EpPreference::Cpu.as_str(), "cpu");
}

#[test]
fn test_default_chain_contents() {
    let chain = EpPreference::default_chain();
    assert!(chain.contains(&EpPreference::Qnn));
    assert!(chain.contains(&EpPreference::Nnapi));
    assert!(chain.contains(&EpPreference::Xnnpack));
    assert_eq!(chain.last(), Some(&EpPreference::Cpu));
}

#[test]
fn test_probe_providers_has_cpu_available() {
    let providers = probe_providers();
    let cpu_info = providers.iter().find(|p| p.preference == EpPreference::Cpu);
    assert!(cpu_info.is_some());
    assert!(cpu_info.unwrap().available);
}

#[test]
fn test_get_execution_providers_export() {
    let providers = get_execution_providers();
    assert!(!providers.is_empty());
    assert!(providers.iter().any(|p| p.key == "cpu" && p.available));
}

#[test]
fn probe_reports_names_in_chain_order() {
    let providers = probe_providers();
    assert_eq!(providers.len(), 8);
    assert_eq!(providers[0].name, "TensorrtExecutionProvider");
    assert!(!providers[0].available);
    assert!(!providers[0].platform_ok);
    assert_eq!(providers[1].name, "CUDAExecutionProvider");
    assert_eq!(providers[7].name, "CPUExecutionProvider");
    assert!(providers[7].platform_ok);
}

#[test]
fn ep_plan_always_includes_cpu() {
    assert_eq!(resolve_ep_plan(&[]), vec![EpPreference::Cpu]);
    assert_eq!(resolve_ep_plan(&[EpPreference::Cuda, EpPreference::Qnn]), vec![EpPreference::Cpu]);
    assert_eq!(resolve_ep_plan(&[EpPreference::Cpu, EpPreference::Cuda]), vec![EpPreference::Cpu]);
    assert_eq!(resolve_ep_plan(&[EpPreference::Cpu, EpPreference::Cpu]), vec![EpPreference::Cpu, EpPreference::Cpu]);
    assert_eq!(resolve_ep_chain(&[EpPreference::Cuda]).len(), 1);
}
