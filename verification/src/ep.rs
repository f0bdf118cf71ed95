//! Execution-provider preferences and the priority chain with graceful
//! degradation to the CPU provider.

use vstd::prelude::*;
use crate::text::{chars_of, string_from_chars};

verus! {

/// Named execution-provider preference used in manifests and profiles.
#[derive(Debug, Clone, Copy, PartialEq, Eq, Structural, Hash)]
pub enum EpPreference {
    TensorRt,
    Cuda,
    Rocm,
    OpenVino,
    Qnn,
    Nnapi,
    Xnnpack,
    Cpu,
}

/// Default priority: TensorRT, CUDA, ROCm, OpenVINO, QNN, NNAPI, XNNPACK, CPU.
pub open spec fn default_chain_spec() -> Seq<EpPreference> {
    seq![
        EpPreference::TensorRt,
        EpPreference::Cuda,
        EpPreference::Rocm,
        EpPreference::OpenVino,
        EpPreference::Qnn,
        EpPreference::Nnapi,
        EpPreference::Xnnpack,
        EpPreference::Cpu,
    ]
}

impl EpPreference {
    /// The lower-case key of the preference in manifests.
    pub open spec fn key(self) -> Seq<char> {
        match self {
            EpPreference::TensorRt => "tensorrt"@,
            EpPreference::Cuda => "cuda"@,
            EpPreference::Rocm => "rocm"@,
            EpPreference::OpenVino => "openvino"@,
            EpPreference::Qnn => "qnn"@,
            EpPreference::Nnapi => "nnapi"@,
            EpPreference::Xnnpack => "xnnpack"@,
            EpPreference::Cpu => "cpu"@,
        }
    }

    pub fn as_str(self) -> (r: &'static str)
        ensures
            r@ == self.key(),
    {
        match self {
            EpPreference::TensorRt => "tensorrt",
            EpPreference::Cuda => "cuda",
            EpPreference::Rocm => "rocm",
            EpPreference::OpenVino => "openvino",
            EpPreference::Qnn => "qnn",
            EpPreference::Nnapi => "nnapi",
            EpPreference::Xnnpack => "xnnpack",
            EpPreference::Cpu => "cpu",
        }
    }

    /// The default priority chain, which ends with the CPU provider.
    pub fn default_chain() -> (r: Vec<EpPreference>)
        ensures
            r@ == default_chain_spec(),
            r@.last() == EpPreference::Cpu,
            forall|p: EpPreference| r@.contains(p),
    {
        let r = vec![
            EpPreference::TensorRt,
            EpPreference::Cuda,
            EpPreference::Rocm,
            EpPreference::OpenVino,
            EpPreference::Qnn,
            EpPreference::Nnapi,
            EpPreference::Xnnpack,
            EpPreference::Cpu,
        ];
        assert(r@ =~= default_chain_spec());
        assert forall|p: EpPreference| r@.contains(p) by {
            match p {
                EpPreference::TensorRt => assert(r@[0] == p),
                EpPreference::Cuda => assert(r@[1] == p),
                EpPreference::Rocm => assert(r@[2] == p),
                EpPreference::OpenVino => assert(r@[3] == p),
                EpPreference::Qnn => assert(r@[4] == p),
                EpPreference::Nnapi => assert(r@[5] == p),
                EpPreference::Xnnpack => assert(r@[6] == p),
                EpPreference::Cpu => assert(r@[7] == p),
            }
        }
        r
    }
}

/// `ort::Error`, the error type of the ONNX Runtime bindings.
#[verifier::external_type_specification]
#[verifier::external_body]
#[verifier::reject_recursive_types(R)]
pub struct ExOrtError<R>(ort::Error<R>);

/// `ort::ep::ExecutionProviderDispatch`: a configured execution provider
/// ready to be registered on a session.
#[verifier::external_type_specification]
#[verifier::external_body]
pub struct ExExecutionProviderDispatch(ort::ep::ExecutionProviderDispatch);

/// Calls `<ort::ep::CPU as ExecutionProvider>::is_available`, which the
/// bindings' source implements as `Ok(true)`: the CPU provider is always built in.
#[verifier::external_body]
fn cpu_provider_available() -> (r: Result<bool, ort::Error>)
    ensures
        r matches Ok(true),
{
    <ort::ep::CPU as ort::ep::ExecutionProvider>::is_available()
}

/// Reads `<ort::ep::CPU as ExecutionProvider>::NAME`, "CPUExecutionProvider".
#[verifier::external_body]
fn cpu_provider_name() -> (r: &'static str)
    ensures
        r@ == "CPUExecutionProvider"@,
{
    <ort::ep::CPU as ort::ep::ExecutionProvider>::NAME
}

/// Calls `ort::ep::CPU::default().build()`: a dispatch for the default CPU
/// provider. The dispatch is opaque; nothing is stated about it.
#[verifier::external_body]
fn cpu_provider_dispatch() -> (r: ort::ep::ExecutionProviderDispatch) {
    ort::ep::CPU::default().build()
}

/// What was learned about one execution provider.
#[derive(Debug, Clone)]
pub struct ProviderInfo {
    pub name: String,
    pub preference: EpPreference,
    pub available: bool,
    pub platform_ok: bool,
}

impl EpPreference {
    /// The ONNX Runtime name of the provider.
    pub open spec fn provider_name(self) -> Seq<char> {
        match self {
            EpPreference::TensorRt => "TensorrtExecutionProvider"@,
            EpPreference::Cuda => "CUDAExecutionProvider"@,
            EpPreference::Rocm => "ROCMExecutionProvider"@,
            EpPreference::OpenVino => "OpenVINOExecutionProvider"@,
            EpPreference::Qnn => "QNNExecutionProvider"@,
            EpPreference::Nnapi => "NNAPIExecutionProvider"@,
            EpPreference::Xnnpack => "XNNPACKExecutionProvider"@,
            EpPreference::Cpu => "CPUExecutionProvider"@,
        }
    }

    /// Whether this build carries the provider: only the CPU provider is
    /// compiled in; the accelerator providers are optional build features
    /// that are off.
    pub open spec fn compiled_in(self) -> bool {
        self == EpPreference::Cpu
    }
}

/// The probe result for one preference.
pub open spec fn probe_spec(info: ProviderInfo, pref: EpPreference) -> bool {
    &&& info.preference == pref
    &&& info.name@ == pref.provider_name()
    &&& info.available == pref.compiled_in()
    &&& info.platform_ok == pref.compiled_in()
}

/// Probes one provider: the CPU provider asks the runtime whether it is
/// available; a provider not compiled in is reported unavailable.
pub fn probe_one(pref: EpPreference) -> (r: ProviderInfo)
    ensures
        probe_spec(r, pref),
{
    let (available, platform_ok, name) = match pref {
        EpPreference::Cpu => {
            let available = match cpu_provider_available() {
                Ok(a) => a,
                Err(_) => false,
            };
            (available, true, string_from_chars(chars_of(cpu_provider_name()).as_slice()))
        },
        _ => (false, false, not_compiled_name(pref)),
    };
    ProviderInfo { name, preference: pref, available, platform_ok }
}

fn not_compiled_name(pref: EpPreference) -> (r: String)
    requires
        pref != EpPreference::Cpu,
    ensures
        r@ == pref.provider_name(),
{
    match pref {
            EpPreference::TensorRt => String::from_str("TensorrtExecutionProvider"),
            EpPreference::Cuda => String::from_str("CUDAExecutionProvider"),
            EpPreference::Rocm => String::from_str("ROCMExecutionProvider"),
            EpPreference::OpenVino => String::from_str("OpenVINOExecutionProvider"),
            EpPreference::Qnn => String::from_str("QNNExecutionProvider"),
            EpPreference::Nnapi => String::from_str("NNAPIExecutionProvider"),
            EpPreference::Xnnpack => String::from_str("XNNPACKExecutionProvider"),
            EpPreference::Cpu => String::new(),
        }
}

/// Probes the default chain, in order.
pub fn probe_providers() -> (r: Vec<ProviderInfo>)
    ensures
        r@.len() == default_chain_spec().len(),
        forall|i: int| 0 <= i < r@.len() ==> probe_spec(#[trigger] r@[i], default_chain_spec()[i]),
{
    let chain = EpPreference::default_chain();
    let mut out: Vec<ProviderInfo> = Vec::new();
    let mut i: usize = 0;
    while i < chain.len()
        invariant
            0 <= i <= chain.len(),
            chain@ == default_chain_spec(),
            out@.len() == i,
            forall|k: int| 0 <= k < i ==> probe_spec(#[trigger] out@[k], chain@[k]),
        decreases chain.len() - i,
    {
        out.push(probe_one(chain[i]));
        i += 1;
    }
    out
}

/// The preferences of `chain` whose providers are available and compiled in,
/// in order.
pub open spec fn usable_prefs(chain: Seq<EpPreference>) -> Seq<EpPreference>
    decreases chain.len(),
{
    if chain.len() == 0 {
        seq![]
    } else if chain.last().compiled_in() {
        usable_prefs(chain.drop_last()).push(chain.last())
    } else {
        usable_prefs(chain.drop_last())
    }
}

/// The providers a session is built with: the usable preferences (the
/// default chain when none are given), followed by the CPU provider when it
/// is not among them.
pub open spec fn ep_plan_spec(prefs: Seq<EpPreference>) -> Seq<EpPreference> {
    let chain = if prefs.len() == 0 { default_chain_spec() } else { prefs };
    let sel = usable_prefs(chain);
    if sel.contains(EpPreference::Cpu) {
        sel
    } else {
        sel.push(EpPreference::Cpu)
    }
}

/// The ordered list of providers to build a session with, skipping
/// unavailable ones and always including the CPU provider.
pub fn resolve_ep_plan(prefs: &[EpPreference]) -> (r: Vec<EpPreference>)
    ensures
        r@ == ep_plan_spec(prefs@),
        r@.contains(EpPreference::Cpu),
{
    let chain: Vec<EpPreference> = if prefs.len() == 0 {
        EpPreference::default_chain()
    } else {
        slice_to_vec(prefs)
    };
    let mut selected: Vec<EpPreference> = Vec::new();
    let mut saw_cpu = false;
    let mut i: usize = 0;
    while i < chain.len()
        invariant
            0 <= i <= chain.len(),
            selected@ == usable_prefs(chain@.take(i as int)),
            saw_cpu == selected@.contains(EpPreference::Cpu),
        decreases chain.len() - i,
    {
        let pref = chain[i];
        assert(chain@.take(i + 1).drop_last() =~= chain@.take(i as int));
        let info = probe_one(pref);
        if info.available && info.platform_ok {
            if pref == EpPreference::Cpu {
                saw_cpu = true;
            }
            selected.push(pref);
            assert(selected@.last() == pref);
        }
        i += 1;
    }
    assert(chain@.take(chain.len() as int) =~= chain@);
    if !saw_cpu {
        selected.push(EpPreference::Cpu);
        assert(selected@.last() == EpPreference::Cpu);
    }
    selected
}

fn slice_to_vec(s: &[EpPreference]) -> (r: Vec<EpPreference>)
    ensures
        r@ == s@,
{
    let mut r: Vec<EpPreference> = Vec::new();
    let mut i: usize = 0;
    while i < s.len()
        invariant
            0 <= i <= s.len(),
            r@ == s@.take(i as int),
        decreases s.len() - i,
    {
        r.push(s[i]);
        i += 1;
        assert(r@ =~= s@.take(i as int));
    }
    assert(s@.take(s.len() as int) =~= s@);
    r
}

/// The provider dispatch of one preference, when it is compiled in.
fn dispatch_for(pref: EpPreference) -> (r: Option<ort::ep::ExecutionProviderDispatch>)
    ensures
        r is Some <==> pref.compiled_in(),
{
    match pref {
        EpPreference::Cpu => Some(cpu_provider_dispatch()),
        _ => None,
    }
}

/// Builds the ordered provider dispatch list of `resolve_ep_plan`, one
/// dispatch per planned provider.
pub fn resolve_ep_chain(prefs: &[EpPreference]) -> (r: Vec<ort::ep::ExecutionProviderDispatch>)
    ensures
        r@.len() == ep_plan_spec(prefs@).len(),
{
    let plan = resolve_ep_plan(prefs);
    proof {
        let chain = if prefs@.len() == 0 { default_chain_spec() } else { prefs@ };
        lemma_usable_prefs_compiled(chain);
        let sel = usable_prefs(chain);
        assert forall|k: int| 0 <= k < plan@.len() implies (#[trigger] plan@[k]).compiled_in() by {
            if k < sel.len() {
                assert(plan@[k] == sel[k]);
            }
        }
    }
    let mut out: Vec<ort::ep::ExecutionProviderDispatch> = Vec::new();
    let mut i: usize = 0;
    while i < plan.len()
        invariant
            0 <= i <= plan.len(),
            out@.len() == i,
            forall|k: int| 0 <= k < plan@.len() ==> (#[trigger] plan@[k]).compiled_in(),
        decreases plan.len() - i,
    {
        match dispatch_for(plan[i]) {
            Some(d) => out.push(d),
            None => {
                assert(false);
            },
        }
        i += 1;
    }
    out
}

/// Every planned provider is compiled in.
pub proof fn lemma_usable_prefs_compiled(chain: Seq<EpPreference>)
    ensures
        forall|k: int| 0 <= k < usable_prefs(chain).len() ==> (#[trigger] usable_prefs(chain)[k]).compiled_in(),
    decreases chain.len(),
{
    if chain.len() > 0 {
        lemma_usable_prefs_compiled(chain.drop_last());
        let prev = usable_prefs(chain.drop_last());
        if chain.last().compiled_in() {
            assert forall|k: int| 0 <= k < usable_prefs(chain).len() implies (#[trigger] usable_prefs(chain)[k]).compiled_in() by {
                if k < prev.len() {
                    assert(usable_prefs(chain)[k] == prev[k]);
                }
            }
        }
    }
}

/// The session provider list is never empty and always includes the CPU
/// provider; when the preferences name no usable provider it is exactly
/// the CPU provider.
pub proof fn lemma_ep_plan_has_cpu(prefs: Seq<EpPreference>)
    ensures
        ep_plan_spec(prefs).len() > 0,
        ep_plan_spec(prefs).contains(EpPreference::Cpu),
        usable_prefs(if prefs.len() == 0 { default_chain_spec() } else { prefs }).len() == 0
            ==> ep_plan_spec(prefs) == seq![EpPreference::Cpu],
{
    let chain = if prefs.len() == 0 { default_chain_spec() } else { prefs };
    let sel = usable_prefs(chain);
    if !sel.contains(EpPreference::Cpu) {
        assert(sel.push(EpPreference::Cpu).last() == EpPreference::Cpu);
    }
    if sel.len() == 0 {
        assert(sel.push(EpPreference::Cpu) =~= seq![EpPreference::Cpu]);
    }
}

} // verus!
