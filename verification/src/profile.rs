//! Profiles and model manifests.
//!
//! A profile maps capability kinds to manifest paths (plugs). A manifest
//! describes one model: its path, tensor names, languages and execution
//! provider preferences. Model families appear only as plug identifiers.

use vstd::prelude::*;
use std::collections::HashMap;
use crate::ep::{EpPreference, default_chain_spec};
use crate::paths::{path_exists, path_file_name, path_is_absolute, path_join, path_parent, spec_path_file_name, spec_path_is_absolute, spec_path_join, spec_path_parent};
use crate::text::{ascii_lower, ascii_lower_chars, chars_eq, chars_of, string_from_chars};

verus! {

broadcast use vstd::std_specs::hash::group_hash_axioms;

/// Capability kind: the only model-family taxonomy in core types.
#[derive(Debug, Clone, Copy, PartialEq, Eq, Structural, Hash)]
pub enum CapabilityKind {
    Vad,
    Asr,
    Mt,
    Tts,
    Slm,
}

impl CapabilityKind {
    /// The lower-case key of the capability in profiles.
    pub open spec fn key(self) -> Seq<char> {
        match self {
            CapabilityKind::Vad => seq!['v', 'a', 'd'],
            CapabilityKind::Asr => seq!['a', 's', 'r'],
            CapabilityKind::Mt => seq!['m', 't'],
            CapabilityKind::Tts => seq!['t', 't', 's'],
            CapabilityKind::Slm => seq!['s', 'l', 'm'],
        }
    }

    /// The variant's name as `{:?}` prints it.
    pub open spec fn debug_name(self) -> Seq<char> {
        match self {
            CapabilityKind::Vad => seq!['V', 'a', 'd'],
            CapabilityKind::Asr => seq!['A', 's', 'r'],
            CapabilityKind::Mt => seq!['M', 't'],
            CapabilityKind::Tts => seq!['T', 't', 's'],
            CapabilityKind::Slm => seq!['S', 'l', 'm'],
        }
    }

    /// The capability whose key is the ASCII-lower-cased `s`, if any.
    pub open spec fn parse_spec(s: Seq<char>) -> Option<CapabilityKind> {
        let t = ascii_lower(s);
        if t == seq!['v', 'a', 'd'] {
            Some(CapabilityKind::Vad)
        } else if t == seq!['a', 's', 'r'] {
            Some(CapabilityKind::Asr)
        } else if t == seq!['m', 't'] {
            Some(CapabilityKind::Mt)
        } else if t == seq!['t', 't', 's'] {
            Some(CapabilityKind::Tts)
        } else if t == seq!['s', 'l', 'm'] {
            Some(CapabilityKind::Slm)
        } else {
            None
        }
    }

    pub fn as_str(self) -> (r: &'static str)
        ensures
            r@ == self.key(),
    {
        proof {
            reveal_strlit("vad");
            reveal_strlit("asr");
            reveal_strlit("mt");
            reveal_strlit("tts");
            reveal_strlit("slm");
        }
        match self {
            CapabilityKind::Vad => "vad",
            CapabilityKind::Asr => "asr",
            CapabilityKind::Mt => "mt",
            CapabilityKind::Tts => "tts",
            CapabilityKind::Slm => "slm",
        }
    }

    fn debug_string(self) -> (r: String)
        ensures
            r@ == self.debug_name(),
    {
        match self {
            CapabilityKind::Vad => string_from_chars(&['V', 'a', 'd']),
            CapabilityKind::Asr => string_from_chars(&['A', 's', 'r']),
            CapabilityKind::Mt => string_from_chars(&['M', 't']),
            CapabilityKind::Tts => string_from_chars(&['T', 't', 's']),
            CapabilityKind::Slm => string_from_chars(&['S', 'l', 'm']),
        }
    }

    /// Parses a capability key case-insensitively ("vad", "ASR", ...).
    pub fn parse(s: &str) -> (r: Option<Self>)
        ensures
            r == Self::parse_spec(s@),
    {
        let t = ascii_lower_chars(&chars_of(s));
        if chars_eq(t.as_slice(), &['v', 'a', 'd']) {
            Some(CapabilityKind::Vad)
        } else if chars_eq(t.as_slice(), &['a', 's', 'r']) {
            Some(CapabilityKind::Asr)
        } else if chars_eq(t.as_slice(), &['m', 't']) {
            Some(CapabilityKind::Mt)
        } else if chars_eq(t.as_slice(), &['t', 't', 's']) {
            Some(CapabilityKind::Tts)
        } else if chars_eq(t.as_slice(), &['s', 'l', 'm']) {
            Some(CapabilityKind::Slm)
        } else {
            None
        }
    }
}


/// A value of a manifest's free-form metadata, as far as the runtime reads it.
#[derive(Debug, Clone)]
pub enum MetaValue {
    /// A JSON string.
    Text(String),
    /// A JSON number: its value where it fits `i64` and where it fits `u64`,
    /// and its literal text.
    Number { signed: Option<i64>, unsigned: Option<u64>, literal: String },
    /// Any other JSON value.
    Other,
}

/// Per-model manifest.
#[derive(Debug, Clone)]
pub struct Manifest {
    /// Plug id (e.g. "silero-vad", "whisper-tiny", "tiny-asr-energy").
    pub id: String,
    pub capability: CapabilityKind,
    /// Path to the model file (absolute or relative to the manifest file).
    pub model_path: String,
    /// Input tensor names; the first is the primary audio or text input.
    pub inputs: Vec<String>,
    /// Output tensor names.
    pub outputs: Vec<String>,
    /// Expected audio sample rate for audio-in capabilities.
    pub sample_rate: u32,
    /// Languages the plug supports (short codes); empty means unspecified.
    pub languages: Vec<String>,
    /// Execution-provider preference order.
    pub ep_prefs: Vec<EpPreference>,
    /// Extra free-form metadata: key and value, one entry per key.
    pub meta: Vec<(String, MetaValue)>,
}

/// Default audio sample rate of a manifest.
pub fn default_sample_rate() -> (r: u32)
    ensures
        r == 16_000,
{
    16_000
}

/// The value stored under `key` in a metadata list (its first entry).
pub open spec fn meta_lookup(meta: Seq<(String, MetaValue)>, key: Seq<char>) -> Option<MetaValue>
    decreases meta.len(),
{
    if meta.len() == 0 {
        None
    } else if meta[0].0@ == key {
        Some(meta[0].1)
    } else {
        meta_lookup(meta.drop_first(), key)
    }
}

/// `Value::as_str` of an optional metadata value.
pub open spec fn meta_text(v: Option<MetaValue>) -> Option<Seq<char>> {
    match v {
        Some(MetaValue::Text(s)) => Some(s@),
        _ => None,
    }
}

/// `Value::as_i64` of an optional metadata value.
pub open spec fn meta_signed(v: Option<MetaValue>) -> Option<i64> {
    match v {
        Some(MetaValue::Number { signed, .. }) => signed,
        _ => None,
    }
}

impl Manifest {
    /// The metadata value stored under `key`.
    pub fn meta_get(&self, key: &str) -> (r: Option<&MetaValue>)
        ensures
            r matches Some(v) ==> meta_lookup(self.meta@, key@) == Some(*v),
            r is None ==> meta_lookup(self.meta@, key@) is None,
    {
        let mut i: usize = 0;
        assert(self.meta@.skip(0) =~= self.meta@);
        while i < self.meta.len()
            invariant
                0 <= i <= self.meta.len(),
                meta_lookup(self.meta@, key@) == meta_lookup(self.meta@.skip(i as int), key@),
            decreases self.meta.len() - i,
        {
            let ghost rest = self.meta@.skip(i as int);
            assert(rest[0] == self.meta@[i as int]);
            assert(rest.drop_first() =~= self.meta@.skip(i + 1));
            if chars_eq(chars_of(self.meta[i].0.as_str()).as_slice(), chars_of(key).as_slice()) {
                return Some(&self.meta[i].1);
            }
            i += 1;
        }
        None
    }

    /// The metadata string stored under `key` (`meta.get(key)?.as_str()`).
    pub fn meta_str(&self, key: &str) -> (r: Option<String>)
        ensures
            r matches Some(s) ==> meta_text(meta_lookup(self.meta@, key@)) == Some(s@),
            r is None ==> meta_text(meta_lookup(self.meta@, key@)) is None,
    {
        match self.meta_get(key) {
            Some(MetaValue::Text(s)) => Some(s.clone()),
            _ => None,
        }
    }

    /// The metadata integer stored under `key` (`meta.get(key)?.as_i64()`).
    pub fn meta_i64(&self, key: &str) -> (r: Option<i64>)
        ensures
            r == meta_signed(meta_lookup(self.meta@, key@)),
    {
        match self.meta_get(key) {
            Some(MetaValue::Number { signed, .. }) => *signed,
            _ => None,
        }
    }
}

/// The candidate locations of a model file, tried in order: relative to the
/// manifest directory (or the path itself when absolute), under the guessed
/// repository's `models/`, and relative to the guessed repository root.
pub open spec fn model_path_candidates(man_dir: Seq<char>, model_path: Seq<char>) -> Seq<Seq<char>> {
    let first = if spec_path_is_absolute(model_path) {
        model_path
    } else {
        spec_path_join(man_dir, model_path)
    };
    let fname = match spec_path_file_name(model_path) {
        Some(f) => f,
        None => model_path,
    };
    seq![
        first,
        spec_path_join(spec_path_join(man_dir, "../../models"@), fname),
        spec_path_join(spec_path_join(man_dir, "../.."@), model_path),
    ]
}

/// The locations a model file may be found at, in the order they are tried.
pub fn model_path_candidate_list(man_dir: &str, model_path: &str) -> (r: Vec<String>)
    ensures
        strings_of_vec(r@) == model_path_candidates(man_dir@, model_path@),
{
    proof {
        reveal_strlit("../../models");
        reveal_strlit("../..");
    }
    let first = if path_is_absolute(model_path) {
        string_from_chars(chars_of(model_path).as_slice())
    } else {
        path_join(man_dir, model_path)
    };
    let fname = match path_file_name(model_path) {
        Some(f) => f,
        None => string_from_chars(chars_of(model_path).as_slice()),
    };
    let models = path_join(man_dir, "../../models");
    let root = path_join(man_dir, "../..");
    let second = path_join(models.as_str(), fname.as_str());
    let third = path_join(root.as_str(), model_path);
    let r = vec![first, second, third];
    assert(strings_of_vec(r@) =~= model_path_candidates(man_dir@, model_path@));
    r
}

pub open spec fn strings_of_vec(v: Seq<String>) -> Seq<Seq<char>> {
    v.map_values(|x: String| x@)
}

/// Index of the first `true` in `e` from index `i` on, else 0.
pub open spec fn first_true_from(e: Seq<bool>, i: nat) -> nat
    decreases e.len() - i,
{
    if i >= e.len() {
        0
    } else if e[i as int] {
        i
    } else {
        first_true_from(e, i + 1)
    }
}

proof fn lemma_first_true_from(e: Seq<bool>, j: nat, i: nat)
    requires
        j <= i <= e.len(),
        forall|k: int| j <= k < i ==> !e[k],
    ensures
        i < e.len() && e[i as int] ==> first_true_from(e, j) == i,
        i == e.len() ==> first_true_from(e, j) == 0,
    decreases i - j,
{
    if j < i {
        lemma_first_true_from(e, j + 1, i);
    }
}

/// Resolves a manifest's model path against the manifest file's location.
/// The candidates of `model_path_candidates` are probed on disk in order
/// until one exists; the probe results are returned. The model path
/// becomes the first candidate found, else the first candidate. A manifest
/// path without a parent leaves the manifest unchanged and probes nothing.
pub fn resolve_model_path(manifest_path: &str, m: &mut Manifest) -> (probes: Vec<bool>)
    ensures
        spec_path_parent(manifest_path@) is None ==> final(m).model_path == old(m).model_path
            && probes@.len() == 0,
        spec_path_parent(manifest_path@) matches Some(dir) ==> {
            let c = model_path_candidates(dir, old(m).model_path@);
            &&& 1 <= probes@.len() <= c.len()
            &&& forall|k: int| 0 <= k < probes@.len() - 1 ==> !probes@[k]
            &&& (probes@.len() < c.len() ==> probes@.last())
            &&& final(m).model_path@ == c[first_true_from(probes@, 0) as int]
            &&& c.contains(final(m).model_path@)
        },
        final(m).id == old(m).id,
        final(m).capability == old(m).capability,
        final(m).inputs == old(m).inputs,
        final(m).outputs == old(m).outputs,
        final(m).sample_rate == old(m).sample_rate,
        final(m).languages == old(m).languages,
        final(m).ep_prefs == old(m).ep_prefs,
        final(m).meta == old(m).meta,
{
    let man_dir = match path_parent(manifest_path) {
        Some(d) => d,
        None => return Vec::new(),
    };
    let candidates = model_path_candidate_list(man_dir.as_str(), m.model_path.as_str());
    assert(strings_of_vec(candidates@).len() == 3);
    let mut exists: Vec<bool> = Vec::new();
    let mut found = false;
    let mut i: usize = 0;
    while i < candidates.len() && !found
        invariant
            0 <= i <= candidates.len(),
            exists.len() == i,
            candidates.len() == 3,
            found == (i > 0 && exists@[i - 1]),
            forall|k: int| 0 <= k < i - 1 ==> !exists@[k],
            i == 0 ==> !found,
        decreases candidates.len() - i,
    {
        let e = path_exists(candidates[i].as_str());
        exists.push(e);
        found = e;
        i += 1;
    }
    let chosen = choose_model_path(&candidates, &exists);
    proof {
        assert(strings_of_vec(candidates@)[chosen as int] == candidates@[chosen as int]@);
    }
    m.model_path = candidates[chosen].clone();
    exists
}

/// Index of the first candidate reported to exist, else 0.
pub fn choose_model_path(candidates: &Vec<String>, exists: &Vec<bool>) -> (r: usize)
    requires
        candidates.len() > 0,
        exists.len() <= candidates.len(),
    ensures
        r < candidates.len(),
        r == first_true_from(exists@, 0),
        exists@.contains(true) ==> exists@[r as int] && forall|k: int| 0 <= k < r ==> !exists@[k],
        !exists@.contains(true) ==> r == 0,
{
    let mut i: usize = 0;
    while i < exists.len()
        invariant
            0 <= i <= exists.len() <= candidates.len(),
            forall|k: int| 0 <= k < i ==> !exists@[k],
        decreases exists.len() - i,
    {
        if exists[i] {
            proof {
                lemma_first_true_from(exists@, 0, i as nat);
            }
            return i;
        }
        i += 1;
    }
    proof {
        lemma_first_true_from(exists@, 0, i as nat);
    }
    assert(!exists@.contains(true));
    0
}

/// `std::io::Error`, carried through by `ProfileError::Io`.
#[verifier::external_type_specification]
#[verifier::external_body]
pub struct ExIoError(std::io::Error);

/// `serde_json::Error`, carried through by `ProfileError::Json`.
#[verifier::external_type_specification]
#[verifier::external_body]
pub struct ExJsonError(serde_json::Error);

/// Failure to load a profile or one of its manifests.
#[derive(Debug)]
pub enum ProfileError {
    Io(std::io::Error),
    Json(serde_json::Error),
    Other(String),
}

/// Profile: capability key to manifest path (relative to the profile file).
#[derive(Debug, Clone)]
pub struct Profile {
    pub name: String,
    pub description: String,
    /// Capability key and manifest path of each node.
    pub nodes: Vec<(String, String)>,
}

/// The directory that manifest paths of a profile are relative to.
pub open spec fn manifest_base_spec(profile_path: Seq<char>) -> Seq<char> {
    match spec_path_parent(profile_path) {
        Some(d) => d,
        None => seq!['.'],
    }
}

/// Where the manifest of a profile entry lives.
pub open spec fn manifest_path_spec(base: Seq<char>, rel: Seq<char>) -> Seq<char> {
    if spec_path_is_absolute(rel) {
        rel
    } else {
        spec_path_join(base, rel)
    }
}

/// Message for a profile key that names no capability.
pub open spec fn unknown_capability_message(cap: Seq<char>) -> Seq<char> {
    "unknown capability in profile: "@ + cap
}

/// Message for a manifest whose capability differs from its profile key.
pub open spec fn capability_mismatch_message(
    man_path: Seq<char>,
    found: CapabilityKind,
    cap: Seq<char>,
) -> Seq<char> {
    "manifest "@ + man_path + " capability "@ + found.debug_name() + " does not match profile key "@
        + cap
}

fn concat_string(a: String, b: &str) -> (r: String)
    ensures
        r@ == a@ + b@,
{
    let mut a = a;
    a.append(b);
    a
}

/// Where a profile given by name is looked for, in order, relative to the
/// working directory: its directory under `profiles/`, then a single file.
pub open spec fn profile_candidates_spec(name: Seq<char>) -> Seq<Seq<char>> {
    seq!["profiles/"@ + name + "/profile.json"@, "profiles/"@ + name + ".json"@]
}

/// The relative paths tried for a profile name.
pub fn profile_candidates(name: &str) -> (r: Vec<String>)
    ensures
        strings_of_vec(r@) == profile_candidates_spec(name@),
{
    let a = concat_string(concat_string(String::from_str("profiles/"), name), "/profile.json");
    let b = concat_string(concat_string(String::from_str("profiles/"), name), ".json");
    let r = vec![a, b];
    assert(strings_of_vec(r@) =~= profile_candidates_spec(name@));
    r
}

impl Profile {
    /// The directory that the profile's manifest paths are relative to.
    pub fn manifest_base(profile_path: &str) -> (r: String)
        ensures
            r@ == manifest_base_spec(profile_path@),
    {
        match path_parent(profile_path) {
            Some(d) => d,
            None => string_from_chars(&['.']),
        }
    }

    /// Resolves one profile entry: its capability and its manifest path.
    /// A key that names no capability is an error.
    pub fn resolve_entry(base: &str, cap: &str, rel: &str) -> (r: Result<(CapabilityKind, String), ProfileError>)
        ensures
            CapabilityKind::parse_spec(cap@) matches Some(k) ==> (r matches Ok((kind, path))
                && kind == k && path@ == manifest_path_spec(base@, rel@)),
            CapabilityKind::parse_spec(cap@) is None ==> (r matches Err(ProfileError::Other(msg))
                && msg@ == unknown_capability_message(cap@)),
    {
        let kind = match CapabilityKind::parse(cap) {
            Some(k) => k,
            None => {
                let msg = concat_string(String::from_str("unknown capability in profile: "), cap);
                return Err(ProfileError::Other(msg));
            },
        };
        let path = if path_is_absolute(rel) {
            string_from_chars(chars_of(rel).as_slice())
        } else {
            path_join(base, rel)
        };
        Ok((kind, path))
    }

    /// Checks that a loaded manifest has the capability its profile key names.
    pub fn check_capability(kind: CapabilityKind, cap: &str, man_path: &str, manifest: &Manifest) -> (r: Result<(), ProfileError>)
        ensures
            manifest.capability == kind ==> r is Ok,
            manifest.capability != kind ==> (r matches Err(ProfileError::Other(msg))
                && msg@ == capability_mismatch_message(man_path@, manifest.capability, cap@)),
    {
        if manifest.capability == kind {
            return Ok(());
        }
        let msg = concat_string(String::from_str("manifest "), man_path);
        let msg = concat_string(msg, " capability ");
        let name = manifest.capability.debug_string();
        let msg = concat_string(msg, name.as_str());
        let msg = concat_string(msg, " does not match profile key ");
        let msg = concat_string(msg, cap);
        Err(ProfileError::Other(msg))
    }
}

/// The hash-map key of a capability: its position in `vad, asr, mt, tts, slm`.
pub open spec fn capability_index(kind: CapabilityKind) -> u64 {
    match kind {
        CapabilityKind::Vad => 0,
        CapabilityKind::Asr => 1,
        CapabilityKind::Mt => 2,
        CapabilityKind::Tts => 3,
        CapabilityKind::Slm => 4,
    }
}

fn capability_key(kind: CapabilityKind) -> (r: u64)
    ensures
        r == capability_index(kind),
{
    match kind {
        CapabilityKind::Vad => 0,
        CapabilityKind::Asr => 1,
        CapabilityKind::Mt => 2,
        CapabilityKind::Tts => 3,
        CapabilityKind::Slm => 4,
    }
}

/// The manifests of a profile keyed by capability; inserting a capability
/// that is present replaces its manifest.
pub struct ManifestSet {
    map: HashMap<u64, Manifest>,
}

impl View for ManifestSet {
    type V = Map<CapabilityKind, Manifest>;

    closed spec fn view(&self) -> Map<CapabilityKind, Manifest> {
        Map::new(
            |k: CapabilityKind| self.map@.contains_key(capability_index(k)),
            |k: CapabilityKind| self.map@[capability_index(k)],
        )
    }
}

impl ManifestSet {
    /// Every key of the map is the index of a capability.
    pub closed spec fn wf(&self) -> bool {
        forall|i: u64| #[trigger] self.map@.contains_key(i) ==> i < 5
    }

    pub fn new() -> (r: Self)
        ensures
            r.wf(),
            r@ == Map::<CapabilityKind, Manifest>::empty(),
    {
        let r = ManifestSet { map: HashMap::new() };
        assert(r@ =~= Map::<CapabilityKind, Manifest>::empty());
        r
    }

    /// Sets the manifest of `kind`.
    pub fn insert(&mut self, kind: CapabilityKind, manifest: Manifest)
        requires
            old(self).wf(),
        ensures
            final(self).wf(),
            final(self)@ == old(self)@.insert(kind, manifest),
    {
        let key = capability_key(kind);
        self.map.insert(key, manifest);
        proof {
            assert forall|k: CapabilityKind| #[trigger] self@.contains_key(k) == old(self)@.insert(kind, manifest).contains_key(k) by {
                if k != kind {
                    assert(capability_index(k) != key);
                }
            }
            assert forall|k: CapabilityKind| #[trigger] self@.contains_key(k) implies self@[k] == old(self)@.insert(kind, manifest)[k] by {
                if k != kind {
                    assert(capability_index(k) != key);
                }
            }
            assert(self@ =~= old(self)@.insert(kind, manifest));
        }
    }

    /// The manifest of `kind`, if present.
    pub fn get(&self, kind: CapabilityKind) -> (r: Option<&Manifest>)
        requires
            self.wf(),
        ensures
            r matches Some(m) ==> self@.contains_key(kind) && self@[kind] == *m,
            r is None ==> !self@.contains_key(kind),
    {
        let key = capability_key(kind);
        self.map.get(&key)
    }

    /// Whether a manifest for `kind` is present.
    pub fn contains_key(&self, kind: CapabilityKind) -> (r: bool)
        requires
            self.wf(),
        ensures
            r == self@.contains_key(kind),
    {
        self.get(kind).is_some()
    }

    /// The manifests with their capabilities, each capability once, in the
    /// order vad, asr, mt, tts, slm.
    pub fn into_entries(self) -> (r: Vec<(CapabilityKind, Manifest)>)
        requires
            self.wf(),
        ensures
            forall|k: CapabilityKind| self@.contains_key(k) <==>
                (exists|i: int| 0 <= i < r@.len() && r@[i].0 == k),
            forall|i: int| 0 <= i < r@.len() ==> self@.contains_key(r@[i].0) && self@[r@[i].0] == r@[i].1,
            forall|i: int, j: int| 0 <= i < r@.len() && 0 <= j < r@.len() && i != j ==> r@[i].0 != r@[j].0,
            forall|i: int, j: int| 0 <= i < j < r@.len() ==> capability_index(r@[i].0) < capability_index(r@[j].0),
    {
        let ghost whole = self@;
        let mut map = self.map;
        let kinds = [CapabilityKind::Vad, CapabilityKind::Asr, CapabilityKind::Mt, CapabilityKind::Tts, CapabilityKind::Slm];
        let mut out: Vec<(CapabilityKind, Manifest)> = Vec::new();
        let mut n: usize = 0;
        while n < 5
            invariant
                0 <= n <= 5,
                kinds@ == seq![CapabilityKind::Vad, CapabilityKind::Asr, CapabilityKind::Mt, CapabilityKind::Tts, CapabilityKind::Slm],
                forall|k: CapabilityKind| (capability_index(k) >= n ==> (#[trigger] whole.contains_key(k) <==> map@.contains_key(capability_index(k))))
                    && (capability_index(k) >= n && whole.contains_key(k) ==> map@[capability_index(k)] == whole[k]),
                forall|k: CapabilityKind| (capability_index(k) < n && #[trigger] whole.contains_key(k)) <==>
                    (exists|i: int| 0 <= i < out@.len() && out@[i].0 == k),
                forall|i: int| 0 <= i < out@.len() ==> capability_index(out@[i].0) < n
                    && whole.contains_key(out@[i].0) && whole[out@[i].0] == out@[i].1,
                forall|i: int, j: int| 0 <= i < out@.len() && 0 <= j < out@.len() && i != j ==> out@[i].0 != out@[j].0,
                forall|i: int, j: int| 0 <= i < j < out@.len() ==> capability_index(out@[i].0) < capability_index(out@[j].0),
            decreases 5 - n,
        {
            let kind = kinds[n];
            assert(capability_index(kind) == n);
            let key = capability_key(kind);
            let ghost map_before = map@;
            let removed = map.remove(&key);
            proof {
                assert(map@ == map_before.remove(key));
                assert forall|k: CapabilityKind| capability_index(k) >= n + 1 implies
                    (#[trigger] whole.contains_key(k) <==> map@.contains_key(capability_index(k)))
                    && (whole.contains_key(k) ==> map@[capability_index(k)] == whole[k]) by {
                    assert(capability_index(k) != key);
                }
                assert(whole.contains_key(kind) <==> map_before.contains_key(key));
            }
            match removed {
                Some(m) => {
                    assert(whole.contains_key(kind) && whole[kind] == m);
                    let ghost before = out@;
                    out.push((kind, m));
                    assert(out@[before.len() as int].0 == kind);
                    assert forall|k: CapabilityKind| (capability_index(k) < n + 1 && #[trigger] whole.contains_key(k)) <==>
                        (exists|i: int| 0 <= i < out@.len() && out@[i].0 == k) by {
                        if exists|i: int| 0 <= i < out@.len() && out@[i].0 == k {
                            let i = choose|i: int| 0 <= i < out@.len() && out@[i].0 == k;
                            if i < before.len() {
                                assert(before[i].0 == k);
                            }
                        }
                        if capability_index(k) < n && whole.contains_key(k) {
                            let i = choose|i: int| 0 <= i < before.len() && before[i].0 == k;
                            assert(out@[i].0 == k);
                        }
                    }
                },
                None => {},
            }
            n += 1;
        }
        out
    }
}

impl Default for Manifest {
    fn default() -> (r: Self)
        ensures
            r.id@.len() == 0,
            r.capability == CapabilityKind::Vad,
            r.model_path@.len() == 0,
            r.inputs@.len() == 0,
            r.outputs@.len() == 0,
            r.sample_rate == 16_000,
            r.languages@.len() == 0,
            r.ep_prefs@ == default_chain_spec(),
            r.meta@.len() == 0,
    {
        Manifest {
            id: String::new(),
            capability: CapabilityKind::Vad,
            model_path: String::new(),
            inputs: Vec::new(),
            outputs: Vec::new(),
            sample_rate: default_sample_rate(),
            languages: Vec::new(),
            ep_prefs: EpPreference::default_chain(),
            meta: Vec::new(),
        }
    }
}

/// Parsing a capability's own key gives the capability back, in any ASCII case.
pub proof fn lemma_capability_key_round_trip(kind: CapabilityKind)
    ensures
        CapabilityKind::parse_spec(kind.key()) == Some(kind),
{
    assert(ascii_lower(kind.key()) =~= kind.key());
}

} // verus!
