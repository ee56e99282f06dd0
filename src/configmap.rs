//! Drift repair of the NiFi ConfigMap: its data is compared with what the
//! renderer gives now, and on a difference the ConfigMap is deleted and
//! created anew, never patched.
use vstd::prelude::*;
use vstd::string::StringExecFns;
use vstd::utf8::encode_utf8;

use crate::error::ControllerError;
use crate::plan::joined;
use crate::resource::TemplateKind;
use crate::sync::EnsureOutcome;

verus! {

/// The data of a ConfigMap: absent, or its entries in key order.
pub type ConfigData = Option<Vec<(String, String)>>;

pub open spec fn entries_view(v: Seq<(String, String)>) -> Seq<(Seq<char>, Seq<char>)> {
    v.map_values(|e: (String, String)| (e.0@, e.1@))
}

pub open spec fn data_view(d: ConfigData) -> Option<Seq<(Seq<char>, Seq<char>)>> {
    match d {
        Some(v) => Some(entries_view(v@)),
        None => None,
    }
}

/// Whether two payloads differ.
pub fn payload_differs(live: &ConfigData, desired: &ConfigData) -> (r: bool)
    ensures
        r == (data_view(*live) != data_view(*desired)),
{
    if live.is_none() || desired.is_none() {
        return live.is_none() != desired.is_none();
    }
    let a = live.as_ref().unwrap();
    let b = desired.as_ref().unwrap();
    if a.len() != b.len() {
        assert(entries_view(a@).len() != entries_view(b@).len());
        return true;
    }
    let mut i: usize = 0;
    while i < a.len()
        invariant
            a.len() == b.len(),
            data_view(*live) == Some(entries_view(a@)),
            data_view(*desired) == Some(entries_view(b@)),
            0 <= i <= a.len(),
            forall|j: int| 0 <= j < i ==> entries_view(a@)[j] == entries_view(b@)[j],
        decreases a.len() - i,
    {
        if a[i].0 != b[i].0 || a[i].1 != b[i].1 {
            assert(entries_view(a@)[i as int] != entries_view(b@)[i as int]);
            assert(entries_view(a@) != entries_view(b@));
            return true;
        }
        i = i + 1;
    }
    assert(entries_view(a@) =~= entries_view(b@));
    false
}

/// The longest line, in bytes, that a manifest may hold before it is read.
/// The YAML loader recurses once per level of nesting, with no limit of its
/// own; a block collection opens a level only at a column further right than
/// the levels around it, so short lines keep the depth, and the stack that
/// the loader needs, small.
pub const MAX_LINE_BYTES: usize = 512;

pub open spec fn is_line_break(b: u8) -> bool {
    b == 10u8 || b == 13u8
}

/// How many bytes without a line break stand right before position `j`.
pub open spec fn run_before(s: Seq<u8>, j: int) -> nat
    decreases j,
{
    if j <= 0 || j > s.len() {
        0
    } else if is_line_break(s[j - 1]) {
        0
    } else {
        run_before(s, j - 1) + 1
    }
}

/// Every line of `s` is at most `MAX_LINE_BYTES` bytes long.
pub open spec fn lines_fit(s: Seq<u8>) -> bool {
    forall|j: int| 0 <= j <= s.len() ==> #[trigger] run_before(s, j) <= MAX_LINE_BYTES
}

/// Every line of the text, encoded as UTF-8, is at most `MAX_LINE_BYTES`
/// bytes long.
pub open spec fn text_lines_fit(text: Seq<char>) -> bool {
    lines_fit(encode_utf8(text))
}

/// Whether every line of a manifest is short enough to be read.
pub fn manifest_lines_fit(manifest: &str) -> (r: bool)
    ensures
        r == text_lines_fit(manifest@),
{
    let bytes = manifest.as_bytes();
    let mut run: usize = 0;
    let mut i: usize = 0;
    while i < bytes.len()
        invariant
            bytes@ == encode_utf8(manifest@),
            0 <= i <= bytes.len(),
            run == run_before(bytes@, i as int),
            run <= MAX_LINE_BYTES,
            forall|j: int| 0 <= j <= i ==> #[trigger] run_before(bytes@, j) <= MAX_LINE_BYTES,
        decreases bytes.len() - i,
    {
        if bytes[i] == 10u8 || bytes[i] == 13u8 {
            run = 0;
        } else {
            if run == MAX_LINE_BYTES {
                assert(run_before(bytes@, i + 1) > MAX_LINE_BYTES);
                return false;
            }
            run = run + 1;
        }
        i = i + 1;
        assert(run_before(bytes@, i as int) == run);
    }
    true
}

#[verifier::external_type_specification]
#[verifier::external_body]
pub struct ExYamlError(serde_yaml::Error);

/// Whether a manifest reads as a ConfigMap, and if so its data in key order.
pub uninterp spec fn manifest_config_data(manifest: Seq<char>) -> Option<Option<Seq<(Seq<char>, Seq<char>)>>>;

/// Relies on `serde_yaml::from_str` into k8s-openapi's `ConfigMap`: whether
/// the text reads and the `data` map it gives depend on the text alone. The
/// map is handed on as its entries in key order.
#[verifier::external_body]
fn read_configmap_data(manifest: &str) -> (r: Result<ConfigData, serde_yaml::Error>)
    requires
        text_lines_fit(manifest@),
    ensures
        match r {
            Ok(d) => manifest_config_data(manifest@) == Some(data_view(d)),
            Err(_) => manifest_config_data(manifest@) is None,
        },
{
    serde_yaml::from_str::<k8s_openapi::api::core::v1::ConfigMap>(manifest).map(
        |cm| cm.data.map(|d| d.into_iter().collect()),
    )
}

/// Relies on `serde_yaml::Error`'s `Display` for the text of a parse failure.
#[verifier::external_body]
fn yaml_error_text(e: &serde_yaml::Error) -> (r: String) {
    e.to_string()
}

/// Reads the data that a freshly rendered NiFi ConfigMap manifest holds. A
/// manifest with a line longer than `MAX_LINE_BYTES` is refused unread.
pub fn desired_payload(rendered: &Option<String>) -> (r: Result<Option<ConfigData>, ControllerError>)
    ensures
        match rendered {
            None => r matches Ok(None),
            Some(m) => if !text_lines_fit(m@) {
                r matches Err(ControllerError::ManifestParse(_))
            } else {
                match manifest_config_data(m@) {
                    Some(d) => r matches Ok(Some(x)) && data_view(x) == d,
                    None => r matches Err(ControllerError::ManifestParse(_)),
                }
            },
        },
{
    match rendered {
        None => Ok(None),
        Some(m) => {
            if !manifest_lines_fit(m.as_str()) {
                return Err(
                    ControllerError::ManifestParse("a line of the manifest is too long".to_owned()),
                );
            }
            match read_configmap_data(m.as_str()) {
                Ok(d) => Ok(Some(d)),
                Err(e) => Err(ControllerError::ManifestParse(yaml_error_text(&e))),
            }
        },
    }
}

/// Plans the drift repair of the existing ConfigMap `name` from the
/// renderer's answer: a `ManifestParse` error where the manifest does not
/// read, else the calls of `plan_drift` on its data.
pub fn plan_drift_from_manifest(name: &String, live: &ConfigData, rendered: &Option<String>) -> (r: Result<Vec<ConfigMapCall>, ControllerError>)
    ensures
        match rendered {
            None => r matches Ok(calls) && calls_view(calls@) == Seq::<(bool, Seq<char>)>::empty(),
            Some(m) => if !text_lines_fit(m@) {
                r matches Err(ControllerError::ManifestParse(_))
            } else {
                match manifest_config_data(m@) {
                    Some(d) => r matches Ok(calls) && calls_view(calls@) == (if data_view(*live)
                        != d {
                        seq![(true, name@), (false, name@)]
                    } else {
                        Seq::empty()
                    }),
                    None => r matches Err(ControllerError::ManifestParse(_)),
                }
            },
        },
{
    match desired_payload(rendered) {
        Ok(desired) => Ok(plan_drift(name, live, &desired)),
        Err(e) => Err(e),
    }
}

/// Whether an ensured resource is then checked for drift: only the NiFi
/// ConfigMap, and only where it was there already; one just created holds
/// the rendered payload.
pub fn needs_drift_check(template: TemplateKind, outcome: EnsureOutcome) -> (r: bool)
    ensures
        r == (template == TemplateKind::NiFiConfigMap && outcome == EnsureOutcome::Existing),
{
    match (template, outcome) {
        (TemplateKind::NiFiConfigMap, EnsureOutcome::Existing) => true,
        _ => false,
    }
}

/// A call on the ConfigMap of the given name.
pub enum ConfigMapCall {
    Delete(String),
    Create(String),
}

pub open spec fn call_view(c: ConfigMapCall) -> (bool, Seq<char>) {
    match c {
        ConfigMapCall::Delete(n) => (true, n@),
        ConfigMapCall::Create(n) => (false, n@),
    }
}

pub open spec fn calls_view(cs: Seq<ConfigMapCall>) -> Seq<(bool, Seq<char>)> {
    cs.map_values(|c: ConfigMapCall| call_view(c))
}

/// The calls that bring an existing ConfigMap named `name` in line: a
/// delete and a create where the renderer gave a payload that differs from
/// the live one, none where it matches or the renderer gave no manifest.
pub open spec fn drift_calls(
    name: Seq<char>,
    live: ConfigData,
    desired: Option<ConfigData>,
) -> Seq<(bool, Seq<char>)> {
    match desired {
        Some(d) if data_view(live) != data_view(d) => seq![(true, name), (false, name)],
        _ => Seq::empty(),
    }
}

/// Plans the repair of the ConfigMap `name`, which exists with the payload
/// `live`; `desired` is the payload of the freshly rendered manifest, if any.
pub fn plan_drift(name: &String, live: &ConfigData, desired: &Option<ConfigData>) -> (r: Vec<ConfigMapCall>)
    ensures
        calls_view(r@) == drift_calls(name@, *live, *desired),
{
    let mut calls: Vec<ConfigMapCall> = Vec::new();
    match desired {
        Some(d) => {
            if payload_differs(live, d) {
                calls.push(ConfigMapCall::Delete(name.clone()));
                calls.push(ConfigMapCall::Create(name.clone()));
            }
        },
        None => {},
    }
    assert(calls_view(calls@) =~= drift_calls(name@, *live, *desired));
    calls
}

/// What a drift repair does next.
pub enum DriftNext {
    /// Issue the planned call at this index.
    Issue(usize),
    /// The repair is over: whether the ConfigMap was replaced, or the first
    /// failure.
    Done(Result<bool, ControllerError>),
}

/// The next step of a drift repair whose first `results.len()` planned calls
/// have run: the calls run in order, and a failed one ends the repair, so no
/// create follows a delete that failed.
pub fn drift_next(planned: &Vec<ConfigMapCall>, results: &Vec<Result<(), ControllerError>>) -> (r: DriftNext)
    requires
        results.len() <= planned.len(),
    ensures
        joined(results@) matches Err(e) ==> r == DriftNext::Done(Err(e)),
        joined(results@) is Ok && results.len() < planned.len() ==> r == DriftNext::Issue(
            results.len(),
        ),
        joined(results@) is Ok && results.len() == planned.len() ==> r == DriftNext::Done(
            Ok(planned.len() > 0),
        ),
{
    match crate::plan::join_results(results) {
        Err(e) => DriftNext::Done(Err(e)),
        Ok(()) => if results.len() < planned.len() {
            DriftNext::Issue(results.len())
        } else {
            DriftNext::Done(Ok(planned.len() > 0))
        },
    }
}

/// A drifted payload costs exactly one delete and then one create of that
/// ConfigMap, and the check then reports an update; a matching payload, or
/// no manifest, costs no call and reports none.
pub proof fn lemma_drift_replaces_once(name: Seq<char>, live: ConfigData, desired: Option<ConfigData>)
    ensures
        (desired matches Some(d) && data_view(live) != data_view(d)) ==> drift_calls(
            name,
            live,
            desired,
        ) == seq![(true, name), (false, name)],
        !(desired matches Some(d) && data_view(live) != data_view(d)) ==> drift_calls(
            name,
            live,
            desired,
        ).len() == 0,
{
}

} // verus!
