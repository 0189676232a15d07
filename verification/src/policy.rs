//! The per-invocation pipeline: decode the payload, plan the namespace fetch,
//! evaluate the verdict and the probe, and serialize the verdict.
//!
//! The host drives it in order: `decode`, then `namespace_fetch_request` with
//! the decoded namespace name, then — once the namespace annotations are in
//! hand — `evaluate`, then the probe it planned (if any), then
//! `encode_verdict`. The probe's outcome is not an input anywhere, so it can
//! never affect the verdict.

use vstd::prelude::*;

use crate::errors::PolicyError;
use crate::kube::{accept_bytes, bool_setting_of, is_accept_response, labels_of, mutate_bytes,
    namespace_of, object_is_pod, parse_payload, payload_wf, pod_to_value, pod_with_labels,
    settings_object_of, AdmissionObject};
use crate::labels::{map_of, propagate, Labels};
use crate::merge::merged;
use crate::requests::{secret_list_request, ListRequest};
use crate::settings::Settings;
use vstd::string::StringExecFns;

verus! {

/// A decoded admission request: the settings, the name of the owning
/// namespace, the object under admission, and that object's labels read out
/// as plain pairs (absent map read as empty, keys distinct).
pub struct Decoded {
    pub settings: Settings,
    pub namespace: String,
    pub object: AdmissionObject,
    pub label_pairs: Vec<(String, String)>,
}

/// The evaluated outcome of one invocation.
pub enum Verdict {
    /// Accept the request unmodified.
    Accept,
    /// Accept with the object mutated; `labels` is the merged label map the
    /// object now carries, and the object's own label model equals it.
    Mutate { object: AdmissionObject, labels: Labels },
}

/// The verdict, and the probe the host must issue first (exactly when the
/// settings demand it).
pub struct Decision {
    pub probe: Option<ListRequest>,
    pub verdict: Verdict,
}

/// When decoding succeeds: the payload parses as a validation request whose
/// settings member is an object, whose `evil` member (if any) is a boolean,
/// and whose object has the Pod shape.
pub open spec fn decode_ok(p: Seq<u8>) -> bool {
    &&& payload_wf(p)
    &&& settings_object_of(p)
    &&& !(bool_setting_of(p, "evil"@) matches Some(None))
    &&& object_is_pod(p)
}

/// The decoded probe flag: the `evil` setting where given, off where absent.
pub open spec fn evil_of(p: Seq<u8>) -> bool {
    match bool_setting_of(p, "evil"@) {
        Some(Some(b)) => b,
        _ => false,
    }
}

/// Parses the payload into a `Decoded` request: it succeeds exactly on
/// well-formed payloads, and then carries their settings, namespace name and
/// label map; everything else fails with the decode error. A missing `evil`
/// flag defaults to off; a missing namespace name reads as empty.
pub fn decode(payload: &[u8]) -> (r: Result<Decoded, PolicyError>)
    ensures
        r is Ok <==> decode_ok(payload@),
        r matches Ok(d) ==> d.settings.evil == evil_of(payload@)
            && d.namespace@ == namespace_of(payload@)
            && map_of(d.label_pairs@) == labels_of(payload@)
            && d.object.labels() == labels_of(payload@)
            && forall|a: int, b: int|
                0 <= a < b < d.label_pairs@.len() ==> d.label_pairs@[a].0@ != d.label_pairs@[b].0@,
        r matches Err(e) ==> e == PolicyError::Decode,
{
    let raw = match parse_payload(payload, "evil") {
        Some(raw) => raw,
        None => {
            return Err(PolicyError::Decode);
        },
    };
    if !raw.settings_is_object {
        return Err(PolicyError::Decode);
    }
    let evil: bool = match raw.evil_field {
        None => false,
        Some(Some(b)) => b,
        Some(None) => {
            return Err(PolicyError::Decode);
        },
    };
    let object = match raw.object {
        Some(object) => object,
        None => {
            return Err(PolicyError::Decode);
        },
    };
    Ok(
        Decoded {
            settings: Settings { evil },
            namespace: raw.namespace,
            object,
            label_pairs: raw.label_pairs,
        },
    )
}

/// Decides the verdict from the decoded request and the annotations of its
/// namespace, and plans the probe. The verdict is a mutation exactly when the
/// propagation merge moves the label map at all; when it does, the mutated
/// object carries exactly the merged map. The probe is planned exactly when
/// the settings demand it, it is always the fixed secret listing, and nothing
/// about it enters the verdict.
pub fn evaluate(d: Decoded, annotation_pairs: &Vec<(String, String)>) -> (r: Decision)
    ensures
        r.probe is Some <==> d.settings.evil,
        r.probe matches Some(req) ==> req.api_version@ == "v1"@ && req.kind@ == "Secret"@
            && req.namespace@ == "kube-system"@ && req.label_selector.is_none()
            && req.field_selector.is_none(),
        r.verdict is Mutate <==> merged(map_of(annotation_pairs@), map_of(d.label_pairs@))
            != map_of(d.label_pairs@),
        r.verdict matches Verdict::Mutate { object, labels } ==> labels.wf() && labels@ == merged(
            map_of(annotation_pairs@),
            map_of(d.label_pairs@),
        ) && object.labels() == merged(map_of(annotation_pairs@), map_of(d.label_pairs@)),
{
    let annotations = Labels::from_pairs(annotation_pairs);
    let existing = Labels::from_pairs(&d.label_pairs);
    let (merged_labels, changed) = propagate(&annotations, &existing);
    let probe = if d.settings.evil {
        Some(secret_list_request())
    } else {
        None
    };
    let verdict = if changed {
        let object = pod_with_labels(d.object, merged_labels.clone_pairs());
        Verdict::Mutate { object, labels: merged_labels }
    } else {
        Verdict::Accept
    };
    Decision { probe, verdict }
}

/// Serializes the outcome as either plain acceptance or acceptance carrying
/// the mutated object. It always succeeds — both response serializers write
/// to a vector and cannot fail — and plain acceptance yields the fixed
/// response bytes.
pub fn encode_verdict(v: Verdict) -> (r: Result<Vec<u8>, PolicyError>)
    ensures
        r is Ok,
        v is Accept ==> (r matches Ok(b) ==> is_accept_response(b@)),
{
    match v {
        Verdict::Accept => accept_bytes(),
        Verdict::Mutate { object, labels: _ } => {
            match pod_to_value(object) {
                Ok(value) => mutate_bytes(value),
                Err(_) => Err(PolicyError::Encode),
            }
        },
    }
}

/// The static token of the protocol this policy speaks.
pub fn protocol_version() -> (r: String)
    ensures
        r@ == "v1"@,
{
    String::from_str("v1")
}

} // verus!
