//! Trusted boundary to serde_json, k8s_openapi's Pod type and the SDK's
//! request parser and verdict serializers.
//!
//! The parse boundary turns the payload into plain values, each pinned by a
//! name for the corresponding deterministic serde result; every decision on
//! those values (defaults, rejections) is made in verified code. The Pod
//! itself stays opaque; the label map it carries travels beside it as a
//! specification-level model that the boundary maintains.

use vstd::prelude::*;

use crate::errors::PolicyError;
use crate::labels::map_of;
use kubewarden_policy_sdk::request::ValidationRequest;
use serde_json::Value;

verus! {

#[verifier::external_type_specification]
#[verifier::external_body]
pub struct ExValue(Value);

#[verifier::external_type_specification]
#[verifier::external_body]
pub struct ExJsonError(serde_json::Error);

#[verifier::external_type_specification]
#[verifier::external_body]
pub struct ExPod(k8s_openapi::api::core::v1::Pod);

/// Whether the payload parses as a validation request: a JSON document with a
/// `settings` member (any JSON) and a `request` member of the admission shape.
pub uninterp spec fn payload_wf(p: Seq<u8>) -> bool;

/// Whether the parsed payload's `settings` member is a JSON object.
pub uninterp spec fn settings_object_of(p: Seq<u8>) -> bool;

/// The status of the given settings member: `None` when absent, `Some(None)`
/// when present but not a boolean, `Some(Some(b))` when the boolean `b`.
pub uninterp spec fn bool_setting_of(p: Seq<u8>, key: Seq<char>) -> Option<Option<bool>>;

/// The parsed payload's namespace name (empty when absent).
pub uninterp spec fn namespace_of(p: Seq<u8>) -> Seq<char>;

/// Whether the parsed payload's `object` member has the Pod shape.
pub uninterp spec fn object_is_pod(p: Seq<u8>) -> bool;

/// The label map of the parsed payload's object (empty when absent).
pub uninterp spec fn labels_of(p: Seq<u8>) -> Map<Seq<char>, Seq<char>>;

/// The object under admission: the opaque Pod, together with the label map it
/// carries, kept as a specification-level model beside it. Only this module
/// constructs one, so the model always matches the held Pod.
pub struct AdmissionObject {
    pod: k8s_openapi::api::core::v1::Pod,
    labels_model: Ghost<Map<Seq<char>, Seq<char>>>,
}

impl AdmissionObject {
    /// The label map the held Pod carries.
    pub closed spec fn labels(&self) -> Map<Seq<char>, Seq<char>> {
        self.labels_model@
    }
}

/// What the parse boundary reports of the payload, as plain values plus the
/// opaque object; nothing is decided here.
pub struct RawRequest {
    pub settings_is_object: bool,
    pub evil_field: Option<Option<bool>>,
    pub namespace: String,
    pub object: Option<AdmissionObject>,
    pub label_pairs: Vec<(String, String)>,
}

/// Relies on kubewarden_policy_sdk's ValidationRequest::new (serde parsing of
/// the payload; deterministic in the bytes), serde_json::Value::is_object,
/// Value::get, Value::as_bool, serde_json::from_value for Pod, and BTreeMap
/// iteration over the Pod's labels (keys distinct, sorted; absent map read as
/// empty). The body only makes those calls and converts their results.
#[verifier::external_body]
pub(crate) fn parse_payload(payload: &[u8], key: &str) -> (r: Option<RawRequest>)
    ensures
        r is Some <==> payload_wf(payload@),
        r matches Some(d) ==> d.settings_is_object == settings_object_of(payload@)
            && d.evil_field == bool_setting_of(payload@, key@)
            && d.namespace@ == namespace_of(payload@)
            && (d.object is Some <==> object_is_pod(payload@))
            && (d.object matches Some(o) ==> o.labels() == labels_of(payload@)
                && map_of(d.label_pairs@) == labels_of(payload@))
            && forall|a: int, b: int|
                0 <= a < b < d.label_pairs@.len() ==> d.label_pairs@[a].0@ != d.label_pairs@[b].0@,
{
    let vr = ValidationRequest::<Value>::new(payload).ok()?;
    let settings_is_object = vr.settings.is_object();
    let evil_field = vr.settings.get(key).map(|b| b.as_bool());
    let pod: Option<k8s_openapi::api::core::v1::Pod> =
        serde_json::from_value(vr.request.object).ok();
    let label_pairs = pod
        .as_ref()
        .and_then(|p| p.metadata.labels.as_ref())
        .map_or(Vec::new(), |m| m.clone().into_iter().collect());
    let object = pod.map(|pod| AdmissionObject { pod, labels_model: Ghost(Map::empty()) });
    Some(RawRequest { settings_is_object, evil_field, namespace: vr.request.namespace, object, label_pairs })
}

/// Relies on BTreeMap's FromIterator: stores the given pairs as the Pod's
/// labels (later duplicates winning, as in `map_of`), so the model of the
/// result is exactly the map the pairs describe.
#[verifier::external_body]
pub(crate) fn pod_with_labels(p: AdmissionObject, labels: Vec<(String, String)>) -> (r:
    AdmissionObject)
    ensures
        r.labels() == map_of(labels@),
{
    let mut pod = p.pod;
    pod.metadata.labels = Some(labels.into_iter().collect());
    AdmissionObject { pod, labels_model: Ghost(Map::empty()) }
}

/// Relies on serde_json::to_value for Pod: it cannot fail, since every field
/// of the Pod type serializes infallibly and its maps have string keys.
#[verifier::external_body]
pub(crate) fn pod_to_value(p: AdmissionObject) -> (r: Result<Value, serde_json::Error>)
    ensures
        r is Ok,
{
    serde_json::to_value(p.pod)
}

/// The serialized plain-acceptance response the SDK produces: a
/// ValidationResponse with `accepted` true and every other field null.
pub open spec fn accept_response_text() -> Seq<char> {
    "{\"accepted\":true,\"message\":null,\"code\":null,\"mutated_object\":null,\"audit_annotations\":null,\"warnings\":null}"@
}

/// Whether the bytes spell `accept_response_text`.
pub open spec fn is_accept_response(b: Seq<u8>) -> bool {
    b.len() == accept_response_text().len() && forall|i: int|
        0 <= i < b.len() ==> b[i] == accept_response_text()[i] as u8
}

/// Relies on kubewarden_policy_sdk::accept_request: it serializes a fixed
/// ValidationResponse value with a vector writer, so it cannot fail and the
/// bytes are the fixed plain-acceptance response.
#[verifier::external_body]
pub(crate) fn accept_bytes() -> (r: Result<Vec<u8>, PolicyError>)
    ensures
        r is Ok,
        r matches Ok(b) ==> is_accept_response(b@),
{
    kubewarden_policy_sdk::accept_request().map_err(|_| PolicyError::Encode)
}

/// Relies on kubewarden_policy_sdk::mutate_request: it serializes a
/// ValidationResponse holding the given document with a vector writer, so it
/// cannot fail for any document.
#[verifier::external_body]
pub(crate) fn mutate_bytes(obj: Value) -> (r: Result<Vec<u8>, PolicyError>)
    ensures
        r is Ok,
{
    kubewarden_policy_sdk::mutate_request(obj).map_err(|_| PolicyError::Encode)
}

} // verus!
