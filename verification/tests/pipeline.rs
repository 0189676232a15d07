use label_propagator::errors::PolicyError;
use label_propagator::policy::{decode, encode_verdict, evaluate, protocol_version, Verdict};
use label_propagator::requests::namespace_fetch_request;
use label_propagator::settings::Settings;

fn pairs(items: &[(&str, &str)]) -> Vec<(String, String)> {
    items.iter().map(|(k, v)| (k.to_string(), v.to_string())).collect()
}

fn payload(evil: Option<&str>, labels_json: &str) -> Vec<u8> {
    let settings = match evil {
        Some(e) => format!("{{\"evil\": {e}}}"),
        None => "{}".to_string(),
    };
    format!(
        "{{\"settings\": {settings}, \"request\": {{\"namespace\": \"test-namespace\", \
         \"object\": {{\"metadata\": {{\"name\": \"testing-pod\", \"labels\": {labels_json}}}}}}}}}"
    )
    .into_bytes()
}

fn response_json(bytes: &[u8]) -> serde_json::Value {
    serde_json::from_slice(bytes).expect("cannot deserialize validation response")
}

#[test]
fn evil() {
    let decoded = decode(&payload(Some("true"), "{}")).expect("decode failed");
    assert_eq!(decoded.namespace, "test-namespace");
    let decision = evaluate(decoded, &Vec::new());
    let probe = decision.probe.expect("the probe must be planned");
    assert_eq!(probe.api_version, "v1");
    assert_eq!(probe.kind, "Secret");
    assert_eq!(probe.namespace, "kube-system");
    assert!(probe.label_selector.is_none());
    assert!(probe.field_selector.is_none());
    // whatever becomes of the probe, the verdict is still produced and valid
    let bytes = encode_verdict(decision.verdict).expect("encode failed");
    let response = response_json(&bytes);
    assert_eq!(response["accepted"], true);
}

#[test]
fn no_probe_without_evil() {
    let explicit = decode(&payload(Some("false"), "{}")).expect("decode failed");
    assert!(evaluate(explicit, &Vec::new()).probe.is_none());
    let defaulted = decode(&payload(None, "{}")).expect("decode failed");
    assert!(evaluate(defaulted, &Vec::new()).probe.is_none());
}

#[test]
fn accepts_when_labels_already_converged() {
    let decoded = decode(&payload(None, "{\"hello\": \"world\", \"ciao\": \"mondo\"}")).unwrap();
    let annotations = pairs(&[("propagate.hello", "world"), ("foo", "bar")]);
    let decision = evaluate(decoded, &annotations);
    assert!(matches!(decision.verdict, Verdict::Accept));
    let bytes = encode_verdict(decision.verdict).unwrap();
    let response = response_json(&bytes);
    assert_eq!(response["accepted"], true);
    assert!(response["mutated_object"].is_null());
}

#[test]
fn mutates_when_a_label_is_missing() {
    let decoded = decode(&payload(None, "{}")).unwrap();
    let annotations = pairs(&[("propagate.hello", "world")]);
    let decision = evaluate(decoded, &annotations);
    match &decision.verdict {
        Verdict::Mutate { object: _, labels } => {
            assert_eq!(labels.get(&"hello".to_string()).unwrap().as_str(), "world");
        }
        Verdict::Accept => panic!("should have been mutated"),
    }
    let bytes = encode_verdict(decision.verdict).unwrap();
    let response = response_json(&bytes);
    assert_eq!(response["accepted"], true);
    let mutated = &response["mutated_object"];
    assert_eq!(mutated["metadata"]["name"], "testing-pod");
    assert_eq!(mutated["metadata"]["labels"]["hello"], "world");
}

#[test]
fn mutates_when_a_label_diverges() {
    let decoded = decode(&payload(None, "{\"hello\": \"mondo\"}")).unwrap();
    let annotations = pairs(&[("propagate.hello", "world")]);
    let decision = evaluate(decoded, &annotations);
    let bytes = encode_verdict(decision.verdict).unwrap();
    let response = response_json(&bytes);
    let mutated = &response["mutated_object"];
    assert_eq!(mutated["metadata"]["labels"]["hello"], "world");
}

#[test]
fn accepts_when_no_annotation_is_prefixed() {
    let decoded = decode(&payload(None, "{\"ciao\": \"mondo\"}")).unwrap();
    let annotations = pairs(&[("foo", "bar")]);
    let decision = evaluate(decoded, &annotations);
    assert!(matches!(decision.verdict, Verdict::Accept));
}

#[test]
fn accepts_when_there_are_no_annotations() {
    let decoded = decode(&payload(None, "{\"ciao\": \"mondo\"}")).unwrap();
    let decision = evaluate(decoded, &Vec::new());
    assert!(matches!(decision.verdict, Verdict::Accept));
}

#[test]
fn the_probe_plan_leaves_the_verdict_alone() {
    let with_probe = decode(&payload(Some("true"), "{}")).unwrap();
    let without_probe = decode(&payload(Some("false"), "{}")).unwrap();
    let annotations = pairs(&[("propagate.hello", "world")]);
    let evil_bytes = encode_verdict(evaluate(with_probe, &annotations).verdict).unwrap();
    let plain_bytes = encode_verdict(evaluate(without_probe, &annotations).verdict).unwrap();
    assert_eq!(evil_bytes, plain_bytes);
}

#[test]
fn decode_rejects_a_malformed_payload() {
    assert!(matches!(decode(b"{not json"), Err(PolicyError::Decode)));
}

#[test]
fn decode_rejects_missing_settings() {
    let bytes = b"{\"request\": {\"namespace\": \"ns\", \"object\": {}}}";
    assert!(matches!(decode(bytes), Err(PolicyError::Decode)));
}

#[test]
fn decode_rejects_a_non_boolean_evil_flag() {
    let bytes = b"{\"settings\": {\"evil\": 7}, \"request\": {\"namespace\": \"ns\", \"object\": {}}}";
    assert!(matches!(decode(bytes), Err(PolicyError::Decode)));
}

#[test]
fn decode_rejects_non_object_settings() {
    let bytes = b"{\"settings\": 5, \"request\": {\"namespace\": \"ns\", \"object\": {}}}";
    assert!(matches!(decode(bytes), Err(PolicyError::Decode)));
}

#[test]
fn plain_acceptance_bytes_are_the_fixed_response() {
    let decoded = decode(&payload(None, "{}")).unwrap();
    let decision = evaluate(decoded, &Vec::new());
    let bytes = encode_verdict(decision.verdict).unwrap();
    assert_eq!(
        String::from_utf8(bytes).unwrap(),
        "{\"accepted\":true,\"message\":null,\"code\":null,\"mutated_object\":null,\
         \"audit_annotations\":null,\"warnings\":null}"
    );
}

#[test]
fn decode_rejects_a_missing_request() {
    let bytes = b"{\"settings\": {}}";
    assert!(matches!(decode(bytes), Err(PolicyError::Decode)));
}

#[test]
fn decode_rejects_an_object_without_the_pod_shape() {
    let bytes = b"{\"settings\": {}, \"request\": {\"namespace\": \"ns\", \"object\": 5}}";
    assert!(matches!(decode(bytes), Err(PolicyError::Decode)));
}

#[test]
fn decode_reads_labels_and_defaults() {
    let decoded = decode(&payload(None, "{\"a\": \"1\", \"b\": \"2\"}")).unwrap();
    assert!(!decoded.settings.evil);
    let mut found = decoded.label_pairs.clone();
    found.sort();
    assert_eq!(found, pairs(&[("a", "1"), ("b", "2")]));
    let no_namespace = decode(b"{\"settings\": {}, \"request\": {\"object\": {}}}").unwrap();
    assert_eq!(no_namespace.namespace, "");
}

#[test]
fn the_namespace_fetch_is_cluster_scoped_and_cached() {
    let r = namespace_fetch_request("test-namespace".to_string());
    assert_eq!(r.api_version, "v1");
    assert_eq!(r.kind, "Namespace");
    assert_eq!(r.name, "test-namespace");
    assert!(r.namespace.is_none());
    assert!(!r.disable_cache);
}

#[test]
fn protocol_version_token_is_fixed() {
    assert_eq!(protocol_version(), "v1");
}

#[test]
fn any_settings_value_is_valid() {
    assert!(Settings { evil: false }.validate());
    assert!(Settings { evil: true }.validate());
}

#[test]
fn error_messages_name_the_failure() {
    assert_eq!(PolicyError::Decode.message(), "cannot decode the validation request");
    assert_eq!(PolicyError::Encode.message(), "cannot serialize the mutated object");
}
