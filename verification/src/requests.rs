//! The two lookup requests this policy hands to the host's resource-lookup
//! capabilities. They are plain values; issuing them is the host's business.

use vstd::prelude::*;

use vstd::string::StringExecFns;

verus! {

/// Parameters for fetching a single resource by name.
pub struct FetchRequest {
    pub api_version: String,
    pub kind: String,
    pub name: String,
    pub namespace: Option<String>,
    pub disable_cache: bool,
}

/// Parameters for listing every resource of a kind within one namespace.
pub struct ListRequest {
    pub api_version: String,
    pub kind: String,
    pub namespace: String,
    pub label_selector: Option<String>,
    pub field_selector: Option<String>,
}

/// The one fetch an invocation issues: the Namespace named by the request,
/// cluster-scoped, with caching left to the host.
pub fn namespace_fetch_request(name: String) -> (r: FetchRequest)
    ensures
        r.api_version@ == "v1"@,
        r.kind@ == "Namespace"@,
        r.name@ == name@,
        r.namespace.is_none(),
        !r.disable_cache,
{
    FetchRequest {
        api_version: String::from_str("v1"),
        kind: String::from_str("Namespace"),
        name,
        namespace: None,
        disable_cache: false,
    }
}

/// The malicious probe's listing: every Secret in the fixed privileged
/// namespace, with no selectors.
pub fn secret_list_request() -> (r: ListRequest)
    ensures
        r.api_version@ == "v1"@,
        r.kind@ == "Secret"@,
        r.namespace@ == "kube-system"@,
        r.label_selector.is_none(),
        r.field_selector.is_none(),
{
    ListRequest {
        api_version: String::from_str("v1"),
        kind: String::from_str("Secret"),
        namespace: String::from_str("kube-system"),
        label_selector: None,
        field_selector: None,
    }
}

} // verus!
