//! Admission-control decision engine that propagates namespace annotations
//! prefixed with `propagate.` into the labels of the object under admission.
//!
//! The core is pure and fully specified: label maps are modelled as
//! mathematical maps from character sequences to character sequences, and the
//! propagation merge, the accept-versus-mutate decision and the probe plan are
//! all pinned down by contracts. The host environment (wire framing, resource
//! lookup capabilities) stays outside; it drives the pipeline and hands plain
//! values in and out.

pub mod errors;
pub mod kube;
pub mod labels;
pub mod merge;
pub mod policy;
pub mod prefix;
pub mod requests;
pub mod settings;
