//! The v1alpha2 schema tree: an earlier, separately versioned shape of
//! the resource model, kept as its own set of types.

pub mod gateway;
pub mod gatewayclass;
pub mod httproute;
pub mod object_reference;
pub mod policy;
pub mod referencepolicy;
pub mod tcproute;
pub mod tlsroute;
pub mod udproute;
