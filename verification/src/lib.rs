//! Typed bindings for the Kubernetes Gateway API resource model, with the
//! wire-format decoding and encoding rules verified.
//!
//! The library mirrors the upstream schema: field names, optionality,
//! defaulting, and the tagged-union decoding rules for route match
//! predicates. Documents are modelled by [`wire::Json`]; every decoder and
//! encoder carries a contract that pins down its result for every input.

pub mod exp;
pub mod gateway;
pub mod gatewayclass;
pub mod httproute;
pub mod object_reference;
pub mod referencegrant;
pub mod shared;
pub mod v1alpha2;
pub mod wire;
