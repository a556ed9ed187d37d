//! The experimental resource kinds: GRPCRoute, TCPRoute, and TLSRoute.

pub mod grpcroute;
pub mod tcproute;
pub mod tlsroute;
