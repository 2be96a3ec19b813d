//! Core of a potential-energy evaluation service: a device-agnostic tensor
//! exchange contract with explicit ownership transfer, a callback dispatch
//! layer, and the client- and server-side logic of a request/response RPC
//! protocol that carries the same data over a byte stream.
//!
//! The modules are layered leaves-first:
//!
//! - [`status`]: the status codes every fallible entry point returns.
//! - [`tensor`]: self-describing tensor descriptors (borrowed and owned),
//!   row-major stride computation, and the validation policy applied to
//!   every input tensor before its data is read.
//! - [`types`]: the request/response pair for one evaluation.
//! - [`potential`]: the callback dispatch core.
//! - [`wire`]: the versioned byte-level message codec shared by both RPC
//!   endpoints.
//! - [`client`]: the computing half of the RPC client (request preparation,
//!   response checking).
//! - [`server`]: the computing half of the RPC server (request decoding,
//!   dispatch, response building).
//!
//! Network I/O itself (sockets, the accept loop, the cooperative scheduler)
//! lives outside this crate; the functions here take and return plain values.

pub mod status;
pub mod tensor;
pub mod types;
pub mod potential;
pub mod wire;
pub mod client;
pub mod server;
