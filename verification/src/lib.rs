//! A point-to-point RPC layer between two isolated execution contexts that
//! share only a duplex, message-oriented channel.
//!
//! The crate has two halves.
//!
//! The first half is a code generator: [`generate::service`] turns a service
//! declaration (a set of method signatures, each parameter carrying a
//! transport annotation) into the matching request and response variant sets,
//! a service interface, a client stub description and a server dispatch
//! table. Identifiers are modelled as ASCII byte strings, and the generated
//! artefacts are plain data with proved shape: one variant per method, named
//! by the PascalCase form of the method name, holding exactly the serialized
//! parameters in declaration order.
//!
//! The second half is the call runtime: a [`dispatch::Dispatcher`] that
//! multiplexes many in-flight calls over one channel, correlating each
//! response frame to its pending call by id, with at-most-once completion,
//! idempotent cancellation and teardown that fails every outstanding call.
//! The transport itself (the channel that actually moves frames) is a
//! capability of the host; the host performs the sends and receives and
//! feeds every frame through the verified transition functions here.

pub mod calc;
pub mod client;
pub mod decl;
pub mod dispatch;
pub mod generate;
pub mod names;
pub mod wire;
