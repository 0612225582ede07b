//! The payload of a block: built from several sources of messages under
//! one shared limit of bytes, and validated when another replica proposes
//! it.
//!
//! [`payload_builder`] holds the builder itself. It resolves the size that
//! a payload may have ([`budget`]) from the record that the registry holds
//! of the subnet ([`registry`]), fills the sections of a payload in an
//! order that rotates with the height ([`rotation`], [`section`]), and
//! holds a proposed payload against the same size. What it counts on the
//! way is kept in [`metrics`]. [`pool`] is the plainest source of
//! messages; the sources of a replica are its own. [`laws`] states what
//! holds of all this for every input.
//!
//! Beside it stand the types of the Bitcoin interface ([`btc_types`]), the
//! time of the protocol ([`time`]), and the decisions of the HTTP endpoint
//! ([`http_handler`]).

pub mod btc_types;
pub mod budget;
pub mod http_handler;
pub mod laws;
pub mod metrics;
pub mod payload_builder;
pub mod pool;
pub mod registry;
pub mod rotation;
pub mod section;
pub mod text;
pub mod time;
pub mod types;
