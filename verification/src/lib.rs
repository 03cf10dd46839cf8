//! Typed request builders for two thin client applications — a counter and a
//! multisig wallet — that talk to a transactional state-machine platform.
//!
//! The library holds the verified core: the data model of a [`types::Solution`]
//! (predicate address, decision variables, state mutations), the request
//! builders for each application action, the decoding of queried state, and
//! the derivation of a stable four-word identity from a wallet-held public
//! key. The network transport and the async submission loop live outside the
//! library and exchange plain values with it.

pub mod counter;
pub mod error;
pub mod identity;
pub mod multisig;
pub mod types;
pub mod words;
