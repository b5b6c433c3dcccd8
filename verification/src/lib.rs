//! Interactive JSON-RPC client core: a registry of callable methods, an
//! application state with search/filter over method names, a three-mode
//! input state machine, and the bookkeeping for request/response history.
//!
//! Terminal rendering, key decoding and the HTTP transport live outside
//! this crate; they feed decoded input events in and read the state out.

pub mod app;
pub mod events;
pub mod registry;
pub mod rpc;
pub mod search;
pub mod wire;

use vstd::prelude::*;

verus! {

/// The interaction mode the client is currently in.
#[derive(Debug, Clone, Copy, PartialEq, Eq, Structural)]
pub enum AppMode {
    /// Search and select JSON-RPC methods.
    Main,
    /// Fill in parameters for the selected method.
    ParamInput,
    /// Browse and replay previous requests.
    History,
}

} // verus!
