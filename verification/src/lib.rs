//! Core model of an authoritative-host multiplayer arena session.
//!
//! One peer hosts a session; others join. The host's copy of the world is
//! canonical: it instantiates one movable entity per registered peer and
//! replicates that creation to every peer. Each replicated entity has exactly
//! one owning peer whose local simulation is authoritative; all cross-peer
//! coordination happens through fire-and-forget replicated calls gated by one
//! of three delivery policies. The engine that samples input, moves bodies,
//! renders the lobby and carries the calls is an external collaborator: this
//! crate holds the decisions (who may apply a call, what a round builds, how
//! scores and overlap sets evolve) as verified functions from plain values to
//! plain values.

use vstd::prelude::*;

pub mod bomb;
pub mod lobby;
pub mod player;
pub mod registry;
pub mod rock;
pub mod rpc;
pub mod score;
pub mod gamestate;
pub mod world;

verus! {

/// Well-known port the host binds and clients connect to.
pub const DEFAULT_PORT: u16 = 10567;

/// Maximum number of peers a hosted session accepts.
pub const MAX_PEERS: u8 = 12;

/// Peer id that the transport reserves for the host.
pub const HOST_ID: u64 = 1;

} // verus!
