//! Lobby decisions. The lobby's widgets, dialogs and visibility belong to
//! the engine; what stands here is what the lobby decides: whether a host
//! or join request is acceptable, and what the peer list shows for a given
//! registry.

use crate::registry::PeerRegistry;
use vstd::prelude::*;

verus! {

/// Why a host or join request is rejected before any transport is bound.
#[derive(Clone, Copy, PartialEq, Eq, Structural, Debug)]
pub enum LobbyError {
    /// The typed display name is empty.
    EmptyName,
    /// The typed address is not a valid network address.
    InvalidAddress,
}

impl LobbyError {
    /// The error label text the lobby shows for this rejection.
    pub fn message(&self) -> (m: &'static str)
        ensures
            *self == LobbyError::EmptyName ==> m@ == "Invalid name!"@,
            *self == LobbyError::InvalidAddress ==> m@ == "Invalid IP address!"@,
    {
        match self {
            LobbyError::EmptyName => "Invalid name!",
            LobbyError::InvalidAddress => "Invalid IP address!",
        }
    }
}

/// The host button's gate: a host request is accepted exactly when the
/// typed display name is not empty.
pub fn validate_host_request(name: &str) -> (r: Result<(), LobbyError>)
    ensures
        (r is Ok) <==> name@.len() > 0,
        (r is Err) ==> r == Result::<(), LobbyError>::Err(LobbyError::EmptyName),
{
    if name.is_empty() {
        Err(LobbyError::EmptyName)
    } else {
        Ok(())
    }
}

/// The join button's gate: a join request is accepted exactly when the
/// typed display name is not empty and the address is valid (validity is
/// the transport's judgement, passed in). An empty name is reported before
/// a bad address.
pub fn validate_join_request(name: &str, address_valid: bool) -> (r: Result<(), LobbyError>)
    ensures
        (r is Ok) <==> name@.len() > 0 && address_valid,
        name@.len() == 0 ==> r == Result::<(), LobbyError>::Err(LobbyError::EmptyName),
        name@.len() > 0 && !address_valid ==> r == Result::<(), LobbyError>::Err(
            LobbyError::InvalidAddress,
        ),
{
    if name.is_empty() {
        Err(LobbyError::EmptyName)
    } else if !address_valid {
        Err(LobbyError::InvalidAddress)
    } else {
        Ok(())
    }
}

/// One line of the lobby's peer list.
pub struct RosterLine {
    /// The peer's display name.
    pub name: String,
    /// Whether this line is the locally executing peer's own, which the
    /// list marks.
    pub is_you: bool,
}

/// What the peer list shows for a registry: one line per entry, in
/// announcement order, carrying its display name, the local peer's own
/// line marked.
pub fn lobby_roster(reg: &PeerRegistry, my_id: u64) -> (lines: Vec<RosterLine>)
    ensures
        lines@.len() == reg@.len(),
        forall|i: int|
            0 <= i < lines@.len() ==> {
                &&& (#[trigger] lines@[i]).name@ == reg@[i].1
                &&& (lines@[i].is_you <==> reg@[i].0 == my_id)
            },
{
    let n = reg.len();
    let mut lines: Vec<RosterLine> = Vec::new();
    let mut k: usize = 0;
    while k < n
        invariant
            n == reg@.len(),
            k <= n,
            lines@.len() == k,
            forall|i: int|
                0 <= i < k ==> {
                    &&& (#[trigger] lines@[i]).name@ == reg@[i].1
                    &&& (lines@[i].is_you <==> reg@[i].0 == my_id)
                },
        decreases n - k,
    {
        let id = reg.id_at(k);
        lines.push(RosterLine { name: reg.name_at(k).clone(), is_you: id == my_id });
        k += 1;
    }
    lines
}

} // verus!
