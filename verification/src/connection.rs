//! The Remote Signer's cached connection, modelled as a state machine: a
//! single exclusively-owned optional channel, established lazily on the
//! first use, reused while intact, and re-created after a use left it
//! broken.  The network transport itself lives outside the library; callers
//! perform the planned action and report how the exchange ended.

use vstd::prelude::*;

verus! {

/// Whether a usable channel to the Signing Service is currently held.
#[derive(Clone, Copy, Debug, PartialEq, Eq, Structural)]
pub struct ConnectionState {
    /// True between a successful exchange (or connect) and the next failure.
    pub connected: bool,
}

/// What the Remote Signer must do with the channel before its next
/// request/response exchange.
#[derive(Clone, Copy, Debug, PartialEq, Eq, Structural)]
pub enum ConnectionPlan {
    /// No usable channel is held: establish one to the configured address.
    EstablishNew,
    /// A channel is held: reuse it rather than opening another.
    ReuseExisting,
}

/// The plan for a state: connect exactly when no channel is held.
pub open spec fn spec_plan(st: ConnectionState) -> ConnectionPlan {
    if st.connected {
        ConnectionPlan::ReuseExisting
    } else {
        ConnectionPlan::EstablishNew
    }
}

/// The state after an exchange: the channel is kept only if the whole
/// request/response round trip succeeded.
pub open spec fn spec_after_exchange(st: ConnectionState, ok: bool) -> ConnectionState {
    ConnectionState { connected: ok }
}

/// A fresh Remote Signer holds no connection.
pub fn initial_connection_state() -> (st: ConnectionState)
    ensures
        !st.connected,
{
    ConnectionState { connected: false }
}

/// Decides whether the next exchange establishes a new channel or reuses
/// the held one.
pub fn plan_connection(st: &ConnectionState) -> (p: ConnectionPlan)
    ensures
        p == spec_plan(*st),
        (p == ConnectionPlan::EstablishNew) <==> !st.connected,
{
    if st.connected {
        ConnectionPlan::ReuseExisting
    } else {
        ConnectionPlan::EstablishNew
    }
}

/// Records how an exchange ended: a failed round trip drops the channel so
/// the next use re-creates it.
pub fn after_exchange(st: ConnectionState, ok: bool) -> (r: ConnectionState)
    ensures
        r == spec_after_exchange(st, ok),
        r.connected == ok,
{
    ConnectionState { connected: ok }
}

/// Law: a Remote Signer with no prior connection establishes one on its
/// first exchange, and a second exchange after a successful first reuses
/// that same channel rather than opening another.
pub proof fn lemma_connect_then_reuse(st0: ConnectionState)
    requires
        !st0.connected,
    ensures
        spec_plan(st0) == ConnectionPlan::EstablishNew,
        spec_plan(spec_after_exchange(st0, true)) == ConnectionPlan::ReuseExisting,
{
}

} // verus!
