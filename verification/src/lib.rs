//! Tunnel manager: acquire an authenticated remote-access tunnel for a named
//! device from a cloud tunneling directory, reconcile stale tunnel records,
//! and prepare the launch of a local proxy process that bridges the tunnel's
//! services onto local ports.
//!
//! The decision logic lives here, fully verified: error taxonomy ([`error`]),
//! the data model ([`tunnel`]), the reconciliation policy ([`plan`]), the
//! connection state machine ([`machine`]), a programmable directory double
//! ([`directory`]), the orchestrator over the double ([`connect`]), and the
//! fixed launch/recovery configuration ([`launcher`]). Network calls and
//! process spawning are performed by an unverified shell that drives the
//! state machine.

pub mod connect;
pub mod directory;
pub mod error;
pub mod launcher;
pub mod machine;
pub mod plan;
pub mod tunnel;
