//! Network orchestration and shared-resource arbitration for a
//! multi-channel analog control instrument.
//!
//! A single non-reentrant network stack is multiplexed among several
//! cooperatively polled protocol clients. This crate holds the manager
//! that arbitrates stack access, the orchestrator that polls the clients
//! in a fixed order, the deriver of stable network identities, and the
//! state machines governing streaming handoff and the output relays.
pub mod driver;
pub mod identity;
pub mod net;
pub mod relay;
pub mod shared;
pub mod telemetry;
