//! Connectivity and interface-readiness monitoring for a VPN tunnel manager.
//!
//! The crate holds the decisions of the subsystem as verified functions over
//! plain values: the codec between platform-neutral socket addresses and the
//! native, family-tagged address image, the filter that recognises when an
//! interface has acquired its addresses, the state machine that polls the
//! duplicate-address-detection state of those addresses, and the offline
//! monitor that turns route lookups into transition events. Operating-system
//! queries, timers and task scheduling are left to the embedding program,
//! which feeds their results in as events and carries out the actions that
//! come back.

mod channel;
pub mod net;
pub mod offline;
pub mod windows;
