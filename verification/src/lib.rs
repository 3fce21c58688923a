//! Core runtime of a distributed race-timing system: role state machine,
//! coordinated-clock synchronization, the broadcast beacon wire codec, the
//! race aggregation rules, and the push fan-out of the aggregated state.
pub mod app;
pub mod hal;
pub mod svc;
