//! Capability interfaces of the peripherals a node is built from. The
//! drivers that implement them live outside the core and are injected by the
//! program that assembles a node.
pub mod button;
pub mod dip_switch;
pub mod gate;
pub mod rgb_led;
pub mod wifi;
