//! Protocol bridge for driving an EV3 brick over a wide-area link: frame
//! checking and classification, the relay engine, control arbitration with a
//! remote coordinator, and the discovery emulation that makes the brick appear
//! on the local network.
//!
//! Every function here is a decision on plain values. Sockets, threads and
//! timers belong to the program around the library, which performs the actions
//! these functions return and hands back what happened.

pub mod frame;
pub mod relay;
pub mod device;
pub mod json;
pub mod arbitration;
pub mod transport;
pub mod text;
pub mod discovery;
pub mod session;
pub mod config;
