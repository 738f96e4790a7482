//! Bridge between a video-routing matrix and an automation backend.
//!
//! The library holds the verified core of the bridge: the state model of the
//! device, the diffing engine that decides which device facts are novel enough
//! to re-announce, the planner that materializes one backend sub-target per
//! device output exactly once, the command dispatcher, and the reconnection
//! bookkeeping. All network I/O lives outside the library and talks to it
//! through plain values.

pub mod actions;
pub mod device;
pub mod dispatch;
pub mod emitters;
pub mod events;
pub mod lifecycle;
pub mod monitor;
pub mod ports;
pub mod session;
pub mod state;
pub mod tracker;
