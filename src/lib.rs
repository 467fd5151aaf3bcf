//! Network-activity capture: socket addresses, the kernel's event records,
//! their translation into analytics payloads, and the attach lifecycle of
//! the ingress hook that produces them.

pub mod addr;
pub mod event;
pub mod translate;
pub mod config;
pub mod capture;
