//! Decision logic of a bot that opens stasis chambers on request: who may ask, which slot is
//! free, when the trapdoor is clicked, and how the link to the hub is kept alive.

pub mod config;
pub mod dispatch;
pub mod dispatch_laws;
pub mod hub;
pub mod hub_laws;
pub mod pearl;
pub mod pearl_laws;
pub mod pearl_step_laws;
pub mod request;
pub mod text;
