//! Decision engine for an overlay that hooks a host's present, resize and
//! submission entry points.
//!
//! Every type here is plain data: the callers that own the graphics objects,
//! the window procedure and the detours drive these state machines and carry
//! out the actions they return.
pub mod dx12;
pub mod frame;
pub mod guard;
pub mod hook;
pub mod laws;
pub mod opengl3;
pub mod window;
