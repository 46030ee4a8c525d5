//! Native call bridge: a byte-level request/response protocol with explicit
//! buffer ownership, synchronous and asynchronous dispatch, and a keyed cache
//! of serialized messages.

pub mod async_dispatch;
pub mod bridge;
pub mod buffer;
pub mod cache;
pub mod dispatch;
pub mod envelope;
pub mod forum;
pub mod wire;
