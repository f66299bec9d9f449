//! Locking the current user session by trying a prioritized list of
//! external programs until one succeeds.
//!
//! The library holds the whole decision logic: classifying what one
//! program run came to (`invoker`), walking an ordered attempt list
//! until the first success (`dispatch`), and the fixed per-platform
//! attempt tables (`platform`).  Actually spawning a process is the
//! caller's business: the dispatcher receives the invoker as a closure
//! and records, in ghost state, every outcome it was handed.

pub mod dispatch;
pub mod invoker;
pub mod platform;
pub mod text;
