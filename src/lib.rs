//! A lockable owner of shared data: one owner hands out weak handles, which
//! can become short-lived readers while the owner's latch is open; the owner can
//! close the latch and take its value back once no reader is left.
pub mod latch;
pub mod arc;
pub mod context;
pub mod time;
pub mod sync;

pub use crate::arc::ParentArc;
pub use crate::arc::LockWeak;
pub use crate::arc::ChildArc;
pub use crate::arc::TryUnwrapError;
pub use crate::arc::TryUnwrapResult;
