//! A single boolean flag with read and flip operations, and the notifications
//! that creating and flipping it produce.

pub mod event;
pub mod flag;
pub mod dispatch;
