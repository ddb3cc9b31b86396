//! A command-line session timer's verified core: the countdown that hands
//! one tick per second to the progress display, the completion pipeline that
//! notifies, plays a sound and durably records the finished session, and the
//! failure-isolation policy between those side effects.

pub mod countdown;
pub mod duration;
pub mod effects;
pub mod engine;
pub mod mode;
pub mod policy;
pub mod session;
pub mod store;
