//! Laws: what holds of the results of calls, one by one and one after the other.
//!
//! Each law takes the inputs and the results of calls and says how they are related, over the
//! inputs themselves: texts, sequences and maps. A result is what a call may return, and a `&mut`
//! argument is the value before the call and the one after it.

pub mod connections;
pub mod keys;
pub mod pages;
pub mod publishing;
pub mod queueing;
pub mod sockets;
pub mod tables;
pub mod texts;
pub mod watching;
