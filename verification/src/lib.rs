//! Timer-controlled switches.
//!
//! The heart of the crate is the trigger engine of [`schedule`]: it holds
//! today's pending flips, decides at every tick which of them are due, and
//! hands each out once. [`firing`] states and proves what that means over a
//! whole day of ticks and refreshes.
//!
//! Around it stand the data model ([`data`]), the requests put to the store
//! and the reading of its answers ([`store`]), the records that travel over
//! the message broker ([`ipc`]), the transmitter's handling of them
//! ([`remote`]), the key exchange ([`crypto`]), the decisions of the control
//! interface ([`api`]) and the daily refresh of the sun's times ([`sun`]).
//!
//! Nothing here opens a socket or a file. The wall clock ([`clock`]), the
//! random number generator and the parsers of other crates are called
//! through small functions whose contracts are stated and not proved; each
//! says in its comment what it takes on trust.

pub mod api;
pub mod clock;
pub mod crypto;
pub mod data;
pub mod error;
pub mod firing;
pub mod ipc;
pub mod remote;
pub mod schedule;
pub mod store;
pub mod sun;
