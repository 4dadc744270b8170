//! Verified core of a cruise control for the forward-movement key of
//! driving-style games.
//!
//! The library holds every decision the utility makes: how sampled key
//! states become rising edges, how the controller moves between idle and
//! engaged, which synthetic key events it emits and when, and what the
//! on-screen indicator shows. Reading the keyboard, injecting events,
//! speaking and painting are left to the caller, which hands plain values
//! in and performs the actions that come back.

pub mod actions;
pub mod announce;
pub mod controller;
pub mod injection;
pub mod keys;
pub mod machine;
pub mod overlay;
pub mod trace;
