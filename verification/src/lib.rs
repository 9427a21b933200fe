//! Timed-action scheduling and cancellation engine.
//!
//! The library models the core of a desktop auto-clicker: a controller that
//! starts and stops a background worker, the shared run state the two of them
//! mutate, the worker's wait/click/sleep state machine, and the tick-driven
//! elapsed-time bookkeeping. The host process supplies the outside world
//! (threads, waits, the click capability, persistence, a user interface) and
//! drives these state machines with plain events; every decision the engine
//! makes is verified here.

pub mod config;
pub mod controller;
pub mod input;
pub mod message;
pub mod run;
pub mod state;
pub mod target;
pub mod update;
pub mod worker;
