//! Core logic of a Pomodoro-technique countdown timer.
//!
//! The library tracks a work/break phase state machine over plain
//! second-granularity timestamps supplied by the caller, counts completed
//! phases, derives the percentage of a phase that remains, renders
//! countdown text, and keeps the persisted work/break durations together
//! with the status of their background load/save.

pub mod config;
pub mod display;
pub mod notifications;
pub mod percent;
pub mod session;
pub mod stats;
pub mod timer;
