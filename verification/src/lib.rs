//! A minimal in-process periodic task scheduler.
//!
//! A registry holds named jobs, each with a fixed interval and a
//! registration timestamp. Once per tick every job is checked: a job is
//! due when the whole seconds elapsed since its registration are a
//! multiple of its interval magnitude. The due-check and the per-tick
//! evaluation are verified here; the caller drives the tick loop, reads
//! the clock, and dispatches the actions of due jobs.

pub mod job;
pub mod scheduler;
