//! Core of a spaced-repetition memo tracker.
//!
//! Two pure components: the SM2-style scheduler, which maps a review grade
//! to the next repetition count, easiness factor and review interval, and
//! the task classifier, which partitions pending tasks into overdue,
//! due-today and due-this-week buckets relative to a given date.
//! Storage and UI plumbing live outside this crate.

pub mod date;
pub mod model;
pub mod sm2;
