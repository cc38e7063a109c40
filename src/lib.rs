//! Rule-driven process scheduling: configuration model, rule matching,
//! change planning for niceness, I/O scheduling and CPU scheduling policy,
//! and the bookkeeping of the polling loop that drives them.
//!
//! Rules are evaluated in declaration order and the first match wins. The
//! `user` field of a rule is carried but not evaluated. The scheduling
//! policy path is complete: a class that declares a policy or a real-time
//! priority gets them applied like its niceness and I/O settings.

pub mod ananicy;
pub mod config;
pub mod enforcer;
pub mod matcher;
pub mod repr;
pub mod scheduler;
pub mod text;
pub mod validate;
