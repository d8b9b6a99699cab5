//! Orchestration core of a terminal dashboard for service-manager units.
//!
//! The crate holds the decisions of the dashboard: how the interface state
//! reacts to each [`action::Action`] and key press ([`home`]), what one turn
//! of the dispatch loop does ([`app`]), how bursts of render requests collapse
//! into one ([`debounce`]), how a service operation reports its end
//! ([`executor`]), and how the log follower is superseded by a newer request
//! ([`log_tail`]). Nothing here blocks or waits: timers, processes and the
//! terminal belong to the caller, which is told what to do in plain values.
//! Every function carries a contract over a mathematical view of the state.

pub mod action;
pub mod app;
pub mod cancel;
pub mod debounce;
pub mod executor;
pub mod home;
pub mod input;
pub mod list;
pub mod log_tail;
pub mod refresh;
pub mod render;
pub mod text;
pub mod unit;
