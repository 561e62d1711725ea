//! A verified arbitration engine for a turn-based combat duel between two
//! autonomous agents.
//!
//! Two agents exchange single-byte combat actions over a byte channel. The
//! engine enforces ammunition and shield rules and declares a winner:
//!
//! - [`action`] holds the action type and the byte-level wire codec.
//! - [`validator`] applies an action to one player's ammo/shield state and
//!   flags rule faults.
//! - [`supervisor`] makes the per-agent decisions: the readiness handshake,
//!   validation of the agent's own actions, and the reaction to a relayed
//!   opponent action.
//! - [`arbiter`] makes the duel-level decisions: relaying, win/tie
//!   determination, and a fully synchronous simulation mode.
//!
//! Process spawning, the byte streams themselves, threads and the wall clock
//! live outside this crate; every rule that decides the duel is verified here.

pub mod action;
pub mod arbiter;
pub mod supervisor;
pub mod validator;
