//! Deterministic simulation core of a 1v1 fighting game, built to run under a
//! rollback session: both peers step the match from identical per-frame inputs,
//! snapshot state, and re-simulate from a snapshot when a late input arrives.
//! Everything here is integer arithmetic on frame counts and fixed-point
//! coordinates, so two peers that agree on the inputs agree on every byte of
//! state.
#![verifier::loop_isolation(false)]

pub mod character;
pub mod checksum;
pub mod codec;
pub mod collision;
pub mod combo;
pub mod config;
pub mod effects;
pub mod geometry;
pub mod input;
pub mod laws;
pub mod projectile;
pub mod round;
pub mod session;
pub mod sheet;
pub mod state_machine;
pub mod timer;
