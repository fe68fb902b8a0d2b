//! Turn-resolution engine for cetkaik: the states a turn passes through,
//! the transitions between them, and the end-of-turn hand and score
//! resolution.
//!
//! Randomness is never drawn by a transition: every outcome that depends
//! on a cast is handed back as a [`probabilistic::Probabilistic`] value.
//! The board is the one of `cetkaik_naive_representation`.

pub mod candidates;
pub mod field;
pub mod hand;
pub mod laws;
pub mod message;
pub mod notation;
pub mod pieces;
pub mod probabilistic;
pub mod resolution;
pub mod rules;
pub mod score;
pub mod state;
pub mod transition;

pub use resolution::{can_resolve, initial_state, no_move_possible_at_all, resolve, resolve_with};
pub use rules::{Config, Consequence, Plan, Rate, Season};
pub use score::{Scores, Victor};
pub use state::IfTaxot_;
pub use transition::{
    apply_after_half_acceptance, apply_after_half_acceptance_among, apply_inf_after_step,
    apply_inf_after_step_among, apply_normal_move, apply_normal_move_among,
};
