//! Turn-based two-combatant duel engine: combatant state, armor-mitigated
//! damage, a fixed weapon catalog with a purchase economy, action dispatch,
//! a uniformly random opponent policy, and the win/loss state machine.

pub mod actions;
pub mod game;
pub mod player;
mod rng;
pub mod weapon;
