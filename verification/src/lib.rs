//! Verified rules of the Defend arcade game.
//!
//! A tick of the game runs thirteen phases in order. The phases that move
//! entities across the board work on continuous coordinates and are run by
//! the caller; every decision that the rules take on the discrete state of
//! the game (score, shields, waves, timers, the boss, which entities leave
//! the board) is made here, from plain facts that the caller measures on
//! the board. The phases, in order, with where each decision stands:
//!
//! 1. stars scroll (caller only);
//! 2. helper drones: [`GameCore::update_helper_weapons`];
//! 3. vertical beam: [`GameCore::update_beam_power_shot`];
//! 4. power-ups: [`GameCore::update_powerups`];
//! 5. weapon charging: [`GameCore::charging_spark`];
//! 6. boss: [`GameCore::update_boss`];
//! 7. spawning: [`GameCore::update_spawning`], [`GameCore::scout_shooter`];
//! 8. waves: [`GameCore::update_wave_progression`];
//! 9. lasers move, leaving ones are dropped with [`masks::retain_unmarked`];
//! 10. threats move (caller only);
//! 11. threats against the player and the planet: [`GameCore::handle_threat_collisions`],
//!     then [`late_phases::retire_threats`];
//! 12. lasers against threats: [`GameCore::handle_collisions`];
//! 13. particles fade, spent ones are dropped with [`masks::retain_unmarked`].
//!
//! A tick begins with [`GameCore::begin_tick`], which stops it unless the
//! game is being played. [`phase_laws`] states what each phase does, with
//! the game's numbers written out; [`laws`] states what holds across phases.

pub mod collision;
pub mod early_phases;
pub mod late_phases;
pub mod laws;
pub mod masks;
pub mod phase_laws;
pub mod state;
pub mod types;

pub use early_phases::BossStep;
pub use state::{newly_lost, GameCore};
pub use types::{
    fire_button, ChargeTier, FireButton, GameStatus, PowerupEvent, Shot, ThreatContact, ThreatFate,
    ThreatType,
};
