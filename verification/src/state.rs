//! The discrete state of a Defend session: score, shields, wave, timers,
//! boss health and the game status, with the rules that start a session
//! and the player's actions.
//!
//! Positions and velocities of the entities on the board are continuous
//! quantities and are kept beside this state by the caller; every rule
//! that reads them receives what it needs as plain facts.

use vstd::prelude::*;
use crate::types::{ChargeTier, GameStatus, Shot};

verus! {

/// Full strength of the player's and the planet's shields.
pub const MAX_SHIELD: u32 = 100;
/// Ticks that the helper drones stay active after a drone power-up.
pub const HELPER_DURATION: u32 = 450;
/// Ticks that the vertical beam lasts after a fully charged release.
pub const BEAM_DURATION: u32 = 35;
/// Boss health recorded before any boss has appeared.
pub const INITIAL_BOSS_MAX_HEALTH: u32 = 100;

/// The discrete part of the game state.
#[derive(Clone, Copy, PartialEq, Eq, Debug, Structural)]
pub struct GameCore {
    /// The current score.
    pub score: u32,
    /// Player's shield percentage (0 to 100).
    pub player_shield: u32,
    /// The planet's shield percentage (0 to 100).
    pub planet_shield: u32,
    /// The current wave level.
    pub wave: u32,
    /// Status of the game.
    pub status: GameStatus,
    /// Total ticks elapsed since the game started.
    pub ticks: u64,
    /// Whether the player is currently holding down the fire/charge key.
    pub is_charging: bool,
    /// Type of power-up: 0 = none, 1 = shield repair, 2 = drones/helpers.
    pub powerup_type: u8,
    /// Remaining duration (ticks) of active drone helpers.
    pub helper_time: u32,
    /// Remaining duration (ticks) of the vertical laser beam.
    pub beam_time: u32,
    /// Current health of the wave boss, if active.
    pub boss_health: Option<u32>,
    /// Maximum health of the active wave boss.
    pub boss_max_health: u32,
}

/// Health of the boss that arrives with the given wave.
pub open spec fn boss_health_for_wave(wave: int) -> int {
    150 + 10 * wave
}

impl GameCore {
    /// The state of a fresh, unstarted game.
    pub open spec fn initial() -> GameCore {
        GameCore {
            score: 0,
            player_shield: MAX_SHIELD,
            planet_shield: MAX_SHIELD,
            wave: 1,
            status: GameStatus::NotStarted,
            ticks: 0,
            is_charging: false,
            powerup_type: 0,
            helper_time: 0,
            beam_time: 0,
            boss_health: None,
            boss_max_health: INITIAL_BOSS_MAX_HEALTH,
        }
    }

    /// The state of a game that has just been started.
    pub open spec fn started() -> GameCore {
        GameCore { status: GameStatus::Playing, ..GameCore::initial() }
    }

    /// What holds of every state that the game's rules can reach.
    pub open spec fn wf(self) -> bool {
        &&& self.player_shield <= MAX_SHIELD
        &&& self.planet_shield <= MAX_SHIELD
        &&& self.status == GameStatus::Playing ==> self.player_shield > 0 && self.planet_shield > 0
        &&& self.wave >= 1
        &&& self.powerup_type <= 2
        &&& self.helper_time <= HELPER_DURATION
        &&& self.beam_time <= BEAM_DURATION
        &&& match self.boss_health {
            Some(h) => {
                &&& 0 < h <= self.boss_max_health
                &&& self.wave % 10 == 0
                &&& self.boss_max_health == boss_health_for_wave(self.wave as int)
            },
            None => true,
        }
    }

    /// Create a new, unstarted game state.
    pub fn new() -> (core: GameCore)
        ensures
            core == GameCore::initial(),
    {
        GameCore {
            score: 0,
            player_shield: MAX_SHIELD,
            planet_shield: MAX_SHIELD,
            wave: 1,
            status: GameStatus::NotStarted,
            ticks: 0,
            is_charging: false,
            powerup_type: 0,
            helper_time: 0,
            beam_time: 0,
            boss_health: None,
            boss_max_health: INITIAL_BOSS_MAX_HEALTH,
        }
    }

    /// Reset and start a new gameplay session.
    pub fn start(&mut self)
        ensures
            *final(self) == GameCore::started(),
    {
        *self = GameCore::new();
        self.status = GameStatus::Playing;
    }

    /// The state after the first step of a tick: the tick counter advances
    /// while the game is being played; otherwise nothing changes.
    pub open spec fn after_begin_tick(self) -> GameCore {
        if self.status == GameStatus::Playing {
            GameCore { ticks: (self.ticks + 1) as u64, ..self }
        } else {
            self
        }
    }

    /// First step of the per-tick update. Returns whether the tick runs
    /// at all: only a game that is being played is updated.
    pub fn begin_tick(&mut self) -> (running: bool)
        requires
            old(self).status == GameStatus::Playing ==> old(self).ticks < u64::MAX,
        ensures
            running == (old(self).status == GameStatus::Playing),
            *final(self) == old(self).after_begin_tick(),
    {
        if self.status != GameStatus::Playing {
            return false;
        }
        self.ticks = self.ticks + 1;
        true
    }

    /// Whether the player's steering input moves the ship.
    pub fn can_steer(&self) -> (steers: bool)
        ensures
            steers == (self.status == GameStatus::Playing),
    {
        self.status == GameStatus::Playing
    }

    /// The state after the fire action begins.
    pub open spec fn after_start_charging(self) -> GameCore {
        if self.status == GameStatus::Playing {
            GameCore { is_charging: true, ..self }
        } else {
            self
        }
    }

    /// Triggered when the fire action begins (charging weapon).
    pub fn start_charging(&mut self)
        ensures
            *final(self) == old(self).after_start_charging(),
    {
        if self.status == GameStatus::Playing {
            self.is_charging = true;
        }
    }

    /// The shot that a release at the given charge fires.
    pub open spec fn shot_for(tier: ChargeTier) -> Shot {
        match tier {
            ChargeTier::Full => Shot::Beam,
            ChargeTier::Medium => Shot::Piercing,
            ChargeTier::Low => Shot::Basic,
        }
    }

    /// The shot fired by releasing the fire button: none unless the game
    /// is being played and the weapon is charging.
    pub open spec fn release_shot(self, tier: ChargeTier) -> Option<Shot> {
        if self.status != GameStatus::Playing || !self.is_charging {
            None
        } else {
            Some(GameCore::shot_for(tier))
        }
    }

    /// The state after the fire button is released.
    pub open spec fn after_release(self, tier: ChargeTier) -> GameCore {
        if self.status != GameStatus::Playing || !self.is_charging {
            self
        } else if tier == ChargeTier::Full {
            GameCore { beam_time: BEAM_DURATION, is_charging: false, ..self }
        } else {
            GameCore { is_charging: false, ..self }
        }
    }

    /// Triggered when the fire action ends (releasing weapon). Returns the
    /// shot to fire, chosen by the charge accumulated so far.
    pub fn release_charge(&mut self, tier: ChargeTier) -> (shot: Option<Shot>)
        ensures
            shot == old(self).release_shot(tier),
            *final(self) == old(self).after_release(tier),
    {
        if self.status != GameStatus::Playing || !self.is_charging {
            return None;
        }
        let shot = match tier {
            ChargeTier::Full => {
                self.beam_time = BEAM_DURATION;
                Shot::Beam
            },
            ChargeTier::Medium => Shot::Piercing,
            ChargeTier::Low => Shot::Basic,
        };
        self.is_charging = false;
        Some(shot)
    }

    /// The shot fired by this tick's fire input.
    pub open spec fn fire_input_shot(self, fire_held: bool, tier: ChargeTier) -> Option<Shot> {
        if fire_held || !self.is_charging {
            None
        } else {
            self.release_shot(tier)
        }
    }

    /// The state after this tick's fire input.
    pub open spec fn after_fire_input(self, fire_held: bool, tier: ChargeTier) -> GameCore {
        if fire_held {
            self.after_start_charging()
        } else if self.is_charging {
            self.after_release(tier)
        } else {
            self
        }
    }

    /// Resolves the fire input of one tick: holding the button charges the
    /// weapon, letting go of a charging weapon releases it.
    pub fn apply_fire_input(&mut self, fire_held: bool, tier: ChargeTier) -> (shot: Option<Shot>)
        ensures
            shot == old(self).fire_input_shot(fire_held, tier),
            *final(self) == old(self).after_fire_input(fire_held, tier),
    {
        if fire_held {
            self.start_charging();
            None
        } else if self.is_charging {
            self.release_charge(tier)
        } else {
            None
        }
    }
}

/// Whether a tick that went from `before` to `after` ended the game.
pub fn newly_lost(before: GameStatus, after: GameStatus) -> (lost: bool)
    ensures
        lost == (before == GameStatus::Playing && after == GameStatus::Lost),
{
    before == GameStatus::Playing && after == GameStatus::Lost
}

} // verus!
