//! Phases 2-6 of a tick: helper drones, the vertical beam, power-ups,
//! weapon charging and the boss.

use vstd::prelude::*;
use crate::masks::{count_marked, kept_items, partition_by_marks, removed_items};
use crate::state::{GameCore, HELPER_DURATION, MAX_SHIELD};
use crate::types::PowerupEvent;

verus! {

/// Ticks of the game clock between two volleys of the helper drones.
pub const HELPER_FIRE_PERIOD: u64 = 25;
/// Points for each threat the beam disintegrates.
pub const BEAM_KILL_POINTS: u32 = 15;
/// Ticks between two power-up drops.
pub const POWERUP_PERIOD: u64 = 300;
/// Shield points restored by a shield power-up.
pub const SHIELD_REPAIR: u32 = 25;
/// Ticks between two boss bullets.
pub const BOSS_FIRE_PERIOD: u64 = 40;
/// Damage of a basic laser on the boss.
pub const LASER_BOSS_DAMAGE: u32 = 10;
/// Damage of a charged shot on the boss.
pub const CHARGED_BOSS_DAMAGE: u32 = 50;
/// Damage of the beam on the boss, per tick.
pub const BEAM_BOSS_DAMAGE: u32 = 2;
/// Points for defeating a boss.
pub const BOSS_POINTS: u32 = 500;

/// `a - b`, or 0 where `b` exceeds `a`.
pub open spec fn saturating_diff(a: int, b: int) -> int {
    if a > b {
        a - b
    } else {
        0
    }
}

/// What the boss suffers from the lasers that hit it: `charged[i]` tells
/// whether laser `i` is a charged shot, `hits[i]` whether it touches the boss.
pub open spec fn laser_damage(charged: Seq<bool>, hits: Seq<bool>, n: int) -> int
    decreases n,
{
    if n <= 0 {
        0
    } else {
        laser_damage(charged, hits, n - 1) + if hits[n - 1] {
            if charged[n - 1] {
                CHARGED_BOSS_DAMAGE as int
            } else {
                LASER_BOSS_DAMAGE as int
            }
        } else {
            0
        }
    }
}

/// Lasers never heal the boss.
pub proof fn lemma_laser_damage_nonnegative(charged: Seq<bool>, hits: Seq<bool>, n: int)
    ensures
        laser_damage(charged, hits, n) >= 0,
    decreases n,
{
    if n > 0 {
        lemma_laser_damage_nonnegative(charged, hits, n - 1);
    }
}

/// The outcome of the boss phase.
pub struct BossStep<L> {
    /// The boss fires a bullet this tick.
    pub fire_bullet: bool,
    /// The lasers that struck the boss; they are gone from the board.
    pub struck: Vec<L>,
    /// The boss was destroyed this tick.
    pub defeated: bool,
}

impl GameCore {
    /// The state after the helper-drone phase.
    pub open spec fn after_helper_weapons(self) -> GameCore {
        if self.helper_time > 0 {
            GameCore { helper_time: (self.helper_time - 1) as u32, ..self }
        } else {
            self
        }
    }

    /// Whether the helper drones fire a volley this tick.
    pub open spec fn helpers_fire(self, has_threats: bool) -> bool {
        &&& self.helper_time > 0
        &&& self.ticks % HELPER_FIRE_PERIOD == 0
        &&& has_threats
    }

    /// Phase 2: while the helper drones are active, count their time down;
    /// on every `HELPER_FIRE_PERIOD`-th tick of the game clock they fire twin
    /// tracking lasers at the closest threat, if there is any. Returns
    /// whether they fire.
    pub fn update_helper_weapons(&mut self, has_threats: bool) -> (fire: bool)
        ensures
            fire == old(self).helpers_fire(has_threats),
            *final(self) == old(self).after_helper_weapons(),
    {
        if self.helper_time == 0 {
            return false;
        }
        self.helper_time = self.helper_time - 1;
        self.ticks % HELPER_FIRE_PERIOD == 0 && has_threats
    }

    /// Whether the beam is widened by active helper drones.
    pub fn beam_is_wide(&self) -> (wide: bool)
        ensures
            wide == (self.helper_time > 0),
    {
        self.helper_time > 0
    }

    /// The state after the beam phase, when `kills` threats are in the beam.
    pub open spec fn after_beam(self, kills: nat) -> GameCore {
        if self.beam_time > 0 {
            GameCore {
                beam_time: (self.beam_time - 1) as u32,
                score: (self.score + BEAM_KILL_POINTS * kills) as u32,
                ..self
            }
        } else {
            self
        }
    }

    /// Phase 3: while the beam is active, count its time down and destroy
    /// every threat in its column (`in_beam`), scoring for each. Returns the
    /// destroyed threats and whether the beam emits a particle this tick.
    pub fn update_beam_power_shot<T>(&mut self, threats: &mut Vec<T>, in_beam: &Vec<bool>) -> (out:
        (Vec<T>, bool))
        requires
            in_beam.len() == old(threats).len(),
            old(self).beam_time > 0 ==> old(self).score + BEAM_KILL_POINTS * count_marked(
                in_beam@,
                in_beam.len() as int,
            ) <= u32::MAX,
        ensures
            *final(self) == old(self).after_beam(count_marked(in_beam@, in_beam.len() as int)),
            old(self).beam_time > 0 ==> {
                &&& final(threats)@ == kept_items(old(threats)@, in_beam@)
                &&& out.0@ == removed_items(old(threats)@, in_beam@)
                &&& out.1 == (old(self).ticks % 2 == 0)
            },
            old(self).beam_time == 0 ==> {
                &&& final(threats)@ == old(threats)@
                &&& out.0@ == Seq::<T>::empty()
                &&& !out.1
            },
    {
        if self.beam_time == 0 {
            return (Vec::new(), false);
        }
        self.beam_time = self.beam_time - 1;
        let kills = count_true(in_beam);
        self.score = self.score + BEAM_KILL_POINTS * (kills as u32);
        let mut taken: Vec<T> = Vec::new();
        std::mem::swap(&mut taken, threats);
        let (kept, destroyed) = partition_by_marks(taken, in_beam);
        *threats = kept;
        (destroyed, self.ticks % 2 == 0)
    }

    /// What the power-up phase reports.
    pub open spec fn powerup_event(self, off_screen: bool, collected: bool) -> PowerupEvent {
        if self.powerup_type > 0 {
            if off_screen {
                PowerupEvent::Missed
            } else if collected {
                if self.powerup_type == 1 {
                    PowerupEvent::ShieldRepaired
                } else {
                    PowerupEvent::DronesDeployed
                }
            } else {
                PowerupEvent::Falling
            }
        } else if self.ticks % POWERUP_PERIOD == 0 {
            PowerupEvent::Spawned
        } else {
            PowerupEvent::Idle
        }
    }

    /// The state after the power-up phase.
    pub open spec fn after_powerups(self, off_screen: bool, collected: bool, coin: bool) -> GameCore {
        match self.powerup_event(off_screen, collected) {
            PowerupEvent::Missed => GameCore { powerup_type: 0, ..self },
            PowerupEvent::ShieldRepaired => GameCore {
                powerup_type: 0,
                player_shield: if self.player_shield + SHIELD_REPAIR < MAX_SHIELD {
                    (self.player_shield + SHIELD_REPAIR) as u32
                } else {
                    MAX_SHIELD
                },
                ..self
            },
            PowerupEvent::DronesDeployed => GameCore {
                powerup_type: 0,
                helper_time: HELPER_DURATION,
                ..self
            },
            PowerupEvent::Spawned => GameCore {
                powerup_type: if coin {
                    1
                } else {
                    2
                },
                ..self
            },
            _ => self,
        }
    }

    /// Phase 4: the falling power-up (already moved by the caller) is lost
    /// when `off_screen`, or caught when `collected`: a shield power-up
    /// repairs the player's shield, a drone power-up deploys the helpers.
    /// With no power-up on the board, a new one appears every
    /// `POWERUP_PERIOD` ticks; `coin` picks its type.
    pub fn update_powerups(&mut self, off_screen: bool, collected: bool, coin: bool) -> (event:
        PowerupEvent)
        requires
            old(self).powerup_event(off_screen, collected) == PowerupEvent::ShieldRepaired
                ==> old(self).player_shield + SHIELD_REPAIR <= u32::MAX,
        ensures
            event == old(self).powerup_event(off_screen, collected),
            *final(self) == old(self).after_powerups(off_screen, collected, coin),
    {
        if self.powerup_type > 0 {
            if off_screen {
                self.powerup_type = 0;
                PowerupEvent::Missed
            } else if collected {
                let event = if self.powerup_type == 1 {
                    let repaired = self.player_shield + SHIELD_REPAIR;
                    self.player_shield = if repaired < MAX_SHIELD {
                        repaired
                    } else {
                        MAX_SHIELD
                    };
                    PowerupEvent::ShieldRepaired
                } else {
                    self.helper_time = HELPER_DURATION;
                    PowerupEvent::DronesDeployed
                };
                self.powerup_type = 0;
                event
            } else {
                PowerupEvent::Falling
            }
        } else if self.ticks % POWERUP_PERIOD == 0 {
            self.powerup_type = if coin {
                1
            } else {
                2
            };
            PowerupEvent::Spawned
        } else {
            PowerupEvent::Idle
        }
    }

    /// Phase 5: whether the charging weapon emits a spark particle this tick.
    pub fn charging_spark(&self) -> (spark: bool)
        ensures
            spark == (self.is_charging && self.ticks % 2 == 0),
    {
        self.is_charging && self.ticks % 2 == 0
    }

    /// Damage the boss takes this tick.
    pub open spec fn boss_damage(self, charged: Seq<bool>, hits: Seq<bool>, beam_on_boss: bool) -> int {
        laser_damage(charged, hits, hits.len() as int) + if self.beam_time > 0 && beam_on_boss {
            BEAM_BOSS_DAMAGE as int
        } else {
            0
        }
    }

    /// Whether the boss is destroyed this tick.
    pub open spec fn boss_defeated(self, charged: Seq<bool>, hits: Seq<bool>, beam_on_boss: bool) -> bool {
        match self.boss_health {
            Some(h) => self.boss_damage(charged, hits, beam_on_boss) >= h,
            None => false,
        }
    }

    /// The state after the boss phase.
    pub open spec fn after_boss(self, charged: Seq<bool>, hits: Seq<bool>, beam_on_boss: bool) -> GameCore {
        match self.boss_health {
            Some(h) => if self.boss_defeated(charged, hits, beam_on_boss) {
                GameCore {
                    boss_health: None,
                    score: (self.score + BOSS_POINTS) as u32,
                    wave: (self.wave + 1) as u32,
                    ..self
                }
            } else {
                GameCore {
                    boss_health: Some(
                        saturating_diff(h as int, self.boss_damage(charged, hits, beam_on_boss)) as u32,
                    ),
                    ..self
                }
            },
            None => self,
        }
    }

    /// The boss's health once this tick's damage is taken, if a boss is on
    /// the board: its health less the damage, or 0 if the damage is larger.
    pub fn boss_health_after(&self, charged: &Vec<bool>, hits: &Vec<bool>, beam_on_boss: bool) -> (after:
        Option<u32>)
        requires
            charged.len() == hits.len(),
        ensures
            after == match self.boss_health {
                Some(h) => Some(
                    saturating_diff(h as int, self.boss_damage(charged@, hits@, beam_on_boss)) as u32,
                ),
                None => None,
            },
            self.boss_defeated(charged@, hits@, beam_on_boss) <==> after == Some(0u32),
    {
        let mut health = match self.boss_health {
            Some(h) => h,
            None => {
                return None;
            },
        };
        let n = hits.len();
        let mut i: usize = 0;
        while i < n
            invariant
                n == hits.len(),
                n == charged.len(),
                i <= n,
                self.boss_health == Some(self.boss_health->0),
                health as int == saturating_diff(
                    self.boss_health->0 as int,
                    laser_damage(charged@, hits@, i as int),
                ),
            decreases n - i,
        {
            if hits[i] {
                let damage = if charged[i] {
                    CHARGED_BOSS_DAMAGE
                } else {
                    LASER_BOSS_DAMAGE
                };
                health = health.saturating_sub(damage);
            }
            i = i + 1;
        }
        if self.beam_time > 0 && beam_on_boss {
            health = health.saturating_sub(BEAM_BOSS_DAMAGE);
        }
        proof {
            lemma_laser_damage_nonnegative(charged@, hits@, n as int);
        }
        Some(health)
    }

    /// Phase 6: the boss (already moved by the caller) fires a bullet every
    /// `BOSS_FIRE_PERIOD` ticks and takes damage from the lasers that hit it
    /// (`hits`; `charged` tells which lasers are charged shots), which are
    /// used up, and from the beam when it covers the boss (`beam_on_boss`).
    /// A boss out of health is destroyed: the score rises and the next wave
    /// begins.
    pub fn update_boss<L>(
        &mut self,
        lasers: &mut Vec<L>,
        charged: &Vec<bool>,
        hits: &Vec<bool>,
        beam_on_boss: bool,
    ) -> (step: BossStep<L>)
        requires
            charged.len() == old(lasers).len(),
            hits.len() == old(lasers).len(),
            old(self).boss_defeated(charged@, hits@, beam_on_boss) ==> {
                &&& old(self).score + BOSS_POINTS <= u32::MAX
                &&& old(self).wave < u32::MAX
            },
        ensures
            *final(self) == old(self).after_boss(charged@, hits@, beam_on_boss),
            step.defeated == old(self).boss_defeated(charged@, hits@, beam_on_boss),
            old(self).boss_health is Some ==> {
                &&& step.fire_bullet == (old(self).ticks % BOSS_FIRE_PERIOD == 0)
                &&& final(lasers)@ == kept_items(old(lasers)@, hits@)
                &&& step.struck@ == removed_items(old(lasers)@, hits@)
            },
            old(self).boss_health is None ==> {
                &&& !step.fire_bullet
                &&& final(lasers)@ == old(lasers)@
                &&& step.struck@ == Seq::<L>::empty()
            },
    {
        let health = match self.boss_health_after(charged, hits, beam_on_boss) {
            Some(h) => h,
            None => {
                return BossStep { fire_bullet: false, struck: Vec::new(), defeated: false };
            },
        };
        let fire_bullet = self.ticks % BOSS_FIRE_PERIOD == 0;
        let defeated = health == 0;
        if defeated {
            self.boss_health = None;
            self.score = self.score + BOSS_POINTS;
            self.wave = self.wave + 1;
        } else {
            self.boss_health = Some(health);
        }
        let mut taken: Vec<L> = Vec::new();
        std::mem::swap(&mut taken, lasers);
        let (kept, struck) = partition_by_marks(taken, hits);
        *lasers = kept;
        BossStep { fire_bullet, struck, defeated }
    }
}

/// Number of marks that are set.
pub fn count_true(marks: &Vec<bool>) -> (n: usize)
    ensures
        n == count_marked(marks@, marks.len() as int),
{
    let mut n: usize = 0;
    let mut i: usize = 0;
    while i < marks.len()
        invariant
            i <= marks.len(),
            n == count_marked(marks@, i as int),
            n <= i,
        decreases marks.len() - i,
    {
        if marks[i] {
            n = n + 1;
        }
        i = i + 1;
    }
    n
}

} // verus!
