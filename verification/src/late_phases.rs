//! Phases 7, 8 and 11 of a tick: threat spawning, wave progression and
//! the collisions of threats with the player and the bottom edge.

use vstd::prelude::*;
use crate::masks::{kept_items, partition_by_marks, removed_items};
use crate::state::{boss_health_for_wave, GameCore};
use crate::types::{GameStatus, ThreatContact, ThreatFate, ThreatType};

verus! {

/// Ticks between two scout bullets.
pub const SCOUT_FIRE_PERIOD: u64 = 75;
/// Ticks between two waves.
pub const WAVE_PERIOD: u64 = 600;
/// Damage of an enemy bullet on the player's shield.
pub const BULLET_DAMAGE: u32 = 15;
/// Damage of an asteroid or scout on the player's shield.
pub const RAM_DAMAGE: u32 = 20;
/// Damage of an asteroid on the planet's shield.
pub const IMPACT_DAMAGE: u32 = 10;

/// The wave number as the 32-bit signed integer that the spawn rate is
/// computed in.
pub open spec fn wave_as_i32(wave: u32) -> int {
    if wave < 0x8000_0000 {
        wave as int
    } else {
        wave as int - 0x1_0000_0000
    }
}

/// Whether the spawn interval of this wave is computed without leaving
/// the range of a 32-bit signed integer.
pub open spec fn spawn_interval_in_range(wave: u32) -> bool {
    let w = wave_as_i32(wave);
    &&& -0x8000_0000 <= 2 * w < 0x8000_0000
    &&& 35 - 2 * w < 0x8000_0000
}

/// Ticks between two threat spawns in the given wave: spawns speed up as
/// the waves go on, down to one every 10 ticks.
pub open spec fn spawn_interval(wave: u32) -> int {
    let raw = 35 - 2 * wave_as_i32(wave);
    if raw > 10 {
        raw
    } else {
        10
    }
}

/// Ticks between two threat spawns in the given wave.
pub fn compute_spawn_interval(wave: u32) -> (interval: u64)
    requires
        spawn_interval_in_range(wave),
    ensures
        interval == spawn_interval(wave),
{
    let w: i64 = if wave < 0x8000_0000 {
        wave as i64
    } else {
        wave as i64 - 0x1_0000_0000
    };
    let raw: i64 = 35 - 2 * w;
    if raw > 10 {
        raw as u64
    } else {
        10
    }
}

/// Whether the spawn interval of this wave can be computed.
pub fn spawn_interval_computable(wave: u32) -> (ok: bool)
    ensures
        ok == spawn_interval_in_range(wave),
{
    let w: i64 = if wave < 0x8000_0000 {
        wave as i64
    } else {
        wave as i64 - 0x1_0000_0000
    };
    -0x8000_0000 <= 2 * w && 2 * w < 0x8000_0000 && 35 - 2 * w < 0x8000_0000
}

/// The shield damage a threat does when it hits the player.
pub open spec fn strike_damage(kind: ThreatType) -> u32 {
    if kind == ThreatType::Bullet {
        BULLET_DAMAGE
    } else {
        RAM_DAMAGE
    }
}

/// What becomes of a threat with the given contacts.
pub open spec fn fate_of(contact: ThreatContact) -> ThreatFate {
    if contact.at_player {
        ThreatFate::StrikesPlayer
    } else if contact.past_bottom {
        match contact.kind {
            ThreatType::Scout => ThreatFate::Wraps,
            ThreatType::Asteroid => ThreatFate::ImpactsPlanet,
            ThreatType::Bullet => ThreatFate::Leaves,
        }
    } else {
        ThreatFate::Flying
    }
}

/// The state after one threat's contact is resolved.
pub open spec fn apply_contact(core: GameCore, contact: ThreatContact) -> GameCore {
    match fate_of(contact) {
        ThreatFate::StrikesPlayer => {
            let shield = (if core.player_shield > strike_damage(contact.kind) {
                core.player_shield - strike_damage(contact.kind)
            } else {
                0
            }) as u32;
            GameCore {
                player_shield: shield,
                status: if shield == 0 {
                    GameStatus::Lost
                } else {
                    core.status
                },
                ..core
            }
        },
        ThreatFate::ImpactsPlanet => {
            let shield = (if core.planet_shield > IMPACT_DAMAGE {
                core.planet_shield - IMPACT_DAMAGE
            } else {
                0
            }) as u32;
            GameCore {
                planet_shield: shield,
                status: if shield == 0 {
                    GameStatus::Lost
                } else {
                    core.status
                },
                ..core
            }
        },
        _ => core,
    }
}

/// The state after the contacts of all threats are resolved, in order.
pub open spec fn apply_contacts(core: GameCore, contacts: Seq<ThreatContact>) -> GameCore
    decreases contacts.len(),
{
    if contacts.len() == 0 {
        core
    } else {
        apply_contact(apply_contacts(core, contacts.drop_last()), contacts.last())
    }
}

/// Which threats leave the board, given their fates.
pub open spec fn leaving_marks(fates: Seq<ThreatFate>) -> Seq<bool> {
    Seq::new(fates.len(), |i: int| fates[i].spec_leaves_board())
}

/// Phase 11, removal: takes off the board every threat whose fate makes it
/// leave, keeping the others in order. Returns the threats that left, in
/// order.
pub fn retire_threats<T>(threats: &mut Vec<T>, fates: &Vec<ThreatFate>) -> (gone: Vec<T>)
    requires
        fates.len() == old(threats).len(),
    ensures
        final(threats)@ == kept_items(old(threats)@, leaving_marks(fates@)),
        gone@ == removed_items(old(threats)@, leaving_marks(fates@)),
{
    let mut marks: Vec<bool> = Vec::new();
    let mut i: usize = 0;
    while i < fates.len()
        invariant
            i <= fates.len(),
            marks.len() == i,
            forall|j: int| 0 <= j < i ==> marks@[j] == fates@[j].spec_leaves_board(),
        decreases fates.len() - i,
    {
        marks.push(fates[i].leaves_board());
        i = i + 1;
    }
    assert(marks@ == leaving_marks(fates@));
    let mut taken: Vec<T> = Vec::new();
    std::mem::swap(&mut taken, threats);
    let (kept, gone) = partition_by_marks(taken, &marks);
    *threats = kept;
    gone
}

impl GameCore {
    /// The threat that spawns this tick, if any; `coin` picks a scout over
    /// an asteroid.
    pub open spec fn spawned_threat(self, coin: bool) -> Option<ThreatType> {
        if self.boss_health is None && self.ticks % (spawn_interval(self.wave) as u64) == 0 {
            Some(
                if coin {
                    ThreatType::Scout
                } else {
                    ThreatType::Asteroid
                },
            )
        } else {
            None
        }
    }

    /// Phase 7, standard spawning: while no boss is present, a threat
    /// spawns every `spawn_interval(wave)` ticks. Returns its kind.
    pub fn update_spawning(&self, coin: bool) -> (spawn: Option<ThreatType>)
        requires
            self.boss_health is None ==> spawn_interval_in_range(self.wave),
        ensures
            spawn == self.spawned_threat(coin),
    {
        if self.boss_health.is_some() {
            return None;
        }
        let interval = compute_spawn_interval(self.wave);
        if self.ticks % interval == 0 {
            Some(
                if coin {
                    ThreatType::Scout
                } else {
                    ThreatType::Asteroid
                },
            )
        } else {
            None
        }
    }

    /// Phase 7, scout fire: while no boss is present, every
    /// `SCOUT_FIRE_PERIOD` ticks the first scout inside the firing band
    /// (`in_band`) shoots a bullet. Returns that scout's index.
    pub fn scout_shooter(&self, kinds: &Vec<ThreatType>, in_band: &Vec<bool>) -> (shooter: Option<
        usize,
    >)
        requires
            kinds.len() == in_band.len(),
        ensures
            !(self.boss_health is None && self.ticks % SCOUT_FIRE_PERIOD == 0) ==> shooter is None,
            self.boss_health is None && self.ticks % SCOUT_FIRE_PERIOD == 0 ==> match shooter {
                Some(i) => {
                    &&& i < kinds.len()
                    &&& kinds@[i as int] == ThreatType::Scout
                    &&& in_band@[i as int]
                    &&& forall|j: int|
                        0 <= j < i ==> !(kinds@[j] == ThreatType::Scout && in_band@[j])
                },
                None => forall|j: int|
                    0 <= j < kinds.len() ==> !(kinds@[j] == ThreatType::Scout && in_band@[j]),
            },
    {
        if self.boss_health.is_some() || self.ticks % SCOUT_FIRE_PERIOD != 0 {
            return None;
        }
        let mut i: usize = 0;
        while i < kinds.len()
            invariant
                kinds.len() == in_band.len(),
                self.boss_health is None && self.ticks % SCOUT_FIRE_PERIOD == 0,
                i <= kinds.len(),
                forall|j: int| 0 <= j < i ==> !(kinds@[j] == ThreatType::Scout && in_band@[j]),
            decreases kinds.len() - i,
        {
            if kinds[i] == ThreatType::Scout && in_band[i] {
                return Some(i);
            }
            i = i + 1;
        }
        None
    }

    /// Whether a new wave begins this tick.
    pub open spec fn wave_advances(self) -> bool {
        self.ticks % WAVE_PERIOD == 0 && self.boss_health is None
    }

    /// Whether a boss arrives this tick.
    pub open spec fn boss_arrives(self) -> bool {
        self.wave_advances() && (self.wave + 1) % 10 == 0
    }

    /// Whether a new wave begins this tick.
    pub fn next_wave_due(&self) -> (due: bool)
        ensures
            due == self.wave_advances(),
    {
        self.ticks % WAVE_PERIOD == 0 && self.boss_health.is_none()
    }

    /// Whether a boss arrives this tick.
    pub fn boss_due(&self) -> (due: bool)
        ensures
            due == self.boss_arrives(),
    {
        self.next_wave_due() && self.wave < u32::MAX && (self.wave + 1) % 10 == 0
    }

    /// The state after the wave phase.
    pub open spec fn after_wave_progression(self) -> GameCore {
        if self.boss_arrives() {
            let hp = boss_health_for_wave(self.wave + 1) as u32;
            GameCore {
                wave: (self.wave + 1) as u32,
                boss_health: Some(hp),
                boss_max_health: hp,
                ..self
            }
        } else if self.wave_advances() {
            GameCore { wave: (self.wave + 1) as u32, ..self }
        } else {
            self
        }
    }

    /// Phase 8: every `WAVE_PERIOD` ticks without a boss, the next wave
    /// begins; every 10th wave brings a boss and clears the board of
    /// threats. Returns whether a boss arrived.
    pub fn update_wave_progression<T>(&mut self, threats: &mut Vec<T>) -> (boss: bool)
        requires
            old(self).wave_advances() ==> old(self).wave < u32::MAX,
            old(self).boss_arrives() ==> boss_health_for_wave(old(self).wave + 1) <= u32::MAX,
        ensures
            boss == old(self).boss_arrives(),
            *final(self) == old(self).after_wave_progression(),
            boss ==> final(threats)@ == Seq::<T>::empty(),
            !boss ==> final(threats)@ == old(threats)@,
    {
        if self.ticks % WAVE_PERIOD != 0 || self.boss_health.is_some() {
            return false;
        }
        self.wave = self.wave + 1;
        if self.wave % 10 == 0 {
            let hp = 150 + self.wave * 10;
            self.boss_health = Some(hp);
            self.boss_max_health = hp;
            threats.clear();
            true
        } else {
            false
        }
    }

    /// Phase 11: threats that overlap the player damage the player's
    /// shield; asteroids past the bottom damage the planet's shield; scouts
    /// past the bottom wrap around to the top. The game is lost when a
    /// shield is depleted. Returns the fate of each threat.
    pub fn handle_threat_collisions(&mut self, contacts: &Vec<ThreatContact>) -> (fates: Vec<
        ThreatFate,
    >)
        ensures
            fates.len() == contacts.len(),
            forall|i: int| 0 <= i < contacts.len() ==> fates@[i] == fate_of(#[trigger] contacts@[i]),
            *final(self) == apply_contacts(*old(self), contacts@),
    {
        let ghost start = *self;
        let mut fates: Vec<ThreatFate> = Vec::new();
        let mut i: usize = 0;
        while i < contacts.len()
            invariant
                i <= contacts.len(),
                fates.len() == i,
                forall|j: int| 0 <= j < i ==> fates@[j] == fate_of(#[trigger] contacts@[j]),
                *self == apply_contacts(start, contacts@.take(i as int)),
            decreases contacts.len() - i,
        {
            let contact = contacts[i];
            assert(contacts@.take(i + 1).drop_last() == contacts@.take(i as int));
            let fate = if contact.at_player {
                let damage = if contact.kind == ThreatType::Bullet {
                    BULLET_DAMAGE
                } else {
                    RAM_DAMAGE
                };
                self.player_shield = self.player_shield.saturating_sub(damage);
                if self.player_shield == 0 {
                    self.status = GameStatus::Lost;
                }
                ThreatFate::StrikesPlayer
            } else if contact.past_bottom {
                match contact.kind {
                    ThreatType::Scout => ThreatFate::Wraps,
                    ThreatType::Asteroid => {
                        self.planet_shield = self.planet_shield.saturating_sub(IMPACT_DAMAGE);
                        if self.planet_shield == 0 {
                            self.status = GameStatus::Lost;
                        }
                        ThreatFate::ImpactsPlanet
                    },
                    ThreatType::Bullet => ThreatFate::Leaves,
                }
            } else {
                ThreatFate::Flying
            };
            fates.push(fate);
            i = i + 1;
        }
        assert(contacts@.take(contacts.len() as int) == contacts@);
        fates
    }
}

} // verus!
