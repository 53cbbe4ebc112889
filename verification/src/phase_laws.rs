//! What each phase of a tick does, stated as relations between the state
//! before and after the phase, with the game's numbers written out.

use vstd::prelude::*;
use crate::collision::{shot_threats, spent_lasers};
use crate::early_phases::laser_damage;
use crate::late_phases::{apply_contact, apply_contacts, spawn_interval};
use crate::masks::{count_marked, kept_items, removed_items};
use crate::state::GameCore;
use crate::types::{ChargeTier, GameStatus, PowerupEvent, Shot, ThreatContact, ThreatType};

verus! {

/// Every threat shot down by a laser is worth 10 points and nothing else
/// changes; two laser phases score as much as one with all their kills.
pub proof fn law_laser_kill_scores_ten(c: GameCore, kills: nat, more: nat)
    requires
        c.score + 10 * (kills + more) <= u32::MAX,
    ensures
        c.after_collisions(kills).score == c.score + 10 * kills,
        c.after_collisions(kills) == (GameCore { score: c.after_collisions(kills).score, ..c }),
        c.after_collisions(kills).after_collisions(more) == c.after_collisions(kills + more),
{
}

/// A threat is shot down exactly when some laser touches it; a laser is used
/// up exactly when it is a standard laser that touches some threat.
pub proof fn law_shot_and_spent_marks(
    charged: Seq<bool>,
    contact: Seq<Vec<bool>>,
    n_threats: int,
    l: int,
    t: int,
)
    requires
        0 <= t < n_threats,
        0 <= l < contact.len(),
        charged.len() == contact.len(),
    ensures
        shot_threats(contact, n_threats).len() == n_threats,
        shot_threats(contact, n_threats)[t] <==> exists|j: int|
            0 <= j < contact.len() && #[trigger] contact[j]@[t],
        contact[l]@[t] ==> shot_threats(contact, n_threats)[t],
        spent_lasers(charged, contact, n_threats)[l] <==> (!charged[l] && exists|k: int|
            0 <= k < n_threats && #[trigger] contact[l]@[k]),
        charged[l] ==> !spent_lasers(charged, contact, n_threats)[l],
{
}

/// While the beam is active, it counts down by one tick and scores 15 points
/// for each threat in its column, however long it has left; an idle beam
/// changes nothing.
pub proof fn law_beam_scores_fifteen(c: GameCore, kills: nat)
    requires
        c.score + 15 * kills <= u32::MAX,
    ensures
        c.beam_time > 0 ==> {
            &&& c.after_beam(kills).score == c.score + 15 * kills
            &&& c.after_beam(kills).beam_time == c.beam_time - 1
            &&& c.after_beam(kills) == (GameCore {
                score: c.after_beam(kills).score,
                beam_time: c.after_beam(kills).beam_time,
                ..c
            })
        },
        c.beam_time == 0 ==> c.after_beam(kills) == c,
{
}

/// Boss damage adds up: 10 for each standard laser that hits, 50 for each
/// charged shot that hits.
pub proof fn law_laser_damage_adds_up(charged: Seq<bool>, hits: Seq<bool>, n: int)
    requires
        0 <= n <= hits.len(),
        hits.len() == charged.len(),
    ensures
        laser_damage(charged, hits, n) == 10 * count_marked(
            Seq::new(hits.len(), |i: int| hits[i] && !charged[i]),
            n,
        ) + 50 * count_marked(Seq::new(hits.len(), |i: int| hits[i] && charged[i]), n),
    decreases n,
{
    if n > 0 {
        law_laser_damage_adds_up(charged, hits, n - 1);
    }
}

/// A boss falls exactly when this tick's damage (the lasers' damage, plus 2
/// for an active beam over it) reaches its health. Its fall scores 500
/// points, starts the next wave and leaves the board without a boss; a boss
/// that survives keeps its health less the damage, and the score and wave
/// stay. Without a boss the phase changes nothing.
pub proof fn law_boss_fall_scores_five_hundred(
    c: GameCore,
    charged: Seq<bool>,
    hits: Seq<bool>,
    beam_on_boss: bool,
)
    requires
        c.score + 500 <= u32::MAX,
        c.wave < u32::MAX,
    ensures
        ({
            let d = c.after_boss(charged, hits, beam_on_boss);
            let damage = laser_damage(charged, hits, hits.len() as int) + if c.beam_time > 0
                && beam_on_boss {
                2int
            } else {
                0int
            };
            match c.boss_health {
                None => d == c,
                Some(h) => {
                    &&& c.boss_defeated(charged, hits, beam_on_boss) <==> damage >= h
                    &&& damage >= h ==> {
                        &&& d.score == c.score + 500
                        &&& d.wave == c.wave + 1
                        &&& d.boss_health is None
                        &&& d == (GameCore {
                            score: d.score,
                            wave: d.wave,
                            boss_health: None,
                            ..c
                        })
                    }
                    &&& damage < h ==> {
                        &&& damage >= 0
                        &&& d.boss_health == Some((h - damage) as u32)
                        &&& d == (GameCore { boss_health: d.boss_health, ..c })
                    }
                },
            }
        }),
{
    crate::early_phases::lemma_laser_damage_nonnegative(charged, hits, hits.len() as int);
}

/// Threats spawn every 35 - 2 * wave ticks, but never more often than every
/// 10 ticks, while no boss is on the board: with no boss, a threat spawns
/// exactly on the ticks that are multiples of the current wave's interval,
/// a scout when the coin says so and an asteroid otherwise.
pub proof fn law_spawns_follow_the_wave(c: GameCore, coin: bool)
    requires
        c.wave < 0x4000_0000,
    ensures
        spawn_interval(c.wave) == if c.wave >= 13 {
            10
        } else {
            35 - 2 * c.wave
        },
        c.boss_health is None ==> (c.spawned_threat(coin) is Some <==> c.ticks % (if c.wave >= 13 {
            10
        } else {
            35 - 2 * c.wave
        }) as u64 == 0),
        c.boss_health is Some ==> c.spawned_threat(coin) is None,
        c.spawned_threat(coin) is Some ==> c.spawned_threat(coin) == Some(
            if coin {
                ThreatType::Scout
            } else {
                ThreatType::Asteroid
            },
        ),
{
}

/// With no power-up on the board, one appears exactly on the ticks that are
/// multiples of 300: a shield power-up when the coin says so, a drone
/// power-up otherwise. A falling power-up is lost off the bottom; once
/// caught, a shield power-up repairs 25 points up to 100 and a drone
/// power-up deploys the drones for 450 ticks.
pub proof fn law_powerup_cycle(c: GameCore, off_screen: bool, collected: bool, coin: bool)
    requires
        c.powerup_type <= 2,
        c.player_shield + 25 <= u32::MAX,
    ensures
        ({
            let e = c.powerup_event(off_screen, collected);
            let d = c.after_powerups(off_screen, collected, coin);
            &&& c.powerup_type == 0 ==> (e == PowerupEvent::Spawned <==> c.ticks % 300 == 0)
            &&& c.powerup_type == 0 && c.ticks % 300 == 0 ==> d == (GameCore {
                powerup_type: if coin {
                    1u8
                } else {
                    2u8
                },
                ..c
            })
            &&& c.powerup_type == 0 && c.ticks % 300 != 0 ==> e == PowerupEvent::Idle && d == c
            &&& c.powerup_type > 0 && off_screen ==> e == PowerupEvent::Missed && d == (GameCore {
                powerup_type: 0,
                ..c
            })
            &&& c.powerup_type > 0 && !off_screen && !collected ==> e == PowerupEvent::Falling && d
                == c
            &&& c.powerup_type == 1 && !off_screen && collected ==> {
                &&& e == PowerupEvent::ShieldRepaired
                &&& d.player_shield == if c.player_shield + 25 < 100 {
                    c.player_shield + 25
                } else {
                    100
                }
                &&& d == (GameCore { player_shield: d.player_shield, powerup_type: 0, ..c })
            }
            &&& c.powerup_type == 2 && !off_screen && collected ==> {
                &&& e == PowerupEvent::DronesDeployed
                &&& d == (GameCore { helper_time: 450, powerup_type: 0, ..c })
            }
        }),
{
}

/// Active drones count down one tick per tick and fire on every 25th tick of
/// the game clock when threats are on the board.
pub proof fn law_drones_fire_every_25_ticks(c: GameCore, has_threats: bool)
    ensures
        c.helpers_fire(has_threats) <==> (c.helper_time > 0 && c.ticks % 25 == 0 && has_threats),
        c.helper_time > 0 ==> c.after_helper_weapons() == (GameCore {
            helper_time: (c.helper_time - 1) as u32,
            ..c
        }),
        c.helper_time == 0 ==> c.after_helper_weapons() == c,
{
}

/// Every 600 ticks without a boss the wave number goes up by one; a wave
/// that is a multiple of 10 brings a boss with 150 + 10 * wave health.
/// Otherwise nothing changes.
pub proof fn law_waves_every_600_ticks(c: GameCore)
    requires
        c.wave < u32::MAX,
        150 + 10 * (c.wave + 1) <= u32::MAX,
    ensures
        ({
            let d = c.after_wave_progression();
            &&& c.ticks % 600 == 0 && c.boss_health is None ==> {
                &&& d.wave == c.wave + 1
                &&& (c.wave + 1) % 10 == 0 ==> d == (GameCore {
                    wave: d.wave,
                    boss_health: Some((150 + 10 * (c.wave + 1)) as u32),
                    boss_max_health: (150 + 10 * (c.wave + 1)) as u32,
                    ..c
                })
                &&& (c.wave + 1) % 10 != 0 ==> d == (GameCore { wave: d.wave, ..c })
            }
            &&& !(c.ticks % 600 == 0 && c.boss_health is None) ==> d == c
        }),
{
}

/// A bullet that hits the player takes 15 shield points, any other threat
/// 20, down to 0; an asteroid reaching the bottom takes 10 planet shield
/// points, down to 0; a depleted shield loses the game. Scouts and bullets
/// reaching the bottom, and threats still in flight, change nothing.
pub proof fn law_contact_damage(c: GameCore, t: ThreatContact)
    ensures
        ({
            let d = apply_contact(c, t);
            let hit = if t.kind == ThreatType::Bullet {
                15int
            } else {
                20int
            };
            &&& t.at_player ==> {
                &&& d.player_shield == if c.player_shield > hit {
                    c.player_shield - hit
                } else {
                    0
                }
                &&& d.status == if d.player_shield == 0 {
                    GameStatus::Lost
                } else {
                    c.status
                }
                &&& d == (GameCore { player_shield: d.player_shield, status: d.status, ..c })
            }
            &&& !t.at_player && t.past_bottom && t.kind == ThreatType::Asteroid ==> {
                &&& d.planet_shield == if c.planet_shield > 10 {
                    c.planet_shield - 10
                } else {
                    0
                }
                &&& d.status == if d.planet_shield == 0 {
                    GameStatus::Lost
                } else {
                    c.status
                }
                &&& d == (GameCore { planet_shield: d.planet_shield, status: d.status, ..c })
            }
            &&& !t.at_player && !(t.past_bottom && t.kind == ThreatType::Asteroid) ==> d == c
        }),
{
}

/// The threats' contacts are resolved one after the other, in the order of
/// the threats: no contacts change nothing, and one more threat at the end
/// adds its own contact's effect to what the others did.
pub proof fn law_contacts_in_order(c: GameCore, contacts: Seq<ThreatContact>, t: ThreatContact)
    ensures
        apply_contacts(c, Seq::empty()) == c,
        apply_contacts(c, contacts.push(t)) == apply_contact(apply_contacts(c, contacts), t),
{
    assert(contacts.push(t).drop_last() == contacts);
}

/// Releasing a charging weapon in play fires a basic laser below one unit of
/// charge, a piercing shot from one unit, and the 35-tick beam at the full
/// two units; the weapon stops charging.
pub proof fn law_release_by_charge(c: GameCore, tier: ChargeTier)
    requires
        c.status == GameStatus::Playing,
        c.is_charging,
    ensures
        c.release_shot(tier) == Some(
            match tier {
                ChargeTier::Low => Shot::Basic,
                ChargeTier::Medium => Shot::Piercing,
                ChargeTier::Full => Shot::Beam,
            },
        ),
        tier == ChargeTier::Full ==> c.after_release(tier) == (GameCore {
            beam_time: 35,
            is_charging: false,
            ..c
        }),
        tier != ChargeTier::Full ==> c.after_release(tier) == (GameCore { is_charging: false, ..c }),
{
}

/// A running tick advances the clock by exactly one.
pub proof fn law_tick_advances_clock(c: GameCore)
    requires
        c.ticks < u64::MAX,
    ensures
        c.status == GameStatus::Playing ==> c.after_begin_tick() == (GameCore {
            ticks: (c.ticks + 1) as u64,
            ..c
        }),
        c.status != GameStatus::Playing ==> c.after_begin_tick() == c,
{
}

/// The game's numbers: shields of 100, drones for 450 ticks firing every 25
/// ticks, a 35-tick beam scoring 15 per threat, a power-up every 300 ticks
/// repairing 25 points, a boss bullet every 40 ticks, boss damage of 10 per
/// laser, 50 per charged shot and 2 per beam tick, 500 points per boss, 10
/// points per laser kill, a scout bullet every 75 ticks, a wave every 600
/// ticks, player damage of 15 per bullet and 20 per other threat, planet
/// damage of 10 per asteroid, and a first boss maximum of 100.
pub proof fn law_game_numbers()
    ensures
        crate::state::MAX_SHIELD == 100,
        crate::state::HELPER_DURATION == 450,
        crate::state::BEAM_DURATION == 35,
        crate::state::INITIAL_BOSS_MAX_HEALTH == 100,
        crate::early_phases::HELPER_FIRE_PERIOD == 25,
        crate::early_phases::BEAM_KILL_POINTS == 15,
        crate::early_phases::POWERUP_PERIOD == 300,
        crate::early_phases::SHIELD_REPAIR == 25,
        crate::early_phases::BOSS_FIRE_PERIOD == 40,
        crate::early_phases::LASER_BOSS_DAMAGE == 10,
        crate::early_phases::CHARGED_BOSS_DAMAGE == 50,
        crate::early_phases::BEAM_BOSS_DAMAGE == 2,
        crate::early_phases::BOSS_POINTS == 500,
        crate::collision::LASER_KILL_POINTS == 10,
        crate::late_phases::SCOUT_FIRE_PERIOD == 75,
        crate::late_phases::WAVE_PERIOD == 600,
        crate::late_phases::BULLET_DAMAGE == 15,
        crate::late_phases::RAM_DAMAGE == 20,
        crate::late_phases::IMPACT_DAMAGE == 10,
{
}

/// With no mark set every item is kept in place and none removed; with
/// every mark set none is kept and all are removed, in order. The count of
/// set marks never exceeds the number of marks looked at.
pub proof fn law_marks_select<T>(items: Seq<T>, n: int)
    requires
        0 <= n,
    ensures
        kept_items(items, Seq::new(items.len(), |i: int| false)) == items,
        removed_items(items, Seq::new(items.len(), |i: int| false)) == Seq::<T>::empty(),
        kept_items(items, Seq::new(items.len(), |i: int| true)) == Seq::<T>::empty(),
        removed_items(items, Seq::new(items.len(), |i: int| true)) == items,
        count_marked(Seq::new(n as nat, |i: int| true), n) == n,
        count_marked(Seq::new(n as nat, |i: int| false), n) == 0,
    decreases items.len(),
{
    if items.len() > 0 {
        law_marks_select(items.take(items.len() - 1), n);
        assert(items.take(items.len() - 1).len() == items.len() - 1);
        lemma_select_prefix(items, items.len() - 1);
    }
    lemma_count_uniform(Seq::new(n as nat, |i: int| true), n);
    lemma_count_uniform(Seq::new(n as nat, |i: int| false), n);
}

proof fn lemma_count_uniform(marks: Seq<bool>, n: int)
    requires
        0 <= n <= marks.len(),
    ensures
        (forall|i: int| 0 <= i < n ==> marks[i]) ==> count_marked(marks, n) == n,
        (forall|i: int| 0 <= i < n ==> !marks[i]) ==> count_marked(marks, n) == 0,
    decreases n,
{
    if n > 0 {
        lemma_count_uniform(marks, n - 1);
    }
}

proof fn lemma_select_prefix<T>(items: Seq<T>, n: int)
    requires
        0 <= n == items.len() - 1,
    ensures
        kept_items(items.take(n), Seq::new(items.len(), |i: int| false)) == kept_items(
            items.take(n),
            Seq::new((items.len() - 1) as nat, |i: int| false),
        ),
        removed_items(items.take(n), Seq::new(items.len(), |i: int| false)) == removed_items(
            items.take(n),
            Seq::new((items.len() - 1) as nat, |i: int| false),
        ),
        kept_items(items.take(n), Seq::new(items.len(), |i: int| true)) == kept_items(
            items.take(n),
            Seq::new((items.len() - 1) as nat, |i: int| true),
        ),
        removed_items(items.take(n), Seq::new(items.len(), |i: int| true)) == removed_items(
            items.take(n),
            Seq::new((items.len() - 1) as nat, |i: int| true),
        ),
{
    lemma_marks_only_by_index(items.take(n), Seq::new(items.len(), |i: int| false), Seq::new((items.len() - 1) as nat, |i: int| false));
    lemma_marks_only_by_index(items.take(n), Seq::new(items.len(), |i: int| true), Seq::new((items.len() - 1) as nat, |i: int| true));
}

proof fn lemma_marks_only_by_index<T>(items: Seq<T>, a: Seq<bool>, b: Seq<bool>)
    requires
        items.len() <= a.len(),
        items.len() <= b.len(),
        forall|i: int| 0 <= i < items.len() ==> a[i] == b[i],
    ensures
        kept_items(items, a) == kept_items(items, b),
        removed_items(items, a) == removed_items(items, b),
    decreases items.len(),
{
    if items.len() > 0 {
        lemma_marks_only_by_index(items.take(items.len() - 1), a, b);
    }
}

} // verus!
