//! Properties of the game's rules that span several steps or hold of every
//! state the rules can reach.

use vstd::prelude::*;
use crate::collision::shot_threats;
use crate::early_phases::lemma_laser_damage_nonnegative;
use crate::late_phases::{apply_contact, apply_contacts};
use crate::masks::{count_marked, kept_items, lemma_partition_sizes, removed_items};
use crate::state::GameCore;
use crate::types::{ChargeTier, GameStatus, ThreatContact};

verus! {

/// A fresh game and a freshly started game satisfy the invariant `wf`.
pub proof fn law_fresh_states_wf()
    ensures
        GameCore::initial().wf(),
        GameCore::started().wf(),
{
}

/// The player's actions, the start of a tick and phases 2 to 4 keep the
/// invariant `wf`: shields stay within 0..=100 and a game in play has both
/// shields up, the wave number is at least 1, the power-up type stays 0, 1
/// or 2, the timers stay within their durations, and a boss's health stays
/// within 1..=its maximum, which matches its wave.
pub proof fn law_actions_and_early_phases_keep_wf(
    c: GameCore,
    tier: ChargeTier,
    fire_held: bool,
    kills: nat,
    off_screen: bool,
    collected: bool,
    coin: bool,
)
    requires
        c.wf(),
    ensures
        c.after_begin_tick().wf(),
        c.after_start_charging().wf(),
        c.after_release(tier).wf(),
        c.after_fire_input(fire_held, tier).wf(),
        c.after_helper_weapons().wf(),
        c.after_beam(kills).wf(),
        c.after_powerups(off_screen, collected, coin).wf(),
{
}

/// The boss phase and the wave phase keep the invariant `wf`, wherever
/// their counters do not overflow.
pub proof fn law_boss_and_waves_keep_wf(
    c: GameCore,
    charged: Seq<bool>,
    hits: Seq<bool>,
    beam_on_boss: bool,
)
    requires
        c.wf(),
        c.boss_defeated(charged, hits, beam_on_boss) ==> c.wave < u32::MAX,
        c.wave_advances() ==> c.wave < u32::MAX,
        c.boss_arrives() ==> crate::state::boss_health_for_wave(c.wave + 1) <= u32::MAX,
    ensures
        c.after_boss(charged, hits, beam_on_boss).wf(),
        c.after_wave_progression().wf(),
{
    lemma_laser_damage_nonnegative(charged, hits, hits.len() as int);
}

/// Resolving threat contacts only lowers shields, may only end the game,
/// and leaves every other counter as it was.
pub proof fn law_contacts_only_wear_shields(c: GameCore, contacts: Seq<ThreatContact>)
    ensures
        ({
            let d = apply_contacts(c, contacts);
            &&& d.player_shield <= c.player_shield
            &&& d.planet_shield <= c.planet_shield
            &&& d.status == c.status || d.status == GameStatus::Lost
            &&& d == (GameCore {
                player_shield: d.player_shield,
                planet_shield: d.planet_shield,
                status: d.status,
                ..c
            })
        }),
    decreases contacts.len(),
{
    if contacts.len() > 0 {
        law_contacts_only_wear_shields(c, contacts.drop_last());
    }
}

/// Resolving the threats' contacts keeps the invariant `wf`.
pub proof fn law_contacts_keep_wf(c: GameCore, contacts: Seq<ThreatContact>)
    requires
        c.wf(),
    ensures
        apply_contacts(c, contacts).wf(),
    decreases contacts.len(),
{
    if contacts.len() > 0 {
        law_contacts_keep_wf(c, contacts.drop_last());
        law_contacts_only_wear_shields(c, contacts.drop_last());
    }
}

/// From a game in play with both shields up, after the threats' contacts
/// are resolved, the game is lost exactly when one of the two shields is
/// depleted, and otherwise it is still in play.
pub proof fn law_lost_iff_shield_depleted(c: GameCore, contacts: Seq<ThreatContact>)
    requires
        c.status == GameStatus::Playing,
        c.player_shield > 0,
        c.planet_shield > 0,
    ensures
        apply_contacts(c, contacts).status == GameStatus::Lost <==> (apply_contacts(
            c,
            contacts,
        ).player_shield == 0 || apply_contacts(c, contacts).planet_shield == 0),
        apply_contacts(c, contacts).status != GameStatus::Lost ==> apply_contacts(
            c,
            contacts,
        ).status == GameStatus::Playing,
    decreases contacts.len(),
{
    if contacts.len() > 0 {
        law_lost_iff_shield_depleted(c, contacts.drop_last());
        law_contacts_only_wear_shields(c, contacts.drop_last());
        let d = apply_contacts(c, contacts.drop_last());
        assert(apply_contacts(c, contacts) == apply_contact(d, contacts.last()));
    }
}

/// No phase lowers the score or the wave number, wherever the counters do
/// not overflow.
pub proof fn law_score_and_wave_never_decrease(
    c: GameCore,
    kills: nat,
    off_screen: bool,
    collected: bool,
    coin: bool,
    charged: Seq<bool>,
    hits: Seq<bool>,
    beam_on_boss: bool,
    contacts: Seq<ThreatContact>,
)
    requires
        c.score + 15 * kills <= u32::MAX,
        c.boss_defeated(charged, hits, beam_on_boss) ==> c.score + 500 <= u32::MAX && c.wave
            < u32::MAX,
        c.wave_advances() ==> c.wave < u32::MAX,
    ensures
        c.after_beam(kills).score >= c.score,
        c.after_powerups(off_screen, collected, coin).score == c.score,
        c.after_boss(charged, hits, beam_on_boss).score >= c.score,
        c.after_boss(charged, hits, beam_on_boss).wave >= c.wave,
        c.after_wave_progression().wave >= c.wave,
        c.after_wave_progression().score == c.score,
        apply_contacts(c, contacts).score == c.score,
        apply_contacts(c, contacts).wave == c.wave,
{
    law_contacts_only_wear_shields(c, contacts);
}

/// A lost game stays lost: no step of a tick and no action of the player
/// brings it back into play; only starting a new game does.
pub proof fn law_lost_is_final(
    c: GameCore,
    tier: ChargeTier,
    fire_held: bool,
    kills: nat,
    off_screen: bool,
    collected: bool,
    coin: bool,
    charged: Seq<bool>,
    hits: Seq<bool>,
    beam_on_boss: bool,
    contacts: Seq<ThreatContact>,
)
    requires
        c.status == GameStatus::Lost,
    ensures
        c.after_begin_tick() == c,
        c.after_start_charging() == c,
        c.after_release(tier) == c,
        c.after_fire_input(fire_held, tier).status == GameStatus::Lost,
        c.after_helper_weapons().status == GameStatus::Lost,
        c.after_beam(kills).status == GameStatus::Lost,
        c.after_powerups(off_screen, collected, coin).status == GameStatus::Lost,
        c.after_boss(charged, hits, beam_on_boss).status == GameStatus::Lost,
        c.after_wave_progression().status == GameStatus::Lost,
        apply_contacts(c, contacts).status == GameStatus::Lost,
        GameCore::started().status == GameStatus::Playing,
{
    law_contacts_only_wear_shields(c, contacts);
}

/// Holding the fire button in a game in play and then letting go fires
/// exactly the shot that the accumulated charge calls for, and leaves the
/// weapon no longer charging.
pub proof fn law_charge_then_release_fires(c: GameCore, tier: ChargeTier)
    requires
        c.status == GameStatus::Playing,
    ensures
        c.after_fire_input(true, tier).fire_input_shot(false, tier) == Some(
            GameCore::shot_for(tier),
        ),
        !c.after_fire_input(true, tier).after_fire_input(false, tier).is_charging,
        tier == ChargeTier::Full ==> c.after_fire_input(true, tier).after_fire_input(
            false,
            tier,
        ).beam_time == crate::state::BEAM_DURATION,
        c.after_fire_input(true, tier).fire_input_shot(true, tier) is None,
{
}

/// Releasing the fire button never fires twice: after one release the
/// weapon is idle and a second release fires nothing.
pub proof fn law_release_fires_once(c: GameCore, first: ChargeTier, second: ChargeTier)
    ensures
        c.after_release(first).release_shot(second) is None,
{
}

/// While a boss is on the board, no threats spawn, no scout fires and no
/// new wave begins.
pub proof fn law_boss_suspends_waves(c: GameCore, coin: bool)
    requires
        c.boss_health is Some,
    ensures
        c.spawned_threat(coin) is None,
        !c.wave_advances(),
        c.after_wave_progression() == c,
{
}

/// The threats shot down and the threats left over make up the threats of
/// the tick, and the score rises by the points of exactly the threats shot
/// down.
pub proof fn law_collisions_account_for_every_threat<T>(threats: Seq<T>, contact: Seq<Vec<bool>>)
    ensures
        kept_items(threats, shot_threats(contact, threats.len() as int)).len() + removed_items(
            threats,
            shot_threats(contact, threats.len() as int),
        ).len() == threats.len(),
        removed_items(threats, shot_threats(contact, threats.len() as int)).len() == count_marked(
            shot_threats(contact, threats.len() as int),
            threats.len() as int,
        ),
{
    lemma_partition_sizes(threats, shot_threats(contact, threats.len() as int));
}

/// What one tick does to the discrete state, phase by phase, given the
/// facts measured on the board: how many threats the beam covers, the power-up's
/// position and coin, the lasers against the boss, the threats' contacts
/// and how many threats the lasers shoot down. Spawning and moving change
/// nothing here.
pub open spec fn after_tick(
    c: GameCore,
    beam_kills: nat,
    off_screen: bool,
    collected: bool,
    coin: bool,
    charged: Seq<bool>,
    hits: Seq<bool>,
    beam_on_boss: bool,
    contacts: Seq<ThreatContact>,
    laser_kills: nat,
) -> GameCore {
    if c.status != GameStatus::Playing {
        c
    } else {
        let c1 = c.after_begin_tick().after_helper_weapons().after_beam(beam_kills);
        let c2 = c1.after_powerups(off_screen, collected, coin).after_boss(
            charged,
            hits,
            beam_on_boss,
        ).after_wave_progression();
        apply_contacts(c2, contacts).after_collisions(laser_kills)
    }
}

/// A whole tick keeps the invariant `wf`, advances the tick counter by one
/// exactly when the game is being played, and never lowers the score or
/// the wave number, wherever the counters do not overflow.
pub proof fn law_tick_keeps_wf(
    c: GameCore,
    beam_kills: nat,
    off_screen: bool,
    collected: bool,
    coin: bool,
    charged: Seq<bool>,
    hits: Seq<bool>,
    beam_on_boss: bool,
    contacts: Seq<ThreatContact>,
    laser_kills: nat,
)
    requires
        c.wf(),
        c.ticks < u64::MAX,
        c.score + 15 * beam_kills + 500 + 10 * laser_kills <= u32::MAX,
        150 + 10 * (c.wave + 2) <= u32::MAX,
    ensures
        ({
            let d = after_tick(
                c,
                beam_kills,
                off_screen,
                collected,
                coin,
                charged,
                hits,
                beam_on_boss,
                contacts,
                laser_kills,
            );
            &&& d.wf()
            &&& d.score >= c.score
            &&& d.wave >= c.wave
            &&& d.ticks == if c.status == GameStatus::Playing {
                c.ticks + 1
            } else {
                c.ticks as int
            }
        }),
{
    if c.status == GameStatus::Playing {
        let c0 = c.after_begin_tick();
        let c1 = c0.after_helper_weapons().after_beam(beam_kills);
        law_actions_and_early_phases_keep_wf(c, ChargeTier::Low, false, 0, false, false, false);
        law_actions_and_early_phases_keep_wf(c0, ChargeTier::Low, false, 0, false, false, false);
        law_actions_and_early_phases_keep_wf(
            c0.after_helper_weapons(),
            ChargeTier::Low,
            false,
            beam_kills,
            false,
            false,
            false,
        );
        let p = c1.after_powerups(off_screen, collected, coin);
        law_actions_and_early_phases_keep_wf(
            c1,
            ChargeTier::Low,
            false,
            0,
            off_screen,
            collected,
            coin,
        );
        let b = p.after_boss(charged, hits, beam_on_boss);
        law_boss_and_waves_keep_wf(p, charged, hits, beam_on_boss);
        law_score_and_wave_never_decrease(
            p,
            0,
            false,
            false,
            false,
            charged,
            hits,
            beam_on_boss,
            contacts,
        );
        law_boss_and_waves_keep_wf(b, Seq::empty(), Seq::empty(), false);
        let w = b.after_wave_progression();
        law_contacts_keep_wf(w, contacts);
        law_contacts_only_wear_shields(w, contacts);
    }
}

/// Over a whole tick, from any state whose shields are within 0..=100, the
/// score and the wave number never go down, the planet's shield never
/// rises, and both shields stay within 0..=100, wherever the counters do
/// not overflow.
pub proof fn law_tick_never_loses_ground(
    c: GameCore,
    beam_kills: nat,
    off_screen: bool,
    collected: bool,
    coin: bool,
    charged: Seq<bool>,
    hits: Seq<bool>,
    beam_on_boss: bool,
    contacts: Seq<ThreatContact>,
    laser_kills: nat,
)
    requires
        c.player_shield <= 100,
        c.planet_shield <= 100,
        c.ticks < u64::MAX,
        c.score + 15 * beam_kills + 500 + 10 * laser_kills <= u32::MAX,
        150 + 10 * (c.wave + 2) <= u32::MAX,
    ensures
        ({
            let d = after_tick(
                c,
                beam_kills,
                off_screen,
                collected,
                coin,
                charged,
                hits,
                beam_on_boss,
                contacts,
                laser_kills,
            );
            &&& d.score >= c.score
            &&& d.wave >= c.wave
            &&& d.planet_shield <= c.planet_shield
            &&& d.player_shield <= 100
            &&& d.planet_shield <= 100
        }),
{
    if c.status == GameStatus::Playing {
        let c1 = c.after_begin_tick().after_helper_weapons().after_beam(beam_kills);
        let p = c1.after_powerups(off_screen, collected, coin);
        law_score_and_wave_never_decrease(
            p,
            0,
            false,
            false,
            false,
            charged,
            hits,
            beam_on_boss,
            contacts,
        );
        let b = p.after_boss(charged, hits, beam_on_boss);
        law_score_and_wave_never_decrease(
            b,
            0,
            false,
            false,
            false,
            Seq::empty(),
            Seq::empty(),
            false,
            contacts,
        );
        let w = b.after_wave_progression();
        law_contacts_only_wear_shields(w, contacts);
    }
}

/// Spawns speed up as the waves go on: the spawn interval never grows from
/// one wave to the next, and never drops below 10 ticks.
pub proof fn law_spawns_speed_up(wave: u32)
    requires
        wave < 0x7fff_ffff,
    ensures
        crate::late_phases::spawn_interval((wave + 1) as u32) <= crate::late_phases::spawn_interval(
            wave,
        ),
        crate::late_phases::spawn_interval(wave) >= 10,
{
}

} // verus!
