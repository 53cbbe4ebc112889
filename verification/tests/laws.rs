use defend::late_phases::compute_spawn_interval;
use defend::{ChargeTier, GameCore, GameStatus, ThreatContact, ThreatType};

fn wf(c: &GameCore) -> bool {
    let boss_ok = match c.boss_health {
        Some(h) => {
            0 < h
                && h <= c.boss_max_health
                && c.wave % 10 == 0
                && c.boss_max_health == 150 + 10 * c.wave
        }
        None => true,
    };
    c.player_shield <= 100
        && c.planet_shield <= 100
        && (c.status != GameStatus::Playing || (c.player_shield > 0 && c.planet_shield > 0))
        && c.wave >= 1
        && c.powerup_type <= 2
        && c.helper_time <= 450
        && c.beam_time <= 35
        && boss_ok
}

fn ram(at_player: bool, past_bottom: bool) -> ThreatContact {
    ThreatContact { kind: ThreatType::Asteroid, at_player, past_bottom }
}

/// Runs the discrete part of one tick with the given board facts.
fn tick(c: &mut GameCore, threats: &mut Vec<u32>, lasers: &mut Vec<u32>, hot: bool) {
    if !c.begin_tick() {
        return;
    }
    c.update_helper_weapons(!threats.is_empty());
    let in_beam = vec![hot; threats.len()];
    c.update_beam_power_shot(threats, &in_beam);
    c.update_powerups(false, hot, true);
    let charged = vec![false; lasers.len()];
    let hits = vec![hot; lasers.len()];
    c.update_boss(lasers, &charged, &hits, hot);
    if let Some(_kind) = c.update_spawning(true) {
        threats.push(7);
    }
    c.update_wave_progression(threats);
    let contacts: Vec<ThreatContact> =
        threats.iter().enumerate().map(|(i, _)| ram(hot && i == 0, false)).collect();
    let fates = c.handle_threat_collisions(&contacts);
    defend::late_phases::retire_threats(threats, &fates);
    let charged = vec![false; lasers.len()];
    let contact = vec![vec![hot; threats.len()]; lasers.len()];
    c.handle_collisions(lasers, threats, &charged, &contact);
}

#[test]
fn ticks_keep_the_invariant_and_never_lower_score_or_wave() {
    let mut c = GameCore::new();
    c.start();
    let mut threats: Vec<u32> = Vec::new();
    let mut lasers: Vec<u32> = Vec::new();
    let mut seen_boss = false;
    for n in 0..20_000u32 {
        let (score, wave, ticks) = (c.score, c.wave, c.ticks);
        let hot = n % 2999 == 0;
        if n % 50 == 0 {
            lasers.push(n);
        }
        tick(&mut c, &mut threats, &mut lasers, hot);
        assert!(wf(&c), "invariant broken at tick {}", n);
        assert!(c.score >= score);
        assert!(c.wave >= wave);
        if c.status == GameStatus::Playing {
            assert_eq!(c.ticks, ticks + 1);
        }
        seen_boss |= c.boss_health.is_some();
    }
    assert!(seen_boss);
}

#[test]
fn lost_game_stays_lost() {
    let mut c = GameCore::new();
    c.start();
    c.player_shield = 10;
    c.handle_threat_collisions(&vec![ram(true, false)]);
    assert_eq!(c.status, GameStatus::Lost);
    let lost = c;
    assert!(!c.begin_tick());
    assert_eq!(c, lost);
    c.start_charging();
    assert_eq!(c.release_charge(ChargeTier::Full), None);
    assert_eq!(c.apply_fire_input(false, ChargeTier::Full), None);
    assert_eq!(c, lost);
    let mut threats = vec![1u32, 2];
    c.beam_time = 3;
    c.update_beam_power_shot(&mut threats, &vec![true, false]);
    c.update_powerups(false, true, true);
    c.handle_threat_collisions(&vec![ram(false, false)]);
    assert_eq!(c.status, GameStatus::Lost);
    c.start();
    assert_eq!(c.status, GameStatus::Playing);
}

#[test]
fn lost_exactly_when_a_shield_is_depleted() {
    let mut c = GameCore::new();
    c.start();
    c.planet_shield = 20;
    c.handle_threat_collisions(&vec![ram(false, true)]);
    assert_eq!((c.planet_shield, c.status), (10, GameStatus::Playing));
    c.handle_threat_collisions(&vec![ram(false, true), ram(false, false)]);
    assert_eq!((c.planet_shield, c.status), (0, GameStatus::Lost));
}

#[test]
fn tick_never_loses_ground_outside_the_invariant() {
    // shields below full and a status of Playing with a full boss: no `wf` needed
    let mut c = GameCore::new();
    c.start();
    c.planet_shield = 40;
    c.player_shield = 100;
    c.powerup_type = 1;
    let mut threats = vec![1u32, 2, 3];
    let mut lasers = vec![9u32];
    for _ in 0..1200 {
        let (score, wave, planet) = (c.score, c.wave, c.planet_shield);
        tick(&mut c, &mut threats, &mut lasers, false);
        assert!(c.score >= score && c.wave >= wave && c.planet_shield <= planet);
        assert!(c.player_shield <= 100 && c.planet_shield <= 100);
    }
}

#[test]
fn spawns_speed_up_with_waves() {
    let mut previous = compute_spawn_interval(1);
    for wave in 2..40u32 {
        let interval = compute_spawn_interval(wave);
        assert!(interval <= previous);
        assert!(interval >= 10);
        previous = interval;
    }
    assert_eq!(compute_spawn_interval(u32::MAX), 37);
}

#[test]
fn charge_then_release_fires_once() {
    for tier in [ChargeTier::Low, ChargeTier::Medium, ChargeTier::Full] {
        let mut c = GameCore::new();
        c.start();
        assert_eq!(c.apply_fire_input(true, tier), None);
        assert!(c.apply_fire_input(false, tier).is_some());
        assert!(!c.is_charging);
        assert_eq!(c.release_charge(tier), None);
    }
}
