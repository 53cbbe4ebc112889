use defend::collision::LASER_KILL_POINTS;
use defend::early_phases::count_true;
use defend::late_phases::{compute_spawn_interval, retire_threats};
use defend::masks::{partition_by_marks, retain_unmarked};
use defend::{
    fire_button, newly_lost, ChargeTier, FireButton, GameCore, GameStatus, PowerupEvent, Shot,
    ThreatContact, ThreatFate, ThreatType,
};

fn playing() -> GameCore {
    let mut c = GameCore::new();
    c.start();
    c
}

fn contact(kind: ThreatType, at_player: bool, past_bottom: bool) -> ThreatContact {
    ThreatContact { kind, at_player, past_bottom }
}

#[test]
fn new_game_is_not_started() {
    let c = GameCore::new();
    assert_eq!(c.status, GameStatus::NotStarted);
    assert_eq!(c.score, 0);
    assert_eq!(c.player_shield, 100);
    assert_eq!(c.planet_shield, 100);
    assert_eq!(c.wave, 1);
    assert_eq!(c.ticks, 0);
    assert_eq!(c.powerup_type, 0);
    assert_eq!(c.boss_health, None);
    assert_eq!(c.boss_max_health, 100);
    assert!(!c.is_charging);
}

#[test]
fn start_resets_a_lost_game() {
    let mut c = GameCore::new();
    c.score = 1234;
    c.wave = 7;
    c.player_shield = 0;
    c.status = GameStatus::Lost;
    c.boss_health = Some(3);
    c.start();
    let mut expected = GameCore::new();
    expected.status = GameStatus::Playing;
    assert_eq!(c, expected);
}

#[test]
fn tick_runs_only_while_playing() {
    let mut c = GameCore::new();
    assert!(!c.begin_tick());
    assert_eq!(c.ticks, 0);
    c.start();
    assert!(c.begin_tick());
    assert!(c.begin_tick());
    assert_eq!(c.ticks, 2);
    c.status = GameStatus::Lost;
    let before = c;
    assert!(!c.begin_tick());
    assert_eq!(c, before);
}

#[test]
fn charging_requires_play() {
    let mut c = GameCore::new();
    c.start_charging();
    assert!(!c.is_charging);
    assert_eq!(c.release_charge(ChargeTier::Full), None);
    c.start();
    c.start_charging();
    assert!(c.is_charging);
}

#[test]
fn release_fires_shot_by_tier() {
    for (tier, shot) in [
        (ChargeTier::Low, Shot::Basic),
        (ChargeTier::Medium, Shot::Piercing),
        (ChargeTier::Full, Shot::Beam),
    ] {
        let mut c = playing();
        c.start_charging();
        assert_eq!(c.release_charge(tier), Some(shot));
        assert!(!c.is_charging);
        assert_eq!(c.beam_time, if tier == ChargeTier::Full { 35 } else { 0 });
        // a second release fires nothing
        assert_eq!(c.release_charge(tier), None);
    }
}

#[test]
fn fire_input_holds_then_releases() {
    let mut c = playing();
    assert_eq!(c.apply_fire_input(true, ChargeTier::Medium), None);
    assert!(c.is_charging);
    assert_eq!(c.apply_fire_input(false, ChargeTier::Medium), Some(Shot::Piercing));
    assert!(!c.is_charging);
    assert_eq!(c.apply_fire_input(false, ChargeTier::Medium), None);
}

#[test]
fn steering_only_in_play() {
    let mut c = GameCore::new();
    assert!(!c.can_steer());
    c.start();
    assert!(c.can_steer());
    c.status = GameStatus::Lost;
    assert!(!c.can_steer());
}

#[test]
fn helpers_fire_every_25_ticks() {
    let mut c = playing();
    c.ticks = 25;
    c.helper_time = 10;
    assert!(c.update_helper_weapons(true));
    assert_eq!(c.helper_time, 9);
    c.ticks = 50;
    c.helper_time = 5;
    assert!(c.update_helper_weapons(true));
    assert_eq!(c.helper_time, 4);
    c.ticks = 51;
    assert!(!c.update_helper_weapons(true));
    assert_eq!(c.helper_time, 3);
    c.ticks = 75;
    assert!(!c.update_helper_weapons(false));
    assert_eq!(c.helper_time, 2);
    c.helper_time = 0;
    assert!(!c.update_helper_weapons(true));
    assert_eq!(c.helper_time, 0);
}

#[test]
fn beam_destroys_threats_in_its_column() {
    let mut c = playing();
    c.beam_time = 35;
    c.ticks = 4;
    let mut threats = vec![10u32, 11, 12, 13];
    let (destroyed, particle) =
        c.update_beam_power_shot(&mut threats, &vec![true, false, true, false]);
    assert_eq!(destroyed, vec![10, 12]);
    assert_eq!(threats, vec![11, 13]);
    assert!(particle);
    assert_eq!(c.score, 30);
    assert_eq!(c.beam_time, 34);
}

#[test]
fn idle_beam_changes_nothing() {
    let mut c = playing();
    let before = c;
    let mut threats = vec![1u32, 2];
    let (destroyed, particle) = c.update_beam_power_shot(&mut threats, &vec![true, true]);
    assert!(destroyed.is_empty());
    assert!(!particle);
    assert_eq!(threats, vec![1, 2]);
    assert_eq!(c, before);
}

#[test]
fn beam_is_wide_with_helpers() {
    let mut c = playing();
    assert!(!c.beam_is_wide());
    c.helper_time = 3;
    assert!(c.beam_is_wide());
}

#[test]
fn shield_powerup_repairs_up_to_full() {
    let mut c = playing();
    c.powerup_type = 1;
    c.player_shield = 60;
    assert_eq!(c.update_powerups(false, true, false), PowerupEvent::ShieldRepaired);
    assert_eq!(c.player_shield, 85);
    assert_eq!(c.powerup_type, 0);
    c.powerup_type = 1;
    assert_eq!(c.update_powerups(false, true, false), PowerupEvent::ShieldRepaired);
    assert_eq!(c.player_shield, 100);
}

#[test]
fn drone_powerup_deploys_helpers() {
    let mut c = playing();
    c.powerup_type = 2;
    assert_eq!(c.update_powerups(false, true, true), PowerupEvent::DronesDeployed);
    assert_eq!(c.helper_time, 450);
    assert_eq!(c.powerup_type, 0);
}

#[test]
fn powerup_falls_missed_and_spawns() {
    let mut c = playing();
    c.powerup_type = 2;
    assert_eq!(c.update_powerups(false, false, true), PowerupEvent::Falling);
    assert_eq!(c.powerup_type, 2);
    assert_eq!(c.update_powerups(true, true, true), PowerupEvent::Missed);
    assert_eq!(c.powerup_type, 0);
    c.ticks = 301;
    assert_eq!(c.update_powerups(false, false, true), PowerupEvent::Idle);
    c.ticks = 600;
    assert_eq!(c.update_powerups(false, false, true), PowerupEvent::Spawned);
    assert_eq!(c.powerup_type, 1);
    c.powerup_type = 0;
    assert_eq!(c.update_powerups(false, false, false), PowerupEvent::Spawned);
    assert_eq!(c.powerup_type, 2);
}

#[test]
fn charging_sparks_on_even_ticks() {
    let mut c = playing();
    c.ticks = 2;
    assert!(!c.charging_spark());
    c.is_charging = true;
    assert!(c.charging_spark());
    c.ticks = 3;
    assert!(!c.charging_spark());
}

fn boss_game(health: u32) -> GameCore {
    let mut c = playing();
    c.wave = 10;
    c.boss_health = Some(health);
    c.boss_max_health = 250;
    c
}

#[test]
fn boss_takes_laser_and_beam_damage() {
    let mut c = boss_game(100);
    c.ticks = 80;
    c.beam_time = 5;
    let mut lasers = vec!['a', 'b', 'c'];
    let step = c.update_boss(&mut lasers, &vec![false, true, false], &vec![true, true, false], true);
    assert!(step.fire_bullet);
    assert!(!step.defeated);
    assert_eq!(step.struck, vec!['a', 'b']);
    assert_eq!(lasers, vec!['c']);
    // 10 + 50 + 2
    assert_eq!(c.boss_health, Some(38));
    assert_eq!(c.score, 0);
}

#[test]
fn boss_defeat_scores_and_advances_wave() {
    let mut c = boss_game(30);
    c.ticks = 81;
    let mut lasers = vec![1u8];
    let step = c.update_boss(&mut lasers, &vec![true], &vec![true], false);
    assert!(step.defeated);
    assert!(!step.fire_bullet);
    assert!(lasers.is_empty());
    assert_eq!(c.boss_health, None);
    assert_eq!(c.score, 500);
    assert_eq!(c.wave, 11);
}

#[test]
fn beam_on_boss_needs_active_beam() {
    let mut c = boss_game(2);
    let mut lasers: Vec<u8> = vec![];
    let step = c.update_boss(&mut lasers, &vec![], &vec![], true);
    assert!(!step.defeated);
    assert_eq!(c.boss_health, Some(2));
    c.beam_time = 1;
    let step = c.update_boss(&mut lasers, &vec![], &vec![], true);
    assert!(step.defeated);
}

#[test]
fn no_boss_no_boss_phase() {
    let mut c = playing();
    c.ticks = 40;
    let before = c;
    let mut lasers = vec![1u8, 2];
    let step = c.update_boss(&mut lasers, &vec![false, false], &vec![true, true], true);
    assert!(!step.fire_bullet && !step.defeated && step.struck.is_empty());
    assert_eq!(lasers, vec![1, 2]);
    assert_eq!(c, before);
}

#[test]
fn spawn_interval_shrinks_with_waves() {
    assert_eq!(compute_spawn_interval(1), 33);
    assert_eq!(compute_spawn_interval(12), 11);
    assert_eq!(compute_spawn_interval(13), 10);
    assert_eq!(compute_spawn_interval(500), 10);
    assert_eq!(compute_spawn_interval(0), 35);
}

#[test]
fn spawning_follows_interval_and_coin() {
    let mut c = playing();
    c.ticks = 66;
    assert_eq!(c.update_spawning(true), Some(ThreatType::Scout));
    assert_eq!(c.update_spawning(false), Some(ThreatType::Asteroid));
    c.ticks = 67;
    assert_eq!(c.update_spawning(true), None);
    c.ticks = 66;
    c.boss_health = Some(5);
    assert_eq!(c.update_spawning(true), None);
}

#[test]
fn first_scout_in_band_shoots() {
    let mut c = playing();
    c.ticks = 150;
    let kinds = vec![ThreatType::Asteroid, ThreatType::Scout, ThreatType::Scout, ThreatType::Scout];
    assert_eq!(c.scout_shooter(&kinds, &vec![true, false, true, true]), Some(2));
    assert_eq!(c.scout_shooter(&kinds, &vec![true, false, false, false]), None);
    c.ticks = 151;
    assert_eq!(c.scout_shooter(&kinds, &vec![true, true, true, true]), None);
    c.ticks = 150;
    c.boss_health = Some(1);
    assert_eq!(c.scout_shooter(&kinds, &vec![true, true, true, true]), None);
}

#[test]
fn waves_advance_every_600_ticks() {
    let mut c = playing();
    let mut threats = vec![1u8, 2];
    c.ticks = 599;
    assert!(!c.update_wave_progression(&mut threats));
    assert_eq!(c.wave, 1);
    c.ticks = 600;
    assert!(!c.update_wave_progression(&mut threats));
    assert_eq!(c.wave, 2);
    assert_eq!(threats, vec![1, 2]);
}

#[test]
fn tenth_wave_brings_a_boss() {
    let mut c = playing();
    c.wave = 9;
    c.ticks = 5400;
    let mut threats = vec![1u8, 2, 3];
    assert!(c.update_wave_progression(&mut threats));
    assert_eq!(c.wave, 10);
    assert_eq!(c.boss_health, Some(250));
    assert_eq!(c.boss_max_health, 250);
    assert!(threats.is_empty());
    // with the boss present, the waves stop
    c.ticks = 6000;
    assert!(!c.update_wave_progression(&mut threats));
    assert_eq!(c.wave, 10);
}

#[test]
fn threats_strike_player_and_planet() {
    let mut c = playing();
    let fates = c.handle_threat_collisions(&vec![
        contact(ThreatType::Bullet, true, false),
        contact(ThreatType::Scout, true, false),
        contact(ThreatType::Asteroid, false, true),
        contact(ThreatType::Scout, false, true),
        contact(ThreatType::Bullet, false, true),
        contact(ThreatType::Asteroid, false, false),
    ]);
    assert_eq!(
        fates,
        vec![
            ThreatFate::StrikesPlayer,
            ThreatFate::StrikesPlayer,
            ThreatFate::ImpactsPlanet,
            ThreatFate::Wraps,
            ThreatFate::Leaves,
            ThreatFate::Flying,
        ]
    );
    assert_eq!(c.player_shield, 65);
    assert_eq!(c.planet_shield, 90);
    assert_eq!(c.status, GameStatus::Playing);
    let gone: Vec<bool> = fates.iter().map(|f| f.leaves_board()).collect();
    assert_eq!(gone, vec![true, true, true, false, true, false]);
    let mut threats = vec!['a', 'b', 'c', 'd', 'e', 'f'];
    let left = retire_threats(&mut threats, &fates);
    assert_eq!(threats, vec!['d', 'f']);
    assert_eq!(left, vec!['a', 'b', 'c', 'e']);
}

#[test]
fn depleted_player_shield_loses_the_game() {
    let mut c = playing();
    c.player_shield = 20;
    c.handle_threat_collisions(&vec![contact(ThreatType::Asteroid, true, false)]);
    assert_eq!(c.player_shield, 0);
    assert_eq!(c.status, GameStatus::Lost);
    assert!(newly_lost(GameStatus::Playing, c.status));
    assert!(!newly_lost(GameStatus::Lost, c.status));
}

#[test]
fn depleted_planet_shield_loses_the_game() {
    let mut c = playing();
    c.planet_shield = 15;
    c.handle_threat_collisions(&vec![
        contact(ThreatType::Asteroid, false, true),
        contact(ThreatType::Asteroid, false, true),
    ]);
    assert_eq!(c.planet_shield, 0);
    assert_eq!(c.status, GameStatus::Lost);
}

#[test]
fn lasers_shoot_down_threats() {
    let mut c = playing();
    let mut lasers = vec!["basic", "charged", "miss"];
    let mut threats = vec![100u32, 200, 300];
    let contact = vec![
        vec![false, true, false],
        vec![false, true, true],
        vec![false, false, false],
    ];
    let destroyed =
        c.handle_collisions(&mut lasers, &mut threats, &vec![false, true, false], &contact);
    assert_eq!(destroyed, vec![200, 300]);
    assert_eq!(threats, vec![100]);
    assert_eq!(lasers, vec!["charged", "miss"]);
    assert_eq!(c.score, 2 * LASER_KILL_POINTS);
}

#[test]
fn collisions_with_no_threats() {
    let mut c = playing();
    let mut lasers = vec![1u8, 2];
    let mut threats: Vec<u8> = vec![];
    let destroyed = c.handle_collisions(&mut lasers, &mut threats, &vec![false, false], &vec![vec![], vec![]]);
    assert!(destroyed.is_empty());
    assert_eq!(lasers, vec![1, 2]);
    assert_eq!(c.score, 0);
}

#[test]
fn marks_partition_in_order() {
    let (kept, removed) = partition_by_marks(vec![1, 2, 3, 4, 5], &vec![false, true, true, false, true]);
    assert_eq!(kept, vec![1, 4]);
    assert_eq!(removed, vec![2, 3, 5]);
    let mut items = vec!['x', 'y'];
    retain_unmarked(&mut items, &vec![true, false]);
    assert_eq!(items, vec!['y']);
    assert_eq!(count_true(&vec![true, false, true]), 2);
}

#[test]
fn fire_button_faces() {
    assert_eq!(fire_button(false, false), FireButton::Fire);
    assert_eq!(fire_button(true, false), FireButton::Charging);
    assert_eq!(fire_button(true, true), FireButton::Release);
    assert_eq!(fire_button(false, true), FireButton::Release);
}
