use std::cell::RefCell;
use std::rc::Rc;

use space_boss_battles::audio::{AllSoundEffects, Audio, SoundEffectManager, SoundEffectPlayer, Volume, VolumeSDL2};
use space_boss_battles::gui::GUIState;
use space_boss_battles::logic::common::{ObjectCheck, UpdateContent};
use space_boss_battles::logic::{
    enemy_laser_shots, enemy_type_for_level, laser_bombs_enabled, level_end_state, milliseconds_between_laser_bombs,
    particle_lifetime_milliseconds, particle_lifetime_of, update_laser_cannons_enabled, Difficulty, Enemy, EnemyContacts, EnemyLaserShots,
    EnemyType, ExplodedObject, Explosion, Health, LaserBomb, LaserBombOrigin, LaserCannon, Logic, LogicSettings, Player,
    PlayerLaserHits, Shield,
};
use space_boss_battles::utils::TimeMilliseconds;

/// Audio that counts its plays and keeps its volume.
struct Counter(Rc<RefCell<u32>>, i32);

impl Audio for Counter {
    fn volume(&self) -> i32 {
        self.1
    }

    fn times_played(&self) -> u64 {
        *self.0.borrow() as u64
    }

    fn play(&mut self) {
        *self.0.borrow_mut() += 1;
    }

    fn change_volume(&mut self, volume: VolumeSDL2) {
        self.1 = volume.value();
    }
}

/// Sound effect manager and the play counts of its laser, explosion, laser
/// bomb launch, laser bomb explosion and laser cannon hit sounds.
fn sounds() -> (SoundEffectManager<Counter>, Vec<Rc<RefCell<u32>>>) {
    let counts: Vec<Rc<RefCell<u32>>> = (0..5).map(|_| Rc::new(RefCell::new(0))).collect();
    let effects = AllSoundEffects::new(
        Counter(counts[0].clone(), 0),
        Counter(counts[1].clone(), 0),
        Counter(counts[2].clone(), 0),
        Counter(counts[3].clone(), 0),
        Counter(counts[4].clone(), 0),
        VolumeSDL2::new(100),
    );
    (SoundEffectManager::new(Some(effects)), counts)
}

fn played(manager: &mut SoundEffectManager<Counter>, counts: &[Rc<RefCell<u32>>]) -> Vec<u32> {
    manager.update();
    counts.iter().map(|c| *c.borrow()).collect()
}

fn t(ms: u32) -> TimeMilliseconds {
    TimeMilliseconds(ms)
}

fn normal_settings() -> LogicSettings {
    let mut settings = LogicSettings::new();
    settings.settings_normal();
    settings
}

const NO_HITS: PlayerLaserHits =
    PlayerLaserHits { leaves_screen: false, shield: false, laser_cannon_bottom: false, laser_cannon_top: false, enemy: false };

const NO_CONTACTS: EnemyContacts = EnemyContacts { enemy: false, laser_cannon_top: false, laser_cannon_bottom: false };

#[test]
fn difficulty_settings() {
    let mut settings = LogicSettings::new();
    assert_eq!(settings.player_laser_damage, 0);
    settings.settings_easy();
    assert_eq!(
        (settings.player_laser_damage, settings.enemy_laser_damage, settings.enemy_hit_damage_16_milliseconds, settings.enemy_shooting_speed_milliseconds),
        (5, 5, 3, 1500)
    );
    assert_eq!(settings.difficulty, Difficulty::Easy);
    settings.settings_normal();
    assert_eq!(
        (settings.player_laser_damage, settings.enemy_laser_damage, settings.enemy_hit_damage_16_milliseconds, settings.enemy_shooting_speed_milliseconds),
        (3, 10, 6, 1000)
    );
    settings.settings_hard();
    assert_eq!(
        (settings.player_laser_damage, settings.enemy_laser_damage, settings.enemy_hit_damage_16_milliseconds, settings.enemy_shooting_speed_milliseconds),
        (2, 10, 6, 750)
    );
    assert_eq!(settings.difficulty, Difficulty::Hard);
}

#[test]
fn health_never_goes_below_zero() {
    let mut health = Health::new(100);
    assert_eq!(health.health(), Some(100));
    assert_eq!(health.health(), None);
    health.update_health(-30);
    assert_eq!(health.health(), Some(70));
    health.update_health(-71);
    assert_eq!(health.health(), Some(0));
    health.update_health(5);
    assert_eq!(health.health(), Some(5));
}

#[test]
fn level_rules() {
    assert_eq!(enemy_type_for_level(0), EnemyType::Normal);
    assert_eq!(enemy_type_for_level(1), EnemyType::Shield);
    assert_eq!(enemy_type_for_level(2), EnemyType::Normal);
    assert_eq!(enemy_type_for_level(3), EnemyType::Shield);
    assert!(!laser_bombs_enabled(1));
    assert!(laser_bombs_enabled(2));
    assert_eq!(level_end_state(0, 3), GUIState::GameOverScreen);
    assert_eq!(level_end_state(10, 3), GUIState::PlayerWinsScreen);
    assert_eq!(level_end_state(10, 2), GUIState::NextLevelScreen);
}

#[test]
fn laser_bomb_interval_shortens_with_low_health() {
    assert_eq!(milliseconds_between_laser_bombs(Difficulty::Hard, 20), 1250);
    assert_eq!(milliseconds_between_laser_bombs(Difficulty::Hard, 21), 2500);
    assert_eq!(milliseconds_between_laser_bombs(Difficulty::Normal, 20), 2500);
    assert_eq!(milliseconds_between_laser_bombs(Difficulty::Normal, 41), 3750);
    assert_eq!(milliseconds_between_laser_bombs(Difficulty::Easy, 1), 3750);
}

#[test]
fn enemy_shoots_more_lasers_with_low_health() {
    let one = EnemyLaserShots { straight: true, turned_up: false, turned_down: false };
    let two = EnemyLaserShots { straight: true, turned_up: true, turned_down: false };
    let three = EnemyLaserShots { straight: true, turned_up: true, turned_down: true };
    assert_eq!(enemy_laser_shots(EnemyType::Normal, 40), one);
    assert_eq!(enemy_laser_shots(EnemyType::Normal, 39), two);
    assert_eq!(enemy_laser_shots(EnemyType::Normal, 19), three);
    assert_eq!(enemy_laser_shots(EnemyType::Shield, 100), three);
}

#[test]
fn laser_cannons_enable_with_low_health() {
    let (mut top, mut bottom) = (false, false);
    update_laser_cannons_enabled(60, &mut top, &mut bottom);
    assert_eq!((top, bottom), (false, false));
    update_laser_cannons_enabled(59, &mut top, &mut bottom);
    assert_eq!((top, bottom), (true, false));
    update_laser_cannons_enabled(29, &mut top, &mut bottom);
    assert_eq!((top, bottom), (true, true));
    update_laser_cannons_enabled(100, &mut top, &mut bottom);
    assert_eq!((top, bottom), (true, true));
}

#[test]
fn shield_comes_back_after_ten_seconds() {
    let mut shield = Shield::new();
    assert!(!shield.visible());
    shield.reset(EnemyType::Shield);
    assert!(shield.visible());
    shield.disable(&t(1000));
    assert!(!shield.visible());
    assert!(!shield.update(&t(10_999)));
    assert!(shield.update(&t(11_000)));
    assert!(shield.visible());
    assert!(!shield.update(&t(30_000)));
    shield.reset(EnemyType::Normal);
    assert!(!shield.visible());
}

#[test]
fn laser_cannon_shoots_and_blinks() {
    let (mut manager, counts) = sounds();
    let mut cannon = LaserCannon::new();
    assert!(!cannon.visible());
    assert!(!cannon.update(&t(5000)));
    cannon.reset(EnemyType::Shield, &t(0));
    assert!(cannon.visible());
    assert!(cannon.parent_object_shield_enabled());
    // Lasers are not enabled.
    assert!(!cannon.update(&t(1000)));
    cannon.hit_by_laser(&mut manager);
    assert!(!cannon.parent_object_shield_enabled());
    cannon.hit_by_laser(&mut manager);
    assert_eq!(played(&mut manager, &counts), vec![0, 0, 0, 0, 1]);
    assert!(!cannon.red_light());
    cannon.update(&t(1100));
    assert!(cannon.red_light());
    cannon.update(&t(1499));
    assert!(cannon.red_light());
    cannon.update(&t(1500));
    assert!(!cannon.red_light());
    cannon.shield_enabled();
    assert!(cannon.parent_object_shield_enabled());
    cannon.reset(EnemyType::Normal, &t(2000));
    assert!(!cannon.visible());
}

#[test]
fn explosion_creates_particles_and_finishes() {
    let (mut manager, counts) = sounds();
    let mut explosion = Explosion::new(15, 500);
    assert_eq!(explosion.update(&mut manager, &t(600)), 0);
    explosion.start_explosion(&t(1000));
    assert!(explosion.visible());
    assert_eq!(explosion.update(&mut manager, &t(1000)), 15);
    assert_eq!(explosion.update(&mut manager, &t(1499)), 0);
    assert_eq!(explosion.update(&mut manager, &t(1500)), 15);
    assert_eq!(played(&mut manager, &counts), vec![0, 1, 0, 0, 0]);
    assert!(!explosion.explosion_finished(&t(2999)));
    assert!(explosion.visible());
    assert!(explosion.explosion_finished(&t(3000)));
    assert!(!explosion.visible());
    explosion.start_explosion(&t(4000));
    explosion.reset();
    assert!(!explosion.visible());
}

#[test]
fn laser_bomb_explodes_after_900_milliseconds() {
    let (mut manager, counts) = sounds();
    let mut bomb = LaserBomb::new(&t(100));
    assert!(!bomb.update(&mut manager, &t(999)));
    assert!(bomb.update(&mut manager, &t(1000)));
    assert_eq!(played(&mut manager, &counts), vec![0, 0, 0, 1, 0]);
}

#[test]
fn player_shoots_every_300_milliseconds() {
    let (mut manager, counts) = sounds();
    let settings = normal_settings();
    let mut player = Player::new();
    player.reset(&t(0));
    assert!(!player.update(true, NO_CONTACTS, EnemyType::Normal, &settings, &mut manager, &t(299)));
    assert!(!player.update(false, NO_CONTACTS, EnemyType::Normal, &settings, &mut manager, &t(300)));
    assert!(player.update(true, NO_CONTACTS, EnemyType::Normal, &settings, &mut manager, &t(300)));
    assert!(!player.update(true, NO_CONTACTS, EnemyType::Normal, &settings, &mut manager, &t(599)));
    assert_eq!(played(&mut manager, &counts), vec![1, 0, 0, 0, 0]);
}

#[test]
fn touching_the_enemy_costs_health() {
    let (mut manager, _) = sounds();
    let settings = normal_settings();
    let mut player = Player::new();
    assert_eq!(player.health(), Some(100));
    let touching = EnemyContacts { enemy: true, laser_cannon_top: true, laser_cannon_bottom: true };
    player.update(false, touching, EnemyType::Normal, &settings, &mut manager, &t(16));
    assert_eq!(player.health(), Some(94));
    // Too soon for the next damage.
    player.update(false, touching, EnemyType::Normal, &settings, &mut manager, &t(31));
    assert_eq!(player.health(), None);
    // The shielded enemy's cannon costs health once more.
    player.update(false, touching, EnemyType::Shield, &settings, &mut manager, &t(32));
    assert_eq!(player.health(), Some(82));
    player.hit_by_enemy_laser(&settings);
    assert_eq!(player.health(), Some(72));
    player.hit_by_laser_bomb();
    assert_eq!(player.health(), Some(42));
    player.update_health(-50);
    assert_eq!(player.health(), Some(0));
    assert!(player.visible());
    player.set_invisible();
    assert!(!player.visible());
}

#[test]
fn enemy_reset_by_level() {
    let mut enemy = Enemy::new();
    assert_eq!(enemy.enemy_type(), EnemyType::Normal);
    enemy.reset(1, &t(100));
    assert_eq!(enemy.enemy_type(), EnemyType::Shield);
    assert!(enemy.get_shield().visible());
    assert!(enemy.get_laser_cannon_top().visible());
    assert!(enemy.get_laser_cannon_bottom().visible());
    assert_eq!(enemy.health(), Some(100));
    enemy.reset(2, &t(200));
    assert_eq!(enemy.enemy_type(), EnemyType::Normal);
    assert!(!enemy.get_shield().visible());
    assert!(!enemy.get_laser_cannon_top().visible());
    assert!(enemy.visible());
}

#[test]
fn normal_enemy_shoots_and_launches_laser_bombs() {
    let (mut manager, counts) = sounds();
    let mut settings = normal_settings();
    settings.settings_hard();
    let mut enemy = Enemy::new();
    enemy.reset(2, &t(0));
    let created = enemy.update(&settings, &mut manager, &t(749));
    assert_eq!(created.lasers, None);
    assert_eq!(created.laser_bomb, None);
    let created = enemy.update(&settings, &mut manager, &t(750));
    assert_eq!(created.lasers, Some(EnemyLaserShots { straight: true, turned_up: false, turned_down: false }));
    assert!(!created.laser_cannon_top_shoots);
    let created = enemy.update(&settings, &mut manager, &t(3750));
    assert_eq!(created.laser_bomb, Some(LaserBombOrigin::Enemy));
    assert_eq!(played(&mut manager, &counts), vec![0, 0, 1, 0, 0]);
    enemy.update_health(-80);
    let created = enemy.update(&settings, &mut manager, &t(5000));
    assert_eq!(created.laser_bomb, Some(LaserBombOrigin::Enemy));
    assert_eq!(created.lasers, Some(EnemyLaserShots { straight: true, turned_up: true, turned_down: false }));
}

#[test]
fn shielded_enemy_cannons_take_turns_with_laser_bombs() {
    let (mut manager, _) = sounds();
    let settings = normal_settings();
    let mut enemy = Enemy::new();
    enemy.reset(3, &t(0));
    assert_eq!(enemy.update(&settings, &mut manager, &t(3750)).laser_bomb, Some(LaserBombOrigin::LaserCannonTop));
    assert_eq!(enemy.update(&settings, &mut manager, &t(7500)).laser_bomb, Some(LaserBombOrigin::LaserCannonBottom));
    assert_eq!(enemy.update(&settings, &mut manager, &t(11250)).laser_bomb, Some(LaserBombOrigin::LaserCannonTop));
    // Level 1 has no laser bombs.
    enemy.reset(1, &t(20000));
    assert_eq!(enemy.update(&settings, &mut manager, &t(30000)).laser_bomb, None);
}

#[test]
fn shield_protects_the_enemy_until_both_cannons_are_hit() {
    let (mut manager, counts) = sounds();
    let settings = normal_settings();
    let mut enemy = Enemy::new();
    enemy.reset(1, &t(0));
    enemy.health();
    let on_enemy = PlayerLaserHits { shield: true, enemy: true, ..NO_HITS };
    assert!(enemy.hit_by_player_laser(on_enemy, &settings, &mut manager));
    assert_eq!(enemy.health(), None);
    assert!(!enemy.hit_by_player_laser(NO_HITS, &settings, &mut manager));
    let on_bottom = PlayerLaserHits { laser_cannon_bottom: true, ..NO_HITS };
    let on_top = PlayerLaserHits { laser_cannon_top: true, ..NO_HITS };
    assert!(enemy.hit_by_player_laser(on_bottom, &settings, &mut manager));
    assert!(enemy.hit_by_player_laser(on_top, &settings, &mut manager));
    assert_eq!(played(&mut manager, &counts), vec![0, 0, 0, 0, 1]);
    // The shield goes off at the next update.
    enemy.update(&settings, &mut manager, &t(100));
    assert!(!enemy.get_shield().visible());
    assert!(enemy.hit_by_player_laser(on_enemy, &settings, &mut manager));
    assert_eq!(enemy.health(), Some(97));
    // Ten seconds later the shield is back and both cannons are protected again.
    enemy.update(&settings, &mut manager, &t(10_100));
    assert!(enemy.get_shield().visible());
    assert!(enemy.get_laser_cannon_top().parent_object_shield_enabled());
    assert!(enemy.get_laser_cannon_bottom().parent_object_shield_enabled());
    let leaving = PlayerLaserHits { leaves_screen: true, enemy: true, ..NO_HITS };
    assert!(enemy.hit_by_player_laser(leaving, &settings, &mut manager));
    assert_eq!(enemy.health(), None);
}

#[test]
fn laser_cannons_shoot_when_enemy_health_is_low() {
    let (mut manager, _) = sounds();
    let settings = normal_settings();
    let mut enemy = Enemy::new();
    enemy.reset(1, &t(0));
    enemy.update_health(-45);
    let created = enemy.update(&settings, &mut manager, &t(999));
    assert!(!created.laser_cannon_top_shoots);
    let created = enemy.update(&settings, &mut manager, &t(1000));
    assert!(created.laser_cannon_top_shoots);
    assert!(!created.laser_cannon_bottom_shoots);
    enemy.update_health(-30);
    let created = enemy.update(&settings, &mut manager, &t(2000));
    assert!(created.laser_cannon_top_shoots);
    assert!(created.laser_cannon_bottom_shoots);
}

#[test]
fn normal_enemy_takes_player_laser_damage() {
    let (mut manager, _) = sounds();
    let mut settings = normal_settings();
    settings.settings_easy();
    let mut enemy = Enemy::new();
    enemy.health();
    assert!(!enemy.hit_by_player_laser(PlayerLaserHits { shield: true, ..NO_HITS }, &settings, &mut manager));
    assert!(enemy.hit_by_player_laser(PlayerLaserHits { enemy: true, ..NO_HITS }, &settings, &mut manager));
    assert_eq!(enemy.health(), Some(95));
}

#[test]
fn game_is_won_after_the_enemy_explodes() {
    let (mut manager, counts) = sounds();
    let mut logic = Logic::new();
    assert_eq!(logic.reset_game(Difficulty::Easy, 3, &t(0)), (Some(100), Some(100)));
    assert!(logic.game_running());
    assert_eq!(logic.level(), 3);
    let status = logic.update(&mut manager, &t(10));
    assert_eq!((status.player_health, status.enemy_health, status.exploded, status.gui_state), (None, None, None, None));
    // Twenty hits of five damage after the shield is down.
    let bottom = PlayerLaserHits { laser_cannon_bottom: true, ..NO_HITS };
    let top = PlayerLaserHits { laser_cannon_top: true, ..NO_HITS };
    logic.player_laser_hits(bottom, &mut manager);
    logic.player_laser_hits(top, &mut manager);
    logic.update_enemy(&mut manager, &t(20));
    for _ in 0..20 {
        assert!(logic.player_laser_hits(PlayerLaserHits { enemy: true, ..NO_HITS }, &mut manager));
    }
    let status = logic.update(&mut manager, &t(30));
    assert_eq!(status.enemy_health, Some(0));
    assert_eq!(status.exploded, Some(ExplodedObject::Enemy));
    assert_eq!(status.new_particles, 0);
    assert!(!logic.game_running());
    assert!(logic.get_explosion().visible());
    let status = logic.update(&mut manager, &t(499));
    assert_eq!(status.new_particles, 0);
    let status = logic.update(&mut manager, &t(500));
    assert_eq!(status.new_particles, 15);
    assert_eq!(played(&mut manager, &counts)[1], 1);
    let status = logic.update(&mut manager, &t(2029));
    assert_eq!(status.gui_state, None);
    let status = logic.update(&mut manager, &t(2030));
    assert_eq!(status.gui_state, Some(GUIState::PlayerWinsScreen));
    assert!(!logic.get_enemy().visible());
    assert!(logic.get_player().visible());
    assert!(!logic.get_explosion().visible());
}

#[test]
fn game_is_lost_when_the_player_has_no_health() {
    let (mut manager, _) = sounds();
    let mut logic = Logic::new();
    logic.reset_game(Difficulty::Hard, 0, &t(0));
    for _ in 0..3 {
        logic.laser_bomb_hits_player();
    }
    logic.enemy_laser_hits_player();
    let status = logic.update(&mut manager, &t(5));
    assert_eq!(status.player_health, Some(0));
    assert_eq!(status.exploded, Some(ExplodedObject::Player));
    let status = logic.update(&mut manager, &t(2005));
    assert_eq!(status.gui_state, Some(GUIState::GameOverScreen));
    assert!(!logic.get_player().visible());
    assert!(logic.get_enemy().visible());
}

#[test]
fn next_level_keeps_the_difficulty() {
    let (mut manager, _) = sounds();
    let mut logic = Logic::new();
    logic.reset_game(Difficulty::Hard, 0, &t(0));
    assert_eq!(logic.reset_to_next_level(&t(100)), (Some(100), Some(100)));
    assert_eq!(logic.level(), 1);
    assert_eq!(logic.get_enemy().enemy_type(), EnemyType::Shield);
    // Hard difficulty shoots every 750 milliseconds.
    assert!(logic.update_enemy(&mut manager, &t(850)).lasers.is_some());
    let touching = EnemyContacts { enemy: true, ..NO_CONTACTS };
    assert!(logic.update_player(true, touching, &mut manager, &t(400)));
    let status = logic.update(&mut manager, &t(400));
    assert_eq!(status.player_health, Some(94));
}

#[test]
fn particle_lifetime_is_between_500_and_900() {
    let mut rng = rand::thread_rng();
    for _ in 0..1000 {
        let lifetime = particle_lifetime_milliseconds(&mut rng);
        assert!(500 <= lifetime && lifetime < 900);
    }
}

/// Adds one to each number and removes the numbers that were even; keeps its
/// answers and the numbers it checked.
struct RemoveEven(Vec<bool>, Vec<u32>);

impl ObjectCheck<u32> for RemoveEven {
    fn answers(&self) -> Vec<bool> {
        self.0.clone()
    }

    fn checked(&self) -> Vec<u32> {
        self.1.clone()
    }

    fn check(&mut self, object: &mut u32) -> bool {
        *object += 1;
        let remove = *object % 2 == 1;
        self.0.push(remove);
        self.1.push(*object);
        remove
    }
}

#[test]
fn update_removes_marked_objects_and_keeps_the_others() {
    let mut objects: Vec<u32> = vec![0, 1, 2, 3, 4, 5, 7];
    let mut index_buffer = Vec::new();
    let mut check = RemoveEven(Vec::new(), Vec::new());
    objects.update(&mut index_buffer, &mut check);
    assert!(index_buffer.is_empty());
    assert_eq!(check.answers(), vec![true, false, true, false, true, false, false]);
    assert_eq!(check.checked(), vec![1, 2, 3, 4, 5, 6, 8]);
    // Removed last position first, each by `swap_remove`.
    assert_eq!(objects, vec![8, 2, 6, 4]);
    let mut nothing: Vec<u32> = Vec::new();
    nothing.update(&mut index_buffer, &mut check);
    assert!(nothing.is_empty());
    assert_eq!(check.answers().len(), 7);
}

#[test]
fn particle_lifetime_from_random_number() {
    assert_eq!(particle_lifetime_of(0), 500);
    assert_eq!(particle_lifetime_of(399), 899);
    assert_eq!(particle_lifetime_of(400), 500);
    assert_eq!(particle_lifetime_of(1234), 534);
    assert_eq!(particle_lifetime_of(u32::MAX), 595);
}
