//! Game logic: difficulty settings, health, game rules and game object containers.
//!
//! Positions, movement and collisions of game objects are floating point and
//! are not part of this module; the rules that decide on integers are.

use vstd::prelude::*;
use crate::gui::GUIState;
use crate::utils::{TimeMilliseconds, Timer};
use crate::audio::{Audio, SoundEffectManager, SoundEffectPlayer};

pub mod common;
use rand::{Rng, ThreadRng};

verus! {

/// Game's difficulty levels.
#[derive(Copy, Clone, PartialEq, Eq, Structural, Debug)]
pub enum Difficulty {
    Easy,
    Normal,
    Hard,
}

/// Laser colors.
#[derive(Copy, Clone, PartialEq, Eq, Structural, Debug)]
pub enum LaserColor {
    Red,
    Green,
    Blue,
}

/// Current mode of the Enemy game object.
#[derive(Copy, Clone, PartialEq, Eq, Structural, Debug)]
pub enum EnemyType {
    Normal,
    Shield,
}

/// The thread's random number generator of the `rand` crate.
#[verifier::external_type_specification]
#[verifier::external_body]
pub struct ExThreadRng(ThreadRng);

/// Calls `rand::Rng::gen::<u32>` on the thread's generator. The result is
/// random: nothing is stated of it.
#[verifier::external_body]
fn random_u32(rng: &mut ThreadRng) -> u32 {
    rng.gen::<u32>()
}

/// Lifetime of an explosion particle from random number `random`: at least
/// 500 and less than 900 milliseconds.
pub fn particle_lifetime_of(random: u32) -> (milliseconds: u32)
    ensures
        milliseconds == random % 400 + 500,
        500 <= milliseconds < 900,
{
    random % 400 + 500
}

/// Lifetime of an explosion particle: `particle_lifetime_of` a random number
/// of the thread's generator.
pub fn particle_lifetime_milliseconds(rng: &mut ThreadRng) -> (milliseconds: u32)
    ensures
        exists|random: u32| milliseconds == #[trigger] (random % 400) + 500,
        500 <= milliseconds < 900,
{
    let r = random_u32(rng);
    particle_lifetime_of(r)
}

/// Player's health at the start of a level.
pub const PLAYER_MAX_HEALTH: i32 = 100;

/// Enemy's health at the start of a level.
pub const ENEMY_MAX_HEALTH: i32 = 100;

/// Index of the last level.
pub const LAST_LEVEL_INDEX: u32 = 3;

/// Damage of a laser bomb hit.
pub const LASER_BOMB_DAMAGE: i32 = 30;

/// Milliseconds between laser bombs at the beginning.
pub const ENEMY_MILLISECONDS_BETWEEN_LASER_BOMBS_BEGINNING: u32 = 3750;

/// Milliseconds between laser bombs when the enemy's health is at most 40.
pub const ENEMY_MILLISECONDS_BETWEEN_LASER_BOMBS_HEALTH_40: u32 = 2500;

/// Milliseconds between laser bombs when the enemy's health is at most 20.
pub const ENEMY_MILLISECONDS_BETWEEN_LASER_BOMBS_HEALTH_20: u32 = 1250;

/// Settings depending on current game difficulty.
pub struct LogicSettings {
    pub player_laser_damage: i32,
    pub enemy_laser_damage: i32,
    pub enemy_hit_damage_16_milliseconds: i32,
    pub enemy_shooting_speed_milliseconds: u32,
    pub difficulty: Difficulty,
}

impl LogicSettings {
    /// Damages are never negative, as in every difficulty's settings.
    pub open spec fn wf(&self) -> bool {
        &&& self.player_laser_damage >= 0
        &&& self.enemy_laser_damage >= 0
        &&& self.enemy_hit_damage_16_milliseconds >= 0
    }

    /// Create new `LogicSettings`.
    pub fn new() -> (settings: LogicSettings)
        ensures
            settings == (LogicSettings {
                player_laser_damage: 0,
                enemy_laser_damage: 0,
                enemy_hit_damage_16_milliseconds: 0,
                enemy_shooting_speed_milliseconds: 0,
                difficulty: Difficulty::Normal,
            }),
    {
        LogicSettings {
            player_laser_damage: 0,
            enemy_laser_damage: 0,
            enemy_hit_damage_16_milliseconds: 0,
            enemy_shooting_speed_milliseconds: 0,
            difficulty: Difficulty::Normal,
        }
    }

    /// Set settings for difficulty level easy.
    pub fn settings_easy(&mut self)
        ensures
            *final(self) == (LogicSettings {
                player_laser_damage: 5,
                enemy_laser_damage: 5,
                enemy_hit_damage_16_milliseconds: 3,
                enemy_shooting_speed_milliseconds: 1500,
                difficulty: Difficulty::Easy,
            }),
    {
        self.player_laser_damage = 5;
        self.enemy_laser_damage = 5;
        self.enemy_hit_damage_16_milliseconds = 3;
        self.enemy_shooting_speed_milliseconds = 1500;
        self.difficulty = Difficulty::Easy;
    }

    /// Set settings for difficulty level normal.
    pub fn settings_normal(&mut self)
        ensures
            *final(self) == (LogicSettings {
                player_laser_damage: 3,
                enemy_laser_damage: 10,
                enemy_hit_damage_16_milliseconds: 6,
                enemy_shooting_speed_milliseconds: 1000,
                difficulty: Difficulty::Normal,
            }),
    {
        self.player_laser_damage = 3;
        self.enemy_laser_damage = 10;
        self.enemy_hit_damage_16_milliseconds = 6;
        self.enemy_shooting_speed_milliseconds = 1000;
        self.difficulty = Difficulty::Normal;
    }

    /// Set settings for difficulty level hard.
    pub fn settings_hard(&mut self)
        ensures
            *final(self) == (LogicSettings {
                player_laser_damage: 2,
                enemy_laser_damage: 10,
                enemy_hit_damage_16_milliseconds: 6,
                enemy_shooting_speed_milliseconds: 750,
                difficulty: Difficulty::Hard,
            }),
    {
        self.player_laser_damage = 2;
        self.enemy_laser_damage = 10;
        self.enemy_hit_damage_16_milliseconds = 6;
        self.enemy_shooting_speed_milliseconds = 750;
        self.difficulty = Difficulty::Hard;
    }
}

/// Health after adding `amount` to `health`: never below zero.
pub open spec fn health_after(health: int, amount: int) -> int {
    if health + amount < 0 { 0 } else { health + amount }
}

/// Health of the player or the enemy, and whether the health bar has seen its
/// last change.
pub struct Health {
    health: i32,
    health_update: bool,
}

impl Health {
    /// Current health.
    pub closed spec fn value(&self) -> i32 {
        self.health
    }

    /// Is there a change of health not yet read.
    pub closed spec fn updated(&self) -> bool {
        self.health_update
    }

    /// Health is never negative.
    pub open spec fn wf(&self) -> bool {
        self.value() >= 0
    }

    /// Full health, not yet read.
    pub fn new(max_health: i32) -> (health: Health)
        requires
            max_health >= 0,
        ensures
            health.wf(),
            health.value() == max_health,
            health.updated(),
    {
        Health { health: max_health, health_update: true }
    }

    /// Adds argument amount to health. Health stays greater or equal to zero.
    pub fn update_health(&mut self, amount: i32)
        requires
            old(self).wf(),
            old(self).value() + amount <= i32::MAX,
        ensures
            final(self).wf(),
            final(self).value() == health_after(old(self).value() as int, amount as int),
            final(self).updated(),
    {
        self.health += amount;
        if self.health < 0 {
            self.health = 0;
        }
        self.health_update = true;
    }

    /// Get current health if there is an health update occurred.
    pub fn health(&mut self) -> (health: Option<u32>)
        requires
            old(self).wf(),
        ensures
            final(self).wf(),
            final(self).value() == old(self).value(),
            !final(self).updated(),
            health == if old(self).updated() { Some(old(self).value() as u32) } else { None },
    {
        if self.health_update {
            self.health_update = false;
            Some(self.health as u32)
        } else {
            None
        }
    }
}

/// Kind of the enemy of a level: levels 0 and 2 have the normal enemy, the
/// other levels the enemy with a shield.
pub fn enemy_type_for_level(level: u32) -> (enemy_type: EnemyType)
    ensures
        enemy_type == if level == 0 || level == 2 { EnemyType::Normal } else { EnemyType::Shield },
{
    if level == 0 || level == 2 {
        EnemyType::Normal
    } else {
        EnemyType::Shield
    }
}

/// Does the enemy launch laser bombs on `level`: from level 2 on.
pub fn laser_bombs_enabled(level: u32) -> (enabled: bool)
    ensures
        enabled == (level >= 2),
{
    level >= 2
}

/// Time between the enemy's laser bombs. It shortens when the enemy's health
/// gets low, sooner on harder difficulties.
pub open spec fn laser_bomb_interval(difficulty: Difficulty, enemy_health: int) -> u32 {
    if difficulty == Difficulty::Hard && enemy_health <= 20 {
        ENEMY_MILLISECONDS_BETWEEN_LASER_BOMBS_HEALTH_20
    } else if (difficulty == Difficulty::Hard || difficulty == Difficulty::Normal) && enemy_health <= 40 {
        ENEMY_MILLISECONDS_BETWEEN_LASER_BOMBS_HEALTH_40
    } else {
        ENEMY_MILLISECONDS_BETWEEN_LASER_BOMBS_BEGINNING
    }
}

/// Time between the enemy's laser bombs, as `laser_bomb_interval` states it.
pub fn milliseconds_between_laser_bombs(difficulty: Difficulty, enemy_health: i32) -> (milliseconds: u32)
    ensures
        milliseconds == laser_bomb_interval(difficulty, enemy_health as int),
{
    if difficulty == Difficulty::Hard && enemy_health <= 20 {
        ENEMY_MILLISECONDS_BETWEEN_LASER_BOMBS_HEALTH_20
    } else if (difficulty == Difficulty::Hard || difficulty == Difficulty::Normal) && enemy_health <= 40 {
        ENEMY_MILLISECONDS_BETWEEN_LASER_BOMBS_HEALTH_40
    } else {
        ENEMY_MILLISECONDS_BETWEEN_LASER_BOMBS_BEGINNING
    }
}

/// The lasers that the enemy shoots at once: straight ahead, and turned up or
/// down from it.
#[derive(Copy, Clone, PartialEq, Eq, Structural, Debug)]
pub struct EnemyLaserShots {
    pub straight: bool,
    pub turned_up: bool,
    pub turned_down: bool,
}

/// Lasers of one enemy shot: the shielded enemy shoots three lasers; the normal
/// enemy shoots one, two when its health is under 40 and three under 20.
pub open spec fn laser_shots_of(enemy_type: EnemyType, enemy_health: int) -> EnemyLaserShots {
    EnemyLaserShots {
        straight: true,
        turned_up: enemy_type == EnemyType::Shield || enemy_health < 40,
        turned_down: enemy_type == EnemyType::Shield || enemy_health < 20,
    }
}

/// Lasers of one enemy shot, as `laser_shots_of` states them.
pub fn enemy_laser_shots(enemy_type: EnemyType, enemy_health: i32) -> (shots: EnemyLaserShots)
    ensures
        shots == laser_shots_of(enemy_type, enemy_health as int),
{
    if let EnemyType::Shield = enemy_type {
        EnemyLaserShots { straight: true, turned_up: true, turned_down: true }
    } else {
        if enemy_health < 20 {
            EnemyLaserShots { straight: true, turned_up: true, turned_down: true }
        } else if enemy_health < 40 {
            EnemyLaserShots { straight: true, turned_up: true, turned_down: false }
        } else {
            EnemyLaserShots { straight: true, turned_up: false, turned_down: false }
        }
    }
}

/// Laser cannons of the shielded enemy that shoot lasers: the top one from
/// health under 60, both from health under 30. Once on, a cannon stays on.
pub fn update_laser_cannons_enabled(enemy_health: i32, top: &mut bool, bottom: &mut bool)
    ensures
        *final(top) == (*old(top) || enemy_health < 60),
        *final(bottom) == (*old(bottom) || enemy_health < 30),
{
    if enemy_health < 30 {
        *bottom = true;
        *top = true;
    } else if enemy_health < 60 {
        *top = true;
    }
}

/// GUI state after the explosion that ends a level: game over when the player
/// has no health left, otherwise the player wins the game on the last level
/// and goes to the next level before it.
pub open spec fn level_end(player_health: int, level: u32) -> GUIState {
    if player_health == 0 {
        GUIState::GameOverScreen
    } else if level == LAST_LEVEL_INDEX {
        GUIState::PlayerWinsScreen
    } else {
        GUIState::NextLevelScreen
    }
}

/// GUI state after the explosion that ends a level, as `level_end` states it.
pub fn level_end_state(player_health: i32, level: u32) -> (state: GUIState)
    ensures
        state == level_end(player_health as int, level),
{
    if player_health == 0 {
        GUIState::GameOverScreen
    } else if level == LAST_LEVEL_INDEX {
        GUIState::PlayerWinsScreen
    } else {
        GUIState::NextLevelScreen
    }
}

/// Milliseconds between the shield's disabling and its enabling.
pub const SHIELD_DISABLED_MILLISECONDS: u32 = 10_000;

/// Milliseconds between the lasers of a laser cannon.
pub const LASER_CANNON_MILLISECONDS_BETWEEN_LASERS: u32 = 1000;

/// Milliseconds between the light color changes of a laser cannon.
pub const LASER_CANNON_LIGHT_TOGGLE_MILLISECONDS: u32 = 400;

/// Milliseconds between the player's lasers.
pub const PLAYER_MILLISECONDS_BETWEEN_LASERS: u32 = 300;

/// Milliseconds between the damages of the player touching the enemy.
pub const ENEMY_HIT_DAMAGE_MILLISECONDS: u32 = 16;

/// Milliseconds that an explosion is visible.
pub const EXPLOSION_VISIBILITY_TIME_MILLISECONDS: u32 = 2000;

/// Number of particles that an explosion creates at once.
pub const EXPLOSION_PARTICLE_COUNT: u32 = 15;

/// Milliseconds between the particle creations of an explosion.
pub const EXPLOSION_MILLISECONDS_BETWEEN_PARTICLE_CREATION: u32 = 500;

/// Shield protecting the enemy: its visibility and the timer that enables it again.
pub struct Shield {
    visible: bool,
    timer: Timer,
}

impl Shield {
    /// Is the shield visible.
    pub closed spec fn spec_visible(&self) -> bool {
        self.visible
    }

    /// Time of the shield's last disabling.
    pub closed spec fn disabled_at(&self) -> u32 {
        self.timer.reset_time()
    }

    /// Create new `Shield`.
    pub fn new() -> (shield: Shield)
        ensures
            !shield.spec_visible(),
            shield.disabled_at() == 0,
    {
        Shield { visible: false, timer: Timer::new() }
    }

    /// Reset shield visibility depending on current enemy type.
    pub fn reset(&mut self, enemy_type: EnemyType)
        ensures
            final(self).spec_visible() == (enemy_type == EnemyType::Shield),
            final(self).disabled_at() == old(self).disabled_at(),
    {
        if let EnemyType::Shield = enemy_type {
            self.visible = true;
        } else {
            self.visible = false;
        }
    }

    /// Enables a disabled shield when it has been disabled for
    /// `SHIELD_DISABLED_MILLISECONDS`. Returns true if the shield was enabled now.
    pub fn update(&mut self, current_time: &TimeMilliseconds) -> (enabled: bool)
        requires
            old(self).disabled_at() <= current_time.0,
        ensures
            enabled == (!old(self).spec_visible() && current_time.0 - old(self).disabled_at() >= SHIELD_DISABLED_MILLISECONDS),
            final(self).spec_visible() == (old(self).spec_visible() || enabled),
            final(self).disabled_at() == if enabled { current_time.0 } else { old(self).disabled_at() },
    {
        if !self.visible && self.timer.check(current_time, SHIELD_DISABLED_MILLISECONDS) {
            self.visible = true;
            true
        } else {
            false
        }
    }

    /// Return true if shield is visible.
    pub fn visible(&self) -> (visible: bool)
        ensures
            visible == self.spec_visible(),
    {
        self.visible
    }

    /// Disables shield.
    pub fn disable(&mut self, current_time: &TimeMilliseconds)
        ensures
            !final(self).spec_visible(),
            final(self).disabled_at() == current_time.0,
    {
        self.timer.reset(current_time);
        self.visible = false;
    }
}

/// Mathematical model of a `LaserCannon`.
pub struct LaserCannonModel {
    pub visible: bool,
    pub laser_time: u32,
    pub parent_object_shield_enabled: bool,
    pub laser_enabled: bool,
    pub light_time: u32,
    pub red_light: bool,
}

/// Does laser cannon `c` shoot when updated at time `t`: it is visible, its
/// lasers are enabled and `LASER_CANNON_MILLISECONDS_BETWEEN_LASERS` have passed.
pub open spec fn cannon_shoots(c: LaserCannonModel, t: u32) -> bool {
    c.visible && c.laser_enabled && t - c.laser_time >= LASER_CANNON_MILLISECONDS_BETWEEN_LASERS
}

/// Does the light of laser cannon `c` change color when updated at time `t`:
/// it is visible, its part of the shield is off and
/// `LASER_CANNON_LIGHT_TOGGLE_MILLISECONDS` have passed.
pub open spec fn cannon_light_toggles(c: LaserCannonModel, t: u32) -> bool {
    c.visible && !c.parent_object_shield_enabled && t - c.light_time >= LASER_CANNON_LIGHT_TOGGLE_MILLISECONDS
}

/// Laser cannon `c` after an update at time `t`.
pub open spec fn cannon_after_update(c: LaserCannonModel, t: u32) -> LaserCannonModel {
    let toggle = cannon_light_toggles(c, t);
    LaserCannonModel {
        laser_time: if cannon_shoots(c, t) { t } else { c.laser_time },
        light_time: if toggle { t } else { c.light_time },
        red_light: if toggle { !c.red_light } else { c.red_light },
        ..c
    }
}

/// A new laser cannon: hidden, protected by the shield, not shooting, with a
/// green light, and its timers at zero.
pub open spec fn initial_laser_cannon() -> LaserCannonModel {
    LaserCannonModel {
        visible: false,
        laser_time: 0,
        parent_object_shield_enabled: true,
        laser_enabled: false,
        light_time: 0,
        red_light: false,
    }
}

/// Laser cannon `c` after a reset for an enemy of `enemy_type` at time `t`:
/// the shielded enemy's cannons are visible, protected by the shield, not
/// shooting and with a green light; other enemies' cannons are hidden.
pub open spec fn cannon_after_reset(c: LaserCannonModel, enemy_type: EnemyType, t: u32) -> LaserCannonModel {
    if enemy_type == EnemyType::Shield {
        LaserCannonModel {
            visible: true,
            laser_time: t,
            parent_object_shield_enabled: true,
            laser_enabled: false,
            light_time: t,
            red_light: false,
        }
    } else {
        LaserCannonModel { visible: false, ..c }
    }
}

/// Laser cannon logic.
pub struct LaserCannon {
    visible: bool,
    laser_timer: Timer,
    parent_object_shield_enabled: bool,
    laser_enabled: bool,
    light_color_toggle_timer: Timer,
    red_light: bool,
}

impl View for LaserCannon {
    type V = LaserCannonModel;

    closed spec fn view(&self) -> LaserCannonModel {
        LaserCannonModel {
            visible: self.visible,
            laser_time: self.laser_timer.reset_time(),
            parent_object_shield_enabled: self.parent_object_shield_enabled,
            laser_enabled: self.laser_enabled,
            light_time: self.light_color_toggle_timer.reset_time(),
            red_light: self.red_light,
        }
    }
}

impl LaserCannon {
    /// Create new `LaserCannon`.
    pub fn new() -> (cannon: LaserCannon)
        ensures
            cannon@ == initial_laser_cannon(),
    {
        LaserCannon {
            visible: false,
            laser_timer: Timer::new(),
            parent_object_shield_enabled: true,
            laser_enabled: false,
            light_color_toggle_timer: Timer::new(),
            red_light: false,
        }
    }

    /// Reset laser cannon state: the shielded enemy's cannons are visible,
    /// protected by the shield and not shooting.
    pub fn reset(&mut self, enemy_type: EnemyType, current_time: &TimeMilliseconds)
        ensures
            final(self)@ == cannon_after_reset(old(self)@, enemy_type, current_time.0),
    {
        if let EnemyType::Shield = enemy_type {
            self.visible = true;
        } else {
            self.visible = false;
            return;
        }
        self.laser_timer.reset(current_time);
        self.light_color_toggle_timer.reset(current_time);
        self.parent_object_shield_enabled = true;
        self.laser_enabled = false;
        self.red_light = false;
    }

    /// Updates a visible cannon: returns true when it shoots a laser, every
    /// `LASER_CANNON_MILLISECONDS_BETWEEN_LASERS` once its lasers are enabled; while
    /// its shield is off, its light changes color every `LASER_CANNON_LIGHT_TOGGLE_MILLISECONDS`.
    pub fn update(&mut self, current_time: &TimeMilliseconds) -> (shoots: bool)
        requires
            old(self)@.laser_time <= current_time.0,
            old(self)@.light_time <= current_time.0,
        ensures
            shoots == cannon_shoots(old(self)@, current_time.0),
            final(self)@ == cannon_after_update(old(self)@, current_time.0),
    {
        if !self.visible {
            return false;
        }
        let shoots = self.laser_enabled && self.laser_timer.check(current_time, LASER_CANNON_MILLISECONDS_BETWEEN_LASERS);
        if !self.parent_object_shield_enabled && self.light_color_toggle_timer.check(current_time, LASER_CANNON_LIGHT_TOGGLE_MILLISECONDS) {
            self.red_light = !self.red_light;
        }
        shoots
    }

    /// A laser of the player hits the cannon: the cannon's part of the shield
    /// goes off. The hit sound plays when the shield part was on.
    pub fn hit_by_laser<A: Audio>(&mut self, sounds: &mut SoundEffectManager<A>)
        ensures
            final(self)@ == (LaserCannonModel { parent_object_shield_enabled: false, ..old(self)@ }),
            final(sounds).has_sound_effects() == old(sounds).has_sound_effects(),
            final(sounds).pending() == if old(self)@.parent_object_shield_enabled {
                crate::audio::PendingSoundEffects { player_laser_hits_laser_cannon: true, ..old(sounds).pending() }
            } else {
                old(sounds).pending()
            },
    {
        if self.parent_object_shield_enabled {
            sounds.player_laser_hits_laser_cannon();
        }
        self.parent_object_shield_enabled = false;
    }

    /// The shield is enabled again: the cannon's part of it is on and its light is green.
    pub fn shield_enabled(&mut self)
        ensures
            final(self)@ == (LaserCannonModel { parent_object_shield_enabled: true, red_light: false, ..old(self)@ }),
    {
        self.parent_object_shield_enabled = true;
        self.red_light = false;
    }

    /// Is the cannon's part of the shield on.
    pub fn parent_object_shield_enabled(&self) -> (enabled: bool)
        ensures
            enabled == self@.parent_object_shield_enabled,
    {
        self.parent_object_shield_enabled
    }

    /// Return true if laser cannon is visible.
    pub fn visible(&self) -> (visible: bool)
        ensures
            visible == self@.visible,
    {
        self.visible
    }

    /// Return true if laser cannon's red light is enabled.
    pub fn red_light(&self) -> (red: bool)
        ensures
            red == self@.red_light,
    {
        self.red_light
    }
}

/// Mathematical model of an `Explosion`.
pub struct ExplosionModel {
    pub visible: bool,
    pub started_at: u32,
    pub particles_created_at: u32,
    pub particle_count: u32,
    pub milliseconds_between_particle_generation: u32,
}

/// Does explosion `x` create particles when updated at time `t`: it is
/// visible and `milliseconds_between_particle_generation` have passed.
pub open spec fn explosion_creates_particles(x: ExplosionModel, t: u32) -> bool {
    x.visible && t - x.particles_created_at >= x.milliseconds_between_particle_generation
}

/// Explosion: when it shows and when it creates particles. The particles
/// themselves move in floating point and are not part of this type.
pub struct Explosion {
    visible: bool,
    timer: Timer,
    particle_creation_timer: Timer,
    particle_count: u32,
    milliseconds_between_particle_generation: u32,
}

impl View for Explosion {
    type V = ExplosionModel;

    closed spec fn view(&self) -> ExplosionModel {
        ExplosionModel {
            visible: self.visible,
            started_at: self.timer.reset_time(),
            particles_created_at: self.particle_creation_timer.reset_time(),
            particle_count: self.particle_count,
            milliseconds_between_particle_generation: self.milliseconds_between_particle_generation,
        }
    }
}

impl Explosion {
    /// Create new `Explosion` that creates `particle_count` particles every
    /// `milliseconds_between_particle_generation` while it is visible.
    pub fn new(particle_count: u32, milliseconds_between_particle_generation: u32) -> (explosion: Explosion)
        ensures
            explosion@ == (ExplosionModel {
                visible: false,
                started_at: 0,
                particles_created_at: 0,
                particle_count,
                milliseconds_between_particle_generation,
            }),
    {
        Explosion {
            visible: false,
            timer: Timer::new(),
            particle_creation_timer: Timer::new(),
            particle_count,
            milliseconds_between_particle_generation,
        }
    }

    /// Starts the explosion at `current_time`: it becomes visible. Its
    /// position and the clearing of old particles are the caller's part.
    pub fn start_explosion(&mut self, current_time: &TimeMilliseconds)
        ensures
            final(self)@ == (ExplosionModel { visible: true, started_at: current_time.0, ..old(self)@ }),
    {
        self.timer.reset(current_time);
        self.visible = true;
    }

    /// Return true if explosion is finished: `EXPLOSION_VISIBILITY_TIME_MILLISECONDS`
    /// have passed from its start. A finished explosion is hidden.
    pub fn explosion_finished(&mut self, current_time: &TimeMilliseconds) -> (finished: bool)
        requires
            old(self)@.started_at <= current_time.0,
        ensures
            finished == (current_time.0 - old(self)@.started_at >= EXPLOSION_VISIBILITY_TIME_MILLISECONDS),
            final(self)@ == if finished {
                ExplosionModel { visible: false, started_at: current_time.0, ..old(self)@ }
            } else {
                old(self)@
            },
    {
        if self.timer.check(current_time, EXPLOSION_VISIBILITY_TIME_MILLISECONDS) {
            self.visible = false;
            true
        } else {
            false
        }
    }

    /// Updates a visible explosion: returns how many new particles to create
    /// now. Particles are created, with the explosion sound, every
    /// `milliseconds_between_particle_generation`; an explosion that is not
    /// visible creates none.
    pub fn update<A: Audio>(&mut self, sounds: &mut SoundEffectManager<A>, current_time: &TimeMilliseconds) -> (new_particles: u32)
        requires
            old(self)@.particles_created_at <= current_time.0,
        ensures
            ({
                let o = old(self)@;
                let create = explosion_creates_particles(o, current_time.0);
                &&& new_particles == if create { o.particle_count } else { 0 }
                &&& final(self)@ == if create {
                    ExplosionModel { particles_created_at: current_time.0, ..o }
                } else {
                    o
                }
                &&& final(sounds).has_sound_effects() == old(sounds).has_sound_effects()
                &&& final(sounds).pending() == if create {
                    crate::audio::PendingSoundEffects { explosion: true, ..old(sounds).pending() }
                } else {
                    old(sounds).pending()
                }
            }),
    {
        if !self.visible {
            return 0;
        }
        if self.particle_creation_timer.check(current_time, self.milliseconds_between_particle_generation) {
            sounds.explosion();
            self.particle_count
        } else {
            0
        }
    }

    /// Hides explosion.
    pub fn reset(&mut self)
        ensures
            final(self)@ == (ExplosionModel { visible: false, ..old(self)@ }),
    {
        self.visible = false;
    }

    /// Return true if explosion is visible.
    pub fn visible(&self) -> (visible: bool)
        ensures
            visible == self@.visible,
    {
        self.visible
    }
}

/// Milliseconds from the launch of a laser bomb to its explosion.
pub const LASER_BOMB_EXPLOSION_TIME_MILLISECONDS: u32 = 900;

/// Number of lasers that an exploding laser bomb creates.
pub const LASER_BOMB_LASER_COUNT: u32 = 15;

/// Laser bomb: explodes into lasers a while after its launch. Its movement is
/// floating point and not part of this type.
#[derive(Clone, Copy)]
pub struct LaserBomb {
    timer: Timer,
}

impl LaserBomb {
    /// Time of the launch, or of the explosion once the bomb has exploded.
    pub closed spec fn launched_at(&self) -> u32 {
        self.timer.reset_time()
    }

    /// Create new `LaserBomb` launched at `current_time`.
    pub fn new(current_time: &TimeMilliseconds) -> (bomb: LaserBomb)
        ensures
            bomb.launched_at() == current_time.0,
    {
        LaserBomb { timer: Timer::new_from_time(current_time) }
    }

    /// Returns true when the bomb explodes now, `LASER_BOMB_EXPLOSION_TIME_MILLISECONDS`
    /// after its launch, with the laser bomb explosion sound. The exploded bomb
    /// creates `LASER_BOMB_LASER_COUNT` lasers and is removed.
    pub fn update<A: Audio>(&mut self, sounds: &mut SoundEffectManager<A>, current_time: &TimeMilliseconds) -> (explodes: bool)
        requires
            old(self).launched_at() <= current_time.0,
        ensures
            explodes == (current_time.0 - old(self).launched_at() >= LASER_BOMB_EXPLOSION_TIME_MILLISECONDS),
            final(self).launched_at() == if explodes { current_time.0 } else { old(self).launched_at() },
            final(sounds).has_sound_effects() == old(sounds).has_sound_effects(),
            final(sounds).pending() == if explodes {
                crate::audio::PendingSoundEffects { laser_bomb_explosion: true, ..old(sounds).pending() }
            } else {
                old(sounds).pending()
            },
    {
        if self.timer.check(current_time, LASER_BOMB_EXPLOSION_TIME_MILLISECONDS) {
            sounds.laser_bomb_explosion();
            true
        } else {
            false
        }
    }
}

/// Health after a hit of `damage` when `hit`, else unchanged.
pub open spec fn damaged(health: int, damage: int, hit: bool) -> int {
    if hit { health_after(health, -damage) } else { health }
}

/// What the player touches: the enemy and its laser cannons.
#[derive(Copy, Clone, PartialEq, Eq, Structural, Debug)]
pub struct EnemyContacts {
    pub enemy: bool,
    pub laser_cannon_top: bool,
    pub laser_cannon_bottom: bool,
}

/// Mathematical model of a `Player`.
pub struct PlayerModel {
    pub health: i32,
    pub health_updated: bool,
    pub visible: bool,
    pub laser_time: u32,
    pub hit_time: u32,
}

/// A new player: full health not yet read, visible, timers at zero.
pub open spec fn initial_player() -> PlayerModel {
    PlayerModel {
        health: PLAYER_MAX_HEALTH,
        health_updated: true,
        visible: true,
        laser_time: 0,
        hit_time: 0,
    }
}

/// Player: health, visibility and the timers of shooting and of damage from
/// touching the enemy. Movement and lasers are floating point and not part
/// of this type.
pub struct Player {
    health: Health,
    visible: bool,
    laser_timer: Timer,
    enemy_hit_damage_timer: Timer,
}

impl View for Player {
    type V = PlayerModel;

    closed spec fn view(&self) -> PlayerModel {
        PlayerModel {
            health: self.health.value(),
            health_updated: self.health.updated(),
            visible: self.visible,
            laser_time: self.laser_timer.reset_time(),
            hit_time: self.enemy_hit_damage_timer.reset_time(),
        }
    }
}

impl Player {
    /// Health is never negative.
    pub open spec fn wf(&self) -> bool {
        self@.health >= 0
    }

    /// Create new `Player`.
    pub fn new() -> (player: Player)
        ensures
            player.wf(),
            player@ == initial_player(),
    {
        Player {
            health: Health::new(PLAYER_MAX_HEALTH),
            visible: true,
            laser_timer: Timer::new(),
            enemy_hit_damage_timer: Timer::new(),
        }
    }

    /// Reset player's state: full health, visible, and shooting timed from
    /// `current_time`. Its position is the caller's part.
    pub fn reset(&mut self, current_time: &TimeMilliseconds)
        ensures
            final(self).wf(),
            final(self)@ == (PlayerModel {
                health: PLAYER_MAX_HEALTH,
                health_updated: true,
                visible: true,
                laser_time: current_time.0,
                hit_time: old(self)@.hit_time,
            }),
    {
        self.health = Health::new(PLAYER_MAX_HEALTH);
        self.laser_timer.reset(current_time);
        self.visible = true;
    }

    /// Updates player logic. Returns true when the player shoots a new laser:
    /// shooting is pressed and `PLAYER_MILLISECONDS_BETWEEN_LASERS` have passed
    /// since the last laser, which plays the laser sound.
    ///
    /// Every `ENEMY_HIT_DAMAGE_MILLISECONDS`, touching the enemy costs
    /// `enemy_hit_damage_16_milliseconds` of health, and touching one of the
    /// shielded enemy's laser cannons costs it once more.
    pub fn update<A: Audio>(
        &mut self,
        shoot_pressed: bool,
        contacts: EnemyContacts,
        enemy_type: EnemyType,
        logic_settings: &LogicSettings,
        sounds: &mut SoundEffectManager<A>,
        current_time: &TimeMilliseconds,
    ) -> (shoots: bool)
        requires
            old(self).wf(),
            logic_settings.wf(),
            old(self)@.laser_time <= current_time.0,
            old(self)@.hit_time <= current_time.0,
        ensures
            final(self).wf(),
            ({
                let o = old(self)@;
                let t = current_time.0;
                let d = logic_settings.enemy_hit_damage_16_milliseconds as int;
                let shoot = shoot_pressed && t - o.laser_time >= PLAYER_MILLISECONDS_BETWEEN_LASERS;
                let check = t - o.hit_time >= ENEMY_HIT_DAMAGE_MILLISECONDS;
                let hit_enemy = check && contacts.enemy;
                let hit_cannon = check && enemy_type == EnemyType::Shield
                    && (contacts.laser_cannon_top || contacts.laser_cannon_bottom);
                &&& shoots == shoot
                &&& final(self)@ == (PlayerModel {
                    health: damaged(damaged(o.health as int, d, hit_enemy), d, hit_cannon) as i32,
                    health_updated: o.health_updated || hit_enemy || hit_cannon,
                    visible: o.visible,
                    laser_time: if shoot { t } else { o.laser_time },
                    hit_time: if check { t } else { o.hit_time },
                })
                &&& final(sounds).has_sound_effects() == old(sounds).has_sound_effects()
                &&& final(sounds).pending() == if shoot {
                    crate::audio::PendingSoundEffects { laser: true, ..old(sounds).pending() }
                } else {
                    old(sounds).pending()
                }
            }),
    {
        let shoots = shoot_pressed && self.laser_timer.check(current_time, PLAYER_MILLISECONDS_BETWEEN_LASERS);
        if shoots {
            sounds.laser();
        }
        if self.enemy_hit_damage_timer.check(current_time, ENEMY_HIT_DAMAGE_MILLISECONDS) {
            let damage = logic_settings.enemy_hit_damage_16_milliseconds;
            if contacts.enemy {
                self.health.update_health(-damage);
            }
            if let EnemyType::Shield = enemy_type {
                if contacts.laser_cannon_top {
                    self.health.update_health(-damage);
                } else if contacts.laser_cannon_bottom {
                    self.health.update_health(-damage);
                }
            }
        }
        shoots
    }

    /// A laser of the enemy hits the player.
    pub fn hit_by_enemy_laser(&mut self, logic_settings: &LogicSettings)
        requires
            old(self).wf(),
            logic_settings.wf(),
        ensures
            final(self).wf(),
            final(self)@ == (PlayerModel {
                health: health_after(old(self)@.health as int, -logic_settings.enemy_laser_damage) as i32,
                health_updated: true,
                ..old(self)@
            }),
    {
        self.health.update_health(-logic_settings.enemy_laser_damage);
    }

    /// A laser bomb hits the player.
    pub fn hit_by_laser_bomb(&mut self)
        requires
            old(self).wf(),
        ensures
            final(self).wf(),
            final(self)@ == (PlayerModel {
                health: health_after(old(self)@.health as int, -LASER_BOMB_DAMAGE) as i32,
                health_updated: true,
                ..old(self)@
            }),
    {
        self.health.update_health(-LASER_BOMB_DAMAGE);
    }

    /// Adds argument amount to player health. This function will keep health greater or equal to zero.
    pub fn update_health(&mut self, amount: i32)
        requires
            old(self).wf(),
            old(self)@.health + amount <= i32::MAX,
        ensures
            final(self).wf(),
            final(self)@ == (PlayerModel {
                health: health_after(old(self)@.health as int, amount as int) as i32,
                health_updated: true,
                ..old(self)@
            }),
    {
        self.health.update_health(amount);
    }

    /// Get current health if there is an health update occurred.
    pub fn health(&mut self) -> (health: Option<u32>)
        requires
            old(self).wf(),
        ensures
            final(self).wf(),
            final(self)@ == (PlayerModel { health_updated: false, ..old(self)@ }),
            health == if old(self)@.health_updated { Some(old(self)@.health as u32) } else { None },
    {
        self.health.health()
    }

    /// Return true if player is visible.
    pub fn visible(&self) -> (visible: bool)
        ensures
            visible == self@.visible,
    {
        self.visible
    }

    /// Hides the player.
    pub fn set_invisible(&mut self)
        ensures
            final(self)@ == (PlayerModel { visible: false, ..old(self)@ }),
    {
        self.visible = false;
    }
}

/// Where a new laser bomb starts: at the enemy, or at one of the shielded
/// enemy's laser cannons.
#[derive(Copy, Clone, PartialEq, Eq, Structural, Debug)]
pub enum LaserBombOrigin {
    Enemy,
    LaserCannonTop,
    LaserCannonBottom,
}

/// What the enemy creates during one update.
#[derive(Copy, Clone, PartialEq, Eq, Structural, Debug)]
pub struct EnemyUpdate {
    pub lasers: Option<EnemyLaserShots>,
    pub laser_bomb: Option<LaserBombOrigin>,
    pub laser_cannon_top_shoots: bool,
    pub laser_cannon_bottom_shoots: bool,
}

/// What a laser of the player touches: `leaves_screen` when it has flown out
/// of the screen, then the enemy's shield, laser cannons and the enemy itself.
#[derive(Copy, Clone, PartialEq, Eq, Structural, Debug)]
pub struct PlayerLaserHits {
    pub leaves_screen: bool,
    pub shield: bool,
    pub laser_cannon_bottom: bool,
    pub laser_cannon_top: bool,
    pub enemy: bool,
}

/// Mathematical model of an `Enemy`.
pub struct EnemyModel {
    pub health: i32,
    pub health_updated: bool,
    pub visible: bool,
    pub enemy_type: EnemyType,
    pub laser_time: u32,
    pub laser_cannon_top: LaserCannonModel,
    pub laser_cannon_bottom: LaserCannonModel,
    pub laser_cannon_top_laser_bomb_shooting_turn: bool,
    pub laser_bomb_time: u32,
    pub laser_bomb_enabled: bool,
    pub shield_visible: bool,
    pub shield_disabled_at: u32,
}

/// No timer of enemy `e` is later than time `t`.
pub open spec fn enemy_timers_at_most(e: EnemyModel, t: u32) -> bool {
    &&& e.laser_time <= t
    &&& e.laser_bomb_time <= t
    &&& e.shield_disabled_at <= t
    &&& e.laser_cannon_top.laser_time <= t
    &&& e.laser_cannon_top.light_time <= t
    &&& e.laser_cannon_bottom.laser_time <= t
    &&& e.laser_cannon_bottom.light_time <= t
}

/// Does enemy `e` shoot its lasers at time `t`.
pub open spec fn enemy_shot_due(e: EnemyModel, settings: LogicSettings, t: u32) -> bool {
    t - e.laser_time >= settings.enemy_shooting_speed_milliseconds
}

/// Enemy `e` after its laser shooting at time `t`.
pub open spec fn after_enemy_shot(e: EnemyModel, settings: LogicSettings, t: u32) -> EnemyModel {
    if enemy_shot_due(e, settings, t) { EnemyModel { laser_time: t, ..e } } else { e }
}

/// Does enemy `e` launch a laser bomb at time `t`.
pub open spec fn laser_bomb_due(e: EnemyModel, difficulty: Difficulty, t: u32) -> bool {
    e.laser_bomb_enabled && t - e.laser_bomb_time >= laser_bomb_interval(difficulty, e.health as int)
}

/// Where enemy `e` launches its next laser bomb: the shielded enemy's
/// laser cannons take turns, the top one first.
pub open spec fn laser_bomb_origin(e: EnemyModel) -> LaserBombOrigin {
    if e.enemy_type == EnemyType::Normal {
        LaserBombOrigin::Enemy
    } else if e.laser_cannon_top_laser_bomb_shooting_turn {
        LaserBombOrigin::LaserCannonTop
    } else {
        LaserBombOrigin::LaserCannonBottom
    }
}

/// Enemy `e` after its laser bomb launching at time `t`.
pub open spec fn after_laser_bomb(e: EnemyModel, difficulty: Difficulty, t: u32) -> EnemyModel {
    if laser_bomb_due(e, difficulty, t) {
        EnemyModel {
            laser_bomb_time: t,
            laser_cannon_top_laser_bomb_shooting_turn: if e.enemy_type == EnemyType::Shield {
                !e.laser_cannon_top_laser_bomb_shooting_turn
            } else {
                e.laser_cannon_top_laser_bomb_shooting_turn
            },
            ..e
        }
    } else {
        e
    }
}

/// Is the shield of enemy `e` enabled again at time `t`.
pub open spec fn shield_enables(e: EnemyModel, t: u32) -> bool {
    !e.shield_visible && t - e.shield_disabled_at >= SHIELD_DISABLED_MILLISECONDS
}

/// Enemy `e` after the shield steps at time `t` that come before the laser
/// cannons' own updates: the shield comes back after being off long enough,
/// which puts both cannons' parts of it on; it goes off when both cannons'
/// parts are off; and the cannons' lasers are enabled by low health.
pub open spec fn before_laser_cannon_updates(e: EnemyModel, t: u32) -> EnemyModel {
    let e1 = if shield_enables(e, t) {
        EnemyModel {
            shield_visible: true,
            shield_disabled_at: t,
            laser_cannon_top: LaserCannonModel { parent_object_shield_enabled: true, red_light: false, ..e.laser_cannon_top },
            laser_cannon_bottom: LaserCannonModel { parent_object_shield_enabled: true, red_light: false, ..e.laser_cannon_bottom },
            ..e
        }
    } else {
        e
    };
    let e2 = if e1.shield_visible && !e1.laser_cannon_top.parent_object_shield_enabled
        && !e1.laser_cannon_bottom.parent_object_shield_enabled {
        EnemyModel { shield_visible: false, shield_disabled_at: t, ..e1 }
    } else {
        e1
    };
    EnemyModel {
        laser_cannon_top: LaserCannonModel {
            laser_enabled: e2.laser_cannon_top.laser_enabled || e2.health < 60,
            ..e2.laser_cannon_top
        },
        laser_cannon_bottom: LaserCannonModel {
            laser_enabled: e2.laser_cannon_bottom.laser_enabled || e2.health < 30,
            ..e2.laser_cannon_bottom
        },
        ..e2
    }
}

/// Enemy `e` after the shield and laser cannon update at time `t`; only the
/// shielded enemy has them.
pub open spec fn after_shield_and_laser_cannons(e: EnemyModel, t: u32) -> EnemyModel {
    if e.enemy_type == EnemyType::Shield {
        let e3 = before_laser_cannon_updates(e, t);
        EnemyModel {
            laser_cannon_top: cannon_after_update(e3.laser_cannon_top, t),
            laser_cannon_bottom: cannon_after_update(e3.laser_cannon_bottom, t),
            ..e3
        }
    } else {
        e
    }
}

/// Enemy `e` after a laser of the player with `hits` at its state:
/// the laser is absorbed by a visible shield, turns off a cannon's part of the
/// shield, or costs the enemy `damage` of health when no shield protects it.
pub open spec fn after_player_laser(e: EnemyModel, damage: int, hits: PlayerLaserHits) -> EnemyModel {
    let hurt = EnemyModel { health: health_after(e.health as int, -damage) as i32, health_updated: true, ..e };
    if hits.leaves_screen {
        e
    } else if e.enemy_type == EnemyType::Shield {
        if e.shield_visible && hits.shield {
            e
        } else if hits.laser_cannon_bottom {
            EnemyModel {
                laser_cannon_bottom: LaserCannonModel { parent_object_shield_enabled: false, ..e.laser_cannon_bottom },
                ..e
            }
        } else if hits.laser_cannon_top {
            EnemyModel {
                laser_cannon_top: LaserCannonModel { parent_object_shield_enabled: false, ..e.laser_cannon_top },
                ..e
            }
        } else if !e.shield_visible && hits.enemy {
            hurt
        } else {
            e
        }
    } else if hits.enemy {
        hurt
    } else {
        e
    }
}

/// Is a laser of the player with `hits` removed: it left the screen or hit
/// something.
pub open spec fn player_laser_removed(e: EnemyModel, hits: PlayerLaserHits) -> bool {
    if hits.leaves_screen {
        true
    } else if e.enemy_type == EnemyType::Shield {
        (e.shield_visible && hits.shield) || hits.laser_cannon_bottom || hits.laser_cannon_top
            || (!e.shield_visible && hits.enemy)
    } else {
        hits.enemy
    }
}

/// Does a laser of the player with `hits` turn off a cannon's part of the
/// shield that was on, which plays the hit sound.
pub open spec fn player_laser_hit_sound(e: EnemyModel, hits: PlayerLaserHits) -> bool {
    &&& !hits.leaves_screen
    &&& e.enemy_type == EnemyType::Shield
    &&& !(e.shield_visible && hits.shield)
    &&& if hits.laser_cannon_bottom {
        e.laser_cannon_bottom.parent_object_shield_enabled
    } else {
        hits.laser_cannon_top && e.laser_cannon_top.parent_object_shield_enabled
    }
}

/// A new enemy: the normal one with full health not yet read, visible, laser
/// bombs on, its cannons new, its shield off, timers at zero.
pub open spec fn initial_enemy() -> EnemyModel {
    EnemyModel {
        health: ENEMY_MAX_HEALTH,
        health_updated: true,
        visible: true,
        enemy_type: EnemyType::Normal,
        laser_time: 0,
        laser_cannon_top: initial_laser_cannon(),
        laser_cannon_bottom: initial_laser_cannon(),
        laser_cannon_top_laser_bomb_shooting_turn: true,
        laser_bomb_time: 0,
        laser_bomb_enabled: true,
        shield_visible: false,
        shield_disabled_at: 0,
    }
}

/// Enemy: health, kind, timers of its lasers and laser bombs, its shield and
/// laser cannons. Movement and lasers are floating point and not part of
/// this type.
pub struct Enemy {
    health: Health,
    visible: bool,
    enemy_type: EnemyType,
    laser_timer: Timer,
    laser_cannon_top: LaserCannon,
    laser_cannon_bottom: LaserCannon,
    laser_cannon_top_laser_bomb_shooting_turn: bool,
    laser_bomb_timer: Timer,
    laser_bomb_enabled: bool,
    shield: Shield,
}

impl View for Enemy {
    type V = EnemyModel;

    closed spec fn view(&self) -> EnemyModel {
        EnemyModel {
            health: self.health.value(),
            health_updated: self.health.updated(),
            visible: self.visible,
            enemy_type: self.enemy_type,
            laser_time: self.laser_timer.reset_time(),
            laser_cannon_top: self.laser_cannon_top@,
            laser_cannon_bottom: self.laser_cannon_bottom@,
            laser_cannon_top_laser_bomb_shooting_turn: self.laser_cannon_top_laser_bomb_shooting_turn,
            laser_bomb_time: self.laser_bomb_timer.reset_time(),
            laser_bomb_enabled: self.laser_bomb_enabled,
            shield_visible: self.shield.spec_visible(),
            shield_disabled_at: self.shield.disabled_at(),
        }
    }
}

impl Enemy {
    /// Health is never negative.
    pub open spec fn wf(&self) -> bool {
        self@.health >= 0
    }

    /// Create new `Enemy`.
    pub fn new() -> (enemy: Enemy)
        ensures
            enemy.wf(),
            enemy@ == initial_enemy(),
    {
        Enemy {
            health: Health::new(ENEMY_MAX_HEALTH),
            visible: true,
            enemy_type: EnemyType::Normal,
            laser_timer: Timer::new(),
            laser_cannon_top: LaserCannon::new(),
            laser_cannon_bottom: LaserCannon::new(),
            laser_cannon_top_laser_bomb_shooting_turn: true,
            laser_bomb_timer: Timer::new(),
            laser_bomb_enabled: true,
            shield: Shield::new(),
        }
    }

    /// Resets the enemy to `level`: full health, visible, its kind and laser
    /// bombs by the level, timers from `current_time`, and its laser cannons
    /// and shield by its kind. Its position is the caller's part.
    pub fn reset(&mut self, level: u32, current_time: &TimeMilliseconds)
        ensures
            final(self).wf(),
            ({
                let t = current_time.0;
                let enemy_type = if level == 0 || level == 2 { EnemyType::Normal } else { EnemyType::Shield };
                final(self)@ == (EnemyModel {
                    health: ENEMY_MAX_HEALTH,
                    health_updated: true,
                    visible: true,
                    enemy_type,
                    laser_time: t,
                    laser_cannon_top: cannon_after_reset(old(self)@.laser_cannon_top, enemy_type, t),
                    laser_cannon_bottom: cannon_after_reset(old(self)@.laser_cannon_bottom, enemy_type, t),
                    laser_cannon_top_laser_bomb_shooting_turn: true,
                    laser_bomb_time: t,
                    laser_bomb_enabled: level >= 2,
                    shield_visible: enemy_type == EnemyType::Shield,
                    shield_disabled_at: old(self)@.shield_disabled_at,
                })
            }),
    {
        self.health = Health::new(ENEMY_MAX_HEALTH);
        self.laser_bomb_timer.reset(current_time);
        self.laser_timer.reset(current_time);
        self.visible = true;
        self.enemy_type = enemy_type_for_level(level);
        self.laser_bomb_enabled = laser_bombs_enabled(level);
        self.laser_cannon_top_laser_bomb_shooting_turn = true;
        self.laser_cannon_bottom.reset(self.enemy_type, current_time);
        self.laser_cannon_top.reset(self.enemy_type, current_time);
        self.shield.reset(self.enemy_type);
    }

    /// Enemy's laser shooting: every `enemy_shooting_speed_milliseconds`.
    fn shoot_lasers(&mut self, logic_settings: &LogicSettings, current_time: &TimeMilliseconds) -> (lasers: Option<EnemyLaserShots>)
        requires
            old(self)@.laser_time <= current_time.0,
        ensures
            final(self)@ == after_enemy_shot(old(self)@, *logic_settings, current_time.0),
            lasers == if enemy_shot_due(old(self)@, *logic_settings, current_time.0) {
                Some(laser_shots_of(old(self)@.enemy_type, old(self)@.health as int))
            } else {
                None
            },
    {
        if self.laser_timer.check(current_time, logic_settings.enemy_shooting_speed_milliseconds) {
            Some(enemy_laser_shots(self.enemy_type, self.health.health))
        } else {
            None
        }
    }

    /// Enemy's laser bomb launching, with the launch sound.
    fn launch_laser_bomb<A: Audio>(
        &mut self,
        logic_settings: &LogicSettings,
        sounds: &mut SoundEffectManager<A>,
        current_time: &TimeMilliseconds,
    ) -> (origin: Option<LaserBombOrigin>)
        requires
            old(self)@.laser_bomb_time <= current_time.0,
        ensures
            ({
                let due = laser_bomb_due(old(self)@, logic_settings.difficulty, current_time.0);
                &&& final(self)@ == after_laser_bomb(old(self)@, logic_settings.difficulty, current_time.0)
                &&& origin == if due { Some(laser_bomb_origin(old(self)@)) } else { None }
                &&& final(sounds).has_sound_effects() == old(sounds).has_sound_effects()
                &&& final(sounds).pending() == if due {
                    crate::audio::PendingSoundEffects { laser_bomb_launch: true, ..old(sounds).pending() }
                } else {
                    old(sounds).pending()
                }
            }),
    {
        if !self.laser_bomb_enabled {
            return None;
        }
        let milliseconds = milliseconds_between_laser_bombs(logic_settings.difficulty, self.health.health);
        if self.laser_bomb_timer.check(current_time, milliseconds) {
            sounds.laser_bomb_launch();
            let origin = match self.enemy_type {
                EnemyType::Normal => LaserBombOrigin::Enemy,
                EnemyType::Shield => {
                    if self.laser_cannon_top_laser_bomb_shooting_turn {
                        self.laser_cannon_top_laser_bomb_shooting_turn = false;
                        LaserBombOrigin::LaserCannonTop
                    } else {
                        self.laser_cannon_top_laser_bomb_shooting_turn = true;
                        LaserBombOrigin::LaserCannonBottom
                    }
                },
            };
            Some(origin)
        } else {
            None
        }
    }

    /// Shield and laser cannons of the shielded enemy. Returns whether the
    /// top and the bottom cannon shoot.
    fn update_shield_and_laser_cannons(&mut self, current_time: &TimeMilliseconds) -> (shots: (bool, bool))
        requires
            enemy_timers_at_most(old(self)@, current_time.0),
        ensures
            final(self)@ == after_shield_and_laser_cannons(old(self)@, current_time.0),
            ({
                let e3 = before_laser_cannon_updates(old(self)@, current_time.0);
                let shielded = old(self)@.enemy_type == EnemyType::Shield;
                &&& shots.0 == (shielded && cannon_shoots(e3.laser_cannon_top, current_time.0))
                &&& shots.1 == (shielded && cannon_shoots(e3.laser_cannon_bottom, current_time.0))
            }),
    {
        if let EnemyType::Normal = self.enemy_type {
            return (false, false);
        }
        if self.shield.update(current_time) {
            self.laser_cannon_top.shield_enabled();
            self.laser_cannon_bottom.shield_enabled();
        }
        if self.shield.visible() && !self.laser_cannon_top.parent_object_shield_enabled()
            && !self.laser_cannon_bottom.parent_object_shield_enabled() {
            self.shield.disable(current_time);
        }
        update_laser_cannons_enabled(
            self.health.health,
            &mut self.laser_cannon_top.laser_enabled,
            &mut self.laser_cannon_bottom.laser_enabled,
        );
        let bottom = self.laser_cannon_bottom.update(current_time);
        let top = self.laser_cannon_top.update(current_time);
        (top, bottom)
    }

    /// Updates enemy logic at `current_time` and returns what the enemy creates:
    /// lasers every `enemy_shooting_speed_milliseconds`, a laser bomb when they
    /// are enabled and their time has come, and the lasers of the shielded
    /// enemy's laser cannons.
    pub fn update<A: Audio>(
        &mut self,
        logic_settings: &LogicSettings,
        sounds: &mut SoundEffectManager<A>,
        current_time: &TimeMilliseconds,
    ) -> (created: EnemyUpdate)
        requires
            old(self).wf(),
            enemy_timers_at_most(old(self)@, current_time.0),
        ensures
            final(self).wf(),
            ({
                let t = current_time.0;
                let e1 = after_enemy_shot(old(self)@, *logic_settings, t);
                let e2 = after_laser_bomb(e1, logic_settings.difficulty, t);
                let e3 = before_laser_cannon_updates(e2, t);
                let shielded = old(self)@.enemy_type == EnemyType::Shield;
                let bomb = laser_bomb_due(e1, logic_settings.difficulty, t);
                &&& final(self)@ == after_shield_and_laser_cannons(e2, t)
                &&& created.lasers == if enemy_shot_due(old(self)@, *logic_settings, t) {
                    Some(laser_shots_of(old(self)@.enemy_type, old(self)@.health as int))
                } else {
                    None
                }
                &&& created.laser_bomb == if bomb { Some(laser_bomb_origin(e1)) } else { None }
                &&& created.laser_cannon_top_shoots == (shielded && cannon_shoots(e3.laser_cannon_top, t))
                &&& created.laser_cannon_bottom_shoots == (shielded && cannon_shoots(e3.laser_cannon_bottom, t))
                &&& final(sounds).has_sound_effects() == old(sounds).has_sound_effects()
                &&& final(sounds).pending() == if bomb {
                    crate::audio::PendingSoundEffects { laser_bomb_launch: true, ..old(sounds).pending() }
                } else {
                    old(sounds).pending()
                }
            }),
    {
        let lasers = self.shoot_lasers(logic_settings, current_time);
        let laser_bomb = self.launch_laser_bomb(logic_settings, sounds, current_time);
        assert(enemy_timers_at_most(self@, current_time.0));
        let (top, bottom) = self.update_shield_and_laser_cannons(current_time);
        EnemyUpdate { lasers, laser_bomb, laser_cannon_top_shoots: top, laser_cannon_bottom_shoots: bottom }
    }

    /// A laser of the player with `hits` meets the enemy. Returns true when the
    /// laser is removed. See `after_player_laser` for what it does to the enemy.
    pub fn hit_by_player_laser<A: Audio>(
        &mut self,
        hits: PlayerLaserHits,
        logic_settings: &LogicSettings,
        sounds: &mut SoundEffectManager<A>,
    ) -> (removed: bool)
        requires
            old(self).wf(),
            logic_settings.wf(),
        ensures
            final(self).wf(),
            removed == player_laser_removed(old(self)@, hits),
            final(self)@ == after_player_laser(old(self)@, logic_settings.player_laser_damage as int, hits),
            final(sounds).has_sound_effects() == old(sounds).has_sound_effects(),
            final(sounds).pending() == if player_laser_hit_sound(old(self)@, hits) {
                crate::audio::PendingSoundEffects { player_laser_hits_laser_cannon: true, ..old(sounds).pending() }
            } else {
                old(sounds).pending()
            },
    {
        if hits.leaves_screen {
            return true;
        }
        if let EnemyType::Shield = self.enemy_type {
            if self.shield.visible() && hits.shield {
                true
            } else if hits.laser_cannon_bottom {
                self.laser_cannon_bottom.hit_by_laser(sounds);
                true
            } else if hits.laser_cannon_top {
                self.laser_cannon_top.hit_by_laser(sounds);
                true
            } else if !self.shield.visible() && hits.enemy {
                self.health.update_health(-logic_settings.player_laser_damage);
                true
            } else {
                false
            }
        } else {
            if hits.enemy {
                self.health.update_health(-logic_settings.player_laser_damage);
                true
            } else {
                false
            }
        }
    }

    /// Updates enemy health like player's health.
    pub fn update_health(&mut self, amount: i32)
        requires
            old(self).wf(),
            old(self)@.health + amount <= i32::MAX,
        ensures
            final(self).wf(),
            final(self)@ == (EnemyModel {
                health: health_after(old(self)@.health as int, amount as int) as i32,
                health_updated: true,
                ..old(self)@
            }),
    {
        self.health.update_health(amount);
    }

    /// Get enemy health like player's health.
    pub fn health(&mut self) -> (health: Option<u32>)
        requires
            old(self).wf(),
        ensures
            final(self).wf(),
            final(self)@ == (EnemyModel { health_updated: false, ..old(self)@ }),
            health == if old(self)@.health_updated { Some(old(self)@.health as u32) } else { None },
    {
        self.health.health()
    }

    /// Return true if enemy is visible.
    pub fn visible(&self) -> (visible: bool)
        ensures
            visible == self@.visible,
    {
        self.visible
    }

    /// Hides the enemy.
    pub fn set_invisible(&mut self)
        ensures
            final(self)@ == (EnemyModel { visible: false, ..old(self)@ }),
    {
        self.visible = false;
    }

    /// Current kind of the enemy.
    pub fn enemy_type(&self) -> (enemy_type: EnemyType)
        ensures
            enemy_type == self@.enemy_type,
    {
        self.enemy_type
    }

    /// Get laser cannon positioned at top.
    pub fn get_laser_cannon_top(&self) -> (cannon: &LaserCannon)
        ensures
            cannon@ == self@.laser_cannon_top,
    {
        &self.laser_cannon_top
    }

    /// Get laser cannon positioned at bottom.
    pub fn get_laser_cannon_bottom(&self) -> (cannon: &LaserCannon)
        ensures
            cannon@ == self@.laser_cannon_bottom,
    {
        &self.laser_cannon_bottom
    }

    /// Get shield.
    pub fn get_shield(&self) -> (shield: &Shield)
        ensures
            shield.spec_visible() == self@.shield_visible,
            shield.disabled_at() == self@.shield_disabled_at,
    {
        &self.shield
    }
}

/// The object whose destruction started the explosion.
#[derive(Copy, Clone, PartialEq, Eq, Structural, Debug)]
pub enum ExplodedObject {
    Player,
    Enemy,
}

/// What a logic update reports: health changes for the health bars, the
/// object that explodes now (all lasers are then cleared and the explosion is
/// placed at that object), the GUI state to change to when the level ends, and
/// the number of explosion particles to create.
#[derive(Copy, Clone, PartialEq, Eq, Structural, Debug)]
pub struct LogicStatus {
    pub player_health: Option<u32>,
    pub enemy_health: Option<u32>,
    pub exploded: Option<ExplodedObject>,
    pub gui_state: Option<GUIState>,
    pub new_particles: u32,
}

/// Settings of `difficulty`.
pub open spec fn settings_for(difficulty: Difficulty) -> LogicSettings {
    match difficulty {
        Difficulty::Easy => LogicSettings {
            player_laser_damage: 5,
            enemy_laser_damage: 5,
            enemy_hit_damage_16_milliseconds: 3,
            enemy_shooting_speed_milliseconds: 1500,
            difficulty: Difficulty::Easy,
        },
        Difficulty::Normal => LogicSettings {
            player_laser_damage: 3,
            enemy_laser_damage: 10,
            enemy_hit_damage_16_milliseconds: 6,
            enemy_shooting_speed_milliseconds: 1000,
            difficulty: Difficulty::Normal,
        },
        Difficulty::Hard => LogicSettings {
            player_laser_damage: 2,
            enemy_laser_damage: 10,
            enemy_hit_damage_16_milliseconds: 6,
            enemy_shooting_speed_milliseconds: 750,
            difficulty: Difficulty::Hard,
        },
    }
}

/// Mathematical model of `Logic`.
pub struct LogicModel {
    pub player: PlayerModel,
    pub enemy: EnemyModel,
    pub logic_settings: LogicSettings,
    pub level: u32,
    pub current_difficulty: Difficulty,
    pub game_running: bool,
    pub explosion: ExplosionModel,
}

/// No timer of the explosion of game `m` is later than time `t`.
pub open spec fn logic_timers_at_most(m: LogicModel, t: u32) -> bool {
    &&& m.explosion.started_at <= t
    &&& m.explosion.particles_created_at <= t
}

/// Does the player die in the status update of game `o`: its health change
/// to zero is reported.
pub open spec fn player_dies(o: LogicModel) -> bool {
    o.player.health_updated && o.player.health == 0
}

/// Does the enemy die in the status update of game `o`.
pub open spec fn enemy_dies(o: LogicModel) -> bool {
    o.enemy.health_updated && o.enemy.health == 0
}

/// The explosion of game `o` after the particle update, a possible start and
/// before the test whether it has finished.
pub open spec fn explosion_before_finish(o: LogicModel, t: u32) -> ExplosionModel {
    let x1 = if explosion_creates_particles(o.explosion, t) {
        ExplosionModel { particles_created_at: t, ..o.explosion }
    } else {
        o.explosion
    };
    if player_dies(o) || enemy_dies(o) { ExplosionModel { visible: true, started_at: t, ..x1 } } else { x1 }
}

/// Does the level of game `o` end at time `t`: the game has stopped and its
/// explosion has been visible for `EXPLOSION_VISIBILITY_TIME_MILLISECONDS`.
pub open spec fn level_ends(o: LogicModel, t: u32) -> bool {
    let running = o.game_running && !player_dies(o) && !enemy_dies(o);
    !running && t - explosion_before_finish(o, t).started_at >= EXPLOSION_VISIBILITY_TIME_MILLISECONDS
}

/// Game `o` after the status update at time `t`: reported health changes are
/// read, a death stops the game and starts the explosion, and at the end of
/// the level the explosion hides and so does the loser.
pub open spec fn logic_after_update(o: LogicModel, t: u32) -> LogicModel {
    let x2 = explosion_before_finish(o, t);
    let ends = level_ends(o, t);
    let player_lost = o.player.health == 0;
    LogicModel {
        player: PlayerModel {
            health_updated: false,
            visible: if ends && player_lost { false } else { o.player.visible },
            ..o.player
        },
        enemy: EnemyModel {
            health_updated: false,
            visible: if ends && !player_lost { false } else { o.enemy.visible },
            ..o.enemy
        },
        game_running: o.game_running && !player_dies(o) && !enemy_dies(o),
        explosion: if ends { ExplosionModel { visible: false, started_at: t, ..x2 } } else { x2 },
        ..o
    }
}

/// What the status update of game `o` at time `t` reports.
pub open spec fn logic_status(o: LogicModel, t: u32) -> LogicStatus {
    LogicStatus {
        player_health: if o.player.health_updated { Some(o.player.health as u32) } else { None },
        enemy_health: if o.enemy.health_updated { Some(o.enemy.health as u32) } else { None },
        exploded: if enemy_dies(o) {
            Some(ExplodedObject::Enemy)
        } else if player_dies(o) {
            Some(ExplodedObject::Player)
        } else {
            None
        },
        gui_state: if level_ends(o, t) { Some(level_end(o.player.health as int, o.level)) } else { None },
        new_particles: if explosion_creates_particles(o.explosion, t) { o.explosion.particle_count } else { 0 },
    }
}

/// Game `o` after a reset to `level` and `difficulty` at time `t`: the game
/// runs with the difficulty's settings; the player has full health and is
/// visible, with shooting timed from `t`; the enemy of the level has full
/// health, its laser bombs by the level, its cannons and shield by its kind;
/// the health values have been read; the explosion is hidden.
pub open spec fn logic_after_reset(o: LogicModel, difficulty: Difficulty, level: u32, t: u32) -> LogicModel {
    let enemy_type = if level == 0 || level == 2 { EnemyType::Normal } else { EnemyType::Shield };
    LogicModel {
        player: PlayerModel {
            health: PLAYER_MAX_HEALTH,
            health_updated: false,
            visible: true,
            laser_time: t,
            hit_time: o.player.hit_time,
        },
        enemy: EnemyModel {
            health: ENEMY_MAX_HEALTH,
            health_updated: false,
            visible: true,
            enemy_type,
            laser_time: t,
            laser_cannon_top: cannon_after_reset(o.enemy.laser_cannon_top, enemy_type, t),
            laser_cannon_bottom: cannon_after_reset(o.enemy.laser_cannon_bottom, enemy_type, t),
            laser_cannon_top_laser_bomb_shooting_turn: true,
            laser_bomb_time: t,
            laser_bomb_enabled: level >= 2,
            shield_visible: enemy_type == EnemyType::Shield,
            shield_disabled_at: o.enemy.shield_disabled_at,
        },
        logic_settings: settings_for(difficulty),
        level,
        current_difficulty: difficulty,
        game_running: true,
        explosion: ExplosionModel { visible: false, ..o.explosion },
    }
}

/// Logic stores current state of game logic.
pub struct Logic {
    player: Player,
    enemy: Enemy,
    logic_settings: LogicSettings,
    level: u32,
    current_difficulty: Difficulty,
    game_running: bool,
    explosion: Explosion,
}

impl View for Logic {
    type V = LogicModel;

    closed spec fn view(&self) -> LogicModel {
        LogicModel {
            player: self.player@,
            enemy: self.enemy@,
            logic_settings: self.logic_settings,
            level: self.level,
            current_difficulty: self.current_difficulty,
            game_running: self.game_running,
            explosion: self.explosion@,
        }
    }
}

impl Logic {
    /// Health is never negative and damages are never negative.
    pub open spec fn wf(&self) -> bool {
        &&& self@.player.health >= 0
        &&& self@.enemy.health >= 0
        &&& self@.logic_settings.wf()
    }

    /// Create new `Logic`.
    pub fn new() -> (logic: Logic)
        ensures
            logic.wf(),
            logic@.level == 0,
            logic@.current_difficulty == Difficulty::Normal,
            logic@.game_running,
            logic@.player == initial_player(),
            logic@.enemy == initial_enemy(),
            logic@.logic_settings == (LogicSettings {
                player_laser_damage: 0,
                enemy_laser_damage: 0,
                enemy_hit_damage_16_milliseconds: 0,
                enemy_shooting_speed_milliseconds: 0,
                difficulty: Difficulty::Normal,
            }),
            logic@.explosion == (ExplosionModel {
                visible: false,
                started_at: 0,
                particles_created_at: 0,
                particle_count: EXPLOSION_PARTICLE_COUNT,
                milliseconds_between_particle_generation: EXPLOSION_MILLISECONDS_BETWEEN_PARTICLE_CREATION,
            }),
    {
        Logic {
            player: Player::new(),
            enemy: Enemy::new(),
            logic_settings: LogicSettings::new(),
            level: 0,
            current_difficulty: Difficulty::Normal,
            game_running: true,
            explosion: Explosion::new(EXPLOSION_PARTICLE_COUNT, EXPLOSION_MILLISECONDS_BETWEEN_PARTICLE_CREATION),
        }
    }

    /// Updates the game's status at `current_time`, after the player's and the
    /// enemy's own updates of the frame: the explosion creates its particles,
    /// reported health changes go to the caller, a player or enemy without
    /// health stops the game and explodes, and when the explosion is over the
    /// level ends. See `logic_after_update` and `logic_status`.
    #[verifier::spinoff_prover]
    #[verifier::rlimit(40)]
    pub fn update<A: Audio>(&mut self, sounds: &mut SoundEffectManager<A>, current_time: &TimeMilliseconds) -> (status: LogicStatus)
        requires
            old(self).wf(),
            logic_timers_at_most(old(self)@, current_time.0),
        ensures
            final(self).wf(),
            final(self)@ == logic_after_update(old(self)@, current_time.0),
            status == logic_status(old(self)@, current_time.0),
            final(sounds).has_sound_effects() == old(sounds).has_sound_effects(),
            final(sounds).pending() == if explosion_creates_particles(old(self)@.explosion, current_time.0) {
                crate::audio::PendingSoundEffects { explosion: true, ..old(sounds).pending() }
            } else {
                old(sounds).pending()
            },
    {
        let new_particles = self.explosion.update(sounds, current_time);
        let mut exploded: Option<ExplodedObject> = None;
        let player_health = self.player.health();
        if let Some(health) = player_health {
            if health == 0 {
                self.game_running = false;
                self.explosion.start_explosion(current_time);
                exploded = Some(ExplodedObject::Player);
            }
        }
        let enemy_health = self.enemy.health();
        if let Some(health) = enemy_health {
            if health == 0 {
                self.game_running = false;
                self.explosion.start_explosion(current_time);
                exploded = Some(ExplodedObject::Enemy);
            }
        }
        let mut gui_state: Option<GUIState> = None;
        if !self.game_running && self.explosion.explosion_finished(current_time) {
            gui_state = Some(level_end_state(self.player.health.health, self.level));
            if self.player.health.health == 0 {
                self.player.set_invisible();
            } else {
                self.enemy.set_invisible();
            }
        }
        LogicStatus { player_health, enemy_health, exploded, gui_state, new_particles }
    }

    /// Resets game logic to `level` and `difficulty` at `current_time`: the
    /// game runs with the difficulty's settings, the player and the enemy are
    /// reset and the explosion hides. Returns the full health of the player
    /// and of the enemy for the health bars.
    pub fn reset_game(&mut self, difficulty: Difficulty, level: u32, current_time: &TimeMilliseconds) -> (health: (Option<u32>, Option<u32>))
        requires
            level <= LAST_LEVEL_INDEX,
        ensures
            final(self).wf(),
            health == (Some(PLAYER_MAX_HEALTH as u32), Some(ENEMY_MAX_HEALTH as u32)),
            final(self)@ == logic_after_reset(old(self)@, difficulty, level, current_time.0),
    {
        self.level = level;
        self.current_difficulty = difficulty;
        self.game_running = true;
        match difficulty {
            Difficulty::Easy => self.logic_settings.settings_easy(),
            Difficulty::Normal => self.logic_settings.settings_normal(),
            Difficulty::Hard => self.logic_settings.settings_hard(),
        }
        self.player.reset(current_time);
        self.enemy.reset(level, current_time);
        let player_health = self.player.health();
        let enemy_health = self.enemy.health();
        self.explosion.reset();
        (player_health, enemy_health)
    }

    /// Change to next level and reset game with the current difficulty.
    pub fn reset_to_next_level(&mut self, current_time: &TimeMilliseconds) -> (health: (Option<u32>, Option<u32>))
        requires
            old(self)@.level < LAST_LEVEL_INDEX,
        ensures
            final(self).wf(),
            health == (Some(PLAYER_MAX_HEALTH as u32), Some(ENEMY_MAX_HEALTH as u32)),
            final(self)@ == logic_after_reset(
                old(self)@,
                old(self)@.current_difficulty,
                (old(self)@.level + 1) as u32,
                current_time.0,
            ),
    {
        let difficulty = self.current_difficulty;
        let level = self.level + 1;
        self.reset_game(difficulty, level, current_time)
    }

    /// Updates the player while the game runs: see `Player::update`.
    pub fn update_player<A: Audio>(
        &mut self,
        shoot_pressed: bool,
        contacts: EnemyContacts,
        sounds: &mut SoundEffectManager<A>,
        current_time: &TimeMilliseconds,
    ) -> (shoots: bool)
        requires
            old(self).wf(),
            old(self)@.player.laser_time <= current_time.0,
            old(self)@.player.hit_time <= current_time.0,
        ensures
            final(self).wf(),
            final(self)@ == (LogicModel { player: final(self)@.player, ..old(self)@ }),
            ({
                let o = old(self)@;
                let t = current_time.0;
                let d = o.logic_settings.enemy_hit_damage_16_milliseconds as int;
                let shoot = shoot_pressed && t - o.player.laser_time >= PLAYER_MILLISECONDS_BETWEEN_LASERS;
                let check = t - o.player.hit_time >= ENEMY_HIT_DAMAGE_MILLISECONDS;
                let hit_enemy = check && contacts.enemy;
                let hit_cannon = check && o.enemy.enemy_type == EnemyType::Shield
                    && (contacts.laser_cannon_top || contacts.laser_cannon_bottom);
                &&& shoots == shoot
                &&& final(self)@.player == (PlayerModel {
                    health: damaged(damaged(o.player.health as int, d, hit_enemy), d, hit_cannon) as i32,
                    health_updated: o.player.health_updated || hit_enemy || hit_cannon,
                    visible: o.player.visible,
                    laser_time: if shoot { t } else { o.player.laser_time },
                    hit_time: if check { t } else { o.player.hit_time },
                })
                &&& final(sounds).has_sound_effects() == old(sounds).has_sound_effects()
                &&& final(sounds).pending() == if shoot {
                    crate::audio::PendingSoundEffects { laser: true, ..old(sounds).pending() }
                } else {
                    old(sounds).pending()
                }
            }),
    {
        let enemy_type = self.enemy.enemy_type();
        self.player.update(shoot_pressed, contacts, enemy_type, &self.logic_settings, sounds, current_time)
    }

    /// A laser of the player with `hits` meets the enemy: see `Enemy::hit_by_player_laser`.
    pub fn player_laser_hits<A: Audio>(&mut self, hits: PlayerLaserHits, sounds: &mut SoundEffectManager<A>) -> (removed: bool)
        requires
            old(self).wf(),
        ensures
            final(self).wf(),
            removed == player_laser_removed(old(self)@.enemy, hits),
            final(self)@ == (LogicModel {
                enemy: after_player_laser(old(self)@.enemy, old(self)@.logic_settings.player_laser_damage as int, hits),
                ..old(self)@
            }),
            final(sounds).has_sound_effects() == old(sounds).has_sound_effects(),
            final(sounds).pending() == if player_laser_hit_sound(old(self)@.enemy, hits) {
                crate::audio::PendingSoundEffects { player_laser_hits_laser_cannon: true, ..old(sounds).pending() }
            } else {
                old(sounds).pending()
            },
    {
        self.enemy.hit_by_player_laser(hits, &self.logic_settings, sounds)
    }

    /// Updates the enemy while the game runs: see `Enemy::update`.
    pub fn update_enemy<A: Audio>(&mut self, sounds: &mut SoundEffectManager<A>, current_time: &TimeMilliseconds) -> (created: EnemyUpdate)
        requires
            old(self).wf(),
            enemy_timers_at_most(old(self)@.enemy, current_time.0),
        ensures
            final(self).wf(),
            ({
                let t = current_time.0;
                let o = old(self)@;
                let e1 = after_enemy_shot(o.enemy, o.logic_settings, t);
                let e2 = after_laser_bomb(e1, o.logic_settings.difficulty, t);
                let e3 = before_laser_cannon_updates(e2, t);
                let shielded = o.enemy.enemy_type == EnemyType::Shield;
                let bomb = laser_bomb_due(e1, o.logic_settings.difficulty, t);
                &&& final(self)@ == (LogicModel { enemy: after_shield_and_laser_cannons(e2, t), ..o })
                &&& created.lasers == if enemy_shot_due(o.enemy, o.logic_settings, t) {
                    Some(laser_shots_of(o.enemy.enemy_type, o.enemy.health as int))
                } else {
                    None
                }
                &&& created.laser_bomb == if bomb { Some(laser_bomb_origin(e1)) } else { None }
                &&& created.laser_cannon_top_shoots == (shielded && cannon_shoots(e3.laser_cannon_top, t))
                &&& created.laser_cannon_bottom_shoots == (shielded && cannon_shoots(e3.laser_cannon_bottom, t))
                &&& final(sounds).has_sound_effects() == old(sounds).has_sound_effects()
                &&& final(sounds).pending() == if bomb {
                    crate::audio::PendingSoundEffects { laser_bomb_launch: true, ..old(sounds).pending() }
                } else {
                    old(sounds).pending()
                }
            }),
    {
        self.enemy.update(&self.logic_settings, sounds, current_time)
    }

    /// A laser of the enemy hits the player.
    pub fn enemy_laser_hits_player(&mut self)
        requires
            old(self).wf(),
        ensures
            final(self).wf(),
            final(self)@ == (LogicModel {
                player: PlayerModel {
                    health: health_after(old(self)@.player.health as int, -old(self)@.logic_settings.enemy_laser_damage) as i32,
                    health_updated: true,
                    ..old(self)@.player
                },
                ..old(self)@
            }),
    {
        self.player.hit_by_enemy_laser(&self.logic_settings);
    }

    /// A laser bomb hits the player.
    pub fn laser_bomb_hits_player(&mut self)
        requires
            old(self).wf(),
        ensures
            final(self).wf(),
            final(self)@ == (LogicModel {
                player: PlayerModel {
                    health: health_after(old(self)@.player.health as int, -LASER_BOMB_DAMAGE) as i32,
                    health_updated: true,
                    ..old(self)@.player
                },
                ..old(self)@
            }),
    {
        self.player.hit_by_laser_bomb();
    }

    /// Is the game running: no one has lost yet.
    pub fn game_running(&self) -> (running: bool)
        ensures
            running == self@.game_running,
    {
        self.game_running
    }

    /// Current level.
    pub fn level(&self) -> (level: u32)
        ensures
            level == self@.level,
    {
        self.level
    }

    /// Get player.
    pub fn get_player(&self) -> (player: &Player)
        ensures
            player@ == self@.player,
    {
        &self.player
    }

    /// Get enemy.
    pub fn get_enemy(&self) -> (enemy: &Enemy)
        ensures
            enemy@ == self@.enemy,
    {
        &self.enemy
    }

    /// Get explosion.
    pub fn get_explosion(&self) -> (explosion: &Explosion)
        ensures
            explosion@ == self@.explosion,
    {
        &self.explosion
    }
}

/// The shielded enemy's laser cannons take turns with laser bombs: a launched
/// bomb passes the next one to the other cannon.
pub proof fn lemma_laser_bomb_cannons_alternate(e: EnemyModel, difficulty: Difficulty, t: u32)
    requires
        e.enemy_type == EnemyType::Shield,
        laser_bomb_due(e, difficulty, t),
    ensures
        laser_bomb_origin(after_laser_bomb(e, difficulty, t)) != laser_bomb_origin(e),
        laser_bomb_origin(e) != LaserBombOrigin::Enemy,
{
}

/// Harder difficulties are harder: the enemy shoots more often, the player's
/// lasers do less damage and the enemy's lasers do no less.
pub proof fn lemma_harder_difficulty_is_harder()
    ensures
        settings_for(Difficulty::Hard).enemy_shooting_speed_milliseconds
            < settings_for(Difficulty::Normal).enemy_shooting_speed_milliseconds
            < settings_for(Difficulty::Easy).enemy_shooting_speed_milliseconds,
        settings_for(Difficulty::Hard).player_laser_damage
            < settings_for(Difficulty::Normal).player_laser_damage
            < settings_for(Difficulty::Easy).player_laser_damage,
        settings_for(Difficulty::Easy).enemy_laser_damage
            <= settings_for(Difficulty::Normal).enemy_laser_damage
            <= settings_for(Difficulty::Hard).enemy_laser_damage,
        forall|d: Difficulty| (#[trigger] settings_for(d)).wf() && settings_for(d).difficulty == d,
{
}

/// A running game stops only when the player or the enemy has no health left,
/// and a level ends only in a stopped game: then the loser is hidden.
pub proof fn lemma_game_ends_only_by_losing_all_health(o: LogicModel, t: u32)
    ensures
        o.game_running && !logic_after_update(o, t).game_running ==> (player_dies(o) || enemy_dies(o)),
        (player_dies(o) || enemy_dies(o)) ==> !logic_after_update(o, t).game_running,
        level_ends(o, t) ==> !logic_after_update(o, t).game_running,
        level_ends(o, t) && o.player.health == 0 ==> !logic_after_update(o, t).player.visible
            && logic_status(o, t).gui_state == Some(GUIState::GameOverScreen),
        level_ends(o, t) && o.player.health != 0 ==> !logic_after_update(o, t).enemy.visible,
{
}

/// A level ends with the game over screen exactly when the player has no
/// health left. A player with health left wins the game after the last level
/// and goes on to the next level after every level before it.
pub proof fn lemma_level_end_screens(player_health: int, level: u32)
    requires
        player_health >= 0,
        level <= LAST_LEVEL_INDEX,
    ensures
        (level_end(player_health, level) == GUIState::GameOverScreen) <==> player_health == 0,
        player_health > 0 ==> ((level_end(player_health, level) == GUIState::PlayerWinsScreen)
            <==> level == LAST_LEVEL_INDEX),
        player_health > 0 && level < LAST_LEVEL_INDEX ==> level_end(player_health, level) == GUIState::NextLevelScreen,
        level_end(player_health, level) == GUIState::GameOverScreen
            || level_end(player_health, level) == GUIState::PlayerWinsScreen
            || level_end(player_health, level) == GUIState::NextLevelScreen,
{
}

/// The enemy launches its laser bombs at the beginning interval while it has
/// more than 40 health, on every difficulty, and always on Easy. The shorter
/// intervals come only at 40 health or less on Normal and Hard, and the
/// shortest only at 20 health or less on Hard. Losing health never makes the
/// bombs come more slowly, and a harder difficulty never makes them come more
/// slowly.
pub proof fn lemma_laser_bomb_interval_by_health(difficulty: Difficulty, health: int, lower_health: int)
    requires
        lower_health <= health,
    ensures
        health > 40 ==> laser_bomb_interval(difficulty, health) == ENEMY_MILLISECONDS_BETWEEN_LASER_BOMBS_BEGINNING,
        difficulty == Difficulty::Easy
            ==> laser_bomb_interval(difficulty, health) == ENEMY_MILLISECONDS_BETWEEN_LASER_BOMBS_BEGINNING,
        difficulty == Difficulty::Normal && health <= 40
            ==> laser_bomb_interval(difficulty, health) == ENEMY_MILLISECONDS_BETWEEN_LASER_BOMBS_HEALTH_40,
        difficulty == Difficulty::Hard && 20 < health <= 40
            ==> laser_bomb_interval(difficulty, health) == ENEMY_MILLISECONDS_BETWEEN_LASER_BOMBS_HEALTH_40,
        difficulty == Difficulty::Hard && health <= 20
            ==> laser_bomb_interval(difficulty, health) == ENEMY_MILLISECONDS_BETWEEN_LASER_BOMBS_HEALTH_20,
        laser_bomb_interval(difficulty, lower_health) <= laser_bomb_interval(difficulty, health),
        laser_bomb_interval(Difficulty::Hard, health) <= laser_bomb_interval(Difficulty::Normal, health)
            <= laser_bomb_interval(Difficulty::Easy, health),
        ENEMY_MILLISECONDS_BETWEEN_LASER_BOMBS_HEALTH_20 < ENEMY_MILLISECONDS_BETWEEN_LASER_BOMBS_HEALTH_40
            < ENEMY_MILLISECONDS_BETWEEN_LASER_BOMBS_BEGINNING,
{
}

} // verus!
