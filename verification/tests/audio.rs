use std::cell::RefCell;
use std::rc::Rc;

use space_boss_battles::audio::{
    AllSoundEffects, Audio, AudioManager, AudioPlayer, SoundEffectManager, SoundEffectPlayer, Volume, VolumeSDL2,
    DEFAULT_VOLUME_PERCENTAGE, MAX_VOLUME,
};

/// What happened to one recorded sound.
#[derive(Default)]
struct Record {
    plays: u32,
    volumes: Vec<i32>,
}

/// Audio that records its plays and volume changes.
struct Recorder(Rc<RefCell<Record>>);

impl Audio for Recorder {
    fn volume(&self) -> i32 {
        self.0.borrow().volumes.last().copied().unwrap_or(0)
    }

    fn times_played(&self) -> u64 {
        self.0.borrow().plays as u64
    }

    fn play(&mut self) {
        self.0.borrow_mut().plays += 1;
    }

    fn change_volume(&mut self, volume: VolumeSDL2) {
        self.0.borrow_mut().volumes.push(volume.value());
    }
}

struct RecorderPlayer;

impl AudioPlayer for RecorderPlayer {
    type Music = Recorder;
    type Effect = Recorder;
}

fn recorder() -> (Recorder, Rc<RefCell<Record>>) {
    let record = Rc::new(RefCell::new(Record::default()));
    (Recorder(record.clone()), record)
}

fn effects() -> (AllSoundEffects<Recorder>, Vec<Rc<RefCell<Record>>>) {
    let (laser, r0) = recorder();
    let (explosion, r1) = recorder();
    let (launch, r2) = recorder();
    let (bomb_explosion, r3) = recorder();
    let (cannon_hit, r4) = recorder();
    let sounds = AllSoundEffects::new(laser, explosion, launch, bomb_explosion, cannon_hit, VolumeSDL2::new(MAX_VOLUME));
    (sounds, vec![r0, r1, r2, r3, r4])
}

#[test]
fn volume_is_limited_to_valid_range() {
    assert_eq!(VolumeSDL2::new(-5).value(), 0);
    assert_eq!(VolumeSDL2::new(0).value(), 0);
    assert_eq!(VolumeSDL2::new(64).value(), 64);
    assert_eq!(VolumeSDL2::new(128).value(), 128);
    assert_eq!(VolumeSDL2::new(129).value(), 128);
}

#[test]
fn volume_from_percentage() {
    assert_eq!(VolumeSDL2::from_percentage(-1).value(), 0);
    assert_eq!(VolumeSDL2::from_percentage(0).value(), 0);
    assert_eq!(VolumeSDL2::from_percentage(50).value(), 64);
    assert_eq!(VolumeSDL2::from_percentage(DEFAULT_VOLUME_PERCENTAGE).value(), 87);
    assert_eq!(VolumeSDL2::from_percentage(99).value(), 126);
    assert_eq!(VolumeSDL2::from_percentage(100).value(), 128);
    assert_eq!(VolumeSDL2::from_percentage(1000).value(), 128);
}

#[test]
fn sound_effects_play_once_at_update() {
    let (sounds, records) = effects();
    for record in &records {
        assert_eq!(record.borrow().volumes, vec![128]);
    }
    let mut manager = SoundEffectManager::new(Some(sounds));
    manager.laser();
    manager.laser();
    manager.player_laser_hits_laser_cannon();
    assert_eq!(records[0].borrow().plays, 0);
    manager.update();
    assert_eq!(records[0].borrow().plays, 1);
    assert_eq!(records[1].borrow().plays, 0);
    assert_eq!(records[4].borrow().plays, 1);
    manager.update();
    assert_eq!(records[0].borrow().plays, 1);
    manager.explosion();
    manager.laser_bomb_launch();
    manager.laser_bomb_explosion();
    manager.update();
    assert_eq!(records[1].borrow().plays, 1);
    assert_eq!(records[2].borrow().plays, 1);
    assert_eq!(records[3].borrow().plays, 1);
}

#[test]
fn sound_effect_volume_changes_every_effect() {
    let (sounds, records) = effects();
    let mut manager = SoundEffectManager::new(Some(sounds));
    manager.change_volume(VolumeSDL2::new(10));
    for record in &records {
        assert_eq!(record.borrow().volumes, vec![128, 10]);
    }
}

#[test]
fn manager_without_sound_effects_plays_nothing() {
    let mut manager: SoundEffectManager<Recorder> = SoundEffectManager::new(None);
    manager.laser();
    manager.update();
    manager.change_volume(VolumeSDL2::new(1));
}

#[test]
fn audio_manager_sets_default_volumes_and_plays_music() {
    let (music, music_record) = recorder();
    let (sounds, records) = effects();
    let mut manager = AudioManager::new(Some(RecorderPlayer), Some(music), Some(sounds));
    assert_eq!(music_record.borrow().volumes, vec![87]);
    assert_eq!(records[0].borrow().volumes, vec![128, 87]);
    manager.play_music();
    assert_eq!(music_record.borrow().plays, 1);
    manager.set_music_volume(100);
    assert_eq!(music_record.borrow().volumes, vec![87, 128]);
    manager.set_sound_effect_volume(0);
    assert_eq!(records[3].borrow().volumes, vec![128, 87, 0]);
    manager.sound_effect_manager_mut().laser();
    manager.sound_effect_manager_mut().update();
    assert_eq!(records[0].borrow().plays, 1);
}

#[test]
fn audio_manager_without_player_is_silent() {
    let (music, music_record) = recorder();
    let (sounds, records) = effects();
    let mut manager: AudioManager<RecorderPlayer> = AudioManager::new(None, Some(music), Some(sounds));
    manager.play_music();
    manager.set_music_volume(10);
    manager.sound_effect_manager_mut().laser();
    manager.sound_effect_manager_mut().update();
    assert_eq!(music_record.borrow().plays, 0);
    assert!(music_record.borrow().volumes.is_empty());
    assert_eq!(records[0].borrow().plays, 0);
}
