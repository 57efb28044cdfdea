//! Play sound effects and music: which sound effects to play, and volumes.
//!
//! Loading and playing audio files is done by an audio backend through the
//! `Audio` trait; this module decides what is played and at which volume.

use vstd::prelude::*;

verus! {

/// Maximum audio volume value of the audio backend.
pub const MAX_VOLUME: i32 = 128;

/// Volume value that settings start with.
pub const DEFAULT_VOLUME: i32 = 128;

/// Volume percentage that audio starts with.
pub const DEFAULT_VOLUME_PERCENTAGE: i32 = 68;

/// Play sound effects.
pub trait SoundEffectPlayer {
    /// Play laser sound at next update.
    fn laser(&mut self);
    /// Play laser bomb launch sound at next update.
    fn laser_bomb_launch(&mut self);
    /// Play laser bomb explosion sound at next update.
    fn laser_bomb_explosion(&mut self);
    /// Play explosion sound at next update.
    fn explosion(&mut self);
    /// Play player laser hits laser cannon sound at next update.
    fn player_laser_hits_laser_cannon(&mut self);
    /// Play sound effects that are set to be played if
    /// sound effects are available.
    fn update(&mut self);
}

/// Loaded sound effect or music of an audio backend.
pub trait Audio: Sized {
    /// Volume value that was last set.
    spec fn volume(&self) -> i32;
    /// How many times it was asked to start playing, counted modulo 2^64.
    spec fn times_played(&self) -> u64;
    /// Start playing.
    fn play(&mut self)
        ensures
            final(self).times_played() == (old(self).times_played() + 1) as u64,
            final(self).volume() == old(self).volume();
    /// Change volume.
    fn change_volume(&mut self, volume: VolumeSDL2)
        ensures
            final(self).volume() == volume.spec_value(),
            final(self).times_played() == old(self).times_played();
}

/// Audio `after` is audio `before` set to volume `volume`, played as often.
pub open spec fn set_to_volume<A: Audio>(before: A, after: A, volume: i32) -> bool {
    after.volume() == volume && after.times_played() == before.times_played()
}

/// Each of audio `after` is the one of `before` at its position, set to
/// volume `volume`.
pub open spec fn all_set_to_volume<A: Audio>(before: Seq<A>, after: Seq<A>, volume: i32) -> bool {
    &&& after.len() == before.len()
    &&& forall|i: int| 0 <= i < after.len() ==> #[trigger] set_to_volume(before[i], after[i], volume)
}

/// Audio volume value.
pub trait Volume: Copy + Sized {
    /// Create new volume value limited to [0; MAX_VOLUME].
    fn new(volume: i32) -> Self;
    /// Volume value.
    fn value(&self) -> i32;
    /// Create Volume value from integer representing
    /// volume percentage. Clamps integer to range [0; 100].
    fn from_percentage(percentage: i32) -> Self;
}

/// `volume` limited to [0; MAX_VOLUME].
pub open spec fn clamp_volume(volume: i32) -> i32 {
    if volume > MAX_VOLUME {
        MAX_VOLUME
    } else if volume < 0 {
        0
    } else {
        volume
    }
}

/// Volume value of `percentage` of the maximum volume, the percentage limited
/// to [0; 100] and the value rounded down.
pub open spec fn volume_of_percentage(percentage: i32) -> i32 {
    let p = if percentage < 0 {
        0
    } else if 100 < percentage {
        100
    } else {
        percentage
    };
    (MAX_VOLUME * p / 100) as i32
}

/// Wrapper for correct audio volume value.
#[derive(Copy, Clone)]
pub struct VolumeSDL2(i32);

impl VolumeSDL2 {
    /// The volume value.
    pub closed spec fn spec_value(&self) -> i32 {
        self.0
    }
}

impl Volume for VolumeSDL2 {
    /// Create new volume value limited to [0; MAX_VOLUME].
    fn new(volume: i32) -> (v: Self)
        ensures
            v.spec_value() == clamp_volume(volume),
    {
        if volume > MAX_VOLUME {
            VolumeSDL2(MAX_VOLUME)
        } else if volume < 0 {
            VolumeSDL2(0)
        } else {
            VolumeSDL2(volume)
        }
    }

    /// Get volume value.
    fn value(&self) -> (v: i32)
        ensures
            v == self.spec_value(),
    {
        self.0
    }

    /// Volume from a percentage of the maximum volume.
    fn from_percentage(percentage: i32) -> (v: Self)
        ensures
            v.spec_value() == volume_of_percentage(percentage),
    {
        let percentage = if percentage < 0 {
            0
        } else if 100 < percentage {
            100
        } else {
            percentage
        };
        let volume = MAX_VOLUME * percentage / 100;
        Self::new(volume)
    }
}

/// All sound effect's that the game requires.
pub struct AllSoundEffects<A: Audio> {
    laser: A,
    explosion: A,
    laser_bomb_launch: A,
    laser_bomb_explosion: A,
    player_laser_hits_laser_cannon: A,
}

impl<A: Audio> AllSoundEffects<A> {
    /// The sound effects: laser, laser bomb launch, laser bomb explosion,
    /// explosion, and player laser hitting a laser cannon, in this order.
    pub closed spec fn effects(&self) -> Seq<A> {
        seq![
            self.laser,
            self.laser_bomb_launch,
            self.laser_bomb_explosion,
            self.explosion,
            self.player_laser_hits_laser_cannon,
        ]
    }

    /// Sound effects that the game requires, all set to volume `default_volume`.
    pub fn new(
        laser: A,
        explosion: A,
        laser_bomb_launch: A,
        laser_bomb_explosion: A,
        player_laser_hits_laser_cannon: A,
        default_volume: VolumeSDL2,
    ) -> (sounds: Self)
        ensures
            all_set_to_volume(
                seq![laser, laser_bomb_launch, laser_bomb_explosion, explosion, player_laser_hits_laser_cannon],
                sounds.effects(),
                default_volume.spec_value(),
            ),
    {
        let mut sounds = AllSoundEffects {
            laser,
            explosion,
            laser_bomb_launch,
            laser_bomb_explosion,
            player_laser_hits_laser_cannon,
        };
        sounds.change_volume(default_volume);
        sounds
    }

    /// Change volume of every sound effect.
    fn change_volume(&mut self, volume: VolumeSDL2)
        ensures
            all_set_to_volume(old(self).effects(), final(self).effects(), volume.spec_value()),
    {
        self.laser.change_volume(volume);
        self.explosion.change_volume(volume);
        self.laser_bomb_launch.change_volume(volume);
        self.laser_bomb_explosion.change_volume(volume);
        self.player_laser_hits_laser_cannon.change_volume(volume);
    }
}

/// Which sound effects are waiting to be played.
pub struct PendingSoundEffects {
    pub laser: bool,
    pub laser_bomb_launch: bool,
    pub laser_bomb_explosion: bool,
    pub explosion: bool,
    pub player_laser_hits_laser_cannon: bool,
}

/// No sound effect is waiting.
pub open spec fn nothing_pending() -> PendingSoundEffects {
    PendingSoundEffects {
        laser: false,
        laser_bomb_launch: false,
        laser_bomb_explosion: false,
        explosion: false,
        player_laser_hits_laser_cannon: false,
    }
}

/// Flags of `pending`, in the order of `AllSoundEffects::effects`.
pub open spec fn pending_flags(pending: PendingSoundEffects) -> Seq<bool> {
    seq![
        pending.laser,
        pending.laser_bomb_launch,
        pending.laser_bomb_explosion,
        pending.explosion,
        pending.player_laser_hits_laser_cannon,
    ]
}

/// Sound effects `after` are sound effects `before` where each one whose flag
/// in `pending` is on was played once more, at the same volumes.
pub open spec fn played_pending<A: Audio>(before: Seq<A>, after: Seq<A>, pending: Seq<bool>) -> bool {
    &&& after.len() == before.len()
    &&& forall|i: int| 0 <= i < after.len() ==> {
        &&& #[trigger] after[i].volume() == before[i].volume()
        &&& after[i].times_played() == if pending[i] {
            (before[i].times_played() + 1) as u64
        } else {
            before[i].times_played()
        }
    }
}

/// Stores sound effects and boolean values about
/// what sound effect should be played.
pub struct SoundEffectManager<A: Audio> {
    sound_effects: Option<AllSoundEffects<A>>,
    laser: bool,
    laser_bomb_launch: bool,
    laser_bomb_explosion: bool,
    explosion: bool,
    player_laser_hits_laser_cannon: bool,
}

impl<A: Audio> SoundEffectManager<A> {
    /// Sound effects waiting to be played.
    pub closed spec fn pending(&self) -> PendingSoundEffects {
        PendingSoundEffects {
            laser: self.laser,
            laser_bomb_launch: self.laser_bomb_launch,
            laser_bomb_explosion: self.laser_bomb_explosion,
            explosion: self.explosion,
            player_laser_hits_laser_cannon: self.player_laser_hits_laser_cannon,
        }
    }

    /// Are sound effects available.
    pub closed spec fn has_sound_effects(&self) -> bool {
        self.sound_effects is Some
    }

    /// The sound effects, if available.
    pub closed spec fn sound_effects(&self) -> Option<AllSoundEffects<A>> {
        self.sound_effects
    }

    /// Create new `SoundEffectManager`.
    ///
    /// If argument `sound_effects` is `None`, sound effects are not played.
    pub fn new(sound_effects: Option<AllSoundEffects<A>>) -> (manager: Self)
        ensures
            manager.pending() == nothing_pending(),
            manager.has_sound_effects() == sound_effects is Some,
            manager.sound_effects() == sound_effects,
    {
        SoundEffectManager {
            sound_effects,
            laser: false,
            laser_bomb_launch: false,
            laser_bomb_explosion: false,
            explosion: false,
            player_laser_hits_laser_cannon: false,
        }
    }

    /// Check if sound effect should be played and plays it with function `play`.
    ///
    /// Resets argument `play_sound_effect` to false if it was true.
    fn play(play_sound_effect: &mut bool, sound_effect: &mut A)
        ensures
            *final(play_sound_effect) == false,
            final(sound_effect).volume() == old(sound_effect).volume(),
            final(sound_effect).times_played() == if *old(play_sound_effect) {
                (old(sound_effect).times_played() + 1) as u64
            } else {
                old(sound_effect).times_played()
            },
    {
        if *play_sound_effect {
            *play_sound_effect = false;
            sound_effect.play();
        }
    }

    /// Change volume of all sound effects if sound effects are available.
    pub fn change_volume(&mut self, volume: VolumeSDL2)
        ensures
            final(self).pending() == old(self).pending(),
            final(self).has_sound_effects() == old(self).has_sound_effects(),
            old(self).has_sound_effects() ==> all_set_to_volume(
                old(self).sound_effects()->Some_0.effects(),
                final(self).sound_effects()->Some_0.effects(),
                volume.spec_value(),
            ),
    {
        if let Some(effects) = &mut self.sound_effects {
            effects.change_volume(volume);
        }
    }
}

impl<A: Audio> SoundEffectPlayer for SoundEffectManager<A> {
    fn laser(&mut self)
        ensures
            final(self).pending() == (PendingSoundEffects { laser: true, ..old(self).pending() }),
            final(self).has_sound_effects() == old(self).has_sound_effects(),
            final(self).sound_effects() == old(self).sound_effects(),
    {
        self.laser = true;
    }

    fn laser_bomb_launch(&mut self)
        ensures
            final(self).pending() == (PendingSoundEffects { laser_bomb_launch: true, ..old(self).pending() }),
            final(self).has_sound_effects() == old(self).has_sound_effects(),
            final(self).sound_effects() == old(self).sound_effects(),
    {
        self.laser_bomb_launch = true;
    }

    fn laser_bomb_explosion(&mut self)
        ensures
            final(self).pending() == (PendingSoundEffects { laser_bomb_explosion: true, ..old(self).pending() }),
            final(self).has_sound_effects() == old(self).has_sound_effects(),
            final(self).sound_effects() == old(self).sound_effects(),
    {
        self.laser_bomb_explosion = true;
    }

    fn explosion(&mut self)
        ensures
            final(self).pending() == (PendingSoundEffects { explosion: true, ..old(self).pending() }),
            final(self).has_sound_effects() == old(self).has_sound_effects(),
            final(self).sound_effects() == old(self).sound_effects(),
    {
        self.explosion = true;
    }

    fn player_laser_hits_laser_cannon(&mut self)
        ensures
            final(self).pending() == (PendingSoundEffects { player_laser_hits_laser_cannon: true, ..old(self).pending() }),
            final(self).has_sound_effects() == old(self).has_sound_effects(),
            final(self).sound_effects() == old(self).sound_effects(),
    {
        self.player_laser_hits_laser_cannon = true;
    }

    /// Plays the waiting sound effects, each one once. Without sound effects
    /// the waiting ones stay waiting.
    fn update(&mut self)
        ensures
            final(self).has_sound_effects() == old(self).has_sound_effects(),
            final(self).pending() == if old(self).has_sound_effects() { nothing_pending() } else { old(self).pending() },
            old(self).has_sound_effects() ==> played_pending(
                old(self).sound_effects()->Some_0.effects(),
                final(self).sound_effects()->Some_0.effects(),
                pending_flags(old(self).pending()),
            ),
    {
        if let Some(effects) = &mut self.sound_effects {
            Self::play(&mut self.laser, &mut effects.laser);
            Self::play(&mut self.laser_bomb_launch, &mut effects.laser_bomb_launch);
            Self::play(&mut self.laser_bomb_explosion, &mut effects.laser_bomb_explosion);
            Self::play(&mut self.explosion, &mut effects.explosion);
            Self::play(&mut self.player_laser_hits_laser_cannon, &mut effects.player_laser_hits_laser_cannon);
        }
    }
}

/// Audio backend: the types of its music and sound effects.
pub trait AudioPlayer {
    type Music: Audio;
    type Effect: Audio;
}

/// Store music, sound effects, volume values.
pub struct AudioManager<P: AudioPlayer> {
    _player: Option<P>,
    sound_effects: SoundEffectManager<P::Effect>,
    music: Option<P::Music>,
    music_volume: VolumeSDL2,
    effect_volume: VolumeSDL2,
}

impl<P: AudioPlayer> AudioManager<P> {
    /// Music volume value.
    pub closed spec fn music_volume(&self) -> i32 {
        self.music_volume.spec_value()
    }

    /// Sound effect volume value.
    pub closed spec fn effect_volume(&self) -> i32 {
        self.effect_volume.spec_value()
    }

    /// Is there music to play.
    pub closed spec fn has_music(&self) -> bool {
        self.music is Some
    }

    /// The music, if there is music to play.
    pub closed spec fn music(&self) -> Option<P::Music> {
        self.music
    }

    /// The sound effect manager.
    pub closed spec fn sound_effects(&self) -> SoundEffectManager<P::Effect> {
        self.sound_effects
    }

    /// Create new `AudioManager` from loaded music and sound effects.
    ///
    /// Volumes start at `DEFAULT_VOLUME_PERCENTAGE`; the music and the sound
    /// effects are set to them. If argument player is `None`, sound effects and
    /// music will be disabled.
    pub fn new(player: Option<P>, music: Option<P::Music>, sound_effects: Option<AllSoundEffects<P::Effect>>) -> (manager: Self)
        ensures
            manager.music_volume() == volume_of_percentage(DEFAULT_VOLUME_PERCENTAGE),
            manager.effect_volume() == volume_of_percentage(DEFAULT_VOLUME_PERCENTAGE),
            manager.has_music() == (player is Some && music is Some),
            manager.sound_effects().has_sound_effects() == (player is Some && sound_effects is Some),
            manager.sound_effects().pending() == nothing_pending(),
            manager.has_music() ==> set_to_volume(music->Some_0, manager.music()->Some_0, manager.music_volume()),
            manager.sound_effects().has_sound_effects() ==> all_set_to_volume(
                sound_effects->Some_0.effects(),
                manager.sound_effects().sound_effects()->Some_0.effects(),
                manager.effect_volume(),
            ),
    {
        let music_volume = VolumeSDL2::from_percentage(DEFAULT_VOLUME_PERCENTAGE);
        let effect_volume = VolumeSDL2::from_percentage(DEFAULT_VOLUME_PERCENTAGE);
        match player {
            Some(_) => {
                let music = match music {
                    Some(mut music) => {
                        music.change_volume(music_volume);
                        Some(music)
                    },
                    None => None,
                };
                let sound_effects = match sound_effects {
                    Some(mut effects) => {
                        effects.change_volume(effect_volume);
                        Some(effects)
                    },
                    None => None,
                };
                AudioManager {
                    sound_effects: SoundEffectManager::new(sound_effects),
                    music,
                    music_volume,
                    effect_volume,
                    _player: player,
                }
            },
            None => AudioManager {
                sound_effects: SoundEffectManager::new(None),
                music: None,
                music_volume,
                effect_volume,
                _player: None,
            },
        }
    }

    /// Get `SoundEffectManager`
    pub fn sound_effect_manager_mut(&mut self) -> (manager: &mut SoundEffectManager<P::Effect>)
        ensures
            *manager == old(self).sound_effects(),
            final(self).sound_effects() == *final(manager),
            final(self).music_volume() == old(self).music_volume(),
            final(self).effect_volume() == old(self).effect_volume(),
            final(self).has_music() == old(self).has_music(),
    {
        &mut self.sound_effects
    }

    /// Set music volume.
    pub fn set_music_volume(&mut self, volume_percentage: i32)
        ensures
            final(self).music_volume() == volume_of_percentage(volume_percentage),
            final(self).effect_volume() == old(self).effect_volume(),
            final(self).has_music() == old(self).has_music(),
            final(self).sound_effects() == old(self).sound_effects(),
            old(self).has_music() ==> set_to_volume(
                old(self).music()->Some_0,
                final(self).music()->Some_0,
                volume_of_percentage(volume_percentage),
            ),
    {
        self.music_volume = VolumeSDL2::from_percentage(volume_percentage);
        if let Some(music) = &mut self.music {
            music.change_volume(self.music_volume);
        }
    }

    /// Start playing music.
    pub fn play_music(&mut self)
        ensures
            final(self).music_volume() == old(self).music_volume(),
            final(self).effect_volume() == old(self).effect_volume(),
            final(self).has_music() == old(self).has_music(),
            final(self).sound_effects() == old(self).sound_effects(),
            old(self).has_music() ==> {
                &&& final(self).music()->Some_0.times_played() == (old(self).music()->Some_0.times_played() + 1) as u64
                &&& final(self).music()->Some_0.volume() == old(self).music()->Some_0.volume()
            },
    {
        if let Some(music) = &mut self.music {
            music.play();
        }
    }

    /// Set sound effect volume.
    pub fn set_sound_effect_volume(&mut self, volume_percentage: i32)
        ensures
            final(self).effect_volume() == volume_of_percentage(volume_percentage),
            final(self).music_volume() == old(self).music_volume(),
            final(self).has_music() == old(self).has_music(),
            final(self).sound_effects().pending() == old(self).sound_effects().pending(),
            final(self).sound_effects().has_sound_effects() == old(self).sound_effects().has_sound_effects(),
            final(self).music() == old(self).music(),
            old(self).sound_effects().has_sound_effects() ==> all_set_to_volume(
                old(self).sound_effects().sound_effects()->Some_0.effects(),
                final(self).sound_effects().sound_effects()->Some_0.effects(),
                volume_of_percentage(volume_percentage),
            ),
    {
        self.effect_volume = VolumeSDL2::from_percentage(volume_percentage);
        self.sound_effects.change_volume(self.effect_volume);
    }
}

/// A volume percentage gives a volume between silence and the maximum: 0% and
/// below are silent, 100% and above are the maximum, and a larger percentage is
/// never quieter.
pub proof fn lemma_volume_of_percentage(a: i32, b: i32)
    requires
        a <= b,
    ensures
        0 <= volume_of_percentage(a) <= MAX_VOLUME,
        a <= 0 ==> volume_of_percentage(a) == 0,
        b >= 100 ==> volume_of_percentage(b) == MAX_VOLUME,
        volume_of_percentage(a) <= volume_of_percentage(b),
{
    let pa: int = if a < 0 { 0 } else if 100 < a { 100 } else { a as int };
    let pb: int = if b < 0 { 0 } else if 100 < b { 100 } else { b as int };
    assert(pa <= pb);
    assert(128 * pa / 100 <= 128 * pb / 100) by (nonlinear_arith)
        requires
            0 <= pa <= pb <= 100,
    ;
    assert(0 <= 128 * pa / 100 <= 128) by (nonlinear_arith)
        requires
            0 <= pa <= 100,
    ;
}

} // verus!
