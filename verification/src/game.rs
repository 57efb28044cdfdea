//! The game's reactions to GUI events: quitting, changing settings, starting
//! games and levels, and whether the game logic is updated and rendered.

use vstd::prelude::*;
use crate::gui::{game_rendering_and_updating, GUIEvent, GUIState};
use crate::logic::{logic_after_reset, Logic, LAST_LEVEL_INDEX, PLAYER_MAX_HEALTH, ENEMY_MAX_HEALTH};
use crate::settings::{update_first_match, SettingType, Settings};
use crate::utils::TimeMilliseconds;

verus! {

/// Whether the game quits, and whether the game logic is rendered and updated.
#[derive(Copy, Clone, PartialEq, Eq, Structural, Debug)]
pub struct GameFlags {
    pub quit: bool,
    pub render_game: bool,
    pub update_game: bool,
}

/// What the caller does after a GUI event: apply a changed setting to the
/// renderer, GUI, audio and window, and show new health values.
#[derive(Copy, Clone, PartialEq, Eq, Debug)]
pub struct GameEventResult {
    pub apply_setting: Option<SettingType>,
    pub health: Option<(Option<u32>, Option<u32>)>,
}

/// Flags after GUI event `event`.
pub open spec fn flags_after_event(flags: GameFlags, event: GUIEvent) -> GameFlags {
    match event {
        GUIEvent::Exit => GameFlags { quit: true, ..flags },
        GUIEvent::NewGame(_) | GUIEvent::NextLevel | GUIEvent::ChangeState(GUIState::Game) => GameFlags {
            render_game: true,
            update_game: true,
            ..flags
        },
        GUIEvent::ChangeState(GUIState::PauseMenu)
        | GUIEvent::ChangeState(GUIState::NextLevelScreen)
        | GUIEvent::ChangeState(GUIState::GameOverScreen)
        | GUIEvent::ChangeState(GUIState::PlayerWinsScreen) => GameFlags {
            render_game: true,
            update_game: false,
            ..flags
        },
        GUIEvent::ChangeState(_) => GameFlags { render_game: false, update_game: false, ..flags },
        GUIEvent::ChangeSetting(_) => flags,
    }
}

/// Reacts to GUI event `event` at game time `current_time`: `Exit` quits, a
/// changed setting is stored and returned to be applied, a new game starts at
/// the first level of its difficulty, the next level follows the current one,
/// and state changes set whether the game is rendered and updated.
pub fn handle_game_gui_event(
    flags: &mut GameFlags,
    logic: &mut Logic,
    settings: &mut Settings,
    event: GUIEvent,
    current_time: &TimeMilliseconds,
) -> (result: GameEventResult)
    requires
        old(logic).wf(),
        event == GUIEvent::NextLevel ==> old(logic)@.level < LAST_LEVEL_INDEX,
    ensures
        final(logic).wf(),
        *final(flags) == flags_after_event(*old(flags), event),
        final(settings).names() == old(settings).names(),
        final(settings).mappings() == old(settings).mappings(),
        final(settings).arguments() == old(settings).arguments(),
        final(settings).values() == match event {
            GUIEvent::ChangeSetting(value) => update_first_match(old(settings).values(), value),
            _ => old(settings).values(),
        },
        old(settings).wf() ==> final(settings).wf(),
        result.apply_setting == match event {
            GUIEvent::ChangeSetting(value) => Some(value),
            _ => None,
        },
        result.health == match event {
            GUIEvent::NewGame(_) | GUIEvent::NextLevel => Some((Some(PLAYER_MAX_HEALTH as u32), Some(ENEMY_MAX_HEALTH as u32))),
            _ => None,
        },
        final(logic)@ == match event {
            GUIEvent::NewGame(difficulty) => logic_after_reset(old(logic)@, difficulty, 0, current_time.0),
            GUIEvent::NextLevel => logic_after_reset(
                old(logic)@,
                old(logic)@.current_difficulty,
                (old(logic)@.level + 1) as u32,
                current_time.0,
            ),
            _ => old(logic)@,
        },
{
    let mut result = GameEventResult { apply_setting: None, health: None };
    match event {
        GUIEvent::Exit => {
            flags.quit = true;
        },
        GUIEvent::ChangeSetting(new_setting_value) => {
            settings.update_setting(new_setting_value);
            result.apply_setting = Some(new_setting_value);
        },
        GUIEvent::NewGame(difficulty) => {
            result.health = Some(logic.reset_game(difficulty, 0, current_time));
        },
        GUIEvent::NextLevel => {
            result.health = Some(logic.reset_to_next_level(current_time));
        },
        GUIEvent::ChangeState(_) => {},
    }
    if let Some((render_game, update_game)) = game_rendering_and_updating(event) {
        flags.render_game = render_game;
        flags.update_game = update_game;
    }
    result
}

} // verus!
