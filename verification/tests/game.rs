use space_boss_battles::game::{handle_game_gui_event, GameFlags};
use space_boss_battles::gui::{GUIEvent, GUIState};
use space_boss_battles::logic::{Difficulty, Logic};
use space_boss_battles::settings::{Arguments, BooleanSetting, SettingType, Settings};
use space_boss_battles::utils::TimeMilliseconds;

fn start() -> (GameFlags, Logic, Settings) {
    let flags = GameFlags { quit: false, render_game: false, update_game: false };
    let settings = Settings::new(Arguments::parse(vec!["game".to_string()]).ok().unwrap());
    (flags, Logic::new(), settings)
}

#[test]
fn new_game_starts_rendering_and_updating() {
    let (mut flags, mut logic, mut settings) = start();
    let t = TimeMilliseconds(0);
    let result = handle_game_gui_event(&mut flags, &mut logic, &mut settings, GUIEvent::NewGame(Difficulty::Hard), &t);
    assert_eq!(result.health, Some((Some(100), Some(100))));
    assert_eq!(result.apply_setting, None);
    assert_eq!(flags, GameFlags { quit: false, render_game: true, update_game: true });
    assert_eq!(logic.level(), 0);
    let result = handle_game_gui_event(&mut flags, &mut logic, &mut settings, GUIEvent::NextLevel, &t);
    assert_eq!(result.health, Some((Some(100), Some(100))));
    assert_eq!(logic.level(), 1);
}

#[test]
fn pause_renders_without_updating_and_menus_do_neither() {
    let (mut flags, mut logic, mut settings) = start();
    let t = TimeMilliseconds(0);
    handle_game_gui_event(&mut flags, &mut logic, &mut settings, GUIEvent::ChangeState(GUIState::Game), &t);
    assert_eq!(flags, GameFlags { quit: false, render_game: true, update_game: true });
    handle_game_gui_event(&mut flags, &mut logic, &mut settings, GUIEvent::ChangeState(GUIState::PauseMenu), &t);
    assert_eq!(flags, GameFlags { quit: false, render_game: true, update_game: false });
    handle_game_gui_event(&mut flags, &mut logic, &mut settings, GUIEvent::ChangeState(GUIState::MainMenu), &t);
    assert_eq!(flags, GameFlags { quit: false, render_game: false, update_game: false });
    handle_game_gui_event(&mut flags, &mut logic, &mut settings, GUIEvent::Exit, &t);
    assert!(flags.quit);
}

#[test]
fn changed_setting_is_stored_and_returned() {
    let (mut flags, mut logic, mut settings) = start();
    let value = SettingType::Boolean(BooleanSetting::ShowFpsCounter, true);
    let result = handle_game_gui_event(&mut flags, &mut logic, &mut settings, GUIEvent::ChangeSetting(value), &TimeMilliseconds(0));
    assert_eq!(result.apply_setting, Some(value));
    assert_eq!(settings.get_settings()[1].get_value(), value);
    assert_eq!(flags, GameFlags { quit: false, render_game: false, update_game: false });
}
