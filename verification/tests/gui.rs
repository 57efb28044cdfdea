use space_boss_battles::gui::components::{
    health_bar_state, tile_map_index_from_char, GUIArea, GUIButton, GUIComponentState, GUIGroup, GUIGroupBuilder, GUIUserInteraction,
};
use space_boss_battles::gui::{
    back_key_event, game_rendering_and_updating, handle_button_input, BasicGUILayer, ButtonInput, GUIEvent, GUIState,
    PauseMenu, SettingsMenu, GUI,
};
use space_boss_battles::gui::settings::{Setting, SettingEvent, Settings as GUISettings, SettingType as GUISettingType};
use space_boss_battles::input::{Input, InputManager, Key};
use space_boss_battles::logic::Difficulty;
use space_boss_battles::settings::{Arguments, BooleanSetting, IntegerSetting, SettingType, Settings};
use space_boss_battles::utils::TimeMilliseconds;

/// A horizontal span of the screen: points are x coordinates.
#[derive(Clone, Copy)]
struct Span(i32, i32);

impl GUIArea for Span {
    type Point = i32;

    fn covers(&self, point: &i32) -> bool {
        self.0 <= *point && *point < self.1
    }

    fn collision(&self, point: &i32) -> bool {
        self.covers(point)
    }
}

fn span(i: i32) -> Span {
    Span(i * 10, i * 10 + 10)
}

fn events(group: &GUIGroup<GUIButton<Span>>) -> Vec<GUIEvent> {
    group.get_components().iter().map(|b| b.event_data()).collect()
}

fn selected(group: &GUIGroup<GUIButton<Span>>) -> Vec<bool> {
    group.get_components().iter().map(|b| b.state() == GUIComponentState::Selected).collect()
}

fn key_hit(input: &mut InputManager, key: Key) {
    input.update_key_down(key, &TimeMilliseconds(0));
    input.update_key_up(key, &TimeMilliseconds(1));
}

fn settings() -> Settings {
    Settings::new(Arguments::parse(vec!["game".to_string()]).ok().unwrap())
}

fn gui() -> GUI<Span> {
    let s = settings();
    GUI::new(
        BasicGUILayer::main_menu(span(0), span(1), span(2)),
        PauseMenu::new(span(0), span(1)),
        SettingsMenu::new(&s, (0..5).map(span).collect(), span(5)),
        BasicGUILayer::difficulty_selection_menu(span(0), span(1), span(2), span(3)),
        BasicGUILayer::game_over_screen(span(0)),
        BasicGUILayer::player_wins_screen(span(0)),
        BasicGUILayer::next_level_screen(span(0)),
    )
}

#[test]
fn selection_wraps_around() {
    let mut builder = GUIGroupBuilder::new();
    builder.add(GUIButton::new(span(0), GUIEvent::Exit));
    builder.add(GUIButton::new(span(1), GUIEvent::NextLevel));
    let mut group = builder.create_gui_group().add(GUIButton::new(span(2), GUIEvent::NewGame(Difficulty::Hard)));
    assert_eq!(selected(&group), vec![true, false, false]);
    group.selection_up();
    assert_eq!(selected(&group), vec![false, false, true]);
    assert_eq!(group.event_of_currently_selected_component(), GUIEvent::NewGame(Difficulty::Hard));
    group.selection_down();
    assert_eq!(selected(&group), vec![true, false, false]);
    group.selection_down();
    group.selection_down();
    group.selection_down();
    assert_eq!(selected(&group), vec![true, false, false]);
}

#[test]
fn mouse_selects_and_clicks_buttons() {
    let mut group = GUIGroup::new(GUIButton::new(span(0), GUIEvent::Exit)).add(GUIButton::new(span(1), GUIEvent::NextLevel));
    group.update_selection(&15);
    assert_eq!(selected(&group), vec![false, true]);
    group.update_selection(&100);
    assert_eq!(selected(&group), vec![false, true]);
    assert_eq!(group.check_collision_and_return_event(&3), Some(GUIEvent::Exit));
    assert_eq!(group.check_collision_and_return_event(&-1), None);
    group.set_event_of_currently_selected_component(GUIEvent::ChangeState(GUIState::Game));
    assert_eq!(events(&group), vec![GUIEvent::Exit, GUIEvent::ChangeState(GUIState::Game)]);
}

#[test]
fn default_input_handling_reads_hits_in_order() {
    let mut menu = BasicGUILayer::main_menu(span(0), span(1), span(2));
    let mut input = InputManager::new();
    key_hit(&mut input, Key::Down);
    key_hit(&mut input, Key::Select);
    // The down key decides; the enter hit stays for the next update.
    assert_eq!(menu.handle_input(&mut input, &0), None);
    assert_eq!(menu.handle_input(&mut input, &0), Some(GUIEvent::ChangeState(GUIState::SettingsMenu)));
    assert_eq!(menu.handle_input(&mut input, &0), None);
    input.update_mouse_button_up();
    assert_eq!(menu.handle_input(&mut input, &25), Some(GUIEvent::Exit));
    input.update_mouse_motion();
    assert_eq!(menu.handle_input(&mut input, &5), None);
    assert_eq!(selected(menu.get_buttons()), vec![true, false, false]);
}

#[test]
fn handle_button_input_reports_the_deciding_input() {
    let mut group = GUIGroup::new(GUIButton::new(span(0), GUIEvent::Exit));
    let mut input = InputManager::new();
    let (kind, event) = handle_button_input(&mut group, &mut input, &0);
    assert!(matches!(kind, ButtonInput::Other));
    assert_eq!(event, None);
    key_hit(&mut input, Key::Up);
    let (kind, _) = handle_button_input(&mut group, &mut input, &0);
    assert!(matches!(kind, ButtonInput::SelectionUp));
}

#[test]
fn difficulty_menu_starts_at_normal() {
    let mut menu = BasicGUILayer::difficulty_selection_menu(span(0), span(1), span(2), span(3));
    let mut input = InputManager::new();
    key_hit(&mut input, Key::Select);
    assert_eq!(menu.handle_input(&mut input, &0), Some(GUIEvent::NewGame(Difficulty::Normal)));
}

#[test]
fn pause_menu_selection_returns_to_continue() {
    let mut menu = PauseMenu::new(span(0), span(1));
    let mut input = InputManager::new();
    key_hit(&mut input, Key::Down);
    assert_eq!(menu.handle_input(&mut input, &0), None);
    key_hit(&mut input, Key::Select);
    assert_eq!(menu.handle_input(&mut input, &0), Some(GUIEvent::ChangeState(GUIState::MainMenu)));
    assert_eq!(selected(menu.get_buttons()), vec![true, false]);
}

#[test]
fn settings_menu_toggles_boolean_settings() {
    let s = settings();
    let mut menu = SettingsMenu::new(&s, (0..5).map(span).collect(), span(5));
    assert_eq!(
        events(menu.get_buttons()),
        vec![
            GUIEvent::ChangeSetting(SettingType::Boolean(BooleanSetting::FullScreen, false)),
            GUIEvent::ChangeSetting(SettingType::Boolean(BooleanSetting::ShowFpsCounter, false)),
            GUIEvent::ChangeSetting(SettingType::Boolean(BooleanSetting::VSync, true)),
            GUIEvent::ChangeSetting(SettingType::Integer(IntegerSetting::MusicVolume, 128)),
            GUIEvent::ChangeSetting(SettingType::Integer(IntegerSetting::SoundEffectVolume, 128)),
            GUIEvent::ChangeState(GUIState::MainMenu),
        ]
    );
    let mut input = InputManager::new();
    input.update_mouse_button_up();
    assert_eq!(
        menu.handle_input(&mut input, &25),
        Some(GUIEvent::ChangeSetting(SettingType::Boolean(BooleanSetting::VSync, false)))
    );
    assert_eq!(events(menu.get_buttons())[2], GUIEvent::ChangeSetting(SettingType::Boolean(BooleanSetting::VSync, false)));
    assert_eq!(menu.update_boolean_setting(BooleanSetting::VSync, true), None);
    assert_eq!(
        menu.update_boolean_setting(BooleanSetting::VSync, false),
        Some(SettingType::Boolean(BooleanSetting::VSync, true))
    );
}

#[test]
fn settings_menu_changes_selected_volume() {
    let s = settings();
    let mut menu = SettingsMenu::new(&s, (0..5).map(span).collect(), span(5));
    let mut input = InputManager::new();
    // Not a volume button.
    key_hit(&mut input, Key::Left);
    assert_eq!(menu.handle_input(&mut input, &0), None);
    for _ in 0..3 {
        key_hit(&mut input, Key::Down);
        menu.handle_input(&mut input, &0);
    }
    key_hit(&mut input, Key::Left);
    assert_eq!(
        menu.handle_input(&mut input, &0),
        Some(GUIEvent::ChangeSetting(SettingType::Integer(IntegerSetting::MusicVolume, 108)))
    );
    key_hit(&mut input, Key::Right);
    key_hit(&mut input, Key::Right);
    assert_eq!(
        menu.handle_input(&mut input, &0),
        Some(GUIEvent::ChangeSetting(SettingType::Integer(IntegerSetting::MusicVolume, 128)))
    );
    assert_eq!(
        menu.update_currently_selected_integer_setting(-1000),
        Some(GUIEvent::ChangeSetting(SettingType::Integer(IntegerSetting::MusicVolume, 0)))
    );
    assert_eq!(
        menu.update_currently_selected_integer_setting(i32::MAX),
        Some(GUIEvent::ChangeSetting(SettingType::Integer(IntegerSetting::MusicVolume, 128)))
    );
}

#[test]
fn gui_state_follows_events() {
    let mut gui = gui();
    assert_eq!(gui.state(), GUIState::MainMenu);
    let mut input = InputManager::new();
    key_hit(&mut input, Key::Select);
    assert_eq!(gui.handle_input(&mut input, &0), Some(GUIEvent::ChangeState(GUIState::DifficultySelectionMenu)));
    assert_eq!(gui.state(), GUIState::DifficultySelectionMenu);
    key_hit(&mut input, Key::Select);
    assert_eq!(gui.handle_input(&mut input, &0), Some(GUIEvent::NewGame(Difficulty::Normal)));
    assert_eq!(gui.state(), GUIState::Game);
    assert!(gui.current_buttons().is_none());
    assert_eq!(gui.handle_input(&mut input, &0), None);
    key_hit(&mut input, Key::Back);
    assert_eq!(gui.handle_input(&mut input, &0), Some(GUIEvent::ChangeState(GUIState::PauseMenu)));
    assert_eq!(gui.state(), GUIState::PauseMenu);
    key_hit(&mut input, Key::Back);
    assert_eq!(gui.handle_input(&mut input, &0), Some(GUIEvent::ChangeState(GUIState::Game)));
    gui.handle_gui_event(GUIEvent::ChangeState(GUIState::GameOverScreen));
    assert_eq!(gui.state(), GUIState::GameOverScreen);
    gui.handle_gui_event(GUIEvent::Exit);
    assert_eq!(gui.state(), GUIState::GameOverScreen);
    gui.handle_gui_event(GUIEvent::NextLevel);
    assert_eq!(gui.state(), GUIState::Game);
}

#[test]
fn back_key_events() {
    assert_eq!(back_key_event(GUIState::Game), Some(GUIEvent::ChangeState(GUIState::PauseMenu)));
    assert_eq!(back_key_event(GUIState::PauseMenu), Some(GUIEvent::ChangeState(GUIState::Game)));
    assert_eq!(back_key_event(GUIState::MainMenu), None);
}

#[test]
fn game_rendering_and_updating_by_event() {
    assert_eq!(game_rendering_and_updating(GUIEvent::NewGame(Difficulty::Easy)), Some((true, true)));
    assert_eq!(game_rendering_and_updating(GUIEvent::NextLevel), Some((true, true)));
    assert_eq!(game_rendering_and_updating(GUIEvent::ChangeState(GUIState::PauseMenu)), Some((true, false)));
    assert_eq!(game_rendering_and_updating(GUIEvent::ChangeState(GUIState::GameOverScreen)), Some((true, false)));
    assert_eq!(game_rendering_and_updating(GUIEvent::ChangeState(GUIState::MainMenu)), Some((false, false)));
    assert_eq!(game_rendering_and_updating(GUIEvent::Exit), None);
}

#[test]
fn font_tile_positions() {
    assert_eq!(tile_map_index_from_char('0'), (0, 0));
    assert_eq!(tile_map_index_from_char('9'), (9, 0));
    assert_eq!(tile_map_index_from_char('A'), (10, 0));
    assert_eq!(tile_map_index_from_char('F'), (15, 0));
    assert_eq!(tile_map_index_from_char('G'), (0, 1));
    assert_eq!(tile_map_index_from_char('Z'), (3, 2));
    assert_eq!(tile_map_index_from_char(' '), (4, 2));
    assert_eq!(tile_map_index_from_char('a'), (5, 2));
    assert_eq!(tile_map_index_from_char('z'), (14, 3));
    assert_eq!(tile_map_index_from_char('!'), (4, 2));
}

#[test]
fn health_bar_fill_and_color() {
    assert_eq!(health_bar_state(100, 100, 25, true), (100, false));
    assert_eq!(health_bar_state(25, 100, 25, true), (25, true));
    assert_eq!(health_bar_state(25, 100, 25, false), (25, false));
    assert_eq!(health_bar_state(300, 128, 0, false), (128, false));
    assert_eq!(health_bar_state(0, 128, 0, true), (0, true));
}

#[test]
fn gui_settings_toggle_one_at_a_time() {
    let mut settings = GUISettings::new();
    let names: Vec<String> = settings.get_settings().iter().map(|s| s.get_name().to_string()).collect();
    assert_eq!(names, vec!["Full screen", "FPS counter", "VSync"]);
    assert_eq!(
        settings.event_from_index(2),
        Some(GUIEvent::ChangeSetting(SettingType::Boolean(BooleanSetting::VSync, false)))
    );
    assert_eq!(settings.get_settings()[2].get_value(), GUISettingType::Boolean(SettingEvent::VSync, false));
    assert_eq!(
        settings.event_from_index(0),
        Some(GUIEvent::ChangeSetting(SettingType::Boolean(BooleanSetting::FullScreen, true)))
    );
    assert_eq!(settings.get_settings()[1].get_value(), GUISettingType::Boolean(SettingEvent::ShowFpsCounter, false));
}

#[test]
fn gui_layers_keep_their_selection() {
    let mut gui = gui();
    let mut input = InputManager::new();
    key_hit(&mut input, Key::Down);
    assert_eq!(gui.handle_input(&mut input, &0), None);
    assert_eq!(selected(gui.current_buttons().unwrap()), vec![false, true, false]);
    key_hit(&mut input, Key::Select);
    assert_eq!(gui.handle_input(&mut input, &0), Some(GUIEvent::ChangeState(GUIState::SettingsMenu)));
    assert_eq!(gui.current_buttons().unwrap().get_components().len(), 6);
    gui.handle_gui_event(GUIEvent::ChangeState(GUIState::MainMenu));
    assert_eq!(selected(gui.current_buttons().unwrap()), vec![false, true, false]);
}
