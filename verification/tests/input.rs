use space_boss_battles::input::{Input, InputManager, Key, KeyEvent, KeyHitGenerator, KeyboardManager};
use space_boss_battles::utils::TimeMilliseconds;
use space_boss_battles::window::{
    default_game_controller_mapping, handle_window_event, keycode_to_key, GameControllerAxis, GameControllerButton,
    GameControllerManager, Keycode, WindowEvent, DEFAULT_GAME_CONTROLLER_MAPPING, PAUSE_KEY,
};

#[test]
fn key_press_and_release_gives_one_key_hit() {
    let mut generator = KeyHitGenerator::new();
    generator.update_from_key_event(KeyEvent::KeyDown, &TimeMilliseconds(10));
    generator.update_from_key_event(KeyEvent::KeyUp, &TimeMilliseconds(50));
    assert!(generator.key_hit());
    assert!(!generator.key_hit());
}

#[test]
fn held_key_generates_key_hits_every_300_milliseconds() {
    let mut generator = KeyHitGenerator::new();
    generator.update_from_key_event(KeyEvent::KeyDown, &TimeMilliseconds(0));
    generator.update(&TimeMilliseconds(299), true);
    assert!(!generator.key_hit());
    generator.update(&TimeMilliseconds(300), true);
    assert!(generator.key_hit());
    generator.update(&TimeMilliseconds(599), true);
    assert!(!generator.key_hit());
    generator.update(&TimeMilliseconds(600), true);
    assert!(generator.key_hit());
    // Releasing a scrolling key gives no extra key hit.
    generator.update_from_key_event(KeyEvent::KeyUp, &TimeMilliseconds(650));
    assert!(!generator.key_hit());
}

#[test]
fn released_key_generates_nothing() {
    let mut generator = KeyHitGenerator::new();
    generator.update(&TimeMilliseconds(1000), false);
    assert!(!generator.key_hit());
    generator.update_from_key_event(KeyEvent::KeyDown, &TimeMilliseconds(0));
    generator.update(&TimeMilliseconds(1000), false);
    assert!(!generator.key_hit());
    generator.clear();
    assert!(!generator.key_hit());
}

#[test]
fn keyboard_manager_update_clears_select_and_back_hits() {
    let mut keyboard = KeyboardManager::new();
    keyboard.update_keys(Key::Select, KeyEvent::KeyUp, &TimeMilliseconds(5));
    keyboard.update_keys(Key::Back, KeyEvent::KeyUp, &TimeMilliseconds(5));
    keyboard.update(&TimeMilliseconds(6));
    let mut input = InputManager::new();
    input.update_key_up(Key::Select, &TimeMilliseconds(5));
    assert!(input.key_hit_enter());
    assert!(!input.key_hit_enter());
    input.update_key_up(Key::Back, &TimeMilliseconds(5));
    input.update(&TimeMilliseconds(6));
    assert!(!input.key_hit_back());
}

#[test]
fn input_manager_tracks_keys_and_hits() {
    let mut input = InputManager::new();
    assert!(!input.up());
    input.update_key_down(Key::Up, &TimeMilliseconds(0));
    input.update_key_down(Key::Shoot, &TimeMilliseconds(0));
    assert!(input.up());
    assert!(input.shoot());
    assert!(!input.key_hit_up());
    input.update_key_up(Key::Up, &TimeMilliseconds(100));
    assert!(!input.up());
    assert!(input.key_hit_up());
    assert!(!input.key_hit_up());
    input.update_key_down(Key::Left, &TimeMilliseconds(200));
    input.update(&TimeMilliseconds(500));
    assert!(input.left());
    assert!(input.key_hit_left());
    input.update_key_down(Key::Right, &TimeMilliseconds(600));
    input.update_key_up(Key::Right, &TimeMilliseconds(610));
    assert!(input.key_hit_right());
    input.update_key_down(Key::Down, &TimeMilliseconds(700));
    input.update_key_up(Key::Down, &TimeMilliseconds(710));
    assert!(input.key_hit_down());
}

#[test]
fn input_manager_mouse_flags_reset_when_read() {
    let mut input = InputManager::new();
    assert!(!input.mouse_motion());
    input.update_mouse_motion();
    input.update_mouse_button_up();
    assert!(input.mouse_motion());
    assert!(!input.mouse_motion());
    assert!(input.mouse_button_hit());
    assert!(!input.mouse_button_hit());
    input.update_mouse_button_up();
    input.update(&TimeMilliseconds(1));
    assert!(!input.mouse_button_hit());
}

#[test]
fn keycodes_map_to_keys() {
    assert_eq!(keycode_to_key(Keycode::W), Some(Key::Up));
    assert_eq!(keycode_to_key(Keycode::Up), Some(Key::Up));
    assert_eq!(keycode_to_key(Keycode::S), Some(Key::Down));
    assert_eq!(keycode_to_key(Keycode::A), Some(Key::Left));
    assert_eq!(keycode_to_key(Keycode::Right), Some(Key::Right));
    assert_eq!(keycode_to_key(Keycode::LCtrl), Some(Key::Shoot));
    assert_eq!(keycode_to_key(Keycode::Space), Some(Key::Shoot));
    assert_eq!(keycode_to_key(Keycode::Return), Some(Key::Select));
    assert_eq!(keycode_to_key(PAUSE_KEY), Some(Key::Back));
    assert_eq!(keycode_to_key(Keycode::P), None);
    assert_eq!(keycode_to_key(Keycode::Other), None);
}

#[test]
fn game_controller_buttons_map_to_keys() {
    assert_eq!(GameControllerManager::button_to_key(GameControllerButton::DPadUp), Some(Key::Up));
    assert_eq!(GameControllerManager::button_to_key(GameControllerButton::DPadDown), Some(Key::Down));
    assert_eq!(GameControllerManager::button_to_key(GameControllerButton::DPadLeft), Some(Key::Left));
    assert_eq!(GameControllerManager::button_to_key(GameControllerButton::DPadRight), Some(Key::Right));
    assert_eq!(GameControllerManager::button_to_key(GameControllerButton::A), Some(Key::Shoot));
    assert_eq!(GameControllerManager::button_to_key(GameControllerButton::RightShoulder), Some(Key::Shoot));
    assert_eq!(GameControllerManager::button_to_key(GameControllerButton::Back), Some(Key::Back));
    assert_eq!(GameControllerManager::button_to_key(GameControllerButton::Start), None);
    assert_eq!(GameControllerManager::button_to_key(GameControllerButton::B), None);
}

#[test]
fn stick_motion_presses_and_releases_arrow_keys() {
    let mut input = InputManager::new();
    GameControllerManager::handle_axis_motion(GameControllerAxis::LeftX, 20000, &mut input, &TimeMilliseconds(0));
    assert!(input.right());
    GameControllerManager::handle_axis_motion(GameControllerAxis::LeftX, 10000, &mut input, &TimeMilliseconds(10));
    assert!(!input.right());
    assert!(input.key_hit_right());
    GameControllerManager::handle_axis_motion(GameControllerAxis::RightY, -10001, &mut input, &TimeMilliseconds(20));
    assert!(input.up());
    GameControllerManager::handle_axis_motion(GameControllerAxis::RightY, 0, &mut input, &TimeMilliseconds(30));
    assert!(!input.up());
    GameControllerManager::handle_axis_motion(GameControllerAxis::TriggerLeft, 101, &mut input, &TimeMilliseconds(40));
    assert!(input.shoot());
    GameControllerManager::handle_axis_motion(GameControllerAxis::TriggerRight, 100, &mut input, &TimeMilliseconds(50));
    assert!(!input.shoot());
}

#[test]
fn removing_game_controller_swaps_last_into_place() {
    let mut manager = GameControllerManager::new();
    manager.add_game_controller(4);
    manager.add_game_controller(7);
    manager.add_game_controller(9);
    assert!(!manager.remove_game_controller(5));
    assert!(manager.remove_game_controller(4));
    assert!(!manager.remove_game_controller(4));
    assert!(manager.remove_game_controller(7));
    assert!(manager.remove_game_controller(9));
    assert!(!manager.remove_game_controller(9));
}

#[test]
fn default_mapping_joins_guid_name_and_buttons() {
    let mapping = default_game_controller_mapping("0300", "USB Gamepad ");
    assert!(mapping.starts_with("0300,USB Gamepad , a:b2, b:b1"));
    assert!(mapping.ends_with("lefttrigger:b4, righttrigger:b5"));
    assert_eq!(mapping.len(), "0300,USB Gamepad ".len() + DEFAULT_GAME_CONTROLLER_MAPPING.len());
}

#[test]
fn window_events_reach_the_input() {
    let mut input = InputManager::new();
    let mut controllers = GameControllerManager::new();
    controllers.add_game_controller(3);
    let t = TimeMilliseconds(5);
    assert!(!handle_window_event(WindowEvent::ControllerButtonDown(GameControllerButton::A), &mut input, &mut controllers, &t));
    assert!(input.shoot());
    assert!(!handle_window_event(WindowEvent::ControllerButtonUp(GameControllerButton::A), &mut input, &mut controllers, &t));
    assert!(!input.shoot());
    assert!(input.key_hit_enter());
    handle_window_event(WindowEvent::KeyDown(Keycode::D), &mut input, &mut controllers, &t);
    assert!(input.right());
    handle_window_event(WindowEvent::KeyUp(Keycode::Escape), &mut input, &mut controllers, &t);
    assert!(input.key_hit_back());
    handle_window_event(WindowEvent::KeyDown(Keycode::P), &mut input, &mut controllers, &t);
    handle_window_event(WindowEvent::MouseButtonUp, &mut input, &mut controllers, &t);
    assert!(input.mouse_button_hit());
    handle_window_event(WindowEvent::ControllerAxisMotion(GameControllerAxis::LeftY, 30000), &mut input, &mut controllers, &t);
    assert!(input.down());
    handle_window_event(WindowEvent::ControllerDeviceRemoved(3), &mut input, &mut controllers, &t);
    assert!(!controllers.remove_game_controller(3));
    assert!(handle_window_event(WindowEvent::Quit, &mut input, &mut controllers, &t));
}
