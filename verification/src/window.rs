//! Window related decisions: rendering context, keyboard keys, game
//! controllers and their mappings, and textures.

use vstd::prelude::*;
use crate::input::{Input, InputManager, InputModel, Key, KeyEvent};
use crate::utils::TimeMilliseconds;

verus! {

broadcast use vstd::string::group_string_axioms;

/// OpenGL context types.
#[derive(Debug, Clone, Copy, PartialEq, Eq, Structural)]
pub enum RenderingContext {
    OpenGL,
    OpenGLES,
}

/// Button and axis mapping of a joystick that has no game controller mapping of its own.
pub const DEFAULT_GAME_CONTROLLER_MAPPING: &'static str = ", a:b2, b:b1, y:b0, x:b3, start:b9, guide:b12, back:b8, dpup:h0.1, dpleft:h0.8, dpdown:h0.4, dpright:h0.2, leftshoulder:b6, rightshoulder:b7, leftstick:b10, rightstick:b11, leftx:a0, lefty:a1, rightx:a3, righty:a2, lefttrigger:b4, righttrigger:b5";

/// Game controller mapping for a joystick with GUID `joystick_guid` and name
/// `joystick_name` that has no mapping of its own: the GUID, a comma, the name
/// and the default button and axis mapping.
pub fn default_game_controller_mapping(joystick_guid: &str, joystick_name: &str) -> (mapping: String)
    ensures
        mapping@ == joystick_guid@ + seq![','] + joystick_name@ + DEFAULT_GAME_CONTROLLER_MAPPING@,
{
    let mut mapping = joystick_guid.to_string();
    mapping.append(",");
    mapping.append(joystick_name);
    mapping.append(DEFAULT_GAME_CONTROLLER_MAPPING);
    proof {
        reveal_strlit(",");
    }
    mapping
}

/// Keyboard keys that the game reacts to. Every other key is `Other`.
#[derive(Clone, Copy, PartialEq, Eq, Structural, Debug)]
pub enum Keycode {
    Up,
    Down,
    Left,
    Right,
    W,
    A,
    S,
    D,
    Space,
    LCtrl,
    RCtrl,
    Return,
    Escape,
    P,
    Other,
}

/// Key that pauses the game.
pub const PAUSE_KEY: Keycode = Keycode::Escape;

/// Game's `Key` of keyboard key `keycode`, if it has one.
pub open spec fn keycode_key(keycode: Keycode) -> Option<Key> {
    match keycode {
        Keycode::Up | Keycode::W => Some(Key::Up),
        Keycode::Down | Keycode::S => Some(Key::Down),
        Keycode::Left | Keycode::A => Some(Key::Left),
        Keycode::Right | Keycode::D => Some(Key::Right),
        Keycode::Space | Keycode::LCtrl | Keycode::RCtrl => Some(Key::Shoot),
        Keycode::Return => Some(Key::Select),
        Keycode::Escape => Some(Key::Back),
        _ => None,
    }
}

/// Convert keyboard key to game's `Key`.
pub fn keycode_to_key(keycode: Keycode) -> (key: Option<Key>)
    ensures
        key == keycode_key(keycode),
{
    let key = match keycode {
        Keycode::Up | Keycode::W => Key::Up,
        Keycode::Down | Keycode::S => Key::Down,
        Keycode::Left | Keycode::A => Key::Left,
        Keycode::Right | Keycode::D => Key::Right,
        Keycode::Space | Keycode::LCtrl | Keycode::RCtrl => Key::Shoot,
        Keycode::Return => Key::Select,
        Keycode::Escape => Key::Back,
        _ => return None,
    };
    Some(key)
}

/// Game controller buttons.
#[derive(Clone, Copy, PartialEq, Eq, Structural, Debug)]
pub enum GameControllerButton {
    A,
    B,
    X,
    Y,
    Back,
    Guide,
    Start,
    LeftStick,
    RightStick,
    LeftShoulder,
    RightShoulder,
    DPadUp,
    DPadDown,
    DPadLeft,
    DPadRight,
}

/// Game controller axes.
#[derive(Clone, Copy, PartialEq, Eq, Structural, Debug)]
pub enum GameControllerAxis {
    LeftX,
    LeftY,
    RightX,
    RightY,
    TriggerLeft,
    TriggerRight,
}

/// Game's `Key` of game controller button `button`, if it has one.
pub open spec fn button_key(button: GameControllerButton) -> Option<Key> {
    match button {
        GameControllerButton::DPadUp => Some(Key::Up),
        GameControllerButton::DPadDown => Some(Key::Down),
        GameControllerButton::DPadLeft => Some(Key::Left),
        GameControllerButton::DPadRight => Some(Key::Right),
        GameControllerButton::A | GameControllerButton::LeftShoulder | GameControllerButton::RightShoulder => Some(Key::Shoot),
        GameControllerButton::Back => Some(Key::Back),
        _ => None,
    }
}

/// Keeps the instance ids of the open game controllers and routes game
/// controller events to the `InputManager`.
pub struct GameControllerManager {
    game_controllers: Vec<i32>,
}

impl GameControllerManager {
    /// Instance ids of the open game controllers, in the order of the list.
    pub closed spec fn controllers(&self) -> Seq<i32> {
        self.game_controllers@
    }

    /// Create new `GameControllerManager` without game controllers.
    pub fn new() -> (manager: GameControllerManager)
        ensures
            manager.controllers() == Seq::<i32>::empty(),
    {
        GameControllerManager { game_controllers: Vec::new() }
    }

    /// Adds an opened game controller with instance id `id`.
    pub fn add_game_controller(&mut self, id: i32)
        ensures
            final(self).controllers() == old(self).controllers().push(id),
    {
        self.game_controllers.push(id);
    }

    /// Remove the first game controller whose instance id is `id`: the last
    /// game controller takes its place. Returns true if one was removed.
    pub fn remove_game_controller(&mut self, id: i32) -> (removed: bool)
        ensures
            ({
                let c = old(self).controllers();
                match c.index_of_first(id) {
                    Some(i) => removed && final(self).controllers() == c.update(i, c.last()).drop_last(),
                    None => !removed && final(self).controllers() == c,
                }
            }),
    {
        let mut index: Option<usize> = None;
        let mut i: usize = 0;
        while i < self.game_controllers.len()
            invariant_except_break
                index is None,
                forall|k: int| 0 <= k < i ==> self.game_controllers@[k] != id,
            invariant
                i <= self.game_controllers@.len(),
                self.game_controllers@ == old(self).controllers(),
            ensures
                match index {
                    Some(k) => k < self.game_controllers@.len() && self.game_controllers@[k as int] == id
                        && forall|j: int| 0 <= j < k ==> self.game_controllers@[j] != id,
                    None => forall|k: int| 0 <= k < self.game_controllers@.len() ==> self.game_controllers@[k] != id,
                },
            decreases self.game_controllers@.len() - i,
        {
            if self.game_controllers[i] == id {
                index = Some(i);
                break;
            }
            i = i + 1;
        }
        match index {
            Some(i) => {
                proof {
                    let c = old(self).controllers();
                    c.index_of_first_ensures(id);
                    if let Some(j) = c.index_of_first(id) {
                        if j < i {
                            assert(c[j] != id);
                        }
                        if i < j {
                            assert(c[i as int] != id);
                        }
                    }
                }
                self.game_controllers.swap_remove(i);
                true
            },
            None => {
                proof {
                    old(self).controllers().index_of_first_ensures(id);
                }
                false
            },
        }
    }

    /// Convert game controller button to game's `Key`.
    pub fn button_to_key(button: GameControllerButton) -> (key: Option<Key>)
        ensures
            key == button_key(button),
    {
        let key = match button {
            GameControllerButton::DPadUp => Key::Up,
            GameControllerButton::DPadDown => Key::Down,
            GameControllerButton::DPadLeft => Key::Left,
            GameControllerButton::DPadRight => Key::Right,
            GameControllerButton::A | GameControllerButton::LeftShoulder | GameControllerButton::RightShoulder => Key::Shoot,
            GameControllerButton::Back => Key::Back,
            _ => return None,
        };
        Some(key)
    }

    /// Forwards game controller's axis event to `InputManager`.
    ///
    /// Stick positions beyond 10000 in either direction press the matching arrow
    /// key; a centered stick releases the keys of its axis. A trigger beyond 100
    /// presses the shoot key and otherwise releases it.
    pub fn handle_axis_motion(axis: GameControllerAxis, value: i16, input_manager: &mut InputManager, current_time: &TimeMilliseconds)
        ensures
            final(input_manager)@ == old(input_manager)@.axis_motion(axis, value, current_time.0),
    {
        match axis {
            GameControllerAxis::LeftX | GameControllerAxis::RightX => {
                if value > 10000 {
                    input_manager.update_key_down(Key::Right, current_time);
                } else if value < -10000 {
                    input_manager.update_key_down(Key::Left, current_time);
                } else {
                    if input_manager.left() {
                        input_manager.update_key_up(Key::Left, current_time);
                    }
                    if input_manager.right() {
                        input_manager.update_key_up(Key::Right, current_time);
                    }
                }
            },
            GameControllerAxis::LeftY | GameControllerAxis::RightY => {
                if value > 10000 {
                    input_manager.update_key_down(Key::Down, current_time);
                } else if value < -10000 {
                    input_manager.update_key_down(Key::Up, current_time);
                } else {
                    if input_manager.down() {
                        input_manager.update_key_up(Key::Down, current_time);
                    }
                    if input_manager.up() {
                        input_manager.update_key_up(Key::Up, current_time);
                    }
                }
            },
            GameControllerAxis::TriggerLeft | GameControllerAxis::TriggerRight => {
                if value > 100 {
                    input_manager.update_key_down(Key::Shoot, current_time);
                } else {
                    input_manager.update_key_up(Key::Shoot, current_time);
                }
            },
        }
    }
}

/// Textures of the game.
#[derive(Debug, Clone, Copy, PartialEq, Eq, Structural)]
pub enum Textures {
    Player,
    Enemy,
    Background,
    Font,
    Shield,
    LaserCannonGreen,
    LaserCannonRed,
    TextureCount,
}

/// Input events of the window that the game reacts to. Mouse events carry
/// no position: the caller keeps the mouse position in world coordinates.
#[derive(Debug, Clone, Copy, PartialEq, Eq, Structural)]
pub enum WindowEvent {
    Quit,
    KeyDown(Keycode),
    KeyUp(Keycode),
    MouseMotion,
    MouseButtonUp,
    ControllerDeviceRemoved(i32),
    ControllerAxisMotion(GameControllerAxis, i16),
    ControllerButtonDown(GameControllerButton),
    ControllerButtonUp(GameControllerButton),
}

/// Input `m` after key event `event` of `key`, if there is a key.
pub open spec fn after_optional_key(m: InputModel, key: Option<Key>, event: KeyEvent, t: u32) -> InputModel {
    match key {
        Some(k) => m.key_event(k, event, t),
        None => m,
    }
}

/// Input `m` after event `event` of game controller button `button`: the A
/// button is also the select key.
pub open spec fn after_button_event(m: InputModel, button: GameControllerButton, event: KeyEvent, t: u32) -> InputModel {
    let m1 = if button == GameControllerButton::A { m.key_event(Key::Select, event, t) } else { m };
    after_optional_key(m1, button_key(button), event, t)
}

/// Input `m` after window event `event` at time `t`.
pub open spec fn input_after_window_event(m: InputModel, event: WindowEvent, t: u32) -> InputModel {
    match event {
        WindowEvent::KeyDown(k) => after_optional_key(m, keycode_key(k), KeyEvent::KeyDown, t),
        WindowEvent::KeyUp(k) => after_optional_key(m, keycode_key(k), KeyEvent::KeyUp, t),
        WindowEvent::MouseMotion => InputModel { mouse_motion: true, ..m },
        WindowEvent::MouseButtonUp => InputModel { mouse_button_hit: true, ..m },
        WindowEvent::ControllerAxisMotion(axis, value) => m.axis_motion(axis, value, t),
        WindowEvent::ControllerButtonDown(b) => after_button_event(m, b, KeyEvent::KeyDown, t),
        WindowEvent::ControllerButtonUp(b) => after_button_event(m, b, KeyEvent::KeyUp, t),
        _ => m,
    }
}

/// Forwards a window event to the input and the game controllers. Returns
/// true when the window is closed and the game should quit.
pub fn handle_window_event(
    event: WindowEvent,
    input: &mut InputManager,
    game_controllers: &mut GameControllerManager,
    current_time: &TimeMilliseconds,
) -> (quit: bool)
    ensures
        quit == (event == WindowEvent::Quit),
        final(input)@ == input_after_window_event(old(input)@, event, current_time.0),
        final(game_controllers).controllers() == match event {
            WindowEvent::ControllerDeviceRemoved(id) => {
                let c = old(game_controllers).controllers();
                match c.index_of_first(id) {
                    Some(i) => c.update(i, c.last()).drop_last(),
                    None => c,
                }
            },
            _ => old(game_controllers).controllers(),
        },
{
    match event {
        WindowEvent::Quit => return true,
        WindowEvent::KeyDown(keycode) => {
            if let Some(key) = keycode_to_key(keycode) {
                input.update_key_down(key, current_time);
            }
        },
        WindowEvent::KeyUp(keycode) => {
            if let Some(key) = keycode_to_key(keycode) {
                input.update_key_up(key, current_time);
            }
        },
        WindowEvent::MouseMotion => input.update_mouse_motion(),
        WindowEvent::MouseButtonUp => input.update_mouse_button_up(),
        WindowEvent::ControllerDeviceRemoved(id) => {
            game_controllers.remove_game_controller(id);
        },
        WindowEvent::ControllerAxisMotion(axis, value) => {
            GameControllerManager::handle_axis_motion(axis, value, input, current_time);
        },
        WindowEvent::ControllerButtonDown(button) => {
            if let GameControllerButton::A = button {
                input.update_key_down(Key::Select, current_time);
            }
            if let Some(key) = GameControllerManager::button_to_key(button) {
                input.update_key_down(key, current_time);
            }
        },
        WindowEvent::ControllerButtonUp(button) => {
            if let GameControllerButton::A = button {
                input.update_key_up(Key::Select, current_time);
            }
            if let Some(key) = GameControllerManager::button_to_key(button) {
                input.update_key_up(key, current_time);
            }
        },
    }
    false
}

} // verus!
