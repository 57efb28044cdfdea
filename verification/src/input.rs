//! Input handling.
//!
//! Keyboard and game controller events become key states and key hits.
//! Mouse positions are in world coordinates (floating point); the library
//! keeps only the mouse event flags.

use vstd::prelude::*;
use crate::utils::{TimeMilliseconds, Timer};
use crate::window::GameControllerAxis;

verus! {

/// Milliseconds between the key hits that a held key generates.
pub const MILLISECONDS_BETWEEN_KEY_HITS: u32 = 300;

/// Game's input keys.
#[derive(Clone, Copy, PartialEq, Eq, Structural, Debug)]
pub enum Key {
    Up,
    Down,
    Left,
    Right,
    Shoot,
    Select,
    Back,
}

/// Key press states.
#[derive(Clone, Copy, PartialEq, Eq, Structural, Debug)]
pub enum KeyEvent {
    KeyUp,
    KeyDown,
}

/// KeyHitGenerator's states.
#[derive(Clone, Copy, PartialEq, Eq, Structural, Debug)]
pub enum KeyHitState {
    /// Normal key hits.
    NormalMode,
    /// Generator generated key hits.
    ScrollMode,
}

/// Mathematical model of a `KeyHitGenerator`.
pub struct KeyHitModel {
    pub state: Option<KeyHitState>,
    pub key_hit: bool,
    /// Time of the last reset of the generator's timer.
    pub timer: u32,
}

impl KeyHitModel {
    /// The generator after a key down event at time `t`.
    pub open spec fn down(self, t: u32) -> KeyHitModel {
        if self.state is None {
            KeyHitModel { state: Some(KeyHitState::NormalMode), key_hit: self.key_hit, timer: t }
        } else {
            self
        }
    }

    /// The generator after a key up event: a key hit exactly when the key
    /// was released before it started to scroll.
    pub open spec fn up(self) -> KeyHitModel {
        KeyHitModel { state: None, key_hit: self.state == Some(KeyHitState::NormalMode), timer: self.timer }
    }

    /// The generator after a key event.
    pub open spec fn key_event(self, event: KeyEvent, t: u32) -> KeyHitModel {
        match event {
            KeyEvent::KeyUp => self.up(),
            KeyEvent::KeyDown => self.down(t),
        }
    }

    /// The generator after an update at time `t`: while the key is held, a key
    /// hit comes every `MILLISECONDS_BETWEEN_KEY_HITS` and the generator scrolls.
    pub open spec fn tick(self, t: u32, key_down: bool) -> KeyHitModel {
        if key_down && self.state is Some && t - self.timer >= MILLISECONDS_BETWEEN_KEY_HITS {
            KeyHitModel { state: Some(KeyHitState::ScrollMode), key_hit: true, timer: t }
        } else {
            self
        }
    }

    /// Can an update at time `t` run without the timer going back in time.
    pub open spec fn tick_allowed(self, t: u32, key_down: bool) -> bool {
        key_down && self.state is Some ==> self.timer <= t
    }

    /// The generator with its key hit cleared.
    pub open spec fn cleared(self) -> KeyHitModel {
        KeyHitModel { key_hit: false, ..self }
    }
}

/// Generate key hits.
///
/// Generates key hits from key up event and if the key is pressed down
/// long enough, the generator will generate multiple key hits.
pub struct KeyHitGenerator {
    milliseconds_between_key_hits: u32,
    timer: Timer,
    state: Option<KeyHitState>,
    key_hit: bool,
}

impl View for KeyHitGenerator {
    type V = KeyHitModel;

    closed spec fn view(&self) -> KeyHitModel {
        KeyHitModel { state: self.state, key_hit: self.key_hit, timer: self.timer.reset_time() }
    }
}

impl KeyHitGenerator {
    /// The interval is always `MILLISECONDS_BETWEEN_KEY_HITS`.
    #[verifier::type_invariant]
    spec fn wf(&self) -> bool {
        self.milliseconds_between_key_hits == MILLISECONDS_BETWEEN_KEY_HITS
    }

    /// Create new `KeyHitGenerator` which `milliseconds_between_key_hits` field is set to `300`.
    pub fn new() -> (generator: KeyHitGenerator)
        ensures
            generator@ == (KeyHitModel { state: None, key_hit: false, timer: 0 }),
    {
        KeyHitGenerator {
            milliseconds_between_key_hits: MILLISECONDS_BETWEEN_KEY_HITS,
            timer: Timer::new(),
            state: None,
            key_hit: false,
        }
    }

    /// Updates generators state from `KeyEvent`.
    pub fn update_from_key_event(&mut self, key_event: KeyEvent, current_time: &TimeMilliseconds)
        ensures
            final(self)@ == old(self)@.key_event(key_event, current_time.0),
    {
        match key_event {
            KeyEvent::KeyUp => self.up(),
            KeyEvent::KeyDown => self.down(current_time),
        }
    }

    /// Update method will generate key hits if
    ///
    /// * There is enough time passed from the last key hit.
    /// * `key_down` argument is true.
    pub fn update(&mut self, current_time: &TimeMilliseconds, key_down: bool)
        requires
            old(self)@.tick_allowed(current_time.0, key_down),
        ensures
            final(self)@ == old(self)@.tick(current_time.0, key_down),
    {
        proof {
            use_type_invariant(&*self);
        }
        if !key_down {
            return;
        }
        proof {
            use_type_invariant(&*self);
        }
        match self.state {
            Some(KeyHitState::NormalMode) => {
                if self.timer.check(current_time, self.milliseconds_between_key_hits) {
                    self.state = Some(KeyHitState::ScrollMode);
                    self.key_hit = true;
                }
            },
            Some(KeyHitState::ScrollMode) => {
                if self.timer.check(current_time, self.milliseconds_between_key_hits) {
                    self.key_hit = true;
                }
            },
            None => (),
        }
    }

    /// Handle key down event.
    ///
    /// Sets generators state to `Some(KeyHitState::NormalMode)` and resets
    /// generators internal timer if generators current state is `None`.
    fn down(&mut self, current_time: &TimeMilliseconds)
        ensures
            final(self)@ == old(self)@.down(current_time.0),
    {
        proof {
            use_type_invariant(&*self);
        }
        match self.state {
            None => {
                self.state = Some(KeyHitState::NormalMode);
                self.timer.reset(current_time);
            },
            _ => (),
        }
    }

    /// Handle key up event.
    ///
    /// Creates a key hit if method is called when
    /// generators state is `Some(KeyHitState::NormalMode)`.
    ///
    /// Generators state will be set to `None`.
    fn up(&mut self)
        ensures
            final(self)@ == old(self)@.up(),
    {
        proof {
            use_type_invariant(&*self);
        }
        if let Some(KeyHitState::NormalMode) = self.state {
            self.key_hit = true;
        } else {
            self.key_hit = false;
        }
        self.state = None;
    }

    /// Returns true if key hit has been happened.
    ///
    /// This method will also clear the current key hit.
    pub fn key_hit(&mut self) -> (hit: bool)
        ensures
            hit == old(self)@.key_hit,
            final(self)@ == old(self)@.cleared(),
    {
        if self.key_hit {
            self.clear();
            true
        } else {
            false
        }
    }

    /// Clears current key hit.
    pub fn clear(&mut self)
        ensures
            final(self)@ == old(self)@.cleared(),
    {
        proof {
            use_type_invariant(&*self);
        }
        self.key_hit = false;
    }
}

/// Mathematical model of a `KeyboardManager`.
pub struct KeyboardModel {
    pub up: bool,
    pub down: bool,
    pub left: bool,
    pub right: bool,
    pub shoot: bool,
    pub hit_left: KeyHitModel,
    pub hit_right: KeyHitModel,
    pub hit_up: KeyHitModel,
    pub hit_down: KeyHitModel,
    pub key_hit_enter: bool,
    pub key_hit_back: bool,
}

impl KeyboardModel {
    /// The keyboard after event `event` of key `key` at time `t`.
    pub open spec fn key_event(self, key: Key, event: KeyEvent, t: u32) -> KeyboardModel {
        let is_down = event == KeyEvent::KeyDown;
        let is_hit = event == KeyEvent::KeyUp;
        match key {
            Key::Up => KeyboardModel { up: is_down, hit_up: self.hit_up.key_event(event, t), ..self },
            Key::Down => KeyboardModel { down: is_down, hit_down: self.hit_down.key_event(event, t), ..self },
            Key::Left => KeyboardModel { left: is_down, hit_left: self.hit_left.key_event(event, t), ..self },
            Key::Right => KeyboardModel { right: is_down, hit_right: self.hit_right.key_event(event, t), ..self },
            Key::Shoot => KeyboardModel { shoot: is_down, ..self },
            Key::Select => KeyboardModel { key_hit_enter: is_hit, ..self },
            Key::Back => KeyboardModel { key_hit_back: is_hit, ..self },
        }
    }

    /// The keyboard with all key hits cleared.
    pub open spec fn hits_reset(self) -> KeyboardModel {
        KeyboardModel {
            key_hit_enter: false,
            key_hit_back: false,
            hit_up: self.hit_up.cleared(),
            hit_down: self.hit_down.cleared(),
            hit_left: self.hit_left.cleared(),
            hit_right: self.hit_right.cleared(),
            ..self
        }
    }

    /// The keyboard after an update at time `t`: key hits are cleared, and
    /// the generators of held arrow keys may generate new key hits.
    pub open spec fn update(self, t: u32) -> KeyboardModel {
        let r = self.hits_reset();
        KeyboardModel {
            hit_up: r.hit_up.tick(t, r.up),
            hit_down: r.hit_down.tick(t, r.down),
            hit_left: r.hit_left.tick(t, r.left),
            hit_right: r.hit_right.tick(t, r.right),
            ..r
        }
    }

    /// Can an update at time `t` run without a timer going back in time.
    pub open spec fn update_allowed(self, t: u32) -> bool {
        &&& self.hit_up.tick_allowed(t, self.up)
        &&& self.hit_down.tick_allowed(t, self.down)
        &&& self.hit_left.tick_allowed(t, self.left)
        &&& self.hit_right.tick_allowed(t, self.right)
    }
}

/// Store keyboard state.
///
/// Supports key hits and key down info.
/// For up, down, left and right keys, key hits are implemented with `KeyHitGenerator` which
/// generates key hits if key is kept down.
pub struct KeyboardManager {
    up: bool,
    down: bool,
    left: bool,
    right: bool,
    shoot: bool,
    key_hit_left: KeyHitGenerator,
    key_hit_right: KeyHitGenerator,
    key_hit_up: KeyHitGenerator,
    key_hit_down: KeyHitGenerator,
    key_hit_enter: bool,
    key_hit_back: bool,
}

impl View for KeyboardManager {
    type V = KeyboardModel;

    closed spec fn view(&self) -> KeyboardModel {
        KeyboardModel {
            up: self.up,
            down: self.down,
            left: self.left,
            right: self.right,
            shoot: self.shoot,
            hit_left: self.key_hit_left@,
            hit_right: self.key_hit_right@,
            hit_up: self.key_hit_up@,
            hit_down: self.key_hit_down@,
            key_hit_enter: self.key_hit_enter,
            key_hit_back: self.key_hit_back,
        }
    }
}

/// The model of a `KeyboardManager` that was just created.
pub open spec fn initial_keyboard() -> KeyboardModel {
    let idle = KeyHitModel { state: None, key_hit: false, timer: 0 };
    KeyboardModel {
        up: false,
        down: false,
        left: false,
        right: false,
        shoot: false,
        hit_left: idle,
        hit_right: idle,
        hit_up: idle,
        hit_down: idle,
        key_hit_enter: false,
        key_hit_back: false,
    }
}

impl KeyboardManager {
    /// Creates new `KeyboardManager`
    pub fn new() -> (keyboard: KeyboardManager)
        ensures
            keyboard@ == initial_keyboard(),
    {
        KeyboardManager {
            up: false,
            down: false,
            left: false,
            right: false,
            shoot: false,
            key_hit_left: KeyHitGenerator::new(),
            key_hit_right: KeyHitGenerator::new(),
            key_hit_up: KeyHitGenerator::new(),
            key_hit_down: KeyHitGenerator::new(),
            key_hit_enter: false,
            key_hit_back: false,
        }
    }

    /// Updates `KeyboardManager`'s fields from keyboard event
    pub fn update_keys(&mut self, key: Key, key_event: KeyEvent, current_time: &TimeMilliseconds)
        ensures
            final(self)@ == old(self)@.key_event(key, key_event, current_time.0),
    {
        let (key_down_field, key_hit_field) = match key_event {
            KeyEvent::KeyUp => (false, true),
            KeyEvent::KeyDown => (true, false),
        };
        match key {
            Key::Up => {
                self.up = key_down_field;
                self.key_hit_up.update_from_key_event(key_event, current_time);
            },
            Key::Down => {
                self.down = key_down_field;
                self.key_hit_down.update_from_key_event(key_event, current_time);
            },
            Key::Left => {
                self.left = key_down_field;
                self.key_hit_left.update_from_key_event(key_event, current_time);
            },
            Key::Right => {
                self.right = key_down_field;
                self.key_hit_right.update_from_key_event(key_event, current_time);
            },
            Key::Shoot => self.shoot = key_down_field,
            Key::Select => self.key_hit_enter = key_hit_field,
            Key::Back => self.key_hit_back = key_hit_field,
        }
    }

    /// Reset key hit fields and `KeyHitGenerator`s
    fn reset_key_hits(&mut self)
        ensures
            final(self)@ == old(self)@.hits_reset(),
    {
        self.key_hit_enter = false;
        self.key_hit_back = false;
        self.key_hit_up.clear();
        self.key_hit_down.clear();
        self.key_hit_left.clear();
        self.key_hit_right.clear();
    }

    /// Reset key hit fields and `KeyHitGenerator`s and updates `KeyHitGenerator`s
    pub fn update(&mut self, current_time: &TimeMilliseconds)
        requires
            old(self)@.update_allowed(current_time.0),
        ensures
            final(self)@ == old(self)@.update(current_time.0),
    {
        self.reset_key_hits();
        self.key_hit_up.update(current_time, self.up);
        self.key_hit_down.update(current_time, self.down);
        self.key_hit_left.update(current_time, self.left);
        self.key_hit_right.update(current_time, self.right);
    }
}

/// Returns the value of boolean reference and sets
/// references value to false.
fn return_and_reset(value: &mut bool) -> (value_before: bool)
    ensures
        value_before == *old(value),
        *final(value) == false,
{
    let value_before: bool = *value;
    *value = false;
    value_before
}

/// Store mouse motion and button hit.
///
/// The mouse location itself is in world coordinates and is kept by the
/// caller together with these events.
pub struct MouseManager {
    mouse_motion: bool,
    mouse_button_hit: bool,
}

impl MouseManager {
    /// Is there a mouse motion that has not been read.
    pub closed spec fn spec_mouse_motion(&self) -> bool {
        self.mouse_motion
    }

    /// Is there a mouse button hit that has not been read.
    pub closed spec fn spec_mouse_button_hit(&self) -> bool {
        self.mouse_button_hit
    }

    /// Create new `MouseManager`.
    pub fn new() -> (mouse: MouseManager)
        ensures
            !mouse.spec_mouse_motion(),
            !mouse.spec_mouse_button_hit(),
    {
        MouseManager { mouse_motion: false, mouse_button_hit: false }
    }

    /// Reset mouse button hit.
    pub fn reset_button_hits(&mut self)
        ensures
            !final(self).spec_mouse_button_hit(),
            final(self).spec_mouse_motion() == old(self).spec_mouse_motion(),
    {
        self.mouse_button_hit = false;
    }

    /// Handle mouse motion event.
    pub fn update_mouse_motion(&mut self)
        ensures
            final(self).spec_mouse_motion(),
            final(self).spec_mouse_button_hit() == old(self).spec_mouse_button_hit(),
    {
        self.mouse_motion = true;
    }

    /// Handle mouse button up event.
    pub fn update_mouse_button_up(&mut self)
        ensures
            final(self).spec_mouse_button_hit(),
            final(self).spec_mouse_motion() == old(self).spec_mouse_motion(),
    {
        self.mouse_button_hit = true;
    }
}

/// Mathematical model of an `InputManager`.
pub struct InputModel {
    pub keyboard: KeyboardModel,
    pub mouse_motion: bool,
    pub mouse_button_hit: bool,
}

impl InputModel {
    /// The input after event `event` of key `key` at time `t`.
    pub open spec fn key_event(self, key: Key, event: KeyEvent, t: u32) -> InputModel {
        InputModel { keyboard: self.keyboard.key_event(key, event, t), ..self }
    }

    /// The input after an update at time `t`.
    pub open spec fn update(self, t: u32) -> InputModel {
        InputModel { keyboard: self.keyboard.update(t), mouse_button_hit: false, ..self }
    }

    /// The input after a game controller axis event.
    pub open spec fn axis_motion(self, axis: GameControllerAxis, value: i16, t: u32) -> InputModel {
        match axis {
            GameControllerAxis::LeftX | GameControllerAxis::RightX => {
                if value > 10000 {
                    self.key_event(Key::Right, KeyEvent::KeyDown, t)
                } else if value < -10000 {
                    self.key_event(Key::Left, KeyEvent::KeyDown, t)
                } else {
                    let a = if self.keyboard.left { self.key_event(Key::Left, KeyEvent::KeyUp, t) } else { self };
                    if a.keyboard.right { a.key_event(Key::Right, KeyEvent::KeyUp, t) } else { a }
                }
            },
            GameControllerAxis::LeftY | GameControllerAxis::RightY => {
                if value > 10000 {
                    self.key_event(Key::Down, KeyEvent::KeyDown, t)
                } else if value < -10000 {
                    self.key_event(Key::Up, KeyEvent::KeyDown, t)
                } else {
                    let a = if self.keyboard.down { self.key_event(Key::Down, KeyEvent::KeyUp, t) } else { self };
                    if a.keyboard.up { a.key_event(Key::Up, KeyEvent::KeyUp, t) } else { a }
                }
            },
            GameControllerAxis::TriggerLeft | GameControllerAxis::TriggerRight => {
                if value > 100 {
                    self.key_event(Key::Shoot, KeyEvent::KeyDown, t)
                } else {
                    self.key_event(Key::Shoot, KeyEvent::KeyUp, t)
                }
            },
        }
    }
}

/// Handles user input events and stores current input state.
///
/// Currently supported input methods are
/// * Keyboard
/// * Mouse
/// * Game controller
pub struct InputManager {
    keyboard: KeyboardManager,
    mouse: MouseManager,
}

impl View for InputManager {
    type V = InputModel;

    closed spec fn view(&self) -> InputModel {
        InputModel {
            keyboard: self.keyboard@,
            mouse_motion: self.mouse.spec_mouse_motion(),
            mouse_button_hit: self.mouse.spec_mouse_button_hit(),
        }
    }
}

impl InputManager {
    /// Create new InputManger.
    pub fn new() -> (input: InputManager)
        ensures
            input@ == (InputModel { keyboard: initial_keyboard(), mouse_motion: false, mouse_button_hit: false }),
    {
        InputManager { keyboard: KeyboardManager::new(), mouse: MouseManager::new() }
    }

    /// Handle key up event.
    pub fn update_key_up(&mut self, key: Key, current_time: &TimeMilliseconds)
        ensures
            final(self)@ == old(self)@.key_event(key, KeyEvent::KeyUp, current_time.0),
    {
        self.keyboard.update_keys(key, KeyEvent::KeyUp, current_time);
    }

    /// Handle keyboard key down event.
    pub fn update_key_down(&mut self, key: Key, current_time: &TimeMilliseconds)
        ensures
            final(self)@ == old(self)@.key_event(key, KeyEvent::KeyDown, current_time.0),
    {
        self.keyboard.update_keys(key, KeyEvent::KeyDown, current_time);
    }

    /// Handle mouse motion event.
    pub fn update_mouse_motion(&mut self)
        ensures
            final(self).input_model() == (InputModel { mouse_motion: true, ..old(self)@ }),
    {
        self.mouse.update_mouse_motion();
    }

    /// Handle mouse button up event.
    pub fn update_mouse_button_up(&mut self)
        ensures
            final(self).input_model() == (InputModel { mouse_button_hit: true, ..old(self)@ }),
    {
        self.mouse.update_mouse_button_up();
    }

    /// Resets `MouseManager` button hits and updates `KeyboardManager`
    pub fn update(&mut self, current_time: &TimeMilliseconds)
        requires
            old(self)@.keyboard.update_allowed(current_time.0),
        ensures
            final(self)@ == old(self)@.update(current_time.0),
    {
        self.mouse.reset_button_hits();
        self.keyboard.update(current_time);
    }
}

/// Interface for game components requiring user input information.
///
/// Key hits and button hits will reset to false when method is called.
pub trait Input {
    /// The input state that the methods read.
    spec fn input_model(&self) -> InputModel;

    /// Is up key down currently
    fn up(&self) -> (r: bool)
        ensures
            r == self.input_model().keyboard.up;

    /// Is down key down currently
    fn down(&self) -> (r: bool)
        ensures
            r == self.input_model().keyboard.down;

    /// Is left key down currently
    fn left(&self) -> (r: bool)
        ensures
            r == self.input_model().keyboard.left;

    /// Is right key down currently
    fn right(&self) -> (r: bool)
        ensures
            r == self.input_model().keyboard.right;

    /// Is shoot key down currently
    fn shoot(&self) -> (r: bool)
        ensures
            r == self.input_model().keyboard.shoot;

    /// Key hit for up key.
    fn key_hit_up(&mut self) -> (r: bool)
        ensures
            r == old(self).input_model().keyboard.hit_up.key_hit,
            final(self).input_model() == (InputModel {
                keyboard: KeyboardModel { hit_up: old(self).input_model().keyboard.hit_up.cleared(), ..old(self).input_model().keyboard },
                ..old(self).input_model()
            });

    /// Key hit for down key.
    fn key_hit_down(&mut self) -> (r: bool)
        ensures
            r == old(self).input_model().keyboard.hit_down.key_hit,
            final(self).input_model() == (InputModel {
                keyboard: KeyboardModel { hit_down: old(self).input_model().keyboard.hit_down.cleared(), ..old(self).input_model().keyboard },
                ..old(self).input_model()
            });

    /// Key hit for left key.
    fn key_hit_left(&mut self) -> (r: bool)
        ensures
            r == old(self).input_model().keyboard.hit_left.key_hit,
            final(self).input_model() == (InputModel {
                keyboard: KeyboardModel { hit_left: old(self).input_model().keyboard.hit_left.cleared(), ..old(self).input_model().keyboard },
                ..old(self).input_model()
            });

    /// Key hit for right key.
    fn key_hit_right(&mut self) -> (r: bool)
        ensures
            r == old(self).input_model().keyboard.hit_right.key_hit,
            final(self).input_model() == (InputModel {
                keyboard: KeyboardModel { hit_right: old(self).input_model().keyboard.hit_right.cleared(), ..old(self).input_model().keyboard },
                ..old(self).input_model()
            });

    /// Key hit for enter key.
    fn key_hit_enter(&mut self) -> (r: bool)
        ensures
            r == old(self).input_model().keyboard.key_hit_enter,
            final(self).input_model() == (InputModel {
                keyboard: KeyboardModel { key_hit_enter: false, ..old(self).input_model().keyboard },
                ..old(self).input_model()
            });

    /// Key hit for back key.
    fn key_hit_back(&mut self) -> (r: bool)
        ensures
            r == old(self).input_model().keyboard.key_hit_back,
            final(self).input_model() == (InputModel {
                keyboard: KeyboardModel { key_hit_back: false, ..old(self).input_model().keyboard },
                ..old(self).input_model()
            });

    /// Button hit for any mouse button.
    fn mouse_button_hit(&mut self) -> (r: bool)
        ensures
            r == old(self).input_model().mouse_button_hit,
            final(self).input_model() == (InputModel { mouse_button_hit: false, ..old(self).input_model() });

    /// Is mouse location update occurred.
    /// Resets to false.
    fn mouse_motion(&mut self) -> (r: bool)
        ensures
            r == old(self).input_model().mouse_motion,
            final(self).input_model() == (InputModel { mouse_motion: false, ..old(self).input_model() });
}

impl Input for InputManager {
    open spec fn input_model(&self) -> InputModel {
        self@
    }

    fn up(&self) -> (r: bool) {
        self.keyboard.up
    }

    fn down(&self) -> (r: bool) {
        self.keyboard.down
    }

    fn left(&self) -> (r: bool) {
        self.keyboard.left
    }

    fn right(&self) -> (r: bool) {
        self.keyboard.right
    }

    fn shoot(&self) -> (r: bool) {
        self.keyboard.shoot
    }

    fn key_hit_up(&mut self) -> (r: bool) {
        self.keyboard.key_hit_up.key_hit()
    }

    fn key_hit_down(&mut self) -> (r: bool) {
        self.keyboard.key_hit_down.key_hit()
    }

    fn key_hit_left(&mut self) -> (r: bool) {
        self.keyboard.key_hit_left.key_hit()
    }

    fn key_hit_right(&mut self) -> (r: bool) {
        self.keyboard.key_hit_right.key_hit()
    }

    fn key_hit_enter(&mut self) -> (r: bool) {
        return_and_reset(&mut self.keyboard.key_hit_enter)
    }

    fn key_hit_back(&mut self) -> (r: bool) {
        return_and_reset(&mut self.keyboard.key_hit_back)
    }

    fn mouse_button_hit(&mut self) -> (r: bool) {
        return_and_reset(&mut self.mouse.mouse_button_hit)
    }

    fn mouse_motion(&mut self) -> (r: bool) {
        return_and_reset(&mut self.mouse.mouse_motion)
    }
}

/// A key pressed and released before it starts to scroll gives exactly one key
/// hit: reading the hit clears it.
pub proof fn lemma_key_press_gives_one_hit(generator: KeyHitModel, press_time: u32)
    requires
        generator.state is None,
    ensures
        generator.down(press_time).up().key_hit,
        generator.down(press_time).up().state is None,
        !generator.down(press_time).up().cleared().key_hit,
{
}

/// A key held for `MILLISECONDS_BETWEEN_KEY_HITS` generates a key hit and starts
/// to scroll; releasing it then gives no further key hit.
pub proof fn lemma_held_key_scrolls(generator: KeyHitModel, press_time: u32, update_time: u32)
    requires
        generator.state is None,
        press_time <= update_time,
        update_time - press_time >= MILLISECONDS_BETWEEN_KEY_HITS,
    ensures
        generator.down(press_time).tick(update_time, true).key_hit,
        generator.down(press_time).tick(update_time, true).state == Some(KeyHitState::ScrollMode),
        !generator.down(press_time).tick(update_time, true).up().key_hit,
{
}

/// A key down event of a key that is already down, such as the operating
/// system's repeat of a held key, changes nothing: a key held since
/// `press_time` still generates its key hit `MILLISECONDS_BETWEEN_KEY_HITS`
/// after the press, whatever repeated key downs came in between, and
/// releasing it after it started to scroll gives no key hit.
pub proof fn lemma_repeated_key_down_changes_nothing(
    generator: KeyHitModel,
    press_time: u32,
    repeat_time: u32,
    update_time: u32,
)
    ensures
        generator.state is Some ==> generator.down(repeat_time) == generator,
        generator.state is None && press_time <= repeat_time <= update_time
            && update_time - press_time >= MILLISECONDS_BETWEEN_KEY_HITS ==> {
            let held = generator.down(press_time).down(repeat_time).tick(update_time, true);
            &&& held.key_hit
            &&& held.state == Some(KeyHitState::ScrollMode)
            &&& !held.down(update_time).up().key_hit
        },
{
}

/// Game controller sticks press and release arrow keys: pushing the
/// horizontal stick over 10000 either way holds the Right or the Left key,
/// and bringing it back to the middle releases both; the vertical stick does
/// the same with the Down and Up keys; a trigger over 100 holds the Shoot
/// key. A released key that was held gives its key hit as a key up does. Each
/// stick leaves the keys of the other direction as they were.
pub proof fn lemma_axis_motion_keys(m: InputModel, axis: GameControllerAxis, value: i16, t: u32)
    ensures
        ({
            let k = m.keyboard;
            let a = m.axis_motion(axis, value, t).keyboard;
            &&& (axis == GameControllerAxis::LeftX || axis == GameControllerAxis::RightX) ==> {
                &&& value > 10000 ==> a.right && a.left == k.left
                &&& value < -10000 ==> a.left && a.right == k.right
                &&& -10000 <= value <= 10000 ==> {
                    &&& !a.left && !a.right
                    &&& k.left ==> a.hit_left == k.hit_left.up()
                    &&& k.right ==> a.hit_right == k.hit_right.up()
                    &&& !k.left ==> a.hit_left == k.hit_left
                    &&& !k.right ==> a.hit_right == k.hit_right
                }
                &&& a.up == k.up && a.down == k.down && a.shoot == k.shoot
                &&& a.hit_up == k.hit_up && a.hit_down == k.hit_down
            }
            &&& (axis == GameControllerAxis::LeftY || axis == GameControllerAxis::RightY) ==> {
                &&& value > 10000 ==> a.down && a.up == k.up
                &&& value < -10000 ==> a.up && a.down == k.down
                &&& -10000 <= value <= 10000 ==> {
                    &&& !a.up && !a.down
                    &&& k.up ==> a.hit_up == k.hit_up.up()
                    &&& k.down ==> a.hit_down == k.hit_down.up()
                    &&& !k.up ==> a.hit_up == k.hit_up
                    &&& !k.down ==> a.hit_down == k.hit_down
                }
                &&& a.left == k.left && a.right == k.right && a.shoot == k.shoot
                &&& a.hit_left == k.hit_left && a.hit_right == k.hit_right
            }
            &&& (axis == GameControllerAxis::TriggerLeft || axis == GameControllerAxis::TriggerRight) ==> {
                &&& a.shoot == (value > 100)
                &&& a.up == k.up && a.down == k.down && a.left == k.left && a.right == k.right
            }
        }),
{
}

/// An update of a key that is not held changes nothing.
pub proof fn lemma_released_key_is_quiet(generator: KeyHitModel, update_time: u32)
    ensures
        generator.tick(update_time, false) == generator,
{
}

/// An update clears the key hits of the select and back keys: each one is
/// seen by at most one logic update.
pub proof fn lemma_update_clears_select_and_back(keyboard: KeyboardModel, update_time: u32)
    ensures
        !keyboard.update(update_time).key_hit_enter,
        !keyboard.update(update_time).key_hit_back,
{
}

} // verus!
