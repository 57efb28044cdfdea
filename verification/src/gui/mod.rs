//! Simple GUI toolkit with events: GUI states, events and selection between
//! GUI components.
//!
//! `GUIEvent` type represents request of change to the current state of the GUI or
//! some other component of the game. That means you can request starting a new game or
//! changing some setting also.

pub mod components;
pub mod settings;

use vstd::prelude::*;
use crate::logic::Difficulty;
use crate::settings::{BooleanSetting, IntegerSetting, SettingType, Settings};
use crate::input::{Input, InputModel, KeyboardModel};
use crate::audio::{Volume, VolumeSDL2};
use crate::gui::components::{
    click_result, events_of, first_collision, next_selection, no_collision, GUIArea, GUIButton, GUIGroup, GUIGroupBuilder, GUIUserInteraction,
};

verus! {

/// Event that will be sent from a GUI layer to the GUI.
#[derive(Copy, Clone, PartialEq, Eq, Structural, Debug)]
pub enum GUIEvent {
    NextLevel,
    NewGame(Difficulty),
    ChangeState(GUIState),
    ChangeSetting(SettingType),
    Exit,
}

/// Current state of the GUI.
#[derive(Copy, Clone, PartialEq, Eq, Structural, Debug)]
pub enum GUIState {
    MainMenu,
    DifficultySelectionMenu,
    PauseMenu,
    Game,
    PlayerWinsScreen,
    NextLevelScreen,
    GameOverScreen,
    SettingsMenu,
}

/// The GUI state after `event`: a new game or the next level shows the game,
/// a state change goes to its state, other events keep the state.
pub open spec fn state_after_event(state: GUIState, event: GUIEvent) -> GUIState {
    match event {
        GUIEvent::NextLevel | GUIEvent::NewGame(_) => GUIState::Game,
        GUIEvent::ChangeState(new_state) => new_state,
        _ => state,
    }
}

/// The event of the back key in GUI state `state`: the game pauses, the pause
/// menu continues the game, and other states have no back key event.
pub open spec fn back_key_event_of(state: GUIState) -> Option<GUIEvent> {
    match state {
        GUIState::Game => Some(GUIEvent::ChangeState(GUIState::PauseMenu)),
        GUIState::PauseMenu => Some(GUIEvent::ChangeState(GUIState::Game)),
        _ => None,
    }
}

/// Input model `m` with the back key hit read.
pub open spec fn back_key_read(m: InputModel) -> InputModel {
    InputModel { keyboard: KeyboardModel { key_hit_back: false, ..m.keyboard }, ..m }
}

/// Event of the back key in the current GUI state.
pub fn back_key_event(state: GUIState) -> (event: Option<GUIEvent>)
    ensures
        event == back_key_event_of(state),
{
    match state {
        GUIState::Game => Some(GUIEvent::ChangeState(GUIState::PauseMenu)),
        GUIState::PauseMenu => Some(GUIEvent::ChangeState(GUIState::Game)),
        _ => None,
    }
}

/// Whether the game logic is rendered and updated after GUI event `event`, or
/// `None` when the event leaves them as they are: a new game, the next level and
/// the game state render and update the game; the pause menu and the level end
/// screens render it without updating; the other menus do neither.
pub fn game_rendering_and_updating(event: GUIEvent) -> (flags: Option<(bool, bool)>)
    ensures
        flags == match event {
            GUIEvent::NewGame(_) | GUIEvent::NextLevel | GUIEvent::ChangeState(GUIState::Game) => Some((true, true)),
            GUIEvent::ChangeState(GUIState::PauseMenu)
            | GUIEvent::ChangeState(GUIState::NextLevelScreen)
            | GUIEvent::ChangeState(GUIState::GameOverScreen)
            | GUIEvent::ChangeState(GUIState::PlayerWinsScreen) => Some((true, false)),
            GUIEvent::ChangeState(_) => Some((false, false)),
            _ => None,
        },
{
    match event {
        GUIEvent::NewGame(_) | GUIEvent::NextLevel | GUIEvent::ChangeState(GUIState::Game) => Some((true, true)),
        GUIEvent::ChangeState(GUIState::PauseMenu)
        | GUIEvent::ChangeState(GUIState::NextLevelScreen)
        | GUIEvent::ChangeState(GUIState::GameOverScreen)
        | GUIEvent::ChangeState(GUIState::PlayerWinsScreen) => Some((true, false)),
        GUIEvent::ChangeState(_) => Some((false, false)),
        _ => None,
    }
}

/// What the default input handling of a layer of buttons does, by the key
/// and mouse hits of the input: the up and down keys move the selection,
/// enter gives the selected button's event, a mouse click the event of the
/// button under the mouse, and mouse motion selects the button under the
/// mouse. The input hits are read in that order, each one read is cleared, and
/// the first one that is on decides.
pub enum ButtonInput {
    SelectionUp,
    SelectionDown,
    Enter,
    MouseClick,
    MouseMotion,
    Other,
}

/// The input `m` with the hits read by the default input handling of a layer
/// cleared, up to and including the one that decided `kind`.
pub open spec fn input_after_buttons(m: InputModel, kind: ButtonInput) -> InputModel {
    let k = m.keyboard;
    let up_read = InputModel { keyboard: KeyboardModel { hit_up: k.hit_up.cleared(), ..k }, ..m };
    let down_read = InputModel {
        keyboard: KeyboardModel { hit_down: k.hit_down.cleared(), ..up_read.keyboard },
        ..up_read
    };
    let enter_read = InputModel { keyboard: KeyboardModel { key_hit_enter: false, ..down_read.keyboard }, ..down_read };
    let click_read = InputModel { mouse_button_hit: false, ..enter_read };
    let motion_read = InputModel { mouse_motion: false, ..click_read };
    match kind {
        ButtonInput::SelectionUp => up_read,
        ButtonInput::SelectionDown => down_read,
        ButtonInput::Enter => enter_read,
        ButtonInput::MouseClick => click_read,
        ButtonInput::MouseMotion => motion_read,
        ButtonInput::Other => motion_read,
    }
}

/// Which input decides the default input handling of a layer in input `m`.
pub open spec fn button_input_kind(m: InputModel) -> ButtonInput {
    if m.keyboard.hit_up.key_hit {
        ButtonInput::SelectionUp
    } else if m.keyboard.hit_down.key_hit {
        ButtonInput::SelectionDown
    } else if m.keyboard.key_hit_enter {
        ButtonInput::Enter
    } else if m.mouse_button_hit {
        ButtonInput::MouseClick
    } else if m.mouse_motion {
        ButtonInput::MouseMotion
    } else {
        ButtonInput::Other
    }
}

/// Buttons `after` and `event` follow from the default input handling of
/// buttons `before` that input `kind` decided: the selection moves for the
/// arrow keys, enter gives the selected button's event, a click the event
/// of one of the buttons, and the buttons' events stay.
pub open spec fn buttons_after_input<A: GUIArea>(
    before: GUIGroup<GUIButton<A>>,
    after: GUIGroup<GUIButton<A>>,
    kind: ButtonInput,
    event: Option<GUIEvent>,
    point: &A::Point,
) -> bool {
    &&& after.wf()
    &&& after.len() == before.len()
    &&& events_of(after.components()) == events_of(before.components())
    &&& match kind {
        ButtonInput::SelectionUp => event is None
            && after.selected() == next_selection(before.selected(), before.len() as int, true),
        ButtonInput::SelectionDown => event is None
            && after.selected() == next_selection(before.selected(), before.len() as int, false),
        ButtonInput::Enter => event == Some(events_of(before.components())[before.selected()])
            && after.selected() == before.selected(),
        ButtonInput::MouseClick => click_result(before.components(), point, event)
            && after.selected() == before.selected(),
        ButtonInput::MouseMotion => event is None
            && (forall|i: int| #[trigger] first_collision(before.components(), point, i) ==> after.selected() == i)
            && (no_collision(before.components(), point) ==> after.selected() == before.selected()),
        ButtonInput::Other => event is None && after.selected() == before.selected(),
    }
}

/// Default input handling for a layer of buttons; see `ButtonInput`.
/// Returns which input decided and the event it gives, if any.
pub fn handle_button_input<A: GUIArea, I: Input>(
    buttons: &mut GUIGroup<GUIButton<A>>,
    input: &mut I,
    mouse_location: &A::Point,
) -> (res: (ButtonInput, Option<GUIEvent>))
    requires
        old(buttons).wf(),
    ensures
        res.0 == button_input_kind(old(input).input_model()),
        final(input).input_model() == input_after_buttons(old(input).input_model(), res.0),
        buttons_after_input(*old(buttons), *final(buttons), res.0, res.1, mouse_location),
{
    if input.key_hit_up() {
        buttons.selection_up();
        (ButtonInput::SelectionUp, None)
    } else if input.key_hit_down() {
        buttons.selection_down();
        (ButtonInput::SelectionDown, None)
    } else if input.key_hit_enter() {
        (ButtonInput::Enter, Some(buttons.event_of_currently_selected_component()))
    } else if input.mouse_button_hit() {
        (ButtonInput::MouseClick, buttons.check_collision_and_return_event(mouse_location))
    } else if input.mouse_motion() {
        buttons.update_selection(mouse_location);
        (ButtonInput::MouseMotion, None)
    } else {
        (ButtonInput::Other, None)
    }
}

/// Layer `after`, input `m_after` and event `event` follow from the default
/// input handling of layer `before` on input `m`; see `ButtonInput`.
pub open spec fn basic_layer_input<A: GUIArea>(
    before: BasicGUILayer<A>,
    after: BasicGUILayer<A>,
    m: InputModel,
    m_after: InputModel,
    event: Option<GUIEvent>,
    point: &A::Point,
) -> bool {
    let kind = button_input_kind(m);
    &&& m_after == input_after_buttons(m, kind)
    &&& buttons_after_input(before.spec_buttons(), after.spec_buttons(), kind, event, point)
}

/// Base type for simple menus with `GUIButton`s. Texts of the menus are
/// drawn by the caller.
pub struct BasicGUILayer<A: GUIArea> {
    buttons: GUIGroup<GUIButton<A>>,
}

impl<A: GUIArea> BasicGUILayer<A> {
    /// The buttons.
    pub closed spec fn spec_buttons(&self) -> GUIGroup<GUIButton<A>> {
        self.buttons
    }

    /// Events of the buttons, in order.
    pub open spec fn events(&self) -> Seq<GUIEvent> {
        events_of(self.spec_buttons().components())
    }

    /// Index of the selected button.
    pub open spec fn selected(&self) -> int {
        self.spec_buttons().selected()
    }

    /// The buttons are well formed.
    pub open spec fn wf(&self) -> bool {
        self.spec_buttons().wf()
    }

    /// Create main menu: start game, settings and exit buttons in the given areas.
    pub fn main_menu(start_game: A, settings: A, exit: A) -> (layer: BasicGUILayer<A>)
        ensures
            layer.wf(),
            layer.selected() == 0,
            layer.events() == seq![
                GUIEvent::ChangeState(GUIState::DifficultySelectionMenu),
                GUIEvent::ChangeState(GUIState::SettingsMenu),
                GUIEvent::Exit,
            ],
    {
        let buttons = GUIGroup::new(GUIButton::new(start_game, GUIEvent::ChangeState(GUIState::DifficultySelectionMenu)))
            .add(GUIButton::new(settings, GUIEvent::ChangeState(GUIState::SettingsMenu)))
            .add(GUIButton::new(exit, GUIEvent::Exit));
        BasicGUILayer { buttons }
    }

    /// Create difficulty selection menu: a button for each difficulty and one
    /// for the main menu. The default selection is "Normal".
    pub fn difficulty_selection_menu(easy: A, normal: A, hard: A, main_menu: A) -> (layer: BasicGUILayer<A>)
        ensures
            layer.wf(),
            layer.selected() == 1,
            layer.events() == seq![
                GUIEvent::NewGame(Difficulty::Easy),
                GUIEvent::NewGame(Difficulty::Normal),
                GUIEvent::NewGame(Difficulty::Hard),
                GUIEvent::ChangeState(GUIState::MainMenu),
            ],
    {
        let mut buttons = GUIGroup::new(GUIButton::new(easy, GUIEvent::NewGame(Difficulty::Easy)))
            .add(GUIButton::new(normal, GUIEvent::NewGame(Difficulty::Normal)))
            .add(GUIButton::new(hard, GUIEvent::NewGame(Difficulty::Hard)))
            .add(GUIButton::new(main_menu, GUIEvent::ChangeState(GUIState::MainMenu)));
        buttons.selection_down();
        BasicGUILayer { buttons }
    }

    /// Create player wins screen: a button to the main menu.
    pub fn player_wins_screen(main_menu: A) -> (layer: BasicGUILayer<A>)
        ensures
            layer.wf(),
            layer.selected() == 0,
            layer.events() == seq![GUIEvent::ChangeState(GUIState::MainMenu)],
    {
        BasicGUILayer { buttons: GUIGroup::new(GUIButton::new(main_menu, GUIEvent::ChangeState(GUIState::MainMenu))) }
    }

    /// Create game over screen: a button to the main menu.
    pub fn game_over_screen(main_menu: A) -> (layer: BasicGUILayer<A>)
        ensures
            layer.wf(),
            layer.selected() == 0,
            layer.events() == seq![GUIEvent::ChangeState(GUIState::MainMenu)],
    {
        BasicGUILayer { buttons: GUIGroup::new(GUIButton::new(main_menu, GUIEvent::ChangeState(GUIState::MainMenu))) }
    }

    /// Create next level screen: a button to the next level.
    pub fn next_level_screen(next_level: A) -> (layer: BasicGUILayer<A>)
        ensures
            layer.wf(),
            layer.selected() == 0,
            layer.events() == seq![GUIEvent::NextLevel],
    {
        BasicGUILayer { buttons: GUIGroup::new(GUIButton::new(next_level, GUIEvent::NextLevel)) }
    }

    /// Get the buttons.
    pub fn get_buttons(&self) -> (buttons: &GUIGroup<GUIButton<A>>)
        ensures
            *buttons == self.spec_buttons(),
    {
        &self.buttons
    }

    /// Default input handling of the layer's buttons; see `ButtonInput`.
    pub fn handle_input<I: Input>(&mut self, input: &mut I, mouse_location: &A::Point) -> (event: Option<GUIEvent>)
        requires
            old(self).wf(),
        ensures
            basic_layer_input(*old(self), *final(self), old(input).input_model(), final(input).input_model(), event, mouse_location),
    {
        let (_, event) = handle_button_input(&mut self.buttons, input, mouse_location);
        event
    }
}

/// Menu `after`, input `m_after` and event `event` follow from the input
/// handling of pause menu `before` on input `m`: the default input handling,
/// where an event to the main menu also moves the selection up.
pub open spec fn pause_menu_input<A: GUIArea>(
    before: PauseMenu<A>,
    after: PauseMenu<A>,
    m: InputModel,
    m_after: InputModel,
    event: Option<GUIEvent>,
    point: &A::Point,
) -> bool {
    let kind = button_input_kind(m);
    let b = before.layer().spec_buttons();
    let a = after.layer().spec_buttons();
    &&& after.layer().wf()
    &&& m_after == input_after_buttons(m, kind)
    &&& if event == Some(GUIEvent::ChangeState(GUIState::MainMenu)) {
        &&& kind == ButtonInput::Enter || kind == ButtonInput::MouseClick
        &&& kind == ButtonInput::Enter ==> event == Some(events_of(b.components())[b.selected()])
        &&& kind == ButtonInput::MouseClick ==> click_result(b.components(), point, event)
        &&& events_of(a.components()) == events_of(b.components())
        &&& a.len() == b.len()
        &&& a.selected() == next_selection(b.selected(), b.len() as int, true)
    } else {
        buttons_after_input(b, a, kind, event, point)
    }
}

/// Pause menu: continue and main menu buttons. The selection goes back to
/// "Continue" after pressing "Main Menu".
pub struct PauseMenu<A: GUIArea>(BasicGUILayer<A>);

impl<A: GUIArea> PauseMenu<A> {
    /// The menu's buttons.
    pub closed spec fn layer(&self) -> BasicGUILayer<A> {
        self.0
    }

    /// Create the pause menu.
    pub fn new(continue_game: A, main_menu: A) -> (menu: PauseMenu<A>)
        ensures
            menu.layer().wf(),
            menu.layer().selected() == 0,
            menu.layer().events() == seq![GUIEvent::ChangeState(GUIState::Game), GUIEvent::ChangeState(GUIState::MainMenu)],
    {
        let buttons = GUIGroup::new(GUIButton::new(continue_game, GUIEvent::ChangeState(GUIState::Game)))
            .add(GUIButton::new(main_menu, GUIEvent::ChangeState(GUIState::MainMenu)));
        PauseMenu(BasicGUILayer { buttons })
    }

    /// Get the buttons.
    pub fn get_buttons(&self) -> (buttons: &GUIGroup<GUIButton<A>>)
        ensures
            *buttons == self.layer().spec_buttons(),
    {
        self.0.get_buttons()
    }

    /// Default input handling; an event to the main menu also moves the
    /// selection up, back to "Continue".
    pub fn handle_input<I: Input>(&mut self, input: &mut I, mouse_location: &A::Point) -> (event: Option<GUIEvent>)
        requires
            old(self).layer().wf(),
        ensures
            pause_menu_input(*old(self), *final(self), old(input).input_model(), final(input).input_model(), event, mouse_location),
    {
        let (kind, event) = handle_button_input(&mut self.0.buttons, input, mouse_location);
        if let Some(GUIEvent::ChangeState(GUIState::MainMenu)) = event {
            self.0.buttons.selection_up();
        }
        event
    }
}

/// Menu event of a setting: changing it from its current value.
pub open spec fn setting_event(setting: SettingType) -> GUIEvent {
    GUIEvent::ChangeSetting(setting)
}

/// Volume `volume` limited to [0; MAX_VOLUME].
pub open spec fn clamped_volume(volume: int) -> i32 {
    if volume > crate::audio::MAX_VOLUME {
        crate::audio::MAX_VOLUME
    } else if volume < 0 {
        0
    } else {
        volume as i32
    }
}

/// Settings menu: a button for each setting, carrying the setting's current
/// value, and a main menu button. Boolean buttons toggle their setting; the
/// left and right keys change the volume of a selected volume button. The
/// texts and sliders that show the values are drawn by the caller from the
/// buttons' events.
pub struct SettingsMenu<A: GUIArea> {
    layer: BasicGUILayer<A>,
}

impl<A: GUIArea> SettingsMenu<A> {
    /// The menu's buttons.
    pub closed spec fn spec_layer(&self) -> BasicGUILayer<A> {
        self.layer
    }

    /// Creates new settings menu from `Settings`, a button for each setting in
    /// `setting_areas`, in order, and the main menu button in `main_menu`.
    pub fn new(settings: &Settings, setting_areas: Vec<A>, main_menu: A) -> (menu: SettingsMenu<A>)
        requires
            setting_areas@.len() == settings.values().len(),
            settings.values().len() > 0,
        ensures
            menu.spec_layer().wf(),
            menu.spec_layer().selected() == 0,
            menu.spec_layer().events()
                == settings.values().map_values(|v: SettingType| setting_event(v)).push(GUIEvent::ChangeState(GUIState::MainMenu)),
    {
        let mut areas = setting_areas;
        let values = settings.get_settings();
        let mut builder: GUIGroupBuilder<GUIButton<A>> = GUIGroupBuilder::new();
        let n = values.len();
        let mut i: usize = 0;
        while i < n
            invariant
                n == values@.len(),
                n == settings.values().len(),
                values@.map_values(|c: crate::settings::SettingContainer| c.spec_value()) == settings.values(),
                i <= n,
                areas@.len() == n - i,
                builder.components().len() == i,
                events_of(builder.components()) == settings.values().take(i as int).map_values(|v: SettingType| setting_event(v)),
            decreases n - i,
        {
            let area = areas.remove(0);
            let value = values[i].get_value();
            let ghost before = builder.components();
            let button = GUIButton::new(area, GUIEvent::ChangeSetting(value));
            let ghost b = button;
            builder.add(button);
            proof {
                assert(settings.values()[i as int] == value);
                assert(builder.components() == before.push(b));
                assert(events_of(before.push(b)) =~= events_of(before).push(b.spec_event_data()));
                assert(settings.values().take(i + 1) =~= settings.values().take(i as int).push(value));
                assert(settings.values().take(i as int).push(value).map_values(|v: SettingType| setting_event(v))
                    =~= settings.values().take(i as int).map_values(|v: SettingType| setting_event(v)).push(setting_event(value)));
            }
            i = i + 1;
        }
        proof {
            assert(settings.values().take(n as int) =~= settings.values());
        }
        let buttons = builder.create_gui_group();
        let buttons = buttons.add(GUIButton::new(main_menu, GUIEvent::ChangeState(GUIState::MainMenu)));
        SettingsMenu { layer: BasicGUILayer { buttons } }
    }

    /// Get the buttons.
    pub fn get_buttons(&self) -> (buttons: &GUIGroup<GUIButton<A>>)
        ensures
            *buttons == self.spec_layer().spec_buttons(),
    {
        self.layer.get_buttons()
    }

    /// Toggles boolean setting value if there exist an `GUIButton` with same values
    /// as arguments `setting` and `value`: the first such button changes to the
    /// toggled value.
    ///
    /// Returns the new setting value inside `SettingType` if matching button is found.
    pub fn update_boolean_setting(&mut self, setting: BooleanSetting, value: bool) -> (new_setting: Option<SettingType>)
        requires
            old(self).spec_layer().wf(),
        ensures
            final(self).spec_layer().wf(),
            final(self).spec_layer().selected() == old(self).spec_layer().selected(),
            ({
                let events = old(self).spec_layer().events();
                let pressed = GUIEvent::ChangeSetting(SettingType::Boolean(setting, value));
                let toggled = SettingType::Boolean(setting, !value);
                match events.index_of_first(pressed) {
                    Some(j) => new_setting == Some(toggled)
                        && final(self).spec_layer().events() == events.update(j, GUIEvent::ChangeSetting(toggled)),
                    None => new_setting is None && final(self).spec_layer().events() == events,
                }
            }),
    {
        let ghost events = self.layer.events();
        let pressed = GUIEvent::ChangeSetting(SettingType::Boolean(setting, value));
        let n = self.layer.buttons.get_components().len();
        let mut j: usize = 0;
        while j < n
            invariant
                n == events.len(),
                j <= n,
                self.layer.wf(),
                n == self.layer.spec_buttons().len(),
                events == self.layer.events(),
                self.layer == old(self).spec_layer(),
                pressed == GUIEvent::ChangeSetting(SettingType::Boolean(setting, value)),
                forall|k: int| 0 <= k < j ==> events[k] != pressed,
            decreases n - j,
        {
            let event = self.layer.buttons.event_of_component(j);
            let found = match event {
                GUIEvent::ChangeSetting(SettingType::Boolean(event_setting, event_value)) => {
                    event_setting == setting && event_value == value
                },
                _ => false,
            };
            assert(found == (events[j as int] == pressed));
            if found {
                let new_setting = SettingType::Boolean(setting, !value);
                self.layer.buttons.set_event_of_component(j, GUIEvent::ChangeSetting(new_setting));
                proof {
                    events.index_of_first_ensures(pressed);
                    if let Some(first) = events.index_of_first(pressed) {
                        if first < j {
                            assert(events[first] != pressed);
                        }
                        if (j as int) < first {
                            assert(events[j as int] != pressed);
                        }
                    }
                }
                return Some(new_setting);
            }
            j = j + 1;
        }
        proof {
            events.index_of_first_ensures(pressed);
        }
        None
    }

    /// Tries adding argument `number` to current value of currently selected volume slider.
    ///
    /// When the selected button holds an `IntegerSetting`, its value changes by
    /// `number`, limited to [0; MAX_VOLUME], and the changed setting is returned as `GUIEvent`.
    pub fn update_currently_selected_integer_setting(&mut self, number: i32) -> (event: Option<GUIEvent>)
        requires
            old(self).spec_layer().wf(),
        ensures
            final(self).spec_layer().wf(),
            final(self).spec_layer().selected() == old(self).spec_layer().selected(),
            ({
                let events = old(self).spec_layer().events();
                let selected = old(self).spec_layer().selected();
                match events[selected] {
                    GUIEvent::ChangeSetting(SettingType::Integer(setting, value)) => {
                        let updated = GUIEvent::ChangeSetting(SettingType::Integer(setting, clamped_volume(value + number)));
                        event == Some(updated) && final(self).spec_layer().events() == events.update(selected, updated)
                    },
                    _ => event is None && final(self).spec_layer().events() == events,
                }
            }),
    {
        if let GUIEvent::ChangeSetting(SettingType::Integer(integer_setting, value)) = self.layer.buttons.event_of_currently_selected_component() {
            let total: i64 = value as i64 + number as i64;
            let clamped: i32 = if total > crate::audio::MAX_VOLUME as i64 {
                crate::audio::MAX_VOLUME
            } else if total < 0 {
                0
            } else {
                total as i32
            };
            let value = VolumeSDL2::new(clamped).value();
            let updated_gui_event = GUIEvent::ChangeSetting(SettingType::Integer(integer_setting, value));
            self.layer.buttons.set_event_of_currently_selected_component(updated_gui_event);
            Some(updated_gui_event)
        } else {
            None
        }
    }
}

/// The settings menu's buttons' events and the menu's event after pressing
/// a button with event `pressed` in a menu with button events `events`: a
/// boolean setting's button toggles its value and the event carries the
/// toggled value; other events pass unchanged.
pub open spec fn after_setting_press(events: Seq<GUIEvent>, pressed: Option<GUIEvent>) -> (Seq<GUIEvent>, Option<GUIEvent>) {
    match pressed {
        Some(GUIEvent::ChangeSetting(SettingType::Boolean(setting, value))) => {
            let toggled = GUIEvent::ChangeSetting(SettingType::Boolean(setting, !value));
            match events.index_of_first(GUIEvent::ChangeSetting(SettingType::Boolean(setting, value))) {
                Some(j) => (events.update(j, toggled), Some(toggled)),
                None => (events, pressed),
            }
        },
        _ => (events, pressed),
    }
}

/// The settings menu's buttons' events and the menu's event after changing
/// the selected button's volume by `number`.
pub open spec fn after_volume_change(events: Seq<GUIEvent>, selected: int, number: int) -> (Seq<GUIEvent>, Option<GUIEvent>) {
    match events[selected] {
        GUIEvent::ChangeSetting(SettingType::Integer(setting, value)) => {
            let updated = GUIEvent::ChangeSetting(SettingType::Integer(setting, clamped_volume(value + number)));
            (events.update(selected, updated), Some(updated))
        },
        _ => (events, None),
    }
}

/// Volume change of the left and right keys in the settings menu.
pub const VOLUME_STEP: i32 = 20;

/// Menu `after`, input `m_after` and event `event` follow from the input
/// handling of settings menu `before` on input `m`: the default input
/// handling of its buttons, where a pressed boolean setting button toggles;
/// without such input, the left and right keys change the selected volume
/// by `VOLUME_STEP` down or up.
pub open spec fn settings_menu_input<A: GUIArea>(
    before: SettingsMenu<A>,
    after: SettingsMenu<A>,
    m: InputModel,
    m_after: InputModel,
    event: Option<GUIEvent>,
    point: &A::Point,
) -> bool {
    let kind = button_input_kind(m);
    let b = before.spec_layer();
    let a = after.spec_layer();
    let m1 = input_after_buttons(m, kind);
    let left = m1.keyboard.hit_left.key_hit;
    let m2 = InputModel { keyboard: KeyboardModel { hit_left: m1.keyboard.hit_left.cleared(), ..m1.keyboard }, ..m1 };
    let right = m2.keyboard.hit_right.key_hit;
    let m3 = InputModel { keyboard: KeyboardModel { hit_right: m2.keyboard.hit_right.cleared(), ..m2.keyboard }, ..m2 };
    &&& a.wf()
    &&& match kind {
        ButtonInput::Enter => {
            &&& m_after == m1
            &&& a.selected() == b.selected()
            &&& (a.events(), event) == after_setting_press(b.events(), Some(b.events()[b.selected()]))
        },
        ButtonInput::MouseClick => {
            &&& m_after == m1
            &&& a.selected() == b.selected()
            &&& exists|pressed: Option<GUIEvent>|
                click_result(b.spec_buttons().components(), point, pressed)
                && (a.events(), event) == #[trigger] after_setting_press(b.events(), pressed)
        },
        ButtonInput::Other => {
            &&& m_after == if left { m2 } else { m3 }
            &&& a.selected() == b.selected()
            &&& (a.events(), event) == if left {
                after_volume_change(b.events(), b.selected(), -VOLUME_STEP)
            } else if right {
                after_volume_change(b.events(), b.selected(), VOLUME_STEP as int)
            } else {
                (b.events(), None)
            }
        },
        _ => {
            &&& m_after == m1
            &&& buttons_after_input(b.spec_buttons(), a.spec_buttons(), kind, event, point)
        },
    }
}

impl<A: GUIArea> SettingsMenu<A> {
    /// Input handling of the settings menu: the default input handling of its
    /// buttons, where a pressed boolean setting button toggles; without such
    /// input, the left and right keys change the selected volume by
    /// `VOLUME_STEP` down or up.
    pub fn handle_input<I: Input>(&mut self, input: &mut I, mouse_location: &A::Point) -> (event: Option<GUIEvent>)
        requires
            old(self).spec_layer().wf(),
        ensures
            settings_menu_input(*old(self), *final(self), old(input).input_model(), final(input).input_model(), event, mouse_location),
    {
        let ghost events = self.layer.events();
        let (kind, event) = handle_button_input(&mut self.layer.buttons, input, mouse_location);
        match kind {
            ButtonInput::Enter | ButtonInput::MouseClick => {
                let ghost pressed = event;
                assert(self.layer.events() == events);
                if let Some(GUIEvent::ChangeSetting(SettingType::Boolean(setting, value))) = event {
                    if let Some(updated) = self.update_boolean_setting(setting, value) {
                        let result = Some(GUIEvent::ChangeSetting(updated));
                        proof {
                            assert(after_setting_press(events, pressed) == (self.layer.events(), result));
                        }
                        return result;
                    }
                }
                proof {
                    if kind == ButtonInput::MouseClick {
                        assert(after_setting_press(events, pressed) == (self.layer.events(), event));
                    }
                }
                event
            },
            ButtonInput::Other => {
                if input.key_hit_left() {
                    self.update_currently_selected_integer_setting(-VOLUME_STEP)
                } else if input.key_hit_right() {
                    self.update_currently_selected_integer_setting(VOLUME_STEP)
                } else {
                    None
                }
            },
            _ => event,
        }
    }
}

/// Stores GUI layers and the GUI state. The game status and the fps counter
/// are drawn by the caller.
pub struct GUI<A: GUIArea> {
    main_menu: BasicGUILayer<A>,
    pause_menu: PauseMenu<A>,
    settings_menu: SettingsMenu<A>,
    difficulty_selection_menu: BasicGUILayer<A>,
    state: GUIState,
    game_over_screen: BasicGUILayer<A>,
    player_wins_screen: BasicGUILayer<A>,
    next_level_screen: BasicGUILayer<A>,
}

impl<A: GUIArea> GUI<A> {
    /// Current state of the GUI.
    pub closed spec fn spec_state(&self) -> GUIState {
        self.state
    }

    /// The main menu.
    pub closed spec fn spec_main_menu(&self) -> BasicGUILayer<A> {
        self.main_menu
    }

    /// The pause menu.
    pub closed spec fn spec_pause_menu(&self) -> PauseMenu<A> {
        self.pause_menu
    }

    /// The settings menu.
    pub closed spec fn spec_settings_menu(&self) -> SettingsMenu<A> {
        self.settings_menu
    }

    /// The difficulty selection menu.
    pub closed spec fn spec_difficulty_selection_menu(&self) -> BasicGUILayer<A> {
        self.difficulty_selection_menu
    }

    /// The game over screen.
    pub closed spec fn spec_game_over_screen(&self) -> BasicGUILayer<A> {
        self.game_over_screen
    }

    /// The player wins screen.
    pub closed spec fn spec_player_wins_screen(&self) -> BasicGUILayer<A> {
        self.player_wins_screen
    }

    /// The next level screen.
    pub closed spec fn spec_next_level_screen(&self) -> BasicGUILayer<A> {
        self.next_level_screen
    }

    /// `self` has the layers of `other`, but for the layer of state `state`.
    pub open spec fn layers_kept_but(&self, other: &Self, state: GUIState) -> bool {
        &&& state == GUIState::MainMenu || self.spec_main_menu() == other.spec_main_menu()
        &&& state == GUIState::PauseMenu || self.spec_pause_menu() == other.spec_pause_menu()
        &&& state == GUIState::SettingsMenu || self.spec_settings_menu() == other.spec_settings_menu()
        &&& state == GUIState::DifficultySelectionMenu
            || self.spec_difficulty_selection_menu() == other.spec_difficulty_selection_menu()
        &&& state == GUIState::GameOverScreen || self.spec_game_over_screen() == other.spec_game_over_screen()
        &&& state == GUIState::PlayerWinsScreen || self.spec_player_wins_screen() == other.spec_player_wins_screen()
        &&& state == GUIState::NextLevelScreen || self.spec_next_level_screen() == other.spec_next_level_screen()
    }

    /// Every layer's buttons are well formed.
    pub closed spec fn wf(&self) -> bool {
        &&& self.main_menu.wf()
        &&& self.pause_menu.layer().wf()
        &&& self.settings_menu.spec_layer().wf()
        &&& self.difficulty_selection_menu.wf()
        &&& self.game_over_screen.wf()
        &&& self.player_wins_screen.wf()
        &&& self.next_level_screen.wf()
    }

    /// Create new `GUI` from its layers, in the main menu state.
    pub fn new(
        main_menu: BasicGUILayer<A>,
        pause_menu: PauseMenu<A>,
        settings_menu: SettingsMenu<A>,
        difficulty_selection_menu: BasicGUILayer<A>,
        game_over_screen: BasicGUILayer<A>,
        player_wins_screen: BasicGUILayer<A>,
        next_level_screen: BasicGUILayer<A>,
    ) -> (gui: GUI<A>)
        requires
            main_menu.wf(),
            pause_menu.layer().wf(),
            settings_menu.spec_layer().wf(),
            difficulty_selection_menu.wf(),
            game_over_screen.wf(),
            player_wins_screen.wf(),
            next_level_screen.wf(),
        ensures
            gui.wf(),
            gui.spec_state() == GUIState::MainMenu,
            gui.spec_main_menu() == main_menu,
            gui.spec_pause_menu() == pause_menu,
            gui.spec_settings_menu() == settings_menu,
            gui.spec_difficulty_selection_menu() == difficulty_selection_menu,
            gui.spec_game_over_screen() == game_over_screen,
            gui.spec_player_wins_screen() == player_wins_screen,
            gui.spec_next_level_screen() == next_level_screen,
    {
        GUI {
            main_menu,
            pause_menu,
            settings_menu,
            difficulty_selection_menu,
            state: GUIState::MainMenu,
            game_over_screen,
            player_wins_screen,
            next_level_screen,
        }
    }

    /// Handles the input with the current layer and updates the GUI's state by
    /// the event it gives, which is returned. In the game the back key pauses,
    /// and in the pause menu it continues the game.
    pub fn handle_input<I: Input>(&mut self, input: &mut I, mouse_location: &A::Point) -> (event: Option<GUIEvent>)
        requires
            old(self).wf(),
        ensures
            final(self).wf(),
            final(self).spec_state() == match event {
                Some(e) => state_after_event(old(self).spec_state(), e),
                None => old(self).spec_state(),
            },
            old(self).spec_state() == GUIState::Game ==> event == if old(input).input_model().keyboard.key_hit_back {
                Some(GUIEvent::ChangeState(GUIState::PauseMenu))
            } else {
                None
            },
            old(self).spec_state() == GUIState::PauseMenu && old(input).input_model().keyboard.key_hit_back
                ==> event == Some(GUIEvent::ChangeState(GUIState::Game)),
            final(self).layers_kept_but(old(self), old(self).spec_state()),
            ({
                let before = *old(self);
                let after = *final(self);
                let m = old(input).input_model();
                let m_after = final(input).input_model();
                match before.spec_state() {
                    GUIState::MainMenu => basic_layer_input(
                        before.spec_main_menu(), after.spec_main_menu(), m, m_after, event, mouse_location),
                    GUIState::PauseMenu => if m.keyboard.key_hit_back {
                        m_after == back_key_read(m) && after.spec_pause_menu() == before.spec_pause_menu()
                    } else {
                        pause_menu_input(before.spec_pause_menu(), after.spec_pause_menu(), m, m_after, event, mouse_location)
                    },
                    GUIState::Game => m_after == back_key_read(m),
                    GUIState::SettingsMenu => settings_menu_input(
                        before.spec_settings_menu(), after.spec_settings_menu(), m, m_after, event, mouse_location),
                    GUIState::DifficultySelectionMenu => basic_layer_input(
                        before.spec_difficulty_selection_menu(), after.spec_difficulty_selection_menu(), m, m_after, event, mouse_location),
                    GUIState::NextLevelScreen => basic_layer_input(
                        before.spec_next_level_screen(), after.spec_next_level_screen(), m, m_after, event, mouse_location),
                    GUIState::GameOverScreen => basic_layer_input(
                        before.spec_game_over_screen(), after.spec_game_over_screen(), m, m_after, event, mouse_location),
                    GUIState::PlayerWinsScreen => basic_layer_input(
                        before.spec_player_wins_screen(), after.spec_player_wins_screen(), m, m_after, event, mouse_location),
                }
            }),
    {
        let event = match self.state {
            GUIState::MainMenu => self.main_menu.handle_input(input, mouse_location),
            GUIState::PauseMenu => {
                if input.key_hit_back() {
                    Some(GUIEvent::ChangeState(GUIState::Game))
                } else {
                    self.pause_menu.handle_input(input, mouse_location)
                }
            },
            GUIState::Game => {
                if input.key_hit_back() {
                    Some(GUIEvent::ChangeState(GUIState::PauseMenu))
                } else {
                    None
                }
            },
            GUIState::SettingsMenu => self.settings_menu.handle_input(input, mouse_location),
            GUIState::DifficultySelectionMenu => self.difficulty_selection_menu.handle_input(input, mouse_location),
            GUIState::NextLevelScreen => self.next_level_screen.handle_input(input, mouse_location),
            GUIState::GameOverScreen => self.game_over_screen.handle_input(input, mouse_location),
            GUIState::PlayerWinsScreen => self.player_wins_screen.handle_input(input, mouse_location),
        };
        if let Some(event) = event {
            self.handle_gui_event(event);
        }
        event
    }

    /// Update GUI state from `GUIEvent`.
    pub fn handle_gui_event(&mut self, event: GUIEvent)
        ensures
            final(self).spec_state() == state_after_event(old(self).spec_state(), event),
            final(self).spec_main_menu() == old(self).spec_main_menu(),
            final(self).spec_pause_menu() == old(self).spec_pause_menu(),
            final(self).spec_settings_menu() == old(self).spec_settings_menu(),
            final(self).spec_difficulty_selection_menu() == old(self).spec_difficulty_selection_menu(),
            final(self).spec_game_over_screen() == old(self).spec_game_over_screen(),
            final(self).spec_player_wins_screen() == old(self).spec_player_wins_screen(),
            final(self).spec_next_level_screen() == old(self).spec_next_level_screen(),
            old(self).wf() ==> final(self).wf(),
    {
        match event {
            GUIEvent::NextLevel | GUIEvent::NewGame(_) => self.state = GUIState::Game,
            GUIEvent::ChangeState(new_state) => self.state = new_state,
            _ => (),
        }
    }

    /// Current state of the GUI.
    pub fn state(&self) -> (state: GUIState)
        ensures
            state == self.spec_state(),
    {
        self.state
    }

    /// Buttons of the current layer; the game state has none.
    pub fn current_buttons(&self) -> (buttons: Option<&GUIGroup<GUIButton<A>>>)
        ensures
            buttons == match self.spec_state() {
                GUIState::MainMenu => Some(&self.spec_main_menu().spec_buttons()),
                GUIState::PauseMenu => Some(&self.spec_pause_menu().layer().spec_buttons()),
                GUIState::SettingsMenu => Some(&self.spec_settings_menu().spec_layer().spec_buttons()),
                GUIState::Game => None,
                GUIState::DifficultySelectionMenu => Some(&self.spec_difficulty_selection_menu().spec_buttons()),
                GUIState::GameOverScreen => Some(&self.spec_game_over_screen().spec_buttons()),
                GUIState::PlayerWinsScreen => Some(&self.spec_player_wins_screen().spec_buttons()),
                GUIState::NextLevelScreen => Some(&self.spec_next_level_screen().spec_buttons()),
            },
    {
        match self.state {
            GUIState::MainMenu => Some(self.main_menu.get_buttons()),
            GUIState::PauseMenu => Some(self.pause_menu.get_buttons()),
            GUIState::SettingsMenu => Some(self.settings_menu.get_buttons()),
            GUIState::Game => None,
            GUIState::DifficultySelectionMenu => Some(self.difficulty_selection_menu.get_buttons()),
            GUIState::GameOverScreen => Some(self.game_over_screen.get_buttons()),
            GUIState::PlayerWinsScreen => Some(self.player_wins_screen.get_buttons()),
            GUIState::NextLevelScreen => Some(self.next_level_screen.get_buttons()),
        }
    }
}

/// The back key pauses the game, and pressed again in the pause menu it
/// continues the game; in the other states it does nothing.
pub proof fn lemma_back_key_pauses_and_continues(state: GUIState)
    ensures
        state_after_event(GUIState::Game, back_key_event_of(GUIState::Game)->Some_0) == GUIState::PauseMenu,
        state_after_event(GUIState::PauseMenu, back_key_event_of(GUIState::PauseMenu)->Some_0) == GUIState::Game,
        state != GUIState::Game && state != GUIState::PauseMenu ==> back_key_event_of(state) is None,
{
}

} // verus!
