//! Boolean settings shown in the GUI, toggled one at a time.

use vstd::prelude::*;
use crate::gui::GUIEvent;
use crate::settings;

verus! {

/// Boolean settings of the GUI.
#[derive(Copy, Clone, Debug, PartialEq, Eq, Structural)]
pub enum SettingEvent {
    FullScreen,
    ShowFpsCounter,
    VSync,
}

/// Setting and its value.
#[derive(Copy, Clone, Debug, PartialEq, Eq, Structural)]
pub enum SettingType {
    Boolean(SettingEvent, bool),
}

/// The same setting value as a setting of the settings file.
pub open spec fn as_file_setting(setting: SettingType) -> settings::SettingType {
    match setting {
        SettingType::Boolean(SettingEvent::FullScreen, v) => settings::SettingType::Boolean(settings::BooleanSetting::FullScreen, v),
        SettingType::Boolean(SettingEvent::ShowFpsCounter, v) => settings::SettingType::Boolean(settings::BooleanSetting::ShowFpsCounter, v),
        SettingType::Boolean(SettingEvent::VSync, v) => settings::SettingType::Boolean(settings::BooleanSetting::VSync, v),
    }
}

/// The setting with its value toggled.
pub open spec fn toggled(setting: SettingType) -> SettingType {
    match setting {
        SettingType::Boolean(event, value) => SettingType::Boolean(event, !value),
    }
}

/// Name and value of a setting.
pub trait Setting {
    /// Setting's name.
    fn get_name(&self) -> &str;
    /// Setting and its value.
    fn get_value(&self) -> SettingType;
}

/// Setting and it's name as text.
pub struct SettingContainer {
    name: &'static str,
    setting_type: SettingType,
}

impl SettingContainer {
    /// The setting's name.
    pub closed spec fn spec_name(&self) -> Seq<char> {
        self.name@
    }

    /// The setting and its value.
    pub closed spec fn spec_value(&self) -> SettingType {
        self.setting_type
    }

    /// Create new `SettingContainer`.
    pub fn new(name: &'static str, setting_type: SettingType) -> (container: SettingContainer)
        ensures
            container.spec_name() == name@,
            container.spec_value() == setting_type,
    {
        SettingContainer { name, setting_type }
    }

    /// Toggles the setting's value and returns the event that changes the
    /// setting to the new value.
    pub fn update(&mut self) -> (event: Option<GUIEvent>)
        ensures
            final(self).spec_value() == toggled(old(self).spec_value()),
            final(self).spec_name() == old(self).spec_name(),
            event == Some(GUIEvent::ChangeSetting(as_file_setting(final(self).spec_value()))),
    {
        match self.setting_type {
            SettingType::Boolean(event, value) => self.setting_type = SettingType::Boolean(event, !value),
        }
        let setting = match self.setting_type {
            SettingType::Boolean(SettingEvent::FullScreen, v) => settings::SettingType::Boolean(settings::BooleanSetting::FullScreen, v),
            SettingType::Boolean(SettingEvent::ShowFpsCounter, v) => settings::SettingType::Boolean(settings::BooleanSetting::ShowFpsCounter, v),
            SettingType::Boolean(SettingEvent::VSync, v) => settings::SettingType::Boolean(settings::BooleanSetting::VSync, v),
        };
        Some(GUIEvent::ChangeSetting(setting))
    }
}

impl Setting for SettingContainer {
    fn get_name(&self) -> (name: &str)
        ensures
            name@ == self.spec_name(),
    {
        self.name
    }

    fn get_value(&self) -> (value: SettingType)
        ensures
            value == self.spec_value(),
    {
        self.setting_type
    }
}

/// The GUI's boolean settings.
pub struct Settings {
    settings: Vec<SettingContainer>,
}

impl Settings {
    /// Values of the settings.
    pub closed spec fn values(&self) -> Seq<SettingType> {
        self.settings@.map_values(|c: SettingContainer| c.spec_value())
    }

    /// Names of the settings.
    pub closed spec fn names(&self) -> Seq<Seq<char>> {
        self.settings@.map_values(|c: SettingContainer| c.spec_name())
    }

    /// Create the settings: full screen and fps counter off, vertical synchronization on.
    pub fn new() -> (settings: Settings)
        ensures
            settings.names() == seq!["Full screen"@, "FPS counter"@, "VSync"@],
            settings.values() == seq![
                SettingType::Boolean(SettingEvent::FullScreen, false),
                SettingType::Boolean(SettingEvent::ShowFpsCounter, false),
                SettingType::Boolean(SettingEvent::VSync, true),
            ],
    {
        let settings = vec![
            SettingContainer::new("Full screen", SettingType::Boolean(SettingEvent::FullScreen, false)),
            SettingContainer::new("FPS counter", SettingType::Boolean(SettingEvent::ShowFpsCounter, false)),
            SettingContainer::new("VSync", SettingType::Boolean(SettingEvent::VSync, true)),
        ];
        let settings = Settings { settings };
        assert(settings.names() =~= seq!["Full screen"@, "FPS counter"@, "VSync"@]);
        assert(settings.values() =~= seq![
            SettingType::Boolean(SettingEvent::FullScreen, false),
            SettingType::Boolean(SettingEvent::ShowFpsCounter, false),
            SettingType::Boolean(SettingEvent::VSync, true),
        ]);
        settings
    }

    /// Get settings.
    pub fn get_settings(&self) -> (settings: &Vec<SettingContainer>)
        ensures
            settings@.map_values(|c: SettingContainer| c.spec_value()) == self.values(),
            settings@.map_values(|c: SettingContainer| c.spec_name()) == self.names(),
    {
        &self.settings
    }

    /// Toggles setting `i` and returns the event that changes it. There must be
    /// a setting `i`.
    pub fn event_from_index(&mut self, i: usize) -> (event: Option<GUIEvent>)
        requires
            i < old(self).values().len(),
        ensures
            final(self).values() == old(self).values().update(i as int, toggled(old(self).values()[i as int])),
            final(self).names() == old(self).names(),
            event == Some(GUIEvent::ChangeSetting(as_file_setting(toggled(old(self).values()[i as int])))),
    {
        let event = self.settings[i].update();
        assert(self.values() =~= old(self).values().update(i as int, toggled(old(self).values()[i as int])));
        assert(self.names() =~= old(self).names());
        event
    }
}

} // verus!
