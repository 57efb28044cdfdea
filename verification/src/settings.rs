//! Settings and their text file format, command line arguments.

use vstd::prelude::*;
use crate::audio;
use crate::text::{
    chars_of, i32_to_string, int_decimal, join_lines, parse_i32, parse_i32_text, range_equals,
    str_equals, text_lines, trim, trim_range, newline_pieces,
    is_digit, is_white_space, nat_decimal, lemma_nat_decimal, lemma_parse_decimal, lemma_lines_of_joined, lemma_text_lines_after_joined,
};

verus! {

broadcast use vstd::string::group_string_axioms;

/// Settings with integer value.
#[derive(Copy, Clone, Debug, PartialEq, Eq, Structural)]
pub enum IntegerSetting {
    SoundEffectVolume,
    MusicVolume,
}

/// Settings with boolean value.
#[derive(Copy, Clone, Debug, PartialEq, Eq, Structural)]
pub enum BooleanSetting {
    FullScreen,
    ShowFpsCounter,
    VSync,
}

/// Setting and it's value.
#[derive(Copy, Clone, Debug, PartialEq, Eq, Structural)]
pub enum SettingType {
    Boolean(BooleanSetting, bool),
    Integer(IntegerSetting, i32),
}

/// Are `a` and `b` values of the same setting.
pub open spec fn same_setting(a: SettingType, b: SettingType) -> bool {
    match (a, b) {
        (SettingType::Boolean(x, _), SettingType::Boolean(y, _)) => x == y,
        (SettingType::Integer(x, _), SettingType::Integer(y, _)) => x == y,
        _ => false,
    }
}

/// Setting and it's name as text.
pub struct SettingContainer {
    name: &'static str,
    setting_type: SettingType,
}

impl SettingContainer {
    /// The setting's name.
    pub closed spec fn spec_name(&self) -> Seq<char> {
        self.name@
    }

    /// The setting and its value.
    pub closed spec fn spec_value(&self) -> SettingType {
        self.setting_type
    }

    /// Create new `SettingContainer`.
    pub fn new(name: &'static str, setting_type: SettingType) -> (container: SettingContainer)
        ensures
            container.spec_name() == name@,
            container.spec_value() == setting_type,
    {
        SettingContainer { name, setting_type }
    }

    /// Try setting a new boolean value to the `SettingContainer`.
    ///
    /// Returns true if new value was set.
    ///
    /// Works only if `SettingsContainer`'s current setting is same `BooleanSetting` as argument `setting`.
    fn set_if_boolean_setting_matches(&mut self, setting: BooleanSetting, value: bool) -> (set: bool)
        ensures
            set == same_setting(old(self).spec_value(), SettingType::Boolean(setting, value)),
            final(self).spec_value() == if set { SettingType::Boolean(setting, value) } else { old(self).spec_value() },
            final(self).spec_name() == old(self).spec_name(),
    {
        if let SettingType::Boolean(container_setting, _) = self.setting_type {
            if container_setting == setting {
                self.setting_type = SettingType::Boolean(container_setting, value);
                return true;
            }
        }
        false
    }

    /// Try setting a new integer value to the `SettingContainer`.
    ///
    /// Returns true if new value was set.
    ///
    /// Works only if `SettingsContainer`'s current setting is same `IntegerSetting` as argument `setting`.
    fn set_if_integer_setting_matches(&mut self, setting: IntegerSetting, value: i32) -> (set: bool)
        ensures
            set == same_setting(old(self).spec_value(), SettingType::Integer(setting, value)),
            final(self).spec_value() == if set { SettingType::Integer(setting, value) } else { old(self).spec_value() },
            final(self).spec_name() == old(self).spec_name(),
    {
        if let SettingType::Integer(container_setting, _) = self.setting_type {
            if container_setting == setting {
                self.setting_type = SettingType::Integer(container_setting, value);
                return true;
            }
        }
        false
    }

    /// Get setting's name text.
    pub fn get_name(&self) -> (name: &str)
        ensures
            name@ == self.spec_name(),
    {
        self.name
    }

    /// Get setting data.
    pub fn get_value(&self) -> (value: SettingType)
        ensures
            value == self.spec_value(),
    {
        self.setting_type
    }
}

/// Names of the settings, in the order `Settings::new` creates them.
pub open spec fn default_names() -> Seq<Seq<char>> {
    seq!["Full screen"@, "FPS counter"@, "VSync"@, "Music volume"@, "Effect volume"@]
}

/// Values of the settings that `Settings::new` creates.
pub open spec fn default_values() -> Seq<SettingType> {
    seq![
        SettingType::Boolean(BooleanSetting::FullScreen, false),
        SettingType::Boolean(BooleanSetting::ShowFpsCounter, false),
        SettingType::Boolean(BooleanSetting::VSync, true),
        SettingType::Integer(IntegerSetting::MusicVolume, audio::DEFAULT_VOLUME),
        SettingType::Integer(IntegerSetting::SoundEffectVolume, audio::DEFAULT_VOLUME),
    ]
}

/// `values` with the first value of the same setting as `new_value` replaced by it.
pub open spec fn update_first_match(values: Seq<SettingType>, new_value: SettingType) -> Seq<SettingType>
    decreases values.len(),
{
    if values.len() == 0 {
        values
    } else if same_setting(values[0], new_value) {
        values.update(0, new_value)
    } else {
        seq![values[0]] + update_first_match(values.drop_first(), new_value)
    }
}

/// Does `values` hold a value of the same setting as `new_value`.
pub open spec fn has_match(values: Seq<SettingType>, new_value: SettingType) -> bool {
    exists|i: int| 0 <= i < values.len() && same_setting(#[trigger] values[i], new_value)
}

/// When `i` is the first value of the same setting, `update_first_match` replaces it.
proof fn lemma_update_first_match(values: Seq<SettingType>, new_value: SettingType, i: int)
    requires
        0 <= i < values.len(),
        same_setting(values[i], new_value),
        forall|j: int| 0 <= j < i ==> !same_setting(#[trigger] values[j], new_value),
    ensures
        update_first_match(values, new_value) == values.update(i, new_value),
    decreases i,
{
    if i > 0 {
        assert(!same_setting(values[0], new_value));
        let rest = values.drop_first();
        assert forall|j: int| 0 <= j < i - 1 implies !same_setting(#[trigger] rest[j], new_value) by {
            assert(rest[j] == values[j + 1]);
        }
        lemma_update_first_match(rest, new_value, i - 1);
        assert(seq![values[0]] + rest.update(i - 1, new_value) =~= values.update(i, new_value));
    }
}

/// Without a value of the same setting, `update_first_match` changes nothing.
proof fn lemma_update_no_match(values: Seq<SettingType>, new_value: SettingType)
    requires
        forall|j: int| 0 <= j < values.len() ==> !same_setting(#[trigger] values[j], new_value),
    ensures
        update_first_match(values, new_value) == values,
    decreases values.len(),
{
    if values.len() > 0 {
        assert(!same_setting(values[0], new_value));
        let rest = values.drop_first();
        assert forall|j: int| 0 <= j < rest.len() implies !same_setting(#[trigger] rest[j], new_value) by {
            assert(rest[j] == values[j + 1]);
        }
        lemma_update_no_match(rest, new_value);
        assert(seq![values[0]] + rest =~= values);
    }
}

/// Mathematical model of `Arguments`.
pub struct ArgumentsModel {
    pub show_help: bool,
    pub print_fps_count: bool,
    pub print_joystick_events: bool,
    pub music_file_path: Option<Seq<char>>,
}

/// Arguments before any command line argument is read.
pub open spec fn no_arguments() -> ArgumentsModel {
    ArgumentsModel { show_help: false, print_fps_count: false, print_joystick_events: false, music_file_path: None }
}

/// State of the command line parser: the arguments read, and whether the next
/// argument is the music file path.
pub struct ArgumentsParse {
    pub arguments: ArgumentsModel,
    pub expect_music_file_path: bool,
}

/// The parser after reading `arg`, or the unknown argument.
pub open spec fn parse_argument(state: ArgumentsParse, arg: Seq<char>) -> Result<ArgumentsParse, Seq<char>> {
    if state.expect_music_file_path {
        Ok(ArgumentsParse {
            arguments: ArgumentsModel { music_file_path: Some(arg), ..state.arguments },
            expect_music_file_path: false,
        })
    } else if arg == "--fps"@ {
        Ok(ArgumentsParse { arguments: ArgumentsModel { print_fps_count: true, ..state.arguments }, ..state })
    } else if arg == "--joystick-events"@ {
        Ok(ArgumentsParse { arguments: ArgumentsModel { print_joystick_events: true, ..state.arguments }, ..state })
    } else if arg == "--help"@ || arg == "-h"@ {
        Ok(ArgumentsParse { arguments: ArgumentsModel { show_help: true, ..state.arguments }, ..state })
    } else if arg == "--music"@ {
        Ok(ArgumentsParse { expect_music_file_path: true, ..state })
    } else {
        Err(arg)
    }
}

/// The parser after reading `args` in order, stopping at the first unknown argument.
pub open spec fn parse_arguments(args: Seq<Seq<char>>) -> Result<ArgumentsParse, Seq<char>>
    decreases args.len(),
{
    if args.len() == 0 {
        Ok(ArgumentsParse { arguments: no_arguments(), expect_music_file_path: false })
    } else {
        match parse_arguments(args.drop_last()) {
            Ok(state) => parse_argument(state, args.last()),
            Err(unknown) => Err(unknown),
        }
    }
}

/// Parsed command line arguments.
///
/// # Supported arguments
/// * `--fps`
/// * `--joystick-events`
/// * `--help` or `-h`
/// * `--music path_to_music_file`
pub struct Arguments {
    show_help: bool,
    print_fps_count: bool,
    print_joystick_events: bool,
    music_file_path: Option<String>,
}

impl View for Arguments {
    type V = ArgumentsModel;

    closed spec fn view(&self) -> ArgumentsModel {
        ArgumentsModel {
            show_help: self.show_help,
            print_fps_count: self.print_fps_count,
            print_joystick_events: self.print_joystick_events,
            music_file_path: match &self.music_file_path {
                Some(path) => Some(path@),
                None => None,
            },
        }
    }
}

impl Arguments {
    /// Parse command line arguments. The first argument is the program name
    /// and is skipped.
    ///
    /// Returns with Err(unknown_argument) if there is
    /// unknown argument.
    pub fn parse(args: Vec<String>) -> (res: Result<Arguments, String>)
        ensures
            ({
                let words = args@.map_values(|a: String| a@);
                let parsed = parse_arguments(if words.len() == 0 { words } else { words.drop_first() });
                match res {
                    Ok(arguments) => parsed is Ok && arguments@ == parsed->Ok_0.arguments,
                    Err(unknown) => parsed is Err && unknown@ == parsed->Err_0,
                }
            }),
    {
        let mut arguments = Arguments {
            show_help: false,
            print_fps_count: false,
            print_joystick_events: false,
            music_file_path: None,
        };
        let mut expect_music_file_path = false;
        let ghost words = args@.map_values(|a: String| a@);
        let ghost rest = if words.len() == 0 { words } else { words.drop_first() };
        let mut i: usize = 1;
        if args.len() == 0 {
            assert(rest =~= Seq::<Seq<char>>::empty());
            return Ok(arguments);
        }
        assert(rest.take(0) =~= Seq::<Seq<char>>::empty());
        while i < args.len()
            invariant
                1 <= i <= args@.len(),
                words == args@.map_values(|a: String| a@),
                rest == words.drop_first(),
                parse_arguments(rest.take(i - 1)) == Ok::<ArgumentsParse, Seq<char>>(
                    ArgumentsParse { arguments: arguments@, expect_music_file_path },
                ),
            decreases args@.len() - i,
        {
            let arg = args[i].clone();
            let ghost before = ArgumentsParse { arguments: arguments@, expect_music_file_path };
            assert(rest.take(i as int).drop_last() =~= rest.take(i - 1));
            assert(rest.take(i as int).last() == arg@);
            if expect_music_file_path {
                arguments.music_file_path = Some(arg);
                expect_music_file_path = false;
            } else if str_equals(arg.as_str(), "--fps") {
                arguments.print_fps_count = true;
            } else if str_equals(arg.as_str(), "--joystick-events") {
                arguments.print_joystick_events = true;
            } else if str_equals(arg.as_str(), "--help") || str_equals(arg.as_str(), "-h") {
                arguments.show_help = true;
            } else if str_equals(arg.as_str(), "--music") {
                expect_music_file_path = true;
            } else {
                assert(parse_argument(before, arg@) == Err::<ArgumentsParse, Seq<char>>(arg@));
                assert(parse_arguments(rest.take(i as int)) == Err::<ArgumentsParse, Seq<char>>(arg@));
                proof {
                    lemma_parse_arguments_error_sticks(rest, i as int);
                }
                return Err(arg);
            }
            i = i + 1;
        }
        assert(rest.take(i - 1) =~= rest);
        Ok(arguments)
    }

    /// Is there argument `--help` or `-h` found.
    pub fn show_help(&self) -> (res: bool)
        ensures
            res == self@.show_help,
    {
        self.show_help
    }

    /// Possible user defined music file path.
    pub fn music_file_path(&self) -> (path: &Option<String>)
        ensures
            match path {
                Some(p) => self@.music_file_path == Some(p@),
                None => self@.music_file_path is None,
            },
    {
        &self.music_file_path
    }
}

/// Save and load settings. Handle command line argument settings.
pub struct Settings {
    settings: Vec<SettingContainer>,
    controller_mappings: Vec<String>,
    command_line_arguments: Arguments,
}

impl Settings {
    /// Names of the settings.
    pub closed spec fn names(&self) -> Seq<Seq<char>> {
        self.settings@.map_values(|c: SettingContainer| c.spec_name())
    }

    /// Values of the settings.
    pub closed spec fn values(&self) -> Seq<SettingType> {
        self.settings@.map_values(|c: SettingContainer| c.spec_value())
    }

    /// Game controller mappings.
    pub closed spec fn mappings(&self) -> Seq<Seq<char>> {
        self.controller_mappings@.map_values(|m: String| m@)
    }

    /// Command line arguments.
    pub closed spec fn arguments(&self) -> ArgumentsModel {
        self.command_line_arguments@
    }

    /// The settings are the ones that `Settings::new` creates, each one holding
    /// a value of its own setting.
    pub open spec fn wf(&self) -> bool {
        &&& self.names() == default_names()
        &&& self.values().len() == default_values().len()
        &&& forall|i: int| 0 <= i < self.values().len() ==> same_setting(#[trigger] self.values()[i], default_values()[i])
    }

    /// Create new `Settings` with default setting values and no game
    /// controller mappings.
    pub fn new(command_line_arguments: Arguments) -> (settings: Settings)
        ensures
            settings.wf(),
            settings.names() == default_names(),
            settings.values() == default_values(),
            settings.mappings() == Seq::<Seq<char>>::empty(),
            settings.arguments() == command_line_arguments@,
    {
        let settings = vec![
            SettingContainer::new("Full screen", SettingType::Boolean(BooleanSetting::FullScreen, false)),
            SettingContainer::new("FPS counter", SettingType::Boolean(BooleanSetting::ShowFpsCounter, false)),
            SettingContainer::new("VSync", SettingType::Boolean(BooleanSetting::VSync, true)),
            SettingContainer::new("Music volume", SettingType::Integer(IntegerSetting::MusicVolume, audio::DEFAULT_VOLUME)),
            SettingContainer::new("Effect volume", SettingType::Integer(IntegerSetting::SoundEffectVolume, audio::DEFAULT_VOLUME)),
        ];
        let settings = Settings { settings, controller_mappings: Vec::new(), command_line_arguments };
        assert(settings.names() =~= default_names());
        assert(settings.values() =~= default_values());
        assert(settings.mappings() =~= Seq::<Seq<char>>::empty());
        settings
    }

    /// Get settings.
    pub fn get_settings(&self) -> (settings: &Vec<SettingContainer>)
        ensures
            settings@.map_values(|c: SettingContainer| c.spec_name()) == self.names(),
            settings@.map_values(|c: SettingContainer| c.spec_value()) == self.values(),
    {
        &self.settings
    }

    /// Updates new value to `SettingContainer` existing in field `Vec<SettingContainer>`.
    ///
    /// Update will only happen to first found `IntegerSetting` or `BooleanSetting` that
    /// matches with the argument `new_value`. Returns false if there is no such setting.
    pub fn update_setting(&mut self, new_value: SettingType) -> (found: bool)
        ensures
            found == has_match(old(self).values(), new_value),
            final(self).values() == update_first_match(old(self).values(), new_value),
            final(self).names() == old(self).names(),
            final(self).mappings() == old(self).mappings(),
            final(self).arguments() == old(self).arguments(),
            old(self).wf() ==> final(self).wf(),
    {
        let ghost old_values = self.values();
        let n = self.settings.len();
        let mut j: usize = 0;
        while j < n
            invariant
                n == self.settings@.len(),
                j <= n,
                self.values() == old_values,
                old_values == old(self).values(),
                self.names() == old(self).names(),
                self.mappings() == old(self).mappings(),
                self.arguments() == old(self).arguments(),
                forall|k: int| 0 <= k < j ==> !same_setting(#[trigger] old_values[k], new_value),
            decreases n - j,
        {
            let ghost before = self.settings@;
            let set = match new_value {
                SettingType::Boolean(event, value) => self.settings[j].set_if_boolean_setting_matches(event, value),
                SettingType::Integer(event, value) => self.settings[j].set_if_integer_setting_matches(event, value),
            };
            assert(old_values[j as int] == before[j as int].spec_value());
            if set {
                assert(same_setting(old_values[j as int], new_value));
                proof {
                    lemma_update_first_match(old_values, new_value, j as int);
                    assert(self.values() =~= old_values.update(j as int, new_value));
                    assert(self.names() =~= old(self).names());
                    if old(self).wf() {
                        assert forall|i: int| 0 <= i < self.values().len() implies same_setting(
                            #[trigger] self.values()[i],
                            default_values()[i],
                        ) by {
                            assert(same_setting(old_values[i], default_values()[i]));
                            if i == j {
                                assert(same_setting(old_values[i], new_value));
                            }
                        }
                    }
                }
                return true;
            }
            assert(self.values() =~= old_values);
            assert(self.names() =~= old(self).names());
            j = j + 1;
        }
        proof {
            lemma_update_no_match(old_values, new_value);
        }
        false
    }

    /// Adds game controller mapping to `Vec<String>` located at `controller_mappings` field.
    pub fn add_game_controller_mapping(&mut self, mapping: String)
        ensures
            final(self).mappings() == old(self).mappings().push(mapping@),
            final(self).names() == old(self).names(),
            final(self).values() == old(self).values(),
            final(self).arguments() == old(self).arguments(),
    {
        self.controller_mappings.push(mapping);
        assert(self.mappings() =~= old(self).mappings().push(mapping@));
    }

    /// Is joystick event printing enabled.
    pub fn print_joystick_events(&self) -> (res: bool)
        ensures
            res == self.arguments().print_joystick_events,
    {
        self.command_line_arguments.print_joystick_events
    }

    /// Is fps count printing enabled.
    pub fn print_fps_count(&self) -> (res: bool)
        ensures
            res == self.arguments().print_fps_count,
    {
        self.command_line_arguments.print_fps_count
    }

    /// Text of the settings file: the current settings and the game controller
    /// mappings. The caller writes it to the settings file.
    pub fn settings_text(&self) -> (text: String)
        ensures
            text@ == join_lines(settings_file_lines(self.names(), self.values(), self.mappings())),
    {
        let mut text = String::new();
        let ghost header = seq!["# Settings file for Space Boss Battles"@, Seq::<char>::empty(), "[Settings]"@];
        proof {
            reveal_strlit("");
            assert(""@ =~= Seq::<char>::empty());
            assert(join_lines(Seq::<Seq<char>>::empty()) =~= Seq::<char>::empty());
        }
        let ghost l0 = Seq::<Seq<char>>::empty();
        let ghost l1 = l0.push("# Settings file for Space Boss Battles"@);
        let ghost l2 = l1.push(""@);
        append_line(&mut text, "# Settings file for Space Boss Battles", Ghost(l0));
        append_line(&mut text, "", Ghost(l1));
        append_line(&mut text, "[Settings]", Ghost(l2));
        assert(l2.push("[Settings]"@) =~= header);
        let ghost names = self.names();
        let ghost values = self.values();
        let ghost setting_lines = Seq::new(names.len(), |i: int| setting_line(names[i], values[i]));
        let n = self.settings.len();
        let mut i: usize = 0;
        while i < n
            invariant
                n == self.settings@.len(),
                i <= n,
                names == self.names(),
                values == self.values(),
                setting_lines == Seq::new(names.len(), |i: int| setting_line(names[i], values[i])),
                text@ == join_lines(header + setting_lines.take(i as int)),
            decreases n - i,
        {
            let setting = &self.settings[i];
            let ghost lines = header + setting_lines.take(i as int);
            let ghost before = text@;
            text.append(setting.get_name());
            text.append("=");
            match setting.get_value() {
                SettingType::Boolean(_, value) => {
                    if value {
                        text.append("true");
                    } else {
                        text.append("false");
                    }
                },
                SettingType::Integer(_, value) => {
                    let number = i32_to_string(value);
                    text.append(number.as_str());
                },
            }
            text.append("\n");
            proof {
                reveal_strlit("=");
                reveal_strlit("\n");
                assert(setting_lines[i as int] == setting_line(names[i as int], values[i as int]));
                assert(text@ =~= before + setting_lines[i as int] + seq!['\n']);
                assert(setting_lines.take(i + 1) =~= setting_lines.take(i as int).push(setting_lines[i as int]));
                assert(header + setting_lines.take(i + 1) =~= lines.push(setting_lines[i as int]));
                assert(lines.push(setting_lines[i as int]).drop_last() =~= lines);
            }
            i = i + 1;
        }
        assert(setting_lines.take(i as int) =~= setting_lines);
        let ghost lines = header + setting_lines;
        let ghost middle = seq![
            Seq::<char>::empty(),
            "[GameControllerMappings]"@,
            "# https://wiki.libsdl.org/SDL_GameControllerAddMapping"@,
            Seq::<char>::empty(),
        ];
        let ghost k1 = lines.push(""@);
        let ghost k2 = k1.push("[GameControllerMappings]"@);
        let ghost k3 = k2.push("# https://wiki.libsdl.org/SDL_GameControllerAddMapping"@);
        append_line(&mut text, "", Ghost(lines));
        append_line(&mut text, "[GameControllerMappings]", Ghost(k1));
        append_line(&mut text, "# https://wiki.libsdl.org/SDL_GameControllerAddMapping", Ghost(k2));
        append_line(&mut text, "", Ghost(k3));
        assert(k3.push(""@) =~= lines + middle);
        let ghost mappings = self.mappings();
        let m = self.controller_mappings.len();
        let mut j: usize = 0;
        while j < m
            invariant
                m == self.controller_mappings@.len(),
                j <= m,
                mappings == self.mappings(),
                text@ == join_lines(lines + middle + mappings.take(j as int)),
            decreases m - j,
        {
            proof {
                assert(mappings.take(j + 1) =~= mappings.take(j as int).push(mappings[j as int]));
                assert(lines + middle + mappings.take(j + 1) =~= (lines + middle + mappings.take(j as int)).push(mappings[j as int]));
            }
            append_line(&mut text, self.controller_mappings[j].as_str(), Ghost(lines + middle + mappings.take(j as int)));
            j = j + 1;
        }
        assert(mappings.take(j as int) =~= mappings);
        assert(lines + middle + mappings =~= settings_file_lines(names, values, mappings));
        text
    }

    /// State of reading a settings file into these settings.
    pub closed spec fn load_state(&self, mode: Option<SettingsParserMode>, errors: Seq<SettingsLoadError>) -> LoadState {
        LoadState {
            mode,
            values: self.values(),
            mappings: self.mappings(),
            errors: errors.map_values(|e: SettingsLoadError| e@),
        }
    }

    /// Reads setting `chars[name]` with value text `chars[value]`: every setting
    /// of that name takes the value, or an error is recorded.
    fn apply_setting_text(
        &mut self,
        text: &str,
        chars: &Vec<char>,
        name: (usize, usize),
        value: (usize, usize),
        mode: Option<SettingsParserMode>,
        errors: &mut Vec<SettingsLoadError>,
    )
        requires
            chars@ == text@,
            name.0 <= name.1 <= chars@.len(),
            value.0 <= value.1 <= chars@.len(),
        ensures
            final(self).load_state(mode, final(errors)@) == apply_setting_text(
                old(self).names(),
                old(self).load_state(mode, old(errors)@),
                chars@.subrange(name.0 as int, name.1 as int),
                chars@.subrange(value.0 as int, value.1 as int),
                old(self).names().len(),
            ),
            final(self).names() == old(self).names(),
            final(self).arguments() == old(self).arguments(),
    {
        let ghost names = self.names();
        let ghost start = self.load_state(mode, errors@);
        let ghost name_text = chars@.subrange(name.0 as int, name.1 as int);
        let ghost value_text = chars@.subrange(value.0 as int, value.1 as int);
        let n = self.settings.len();
        let mut j: usize = 0;
        while j < n
            invariant
                n == self.settings@.len(),
                j <= n,
                chars@ == text@,
                name.0 <= name.1 <= chars@.len(),
                value.0 <= value.1 <= chars@.len(),
                name_text == chars@.subrange(name.0 as int, name.1 as int),
                value_text == chars@.subrange(value.0 as int, value.1 as int),
                names == self.names(),
                self.arguments() == old(self).arguments(),
                self.load_state(mode, errors@) == apply_setting_text(names, start, name_text, value_text, j as nat),
            decreases n - j,
        {
            let ghost before = self.load_state(mode, errors@);
            let ghost before_errors = errors@;
            assert(names[j as int] == self.settings@[j as int].spec_name());
            assert(before.values[j as int] == self.settings@[j as int].spec_value());
            if range_equals(chars, name.0, name.1, self.settings[j].get_name()) {
                match self.settings[j].get_value() {
                    SettingType::Boolean(event, _) => {
                        if range_equals(chars, value.0, value.1, "true") {
                            self.settings[j].set_if_boolean_setting_matches(event, true);
                        } else if range_equals(chars, value.0, value.1, "false") {
                            self.settings[j].set_if_boolean_setting_matches(event, false);
                        } else {
                            let value_string = text.substring_char(value.0, value.1).to_string();
                            let name_string = self.settings[j].get_name().to_string();
                            errors.push(SettingsLoadError::NotBooleanValue(value_string, name_string));
                            assert(errors@.map_values(|e: SettingsLoadError| e@) =~= before_errors.map_values(
                                |e: SettingsLoadError| e@,
                            ).push(SettingsLoadErrorModel::NotBooleanValue(value_text, names[j as int])));
                        }
                    },
                    SettingType::Integer(event, _) => {
                        match parse_i32_text(text.substring_char(value.0, value.1)) {
                            Some(number) => {
                                self.settings[j].set_if_integer_setting_matches(event, number);
                            },
                            None => {
                                let value_string = text.substring_char(value.0, value.1).to_string();
                                let name_string = self.settings[j].get_name().to_string();
                                errors.push(SettingsLoadError::NotIntegerValue(value_string, name_string));
                                assert(errors@.map_values(|e: SettingsLoadError| e@) =~= before_errors.map_values(
                                    |e: SettingsLoadError| e@,
                                ).push(SettingsLoadErrorModel::NotIntegerValue(value_text, names[j as int])));
                            },
                        }
                    },
                }
            }
            assert(self.values() =~= apply_setting_text(names, start, name_text, value_text, (j + 1) as nat).values);
            assert(self.mappings() =~= before.mappings);
            assert(self.names() =~= names);
            j = j + 1;
        }
    }

    /// Reads the line `chars[start..end]` of a settings file.
    fn load_line(
        &mut self,
        text: &str,
        chars: &Vec<char>,
        start: usize,
        end: usize,
        mode: &mut Option<SettingsParserMode>,
        errors: &mut Vec<SettingsLoadError>,
    )
        requires
            chars@ == text@,
            start <= end <= chars@.len(),
        ensures
            final(self).load_state(*final(mode), final(errors)@) == load_line(
                old(self).names(),
                old(self).load_state(*old(mode), old(errors)@),
                chars@.subrange(start as int, end as int),
            ),
            final(self).names() == old(self).names(),
            final(self).arguments() == old(self).arguments(),
    {
        let ghost line = chars@.subrange(start as int, end as int);
        let (a, b) = trim_range(chars, start, end);
        let ghost t = chars@.subrange(a as int, b as int);
        assert(t == trim(line));
        if a == b || chars[a] == '#' {
            return;
        }
        if range_equals(chars, a, b, "[Settings]") {
            *mode = Some(SettingsParserMode::Settings);
            return;
        }
        if range_equals(chars, a, b, "[GameControllerMappings]") {
            *mode = Some(SettingsParserMode::GameControllerMappings);
            return;
        }
        match *mode {
            Some(SettingsParserMode::Settings) => {
                let k = first_index_in_range(chars, a, b, '=');
                if k == b {
                    let line_string = text.substring_char(a, b).to_string();
                    let ghost before_errors = errors@;
                    errors.push(SettingsLoadError::InvalidSetting(line_string));
                    assert(errors@.map_values(|e: SettingsLoadError| e@) =~= before_errors.map_values(
                        |e: SettingsLoadError| e@,
                    ).push(SettingsLoadErrorModel::InvalidSetting(t)));
                } else {
                    let k2 = first_index_in_range(chars, k + 1, b, '=');
                    let ghost rest = t.subrange((k - a) + 1, t.len() as int);
                    assert(rest =~= chars@.subrange(k + 1, b as int));
                    assert(t.subrange(0, (k - a) as int) =~= chars@.subrange(a as int, k as int));
                    assert(rest.subrange(0, first_index_of(rest, '=')) =~= chars@.subrange(k + 1, k2 as int));
                    self.apply_setting_text(text, chars, (a, k), (k + 1, k2), *mode, errors);
                }
            },
            Some(SettingsParserMode::GameControllerMappings) => {
                let mapping = text.substring_char(a, b).to_string();
                self.controller_mappings.push(mapping);
                assert(self.mappings() =~= old(self).mappings().push(t));
            },
            None => {},
        }
    }

    /// Reads a settings file: its `[Settings]` section gives the settings their
    /// values and its `[GameControllerMappings]` section adds game controller
    /// mappings. Returns the problems found in its lines.
    ///
    /// # File format
    ///
    /// Every line is trimmed. Empty lines are skipped and lines starting with `#`
    /// are comments. In the `[Settings]` section a line `setting name=value` sets
    /// the value of every setting with that name. In the `[GameControllerMappings]`
    /// section every line is a game controller mapping.
    pub fn load_from_text(&mut self, text: &str) -> (errors: Vec<SettingsLoadError>)
        ensures
            ({
                let end = load_lines(old(self).names(), load_start(old(self).values(), old(self).mappings()), text_lines(text@));
                &&& final(self).values() == end.values
                &&& final(self).mappings() == end.mappings
                &&& errors@.map_values(|e: SettingsLoadError| e@) == end.errors
            }),
            final(self).names() == old(self).names(),
            final(self).arguments() == old(self).arguments(),
    {
        let chars = chars_of(text);
        let ghost names = self.names();
        let ghost start = load_start(self.values(), self.mappings());
        let mut mode: Option<SettingsParserMode> = None;
        let mut errors: Vec<SettingsLoadError> = Vec::new();
        let n = chars.len();
        let mut line_start: usize = 0;
        let mut i: usize = 0;
        proof {
            assert(chars@.take(0) =~= Seq::<char>::empty());
            assert(errors@.map_values(|e: SettingsLoadError| e@) =~= Seq::<SettingsLoadErrorModel>::empty());
            assert(chars@.subrange(0, 0) =~= Seq::<char>::empty());
            assert(newline_pieces(Seq::<char>::empty()).drop_last() =~= Seq::<Seq<char>>::empty());
        }
        while i < n
            invariant
                n == chars@.len(),
                chars@ == text@,
                line_start <= i <= n,
                names == self.names(),
                self.arguments() == old(self).arguments(),
                newline_pieces(chars@.take(i as int)).len() >= 1,
                self.load_state(mode, errors@) == load_lines(names, start, newline_pieces(chars@.take(i as int)).drop_last()),
                chars@.subrange(line_start as int, i as int) == newline_pieces(chars@.take(i as int)).last(),
            decreases n - i,
        {
            let ghost pieces = newline_pieces(chars@.take(i as int));
            assert(chars@.take(i + 1).drop_last() =~= chars@.take(i as int));
            assert(chars@.take(i + 1).last() == chars@[i as int]);
            if chars[i] == '\n' {
                self.load_line(text, &chars, line_start, i, &mut mode, &mut errors);
                proof {
                    let next = newline_pieces(chars@.take(i + 1));
                    assert(next == pieces.push(Seq::<char>::empty()));
                    assert(next.drop_last() =~= pieces);
                    assert(pieces.drop_last().push(pieces.last()) =~= pieces);
                    assert(chars@.subrange(i + 1, i + 1) =~= Seq::<char>::empty());
                }
                line_start = i + 1;
            } else {
                proof {
                    let next = newline_pieces(chars@.take(i + 1));
                    assert(next == pieces.update(pieces.len() - 1, pieces.last().push(chars@[i as int])));
                    assert(next.drop_last() =~= pieces.drop_last());
                    assert(chars@.subrange(line_start as int, i + 1) =~= pieces.last().push(chars@[i as int]));
                }
            }
            i = i + 1;
        }
        let ghost pieces = newline_pieces(chars@);
        assert(chars@.take(n as int) =~= chars@);
        if line_start < n {
            self.load_line(text, &chars, line_start, n, &mut mode, &mut errors);
            assert(pieces.drop_last().push(pieces.last()) =~= pieces);
        }
        errors
    }

    /// Game controller mappings.
    pub fn game_controller_mappings(&self) -> (mappings: &Vec<String>)
        ensures
            mappings@.map_values(|m: String| m@) == self.mappings(),
    {
        &self.controller_mappings
    }
}

/// Settings parser states.
#[derive(Copy, Clone, Debug, PartialEq, Eq, Structural)]
pub enum SettingsParserMode {
    Settings,
    GameControllerMappings,
}

/// A problem in a settings file line. The file is still read further.
pub enum SettingsLoadError {
    /// A line of the settings section without `=`.
    InvalidSetting(String),
    /// A value of a boolean setting that is neither `true` nor `false`: the value and the setting's name.
    NotBooleanValue(String, String),
    /// A value of an integer setting that is not an `i32`: the value and the setting's name.
    NotIntegerValue(String, String),
}

/// Mathematical model of a `SettingsLoadError`.
pub enum SettingsLoadErrorModel {
    InvalidSetting(Seq<char>),
    NotBooleanValue(Seq<char>, Seq<char>),
    NotIntegerValue(Seq<char>, Seq<char>),
}

impl View for SettingsLoadError {
    type V = SettingsLoadErrorModel;

    open spec fn view(&self) -> SettingsLoadErrorModel {
        match self {
            SettingsLoadError::InvalidSetting(line) => SettingsLoadErrorModel::InvalidSetting(line@),
            SettingsLoadError::NotBooleanValue(value, name) => SettingsLoadErrorModel::NotBooleanValue(value@, name@),
            SettingsLoadError::NotIntegerValue(value, name) => SettingsLoadErrorModel::NotIntegerValue(value@, name@),
        }
    }
}

/// The text of a setting's value in the settings file.
pub open spec fn setting_value_text(value: SettingType) -> Seq<char> {
    match value {
        SettingType::Boolean(_, b) => if b { "true"@ } else { "false"@ },
        SettingType::Integer(_, n) => int_decimal(n as int),
    }
}

/// The line of a setting in the settings file.
pub open spec fn setting_line(name: Seq<char>, value: SettingType) -> Seq<char> {
    name + seq!['='] + setting_value_text(value)
}

/// The lines of the settings file.
pub open spec fn settings_file_lines(
    names: Seq<Seq<char>>,
    values: Seq<SettingType>,
    mappings: Seq<Seq<char>>,
) -> Seq<Seq<char>> {
    seq!["# Settings file for Space Boss Battles"@, Seq::<char>::empty(), "[Settings]"@]
        + Seq::new(names.len(), |i: int| setting_line(names[i], values[i]))
        + seq![
        Seq::<char>::empty(),
        "[GameControllerMappings]"@,
        "# https://wiki.libsdl.org/SDL_GameControllerAddMapping"@,
        Seq::<char>::empty(),
    ] + mappings
}

/// State of reading a settings file.
pub struct LoadState {
    pub mode: Option<SettingsParserMode>,
    pub values: Seq<SettingType>,
    pub mappings: Seq<Seq<char>>,
    pub errors: Seq<SettingsLoadErrorModel>,
}

/// Index of the first `c` in `s`, or the length of `s` when there is none.
pub open spec fn first_index_of(s: Seq<char>, c: char) -> int
    decreases s.len(),
{
    if s.len() == 0 {
        0
    } else if s[0] == c {
        0
    } else {
        1 + first_index_of(s.drop_first(), c)
    }
}

/// Reading setting `name` with value text `value` into the first `count` settings:
/// every setting of that name takes the value, or an error is recorded.
pub open spec fn apply_setting_text(
    names: Seq<Seq<char>>,
    state: LoadState,
    name: Seq<char>,
    value: Seq<char>,
    count: nat,
) -> LoadState
    decreases count,
{
    if count == 0 {
        state
    } else {
        let s = apply_setting_text(names, state, name, value, (count - 1) as nat);
        let i = count - 1;
        if names[i] != name {
            s
        } else {
            match s.values[i] {
                SettingType::Boolean(setting, _) => {
                    if value == "true"@ {
                        LoadState { values: s.values.update(i, SettingType::Boolean(setting, true)), ..s }
                    } else if value == "false"@ {
                        LoadState { values: s.values.update(i, SettingType::Boolean(setting, false)), ..s }
                    } else {
                        LoadState { errors: s.errors.push(SettingsLoadErrorModel::NotBooleanValue(value, names[i])), ..s }
                    }
                },
                SettingType::Integer(setting, _) => {
                    match parse_i32(value) {
                        Some(n) => LoadState { values: s.values.update(i, SettingType::Integer(setting, n)), ..s },
                        None => LoadState {
                            errors: s.errors.push(SettingsLoadErrorModel::NotIntegerValue(value, names[i])),
                            ..s
                        },
                    }
                },
            }
        }
    }
}

/// Reading one line of the settings file. Lines are trimmed; empty lines and
/// lines starting with `#` are skipped; section lines change the section.
pub open spec fn load_line(names: Seq<Seq<char>>, state: LoadState, line: Seq<char>) -> LoadState {
    let t = trim(line);
    if t.len() == 0 || t[0] == '#' {
        state
    } else if t == "[Settings]"@ {
        LoadState { mode: Some(SettingsParserMode::Settings), ..state }
    } else if t == "[GameControllerMappings]"@ {
        LoadState { mode: Some(SettingsParserMode::GameControllerMappings), ..state }
    } else {
        match state.mode {
            Some(SettingsParserMode::Settings) => {
                let k = first_index_of(t, '=');
                if k == t.len() {
                    LoadState { errors: state.errors.push(SettingsLoadErrorModel::InvalidSetting(t)), ..state }
                } else {
                    let rest = t.subrange(k + 1, t.len() as int);
                    apply_setting_text(
                        names,
                        state,
                        t.subrange(0, k),
                        rest.subrange(0, first_index_of(rest, '=')),
                        names.len(),
                    )
                }
            },
            Some(SettingsParserMode::GameControllerMappings) => LoadState { mappings: state.mappings.push(t), ..state },
            None => state,
        }
    }
}

/// Reading the lines of a settings file in order.
pub open spec fn load_lines(names: Seq<Seq<char>>, state: LoadState, lines: Seq<Seq<char>>) -> LoadState
    decreases lines.len(),
{
    if lines.len() == 0 {
        state
    } else {
        load_line(names, load_lines(names, state, lines.drop_last()), lines.last())
    }
}

/// State of reading a settings file into `values` and `mappings`, before the first line.
pub open spec fn load_start(values: Seq<SettingType>, mappings: Seq<Seq<char>>) -> LoadState {
    LoadState { mode: None, values, mappings, errors: Seq::empty() }
}

/// Index of the first `c` in `chars[start..end]`, or `end`.
fn first_index_in_range(chars: &Vec<char>, start: usize, end: usize, c: char) -> (k: usize)
    requires
        start <= end <= chars@.len(),
    ensures
        start <= k <= end,
        k - start == first_index_of(chars@.subrange(start as int, end as int), c),
{
    let mut k = start;
    while k < end && chars[k] != c
        invariant
            start <= k <= end <= chars@.len(),
            first_index_of(chars@.subrange(start as int, end as int), c) == (k - start) + first_index_of(
                chars@.subrange(k as int, end as int),
                c,
            ),
        decreases end - k,
    {
        assert(chars@.subrange(k as int, end as int).drop_first() =~= chars@.subrange(k + 1, end as int));
        k = k + 1;
    }
    k
}

/// Appends `line` and a newline to `text`.
fn append_line(text: &mut String, line: &str, Ghost(lines): Ghost<Seq<Seq<char>>>)
    requires
        old(text)@ == join_lines(lines),
    ensures
        final(text)@ == join_lines(lines.push(line@)),
{
    text.append(line);
    text.append("\n");
    proof {
        reveal_strlit("\n");
        assert(lines.push(line@).drop_last() =~= lines);
        assert(final(text)@ =~= join_lines(lines) + line@ + seq!['\n']);
    }
}

/// Once the parser meets an unknown argument, the arguments after it do not matter.
proof fn lemma_parse_arguments_error_sticks(args: Seq<Seq<char>>, k: int)
    requires
        0 <= k <= args.len(),
        parse_arguments(args.take(k)) is Err,
    ensures
        parse_arguments(args) == parse_arguments(args.take(k)),
    decreases args.len() - k,
{
    if k < args.len() {
        assert(args.take(k + 1).drop_last() =~= args.take(k));
        lemma_parse_arguments_error_sticks(args, k + 1);
    } else {
        assert(args.take(k) =~= args);
    }
}

} // verus!

verus! {

/// A game controller mapping that the settings file gives back as it was saved:
/// one non-empty line that is not a comment or a section line and does not
/// start or end with white space.
pub open spec fn mapping_survives_saving(mapping: Seq<char>) -> bool {
    &&& mapping.len() > 0
    &&& !is_white_space(mapping[0])
    &&& !is_white_space(mapping.last())
    &&& mapping[0] != '#'
    &&& !mapping.contains('\n')
    &&& mapping != "[Settings]"@
    &&& mapping != "[GameControllerMappings]"@
}

/// Text with no white space at its ends is its own trimmed text.
proof fn lemma_trim_fixed(s: Seq<char>)
    requires
        s.len() == 0 || (!is_white_space(s[0]) && !is_white_space(s.last())),
    ensures
        trim(s) == s,
{
}

/// Without `c` in `a`, the first `c` of `a + b` is the first `c` of `b`, after `a`.
proof fn lemma_first_index_concat(a: Seq<char>, b: Seq<char>, c: char)
    requires
        !a.contains(c),
    ensures
        first_index_of(a + b, c) == a.len() + first_index_of(b, c),
    decreases a.len(),
{
    if a.len() == 0 {
        assert(a + b =~= b);
    } else {
        assert(a[0] != c) by {
            assert(a.contains(a[0]));
        }
        let rest = a.drop_first();
        assert(!rest.contains(c)) by {
            if rest.contains(c) {
                let k = choose|k: int| 0 <= k < rest.len() && rest[k] == c;
                assert(a[k + 1] == c);
            }
        }
        lemma_first_index_concat(rest, b, c);
        assert((a + b).drop_first() =~= rest + b);
    }
}

/// Without `c` in `s`, the first `c` is at the end.
proof fn lemma_first_index_absent(s: Seq<char>, c: char)
    requires
        !s.contains(c),
    ensures
        first_index_of(s, c) == s.len(),
{
    lemma_first_index_concat(s, Seq::<char>::empty(), c);
    assert(s + Seq::<char>::empty() =~= s);
}

/// Reading two runs of lines one after the other.
proof fn lemma_load_lines_append(names: Seq<Seq<char>>, state: LoadState, a: Seq<Seq<char>>, b: Seq<Seq<char>>)
    ensures
        load_lines(names, state, a + b) == load_lines(names, load_lines(names, state, a), b),
    decreases b.len(),
{
    if b.len() == 0 {
        assert(a + b =~= a);
    } else {
        lemma_load_lines_append(names, state, a, b.drop_last());
        assert((a + b).drop_last() =~= a + b.drop_last());
        assert((a + b).last() == b.last());
    }
}

/// The characters of a decimal text are digits, after a possible leading minus sign.
proof fn lemma_int_decimal_digits(v: int)
    ensures
        int_decimal(v).len() > 0,
        forall|k: int| 0 <= k < int_decimal(v).len() ==> (is_digit(#[trigger] int_decimal(v)[k]) || (k == 0 && int_decimal(v)[k] == '-')),
        is_digit(int_decimal(v).last()),
{
    if v < 0 {
        let d = nat_decimal((-v) as nat);
        lemma_nat_decimal((-v) as nat);
        assert(int_decimal(v) == seq!['-'] + d);
        assert(int_decimal(v).last() == d.last());
        assert(is_digit(d[d.len() - 1]));
        assert forall|k: int| 0 <= k < int_decimal(v).len() implies (is_digit(#[trigger] int_decimal(v)[k]) || (k == 0
            && int_decimal(v)[k] == '-')) by {
            if k > 0 {
                assert(int_decimal(v)[k] == d[k - 1]);
            }
        }
    } else {
        let d = nat_decimal(v as nat);
        lemma_nat_decimal(v as nat);
        assert(is_digit(d[d.len() - 1]));
    }
}

/// Properties of the text of a setting value that reading it back relies on.
proof fn lemma_value_text(value: SettingType)
    ensures
        setting_value_text(value).len() > 0,
        !is_white_space(setting_value_text(value).last()),
        !setting_value_text(value).contains('='),
        !setting_value_text(value).contains('\n'),
{
    reveal_strlit("true");
    reveal_strlit("false");
    let t = setting_value_text(value);
    match value {
        SettingType::Boolean(_, b) => {
            assert(t.len() > 0);
            assert(!t.contains('=')) by {
                if t.contains('=') {
                    let k = choose|k: int| 0 <= k < t.len() && t[k] == '=';
                }
            }
            assert(!t.contains('\n')) by {
                if t.contains('\n') {
                    let k = choose|k: int| 0 <= k < t.len() && t[k] == '\n';
                }
            }
        },
        SettingType::Integer(_, n) => {
            lemma_int_decimal_digits(n as int);
            assert(!t.contains('=')) by {
                if t.contains('=') {
                    let k = choose|k: int| 0 <= k < t.len() && t[k] == '=';
                    assert(is_digit(t[k]) || t[k] == '-');
                }
            }
            assert(!t.contains('\n')) by {
                if t.contains('\n') {
                    let k = choose|k: int| 0 <= k < t.len() && t[k] == '\n';
                    assert(is_digit(t[k]) || t[k] == '-');
                }
            }
        },
    }
}

/// Facts about the names of the settings.
proof fn lemma_default_names()
    ensures
        default_names().len() == 5,
        forall|i: int| 0 <= i < 5 ==> (#[trigger] default_names()[i]).len() > 0,
        forall|i: int| 0 <= i < 5 ==> !is_white_space(#[trigger] default_names()[i][0]),
        forall|i: int| 0 <= i < 5 ==> (#[trigger] default_names()[i])[0] != '#',
        forall|i: int| 0 <= i < 5 ==> (#[trigger] default_names()[i])[0] != '[',
        forall|i: int| 0 <= i < 5 ==> !(#[trigger] default_names()[i]).contains('='),
        forall|i: int| 0 <= i < 5 ==> !(#[trigger] default_names()[i]).contains('\n'),
        forall|i: int, j: int| 0 <= i < 5 && 0 <= j < 5 && i != j ==> default_names()[i] != default_names()[j],
{
    reveal_strlit("Full screen");
    reveal_strlit("FPS counter");
    reveal_strlit("VSync");
    reveal_strlit("Music volume");
    reveal_strlit("Effect volume");
    let names = default_names();
    assert forall|i: int| 0 <= i < 5 implies !(#[trigger] names[i]).contains('=') by {
        if names[i].contains('=') {
            let k = choose|k: int| 0 <= k < names[i].len() && names[i][k] == '=';
        }
    }
    assert forall|i: int| 0 <= i < 5 implies !(#[trigger] names[i]).contains('\n') by {
        if names[i].contains('\n') {
            let k = choose|k: int| 0 <= k < names[i].len() && names[i][k] == '\n';
        }
    }
    assert forall|i: int, j: int| 0 <= i < 5 && 0 <= j < 5 && i != j implies names[i] != names[j] by {
        if names[i] == names[j] {
            assert(names[i].len() == names[j].len());
            assert(names[i][0] == names[j][0]);
            assert(names[i][1] == names[j][1]);
        }
    }
}

/// Settings that are not named `name` are not touched by reading it.
proof fn lemma_apply_skip(
    names: Seq<Seq<char>>,
    state: LoadState,
    name: Seq<char>,
    value: Seq<char>,
    lo: nat,
    hi: nat,
)
    requires
        lo <= hi,
        forall|c: int| lo <= c < hi ==> names[c] != name,
    ensures
        apply_setting_text(names, state, name, value, hi) == apply_setting_text(names, state, name, value, lo),
    decreases hi,
{
    if hi > lo {
        lemma_apply_skip(names, state, name, value, lo, (hi - 1) as nat);
    }
}

/// Values of the first `k` settings from `saved`, the others from `loaded`.
pub open spec fn mixed_values(saved: Seq<SettingType>, loaded: Seq<SettingType>, k: int) -> Seq<SettingType> {
    Seq::new(loaded.len(), |i: int| if i < k { saved[i] } else { loaded[i] })
}

/// Reading the line of setting `k`, saved with value `saved[k]`, gives that setting the saved value.
#[verifier::spinoff_prover]
#[verifier::rlimit(40)]
proof fn lemma_load_setting_line(saved: Seq<SettingType>, loaded: Seq<SettingType>, mappings: Seq<Seq<char>>, k: int)
    requires
        0 <= k < 5,
        saved.len() == 5,
        loaded.len() == 5,
        forall|i: int| 0 <= i < 5 ==> same_setting(#[trigger] saved[i], default_values()[i]),
        forall|i: int| 0 <= i < 5 ==> same_setting(#[trigger] loaded[i], default_values()[i]),
    ensures
        load_line(
            default_names(),
            LoadState {
                mode: Some(SettingsParserMode::Settings),
                values: mixed_values(saved, loaded, k),
                mappings,
                errors: Seq::empty(),
            },
            setting_line(default_names()[k], saved[k]),
        ) == (LoadState {
            mode: Some(SettingsParserMode::Settings),
            values: mixed_values(saved, loaded, k + 1),
            mappings,
            errors: Seq::empty(),
        }),
{
    let names = default_names();
    lemma_default_names();
    let state = LoadState {
        mode: Some(SettingsParserMode::Settings),
        values: mixed_values(saved, loaded, k),
        mappings,
        errors: Seq::<SettingsLoadErrorModel>::empty(),
    };
    let name = names[k];
    let value = setting_value_text(saved[k]);
    lemma_value_text(saved[k]);
    let line = setting_line(name, saved[k]);
    assert(line[0] == name[0]);
    assert(line.last() == value.last());
    lemma_trim_fixed(line);
    reveal_strlit("[Settings]");
    reveal_strlit("[GameControllerMappings]");
    assert(line != "[Settings]"@) by {
        assert("[Settings]"@[0] == '[');
    }
    assert(line != "[GameControllerMappings]"@) by {
        assert("[GameControllerMappings]"@[0] == '[');
    }
    lemma_first_index_concat(name, seq!['='] + value, '=');
    assert(name + seq!['='] + value =~= name + (seq!['='] + value));
    assert(first_index_of(seq!['='] + value, '=') == 0);
    let kk = first_index_of(line, '=');
    assert(kk == name.len());
    let rest = line.subrange(kk + 1, line.len() as int);
    assert(rest =~= value);
    lemma_first_index_absent(value, '=');
    assert(rest.subrange(0, first_index_of(rest, '=')) =~= value);
    assert(line.subrange(0, kk) =~= name);
    assert(load_line(names, state, line) == apply_setting_text(names, state, name, value, names.len()));
    lemma_apply_skip(names, state, name, value, 0, k as nat);
    lemma_apply_skip(names, state, name, value, (k + 1) as nat, 5);
    let after = apply_setting_text(names, state, name, value, (k + 1) as nat);
    assert(state.values[k] == loaded[k]);
    reveal_strlit("true");
    reveal_strlit("false");
    match saved[k] {
        SettingType::Boolean(_, b) => {
            assert("true"@ != "false"@) by {
                assert("true"@.len() != "false"@.len());
            }
            assert(after.values =~= mixed_values(saved, loaded, k + 1));
        },
        SettingType::Integer(_, n) => {
            lemma_parse_decimal(n);
            assert(after.values =~= mixed_values(saved, loaded, k + 1));
        },
    }
}

/// Reading the first `k` setting lines.
proof fn lemma_load_setting_lines(saved: Seq<SettingType>, loaded: Seq<SettingType>, mappings: Seq<Seq<char>>, k: int)
    requires
        0 <= k <= 5,
        saved.len() == 5,
        loaded.len() == 5,
        forall|i: int| 0 <= i < 5 ==> same_setting(#[trigger] saved[i], default_values()[i]),
        forall|i: int| 0 <= i < 5 ==> same_setting(#[trigger] loaded[i], default_values()[i]),
    ensures
        load_lines(
            default_names(),
            LoadState {
                mode: Some(SettingsParserMode::Settings),
                values: loaded,
                mappings,
                errors: Seq::empty(),
            },
            Seq::new(5, |i: int| setting_line(default_names()[i], saved[i])).take(k),
        ) == (LoadState {
            mode: Some(SettingsParserMode::Settings),
            values: mixed_values(saved, loaded, k),
            mappings,
            errors: Seq::empty(),
        }),
    decreases k,
{
    let lines = Seq::new(5, |i: int| setting_line(default_names()[i], saved[i]));
    if k == 0 {
        assert(mixed_values(saved, loaded, 0) =~= loaded);
    } else {
        lemma_load_setting_lines(saved, loaded, mappings, k - 1);
        assert(lines.take(k).drop_last() =~= lines.take(k - 1));
        assert(lines.take(k).last() == setting_line(default_names()[k - 1], saved[k - 1]));
        lemma_load_setting_line(saved, loaded, mappings, k - 1);
    }
}


/// Reading game controller mapping lines adds them.
proof fn lemma_load_mapping_lines(names: Seq<Seq<char>>, state: LoadState, mappings: Seq<Seq<char>>, j: int)
    requires
        0 <= j <= mappings.len(),
        state.mode == Some(SettingsParserMode::GameControllerMappings),
        forall|i: int| 0 <= i < mappings.len() ==> mapping_survives_saving(#[trigger] mappings[i]),
    ensures
        load_lines(names, state, mappings.take(j)) == (LoadState { mappings: state.mappings + mappings.take(j), ..state }),
    decreases j,
{
    if j == 0 {
        assert(state.mappings + mappings.take(0) =~= state.mappings);
    } else {
        lemma_load_mapping_lines(names, state, mappings, j - 1);
        assert(mappings.take(j).drop_last() =~= mappings.take(j - 1));
        let m = mappings[j - 1];
        assert(mapping_survives_saving(m));
        lemma_trim_fixed(m);
        assert(state.mappings + mappings.take(j) =~= (state.mappings + mappings.take(j - 1)).push(m));
    }
}

/// Saving settings and reading the saved text into settings as `Settings::new`
/// creates them gives back the saved setting values, adds the saved game
/// controller mappings after the ones already there, and finds no problem,
/// for every game controller mapping that is a single line that the file
/// format reads as a mapping.
pub proof fn lemma_save_load_round_trip(saved: Settings, loaded: Settings)
    requires
        saved.wf(),
        loaded.wf(),
        forall|i: int| 0 <= i < saved.mappings().len() ==> mapping_survives_saving(#[trigger] saved.mappings()[i]),
    ensures
        ({
            let text = join_lines(settings_file_lines(saved.names(), saved.values(), saved.mappings()));
            let end = load_lines(loaded.names(), load_start(loaded.values(), loaded.mappings()), text_lines(text));
            &&& end.values == saved.values()
            &&& end.mappings == loaded.mappings() + saved.mappings()
            &&& end.errors == Seq::<SettingsLoadErrorModel>::empty()
        }),
{
    let names = default_names();
    lemma_default_names();
    let v1 = saved.values();
    let v2 = loaded.values();
    let m1 = saved.mappings();
    let m2 = loaded.mappings();
    let h = "# Settings file for Space Boss Battles"@;
    let g = "[GameControllerMappings]"@;
    let w = "# https://wiki.libsdl.org/SDL_GameControllerAddMapping"@;
    let st = "[Settings]"@;
    reveal_strlit("# Settings file for Space Boss Battles");
    reveal_strlit("[GameControllerMappings]");
    reveal_strlit("# https://wiki.libsdl.org/SDL_GameControllerAddMapping");
    reveal_strlit("[Settings]");
    let header = seq![h, Seq::<char>::empty(), st];
    let setting_lines = Seq::new(5, |i: int| setting_line(names[i], v1[i]));
    let middle = seq![Seq::<char>::empty(), g, w, Seq::<char>::empty()];
    let lines = settings_file_lines(saved.names(), v1, m1);
    assert(lines == header + setting_lines + middle + m1);
    // No line holds a newline.
    assert forall|i: int| 0 <= i < lines.len() implies !(#[trigger] lines[i]).contains('\n') by {
        if i < 3 {
            if lines[i].contains('\n') {
                let k = choose|k: int| 0 <= k < lines[i].len() && lines[i][k] == '\n';
            }
        } else if i < 8 {
            let line = setting_lines[i - 3];
            assert(lines[i] == line);
            lemma_value_text(v1[i - 3]);
            if line.contains('\n') {
                let k = choose|k: int| 0 <= k < line.len() && line[k] == '\n';
                let name = names[i - 3];
                if k < name.len() {
                    assert(name[k] == '\n');
                } else if k > name.len() {
                    assert(setting_value_text(v1[i - 3])[k - name.len() - 1] == '\n');
                }
            }
        } else if i < 12 {
            if lines[i].contains('\n') {
                let k = choose|k: int| 0 <= k < lines[i].len() && lines[i][k] == '\n';
            }
        } else {
            assert(lines[i] == m1[i - 12]);
        }
    }
    lemma_lines_of_joined(lines);
    let start = load_start(v2, m2);
    // The header switches to the settings section.
    lemma_trim_fixed(h);
    lemma_trim_fixed(Seq::<char>::empty());
    lemma_trim_fixed(st);
    assert(h != st);
    let after_header = LoadState { mode: Some(SettingsParserMode::Settings), ..start };
    assert(load_lines(names, start, header) == after_header) by {
        let e = Seq::<Seq<char>>::empty();
        assert(header.drop_last() =~= e.push(h).push(Seq::<char>::empty()));
        assert(e.push(h).push(Seq::<char>::empty()).drop_last() =~= e.push(h));
        assert(e.push(h).drop_last() =~= e);
        assert(load_lines(names, start, e) == start);
        assert(trim(h) == h);
        assert(h[0] == '#');
        assert(load_line(names, start, h) == start);
        assert(e.push(h).last() == h);
        assert(load_lines(names, start, e.push(h)) == start);
        assert(load_lines(names, start, e.push(h).push(Seq::<char>::empty())) == start);
    }
    // The setting lines give the saved values.
    lemma_load_setting_lines(v1, v2, m2, 5);
    assert(setting_lines.take(5) =~= setting_lines);
    assert(mixed_values(v1, v2, 5) =~= v1);
    let after_settings = LoadState { mode: Some(SettingsParserMode::Settings), values: v1, mappings: m2, errors: Seq::empty() };
    assert(load_lines(names, after_header, setting_lines) == after_settings);
    lemma_load_lines_append(names, start, header, setting_lines);
    // The middle lines switch to the mappings section.
    lemma_trim_fixed(g);
    lemma_trim_fixed(w);
    assert(g != st) by {
        assert(g.len() != st.len());
    }
    let after_middle = LoadState { mode: Some(SettingsParserMode::GameControllerMappings), ..after_settings };
    assert(load_lines(names, after_settings, middle) == after_middle) by {
        let e = Seq::<Seq<char>>::empty();
        let p1 = e.push(Seq::<char>::empty());
        let p2 = p1.push(g);
        let p3 = p2.push(w);
        assert(middle =~= p3.push(Seq::<char>::empty()));
        assert(p3.push(Seq::<char>::empty()).drop_last() =~= p3);
        assert(p3.drop_last() =~= p2);
        assert(p2.drop_last() =~= p1);
        assert(p1.drop_last() =~= e);
        assert(load_lines(names, after_settings, e) == after_settings);
        assert(trim(Seq::<char>::empty()) == Seq::<char>::empty());
        assert(load_line(names, after_settings, Seq::<char>::empty()) == after_settings);
        assert(p1.last() == Seq::<char>::empty());
        assert(load_lines(names, after_settings, p1) == after_settings);
        assert(load_lines(names, after_settings, p2) == after_middle);
        assert(load_lines(names, after_settings, p3) == after_middle);
    }
    lemma_load_lines_append(names, start, header + setting_lines, middle);
    // The mapping lines add the mappings.
    lemma_load_mapping_lines(names, after_middle, m1, m1.len() as int);
    assert(m1.take(m1.len() as int) =~= m1);
    lemma_load_lines_append(names, start, header + setting_lines + middle, m1);
}

/// `a` and `b` agree on everything but the problems found: the section, the
/// setting values and the game controller mappings.
pub open spec fn same_but_errors(a: LoadState, b: LoadState) -> bool {
    a.mode == b.mode && a.values == b.values && a.mappings == b.mappings
}

/// Text `value` is no value of setting `setting`: a boolean setting takes only
/// `true` or `false`, an integer setting only an `i32`.
pub open spec fn not_a_value_of(setting: SettingType, value: Seq<char>) -> bool {
    match setting {
        SettingType::Boolean(_, _) => value != "true"@ && value != "false"@,
        SettingType::Integer(_, _) => parse_i32(value) is None,
    }
}

/// Line `line` is a malformed line of the settings section, read into settings
/// `names` with values `values`: after trimming it is no comment and no
/// section line, and either it has no `=`, or its value is no value of any
/// setting of its name (also when no setting has that name).
pub open spec fn malformed_setting_line(names: Seq<Seq<char>>, values: Seq<SettingType>, line: Seq<char>) -> bool {
    let t = trim(line);
    let k = first_index_of(t, '=');
    let rest = t.subrange(k + 1, t.len() as int);
    &&& t.len() != 0
    &&& t[0] != '#'
    &&& t != "[Settings]"@
    &&& t != "[GameControllerMappings]"@
    &&& (k == t.len() || forall|i: int| 0 <= i < names.len() && names[i] == t.subrange(0, k)
        ==> #[trigger] not_a_value_of(values[i], rest.subrange(0, first_index_of(rest, '='))))
}

/// Reading a setting into states that agree but for the problems found gives
/// states that agree but for the problems found.
proof fn lemma_apply_same_but_errors(
    names: Seq<Seq<char>>,
    a: LoadState,
    b: LoadState,
    name: Seq<char>,
    value: Seq<char>,
    count: nat,
)
    requires
        same_but_errors(a, b),
    ensures
        same_but_errors(apply_setting_text(names, a, name, value, count), apply_setting_text(names, b, name, value, count)),
    decreases count,
{
    if count > 0 {
        lemma_apply_same_but_errors(names, a, b, name, value, (count - 1) as nat);
    }
}

/// A value that is no value of any setting of the name changes no setting.
proof fn lemma_apply_invalid(names: Seq<Seq<char>>, state: LoadState, name: Seq<char>, value: Seq<char>, count: nat)
    requires
        count <= names.len(),
        forall|i: int| 0 <= i < count && names[i] == name ==> #[trigger] not_a_value_of(state.values[i], value),
    ensures
        same_but_errors(apply_setting_text(names, state, name, value, count), state),
    decreases count,
{
    if count > 0 {
        lemma_apply_invalid(names, state, name, value, (count - 1) as nat);
        let i = count - 1;
        if names[i] == name {
            assert(not_a_value_of(state.values[i], value));
        }
    }
}

/// Reading a line into states that agree but for the problems found gives
/// states that agree but for the problems found.
proof fn lemma_load_line_same_but_errors(names: Seq<Seq<char>>, a: LoadState, b: LoadState, line: Seq<char>)
    requires
        same_but_errors(a, b),
    ensures
        same_but_errors(load_line(names, a, line), load_line(names, b, line)),
{
    let t = trim(line);
    let k = first_index_of(t, '=');
    let rest = t.subrange(k + 1, t.len() as int);
    lemma_apply_same_but_errors(names, a, b, t.subrange(0, k), rest.subrange(0, first_index_of(rest, '=')), names.len());
}

/// Reading lines into states that agree but for the problems found gives
/// states that agree but for the problems found.
proof fn lemma_load_lines_same_but_errors(names: Seq<Seq<char>>, a: LoadState, b: LoadState, lines: Seq<Seq<char>>)
    requires
        same_but_errors(a, b),
    ensures
        same_but_errors(load_lines(names, a, lines), load_lines(names, b, lines)),
    decreases lines.len(),
{
    if lines.len() > 0 {
        lemma_load_lines_same_but_errors(names, a, b, lines.drop_last());
        lemma_load_line_same_but_errors(
            names,
            load_lines(names, a, lines.drop_last()),
            load_lines(names, b, lines.drop_last()),
            lines.last(),
        );
    }
}

/// A malformed line of the settings section changes no setting, no game
/// controller mapping and not the section: reading a settings file with it
/// gives the settings and mappings that the file without it gives, and the
/// lines after it are still read. Only a problem is recorded.
pub proof fn lemma_malformed_setting_line_changes_nothing(
    names: Seq<Seq<char>>,
    start: LoadState,
    before: Seq<Seq<char>>,
    line: Seq<char>,
    after: Seq<Seq<char>>,
)
    requires
        names.len() <= load_lines(names, start, before).values.len(),
        load_lines(names, start, before).mode == Some(SettingsParserMode::Settings),
        malformed_setting_line(names, load_lines(names, start, before).values, line),
    ensures
        same_but_errors(load_lines(names, start, before.push(line) + after), load_lines(names, start, before + after)),
{
    let s = load_lines(names, start, before);
    let t = trim(line);
    let k = first_index_of(t, '=');
    let rest = t.subrange(k + 1, t.len() as int);
    if k != t.len() {
        lemma_apply_invalid(names, s, t.subrange(0, k), rest.subrange(0, first_index_of(rest, '=')), names.len());
    }
    assert(same_but_errors(load_line(names, s, line), s));
    lemma_load_lines_append(names, start, before.push(line), after);
    lemma_load_lines_append(names, start, before, after);
    assert(before.push(line).drop_last() =~= before);
    lemma_load_lines_same_but_errors(names, load_line(names, s, line), s, after);
}

/// A malformed line of the settings section in a settings file changes no
/// setting, no game controller mapping and not the section: reading the text
/// of lines `before`, then `line`, then text `rest` gives the settings and
/// mappings that reading the text without `line` gives, and the lines of
/// `rest` are still read. Only a problem is recorded.
pub proof fn lemma_malformed_setting_line_in_text(
    names: Seq<Seq<char>>,
    start: LoadState,
    before: Seq<Seq<char>>,
    line: Seq<char>,
    rest: Seq<char>,
)
    requires
        forall|i: int| 0 <= i < before.len() ==> !(#[trigger] before[i]).contains('\n'),
        !line.contains('\n'),
        names.len() <= load_lines(names, start, before).values.len(),
        load_lines(names, start, before).mode == Some(SettingsParserMode::Settings),
        malformed_setting_line(names, load_lines(names, start, before).values, line),
    ensures
        same_but_errors(
            load_lines(names, start, text_lines(join_lines(before) + line + seq!['\n'] + rest)),
            load_lines(names, start, text_lines(join_lines(before) + rest)),
        ),
{
    let with_line = before.push(line);
    assert forall|i: int| 0 <= i < with_line.len() implies !(#[trigger] with_line[i]).contains('\n') by {
        if i < before.len() {
            assert(with_line[i] == before[i]);
        }
    }
    assert(join_lines(with_line) == join_lines(before) + line + seq!['\n']) by {
        assert(with_line.drop_last() =~= before);
    }
    assert(join_lines(before) + line + seq!['\n'] + rest =~= join_lines(with_line) + rest);
    lemma_text_lines_after_joined(with_line, rest);
    lemma_text_lines_after_joined(before, rest);
    lemma_malformed_setting_line_changes_nothing(names, start, before, line, text_lines(rest));
}

/// The parser reads position `k` of `args` as an option, not as the path of a
/// music file after `--music`.
pub open spec fn read_as_option(args: Seq<Seq<char>>, k: int) -> bool {
    parse_arguments(args.take(k)) matches Ok(state) && !state.expect_music_file_path
}

/// Command line arguments `args` that parse turn fps count printing on
/// exactly when `--fps` is read among them as an option.
#[verifier::spinoff_prover]
proof fn lemma_fps_flag(args: Seq<Seq<char>>)
    requires
        parse_arguments(args) is Ok,
    ensures
        parse_arguments(args)->Ok_0.arguments.print_fps_count
            <==> exists|k: int| 0 <= k < args.len() && args[k] == "--fps"@ && #[trigger] read_as_option(args, k),
    decreases args.len(),
{
    if args.len() > 0 {
        reveal_strlit("--fps");
        let front = args.drop_last();
        let n = args.len() - 1;
        lemma_fps_flag(front);
        assert(args.take(n) =~= front);
        assert forall|k: int| 0 <= k < n implies (#[trigger] read_as_option(args, k) <==> read_as_option(front, k)) by {
            assert(args.take(k) =~= front.take(k));
        }
        if parse_arguments(args)->Ok_0.arguments.print_fps_count {
            if !parse_arguments(front)->Ok_0.arguments.print_fps_count {
                assert(read_as_option(args, n) && args[n] == "--fps"@);
            } else {
                let k = choose|k: int| 0 <= k < front.len() && front[k] == "--fps"@ && #[trigger] read_as_option(front, k);
                assert(read_as_option(args, k) && args[k] == "--fps"@);
            }
        }
        if exists|k: int| 0 <= k < args.len() && args[k] == "--fps"@ && #[trigger] read_as_option(args, k) {
            let k = choose|k: int| 0 <= k < args.len() && args[k] == "--fps"@ && #[trigger] read_as_option(args, k);
            if k < n {
                assert(read_as_option(front, k) && front[k] == "--fps"@);
            }
        }
    }
}

/// Command line arguments `args` that parse turn joystick event printing on
/// exactly when `--joystick-events` is read among them as an option.
#[verifier::spinoff_prover]
proof fn lemma_joystick_flag(args: Seq<Seq<char>>)
    requires
        parse_arguments(args) is Ok,
    ensures
        parse_arguments(args)->Ok_0.arguments.print_joystick_events
            <==> exists|k: int| 0 <= k < args.len() && args[k] == "--joystick-events"@ && #[trigger] read_as_option(args, k),
    decreases args.len(),
{
    if args.len() > 0 {
        reveal_strlit("--fps");
        reveal_strlit("--joystick-events");
        assert("--joystick-events"@.len() == 17 && "--fps"@.len() == 5);
        assert("--joystick-events"@ != "--fps"@);
        let front = args.drop_last();
        let n = args.len() - 1;
        lemma_joystick_flag(front);
        assert(args.take(n) =~= front);
        assert forall|k: int| 0 <= k < n implies (#[trigger] read_as_option(args, k) <==> read_as_option(front, k)) by {
            assert(args.take(k) =~= front.take(k));
        }
        if parse_arguments(args)->Ok_0.arguments.print_joystick_events {
            if !parse_arguments(front)->Ok_0.arguments.print_joystick_events {
                assert(read_as_option(args, n) && args[n] == "--joystick-events"@);
            } else {
                let k = choose|k: int| 0 <= k < front.len() && front[k] == "--joystick-events"@ && #[trigger] read_as_option(front, k);
                assert(read_as_option(args, k) && args[k] == "--joystick-events"@);
            }
        }
        if exists|k: int| 0 <= k < args.len() && args[k] == "--joystick-events"@ && #[trigger] read_as_option(args, k) {
            let k = choose|k: int| 0 <= k < args.len() && args[k] == "--joystick-events"@ && #[trigger] read_as_option(args, k);
            if k < n {
                assert(read_as_option(front, k) && front[k] == "--joystick-events"@);
            } else {
                assert(k == n);
                assert(parse_arguments(front) is Ok);
                assert(!parse_arguments(front)->Ok_0.expect_music_file_path);
            }
        }
    }
}

/// Command line arguments `args` that parse turn fps count printing on exactly
/// when `--fps` is read among them as an option, and joystick event printing
/// exactly when `--joystick-events` is.
pub proof fn lemma_print_flags_from_arguments(args: Seq<Seq<char>>)
    requires
        parse_arguments(args) is Ok,
    ensures
        parse_arguments(args)->Ok_0.arguments.print_fps_count
            <==> exists|k: int| 0 <= k < args.len() && args[k] == "--fps"@ && #[trigger] read_as_option(args, k),
        parse_arguments(args)->Ok_0.arguments.print_joystick_events
            <==> exists|k: int| 0 <= k < args.len() && args[k] == "--joystick-events"@ && #[trigger] read_as_option(args, k),
{
    lemma_fps_flag(args);
    lemma_joystick_flag(args);
}

} // verus!
