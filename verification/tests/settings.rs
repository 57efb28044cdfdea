use space_boss_battles::settings::{
    Arguments, BooleanSetting, IntegerSetting, SettingType, Settings, SettingsLoadError,
};
use space_boss_battles::text::{char_is_whitespace, chars_of, range_equals, str_equals, trim_range};

fn args(words: &[&str]) -> Vec<String> {
    words.iter().map(|w| w.to_string()).collect()
}

fn default_settings() -> Settings {
    Settings::new(Arguments::parse(args(&["game"])).ok().unwrap())
}

fn values(settings: &Settings) -> Vec<(String, SettingType)> {
    settings
        .get_settings()
        .iter()
        .map(|s| (s.get_name().to_string(), s.get_value()))
        .collect()
}

#[test]
fn default_settings_in_order() {
    let settings = default_settings();
    assert_eq!(
        values(&settings),
        vec![
            ("Full screen".to_string(), SettingType::Boolean(BooleanSetting::FullScreen, false)),
            ("FPS counter".to_string(), SettingType::Boolean(BooleanSetting::ShowFpsCounter, false)),
            ("VSync".to_string(), SettingType::Boolean(BooleanSetting::VSync, true)),
            ("Music volume".to_string(), SettingType::Integer(IntegerSetting::MusicVolume, 128)),
            ("Effect volume".to_string(), SettingType::Integer(IntegerSetting::SoundEffectVolume, 128)),
        ]
    );
    assert!(settings.game_controller_mappings().is_empty());
}

#[test]
fn arguments_are_parsed() {
    let arguments = Arguments::parse(args(&["game", "--fps", "--music", "song.ogg", "-h"])).ok().unwrap();
    assert!(arguments.show_help());
    assert_eq!(arguments.music_file_path(), &Some("song.ogg".to_string()));
    let settings = Settings::new(arguments);
    assert!(settings.print_fps_count());
    assert!(!settings.print_joystick_events());

    let arguments = Arguments::parse(args(&["game", "--joystick-events", "--help"])).ok().unwrap();
    assert!(arguments.show_help());
    assert_eq!(arguments.music_file_path(), &None);
    assert!(Settings::new(arguments).print_joystick_events());
}

#[test]
fn program_name_alone_gives_no_arguments() {
    let arguments = Arguments::parse(args(&["game"])).ok().unwrap();
    assert!(!arguments.show_help());
    assert_eq!(arguments.music_file_path(), &None);
    let arguments = Arguments::parse(Vec::new()).ok().unwrap();
    assert!(!arguments.show_help());
}

#[test]
fn unknown_argument_is_an_error() {
    match Arguments::parse(args(&["game", "--fps", "--fast", "--help"])) {
        Err(unknown) => assert_eq!(unknown, "--fast"),
        Ok(_) => panic!("unknown argument accepted"),
    }
    // The program name is not an argument.
    assert!(Arguments::parse(args(&["--unknown-program-name"])).is_ok());
}

#[test]
fn music_path_may_look_like_an_argument() {
    let arguments = Arguments::parse(args(&["game", "--music", "--fps"])).ok().unwrap();
    assert_eq!(arguments.music_file_path(), &Some("--fps".to_string()));
    let settings = Settings::new(arguments);
    assert!(!settings.print_fps_count());
}

#[test]
fn update_setting_changes_the_matching_setting() {
    let mut settings = default_settings();
    assert!(settings.update_setting(SettingType::Boolean(BooleanSetting::VSync, false)));
    assert!(settings.update_setting(SettingType::Integer(IntegerSetting::SoundEffectVolume, 20)));
    let v = values(&settings);
    assert_eq!(v[2].1, SettingType::Boolean(BooleanSetting::VSync, false));
    assert_eq!(v[4].1, SettingType::Integer(IntegerSetting::SoundEffectVolume, 20));
    assert_eq!(v[3].1, SettingType::Integer(IntegerSetting::MusicVolume, 128));
}

#[test]
fn settings_text_has_the_file_format() {
    let mut settings = default_settings();
    settings.add_game_controller_mapping("abc,Pad, a:b2".to_string());
    let text = settings.settings_text();
    assert_eq!(
        text,
        "# Settings file for Space Boss Battles\n\n[Settings]\nFull screen=false\nFPS counter=false\nVSync=true\nMusic volume=128\nEffect volume=128\n\n[GameControllerMappings]\n# https://wiki.libsdl.org/SDL_GameControllerAddMapping\n\nabc,Pad, a:b2\n"
    );
}

#[test]
fn saved_settings_load_back() {
    let mut saved = default_settings();
    saved.update_setting(SettingType::Boolean(BooleanSetting::FullScreen, true));
    saved.update_setting(SettingType::Integer(IntegerSetting::MusicVolume, -7));
    saved.add_game_controller_mapping("0300,Pad , a:b2".to_string());
    saved.add_game_controller_mapping("0400,Other".to_string());
    let text = saved.settings_text();
    let mut loaded = default_settings();
    let errors = loaded.load_from_text(&text);
    assert!(errors.is_empty());
    assert_eq!(values(&loaded), values(&saved));
    assert_eq!(loaded.game_controller_mappings(), saved.game_controller_mappings());
}

#[test]
fn example_settings_file_loads() {
    let text = "# Settings file for Space Boss Battles\n\n[Settings]\nFull screen=false\nFPS counter=true\n  VSync=false  \nMusic volume=64\nEffect volume=100\n\n[GameControllerMappings]\n# comment\n\n03000000100800000300000010010000,USB Gamepad , a:b2\n";
    let mut settings = default_settings();
    let errors = settings.load_from_text(text);
    assert!(errors.is_empty());
    let v = values(&settings);
    assert_eq!(v[1].1, SettingType::Boolean(BooleanSetting::ShowFpsCounter, true));
    assert_eq!(v[2].1, SettingType::Boolean(BooleanSetting::VSync, false));
    assert_eq!(v[3].1, SettingType::Integer(IntegerSetting::MusicVolume, 64));
    assert_eq!(v[4].1, SettingType::Integer(IntegerSetting::SoundEffectVolume, 100));
    assert_eq!(
        settings.game_controller_mappings(),
        &vec!["03000000100800000300000010010000,USB Gamepad , a:b2".to_string()]
    );
}

#[test]
fn lines_before_a_section_are_ignored() {
    let mut settings = default_settings();
    let errors = settings.load_from_text("VSync=false\nmapping\n");
    assert!(errors.is_empty());
    assert_eq!(values(&settings), values(&default_settings()));
    assert!(settings.game_controller_mappings().is_empty());
}

#[test]
fn setting_line_without_equals_is_invalid() {
    let mut settings = default_settings();
    let errors = settings.load_from_text("[Settings]\nVSync\n");
    assert_eq!(errors.len(), 1);
    match &errors[0] {
        SettingsLoadError::InvalidSetting(line) => assert_eq!(line, "VSync"),
        _ => panic!("wrong error"),
    }
}

#[test]
fn non_boolean_value_is_an_error() {
    let mut settings = default_settings();
    let errors = settings.load_from_text("[Settings]\nVSync=yes\n");
    assert_eq!(errors.len(), 1);
    match &errors[0] {
        SettingsLoadError::NotBooleanValue(value, name) => {
            assert_eq!(value, "yes");
            assert_eq!(name, "VSync");
        },
        _ => panic!("wrong error"),
    }
    assert_eq!(values(&settings)[2].1, SettingType::Boolean(BooleanSetting::VSync, true));
}

#[test]
fn non_integer_value_is_an_error() {
    let mut settings = default_settings();
    let errors = settings.load_from_text("[Settings]\nMusic volume=loud\nEffect volume=99999999999\n");
    assert_eq!(errors.len(), 2);
    match &errors[0] {
        SettingsLoadError::NotIntegerValue(value, name) => {
            assert_eq!(value, "loud");
            assert_eq!(name, "Music volume");
        },
        _ => panic!("wrong error"),
    }
    match &errors[1] {
        SettingsLoadError::NotIntegerValue(value, name) => {
            assert_eq!(value, "99999999999");
            assert_eq!(name, "Effect volume");
        },
        _ => panic!("wrong error"),
    }
}

#[test]
fn unknown_setting_name_is_skipped() {
    let mut settings = default_settings();
    let errors = settings.load_from_text("[Settings]\nBrightness=3\nVSync=false=true\n");
    assert!(errors.is_empty());
    assert_eq!(values(&settings)[2].1, SettingType::Boolean(BooleanSetting::VSync, false));
}

#[test]
fn text_helpers() {
    let chars = chars_of("  a b \t");
    assert_eq!(chars, vec![' ', ' ', 'a', ' ', 'b', ' ', '\t']);
    assert_eq!(trim_range(&chars, 0, chars.len()), (2, 5));
    assert_eq!(trim_range(&chars, 0, 2), (2, 2));
    assert!(range_equals(&chars, 2, 5, "a b"));
    assert!(!range_equals(&chars, 2, 5, "a c"));
    assert!(str_equals("--fps", "--fps"));
    assert!(!str_equals("--fps", "--fp"));
}

#[test]
fn integer_values_are_decimal_text() {
    let mut settings = default_settings();
    settings.update_setting(SettingType::Integer(IntegerSetting::MusicVolume, i32::MIN));
    settings.update_setting(SettingType::Integer(IntegerSetting::SoundEffectVolume, 0));
    let text = settings.settings_text();
    assert!(text.contains("Music volume=-2147483648\n"));
    assert!(text.contains("Effect volume=0\n"));

    let mut settings = default_settings();
    let errors = settings.load_from_text("[Settings]\nMusic volume=+42\nEffect volume=-0\n");
    assert!(errors.is_empty());
    assert_eq!(values(&settings)[3].1, SettingType::Integer(IntegerSetting::MusicVolume, 42));
    assert_eq!(values(&settings)[4].1, SettingType::Integer(IntegerSetting::SoundEffectVolume, 0));

    for bad in ["2147483648", "", "1 2", "--1", "+"] {
        let mut settings = default_settings();
        let errors = settings.load_from_text(&format!("[Settings]\nMusic volume={}\n", bad));
        assert_eq!(errors.len(), 1);
        assert_eq!(values(&settings)[3].1, SettingType::Integer(IntegerSetting::MusicVolume, 128));
    }
}

#[test]
fn malformed_line_changes_nothing_and_later_lines_apply() {
    let mut with_bad = default_settings();
    let errors = with_bad.load_from_text("[Settings]\nVSync=false\nFull screen=maybe\nFull screen\nFPS counter=true\n[GameControllerMappings]\nm\n");
    assert_eq!(errors.len(), 2);
    let mut without = default_settings();
    let errors = without.load_from_text("[Settings]\nVSync=false\nFPS counter=true\n[GameControllerMappings]\nm\n");
    assert!(errors.is_empty());
    assert_eq!(values(&with_bad), values(&without));
    assert_eq!(with_bad.game_controller_mappings(), without.game_controller_mappings());
}

#[test]
fn loading_settings_keeps_the_print_flags() {
    let mut settings = Settings::new(Arguments::parse(args(&["game", "--joystick-events"])).ok().unwrap());
    settings.load_from_text("[Settings]\nFPS counter=true\n");
    assert!(settings.print_joystick_events());
    assert!(!settings.print_fps_count());
}

#[test]
fn white_space_is_what_std_tells() {
    for u in 0..=0x10FFFFu32 {
        if let Some(c) = char::from_u32(u) {
            assert_eq!(char_is_whitespace(c), c.is_whitespace(), "{:x}", u);
        }
    }
}
