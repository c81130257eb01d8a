use vnkey::hook::{
    char_to_keycode, has_shift, key_for_keycode, key_to_char, keycode_to_char, mac_key_down,
    tap_key_down, windows_key_down, HookAction, Key, KeyEvent, KeyboardState,
};
use vnkey::replacement::{
    accessibility_selection, electron_marker_paths, is_english_ime, is_spotlight_or_electron_app,
    is_spotlight_or_electron_bundle,
    is_vietnamese_input_source, replacement_range, CFRange,
};
use vnkey::settings::{
    convert_hotkey_or_empty, default_switch_key, engine_config_for_layout,
    engine_config_from_settings, is_vietnamese_active, macro_input, switch_key_or_default,
    toggled_language, toggled_method, tray_action, AppSettings, MacroInputError, TrayAction,
    EMPTY_HOTKEY, MACOS_SWITCH_KEY, OTHER_SWITCH_KEY,
};
use vnkey::spelling::{is_valid_vowel_group, Casing, Syllable, Tone};
use vnkey::telex::process_telex;
use vnkey::tone::ToneStyle;
use vnkey::vni::process_vni;
use vnkey::{Engine, EngineConfig, InputMethod};

fn telex_config() -> EngineConfig {
    EngineConfig {
        method: InputMethod::Telex,
        tone_style: ToneStyle::Modern,
        spelling_check: true,
    }
}

#[test]
fn keys_type_letters_and_digits() {
    assert_eq!(key_to_char(Key::KeyA, false), Some('a'));
    assert_eq!(key_to_char(Key::KeyA, true), Some('A'));
    assert_eq!(key_to_char(Key::Num1, false), Some('1'));
    assert_eq!(key_to_char(Key::Num1, true), None);
    assert_eq!(key_to_char(Key::Space, false), None);
    assert_eq!(keycode_to_char(0, false), Some('a'));
    assert_eq!(keycode_to_char(0, true), Some('A'));
    assert_eq!(keycode_to_char(29, false), Some('0'));
    assert_eq!(keycode_to_char(49, false), None);
    assert_eq!(key_for_keycode(1), Some(Key::KeyS));
    assert_eq!(key_for_keycode(200), None);
}

#[test]
fn characters_map_to_macos_keycodes() {
    assert_eq!(char_to_keycode('a'), 0);
    assert_eq!(char_to_keycode('Ấ'), 0);
    assert_eq!(char_to_keycode('ế'), 14);
    assert_eq!(char_to_keycode('Đ'), 2);
    assert_eq!(char_to_keycode('ự'), 32);
    assert_eq!(char_to_keycode('1'), 0);
    assert!(has_shift(0x0002_0000));
    assert!(has_shift(0x0012_0100));
    assert!(!has_shift(0x0010_0000));
}

#[test]
fn keyboard_state_tracks_shift_and_words() {
    let mut state = KeyboardState::new(telex_config());
    assert_eq!(state.handle_event(KeyEvent::Press(Key::KeyA)), HookAction::Pass);
    assert_eq!(
        state.handle_event(KeyEvent::Press(Key::KeyA)),
        HookAction::Replace {
            backspaces: 1,
            text: "â".to_string()
        }
    );
    assert_eq!(state.engine.get_buffer(), "â");
    assert_eq!(state.handle_event(KeyEvent::Press(Key::Space)), HookAction::Pass);
    assert_eq!(state.engine.get_buffer(), "");
    assert_eq!(state.handle_event(KeyEvent::Press(Key::ShiftLeft)), HookAction::Pass);
    assert!(state.shift_pressed);
    assert_eq!(state.handle_event(KeyEvent::Press(Key::KeyD)), HookAction::Pass);
    assert_eq!(state.handle_event(KeyEvent::Release(Key::ShiftLeft)), HookAction::Pass);
    assert!(!state.shift_pressed);
    assert_eq!(
        state.handle_event(KeyEvent::Press(Key::KeyD)),
        HookAction::Replace {
            backspaces: 1,
            text: "Đ".to_string()
        }
    );
    assert_eq!(state.handle_event(KeyEvent::Other), HookAction::Pass);
    assert_eq!(state.engine.get_buffer(), "Đ");
}

#[test]
fn mac_hook_resets_on_modifiers_and_editing_keys() {
    let mut engine = Engine::new(telex_config());
    assert_eq!(mac_key_down(&mut engine, false, 0, false), HookAction::Pass);
    assert_eq!(engine.get_buffer(), "a");
    assert_eq!(mac_key_down(&mut engine, true, 0, false), HookAction::Pass);
    assert_eq!(engine.get_buffer(), "");
    mac_key_down(&mut engine, false, 0, false);
    assert_eq!(mac_key_down(&mut engine, false, 51, false), HookAction::Pass);
    assert_eq!(engine.get_buffer(), "");
}

#[test]
fn panel_tap_only_acts_under_english_layout() {
    let mut engine = Engine::new(telex_config());
    assert_eq!(tap_key_down(&mut engine, 0, 0, false, false), HookAction::Pass);
    assert_eq!(engine.get_buffer(), "");
    assert_eq!(tap_key_down(&mut engine, 0, 0, false, true), HookAction::Pass);
    assert_eq!(
        tap_key_down(&mut engine, 0, 1, false, true),
        HookAction::Replace {
            backspaces: 1,
            text: "á".to_string()
        }
    );
    // Command held ends the word
    assert_eq!(tap_key_down(&mut engine, 0x0010_0000, 0, false, true), HookAction::Pass);
    assert_eq!(engine.get_buffer(), "");
    // a key that is no letter or digit ends the word
    tap_key_down(&mut engine, 0, 0, false, true);
    assert_eq!(tap_key_down(&mut engine, 0, 49, false, true), HookAction::Pass);
    assert_eq!(engine.get_buffer(), "");
}

#[test]
fn windows_hook_virtual_keys() {
    let mut engine = Engine::new(telex_config());
    assert_eq!(windows_key_down(&mut engine, true, false, false, 0x41), HookAction::Pass);
    assert_eq!(engine.get_buffer(), "A");
    // shifted digit passes and leaves the word alone
    assert_eq!(windows_key_down(&mut engine, true, false, false, 0x31), HookAction::Pass);
    assert_eq!(engine.get_buffer(), "A");
    assert_eq!(
        windows_key_down(&mut engine, false, false, false, 0x53),
        HookAction::Replace {
            backspaces: 1,
            text: "Á".to_string()
        }
    );
    // an arrow key ends the word
    assert_eq!(windows_key_down(&mut engine, false, false, false, 0x25), HookAction::Pass);
    assert_eq!(engine.get_buffer(), "");
    windows_key_down(&mut engine, false, false, false, 0x41);
    assert_eq!(windows_key_down(&mut engine, false, true, false, 0x41), HookAction::Pass);
    assert_eq!(engine.get_buffer(), "");
}

#[test]
fn replacement_range_reaches_back_over_backspaces() {
    let r = replacement_range(CFRange { location: 5, length: 2 }, 3);
    assert_eq!((r.location, r.length), (2, 5));
    let r = replacement_range(CFRange { location: 1, length: 0 }, 3);
    assert_eq!((r.location, r.length), (0, 1));
    let r = replacement_range(CFRange { location: 4, length: 0 }, 0);
    assert_eq!((r.location, r.length), (4, 0));
}

#[test]
fn spotlight_and_electron_detection() {
    assert!(is_spotlight_or_electron_bundle("com.apple.Spotlight"));
    assert!(is_spotlight_or_electron_bundle("com.microsoft.VSCode.helper"));
    assert!(is_spotlight_or_electron_bundle("md.obsidian"));
    assert!(!is_spotlight_or_electron_bundle("com.apple.TextEdit"));
    assert!(!is_spotlight_or_electron_bundle("com.apple.Spotlight2"));
    assert!(is_spotlight_or_electron_app(Some("com.hnc.Discord"), false));
    assert!(is_spotlight_or_electron_app(Some("com.apple.TextEdit"), true));
    assert!(is_spotlight_or_electron_app(None, true));
    assert!(!is_spotlight_or_electron_app(None, false));
    assert_eq!(
        electron_marker_paths("/Applications/Slack.app"),
        vec![
            "/Applications/Slack.app/Contents/Frameworks/Electron Framework.framework".to_string(),
            "/Applications/Slack.app/Contents/Resources/app.asar".to_string(),
        ]
    );
    assert_eq!(
        electron_marker_paths("/Applications/Slack.app/")[1],
        "/Applications/Slack.app/Contents/Resources/app.asar"
    );
}

#[test]
fn vietnamese_input_sources() {
    assert!(is_vietnamese_input_source("com.apple.inputmethod.VietnameseIM.VietnameseSimpleTelex"));
    assert!(is_vietnamese_input_source("com.example.VNI"));
    assert!(is_vietnamese_input_source("org.TELEX.x"));
    assert!(!is_vietnamese_input_source("com.apple.keylayout.US"));
}

#[test]
fn settings_choose_the_engine_configuration() {
    let s = AppSettings {
        method: "Vni".to_string(),
        tone_style: "Classic".to_string(),
        spelling_check: false,
    };
    let c = engine_config_from_settings(&s);
    assert_eq!(c.method, InputMethod::Vni);
    assert_eq!(c.tone_style, ToneStyle::Classic);
    assert!(!c.spelling_check);
    let off = engine_config_for_layout(&s, false);
    assert_eq!(off.method, InputMethod::Off);
    assert_eq!(off.tone_style, ToneStyle::Modern);
    assert!(off.spelling_check);
    assert_eq!(engine_config_for_layout(&s, true).method, InputMethod::Vni);
    assert!(is_vietnamese_active(&s, true));
    assert!(!is_vietnamese_active(&s, false));
    let unknown = AppSettings {
        method: "telex".to_string(),
        tone_style: "Modern".to_string(),
        spelling_check: true,
    };
    assert_eq!(engine_config_from_settings(&unknown).method, InputMethod::Off);
    assert_eq!(toggled_method("Off"), "Telex");
    assert_eq!(toggled_method("Vni"), "Off");
}

#[test]
fn switch_keys_and_hotkeys() {
    assert_eq!(default_switch_key(true), MACOS_SWITCH_KEY);
    assert_eq!(default_switch_key(false), OTHER_SWITCH_KEY);
    assert_eq!(MACOS_SWITCH_KEY, 0x20000C31);
    assert_eq!(OTHER_SWITCH_KEY, 0x20000920);
    assert_eq!(switch_key_or_default(0, 7), 7);
    assert_eq!(switch_key_or_default(5, 7), 5);
    assert_eq!(convert_hotkey_or_empty(0), EMPTY_HOTKEY);
    assert_eq!(EMPTY_HOTKEY as u32, 0xFE0000FE);
    assert_eq!(convert_hotkey_or_empty(12), 12);
    assert_eq!(toggled_language(1), 0);
    assert_eq!(toggled_language(0), 1);
    assert_eq!(toggled_language(7), 1);
}

#[test]
fn macro_input_errors_and_trimming() {
    assert_eq!(macro_input("  vn  ", "Việt Nam"), Ok("vn".to_string()));
    assert_eq!(macro_input(" \t ", "x"), Err(MacroInputError::EmptyShortcut));
    assert_eq!(macro_input("", ""), Err(MacroInputError::EmptyShortcut));
    assert_eq!(macro_input("ab", ""), Err(MacroInputError::EmptyContent));
    assert_eq!(macro_input("\u{3000}x\u{3000}", " "), Ok("x".to_string()));
    assert_eq!(MacroInputError::EmptyShortcut.message(), "Từ gõ tắt không được để trống.");
    assert_eq!(MacroInputError::EmptyContent.message(), "Nội dung thay thế không được để trống.");
}

#[test]
fn tray_commands_by_id() {
    assert_eq!(tray_action("toggle_language"), TrayAction::ToggleLanguage);
    assert_eq!(tray_action("control_panel"), TrayAction::ShowTab(0));
    assert_eq!(tray_action("macro_settings"), TrayAction::ShowTab(1));
    assert_eq!(tray_action("convert_tool"), TrayAction::ShowTab(2));
    assert_eq!(tray_action("about"), TrayAction::ShowTab(4));
    assert_eq!(tray_action("quick_convert"), TrayAction::QuickConvert);
    assert_eq!(tray_action("quit"), TrayAction::Quit);
    assert_eq!(tray_action("input_type_2"), TrayAction::InputType(2));
    assert_eq!(tray_action("input_type_-1"), TrayAction::InputType(-1));
    assert_eq!(tray_action("input_type_+12"), TrayAction::InputType(12));
    assert_eq!(tray_action("input_type_input_type_3"), TrayAction::InputType(3));
    assert_eq!(tray_action("code_table_4"), TrayAction::CodeTable(4));
    assert_eq!(tray_action("code_table_x"), TrayAction::Ignore);
    assert_eq!(tray_action("code_table_99999999999"), TrayAction::Ignore);
    assert_eq!(tray_action("input_type_"), TrayAction::Ignore);
    assert_eq!(tray_action("unknown"), TrayAction::Ignore);
}

#[test]
fn syllables_parse_and_render() {
    let s = Syllable::parse("nghiêng").unwrap();
    assert_eq!(s.initial, vec!['n', 'g', 'h']);
    assert_eq!(s.vowels, vec!['i', 'ê']);
    assert_eq!(s.final_consonant, vec!['n', 'g']);
    assert_eq!(s.tone, Tone::Ngang);
    let t = Syllable::parse("tiếng").unwrap();
    assert_eq!(t.tone, Tone::Sac);
    assert_eq!(t.to_string(ToneStyle::Modern, Casing::Uppercase), "TIẾNG");
    assert_eq!(t.to_string(ToneStyle::Modern, Casing::Capitalized), "Tiếng");
    assert_eq!(t.to_string(ToneStyle::Modern, Casing::Lowercase), "tiếng");
    let h = Syllable::parse("hòa").unwrap();
    assert_eq!(h.to_string(ToneStyle::Modern, Casing::Lowercase), "hoà");
    assert_eq!(h.to_string(ToneStyle::Classic, Casing::Lowercase), "hòa");
    assert!(Syllable::parse("xyz").is_none());
    assert!(Syllable::parse("").is_none());
    assert_eq!(Casing::detect("ĐƯỜNG"), Casing::Uppercase);
    assert_eq!(Casing::detect("Đường"), Casing::Capitalized);
    assert_eq!(Casing::detect("đường"), Casing::Lowercase);
    assert_eq!(Casing::detect(""), Casing::Lowercase);
    assert_eq!(Casing::detect("A1-B"), Casing::Uppercase);
    assert_eq!(Casing::detect("Ab1"), Casing::Capitalized);
    assert_eq!(Tone::Nang.to_char_offset(), 5);
}

#[test]
fn vowel_groups() {
    assert!(is_valid_vowel_group("uyê"));
    assert!(is_valid_vowel_group("ươ"));
    assert!(is_valid_vowel_group("a"));
    assert!(!is_valid_vowel_group("ae"));
    assert!(!is_valid_vowel_group(""));
}

#[test]
fn telex_and_vni_single_steps() {
    assert_eq!(
        process_telex("tie", "tiee", 'e', ToneStyle::Modern, true),
        Some("tiê".to_string())
    );
    assert_eq!(process_telex("", "", 's', ToneStyle::Modern, true), None);
    assert_eq!(process_vni("tie", '6', ToneStyle::Modern, true), Some("tiê".to_string()));
    assert_eq!(process_vni("a", '1', ToneStyle::Modern, true), Some("á".to_string()));
    assert_eq!(process_vni("b", '1', ToneStyle::Modern, true), None);
}

#[test]
fn english_input_source_detection() {
    assert!(is_english_ime(None));
    assert!(is_english_ime(Some("com.apple.keylayout.ABC")));
    assert!(!is_english_ime(Some("com.apple.inputmethod.VietnameseIM.VietnameseTelex")));
}

#[test]
fn injected_events_pass_untouched() {
    let mut state = KeyboardState::new(telex_config());
    assert_eq!(state.handle_hook_event(KeyEvent::Press(Key::KeyA), false), HookAction::Pass);
    assert_eq!(state.handle_hook_event(KeyEvent::Press(Key::KeyA), true), HookAction::Pass);
    assert_eq!(state.handle_hook_event(KeyEvent::Press(Key::ShiftLeft), true), HookAction::Pass);
    assert!(!state.shift_pressed);
    assert_eq!(state.engine.get_buffer(), "a");
    assert_eq!(
        state.handle_hook_event(KeyEvent::Press(Key::KeyA), false),
        HookAction::Replace {
            backspaces: 1,
            text: "â".to_string()
        }
    );
}

#[test]
fn accessibility_selection_refuses_invalid_ranges() {
    let r = accessibility_selection(CFRange { location: 5, length: 2 }, 3).unwrap();
    assert_eq!((r.location, r.length), (2, 5));
    let r = accessibility_selection(CFRange { location: 1, length: 0 }, 3).unwrap();
    assert_eq!((r.location, r.length), (0, 1));
    assert!(accessibility_selection(CFRange { location: -1, length: 0 }, 1).is_none());
    assert!(accessibility_selection(CFRange { location: 0, length: -2 }, 1).is_none());
    assert!(accessibility_selection(CFRange { location: 5, length: isize::MAX }, 3).is_none());
    let r = accessibility_selection(CFRange { location: isize::MAX, length: 1 }, 0).unwrap();
    assert_eq!((r.location, r.length), (isize::MAX, 1));
    let r = accessibility_selection(CFRange { location: 2, length: 0 }, usize::MAX).unwrap();
    assert_eq!((r.location, r.length), (0, 2));
}

#[test]
fn keycodes_round_trip_letters() {
    for c in 'a'..='z' {
        let k = char_to_keycode(c) as i64;
        assert_eq!(keycode_to_char(k, false), Some(c));
        assert_eq!(keycode_to_char(k, true), Some(c.to_ascii_uppercase()));
    }
    for n in 18..=29 {
        assert_eq!(keycode_to_char(n, true), None);
    }
}
