use vnkey::replacement::{delivered_by_accessibility, ReplacementCapabilityCache, ReplacementPolicy};
use vnkey::settings::{tray_action, TrayAction};
use vnkey::spelling::{find_vowel_info, vowel_variant, Casing, Syllable, Tone};
use vnkey::tone::{find_tone_position, ToneStyle};
use vnkey::tray::{tray_menu, MenuEntry};
use vnkey::{minimal_suffix_edit, Engine, EngineConfig, EngineResult, InputMethod};

fn telex_engine() -> Engine {
    Engine::new(EngineConfig {
        method: InputMethod::Telex,
        tone_style: ToneStyle::Modern,
        spelling_check: true,
    })
}

/// Applies an engine answer to the text a host shows.
fn apply(shown: &mut Vec<char>, result: &EngineResult, c: char) {
    match result {
        EngineResult::Keep | EngineResult::Reset => shown.push(c),
        EngineResult::Replace { backspaces, text } => {
            assert!(*backspaces <= shown.len());
            let keep = shown.len() - backspaces;
            shown.truncate(keep);
            shown.extend(text.chars());
        }
    }
}

#[test]
fn host_text_ends_with_engine_word_after_every_key() {
    for word in ["dduwowngf", "thuyeets", "hoajwc", "cass", "vietjet", "ruouwj"] {
        let mut engine = telex_engine();
        let mut shown: Vec<char> = Vec::new();
        for c in word.chars() {
            let before: Vec<char> = engine.get_buffer().chars().collect();
            assert!(shown.ends_with(&before));
            let r = engine.process_key(c);
            let prefix_len = shown.len() - before.len();
            let mut word_part: Vec<char> = shown[prefix_len..].to_vec();
            apply(&mut word_part, &r, c);
            shown.truncate(prefix_len);
            shown.extend(word_part);
            let after: Vec<char> = engine.get_buffer().chars().collect();
            assert!(shown.ends_with(&after), "word={word} c={c}");
        }
    }
}

#[test]
fn host_text_equals_word_for_whole_word() {
    let mut engine = telex_engine();
    let mut shown: Vec<char> = Vec::new();
    for c in "dduwowngf".chars() {
        let r = engine.process_key(c);
        apply(&mut shown, &r, c);
    }
    let s: String = shown.iter().collect();
    assert_eq!(s, "đường");
    assert_eq!(engine.get_buffer(), "đường");
}

#[test]
fn engine_off_keeps_every_key() {
    let mut engine = Engine::new(EngineConfig {
        method: InputMethod::Off,
        tone_style: ToneStyle::Modern,
        spelling_check: true,
    });
    for c in "aas ddf!".chars() {
        assert_eq!(engine.process_key(c), EngineResult::Keep);
        assert_eq!(engine.get_buffer(), "");
    }
}

#[test]
fn word_boundary_ends_the_word() {
    let mut engine = telex_engine();
    engine.process_key('v');
    engine.process_key('i');
    assert_eq!(engine.get_buffer(), "vi");
    let r = engine.process_key(' ');
    assert_eq!(r, EngineResult::Reset);
    assert_eq!(engine.get_buffer(), "");
    // the next word starts fresh
    assert_eq!(engine.process_key('a'), EngineResult::Keep);
    assert_eq!(engine.get_buffer(), "a");
}

#[test]
fn word_boundary_after_tone_restores_typed_keys_or_resets() {
    let mut engine = telex_engine();
    for c in "cas".chars() {
        engine.process_key(c);
    }
    assert_eq!(engine.get_buffer(), "cá");
    let r = engine.process_key(',');
    assert!(
        r == EngineResult::Reset
            || r == EngineResult::Replace {
                backspaces: 2,
                text: "cas,".to_string()
            }
    );
    assert_eq!(engine.get_buffer(), "");
}

#[test]
fn configuration_survives_typing() {
    let mut engine = Engine::new(EngineConfig {
        method: InputMethod::Telex,
        tone_style: ToneStyle::Classic,
        spelling_check: true,
    });
    for c in "hoaf hoaf".chars() {
        engine.process_key(c);
    }
    engine.reset();
    for c in "hoaf".chars() {
        engine.process_key(c);
    }
    assert_eq!(engine.get_buffer(), "hòa");
}

#[test]
fn suffix_edit_is_minimal_on_examples() {
    assert_eq!(minimal_suffix_edit("abc", "abd"), (1, "d".to_string()));
    assert_eq!(minimal_suffix_edit("", "xyz"), (0, "xyz".to_string()));
    assert_eq!(minimal_suffix_edit("xyz", ""), (3, "".to_string()));
    assert_eq!(minimal_suffix_edit("same", "same"), (0, "".to_string()));
    assert_eq!(minimal_suffix_edit("tieng", "tiếng"), (3, "ếng".to_string()));
    // applying the edit gives the new word
    let (bs, text) = minimal_suffix_edit("dươ", "đường");
    let old: Vec<char> = "dươ".chars().collect();
    let mut kept: String = old[..old.len() - bs].iter().collect();
    kept.push_str(&text);
    assert_eq!(kept, "đường");
}

#[test]
fn vowel_table_round_trips() {
    let tones = [Tone::Ngang, Tone::Sac, Tone::Huyen, Tone::Hoi, Tone::Nga, Tone::Nang];
    for b in ['a', 'ă', 'â', 'e', 'ê', 'i', 'o', 'ô', 'ơ', 'u', 'ư', 'y'] {
        for t in tones {
            let c = vowel_variant(b, t);
            assert_eq!(find_vowel_info(c), Some((b, t)), "b={b} t={t:?}");
        }
    }
    assert_eq!(vowel_variant('a', Tone::Sac), 'á');
    assert_eq!(vowel_variant('ư', Tone::Nang), 'ự');
    assert_eq!(find_vowel_info('Ế'), Some(('ê', Tone::Sac)));
    assert_eq!(find_vowel_info('b'), None);
}

#[test]
fn tone_styles_differ_only_on_open_shifting_pairs() {
    let oa: Vec<char> = "oa".chars().collect();
    let uo: Vec<char> = "uơ".chars().collect();
    let uye: Vec<char> = "uyê".chars().collect();
    let h: Vec<char> = vec!['h'];
    assert_eq!(find_tone_position(&oa, false, &h, ToneStyle::Modern), 1);
    assert_eq!(find_tone_position(&oa, false, &h, ToneStyle::Classic), 0);
    assert_eq!(find_tone_position(&oa, true, &h, ToneStyle::Modern), 1);
    assert_eq!(find_tone_position(&oa, true, &h, ToneStyle::Classic), 1);
    assert_eq!(
        find_tone_position(&uye, true, &h, ToneStyle::Modern),
        find_tone_position(&uye, true, &h, ToneStyle::Classic)
    );
    assert_eq!(
        find_tone_position(&uo, true, &h, ToneStyle::Modern),
        find_tone_position(&uo, true, &h, ToneStyle::Classic)
    );
}

#[test]
fn tray_menu_commands_match_check_marks() {
    for language in [0, 1] {
        for input_type in 0..4 {
            for code_table in 0..5 {
                let menu = tray_menu(true, language, input_type, code_table);
                let mut checked = 0;
                for entry in &menu {
                    let checks = match entry {
                        MenuEntry::Item { id, .. } => {
                            assert_ne!(tray_action(id), TrayAction::Ignore);
                            vec![]
                        }
                        MenuEntry::Check(c) => vec![c.clone()],
                        MenuEntry::Separator => vec![],
                        MenuEntry::Submenu { items, .. } => items.clone(),
                    };
                    for c in checks {
                        let action = tray_action(&c.id);
                        let current = match action {
                            TrayAction::ToggleLanguage => language == 1,
                            TrayAction::InputType(k) => k == input_type,
                            TrayAction::CodeTable(k) => k == code_table,
                            other => panic!("unexpected {other:?}"),
                        };
                        assert_eq!(c.checked, current, "id={}", c.id);
                        if c.checked {
                            checked += 1;
                        }
                    }
                }
                assert_eq!(checked, 2 + if language == 1 { 1 } else { 0 });
            }
        }
    }
}

#[test]
fn tray_menu_without_permission_asks_for_it() {
    let menu = tray_menu(false, 1, 0, 0);
    assert_eq!(menu.len(), 3);
    assert_eq!(
        menu[0],
        MenuEntry::Item {
            id: "request_accessibility".to_string(),
            label: "Cấp quyền truy cập Trợ năng...".to_string()
        }
    );
    assert_eq!(menu[1], MenuEntry::Separator);
    assert_eq!(tray_action("request_accessibility"), TrayAction::RequestAccessibility);
}

#[test]
fn tray_menu_layout() {
    let menu = tray_menu(true, 1, 1, 3);
    assert_eq!(menu.len(), 17);
    match &menu[2] {
        MenuEntry::Submenu { label, items } => {
            assert_eq!(label, "Kiểu gõ");
            let labels: Vec<&str> = items.iter().map(|i| i.label.as_str()).collect();
            assert_eq!(labels, ["Telex", "VNI", "Simple Telex 1", "Simple Telex 2"]);
            assert!(items[1].checked && !items[0].checked);
        }
        other => panic!("unexpected {other:?}"),
    }
    match &menu[7] {
        MenuEntry::Submenu { label, items } => {
            assert_eq!(label, "Bảng mã khác");
            assert_eq!(items[0].id, "code_table_3");
            assert!(items[0].checked);
        }
        other => panic!("unexpected {other:?}"),
    }
    assert_eq!(
        menu[16],
        MenuEntry::Item {
            id: "quit".to_string(),
            label: "Thoát".to_string()
        }
    );
}

#[test]
fn foreign_words_keep_their_letters() {
    for word in ["vietjet", "zalo"] {
        let mut engine = telex_engine();
        let mut shown: Vec<char> = Vec::new();
        for c in word.chars() {
            let r = engine.process_key(c);
            apply(&mut shown, &r, c);
        }
        let s: String = shown.iter().collect();
        assert_eq!(s, word);
    }
}

#[test]
fn cache_remembers_failures_for_the_active_app_only() {
    let mut cache = ReplacementCapabilityCache::new(2);
    cache.mark_unsupported("app.one", "AXTextArea");
    assert!(cache.is_unsupported("app.one", "AXTextArea"));
    assert!(!ReplacementPolicy::should_try_accessibility(
        &cache,
        "app.one",
        Some("AXTextArea"),
        false
    ));
    cache.invalidate_for_app("app.two");
    assert!(!cache.is_unsupported("app.one", "AXTextArea"));
    assert_eq!(cache.len(), 0);
    cache.mark_unsupported("app.two", "r1");
    cache.mark_unsupported("app.two", "r2");
    cache.mark_unsupported("app.two", "r3");
    assert_eq!(cache.len(), 2);
    assert!(!cache.is_unsupported("app.two", "r1"));
    assert!(cache.is_unsupported("app.two", "r3"));
    let mut empty = ReplacementCapabilityCache::new(0);
    empty.mark_unsupported("a", "b");
    assert_eq!(empty.len(), 0);
}

#[test]
fn accessibility_delivery_decision() {
    assert!(delivered_by_accessibility(true, true));
    assert!(!delivered_by_accessibility(true, false));
    assert!(!delivered_by_accessibility(false, true));
    assert!(!delivered_by_accessibility(false, false));
}

#[test]
fn boundary_key_is_not_lost() {
    let mut engine = telex_engine();
    engine.process_key('d');
    engine.process_key('d');
    assert_eq!(engine.get_buffer(), "đ");
    assert_eq!(
        engine.process_key(' '),
        EngineResult::Replace {
            backspaces: 1,
            text: "dd ".to_string()
        }
    );
    assert_eq!(engine.get_buffer(), "");
}

#[test]
fn rendered_syllables_parse_back() {
    let words = [
        "tiếng", "hòa", "hoà", "giàu", "gìn", "gịa", "quyển", "thuơng", "mưoi", "nghiêng",
        "đường", "a", "uý", "khuya", "Trường",
    ];
    for w in words {
        let Some(syl) = Syllable::parse(w) else { continue };
        for style in [ToneStyle::Modern, ToneStyle::Classic] {
            let s1 = syl.to_string(style, Casing::Lowercase);
            let again = Syllable::parse(&s1).expect("rendered text parses");
            assert_eq!(again.tone, syl.tone, "word={w}");
            assert_eq!(again.to_string(style, Casing::Lowercase), s1, "word={w}");
        }
    }
}
