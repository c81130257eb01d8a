use vnkey::tone::ToneStyle;
use vnkey::{minimal_suffix_edit, Engine, EngineConfig, EngineResult, InputMethod};

fn create_engine(method: InputMethod, tone_style: ToneStyle) -> Engine {
    Engine::new(EngineConfig {
        method,
        tone_style,
        spelling_check: true,
    })
}

fn type_word(engine: &mut Engine, word: &str) -> String {
    let mut last_text = engine.get_buffer().to_string();
    for c in word.chars() {
        match engine.process_key(c) {
            EngineResult::Keep => {
                last_text.push(c);
            }
            EngineResult::Replace { backspaces, text } => {
                // Simulate backspaces and text replacement
                let current_len = last_text.chars().count();
                if backspaces <= current_len {
                    let keep_len = current_len - backspaces;
                    let mut temp: String = last_text.chars().take(keep_len).collect();
                    temp.push_str(&text);
                    last_text = temp;
                } else {
                    last_text = text;
                }
            }
            EngineResult::Reset => {
                last_text.push(c);
            }
        }
    }
    last_text
}

#[test]
fn test_minimal_suffix_edit() {
    let cases = [
        ("duong", "đường", 5, "đường"),
        ("dươ", "dườ", 1, "ờ"),
        ("tiếng", "tiếng", 0, ""),
        ("ab", "abc", 0, "c"),
        ("abc", "a", 2, ""),
    ];

    for (old, new, expected_backspaces, expected_text) in cases {
        assert_eq!(
            minimal_suffix_edit(old, new),
            (expected_backspaces, expected_text.to_string()),
            "old={old:?}, new={new:?}"
        );
    }
}

#[test]
fn test_engine_emits_minimal_suffix_replacement() {
    let mut engine = create_engine(InputMethod::Telex, ToneStyle::Modern);
    assert_eq!(engine.process_key('h'), EngineResult::Keep);
    assert_eq!(engine.process_key('o'), EngineResult::Keep);
    assert_eq!(engine.process_key('a'), EngineResult::Keep);
    assert_eq!(
        engine.process_key('f'),
        EngineResult::Replace {
            backspaces: 1,
            text: "à".to_string(),
        }
    );
}

#[test]
fn test_telex_basic() {
    let mut engine = create_engine(InputMethod::Telex, ToneStyle::Modern);

    assert_eq!(type_word(&mut engine, "tieesng"), "tiếng");
    engine.reset();

    assert_eq!(type_word(&mut engine, "vietjet"), "vietjet");
}

#[test]
fn test_modern_vs_classic_tone() {
    // Modern style: "hoà" (tone on main vowel 'a')
    let mut engine_modern = create_engine(InputMethod::Telex, ToneStyle::Modern);
    assert_eq!(type_word(&mut engine_modern, "hoaf"), "hoà");

    // Classic style: "hòa" (tone on 'o')
    let mut engine_classic = create_engine(InputMethod::Telex, ToneStyle::Classic);
    assert_eq!(type_word(&mut engine_classic, "hoaf"), "hòa");
}

#[test]
fn test_telex_complex() {
    let mut engine = create_engine(InputMethod::Telex, ToneStyle::Modern);

    assert_eq!(type_word(&mut engine, "dduwowngf"), "đường");
    engine.reset();
    assert_eq!(type_word(&mut engine, "thuyeets"), "thuyết");
    engine.reset();
    assert_eq!(type_word(&mut engine, "ooj"), "ộ");
    engine.reset();
    assert_eq!(type_word(&mut engine, "nooij"), "nội");
    engine.reset();
    assert_eq!(type_word(&mut engine, "ngaaux"), "ngẫu");
    engine.reset();
    assert_eq!(type_word(&mut engine, "gox"), "gõ");
    engine.reset();
    assert_eq!(type_word(&mut engine, "gif"), "gì");
    engine.reset();
    assert_eq!(type_word(&mut engine, "chuaw"), "chưa");
    engine.reset();
    assert_eq!(type_word(&mut engine, "duoiws"), "dưới");
    engine.reset();
    assert_eq!(type_word(&mut engine, "cuar"), "của");
    engine.reset();
    assert_eq!(type_word(&mut engine, "tuis"), "túi");
    engine.reset();
    assert_eq!(type_word(&mut engine, "vaanx"), "vẫn");
    engine.reset();
    assert_eq!(type_word(&mut engine, "raats"), "rất");
    engine.reset();
    assert_eq!(type_word(&mut engine, "teess"), "tês");
    engine.reset();
    assert_eq!(type_word(&mut engine, "tess"), "tes");
    engine.reset();
    assert_eq!(type_word(&mut engine, "cass"), "cas");
    engine.reset();
    assert_eq!(type_word(&mut engine, "eee"), "ee");
    engine.reset();
    assert_eq!(type_word(&mut engine, "ooo"), "oo");
    engine.reset();
    assert_eq!(type_word(&mut engine, "aaa"), "aa");
    engine.reset();
    assert_eq!(type_word(&mut engine, "uww"), "uw");
    engine.reset();
    assert_eq!(type_word(&mut engine, "ddd"), "dd");
    engine.reset();

    // Free tone/accent placement tests
    assert_eq!(type_word(&mut engine, "hoajwc"), "hoặc");
    engine.reset();
    assert_eq!(type_word(&mut engine, "hoawcj"), "hoặc");
    engine.reset();
    assert_eq!(type_word(&mut engine, "ruouwj"), "rượu");
}

#[test]
fn test_telex_recovery_scenarios() {
    let mut engine = create_engine(InputMethod::Telex, ToneStyle::Modern);

    // 1. Tone Escape / Toggle-off on base vowel
    assert_eq!(type_word(&mut engine, "cas"), "cá");
    assert_eq!(type_word(&mut engine, "s"), "cas");
    
    // 2. Tone Escape / Toggle-off on modified vowel
    engine.reset();
    assert_eq!(type_word(&mut engine, "cawts"), "cắt");
    assert_eq!(type_word(&mut engine, "s"), "căts");
    
    // 3. Modifier Escape / Toggle-off for initials
    engine.reset();
    assert_eq!(type_word(&mut engine, "dduwowngf"), "đường");
    assert_eq!(type_word(&mut engine, "d"), "dườngd");
    
    // 4. Modifier Escape / Toggle-off for double/triple vowels
    engine.reset();
    assert_eq!(type_word(&mut engine, "chuaw"), "chưa");
    assert_eq!(type_word(&mut engine, "w"), "chuaw");
    
    engine.reset();
    assert_eq!(type_word(&mut engine, "mowis"), "mới");
    assert_eq!(type_word(&mut engine, "w"), "móiw");

    engine.reset();
    assert_eq!(type_word(&mut engine, "toio"), "tôi");
    engine.reset();
    assert_eq!(type_word(&mut engine, "vajya"), "vậy");
    engine.reset();
    assert_eq!(type_word(&mut engine, "vanaw"), "văn");
    engine.reset();
    assert_eq!(type_word(&mut engine, "dduwocj"), "được");
    engine.reset();
    assert_eq!(type_word(&mut engine, "truongwf"), "trường");
    engine.reset();
    assert_eq!(type_word(&mut engine, "thuonwf"), "thườn");
    engine.reset();
    assert_eq!(type_word(&mut engine, "thuongwf"), "thường");
    engine.reset();
    assert_eq!(type_word(&mut engine, "huongwr"), "hưởng");
    engine.reset();
    assert_eq!(type_word(&mut engine, "viejec"), "việc");
    engine.reset();
    assert_eq!(type_word(&mut engine, "giram"), "giảm");
    engine.reset();
    assert_eq!(type_word(&mut engine, "nuoost"), "nuốt");
    engine.reset();
    assert_eq!(type_word(&mut engine, "buoofn"), "buồn");
    engine.reset();
    assert_eq!(type_word(&mut engine, "burrnout"), "burnout");
    engine.reset();
    assert_eq!(type_word(&mut engine, "casse"), "case");
    engine.reset();
    assert_eq!(type_word(&mut engine, "freee"), "free");
    engine.reset();
    assert_eq!(type_word(&mut engine, "booo"), "boo");
    engine.reset();
    assert_eq!(type_word(&mut engine, "ddd"), "dd");
    engine.reset();
    assert_eq!(type_word(&mut engine, "caaa"), "caa");
    engine.reset();
    assert_eq!(type_word(&mut engine, "gaff"), "gaf");
    engine.reset();
    assert_eq!(type_word(&mut engine, "raxx"), "rax");
    engine.reset();
    assert_eq!(type_word(&mut engine, "hajj"), "haj");
    engine.reset();
    assert_eq!(type_word(&mut engine, "hoaszz"), "hoaz");
    engine.reset();
    assert_eq!(type_word(&mut engine, "lieenquan"), "liênquan");
}

#[test]
fn test_vni_basic() {
    let mut engine = create_engine(InputMethod::Vni, ToneStyle::Modern);

    assert_eq!(type_word(&mut engine, "tie61ng"), "tiếng");
    engine.reset();
    assert_eq!(type_word(&mut engine, "d9u7o7ng2"), "đường");
    engine.reset();
    assert_eq!(type_word(&mut engine, "hoa58c"), "hoặc");
    engine.reset();
    assert_eq!(type_word(&mut engine, "ruou75"), "rượu");
}

#[test]
fn test_benchmark_performance() {
    let mut engine = create_engine(InputMethod::Telex, ToneStyle::Modern);
    let start = std::time::Instant::now();
    let iterations = 100_000;
    
    for _ in 0..iterations {
        engine.reset();
        let out = type_word(&mut engine, "thuyeets");
        assert_eq!(out, "thuyết");
    }
    
    let duration = start.elapsed();
    println!("Processed {} words in {:?}", iterations, duration);
    // 100k words in < 1 second is extremely optimized
    assert!(duration.as_secs() < 3);
}
