//! Settings of the VNKey control panels and the decisions the panels take
//! on them: engine configuration, tray toggles, macro input and tray menu
//! commands.
use vstd::prelude::*;

use crate::text::{
    chars_eq, slice_chars, spec_is_ascii_digit, spec_trim, str_chars, str_eq, string_from_chars,
    trim_chars,
};
use crate::tone::ToneStyle;
use crate::{EngineConfig, InputMethod};

verus! {

// ---------------------------------------------------------------------------
// Settings of the Rust-engine control panel.
// ---------------------------------------------------------------------------

/// Settings of the control panel that drives the Rust engine.
#[derive(Debug, Clone)]
pub struct AppSettings {
    /// `"Off"`, `"Telex"` or `"Vni"`.
    pub method: String,
    /// `"Modern"` or `"Classic"`.
    pub tone_style: String,
    pub spelling_check: bool,
}

/// The input method a setting names: `Telex`, `Vni`, anything else off.
pub open spec fn method_named(name: Seq<char>) -> InputMethod {
    if name == "Telex"@ {
        InputMethod::Telex
    } else if name == "Vni"@ {
        InputMethod::Vni
    } else {
        InputMethod::Off
    }
}

/// The tone style a setting names: `Classic`, anything else modern.
pub open spec fn tone_style_named(name: Seq<char>) -> ToneStyle {
    if name == "Classic"@ {
        ToneStyle::Classic
    } else {
        ToneStyle::Modern
    }
}

/// The engine configuration of the settings.
pub open spec fn spec_config_of(s: AppSettings) -> EngineConfig {
    EngineConfig {
        method: method_named(s.method@),
        tone_style: tone_style_named(s.tone_style@),
        spelling_check: s.spelling_check,
    }
}

/// The engine configuration the settings ask for.
pub fn engine_config_from_settings(settings: &AppSettings) -> (r: EngineConfig)
    ensures
        r == spec_config_of(*settings),
{
    let method = if str_eq(settings.method.as_str(), "Telex") {
        InputMethod::Telex
    } else if str_eq(settings.method.as_str(), "Vni") {
        InputMethod::Vni
    } else {
        InputMethod::Off
    };
    let tone_style = if str_eq(settings.tone_style.as_str(), "Classic") {
        ToneStyle::Classic
    } else {
        ToneStyle::Modern
    };
    EngineConfig { method, tone_style, spelling_check: settings.spelling_check }
}

/// A setting names its input method: `"Telex"` gives Telex, `"Vni"` gives
/// VNI, and anything else leaves the engine off; the tone style is classic
/// exactly for `"Classic"`.  Toggling from the tray turns an engine that is
/// off on (with Telex) and one that is on off.
pub proof fn lemma_settings_name_the_engine(s: AppSettings, method: Seq<char>)
    ensures
        (spec_config_of(s).method == InputMethod::Telex) == (s.method@ == "Telex"@),
        (spec_config_of(s).method == InputMethod::Vni) == (s.method@ == "Vni"@),
        (spec_config_of(s).method == InputMethod::Off) == (s.method@ != "Telex"@ && s.method@
            != "Vni"@),
        (spec_config_of(s).tone_style == ToneStyle::Classic) == (s.tone_style@ == "Classic"@),
        spec_config_of(s).spelling_check == s.spelling_check,
        method_named(
            if method == "Off"@ {
                "Telex"@
            } else {
                "Off"@
            },
        ) == (if method == "Off"@ {
            InputMethod::Telex
        } else {
            InputMethod::Off
        }),
{
    reveal_strlit("Telex");
    reveal_strlit("Vni");
    reveal_strlit("Off");
    assert("Telex"@.len() == 5 && "Vni"@.len() == 3 && "Off"@.len() == 3);
    assert("Vni"@[0] == 'V' && "Off"@[0] == 'O');
    assert("Telex"@ != "Vni"@ && "Telex"@ != "Off"@ && "Vni"@ != "Off"@);
}

/// The engine configuration while the system keyboard layout is (or is
/// not) English: the settings' one, or the engine off (modern style,
/// spelling check on) under any other layout.
pub open spec fn spec_config_for_layout(s: AppSettings, is_english_layout: bool) -> EngineConfig {
    if is_english_layout {
        spec_config_of(s)
    } else {
        EngineConfig {
            method: InputMethod::Off,
            tone_style: ToneStyle::Modern,
            spelling_check: true,
        }
    }
}

pub fn engine_config_for_layout(settings: &AppSettings, is_english_layout: bool) -> (r:
    EngineConfig)
    ensures
        r == spec_config_for_layout(*settings, is_english_layout),
{
    if is_english_layout {
        engine_config_from_settings(settings)
    } else {
        EngineConfig { method: InputMethod::Off, tone_style: ToneStyle::Modern, spelling_check: true }
    }
}

/// Vietnamese typing is active when the system layout is English and the
/// method is not `"Off"`.
pub fn is_vietnamese_active(settings: &AppSettings, is_english_layout: bool) -> (r: bool)
    ensures
        r == (is_english_layout && settings.method@ != "Off"@),
{
    is_english_layout && !str_eq(settings.method.as_str(), "Off")
}

/// The method after the tray toggle: `"Off"` turns into `"Telex"`, any
/// other method into `"Off"`.
pub fn toggled_method(method: &str) -> (r: String)
    ensures
        r@ == (if method@ == "Off"@ {
            "Telex"@
        } else {
            "Off"@
        }),
{
    if str_eq(method, "Off") {
        String::from_str("Telex")
    } else {
        String::from_str("Off")
    }
}

// ---------------------------------------------------------------------------
// Settings of the control panel of the native engine.
// ---------------------------------------------------------------------------

/// Settings of the control panel that drives the native engine.
#[derive(Debug, Clone, Copy)]
pub struct Settings {
    pub language: i32,
    pub input_type: i32,
    pub free_mark: i32,
    pub code_table: i32,
    pub switch_key_status: i32,
    pub check_spelling: i32,
    pub use_modern_orthography: i32,
    pub quick_telex: i32,
    pub restore_if_wrong_spelling: i32,
    pub use_english_dictionary: i32,
    pub fix_recommend_browser: i32,
    pub use_macro: i32,
    pub use_macro_in_english_mode: i32,
    pub auto_caps_macro: i32,
    pub use_smart_switch_key: i32,
    pub upper_case_first_char: i32,
    pub temp_off_spelling: i32,
    pub allow_consonant_zfwj: i32,
    pub quick_start_consonant: i32,
    pub quick_end_consonant: i32,
    pub remember_code: i32,
    pub other_language: i32,
    pub temp_off_vnkey: i32,
    pub send_key_step_by_step: i32,
    pub fix_chromium_browser: i32,
    pub perform_layout_compat: i32,
    pub gray_icon: i32,
    pub convert_tool_dont_alert: i32,
    pub convert_tool_to_all_caps: i32,
    pub convert_tool_to_all_non_caps: i32,
    pub convert_tool_to_caps_first_letter: i32,
    pub convert_tool_to_caps_each_word: i32,
    pub convert_tool_remove_mark: i32,
    pub convert_tool_from_code: i32,
    pub convert_tool_to_code: i32,
    pub convert_tool_hotkey: i32,
}

/// Command + Shift + Space, the default switch key on macOS.
pub const MACOS_SWITCH_KEY: i32 = 0x20000C31i32;

/// Control + Shift + Space, the default switch key elsewhere.
pub const OTHER_SWITCH_KEY: i32 = 0x20000920i32;

/// The code of "no hotkey" (`0xFE0000FE` read as an `i32`).
pub const EMPTY_HOTKEY: i32 = -33554178i32;

/// The default switch key of the platform.
pub fn default_switch_key(is_macos: bool) -> (r: i32)
    ensures
        r == (if is_macos {
            MACOS_SWITCH_KEY
        } else {
            OTHER_SWITCH_KEY
        }),
{
    if is_macos {
        MACOS_SWITCH_KEY
    } else {
        OTHER_SWITCH_KEY
    }
}

/// A switch key of `0` means "not set" and stands for the default.
pub fn switch_key_or_default(switch_key: i32, default_key: i32) -> (r: i32)
    ensures
        r == (if switch_key == 0 {
            default_key
        } else {
            switch_key
        }),
{
    if switch_key == 0 {
        default_key
    } else {
        switch_key
    }
}

/// A converter hotkey of `0` means "not set" and stands for no hotkey.
pub fn convert_hotkey_or_empty(hotkey: i32) -> (r: i32)
    ensures
        r == (if hotkey == 0 {
            EMPTY_HOTKEY
        } else {
            hotkey
        }),
{
    if hotkey == 0 {
        EMPTY_HOTKEY
    } else {
        hotkey
    }
}

/// The settings with an unset switch key replaced by the default.
pub fn with_switch_key_default(settings: Settings, default_key: i32) -> (r: Settings)
    ensures
        r == (Settings {
            switch_key_status: if settings.switch_key_status == 0 {
                default_key
            } else {
                settings.switch_key_status
            },
            ..settings
        }),
{
    Settings {
        switch_key_status: switch_key_or_default(settings.switch_key_status, default_key),
        ..settings
    }
}

/// The language after the tray toggle: Vietnamese (`1`) turns into English
/// (`0`), anything else into Vietnamese.
pub fn toggled_language(language: i32) -> (r: i32)
    ensures
        r == (if language == 1 {
            0i32
        } else {
            1i32
        }),
{
    if language == 1 {
        0
    } else {
        1
    }
}

// ---------------------------------------------------------------------------
// Macros.
// ---------------------------------------------------------------------------

/// A text macro: typing `shortcut` inserts `content`.
#[derive(Debug, Clone)]
pub struct MacroEntry {
    pub shortcut: String,
    pub content: String,
}

/// Why a macro cannot be saved.
#[derive(Debug, Clone, Copy, PartialEq, Eq, Structural)]
pub enum MacroInputError {
    /// The shortcut is empty once trimmed.
    EmptyShortcut,
    /// The replacement text is empty.
    EmptyContent,
}

impl MacroInputError {
    /// The message the control panel shows for the error.
    pub fn message(&self) -> (r: String)
        ensures
            r@ == match self {
                MacroInputError::EmptyShortcut => "Từ gõ tắt không được để trống."@,
                MacroInputError::EmptyContent => "Nội dung thay thế không được để trống."@,
            },
    {
        match self {
            MacroInputError::EmptyShortcut => "Từ gõ tắt không được để trống.".to_string(),
            MacroInputError::EmptyContent => "Nội dung thay thế không được để trống.".to_string(),
        }
    }
}

/// The macro to save: the shortcut trimmed, unless it is then empty or the
/// content is empty.
pub open spec fn spec_macro_input(shortcut: Seq<char>, content: Seq<char>) -> Result<
    Seq<char>,
    MacroInputError,
> {
    if spec_trim(shortcut).len() == 0 {
        Err(MacroInputError::EmptyShortcut)
    } else if content.len() == 0 {
        Err(MacroInputError::EmptyContent)
    } else {
        Ok(spec_trim(shortcut))
    }
}

/// Checks the fields of a macro before it is saved; returns the shortcut
/// to save.
pub fn macro_input(shortcut: &str, content: &str) -> (r: Result<String, MacroInputError>)
    ensures
        match r {
            Ok(s) => spec_macro_input(shortcut@, content@) == Ok::<Seq<char>, MacroInputError>(s@),
            Err(e) => spec_macro_input(shortcut@, content@) == Err::<Seq<char>, MacroInputError>(e),
        },
{
    let s = str_chars(shortcut);
    let t = trim_chars(&s);
    if t.len() == 0 {
        return Err(MacroInputError::EmptyShortcut);
    }
    let c = str_chars(content);
    if c.len() == 0 {
        return Err(MacroInputError::EmptyContent);
    }
    Ok(string_from_chars(&t))
}


// ---------------------------------------------------------------------------
// Tray menu commands.
// ---------------------------------------------------------------------------

/// Value of an ASCII digit.
pub open spec fn digit_value(c: char) -> int {
    (c as int) - ('0' as int)
}

/// Every character of `s` is an ASCII digit.
pub open spec fn all_ascii_digits(s: Seq<char>) -> bool {
    forall|i: int| 0 <= i < s.len() ==> spec_is_ascii_digit(#[trigger] s[i])
}

/// The number the decimal digits `s` denote.
pub open spec fn decimal_value(s: Seq<char>) -> int
    decreases s.len(),
{
    if s.len() == 0 {
        0
    } else {
        decimal_value(s.drop_last()) * 10 + digit_value(s.last())
    }
}

/// `i32::from_str`: an optional `+` or `-`, then one or more ASCII digits
/// whose value fits in an `i32`.
pub open spec fn spec_parse_i32(s: Seq<char>) -> Option<i32> {
    let neg = s.len() > 0 && s[0] == '-';
    let d = if s.len() > 0 && (s[0] == '-' || s[0] == '+') {
        s.skip(1)
    } else {
        s
    };
    if d.len() == 0 || !all_ascii_digits(d) {
        None
    } else {
        let v = if neg {
            -decimal_value(d)
        } else {
            decimal_value(d)
        };
        if i32::MIN <= v <= i32::MAX {
            Some(v as i32)
        } else {
            None
        }
    }
}

proof fn lemma_decimal_value_grows(s: Seq<char>, k: int)
    requires
        0 <= k <= s.len(),
        all_ascii_digits(s),
    ensures
        0 <= decimal_value(s.take(k)) <= decimal_value(s),
    decreases s.len(),
{
    if s.len() == 0 {
        assert(s.take(k) =~= s);
    } else if k == s.len() {
        assert(s.take(k) =~= s);
        lemma_decimal_value_grows(s.drop_last(), 0);
        assert(s.drop_last().take(0) =~= s.take(0));
    } else {
        assert(all_ascii_digits(s.drop_last()));
        lemma_decimal_value_grows(s.drop_last(), k);
        assert(s.drop_last().take(k) =~= s.take(k));
    }
}

/// Parses a decimal `i32` as `str::parse::<i32>` does.
pub fn parse_i32(s: &[char]) -> (r: Option<i32>)
    ensures
        r == spec_parse_i32(s@),
{
    let neg = s.len() > 0 && s[0] == '-';
    let start: usize = if s.len() > 0 && (s[0] == '-' || s[0] == '+') {
        1
    } else {
        0
    };
    let ghost d = s@.skip(start as int);
    assert(s@.skip(0) =~= s@);
    assert(d == (if s@.len() > 0 && (s@[0] == '-' || s@[0] == '+') {
        s@.skip(1)
    } else {
        s@
    }));
    if start >= s.len() {
        return None;
    }
    let mut v: i64 = 0;
    let mut i: usize = start;
    while i < s.len()
        invariant
            start <= i <= s.len(),
            d == s@.skip(start as int),
            d == (if s@.len() > 0 && (s@[0] == '-' || s@[0] == '+') {
                s@.skip(1)
            } else {
                s@
            }),
            neg == (s@.len() > 0 && s@[0] == '-'),
            all_ascii_digits(d.take(i - start)),
            v == decimal_value(d.take(i - start)),
            0 <= v <= 0x80000000,
        decreases s.len() - i,
    {
        let c = s[i];
        if !('0' <= c && c <= '9') {
            assert(d[i - start] == c);
            assert(!spec_is_ascii_digit(d[i - start]));
            return None;
        }
        let dv: i64 = (c as u32 - '0' as u32) as i64;
        proof {
            let t = d.take(i - start + 1);
            assert(t.drop_last() =~= d.take(i - start));
            assert(t.last() == c);
            assert forall|j: int| 0 <= j < t.len() implies spec_is_ascii_digit(#[trigger] t[j]) by {
                if j < i - start {
                    assert(t[j] == d.take(i - start)[j]);
                }
            }
        }
        v = v * 10 + dv;
        i = i + 1;
        if v > 0x80000000 {
            proof {
                let t = d.take(i - start);
                if all_ascii_digits(d) {
                    lemma_decimal_value_grows(d, i - start);
                    assert(decimal_value(d) > 0x80000000);
                }
            }
            return None;
        }
    }
    assert(d.take(i - start) =~= d);
    if neg {
        Some((0 - v) as i32)
    } else if v <= 0x7fffffff {
        Some(v as i32)
    } else {
        None
    }
}

/// What a tray menu entry asks for.
#[derive(Debug, Clone, Copy, PartialEq, Eq, Structural)]
pub enum TrayAction {
    RequestAccessibility,
    ToggleLanguage,
    /// Show the control panel on the given tab.
    ShowTab(u8),
    QuickConvert,
    Quit,
    /// Switch to the input type with this index.
    InputType(i32),
    /// Switch to the code table with this index.
    CodeTable(i32),
    /// No command.
    Ignore,
}

/// `s` with every leading occurrence of `p` removed (`trim_start_matches`).
pub open spec fn strip_leading(s: Seq<char>, p: Seq<char>) -> Seq<char>
    decreases s.len(),
{
    if p.len() > 0 && p.is_prefix_of(s) {
        strip_leading(s.skip(p.len() as int), p)
    } else {
        s
    }
}

/// The command of a tray menu entry, by its id.
pub open spec fn spec_tray_action(id: Seq<char>) -> TrayAction {
    if id == "request_accessibility"@ {
        TrayAction::RequestAccessibility
    } else if id == "toggle_language"@ {
        TrayAction::ToggleLanguage
    } else if id == "control_panel"@ {
        TrayAction::ShowTab(0)
    } else if id == "macro_settings"@ {
        TrayAction::ShowTab(1)
    } else if id == "convert_tool"@ {
        TrayAction::ShowTab(2)
    } else if id == "about"@ {
        TrayAction::ShowTab(4)
    } else if id == "quick_convert"@ {
        TrayAction::QuickConvert
    } else if id == "quit"@ {
        TrayAction::Quit
    } else if "input_type_"@.is_prefix_of(id) {
        match spec_parse_i32(strip_leading(id, "input_type_"@)) {
            Some(n) => TrayAction::InputType(n),
            None => TrayAction::Ignore,
        }
    } else if "code_table_"@.is_prefix_of(id) {
        match spec_parse_i32(strip_leading(id, "code_table_"@)) {
            Some(n) => TrayAction::CodeTable(n),
            None => TrayAction::Ignore,
        }
    } else {
        TrayAction::Ignore
    }
}

fn is_prefix_chars(p: &[char], s: &[char]) -> (r: bool)
    ensures
        r == p@.is_prefix_of(s@),
{
    if p.len() > s.len() {
        return false;
    }
    let head = slice_chars(s, 0, p.len());
    chars_eq(p, &head)
}

fn strip_leading_chars(s: &[char], p: &[char]) -> (r: Vec<char>)
    ensures
        r@ == strip_leading(s@, p@),
{
    let mut i: usize = 0;
    if p.len() == 0 {
        let r = slice_chars(s, 0, s.len());
        assert(r@ =~= s@);
        return r;
    }
    assert(s@.skip(0) =~= s@);
    loop
        invariant_except_break
            0 <= i <= s.len(),
            p.len() > 0,
            strip_leading(s@.skip(i as int), p@) == strip_leading(s@, p@),
        ensures
            0 <= i <= s.len(),
            strip_leading(s@.skip(i as int), p@) == strip_leading(s@, p@),
            !p@.is_prefix_of(s@.skip(i as int)),
        decreases s.len() - i,
    {
        let rest = slice_chars(s, i, s.len());
        assert(rest@ =~= s@.skip(i as int));
        if !is_prefix_chars(p, &rest) {
            break ;
        }
        assert(s@.skip(i as int).skip(p.len() as int) =~= s@.skip(i + p.len()));
        i = i + p.len();
    }
    let r = slice_chars(s, i, s.len());
    assert(r@ =~= s@.skip(i as int));
    r
}

/// The command of a tray menu entry, by its id.
pub fn tray_action(id: &str) -> (r: TrayAction)
    ensures
        r == spec_tray_action(id@),
{
    if str_eq(id, "request_accessibility") {
        return TrayAction::RequestAccessibility;
    }
    if str_eq(id, "toggle_language") {
        return TrayAction::ToggleLanguage;
    }
    if str_eq(id, "control_panel") {
        return TrayAction::ShowTab(0);
    }
    if str_eq(id, "macro_settings") {
        return TrayAction::ShowTab(1);
    }
    if str_eq(id, "convert_tool") {
        return TrayAction::ShowTab(2);
    }
    if str_eq(id, "about") {
        return TrayAction::ShowTab(4);
    }
    if str_eq(id, "quick_convert") {
        return TrayAction::QuickConvert;
    }
    if str_eq(id, "quit") {
        return TrayAction::Quit;
    }
    let v = str_chars(id);
    let it = str_chars("input_type_");
    if is_prefix_chars(&it, &v) {
        let rest = strip_leading_chars(&v, &it);
        return match parse_i32(&rest) {
            Some(n) => TrayAction::InputType(n),
            None => TrayAction::Ignore,
        };
    }
    let ct = str_chars("code_table_");
    if is_prefix_chars(&ct, &v) {
        let rest = strip_leading_chars(&v, &ct);
        return match parse_i32(&rest) {
            Some(n) => TrayAction::CodeTable(n),
            None => TrayAction::Ignore,
        };
    }
    TrayAction::Ignore
}

} // verus!
