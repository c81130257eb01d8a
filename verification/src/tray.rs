//! The tray menu: which entries it offers, under which ids and labels, and
//! which of them carry a check mark for the current settings.
use vstd::prelude::*;

use crate::settings::{spec_tray_action, TrayAction};

verus! {

/// An entry that can carry a check mark.
#[derive(Debug, Clone, PartialEq, Eq)]
pub struct CheckItem {
    pub id: String,
    pub label: String,
    pub checked: bool,
}

/// One entry of the tray menu.
#[derive(Debug, Clone, PartialEq, Eq)]
pub enum MenuEntry {
    /// A plain command.
    Item { id: String, label: String },
    /// A command with a check mark.
    Check(CheckItem),
    /// A separator line.
    Separator,
    /// A submenu of entries with check marks.
    Submenu { label: String, items: Vec<CheckItem> },
}

/// Model of `CheckItem`.
pub struct CheckView {
    pub id: Seq<char>,
    pub label: Seq<char>,
    pub checked: bool,
}

/// Model of `MenuEntry`.
pub enum EntryView {
    Item(Seq<char>, Seq<char>),
    Check(CheckView),
    Separator,
    Submenu(Seq<char>, Seq<CheckView>),
}

impl View for CheckItem {
    type V = CheckView;

    open spec fn view(&self) -> CheckView {
        CheckView { id: self.id@, label: self.label@, checked: self.checked }
    }
}

/// The models of a list of check items.
pub open spec fn checks_view(v: Seq<CheckItem>) -> Seq<CheckView> {
    v.map_values(|c: CheckItem| c@)
}

impl View for MenuEntry {
    type V = EntryView;

    open spec fn view(&self) -> EntryView {
        match self {
            MenuEntry::Item { id, label } => EntryView::Item(id@, label@),
            MenuEntry::Check(c) => EntryView::Check(c@),
            MenuEntry::Separator => EntryView::Separator,
            MenuEntry::Submenu { label, items } => EntryView::Submenu(label@, checks_view(items@)),
        }
    }
}

/// The models of a list of menu entries.
pub open spec fn entries_view(v: Seq<MenuEntry>) -> Seq<EntryView> {
    v.map_values(|e: MenuEntry| e@)
}

/// A check entry of the model.
pub open spec fn ck(id: Seq<char>, label: Seq<char>, checked: bool) -> CheckView {
    CheckView { id, label, checked }
}

/// The entries of the input-type submenu.
pub open spec fn spec_input_type_items(input_type: i32) -> Seq<CheckView> {
    seq![
        ck("input_type_0"@, "Telex"@, input_type == 0),
        ck("input_type_1"@, "VNI"@, input_type == 1),
        ck("input_type_2"@, "Simple Telex 1"@, input_type == 2),
        ck("input_type_3"@, "Simple Telex 2"@, input_type == 3),
    ]
}

/// The entries of the submenu of further code tables.
pub open spec fn spec_other_code_items(code_table: i32) -> Seq<CheckView> {
    seq![
        ck("code_table_3"@, "Unicode tổ hợp"@, code_table == 3),
        ck("code_table_4"@, "Vietnamese Locale CP1258"@, code_table == 4),
    ]
}

/// The tray menu.  Without the accessibility permission it offers only to
/// ask for it and to quit; with it, the language toggle (checked when the
/// language is Vietnamese, 1), the input types, the code tables (each checked
/// when it is the current one), the conversion tools, the windows of the
/// control panel and quitting, with separators between the groups.
pub open spec fn spec_tray_menu(
    has_access: bool,
    language: i32,
    input_type: i32,
    code_table: i32,
) -> Seq<EntryView> {
    if !has_access {
        seq![
            EntryView::Item("request_accessibility"@, "Cấp quyền truy cập Trợ năng..."@),
            EntryView::Separator,
            EntryView::Item("quit"@, "Thoát"@),
        ]
    } else {
        seq![
            EntryView::Check(ck("toggle_language"@, "Bật Tiếng Việt"@, language == 1)),
            EntryView::Separator,
            EntryView::Submenu("Kiểu gõ"@, spec_input_type_items(input_type)),
            EntryView::Separator,
            EntryView::Check(ck("code_table_0"@, "Unicode dựng sẵn"@, code_table == 0)),
            EntryView::Check(ck("code_table_1"@, "TCVN3 (ABC)"@, code_table == 1)),
            EntryView::Check(ck("code_table_2"@, "VNI Windows"@, code_table == 2)),
            EntryView::Submenu("Bảng mã khác"@, spec_other_code_items(code_table)),
            EntryView::Separator,
            EntryView::Item("convert_tool"@, "Công cụ chuyển mã..."@),
            EntryView::Item("quick_convert"@, "Chuyển mã nhanh"@),
            EntryView::Separator,
            EntryView::Item("control_panel"@, "Bảng điều khiển..."@),
            EntryView::Item("macro_settings"@, "Gõ tắt..."@),
            EntryView::Item("about"@, "Giới thiệu"@),
            EntryView::Separator,
            EntryView::Item("quit"@, "Thoát"@),
        ]
    }
}

fn item(id: &str, label: &str) -> (r: MenuEntry)
    ensures
        r@ == EntryView::Item(id@, label@),
{
    MenuEntry::Item { id: id.to_string(), label: label.to_string() }
}

fn check(id: &str, label: &str, checked: bool) -> (r: CheckItem)
    ensures
        r@ == ck(id@, label@, checked),
{
    CheckItem { id: id.to_string(), label: label.to_string(), checked }
}

fn input_type_items(input_type: i32) -> (r: Vec<CheckItem>)
    ensures
        checks_view(r@) == spec_input_type_items(input_type),
{
    let mut v: Vec<CheckItem> = Vec::new();
    v.push(check("input_type_0", "Telex", input_type == 0));
    v.push(check("input_type_1", "VNI", input_type == 1));
    v.push(check("input_type_2", "Simple Telex 1", input_type == 2));
    v.push(check("input_type_3", "Simple Telex 2", input_type == 3));
    assert(checks_view(v@) =~= spec_input_type_items(input_type));
    v
}

fn other_code_items(code_table: i32) -> (r: Vec<CheckItem>)
    ensures
        checks_view(r@) == spec_other_code_items(code_table),
{
    let mut v: Vec<CheckItem> = Vec::new();
    v.push(check("code_table_3", "Unicode tổ hợp", code_table == 3));
    v.push(check("code_table_4", "Vietnamese Locale CP1258", code_table == 4));
    assert(checks_view(v@) =~= spec_other_code_items(code_table));
    v
}

/// The tray menu for the given permission and settings (see
/// `spec_tray_menu`).
pub fn tray_menu(has_access: bool, language: i32, input_type: i32, code_table: i32) -> (r: Vec<
    MenuEntry,
>)
    ensures
        entries_view(r@) == spec_tray_menu(has_access, language, input_type, code_table),
{
    let mut v: Vec<MenuEntry> = Vec::new();
    if !has_access {
        v.push(item("request_accessibility", "Cấp quyền truy cập Trợ năng..."));
        v.push(MenuEntry::Separator);
        v.push(item("quit", "Thoát"));
        assert(entries_view(v@) =~= spec_tray_menu(has_access, language, input_type, code_table));
        return v;
    }
    v.push(MenuEntry::Check(check("toggle_language", "Bật Tiếng Việt", language == 1)));
    v.push(MenuEntry::Separator);
    v.push(MenuEntry::Submenu { label: "Kiểu gõ".to_string(), items: input_type_items(input_type) });
    v.push(MenuEntry::Separator);
    v.push(MenuEntry::Check(check("code_table_0", "Unicode dựng sẵn", code_table == 0)));
    v.push(MenuEntry::Check(check("code_table_1", "TCVN3 (ABC)", code_table == 1)));
    v.push(MenuEntry::Check(check("code_table_2", "VNI Windows", code_table == 2)));
    v.push(MenuEntry::Submenu { label: "Bảng mã khác".to_string(), items: other_code_items(code_table) });
    v.push(MenuEntry::Separator);
    v.push(item("convert_tool", "Công cụ chuyển mã..."));
    v.push(item("quick_convert", "Chuyển mã nhanh"));
    v.push(MenuEntry::Separator);
    v.push(item("control_panel", "Bảng điều khiển..."));
    v.push(item("macro_settings", "Gõ tắt..."));
    v.push(item("about", "Giới thiệu"));
    v.push(MenuEntry::Separator);
    v.push(item("quit", "Thoát"));
    assert(entries_view(v@) =~= spec_tray_menu(has_access, language, input_type, code_table));
    v
}

// ---------------------------------------------------------------------------
// The menu and its commands.
// ---------------------------------------------------------------------------

/// The check mark of an entry shows exactly whether the command it sends
/// selects what is current: Vietnamese for the language toggle, the current
/// input type, the current code table.
pub open spec fn marks_current(c: CheckView, language: i32, input_type: i32, code_table: i32) -> bool {
    c.checked == match spec_tray_action(c.id) {
        TrayAction::ToggleLanguage => language == 1,
        TrayAction::InputType(k) => k == input_type,
        TrayAction::CodeTable(k) => k == code_table,
        _ => false,
    }
}

/// A check entry sends a command and is marked exactly when that command
/// selects what is current.
pub open spec fn check_entry_ok(c: CheckView, language: i32, input_type: i32, code_table: i32) -> bool {
    &&& !(spec_tray_action(c.id) is Ignore)
    &&& marks_current(c, language, input_type, code_table)
}

/// Every command of a menu entry is one the menu handler acts on, and every
/// check mark matches the current settings.
pub open spec fn entry_ok(e: EntryView, language: i32, input_type: i32, code_table: i32) -> bool {
    match e {
        EntryView::Item(id, _) => !(spec_tray_action(id) is Ignore),
        EntryView::Check(c) => check_entry_ok(c, language, input_type, code_table),
        EntryView::Separator => true,
        EntryView::Submenu(_, items) => forall|j: int|
            0 <= j < items.len() ==> check_entry_ok(
                #[trigger] items[j],
                language,
                input_type,
                code_table,
            ),
    }
}

proof fn lemma_name_facts()
    ensures
        "request_accessibility"@.len() == 21,
        "toggle_language"@.len() == 15,
        "control_panel"@.len() == 13,
        "macro_settings"@.len() == 14,
        "convert_tool"@.len() == 12,
        "about"@.len() == 5,
        "quick_convert"@.len() == 13,
        "quit"@.len() == 4,
        "control_panel"@[0] == 'c',
        "quick_convert"@[0] == 'q',
        "convert_tool"@[0] == 'c',
        "convert_tool"@[2] == 'n',
{
    reveal_strlit("request_accessibility");
    reveal_strlit("toggle_language");
    reveal_strlit("control_panel");
    reveal_strlit("macro_settings");
    reveal_strlit("convert_tool");
    reveal_strlit("about");
    reveal_strlit("quick_convert");
    reveal_strlit("quit");
}

proof fn lemma_number_ids()
    ensures
        spec_tray_action("input_type_0"@) == TrayAction::InputType(0),
        spec_tray_action("input_type_1"@) == TrayAction::InputType(1),
        spec_tray_action("input_type_2"@) == TrayAction::InputType(2),
        spec_tray_action("input_type_3"@) == TrayAction::InputType(3),
        spec_tray_action("code_table_0"@) == TrayAction::CodeTable(0),
        spec_tray_action("code_table_1"@) == TrayAction::CodeTable(1),
        spec_tray_action("code_table_2"@) == TrayAction::CodeTable(2),
        spec_tray_action("code_table_3"@) == TrayAction::CodeTable(3),
        spec_tray_action("code_table_4"@) == TrayAction::CodeTable(4),
{
    lemma_name_facts();
    reveal_strlit("input_type_");
    reveal_strlit("code_table_");
    reveal_strlit("input_type_0");
    reveal_strlit("input_type_1");
    reveal_strlit("input_type_2");
    reveal_strlit("input_type_3");
    reveal_strlit("code_table_0");
    reveal_strlit("code_table_1");
    reveal_strlit("code_table_2");
    reveal_strlit("code_table_3");
    reveal_strlit("code_table_4");
    assert("input_type_0"@ =~= "input_type_"@.push('0'));
    assert("input_type_1"@ =~= "input_type_"@.push('1'));
    assert("input_type_2"@ =~= "input_type_"@.push('2'));
    assert("input_type_3"@ =~= "input_type_"@.push('3'));
    assert("code_table_0"@ =~= "code_table_"@.push('0'));
    assert("code_table_1"@ =~= "code_table_"@.push('1'));
    assert("code_table_2"@ =~= "code_table_"@.push('2'));
    assert("code_table_3"@ =~= "code_table_"@.push('3'));
    assert("code_table_4"@ =~= "code_table_"@.push('4'));
    lemma_number_id("input_type_0"@, "input_type_"@, '0');
    lemma_number_id("input_type_1"@, "input_type_"@, '1');
    lemma_number_id("input_type_2"@, "input_type_"@, '2');
    lemma_number_id("input_type_3"@, "input_type_"@, '3');
    lemma_number_id("code_table_0"@, "code_table_"@, '0');
    lemma_number_id("code_table_1"@, "code_table_"@, '1');
    lemma_number_id("code_table_2"@, "code_table_"@, '2');
    lemma_number_id("code_table_3"@, "code_table_"@, '3');
    lemma_number_id("code_table_4"@, "code_table_"@, '4');
}

proof fn lemma_number_id(id: Seq<char>, p: Seq<char>, d: char)
    requires
        p.len() == 11,
        id == p.push(d),
        '0' <= d <= '9',
        p[0] != '0' && p[0] != '1' && p[0] != '2' && p[0] != '3' && p[0] != '4',
    ensures
        p.is_prefix_of(id),
        crate::settings::strip_leading(id, p) == seq![d],
        crate::settings::spec_parse_i32(seq![d]) == Some((d as int - '0' as int) as i32),
{
    assert(id.take(11) =~= p);
    assert(id.skip(11) =~= seq![d]);
    assert(!p.is_prefix_of(seq![d]));
    assert(crate::settings::strip_leading(seq![d], p) == seq![d]);
    assert(crate::settings::all_ascii_digits(seq![d]));
    assert(seq![d].drop_last() =~= Seq::<char>::empty());
    assert(crate::settings::decimal_value(Seq::<char>::empty()) == 0);
    assert(crate::settings::decimal_value(seq![d]) == crate::settings::decimal_value(
        Seq::<char>::empty(),
    ) * 10 + crate::settings::digit_value(d));
}

proof fn lemma_plain_ids()
    ensures
        spec_tray_action("request_accessibility"@) == TrayAction::RequestAccessibility,
        spec_tray_action("toggle_language"@) == TrayAction::ToggleLanguage,
        spec_tray_action("control_panel"@) == TrayAction::ShowTab(0),
        spec_tray_action("macro_settings"@) == TrayAction::ShowTab(1),
        spec_tray_action("convert_tool"@) == TrayAction::ShowTab(2),
        spec_tray_action("about"@) == TrayAction::ShowTab(4),
        spec_tray_action("quick_convert"@) == TrayAction::QuickConvert,
        spec_tray_action("quit"@) == TrayAction::Quit,
{
    lemma_name_facts();
    assert("control_panel"@ != "quick_convert"@);
}

/// Every entry of the tray menu sends a command that the menu handler
/// (`tray_action`) acts on, and the check marks sit exactly on the entries
/// whose commands select the current language, input type and code table.
pub proof fn lemma_tray_menu_commands(
    has_access: bool,
    language: i32,
    input_type: i32,
    code_table: i32,
)
    ensures
        forall|i: int|
            0 <= i < spec_tray_menu(has_access, language, input_type, code_table).len()
                ==> entry_ok(
                #[trigger] spec_tray_menu(has_access, language, input_type, code_table)[i],
                language,
                input_type,
                code_table,
            ),
{
    lemma_plain_ids();
    lemma_number_ids();
    let m = spec_tray_menu(has_access, language, input_type, code_table);
    let it = spec_input_type_items(input_type);
    let ct = spec_other_code_items(code_table);
    assert forall|j: int| 0 <= j < it.len() implies check_entry_ok(
        #[trigger] it[j],
        language,
        input_type,
        code_table,
    ) by {}
    assert forall|j: int| 0 <= j < ct.len() implies check_entry_ok(
        #[trigger] ct[j],
        language,
        input_type,
        code_table,
    ) by {}
    assert forall|i: int| 0 <= i < m.len() implies entry_ok(
        #[trigger] m[i],
        language,
        input_type,
        code_table,
    ) by {}
}

} // verus!
