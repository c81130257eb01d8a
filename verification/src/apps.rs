//! Application records shared by the per-platform application lists: the
//! file name of an executable path, the record of one application, the JSON
//! text the settings window receives, and the icon encoding.
use vstd::prelude::*;

use base64::Engine;

use crate::text::{contains_seq, spec_str_lowercase, str_chars, str_lowercase, string_from_chars};

verus! {

// ---------------------------------------------------------------------------
// File names of paths.
// ---------------------------------------------------------------------------

/// How the components of a path are separated.
#[derive(Clone, Copy, PartialEq, Eq, Structural)]
pub enum PathStyle {
    /// Unix: `/`.
    Unix,
    /// Windows: `\` or `/`.
    Windows,
    /// A Windows path behind a verbatim prefix (`\\?\`): `\` only, and `.`
    /// is a component of its own.
    Verbatim,
}

/// Whether `c` separates the components of a path in the given style.
pub open spec fn is_sep(c: char, style: PathStyle) -> bool {
    match style {
        PathStyle::Unix => c == '/',
        PathStyle::Windows => c == '/' || c == '\\',
        PathStyle::Verbatim => c == '\\',
    }
}

fn is_sep_exec(c: char, style: PathStyle) -> (r: bool)
    ensures
        r == is_sep(c, style),
{
    match style {
        PathStyle::Unix => c == '/',
        PathStyle::Windows => c == '/' || c == '\\',
        PathStyle::Verbatim => c == '\\',
    }
}

/// The style of a path without a verbatim prefix.
pub open spec fn style_of(windows: bool) -> PathStyle {
    if windows {
        PathStyle::Windows
    } else {
        PathStyle::Unix
    }
}

/// Index of the last separator in `p`, or -1 when there is none.
pub open spec fn last_separator(p: Seq<char>, style: PathStyle) -> int
    decreases p.len(),
{
    if p.len() == 0 {
        -1
    } else if is_sep(p.last(), style) {
        p.len() - 1
    } else {
        last_separator(p.drop_last(), style)
    }
}

/// `last_separator` lies inside the path, or is -1.
pub proof fn lemma_last_separator_bounds(p: Seq<char>, style: PathStyle)
    ensures
        -1 <= last_separator(p, style) < p.len(),
        last_separator(p, style) >= 0 ==> is_sep(p[last_separator(p, style)], style),
    decreases p.len(),
{
    if p.len() > 0 && !is_sep(p.last(), style) {
        lemma_last_separator_bounds(p.drop_last(), style);
    }
}

/// The file name of a path in the given style (`Path::file_name`): the last
/// component, when it is a plain name.  Empty components are skipped, and so
/// is `.` except behind a verbatim prefix, where it is a component of its
/// own; there is none when no component is left, or when the last one is
/// `..` (or a verbatim `.`).
pub open spec fn spec_file_name_in(p: Seq<char>, style: PathStyle) -> Option<Seq<char>>
    decreases p.len(),
{
    let k = last_separator(p, style);
    let seg = p.subrange(k + 1, p.len() as int);
    if seg.len() == 0 || (seg == seq!['.'] && style != PathStyle::Verbatim) {
        if k < 0 {
            None
        } else {
            proof {
                lemma_last_separator_bounds(p, style);
            }
            spec_file_name_in(p.subrange(0, k), style)
        }
    } else if seg == seq!['.', '.'] || seg == seq!['.'] {
        None
    } else {
        Some(seg)
    }
}

/// The file name of a path: `/` separates on Unix, `\` or `/` on Windows.
pub open spec fn spec_file_name(p: Seq<char>, windows: bool) -> Option<Seq<char>> {
    spec_file_name_in(p, style_of(windows))
}

proof fn lemma_last_separator_step(p: Seq<char>, j: int, style: PathStyle)
    requires
        0 < j <= p.len(),
        !is_sep(p[j - 1], style),
    ensures
        last_separator(p.take(j), style) == last_separator(p.take(j - 1), style),
{
    assert(p.take(j).drop_last() =~= p.take(j - 1));
}

/// The file name of the path held in `p` (see `spec_file_name_in`).
pub fn file_name_in(p: &[char], style: PathStyle) -> (r: Option<Vec<char>>)
    ensures
        match r {
            Some(v) => spec_file_name_in(p@, style) == Some(v@),
            None => spec_file_name_in(p@, style) is None,
        },
{
    let mut end: usize = p.len();
    assert(p@.take(end as int) =~= p@);
    loop
        invariant
            end <= p.len(),
            spec_file_name_in(p@, style) == spec_file_name_in(p@.take(end as int), style),
        decreases end,
    {
        let mut j: usize = end;
        while j > 0 && !is_sep_exec(p[j - 1], style)
            invariant
                j <= end <= p.len(),
                last_separator(p@.take(end as int), style) == last_separator(
                    p@.take(j as int),
                    style,
                ),
                forall|i: int| j <= i < end ==> !is_sep(#[trigger] p@[i], style),
            decreases j,
        {
            proof {
                lemma_last_separator_step(p@, j as int, style);
            }
            j = j - 1;
        }
        let ghost q = p@.take(end as int);
        proof {
            if j > 0 {
                assert(p@.take(j as int).last() == p@[j - 1]);
            }
            assert(last_separator(q, style) == j - 1);
            assert(q.subrange(j as int, end as int) =~= p@.subrange(j as int, end as int));
        }
        let len = end - j;
        let is_dot = len == 1 && p[j] == '.';
        proof {
            if len == 1 {
                if is_dot {
                    assert(q.subrange(j as int, end as int) =~= seq!['.']);
                } else {
                    assert(q.subrange(j as int, end as int) != seq!['.']) by {
                        assert(q.subrange(j as int, end as int)[0] == p@[j as int]);
                    }
                }
            }
        }
        if len == 0 || (is_dot && style != PathStyle::Verbatim) {
            if j == 0 {
                return None;
            }
            proof {
                assert(q.subrange(0, j - 1) =~= p@.take(j - 1));
            }
            end = j - 1;
        } else if is_dot || (len == 2 && p[j] == '.' && p[j + 1] == '.') {
            proof {
                if len == 2 {
                    assert(q.subrange(j as int, end as int) =~= seq!['.', '.']);
                }
            }
            return None;
        } else {
            proof {
                if len == 2 {
                    assert(q.subrange(j as int, end as int) != seq!['.', '.']) by {
                        assert(q.subrange(j as int, end as int)[0] == p@[j as int]);
                        assert(q.subrange(j as int, end as int)[1] == p@[j + 1]);
                    }
                }
                if len != 1 {
                    assert(q.subrange(j as int, end as int).len() != 1);
                }
            }
            let mut seg: Vec<char> = Vec::new();
            let mut i: usize = j;
            while i < end
                invariant
                    j <= i <= end <= p.len(),
                    seg@ =~= p@.subrange(j as int, i as int),
                decreases end - i,
            {
                seg.push(p[i]);
                i = i + 1;
            }
            return Some(seg);
        }
    }
}

/// The file name of the path held in `p` (see `spec_file_name`).
pub fn file_name_chars(p: &[char], windows: bool) -> (r: Option<Vec<char>>)
    ensures
        match r {
            Some(v) => spec_file_name(p@, windows) == Some(v@),
            None => spec_file_name(p@, windows) is None,
        },
{
    file_name_in(p, if windows {
        PathStyle::Windows
    } else {
        PathStyle::Unix
    })
}

/// The file name of the path `p` as a string, if it has one.
pub fn file_name(p: &str, windows: bool) -> (r: Option<String>)
    ensures
        match r {
            Some(v) => spec_file_name(p@, windows) == Some(v@),
            None => spec_file_name(p@, windows) is None,
        },
{
    let c = str_chars(p);
    match file_name_chars(&c, windows) {
        Some(v) => Some(string_from_chars(&v)),
        None => None,
    }
}

// ---------------------------------------------------------------------------
// Outside calls: JSON string literals and base64.
// ---------------------------------------------------------------------------

/// A lowercase hexadecimal digit.
pub open spec fn hex_digit(n: int) -> char {
    if n < 10 {
        (('0' as int) + n) as char
    } else {
        (('a' as int) + n - 10) as char
    }
}

/// How `serde_json` writes one character inside a string literal: `"` and
/// `\` behind a backslash, backspace, tab, line feed, form feed and carriage
/// return as `\b`, `\t`, `\n`, `\f`, `\r`, other control characters below
/// U+0020 as `\u00` and two lowercase hex digits, anything else as it is.
pub open spec fn json_escape_char(c: char) -> Seq<char> {
    let n = c as int;
    if c == '"' {
        seq!['\\', '"']
    } else if c == '\\' {
        seq!['\\', '\\']
    } else if n == 0x08 {
        seq!['\\', 'b']
    } else if n == 0x09 {
        seq!['\\', 't']
    } else if n == 0x0A {
        seq!['\\', 'n']
    } else if n == 0x0C {
        seq!['\\', 'f']
    } else if n == 0x0D {
        seq!['\\', 'r']
    } else if n < 0x20 {
        seq!['\\', 'u', '0', '0', hex_digit(n / 16), hex_digit(n % 16)]
    } else {
        seq![c]
    }
}

/// The characters of `s`, each escaped as in a JSON string literal.
pub open spec fn json_escaped(s: Seq<char>) -> Seq<char>
    decreases s.len(),
{
    if s.len() == 0 {
        seq![]
    } else {
        json_escaped(s.drop_last()) + json_escape_char(s.last())
    }
}

/// The JSON string literal that `serde_json::to_string` writes for the text
/// `s`: the escaped text between double quotes.
pub open spec fn spec_json_string(s: Seq<char>) -> Seq<char> {
    seq!['"'] + json_escaped(s) + seq!['"']
}

/// The character of a 6-bit value in the standard base64 alphabet.
pub open spec fn base64_char(n: int) -> char {
    if n < 26 {
        (('A' as int) + n) as char
    } else if n < 52 {
        (('a' as int) + n - 26) as char
    } else if n < 62 {
        (('0' as int) + n - 52) as char
    } else if n == 62 {
        '+'
    } else {
        '/'
    }
}

/// The standard base64 encoding (RFC 4648, with padding) of `bytes`, as the
/// `STANDARD` engine of the base64 crate writes it: every three bytes give
/// four characters of six bits each; a last group of one or two bytes is
/// completed with `=`.
pub open spec fn spec_base64(bytes: Seq<u8>) -> Seq<char>
    decreases bytes.len(),
{
    if bytes.len() == 0 {
        seq![]
    } else if bytes.len() == 1 {
        let x = bytes[0] as int;
        seq![base64_char(x / 4), base64_char((x % 4) * 16), '=', '=']
    } else if bytes.len() == 2 {
        let x = bytes[0] as int;
        let y = bytes[1] as int;
        seq![base64_char(x / 4), base64_char((x % 4) * 16 + y / 16), base64_char((y % 16) * 4), '=']
    } else {
        let x = bytes[0] as int;
        let y = bytes[1] as int;
        let z = bytes[2] as int;
        seq![
            base64_char(x / 4),
            base64_char((x % 4) * 16 + y / 16),
            base64_char((y % 16) * 4 + z / 64),
            base64_char(z % 64),
        ] + spec_base64(bytes.skip(3))
    }
}

/// Calls `serde_json::to_string` on a string slice.  The contract claims the
/// result is the string literal written out in `spec_json_string(s@)`;
/// serialising a `str` into memory cannot fail, so the fallback is never
/// taken.
#[verifier::external_body]
fn json_string(s: &str) -> (r: String)
    ensures
        r@ == spec_json_string(s@),
{
    serde_json::to_string(s).unwrap_or_default()
}

/// Calls `Engine::encode` of `base64::engine::general_purpose::STANDARD`.
/// The contract claims the result is the encoding written out in
/// `spec_base64(bytes@)`.
#[verifier::external_body]
fn base64_standard(bytes: &[u8]) -> (r: String)
    ensures
        r@ == spec_base64(bytes@),
{
    base64::engine::general_purpose::STANDARD.encode(bytes)
}


// ---------------------------------------------------------------------------
// Application records and their JSON text.
// ---------------------------------------------------------------------------

/// One application as the settings window lists it.
#[derive(Debug, Clone, PartialEq, Eq)]
pub struct AppInfo {
    /// The identifier the exclusion list stores (an executable path or a
    /// window class).
    pub bundle_id: String,
    /// The name shown to the user.
    pub name: String,
    /// The icon, base64-encoded, or empty.
    pub icon: String,
}

/// Model of `AppInfo`.
pub struct AppRecord {
    pub bundle_id: Seq<char>,
    pub name: Seq<char>,
    pub icon: Seq<char>,
}

impl View for AppInfo {
    type V = AppRecord;

    open spec fn view(&self) -> AppRecord {
        AppRecord { bundle_id: self.bundle_id@, name: self.name@, icon: self.icon@ }
    }
}

/// The records of a list of applications.
pub open spec fn app_records(apps: Seq<AppInfo>) -> Seq<AppRecord> {
    apps.map_values(|a: AppInfo| a@)
}

/// The JSON object of one application, as `serde_json` writes an object with
/// the keys `bundle_id`, `name` and `icon`: compact, keys in sorted order.
pub open spec fn spec_app_info_json(a: AppRecord) -> Seq<char> {
    "{\"bundle_id\":"@ + spec_json_string(a.bundle_id) + ",\"icon\":"@ + spec_json_string(a.icon)
        + ",\"name\":"@ + spec_json_string(a.name) + "}"@
}

/// The objects of a list of applications, separated by commas.
pub open spec fn spec_joined_objects(apps: Seq<AppRecord>) -> Seq<char>
    decreases apps.len(),
{
    if apps.len() == 0 {
        seq![]
    } else if apps.len() == 1 {
        spec_app_info_json(apps[0])
    } else {
        spec_joined_objects(apps.drop_last()) + seq![','] + spec_app_info_json(apps.last())
    }
}

/// The JSON array of a list of applications.
pub open spec fn spec_app_list_json(apps: Seq<AppRecord>) -> Seq<char> {
    seq!['['] + spec_joined_objects(apps) + seq![']']
}

fn push_str(out: &mut Vec<char>, s: &str)
    ensures
        final(out)@ == old(out)@ + s@,
{
    let c = str_chars(s);
    crate::text::extend_chars(out, &c);
}

fn push_json_string(out: &mut Vec<char>, s: &str)
    ensures
        final(out)@ == old(out)@ + spec_json_string(s@),
{
    let q = json_string(s);
    push_str(out, q.as_str());
}

fn push_app_info_json(out: &mut Vec<char>, app: &AppInfo)
    ensures
        final(out)@ == old(out)@ + spec_app_info_json(app@),
{
    push_str(out, "{\"bundle_id\":");
    push_json_string(out, app.bundle_id.as_str());
    push_str(out, ",\"icon\":");
    push_json_string(out, app.icon.as_str());
    push_str(out, ",\"name\":");
    push_json_string(out, app.name.as_str());
    push_str(out, "}");
}

/// The JSON object of one application.
pub fn app_info_json(app: &AppInfo) -> (r: String)
    ensures
        r@ == spec_app_info_json(app@),
{
    let mut out: Vec<char> = Vec::new();
    push_app_info_json(&mut out, app);
    assert(out@ =~= spec_app_info_json(app@));
    string_from_chars(&out)
}

/// The JSON array of a list of applications.
pub fn app_list_json(apps: &[AppInfo]) -> (r: String)
    ensures
        r@ == spec_app_list_json(app_records(apps@)),
{
    let mut out: Vec<char> = vec!['['];
    let mut i: usize = 0;
    while i < apps.len()
        invariant
            i <= apps.len(),
            out@ == seq!['['] + spec_joined_objects(app_records(apps@.take(i as int))),
        decreases apps.len() - i,
    {
        let ghost before = out@;
        if i > 0 {
            out.push(',');
        }
        push_app_info_json(&mut out, &apps[i]);
        proof {
            let prev = app_records(apps@.take(i as int));
            let next = app_records(apps@.take(i + 1));
            assert(next.drop_last() =~= prev);
            assert(next.last() == apps@[i as int]@);
            if i == 0 {
                assert(prev =~= Seq::<AppRecord>::empty());
                assert(next.len() == 1);
                assert(next[0] == apps@[0]@);
            }
        }
        i = i + 1;
    }
    out.push(']');
    assert(apps@.take(apps.len() as int) =~= apps@);
    assert(out@ =~= spec_app_list_json(app_records(apps@)));
    string_from_chars(&out)
}

/// Whether some application of `apps` has the identifier `bundle_id`.
pub open spec fn has_bundle_id(apps: Seq<AppRecord>, bundle_id: Seq<char>) -> bool {
    exists|i: int| 0 <= i < apps.len() && (#[trigger] apps[i]).bundle_id == bundle_id
}

/// Whether `apps` already lists the identifier `bundle_id`.
pub fn lists_bundle_id(apps: &[AppInfo], bundle_id: &str) -> (r: bool)
    ensures
        r == has_bundle_id(app_records(apps@), bundle_id@),
{
    let mut i: usize = 0;
    while i < apps.len()
        invariant
            i <= apps.len(),
            forall|k: int| 0 <= k < i ==> (#[trigger] apps@[k]).bundle_id@ != bundle_id@,
        decreases apps.len() - i,
    {
        if crate::text::str_eq(apps[i].bundle_id.as_str(), bundle_id) {
            assert(app_records(apps@)[i as int].bundle_id == bundle_id@);
            return true;
        }
        i = i + 1;
    }
    assert forall|k: int| 0 <= k < app_records(apps@).len() implies (#[trigger] app_records(
        apps@,
    )[k]).bundle_id != bundle_id@ by {
        assert(apps@[k].bundle_id@ != bundle_id@);
    }
    false
}

/// Adds `app` to the list unless an application with the same identifier is
/// listed already; each identifier is listed once.
pub fn add_app_once(apps: &mut Vec<AppInfo>, app: AppInfo)
    ensures
        if has_bundle_id(app_records(old(apps)@), app@.bundle_id) {
            final(apps)@ == old(apps)@
        } else {
            final(apps)@ == old(apps)@.push(app)
        },
{
    if !lists_bundle_id(apps.as_slice(), app.bundle_id.as_str()) {
        apps.push(app);
    }
}

/// Whether the application is VNKey itself, which the lists leave out: its
/// lowercased name contains `vnkey`.
pub fn is_own_app(name: &str) -> (r: bool)
    ensures
        r == contains_seq(spec_str_lowercase(name@), "vnkey"@),
{
    let c = str_chars(name);
    let lower = str_lowercase(&c);
    let pat = str_chars("vnkey");
    crate::text::chars_contain(&lower, &pat)
}

// ---------------------------------------------------------------------------
// Icons.
// ---------------------------------------------------------------------------

/// Index of the first candidate that could be read, or the length when none
/// could.
pub open spec fn first_read(contents: Seq<Option<Vec<u8>>>) -> int
    decreases contents.len(),
{
    if contents.len() == 0 {
        0
    } else if contents[0] is Some {
        0
    } else {
        1 + first_read(contents.drop_first())
    }
}

/// The icon taken from candidate files tried in order: the base64 text of the
/// first one that could be read, or empty when none could.
pub open spec fn spec_icon_base64(contents: Seq<Option<Vec<u8>>>) -> Seq<char> {
    let i = first_read(contents);
    if i < contents.len() {
        spec_base64(contents[i]->0@)
    } else {
        seq![]
    }
}

proof fn lemma_first_read(contents: Seq<Option<Vec<u8>>>, i: int)
    requires
        0 <= i <= contents.len(),
        forall|k: int| 0 <= k < i ==> (#[trigger] contents[k]) is None,
    ensures
        first_read(contents) == i + first_read(contents.subrange(i, contents.len() as int)),
    decreases i,
{
    if i > 0 {
        lemma_first_read(contents.drop_first(), i - 1);
        assert(contents.drop_first().subrange(i - 1, contents.len() - 1) =~= contents.subrange(
            i,
            contents.len() as int,
        ));
    } else {
        assert(contents.subrange(0, contents.len() as int) =~= contents);
    }
}

/// The icon from the contents of the candidate files, in the order they were
/// tried (`None` for a file that is missing or could not be read).
pub fn get_icon_base64(contents: &[Option<Vec<u8>>]) -> (r: String)
    ensures
        r@ == spec_icon_base64(contents@),
{
    let mut i: usize = 0;
    while i < contents.len()
        invariant
            i <= contents.len(),
            forall|k: int| 0 <= k < i ==> (#[trigger] contents@[k]) is None,
        decreases contents.len() - i,
    {
        match &contents[i] {
            Some(bytes) => {
                proof {
                    lemma_first_read(contents@, i as int);
                }
                return base64_standard(bytes.as_slice());
            },
            None => {},
        }
        i = i + 1;
    }
    proof {
        lemma_first_read(contents@, i as int);
    }
    String::new()
}

} // verus!
