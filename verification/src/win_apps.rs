//! The application list on Windows.  The program walks the top-level windows
//! and asks each window's process for its executable; this module decides
//! which windows are listed, under which name, and turns the icon pixels the
//! system returns into the byte order the PNG encoder expects.
use vstd::prelude::*;

use crate::apps::{
    app_info_json, is_sep, spec_app_info_json, spec_file_name_in, AppInfo, AppRecord, PathStyle,
};
use crate::text::string_from_chars;

verus! {

/// Whether `c` is an ASCII letter.
pub open spec fn is_ascii_letter(c: char) -> bool {
    ('a' <= c <= 'z') || ('A' <= c <= 'Z')
}

/// Whether `p` holds `a`, `b` at positions `i`, `i + 1`.
pub open spec fn at2(p: Seq<char>, i: int, a: char, b: char) -> bool {
    0 <= i && i + 2 <= p.len() && p[i] == a && p[i + 1] == b
}

/// Index of the first separator of `p` at or after `i` (the length of `p`
/// when there is none).
pub open spec fn sep_from(p: Seq<char>, i: int, style: PathStyle) -> int
    decreases p.len() - i,
{
    if i >= p.len() {
        p.len() as int
    } else if is_sep(p[i], style) {
        i
    } else {
        sep_from(p, i + 1, style)
    }
}

/// The length of the prefix of a Windows path and whether it is verbatim,
/// as `std::path` parses it on Windows:
/// - `\\?\UNC\server\share`, `\\?\name` (`\\?\C:` among them): verbatim,
///   components separated by `\` only;
/// - `\\.\device`;
/// - `\\server\share`, when both names are there;
/// - a drive `C:`;
/// - otherwise no prefix.
pub open spec fn windows_prefix(p: Seq<char>) -> (int, bool) {
    if at2(p, 0, '\\', '\\') {
        if at2(p, 2, '?', '\\') {
            if at2(p, 4, 'U', 'N') && at2(p, 6, 'C', '\\') {
                let a = sep_from(p, 8, PathStyle::Verbatim);
                (
                    if a < p.len() {
                        sep_from(p, a + 1, PathStyle::Verbatim)
                    } else {
                        a
                    },
                    true,
                )
            } else {
                (sep_from(p, 4, PathStyle::Verbatim), true)
            }
        } else if at2(p, 2, '.', '\\') {
            (sep_from(p, 4, PathStyle::Windows), false)
        } else {
            let a = sep_from(p, 2, PathStyle::Windows);
            if a > 2 && a < p.len() && sep_from(p, a + 1, PathStyle::Windows) > a + 1 {
                (sep_from(p, a + 1, PathStyle::Windows), false)
            } else {
                (0, false)
            }
        }
    } else if p.len() >= 2 && p[1] == ':' && is_ascii_letter(p[0]) {
        (2, false)
    } else {
        (0, false)
    }
}

/// The file name of a Windows path (`Path::file_name` on Windows): the
/// prefix is no component; behind it components are separated by `\` or
/// `/`, or by `\` alone behind a verbatim prefix.
pub open spec fn spec_windows_file_name(p: Seq<char>) -> Option<Seq<char>> {
    let (n, verbatim) = windows_prefix(p);
    spec_file_name_in(
        p.skip(n),
        if verbatim {
            PathStyle::Verbatim
        } else {
            PathStyle::Windows
        },
    )
}

/// The name shown for an executable: its file name, or `Unknown`.
pub open spec fn spec_app_name(path: Seq<char>) -> Seq<char> {
    match spec_windows_file_name(path) {
        Some(n) => n,
        None => "Unknown"@,
    }
}

fn at2_exec(p: &[char], i: usize, a: char, b: char) -> (r: bool)
    ensures
        r == at2(p@, i as int, a, b),
{
    i < p.len() && p.len() - i >= 2 && p[i] == a && p[i + 1] == b
}

fn sep_from_exec(p: &[char], i: usize, style: PathStyle) -> (r: usize)
    requires
        i <= p.len(),
    ensures
        r == sep_from(p@, i as int, style),
        i <= r <= p.len(),
{
    let mut k = i;
    while k < p.len()
        invariant
            i <= k <= p.len(),
            sep_from(p@, k as int, style) == sep_from(p@, i as int, style),
        decreases p.len() - k,
    {
        let c = p[k];
        let found = match style {
            PathStyle::Unix => c == '/',
            PathStyle::Windows => c == '/' || c == '\\',
            PathStyle::Verbatim => c == '\\',
        };
        if found {
            return k;
        }
        k = k + 1;
    }
    k
}

fn windows_prefix_exec(p: &[char]) -> (r: (usize, bool))
    ensures
        (r.0 as int, r.1) == windows_prefix(p@),
        r.0 <= p.len(),
{
    if at2_exec(p, 0, '\\', '\\') {
        if at2_exec(p, 2, '?', '\\') {
            if at2_exec(p, 4, 'U', 'N') && at2_exec(p, 6, 'C', '\\') {
                let a = sep_from_exec(p, 8, PathStyle::Verbatim);
                if a < p.len() {
                    (sep_from_exec(p, a + 1, PathStyle::Verbatim), true)
                } else {
                    (a, true)
                }
            } else {
                (sep_from_exec(p, 4, PathStyle::Verbatim), true)
            }
        } else if at2_exec(p, 2, '.', '\\') {
            (sep_from_exec(p, 4, PathStyle::Windows), false)
        } else {
            let a = sep_from_exec(p, 2, PathStyle::Windows);
            if a > 2 && a < p.len() {
                let b = sep_from_exec(p, a + 1, PathStyle::Windows);
                if b > a + 1 {
                    (b, false)
                } else {
                    (0, false)
                }
            } else {
                (0, false)
            }
        }
    } else if p.len() >= 2 && p[1] == ':' && (('a' <= p[0] && p[0] <= 'z') || ('A' <= p[0] && p[0]
        <= 'Z')) {
        (2, false)
    } else {
        (0, false)
    }
}

/// The name shown for an executable (see `spec_app_name`).
pub fn app_name(path: &str) -> (r: String)
    ensures
        r@ == spec_app_name(path@),
{
    let c = crate::text::str_chars(path);
    let (n, verbatim) = windows_prefix_exec(&c);
    let rest = crate::text::slice_chars(&c, n, c.len());
    assert(rest@ =~= path@.skip(n as int));
    let style = if verbatim {
        PathStyle::Verbatim
    } else {
        PathStyle::Windows
    };
    match crate::apps::file_name_in(&rest, style) {
        Some(n) => string_from_chars(&n),
        None => "Unknown".to_string(),
    }
}

/// The name of the frontmost application, given the executable of the
/// foreground window's process.
pub fn get_frontmost_app_name(exe_path: Option<String>) -> (r: Option<String>)
    ensures
        match exe_path {
            Some(p) => r matches Some(n) && n@ == spec_app_name(p@),
            None => r is None,
        },
{
    match exe_path {
        Some(p) => Some(app_name(p.as_str())),
        None => None,
    }
}

/// The JSON record of the application with executable `path`.
pub open spec fn spec_info_json(path: Seq<char>, icon: Seq<char>) -> Seq<char> {
    spec_app_info_json(AppRecord { bundle_id: path, name: spec_app_name(path), icon })
}

/// The JSON record of the application with executable `path`; `icon` is the
/// encoded icon of that file.
pub fn get_application_info_by_path_json(path: &str, icon: &str) -> (r: Option<String>)
    ensures
        r matches Some(j) && j@ == spec_info_json(path@, icon@),
{
    let app = AppInfo { bundle_id: path.to_string(), name: app_name(path), icon: icon.to_string() };
    Some(app_info_json(&app))
}

/// The JSON record of the application with identifier `bundle_id` (an
/// executable path).
pub fn get_application_info_by_bundle_id_json(bundle_id: &str, icon: &str) -> (r: Option<String>)
    ensures
        r matches Some(j) && j@ == spec_info_json(bundle_id@, icon@),
{
    get_application_info_by_path_json(bundle_id, icon)
}

/// The JSON record of an application known only by name: `name` as
/// identifier and name, and no icon.
pub open spec fn spec_plain_json(name: Seq<char>) -> Seq<char> {
    spec_app_info_json(AppRecord { bundle_id: name, name: name, icon: seq![] })
}

/// The JSON record of the application named `name`: the record of that path
/// when `name` is an existing path, else the plain record of the name.
pub fn get_application_info_by_name_json(name: &str, exists: bool, icon: &str) -> (r: Option<String>)
    ensures
        r matches Some(j) && j@ == (if exists {
            spec_info_json(name@, icon@)
        } else {
            spec_plain_json(name@)
        }),
{
    if exists {
        get_application_info_by_path_json(name, icon)
    } else {
        let app = AppInfo { bundle_id: name.to_string(), name: name.to_string(), icon: String::new() };
        Some(app_info_json(&app))
    }
}

/// The extended window style of tool windows (`WS_EX_TOOLWINDOW`).
pub const WS_EX_TOOLWINDOW: u32 = 0x80;

/// Whether a top-level window stands for an application in the list: it is
/// visible, is no tool window, and belongs to a process.
pub fn is_listed_window(visible: bool, ex_style: i32, process_id: u32) -> (r: bool)
    ensures
        r == (visible && (ex_style as u32) & WS_EX_TOOLWINDOW == 0 && process_id != 0),
{
    visible && (ex_style as u32) & WS_EX_TOOLWINDOW == 0 && process_id != 0
}

/// Turns pixels from blue-green-red-alpha into red-green-blue-alpha order:
/// in every whole group of four bytes the first and third trade places;
/// bytes after the last whole group stay.
pub fn bgra_to_rgba(buffer: &mut Vec<u8>)
    ensures
        final(buffer).len() == old(buffer).len(),
        forall|i: int|
            0 <= i < old(buffer).len() ==> #[trigger] final(buffer)@[i] == if i + 4 - i % 4
                > old(buffer).len() {
                old(buffer)@[i]
            } else if i % 4 == 0 {
                old(buffer)@[i + 2]
            } else if i % 4 == 2 {
                old(buffer)@[i - 2]
            } else {
                old(buffer)@[i]
            },
{
    let ghost orig = buffer@;
    let n = buffer.len();
    let mut k: usize = 0;
    while 4 <= n - k
        invariant
            buffer@.len() == n == orig.len(),
            k % 4 == 0,
            k <= n,
            forall|i: int|
                0 <= i < n ==> #[trigger] buffer@[i] == if i >= k {
                    orig[i]
                } else if i % 4 == 0 {
                    orig[i + 2]
                } else if i % 4 == 2 {
                    orig[i - 2]
                } else {
                    orig[i]
                },
        decreases n - k,
    {
        let a = buffer[k];
        let b = buffer[k + 2];
        buffer.set(k, b);
        buffer.set(k + 2, a);
        proof {
            assert forall|i: int| 0 <= i < n implies #[trigger] buffer@[i] == if i >= k + 4 {
                orig[i]
            } else if i % 4 == 0 {
                orig[i + 2]
            } else if i % 4 == 2 {
                orig[i - 2]
            } else {
                orig[i]
            } by {
                if k <= i < k + 4 {
                    assert(i % 4 == i - k);
                }
            }
        }
        k = k + 4;
    }
    proof {
        assert forall|i: int| 0 <= i < n implies #[trigger] buffer@[i] == if i + 4 - i % 4 > n {
            orig[i]
        } else if i % 4 == 0 {
            orig[i + 2]
        } else if i % 4 == 2 {
            orig[i - 2]
        } else {
            orig[i]
        } by {
            if i >= k {
                assert(i + 4 - i % 4 > n);
            } else {
                assert(i + 4 - i % 4 <= k);
            }
        }
    }
}

} // verus!
