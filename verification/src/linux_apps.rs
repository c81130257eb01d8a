//! The application list on Linux.  The program asks `xprop` for the windows
//! of the X11 session and reads `/proc`; this module decides, from what those
//! report, which applications are listed, under which identifier and name,
//! and where their icons are looked for.
use vstd::prelude::*;

use crate::apps::{app_info_json, file_name, spec_app_info_json, spec_file_name, AppInfo, AppRecord};
use crate::text::{
    contains_seq, index_of, index_of_char, occurs_at, remove_char, spec_str_lowercase, spec_trim,
    split_chars, split_on, str_chars, str_lowercase, str_starts_with,
    string_from_chars, strings_view, trim_chars, vecs_view, without_char,
};

verus! {

// ---------------------------------------------------------------------------
// What xprop reports.
// ---------------------------------------------------------------------------

/// The text after the first `#` of an xprop line, if there is a `#`.
pub open spec fn after_hash(s: Seq<char>) -> Option<Seq<char>> {
    let k = index_of(s, '#');
    if k < s.len() {
        Some(s.subrange(k + 1, s.len() as int))
    } else {
        None
    }
}

fn after_hash_chars(s: &[char]) -> (r: Option<Vec<char>>)
    ensures
        match r {
            Some(v) => after_hash(s@) == Some(v@),
            None => after_hash(s@) is None,
        },
{
    let k = index_of_char(s, '#');
    if k < s.len() {
        Some(crate::text::slice_chars(s, k + 1, s.len()))
    } else {
        None
    }
}

/// The trimmed pieces that are not empty.
pub open spec fn trimmed_nonempty(parts: Seq<Seq<char>>) -> Seq<Seq<char>>
    decreases parts.len(),
{
    if parts.len() == 0 {
        seq![]
    } else {
        let t = spec_trim(parts.last());
        trimmed_nonempty(parts.drop_last()) + if t.len() > 0 {
            seq![t]
        } else {
            seq![]
        }
    }
}

/// The window identifiers of an `xprop -root _NET_CLIENT_LIST` report
/// (`_NET_CLIENT_LIST(WINDOW): window id # 0x2000003, 0x3800001`): the
/// comma-separated entries after the `#`, trimmed, without empty ones.
pub open spec fn spec_window_ids(report: Seq<char>) -> Seq<Seq<char>> {
    match after_hash(report) {
        Some(rest) => trimmed_nonempty(split_on(rest, ',')),
        None => seq![],
    }
}

/// The window identifiers of a client-list report (see `spec_window_ids`).
pub fn window_ids(report: &str) -> (r: Vec<String>)
    ensures
        strings_view(r@) == spec_window_ids(report@),
{
    let s = str_chars(report);
    let mut out: Vec<String> = Vec::new();
    match after_hash_chars(&s) {
        None => {
            assert(strings_view(out@) =~= Seq::<Seq<char>>::empty());
            out
        },
        Some(rest) => {
            let parts = split_chars(&rest, ',');
            let mut i: usize = 0;
            while i < parts.len()
                invariant
                    i <= parts.len(),
                    vecs_view(parts@) == split_on(rest@, ','),
                    strings_view(out@) == trimmed_nonempty(vecs_view(parts@).take(i as int)),
                decreases parts.len() - i,
            {
                let t = trim_chars(&parts[i]);
                let ghost before = strings_view(out@);
                proof {
                    let v = vecs_view(parts@);
                    assert(v.take(i + 1).drop_last() =~= v.take(i as int));
                    assert(v.take(i + 1).last() == parts@[i as int]@);
                }
                if t.len() > 0 {
                    out.push(string_from_chars(&t));
                    assert(strings_view(out@) =~= before + seq![t@]);
                } else {
                    assert(before + Seq::<Seq<char>>::empty() =~= before);
                }
                i = i + 1;
            }
            assert(vecs_view(parts@).take(parts.len() as int) =~= vecs_view(parts@));
            out
        },
    }
}

/// The active window of an `xprop -root _NET_ACTIVE_WINDOW` report: the
/// trimmed text after the `#`, unless it is empty or `0x0` (no window).
pub open spec fn spec_active_window_id(report: Seq<char>) -> Option<Seq<char>> {
    match after_hash(report) {
        Some(rest) => {
            let id = spec_trim(rest);
            if id.len() == 0 || id == "0x0"@ {
                None
            } else {
                Some(id)
            }
        },
        None => None,
    }
}

/// The active window of an active-window report (see `spec_active_window_id`).
pub fn active_window_id(report: &str) -> (r: Option<String>)
    ensures
        match r {
            Some(v) => spec_active_window_id(report@) == Some(v@),
            None => spec_active_window_id(report@) is None,
        },
{
    let s = str_chars(report);
    match after_hash_chars(&s) {
        None => None,
        Some(rest) => {
            let id = trim_chars(&rest);
            let none = str_chars("0x0");
            if id.len() == 0 || crate::text::chars_eq(&id, &none) {
                None
            } else {
                Some(string_from_chars(&id))
            }
        },
    }
}

/// The value of a `WM_CLASS(STRING) = "google-chrome", "Google-chrome"` line:
/// the text after the first `=` up to the next comma, without quotes,
/// trimmed; none when the line has no `=`.
pub open spec fn class_value(line: Seq<char>) -> Option<Seq<char>> {
    let k = index_of(line, '=');
    if k < line.len() {
        let rest = line.subrange(k + 1, line.len() as int);
        Some(spec_trim(without_char(rest.take(index_of(rest, ',')), '"')))
    } else {
        None
    }
}

/// The value of a `_NET_WM_PID(CARDINAL) = 12345` line: the trimmed text
/// after the first `=`; none when the line has no `=`.
pub open spec fn pid_value(line: Seq<char>) -> Option<Seq<char>> {
    let k = index_of(line, '=');
    if k < line.len() {
        Some(spec_trim(line.subrange(k + 1, line.len() as int)))
    } else {
        None
    }
}

/// The window class and process id after one more line of a window report.
/// A line that names both properties counts for the one looked at first.
pub open spec fn props_step(
    state: (Seq<char>, Seq<char>),
    line: Seq<char>,
    pid_first: bool,
) -> (Seq<char>, Seq<char>) {
    let is_class = contains_seq(line, "WM_CLASS"@);
    let is_pid = contains_seq(line, "_NET_WM_PID"@);
    let with_class = match class_value(line) {
        Some(v) => (v, state.1),
        None => state,
    };
    let with_pid = match pid_value(line) {
        Some(v) => (state.0, v),
        None => state,
    };
    if pid_first {
        if is_pid {
            with_pid
        } else if is_class {
            with_class
        } else {
            state
        }
    } else {
        if is_class {
            with_class
        } else if is_pid {
            with_pid
        } else {
            state
        }
    }
}

/// The window class and process id after the given lines, starting empty.
pub open spec fn props_of_lines(lines: Seq<Seq<char>>, pid_first: bool) -> (Seq<char>, Seq<char>)
    decreases lines.len(),
{
    if lines.len() == 0 {
        (seq![], seq![])
    } else {
        props_step(props_of_lines(lines.drop_last(), pid_first), lines.last(), pid_first)
    }
}

/// The window class and process id of an `xprop -id <window> WM_CLASS
/// _NET_WM_PID` report, line by line; later lines overwrite earlier values.
/// Lines are taken between `\n`; a `\r` before one is whitespace that the
/// trimming of the values removes.
pub open spec fn spec_window_class_and_pid(report: Seq<char>, pid_first: bool) -> (
    Seq<char>,
    Seq<char>,
) {
    props_of_lines(split_on(report, '\n'), pid_first)
}

fn class_value_chars(line: &[char]) -> (r: Option<Vec<char>>)
    ensures
        match r {
            Some(v) => class_value(line@) == Some(v@),
            None => class_value(line@) is None,
        },
{
    let k = index_of_char(line, '=');
    if k < line.len() {
        let rest = crate::text::slice_chars(line, k + 1, line.len());
        let c = index_of_char(&rest, ',');
        let first = crate::text::slice_chars(&rest, 0, c);
        assert(first@ =~= rest@.take(c as int));
        let unquoted = remove_char(&first, '"');
        Some(trim_chars(&unquoted))
    } else {
        None
    }
}

fn pid_value_chars(line: &[char]) -> (r: Option<Vec<char>>)
    ensures
        match r {
            Some(v) => pid_value(line@) == Some(v@),
            None => pid_value(line@) is None,
        },
{
    let k = index_of_char(line, '=');
    if k < line.len() {
        let rest = crate::text::slice_chars(line, k + 1, line.len());
        Some(trim_chars(&rest))
    } else {
        None
    }
}

/// The window class and process id of a window report (see
/// `spec_window_class_and_pid`).  `pid_first` says which property a line
/// that names both counts for.
pub fn window_class_and_pid(report: &str, pid_first: bool) -> (r: (String, String))
    ensures
        (r.0@, r.1@) == spec_window_class_and_pid(report@, pid_first),
{
    let s = str_chars(report);
    let lines = split_chars(&s, '\n');
    let class_pat = str_chars("WM_CLASS");
    let pid_pat = str_chars("_NET_WM_PID");
    let mut class: Vec<char> = Vec::new();
    let mut pid: Vec<char> = Vec::new();
    let mut i: usize = 0;
    while i < lines.len()
        invariant
            i <= lines.len(),
            class_pat@ == "WM_CLASS"@,
            pid_pat@ == "_NET_WM_PID"@,
            (class@, pid@) == props_of_lines(vecs_view(lines@).take(i as int), pid_first),
        decreases lines.len() - i,
    {
        proof {
            let v = vecs_view(lines@);
            assert(v.take(i + 1).drop_last() =~= v.take(i as int));
            assert(v.take(i + 1).last() == lines@[i as int]@);
        }
        let line = &lines[i];
        let is_class = crate::text::chars_contain(line, &class_pat);
        let is_pid = crate::text::chars_contain(line, &pid_pat);
        let take_pid = if pid_first {
            is_pid
        } else {
            is_pid && !is_class
        };
        let take_class = if pid_first {
            is_class && !is_pid
        } else {
            is_class
        };
        if take_pid {
            match pid_value_chars(line) {
                Some(v) => {
                    pid = v;
                },
                None => {},
            }
        } else if take_class {
            match class_value_chars(line) {
                Some(v) => {
                    class = v;
                },
                None => {},
            }
        }
        i = i + 1;
    }
    assert(vecs_view(lines@).take(lines.len() as int) =~= vecs_view(lines@));
    (string_from_chars(&class), string_from_chars(&pid))
}

// ---------------------------------------------------------------------------
// Identifiers and names.
// ---------------------------------------------------------------------------

/// The name shown for an identifier: the file name of an absolute path, any
/// other identifier (a window class) as it is.
pub open spec fn spec_app_name(id: Seq<char>) -> Seq<char> {
    if id.len() > 0 && id[0] == '/' {
        match spec_file_name(id, false) {
            Some(n) => n,
            None => id,
        }
    } else {
        id
    }
}

/// The name shown for an identifier (see `spec_app_name`).
pub fn app_name(id: &str) -> (r: String)
    ensures
        r@ == spec_app_name(id@),
{
    if str_starts_with(id, "/") {
        proof {
            reveal_strlit("/");
            assert(id@.subrange(0, 1)[0] == id@[0]);
        }
        match file_name(id, false) {
            Some(n) => n,
            None => id.to_string(),
        }
    } else {
        proof {
            reveal_strlit("/");
            if id@.len() > 0 && id@[0] == '/' {
                assert(id@.subrange(0, 1) =~= "/"@);
            }
        }
        id.to_string()
    }
}

/// The name of the frontmost application, given the identifier the session
/// reported for it.
pub fn get_frontmost_app_name(bundle_id: Option<String>) -> (r: Option<String>)
    ensures
        match bundle_id {
            Some(id) => r matches Some(n) && n@ == spec_app_name(id@),
            None => r is None,
        },
{
    match bundle_id {
        Some(id) => Some(app_name(id.as_str())),
        None => None,
    }
}

/// The JSON record of the application with identifier `path`, with the icon
/// found for its name.
pub open spec fn spec_info_json(path: Seq<char>, icon: Seq<char>) -> Seq<char> {
    spec_app_info_json(AppRecord { bundle_id: path, name: spec_app_name(path), icon })
}

/// The JSON record of the application with identifier `path`; `icon` is the
/// icon found for `app_name(path)`.
pub fn get_application_info_by_path_json(path: &str, icon: &str) -> (r: Option<String>)
    ensures
        r matches Some(j) && j@ == spec_info_json(path@, icon@),
{
    let app = AppInfo { bundle_id: path.to_string(), name: app_name(path), icon: icon.to_string() };
    Some(app_info_json(&app))
}

/// The JSON record of the application with identifier `bundle_id`.
pub fn get_application_info_by_bundle_id_json(bundle_id: &str, icon: &str) -> (r: Option<String>)
    ensures
        r matches Some(j) && j@ == spec_info_json(bundle_id@, icon@),
{
    get_application_info_by_path_json(bundle_id, icon)
}

/// The JSON record of the application named `name` (its name serves as
/// identifier).
pub fn get_application_info_by_name_json(name: &str, icon: &str) -> (r: Option<String>)
    ensures
        r matches Some(j) && j@ == spec_info_json(name@, icon@),
{
    get_application_info_by_path_json(name, icon)
}

/// The identifier of the frontmost application: the executable of its
/// process when that could be read, else its window class unless empty.
pub fn frontmost_bundle_id(exe_path: Option<String>, app_class: String) -> (r: Option<String>)
    ensures
        match exe_path {
            Some(p) => r == Some(p),
            None => if app_class@.len() > 0 {
                r == Some(app_class)
            } else {
                r is None
            },
        },
{
    match exe_path {
        Some(p) => Some(p),
        None => {
            if app_class.as_str().unicode_len() > 0 {
                Some(app_class)
            } else {
                None
            }
        },
    }
}

/// The identifier a listed window is kept under: the executable of its
/// process when that could be read, else its window class.
pub fn running_app_bundle_id(exe_path: Option<String>, app_class: &str) -> (r: String)
    ensures
        match exe_path {
            Some(p) => r == p,
            None => r@ == app_class@,
        },
{
    match exe_path {
        Some(p) => p,
        None => app_class.to_string(),
    }
}

/// Whether a `/proc` entry names a process: all its characters are ASCII
/// digits.
pub fn is_process_id(entry: &str) -> (r: bool)
    ensures
        r == forall|i: int| 0 <= i < entry@.len() ==> '0' <= #[trigger] entry@[i] <= '9',
{
    let c = str_chars(entry);
    let mut i: usize = 0;
    while i < c.len()
        invariant
            i <= c.len(),
            c@ == entry@,
            forall|k: int| 0 <= k < i ==> '0' <= #[trigger] entry@[k] <= '9',
        decreases c.len() - i,
    {
        if !('0' <= c[i] && c[i] <= '9') {
            return false;
        }
        i = i + 1;
    }
    true
}

/// Whether an executable is a user application when `/proc` is scanned: it
/// lies under `/usr/bin/`, `/opt/` or `/usr/lib/`.
pub fn is_user_app_path(path: &str) -> (r: bool)
    ensures
        r == (occurs_at(path@, "/usr/bin/"@, 0) || occurs_at(path@, "/opt/"@, 0) || occurs_at(
            path@,
            "/usr/lib/"@,
            0,
        )),
{
    str_starts_with(path, "/usr/bin/") || str_starts_with(path, "/opt/") || str_starts_with(
        path,
        "/usr/lib/",
    )
}

/// The name of a process found in `/proc`: the file name of its executable,
/// else the name of its `/proc` entry.
pub fn process_app_name(exe_path: &str, entry: &str) -> (r: String)
    ensures
        match spec_file_name(exe_path@, false) {
            Some(n) => r@ == n,
            None => r@ == entry@,
        },
{
    match file_name(exe_path, false) {
        Some(n) => n,
        None => entry.to_string(),
    }
}

// ---------------------------------------------------------------------------
// The list of running applications.
// ---------------------------------------------------------------------------

/// The views of (text, optional text) pairs.
pub open spec fn pairs_view(v: Seq<(String, Option<String>)>) -> Seq<(Seq<char>, Option<Seq<char>>)> {
    v.map_values(|p: (String, Option<String>)| (p.0@, opt_string(p.1)))
}

/// The view of an optional string.
pub open spec fn opt_string(o: Option<String>) -> Option<Seq<char>> {
    match o {
        Some(s) => Some(s@),
        None => None,
    }
}

/// The views of (identifier, name) pairs.
pub open spec fn entries_view(v: Seq<(String, String)>) -> Seq<(Seq<char>, Seq<char>)> {
    v.map_values(|p: (String, String)| (p.0@, p.1@))
}

/// Whether an application with identifier `id` is listed.
pub open spec fn lists_id(list: Seq<(Seq<char>, Seq<char>)>, id: Seq<char>) -> bool {
    exists|i: int| 0 <= i < list.len() && (#[trigger] list[i]).0 == id
}

/// The list with `e` added, unless its identifier is listed already.
pub open spec fn add_once(list: Seq<(Seq<char>, Seq<char>)>, e: (Seq<char>, Seq<char>)) -> Seq<
    (Seq<char>, Seq<char>),
> {
    if lists_id(list, e.0) {
        list
    } else {
        list.push(e)
    }
}

/// Whether a name is VNKey's own.
pub open spec fn is_own_name(name: Seq<char>) -> bool {
    contains_seq(spec_str_lowercase(name), "vnkey"@)
}

/// The entry of a window of the session, given its class and the executable
/// of its process (if that could be read): none for an empty class or for
/// VNKey itself; else the executable (or the class) as identifier and the
/// class as name.
pub open spec fn window_entry(w: (Seq<char>, Option<Seq<char>>)) -> Option<(Seq<char>, Seq<char>)> {
    if w.0.len() == 0 || is_own_name(w.0) {
        None
    } else {
        Some(
            (
                match w.1 {
                    Some(p) => p,
                    None => w.0,
                },
                w.0,
            ),
        )
    }
}

/// The entry of a `/proc` entry, given its name and the executable of its
/// process (if that could be read): only processes whose executable lies in
/// a user application directory, named by the executable's file name (or
/// the entry's name), VNKey itself left out.
pub open spec fn process_entry(p: (Seq<char>, Option<Seq<char>>)) -> Option<(Seq<char>, Seq<char>)> {
    if !(forall|i: int| 0 <= i < p.0.len() ==> '0' <= #[trigger] p.0[i] <= '9') {
        None
    } else {
        match p.1 {
            None => None,
            Some(path) => if !(occurs_at(path, "/usr/bin/"@, 0) || occurs_at(path, "/opt/"@, 0)
                || occurs_at(path, "/usr/lib/"@, 0)) {
                None
            } else {
                let name = match spec_file_name(path, false) {
                    Some(n) => n,
                    None => p.0,
                };
                if is_own_name(name) {
                    None
                } else {
                    Some((path, name))
                }
            },
        }
    }
}

/// The applications of the session's windows, each identifier once, in the
/// order first seen.
pub open spec fn collect_windows(ws: Seq<(Seq<char>, Option<Seq<char>>)>) -> Seq<
    (Seq<char>, Seq<char>),
>
    decreases ws.len(),
{
    if ws.len() == 0 {
        seq![]
    } else {
        let acc = collect_windows(ws.drop_last());
        match window_entry(ws.last()) {
            Some(e) => add_once(acc, e),
            None => acc,
        }
    }
}

/// The applications among the processes of `/proc`, each identifier once,
/// in the order first seen.
pub open spec fn collect_processes(ps: Seq<(Seq<char>, Option<Seq<char>>)>) -> Seq<
    (Seq<char>, Seq<char>),
>
    decreases ps.len(),
{
    if ps.len() == 0 {
        seq![]
    } else {
        let acc = collect_processes(ps.drop_last());
        match process_entry(ps.last()) {
            Some(e) => add_once(acc, e),
            None => acc,
        }
    }
}

/// The running applications: those of the session's windows, or, when
/// there are none, those found among the processes.
pub open spec fn spec_running_apps(
    ws: Seq<(Seq<char>, Option<Seq<char>>)>,
    ps: Seq<(Seq<char>, Option<Seq<char>>)>,
) -> Seq<(Seq<char>, Seq<char>)> {
    let w = collect_windows(ws);
    if w.len() > 0 {
        w
    } else {
        collect_processes(ps)
    }
}

fn lists_id_exec(list: &Vec<(String, String)>, id: &str) -> (r: bool)
    ensures
        r == lists_id(entries_view(list@), id@),
{
    let mut i: usize = 0;
    while i < list.len()
        invariant
            i <= list.len(),
            forall|k: int| 0 <= k < i ==> (#[trigger] list@[k]).0@ != id@,
        decreases list.len() - i,
    {
        if crate::text::str_eq(list[i].0.as_str(), id) {
            assert(entries_view(list@)[i as int].0 == id@);
            return true;
        }
        i = i + 1;
    }
    assert forall|k: int| 0 <= k < entries_view(list@).len() implies (#[trigger] entries_view(
        list@,
    )[k]).0 != id@ by {
        assert(list@[k].0@ != id@);
    }
    false
}

fn add_once_exec(list: &mut Vec<(String, String)>, id: String, name: String)
    ensures
        entries_view(final(list)@) == add_once(entries_view(old(list)@), (id@, name@)),
{
    if !lists_id_exec(list, id.as_str()) {
        let ghost before = entries_view(list@);
        list.push((id, name));
        assert(entries_view(list@) =~= before.push((id@, name@)));
    }
}

fn window_entry_exec(class: &String, exe: &Option<String>) -> (r: Option<(String, String)>)
    ensures
        match r {
            Some(e) => window_entry((class@, opt_string(*exe))) == Some((e.0@, e.1@)),
            None => window_entry((class@, opt_string(*exe))) is None,
        },
{
    if class.as_str().unicode_len() == 0 || crate::apps::is_own_app(class.as_str()) {
        return None;
    }
    let id = match exe {
        Some(p) => p.clone(),
        None => class.clone(),
    };
    Some((id, class.clone()))
}

fn process_entry_exec(entry: &String, exe: &Option<String>) -> (r: Option<(String, String)>)
    ensures
        match r {
            Some(e) => process_entry((entry@, opt_string(*exe))) == Some((e.0@, e.1@)),
            None => process_entry((entry@, opt_string(*exe))) is None,
        },
{
    if !is_process_id(entry.as_str()) {
        return None;
    }
    match exe {
        None => None,
        Some(path) => {
            if !is_user_app_path(path.as_str()) {
                return None;
            }
            let name = process_app_name(path.as_str(), entry.as_str());
            if crate::apps::is_own_app(name.as_str()) {
                None
            } else {
                Some((path.clone(), name))
            }
        },
    }
}

/// The running applications as (identifier, name) pairs (see
/// `spec_running_apps`): `windows` holds the class of each window of the
/// session and the executable of its process, `processes` the name of each
/// `/proc` entry and the executable of that process, each `None` where it
/// could not be read.
pub fn running_apps(
    windows: &Vec<(String, Option<String>)>,
    processes: &Vec<(String, Option<String>)>,
) -> (r: Vec<(String, String)>)
    ensures
        entries_view(r@) == spec_running_apps(pairs_view(windows@), pairs_view(processes@)),
{
    let mut out: Vec<(String, String)> = Vec::new();
    let mut i: usize = 0;
    while i < windows.len()
        invariant
            i <= windows.len(),
            entries_view(out@) == collect_windows(pairs_view(windows@).take(i as int)),
        decreases windows.len() - i,
    {
        proof {
            let v = pairs_view(windows@);
            assert(v.take(i + 1).drop_last() =~= v.take(i as int));
            assert(v.take(i + 1).last() == v[i as int]);
        }
        match window_entry_exec(&windows[i].0, &windows[i].1) {
            Some(e) => {
                add_once_exec(&mut out, e.0, e.1);
            },
            None => {},
        }
        i = i + 1;
    }
    assert(pairs_view(windows@).take(windows.len() as int) =~= pairs_view(windows@));
    if out.len() > 0 {
        return out;
    }
    assert(entries_view(out@).len() == 0);
    let mut j: usize = 0;
    assert(pairs_view(processes@).take(0) =~= Seq::<(Seq<char>, Option<Seq<char>>)>::empty());
    assert(entries_view(out@) =~= Seq::<(Seq<char>, Seq<char>)>::empty());
    while j < processes.len()
        invariant
            j <= processes.len(),
            collect_windows(pairs_view(windows@)).len() == 0,
            entries_view(out@) == collect_processes(pairs_view(processes@).take(j as int)),
        decreases processes.len() - j,
    {
        proof {
            let v = pairs_view(processes@);
            assert(v.take(j + 1).drop_last() =~= v.take(j as int));
            assert(v.take(j + 1).last() == v[j as int]);
        }
        match process_entry_exec(&processes[j].0, &processes[j].1) {
            Some(e) => {
                add_once_exec(&mut out, e.0, e.1);
            },
            None => {},
        }
        j = j + 1;
    }
    assert(pairs_view(processes@).take(processes.len() as int) =~= pairs_view(processes@));
    out
}

// ---------------------------------------------------------------------------
// Icons.
// ---------------------------------------------------------------------------

/// The directories searched for icons, in order.
pub open spec fn icon_dirs() -> Seq<Seq<char>> {
    seq![
        "/usr/share/pixmaps"@,
        "/usr/share/icons/hicolor/48x48/apps"@,
        "/usr/share/icons/hicolor/64x64/apps"@,
        "/usr/share/icons/hicolor/128x128/apps"@,
        "/usr/share/icons/hicolor/scalable/apps"@,
    ]
}

fn icon_dir(k: usize) -> (r: &'static str)
    requires
        k < 5,
    ensures
        r@ == icon_dirs()[k as int],
{
    match k {
        0 => "/usr/share/pixmaps",
        1 => "/usr/share/icons/hicolor/48x48/apps",
        2 => "/usr/share/icons/hicolor/64x64/apps",
        3 => "/usr/share/icons/hicolor/128x128/apps",
        _ => "/usr/share/icons/hicolor/scalable/apps",
    }
}

/// The icon files tried for an application, in order: in each directory the
/// lowercased name with `.png`, then with `.svg`.
pub open spec fn spec_icon_candidates(app_name: Seq<char>) -> Seq<Seq<char>> {
    Seq::new(
        10,
        |k: int|
            icon_dirs()[k / 2] + "/"@ + spec_str_lowercase(app_name) + if k % 2 == 0 {
                ".png"@
            } else {
                ".svg"@
            },
    )
}

fn joined_path(dir: &str, name: &[char], ext: &str) -> (r: String)
    ensures
        r@ == dir@ + "/"@ + name@ + ext@,
{
    let mut out = str_chars(dir);
    let slash = str_chars("/");
    crate::text::extend_chars(&mut out, &slash);
    crate::text::extend_chars(&mut out, name);
    let e = str_chars(ext);
    crate::text::extend_chars(&mut out, &e);
    string_from_chars(&out)
}

/// The icon files tried for an application (see `spec_icon_candidates`).
pub fn icon_candidates(app_name: &str) -> (r: Vec<String>)
    ensures
        strings_view(r@) == spec_icon_candidates(app_name@),
{
    let c = str_chars(app_name);
    let lower = str_lowercase(&c);
    let mut out: Vec<String> = Vec::new();
    let mut k: usize = 0;
    while k < 5
        invariant
            k <= 5,
            out.len() == 2 * k,
            lower@ == spec_str_lowercase(app_name@),
            strings_view(out@) =~= spec_icon_candidates(app_name@).take(2 * k as int),
        decreases 5 - k,
    {
        let dir = icon_dir(k);
        let ghost before = strings_view(out@);
        out.push(joined_path(dir, &lower, ".png"));
        out.push(joined_path(dir, &lower, ".svg"));
        proof {
            let want = spec_icon_candidates(app_name@);
            assert((2 * k) / 2 == k as int);
            assert((2 * k + 1) / 2 == k as int);
            assert((2 * k) % 2 == 0);
            assert((2 * k + 1) % 2 == 1);
            assert(want[2 * k] == icon_dirs()[k as int] + "/"@ + lower@ + ".png"@);
            assert(want[2 * k + 1] == icon_dirs()[k as int] + "/"@ + lower@ + ".svg"@);
            assert forall|i: int| 0 <= i < 2 * k + 2 implies strings_view(out@)[i] == want.take(
                2 * k + 2,
            )[i] by {
                if i < 2 * k {
                    assert(strings_view(out@)[i] == out@[i]@);
                    assert(before[i] == out@[i]@);
                }
            }
            assert(strings_view(out@) =~= want.take(2 * k + 2));
        }
        k = k + 1;
    }
    out
}

} // verus!
