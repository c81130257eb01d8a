use serde_json::Value;
use std::path::Path;
use vnkey::apps::{
    add_app_once, app_info_json, app_list_json, file_name, get_icon_base64, is_own_app,
    lists_bundle_id, AppInfo,
};
use vnkey::linux_apps;
use vnkey::win_apps;

fn app(bundle_id: &str, name: &str, icon: &str) -> AppInfo {
    AppInfo {
        bundle_id: bundle_id.to_string(),
        name: name.to_string(),
        icon: icon.to_string(),
    }
}

/// The object serde_json writes for an application record.
fn json_value(bundle_id: &str, name: &str, icon: &str) -> Value {
    let mut m = serde_json::Map::new();
    m.insert("bundle_id".to_string(), Value::String(bundle_id.to_string()));
    m.insert("name".to_string(), Value::String(name.to_string()));
    m.insert("icon".to_string(), Value::String(icon.to_string()));
    Value::Object(m)
}

#[test]
fn file_name_agrees_with_std_on_unix_paths() {
    let paths = [
        "/usr/bin/firefox",
        "/usr/bin/",
        "/",
        "",
        "a",
        "a/b",
        "a/.",
        "./a",
        ".",
        "..",
        "/a/..",
        "/a//b//",
        "/a/./",
        "/opt/Google Chrome/chrome",
        "//x",
        "a/b/c.d",
    ];
    for p in paths {
        let ours = file_name(p, false);
        let std = Path::new(p).file_name().map(|f| f.to_str().unwrap().to_string());
        assert_eq!(ours, std, "path={p:?}");
    }
}

#[test]
fn file_name_on_windows_paths() {
    assert_eq!(file_name("C:\\Program Files\\App\\app.exe", true), Some("app.exe".to_string()));
    assert_eq!(file_name("C:/a/b.exe", true), Some("b.exe".to_string()));
    assert_eq!(file_name("dir\\", true), Some("dir".to_string()));
    assert_eq!(file_name("dir\\..", true), None);
    assert_eq!(win_apps::app_name("C:\\Program Files\\App\\app.exe"), "app.exe");
    assert_eq!(win_apps::app_name("C:"), "Unknown");
    assert_eq!(win_apps::app_name("C:\\"), "Unknown");
    assert_eq!(win_apps::app_name("C:notepad.exe"), "notepad.exe");
    assert_eq!(win_apps::app_name(""), "Unknown");
}

#[test]
fn app_info_json_matches_serde_json() {
    let cases = [
        ("/usr/bin/code", "code", ""),
        ("C:\\Apps\\x \"quoted\".exe", "x \"quoted\".exe", "aWNvbg=="),
        ("tiếng việt", "tab\there", "line\nbreak"),
    ];
    for (b, n, i) in cases {
        let ours = app_info_json(&app(b, n, i));
        assert_eq!(ours, json_value(b, n, i).to_string());
    }
}

#[test]
fn app_list_json_matches_serde_json() {
    let apps = vec![app("/usr/bin/a", "a", ""), app("b", "b", "Zm9v")];
    let values: Vec<Value> = vec![json_value("/usr/bin/a", "a", ""), json_value("b", "b", "Zm9v")];
    assert_eq!(app_list_json(&apps), serde_json::to_string(&values).unwrap());
    assert_eq!(app_list_json(&[]), "[]");
    assert_eq!(app_list_json(&apps[..1]), format!("[{}]", json_value("/usr/bin/a", "a", "")));
}

#[test]
fn apps_are_listed_once_per_identifier() {
    let mut apps: Vec<AppInfo> = Vec::new();
    add_app_once(&mut apps, app("/usr/bin/a", "a", ""));
    add_app_once(&mut apps, app("/usr/bin/b", "b", ""));
    add_app_once(&mut apps, app("/usr/bin/a", "other name", "icon"));
    assert_eq!(apps.len(), 2);
    assert_eq!(apps[0].name, "a");
    assert!(lists_bundle_id(&apps, "/usr/bin/b"));
    assert!(!lists_bundle_id(&apps, "/usr/bin/c"));
}

#[test]
fn own_app_is_recognised_in_any_case() {
    assert!(is_own_app("VNKey"));
    assert!(is_own_app("vnkey-ui"));
    assert!(is_own_app("My VnKeY helper"));
    assert!(!is_own_app("firefox"));
    assert!(!is_own_app("vn key"));
}

#[test]
fn icon_is_first_readable_candidate_in_base64() {
    let none: Vec<Option<Vec<u8>>> = vec![None, None];
    assert_eq!(get_icon_base64(&none), "");
    assert_eq!(get_icon_base64(&[]), "");
    let some = vec![None, Some(b"foo".to_vec()), Some(b"bar".to_vec())];
    assert_eq!(get_icon_base64(&some), "Zm9v");
    assert_eq!(get_icon_base64(&[Some(b"ab".to_vec())]), "YWI=");
}

#[test]
fn xprop_client_list_is_split_into_window_ids() {
    assert_eq!(
        linux_apps::window_ids("_NET_CLIENT_LIST(WINDOW): window id # 0x2000003, 0x3800001\n"),
        vec!["0x2000003".to_string(), "0x3800001".to_string()]
    );
    assert_eq!(linux_apps::window_ids("_NET_CLIENT_LIST:  no such atom"), Vec::<String>::new());
    assert_eq!(linux_apps::window_ids("# a,, b ,"), vec!["a".to_string(), "b".to_string()]);
}

#[test]
fn xprop_active_window() {
    assert_eq!(
        linux_apps::active_window_id("_NET_ACTIVE_WINDOW(WINDOW): window id # 0x2000003\n"),
        Some("0x2000003".to_string())
    );
    assert_eq!(linux_apps::active_window_id("_NET_ACTIVE_WINDOW(WINDOW): window id # 0x0"), None);
    assert_eq!(linux_apps::active_window_id("_NET_ACTIVE_WINDOW(WINDOW): window id #   "), None);
    assert_eq!(linux_apps::active_window_id("nothing"), None);
}

#[test]
fn xprop_window_properties() {
    let report = "WM_CLASS(STRING) = \"google-chrome\", \"Google-chrome\"\n_NET_WM_PID(CARDINAL) = 12345\n";
    let expected = ("google-chrome".to_string(), "12345".to_string());
    assert_eq!(linux_apps::window_class_and_pid(report, false), expected);
    assert_eq!(linux_apps::window_class_and_pid(report, true), expected);
    let crlf = "_NET_WM_PID(CARDINAL) = 7\r\nWM_CLASS(STRING) = \"code\"\r\n";
    assert_eq!(
        linux_apps::window_class_and_pid(crlf, true),
        ("code".to_string(), "7".to_string())
    );
    let missing = "WM_CLASS:  not found.\n_NET_WM_PID:  not found.\n";
    assert_eq!(linux_apps::window_class_and_pid(missing, false), (String::new(), String::new()));
}

#[test]
fn linux_names_and_records() {
    assert_eq!(linux_apps::app_name("/usr/bin/code"), "code");
    assert_eq!(linux_apps::app_name("firefox"), "firefox");
    assert_eq!(linux_apps::app_name("/"), "/");
    assert_eq!(
        linux_apps::get_frontmost_app_name(Some("/usr/lib/firefox/firefox".to_string())),
        Some("firefox".to_string())
    );
    assert_eq!(linux_apps::get_frontmost_app_name(None), None);
    assert_eq!(
        linux_apps::get_application_info_by_path_json("/usr/bin/code", "aWNvbg=="),
        Some(json_value("/usr/bin/code", "code", "aWNvbg==").to_string())
    );
    assert_eq!(
        linux_apps::get_application_info_by_bundle_id_json("gimp", ""),
        Some(json_value("gimp", "gimp", "").to_string())
    );
    assert_eq!(
        linux_apps::get_application_info_by_name_json("Slack", ""),
        Some(json_value("Slack", "Slack", "").to_string())
    );
}

#[test]
fn linux_identifiers_and_process_scan() {
    assert_eq!(
        linux_apps::frontmost_bundle_id(Some("/usr/bin/x".to_string()), "x".to_string()),
        Some("/usr/bin/x".to_string())
    );
    assert_eq!(linux_apps::frontmost_bundle_id(None, "X".to_string()), Some("X".to_string()));
    assert_eq!(linux_apps::frontmost_bundle_id(None, String::new()), None);
    assert_eq!(linux_apps::running_app_bundle_id(None, "term"), "term");
    assert_eq!(linux_apps::running_app_bundle_id(Some("/bin/t".to_string()), "term"), "/bin/t");
    assert!(linux_apps::is_process_id("1234"));
    assert!(linux_apps::is_process_id(""));
    assert!(!linux_apps::is_process_id("12a"));
    assert!(!linux_apps::is_process_id("self"));
    assert!(linux_apps::is_user_app_path("/usr/bin/vim"));
    assert!(linux_apps::is_user_app_path("/opt/app/run"));
    assert!(linux_apps::is_user_app_path("/usr/lib/x/y"));
    assert!(!linux_apps::is_user_app_path("/sbin/init"));
    assert!(!linux_apps::is_user_app_path("/usr/binx"));
    assert_eq!(linux_apps::process_app_name("/usr/bin/vim", "42"), "vim");
    assert_eq!(linux_apps::process_app_name("/", "42"), "42");
}

#[test]
fn linux_icon_candidates() {
    let c = linux_apps::icon_candidates("Firefox");
    assert_eq!(c.len(), 10);
    assert_eq!(c[0], "/usr/share/pixmaps/firefox.png");
    assert_eq!(c[1], "/usr/share/pixmaps/firefox.svg");
    assert_eq!(c[2], "/usr/share/icons/hicolor/48x48/apps/firefox.png");
    assert_eq!(c[9], "/usr/share/icons/hicolor/scalable/apps/firefox.svg");
}

#[test]
fn windows_records_and_windows() {
    assert_eq!(
        win_apps::get_frontmost_app_name(Some("C:\\Windows\\notepad.exe".to_string())),
        Some("notepad.exe".to_string())
    );
    assert_eq!(win_apps::get_frontmost_app_name(None), None);
    assert_eq!(
        win_apps::get_application_info_by_bundle_id_json("C:\\a\\b.exe", "aWNvbg=="),
        Some(json_value("C:\\a\\b.exe", "b.exe", "aWNvbg==").to_string())
    );
    assert_eq!(
        win_apps::get_application_info_by_name_json("Notes", false, "ignored"),
        Some(json_value("Notes", "Notes", "").to_string())
    );
    assert_eq!(
        win_apps::get_application_info_by_name_json("C:\\n.exe", true, "aQ=="),
        Some(json_value("C:\\n.exe", "n.exe", "aQ==").to_string())
    );
    assert!(win_apps::is_listed_window(true, 0, 10));
    assert!(!win_apps::is_listed_window(false, 0, 10));
    assert!(!win_apps::is_listed_window(true, 0x80, 10));
    assert!(!win_apps::is_listed_window(true, 0x180, 10));
    assert!(win_apps::is_listed_window(true, 0x100, 10));
    assert!(!win_apps::is_listed_window(true, 0, 0));
}

#[test]
fn pixels_are_reordered_per_whole_group() {
    let mut buf: Vec<u8> = vec![1, 2, 3, 4, 5, 6, 7, 8, 9, 10];
    win_apps::bgra_to_rgba(&mut buf);
    assert_eq!(buf, vec![3, 2, 1, 4, 7, 6, 5, 8, 9, 10]);
    let mut empty: Vec<u8> = Vec::new();
    win_apps::bgra_to_rgba(&mut empty);
    assert!(empty.is_empty());
}

#[test]
fn json_escapes_control_characters_like_serde_json() {
    let text = "a\u{1}b\u{1f}\u{7f}\u{8}\u{c}\r\\\"é\u{2028}";
    assert_eq!(
        app_info_json(&app(text, "n", "")),
        json_value(text, "n", "").to_string()
    );
}

#[test]
fn base64_matches_the_standard_alphabet() {
    assert_eq!(get_icon_base64(&[Some(b"foobar".to_vec())]), "Zm9vYmFy");
    assert_eq!(get_icon_base64(&[Some(b"fooba".to_vec())]), "Zm9vYmE=");
    assert_eq!(get_icon_base64(&[Some(vec![0xfb, 0xff, 0xbf])]), "+/+/");
    assert_eq!(get_icon_base64(&[Some(vec![])]), "");
}

fn pairs(v: &[(&str, Option<&str>)]) -> Vec<(String, Option<String>)> {
    v.iter().map(|(a, b)| (a.to_string(), b.map(|s| s.to_string()))).collect()
}

#[test]
fn running_apps_from_windows_then_processes() {
    let windows = pairs(&[
        ("google-chrome", Some("/opt/google/chrome/chrome")),
        ("", Some("/usr/bin/x")),
        ("vnkey-ui", Some("/usr/bin/vnkey-ui")),
        ("Google-chrome", Some("/opt/google/chrome/chrome")),
        ("xterm", None),
    ]);
    let procs = pairs(&[("1", Some("/usr/bin/vim"))]);
    let listed = linux_apps::running_apps(&windows, &procs);
    assert_eq!(
        listed,
        vec![
            ("/opt/google/chrome/chrome".to_string(), "google-chrome".to_string()),
            ("xterm".to_string(), "xterm".to_string()),
        ]
    );
    let none = pairs(&[("", None), ("VNKey", None)]);
    let procs = pairs(&[
        ("self", Some("/usr/bin/bash")),
        ("12", Some("/usr/bin/vim")),
        ("13", Some("/sbin/init")),
        ("14", None),
        ("15", Some("/usr/bin/vim")),
        ("16", Some("/opt/vnkey/VNKey")),
        ("17", Some("/usr/lib/firefox/firefox")),
    ]);
    assert_eq!(
        linux_apps::running_apps(&none, &procs),
        vec![
            ("/usr/bin/vim".to_string(), "vim".to_string()),
            ("/usr/lib/firefox/firefox".to_string(), "firefox".to_string()),
        ]
    );
    assert!(linux_apps::running_apps(&none, &Vec::new()).is_empty());
}

#[test]
fn windows_prefixes_are_no_file_names() {
    let cases = [
        ("\\\\server\\share", "Unknown"),
        ("\\\\server\\share\\", "Unknown"),
        ("\\\\server\\share\\app.exe", "app.exe"),
        ("\\\\server", "server"),
        ("\\\\?\\C:\\x\\y.exe", "y.exe"),
        ("\\\\?\\C:\\", "Unknown"),
        ("\\\\?\\C:\\x\\.", "Unknown"),
        ("\\\\?\\C:\\x/y", "x/y"),
        ("\\\\?\\UNC\\srv\\sh", "Unknown"),
        ("\\\\?\\UNC\\srv\\sh\\z.exe", "z.exe"),
        ("\\\\?\\pictures", "Unknown"),
        ("\\\\.\\COM1", "Unknown"),
        ("\\\\.\\pipe\\name", "name"),
        ("C:\\x\\..", "Unknown"),
        ("C:\\x\\.", "x"),
    ];
    for (p, name) in cases {
        assert_eq!(win_apps::app_name(p), name, "path={p:?}");
    }
}
