//! How a replacement edit reaches the focused text control on macOS:
//! through Accessibility when the control supports it, else through
//! synthesized key events; and which key codes end the word being composed.
use std::collections::VecDeque;
use vstd::prelude::*;

use crate::text::{
    chars_contain, contains_seq, spec_str_lowercase, str_chars, str_contains, str_eq, str_lowercase,
    string_from_chars, strings_view,
};

verus! {

/// Model of one cache entry: an application bundle id and a control role.
pub open spec fn entry_view(e: (String, String)) -> (Seq<char>, Seq<char>) {
    (e.0@, e.1@)
}

/// Model of the entries of the cache, oldest first.
pub open spec fn entries_view(s: Seq<(String, String)>) -> Seq<(Seq<char>, Seq<char>)> {
    s.map_values(|e: (String, String)| entry_view(e))
}

/// Model of the cache.
pub struct CacheView {
    pub capacity: nat,
    pub active_app: Option<Seq<char>>,
    pub unsupported: Seq<(Seq<char>, Seq<char>)>,
}

/// The cache invariant: at most `capacity` entries, no entry twice, and
/// every entry belongs to the active application.
pub open spec fn cache_ok(v: CacheView) -> bool {
    &&& v.unsupported.len() <= v.capacity
    &&& forall|i: int, j: int|
        0 <= i < j < v.unsupported.len() ==> v.unsupported[i] != v.unsupported[j]
    &&& forall|i: int| 0 <= i < v.unsupported.len() ==> v.active_app == Some(#[trigger] v.unsupported[i].0)
}

/// The state after the frontmost application is `app`: unchanged when it
/// already was, else emptied with `app` active.
pub open spec fn invalidated(v: CacheView, app: Seq<char>) -> CacheView {
    if v.active_app == Some(app) {
        v
    } else {
        CacheView { capacity: v.capacity, active_app: Some(app), unsupported: Seq::empty() }
    }
}

/// The state after recording that `role` in `app` refused an Accessibility
/// replacement: the entry is appended unless already there or the capacity
/// is zero; when the cache is full the oldest entry leaves first.
pub open spec fn marked(v: CacheView, app: Seq<char>, role: Seq<char>) -> CacheView {
    let s = invalidated(v, app);
    if s.unsupported.contains((app, role)) || s.capacity == 0 {
        s
    } else if s.unsupported.len() == s.capacity {
        CacheView { unsupported: s.unsupported.drop_first().push((app, role)), ..s }
    } else {
        CacheView { unsupported: s.unsupported.push((app, role)), ..s }
    }
}

/// A bounded record of (application, control role) pairs for which an
/// Accessibility replacement failed, kept for the frontmost application only.
#[derive(Debug)]
pub struct ReplacementCapabilityCache {
    capacity: usize,
    active_app: Option<String>,
    unsupported: VecDeque<(String, String)>,
}

impl View for ReplacementCapabilityCache {
    type V = CacheView;

    closed spec fn view(&self) -> CacheView {
        CacheView {
            capacity: self.capacity as nat,
            active_app: match self.active_app {
                Some(a) => Some(a@),
                None => None,
            },
            unsupported: entries_view(self.unsupported@),
        }
    }
}

impl ReplacementCapabilityCache {
    pub fn new(capacity: usize) -> (r: Self)
        ensures
            r@.capacity == capacity,
            r@.active_app is None,
            r@.unsupported.len() == 0,
            cache_ok(r@),
    {
        let r = Self {
            capacity,
            active_app: None,
            unsupported: VecDeque::with_capacity(capacity),
        };
        assert(r@.unsupported =~= Seq::<(Seq<char>, Seq<char>)>::empty());
        r
    }

    /// Starts tracking `bundle_id`; forgets every entry when the frontmost
    /// application changed.
    pub fn invalidate_for_app(&mut self, bundle_id: &str)
        requires
            cache_ok(old(self)@),
        ensures
            final(self)@ == invalidated(old(self)@, bundle_id@),
            cache_ok(final(self)@),
    {
        let same = match &self.active_app {
            Some(a) => {
                let b = bundle_id.to_owned();
                a.eq(&b)
            },
            None => false,
        };
        if !same {
            self.unsupported.clear();
            self.active_app = Some(bundle_id.to_owned());
            assert(self@.unsupported =~= Seq::<(Seq<char>, Seq<char>)>::empty());
        }
    }

    /// Records that `role` in `bundle_id` refused an Accessibility
    /// replacement.
    pub fn mark_unsupported(&mut self, bundle_id: &str, role: &str)
        requires
            cache_ok(old(self)@),
        ensures
            final(self)@ == marked(old(self)@, bundle_id@, role@),
            cache_ok(final(self)@),
    {
        self.invalidate_for_app(bundle_id);
        let ghost s = self@;
        if self.is_unsupported(bundle_id, role) {
            return;
        }
        if self.capacity == 0 {
            return;
        }
        if self.unsupported.len() == self.capacity {
            let _ = self.unsupported.pop_front();
            assert(self@.unsupported =~= s.unsupported.drop_first());
        }
        let ghost before = self@.unsupported;
        self.unsupported.push_back((bundle_id.to_owned(), role.to_owned()));
        assert(self@.unsupported =~= before.push((bundle_id@, role@)));
        proof {
            assert forall|i: int| 0 <= i < before.len() implies before[i] != (bundle_id@, role@) by {
                assert(s.unsupported.contains(before[i]) || true);
                if before[i] == (bundle_id@, role@) {
                    if s.unsupported.len() == s.capacity {
                        assert(s.unsupported[i + 1] == before[i]);
                    } else {
                        assert(s.unsupported[i] == before[i]);
                    }
                }
            }
        }
    }

    /// Whether `role` in `bundle_id` is recorded as refusing Accessibility
    /// replacement.
    pub fn is_unsupported(&self, bundle_id: &str, role: &str) -> (r: bool)
        ensures
            r == self@.unsupported.contains((bundle_id@, role@)),
    {
        let b = bundle_id.to_owned();
        let rl = role.to_owned();
        let n = self.unsupported.len();
        let mut i: usize = 0;
        while i < n
            invariant
                n == self.unsupported@.len(),
                b@ == bundle_id@,
                rl@ == role@,
                0 <= i <= n,
                forall|j: int| 0 <= j < i ==> self@.unsupported[j] != (b@, rl@),
            decreases n - i,
        {
            let e = &self.unsupported[i];
            assert(self@.unsupported[i as int] == entry_view(self.unsupported@[i as int]));
            let same_app = e.0.eq(&b);
            let same_role = e.1.eq(&rl);
            assert(*e == self.unsupported@[i as int]);
            if same_app && same_role {
                assert(self@.unsupported[i as int] == (bundle_id@, role@));
                return true;
            }
            i = i + 1;
        }
        proof {
            if self@.unsupported.contains((bundle_id@, role@)) {
                let k = choose|k: int|
                    0 <= k < self@.unsupported.len() && self@.unsupported[k] == (bundle_id@, role@);
                assert(self@.unsupported[k] != (b@, rl@));
            }
        }
        false
    }

    /// Number of recorded entries.
    pub fn len(&self) -> (r: usize)
        ensures
            r == self@.unsupported.len(),
    {
        self.unsupported.len()
    }
}

/// A failure is remembered: once `role` in `app` is marked (and the cache
/// can hold anything), that pair is recorded and Accessibility is no longer
/// tried for it; the cache stays within its capacity and tracks `app`.
pub proof fn lemma_marked_pair_falls_back(v: CacheView, app: Seq<char>, role: Seq<char>)
    requires
        cache_ok(v),
        v.capacity > 0,
    ensures
        marked(v, app, role).unsupported.contains((app, role)),
        !spec_should_try_accessibility(marked(v, app, role), app, Some(role), false),
        marked(v, app, role).unsupported.len() <= v.capacity,
        marked(v, app, role).active_app == Some(app),
{
    let s = invalidated(v, app);
    let m = marked(v, app, role);
    if !s.unsupported.contains((app, role)) {
        assert(m.unsupported.last() == (app, role));
        assert(m.unsupported[m.unsupported.len() - 1] == (app, role));
    }
}

/// Switching applications forgets everything recorded for the previous one:
/// after the frontmost application becomes `app`, no pair of another
/// application is recorded.
pub proof fn lemma_app_change_forgets(v: CacheView, app: Seq<char>, other: Seq<char>, role: Seq<char>)
    requires
        cache_ok(v),
        other != app,
    ensures
        !invalidated(v, app).unsupported.contains((other, role)),
        cache_ok(invalidated(v, app)),
{
    let s = invalidated(v, app);
    if s.unsupported.contains((other, role)) {
        let k = choose|k: int| 0 <= k < s.unsupported.len() && s.unsupported[k] == (other, role);
        assert(v.active_app == Some(v.unsupported[k].0));
    }
}

/// Browsers, where replacing text through Accessibility conflicts with the
/// page's focus and selection.
pub open spec fn is_browser(bundle_id: Seq<char>) -> bool {
    bundle_id == "com.apple.Safari"@ || bundle_id == "com.google.Chrome"@ || bundle_id
        == "org.mozilla.firefox"@ || bundle_id == "com.microsoft.edgemac"@ || bundle_id
        == "com.operasoftware.Opera"@ || bundle_id == "company.thebrowser.Browser"@
}

/// Model of an optional string slice.
pub open spec fn opt_str_view(o: Option<&str>) -> Option<Seq<char>> {
    match o {
        Some(s) => Some(s@),
        None => None,
    }
}

/// Accessibility is tried unless the fallback is forced, the application
/// is a browser, the control role is unknown or a secure text field, or the
/// pair is recorded as unsupported.
pub open spec fn spec_should_try_accessibility(
    cache: CacheView,
    bundle_id: Seq<char>,
    role: Option<Seq<char>>,
    force_cgevent: bool,
) -> bool {
    &&& !force_cgevent
    &&& !is_browser(bundle_id)
    &&& role matches Some(r)
    &&& r != "AXSecureTextField"@
    &&& !cache.unsupported.contains((bundle_id, r))
}

/// Chooses between Accessibility replacement and synthesized key events.
pub struct ReplacementPolicy;

impl ReplacementPolicy {
    pub fn should_try_accessibility(
        cache: &ReplacementCapabilityCache,
        bundle_id: &str,
        role: Option<&str>,
        force_cgevent: bool,
    ) -> (r: bool)
        ensures
            r == spec_should_try_accessibility(cache@, bundle_id@, opt_str_view(role), force_cgevent),
    {
        if force_cgevent {
            return false;
        }
        if str_eq(bundle_id, "com.apple.Safari") || str_eq(bundle_id, "com.google.Chrome")
            || str_eq(bundle_id, "org.mozilla.firefox") || str_eq(bundle_id, "com.microsoft.edgemac")
            || str_eq(bundle_id, "com.operasoftware.Opera") || str_eq(
            bundle_id,
            "company.thebrowser.Browser",
        ) {
            return false;
        }
        let role = match role {
            Some(r) => r,
            None => {
                return false;
            },
        };
        if str_eq(role, "AXSecureTextField") {
            return false;
        }
        !cache.is_unsupported(bundle_id, role)
    }
}

/// One call made on a replacement backend.
pub enum BackendCall {
    /// An Accessibility attempt with its arguments and the backend's answer.
    Try { backspaces: nat, text: Seq<char>, succeeded: bool },
    /// Backspaces and text sent as key events.
    Send { backspaces: nat, text: Seq<char> },
}

/// The two ways a replacement can be delivered; implemented by the
/// platform layer.  `calls` is the record of the calls made on the backend,
/// oldest first; each method appends its own call.
pub trait ReplacementBackend {
    /// The calls made on this backend so far.
    spec fn calls(&self) -> Seq<BackendCall>;

    /// Replaces the `backspaces` characters before the caret by `text`
    /// through Accessibility; `true` when the control accepted it.
    fn try_accessibility(&mut self, backspaces: usize, text: &str) -> (r: bool)
        ensures
            final(self).calls() == old(self).calls().push(
                BackendCall::Try { backspaces: backspaces as nat, text: text@, succeeded: r },
            ),
    ;

    /// Sends `backspaces` backspaces and then `text` as key events.
    fn send_cgevent(&mut self, backspaces: usize, text: &str)
        ensures
            final(self).calls() == old(self).calls().push(
                BackendCall::Send { backspaces: backspaces as nat, text: text@ },
            ),
    ;
}

/// Whether Accessibility delivered a replacement, given whether it was
/// allowed and what the Accessibility attempt answered; when it did not, the
/// replacement goes out as key events.
pub fn delivered_by_accessibility(try_accessibility: bool, accessibility_succeeded: bool) -> (r:
    bool)
    ensures
        r == (try_accessibility && accessibility_succeeded),
{
    try_accessibility && accessibility_succeeded
}

/// The calls a replacement makes on the backend: one Accessibility attempt
/// when allowed, answered `delivered`; then, unless it delivered, one send of
/// the same backspaces and text as key events.
pub open spec fn fallback_calls(try_accessibility: bool, delivered: bool, backspaces: nat, text: Seq<
    char,
>) -> Seq<BackendCall> {
    let attempt = if try_accessibility {
        seq![BackendCall::Try { backspaces, text, succeeded: delivered }]
    } else {
        seq![]
    };
    let send = if delivered {
        seq![]
    } else {
        seq![BackendCall::Send { backspaces, text }]
    };
    attempt + send
}

/// Delivers a replacement: through Accessibility when allowed, falling back
/// to key events when Accessibility is not tried or fails.  Returns whether
/// Accessibility delivered it, which is the attempt's answer when it was
/// allowed and never otherwise; the backend records exactly those calls.
pub fn replace_with_fallback<B: ReplacementBackend>(
    backend: &mut B,
    try_accessibility: bool,
    backspaces: usize,
    text: &str,
) -> (r: bool)
    ensures
        r ==> try_accessibility,
        final(backend).calls() == old(backend).calls() + fallback_calls(
            try_accessibility,
            r,
            backspaces as nat,
            text@,
        ),
{
    let succeeded = if try_accessibility {
        backend.try_accessibility(backspaces, text)
    } else {
        false
    };
    let delivered = delivered_by_accessibility(try_accessibility, succeeded);
    if !delivered {
        backend.send_cgevent(backspaces, text);
    }
    proof {
        let f = fallback_calls(try_accessibility, delivered, backspaces as nat, text@);
        assert(backend.calls() =~= old(backend).calls() + f);
    }
    delivered
}

/// The cache after a replacement in `role` of `app`: invalidated for `app`,
/// and with the pair recorded when Accessibility was tried and failed.
pub open spec fn cache_after_delivery(
    v: CacheView,
    app: Seq<char>,
    role: Option<Seq<char>>,
    tried: bool,
    delivered: bool,
) -> CacheView {
    let s = invalidated(v, app);
    if tried && !delivered {
        match role {
            Some(r) => marked(s, app, r),
            None => s,
        }
    } else {
        s
    }
}

/// Whether Accessibility is tried for a replacement in `role` of `app`,
/// judged on the cache once it is invalidated for `app`.
pub open spec fn tried_for(v: CacheView, app: Seq<char>, role: Option<Seq<char>>, force_cgevent: bool) -> bool {
    spec_should_try_accessibility(invalidated(v, app), app, role, force_cgevent)
}

/// Delivers a replacement at the caret of the frontmost application: the
/// cache is first invalidated for `bundle_id`; Accessibility is tried when
/// the policy allows it for the focused control's `role`, with key events as
/// the fallback; a failed attempt records the pair as unsupported.  Returns
/// whether Accessibility delivered the replacement.
pub fn deliver_replacement<B: ReplacementBackend>(
    backend: &mut B,
    cache: &mut ReplacementCapabilityCache,
    bundle_id: &str,
    role: Option<&str>,
    force_cgevent: bool,
    backspaces: usize,
    text: &str,
) -> (r: bool)
    requires
        cache_ok(old(cache)@),
    ensures
        r ==> tried_for(old(cache)@, bundle_id@, opt_str_view(role), force_cgevent),
        final(backend).calls() == old(backend).calls() + fallback_calls(
            tried_for(old(cache)@, bundle_id@, opt_str_view(role), force_cgevent),
            r,
            backspaces as nat,
            text@,
        ),
        final(cache)@ == cache_after_delivery(
            old(cache)@,
            bundle_id@,
            opt_str_view(role),
            tried_for(old(cache)@, bundle_id@, opt_str_view(role), force_cgevent),
            r,
        ),
        cache_ok(final(cache)@),
{
    cache.invalidate_for_app(bundle_id);
    let tried = ReplacementPolicy::should_try_accessibility(cache, bundle_id, role, force_cgevent);
    let delivered = replace_with_fallback(backend, tried, backspaces, text);
    if tried && !delivered {
        match role {
            Some(r) => {
                cache.mark_unsupported(bundle_id, r);
            },
            None => {},
        }
    }
    delivered
}

/// macOS key codes of Return, Tab, Backspace, Escape, Home, Page Up,
/// Forward Delete, End, Page Down and the four arrows.
pub open spec fn is_reset_keycode(keycode: u16) -> bool {
    keycode == 36 || keycode == 48 || keycode == 51 || keycode == 53 || keycode == 115 || keycode
        == 116 || keycode == 117 || keycode == 119 || keycode == 121 || keycode == 123 || keycode
        == 124 || keycode == 125 || keycode == 126
}

/// Navigation and editing keys move the caret or edit the text, so the word
/// being composed must start again.
pub fn should_reset_for_keycode(keycode: u16) -> (r: bool)
    ensures
        r == is_reset_keycode(keycode),
{
    keycode == 36 || keycode == 48 || keycode == 51 || keycode == 53 || keycode == 115 || keycode
        == 116 || keycode == 117 || keycode == 119 || keycode == 121 || keycode == 123 || keycode
        == 124 || keycode == 125 || keycode == 126
}


// ---------------------------------------------------------------------------
// Accessibility replacement range and application detection.
// ---------------------------------------------------------------------------

/// A range of characters in a text control (location and length).
#[derive(Clone, Copy, Debug)]
pub struct CFRange {
    pub location: isize,
    pub length: isize,
}

/// Start of the range to select: `backspaces` characters before the caret,
/// or the start of the text.
pub open spec fn replacement_start(location: int, backspaces: int) -> int {
    if location >= backspaces {
        location - backspaces
    } else {
        0
    }
}

/// The range to select so that typing over it replaces the `backspaces`
/// characters before the selection together with the selection itself.
pub fn replacement_range(range: CFRange, backspaces: usize) -> (r: CFRange)
    requires
        backspaces <= isize::MAX,
        isize::MIN <= range.location - replacement_start(range.location as int, backspaces as int)
            + range.length <= isize::MAX,
    ensures
        r.location == replacement_start(range.location as int, backspaces as int),
        r.length == range.location - r.location + range.length,
{
    let bs = backspaces as isize;
    let new_location = if range.location >= bs {
        range.location - bs
    } else {
        0
    };
    let new_length = range.location - new_location + range.length;
    CFRange { location: new_location, length: new_length }
}

/// The selection to make before typing a replacement over it, or none when
/// the control reported an invalid range (a negative location or length, or
/// one whose replacement range does not fit), in which case the replacement
/// falls back to key events.
pub open spec fn spec_accessibility_selection(range: CFRange, backspaces: nat) -> Option<(int, int)> {
    let start = replacement_start(range.location as int, backspaces as int);
    let length = range.location - start + range.length;
    if range.location < 0 || range.length < 0 || length > isize::MAX {
        None
    } else {
        Some((start, length))
    }
}

/// The selection to make before typing a replacement (see
/// `spec_accessibility_selection`).
pub fn accessibility_selection(range: CFRange, backspaces: usize) -> (r: Option<CFRange>)
    ensures
        match r {
            Some(sel) => spec_accessibility_selection(range, backspaces as nat) == Some(
                (sel.location as int, sel.length as int),
            ),
            None => spec_accessibility_selection(range, backspaces as nat) is None,
        },
{
    if range.location < 0 || range.length < 0 {
        return None;
    }
    let before: usize = if range.location as usize >= backspaces {
        backspaces
    } else {
        range.location as usize
    };
    if range.length as usize > (isize::MAX as usize) - before {
        return None;
    }
    let b = before as isize;
    Some(CFRange { location: range.location - b, length: b + range.length })
}

/// Bundle ids of applications known to be built on Electron.
pub open spec fn known_electron_ids() -> Seq<Seq<char>> {
    seq![
        "com.microsoft.VSCode"@,
        "com.tinyspeck.slackmacgap"@,
        "com.hnc.Discord"@,
        "com.aversoft.Discord"@,
        "md.obsidian"@,
        "com.figma.Desktop"@,
        "com.electron.native-host"@,
    ]
}

/// Spotlight, or a bundle id that contains the id of a known Electron
/// application.
pub open spec fn spec_is_spotlight_or_electron_bundle(bundle_id: Seq<char>) -> bool {
    bundle_id == "com.apple.Spotlight"@ || exists|i: int|
        0 <= i < known_electron_ids().len() && contains_seq(
            bundle_id,
            #[trigger] known_electron_ids()[i],
        )
}

/// Whether the frontmost application, known by its bundle id, is Spotlight
/// or a known Electron application (the bundle contents are checked by the
/// caller).
pub fn is_spotlight_or_electron_bundle(bundle_id: &str) -> (r: bool)
    ensures
        r == spec_is_spotlight_or_electron_bundle(bundle_id@),
{
    if str_eq(bundle_id, "com.apple.Spotlight") {
        return true;
    }
    let ids = [
        "com.microsoft.VSCode",
        "com.tinyspeck.slackmacgap",
        "com.hnc.Discord",
        "com.aversoft.Discord",
        "md.obsidian",
        "com.figma.Desktop",
        "com.electron.native-host",
    ];
    let ghost k = known_electron_ids();
    assert(ids@.map_values(|s: &str| s@) =~= k);
    let mut i: usize = 0;
    while i < 7
        invariant
            0 <= i <= 7,
            k == known_electron_ids(),
            ids@.map_values(|s: &str| s@) == k,
            ids@.len() == 7,
            forall|j: int| 0 <= j < i ==> !contains_seq(bundle_id@, #[trigger] k[j]),
        decreases 7 - i,
    {
        assert(ids@[i as int]@ == k[i as int]);
        if str_contains(bundle_id, ids[i]) {
            return true;
        }
        i = i + 1;
    }
    false
}

/// `Path::join` of a relative path onto `base`: a `/` goes between them
/// unless `base` is empty or already ends with one.
pub open spec fn spec_join(base: Seq<char>, rel: Seq<char>) -> Seq<char> {
    if base.len() == 0 || base.last() == '/' {
        base + rel
    } else {
        base + seq!['/'] + rel
    }
}

fn join_path(base: &str, rel: &str) -> (r: String)
    ensures
        r@ == spec_join(base@, rel@),
{
    let mut out = str_chars(base);
    if out.len() > 0 && out[out.len() - 1] != '/' {
        out.push('/');
    }
    let tail = str_chars(rel);
    crate::text::extend_chars(&mut out, &tail);
    string_from_chars(&out)
}

/// The files whose presence inside an application bundle marks an Electron
/// application: the Electron framework and the `app.asar` archive.
pub open spec fn spec_electron_markers(bundle_path: Seq<char>) -> Seq<Seq<char>> {
    seq![
        spec_join(bundle_path, "Contents/Frameworks/Electron Framework.framework"@),
        spec_join(bundle_path, "Contents/Resources/app.asar"@),
    ]
}

/// The files to look for inside the bundle at `bundle_path` (see
/// `spec_electron_markers`).
pub fn electron_marker_paths(bundle_path: &str) -> (r: Vec<String>)
    ensures
        strings_view(r@) == spec_electron_markers(bundle_path@),
{
    let a = join_path(bundle_path, "Contents/Frameworks/Electron Framework.framework");
    let b = join_path(bundle_path, "Contents/Resources/app.asar");
    let mut v: Vec<String> = Vec::new();
    v.push(a);
    v.push(b);
    assert(strings_view(v@) =~= spec_electron_markers(bundle_path@));
    v
}

/// Whether the frontmost application is Spotlight or an Electron
/// application: by its bundle id, or because one of the marker files of
/// `electron_marker_paths` exists in its bundle (`has_electron_marker`).
/// Without a bundle id only the marker files count.
pub fn is_spotlight_or_electron_app(bundle_id: Option<&str>, has_electron_marker: bool) -> (r: bool)
    ensures
        r == ((bundle_id matches Some(id) && spec_is_spotlight_or_electron_bundle(id@))
            || has_electron_marker),
{
    match bundle_id {
        Some(id) => is_spotlight_or_electron_bundle(id) || has_electron_marker,
        None => has_electron_marker,
    }
}

/// The id of an input source names a Vietnamese method: in lowercase it
/// contains `vietnamese`, `telex` or `vni`.
pub open spec fn spec_is_vietnamese_input_source(id: Seq<char>) -> bool {
    let l = spec_str_lowercase(id);
    contains_seq(l, "vietnamese"@) || contains_seq(l, "telex"@) || contains_seq(l, "vni"@)
}

/// Whether the current keyboard input source, known by its id, is a
/// Vietnamese one (VNKey then stays out of the way).
pub fn is_vietnamese_input_source(id: &str) -> (r: bool)
    ensures
        r == spec_is_vietnamese_input_source(id@),
{
    let v = str_chars(id);
    let l = str_lowercase(&v);
    let a = str_chars("vietnamese");
    let b = str_chars("telex");
    let c = str_chars("vni");
    chars_contain(&l, &a) || chars_contain(&l, &b) || chars_contain(&l, &c)
}

/// Whether the current keyboard input source counts as English (VNKey types
/// only then): it does when its id could not be read, else unless the id
/// names a Vietnamese method.
pub fn is_english_ime(source_id: Option<&str>) -> (r: bool)
    ensures
        r == match source_id {
            Some(id) => !spec_is_vietnamese_input_source(id@),
            None => true,
        },
{
    match source_id {
        Some(id) => !is_vietnamese_input_source(id),
        None => true,
    }
}

/// The keys that reset the word before a replacement take in those that end
/// a word in the key handler (Escape, Return, Tab, Backspace), and no key
/// that types a letter or a digit is among them.
pub proof fn lemma_reset_keys_are_no_typing_keys(keycode: u16)
    ensures
        crate::hook::is_mac_word_reset_keycode(keycode as int) ==> is_reset_keycode(keycode),
        crate::hook::mac_keycode_key(keycode) is Some ==> !is_reset_keycode(keycode),
{
}

} // verus!
