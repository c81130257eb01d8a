//! VNKey: a Vietnamese input engine (Telex and VNI) with spelling checks,
//! plus the keyboard-hook decisions of the VNKey front ends.
pub mod apps;
pub mod compose;
pub mod hook;
pub mod linux_apps;
pub mod replacement;
pub mod settings;
pub mod spelling;
pub mod telex;
pub mod text;
pub mod tone;
pub mod tray;
pub mod vni;
pub mod win_apps;

use vstd::prelude::*;

use crate::compose::opt_chars;
use crate::spelling::{
    initial_consonant_prefix_chars, is_initial_consonant_prefix, is_intermediate_syllable,
    spec_detect_casing, spec_is_intermediate, spec_parse, spec_to_string, Casing, Syllable,
};
use crate::telex::{process_telex_chars, spec_process_telex};
use crate::text::{
    ascii_lower, chars_eq, is_alphabetic, is_alphanumeric, slice_chars,
    spec_ascii_lower, spec_is_alphabetic, spec_is_alphanumeric, spec_str_lowercase, str_chars,
    str_lowercase, string_from_chars,
};
use crate::tone::ToneStyle;
use crate::vni::{process_vni_chars, spec_process_vni};

verus! {

/// Input method of the engine.
#[derive(Debug, Clone, Copy, PartialEq, Eq, Structural)]
pub enum InputMethod {
    Off,
    Telex,
    Vni,
}

/// What the host should do with a key the engine has processed.
#[derive(Debug, Clone, PartialEq, Eq)]
pub enum EngineResult {
    /// Let the key pass through normally. The engine appends it to the buffer.
    Keep,
    /// Swallow the key, send backspaces to delete the current buffer, and inject the new text.
    Replace { backspaces: usize, text: String },
    /// Reset the active buffer. Let the key pass through normally.
    Reset,
}

/// Model of `EngineResult`.
pub enum EngineOutput {
    Keep,
    Replace(nat, Seq<char>),
    Reset,
}

impl View for EngineResult {
    type V = EngineOutput;

    open spec fn view(&self) -> EngineOutput {
        match self {
            EngineResult::Keep => EngineOutput::Keep,
            EngineResult::Replace { backspaces, text } => EngineOutput::Replace(
                *backspaces as nat,
                text@,
            ),
            EngineResult::Reset => EngineOutput::Reset,
        }
    }
}

// ---------------------------------------------------------------------------
// Minimal suffix edits.
// ---------------------------------------------------------------------------

/// Index of the first position at or after `i` where `a` and `b` differ or
/// one of them ends.
pub open spec fn common_prefix_from(a: Seq<char>, b: Seq<char>, i: int) -> int
    decreases a.len() - i,
{
    if 0 <= i < a.len() && i < b.len() && a[i] == b[i] {
        common_prefix_from(a, b, i + 1)
    } else {
        i
    }
}

/// Length of the longest common prefix of `a` and `b`.
pub open spec fn common_prefix_len(a: Seq<char>, b: Seq<char>) -> int {
    common_prefix_from(a, b, 0)
}

/// The edit that turns `old` into `new` by deleting the end of `old` after
/// their common prefix and typing the rest of `new`.
pub open spec fn spec_suffix_edit(old: Seq<char>, new: Seq<char>) -> (nat, Seq<char>) {
    let k = common_prefix_len(old, new);
    ((old.len() - k) as nat, new.skip(k))
}

/// The text left after `backspaces` deletions and typing `text`.
pub open spec fn apply_edit(old: Seq<char>, backspaces: nat, text: Seq<char>) -> Seq<char> {
    old.take(old.len() - backspaces) + text
}

proof fn lemma_common_prefix_from(a: Seq<char>, b: Seq<char>, i: int)
    requires
        0 <= i <= a.len(),
        i <= b.len(),
        forall|j: int| 0 <= j < i ==> a[j] == b[j],
    ensures
        ({
            let k = common_prefix_from(a, b, i);
            &&& i <= k <= a.len()
            &&& k <= b.len()
            &&& forall|j: int| 0 <= j < k ==> a[j] == b[j]
            &&& (k == a.len() || k == b.len() || a[k] != b[k])
        }),
    decreases a.len() - i,
{
    if i < a.len() && i < b.len() && a[i] == b[i] {
        lemma_common_prefix_from(a, b, i + 1);
    }
}

/// The common prefix is a prefix of both words, and it cannot be extended.
pub proof fn lemma_common_prefix(a: Seq<char>, b: Seq<char>)
    ensures
        ({
            let k = common_prefix_len(a, b);
            &&& 0 <= k <= a.len()
            &&& k <= b.len()
            &&& a.take(k) == b.take(k)
            &&& (k == a.len() || k == b.len() || a[k] != b[k])
        }),
{
    lemma_common_prefix_from(a, b, 0);
    let k = common_prefix_len(a, b);
    assert(a.take(k) =~= b.take(k));
}

/// Applying the edit of `minimal_suffix_edit` to `old` gives `new`, it never
/// deletes more than `old` holds, and no edit with fewer deletions turns
/// `old` into `new`.
pub proof fn lemma_suffix_edit_is_minimal(old: Seq<char>, new: Seq<char>)
    ensures
        ({
            let (bs, text) = spec_suffix_edit(old, new);
            &&& bs <= old.len()
            &&& apply_edit(old, bs, text) == new
            &&& forall|fewer: nat, t: Seq<char>|
                fewer < bs ==> #[trigger] apply_edit(old, fewer, t) != new
        }),
{
    lemma_common_prefix(old, new);
    let k = common_prefix_len(old, new);
    let (bs, text) = spec_suffix_edit(old, new);
    assert(apply_edit(old, bs, text) =~= new) by {
        assert(old.take(k) =~= new.take(k));
    }
    assert forall|fewer: nat, t: Seq<char>| fewer < bs implies #[trigger] apply_edit(
        old,
        fewer,
        t,
    ) != new by {
        let kept = old.take(old.len() - fewer);
        if apply_edit(old, fewer, t) == new {
            assert(kept.len() > k);
            assert(new[k] == apply_edit(old, fewer, t)[k]);
            assert(apply_edit(old, fewer, t)[k] == old[k]);
        }
    }
}

/// The edit between two words held as characters.
pub fn suffix_edit_chars(old: &[char], new: &[char]) -> (r: (usize, Vec<char>))
    ensures
        (r.0 as nat, r.1@) == spec_suffix_edit(old@, new@),
{
    let mut i: usize = 0;
    while i < old.len() && i < new.len() && old[i] == new[i]
        invariant
            0 <= i <= old.len(),
            i <= new.len(),
            common_prefix_from(old@, new@, i as int) == common_prefix_len(old@, new@),
        decreases old.len() - i,
    {
        i = i + 1;
    }
    let text = slice_chars(new, i, new.len());
    assert(text@ =~= new@.skip(i as int));
    (old.len() - i, text)
}

/// The fewest backspaces and the text to type that turn `old` into `new`.
pub fn minimal_suffix_edit(old: &str, new: &str) -> (r: (usize, String))
    ensures
        (r.0 as nat, r.1@) == spec_suffix_edit(old@, new@),
{
    let o = str_chars(old);
    let n = str_chars(new);
    let (bs, text) = suffix_edit_chars(&o, &n);
    (bs, string_from_chars(&text))
}

/// The result that replaces `old` by `new` on screen.
pub open spec fn replace_output(old: Seq<char>, new: Seq<char>) -> EngineOutput {
    let (bs, t) = spec_suffix_edit(old, new);
    EngineOutput::Replace(bs, t)
}

fn replace_result(old: &[char], new: &[char]) -> (r: EngineResult)
    ensures
        r@ == replace_output(old@, new@),
{
    let (backspaces, text) = suffix_edit_chars(old, new);
    EngineResult::Replace { backspaces, text: string_from_chars(&text) }
}

// ---------------------------------------------------------------------------
// Configuration and state.
// ---------------------------------------------------------------------------

/// Engine configuration.
#[derive(Debug, Clone, Copy)]
pub struct EngineConfig {
    pub method: InputMethod,
    pub tone_style: ToneStyle,
    pub spelling_check: bool,
}

impl Default for EngineConfig {
    fn default() -> (r: Self)
        ensures
            r.method == InputMethod::Telex,
            r.tone_style == ToneStyle::Modern,
            r.spelling_check,
    {
        Self { method: InputMethod::Telex, tone_style: ToneStyle::Modern, spelling_check: true }
    }
}

/// The typing engine: the word being composed (`buffer`, as shown), the
/// keys typed for it (`raw_buffer`), and the configuration.
pub struct Engine {
    buffer: Vec<char>,
    raw_buffer: Vec<char>,
    config: EngineConfig,
}

/// Model of the engine state.
pub struct EngineView {
    pub buffer: Seq<char>,
    pub raw: Seq<char>,
    pub config: EngineConfig,
}

impl View for Engine {
    type V = EngineView;

    closed spec fn view(&self) -> EngineView {
        EngineView { buffer: self.buffer@, raw: self.raw_buffer@, config: self.config }
    }
}

impl Engine {
    pub fn new(config: EngineConfig) -> (r: Self)
        ensures
            r@.buffer.len() == 0,
            r@.raw.len() == 0,
            r@.config == config,
    {
        Self { buffer: Vec::new(), raw_buffer: Vec::new(), config }
    }

    /// Installs a new configuration and starts a new word.
    pub fn update_config(&mut self, config: EngineConfig)
        ensures
            final(self)@.buffer.len() == 0,
            final(self)@.raw.len() == 0,
            final(self)@.config == config,
    {
        self.config = config;
        self.reset();
    }

    /// Starts a new word.
    pub fn reset(&mut self)
        ensures
            final(self)@.buffer.len() == 0,
            final(self)@.raw.len() == 0,
            final(self)@.config == old(self)@.config,
    {
        self.buffer = Vec::new();
        self.raw_buffer = Vec::new();
    }

    /// The word being composed, as shown.
    pub fn get_buffer(&self) -> (r: String)
        ensures
            r@ == self@.buffer,
    {
        string_from_chars(&self.buffer)
    }
}


// ---------------------------------------------------------------------------
// Spelling checks on the buffer.
// ---------------------------------------------------------------------------

/// Lowest split point tried when a word is cut into syllables: at most the
/// last seven characters form the right part.
pub open spec fn split_floor(len: int) -> int {
    if len >= 7 {
        len - 7
    } else {
        0
    }
}

/// `s` is empty, one syllable, or a completed sequence followed by a
/// syllable of at most seven characters.
pub open spec fn spec_completed_sequence(s: Seq<char>) -> bool
    decreases s.len(), 8int,
{
    s.len() == 0 || spec_parse(s) is Some || completed_split(s, s.len() as int)
}

/// Some split point `j` with `split_floor(s.len()) <= j < i` leaves a
/// completed sequence on the left and a syllable on the right.
pub open spec fn completed_split(s: Seq<char>, i: int) -> bool
    decreases s.len(), i - split_floor(s.len() as int),
{
    if i <= split_floor(s.len() as int) || i > s.len() {
        false
    } else {
        let j = i - 1;
        (spec_completed_sequence(s.take(j)) && spec_parse(s.skip(j)) is Some) || completed_split(
            s,
            j,
        )
    }
}

/// `s` can still grow into a syllable: it is empty, a syllable, or (in
/// lowercase) the beginning of an initial consonant.
pub open spec fn spec_syllable_prefix(s: Seq<char>) -> bool {
    s.len() == 0 || spec_parse(s) is Some || is_initial_consonant_prefix(spec_str_lowercase(s))
}

/// The buffer is spelled acceptably: empty, a syllable, or a completed
/// sequence followed by the beginning of a syllable of at most seven
/// characters.
pub open spec fn spec_spelling_valid(s: Seq<char>) -> bool {
    s.len() == 0 || spec_parse(s) is Some || validity_split(s, s.len() as int)
}

pub open spec fn validity_split(s: Seq<char>, i: int) -> bool
    decreases i - split_floor(s.len() as int),
{
    if i <= split_floor(s.len() as int) || i > s.len() {
        false
    } else {
        let j = i - 1;
        ((j == 0 || spec_completed_sequence(s.take(j))) && spec_syllable_prefix(s.skip(j)))
            || validity_split(s, j)
    }
}

fn is_completed_syllable_sequence(text: &[char]) -> (r: bool)
    ensures
        r == spec_completed_sequence(text@),
    decreases text.len(),
{
    if text.len() == 0 {
        return true;
    }
    if Syllable::parse_chars(text).is_some() {
        return true;
    }
    let len = text.len();
    let start = if len >= 7 { len - 7 } else { 0 };
    let mut i = len;
    while i > start
        invariant
            start == split_floor(len as int),
            len == text.len(),
            start <= i <= len,
            completed_split(text@, len as int) == completed_split(text@, i as int),
        decreases i,
    {
        let j = i - 1;
        let left = slice_chars(text, 0, j);
        let right = slice_chars(text, j, len);
        assert(left@ =~= text@.take(j as int));
        assert(right@ =~= text@.skip(j as int));
        if is_completed_syllable_sequence(&left) && Syllable::parse_chars(&right).is_some() {
            return true;
        }
        i = j;
    }
    false
}

fn is_syllable_prefix(text: &[char]) -> (r: bool)
    ensures
        r == spec_syllable_prefix(text@),
{
    if text.len() == 0 {
        return true;
    }
    if Syllable::parse_chars(text).is_some() {
        return true;
    }
    let lower = str_lowercase(text);
    initial_consonant_prefix_chars(&lower)
}

fn check_spelling_validity(buffer: &[char]) -> (r: bool)
    ensures
        r == spec_spelling_valid(buffer@),
{
    if buffer.len() == 0 {
        return true;
    }
    if Syllable::parse_chars(buffer).is_some() {
        return true;
    }
    let len = buffer.len();
    let start = if len >= 7 { len - 7 } else { 0 };
    let mut i = len;
    while i > start
        invariant
            start == split_floor(len as int),
            len == buffer.len(),
            start <= i <= len,
            validity_split(buffer@, len as int) == validity_split(buffer@, i as int),
        decreases i,
    {
        let j = i - 1;
        let left = slice_chars(buffer, 0, j);
        let right = slice_chars(buffer, j, len);
        assert(left@ =~= buffer@.take(j as int));
        assert(right@ =~= buffer@.skip(j as int));
        if (left.len() == 0 || is_completed_syllable_sequence(&left)) && is_syllable_prefix(&right) {
            return true;
        }
        i = j;
    }
    false
}

// ---------------------------------------------------------------------------
// Processing a key.
// ---------------------------------------------------------------------------

/// Keys that drive the rules of the input method (they never complete an
/// intermediate syllable as plain letters).
pub open spec fn is_control_key(method: InputMethod, lc: char) -> bool {
    match method {
        InputMethod::Telex => lc == 'a' || lc == 's' || lc == 'e' || lc == 'o' || lc == 'j' || lc
            == 'w' || lc == 'd' || lc == 'f' || lc == 'x' || lc == 'r' || lc == 'z',
        InputMethod::Vni => '1' <= lc && lc <= '9',
        InputMethod::Off => false,
    }
}

/// `s` ends with the character `c`.
pub open spec fn ends_with_char(s: Seq<char>, c: char) -> bool {
    s.len() > 0 && s.last() == c
}

/// The word the input method makes of the buffer and the key.
pub open spec fn spec_method_word(cfg: EngineConfig, buffer: Seq<char>, raw: Seq<char>, c: char) -> Option<
    Seq<char>,
> {
    match cfg.method {
        InputMethod::Telex => spec_process_telex(
            buffer,
            raw,
            c,
            cfg.tone_style,
            cfg.spelling_check,
        ),
        InputMethod::Vni => spec_process_vni(buffer, c, cfg.tone_style, cfg.spelling_check),
        InputMethod::Off => None,
    }
}

/// The buffer after a plain letter, rewritten through its syllable when the
/// letter changes where the tone belongs (`gir` + `a` gives `giả`); `None`
/// when nothing is rewritten.
pub open spec fn spec_reconstruct(b1: Seq<char>, c: char, style: ToneStyle) -> Option<Seq<char>> {
    if spec_is_alphabetic(c) {
        match spec_parse(b1) {
            Some(syl) => {
                let r = spec_to_string(syl, style, spec_detect_casing(b1));
                if r != b1 {
                    Some(r)
                } else {
                    None
                }
            },
            None => None,
        }
    } else {
        None
    }
}

/// One key on the engine: the next state and what the host should do.
///
/// With the engine off every key is kept and nothing changes.  A letter or
/// digit that is no rule key, typed after an intermediate syllable (such as
/// `tiên` typed as `tien`), gives the typed keys back.  A key that is neither
/// a letter nor a digit ends the word; with the spelling check on, a word
/// that is no sequence of syllables is given back as typed, followed by the
/// key itself, so that the key is not lost.  Otherwise the
/// input method rewrites the word, or the key is appended (and the word
/// re-toned if that moves the tone); with the spelling check on, a result
/// that cannot grow into a valid word is given back as typed and the word
/// ends.  A rewrite that ends with the key itself (an escape) becomes the
/// new record of typed keys.
pub open spec fn spec_process_key(s: EngineView, c: char) -> (EngineView, EngineOutput) {
    let cfg = s.config;
    let b = s.buffer;
    let raw = s.raw;
    let cleared = EngineView { buffer: Seq::empty(), raw: Seq::empty(), config: cfg };
    if cfg.method == InputMethod::Off {
        (s, EngineOutput::Keep)
    } else if b.len() > 0 && spec_is_alphanumeric(c) && (spec_parse(b) matches Some(syl)
        && spec_is_intermediate(syl)) && !is_control_key(cfg.method, spec_ascii_lower(c)) {
        if b == raw {
            (EngineView { buffer: seq![c], raw: seq![c], config: cfg }, EngineOutput::Keep)
        } else {
            (cleared, replace_output(b, raw.push(c)))
        }
    } else if !spec_is_alphanumeric(c) {
        if cfg.spelling_check && b.len() > 0 && !spec_completed_sequence(b) && b != raw {
            (cleared, replace_output(b, raw.push(c)))
        } else {
            (cleared, EngineOutput::Reset)
        }
    } else {
        let raw1 = raw.push(c);
        match spec_method_word(cfg, b, raw1, c) {
            Some(w) => {
                let esc = ends_with_char(spec_str_lowercase(w), spec_ascii_lower(c));
                if !esc && cfg.spelling_check && w.len() > 0 && !spec_spelling_valid(w) {
                    if w == raw1 {
                        (cleared, EngineOutput::Reset)
                    } else {
                        (cleared, replace_output(b, raw1))
                    }
                } else {
                    (
                        EngineView {
                            buffer: w,
                            raw: if esc {
                                w
                            } else {
                                raw1
                            },
                            config: cfg,
                        },
                        replace_output(b, w),
                    )
                }
            },
            None => {
                let b1 = b.push(c);
                let recon = spec_reconstruct(b1, c, cfg.tone_style);
                let b2 = match recon {
                    Some(r) => r,
                    None => b1,
                };
                if cfg.spelling_check && b2.len() > 0 && !spec_spelling_valid(b2) {
                    if b2 == raw1 {
                        (cleared, EngineOutput::Reset)
                    } else {
                        (cleared, replace_output(b, raw1))
                    }
                } else if recon is Some {
                    (EngineView { buffer: b2, raw: raw1, config: cfg }, replace_output(b, b2))
                } else {
                    (EngineView { buffer: b2, raw: raw1, config: cfg }, EngineOutput::Keep)
                }
            },
        }
    }
}

fn is_control_key_exec(method: InputMethod, lc: char) -> (r: bool)
    ensures
        r == is_control_key(method, lc),
{
    match method {
        InputMethod::Telex => lc == 'a' || lc == 's' || lc == 'e' || lc == 'o' || lc == 'j' || lc
            == 'w' || lc == 'd' || lc == 'f' || lc == 'x' || lc == 'r' || lc == 'z',
        InputMethod::Vni => '1' <= lc && lc <= '9',
        InputMethod::Off => false,
    }
}

fn reconstruct(b1: &[char], c: char, style: ToneStyle) -> (r: Option<Vec<char>>)
    ensures
        opt_chars(r) == spec_reconstruct(b1@, c, style),
{
    if is_alphabetic(c) {
        match Syllable::parse_chars(b1) {
            Some(syl) => {
                let casing = Casing::detect_chars(b1);
                let r = syl.to_chars(style, casing);
                if !chars_eq(&r, b1) {
                    Some(r)
                } else {
                    None
                }
            },
            None => None,
        }
    } else {
        None
    }
}

impl Engine {
    fn clear(&mut self)
        ensures
            final(self)@.buffer.len() == 0,
            final(self)@.raw.len() == 0,
            final(self)@.config == old(self)@.config,
    {
        self.buffer = Vec::new();
        self.raw_buffer = Vec::new();
    }

    /// Process one key.
    pub fn process_key(&mut self, c: char) -> (r: EngineResult)
        ensures
            (final(self)@, r@) == spec_process_key(old(self)@, c),
    {
        let ghost s0 = self@;
        let cfg = self.config;
        if cfg.method == InputMethod::Off {
            return EngineResult::Keep;
        }
        // Retroactive check of an intermediate syllable.

        let alnum = is_alphanumeric(c);
        if self.buffer.len() > 0 && alnum {
            if let Some(syl) = Syllable::parse_chars(&self.buffer) {
                if is_intermediate_syllable(&syl) {
                    let lower_c = ascii_lower(c);
                    if !is_control_key_exec(cfg.method, lower_c) {
                        if chars_eq(&self.buffer, &self.raw_buffer) {
                            self.clear();
                            self.raw_buffer.push(c);
                            self.buffer.push(c);
                            assert(self@.buffer =~= seq![c]);
                            assert(self@.raw =~= seq![c]);
                            return EngineResult::Keep;
                        }
                        let mut new_word = slice_chars(&self.raw_buffer, 0, self.raw_buffer.len());
                        new_word.push(c);
                        assert(new_word@ =~= s0.raw.push(c));
                        let res = replace_result(&self.buffer, &new_word);
                        self.clear();
                        assert(self@.buffer =~= Seq::<char>::empty());
                        assert(self@.raw =~= Seq::<char>::empty());
                        return res;
                    }
                }
            }
        }
        // A word boundary.

        if !alnum {
            if cfg.spelling_check && self.buffer.len() > 0 && !is_completed_syllable_sequence(
                &self.buffer,
            ) && !chars_eq(&self.buffer, &self.raw_buffer) {
                let mut restored = slice_chars(&self.raw_buffer, 0, self.raw_buffer.len());
                restored.push(c);
                assert(restored@ =~= s0.raw.push(c));
                let res = replace_result(&self.buffer, &restored);
                self.clear();
                assert(self@.buffer =~= Seq::<char>::empty());
                assert(self@.raw =~= Seq::<char>::empty());
                return res;
            }
            self.clear();
            assert(self@.buffer =~= Seq::<char>::empty());
            assert(self@.raw =~= Seq::<char>::empty());
            return EngineResult::Reset;
        }
        let old_buffer = slice_chars(&self.buffer, 0, self.buffer.len());
        assert(old_buffer@ =~= s0.buffer);
        self.raw_buffer.push(c);
        let process_result = match cfg.method {
            InputMethod::Telex => process_telex_chars(
                &old_buffer,
                &self.raw_buffer,
                c,
                cfg.tone_style,
                cfg.spelling_check,
            ),
            InputMethod::Vni => process_vni_chars(
                &old_buffer,
                c,
                cfg.tone_style,
                cfg.spelling_check,
            ),
            InputMethod::Off => None,
        };
        match process_result {
            Some(new_word) => {
                let lower_c = ascii_lower(c);
                let lw = str_lowercase(&new_word);
                let is_escape = lw.len() > 0 && lw[lw.len() - 1] == lower_c;
                if !is_escape && cfg.spelling_check && new_word.len() > 0
                    && !check_spelling_validity(&new_word) {
                    if chars_eq(&new_word, &self.raw_buffer) {
                        self.clear();
                        assert(self@.buffer =~= Seq::<char>::empty());
                        assert(self@.raw =~= Seq::<char>::empty());
                        return EngineResult::Reset;
                    }
                    let res = replace_result(&old_buffer, &self.raw_buffer);
                    self.clear();
                    assert(self@.buffer =~= Seq::<char>::empty());
                    assert(self@.raw =~= Seq::<char>::empty());
                    return res;
                }
                let res = replace_result(&old_buffer, &new_word);
                if is_escape {
                    self.raw_buffer = slice_chars(&new_word, 0, new_word.len());
                    assert(self.raw_buffer@ =~= new_word@);
                }
                self.buffer = new_word;
                res
            },
            None => {
                self.buffer.push(c);
                let recon = reconstruct(&self.buffer, c, cfg.tone_style);
                let did_reconstruct = recon.is_some();
                match recon {
                    Some(r) => {
                        self.buffer = r;
                    },
                    None => {},
                }
                if cfg.spelling_check && self.buffer.len() > 0 && !check_spelling_validity(
                    &self.buffer,
                ) {
                    if chars_eq(&self.buffer, &self.raw_buffer) {
                        self.clear();
                        assert(self@.buffer =~= Seq::<char>::empty());
                        assert(self@.raw =~= Seq::<char>::empty());
                        return EngineResult::Reset;
                    }
                    let res = replace_result(&old_buffer, &self.raw_buffer);
                    self.clear();
                    assert(self@.buffer =~= Seq::<char>::empty());
                    assert(self@.raw =~= Seq::<char>::empty());
                    return res;
                }
                if did_reconstruct {
                    replace_result(&old_buffer, &self.buffer)
                } else {
                    EngineResult::Keep
                }
            },
        }
    }
}


// ---------------------------------------------------------------------------
// Laws of the engine.
// ---------------------------------------------------------------------------

/// The text the host shows for the current word after acting on a result:
/// a kept or reset key is typed after the old word; a replacement deletes
/// `backspaces` characters of the old word and types its text.
pub open spec fn shown_after(old: Seq<char>, out: EngineOutput, c: char) -> Seq<char> {
    match out {
        EngineOutput::Keep => old.push(c),
        EngineOutput::Reset => old.push(c),
        EngineOutput::Replace(bs, t) => apply_edit(old, bs, t),
    }
}

/// With the engine on, the host can always follow the engine: a
/// replacement never deletes more characters than the word holds, and after
/// every key the engine's word is the end of what the host shows (all of it,
/// or nothing when a word ended).  A kept key extends the word by that key,
/// or starts a new word with it; a reset leaves no word.
pub proof fn lemma_host_text_tracks_buffer(s: EngineView, c: char)
    requires
        s.config.method != InputMethod::Off,
    ensures
        ({
            let (s2, out) = spec_process_key(s, c);
            &&& (out matches EngineOutput::Replace(bs, _) ==> bs <= s.buffer.len())
            &&& s2.buffer.is_suffix_of(shown_after(s.buffer, out, c))
            &&& (s2.buffer.len() == 0 || s2.buffer == shown_after(s.buffer, out, c)
                || (out is Keep && s2.buffer == seq![c]))
            &&& (out is Keep ==> s2.buffer == s.buffer.push(c) || s2.buffer == seq![c])
            &&& (out is Reset ==> s2.buffer.len() == 0)
        }),
{
    let (s2, out) = spec_process_key(s, c);
    let b = s.buffer;
    let raw = s.raw;
    lemma_suffix_edit_is_minimal(b, raw);
    lemma_suffix_edit_is_minimal(b, raw.push(c));
    let raw1 = raw.push(c);
    match spec_method_word(s.config, b, raw1, c) {
        Some(w) => {
            lemma_suffix_edit_is_minimal(b, w);
        },
        None => {
            let b1 = b.push(c);
            match spec_reconstruct(b1, c, s.config.tone_style) {
                Some(r) => {
                    lemma_suffix_edit_is_minimal(b, r);
                },
                None => {},
            }
        },
    }
    let shown = shown_after(b, out, c);
    if s2.buffer.len() == 0 {
        assert(s2.buffer =~= shown.subrange(shown.len() as int, shown.len() as int));
    } else if s2.buffer == shown {
        assert(s2.buffer =~= shown.subrange(0, shown.len() as int));
    } else {
        assert(out is Keep && s2.buffer =~= seq![c]);
        assert(s2.buffer =~= shown.subrange(shown.len() - 1, shown.len() as int));
    }
}

/// With the engine off, every key is kept and the state does not change.
pub proof fn lemma_off_passes_keys_through(s: EngineView, c: char)
    requires
        s.config.method == InputMethod::Off,
    ensures
        spec_process_key(s, c) == (s, EngineOutput::Keep),
{
}

/// A key that is neither a letter nor a digit ends the word: the engine
/// keeps no word and no typed keys, keeps its configuration, and answers
/// either a reset (the key then passes through) or a replacement that gives
/// back the typed keys followed by this key (the key is then swallowed and
/// typed as part of the replacement).
pub proof fn lemma_word_boundary_ends_word(s: EngineView, c: char)
    requires
        s.config.method != InputMethod::Off,
        !spec_is_alphanumeric(c),
    ensures
        ({
            let (s2, out) = spec_process_key(s, c);
            &&& s2.buffer.len() == 0
            &&& s2.raw.len() == 0
            &&& s2.config == s.config
            &&& (out is Reset || out == replace_output(s.buffer, s.raw.push(c)))
        }),
{
}

/// The configuration never changes while typing.
pub proof fn lemma_keys_keep_configuration(s: EngineView, c: char)
    ensures
        spec_process_key(s, c).0.config == s.config,
{
}

} // verus!
