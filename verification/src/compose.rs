//! Pieces shared by the Telex and VNI keystroke rules: placing a tone on the
//! syllable of the buffer, and the outcome of an accent modifier.
use vstd::prelude::*;

use crate::spelling::{
    is_intermediate_syllable, spec_is_intermediate, spec_detect_casing, spec_parse, spec_to_string, Casing, Syllable,
    SyllableView, Tone,
};
use crate::text::{eq1, eq2, extend_chars, is1, is2, slice_chars};
use crate::tone::ToneStyle;

verus! {

/// Model of an optional word held as characters.
pub open spec fn opt_chars(o: Option<Vec<char>>) -> Option<Seq<char>> {
    match o {
        Some(v) => Some(v@),
        None => None,
    }
}

/// Model of the outcome of a rule stage: `None` when the stage does not
/// apply and the next stage is tried, `Some(r)` when the rule answers `r`.
pub open spec fn opt_opt_chars(o: Option<Option<Vec<char>>>) -> Option<Option<Seq<char>>> {
    match o {
        Some(x) => Some(opt_chars(x)),
        None => None,
    }
}

/// The syllable with another vowel group.
pub open spec fn with_vowels(syl: SyllableView, v: Seq<char>) -> SyllableView {
    SyllableView { vowels: v, ..syl }
}

/// The syllable with another initial consonant.
pub open spec fn with_initial(syl: SyllableView, i: Seq<char>) -> SyllableView {
    SyllableView { initial: i, ..syl }
}

/// The syllable with another tone.
pub open spec fn with_tone(syl: SyllableView, t: Tone) -> SyllableView {
    SyllableView { tone: t, ..syl }
}

/// The syllable rewritten in the casing of the buffer it was read from.
pub open spec fn rewritten(syl: SyllableView, style: ToneStyle, buffer: Seq<char>) -> Seq<char> {
    spec_to_string(syl, style, spec_detect_casing(buffer))
}

/// The syllable rewritten in the casing of the buffer, followed by the key
/// itself: the result of undoing a mark by pressing its key again.
pub open spec fn restored(syl: SyllableView, style: ToneStyle, buffer: Seq<char>, c: char) -> Seq<
    char,
> {
    rewritten(syl, style, buffer).push(c)
}

/// A final consonant that takes only the `sắc` and `nặng` tones
/// (`c`, `ch`, `p`, `t`) refuses tone `t`.
pub open spec fn final_blocks_tone(fin: Seq<char>, t: Tone) -> bool {
    fin.len() > 0 && (is1(fin, 'c') || is2(fin, 'c', 'h') || is1(fin, 'p') || is1(fin, 't'))
        && t != Tone::Sac && t != Tone::Nang && t != Tone::Ngang
}

/// Pressing the key of tone `t` on the buffer.  Nothing applies when the
/// buffer is no syllable.  With the spelling check on, a stop final that
/// refuses the tone, or an intermediate syllable (one that is not yet a
/// Vietnamese rhyme, such as `viet`), leaves the key unhandled so that it is
/// typed as a letter.  Pressing the tone the
/// syllable already has removes it and types the key; any other tone
/// replaces the syllable's tone.
pub open spec fn spec_tone_stage(
    buffer: Seq<char>,
    c: char,
    t: Tone,
    style: ToneStyle,
    spelling_check: bool,
) -> Option<Option<Seq<char>>> {
    match spec_parse(buffer) {
        None => None,
        Some(syl) => if spelling_check && (final_blocks_tone(syl.final_consonant, t)
            || spec_is_intermediate(syl)) {
            Some(None)
        } else if syl.tone == t {
            Some(Some(restored(with_tone(syl, Tone::Ngang), style, buffer, c)))
        } else {
            Some(Some(rewritten(with_tone(syl, t), style, buffer)))
        },
    }
}

/// Outcome of an accent modifier key.
pub enum Edit {
    /// The rule answers this word.
    Return(Vec<char>),
    /// The buffer was changed into this word, to be normalised.
    Updated(Vec<char>),
    /// The rule does not apply.
    Unchanged,
}

/// Model of `Edit`.
pub enum EditView {
    Return(Seq<char>),
    Updated(Seq<char>),
    Unchanged,
}

pub open spec fn edit_view(e: Edit) -> EditView {
    match e {
        Edit::Return(v) => EditView::Return(v@),
        Edit::Updated(v) => EditView::Updated(v@),
        Edit::Unchanged => EditView::Unchanged,
    }
}

/// A changed buffer is rewritten through its syllable when it is one, so
/// that the tone sits where the new vowels want it.
pub open spec fn spec_normalize(u: Seq<char>, style: ToneStyle) -> Seq<char> {
    match spec_parse(u) {
        Some(s2) => spec_to_string(s2, style, spec_detect_casing(u)),
        None => u,
    }
}

/// The answer of the modifier stage for an edit.
pub open spec fn spec_edit_answer(e: EditView, style: ToneStyle) -> Option<Option<Seq<char>>> {
    match e {
        EditView::Return(r) => Some(Some(r)),
        EditView::Updated(u) => Some(Some(spec_normalize(u, style))),
        EditView::Unchanged => None,
    }
}

pub fn rewrite(syl: &Syllable, style: ToneStyle, buffer: &[char]) -> (r: Vec<char>)
    ensures
        r@ == rewritten(syl@, style, buffer@),
{
    let casing = Casing::detect_chars(buffer);
    syl.to_chars(style, casing)
}

pub fn restore(syl: &Syllable, style: ToneStyle, buffer: &[char], c: char) -> (r: Vec<char>)
    ensures
        r@ == restored(syl@, style, buffer@, c),
{
    let mut r = rewrite(syl, style, buffer);
    r.push(c);
    r
}

fn final_blocks_tone_exec(fin: &[char], t: Tone) -> (r: bool)
    ensures
        r == final_blocks_tone(fin@, t),
{
    fin.len() > 0 && (eq1(fin, 'c') || eq2(fin, 'c', 'h') || eq1(fin, 'p') || eq1(fin, 't'))
        && t != Tone::Sac && t != Tone::Nang && t != Tone::Ngang
}

pub fn tone_stage(buffer: &[char], c: char, t: Tone, style: ToneStyle, spelling_check: bool) -> (r:
    Option<Option<Vec<char>>>)
    ensures
        opt_opt_chars(r) == spec_tone_stage(buffer@, c, t, style, spelling_check),
{
    match Syllable::parse_chars(buffer) {
        None => None,
        Some(mut syl) => {
            if spelling_check && (final_blocks_tone_exec(&syl.final_consonant, t)
                || is_intermediate_syllable(&syl)) {
                return Some(None);
            }
            if syl.tone == t {
                syl.tone = Tone::Ngang;
                Some(Some(restore(&syl, style, buffer, c)))
            } else {
                syl.tone = t;
                Some(Some(rewrite(&syl, style, buffer)))
            }
        },
    }
}

pub fn normalize(u: Vec<char>, style: ToneStyle) -> (r: Vec<char>)
    ensures
        r@ == spec_normalize(u@, style),
{
    match Syllable::parse_chars(&u) {
        Some(s2) => rewrite(&s2, style, &u),
        None => u,
    }
}

pub fn edit_answer(e: Edit, style: ToneStyle) -> (r: Option<Option<Vec<char>>>)
    ensures
        opt_opt_chars(r) == spec_edit_answer(edit_view(e), style),
{
    match e {
        Edit::Return(r) => Some(Some(r)),
        Edit::Updated(u) => Some(Some(normalize(u, style))),
        Edit::Unchanged => None,
    }
}

/// `u` when `upper`, else `l`.
pub open spec fn pick(upper: bool, u: char, l: char) -> char {
    if upper {
        u
    } else {
        l
    }
}

/// `s` without its last character, then `cs` appended.
pub open spec fn replace_last(s: Seq<char>, cs: Seq<char>) -> Seq<char> {
    s.take(s.len() - 1) + cs
}

/// `s` without its last two characters, then `cs` appended.
pub open spec fn replace_last_two(s: Seq<char>, cs: Seq<char>) -> Seq<char> {
    s.take(s.len() - 2) + cs
}

/// Copies `s` without its last `k` characters, then appends `cs`.
pub fn replace_tail(s: &[char], k: usize, cs: &[char]) -> (r: Vec<char>)
    requires
        k <= s.len(),
    ensures
        r@ == s@.take(s.len() - k) + cs@,
{
    let mut r = slice_chars(s, 0, s.len() - k);
    assert(r@ =~= s@.take(s.len() - k));
    extend_chars(&mut r, cs);
    r
}

} // verus!
