//! Telex keystroke rules.
use vstd::prelude::*;

use crate::compose::{
    edit_answer, edit_view, opt_chars, opt_opt_chars, pick, replace_last, replace_last_two,
    replace_tail, restore, restored, rewrite, rewritten, spec_edit_answer, spec_tone_stage,
    tone_stage, with_initial, with_vowels, Edit, EditView,
};
use crate::spelling::{spec_parse, spec_vowel_variant, Syllable, SyllableView, Tone};
use crate::text::{
    ascii_lower, chars1, chars2, chars3, eq1, eq2, eq3, is1, is2, is3, is_uppercase, lower_char,
    slice_chars, spec_ascii_lower, spec_is_uppercase, spec_lower_char, spec_str_lowercase,
    str_chars, str_lowercase, string_from_chars,
};
use crate::tone::ToneStyle;

verus! {

/// The Telex tone keys: `s f r x j z`.
pub open spec fn is_telex_tone_key(k: char) -> bool {
    k == 's' || k == 'f' || k == 'r' || k == 'x' || k == 'j' || k == 'z'
}

/// The tone of a Telex tone key (`z` removes the tone).
pub open spec fn telex_key_tone(k: char) -> Tone {
    if k == 's' {
        Tone::Sac
    } else if k == 'f' {
        Tone::Huyen
    } else if k == 'r' {
        Tone::Hoi
    } else if k == 'x' {
        Tone::Nga
    } else if k == 'j' {
        Tone::Nang
    } else {
        Tone::Ngang
    }
}

/// The Telex accent modifier keys: `a e o d w`.
pub open spec fn is_telex_modifier_key(k: char) -> bool {
    k == 'a' || k == 'e' || k == 'o' || k == 'd' || k == 'w'
}

/// `dd` typed on its own: `d` becomes `đ`; a lone `đ` goes back to `dd`.
pub open spec fn spec_dd_stage(buffer: Seq<char>, lc: char) -> Option<Option<Seq<char>>> {
    if lc == 'd' && buffer.len() == 1 {
        let last = buffer[0];
        let ll = spec_lower_char(last);
        let up = spec_is_uppercase(last);
        if ll == 'd' {
            Some(Some(seq![pick(up, 'Đ', 'đ')]))
        } else if ll == 'đ' {
            Some(Some(if up {
                seq!['D', 'D']
            } else {
                seq!['d', 'd']
            }))
        } else {
            None
        }
    } else {
        None
    }
}

/// Index of the first vowel at or after `i` that the circumflex key acts on:
/// `plain`, `hat`, or (when `breve`) `ă`.
pub open spec fn hat_candidate_from(v: Seq<char>, plain: char, hat: char, breve: bool, i: int) -> int
    decreases v.len() - i,
{
    if i >= v.len() {
        v.len() as int
    } else if v[i] == plain || v[i] == hat || (breve && v[i] == 'ă') {
        i
    } else {
        hat_candidate_from(v, plain, hat, breve, i + 1)
    }
}

/// The circumflex keys `a`, `e`, `o` on a syllable.  On an open syllable the
/// last vowel is toggled between `plain` and `hat` (toggling back types the
/// key).  Otherwise, when the key cannot simply be appended as a letter, the
/// first vowel the key acts on gets the circumflex (`ă` too, for `a`), or
/// loses it.
pub open spec fn spec_hat_edit(
    syl: SyllableView,
    buffer: Seq<char>,
    c: char,
    plain: char,
    hat: char,
    breve: bool,
    style: ToneStyle,
) -> EditView {
    let v = syl.vowels;
    let n = v.len();
    if syl.final_consonant.len() == 0 && n > 0 && v[n - 1] == plain {
        EditView::Updated(rewritten(with_vowels(syl, v.update(n - 1, hat)), style, buffer))
    } else if syl.final_consonant.len() == 0 && n > 0 && v[n - 1] == hat {
        EditView::Return(restored(with_vowels(syl, v.update(n - 1, plain)), style, buffer, c))
    } else if spec_parse(buffer.push(c)) is None {
        let k = hat_candidate_from(v, plain, hat, breve, 0);
        if k >= n {
            EditView::Unchanged
        } else if v[k] == hat {
            EditView::Return(restored(with_vowels(syl, v.update(k, plain)), style, buffer, c))
        } else {
            EditView::Updated(rewritten(with_vowels(syl, v.update(k, hat)), style, buffer))
        }
    } else {
        EditView::Unchanged
    }
}

/// Vowel groups that a `w` takes back to plain vowels (the key is typed).
pub open spec fn w_escape_target(v: Seq<char>) -> Option<Seq<char>> {
    if is2(v, 'ư', 'ơ') {
        Some(seq!['u', 'o'])
    } else if is3(v, 'ư', 'ơ', 'i') {
        Some(seq!['u', 'o', 'i'])
    } else if is2(v, 'ư', 'a') {
        Some(seq!['u', 'a'])
    } else if is2(v, 'ơ', 'i') {
        Some(seq!['o', 'i'])
    } else if is2(v, 'ư', 'i') {
        Some(seq!['u', 'i'])
    } else if is1(v, 'ơ') {
        Some(seq!['o'])
    } else if is1(v, 'ư') {
        Some(seq!['u'])
    } else if is3(v, 'ư', 'ơ', 'u') {
        Some(seq!['u', 'o', 'u'])
    } else if is2(v, 'o', 'ă') {
        Some(seq!['o', 'a'])
    } else if is1(v, 'ă') {
        Some(seq!['a'])
    } else {
        None
    }
}

/// Vowel groups that a `w` gives a horn or a breve.
pub open spec fn w_horn_target(v: Seq<char>) -> Option<Seq<char>> {
    if is2(v, 'u', 'o') || is2(v, 'ư', 'o') || is2(v, 'u', 'ơ') {
        Some(seq!['ư', 'ơ'])
    } else if is2(v, 'u', 'a') {
        Some(seq!['ư', 'a'])
    } else if is2(v, 'o', 'a') {
        Some(seq!['o', 'ă'])
    } else if is3(v, 'u', 'o', 'u') || is3(v, 'ư', 'o', 'u') || is3(v, 'u', 'ơ', 'u') {
        Some(seq!['ư', 'ơ', 'u'])
    } else if is3(v, 'u', 'o', 'i') || is3(v, 'ư', 'o', 'i') || is3(v, 'u', 'ơ', 'i') {
        Some(seq!['ư', 'ơ', 'i'])
    } else if is2(v, 'o', 'i') {
        Some(seq!['ơ', 'i'])
    } else if is2(v, 'u', 'i') {
        Some(seq!['ư', 'i'])
    } else if is1(v, 'o') {
        Some(seq!['ơ'])
    } else if is1(v, 'u') {
        Some(seq!['ư'])
    } else if is1(v, 'a') || is1(v, 'â') {
        Some(seq!['ă'])
    } else {
        None
    }
}

/// The `w` key on a syllable: a second `w` after a lone `w`→`ư` gives back
/// `w`; horned or breved groups lose the mark (and the key is typed); plain
/// groups get the horn or breve.
pub open spec fn spec_w_edit(
    syl: SyllableView,
    buffer: Seq<char>,
    raw: Seq<char>,
    c: char,
    style: ToneStyle,
) -> EditView {
    let v = syl.vowels;
    if is1(v, 'ư') && is2(spec_str_lowercase(raw), 'w', 'w') {
        EditView::Return(seq![pick(buffer[0] == 'Ư', 'W', 'w')])
    } else {
        match w_escape_target(v) {
            Some(t) => EditView::Return(restored(with_vowels(syl, t), style, buffer, c)),
            None => match w_horn_target(v) {
                Some(t) => EditView::Updated(rewritten(with_vowels(syl, t), style, buffer)),
                None => EditView::Unchanged,
            },
        }
    }
}

/// A modifier key acting on the syllable of the buffer.
pub open spec fn spec_telex_syllable_edit(
    syl: SyllableView,
    buffer: Seq<char>,
    raw: Seq<char>,
    c: char,
    lc: char,
    style: ToneStyle,
) -> EditView {
    if lc == 'd' {
        if is1(syl.initial, 'd') {
            EditView::Updated(rewritten(with_initial(syl, seq!['đ']), style, buffer))
        } else if is1(syl.initial, 'đ') {
            EditView::Return(restored(with_initial(syl, seq!['d']), style, buffer, c))
        } else {
            EditView::Unchanged
        }
    } else if lc == 'o' {
        spec_hat_edit(syl, buffer, c, 'o', 'ô', false, style)
    } else if lc == 'e' {
        spec_hat_edit(syl, buffer, c, 'e', 'ê', false, style)
    } else if lc == 'a' {
        spec_hat_edit(syl, buffer, c, 'a', 'â', true, style)
    } else {
        spec_w_edit(syl, buffer, raw, c, style)
    }
}

/// A circumflex-style key acting on the last character of the buffer:
/// `plain` gets the mark, a marked character loses it and the key is typed.
pub open spec fn spec_raw_hat(
    buffer: Seq<char>,
    c: char,
    plain: char,
    plain_up: char,
    hat: char,
    hat_up: char,
) -> EditView {
    let last = buffer.last();
    let ll = spec_lower_char(last);
    let up = spec_is_uppercase(last);
    if ll == plain {
        EditView::Updated(replace_last(buffer, seq![pick(up, hat_up, hat)]))
    } else if ll == hat {
        EditView::Return(replace_last(buffer, seq![pick(up, plain_up, plain), c]))
    } else {
        EditView::Unchanged
    }
}

/// The `w` key acting on the last characters of the buffer.
pub open spec fn spec_raw_w(buffer: Seq<char>, c: char) -> EditView {
    let n = buffer.len();
    let last = buffer.last();
    let ll = spec_lower_char(last);
    let up = spec_is_uppercase(last);
    if ll == 'ă' {
        EditView::Return(replace_last(buffer, seq![pick(up, 'A', 'a'), c]))
    } else if ll == 'ơ' {
        if n >= 2 && spec_ascii_lower(buffer[n - 2]) == 'ư' {
            EditView::Return(
                replace_last_two(
                    buffer,
                    seq![pick(spec_is_uppercase(buffer[n - 2]), 'U', 'u'), pick(up, 'O', 'o'), c],
                ),
            )
        } else {
            EditView::Return(replace_last(buffer, seq![pick(up, 'O', 'o'), c]))
        }
    } else if ll == 'ư' {
        EditView::Return(replace_last(buffer, seq![pick(up, 'U', 'u'), c]))
    } else if ll == 'u' {
        if n >= 2 && spec_ascii_lower(buffer[n - 2]) == 'o' {
            EditView::Updated(
                replace_last_two(
                    buffer,
                    seq![pick(spec_is_uppercase(buffer[n - 2]), 'Ư', 'ư'), pick(up, 'Ơ', 'ơ')],
                ),
            )
        } else {
            EditView::Updated(replace_last(buffer, seq![pick(up, 'Ư', 'ư')]))
        }
    } else if ll == 'o' {
        if n >= 2 && spec_ascii_lower(buffer[n - 2]) == 'u' {
            EditView::Updated(
                replace_last_two(
                    buffer,
                    seq![pick(spec_is_uppercase(buffer[n - 2]), 'Ư', 'ư'), pick(up, 'Ơ', 'ơ')],
                ),
            )
        } else {
            EditView::Updated(replace_last(buffer, seq![pick(up, 'Ơ', 'ơ')]))
        }
    } else if ll == 'a' {
        EditView::Updated(replace_last(buffer, seq![pick(up, 'Ă', 'ă')]))
    } else {
        EditView::Unchanged
    }
}

/// A modifier key acting on the raw characters of the buffer, when the
/// syllable rules did not apply.
pub open spec fn spec_telex_raw_edit(buffer: Seq<char>, c: char, lc: char) -> EditView {
    if lc == 'a' {
        spec_raw_hat(buffer, c, 'a', 'A', 'â', 'Â')
    } else if lc == 'e' {
        spec_raw_hat(buffer, c, 'e', 'E', 'ê', 'Ê')
    } else if lc == 'o' {
        spec_raw_hat(buffer, c, 'o', 'O', 'ô', 'Ô')
    } else if lc == 'd' {
        spec_raw_hat(buffer, c, 'd', 'D', 'đ', 'Đ')
    } else {
        spec_raw_w(buffer, c)
    }
}

/// The accent modifier stage: syllable rules first, raw rules as fallback.
pub open spec fn spec_telex_modifier_stage(
    buffer: Seq<char>,
    raw: Seq<char>,
    c: char,
    lc: char,
    style: ToneStyle,
) -> Option<Option<Seq<char>>> {
    if is_telex_modifier_key(lc) && buffer.len() > 0 {
        let e1 = match spec_parse(buffer) {
            Some(syl) => spec_telex_syllable_edit(syl, buffer, raw, c, lc, style),
            None => EditView::Unchanged,
        };
        let e = match e1 {
            EditView::Unchanged => spec_telex_raw_edit(buffer, c, lc),
            _ => e1,
        };
        spec_edit_answer(e, style)
    } else {
        None
    }
}

/// A Telex keypress on the current word buffer: the new word when the key is
/// a rule of Telex that applies, `None` when the key should be typed as is.
/// The stages are tried in turn: tone keys, a lone `dd`, accent modifiers,
/// and a `w` on an empty buffer, which types `ư`.
pub open spec fn spec_process_telex(
    buffer: Seq<char>,
    raw: Seq<char>,
    c: char,
    style: ToneStyle,
    spelling_check: bool,
) -> Option<Seq<char>> {
    let lc = spec_ascii_lower(c);
    let tone = if is_telex_tone_key(lc) {
        spec_tone_stage(buffer, c, telex_key_tone(lc), style, spelling_check)
    } else {
        None
    };
    match tone {
        Some(r) => r,
        None => match spec_dd_stage(buffer, lc) {
            Some(r) => r,
            None => match spec_telex_modifier_stage(buffer, raw, c, lc, style) {
                Some(r) => r,
                None => if lc == 'w' && buffer.len() == 0 {
                    Some(seq![pick(spec_is_uppercase(c), 'Ư', 'ư')])
                } else {
                    None
                },
            },
        },
    }
}

fn telex_key_tone_exec(k: char) -> (r: Tone)
    ensures
        r == telex_key_tone(k),
{
    if k == 's' {
        Tone::Sac
    } else if k == 'f' {
        Tone::Huyen
    } else if k == 'r' {
        Tone::Hoi
    } else if k == 'x' {
        Tone::Nga
    } else if k == 'j' {
        Tone::Nang
    } else {
        Tone::Ngang
    }
}

fn dd_stage(buffer: &[char], lc: char) -> (r: Option<Option<Vec<char>>>)
    ensures
        opt_opt_chars(r) == spec_dd_stage(buffer@, lc),
{
    if lc == 'd' && buffer.len() == 1 {
        let last = buffer[0];
        let ll = lower_char(last);
        let up = is_uppercase(last);
        if ll == 'd' {
            return Some(Some(chars1(if up { 'Đ' } else { 'đ' })));
        } else if ll == 'đ' {
            return Some(Some(if up { chars2('D', 'D') } else { chars2('d', 'd') }));
        }
    }
    None
}

fn hat_candidate(v: &[char], plain: char, hat: char, breve: bool) -> (r: usize)
    ensures
        r as int == hat_candidate_from(v@, plain, hat, breve, 0),
        r <= v.len(),
{
    let mut i: usize = 0;
    while i < v.len()
        invariant
            0 <= i <= v.len(),
            hat_candidate_from(v@, plain, hat, breve, i as int) == hat_candidate_from(
                v@,
                plain,
                hat,
                breve,
                0,
            ),
        decreases v.len() - i,
    {
        if v[i] == plain || v[i] == hat || (breve && v[i] == 'ă') {
            return i;
        }
        i = i + 1;
    }
    i
}

fn hat_edit(
    syl: Syllable,
    buffer: &[char],
    c: char,
    plain: char,
    hat: char,
    breve: bool,
    style: ToneStyle,
) -> (r: Edit)
    ensures
        edit_view(r) == spec_hat_edit(syl@, buffer@, c, plain, hat, breve, style),
{
    let ghost s0 = syl@;
    let mut syl = syl;
    let n = syl.vowels.len();
    if syl.final_consonant.len() == 0 && n > 0 && syl.vowels[n - 1] == plain {
        syl.vowels.set(n - 1, hat);
        assert(syl@ == with_vowels(s0, s0.vowels.update(n - 1, hat)));
        return Edit::Updated(rewrite(&syl, style, buffer));
    }
    if syl.final_consonant.len() == 0 && n > 0 && syl.vowels[n - 1] == hat {
        syl.vowels.set(n - 1, plain);
        assert(syl@ == with_vowels(s0, s0.vowels.update(n - 1, plain)));
        return Edit::Return(restore(&syl, style, buffer, c));
    }
    let mut next = slice_chars(buffer, 0, buffer.len());
    next.push(c);
    assert(next@ =~= buffer@.push(c));
    if Syllable::parse_chars(&next).is_none() {
        let k = hat_candidate(&syl.vowels, plain, hat, breve);
        if k >= n {
            return Edit::Unchanged;
        }
        if syl.vowels[k] == hat {
            syl.vowels.set(k, plain);
            assert(syl@ == with_vowels(s0, s0.vowels.update(k as int, plain)));
            return Edit::Return(restore(&syl, style, buffer, c));
        }
        syl.vowels.set(k, hat);
        assert(syl@ == with_vowels(s0, s0.vowels.update(k as int, hat)));
        return Edit::Updated(rewrite(&syl, style, buffer));
    }
    Edit::Unchanged
}

fn w_escape_target_exec(v: &[char]) -> (r: Option<Vec<char>>)
    ensures
        opt_chars(r) == w_escape_target(v@),
{
    if eq2(v, 'ư', 'ơ') {
        Some(chars2('u', 'o'))
    } else if eq3(v, 'ư', 'ơ', 'i') {
        Some(chars3('u', 'o', 'i'))
    } else if eq2(v, 'ư', 'a') {
        Some(chars2('u', 'a'))
    } else if eq2(v, 'ơ', 'i') {
        Some(chars2('o', 'i'))
    } else if eq2(v, 'ư', 'i') {
        Some(chars2('u', 'i'))
    } else if eq1(v, 'ơ') {
        Some(chars1('o'))
    } else if eq1(v, 'ư') {
        Some(chars1('u'))
    } else if eq3(v, 'ư', 'ơ', 'u') {
        Some(chars3('u', 'o', 'u'))
    } else if eq2(v, 'o', 'ă') {
        Some(chars2('o', 'a'))
    } else if eq1(v, 'ă') {
        Some(chars1('a'))
    } else {
        None
    }
}

fn w_horn_target_exec(v: &[char]) -> (r: Option<Vec<char>>)
    ensures
        opt_chars(r) == w_horn_target(v@),
{
    if eq2(v, 'u', 'o') || eq2(v, 'ư', 'o') || eq2(v, 'u', 'ơ') {
        Some(chars2('ư', 'ơ'))
    } else if eq2(v, 'u', 'a') {
        Some(chars2('ư', 'a'))
    } else if eq2(v, 'o', 'a') {
        Some(chars2('o', 'ă'))
    } else if eq3(v, 'u', 'o', 'u') || eq3(v, 'ư', 'o', 'u') || eq3(v, 'u', 'ơ', 'u') {
        Some(chars3('ư', 'ơ', 'u'))
    } else if eq3(v, 'u', 'o', 'i') || eq3(v, 'ư', 'o', 'i') || eq3(v, 'u', 'ơ', 'i') {
        Some(chars3('ư', 'ơ', 'i'))
    } else if eq2(v, 'o', 'i') {
        Some(chars2('ơ', 'i'))
    } else if eq2(v, 'u', 'i') {
        Some(chars2('ư', 'i'))
    } else if eq1(v, 'o') {
        Some(chars1('ơ'))
    } else if eq1(v, 'u') {
        Some(chars1('ư'))
    } else if eq1(v, 'a') || eq1(v, 'â') {
        Some(chars1('ă'))
    } else {
        None
    }
}

fn w_edit(syl: Syllable, buffer: &[char], raw: &[char], c: char, style: ToneStyle) -> (r: Edit)
    requires
        buffer.len() > 0,
    ensures
        edit_view(r) == spec_w_edit(syl@, buffer@, raw@, c, style),
{
    let ghost s0 = syl@;
    let mut syl = syl;
    if eq1(&syl.vowels, 'ư') {
        let lr = str_lowercase(raw);
        if eq2(&lr, 'w', 'w') {
            return Edit::Return(chars1(if buffer[0] == 'Ư' { 'W' } else { 'w' }));
        }
    }
    match w_escape_target_exec(&syl.vowels) {
        Some(t) => {
            syl.vowels = t;
            assert(syl@ == with_vowels(s0, syl@.vowels));
            Edit::Return(restore(&syl, style, buffer, c))
        },
        None => match w_horn_target_exec(&syl.vowels) {
            Some(t) => {
                syl.vowels = t;
                assert(syl@ == with_vowels(s0, syl@.vowels));
                Edit::Updated(rewrite(&syl, style, buffer))
            },
            None => Edit::Unchanged,
        },
    }
}

fn telex_syllable_edit(
    syl: Syllable,
    buffer: &[char],
    raw: &[char],
    c: char,
    lc: char,
    style: ToneStyle,
) -> (r: Edit)
    requires
        buffer.len() > 0,
    ensures
        edit_view(r) == spec_telex_syllable_edit(syl@, buffer@, raw@, c, lc, style),
{
    let ghost s0 = syl@;
    let mut syl = syl;
    if lc == 'd' {
        if eq1(&syl.initial, 'd') {
            syl.initial = chars1('đ');
            assert(syl@ == with_initial(s0, seq!['đ']));
            Edit::Updated(rewrite(&syl, style, buffer))
        } else if eq1(&syl.initial, 'đ') {
            syl.initial = chars1('d');
            assert(syl@ == with_initial(s0, seq!['d']));
            Edit::Return(restore(&syl, style, buffer, c))
        } else {
            Edit::Unchanged
        }
    } else if lc == 'o' {
        hat_edit(syl, buffer, c, 'o', 'ô', false, style)
    } else if lc == 'e' {
        hat_edit(syl, buffer, c, 'e', 'ê', false, style)
    } else if lc == 'a' {
        hat_edit(syl, buffer, c, 'a', 'â', true, style)
    } else {
        w_edit(syl, buffer, raw, c, style)
    }
}

fn raw_hat(buffer: &[char], c: char, plain: char, plain_up: char, hat: char, hat_up: char) -> (r:
    Edit)
    requires
        buffer.len() > 0,
    ensures
        edit_view(r) == spec_raw_hat(buffer@, c, plain, plain_up, hat, hat_up),
{
    let last = buffer[buffer.len() - 1];
    let ll = lower_char(last);
    let up = is_uppercase(last);
    if ll == plain {
        Edit::Updated(replace_tail(buffer, 1, &chars1(if up { hat_up } else { hat })))
    } else if ll == hat {
        Edit::Return(replace_tail(buffer, 1, &chars2(if up { plain_up } else { plain }, c)))
    } else {
        Edit::Unchanged
    }
}

fn raw_w(buffer: &[char], c: char) -> (r: Edit)
    requires
        buffer.len() > 0,
    ensures
        edit_view(r) == spec_raw_w(buffer@, c),
{
    let n = buffer.len();
    let last = buffer[n - 1];
    let ll = lower_char(last);
    let up = is_uppercase(last);
    if ll == 'ă' {
        Edit::Return(replace_tail(buffer, 1, &chars2(if up { 'A' } else { 'a' }, c)))
    } else if ll == 'ơ' {
        if n >= 2 && ascii_lower(buffer[n - 2]) == 'ư' {
            let up2 = is_uppercase(buffer[n - 2]);
            Edit::Return(
                replace_tail(
                    buffer,
                    2,
                    &chars3(if up2 { 'U' } else { 'u' }, if up { 'O' } else { 'o' }, c),
                ),
            )
        } else {
            Edit::Return(replace_tail(buffer, 1, &chars2(if up { 'O' } else { 'o' }, c)))
        }
    } else if ll == 'ư' {
        Edit::Return(replace_tail(buffer, 1, &chars2(if up { 'U' } else { 'u' }, c)))
    } else if ll == 'u' {
        if n >= 2 && ascii_lower(buffer[n - 2]) == 'o' {
            let up2 = is_uppercase(buffer[n - 2]);
            Edit::Updated(
                replace_tail(
                    buffer,
                    2,
                    &chars2(if up2 { 'Ư' } else { 'ư' }, if up { 'Ơ' } else { 'ơ' }),
                ),
            )
        } else {
            Edit::Updated(replace_tail(buffer, 1, &chars1(if up { 'Ư' } else { 'ư' })))
        }
    } else if ll == 'o' {
        if n >= 2 && ascii_lower(buffer[n - 2]) == 'u' {
            let up2 = is_uppercase(buffer[n - 2]);
            Edit::Updated(
                replace_tail(
                    buffer,
                    2,
                    &chars2(if up2 { 'Ư' } else { 'ư' }, if up { 'Ơ' } else { 'ơ' }),
                ),
            )
        } else {
            Edit::Updated(replace_tail(buffer, 1, &chars1(if up { 'Ơ' } else { 'ơ' })))
        }
    } else if ll == 'a' {
        Edit::Updated(replace_tail(buffer, 1, &chars1(if up { 'Ă' } else { 'ă' })))
    } else {
        Edit::Unchanged
    }
}

fn telex_raw_edit(buffer: &[char], c: char, lc: char) -> (r: Edit)
    requires
        buffer.len() > 0,
    ensures
        edit_view(r) == spec_telex_raw_edit(buffer@, c, lc),
{
    if lc == 'a' {
        raw_hat(buffer, c, 'a', 'A', 'â', 'Â')
    } else if lc == 'e' {
        raw_hat(buffer, c, 'e', 'E', 'ê', 'Ê')
    } else if lc == 'o' {
        raw_hat(buffer, c, 'o', 'O', 'ô', 'Ô')
    } else if lc == 'd' {
        raw_hat(buffer, c, 'd', 'D', 'đ', 'Đ')
    } else {
        raw_w(buffer, c)
    }
}

fn telex_modifier_stage(buffer: &[char], raw: &[char], c: char, lc: char, style: ToneStyle) -> (r:
    Option<Option<Vec<char>>>)
    ensures
        opt_opt_chars(r) == spec_telex_modifier_stage(buffer@, raw@, c, lc, style),
{
    if !((lc == 'a' || lc == 'e' || lc == 'o' || lc == 'd' || lc == 'w') && buffer.len() > 0) {
        return None;
    }
    let e1 = match Syllable::parse_chars(buffer) {
        Some(syl) => telex_syllable_edit(syl, buffer, raw, c, lc, style),
        None => Edit::Unchanged,
    };
    let e = match e1 {
        Edit::Unchanged => telex_raw_edit(buffer, c, lc),
        _ => e1,
    };
    edit_answer(e, style)
}

/// Process a Telex keypress on the current word buffer held as characters.
pub fn process_telex_chars(
    buffer: &[char],
    raw_buffer: &[char],
    new_char: char,
    tone_style: ToneStyle,
    spelling_check: bool,
) -> (r: Option<Vec<char>>)
    ensures
        opt_chars(r) == spec_process_telex(
            buffer@,
            raw_buffer@,
            new_char,
            tone_style,
            spelling_check,
        ),
{
    let lc = ascii_lower(new_char);
    if lc == 's' || lc == 'f' || lc == 'r' || lc == 'x' || lc == 'j' || lc == 'z' {
        let t = telex_key_tone_exec(lc);
        match tone_stage(buffer, new_char, t, tone_style, spelling_check) {
            Some(r) => {
                return r;
            },
            None => {},
        }
    }
    match dd_stage(buffer, lc) {
        Some(r) => {
            return r;
        },
        None => {},
    }
    match telex_modifier_stage(buffer, raw_buffer, new_char, lc, tone_style) {
        Some(r) => {
            return r;
        },
        None => {},
    }
    if lc == 'w' && buffer.len() == 0 {
        return Some(chars1(if is_uppercase(new_char) { 'Ư' } else { 'ư' }));
    }
    None
}

/// Model of an optional string.
pub open spec fn opt_string_view(o: Option<String>) -> Option<Seq<char>> {
    match o {
        Some(s) => Some(s@),
        None => None,
    }
}

/// Process a Telex keypress on the current word buffer.
/// Returns the new reconstructed word if processed, or `None` if the key
/// should be treated normally.
pub fn process_telex(
    buffer: &str,
    raw_buffer: &str,
    new_char: char,
    tone_style: ToneStyle,
    spelling_check: bool,
) -> (r: Option<String>)
    ensures
        opt_string_view(r) == spec_process_telex(
            buffer@,
            raw_buffer@,
            new_char,
            tone_style,
            spelling_check,
        ),
{
    let b = str_chars(buffer);
    let rb = str_chars(raw_buffer);
    match process_telex_chars(&b, &rb, new_char, tone_style, spelling_check) {
        Some(v) => Some(string_from_chars(&v)),
        None => None,
    }
}

/// The Telex tone keys name the columns of the vowel table in the order
/// `s f r x j` (sắc, huyền, hỏi, ngã, nặng), so that on `a` they give
/// á, à, ả, ã, ạ; `z` and every other key give the level tone.
pub proof fn lemma_telex_tone_keys(k: char)
    ensures
        k == 's' ==> telex_key_tone(k).offset() == 1 && spec_vowel_variant('a', telex_key_tone(k))
            == 'á',
        k == 'f' ==> telex_key_tone(k).offset() == 2 && spec_vowel_variant('a', telex_key_tone(k))
            == 'à',
        k == 'r' ==> telex_key_tone(k).offset() == 3 && spec_vowel_variant('a', telex_key_tone(k))
            == 'ả',
        k == 'x' ==> telex_key_tone(k).offset() == 4 && spec_vowel_variant('a', telex_key_tone(k))
            == 'ã',
        k == 'j' ==> telex_key_tone(k).offset() == 5 && spec_vowel_variant('a', telex_key_tone(k))
            == 'ạ',
        !(k == 's' || k == 'f' || k == 'r' || k == 'x' || k == 'j') ==> telex_key_tone(k)
            == Tone::Ngang,
{
}

/// The `w` key puts the horn on `u` and `o` and the breve on `a` of a plain
/// vowel group, completing a half-horned `ươ`:
/// `uo ưo uơ` → `ươ`, `ua` → `ưa`, `oa` → `oă`, `uou ưou uơu` → `ươu`,
/// `uoi ưoi uơi` → `ươi`, `oi` → `ơi`, `ui` → `ưi`, `o` → `ơ`, `u` → `ư`,
/// `a` and `â` → `ă`; no other group gets a mark.
pub proof fn lemma_w_horn_targets(v: Seq<char>)
    ensures
        (v =~= seq!['u', 'o'] || v =~= seq!['ư', 'o'] || v =~= seq!['u', 'ơ']) ==> w_horn_target(v)
            == Some(seq!['ư', 'ơ']),
        v =~= seq!['u', 'a'] ==> w_horn_target(v) == Some(seq!['ư', 'a']),
        v =~= seq!['o', 'a'] ==> w_horn_target(v) == Some(seq!['o', 'ă']),
        (v =~= seq!['u', 'o', 'u'] || v =~= seq!['ư', 'o', 'u'] || v =~= seq!['u', 'ơ', 'u'])
            ==> w_horn_target(v) == Some(seq!['ư', 'ơ', 'u']),
        (v =~= seq!['u', 'o', 'i'] || v =~= seq!['ư', 'o', 'i'] || v =~= seq!['u', 'ơ', 'i'])
            ==> w_horn_target(v) == Some(seq!['ư', 'ơ', 'i']),
        v =~= seq!['o', 'i'] ==> w_horn_target(v) == Some(seq!['ơ', 'i']),
        v =~= seq!['u', 'i'] ==> w_horn_target(v) == Some(seq!['ư', 'i']),
        v =~= seq!['o'] ==> w_horn_target(v) == Some(seq!['ơ']),
        v =~= seq!['u'] ==> w_horn_target(v) == Some(seq!['ư']),
        (v =~= seq!['a'] || v =~= seq!['â']) ==> w_horn_target(v) == Some(seq!['ă']),
        !(v =~= seq!['u', 'o'] || v =~= seq!['ư', 'o'] || v =~= seq!['u', 'ơ'] || v =~= seq![
            'u',
            'a',
        ] || v =~= seq!['o', 'a'] || v =~= seq!['u', 'o', 'u'] || v =~= seq!['ư', 'o', 'u']
            || v =~= seq!['u', 'ơ', 'u'] || v =~= seq!['u', 'o', 'i'] || v =~= seq!['ư', 'o', 'i']
            || v =~= seq!['u', 'ơ', 'i'] || v =~= seq!['o', 'i'] || v =~= seq!['u', 'i'] || v
            =~= seq!['o'] || v =~= seq!['u'] || v =~= seq!['a'] || v =~= seq!['â']) ==> w_horn_target(
            v,
        ) is None,
{
}

/// A mark the `w` key puts on a plain vowel group (one without `ư ơ ă â`)
/// is taken off again by the next `w`: the escape gives the plain group back.
pub proof fn lemma_w_escape_undoes_horn(v: Seq<char>)
    requires
        forall|i: int| 0 <= i < v.len() ==> v[i] != 'ư' && v[i] != 'ơ' && v[i] != 'ă' && v[i]
            != 'â',
        w_horn_target(v) is Some,
    ensures
        w_escape_target(w_horn_target(v).unwrap()) == Some(v),
{
    if v.len() == 1 {
        assert(v =~= seq![v[0]]);
    } else if v.len() == 2 {
        assert(v =~= seq![v[0], v[1]]);
    } else if v.len() == 3 {
        assert(v =~= seq![v[0], v[1], v[2]]);
    }
}

} // verus!
