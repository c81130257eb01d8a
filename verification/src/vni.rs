//! VNI keystroke rules.
use vstd::prelude::*;

use crate::compose::{
    edit_answer, edit_view, opt_chars, opt_opt_chars, pick, replace_last, replace_last_two,
    replace_tail, rewrite, rewritten, spec_edit_answer, spec_tone_stage, tone_stage, with_initial,
    with_vowels, Edit, EditView,
};
use crate::spelling::{spec_parse, spec_vowel_variant, Syllable, SyllableView, Tone};
use crate::telex::opt_string_view;
use crate::text::{
    ascii_lower, chars1, chars2, chars3, eq1, eq2, eq3, is1, is2, is3, is_uppercase, lower_char,
    spec_ascii_lower, spec_is_ascii_digit, spec_is_uppercase, spec_lower_char, str_chars,
    string_from_chars,
};
use crate::tone::ToneStyle;

verus! {

/// The VNI tone keys: `1 2 3 4 5 0`.
pub open spec fn is_vni_tone_key(k: char) -> bool {
    k == '1' || k == '2' || k == '3' || k == '4' || k == '5' || k == '0'
}

/// The tone of a VNI tone key (`0` removes the tone).
pub open spec fn vni_key_tone(k: char) -> Tone {
    if k == '1' {
        Tone::Sac
    } else if k == '2' {
        Tone::Huyen
    } else if k == '3' {
        Tone::Hoi
    } else if k == '4' {
        Tone::Nga
    } else if k == '5' {
        Tone::Nang
    } else {
        Tone::Ngang
    }
}

/// `d9` typed on its own: `d` becomes `đ`; a lone `đ` goes back to `d9`.
pub open spec fn spec_vni_d9_stage(buffer: Seq<char>, k: char) -> Option<Option<Seq<char>>> {
    if k == '9' && buffer.len() == 1 {
        let last = buffer[0];
        let ll = spec_lower_char(last);
        let up = spec_is_uppercase(last);
        if ll == 'd' {
            Some(Some(seq![pick(up, 'Đ', 'đ')]))
        } else if ll == 'đ' {
            Some(Some(if up {
                seq!['D', '9']
            } else {
                seq!['d', '9']
            }))
        } else {
            None
        }
    } else {
        None
    }
}

/// Index of the first vowel at or after `i` that lies in `set`
/// (`v.len()` if none).
pub open spec fn first_of_from(v: Seq<char>, set: Seq<char>, i: int) -> int
    decreases v.len() - i,
{
    if i >= v.len() {
        v.len() as int
    } else if set.contains(v[i]) {
        i
    } else {
        first_of_from(v, set, i + 1)
    }
}

/// The vowels the key `6` toggles: `o ô e ê a â`.
pub open spec fn circumflex_set() -> Seq<char> {
    seq!['o', 'ô', 'e', 'ê', 'a', 'â']
}

/// The vowels the key `8` toggles: `a ă`.
pub open spec fn breve_set() -> Seq<char> {
    seq!['a', 'ă']
}

/// The toggled form under `6` (circumflex) or `8` (breve).
pub open spec fn vni_toggle(v: char) -> char {
    if v == 'o' {
        'ô'
    } else if v == 'ô' {
        'o'
    } else if v == 'e' {
        'ê'
    } else if v == 'ê' {
        'e'
    } else if v == 'a' {
        'â'
    } else if v == 'â' {
        'a'
    } else {
        v
    }
}

/// The breve toggle of key `8`.
pub open spec fn vni_breve_toggle(v: char) -> char {
    if v == 'a' {
        'ă'
    } else {
        'a'
    }
}

/// The horn key `7` on a vowel group: adds the horn to `uo`, `ua`, `uoi`,
/// `uou`, `o`, `u` (and completes half-horned groups), removes it from
/// fully horned ones.
pub open spec fn vni_horn_target(v: Seq<char>) -> Option<Seq<char>> {
    if is2(v, 'u', 'o') {
        Some(seq!['ư', 'ơ'])
    } else if is2(v, 'ư', 'ơ') {
        Some(seq!['u', 'o'])
    } else if is2(v, 'ư', 'o') || is2(v, 'u', 'ơ') {
        Some(seq!['ư', 'ơ'])
    } else if is2(v, 'u', 'a') {
        Some(seq!['ư', 'a'])
    } else if is2(v, 'ư', 'a') {
        Some(seq!['u', 'a'])
    } else if is3(v, 'u', 'o', 'i') {
        Some(seq!['ư', 'ơ', 'i'])
    } else if is3(v, 'ư', 'ơ', 'i') {
        Some(seq!['u', 'o', 'i'])
    } else if is3(v, 'ư', 'o', 'i') || is3(v, 'u', 'ơ', 'i') {
        Some(seq!['ư', 'ơ', 'i'])
    } else if is3(v, 'u', 'o', 'u') {
        Some(seq!['ư', 'ơ', 'u'])
    } else if is3(v, 'ư', 'ơ', 'u') {
        Some(seq!['u', 'o', 'u'])
    } else if is3(v, 'ư', 'o', 'u') || is3(v, 'u', 'ơ', 'u') {
        Some(seq!['ư', 'ơ', 'u'])
    } else if is1(v, 'o') {
        Some(seq!['ơ'])
    } else if is1(v, 'ơ') {
        Some(seq!['o'])
    } else if is1(v, 'u') {
        Some(seq!['ư'])
    } else if is1(v, 'ư') {
        Some(seq!['u'])
    } else {
        None
    }
}

/// A modifier key (`6 7 8 9`) acting on the syllable of the buffer; every
/// change is a toggle.
pub open spec fn spec_vni_syllable_edit(
    syl: SyllableView,
    buffer: Seq<char>,
    k: char,
    style: ToneStyle,
) -> EditView {
    let v = syl.vowels;
    if k == '9' {
        if is1(syl.initial, 'd') {
            EditView::Updated(rewritten(with_initial(syl, seq!['đ']), style, buffer))
        } else if is1(syl.initial, 'đ') {
            EditView::Updated(rewritten(with_initial(syl, seq!['d']), style, buffer))
        } else {
            EditView::Unchanged
        }
    } else if k == '6' {
        let i = first_of_from(v, circumflex_set(), 0);
        if i < v.len() {
            EditView::Updated(rewritten(with_vowels(syl, v.update(i, vni_toggle(v[i]))), style, buffer))
        } else {
            EditView::Unchanged
        }
    } else if k == '7' {
        match vni_horn_target(v) {
            Some(t) => EditView::Updated(rewritten(with_vowels(syl, t), style, buffer)),
            None => EditView::Unchanged,
        }
    } else {
        let i = first_of_from(v, breve_set(), 0);
        if i < v.len() {
            EditView::Updated(
                rewritten(with_vowels(syl, v.update(i, vni_breve_toggle(v[i]))), style, buffer),
            )
        } else {
            EditView::Unchanged
        }
    }
}

/// A modifier key acting on the raw characters of the buffer, when the
/// syllable rules did not apply.
pub open spec fn spec_vni_raw_edit(buffer: Seq<char>, k: char) -> EditView {
    let n = buffer.len();
    let last = buffer.last();
    let ll = spec_lower_char(last);
    let up = spec_is_uppercase(last);
    if k == '6' {
        if ll == 'a' {
            EditView::Updated(replace_last(buffer, seq![pick(up, 'Â', 'â')]))
        } else if ll == 'e' {
            EditView::Updated(replace_last(buffer, seq![pick(up, 'Ê', 'ê')]))
        } else if ll == 'o' {
            EditView::Updated(replace_last(buffer, seq![pick(up, 'Ô', 'ô')]))
        } else {
            EditView::Unchanged
        }
    } else if k == '7' {
        if ll == 'o' {
            if n >= 2 && spec_ascii_lower(buffer[n - 2]) == 'u' {
                EditView::Updated(
                    replace_last_two(
                        buffer,
                        seq![pick(spec_is_uppercase(buffer[n - 2]), 'Ư', 'ư'), pick(up, 'Ơ', 'ơ')],
                    ),
                )
            } else {
                EditView::Updated(replace_last(buffer, seq![pick(up, 'Ơ', 'ơ')]))
            }
        } else if ll == 'u' {
            EditView::Updated(replace_last(buffer, seq![pick(up, 'Ư', 'ư')]))
        } else {
            EditView::Unchanged
        }
    } else if k == '8' {
        if ll == 'a' {
            EditView::Updated(replace_last(buffer, seq![pick(up, 'Ă', 'ă')]))
        } else {
            EditView::Unchanged
        }
    } else {
        if ll == 'd' {
            EditView::Updated(replace_last(buffer, seq![pick(up, 'Đ', 'đ')]))
        } else {
            EditView::Unchanged
        }
    }
}

/// The accent modifier stage: syllable rules first, raw rules as fallback.
pub open spec fn spec_vni_modifier_stage(buffer: Seq<char>, k: char, style: ToneStyle) -> Option<
    Option<Seq<char>>,
> {
    if (k == '6' || k == '7' || k == '8' || k == '9') && buffer.len() > 0 {
        let e1 = match spec_parse(buffer) {
            Some(syl) => spec_vni_syllable_edit(syl, buffer, k, style),
            None => EditView::Unchanged,
        };
        let e = match e1 {
            EditView::Unchanged => spec_vni_raw_edit(buffer, k),
            _ => e1,
        };
        spec_edit_answer(e, style)
    } else {
        None
    }
}

/// A VNI keypress on the current word buffer: the new word when the key is
/// a digit rule of VNI that applies, `None` when the key should be typed as
/// is.  The stages are tried in turn: tone digits, a lone `d9`, and accent
/// modifiers.
pub open spec fn spec_process_vni(
    buffer: Seq<char>,
    c: char,
    style: ToneStyle,
    spelling_check: bool,
) -> Option<Seq<char>> {
    if !spec_is_ascii_digit(c) {
        None
    } else {
        let tone = if is_vni_tone_key(c) {
            spec_tone_stage(buffer, c, vni_key_tone(c), style, spelling_check)
        } else {
            None
        };
        match tone {
            Some(r) => r,
            None => match spec_vni_d9_stage(buffer, c) {
                Some(r) => r,
                None => match spec_vni_modifier_stage(buffer, c, style) {
                    Some(r) => r,
                    None => None,
                },
            },
        }
    }
}

fn vni_key_tone_exec(k: char) -> (r: Tone)
    ensures
        r == vni_key_tone(k),
{
    if k == '1' {
        Tone::Sac
    } else if k == '2' {
        Tone::Huyen
    } else if k == '3' {
        Tone::Hoi
    } else if k == '4' {
        Tone::Nga
    } else if k == '5' {
        Tone::Nang
    } else {
        Tone::Ngang
    }
}

fn d9_stage(buffer: &[char], k: char) -> (r: Option<Option<Vec<char>>>)
    ensures
        opt_opt_chars(r) == spec_vni_d9_stage(buffer@, k),
{
    if k == '9' && buffer.len() == 1 {
        let last = buffer[0];
        let ll = lower_char(last);
        let up = is_uppercase(last);
        if ll == 'd' {
            return Some(Some(chars1(if up { 'Đ' } else { 'đ' })));
        } else if ll == 'đ' {
            return Some(Some(if up { chars2('D', '9') } else { chars2('d', '9') }));
        }
    }
    None
}

fn circumflex_candidate(v: &[char]) -> (r: usize)
    ensures
        r as int == first_of_from(v@, circumflex_set(), 0),
        r <= v.len(),
{
    let mut i: usize = 0;
    while i < v.len()
        invariant
            0 <= i <= v.len(),
            first_of_from(v@, circumflex_set(), i as int) == first_of_from(v@, circumflex_set(), 0),
        decreases v.len() - i,
    {
        let x = v[i];
        if x == 'o' || x == 'ô' || x == 'e' || x == 'ê' || x == 'a' || x == 'â' {
            assert(circumflex_set().contains(x)) by {
                if x == 'o' {
                    assert(circumflex_set()[0] == x);
                } else if x == 'ô' {
                    assert(circumflex_set()[1] == x);
                } else if x == 'e' {
                    assert(circumflex_set()[2] == x);
                } else if x == 'ê' {
                    assert(circumflex_set()[3] == x);
                } else if x == 'a' {
                    assert(circumflex_set()[4] == x);
                } else {
                    assert(circumflex_set()[5] == x);
                }
            }
            return i;
        }
        assert(!circumflex_set().contains(x));
        i = i + 1;
    }
    i
}

fn breve_candidate(v: &[char]) -> (r: usize)
    ensures
        r as int == first_of_from(v@, breve_set(), 0),
        r <= v.len(),
{
    let mut i: usize = 0;
    while i < v.len()
        invariant
            0 <= i <= v.len(),
            first_of_from(v@, breve_set(), i as int) == first_of_from(v@, breve_set(), 0),
        decreases v.len() - i,
    {
        let x = v[i];
        if x == 'a' || x == 'ă' {
            assert(breve_set().contains(x)) by {
                if x == 'a' {
                    assert(breve_set()[0] == x);
                } else {
                    assert(breve_set()[1] == x);
                }
            }
            return i;
        }
        assert(!breve_set().contains(x));
        i = i + 1;
    }
    i
}

fn vni_toggle_exec(v: char) -> (r: char)
    ensures
        r == vni_toggle(v),
{
    if v == 'o' {
        'ô'
    } else if v == 'ô' {
        'o'
    } else if v == 'e' {
        'ê'
    } else if v == 'ê' {
        'e'
    } else if v == 'a' {
        'â'
    } else if v == 'â' {
        'a'
    } else {
        v
    }
}

fn vni_horn_target_exec(v: &[char]) -> (r: Option<Vec<char>>)
    ensures
        opt_chars(r) == vni_horn_target(v@),
{
    if eq2(v, 'u', 'o') {
        Some(chars2('ư', 'ơ'))
    } else if eq2(v, 'ư', 'ơ') {
        Some(chars2('u', 'o'))
    } else if eq2(v, 'ư', 'o') || eq2(v, 'u', 'ơ') {
        Some(chars2('ư', 'ơ'))
    } else if eq2(v, 'u', 'a') {
        Some(chars2('ư', 'a'))
    } else if eq2(v, 'ư', 'a') {
        Some(chars2('u', 'a'))
    } else if eq3(v, 'u', 'o', 'i') {
        Some(chars3('ư', 'ơ', 'i'))
    } else if eq3(v, 'ư', 'ơ', 'i') {
        Some(chars3('u', 'o', 'i'))
    } else if eq3(v, 'ư', 'o', 'i') || eq3(v, 'u', 'ơ', 'i') {
        Some(chars3('ư', 'ơ', 'i'))
    } else if eq3(v, 'u', 'o', 'u') {
        Some(chars3('ư', 'ơ', 'u'))
    } else if eq3(v, 'ư', 'ơ', 'u') {
        Some(chars3('u', 'o', 'u'))
    } else if eq3(v, 'ư', 'o', 'u') || eq3(v, 'u', 'ơ', 'u') {
        Some(chars3('ư', 'ơ', 'u'))
    } else if eq1(v, 'o') {
        Some(chars1('ơ'))
    } else if eq1(v, 'ơ') {
        Some(chars1('o'))
    } else if eq1(v, 'u') {
        Some(chars1('ư'))
    } else if eq1(v, 'ư') {
        Some(chars1('u'))
    } else {
        None
    }
}

fn vni_syllable_edit(syl: Syllable, buffer: &[char], k: char, style: ToneStyle) -> (r: Edit)
    ensures
        edit_view(r) == spec_vni_syllable_edit(syl@, buffer@, k, style),
{
    let ghost s0 = syl@;
    let mut syl = syl;
    if k == '9' {
        if eq1(&syl.initial, 'd') {
            syl.initial = chars1('đ');
            assert(syl@ == with_initial(s0, seq!['đ']));
            Edit::Updated(rewrite(&syl, style, buffer))
        } else if eq1(&syl.initial, 'đ') {
            syl.initial = chars1('d');
            assert(syl@ == with_initial(s0, seq!['d']));
            Edit::Updated(rewrite(&syl, style, buffer))
        } else {
            Edit::Unchanged
        }
    } else if k == '6' {
        let i = circumflex_candidate(&syl.vowels);
        if i < syl.vowels.len() {
            let t = vni_toggle_exec(syl.vowels[i]);
            syl.vowels.set(i, t);
            assert(syl@ == with_vowels(s0, s0.vowels.update(i as int, vni_toggle(s0.vowels[i as int]))));
            Edit::Updated(rewrite(&syl, style, buffer))
        } else {
            Edit::Unchanged
        }
    } else if k == '7' {
        match vni_horn_target_exec(&syl.vowels) {
            Some(t) => {
                syl.vowels = t;
                assert(syl@ == with_vowels(s0, syl@.vowels));
                Edit::Updated(rewrite(&syl, style, buffer))
            },
            None => Edit::Unchanged,
        }
    } else {
        let i = breve_candidate(&syl.vowels);
        if i < syl.vowels.len() {
            let t = if syl.vowels[i] == 'a' { 'ă' } else { 'a' };
            syl.vowels.set(i, t);
            assert(syl@ == with_vowels(s0, s0.vowels.update(i as int, vni_breve_toggle(s0.vowels[i as int]))));
            Edit::Updated(rewrite(&syl, style, buffer))
        } else {
            Edit::Unchanged
        }
    }
}

fn vni_raw_edit(buffer: &[char], k: char) -> (r: Edit)
    requires
        buffer.len() > 0,
    ensures
        edit_view(r) == spec_vni_raw_edit(buffer@, k),
{
    let n = buffer.len();
    let last = buffer[n - 1];
    let ll = lower_char(last);
    let up = is_uppercase(last);
    if k == '6' {
        if ll == 'a' {
            Edit::Updated(replace_tail(buffer, 1, &chars1(if up { 'Â' } else { 'â' })))
        } else if ll == 'e' {
            Edit::Updated(replace_tail(buffer, 1, &chars1(if up { 'Ê' } else { 'ê' })))
        } else if ll == 'o' {
            Edit::Updated(replace_tail(buffer, 1, &chars1(if up { 'Ô' } else { 'ô' })))
        } else {
            Edit::Unchanged
        }
    } else if k == '7' {
        if ll == 'o' {
            if n >= 2 && ascii_lower(buffer[n - 2]) == 'u' {
                let up2 = is_uppercase(buffer[n - 2]);
                Edit::Updated(
                    replace_tail(
                        buffer,
                        2,
                        &chars2(if up2 { 'Ư' } else { 'ư' }, if up { 'Ơ' } else { 'ơ' }),
                    ),
                )
            } else {
                Edit::Updated(replace_tail(buffer, 1, &chars1(if up { 'Ơ' } else { 'ơ' })))
            }
        } else if ll == 'u' {
            Edit::Updated(replace_tail(buffer, 1, &chars1(if up { 'Ư' } else { 'ư' })))
        } else {
            Edit::Unchanged
        }
    } else if k == '8' {
        if ll == 'a' {
            Edit::Updated(replace_tail(buffer, 1, &chars1(if up { 'Ă' } else { 'ă' })))
        } else {
            Edit::Unchanged
        }
    } else {
        if ll == 'd' {
            Edit::Updated(replace_tail(buffer, 1, &chars1(if up { 'Đ' } else { 'đ' })))
        } else {
            Edit::Unchanged
        }
    }
}

fn vni_modifier_stage(buffer: &[char], k: char, style: ToneStyle) -> (r: Option<
    Option<Vec<char>>,
>)
    ensures
        opt_opt_chars(r) == spec_vni_modifier_stage(buffer@, k, style),
{
    if !((k == '6' || k == '7' || k == '8' || k == '9') && buffer.len() > 0) {
        return None;
    }
    let e1 = match Syllable::parse_chars(buffer) {
        Some(syl) => vni_syllable_edit(syl, buffer, k, style),
        None => Edit::Unchanged,
    };
    let e = match e1 {
        Edit::Unchanged => vni_raw_edit(buffer, k),
        _ => e1,
    };
    edit_answer(e, style)
}

/// Process a VNI keypress on the current word buffer held as characters.
pub fn process_vni_chars(
    buffer: &[char],
    new_char: char,
    tone_style: ToneStyle,
    spelling_check: bool,
) -> (r: Option<Vec<char>>)
    ensures
        opt_chars(r) == spec_process_vni(buffer@, new_char, tone_style, spelling_check),
{
    if !('0' <= new_char && new_char <= '9') {
        return None;
    }
    let digit = new_char;
    if digit == '1' || digit == '2' || digit == '3' || digit == '4' || digit == '5' || digit == '0' {
        let t = vni_key_tone_exec(digit);
        match tone_stage(buffer, new_char, t, tone_style, spelling_check) {
            Some(r) => {
                return r;
            },
            None => {},
        }
    }
    match d9_stage(buffer, digit) {
        Some(r) => {
            return r;
        },
        None => {},
    }
    match vni_modifier_stage(buffer, digit, tone_style) {
        Some(r) => {
            return r;
        },
        None => {},
    }
    None
}

/// Process a VNI keypress on the current word buffer.
/// Returns the new reconstructed word if processed, or `None` if the key
/// should be treated normally.
pub fn process_vni(buffer: &str, new_char: char, tone_style: ToneStyle, spelling_check: bool) -> (r:
    Option<String>)
    ensures
        opt_string_view(r) == spec_process_vni(buffer@, new_char, tone_style, spelling_check),
{
    let b = str_chars(buffer);
    match process_vni_chars(&b, new_char, tone_style, spelling_check) {
        Some(v) => Some(string_from_chars(&v)),
        None => None,
    }
}

/// The VNI tone keys are the digits naming the columns of the vowel table:
/// `1` sắc, `2` huyền, `3` hỏi, `4` ngã, `5` nặng, so that on `a` they give
/// á, à, ả, ã, ạ; they are the tones of the Telex keys `s f r x j` in the same
/// order; every other key (`0` among them) gives the level tone.
pub proof fn lemma_vni_digit_tones(k: char)
    ensures
        '1' <= k <= '5' ==> vni_key_tone(k).offset() == (k as int) - ('0' as int),
        !('1' <= k <= '5') ==> vni_key_tone(k) == Tone::Ngang,
        k == '1' ==> spec_vowel_variant('a', vni_key_tone(k)) == 'á',
        k == '2' ==> spec_vowel_variant('a', vni_key_tone(k)) == 'à',
        k == '3' ==> spec_vowel_variant('a', vni_key_tone(k)) == 'ả',
        k == '4' ==> spec_vowel_variant('a', vni_key_tone(k)) == 'ã',
        k == '5' ==> spec_vowel_variant('a', vni_key_tone(k)) == 'ạ',
        '1' <= k <= '5' ==> vni_key_tone(k) == crate::telex::telex_key_tone(
            seq!['s', 'f', 'r', 'x', 'j'][(k as int) - ('1' as int)],
        ),
{
    if '1' <= k <= '5' {
        assert(k == '1' || k == '2' || k == '3' || k == '4' || k == '5') by {
            assert(49 <= k as int <= 53);
        }
    }
}

/// The horn key `7` toggles: on a plain group (`uo ua uoi uou o u`) or a
/// fully horned one (`ươ ưa ươi ươu ơ ư`) pressing it twice gives the group
/// back; and on a plain group it puts the same marks as the Telex `w` key.
pub proof fn lemma_vni_horn_toggles(v: Seq<char>)
    ensures
        (v =~= seq!['u', 'o'] || v =~= seq!['u', 'a'] || v =~= seq!['u', 'o', 'i'] || v =~= seq![
            'u',
            'o',
            'u',
        ] || v =~= seq!['o'] || v =~= seq!['u'] || v =~= seq!['ư', 'ơ'] || v =~= seq!['ư', 'a']
            || v =~= seq!['ư', 'ơ', 'i'] || v =~= seq!['ư', 'ơ', 'u'] || v =~= seq!['ơ'] || v
            =~= seq!['ư']) ==> vni_horn_target(v) is Some && vni_horn_target(
            vni_horn_target(v).unwrap(),
        ) == Some(v),
        (v =~= seq!['u', 'o'] || v =~= seq!['u', 'a'] || v =~= seq!['u', 'o', 'i'] || v =~= seq![
            'u',
            'o',
            'u',
        ] || v =~= seq!['o'] || v =~= seq!['u']) ==> vni_horn_target(v)
            == crate::telex::w_horn_target(v),
{
}

/// The keys `6` and `8` toggle: pressing one twice on a vowel gives it
/// back; `6` turns `a e o` into `â ê ô`, and `8` turns `a` into `ă`.
pub proof fn lemma_vni_hat_toggles(c: char)
    ensures
        (c == 'a' || c == 'â' || c == 'e' || c == 'ê' || c == 'o' || c == 'ô') ==> vni_toggle(
            vni_toggle(c),
        ) == c,
        vni_toggle('a') == 'â' && vni_toggle('e') == 'ê' && vni_toggle('o') == 'ô',
        (c == 'a' || c == 'ă') ==> vni_breve_toggle(vni_breve_toggle(c)) == c,
        vni_breve_toggle('a') == 'ă',
{
}

} // verus!
