//! Where the tone mark goes inside a vowel group.
use vstd::prelude::*;

verus! {

/// Placement convention for tone marks: modern (`hoà`) or classic (`hòa`).
#[derive(Debug, Clone, Copy, PartialEq, Eq, Structural)]
pub enum ToneStyle {
    Modern,
    Classic,
}

/// The vowel pair takes the tone on its second vowel in every style
/// (`iê`, `uô`, `ươ`, `uâ`, `oă`, `yê`).
pub open spec fn second_takes_tone(v1: char, v2: char) -> bool {
    (v1 == 'i' && v2 == 'ê') || (v1 == 'u' && v2 == 'ô') || (v1 == 'ư' && v2 == 'ơ') || (v1
        == 'u' && v2 == 'â') || (v1 == 'o' && v2 == 'ă') || (v1 == 'y' && v2 == 'ê')
}

/// The vowel pair moves its tone when a final consonant follows, or by style
/// (`oa`, `oe`, `uy`, `uê`, `uơ`).
pub open spec fn is_shifting_pair(v1: char, v2: char) -> bool {
    (v1 == 'o' && (v2 == 'a' || v2 == 'e')) || (v1 == 'u' && (v2 == 'y' || v2 == 'ê' || v2
        == 'ơ'))
}

/// Index, within `vowels`, of the vowel that carries the tone mark.
///
/// With an initial `g` and a leading `i`, the `i` belongs to the consonant
/// `gi` and the group proper starts one later.  In a group of two vowels the
/// second takes the tone for `uy` (modern only), for the pairs of
/// `second_takes_tone`, and for the shifting pairs when a final consonant
/// follows or the style is modern; otherwise the first does.  In a group of
/// three the middle vowel takes it, except `uyê`, which puts it on `ê`.
pub open spec fn spec_tone_position(
    vowels: Seq<char>,
    has_final: bool,
    initial: Seq<char>,
    style: ToneStyle,
) -> int {
    let len = vowels.len();
    if len <= 1 {
        0
    } else {
        let off: int = if initial.len() == 1 && initial[0] == 'g' && vowels[0] == 'i' {
            1
        } else {
            0
        };
        let n = len - off;
        if n == 1 {
            off
        } else if n == 2 {
            let v1 = vowels[off];
            let v2 = vowels[off + 1];
            if v1 == 'u' && v2 == 'y' {
                if style == ToneStyle::Classic {
                    off
                } else {
                    off + 1
                }
            } else if second_takes_tone(v1, v2) {
                off + 1
            } else if is_shifting_pair(v1, v2) {
                if has_final || style == ToneStyle::Modern {
                    off + 1
                } else {
                    off
                }
            } else {
                off
            }
        } else if n == 3 {
            if vowels[off] == 'u' && vowels[off + 1] == 'y' && vowels[off + 2] == 'ê' {
                off + 2
            } else {
                off + 1
            }
        } else {
            off
        }
    }
}

/// Find the correct index in the vowel group to place the tone mark.
pub fn find_tone_position(vowels: &[char], has_final: bool, initial: &[char], style: ToneStyle) -> (r:
    usize)
    ensures
        r == spec_tone_position(vowels@, has_final, initial@, style),
        vowels.len() == 0 ==> r == 0,
        vowels.len() > 0 ==> r < vowels.len(),
{
    let len = vowels.len();
    if len == 0 {
        return 0;
    }
    if len == 1 {
        return 0;
    }
    let mut off: usize = 0;
    let mut n = len;
    if initial.len() == 1 && initial[0] == 'g' && vowels[0] == 'i' {
        off = 1;
        n = len - 1;
    }
    if n == 1 {
        return off;
    }
    if n == 2 {
        let v1 = vowels[off];
        let v2 = vowels[off + 1];
        if v1 == 'u' && v2 == 'y' {
            if style == ToneStyle::Classic {
                return off;
            } else {
                return off + 1;
            }
        }
        if (v1 == 'i' && v2 == 'ê') || (v1 == 'u' && v2 == 'ô') || (v1 == 'ư' && v2 == 'ơ') || (v1
            == 'u' && v2 == 'â') || (v1 == 'o' && v2 == 'ă') || (v1 == 'y' && v2 == 'ê') {
            return off + 1;
        }
        let is_shifting = (v1 == 'o' && (v2 == 'a' || v2 == 'e')) || (v1 == 'u' && (v2 == 'y'
            || v2 == 'ê' || v2 == 'ơ'));
        if is_shifting {
            if has_final {
                return off + 1;
            }
            if style == ToneStyle::Classic {
                return off;
            } else {
                return off + 1;
            }
        }
        return off;
    }
    if n == 3 {
        if vowels[off] == 'u' && vowels[off + 1] == 'y' && vowels[off + 2] == 'ê' {
            return off + 2;
        }
        return off + 1;
    }
    off
}

/// The two placement styles agree on every vowel group except the pair `uy`
/// and the shifting pairs (`oa`, `oe`, `uy`, `uê`, `uơ`) with no final
/// consonant; in those, the classic style marks the first vowel of the pair
/// and the modern style the second.
pub proof fn lemma_styles_differ_only_on_open_shifting_pairs(
    vowels: Seq<char>,
    has_final: bool,
    initial: Seq<char>,
)
    ensures
        ({
            let m = spec_tone_position(vowels, has_final, initial, ToneStyle::Modern);
            let c = spec_tone_position(vowels, has_final, initial, ToneStyle::Classic);
            let off: int = if vowels.len() > 1 && initial.len() == 1 && initial[0] == 'g'
                && vowels[0] == 'i' {
                1
            } else {
                0
            };
            let pair = vowels.len() - off == 2;
            if pair && ((vowels[off] == 'u' && vowels[off + 1] == 'y') || (!has_final
                && is_shifting_pair(vowels[off], vowels[off + 1]) && !second_takes_tone(
                vowels[off],
                vowels[off + 1],
            ))) {
                m == off + 1 && c == off
            } else {
                m == c
            }
        }),
{
}

/// Where the tone goes in a group of two vowels (with no `gi` initial taking
/// the first one): on the second vowel for `iê uô ươ uâ oă yê`; for `oa oe
/// uê uơ` on the second with a final consonant or in the modern style, else
/// on the first; for `uy` on the second in the modern style only; and on the
/// first vowel for every other pair (`ai ao au ay âu ây eo êu ia iu oi ôi
/// ơi ua ui ưa ưi ưu` and the rest).  A lone vowel takes the tone itself;
/// in a group of three the middle vowel does, except in `uyê` (on `ê`).
pub proof fn lemma_tone_position_in_pairs(
    vowels: Seq<char>,
    has_final: bool,
    initial: Seq<char>,
    style: ToneStyle,
)
    ensures
        vowels.len() <= 1 ==> spec_tone_position(vowels, has_final, initial, style) == 0,
        vowels.len() == 2 && !(initial =~= seq!['g'] && vowels[0] == 'i') ==> ({
            let (a, b) = (vowels[0], vowels[1]);
            let p = spec_tone_position(vowels, has_final, initial, style);
            if (a == 'i' && b == 'ê') || (a == 'u' && b == 'ô') || (a == 'ư' && b == 'ơ') || (a
                == 'u' && b == 'â') || (a == 'o' && b == 'ă') || (a == 'y' && b == 'ê') {
                p == 1
            } else if a == 'u' && b == 'y' {
                p == (if style == ToneStyle::Modern {
                    1int
                } else {
                    0int
                })
            } else if (a == 'o' && b == 'a') || (a == 'o' && b == 'e') || (a == 'u' && b == 'ê')
                || (a == 'u' && b == 'ơ') {
                p == (if has_final || style == ToneStyle::Modern {
                    1int
                } else {
                    0int
                })
            } else {
                p == 0
            }
        }),
        vowels.len() == 3 && !(initial =~= seq!['g'] && vowels[0] == 'i') ==> spec_tone_position(
            vowels,
            has_final,
            initial,
            style,
        ) == (if vowels[0] == 'u' && vowels[1] == 'y' && vowels[2] == 'ê' {
            2int
        } else {
            1int
        }),
{
    if vowels.len() >= 2 && !(initial =~= seq!['g'] && vowels[0] == 'i') {
        if initial.len() == 1 && initial[0] == 'g' {
            assert(initial =~= seq!['g']);
        }
    }
}

} // verus!
