//! Vietnamese syllable structure: vowels and tones, consonants, parsing and
//! rebuilding a syllable.
use vstd::prelude::*;

use crate::text::{
    ascii_lower, eq1, eq2, eq3, extend_chars, is1, is2, is3, is_alphabetic, is_uppercase, lower_char,
    slice_chars, spec_ascii_lower, spec_is_alphabetic, spec_is_uppercase, spec_lower_char,
    spec_str_lowercase, spec_upper_char, str_chars, str_lowercase, string_from_chars, upper_char,
};
use crate::tone::{find_tone_position, spec_tone_position, ToneStyle};

verus! {

/// The six tones of Vietnamese, in the order of the accented vowel tables.
#[derive(Debug, Clone, Copy, PartialEq, Eq, Structural)]
pub enum Tone {
    Ngang,
    Sac,
    Huyen,
    Hoi,
    Nga,
    Nang,
}

impl Tone {
    /// Column of this tone in a row of the vowel table.
    pub open spec fn offset(self) -> nat {
        match self {
            Tone::Ngang => 0,
            Tone::Sac => 1,
            Tone::Huyen => 2,
            Tone::Hoi => 3,
            Tone::Nga => 4,
            Tone::Nang => 5,
        }
    }

    pub fn to_char_offset(self) -> (r: usize)
        ensures
            r == self.offset(),
    {
        match self {
            Tone::Ngang => 0,
            Tone::Sac => 1,
            Tone::Huyen => 2,
            Tone::Hoi => 3,
            Tone::Nga => 4,
            Tone::Nang => 5,
        }
    }
}

// ---------------------------------------------------------------------------
// The vowel table.
// ---------------------------------------------------------------------------

/// The twelve base vowels of the table.
pub open spec fn is_base_vowel(b: char) -> bool {
    b == 'a' || b == 'ă' || b == 'â' || b == 'e' || b == 'ê' || b == 'i' || b == 'o' || b == 'ô'
        || b == 'ơ' || b == 'u' || b == 'ư' || b == 'y'
}

/// The accented form of base vowel `b` with tone `t`; a character that is no
/// base vowel is returned unchanged.
pub open spec fn spec_vowel_variant(b: char, t: Tone) -> char {
    match b {
        'a' => match t {
            Tone::Ngang => 'a',
            Tone::Sac => 'á',
            Tone::Huyen => 'à',
            Tone::Hoi => 'ả',
            Tone::Nga => 'ã',
            Tone::Nang => 'ạ',
        },
        'ă' => match t {
            Tone::Ngang => 'ă',
            Tone::Sac => 'ắ',
            Tone::Huyen => 'ằ',
            Tone::Hoi => 'ẳ',
            Tone::Nga => 'ẵ',
            Tone::Nang => 'ặ',
        },
        'â' => match t {
            Tone::Ngang => 'â',
            Tone::Sac => 'ấ',
            Tone::Huyen => 'ầ',
            Tone::Hoi => 'ẩ',
            Tone::Nga => 'ẫ',
            Tone::Nang => 'ậ',
        },
        'e' => match t {
            Tone::Ngang => 'e',
            Tone::Sac => 'é',
            Tone::Huyen => 'è',
            Tone::Hoi => 'ẻ',
            Tone::Nga => 'ẽ',
            Tone::Nang => 'ẹ',
        },
        'ê' => match t {
            Tone::Ngang => 'ê',
            Tone::Sac => 'ế',
            Tone::Huyen => 'ề',
            Tone::Hoi => 'ể',
            Tone::Nga => 'ễ',
            Tone::Nang => 'ệ',
        },
        'i' => match t {
            Tone::Ngang => 'i',
            Tone::Sac => 'í',
            Tone::Huyen => 'ì',
            Tone::Hoi => 'ỉ',
            Tone::Nga => 'ĩ',
            Tone::Nang => 'ị',
        },
        'o' => match t {
            Tone::Ngang => 'o',
            Tone::Sac => 'ó',
            Tone::Huyen => 'ò',
            Tone::Hoi => 'ỏ',
            Tone::Nga => 'õ',
            Tone::Nang => 'ọ',
        },
        'ô' => match t {
            Tone::Ngang => 'ô',
            Tone::Sac => 'ố',
            Tone::Huyen => 'ồ',
            Tone::Hoi => 'ổ',
            Tone::Nga => 'ỗ',
            Tone::Nang => 'ộ',
        },
        'ơ' => match t {
            Tone::Ngang => 'ơ',
            Tone::Sac => 'ớ',
            Tone::Huyen => 'ờ',
            Tone::Hoi => 'ở',
            Tone::Nga => 'ỡ',
            Tone::Nang => 'ợ',
        },
        'u' => match t {
            Tone::Ngang => 'u',
            Tone::Sac => 'ú',
            Tone::Huyen => 'ù',
            Tone::Hoi => 'ủ',
            Tone::Nga => 'ũ',
            Tone::Nang => 'ụ',
        },
        'ư' => match t {
            Tone::Ngang => 'ư',
            Tone::Sac => 'ứ',
            Tone::Huyen => 'ừ',
            Tone::Hoi => 'ử',
            Tone::Nga => 'ữ',
            Tone::Nang => 'ự',
        },
        'y' => match t {
            Tone::Ngang => 'y',
            Tone::Sac => 'ý',
            Tone::Huyen => 'ỳ',
            Tone::Hoi => 'ỷ',
            Tone::Nga => 'ỹ',
            Tone::Nang => 'ỵ',
        },
        _ => b,
    }
}

/// Inverse of the table on lowercase characters: the base vowel and tone of
/// an accented lowercase vowel.
pub open spec fn spec_vowel_lookup(c: char) -> Option<(char, Tone)> {
    match c {
        'a' => Some(('a', Tone::Ngang)),
        'á' => Some(('a', Tone::Sac)),
        'à' => Some(('a', Tone::Huyen)),
        'ả' => Some(('a', Tone::Hoi)),
        'ã' => Some(('a', Tone::Nga)),
        'ạ' => Some(('a', Tone::Nang)),
        'ă' => Some(('ă', Tone::Ngang)),
        'ắ' => Some(('ă', Tone::Sac)),
        'ằ' => Some(('ă', Tone::Huyen)),
        'ẳ' => Some(('ă', Tone::Hoi)),
        'ẵ' => Some(('ă', Tone::Nga)),
        'ặ' => Some(('ă', Tone::Nang)),
        'â' => Some(('â', Tone::Ngang)),
        'ấ' => Some(('â', Tone::Sac)),
        'ầ' => Some(('â', Tone::Huyen)),
        'ẩ' => Some(('â', Tone::Hoi)),
        'ẫ' => Some(('â', Tone::Nga)),
        'ậ' => Some(('â', Tone::Nang)),
        'e' => Some(('e', Tone::Ngang)),
        'é' => Some(('e', Tone::Sac)),
        'è' => Some(('e', Tone::Huyen)),
        'ẻ' => Some(('e', Tone::Hoi)),
        'ẽ' => Some(('e', Tone::Nga)),
        'ẹ' => Some(('e', Tone::Nang)),
        'ê' => Some(('ê', Tone::Ngang)),
        'ế' => Some(('ê', Tone::Sac)),
        'ề' => Some(('ê', Tone::Huyen)),
        'ể' => Some(('ê', Tone::Hoi)),
        'ễ' => Some(('ê', Tone::Nga)),
        'ệ' => Some(('ê', Tone::Nang)),
        'i' => Some(('i', Tone::Ngang)),
        'í' => Some(('i', Tone::Sac)),
        'ì' => Some(('i', Tone::Huyen)),
        'ỉ' => Some(('i', Tone::Hoi)),
        'ĩ' => Some(('i', Tone::Nga)),
        'ị' => Some(('i', Tone::Nang)),
        'o' => Some(('o', Tone::Ngang)),
        'ó' => Some(('o', Tone::Sac)),
        'ò' => Some(('o', Tone::Huyen)),
        'ỏ' => Some(('o', Tone::Hoi)),
        'õ' => Some(('o', Tone::Nga)),
        'ọ' => Some(('o', Tone::Nang)),
        'ô' => Some(('ô', Tone::Ngang)),
        'ố' => Some(('ô', Tone::Sac)),
        'ồ' => Some(('ô', Tone::Huyen)),
        'ổ' => Some(('ô', Tone::Hoi)),
        'ỗ' => Some(('ô', Tone::Nga)),
        'ộ' => Some(('ô', Tone::Nang)),
        'ơ' => Some(('ơ', Tone::Ngang)),
        'ớ' => Some(('ơ', Tone::Sac)),
        'ờ' => Some(('ơ', Tone::Huyen)),
        'ở' => Some(('ơ', Tone::Hoi)),
        'ỡ' => Some(('ơ', Tone::Nga)),
        'ợ' => Some(('ơ', Tone::Nang)),
        'u' => Some(('u', Tone::Ngang)),
        'ú' => Some(('u', Tone::Sac)),
        'ù' => Some(('u', Tone::Huyen)),
        'ủ' => Some(('u', Tone::Hoi)),
        'ũ' => Some(('u', Tone::Nga)),
        'ụ' => Some(('u', Tone::Nang)),
        'ư' => Some(('ư', Tone::Ngang)),
        'ứ' => Some(('ư', Tone::Sac)),
        'ừ' => Some(('ư', Tone::Huyen)),
        'ử' => Some(('ư', Tone::Hoi)),
        'ữ' => Some(('ư', Tone::Nga)),
        'ự' => Some(('ư', Tone::Nang)),
        'y' => Some(('y', Tone::Ngang)),
        'ý' => Some(('y', Tone::Sac)),
        'ỳ' => Some(('y', Tone::Huyen)),
        'ỷ' => Some(('y', Tone::Hoi)),
        'ỹ' => Some(('y', Tone::Nga)),
        'ỵ' => Some(('y', Tone::Nang)),
        _ => None,
    }
}

/// The accented form of base vowel `b` with tone `t`.
pub fn vowel_variant(b: char, t: Tone) -> (r: char)
    ensures
        r == spec_vowel_variant(b, t),
{
    match b {
        'a' => match t {
            Tone::Ngang => 'a',
            Tone::Sac => 'á',
            Tone::Huyen => 'à',
            Tone::Hoi => 'ả',
            Tone::Nga => 'ã',
            Tone::Nang => 'ạ',
        },
        'ă' => match t {
            Tone::Ngang => 'ă',
            Tone::Sac => 'ắ',
            Tone::Huyen => 'ằ',
            Tone::Hoi => 'ẳ',
            Tone::Nga => 'ẵ',
            Tone::Nang => 'ặ',
        },
        'â' => match t {
            Tone::Ngang => 'â',
            Tone::Sac => 'ấ',
            Tone::Huyen => 'ầ',
            Tone::Hoi => 'ẩ',
            Tone::Nga => 'ẫ',
            Tone::Nang => 'ậ',
        },
        'e' => match t {
            Tone::Ngang => 'e',
            Tone::Sac => 'é',
            Tone::Huyen => 'è',
            Tone::Hoi => 'ẻ',
            Tone::Nga => 'ẽ',
            Tone::Nang => 'ẹ',
        },
        'ê' => match t {
            Tone::Ngang => 'ê',
            Tone::Sac => 'ế',
            Tone::Huyen => 'ề',
            Tone::Hoi => 'ể',
            Tone::Nga => 'ễ',
            Tone::Nang => 'ệ',
        },
        'i' => match t {
            Tone::Ngang => 'i',
            Tone::Sac => 'í',
            Tone::Huyen => 'ì',
            Tone::Hoi => 'ỉ',
            Tone::Nga => 'ĩ',
            Tone::Nang => 'ị',
        },
        'o' => match t {
            Tone::Ngang => 'o',
            Tone::Sac => 'ó',
            Tone::Huyen => 'ò',
            Tone::Hoi => 'ỏ',
            Tone::Nga => 'õ',
            Tone::Nang => 'ọ',
        },
        'ô' => match t {
            Tone::Ngang => 'ô',
            Tone::Sac => 'ố',
            Tone::Huyen => 'ồ',
            Tone::Hoi => 'ổ',
            Tone::Nga => 'ỗ',
            Tone::Nang => 'ộ',
        },
        'ơ' => match t {
            Tone::Ngang => 'ơ',
            Tone::Sac => 'ớ',
            Tone::Huyen => 'ờ',
            Tone::Hoi => 'ở',
            Tone::Nga => 'ỡ',
            Tone::Nang => 'ợ',
        },
        'u' => match t {
            Tone::Ngang => 'u',
            Tone::Sac => 'ú',
            Tone::Huyen => 'ù',
            Tone::Hoi => 'ủ',
            Tone::Nga => 'ũ',
            Tone::Nang => 'ụ',
        },
        'ư' => match t {
            Tone::Ngang => 'ư',
            Tone::Sac => 'ứ',
            Tone::Huyen => 'ừ',
            Tone::Hoi => 'ử',
            Tone::Nga => 'ữ',
            Tone::Nang => 'ự',
        },
        'y' => match t {
            Tone::Ngang => 'y',
            Tone::Sac => 'ý',
            Tone::Huyen => 'ỳ',
            Tone::Hoi => 'ỷ',
            Tone::Nga => 'ỹ',
            Tone::Nang => 'ỵ',
        },
        _ => b,
    }
}

fn vowel_lookup(c: char) -> (r: Option<(char, Tone)>)
    ensures
        r == spec_vowel_lookup(c),
{
    match c {
        'a' => Some(('a', Tone::Ngang)),
        'á' => Some(('a', Tone::Sac)),
        'à' => Some(('a', Tone::Huyen)),
        'ả' => Some(('a', Tone::Hoi)),
        'ã' => Some(('a', Tone::Nga)),
        'ạ' => Some(('a', Tone::Nang)),
        'ă' => Some(('ă', Tone::Ngang)),
        'ắ' => Some(('ă', Tone::Sac)),
        'ằ' => Some(('ă', Tone::Huyen)),
        'ẳ' => Some(('ă', Tone::Hoi)),
        'ẵ' => Some(('ă', Tone::Nga)),
        'ặ' => Some(('ă', Tone::Nang)),
        'â' => Some(('â', Tone::Ngang)),
        'ấ' => Some(('â', Tone::Sac)),
        'ầ' => Some(('â', Tone::Huyen)),
        'ẩ' => Some(('â', Tone::Hoi)),
        'ẫ' => Some(('â', Tone::Nga)),
        'ậ' => Some(('â', Tone::Nang)),
        'e' => Some(('e', Tone::Ngang)),
        'é' => Some(('e', Tone::Sac)),
        'è' => Some(('e', Tone::Huyen)),
        'ẻ' => Some(('e', Tone::Hoi)),
        'ẽ' => Some(('e', Tone::Nga)),
        'ẹ' => Some(('e', Tone::Nang)),
        'ê' => Some(('ê', Tone::Ngang)),
        'ế' => Some(('ê', Tone::Sac)),
        'ề' => Some(('ê', Tone::Huyen)),
        'ể' => Some(('ê', Tone::Hoi)),
        'ễ' => Some(('ê', Tone::Nga)),
        'ệ' => Some(('ê', Tone::Nang)),
        'i' => Some(('i', Tone::Ngang)),
        'í' => Some(('i', Tone::Sac)),
        'ì' => Some(('i', Tone::Huyen)),
        'ỉ' => Some(('i', Tone::Hoi)),
        'ĩ' => Some(('i', Tone::Nga)),
        'ị' => Some(('i', Tone::Nang)),
        'o' => Some(('o', Tone::Ngang)),
        'ó' => Some(('o', Tone::Sac)),
        'ò' => Some(('o', Tone::Huyen)),
        'ỏ' => Some(('o', Tone::Hoi)),
        'õ' => Some(('o', Tone::Nga)),
        'ọ' => Some(('o', Tone::Nang)),
        'ô' => Some(('ô', Tone::Ngang)),
        'ố' => Some(('ô', Tone::Sac)),
        'ồ' => Some(('ô', Tone::Huyen)),
        'ổ' => Some(('ô', Tone::Hoi)),
        'ỗ' => Some(('ô', Tone::Nga)),
        'ộ' => Some(('ô', Tone::Nang)),
        'ơ' => Some(('ơ', Tone::Ngang)),
        'ớ' => Some(('ơ', Tone::Sac)),
        'ờ' => Some(('ơ', Tone::Huyen)),
        'ở' => Some(('ơ', Tone::Hoi)),
        'ỡ' => Some(('ơ', Tone::Nga)),
        'ợ' => Some(('ơ', Tone::Nang)),
        'u' => Some(('u', Tone::Ngang)),
        'ú' => Some(('u', Tone::Sac)),
        'ù' => Some(('u', Tone::Huyen)),
        'ủ' => Some(('u', Tone::Hoi)),
        'ũ' => Some(('u', Tone::Nga)),
        'ụ' => Some(('u', Tone::Nang)),
        'ư' => Some(('ư', Tone::Ngang)),
        'ứ' => Some(('ư', Tone::Sac)),
        'ừ' => Some(('ư', Tone::Huyen)),
        'ử' => Some(('ư', Tone::Hoi)),
        'ữ' => Some(('ư', Tone::Nga)),
        'ự' => Some(('ư', Tone::Nang)),
        'y' => Some(('y', Tone::Ngang)),
        'ý' => Some(('y', Tone::Sac)),
        'ỳ' => Some(('y', Tone::Huyen)),
        'ỷ' => Some(('y', Tone::Hoi)),
        'ỹ' => Some(('y', Tone::Nga)),
        'ỵ' => Some(('y', Tone::Nang)),
        _ => None,
    }
}

/// Base vowel and tone of a character, after lowercasing it.
pub open spec fn spec_find_vowel_info(c: char) -> Option<(char, Tone)> {
    spec_vowel_lookup(spec_lower_char(c))
}

/// Helper to find a base vowel and its tone from a char.
pub fn find_vowel_info(c: char) -> (r: Option<(char, Tone)>)
    ensures
        r == spec_find_vowel_info(c),
{
    let lower_c = lower_char(c);
    vowel_lookup(lower_c)
}

/// The vowel table is a bijection between (base vowel, tone) pairs and the
/// accented lowercase vowels: looking up the accented form of a base vowel
/// gives back that vowel and tone, and every character the lookup accepts is
/// the accented form of what it returns.
pub proof fn lemma_vowel_table_roundtrip(b: char, t: Tone, c: char)
    ensures
        is_base_vowel(b) ==> spec_vowel_lookup(spec_vowel_variant(b, t)) == Some((b, t)),
        spec_vowel_lookup(c) matches Some((b2, t2)) ==> is_base_vowel(b2) && spec_vowel_variant(
            b2,
            t2,
        ) == c,
{
}

// ---------------------------------------------------------------------------
// Consonants and vowel groups.
// ---------------------------------------------------------------------------

pub open spec fn vowel_group1(a: char) -> bool {
    (a == 'a')
        || (a == 'ă')
        || (a == 'â')
        || (a == 'e')
        || (a == 'ê')
        || (a == 'i')
        || (a == 'o')
        || (a == 'ô')
        || (a == 'ơ')
        || (a == 'u')
        || (a == 'ư')
        || (a == 'y')
}

pub open spec fn vowel_group2(a: char, b: char) -> bool {
    (a == 'a' && b == 'i')
        || (a == 'a' && b == 'o')
        || (a == 'a' && b == 'u')
        || (a == 'a' && b == 'y')
        || (a == 'â' && b == 'u')
        || (a == 'â' && b == 'y')
        || (a == 'e' && b == 'o')
        || (a == 'ê' && b == 'u')
        || (a == 'i' && b == 'a')
        || (a == 'i' && b == 'ê')
        || (a == 'i' && b == 'o')
        || (a == 'i' && b == 'u')
        || (a == 'i' && b == 'e')
        || (a == 'o' && b == 'a')
        || (a == 'o' && b == 'ă')
        || (a == 'o' && b == 'e')
        || (a == 'o' && b == 'i')
        || (a == 'o' && b == 'o')
        || (a == 'ô' && b == 'ô')
        || (a == 'ô' && b == 'i')
        || (a == 'ơ' && b == 'i')
        || (a == 'u' && b == 'a')
        || (a == 'u' && b == 'â')
        || (a == 'u' && b == 'ê')
        || (a == 'u' && b == 'ô')
        || (a == 'u' && b == 'ơ')
        || (a == 'u' && b == 'i')
        || (a == 'u' && b == 'y')
        || (a == 'u' && b == 'o')
        || (a == 'u' && b == 'ă')
        || (a == 'u' && b == 'e')
        || (a == 'ư' && b == 'a')
        || (a == 'ư' && b == 'i')
        || (a == 'ư' && b == 'ơ')
        || (a == 'ư' && b == 'u')
        || (a == 'ư' && b == 'o')
        || (a == 'y' && b == 'a')
        || (a == 'y' && b == 'ê')
        || (a == 'y' && b == 'u')
        || (a == 'y' && b == 'e')
}

pub open spec fn vowel_group3(a: char, b: char, c: char) -> bool {
    (a == 'i' && b == 'e' && c == 'u')
        || (a == 'u' && b == 'o' && c == 'u')
        || (a == 'u' && b == 'o' && c == 'i')
        || (a == 'ư' && b == 'o' && c == 'i')
        || (a == 'ư' && b == 'o' && c == 'u')
        || (a == 'y' && b == 'e' && c == 'u')
        || (a == 'i' && b == 'ê' && c == 'u')
        || (a == 'y' && b == 'ê' && c == 'u')
        || (a == 'o' && b == 'a' && c == 'i')
        || (a == 'o' && b == 'a' && c == 'o')
        || (a == 'o' && b == 'a' && c == 'y')
        || (a == 'o' && b == 'e' && c == 'o')
        || (a == 'u' && b == 'a' && c == 'i')
        || (a == 'u' && b == 'â' && c == 'n')
        || (a == 'u' && b == 'â' && c == 'y')
        || (a == 'u' && b == 'ô' && c == 'i')
        || (a == 'ư' && b == 'ơ' && c == 'i')
        || (a == 'ư' && b == 'ơ' && c == 'u')
        || (a == 'u' && b == 'y' && c == 'ê')
        || (a == 'u' && b == 'y' && c == 'a')
        || (a == 'u' && b == 'y' && c == 'u')
        || (a == 'u' && b == 'y' && c == 'e')
}

pub open spec fn initial_consonant1(a: char) -> bool {
    (a == 'b')
        || (a == 'c')
        || (a == 'd')
        || (a == 'đ')
        || (a == 'g')
        || (a == 'h')
        || (a == 'k')
        || (a == 'l')
        || (a == 'm')
        || (a == 'n')
        || (a == 'p')
        || (a == 'r')
        || (a == 's')
        || (a == 't')
        || (a == 'v')
        || (a == 'x')
        || (a == 'f')
        || (a == 'j')
        || (a == 'w')
        || (a == 'z')
}

pub open spec fn initial_consonant2(a: char, b: char) -> bool {
    (a == 'c' && b == 'h')
        || (a == 'g' && b == 'h')
        || (a == 'g' && b == 'i')
        || (a == 'k' && b == 'h')
        || (a == 'n' && b == 'h')
        || (a == 'n' && b == 'g')
        || (a == 'p' && b == 'h')
        || (a == 'q' && b == 'u')
        || (a == 't' && b == 'h')
        || (a == 't' && b == 'r')
        || (a == 'c' && b == 'l')
        || (a == 'c' && b == 'r')
        || (a == 'b' && b == 'r')
        || (a == 'd' && b == 'r')
        || (a == 'g' && b == 'r')
        || (a == 'f' && b == 'r')
        || (a == 'f' && b == 'l')
        || (a == 'p' && b == 'r')
        || (a == 'p' && b == 'l')
        || (a == 'p' && b == 's')
}

pub open spec fn initial_consonant3(a: char, b: char, c: char) -> bool {
    (a == 'n' && b == 'g' && c == 'h')
}

pub open spec fn final_consonant1(a: char) -> bool {
    (a == 'c')
        || (a == 'm')
        || (a == 'n')
        || (a == 'p')
        || (a == 't')
        || (a == 'k')
}

pub open spec fn final_consonant2(a: char, b: char) -> bool {
    (a == 'c' && b == 'h')
        || (a == 'n' && b == 'h')
        || (a == 'n' && b == 'g')
}


fn exec_vowel_group1(a: char) -> (r: bool)
    ensures
        r == vowel_group1(a),
{
    (a == 'a')
        || (a == 'ă')
        || (a == 'â')
        || (a == 'e')
        || (a == 'ê')
        || (a == 'i')
        || (a == 'o')
        || (a == 'ô')
        || (a == 'ơ')
        || (a == 'u')
        || (a == 'ư')
        || (a == 'y')
}

fn exec_vowel_group2(a: char, b: char) -> (r: bool)
    ensures
        r == vowel_group2(a, b),
{
    (a == 'a' && b == 'i')
        || (a == 'a' && b == 'o')
        || (a == 'a' && b == 'u')
        || (a == 'a' && b == 'y')
        || (a == 'â' && b == 'u')
        || (a == 'â' && b == 'y')
        || (a == 'e' && b == 'o')
        || (a == 'ê' && b == 'u')
        || (a == 'i' && b == 'a')
        || (a == 'i' && b == 'ê')
        || (a == 'i' && b == 'o')
        || (a == 'i' && b == 'u')
        || (a == 'i' && b == 'e')
        || (a == 'o' && b == 'a')
        || (a == 'o' && b == 'ă')
        || (a == 'o' && b == 'e')
        || (a == 'o' && b == 'i')
        || (a == 'o' && b == 'o')
        || (a == 'ô' && b == 'ô')
        || (a == 'ô' && b == 'i')
        || (a == 'ơ' && b == 'i')
        || (a == 'u' && b == 'a')
        || (a == 'u' && b == 'â')
        || (a == 'u' && b == 'ê')
        || (a == 'u' && b == 'ô')
        || (a == 'u' && b == 'ơ')
        || (a == 'u' && b == 'i')
        || (a == 'u' && b == 'y')
        || (a == 'u' && b == 'o')
        || (a == 'u' && b == 'ă')
        || (a == 'u' && b == 'e')
        || (a == 'ư' && b == 'a')
        || (a == 'ư' && b == 'i')
        || (a == 'ư' && b == 'ơ')
        || (a == 'ư' && b == 'u')
        || (a == 'ư' && b == 'o')
        || (a == 'y' && b == 'a')
        || (a == 'y' && b == 'ê')
        || (a == 'y' && b == 'u')
        || (a == 'y' && b == 'e')
}

fn exec_vowel_group3(a: char, b: char, c: char) -> (r: bool)
    ensures
        r == vowel_group3(a, b, c),
{
    (a == 'i' && b == 'e' && c == 'u')
        || (a == 'u' && b == 'o' && c == 'u')
        || (a == 'u' && b == 'o' && c == 'i')
        || (a == 'ư' && b == 'o' && c == 'i')
        || (a == 'ư' && b == 'o' && c == 'u')
        || (a == 'y' && b == 'e' && c == 'u')
        || (a == 'i' && b == 'ê' && c == 'u')
        || (a == 'y' && b == 'ê' && c == 'u')
        || (a == 'o' && b == 'a' && c == 'i')
        || (a == 'o' && b == 'a' && c == 'o')
        || (a == 'o' && b == 'a' && c == 'y')
        || (a == 'o' && b == 'e' && c == 'o')
        || (a == 'u' && b == 'a' && c == 'i')
        || (a == 'u' && b == 'â' && c == 'n')
        || (a == 'u' && b == 'â' && c == 'y')
        || (a == 'u' && b == 'ô' && c == 'i')
        || (a == 'ư' && b == 'ơ' && c == 'i')
        || (a == 'ư' && b == 'ơ' && c == 'u')
        || (a == 'u' && b == 'y' && c == 'ê')
        || (a == 'u' && b == 'y' && c == 'a')
        || (a == 'u' && b == 'y' && c == 'u')
        || (a == 'u' && b == 'y' && c == 'e')
}

fn exec_initial_consonant1(a: char) -> (r: bool)
    ensures
        r == initial_consonant1(a),
{
    (a == 'b')
        || (a == 'c')
        || (a == 'd')
        || (a == 'đ')
        || (a == 'g')
        || (a == 'h')
        || (a == 'k')
        || (a == 'l')
        || (a == 'm')
        || (a == 'n')
        || (a == 'p')
        || (a == 'r')
        || (a == 's')
        || (a == 't')
        || (a == 'v')
        || (a == 'x')
        || (a == 'f')
        || (a == 'j')
        || (a == 'w')
        || (a == 'z')
}

fn exec_initial_consonant2(a: char, b: char) -> (r: bool)
    ensures
        r == initial_consonant2(a, b),
{
    (a == 'c' && b == 'h')
        || (a == 'g' && b == 'h')
        || (a == 'g' && b == 'i')
        || (a == 'k' && b == 'h')
        || (a == 'n' && b == 'h')
        || (a == 'n' && b == 'g')
        || (a == 'p' && b == 'h')
        || (a == 'q' && b == 'u')
        || (a == 't' && b == 'h')
        || (a == 't' && b == 'r')
        || (a == 'c' && b == 'l')
        || (a == 'c' && b == 'r')
        || (a == 'b' && b == 'r')
        || (a == 'd' && b == 'r')
        || (a == 'g' && b == 'r')
        || (a == 'f' && b == 'r')
        || (a == 'f' && b == 'l')
        || (a == 'p' && b == 'r')
        || (a == 'p' && b == 'l')
        || (a == 'p' && b == 's')
}

fn exec_initial_consonant3(a: char, b: char, c: char) -> (r: bool)
    ensures
        r == initial_consonant3(a, b, c),
{
    (a == 'n' && b == 'g' && c == 'h')
}

fn exec_final_consonant1(a: char) -> (r: bool)
    ensures
        r == final_consonant1(a),
{
    (a == 'c')
        || (a == 'm')
        || (a == 'n')
        || (a == 'p')
        || (a == 't')
        || (a == 'k')
}

fn exec_final_consonant2(a: char, b: char) -> (r: bool)
    ensures
        r == final_consonant2(a, b),
{
    (a == 'c' && b == 'h')
        || (a == 'n' && b == 'h')
        || (a == 'n' && b == 'g')
}


/// The accepted initial consonants: the Vietnamese ones (`b`, `c`, `ch`,
/// `d`, `đ`, `g`, `gh`, `gi`, `h`, `k`, `kh`, `l`, `m`, `n`, `nh`, `ng`, `ngh`,
/// `p`, `ph`, `qu`, `r`, `s`, `t`, `th`, `tr`, `v`, `x`) and a few foreign ones
/// (`f`, `j`, `w`, `z`, `cl`, `cr`, `br`, `dr`, `gr`, `fr`, `fl`, `pr`, `pl`, `ps`).
pub open spec fn is_initial_consonant(s: Seq<char>) -> bool {
    if s.len() == 1 {
        initial_consonant1(s[0])
    } else if s.len() == 2 {
        initial_consonant2(s[0], s[1])
    } else if s.len() == 3 {
        initial_consonant3(s[0], s[1], s[2])
    } else {
        false
    }
}

/// The final consonants: `c`, `ch`, `m`, `n`, `nh`, `ng`, `p`, `t`, `k`.
pub open spec fn is_final_consonant(s: Seq<char>) -> bool {
    if s.len() == 1 {
        final_consonant1(s[0])
    } else if s.len() == 2 {
        final_consonant2(s[0], s[1])
    } else {
        false
    }
}

/// The valid Vietnamese vowel combinations.
pub open spec fn spec_is_valid_vowel_group(s: Seq<char>) -> bool {
    if s.len() == 1 {
        vowel_group1(s[0])
    } else if s.len() == 2 {
        vowel_group2(s[0], s[1])
    } else if s.len() == 3 {
        vowel_group3(s[0], s[1], s[2])
    } else {
        false
    }
}

/// Some accepted initial consonant begins with `s`.
pub open spec fn is_initial_consonant_prefix(s: Seq<char>) -> bool {
    exists|ic: Seq<char>| #[trigger] is_initial_consonant(ic) && s.is_prefix_of(ic)
}

pub fn initial_consonant_chars(s: &[char]) -> (r: bool)
    ensures
        r == is_initial_consonant(s@),
{
    if s.len() == 1 {
        exec_initial_consonant1(s[0])
    } else if s.len() == 2 {
        exec_initial_consonant2(s[0], s[1])
    } else if s.len() == 3 {
        exec_initial_consonant3(s[0], s[1], s[2])
    } else {
        false
    }
}

pub fn final_consonant_chars(s: &[char]) -> (r: bool)
    ensures
        r == is_final_consonant(s@),
{
    if s.len() == 1 {
        exec_final_consonant1(s[0])
    } else if s.len() == 2 {
        exec_final_consonant2(s[0], s[1])
    } else {
        false
    }
}

pub fn valid_vowel_group_chars(s: &[char]) -> (r: bool)
    ensures
        r == spec_is_valid_vowel_group(s@),
{
    if s.len() == 1 {
        exec_vowel_group1(s[0])
    } else if s.len() == 2 {
        exec_vowel_group2(s[0], s[1])
    } else if s.len() == 3 {
        exec_vowel_group3(s[0], s[1], s[2])
    } else {
        false
    }
}

/// Whether `vg` is a valid Vietnamese vowel combination.
pub fn is_valid_vowel_group(vg: &str) -> (r: bool)
    ensures
        r == spec_is_valid_vowel_group(vg@),
{
    let v = str_chars(vg);
    valid_vowel_group_chars(&v)
}

/// First characters of the accepted initial consonants.
pub open spec fn initial_consonant_start(a: char) -> bool {
    initial_consonant1(a) || a == 'q'
}

/// Whether some accepted initial consonant begins with `s`.
pub fn initial_consonant_prefix_chars(s: &[char]) -> (r: bool)
    ensures
        r == is_initial_consonant_prefix(s@),
{
    let r = if s.len() == 0 {
        true
    } else if s.len() == 1 {
        exec_initial_consonant1(s[0]) || s[0] == 'q'
    } else if s.len() == 2 {
        exec_initial_consonant2(s[0], s[1])
    } else if s.len() == 3 {
        exec_initial_consonant3(s[0], s[1], s[2])
    } else {
        false
    };
    proof {
        lemma_initial_consonant_prefix(s@);
    }
    r
}

proof fn lemma_initial_consonant_prefix(s: Seq<char>)
    ensures
        is_initial_consonant_prefix(s) == (if s.len() == 0 {
            true
        } else if s.len() == 1 {
            initial_consonant_start(s[0])
        } else if s.len() == 2 {
            initial_consonant2(s[0], s[1])
        } else if s.len() == 3 {
            initial_consonant3(s[0], s[1], s[2])
        } else {
            false
        }),
{
    if s.len() == 0 {
        let w = seq!['b'];
        assert(is_initial_consonant(w));
        assert(s.is_prefix_of(w));
    } else if s.len() == 1 {
        if initial_consonant1(s[0]) {
            assert(is_initial_consonant(s));
            assert(s.is_prefix_of(s));
        } else if s[0] == 'q' {
            let w = seq!['q', 'u'];
            assert(is_initial_consonant(w));
            assert(s.is_prefix_of(w));
        } else {
            assert forall|ic: Seq<char>| #[trigger] is_initial_consonant(ic) implies !s.is_prefix_of(
                ic,
            ) by {
                if s.is_prefix_of(ic) {
                    assert(s[0] == ic[0]);
                }
            }
        }
    } else if s.len() == 2 {
        if initial_consonant2(s[0], s[1]) {
            assert(is_initial_consonant(s));
            assert(s.is_prefix_of(s));
        } else {
            assert forall|ic: Seq<char>| #[trigger] is_initial_consonant(ic) implies !s.is_prefix_of(
                ic,
            ) by {
                if s.is_prefix_of(ic) {
                    assert(s[0] == ic[0]);
                    assert(s[1] == ic[1]);
                }
            }
        }
    } else if s.len() == 3 {
        if initial_consonant3(s[0], s[1], s[2]) {
            assert(is_initial_consonant(s));
            assert(s.is_prefix_of(s));
        } else {
            assert forall|ic: Seq<char>| #[trigger] is_initial_consonant(ic) implies !s.is_prefix_of(
                ic,
            ) by {
                if s.is_prefix_of(ic) {
                    assert(s[0] == ic[0]);
                    assert(s[1] == ic[1]);
                    assert(s[2] == ic[2]);
                }
            }
        }
    } else {
        assert forall|ic: Seq<char>| #[trigger] is_initial_consonant(ic) implies !s.is_prefix_of(
            ic,
        ) by {}
    }
}


// ---------------------------------------------------------------------------
// Casing.
// ---------------------------------------------------------------------------

/// Letter case of a word.
#[derive(Debug, Clone, Copy, PartialEq, Eq, Structural)]
pub enum Casing {
    Lowercase,
    Capitalized,
    Uppercase,
}

/// Every character of `s` is uppercase or not a letter.
pub open spec fn all_upper_or_unlettered(s: Seq<char>) -> bool {
    forall|i: int| 0 <= i < s.len() ==> spec_is_uppercase(s[i]) || !spec_is_alphabetic(s[i])
}

/// Casing of a word: empty words are lowercase; a word whose letters are all
/// uppercase is uppercase; a word whose first character is uppercase is
/// capitalized; any other word is lowercase.
pub open spec fn spec_detect_casing(s: Seq<char>) -> Casing {
    if s.len() == 0 {
        Casing::Lowercase
    } else if all_upper_or_unlettered(s) {
        Casing::Uppercase
    } else if spec_is_uppercase(s[0]) {
        Casing::Capitalized
    } else {
        Casing::Lowercase
    }
}

/// Uppercase form used for a whole-word uppercase: the Vietnamese letters
/// `đ â ă ê ô ơ ư` map to their capitals, other characters by Unicode.
pub open spec fn upper_vn(c: char) -> char {
    if c == 'đ' {
        'Đ'
    } else if c == 'â' {
        'Â'
    } else if c == 'ă' {
        'Ă'
    } else if c == 'ê' {
        'Ê'
    } else if c == 'ô' {
        'Ô'
    } else if c == 'ơ' {
        'Ơ'
    } else if c == 'ư' {
        'Ư'
    } else {
        spec_upper_char(c)
    }
}

/// Uppercase form used for the first letter of a capitalized word.
pub open spec fn capital_first(c: char) -> char {
    if c == 'đ' {
        'Đ'
    } else {
        spec_upper_char(c)
    }
}

/// Applies a casing to a lowercase word.
pub open spec fn spec_apply_casing(s: Seq<char>, casing: Casing) -> Seq<char> {
    match casing {
        Casing::Lowercase => s,
        Casing::Capitalized => if s.len() == 0 {
            s
        } else {
            seq![capital_first(s[0])] + s.skip(1)
        },
        Casing::Uppercase => Seq::new(s.len(), |i: int| upper_vn(s[i])),
    }
}

impl Casing {
    /// Casing of a word held as characters.
    pub fn detect_chars(input: &[char]) -> (r: Casing)
        ensures
            r == spec_detect_casing(input@),
    {
        if input.len() == 0 {
            return Casing::Lowercase;
        }
        let mut all_upper = true;
        let mut i: usize = 0;
        while i < input.len()
            invariant
                0 <= i <= input.len(),
                all_upper == all_upper_or_unlettered(input@.take(i as int)),
            decreases input.len() - i,
        {
            let c = input[i];
            let ok = is_uppercase(c) || !is_alphabetic(c);
            proof {
                let a = input@.take(i as int);
                let b = input@.take(i as int + 1);
                assert(b[i as int] == c);
                if all_upper_or_unlettered(b) {
                    assert forall|k: int| 0 <= k < a.len() implies spec_is_uppercase(a[k])
                        || !spec_is_alphabetic(a[k]) by {
                        assert(a[k] == b[k]);
                    }
                    assert(spec_is_uppercase(b[i as int]) || !spec_is_alphabetic(b[i as int]));
                }
                if all_upper_or_unlettered(a) && ok {
                    assert forall|k: int| 0 <= k < b.len() implies spec_is_uppercase(b[k])
                        || !spec_is_alphabetic(b[k]) by {
                        if k < i {
                            assert(a[k] == b[k]);
                        }
                    }
                }
            }
            all_upper = all_upper && ok;
            i = i + 1;
        }
        assert(input@.take(input.len() as int) =~= input@);
        if all_upper {
            return Casing::Uppercase;
        }
        if is_uppercase(input[0]) {
            return Casing::Capitalized;
        }
        Casing::Lowercase
    }

    /// Casing of a word.
    pub fn detect(input: &str) -> (r: Casing)
        ensures
            r == spec_detect_casing(input@),
    {
        let v = str_chars(input);
        Casing::detect_chars(&v)
    }
}

fn exec_upper_vn(c: char) -> (r: char)
    ensures
        r == upper_vn(c),
{
    if c == 'đ' {
        'Đ'
    } else if c == 'â' {
        'Â'
    } else if c == 'ă' {
        'Ă'
    } else if c == 'ê' {
        'Ê'
    } else if c == 'ô' {
        'Ô'
    } else if c == 'ơ' {
        'Ơ'
    } else if c == 'ư' {
        'Ư'
    } else {
        upper_char(c)
    }
}

/// Applies a casing to a lowercase word held as characters.
pub fn apply_casing(s: Vec<char>, casing: Casing) -> (r: Vec<char>)
    ensures
        r@ == spec_apply_casing(s@, casing),
{
    match casing {
        Casing::Lowercase => s,
        Casing::Capitalized => {
            if s.len() == 0 {
                s
            } else {
                let first = s[0];
                let cap = if first == 'đ' {
                    'Đ'
                } else {
                    upper_char(first)
                };
                let mut r: Vec<char> = Vec::new();
                r.push(cap);
                let mut i: usize = 1;
                while i < s.len()
                    invariant
                        1 <= i <= s.len(),
                        r@ == seq![cap] + s@.subrange(1, i as int),
                    decreases s.len() - i,
                {
                    r.push(s[i]);
                    i = i + 1;
                    assert(r@ =~= seq![cap] + s@.subrange(1, i as int));
                }
                assert(s@.subrange(1, s.len() as int) =~= s@.skip(1));
                r
            }
        },
        Casing::Uppercase => {
            let mut r: Vec<char> = Vec::new();
            let mut i: usize = 0;
            while i < s.len()
                invariant
                    0 <= i <= s.len(),
                    r@ =~= Seq::new(i as nat, |k: int| upper_vn(s@[k])),
                decreases s.len() - i,
            {
                let u = exec_upper_vn(s[i]);
                r.push(u);
                i = i + 1;
            }
            r
        },
    }
}


// ---------------------------------------------------------------------------
// Syllables.
// ---------------------------------------------------------------------------

/// A syllable split into initial consonant, base vowels (without tone marks),
/// final consonant and tone.
#[derive(Debug, Clone, PartialEq, Eq)]
pub struct Syllable {
    pub initial: Vec<char>,
    pub vowels: Vec<char>,
    pub final_consonant: Vec<char>,
    pub tone: Tone,
}

/// Mathematical model of a `Syllable`.
pub struct SyllableView {
    pub initial: Seq<char>,
    pub vowels: Seq<char>,
    pub final_consonant: Seq<char>,
    pub tone: Tone,
}

impl View for Syllable {
    type V = SyllableView;

    open spec fn view(&self) -> SyllableView {
        SyllableView {
            initial: self.initial@,
            vowels: self.vowels@,
            final_consonant: self.final_consonant@,
            tone: self.tone,
        }
    }
}

/// Model of an optional syllable.
pub open spec fn opt_syllable_view(o: Option<Syllable>) -> Option<SyllableView> {
    match o {
        Some(s) => Some(s@),
        None => None,
    }
}

/// `c` is a vowel, possibly accented, in either case.
pub open spec fn is_vowel_char(c: char) -> bool {
    spec_find_vowel_info(c) is Some
}

pub open spec fn vowel_base_of(c: char) -> char {
    spec_find_vowel_info(c).unwrap().0
}

pub open spec fn vowel_tone_of(c: char) -> Tone {
    spec_find_vowel_info(c).unwrap().1
}

/// Index of the first vowel of `s` at or after `i` (`s.len()` if none).
pub open spec fn first_vowel_from(s: Seq<char>, i: int) -> int
    decreases s.len() - i,
{
    if i >= s.len() {
        s.len() as int
    } else if is_vowel_char(s[i]) {
        i
    } else {
        first_vowel_from(s, i + 1)
    }
}

/// Index of the first non-vowel of `s` at or after `i` (`s.len()` if none).
pub open spec fn vowel_run_end(s: Seq<char>, i: int) -> int
    decreases s.len() - i,
{
    if i >= s.len() {
        s.len() as int
    } else if !is_vowel_char(s[i]) {
        i
    } else {
        vowel_run_end(s, i + 1)
    }
}

/// The word starts with `g` followed by an `i` vowel (of any tone).
pub open spec fn gi_start(s: Seq<char>) -> bool {
    s.len() >= 2 && spec_ascii_lower(s[0]) == 'g' && is_vowel_char(s[1]) && vowel_base_of(s[1])
        == 'i'
}

/// Each character lowercased.
pub open spec fn lowered(s: Seq<char>) -> Seq<char> {
    Seq::new(s.len(), |k: int| spec_lower_char(s[k]))
}

/// The initial consonant of a word: its text, where the vowels start, and the
/// tone it carries (`gi` with an accented `i` carries one); `None` when the
/// letters before the first vowel are no accepted initial consonant.
///
/// A word starting with `g` and an `i` vowel has initial `gi` when another
/// vowel follows, else `g`.  Otherwise the initial is everything before the
/// first vowel, accepted when its lowercase form is an initial consonant, or
/// when it is `q` followed by `u`, which joins it.
pub open spec fn parse_initial(s: Seq<char>) -> Option<(Seq<char>, int, Tone)> {
    if gi_start(s) {
        if first_vowel_from(s, 2) < s.len() {
            Some((seq!['g', 'i'], 2, vowel_tone_of(s[1])))
        } else {
            Some((seq!['g'], 1, Tone::Ngang))
        }
    } else {
        let idx = first_vowel_from(s, 0);
        let t = lowered(s.take(idx));
        if idx == 0 {
            Some((Seq::empty(), 0, Tone::Ngang))
        } else if is_initial_consonant(t) {
            Some((s.take(idx), idx, Tone::Ngang))
        } else if is1(t, 'q') && idx < s.len() && spec_ascii_lower(s[idx]) == 'u' {
            Some((s.take(idx + 1), idx + 1, Tone::Ngang))
        } else {
            None
        }
    }
}

/// Base vowels of `s[from..to]`.
pub open spec fn vowel_bases(s: Seq<char>, from: int, to: int) -> Seq<char> {
    Seq::new((to - from) as nat, |k: int| vowel_base_of(s[from + k]))
}

/// The last tone other than `Ngang` among the vowels `s[from..to]`
/// (`Ngang` if there is none).
pub open spec fn last_tone(s: Seq<char>, from: int, to: int) -> Tone
    decreases to - from,
{
    if to <= from {
        Tone::Ngang
    } else {
        let t = vowel_tone_of(s[to - 1]);
        if t != Tone::Ngang {
            t
        } else {
            last_tone(s, from, to - 1)
        }
    }
}

/// `s[from..]` with ASCII letters lowercased.
pub open spec fn ascii_lowered_from(s: Seq<char>, from: int) -> Seq<char> {
    Seq::new((s.len() - from) as nat, |k: int| spec_ascii_lower(s[from + k]))
}

/// `e`, `ê`, `i`, `y`: the vowels that `gh`, `ngh`, `k` need and `ng`, `c`
/// refuse.
pub open spec fn is_front_vowel(v: char) -> bool {
    v == 'e' || v == 'ê' || v == 'i' || v == 'y'
}

/// Spelling rules between the (lowercased) initial and the first vowel:
/// `gh`, `ngh`, `k` only before `e ê i y`; `g` never before `e ê y`; `ng`,
/// `c` never before `e ê i y`.
pub open spec fn initial_fits_vowel(li: Seq<char>, fv: char) -> bool {
    &&& !((is2(li, 'g', 'h') || is3(li, 'n', 'g', 'h') || is1(li, 'k')) && !is_front_vowel(fv))
    &&& !(is1(li, 'g') && (fv == 'e' || fv == 'ê' || fv == 'y'))
    &&& !((is2(li, 'n', 'g') || is1(li, 'c')) && is_front_vowel(fv))
}

/// The syllable a word spells, if it is one: an accepted initial, a run of
/// vowels forming a valid vowel group, and an optional final consonant,
/// obeying the initial/vowel spelling rules.  The tone is the last tone mark
/// on the vowels, else the one carried by `gi`.
pub open spec fn spec_parse(s: Seq<char>) -> Option<SyllableView> {
    if s.len() == 0 {
        None
    } else {
        match parse_initial(s) {
            None => None,
            Some((init, start, t0)) => {
                let end = vowel_run_end(s, start);
                let vowels = vowel_bases(s, start, end);
                let dt = last_tone(s, start, end);
                let tone = if dt != Tone::Ngang {
                    dt
                } else {
                    t0
                };
                let fin = ascii_lowered_from(s, end);
                if fin.len() > 0 && !is_final_consonant(fin) {
                    None
                } else if vowels.len() == 0 {
                    None
                } else if !spec_is_valid_vowel_group(vowels) {
                    None
                } else if !initial_fits_vowel(spec_str_lowercase(init), vowels[0]) {
                    None
                } else {
                    Some(SyllableView { initial: init, vowels, final_consonant: fin, tone })
                }
            },
        }
    }
}

/// With a final consonant, a horned `ư`/`ơ` pair is completed: `ưo`, `uơ`
/// become `ươ` and `ưoi`, `uơi` become `ươi`.
pub open spec fn spec_horn_complete(v: Seq<char>, has_final: bool) -> Seq<char> {
    if has_final && (is2(v, 'ư', 'o') || is2(v, 'u', 'ơ')) {
        seq!['ư', 'ơ']
    } else if has_final && (is3(v, 'ư', 'o', 'i') || is3(v, 'u', 'ơ', 'i')) {
        seq!['ư', 'ơ', 'i']
    } else {
        v
    }
}

/// The vowels with the tone applied at `pos` and no mark elsewhere.
pub open spec fn toned_vowels(v: Seq<char>, pos: int, tone: Tone) -> Seq<char> {
    Seq::new(
        v.len(),
        |i: int|
            spec_vowel_variant(
                v[i],
                if i == pos {
                    tone
                } else {
                    Tone::Ngang
                },
            ),
    )
}

/// The lowercase text of a syllable under a tone style.
pub open spec fn spec_syllable_text(syl: SyllableView, style: ToneStyle) -> Seq<char> {
    let hf = syl.final_consonant.len() > 0;
    let v = spec_horn_complete(syl.vowels, hf);
    let pos = spec_tone_position(v, hf, syl.initial, style);
    syl.initial + toned_vowels(v, pos, syl.tone) + syl.final_consonant
}

/// The text of a syllable under a tone style and a casing.
pub open spec fn spec_to_string(syl: SyllableView, style: ToneStyle, casing: Casing) -> Seq<
    char,
> {
    spec_apply_casing(spec_syllable_text(syl, style), casing)
}

fn first_vowel_from_exec(s: &[char], from: usize) -> (r: usize)
    requires
        from <= s.len(),
    ensures
        r as int == first_vowel_from(s@, from as int),
        r <= s.len(),
{
    let mut i = from;
    while i < s.len()
        invariant
            from <= i <= s.len(),
            first_vowel_from(s@, i as int) == first_vowel_from(s@, from as int),
        decreases s.len() - i,
    {
        if find_vowel_info(s[i]).is_some() {
            return i;
        }
        i = i + 1;
    }
    i
}

fn lowered_exec(s: &[char], n: usize) -> (r: Vec<char>)
    requires
        n <= s.len(),
    ensures
        r@ == lowered(s@.take(n as int)),
{
    let mut r: Vec<char> = Vec::new();
    let mut k: usize = 0;
    while k < n
        invariant
            0 <= k <= n <= s.len(),
            r@ =~= Seq::new(k as nat, |j: int| spec_lower_char(s@[j])),
        decreases n - k,
    {
        r.push(lower_char(s[k]));
        k = k + 1;
    }
    assert(r@ =~= lowered(s@.take(n as int)));
    r
}

fn parse_initial_exec(s: &[char]) -> (r: Option<(Vec<char>, usize, Tone)>)
    ensures
        match r {
            Some((i, st, t)) => parse_initial(s@) == Some((i@, st as int, t)) && st <= s.len(),
            None => parse_initial(s@) is None,
        },
{
    let mut gi = false;
    let mut gi_tone = Tone::Ngang;
    if s.len() >= 2 && ascii_lower(s[0]) == 'g' {
        match find_vowel_info(s[1]) {
            Some((b, t)) => {
                if b == 'i' {
                    gi = true;
                    gi_tone = t;
                }
            },
            None => {},
        }
    }
    assert(gi == gi_start(s@));
    if gi {
        let k = first_vowel_from_exec(s, 2);
        if k < s.len() {
            let mut v: Vec<char> = Vec::new();
            v.push('g');
            v.push('i');
            assert(v@ =~= seq!['g', 'i']);
            return Some((v, 2, gi_tone));
        } else {
            let mut v: Vec<char> = Vec::new();
            v.push('g');
            assert(v@ =~= seq!['g']);
            return Some((v, 1, Tone::Ngang));
        }
    }
    let idx = first_vowel_from_exec(s, 0);
    if idx == 0 {
        let v: Vec<char> = Vec::new();
        assert(v@ =~= Seq::<char>::empty());
        return Some((v, 0, Tone::Ngang));
    }
    let t = lowered_exec(s, idx);
    if initial_consonant_chars(&t) {
        let init = slice_chars(s, 0, idx);
        assert(init@ =~= s@.take(idx as int));
        return Some((init, idx, Tone::Ngang));
    }
    if eq1(&t, 'q') && idx < s.len() && ascii_lower(s[idx]) == 'u' {
        let init = slice_chars(s, 0, idx + 1);
        assert(init@ =~= s@.take(idx as int + 1));
        return Some((init, idx + 1, Tone::Ngang));
    }
    None
}

fn initial_fits_vowel_exec(li: &[char], fv: char) -> (r: bool)
    ensures
        r == initial_fits_vowel(li@, fv),
{
    let front = fv == 'e' || fv == 'ê' || fv == 'i' || fv == 'y';
    if (eq2(li, 'g', 'h') || eq3(li, 'n', 'g', 'h') || eq1(li, 'k')) && !front {
        return false;
    }
    if eq1(li, 'g') && (fv == 'e' || fv == 'ê' || fv == 'y') {
        return false;
    }
    if (eq2(li, 'n', 'g') || eq1(li, 'c')) && front {
        return false;
    }
    true
}

fn horn_complete_exec(v: &[char], has_final: bool) -> (r: Vec<char>)
    ensures
        r@ == spec_horn_complete(v@, has_final),
{
    if has_final && (eq2(v, 'ư', 'o') || eq2(v, 'u', 'ơ')) {
        let mut r: Vec<char> = Vec::new();
        r.push('ư');
        r.push('ơ');
        assert(r@ =~= seq!['ư', 'ơ']);
        r
    } else if has_final && (eq3(v, 'ư', 'o', 'i') || eq3(v, 'u', 'ơ', 'i')) {
        let mut r: Vec<char> = Vec::new();
        r.push('ư');
        r.push('ơ');
        r.push('i');
        assert(r@ =~= seq!['ư', 'ơ', 'i']);
        r
    } else {
        slice_chars(v, 0, v.len())
    }
}

impl Syllable {
    pub fn new() -> (r: Syllable)
        ensures
            r@.initial.len() == 0,
            r@.vowels.len() == 0,
            r@.final_consonant.len() == 0,
            r@.tone == Tone::Ngang,
    {
        Syllable {
            initial: Vec::new(),
            vowels: Vec::new(),
            final_consonant: Vec::new(),
            tone: Tone::Ngang,
        }
    }

    /// Parse a word held as characters into a syllable; `None` if it is
    /// definitely not a valid Vietnamese syllable.
    pub fn parse_chars(s: &[char]) -> (r: Option<Syllable>)
        ensures
            opt_syllable_view(r) == spec_parse(s@),
    {
        if s.len() == 0 {
            return None;
        }
        let (initial, start, t0) = match parse_initial_exec(s) {
            Some(x) => x,
            None => {
                return None;
            },
        };
        let mut vowels: Vec<char> = Vec::new();
        let mut dt = Tone::Ngang;
        let mut i = start;
        loop
            invariant_except_break
                start <= i <= s.len(),
                vowel_run_end(s@, i as int) == vowel_run_end(s@, start as int),
                vowels@ =~= vowel_bases(s@, start as int, i as int),
                dt == last_tone(s@, start as int, i as int),
            ensures
                start <= i <= s.len(),
                vowel_run_end(s@, start as int) == i,
                vowels@ =~= vowel_bases(s@, start as int, i as int),
                dt == last_tone(s@, start as int, i as int),
            decreases s.len() - i,
        {
            if i >= s.len() {
                break ;
            }
            match find_vowel_info(s[i]) {
                Some((b, t)) => {
                    vowels.push(b);
                    if t != Tone::Ngang {
                        dt = t;
                    }
                    i = i + 1;
                },
                None => {
                    break ;
                },
            }
        }
        let end = i;
        let tone = if dt != Tone::Ngang {
            dt
        } else {
            t0
        };
        let mut fin: Vec<char> = Vec::new();
        let mut k = end;
        while k < s.len()
            invariant
                end <= k <= s.len(),
                fin@ =~= Seq::new((k - end) as nat, |j: int| spec_ascii_lower(s@[end + j])),
            decreases s.len() - k,
        {
            fin.push(ascii_lower(s[k]));
            k = k + 1;
        }
        assert(fin@ =~= ascii_lowered_from(s@, end as int));
        if fin.len() > 0 && !final_consonant_chars(&fin) {
            return None;
        }
        if vowels.len() == 0 {
            return None;
        }
        if !valid_vowel_group_chars(&vowels) {
            return None;
        }
        let li = str_lowercase(&initial);
        if !initial_fits_vowel_exec(&li, vowels[0]) {
            return None;
        }
        Some(Syllable { initial, vowels, final_consonant: fin, tone })
    }

    /// Parse a word into a syllable; `None` if it is definitely not a valid
    /// Vietnamese syllable.
    pub fn parse(input: &str) -> (r: Option<Syllable>)
        ensures
            opt_syllable_view(r) == spec_parse(input@),
    {
        let v = str_chars(input);
        Syllable::parse_chars(&v)
    }

    /// The text of the syllable under a tone style and a casing, as characters.
    pub fn to_chars(&self, tone_style: ToneStyle, casing: Casing) -> (r: Vec<char>)
        ensures
            r@ == spec_to_string(self@, tone_style, casing),
    {
        let has_final = self.final_consonant.len() > 0;
        let vowels = horn_complete_exec(&self.vowels, has_final);
        let pos = find_tone_position(&vowels, has_final, &self.initial, tone_style);
        let mut combined = slice_chars(&self.initial, 0, self.initial.len());
        assert(combined@ =~= self.initial@);
        let ghost tv = toned_vowels(vowels@, pos as int, self.tone);
        let mut i: usize = 0;
        while i < vowels.len()
            invariant
                0 <= i <= vowels.len(),
                tv == toned_vowels(vowels@, pos as int, self.tone),
                combined@ =~= self.initial@ + tv.take(i as int),
            decreases vowels.len() - i,
        {
            let t = if i == pos {
                self.tone
            } else {
                Tone::Ngang
            };
            let c = vowel_variant(vowels[i], t);
            combined.push(c);
            i = i + 1;
            assert(combined@ =~= self.initial@ + tv.take(i as int));
        }
        assert(tv.take(vowels.len() as int) =~= tv);
        extend_chars(&mut combined, &self.final_consonant);
        assert(combined@ =~= spec_syllable_text(self@, tone_style));
        apply_casing(combined, casing)
    }

    /// Reconstruct the syllable to a `String` using the given tone style and
    /// casing.
    pub fn to_string(&self, tone_style: ToneStyle, casing: Casing) -> (r: String)
        ensures
            r@ == spec_to_string(self@, tone_style, casing),
    {
        let v = self.to_chars(tone_style, casing);
        string_from_chars(&v)
    }
}


/// A syllable that is only a step towards a longer one: a final consonant
/// after `ie`, `uă`, `ue` or `uye`.
pub open spec fn spec_is_intermediate(syl: SyllableView) -> bool {
    syl.final_consonant.len() > 0 && (is2(syl.vowels, 'i', 'e') || is2(syl.vowels, 'u', 'ă')
        || is2(syl.vowels, 'u', 'e') || is3(syl.vowels, 'u', 'y', 'e'))
}

pub fn is_intermediate_syllable(syl: &Syllable) -> (r: bool)
    ensures
        r == spec_is_intermediate(syl@),
{
    syl.final_consonant.len() > 0 && (eq2(&syl.vowels, 'i', 'e') || eq2(&syl.vowels, 'u', 'ă')
        || eq2(&syl.vowels, 'u', 'e') || eq3(&syl.vowels, 'u', 'y', 'e'))
}

// ---------------------------------------------------------------------------
// Rendering a parsed syllable.
// ---------------------------------------------------------------------------

/// An accented form of a base vowel is read back as that vowel and tone.
proof fn lemma_variant_is_vowel(b: char, t: Tone)
    requires
        is_base_vowel(b),
    ensures
        is_vowel_char(spec_vowel_variant(b, t)),
        vowel_base_of(spec_vowel_variant(b, t)) == b,
        vowel_tone_of(spec_vowel_variant(b, t)) == t,
{
    let c = spec_vowel_variant(b, t);
    lemma_vowel_table_roundtrip(b, t, c);
    assert(spec_vowel_lookup(c) == Some((b, t)));
    if (c as int) < 128 {
        assert(!('A' <= c && c <= 'Z'));
    }
    assert(spec_lower_char(c) == c);
}

/// A character the parser reads as a vowel has a base vowel.
proof fn lemma_vowel_base(c: char)
    requires
        is_vowel_char(c),
    ensures
        is_base_vowel(vowel_base_of(c)),
{
    let l = spec_lower_char(c);
    lemma_vowel_table_roundtrip('a', Tone::Ngang, l);
}

/// Final consonant letters are no vowels, and lowercasing leaves them.
proof fn lemma_final_letter(c: char)
    requires
        c == 'c' || c == 'h' || c == 'm' || c == 'n' || c == 'g' || c == 'p' || c == 't' || c
            == 'k',
    ensures
        !is_vowel_char(c),
        spec_ascii_lower(c) == c,
{
    assert(spec_lower_char(c) == c);
}

/// The run of vowels starting at `i` ends at `e` when all of `s[i..e]` are
/// vowels and `s[e]` is none (or `e` is the end).
proof fn lemma_vowel_run_end_is(s: Seq<char>, i: int, e: int)
    requires
        0 <= i <= e <= s.len(),
        forall|k: int| i <= k < e ==> is_vowel_char(#[trigger] s[k]),
        e < s.len() ==> !is_vowel_char(s[e]),
    ensures
        vowel_run_end(s, i) == e,
    decreases e - i,
{
    if i < e {
        lemma_vowel_run_end_is(s, i + 1, e);
    }
}

/// What `vowel_run_end` gives: a run of vowels ended by a non-vowel or the
/// end of the word.
proof fn lemma_vowel_run_end_facts(s: Seq<char>, i: int)
    requires
        0 <= i <= s.len(),
    ensures
        i <= vowel_run_end(s, i) <= s.len(),
        forall|k: int| i <= k < vowel_run_end(s, i) ==> is_vowel_char(#[trigger] s[k]),
        vowel_run_end(s, i) < s.len() ==> !is_vowel_char(s[vowel_run_end(s, i)]),
    decreases s.len() - i,
{
    if i < s.len() && is_vowel_char(s[i]) {
        lemma_vowel_run_end_facts(s, i + 1);
    }
}

/// The first vowel at or after `i` is at `e` when none of `s[i..e]` is one
/// and `s[e]` is (or `e` is the end).
proof fn lemma_first_vowel_is(s: Seq<char>, i: int, e: int)
    requires
        0 <= i <= e <= s.len(),
        forall|k: int| i <= k < e ==> !is_vowel_char(#[trigger] s[k]),
        e < s.len() ==> is_vowel_char(s[e]),
    ensures
        first_vowel_from(s, i) == e,
    decreases e - i,
{
    if i < e {
        lemma_first_vowel_is(s, i + 1, e);
    }
}

/// What `first_vowel_from` gives.
proof fn lemma_first_vowel_facts(s: Seq<char>, i: int)
    requires
        0 <= i <= s.len(),
    ensures
        i <= first_vowel_from(s, i) <= s.len(),
        forall|k: int| i <= k < first_vowel_from(s, i) ==> !is_vowel_char(#[trigger] s[k]),
        first_vowel_from(s, i) < s.len() ==> is_vowel_char(s[first_vowel_from(s, i)]),
    decreases s.len() - i,
{
    if i < s.len() && !is_vowel_char(s[i]) {
        lemma_first_vowel_facts(s, i + 1);
    }
}

/// The last tone of vowels whose marks are all level except at `p`.
proof fn lemma_last_tone_single(s: Seq<char>, from: int, to: int, p: int, t: Tone)
    requires
        from <= p < to,
        0 <= from,
        to <= s.len(),
        vowel_tone_of(s[p]) == t,
        forall|k: int| from <= k < to && k != p ==> vowel_tone_of(#[trigger] s[k]) == Tone::Ngang,
    ensures
        last_tone(s, from, to) == t,
    decreases to - from,
{
    if to - 1 != p {
        lemma_last_tone_single(s, from, to - 1, p, t);
    } else if t == Tone::Ngang {
        lemma_last_tone_level(s, from, to - 1);
    }
}

proof fn lemma_last_tone_level(s: Seq<char>, from: int, to: int)
    requires
        0 <= from,
        to <= s.len(),
        forall|k: int| from <= k < to ==> vowel_tone_of(#[trigger] s[k]) == Tone::Ngang,
    ensures
        last_tone(s, from, to) == Tone::Ngang,
    decreases to - from,
{
    if to > from {
        lemma_last_tone_level(s, from, to - 1);
    }
}

/// The tone goes on one of the vowels.
proof fn lemma_tone_position_bounds(v: Seq<char>, hf: bool, init: Seq<char>, style: ToneStyle)
    requires
        v.len() >= 1,
    ensures
        0 <= spec_tone_position(v, hf, init, style) < v.len(),
{
}

/// The initial of a parsed word: how long it is, and that the vowels start
/// right after it with a vowel.
proof fn lemma_parse_initial_facts(s: Seq<char>)
    requires
        parse_initial(s) is Some,
    ensures
        ({
            let (init, start, t0) = parse_initial(s).unwrap();
            &&& init.len() == start
            &&& 0 <= start <= s.len()
            &&& (gi_start(s) && first_vowel_from(s, 2) < s.len()) ==> init == seq!['g', 'i']
                && start == 2
            &&& (gi_start(s) && first_vowel_from(s, 2) >= s.len()) ==> init == seq!['g'] && start
                == 1 && t0 == Tone::Ngang
            &&& !gi_start(s) ==> init == s.take(start) && t0 == Tone::Ngang
        }),
{
    if gi_start(s) {
        lemma_first_vowel_facts(s, 2);
    } else {
        lemma_first_vowel_facts(s, 0);
    }
}


/// The text `init + tv + fin` seen from the position after the initial.
proof fn lemma_rendered_body(
    s1: Seq<char>,
    init: Seq<char>,
    tv: Seq<char>,
    fin: Seq<char>,
    v: Seq<char>,
    pos: int,
    tone: Tone,
)
    requires
        s1 == init + tv + fin,
        tv.len() == v.len(),
        0 <= pos < v.len(),
        forall|k: int|
            0 <= k < tv.len() ==> is_vowel_char(#[trigger] tv[k]) && vowel_base_of(tv[k]) == v[k]
                && vowel_tone_of(tv[k]) == (if k == pos {
                tone
            } else {
                Tone::Ngang
            }),
        forall|k: int|
            0 <= k < fin.len() ==> !is_vowel_char(#[trigger] fin[k]) && spec_ascii_lower(fin[k])
                == fin[k],
    ensures
        vowel_run_end(s1, init.len() as int) == (init.len() + tv.len()) as int,
        vowel_bases(s1, init.len() as int, (init.len() + tv.len()) as int) == v,
        last_tone(s1, init.len() as int, (init.len() + tv.len()) as int) == if tone != Tone::Ngang {
            tone
        } else {
            Tone::Ngang
        },
        ascii_lowered_from(s1, (init.len() + tv.len()) as int) == fin,
{
    let start = init.len() as int;
    let e1 = start + tv.len();
    assert forall|k: int| start <= k < e1 implies #[trigger] s1[k] == tv[k - start] by {}
    assert forall|k: int| e1 <= k < s1.len() implies #[trigger] s1[k] == fin[k - e1] by {}
    assert forall|k: int| start <= k < e1 implies is_vowel_char(#[trigger] s1[k]) by {
        assert(s1[k] == tv[k - start]);
    }
    if e1 < s1.len() {
        assert(s1[e1] == fin[0]);
    }
    lemma_vowel_run_end_is(s1, start, e1);
    assert(vowel_bases(s1, start, e1) =~= v) by {
        assert forall|k: int| 0 <= k < v.len() implies vowel_bases(s1, start, e1)[k] == v[k] by {
            assert(s1[start + k] == tv[k]);
        }
    }
    if tone != Tone::Ngang {
        assert forall|k: int| start <= k < e1 && k != start + pos implies vowel_tone_of(
            #[trigger] s1[k],
        ) == Tone::Ngang by {
            assert(s1[k] == tv[k - start]);
        }
        assert(s1[start + pos] == tv[pos]);
        lemma_last_tone_single(s1, start, e1, start + pos, tone);
    } else {
        assert forall|k: int| start <= k < e1 implies vowel_tone_of(#[trigger] s1[k])
            == Tone::Ngang by {
            assert(s1[k] == tv[k - start]);
        }
        lemma_last_tone_level(s1, start, e1);
    }
    assert(ascii_lowered_from(s1, e1) =~= fin) by {
        assert forall|k: int| 0 <= k < fin.len() implies ascii_lowered_from(s1, e1)[k]
            == fin[k] by {
            assert(s1[e1 + k] == fin[k]);
        }
    }
}

/// The initial of `init + tv + fin` is read back as the initial of the word
/// `init` came from, with no tone of its own.
proof fn lemma_rendered_initial(
    s: Seq<char>,
    s1: Seq<char>,
    tv: Seq<char>,
    fin: Seq<char>,
    v: Seq<char>,
)
    requires
        parse_initial(s) is Some,
        ({
            let (init, start, t0) = parse_initial(s).unwrap();
            let end = vowel_run_end(s, start);
            &&& s1 == init + tv + fin
            &&& v.len() == tv.len()
            &&& v.len() == end - start
            &&& v.len() >= 1
            &&& (v[0] == vowel_base_of(s[start]) || (vowel_base_of(s[start]) == 'u' && v[0]
                == 'ư'))
        }),
        forall|k: int|
            0 <= k < tv.len() ==> is_vowel_char(#[trigger] tv[k]) && vowel_base_of(tv[k]) == v[k],
        forall|k: int| 0 <= k < fin.len() ==> !is_vowel_char(#[trigger] fin[k]),
    ensures
        ({
            let (init, start, t0) = parse_initial(s).unwrap();
            parse_initial(s1) == Some((init, start, Tone::Ngang))
        }),
{
    let (init, start, t0) = parse_initial(s).unwrap();
    lemma_parse_initial_facts(s);
    let end = vowel_run_end(s, start);
    lemma_vowel_run_end_facts(s, start);
    let e1 = start + tv.len();
    assert(s1.len() == e1 + fin.len());
    assert forall|k: int| start <= k < e1 implies #[trigger] s1[k] == tv[k - start] by {}
    assert forall|k: int| e1 <= k < s1.len() implies #[trigger] s1[k] == fin[k - e1] by {}
    assert forall|k: int| 0 <= k < start implies #[trigger] s1[k] == init[k] by {}
    lemma_variant_is_vowel('i', Tone::Ngang);
    assert(spec_vowel_variant('i', Tone::Ngang) == 'i');
    if gi_start(s) {
        if first_vowel_from(s, 2) < s.len() {
            assert(s1[0] == 'g' && s1[1] == 'i');
            assert(gi_start(s1));
            assert(s1[2] == tv[0]);
            lemma_first_vowel_is(s1, 2, 2);
        } else {
            assert(s1[0] == 'g');
            lemma_first_vowel_facts(s, 2);
            assert(start == 1 && is_vowel_char(s[1]) && vowel_base_of(s[1]) == 'i');
            if end > 2 {
                assert(is_vowel_char(s[2]));
            }
            assert(end == 2);
            assert(s1[1] == tv[0]);
            assert(gi_start(s1));
            assert forall|k: int| 2 <= k < s1.len() implies !is_vowel_char(#[trigger] s1[k]) by {
                assert(s1[k] == fin[k - 2]);
            }
            lemma_first_vowel_is(s1, 2, s1.len() as int);
        }
    } else {
        let idx = first_vowel_from(s, 0);
        lemma_first_vowel_facts(s, 0);
        assert(!gi_start(s1)) by {
            if start >= 2 {
                assert(s1[0] == s[0] && s1[1] == s[1]);
            } else if start == 1 {
                assert(s1[0] == s[0]);
                assert(s1[1] == tv[0]);
                assert(idx == 1) by {
                    if idx != 1 {
                        assert(idx == 0 || idx + 1 == 1);
                    }
                }
            } else {
                assert(s1[0] == tv[0]);
                assert(is_vowel_char(s1[0]));
                if spec_ascii_lower(s1[0]) == 'g' {
                    assert(s1[0] == 'g' || s1[0] == 'G');
                    assert(spec_lower_char(s1[0]) == 'g');
                }
            }
        }
        assert(first_vowel_from(s1, 0) == idx) by {
            assert forall|k: int| 0 <= k < idx implies !is_vowel_char(#[trigger] s1[k]) by {
                assert(s1[k] == s[k]);
            }
            if idx < start {
                assert(s1[idx] == s[idx]);
            } else {
                assert(idx == start);
                if idx < s1.len() {
                    assert(s1[idx] == tv[0]);
                }
            }
            lemma_first_vowel_is(s1, 0, idx);
        }
        assert(s1.take(idx) =~= s.take(idx));
        if idx < start {
            assert(s1[idx] == s[idx]);
            assert(s1.take(idx + 1) =~= s.take(idx + 1));
        }
    }
}

/// Rendering a parsed syllable and parsing the text again gives the same
/// tone, and rendering that gives the same text: the rendered text of a
/// syllable is a fixed point of parsing and rendering.
pub proof fn lemma_rendered_syllable_parses_back(s: Seq<char>, style: ToneStyle)
    requires
        spec_parse(s) is Some,
    ensures
        ({
            let syl = spec_parse(s).unwrap();
            let s1 = spec_to_string(syl, style, Casing::Lowercase);
            &&& spec_parse(s1) is Some
            &&& spec_parse(s1).unwrap().tone == syl.tone
            &&& spec_to_string(spec_parse(s1).unwrap(), style, Casing::Lowercase) == s1
        }),
{
    let syl = spec_parse(s).unwrap();
    let (init, start, t0) = parse_initial(s).unwrap();
    lemma_parse_initial_facts(s);
    let end = vowel_run_end(s, start);
    lemma_vowel_run_end_facts(s, start);
    let vowels = vowel_bases(s, start, end);
    let fin = ascii_lowered_from(s, end);
    let tone = syl.tone;
    let hf = fin.len() > 0;
    let v = spec_horn_complete(vowels, hf);
    let pos = spec_tone_position(v, hf, init, style);
    let tv = toned_vowels(v, pos, tone);
    let s1 = init + tv + fin;
    assert(spec_to_string(syl, style, Casing::Lowercase) == s1);
    assert forall|k: int| 0 <= k < vowels.len() implies is_base_vowel(#[trigger] vowels[k]) by {
        lemma_vowel_base(s[start + k]);
    }
    assert forall|k: int| 0 <= k < v.len() implies is_base_vowel(#[trigger] v[k]) by {
        if v != vowels {
            assert(v[k] == 'ư' || v[k] == 'ơ' || v[k] == 'i');
        }
    }
    assert(vowels[0] == vowel_base_of(s[start]));
    assert(spec_horn_complete(v, hf) == v);
    lemma_tone_position_bounds(v, hf, init, style);
    assert forall|k: int| 0 <= k < tv.len() implies is_vowel_char(#[trigger] tv[k])
        && vowel_base_of(tv[k]) == v[k] && vowel_tone_of(tv[k]) == (if k == pos {
        tone
    } else {
        Tone::Ngang
    }) by {
        lemma_variant_is_vowel(
            v[k],
            if k == pos {
                tone
            } else {
                Tone::Ngang
            },
        );
    }
    assert forall|k: int| 0 <= k < fin.len() implies !is_vowel_char(#[trigger] fin[k])
        && spec_ascii_lower(fin[k]) == fin[k] by {
        lemma_final_letter(fin[k]);
    }
    lemma_rendered_initial(s, s1, tv, fin, v);
    lemma_rendered_body(s1, init, tv, fin, v, pos, tone);
    assert(spec_is_valid_vowel_group(v));
    assert(initial_fits_vowel(spec_str_lowercase(init), v[0]));
    let syl2 = SyllableView { initial: init, vowels: v, final_consonant: fin, tone };
    assert(spec_parse(s1) == Some(syl2));
}

} // verus!
