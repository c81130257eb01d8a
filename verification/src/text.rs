//! Character and text utilities shared by the engine.
//!
//! Text is modelled as `Seq<char>`; executable code works on `Vec<char>` and
//! converts at the public boundary.  The Unicode case and class queries of
//! `char` and `str` are std functions whose behaviour is given by the Unicode
//! tables: on ASCII their results are written out, beyond ASCII they are
//! named, and the wrappers below make the calls.
use vstd::prelude::*;

verus! {

// ---------------------------------------------------------------------------
// Names for the results of Unicode-table queries of std.
// ---------------------------------------------------------------------------

/// Whether `c` is an ASCII character.
pub open spec fn is_ascii_char(c: char) -> bool {
    (c as int) < 128
}

/// Whether `c` is an ASCII letter.
pub open spec fn is_ascii_letter_char(c: char) -> bool {
    ('a' <= c && c <= 'z') || ('A' <= c && c <= 'Z')
}

/// The first character of the lowercase mapping of a non-ASCII `c`
/// (`char::to_lowercase`), from the Unicode tables.
pub uninterp spec fn unicode_lower_char(c: char) -> char;

/// The first character of the uppercase mapping of a non-ASCII `c`
/// (`char::to_uppercase`), from the Unicode tables.
pub uninterp spec fn unicode_upper_char(c: char) -> char;

/// `char::is_uppercase` of a non-ASCII `c` (the Unicode `Uppercase`
/// property).
pub uninterp spec fn unicode_is_uppercase(c: char) -> bool;

/// `char::is_alphabetic` of a non-ASCII `c` (the Unicode `Alphabetic`
/// property).
pub uninterp spec fn unicode_is_alphabetic(c: char) -> bool;

/// `char::is_alphanumeric` of a non-ASCII `c` (`Alphabetic` or `Numeric`).
pub uninterp spec fn unicode_is_alphanumeric(c: char) -> bool;

/// `str::to_lowercase` of a text that is not all ASCII.
pub uninterp spec fn unicode_str_lowercase(s: Seq<char>) -> Seq<char>;

/// The first character of the lowercase mapping of `c` (`char::to_lowercase`):
/// on ASCII the letters `A`..=`Z` become `a`..=`z` and every other character
/// stays; a lowercase Vietnamese letter stays; beyond these it is given by
/// the Unicode tables.
pub open spec fn spec_lower_char(c: char) -> char {
    if is_ascii_char(c) {
        spec_ascii_lower(c)
    } else if is_lower_vietnamese(c) {
        c
    } else {
        unicode_lower_char(c)
    }
}

/// The lowercase Vietnamese letters beyond ASCII: `đ` and the vowels of the
/// vowel table (all lowercase letters, which lowercase to themselves).
pub open spec fn is_lower_vietnamese(c: char) -> bool {
    c == 'đ' || crate::spelling::spec_vowel_lookup(c) is Some
}

/// The first character of the uppercase mapping of `c` (`char::to_uppercase`),
/// on ASCII `a`..=`z` to `A`..=`Z`.
pub open spec fn spec_upper_char(c: char) -> char {
    if is_ascii_char(c) {
        spec_ascii_upper(c)
    } else {
        unicode_upper_char(c)
    }
}

/// `char::is_uppercase`: among ASCII characters exactly `A`..=`Z`.
pub open spec fn spec_is_uppercase(c: char) -> bool {
    if is_ascii_char(c) {
        'A' <= c && c <= 'Z'
    } else {
        unicode_is_uppercase(c)
    }
}

/// `char::is_alphabetic`: among ASCII characters exactly the letters.
pub open spec fn spec_is_alphabetic(c: char) -> bool {
    if is_ascii_char(c) {
        is_ascii_letter_char(c)
    } else {
        unicode_is_alphabetic(c)
    }
}

/// `char::is_alphanumeric`: among ASCII characters exactly the letters and
/// the digits.
pub open spec fn spec_is_alphanumeric(c: char) -> bool {
    if is_ascii_char(c) {
        is_ascii_letter_char(c) || ('0' <= c && c <= '9')
    } else {
        unicode_is_alphanumeric(c)
    }
}

/// `char::is_whitespace`: the characters with the Unicode `White_Space`
/// property.
pub open spec fn spec_is_whitespace(c: char) -> bool {
    let n = c as int;
    (0x09 <= n && n <= 0x0D) || n == 0x20 || n == 0x85 || n == 0xA0 || n == 0x1680 || (0x2000
        <= n && n <= 0x200A) || n == 0x2028 || n == 0x2029 || n == 0x202F || n == 0x205F || n
        == 0x3000
}

/// The lowercase mapping of a whole string (`str::to_lowercase`): an ASCII
/// text is lowercased character by character; other texts by the Unicode
/// tables.
pub open spec fn spec_str_lowercase(s: Seq<char>) -> Seq<char> {
    if forall|i: int| 0 <= i < s.len() ==> is_ascii_char(#[trigger] s[i]) {
        s.map_values(|c: char| spec_ascii_lower(c))
    } else {
        unicode_str_lowercase(s)
    }
}

/// Calls `char::to_lowercase` and keeps the first character it yields.
/// The contract claims the ASCII case mapping on ASCII characters, that a
/// lowercase Vietnamese letter (`đ`, the vowels of the vowel table) has no
/// other lowercase form and so stays, and the named Unicode value
/// `unicode_lower_char(c)` beyond; the std documentation
/// says the iterator always yields at least one character, so the fallback
/// is never taken.
#[verifier::external_body]
pub(crate) fn lower_char(c: char) -> (r: char)
    ensures
        r == spec_lower_char(c),
        !is_ascii_char(c) && !is_lower_vietnamese(c) ==> r == unicode_lower_char(c),
{
    c.to_lowercase().next().unwrap_or(c)
}

/// Calls `char::to_uppercase` and keeps the first character it yields.
/// The contract claims the ASCII case mapping on ASCII characters and the
/// named Unicode value `unicode_upper_char(c)` beyond.
#[verifier::external_body]
pub(crate) fn upper_char(c: char) -> (r: char)
    ensures
        r == spec_upper_char(c),
        !is_ascii_char(c) ==> r == unicode_upper_char(c),
{
    c.to_uppercase().next().unwrap_or(c)
}

/// Calls `char::is_uppercase`; the contract claims `A`..=`Z` are the ASCII
/// uppercase characters and the named Unicode value beyond ASCII.
#[verifier::external_body]
pub(crate) fn is_uppercase(c: char) -> (r: bool)
    ensures
        r == spec_is_uppercase(c),
        !is_ascii_char(c) ==> r == unicode_is_uppercase(c),
{
    c.is_uppercase()
}

/// Calls `char::is_alphabetic`; the contract claims the ASCII letters are the
/// ASCII alphabetic characters and the named Unicode value beyond ASCII.
#[verifier::external_body]
pub(crate) fn is_alphabetic(c: char) -> (r: bool)
    ensures
        r == spec_is_alphabetic(c),
        !is_ascii_char(c) ==> r == unicode_is_alphabetic(c),
{
    c.is_alphabetic()
}

/// Calls `char::is_alphanumeric`; the contract claims the ASCII letters and
/// digits are the ASCII alphanumeric characters and the named Unicode value
/// beyond ASCII.
#[verifier::external_body]
pub(crate) fn is_alphanumeric(c: char) -> (r: bool)
    ensures
        r == spec_is_alphanumeric(c),
        !is_ascii_char(c) ==> r == unicode_is_alphanumeric(c),
{
    c.is_alphanumeric()
}

/// Calls `char::is_whitespace`; the contract claims the result is membership
/// in the Unicode `White_Space` set, written out in `spec_is_whitespace`.
#[verifier::external_body]
pub(crate) fn is_whitespace(c: char) -> (r: bool)
    ensures
        r == spec_is_whitespace(c),
{
    c.is_whitespace()
}

/// Calls `str::to_lowercase` on the text held in `s`; the contract claims an
/// ASCII text is lowercased character by character, and any other text
/// gives the named value `unicode_str_lowercase(s@)`.
#[verifier::external_body]
pub(crate) fn str_lowercase(s: &[char]) -> (r: Vec<char>)
    ensures
        r@ == spec_str_lowercase(s@),
        !(forall|i: int| 0 <= i < s@.len() ==> is_ascii_char(#[trigger] s@[i])) ==> r@
            == unicode_str_lowercase(s@),
{
    s.iter().collect::<String>().to_lowercase().chars().collect()
}

/// Collects characters into a `String` (`FromIterator<char>`); the contract
/// claims the string holds exactly those characters, in order.
#[verifier::external_body]
pub(crate) fn string_from_chars(s: &[char]) -> (r: String)
    ensures
        r@ == s@,
{
    s.iter().collect()
}

// ---------------------------------------------------------------------------
// ASCII helpers, written out.
// ---------------------------------------------------------------------------

/// ASCII lowercase mapping of a character: `A`..=`Z` become `a`..=`z`,
/// every other character is unchanged (`char::to_ascii_lowercase`).
pub open spec fn spec_ascii_lower(c: char) -> char {
    if 'A' <= c && c <= 'Z' {
        ((c as u32) + 32) as char
    } else {
        c
    }
}

/// ASCII uppercase mapping of a character: `a`..=`z` become `A`..=`Z`,
/// every other character is unchanged (`char::to_ascii_uppercase`).
pub open spec fn spec_ascii_upper(c: char) -> char {
    if 'a' <= c && c <= 'z' {
        ((c as u32) - 32) as char
    } else {
        c
    }
}

pub fn ascii_lower(c: char) -> (r: char)
    ensures
        r == spec_ascii_lower(c),
{
    if 'A' <= c && c <= 'Z' {
        let b: u8 = (c as u8) + 32;
        b as char
    } else {
        c
    }
}

pub fn ascii_upper(c: char) -> (r: char)
    ensures
        r == spec_ascii_upper(c),
{
    if 'a' <= c && c <= 'z' {
        let b: u8 = (c as u8) - 32;
        b as char
    } else {
        c
    }
}

/// `char::is_ascii_digit`.
pub open spec fn spec_is_ascii_digit(c: char) -> bool {
    '0' <= c && c <= '9'
}

// ---------------------------------------------------------------------------
// Sequences of characters.
// ---------------------------------------------------------------------------

/// `s` is exactly the one character `a`.
pub open spec fn is1(s: Seq<char>, a: char) -> bool {
    s.len() == 1 && s[0] == a
}

/// `s` is exactly the two characters `a b`.
pub open spec fn is2(s: Seq<char>, a: char, b: char) -> bool {
    s.len() == 2 && s[0] == a && s[1] == b
}

/// `s` is exactly the three characters `a b c`.
pub open spec fn is3(s: Seq<char>, a: char, b: char, c: char) -> bool {
    s.len() == 3 && s[0] == a && s[1] == b && s[2] == c
}

pub fn eq1(s: &[char], a: char) -> (r: bool)
    ensures
        r == is1(s@, a),
{
    s.len() == 1 && s[0] == a
}

pub fn eq2(s: &[char], a: char, b: char) -> (r: bool)
    ensures
        r == is2(s@, a, b),
{
    s.len() == 2 && s[0] == a && s[1] == b
}

pub fn eq3(s: &[char], a: char, b: char, c: char) -> (r: bool)
    ensures
        r == is3(s@, a, b, c),
{
    s.len() == 3 && s[0] == a && s[1] == b && s[2] == c
}

/// Equality of two character sequences.
pub fn chars_eq(a: &[char], b: &[char]) -> (r: bool)
    ensures
        r == (a@ == b@),
{
    if a.len() != b.len() {
        return false;
    }
    let mut i: usize = 0;
    while i < a.len()
        invariant
            a.len() == b.len(),
            0 <= i <= a.len(),
            forall|j: int| 0 <= j < i ==> a@[j] == b@[j],
        decreases a.len() - i,
    {
        if a[i] != b[i] {
            return false;
        }
        i = i + 1;
    }
    assert(a@ =~= b@);
    true
}

/// Copies the characters `s[from..to]`.
pub fn slice_chars(s: &[char], from: usize, to: usize) -> (r: Vec<char>)
    requires
        from <= to <= s.len(),
    ensures
        r@ == s@.subrange(from as int, to as int),
{
    let mut r: Vec<char> = Vec::new();
    let mut i: usize = from;
    while i < to
        invariant
            from <= i <= to <= s.len(),
            r@ == s@.subrange(from as int, i as int),
        decreases to - i,
    {
        r.push(s[i]);
        i = i + 1;
        assert(r@ =~= s@.subrange(from as int, i as int));
    }
    r
}

/// Appends the characters of `b` to `a`.
pub fn extend_chars(a: &mut Vec<char>, b: &[char])
    ensures
        final(a)@ == old(a)@ + b@,
{
    let mut i: usize = 0;
    while i < b.len()
        invariant
            0 <= i <= b.len(),
            a@ == old(a)@ + b@.take(i as int),
        decreases b.len() - i,
    {
        a.push(b[i]);
        i = i + 1;
        assert(a@ =~= old(a)@ + b@.take(i as int));
    }
    assert(b@.take(b.len() as int) =~= b@);
}

/// The characters of a string, in order.
pub fn str_chars(s: &str) -> (v: Vec<char>)
    ensures
        v@ == s@,
{
    broadcast use vstd::string::group_string_axioms;

    let mut v: Vec<char> = Vec::new();
    for c in it: s.chars()
        invariant
            v@ == it.seq().take(it.index() as int),
            it.seq() == s@,
    {
        v.push(c);
    }
    v
}

/// The word of one character.
pub fn chars1(a: char) -> (r: Vec<char>)
    ensures
        r@ == seq![a],
{
    let mut r: Vec<char> = Vec::new();
    r.push(a);
    assert(r@ =~= seq![a]);
    r
}

/// The word of two characters.
pub fn chars2(a: char, b: char) -> (r: Vec<char>)
    ensures
        r@ == seq![a, b],
{
    let mut r: Vec<char> = Vec::new();
    r.push(a);
    r.push(b);
    assert(r@ =~= seq![a, b]);
    r
}

/// The word of three characters.
pub fn chars3(a: char, b: char, c: char) -> (r: Vec<char>)
    ensures
        r@ == seq![a, b, c],
{
    let mut r: Vec<char> = Vec::new();
    r.push(a);
    r.push(b);
    r.push(c);
    assert(r@ =~= seq![a, b, c]);
    r
}

/// `p` occurs in `s` at position `i`.
pub open spec fn occurs_at(s: Seq<char>, p: Seq<char>, i: int) -> bool {
    0 <= i && i + p.len() <= s.len() && s.subrange(i, i + p.len()) == p
}

/// `p` occurs somewhere in `s` (`str::contains` with a string pattern).
pub open spec fn contains_seq(s: Seq<char>, p: Seq<char>) -> bool {
    exists|i: int| #[trigger] occurs_at(s, p, i)
}

fn occurs_at_exec(s: &[char], p: &[char], i: usize) -> (r: bool)
    requires
        i + p.len() <= s.len(),
    ensures
        r == occurs_at(s@, p@, i as int),
{
    let mut k: usize = 0;
    while k < p.len()
        invariant
            i + p.len() <= s.len(),
            0 <= k <= p.len(),
            forall|j: int| 0 <= j < k ==> s@[i + j] == p@[j],
        decreases p.len() - k,
    {
        if s[i + k] != p[k] {
            assert(s@.subrange(i as int, i + p.len())[k as int] != p@[k as int]);
            return false;
        }
        k = k + 1;
    }
    assert(s@.subrange(i as int, i + p.len()) =~= p@);
    true
}

/// Whether `p` occurs in `s`.
pub fn chars_contain(s: &[char], p: &[char]) -> (r: bool)
    ensures
        r == contains_seq(s@, p@),
{
    if p.len() > s.len() {
        proof {
            assert forall|i: int| !#[trigger] occurs_at(s@, p@, i) by {}
        }
        return false;
    }
    let last = s.len() - p.len();
    let mut i: usize = 0;
    loop
        invariant_except_break
            last == s.len() - p.len(),
            0 <= i <= last,
            forall|j: int| 0 <= j < i ==> !#[trigger] occurs_at(s@, p@, j),
        ensures
            forall|j: int| 0 <= j <= last ==> !#[trigger] occurs_at(s@, p@, j),
        decreases last - i,
    {
        if occurs_at_exec(s, p, i) {
            return true;
        }
        if i == last {
            break ;
        }
        i = i + 1;
    }
    proof {
        assert forall|j: int| !#[trigger] occurs_at(s@, p@, j) by {
            if 0 <= j <= last {
            }
        }
    }
    false
}

/// Whether `p` occurs in `s`.
pub fn str_contains(s: &str, p: &str) -> (r: bool)
    ensures
        r == contains_seq(s@, p@),
{
    let a = str_chars(s);
    let b = str_chars(p);
    chars_contain(&a, &b)
}

/// Equality of two strings.
pub fn str_eq(a: &str, b: &str) -> (r: bool)
    ensures
        r == (a@ == b@),
{
    let x = str_chars(a);
    let y = str_chars(b);
    chars_eq(&x, &y)
}

// ---------------------------------------------------------------------------
// Trimming.
// ---------------------------------------------------------------------------

/// Index of the first character at or after `i` that is no whitespace.
pub open spec fn first_non_space_from(s: Seq<char>, i: int) -> int
    decreases s.len() - i,
{
    if i >= s.len() {
        s.len() as int
    } else if !spec_is_whitespace(s[i]) {
        i
    } else {
        first_non_space_from(s, i + 1)
    }
}

/// One past the last character before `j` that is no whitespace (`lo` if
/// there is none at or after `lo`).
pub open spec fn end_non_space_before(s: Seq<char>, lo: int, j: int) -> int
    decreases j - lo,
{
    if j <= lo {
        lo
    } else if !spec_is_whitespace(s[j - 1]) {
        j
    } else {
        end_non_space_before(s, lo, j - 1)
    }
}

/// `s` without leading and trailing whitespace (`str::trim`).
pub open spec fn spec_trim(s: Seq<char>) -> Seq<char> {
    let lo = first_non_space_from(s, 0);
    let hi = end_non_space_before(s, lo, s.len() as int);
    s.subrange(lo, hi)
}

/// `str::trim`, on characters.
pub fn trim_chars(s: &[char]) -> (r: Vec<char>)
    ensures
        r@ == spec_trim(s@),
{
    let mut i: usize = 0;
    loop
        invariant_except_break
            0 <= i <= s.len(),
            first_non_space_from(s@, i as int) == first_non_space_from(s@, 0),
        ensures
            0 <= i <= s.len(),
            first_non_space_from(s@, 0) == i,
        decreases s.len() - i,
    {
        if i >= s.len() {
            break ;
        }
        if !is_whitespace(s[i]) {
            break ;
        }
        i = i + 1;
    }
    let mut j: usize = s.len();
    loop
        invariant_except_break
            i <= j <= s.len(),
            end_non_space_before(s@, i as int, j as int) == end_non_space_before(
                s@,
                i as int,
                s.len() as int,
            ),
        ensures
            i <= j <= s.len(),
            end_non_space_before(s@, i as int, s.len() as int) == j,
        decreases j - i,
    {
        if j <= i {
            break ;
        }
        if !is_whitespace(s[j - 1]) {
            break ;
        }
        j = j - 1;
    }
    slice_chars(s, i, j)
}

/// Whether `s` starts with `p` (`str::starts_with`).
pub fn str_starts_with(s: &str, p: &str) -> (r: bool)
    ensures
        r == occurs_at(s@, p@, 0),
{
    let a = str_chars(s);
    let b = str_chars(p);
    if b.len() > a.len() {
        return false;
    }
    occurs_at_exec(&a, &b, 0)
}

// ---------------------------------------------------------------------------
// Finding and splitting.
// ---------------------------------------------------------------------------

/// Index of the first `c` in `s` at or after `i`, or the length of `s` when
/// there is none.
pub open spec fn index_of_from(s: Seq<char>, c: char, i: int) -> int
    decreases s.len() - i,
{
    if i >= s.len() {
        s.len() as int
    } else if s[i] == c {
        i
    } else {
        index_of_from(s, c, i + 1)
    }
}

/// Index of the first `c` in `s`, or the length of `s` when there is none
/// (`str::find` with a character).
pub open spec fn index_of(s: Seq<char>, c: char) -> int {
    index_of_from(s, c, 0)
}

proof fn lemma_index_of_from(s: Seq<char>, c: char, i: int)
    requires
        0 <= i <= s.len(),
    ensures
        i <= index_of_from(s, c, i) <= s.len(),
        index_of_from(s, c, i) < s.len() ==> s[index_of_from(s, c, i)] == c,
    decreases s.len() - i,
{
    if i < s.len() && s[i] != c {
        lemma_index_of_from(s, c, i + 1);
    }
}

/// Index of the first `c` in `s` (see `index_of`).
pub fn index_of_char(s: &[char], c: char) -> (r: usize)
    ensures
        r == index_of(s@, c),
        r <= s.len(),
        r < s.len() ==> s@[r as int] == c,
{
    proof {
        lemma_index_of_from(s@, c, 0);
    }
    let mut i: usize = 0;
    while i < s.len() && s[i] != c
        invariant
            i <= s.len(),
            index_of_from(s@, c, i as int) == index_of(s@, c),
        decreases s.len() - i,
    {
        i = i + 1;
    }
    i
}

/// The pieces of `s` between occurrences of `c` (`str::split` with a
/// character): always at least one piece.
pub open spec fn split_on(s: Seq<char>, c: char) -> Seq<Seq<char>>
    decreases s.len(),
{
    if s.len() == 0 {
        seq![seq![]]
    } else {
        let p = split_on(s.drop_last(), c);
        if s.last() == c {
            p.push(seq![])
        } else {
            p.update(p.len() - 1, p.last().push(s.last()))
        }
    }
}

/// The views of a list of character vectors.
pub open spec fn vecs_view(v: Seq<Vec<char>>) -> Seq<Seq<char>> {
    v.map_values(|x: Vec<char>| x@)
}

/// The views of a list of strings.
pub open spec fn strings_view(v: Seq<String>) -> Seq<Seq<char>> {
    v.map_values(|x: String| x@)
}

/// The pieces of `s` between occurrences of `c` (see `split_on`).
pub fn split_chars(s: &[char], c: char) -> (r: Vec<Vec<char>>)
    ensures
        vecs_view(r@) == split_on(s@, c),
{
    let mut done: Vec<Vec<char>> = Vec::new();
    let mut cur: Vec<char> = Vec::new();
    let mut i: usize = 0;
    assert(s@.take(0) =~= Seq::<char>::empty());
    assert(vecs_view(done@).push(cur@) =~= split_on(s@.take(0), c));
    while i < s.len()
        invariant
            i <= s.len(),
            vecs_view(done@).push(cur@) == split_on(s@.take(i as int), c),
        decreases s.len() - i,
    {
        let ghost t = s@.take(i + 1);
        proof {
            assert(t.drop_last() =~= s@.take(i as int));
            assert(t.last() == s@[i as int]);
        }
        if s[i] == c {
            let ghost old_done = vecs_view(done@);
            let piece = cur;
            done.push(piece);
            cur = Vec::new();
            assert(vecs_view(done@) =~= old_done.push(piece@));
            assert(vecs_view(done@).push(cur@) =~= split_on(t, c));
        } else {
            cur.push(s[i]);
            assert(vecs_view(done@).push(cur@) =~= split_on(t, c));
        }
        i = i + 1;
    }
    let ghost before = vecs_view(done@);
    let last = cur;
    done.push(last);
    assert(vecs_view(done@) =~= before.push(last@));
    assert(s@.take(s.len() as int) =~= s@);
    done
}

/// `s` without any occurrence of `c` (`str::replace(c, "")`).
pub open spec fn without_char(s: Seq<char>, c: char) -> Seq<char>
    decreases s.len(),
{
    if s.len() == 0 {
        seq![]
    } else if s.last() == c {
        without_char(s.drop_last(), c)
    } else {
        without_char(s.drop_last(), c).push(s.last())
    }
}

/// `s` without any occurrence of `c`.
pub fn remove_char(s: &[char], c: char) -> (r: Vec<char>)
    ensures
        r@ == without_char(s@, c),
{
    let mut out: Vec<char> = Vec::new();
    let mut i: usize = 0;
    while i < s.len()
        invariant
            i <= s.len(),
            out@ == without_char(s@.take(i as int), c),
        decreases s.len() - i,
    {
        assert(s@.take(i + 1).drop_last() =~= s@.take(i as int));
        if s[i] != c {
            out.push(s[i]);
        }
        i = i + 1;
    }
    assert(s@.take(s.len() as int) =~= s@);
    out
}

} // verus!
