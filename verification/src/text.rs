//! Character-level helpers shared by the parsers and formatters of this crate.
//!
//! Everything here works on sequences of `char`; a `&str` is read into a
//! `Vec<char>` once and a `String` is built from one at the end.

use vstd::prelude::*;

verus! {

/// Collects the characters of a string slice.
pub fn chars_of(s: &str) -> (out: Vec<char>)
    ensures
        out@ == s@,
{
    let mut out: Vec<char> = Vec::new();
    for c in it: s.chars()
        invariant
            it.seq() == s@,
            out@ == s@.take(it.index() as int),
    {
        out.push(c);
    }
    out
}

/// `String::push` of the standard library appends the character to the end
/// of the string, as its documentation says.
pub assume_specification[ String::push ](s: &mut String, ch: char)
    ensures
        final(s)@ == old(s)@.push(ch),
;

/// Builds a `String` that holds exactly the given characters.
pub fn string_of(chars: &Vec<char>) -> (out: String)
    ensures
        out@ == chars@,
{
    let mut out = String::new();
    let mut i: usize = 0;
    while i < chars.len()
        invariant
            i <= chars.len(),
            out@ == chars@.take(i as int),
        decreases chars.len() - i,
    {
        out.push(chars[i]);
        i += 1;
        assert(out@ =~= chars@.take(i as int));
    }
    assert(chars@.take(i as int) =~= chars@);
    out
}

/// Whether two character vectors hold the same characters.
pub fn vec_eq(a: &Vec<char>, b: &Vec<char>) -> (same: bool)
    ensures
        same == (a@ == b@),
{
    if a.len() != b.len() {
        return false;
    }
    let mut i: usize = 0;
    while i < a.len()
        invariant
            a.len() == b.len(),
            i <= a.len(),
            forall|k: int| 0 <= k < i ==> a@[k] == b@[k],
        decreases a.len() - i,
    {
        if a[i] != b[i] {
            return false;
        }
        i += 1;
    }
    assert(a@ =~= b@);
    true
}

/// Whether two string slices hold the same characters.
pub fn str_eq(a: &str, b: &str) -> (same: bool)
    ensures
        same == (a@ == b@),
{
    let x = chars_of(a);
    let y = chars_of(b);
    vec_eq(&x, &y)
}

/// The ASCII lower-case form of a character: `A`..`Z` map to `a`..`z`, every
/// other character to itself.
pub open spec fn lower(c: char) -> char {
    if 'A' <= c && c <= 'Z' {
        ((c as u8) + 32) as char
    } else {
        c
    }
}

/// ASCII lower-casing of a whole sequence.
pub open spec fn lower_seq(s: Seq<char>) -> Seq<char> {
    Seq::new(s.len(), |i: int| lower(s[i]))
}

/// Executable form of [`lower`].
pub fn to_lower(c: char) -> (out: char)
    ensures
        out == lower(c),
{
    if c >= 'A' && c <= 'Z' {
        ((c as u8) + 32) as char
    } else {
        c
    }
}

/// Whether two character sequences are equal once ASCII letters are folded
/// to lower case.
pub fn eq_ignore_case(a: &Vec<char>, b: &Vec<char>) -> (same: bool)
    ensures
        same == (lower_seq(a@) == lower_seq(b@)),
{
    if a.len() != b.len() {
        assert(lower_seq(a@).len() != lower_seq(b@).len());
        return false;
    }
    let mut i: usize = 0;
    while i < a.len()
        invariant
            a.len() == b.len(),
            i <= a.len(),
            forall|k: int| 0 <= k < i ==> lower(a@[k]) == lower(b@[k]),
        decreases a.len() - i,
    {
        if to_lower(a[i]) != to_lower(b[i]) {
            assert(lower_seq(a@)[i as int] != lower_seq(b@)[i as int]);
            return false;
        }
        i += 1;
    }
    assert(lower_seq(a@) =~= lower_seq(b@));
    true
}

/// Whether `c` is one of the ten ASCII decimal digits.
pub open spec fn is_digit(c: char) -> bool {
    '0' <= c && c <= '9'
}

/// Whether every character of `s` is a decimal digit.
pub open spec fn all_digits(s: Seq<char>) -> bool {
    forall|i: int| 0 <= i < s.len() ==> is_digit(#[trigger] s[i])
}

/// The number a digit stands for.
pub open spec fn digit_value(c: char) -> nat {
    (c as u8 - 48) as nat
}

/// The digit that stands for `d`, for `d` below ten.
pub open spec fn digit_char(d: nat) -> char {
    ((d + 48) as u8) as char
}

/// The decimal numeral of `n`, without sign or leading zeros.
pub open spec fn decimal(n: nat) -> Seq<char>
    decreases n,
{
    if n < 10 {
        seq![digit_char(n)]
    } else {
        decimal(n / 10).push(digit_char(n % 10))
    }
}

/// The number that a sequence of digits denotes, read in base ten. The empty
/// sequence denotes zero.
pub open spec fn decimal_value(s: Seq<char>) -> nat
    decreases s.len(),
{
    if s.len() == 0 {
        0
    } else {
        decimal_value(s.drop_last()) * 10 + digit_value(s.last())
    }
}

/// A decimal numeral is never empty, holds digits only, and denotes the
/// number it was written for.
pub proof fn lemma_decimal_roundtrip(n: nat)
    ensures
        decimal(n).len() > 0,
        all_digits(decimal(n)),
        decimal_value(decimal(n)) == n,
    decreases n,
{
    if n < 10 {
        assert(decimal(n).drop_last() =~= Seq::<char>::empty());
        assert(decimal_value(Seq::<char>::empty()) == 0);
        assert(decimal(n).last() == digit_char(n));
    } else {
        lemma_decimal_roundtrip(n / 10);
        let head = decimal(n / 10);
        assert(decimal(n).drop_last() =~= head);
        assert(decimal(n).last() == digit_char(n % 10));
        assert forall|i: int| 0 <= i < decimal(n).len() implies is_digit(
            #[trigger] decimal(n)[i],
        ) by {
            if i < head.len() {
                assert(decimal(n)[i] == head[i]);
            }
        }
    }
}

/// Appends the decimal numeral of `n` to `out`.
pub fn push_decimal(out: &mut Vec<char>, n: u64)
    ensures
        final(out)@ == old(out)@ + decimal(n as nat),
    decreases n,
{
    if n >= 10 {
        push_decimal(out, n / 10);
    }
    let d: u8 = (n % 10) as u8;
    out.push((d + 48) as char);
    assert(final(out)@ =~= old(out)@ + decimal(n as nat));
}

/// Reading a longer prefix of a sequence never gives a smaller number.
pub proof fn lemma_prefix_value(s: Seq<char>, k: int)
    requires
        0 <= k <= s.len(),
    ensures
        decimal_value(s.take(k)) <= decimal_value(s),
    decreases s.len() - k,
{
    if k == s.len() {
        assert(s.take(k) =~= s);
    } else {
        lemma_prefix_value(s, k + 1);
        assert(s.take(k + 1).drop_last() =~= s.take(k));
    }
}

/// Reads an unsigned decimal numeral that must not exceed `max`.
///
/// The text is accepted when it is a non-empty run of digits whose value is
/// at most `max`; no sign, blank or separator is allowed.
pub fn parse_decimal(s: &Vec<char>, max: u64) -> (out: Option<u64>)
    ensures
        out is Some <==> s@.len() > 0 && all_digits(s@) && decimal_value(s@) <= max,
        out is Some ==> out->0 == decimal_value(s@),
{
    if s.len() == 0 {
        return None;
    }
    let mut acc: u64 = 0;
    let mut i: usize = 0;
    assert(s@.take(0) =~= Seq::<char>::empty());
    while i < s.len()
        invariant
            i <= s.len(),
            all_digits(s@.take(i as int)),
            acc == decimal_value(s@.take(i as int)),
            acc <= max,
        decreases s.len() - i,
    {
        let c = s[i];
        if !(c >= '0' && c <= '9') {
            assert(!is_digit(s@[i as int]));
            return None;
        }
        let d: u64 = (c as u8 - 48) as u64;
        proof {
            assert(s@.take(i + 1).drop_last() =~= s@.take(i as int));
            assert(s@.take(i + 1).last() == c);
            assert(decimal_value(s@.take(i + 1)) == acc * 10 + d);
            lemma_prefix_value(s@, i + 1);
        }
        if d > max || acc > (max - d) / 10 {
            return None;
        }
        acc = acc * 10 + d;
        i += 1;
        assert forall|k: int| 0 <= k < i implies is_digit(#[trigger] s@.take(i as int)[k]) by {
            if k < i - 1 {
                assert(s@.take(i as int)[k] == s@.take(i - 1)[k]);
            }
        }
    }
    assert(s@.take(i as int) =~= s@);
    Some(acc)
}

/// Copies the characters of `s` from position `from` up to, not including, `to`.
pub(crate) fn slice(s: &Vec<char>, from: usize, to: usize) -> (out: Vec<char>)
    requires
        from <= to <= s.len(),
    ensures
        out@ == s@.subrange(from as int, to as int),
{
    let mut out: Vec<char> = Vec::new();
    let mut i: usize = from;
    while i < to
        invariant
            from <= i <= to,
            to <= s.len(),
            out@ == s@.subrange(from as int, i as int),
        decreases to - i,
    {
        out.push(s[i]);
        i += 1;
        assert(out@ =~= s@.subrange(from as int, i as int));
    }
    out
}

/// Appends every character of `tail` to `out`.
pub fn push_all(out: &mut Vec<char>, tail: &Vec<char>)
    ensures
        final(out)@ == old(out)@ + tail@,
{
    let mut i: usize = 0;
    assert(out@ =~= old(out)@ + tail@.take(0));
    while i < tail.len()
        invariant
            i <= tail.len(),
            out@ == old(out)@ + tail@.take(i as int),
        decreases tail.len() - i,
    {
        out.push(tail[i]);
        i += 1;
        assert(out@ =~= old(out)@ + tail@.take(i as int));
    }
    assert(tail@.take(i as int) =~= tail@);
}

/// Appends the characters of a string slice to `out`.
pub fn push_str(out: &mut Vec<char>, tail: &str)
    ensures
        final(out)@ == old(out)@ + tail@,
{
    let t = chars_of(tail);
    push_all(out, &t);
}

/// Whether `c` is white space: the characters that carry the Unicode
/// `White_Space` property.
pub open spec fn is_space(c: char) -> bool {
    ||| c == ' '
    ||| ('\u{9}' <= c && c <= '\u{D}')
    ||| c == '\u{85}'
    ||| c == '\u{A0}'
    ||| c == '\u{1680}'
    ||| ('\u{2000}' <= c && c <= '\u{200A}')
    ||| c == '\u{2028}'
    ||| c == '\u{2029}'
    ||| c == '\u{202F}'
    ||| c == '\u{205F}'
    ||| c == '\u{3000}'
}

/// A set of characters that a search can look for.
#[derive(Clone, Copy, Debug)]
pub enum CharClass {
    /// The one given character.
    Exactly(char),
    /// Any white-space character.
    Space,
    /// Any character that is not white space.
    NotSpace,
}

impl CharClass {
    /// Whether `c` belongs to the class.
    pub open spec fn holds(self, c: char) -> bool {
        match self {
            CharClass::Exactly(x) => c == x,
            CharClass::Space => is_space(c),
            CharClass::NotSpace => !is_space(c),
        }
    }

    /// Executable form of [`CharClass::holds`].
    pub fn test(self, c: char) -> (b: bool)
        ensures
            b == self.holds(c),
    {
        let space = c == ' ' || (c >= '\u{9}' && c <= '\u{D}') || c == '\u{85}' || c == '\u{A0}'
            || c == '\u{1680}' || (c >= '\u{2000}' && c <= '\u{200A}') || c == '\u{2028}' || c
            == '\u{2029}' || c == '\u{202F}' || c == '\u{205F}' || c == '\u{3000}';
        match self {
            CharClass::Exactly(x) => c == x,
            CharClass::Space => space,
            CharClass::NotSpace => !space,
        }
    }
}

/// Position of the first character of `s` that belongs to `class`, or the
/// length of `s` when there is none.
pub open spec fn first_match(s: Seq<char>, class: CharClass) -> int
    decreases s.len(),
{
    if s.len() == 0 {
        0
    } else if class.holds(s[0]) {
        0
    } else {
        1 + first_match(s.skip(1), class)
    }
}

/// `first_match` lies within the sequence, points at a member of the class
/// unless it is the length, and nothing before it belongs to the class.
pub proof fn lemma_first_match(s: Seq<char>, class: CharClass)
    ensures
        0 <= first_match(s, class) <= s.len(),
        first_match(s, class) < s.len() ==> class.holds(s[first_match(s, class)]),
        forall|j: int| 0 <= j < first_match(s, class) ==> !class.holds(#[trigger] s[j]),
    decreases s.len(),
{
    if s.len() > 0 && !class.holds(s[0]) {
        lemma_first_match(s.skip(1), class);
        let k = first_match(s.skip(1), class);
        assert forall|j: int| 0 <= j < 1 + k implies !class.holds(#[trigger] s[j]) by {
            if j > 0 {
                assert(s[j] == s.skip(1)[j - 1]);
            }
        }
    }
}

/// A position with the properties of [`lemma_first_match`] is `first_match`.
pub proof fn lemma_first_match_is(s: Seq<char>, class: CharClass, k: int)
    requires
        0 <= k <= s.len(),
        k < s.len() ==> class.holds(s[k]),
        forall|j: int| 0 <= j < k ==> !class.holds(#[trigger] s[j]),
    ensures
        first_match(s, class) == k,
{
    lemma_first_match(s, class);
    let m = first_match(s, class);
    if m < k {
        assert(!class.holds(s[m]));
    } else if k < m {
        assert(class.holds(s[k]));
    }
}

/// Finds the first character at or after `from` that belongs to `class`.
pub(crate) fn find(s: &Vec<char>, from: usize, class: CharClass) -> (k: usize)
    requires
        from <= s.len(),
    ensures
        from <= k <= s.len(),
        k == from + first_match(s@.skip(from as int), class),
{
    let mut k: usize = from;
    while k < s.len() && !class.test(s[k])
        invariant
            from <= k <= s.len(),
            forall|j: int| from <= j < k ==> !class.holds(#[trigger] s@[j]),
        decreases s.len() - k,
    {
        k += 1;
    }
    proof {
        let t = s@.skip(from as int);
        assert forall|j: int| 0 <= j < k - from implies !class.holds(#[trigger] t[j]) by {
            assert(t[j] == s@[from + j]);
        }
        lemma_first_match_is(t, class, k - from);
    }
    k
}

/// Whether `s` begins with the characters of `p`.
pub open spec fn has_prefix(s: Seq<char>, p: Seq<char>) -> bool {
    p.len() <= s.len() && s.take(p.len() as int) == p
}

/// Whether `p` occurs in `s` at position `at`.
pub open spec fn occurs_at(s: Seq<char>, p: Seq<char>, at: int) -> bool {
    0 <= at && at + p.len() <= s.len() && s.subrange(at, at + p.len()) == p
}

/// Executable form of [`occurs_at`].
pub fn matches_at(s: &Vec<char>, p: &Vec<char>, at: usize) -> (b: bool)
    ensures
        b == occurs_at(s@, p@, at as int),
{
    if at > s.len() || p.len() > s.len() - at {
        return false;
    }
    let mut i: usize = 0;
    while i < p.len()
        invariant
            i <= p.len(),
            at + p.len() <= s.len(),
            forall|j: int| 0 <= j < i ==> s@[at + j] == p@[j],
        decreases p.len() - i,
    {
        if s[at + i] != p[i] {
            assert(s@.subrange(at as int, at + p.len())[i as int] != p@[i as int]);
            return false;
        }
        i += 1;
    }
    assert(s@.subrange(at as int, at + p.len()) =~= p@);
    true
}

/// Executable form of [`has_prefix`].
pub fn starts_with(s: &Vec<char>, p: &Vec<char>) -> (b: bool)
    ensures
        b == has_prefix(s@, p@),
{
    let b = matches_at(s, p, 0);
    proof {
        if p.len() <= s.len() {
            assert(s@.take(p.len() as int) =~= s@.subrange(0, 0 + p.len()));
        }
    }
    b
}

/// Position of the first occurrence of `p` in `s`, or the length of `s`
/// when `p` does not occur.
pub open spec fn first_occurrence(s: Seq<char>, p: Seq<char>) -> int
    decreases s.len(),
{
    if has_prefix(s, p) {
        0
    } else if s.len() == 0 {
        0
    } else {
        1 + first_occurrence(s.skip(1), p)
    }
}

/// Whether `p` occurs somewhere in `s`.
pub open spec fn contains(s: Seq<char>, p: Seq<char>) -> bool {
    first_occurrence(s, p) + p.len() <= s.len()
}

/// Dropping the first character moves every later occurrence one place down.
pub proof fn lemma_occurs_shift(s: Seq<char>, p: Seq<char>, j: int)
    requires
        j >= 1,
        s.len() > 0,
    ensures
        occurs_at(s, p, j) == occurs_at(s.skip(1), p, j - 1),
{
    if j + p.len() <= s.len() {
        assert(s.subrange(j, j + p.len()) =~= s.skip(1).subrange(j - 1, j - 1 + p.len()));
    }
}

/// `first_occurrence` lies within the sequence, and up to it `p` occurs at
/// no position.
pub proof fn lemma_first_occurrence(s: Seq<char>, p: Seq<char>)
    ensures
        0 <= first_occurrence(s, p) <= s.len(),
        contains(s, p) ==> occurs_at(s, p, first_occurrence(s, p)),
        forall|j: int| 0 <= j < first_occurrence(s, p) ==> !occurs_at(s, p, j),
        !contains(s, p) ==> forall|j: int| !occurs_at(s, p, j),
        !contains(s, p) ==> first_occurrence(s, p) == s.len(),
    decreases s.len(),
{
    if has_prefix(s, p) {
        assert(s.subrange(0, 0int + p.len()) =~= s.take(p.len() as int));
    } else if s.len() == 0 {
        if p.len() == 0 {
            assert(s.take(p.len() as int) =~= p);
        }
        assert forall|j: int| !occurs_at(s, p, j) by {
            if occurs_at(s, p, j) {
                assert(s.subrange(0, 0int + p.len()) =~= s.take(p.len() as int));
            }
        }
    } else {
        let t = s.skip(1);
        lemma_first_occurrence(t, p);
        let k = first_occurrence(t, p);
        assert(!occurs_at(s, p, 0)) by {
            if occurs_at(s, p, 0) {
                assert(s.subrange(0, 0int + p.len()) =~= s.take(p.len() as int));
            }
        }
        assert forall|j: int| 0 <= j < 1 + k implies !occurs_at(s, p, j) by {
            if j >= 1 {
                lemma_occurs_shift(s, p, j);
            }
        }
        if contains(s, p) {
            lemma_occurs_shift(s, p, 1 + k);
        } else {
            assert forall|j: int| !occurs_at(s, p, j) by {
                if j >= 1 {
                    lemma_occurs_shift(s, p, j);
                }
            }
        }
    }
}

/// A position at which `p` occurs, with no occurrence before it, is
/// `first_occurrence`.
pub proof fn lemma_first_occurrence_is(s: Seq<char>, p: Seq<char>, k: int)
    requires
        occurs_at(s, p, k),
        forall|j: int| 0 <= j < k ==> !occurs_at(s, p, j),
    ensures
        first_occurrence(s, p) == k,
        contains(s, p),
{
    lemma_first_occurrence(s, p);
    let m = first_occurrence(s, p);
    if !contains(s, p) {
        assert(!occurs_at(s, p, k));
    }
}

/// Finds the first occurrence of `p` at or after `from`; the length of `s`
/// stands for "not found".
pub(crate) fn find_sub(s: &Vec<char>, from: usize, p: &Vec<char>) -> (k: usize)
    requires
        from <= s.len(),
    ensures
        from <= k <= s.len(),
        k == from + first_occurrence(s@.skip(from as int), p@),
        contains(s@.skip(from as int), p@) <==> k + p.len() <= s.len(),
{
    let ghost t = s@.skip(from as int);
    let mut k: usize = from;
    while k < s.len()
        invariant
            from <= k <= s.len(),
            t == s@.skip(from as int),
            forall|j: int| 0 <= j < k - from ==> !occurs_at(t, p@, j),
        decreases s.len() - k,
    {
        if matches_at(s, p, k) {
            proof {
                assert(t.subrange(k - from, k - from + p.len()) =~= s@.subrange(
                    k as int,
                    k + p.len(),
                ));
                lemma_first_occurrence_is(t, p@, k - from);
            }
            return k;
        }
        proof {
            if occurs_at(t, p@, k - from) {
                assert(t.subrange(k - from, k - from + p.len()) =~= s@.subrange(
                    k as int,
                    k + p.len(),
                ));
            }
        }
        k += 1;
    }
    proof {
        lemma_first_occurrence(t, p@);
        if p.len() == 0 {
            assert(occurs_at(t, p@, t.len() as int)) by {
                assert(t.subrange(t.len() as int, t.len() + 0int) =~= p@);
            }
            if from < s.len() {
                assert(t.subrange(0, 0int + 0int) =~= p@);
                assert(occurs_at(t, p@, 0));
            }
            lemma_first_occurrence_is(t, p@, t.len() as int);
        } else {
            if contains(t, p@) {
                assert(occurs_at(t, p@, first_occurrence(t, p@)));
            }
        }
    }
    k
}

/// The character sequences that a vector of character vectors holds.
pub open spec fn views(v: Seq<Vec<char>>) -> Seq<Seq<char>> {
    Seq::new(v.len(), |i: int| v[i]@)
}

/// Pushing a vector appends its view.
pub proof fn lemma_views_push(v: Seq<Vec<char>>, x: Vec<char>)
    ensures
        views(v.push(x)) == views(v).push(x@),
{
    assert(views(v.push(x)) =~= views(v).push(x@));
}

/// The pieces of `s` between the non-overlapping occurrences of the
/// separator `p`, found from the left. There is always at least one piece;
/// an empty separator splits nothing.
pub open spec fn split(s: Seq<char>, p: Seq<char>) -> Seq<Seq<char>>
    decreases s.len(),
{
    let k = first_occurrence(s, p);
    if p.len() == 0 || k < 0 || k + p.len() > s.len() {
        seq![s]
    } else {
        seq![s.take(k)] + split(s.skip(k + p.len()), p)
    }
}

/// Executable form of [`split`].
pub fn split_on(s: &Vec<char>, p: &Vec<char>) -> (out: Vec<Vec<char>>)
    ensures
        views(out@) == split(s@, p@),
        out.len() >= 1,
{
    let mut out: Vec<Vec<char>> = Vec::new();
    if p.len() == 0 {
        let whole = slice(s, 0, s.len());
        assert(whole@ =~= s@);
        out.push(whole);
        assert(views(out@) =~= seq![s@]);
        return out;
    }
    let mut pos: usize = 0;
    assert(s@.skip(0) =~= s@);
    assert(views(out@) + split(s@.skip(0), p@) =~= split(s@, p@));
    loop
        invariant_except_break
            pos <= s.len(),
            p.len() > 0,
            views(out@) + split(s@.skip(pos as int), p@) == split(s@, p@),
        ensures
            views(out@) == split(s@, p@),
            out.len() >= 1,
        decreases s.len() - pos,
    {
        let ghost t = s@.skip(pos as int);
        let ghost before = out@;
        let k = find_sub(s, pos, p);
        if p.len() > s.len() - k {
            let piece = slice(s, pos, s.len());
            out.push(piece);
            proof {
                assert(piece@ =~= t);
                lemma_views_push(before, piece);
                assert(views(before).push(t) =~= views(before) + seq![t]);
            }
            break;
        }
        let piece = slice(s, pos, k);
        out.push(piece);
        proof {
            assert(piece@ =~= t.take(k - pos));
            assert(t.skip(k - pos + p.len()) =~= s@.skip(k + p.len()));
            lemma_views_push(before, piece);
            assert(views(before).push(piece@) + split(s@.skip(k + p.len()), p@) =~= views(before)
                + (seq![piece@] + split(s@.skip(k + p.len()), p@)));
        }
        pos = k + p.len();
    }
    out
}

/// `s` without one trailing carriage return, if it ends in one.
pub open spec fn strip_cr(s: Seq<char>) -> Seq<char> {
    if s.len() > 0 && s.last() == '\r' {
        s.drop_last()
    } else {
        s
    }
}

/// The lines of a text. A line ends at a line feed, which is not part of
/// it, nor is a carriage return directly before the line feed; text after
/// the last line feed is a line of its own unless it is empty.
pub open spec fn lines(s: Seq<char>) -> Seq<Seq<char>>
    decreases s.len(),
{
    if s.len() == 0 {
        Seq::empty()
    } else {
        let k = first_match(s, CharClass::Exactly('\n'));
        if k < 0 || k >= s.len() {
            seq![s]
        } else {
            seq![strip_cr(s.take(k))] + lines(s.skip(k + 1))
        }
    }
}

/// Executable form of [`lines`].
pub fn split_lines(s: &Vec<char>) -> (out: Vec<Vec<char>>)
    ensures
        views(out@) == lines(s@),
{
    let mut out: Vec<Vec<char>> = Vec::new();
    let mut pos: usize = 0;
    assert(s@.skip(0) =~= s@);
    assert(views(out@) + lines(s@.skip(0)) =~= lines(s@));
    while pos < s.len()
        invariant
            pos <= s.len(),
            views(out@) + lines(s@.skip(pos as int)) == lines(s@),
        decreases s.len() - pos,
    {
        let ghost t = s@.skip(pos as int);
        let ghost before = out@;
        let k = find(s, pos, CharClass::Exactly('\n'));
        if k >= s.len() {
            let piece = slice(s, pos, s.len());
            out.push(piece);
            proof {
                assert(piece@ =~= t);
                lemma_views_push(before, piece);
                assert(s@.skip(s.len() as int) =~= Seq::<char>::empty());
                assert(views(before).push(t) + lines(Seq::<char>::empty()) =~= views(before)
                    + seq![t]);
            }
            pos = s.len();
        } else {
            let end = if k > pos && s[k - 1] == '\r' {
                k - 1
            } else {
                k
            };
            let piece = slice(s, pos, end);
            out.push(piece);
            proof {
                assert(t.take(k - pos) =~= s@.subrange(pos as int, k as int));
                assert(piece@ =~= strip_cr(t.take(k - pos)));
                assert(t.skip(k - pos + 1) =~= s@.skip(k + 1));
                lemma_views_push(before, piece);
                assert(views(before).push(piece@) + lines(s@.skip(k + 1)) =~= views(before) + (
                seq![piece@] + lines(s@.skip(k + 1))));
            }
            pos = k + 1;
        }
    }
    assert(lines(s@.skip(pos as int)) =~= Seq::<Seq<char>>::empty());
    assert(views(out@) + Seq::<Seq<char>>::empty() =~= views(out@));
    out
}

/// The maximal runs of characters of `s` that hold no white space, from
/// left to right.
pub open spec fn tokens(s: Seq<char>) -> Seq<Seq<char>>
    decreases s.len(),
{
    let a = first_match(s, CharClass::NotSpace);
    if a < 0 || a >= s.len() {
        Seq::empty()
    } else {
        let rest = s.skip(a);
        let b = first_match(rest, CharClass::Space);
        if b <= 0 || b > rest.len() {
            Seq::empty()
        } else {
            seq![rest.take(b)] + tokens(rest.skip(b))
        }
    }
}

/// Executable form of [`tokens`].
pub fn split_tokens(s: &Vec<char>) -> (out: Vec<Vec<char>>)
    ensures
        views(out@) == tokens(s@),
        forall|i: int| 0 <= i < out.len() ==> (#[trigger] out[i]).len() > 0,
{
    let mut out: Vec<Vec<char>> = Vec::new();
    let mut pos: usize = 0;
    assert(s@.skip(0) =~= s@);
    assert(views(out@) + tokens(s@.skip(0)) =~= tokens(s@));
    loop
        invariant_except_break
            pos <= s.len(),
            views(out@) + tokens(s@.skip(pos as int)) == tokens(s@),
            forall|i: int| 0 <= i < out.len() ==> (#[trigger] out[i]).len() > 0,
        ensures
            views(out@) == tokens(s@),
            forall|i: int| 0 <= i < out.len() ==> (#[trigger] out[i]).len() > 0,
        decreases s.len() - pos,
    {
        let ghost t = s@.skip(pos as int);
        let ghost before = out@;
        let a = find(s, pos, CharClass::NotSpace);
        if a >= s.len() {
            assert(tokens(t) =~= Seq::<Seq<char>>::empty());
            assert(views(out@) + Seq::<Seq<char>>::empty() =~= views(out@));
            break;
        }
        let b = find(s, a, CharClass::Space);
        proof {
            assert(t.skip(a - pos) =~= s@.skip(a as int));
            lemma_first_match(t, CharClass::NotSpace);
            lemma_first_match(s@.skip(a as int), CharClass::Space);
            assert(s@.skip(a as int)[0] == t[a - pos]);
        }
        let piece = slice(s, a, b);
        out.push(piece);
        proof {
            let rest = s@.skip(a as int);
            assert(piece@ =~= rest.take(b - a));
            assert(rest.skip(b - a) =~= s@.skip(b as int));
            lemma_views_push(before, piece);
            assert(views(before).push(piece@) + tokens(s@.skip(b as int)) =~= views(before) + (
            seq![piece@] + tokens(s@.skip(b as int))));
        }
        pos = b;
    }
    out
}

/// `s` without its trailing white space.
pub open spec fn trim_end(s: Seq<char>) -> Seq<char>
    decreases s.len(),
{
    if s.len() > 0 && is_space(s.last()) {
        trim_end(s.drop_last())
    } else {
        s
    }
}

/// `s` without its leading white space.
pub open spec fn trim_start(s: Seq<char>) -> Seq<char> {
    s.skip(first_match(s, CharClass::NotSpace))
}

/// `s` without leading and trailing white space.
pub open spec fn trim(s: Seq<char>) -> Seq<char> {
    trim_end(trim_start(s))
}

/// Executable form of [`trim_end`].
pub fn trimmed_end(s: &Vec<char>) -> (out: Vec<char>)
    ensures
        out@ == trim_end(s@),
{
    let mut n: usize = s.len();
    assert(s@.take(n as int) =~= s@);
    while n > 0 && CharClass::Space.test(s[n - 1])
        invariant
            n <= s.len(),
            trim_end(s@.take(n as int)) == trim_end(s@),
        decreases n,
    {
        assert(s@.take(n as int).drop_last() =~= s@.take(n - 1));
        n -= 1;
    }
    let out = slice(s, 0, n);
    assert(out@ =~= s@.take(n as int));
    out
}

/// Executable form of [`trim`].
pub fn trimmed(s: &Vec<char>) -> (out: Vec<char>)
    ensures
        out@ == trim(s@),
{
    let a = find(s, 0, CharClass::NotSpace);
    assert(s@.skip(0) =~= s@);
    let tail = slice(s, a, s.len());
    assert(tail@ =~= trim_start(s@));
    trimmed_end(&tail)
}

/// Position of the first `true` in `flags`, or the length of `flags` when
/// there is none.
pub open spec fn first_true(flags: Seq<bool>) -> int
    decreases flags.len(),
{
    if flags.len() == 0 {
        0
    } else if flags[0] {
        0
    } else {
        1 + first_true(flags.skip(1))
    }
}

/// A position that holds `true`, or the length, with only `false` before
/// it, is `first_true`.
pub proof fn lemma_first_true_is(flags: Seq<bool>, k: int)
    requires
        0 <= k <= flags.len(),
        k < flags.len() ==> flags[k],
        forall|j: int| 0 <= j < k ==> !#[trigger] flags[j],
    ensures
        first_true(flags) == k,
    decreases flags.len(),
{
    if flags.len() > 0 && k > 0 {
        assert(!flags[0]);
        let rest = flags.skip(1);
        assert forall|j: int| 0 <= j < k - 1 implies !#[trigger] rest[j] by {
            assert(!flags[j + 1]);
        }
        lemma_first_true_is(rest, k - 1);
    }
}

/// Words joined by single blanks.
pub open spec fn join_words(words: Seq<Seq<char>>) -> Seq<char>
    decreases words.len(),
{
    if words.len() == 0 {
        Seq::empty()
    } else if words.len() == 1 {
        words[0]
    } else {
        join_words(words.drop_last()) + seq![' '] + words.last()
    }
}

/// The first member of a class in a text is found in any text that
/// continues it.
pub proof fn lemma_first_match_append(a: Seq<char>, b: Seq<char>, class: CharClass)
    requires
        first_match(a, class) < a.len(),
    ensures
        first_match(a + b, class) == first_match(a, class),
{
    lemma_first_match(a, class);
    let k = first_match(a, class);
    assert((a + b)[k] == a[k]);
    assert forall|j: int| 0 <= j < k implies !class.holds(#[trigger] (a + b)[j]) by {
        assert((a + b)[j] == a[j]);
    }
    lemma_first_match_is(a + b, class, k);
}

/// The lines of a text that follows whole lines are the lines of both, one
/// after the other.
pub proof fn lemma_lines_append(a: Seq<char>, b: Seq<char>)
    requires
        a.len() == 0 || a.last() == '\n',
    ensures
        lines(a + b) == lines(a) + lines(b),
    decreases a.len(),
{
    if a.len() == 0 {
        assert(a + b =~= b);
        assert(lines(a) + lines(b) =~= lines(b));
    } else {
        let feed = CharClass::Exactly('\n');
        lemma_first_match(a, feed);
        let k = first_match(a, feed);
        if k >= a.len() {
            assert(!feed.holds(a[a.len() - 1]));
        }
        lemma_first_match_append(a, b, feed);
        let rest = a.skip(k + 1);
        assert((a + b).take(k) =~= a.take(k));
        assert((a + b).skip(k + 1) =~= rest + b);
        if rest.len() > 0 {
            assert(rest.last() == a.last());
        }
        lemma_lines_append(rest, b);
        assert(seq![strip_cr(a.take(k))] + (lines(rest) + lines(b)) =~= (seq![
            strip_cr(a.take(k)),
        ] + lines(rest)) + lines(b));
    }
}

/// A text without a line feed, closed by one, is one line.
pub proof fn lemma_single_line(l: Seq<char>)
    requires
        forall|j: int| 0 <= j < l.len() ==> l[j] != '\n',
    ensures
        lines(l + seq!['\n']) == seq![strip_cr(l)],
{
    let feed = CharClass::Exactly('\n');
    let s = l + seq!['\n'];
    assert forall|j: int| 0 <= j < l.len() implies !feed.holds(#[trigger] s[j]) by {
        assert(s[j] == l[j]);
    }
    assert(s[l.len() as int] == '\n');
    lemma_first_match_is(s, feed, l.len() as int);
    assert(s.take(l.len() as int) =~= l);
    assert(s.skip(l.len() as int + 1) =~= Seq::<char>::empty());
    assert(lines(Seq::<char>::empty()) =~= Seq::<Seq<char>>::empty());
    assert(seq![strip_cr(l)] + Seq::<Seq<char>>::empty() =~= seq![strip_cr(l)]);
}

} // verus!
