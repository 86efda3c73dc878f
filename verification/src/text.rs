//! Small string routines over the character view of `str` and `String`.
use vstd::prelude::*;

verus! {

/// `needle` occurs in `hay` starting at character position `i`.
pub open spec fn occurs_at(hay: Seq<char>, needle: Seq<char>, i: int) -> bool {
    &&& 0 <= i
    &&& i + needle.len() <= hay.len()
    &&& hay.subrange(i, i + needle.len()) == needle
}

/// `needle` occurs somewhere in `hay`.
pub open spec fn has_substring(hay: Seq<char>, needle: Seq<char>) -> bool {
    exists|i: int| occurs_at(hay, needle, i)
}

/// The characters of `needle` from `j` on match `hay` from `i + j` on.
pub open spec fn matches_from(hay: Seq<char>, needle: Seq<char>, i: int, j: int) -> bool
    decreases needle.len() - j,
{
    if j < 0 || j >= needle.len() {
        true
    } else {
        hay[i + j] == needle[j] && matches_from(hay, needle, i, j + 1)
    }
}

/// `needle` occurs in `hay` at some position from `i` on, checked position by
/// position and character by character.
pub open spec fn occurs_from(hay: Seq<char>, needle: Seq<char>, i: int) -> bool
    decreases hay.len() + 1 - i,
{
    if i < 0 || i + needle.len() > hay.len() {
        false
    } else {
        matches_from(hay, needle, i, 0) || occurs_from(hay, needle, i + 1)
    }
}

proof fn lemma_matches_from(hay: Seq<char>, needle: Seq<char>, i: int, j: int)
    requires
        0 <= i,
        i + needle.len() <= hay.len(),
        0 <= j <= needle.len(),
    ensures
        matches_from(hay, needle, i, j) <==> forall|k: int| j <= k < needle.len() ==> hay[i + k] == needle[k],
    decreases needle.len() - j,
{
    if j < needle.len() {
        lemma_matches_from(hay, needle, i, j + 1);
    }
}

proof fn lemma_occurs_from(hay: Seq<char>, needle: Seq<char>, i: int)
    requires
        0 <= i,
    ensures
        occurs_from(hay, needle, i) <==> exists|k: int| i <= k && occurs_at(hay, needle, k),
    decreases hay.len() + 1 - i,
{
    if i + needle.len() <= hay.len() {
        lemma_occurs_from(hay, needle, i + 1);
        lemma_matches_from(hay, needle, i, 0);
        if matches_from(hay, needle, i, 0) {
            assert(hay.subrange(i, i + needle.len()) =~= needle);
            assert(occurs_at(hay, needle, i));
        }
        if occurs_at(hay, needle, i) {
            assert forall|k: int| 0 <= k < needle.len() implies hay[i + k] == needle[k] by {
                assert(hay.subrange(i, i + needle.len())[k] == hay[i + k]);
            }
        }
        if exists|k: int| i <= k && occurs_at(hay, needle, k) {
            let k = choose|k: int| i <= k && occurs_at(hay, needle, k);
            if k > i {
                assert(exists|k2: int| i + 1 <= k2 && occurs_at(hay, needle, k2));
            }
        }
    }
}

/// Whether a text holds another can be decided position by position.
pub proof fn has_substring_by_positions()
    ensures
        forall|hay: Seq<char>, needle: Seq<char>| #[trigger] has_substring(hay, needle) == occurs_from(hay, needle, 0),
{
    assert forall|hay: Seq<char>, needle: Seq<char>| #[trigger] has_substring(hay, needle) == occurs_from(
        hay,
        needle,
        0,
    ) by {
        lemma_occurs_from(hay, needle, 0);
    }
}

/// Position of the first occurrence of `c` in `s`, if any.
pub open spec fn first_index_of(s: Seq<char>, c: char) -> Option<int>
    decreases s.len(),
{
    if s.len() == 0 {
        None
    } else if s[0] == c {
        Some(0)
    } else {
        match first_index_of(s.drop_first(), c) {
            Some(i) => Some(i + 1),
            None => None,
        }
    }
}

pub proof fn lemma_first_index_of(s: Seq<char>, c: char)
    ensures
        match first_index_of(s, c) {
            Some(i) => 0 <= i < s.len() && s[i] == c && forall|j: int| 0 <= j < i ==> s[j] != c,
            None => forall|j: int| 0 <= j < s.len() ==> s[j] != c,
        },
    decreases s.len(),
{
    if s.len() > 0 && s[0] != c {
        lemma_first_index_of(s.drop_first(), c);
        match first_index_of(s.drop_first(), c) {
            Some(i) => {
                assert forall|j: int| 0 <= j < i + 1 implies s[j] != c by {
                    if j > 0 {
                        assert(s[j] == s.drop_first()[j - 1]);
                    }
                }
            },
            None => {
                assert forall|j: int| 0 <= j < s.len() implies s[j] != c by {
                    if j > 0 {
                        assert(s[j] == s.drop_first()[j - 1]);
                    }
                }
            },
        }
    }
}

/// The characters of `s`, in order.
pub fn chars_of(s: &str) -> (v: Vec<char>)
    ensures
        v@ == s@,
{
    let n = s.unicode_len();
    let mut v: Vec<char> = Vec::new();
    let mut i: usize = 0;
    while i < n
        invariant
            n == s@.len(),
            i <= n,
            v@ == s@.subrange(0, i as int),
        decreases n - i,
    {
        v.push(s.get_char(i));
        i = i + 1;
    }
    assert(v@ =~= s@);
    v
}

/// Whether two strings hold the same characters.
pub fn text_eq(a: &str, b: &str) -> (r: bool)
    ensures
        r == (a@ == b@),
{
    let n = a.unicode_len();
    if n != b.unicode_len() {
        return false;
    }
    let mut i: usize = 0;
    while i < n
        invariant
            n == a@.len(),
            n == b@.len(),
            i <= n,
            forall|j: int| 0 <= j < i ==> a@[j] == b@[j],
        decreases n - i,
    {
        if a.get_char(i) != b.get_char(i) {
            return false;
        }
        i = i + 1;
    }
    assert(a@ =~= b@);
    true
}

/// Whether `needle` occurs in `hay` at position `i`.
pub fn occurs_at_exec(hay: &Vec<char>, needle: &Vec<char>, i: usize) -> (r: bool)
    ensures
        r == occurs_at(hay@, needle@, i as int),
{
    if i > hay.len() || needle.len() > hay.len() - i {
        return false;
    }
    let hl = hay.len();
    let mut k: usize = 0;
    while k < needle.len()
        invariant
            hl == hay@.len(),
            i + needle@.len() <= hay@.len(),
            k <= needle@.len(),
            forall|j: int| 0 <= j < k ==> hay@[i + j] == needle@[j],
        decreases needle@.len() - k,
    {
        assert(i + k < hl);
        if hay[i + k] != needle[k] {
            assert(hay@.subrange(i as int, i + needle@.len())[k as int] != needle@[k as int]);
            return false;
        }
        k = k + 1;
    }
    assert(hay@.subrange(i as int, i + needle@.len()) =~= needle@);
    true
}

/// Whether `needle` occurs anywhere in `hay`.
pub fn contains_chars(hay: &Vec<char>, needle: &Vec<char>) -> (r: bool)
    ensures
        r == has_substring(hay@, needle@),
{
    if needle.len() > hay.len() {
        return false;
    }
    let last = hay.len() - needle.len();
    let mut i: usize = 0;
    while i < last
        invariant
            last == hay@.len() - needle@.len(),
            i <= last,
            forall|j: int| 0 <= j < i ==> !occurs_at(hay@, needle@, j),
        decreases last - i,
    {
        if occurs_at_exec(hay, needle, i) {
            return true;
        }
        i = i + 1;
    }
    occurs_at_exec(hay, needle, last)
}

/// Whether the text `needle` occurs in the characters `hay`.
pub fn contains_text(hay: &Vec<char>, needle: &str) -> (r: bool)
    ensures
        r == has_substring(hay@, needle@),
{
    let n = chars_of(needle);
    contains_chars(hay, &n)
}

/// Position of the first `c` in `s`.
pub fn find_char(s: &Vec<char>, c: char) -> (r: Option<usize>)
    ensures
        match r {
            Some(i) => first_index_of(s@, c) == Some(i as int),
            None => first_index_of(s@, c) is None,
        },
{
    proof {
        lemma_first_index_of(s@, c);
    }
    let mut i: usize = 0;
    while i < s.len()
        invariant
            i <= s@.len(),
            forall|j: int| 0 <= j < i ==> s@[j] != c,
            match first_index_of(s@, c) {
                Some(k) => 0 <= k < s@.len() && s@[k] == c && forall|j: int| 0 <= j < k ==> s@[j]
                    != c,
                None => forall|j: int| 0 <= j < s@.len() ==> s@[j] != c,
            },
        decreases s@.len() - i,
    {
        if s[i] == c {
            return Some(i);
        }
        i = i + 1;
    }
    None
}

/// A `String` holding the characters `s[from..to]`.
pub fn string_of_range(s: &str, from: usize, to: usize) -> (r: String)
    requires
        from <= to <= s@.len(),
    ensures
        r@ == s@.subrange(from as int, to as int),
{
    String::from_str(s.substring_char(from, to))
}


/// The leftmost position at or after `i` where `sep` occurs in `s`.
pub open spec fn first_occurrence_from(s: Seq<char>, sep: Seq<char>, i: int) -> Option<int>
    decreases s.len() + 1 - i,
{
    if i < 0 || i > s.len() {
        None
    } else if occurs_at(s, sep, i) {
        Some(i)
    } else {
        first_occurrence_from(s, sep, i + 1)
    }
}

pub proof fn lemma_first_occurrence_from(s: Seq<char>, sep: Seq<char>, i: int)
    requires
        0 <= i,
    ensures
        match first_occurrence_from(s, sep, i) {
            Some(k) => i <= k && occurs_at(s, sep, k) && forall|j: int|
                i <= j < k ==> !occurs_at(s, sep, j),
            None => forall|j: int| i <= j ==> !occurs_at(s, sep, j),
        },
    decreases s.len() + 1 - i,
{
    if i <= s.len() && !occurs_at(s, sep, i) {
        lemma_first_occurrence_from(s, sep, i + 1);
    }
}

/// The pieces of `s[k..]` between occurrences of the non-empty `sep`, left to right.
pub open spec fn split_from(s: Seq<char>, sep: Seq<char>, k: int) -> Seq<Seq<char>>
    decreases s.len() - k,
    when 0 <= k <= s.len() && sep.len() > 0
{
    match first_occurrence_from(s, sep, k) {
        Some(i) => {
            proof {
                lemma_first_occurrence_from(s, sep, k);
            }
            seq![s.subrange(k, i)] + split_from(s, sep, i + sep.len())
        },
        None => seq![s.subrange(k, s.len() as int)],
    }
}

/// The pieces of `s` between occurrences of the non-empty `sep`.
pub open spec fn split_text(s: Seq<char>, sep: Seq<char>) -> Seq<Seq<char>> {
    split_from(s, sep, 0)
}

/// Pieces put back together with `sep` between them.
pub open spec fn joined(parts: Seq<Seq<char>>, sep: Seq<char>) -> Seq<char>
    decreases parts.len(),
{
    if parts.len() == 0 {
        Seq::empty()
    } else if parts.len() == 1 {
        parts[0]
    } else {
        parts[0] + sep + joined(parts.drop_first(), sep)
    }
}

/// Splitting cuts a text into at least one piece; no piece holds the
/// separator, and putting the pieces back together with the separator gives
/// the text again.
pub proof fn splitting_cuts_at_every_separator(s: Seq<char>, sep: Seq<char>, k: int)
    requires
        sep.len() > 0,
        0 <= k <= s.len(),
    ensures
        split_from(s, sep, k).len() >= 1,
        joined(split_from(s, sep, k), sep) == s.subrange(k, s.len() as int),
        forall|p: int| 0 <= p < split_from(s, sep, k).len() ==> !has_substring(#[trigger] split_from(s, sep, k)[p], sep),
    decreases s.len() - k,
{
    lemma_first_occurrence_from(s, sep, k);
    match first_occurrence_from(s, sep, k) {
        Some(i) => {
            splitting_cuts_at_every_separator(s, sep, i + sep.len());
            let rest = split_from(s, sep, i + sep.len());
            let parts = split_from(s, sep, k);
            assert(parts == seq![s.subrange(k, i)] + rest);
            assert(parts.drop_first() =~= rest);
            assert(s.subrange(i, i + sep.len()) == sep);
            assert(s.subrange(k, s.len() as int) =~= s.subrange(k, i) + sep + s.subrange(i + sep.len(), s.len() as int));
            assert forall|p: int| 0 <= p < parts.len() implies !has_substring(#[trigger] parts[p], sep) by {
                if p == 0 {
                    let piece = s.subrange(k, i);
                    if has_substring(piece, sep) {
                        let j = choose|j: int| occurs_at(piece, sep, j);
                        assert(s.subrange(k + j, k + j + sep.len()) =~= piece.subrange(j, j + sep.len()));
                        assert(occurs_at(s, sep, k + j));
                    }
                } else {
                    assert(parts[p] == rest[p - 1]);
                }
            }
        },
        None => {
            let piece = s.subrange(k, s.len() as int);
            assert(split_from(s, sep, k) == seq![piece]);
            if has_substring(piece, sep) {
                let j = choose|j: int| occurs_at(piece, sep, j);
                assert(s.subrange(k + j, k + j + sep.len()) =~= piece.subrange(j, j + sep.len()));
                assert(occurs_at(s, sep, k + j));
            }
        },
    }
}

/// The leftmost occurrence of `sep` in `s` at or after `from`.
pub fn find_from(s: &Vec<char>, sep: &Vec<char>, from: usize) -> (r: Option<usize>)
    requires
        from <= s@.len(),
    ensures
        match r {
            Some(i) => first_occurrence_from(s@, sep@, from as int) == Some(i as int),
            None => first_occurrence_from(s@, sep@, from as int) is None,
        },
{
    let mut i = from;
    while i < s.len()
        invariant
            from <= i <= s@.len(),
            first_occurrence_from(s@, sep@, from as int) == first_occurrence_from(
                s@,
                sep@,
                i as int,
            ),
        decreases s@.len() - i,
    {
        if occurs_at_exec(s, sep, i) {
            return Some(i);
        }
        i = i + 1;
    }
    if occurs_at_exec(s, sep, i) {
        Some(i)
    } else {
        assert(first_occurrence_from(s@, sep@, i + 1) is None);
        None
    }
}


/// The decimal digit character for `d` (0..=9).
pub open spec fn digit_char(d: nat) -> char {
    ((48 + d) as u32) as char
}

/// The decimal text of `n`, without leading zeros.
pub open spec fn decimal(n: nat) -> Seq<char>
    decreases n,
{
    if n < 10 {
        seq![digit_char(n)]
    } else {
        decimal(n / 10) + seq![digit_char(n % 10)]
    }
}

/// The number a text of decimal digits reads as.
pub open spec fn digits_value(s: Seq<char>) -> int
    decreases s.len(),
{
    if s.len() == 0 {
        0
    } else {
        10 * digits_value(s.drop_last()) + (s.last() as int - 48)
    }
}

/// The decimal text of a number is made of digits, starts with a non-zero
/// digit unless the number is 0, and reads back as the number.
pub proof fn decimal_reads_back(n: nat)
    ensures
        forall|i: int| 0 <= i < decimal(n).len() ==> '0' <= #[trigger] decimal(n)[i] <= '9',
        n > 0 ==> decimal(n)[0] != '0',
        decimal(n).len() >= 1,
        digits_value(decimal(n)) == n,
    decreases n,
{
    if n >= 10 {
        decimal_reads_back(n / 10);
        let d = decimal(n);
        assert(d.drop_last() =~= decimal(n / 10));
        assert(d[0] == decimal(n / 10)[0]);
        assert forall|i: int| 0 <= i < d.len() implies '0' <= #[trigger] d[i] <= '9' by {
            if i < d.len() - 1 {
                assert(d[i] == decimal(n / 10)[i]);
            }
        }
        assert(n == 10 * (n / 10) + n % 10);
        assert(digit_char((n % 10) as nat) as int == 48 + n % 10);
        assert(d.last() == digit_char((n % 10) as nat));
        assert(digits_value(d) == 10 * digits_value(d.drop_last()) + (d.last() as int - 48));
    } else {
        assert(digit_char(n) as int == 48 + n);
        assert(decimal(n).drop_last() =~= Seq::<char>::empty());
        assert(digits_value(Seq::<char>::empty()) == 0);
        assert(digits_value(decimal(n)) == 10 * digits_value(decimal(n).drop_last()) + (decimal(n).last() as int - 48));
    }
}

/// The text of one decimal digit.
fn digit_text(d: u32) -> (r: &'static str)
    requires
        d < 10,
    ensures
        r@ == seq![digit_char(d as nat)],
{
    proof {
        reveal_strlit("0");
        reveal_strlit("1");
        reveal_strlit("2");
        reveal_strlit("3");
        reveal_strlit("4");
        reveal_strlit("5");
        reveal_strlit("6");
        reveal_strlit("7");
        reveal_strlit("8");
        reveal_strlit("9");
    }
    let r = if d == 0 {
        "0"
    } else if d == 1 {
        "1"
    } else if d == 2 {
        "2"
    } else if d == 3 {
        "3"
    } else if d == 4 {
        "4"
    } else if d == 5 {
        "5"
    } else if d == 6 {
        "6"
    } else if d == 7 {
        "7"
    } else if d == 8 {
        "8"
    } else {
        "9"
    };
    assert(r@ =~= seq![digit_char(d as nat)]);
    r
}

/// The decimal text of `n`.
pub fn decimal_text(n: u32) -> (r: String)
    ensures
        r@ == decimal(n as nat),
    decreases n,
{
    if n < 10 {
        String::from_str(digit_text(n))
    } else {
        let mut r = decimal_text(n / 10);
        r.append(digit_text(n % 10));
        r
    }
}


/// Lexicographic order on texts, by code point (the order of `str` comparison,
/// since UTF-8 preserves code point order).
pub open spec fn text_lt(a: Seq<char>, b: Seq<char>) -> bool
    decreases a.len(),
{
    if a.len() == 0 {
        b.len() > 0
    } else if b.len() == 0 {
        false
    } else if (a[0] as u32) < (b[0] as u32) {
        true
    } else if a[0] == b[0] {
        text_lt(a.drop_first(), b.drop_first())
    } else {
        false
    }
}

/// Text order is a strict order: no text comes before itself, of two texts
/// at most one comes before the other, and it is transitive.
pub proof fn text_order_is_strict(a: Seq<char>, b: Seq<char>, c: Seq<char>)
    ensures
        !text_lt(a, a),
        text_lt(a, b) ==> !text_lt(b, a),
        text_lt(a, b) && text_lt(b, c) ==> text_lt(a, c),
    decreases a.len(),
{
    if a.len() > 0 && b.len() > 0 {
        text_order_is_strict(a.drop_first(), b.drop_first(), a.drop_first());
        if c.len() > 0 {
            text_order_is_strict(a.drop_first(), b.drop_first(), c.drop_first());
        }
    } else if a.len() > 0 {
        text_order_is_strict(a.drop_first(), a.drop_first(), a.drop_first());
    }
}

/// A text comes before every longer text it starts, and otherwise the first
/// character where two texts differ decides.
pub proof fn text_order_by_first_difference(a: Seq<char>, b: Seq<char>, i: int)
    requires
        0 <= i <= a.len(),
        i <= b.len(),
        a.take(i) == b.take(i),
    ensures
        i == a.len() && i < b.len() ==> text_lt(a, b),
        i < a.len() && i < b.len() && (a[i] as u32) < (b[i] as u32) ==> text_lt(a, b),
        i < a.len() && i == b.len() ==> !text_lt(a, b),
    decreases i,
{
    if i > 0 {
        assert(a[0] == a.take(i)[0]);
        assert(b[0] == b.take(i)[0]);
        assert(a.drop_first().take(i - 1) =~= a.take(i).drop_first());
        assert(b.drop_first().take(i - 1) =~= b.take(i).drop_first());
        text_order_by_first_difference(a.drop_first(), b.drop_first(), i - 1);
    }
}

/// Whether `a` comes strictly before `b` in text order.
pub fn text_less(a: &str, b: &str) -> (r: bool)
    ensures
        r == text_lt(a@, b@),
{
    let x = chars_of(a);
    let y = chars_of(b);
    assert(x@.skip(0) =~= x@);
    assert(y@.skip(0) =~= y@);
    let mut i: usize = 0;
    while i < x.len() && i < y.len()
        invariant
            i <= x@.len(),
            i <= y@.len(),
            text_lt(a@, b@) == text_lt(x@.skip(i as int), y@.skip(i as int)),
            x@ == a@,
            y@ == b@,
        decreases x@.len() - i,
    {
        let c = x[i];
        let d = y[i];
        if (c as u32) < (d as u32) {
            return true;
        }
        if c != d {
            return false;
        }
        assert(x@.skip(i as int).drop_first() =~= x@.skip(i + 1));
        assert(y@.skip(i as int).drop_first() =~= y@.skip(i + 1));
        i = i + 1;
    }
    i < y.len()
}

} // verus!
