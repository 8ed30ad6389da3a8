//! Small tools for building strings character by character.

use vstd::prelude::*;

verus! {

/// Appends one character through `String::push` of std. Trusted: the string
/// afterwards is the string before with `c` at its end.
#[verifier::external_body]
pub(crate) fn push_char(s: &mut String, c: char)
    ensures
        final(s)@ == old(s)@.push(c),
{
    s.push(c);
}

/// An empty string.
pub fn empty() -> (r: String)
    ensures
        r@ == Seq::<char>::empty(),
{
    String::new()
}

/// A copy of a string slice.
pub fn owned(s: &str) -> (r: String)
    ensures
        r@ == s@,
{
    String::from_str(s)
}

/// True when `s` holds `c`.
pub fn has_char(s: &str, c: char) -> (r: bool)
    ensures
        r == s@.contains(c),
{
    let n = s.unicode_len();
    let mut i: usize = 0;
    while i < n
        invariant
            0 <= i <= n,
            n == s@.len(),
            forall|j: int| 0 <= j < i ==> s@[j] != c,
        decreases n - i,
    {
        if s.get_char(i) == c {
            return true;
        }
        i += 1;
    }
    false
}

/// True when `s` holds `a` directly followed by `b`.
pub open spec fn has_pair(s: Seq<char>, a: char, b: char) -> bool {
    exists|i: int| 0 <= i && i + 1 < s.len() && s[i] == a && #[trigger] s[i + 1] == b
}

pub fn holds_pair(s: &str, a: char, b: char) -> (r: bool)
    ensures
        r == has_pair(s@, a, b),
{
    let n = s.unicode_len();
    let mut i: usize = 0;
    while i < n && i + 1 < n
        invariant
            0 <= i,
            n == s@.len(),
            forall|j: int| 0 <= j < i && j + 1 < n ==> !(s@[j] == a && #[trigger] s@[j + 1] == b),
        decreases n - i,
    {
        if s.get_char(i) == a && s.get_char(i + 1) == b {
            return true;
        }
        i += 1;
    }
    false
}

/// True when two string slices hold the same text.
pub fn same(a: &str, b: &str) -> (r: bool)
    ensures
        r == (a@ == b@),
{
    String::from_str(a) == String::from_str(b)
}

/// A copy of a list of strings.
pub fn copied(list: &Vec<String>) -> (r: Vec<String>)
    ensures
        r@ == list@,
{
    let mut r: Vec<String> = Vec::new();
    let mut i: usize = 0;
    while i < list.len()
        invariant
            0 <= i <= list.len(),
            r@ == list@.take(i as int),
        decreases list.len() - i,
    {
        r.push(list[i].clone());
        assert(r@ =~= list@.take(i + 1));
        i += 1;
    }
    assert(list@.take(i as int) =~= list@);
    r
}

/// The parts of a text between the occurrences of a character, from position
/// `i` on, where `current` holds what has been read of the part at hand.
pub open spec fn parts_from(s: Seq<char>, at: char, i: int, current: Seq<char>) -> Seq<Seq<char>>
    decreases s.len() - i,
{
    if i < 0 || i >= s.len() {
        seq![current]
    } else if s[i] == at {
        seq![current] + parts_from(s, at, i + 1, Seq::empty())
    } else {
        parts_from(s, at, i + 1, current.push(s[i]))
    }
}

/// The parts of a text between the occurrences of a character.
pub open spec fn parts_at(s: Seq<char>, at: char) -> Seq<Seq<char>> {
    parts_from(s, at, 0, Seq::empty())
}

/// The texts of a list of strings.
pub open spec fn texts(list: Seq<String>) -> Seq<Seq<char>> {
    list.map_values(|s: String| s@)
}

/// Splits a text at each occurrence of a character.
pub fn split_at_char(s: &str, at: char) -> (r: Vec<String>)
    ensures
        texts(r@) == parts_at(s@, at),
{
    let n = s.unicode_len();
    let mut done: Vec<String> = Vec::new();
    let mut current = String::new();
    let mut i: usize = 0;
    assert(texts(done@) =~= Seq::<Seq<char>>::empty());
    while i < n
        invariant
            0 <= i <= n,
            n == s@.len(),
            parts_at(s@, at) == texts(done@) + parts_from(s@, at, i as int, current@),
        decreases n - i,
    {
        let c = s.get_char(i);
        if c == at {
            let ghost before = texts(done@);
            let ghost piece = current@;
            done.push(current);
            current = String::new();
            assert(texts(done@) =~= before + seq![piece]);
        } else {
            push_char(&mut current, c);
        }
        i += 1;
    }
    let ghost before = texts(done@);
    let ghost piece = current@;
    done.push(current);
    assert(texts(done@) =~= before + seq![piece]);
    done
}

/// The decimal digits of a number, most significant first.
pub open spec fn decimal_text(n: nat) -> Seq<char>
    decreases n,
{
    if n < 10 {
        seq![digit_char(n)]
    } else {
        decimal_text(n / 10).push(digit_char(n % 10))
    }
}

/// The character of a digit.
pub open spec fn digit_char(d: nat) -> char {
    if d == 0 {
        '0'
    } else if d == 1 {
        '1'
    } else if d == 2 {
        '2'
    } else if d == 3 {
        '3'
    } else if d == 4 {
        '4'
    } else if d == 5 {
        '5'
    } else if d == 6 {
        '6'
    } else if d == 7 {
        '7'
    } else if d == 8 {
        '8'
    } else {
        '9'
    }
}

fn digit(d: usize) -> (c: char)
    requires
        d < 10,
    ensures
        c == digit_char(d as nat),
{
    match d {
        0 => '0',
        1 => '1',
        2 => '2',
        3 => '3',
        4 => '4',
        5 => '5',
        6 => '6',
        7 => '7',
        8 => '8',
        _ => '9',
    }
}

/// A number written in decimal digits.
pub fn decimal(n: usize) -> (r: String)
    ensures
        r@ == decimal_text(n as nat),
    decreases n,
{
    if n < 10 {
        let mut r = String::new();
        push_char(&mut r, digit(n));
        assert(r@ =~= seq![digit_char(n as nat)]);
        r
    } else {
        let mut r = decimal(n / 10);
        push_char(&mut r, digit(n % 10));
        r
    }
}

/// The text of an optional string.
pub open spec fn text_of(s: Option<String>) -> Option<Seq<char>> {
    match s {
        Some(s) => Some(s@),
        None => None,
    }
}

/// True when `pattern` stands in `s` at position `i`.
pub open spec fn stands_at(s: Seq<char>, i: int, pattern: Seq<char>) -> bool {
    0 <= i && i + pattern.len() <= s.len() && s.subrange(i, i + pattern.len()) == pattern
}

/// The text from position `i` on with each occurrence of `pattern`, read from
/// the left and without overlap, replaced by `with`.
pub open spec fn replaced_from(s: Seq<char>, pattern: Seq<char>, with: Seq<char>, i: int) -> Seq<
    char,
>
    decreases s.len() - i,
{
    if i < 0 || i >= s.len() || pattern.len() == 0 {
        Seq::empty()
    } else if stands_at(s, i, pattern) {
        with + replaced_from(s, pattern, with, i + pattern.len())
    } else {
        seq![s[i]] + replaced_from(s, pattern, with, i + 1)
    }
}

/// The text with each occurrence of `pattern` replaced by `with`.
pub open spec fn replaced(s: Seq<char>, pattern: Seq<char>, with: Seq<char>) -> Seq<char> {
    replaced_from(s, pattern, with, 0)
}

/// Whether `pattern` stands in `s` at position `i`.
pub fn matches_at(s: &str, i: usize, pattern: &str) -> (r: bool)
    ensures
        r == stands_at(s@, i as int, pattern@),
{
    let n = s.unicode_len();
    let m = pattern.unicode_len();
    if i > n || m > n - i {
        return false;
    }
    let mut k: usize = 0;
    while k < m
        invariant
            0 <= k <= m,
            m == pattern@.len(),
            n == s@.len(),
            i + m <= n,
            forall|j: int| 0 <= j < k ==> s@[i + j] == pattern@[j],
        decreases m - k,
    {
        if s.get_char(i + k) != pattern.get_char(k) {
            assert(s@.subrange(i as int, i + m)[k as int] != pattern@[k as int]);
            return false;
        }
        k += 1;
    }
    assert(s@.subrange(i as int, i + m) =~= pattern@);
    true
}

/// Replaces each occurrence of a pattern that is not empty.
pub fn replace_all(s: &str, pattern: &str, with: &str) -> (r: String)
    requires
        pattern@.len() > 0,
    ensures
        r@ == replaced(s@, pattern@, with@),
{
    let n = s.unicode_len();
    let m = pattern.unicode_len();
    let mut out = String::new();
    let mut i: usize = 0;
    while i < n
        invariant
            0 <= i <= n,
            n == s@.len(),
            m == pattern@.len(),
            m > 0,
            replaced(s@, pattern@, with@) == out@ + replaced_from(s@, pattern@, with@, i as int),
        decreases n - i,
    {
        let ghost before = out@;
        if matches_at(s, i, pattern) {
            out.append(with);
            assert(out@ + replaced_from(s@, pattern@, with@, i + m) =~= before + (with@
                + replaced_from(s@, pattern@, with@, i + m)));
            i += m;
        } else {
            let c = s.get_char(i);
            push_char(&mut out, c);
            assert(out@ + replaced_from(s@, pattern@, with@, i + 1) =~= before + (seq![c]
                + replaced_from(s@, pattern@, with@, i + 1)));
            i += 1;
        }
    }
    assert(out@ + Seq::<char>::empty() =~= out@);
    out
}

/// The text up to its first line break, or all of it where it has none.
pub open spec fn first_line(s: Seq<char>) -> Seq<char> {
    parts_at(s, '\n')[0]
}

/// Cuts a text at its first line break.
pub fn until_line_break(s: &str) -> (r: String)
    ensures
        r@ == first_line(s@),
{
    let mut lines = split_at_char(s, '\n');
    proof {
        lemma_parts_not_empty(s@, '\n', 0, Seq::empty());
    }
    assert(texts(lines@)[0] == lines@[0]@);
    lines.swap_remove(0)
}

/// A text has at least one part.
pub proof fn lemma_parts_not_empty(s: Seq<char>, at: char, i: int, current: Seq<char>)
    ensures
        parts_from(s, at, i, current).len() > 0,
    decreases s.len() - i,
{
    if !(i < 0 || i >= s.len()) {
        if s[i] != at {
            lemma_parts_not_empty(s, at, i + 1, current.push(s[i]));
        }
    }
}

} // verus!
