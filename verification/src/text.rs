//! Character-level helpers for `String` and `&str`.
//!
//! Text is modelled by its view, a `Seq<char>`. Functions here work on a
//! `Vec<char>` copy of the text, so that every index is an index of characters.

use vstd::prelude::*;
use vstd::string::*;

verus! {

/// Whether a character has the Unicode property `White_Space`: the
/// controls from tab to carriage return, the space, the next-line control,
/// the no-break spaces, the Ogham space mark, the spaces of fixed width,
/// the line and paragraph separators, the mathematical space and the
/// ideographic space.
pub open spec fn unicode_whitespace(c: char) -> bool {
    ||| '\u{9}' <= c <= '\u{d}'
    ||| c == '\u{20}'
    ||| c == '\u{85}'
    ||| c == '\u{a0}'
    ||| c == '\u{1680}'
    ||| '\u{2000}' <= c <= '\u{200a}'
    ||| c == '\u{2028}'
    ||| c == '\u{2029}'
    ||| c == '\u{202f}'
    ||| c == '\u{205f}'
    ||| c == '\u{3000}'
}

/// Calls `char::is_whitespace`, which tells whether the character has the
/// Unicode property `White_Space`. The contract lists the characters that
/// have it.
#[verifier::external_body]
pub(crate) fn is_whitespace(c: char) -> (b: bool)
    ensures
        b == unicode_whitespace(c),
{
    c.is_whitespace()
}

/// Calls `String::push`: the character is appended at the end.
#[verifier::external_body]
pub(crate) fn push_char(s: &mut String, c: char)
    ensures
        final(s)@ == old(s)@.push(c),
{
    s.push(c)
}

/// Calls `String::pop`: the last character is removed and returned, or
/// nothing changes and `None` comes back where the string is empty.
#[verifier::external_body]
pub(crate) fn pop_char(s: &mut String) -> (c: Option<char>)
    ensures
        old(s)@.len() == 0 ==> c is None && final(s)@ == old(s)@,
        old(s)@.len() > 0 ==> c == Some(old(s)@.last()) && final(s)@ == old(s)@.drop_last(),
{
    s.pop()
}

/// The characters of `s`, in order.
pub fn chars_of(s: &str) -> (v: Vec<char>)
    ensures
        v@ == s@,
{
    let n: usize = s.unicode_len();
    let mut v: Vec<char> = Vec::new();
    let mut i: usize = 0;
    while i < n
        invariant
            n == s@.len(),
            i <= n,
            v@ == s@.subrange(0, i as int),
        decreases n - i,
    {
        let c: char = s.get_char(i);
        v.push(c);
        i += 1;
        assert(v@ =~= s@.subrange(0, i as int));
    }
    assert(s@.subrange(0, n as int) =~= s@);
    v
}

/// The string made of the characters `v[from..to]`.
pub fn string_of(v: &Vec<char>, from: usize, to: usize) -> (s: String)
    requires
        from <= to <= v.len(),
    ensures
        s@ == v@.subrange(from as int, to as int),
{
    let mut s: String = String::new();
    let mut i: usize = from;
    while i < to
        invariant
            from <= i <= to <= v.len(),
            s@ == v@.subrange(from as int, i as int),
        decreases to - i,
    {
        push_char(&mut s, v[i]);
        i += 1;
        assert(s@ =~= v@.subrange(from as int, i as int));
    }
    assert(s@ =~= v@.subrange(from as int, to as int));
    s
}

/// The views of a sequence of strings.
pub open spec fn views(v: Seq<String>) -> Seq<Seq<char>> {
    Seq::new(v.len(), |i: int| v[i]@)
}

/// Index of the first `c` in `s`, or `s.len()` where `s` holds none.
pub open spec fn first_index(s: Seq<char>, c: char) -> int
    decreases s.len(),
{
    if s.len() == 0 {
        0
    } else if s[0] == c {
        0
    } else {
        1 + first_index(s.drop_first(), c)
    }
}

/// `first_index` is the one position before which no `c` stands and at
/// which, unless it is the end, `c` stands.
pub proof fn lemma_first_index(s: Seq<char>, c: char, i: int)
    requires
        0 <= i <= s.len(),
        forall|j: int| 0 <= j < i ==> s[j] != c,
        i < s.len() ==> s[i] == c,
    ensures
        first_index(s, c) == i,
    decreases s.len(),
{
    if s.len() == 0 {
    } else if i == 0 {
    } else {
        assert(s[0] != c);
        let t = s.drop_first();
        assert forall|j: int| 0 <= j < i - 1 implies t[j] != c by {
            assert(t[j] == s[j + 1]);
        }
        lemma_first_index(t, c, i - 1);
    }
}

/// What `first_index` returns lies within the sequence, with no `c` before it.
pub proof fn lemma_first_index_bounds(s: Seq<char>, c: char)
    ensures
        0 <= first_index(s, c) <= s.len(),
        forall|j: int| 0 <= j < first_index(s, c) ==> s[j] != c,
        first_index(s, c) < s.len() ==> s[first_index(s, c)] == c,
    decreases s.len(),
{
    if s.len() == 0 {
    } else if s[0] == c {
    } else {
        let t = s.drop_first();
        lemma_first_index_bounds(t, c);
        assert forall|j: int| 0 <= j < first_index(s, c) implies s[j] != c by {
            if j > 0 {
                assert(t[j - 1] == s[j]);
            }
        }
    }
}

/// The pieces of `s` between occurrences of `sep`. There is always at least
/// one piece; a separator at the end leaves an empty last piece.
pub open spec fn split(s: Seq<char>, sep: char) -> Seq<Seq<char>>
    decreases s.len(),
{
    let i = first_index(s, sep);
    if 0 <= i < s.len() {
        seq![s.subrange(0, i)] + split(s.subrange(i + 1, s.len() as int), sep)
    } else {
        seq![s]
    }
}

/// `s` without one carriage return at its end.
pub open spec fn strip_cr(s: Seq<char>) -> Seq<char> {
    if s.len() > 0 && s.last() == '\r' {
        s.drop_last()
    } else {
        s
    }
}

/// The lines of `s`: split at line feeds, a carriage return before a line
/// feed dropped with it, and no empty line after a final line feed.
pub open spec fn lines_of(s: Seq<char>) -> Seq<Seq<char>>
    decreases s.len(),
{
    let i = first_index(s, '\n');
    if s.len() == 0 {
        Seq::empty()
    } else if 0 <= i < s.len() {
        seq![strip_cr(s.subrange(0, i))] + lines_of(s.subrange(i + 1, s.len() as int))
    } else {
        seq![s]
    }
}

/// Whether `s` holds no line feed.
pub open spec fn single_line(s: Seq<char>) -> bool {
    forall|j: int| 0 <= j < s.len() ==> s[j] != '\n'
}

/// A text that starts with `a` and a line feed has at least one line more
/// than what follows; where `a` is a single line, that line is `a`.
pub proof fn lemma_lines_prepend(a: Seq<char>, rest: Seq<char>)
    ensures
        lines_of(a + seq!['\n'] + rest).len() >= 1 + lines_of(rest).len(),
        lines_of(a + seq!['\n'] + rest)[0] == strip_cr(a.subrange(0, first_index(a, '\n'))),
        single_line(a) ==> lines_of(a + seq!['\n'] + rest) == seq![strip_cr(a)] + lines_of(rest),
    decreases a.len(),
{
    let whole = a + seq!['\n'] + rest;
    let i = first_index(whole, '\n');
    lemma_first_index_bounds(whole, '\n');
    lemma_first_index_bounds(a, '\n');
    assert(whole[a.len() as int] == '\n');
    assert(i <= a.len());
    let ia = first_index(a, '\n');
    assert(i == ia) by {
        assert forall|j: int| 0 <= j < ia implies whole[j] != '\n' by {
            assert(whole[j] == a[j]);
        }
        if ia < a.len() {
            assert(whole[ia] == a[ia]);
        }
        lemma_first_index(whole, '\n', ia);
    }
    assert(whole.subrange(0, i) =~= a.subrange(0, i));
    if i == a.len() {
        assert(whole.subrange(0, i) =~= a);
        assert(whole.subrange(i + 1, whole.len() as int) =~= rest);
    } else {
        let a2 = a.subrange(i + 1, a.len() as int);
        assert(whole.subrange(i + 1, whole.len() as int) =~= a2 + seq!['\n'] + rest);
        lemma_lines_prepend(a2, rest);
        assert(a[i] == '\n');
    }
}

/// `s` without the white space at its front.
pub open spec fn trim_start(s: Seq<char>) -> Seq<char>
    decreases s.len(),
{
    if s.len() > 0 && unicode_whitespace(s[0]) {
        trim_start(s.drop_first())
    } else {
        s
    }
}

/// `s` without the white space at its end.
pub open spec fn trim_end(s: Seq<char>) -> Seq<char>
    decreases s.len(),
{
    if s.len() > 0 && unicode_whitespace(s.last()) {
        trim_end(s.drop_last())
    } else {
        s
    }
}

/// `s` without the white space at either end.
pub open spec fn trimmed(s: Seq<char>) -> Seq<char> {
    trim_end(trim_start(s))
}

/// Whether `s` ends with `suffix`.
pub open spec fn ends_with(s: Seq<char>, suffix: Seq<char>) -> bool {
    s.len() >= suffix.len() && s.subrange(s.len() - suffix.len(), s.len() as int) == suffix
}

/// Whether `s` starts with `prefix`.
pub open spec fn starts_with(s: Seq<char>, prefix: Seq<char>) -> bool {
    s.len() >= prefix.len() && s.subrange(0, prefix.len() as int) == prefix
}

/// The position of the first `c` in `v[from..]`, or `v.len()`.
pub fn find_from(v: &Vec<char>, c: char, from: usize) -> (i: usize)
    requires
        from <= v.len(),
    ensures
        from <= i <= v.len(),
        i - from == first_index(v@.subrange(from as int, v.len() as int), c),
        forall|j: int| from <= j < i ==> v[j] != c,
        i < v.len() ==> v[i as int] == c,
{
    let mut i: usize = from;
    while i < v.len() && v[i] != c
        invariant
            from <= i <= v.len(),
            forall|j: int| from <= j < i ==> v[j] != c,
        decreases v.len() - i,
    {
        i += 1;
    }
    proof {
        let rest = v@.subrange(from as int, v.len() as int);
        assert forall|j: int| 0 <= j < i - from implies rest[j] != c by {
            assert(rest[j] == v[j + from]);
        }
        lemma_first_index(rest, c, i - from);
    }
    i
}

/// Splits `s` at each `sep`.
pub fn split_at_char(s: &str, sep: char) -> (pieces: Vec<String>)
    ensures
        views(pieces@) == split(s@, sep),
        pieces.len() >= 1,
{
    let v: Vec<char> = chars_of(s);
    let mut pieces: Vec<String> = Vec::new();
    let mut start: usize = 0;
    let mut done: bool = false;
    proof {
        assert(v@.subrange(0, v.len() as int) =~= s@);
        assert(views(pieces@) + split(s@, sep) =~= split(s@, sep));
    }
    while !done
        invariant
            v@ == s@,
            start <= v.len(),
            !done ==> split(s@, sep) == views(pieces@) + split(
                v@.subrange(start as int, v.len() as int),
                sep,
            ),
            done ==> split(s@, sep) == views(pieces@) && pieces.len() >= 1,
        decreases v.len() - start + (if done { 0int } else { 1int }),
    {
        let i: usize = find_from(&v, sep, start);
        let piece: String = string_of(&v, start, i);
        let ghost rest = v@.subrange(start as int, v.len() as int);
        let ghost before = views(pieces@);
        pieces.push(piece);
        proof {
            assert(rest.subrange(0, i - start) =~= v@.subrange(start as int, i as int));
            assert(views(pieces@) =~= before + seq![rest.subrange(0, i - start)]);
        }
        if i < v.len() {
            proof {
                assert(rest.subrange(i - start + 1, rest.len() as int) =~= v@.subrange(
                    i + 1,
                    v.len() as int,
                ));
                assert(split(rest, sep) == seq![rest.subrange(0, i - start)] + split(
                    v@.subrange(i + 1, v.len() as int),
                    sep,
                ));
                assert(split(s@, sep) =~= views(pieces@) + split(
                    v@.subrange(i + 1, v.len() as int),
                    sep,
                ));
            }
            start = i + 1;
        } else {
            proof {
                assert(rest.subrange(0, i - start) =~= rest);
                assert(split(rest, sep) == seq![rest]);
                assert(split(s@, sep) =~= views(pieces@));
            }
            done = true;
        }
    }
    pieces
}

/// The lines of `s`, as `str::lines` yields them.
pub fn lines(s: &str) -> (out: Vec<String>)
    ensures
        views(out@) == lines_of(s@),
{
    let v: Vec<char> = chars_of(s);
    let mut out: Vec<String> = Vec::new();
    let mut start: usize = 0;
    proof {
        assert(v@.subrange(0, v.len() as int) =~= s@);
        assert(views(out@) + lines_of(s@) =~= lines_of(s@));
    }
    while start < v.len()
        invariant
            v@ == s@,
            start <= v.len(),
            lines_of(s@) == views(out@) + lines_of(v@.subrange(start as int, v.len() as int)),
        decreases v.len() - start,
    {
        let i: usize = find_from(&v, '\n', start);
        let ghost rest = v@.subrange(start as int, v.len() as int);
        let ghost before = views(out@);
        if i < v.len() {
            let end: usize = if i > start && v[i - 1] == '\r' {
                i - 1
            } else {
                i
            };
            let line: String = string_of(&v, start, end);
            out.push(line);
            proof {
                let head = rest.subrange(0, i - start);
                assert(head =~= v@.subrange(start as int, i as int));
                assert(strip_cr(head) =~= v@.subrange(start as int, end as int));
                assert(rest.subrange(i - start + 1, rest.len() as int) =~= v@.subrange(
                    i + 1,
                    v.len() as int,
                ));
                assert(views(out@) =~= before + seq![strip_cr(head)]);
                assert(lines_of(rest) == seq![strip_cr(head)] + lines_of(
                    v@.subrange(i + 1, v.len() as int),
                ));
                assert(lines_of(s@) =~= views(out@) + lines_of(
                    v@.subrange(i + 1, v.len() as int),
                ));
            }
            start = i + 1;
        } else {
            let line: String = string_of(&v, start, i);
            out.push(line);
            proof {
                assert(rest =~= v@.subrange(start as int, i as int));
                assert(views(out@) =~= before + seq![rest]);
                assert(lines_of(rest) == seq![rest]);
                assert(v@.subrange(i as int, v.len() as int) =~= Seq::<char>::empty());
                assert(lines_of(Seq::<char>::empty()) =~= Seq::<Seq<char>>::empty());
                assert(lines_of(s@) =~= views(out@) + lines_of(
                    v@.subrange(i as int, v.len() as int),
                ));
            }
            start = i;
        }
    }
    proof {
        assert(v@.subrange(start as int, v.len() as int) =~= Seq::<char>::empty());
        assert(lines_of(s@) =~= views(out@));
    }
    out
}

/// `s` with every copy of `suffix` at its end removed.
pub open spec fn without_suffixes(s: Seq<char>, suffix: Seq<char>) -> Seq<char>
    decreases s.len(),
{
    if suffix.len() > 0 && ends_with(s, suffix) {
        without_suffixes(s.subrange(0, s.len() - suffix.len()), suffix)
    } else {
        s
    }
}

/// The bounds of `v[from..to]` without the white space at either end.
pub fn trim_range(v: &Vec<char>, from: usize, to: usize) -> (r: (usize, usize))
    requires
        from <= to <= v.len(),
    ensures
        from <= r.0 <= r.1 <= to,
        v@.subrange(r.0 as int, r.1 as int) == trimmed(v@.subrange(from as int, to as int)),
{
    let mut a: usize = from;
    while a < to && is_whitespace(v[a])
        invariant
            from <= a <= to <= v.len(),
            trim_start(v@.subrange(from as int, to as int)) == trim_start(
                v@.subrange(a as int, to as int),
            ),
        decreases to - a,
    {
        proof {
            let cur = v@.subrange(a as int, to as int);
            assert(cur[0] == v[a as int]);
            assert(cur.drop_first() =~= v@.subrange(a + 1, to as int));
        }
        a += 1;
    }
    proof {
        let cur = v@.subrange(a as int, to as int);
        if a < to {
            assert(cur[0] == v[a as int]);
        }
        assert(trim_start(cur) == cur);
    }
    let mut b: usize = to;
    while b > a && is_whitespace(v[b - 1])
        invariant
            a <= b <= to <= v.len(),
            trim_end(v@.subrange(a as int, to as int)) == trim_end(v@.subrange(a as int, b as int)),
        decreases b,
    {
        proof {
            let cur = v@.subrange(a as int, b as int);
            assert(cur.last() == v[b - 1]);
            assert(cur.drop_last() =~= v@.subrange(a as int, b - 1));
        }
        b -= 1;
    }
    proof {
        let cur = v@.subrange(a as int, b as int);
        if b > a {
            assert(cur.last() == v[b - 1]);
        }
        assert(trim_end(cur) == cur);
    }
    (a, b)
}

/// Whether `v[..to]` ends with `suffix`.
pub fn range_ends_with(v: &Vec<char>, to: usize, suffix: &Vec<char>) -> (b: bool)
    requires
        to <= v.len(),
    ensures
        b == ends_with(v@.subrange(0, to as int), suffix@),
{
    if suffix.len() > to {
        return false;
    }
    let start: usize = to - suffix.len();
    let ghost s = v@.subrange(0, to as int);
    let mut i: usize = 0;
    while i < suffix.len()
        invariant
            i <= suffix.len() <= to <= v.len(),
            start == to - suffix.len(),
            s == v@.subrange(0, to as int),
            forall|k: int| 0 <= k < i ==> v[start + k] == suffix[k],
        decreases suffix.len() - i,
    {
        if v[start + i] != suffix[i] {
            proof {
                let tail = s.subrange(s.len() - suffix.len(), s.len() as int);
                assert(tail[i as int] == v[start + i]);
            }
            return false;
        }
        i += 1;
    }
    assert(s.subrange(s.len() - suffix.len(), s.len() as int) =~= suffix@);
    true
}

/// The end of `v` once every copy of `suffix` at its end is taken off.
pub fn strip_suffixes(v: &Vec<char>, suffix: &Vec<char>) -> (end: usize)
    ensures
        end <= v.len(),
        v@.subrange(0, end as int) == without_suffixes(v@, suffix@),
{
    let mut end: usize = v.len();
    assert(v@.subrange(0, end as int) =~= v@);
    if suffix.len() == 0 {
        return end;
    }
    while range_ends_with(v, end, suffix)
        invariant
            end <= v.len(),
            suffix.len() > 0,
            without_suffixes(v@, suffix@) == without_suffixes(v@.subrange(0, end as int), suffix@),
        decreases end,
    {
        proof {
            let s = v@.subrange(0, end as int);
            assert(s.subrange(0, s.len() - suffix.len()) =~= v@.subrange(
                0,
                end - suffix.len(),
            ));
        }
        end -= suffix.len();
    }
    end
}

/// `n` blanks.
pub open spec fn blanks(n: nat) -> Seq<char> {
    Seq::new(n, |i: int| ' ')
}

/// A text of `n` blanks.
pub fn spaces(n: usize) -> (s: String)
    ensures
        s@ == blanks(n as nat),
{
    let mut s: String = String::new();
    let mut i: usize = 0;
    while i < n
        invariant
            i <= n,
            s@ == blanks(i as nat),
        decreases n - i,
    {
        push_char(&mut s, ' ');
        i += 1;
        assert(s@ =~= blanks(i as nat));
    }
    s
}

/// The character of a digit below 10.
pub open spec fn digit_char(d: int) -> char {
    ('0' as int + d) as char
}

/// The decimal numeral of a number, without leading zeros.
pub open spec fn decimal(n: nat) -> Seq<char>
    decreases n,
{
    if n < 10 {
        seq![digit_char(n as int)]
    } else {
        decimal(n / 10).push(digit_char((n % 10) as int))
    }
}

/// The character of a digit.
fn digit_to_char(d: u8) -> (c: char)
    requires
        d < 10,
    ensures
        c == digit_char(d as int),
{
    if d == 0 {
        '0'
    } else if d == 1 {
        '1'
    } else if d == 2 {
        '2'
    } else if d == 3 {
        '3'
    } else if d == 4 {
        '4'
    } else if d == 5 {
        '5'
    } else if d == 6 {
        '6'
    } else if d == 7 {
        '7'
    } else if d == 8 {
        '8'
    } else {
        '9'
    }
}

/// The decimal numeral of a number.
pub fn decimal_text(n: u128) -> (s: String)
    ensures
        s@ == decimal(n as nat),
{
    let mut digits: Vec<char> = Vec::new();
    let mut rest: u128 = n;
    digits.push(digit_to_char((rest % 10) as u8));
    rest = rest / 10;
    proof {
        assert(digits@.reverse() =~= seq![digit_char((n % 10) as int)]);
        if n >= 10 {
            assert(decimal(n as nat) =~= decimal((n / 10) as nat) + digits@.reverse());
        }
    }
    // `digits` holds the numeral of the part of `n` already taken, last digit first.
    while rest > 0
        invariant
            digits.len() >= 1,
            rest > 0 ==> decimal(n as nat) == decimal(rest as nat) + digits@.reverse(),
            rest == 0 ==> decimal(n as nat) == digits@.reverse(),
        decreases rest,
    {
        let ghost before = digits@;
        let ghost prior = rest;
        digits.push(digit_to_char((rest % 10) as u8));
        rest = rest / 10;
        proof {
            assert(decimal(n as nat) == decimal(prior as nat) + before.reverse());
            assert(digits@.reverse() =~= seq![digit_char((prior % 10) as int)] + before.reverse());
            if prior >= 10 {
                assert(decimal(prior as nat) == decimal((prior / 10) as nat).push(
                    digit_char((prior % 10) as int),
                ));
                assert(decimal(n as nat) =~= decimal(rest as nat) + digits@.reverse());
            } else {
                assert(decimal(prior as nat) == seq![digit_char(prior as int)]);
                assert(decimal(n as nat) =~= digits@.reverse());
            }
        }
    }
    let mut s: String = String::new();
    let mut i: usize = digits.len();
    while i > 0
        invariant
            i <= digits.len(),
            s@ == digits@.reverse().subrange(0, digits.len() - i),
        decreases i,
    {
        i -= 1;
        push_char(&mut s, digits[i]);
        assert(s@ =~= digits@.reverse().subrange(0, digits.len() - i));
    }
    assert(digits@.reverse().subrange(0, digits.len() as int) =~= digits@.reverse());
    s
}

/// `s` behind as many blanks as bring it to `width`, if it is shorter.
pub open spec fn right_aligned(s: Seq<char>, width: nat) -> Seq<char> {
    if s.len() < width {
        blanks((width - s.len()) as nat) + s
    } else {
        s
    }
}

/// `s` before as many blanks as bring it to `width`, if it is shorter.
pub open spec fn left_aligned(s: Seq<char>, width: nat) -> Seq<char> {
    if s.len() < width {
        s + blanks((width - s.len()) as nat)
    } else {
        s
    }
}

} // verus!
