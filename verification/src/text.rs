//! Character-sequence primitives: whitespace, trimming, splitting, joining,
//! line endings, prefixes and ASCII case.
//!
//! Every function here is specified over `Seq<char>`, the view shared by
//! `str`, `String` and `Vec<char>`. The executable versions work on
//! `Vec<char>`, which gives constant-time indexing.

use vstd::prelude::*;
use vstd::string::StringExecFns;

verus! {

/// The characters with the Unicode `White_Space` property.
pub open spec fn is_whitespace(c: char) -> bool {
    let n = c as u32;
    ||| 0x09 <= n <= 0x0D
    ||| n == 0x20
    ||| n == 0x85
    ||| n == 0xA0
    ||| n == 0x1680
    ||| 0x2000 <= n <= 0x200A
    ||| n == 0x2028
    ||| n == 0x2029
    ||| n == 0x202F
    ||| n == 0x205F
    ||| n == 0x3000
}

/// `s` without its leading white space.
pub open spec fn trimmed_start(s: Seq<char>) -> Seq<char>
    decreases s.len(),
{
    if s.len() > 0 && is_whitespace(s.first()) {
        trimmed_start(s.drop_first())
    } else {
        s
    }
}

/// `s` without its trailing white space.
pub open spec fn trimmed_end(s: Seq<char>) -> Seq<char>
    decreases s.len(),
{
    if s.len() > 0 && is_whitespace(s.last()) {
        trimmed_end(s.drop_last())
    } else {
        s
    }
}

/// `s` without leading and trailing white space.
pub open spec fn trimmed(s: Seq<char>) -> Seq<char> {
    trimmed_end(trimmed_start(s))
}

/// A string is blank when nothing but white space is in it.
pub open spec fn is_blank(s: Seq<char>) -> bool {
    trimmed(s).len() == 0
}

/// The pieces of `s` between occurrences of `sep`. There is always one piece
/// more than there are separators, so the empty string has one empty piece.
pub open spec fn pieces(s: Seq<char>, sep: char) -> Seq<Seq<char>>
    decreases s.len(),
{
    if s.len() == 0 {
        seq![Seq::<char>::empty()]
    } else {
        let before = pieces(s.drop_last(), sep);
        if s.last() == sep {
            before.push(Seq::<char>::empty())
        } else {
            before.update(before.len() - 1, before.last().push(s.last()))
        }
    }
}

/// The parts with `sep` between each two neighbours.
pub open spec fn joined(parts: Seq<Seq<char>>, sep: char) -> Seq<char>
    decreases parts.len(),
{
    if parts.len() == 0 {
        Seq::<char>::empty()
    } else if parts.len() == 1 {
        parts[0]
    } else {
        joined(parts.drop_last(), sep).push(sep) + parts.last()
    }
}

/// The parts, each followed by `end`.
pub open spec fn terminated(parts: Seq<Seq<char>>, end: char) -> Seq<char>
    decreases parts.len(),
{
    if parts.len() == 0 {
        Seq::<char>::empty()
    } else {
        (terminated(parts.drop_last(), end) + parts.last()).push(end)
    }
}

/// `s` with every carriage return that stands directly before a line feed
/// removed, so that CRLF line ends become LF line ends.
pub open spec fn unix_newlines(s: Seq<char>) -> Seq<char>
    decreases s.len(),
{
    if s.len() == 0 {
        s
    } else if s.len() >= 2 && s[s.len() - 2] == '\r' && s.last() == '\n' {
        unix_newlines(s.take(s.len() - 2)).push('\n')
    } else {
        unix_newlines(s.drop_last()).push(s.last())
    }
}

/// `c` with the letters `A` to `Z` mapped to `a` to `z`.
pub open spec fn lower_char(c: char) -> char {
    if 'A' <= c <= 'Z' {
        ((c as u8) + 32) as char
    } else {
        c
    }
}

/// `s` with each ASCII capital replaced by its small letter.
pub open spec fn lowered(s: Seq<char>) -> Seq<char> {
    Seq::new(s.len(), |i: int| lower_char(s[i]))
}

/// The views of a sequence of character vectors.
pub open spec fn views_of(v: Seq<Vec<char>>) -> Seq<Seq<char>> {
    Seq::new(v.len(), |i: int| v[i]@)
}

/// Tells whether `c` is a white-space character.
pub fn char_is_whitespace(c: char) -> (b: bool)
    ensures
        b == is_whitespace(c),
{
    let n: u32 = c as u32;
    (0x09 <= n && n <= 0x0D) || n == 0x20 || n == 0x85 || n == 0xA0 || n == 0x1680 || (0x2000 <= n
        && n <= 0x200A) || n == 0x2028 || n == 0x2029 || n == 0x202F || n == 0x205F || n == 0x3000
}

/// The characters of `s`, in order.
pub fn chars_of(s: &str) -> (v: Vec<char>)
    ensures
        v@ == s@,
{
    let mut v: Vec<char> = Vec::new();
    for c in it: s.chars()
        invariant
            v@ == it.seq().take(it.index() as int),
            it.seq() == s@,
    {
        v.push(c);
    }
    v
}

/// `String::push` of the standard library appends one character to the end
/// of the string and changes nothing else.
pub assume_specification[ String::push ](s: &mut String, ch: char)
    ensures
        final(s)@ == old(s)@.push(ch),
;

/// The string that holds the characters of `v`.
pub fn string_of(v: &Vec<char>) -> (s: String)
    ensures
        s@ == v@,
{
    let mut s = String::new();
    let mut i: usize = 0;
    while i < v.len()
        invariant
            i <= v.len(),
            s@ == v@.take(i as int),
        decreases v.len() - i,
    {
        s.push(v[i]);
        i += 1;
    }
    s
}

/// A copy of `v[from..to]`.
pub fn copy_range(v: &Vec<char>, from: usize, to: usize) -> (r: Vec<char>)
    requires
        from <= to <= v.len(),
    ensures
        r@ == v@.subrange(from as int, to as int),
{
    let mut r: Vec<char> = Vec::new();
    let mut i: usize = from;
    while i < to
        invariant
            from <= i <= to <= v.len(),
            r@ == v@.subrange(from as int, i as int),
        decreases to - i,
    {
        r.push(v[i]);
        i += 1;
    }
    r
}

/// Removes leading and trailing white space.
pub fn trim(v: &Vec<char>) -> (r: Vec<char>)
    ensures
        r@ == trimmed(v@),
{
    let n = v.len();
    let mut a: usize = 0;
    proof {
        assert(v@.skip(0) =~= v@);
    }
    while a < n && char_is_whitespace(v[a])
        invariant
            n == v.len(),
            a <= n,
            trimmed_start(v@) == trimmed_start(v@.skip(a as int)),
        decreases n - a,
    {
        proof {
            assert(v@.skip(a as int).drop_first() =~= v@.skip(a + 1));
        }
        a += 1;
    }
    proof {
        assert(v@.skip(a as int) =~= v@.subrange(a as int, n as int));
    }
    let mut b: usize = n;
    while b > a && char_is_whitespace(v[b - 1])
        invariant
            n == v.len(),
            a <= b <= n,
            trimmed(v@) == trimmed_end(v@.subrange(a as int, b as int)),
        decreases b,
    {
        proof {
            assert(v@.subrange(a as int, b as int).drop_last() =~= v@.subrange(
                a as int,
                b - 1,
            ));
        }
        b -= 1;
    }
    copy_range(v, a, b)
}

/// Cuts `v` at every occurrence of `sep`.
pub fn split(v: &Vec<char>, sep: char) -> (r: Vec<Vec<char>>)
    ensures
        views_of(r@) == pieces(v@, sep),
{
    let mut done: Vec<Vec<char>> = Vec::new();
    let mut cur: Vec<char> = Vec::new();
    let mut i: usize = 0;
    while i < v.len()
        invariant
            i <= v.len(),
            views_of(done@).push(cur@) == pieces(v@.take(i as int), sep),
        decreases v.len() - i,
    {
        proof {
            assert(v@.take(i + 1).drop_last() =~= v@.take(i as int));
        }
        let ghost before = views_of(done@).push(cur@);
        if v[i] == sep {
            done.push(cur);
            cur = Vec::new();
            proof {
                assert(views_of(done@).push(cur@) =~= before.push(Seq::<char>::empty()));
            }
        } else {
            cur.push(v[i]);
            proof {
                assert(views_of(done@).push(cur@) =~= before.update(
                    before.len() - 1,
                    before.last().push(v[i as int]),
                ));
            }
        }
        i += 1;
    }
    proof {
        assert(v@.take(v.len() as int) =~= v@);
        assert(views_of(done@.push(cur)) =~= views_of(done@).push(cur@));
    }
    done.push(cur);
    done
}

/// Turns CRLF line ends into LF line ends.
pub fn normalize_newlines(v: &Vec<char>) -> (r: Vec<char>)
    ensures
        r@ == unix_newlines(v@),
{
    let mut r: Vec<char> = Vec::new();
    let mut i: usize = 0;
    while i < v.len()
        invariant
            i <= v.len(),
            r@ == unix_newlines(v@.take(i as int)),
            i > 0 ==> r@.len() > 0 && r@.last() == v@[i - 1],
        decreases v.len() - i,
    {
        proof {
            assert(v@.take(i + 1).drop_last() =~= v@.take(i as int));
            if i > 0 {
                assert(v@.take(i as int).drop_last() =~= v@.take(i - 1));
                assert(v@.take(i + 1).take(i - 1) =~= v@.take(i - 1));
            }
        }
        if i > 0 && v[i] == '\n' && v[i - 1] == '\r' {
            proof {
                assert(r@.drop_last() =~= unix_newlines(v@.take(i - 1)));
            }
            r.pop();
        }
        r.push(v[i]);
        i += 1;
    }
    proof {
        assert(v@.take(v.len() as int) =~= v@);
    }
    r
}

/// Tells whether `v` begins with the characters of `prefix`.
pub fn starts_with(v: &Vec<char>, prefix: &str) -> (b: bool)
    ensures
        b == prefix@.is_prefix_of(v@),
{
    let p = chars_of(prefix);
    if p.len() > v.len() {
        return false;
    }
    let mut i: usize = 0;
    while i < p.len()
        invariant
            i <= p.len() <= v.len(),
            p@ == prefix@,
            p@.take(i as int) == v@.take(i as int),
        decreases p.len() - i,
    {
        if p[i] != v[i] {
            proof {
                assert(v@.subrange(0, p.len() as int)[i as int] != p@[i as int]);
            }
            return false;
        }
        proof {
            assert(p@.take(i + 1) =~= p@.take(i as int).push(p@[i as int]));
            assert(v@.take(i + 1) =~= v@.take(i as int).push(v@[i as int]));
        }
        i += 1;
    }
    proof {
        assert(p@.take(p.len() as int) =~= p@);
        assert(v@.take(p.len() as int) =~= v@.subrange(0, p.len() as int));
    }
    true
}

/// Tells whether `v` holds exactly the characters of `word`.
pub fn equals(v: &Vec<char>, word: &str) -> (b: bool)
    ensures
        b == (v@ == word@),
{
    let w = chars_of(word);
    if w.len() != v.len() {
        return false;
    }
    let mut i: usize = 0;
    while i < w.len()
        invariant
            i <= w.len(),
            w.len() == v.len(),
            w@ == word@,
            w@.take(i as int) == v@.take(i as int),
        decreases w.len() - i,
    {
        if w[i] != v[i] {
            return false;
        }
        proof {
            assert(w@.take(i + 1) =~= w@.take(i as int).push(w@[i as int]));
            assert(v@.take(i + 1) =~= v@.take(i as int).push(v@[i as int]));
        }
        i += 1;
    }
    proof {
        assert(w@.take(w.len() as int) =~= w@);
        assert(v@.take(v.len() as int) =~= v@);
    }
    true
}

/// One character with `A` to `Z` mapped to `a` to `z`.
pub fn to_lower_char(c: char) -> (r: char)
    ensures
        r == lower_char(c),
{
    if 'A' <= c && c <= 'Z' {
        ((c as u8) + 32) as char
    } else {
        c
    }
}

/// Replaces each ASCII capital by its small letter.
pub fn to_lower(v: &Vec<char>) -> (r: Vec<char>)
    ensures
        r@ == lowered(v@),
{
    let mut r: Vec<char> = Vec::new();
    let mut i: usize = 0;
    while i < v.len()
        invariant
            i <= v.len(),
            r@ == lowered(v@).take(i as int),
        decreases v.len() - i,
    {
        r.push(to_lower_char(v[i]));
        proof {
            assert(r@ =~= lowered(v@).take(i + 1));
        }
        i += 1;
    }
    proof {
        assert(lowered(v@).take(v.len() as int) =~= lowered(v@));
    }
    r
}

/// The decimal digit for a number below ten.
pub open spec fn digit(d: nat) -> char {
    ((48 + d) as u8) as char
}

/// The decimal numeral of `n`, without leading zeros.
pub open spec fn decimal(n: nat) -> Seq<char>
    decreases n,
{
    if n < 10 {
        seq![digit(n)]
    } else {
        decimal(n / 10).push(digit(n % 10))
    }
}

/// Appends the decimal numeral of `n` to `s`.
pub fn push_decimal(s: &mut String, n: usize)
    ensures
        final(s)@ == old(s)@ + decimal(n as nat),
    decreases n,
{
    if n >= 10 {
        push_decimal(s, n / 10);
    }
    let d: u8 = (n % 10) as u8;
    s.push((48 + d) as char);
    proof {
        assert(s@ =~= old(s)@ + decimal(n as nat));
    }
}

/// Appends the string made of `line` to `list`.
pub fn push_line(list: &mut Vec<String>, line: &Vec<char>)
    ensures
        final(list).deep_view() == old(list).deep_view().push(line@),
{
    let s = string_of(line);
    list.push(s);
    proof {
        assert(list.deep_view() =~= old(list).deep_view().push(line@));
    }
}

/// Appends a copy of `line` to `list`.
pub fn push_str(list: &mut Vec<String>, line: &str)
    ensures
        final(list).deep_view() == old(list).deep_view().push(line@),
{
    list.push(String::from_str(line));
    proof {
        assert(list.deep_view() =~= old(list).deep_view().push(line@));
    }
}

/// Appends copies of the strings of `more` to `list`.
pub fn append_lines(list: &mut Vec<String>, more: &Vec<String>)
    ensures
        final(list).deep_view() == old(list).deep_view() + more.deep_view(),
{
    let mut i: usize = 0;
    proof {
        assert(list.deep_view() =~= old(list).deep_view() + more.deep_view().take(0));
    }
    while i < more.len()
        invariant
            i <= more.len(),
            list.deep_view() == old(list).deep_view() + more.deep_view().take(i as int),
        decreases more.len() - i,
    {
        let ghost before = list.deep_view();
        list.push(more[i].clone());
        proof {
            assert(list.deep_view() =~= before.push(more[i as int]@));
            assert(list.deep_view() =~= old(list).deep_view() + more.deep_view().take(i + 1));
        }
        i += 1;
    }
    proof {
        assert(more.deep_view().take(more.len() as int) =~= more.deep_view());
    }
}

/// Writes every part followed by `end` into one string.
pub fn terminate_all(parts: &Vec<String>, end: char) -> (text: String)
    ensures
        text@ == terminated(parts.deep_view(), end),
{
    let mut text = String::new();
    let mut i: usize = 0;
    while i < parts.len()
        invariant
            i <= parts.len(),
            text@ == terminated(parts.deep_view().take(i as int), end),
        decreases parts.len() - i,
    {
        proof {
            assert(parts.deep_view().take(i + 1).drop_last() =~= parts.deep_view().take(i as int));
        }
        text.append(parts[i].as_str());
        text.push(end);
        i += 1;
    }
    proof {
        assert(parts.deep_view().take(parts.len() as int) =~= parts.deep_view());
    }
    text
}

} // verus!
