use vstd::prelude::*;
use vstd::string::*;

verus! {

/// The character that writes the digit `d` (base 16, lower case).
pub open spec fn digit_char(d: nat) -> char {
    if d == 0 { '0' }
    else if d == 1 { '1' }
    else if d == 2 { '2' }
    else if d == 3 { '3' }
    else if d == 4 { '4' }
    else if d == 5 { '5' }
    else if d == 6 { '6' }
    else if d == 7 { '7' }
    else if d == 8 { '8' }
    else if d == 9 { '9' }
    else if d == 10 { 'a' }
    else if d == 11 { 'b' }
    else if d == 12 { 'c' }
    else if d == 13 { 'd' }
    else if d == 14 { 'e' }
    else { 'f' }
}

/// Digits of `n` in the given base, most significant first, without
/// leading zeros (zero is written as a single `0`).
pub open spec fn digits_in_base(n: nat, base: nat) -> Seq<char>
    decreases n,
{
    if base < 2 || n < base {
        seq![digit_char(n)]
    } else {
        proof {
            assert(n / base < n) by (nonlinear_arith)
                requires
                    base >= 2,
                    n >= base,
            ;
        }
        digits_in_base(n / base, base).push(digit_char(n % base))
    }
}

/// Decimal writing of `n`, as `{}` formats an integer.
pub open spec fn decimal(n: nat) -> Seq<char> {
    digits_in_base(n, 10)
}

/// Lower-case hexadecimal writing of `n`, as `{:x}` formats an integer.
pub open spec fn hex_lower(n: nat) -> Seq<char> {
    digits_in_base(n, 16)
}

/// Appends one character to a string (`String::push`).
#[verifier::external_body]
pub(crate) fn push_char(s: &mut String, c: char)
    ensures
        final(s)@ == old(s)@.push(c),
{
    s.push(c);
}

fn digit(d: u64) -> (c: char)
    requires
        d < 16,
    ensures
        c == digit_char(d as nat),
{
    if d == 0 { '0' }
    else if d == 1 { '1' }
    else if d == 2 { '2' }
    else if d == 3 { '3' }
    else if d == 4 { '4' }
    else if d == 5 { '5' }
    else if d == 6 { '6' }
    else if d == 7 { '7' }
    else if d == 8 { '8' }
    else if d == 9 { '9' }
    else if d == 10 { 'a' }
    else if d == 11 { 'b' }
    else if d == 12 { 'c' }
    else if d == 13 { 'd' }
    else if d == 14 { 'e' }
    else { 'f' }
}

/// Appends the digits of `n` in `base` (10 or 16) to `s`.
pub fn append_digits(s: &mut String, n: u64, base: u64)
    requires
        base == 10 || base == 16,
    ensures
        final(s)@ == old(s)@ + digits_in_base(n as nat, base as nat),
    decreases n,
{
    let ghost s0 = s@;
    if n >= base {
        append_digits(s, n / base, base);
    }
    push_char(s, digit(n % base));
    proof {
        if n >= base {
            assert(s@ =~= s0 + digits_in_base(n as nat, base as nat));
        } else {
            assert(s@ =~= s0 + digits_in_base(n as nat, base as nat));
        }
    }
}

/// Writes `n` in decimal.
pub fn decimal_string(n: u64) -> (r: String)
    ensures
        r@ == decimal(n as nat),
{
    let mut s = String::new();
    append_digits(&mut s, n, 10);
    assert(s@ =~= decimal(n as nat));
    s
}

/// Writes `n` in lower-case hexadecimal.
pub fn hex_string(n: u64) -> (r: String)
    ensures
        r@ == hex_lower(n as nat),
{
    let mut s = String::new();
    append_digits(&mut s, n, 16);
    assert(s@ =~= hex_lower(n as nat));
    s
}

/// Whether two strings hold the same characters.
pub fn text_eq(a: &str, b: &str) -> (r: bool)
    ensures
        r == (a@ == b@),
{
    let la = a.unicode_len();
    let lb = b.unicode_len();
    if la != lb {
        return false;
    }
    let mut i: usize = 0;
    while i < la
        invariant
            la == a@.len(),
            lb == b@.len(),
            la == lb,
            i <= la,
            forall|j: int| 0 <= j < i ==> a@[j] == b@[j],
        decreases la - i,
    {
        if a.get_char(i) != b.get_char(i) {
            return false;
        }
        i = i + 1;
    }
    assert(a@ =~= b@);
    true
}

/// A copy of `s` as an owned string.
pub fn owned(s: &str) -> (r: String)
    ensures
        r@ == s@,
{
    s.to_owned()
}

/// Unicode whitespace (the `White_Space` property), as `str::trim`
/// removes it.
pub open spec fn is_unicode_space(c: char) -> bool {
    let u = c as u32;
    (0x9 <= u && u <= 0xD) || u == 0x20 || u == 0x85 || u == 0xA0 || u == 0x1680
        || (0x2000 <= u && u <= 0x200A) || u == 0x2028 || u == 0x2029 || u == 0x202F
        || u == 0x205F || u == 0x3000
}

/// `s` without its leading Unicode whitespace.
pub open spec fn trim_start(s: Seq<char>) -> Seq<char>
    decreases s.len(),
{
    if s.len() > 0 && is_unicode_space(s[0]) { trim_start(s.drop_first()) } else { s }
}

/// `s` without its trailing Unicode whitespace.
pub open spec fn trim_end(s: Seq<char>) -> Seq<char>
    decreases s.len(),
{
    if s.len() > 0 && is_unicode_space(s.last()) { trim_end(s.drop_last()) } else { s }
}

pub(crate) fn is_unicode_space_char(c: char) -> (r: bool)
    ensures
        r == is_unicode_space(c),
{
    let u = c as u32;
    (0x9 <= u && u <= 0xD) || u == 0x20 || u == 0x85 || u == 0xA0 || u == 0x1680
        || (0x2000 <= u && u <= 0x200A) || u == 0x2028 || u == 0x2029 || u == 0x202F
        || u == 0x205F || u == 0x3000
}

proof fn lemma_trim_start_step(s: Seq<char>, i: int)
    requires
        0 <= i < s.len(),
        is_unicode_space(s[i]),
    ensures
        trim_start(s.subrange(i, s.len() as int)) == trim_start(s.subrange(i + 1, s.len() as int)),
{
    let t = s.subrange(i, s.len() as int);
    assert(t.drop_first() =~= s.subrange(i + 1, s.len() as int));
    assert(t[0] == s[i]);
}

proof fn lemma_trim_end_step(s: Seq<char>, i: int, j: int)
    requires
        0 <= i < j <= s.len(),
        is_unicode_space(s[j - 1]),
    ensures
        trim_end(s.subrange(i, j)) == trim_end(s.subrange(i, j - 1)),
{
    let t = s.subrange(i, j);
    assert(t.drop_last() =~= s.subrange(i, j - 1));
    assert(t.last() == s[j - 1]);
}


/// The bounds of `s` without its leading and trailing Unicode whitespace,
/// in characters.
pub fn trim_bounds(s: &str) -> (r: (usize, usize))
    ensures
        r.0 <= r.1 <= s@.len(),
        s@.subrange(r.0 as int, r.1 as int) == trim_end(trim_start(s@)),
{
    let n = s.unicode_len();
    let ghost t = s@;
    let mut i: usize = 0;
    assert(t.subrange(0, n as int) =~= t);
    while i < n && is_unicode_space_char(s.get_char(i))
        invariant
            n == t.len(),
            t == s@,
            i <= n,
            trim_start(t) == trim_start(t.subrange(i as int, n as int)),
        decreases n - i,
    {
        proof { lemma_trim_start_step(t, i as int); }
        i = i + 1;
    }
    proof {
        let u = t.subrange(i as int, n as int);
        if i < n {
            assert(u[0] == t[i as int]);
        }
        assert(trim_start(u) == u);
    }
    let mut j: usize = n;
    while j > i && is_unicode_space_char(s.get_char(j - 1))
        invariant
            n == t.len(),
            t == s@,
            i <= j <= n,
            trim_end(trim_start(t)) == trim_end(t.subrange(i as int, j as int)),
        decreases j - i,
    {
        proof { lemma_trim_end_step(t, i as int, j as int); }
        j = j - 1;
    }
    proof {
        let u = t.subrange(i as int, j as int);
        if j > i {
            assert(u.last() == t[j - 1]);
        }
        assert(trim_end(u) == u);
    }
    (i, j)
}

/// `s` without its leading and trailing Unicode whitespace, as `str::trim`
/// gives it.
pub fn trimmed(s: &str) -> (r: String)
    ensures
        r@ == trim_end(trim_start(s@)),
{
    let (i, j) = trim_bounds(s);
    s.substring_char(i, j).to_owned()
}


/// Reading `s` from the left, cutting at every `sep`: the pieces completed
/// so far and the piece being read.
pub open spec fn scan_pieces(s: Seq<char>, sep: char) -> (Seq<Seq<char>>, Seq<char>)
    decreases s.len(),
{
    if s.len() == 0 {
        (Seq::empty(), Seq::empty())
    } else {
        let (ps, cur) = scan_pieces(s.drop_last(), sep);
        if s.last() == sep { (ps.push(cur), Seq::empty()) } else { (ps, cur.push(s.last())) }
    }
}

/// The pieces of `s` between the separators, as `str::split` gives them
/// (an empty text is one empty piece).
pub open spec fn pieces_of(s: Seq<char>, sep: char) -> Seq<Seq<char>> {
    let (ps, cur) = scan_pieces(s, sep);
    ps.push(cur)
}

/// Pieces joined by a separator, as `join` does.
pub open spec fn joined_with(ps: Seq<Seq<char>>, sep: char) -> Seq<char>
    decreases ps.len(),
{
    if ps.len() == 0 {
        Seq::empty()
    } else if ps.len() == 1 {
        ps[0]
    } else {
        joined_with(ps.drop_last(), sep) + seq![sep] + ps.last()
    }
}

/// Whether `s` begins with `p`.
pub open spec fn begins_with(s: Seq<char>, p: Seq<char>) -> bool {
    p.len() <= s.len() && s.subrange(0, p.len() as int) == p
}

/// The texts of a list of strings.
pub open spec fn texts(v: Seq<String>) -> Seq<Seq<char>> {
    v.map_values(|x: String| x@)
}

/// Splits a text at every `sep` (`str::split`).
pub fn split_at_char(s: &str, sep: char) -> (r: Vec<String>)
    ensures
        texts(r@) == pieces_of(s@, sep),
{
    let n = s.unicode_len();
    let mut pieces: Vec<String> = Vec::new();
    let mut cur = String::new();
    let mut i: usize = 0;
    while i < n
        invariant
            n == s@.len(),
            i <= n,
            texts(pieces@) == scan_pieces(s@.take(i as int), sep).0,
            cur@ == scan_pieces(s@.take(i as int), sep).1,
        decreases n - i,
    {
        let c = s.get_char(i);
        proof {
            let next = s@.take(i + 1);
            assert(next.drop_last() =~= s@.take(i as int));
            assert(next.last() == c);
        }
        if c == sep {
            let ghost before = pieces@;
            let done = cur;
            cur = String::new();
            pieces.push(done);
            proof {
                assert(texts(pieces@) =~= texts(before).push(done@));
            }
        } else {
            push_char(&mut cur, c);
        }
        i = i + 1;
    }
    assert(s@.take(n as int) =~= s@);
    let ghost before = pieces@;
    let last = cur;
    pieces.push(last);
    proof {
        assert(texts(pieces@) =~= texts(before).push(last@));
    }
    pieces
}

/// Joins texts with a separator.
pub fn join_with(ps: &Vec<String>, sep: char) -> (r: String)
    ensures
        r@ == joined_with(texts(ps@), sep),
{
    let mut r = String::new();
    let mut i: usize = 0;
    while i < ps.len()
        invariant
            i <= ps@.len(),
            r@ == joined_with(texts(ps@.take(i as int)), sep),
        decreases ps@.len() - i,
    {
        let ghost prev = texts(ps@.take(i as int));
        let ghost next = texts(ps@.take(i + 1));
        proof {
            assert(next.drop_last() =~= prev);
            assert(next.last() == ps@[i as int]@);
        }
        if i > 0 {
            push_char(&mut r, sep);
        }
        r.append(ps[i].as_str());
        proof {
            if i == 0 {
                assert(r@ =~= next[0]);
            } else {
                assert(r@ =~= joined_with(prev, sep) + seq![sep] + next.last());
            }
        }
        i = i + 1;
    }
    assert(ps@.take(ps@.len() as int) =~= ps@);
    r
}

/// Whether a text begins with another.
pub fn has_prefix(s: &str, p: &str) -> (r: bool)
    ensures
        r == begins_with(s@, p@),
{
    let n = s.unicode_len();
    let m = p.unicode_len();
    if m > n {
        return false;
    }
    let mut i: usize = 0;
    while i < m
        invariant
            n == s@.len(),
            m == p@.len(),
            m <= n,
            i <= m,
            forall|j: int| 0 <= j < i ==> s@[j] == p@[j],
        decreases m - i,
    {
        if s.get_char(i) != p.get_char(i) {
            proof {
                assert(s@.subrange(0, m as int)[i as int] != p@[i as int]);
            }
            return false;
        }
        i = i + 1;
    }
    assert(s@.subrange(0, m as int) =~= p@);
    true
}

} // verus!
