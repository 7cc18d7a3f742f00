//! Text: characters of strings, white space and trimming, splitting and
//! lines, searching, quoting, lower case, decimal numbers, and the order of
//! strings.

use vstd::prelude::*;

verus! {

/// Appends one character to a string.
///
/// Trusted: the body calls `String::push`, which std documents as appending the
/// given `char` to the end of the `String`.
#[verifier::external_body]
pub(crate) fn push_char(s: &mut String, c: char)
    ensures
        final(s)@ == old(s)@.push(c),
{
    s.push(c);
}

/// The characters of a string slice, in order.
pub fn chars_of(s: &str) -> (r: Vec<char>)
    ensures
        r@ == s@,
{
    let mut r: Vec<char> = Vec::new();
    for c in it: s.chars()
        invariant
            r@ == it.seq().take(it.index() as int),
    {
        r.push(c);
    }
    r
}

/// A string made of the given characters.
pub fn string_of(cs: &[char]) -> (r: String)
    ensures
        r@ == cs@,
{
    let mut r = String::new();
    let n = cs.len();
    for i in 0..n
        invariant
            n == cs@.len(),
            r@ == cs@.take(i as int),
    {
        push_char(&mut r, cs[i]);
        assert(cs@.take(i + 1) == cs@.take(i as int).push(cs@[i as int]));
    }
    assert(cs@.take(n as int) == cs@);
    r
}


/// The characters that carry the Unicode `White_Space` property, which is what
/// `char::is_whitespace` tests.
pub open spec fn is_white_space(c: char) -> bool {
    ||| ('\u{9}' <= c && c <= '\u{d}')
    ||| c == ' '
    ||| c == '\u{85}'
    ||| c == '\u{a0}'
    ||| c == '\u{1680}'
    ||| ('\u{2000}' <= c && c <= '\u{200a}')
    ||| c == '\u{2028}'
    ||| c == '\u{2029}'
    ||| c == '\u{202f}'
    ||| c == '\u{205f}'
    ||| c == '\u{3000}'
}

/// `s` without its leading white space.
pub open spec fn trim_start(s: Seq<char>) -> Seq<char>
    decreases s.len(),
{
    if s.len() > 0 && is_white_space(s[0]) {
        trim_start(s.drop_first())
    } else {
        s
    }
}

/// `s` without its trailing white space.
pub open spec fn trim_end(s: Seq<char>) -> Seq<char>
    decreases s.len(),
{
    if s.len() > 0 && is_white_space(s.last()) {
        trim_end(s.drop_last())
    } else {
        s
    }
}

/// `s` without leading and trailing white space, as `str::trim` returns it.
pub open spec fn trimmed(s: Seq<char>) -> Seq<char> {
    trim_end(trim_start(s))
}

/// Tests one character for white space.
pub fn is_white_space_char(c: char) -> (b: bool)
    ensures
        b == is_white_space(c),
{
    ('\u{9}' <= c && c <= '\u{d}') || c == ' ' || c == '\u{85}' || c == '\u{a0}'
        || c == '\u{1680}' || ('\u{2000}' <= c && c <= '\u{200a}') || c == '\u{2028}'
        || c == '\u{2029}' || c == '\u{202f}' || c == '\u{205f}' || c == '\u{3000}'
}

proof fn lemma_trim_start_skip(s: Seq<char>, i: int)
    requires
        0 <= i <= s.len(),
        forall|k: int| 0 <= k < i ==> is_white_space(#[trigger] s[k]),
    ensures
        trim_start(s) == trim_start(s.skip(i)),
    decreases i,
{
    if i > 0 {
        assert(s.skip(1) == s.drop_first());
        lemma_trim_start_skip(s.drop_first(), i - 1);
        assert(s.drop_first().skip(i - 1) == s.skip(i));
    } else {
        assert(s.skip(0) == s);
    }
}

proof fn lemma_trim_end_take(s: Seq<char>, j: int)
    requires
        0 <= j <= s.len(),
        forall|k: int| j <= k < s.len() ==> is_white_space(#[trigger] s[k]),
    ensures
        trim_end(s) == trim_end(s.take(j)),
    decreases s.len() - j,
{
    if j < s.len() {
        assert(s.take(s.len() - 1) == s.drop_last());
        lemma_trim_end_take(s.drop_last(), j);
        assert(s.drop_last().take(j) == s.take(j));
    } else {
        assert(s.take(j) == s);
    }
}

/// The characters of `s` without leading and trailing white space.
pub fn trim_chars(s: &[char]) -> (r: Vec<char>)
    ensures
        r@ == trimmed(s@),
{
    let n = s.len();
    let mut i: usize = 0;
    while i < n && is_white_space_char(s[i])
        invariant
            i <= n == s@.len(),
            forall|k: int| 0 <= k < i ==> is_white_space(#[trigger] s@[k]),
        decreases n - i,
    {
        i += 1;
    }
    proof {
        lemma_trim_start_skip(s@, i as int);
    }
    let ghost t = s@.skip(i as int);
    assert(i == n || !is_white_space(t[0]));
    assert(trim_start(t) == t);
    let mut j: usize = n;
    while j > i && is_white_space_char(s[j - 1])
        invariant
            i <= j <= n == s@.len(),
            t == s@.skip(i as int),
            forall|k: int| j - i <= k < t.len() ==> is_white_space(#[trigger] t[k]),
        decreases j,
    {
        j -= 1;
    }
    proof {
        lemma_trim_end_take(t, j - i);
    }
    let mut r: Vec<char> = Vec::new();
    let mut k: usize = i;
    while k < j
        invariant
            i <= k <= j <= n == s@.len(),
            r@ == s@.subrange(i as int, k as int),
        decreases j - k,
    {
        r.push(s[k]);
        k += 1;
    }
    assert(r@ == t.take(j - i));
    r
}

/// `s` without leading and trailing white space, as `str::trim` computes it.
pub fn trim(s: &str) -> (r: String)
    ensures
        r@ == trimmed(s@),
{
    let cs = chars_of(s);
    let t = trim_chars(cs.as_slice());
    string_of(t.as_slice())
}


/// Whether one more piece may be split off when `count` pieces exist already.
pub open spec fn may_split(count: nat, limit: Option<nat>) -> bool {
    match limit {
        None => true,
        Some(n) => count < n,
    }
}

/// The pieces of `s` between occurrences of `sep`, as `str::split` yields them,
/// or, with a limit `n`, as `str::splitn(n, ..)` yields them: at most `n` pieces,
/// the last holding the rest of `s`.
pub open spec fn split_pieces(s: Seq<char>, sep: char, limit: Option<nat>) -> Seq<Seq<char>>
    decreases s.len(),
{
    if s.len() == 0 {
        seq![Seq::empty()]
    } else {
        let p = split_pieces(s.drop_last(), sep, limit);
        if s.last() == sep && may_split(p.len(), limit) {
            p.push(Seq::empty())
        } else {
            p.update(p.len() - 1, p.last().push(s.last()))
        }
    }
}

/// There is always at least one piece, and never more than the limit.
pub proof fn lemma_split_pieces_len(s: Seq<char>, sep: char, limit: Option<nat>)
    requires
        limit matches Some(n) ==> n >= 1,
    ensures
        split_pieces(s, sep, limit).len() >= 1,
        limit matches Some(n) ==> split_pieces(s, sep, limit).len() <= n,
        split_pieces(s, sep, limit).len() <= s.len() + 1,
    decreases s.len(),
{
    if s.len() > 0 {
        lemma_split_pieces_len(s.drop_last(), sep, limit);
    }
}

/// The pieces of `cs` between occurrences of `sep` (see `split_pieces`).
pub fn split_chars(cs: &[char], sep: char, limit: Option<usize>) -> (r: Vec<Vec<char>>)
    requires
        limit matches Some(n) ==> n >= 1,
    ensures
        views_of(r@) == split_pieces(cs@, sep, opt_nat(limit)),
{
    let n = cs.len();
    let mut done: Vec<Vec<char>> = Vec::new();
    let mut cur: Vec<char> = Vec::new();
    for i in 0..n
        invariant
            n == cs@.len(),
            limit matches Some(m) ==> m >= 1,
            views_of(done@).push(cur@) == split_pieces(cs@.take(i as int), sep, opt_nat(limit)),
    {
        let ghost before = cs@.take(i as int);
        let ghost p = split_pieces(before, sep, opt_nat(limit));
        proof {
            lemma_split_pieces_len(before, sep, opt_nat(limit));
            assert(cs@.take(i + 1).drop_last() == before);
            assert(cs@.take(i + 1).last() == cs@[i as int]);
        }
        let c = cs[i];
        let room = match limit {
            None => true,
            Some(m) => done.len() + 1 < m,
        };
        if c == sep && room {
            let piece = cur;
            done.push(piece);
            cur = Vec::new();
            assert(views_of(done@) =~= p);
        } else {
            cur.push(c);
            assert(views_of(done@).push(cur@) =~= p.update(p.len() - 1, p.last().push(c)));
        }
    }
    assert(cs@.take(n as int) == cs@);
    done.push(cur);
    assert(views_of(done@) =~= split_pieces(cs@, sep, opt_nat(limit)));
    done
}

/// The character sequences held by a sequence of character vectors.
pub open spec fn views_of(v: Seq<Vec<char>>) -> Seq<Seq<char>> {
    Seq::new(v.len(), |i: int| v[i]@)
}

/// A limit given as a machine integer, seen as a natural number.
pub open spec fn opt_nat(limit: Option<usize>) -> Option<nat> {
    match limit {
        None => None,
        Some(n) => Some(n as nat),
    }
}

/// `p` without one trailing carriage return.
pub open spec fn strip_cr(p: Seq<char>) -> Seq<char> {
    if p.len() > 0 && p.last() == '\r' {
        p.drop_last()
    } else {
        p
    }
}

/// The lines of `s`, as `str::lines` yields them: split at `\n`, a `\r` just
/// before a `\n` removed, and no empty line after a final `\n`.
pub open spec fn lines_of(s: Seq<char>) -> Seq<Seq<char>> {
    let pieces = split_pieces(s, '\n', None);
    let kept = if pieces.last().len() == 0 {
        pieces.drop_last()
    } else {
        pieces
    };
    Seq::new(
        kept.len(),
        |i: int|
            if i < pieces.len() - 1 {
                strip_cr(kept[i])
            } else {
                kept[i]
            },
    )
}

/// `p` without one trailing carriage return.
fn strip_cr_chars(p: Vec<char>) -> (r: Vec<char>)
    ensures
        r@ == strip_cr(p@),
{
    let mut p = p;
    if p.len() > 0 && p[p.len() - 1] == '\r' {
        p.pop();
    }
    p
}

/// The lines of `cs` (see `lines_of`).
pub fn lines_chars(cs: &[char]) -> (r: Vec<Vec<char>>)
    ensures
        views_of(r@) == lines_of(cs@),
{
    let pieces = split_chars(cs, '\n', None);
    let ghost ps = split_pieces(cs@, '\n', None);
    proof {
        lemma_split_pieces_len(cs@, '\n', None);
    }
    let total = pieces.len();
    assert(pieces@[total - 1]@ == ps.last());
    let kept = if pieces[total - 1].len() == 0 {
        total - 1
    } else {
        total
    };
    let ghost ls = lines_of(cs@);
    assert(ls.len() == kept);
    assert forall|k: int| 0 <= k < kept implies #[trigger] ls[k] == (if k < total - 1 {
        strip_cr(ps[k])
    } else {
        ps[k]
    }) by {
        if kept == total - 1 {
            assert(ps.drop_last()[k] == ps[k]);
        }
    }
    let mut r: Vec<Vec<char>> = Vec::new();
    for i in 0..kept
        invariant
            ls == lines_of(cs@),
            ls.len() == kept,
            total >= 1,
            forall|k: int| 0 <= k < kept ==> #[trigger] ls[k] == (if k < total - 1 {
                strip_cr(ps[k])
            } else {
                ps[k]
            }),
            kept <= total == pieces@.len() == ps.len(),
            views_of(pieces@) == ps,
            kept == total - 1 ==> ps.last().len() == 0,
            kept == total ==> ps.last().len() != 0,
            r@.len() == i,
            forall|k: int|
                0 <= k < i ==> #[trigger] r@[k]@ == lines_of(cs@)[k],
    {
        assert(pieces@[i as int]@ == ps[i as int]);
        let piece = pieces[i].clone();
        if i + 1 < total {
            assert(ls[i as int] == strip_cr(ps[i as int]));
            r.push(strip_cr_chars(piece));
        } else {
            assert(ls[i as int] == ps[i as int]);
            r.push(piece);
        }
    }
    assert(views_of(r@) =~= lines_of(cs@));
    r
}

/// Whether `hay` begins with `needle`.
pub open spec fn starts_with(hay: Seq<char>, needle: Seq<char>) -> bool {
    needle.len() <= hay.len() && hay.take(needle.len() as int) == needle
}

/// Whether `needle` occurs in `hay` at position `i`.
pub open spec fn occurs_at(hay: Seq<char>, needle: Seq<char>, i: int) -> bool {
    0 <= i && i + needle.len() <= hay.len() && hay.subrange(i, i + needle.len()) == needle
}

/// Whether `needle` occurs anywhere in `hay`, as `str::contains` tests it.
pub open spec fn contains(hay: Seq<char>, needle: Seq<char>) -> bool {
    exists|i: int| occurs_at(hay, needle, i)
}

/// Whether `needle` occurs in `hay` at position `at`.
fn matches_at(hay: &[char], needle: &[char], at: usize) -> (b: bool)
    requires
        at + needle@.len() <= hay@.len(),
    ensures
        b == occurs_at(hay@, needle@, at as int),
{
    let m = needle.len();
    let hl = hay.len();
    for k in 0..m
        invariant
            m == needle@.len(),
            hl == hay@.len(),
            at + m <= hl,
            forall|j: int| 0 <= j < k ==> hay@[at + j] == needle@[j],
    {
        if hay[at + k] != needle[k] {
            assert(hay@.subrange(at as int, at + m)[k as int] != needle@[k as int]);
            return false;
        }
    }
    assert(hay@.subrange(at as int, at + m) =~= needle@);
    true
}

/// Whether `hay` begins with `needle`.
pub fn starts_with_chars(hay: &[char], needle: &[char]) -> (b: bool)
    ensures
        b == starts_with(hay@, needle@),
{
    if needle.len() > hay.len() {
        return false;
    }
    let b = matches_at(hay, needle, 0);
    assert(hay@.subrange(0, needle@.len() as int) == hay@.take(needle@.len() as int));
    b
}

/// Whether `needle` occurs anywhere in `hay`.
pub fn contains_chars(hay: &[char], needle: &[char]) -> (b: bool)
    ensures
        b == contains(hay@, needle@),
{
    if needle.len() > hay.len() {
        return false;
    }
    let last = hay.len() - needle.len();
    let mut i: usize = 0;
    loop
        invariant
            i <= last,
            last + needle@.len() == hay@.len(),
            forall|j: int| 0 <= j < i ==> !occurs_at(hay@, needle@, j),
        ensures
            i == last,
            forall|j: int| 0 <= j <= i ==> !occurs_at(hay@, needle@, j),
        decreases last - i,
    {
        if matches_at(hay, needle, i) {
            return true;
        }
        if i == last {
            break;
        }
        i += 1;
    }
    assert forall|j: int| !occurs_at(hay@, needle@, j) by {
        if 0 <= j <= i {
        }
    }
    false
}


/// `s` with every single quote doubled, as `str::replace('\'', "''")` makes it:
/// the quoting that a PowerShell single-quoted string needs.
pub open spec fn quote_doubled(s: Seq<char>) -> Seq<char>
    decreases s.len(),
{
    if s.len() == 0 {
        s
    } else {
        quote_doubled(s.drop_last()) + (if s.last() == '\'' {
            seq!['\'', '\'']
        } else {
            seq![s.last()]
        })
    }
}

/// `s` with every single quote doubled (see `quote_doubled`).
pub fn double_quotes(s: &str) -> (r: String)
    ensures
        r@ == quote_doubled(s@),
{
    let cs = chars_of(s);
    let n = cs.len();
    let mut r = String::new();
    for i in 0..n
        invariant
            n == cs@.len(),
            cs@ == s@,
            r@ == quote_doubled(cs@.take(i as int)),
    {
        let c = cs[i];
        assert(cs@.take(i + 1).drop_last() == cs@.take(i as int));
        push_char(&mut r, c);
        if c == '\'' {
            push_char(&mut r, '\'');
        }
        assert(r@ =~= quote_doubled(cs@.take(i + 1)));
    }
    assert(cs@.take(n as int) == cs@);
    r
}

/// What `str::to_lowercase` returns for a string, by the Unicode rules that std
/// applies.
pub uninterp spec fn lowercase(s: Seq<char>) -> Seq<char>;

/// The ASCII lower-case form of one character.
pub open spec fn ascii_lower(c: char) -> char {
    if 'A' <= c && c <= 'Z' {
        ((c as u32) + 32) as char
    } else {
        c
    }
}

/// Whether every character is ASCII.
pub open spec fn all_ascii(s: Seq<char>) -> bool {
    forall|i: int| 0 <= i < s.len() ==> (s[i] as u32) < 128
}

/// The lower-case form of a string.
///
/// Trusted: the body calls `str::to_lowercase`. The contract names its result
/// `lowercase` and states only what std documents for ASCII text: each ASCII
/// upper-case letter becomes its lower-case letter and every other ASCII
/// character stays. What it does to other characters is left to the name.
#[verifier::external_body]
pub(crate) fn to_lowercase(s: &str) -> (r: String)
    ensures
        r@ == lowercase(s@),
        all_ascii(s@) ==> r@ == s@.map_values(|c: char| ascii_lower(c)),
{
    s.to_lowercase()
}

/// Whether two strings hold the same characters.
pub fn same_text(a: &str, b: &str) -> (r: bool)
    ensures
        r == (a@ == b@),
{
    let x = chars_of(a);
    let y = chars_of(b);
    same_chars(x.as_slice(), y.as_slice())
}

/// Whether two character slices are equal.
pub fn same_chars(x: &[char], y: &[char]) -> (r: bool)
    ensures
        r == (x@ == y@),
{
    if x.len() != y.len() {
        return false;
    }
    let n = x.len();
    for i in 0..n
        invariant
            n == x@.len() == y@.len(),
            forall|k: int| 0 <= k < i ==> x@[k] == y@[k],
    {
        if x[i] != y[i] {
            return false;
        }
    }
    assert(x@ =~= y@);
    true
}


/// Whether `c` is one of the ASCII digits `0` to `9`.
pub open spec fn is_digit(c: char) -> bool {
    '0' <= c && c <= '9'
}

/// The value of one ASCII digit.
pub open spec fn digit_value(c: char) -> nat {
    ((c as u32) - ('0' as u32)) as nat
}

/// The value of a string of decimal digits, most significant first.
pub open spec fn digits_value(d: Seq<char>) -> nat
    decreases d.len(),
{
    if d.len() == 0 {
        0
    } else {
        digits_value(d.drop_last()) * 10 + digit_value(d.last())
    }
}

/// The digits of an unsigned number as `str::parse` reads them: one leading `+`
/// is allowed.
pub open spec fn unsigned_digits(s: Seq<char>) -> Seq<char> {
    if s.len() > 0 && s[0] == '+' {
        s.drop_first()
    } else {
        s
    }
}

/// What `str::parse` gives for an unsigned integer type whose largest value is
/// `max`: the value when the text is an optional `+` followed by at least one
/// ASCII digit and nothing else, and the value fits; otherwise no value.
pub open spec fn parse_unsigned(s: Seq<char>, max: nat) -> Option<nat> {
    let d = unsigned_digits(s);
    if d.len() > 0 && (forall|i: int| 0 <= i < d.len() ==> is_digit(#[trigger] d[i]))
        && digits_value(d) <= max {
        Some(digits_value(d))
    } else {
        None
    }
}

proof fn lemma_digits_value_grows(d: Seq<char>, i: int)
    requires
        0 <= i <= d.len(),
    ensures
        digits_value(d.take(i)) <= digits_value(d),
    decreases d.len() - i,
{
    if i < d.len() {
        lemma_digits_value_grows(d, i + 1);
        assert(d.take(i + 1).drop_last() == d.take(i));
    } else {
        assert(d.take(i) == d);
    }
}

/// Reads an unsigned number no larger than `max` (see `parse_unsigned`).
fn parse_bounded(cs: &[char], max: u64) -> (r: Option<u64>)
    ensures
        match parse_unsigned(cs@, max as nat) {
            Some(v) => r == Some(v as u64),
            None => r is None,
        },
{
    let n = cs.len();
    let start: usize = if n > 0 && cs[0] == '+' {
        1
    } else {
        0
    };
    let ghost d = unsigned_digits(cs@);
    assert(d == cs@.skip(start as int));
    if start == n {
        return None;
    }
    let mut v: u64 = 0;
    let mut i: usize = start;
    while i < n
        invariant
            start <= i <= n == cs@.len(),
            d == cs@.skip(start as int),
            d == unsigned_digits(cs@),
            forall|k: int| 0 <= k < i - start ==> is_digit(#[trigger] d[k]),
            v as nat == digits_value(d.take(i - start)),
            v <= max,
        decreases n - i,
    {
        let c = cs[i];
        if !('0' <= c && c <= '9') {
            assert(!is_digit(d[i - start]));
            assert(!(forall|k: int| 0 <= k < d.len() ==> is_digit(#[trigger] d[k])));
            assert(parse_unsigned(cs@, max as nat) is None);
            return None;
        }
        let dv = (c as u32 - '0' as u32) as u64;
        let w: u128 = (v as u128) * 10 + (dv as u128);
        assert(d.take(i - start + 1).drop_last() == d.take(i - start));
        assert(w == digits_value(d.take(i - start + 1)));
        if w > max as u128 {
            proof {
                lemma_digits_value_grows(d, i - start + 1);
            }
            assert(digits_value(d) > max);
            assert(parse_unsigned(cs@, max as nat) is None);
            return None;
        }
        v = w as u64;
        i += 1;
    }
    assert(d.take(n - start) == d);
    Some(v)
}

/// The `u64` that `s.parse::<u64>()` gives, if any (see `parse_unsigned`).
pub fn parse_u64(s: &str) -> (r: Option<u64>)
    ensures
        match parse_unsigned(s@, u64::MAX as nat) {
            Some(v) => r == Some(v as u64),
            None => r is None,
        },
{
    let cs = chars_of(s);
    parse_bounded(cs.as_slice(), u64::MAX)
}

/// The `u32` that `s.parse::<u32>()` gives, if any (see `parse_unsigned`).
pub fn parse_u32(s: &str) -> (r: Option<u32>)
    ensures
        match parse_unsigned(s@, u32::MAX as nat) {
            Some(v) => r == Some(v as u32),
            None => r is None,
        },
{
    let cs = chars_of(s);
    match parse_bounded(cs.as_slice(), u32::MAX as u64) {
        Some(v) => Some(v as u32),
        None => None,
    }
}

/// The ASCII digit for a value below ten.
pub open spec fn digit_char(d: nat) -> char {
    if d == 0 {
        '0'
    } else if d == 1 {
        '1'
    } else if d == 2 {
        '2'
    } else if d == 3 {
        '3'
    } else if d == 4 {
        '4'
    } else if d == 5 {
        '5'
    } else if d == 6 {
        '6'
    } else if d == 7 {
        '7'
    } else if d == 8 {
        '8'
    } else {
        '9'
    }
}

/// The decimal form of `n`, without leading zeros, as `to_string` writes it.
pub open spec fn decimal(n: nat) -> Seq<char>
    decreases n,
{
    if n < 10 {
        seq![digit_char(n)]
    } else {
        decimal(n / 10).push(digit_char(n % 10))
    }
}

fn digit_of(d: u64) -> (c: char)
    requires
        d < 10,
    ensures
        c == digit_char(d as nat),
{
    if d == 0 {
        '0'
    } else if d == 1 {
        '1'
    } else if d == 2 {
        '2'
    } else if d == 3 {
        '3'
    } else if d == 4 {
        '4'
    } else if d == 5 {
        '5'
    } else if d == 6 {
        '6'
    } else if d == 7 {
        '7'
    } else if d == 8 {
        '8'
    } else {
        '9'
    }
}

/// The decimal form of `n` (see `decimal`).
pub fn decimal_string(n: u64) -> (r: String)
    ensures
        r@ == decimal(n as nat),
{
    // `low` holds the digits below `m`, least significant first.
    let mut low: Vec<char> = Vec::new();
    let mut m: u64 = n;
    while m >= 10
        invariant
            decimal(n as nat) == decimal(m as nat) + low@.reverse(),
        decreases m,
    {
        let c = digit_of(m % 10);
        let ghost old_low = low@;
        low.push(c);
        assert(low@.reverse() =~= seq![c] + old_low.reverse());
        assert(decimal(m as nat) == decimal((m / 10) as nat).push(c));
        m = m / 10;
    }
    let mut r = String::new();
    push_char(&mut r, digit_of(m));
    let k = low.len();
    let mut j: usize = k;
    while j > 0
        invariant
            j <= k == low@.len(),
            r@ == decimal(m as nat) + low@.reverse().take(k - j),
        decreases j,
    {
        j -= 1;
        push_char(&mut r, low[j]);
        assert(low@.reverse().take(k - j) =~= low@.reverse().take(k - j - 1).push(low@[j as int]));
    }
    assert(low@.reverse().take(k as int) == low@.reverse());
    r
}


/// Lexicographic order on character sequences by code point: the order in
/// which `String`'s `Ord` compares (UTF-8 byte order agrees with code point
/// order).
pub open spec fn chars_lt(a: Seq<char>, b: Seq<char>) -> bool
    decreases a.len(),
{
    if a.len() == 0 {
        b.len() > 0
    } else if b.len() == 0 {
        false
    } else if a[0] != b[0] {
        a[0] < b[0]
    } else {
        chars_lt(a.drop_first(), b.drop_first())
    }
}

/// `a` does not come after `b`.
pub open spec fn chars_le(a: Seq<char>, b: Seq<char>) -> bool {
    !chars_lt(b, a)
}

/// The order is strict and total.
pub proof fn lemma_chars_lt_total(a: Seq<char>, b: Seq<char>)
    ensures
        !chars_lt(a, a),
        chars_lt(a, b) || chars_lt(b, a) || a == b,
        !(chars_lt(a, b) && chars_lt(b, a)),
    decreases a.len(),
{
    if a.len() > 0 && b.len() > 0 {
        lemma_chars_lt_total(a.drop_first(), b.drop_first());
        if a[0] == b[0] && a.drop_first() == b.drop_first() {
            assert(a == seq![a[0]] + a.drop_first());
            assert(b == seq![b[0]] + b.drop_first());
        }
    }
    if a.len() > 0 {
        lemma_chars_lt_total(a.drop_first(), a.drop_first());
    }
}

/// The order is transitive.
pub proof fn lemma_chars_lt_transitive(a: Seq<char>, b: Seq<char>, c: Seq<char>)
    requires
        chars_lt(a, b),
        chars_lt(b, c),
    ensures
        chars_lt(a, c),
    decreases a.len(),
{
    if a.len() > 0 && b.len() > 0 && c.len() > 0 && a[0] == b[0] && b[0] == c[0] {
        lemma_chars_lt_transitive(a.drop_first(), b.drop_first(), c.drop_first());
    }
}

/// Not coming after is transitive.
pub proof fn lemma_chars_le_transitive(a: Seq<char>, b: Seq<char>, c: Seq<char>)
    requires
        chars_le(a, b),
        chars_le(b, c),
    ensures
        chars_le(a, c),
{
    lemma_chars_lt_total(a, b);
    if chars_lt(c, a) {
        if chars_lt(a, b) {
            lemma_chars_lt_transitive(c, a, b);
        }
    }
}

/// Whether `a` comes before `b` (see `chars_lt`).
pub fn chars_less(a: &[char], b: &[char]) -> (r: bool)
    ensures
        r == chars_lt(a@, b@),
{
    let n = a.len();
    let m = b.len();
    let mut i: usize = 0;
    assert(a@.skip(0) == a@ && b@.skip(0) == b@);
    while i < n && i < m && a[i] == b[i]
        invariant
            i <= n == a@.len(),
            i <= m == b@.len(),
            chars_lt(a@, b@) == chars_lt(a@.skip(i as int), b@.skip(i as int)),
        decreases n - i,
    {
        assert(a@.skip(i as int).drop_first() == a@.skip(i + 1));
        assert(b@.skip(i as int).drop_first() == b@.skip(i + 1));
        i += 1;
    }
    if i == n {
        i < m
    } else if i == m {
        false
    } else {
        a[i] < b[i]
    }
}


/// Without a limit, no piece holds the separator, every piece occurs in the
/// text, and the last piece ends it.
pub proof fn lemma_split_pieces_in_text(s: Seq<char>, sep: char)
    ensures
        forall|k: int|
            0 <= k < split_pieces(s, sep, None).len() ==> !(#[trigger] split_pieces(s, sep, None)[k]).contains(sep)
                && contains(s, split_pieces(s, sep, None)[k]),
        split_pieces(s, sep, None).last().len() <= s.len(),
        s.skip(s.len() - split_pieces(s, sep, None).last().len()) == split_pieces(s, sep, None).last(),
    decreases s.len(),
{
    let p = split_pieces(s, sep, None);
    lemma_split_pieces_len(s, sep, None);
    if s.len() == 0 {
        assert(occurs_at(s, p[0], 0)) by {
            assert(s.subrange(0, 0) =~= p[0]);
        }
    } else {
        let d = s.drop_last();
        let q = split_pieces(d, sep, None);
        lemma_split_pieces_len(d, sep, None);
        lemma_split_pieces_in_text(d, sep);
        assert forall|k: int| 0 <= k < q.len() implies contains(s, #[trigger] q[k]) by {
            let i = choose|i: int| occurs_at(d, q[k], i);
            assert(s.subrange(i, i + q[k].len()) =~= d.subrange(i, i + q[k].len()));
            assert(occurs_at(s, q[k], i));
        }
        if s.last() == sep {
            assert(p == q.push(Seq::empty()));
            assert(occurs_at(s, Seq::<char>::empty(), 0)) by {
                assert(s.subrange(0, 0) =~= Seq::<char>::empty());
            }
            assert(s.skip(s.len() as int) =~= Seq::<char>::empty());
            assert forall|k: int| 0 <= k < p.len() implies !(#[trigger] p[k]).contains(sep) && contains(s, p[k]) by {
                if k < q.len() {
                    assert(p[k] == q[k]);
                }
            }
        } else {
            let last = q.last().push(s.last());
            assert(p == q.update(q.len() - 1, last));
            let at = s.len() - last.len();
            assert(d.skip(d.len() - q.last().len()) == q.last());
            assert(s.skip(at) =~= last);
            assert(occurs_at(s, last, at)) by {
                assert(s.subrange(at, at + last.len()) =~= s.skip(at));
            }
            assert forall|k: int| 0 <= k < p.len() implies !(#[trigger] p[k]).contains(sep) && contains(s, p[k]) by {
                if k < q.len() - 1 {
                    assert(p[k] == q[k]);
                } else {
                    assert(p[k] == last);
                    if last.contains(sep) {
                        let i = choose|i: int| 0 <= i < last.len() && last[i] == sep;
                        if i < q.last().len() {
                            assert(q.last()[i] == sep);
                        }
                    }
                }
            }
        }
    }
}

proof fn lemma_trim_start_skips(s: Seq<char>)
    ensures
        trim_start(s).len() <= s.len(),
        trim_start(s) == s.skip(s.len() - trim_start(s).len()),
    decreases s.len(),
{
    if s.len() > 0 && is_white_space(s[0]) {
        lemma_trim_start_skips(s.drop_first());
        assert(s.drop_first().skip(s.drop_first().len() - trim_start(s).len()) =~= s.skip(
            s.len() - trim_start(s).len(),
        ));
    } else {
        assert(s.skip(0) == s);
    }
}

proof fn lemma_trim_end_takes(s: Seq<char>)
    ensures
        trim_end(s).len() <= s.len(),
        trim_end(s) == s.take(trim_end(s).len() as int),
    decreases s.len(),
{
    if s.len() > 0 && is_white_space(s.last()) {
        lemma_trim_end_takes(s.drop_last());
        assert(s.drop_last().take(trim_end(s).len() as int) =~= s.take(trim_end(s).len() as int));
    } else {
        assert(s.take(s.len() as int) == s);
    }
}

/// The trimmed text occurs in the text.
pub proof fn lemma_trimmed_in_text(s: Seq<char>)
    ensures
        contains(s, trimmed(s)),
{
    lemma_trim_start_skips(s);
    let a = trim_start(s);
    lemma_trim_end_takes(a);
    let k = s.len() - a.len();
    let t = trimmed(s);
    assert(s.subrange(k, k + t.len()) =~= t);
    assert(occurs_at(s, t, k));
}

/// What occurs in text that occurs in `a` occurs in `a`.
pub proof fn lemma_contains_transitive(a: Seq<char>, b: Seq<char>, c: Seq<char>)
    requires
        contains(a, b),
        contains(b, c),
    ensures
        contains(a, c),
{
    let i = choose|i: int| occurs_at(a, b, i);
    let j = choose|j: int| occurs_at(b, c, j);
    assert(a.subrange(i + j, i + j + c.len()) =~= b.subrange(j, j + c.len()));
    assert(occurs_at(a, c, i + j));
}

} // verus!
