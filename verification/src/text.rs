//! Character-level text operations with exact specifications:
//! whitespace trimming, splitting at the first separator, stripping a
//! repeated trailing character and reading unsigned decimal numbers.

use vstd::prelude::*;
use vstd::string::*;

verus! {

/// The Unicode `White_Space` property, which is what `char::is_whitespace`
/// tests: U+0009..U+000D, U+0020, U+0085, U+00A0, U+1680, U+2000..U+200A,
/// U+2028, U+2029, U+202F, U+205F and U+3000.
pub open spec fn is_white_space(c: char) -> bool {
    let v = c as u32;
    ||| 0x9 <= v <= 0xd
    ||| v == 0x20
    ||| v == 0x85
    ||| v == 0xa0
    ||| v == 0x1680
    ||| 0x2000 <= v <= 0x200a
    ||| v == 0x2028
    ||| v == 0x2029
    ||| v == 0x202f
    ||| v == 0x205f
    ||| v == 0x3000
}

/// `s` without its leading whitespace.
pub open spec fn trim_start_spec(s: Seq<char>) -> Seq<char>
    decreases s.len(),
{
    if s.len() > 0 && is_white_space(s[0]) {
        trim_start_spec(s.drop_first())
    } else {
        s
    }
}

/// `s` without its trailing whitespace.
pub open spec fn trim_end_spec(s: Seq<char>) -> Seq<char>
    decreases s.len(),
{
    if s.len() > 0 && is_white_space(s.last()) {
        trim_end_spec(s.drop_last())
    } else {
        s
    }
}

/// `s` without leading and trailing whitespace, as `str::trim` gives it.
pub open spec fn trimmed(s: Seq<char>) -> Seq<char> {
    trim_end_spec(trim_start_spec(s))
}

/// Trimming the start leaves no leading whitespace.
proof fn lemma_trim_start_clean(s: Seq<char>)
    ensures
        trim_start_spec(s).len() > 0 ==> !is_white_space(trim_start_spec(s)[0]),
    decreases s.len(),
{
    if s.len() > 0 && is_white_space(s[0]) {
        lemma_trim_start_clean(s.drop_first());
    }
}

/// Trimming the end keeps a prefix and leaves no trailing whitespace.
proof fn lemma_trim_end_clean(s: Seq<char>)
    ensures
        trim_end_spec(s).len() <= s.len(),
        trim_end_spec(s) =~= s.subrange(0, trim_end_spec(s).len() as int),
        trim_end_spec(s).len() > 0 ==> !is_white_space(trim_end_spec(s).last()),
    decreases s.len(),
{
    if s.len() > 0 && is_white_space(s.last()) {
        lemma_trim_end_clean(s.drop_last());
    }
}

/// Trimmed text neither starts nor ends with whitespace, and trimming it
/// again changes nothing.
pub proof fn lemma_trimmed_is_clean(s: Seq<char>)
    ensures
        trimmed(s).len() > 0 ==> !is_white_space(trimmed(s)[0]) && !is_white_space(
            trimmed(s).last(),
        ),
        trimmed(trimmed(s)) == trimmed(s),
{
    let t = trim_start_spec(s);
    lemma_trim_start_clean(s);
    lemma_trim_end_clean(t);
    let u = trimmed(s);
    if u.len() > 0 {
        assert(u[0] == t[0]);
    }
    assert(trim_start_spec(u) == u);
    lemma_trim_end_clean(u);
    assert(trim_end_spec(u) == u);
}

/// The whitespace class is exactly the Unicode `White_Space` table:
/// U+0009..U+000D, U+0020, U+0085, U+00A0, U+1680, U+2000..U+200A, U+2028,
/// U+2029, U+202F, U+205F and U+3000, and nothing else.
pub proof fn lemma_white_space_table(c: char)
    ensures
        is_white_space(c) <==> (9 <= (c as u32) <= 13 || (c as u32) == 32 || (c as u32) == 133
            || (c as u32) == 160 || (c as u32) == 5760 || 8192 <= (c as u32) <= 8202 || (c as u32)
            == 8232 || (c as u32) == 8233 || (c as u32) == 8239 || (c as u32) == 8287 || (c as u32)
            == 12288),
{
}

/// No visible ASCII char (`!` through `~`: letters, digits, punctuation) is
/// whitespace.
pub proof fn lemma_ascii_graphic_not_white_space(c: char)
    requires
        33 <= (c as u32) <= 126,
    ensures
        !is_white_space(c),
{
}

/// Trimming leaves a text alone when its first and last chars are not
/// whitespace; in particular a text that starts and ends with visible ASCII
/// chars (such as `Hello world.` or `312,140 455x215`) is its own trim.
pub proof fn lemma_trim_keeps_clean_text(s: Seq<char>)
    requires
        s.len() > 0,
        !is_white_space(s[0]),
        !is_white_space(s.last()),
    ensures
        trimmed(s) == s,
{
    assert(trim_start_spec(s) == s);
}

/// Whitespace around a text is what trimming removes: one whitespace char
/// before or after a text trims away.
pub proof fn lemma_trim_drops_outer_white_space(s: Seq<char>, c: char)
    requires
        is_white_space(c),
    ensures
        trimmed(seq![c] + s) == trimmed(s),
        trimmed(s.push(c)) == trimmed(s),
{
    assert((seq![c] + s).drop_first() =~= s);
    lemma_trim_start_push(s, c);
}

/// Trimming the start commutes with adding whitespace at the end.
proof fn lemma_trim_start_push(s: Seq<char>, c: char)
    requires
        is_white_space(c),
    ensures
        trim_start_spec(s.push(c)) == (if trim_start_spec(s).len() == 0 {
            Seq::<char>::empty()
        } else {
            trim_start_spec(s).push(c)
        }),
        trim_end_spec(trim_start_spec(s.push(c))) == trim_end_spec(trim_start_spec(s)),
    decreases s.len(),
{
    if s.len() > 0 && is_white_space(s[0]) {
        assert(s.push(c).drop_first() =~= s.drop_first().push(c));
        lemma_trim_start_push(s.drop_first(), c);
    } else if s.len() > 0 {
        assert(trim_start_spec(s.push(c)) == s.push(c));
        assert(s.push(c).drop_last() =~= s);
    } else {
        assert(s.push(c).drop_first() =~= Seq::<char>::empty());
        assert(trim_start_spec(s.push(c)) == trim_start_spec(Seq::<char>::empty()));
    }
    let t = trim_start_spec(s);
    if t.len() > 0 {
        assert(t.push(c).drop_last() =~= t);
    }
}

/// Stripping a trailing char leaves a text alone that does not end with it.
pub proof fn lemma_trim_end_char_keeps_other_ending(s: Seq<char>, c: char)
    requires
        s.len() == 0 || s.last() != c,
    ensures
        trim_end_char_spec(s, c) == s,
{
}

/// Whether `c` has the Unicode `White_Space` property.
pub fn is_white_space_char(c: char) -> (r: bool)
    ensures
        r == is_white_space(c),
{
    let v = c as u32;
    (0x9 <= v && v <= 0xd) || v == 0x20 || v == 0x85 || v == 0xa0 || v == 0x1680 || (0x2000 <= v
        && v <= 0x200a) || v == 0x2028 || v == 0x2029 || v == 0x202f || v == 0x205f || v == 0x3000
}

/// The char positions `(a, b)` such that `s[a..b]` is `s` trimmed.
fn trim_bounds(s: &str) -> (r: (usize, usize))
    ensures
        r.0 <= r.1 <= s@.len(),
        trimmed(s@) == s@.subrange(r.0 as int, r.1 as int),
{
    let n = s.unicode_len();
    assert(s@.subrange(0, n as int) =~= s@);
    let mut a: usize = 0;
    while a < n && is_white_space_char(s.get_char(a))
        invariant
            a <= n,
            n == s@.len(),
            trim_start_spec(s@) == trim_start_spec(s@.subrange(a as int, n as int)),
        decreases n - a,
    {
        assert(s@.subrange(a as int, n as int).drop_first() =~= s@.subrange(a + 1, n as int));
        a = a + 1;
    }
    assert(trim_start_spec(s@) == s@.subrange(a as int, n as int));
    let mut b: usize = n;
    while b > a && is_white_space_char(s.get_char(b - 1))
        invariant
            a <= b <= n,
            n == s@.len(),
            trim_start_spec(s@) == s@.subrange(a as int, n as int),
            trim_end_spec(s@.subrange(a as int, n as int)) == trim_end_spec(
                s@.subrange(a as int, b as int),
            ),
        decreases b,
    {
        assert(s@.subrange(a as int, b as int).drop_last() =~= s@.subrange(a as int, b - 1));
        b = b - 1;
    }
    (a, b)
}

/// `s` without leading and trailing whitespace.
pub fn trim(s: &str) -> (r: &str)
    ensures
        r@ == trimmed(s@),
{
    let (a, b) = trim_bounds(s);
    s.substring_char(a, b)
}

/// Whether `i` is the position of the first `c` in `s`.
pub open spec fn is_first_index(s: Seq<char>, c: char, i: int) -> bool {
    &&& 0 <= i < s.len()
    &&& s[i] == c
    &&& forall|j: int| 0 <= j < i ==> s[j] != c
}

/// `s` split around its first `c`, as `str::split_once` gives it; `None`
/// when `s` holds no `c`.
pub open spec fn split_once_spec(s: Seq<char>, c: char) -> Option<(Seq<char>, Seq<char>)> {
    if exists|i: int| is_first_index(s, c, i) {
        let i = choose|i: int| is_first_index(s, c, i);
        Some((s.subrange(0, i), s.subrange(i + 1, s.len() as int)))
    } else {
        None
    }
}

/// Splits `s` around its first `c`.
pub fn split_once<'a>(s: &'a str, c: char) -> (r: Option<(&'a str, &'a str)>)
    ensures
        match (r, split_once_spec(s@, c)) {
            (Some((x, y)), Some((sx, sy))) => x@ == sx && y@ == sy,
            (None, None) => true,
            _ => false,
        },
{
    let n = s.unicode_len();
    let mut i: usize = 0;
    while i < n
        invariant
            i <= n,
            n == s@.len(),
            forall|j: int| 0 <= j < i ==> s@[j] != c,
        decreases n - i,
    {
        if s.get_char(i) == c {
            assert(is_first_index(s@, c, i as int));
            proof {
                let k = choose|k: int| is_first_index(s@, c, k);
                assert(k == i);
            }
            return Some((s.substring_char(0, i), s.substring_char(i + 1, n)));
        }
        i = i + 1;
    }
    assert(!exists|k: int| is_first_index(s@, c, k));
    None
}

/// `s` without any number of trailing `c`, as `str::trim_end_matches` with a
/// char pattern gives it.
pub open spec fn trim_end_char_spec(s: Seq<char>, c: char) -> Seq<char>
    decreases s.len(),
{
    if s.len() > 0 && s.last() == c {
        trim_end_char_spec(s.drop_last(), c)
    } else {
        s
    }
}

/// Strips every trailing `c` from `s`.
pub fn trim_end_char(s: &str, c: char) -> (r: &str)
    ensures
        r@ == trim_end_char_spec(s@, c),
{
    let n = s.unicode_len();
    assert(s@.subrange(0, n as int) =~= s@);
    let mut b: usize = n;
    while b > 0 && s.get_char(b - 1) == c
        invariant
            b <= n,
            n == s@.len(),
            trim_end_char_spec(s@, c) == trim_end_char_spec(s@.subrange(0, b as int), c),
        decreases b,
    {
        assert(s@.subrange(0, b as int).drop_last() =~= s@.subrange(0, b - 1));
        b = b - 1;
    }
    s.substring_char(0, b)
}

/// Whether `c` is one of the ASCII digits `0`..`9`.
pub open spec fn is_ascii_digit(c: char) -> bool {
    0x30 <= (c as u32) <= 0x39
}

/// The value of the ASCII digit `c`.
pub open spec fn digit_value(c: char) -> nat {
    ((c as u32) - 0x30) as nat
}

/// Whether every char of `s` is an ASCII digit.
pub open spec fn all_ascii_digits(s: Seq<char>) -> bool {
    forall|i: int| 0 <= i < s.len() ==> is_ascii_digit(s[i])
}

/// The value of the decimal numeral `s`.
pub open spec fn decimal_value(s: Seq<char>) -> nat
    decreases s.len(),
{
    if s.len() == 0 {
        0
    } else {
        decimal_value(s.drop_last()) * 10 + digit_value(s.last())
    }
}

/// The digits of an unsigned numeral: `s` without one leading `+`.
pub open spec fn unsigned_digits(s: Seq<char>) -> Seq<char> {
    if s.len() > 0 && s[0] == '+' {
        s.drop_first()
    } else {
        s
    }
}

/// What `str::parse::<u32>` accepts: an optional `+` and then one or more
/// ASCII digits whose value fits in a `u32`.
pub open spec fn parse_u32_spec(s: Seq<char>) -> Option<u32> {
    let d = unsigned_digits(s);
    if d.len() > 0 && all_ascii_digits(d) && decimal_value(d) <= u32::MAX {
        Some(decimal_value(d) as u32)
    } else {
        None
    }
}

/// The value of a digit string bounds the value of each of its prefixes.
pub proof fn lemma_decimal_prefix_bound(s: Seq<char>, k: int)
    requires
        all_ascii_digits(s),
        0 <= k <= s.len(),
    ensures
        decimal_value(s.subrange(0, k)) <= decimal_value(s),
    decreases s.len(),
{
    if k < s.len() {
        let t = s.drop_last();
        assert(t.subrange(0, k) =~= s.subrange(0, k));
        lemma_decimal_prefix_bound(t, k);
    } else {
        assert(s.subrange(0, k) =~= s);
    }
}

/// The ASCII digit for `d` (which is below 10).
pub open spec fn digit_char(d: nat) -> char {
    (0x30 + d) as char
}

/// The decimal numeral of `n`, without leading zeros, as `u32`'s `Display`
/// writes it.
pub open spec fn decimal_text(n: nat) -> Seq<char>
    decreases n,
{
    if n < 10 {
        seq![digit_char(n)]
    } else {
        decimal_text(n / 10).push(digit_char(n % 10))
    }
}

/// A decimal numeral is a non-empty digit string that reads back as its
/// number.
pub proof fn lemma_decimal_text_reads_back(n: nat)
    ensures
        decimal_text(n).len() > 0,
        all_ascii_digits(decimal_text(n)),
        decimal_value(decimal_text(n)) == n,
    decreases n,
{
    if n >= 10 {
        lemma_decimal_text_reads_back(n / 10);
        let t = decimal_text(n);
        assert(t.drop_last() =~= decimal_text(n / 10));
        assert(digit_value(digit_char(n % 10)) == n % 10);
        assert(t.last() == digit_char(n % 10));
        assert(decimal_value(t) == decimal_value(t.drop_last()) * 10 + digit_value(t.last()));
        assert(n == (n / 10) * 10 + n % 10);
    } else {
        assert(digit_value(digit_char(n)) == n);
        let t = decimal_text(n);
        assert(t.drop_last() =~= Seq::<char>::empty());
        assert(decimal_value(Seq::<char>::empty()) == 0);
        assert(decimal_value(t) == decimal_value(t.drop_last()) * 10 + digit_value(t.last()));
    }
}

/// Reads `s` as an unsigned decimal `u32`, as `str::parse::<u32>` does.
pub fn parse_u32(s: &str) -> (r: Option<u32>)
    ensures
        r == parse_u32_spec(s@),
{
    let n = s.unicode_len();
    let mut start: usize = 0;
    if n > 0 && s.get_char(0) == '+' {
        start = 1;
    }
    let ghost d = unsigned_digits(s@);
    assert(d =~= s@.subrange(start as int, n as int));
    if start == n {
        return None;
    }
    let mut value: u64 = 0;
    let mut i: usize = start;
    while i < n
        invariant
            start <= i <= n,
            n == s@.len(),
            d =~= s@.subrange(start as int, n as int),
            d == unsigned_digits(s@),
            all_ascii_digits(s@.subrange(start as int, i as int)),
            value == decimal_value(s@.subrange(start as int, i as int)),
            value <= u32::MAX,
        decreases n - i,
    {
        let c = s.get_char(i);
        let v = c as u32;
        if v < 0x30 || v > 0x39 {
            assert(!is_ascii_digit(d[i - start]));
            assert(!all_ascii_digits(d));
            assert(parse_u32_spec(s@) is None);
            return None;
        }
        let ghost prefix = s@.subrange(start as int, i + 1);
        assert(prefix.drop_last() =~= s@.subrange(start as int, i as int));
        value = value * 10 + (v - 0x30) as u64;
        assert(value == decimal_value(prefix));
        if value > 0xffff_ffff {
            proof {
                if all_ascii_digits(d) {
                    assert(d.subrange(0, i + 1 - start) =~= prefix);
                    lemma_decimal_prefix_bound(d, i + 1 - start);
                    assert(decimal_value(d) > u32::MAX);
                }
                assert(parse_u32_spec(s@) is None);
            }
            return None;
        }
        i = i + 1;
    }
    Some(value as u32)
}

} // verus!
