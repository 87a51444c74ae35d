//! Text primitives the governance rules are written with: decimal numbers,
//! substring search, joining, trimming and line selection.
use vstd::prelude::*;

verus! {

/// The character of a decimal digit.
pub open spec fn digit_char(d: nat) -> char {
    if d == 0 {
        '0'
    } else if d == 1 {
        '1'
    } else if d == 2 {
        '2'
    } else if d == 3 {
        '3'
    } else if d == 4 {
        '4'
    } else if d == 5 {
        '5'
    } else if d == 6 {
        '6'
    } else if d == 7 {
        '7'
    } else if d == 8 {
        '8'
    } else {
        '9'
    }
}

/// The shortest decimal spelling of `n`, as `u128::to_string` writes it.
pub open spec fn decimal_digits(n: nat) -> Seq<char>
    decreases n,
{
    if n < 10 {
        seq![digit_char(n)]
    } else {
        decimal_digits(n / 10).push(digit_char(n % 10))
    }
}

/// True when `c` is an ASCII decimal digit.
pub open spec fn is_digit(c: char) -> bool {
    '0' <= c && c <= '9'
}

/// The value of a digit character.
pub open spec fn digit_value(c: char) -> nat {
    (c as int - '0' as int) as nat
}

/// True when every character of `s` is an ASCII decimal digit.
pub open spec fn all_digits(s: Seq<char>) -> bool {
    forall|i: int| 0 <= i < s.len() ==> is_digit(#[trigger] s[i])
}

/// The value of a string of decimal digits (0 for the empty string).
pub open spec fn digits_value(s: Seq<char>) -> nat
    decreases s.len(),
{
    if s.len() == 0 {
        0
    } else {
        digits_value(s.drop_last()) * 10 + digit_value(s.last())
    }
}

/// `str::parse` for an unsigned integer type whose largest value is `bound`:
/// an optional `+`, then at least one decimal digit and nothing else, with a
/// value no larger than `bound`.
pub open spec fn parse_unsigned_spec(s: Seq<char>, bound: nat) -> Option<nat> {
    let body = if s.len() > 0 && s[0] == '+' {
        s.drop_first()
    } else {
        s
    };
    if body.len() > 0 && all_digits(body) && digits_value(body) <= bound {
        Some(digits_value(body))
    } else {
        None
    }
}

/// `str::parse::<u32>`.
pub open spec fn parse_u32_spec(s: Seq<char>) -> Option<u32> {
    match parse_unsigned_spec(s, u32::MAX as nat) {
        Some(v) => Some(v as u32),
        None => None,
    }
}

/// `str::parse::<u128>`.
pub open spec fn parse_u128_spec(s: Seq<char>) -> Option<u128> {
    match parse_unsigned_spec(s, u128::MAX as nat) {
        Some(v) => Some(v as u128),
        None => None,
    }
}

/// The number of leading decimal digits of `s`.
pub open spec fn leading_digit_count(s: Seq<char>) -> nat
    decreases s.len(),
{
    if s.len() > 0 && is_digit(s[0]) {
        1 + leading_digit_count(s.drop_first())
    } else {
        0
    }
}

/// The value of the leading decimal digits of `s`; 0 when it starts with none.
/// Timestamps are ordered by this value.
pub open spec fn leading_number(s: Seq<char>) -> nat {
    digits_value(s.take(leading_digit_count(s) as int))
}

/// True when `needle` occurs in `hay` as a contiguous run.
pub open spec fn contains_seq<A>(hay: Seq<A>, needle: Seq<A>) -> bool {
    exists|i: int|
        0 <= i && i + needle.len() <= hay.len() && #[trigger] hay.subrange(i, i + needle.len())
            == needle
}

/// `needle` is a prefix of `hay`.
pub open spec fn starts_with_seq<A>(hay: Seq<A>, needle: Seq<A>) -> bool {
    needle.len() <= hay.len() && hay.subrange(0, needle.len() as int) == needle
}

/// The ASCII lower-case form of a character (other characters are kept).
pub open spec fn ascii_lower(c: char) -> char {
    if 'A' <= c && c <= 'Z' {
        ((c as u32) + 32) as char
    } else {
        c
    }
}

/// `str::to_ascii_lowercase`, character by character.
pub open spec fn ascii_lowercase(s: Seq<char>) -> Seq<char> {
    s.map_values(|c: char| ascii_lower(c))
}

/// `char::is_whitespace`: the Unicode `White_Space` characters.
pub open spec fn is_whitespace(c: char) -> bool {
    ||| ('\u{9}' <= c && c <= '\u{d}')
    ||| c == ' '
    ||| c == '\u{85}'
    ||| c == '\u{a0}'
    ||| c == '\u{1680}'
    ||| ('\u{2000}' <= c && c <= '\u{200a}')
    ||| c == '\u{2028}'
    ||| c == '\u{2029}'
    ||| c == '\u{202f}'
    ||| c == '\u{205f}'
    ||| c == '\u{3000}'
}

/// True when `s` holds only whitespace (so `str::trim` leaves it empty).
pub open spec fn is_blank(s: Seq<char>) -> bool {
    forall|i: int| 0 <= i < s.len() ==> is_whitespace(#[trigger] s[i])
}

/// `s` without its leading whitespace.
pub open spec fn trim_start_seq(s: Seq<char>) -> Seq<char>
    decreases s.len(),
{
    if s.len() > 0 && is_whitespace(s[0]) {
        trim_start_seq(s.drop_first())
    } else {
        s
    }
}

/// `s` without its trailing whitespace.
pub open spec fn trim_end_seq(s: Seq<char>) -> Seq<char>
    decreases s.len(),
{
    if s.len() > 0 && is_whitespace(s.last()) {
        trim_end_seq(s.drop_last())
    } else {
        s
    }
}

/// `str::trim`.
pub open spec fn trim_seq(s: Seq<char>) -> Seq<char> {
    trim_end_seq(trim_start_seq(s))
}

/// The parts of `s` between `sep` separators, in order, as `str::split`
/// yields them.
pub open spec fn split_on(s: Seq<char>, sep: char) -> Seq<Seq<char>> {
    split_from(s, sep, 0, Seq::empty(), Seq::empty())
}

/// Splitting the rest of `s` from position `i`, where `cur` is the part read
/// so far and `acc` the parts already closed.
pub open spec fn split_from(
    s: Seq<char>,
    sep: char,
    i: int,
    cur: Seq<char>,
    acc: Seq<Seq<char>>,
) -> Seq<Seq<char>>
    decreases s.len() - i,
{
    if i >= s.len() || i < 0 {
        acc.push(cur)
    } else if s[i] == sep {
        split_from(s, sep, i + 1, Seq::empty(), acc.push(cur))
    } else {
        split_from(s, sep, i + 1, cur.push(s[i]), acc)
    }
}

/// The parts already closed stay in front of whatever splitting yields.
proof fn lemma_split_keeps_closed_parts(
    s: Seq<char>,
    sep: char,
    i: int,
    cur: Seq<char>,
    acc: Seq<Seq<char>>,
)
    requires
        0 <= i,
    ensures
        split_from(s, sep, i, cur, acc) == acc + split_from(s, sep, i, cur, Seq::empty()),
    decreases s.len() - i,
{
    if i >= s.len() {
        assert(acc.push(cur) =~= acc + Seq::<Seq<char>>::empty().push(cur));
    } else if s[i] == sep {
        lemma_split_keeps_closed_parts(s, sep, i + 1, Seq::empty(), acc.push(cur));
        lemma_split_keeps_closed_parts(s, sep, i + 1, Seq::empty(), Seq::empty().push(cur));
        let rest = split_from(s, sep, i + 1, Seq::empty(), Seq::empty());
        assert(acc.push(cur) + rest =~= acc + (Seq::<Seq<char>>::empty().push(cur) + rest));
    } else {
        lemma_split_keeps_closed_parts(s, sep, i + 1, cur.push(s[i]), acc);
    }
}

/// Splitting the tail of `p + y` from inside `y` is splitting `y` there.
proof fn lemma_split_shifted(
    p: Seq<char>,
    y: Seq<char>,
    sep: char,
    j: int,
    cur: Seq<char>,
    acc: Seq<Seq<char>>,
)
    requires
        0 <= j <= y.len(),
    ensures
        split_from(p + y, sep, p.len() + j, cur, acc) == split_from(y, sep, j, cur, acc),
    decreases y.len() - j,
{
    if j < y.len() {
        assert((p + y)[p.len() + j] == y[j]);
        if y[j] == sep {
            lemma_split_shifted(p, y, sep, j + 1, Seq::empty(), acc.push(cur));
        } else {
            lemma_split_shifted(p, y, sep, j + 1, cur.push(y[j]), acc);
        }
    }
}

/// Splitting `a`, a separator and `b` from inside `a`: what splitting `a`
/// alone yields, then the parts of `b`.
proof fn lemma_split_around_separator(
    a: Seq<char>,
    b: Seq<char>,
    sep: char,
    i: int,
    cur: Seq<char>,
    acc: Seq<Seq<char>>,
)
    requires
        0 <= i <= a.len(),
    ensures
        split_from(a + seq![sep] + b, sep, i, cur, acc) == split_from(a, sep, i, cur, acc) + split_on(b, sep),
    decreases a.len() - i,
{
    let s = a + seq![sep] + b;
    if i < a.len() {
        assert(s[i] == a[i]);
        if a[i] == sep {
            lemma_split_around_separator(a, b, sep, i + 1, Seq::empty(), acc.push(cur));
        } else {
            lemma_split_around_separator(a, b, sep, i + 1, cur.push(a[i]), acc);
        }
    } else {
        assert(s[i] == sep);
        lemma_split_keeps_closed_parts(s, sep, i + 1, Seq::empty(), acc.push(cur));
        assert(s =~= (a + seq![sep]) + b);
        lemma_split_shifted(a + seq![sep], b, sep, 0, Seq::empty(), Seq::empty());
    }
}

/// The parts of `a`, a separator and `b` are the parts of `a` then those of `b`.
pub proof fn lemma_split_concat(a: Seq<char>, b: Seq<char>, sep: char)
    ensures
        split_on(a + seq![sep] + b, sep) == split_on(a, sep) + split_on(b, sep),
{
    lemma_split_around_separator(a, b, sep, 0, Seq::empty(), Seq::empty());
}

/// Joins `parts` with `sep` between neighbours, as `[..].join(sep)` does.
pub open spec fn join_seq(parts: Seq<Seq<char>>, sep: Seq<char>) -> Seq<char>
    decreases parts.len(),
{
    if parts.len() == 0 {
        Seq::empty()
    } else if parts.len() == 1 {
        parts[0]
    } else {
        join_seq(parts.drop_last(), sep) + sep + parts.last()
    }
}

fn digit_str(d: u128) -> (s: &'static str)
    requires
        d < 10,
    ensures
        s@ == seq![digit_char(d as nat)],
{
    if d == 0 {
        proof {
            reveal_strlit("0");
        }
        "0"
    } else if d == 1 {
        proof {
            reveal_strlit("1");
        }
        "1"
    } else if d == 2 {
        proof {
            reveal_strlit("2");
        }
        "2"
    } else if d == 3 {
        proof {
            reveal_strlit("3");
        }
        "3"
    } else if d == 4 {
        proof {
            reveal_strlit("4");
        }
        "4"
    } else if d == 5 {
        proof {
            reveal_strlit("5");
        }
        "5"
    } else if d == 6 {
        proof {
            reveal_strlit("6");
        }
        "6"
    } else if d == 7 {
        proof {
            reveal_strlit("7");
        }
        "7"
    } else if d == 8 {
        proof {
            reveal_strlit("8");
        }
        "8"
    } else {
        proof {
            reveal_strlit("9");
        }
        "9"
    }
}

/// Writes `n` in decimal.
pub fn u128_to_decimal(n: u128) -> (s: String)
    ensures
        s@ == decimal_digits(n as nat),
    decreases n,
{
    if n < 10 {
        String::from_str(digit_str(n))
    } else {
        let mut s = u128_to_decimal(n / 10);
        s.append(digit_str(n % 10));
        s
    }
}

/// The characters of `s`, in order.
pub fn to_chars(s: &str) -> (v: Vec<char>)
    ensures
        v@ == s@,
{
    let n = s.unicode_len();
    let mut v: Vec<char> = Vec::new();
    let mut i: usize = 0;
    while i < n
        invariant
            n == s@.len(),
            i <= n,
            v@ == s@.subrange(0, i as int),
        decreases n - i,
    {
        v.push(s.get_char(i));
        i += 1;
        assert(v@ =~= s@.subrange(0, i as int));
    }
    assert(v@ =~= s@);
    v
}

/// A fresh `String` with the contents of `s`.
pub fn owned(s: &str) -> (r: String)
    ensures
        r@ == s@,
{
    String::from_str(s)
}

/// Equality of two strings, character by character.
pub fn seq_chars_eq(a: &Vec<char>, b: &Vec<char>) -> (r: bool)
    ensures
        r == (a@ == b@),
{
    if a.len() != b.len() {
        return false;
    }
    let mut i: usize = 0;
    while i < a.len()
        invariant
            a@.len() == b@.len(),
            i <= a@.len(),
            forall|j: int| 0 <= j < i ==> a@[j] == b@[j],
        decreases a.len() - i,
    {
        if a[i] != b[i] {
            return false;
        }
        i += 1;
    }
    assert(a@ =~= b@);
    true
}

/// `a == b` on string slices.
pub fn str_eq(a: &str, b: &str) -> (r: bool)
    ensures
        r == (a@ == b@),
{
    let ca = to_chars(a);
    let cb = to_chars(b);
    seq_chars_eq(&ca, &cb)
}

/// True when `needle` occurs in `hay` starting at position `at`.
fn occurs_at(hay: &Vec<char>, needle: &Vec<char>, at: usize) -> (r: bool)
    requires
        at + needle@.len() <= hay@.len(),
    ensures
        r == (hay@.subrange(at as int, at + needle@.len()) == needle@),
{
    let hl = hay.len();
    let mut j: usize = 0;
    while j < needle.len()
        invariant
            hl == hay@.len(),
            at + needle@.len() <= hay@.len(),
            j <= needle@.len(),
            forall|k: int| 0 <= k < j ==> hay@[at + k] == needle@[k],
        decreases needle.len() - j,
    {
        assert(at + j < hay@.len());
        if hay[at + j] != needle[j] {
            assert(hay@.subrange(at as int, at + needle@.len())[j as int] != needle@[j as int]);
            return false;
        }
        j += 1;
    }
    assert(hay@.subrange(at as int, at + needle@.len()) =~= needle@);
    true
}

/// Substring search on character sequences.
pub fn chars_contain(hay: &Vec<char>, needle: &Vec<char>) -> (r: bool)
    ensures
        r == contains_seq(hay@, needle@),
{
    if needle.len() > hay.len() {
        return false;
    }
    if needle.len() == 0 {
        assert(hay@.subrange(0int, 0int + needle@.len()) =~= needle@);
        return true;
    }
    let hl = hay.len();
    let last = hl - needle.len();
    let mut i: usize = 0;
    while i <= last
        invariant
            hl == hay@.len(),
            needle@.len() >= 1,
            last + needle@.len() == hay@.len(),
            i <= last + 1,
            forall|k: int|
                0 <= k < i ==> #[trigger] hay@.subrange(k, k + needle@.len()) != needle@,
        decreases last + 1 - i,
    {
        if occurs_at(hay, needle, i) {
            return true;
        }
        i += 1;
    }
    assert forall|k: int| 0 <= k && k + needle@.len() <= hay@.len() implies #[trigger] hay@.subrange(
        k,
        k + needle@.len(),
    ) != needle@ by {}
    false
}

/// `hay.contains(needle)` on string slices.
pub fn str_contains(hay: &str, needle: &str) -> (r: bool)
    ensures
        r == contains_seq(hay@, needle@),
{
    let h = to_chars(hay);
    let n = to_chars(needle);
    chars_contain(&h, &n)
}

/// `str::to_ascii_lowercase`, on a character vector.
pub fn lowercase_chars(s: &Vec<char>) -> (r: Vec<char>)
    ensures
        r@ == ascii_lowercase(s@),
{
    let mut r: Vec<char> = Vec::new();
    let mut i: usize = 0;
    while i < s.len()
        invariant
            i <= s@.len(),
            r@ == ascii_lowercase(s@.subrange(0, i as int)),
        decreases s.len() - i,
    {
        let c = s[i];
        let l = if 'A' <= c && c <= 'Z' {
            ((c as u8) + 32) as char
        } else {
            c
        };
        r.push(l);
        i += 1;
        assert(r@ =~= ascii_lowercase(s@.subrange(0, i as int)));
    }
    assert(s@.subrange(0, s@.len() as int) =~= s@);
    r
}

/// `char::is_whitespace`.
pub fn char_is_whitespace(c: char) -> (r: bool)
    ensures
        r == is_whitespace(c),
{
    ('\u{9}' <= c && c <= '\u{d}') || c == ' ' || c == '\u{85}' || c == '\u{a0}' || c
        == '\u{1680}' || ('\u{2000}' <= c && c <= '\u{200a}') || c == '\u{2028}' || c
        == '\u{2029}' || c == '\u{202f}' || c == '\u{205f}' || c == '\u{3000}'
}

/// True when `s` is empty after `str::trim`.
pub fn str_is_blank(s: &str) -> (r: bool)
    ensures
        r == is_blank(s@),
{
    let v = to_chars(s);
    let mut i: usize = 0;
    while i < v.len()
        invariant
            v@ == s@,
            i <= v@.len(),
            forall|k: int| 0 <= k < i ==> is_whitespace(#[trigger] v@[k]),
        decreases v.len() - i,
    {
        if !char_is_whitespace(v[i]) {
            return false;
        }
        i += 1;
    }
    true
}

/// Appends `value` to `out`.
pub fn push_str(out: &mut String, value: &str)
    ensures
        final(out)@ == old(out)@ + value@,
{
    out.append(value);
}

/// Joins string parts with a separator.
pub fn join_strings(parts: &Vec<String>, sep: &str) -> (r: String)
    ensures
        r@ == join_seq(parts.deep_view(), sep@),
{
    let mut r = String::new();
    let ghost views = parts.deep_view();
    let mut i: usize = 0;
    while i < parts.len()
        invariant
            views == parts.deep_view(),
            i <= parts@.len(),
            r@ == join_seq(views.take(i as int), sep@),
        decreases parts.len() - i,
    {
        if i > 0 {
            r.append(sep);
        }
        r.append(parts[i].as_str());
        proof {
            let t = views.take(i + 1);
            assert(t.drop_last() =~= views.take(i as int));
            assert(t.last() == views[i as int]);
        }
        i += 1;
    }
    assert(views.take(parts@.len() as int) =~= views);
    r
}

/// The leading value of `s` read as a number no larger than `u128::MAX`.
pub open spec fn capped_number(s: Seq<char>) -> nat {
    if leading_number(s) <= u128::MAX {
        leading_number(s)
    } else {
        u128::MAX as nat
    }
}

proof fn lemma_leading_take(s: Seq<char>, i: int)
    requires
        0 <= i < leading_digit_count(s),
    ensures
        leading_digit_count(s) <= s.len(),
        is_digit(s[i]),
        s.take(i + 1).drop_last() =~= s.take(i),
        s.take(i + 1).last() == s[i],
    decreases s.len(),
{
    lemma_leading_count_le(s);
    if i > 0 {
        lemma_leading_take(s.drop_first(), i - 1);
    }
}

proof fn lemma_leading_count_le(s: Seq<char>)
    ensures
        leading_digit_count(s) <= s.len(),
    decreases s.len(),
{
    if s.len() > 0 && is_digit(s[0]) {
        lemma_leading_count_le(s.drop_first());
    }
}

proof fn lemma_leading_stops(s: Seq<char>, i: int)
    requires
        0 <= i <= s.len(),
        forall|k: int| 0 <= k < i ==> is_digit(#[trigger] s[k]),
        i == s.len() || !is_digit(s[i]),
    ensures
        leading_digit_count(s) == i,
    decreases s.len(),
{
    if i > 0 {
        assert forall|k: int| 0 <= k < i - 1 implies is_digit(#[trigger] s.drop_first()[k]) by {
            assert(s.drop_first()[k] == s[k + 1]);
        }
        lemma_leading_stops(s.drop_first(), i - 1);
    }
}

/// The leading number of `s`, capped at `u128::MAX` (see [`capped_number`]).
pub fn leading_number_capped(s: &str) -> (r: u128)
    ensures
        r as nat == capped_number(s@),
{
    let v = to_chars(s);
    let mut i: usize = 0;
    let mut value: u128 = 0;
    while i < v.len() && '0' <= v[i] && v[i] <= '9'
        invariant
            v@ == s@,
            i <= v@.len(),
            forall|k: int| 0 <= k < i ==> is_digit(#[trigger] v@[k]),
            value as nat == (if digits_value(v@.take(i as int)) <= u128::MAX {
                digits_value(v@.take(i as int))
            } else {
                u128::MAX as nat
            }),
        decreases v.len() - i,
    {
        let ghost t = digits_value(v@.take(i as int));
        let d = ((v[i] as u32) - ('0' as u32)) as u128;
        assert(v@.take(i + 1).drop_last() =~= v@.take(i as int));
        assert(v@.take(i + 1).last() == v@[i as int]);
        assert(digits_value(v@.take(i + 1)) == t * 10 + d);
        if value == u128::MAX {
        } else if value > (u128::MAX - d) / 10 {
            value = u128::MAX;
        } else {
            value = value * 10 + d;
        }
        i += 1;
    }
    proof {
        lemma_leading_stops(v@, i as int);
    }
    value
}

/// `str::parse` for an unsigned type whose largest value is `bound`.
pub fn parse_unsigned(s: &str, bound: u128) -> (r: Option<u128>)
    ensures
        r matches Some(v) ==> parse_unsigned_spec(s@, bound as nat) == Some(v as nat),
        r is None ==> parse_unsigned_spec(s@, bound as nat) is None,
{
    let v = to_chars(s);
    let start: usize = if v.len() > 0 && v[0] == '+' {
        1
    } else {
        0
    };
    let ghost body = if s@.len() > 0 && s@[0] == '+' {
        s@.drop_first()
    } else {
        s@
    };
    assert(body =~= v@.subrange(start as int, v@.len() as int));
    if start >= v.len() {
        return None;
    }
    let mut i: usize = start;
    let mut value: u128 = 0;
    while i < v.len()
        invariant
            v@ == s@,
            start <= i <= v@.len(),
            body == (if s@.len() > 0 && s@[0] == '+' {
                s@.drop_first()
            } else {
                s@
            }),
            body =~= v@.subrange(start as int, v@.len() as int),
            forall|k: int| start <= k < i ==> is_digit(#[trigger] v@[k]),
            value as nat == digits_value(body.take(i - start)),
            value <= bound,
        decreases v.len() - i,
    {
        if !('0' <= v[i] && v[i] <= '9') {
            assert(!is_digit(body[i - start]));
            assert(!all_digits(body));
            return None;
        }
        let d = ((v[i] as u32) - ('0' as u32)) as u128;
        assert(body.take(i - start + 1).drop_last() =~= body.take(i - start));
        assert(body.take(i - start + 1).last() == body[i - start]);
        assert(digit_value(body[i - start]) == d);
        assert(digits_value(body.take(i - start + 1)) == value * 10 + d);
        if d > bound || value > (bound - d) / 10 {
            proof {
                lemma_digits_prefix_monotone(body, i - start + 1, body.len() as int);
                assert(body.take(body.len() as int) =~= body);
            }
            return None;
        }
        value = value * 10 + d;
        i += 1;
    }
    assert(body.take(body.len() as int) =~= body);
    assert(all_digits(body)) by {
        assert forall|k: int| 0 <= k < body.len() implies is_digit(#[trigger] body[k]) by {
            assert(body[k] == v@[k + start]);
        }
    }
    Some(value)
}

/// `str::parse::<u32>`.
pub fn parse_u32(s: &str) -> (r: Option<u32>)
    ensures
        r == parse_u32_spec(s@),
{
    match parse_unsigned(s, 4294967295) {
        Some(v) => Some(v as u32),
        None => None,
    }
}

/// `str::parse::<u128>`.
pub fn parse_u128(s: &str) -> (r: Option<u128>)
    ensures
        r == parse_u128_spec(s@),
{
    parse_unsigned(s, u128::MAX)
}

/// A longer run of digits never has a smaller value.
pub proof fn lemma_digits_prefix_monotone(s: Seq<char>, i: int, j: int)
    requires
        0 <= i <= j <= s.len(),
    ensures
        digits_value(s.take(i)) <= digits_value(s.take(j)),
    decreases j - i,
{
    if i < j {
        lemma_digits_prefix_monotone(s, i, j - 1);
        assert(s.take(j).drop_last() =~= s.take(j - 1));
    }
}

/// Splits a character vector at each `sep`, as `str::split` does.
pub fn split_chars(v: &Vec<char>, sep: char) -> (r: Vec<Vec<char>>)
    ensures
        r.deep_view() == split_on(v@, sep),
{
    let mut acc: Vec<Vec<char>> = Vec::new();
    let mut cur: Vec<char> = Vec::new();
    assert(acc.deep_view() =~= Seq::<Seq<char>>::empty());
    assert(cur@ =~= Seq::<char>::empty());
    let mut i: usize = 0;
    while i < v.len()
        invariant
            i <= v@.len(),
            split_on(v@, sep) == split_from(v@, sep, i as int, cur@, acc.deep_view()),
        decreases v.len() - i,
    {
        if v[i] == sep {
            let ghost prev = acc.deep_view();
            let done = cur;
            assert(done.deep_view() =~= done@);
            acc.push(done);
            assert(acc.deep_view() =~= prev.push(done@));
            cur = Vec::new();
            assert(cur@ =~= Seq::<char>::empty());
        } else {
            cur.push(v[i]);
        }
        i += 1;
    }
    let ghost prev = acc.deep_view();
    let last = cur;
    assert(last.deep_view() =~= last@);
    acc.push(last);
    assert(acc.deep_view() =~= prev.push(last@));
    acc
}

/// Skipping leading whitespace one character at a time reaches the same
/// trimmed text.
pub proof fn lemma_trim_start_skip(s: Seq<char>, j: int)
    requires
        0 <= j <= s.len(),
        forall|k: int| 0 <= k < j ==> is_whitespace(#[trigger] s[k]),
    ensures
        trim_start_seq(s) == trim_start_seq(s.subrange(j, s.len() as int)),
    decreases j,
{
    if j == 0 {
        assert(s.subrange(0, s.len() as int) =~= s);
    } else {
        let t = s.drop_first();
        assert forall|k: int| 0 <= k < j - 1 implies is_whitespace(#[trigger] t[k]) by {
            assert(t[k] == s[k + 1]);
        }
        lemma_trim_start_skip(t, j - 1);
        assert(t.subrange(j - 1, t.len() as int) =~= s.subrange(j, s.len() as int));
    }
}

/// Dropping trailing whitespace one character at a time reaches the same
/// trimmed text.
pub proof fn lemma_trim_end_skip(s: Seq<char>, j: int)
    requires
        0 <= j <= s.len(),
        forall|k: int| j <= k < s.len() ==> is_whitespace(#[trigger] s[k]),
    ensures
        trim_end_seq(s) == trim_end_seq(s.subrange(0, j)),
    decreases s.len() - j,
{
    if j == s.len() {
        assert(s.subrange(0, j) =~= s);
    } else {
        let t = s.drop_last();
        assert forall|k: int| j <= k < t.len() implies is_whitespace(#[trigger] t[k]) by {
            assert(t[k] == s[k]);
        }
        lemma_trim_end_skip(t, j);
        assert(t.subrange(0, j) =~= s.subrange(0, j));
    }
}

/// The bounds of `v` that `str::trim` keeps.
pub fn trim_bounds(v: &Vec<char>) -> (r: (usize, usize))
    ensures
        r.0 <= r.1 <= v@.len(),
        v@.subrange(r.0 as int, r.1 as int) == trim_seq(v@),
{
    let n = v.len();
    let mut start: usize = 0;
    while start < n && char_is_whitespace(v[start])
        invariant
            n == v@.len(),
            start <= n,
            forall|k: int| 0 <= k < start ==> is_whitespace(#[trigger] v@[k]),
        decreases n - start,
    {
        start += 1;
    }
    let ghost t = v@.subrange(start as int, n as int);
    proof {
        lemma_trim_start_skip(v@, start as int);
        if t.len() > 0 {
            assert(t[0] == v@[start as int]);
        }
    }
    let mut end: usize = n;
    while end > start && char_is_whitespace(v[end - 1])
        invariant
            n == v@.len(),
            start <= end <= n,
            t == v@.subrange(start as int, n as int),
            forall|k: int| end - start <= k < t.len() ==> is_whitespace(#[trigger] t[k]),
        decreases end - start,
    {
        assert(t[end - 1 - start] == v@[end - 1]);
        end -= 1;
    }
    proof {
        let u = t.subrange(0, (end - start) as int);
        lemma_trim_end_skip(t, (end - start) as int);
        assert(u =~= v@.subrange(start as int, end as int));
        if u.len() > 0 {
            assert(u.last() == v@[end - 1]);
        }
    }
    (start, end)
}

/// `str::trim`.
pub fn trim_text(s: &str) -> (r: String)
    ensures
        r@ == trim_seq(s@),
{
    let v = to_chars(s);
    let (a, b) = trim_bounds(&v);
    owned(s.substring_char(a, b))
}

proof fn lemma_trim_end_keeps_head(t: Seq<char>)
    requires
        t.len() > 0,
        !is_whitespace(t[0]),
    ensures
        trim_end_seq(t).len() > 0,
    decreases t.len(),
{
    if t.len() > 1 && is_whitespace(t.last()) {
        lemma_trim_end_keeps_head(t.drop_last());
    }
}

proof fn lemma_trim_end_empty(t: Seq<char>)
    requires
        t.len() == 0,
    ensures
        trim_end_seq(t).len() == 0,
{
}

/// Text trims to nothing exactly when it is blank.
pub proof fn lemma_blank_trims_to_empty(s: Seq<char>)
    ensures
        is_blank(s) <==> trim_seq(s).len() == 0,
{
    if is_blank(s) {
        lemma_trim_start_skip(s, s.len() as int);
        lemma_trim_end_empty(trim_start_seq(s));
    } else {
        lemma_first_non_whitespace(s, 0);
        let k = first_non_whitespace(s, 0);
        lemma_trim_start_skip(s, k);
        let t = s.subrange(k, s.len() as int);
        assert(t[0] == s[k]);
        lemma_trim_end_keeps_head(t);
    }
}

/// The first position from `i` on that holds a non-whitespace character.
spec fn first_non_whitespace(s: Seq<char>, i: int) -> int
    decreases s.len() - i,
{
    if i < 0 || i >= s.len() {
        s.len() as int
    } else if !is_whitespace(s[i]) {
        i
    } else {
        first_non_whitespace(s, i + 1)
    }
}

proof fn lemma_first_non_whitespace(s: Seq<char>, i: int)
    requires
        0 <= i <= s.len(),
        exists|j: int| i <= j < s.len() && !is_whitespace(#[trigger] s[j]),
    ensures
        i <= first_non_whitespace(s, i) < s.len(),
        !is_whitespace(s[first_non_whitespace(s, i)]),
        forall|k: int| i <= k < first_non_whitespace(s, i) ==> is_whitespace(#[trigger] s[k]),
    decreases s.len() - i,
{
    if is_whitespace(s[i]) {
        let j = choose|j: int| i <= j < s.len() && !is_whitespace(#[trigger] s[j]);
        assert(j != i);
        assert(i + 1 <= j);
        lemma_first_non_whitespace(s, i + 1);
    }
}

/// Appends one character to a string.
///
/// Trusted: calls `String::push`, which std documents as appending the
/// character to the end of the string; the contract claims exactly that of
/// the string's characters.
#[verifier::external_body]
fn push_char(s: &mut String, c: char)
    ensures
        final(s)@ == old(s)@.push(c),
{
    s.push(c);
}

/// The string made of a character vector.
pub fn chars_to_string(v: &Vec<char>) -> (r: String)
    ensures
        r@ == v@,
{
    let mut r = String::new();
    let mut i: usize = 0;
    while i < v.len()
        invariant
            i <= v@.len(),
            r@ == v@.subrange(0, i as int),
        decreases v.len() - i,
    {
        push_char(&mut r, v[i]);
        i += 1;
        assert(r@ =~= v@.subrange(0, i as int));
    }
    assert(v@.subrange(0, v@.len() as int) =~= v@);
    r
}

/// Whether a character vector holds only whitespace.
pub fn chars_blank(v: &Vec<char>) -> (r: bool)
    ensures
        r == is_blank(v@),
{
    let mut i: usize = 0;
    while i < v.len()
        invariant
            i <= v@.len(),
            forall|k: int| 0 <= k < i ==> is_whitespace(#[trigger] v@[k]),
        decreases v.len() - i,
    {
        if !char_is_whitespace(v[i]) {
            return false;
        }
        i += 1;
    }
    true
}

} // verus!
