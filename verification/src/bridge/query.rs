//! Reading the host session a polling request asks about from its query.
use crate::bridge::auth::utf8;
use crate::text::{owned, split_chars, split_on, to_chars, chars_to_string};
use vstd::prelude::*;

verus! {

/// The value of a hexadecimal digit byte, in either case.
pub open spec fn hex_value(b: u8) -> Option<u8> {
    if 48 <= b && b <= 57 {
        Some((b - 48) as u8)
    } else if 97 <= b && b <= 102 {
        Some((b - 87) as u8)
    } else if 65 <= b && b <= 70 {
        Some((b - 55) as u8)
    } else {
        None
    }
}

/// `u8::from_str_radix(_, 16)` on the two bytes after a `%`: an optional
/// leading `+` then hexadecimal digits.
pub open spec fn escape_value(b1: u8, b2: u8) -> Option<u8> {
    if b1 == 43 {
        hex_value(b2)
    } else {
        match (hex_value(b1), hex_value(b2)) {
            (Some(h), Some(l)) => Some((h * 16 + l) as u8),
            _ => None,
        }
    }
}

/// Decoding the bytes from position `i` on: a `%` followed by two bytes that
/// read as a hexadecimal byte stands for that byte, a `+` for a space, and
/// any other byte for itself.
pub open spec fn decode_from(b: Seq<u8>, i: int) -> Seq<u8>
    decreases b.len() - i,
{
    if i < 0 || i >= b.len() {
        Seq::empty()
    } else if b[i] == 37 && i + 2 < b.len() {
        match escape_value(b[i + 1], b[i + 2]) {
            Some(v) => seq![v] + decode_from(b, i + 3),
            None => seq![b[i]] + decode_from(b, i + 1),
        }
    } else if b[i] == 43 {
        seq![32u8] + decode_from(b, i + 1)
    } else {
        seq![b[i]] + decode_from(b, i + 1)
    }
}

/// Decoding from position `i` on would cut a character in two when reading
/// the two bytes after a `%`.
pub open spec fn cuts_a_character(b: Seq<u8>, i: int) -> bool
    decreases b.len() - i,
{
    if i < 0 || i >= b.len() {
        false
    } else if b[i] == 37 && i + 2 < b.len() {
        (i + 3 < b.len() && vstd::utf8::is_continuation_byte(b[i + 3])) || match escape_value(
            b[i + 1],
            b[i + 2],
        ) {
            Some(_) => cuts_a_character(b, i + 3),
            None => cuts_a_character(b, i + 1),
        }
    } else {
        cuts_a_character(b, i + 1)
    }
}

/// A percent-decoded value: the decoded bytes when they form UTF-8 text,
/// else the value as it was.
pub open spec fn percent_decode_spec(value: Seq<char>) -> Seq<char> {
    let d = decode_from(utf8(value), 0);
    if vstd::utf8::valid_utf8(d) {
        vstd::utf8::decode_utf8(d)
    } else {
        value
    }
}

/// Text from UTF-8 bytes.
///
/// Trusted: calls `String::from_utf8`, which std documents as succeeding
/// exactly when the bytes are valid UTF-8, with the text they encode; the
/// contract claims that in the terms of vstd's UTF-8 definitions.
#[verifier::external_body]
fn string_from_utf8(bytes: Vec<u8>) -> (r: Option<String>)
    ensures
        match r {
            Some(s) => vstd::utf8::valid_utf8(bytes@) && s@ == vstd::utf8::decode_utf8(bytes@),
            None => !vstd::utf8::valid_utf8(bytes@),
        },
{
    match String::from_utf8(bytes) {
        Ok(s) => Some(s),
        Err(_) => None,
    }
}

fn hex_value_exec(b: u8) -> (r: Option<u8>)
    ensures
        r == hex_value(b),
{
    if 48 <= b && b <= 57 {
        Some(b - 48)
    } else if 97 <= b && b <= 102 {
        Some(b - 87)
    } else if 65 <= b && b <= 70 {
        Some(b - 55)
    } else {
        None
    }
}

fn escape_value_exec(b1: u8, b2: u8) -> (r: Option<u8>)
    ensures
        r == escape_value(b1, b2),
{
    if b1 == 43 {
        hex_value_exec(b2)
    } else {
        match (hex_value_exec(b1), hex_value_exec(b2)) {
            (Some(h), Some(l)) => Some(h * 16 + l),
            _ => None,
        }
    }
}

/// Decodes `%`-escapes and `+` in a query value.
pub fn percent_decode(value: &str) -> (r: String)
    requires
        !cuts_a_character(utf8(value@), 0),
    ensures
        r@ == percent_decode_spec(value@),
{
    let bytes = value.as_bytes();
    let ghost b = utf8(value@);
    assert(bytes@ == b);
    let n = bytes.len();
    let mut out: Vec<u8> = Vec::new();
    let mut i: usize = 0;
    while i < n
        invariant
            n == b.len(),
            bytes@ == b,
            i <= n,
            out@ + decode_from(b, i as int) == decode_from(b, 0),
        decreases n - i,
    {
        let c = bytes[i];
        if c == 37 && n - i > 2 {
            match escape_value_exec(bytes[i + 1], bytes[i + 2]) {
                Some(v) => {
                    let ghost prev = out@;
                    out.push(v);
                    assert(prev + decode_from(b, i as int) =~= out@ + decode_from(b, i + 3));
                    i += 3;
                },
                None => {
                    let ghost prev = out@;
                    out.push(c);
                    assert(prev + decode_from(b, i as int) =~= out@ + decode_from(b, i + 1));
                    i += 1;
                },
            }
        } else if c == 43 {
            let ghost prev = out@;
            out.push(32);
            assert(prev + decode_from(b, i as int) =~= out@ + decode_from(b, i + 1));
            i += 1;
        } else {
            let ghost prev = out@;
            out.push(c);
            assert(prev + decode_from(b, i as int) =~= out@ + decode_from(b, i + 1));
            i += 1;
        }
    }
    assert(out@ =~= decode_from(b, 0));
    match string_from_utf8(out) {
        Some(s) => s,
        None => owned(value),
    }
}

/// Whether decoding `value` would cut a character in two, the one input on
/// which `percent_decode` is not defined.
pub fn decoding_cuts_a_character(value: &str) -> (r: bool)
    ensures
        r == cuts_a_character(utf8(value@), 0),
{
    let bytes = value.as_bytes();
    let ghost b = utf8(value@);
    assert(bytes@ == b);
    let n = bytes.len();
    let mut i: usize = 0;
    while i < n
        invariant
            n == b.len(),
            bytes@ == b,
            i <= n,
            b == utf8(value@),
            cuts_a_character(b, 0) == cuts_a_character(b, i as int),
        decreases n - i,
    {
        if bytes[i] == 37 && n - i > 2 {
            if n - i > 3 && 0x80 <= bytes[i + 3] && bytes[i + 3] <= 0xbf {
                assert(vstd::utf8::is_continuation_byte(b[i + 3]));
                assert(cuts_a_character(b, i as int));
                return true;
            }
            match escape_value_exec(bytes[i + 1], bytes[i + 2]) {
                Some(_) => {
                    i += 3;
                },
                None => {
                    i += 1;
                },
            }
        } else {
            i += 1;
        }
    }
    false
}

/// The index of the first occurrence of a character.
#[verifier::opaque]
pub open spec fn first_index_of(s: Seq<char>, c: char) -> Option<int> {
    if exists|k: int| 0 <= k < s.len() && s[k] == c {
        Some(choose|k: int| 0 <= k < s.len() && s[k] == c && forall|j: int| 0 <= j < k ==> s[j] != c)
    } else {
        None
    }
}

/// The value of a `key=value` piece whose key is `host_session_id`.
pub open spec fn session_piece_value(piece: Seq<char>) -> Option<Seq<char>> {
    match first_index_of(piece, '=') {
        Some(k) => if piece.take(k) == "host_session_id"@ {
            Some(piece.skip(k + 1))
        } else {
            None
        },
        None => None,
    }
}

/// The undecoded value of the first `host_session_id` piece.
pub open spec fn session_value_from(pieces: Seq<Seq<char>>) -> Option<Seq<char>>
    decreases pieces.len(),
{
    if pieces.len() == 0 {
        None
    } else {
        match session_piece_value(pieces[0]) {
            Some(v) => Some(v),
            None => session_value_from(pieces.drop_first()),
        }
    }
}

/// The undecoded `host_session_id` of a query: the value of the first
/// `&`-separated piece whose text before its first `=` is the key.
pub open spec fn session_value_spec(query: Seq<char>) -> Option<Seq<char>> {
    session_value_from(split_on(query, '&'))
}

/// The refusal of a polling request that names no session.
pub open spec fn missing_session_text() -> Seq<char> {
    "missing host_session_id"@
}

fn piece_value(piece: &Vec<char>) -> (r: Option<Vec<char>>)
    ensures
        match r {
            Some(v) => session_piece_value(piece@) == Some(v@),
            None => session_piece_value(piece@) is None,
        },
{
    let mut k: usize = 0;
    while k < piece.len() && piece[k] != '='
        invariant
            k <= piece@.len(),
            forall|j: int| 0 <= j < k ==> piece@[j] != '=',
        decreases piece.len() - k,
    {
        k += 1;
    }
    reveal(first_index_of);
    if k == piece.len() {
        return None;
    }
    proof {
        let m = choose|m: int|
            0 <= m < piece@.len() && piece@[m] == '=' && forall|j: int| 0 <= j < m ==> piece@[j] != '=';
        assert(0 <= k < piece@.len() && piece@[k as int] == '=');
        assert(m == k as int) by {
            if m > k {
                assert(piece@[k as int] != '=');
            }
        }
    }
    let key = to_chars("host_session_id");
    assert(first_index_of(piece@, '=') == Some(k as int));
    if k != key.len() {
        assert(piece@.take(k as int).len() != key@.len());
        return None;
    }
    let mut j: usize = 0;
    while j < k
        invariant
            j <= k < piece@.len(),
            key@ == "host_session_id"@,
            key@.len() == k,
            first_index_of(piece@, '=') == Some(k as int),
            forall|t: int| 0 <= t < j ==> piece@[t] == key@[t],
        decreases k - j,
    {
        if piece[j] != key[j] {
            assert(piece@.take(k as int)[j as int] != key@[j as int]);
            return None;
        }
        j += 1;
    }
    assert(piece@.take(k as int) =~= key@);
    let mut v: Vec<char> = Vec::new();
    let mut t: usize = k + 1;
    while t < piece.len()
        invariant
            k + 1 <= t <= piece@.len(),
            v@ == piece@.subrange(k + 1, t as int),
        decreases piece.len() - t,
    {
        v.push(piece[t]);
        t += 1;
        assert(v@ =~= piece@.subrange(k + 1, t as int));
    }
    assert(v@ =~= piece@.skip(k + 1));
    Some(v)
}

/// The undecoded `host_session_id` of a query, if it names one.
pub fn session_value(query: &str) -> (r: Option<String>)
    ensures
        r.deep_view() == session_value_spec(query@),
{
    let pieces = split_chars(&to_chars(query), '&');
    let ghost pv = pieces.deep_view();
    assert(pv.skip(0) =~= pv);
    let mut i: usize = 0;
    while i < pieces.len()
        invariant
            pv == pieces.deep_view(),
            pv == split_on(query@, '&'),
            i <= pv.len(),
            session_value_spec(query@) == session_value_from(pv.skip(i as int)),
        decreases pieces.len() - i,
    {
        let piece = &pieces[i];
        assert(pv[i as int] == piece@) by {
            assert(piece.deep_view() =~= piece@);
        }
        assert(pv.skip(i as int)[0] == pv[i as int]);
        assert(pv.skip(i as int).drop_first() =~= pv.skip(i + 1));
        match piece_value(piece) {
            Some(v) => {
                return Some(chars_to_string(&v));
            },
            None => {},
        }
        i += 1;
    }
    assert(pv.skip(i as int).len() == 0);
    None
}

/// The host session a polling request asks about, percent-decoded; a query
/// that names none is refused.
pub fn parse_host_session_id(query: &str) -> (r: Result<String, String>)
    requires
        match session_value_spec(query@) {
            Some(v) => !cuts_a_character(utf8(v), 0),
            None => true,
        },
    ensures
        match session_value_spec(query@) {
            Some(v) => r matches Ok(s) && s@ == percent_decode_spec(v),
            None => r matches Err(m) && m@ == missing_session_text(),
        },
{
    match session_value(query) {
        Some(v) => Ok(percent_decode(v.as_str())),
        None => Err(owned("missing host_session_id")),
    }
}

/// Decoding bytes that hold no `%` and no `+` leaves them as they are.
proof fn lemma_plain_bytes_decode_to_themselves(b: Seq<u8>, i: int)
    requires
        0 <= i <= b.len(),
        forall|k: int| 0 <= k < b.len() ==> b[k] != 37u8 && b[k] != 43u8,
    ensures
        decode_from(b, i) == b.skip(i),
    decreases b.len() - i,
{
    if i < b.len() {
        lemma_plain_bytes_decode_to_themselves(b, i + 1);
        assert(seq![b[i]] + b.skip(i + 1) =~= b.skip(i));
    } else {
        assert(b.skip(i) =~= Seq::<u8>::empty());
    }
}

/// A value whose text holds no `%` escape and no `+` (no such byte in its
/// UTF-8 form) decodes to itself.
pub proof fn law_plain_values_decode_to_themselves(value: Seq<char>)
    requires
        forall|k: int| 0 <= k < utf8(value).len() ==> utf8(value)[k] != 37u8 && utf8(value)[k] != 43u8,
    ensures
        percent_decode_spec(value) == value,
{
    lemma_plain_bytes_decode_to_themselves(utf8(value), 0);
    assert(utf8(value).skip(0) =~= utf8(value));
    vstd::utf8::encode_utf8_valid_utf8(value);
    vstd::utf8::encode_utf8_decode_utf8(value);
}

} // verus!
