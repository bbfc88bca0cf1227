//! Text building blocks shared by the request builders: decimal rendering of
//! identifiers, `application/x-www-form-urlencoded` escaping, and character
//! search.
use vstd::prelude::*;
use vstd::string::*;
use vstd::utf8::encode_utf8;

verus! {

/// The decimal digit character for `d` (which is below ten).
pub open spec fn digit_char(d: nat) -> char {
    if d == 0 { '0' }
    else if d == 1 { '1' }
    else if d == 2 { '2' }
    else if d == 3 { '3' }
    else if d == 4 { '4' }
    else if d == 5 { '5' }
    else if d == 6 { '6' }
    else if d == 7 { '7' }
    else if d == 8 { '8' }
    else { '9' }
}

/// The decimal representation of `n`, without leading zeros.
pub open spec fn decimal(n: nat) -> Seq<char>
    decreases n,
{
    if n < 10 {
        seq![digit_char(n)]
    } else {
        decimal(n / 10) + seq![digit_char(n % 10)]
    }
}

fn digit_str(d: u64) -> (r: &'static str)
    requires
        d < 10,
    ensures
        r@ == seq![digit_char(d as nat)],
{
    if d == 0 {
        proof { reveal_strlit("0"); }
        "0"
    } else if d == 1 {
        proof { reveal_strlit("1"); }
        "1"
    } else if d == 2 {
        proof { reveal_strlit("2"); }
        "2"
    } else if d == 3 {
        proof { reveal_strlit("3"); }
        "3"
    } else if d == 4 {
        proof { reveal_strlit("4"); }
        "4"
    } else if d == 5 {
        proof { reveal_strlit("5"); }
        "5"
    } else if d == 6 {
        proof { reveal_strlit("6"); }
        "6"
    } else if d == 7 {
        proof { reveal_strlit("7"); }
        "7"
    } else if d == 8 {
        proof { reveal_strlit("8"); }
        "8"
    } else {
        proof { reveal_strlit("9"); }
        "9"
    }
}

/// Renders `n` in decimal.
pub fn decimal_string(n: u64) -> (r: String)
    ensures
        r@ == decimal(n as nat),
    decreases n,
{
    let d = digit_str(n % 10);
    if n < 10 {
        String::from_str(d)
    } else {
        let mut s = decimal_string(n / 10);
        s.append(d);
        s
    }
}

/// Whether form encoding leaves the byte `b` as it is.
pub open spec fn form_unreserved(b: u8) -> bool {
    b == 0x2a || b == 0x2d || b == 0x2e || b == 0x5f || (0x30 <= b <= 0x39) || (0x41 <= b
        <= 0x5a) || (0x61 <= b <= 0x7a)
}

/// The upper-case hexadecimal digit for `d` (which is below sixteen).
pub open spec fn hex_digit(d: u8) -> char {
    if d < 10 {
        (d + 0x30) as char
    } else {
        (d - 10 + 0x41) as char
    }
}

/// `application/x-www-form-urlencoded` escaping of a byte string: unreserved
/// bytes stand for themselves, a space becomes `+`, and every other byte
/// becomes `%` followed by two upper-case hexadecimal digits.
pub open spec fn form_encoded(b: Seq<u8>) -> Seq<char>
    decreases b.len(),
{
    if b.len() == 0 {
        Seq::empty()
    } else {
        let first = b[0];
        let head = if form_unreserved(first) {
            seq![first as char]
        } else if first == 0x20 {
            seq!['+']
        } else {
            seq!['%', hex_digit(first / 16), hex_digit(first % 16)]
        };
        head + form_encoded(b.drop_first())
    }
}

/// Relies on `url::form_urlencoded::byte_serialize`, which escapes the UTF-8
/// bytes of `s` one by one as `form_encoded` states.
#[verifier::external_body]
pub(crate) fn form_encode(s: &str) -> (r: String)
    ensures
        r@ == form_encoded(encode_utf8(s@)),
{
    url::form_urlencoded::byte_serialize(s.as_bytes()).collect::<String>()
}

/// The first position at or after `i` where `s` holds `c`.
pub open spec fn find_from(s: Seq<char>, c: char, i: int) -> Option<int>
    decreases s.len() - i,
{
    if i < 0 || i >= s.len() {
        None
    } else if s[i] == c {
        Some(i)
    } else {
        find_from(s, c, i + 1)
    }
}

pub proof fn lemma_find_from_bounds(s: Seq<char>, c: char, i: int)
    ensures
        match find_from(s, c, i) {
            Some(p) => 0 <= i <= p < s.len() && s[p] == c,
            None => true,
        },
    decreases s.len() - i,
{
    if 0 <= i < s.len() && s[i] != c {
        lemma_find_from_bounds(s, c, i + 1);
    }
}

/// Finds the first `c` in `s` at or after position `i`.
pub fn find_char(s: &str, c: char, i: usize) -> (r: Option<usize>)
    ensures
        match r {
            Some(p) => find_from(s@, c, i as int) == Some(p as int),
            None => find_from(s@, c, i as int) is None,
        },
{
    let n = s.unicode_len();
    let mut j = i;
    while j < n
        invariant
            n == s@.len(),
            i <= j,
            find_from(s@, c, i as int) == find_from(s@, c, j as int),
        decreases n - j,
    {
        if s.get_char(j) == c {
            return Some(j);
        }
        j = j + 1;
    }
    None
}

/// Whether `pat` occurs in `s` between positions `from` and `to`.
pub open spec fn occurs_within(s: Seq<char>, pat: Seq<char>, from: int, to: int) -> bool {
    exists|k: int|
        from <= k && k + pat.len() <= to && #[trigger] s.subrange(k, k + pat.len()) == pat
}

fn matches_at(s: &str, pat: &str, k: usize) -> (r: bool)
    requires
        k + pat@.len() <= s@.len(),
    ensures
        r == (s@.subrange(k as int, k + pat@.len()) == pat@),
{
    let n = s.unicode_len();
    let m = pat.unicode_len();
    let mut j: usize = 0;
    while j < m
        invariant
            m == pat@.len(),
            n == s@.len(),
            k + m <= s@.len(),
            j <= m,
            forall|t: int| 0 <= t < j ==> s@[k + t] == pat@[t],
        decreases m - j,
    {
        if s.get_char(k + j) != pat.get_char(j) {
            assert(s@.subrange(k as int, k + m)[j as int] != pat@[j as int]);
            return false;
        }
        j = j + 1;
    }
    assert(s@.subrange(k as int, k + m) =~= pat@);
    true
}

/// Tests whether `pat` occurs in `s` between positions `from` and `to`.
pub fn contains_within(s: &str, pat: &str, from: usize, to: usize) -> (r: bool)
    requires
        to <= s@.len(),
    ensures
        r == occurs_within(s@, pat@, from as int, to as int),
{
    let m = pat.unicode_len();
    if to < m {
        return false;
    }
    if from > to - m {
        return false;
    }
    let mut k = from;
    loop
        invariant
            m == pat@.len(),
            to <= s@.len(),
            m <= to,
            from <= k <= to - m,
            forall|t: int|
                from <= t < k ==> #[trigger] s@.subrange(t, t + m) != pat@,
        decreases to - m - k,
    {
        if matches_at(s, pat, k) {
            return true;
        }
        if k == to - m {
            assert forall|t: int| from <= t && t + m <= to implies #[trigger] s@.subrange(
                t,
                t + m,
            ) != pat@ by {
                assert(t <= k);
            }
            return false;
        }
        k = k + 1;
    }
}

} // verus!
