//! Byte-level encoding helpers shared by the transforms and the
//! coordinator: little-endian integer extraction, lowercase hex
//! encoding, ASCII trimming and case normalization, and the
//! withdrawal-address shape check.

use vstd::prelude::*;

verus! {

/// The lowercase hex digit for a nibble below 16.
pub open spec fn hex_digit(n: u8) -> u8
    recommends
        n < 16,
{
    if n < 10 {
        (48 + n) as u8
    } else {
        (87 + n) as u8
    }
}

/// Lowercase hex encoding of a byte sequence: two digits per byte,
/// high nibble first.
pub open spec fn hex_bytes_of(data: Seq<u8>) -> Seq<u8> {
    Seq::new(
        data.len() * 2,
        |i: int|
            if i % 2 == 0 {
                hex_digit(data[i / 2] / 16)
            } else {
                hex_digit((data[i / 2] % 16) as u8)
            },
    )
}

/// Relies on hex::encode: each input byte becomes two lowercase hex
/// digits, high nibble first; the digits are returned as ASCII bytes.
#[verifier::external_body]
pub fn hex_encode(data: &[u8]) -> (r: Vec<u8>)
    ensures
        r@ == hex_bytes_of(data@),
{
    hex::encode(data).into_bytes()
}

/// A byte counts as blank for trimming purposes: space, tab,
/// line feed, or carriage return.
pub open spec fn is_blank_byte(b: u8) -> bool {
    b == 32 || b == 9 || b == 10 || b == 13
}

/// The number of leading blank bytes of a sequence.
pub open spec fn leading_blanks(s: Seq<u8>) -> int
    decreases s.len(),
{
    if s.len() == 0 {
        0
    } else if is_blank_byte(s[0]) {
        1 + leading_blanks(s.skip(1))
    } else {
        0
    }
}

/// The number of trailing blank bytes of a sequence.
pub open spec fn trailing_blanks(s: Seq<u8>) -> int
    decreases s.len(),
{
    if s.len() == 0 {
        0
    } else if is_blank_byte(s[s.len() - 1]) {
        1 + trailing_blanks(s.take(s.len() - 1))
    } else {
        0
    }
}

/// A sequence with leading and trailing blank bytes removed.
pub open spec fn trim_spec(s: Seq<u8>) -> Seq<u8> {
    let lead = leading_blanks(s);
    let rest = s.skip(lead);
    rest.take(rest.len() - trailing_blanks(rest))
}

/// ASCII uppercase of one byte: lowercase letters are shifted, all
/// other bytes are unchanged.
pub open spec fn upper_byte(b: u8) -> u8 {
    if 97 <= b && b <= 122 {
        (b - 32) as u8
    } else {
        b
    }
}

/// ASCII uppercase of a byte sequence.
pub open spec fn upper_spec(s: Seq<u8>) -> Seq<u8> {
    s.map_values(|b: u8| upper_byte(b))
}

proof fn lemma_leading_blanks_bounds(s: Seq<u8>)
    ensures
        0 <= leading_blanks(s) <= s.len(),
        forall|i: int| 0 <= i < leading_blanks(s) ==> is_blank_byte(s[i]),
        leading_blanks(s) < s.len() ==> !is_blank_byte(s[leading_blanks(s)]),
    decreases s.len(),
{
    if s.len() != 0 && is_blank_byte(s[0]) {
        let rest = s.skip(1);
        lemma_leading_blanks_bounds(rest);
        assert forall|i: int| 0 <= i < leading_blanks(s) implies is_blank_byte(s[i]) by {
            if i > 0 {
                assert(s[i] == rest[i - 1]);
            }
        }
        if leading_blanks(s) < s.len() {
            assert(s[leading_blanks(s)] == rest[leading_blanks(rest)]);
        }
    }
}

proof fn lemma_trailing_blanks_bounds(s: Seq<u8>)
    ensures
        0 <= trailing_blanks(s) <= s.len(),
        forall|i: int| s.len() - trailing_blanks(s) <= i < s.len() ==> is_blank_byte(s[i]),
        trailing_blanks(s) < s.len() ==> !is_blank_byte(s[s.len() - trailing_blanks(s) - 1]),
    decreases s.len(),
{
    if s.len() != 0 && is_blank_byte(s[s.len() - 1]) {
        let rest = s.take(s.len() - 1);
        lemma_trailing_blanks_bounds(rest);
        assert forall|i: int| s.len() - trailing_blanks(s) <= i < s.len() implies is_blank_byte(
            s[i],
        ) by {
            if i < s.len() - 1 {
                assert(s[i] == rest[i]);
            }
        }
        if trailing_blanks(s) < s.len() {
            assert(s[s.len() - trailing_blanks(s) - 1] == rest[rest.len() - trailing_blanks(rest)
                - 1]);
        }
    }
}

/// Remove leading and trailing blank bytes.
pub fn trim_bytes(s: &Vec<u8>) -> (r: Vec<u8>)
    ensures
        r@ == trim_spec(s@),
{
    proof {
        lemma_leading_blanks_bounds(s@);
    }
    let mut start: usize = 0;
    while start < s.len() && is_blank(s[start])
        invariant
            0 <= start <= s@.len(),
            start <= leading_blanks(s@),
            forall|i: int| 0 <= i < start ==> is_blank_byte(s@[i]),
        decreases s@.len() - start,
    {
        proof {
            lemma_leading_blanks_skip_prefix(s@, start as int);
        }
        start = start + 1;
    }
    proof {
        lemma_leading_blanks_bounds(s@);
        if start < s@.len() {
            lemma_leading_blanks_is_first_nonblank(s@, start as int);
        }
    }
    let mut end: usize = s.len();
    let ghost rest = s@.skip(start as int);
    proof {
        lemma_trailing_blanks_bounds(rest);
    }
    while end > start && is_blank(s[end - 1])
        invariant
            start <= end <= s@.len(),
            start == leading_blanks(s@),
            rest == s@.skip(start as int),
            (end - start) >= rest.len() - trailing_blanks(rest),
            forall|i: int| end <= i < s@.len() ==> is_blank_byte(s@[i]),
        decreases end,
    {
        proof {
            lemma_trailing_blanks_take_suffix(rest, end - 1 - start as int);
        }
        end = end - 1;
    }
    proof {
        lemma_trailing_blanks_bounds(rest);
        if end > start {
            lemma_trailing_blanks_is_last_nonblank(rest, end - start as int);
        }
    }
    let mut r: Vec<u8> = Vec::new();
    let mut i: usize = start;
    while i < end
        invariant
            start <= i <= end <= s@.len(),
            r@ == s@.subrange(start as int, i as int),
        decreases end - i,
    {
        r.push(s[i]);
        assert(r@ == s@.subrange(start as int, i + 1));
        i = i + 1;
    }
    proof {
        let lead = leading_blanks(s@);
        let trail = trailing_blanks(rest);
        assert(r@ == s@.subrange(start as int, end as int));
        assert(trim_spec(s@) == rest.take(rest.len() - trail));
        assert(s@.subrange(start as int, end as int) =~= rest.take(rest.len() - trail));
    }
    r
}

/// One blank byte, decided at run time.
pub fn is_blank(b: u8) -> (r: bool)
    ensures
        r == is_blank_byte(b),
{
    b == 32 || b == 9 || b == 10 || b == 13
}

proof fn lemma_leading_blanks_skip_prefix(s: Seq<u8>, k: int)
    requires
        0 <= k < s.len(),
        forall|i: int| 0 <= i < k ==> is_blank_byte(s[i]),
        is_blank_byte(s[k]),
        k <= leading_blanks(s),
    ensures
        k + 1 <= leading_blanks(s),
    decreases k,
{
    lemma_leading_blanks_bounds(s);
    if leading_blanks(s) <= k {
        assert(!is_blank_byte(s[leading_blanks(s)]));
    }
}

proof fn lemma_leading_blanks_is_first_nonblank(s: Seq<u8>, k: int)
    requires
        0 <= k < s.len(),
        forall|i: int| 0 <= i < k ==> is_blank_byte(s[i]),
        !is_blank_byte(s[k]),
        k <= leading_blanks(s),
    ensures
        leading_blanks(s) == k,
{
    lemma_leading_blanks_bounds(s);
    if k < leading_blanks(s) {
        assert(is_blank_byte(s[k]));
    }
}

proof fn lemma_trailing_blanks_take_suffix(s: Seq<u8>, k: int)
    requires
        0 <= k < s.len(),
        forall|i: int| k < i < s.len() ==> is_blank_byte(s[i]),
        is_blank_byte(s[k]),
        s.len() - trailing_blanks(s) <= k + 1,
    ensures
        s.len() - trailing_blanks(s) <= k,
{
    lemma_trailing_blanks_bounds(s);
    if s.len() - trailing_blanks(s) > k {
        assert(!is_blank_byte(s[s.len() - trailing_blanks(s) - 1]));
    }
}

proof fn lemma_trailing_blanks_is_last_nonblank(s: Seq<u8>, k: int)
    requires
        0 < k <= s.len(),
        forall|i: int| k <= i < s.len() ==> is_blank_byte(s[i]),
        !is_blank_byte(s[k - 1]),
        s.len() - trailing_blanks(s) <= k,
    ensures
        s.len() - trailing_blanks(s) == k,
{
    lemma_trailing_blanks_bounds(s);
    if s.len() - trailing_blanks(s) < k {
        assert(is_blank_byte(s[k - 1]));
    }
}

/// A confidential payload carries its plaintext integer in its first
/// eight bytes, little endian; shorter payloads carry none.
pub fn extract_u64_from_bytes(bytes: &Vec<u8>) -> (r: Option<u64>)
    ensures
        bytes@.len() >= 8 ==> r == Some(
            vstd::bytes::spec_u64_from_le_bytes(bytes@.subrange(0, 8)),
        ),
        bytes@.len() < 8 ==> r is None,
{
    if bytes.len() < 8 {
        return None;
    }
    let head = vstd::slice::slice_subrange(bytes.as_slice(), 0, 8);
    Some(vstd::bytes::u64_from_le_bytes(head))
}

/// A well-formed withdrawal address: between 26 and 62 bytes long,
/// with no embedded whitespace.
pub open spec fn spec_valid_btc_address(s: Seq<u8>) -> bool {
    26 <= s.len() <= 62 && forall|i: int| 0 <= i < s.len() ==> !is_blank_byte(s[i])
}

/// Check an address against the withdrawal-address shape rules.
pub fn is_valid_btc_address(address: &Vec<u8>) -> (r: bool)
    ensures
        r == spec_valid_btc_address(address@),
{
    if address.len() < 26 || address.len() > 62 {
        return false;
    }
    let mut i: usize = 0;
    while i < address.len()
        invariant
            0 <= i <= address@.len(),
            forall|j: int| 0 <= j < i ==> !is_blank_byte(address@[j]),
        decreases address@.len() - i,
    {
        if is_blank(address[i]) {
            return false;
        }
        i = i + 1;
    }
    true
}

/// Map a byte vector to ASCII uppercase.
pub fn to_upper_bytes(s: &Vec<u8>) -> (r: Vec<u8>)
    ensures
        r@ == upper_spec(s@),
{
    let mut r: Vec<u8> = Vec::new();
    let mut i: usize = 0;
    while i < s.len()
        invariant
            0 <= i <= s@.len(),
            r@.len() == i,
            forall|j: int| 0 <= j < i ==> r@[j] == upper_byte(s@[j]),
        decreases s@.len() - i,
    {
        let b = s[i];
        if 97 <= b && b <= 122 {
            r.push(b - 32);
        } else {
            r.push(b);
        }
        i = i + 1;
    }
    proof {
        assert(r@ =~= upper_spec(s@));
    }
    r
}

} // verus!
