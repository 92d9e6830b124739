//! Finding hex-encoded data in text, and decoding it.

use regex::Regex;
use std::str::FromStr;
use vstd::prelude::*;

verus! {

pub open spec fn is_hex_digit(c: char) -> bool {
    ('0' <= c && c <= '9') || ('a' <= c && c <= 'f') || ('A' <= c && c <= 'F')
}

/// A `0x` followed by a hex digit starts at `i`.
pub open spec fn hex_literal_at(s: Seq<char>, i: int) -> bool {
    0 <= i && i + 2 < s.len() && s[i] == '0' && s[i + 1] == 'x' && is_hex_digit(s[i + 2])
}

/// The end of the run of hex digits that starts at `j`.
pub open spec fn hex_run_end(s: Seq<char>, j: int) -> int
    decreases s.len() - j,
{
    if 0 <= j < s.len() && is_hex_digit(s[j]) {
        hex_run_end(s, j + 1)
    } else {
        j
    }
}

/// The first `0x`-prefixed hex literal at or after `i`, with all the hex
/// digits that follow its prefix.
pub open spec fn first_hex_literal_from(s: Seq<char>, i: int) -> Option<Seq<char>>
    decreases s.len() - i,
{
    if i < 0 || i + 2 >= s.len() {
        None
    } else if hex_literal_at(s, i) {
        Some(s.subrange(i, hex_run_end(s, i + 2)))
    } else {
        first_hex_literal_from(s, i + 1)
    }
}

/// The leftmost match of `0x[0-9a-fA-F]+` in `s`.
pub open spec fn first_hex_literal(s: Seq<char>) -> Option<Seq<char>> {
    first_hex_literal_from(s, 0)
}

/// The pattern of a `0x`-prefixed hex literal.
pub const HEX_PATTERN: &'static str = "0x[0-9a-fA-F]+";

/// Compiles the regular expression `pattern` with `regex::Regex::new` and
/// returns the text of its leftmost match in `text` (`Regex::find`). Only the
/// hex-literal pattern is admitted. Claimed, as the crate documents leftmost-
/// first matching with greedy repetition: the match is the first `0x`
/// followed by a hex digit, with every hex digit that follows.
#[verifier::external_body]
pub(crate) fn find_hex_literal(pattern: &str, text: &str) -> (r: Option<String>)
    requires
        pattern@ == HEX_PATTERN@,
    ensures
        r is Some <==> first_hex_literal(text@) is Some,
        r matches Some(m) ==> m@ == first_hex_literal(text@).unwrap(),
{
    let re = Regex::new(pattern).expect("Regex rules valid");
    match re.find(text) {
        Some(m) => Some(m.as_str().to_owned()),
        None => None,
    }
}

proof fn lemma_hex_run_end(s: Seq<char>, k: int)
    requires
        0 <= k <= s.len(),
    ensures
        k <= hex_run_end(s, k) <= s.len(),
        forall|m: int| k <= m < hex_run_end(s, k) ==> is_hex_digit(#[trigger] s[m]),
    decreases s.len() - k,
{
    if k < s.len() && is_hex_digit(s[k]) {
        lemma_hex_run_end(s, k + 1);
    }
}

proof fn lemma_first_hex_literal_from(s: Seq<char>, i: int)
    ensures
        first_hex_literal_from(s, i) matches Some(h) ==> {
            &&& h.len() >= 3
            &&& h[0] == '0'
            &&& h[1] == 'x'
            &&& forall|m: int| 2 <= m < h.len() ==> is_hex_digit(#[trigger] h[m])
        },
    decreases s.len() - i,
{
    if i < 0 || i + 2 >= s.len() {
    } else if hex_literal_at(s, i) {
        lemma_hex_run_end(s, i + 2);
        lemma_hex_run_end(s, i + 3);
        let end = hex_run_end(s, i + 2);
        assert(end == hex_run_end(s, i + 3));
        let h = s.subrange(i, end);
        assert(h[0] == s[i] && h[1] == s[i + 1]);
        assert forall|m: int| 2 <= m < h.len() implies is_hex_digit(#[trigger] h[m]) by {
            assert(h[m] == s[i + m]);
        }
    } else {
        lemma_first_hex_literal_from(s, i + 1);
    }
}

/// The hex literal found in a text is `0x` and at least one hex digit; it
/// parses exactly when its digits are even in number, to half as many bytes.
pub proof fn lemma_hex_literal_parses(s: Seq<char>)
    ensures
        first_hex_literal(s) matches Some(h) ==> {
            &&& h.len() >= 3
            &&& hex_body(h) == h.subrange(2, h.len() as int)
            &&& hex_parses(h) <==> (h.len() - 2) % 2 == 0
            &&& hex_parses(h) ==> hex_decoded(h).len() == (h.len() - 2) / 2
        },
{
    lemma_first_hex_literal_from(s, 0);
    if let Some(h) = first_hex_literal(s) {
        let b = hex_body(h);
        assert(b == h.subrange(2, h.len() as int));
        assert forall|i: int| 0 <= i < b.len() implies is_hex_digit(#[trigger] b[i]) by {
            assert(b[i] == h[i + 2]);
        }
    }
}

/// The digits of a hex string, without a `0x` or `0X` prefix.
pub open spec fn hex_body(s: Seq<char>) -> Seq<char> {
    if s.len() >= 2 && s[0] == '0' && (s[1] == 'x' || s[1] == 'X') {
        s.subrange(2, s.len() as int)
    } else {
        s
    }
}

/// The hex string has an even length and only hex digits after its prefix.
pub open spec fn hex_parses(s: Seq<char>) -> bool {
    &&& s.len() % 2 == 0
    &&& forall|i: int| 0 <= i < hex_body(s).len() ==> is_hex_digit(#[trigger] hex_body(s)[i])
}

pub open spec fn hex_digit_value(c: char) -> int {
    if '0' <= c && c <= '9' {
        c as int - '0' as int
    } else if 'a' <= c && c <= 'f' {
        c as int - 'a' as int + 10
    } else {
        c as int - 'A' as int + 10
    }
}

/// The bytes that the hex string stands for, two digits a byte, high digit
/// first.
pub open spec fn hex_decoded(s: Seq<char>) -> Seq<u8> {
    let b = hex_body(s);
    Seq::new(
        (b.len() / 2) as nat,
        |i: int| (hex_digit_value(b[2 * i]) * 16 + hex_digit_value(b[2 * i + 1])) as u8,
    )
}

/// The `Debug` text of the error with which ethers' `Bytes::from_str`
/// refuses the string.
pub uninterp spec fn bytes_parse_error_text(s: Seq<char>) -> Seq<char>;

/// Parses a hex string with `ethers::types::Bytes::from_str`. Claimed, as
/// its source shows: it succeeds exactly when the string has an even length
/// and only hex digits after an optional `0x`/`0X`, and then gives the bytes
/// the digits stand for; otherwise it gives the `Debug` text of its error,
/// the name `bytes_parse_error_text` of the string.
#[verifier::external_body]
pub(crate) fn parse_hex_bytes(s: &str) -> (r: Result<Vec<u8>, String>)
    ensures
        r is Ok <==> hex_parses(s@),
        r matches Ok(b) ==> b@ == hex_decoded(s@),
        r matches Err(t) ==> t@ == bytes_parse_error_text(s@),
{
    match ethers::types::Bytes::from_str(s) {
        Ok(b) => Ok(b.to_vec()),
        Err(e) => Err(format!("{e:?}")),
    }
}

} // verus!
