//! ISIN <-> ticker resolution.
//!
//! An ISIN is resolved to a Yahoo ticker by a Yahoo search for the ISIN, whose
//! first quote symbol is taken. The reverse lookup searches Business
//! Insider's suggest endpoint for the ticker's short name and extracts the
//! ISIN embedded in the reply. This module holds the decisions and the text
//! processing of both; the requests themselves are made by the caller.

use vstd::prelude::*;
use vstd::utf8::{
    char_is_scalar, encode_scalar, has_width_1_encoding, has_width_2_encoding,
    has_width_3_encoding, last_continuation_byte, leading_byte_width_1, leading_byte_width_2,
    leading_byte_width_3, leading_byte_width_4, second_last_continuation_byte,
    third_last_continuation_byte,
};

use crate::error::YfError;
use crate::mic::{is_isin, isin_shape};
use crate::text::{
    chars_vec, find, find_chars, lemma_find_from_bounds, push_str, stop_index, str_eq,
    string_from_chars, take_until_either,
};

verus! {

// ---------------------------------------------------------------------------
// Percent-encoding of query parameters
// ---------------------------------------------------------------------------

/// Characters passed through unencoded: ASCII letters and digits, `-`, `_`,
/// `.` and `~`.
pub open spec fn is_unreserved(c: char) -> bool {
    ('A' <= c <= 'Z') || ('a' <= c <= 'z') || ('0' <= c <= '9') || c == '-' || c == '_' || c
        == '.' || c == '~'
}

/// Uppercase hexadecimal digit of `n < 16`.
pub open spec fn hex_upper(n: u8) -> char {
    if n < 10 {
        (('0' as u8) + n) as char
    } else {
        (('A' as u8) + n - 10) as char
    }
}

/// `%XX`, the uppercase percent-escape of one byte.
pub open spec fn pct_byte(b: u8) -> Seq<char> {
    seq!['%', hex_upper(b / 16), hex_upper(b % 16)]
}

/// The percent-escapes of a byte sequence, in order.
pub open spec fn pct_bytes(bs: Seq<u8>) -> Seq<char>
    decreases bs.len(),
{
    if bs.len() == 0 {
        seq![]
    } else {
        pct_bytes(bs.drop_last()) + pct_byte(bs.last())
    }
}

/// The encoding of one character: unreserved characters stand for
/// themselves, a space becomes `%20`, any other character becomes the
/// percent-escapes of its UTF-8 bytes.
pub open spec fn encode_char(c: char) -> Seq<char> {
    if is_unreserved(c) {
        seq![c]
    } else if c == ' ' {
        seq!['%', '2', '0']
    } else {
        pct_bytes(encode_scalar(c as u32))
    }
}

/// The percent-encoding of a whole string: the encodings of its characters,
/// concatenated in order.
pub open spec fn percent_encoded(s: Seq<char>) -> Seq<char>
    decreases s.len(),
{
    if s.len() == 0 {
        seq![]
    } else {
        percent_encoded(s.drop_last()) + encode_char(s.last())
    }
}

fn hex_digit(n: u8) -> (c: char)
    requires
        n < 16,
    ensures
        c == hex_upper(n),
{
    if n < 10 {
        (('0' as u8) + n) as char
    } else {
        (('A' as u8) + n - 10) as char
    }
}

/// The UTF-8 bytes of one character.
fn utf8_bytes(c: char) -> (bs: Vec<u8>)
    ensures
        bs@ == encode_scalar(c as u32),
{
    broadcast use char_is_scalar;

    let v: u32 = c as u32;
    let mut bs: Vec<u8> = Vec::new();
    if v <= 0x7F {
        bs.push((v & 0x7F) as u8);
        assert(bs@ =~= seq![leading_byte_width_1(v)]);
    } else if v <= 0x7FF {
        bs.push(0xC0u8 | ((v >> 6) & 0x1F) as u8);
        bs.push(0x80u8 | (v & 0x3F) as u8);
        assert(has_width_2_encoding(v));
        assert(bs@ =~= seq![leading_byte_width_2(v), last_continuation_byte(v)]);
    } else if v <= 0xFFFF {
        bs.push(0xE0u8 | ((v >> 12) & 0x0F) as u8);
        bs.push(0x80u8 | ((v >> 6) & 0x3F) as u8);
        bs.push(0x80u8 | (v & 0x3F) as u8);
        assert(has_width_3_encoding(v));
        assert(bs@ =~= seq![
            leading_byte_width_3(v),
            second_last_continuation_byte(v),
            last_continuation_byte(v),
        ]);
    } else {
        bs.push(0xF0u8 | ((v >> 18) & 0x7) as u8);
        bs.push(0x80u8 | ((v >> 12) & 0x3F) as u8);
        bs.push(0x80u8 | ((v >> 6) & 0x3F) as u8);
        bs.push(0x80u8 | (v & 0x3F) as u8);
        assert(!has_width_1_encoding(v) && !has_width_2_encoding(v) && !has_width_3_encoding(v));
        assert(bs@ =~= seq![
            leading_byte_width_4(v),
            third_last_continuation_byte(v),
            second_last_continuation_byte(v),
            last_continuation_byte(v),
        ]);
    }
    bs
}

/// Appends the encoding of `c` to `out`.
fn push_encoded_char(out: &mut Vec<char>, c: char)
    ensures
        final(out)@ == old(out)@ + encode_char(c),
{
    if ('A' <= c && c <= 'Z') || ('a' <= c && c <= 'z') || ('0' <= c && c <= '9') || c == '-'
        || c == '_' || c == '.' || c == '~' {
        out.push(c);
    } else if c == ' ' {
        out.push('%');
        out.push('2');
        out.push('0');
        assert(out@ =~= old(out)@ + seq!['%', '2', '0']);
    } else {
        let bs = utf8_bytes(c);
        let mut i: usize = 0;
        while i < bs.len()
            invariant
                i <= bs@.len(),
                bs@ == encode_scalar(c as u32),
                out@ == old(out)@ + pct_bytes(bs@.take(i as int)),
            decreases bs@.len() - i,
        {
            let b = bs[i];
            out.push('%');
            out.push(hex_digit(b / 16));
            out.push(hex_digit(b % 16));
            i = i + 1;
            assert(bs@.take(i as int).drop_last() =~= bs@.take(i - 1));
            assert(out@ =~= old(out)@ + pct_bytes(bs@.take(i as int)));
        }
        assert(bs@.take(bs@.len() as int) =~= bs@);
    }
}

/// Minimal percent-encoding for query parameters: ASCII letters, digits and
/// `-_.~` pass through, a space becomes `%20`, every other character becomes
/// the `%XX` escapes (uppercase hex) of its UTF-8 bytes.
pub fn encode_query(s: &str) -> (r: String)
    ensures
        r@ == percent_encoded(s@),
{
    let cs = chars_vec(s);
    let mut out: Vec<char> = Vec::new();
    let mut i: usize = 0;
    while i < cs.len()
        invariant
            i <= cs@.len(),
            cs@ == s@,
            out@ == percent_encoded(s@.take(i as int)),
        decreases cs@.len() - i,
    {
        push_encoded_char(&mut out, cs[i]);
        i = i + 1;
        assert(s@.take(i as int).drop_last() =~= s@.take(i - 1));
    }
    assert(s@.take(cs@.len() as int) =~= s@);
    string_from_chars(out.as_slice())
}

/// Percent-encoding distributes over concatenation: encoding `a + b` is
/// encoding `a` followed by encoding `b`.
pub proof fn percent_encoded_concat(a: Seq<char>, b: Seq<char>)
    ensures
        percent_encoded(a + b) == percent_encoded(a) + percent_encoded(b),
    decreases b.len(),
{
    if b.len() == 0 {
        assert(a + b =~= a);
    } else {
        assert((a + b).drop_last() =~= a + b.drop_last());
        assert((a + b).last() == b.last());
        percent_encoded_concat(a, b.drop_last());
    }
}

/// A string made only of unreserved characters is its own encoding.
pub proof fn percent_encoded_unreserved_identity(s: Seq<char>)
    requires
        forall|i: int| 0 <= i < s.len() ==> is_unreserved(#[trigger] s[i]),
    ensures
        percent_encoded(s) == s,
    decreases s.len(),
{
    if s.len() > 0 {
        percent_encoded_unreserved_identity(s.drop_last());
        assert(s.drop_last() + seq![s.last()] =~= s);
    }
}

/// An uppercase hexadecimal digit.
pub open spec fn is_upper_hex(c: char) -> bool {
    ('0' <= c <= '9') || ('A' <= c <= 'F')
}

/// A hexadecimal digit of either case.
pub open spec fn is_hex_digit(c: char) -> bool {
    is_upper_hex(c) || ('a' <= c <= 'f')
}

/// The value of a hexadecimal digit.
pub open spec fn hex_value(c: char) -> int {
    if '0' <= c <= '9' {
        c as int - '0' as int
    } else if 'A' <= c <= 'F' {
        c as int - 'A' as int + 10
    } else {
        c as int - 'a' as int + 10
    }
}

/// Percent-decoding into bytes: `%` followed by two hexadecimal digits
/// stands for the byte they spell, any other character for its UTF-8 bytes.
pub open spec fn percent_decoded(t: Seq<char>) -> Seq<u8>
    decreases t.len(),
{
    if t.len() == 0 {
        seq![]
    } else if t.len() >= 3 && t[0] == '%' && is_hex_digit(t[1]) && is_hex_digit(t[2]) {
        seq![(hex_value(t[1]) * 16 + hex_value(t[2])) as u8] + percent_decoded(t.skip(3))
    } else {
        encode_scalar(t[0] as u32) + percent_decoded(t.skip(1))
    }
}

/// Text in the alphabet of the encoding: unreserved characters, and `%`
/// each followed by two uppercase hexadecimal digits.
pub open spec fn is_encoded_text(t: Seq<char>) -> bool
    decreases t.len(),
{
    if t.len() == 0 {
        true
    } else if t[0] == '%' {
        t.len() >= 3 && is_upper_hex(t[1]) && is_upper_hex(t[2]) && is_encoded_text(t.skip(3))
    } else {
        is_unreserved(t[0]) && is_encoded_text(t.skip(1))
    }
}

proof fn lemma_hex_upper(n: u8)
    requires
        n < 16,
    ensures
        is_upper_hex(hex_upper(n)),
        is_hex_digit(hex_upper(n)),
        hex_value(hex_upper(n)) == n,
{
}

proof fn lemma_pct_bytes_concat(a: Seq<u8>, b: Seq<u8>)
    ensures
        pct_bytes(a + b) == pct_bytes(a) + pct_bytes(b),
    decreases b.len(),
{
    if b.len() == 0 {
        assert(a + b =~= a);
        assert(pct_bytes(a) + pct_bytes(b) =~= pct_bytes(a));
    } else {
        assert((a + b).drop_last() =~= a + b.drop_last());
        assert((a + b).last() == b.last());
        lemma_pct_bytes_concat(a, b.drop_last());
        assert(pct_bytes(a) + pct_bytes(b.drop_last()) + pct_byte(b.last()) =~= pct_bytes(a) + (
        pct_bytes(b.drop_last()) + pct_byte(b.last())));
    }
}

proof fn lemma_pct_bytes_first(bs: Seq<u8>)
    requires
        bs.len() > 0,
    ensures
        pct_bytes(bs) == pct_byte(bs[0]) + pct_bytes(bs.drop_first()),
{
    lemma_pct_bytes_concat(seq![bs[0]], bs.drop_first());
    assert(seq![bs[0]] + bs.drop_first() =~= bs);
    assert(seq![bs[0]].drop_last() =~= Seq::<u8>::empty());
    reveal_with_fuel(pct_bytes, 2);
    assert(pct_bytes(seq![bs[0]]) =~= pct_byte(bs[0]));
}

proof fn lemma_decode_pct_byte(b: u8, rest: Seq<char>)
    ensures
        percent_decoded(pct_byte(b) + rest) == seq![b] + percent_decoded(rest),
{
    lemma_hex_upper(b / 16);
    lemma_hex_upper(b % 16);
    let t = pct_byte(b) + rest;
    assert(t[0] == '%');
    assert(t[1] == hex_upper(b / 16));
    assert(t[2] == hex_upper(b % 16));
    assert(t.skip(3) =~= rest);
    assert((b / 16) as int * 16 + (b % 16) as int == b);
}

proof fn lemma_decode_pct_bytes(bs: Seq<u8>, rest: Seq<char>)
    ensures
        percent_decoded(pct_bytes(bs) + rest) == bs + percent_decoded(rest),
    decreases bs.len(),
{
    if bs.len() == 0 {
        assert(pct_bytes(bs) + rest =~= rest);
        assert(bs + percent_decoded(rest) =~= percent_decoded(rest));
    } else {
        lemma_pct_bytes_first(bs);
        assert(pct_bytes(bs) + rest =~= pct_byte(bs[0]) + (pct_bytes(bs.drop_first()) + rest));
        lemma_decode_pct_byte(bs[0], pct_bytes(bs.drop_first()) + rest);
        lemma_decode_pct_bytes(bs.drop_first(), rest);
        assert(seq![bs[0]] + (bs.drop_first() + percent_decoded(rest)) =~= bs + percent_decoded(
            rest,
        ));
    }
}

/// Decoding the encoding of one character, followed by anything, gives the
/// character's UTF-8 bytes followed by the decoding of the rest.
pub proof fn lemma_decode_encode_char(c: char, rest: Seq<char>)
    ensures
        percent_decoded(encode_char(c) + rest) == encode_scalar(c as u32) + percent_decoded(rest),
{
    if is_unreserved(c) {
        let t = seq![c] + rest;
        assert(t[0] == c);
        assert(t.skip(1) =~= rest);
    } else if c == ' ' {
        let t = seq!['%', '2', '0'] + rest;
        assert(t[0] == '%' && t[1] == '2' && t[2] == '0');
        assert(t.skip(3) =~= rest);
        assert(leading_byte_width_1(32u32) == 32u8) by (bit_vector);
        assert(encode_scalar(c as u32) =~= seq![32u8]);
    } else {
        lemma_decode_pct_bytes(encode_scalar(c as u32), rest);
    }
}

/// The first character's encoding comes first.
pub proof fn lemma_percent_encoded_first(s: Seq<char>)
    requires
        s.len() > 0,
    ensures
        percent_encoded(s) == encode_char(s[0]) + percent_encoded(s.drop_first()),
{
    percent_encoded_concat(seq![s[0]], s.drop_first());
    assert(seq![s[0]] + s.drop_first() =~= s);
    assert(seq![s[0]].drop_last() =~= Seq::<char>::empty());
    reveal_with_fuel(percent_encoded, 2);
    assert(percent_encoded(seq![s[0]]) =~= encode_char(s[0]));
}

proof fn lemma_encoded_text_concat(a: Seq<char>, b: Seq<char>)
    requires
        is_encoded_text(a),
        is_encoded_text(b),
    ensures
        is_encoded_text(a + b),
    decreases a.len(),
{
    if a.len() == 0 {
        assert(a + b =~= b);
    } else if a[0] == '%' {
        lemma_encoded_text_concat(a.skip(3), b);
        assert((a + b).skip(3) =~= a.skip(3) + b);
    } else {
        lemma_encoded_text_concat(a.skip(1), b);
        assert((a + b).skip(1) =~= a.skip(1) + b);
    }
}

proof fn lemma_pct_bytes_encoded_text(bs: Seq<u8>)
    ensures
        is_encoded_text(pct_bytes(bs)),
    decreases bs.len(),
{
    if bs.len() > 0 {
        lemma_pct_bytes_encoded_text(bs.drop_last());
        let b = bs.last();
        lemma_hex_upper(b / 16);
        lemma_hex_upper(b % 16);
        let t = pct_byte(b);
        assert(t.skip(3) =~= Seq::<char>::empty());
        reveal_with_fuel(is_encoded_text, 2);
        assert(is_encoded_text(t));
        lemma_encoded_text_concat(pct_bytes(bs.drop_last()), t);
    }
}

/// The encoding of any character is in the encoded alphabet.
pub proof fn lemma_encode_char_encoded_text(c: char)
    ensures
        is_encoded_text(encode_char(c)),
{
    reveal_with_fuel(is_encoded_text, 2);
    if is_unreserved(c) {
        assert(seq![c].skip(1) =~= Seq::<char>::empty());
    } else if c == ' ' {
        assert(seq!['%', '2', '0'].skip(3) =~= Seq::<char>::empty());
    } else {
        lemma_pct_bytes_encoded_text(encode_scalar(c as u32));
    }
}

/// The encoding of any text is in the encoded alphabet.
pub proof fn lemma_percent_encoded_text(s: Seq<char>)
    ensures
        is_encoded_text(percent_encoded(s)),
    decreases s.len(),
{
    if s.len() > 0 {
        lemma_percent_encoded_text(s.drop_last());
        lemma_encode_char_encoded_text(s.last());
        lemma_encoded_text_concat(percent_encoded(s.drop_last()), encode_char(s.last()));
    }
}

// ---------------------------------------------------------------------------
// ISIN -> ticker
// ---------------------------------------------------------------------------

/// `"Invalid ISIN number: " + isin`.
pub open spec fn invalid_isin_message(isin: Seq<char>) -> Seq<char> {
    "Invalid ISIN number: "@ + isin
}

fn invalid_isin(isin: &str) -> (e: YfError)
    ensures
        e matches YfError::Msg(m) && m@ == invalid_isin_message(isin@),
{
    let mut m: Vec<char> = Vec::new();
    push_str(&mut m, "Invalid ISIN number: ");
    push_str(&mut m, isin);
    YfError::Msg(string_from_chars(m.as_slice()))
}

/// The first step of resolving an ISIN: a malformed ISIN is refused before
/// any cache lookup or search.
pub fn validate_isin(isin: &str) -> (r: Result<(), YfError>)
    ensures
        r is Ok <==> isin_shape(isin@),
        r matches Err(e) ==> (e matches YfError::Msg(m) && m@ == invalid_isin_message(isin@)),
{
    if is_isin(isin) {
        Ok(())
    } else {
        Err(invalid_isin(isin))
    }
}

/// The ticker an ISIN resolves to, given the symbol of the first quote that a
/// Yahoo search for the ISIN returned (`None` when it returned no quote or a
/// quote without a symbol): that symbol, unless it is absent or empty, in
/// which case the ISIN is reported invalid.
pub fn isin_ticker_from_search(isin: &str, first_symbol: Option<String>) -> (r: Result<
    String,
    YfError,
>)
    ensures
        r matches Ok(t) ==> first_symbol == Some(t) && t@.len() > 0,
        r is Err <==> (first_symbol is None || first_symbol->0@.len() == 0),
        r matches Err(e) ==> (e matches YfError::Msg(m) && m@ == invalid_isin_message(isin@)),
{
    match first_symbol {
        Some(t) => {
            if t.as_str().is_empty() {
                Err(invalid_isin(isin))
            } else {
                Ok(t)
            }
        },
        None => Err(invalid_isin(isin)),
    }
}

// ---------------------------------------------------------------------------
// ticker -> ISIN
// ---------------------------------------------------------------------------

/// Indicators and indices (symbols holding `-` or `^`) have no ISIN.
pub open spec fn has_no_isin(ticker: Seq<char>) -> bool {
    ticker.contains('-') || ticker.contains('^')
}

/// True for symbols that have no ISIN: those holding `-` or `^`. The reverse
/// lookup answers `"-"` for them without a request.
pub fn ticker_has_no_isin(ticker: &str) -> (r: bool)
    ensures
        r == has_no_isin(ticker@),
{
    let cs = chars_vec(ticker);
    let mut i: usize = 0;
    while i < cs.len()
        invariant
            i <= cs@.len(),
            cs@ == ticker@,
            forall|j: int| 0 <= j < i ==> cs@[j] != '-' && cs@[j] != '^',
        decreases cs@.len() - i,
    {
        if cs[i] == '-' || cs[i] == '^' {
            assert(ticker@[i as int] == cs@[i as int]);
            return true;
        }
        i = i + 1;
    }
    false
}

/// The text searched for in the reverse lookup: the ticker's short name when
/// it is known and non-empty, the ticker otherwise.
pub fn isin_query_text(ticker: &str, short_name: Option<String>) -> (q: String)
    ensures
        q@ == (match short_name {
            Some(n) => if n@.len() > 0 {
                n@
            } else {
                ticker@
            },
            None => ticker@,
        }),
{
    match short_name {
        Some(n) => {
            if n.as_str().is_empty() {
                ticker.to_owned()
            } else {
                n
            }
        },
        None => ticker.to_owned(),
    }
}

/// Query parameters of the reverse-lookup request: at most 25 results, for
/// the percent-encoded query text.
pub fn isin_suggest_params(q: &str) -> (p: Vec<(String, String)>)
    ensures
        p@.len() == 2,
        p@[0].0@ == "max_results"@ && p@[0].1@ == "25"@,
        p@[1].0@ == "query"@ && p@[1].1@ == percent_encoded(q@),
{
    let mut p: Vec<(String, String)> = Vec::new();
    p.push(("max_results".to_owned(), "25".to_owned()));
    p.push(("query".to_owned(), encode_query(q)));
    p
}

/// The lowercase form of a string, as `str::to_lowercase` computes it.
pub uninterp spec fn unicode_lowercase(s: Seq<char>) -> Seq<char>;

/// Wraps `str::to_lowercase`: the result is named by [`unicode_lowercase`];
/// how Unicode case mapping works is not stated here.
#[verifier::external_body]
fn to_lowercase(s: &str) -> (r: String)
    ensures
        r@ == unicode_lowercase(s@),
{
    s.to_lowercase()
}

/// The anchor after which the ISIN is read in a suggest reply: `"TICKER|`
/// when the reply holds it; otherwise, when the reply mentions the query text
/// (compared in lowercase), a bare `"|` if the reply holds one.
pub open spec fn suggest_anchor(data: Seq<char>, ticker: Seq<char>, q: Seq<char>) -> Option<
    Seq<char>,
> {
    let first = seq!['"'] + ticker + seq!['|'];
    if find(data, first) is Some {
        Some(first)
    } else if find(unicode_lowercase(data), unicode_lowercase(q)) is Some {
        if find(data, seq!['"', '|']) is Some {
            Some(seq!['"', '|'])
        } else {
            None
        }
    } else {
        None
    }
}

/// The ISIN read from a suggest reply: the text after the first occurrence of
/// the anchor, up to the next `"` or `|`; `"-"` when there is no anchor or
/// that text is empty.
pub open spec fn isin_in_suggest(data: Seq<char>, ticker: Seq<char>, q: Seq<char>) -> Seq<char> {
    match suggest_anchor(data, ticker, q) {
        None => seq!['-'],
        Some(a) => {
            let start = find(data, a)->0 + a.len();
            let isin = data.subrange(start, stop_index(data, '"', '|', start));
            if isin.len() == 0 {
                seq!['-']
            } else {
                isin
            }
        },
    }
}

/// Extract the ISIN for `ticker` from the text of a suggest reply; `q` is the
/// text that was searched for.
pub fn isin_from_suggest(data: &str, ticker: &str, q: &str) -> (isin: String)
    ensures
        isin@ == isin_in_suggest(data@, ticker@, q@),
{
    let d = chars_vec(data);
    let mut first: Vec<char> = Vec::new();
    first.push('"');
    push_str(&mut first, ticker);
    first.push('|');
    assert(first@ == seq!['"'] + ticker@ + seq!['|']);
    let mut anchor = first;
    let found = find_chars(d.as_slice(), anchor.as_slice());
    let pos: usize;
    match found {
        Some(p) => {
            pos = p;
        },
        None => {
            let dl = chars_vec(to_lowercase(data).as_str());
            let ql = chars_vec(to_lowercase(q).as_str());
            if find_chars(dl.as_slice(), ql.as_slice()).is_none() {
                return string_from_chars(&['-']);
            }
            let mut bare: Vec<char> = Vec::new();
            bare.push('"');
            bare.push('|');
            assert(bare@ == seq!['"', '|']);
            match find_chars(d.as_slice(), bare.as_slice()) {
                Some(p) => {
                    pos = p;
                    anchor = bare;
                },
                None => {
                    return string_from_chars(&['-']);
                },
            }
        },
    }
    assert(find(d@, anchor@) == Some(pos as int));
    proof {
        lemma_find_from_bounds(d@, anchor@, 0);
    }
    let dn = d.len();
    assert(pos + anchor.len() <= dn);
    let start = pos + anchor.len();
    let isin = take_until_either(d.as_slice(), start, '"', '|');
    if isin.len() == 0 {
        string_from_chars(&['-'])
    } else {
        string_from_chars(isin.as_slice())
    }
}

} // verus!
