//! Market Identifier Code (MIC) to Yahoo Finance suffix mapping, and ISIN
//! detection.
//!
//! A `(symbol, MIC)` pair or a bare ISIN are two of the ways a security can be
//! addressed besides its Yahoo symbol.

use vstd::prelude::*;

use crate::error::YfError;
use crate::text::{
    ascii_uppercase, chars_eq_ignore_ascii_case, chars_vec, eq_ignore_ascii_case, is_ascii_digit,
    is_ascii_upper, push_str, string_from_chars, to_ascii_uppercase,
};

verus! {

/// Market Identifier Code -> Yahoo Finance exchange suffix. An empty suffix
/// means the symbol carries no suffix on Yahoo (US primary exchanges
/// `XNYS`/`XNAS`).
pub open spec fn mic_table() -> Seq<(Seq<char>, Seq<char>)> {
    seq![
        ("XCBT"@, "CBT"@),
        ("XCME"@, "CME"@),
        ("IFUS"@, "NYB"@),
        ("CECS"@, "CMX"@),
        ("XNYM"@, "NYM"@),
        ("XNYS"@, ""@),
        ("XNAS"@, ""@),
        ("XBUE"@, "BA"@),
        ("XVIE"@, "VI"@),
        ("XASX"@, "AX"@),
        ("XAUS"@, "XA"@),
        ("XBRU"@, "BR"@),
        ("BVMF"@, "SA"@),
        ("CNSX"@, "CN"@),
        ("NEOE"@, "NE"@),
        ("XTSE"@, "TO"@),
        ("XTSX"@, "V"@),
        ("XSGO"@, "SN"@),
        ("XSHG"@, "SS"@),
        ("XSHE"@, "SZ"@),
        ("XBOG"@, "CL"@),
        ("XPRA"@, "PR"@),
        ("XCSE"@, "CO"@),
        ("XCAI"@, "CA"@),
        ("XTAL"@, "TL"@),
        ("CEUX"@, "XD"@),
        ("XEUR"@, "NX"@),
        ("XHEL"@, "HE"@),
        ("XPAR"@, "PA"@),
        ("XBER"@, "BE"@),
        ("XBMS"@, "BM"@),
        ("XDUS"@, "DU"@),
        ("XFRA"@, "F"@),
        ("XHAM"@, "HM"@),
        ("XHAN"@, "HA"@),
        ("XMUN"@, "MU"@),
        ("XSTU"@, "SG"@),
        ("XETR"@, "DE"@),
        ("XATH"@, "AT"@),
        ("XHKG"@, "HK"@),
        ("XBUD"@, "BD"@),
        ("XICE"@, "IC"@),
        ("XBOM"@, "BO"@),
        ("XNSE"@, "NS"@),
        ("XIDX"@, "JK"@),
        ("XDUB"@, "IR"@),
        ("XTAE"@, "TA"@),
        ("MTAA"@, "MI"@),
        ("EUTL"@, "TI"@),
        ("XTKS"@, "T"@),
        ("XKFE"@, "KW"@),
        ("XRIS"@, "RG"@),
        ("XVIL"@, "VS"@),
        ("XKLS"@, "KL"@),
        ("XMEX"@, "MX"@),
        ("XAMS"@, "AS"@),
        ("XNZE"@, "NZ"@),
        ("XOSL"@, "OL"@),
        ("XPHS"@, "PS"@),
        ("XWAR"@, "WA"@),
        ("XLIS"@, "LS"@),
        ("XQAT"@, "QA"@),
        ("XBSE"@, "RO"@),
        ("XSES"@, "SI"@),
        ("XJSE"@, "JO"@),
        ("XKRX"@, "KS"@),
        ("KQKS"@, "KQ"@),
        ("BMEX"@, "MC"@),
        ("XSAU"@, "SR"@),
        ("XSTO"@, "ST"@),
        ("XSWX"@, "SW"@),
        ("ROCO"@, "TWO"@),
        ("XTAI"@, "TW"@),
        ("XBKK"@, "BK"@),
        ("XIST"@, "IS"@),
        ("XDFM"@, "AE"@),
        ("AQXE"@, "AQ"@),
        ("XCHI"@, "XC"@),
        ("XLON"@, "L"@),
        ("ILSE"@, "IL"@),
        ("XCAR"@, "CR"@),
        ("XSTC"@, "VN"@),
    ]
}

/// The `(MIC, suffix)` table of [`mic_table`], as string slices.
pub fn mic_suffix_table() -> (t: Vec<(&'static str, &'static str)>)
    ensures
        t@.len() == mic_table().len(),
        forall|i: int|
            0 <= i < t@.len() ==> (#[trigger] t@[i]).0@ == mic_table()[i].0 && t@[i].1@
                == mic_table()[i].1,
{
    let t = vec![
        ("XCBT", "CBT"),
        ("XCME", "CME"),
        ("IFUS", "NYB"),
        ("CECS", "CMX"),
        ("XNYM", "NYM"),
        ("XNYS", ""),
        ("XNAS", ""),
        ("XBUE", "BA"),
        ("XVIE", "VI"),
        ("XASX", "AX"),
        ("XAUS", "XA"),
        ("XBRU", "BR"),
        ("BVMF", "SA"),
        ("CNSX", "CN"),
        ("NEOE", "NE"),
        ("XTSE", "TO"),
        ("XTSX", "V"),
        ("XSGO", "SN"),
        ("XSHG", "SS"),
        ("XSHE", "SZ"),
        ("XBOG", "CL"),
        ("XPRA", "PR"),
        ("XCSE", "CO"),
        ("XCAI", "CA"),
        ("XTAL", "TL"),
        ("CEUX", "XD"),
        ("XEUR", "NX"),
        ("XHEL", "HE"),
        ("XPAR", "PA"),
        ("XBER", "BE"),
        ("XBMS", "BM"),
        ("XDUS", "DU"),
        ("XFRA", "F"),
        ("XHAM", "HM"),
        ("XHAN", "HA"),
        ("XMUN", "MU"),
        ("XSTU", "SG"),
        ("XETR", "DE"),
        ("XATH", "AT"),
        ("XHKG", "HK"),
        ("XBUD", "BD"),
        ("XICE", "IC"),
        ("XBOM", "BO"),
        ("XNSE", "NS"),
        ("XIDX", "JK"),
        ("XDUB", "IR"),
        ("XTAE", "TA"),
        ("MTAA", "MI"),
        ("EUTL", "TI"),
        ("XTKS", "T"),
        ("XKFE", "KW"),
        ("XRIS", "RG"),
        ("XVIL", "VS"),
        ("XKLS", "KL"),
        ("XMEX", "MX"),
        ("XAMS", "AS"),
        ("XNZE", "NZ"),
        ("XOSL", "OL"),
        ("XPHS", "PS"),
        ("XWAR", "WA"),
        ("XLIS", "LS"),
        ("XQAT", "QA"),
        ("XBSE", "RO"),
        ("XSES", "SI"),
        ("XJSE", "JO"),
        ("XKRX", "KS"),
        ("KQKS", "KQ"),
        ("BMEX", "MC"),
        ("XSAU", "SR"),
        ("XSTO", "ST"),
        ("XSWX", "SW"),
        ("ROCO", "TWO"),
        ("XTAI", "TW"),
        ("XBKK", "BK"),
        ("XIST", "IS"),
        ("XDFM", "AE"),
        ("AQXE", "AQ"),
        ("XCHI", "XC"),
        ("XLON", "L"),
        ("ILSE", "IL"),
        ("XCAR", "CR"),
        ("XSTC", "VN"),
    ];
    assert(t@.len() == mic_table().len());
    t
}

/// `s` without one leading `'.'`, if it has one.
pub open spec fn strip_dot(s: Seq<char>) -> Seq<char> {
    if s.len() > 0 && s[0] == '.' {
        s.drop_first()
    } else {
        s
    }
}

/// The suffix of the first entry of `t` whose MIC equals `mic` up to ASCII case.
pub open spec fn lookup_ignore_case(t: Seq<(Seq<char>, Seq<char>)>, mic: Seq<char>) -> Option<
    Seq<char>,
>
    decreases t.len(),
{
    if t.len() == 0 {
        None
    } else if eq_ignore_ascii_case(t[0].0, mic) {
        Some(t[0].1)
    } else {
        lookup_ignore_case(t.drop_first(), mic)
    }
}

/// The Yahoo suffix of a MIC: one leading `'.'` is stripped, then the MIC is
/// matched against [`mic_table`] ignoring ASCII case.
pub open spec fn suffix_of_mic(mic: Seq<char>) -> Option<Seq<char>> {
    lookup_ignore_case(mic_table(), strip_dot(mic))
}

/// `chars` without one leading `'.'`.
fn strip_dot_chars(chars: Vec<char>) -> (r: Vec<char>)
    ensures
        r@ == strip_dot(chars@),
{
    if chars.len() > 0 && chars[0] == '.' {
        let mut r: Vec<char> = Vec::new();
        let mut i: usize = 1;
        while i < chars.len()
            invariant
                1 <= i <= chars@.len(),
                r@ == chars@.subrange(1, i as int),
            decreases chars@.len() - i,
        {
            r.push(chars[i]);
            i = i + 1;
        }
        assert(r@ == chars@.drop_first());
        r
    } else {
        chars
    }
}

/// Return the Yahoo Finance suffix for a MIC, or `None` if unknown.
///
/// A leading dot on the MIC (e.g. `.PA`) is stripped, and the MIC is matched
/// ignoring ASCII case.
pub fn mic_to_suffix(mic: &str) -> (r: Option<&'static str>)
    ensures
        r is None <==> suffix_of_mic(mic@) is None,
        r matches Some(s) ==> suffix_of_mic(mic@) == Some(s@),
{
    let m = strip_dot_chars(chars_vec(mic));
    let t = mic_suffix_table();
    let mut i: usize = 0;
    assert(mic_table().skip(0) =~= mic_table());
    while i < t.len()
        invariant
            i <= t@.len(),
            t@.len() == mic_table().len(),
            forall|j: int|
                0 <= j < t@.len() ==> (#[trigger] t@[j]).0@ == mic_table()[j].0 && t@[j].1@
                    == mic_table()[j].1,
            m@ == strip_dot(mic@),
            lookup_ignore_case(mic_table(), m@) == lookup_ignore_case(
                mic_table().skip(i as int),
                m@,
            ),
        decreases t@.len() - i,
    {
        let key = chars_vec(t[i].0);
        assert(mic_table().skip(i as int)[0] == mic_table()[i as int]);
        assert(mic_table().skip(i as int).drop_first() == mic_table().skip(i + 1));
        if chars_eq_ignore_ascii_case(key.as_slice(), m.as_slice()) {
            return Some(t[i].1);
        }
        i = i + 1;
    }
    None
}

pub open spec fn is_isin_letter(c: char) -> bool {
    is_ascii_upper(c)
}

pub open spec fn is_isin_alnum(c: char) -> bool {
    is_ascii_upper(c) || is_ascii_digit(c)
}

/// A well-formed ISIN: two uppercase letters, nine uppercase letters or
/// digits, and a check digit (`^([A-Z]{2})([A-Z0-9]{9})([0-9])$`).
pub open spec fn isin_shape(s: Seq<char>) -> bool {
    &&& s.len() == 12
    &&& is_isin_letter(s[0])
    &&& is_isin_letter(s[1])
    &&& forall|i: int| 2 <= i < 11 ==> is_isin_alnum(#[trigger] s[i])
    &&& is_ascii_digit(s[11])
}

/// True if `s` is a well-formed ISIN: 2 letters + 9 alphanumerics + 1 digit
/// (`^([A-Z]{2})([A-Z0-9]{9})([0-9])$`).
pub fn is_isin(s: &str) -> (r: bool)
    ensures
        r == isin_shape(s@),
{
    let b = chars_vec(s);
    if b.len() != 12 {
        return false;
    }
    if !(is_upper(b[0]) && is_upper(b[1]) && is_digit(b[11])) {
        return false;
    }
    let mut i: usize = 2;
    while i < 11
        invariant
            2 <= i <= 11,
            b@ == s@,
            b@.len() == 12,
            forall|j: int| 2 <= j < i ==> is_isin_alnum(#[trigger] b@[j]),
        decreases 11 - i,
    {
        if !(is_upper(b[i]) || is_digit(b[i])) {
            return false;
        }
        i = i + 1;
    }
    true
}

fn is_upper(c: char) -> (r: bool)
    ensures
        r == is_ascii_upper(c),
{
    'A' <= c && c <= 'Z'
}

fn is_digit(c: char) -> (r: bool)
    ensures
        r == is_ascii_digit(c),
{
    '0' <= c && c <= '9'
}

/// The ticker a `(symbol, MIC)` pair resolves to: the symbol in ASCII
/// uppercase, followed by `'.'` and the suffix unless the suffix is empty.
/// `None` when the MIC (with one leading `'.'` stripped) is unknown.
pub open spec fn resolved_symbol(symbol: Seq<char>, mic: Seq<char>) -> Option<Seq<char>> {
    match suffix_of_mic(strip_dot(mic)) {
        None => None,
        Some(sfx) => if sfx.len() == 0 {
            Some(ascii_uppercase(symbol))
        } else {
            Some(ascii_uppercase(symbol) + seq!['.'] + sfx)
        },
    }
}

/// Resolve a `(symbol, MIC)` pair into a Yahoo ticker symbol.
///
/// An unknown MIC is an error; an empty suffix yields the bare (uppercased)
/// symbol, otherwise `SYMBOL.SUFFIX`.
pub fn resolve_symbol(symbol: &str, mic: &str) -> (r: Result<String, YfError>)
    ensures
        resolved_symbol(symbol@, mic@) is None <==> r is Err,
        r matches Ok(s) ==> resolved_symbol(symbol@, mic@) == Some(s@),
        r matches Err(e) ==> (e matches YfError::Msg(m) && m@ == "Unknown MIC code: '"@ + strip_dot(
            mic@,
        ) + "'"@),
{
    let m = strip_dot_chars(chars_vec(mic));
    let ms = string_from_chars(m.as_slice());
    match mic_to_suffix(ms.as_str()) {
        None => {
            let mut msg: Vec<char> = Vec::new();
            push_str(&mut msg, "Unknown MIC code: '");
            push_str(&mut msg, ms.as_str());
            push_str(&mut msg, "'");
            Err(YfError::Msg(string_from_chars(msg.as_slice())))
        },
        Some(sfx) => {
            let up = to_ascii_uppercase(symbol);
            let sc = chars_vec(sfx);
            if sc.len() == 0 {
                Ok(up)
            } else {
                let mut out: Vec<char> = Vec::new();
                push_str(&mut out, up.as_str());
                push_str(&mut out, ".");
                proof {
                    reveal_strlit(".");
                }
                push_str(&mut out, sfx);
                Ok(string_from_chars(out.as_slice()))
            }
        },
    }
}

} // verus!
