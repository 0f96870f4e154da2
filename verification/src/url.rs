//! URL admission: percent-decoding of a form value, UTF-8 validation, and
//! the scheme policy that admits only strings in which `http://` or
//! `https://` occurs (case-insensitively).

use vstd::prelude::*;
use vstd::string::*;
use vstd::utf8::{decode_utf8, valid_utf8};

verus! {

/// An ASCII hexadecimal digit: `[0-9a-fA-F]`.
pub open spec fn is_hex_digit(b: u8) -> bool {
    (48 <= b && b <= 57) || (97 <= b && b <= 102) || (65 <= b && b <= 70)
}

/// The value of an ASCII hexadecimal digit.
pub open spec fn hex_val(b: u8) -> u8
    recommends
        is_hex_digit(b),
{
    if 48 <= b && b <= 57 {
        (b - 48) as u8
    } else if 97 <= b && b <= 102 {
        (b - 97 + 10) as u8
    } else {
        (b - 65 + 10) as u8
    }
}

/// Percent-decoding of a byte string: each `%` followed by two hexadecimal
/// digits becomes the byte they name; every other byte, a malformed escape
/// included, passes through verbatim.
pub open spec fn pct_decoded(b: Seq<u8>) -> Seq<u8>
    decreases b.len(),
{
    if b.len() == 0 {
        Seq::empty()
    } else if b[0] == 37 && b.len() >= 3 && is_hex_digit(b[1]) && is_hex_digit(b[2]) {
        seq![(16 * hex_val(b[1]) + hex_val(b[2])) as u8] + pct_decoded(b.skip(3))
    } else {
        seq![b[0]] + pct_decoded(b.skip(1))
    }
}

/// ASCII-case-insensitive match of a character against a lowercase letter.
pub open spec fn ci_eq(c: char, lower: char) -> bool {
    c == lower || c as int + 32 == lower as int
}

/// `://` stands at position `i` of `s`.
pub open spec fn sep_at(s: Seq<char>, i: int) -> bool {
    &&& i + 3 <= s.len()
    &&& s[i] == ':'
    &&& s[i + 1] == '/'
    &&& s[i + 2] == '/'
}

/// `http://` or `https://` stands at position `i` of `s`, letters matched
/// without regard to ASCII case.
pub open spec fn scheme_at(s: Seq<char>, i: int) -> bool {
    &&& 0 <= i
    &&& i + 4 <= s.len()
    &&& ci_eq(s[i], 'h')
    &&& ci_eq(s[i + 1], 't')
    &&& ci_eq(s[i + 2], 't')
    &&& ci_eq(s[i + 3], 'p')
    &&& (sep_at(s, i + 4) || (i + 5 <= s.len() && ci_eq(s[i + 4], 's') && sep_at(s, i + 5)))
}

/// `http://` or `https://` occurs somewhere in `s`. The admission policy is
/// a search, not an anchored prefix match.
pub open spec fn has_scheme(s: Seq<char>) -> bool {
    exists|i: int| scheme_at(s, i)
}

/// A URL that passed admission: its text contains an allowed scheme.
#[derive(Debug)]
pub struct Url {
    text: String,
}

impl View for Url {
    type V = Seq<char>;

    closed spec fn view(&self) -> Seq<char> {
        self.text@
    }
}

/// The form body of a create request: its single field, the submitted URL.
#[derive(Debug)]
pub struct Data {
    pub url: Url,
}

/// Returns `true` exactly when `b` is an ASCII hexadecimal digit.
fn hex_digit(b: u8) -> (r: bool)
    ensures
        r == is_hex_digit(b),
{
    (48 <= b && b <= 57) || (97 <= b && b <= 102) || (65 <= b && b <= 70)
}

/// Returns the value of an ASCII hexadecimal digit.
fn hex_value(b: u8) -> (r: u8)
    requires
        is_hex_digit(b),
    ensures
        r == hex_val(b),
        r < 16,
{
    if 48 <= b && b <= 57 {
        b - 48
    } else if 97 <= b && b <= 102 {
        b - 97 + 10
    } else {
        b - 65 + 10
    }
}

/// Percent-decodes a byte string: `%` escapes with two hexadecimal digits
/// become the named byte, everything else passes through verbatim.
pub fn percent_decode(raw: &Vec<u8>) -> (r: Vec<u8>)
    ensures
        r@ == pct_decoded(raw@),
{
    let mut out: Vec<u8> = Vec::new();
    let mut i: usize = 0;
    proof {
        assert(raw@.skip(0) =~= raw@);
        assert(out@ + pct_decoded(raw@) =~= pct_decoded(raw@));
    }
    while i < raw.len()
        invariant
            0 <= i <= raw@.len(),
            pct_decoded(raw@) == out@ + pct_decoded(raw@.skip(i as int)),
        decreases raw@.len() - i,
    {
        let ghost s = raw@.skip(i as int);
        proof {
            assert(s.len() == raw@.len() - i);
            assert(s[0] == raw@[i as int]);
        }
        let escape = raw[i] == 37 && raw.len() - i > 2 && hex_digit(raw[i + 1]) && hex_digit(
            raw[i + 2],
        );
        if escape {
            let v = 16 * hex_value(raw[i + 1]) + hex_value(raw[i + 2]);
            let ghost out0 = out@;
            out.push(v);
            proof {
                assert(s[1] == raw@[i as int + 1]);
                assert(s[2] == raw@[i as int + 2]);
                assert(s.skip(3) =~= raw@.skip(i as int + 3));
                assert(pct_decoded(s) == seq![v] + pct_decoded(s.skip(3)));
                assert(out0 + (seq![v] + pct_decoded(s.skip(3))) =~= (out0 + seq![v])
                    + pct_decoded(s.skip(3)));
                assert(out@ =~= out0 + seq![v]);
            }
            i = i + 3;
        } else {
            let b = raw[i];
            let ghost out0 = out@;
            out.push(b);
            proof {
                assert(!(s[0] == 37 && s.len() >= 3 && is_hex_digit(s[1]) && is_hex_digit(
                    s[2],
                ))) by {
                    if s.len() >= 3 {
                        assert(s[1] == raw@[i as int + 1]);
                        assert(s[2] == raw@[i as int + 2]);
                    }
                }
                assert(s.skip(1) =~= raw@.skip(i as int + 1));
                assert(pct_decoded(s) == seq![b] + pct_decoded(s.skip(1)));
                assert(out0 + (seq![b] + pct_decoded(s.skip(1))) =~= (out0 + seq![b])
                    + pct_decoded(s.skip(1)));
                assert(out@ =~= out0 + seq![b]);
            }
            i = i + 1;
        }
    }
    proof {
        assert(raw@.skip(i as int) =~= Seq::<u8>::empty());
        assert(out@ =~= out@ + pct_decoded(raw@.skip(i as int)));
    }
    out
}

/// Relies on String::from_utf8: it hands the decoded string back exactly
/// when the bytes are a valid UTF-8 encoding, and an error otherwise.
#[verifier::external_body]
fn bytes_to_string(v: Vec<u8>) -> (r: Option<String>)
    ensures
        r matches Some(s) ==> valid_utf8(v@) && s@ == decode_utf8(v@),
        r is None ==> !valid_utf8(v@),
{
    match String::from_utf8(v) {
        Ok(s) => Some(s),
        Err(_) => None,
    }
}

/// ASCII-case-insensitive comparison of a character with a lowercase letter.
fn ci_eq_exec(c: char, lower: char) -> (r: bool)
    ensures
        r == ci_eq(c, lower),
{
    c == lower || c as u32 + 32 == lower as u32
}

/// Tests whether `http://` or `https://` stands at position `i` of `s`.
fn scheme_at_exec(s: &str, len: usize, i: usize) -> (r: bool)
    requires
        len == s@.len(),
        i < len,
    ensures
        r == scheme_at(s@, i as int),
{
    if len - i < 7 {
        return false;
    }
    let head = ci_eq_exec(s.get_char(i), 'h') && ci_eq_exec(s.get_char(i + 1), 't') && ci_eq_exec(
        s.get_char(i + 2),
        't',
    ) && ci_eq_exec(s.get_char(i + 3), 'p');
    if !head {
        return false;
    }
    if s.get_char(i + 4) == ':' && s.get_char(i + 5) == '/' && s.get_char(i + 6) == '/' {
        return true;
    }
    if len - i < 8 {
        return false;
    }
    ci_eq_exec(s.get_char(i + 4), 's') && s.get_char(i + 5) == ':' && s.get_char(i + 6) == '/'
        && s.get_char(i + 7) == '/'
}

/// Searches `s` for an occurrence of `http://` or `https://`, without
/// regard to ASCII case.
pub fn find_scheme(s: &str) -> (r: bool)
    ensures
        r == has_scheme(s@),
{
    let len = s.unicode_len();
    let mut i: usize = 0;
    while i < len
        invariant
            len == s@.len(),
            0 <= i <= len,
            forall|j: int| 0 <= j < i ==> !scheme_at(s@, j),
        decreases len - i,
    {
        if scheme_at_exec(s, len, i) {
            return true;
        }
        i = i + 1;
    }
    proof {
        assert(!has_scheme(s@)) by {
            if has_scheme(s@) {
                let j = choose|j: int| scheme_at(s@, j);
                assert(0 <= j && j + 4 <= s@.len());
                assert(!scheme_at(s@, j));
            }
        }
    }
    false
}

impl Url {
    /// A well-formed admitted URL: an allowed scheme occurs in its text.
    pub open spec fn wf(&self) -> bool {
        has_scheme(self@)
    }

    /// Admits a raw form value: percent-decodes it, requires the result to
    /// be valid UTF-8, and accepts it only if `http://` or `https://`
    /// occurs in the decoded text.
    pub fn from_form_value(form_value: &str) -> (r: Result<Url, &'static str>)
        ensures
            ({
                let decoded = pct_decoded(form_value.spec_bytes());
                match r {
                    Ok(url) => valid_utf8(decoded) && url@ == decode_utf8(decoded) && url.wf(),
                    Err(e) => if !valid_utf8(decoded) {
                        e@ == "not valid utf-8 value"@
                    } else {
                        !has_scheme(decode_utf8(decoded)) && e@ == "url not allowed"@
                    },
                }
            }),
    {
        let raw = form_value.as_bytes_vec();
        let decoded = percent_decode(&raw);
        match bytes_to_string(decoded) {
            Some(text) => {
                if find_scheme(text.as_str()) {
                    Ok(Url { text })
                } else {
                    Err("url not allowed")
                }
            },
            None => Err("not valid utf-8 value"),
        }
    }

    /// The admitted text.
    pub fn as_str(&self) -> (r: &str)
        ensures
            r@ == self@,
    {
        self.text.as_str()
    }
}

impl Data {
    /// The admitted text of the submitted URL.
    pub fn as_str(&self) -> (r: &str)
        ensures
            r@ == self.url@,
    {
        self.url.as_str()
    }
}

} // verus!
