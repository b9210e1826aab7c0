//! A plain model of HTTP request headers.
//!
//! The HTTP front end hands the library each header as a name plus raw value
//! bytes. Header values may carry arbitrary bytes; text is only extracted
//! after a visible-ASCII check, mirroring the wire rules for header values.

use vstd::prelude::*;
use vstd::string::*;

verus! {

/// One request header: a (lower-case) name and the raw value bytes.
pub struct Header {
    pub name: String,
    pub value: Vec<u8>,
}

/// The value of the first header with the given name, if any.
pub open spec fn spec_lookup(hs: Seq<Header>, name: Seq<char>) -> Option<Seq<u8>>
    decreases hs.len(),
{
    if hs.len() == 0 {
        None
    } else if hs[0].name@ == name {
        Some(hs[0].value@)
    } else {
        spec_lookup(hs.drop_first(), name)
    }
}

/// Every byte may appear in header text: printable ASCII or horizontal tab.
pub open spec fn visible_ascii(v: Seq<u8>) -> bool {
    forall|i: int| 0 <= i < v.len()
        ==> (32 <= #[trigger] v[i] && v[i] < 127) || v[i] == 9
}

/// The characters spelled by a run of ASCII bytes.
pub open spec fn chars_of_bytes(v: Seq<u8>) -> Seq<char> {
    v.map_values(|b: u8| b as char)
}

/// Character-for-character string equality.
pub fn str_eq(a: &str, b: &str) -> (r: bool)
    ensures
        r == (a@ == b@),
{
    let na = a.unicode_len();
    let nb = b.unicode_len();
    if na != nb {
        return false;
    }
    let mut i: usize = 0;
    while i < na
        invariant
            na == a@.len(),
            na == b@.len(),
            i <= na,
            forall|j: int| 0 <= j < i ==> a@[j] == b@[j],
        decreases na - i,
    {
        if a.get_char(i) != b.get_char(i) {
            return false;
        }
        i += 1;
    }
    proof {
        assert(a@ =~= b@);
    }
    true
}

/// Finds the first header with the given name.
pub fn header_lookup<'a>(headers: &'a Vec<Header>, name: &str) -> (r: Option<&'a Vec<u8>>)
    ensures
        match r {
            Some(v) => spec_lookup(headers@, name@) == Some(v@),
            None => spec_lookup(headers@, name@) is None,
        },
{
    let n = headers.len();
    let mut i: usize = 0;
    proof {
        assert(headers@.skip(0) =~= headers@);
    }
    while i < n
        invariant
            n == headers@.len(),
            i <= n,
            spec_lookup(headers@, name@) == spec_lookup(headers@.skip(i as int), name@),
        decreases n - i,
    {
        proof {
            let t = headers@.skip(i as int);
            assert(t[0] == headers@[i as int]);
            assert(t.drop_first() =~= headers@.skip(i as int + 1));
        }
        if str_eq(headers[i].name.as_str(), name) {
            return Some(&headers[i].value);
        }
        i += 1;
    }
    proof {
        assert(headers@.skip(n as int) =~= Seq::<Header>::empty());
    }
    None
}

/// Relies on String::from_utf8: bytes below 128 are valid UTF-8 and decode to
/// the characters with the same codes.
#[verifier::external_body]
fn ascii_to_string(v: &Vec<u8>) -> (r: String)
    requires
        forall|i: int| 0 <= i < v@.len() ==> #[trigger] v@[i] < 128,
    ensures
        r@ == chars_of_bytes(v@),
{
    String::from_utf8(v.clone()).unwrap()
}

/// Extracts the text of a header value, if all its bytes are visible ASCII
/// (or tab); otherwise reports the value as non-textual.
pub fn header_text(v: &Vec<u8>) -> (r: Option<String>)
    ensures
        match r {
            Some(s) => visible_ascii(v@) && s@ == chars_of_bytes(v@),
            None => !visible_ascii(v@),
        },
{
    let n = v.len();
    let mut i: usize = 0;
    while i < n
        invariant
            n == v@.len(),
            i <= n,
            forall|j: int| 0 <= j < i
                ==> (32 <= #[trigger] v@[j] && v@[j] < 127) || v@[j] == 9,
        decreases n - i,
    {
        let b = v[i];
        if !(b == 9 || (32 <= b && b < 127)) {
            return None;
        }
        i += 1;
    }
    Some(ascii_to_string(v))
}

/// Strips a prefix from a string, if present.
pub fn str_strip_prefix<'a>(s: &'a str, p: &str) -> (r: Option<&'a str>)
    ensures
        match r {
            Some(t) => s@.len() >= p@.len() && s@.take(p@.len() as int) == p@
                && t@ == s@.skip(p@.len() as int),
            None => !(s@.len() >= p@.len() && s@.take(p@.len() as int) == p@),
        },
{
    let np = p.unicode_len();
    let ns = s.unicode_len();
    if ns < np {
        return None;
    }
    let mut i: usize = 0;
    while i < np
        invariant
            np == p@.len(),
            ns == s@.len(),
            np <= ns,
            i <= np,
            forall|j: int| 0 <= j < i ==> s@[j] == p@[j],
        decreases np - i,
    {
        if s.get_char(i) != p.get_char(i) {
            proof {
                assert(s@.take(np as int)[i as int] != p@[i as int]);
            }
            return None;
        }
        i += 1;
    }
    proof {
        assert(s@.take(np as int) =~= p@);
    }
    Some(s.substring_char(np, ns))
}

} // verus!
