//! Verified application/x-www-form-urlencoded encoding, used to build
//! authorization URLs, and decoding of the query pairs of received
//! redirect URLs. The encoder matches the encoding the `url` crate's query
//! serializer applies: ASCII letters, digits and `*-._` unchanged, space as
//! `+`, every other byte as `%XX` with upper-case hex. Decoding is done by
//! the `url` crate itself.

use vstd::prelude::*;

use crate::auth::error::AuthError;

verus! {

/// The decoded query pairs of a piece of text read as an absolute URL, in
/// order. Fixed by the text alone; `None` where the text is not such a URL.
pub uninterp spec fn url_query_pairs_of(s: Seq<char>) -> Option<Seq<(Seq<char>, Seq<char>)>>;

/// Relies on `url::Url::parse` and `Url::query_pairs`: whether the text is
/// an absolute URL, and its decoded query pairs, are fixed by the text
/// alone.
#[verifier::external_body]
pub fn parse_url_query(s: &str) -> (r: Option<Vec<(String, String)>>)
    ensures
        match r {
            Some(v) => url_query_pairs_of(s@) == Some(v.deep_view()),
            None => url_query_pairs_of(s@) is None,
        },
{
    match url::Url::parse(s) {
        Ok(u) => Some(u.query_pairs().map(|(k, v)| (k.into_owned(), v.into_owned())).collect()),
        Err(_) => None,
    }
}

/// The value of the last pair named `key`, if any: repeated parameters
/// overwrite earlier ones.
pub open spec fn last_query_value(pairs: Seq<(Seq<char>, Seq<char>)>, key: Seq<char>) -> Option<
    Seq<char>,
>
    decreases pairs.len(),
{
    if pairs.len() == 0 {
        None
    } else if pairs.last().0 == key {
        Some(pairs.last().1)
    } else {
        last_query_value(pairs.drop_last(), key)
    }
}

/// The value of the last pair named `key`, if any.
pub fn find_last_query_value(pairs: &Vec<(String, String)>, key: &str) -> (r: Option<String>)
    ensures
        match r {
            Some(v) => last_query_value(pairs.deep_view(), key@) == Some(v@),
            None => last_query_value(pairs.deep_view(), key@) is None,
        },
{
    let mut found: Option<String> = None;
    let mut i: usize = 0;
    proof {
        assert(pairs.deep_view().take(0) =~= Seq::<(Seq<char>, Seq<char>)>::empty());
    }
    while i < pairs.len()
        invariant
            i <= pairs@.len(),
            match found {
                Some(v) => last_query_value(pairs.deep_view().take(i as int), key@) == Some(v@),
                None => last_query_value(pairs.deep_view().take(i as int), key@) is None,
            },
        decreases pairs@.len() - i,
    {
        proof {
            assert(pairs.deep_view()[i as int] == (pairs@[i as int].0@, pairs@[i as int].1@));
            assert(pairs.deep_view().take(i + 1).drop_last() =~= pairs.deep_view().take(i as int));
            assert(pairs.deep_view().take(i + 1).last() == pairs.deep_view()[i as int]);
        }
        if crate::strutil::chars_eq_str(&crate::strutil::str_chars(pairs[i].0.as_str()), key) {
            found = Some(pairs[i].1.clone());
        }
        i += 1;
    }
    proof {
        assert(pairs.deep_view().take(pairs@.len() as int) =~= pairs.deep_view());
    }
    found
}

/// What a set of authorization-redirect query pairs means: an `error`
/// parameter denies the request, a missing `code` parameter is an error,
/// and otherwise the code is returned with the optional `state`.
pub open spec fn spec_authorization_pairs(pairs: Seq<(Seq<char>, Seq<char>)>) -> Result<
    (Seq<char>, Option<Seq<char>>),
    AuthErrorShape,
> {
    match last_query_value(pairs, "error"@) {
        Some(e) => Err(AuthErrorShape::Denied(e)),
        None => match last_query_value(pairs, "code"@) {
            None => Err(AuthErrorShape::MissingCode),
            Some(c) => Ok((c, last_query_value(pairs, "state"@))),
        },
    }
}

/// The shape of the error a set of redirect query pairs denotes.
pub ghost enum AuthErrorShape {
    Denied(Seq<char>),
    MissingCode,
}

/// Read an authorization redirect's query pairs: the code and the optional
/// state, or the error they denote.
pub fn authorization_from_pairs(pairs: &Vec<(String, String)>) -> (r: Result<
    (String, Option<String>),
    AuthError,
>)
    ensures
        match spec_authorization_pairs(pairs.deep_view()) {
            Ok((c, st)) => r matches Ok(p) && p.0@ == c && (match st {
                Some(s) => p.1 matches Some(q) && q@ == s,
                None => p.1 is None,
            }),
            Err(AuthErrorShape::Denied(e)) => r matches Err(a) && (a matches
                AuthError::AccessDenied(v) && v@ == e),
            Err(AuthErrorShape::MissingCode) => r matches Err(a) && a matches
                AuthError::MissingAuthorizationCode,
        },
{
    match find_last_query_value(pairs, "error") {
        Some(e) => Err(AuthError::AccessDenied(e)),
        None => match find_last_query_value(pairs, "code") {
            None => Err(AuthError::MissingAuthorizationCode),
            Some(code) => Ok((code, find_last_query_value(pairs, "state"))),
        },
    }
}

/// True for bytes the form encoding leaves unchanged.
pub open spec fn is_form_unchanged_byte(b: u8) -> bool {
    b == 0x2A || b == 0x2D || b == 0x2E || (0x30 <= b && b <= 0x39) || (0x41 <= b && b <= 0x5A)
        || b == 0x5F || (0x61 <= b && b <= 0x7A)
}

/// The upper-case hexadecimal digit for `d` (which must be below 16).
pub open spec fn hex_upper(d: int) -> char {
    if d < 10 {
        ((48 + d) as u8) as char
    } else {
        ((55 + d) as u8) as char
    }
}

/// The form encoding of a single byte.
pub open spec fn form_enc_byte(b: u8) -> Seq<char> {
    if b == 0x20 {
        seq!['+']
    } else if is_form_unchanged_byte(b) {
        seq![b as char]
    } else {
        seq!['%', hex_upper(b as int / 16), hex_upper(b as int % 16)]
    }
}

/// The form encoding of a byte sequence.
pub open spec fn form_enc(bytes: Seq<u8>) -> Seq<char>
    decreases bytes.len(),
{
    if bytes.len() == 0 {
        seq![]
    } else {
        form_enc_byte(bytes[0]) + form_enc(bytes.drop_first())
    }
}

/// Appending a byte appends its encoding.
pub proof fn lemma_form_enc_snoc(bytes: Seq<u8>, b: u8)
    ensures
        form_enc(bytes.push(b)) == form_enc(bytes) + form_enc_byte(b),
    decreases bytes.len(),
{
    if bytes.len() == 0 {
        assert(bytes.push(b)[0] == b);
        assert(bytes.push(b).drop_first() =~= Seq::<u8>::empty());
        assert(form_enc(bytes.push(b).drop_first()) =~= Seq::<char>::empty());
        assert(form_enc(bytes.push(b)) =~= form_enc_byte(b));
        assert(form_enc(bytes) + form_enc_byte(b) =~= form_enc_byte(b));
    } else {
        lemma_form_enc_snoc(bytes.drop_first(), b);
        assert(bytes.push(b)[0] == bytes[0]);
        assert(bytes.push(b).drop_first() =~= bytes.drop_first().push(b));
        assert(form_enc(bytes.push(b)) == form_enc_byte(bytes[0]) + form_enc(
            bytes.drop_first().push(b),
        ));
        assert(form_enc(bytes) + form_enc_byte(b) =~= form_enc_byte(bytes[0]) + (form_enc(
            bytes.drop_first(),
        ) + form_enc_byte(b)));
    }
}

/// The form encoding of the UTF-8 bytes of `s`.
pub open spec fn form_enc_str(s: Seq<char>) -> Seq<char> {
    form_enc(vstd::utf8::encode_utf8(s))
}

fn hex_upper_exec(d: u8) -> (r: char)
    requires
        d < 16,
    ensures
        r == hex_upper(d as int),
{
    if d < 10 {
        (48 + d) as char
    } else {
        (55 + d) as char
    }
}

/// The form encoding of a byte slice.
pub fn form_urlencode_bytes(bytes: &[u8]) -> (r: Vec<char>)
    ensures
        r@ == form_enc(bytes@),
{
    let mut r: Vec<char> = Vec::new();
    let mut i: usize = 0;
    proof {
        assert(bytes@.subrange(0, 0) =~= Seq::<u8>::empty());
    }
    while i < bytes.len()
        invariant
            i <= bytes@.len(),
            r@ == form_enc(bytes@.subrange(0, i as int)),
        decreases bytes@.len() - i,
    {
        let b = bytes[i];
        if b == 0x20 {
            r.push('+');
        } else if b == 0x2A || b == 0x2D || b == 0x2E || (0x30 <= b && b <= 0x39) || (0x41 <= b
            && b <= 0x5A) || b == 0x5F || (0x61 <= b && b <= 0x7A) {
            r.push(b as char);
        } else {
            r.push('%');
            r.push(hex_upper_exec(b / 16));
            r.push(hex_upper_exec(b % 16));
        }
        i += 1;
        proof {
            lemma_form_enc_snoc(bytes@.subrange(0, i - 1), b);
            assert(bytes@.subrange(0, i as int) =~= bytes@.subrange(0, i - 1).push(b));
            assert(r@ =~= form_enc(bytes@.subrange(0, i as int)));
        }
    }
    proof {
        assert(bytes@.subrange(0, bytes@.len() as int) =~= bytes@);
    }
    r
}

/// The form encoding of the UTF-8 bytes of `s`, as characters.
pub fn form_urlencode(s: &str) -> (r: Vec<char>)
    ensures
        r@ == form_enc_str(s@),
{
    form_urlencode_bytes(s.as_bytes())
}

} // verus!
