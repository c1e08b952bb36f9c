//! The persisted form of a session: a JSON envelope
//! `{"version":1,"profile":...,"session":{...}}` with a fixed field order.
//! Both directions are verified here: the encoder states exactly what it
//! writes, and also that the parser reads the same envelope back, so a saved
//! session always loads unchanged.

use vstd::prelude::*;

use crate::auth::session::{AuthSession, SessionView, TokenType};
use crate::strutil::{chars_to_string, join_with, str_chars};
use crate::time::{
    format_rfc3339, parse_rfc3339_millis, rfc3339_of, rfc3339_val_of, ts_in_range, Timestamp,
};

verus! {

/// The persisted wrapper around a session: a format version and the profile
/// name the session was saved under.
#[derive(Debug, Clone)]
pub struct SessionEnvelope {
    pub version: u32,
    pub profile: String,
    pub session: AuthSession,
}

/// The lower-case hexadecimal digit for `d` (which must be below 16).
pub open spec fn hex_lower(d: int) -> char {
    if d < 10 {
        ((48 + d) as u8) as char
    } else {
        ((87 + d) as u8) as char
    }
}

/// The JSON escape of a single character: quote and backslash get a
/// backslash, control characters become `\u00XX`, and everything else stands
/// for itself.
pub open spec fn esc_char(c: char) -> Seq<char> {
    if c == '"' {
        seq!['\\', '"']
    } else if c == '\\' {
        seq!['\\', '\\']
    } else if (c as u32) < 0x20 {
        seq!['\\', 'u', '0', '0', hex_lower((c as u32) as int / 16), hex_lower(
            (c as u32) as int % 16,
        )]
    } else {
        seq![c]
    }
}

/// The JSON escape of a character sequence.
pub open spec fn esc(s: Seq<char>) -> Seq<char>
    decreases s.len(),
{
    if s.len() == 0 {
        seq![]
    } else {
        esc_char(s[0]) + esc(s.drop_first())
    }
}

/// Appending a character appends its escape.
pub proof fn lemma_esc_snoc(s: Seq<char>, c: char)
    ensures
        esc(s.push(c)) == esc(s) + esc_char(c),
    decreases s.len(),
{
    if s.len() == 0 {
        assert(s.push(c)[0] == c);
        assert(s.push(c).drop_first() =~= Seq::<char>::empty());
        assert(esc(s.push(c).drop_first()) =~= Seq::<char>::empty());
        assert(esc(s.push(c)) =~= esc_char(c));
        assert(esc(s) + esc_char(c) =~= esc_char(c));
    } else {
        lemma_esc_snoc(s.drop_first(), c);
        assert(s.push(c)[0] == s[0]);
        assert(s.push(c).drop_first() =~= s.drop_first().push(c));
        assert(esc(s.push(c)) == esc_char(s[0]) + esc(s.drop_first().push(c)));
        assert(esc(s) + esc_char(c) =~= esc_char(s[0]) + (esc(s.drop_first()) + esc_char(c)));
    }
}

/// A JSON string literal: the escaped text between quotes.
pub open spec fn jstr(s: Seq<char>) -> Seq<char> {
    seq!['"'] + esc(s) + seq!['"']
}

/// The comma-separated JSON strings of a scope list.
pub open spec fn spec_scope_json(scope: Seq<Seq<char>>) -> Seq<char> {
    join_with(scope.map_values(|x: Seq<char>| jstr(x)), ","@)
}

/// The envelope text written for a profile and session: one JSON object with
/// a fixed field order, string fields escaped, timestamps in RFC 3339 text,
/// and absent options as `null`.
pub open spec fn spec_encode_envelope(profile: Seq<char>, sv: SessionView) -> Seq<char> {
    "{\"version\":1,\"profile\":"@ + jstr(profile) + ",\"session\":{\"access_token\":"@ + jstr(
        sv.access_token,
    ) + ",\"refresh_token\":"@ + (match sv.refresh_token {
        Some(t) => jstr(t),
        None => "null"@,
    }) + ",\"token_type\":"@ + (if sv.token_type == TokenType::Bearer {
        "\"bearer\""@
    } else {
        "\"api_key\""@
    }) + ",\"expires_at\":"@ + (match sv.expires_at {
        Some(t) => jstr(rfc3339_of(t)),
        None => "null"@,
    }) + ",\"scope\":["@ + spec_scope_json(sv.scope) + "],\"created_at\":"@ + jstr(
        rfc3339_of(sv.created_at),
    ) + "}}"@
}

fn hex_lower_exec(d: u8) -> (r: char)
    requires
        d < 16,
    ensures
        r == hex_lower(d as int),
{
    if d < 10 {
        (48 + d) as char
    } else {
        (87 + d) as char
    }
}

/// Append the JSON escape of `s`.
fn append_escaped(out: &mut Vec<char>, s: &str)
    ensures
        final(out)@ == old(out)@ + esc(s@),
{
    let chars = str_chars(s);
    let ghost base = out@;
    let mut i: usize = 0;
    proof {
        assert(esc(chars@.subrange(0, 0)) =~= Seq::<char>::empty());
        assert(out@ =~= base + esc(chars@.subrange(0, 0)));
    }
    while i < chars.len()
        invariant
            i <= chars@.len(),
            chars@ == s@,
            out@ == base + esc(chars@.subrange(0, i as int)),
        decreases chars@.len() - i,
    {
        let c = chars[i];
        let v: u32 = c as u32;
        if c == '"' {
            out.push('\\');
            out.push('"');
        } else if c == '\\' {
            out.push('\\');
            out.push('\\');
        } else if v < 0x20 {
            out.push('\\');
            out.push('u');
            out.push('0');
            out.push('0');
            out.push(hex_lower_exec((v / 16) as u8));
            out.push(hex_lower_exec((v % 16) as u8));
        } else {
            out.push(c);
        }
        i += 1;
        proof {
            lemma_esc_snoc(chars@.subrange(0, i - 1), c);
            assert(chars@.subrange(0, i as int) =~= chars@.subrange(0, i - 1).push(c));
            assert(out@ =~= base + esc(chars@.subrange(0, i as int)));
        }
    }
    proof {
        assert(chars@.subrange(0, chars@.len() as int) =~= chars@);
    }
}

/// Append a JSON string literal for `s`.
fn append_jstr(out: &mut Vec<char>, s: &str)
    ensures
        final(out)@ == old(out)@ + jstr(s@),
{
    out.push('"');
    append_escaped(out, s);
    out.push('"');
    proof {
        assert(out@ =~= old(out)@ + jstr(s@));
    }
}

/// Append a literal piece.
fn append_lit(out: &mut Vec<char>, lit: &str)
    ensures
        final(out)@ == old(out)@ + lit@,
{
    let chars = str_chars(lit);
    let ghost base = out@;
    let mut i: usize = 0;
    while i < chars.len()
        invariant
            i <= chars@.len(),
            chars@ == lit@,
            out@ == base + chars@.subrange(0, i as int),
        decreases chars@.len() - i,
    {
        out.push(chars[i]);
        i += 1;
        proof {
            assert(out@ =~= base + chars@.subrange(0, i as int));
        }
    }
    proof {
        assert(chars@.subrange(0, chars@.len() as int) =~= chars@);
    }
}

/// The scope items joined so far: the first `k` items.
pub open spec fn scope_json_prefix(parts: Seq<Seq<char>>, k: int) -> Seq<char>
    decreases k,
{
    if k <= 0 {
        seq![]
    } else if k == 1 {
        jstr(parts[0])
    } else {
        scope_json_prefix(parts, k - 1) + ","@ + jstr(parts[k - 1])
    }
}

proof fn lemma_scope_json_prefix_all(parts: Seq<Seq<char>>, k: int)
    requires
        0 <= k <= parts.len(),
    ensures
        scope_json_prefix(parts, k) == join_with(parts.take(k).map_values(|x: Seq<char>| jstr(x)), ","@),
    decreases k,
{
    reveal_strlit(",");
    let m = |x: Seq<char>| jstr(x);
    if k <= 0 {
        assert(parts.take(0).map_values(m) =~= Seq::<Seq<char>>::empty());
    } else if k == 1 {
        assert(parts.take(1).map_values(m) =~= seq![jstr(parts[0])]);
        assert(join_with(seq![jstr(parts[0])], ","@) == jstr(parts[0]));
    } else {
        lemma_scope_json_prefix_all(parts, k - 1);
        crate::strutil::lemma_join_snoc(parts.take(k - 1).map_values(m), jstr(parts[k - 1]), ","@);
        assert(parts.take(k).map_values(m) =~= parts.take(k - 1).map_values(m).push(
            jstr(parts[k - 1]),
        ));
    }
}

/// Write the envelope for a profile and session: exactly the canonical JSON
/// text of [`spec_encode_envelope`]. Saving then loading is the identity:
/// whatever default instant the reader supplies, the written text parses
/// back to version 1, the same profile, and the same session.
pub fn encode_envelope(profile: &str, session: &AuthSession) -> (r: String)
    ensures
        r@ == spec_encode_envelope(profile@, session@),
        forall|read_now: i64| #![auto] spec_parse_envelope(r@, read_now) == Some(
            (1u32, profile@, session@),
        ),
{
    let mut out: Vec<char> = Vec::new();
    append_lit(&mut out, "{\"version\":1,\"profile\":");
    append_jstr(&mut out, profile);
    append_lit(&mut out, ",\"session\":{\"access_token\":");
    append_jstr(&mut out, session.access_token.as_str());
    append_lit(&mut out, ",\"refresh_token\":");
    match &session.refresh_token {
        Some(t) => append_jstr(&mut out, t.as_str()),
        None => append_lit(&mut out, "null"),
    }
    append_lit(&mut out, ",\"token_type\":");
    match &session.token_type {
        TokenType::Bearer => append_lit(&mut out, "\"bearer\""),
        TokenType::ApiKey => append_lit(&mut out, "\"api_key\""),
    }
    append_lit(&mut out, ",\"expires_at\":");
    match &session.expires_at {
        Some(t) => {
            let text = format_rfc3339(*t);
            proof {
                use_type_invariant(*t);
                t.lemma_in_range();
                assert(match session@.expires_at {
                    Some(m) => rfc3339_val_of(rfc3339_of(m)) == Some(m) && ts_in_range(m),
                    None => true,
                });
            }
            append_jstr(&mut out, text.as_str());
        },
        None => append_lit(&mut out, "null"),
    }
    append_lit(&mut out, ",\"scope\":[");
    let ghost scope_base = out@;
    let ghost scope_parts = session.scope.deep_view();
    let mut i: usize = 0;
    while i < session.scope.len()
        invariant
            i <= scope_parts.len(),
            scope_parts == session.scope.deep_view(),
            out@ == scope_base + scope_json_prefix(scope_parts, i as int),
        decreases scope_parts.len() - i,
    {
        if i > 0 {
            append_lit(&mut out, ",");
        }
        append_jstr(&mut out, session.scope[i].as_str());
        i += 1;
        proof {
            assert(scope_parts[i - 1] == session.scope@[i - 1]@);
            assert(out@ =~= scope_base + scope_json_prefix(scope_parts, i as int));
        }
    }
    proof {
        lemma_scope_json_prefix_all(scope_parts, scope_parts.len() as int);
        assert(scope_parts.take(scope_parts.len() as int) =~= scope_parts);
        assert(out@ =~= scope_base + spec_scope_json(session@.scope));
    }
    append_lit(&mut out, "],\"created_at\":");
    let created_text = format_rfc3339(session.created_at);
    proof {
        use_type_invariant(session.created_at);
        session.created_at.lemma_in_range();
    }
    append_jstr(&mut out, created_text.as_str());
    append_lit(&mut out, "}}");
    proof {
        assert(out@ =~= spec_encode_envelope(profile@, session@));
        assert forall|read_now: i64| #![auto] spec_parse_envelope(out@, read_now) == Some(
            (1u32, profile@, session@),
        ) by {
            lemma_parse_encoded(out@, profile@, session@, read_now);
        }
    }
    chars_to_string(&out)
}


/// The numeric value of a decimal digit character.
pub open spec fn digit_val(c: char) -> Option<int> {
    if '0' <= c && c <= '9' {
        Some((c as u32) as int - 48)
    } else {
        None
    }
}

/// The numeric value of a hexadecimal digit character.
pub open spec fn hex_val(c: char) -> Option<int> {
    if '0' <= c && c <= '9' {
        Some((c as u32) as int - 48)
    } else if 'a' <= c && c <= 'f' {
        Some((c as u32) as int - 87)
    } else if 'A' <= c && c <= 'F' {
        Some((c as u32) as int - 55)
    } else {
        None
    }
}

/// The character with a given code below 256.
pub open spec fn char_of_code(v: int) -> char {
    ((0 + v) as u8) as char
}

/// The position after `lit` when it stands at `i`, and `None` otherwise.
pub open spec fn spec_lit_at(s: Seq<char>, i: int, lit: Seq<char>) -> Option<int> {
    if 0 <= i && i + lit.len() <= s.len() && s.subrange(i, i + lit.len()) == lit {
        Some(i + lit.len())
    } else {
        None
    }
}

/// Prepend a character to a parse result.
pub open spec fn jcons(c: char, rest: Option<(Seq<char>, int)>) -> Option<(Seq<char>, int)> {
    match rest {
        Some((t, j)) => Some((seq![c] + t, j)),
        None => None,
    }
}

/// The body of a JSON string read from `i` up to its closing quote: plain
/// characters stand for themselves, `\"` `\\` and `\u00XX` escapes are
/// decoded, and unescaped control characters or other escapes are rejected.
pub open spec fn spec_jstring_body(s: Seq<char>, i: int) -> Option<(Seq<char>, int)>
    decreases s.len() - i,
{
    if i < 0 || i >= s.len() {
        None
    } else if s[i] == '"' {
        Some((seq![], i + 1))
    } else if s[i] == '\\' {
        if i + 1 < s.len() && s[i + 1] == '"' {
            jcons('"', spec_jstring_body(s, i + 2))
        } else if i + 1 < s.len() && s[i + 1] == '\\' {
            jcons('\\', spec_jstring_body(s, i + 2))
        } else if i + 5 < s.len() && s[i + 1] == 'u' && s[i + 2] == '0' && s[i + 3] == '0'
            && hex_val(s[i + 4]) is Some && hex_val(s[i + 5]) is Some && 16 * hex_val(
            s[i + 4],
        )->Some_0 + hex_val(s[i + 5])->Some_0 < 0x20 {
            jcons(
                char_of_code(16 * hex_val(s[i + 4])->Some_0 + hex_val(s[i + 5])->Some_0),
                spec_jstring_body(s, i + 6),
            )
        } else {
            None
        }
    } else if (s[i] as u32) < 0x20 {
        None
    } else {
        jcons(s[i], spec_jstring_body(s, i + 1))
    }
}

/// A JSON string literal read from `i`: an opening quote, then its body.
pub open spec fn spec_jstring(s: Seq<char>, i: int) -> Option<(Seq<char>, int)> {
    if 0 <= i && i < s.len() && s[i] == '"' {
        spec_jstring_body(s, i + 1)
    } else {
        None
    }
}

/// A string body always ends past where it started, within the text.
pub proof fn lemma_jstring_body_mono(s: Seq<char>, i: int)
    ensures
        spec_jstring_body(s, i) matches Some((t, j)) ==> i < j <= s.len(),
    decreases s.len() - i,
{
    if 0 <= i && i < s.len() {
        lemma_jstring_body_mono(s, i + 1);
        if i + 2 <= s.len() {
            lemma_jstring_body_mono(s, i + 2);
        }
        if i + 6 <= s.len() {
            lemma_jstring_body_mono(s, i + 6);
        }
    }
}

/// The first position at or after `i` that does not hold a digit.
pub open spec fn spec_digits_end(s: Seq<char>, i: int) -> int
    decreases s.len() - i,
{
    if 0 <= i && i < s.len() && digit_val(s[i]) is Some {
        spec_digits_end(s, i + 1)
    } else {
        i
    }
}

/// The value of the digits of `s` between `i` and `end`.
pub open spec fn spec_digits_val(s: Seq<char>, i: int, end: int) -> int
    decreases end - i,
{
    if i >= end {
        0
    } else {
        spec_digits_val(s, i, end - 1) * 10 + (match digit_val(s[end - 1]) {
            Some(d) => d,
            None => 0,
        })
    }
}

/// A JSON integer read from `i`, fitting in `u32`: either a single `0`, or a
/// run of at most ten digits not starting with `0` whose value fits.
pub open spec fn spec_parse_u32(s: Seq<char>, i: int) -> Option<(u32, int)> {
    if !(0 <= i && i < s.len() && digit_val(s[i]) is Some) {
        None
    } else if s[i] == '0' {
        Some((0u32, i + 1))
    } else {
        let end = spec_digits_end(s, i);
        if end - i > 10 {
            None
        } else {
            let v = spec_digits_val(s, i, end);
            if v > u32::MAX {
                None
            } else {
                Some((v as u32, end))
            }
        }
    }
}

/// A token type read from `i`: the literal `"bearer"` or `"api_key"`.
pub open spec fn spec_token_type(s: Seq<char>, i: int) -> Option<(TokenType, int)> {
    match spec_lit_at(s, i, "\"bearer\""@) {
        Some(j) => Some((TokenType::Bearer, j)),
        None => match spec_lit_at(s, i, "\"api_key\""@) {
            Some(j) => Some((TokenType::ApiKey, j)),
            None => None,
        },
    }
}

/// `null` or a JSON string, read from `i`.
pub open spec fn spec_opt_jstring(s: Seq<char>, i: int) -> Option<(Option<Seq<char>>, int)> {
    match spec_lit_at(s, i, "null"@) {
        Some(j) => Some((None, j)),
        None => match spec_jstring(s, i) {
            Some((t, j)) => Some((Some(t), j)),
            None => None,
        },
    }
}

/// An RFC 3339 timestamp in a JSON string, read from `i`: the string must
/// parse as RFC 3339 text and fall in the storable range.
pub open spec fn spec_parse_ts(s: Seq<char>, i: int) -> Option<(i64, int)> {
    match spec_jstring(s, i) {
        Some((text, j)) => match rfc3339_val_of(text) {
            Some(v) => if ts_in_range(v) {
                Some((v, j))
            } else {
                None
            },
            None => None,
        },
        None => None,
    }
}

/// `null` or a timestamp string, read from `i`.
pub open spec fn spec_opt_ts(s: Seq<char>, i: int) -> Option<(Option<i64>, int)> {
    match spec_lit_at(s, i, "null"@) {
        Some(j) => Some((None, j)),
        None => match spec_parse_ts(s, i) {
            Some((v, j)) => Some((Some(v), j)),
            None => None,
        },
    }
}

/// One or more comma-separated JSON strings read from `i`, up to and
/// including the closing `]`.
pub open spec fn spec_scope_items(s: Seq<char>, i: int) -> Option<(Seq<Seq<char>>, int)>
    decreases s.len() - i,
    via spec_scope_items_decreases
{
    match spec_jstring(s, i) {
        None => None,
        Some((v, j)) => if 0 <= j && j < s.len() && s[j] == ',' {
            match spec_scope_items(s, j + 1) {
                Some((rest, k)) => Some((seq![v] + rest, k)),
                None => None,
            }
        } else if 0 <= j && j < s.len() && s[j] == ']' {
            Some((seq![v], j + 1))
        } else {
            None
        },
    }
}

#[via_fn]
proof fn spec_scope_items_decreases(s: Seq<char>, i: int) {
    if 0 <= i && i < s.len() && s[i] == '"' {
        lemma_jstring_body_mono(s, i + 1);
    }
}

/// A scope array's contents read from just after its `[`: an immediate `]`
/// for the empty list, or the comma-separated items.
pub open spec fn spec_parse_scope_rest(s: Seq<char>, i: int) -> Option<(Seq<Seq<char>>, int)> {
    if 0 <= i && i < s.len() && s[i] == ']' {
        Some((seq![], i + 1))
    } else {
        spec_scope_items(s, i)
    }
}

/// The envelope's tail after the scope array: either the closing braces at
/// the very end (an older file without `created_at`, which defaults to
/// `now`), or a `created_at` timestamp and then the closing braces at the
/// very end.
pub open spec fn spec_created_tail(s: Seq<char>, i: int, now: i64) -> Option<i64> {
    match spec_lit_at(s, i, "}}"@) {
        Some(j) => if j == s.len() {
            Some(now)
        } else {
            None
        },
        None => match spec_lit_at(s, i, ",\"created_at\":"@) {
            None => None,
            Some(j) => match spec_parse_ts(s, j) {
                None => None,
                Some((v, k)) => match spec_lit_at(s, k, "}}"@) {
                    Some(m) => if m == s.len() {
                        Some(v)
                    } else {
                        None
                    },
                    None => None,
                },
            },
        },
    }
}

/// The whole envelope: the fixed field sequence, ending exactly at the end
/// of the text.
pub open spec fn spec_parse_envelope(s: Seq<char>, now: i64) -> Option<(u32, Seq<char>, SessionView)> {
    match spec_lit_at(s, 0, "{\"version\":"@) {
        None => None,
        Some(i1) => match spec_parse_u32(s, i1) {
            None => None,
            Some((version, i2)) => match spec_lit_at(s, i2, ",\"profile\":"@) {
                None => None,
                Some(i3) => match spec_jstring(s, i3) {
                    None => None,
                    Some((profile, i4)) => match spec_lit_at(
                        s,
                        i4,
                        ",\"session\":{\"access_token\":"@,
                    ) {
                        None => None,
                        Some(i5) => match spec_jstring(s, i5) {
                            None => None,
                            Some((access, i6)) => match spec_lit_at(s, i6, ",\"refresh_token\":"@) {
                                None => None,
                                Some(i7) => match spec_opt_jstring(s, i7) {
                                    None => None,
                                    Some((refresh, i8)) => match spec_lit_at(
                                        s,
                                        i8,
                                        ",\"token_type\":"@,
                                    ) {
                                        None => None,
                                        Some(i9) => match spec_token_type(s, i9) {
                                            None => None,
                                            Some((tt, i10)) => match spec_lit_at(
                                                s,
                                                i10,
                                                ",\"expires_at\":"@,
                                            ) {
                                                None => None,
                                                Some(i11) => match spec_opt_ts(s, i11) {
                                                    None => None,
                                                    Some((expires, i12)) => match spec_lit_at(
                                                        s,
                                                        i12,
                                                        ",\"scope\":["@,
                                                    ) {
                                                        None => None,
                                                        Some(i13) => match spec_parse_scope_rest(
                                                            s,
                                                            i13,
                                                        ) {
                                                            None => None,
                                                            Some((scope, i14)) => match spec_created_tail(
                                                                s,
                                                                i14,
                                                                now,
                                                            ) {
                                                                None => None,
                                                                Some(created) => Some(
                                                                    (
                                                                        version,
                                                                        profile,
                                                                        SessionView {
                                                                            access_token: access,
                                                                            refresh_token: refresh,
                                                                            token_type: tt,
                                                                            expires_at: expires,
                                                                            scope: scope,
                                                                            created_at: created,
                                                                        },
                                                                    ),
                                                                ),
                                                            },
                                                        },
                                                    },
                                                },
                                            },
                                        },
                                    },
                                },
                            },
                        },
                    },
                },
            },
        },
    }
}


/// The position after `lit` when it stands at `i` in `v`.
fn expect_lit(v: &Vec<char>, i: usize, lit: &str) -> (r: Option<usize>)
    ensures
        match r {
            Some(j) => spec_lit_at(v@, i as int, lit@) == Some(j as int),
            None => spec_lit_at(v@, i as int, lit@) is None,
        },
{
    let chars = str_chars(lit);
    let n = chars.len();
    if i > v.len() || v.len() - i < n {
        proof {
            assert(spec_lit_at(v@, i as int, lit@) is None);
        }
        return None;
    }
    let mut k: usize = 0;
    while k < n
        invariant
            k <= n,
            n == chars@.len(),
            chars@ == lit@,
            i + n <= v@.len(),
            v@.len() <= usize::MAX,
            forall|m: int| 0 <= m < k ==> v@[i + m] == lit@[m],
        decreases n - k,
    {
        if v[i + k] != chars[k] {
            proof {
                assert(v@.subrange(i as int, i + lit@.len())[k as int] != lit@[k as int]);
                assert(spec_lit_at(v@, i as int, lit@) is None);
            }
            return None;
        }
        k += 1;
    }
    proof {
        assert(v@.subrange(i as int, i + lit@.len()) =~= lit@);
    }
    Some(i + n)
}

/// A JSON string literal read from `i` in `v`.
fn parse_jstring(v: &Vec<char>, i: usize) -> (r: Option<(Vec<char>, usize)>)
    ensures
        match r {
            Some((t, j)) => spec_jstring(v@, i as int) == Some((t@, j as int)),
            None => spec_jstring(v@, i as int) is None,
        },
{
    if i >= v.len() || v[i] != '"' {
        return None;
    }
    let mut acc: Vec<char> = Vec::new();
    let mut j: usize = i + 1;
    loop
        invariant
            i < v@.len(),
            v@[i as int] == '"',
            i + 1 <= j,
            j <= v@.len(),
            match spec_jstring_body(v@, j as int) {
                Some((t, k)) => spec_jstring_body(v@, i + 1) == Some((acc@ + t, k)),
                None => spec_jstring_body(v@, i + 1) is None,
            },
        decreases v@.len() - j,
    {
        if j >= v.len() {
            return None;
        }
        let c = v[j];
        if c == '"' {
            proof {
                assert(spec_jstring_body(v@, j as int) == Some((Seq::<char>::empty(), j + 1)));
                assert(acc@ + Seq::<char>::empty() =~= acc@);
            }
            return Some((acc, j + 1));
        } else if c == '\\' {
            if v.len() - j > 1 && v[j + 1] == '"' {
                let ghost old_acc = acc@;
                acc.push('"');
                proof {
                    assert(spec_jstring_body(v@, j as int) == jcons(
                        '"',
                        spec_jstring_body(v@, j + 2),
                    ));
                    lemma_body_step(v@, i + 1, j as int, j + 2, '"', old_acc, acc@);
                }
                j += 2;
            } else if v.len() - j > 1 && v[j + 1] == '\\' {
                let ghost old_acc = acc@;
                acc.push('\\');
                proof {
                    assert(spec_jstring_body(v@, j as int) == jcons(
                        '\\',
                        spec_jstring_body(v@, j + 2),
                    ));
                    lemma_body_step(v@, i + 1, j as int, j + 2, '\\', old_acc, acc@);
                }
                j += 2;
            } else if v.len() - j > 5 && v[j + 1] == 'u' && v[j + 2] == '0' && v[j + 3] == '0' {
                let h = match hex_val_exec(v[j + 4]) {
                    Some(h) => h,
                    None => {
                        return None;
                    },
                };
                let l = match hex_val_exec(v[j + 5]) {
                    Some(l) => l,
                    None => {
                        return None;
                    },
                };
                let code: u8 = h * 16 + l;
                if code >= 0x20 {
                    return None;
                }
                let c2: char = (0 + code) as char;
                proof {
                    assert(c2 == char_of_code(16 * hex_val(v@[j + 4])->Some_0 + hex_val(
                        v@[j + 5],
                    )->Some_0));
                }
                let ghost old_acc = acc@;
                acc.push(c2);
                proof {
                    assert(spec_jstring_body(v@, j as int) == jcons(
                        c2,
                        spec_jstring_body(v@, j + 6),
                    ));
                    lemma_body_step(v@, i + 1, j as int, j + 6, c2, old_acc, acc@);
                }
                j += 6;
            } else {
                return None;
            }
        } else {
            let code: u32 = c as u32;
            if code < 0x20 {
                return None;
            }
            let ghost old_acc = acc@;
            acc.push(c);
            proof {
                assert(spec_jstring_body(v@, j as int) == jcons(
                    c,
                    spec_jstring_body(v@, j + 1),
                ));
                lemma_body_step(v@, i + 1, j as int, j + 1, c, old_acc, acc@);
            }
            j += 1;
        }
    }
}

/// One unfolding step of the string body: when the body at `at` is the body
/// at `next` with `c` in front, the accumulated prefix grows by `c`.
proof fn lemma_body_step(
    s: Seq<char>,
    start: int,
    at: int,
    next: int,
    c: char,
    old_acc: Seq<char>,
    new_acc: Seq<char>,
)
    requires
        spec_jstring_body(s, at) == jcons(c, spec_jstring_body(s, next)),
        new_acc == old_acc.push(c),
        match spec_jstring_body(s, at) {
            Some((t, k)) => spec_jstring_body(s, start) == Some((old_acc + t, k)),
            None => spec_jstring_body(s, start) is None,
        },
    ensures
        match spec_jstring_body(s, next) {
            Some((t, k)) => spec_jstring_body(s, start) == Some((new_acc + t, k)),
            None => spec_jstring_body(s, start) is None,
        },
{
    if spec_jstring_body(s, next) is Some {
        let (t, k) = spec_jstring_body(s, next)->Some_0;
        assert(spec_jstring_body(s, at) == Some((seq![c] + t, k)));
        assert(old_acc + (seq![c] + t) =~= new_acc + t);
    }
}

fn hex_val_exec(c: char) -> (r: Option<u8>)
    ensures
        match r {
            Some(d) => hex_val(c) == Some(d as int) && d < 16,
            None => hex_val(c) is None,
        },
{
    let v: u32 = c as u32;
    if '0' <= c && c <= '9' {
        Some((v - 48) as u8)
    } else if 'a' <= c && c <= 'f' {
        Some((v - 87) as u8)
    } else if 'A' <= c && c <= 'F' {
        Some((v - 55) as u8)
    } else {
        None
    }
}


/// Digit runs end exactly where the first non-digit stands.
proof fn lemma_digits_end_at(s: Seq<char>, i: int, j: int)
    requires
        0 <= i <= j <= s.len(),
        forall|k: int| i <= k < j ==> digit_val(s[k]) is Some,
        j == s.len() || digit_val(s[j]) is None,
    ensures
        spec_digits_end(s, i) == j,
    decreases j - i,
{
    if i < j {
        lemma_digits_end_at(s, i + 1, j);
    }
}

/// Ten to the `n`.
pub open spec fn pow10(n: nat) -> int
    decreases n,
{
    if n == 0 {
        1
    } else {
        10 * pow10((n - 1) as nat)
    }
}

/// A digit run of at most ten digits has a value below `10^10`.
proof fn lemma_digits_val_bound(s: Seq<char>, i: int, end: int)
    requires
        i <= end,
        end - i <= 10,
    ensures
        spec_digits_val(s, i, end) < 10_000_000_000,
        spec_digits_val(s, i, end) >= 0,
{
    lemma_digits_val_bound_k(s, i, end, end - i);
    assert(pow10(0) == 1);
    assert(pow10(1) == 10);
    assert(pow10(2) == 100);
    assert(pow10(3) == 1000);
    assert(pow10(4) == 10_000);
    assert(pow10(5) == 100_000);
    assert(pow10(6) == 1_000_000);
    assert(pow10(7) == 10_000_000);
    assert(pow10(8) == 100_000_000);
    assert(pow10(9) == 1_000_000_000);
    assert(pow10(10) == 10_000_000_000);
    lemma_pow10_mono((end - i) as nat, 10);
}

proof fn lemma_pow10_mono(a: nat, b: nat)
    requires
        a <= b,
    ensures
        pow10(a) <= pow10(b),
        pow10(a) >= 1,
    decreases b,
{
    if a == b {
        if a > 0 {
            lemma_pow10_mono((a - 1) as nat, (b - 1) as nat);
        }
    } else {
        lemma_pow10_mono(a, (b - 1) as nat);
    }
}

proof fn lemma_digits_val_bound_k(s: Seq<char>, i: int, end: int, n: int)
    requires
        i <= end,
        end - i == n,
    ensures
        spec_digits_val(s, i, end) < pow10(n as nat),
        spec_digits_val(s, i, end) >= 0,
    decreases n,
{
    if n > 0 {
        lemma_digits_val_bound_k(s, i, end - 1, n - 1);
    }
}

/// A JSON integer fitting in `u32`, read from `i` in `v`.
fn parse_u32_at(v: &Vec<char>, i: usize) -> (r: Option<(u32, usize)>)
    ensures
        match r {
            Some((val, j)) => spec_parse_u32(v@, i as int) == Some((val, j as int)),
            None => spec_parse_u32(v@, i as int) is None,
        },
{
    if i >= v.len() {
        return None;
    }
    let c0 = v[i];
    if !('0' <= c0 && c0 <= '9') {
        return None;
    }
    if c0 == '0' {
        return Some((0, i + 1));
    }
    let mut j: usize = i;
    while j < v.len() && '0' <= v[j] && v[j] <= '9'
        invariant
            i <= j <= v@.len(),
            forall|k: int| i <= k < j ==> digit_val(v@[k]) is Some,
        decreases v@.len() - j,
    {
        j += 1;
    }
    proof {
        lemma_digits_end_at(v@, i as int, j as int);
    }
    if j - i > 10 {
        return None;
    }
    let mut acc: u64 = 0;
    let mut k: usize = i;
    proof {
        lemma_digits_val_bound(v@, i as int, j as int);
    }
    while k < j
        invariant
            i <= k <= j <= v@.len(),
            j - i <= 10,
            forall|m: int| i <= m < j ==> digit_val(v@[m]) is Some,
            acc == spec_digits_val(v@, i as int, k as int),
            acc < 10_000_000_000,
        decreases j - k,
    {
        proof {
            lemma_digits_val_bound(v@, i as int, k + 1);
        }
        let d: u32 = (v[k] as u32) - 48;
        acc = acc * 10 + (d as u64);
        k += 1;
    }
    if acc > 0xFFFF_FFFF {
        None
    } else {
        Some((acc as u32, j))
    }
}

/// The token type read from `i` in `v`.
fn parse_token_type_at(v: &Vec<char>, i: usize) -> (r: Option<(TokenType, usize)>)
    ensures
        match r {
            Some((tt, j)) => spec_token_type(v@, i as int) == Some((tt, j as int)),
            None => spec_token_type(v@, i as int) is None,
        },
{
    match expect_lit(v, i, "\"bearer\"") {
        Some(j) => Some((TokenType::Bearer, j)),
        None => match expect_lit(v, i, "\"api_key\"") {
            Some(j) => Some((TokenType::ApiKey, j)),
            None => None,
        },
    }
}

/// `null` or a JSON string, read from `i` in `v`.
fn parse_opt_jstring_at(v: &Vec<char>, i: usize) -> (r: Option<(Option<String>, usize)>)
    ensures
        match r {
            Some((t, j)) => spec_opt_jstring(v@, i as int) matches Some((st, sj)) && sj == j as int
                && (match t {
                Some(text) => st matches Some(sv) && sv == text@,
                None => st is None,
            }),
            None => spec_opt_jstring(v@, i as int) is None,
        },
{
    match expect_lit(v, i, "null") {
        Some(j) => Some((None, j)),
        None => match parse_jstring(v, i) {
            Some((t, j)) => Some((Some(chars_to_string(&t)), j)),
            None => None,
        },
    }
}

/// A timestamp string read from `i` in `v`.
fn parse_ts_at(v: &Vec<char>, i: usize) -> (r: Option<(Timestamp, usize)>)
    ensures
        match r {
            Some((t, j)) => spec_parse_ts(v@, i as int) matches Some((m, sj)) && t.spec_millis()
                == m && sj == j as int,
            None => spec_parse_ts(v@, i as int) is None,
        },
{
    let (text, j) = match parse_jstring(v, i) {
        Some(tj) => tj,
        None => {
            return None;
        },
    };
    let text_str = chars_to_string(&text);
    match parse_rfc3339_millis(text_str.as_str()) {
        Some(m) => {
            if crate::time::MIN_TIMESTAMP_MILLIS <= m && m <= crate::time::MAX_TIMESTAMP_MILLIS {
                Some((Timestamp::from_millis(m), j))
            } else {
                None
            }
        },
        None => None,
    }
}

/// `null` or a timestamp string, read from `i` in `v`.
fn parse_opt_ts_at(v: &Vec<char>, i: usize) -> (r: Option<(Option<Timestamp>, usize)>)
    ensures
        match r {
            Some((t, j)) => spec_opt_ts(v@, i as int) matches Some((st, sj)) && sj == j as int
                && (match t {
                Some(ts) => st matches Some(m) && m == ts.spec_millis(),
                None => st is None,
            }),
            None => spec_opt_ts(v@, i as int) is None,
        },
{
    match expect_lit(v, i, "null") {
        Some(j) => Some((None, j)),
        None => match parse_ts_at(v, i) {
            Some((t, j)) => Some((Some(t), j)),
            None => None,
        },
    }
}

/// The scope array's contents read from just after its `[` in `v`.
fn parse_scope_rest_at(v: &Vec<char>, i: usize) -> (r: Option<(Vec<String>, usize)>)
    ensures
        match r {
            Some((items, j)) => spec_parse_scope_rest(v@, i as int) == Some(
                (items.deep_view(), j as int),
            ),
            None => spec_parse_scope_rest(v@, i as int) is None,
        },
{
    if i < v.len() && v[i] == ']' {
        let items: Vec<String> = Vec::new();
        proof {
            assert(items.deep_view() =~= Seq::<Seq<char>>::empty());
        }
        return Some((items, i + 1));
    }
    if i > v.len() {
        return None;
    }
    let mut items: Vec<String> = Vec::new();
    let mut j: usize = i;
    proof {
        assert(items.deep_view() =~= Seq::<Seq<char>>::empty());
    }
    loop
        invariant
            i <= j <= v@.len(),
            v@.len() <= usize::MAX,
            spec_parse_scope_rest(v@, i as int) == spec_scope_items(v@, i as int),
            match spec_scope_items(v@, j as int) {
                Some((rest, k)) => spec_scope_items(v@, i as int) == Some(
                    (items.deep_view() + rest, k),
                ),
                None => spec_scope_items(v@, i as int) is None,
            },
        decreases v@.len() - j,
    {
        let (t, k) = match parse_jstring(v, j) {
            Some(tk) => tk,
            None => {
                return None;
            },
        };
        proof {
            lemma_jstring_body_mono(v@, j + 1);
        }
        let ghost old_items = items.deep_view();
        items.push(chars_to_string(&t));
        proof {
            assert(items.deep_view() =~~= old_items.push(t@));
        }
        if k < v.len() && v[k] == ',' {
            proof {
                if spec_scope_items(v@, k + 1) is Some {
                    let (rest, m) = spec_scope_items(v@, k + 1)->Some_0;
                    assert(spec_scope_items(v@, j as int) == Some((seq![t@] + rest, m)));
                    assert(old_items + (seq![t@] + rest) =~= items.deep_view() + rest);
                } else {
                    assert(spec_scope_items(v@, j as int) is None);
                }
            }
            j = k + 1;
        } else if k < v.len() && v[k] == ']' {
            proof {
                assert(spec_scope_items(v@, j as int) == Some((seq![t@], k + 1)));
                assert(old_items + seq![t@] =~= items.deep_view());
                assert(items.deep_view() + Seq::<Seq<char>>::empty() =~= items.deep_view());
                assert(spec_scope_items(v@, i as int) == Some((items.deep_view(), k + 1)));
            }
            return Some((items, k + 1));
        } else {
            return None;
        }
    }
}

/// Read an envelope back from its canonical text: the same fixed field
/// order the encoder writes, with `created_at` defaulting to `now` when the
/// file predates that field. Any other text is rejected.
pub fn parse_envelope(s: &str, now: Timestamp) -> (r: Option<SessionEnvelope>)
    ensures
        match r {
            Some(env) => spec_parse_envelope(s@, now.spec_millis()) matches Some((ver, prof, sv))
                && env.version == ver && env.profile@ == prof && env.session@ == sv,
            None => spec_parse_envelope(s@, now.spec_millis()) is None,
        },
{
    let v = str_chars(s);
    let i1 = match expect_lit(&v, 0, "{\"version\":") {
        Some(i) => i,
        None => {
            return None;
        },
    };
    let (version, i2) = match parse_u32_at(&v, i1) {
        Some(x) => x,
        None => {
            return None;
        },
    };
    let i3 = match expect_lit(&v, i2, ",\"profile\":") {
        Some(i) => i,
        None => {
            return None;
        },
    };
    let (profile_chars, i4) = match parse_jstring(&v, i3) {
        Some(x) => x,
        None => {
            return None;
        },
    };
    let i5 = match expect_lit(&v, i4, ",\"session\":{\"access_token\":") {
        Some(i) => i,
        None => {
            return None;
        },
    };
    let (access_chars, i6) = match parse_jstring(&v, i5) {
        Some(x) => x,
        None => {
            return None;
        },
    };
    let i7 = match expect_lit(&v, i6, ",\"refresh_token\":") {
        Some(i) => i,
        None => {
            return None;
        },
    };
    let (refresh, i8) = match parse_opt_jstring_at(&v, i7) {
        Some(x) => x,
        None => {
            return None;
        },
    };
    let i9 = match expect_lit(&v, i8, ",\"token_type\":") {
        Some(i) => i,
        None => {
            return None;
        },
    };
    let (token_type, i10) = match parse_token_type_at(&v, i9) {
        Some(x) => x,
        None => {
            return None;
        },
    };
    let i11 = match expect_lit(&v, i10, ",\"expires_at\":") {
        Some(i) => i,
        None => {
            return None;
        },
    };
    let (expires_at, i12) = match parse_opt_ts_at(&v, i11) {
        Some(x) => x,
        None => {
            return None;
        },
    };
    let i13 = match expect_lit(&v, i12, ",\"scope\":[") {
        Some(i) => i,
        None => {
            return None;
        },
    };
    let (scope, i14) = match parse_scope_rest_at(&v, i13) {
        Some(x) => x,
        None => {
            return None;
        },
    };
    let created_at: Timestamp;
    match expect_lit(&v, i14, "}}") {
        Some(j) => {
            if j != v.len() {
                return None;
            }
            created_at = now;
        },
        None => {
            let jc = match expect_lit(&v, i14, ",\"created_at\":") {
                Some(i) => i,
                None => {
                    return None;
                },
            };
            let (created, k) = match parse_ts_at(&v, jc) {
                Some(x) => x,
                None => {
                    return None;
                },
            };
            let m = match expect_lit(&v, k, "}}") {
                Some(i) => i,
                None => {
                    return None;
                },
            };
            if m != v.len() {
                return None;
            }
            created_at = created;
        },
    }
    let session = AuthSession {
        access_token: chars_to_string(&access_chars),
        refresh_token: refresh,
        token_type,
        expires_at,
        scope,
        created_at,
    };
    let env = SessionEnvelope { version, profile: chars_to_string(&profile_chars), session };
    proof {
        let (ver, prof, sv) = spec_parse_envelope(s@, now.spec_millis())->Some_0;
        assert(env.session@ =~= sv);
    }
    Some(env)
}



/// Indexing into a suffix reads the underlying sequence.
proof fn lemma_skip_index(s: Seq<char>, i: int, k: int)
    requires
        0 <= i,
        0 <= k,
        i + k < s.len(),
    ensures
        s.skip(i)[k] == s[i + k],
{
}

/// Splitting a known suffix: the characters of `a` stand at `i`, and `b`
/// is the suffix after them.
proof fn lemma_skip_split(s: Seq<char>, i: int, a: Seq<char>, b: Seq<char>)
    requires
        0 <= i <= s.len(),
        s.skip(i) == a + b,
    ensures
        i + a.len() + b.len() == s.len(),
        s.skip(i + a.len()) == b,
        forall|k: int| 0 <= k < a.len() ==> s[i + k] == a[k],
        a.len() > 0 ==> s[i] == a[0],
{
    assert(s.skip(i).len() == a.len() + b.len());
    if a.len() > 0 {
        lemma_skip_index(s, i, 0);
        assert(s[i + 0] == a[0]);
    }
    assert forall|k: int| 0 <= k < a.len() implies s[i + k] == a[k] by {
        lemma_skip_index(s, i, k);
    }
    assert(s.skip(i + a.len()) =~= b) by {
        assert forall|k: int| 0 <= k < b.len() implies s.skip(i + a.len())[k] == b[k] by {
            lemma_skip_index(s, i + a.len(), k);
            lemma_skip_index(s, i, a.len() + k);
        }
    }
}

/// A control character comes back from its code.
proof fn lemma_char_code_roundtrip(c: char)
    requires
        (c as u32) < 0x20,
    ensures
        ((c as u32) as u8) as char == c,
{
    let b: u8 = (c as u32) as u8;
    assert((b as char) as u32 == c as u32);
    assert(b as char == c);
}

/// A literal standing at `i` parses there, leaving the rest.
proof fn lemma_lit_step(s: Seq<char>, i: int, lit: Seq<char>, rest: Seq<char>)
    requires
        0 <= i <= s.len(),
        s.skip(i) == lit + rest,
    ensures
        spec_lit_at(s, i, lit) == Some(i + lit.len()),
        s.skip(i + lit.len()) == rest,
        i + lit.len() <= s.len(),
{
    lemma_skip_split(s, i, lit, rest);
    assert(s.subrange(i, i + lit.len()) =~= lit);
}

/// `hex_val` reads back what `hex_lower` wrote.
proof fn lemma_hex_lower_val(d: int)
    requires
        0 <= d < 16,
    ensures
        hex_val(hex_lower(d)) == Some(d),
{
}

/// A string body standing escaped at `i` parses there, leaving the rest.
proof fn lemma_jstring_body_exact(s: Seq<char>, i: int, x: Seq<char>, rest: Seq<char>)
    requires
        0 <= i <= s.len(),
        s.skip(i) == esc(x) + seq!['"'] + rest,
    ensures
        spec_jstring_body(s, i) == Some((x, i + esc(x).len() + 1)),
        s.skip(i + esc(x).len() + 1) == rest,
        i + esc(x).len() + 1 <= s.len(),
    decreases x.len(),
{
    assert(s.skip(i).len() == esc(x).len() + 1 + rest.len());
    if x.len() == 0 {
        assert(esc(x) =~= Seq::<char>::empty());
        assert(s.skip(i) =~= seq!['"'] + rest);
        lemma_skip_split(s, i, seq!['"'], rest);
        assert(s[i] == '"');
        assert(spec_jstring_body(s, i) == Some((Seq::<char>::empty(), i + 1)));
        assert(x =~= Seq::<char>::empty());
    } else {
        let c = x[0];
        let e = esc_char(c);
        let x2 = x.drop_first();
        assert(esc(x) == e + esc(x2));
        let i2 = i + e.len();
        assert(s.skip(i) =~= e + (esc(x2) + seq!['"'] + rest));
        lemma_skip_split(s, i, e, esc(x2) + seq!['"'] + rest);
        lemma_jstring_body_exact(s, i2, x2, rest);
        assert(seq![c] + x2 =~= x);
        if c == '"' {
            assert(s[i] == e[0] && s[i + 1] == e[1]);
            assert(s[i] == '\\' && s[i + 1] == '"');
            assert(spec_jstring_body(s, i) == jcons('"', spec_jstring_body(s, i + 2)));
        } else if c == '\\' {
            assert(s[i] == e[0] && s[i + 1] == e[1]);
            assert(s[i] == '\\' && s[i + 1] == '\\');
            assert(spec_jstring_body(s, i) == jcons('\\', spec_jstring_body(s, i + 2)));
        } else if (c as u32) < 0x20 {
            let v = (c as u32) as int;
            assert(s[i] == e[0] && s[i + 1] == e[1] && s[i + 2] == e[2] && s[i + 3] == e[3]
                && s[i + 4] == e[4] && s[i + 5] == e[5]);
            assert(s[i] == '\\' && s[i + 1] == 'u' && s[i + 2] == '0' && s[i + 3] == '0');
            assert(s[i + 4] == hex_lower(v / 16) && s[i + 5] == hex_lower(v % 16));
            lemma_hex_lower_val(v / 16);
            lemma_hex_lower_val(v % 16);
            assert(16 * (v / 16) + v % 16 == v);
            lemma_char_code_roundtrip(c);
            assert(((0 + v) as u8) == ((c as u32) as u8));
            assert(char_of_code(v) == c);
            assert(spec_jstring_body(s, i) == jcons(c, spec_jstring_body(s, i + 6)));
        } else {
            assert(s[i] == e[0]);
            assert(s[i] == c);
            assert(spec_jstring_body(s, i) == jcons(c, spec_jstring_body(s, i + 1)));
        }
    }
}

/// A JSON string literal standing at `i` parses there, leaving the rest.
proof fn lemma_jstring_step(s: Seq<char>, i: int, x: Seq<char>, rest: Seq<char>)
    requires
        0 <= i <= s.len(),
        s.skip(i) == jstr(x) + rest,
    ensures
        spec_jstring(s, i) == Some((x, i + jstr(x).len())),
        s.skip(i + jstr(x).len()) == rest,
        i + jstr(x).len() <= s.len(),
{
    assert(s.skip(i).len() == jstr(x).len() + rest.len());
    assert(s.skip(i) =~= seq!['"'] + (esc(x) + seq!['"'] + rest));
    lemma_skip_split(s, i, seq!['"'], esc(x) + seq!['"'] + rest);
    assert(s[i] == '"');
    lemma_jstring_body_exact(s, i + 1, x, rest);
}

/// The version digit `1` standing at `i` parses there.
proof fn lemma_u32_one_step(s: Seq<char>, i: int, rest: Seq<char>)
    requires
        0 <= i <= s.len(),
        s.skip(i) == seq!['1'] + rest,
        rest.len() > 0,
        digit_val(rest[0]) is None,
    ensures
        spec_parse_u32(s, i) == Some((1u32, i + 1)),
        s.skip(i + 1) == rest,
{
    lemma_skip_split(s, i, seq!['1'], rest);
    assert(s[i] == '1');
    lemma_skip_index(s, i + 1, 0);
    assert(s[i + 1] == rest[0]);
    assert(spec_digits_end(s, i + 1) == i + 1);
    assert(spec_digits_end(s, i) == i + 1);
    assert(spec_digits_val(s, i, i + 1) == spec_digits_val(s, i, i) * 10 + 1);
}

/// A scope list standing at `i` (followed by its `]`) parses there.
proof fn lemma_scope_step(s: Seq<char>, i: int, scope: Seq<Seq<char>>, rest: Seq<char>)
    requires
        0 <= i <= s.len(),
        s.skip(i) == spec_scope_json(scope) + seq![']'] + rest,
    ensures
        spec_parse_scope_rest(s, i) == Some((scope, i + spec_scope_json(scope).len() + 1)),
        s.skip(i + spec_scope_json(scope).len() + 1) == rest,
    decreases scope.len(),
{
    let m = |x: Seq<char>| jstr(x);
    assert(s.skip(i).len() == spec_scope_json(scope).len() + 1 + rest.len());
    if scope.len() == 0 {
        assert(scope.map_values(m) =~= Seq::<Seq<char>>::empty());
        assert(spec_scope_json(scope) =~= Seq::<char>::empty());
        assert(s.skip(i) =~= seq![']'] + rest);
        lemma_skip_split(s, i, seq![']'], rest);
        assert(s[i] == ']');
        assert(scope =~= Seq::<Seq<char>>::empty());
    } else {
        assert(scope.map_values(m).len() == scope.len());
        assert(scope.map_values(m)[0] == jstr(scope[0]));
        if scope.len() == 1 {
            assert(spec_scope_json(scope) == jstr(scope[0]));
            assert(s.skip(i) =~= jstr(scope[0]) + (seq![']'] + rest));
            lemma_jstring_step(s, i, scope[0], seq![']'] + rest);
            let j = i + jstr(scope[0]).len();
            lemma_skip_split(s, j, seq![']'], rest);
            assert(s[j] == ']');
            assert(s[i] == '"') by {
                lemma_skip_index(s, i, 0);
            }
            assert(spec_scope_items(s, i) == Some((seq![scope[0]], j + 1)));
            assert(seq![scope[0]] =~= scope);
        } else {
            let scope2 = scope.drop_first();
            assert(scope.map_values(m).drop_first() =~= scope2.map_values(m));
            assert(spec_scope_json(scope) == jstr(scope[0]) + ","@ + spec_scope_json(scope2));
            reveal_strlit(",");
            assert(s.skip(i) =~= jstr(scope[0]) + (","@ + spec_scope_json(scope2) + seq![']']
                + rest));
            lemma_jstring_step(s, i, scope[0], ","@ + spec_scope_json(scope2) + seq![']'] + rest);
            let j = i + jstr(scope[0]).len();
            assert(s.skip(j) =~= ","@ + (spec_scope_json(scope2) + seq![']'] + rest));
            lemma_skip_split(s, j, ","@, spec_scope_json(scope2) + seq![']'] + rest);
            assert(s[j] == ',');
            lemma_scope_step(s, j + 1, scope2, rest);
            assert(spec_parse_scope_rest(s, j + 1) == spec_scope_items(s, j + 1)) by {
                assert(scope2.map_values(m).len() == scope2.len());
                assert(scope2.map_values(m)[0] == jstr(scope2[0]));
                if scope2.len() == 1 {
                    assert(spec_scope_json(scope2) == jstr(scope2[0]));
                } else {
                    assert(spec_scope_json(scope2) == jstr(scope2[0]) + ","@ + spec_scope_json(
                        scope2.drop_first(),
                    )) by {
                        assert(scope2.map_values(m).drop_first() =~= scope2.drop_first().map_values(
                            m,
                        ));
                    }
                }
                lemma_skip_index(s, j + 1, 0);
                assert(s[j + 1] == '"');
            }
            assert(s[i] == '"') by {
                lemma_skip_index(s, i, 0);
            }
            assert(spec_scope_items(s, i) == Some(
                (seq![scope[0]] + scope2, i + spec_scope_json(scope).len() + 1),
            ));
            assert(seq![scope[0]] + scope2 =~= scope);
            assert(spec_parse_scope_rest(s, i) == spec_scope_items(s, i));
        }
    }
}


/// The encoder's text, decomposed suffix by suffix for the round-trip
/// proof.
spec fn enc_s17() -> Seq<char> {
    "}}"@
}

spec fn enc_s16(sv: SessionView) -> Seq<char> {
    jstr(rfc3339_of(sv.created_at)) + enc_s17()
}

spec fn enc_s15(sv: SessionView) -> Seq<char> {
    ",\"created_at\":"@ + enc_s16(sv)
}

spec fn enc_s14b(sv: SessionView) -> Seq<char> {
    seq![']'] + enc_s15(sv)
}

spec fn enc_s14(sv: SessionView) -> Seq<char> {
    spec_scope_json(sv.scope) + enc_s14b(sv)
}

spec fn enc_s13(sv: SessionView) -> Seq<char> {
    ",\"scope\":["@ + enc_s14(sv)
}

spec fn enc_p12(sv: SessionView) -> Seq<char> {
    match sv.expires_at {
        Some(t) => jstr(rfc3339_of(t)),
        None => "null"@,
    }
}

spec fn enc_s12(sv: SessionView) -> Seq<char> {
    enc_p12(sv) + enc_s13(sv)
}

spec fn enc_s11(sv: SessionView) -> Seq<char> {
    ",\"expires_at\":"@ + enc_s12(sv)
}

spec fn enc_p10(sv: SessionView) -> Seq<char> {
    if sv.token_type == TokenType::Bearer {
        "\"bearer\""@
    } else {
        "\"api_key\""@
    }
}

spec fn enc_s10(sv: SessionView) -> Seq<char> {
    enc_p10(sv) + enc_s11(sv)
}

spec fn enc_s9(sv: SessionView) -> Seq<char> {
    ",\"token_type\":"@ + enc_s10(sv)
}

spec fn enc_p8(sv: SessionView) -> Seq<char> {
    match sv.refresh_token {
        Some(t) => jstr(t),
        None => "null"@,
    }
}

spec fn enc_s8(sv: SessionView) -> Seq<char> {
    enc_p8(sv) + enc_s9(sv)
}

spec fn enc_s7(sv: SessionView) -> Seq<char> {
    ",\"refresh_token\":"@ + enc_s8(sv)
}

spec fn enc_s6(sv: SessionView) -> Seq<char> {
    jstr(sv.access_token) + enc_s7(sv)
}

spec fn enc_s5(sv: SessionView) -> Seq<char> {
    ",\"session\":{\"access_token\":"@ + enc_s6(sv)
}

spec fn enc_s4(profile: Seq<char>, sv: SessionView) -> Seq<char> {
    jstr(profile) + enc_s5(sv)
}

spec fn enc_s3(profile: Seq<char>, sv: SessionView) -> Seq<char> {
    ",\"profile\":"@ + enc_s4(profile, sv)
}

spec fn enc_s2(profile: Seq<char>, sv: SessionView) -> Seq<char> {
    seq!['1'] + enc_s3(profile, sv)
}

spec fn enc_s1(profile: Seq<char>, sv: SessionView) -> Seq<char> {
    "{\"version\":"@ + enc_s2(profile, sv)
}

/// The encoder's text regrouped right to left, piece by piece.
#[verifier::rlimit(100)]
#[verifier::spinoff_prover]
proof fn lemma_encode_regroup(profile: Seq<char>, sv: SessionView)
    ensures
        spec_encode_envelope(profile, sv) == enc_s1(profile, sv),
{
    reveal_strlit("{\"version\":1,\"profile\":");
    reveal_strlit("{\"version\":");
    reveal_strlit(",\"profile\":");
    reveal_strlit("],\"created_at\":");
    reveal_strlit(",\"created_at\":");
    assert("{\"version\":1,\"profile\":"@ =~= "{\"version\":"@ + (seq!['1'] + ",\"profile\":"@));
    assert("],\"created_at\":"@ =~= seq![']'] + ",\"created_at\":"@);
    assert(spec_encode_envelope(profile, sv) =~= enc_s1(profile, sv));
}

/// The canonical text of an envelope parses back to exactly that envelope,
/// whatever default instant the reader supplies.
#[verifier::rlimit(100)]
#[verifier::spinoff_prover]
proof fn lemma_parse_encoded(s: Seq<char>, profile: Seq<char>, sv: SessionView, now: i64)
    requires
        s == spec_encode_envelope(profile, sv),
        match sv.expires_at {
            Some(t) => rfc3339_val_of(rfc3339_of(t)) == Some(t) && ts_in_range(t),
            None => true,
        },
        rfc3339_val_of(rfc3339_of(sv.created_at)) == Some(sv.created_at),
        ts_in_range(sv.created_at),
    ensures
        spec_parse_envelope(s, now) == Some((1u32, profile, sv)),
{
    reveal_strlit("{\"version\":");
    reveal_strlit("1");
    reveal_strlit(",\"profile\":");
    reveal_strlit(",\"session\":{\"access_token\":");
    reveal_strlit(",\"refresh_token\":");
    reveal_strlit("null");
    reveal_strlit(",\"token_type\":");
    reveal_strlit("\"bearer\"");
    reveal_strlit("\"api_key\"");
    reveal_strlit(",\"expires_at\":");
    reveal_strlit(",\"scope\":[");
    reveal_strlit(",\"created_at\":");
    reveal_strlit("}}");
    lemma_encode_regroup(profile, sv);
    assert(s.skip(0) =~= enc_s1(profile, sv));
    lemma_lit_step(s, 0, "{\"version\":"@, enc_s2(profile, sv));
    let i1 = "{\"version\":"@.len() as int;
    assert(enc_s3(profile, sv)[0] == ',');
    lemma_u32_one_step(s, i1, enc_s3(profile, sv));
    let i2 = i1 + 1;
    lemma_lit_step(s, i2, ",\"profile\":"@, enc_s4(profile, sv));
    let i3 = i2 + ",\"profile\":"@.len() as int;
    lemma_jstring_step(s, i3, profile, enc_s5(sv));
    let i4 = i3 + jstr(profile).len() as int;
    lemma_lit_step(s, i4, ",\"session\":{\"access_token\":"@, enc_s6(sv));
    let i5 = i4 + ",\"session\":{\"access_token\":"@.len() as int;
    lemma_jstring_step(s, i5, sv.access_token, enc_s7(sv));
    let i6 = i5 + jstr(sv.access_token).len() as int;
    lemma_lit_step(s, i6, ",\"refresh_token\":"@, enc_s8(sv));
    let i7 = i6 + ",\"refresh_token\":"@.len() as int;
    let i8 = i7 + enc_p8(sv).len() as int;
    match sv.refresh_token {
        Some(t) => {
            assert(s.skip(i7) =~= jstr(t) + enc_s9(sv));
            lemma_jstring_step(s, i7, t, enc_s9(sv));
            assert(s[i7] == '"') by {
                lemma_skip_index(s, i7, 0);
            }
            assert(spec_lit_at(s, i7, "null"@) is None) by {
                if spec_lit_at(s, i7, "null"@) is Some {
                    assert(s.subrange(i7, i7 + 4)[0] == s[i7]);
                }
            }
            assert(spec_opt_jstring(s, i7) == Some((Some(t), i8)));
        },
        None => {
            assert(s.skip(i7) =~= "null"@ + enc_s9(sv));
            lemma_lit_step(s, i7, "null"@, enc_s9(sv));
            assert(spec_opt_jstring(s, i7) == Some((None::<Seq<char>>, i8)));
        },
    }
    assert(s.skip(i8) == enc_s9(sv));
    lemma_lit_step(s, i8, ",\"token_type\":"@, enc_s10(sv));
    let i9 = i8 + ",\"token_type\":"@.len() as int;
    let i10 = i9 + enc_p10(sv).len() as int;
    if sv.token_type == TokenType::Bearer {
        assert(s.skip(i9) =~= "\"bearer\""@ + enc_s11(sv));
        lemma_lit_step(s, i9, "\"bearer\""@, enc_s11(sv));
        assert(spec_token_type(s, i9) == Some((TokenType::Bearer, i10)));
    } else {
        assert(s.skip(i9) =~= "\"api_key\""@ + enc_s11(sv));
        lemma_lit_step(s, i9, "\"api_key\""@, enc_s11(sv));
        assert(spec_lit_at(s, i9, "\"bearer\""@) is None) by {
            assert(s[i9 + 1] == 'a');
            if spec_lit_at(s, i9, "\"bearer\""@) is Some {
                assert(s.subrange(i9, i9 + 8)[1] == s[i9 + 1]);
            }
        }
        assert(spec_token_type(s, i9) == Some((TokenType::ApiKey, i10)));
        assert(sv.token_type == TokenType::ApiKey);
    }
    assert(s.skip(i10) == enc_s11(sv));
    lemma_lit_step(s, i10, ",\"expires_at\":"@, enc_s12(sv));
    let i11 = i10 + ",\"expires_at\":"@.len() as int;
    let i12 = i11 + enc_p12(sv).len() as int;
    match sv.expires_at {
        Some(t) => {
            assert(s.skip(i11) =~= jstr(rfc3339_of(t)) + enc_s13(sv));
            lemma_jstring_step(s, i11, rfc3339_of(t), enc_s13(sv));
            assert(s[i11] == '"') by {
                lemma_skip_index(s, i11, 0);
            }
            assert(spec_lit_at(s, i11, "null"@) is None) by {
                if spec_lit_at(s, i11, "null"@) is Some {
                    assert(s.subrange(i11, i11 + 4)[0] == s[i11]);
                }
            }
            assert(spec_parse_ts(s, i11) == Some((t, i12)));
            assert(spec_opt_ts(s, i11) == Some((Some(t), i12)));
        },
        None => {
            assert(s.skip(i11) =~= "null"@ + enc_s13(sv));
            lemma_lit_step(s, i11, "null"@, enc_s13(sv));
            assert(spec_opt_ts(s, i11) == Some((None::<i64>, i12)));
        },
    }
    assert(s.skip(i12) == enc_s13(sv));
    lemma_lit_step(s, i12, ",\"scope\":["@, enc_s14(sv));
    let i13 = i12 + ",\"scope\":["@.len() as int;
    assert(s.skip(i13) =~= spec_scope_json(sv.scope) + seq![']'] + enc_s15(sv));
    lemma_scope_step(s, i13, sv.scope, enc_s15(sv));
    let i14 = i13 + spec_scope_json(sv.scope).len() as int + 1;
    assert(s.skip(i14) == enc_s15(sv));
    assert(spec_lit_at(s, i14, "}}"@) is None) by {
        assert(s[i14] == ',') by {
            lemma_skip_index(s, i14, 0);
        }
        if spec_lit_at(s, i14, "}}"@) is Some {
            assert(s.subrange(i14, i14 + 2)[0] == s[i14]);
        }
    }
    lemma_lit_step(s, i14, ",\"created_at\":"@, enc_s16(sv));
    let i15 = i14 + ",\"created_at\":"@.len() as int;
    lemma_jstring_step(s, i15, rfc3339_of(sv.created_at), enc_s17());
    let i16 = i15 + jstr(rfc3339_of(sv.created_at)).len() as int;
    assert(spec_parse_ts(s, i15) == Some((sv.created_at, i16)));
    assert(s.skip(i16) == enc_s17());
    lemma_lit_step(s, i16, "}}"@, Seq::<char>::empty());
    let i17 = i16 + 2;
    assert(s.skip(i17) =~= Seq::<char>::empty());
    assert(s.skip(i17).len() == s.len() - i17);
    assert(i17 == s.len());
    assert(spec_created_tail(s, i14, now) == Some(sv.created_at));
    assert(spec_parse_envelope(s, now) == Some(
        (
            1u32,
            profile,
            SessionView {
                access_token: sv.access_token,
                refresh_token: sv.refresh_token,
                token_type: sv.token_type,
                expires_at: sv.expires_at,
                scope: sv.scope,
                created_at: sv.created_at,
            },
        ),
    ));
    assert(SessionView {
        access_token: sv.access_token,
        refresh_token: sv.refresh_token,
        token_type: sv.token_type,
        expires_at: sv.expires_at,
        scope: sv.scope,
        created_at: sv.created_at,
    } =~= sv);
}

} // verus!
