//! Small verified string helpers: character extraction, decimal printing,
//! ASCII case folding, whitespace trimming and splitting.

use vstd::prelude::*;

verus! {

/// The characters of `s`, as a vector.
pub fn str_chars(s: &str) -> (r: Vec<char>)
    ensures
        r@ == s@,
{
    let n = s.unicode_len();
    let mut r: Vec<char> = Vec::new();
    let mut i: usize = 0;
    while i < n
        invariant
            i <= n,
            n == s@.len(),
            r@ == s@.subrange(0, i as int),
        decreases n - i,
    {
        r.push(s.get_char(i));
        i += 1;
        proof {
            assert(r@ =~= s@.subrange(0, i as int));
        }
    }
    proof {
        assert(r@ =~= s@);
    }
    r
}

/// Relies on `core::char::from_u32`: `Some` exactly on Unicode scalar values,
/// and the returned character has the given scalar value.
#[verifier::external_body]
pub fn char_from_u32(v: u32) -> (r: Option<char>)
    ensures
        r is Some <==> (v < 0xD800 || (0xE000 <= v && v <= 0x10FFFF)),
        r matches Some(c) ==> c as u32 == v,
{
    char::from_u32(v)
}

/// Relies on `String`'s `FromIterator<char>` impl: collecting characters
/// yields the string with exactly those characters.
#[verifier::external_body]
pub fn chars_to_string(v: &Vec<char>) -> (r: String)
    ensures
        r@ == v@,
{
    v.iter().collect()
}

/// The decimal digit character for `d` (which must be below 10).
pub open spec fn digit_of(d: int) -> char {
    ((48 + d) as u8) as char
}

/// The decimal representation of `n`, most significant digit first.
pub open spec fn dec_of(n: int) -> Seq<char>
    decreases n,
{
    if n < 10 {
        seq![digit_of(if n < 0 { 0 } else { n })]
    } else {
        dec_of(n / 10).push(digit_of(n % 10))
    }
}

/// The decimal digits of `n`.
pub fn u64_to_chars(n: u64) -> (r: Vec<char>)
    ensures
        r@ == dec_of(n as int),
    decreases n,
{
    if n < 10 {
        let c: char = (48 + (n as u8)) as char;
        let mut r: Vec<char> = Vec::new();
        r.push(c);
        proof {
            assert(r@ =~= dec_of(n as int));
        }
        r
    } else {
        let mut r = u64_to_chars(n / 10);
        let c: char = (48 + ((n % 10) as u8)) as char;
        r.push(c);
        r
    }
}

/// The decimal digits of `n`, as a string.
pub fn u64_to_string(n: u64) -> (r: String)
    ensures
        r@ == dec_of(n as int),
{
    let v = u64_to_chars(n);
    chars_to_string(&v)
}

/// `c` with an ASCII upper-case letter folded to lower case.
pub open spec fn lower_char(c: char) -> char {
    if c == 'A' { 'a' } else if c == 'B' { 'b' } else if c == 'C' { 'c' }
    else if c == 'D' { 'd' } else if c == 'E' { 'e' } else if c == 'F' { 'f' }
    else if c == 'G' { 'g' } else if c == 'H' { 'h' } else if c == 'I' { 'i' }
    else if c == 'J' { 'j' } else if c == 'K' { 'k' } else if c == 'L' { 'l' }
    else if c == 'M' { 'm' } else if c == 'N' { 'n' } else if c == 'O' { 'o' }
    else if c == 'P' { 'p' } else if c == 'Q' { 'q' } else if c == 'R' { 'r' }
    else if c == 'S' { 's' } else if c == 'T' { 't' } else if c == 'U' { 'u' }
    else if c == 'V' { 'v' } else if c == 'W' { 'w' } else if c == 'X' { 'x' }
    else if c == 'Y' { 'y' } else if c == 'Z' { 'z' } else { c }
}

/// `s` with ASCII upper-case letters folded to lower case.
pub open spec fn lower_chars(s: Seq<char>) -> Seq<char> {
    s.map_values(|c: char| lower_char(c))
}

/// `s` with ASCII upper-case letters folded to lower case.
pub fn to_ascii_lower(s: &Vec<char>) -> (r: Vec<char>)
    ensures
        r@ == lower_chars(s@),
{
    let mut r: Vec<char> = Vec::new();
    let mut i: usize = 0;
    while i < s.len()
        invariant
            i <= s@.len(),
            r@ == lower_chars(s@.subrange(0, i as int)),
        decreases s@.len() - i,
    {
        let c = s[i];
        let f = match c {
            'A' => 'a', 'B' => 'b', 'C' => 'c', 'D' => 'd', 'E' => 'e', 'F' => 'f',
            'G' => 'g', 'H' => 'h', 'I' => 'i', 'J' => 'j', 'K' => 'k', 'L' => 'l',
            'M' => 'm', 'N' => 'n', 'O' => 'o', 'P' => 'p', 'Q' => 'q', 'R' => 'r',
            'S' => 's', 'T' => 't', 'U' => 'u', 'V' => 'v', 'W' => 'w', 'X' => 'x',
            'Y' => 'y', 'Z' => 'z', other => other,
        };
        r.push(f);
        i += 1;
        proof {
            assert(r@ =~= lower_chars(s@.subrange(0, i as int)));
        }
    }
    proof {
        assert(s@.subrange(0, s@.len() as int) =~= s@);
    }
    r
}

/// True when the characters of `v` are exactly those of `s`.
pub fn chars_eq_str(v: &Vec<char>, s: &str) -> (r: bool)
    ensures
        r == (v@ == s@),
{
    let n = s.unicode_len();
    if v.len() != n {
        proof {
            assert(v@ != s@);
        }
        return false;
    }
    let mut i: usize = 0;
    while i < n
        invariant
            i <= n,
            n == s@.len(),
            v@.len() == n,
            forall|k: int| 0 <= k < i ==> v@[k] == s@[k],
        decreases n - i,
    {
        if v[i] != s.get_char(i) {
            proof {
                assert(v@[i as int] != s@[i as int]);
            }
            return false;
        }
        i += 1;
    }
    proof {
        assert(v@ =~= s@);
    }
    true
}

/// True when some character of `s` is `c`.
pub fn str_contains_char(s: &str, c: char) -> (r: bool)
    ensures
        r == s@.contains(c),
{
    let n = s.unicode_len();
    let mut i: usize = 0;
    while i < n
        invariant
            i <= n,
            n == s@.len(),
            forall|k: int| 0 <= k < i ==> s@[k] != c,
        decreases n - i,
    {
        if s.get_char(i) == c {
            proof {
                assert(s@[i as int] == c);
            }
            return true;
        }
        i += 1;
    }
    proof {
        assert(!s@.contains(c));
    }
    false
}

/// True for the blank characters stripped from pasted input.
pub open spec fn is_space(c: char) -> bool {
    c == ' ' || c == '\t' || c == '\n' || c == '\r'
}

/// `s` without leading blank characters.
pub open spec fn trim_start_chars(s: Seq<char>) -> Seq<char>
    decreases s.len(),
{
    if s.len() > 0 && is_space(s[0]) {
        trim_start_chars(s.drop_first())
    } else {
        s
    }
}

/// `s` without trailing blank characters.
pub open spec fn trim_end_chars(s: Seq<char>) -> Seq<char>
    decreases s.len(),
{
    if s.len() > 0 && is_space(s[s.len() - 1]) {
        trim_end_chars(s.drop_last())
    } else {
        s
    }
}

/// `s` without leading or trailing blank characters.
pub open spec fn trim_chars(s: Seq<char>) -> Seq<char> {
    trim_end_chars(trim_start_chars(s))
}

fn is_space_exec(c: char) -> (r: bool)
    ensures
        r == is_space(c),
{
    c == ' ' || c == '\t' || c == '\n' || c == '\r'
}

/// `s` without leading or trailing blank characters.
pub fn trim(s: &Vec<char>) -> (r: Vec<char>)
    ensures
        r@ == trim_chars(s@),
{
    let mut lo: usize = 0;
    proof {
        assert(s@.subrange(0, s@.len() as int) =~= s@);
    }
    while lo < s.len() && is_space_exec(s[lo])
        invariant
            lo <= s@.len(),
            trim_start_chars(s@) == trim_start_chars(s@.subrange(lo as int, s@.len() as int)),
        decreases s@.len() - lo,
    {
        proof {
            assert(s@.subrange(lo as int, s@.len() as int).drop_first() =~= s@.subrange(
                lo as int + 1,
                s@.len() as int,
            ));
        }
        lo += 1;
    }
    let mut hi: usize = s.len();
    while hi > lo && is_space_exec(s[hi - 1])
        invariant
            lo <= hi <= s@.len(),
            trim_start_chars(s@) == trim_start_chars(s@.subrange(lo as int, s@.len() as int)),
            lo < s@.len() ==> !is_space(s@[lo as int]),
            trim_end_chars(s@.subrange(lo as int, s@.len() as int)) == trim_end_chars(
                s@.subrange(lo as int, hi as int),
            ),
        decreases hi,
    {
        proof {
            assert(s@.subrange(lo as int, hi as int).drop_last() =~= s@.subrange(
                lo as int,
                hi as int - 1,
            ));
        }
        hi -= 1;
    }
    let mut r: Vec<char> = Vec::new();
    let mut i: usize = lo;
    while i < hi
        invariant
            lo <= i <= hi <= s@.len(),
            r@ == s@.subrange(lo as int, i as int),
        decreases hi - i,
    {
        r.push(s[i]);
        i += 1;
        proof {
            assert(r@ =~= s@.subrange(lo as int, i as int));
        }
    }
    proof {
        let mid = s@.subrange(lo as int, s@.len() as int);
        assert(trim_start_chars(mid) == mid) by {
            lemma_trim_start_noop(mid);
        }
        let fin = s@.subrange(lo as int, hi as int);
        assert(trim_end_chars(fin) == fin) by {
            lemma_trim_end_noop(fin);
        }
        assert(r@ =~= trim_chars(s@));
    }
    r
}

proof fn lemma_trim_start_noop(s: Seq<char>)
    requires
        s.len() == 0 || !is_space(s[0]),
    ensures
        trim_start_chars(s) == s,
{
}

proof fn lemma_trim_end_noop(s: Seq<char>)
    requires
        s.len() == 0 || !is_space(s[s.len() - 1]),
    ensures
        trim_end_chars(s) == s,
{
}

/// The words of `s`: maximal runs of non-blank characters, in order.
pub open spec fn split_ws(s: Seq<char>) -> Seq<Seq<char>>
    decreases s.len(),
    via split_ws_decreases
{
    if s.len() == 0 {
        seq![]
    } else if is_space(s[0]) {
        split_ws(s.drop_first())
    } else {
        let w = word_at(s);
        seq![w] + split_ws(s.skip(w.len() as int))
    }
}

#[via_fn]
proof fn split_ws_decreases(s: Seq<char>) {
    if s.len() > 0 && !is_space(s[0]) {
        lemma_word_at_bounds(s);
    }
}

/// A word at the head of a non-blank-headed sequence has between 1 and
/// `s.len()` characters.
proof fn lemma_word_at_bounds(s: Seq<char>)
    requires
        s.len() > 0,
        !is_space(s[0]),
    ensures
        1 <= word_at(s).len() <= s.len(),
    decreases s.len(),
{
    let rest = s.drop_first();
    assert(word_at(s) == seq![s[0]] + word_at(rest));
    if rest.len() > 0 && !is_space(rest[0]) {
        lemma_word_at_bounds(rest);
    } else {
        assert(word_at(rest) == Seq::<char>::empty());
    }
    assert(word_at(s).len() == 1 + word_at(rest).len());
}

/// The run of non-blank characters at the head of `s`.
pub open spec fn word_at(s: Seq<char>) -> Seq<char>
    decreases s.len(),
{
    if s.len() == 0 || is_space(s[0]) {
        seq![]
    } else {
        seq![s[0]] + word_at(s.drop_first())
    }
}

/// The words of `s`, split on blanks with empty tokens discarded.
pub fn split_whitespace(s: &Vec<char>) -> (r: Vec<Vec<char>>)
    ensures
        r.deep_view() == split_ws(s@),
{
    let ghost whole = s@;
    let mut r: Vec<Vec<char>> = Vec::new();
    let mut i: usize = 0;
    proof {
        assert(s@.skip(0) =~= s@);
        assert(r.deep_view() =~~= Seq::<Seq<char>>::empty());
    }
    while i < s.len()
        invariant
            i <= s@.len(),
            r.deep_view() + split_ws(s@.skip(i as int)) =~~= split_ws(s@),
        decreases s@.len() - i,
    {
        if is_space_exec(s[i]) {
            proof {
                assert(s@.skip(i as int).drop_first() =~= s@.skip(i as int + 1));
            }
            i += 1;
        } else {
            let ghost rest = s@.skip(i as int);
            let mut w: Vec<char> = Vec::new();
            let start = i;
            while i < s.len() && !is_space_exec(s[i])
                invariant
                    start <= i <= s@.len(),
                    start < s@.len(),
                    !is_space(s@[start as int]),
                    rest == s@.skip(start as int),
                    w@ == s@.subrange(start as int, i as int),
                    forall|k: int| start <= k < i ==> !is_space(s@[k]),
                decreases s@.len() - i,
            {
                w.push(s[i]);
                i += 1;
                proof {
                    assert(w@ =~= s@.subrange(start as int, i as int));
                }
            }
            proof {
                lemma_word_at_prefix(s@, start as int, i as int);
                assert(w@ =~= word_at(rest));
                assert(s@.skip(i as int) =~= rest.skip(w@.len() as int));
            }
            let ghost old_dv = r.deep_view();
            let ghost word_view = w@;
            r.push(w);
            proof {
                assert(r.deep_view() =~~= old_dv.push(word_view));
                assert(split_ws(rest) == seq![word_view] + split_ws(
                    rest.skip(word_view.len() as int),
                ));
                assert(r.deep_view() + split_ws(s@.skip(i as int)) =~~= split_ws(s@));
            }
        }
    }
    proof {
        assert(split_ws(s@.skip(s@.len() as int)) =~= Seq::<Seq<char>>::empty());
        assert(r.deep_view() =~~= split_ws(s@));
    }
    r
}

proof fn lemma_word_at_prefix(s: Seq<char>, start: int, end: int)
    requires
        0 <= start <= end <= s.len(),
        start < end,
        forall|k: int| start <= k < end ==> !is_space(s[k]),
        end == s.len() || is_space(s[end]),
    ensures
        word_at(s.skip(start)) == s.subrange(start, end),
    decreases end - start,
{
    let rest = s.skip(start);
    if start + 1 == end {
        if end < s.len() {
            assert(rest.len() > 1);
            assert(is_space(rest.drop_first()[0]));
            assert(word_at(rest.drop_first()) =~= Seq::<char>::empty());
        } else {
            assert(word_at(rest.drop_first()) =~= Seq::<char>::empty());
        }
        assert(word_at(rest) =~= s.subrange(start, end));
    } else {
        lemma_word_at_prefix(s, start + 1, end);
        assert(rest.drop_first() =~= s.skip(start + 1));
        assert(word_at(rest) =~= seq![s[start]] + word_at(s.skip(start + 1)));
        assert(word_at(rest) =~= s.subrange(start, end));
    }
}

/// The elements of `parts` joined by `sep`.
pub open spec fn join_with(parts: Seq<Seq<char>>, sep: Seq<char>) -> Seq<char>
    decreases parts.len(),
{
    if parts.len() == 0 {
        seq![]
    } else if parts.len() == 1 {
        parts[0]
    } else {
        parts[0] + sep + join_with(parts.drop_first(), sep)
    }
}

/// The strings of `parts` joined by a single space.
pub fn join_space(parts: &Vec<String>) -> (r: String)
    ensures
        r@ == join_with(parts.deep_view(), " "@),
{
    let mut acc: String = String::new();
    let mut i: usize = 0;
    proof {
        assert(acc@ =~= join_prefix(parts.deep_view(), 0));
    }
    while i < parts.len()
        invariant
            i <= parts@.len(),
            acc@ == join_prefix(parts.deep_view(), i as int),
        decreases parts@.len() - i,
    {
        if i > 0 {
            acc.append(" ");
        }
        acc.append(parts[i].as_str());
        i += 1;
        proof {
            assert(parts.deep_view()[i - 1] == parts@[i - 1]@);
            assert(acc@ =~= join_prefix(parts.deep_view(), i as int));
        }
    }
    proof {
        lemma_join_prefix_all(parts.deep_view(), parts@.len() as int);
        assert(parts.deep_view().take(parts@.len() as int) =~= parts.deep_view());
    }
    acc
}

/// The first `k` parts joined by a single space.
pub open spec fn join_prefix(parts: Seq<Seq<char>>, k: int) -> Seq<char>
    decreases k,
{
    if k <= 0 {
        seq![]
    } else if k == 1 {
        parts[0]
    } else {
        join_prefix(parts, k - 1) + " "@ + parts[k - 1]
    }
}

proof fn lemma_join_prefix_all(parts: Seq<Seq<char>>, k: int)
    requires
        0 <= k <= parts.len(),
    ensures
        join_prefix(parts, k) == join_with(parts.take(k), " "@),
    decreases k,
{
    reveal_strlit(" ");
    if k <= 0 {
        assert(join_with(parts.take(0), " "@) =~= Seq::<char>::empty());
    } else if k == 1 {
        assert(parts.take(1).len() == 1);
        assert(join_with(parts.take(1), " "@) == parts.take(1)[0]);
        assert(parts.take(1)[0] == parts[0]);
    } else {
        lemma_join_prefix_all(parts, k - 1);
        lemma_join_snoc(parts.take(k - 1), parts[k - 1], " "@);
        assert(parts.take(k) =~= parts.take(k - 1).push(parts[k - 1]));
    }
}

pub proof fn lemma_join_snoc(parts: Seq<Seq<char>>, last: Seq<char>, sep: Seq<char>)
    requires
        parts.len() >= 1,
    ensures
        join_with(parts.push(last), sep) == join_with(parts, sep) + sep + last,
    decreases parts.len(),
{
    if parts.len() == 1 {
        let p = parts.push(last);
        assert(p.drop_first() =~= seq![last]);
        assert(join_with(p.drop_first(), sep) == last);
        assert(join_with(p, sep) =~= parts[0] + sep + last);
    } else {
        lemma_join_snoc(parts.drop_first(), last, sep);
        let p = parts.push(last);
        assert(p.drop_first() =~= parts.drop_first().push(last));
        assert(join_with(p, sep) == p[0] + sep + join_with(p.drop_first(), sep));
        assert(join_with(parts, sep) + sep + last =~= p[0] + sep + (join_with(
            parts.drop_first(),
            sep,
        ) + sep + last));
    }
}

/// Owned strings for a vector of character words.
pub fn strings_of_words(words: &Vec<Vec<char>>) -> (r: Vec<String>)
    ensures
        r.deep_view() == words.deep_view(),
{
    let mut r: Vec<String> = Vec::new();
    let mut i: usize = 0;
    while i < words.len()
        invariant
            i <= words@.len(),
            r.deep_view() =~= words.deep_view().take(i as int),
        decreases words@.len() - i,
    {
        let ghost old_dv = r.deep_view();
        r.push(chars_to_string(&words[i]));
        i += 1;
        proof {
            assert(r.deep_view() =~~= old_dv.push(words.deep_view()[i - 1]));
            assert(r.deep_view() =~= words.deep_view().take(i as int));
        }
    }
    proof {
        assert(words.deep_view().take(words@.len() as int) =~= words.deep_view());
    }
    r
}

/// A copy of a string vector, with the same characters.
pub fn clone_strings(v: &Vec<String>) -> (r: Vec<String>)
    ensures
        r.deep_view() == v.deep_view(),
{
    let mut r: Vec<String> = Vec::new();
    let mut i: usize = 0;
    while i < v.len()
        invariant
            i <= v@.len(),
            r.deep_view() =~= v.deep_view().take(i as int),
        decreases v@.len() - i,
    {
        let ghost old_dv = r.deep_view();
        r.push(v[i].clone());
        i += 1;
        proof {
            assert(r.deep_view() =~~= old_dv.push(v.deep_view()[i - 1]));
            assert(r.deep_view() =~= v.deep_view().take(i as int));
        }
    }
    proof {
        assert(v.deep_view().take(v@.len() as int) =~= v.deep_view());
    }
    r
}

} // verus!
