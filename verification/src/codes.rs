//! The line decoder: canonical remote codes from raw serial lines,
//! and the shared character and digit helpers the other modules build on.

use vstd::prelude::*;

verus! {

/// Whitespace that trimming removes at either end of a raw line:
/// blanks, tabs and the line terminators the serial protocol emits.
pub open spec fn is_line_ws(c: char) -> bool {
    c == ' ' || c == '\t' || c == '\r' || c == '\n'
}

/// ASCII uppercasing of one character; anything but a lowercase ASCII
/// letter is left unchanged.  The protocol's codes are ASCII hexadecimal,
/// so this is the whole of case normalization for them.
pub open spec fn upper_char(c: char) -> char {
    if 'a' <= c && c <= 'z' {
        ((c as u32) - 32) as char
    } else {
        c
    }
}

/// The characters of `s` with leading line whitespace removed.
pub open spec fn trim_start(s: Seq<char>) -> Seq<char>
    decreases s.len(),
{
    if s.len() > 0 && is_line_ws(s[0]) {
        trim_start(s.drop_first())
    } else {
        s
    }
}

/// The characters of `s` with trailing line whitespace removed.
pub open spec fn trim_end(s: Seq<char>) -> Seq<char>
    decreases s.len(),
{
    if s.len() > 0 && is_line_ws(s.last()) {
        trim_end(s.drop_last())
    } else {
        s
    }
}

/// Canonical form of one raw line: trimmed at both ends, then uppercased.
pub open spec fn canonical_code(line: Seq<char>) -> Seq<char> {
    trim_end(trim_start(line)).map_values(|c: char| upper_char(c))
}

/// The sentinel code, emitted repeatedly while a remote button is held:
/// it means "repeat the previous bind" and is never itself a bound code.
pub open spec fn sentinel() -> Seq<char> {
    "FFFFFFFF"@
}

pub(crate) fn is_ws(c: char) -> (r: bool)
    ensures
        r == is_line_ws(c),
{
    c == ' ' || c == '\t' || c == '\r' || c == '\n'
}

fn to_upper(c: char) -> (r: char)
    ensures
        r == upper_char(c),
{
    if 'a' <= c && c <= 'z' {
        (((c as u32) - 32) as u8) as char
    } else {
        c
    }
}

/// Appends one character.  Relies on `String::push`: the string afterwards
/// is the old contents followed by exactly that character.
#[verifier::external_body]
pub(crate) fn push_char(s: &mut String, c: char)
    ensures
        final(s)@ == old(s)@.push(c),
{
    s.push(c);
}

/// Collects the characters of a string slice into a vector.
pub(crate) fn chars_of(s: &str) -> (v: Vec<char>)
    ensures
        v@ == s@,
{
    let mut v: Vec<char> = Vec::new();
    for c in it: s.chars()
        invariant
            v@ == it.seq().take(it.index() as int),
    {
        assert(it.seq().take(it.index() + 1) =~= it.seq().take(it.index() as int).push(
            it.seq()[it.index() as int],
        ));
        v.push(c);
    }
    assert(v@ =~= s@);
    v
}

/// Exact comparison of a string's characters against a string slice's.
pub(crate) fn str_eq(a: &String, b: &str) -> (r: bool)
    ensures
        r == (a@ == b@),
{
    *a == b.to_owned()
}

/// An ASCII decimal digit.
pub open spec fn is_digit(c: char) -> bool {
    '0' <= c && c <= '9'
}

/// The numeric value of an ASCII decimal digit.
pub open spec fn digit_val(c: char) -> nat {
    ((c as u32) - 48) as nat
}

/// The value of a sequence of ASCII decimal digits, most significant first.
pub open spec fn spec_dec_val(s: Seq<char>) -> nat
    decreases s.len(),
{
    if s.len() == 0 {
        0
    } else {
        spec_dec_val(s.drop_last()) * 10 + digit_val(s.last())
    }
}

pub(crate) fn is_digit_x(c: char) -> (r: bool)
    ensures
        r == is_digit(c),
{
    '0' <= c && c <= '9'
}

pub(crate) fn digit_of(c: char) -> (r: u32)
    requires
        is_digit(c),
    ensures
        r == digit_val(c),
        r <= 9,
{
    (c as u32) - 48
}

pub(crate) proof fn lemma_trim_start_skip(s: Seq<char>, i: int)
    requires
        0 <= i <= s.len(),
        forall|k: int| 0 <= k < i ==> is_line_ws(s[k]),
        i < s.len() ==> !is_line_ws(s[i]),
    ensures
        trim_start(s) == s.skip(i),
    decreases i,
{
    if i == 0 {
        assert(s.skip(0) =~= s);
    } else {
        assert(is_line_ws(s[0]));
        let t = s.drop_first();
        assert(forall|k: int| 0 <= k < i - 1 ==> is_line_ws(#[trigger] t[k]));
        lemma_trim_start_skip(t, i - 1);
        assert(t.skip(i - 1) =~= s.skip(i));
    }
}

pub(crate) proof fn lemma_trim_end_take(s: Seq<char>, j: int)
    requires
        0 <= j <= s.len(),
        forall|k: int| j <= k < s.len() ==> is_line_ws(s[k]),
        j > 0 ==> !is_line_ws(s[j - 1]),
    ensures
        trim_end(s) == s.take(j),
    decreases s.len() - j,
{
    if j == s.len() {
        assert(s.take(j) =~= s);
    } else {
        assert(is_line_ws(s.last()));
        let t = s.drop_last();
        lemma_trim_end_take(t, j);
        assert(t.take(j) =~= s.take(j));
    }
}

/// Decodes one raw input line into a canonical remote code.
///
/// The line is trimmed at both ends and uppercased; if nothing remains
/// the line was empty or noise and `None` comes back.  No further
/// validation happens: an unrecognized but well-formed code is a
/// legitimate value that simply will not match any bind.
pub fn decode_line(line: &str) -> (r: Option<String>)
    ensures
        match r {
            None => canonical_code(line@).len() == 0,
            Some(code) => code@ == canonical_code(line@) && code@.len() > 0,
        },
{
    let v = chars_of(line);
    let n = v.len();
    let mut i: usize = 0;
    while i < n && is_ws(v[i])
        invariant
            0 <= i <= n,
            n == v.len(),
            forall|k: int| 0 <= k < i ==> is_line_ws(v@[k]),
        decreases n - i,
    {
        i = i + 1;
    }
    let mut j: usize = n;
    while j > i && is_ws(v[j - 1])
        invariant
            i <= j <= n,
            n == v.len(),
            forall|k: int| j <= k < n ==> is_line_ws(v@[k]),
        decreases j,
    {
        j = j - 1;
    }

    proof {
        lemma_trim_start_skip(v@, i as int);
        if j == i {
            lemma_trim_end_take(v@.skip(i as int), 0);
        } else {
            lemma_trim_end_take(v@.skip(i as int), j - i);
        }
        assert(v@.skip(i as int).take(j - i) =~= v@.subrange(i as int, j as int));
    }

    if i == j {
        return None;
    }

    let mut out = String::new();
    let mut k: usize = i;
    while k < j
        invariant
            i <= k <= j <= n,
            n == v.len(),
            out@ == v@.subrange(i as int, k as int).map_values(|c: char| upper_char(c)),
        decreases j - k,
    {
        let u = to_upper(v[k]);
        push_char(&mut out, u);
        k = k + 1;
        proof {
            assert(v@.subrange(i as int, k as int).map_values(|c: char| upper_char(c)) =~= v@
                .subrange(i as int, k - 1).map_values(|c: char| upper_char(c)).push(
                upper_char(v@[k - 1]),
            ));
        }
    }
    Some(out)
}

} // verus!
