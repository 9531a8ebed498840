//! Detects the `# ` natural-language prefix on terminal input.

use vstd::prelude::*;
use vstd::string::*;

verus! {

/// The characters that `char::is_whitespace` accepts: the Unicode
/// `White_Space` property.
pub open spec fn is_unicode_whitespace(c: char) -> bool {
    let v = c as u32;
    ||| 0x9 <= v <= 0xd
    ||| v == 0x20
    ||| v == 0x85
    ||| v == 0xa0
    ||| v == 0x1680
    ||| 0x2000 <= v <= 0x200a
    ||| v == 0x2028
    ||| v == 0x2029
    ||| v == 0x202f
    ||| v == 0x205f
    ||| v == 0x3000
}

/// Number of whitespace characters at the start of `s`.
pub open spec fn leading_ws(s: Seq<char>) -> nat
    decreases s.len(),
{
    if s.len() > 0 && is_unicode_whitespace(s[0]) {
        1 + leading_ws(s.drop_first())
    } else {
        0
    }
}

/// Number of whitespace characters at the end of `s`.
pub open spec fn trailing_ws(s: Seq<char>) -> nat
    decreases s.len(),
{
    if s.len() > 0 && is_unicode_whitespace(s.last()) {
        1 + trailing_ws(s.drop_last())
    } else {
        0
    }
}

/// `s` with leading and trailing whitespace removed (what `str::trim` returns).
pub open spec fn trim_ws(s: Seq<char>) -> Seq<char> {
    let t = s.skip(leading_ws(s) as int);
    t.take(t.len() - trailing_ws(t))
}

/// The natural-language request carried by `input`: present only when the
/// input starts with `#` followed by a space and something other than
/// whitespace follows.
pub open spec fn nl_request_spec(s: Seq<char>) -> Option<Seq<char>> {
    if s.len() >= 2 && s[0] == '#' && s[1] == ' ' {
        let t = trim_ws(s.subrange(2, s.len() as int));
        if t.len() > 0 {
            Some(t)
        } else {
            None
        }
    } else {
        None
    }
}

/// Whether `c` is Unicode whitespace.
fn is_whitespace_char(c: char) -> (b: bool)
    ensures
        b == is_unicode_whitespace(c),
{
    let v = c as u32;
    (0x9 <= v && v <= 0xd) || v == 0x20 || v == 0x85 || v == 0xa0 || v == 0x1680 || (0x2000 <= v
        && v <= 0x200a) || v == 0x2028 || v == 0x2029 || v == 0x202f || v == 0x205f || v == 0x3000
}

/// The characters of `s` from `from` on, with whitespace trimmed from both
/// ends of that part.
fn trimmed_tail<'a>(s: &'a str, from: usize) -> (r: &'a str)
    requires
        from <= s@.len(),
    ensures
        r@ == trim_ws(s@.subrange(from as int, s@.len() as int)),
{
    let n = s.unicode_len();
    let ghost full = s@.subrange(from as int, n as int);
    let mut a = from;
    while a < n && is_whitespace_char(s.get_char(a))
        invariant
            from <= a <= n,
            n == s@.len(),
            full == s@.subrange(from as int, n as int),
            leading_ws(full) == (a - from) + leading_ws(s@.subrange(a as int, n as int)),
        decreases n - a,
    {
        proof {
            let cur = s@.subrange(a as int, n as int);
            assert(cur.drop_first() =~= s@.subrange(a + 1, n as int));
        }
        a = a + 1;
    }
    proof {
        let cur = s@.subrange(a as int, n as int);
        assert(leading_ws(cur) == 0);
        assert(full.skip(leading_ws(full) as int) =~= cur);
    }
    let ghost t = s@.subrange(a as int, n as int);
    let mut b = n;
    while b > a && is_whitespace_char(s.get_char(b - 1))
        invariant
            a <= b <= n,
            n == s@.len(),
            t == s@.subrange(a as int, n as int),
            trailing_ws(t) == (n - b) + trailing_ws(s@.subrange(a as int, b as int)),
        decreases b,
    {
        proof {
            let cur = s@.subrange(a as int, b as int);
            assert(cur.drop_last() =~= s@.subrange(a as int, b - 1));
        }
        b = b - 1;
    }
    proof {
        let cur = s@.subrange(a as int, b as int);
        assert(trailing_ws(cur) == 0);
        assert(t.take(t.len() - trailing_ws(t)) =~= cur);
    }
    s.substring_char(a, b)
}

/// If `input` begins with `# ` (hash + space), returns the trimmed
/// natural-language request. Returns `None` for ordinary commands (including
/// a bare `#` comment with no space) and when only whitespace follows.
pub fn nl_request(input: &str) -> (r: Option<&str>)
    ensures
        match r {
            Some(t) => nl_request_spec(input@) == Some(t@),
            None => nl_request_spec(input@) is None,
        },
{
    let n = input.unicode_len();
    if n < 2 || input.get_char(0) != '#' || input.get_char(1) != ' ' {
        return None;
    }
    let rest = trimmed_tail(input, 2);
    if rest.unicode_len() == 0 {
        None
    } else {
        Some(rest)
    }
}

} // verus!
