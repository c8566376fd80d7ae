//! Verified text utilities: substring search, case-insensitive comparison,
//! whitespace-trimmed comparison, and decimal rendering of numbers.
//!
//! Captured output of external commands and interactive answers reach the
//! library as ordinary strings; every decision the library takes on them goes
//! through the functions of this module.

use vstd::prelude::*;
use vstd::string::StrSliceExecFns;
use vstd::string::StringExecFns;

verus! {

/// `n` occurs in `h` starting at index `i`.
pub open spec fn occurs_at(h: Seq<char>, n: Seq<char>, i: int) -> bool {
    0 <= i && i + n.len() <= h.len() && h.subrange(i, i + n.len()) == n
}

/// `n` occurs somewhere in `h`.
pub open spec fn contains_seq(h: Seq<char>, n: Seq<char>) -> bool {
    exists|i: int| occurs_at(h, n, i)
}

/// Substring search: does `h` contain `n`?
pub fn contains_str(h: &str, n: &str) -> (r: bool)
    ensures
        r == contains_seq(h@, n@),
{
    let hl = h.unicode_len();
    let nl = n.unicode_len();
    if nl == 0 {
        proof {
            assert(h@.subrange(0, 0) =~= n@);
            assert(occurs_at(h@, n@, 0));
        }
        return true;
    }
    if nl > hl {
        proof {
            assert(forall|i: int| !occurs_at(h@, n@, i));
        }
        return false;
    }
    let mut i: usize = 0;
    while i <= hl - nl
        invariant
            h@.len() == hl,
            n@.len() == nl,
            0 < nl <= hl,
            i <= hl - nl + 1,
            forall|k: int| 0 <= k < i ==> !occurs_at(h@, n@, k),
        decreases hl - i,
    {
        let mut j: usize = 0;
        let mut ok: bool = true;
        while ok && j < nl
            invariant
                h@.len() == hl,
                n@.len() == nl,
                0 < nl <= hl,
                i + nl <= hl,
                j <= nl,
                ok ==> forall|t: int| 0 <= t < j ==> h@[i + t] == n@[t],
                !ok ==> exists|t: int| 0 <= t < nl && h@[i + t] != n@[t],
            decreases nl - j + (if ok { 1int } else { 0int }),
        {
            if h.get_char(i + j) == n.get_char(j) {
                j += 1;
            } else {
                ok = false;
            }
        }
        if ok {
            proof {
                assert(h@.subrange(i as int, i as int + nl as int) =~= n@);
                assert(occurs_at(h@, n@, i as int));
            }
            return true;
        }
        proof {
            let t = choose|t: int| 0 <= t < nl && h@[i + t] != n@[t];
            assert(h@.subrange(i as int, i as int + nl as int)[t] == h@[i + t]);
            assert(!occurs_at(h@, n@, i as int));
        }
        i += 1;
    }
    proof {
        assert forall|k: int| !occurs_at(h@, n@, k) by {
            if 0 <= k < i {
            } else {
                assert(k < 0 || k + nl > hl);
            }
        }
    }
    false
}

/// The code point of `c`, with ASCII upper-case letters mapped to lower case.
pub open spec fn lower_code(c: char) -> int {
    let u = c as u32;
    if 65 <= u && u <= 90 {
        u + 32
    } else {
        u as int
    }
}

/// `a` and `b` are equal up to ASCII case.
pub open spec fn eq_ignore_case(a: Seq<char>, b: Seq<char>) -> bool {
    a.len() == b.len() && forall|i: int| 0 <= i < a.len() ==> lower_code(a[i]) == lower_code(b[i])
}

fn lower_code_ex(c: char) -> (r: u32)
    ensures
        r as int == lower_code(c),
{
    let u = c as u32;
    if 65 <= u && u <= 90 {
        u + 32
    } else {
        u
    }
}

/// Compare two strings, ignoring ASCII case.
pub fn eq_ignore_case_str(a: &str, b: &str) -> (r: bool)
    ensures
        r == eq_ignore_case(a@, b@),
{
    let al = a.unicode_len();
    let bl = b.unicode_len();
    if al != bl {
        return false;
    }
    let mut i: usize = 0;
    let mut ok: bool = true;
    while ok && i < al
        invariant
            a@.len() == al,
            b@.len() == bl,
            al == bl,
            i <= al,
            ok ==> forall|t: int| 0 <= t < i ==> lower_code(a@[t]) == lower_code(b@[t]),
            !ok ==> exists|t: int| 0 <= t < al && lower_code(a@[t]) != lower_code(b@[t]),
        decreases al - i + (if ok { 1int } else { 0int }),
    {
        if lower_code_ex(a.get_char(i)) == lower_code_ex(b.get_char(i)) {
            i += 1;
        } else {
            ok = false;
        }
    }
    ok
}

/// An answer counts as affirmative when it is, up to case, `y`, `yes`, or the
/// short form `s` of the tool's original locale.
pub open spec fn spec_affirmative(ans: Seq<char>) -> bool {
    ||| eq_ignore_case(ans, "y"@)
    ||| eq_ignore_case(ans, "yes"@)
    ||| eq_ignore_case(ans, "s"@)
}

/// Does the operator's answer confirm the question?
pub fn is_affirmative(ans: &str) -> (r: bool)
    ensures
        r == spec_affirmative(ans@),
{
    eq_ignore_case_str(ans, "y") || eq_ignore_case_str(ans, "yes") || eq_ignore_case_str(ans, "s")
}

/// ASCII whitespace.
pub open spec fn is_space(c: char) -> bool {
    c == ' ' || c == '\t' || c == '\n' || c == '\r' || c == '\u{b}' || c == '\u{c}'
}

fn is_space_ex(c: char) -> (r: bool)
    ensures
        r == is_space(c),
{
    c == ' ' || c == '\t' || c == '\n' || c == '\r' || c == '\u{b}' || c == '\u{c}'
}

/// `s` is `t` surrounded by whitespace only: what remains of `s` after
/// trimming both ends is exactly `t`.
pub open spec fn trimmed_is(s: Seq<char>, t: Seq<char>) -> bool {
    exists|lo: int, hi: int|
        0 <= lo <= hi <= s.len() && s.subrange(lo, hi) == t && (forall|k: int|
            0 <= k < lo ==> is_space(#[trigger] s[k])) && (forall|k: int|
            hi <= k < s.len() ==> is_space(#[trigger] s[k]))
}

/// Decide whether `s`, trimmed of surrounding whitespace, equals `t`.
/// The needle must not itself begin or end with whitespace.
pub(crate) fn trimmed_matches(s: &str, t: &str) -> (r: bool)
    requires
        t@.len() > 0,
        !is_space(t@[0]),
        !is_space(t@[t@.len() - 1]),
    ensures
        r == trimmed_is(s@, t@),
{
    let len = s.unicode_len();
    let tl = t.unicode_len();
    let mut lo: usize = 0;
    loop
        invariant
            s@.len() == len,
            lo <= len,
            forall|k: int| 0 <= k < lo ==> is_space(#[trigger] s@[k]),
        ensures
            lo <= len,
            forall|k: int| 0 <= k < lo ==> is_space(#[trigger] s@[k]),
            lo == len || !is_space(s@[lo as int]),
        decreases len - lo,
    {
        if lo == len {
            break;
        }
        if !is_space_ex(s.get_char(lo)) {
            break;
        }
        lo += 1;
    }
    let mut hi: usize = len;
    loop
        invariant
            s@.len() == len,
            lo <= hi <= len,
            lo == len || !is_space(s@[lo as int]),
            forall|k: int| hi <= k < len ==> is_space(#[trigger] s@[k]),
        ensures
            lo <= hi <= len,
            forall|k: int| hi <= k < len ==> is_space(#[trigger] s@[k]),
            hi == lo || !is_space(s@[hi - 1]),
        decreases hi,
    {
        if hi == lo {
            break;
        }
        if !is_space_ex(s.get_char(hi - 1)) {
            break;
        }
        hi -= 1;
    }
    // The region [lo, hi) is the trimmed body of `s`.
    if hi - lo != tl {
        proof {
            assert forall|a: int, b: int|
                !(0 <= a <= b <= s@.len() && s@.subrange(a, b) == t@ && (forall|k: int|
                    0 <= k < a ==> is_space(#[trigger] s@[k])) && (forall|k: int|
                    b <= k < s@.len() ==> is_space(#[trigger] s@[k]))) by {
                if 0 <= a <= b <= s@.len() && s@.subrange(a, b) == t@ && (forall|k: int|
                    0 <= k < a ==> is_space(#[trigger] s@[k])) && (forall|k: int|
                    b <= k < s@.len() ==> is_space(#[trigger] s@[k])) {
                    // The witness region carries `t`, which is non-empty and has
                    // non-space characters at both ends, so it must coincide
                    // with [lo, hi).
                    assert(s@.subrange(a, b)[0] == s@[a]);
                    assert(s@.subrange(a, b)[b - a - 1] == s@[b - 1]);
                    assert(!is_space(s@[a]));
                    assert(!is_space(s@[b - 1]));
                    assert(a == lo);
                    assert(b == hi);
                }
            }
        }
        return false;
    }
    let mut j: usize = 0;
    let mut ok: bool = true;
    while ok && j < tl
        invariant
            s@.len() == len,
            t@.len() == tl,
            lo <= hi <= len,
            hi - lo == tl,
            j <= tl,
            forall|k: int| 0 <= k < lo ==> is_space(#[trigger] s@[k]),
            forall|k: int| hi <= k < len ==> is_space(#[trigger] s@[k]),
            lo == len || !is_space(s@[lo as int]),
            hi == lo || !is_space(s@[hi - 1]),
            ok ==> forall|u: int| 0 <= u < j ==> s@[lo + u] == t@[u],
            !ok ==> exists|u: int| 0 <= u < tl && s@[lo + u] != t@[u],
        decreases tl - j + (if ok { 1int } else { 0int }),
    {
        if s.get_char(lo + j) == t.get_char(j) {
            j += 1;
        } else {
            ok = false;
        }
    }
    proof {
        if ok {
            assert(s@.subrange(lo as int, hi as int) =~= t@);
        } else {
            let u = choose|u: int| 0 <= u < tl && s@[lo + u] != t@[u];
            assert(s@.subrange(lo as int, hi as int)[u] == s@[lo + u]);
            assert(s@.subrange(lo as int, hi as int) != t@);
            assert forall|a: int, b: int|
                !(0 <= a <= b <= s@.len() && s@.subrange(a, b) == t@ && (forall|k: int|
                    0 <= k < a ==> is_space(#[trigger] s@[k])) && (forall|k: int|
                    b <= k < s@.len() ==> is_space(#[trigger] s@[k]))) by {
                if 0 <= a <= b <= s@.len() && s@.subrange(a, b) == t@ && (forall|k: int|
                    0 <= k < a ==> is_space(#[trigger] s@[k])) && (forall|k: int|
                    b <= k < s@.len() ==> is_space(#[trigger] s@[k])) {
                    assert(s@.subrange(a, b)[0] == s@[a]);
                    assert(s@.subrange(a, b)[b - a - 1] == s@[b - 1]);
                    assert(!is_space(s@[a]));
                    assert(!is_space(s@[b - 1]));
                    assert(a == lo);
                    assert(b == hi);
                }
            }
        }
    }
    ok
}

/// The decimal digit `d` as a character.
pub open spec fn spec_digit(d: int) -> char {
    if d == 0 {
        '0'
    } else if d == 1 {
        '1'
    } else if d == 2 {
        '2'
    } else if d == 3 {
        '3'
    } else if d == 4 {
        '4'
    } else if d == 5 {
        '5'
    } else if d == 6 {
        '6'
    } else if d == 7 {
        '7'
    } else if d == 8 {
        '8'
    } else {
        '9'
    }
}

/// The usual decimal rendering of `n`, without leading zeros.
pub open spec fn spec_dec(n: int) -> Seq<char>
    decreases n,
{
    if n < 10 {
        seq![spec_digit(n)]
    } else {
        spec_dec(n / 10).push(spec_digit(n % 10))
    }
}

fn push_digit(s: &mut String, d: u16)
    requires
        d < 10,
    ensures
        final(s)@ == old(s)@ + seq![spec_digit(d as int)],
{
    if d == 0 {
        proof {
            reveal_strlit("0");
            assert("0"@ =~= seq![spec_digit(0)]);
        }
        s.append("0");
    } else if d == 1 {
        proof {
            reveal_strlit("1");
            assert("1"@ =~= seq![spec_digit(1)]);
        }
        s.append("1");
    } else if d == 2 {
        proof {
            reveal_strlit("2");
            assert("2"@ =~= seq![spec_digit(2)]);
        }
        s.append("2");
    } else if d == 3 {
        proof {
            reveal_strlit("3");
            assert("3"@ =~= seq![spec_digit(3)]);
        }
        s.append("3");
    } else if d == 4 {
        proof {
            reveal_strlit("4");
            assert("4"@ =~= seq![spec_digit(4)]);
        }
        s.append("4");
    } else if d == 5 {
        proof {
            reveal_strlit("5");
            assert("5"@ =~= seq![spec_digit(5)]);
        }
        s.append("5");
    } else if d == 6 {
        proof {
            reveal_strlit("6");
            assert("6"@ =~= seq![spec_digit(6)]);
        }
        s.append("6");
    } else if d == 7 {
        proof {
            reveal_strlit("7");
            assert("7"@ =~= seq![spec_digit(7)]);
        }
        s.append("7");
    } else if d == 8 {
        proof {
            reveal_strlit("8");
            assert("8"@ =~= seq![spec_digit(8)]);
        }
        s.append("8");
    } else {
        proof {
            reveal_strlit("9");
            assert("9"@ =~= seq![spec_digit(9)]);
        }
        s.append("9");
    }
}

/// Append the decimal rendering of `n` to `s`.
pub fn append_u16(s: &mut String, n: u16)
    ensures
        final(s)@ == old(s)@ + spec_dec(n as int),
    decreases n,
{
    if n >= 10 {
        append_u16(s, n / 10);
        push_digit(s, n % 10);
        proof {
            assert(old(s)@ + spec_dec(n as int) =~= (old(s)@ + spec_dec(n as int / 10)) + seq![
                spec_digit(n as int % 10),
            ]);
        }
    } else {
        push_digit(s, n);
    }
}

} // verus!
