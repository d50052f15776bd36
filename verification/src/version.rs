//! The tag-name grammar: a tag names a published package version and must be
//! a semantic version string `major.minor.patch` with an optional
//! `-prerelease` chain and an optional `+build` chain.
//!
//! `major`, `minor` and `patch` are decimal numbers without leading zeroes
//! that fit in a `u64`. A prerelease or build chain is a non-empty,
//! `.`-separated list of non-empty segments of ASCII letters, digits and
//! `-`; a prerelease segment made of digits alone must not have a leading
//! zero (build segments may).

use vstd::prelude::*;

verus! {

/// ASCII decimal digit.
pub open spec fn is_digit(c: char) -> bool {
    48 <= c as u32 <= 57
}

/// ASCII letter.
pub open spec fn is_alpha(c: char) -> bool {
    (65 <= c as u32 <= 90) || (97 <= c as u32 <= 122)
}

/// Character allowed in a prerelease or build segment.
pub open spec fn is_ident_char(c: char) -> bool {
    is_digit(c) || is_alpha(c) || c == '-'
}

pub open spec fn all_digits(s: Seq<char>) -> bool {
    forall|i: int| 0 <= i < s.len() ==> is_digit(#[trigger] s[i])
}

pub open spec fn all_ident_chars(s: Seq<char>) -> bool {
    forall|i: int| 0 <= i < s.len() ==> is_ident_char(#[trigger] s[i])
}

/// Numeric value of a digit string.
pub open spec fn digits_val(s: Seq<char>) -> int
    decreases s.len(),
{
    if s.len() == 0 {
        0
    } else {
        digits_val(s.drop_last()) * 10 + (s.last() as u32 - 48)
    }
}

/// A version number: digits only, no leading zero, and the value fits in a
/// `u64`.
pub open spec fn valid_numeric(s: Seq<char>) -> bool {
    &&& s.len() > 0
    &&& all_digits(s)
    &&& (s.len() == 1 || s[0] != '0')
    &&& digits_val(s) <= u64::MAX
}

/// A prerelease segment: non-empty identifier characters; if it is digits
/// alone it must not have a leading zero.
pub open spec fn valid_pre_segment(s: Seq<char>) -> bool {
    &&& s.len() > 0
    &&& all_ident_chars(s)
    &&& (all_digits(s) ==> (s.len() == 1 || s[0] != '0'))
}

/// A build segment: non-empty identifier characters.
pub open spec fn valid_build_segment(s: Seq<char>) -> bool {
    s.len() > 0 && all_ident_chars(s)
}

/// First position at or after `i` holding `c`, or the length of `s`.
pub open spec fn seek(s: Seq<char>, i: int, c: char) -> int
    decreases s.len() - i,
{
    if i < 0 || i >= s.len() || s[i] == c {
        i
    } else {
        seek(s, i + 1, c)
    }
}

/// First position at or after `i` holding a non-digit, or the length of `s`.
pub open spec fn digit_run_end(s: Seq<char>, i: int) -> int
    decreases s.len() - i,
{
    if i < 0 || i >= s.len() || !is_digit(s[i]) {
        i
    } else {
        digit_run_end(s, i + 1)
    }
}

/// A `.`-separated chain of prerelease or build segments.
pub open spec fn valid_chain(s: Seq<char>, pre: bool) -> bool
    decreases s.len(),
{
    let d = seek(s, 0, '.');
    if !(0 <= d < s.len()) {
        if pre {
            valid_pre_segment(s)
        } else {
            valid_build_segment(s)
        }
    } else {
        &&& if pre {
            valid_pre_segment(s.subrange(0, d))
        } else {
            valid_build_segment(s.subrange(0, d))
        }
        &&& valid_chain(s.subrange(d + 1, s.len() as int), pre)
    }
}

/// What may follow the patch number: nothing, `-<prerelease chain>` with an
/// optional `+<build chain>`, or `+<build chain>` alone.
pub open spec fn version_tail_ok(s: Seq<char>, i: int) -> bool {
    if i == s.len() {
        true
    } else if s[i] == '-' {
        let p = seek(s, i + 1, '+');
        &&& valid_chain(s.subrange(i + 1, p), true)
        &&& (p == s.len() || valid_chain(s.subrange(p + 1, s.len() as int), false))
    } else if s[i] == '+' {
        valid_chain(s.subrange(i + 1, s.len() as int), false)
    } else {
        false
    }
}

/// The whole tag-name grammar.
pub open spec fn semver_ok(s: Seq<char>) -> bool {
    let d1 = digit_run_end(s, 0);
    &&& valid_numeric(s.subrange(0, d1))
    &&& d1 < s.len() && s[d1] == '.'
    &&& {
        let d2 = digit_run_end(s, d1 + 1);
        &&& valid_numeric(s.subrange(d1 + 1, d2))
        &&& d2 < s.len() && s[d2] == '.'
        &&& {
            let d3 = digit_run_end(s, d2 + 1);
            &&& valid_numeric(s.subrange(d2 + 1, d3))
            &&& version_tail_ok(s, d3)
        }
    }
}

/// Character that can occur in a valid tag name.
pub open spec fn is_semver_char(c: char) -> bool {
    is_ident_char(c) || c == '.' || c == '+'
}

/// `seek` finds the first occurrence of `c` at or after `i`, if any.
pub proof fn lemma_seek(s: Seq<char>, i: int, c: char)
    requires
        0 <= i <= s.len(),
    ensures
        i <= seek(s, i, c) <= s.len(),
        forall|k: int| i <= k < seek(s, i, c) ==> #[trigger] s[k] != c,
        seek(s, i, c) < s.len() ==> s[seek(s, i, c)] == c,
    decreases s.len() - i,
{
    if i < s.len() && s[i] != c {
        lemma_seek(s, i + 1, c);
    }
}

/// `digit_run_end` bounds a maximal run of digits starting at `i`.
pub proof fn lemma_digit_run_end(s: Seq<char>, i: int)
    requires
        0 <= i <= s.len(),
    ensures
        i <= digit_run_end(s, i) <= s.len(),
        forall|k: int| i <= k < digit_run_end(s, i) ==> is_digit(#[trigger] s[k]),
        digit_run_end(s, i) < s.len() ==> !is_digit(s[digit_run_end(s, i)]),
    decreases s.len() - i,
{
    if i < s.len() && is_digit(s[i]) {
        lemma_digit_run_end(s, i + 1);
    }
}

/// Appending one digit multiplies the value by ten and adds the digit.
pub proof fn lemma_digits_val_push(s: Seq<char>, c: char)
    ensures
        digits_val(s.push(c)) == digits_val(s) * 10 + (c as u32 - 48),
{
    assert(s.push(c).drop_last() =~= s);
    assert(s.push(c).last() == c);
}

/// Once the value of a digit-string prefix exceeds `u64::MAX`, every longer
/// prefix exceeds it too.
proof fn lemma_digits_val_grows(s: Seq<char>, from: int, i: int, j: int)
    requires
        0 <= from <= i <= j <= s.len(),
        digits_val(s.subrange(from, i)) > u64::MAX,
    ensures
        digits_val(s.subrange(from, j)) > u64::MAX,
    decreases j - i,
{
    if i < j {
        assert(s.subrange(from, i + 1) =~= s.subrange(from, i).push(s[i]));
        lemma_digits_val_push(s.subrange(from, i), s[i]);
        assert(s[i] as u32 >= 0);
        assert(digits_val(s.subrange(from, i + 1)) > u64::MAX) by {
            assert(digits_val(s.subrange(from, i)) * 10 >= digits_val(s.subrange(from, i)) + 9
                * digits_val(s.subrange(from, i))) by (nonlinear_arith);
        }
        lemma_digits_val_grows(s, from, i + 1, j);
    }
}

/// Every character of a valid segment chain is an identifier character or a
/// `.`.
proof fn lemma_chain_chars(t: Seq<char>, pre: bool)
    requires
        valid_chain(t, pre),
    ensures
        forall|i: int| 0 <= i < t.len() ==> is_semver_char(#[trigger] t[i]),
    decreases t.len(),
{
    let d = seek(t, 0, '.');
    lemma_seek(t, 0, '.');
    if !(0 <= d < t.len()) {
        assert(all_ident_chars(t));
    } else {
        let seg = t.subrange(0, d);
        let rest = t.subrange(d + 1, t.len() as int);
        assert(all_ident_chars(seg));
        lemma_chain_chars(rest, pre);
        assert forall|i: int| 0 <= i < t.len() implies is_semver_char(#[trigger] t[i]) by {
            if i < d {
                assert(t[i] == seg[i]);
            } else if i == d {
            } else {
                assert(t[i] == rest[i - d - 1]);
            }
        }
    }
}

/// Every character of a valid tag name is a digit, letter, `-`, `.` or `+`.
pub proof fn lemma_semver_chars(s: Seq<char>)
    requires
        semver_ok(s),
    ensures
        forall|i: int| 0 <= i < s.len() ==> is_semver_char(#[trigger] s[i]),
{
    let d1 = digit_run_end(s, 0);
    lemma_digit_run_end(s, 0);
    let d2 = digit_run_end(s, d1 + 1);
    lemma_digit_run_end(s, d1 + 1);
    let d3 = digit_run_end(s, d2 + 1);
    lemma_digit_run_end(s, d2 + 1);
    if d3 < s.len() && s[d3] == '-' {
        let p = seek(s, d3 + 1, '+');
        lemma_seek(s, d3 + 1, '+');
        lemma_chain_chars(s.subrange(d3 + 1, p), true);
        if p < s.len() {
            lemma_chain_chars(s.subrange(p + 1, s.len() as int), false);
        }
        assert forall|i: int| 0 <= i < s.len() implies is_semver_char(#[trigger] s[i]) by {
            if d3 + 1 <= i < p {
                assert(s[i] == s.subrange(d3 + 1, p)[i - d3 - 1]);
            } else if p < s.len() && p + 1 <= i {
                assert(s[i] == s.subrange(p + 1, s.len() as int)[i - p - 1]);
            }
        }
    } else if d3 < s.len() && s[d3] == '+' {
        lemma_chain_chars(s.subrange(d3 + 1, s.len() as int), false);
        assert forall|i: int| 0 <= i < s.len() implies is_semver_char(#[trigger] s[i]) by {
            if d3 + 1 <= i {
                assert(s[i] == s.subrange(d3 + 1, s.len() as int)[i - d3 - 1]);
            }
        }
    }
}

/// Exec mirror of [`is_digit`].
pub(crate) fn digit_char(c: char) -> (b: bool)
    ensures
        b == is_digit(c),
{
    let u = c as u32;
    48 <= u && u <= 57
}

/// Exec mirror of [`is_ident_char`].
pub(crate) fn ident_char(c: char) -> (b: bool)
    ensures
        b == is_ident_char(c),
{
    let u = c as u32;
    (48 <= u && u <= 57) || (65 <= u && u <= 90) || (97 <= u && u <= 122) || c == '-'
}

/// Length of the maximal digit run starting at `from`.
fn scan_digits(s: &str, from: usize, n: usize) -> (r: usize)
    requires
        n == s@.len(),
        from <= n,
    ensures
        r == digit_run_end(s@, from as int),
        from <= r <= n,
{
    let mut i = from;
    loop
        invariant
            from <= i <= n,
            n == s@.len(),
            digit_run_end(s@, from as int) == digit_run_end(s@, i as int),
        decreases n - i,
    {
        if i < n {
            let c = s.get_char(i);
            if digit_char(c) {
                assert(digit_run_end(s@, i as int) == digit_run_end(s@, i + 1));
                i = i + 1;
            } else {
                assert(digit_run_end(s@, i as int) == i);
                return i;
            }
        } else {
            assert(digit_run_end(s@, i as int) == i);
            return i;
        }
    }
}

/// First position of `c` at or after `from`, or `n` if there is none.
pub(crate) fn scan_to(s: &str, from: usize, n: usize, c: char) -> (r: usize)
    requires
        n == s@.len(),
        from <= n,
    ensures
        r == seek(s@, from as int, c),
        from <= r <= n,
{
    let mut i = from;
    loop
        invariant
            from <= i <= n,
            n == s@.len(),
            seek(s@, from as int, c) == seek(s@, i as int, c),
        decreases n - i,
    {
        if i < n {
            let ci = s.get_char(i);
            if ci != c {
                assert(seek(s@, i as int, c) == seek(s@, i + 1, c));
                i = i + 1;
            } else {
                assert(seek(s@, i as int, c) == i);
                return i;
            }
        } else {
            assert(seek(s@, i as int, c) == i);
            return i;
        }
    }
}

/// First position of `c` in the window `[from, to)`, or `to` if there is
/// none.
fn scan_to_bounded(s: &str, from: usize, to: usize, n: usize, c: char) -> (r: usize)
    requires
        n == s@.len(),
        from <= to <= n,
    ensures
        from <= r <= to,
        forall|k: int| from <= k < r ==> #[trigger] s@[k] != c,
        r < to ==> s@[r as int] == c,
{
    let mut i = from;
    loop
        invariant
            from <= i <= to <= n,
            n == s@.len(),
            forall|k: int| from <= k < i ==> #[trigger] s@[k] != c,
        decreases to - i,
    {
        if i < to {
            let ci = s.get_char(i);
            if ci != c {
                i = i + 1;
            } else {
                return i;
            }
        } else {
            return i;
        }
    }
}

/// Does `[from, to)` hold a valid version number?
fn numeric_ok(s: &str, from: usize, to: usize, n: usize) -> (b: bool)
    requires
        n == s@.len(),
        from <= to <= n,
    ensures
        b == valid_numeric(s@.subrange(from as int, to as int)),
{
    let ghost t = s@.subrange(from as int, to as int);
    if to == from {
        return false;
    }
    if to - from > 1 && s.get_char(from) == '0' {
        assert(t[0] == '0');
        return false;
    }
    let mut val: u64 = 0;
    let mut i = from;
    while i < to
        invariant
            from <= i <= to <= n,
            n == s@.len(),
            t == s@.subrange(from as int, to as int),
            all_digits(s@.subrange(from as int, i as int)),
            val == digits_val(s@.subrange(from as int, i as int)),
        decreases to - i,
    {
        let c = s.get_char(i);
        if !digit_char(c) {
            assert(t[i - from] == c);
            assert(!all_digits(t));
            return false;
        }
        let d = (c as u32 - 48) as u64;
        proof {
            assert(s@.subrange(from as int, i + 1) =~= s@.subrange(from as int, i as int).push(
                s@[i as int],
            ));
            lemma_digits_val_push(s@.subrange(from as int, i as int), s@[i as int]);
        }
        if val > (u64::MAX - d) / 10 {
            proof {
                assert(digits_val(s@.subrange(from as int, i + 1)) > u64::MAX) by {
                    assert(val >= (u64::MAX - d) / 10 + 1);
                    assert(val * 10 >= ((u64::MAX - d) / 10 + 1) * 10) by (nonlinear_arith)
                        requires
                            val >= (u64::MAX - d) / 10 + 1,
                    ;
                    assert(((u64::MAX - d) / 10) * 10 + 10 > (u64::MAX - d) + 9 - 9);
                }
                lemma_digits_val_grows(s@, from as int, i + 1, to as int);
            }
            return false;
        }
        proof {
            assert(val * 10 + d <= u64::MAX) by {
                assert(val <= (u64::MAX - d) / 10);
                assert(val * 10 <= ((u64::MAX - d) / 10) * 10) by (nonlinear_arith)
                    requires
                        val <= (u64::MAX - d) / 10,
                ;
                assert(((u64::MAX - d) / 10) * 10 <= u64::MAX - d);
            }
        }
        val = val * 10 + d;
        i = i + 1;
    }
    assert(t =~= s@.subrange(from as int, i as int));
    assert(t.len() == 1 || t[0] != '0');
    true
}

/// Does `[from, to)` hold a valid prerelease (`pre`) or build segment?
fn segment_ok(s: &str, from: usize, to: usize, n: usize, pre: bool) -> (b: bool)
    requires
        n == s@.len(),
        from <= to <= n,
    ensures
        pre ==> b == valid_pre_segment(s@.subrange(from as int, to as int)),
        !pre ==> b == valid_build_segment(s@.subrange(from as int, to as int)),
{
    let ghost t = s@.subrange(from as int, to as int);
    if to == from {
        return false;
    }
    let mut digits_only = true;
    let mut i = from;
    while i < to
        invariant
            from <= i <= to <= n,
            n == s@.len(),
            t == s@.subrange(from as int, to as int),
            all_ident_chars(s@.subrange(from as int, i as int)),
            digits_only == all_digits(s@.subrange(from as int, i as int)),
        decreases to - i,
    {
        let c = s.get_char(i);
        if !ident_char(c) {
            assert(t[i - from] == c);
            assert(!all_ident_chars(t));
            return false;
        }
        proof {
            assert(s@.subrange(from as int, i + 1) =~= s@.subrange(from as int, i as int).push(
                s@[i as int],
            ));
        }
        if !digit_char(c) {
            assert(s@.subrange(from as int, i + 1)[i - from] == c);
            digits_only = false;
        }
        i = i + 1;
    }
    assert(t =~= s@.subrange(from as int, i as int));
    if pre && digits_only && to - from > 1 && s.get_char(from) == '0' {
        assert(t[0] == '0');
        return false;
    }
    assert(t.len() == 1 || !all_digits(t) || t[0] != '0' || !pre);
    true
}

/// Does `[from, to)` hold a valid `.`-separated chain of segments?
fn chain_ok(s: &str, from: usize, to: usize, n: usize, pre: bool) -> (b: bool)
    requires
        n == s@.len(),
        from <= to <= n,
    ensures
        b == valid_chain(s@.subrange(from as int, to as int), pre),
    decreases to - from,
{
    let ghost t = s@.subrange(from as int, to as int);
    let d = scan_to_bounded(s, from, to, n, '.');
    proof {
        lemma_seek(t, 0, '.');
        if d < to {
            assert(t[d - from] == '.');
            assert(seek(t, 0, '.') == d - from) by {
                if seek(t, 0, '.') < d - from {
                    assert(t[seek(t, 0, '.')] == '.');
                    assert(s@[from + seek(t, 0, '.')] == '.');
                }
            }
        } else {
            assert(seek(t, 0, '.') == t.len()) by {
                if seek(t, 0, '.') < t.len() {
                    assert(t[seek(t, 0, '.')] == '.');
                    assert(s@[from + seek(t, 0, '.')] == '.');
                }
            }
        }
    }
    if d == to {
        segment_ok(s, from, to, n, pre)
    } else {
        if !segment_ok(s, from, d, n, pre) {
            assert(t.subrange(0, d - from) =~= s@.subrange(from as int, d as int));
            return false;
        }
        assert(t.subrange(0, d - from) =~= s@.subrange(from as int, d as int));
        assert(t.subrange(d - from + 1, t.len() as int) =~= s@.subrange(d + 1, to as int));
        chain_ok(s, d + 1, to, n, pre)
    }
}

/// Check a tag name against the version grammar.
pub fn is_semver(s: &str) -> (b: bool)
    ensures
        b == semver_ok(s@),
{
    let n = s.unicode_len();
    let d1 = scan_digits(s, 0, n);
    if !numeric_ok(s, 0, d1, n) {
        return false;
    }
    if d1 == n || s.get_char(d1) != '.' {
        return false;
    }
    let d2 = scan_digits(s, d1 + 1, n);
    if !numeric_ok(s, d1 + 1, d2, n) {
        return false;
    }
    if d2 == n || s.get_char(d2) != '.' {
        return false;
    }
    let d3 = scan_digits(s, d2 + 1, n);
    if !numeric_ok(s, d2 + 1, d3, n) {
        return false;
    }
    if d3 == n {
        return true;
    }
    let c = s.get_char(d3);
    if c == '-' {
        let p = scan_to(s, d3 + 1, n, '+');
        if !chain_ok(s, d3 + 1, p, n, true) {
            return false;
        }
        if p == n {
            return true;
        }
        chain_ok(s, p + 1, n, n, false)
    } else if c == '+' {
        chain_ok(s, d3 + 1, n, n, false)
    } else {
        false
    }
}

} // verus!
