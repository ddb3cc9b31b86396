use vstd::prelude::*;
use vstd::string::*;

verus! {

/// Largest whole-minute count the timer accepts; it keeps the tick count of
/// any accepted duration comfortably inside `u64`.
pub const MAX_WHOLE_MINUTES: u64 = 1_000_000_000_000;

/// Scale of the fractional part of a duration: the first nine fractional
/// digits of the minutes value, read as a single integer.
pub const FRAC_SCALE: u64 = 1_000_000_000;

/// Half of `FRAC_SCALE`, used to round half away from zero.
pub const FRAC_HALF: u64 = 500_000_000;

pub open spec fn spec_is_digit(c: char) -> bool {
    48 <= c as u32 <= 57
}

pub open spec fn spec_digit(c: char) -> int {
    c as u32 - 48
}

pub open spec fn all_digits(s: Seq<char>) -> bool {
    forall|i: int| 0 <= i < s.len() ==> spec_is_digit(#[trigger] s[i])
}

/// The integer a sequence of decimal digits denotes, most significant first.
pub open spec fn digits_value(s: Seq<char>) -> int
    decreases s.len(),
{
    if s.len() == 0 {
        0
    } else {
        digits_value(s.drop_last()) * 10 + spec_digit(s.last())
    }
}

pub open spec fn spec_pow10(n: nat) -> int
    decreases n,
{
    if n == 0 {
        1
    } else {
        10 * spec_pow10((n - 1) as nat)
    }
}

/// Index of the first `'.'` in `s`, or `s.len()` if there is none.
pub open spec fn first_dot(s: Seq<char>) -> int
    decreases s.len(),
{
    if s.len() == 0 {
        0
    } else if s[0] == '.' {
        0
    } else {
        1 + first_dot(s.drop_first())
    }
}

/// The digits before the first `'.'` (the whole minutes).
pub open spec fn spec_int_part(s: Seq<char>) -> Seq<char> {
    s.take(first_dot(s))
}

/// The characters after the first `'.'` (the fractional minutes), or empty
/// if there is no dot.
pub open spec fn spec_frac_part(s: Seq<char>) -> Seq<char> {
    if first_dot(s) < s.len() {
        s.skip(first_dot(s) + 1)
    } else {
        Seq::<char>::empty()
    }
}

/// The fractional digits padded (or truncated) to exactly nine places.
pub open spec fn pad9(s: Seq<char>) -> Seq<char> {
    Seq::new(9, |i: int| if i < s.len() { s[i] } else { '0' })
}

/// The fractional part scaled to `FRAC_SCALE`: its first nine digits read as
/// one integer.  Digits past the ninth lie below the rounding granularity of
/// a whole second and do not contribute.
pub open spec fn frac_scaled(s: Seq<char>) -> int {
    digits_value(pad9(s))
}

/// A duration is well formed when it is an unsigned decimal numeral: digits,
/// with at most one `'.'`, and at least one digit overall.
pub open spec fn spec_well_formed(s: Seq<char>) -> bool {
    &&& all_digits(spec_int_part(s))
    &&& all_digits(spec_frac_part(s))
    &&& spec_int_part(s).len() + spec_frac_part(s).len() > 0
}

/// A well-formed duration is positive when some digit of it is not zero.
pub open spec fn spec_positive(s: Seq<char>) -> bool {
    digits_value(spec_int_part(s)) > 0 || digits_value(spec_frac_part(s)) > 0
}

/// The number of one-second ticks a requested duration stands for:
/// `minutes * 60`, rounded half away from zero, computed exactly over the
/// decimal text.  `None` exactly when the text is not a well-formed decimal
/// numeral, is not positive, or names at least `MAX_WHOLE_MINUTES` minutes.
pub open spec fn spec_duration_ticks(s: Seq<char>) -> Option<u64> {
    let whole = digits_value(spec_int_part(s));
    let frac = frac_scaled(spec_frac_part(s));
    if !spec_well_formed(s) {
        None
    } else if !spec_positive(s) {
        None
    } else if whole >= MAX_WHOLE_MINUTES {
        None
    } else {
        Some((whole * 60 + (frac * 60 + FRAC_HALF) / (FRAC_SCALE as int)) as u64)
    }
}

proof fn lemma_first_dot_is(s: Seq<char>, n: int)
    requires
        0 <= n <= s.len(),
        forall|j: int| 0 <= j < n ==> s[j] != '.',
        n < s.len() ==> s[n] == '.',
    ensures
        first_dot(s) == n,
    decreases s.len(),
{
    if s.len() == 0 {
    } else if s[0] == '.' {
        assert(n == 0);
    } else {
        assert(n >= 1) by {
            if n == 0 {
                assert(s[0] == '.');
            }
        }
        lemma_first_dot_is(s.drop_first(), n - 1);
    }
}

proof fn lemma_digits_value_nonneg(s: Seq<char>)
    requires
        all_digits(s),
    ensures
        digits_value(s) >= 0,
    decreases s.len(),
{
    if s.len() > 0 {
        assert(all_digits(s.drop_last()));
        lemma_digits_value_nonneg(s.drop_last());
    }
}

proof fn lemma_digits_value_prefix_le(s: Seq<char>, n: int)
    requires
        all_digits(s),
        0 <= n <= s.len(),
    ensures
        digits_value(s.take(n)) <= digits_value(s),
    decreases s.len() - n,
{
    if n < s.len() {
        assert(all_digits(s.take(n + 1)));
        assert(s.take(n + 1).drop_last() =~= s.take(n));
        lemma_digits_value_nonneg(s.take(n));
        lemma_digits_value_prefix_le(s, n + 1);
    } else {
        assert(s.take(n) =~= s);
    }
}

proof fn lemma_digits_value_pos_iff(s: Seq<char>)
    requires
        all_digits(s),
    ensures
        digits_value(s) > 0 <==> exists|k: int| 0 <= k < s.len() && spec_digit(s[k]) > 0,
    decreases s.len(),
{
    if s.len() > 0 {
        assert(all_digits(s.drop_last()));
        lemma_digits_value_pos_iff(s.drop_last());
        lemma_digits_value_nonneg(s.drop_last());
        if digits_value(s) > 0 {
            if spec_digit(s.last()) > 0 {
                assert(spec_digit(s[s.len() - 1]) > 0);
            } else {
                let k = choose|k: int| 0 <= k < s.drop_last().len() && spec_digit(
                    s.drop_last()[k],
                ) > 0;
                assert(spec_digit(s[k]) > 0);
            }
        } else {
            assert forall|k: int| 0 <= k < s.len() implies spec_digit(s[k]) <= 0 by {
                if k < s.len() - 1 {
                    assert(s.drop_last()[k] == s[k]);
                }
            }
        }
    }
}

proof fn lemma_pow10_pos(a: nat)
    ensures
        spec_pow10(a) >= 1,
    decreases a,
{
    if a > 0 {
        lemma_pow10_pos((a - 1) as nat);
    }
}

proof fn lemma_pow10_monotone(a: nat, b: nat)
    requires
        a <= b,
    ensures
        spec_pow10(a) <= spec_pow10(b),
        spec_pow10(a) >= 1,
    decreases b,
{
    lemma_pow10_pos(a);
    if a < b {
        lemma_pow10_monotone(a, (b - 1) as nat);
        lemma_pow10_pos((b - 1) as nat);
    }
}

/// Compute the tick count of a requested duration from its decimal text.
/// Returns `None` exactly when the text is rejected: not a decimal numeral,
/// not positive, or out of range.
pub fn duration_ticks(text: &str) -> (r: Option<u64>)
    ensures
        r == spec_duration_ticks(text@),
{
    let ghost s: Seq<char> = text@;
    let n: usize = text.unicode_len();

    let mut dot: usize = 0;
    while dot < n && text.get_char(dot) != '.'
        invariant
            0 <= dot <= n,
            n == s.len(),
            s == text@,
            forall|j: int| 0 <= j < dot ==> s[j] != '.',
        decreases n - dot,
    {
        dot = dot + 1;
    }
    proof {
        lemma_first_dot_is(s, dot as int);
    }
    let ghost ip = spec_int_part(s);
    let ghost fp = spec_frac_part(s);
    let fp_len: usize = if dot < n {
        n - dot - 1
    } else {
        0
    };
    proof {
        assert(ip.len() == dot);
        assert(fp.len() == fp_len);
    }
    if dot == 0 && fp_len == 0 {
        proof {
            assert(!spec_well_formed(s));
        }
        return None;
    }

    // whole minutes
    let mut whole: u64 = 0;
    let mut i: usize = 0;
    while i < dot
        invariant
            0 <= i <= dot,
            dot <= n,
            n == s.len(),
            s == text@,
            first_dot(s) == dot,
            ip == spec_int_part(s),
            ip.len() == dot,
            all_digits(ip.take(i as int)),
            whole == digits_value(ip.take(i as int)),
            whole < MAX_WHOLE_MINUTES,
        decreases dot - i,
    {
        let c = text.get_char(i);
        proof {
            assert(ip[i as int] == s[i as int]);
        }
        let u = c as u32;
        if u < 48 || u > 57 {
            proof {
                assert(!spec_is_digit(ip[i as int]));
                assert(!all_digits(ip));
            }
            return None;
        }
        let d = (u - 48) as u64;
        proof {
            assert(ip.take(i + 1).drop_last() =~= ip.take(i as int));
            assert(ip.take(i + 1).last() == c);
            assert(all_digits(ip.take(i + 1)));
        }
        whole = whole * 10 + d;
        if whole >= MAX_WHOLE_MINUTES {
            proof {
                if all_digits(ip) {
                    lemma_digits_value_prefix_le(ip, i + 1);
                    lemma_digits_value_nonneg(ip.take(i + 1));
                }
            }
            return None;
        }
        i = i + 1;
    }
    proof {
        assert(ip.take(dot as int) =~= ip);
    }

    // fractional digits: validate all of them and note whether any is nonzero
    let mut any_frac_nonzero = false;
    let mut j: usize = 0;
    while j < fp_len
        invariant
            0 <= j <= fp_len,
            n == s.len(),
            s == text@,
            first_dot(s) == dot,
            fp == spec_frac_part(s),
            fp.len() == fp_len,
            dot < n || fp_len == 0,
            fp_len == 0 || fp_len == n - dot - 1,
            all_digits(fp.take(j as int)),
            any_frac_nonzero <==> exists|k: int| 0 <= k < j && spec_digit(#[trigger] fp[k]) > 0,
        decreases fp_len - j,
    {
        let c = text.get_char(dot + 1 + j);
        proof {
            assert(fp[j as int] == s[dot + 1 + j]);
        }
        let u = c as u32;
        if u < 48 || u > 57 {
            proof {
                assert(!spec_is_digit(fp[j as int]));
                assert(!all_digits(fp));
            }
            return None;
        }
        if u > 48 {
            proof {
                assert(spec_digit(fp[j as int]) > 0);
            }
            any_frac_nonzero = true;
        }
        proof {
            assert(all_digits(fp.take(j + 1)));
            if !any_frac_nonzero {
                assert forall|k: int| 0 <= k < j + 1 implies spec_digit(#[trigger] fp[k])
                    <= 0 by {
                    if k < j {
                        assert(!(spec_digit(fp[k]) > 0));
                    }
                }
            }
        }
        j = j + 1;
    }
    proof {
        assert(fp.take(fp_len as int) =~= fp);
        assert(all_digits(fp));
        lemma_digits_value_pos_iff(fp);
        assert(spec_well_formed(s));
    }

    if whole == 0 && !any_frac_nonzero {
        proof {
            assert(!spec_positive(s));
        }
        return None;
    }

    // first nine fractional digits, padded with zeros
    let ghost p9 = pad9(fp);
    let mut frac: u64 = 0;
    let mut k: usize = 0;
    while k < 9
        invariant
            0 <= k <= 9,
            n == s.len(),
            s == text@,
            first_dot(s) == dot,
            fp == spec_frac_part(s),
            fp.len() == fp_len,
            fp_len == 0 || fp_len == n - dot - 1,
            fp_len > 0 ==> dot < n,
            all_digits(fp),
            p9 == pad9(fp),
            all_digits(p9.take(k as int)),
            frac == digits_value(p9.take(k as int)),
            frac < spec_pow10(k as nat),
        decreases 9 - k,
    {
        let c = if k < fp_len {
            text.get_char(dot + 1 + k)
        } else {
            '0'
        };
        proof {
            if (k as int) < fp.len() {
                assert(fp[k as int] == s[dot + 1 + k]);
            }
            assert(p9[k as int] == c);
            assert(spec_is_digit(c));
            assert(p9.take(k + 1).drop_last() =~= p9.take(k as int));
            assert(p9.take(k + 1).last() == c);
            assert(all_digits(p9.take(k + 1)));
            lemma_pow10_monotone(k as nat, 9);
            assert(spec_pow10(9) == 1_000_000_000) by {
                reveal_with_fuel(spec_pow10, 10);
            }
            assert(spec_pow10((k + 1) as nat) == 10 * spec_pow10(k as nat));
        }
        frac = frac * 10 + ((c as u32) - 48) as u64;
        k = k + 1;
    }
    proof {
        assert(p9.take(9) =~= p9);
        assert(frac == frac_scaled(fp));
        assert(spec_pow10(9) == 1_000_000_000) by {
            reveal_with_fuel(spec_pow10, 10);
        }
        lemma_digits_value_nonneg(p9);
    }

    let ticks: u64 = whole * 60 + (frac * 60 + FRAC_HALF) / FRAC_SCALE;
    proof {
        assert(spec_duration_ticks(s) == Some(ticks));
    }
    Some(ticks)
}

} // verus!
