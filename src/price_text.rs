//! Reading a price written as decimal text ("12.99") into pence.
use vstd::prelude::*;

verus! {

pub open spec fn is_digit(c: char) -> bool {
    '0' <= c && c <= '9'
}

pub open spec fn all_digits(s: Seq<char>) -> bool {
    forall|i: int| 0 <= i < s.len() ==> is_digit(#[trigger] s[i])
}

pub open spec fn digit_value(c: char) -> int {
    c as int - '0' as int
}

/// The number that a run of decimal digits spells.
pub open spec fn digits_value(s: Seq<char>) -> int
    decreases s.len(),
{
    if s.len() == 0 {
        0
    } else {
        10 * digits_value(s.drop_last()) + digit_value(s.last())
    }
}

/// Pence held by a fractional part, rounded half up to the nearest penny:
/// the first two digits, plus one where the third is 5 or more.
pub open spec fn fraction_pence(f: Seq<char>) -> int {
    (if f.len() >= 1 { 10 * digit_value(f[0]) } else { 0int })
    + (if f.len() >= 2 { digit_value(f[1]) } else { 0 })
    + (if f.len() >= 3 && digit_value(f[2]) >= 5 { 1int } else { 0int })
}

/// `s` is a whole part of digits, a point at `k`, and a fractional part of
/// digits, with at least one digit on either side of the point.
pub open spec fn splits_at(s: Seq<char>, k: int) -> bool {
    &&& 0 <= k < s.len()
    &&& (k > 0 || s.len() > 1)
    &&& s[k] == '.'
    &&& all_digits(s.take(k))
    &&& all_digits(s.skip(k + 1))
}

/// The pence that a price text names: digits, optionally followed by a
/// point and more digits, or a point and digits alone (".99"); a fraction
/// finer than a penny is rounded half up ("12.995" is 1300 pence). A sign
/// or an exponent ("+5", "1e2") is no plain decimal amount and names no
/// price.
pub open spec fn pence_value(s: Seq<char>) -> Option<int> {
    if s.len() > 0 && all_digits(s) {
        Option::Some(100 * digits_value(s))
    } else if exists|k: int| splits_at(s, k) {
        let k = choose|k: int| splits_at(s, k);
        Option::Some(100 * digits_value(s.take(k)) + fraction_pence(s.skip(k + 1)))
    } else {
        Option::None
    }
}

proof fn lemma_digits_nonneg(s: Seq<char>)
    requires
        all_digits(s),
    ensures
        digits_value(s) >= 0,
    decreases s.len(),
{
    if s.len() > 0 {
        lemma_digits_nonneg(s.drop_last());
    }
}

proof fn lemma_digits_grow(s: Seq<char>, i: int)
    requires
        all_digits(s),
        0 <= i <= s.len(),
    ensures
        digits_value(s.take(i)) <= digits_value(s),
    decreases s.len() - i,
{
    if i < s.len() {
        lemma_digits_grow(s, i + 1);
        assert(s.take(i + 1).drop_last() =~= s.take(i));
        lemma_digits_nonneg(s.take(i));
    } else {
        assert(s.take(i) =~= s);
    }
}

/// Reads a price text into pence; `None` where the text is no price or the
/// amount does not fit in a `u64`.
pub fn parse_pence(text: &str) -> (r: Option<u64>)
    ensures
        r matches Option::Some(v) ==> pence_value(text@) == Option::Some(v as int),
        r is None ==> pence_value(text@) is None || pence_value(text@)->0 > u64::MAX,
{
    let n = text.unicode_len();
    let ghost s = text@;
    let mut whole: u64 = 0;
    let mut i: usize = 0;
    while i < n
        invariant
            s == text@,
            n == s.len(),
            i <= n,
            all_digits(s.take(i as int)),
            whole == digits_value(s.take(i as int)),
        ensures
            i <= n,
            all_digits(s.take(i as int)),
            whole == digits_value(s.take(i as int)),
            i < n ==> !is_digit(s[i as int]),
        decreases n - i,
    {
        let c = text.get_char(i);
        if !('0' <= c && c <= '9') {
            break;
        }
        proof {
            let t = s.take(i + 1);
            assert(t.drop_last() =~= s.take(i as int));
            assert(t.last() == c);
            assert forall|j: int| 0 <= j < t.len() implies is_digit(#[trigger] t[j]) by {
                if j < i {
                    assert(t[j] == s.take(i as int)[j]);
                }
            }
        }
        let d = (c as u32 - '0' as u32) as u64;
        match whole.checked_mul(10) {
            Option::None => {
                proof {
                    lemma_too_large(s, i + 1);
                }
                return Option::None;
            },
            Option::Some(w) => match w.checked_add(d) {
                Option::None => {
                    proof {
                        lemma_too_large(s, i + 1);
                    }
                    return Option::None;
                },
                Option::Some(w2) => {
                    whole = w2;
                },
            },
        }
        i = i + 1;
    }
    if i == n {
        if n == 0 {
            return Option::None;
        }
        proof {
            assert(s.take(i as int) =~= s);
        }
        return whole.checked_mul(100);
    }
    proof {
        lemma_split_only_at(s, i as int);
    }
    let c = text.get_char(i);
    if c != '.' || (i == 0 && n == 1) {
        return Option::None;
    }
    let ghost f = s.skip(i + 1);
    let mut frac: u64 = 0;
    let mut k: usize = i + 1;
    while k < n
        invariant
            s == text@,
            n == s.len(),
            i < n,
            f == s.skip(i + 1),
            i + 1 <= k <= n,
            forall|m: int| splits_at(s, m) ==> m == i,
            !all_digits(s),
            forall|j: int| 0 <= j < k - i - 1 ==> is_digit(#[trigger] f[j]),
            frac == (if k - i - 1 >= 1 { 10 * digit_value(f[0]) } else { 0 }) + (if k - i - 1 >= 2 {
                digit_value(f[1])
            } else {
                0
            }) + (if k - i - 1 >= 3 && digit_value(f[2]) >= 5 {
                1int
            } else {
                0
            }),
            frac <= 100,
        decreases n - k,
    {
        let d = text.get_char(k);
        proof {
            assert(f[k - i - 1] == d);
        }
        if !('0' <= d && d <= '9') {
            proof {
                assert(!splits_at(s, i as int));
            }
            return Option::None;
        }
        let v = (d as u32 - '0' as u32) as u64;
        if k == i + 1 {
            frac = 10 * v;
        } else if k == i + 2 {
            frac = frac + v;
        } else if k == i + 3 && v >= 5 {
            frac = frac + 1;
        }
        k = k + 1;
    }
    proof {
        assert(all_digits(f));
        assert(splits_at(s, i as int));
        assert(frac == fraction_pence(f));
    }
    match whole.checked_mul(100) {
        Option::None => Option::None,
        Option::Some(w) => w.checked_add(frac),
    }
}

/// A price text whose leading digits already spell more than a `u64` holds
/// names no amount that fits.
proof fn lemma_too_large(s: Seq<char>, j: int)
    requires
        0 < j <= s.len(),
        all_digits(s.take(j)),
        digits_value(s.take(j)) > u64::MAX,
    ensures
        pence_value(s) is None || pence_value(s)->0 > u64::MAX,
{
    if s.len() > 0 && all_digits(s) {
        lemma_digits_grow(s, j);
    } else if exists|k: int| splits_at(s, k) {
        let k = choose|k: int| splits_at(s, k);
        if k < j {
            assert(s.take(j)[k] == s[k]);
        }
        let w = s.take(k);
        assert(w.take(j) =~= s.take(j));
        lemma_digits_grow(w, j);
        let f = s.skip(k + 1);
        if f.len() > 0 {
            assert(is_digit(f[0]));
        }
        if f.len() > 1 {
            assert(is_digit(f[1]));
        }
    }
}

/// Where the first character that is no digit stands at `i`, a split can
/// stand only there.
proof fn lemma_split_only_at(s: Seq<char>, i: int)
    requires
        0 <= i < s.len(),
        all_digits(s.take(i)),
        !is_digit(s[i]),
    ensures
        forall|k: int| splits_at(s, k) ==> k == i,
        !all_digits(s),
{
    assert forall|k: int| splits_at(s, k) implies k == i by {
        if k < i {
            assert(s.take(i)[k] == s[k]);
        } else if k > i {
            assert(s.take(k)[i] == s[i]);
        }
    }
}

} // verus!
