//! Fixed-precision money.
//!
//! Amounts are counted in fraction units of a ten-thousandth of a whole unit
//! and held in an `i64`, so that crediting and debiting is exact integer
//! arithmetic. This module reads a decimal numeral (an optional minus sign,
//! whole digits, and up to four fraction digits) into fraction units, and
//! renders fraction units back with exactly four decimal digits.

use vstd::prelude::*;
use vstd::string::StrSliceExecFns;
use vstd::string::StringExecFns;

verus! {

/// The largest whole-part value whose magnitude, scaled by ten thousand,
/// still fits in an `i64`.
pub const MAX_UNITS: u64 = 922337203685477;

pub open spec fn is_digit(c: char) -> bool {
    '0' as int <= c as int && c as int <= '9' as int
}

pub open spec fn digit_val(c: char) -> int {
    c as int - '0' as int
}

pub open spec fn all_digits(s: Seq<char>) -> bool {
    forall|i: int| 0 <= i < s.len() ==> is_digit(#[trigger] s[i])
}

/// The number written by a sequence of decimal digits, most significant
/// digit first.
pub open spec fn digits_val(s: Seq<char>) -> int
    decreases s.len(),
{
    if s.len() == 0 {
        0
    } else {
        digits_val(s.drop_last()) * 10 + digit_val(s.last())
    }
}

/// The index of the first `'.'`, or the length when there is none.
pub open spec fn dot_index(s: Seq<char>) -> int
    decreases s.len(),
{
    if s.len() == 0 {
        0
    } else if s[0] == '.' {
        0
    } else {
        1 + dot_index(s.skip(1))
    }
}

pub open spec fn pow10(k: nat) -> int
    decreases k,
{
    if k == 0 {
        1
    } else {
        10 * pow10((k - 1) as nat)
    }
}

/// An unsigned fixed-point numeral: at least one whole digit, optionally
/// followed by `'.'` and one to four fraction digits.
pub open spec fn fixed_shape(s: Seq<char>) -> bool {
    let d = dot_index(s);
    &&& d >= 1
    &&& all_digits(s.take(d))
    &&& (d == s.len() || {
        let f = s.skip(d + 1);
        &&& 1 <= f.len() <= 4
        &&& all_digits(f)
    })
}

/// The value of an unsigned fixed-point numeral, in fraction units.
pub open spec fn fixed_units(s: Seq<char>) -> int {
    let d = dot_index(s);
    let f = if d == s.len() {
        Seq::<char>::empty()
    } else {
        s.skip(d + 1)
    };
    digits_val(s.take(d)) * 10000 + digits_val(f) * pow10((4 - f.len()) as nat)
}

/// The amount written by `s`: an optional `'-'`, then a fixed-point numeral.
/// `None` when the shape is wrong or the magnitude exceeds `i64::MAX`.
pub open spec fn parse_fixed(s: Seq<char>) -> Option<i64> {
    let neg = s.len() > 0 && s[0] == '-';
    let body = if neg {
        s.skip(1)
    } else {
        s
    };
    if !fixed_shape(body) {
        None
    } else {
        let mag = fixed_units(body);
        if mag > i64::MAX {
            None
        } else if neg {
            Some((-mag) as i64)
        } else {
            Some(mag as i64)
        }
    }
}

pub open spec fn digit_char(d: int) -> char {
    if d == 0 {
        '0'
    } else if d == 1 {
        '1'
    } else if d == 2 {
        '2'
    } else if d == 3 {
        '3'
    } else if d == 4 {
        '4'
    } else if d == 5 {
        '5'
    } else if d == 6 {
        '6'
    } else if d == 7 {
        '7'
    } else if d == 8 {
        '8'
    } else {
        '9'
    }
}

/// The decimal digits of `n`, most significant digit first.
pub open spec fn dec_digits(n: nat) -> Seq<char>
    decreases n,
{
    if n < 10 {
        seq![digit_char(n as int)]
    } else {
        dec_digits(n / 10).push(digit_char((n % 10) as int))
    }
}

/// Exactly four fraction digits, zero padded.
pub open spec fn frac4(f: int) -> Seq<char> {
    seq![
        digit_char(f / 1000),
        digit_char((f / 100) % 10),
        digit_char((f / 10) % 10),
        digit_char(f % 10),
    ]
}

/// How `v` fraction units are displayed: an optional sign, the whole part,
/// and exactly four fraction digits.
pub open spec fn fixed_text(v: int) -> Seq<char> {
    let mag = if v < 0 {
        -v
    } else {
        v
    };
    let sign = if v < 0 {
        seq!['-']
    } else {
        Seq::<char>::empty()
    };
    sign + dec_digits((mag / 10000) as nat) + seq!['.'] + frac4(mag % 10000)
}

proof fn lemma_digits_val_push(t: Seq<char>, c: char)
    ensures
        digits_val(t.push(c)) == digits_val(t) * 10 + digit_val(c),
{
    assert(t.push(c).drop_last() =~= t);
    assert(t.push(c).last() == c);
}

proof fn lemma_digits_val_nonneg(s: Seq<char>)
    requires
        all_digits(s),
    ensures
        digits_val(s) >= 0,
    decreases s.len(),
{
    if s.len() > 0 {
        assert(all_digits(s.drop_last())) by {
            assert(forall|i: int|
                0 <= i < s.len() - 1 ==> #[trigger] s.drop_last()[i] == s[i]);
        }
        lemma_digits_val_nonneg(s.drop_last());
        assert(is_digit(s.last()));
    }
}

proof fn lemma_all_digits_take(s: Seq<char>, k: int)
    requires
        all_digits(s),
        0 <= k <= s.len(),
    ensures
        all_digits(s.take(k)),
{
    assert(forall|i: int| 0 <= i < k ==> #[trigger] s.take(k)[i] == s[i]);
}

proof fn lemma_digits_val_prefix(s: Seq<char>, k: int)
    requires
        all_digits(s),
        0 <= k <= s.len(),
    ensures
        digits_val(s.take(k)) <= digits_val(s),
    decreases s.len() - k,
{
    if k == s.len() {
        assert(s.take(k) =~= s);
    } else {
        assert(s.take(k + 1).drop_last() =~= s.take(k));
        assert(s.take(k + 1).last() == s[k]);
        lemma_all_digits_take(s, k);
        lemma_digits_val_nonneg(s.take(k));
        assert(is_digit(s[k]));
        assert(digits_val(s.take(k + 1)) == digits_val(s.take(k)) * 10 + digit_val(s[k]));
        lemma_digits_val_prefix(s, k + 1);
    }
}

proof fn lemma_digits_val_bound(s: Seq<char>)
    requires
        all_digits(s),
    ensures
        digits_val(s) < pow10(s.len()),
    decreases s.len(),
{
    if s.len() == 0 {
    } else {
        assert(all_digits(s.drop_last())) by {
            assert(forall|i: int|
                0 <= i < s.len() - 1 ==> #[trigger] s.drop_last()[i] == s[i]);
        }
        lemma_digits_val_bound(s.drop_last());
        assert(is_digit(s.last()));
        assert(pow10(s.len()) == 10 * pow10((s.len() - 1) as nat));
    }
}

proof fn lemma_pow10_pos(k: nat)
    ensures
        pow10(k) >= 1,
    decreases k,
{
    if k > 0 {
        lemma_pow10_pos((k - 1) as nat);
    }
}

proof fn lemma_dot_index_at(s: Seq<char>, k: int)
    requires
        0 <= k <= s.len(),
        forall|j: int| 0 <= j < k ==> s[j] != '.',
        k < s.len() ==> s[k] == '.',
    ensures
        dot_index(s) == k,
    decreases s.len(),
{
    if s.len() == 0 {
    } else if k == 0 {
    } else {
        assert(s[0] != '.');
        lemma_dot_index_at(s.skip(1), k - 1);
    }
}

/// First index at or after `from` that holds a `'.'`, or the length.
fn find_dot(s: &str, from: usize) -> (r: usize)
    requires
        from as int <= s@.len(),
    ensures
        from <= r,
        r as int <= s@.len(),
        forall|j: int| from <= j < r ==> s@[j] != '.',
        (r as int) < s@.len() ==> s@[r as int] == '.',
{
    let n: usize = s.unicode_len();
    let mut i: usize = from;
    while i < n
        invariant
            from <= i <= n,
            n as nat == s@.len(),
            forall|j: int| from <= j < i ==> s@[j] != '.',
        decreases n - i,
    {
        if s.get_char(i) == '.' {
            return i;
        }
        i = i + 1;
    }
    i
}

/// Reads the decimal digits in `s[from..to]`. `None` when a non-digit occurs
/// or the value exceeds `cap`.
fn scan_digits(s: &str, from: usize, to: usize, cap: u64) -> (r: Option<u64>)
    requires
        from <= to,
        to as int <= s@.len(),
        cap <= 1844674407370955160,
    ensures
        ({
            let part = s@.subrange(from as int, to as int);
            match r {
                Some(v) => all_digits(part) && v == digits_val(part) && v <= cap,
                None => !(all_digits(part) && digits_val(part) <= cap),
            }
        }),
{
    let ghost part = s@.subrange(from as int, to as int);
    let mut i: usize = from;
    let mut acc: u64 = 0;
    while i < to
        invariant
            from <= i <= to,
            to as int <= s@.len(),
            cap <= 1844674407370955160,
            part == s@.subrange(from as int, to as int),
            all_digits(s@.subrange(from as int, i as int)),
            acc == digits_val(s@.subrange(from as int, i as int)),
            acc <= cap,
        decreases to - i,
    {
        let c = s.get_char(i);
        let cv: u32 = c as u32;
        if cv < 48 || cv > 57 {
            proof {
                assert(part[i - from] == c);
                assert(!is_digit(c));
            }
            return None;
        }
        let d: u64 = (cv - 48) as u64;
        let next: u64 = acc * 10 + d;
        proof {
            assert(s@.subrange(from as int, i as int).push(s@[i as int]) =~= s@.subrange(
                from as int,
                i as int + 1,
            ));
            lemma_digits_val_push(s@.subrange(from as int, i as int), s@[i as int]);
            assert(is_digit(c));
            assert(digit_val(c) == d);
        }
        if next > cap {
            proof {
                if all_digits(part) {
                    assert(part.take(i + 1 - from) =~= s@.subrange(from as int, i as int + 1));
                    lemma_digits_val_prefix(part, i + 1 - from);
                    assert(digits_val(part) >= next);
                }
            }
            return None;
        }
        acc = next;
        i = i + 1;
    }
    proof {
        assert(s@.subrange(from as int, i as int) =~= part);
    }
    Some(acc)
}

/// Reads a signed fixed-point numeral into fraction units.
///
/// Accepted: an optional `'-'`, one or more whole digits, and optionally a
/// `'.'` followed by one to four fraction digits. Anything else, or a
/// magnitude beyond `i64::MAX` fraction units, yields `None`.
pub fn parse_amount(s: &str) -> (r: Option<i64>)
    ensures
        r == parse_fixed(s@),
{
    let n: usize = s.unicode_len();
    let neg = if n > 0 {
        s.get_char(0) == '-'
    } else {
        false
    };
    let start: usize = if neg {
        1
    } else {
        0
    };
    let ghost body: Seq<char> = if neg {
        s@.skip(1)
    } else {
        s@
    };
    let dot = find_dot(s, start);
    proof {
        assert(body.len() == n - start);
        assert(forall|j: int| 0 <= j < body.len() ==> body[j] == s@[j + start]);
        lemma_dot_index_at(body, dot - start);
    }
    if dot == start {
        // no whole digits, so no numeral at all
        return None;
    }
    let ghost ipart = body.take(dot - start);
    proof {
        assert(ipart =~= s@.subrange(start as int, dot as int));
    }
    let ip: u64 = match scan_digits(s, start, dot, MAX_UNITS) {
        None => {
            proof {
                if fixed_shape(body) {
                    // the whole part is all digits, so its value must be over
                    // the cap, which already pushes the magnitude past i64
                    assert(all_digits(ipart));
                    assert(digits_val(ipart) > MAX_UNITS);
                    if dot_index(body) == body.len() {
                        assert(fixed_units(body) == digits_val(ipart) * 10000 + 0 * pow10(4));
                    } else {
                        let f = body.skip(dot_index(body) + 1);
                        lemma_digits_val_nonneg(f);
                        lemma_pow10_pos((4 - f.len()) as nat);
                    }
                    assert(fixed_units(body) > i64::MAX);
                }
            }
            return None;
        },
        Some(v) => v,
    };
    if dot == n {
        let mag: u64 = ip * 10000;
        proof {
            assert(fixed_shape(body));
            assert(fixed_units(body) == mag);
            assert(mag <= i64::MAX);
        }
        if neg {
            Some(-(mag as i64))
        } else {
            Some(mag as i64)
        }
    } else {
        let flen: usize = n - dot - 1;
        let ghost f = body.skip(dot - start + 1);
        proof {
            assert(f =~= s@.subrange(dot as int + 1, n as int));
            assert(f.len() == flen);
        }
        if flen < 1 || flen > 4 {
            // the fraction must hold one to four digits
            return None;
        }
        let fv: u64 = match scan_digits(s, dot + 1, n, 9999) {
            None => {
                proof {
                    if all_digits(f) {
                        lemma_digits_val_bound(f);
                        assert(pow10(0) == 1);
                        assert(pow10(1) == 10);
                        assert(pow10(2) == 100);
                        assert(pow10(3) == 1000);
                        assert(pow10(4) == 10000);
                        lemma_digits_val_nonneg(f);
                        assert(digits_val(f) <= 9999);
                    }
                }
                return None;
            },
            Some(v) => v,
        };
        let p: u64 = if flen == 1 {
            1000
        } else if flen == 2 {
            100
        } else if flen == 3 {
            10
        } else {
            1
        };
        proof {
            assert(pow10(0) == 1);
            assert(pow10(1) == 10);
            assert(pow10(2) == 100);
            assert(pow10(3) == 1000);
            assert(p == pow10((4 - flen) as nat));
            lemma_digits_val_bound(f);
            assert(pow10(4) == 10000);
            if flen == 1 {
                assert(digits_val(f) < 10);
            } else if flen == 2 {
                assert(digits_val(f) < 100);
            } else if flen == 3 {
                assert(digits_val(f) < 1000);
            } else {
                assert(digits_val(f) < 10000);
            }
            lemma_digits_val_nonneg(f);
        }
        proof {
            assert(fv * p <= 9999000) by (nonlinear_arith)
                requires
                    fv <= 9999,
                    p <= 1000,
            {
            }
            assert(ip * 10000 <= 9223372036854770000) by (nonlinear_arith)
                requires
                    ip <= 922337203685477,
            {
            }
        }
        let mag: u64 = ip * 10000 + fv * p;
        proof {
            assert(fixed_shape(body));
            assert(fixed_units(body) == mag);
        }
        if mag > i64::MAX as u64 {
            None
        } else if neg {
            Some(-(mag as i64))
        } else {
            Some(mag as i64)
        }
    }
}

/// A one-character string slice for a single decimal digit.
fn digit_str(d: u64) -> (r: &'static str)
    requires
        d < 10,
    ensures
        r@ == seq![digit_char(d as int)],
{
    if d == 0 {
        proof {
            reveal_strlit("0");
            assert(("0")@ =~= seq![digit_char(0int)]);
        }
        "0"
    } else if d == 1 {
        proof {
            reveal_strlit("1");
            assert(("1")@ =~= seq![digit_char(1int)]);
        }
        "1"
    } else if d == 2 {
        proof {
            reveal_strlit("2");
            assert(("2")@ =~= seq![digit_char(2int)]);
        }
        "2"
    } else if d == 3 {
        proof {
            reveal_strlit("3");
            assert(("3")@ =~= seq![digit_char(3int)]);
        }
        "3"
    } else if d == 4 {
        proof {
            reveal_strlit("4");
            assert(("4")@ =~= seq![digit_char(4int)]);
        }
        "4"
    } else if d == 5 {
        proof {
            reveal_strlit("5");
            assert(("5")@ =~= seq![digit_char(5int)]);
        }
        "5"
    } else if d == 6 {
        proof {
            reveal_strlit("6");
            assert(("6")@ =~= seq![digit_char(6int)]);
        }
        "6"
    } else if d == 7 {
        proof {
            reveal_strlit("7");
            assert(("7")@ =~= seq![digit_char(7int)]);
        }
        "7"
    } else if d == 8 {
        proof {
            reveal_strlit("8");
            assert(("8")@ =~= seq![digit_char(8int)]);
        }
        "8"
    } else {
        proof {
            reveal_strlit("9");
            assert(("9")@ =~= seq![digit_char(9int)]);
        }
        "9"
    }
}

/// Renders `n` as decimal digits, most significant digit first.
pub fn format_u64(n: u64) -> (r: String)
    ensures
        r@ == dec_digits(n as nat),
    decreases n,
{
    if n < 10 {
        String::from_str(digit_str(n))
    } else {
        let mut s = format_u64(n / 10);
        s.append(digit_str(n % 10));
        proof {
            assert(s@ =~= dec_digits((n / 10) as nat).push(digit_char((n % 10) as int)));
        }
        s
    }
}

/// Renders `v` fraction units with a sign, the whole part, and exactly four
/// fraction digits.
pub fn format_fixed(v: i64) -> (r: String)
    ensures
        r@ == fixed_text(v as int),
{
    let mag: u64 = if v < 0 {
        (-(v as i128)) as u64
    } else {
        v as u64
    };
    proof {
        assert(mag == (if v < 0 {
            -(v as int)
        } else {
            v as int
        }));
    }
    let whole: u64 = mag / 10000;
    let frac: u64 = mag % 10000;
    let mut s = if v < 0 {
        String::from_str("-")
    } else {
        String::new()
    };
    let w = format_u64(whole);
    s.append(w.as_str());
    s.append(".");
    s.append(digit_str(frac / 1000));
    s.append(digit_str((frac / 100) % 10));
    s.append(digit_str((frac / 10) % 10));
    s.append(digit_str(frac % 10));
    proof {
        reveal_strlit("-");
        reveal_strlit(".");
        assert(("-")@ =~= seq!['-']);
        assert((".")@ =~= seq!['.']);
        assert(s@ =~= fixed_text(v as int));
    }
    s
}

} // verus!
