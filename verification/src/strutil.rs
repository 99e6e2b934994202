//! Verified helpers for rendering integers as decimal text and for
//! comparing strings, shared by the filter, timestamp and argument
//! rendering code.

use vstd::prelude::*;

verus! {

/// The character for one decimal digit (`0 <= d < 10`).
pub open spec fn digit_char(d: int) -> char {
    if d == 0 {
        '0'
    } else if d == 1 {
        '1'
    } else if d == 2 {
        '2'
    } else if d == 3 {
        '3'
    } else if d == 4 {
        '4'
    } else if d == 5 {
        '5'
    } else if d == 6 {
        '6'
    } else if d == 7 {
        '7'
    } else if d == 8 {
        '8'
    } else {
        '9'
    }
}

/// Decimal text of a non-negative integer, most significant digit first,
/// no leading zeros (except for the value zero itself, written "0").
pub open spec fn dec_str(n: nat) -> Seq<char>
    decreases n,
{
    if n < 10 {
        seq![digit_char(n as int)]
    } else {
        dec_str(n / 10) + seq![digit_char((n % 10) as int)]
    }
}

/// One digit as a string slice.
fn digit_str(d: u128) -> (s: &'static str)
    requires
        d < 10,
    ensures
        s@ == seq![digit_char(d as int)],
{
    proof {
        reveal_strlit("0");
        reveal_strlit("1");
        reveal_strlit("2");
        reveal_strlit("3");
        reveal_strlit("4");
        reveal_strlit("5");
        reveal_strlit("6");
        reveal_strlit("7");
        reveal_strlit("8");
        reveal_strlit("9");
    }
    let s = if d == 0 {
        "0"
    } else if d == 1 {
        "1"
    } else if d == 2 {
        "2"
    } else if d == 3 {
        "3"
    } else if d == 4 {
        "4"
    } else if d == 5 {
        "5"
    } else if d == 6 {
        "6"
    } else if d == 7 {
        "7"
    } else if d == 8 {
        "8"
    } else {
        "9"
    };
    proof {
        assert(s@ =~= seq![digit_char(d as int)]);
    }
    s
}

/// Renders a `u128` in decimal.
pub fn u128_to_string(n: u128) -> (s: String)
    ensures
        s@ == dec_str(n as nat),
    decreases n,
{
    if n < 10 {
        digit_str(n).to_owned()
    } else {
        let mut s = u128_to_string(n / 10);
        s.append(digit_str(n % 10));
        proof {
            assert(s@ =~= dec_str(n as nat));
        }
        s
    }
}

/// Renders a `u32` in decimal.
pub fn u32_to_string(n: u32) -> (s: String)
    ensures
        s@ == dec_str(n as nat),
{
    u128_to_string(n as u128)
}

/// `10^w`.
pub open spec fn pow10(w: nat) -> nat
    decreases w,
{
    if w == 0 {
        1
    } else {
        10 * pow10((w - 1) as nat)
    }
}

/// Exactly `w` decimal digits of `f` (`f < 10^w`), leading zeros kept.
pub open spec fn fixed_digits(f: nat, w: nat) -> Seq<char>
    decreases w,
{
    if w == 0 {
        Seq::empty()
    } else {
        fixed_digits(f / 10, (w - 1) as nat) + seq![digit_char((f % 10) as int)]
    }
}

/// Drops trailing `'0'` characters.
pub open spec fn trim_zeros(s: Seq<char>) -> Seq<char>
    decreases s.len(),
{
    if s.len() > 0 && s[s.len() - 1] == '0' {
        trim_zeros(s.drop_last())
    } else {
        s
    }
}

/// The magnitude of an integer.
pub open spec fn abs_val(v: int) -> nat {
    if v >= 0 {
        v as nat
    } else {
        (-v) as nat
    }
}

/// Decimal text of the scaled value `v / 10^w`: a minus sign for negative
/// values, the integer part without leading zeros, and the fractional part
/// with trailing zeros dropped ("1.5", "2", "-0.25").
pub open spec fn scaled_dec_str(v: int, w: nat) -> Seq<char> {
    let mag = abs_val(v);
    let ip = mag / pow10(w);
    let fp = mag % pow10(w);
    let sign: Seq<char> = if v < 0 {
        seq!['-']
    } else {
        Seq::empty()
    };
    let frac = trim_zeros(fixed_digits(fp, w));
    if frac.len() == 0 {
        sign + dec_str(ip)
    } else {
        sign + dec_str(ip) + seq!['.'] + frac
    }
}

/// Powers of ten are positive.
pub proof fn lemma_pow10_pos(w: nat)
    ensures
        pow10(w) >= 1,
    decreases w,
{
    if w > 0 {
        lemma_pow10_pos((w - 1) as nat);
    }
}

/// Powers of ten are monotonic in the exponent.
pub proof fn lemma_pow10_le(a: nat, b: nat)
    requires
        a <= b,
    ensures
        pow10(a) <= pow10(b),
    decreases b,
{
    if a < b {
        lemma_pow10_le(a, (b - 1) as nat);
        lemma_pow10_pos((b - 1) as nat);
    }
}

/// Powers of ten multiply by adding exponents.
pub proof fn lemma_pow10_add(a: nat, b: nat)
    ensures
        pow10(a) * pow10(b) == pow10(a + b),
    decreases a,
{
    if a == 0 {
        assert(1 * pow10(b) == pow10(b)) by (nonlinear_arith);
    } else {
        lemma_pow10_add((a - 1) as nat, b);
        assert(pow10(a) * pow10(b) == pow10(a + b)) by (nonlinear_arith)
            requires
                pow10((a - 1) as nat) * pow10(b) == pow10((a - 1 + b) as nat),
                pow10(a) == 10 * pow10((a - 1) as nat),
                pow10(a + b) == 10 * pow10((a - 1 + b) as nat),
        ;
    }
}

/// Computes a small power of ten.
pub fn pow10_u64(w: usize) -> (r: u64)
    requires
        w <= 19,
    ensures
        r as nat == pow10(w as nat),
        r >= 1,
{
    proof {
        reveal_with_fuel(pow10, 21);
    }
    let mut acc: u64 = 1;
    let mut i: usize = 0;
    while i < w
        invariant
            i <= w <= 19,
            acc as nat == pow10(i as nat),
        decreases w - i,
    {
        proof {
            lemma_pow10_le((i + 1) as nat, 19);
            assert(pow10(19) == 10_000_000_000_000_000_000) by {
                reveal_with_fuel(pow10, 21);
            }
        }
        acc = acc * 10;
        i += 1;
    }
    proof {
        lemma_pow10_pos(w as nat);
    }
    acc
}

/// Trailing-zero trimming commutes with dropping a final zero digit.
proof fn lemma_trim_drop(f: nat, w: nat)
    requires
        w >= 1,
        f % 10 == 0,
        f < pow10(w),
    ensures
        trim_zeros(fixed_digits(f, w)) == trim_zeros(fixed_digits(f / 10, (w - 1) as nat)),
{
    let prefix = fixed_digits(f / 10, (w - 1) as nat);
    let whole = fixed_digits(f, w);
    assert(whole == prefix + seq![digit_char((f % 10) as int)]);
    assert(whole[whole.len() - 1] == '0');
    assert(whole.drop_last() =~= prefix);
}

/// A fixed-width digit string whose last digit is non-zero is already trimmed.
proof fn lemma_trim_stable(f: nat, w: nat)
    requires
        w >= 1,
        f % 10 != 0,
    ensures
        trim_zeros(fixed_digits(f, w)) == fixed_digits(f, w),
{
    let whole = fixed_digits(f, w);
    assert(whole[whole.len() - 1] == digit_char((f % 10) as int));
    assert(digit_char((f % 10) as int) != '0');
}

/// Renders `f` with exactly `w` digits, leading zeros kept.
fn fixed_string(f: u128, w: u32) -> (s: String)
    requires
        f < pow10(w as nat),
    ensures
        s@ == fixed_digits(f as nat, w as nat),
    decreases w,
{
    if w == 0 {
        String::new()
    } else {
        proof {
            lemma_pow10_pos((w - 1) as nat);
            assert(f / 10 < pow10((w - 1) as nat)) by {
                assert(pow10(w as nat) == 10 * pow10((w - 1) as nat));
            }
        }
        let mut s = fixed_string(f / 10, w - 1);
        s.append(digit_str(f % 10));
        proof {
            assert(s@ =~= fixed_digits(f as nat, w as nat));
        }
        s
    }
}

/// Renders the scaled value `(-1)^neg * mag / 10^w` as decimal text,
/// dropping trailing zeros of the fractional part.
pub fn scaled_string(neg: bool, mag: u128, w: u32, scale: u128) -> (s: String)
    requires
        scale == pow10(w as nat),
    ensures
        s@ == scaled_dec_str(
            if neg {
                -(mag as int)
            } else {
                mag as int
            },
            w as nat,
        ),
{
    proof {
        lemma_pow10_pos(w as nat);
    }
    let ghost v: int = if neg {
        -(mag as int)
    } else {
        mag as int
    };
    let ip = mag / scale;
    let fp = mag % scale;
    proof {
        assert(abs_val(v) == mag as nat);
        assert(ip as nat == abs_val(v) / pow10(w as nat));
        assert(fp as nat == abs_val(v) % pow10(w as nat));
    }
    let mut s = if neg && mag > 0 {
        proof {
            reveal_strlit("-");
        }
        let mut t = String::new();
        t.append("-");
        proof {
            assert(t@ =~= seq!['-']);
        }
        t
    } else {
        String::new()
    };
    s.append(u128_to_string(ip).as_str());
    if fp > 0 {
        // Strip factors of ten so that only significant fractional digits
        // are rendered.
        let mut f = fp;
        let mut ww = w;
        proof {
            if ww == 0 {
                assert(pow10(0) == 1);
                assert(false);
            }
        }
        while f % 10 == 0
            invariant
                f > 0,
                ww >= 1,
                f < pow10(ww as nat),
                trim_zeros(fixed_digits(f as nat, ww as nat)) == trim_zeros(
                    fixed_digits(fp as nat, w as nat),
                ),
            decreases f,
        {
            proof {
                lemma_trim_drop(f as nat, ww as nat);
                assert(pow10(ww as nat) == 10 * pow10((ww - 1) as nat));
                if ww == 1 {
                    assert(f < 10);
                    assert(f / 10 == 0);
                    assert(f % 10 == f);
                    assert(false);
                }
                lemma_pow10_pos((ww - 1) as nat);
            }
            f = f / 10;
            ww = ww - 1;
            proof {
                if f == 0 {
                    assert(false);
                }
            }
        }
        proof {
            lemma_trim_stable(f as nat, ww as nat);
            reveal_strlit(".");
        }
        s.append(".");
        s.append(fixed_string(f, ww).as_str());
        proof {
            assert(s@ =~= scaled_dec_str(v, w as nat));
        }
    } else {
        proof {
            assert(fixed_digits(0, w as nat).len() == w) by {
                lemma_fixed_digits_len(0, w as nat);
            }
            lemma_trim_zeros_all(w as nat);
            assert(s@ =~= scaled_dec_str(v, w as nat));
        }
    }
    s
}

/// The length of a fixed-width digit string is its width.
proof fn lemma_fixed_digits_len(f: nat, w: nat)
    ensures
        fixed_digits(f, w).len() == w,
    decreases w,
{
    if w > 0 {
        lemma_fixed_digits_len(f / 10, (w - 1) as nat);
    }
}

/// A string of zero digits trims to nothing.
proof fn lemma_trim_zeros_all(w: nat)
    ensures
        trim_zeros(fixed_digits(0, w)) == Seq::<char>::empty(),
    decreases w,
{
    if w > 0 {
        lemma_trim_zeros_all((w - 1) as nat);
        lemma_fixed_digits_len(0, (w - 1) as nat);
        let whole = fixed_digits(0, w);
        assert(whole == fixed_digits(0, (w - 1) as nat) + seq![digit_char(0)]);
        assert(whole[whole.len() - 1] == '0');
        assert(whole.drop_last() =~= fixed_digits(0, (w - 1) as nat));
    }
}

/// Decimal text of a signed integer.
pub open spec fn int_str(v: int) -> Seq<char> {
    if v < 0 {
        seq!['-'] + dec_str((-v) as nat)
    } else {
        dec_str(v as nat)
    }
}

/// Renders an `i64` in decimal.
pub fn i64_to_string(n: i64) -> (s: String)
    ensures
        s@ == int_str(n as int),
{
    let mag: u128 = if n < 0 {
        (-(n as i128)) as u128
    } else {
        n as u128
    };
    if n < 0 {
        proof {
            reveal_strlit("-");
        }
        let mut s = String::new();
        s.append("-");
        s.append(u128_to_string(mag).as_str());
        proof {
            assert(s@ =~= int_str(n as int));
        }
        s
    } else {
        u128_to_string(mag)
    }
}

/// Holds iff the needle `n` occurs in `h` starting at position `i`.
pub open spec fn matches_at(h: Seq<char>, n: Seq<char>, i: int) -> bool {
    forall|j: int| 0 <= j < n.len() ==> h[i + j] == n[j]
}

/// Holds iff the needle `n` occurs somewhere in `h`.
pub open spec fn contains_seq(h: Seq<char>, n: Seq<char>) -> bool {
    exists|i: int| 0 <= i <= h.len() - n.len() && matches_at(h, n, i)
}

/// Substring search.
pub fn str_contains(h: &str, n: &str) -> (r: bool)
    ensures
        r == contains_seq(h@, n@),
{
    let h_len = h.unicode_len();
    let n_len = n.unicode_len();
    if n_len > h_len {
        proof {
            assert(!contains_seq(h@, n@));
        }
        return false;
    }
    let mut i: usize = 0;
    while i <= h_len - n_len
        invariant
            h_len == h@.len(),
            n_len == n@.len(),
            n_len <= h_len,
            i <= h_len - n_len + 1,
            forall|k: int| 0 <= k < i ==> !matches_at(h@, n@, k),
        decreases h_len - n_len - i + 1,
    {
        let mut j: usize = 0;
        let mut hit = true;
        while j < n_len
            invariant
                h_len == h@.len(),
                n_len == n@.len(),
                n_len <= h_len,
                i <= h_len - n_len,
                j <= n_len,
                hit ==> forall|l: int| 0 <= l < j ==> h@[i + l] == n@[l],
                !hit ==> !matches_at(h@, n@, i as int),
            decreases n_len - j,
        {
            if h.get_char(i + j) != n.get_char(j) {
                hit = false;
                proof {
                    assert(!matches_at(h@, n@, i as int));
                }
                j = n_len;
            } else {
                j += 1;
            }
        }
        if hit {
            proof {
                assert(matches_at(h@, n@, i as int));
            }
            return true;
        }
        i += 1;
    }
    proof {
        assert(forall|k: int| 0 <= k <= h@.len() - n@.len() ==> !matches_at(h@, n@, k));
    }
    false
}

/// Decimal text of `n`, zero-padded on the left to at least two digits.
pub open spec fn pad2(n: nat) -> Seq<char> {
    if n < 10 {
        seq!['0'] + dec_str(n)
    } else {
        dec_str(n)
    }
}

/// Decimal text of `n`, zero-padded on the left to at least three digits.
pub open spec fn pad3(n: nat) -> Seq<char> {
    if n < 10 {
        seq!['0', '0'] + dec_str(n)
    } else if n < 100 {
        seq!['0'] + dec_str(n)
    } else {
        dec_str(n)
    }
}

/// Renders `n` zero-padded to at least two digits.
pub fn pad2_string(n: u128) -> (s: String)
    ensures
        s@ == pad2(n as nat),
{
    if n < 10 {
        proof {
            reveal_strlit("0");
        }
        let mut s = String::new();
        s.append("0");
        s.append(u128_to_string(n).as_str());
        proof {
            assert(s@ =~= pad2(n as nat));
        }
        s
    } else {
        u128_to_string(n)
    }
}

/// Renders `n` zero-padded to at least three digits.
pub fn pad3_string(n: u128) -> (s: String)
    ensures
        s@ == pad3(n as nat),
{
    if n < 100 {
        proof {
            reveal_strlit("0");
        }
        let mut s = String::new();
        s.append("0");
        s.append(pad2_string(n).as_str());
        proof {
            assert(s@ =~= pad3(n as nat));
        }
        s
    } else {
        u128_to_string(n)
    }
}

/// An ASCII upper-case letter mapped to lower case; all else unchanged.
pub open spec fn ascii_lower_char(c: char) -> char {
    if 'A' <= c <= 'Z' {
        ((c as u32) + 32) as char
    } else {
        c
    }
}

/// Character-wise ASCII lower-casing.
pub open spec fn ascii_lower(s: Seq<char>) -> Seq<char> {
    s.map_values(|c: char| ascii_lower_char(c))
}

/// Character-wise string equality.
pub fn str_eq(a: &str, b: &str) -> (r: bool)
    ensures
        r == (a@ == b@),
{
    let a_len = a.unicode_len();
    let b_len = b.unicode_len();
    if a_len != b_len {
        proof {
            assert(a@ != b@);
        }
        return false;
    }
    let mut i: usize = 0;
    while i < a_len
        invariant
            a_len == a@.len(),
            b_len == b@.len(),
            a_len == b_len,
            i <= a_len,
            forall|j: int| 0 <= j < i ==> a@[j] == b@[j],
        decreases a_len - i,
    {
        if a.get_char(i) != b.get_char(i) {
            return false;
        }
        i += 1;
    }
    proof {
        assert(a@ =~= b@);
    }
    true
}

} // verus!
