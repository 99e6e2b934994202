//! Conversion of the prober's raw report into the typed metadata model,
//! tolerating missing or malformed numeric and rational fields.
//!
//! Every conversion here is best-effort: a field that fails to parse
//! becomes absent, it never aborts the probe.

use vstd::prelude::*;

use crate::strutil::pow10;
use crate::types::Time;

verus! {

/// A decimal digit character.
pub open spec fn is_digit_char(c: char) -> bool {
    '0' <= c <= '9'
}

/// The numeric value of a digit character.
pub open spec fn digit_val(c: char) -> nat {
    (c as u32 - '0' as u32) as nat
}

/// Holds iff every character of `s` is a decimal digit.
pub open spec fn all_digits(s: Seq<char>) -> bool {
    forall|i: int| 0 <= i < s.len() ==> is_digit_char(#[trigger] s[i])
}

/// The number a digit string stands for, most significant digit first.
pub open spec fn digits_val(s: Seq<char>) -> nat
    decreases s.len(),
{
    if s.len() == 0 {
        0
    } else {
        digits_val(s.drop_last()) * 10 + digit_val(s.last())
    }
}

/// The value of a prefix of a digit string is at most the value of the
/// whole string.
proof fn lemma_digits_prefix_le(s: Seq<char>, j: int)
    requires
        0 <= j <= s.len(),
    ensures
        digits_val(s.take(j)) <= digits_val(s),
    decreases s.len() - j,
{
    if j == s.len() {
        assert(s.take(j) =~= s);
    } else {
        lemma_digits_prefix_le(s, j + 1);
        assert(s.take(j + 1).drop_last() =~= s.take(j));
        assert(digits_val(s.take(j + 1)) == digits_val(s.take(j)) * 10 + digit_val(
            s.take(j + 1).last(),
        ));
    }
}

/// The value of a digit string is below ten to its length.
proof fn lemma_digits_val_bound(s: Seq<char>)
    requires
        all_digits(s),
    ensures
        digits_val(s) < pow10(s.len()),
    decreases s.len(),
{
    if s.len() > 0 {
        assert(all_digits(s.drop_last())) by {
            assert(forall|i: int|
                0 <= i < s.len() - 1 ==> s.drop_last()[i] == #[trigger] s[i]);
        }
        lemma_digits_val_bound(s.drop_last());
        assert(is_digit_char(s.last()));
        assert(digit_val(s.last()) <= 9) by {
            assert(s.last() as u32 <= '9' as u32);
        }
        assert(digits_val(s) < pow10(s.len())) by (nonlinear_arith)
            requires
                digits_val(s) == digits_val(s.drop_last()) * 10 + digit_val(s.last()),
                digits_val(s.drop_last()) < pow10((s.len() - 1) as nat),
                digit_val(s.last()) <= 9,
                pow10(s.len()) == 10 * pow10((s.len() - 1) as nat),
        ;
        assert(pow10(s.len()) == 10 * pow10((s.len() - 1) as nat));
    }
}

/// Concatenating digit strings multiplies the left value by ten to the
/// length of the right.
proof fn lemma_digits_concat(a: Seq<char>, b: Seq<char>)
    ensures
        digits_val(a + b) == digits_val(a) * pow10(b.len()) + digits_val(b),
    decreases b.len(),
{
    if b.len() == 0 {
        assert(a + b =~= a);
        assert(pow10(0) == 1);
        assert(digits_val(b) == 0);
        assert(digits_val(a) * 1 == digits_val(a)) by (nonlinear_arith);
    } else {
        lemma_digits_concat(a, b.drop_last());
        assert((a + b).drop_last() =~= a + b.drop_last());
        assert((a + b).last() == b.last());
        assert(pow10(b.len()) == 10 * pow10((b.len() - 1) as nat));
        assert(digits_val(a + b) == digits_val(a) * pow10(b.len()) + digits_val(b))
            by (nonlinear_arith)
            requires
                digits_val(a + b) == digits_val(a + b.drop_last()) * 10 + digit_val(b.last()),
                digits_val(a + b.drop_last()) == digits_val(a) * pow10((b.len() - 1) as nat)
                    + digits_val(b.drop_last()),
                digits_val(b) == digits_val(b.drop_last()) * 10 + digit_val(b.last()),
                pow10(b.len()) == 10 * pow10((b.len() - 1) as nat),
        ;
    }
}

/// Whether every character of `s` in `[from, to)` is a decimal digit.
fn all_digits_range(s: &str, from: usize, to: usize) -> (r: bool)
    requires
        from <= to <= s@.len(),
    ensures
        r == all_digits(s@.subrange(from as int, to as int)),
{
    let mut i: usize = from;
    while i < to
        invariant
            from <= i <= to <= s@.len(),
            forall|j: int| from <= j < i ==> is_digit_char(#[trigger] s@[j]),
        decreases to - i,
    {
        let c = s.get_char(i);
        let u = c as u32;
        if u < 48 || u > 57 {
            proof {
                assert(!is_digit_char(s@[i as int]));
                assert(s@.subrange(from as int, to as int)[i - from] == s@[i as int]);
            }
            return false;
        }
        i += 1;
    }
    proof {
        assert forall|k: int|
            0 <= k < to - from implies is_digit_char(
            #[trigger] s@.subrange(from as int, to as int)[k],
        ) by {
            assert(s@.subrange(from as int, to as int)[k] == s@[from + k]);
        }
    }
    true
}

/// The value of the digit range `[from, to)` of `s`, or nothing if a
/// character there is not a digit or the value exceeds `u64::MAX`.
fn digits_value(s: &str, from: usize, to: usize) -> (r: Option<u64>)
    requires
        from <= to <= s@.len(),
    ensures
        ({
            let part = s@.subrange(from as int, to as int);
            match r {
                Some(v) => all_digits(part) && v as nat == digits_val(part),
                None => !(all_digits(part) && digits_val(part) <= u64::MAX),
            }
        }),
{
    let ghost part = s@.subrange(from as int, to as int);
    let mut acc: u64 = 0;
    let mut i: usize = from;
    while i < to
        invariant
            from <= i <= to <= s@.len(),
            part == s@.subrange(from as int, to as int),
            all_digits(part.take(i - from)),
            acc as nat == digits_val(part.take(i - from)),
        decreases to - i,
    {
        let c = s.get_char(i);
        let u = c as u32;
        if u < 48 || u > 57 {
            proof {
                assert(part[i - from] == s@[i as int]);
                assert(!is_digit_char(part[i - from]));
            }
            return None;
        }
        let d: u64 = (u - 48) as u64;
        let wide: u128 = acc as u128 * 10 + d as u128;
        proof {
            assert(part.take(i - from + 1).drop_last() =~= part.take(i - from));
            assert(part.take(i - from + 1).last() == s@[i as int]);
            assert(digit_val(s@[i as int]) == d as nat);
        }
        if wide > 0xFFFF_FFFF_FFFF_FFFF {
            proof {
                assert(digits_val(part.take(i - from + 1)) > u64::MAX);
                lemma_digits_prefix_le(part, i - from + 1);
            }
            return None;
        }
        acc = wide as u64;
        i += 1;
    }
    proof {
        assert(part.take(to - from) =~= part);
    }
    Some(acc)
}

/// Strips one leading `'+'`, as the integer grammar allows.
pub open spec fn strip_plus(s: Seq<char>) -> Seq<char> {
    if s.len() > 0 && s[0] == '+' {
        s.drop_first()
    } else {
        s
    }
}

/// The unsigned 64-bit reading of `s`: an optional `'+'`, then one or
/// more digits whose value fits, else nothing.
pub open spec fn spec_parse_u64(s: Seq<char>) -> Option<int> {
    let t = strip_plus(s);
    if t.len() > 0 && all_digits(t) && digits_val(t) <= u64::MAX {
        Some(digits_val(t) as int)
    } else {
        None
    }
}

/// The unsigned 32-bit reading of `s`, absent on any failure.
pub open spec fn spec_parse_u32(s: Seq<char>) -> Option<int> {
    let t = strip_plus(s);
    if t.len() > 0 && all_digits(t) && digits_val(t) <= u32::MAX {
        Some(digits_val(t) as int)
    } else {
        None
    }
}

/// Parses an optional field as an unsigned 64-bit integer, absent on
/// failure.
pub fn parse_u64(raw: Option<&str>) -> (r: Option<u64>)
    ensures
        match raw {
            None => r is None,
            Some(s) => match r {
                Some(v) => spec_parse_u64(s@) == Some(v as int),
                None => spec_parse_u64(s@) is None,
            },
        },
{
    let s = match raw {
        Some(s) => s,
        None => {
            return None;
        },
    };
    let len = s.unicode_len();
    let start: usize = if len > 0 && s.get_char(0) == '+' {
        1
    } else {
        0
    };
    proof {
        assert(strip_plus(s@) =~= s@.subrange(start as int, len as int));
    }
    if start == len {
        return None;
    }
    digits_value(s, start, len)
}

/// Parses an optional field as an unsigned 32-bit integer, absent on
/// failure.
pub fn parse_u32(raw: Option<&str>) -> (r: Option<u32>)
    ensures
        match raw {
            None => r is None,
            Some(s) => match r {
                Some(v) => spec_parse_u32(s@) == Some(v as int),
                None => spec_parse_u32(s@) is None,
            },
        },
{
    match parse_u64(raw) {
        Some(v) => {
            if v <= 0xFFFF_FFFF {
                Some(v as u32)
            } else {
                None
            }
        },
        None => None,
    }
}

/// The position of the first occurrence of `c` in `s`, or `-1`.
pub open spec fn find_char(s: Seq<char>, c: char) -> int
    decreases s.len(),
{
    if s.len() == 0 {
        -1
    } else if s[0] == c {
        0
    } else {
        let r = find_char(s.drop_first(), c);
        if r < 0 {
            -1
        } else {
            r + 1
        }
    }
}

/// The first hit of a character search is where the first occurrence is.
proof fn lemma_find_char_hit(s: Seq<char>, c: char, k: int)
    requires
        0 <= k < s.len(),
        s[k] == c,
        forall|j: int| 0 <= j < k ==> s[j] != c,
    ensures
        find_char(s, c) == k,
    decreases k,
{
    if k == 0 {
    } else {
        assert(s[0] != c);
        assert(s.drop_first()[k - 1] == s[k]);
        assert(forall|j: int| 0 <= j < k - 1 ==> #[trigger] s.drop_first()[j] == s[j + 1]);
        lemma_find_char_hit(s.drop_first(), c, k - 1);
    }
}

/// A character that occurs nowhere is not found.
proof fn lemma_find_char_none(s: Seq<char>, c: char)
    requires
        forall|j: int| 0 <= j < s.len() ==> s[j] != c,
    ensures
        find_char(s, c) == -1,
    decreases s.len(),
{
    if s.len() > 0 {
        assert(forall|j: int|
            0 <= j < s.len() - 1 ==> #[trigger] s.drop_first()[j] == s[j + 1]);
        lemma_find_char_none(s.drop_first(), c);
    }
}

/// The position of the first occurrence of `c`, searching left to right.
fn find_char_at(s: &str, c: char) -> (r: Option<usize>)
    ensures
        match r {
            Some(i) => find_char(s@, c) == i as int && i < s@.len() && s@[i as int] == c,
            None => find_char(s@, c) == -1,
        },
{
    let len = s.unicode_len();
    let mut i: usize = 0;
    while i < len
        invariant
            len == s@.len(),
            i <= len,
            forall|j: int| 0 <= j < i ==> s@[j] != c,
        decreases len - i,
    {
        if s.get_char(i) == c {
            proof {
                lemma_find_char_hit(s@, c, i as int);
            }
            return Some(i);
        }
        i += 1;
    }
    proof {
        lemma_find_char_none(s@, c);
    }
    None
}

/// The fractional digits of a duration as nanoseconds: the first nine
/// digits, padded on the right with zeros when fewer are given.
pub open spec fn frac_nanos(fp: Seq<char>) -> nat {
    if fp.len() >= 9 {
        digits_val(fp.take(9))
    } else {
        digits_val(fp) * pow10((9 - fp.len()) as nat)
    }
}

/// The reading of a duration field as total nanoseconds: decimal
/// seconds, digits only, with an optional fractional part ("12",
/// "60.095000", ".5"); whole seconds must fit an unsigned 64-bit count.
pub open spec fn spec_parse_duration_nanos(s: Seq<char>) -> Option<int> {
    let d = find_char(s, '.');
    if d < 0 {
        if s.len() > 0 && all_digits(s) && digits_val(s) <= u64::MAX {
            Some((digits_val(s) * 1_000_000_000) as int)
        } else {
            None
        }
    } else {
        let ip = s.take(d);
        let fp = s.skip(d + 1);
        if (ip.len() > 0 || fp.len() > 0) && all_digits(ip) && all_digits(fp) && digits_val(ip)
            <= u64::MAX {
            Some((digits_val(ip) * 1_000_000_000 + frac_nanos(fp)) as int)
        } else {
            None
        }
    }
}

/// The fractional part of a duration is below one second.
proof fn lemma_frac_nanos_bound(fp: Seq<char>)
    requires
        all_digits(fp),
    ensures
        frac_nanos(fp) < 1_000_000_000,
{
    assert(pow10(9) == 1_000_000_000) by {
        reveal_with_fuel(pow10, 10);
    }
    if fp.len() >= 9 {
        assert(all_digits(fp.take(9))) by {
            assert(forall|i: int| 0 <= i < 9 ==> fp.take(9)[i] == #[trigger] fp[i]);
        }
        lemma_digits_val_bound(fp.take(9));
    } else {
        lemma_digits_val_bound(fp);
        crate::strutil::lemma_pow10_add(fp.len(), (9 - fp.len()) as nat);
        crate::strutil::lemma_pow10_pos((9 - fp.len()) as nat);
        assert(digits_val(fp) * pow10((9 - fp.len()) as nat) < pow10(fp.len()) * pow10(
            (9 - fp.len()) as nat,
        )) by (nonlinear_arith)
            requires
                digits_val(fp) < pow10(fp.len()),
                pow10((9 - fp.len()) as nat) >= 1,
        ;
    }
}

/// Parses an optional duration field as a timestamp, absent on failure.
pub fn parse_duration(raw: Option<&str>) -> (r: Option<Time>)
    ensures
        match raw {
            None => r is None,
            Some(s) => match r {
                Some(t) => spec_parse_duration_nanos(s@) == Some(t@ as int) && t.wf(),
                None => spec_parse_duration_nanos(s@) is None,
            },
        },
{
    let s = match raw {
        Some(s) => s,
        None => {
            return None;
        },
    };
    let len = s.unicode_len();
    match find_char_at(s, '.') {
        None => {
            if len == 0 {
                return None;
            }
            match digits_value(s, 0, len) {
                Some(v) => {
                    proof {
                        assert(s@.subrange(0, len as int) =~= s@);
                    }
                    Some(Time::from_seconds(v))
                },
                None => {
                    proof {
                        assert(s@.subrange(0, len as int) =~= s@);
                    }
                    None
                },
            }
        },
        Some(d) => {
            let ghost ip = s@.take(d as int);
            let ghost fp = s@.skip(d + 1);
            proof {
                assert(ip =~= s@.subrange(0, d as int));
                assert(fp =~= s@.subrange(d + 1, len as int));
            }
            if d == 0 && d + 1 == len {
                return None;
            }
            let secs = match digits_value(s, 0, d) {
                Some(v) => v,
                None => {
                    return None;
                },
            };
            if !all_digits_range(s, d + 1, len) {
                return None;
            }
            let flen = len - (d + 1);
            let nanos: u64 = if flen >= 9 {
                proof {
                    assert(fp.take(9) =~= s@.subrange(d + 1, d + 10));
                    assert(all_digits(fp.take(9))) by {
                        assert(forall|i: int| 0 <= i < 9 ==> fp.take(9)[i] == #[trigger] fp[i]);
                    }
                    lemma_digits_val_bound(fp.take(9));
                    assert(pow10(9) == 1_000_000_000) by {
                        reveal_with_fuel(pow10, 10);
                    }
                }
                match digits_value(s, d + 1, d + 10) {
                    Some(v) => v,
                    None => {
                        proof {
                            assert(false);
                        }
                        0
                    },
                }
            } else {
                let v = match digits_value(s, d + 1, len) {
                    Some(v) => v,
                    None => {
                        proof {
                            lemma_digits_val_bound(fp);
                            crate::strutil::lemma_pow10_le(fp.len(), 19);
                            assert(pow10(19) <= u64::MAX) by {
                                reveal_with_fuel(pow10, 21);
                            }
                            assert(false);
                        }
                        0
                    },
                };
                let scale = crate::strutil::pow10_u64(9 - flen);
                proof {
                    lemma_frac_nanos_bound(fp);
                    assert(v as nat * scale as nat == frac_nanos(fp));
                }
                v * scale
            };
            proof {
                lemma_frac_nanos_bound(fp);
            }
            Some(Time::from_parts(secs, nanos as u32))
        },
    }
}

/// The reading of a frame-rate field as an exact fraction: `"0/0"` and
/// `"0"` verbatim are absent; `"N/D"` with a zero or malformed side is
/// absent; a bare decimal number becomes a fraction over a power of ten.
pub open spec fn spec_parse_ratio(s: Seq<char>) -> Option<(int, int)> {
    if s == "0/0"@ || s == "0"@ {
        None
    } else {
        let k = find_char(s, '/');
        if k >= 0 {
            let ns = s.take(k);
            let ds = s.skip(k + 1);
            if ns.len() > 0 && ds.len() > 0 && all_digits(ns) && all_digits(ds) && digits_val(ns)
                <= u64::MAX && digits_val(ds) <= u64::MAX && digits_val(ds) != 0 {
                Some((digits_val(ns) as int, digits_val(ds) as int))
            } else {
                None
            }
        } else {
            let d = find_char(s, '.');
            if d < 0 {
                if s.len() > 0 && all_digits(s) && digits_val(s) <= u64::MAX {
                    Some((digits_val(s) as int, 1))
                } else {
                    None
                }
            } else {
                let ip = s.take(d);
                let fp = s.skip(d + 1);
                if (ip.len() > 0 || fp.len() > 0) && all_digits(ip) && all_digits(fp) && pow10(
                    fp.len(),
                ) <= u64::MAX && digits_val(ip + fp) <= u64::MAX {
                    Some((digits_val(ip + fp) as int, pow10(fp.len()) as int))
                } else {
                    None
                }
            }
        }
    }
}

/// Parses an optional frame-rate field as an exact fraction, absent on
/// failure, on a zero denominator, and on the verbatim absent markers.
pub fn parse_ratio(raw: Option<&str>) -> (r: Option<crate::types::FrameRate>)
    ensures
        match raw {
            None => r is None,
            Some(s) => match r {
                Some(fr) => spec_parse_ratio(s@) == Some((fr.num as int, fr.den as int))
                    && fr.wf(),
                None => spec_parse_ratio(s@) is None,
            },
        },
{
    let s = match raw {
        Some(s) => s,
        None => {
            return None;
        },
    };
    if crate::strutil::str_eq(s, "0/0") || crate::strutil::str_eq(s, "0") {
        return None;
    }
    let len = s.unicode_len();
    match find_char_at(s, '/') {
        Some(k) => {
            let ghost ns = s@.take(k as int);
            let ghost ds = s@.skip(k + 1);
            proof {
                assert(ns =~= s@.subrange(0, k as int));
                assert(ds =~= s@.subrange(k + 1, len as int));
            }
            if k == 0 || k + 1 == len {
                return None;
            }
            let num = match digits_value(s, 0, k) {
                Some(v) => v,
                None => {
                    return None;
                },
            };
            let den = match digits_value(s, k + 1, len) {
                Some(v) => v,
                None => {
                    return None;
                },
            };
            if den == 0 {
                return None;
            }
            Some(crate::types::FrameRate::new(num, den))
        },
        None => {
            match find_char_at(s, '.') {
                None => {
                    if len == 0 {
                        return None;
                    }
                    proof {
                        assert(s@.subrange(0, len as int) =~= s@);
                    }
                    match digits_value(s, 0, len) {
                        Some(v) => Some(crate::types::FrameRate::new(v, 1)),
                        None => None,
                    }
                },
                Some(d) => {
                    let ghost ip = s@.take(d as int);
                    let ghost fp = s@.skip(d + 1);
                    proof {
                        assert(ip =~= s@.subrange(0, d as int));
                        assert(fp =~= s@.subrange(d + 1, len as int));
                    }
                    if d == 0 && d + 1 == len {
                        return None;
                    }
                    let flen = len - (d + 1);
                    if !all_digits_range(s, d + 1, len) {
                        return None;
                    }
                    if flen > 19 {
                        proof {
                            crate::strutil::lemma_pow10_le(20, fp.len());
                            assert(pow10(20) > u64::MAX) by {
                                reveal_with_fuel(pow10, 21);
                            }
                        }
                        return None;
                    }
                    let den = crate::strutil::pow10_u64(flen);
                    let v_ip = match digits_value(s, 0, d) {
                        Some(v) => v,
                        None => {
                            proof {
                                if all_digits(ip) {
                                    lemma_ip_overflow(ip, fp);
                                }
                            }
                            return None;
                        },
                    };
                    let v_fp = match digits_value(s, d + 1, len) {
                        Some(v) => v,
                        None => {
                            proof {
                                lemma_digits_val_bound(fp);
                                crate::strutil::lemma_pow10_le(fp.len(), 19);
                                assert(pow10(19) <= u64::MAX) by {
                                    reveal_with_fuel(pow10, 21);
                                }
                                assert(false);
                            }
                            return None;
                        },
                    };
                    proof {
                        assert(v_ip as nat * den as nat <= u64::MAX as nat * u64::MAX as nat)
                            by (nonlinear_arith)
                            requires
                                v_ip as nat <= u64::MAX as nat,
                                den as nat <= u64::MAX as nat,
                        ;
                    }
                    let wide: u128 = v_ip as u128 * den as u128 + v_fp as u128;
                    proof {
                        lemma_digits_concat(ip, fp);
                        assert(wide as nat == digits_val(ip + fp));
                    }
                    if wide > 0xFFFF_FFFF_FFFF_FFFF {
                        return None;
                    }
                    Some(crate::types::FrameRate::new(wide as u64, den))
                },
            }
        },
    }
}

/// When the whole-number digits already exceed the 64-bit range, so does
/// the concatenation with the fractional digits.
proof fn lemma_ip_overflow(ip: Seq<char>, fp: Seq<char>)
    requires
        digits_val(ip) > u64::MAX,
    ensures
        digits_val(ip + fp) > u64::MAX,
{
    lemma_digits_concat(ip, fp);
    crate::strutil::lemma_pow10_pos(fp.len());
    assert(digits_val(ip) * pow10(fp.len()) >= digits_val(ip)) by (nonlinear_arith)
        requires
            pow10(fp.len()) >= 1,
    ;
}

/// Container-level fields of the raw report, all optional, numeric
/// fields still text (the external tool emits them as JSON strings).
#[derive(Clone, Debug)]
pub struct RawProbeFormat {
    /// Format short name.
    pub format_name: Option<String>,
    /// Format long name.
    pub format_long_name: Option<String>,
    /// Duration in decimal seconds.
    pub duration: Option<String>,
    /// Overall bit rate in bits per second.
    pub bit_rate: Option<String>,
    /// File size in bytes.
    pub size: Option<String>,
}

/// One stream entry of the raw report: the kind tag, the codec name,
/// and the per-kind fields the typed model reads, all optional.
#[derive(Clone, Debug)]
pub struct RawProbeStream {
    /// The kind tag ("video", "audio", "subtitle", "data").
    pub codec_type: Option<String>,
    /// The codec name as probed.
    pub codec_name: Option<String>,
    /// Width in pixels.
    pub width: Option<u32>,
    /// Height in pixels.
    pub height: Option<u32>,
    /// Bit rate in bits per second, as text.
    pub bit_rate: Option<String>,
    /// Average frame rate, as rational or decimal text.
    pub avg_frame_rate: Option<String>,
    /// Channel count.
    pub channels: Option<u32>,
    /// Sample rate in Hz, as text.
    pub sample_rate: Option<String>,
    /// The "language" entry of the stream's tag mapping.
    pub language: Option<String>,
    /// The "title" entry of the stream's tag mapping.
    pub title: Option<String>,
}

/// The raw report: optional container metadata and the stream entries
/// in reported order.
#[derive(Clone, Debug)]
pub struct RawProbeReport {
    /// Container metadata, if the report carried any.
    pub format: Option<RawProbeFormat>,
    /// The stream entries.
    pub streams: Vec<RawProbeStream>,
}

/// Holds iff `out` is the 64-bit reading of the optional text `raw`.
pub open spec fn u64_field_matches(out: Option<u64>, raw: Option<String>) -> bool {
    match raw {
        None => out is None,
        Some(s) => match (out, spec_parse_u64(s@)) {
            (None, None) => true,
            (Some(a), Some(b)) => a as int == b,
            _ => false,
        },
    }
}

/// Holds iff `out` is the 32-bit reading of the optional text `raw`.
pub open spec fn u32_field_matches(out: Option<u32>, raw: Option<String>) -> bool {
    match raw {
        None => out is None,
        Some(s) => match (out, spec_parse_u32(s@)) {
            (None, None) => true,
            (Some(a), Some(b)) => a as int == b,
            _ => false,
        },
    }
}

/// Holds iff `out` is the duration reading of the optional text `raw`.
pub open spec fn duration_field_matches(out: Option<Time>, raw: Option<String>) -> bool {
    match raw {
        None => out is None,
        Some(s) => match (out, spec_parse_duration_nanos(s@)) {
            (None, None) => true,
            (Some(t), Some(n)) => t@ == n && t.wf(),
            _ => false,
        },
    }
}

/// Holds iff `out` is the frame-rate reading of the optional text `raw`.
pub open spec fn ratio_field_matches(out: Option<crate::types::FrameRate>, raw: Option<String>) -> bool {
    match raw {
        None => out is None,
        Some(s) => match (out, spec_parse_ratio(s@)) {
            (None, None) => true,
            (Some(fr), Some(p)) => fr.num as int == p.0 && fr.den as int == p.1 && fr.wf(),
            _ => false,
        },
    }
}

/// Holds iff `c` is the codec read from an optional probed name: a
/// missing name becomes the open-ended variant carrying "unknown".
pub open spec fn codec_of_raw(c: crate::types::CodecType, name: Option<String>) -> bool {
    match name {
        Some(n) => crate::types::codec_matches(c, crate::types::lower_of(n@)),
        None => c matches crate::types::CodecType::Other(s) && s@ == "unknown"@,
    }
}

/// Holds iff `out` is the typed reading of the container metadata `raw`.
pub open spec fn format_rel(raw: RawProbeFormat, out: crate::types::FormatInfo) -> bool {
    &&& out.format_name == raw.format_name
    &&& out.format_long_name == raw.format_long_name
    &&& duration_field_matches(out.duration, raw.duration)
    &&& u64_field_matches(out.bit_rate, raw.bit_rate)
    &&& u64_field_matches(out.size, raw.size)
}

/// Converts raw container metadata, leniently: each numeric field that
/// fails to parse is simply absent.
pub fn format_info_from_ffprobe(raw: RawProbeFormat) -> (r: crate::types::FormatInfo)
    ensures
        format_rel(raw, r),
{
    let duration = parse_duration(opt_str(&raw.duration));
    let bit_rate = parse_u64(opt_str(&raw.bit_rate));
    let size = parse_u64(opt_str(&raw.size));
    crate::types::FormatInfo::new(raw.format_name, raw.format_long_name, duration, bit_rate, size)
}

/// Holds iff the raw stream's kind tag is one the model retains.
pub open spec fn keeps(raw: RawProbeStream) -> bool {
    raw.codec_type matches Some(t) && (t@ == "video"@ || t@ == "audio"@ || t@ == "subtitle"@
        || t@ == "data"@)
}

/// Holds iff `out` is the typed reading of the raw stream entry `raw`,
/// dispatched on its kind tag.
pub open spec fn stream_rel(raw: RawProbeStream, out: crate::types::StreamInfo) -> bool {
    match out {
        crate::types::StreamInfo::Video(v) => {
            &&& raw.codec_type matches Some(t) && t@ == "video"@
            &&& codec_of_raw(v.codec, raw.codec_name)
            &&& v.width == raw.width
            &&& v.height == raw.height
            &&& u64_field_matches(v.bit_rate, raw.bit_rate)
            &&& ratio_field_matches(v.frame_rate, raw.avg_frame_rate)
        },
        crate::types::StreamInfo::Audio(a) => {
            &&& raw.codec_type matches Some(t) && t@ == "audio"@
            &&& codec_of_raw(a.codec, raw.codec_name)
            &&& a.channels == raw.channels
            &&& u32_field_matches(a.sample_rate, raw.sample_rate)
            &&& u64_field_matches(a.bit_rate, raw.bit_rate)
        },
        crate::types::StreamInfo::Subtitle(sub) => {
            &&& raw.codec_type matches Some(t) && t@ == "subtitle"@
            &&& codec_of_raw(sub.codec, raw.codec_name)
            &&& sub.language == raw.language
        },
        crate::types::StreamInfo::Data(d) => {
            &&& raw.codec_type matches Some(t) && t@ == "data"@
            &&& codec_of_raw(d.codec, raw.codec_name)
            &&& d.description == raw.title
        },
    }
}

/// A borrowed view of an optional owned string.
fn opt_str(o: &Option<String>) -> (r: Option<&str>)
    ensures
        match (r, *o) {
            (Some(a), Some(b)) => a@ == b@,
            (None, None) => true,
            _ => false,
        },
{
    match o {
        Some(s) => Some(s.as_str()),
        None => None,
    }
}

/// A copy of an optional owned string.
fn clone_opt_string(o: &Option<String>) -> (r: Option<String>)
    ensures
        r == *o,
{
    match o {
        Some(s) => Some(s.clone()),
        None => None,
    }
}

/// The codec read from an optional probed name.
fn codec_of_name(name: &Option<String>) -> (c: crate::types::CodecType)
    ensures
        codec_of_raw(c, *name),
{
    match name {
        Some(n) => crate::types::CodecType::from_name(n.as_str()),
        None => {
            let mut s = String::new();
            s.append("unknown");
            crate::types::CodecType::Other(s)
        },
    }
}

/// Converts one raw stream entry, dispatching on its kind tag; entries
/// with an unrecognized or missing tag are dropped.
pub fn stream_info_from_ffprobe(raw: &RawProbeStream) -> (r: Option<crate::types::StreamInfo>)
    ensures
        match r {
            Some(out) => keeps(*raw) && stream_rel(*raw, out),
            None => !keeps(*raw),
        },
{
    let tag = match &raw.codec_type {
        Some(t) => t,
        None => {
            return None;
        },
    };
    if crate::strutil::str_eq(tag.as_str(), "video") {
        Some(
            crate::types::StreamInfo::Video(
                crate::types::VideoStreamInfo {
                    codec: codec_of_name(&raw.codec_name),
                    width: raw.width,
                    height: raw.height,
                    bit_rate: parse_u64(opt_str(&raw.bit_rate)),
                    frame_rate: parse_ratio(opt_str(&raw.avg_frame_rate)),
                },
            ),
        )
    } else if crate::strutil::str_eq(tag.as_str(), "audio") {
        Some(
            crate::types::StreamInfo::Audio(
                crate::types::AudioStreamInfo {
                    codec: codec_of_name(&raw.codec_name),
                    channels: raw.channels,
                    sample_rate: parse_u32(opt_str(&raw.sample_rate)),
                    bit_rate: parse_u64(opt_str(&raw.bit_rate)),
                },
            ),
        )
    } else if crate::strutil::str_eq(tag.as_str(), "subtitle") {
        Some(
            crate::types::StreamInfo::Subtitle(
                crate::types::SubtitleStreamInfo {
                    codec: codec_of_name(&raw.codec_name),
                    language: clone_opt_string(&raw.language),
                },
            ),
        )
    } else if crate::strutil::str_eq(tag.as_str(), "data") {
        Some(
            crate::types::StreamInfo::Data(
                crate::types::DataStreamInfo {
                    codec: codec_of_name(&raw.codec_name),
                    description: clone_opt_string(&raw.title),
                },
            ),
        )
    } else {
        None
    }
}

/// Holds iff `outs` is `raws` converted in order, with the entries
/// whose kind tag is unrecognized dropped.
pub open spec fn filtered_rel(raws: Seq<RawProbeStream>, outs: Seq<crate::types::StreamInfo>) -> bool
    decreases raws.len(),
{
    if raws.len() == 0 {
        outs.len() == 0
    } else if keeps(raws[0]) {
        outs.len() > 0 && stream_rel(raws[0], outs[0]) && filtered_rel(
            raws.drop_first(),
            outs.drop_first(),
        )
    } else {
        filtered_rel(raws.drop_first(), outs)
    }
}

/// Appending a retained entry and its conversion keeps the filtered
/// correspondence.
proof fn lemma_filtered_push_keep(
    raws: Seq<RawProbeStream>,
    outs: Seq<crate::types::StreamInfo>,
    x: RawProbeStream,
    y: crate::types::StreamInfo,
)
    requires
        filtered_rel(raws, outs),
        keeps(x),
        stream_rel(x, y),
    ensures
        filtered_rel(raws.push(x), outs.push(y)),
    decreases raws.len(),
{
    if raws.len() == 0 {
        assert(raws.push(x)[0] == x);
        assert(outs.push(y)[0] == y);
        assert(raws.push(x).drop_first() =~= Seq::<RawProbeStream>::empty());
        assert(outs.push(y).drop_first() =~= Seq::<crate::types::StreamInfo>::empty());
        assert(filtered_rel(
            Seq::<RawProbeStream>::empty(),
            Seq::<crate::types::StreamInfo>::empty(),
        ));
    } else {
        assert(raws.push(x).drop_first() =~= raws.drop_first().push(x));
        assert(raws.push(x)[0] == raws[0]);
        if keeps(raws[0]) {
            assert(outs.push(y).drop_first() =~= outs.drop_first().push(y));
            assert(outs.push(y)[0] == outs[0]);
            lemma_filtered_push_keep(raws.drop_first(), outs.drop_first(), x, y);
        } else {
            lemma_filtered_push_keep(raws.drop_first(), outs, x, y);
        }
    }
}

/// Appending a dropped entry keeps the filtered correspondence.
proof fn lemma_filtered_push_skip(
    raws: Seq<RawProbeStream>,
    outs: Seq<crate::types::StreamInfo>,
    x: RawProbeStream,
)
    requires
        filtered_rel(raws, outs),
        !keeps(x),
    ensures
        filtered_rel(raws.push(x), outs),
    decreases raws.len(),
{
    if raws.len() == 0 {
        assert(raws.push(x)[0] == x);
        assert(raws.push(x).drop_first() =~= Seq::<RawProbeStream>::empty());
        assert(outs =~= Seq::<crate::types::StreamInfo>::empty());
        assert(filtered_rel(Seq::<RawProbeStream>::empty(), outs));
    } else {
        assert(raws.push(x).drop_first() =~= raws.drop_first().push(x));
        assert(raws.push(x)[0] == raws[0]);
        if keeps(raws[0]) {
            lemma_filtered_push_skip(raws.drop_first(), outs.drop_first(), x);
        } else {
            lemma_filtered_push_skip(raws.drop_first(), outs, x);
        }
    }
}

/// Converts the whole raw report into the typed, immutable result:
/// absent container metadata becomes an all-absent record, and streams
/// are converted in order with unrecognized kinds dropped.
pub fn parse_probe_report(raw: RawProbeReport) -> (r: crate::types::ProbeResult)
    ensures
        (match raw.format {
            Some(f) => format_rel(f, r.spec_format()),
            None => {
                &&& r.spec_format().format_name is None
                &&& r.spec_format().format_long_name is None
                &&& r.spec_format().duration is None
                &&& r.spec_format().bit_rate is None
                &&& r.spec_format().size is None
            },
        }),
        filtered_rel(raw.streams@, r.spec_streams()),
{
    let RawProbeReport { format, streams } = raw;
    let info = match format {
        Some(f) => format_info_from_ffprobe(f),
        None => crate::types::FormatInfo::new(None, None, None, None, None),
    };
    let mut out: Vec<crate::types::StreamInfo> = Vec::new();
    let n = streams.len();
    let mut i: usize = 0;
    proof {
        assert(streams@.take(0) =~= Seq::<RawProbeStream>::empty());
    }
    while i < n
        invariant
            n == streams@.len(),
            i <= n,
            filtered_rel(streams@.take(i as int), out@),
        decreases n - i,
    {
        match stream_info_from_ffprobe(&streams[i]) {
            Some(info) => {
                proof {
                    lemma_filtered_push_keep(streams@.take(i as int), out@, streams@[i as int], info);
                    assert(streams@.take(i + 1) =~= streams@.take(i as int).push(streams@[i as int]));
                }
                out.push(info);
            },
            None => {
                proof {
                    lemma_filtered_push_skip(streams@.take(i as int), out@, streams@[i as int]);
                    assert(streams@.take(i + 1) =~= streams@.take(i as int).push(streams@[i as int]));
                }
            },
        }
        i += 1;
    }
    proof {
        assert(streams@.take(n as int) =~= streams@);
    }
    crate::types::ProbeResult::new(info, out)
}

} // verus!
