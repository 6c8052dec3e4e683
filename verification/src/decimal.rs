//! An exact decimal number: a sign, an integer mantissa and a decimal scale.
//!
//! The value represented is `(-1)^negative * mantissa / 10^scale`. Unlike a
//! binary floating type, every decimal string within the supported range is
//! represented exactly, and formatting a value yields the digits it was
//! parsed from, trailing zeros included ("76.490" keeps its scale of 3).

use vstd::prelude::*;
use crate::text::{
    all_digits, digits_val, is_digit, is_digit_char, digit_of, spec_digits_of,
    lemma_digits_of_val, lemma_digits_val_nonneg, lemma_digits_val_prefix_le,
    spec_parse_digits_capped, parse_u64_digits, str_chars, string_from_chars, vec_slice,
};

verus! {

/// One more than the largest mantissa: `2^96`, the range of a 96-bit
/// unsigned mantissa.
pub const MANTISSA_LIMIT: u128 = 79228162514264337593543950336;

/// The largest supported scale (number of fractional digits).
pub const MAX_SCALE: u32 = 28;

/// An exact decimal amount.
#[derive(Clone, Copy, PartialEq, Eq, Structural, Debug)]
pub struct Dec {
    /// True for values below zero; never set when the mantissa is zero.
    pub negative: bool,
    /// The digits of the value, as an integer.
    pub mantissa: u128,
    /// How many of the mantissa's low digits lie behind the decimal point.
    pub scale: u32,
}

impl Dec {
    /// Well-formedness: the mantissa fits in 96 bits, the scale is at most
    /// `MAX_SCALE`, and zero is never negative.
    pub open spec fn valid(self) -> bool {
        &&& self.scale <= MAX_SCALE
        &&& self.mantissa < MANTISSA_LIMIT
        &&& (self.mantissa == 0 ==> !self.negative)
    }

    /// Builds a decimal from its parts, normalizing the sign of zero;
    /// `None` when the parts are out of range.
    pub fn new(negative: bool, mantissa: u128, scale: u32) -> (r: Option<Dec>)
        ensures
            r == if mantissa < MANTISSA_LIMIT && scale <= MAX_SCALE {
                Some(Dec { negative: negative && mantissa != 0, mantissa, scale })
            } else {
                None::<Dec>
            },
            r is Some ==> r->Some_0.valid(),
    {
        if mantissa < MANTISSA_LIMIT && scale <= MAX_SCALE {
            Some(Dec { negative: negative && mantissa != 0, mantissa, scale })
        } else {
            None
        }
    }

    /// Whether the value is zero.
    pub fn is_zero(&self) -> (r: bool)
        ensures
            r == (self.mantissa == 0),
    {
        self.mantissa == 0
    }

    /// Whether the value is below zero.
    pub fn is_sign_negative(&self) -> (r: bool)
        ensures
            r == self.negative,
    {
        self.negative
    }

    /// Whether the value is zero or above.
    pub fn is_sign_positive(&self) -> (r: bool)
        ensures
            r == !self.negative,
    {
        !self.negative
    }

    /// The same magnitude with the opposite sign; zero stays zero.
    pub fn negate(&self) -> (r: Dec)
        requires
            self.valid(),
        ensures
            r.valid(),
            r.mantissa == self.mantissa,
            r.scale == self.scale,
            r.negative == (self.mantissa != 0 && !self.negative),
    {
        Dec {
            negative: self.mantissa != 0 && !self.negative,
            mantissa: self.mantissa,
            scale: self.scale,
        }
    }
}

// ---- formatting

/// `k` zero characters (none when `k` is not positive).
pub open spec fn zero_chars(k: int) -> Seq<char> {
    Seq::new(if k < 0 { 0 } else { k as nat }, |i: int| '0')
}

/// The canonical decimal notation of a value: the mantissa's digits, padded
/// with leading zeros so that at least one digit stands before the decimal
/// point, the point inserted before the last `scale` digits, and a minus
/// sign in front of negative values.
pub open spec fn spec_format_dec(d: Dec) -> Seq<char> {
    let digs = spec_digits_of(d.mantissa as int);
    let padded = if digs.len() <= d.scale {
        zero_chars(d.scale + 1 - digs.len()) + digs
    } else {
        digs
    };
    let body = if d.scale == 0 {
        padded
    } else {
        padded.take(padded.len() - d.scale) + seq!['.'] + padded.skip(
            padded.len() - d.scale,
        )
    };
    if d.negative {
        seq!['-'] + body
    } else {
        body
    }
}

/// The decimal digits of an unsigned number, most significant first.
pub fn u128_digits(n: u128) -> (r: Vec<char>)
    ensures
        r@ == spec_digits_of(n as int),
    decreases n,
{
    if n < 10 {
        let c = (n as u8 + 48) as char;
        let mut v: Vec<char> = Vec::new();
        v.push(c);
        proof {
            assert(v@ =~= spec_digits_of(n as int));
        }
        v
    } else {
        let mut v = u128_digits(n / 10);
        let c = ((n % 10) as u8 + 48) as char;
        v.push(c);
        v
    }
}

/// Renders the value in plain decimal notation.
pub fn format_dec(d: &Dec) -> (r: String)
    requires
        d.valid(),
    ensures
        r@ == spec_format_dec(*d),
{
    let digs = u128_digits(d.mantissa);
    proof {
        lemma_digits_of_val(d.mantissa as int);
    }
    let scale = d.scale as usize;
    let mut padded: Vec<char> = Vec::new();
    if digs.len() <= scale {
        let pad = scale + 1 - digs.len();
        let mut i: usize = 0;
        while i < pad
            invariant
                0 <= i <= pad,
                padded@ == zero_chars(pad as int).take(i as int),
            decreases pad - i,
        {
            padded.push('0');
            proof {
                assert(padded@ =~= zero_chars(pad as int).take(i + 1));
            }
            i = i + 1;
        }
        proof {
            assert(padded@ =~= zero_chars(pad as int));
        }
        let mut j: usize = 0;
        while j < digs.len()
            invariant
                0 <= j <= digs@.len(),
                padded@ == zero_chars(pad as int) + digs@.take(j as int),
            decreases digs@.len() - j,
        {
            padded.push(digs[j]);
            proof {
                assert(padded@ =~= zero_chars(pad as int) + digs@.take(j + 1));
            }
            j = j + 1;
        }
        proof {
            assert(digs@.take(digs@.len() as int) == digs@);
        }
    } else {
        let mut j: usize = 0;
        while j < digs.len()
            invariant
                0 <= j <= digs@.len(),
                padded@ == digs@.take(j as int),
            decreases digs@.len() - j,
        {
            padded.push(digs[j]);
            proof {
                assert(padded@ =~= digs@.take(j + 1));
            }
            j = j + 1;
        }
        proof {
            assert(digs@.take(digs@.len() as int) == digs@);
        }
    }
    let ghost padded_spec = if spec_digits_of(d.mantissa as int).len() <= d.scale {
        zero_chars(d.scale + 1 - spec_digits_of(d.mantissa as int).len()) + spec_digits_of(
            d.mantissa as int,
        )
    } else {
        spec_digits_of(d.mantissa as int)
    };
    proof {
        assert(padded@ == padded_spec);
        assert(padded@.len() >= scale + 1);
    }
    let cut = padded.len() - scale;
    let mut out: Vec<char> = Vec::new();
    if d.negative {
        out.push('-');
    }
    let ghost sign_part: Seq<char> = if d.negative { seq!['-'] } else { Seq::empty() };
    proof {
        assert(out@ =~= sign_part);
    }
    let mut i: usize = 0;
    while i < cut
        invariant
            0 <= i <= cut <= padded@.len(),
            out@ == sign_part + padded@.take(i as int),
        decreases cut - i,
    {
        out.push(padded[i]);
        proof {
            assert(out@ =~= sign_part + padded@.take(i + 1));
        }
        i = i + 1;
    }
    if scale > 0 {
        out.push('.');
        let mut j: usize = cut;
        while j < padded.len()
            invariant
                cut <= j <= padded@.len(),
                cut == padded@.len() - scale,
                out@ == sign_part + padded@.take(cut as int) + seq!['.'] + padded@.subrange(
                    cut as int,
                    j as int,
                ),
            decreases padded@.len() - j,
        {
            out.push(padded[j]);
            proof {
                assert(out@ =~= sign_part + padded@.take(cut as int) + seq!['.']
                    + padded@.subrange(cut as int, j + 1));
            }
            j = j + 1;
        }
        proof {
            assert(padded@.subrange(cut as int, padded@.len() as int) =~= padded@.skip(
                cut as int,
            ));
            assert(out@ =~= spec_format_dec(*d));
        }
    } else {
        proof {
            assert(padded@.take(cut as int) == padded@);
            assert(out@ =~= spec_format_dec(*d));
        }
    }
    string_from_chars(out.as_slice())
}

// ---- parsing

/// The position of the first exponent marker (`e` or `E`), or the length.
pub open spec fn find_exp(s: Seq<char>) -> int
    decreases s.len(),
{
    if s.len() == 0 {
        0
    } else if s[0] == 'e' || s[0] == 'E' {
        0
    } else {
        1 + find_exp(s.drop_first())
    }
}

/// The position of the first decimal point, or the length.
pub open spec fn find_dot(s: Seq<char>) -> int
    decreases s.len(),
{
    if s.len() == 0 {
        0
    } else if s[0] == '.' {
        0
    } else {
        1 + find_dot(s.drop_first())
    }
}

pub proof fn lemma_find_exp_at(s: Seq<char>, p: int)
    requires
        0 <= p <= s.len(),
        forall|k: int| 0 <= k < p ==> !(s[k] == 'e' || s[k] == 'E'),
        p < s.len() ==> (s[p] == 'e' || s[p] == 'E'),
    ensures
        find_exp(s) == p,
    decreases p,
{
    if s.len() == 0 {
    } else if p == 0 {
    } else {
        lemma_find_exp_at(s.drop_first(), p - 1);
    }
}

pub proof fn lemma_find_dot_at(s: Seq<char>, p: int)
    requires
        0 <= p <= s.len(),
        forall|k: int| 0 <= k < p ==> s[k] != '.',
        p < s.len() ==> s[p] == '.',
    ensures
        find_dot(s) == p,
    decreases p,
{
    if s.len() == 0 {
    } else if p == 0 {
    } else {
        lemma_find_dot_at(s.drop_first(), p - 1);
    }
}

/// Powers of ten.
pub open spec fn pow10(k: int) -> int
    decreases k,
{
    if k <= 0 {
        1
    } else {
        10 * pow10(k - 1)
    }
}

/// An exponent part: an optional sign and digits, worth at most 9999.
pub open spec fn spec_parse_exp(t: Seq<char>) -> Option<int> {
    if t.len() == 0 {
        None
    } else {
        let eneg = t[0] == '-';
        let ed = if t[0] == '-' || t[0] == '+' {
            t.drop_first()
        } else {
            t
        };
        match spec_parse_digits_capped(ed, 9999) {
            Some(v) => Some(if eneg { -v } else { v }),
            None => None,
        }
    }
}

/// Builds the parsed decimal, normalizing the sign of zero.
pub open spec fn dec_of(neg: bool, m: int, sc: int) -> Dec {
    Dec { negative: neg && m != 0, mantissa: m as u128, scale: sc as u32 }
}

/// The checks shared by every decimal numeral: the split digit parts, a
/// flag for a present decimal point, and the parsed exponent, reduced to a
/// value. `None` when a part is not all digits, no digit is present, a
/// present point has no fraction digits, the exponent is malformed, or the
/// mantissa or scale leaves its range.
pub open spec fn spec_dec_from_parts(
    neg: bool,
    intd: Seq<char>,
    frac: Seq<char>,
    has_dot: bool,
    eres: Option<int>,
) -> Option<Dec> {
    if !(all_digits(intd) && all_digits(frac)) {
        None
    } else if intd.len() == 0 && frac.len() == 0 {
        None
    } else if has_dot && frac.len() == 0 {
        None
    } else if eres is None {
        None
    } else {
        let e = eres->Some_0;
        let m0 = digits_val(intd + frac);
        if m0 >= MANTISSA_LIMIT as int {
            None
        } else {
            let sc = frac.len() - e;
            if sc > MAX_SCALE as int {
                None
            } else if sc >= 0 {
                Some(dec_of(neg, m0, sc))
            } else {
                let m1 = m0 * pow10(0 - sc);
                if m1 < MANTISSA_LIMIT as int {
                    Some(dec_of(neg, m1, 0))
                } else {
                    None
                }
            }
        }
    }
}

/// The decimal value denoted by a string, or `None` when the string is not
/// a decimal numeral or is out of range. The accepted notation is an
/// optional sign, digits with at most one decimal point (at least one digit
/// in all, and none of the point's fraction digits missing), and an optional
/// exponent part; the resulting scale must lie in `0 ..= MAX_SCALE` after
/// the exponent is applied, and the mantissa below `MANTISSA_LIMIT`.
pub open spec fn spec_parse_dec(s: Seq<char>) -> Option<Dec> {
    if s.len() == 0 {
        None
    } else {
        let neg = s[0] == '-';
        let rest = if s[0] == '-' || s[0] == '+' {
            s.drop_first()
        } else {
            s
        };
        let ep = find_exp(rest);
        let mant = rest.take(ep);
        let eres = if ep == rest.len() {
            Some(0int)
        } else {
            spec_parse_exp(rest.skip(ep + 1))
        };
        let dp = find_dot(mant);
        let intd = mant.take(dp);
        let frac = if dp < mant.len() {
            mant.skip(dp + 1)
        } else {
            Seq::<char>::empty()
        };
        spec_dec_from_parts(neg, intd, frac, dp < mant.len(), eres)
    }
}

proof fn lemma_parts_exp_none(neg: bool, intd: Seq<char>, frac: Seq<char>, hd: bool)
    ensures
        spec_dec_from_parts(neg, intd, frac, hd, None::<int>) is None,
{
}


proof fn lemma_pow10_pos(j: int)
    ensures
        pow10(j) >= 1,
    decreases j,
{
    if j <= 0 {
    } else {
        lemma_pow10_pos(j - 1);
    }
}

proof fn lemma_pow10_ge_ten(j: int)
    requires
        j >= 1,
    ensures
        pow10(j) >= 10,
    decreases j,
{
    if j == 1 {
        assert(pow10(0) == 1);
        assert(pow10(1) == 10 * pow10(0));
    } else {
        lemma_pow10_ge_ten(j - 1);
        assert(pow10(j) == 10 * pow10(j - 1));
    }
}

/// Scans a digit run, returning its value when every character is a digit
/// and the value stays below `MANTISSA_LIMIT`.
fn scan_mantissa_digits(s: &Vec<char>) -> (r: Option<u128>)
    ensures
        r == if all_digits(s@) && digits_val(s@) < MANTISSA_LIMIT as int {
            Some(digits_val(s@) as u128)
        } else {
            None::<u128>
        },
{
    let mut acc: u128 = 0;
    let mut i: usize = 0;
    let cap: u128 = MANTISSA_LIMIT - 1;
    while i < s.len()
        invariant
            0 <= i <= s@.len(),
            all_digits(s@.take(i as int)),
            acc as int == digits_val(s@.take(i as int)),
            acc < MANTISSA_LIMIT,
            cap == MANTISSA_LIMIT - 1,
        decreases s@.len() - i,
    {
        let c = s[i];
        if !is_digit(c) {
            assert(!all_digits(s@));
            return None;
        }
        let d: u128 = (c as u32 - 48) as u128;
        proof {
            assert(s@.take(i + 1).drop_last() =~= s@.take(i as int));
            assert(d as int == digit_of(s@[i as int]));
        }
        if acc > (cap - d) / 10 {
            proof {
                assert(digits_val(s@.take(i + 1)) == acc as int * 10 + d);
                assert(digits_val(s@.take(i + 1)) > cap as int);
                if all_digits(s@) {
                    lemma_digits_val_prefix_le(s@, i + 1);
                }
            }
            return None;
        }
        acc = acc * 10 + d;
        i = i + 1;
    }
    proof {
        assert(s@.take(s@.len() as int) == s@);
    }
    Some(acc)
}

/// Multiplies a mantissa by a power of ten; `None` when the result would
/// leave the 96-bit range.
fn scale_up(m0: u128, k: u64) -> (r: Option<u128>)
    requires
        m0 < MANTISSA_LIMIT,
    ensures
        r == (if m0 as int * pow10(k as int) < MANTISSA_LIMIT as int {
            Some((m0 as int * pow10(k as int)) as u128)
        } else {
            None::<u128>
        }),
        r is Some ==> r->Some_0 < MANTISSA_LIMIT,
{
    let mut m: u128 = m0;
    let mut i: u64 = 0;
    let cap: u128 = MANTISSA_LIMIT - 1;
    proof {
        assert(pow10(0) == 1);
    }
    while i < k
        invariant
            0 <= i <= k,
            m as int == m0 as int * pow10(i as int),
            m < MANTISSA_LIMIT,
            cap == MANTISSA_LIMIT - 1,
        decreases k - i,
    {
        if m > cap / 10 {
            proof {
                let j = k - i;
                lemma_pow10_ge_ten(j as int);
                lemma_pow10_split(i as int, j as int);
                assert(m0 as int * pow10(k as int) == m as int * pow10(j as int))
                    by (nonlinear_arith)
                    requires
                        m as int == m0 as int * pow10(i as int),
                        pow10(k as int) == pow10(i as int) * pow10(j as int),
                        j == k - i,
                {}
                assert(m as int * pow10(j as int) >= m as int * 10) by (nonlinear_arith)
                    requires
                        pow10(j as int) >= 10,
                        m as int >= 0,
                {}
                assert(m as int * 10 >= MANTISSA_LIMIT);
                assert(m0 as int * pow10(k as int) >= MANTISSA_LIMIT);
            }
            return None;
        }
        proof {
            assert(pow10(i + 1) == 10 * pow10(i as int));
            assert(m0 as int * pow10(i + 1) == (m0 as int * pow10(i as int)) * 10)
                by (nonlinear_arith)
                requires
                    pow10(i + 1) == 10 * pow10(i as int),
            {}
        }
        m = m * 10;
        i = i + 1;
    }
    Some(m)
}

/// Assembles a decimal from its checked notation parts.
#[verifier::rlimit(60)]
fn dec_from_parts(neg: bool, intd: Vec<char>, frac: Vec<char>, has_dot: bool, exp_val: i64) -> (r:
    Option<Dec>)
    requires
        -9999 <= exp_val <= 9999,
    ensures
        r == spec_dec_from_parts(neg, intd@, frac@, has_dot, Some(exp_val as int)),
        r is Some ==> r->Some_0.valid(),
{
    let ghost intd_g = intd@;
    let ghost frac_g = frac@;
    if intd.len() == 0 && frac.len() == 0 {
        return None;
    }
    if has_dot && frac.len() == 0 {
        return None;
    }
    let flen = frac.len();
    if flen > 10050 {
        proof {
            assert(frac_g.len() - exp_val > MAX_SCALE as int);
        }
        return None;
    }
    let mut digits = intd;
    let mut fcopy = frac;
    digits.append(&mut fcopy);
    proof {
        assert(digits@ =~= intd_g + frac_g);
    }
    let m0 = match scan_mantissa_digits(&digits) {
        None => {
            proof {
                if all_digits(intd_g) && all_digits(frac_g) {
                    assert(all_digits(intd_g + frac_g));
                }
            }
            return None;
        },
        Some(v) => v,
    };
    proof {
        assert(all_digits(intd_g)) by {
            assert(forall|k: int|
                0 <= k < intd_g.len() ==> intd_g[k] == (intd_g + frac_g)[k]);
        }
        assert(all_digits(frac_g)) by {
            assert(forall|k: int|
                0 <= k < frac_g.len() ==> frac_g[k] == (intd_g + frac_g)[k + intd_g.len()]);
        }
        lemma_digits_val_nonneg(digits@);
        assert(m0 as int == digits_val(intd_g + frac_g));
        assert(m0 < MANTISSA_LIMIT);
    }
    let sc: i64 = flen as i64 - exp_val;
    if sc > MAX_SCALE as i64 {
        return None;
    }
    if sc >= 0 {
        proof {
            assert(spec_dec_from_parts(neg, intd_g, frac_g, has_dot, Some(exp_val as int))
                == Some(dec_of(neg, m0 as int, sc as int)));
        }
        return Some(Dec { negative: neg && m0 != 0, mantissa: m0, scale: sc as u32 });
    }
    let k: u64 = (0 - sc) as u64;
    match scale_up(m0, k) {
        None => {
            proof {
                assert(spec_dec_from_parts(neg, intd_g, frac_g, has_dot, Some(exp_val as int))
                    is None);
            }
            None
        },
        Some(m) => {
            proof {
                lemma_pow10_pos(k as int);
                assert(m0 as int * pow10(k as int) >= 0) by (nonlinear_arith)
                    requires
                        m0 as int >= 0,
                        pow10(k as int) >= 1,
                {}
                assert(m as int == m0 as int * pow10(k as int));
                assert(spec_dec_from_parts(neg, intd_g, frac_g, has_dot, Some(exp_val as int))
                    == Some(dec_of(neg, m as int, 0)));
            }
            Some(Dec { negative: neg && m != 0, mantissa: m, scale: 0 })
        },
    }
}

/// Parses a string as an exact decimal.
#[verifier::rlimit(60)]
pub fn parse_dec(s: &str) -> (r: Option<Dec>)
    ensures
        r == spec_parse_dec(s@),
        r is Some ==> r->Some_0.valid(),
{
    let cs = str_chars(s);
    if cs.len() == 0 {
        return None;
    }
    let neg = cs[0] == '-';
    let start: usize = if cs[0] == '-' || cs[0] == '+' {
        1
    } else {
        0
    };
    let rest = vec_slice(&cs, start, cs.len());
    let ghost rest_g = if s@[0] == '-' || s@[0] == '+' {
        s@.drop_first()
    } else {
        s@
    };
    proof {
        assert(rest@ =~= rest_g);
    }
    // find the exponent marker
    let mut ep: usize = 0;
    while ep < rest.len() && !(rest[ep] == 'e' || rest[ep] == 'E')
        invariant
            0 <= ep <= rest@.len(),
            forall|k: int| 0 <= k < ep ==> !(rest@[k] == 'e' || rest@[k] == 'E'),
        decreases rest@.len() - ep,
    {
        ep = ep + 1;
    }
    proof {
        lemma_find_exp_at(rest@, ep as int);
    }
    let mant = vec_slice(&rest, 0, ep);
    proof {
        assert(mant@ =~= rest_g.take(ep as int));
    }
    let ghost dp_g = find_dot(mant@);
    let ghost intd_gs = mant@.take(dp_g);
    let ghost frac_gs = if dp_g < mant@.len() {
        mant@.skip(dp_g + 1)
    } else {
        Seq::<char>::empty()
    };
    // exponent value
    let exp_val: i64;
    if ep == rest.len() {
        exp_val = 0;
    } else {
        let et = vec_slice(&rest, ep + 1, rest.len());
        proof {
            assert(et@ =~= rest_g.skip(ep + 1));
        }
        if et.len() == 0 {
            proof {
                lemma_parts_exp_none(neg, intd_gs, frac_gs, dp_g < mant@.len());
            }
            return None;
        }
        let eneg = et[0] == '-';
        let estart: usize = if et[0] == '-' || et[0] == '+' {
            1
        } else {
            0
        };
        let ed = vec_slice(&et, estart, et.len());
        proof {
            assert(ed@ =~= if et@[0] == '-' || et@[0] == '+' {
                et@.drop_first()
            } else {
                et@
            });
        }
        match parse_u64_digits(ed.as_slice()) {
            None => {
                proof {
                    if ed@.len() > 0 && all_digits(ed@) {
                        lemma_digits_val_nonneg(ed@);
                    }
                    assert(spec_parse_exp(rest_g.skip(ep + 1)) is None);
                    lemma_parts_exp_none(neg, intd_gs, frac_gs, dp_g < mant@.len());
                }
                return None;
            },
            Some(v) => {
                proof {
                    assert(all_digits(ed@));
                    lemma_digits_val_nonneg(ed@);
                    assert(digits_val(ed@) == v as int);
                }
                if v > 9999 {
                    proof {
                        assert(spec_parse_digits_capped(ed@, 9999) is None);
                        assert(spec_parse_exp(rest_g.skip(ep + 1)) is None);
                        lemma_parts_exp_none(neg, intd_gs, frac_gs, dp_g < mant@.len());
                    }
                    return None;
                }
                exp_val = if eneg {
                    -(v as i64)
                } else {
                    v as i64
                };
                proof {
                    assert(spec_parse_exp(rest_g.skip(ep + 1)) == Some(exp_val as int));
                }
            },
        }
    }
    // split the mantissa part at the decimal point
    let mut dp: usize = 0;
    while dp < mant.len() && mant[dp] != '.'
        invariant
            0 <= dp <= mant@.len(),
            forall|k: int| 0 <= k < dp ==> mant@[k] != '.',
        decreases mant@.len() - dp,
    {
        dp = dp + 1;
    }
    proof {
        lemma_find_dot_at(mant@, dp as int);
        assert(dp as int == dp_g);
    }
    let has_dot = dp < mant.len();
    let intd = vec_slice(&mant, 0, dp);
    let frac = if has_dot {
        vec_slice(&mant, dp + 1, mant.len())
    } else {
        Vec::new()
    };
    proof {
        assert(intd@ =~= intd_gs);
        if dp_g < mant@.len() {
            assert(frac@ =~= frac_gs);
        } else {
            assert(frac@ =~= frac_gs);
        }
    }
    let r = dec_from_parts(neg, intd, frac, has_dot, exp_val);
    proof {
        assert(spec_parse_dec(s@) == spec_dec_from_parts(
            neg,
            intd_gs,
            frac_gs,
            dp_g < mant@.len(),
            Some(exp_val as int),
        ));
    }
    r
}


proof fn lemma_zero_chars_digits(k: int)
    ensures
        all_digits(zero_chars(k)),
        digits_val(zero_chars(k)) == 0,
    decreases k,
{
    if k <= 0 {
        assert(zero_chars(k) =~= Seq::<char>::empty());
    } else {
        lemma_zero_chars_digits(k - 1);
        let z = zero_chars(k);
        assert(z.drop_last() =~= zero_chars(k - 1));
        assert(z.last() == '0');
    }
}

proof fn lemma_digits_val_zeros_prefix(k: int, t: Seq<char>)
    ensures
        digits_val(zero_chars(k) + t) == digits_val(t),
    decreases t.len(),
{
    if t.len() == 0 {
        assert(zero_chars(k) + t =~= zero_chars(k));
        lemma_zero_chars_digits(k);
    } else {
        lemma_digits_val_zeros_prefix(k, t.drop_last());
        let u = zero_chars(k) + t;
        assert(u.drop_last() =~= zero_chars(k) + t.drop_last());
        assert(u.last() == t.last());
    }
}

/// No information is lost between a decimal value and its notation: parsing
/// what `spec_format_dec` renders yields the value itself, digits, scale and
/// sign included.
pub proof fn lemma_dec_roundtrip(d: Dec)
    requires
        d.valid(),
    ensures
        spec_parse_dec(spec_format_dec(d)) == Some(d),
{
    let digs = spec_digits_of(d.mantissa as int);
    lemma_digits_of_val(d.mantissa as int);
    let padded = if digs.len() <= d.scale {
        zero_chars(d.scale + 1 - digs.len()) + digs
    } else {
        digs
    };
    if digs.len() <= d.scale {
        lemma_digits_val_zeros_prefix(d.scale + 1 - digs.len(), digs);
        assert(all_digits(padded)) by {
            assert(forall|k: int|
                0 <= k < padded.len() ==> is_digit_char(#[trigger] padded[k])) by {
                assert forall|k: int|
                    0 <= k < padded.len() implies is_digit_char(#[trigger] padded[k]) by {
                    if k < d.scale + 1 - digs.len() {
                        assert(padded[k] == '0');
                    } else {
                        assert(padded[k] == digs[k - (d.scale + 1 - digs.len())]);
                    }
                }
            }
        }
    }
    assert(all_digits(padded));
    assert(digits_val(padded) == d.mantissa as int);
    assert(padded.len() >= d.scale + 1);
    let pl = padded.len() as int;
    let body = if d.scale == 0 {
        padded
    } else {
        padded.take(pl - d.scale) + seq!['.'] + padded.skip(pl - d.scale)
    };
    assert(forall|k: int| 0 <= k < body.len() ==> (is_digit_char(#[trigger] body[k]) || body[k]
        == '.')) by {
        assert forall|k: int|
            0 <= k < body.len() implies (is_digit_char(#[trigger] body[k]) || body[k] == '.') by {
            if d.scale == 0 {
            } else {
                if k < pl - d.scale {
                    assert(body[k] == padded[k]);
                } else if k == pl - d.scale {
                    assert(body[k] == '.');
                } else {
                    assert(body[k] == padded[k - 1]);
                }
            }
        }
    }
    let s = spec_format_dec(d);
    assert(s == if d.negative { seq!['-'] + body } else { body });
    assert(body.len() > 0);
    assert(body[0] == padded[0]);
    assert(is_digit_char(body[0]));
    let rest = if s[0] == '-' || s[0] == '+' {
        s.drop_first()
    } else {
        s
    };
    if d.negative {
        assert(s[0] == '-');
        assert(rest =~= body);
    } else {
        assert(s[0] == body[0]);
        assert(rest =~= body);
    }
    assert(s.len() > 0);
    let neg = s[0] == '-';
    assert(neg == d.negative);
    lemma_find_exp_at(rest, rest.len() as int);
    let ep = find_exp(rest);
    assert(ep == rest.len());
    let mant = rest.take(ep);
    assert(mant =~= body);
    if d.scale == 0 {
        lemma_find_dot_at(mant, mant.len() as int);
        let dp = find_dot(mant);
        assert(dp == mant.len());
        let intd = mant.take(dp);
        assert(intd =~= padded);
        let frac = Seq::<char>::empty();
        assert(intd + frac =~= padded);
        assert(spec_dec_from_parts(neg, intd, frac, false, Some(0int)) == Some(
            dec_of(neg, d.mantissa as int, 0),
        ));
        assert(dec_of(neg, d.mantissa as int, 0) == d);
        assert(spec_parse_dec(s) == Some(d));
    } else {
        let cutpos = pl - d.scale;
        assert(forall|k: int| 0 <= k < cutpos ==> #[trigger] mant[k] == padded[k]);
        assert(forall|k: int| 0 <= k < cutpos ==> #[trigger] mant[k] != '.');
        assert(mant[cutpos] == '.');
        lemma_find_dot_at(mant, cutpos);
        let dp = find_dot(mant);
        assert(dp == cutpos);
        assert(dp < mant.len());
        let intd = mant.take(dp);
        let frac = mant.skip(dp + 1);
        assert(intd =~= padded.take(cutpos));
        assert(frac =~= padded.skip(cutpos));
        assert(intd + frac =~= padded);
        assert(all_digits(intd)) by {
            assert(forall|k: int| 0 <= k < intd.len() ==> #[trigger] intd[k] == padded[k]);
        }
        assert(all_digits(frac)) by {
            assert(forall|k: int| 0 <= k < frac.len() ==> #[trigger] frac[k] == padded[
                k + cutpos
            ]);
        }
        assert(frac.len() == d.scale);
        assert(spec_dec_from_parts(neg, intd, frac, true, Some(0int)) == Some(
            dec_of(neg, d.mantissa as int, d.scale as int),
        ));
        assert(dec_of(neg, d.mantissa as int, d.scale as int) == d);
        assert(spec_parse_dec(s) == Some(d));
    }
}

proof fn lemma_pow10_split(a: int, b: int)
    requires
        a >= 0,
        b >= 0,
    ensures
        pow10(a + b) == pow10(a) * pow10(b),
    decreases a,
{
    if a == 0 {
    } else {
        lemma_pow10_split(a - 1, b);
        assert(pow10(a + b) == 10 * pow10(a - 1 + b));
        assert(10 * (pow10(a - 1) * pow10(b)) == (10 * pow10(a - 1)) * pow10(b))
            by (nonlinear_arith);
    }
}

} // verus!
