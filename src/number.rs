use vstd::prelude::*;

verus! {

/// Ten to the power `n`.
pub open spec fn pow10(n: nat) -> int
    decreases n,
{
    if n == 0 {
        1
    } else {
        10 * pow10((n - 1) as nat)
    }
}

pub proof fn lemma_pow10_monotone(a: nat, b: nat)
    requires
        a <= b,
    ensures
        1 <= pow10(a) <= pow10(b),
    decreases b,
{
    if b > 0 {
        if a < b {
            lemma_pow10_monotone(a, (b - 1) as nat);
        } else {
            lemma_pow10_monotone((a - 1) as nat, (b - 1) as nat);
        }
    }
}

/// The largest number of decimal places a `Number` carries.
pub const MAX_SCALE: u32 = 18;

pub open spec fn in_i64(x: int) -> bool {
    i64::MIN <= x <= i64::MAX
}

/// An exact decimal number, worth `mantissa / 10^scale`.
#[derive(Clone, Copy, Debug, PartialEq, Eq, Structural)]
pub struct Number {
    pub mantissa: i64,
    pub scale: u32,
}

/// `m`, written with `scale` decimal places instead of `from`.
pub open spec fn rescaled(m: int, from: nat, to: nat) -> int {
    m * pow10((to - from) as nat)
}

pub open spec fn max_nat(a: nat, b: nat) -> nat {
    if a >= b {
        a
    } else {
        b
    }
}

impl Number {
    pub open spec fn wf(self) -> bool {
        self.scale <= MAX_SCALE
    }

    /// The common scale of a sum.
    pub open spec fn sum_scale(self, o: Number) -> nat {
        max_nat(self.scale as nat, o.scale as nat)
    }

    pub open spec fn left_term(self, o: Number) -> int {
        rescaled(self.mantissa as int, self.scale as nat, self.sum_scale(o))
    }

    pub open spec fn right_term(self, o: Number) -> int {
        rescaled(o.mantissa as int, o.scale as nat, self.sum_scale(o))
    }

    /// Whether the exact sum of two numbers can be held at their common scale.
    pub open spec fn sum_fits(self, o: Number) -> bool {
        in_i64(self.left_term(o)) && in_i64(self.right_term(o)) && in_i64(
            self.left_term(o) + self.right_term(o),
        )
    }

    /// A whole number.
    pub fn from_int(n: i64) -> (r: Number)
        ensures
            r.mantissa == n,
            r.scale == 0,
    {
        Number { mantissa: n, scale: 0 }
    }

    /// Zero, the value of a number that could not be read.
    pub fn zero() -> (r: Number)
        ensures
            r.mantissa == 0,
            r.scale == 0,
    {
        Number { mantissa: 0, scale: 0 }
    }

    /// The exact sum, at the larger of the two scales; `None` where it does not fit.
    pub fn checked_add(&self, o: &Number) -> (r: Option<Number>)
        requires
            self.wf(),
            o.wf(),
        ensures
            r is Some <==> self.sum_fits(*o),
            r matches Some(n) ==> n.wf() && n.scale == self.sum_scale(*o) && n.mantissa
                == self.left_term(*o) + self.right_term(*o),
    {
        let s = if self.scale >= o.scale {
            self.scale
        } else {
            o.scale
        };
        let a = match self.mantissa.checked_mul(pow10_i64(s - self.scale)) {
            Some(v) => v,
            None => return None,
        };
        let b = match o.mantissa.checked_mul(pow10_i64(s - o.scale)) {
            Some(v) => v,
            None => return None,
        };
        match a.checked_add(b) {
            Some(m) => Some(Number { mantissa: m, scale: s }),
            None => None,
        }
    }
}

/// `10^n` as a machine integer.
pub fn pow10_i64(n: u32) -> (r: i64)
    requires
        n <= MAX_SCALE,
    ensures
        r == pow10(n as nat),
{
    proof {
        reveal_with_fuel(pow10, 19);
        lemma_pow10_monotone(n as nat, 18);
    }
    let mut r: i64 = 1;
    let mut i: u32 = 0;
    while i < n
        invariant
            i <= n <= MAX_SCALE,
            r == pow10(i as nat),
            pow10(n as nat) <= pow10(18),
            pow10(18) == 1_000_000_000_000_000_000,
        decreases n - i,
    {
        proof {
            lemma_pow10_monotone((i + 1) as nat, n as nat);
        }
        r = r * 10;
        i = i + 1;
    }
    r
}


pub open spec fn is_digit(c: char) -> bool {
    '0' <= c && c <= '9'
}

pub open spec fn digit_value(c: char) -> int {
    c as int - '0' as int
}

pub open spec fn all_digits(s: Seq<char>) -> bool {
    forall|i: int| 0 <= i < s.len() ==> is_digit(#[trigger] s[i])
}

/// The value of a run of decimal digits, most significant first.
pub open spec fn digits_value(s: Seq<char>) -> int
    decreases s.len(),
{
    if s.len() == 0 {
        0
    } else {
        10 * digits_value(s.drop_last()) + digit_value(s.last())
    }
}

/// Length of the sign that may open a numeral.
pub open spec fn sign_len(s: Seq<char>) -> int {
    if s.len() > 0 && (s[0] == '-' || s[0] == '+') {
        1
    } else {
        0
    }
}

pub open spec fn is_negative(s: Seq<char>) -> bool {
    s.len() > 0 && s[0] == '-'
}

/// A numeral without its sign.
pub open spec fn unsigned_part(s: Seq<char>) -> Seq<char> {
    s.subrange(sign_len(s), s.len() as int)
}

/// Position of the first `.`, or the length where there is none.
pub open spec fn dot_index(s: Seq<char>) -> int
    decreases s.len(),
{
    if s.len() == 0 {
        0
    } else if s[0] == '.' {
        0
    } else {
        1 + dot_index(s.drop_first())
    }
}

/// The digits before the decimal point.
pub open spec fn whole_digits(s: Seq<char>) -> Seq<char> {
    unsigned_part(s).subrange(0, dot_index(unsigned_part(s)))
}

/// The digits after the decimal point.
pub open spec fn fraction_digits(s: Seq<char>) -> Seq<char> {
    let b = unsigned_part(s);
    let d = dot_index(b);
    if d < b.len() {
        b.subrange(d + 1, b.len() as int)
    } else {
        Seq::empty()
    }
}

/// Text of the form `[+|-] digits [. digits]`, with at least one digit.
pub open spec fn is_numeral(s: Seq<char>) -> bool {
    all_digits(whole_digits(s)) && all_digits(fraction_digits(s)) && whole_digits(s).len()
        + fraction_digits(s).len() >= 1
}

/// The mantissa a numeral denotes, at scale `numeral_scale(s)`.
pub open spec fn numeral_mantissa(s: Seq<char>) -> int {
    let m = digits_value(whole_digits(s) + fraction_digits(s));
    if is_negative(s) {
        -m
    } else {
        m
    }
}

pub open spec fn numeral_scale(s: Seq<char>) -> nat {
    fraction_digits(s).len()
}

/// Whether `s` reads as a `Number`.
pub open spec fn reads_as_number(s: Seq<char>) -> bool {
    is_numeral(s) && numeral_scale(s) <= MAX_SCALE && in_i64(numeral_mantissa(s))
}

proof fn lemma_dot_index(s: Seq<char>, j: int)
    requires
        0 <= j <= s.len(),
        forall|k: int| 0 <= k < j ==> s[k] != '.',
    ensures
        j <= dot_index(s) <= s.len(),
        j < s.len() && s[j] == '.' ==> dot_index(s) == j,
        dot_index(s) < s.len() ==> s[dot_index(s)] == '.',
    decreases s.len(),
{
    if s.len() > 0 && s[0] != '.' {
        let t = s.drop_first();
        if j > 0 {
            assert forall|k: int| 0 <= k < j - 1 implies t[k] != '.' by {
                assert(t[k] == s[k + 1]);
            }
            lemma_dot_index(t, j - 1);
        } else {
            lemma_dot_index(t, 0);
        }
    }
}

proof fn lemma_digits_push(s: Seq<char>, c: char)
    ensures
        digits_value(s.push(c)) == 10 * digits_value(s) + digit_value(c),
{
    assert(s.push(c).drop_last() =~= s);
}

/// Reads a decimal numeral such as `-3.25`; `None` where the text is no numeral, or its
/// value does not fit a `Number`.
pub fn parse_number(s: &str) -> (r: Option<Number>)
    ensures
        r is Some <==> reads_as_number(s@),
        r matches Some(n) ==> n.wf() && n.mantissa == numeral_mantissa(s@) && n.scale
            == numeral_scale(s@),
{
    let n = s.unicode_len();
    let mut i: usize = 0;
    let mut negative = false;
    if n > 0 {
        let c0 = s.get_char(0);
        if c0 == '-' {
            negative = true;
            i = 1;
        } else if c0 == '+' {
            i = 1;
        }
    }
    let start = i;
    let ghost b = unsigned_part(s@);
    assert(b =~= s@.subrange(start as int, n as int));
    let mut seen_dot = false;
    let mut acc: u64 = 0;
    let mut too_big = false;
    let mut frac_len: usize = 0;
    let mut n_digits: usize = 0;
    let ghost mut digits: Seq<char> = Seq::empty();
    let ghost mut dpos: int = 0;
    while i < n
        invariant
            n == s@.len(),
            start <= i <= n,
            b == s@.subrange(start as int, n as int),
            b == unsigned_part(s@),
            negative == is_negative(s@),
            n_digits == digits.len(),
            n_digits <= i,
            all_digits(digits),
            !seen_dot ==> (forall|k: int| 0 <= k < i - start ==> b[k] != '.') && digits == b.subrange(
                0,
                i - start,
            ) && frac_len == 0,
            seen_dot ==> 0 <= dpos < i - start && dot_index(b) == dpos && digits == b.subrange(
                0,
                dpos,
            ) + b.subrange(dpos + 1, i - start) && frac_len == i - start - dpos - 1,
            !too_big ==> acc == digits_value(digits),
            too_big ==> digits_value(digits) > u64::MAX,
        decreases n - i,
    {
        let c = s.get_char(i);
        let ghost k = i - start;
        assert(b[k] == c);
        if c == '.' {
            if seen_dot {
                proof {
                    let f = fraction_digits(s@);
                    assert(f[k - dpos - 1] == c);
                }
                return None;
            }
            proof {
                lemma_dot_index(b, k);
                dpos = k;
                assert(b.subrange(dpos + 1, k + 1) =~= Seq::<char>::empty());
                assert(digits + Seq::<char>::empty() =~= digits);
            }
            seen_dot = true;
        } else if '0' <= c && c <= '9' {
            let d = (c as u32 - '0' as u32) as u64;
            proof {
                lemma_digits_push(digits, c);
            }
            if !too_big {
                match acc.checked_mul(10) {
                    Some(t) => match t.checked_add(d) {
                        Some(v) => {
                            acc = v;
                        },
                        None => {
                            too_big = true;
                        },
                    },
                    None => {
                        too_big = true;
                    },
                }
            }
            proof {
                if seen_dot {
                    assert(b.subrange(0, dpos) + b.subrange(dpos + 1, k + 1) =~= (b.subrange(0, dpos)
                        + b.subrange(dpos + 1, k)).push(c));
                } else {
                    assert(b.subrange(0, k + 1) =~= b.subrange(0, k).push(c));
                }
                digits = digits.push(c);
            }
            if seen_dot {
                frac_len = frac_len + 1;
            }
            n_digits = n_digits + 1;
        } else {
            proof {
                if seen_dot {
                    let f = fraction_digits(s@);
                    assert(f[k - dpos - 1] == c);
                } else {
                    lemma_dot_index(b, k);
                    assert(whole_digits(s@)[k] == c);
                }
            }
            return None;
        }
        i = i + 1;
    }
    proof {
        let k = n - start;
        if !seen_dot {
            lemma_dot_index(b, k);
            assert(whole_digits(s@) =~= b);
            assert(fraction_digits(s@) =~= Seq::<char>::empty());
            assert(digits =~= whole_digits(s@) + fraction_digits(s@));
        } else {
            assert(whole_digits(s@) =~= b.subrange(0, dpos));
            assert(fraction_digits(s@) =~= b.subrange(dpos + 1, k));
        }
        assert(digits == whole_digits(s@) + fraction_digits(s@));
        assert(numeral_scale(s@) == frac_len);
        assert(digits.len() == whole_digits(s@).len() + fraction_digits(s@).len());
        let w = whole_digits(s@);
        let f = fraction_digits(s@);
        assert forall|j: int| 0 <= j < w.len() implies is_digit(#[trigger] w[j]) by {
            assert(w[j] == digits[j]);
        }
        assert forall|j: int| 0 <= j < f.len() implies is_digit(#[trigger] f[j]) by {
            assert(f[j] == digits[w.len() + j]);
        }
    }
    if n_digits == 0 || too_big || frac_len > 18 {
        return None;
    }
    if negative {
        if acc > 9223372036854775808u64 {
            return None;
        }
        let m = (0i128 - acc as i128) as i64;
        Some(Number { mantissa: m, scale: frac_len as u32 })
    } else {
        if acc > 9223372036854775807u64 {
            return None;
        }
        Some(Number { mantissa: acc as i64, scale: frac_len as u32 })
    }
}

} // verus!
