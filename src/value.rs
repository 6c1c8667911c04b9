use vstd::prelude::*;
use crate::error::Error;
use crate::number::{parse_number, reads_as_number, numeral_mantissa, numeral_scale, Number};

verus! {

/// A value passed between blocks.
#[derive(Debug)]
pub enum Value {
    Number(Number),
    Text(String),
    Bool(bool),
}

impl Clone for Value {
    fn clone(&self) -> (r: Value)
        ensures
            r == *self,
    {
        match self {
            Value::Number(n) => Value::Number(*n),
            Value::Text(s) => Value::Text(s.clone()),
            Value::Bool(b) => Value::Bool(*b),
        }
    }
}

impl PartialEq for Value {
    fn eq(&self, o: &Value) -> (r: bool) {
        match (self, o) {
            (Value::Number(a), Value::Number(b)) => a.mantissa == b.mantissa && a.scale == b.scale,
            (Value::Text(a), Value::Text(b)) => *a == *b,
            (Value::Bool(a), Value::Bool(b)) => *a == *b,
            _ => false,
        }
    }
}

impl vstd::std_specs::cmp::PartialEqSpecImpl for Value {
    open spec fn obeys_eq_spec() -> bool {
        true
    }

    open spec fn eq_spec(&self, o: &Value) -> bool {
        match (self, o) {
            (Value::Number(a), Value::Number(b)) => a == b,
            (Value::Text(a), Value::Text(b)) => a@ == b@,
            (Value::Bool(a), Value::Bool(b)) => a == b,
            _ => false,
        }
    }
}

pub open spec fn digit_char(d: nat) -> char {
    (('0' as nat) + d) as char
}

/// The decimal digits of `n`, without leading zeros.
pub open spec fn nat_digits(n: nat) -> Seq<char>
    decreases n,
{
    if n < 10 {
        seq![digit_char(n)]
    } else {
        nat_digits(n / 10).push(digit_char(n % 10))
    }
}

/// A magnitude and scale with the trailing zeros of the fraction removed.
pub open spec fn trimmed(mag: nat, scale: nat) -> (nat, nat)
    decreases scale,
{
    if scale > 0 && mag % 10 == 0 {
        trimmed(mag / 10, (scale - 1) as nat)
    } else {
        (mag, scale)
    }
}

pub open spec fn abs(x: int) -> nat {
    if x < 0 {
        (-x) as nat
    } else {
        x as nat
    }
}

pub open spec fn zeros(n: int) -> Seq<char> {
    Seq::new(if n > 0 { n as nat } else { 0 }, |i: int| '0')
}

/// The canonical decimal text of a number: no trailing zeros after the point, at
/// least one digit before it, a `-` only for a number below zero.
pub open spec fn number_text(n: Number) -> Seq<char> {
    let (mag, s) = trimmed(abs(n.mantissa as int), n.scale as nat);
    let d = nat_digits(mag);
    let sign = if n.mantissa < 0 { seq!['-'] } else { Seq::empty() };
    if s == 0 {
        sign + d
    } else {
        let p = zeros(s + 1 - d.len()) + d;
        sign + p.subrange(0, p.len() - s) + seq!['.'] + p.subrange(p.len() - s, p.len() as int)
    }
}

/// The text a value stands for in a string context.
pub open spec fn text_of(v: Value) -> Seq<char> {
    match v {
        Value::Number(n) => number_text(n),
        Value::Text(s) => s@,
        Value::Bool(b) => if b { "true"@ } else { "false"@ },
    }
}

/// The number a value stands for in a numeric context, if any.
pub open spec fn number_of(v: Value) -> Option<Number> {
    match v {
        Value::Number(n) => Some(n),
        Value::Text(s) => if reads_as_number(s@) {
            Some(Number { mantissa: numeral_mantissa(s@) as i64, scale: numeral_scale(s@) as u32 })
        } else {
            None
        },
        Value::Bool(_) => None,
    }
}

impl Value {
    pub open spec fn wf(self) -> bool {
        match self {
            Value::Number(n) => n.wf(),
            _ => true,
        }
    }
}

/// The text of one decimal digit.
fn digit_text(d: u64) -> (r: &'static str)
    requires
        d < 10,
    ensures
        r@ == seq![digit_char(d as nat)],
{
    match d {
        0 => {
            proof {
                reveal_strlit("0");
            }
            "0"
        },
        1 => {
            proof {
                reveal_strlit("1");
            }
            "1"
        },
        2 => {
            proof {
                reveal_strlit("2");
            }
            "2"
        },
        3 => {
            proof {
                reveal_strlit("3");
            }
            "3"
        },
        4 => {
            proof {
                reveal_strlit("4");
            }
            "4"
        },
        5 => {
            proof {
                reveal_strlit("5");
            }
            "5"
        },
        6 => {
            proof {
                reveal_strlit("6");
            }
            "6"
        },
        7 => {
            proof {
                reveal_strlit("7");
            }
            "7"
        },
        8 => {
            proof {
                reveal_strlit("8");
            }
            "8"
        },
        _ => {
            proof {
                reveal_strlit("9");
            }
            "9"
        },
    }
}

/// The decimal digits of `n`, without leading zeros.
pub(crate) fn decimal_digits(n: u64) -> (r: String)
    ensures
        r@ == nat_digits(n as nat),
{
    let mut m = n;
    let mut acc = String::new();
    while m >= 10
        invariant
            nat_digits(n as nat) == nat_digits(m as nat) + acc@,
        decreases m,
    {
        let d = digit_text(m % 10);
        proof {
            assert(nat_digits(m as nat) == nat_digits((m / 10) as nat).push(digit_char((m % 10) as nat)));
            assert(nat_digits((m / 10) as nat).push(digit_char((m % 10) as nat)) + acc@ =~= nat_digits(
                (m / 10) as nat,
            ) + (d@ + acc@));
        }
        acc = String::from_str(d).concat(acc.as_str());
        m = m / 10;
    }
    let r = String::from_str(digit_text(m)).concat(acc.as_str());
    r
}

proof fn lemma_digits_nonempty(n: nat)
    ensures
        nat_digits(n).len() >= 1,
    decreases n,
{
    if n >= 10 {
        lemma_digits_nonempty(n / 10);
    }
}

/// The canonical decimal text of `n`.
pub fn number_to_text(n: &Number) -> (r: String)
    requires
        n.wf(),
    ensures
        r@ == number_text(*n),
{
    let mut mag: u64 = if n.mantissa < 0 {
        (0i128 - n.mantissa as i128) as u64
    } else {
        n.mantissa as u64
    };
    let mut s: u32 = n.scale;
    while s > 0 && mag % 10 == 0
        invariant
            s <= n.scale <= 18,
            trimmed(mag as nat, s as nat) == trimmed(abs(n.mantissa as int), n.scale as nat),
        decreases s,
    {
        mag = mag / 10;
        s = s - 1;
    }
    let d = decimal_digits(mag);
    proof {
        lemma_digits_nonempty(mag as nat);
    }
    let sign = if n.mantissa < 0 {
        proof {
            reveal_strlit("-");
        }
        String::from_str("-")
    } else {
        String::new()
    };
    if s == 0 {
        let r = sign.concat(d.as_str());
        return r;
    }
    let dl = d.as_str().unicode_len();
    let mut p = String::new();
    let mut k: usize = 0;
    let want: usize = if (s as usize) + 1 > dl {
        (s as usize) + 1 - dl
    } else {
        0
    };
    proof {
        reveal_strlit("0");
    }
    while k < want
        invariant
            k <= want,
            p@ == zeros(k as int),
            "0"@ == seq!['0'],
        decreases want - k,
    {
        p = p.concat("0");
        k = k + 1;
        assert(p@ =~= zeros(k as int));
    }
    assert(p@ =~= zeros(s + 1 - d@.len()));
    let p = p.concat(d.as_str());
    let pl = p.as_str().unicode_len();
    let head = p.as_str().substring_char(0, pl - s as usize);
    let tail = p.as_str().substring_char(pl - s as usize, pl);
    proof {
        reveal_strlit(".");
    }
    let r = sign.concat(head).concat(".").concat(tail);
    r
}

/// Reads a value as a number: a number as itself, a text by its numeral.
pub fn to_number(v: &Value) -> (r: Result<Number, Error>)
    requires
        v.wf(),
    ensures
        r is Ok <==> number_of(*v) is Some,
        r matches Ok(n) ==> n.wf() && Some(n) == number_of(*v),
        (v matches Value::Text(t) && !reads_as_number(t@)) ==> (r matches Err(Error::NotANumber { .. })),
        v is Bool ==> r == Err::<Number, Error>(Error::ExpectedNumber),
{
    match v {
        Value::Number(n) => Ok(*n),
        Value::Text(t) => match parse_number(t.as_str()) {
            Some(n) => Ok(n),
            None => Err(Error::NotANumber { text: t.clone() }),
        },
        Value::Bool(_) => Err(Error::ExpectedNumber),
    }
}

/// Reads a value as a number, standing in zero where it has none.
pub fn to_number_or_zero(v: &Value) -> (r: Number)
    requires
        v.wf(),
    ensures
        r.wf(),
        number_of(*v) matches Some(n) ==> r == n,
        number_of(*v) is None ==> (r == Number { mantissa: 0, scale: 0 }),
{
    match to_number(v) {
        Ok(n) => n,
        Err(_) => Number::zero(),
    }
}

/// The text a value stands for in a string context.
pub fn to_text(v: &Value) -> (r: String)
    requires
        v.wf(),
    ensures
        r@ == text_of(*v),
{
    match v {
        Value::Number(n) => number_to_text(n),
        Value::Text(s) => s.clone(),
        Value::Bool(b) => {
            proof {
                reveal_strlit("true");
                reveal_strlit("false");
            }
            if *b {
                String::from_str("true")
            } else {
                String::from_str("false")
            }
        },
    }
}

} // verus!
