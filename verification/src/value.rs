use vstd::prelude::*;

verus! {

/// The value of a field in a record: an integer or a string.
#[derive(Debug, Clone, PartialEq)]
pub enum Value {
    Int(i64),
    Str(String),
}

/// The character of the decimal digit `d` (`d < 10`).
pub open spec fn digit_char(d: nat) -> char {
    (48 + d) as char
}

/// The decimal digits of a natural number, most significant first,
/// without leading zeros (`0` is written `"0"`).
pub open spec fn nat_decimal(n: nat) -> Seq<char>
    decreases n,
{
    if n < 10 {
        seq![digit_char(n)]
    } else {
        nat_decimal(n / 10).push(digit_char(n % 10))
    }
}

/// An integer in decimal notation, with a leading `-` when it is negative.
pub open spec fn int_decimal(n: int) -> Seq<char> {
    if n < 0 {
        seq!['-'] + nat_decimal((-n) as nat)
    } else {
        nat_decimal(n as nat)
    }
}

/// The number that a string of decimal digits denotes (most significant
/// first).
pub open spec fn digits_value(s: Seq<char>) -> int
    decreases s.len(),
{
    if s.len() == 0 {
        0
    } else {
        digits_value(s.drop_last()) * 10 + (s.last() as int - 48)
    }
}

/// The integer that decimal text denotes: digits, with an optional leading
/// `-` for a negative number.
pub open spec fn decimal_value(s: Seq<char>) -> int {
    if s.len() > 0 && s[0] == '-' {
        -digits_value(s.drop_first())
    } else {
        digits_value(s)
    }
}

/// The text that a value is displayed as: an integer in decimal, a string
/// as it stands.
pub open spec fn display_text(v: Value) -> Seq<char> {
    match v {
        Value::Int(n) => int_decimal(n as int),
        Value::Str(s) => s@,
    }
}

/// Appends one character to a string: std's `String::push`.
#[verifier::external_body]
fn push_char(s: &mut String, c: char)
    ensures
        final(s)@ == old(s)@.push(c),
{
    s.push(c);
}

/// Appends the decimal digits of `m` to `s`.
fn push_decimal(s: &mut String, m: u64)
    ensures
        final(s)@ == old(s)@ + nat_decimal(m as nat),
    decreases m,
{
    if m >= 10 {
        push_decimal(s, m / 10);
    }
    let d: u8 = (m % 10) as u8;
    let c: char = (48u8 + d) as char;
    push_char(s, c);
    proof {
        assert(old(s)@ + nat_decimal(m as nat) =~= old(s)@ + (if m >= 10 {
            nat_decimal((m / 10) as nat)
        } else {
            Seq::<char>::empty()
        }) + seq![digit_char((m % 10) as nat)]);
    }
}

impl Value {
    /// A copy of the value: the same integer, or a clone of the string.
    pub fn duplicate(&self) -> (r: Value)
        ensures
            r == *self,
    {
        match self {
            Value::Int(n) => Value::Int(*n),
            Value::Str(s) => Value::Str(s.clone()),
        }
    }

    /// The text that the value is displayed as: the decimal notation of an
    /// integer, the characters of a string.
    pub fn to_string(&self) -> (s: String)
        ensures
            s@ == display_text(*self),
    {
        match self {
            Value::Int(n) => {
                let mut s = String::new();
                let m: u64 = if *n < 0 {
                    push_char(&mut s, '-');
                    ((-(*n + 1)) as u64) + 1
                } else {
                    *n as u64
                };
                push_decimal(&mut s, m);
                s
            },
            Value::Str(s) => s.clone(),
        }
    }
}

} // verus!
