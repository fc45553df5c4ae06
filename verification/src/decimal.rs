//! Numbers that are not integers, kept as decimal text.
use vstd::prelude::*;

use crate::text;
use crate::text::{concat2, decimal_text};

verus! {

/// The double that a decimal text spells, by its bits, if it spells a finite
/// one.
pub uninterp spec fn finite_double(spelled: Seq<char>) -> Option<u64>;

/// Calls `str::parse` for the double nearest to the number that `spelled`
/// spells, and `serde_json::Number::from_f64`, which turns infinities and NaN
/// away. A text of at most twenty digits, with or without a minus sign, spells
/// a finite double.
#[verifier::external_body]
fn read_double(spelled: &str) -> (r: Option<u64>)
    ensures
        r == finite_double(spelled@),
        0 < spelled@.len() <= 20 && text::all_digits(spelled@) ==> r is Some,
        1 < spelled@.len() <= 21 && spelled@[0] == '-' && text::all_digits(spelled@.skip(1)) ==> r is Some,
{
    let number = spelled.parse().ok().and_then(serde_json::Number::from_f64)?;
    number.as_f64().map(|double| double.to_bits())
}

/// How an integer is written.
pub open spec fn integer_text(n: int) -> Seq<char> {
    if n < 0 {
        "-"@ + text::decimal((-n) as nat)
    } else {
        text::decimal(n as nat)
    }
}

/// The double nearest to an integer.
pub open spec fn nearest_double(n: int) -> Option<u64> {
    finite_double(integer_text(n))
}

spec fn power_of_ten(k: nat) -> nat
    decreases k,
{
    if k == 0 {
        1
    } else {
        10 * power_of_ten((k - 1) as nat)
    }
}

proof fn digits_needed(n: nat, k: nat)
    requires
        k > 0,
        n < power_of_ten(k),
    ensures
        text::decimal(n).len() <= k,
    decreases k,
{
    if n >= 10 {
        if k == 1 {
            assert(power_of_ten(1) == 10) by {
                reveal_with_fuel(power_of_ten, 2);
            }
        } else {
            digits_needed(n / 10, (k - 1) as nat);
        }
    }
}

proof fn u64_digits(n: nat)
    requires
        n <= u64::MAX,
    ensures
        text::decimal(n).len() <= 20,
        text::decimal(n).len() > 0,
        text::all_digits(text::decimal(n)),
{
    assert(power_of_ten(20) == 100_000_000_000_000_000_000) by {
        reveal_with_fuel(power_of_ten, 21);
    }
    digits_needed(n, 20);
    text::decimal_reads_back(n);
}

/// The double nearest to an unsigned integer.
pub fn double_of_u64(n: u64) -> (r: Decimal)
    ensures
        Some(r@) == nearest_double(n as int),
{
    let spelled = decimal_text(n);
    proof {
        u64_digits(n as nat);
    }
    let bits: Option<u64> = read_double(spelled.as_str());
    Decimal { text: spelled, bits: bits.unwrap() }
}

/// The double nearest to a signed integer.
pub fn double_of_i64(n: i64) -> (r: Decimal)
    ensures
        Some(r@) == nearest_double(n as int),
{
    if n >= 0 {
        return double_of_u64(n as u64);
    }
    let magnitude: u64 = (-(n as i128)) as u64;
    let spelled = concat2("-", decimal_text(magnitude).as_str());
    proof {
        reveal_strlit("-");
        u64_digits(magnitude as nat);
        assert(spelled@.skip(1) =~= text::decimal(magnitude as nat));
    }
    let bits: Option<u64> = read_double(spelled.as_str());
    Decimal { text: spelled, bits: bits.unwrap() }
}

/// A finite double, with a decimal text that spells it. Its model is its bits.
#[derive(Debug, PartialEq, Eq)]
pub struct Decimal {
    text: String,
    bits: u64,
}

impl View for Decimal {
    type V = u64;

    closed spec fn view(&self) -> u64 {
        self.bits
    }
}

impl Decimal {
    #[verifier::type_invariant]
    spec fn spelled(self) -> bool {
        finite_double(self.text@) == Some(self.bits)
    }

    /// Reads the finite double that a text spells.
    pub fn read(spelled: &str) -> (r: Option<Decimal>)
        ensures
            match r {
                Some(d) => finite_double(spelled@) == Some(d@),
                None => finite_double(spelled@) is None,
            },
    {
        match read_double(spelled) {
            Some(bits) => Some(Decimal { text: spelled.to_owned(), bits }),
            None => None,
        }
    }

    /// The text that spells the double.
    pub fn as_text(&self) -> (s: &str)
        ensures
            finite_double(s@) == Some(self@),
    {
        proof {
            use_type_invariant(self);
        }
        self.text.as_str()
    }

    /// The bits of the double.
    pub fn bits(&self) -> (bits: u64)
        ensures
            bits == self@,
    {
        self.bits
    }
}

impl Clone for Decimal {
    fn clone(&self) -> (r: Self)
        ensures
            r@ == self@,
    {
        proof {
            use_type_invariant(self);
        }
        Decimal { text: self.text.clone(), bits: self.bits }
    }
}

} // verus!
