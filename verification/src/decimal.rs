//! Decimal amounts.
use vstd::prelude::*;

verus! {

/// A decimal number: `mantissa` divided by ten to the power of `scale`.
#[derive(Clone, Copy, Debug, PartialEq, Eq, Structural)]
pub struct Decimal {
    pub mantissa: i128,
    pub scale: u32,
}

/// Calls `rust_decimal::Decimal::default` and gives its mantissa and scale: the default
/// amount is zero, written with no digits behind the point.
#[verifier::external_body]
fn default_decimal_parts() -> (parts: (i128, u32))
    ensures
        parts.0 == 0,
        parts.1 == 0,
{
    let amount = rust_decimal::Decimal::default();
    (amount.mantissa(), amount.scale())
}

impl Decimal {
    /// The amount zero.
    pub open spec fn zero() -> Decimal {
        Decimal { mantissa: 0, scale: 0 }
    }

    /// The amount, or zero where there is none.
    pub open spec fn or_zero(amount: Option<Decimal>) -> Decimal {
        match amount {
            Some(amount) => amount,
            None => Decimal::zero(),
        }
    }

    /// The amount, or the default amount where there is none.
    pub fn unwrap_or_default(amount: Option<Decimal>) -> (known: Decimal)
        ensures
            known == Decimal::or_zero(amount),
    {
        match amount {
            Some(amount) => amount,
            None => {
                let parts = default_decimal_parts();
                Decimal { mantissa: parts.0, scale: parts.1 }
            },
        }
    }
}

} // verus!
