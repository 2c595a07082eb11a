//! Non-negative whole Money amounts.
use vstd::prelude::*;

verus! {

/// A non-negative whole Money amount.
#[derive(Clone, Copy, Debug, PartialEq, Eq, Structural)]
pub struct Money {
    value: i64,
}

#[derive(Clone, Copy, Debug, PartialEq, Eq, Structural)]
pub enum MoneyError {
    Negative,
}

impl Money {
    /// The amount.
    pub closed spec fn amount(self) -> int {
        self.value as int
    }

    /// Every Money amount is non-negative.
    pub closed spec fn well_formed(self) -> bool {
        self.value >= 0
    }

    /// The zero amount.
    pub fn zero() -> (r: Self)
        ensures
            r.amount() == 0,
            r.well_formed(),
    {
        Money { value: 0 }
    }

    /// A Money amount; negative values are refused.
    pub fn new(value: i64) -> (r: Result<Self, MoneyError>)
        ensures
            value < 0 ==> r == Err::<Self, MoneyError>(MoneyError::Negative),
            value >= 0 ==> (r matches Ok(m) && m.amount() == value && m.well_formed()),
    {
        if value < 0 {
            return Err(MoneyError::Negative);
        }
        Ok(Money { value })
    }

    pub fn get(self) -> (r: i64)
        ensures
            r == self.amount(),
    {
        self.value
    }
}

} // verus!
