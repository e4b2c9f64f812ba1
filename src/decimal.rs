use vstd::prelude::*;

verus! {

/// Number of attos in one whole unit: amounts carry eighteen decimal places.
pub const ATTOS_PER_UNIT: i128 = 1_000_000_000_000_000_000;

/// A fixed-point decimal with eighteen places, stored as a count of attos.
#[derive(PartialEq, Eq, Structural, Clone, Copy, Debug)]
pub struct Decimal {
    pub attos: i128,
}

impl View for Decimal {
    type V = int;

    open spec fn view(&self) -> int {
        self.attos as int
    }
}

/// The amount `n` whole units, in attos.
pub open spec fn units(n: int) -> int {
    n * ATTOS_PER_UNIT
}

impl Decimal {
    pub fn zero() -> (r: Decimal)
        ensures
            r@ == 0,
    {
        Decimal { attos: 0 }
    }

    /// The decimal that holds `n` whole units.
    pub fn from_int(n: i64) -> (r: Decimal)
        ensures
            r@ == units(n as int),
    {
        assert(-0x8000_0000_0000_0000 * ATTOS_PER_UNIT <= (n as int) * ATTOS_PER_UNIT
            <= 0x7fff_ffff_ffff_ffff * ATTOS_PER_UNIT) by (nonlinear_arith)
            requires
                -0x8000_0000_0000_0000 <= n <= 0x7fff_ffff_ffff_ffff,
        ;
        Decimal { attos: (n as i128) * ATTOS_PER_UNIT }
    }

    pub fn is_negative(&self) -> (r: bool)
        ensures
            r == (self@ < 0),
    {
        self.attos < 0
    }

    pub fn is_positive(&self) -> (r: bool)
        ensures
            r == (self@ > 0),
    {
        self.attos > 0
    }

    pub fn le(&self, other: &Decimal) -> (r: bool)
        ensures
            r == (self@ <= other@),
    {
        self.attos <= other.attos
    }

    /// The sum, or `None` where it leaves the representable range.
    pub fn checked_add(&self, other: &Decimal) -> (r: Option<Decimal>)
        ensures
            r matches Some(d) ==> d@ == self@ + other@,
            r is None <==> !(i128::MIN <= self@ + other@ <= i128::MAX),
    {
        match self.attos.checked_add(other.attos) {
            Some(a) => Some(Decimal { attos: a }),
            None => None,
        }
    }

    /// The difference, or `None` where it leaves the representable range.
    pub fn checked_sub(&self, other: &Decimal) -> (r: Option<Decimal>)
        ensures
            r matches Some(d) ==> d@ == self@ - other@,
            r is None <==> !(i128::MIN <= self@ - other@ <= i128::MAX),
    {
        match self.attos.checked_sub(other.attos) {
            Some(a) => Some(Decimal { attos: a }),
            None => None,
        }
    }
}

} // verus!
