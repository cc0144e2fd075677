//! Fixed-point primitive types used by the risk checks.
use vstd::prelude::*;

verus! {

/// Absolute value of a mathematical integer.
pub open spec fn abs_int(x: int) -> int {
    if x < 0 {
        -x
    } else {
        x
    }
}

/// `Some(Notional(v))` when `v` fits in an `i64`, `None` otherwise.
pub open spec fn notional_if_fits(v: int) -> Option<Notional> {
    if i64::MIN <= v <= i64::MAX {
        Some(Notional(v as i64))
    } else {
        None
    }
}

/// Stable, copyable instrument identity used inside risk hot paths.
#[derive(Debug, Clone, Copy, PartialEq, Eq, Structural, PartialOrd, Ord, Hash)]
pub struct InstrumentId(pub u32);

impl InstrumentId {
    /// Returns the raw numeric identifier.
    #[verifier::allow_in_spec]
    pub fn raw(self) -> u32
        returns
            self.0,
    {
        self.0
    }
}

/// Fixed-point price value.
#[derive(Debug, Clone, Copy, PartialEq, Eq, Structural, PartialOrd, Ord, Hash)]
pub struct Price(pub i64);

impl Price {
    /// Creates a price from its raw fixed-point representation.
    pub fn new(raw: i64) -> (p: Self)
        ensures
            p.0 == raw,
    {
        Price(raw)
    }

    /// Returns the raw fixed-point representation.
    #[verifier::allow_in_spec]
    pub fn raw(self) -> i64
        returns
            self.0,
    {
        self.0
    }
}

/// Fixed-point quantity value.
#[derive(Debug, Clone, Copy, PartialEq, Eq, Structural, PartialOrd, Ord, Hash)]
pub struct Qty(pub i64);

impl Qty {
    /// Creates a quantity from its raw fixed-point representation.
    pub fn new(raw: i64) -> (q: Self)
        ensures
            q.0 == raw,
    {
        Qty(raw)
    }

    /// Returns the raw fixed-point representation.
    #[verifier::allow_in_spec]
    pub fn raw(self) -> i64
        returns
            self.0,
    {
        self.0
    }

    /// Returns the absolute quantity, or `None` if `i64::MIN` would overflow.
    pub fn checked_abs(self) -> (r: Option<Self>)
        ensures
            r == (if abs_int(self.0 as int) <= i64::MAX {
                Some(Qty(abs_int(self.0 as int) as i64))
            } else {
                None
            }),
    {
        if self.0 == i64::MIN {
            None
        } else if self.0 < 0 {
            Some(Qty(-self.0))
        } else {
            Some(Qty(self.0))
        }
    }

    /// Adds two quantities with overflow checking.
    pub fn checked_add(self, rhs: Self) -> (r: Option<Self>)
        ensures
            r == (if i64::MIN <= self.0 + rhs.0 <= i64::MAX {
                Some(Qty((self.0 + rhs.0) as i64))
            } else {
                None
            }),
    {
        match self.0.checked_add(rhs.0) {
            Some(v) => Some(Qty(v)),
            None => None,
        }
    }
}

/// Fixed-point notional value used for limit comparisons.
#[derive(Debug, Clone, Copy, PartialEq, Eq, Structural, PartialOrd, Ord, Hash)]
pub struct Notional(pub i64);

/// Narrows an `i128` to a notional, failing when it does not fit in an `i64`.
fn narrow_to_notional(v: i128) -> (r: Option<Notional>)
    ensures
        r == notional_if_fits(v as int),
{
    if v < i64::MIN as i128 || v > i64::MAX as i128 {
        None
    } else {
        Some(Notional(v as i64))
    }
}

impl Notional {
    /// Creates a notional from its raw fixed-point representation.
    pub fn new(raw: i64) -> (n: Self)
        ensures
            n.0 == raw,
    {
        Notional(raw)
    }

    /// Returns zero notional.
    pub fn zero() -> (n: Self)
        ensures
            n.0 == 0,
    {
        Notional(0)
    }

    /// Returns the raw fixed-point representation.
    #[verifier::allow_in_spec]
    pub fn raw(self) -> i64
        returns
            self.0,
    {
        self.0
    }

    /// Adds two notionals with overflow checking.
    pub fn checked_add(self, rhs: Self) -> (r: Option<Self>)
        ensures
            r == notional_if_fits(self.0 + rhs.0),
    {
        match self.0.checked_add(rhs.0) {
            Some(v) => Some(Notional(v)),
            None => None,
        }
    }

    /// Multiplies by a fixed-point price (for example an FX rate), failing
    /// when the product does not fit in an `i64`.
    pub fn checked_mul_price(self, price: Price) -> (r: Option<Self>)
        ensures
            r == notional_if_fits(self.0 * price.0),
    {
        let a = self.0 as i128;
        let b = price.0 as i128;
        proof {
            lemma_i64_product_fits_i128(self.0 as int, price.0 as int);
        }
        narrow_to_notional(a * b)
    }

    /// Computes `abs(self * qty)`, failing when it does not fit in an `i64`.
    pub fn checked_mul_abs_qty(self, qty: Qty) -> (r: Option<Self>)
        ensures
            r == notional_if_fits(abs_int(self.0 * qty.0)),
    {
        let a = self.0 as i128;
        let b = qty.0 as i128;
        proof {
            lemma_i64_product_fits_i128(self.0 as int, qty.0 as int);
        }
        let p = a * b;
        let magnitude: i128 = if p < 0 {
            -p
        } else {
            p
        };
        narrow_to_notional(magnitude)
    }

    /// Computes `abs(price * qty * multiplier)` with overflow checking.
    pub fn checked_linear(price: Price, qty: Qty, multiplier: i64) -> (r: Option<Self>)
        ensures
            r == notional_if_fits(abs_int(price.0 * qty.0 * multiplier)),
    {
        let a = price.0 as i128;
        let b = qty.0 as i128;
        proof {
            lemma_i64_product_fits_i128(price.0 as int, qty.0 as int);
        }
        let pq = a * b;
        match pq.checked_mul(multiplier as i128) {
            None => None,
            Some(pqm) => {
                if pqm == i128::MIN {
                    None
                } else {
                    let magnitude: i128 = if pqm < 0 {
                        -pqm
                    } else {
                        pqm
                    };
                    narrow_to_notional(magnitude)
                }
            },
        }
    }
}

/// The product of two `i64` values always fits in an `i128`.
pub proof fn lemma_i64_product_fits_i128(a: int, b: int)
    requires
        i64::MIN <= a <= i64::MAX,
        i64::MIN <= b <= i64::MAX,
    ensures
        -0x4000_0000_0000_0000_0000_0000_0000_0000 <= a * b <= 0x4000_0000_0000_0000_0000_0000_0000_0000,
{
    assert(-0x4000_0000_0000_0000_0000_0000_0000_0000 <= a * b <= 0x4000_0000_0000_0000_0000_0000_0000_0000)
        by (nonlinear_arith)
        requires
            -0x8000_0000_0000_0000 <= a <= 0x7fff_ffff_ffff_ffff,
            -0x8000_0000_0000_0000 <= b <= 0x7fff_ffff_ffff_ffff,
    {}
}

/// Monotonic or wall-clock timestamp in nanoseconds, chosen by the caller.
#[derive(Debug, Clone, Copy, PartialEq, Eq, Structural, PartialOrd, Ord, Hash)]
pub struct Timestamp(pub u64);

/// `now - then`, or zero when `then` is later than `now`.
pub open spec fn saturating_age(then: u64, now: u64) -> u64 {
    if now >= then {
        (now - then) as u64
    } else {
        0
    }
}

impl Timestamp {
    /// Returns the raw timestamp value in nanoseconds.
    #[verifier::allow_in_spec]
    pub fn nanos(self) -> u64
        returns
            self.0,
    {
        self.0
    }

    /// Returns the saturating age between `self` and `now`.
    pub fn age_at(self, now: Self) -> (age: u64)
        ensures
            age == saturating_age(self.0, now.0),
    {
        now.0.saturating_sub(self.0)
    }
}

} // verus!
