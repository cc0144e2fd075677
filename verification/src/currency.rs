//! Currency identifiers and pairs.
use vstd::prelude::*;

verus! {

/// Copyable currency identifier used by risk calculations.
#[derive(Debug, Clone, Copy, PartialEq, Eq, Structural, PartialOrd, Ord, Hash)]
pub struct CurrencyId(pub u16);

impl CurrencyId {
    /// Returns the raw numeric identifier.
    #[verifier::allow_in_spec]
    pub fn raw(self) -> u16
        returns
            self.0,
    {
        self.0
    }
}

/// Ordered base/quote currency pair.
#[derive(Debug, Clone, Copy, PartialEq, Eq, Structural, PartialOrd, Ord, Hash)]
pub struct CurrencyPair {
    /// Base currency.
    pub base: CurrencyId,
    /// Quote currency.
    pub quote: CurrencyId,
}

impl CurrencyPair {
    /// Creates a currency pair.
    pub fn new(base: CurrencyId, quote: CurrencyId) -> (pair: Self)
        ensures
            pair.base == base,
            pair.quote == quote,
    {
        CurrencyPair { base, quote }
    }

    /// A single integer that identifies the ordered pair: the base id in the
    /// high half and the quote id in the low half.
    pub open spec fn key(self) -> u32 {
        (self.base.0 as int * 0x1_0000 + self.quote.0 as int) as u32
    }

    /// Computes [`CurrencyPair::key`].
    pub fn pair_key(self) -> (k: u32)
        ensures
            k == self.key(),
    {
        (self.base.0 as u32) * 0x1_0000 + (self.quote.0 as u32)
    }
}

/// Distinct pairs have distinct keys.
pub proof fn lemma_pair_key_injective(a: CurrencyPair, b: CurrencyPair)
    ensures
        a.key() == b.key() <==> a == b,
{
}

} // verus!
