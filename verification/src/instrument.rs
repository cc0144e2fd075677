//! Instrument taxonomy and risk exposure behavior.
use std::collections::HashMap;

use vstd::prelude::*;

use crate::currency::CurrencyId;
use crate::market::{MarketSnapshot, MarketSnapshotView};
use crate::types::{abs_int, notional_if_fits, InstrumentId, Notional, Qty, Timestamp};
use crate::text::{decimal_digits, push_decimal};
use crate::verdict::{IndeterminateReason, RiskWeight};

verus! {

broadcast use vstd::std_specs::hash::group_hash_axioms;

/// Supported v1 asset classes.
#[derive(Debug, Clone, Copy, PartialEq, Eq, Structural, Hash)]
pub enum AssetClass {
    /// Cash equity.
    Equity,
    /// Spot foreign exchange.
    SpotFx,
    /// Spot crypto asset.
    SpotCrypto,
    /// Exchange-traded future.
    Future,
    /// Perpetual swap.
    PerpetualSwap,
    /// Option placeholder; unpriced in v1.
    Option,
}

/// Static equity contract specification.
#[derive(Debug, Clone, Copy, PartialEq, Eq, Structural)]
pub struct EquitySpec {
    /// Instrument identity.
    pub instrument_id: InstrumentId,
    /// Settlement currency.
    pub settlement_currency: CurrencyId,
}

/// Static spot FX contract specification.
#[derive(Debug, Clone, Copy, PartialEq, Eq, Structural)]
pub struct FxSpec {
    /// Instrument identity.
    pub instrument_id: InstrumentId,
    /// Base currency.
    pub base_currency: CurrencyId,
    /// Quote/settlement currency.
    pub quote_currency: CurrencyId,
}

/// Static spot crypto contract specification.
#[derive(Debug, Clone, Copy, PartialEq, Eq, Structural)]
pub struct CryptoSpotSpec {
    /// Instrument identity.
    pub instrument_id: InstrumentId,
    /// Base asset identifier.
    pub base_currency: CurrencyId,
    /// Quote/settlement currency.
    pub quote_currency: CurrencyId,
}

/// Static futures contract specification.
#[derive(Debug, Clone, Copy, PartialEq, Eq, Structural)]
pub struct FutureSpec {
    /// Instrument identity.
    pub instrument_id: InstrumentId,
    /// Settlement currency.
    pub settlement_currency: CurrencyId,
    /// Fixed-point contract multiplier.
    pub multiplier: i64,
}

/// Static perpetual swap contract specification.
#[derive(Debug, Clone, Copy, PartialEq, Eq, Structural)]
pub struct PerpSpec {
    /// Instrument identity.
    pub instrument_id: InstrumentId,
    /// Settlement currency.
    pub settlement_currency: CurrencyId,
    /// Fixed-point contract multiplier.
    pub multiplier: i64,
}

/// Static option contract placeholder.
#[derive(Debug, Clone, Copy, PartialEq, Eq, Structural)]
pub struct OptionSpec {
    /// Instrument identity.
    pub instrument_id: InstrumentId,
    /// Underlying instrument identity.
    pub underlying_id: InstrumentId,
    /// Settlement currency.
    pub settlement_currency: CurrencyId,
    /// Expiry timestamp.
    pub expiry: Timestamp,
}

/// Closed instrument enum.
#[derive(Debug, Clone, Copy, PartialEq, Eq, Structural)]
pub enum Instrument {
    /// Cash equity.
    Equity(EquitySpec),
    /// Spot foreign exchange.
    SpotFx(FxSpec),
    /// Spot crypto asset.
    SpotCrypto(CryptoSpotSpec),
    /// Exchange-traded future.
    Future(FutureSpec),
    /// Perpetual swap.
    Perp(PerpSpec),
    /// Option placeholder; unpriced in v1.
    Option(OptionSpec),
}

/// Linear exposure `abs(price * qty * multiplier)` against the trusted price,
/// or why it cannot be computed.
pub open spec fn linear_weight_spec(
    instrument_id: InstrumentId,
    qty: Qty,
    multiplier: i64,
    market: MarketSnapshotView,
    now: Timestamp,
) -> RiskWeight {
    match market.trusted_price(instrument_id, now) {
        Err(reason) => RiskWeight::Indeterminate(reason),
        Ok(price) => match notional_if_fits(abs_int(price.0 * qty.0 * multiplier)) {
            Some(n) => RiskWeight::Linear(n),
            None => RiskWeight::Indeterminate(IndeterminateReason::ArithmeticOverflow),
        },
    }
}

impl Instrument {
    /// The instrument identity.
    pub open spec fn id_spec(self) -> InstrumentId {
        match self {
            Instrument::Equity(spec) => spec.instrument_id,
            Instrument::SpotFx(spec) => spec.instrument_id,
            Instrument::SpotCrypto(spec) => spec.instrument_id,
            Instrument::Future(spec) => spec.instrument_id,
            Instrument::Perp(spec) => spec.instrument_id,
            Instrument::Option(spec) => spec.instrument_id,
        }
    }

    /// The contract multiplier of a linear instrument (one for cash and spot
    /// instruments); `None` for options, which have no linear weight.
    pub open spec fn linear_multiplier(self) -> Option<i64> {
        match self {
            Instrument::Equity(_) => Some(1),
            Instrument::SpotFx(_) => Some(1),
            Instrument::SpotCrypto(_) => Some(1),
            Instrument::Future(spec) => Some(spec.multiplier),
            Instrument::Perp(spec) => Some(spec.multiplier),
            Instrument::Option(_) => None,
        }
    }

    /// Risk weight of `qty` units: options are indeterminate in v1, every
    /// other instrument is weighted linearly.
    pub open spec fn weight_spec(self, qty: Qty, market: MarketSnapshotView, now: Timestamp) -> RiskWeight {
        match self.linear_multiplier() {
            None => RiskWeight::Indeterminate(IndeterminateReason::UnsupportedOption),
            Some(m) => linear_weight_spec(self.id_spec(), qty, m, market, now),
        }
    }

    /// The settlement currency.
    pub open spec fn settlement_spec(self) -> CurrencyId {
        match self {
            Instrument::Equity(spec) => spec.settlement_currency,
            Instrument::SpotFx(spec) => spec.quote_currency,
            Instrument::SpotCrypto(spec) => spec.quote_currency,
            Instrument::Future(spec) => spec.settlement_currency,
            Instrument::Perp(spec) => spec.settlement_currency,
            Instrument::Option(spec) => spec.settlement_currency,
        }
    }

    /// The currencies touched: base and quote for spot FX and crypto, the
    /// settlement currency otherwise.
    pub open spec fn currencies_spec(self) -> Set<CurrencyId> {
        match self {
            Instrument::SpotFx(spec) => set![spec.base_currency, spec.quote_currency],
            Instrument::SpotCrypto(spec) => set![spec.base_currency, spec.quote_currency],
            _ => set![self.settlement_spec()],
        }
    }

    /// The currencies touched, in order and without repeats: base then quote
    /// for spot FX and crypto (one entry when they coincide), the settlement
    /// currency otherwise.
    pub open spec fn currency_list(self) -> Seq<CurrencyId> {
        match self {
            Instrument::SpotFx(spec) => if spec.base_currency == spec.quote_currency {
                seq![spec.base_currency]
            } else {
                seq![spec.base_currency, spec.quote_currency]
            },
            Instrument::SpotCrypto(spec) => if spec.base_currency == spec.quote_currency {
                seq![spec.base_currency]
            } else {
                seq![spec.base_currency, spec.quote_currency]
            },
            _ => seq![self.settlement_spec()],
        }
    }

    /// The asset class.
    pub open spec fn asset_class_spec(self) -> AssetClass {
        match self {
            Instrument::Equity(_) => AssetClass::Equity,
            Instrument::SpotFx(_) => AssetClass::SpotFx,
            Instrument::SpotCrypto(_) => AssetClass::SpotCrypto,
            Instrument::Future(_) => AssetClass::Future,
            Instrument::Perp(_) => AssetClass::PerpetualSwap,
            Instrument::Option(_) => AssetClass::Option,
        }
    }

    /// Returns the instrument identity.
    pub fn id(self) -> (id: InstrumentId)
        ensures
            id == self.id_spec(),
    {
        match self {
            Instrument::Equity(spec) => spec.instrument_id,
            Instrument::SpotFx(spec) => spec.instrument_id,
            Instrument::SpotCrypto(spec) => spec.instrument_id,
            Instrument::Future(spec) => spec.instrument_id,
            Instrument::Perp(spec) => spec.instrument_id,
            Instrument::Option(spec) => spec.instrument_id,
        }
    }

    /// Returns the asset class.
    pub fn asset_class(self) -> (c: AssetClass)
        ensures
            c == self.asset_class_spec(),
    {
        match self {
            Instrument::Equity(_) => AssetClass::Equity,
            Instrument::SpotFx(_) => AssetClass::SpotFx,
            Instrument::SpotCrypto(_) => AssetClass::SpotCrypto,
            Instrument::Future(_) => AssetClass::Future,
            Instrument::Perp(_) => AssetClass::PerpetualSwap,
            Instrument::Option(_) => AssetClass::Option,
        }
    }

    /// Computes the risk weight for this instrument.
    pub fn risk_weight(self, qty: Qty, market: &MarketSnapshot, now: Timestamp) -> (w: RiskWeight)
        ensures
            w == self.weight_spec(qty, market@, now),
    {
        match self {
            Instrument::Equity(spec) => linear_weight(spec.instrument_id, qty, 1, market, now),
            Instrument::SpotFx(spec) => linear_weight(spec.instrument_id, qty, 1, market, now),
            Instrument::SpotCrypto(spec) => linear_weight(spec.instrument_id, qty, 1, market, now),
            Instrument::Future(spec) => linear_weight(
                spec.instrument_id,
                qty,
                spec.multiplier,
                market,
                now,
            ),
            Instrument::Perp(spec) => linear_weight(
                spec.instrument_id,
                qty,
                spec.multiplier,
                market,
                now,
            ),
            Instrument::Option(_) => RiskWeight::Indeterminate(
                IndeterminateReason::UnsupportedOption,
            ),
        }
    }

    /// Returns currencies touched by the instrument.
    pub fn currencies(self) -> (s: CurrencySet)
        ensures
            s@ == self.currency_list(),
            s@.to_set() == self.currencies_spec(),
    {
        let s = match self {
            Instrument::Equity(spec) => CurrencySet::one(spec.settlement_currency),
            Instrument::SpotFx(spec) => CurrencySet::two(spec.base_currency, spec.quote_currency),
            Instrument::SpotCrypto(spec) => CurrencySet::two(
                spec.base_currency,
                spec.quote_currency,
            ),
            Instrument::Future(spec) => CurrencySet::one(spec.settlement_currency),
            Instrument::Perp(spec) => CurrencySet::one(spec.settlement_currency),
            Instrument::Option(spec) => CurrencySet::one(spec.settlement_currency),
        };
        proof {
            lemma_small_seq_to_set(s@);
        }
        s
    }

    /// Returns settlement currency.
    pub fn settlement_currency(self) -> (c: CurrencyId)
        ensures
            c == self.settlement_spec(),
    {
        match self {
            Instrument::Equity(spec) => spec.settlement_currency,
            Instrument::SpotFx(spec) => spec.quote_currency,
            Instrument::SpotCrypto(spec) => spec.quote_currency,
            Instrument::Future(spec) => spec.settlement_currency,
            Instrument::Perp(spec) => spec.settlement_currency,
            Instrument::Option(spec) => spec.settlement_currency,
        }
    }
}

/// The settlement currency is always among the currencies an instrument
/// touches, and an instrument touches one or two currencies.
pub proof fn lemma_settlement_currency_is_touched(instrument: Instrument)
    ensures
        instrument.currencies_spec().contains(instrument.settlement_spec()),
        instrument.currencies_spec().finite(),
        1 <= instrument.currencies_spec().len() <= 2,
{
    match instrument {
        Instrument::SpotFx(spec) => {
            lemma_pair_set_len(spec.base_currency, spec.quote_currency);
        },
        Instrument::SpotCrypto(spec) => {
            lemma_pair_set_len(spec.base_currency, spec.quote_currency);
        },
        _ => {
            assert(set![instrument.settlement_spec()].len() == 1);
        },
    }
}

proof fn lemma_small_seq_to_set(s: Seq<CurrencyId>)
    ensures
        s.len() == 1 ==> s.to_set() == set![s[0]],
        s.len() == 2 ==> s.to_set() == set![s[0], s[1]],
{
    if s.len() == 1 {
        assert(s.to_set() =~= set![s[0]]) by {
            assert(s.contains(s[0]));
        }
    }
    if s.len() == 2 {
        assert(s.to_set() =~= set![s[0], s[1]]) by {
            assert(s.contains(s[0]));
            assert(s.contains(s[1]));
        }
    }
}

proof fn lemma_pair_set_len(a: CurrencyId, b: CurrencyId)
    ensures
        set![a, b].finite(),
        set![a, b].len() == (if a == b {
            1int
        } else {
            2int
        }),
{
    if a == b {
        assert(set![a, b] =~= set![a]);
    }
}

/// Common exposure interface consumed across risk crates.
///
/// This trait is the stable boundary a future options implementation can
/// satisfy without making pretrade or portfolio code depend on an options
/// implementation directly.
pub trait RiskExposure {
    /// Computes the risk weight for the supplied quantity and market snapshot.
    fn risk_weight(&self, qty: Qty, market: &MarketSnapshot, now: Timestamp) -> RiskWeight;

    /// Returns currencies touched by the exposure.
    fn currencies(&self) -> CurrencySet;

    /// Returns the settlement currency for the exposure.
    fn settlement_currency(&self) -> CurrencyId;
}

impl RiskExposure for Instrument {
    fn risk_weight(&self, qty: Qty, market: &MarketSnapshot, now: Timestamp) -> (w: RiskWeight)
        ensures
            w == self.weight_spec(qty, market@, now),
    {
        (*self).risk_weight(qty, market, now)
    }

    fn currencies(&self) -> (s: CurrencySet)
        ensures
            s@ == self.currency_list(),
            s@.to_set() == self.currencies_spec(),
    {
        (*self).currencies()
    }

    fn settlement_currency(&self) -> (c: CurrencyId)
        ensures
            c == self.settlement_spec(),
    {
        (*self).settlement_currency()
    }
}

fn linear_weight(
    instrument_id: InstrumentId,
    qty: Qty,
    multiplier: i64,
    market: &MarketSnapshot,
    now: Timestamp,
) -> (w: RiskWeight)
    ensures
        w == linear_weight_spec(instrument_id, qty, multiplier, market@, now),
{
    let price = match market.trusted_price(instrument_id, now) {
        Ok(price) => price,
        Err(reason) => return RiskWeight::Indeterminate(reason),
    };
    match Notional::checked_linear(price, qty, multiplier) {
        Some(n) => RiskWeight::Linear(n),
        None => RiskWeight::Indeterminate(IndeterminateReason::ArithmeticOverflow),
    }
}

/// Fixed-capacity set of one or two distinct currencies.
#[derive(Debug, Clone, Copy, PartialEq, Eq)]
pub struct CurrencySet {
    len: u8,
    items: [CurrencyId; 2],
}

impl View for CurrencySet {
    type V = Seq<CurrencyId>;

    /// The distinct currencies, in insertion order.
    closed spec fn view(&self) -> Seq<CurrencyId> {
        self.items@.take(self.len as int)
    }
}

impl CurrencySet {
    #[verifier::type_invariant]
    closed spec fn well_formed(self) -> bool {
        ||| self.len == 1 && self.items[0] == self.items[1]
        ||| self.len == 2 && self.items[0] != self.items[1]
    }

    /// Creates a one-currency set.
    pub fn one(currency: CurrencyId) -> (s: Self)
        ensures
            s@ == seq![currency],
    {
        let s = CurrencySet { len: 1, items: [currency, currency] };
        assert(s@ =~= seq![currency]);
        s
    }

    /// Creates a two-currency set, collapsing duplicates.
    pub fn two(first: CurrencyId, second: CurrencyId) -> (s: Self)
        ensures
            s@ == (if first == second {
                seq![first]
            } else {
                seq![first, second]
            }),
    {
        if first.0 == second.0 {
            Self::one(first)
        } else {
            let s = CurrencySet { len: 2, items: [first, second] };
            assert(s@ =~= seq![first, second]);
            s
        }
    }

    /// Returns the number of distinct currencies.
    pub fn len(self) -> (n: usize)
        ensures
            n == self@.len(),
            1 <= n <= 2,
    {
        proof {
            use_type_invariant(&self);
        }
        self.len as usize
    }

    /// Returns whether the set is empty (never, for v1 instruments).
    pub fn is_empty(self) -> (b: bool)
        ensures
            b <==> self@.len() == 0,
            !b,
    {
        proof {
            use_type_invariant(&self);
        }
        self.len == 0
    }

    /// Returns the currencies as a slice.
    pub fn as_slice(&self) -> (s: &[CurrencyId])
        ensures
            s@ == self@,
            s@.no_duplicates(),
            1 <= s@.len() <= 2,
    {
        proof {
            use_type_invariant(self);
        }
        vstd::slice::slice_subrange(self.items.as_slice(), 0, self.len as usize)
    }
}

/// Startup-loaded instrument reference data.
#[derive(Debug)]
pub struct InstrumentCatalog {
    by_id: HashMap<u32, Instrument>,
}

impl View for InstrumentCatalog {
    type V = Map<u32, Instrument>;

    /// Instruments keyed by raw instrument id.
    closed spec fn view(&self) -> Map<u32, Instrument> {
        self.by_id@
    }
}

impl Default for InstrumentCatalog {
    fn default() -> (c: Self)
        ensures
            c@ == Map::<u32, Instrument>::empty(),
    {
        Self::new()
    }
}

impl Clone for InstrumentCatalog {
    fn clone(&self) -> (c: Self)
        ensures
            c@ == self@,
    {
        InstrumentCatalog { by_id: self.by_id.clone() }
    }
}

/// Every instrument in a catalog is filed under its own id.
pub open spec fn catalog_consistent(m: Map<u32, Instrument>) -> bool {
    forall|k: u32| #[trigger] m.contains_key(k) ==> m[k].id_spec().0 == k
}

/// One call of `InstrumentCatalog::insert`: the instrument is filed under its
/// id unless that id is already taken, in which case nothing changes.
pub open spec fn catalog_insert_step(m: Map<u32, Instrument>, instrument: Instrument) -> Map<
    u32,
    Instrument,
> {
    if m.contains_key(instrument.id_spec().0) {
        m
    } else {
        m.insert(instrument.id_spec().0, instrument)
    }
}

/// The catalog content after inserting `instruments`, in order, into a
/// catalog holding `start`.
pub open spec fn catalog_after_inserts(start: Map<u32, Instrument>, instruments: Seq<Instrument>) -> Map<
    u32,
    Instrument,
>
    decreases instruments.len(),
{
    if instruments.len() == 0 {
        start
    } else {
        catalog_insert_step(
            catalog_after_inserts(start, instruments.drop_last()),
            instruments.last(),
        )
    }
}

/// The earliest instrument of `instruments` whose id is `id`, if any.
pub open spec fn first_with_id(instruments: Seq<Instrument>, id: u32) -> Option<Instrument>
    decreases instruments.len(),
{
    if instruments.len() == 0 {
        None
    } else if instruments[0].id_spec().0 == id {
        Some(instruments[0])
    } else {
        first_with_id(instruments.drop_first(), id)
    }
}

/// The raw ids of `instruments`, in order.
pub open spec fn instrument_ids(instruments: Seq<Instrument>) -> Seq<u32> {
    instruments.map_values(|i: Instrument| i.id_spec().0)
}

/// Appending an instrument only matters to the first lookup of its id when
/// no earlier instrument had that id.
proof fn lemma_first_with_id_push(instruments: Seq<Instrument>, x: Instrument, id: u32)
    ensures
        first_with_id(instruments.push(x), id) == (match first_with_id(instruments, id) {
            Some(i) => Some(i),
            None => if x.id_spec().0 == id {
                Some(x)
            } else {
                None
            },
        }),
    decreases instruments.len(),
{
    if instruments.len() > 0 {
        assert(instruments.push(x)[0] == instruments[0]);
        assert(instruments.push(x).drop_first() =~= instruments.drop_first().push(x));
        lemma_first_with_id_push(instruments.drop_first(), x, id);
    } else {
        assert(instruments.push(x)[0] == x);
        assert(instruments.push(x).drop_first() =~= Seq::<Instrument>::empty());
        assert(first_with_id(Seq::<Instrument>::empty(), id) is None);
        assert(first_with_id(instruments, id) is None);
    }
}

/// What a catalog holds after any sequence of inserts into a new catalog:
/// each id maps to the first instrument inserted with that id (later ones
/// are refused), the catalog holds exactly the ids inserted, every
/// instrument is filed under its own id, and the size is the number of
/// distinct ids.
pub proof fn lemma_catalog_after_inserts(instruments: Seq<Instrument>)
    ensures
        ({
            let m = catalog_after_inserts(Map::empty(), instruments);
            &&& m.dom().finite()
            &&& m.dom() == instrument_ids(instruments).to_set()
            &&& m.len() == instrument_ids(instruments).to_set().len()
            &&& catalog_consistent(m)
            &&& forall|id: u32|
                (if m.contains_key(id) {
                    Some(m[id])
                } else {
                    None
                }) == #[trigger] first_with_id(instruments, id)
        }),
    decreases instruments.len(),
{
    let m = catalog_after_inserts(Map::empty(), instruments);
    if instruments.len() == 0 {
        assert(m.dom() =~= instrument_ids(instruments).to_set());
    } else {
        let init = instruments.drop_last();
        let x = instruments.last();
        lemma_catalog_after_inserts(init);
        let prev = catalog_after_inserts(Map::empty(), init);
        assert(instruments =~= init.push(x));
        assert(instrument_ids(instruments) =~= instrument_ids(init).push(x.id_spec().0));
        assert forall|k: u32| #![auto] instrument_ids(instruments).to_set().contains(k) <==> (
        instrument_ids(init).to_set().contains(k) || k == x.id_spec().0) by {
            let ids = instrument_ids(instruments);
            if ids.contains(k) {
                let j = choose|j: int| 0 <= j < ids.len() && ids[j] == k;
                if j < ids.len() - 1 {
                    assert(instrument_ids(init)[j] == k);
                }
            }
            if instrument_ids(init).contains(k) {
                let j = choose|j: int|
                    0 <= j < instrument_ids(init).len() && instrument_ids(init)[j] == k;
                assert(ids[j] == k);
            }
            if k == x.id_spec().0 {
                assert(ids[ids.len() - 1] == k);
            }
        }
        assert(m.dom() =~= instrument_ids(instruments).to_set());
        assert forall|id: u32|
            (if m.contains_key(id) {
                Some(m[id])
            } else {
                None
            }) == #[trigger] first_with_id(instruments, id) by {
            lemma_first_with_id_push(init, x, id);
            assert(first_with_id(init, id) == (if prev.contains_key(id) {
                Some(prev[id])
            } else {
                None
            }));
        }
    }
}

impl InstrumentCatalog {
    /// Creates an empty instrument catalog.
    pub fn new() -> (c: Self)
        ensures
            c@ == Map::<u32, Instrument>::empty(),
            c@.dom().finite(),
    {
        InstrumentCatalog { by_id: HashMap::new() }
    }

    /// Inserts an instrument, rejecting duplicate instrument ids.
    pub fn insert(&mut self, instrument: Instrument) -> (r: Result<(), InstrumentCatalogError>)
        ensures
            old(self)@.contains_key(instrument.id_spec().0) ==> {
                &&& r == Err::<(), InstrumentCatalogError>(
                    InstrumentCatalogError::DuplicateInstrumentId(instrument.id_spec()),
                )
                &&& final(self)@ == old(self)@
            },
            !old(self)@.contains_key(instrument.id_spec().0) ==> {
                &&& r is Ok
                &&& final(self)@ == old(self)@.insert(instrument.id_spec().0, instrument)
            },
            final(self)@ == catalog_insert_step(old(self)@, instrument),
            final(self)@.dom().finite(),
            final(self)@.len() == (if old(self)@.contains_key(instrument.id_spec().0) {
                old(self)@.len()
            } else {
                old(self)@.len() + 1
            }),
            catalog_consistent(old(self)@) ==> catalog_consistent(final(self)@),
    {
        let instrument_id = instrument.id();
        if self.by_id.contains_key(&instrument_id.0) {
            return Err(InstrumentCatalogError::DuplicateInstrumentId(instrument_id));
        }
        self.by_id.insert(instrument_id.0, instrument);
        Ok(())
    }

    /// Returns an instrument by id.
    pub fn get(&self, instrument_id: InstrumentId) -> (r: Option<Instrument>)
        ensures
            r == (if self@.contains_key(instrument_id.0) {
                Some(self@[instrument_id.0])
            } else {
                None
            }),
    {
        match self.by_id.get(&instrument_id.0) {
            Some(instrument) => Some(*instrument),
            None => None,
        }
    }

    /// Returns the number of instruments in the catalog.
    pub fn len(&self) -> (n: usize)
        ensures
            n == self@.len(),
            self@.dom().finite(),
    {
        self.by_id.len()
    }

    /// Returns whether the catalog is empty.
    pub fn is_empty(&self) -> (b: bool)
        ensures
            b <==> self@.len() == 0,
    {
        proof {
            assert(self@.dom().finite());
            if self@.len() == 0 {
                assert(self@.dom() =~= Set::<u32>::empty());
            }
            if self@.dom() =~= Set::<u32>::empty() {
                assert(self@.len() == 0);
            }
        }
        self.by_id.is_empty()
    }
}

/// Read after write: an instrument inserted into a catalog that did not hold
/// its id is returned by a lookup of that id, and a second insert of the same
/// id is refused without changing the catalog.
pub proof fn lemma_catalog_insert_then_get(catalog: Map<u32, Instrument>, instrument: Instrument)
    requires
        catalog.dom().finite(),
    ensures
        ({
            let after = catalog_insert_step(catalog, instrument);
            let id = instrument.id_spec().0;
            &&& !catalog.contains_key(id) ==> after.contains_key(id) && after[id] == instrument
                && after.len() == catalog.len() + 1
            &&& catalog.contains_key(id) ==> catalog_insert_step(after, instrument) == after
                && after == catalog
        }),
{
}

/// Instrument catalog construction error.
#[derive(Debug, Clone, Copy, PartialEq, Eq, Structural)]
pub enum InstrumentCatalogError {
    /// Instrument id was already inserted.
    DuplicateInstrumentId(InstrumentId),
}

impl InstrumentCatalogError {
    /// The message describing the error, e.g. `duplicate instrument id 7`.
    pub fn message(self) -> (m: String)
        ensures
            m@ == match self {
                InstrumentCatalogError::DuplicateInstrumentId(id) => "duplicate instrument id "@
                    + decimal_digits(id.0 as nat),
            },
    {
        match self {
            InstrumentCatalogError::DuplicateInstrumentId(id) => {
                let mut m = String::new();
                m.append("duplicate instrument id ");
                push_decimal(&mut m, id.0 as u64);
                m
            },
        }
    }
}

/// The linear weight of an instrument is `abs(p * qty * m)` against its
/// trusted price `p`, where `m` is the contract multiplier held in a future's
/// or perpetual swap's spec and one for equities, spot FX and spot crypto; it
/// is indeterminate with the trust error when the price is not trusted, and
/// with `ArithmeticOverflow` when the weight leaves `i64`. Options are
/// indeterminate.
pub proof fn lemma_weight_uses_contract_multiplier(
    instrument: Instrument,
    qty: Qty,
    market: MarketSnapshotView,
    now: Timestamp,
)
    ensures
        instrument is Option ==> instrument.weight_spec(qty, market, now) == RiskWeight::Indeterminate(
            IndeterminateReason::UnsupportedOption,
        ),
        !(instrument is Option) ==> ({
            let id = match instrument {
                Instrument::Equity(s) => s.instrument_id,
                Instrument::SpotFx(s) => s.instrument_id,
                Instrument::SpotCrypto(s) => s.instrument_id,
                Instrument::Future(s) => s.instrument_id,
                Instrument::Perp(s) => s.instrument_id,
                Instrument::Option(s) => s.instrument_id,
            };
            let m: int = match instrument {
                Instrument::Future(s) => s.multiplier as int,
                Instrument::Perp(s) => s.multiplier as int,
                _ => 1,
            };
            let w = instrument.weight_spec(qty, market, now);
            match market.trusted_price(id, now) {
                Err(reason) => w == RiskWeight::Indeterminate(reason),
                Ok(p) => {
                    let v = p.0 as int * qty.0 as int * m;
                    let a = if v < 0 {
                        -v
                    } else {
                        v
                    };
                    &&& a <= i64::MAX ==> w == RiskWeight::Linear(Notional(a as i64))
                    &&& a > i64::MAX ==> w == RiskWeight::Indeterminate(
                        IndeterminateReason::ArithmeticOverflow,
                    )
                },
            }
        }),
{
}

} // verus!
