//! Startup-only symbol registry.
use vstd::prelude::*;

use crate::types::InstrumentId;
use crate::verdict::IndeterminateReason;

verus! {

/// External venue symbol, used only outside the pretrade hot path.
#[derive(Debug, PartialEq, Eq, Hash)]
pub struct SymbolKey {
    /// Venue/exchange identifier, e.g. `XNYS`.
    pub venue: String,
    /// Instrument symbol in venue format.
    pub symbol: String,
}

impl View for SymbolKey {
    type V = (Seq<char>, Seq<char>);

    open spec fn view(&self) -> (Seq<char>, Seq<char>) {
        (self.venue@, self.symbol@)
    }
}

impl Clone for SymbolKey {
    fn clone(&self) -> (k: Self)
        ensures
            k@ == self@,
    {
        SymbolKey { venue: self.venue.clone(), symbol: self.symbol.clone() }
    }
}

impl SymbolKey {
    /// Whether two keys name the same venue and symbol.
    pub fn same_as(&self, other: &SymbolKey) -> (b: bool)
        ensures
            b == (self@ == other@),
    {
        self.venue == other.venue && self.symbol == other.symbol
    }
}

/// Symbol-to-instrument registry built before order evaluation starts.
///
/// Slot `i` holds the symbol registered for instrument id `i`, if any.
#[derive(Debug)]
pub struct SymbolRegistry {
    by_id: Vec<Option<SymbolKey>>,
}

/// Whether `symbols` maps some instrument id to `key`.
pub open spec fn is_registered(symbols: Map<u32, (Seq<char>, Seq<char>)>, key: (Seq<char>, Seq<char>)) -> bool {
    exists|id: u32| #[trigger] symbols.contains_key(id) && symbols[id] == key
}

/// No two instrument ids share a symbol.
pub open spec fn symbols_injective(symbols: Map<u32, (Seq<char>, Seq<char>)>) -> bool {
    forall|a: u32, b: u32|
        #[trigger] symbols.contains_key(a) && #[trigger] symbols.contains_key(b) && symbols[a]
            == symbols[b] ==> a == b
}

/// Read after write: registering a new symbol under a free id keeps
/// symbols unshared, and afterwards the symbol is registered under exactly
/// that id (so `resolve` returns it and `symbol_for` returns the symbol).
pub proof fn lemma_register_then_resolve(
    symbols: Map<u32, (Seq<char>, Seq<char>)>,
    id: u32,
    key: (Seq<char>, Seq<char>),
)
    requires
        symbols_injective(symbols),
        !is_registered(symbols, key),
        !symbols.contains_key(id),
    ensures
        ({
            let after = symbols.insert(id, key);
            &&& symbols_injective(after)
            &&& is_registered(after, key)
            &&& forall|other: u32| #[trigger] after.contains_key(other) && after[other] == key ==> other == id
            &&& after.contains_key(id) && after[id] == key
        }),
{
    let after = symbols.insert(id, key);
    assert forall|a: u32, b: u32|
        #[trigger] after.contains_key(a) && #[trigger] after.contains_key(b) && after[a] == after[b] implies a
        == b by {
        if a != id && b != id {
            assert(symbols.contains_key(a) && symbols.contains_key(b));
        } else if a == id && b != id {
            assert(symbols.contains_key(b) && symbols[b] == key);
        } else if a != id && b == id {
            assert(symbols.contains_key(a) && symbols[a] == key);
        }
    }
    assert(after.contains_key(id) && after[id] == key);
    assert forall|other: u32| #[trigger] after.contains_key(other) && after[other] == key implies other == id by {
        if other != id {
            assert(symbols.contains_key(other) && symbols[other] == key);
        }
    }
}

impl View for SymbolRegistry {
    type V = Map<u32, (Seq<char>, Seq<char>)>;

    /// The symbol registered for each instrument id.
    closed spec fn view(&self) -> Map<u32, (Seq<char>, Seq<char>)> {
        Map::new(
            |id: u32| (id as int) < self.by_id@.len() && self.by_id@[id as int] is Some,
            |id: u32| self.by_id@[id as int]->0@,
        )
    }
}

impl SymbolRegistry {
    #[verifier::type_invariant]
    closed spec fn well_formed(self) -> bool {
        &&& self.by_id@.len() <= u32::MAX as int + 1
        &&& forall|i: int, j: int|
            0 <= i < self.by_id@.len() && 0 <= j < self.by_id@.len() && #[trigger] self.by_id@[i]
                is Some && #[trigger] self.by_id@[j] is Some && self.by_id@[i]->0@
                == self.by_id@[j]->0@ ==> i == j
    }

    proof fn lemma_view_injective(&self)
        requires
            self.well_formed(),
        ensures
            symbols_injective(self@),
    {
        assert forall|a: u32, b: u32|
            #[trigger] self@.contains_key(a) && #[trigger] self@.contains_key(b) && self@[a]
                == self@[b] implies a == b by {
            assert(self.by_id@[a as int] is Some);
            assert(self.by_id@[b as int] is Some);
        }
    }

    /// Creates an empty registry.
    pub fn new() -> (r: Self)
        ensures
            r@ == Map::<u32, (Seq<char>, Seq<char>)>::empty(),
    {
        let r = SymbolRegistry { by_id: Vec::new() };
        assert(r@ =~= Map::<u32, (Seq<char>, Seq<char>)>::empty());
        r
    }

    /// Position of `symbol` in the slots, if it is registered.
    fn find(&self, symbol: &SymbolKey) -> (r: Option<usize>)
        ensures
            match r {
                Some(i) => i < self.by_id@.len() && self.by_id@[i as int] is Some
                    && self.by_id@[i as int]->0@ == symbol@,
                None => forall|i: int|
                    0 <= i < self.by_id@.len() && #[trigger] self.by_id@[i] is Some
                        ==> self.by_id@[i]->0@ != symbol@,
            },
    {
        let n = self.by_id.len();
        let mut i: usize = 0;
        while i < n
            invariant
                n == self.by_id@.len(),
                i <= n,
                forall|j: int|
                    0 <= j < i && #[trigger] self.by_id@[j] is Some ==> self.by_id@[j]->0@
                        != symbol@,
            decreases n - i,
        {
            match &self.by_id[i] {
                Some(key) => {
                    if key.same_as(symbol) {
                        return Some(i);
                    }
                },
                None => {},
            }
            i = i + 1;
        }
        None
    }

    /// Registers a symbol with an explicit instrument id.
    ///
    /// Fails with `DuplicateSymbol` when the symbol is registered under any
    /// id, then with `IdTooLarge` when the id cannot be given a slot, then
    /// with `DuplicateInstrumentId` when the id already has a symbol.
    pub fn register(&mut self, symbol: SymbolKey, instrument_id: InstrumentId) -> (r: Result<
        (),
        RegisterSymbolError,
    >)
        ensures
            is_registered(old(self)@, symbol@) ==> r == Err::<(), RegisterSymbolError>(
                RegisterSymbolError::DuplicateSymbol,
            ),
            !is_registered(old(self)@, symbol@) && instrument_id.0 as int >= usize::MAX ==> r
                == Err::<(), RegisterSymbolError>(RegisterSymbolError::IdTooLarge),
            !is_registered(old(self)@, symbol@) && (instrument_id.0 as int) < usize::MAX
                && old(self)@.contains_key(instrument_id.0) ==> r == Err::<(), RegisterSymbolError>(
                RegisterSymbolError::DuplicateInstrumentId,
            ),
            r is Err ==> final(self)@ == old(self)@,
            r is Ok <==> (instrument_id.0 as int) < usize::MAX && !is_registered(old(self)@, symbol@)
                && !old(self)@.contains_key(instrument_id.0),
            r is Ok ==> final(self)@ == old(self)@.insert(instrument_id.0, symbol@),
            symbols_injective(final(self)@),
    {
        proof {
            use_type_invariant(&*self);
        }
        proof {
            self.lemma_view_injective();
        }
        if let Some(i) = self.find(&symbol) {
            proof {
                let id = i as u32;
                assert(self@.contains_key(id) && self@[id] == symbol@);
            }
            return Err(RegisterSymbolError::DuplicateSymbol);
        }
        let id_index = instrument_id.0 as usize;
        if id_index == usize::MAX {
            return Err(RegisterSymbolError::IdTooLarge);
        }
        proof {
            assert forall|id: u32| #[trigger] self@.contains_key(id) implies self@[id] != symbol@ by {
                assert(self.by_id@[id as int] is Some);
            }
        }
        if self.by_id.len() <= id_index {
            self.grow_to(id_index + 1);
        }
        if self.by_id[id_index].is_some() {
            return Err(RegisterSymbolError::DuplicateInstrumentId);
        }
        proof {
            use_type_invariant(&*self);
            assert forall|i: int|
                0 <= i < self.by_id@.len() && #[trigger] self.by_id@[i] is Some implies self.by_id@[i]->0@
                != symbol@ by {
                assert(self@.contains_key(i as u32));
            }
        }
        let ghost before = self@;
        self.set_slot(id_index, symbol);
        assert(self@ =~= before.insert(instrument_id.0, symbol@));
        proof {
            use_type_invariant(&*self);
            self.lemma_view_injective();
        }
        Ok(())
    }

    /// Pads the slots with empty entries up to `len`.
    fn grow_to(&mut self, len: usize)
        requires
            old(self).by_id@.len() < len <= u32::MAX as int + 1,
        ensures
            final(self)@ == old(self)@,
            final(self).by_id@.len() == len,
    {
        let ghost before = self@;
        proof {
            use_type_invariant(&*self);
        }
        let mut slots: Vec<Option<SymbolKey>> = Vec::new();
        std::mem::swap(&mut slots, &mut self.by_id);
        let ghost old_slots = slots@;
        while slots.len() < len
            invariant
                len <= u32::MAX as int + 1,
                forall|i: int, j: int|
                    0 <= i < slots@.len() && 0 <= j < slots@.len() && #[trigger] slots@[i] is Some
                        && #[trigger] slots@[j] is Some && slots@[i]->0@ == slots@[j]->0@ ==> i == j,
                old_slots.len() <= slots@.len() <= len,
                forall|i: int| 0 <= i < old_slots.len() ==> slots@[i] == old_slots[i],
                forall|i: int| old_slots.len() <= i < slots@.len() ==> slots@[i] is None,
            decreases len - slots@.len(),
        {
            slots.push(None);
        }
        self.by_id = slots;
        assert(self@ =~= before);
    }

    /// Fills an empty slot.
    fn set_slot(&mut self, index: usize, symbol: SymbolKey)
        requires
            index < old(self).by_id@.len(),
            old(self).by_id@[index as int] is None,
            forall|i: int|
                0 <= i < old(self).by_id@.len() && #[trigger] old(self).by_id@[i] is Some
                    ==> old(self).by_id@[i]->0@ != symbol@,
        ensures
            final(self).by_id@ == old(self).by_id@.update(index as int, Some(symbol)),
    {
        proof {
            use_type_invariant(&*self);
        }
        let mut slots: Vec<Option<SymbolKey>> = Vec::new();
        std::mem::swap(&mut slots, &mut self.by_id);
        slots.set(index, Some(symbol));
        self.by_id = slots;
    }

    /// Resolves an external symbol to a hot-path-safe instrument id.
    pub fn resolve(&self, symbol: &SymbolKey) -> (r: Result<InstrumentId, IndeterminateReason>)
        ensures
            match r {
                Ok(id) => self@.contains_key(id.0) && self@[id.0] == symbol@,
                Err(reason) => reason == IndeterminateReason::UnknownSymbol && !is_registered(
                    self@,
                    symbol@,
                ),
            },
            symbols_injective(self@),
    {
        proof {
            use_type_invariant(self);
            self.lemma_view_injective();
        }
        match self.find(symbol) {
            Some(i) => Ok(InstrumentId(i as u32)),
            None => {
                proof {
                    assert forall|id: u32| #[trigger] self@.contains_key(id) implies self@[id]
                        != symbol@ by {
                        assert(self.by_id@[id as int] is Some);
                    }
                }
                Err(IndeterminateReason::UnknownSymbol)
            },
        }
    }

    /// Returns a symbol for audit/logging outside the hot path.
    pub fn symbol_for(&self, instrument_id: InstrumentId) -> (r: Option<&SymbolKey>)
        ensures
            match r {
                Some(k) => self@.contains_key(instrument_id.0) && self@[instrument_id.0] == k@,
                None => !self@.contains_key(instrument_id.0),
            },
    {
        let id_index = instrument_id.0 as usize;
        if id_index < self.by_id.len() {
            match &self.by_id[id_index] {
                Some(key) => Some(key),
                None => None,
            }
        } else {
            None
        }
    }
}

impl Default for SymbolRegistry {
    fn default() -> (r: Self)
        ensures
            r@ == Map::<u32, (Seq<char>, Seq<char>)>::empty(),
    {
        Self::new()
    }
}

/// Symbol registration error.
#[derive(Debug, Clone, Copy, PartialEq, Eq, Structural)]
pub enum RegisterSymbolError {
    /// Symbol was already registered.
    DuplicateSymbol,
    /// Instrument id was already registered.
    DuplicateInstrumentId,
    /// Instrument id cannot be represented as a local index.
    IdTooLarge,
}

impl RegisterSymbolError {
    /// The message describing the error.
    pub fn message(self) -> (m: &'static str)
        ensures
            m@ == match self {
                RegisterSymbolError::DuplicateSymbol => "symbol is already registered"@,
                RegisterSymbolError::DuplicateInstrumentId => "instrument id is already registered"@,
                RegisterSymbolError::IdTooLarge => "instrument id is too large"@,
            },
    {
        match self {
            RegisterSymbolError::DuplicateSymbol => "symbol is already registered",
            RegisterSymbolError::DuplicateInstrumentId => "instrument id is already registered",
            RegisterSymbolError::IdTooLarge => "instrument id is too large",
        }
    }
}

} // verus!
