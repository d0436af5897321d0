use vstd::prelude::*;

use vstd::hash_map::StringHashMap;

verus! {

/// The process-local price cache: asset identifier to the latest observed
/// price, last write wins. Prices are in fixed integer units chosen by the
/// feed adapter.
pub struct PriceBook {
    prices: StringHashMap<u64>,
}

impl View for PriceBook {
    type V = Map<Seq<char>, u64>;

    closed spec fn view(&self) -> Map<Seq<char>, u64> {
        self.prices@
    }
}

impl PriceBook {
    pub fn new() -> (r: PriceBook)
        ensures
            r@ == Map::<Seq<char>, u64>::empty(),
    {
        PriceBook { prices: StringHashMap::new() }
    }

    /// Records the latest observation for an asset, replacing any earlier one.
    pub fn set(&mut self, asset: &str, price: u64)
        ensures
            final(self)@ == old(self)@.insert(asset@, price),
    {
        self.prices.insert(asset.to_owned(), price);
    }

    /// The latest observed price for an asset, or `None` if no tick for it has
    /// ever been seen.
    pub fn get(&self, asset: &str) -> (r: Option<u64>)
        ensures
            r == (if self@.contains_key(asset@) {
                Some(self@[asset@])
            } else {
                None::<u64>
            }),
    {
        match self.prices.get(asset) {
            Some(p) => Some(*p),
            None => None,
        }
    }
}

} // verus!
