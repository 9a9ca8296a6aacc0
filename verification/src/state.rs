//! The persistent state of the marketplace: its configuration, the treasury
//! and points ledgers, and the registry of parcels.

use vstd::prelude::*;

verus! {

/// A parcel of land: where it lies, what it costs and who owns it.
#[derive(Debug, PartialEq, Eq)]
pub struct Plot {
    pub coordinates: (i32, i32),
    pub price: u128,
    pub owner: String,
}

/// What a [`Plot`] holds, with the owner's address as a sequence of characters.
pub struct PlotView {
    pub coordinates: (i32, i32),
    pub price: u128,
    pub owner: Seq<char>,
}

impl View for Plot {
    type V = PlotView;

    open spec fn view(&self) -> PlotView {
        PlotView { coordinates: self.coordinates, price: self.price, owner: self.owner@ }
    }
}

impl Clone for Plot {
    fn clone(&self) -> (copy: Plot)
        ensures
            copy == *self,
    {
        Plot { coordinates: self.coordinates, price: self.price, owner: self.owner.clone() }
    }
}

/// What the registry knows of one pair of coordinates.
#[derive(Debug, PartialEq, Eq)]
pub enum ParcelState {
    /// Nobody has bought the parcel yet.
    Uninitialized,
    /// The parcel as its last sale left it.
    Owned(Plot),
}

/// The parcels that have been bought at least once, by their coordinates.
///
/// Its view maps the coordinates of each such parcel to the parcel.
pub struct PlotRegistry {
    plots: Vec<Plot>,
}

impl PlotRegistry {
    #[verifier::type_invariant]
    spec fn coordinates_distinct(self) -> bool {
        forall|i: int, j: int|
            0 <= i < j < self.plots@.len() ==> self.plots@[i].coordinates
                != self.plots@[j].coordinates
    }

    spec fn position(self, coordinates: (i32, i32)) -> int {
        choose|i: int| 0 <= i < self.plots@.len() && self.plots@[i].coordinates == coordinates
    }

    pub closed spec fn view(&self) -> Map<(i32, i32), PlotView> {
        Map::new(
            |coordinates: (i32, i32)|
                exists|i: int|
                    0 <= i < self.plots@.len() && self.plots@[i].coordinates == coordinates,
            |coordinates: (i32, i32)| self.plots@[self.position(coordinates)]@,
        )
    }

    proof fn lemma_plot_in_view(self, i: int)
        requires
            self.coordinates_distinct(),
            0 <= i < self.plots@.len(),
        ensures
            self@.contains_key(self.plots@[i].coordinates),
            self@[self.plots@[i].coordinates] == self.plots@[i]@,
    {
        let coordinates = self.plots@[i].coordinates;
        let p = self.position(coordinates);
        assert(0 <= p < self.plots@.len() && self.plots@[p].coordinates == coordinates);
        assert(p == i);
    }

    /// Every parcel is registered under its own coordinates.
    pub proof fn lemma_keyed_by_coordinates(self, coordinates: (i32, i32))
        requires
            self@.contains_key(coordinates),
        ensures
            self@[coordinates].coordinates == coordinates,
    {
        let p = self.position(coordinates);
        assert(0 <= p < self.plots@.len() && self.plots@[p].coordinates == coordinates);
    }

    /// A registry in which no parcel has been bought.
    pub fn new() -> (registry: PlotRegistry)
        ensures
            registry@ == Map::<(i32, i32), PlotView>::empty(),
    {
        let registry = PlotRegistry { plots: Vec::new() };
        assert(registry@ =~= Map::<(i32, i32), PlotView>::empty());
        registry
    }

    fn find(&self, coordinates: (i32, i32)) -> (at: Option<usize>)
        ensures
            match at {
                Some(i) => i < self.plots@.len() && self.plots@[i as int].coordinates
                    == coordinates,
                None => forall|j: int|
                    0 <= j < self.plots@.len() ==> self.plots@[j].coordinates != coordinates,
            },
    {
        let mut i: usize = 0;
        while i < self.plots.len()
            invariant
                i <= self.plots@.len(),
                forall|j: int| 0 <= j < i ==> self.plots@[j].coordinates != coordinates,
            decreases self.plots@.len() - i,
        {
            let here = self.plots[i].coordinates;
            if here.0 == coordinates.0 && here.1 == coordinates.1 {
                return Some(i);
            }
            i = i + 1;
        }
        None
    }

    /// The parcel at `coordinates` as the registry has it.
    pub fn get(&self, coordinates: (i32, i32)) -> (state: ParcelState)
        ensures
            match state {
                ParcelState::Owned(plot) => self@.contains_key(coordinates) && plot@
                    == self@[coordinates],
                ParcelState::Uninitialized => !self@.contains_key(coordinates),
            },
    {
        proof {
            use_type_invariant(self);
        }
        match self.find(coordinates) {
            Some(i) => {
                proof {
                    self.lemma_plot_in_view(i as int);
                }
                ParcelState::Owned(self.plots[i].clone())
            },
            None => ParcelState::Uninitialized,
        }
    }

    /// Registers `plot` under its coordinates, in place of what was there.
    pub fn save(&mut self, plot: Plot)
        ensures
            final(self)@ == old(self)@.insert(plot.coordinates, plot@),
    {
        proof {
            use_type_invariant(&*self);
        }
        let ghost before = *self;
        let ghost key = plot.coordinates;
        let ghost value = plot@;
        let found = self.find(plot.coordinates);
        let mut plots: Vec<Plot> = Vec::new();
        core::mem::swap(&mut self.plots, &mut plots);
        match found {
            Some(i) => {
                plots.set(i, plot);
            },
            None => {
                plots.push(plot);
            },
        }
        assert(forall|j: int|
            0 <= j < before.plots@.len() ==> #[trigger] plots@[j].coordinates
                == before.plots@[j].coordinates);
        assert(forall|j: int|
            0 <= j < before.plots@.len() && before.plots@[j].coordinates != key
                ==> #[trigger] plots@[j] == before.plots@[j]);
        let ghost slot: int = match found {
            Some(i) => i as int,
            None => before.plots@.len() as int,
        };
        assert(0 <= slot < plots@.len() && plots@[slot].coordinates == key && plots@[slot]@
            == value);
        self.plots = plots;
        proof {
            assert(self.coordinates_distinct());
            assert forall|q: (i32, i32)| #[trigger]
                self@.contains_key(q) == before@.insert(key, value).contains_key(q) by {
                if self@.contains_key(q) {
                    let j = choose|j: int|
                        0 <= j < self.plots@.len() && self.plots@[j].coordinates == q;
                    if q != key {
                        assert(0 <= j < before.plots@.len() && before.plots@[j].coordinates == q);
                    }
                }
                if before@.contains_key(q) {
                    let j = choose|j: int|
                        0 <= j < before.plots@.len() && before.plots@[j].coordinates == q;
                    assert(0 <= j < self.plots@.len() && self.plots@[j].coordinates == q);
                }
                if q == key {
                    assert(0 <= slot < self.plots@.len() && self.plots@[slot].coordinates == q);
                }
            }
            assert forall|q: (i32, i32)| self@.contains_key(q) implies #[trigger] self@[q]
                == before@.insert(key, value)[q] by {
                let j = self.position(q);
                assert(0 <= j < self.plots@.len() && self.plots@[j].coordinates == q);
                self.lemma_plot_in_view(j);
                if q != key {
                    assert(0 <= j < before.plots@.len() && before.plots@[j].coordinates == q);
                    before.lemma_plot_in_view(j);
                } else {
                    assert(slot == j);
                }
            }
            assert(self@ =~= before@.insert(key, value));
        }
    }
}

/// One account's balance of reward points.
pub struct PointsEntry {
    holder: String,
    points: u128,
}

/// The points held by each account that has ever bought a parcel.
///
/// Its view is the map from an address to the points recorded for it; an
/// address outside the map's domain has no record.
pub struct PointsLedger {
    entries: Vec<PointsEntry>,
}

impl PointsLedger {
    #[verifier::type_invariant]
    spec fn holders_distinct(self) -> bool {
        forall|i: int, j: int|
            0 <= i < j < self.entries@.len() ==> self.entries@[i].holder@ != self.entries@[j].holder@
    }

    spec fn position(self, holder: Seq<char>) -> int {
        choose|i: int| 0 <= i < self.entries@.len() && self.entries@[i].holder@ == holder
    }

    pub closed spec fn view(&self) -> Map<Seq<char>, u128> {
        Map::new(
            |holder: Seq<char>|
                exists|i: int| 0 <= i < self.entries@.len() && self.entries@[i].holder@ == holder,
            |holder: Seq<char>| self.entries@[self.position(holder)].points,
        )
    }

    proof fn lemma_entry_in_view(self, i: int)
        requires
            self.holders_distinct(),
            0 <= i < self.entries@.len(),
        ensures
            self@.contains_key(self.entries@[i].holder@),
            self@[self.entries@[i].holder@] == self.entries@[i].points,
    {
        let holder = self.entries@[i].holder@;
        let p = self.position(holder);
        assert(0 <= p < self.entries@.len() && self.entries@[p].holder@ == holder);
        assert(p == i);
    }

    /// A ledger without any record.
    pub fn new() -> (ledger: PointsLedger)
        ensures
            ledger@ == Map::<Seq<char>, u128>::empty(),
    {
        let ledger = PointsLedger { entries: Vec::new() };
        assert(ledger@ =~= Map::<Seq<char>, u128>::empty());
        ledger
    }

    fn find(&self, holder: &String) -> (at: Option<usize>)
        ensures
            match at {
                Some(i) => i < self.entries@.len() && self.entries@[i as int].holder@ == holder@,
                None => forall|j: int|
                    0 <= j < self.entries@.len() ==> self.entries@[j].holder@ != holder@,
            },
    {
        let mut i: usize = 0;
        while i < self.entries.len()
            invariant
                i <= self.entries@.len(),
                forall|j: int| 0 <= j < i ==> self.entries@[j].holder@ != holder@,
            decreases self.entries@.len() - i,
        {
            if self.entries[i].holder == *holder {
                return Some(i);
            }
            i = i + 1;
        }
        None
    }

    /// The points recorded for `holder`, or `None` if it has no record.
    pub fn get(&self, holder: &String) -> (points: Option<u128>)
        ensures
            points == if self@.contains_key(holder@) {
                Some(self@[holder@])
            } else {
                None::<u128>
            },
    {
        proof {
            use_type_invariant(self);
        }
        match self.find(holder) {
            Some(i) => {
                proof {
                    self.lemma_entry_in_view(i as int);
                }
                Some(self.entries[i].points)
            },
            None => None,
        }
    }

    /// Records `points` for `holder`, in place of any earlier record.
    pub fn set(&mut self, holder: String, points: u128)
        ensures
            final(self)@ == old(self)@.insert(holder@, points),
    {
        proof {
            use_type_invariant(&*self);
        }
        let ghost before = *self;
        let ghost key = holder@;
        let found = self.find(&holder);
        let mut entries: Vec<PointsEntry> = Vec::new();
        core::mem::swap(&mut self.entries, &mut entries);
        match found {
            Some(i) => {
                entries.set(i, PointsEntry { holder, points });
            },
            None => {
                entries.push(PointsEntry { holder, points });
            },
        }
        assert(forall|j: int|
            0 <= j < before.entries@.len() ==> #[trigger] entries@[j].holder@
                == before.entries@[j].holder@);
        assert(forall|j: int|
            0 <= j < before.entries@.len() && before.entries@[j].holder@ != key
                ==> #[trigger] entries@[j] == before.entries@[j]);
        let ghost slot: int = match found {
            Some(i) => i as int,
            None => before.entries@.len() as int,
        };
        assert(0 <= slot < entries@.len() && entries@[slot].holder@ == key && entries@[slot].points
            == points);
        self.entries = entries;
        proof {
            assert(self.holders_distinct());
            assert forall|q: Seq<char>| #[trigger]
                self@.contains_key(q) == before@.insert(key, points).contains_key(q) by {
                if self@.contains_key(q) {
                    let j = choose|j: int|
                        0 <= j < self.entries@.len() && self.entries@[j].holder@ == q;
                    if q != key {
                        assert(0 <= j < before.entries@.len() && before.entries@[j].holder@ == q);
                    }
                }
                if before@.contains_key(q) {
                    let j = choose|j: int|
                        0 <= j < before.entries@.len() && before.entries@[j].holder@ == q;
                    assert(0 <= j < self.entries@.len() && self.entries@[j].holder@ == q);
                }
                if q == key {
                    assert(0 <= slot < self.entries@.len() && self.entries@[slot].holder@ == q);
                }
            }
            assert forall|q: Seq<char>| self@.contains_key(q) implies #[trigger] self@[q]
                == before@.insert(key, points)[q] by {
                let j = self.position(q);
                assert(0 <= j < self.entries@.len() && self.entries@[j].holder@ == q);
                self.lemma_entry_in_view(j);
                if q != key {
                    assert(0 <= j < before.entries@.len() && before.entries@[j].holder@ == q);
                    before.lemma_entry_in_view(j);
                } else {
                    assert(slot == j);
                }
            }
            assert(self@ =~= before@.insert(key, points));
        }
    }
}

/// Everything the marketplace keeps between calls.
///
/// The four pieces of configuration are `None` until the store has been
/// initialised.
pub struct Store {
    /// The price at which a parcel is listed before its first sale.
    pub initial_price: Option<u128>,
    /// The account that receives the royalty on every sale.
    pub royalty_address: Option<String>,
    /// The balance from which claims are paid.
    pub treasury: Option<u128>,
    /// All the points ever issued; claims do not lower it.
    pub total_points: Option<u128>,
    pub points: PointsLedger,
    pub plots: PlotRegistry,
}

/// The contents of a [`Store`] as mathematical values.
pub struct StoreView {
    pub initial_price: Option<u128>,
    pub royalty_address: Option<Seq<char>>,
    pub treasury: Option<u128>,
    pub total_points: Option<u128>,
    pub points: Map<Seq<char>, u128>,
    pub plots: Map<(i32, i32), PlotView>,
}

impl View for Store {
    type V = StoreView;

    open spec fn view(&self) -> StoreView {
        StoreView {
            initial_price: self.initial_price,
            royalty_address: match self.royalty_address {
                Some(address) => Some(address@),
                None => None,
            },
            treasury: self.treasury,
            total_points: self.total_points,
            points: self.points@,
            plots: self.plots@,
        }
    }
}

impl Store {
    /// A store that has not been initialised and holds no parcel or points.
    pub fn new() -> (store: Store)
        ensures
            store@ == StoreView::empty(),
    {
        Store {
            initial_price: None,
            royalty_address: None,
            treasury: None,
            total_points: None,
            points: PointsLedger::new(),
            plots: PlotRegistry::new(),
        }
    }
}

impl StoreView {
    /// The view of a store that was never initialised.
    pub open spec fn empty() -> StoreView {
        StoreView {
            initial_price: None,
            royalty_address: None,
            treasury: None,
            total_points: None,
            points: Map::empty(),
            plots: Map::empty(),
        }
    }
}

} // verus!
