//! A bounded history that keeps the most recent items, oldest first: the
//! per-symbol candle store of the bot's state and the indicator histories
//! both keep their last `capacity` entries this way.

use vstd::prelude::*;
use crate::types::same_text;

verus! {

/// Candles kept per symbol in the bot's shared state.
pub const CANDLES_PER_SYMBOL: usize = 100;

/// Entries kept per symbol in each indicator history by default.
pub const DEFAULT_INDICATOR_HISTORY: usize = 100;

/// What a window holds after `item` is appended to `items` under
/// `capacity`: the item goes last, and the oldest entry is dropped when
/// the window would otherwise hold more than `capacity` entries.
pub open spec fn spec_pushed<T>(items: Seq<T>, item: T, capacity: nat) -> Seq<T> {
    if items.len() + 1 > capacity {
        items.push(item).drop_first()
    } else {
        items.push(item)
    }
}

/// Index at which the last `n` entries of a sequence of length `len` start.
pub open spec fn spec_tail_start(len: nat, n: nat) -> nat {
    if len > n {
        (len - n) as nat
    } else {
        0
    }
}

/// The most recent `capacity` of `all` (all of it when it is shorter).
pub open spec fn spec_recent<T>(all: Seq<T>, capacity: nat) -> Seq<T> {
    all.subrange(spec_tail_start(all.len(), capacity) as int, all.len() as int)
}

/// A history of at most `capacity` items, oldest first.
pub struct RollingWindow<T> {
    items: Vec<T>,
    capacity: usize,
}

impl<T> View for RollingWindow<T> {
    type V = Seq<T>;

    closed spec fn view(&self) -> Seq<T> {
        self.items@
    }
}

impl<T> RollingWindow<T> {
    #[verifier::type_invariant]
    spec fn bounded(self) -> bool {
        self.items@.len() <= self.capacity
    }

    /// The most entries the window keeps.
    pub closed spec fn spec_capacity(&self) -> nat {
        self.capacity as nat
    }

    /// An empty window that keeps at most `capacity` items.
    pub fn new(capacity: usize) -> (w: Self)
        ensures
            w@ == Seq::<T>::empty(),
            w.spec_capacity() == capacity,
    {
        RollingWindow { items: Vec::new(), capacity }
    }

    /// The most entries the window keeps.
    pub fn capacity(&self) -> (c: usize)
        ensures
            c == self.spec_capacity(),
    {
        self.capacity
    }

    /// Number of entries held.
    pub fn len(&self) -> (n: usize)
        ensures
            n == self@.len(),
            n <= self.spec_capacity(),
    {
        proof {
            use_type_invariant(self);
        }
        self.items.len()
    }

    /// Whether the window holds nothing.
    pub fn is_empty(&self) -> (b: bool)
        ensures
            b == (self@.len() == 0),
    {
        self.items.len() == 0
    }

    /// Appends `item` as the newest entry, dropping the oldest one when the
    /// window is full.
    pub fn push(&mut self, item: T)
        ensures
            final(self)@ == spec_pushed(old(self)@, item, old(self).spec_capacity()),
            final(self)@ == spec_recent(old(self)@.push(item), old(self).spec_capacity()),
            final(self).spec_capacity() == old(self).spec_capacity(),
            final(self)@.len() <= final(self).spec_capacity(),
    {
        proof {
            use_type_invariant(&*self);
            lemma_push_on_bounded_keeps_recent(self@, item, self.spec_capacity());
        }
        let mut items = Vec::new();
        std::mem::swap(&mut items, &mut self.items);
        items.push(item);
        if items.len() > self.capacity {
            items.remove(0);
        }
        self.items = items;
    }

    /// All entries, oldest first.
    pub fn as_slice(&self) -> (s: &[T])
        ensures
            s@ == self@,
    {
        self.items.as_slice()
    }

    /// The last `n` entries (all of them when fewer are held), oldest first.
    pub fn last_n(&self, n: usize) -> (s: &[T])
        ensures
            s@ == self@.subrange(spec_tail_start(self@.len(), n as nat) as int, self@.len() as int),
    {
        let len = self.items.len();
        let start = if len > n {
            len - n
        } else {
            0
        };
        let (_, tail) = self.items.as_slice().split_at(start);
        tail
    }

    /// The newest entry, if any.
    pub fn last(&self) -> (r: Option<&T>)
        ensures
            self@.len() == 0 ==> r is None,
            self@.len() > 0 ==> r == Some(&self@.last()),
    {
        let len = self.items.len();
        if len == 0 {
            None
        } else {
            Some(&self.items[len - 1])
        }
    }

    /// Removes every entry.
    pub fn clear(&mut self)
        ensures
            final(self)@ == Seq::<T>::empty(),
            final(self).spec_capacity() == old(self).spec_capacity(),
    {
        self.items = Vec::new();
    }
}

/// The most recent part of a history is its last `capacity` entries (all
/// of them when it is shorter), in their order: as many as fit, ending with
/// the newest.
pub proof fn lemma_recent_is_newest_suffix<T>(all: Seq<T>, capacity: nat)
    ensures
        spec_recent(all, capacity).len() == if all.len() <= capacity {
            all.len()
        } else {
            capacity
        },
        forall|i: int|
            0 <= i < spec_recent(all, capacity).len() ==> #[trigger] spec_recent(all, capacity)[i]
                == all[all.len() - spec_recent(all, capacity).len() + i],
{
}

/// A window fed item by item holds exactly the most recent `capacity` items
/// it was given: if it held the recent part of `all`, after one more push it
/// holds the recent part of `all` with the item appended.
pub proof fn lemma_push_keeps_recent<T>(all: Seq<T>, item: T, capacity: nat)
    ensures
        spec_pushed(spec_recent(all, capacity), item, capacity) =~= spec_recent(all.push(item), capacity),
{
    let r = spec_recent(all, capacity);
    let all2 = all.push(item);
    let s1 = spec_tail_start(all.len(), capacity);
    let s2 = spec_tail_start(all2.len(), capacity);
    if r.len() + 1 > capacity {
        assert(r.push(item).drop_first() =~= all2.subrange(s2 as int, all2.len() as int));
    } else {
        assert(r.push(item) =~= all2.subrange(s2 as int, all2.len() as int));
    }
}

/// Pushing onto a window that holds at most `capacity` entries keeps the
/// most recent `capacity` of those entries followed by the new one: the last
/// `min(capacity, k + 1)` of them, for `k` entries held before.
pub proof fn lemma_push_on_bounded_keeps_recent<T>(items: Seq<T>, item: T, capacity: nat)
    requires
        items.len() <= capacity,
    ensures
        spec_pushed(items, item, capacity) =~= spec_recent(items.push(item), capacity),
        spec_pushed(items, item, capacity).len() == if items.len() + 1 <= capacity {
            items.len() + 1
        } else {
            capacity
        },
{
    assert(spec_recent(items, capacity) =~= items);
    lemma_push_keeps_recent(items, item, capacity);
}

/// A symbol's candle store keeps its last `CANDLES_PER_SYMBOL` candles: after
/// one more candle it holds the last `min(CANDLES_PER_SYMBOL, k + 1)` of the
/// `k` candles it held followed by the new one.
pub proof fn lemma_candle_store_keeps_last<T>(candles: Seq<T>, candle: T)
    requires
        candles.len() <= CANDLES_PER_SYMBOL,
    ensures
        spec_pushed(candles, candle, CANDLES_PER_SYMBOL as nat) =~= spec_recent(
            candles.push(candle),
            CANDLES_PER_SYMBOL as nat,
        ),
{
    lemma_push_on_bounded_keeps_recent(candles, candle, CANDLES_PER_SYMBOL as nat);
}

/// One bounded history per symbol: the bot's candle store. Adding to one
/// symbol's history leaves every other symbol's as it was.
pub struct SymbolWindows<T> {
    symbols: Vec<String>,
    windows: Vec<RollingWindow<T>>,
    capacity: usize,
}

impl<T> SymbolWindows<T> {
    /// One history per listed symbol, no symbol listed twice, each keeping
    /// at most `capacity` entries.
    pub closed spec fn wf(&self) -> bool {
        &&& self.symbols@.len() == self.windows@.len()
        &&& forall|i: int, j: int|
            0 <= i < j < self.symbols@.len() ==> #[trigger] self.symbols@[i]@
                != #[trigger] self.symbols@[j]@
        &&& forall|i: int|
            0 <= i < self.windows@.len() ==> #[trigger] self.windows@[i].spec_capacity()
                == self.capacity
    }

    /// Whether the symbol has a history.
    pub closed spec fn spec_has(&self, symbol: Seq<char>) -> bool {
        exists|i: int| 0 <= i < self.symbols@.len() && #[trigger] self.symbols@[i]@ == symbol
    }

    /// Where the symbol's history is kept.
    closed spec fn spec_slot(&self, symbol: Seq<char>) -> int {
        choose|i: int| 0 <= i < self.symbols@.len() && #[trigger] self.symbols@[i]@ == symbol
    }

    /// The entries kept for a symbol, oldest first (none for an unknown
    /// symbol).
    pub closed spec fn spec_entries(&self, symbol: Seq<char>) -> Seq<T> {
        if self.spec_has(symbol) {
            self.windows@[self.spec_slot(symbol)]@
        } else {
            Seq::empty()
        }
    }

    /// The most entries kept per symbol.
    pub closed spec fn spec_capacity(&self) -> nat {
        self.capacity as nat
    }

    /// A store with no symbol, keeping at most `capacity` entries per symbol.
    pub fn new(capacity: usize) -> (w: Self)
        ensures
            w.wf(),
            w.spec_capacity() == capacity,
            forall|s: Seq<char>| w.spec_entries(s) == Seq::<T>::empty(),
    {
        SymbolWindows { symbols: Vec::new(), windows: Vec::new(), capacity }
    }

    /// Index of the symbol's history, if it has one.
    fn find(&self, symbol: &str) -> (r: Option<usize>)
        requires
            self.wf(),
        ensures
            r matches Some(i) ==> i < self.symbols@.len() && self.symbols@[i as int]@ == symbol@,
            r is None ==> !self.spec_has(symbol@),
    {
        let mut i: usize = 0;
        while i < self.symbols.len()
            invariant
                i <= self.symbols@.len(),
                forall|j: int| 0 <= j < i ==> self.symbols@[j]@ != symbol@,
            decreases self.symbols@.len() - i,
        {
            if same_text(self.symbols[i].as_str(), symbol) {
                return Some(i);
            }
            i = i + 1;
        }
        None
    }

    /// Appends `item` to the symbol's history, which keeps the most recent
    /// `capacity` entries: it then holds the last `min(capacity, k + 1)` of
    /// its `k` entries followed by `item`. Every other symbol's history is
    /// unchanged.
    pub fn add(&mut self, symbol: &str, item: T)
        requires
            old(self).wf(),
        ensures
            final(self).wf(),
            final(self).spec_capacity() == old(self).spec_capacity(),
            final(self).spec_entries(symbol@) == spec_recent(
                old(self).spec_entries(symbol@).push(item),
                old(self).spec_capacity(),
            ),
            forall|s: Seq<char>|
                s != symbol@ ==> #[trigger] final(self).spec_entries(s) == old(self).spec_entries(s),
    {
        match self.find(symbol) {
            Some(i) => {
                let mut w = self.windows.remove(i);
                w.push(item);
                self.windows.insert(i, w);
                proof {
                    assert(self.windows@ =~= old(self).windows@.update(i as int, w));
                    assert(self.symbols@ == old(self).symbols@);
                    assert(self.spec_has(symbol@));
                    assert(old(self).spec_has(symbol@));
                    assert(self.spec_slot(symbol@) == i as int);
                    assert forall|s: Seq<char>| s != symbol@ implies #[trigger] self.spec_entries(s)
                        == old(self).spec_entries(s) by {
                        if self.spec_has(s) {
                            let j = self.spec_slot(s);
                            assert(j != i as int);
                        }
                    }
                }
            },
            None => {
                let mut w = RollingWindow::new(self.capacity);
                w.push(item);
                self.symbols.push(symbol.to_owned());
                self.windows.push(w);
                proof {
                    let n = old(self).symbols@.len() as int;
                    assert(self.symbols@[n]@ == symbol@);
                    assert(self.spec_has(symbol@));
                    let k = self.spec_slot(symbol@);
                    if k < n {
                        assert(old(self).symbols@[k] == self.symbols@[k]);
                        assert(old(self).spec_has(symbol@));
                    }
                    assert(k == n);
                    assert(old(self).spec_entries(symbol@) =~= Seq::<T>::empty());
                    assert(Seq::<T>::empty().push(item) =~= seq![item]);
                    assert forall|s: Seq<char>| s != symbol@ implies #[trigger] self.spec_entries(s)
                        == old(self).spec_entries(s) by {
                        if old(self).spec_has(s) {
                            let j = old(self).spec_slot(s);
                            assert(self.symbols@[j] == old(self).symbols@[j]);
                            assert(self.spec_has(s));
                            let k2 = self.spec_slot(s);
                            assert(k2 < n);
                            assert(old(self).symbols@[k2] == self.symbols@[k2]);
                            assert(k2 == j);
                        } else if self.spec_has(s) {
                            let k2 = self.spec_slot(s);
                            assert(k2 < n);
                            assert(old(self).symbols@[k2] == self.symbols@[k2]);
                            assert(old(self).spec_has(s));
                        }
                    }
                }
            },
        }
    }

    /// The symbol's last `n` entries (all of them when fewer are kept),
    /// oldest first; `None` for a symbol with no history.
    pub fn last_n(&self, symbol: &str, n: usize) -> (r: Option<&[T]>)
        requires
            self.wf(),
        ensures
            r is None <==> !self.spec_has(symbol@),
            r matches Some(sl) ==> sl@ == self.spec_entries(symbol@).subrange(
                spec_tail_start(self.spec_entries(symbol@).len(), n as nat) as int,
                self.spec_entries(symbol@).len() as int,
            ),
    {
        match self.find(symbol) {
            Some(i) => {
                proof {
                    assert(self.spec_has(symbol@));
                    assert(self.spec_slot(symbol@) == i as int);
                }
                Some(self.windows[i].last_n(n))
            },
            None => None,
        }
    }

    /// Drops every symbol's history.
    pub fn clear(&mut self)
        ensures
            final(self).wf(),
            final(self).spec_capacity() == old(self).spec_capacity(),
            forall|s: Seq<char>| final(self).spec_entries(s) == Seq::<T>::empty(),
    {
        self.symbols = Vec::new();
        self.windows = Vec::new();
    }
}

} // verus!
