use std::collections::VecDeque;
use vstd::prelude::*;
use crate::candle::Candle;

verus! {

/// The last `n` items of `s`, or all of `s` where it holds no more than `n`.
pub open spec fn tail<T>(s: Seq<T>, n: nat) -> Seq<T> {
    if s.len() <= n {
        s
    } else {
        s.subrange(s.len() - n, s.len() as int)
    }
}

/// A window after a closed bar arrives: the oldest bar leaves a full window,
/// then the new bar joins at the end.
pub open spec fn appended(bars: Seq<Candle>, capacity: nat, bar: Candle) -> Seq<Candle> {
    if bars.len() >= capacity {
        bars.drop_first().push(bar)
    } else {
        bars.push(bar)
    }
}

/// A window after a bar that is still open arrives: the newest bar is
/// overwritten, and an empty window takes the bar as its first.
pub open spec fn replaced_last(bars: Seq<Candle>, bar: Candle) -> Seq<Candle> {
    if bars.len() == 0 {
        seq![bar]
    } else {
        bars.drop_last().push(bar)
    }
}

/// A bounded sequence of bars in chronological order.
pub struct RollingWindow {
    bars: VecDeque<Candle>,
    capacity: usize,
    visible_range: usize,
}

impl View for RollingWindow {
    type V = Seq<Candle>;

    closed spec fn view(&self) -> Seq<Candle> {
        self.bars@
    }
}

impl RollingWindow {
    /// The greatest number of bars retained.
    pub closed spec fn spec_capacity(&self) -> nat {
        self.capacity as nat
    }

    /// The greatest number of bars shown.
    pub closed spec fn spec_visible_range(&self) -> nat {
        self.visible_range as nat
    }

    /// The window never holds more than its capacity, and shows no more than
    /// it retains.
    pub open spec fn wf(&self) -> bool {
        &&& 1 <= self.spec_visible_range() <= self.spec_capacity()
        &&& self@.len() <= self.spec_capacity()
    }

    /// An empty window that retains `capacity` bars and shows `visible_range`.
    pub fn new(capacity: usize, visible_range: usize) -> (w: RollingWindow)
        requires
            1 <= visible_range <= capacity,
        ensures
            w.wf(),
            w@ == Seq::<Candle>::empty(),
            w.spec_capacity() == capacity,
            w.spec_visible_range() == visible_range,
    {
        RollingWindow { bars: VecDeque::new(), capacity, visible_range }
    }

    /// The greatest number of bars retained.
    pub fn capacity(&self) -> (c: usize)
        ensures
            c == self.spec_capacity(),
    {
        self.capacity
    }

    /// The greatest number of bars shown.
    pub fn visible_range(&self) -> (r: usize)
        ensures
            r == self.spec_visible_range(),
    {
        self.visible_range
    }

    /// The number of bars retained now.
    pub fn len(&self) -> (n: usize)
        ensures
            n == self@.len(),
    {
        self.bars.len()
    }

    /// Whether no bar has arrived yet.
    pub fn is_empty(&self) -> (b: bool)
        ensures
            b == (self@.len() == 0),
    {
        self.bars.len() == 0
    }

    /// The bar at `index`, counted from the oldest.
    pub fn get(&self, index: usize) -> (bar: Option<Candle>)
        ensures
            bar == (if index < self@.len() {
                Some(self@[index as int])
            } else {
                None
            }),
    {
        if index < self.bars.len() {
            Some(self.bars[index])
        } else {
            None
        }
    }

    /// The bar at `index`, for an index inside the window.
    pub fn bar(&self, index: usize) -> (bar: Candle)
        requires
            index < self@.len(),
        ensures
            bar == self@[index as int],
    {
        self.bars[index]
    }

    /// Adds a closed bar at the end; a full window first gives up its oldest.
    pub fn append(&mut self, bar: Candle)
        requires
            old(self).wf(),
        ensures
            final(self).wf(),
            final(self).spec_capacity() == old(self).spec_capacity(),
            final(self).spec_visible_range() == old(self).spec_visible_range(),
            final(self)@ == appended(old(self)@, old(self).spec_capacity(), bar),
    {
        if self.bars.len() >= self.capacity {
            let _ = self.bars.pop_front();
        }
        self.bars.push_back(bar);
        assert(self.bars@ =~= appended(old(self)@, old(self).spec_capacity(), bar));
    }

    /// Overwrites the newest bar; an empty window takes the bar as its first.
    pub fn replace_last(&mut self, bar: Candle)
        requires
            old(self).wf(),
        ensures
            final(self).wf(),
            final(self).spec_capacity() == old(self).spec_capacity(),
            final(self).spec_visible_range() == old(self).spec_visible_range(),
            final(self)@ == replaced_last(old(self)@, bar),
    {
        let _ = self.bars.pop_back();
        self.bars.push_back(bar);
        assert(self.bars@ =~= replaced_last(old(self)@, bar));
    }

    /// The bars on screen: the newest `visible_range` of the window, oldest
    /// first.
    pub fn visible_slice(&self) -> (shown: Vec<Candle>)
        ensures
            shown@ == tail(self@, self.spec_visible_range()),
    {
        let n: usize = self.bars.len();
        let start: usize = if n <= self.visible_range {
            0
        } else {
            n - self.visible_range
        };
        let mut shown: Vec<Candle> = Vec::new();
        let mut i: usize = start;
        while i < n
            invariant
                start <= i <= n,
                n == self.bars@.len(),
                shown@ == self.bars@.subrange(start as int, i as int),
            decreases n - i,
        {
            shown.push(self.bars[i]);
            assert(self.bars@.subrange(start as int, i + 1) =~= self.bars@.subrange(
                start as int,
                i as int,
            ).push(self.bars@[i as int]));
            i += 1;
        }
        assert(shown@ =~= tail(self@, self.spec_visible_range()));
        shown
    }
}

} // verus!
