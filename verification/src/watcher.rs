//! Watchers keep the value that the last two samples of a game variable had.
use vstd::prelude::*;

verus! {

/// A value that a watcher can hold: it can be duplicated and compared, both
/// exactly as its view says.
pub trait WatchValue: View + Sized {
    fn duplicate(&self) -> (r: Self)
        ensures
            r@ == self@,
    ;

    fn same(&self, other: &Self) -> (r: bool)
        ensures
            r == (self@ == other@),
    ;
}

impl WatchValue for u8 {
    fn duplicate(&self) -> (r: Self) {
        *self
    }

    fn same(&self, other: &Self) -> (r: bool) {
        *self == *other
    }
}

impl WatchValue for u32 {
    fn duplicate(&self) -> (r: Self) {
        *self
    }

    fn same(&self, other: &Self) -> (r: bool) {
        *self == *other
    }
}

impl WatchValue for u64 {
    fn duplicate(&self) -> (r: Self) {
        *self
    }

    fn same(&self, other: &Self) -> (r: bool) {
        *self == *other
    }
}

impl WatchValue for bool {
    fn duplicate(&self) -> (r: Self) {
        *self
    }

    fn same(&self, other: &Self) -> (r: bool) {
        *self == *other
    }
}

impl WatchValue for String {
    fn duplicate(&self) -> (r: Self) {
        self.clone()
    }

    fn same(&self, other: &Self) -> (r: bool) {
        *self == *other
    }
}

/// The value of a variable at the previous sample and at the latest one.
#[derive(Debug)]
pub struct Pair<T> {
    pub old: T,
    pub current: T,
}

/// What a `Pair` holds, by the views of its two values.
pub struct PairView<V> {
    pub old: V,
    pub current: V,
}

impl<T: View> View for Pair<T> {
    type V = PairView<T::V>;

    open spec fn view(&self) -> PairView<T::V> {
        PairView { old: self.old@, current: self.current@ }
    }
}

impl<T: WatchValue> Pair<T> {
    /// Whether the two samples differ.
    pub fn changed(&self) -> (r: bool)
        ensures
            r == (self@.old != self@.current),
    {
        !self.old.same(&self.current)
    }

    /// Whether the two samples are the same.
    pub fn unchanged(&self) -> (r: bool)
        ensures
            r == (self@.old == self@.current),
    {
        self.old.same(&self.current)
    }

    /// Whether the variable left `value`: it had it and has it no more.
    pub fn changed_from(&self, value: &T) -> (r: bool)
        ensures
            r == (self@.old == value@ && self@.current != value@),
    {
        self.old.same(value) && !self.current.same(value)
    }

    /// Whether the variable took `value`: it did not have it and has it now.
    pub fn changed_to(&self, value: &T) -> (r: bool)
        ensures
            r == (self@.old != value@ && self@.current == value@),
    {
        !self.old.same(value) && self.current.same(value)
    }

    /// Whether the variable had `old` before and has `current` now.
    pub fn changed_from_to(&self, old: &T, current: &T) -> (r: bool)
        ensures
            r == (self@.old == old@ && self@.current == current@),
    {
        self.old.same(old) && self.current.same(current)
    }
}

/// Follows one variable of the game from sample to sample.
#[derive(Debug)]
pub struct Watcher<T> {
    pub pair: Option<Pair<T>>,
}

impl<T: View> View for Watcher<T> {
    type V = Option<PairView<T::V>>;

    open spec fn view(&self) -> Option<PairView<T::V>> {
        match self.pair {
            Some(p) => Some(p@),
            None => None,
        }
    }
}

/// The pair after a sample of `value`: the latest value becomes the old one, and
/// a first sample stands for both.
pub open spec fn next_pair<V>(prev: Option<PairView<V>>, value: V) -> PairView<V> {
    match prev {
        Some(p) => PairView { old: p.current, current: value },
        None => PairView { old: value, current: value },
    }
}

/// What a watcher holds after an update with `value`: a failed sample (`None`)
/// forgets both values.
pub open spec fn updated<V>(prev: Option<PairView<V>>, value: Option<V>) -> Option<PairView<V>> {
    match value {
        Some(v) => Some(next_pair(prev, v)),
        None => None,
    }
}

impl<T: WatchValue> Watcher<T> {
    /// A watcher that has seen no sample.
    pub fn new() -> (w: Self)
        ensures
            w@ == None::<PairView<T::V>>,
    {
        Watcher { pair: None }
    }

    /// Records a sample, or forgets everything when the sample failed.
    pub fn update(&mut self, value: Option<T>)
        ensures
            final(self)@ == updated(old(self)@, match value {
                Some(v) => Some(v@),
                None => None,
            }),
    {
        match value {
            Some(v) => self.update_infallible(v),
            None => {
                self.pair = None;
            },
        }
    }

    /// Records a sample that cannot fail.
    pub fn update_infallible(&mut self, value: T)
        ensures
            final(self)@ == Some(next_pair(old(self)@, value@)),
    {
        let prev = self.pair.take();
        match prev {
            Some(p) => {
                self.pair = Some(Pair { old: p.current, current: value });
            },
            None => {
                let first = value.duplicate();
                self.pair = Some(Pair { old: first, current: value });
            },
        }
    }
}

} // verus!
