//! A bounded first-in, first-out history.
//!
//! A [`Queue`] is modelled by the sequence of its items, oldest first, and by
//! its capacity. Pushing onto a full queue evicts the oldest item.

use vstd::prelude::*;

verus! {

/// What a history holding `s`, with room for `cap` items, holds after `v` is
/// pushed: `v` is appended, and the oldest item leaves when there is no room.
/// A history without any room stays as it is.
pub open spec fn pushed<T>(s: Seq<T>, cap: nat, v: T) -> Seq<T> {
    if cap == 0 {
        s
    } else if s.len() < cap {
        s.push(v)
    } else {
        s.subrange(1, s.len() as int).push(v)
    }
}

/// What a history holds after the items of `vs` are pushed one after another,
/// first to last.
pub open spec fn pushed_all<T>(s: Seq<T>, cap: nat, vs: Seq<T>) -> Seq<T>
    decreases vs.len(),
{
    if vs.len() == 0 {
        s
    } else {
        pushed(pushed_all(s, cap, vs.drop_last()), cap, vs.last())
    }
}

/// The newest `n` items of `s`, or all of `s` where it holds fewer.
pub open spec fn newest<T>(s: Seq<T>, n: nat) -> Seq<T> {
    if s.len() <= n {
        s
    } else {
        s.subrange(s.len() - n, s.len() as int)
    }
}

/// A fixed-capacity history: items are kept in the order in which they were
/// pushed, and it never holds more than `capacity()` of them.
pub struct Queue<T> {
    queue: Vec<T>,
    capacity: usize,
}

impl<T> View for Queue<T> {
    type V = Seq<T>;

    closed spec fn view(&self) -> Seq<T> {
        self.queue@
    }
}

impl<T> Queue<T> {
    /// The number of items the history has room for.
    pub closed spec fn capacity(&self) -> nat {
        self.capacity as nat
    }

    /// Validity: the history never holds more items than it has room for.
    /// Every constructor establishes it and `push` preserves it.
    pub open spec fn wf(&self) -> bool {
        self@.len() <= self.capacity()
    }
}

impl<T: Clone> Queue<T> {
    /// An empty history without any room.
    pub fn new() -> (q: Self)
        ensures
            q.wf(),
            q@ == Seq::<T>::empty(),
            q.capacity() == 0,
    {
        Self { queue: Vec::new(), capacity: 0 }
    }

    /// The number of items held.
    pub fn len(&self) -> (n: usize)
        ensures
            n == self@.len(),
    {
        self.queue.len()
    }

    /// An empty history with room for `capacity` items; what `self` held is
    /// dropped.
    pub fn with_capacity(self, capacity: usize) -> (q: Self)
        ensures
            q.wf(),
            q@ == Seq::<T>::empty(),
            q.capacity() == capacity,
    {
        Self { queue: Vec::with_capacity(capacity), capacity }
    }

    /// A full history of the same capacity in which every slot holds a clone
    /// of `value`; what `self` held is dropped.
    pub fn with_default_values(self, value: T) -> (q: Self)
        ensures
            q.wf(),
            q.capacity() == self.capacity(),
            q@.len() == self.capacity(),
            forall|i: int| 0 <= i < q@.len() ==> cloned(value, #[trigger] q@[i]),
    {
        Self { queue: vec![value; self.capacity], capacity: self.capacity }
    }

    /// Records `item` as the newest entry, evicting the oldest one when the
    /// history is full. The capacity never changes.
    pub fn push(&mut self, item: T)
        ensures
            old(self).wf() ==> final(self).wf(),
            final(self).capacity() == old(self).capacity(),
            final(self)@ == pushed(old(self)@, old(self).capacity(), item),
    {
        if self.capacity == 0 {
            return ;
        }
        if self.queue.len() < self.capacity {
            self.queue.push(item);
        } else {
            self.queue.remove(0);
            self.queue.push(item);
            assert(self.queue@ =~= old(self).queue@.subrange(1, old(self).queue@.len() as int).push(
                item,
            ));
        }
    }

    /// The items held, oldest first.
    pub fn into_vec(self) -> (items: Vec<T>)
        ensures
            items@ == self@,
    {
        self.queue
    }
}

impl<T: Clone> Clone for Queue<T> {
    /// A history of the same capacity holding a clone of each item, in the
    /// same order.
    fn clone(&self) -> (q: Self)
        ensures
            q.capacity() == self.capacity(),
            q@.len() == self@.len(),
            forall|i: int| 0 <= i < self@.len() ==> cloned(self@[i], #[trigger] q@[i]),
            q.wf() == self.wf(),
    {
        Self { queue: self.queue.clone(), capacity: self.capacity }
    }
}

impl<T> IntoIterator for Queue<T> {
    type Item = T;

    type IntoIter = std::vec::IntoIter<T>;

    /// Hands the items out one by one, oldest first.
    fn into_iter(self) -> (iter: std::vec::IntoIter<T>)
        ensures
            vstd::std_specs::iter::IteratorSpec::remaining(&iter) == self@,
            vstd::std_specs::iter::IteratorSpec::decrease(&iter) is Some,
            vstd::std_specs::iter::IteratorSpec::initial_value_relation(&iter, &iter),
    {
        broadcast use vstd::std_specs::vec::axiom_spec_into_iter;

        self.queue.into_iter()
    }
}

impl<T: Clone> Default for Queue<T> {
    /// An empty history without any room.
    fn default() -> (q: Self)
        ensures
            q.wf(),
            q@ == Seq::<T>::empty(),
            q.capacity() == 0,
    {
        Self::new()
    }
}

/// Pushing never lets a history outgrow its capacity, and where there is any
/// room the pushed item is the newest one afterwards.
pub proof fn lemma_pushed_within_capacity<T>(s: Seq<T>, cap: nat, v: T)
    requires
        s.len() <= cap,
    ensures
        pushed(s, cap, v).len() <= cap,
        cap >= 1 ==> pushed(s, cap, v).last() == v,
        cap >= 1 && s.len() < cap ==> pushed(s, cap, v).len() == s.len() + 1,
{
}

/// One push on the newest `cap` items of `t` gives the newest `cap` items of
/// `t` with the pushed item appended.
pub proof fn lemma_pushed_newest<T>(t: Seq<T>, cap: nat, v: T)
    requires
        cap >= 1,
    ensures
        pushed(newest(t, cap), cap, v) == newest(t.push(v), cap),
{
    assert(pushed(newest(t, cap), cap, v) =~= newest(t.push(v), cap));
}

/// A history with room for at least one item, after any run of pushes, holds
/// the newest `cap` items of what it held before followed by what was pushed.
pub proof fn lemma_pushed_all_is_newest<T>(s: Seq<T>, cap: nat, vs: Seq<T>)
    requires
        cap >= 1,
        s.len() <= cap,
    ensures
        pushed_all(s, cap, vs) == newest(s + vs, cap),
    decreases vs.len(),
{
    if vs.len() == 0 {
        assert(s + vs =~= s);
    } else {
        let t = s + vs.drop_last();
        lemma_pushed_all_is_newest(s, cap, vs.drop_last());
        lemma_pushed_newest(t, cap, vs.last());
        assert(t.push(vs.last()) =~= s + vs);
    }
}

/// Once at least as many items were pushed as the history has room for, it is
/// full and holds exactly the last `cap` pushed items, in the order in which
/// they were pushed; nothing of what it held before is left.
pub proof fn lemma_overflow_keeps_last_pushed<T>(s: Seq<T>, cap: nat, vs: Seq<T>)
    requires
        cap >= 1,
        s.len() <= cap,
        vs.len() >= cap,
    ensures
        pushed_all(s, cap, vs).len() == cap,
        pushed_all(s, cap, vs) == vs.subrange(vs.len() - cap, vs.len() as int),
{
    lemma_pushed_all_is_newest(s, cap, vs);
    assert(newest(s + vs, cap) =~= vs.subrange(vs.len() - cap, vs.len() as int));
}

/// A history filled with copies of `v`, after no more pushes than it has room
/// for, holds the pushed items in order behind the copies of `v` that are
/// left.
pub proof fn lemma_defaults_then_pushes<T>(cap: nat, v: T, vs: Seq<T>)
    requires
        vs.len() <= cap,
    ensures
        pushed_all(Seq::new(cap, |i: int| v), cap, vs) == Seq::new(
            (cap - vs.len()) as nat,
            |i: int| v,
        ) + vs,
{
    let filled = Seq::new(cap, |i: int| v);
    if cap == 0 {
        lemma_no_room_changes_nothing(filled, vs);
        assert(filled =~= Seq::new((cap - vs.len()) as nat, |i: int| v) + vs);
    } else {
        lemma_pushed_all_is_newest(filled, cap, vs);
        assert(newest(filled + vs, cap) =~= Seq::new((cap - vs.len()) as nat, |i: int| v) + vs);
    }
}

/// A history without any room stays as it is, whatever is pushed.
pub proof fn lemma_no_room_changes_nothing<T>(s: Seq<T>, vs: Seq<T>)
    ensures
        pushed_all(s, 0, vs) == s,
    decreases vs.len(),
{
    if vs.len() > 0 {
        lemma_no_room_changes_nothing(s, vs.drop_last());
    }
}

} // verus!
