//! A double-ended queue that holds each value at most once.
use vstd::prelude::*;
use vstd::laws_eq::obeys_concrete_eq;

verus! {

/// A double-ended queue that ignores a value it already holds.
#[derive(Debug)]
pub struct HashedDeque<T> {
    list: Vec<T>,
}

impl<T> View for HashedDeque<T> {
    type V = Seq<T>;

    /// The values, front first.
    closed spec fn view(&self) -> Seq<T> {
        self.list@
    }
}

impl<T: PartialEq> HashedDeque<T> {
    /// An empty queue.
    pub fn new() -> (r: Self)
        ensures
            r@ == Seq::<T>::empty(),
            r@.no_duplicates(),
    {
        HashedDeque { list: Vec::new() }
    }

    /// Adds `value` at the back unless the queue holds it.
    pub fn push_back(&mut self, value: T)
        requires
            obeys_concrete_eq::<T>(),
            old(self)@.no_duplicates(),
        ensures
            final(self)@ == if old(self)@.contains(value) {
                old(self)@
            } else {
                old(self)@.push(value)
            },
            final(self)@.no_duplicates(),
    {
        if !self.contains(&value) {
            self.list.push(value);
        }
    }

    /// Adds `value` at the front unless the queue holds it.
    pub fn push_front(&mut self, value: T)
        requires
            obeys_concrete_eq::<T>(),
            old(self)@.no_duplicates(),
        ensures
            final(self)@ == if old(self)@.contains(value) {
                old(self)@
            } else {
                seq![value] + old(self)@
            },
            final(self)@.no_duplicates(),
    {
        if !self.contains(&value) {
            self.list.insert(0, value);
            assert(self.list@ =~= seq![value] + old(self)@);
        }
    }

    /// Takes the value at the back; `None` when the queue is empty.
    pub fn pop_back(&mut self) -> (r: Option<T>)
        requires
            old(self)@.no_duplicates(),
        ensures
            old(self)@.len() == 0 ==> r is None && final(self)@ == old(self)@,
            old(self)@.len() > 0 ==> r == Some(old(self)@.last()) && final(self)@
                == old(self)@.drop_last(),
            final(self)@.no_duplicates(),
    {
        let value: Option<T> = self.list.pop();
        value
    }

    /// Takes the value at the front; `None` when the queue is empty.
    pub fn pop_front(&mut self) -> (r: Option<T>)
        requires
            old(self)@.no_duplicates(),
        ensures
            old(self)@.len() == 0 ==> r is None && final(self)@ == old(self)@,
            old(self)@.len() > 0 ==> r == Some(old(self)@[0]) && final(self)@
                == old(self)@.drop_first(),
            final(self)@.no_duplicates(),
    {
        if self.list.len() == 0 {
            return None;
        }
        let value: T = self.list.remove(0);
        assert(self.list@ =~= old(self)@.drop_first());
        Some(value)
    }

    /// True when the queue holds `value`.
    pub fn contains(&self, value: &T) -> (r: bool)
        requires
            obeys_concrete_eq::<T>(),
        ensures
            r == self@.contains(*value),
    {
        proof {
            reveal(obeys_concrete_eq);
        }
        let mut i: usize = 0;
        while i < self.list.len()
            invariant
                i <= self.list@.len(),
                obeys_concrete_eq::<T>(),
                forall|j: int| 0 <= j < i ==> self.list@[j] != *value,
            decreases self.list@.len() - i,
        {
            proof {
                reveal(obeys_concrete_eq);
            }
            if self.list[i] == *value {
                return true;
            }
            i = i + 1;
        }
        false
    }

    /// The number of values.
    pub fn len(&self) -> (r: usize)
        ensures
            r == self@.len(),
    {
        self.list.len()
    }

    /// Moves the values of `other`, front first, to the back of this queue;
    /// those this queue holds already are dropped.
    pub fn append(&mut self, other: &mut HashedDeque<T>)
        requires
            obeys_concrete_eq::<T>(),
            old(self)@.no_duplicates(),
            old(other)@.no_duplicates(),
        ensures
            final(other)@ == Seq::<T>::empty(),
            final(self)@ == append_spec(old(self)@, old(other)@),
            final(self)@.no_duplicates(),
    {
        let ghost start = self@;
        let ghost items = other@;
        let ghost mut taken: nat = 0;
        loop
            invariant
                obeys_concrete_eq::<T>(),
                self@.no_duplicates(),
                other@.no_duplicates(),
                taken <= items.len(),
                other@ == items.skip(taken as int),
                self@ == append_spec(start, items.take(taken as int)),
            ensures
                other@ == Seq::<T>::empty(),
                self@ == append_spec(start, items),
            decreases items.len() - taken,
        {
            let value: Option<T> = other.pop_front();
            match value {
                Some(v) => {
                    proof {
                        assert(items.take(taken as int + 1).drop_last() =~= items.take(taken as int));
                        assert(items.take(taken as int + 1).last() == v);
                        assert(items.skip(taken as int).drop_first() =~= items.skip(taken as int + 1));
                        taken = taken + 1;
                    }
                    self.push_back(v);
                },
                None => {
                    assert(items.take(taken as int) =~= items);
                    break;
                },
            }
        }
    }
}

/// The values of `a` followed by those of `b` that are not already there,
/// as repeated `push_back` gives them.
pub open spec fn append_spec<T>(a: Seq<T>, b: Seq<T>) -> Seq<T>
    decreases b.len(),
{
    if b.len() == 0 {
        a
    } else {
        let prev = append_spec(a, b.drop_last());
        if prev.contains(b.last()) {
            prev
        } else {
            prev.push(b.last())
        }
    }
}

} // verus!
