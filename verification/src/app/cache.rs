//! Values kept under names.

use crate::text::same_text;
use vstd::prelude::*;

verus! {

/// Values kept under names, in the order in which they were added. A name
/// may be added more than once; it then stands for the value added first.
pub struct Cache<T> {
    entries: Vec<(String, Box<T>)>,
}

/// The position of the first of `entries` from `from` on with the name
/// `name`; their number where there is none.
pub open spec fn position<T>(entries: Seq<(Seq<char>, T)>, name: Seq<char>, from: int) -> int
    decreases entries.len() - from,
{
    if from < 0 || from >= entries.len() {
        entries.len() as int
    } else if entries[from].0 == name {
        from
    } else {
        position(entries, name, from + 1)
    }
}

/// The value kept under `name`, where there is one.
pub open spec fn lookup<T>(entries: Seq<(Seq<char>, T)>, name: Seq<char>) -> Option<T> {
    let i = position(entries, name, 0);
    if 0 <= i < entries.len() {
        Some(entries[i].1)
    } else {
        None
    }
}

/// What `position` returns: a position from `from` on with the name, before
/// which no entry from `from` on has it, or the number of entries.
pub proof fn lemma_position<T>(entries: Seq<(Seq<char>, T)>, name: Seq<char>, from: int)
    requires
        0 <= from <= entries.len(),
    ensures
        from <= position(entries, name, from) <= entries.len(),
        position(entries, name, from) < entries.len() ==> entries[position(
            entries,
            name,
            from,
        )].0 == name,
        forall|j: int| from <= j < position(entries, name, from) ==> (#[trigger] entries[j]).0 != name,
    decreases entries.len() - from,
{
    if from < entries.len() && entries[from].0 != name {
        lemma_position(entries, name, from + 1);
    }
}

impl<T> View for Cache<T> {
    type V = Seq<(Seq<char>, T)>;

    closed spec fn view(&self) -> Seq<(Seq<char>, T)> {
        Seq::new(self.entries@.len(), |i: int| (self.entries@[i].0@, *self.entries@[i].1))
    }
}

impl<T> Cache<T> {
    pub fn new() -> (cache: Cache<T>)
        ensures
            cache@ == Seq::<(Seq<char>, T)>::empty(),
    {
        let cache = Cache::<T> { entries: Vec::new() };
        assert(cache@ =~= Seq::empty());
        cache
    }

    fn find(&self, name: &str) -> (i: usize)
        ensures
            i == position(self@, name@, 0),
            i <= self.entries@.len(),
            self@.len() == self.entries@.len(),
    {
        let mut i: usize = 0;
        while i < self.entries.len()
            invariant
                i <= self.entries.len(),
                self@.len() == self.entries@.len(),
                position(self@, name@, 0) == position(self@, name@, i as int),
            decreases self.entries.len() - i,
        {
            if same_text(self.entries[i].0.as_str(), name) {
                return i;
            }
            i += 1;
        }
        i
    }

    /// Keeps `value` under `name`, behind what is kept already.
    pub fn add(&mut self, name: &'static str, value: T)
        ensures
            final(self)@ == old(self)@.push((name@, value)),
    {
        self.entries.push((String::from_str(name), Box::new(value)));
        assert(self@ =~= old(self)@.push((name@, value)));
    }

    /// Takes out the first value kept under `name`, if there is one.
    pub fn remove(&mut self, name: &'static str) -> (value: Option<Box<T>>)
        ensures
            match value {
                Some(v) => lookup(old(self)@, name@) == Some(*v) && final(self)@ == old(
                    self,
                )@.remove(position(old(self)@, name@, 0)),
                None => lookup(old(self)@, name@) is None && final(self)@ == old(self)@,
            },
    {
        let i = self.find(name);
        if i < self.entries.len() {
            let entry = self.entries.remove(i);
            assert(self@ =~= old(self)@.remove(i as int));
            Some(entry.1)
        } else {
            None
        }
    }

    /// The first value kept under `name`, if there is one.
    pub fn get(&self, name: &'static str) -> (value: Option<&T>)
        ensures
            match value {
                Some(v) => lookup(self@, name@) == Some(*v),
                None => lookup(self@, name@) is None,
            },
    {
        let i = self.find(name);
        if i < self.entries.len() {
            Some(&*self.entries[i].1)
        } else {
            None
        }
    }

    /// The first value kept under `name`, to be changed in its place.
    pub fn get_mut(&mut self, name: &'static str) -> (value: Option<&mut T>)
        ensures
            match value {
                Some(v) => lookup(old(self)@, name@) == Some(*v) && final(self)@ == old(
                    self,
                )@.update(position(old(self)@, name@, 0), (name@, *final(v))),
                None => lookup(old(self)@, name@) is None && final(self)@ == old(self)@,
            },
    {
        let i = self.find(name);
        proof {
            lemma_position(self@, name@, 0);
        }
        if i < self.entries.len() {
            Some(&mut *self.entries[i].1)
        } else {
            None
        }
    }

    /// Puts `value` in the place of the first value kept under `name`, if
    /// there is one.
    pub fn set(&mut self, name: &'static str, value: T) -> (done: Option<()>)
        ensures
            match done {
                Some(_) => lookup(old(self)@, name@) is Some && final(self)@ == old(self)@.update(
                    position(old(self)@, name@, 0),
                    (name@, value),
                ),
                None => lookup(old(self)@, name@) is None && final(self)@ == old(self)@,
            },
    {
        let i = self.find(name);
        proof {
            lemma_position(self@, name@, 0);
        }
        if i < self.entries.len() {
            self.entries[i].1 = Box::new(value);
            assert(self@ =~= old(self)@.update(i as int, (name@, value)));
            Some(())
        } else {
            None
        }
    }
}

impl<T> Cache<T> where T: Clone + Copy {
    /// A copy of the first value kept under `name`, if there is one.
    pub fn value(&self, name: &'static str) -> (value: Option<T>)
        ensures
            value == lookup(self@, name@),
    {
        let i = self.find(name);
        if i < self.entries.len() {
            Some(*self.entries[i].1)
        } else {
            None
        }
    }
}

} // verus!
