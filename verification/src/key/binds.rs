//! Keys bound to named actions.

use super::Key;
use vstd::prelude::*;
use vstd::std_specs::convert::FromSpecImpl;
use vstd::utf8::encode_utf8;

verus! {

/// Keys with the names of the actions they are bound to, in the order in
/// which they were bound.
#[derive(Clone, Debug)]
pub struct KeyBinds {
    entries: Vec<(Key, String)>,
}

/// The hint shown for a list of bindings: for each in turn a space, the
/// action, a space, and the key between `<` and `>`.
pub open spec fn key_hints(binds: Seq<(Key, Seq<char>)>) -> Seq<char>
    decreases binds.len(),
{
    if binds.len() == 0 {
        Seq::empty()
    } else {
        key_hints(binds.drop_last()) + " "@ + binds.last().1 + " <"@ + binds.last().0.label()
            + ">"@
    }
}

/// What a list of keys and actions holds, pair by pair.
pub open spec fn key_pairs(pairs: Seq<(Key, String)>) -> Seq<(Key, Seq<char>)> {
    Seq::new(pairs.len(), |i: int| (pairs[i].0, pairs[i].1@))
}

/// The position of the first binding of `key`; the number of bindings where
/// there is none.
pub open spec fn first_bind(binds: Seq<(Key, Seq<char>)>, key: Key, from: int) -> int
    decreases binds.len() - from,
{
    if from < 0 || from >= binds.len() {
        binds.len() as int
    } else if binds[from].0 == key {
        from
    } else {
        first_bind(binds, key, from + 1)
    }
}

impl View for KeyBinds {
    type V = Seq<(Key, Seq<char>)>;

    closed spec fn view(&self) -> Seq<(Key, Seq<char>)> {
        key_pairs(self.entries@)
    }
}

impl KeyBinds {
    pub fn new() -> (binds: KeyBinds)
        ensures
            binds@ == Seq::<(Key, Seq<char>)>::empty(),
    {
        let binds = KeyBinds { entries: Vec::new() };
        assert(binds@ =~= Seq::empty());
        binds
    }

    /// The number of bytes of the hint shown for the bindings.
    pub fn len(&self) -> (len: usize)
        ensures
            len == encode_utf8(key_hints(self@)).len() as usize,
    {
        self.to_string().as_str().len()
    }

    pub fn count(&self) -> (count: usize)
        ensures
            count == self@.len(),
    {
        self.entries.len()
    }

    pub fn is_empty(&self) -> (empty: bool)
        ensures
            empty == (self@.len() == 0),
    {
        self.entries.len() == 0
    }

    pub fn add_bind(&mut self, key: Key, action: &str) -> (binds: &mut KeyBinds)
        ensures
            binds@ == old(self)@.push((key, action@)),
            *final(self) == *final(binds),
    {
        self.entries.push((key, String::from_str(action)));
        assert(self@ =~= old(self)@.push((key, action@)));
        self
    }

    /// Takes out the first binding of `key`, if there is one.
    pub fn remove_bind(&mut self, key: Key) -> (binds: &mut KeyBinds)
        ensures
            binds@ == if first_bind(old(self)@, key, 0) < old(self)@.len() {
                old(self)@.remove(first_bind(old(self)@, key, 0))
            } else {
                old(self)@
            },
            *final(self) == *final(binds),
    {
        let mut pos: usize = 0;
        while pos < self.entries.len() && self.entries[pos].0 != key
            invariant
                pos <= self.entries.len(),
                *self == *old(self),
                first_bind(self@, key, 0) == first_bind(self@, key, pos as int),
            decreases self.entries.len() - pos,
        {
            pos += 1;
        }
        if pos < self.entries.len() {
            self.entries.remove(pos);
            assert(self@ =~= old(self)@.remove(pos as int));
        }
        self
    }

    /// Gives no binding to edit, whatever `key` is, and changes nothing.
    pub fn edit_bind(&mut self, key: Key) -> (bind: Option<(&mut Key, &mut String)>)
        ensures
            bind is None,
            *final(self) == *old(self),
    {
        None
    }

    pub fn bind(self, key: Key, action: &str) -> (binds: KeyBinds)
        ensures
            binds@ == self@.push((key, action@)),
    {
        let mut binds = self;
        binds.entries.push((key, String::from_str(action)));
        assert(binds@ =~= self@.push((key, action@)));
        binds
    }

    pub fn to_string(&self) -> (text: String)
        ensures
            text@ == key_hints(self@),
    {
        let mut text = String::new();
        let mut i: usize = 0;
        assert(self@.take(0) =~= Seq::empty());
        while i < self.entries.len()
            invariant
                i <= self.entries@.len(),
                text@ == key_hints(self@.take(i as int)),
            decreases self.entries@.len() - i,
        {
            text.append(" ");
            text.append(self.entries[i].1.as_str());
            text.append(" <");
            text.append(self.entries[i].0.to_string().as_str());
            text.append(">");
            proof {
                let next = self@.take(i + 1);
                assert(next.drop_last() =~= self@.take(i as int));
                assert(next.last() == (self.entries@[i as int].0, self.entries@[i as int].1@));
            }
            i += 1;
        }
        assert(self@.take(self.entries@.len() as int) =~= self@);
        text
    }
}

impl FromSpecImpl<Vec<(Key, String)>> for KeyBinds {
    open spec fn obeys_from_spec() -> bool {
        false
    }

    open spec fn from_spec(pairs: Vec<(Key, String)>) -> KeyBinds {
        arbitrary()
    }
}

impl From<Vec<(Key, String)>> for KeyBinds {
    fn from(pairs: Vec<(Key, String)>) -> (binds: KeyBinds)
        ensures
            binds@ == key_pairs(pairs@),
    {
        KeyBinds { entries: pairs }
    }
}

} // verus!
