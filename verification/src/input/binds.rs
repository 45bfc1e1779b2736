//! Inputs bound to named actions.

use super::{Input, InputView};
use crate::text::array_into_vec;
use vstd::prelude::*;
use vstd::std_specs::convert::FromSpecImpl;
use vstd::utf8::encode_utf8;

verus! {

/// Inputs with the names of the actions they are bound to, in the order in
/// which they were bound.
#[derive(PartialEq, Debug)]
pub struct Binds {
    entries: Vec<(Input, String)>,
}

impl Clone for Binds {
    fn clone(&self) -> (copy: Binds)
        ensures
            copy@ == self@,
    {
        let mut entries: Vec<(Input, String)> = Vec::new();
        let mut i: usize = 0;
        while i < self.entries.len()
            invariant
                i <= self.entries.len(),
                paired(entries@) == paired(self.entries@.take(i as int)),
            decreases self.entries.len() - i,
        {
            let ghost before = entries@;
            entries.push((self.entries[i].0.clone(), self.entries[i].1.clone()));
            assert(paired(entries@) =~= paired(self.entries@.take(i + 1))) by {
                assert(paired(before).len() == i);
                assert forall|j: int| 0 <= j < i + 1 implies paired(entries@)[j] == paired(
                    self.entries@.take(i + 1),
                )[j] by {
                    if j < i {
                        assert(paired(before)[j] == paired(self.entries@.take(i as int))[j]);
                    }
                }
            }
            i += 1;
        }
        assert(self.entries@.take(self.entries.len() as int) =~= self.entries@);
        Binds { entries }
    }
}

/// The hint shown for a list of bindings: for each in turn the input between
/// `<` and `>`, a space, and the action.
pub open spec fn hints(binds: Seq<(InputView, Seq<char>)>) -> Seq<char>
    decreases binds.len(),
{
    if binds.len() == 0 {
        Seq::empty()
    } else {
        hints(binds.drop_last()) + "<"@ + binds.last().0.shown() + "> "@ + binds.last().1
    }
}

/// What a list of inputs and actions holds, pair by pair.
pub open spec fn paired(pairs: Seq<(Input, String)>) -> Seq<(InputView, Seq<char>)> {
    Seq::new(pairs.len(), |i: int| (pairs[i].0@, pairs[i].1@))
}

impl View for Binds {
    type V = Seq<(InputView, Seq<char>)>;

    closed spec fn view(&self) -> Seq<(InputView, Seq<char>)> {
        paired(self.entries@)
    }
}

impl Binds {
    pub fn new() -> (binds: Binds)
        ensures
            binds@ == Seq::<(InputView, Seq<char>)>::empty(),
    {
        let binds = Binds { entries: Vec::new() };
        assert(binds@ =~= Seq::empty());
        binds
    }

    /// The number of bytes of the hint shown for the bindings.
    pub fn len(&self) -> (len: usize)
        ensures
            len == encode_utf8(hints(self@)).len() as usize,
    {
        self.to_string().as_str().len()
    }

    pub fn count(&self) -> (count: usize)
        ensures
            count == self@.len(),
    {
        self.entries.len()
    }

    pub fn is_empty(&self) -> (empty: bool)
        ensures
            empty == (self@.len() == 0),
    {
        self.entries.len() == 0
    }

    pub fn bind(self, input: Input, action: &str) -> (binds: Binds)
        ensures
            binds@ == self@.push((input@, action@)),
    {
        let mut bound = self;
        bound.entries.push((input, String::from_str(action)));
        assert(bound@ =~= self@.push((input@, action@)));
        bound
    }

    pub fn to_string(&self) -> (text: String)
        ensures
            text@ == hints(self@),
    {
        let mut text = String::new();
        let mut i: usize = 0;
        assert(self@.take(0) =~= Seq::empty());
        while i < self.entries.len()
            invariant
                i <= self.entries@.len(),
                text@ == hints(self@.take(i as int)),
            decreases self.entries@.len() - i,
        {
            text.append("<");
            text.append(self.entries[i].0.to_string().as_str());
            text.append("> ");
            text.append(self.entries[i].1.as_str());
            proof {
                let next = self@.take(i + 1);
                assert(next.drop_last() =~= self@.take(i as int));
                assert(next.last() == (self.entries@[i as int].0@, self.entries@[i as int].1@));
            }
            i += 1;
        }
        assert(self@.take(self.entries@.len() as int) =~= self@);
        text
    }
}

impl FromSpecImpl<Vec<(Input, String)>> for Binds {
    open spec fn obeys_from_spec() -> bool {
        false
    }

    open spec fn from_spec(pairs: Vec<(Input, String)>) -> Binds {
        arbitrary()
    }
}

impl From<Vec<(Input, String)>> for Binds {
    fn from(pairs: Vec<(Input, String)>) -> (binds: Binds)
        ensures
            binds@ == paired(pairs@),
    {
        Binds { entries: pairs }
    }
}

impl<const N: usize> FromSpecImpl<[(Input, String); N]> for Binds {
    open spec fn obeys_from_spec() -> bool {
        false
    }

    open spec fn from_spec(pairs: [(Input, String); N]) -> Binds {
        arbitrary()
    }
}

impl<const N: usize> From<[(Input, String); N]> for Binds {
    fn from(pairs: [(Input, String); N]) -> (binds: Binds)
        ensures
            binds@ == paired(pairs@),
    {
        Binds::from(array_into_vec(pairs))
    }
}

} // verus!
