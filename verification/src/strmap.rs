use vstd::prelude::*;

verus! {

/// An ordered list of string key/value pairs, read as a map in which a later
/// pair with the same key overrides an earlier one. It carries the macros of
/// one backend operation and the free-form options of a dependency.
#[derive(Debug, Clone, PartialEq)]
pub struct StringMap {
    pub pairs: Vec<(String, String)>,
}

/// The map described by a sequence of key/value pairs: a later pair with the
/// same key overrides an earlier one.
pub open spec fn map_of_pairs(pairs: Seq<(String, String)>) -> Map<Seq<char>, Seq<char>>
    decreases pairs.len(),
{
    if pairs.len() == 0 {
        Map::empty()
    } else {
        map_of_pairs(pairs.drop_last()).insert(pairs.last().0@, pairs.last().1@)
    }
}

impl View for StringMap {
    type V = Map<Seq<char>, Seq<char>>;

    open spec fn view(&self) -> Map<Seq<char>, Seq<char>> {
        map_of_pairs(self.pairs@)
    }
}

impl StringMap {
    pub fn new() -> (r: StringMap)
        ensures
            r@ == Map::<Seq<char>, Seq<char>>::empty(),
            r.pairs@ == Seq::<(String, String)>::empty(),
    {
        StringMap { pairs: Vec::new() }
    }

    /// Binds `key` to `value`, overriding any earlier binding of `key`.
    pub fn insert(&mut self, key: String, value: String)
        ensures
            final(self)@ == old(self)@.insert(key@, value@),
            final(self).pairs@ == old(self).pairs@.push((key, value)),
    {
        self.pairs.push((key, value));
        proof {
            assert(self.pairs@.drop_last() =~= old(self).pairs@);
        }
    }

    /// A copy with the same pairs, pair for pair.
    pub fn duplicate(&self) -> (r: StringMap)
        ensures
            r.pairs@ == self.pairs@,
            r@ == self@,
    {
        let mut pairs: Vec<(String, String)> = Vec::new();
        let n = self.pairs.len();
        for i in 0..n
            invariant
                n == self.pairs@.len(),
                pairs@.len() == i,
                forall|j: int| 0 <= j < i ==> pairs@[j] == self.pairs@[j],
        {
            pairs.push((self.pairs[i].0.clone(), self.pairs[i].1.clone()));
        }
        proof {
            assert(pairs@ =~= self.pairs@);
        }
        StringMap { pairs }
    }

    pub fn len(&self) -> (n: usize)
        ensures
            n == self.pairs@.len(),
    {
        self.pairs.len()
    }
}

} // verus!
