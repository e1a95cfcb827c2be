//! String-keyed parameters of an event.

use vstd::prelude::*;
use vstd::string::*;

verus! {

/// The map that a list of pairs denotes: each pair binds its name, and a
/// later pair replaces an earlier one of the same name.
pub open spec fn pairs_map(pairs: Seq<(Seq<char>, Seq<char>)>) -> Map<Seq<char>, Seq<char>>
    decreases pairs.len(),
{
    if pairs.len() == 0 {
        Map::empty()
    } else {
        pairs_map(pairs.drop_last()).insert(pairs.last().0, pairs.last().1)
    }
}

/// A name is bound by the map of a list exactly if some pair has it, and
/// where no name occurs twice every pair's name is bound to the pair's value.
pub proof fn lemma_pairs_map(pairs: Seq<(Seq<char>, Seq<char>)>)
    ensures
        forall|name: Seq<char>| #[trigger]
            pairs_map(pairs).contains_key(name) <==> exists|i: int|
                0 <= i < pairs.len() && #[trigger] pairs[i].0 == name,
        (forall|i: int, j: int| 0 <= i < j < pairs.len() ==> pairs[i].0 != pairs[j].0)
            ==> forall|i: int|
            0 <= i < pairs.len() ==> pairs_map(pairs)[#[trigger] pairs[i].0] == pairs[i].1,
    decreases pairs.len(),
{
    if pairs.len() > 0 {
        let front = pairs.drop_last();
        lemma_pairs_map(front);
        assert forall|name: Seq<char>| #[trigger]
            pairs_map(pairs).contains_key(name) implies exists|i: int|
            0 <= i < pairs.len() && #[trigger] pairs[i].0 == name by {
            if name == pairs.last().0 {
                assert(pairs[pairs.len() - 1].0 == name);
            } else {
                assert(pairs_map(front).contains_key(name));
                let i = choose|i: int| 0 <= i < front.len() && #[trigger] front[i].0 == name;
                assert(pairs[i].0 == name);
            }
        }
        assert forall|name: Seq<char>|
            (exists|i: int| 0 <= i < pairs.len() && #[trigger] pairs[i].0 == name) implies #[trigger]
            pairs_map(pairs).contains_key(name) by {
            let i = choose|i: int| 0 <= i < pairs.len() && #[trigger] pairs[i].0 == name;
            if i < pairs.len() - 1 {
                assert(front[i].0 == name);
                assert(pairs_map(front).contains_key(name));
            } else {
                assert(pairs.last().0 == name);
            }
        }
        if forall|i: int, j: int| 0 <= i < j < pairs.len() ==> pairs[i].0 != pairs[j].0 {
            assert forall|i: int| 0 <= i < pairs.len() implies pairs_map(pairs)[#[trigger] pairs[i].0]
                == pairs[i].1 by {
                if i < pairs.len() - 1 {
                    assert(front[i] == pairs[i]);
                    assert(pairs[i].0 != pairs[pairs.len() - 1].0);
                    assert forall|a: int, b: int| 0 <= a < b < front.len() implies front[a].0
                        != front[b].0 by {
                        assert(front[a] == pairs[a] && front[b] == pairs[b]);
                    }
                }
            }
        }
    }
}

/// The parameters of an event: values by name.
///
/// Kept as the list of the bindings made, oldest first. A name bound again
/// takes the new value, as in a hash map.
#[derive(Clone, Debug)]
pub struct Params {
    entries: Vec<(String, String)>,
}

impl View for Params {
    type V = Map<Seq<char>, Seq<char>>;

    open spec fn view(&self) -> Map<Seq<char>, Seq<char>> {
        pairs_map(self.pairs())
    }
}

impl Params {
    /// The bindings made, oldest first.
    pub closed spec fn pairs(&self) -> Seq<(Seq<char>, Seq<char>)> {
        Seq::new(self.entries@.len(), |i: int| (self.entries@[i].0@, self.entries@[i].1@))
    }

    /// No parameters.
    pub fn new() -> (params: Params)
        ensures
            params@ == Map::<Seq<char>, Seq<char>>::empty(),
            params.pairs() == Seq::<(Seq<char>, Seq<char>)>::empty(),
    {
        let params = Params { entries: Vec::new() };
        assert(params.pairs() =~= Seq::empty());
        params
    }

    /// Binds `name` to `value`, in place of what it was bound to.
    pub fn insert(&mut self, name: String, value: String)
        ensures
            final(self)@ == old(self)@.insert(name@, value@),
            final(self).pairs() == old(self).pairs().push((name@, value@)),
    {
        let ghost before = self.pairs();
        let ghost pair = (name@, value@);
        self.entries.push((name, value));
        assert(self.pairs() =~= before.push(pair));
        assert(self.pairs().drop_last() =~= before);
    }

    /// The number of bindings made.
    pub fn count(&self) -> (n: usize)
        ensures
            n == self.pairs().len(),
    {
        self.entries.len()
    }

    /// The `i`-th binding made: its name and its value.
    pub fn entry(&self, i: usize) -> (pair: (&String, &String))
        requires
            i < self.pairs().len(),
        ensures
            (pair.0@, pair.1@) == self.pairs()[i as int],
    {
        (&self.entries[i].0, &self.entries[i].1)
    }

    /// The value that `name` is bound to.
    pub fn get(&self, name: &str) -> (value: Option<&String>)
        ensures
            match value {
                Some(text) => self@.contains_key(name@) && self@[name@] == text@,
                None => !self@.contains_key(name@),
            },
    {
        let wanted = String::from_str(name);
        let mut i: usize = self.entries.len();
        while i > 0
            invariant
                i <= self.entries@.len(),
                wanted@ == name@,
                forall|j: int| i <= j < self.entries@.len() ==> self.pairs()[j].0 != name@,
            decreases i,
        {
            i = i - 1;
            if self.entries[i].0 == wanted {
                proof {
                    self.lemma_found(i as int);
                }
                return Some(&self.entries[i].1);
            }
        }
        proof {
            lemma_pairs_map(self.pairs());
        }
        None
    }

    /// A binding that no later binding of the same name follows is the one
    /// the view shows.
    proof fn lemma_found(&self, i: int)
        requires
            0 <= i < self.pairs().len(),
            forall|j: int| i < j < self.pairs().len() ==> self.pairs()[j].0 != self.pairs()[i].0,
        ensures
            self@.contains_key(self.pairs()[i].0),
            self@[self.pairs()[i].0] == self.pairs()[i].1,
    {
        lemma_last_binding(self.pairs(), i);
    }

    /// A copy with the same bindings. Unlike `clone`, its result is known to
    /// the verifier.
    pub fn duplicate(&self) -> (copy: Params)
        ensures
            copy@ == self@,
            copy.pairs() == self.pairs(),
    {
        let mut entries: Vec<(String, String)> = Vec::new();
        let mut i: usize = 0;
        while i < self.entries.len()
            invariant
                i <= self.entries@.len(),
                entries@.len() == i,
                forall|j: int|
                    0 <= j < i ==> entries@[j].0@ == self.entries@[j].0@ && entries@[j].1@
                        == self.entries@[j].1@,
            decreases self.entries@.len() - i,
        {
            entries.push((self.entries[i].0.clone(), self.entries[i].1.clone()));
            i = i + 1;
        }
        let copy = Params { entries };
        assert(copy.pairs() =~= self.pairs());
        copy
    }
}

/// In the map of a list, a pair that no later pair of the same name follows
/// binds its name to its value.
pub proof fn lemma_last_binding(pairs: Seq<(Seq<char>, Seq<char>)>, i: int)
    requires
        0 <= i < pairs.len(),
        forall|j: int| i < j < pairs.len() ==> pairs[j].0 != pairs[i].0,
    ensures
        pairs_map(pairs).contains_key(pairs[i].0),
        pairs_map(pairs)[pairs[i].0] == pairs[i].1,
    decreases pairs.len(),
{
    if i < pairs.len() - 1 {
        let front = pairs.drop_last();
        assert(front[i] == pairs[i]);
        lemma_last_binding(front, i);
    }
}

} // verus!
