//! A map from attribute names to attribute values, kept as a list of pairs whose
//! names are distinct.
use vstd::prelude::*;

verus! {

/// The character sequences of name/value pairs.
pub open spec fn pair_texts(pairs: Seq<(String, String)>) -> Seq<(Seq<char>, Seq<char>)> {
    pairs.map_values(|p: (String, String)| (p.0@, p.1@))
}

/// The map that a list of pairs describes; a later pair overrides an earlier one.
pub open spec fn pairs_map(pairs: Seq<(Seq<char>, Seq<char>)>) -> Map<Seq<char>, Seq<char>>
    decreases pairs.len(),
{
    if pairs.len() == 0 {
        Map::empty()
    } else {
        pairs_map(pairs.drop_last()).insert(pairs.last().0, pairs.last().1)
    }
}

/// No name occurs twice.
pub open spec fn distinct_names(pairs: Seq<(Seq<char>, Seq<char>)>) -> bool {
    forall|i: int, j: int| 0 <= i < j < pairs.len() ==> pairs[i].0 != pairs[j].0
}

/// A name is in the map exactly when some pair has it.
pub proof fn lemma_pairs_map_dom(pairs: Seq<(Seq<char>, Seq<char>)>, name: Seq<char>)
    ensures
        pairs_map(pairs).dom().contains(name) <==> exists|i: int| 0 <= i < pairs.len() && pairs[i].0 == name,
    decreases pairs.len(),
{
    if pairs.len() > 0 {
        let init = pairs.drop_last();
        lemma_pairs_map_dom(init, name);
        if pairs_map(pairs).dom().contains(name) && name != pairs.last().0 {
            let i = choose|i: int| 0 <= i < init.len() && init[i].0 == name;
            assert(pairs[i].0 == name);
        }
        if exists|i: int| 0 <= i < pairs.len() && pairs[i].0 == name {
            let i = choose|i: int| 0 <= i < pairs.len() && pairs[i].0 == name;
            if i < pairs.len() - 1 {
                assert(init[i].0 == name);
            }
        }
    }
}

/// With distinct names, each pair's value is what the map holds for its name.
pub proof fn lemma_pairs_map_value(pairs: Seq<(Seq<char>, Seq<char>)>, i: int)
    requires
        distinct_names(pairs),
        0 <= i < pairs.len(),
    ensures
        pairs_map(pairs).dom().contains(pairs[i].0),
        pairs_map(pairs)[pairs[i].0] == pairs[i].1,
    decreases pairs.len(),
{
    let init = pairs.drop_last();
    if i < pairs.len() - 1 {
        assert(init[i] == pairs[i]);
        lemma_pairs_map_value(init, i);
    }
}

/// The map of a list of pairs is finite.
pub proof fn lemma_pairs_map_finite(pairs: Seq<(Seq<char>, Seq<char>)>)
    ensures
        pairs_map(pairs).dom().finite(),
    decreases pairs.len(),
{
    if pairs.len() > 0 {
        lemma_pairs_map_finite(pairs.drop_last());
    }
}

/// Replacing the value of a pair is inserting into the map.
proof fn lemma_pairs_map_update(pairs: Seq<(Seq<char>, Seq<char>)>, i: int, value: Seq<char>)
    requires
        distinct_names(pairs),
        0 <= i < pairs.len(),
    ensures
        pairs_map(pairs.update(i, (pairs[i].0, value))) == pairs_map(pairs).insert(pairs[i].0, value),
    decreases pairs.len(),
{
    let name = pairs[i].0;
    let updated = pairs.update(i, (name, value));
    if i == pairs.len() - 1 {
        assert(updated.drop_last() =~= pairs.drop_last());
        assert forall|k: Seq<char>| true implies #[trigger] pairs_map(pairs).insert(name, value).contains_key(k)
            == pairs_map(updated).contains_key(k) by {}
        assert(pairs_map(updated) =~= pairs_map(pairs).insert(name, value));
    } else {
        let init = pairs.drop_last();
        lemma_pairs_map_update(init, i, value);
        assert(updated.drop_last() =~= init.update(i, (name, value)));
        assert(updated.last() == pairs.last());
        assert(pairs.last().0 != name);
        assert(pairs_map(updated) =~= pairs_map(pairs).insert(name, value));
    }
}

/// Attribute names and their values.
#[derive(Debug)]
pub struct AttributeMap {
    entries: Vec<(String, String)>,
}

impl View for AttributeMap {
    type V = Map<Seq<char>, Seq<char>>;

    closed spec fn view(&self) -> Map<Seq<char>, Seq<char>> {
        pairs_map(pair_texts(self.entries@))
    }
}

impl AttributeMap {
    #[verifier::type_invariant]
    spec fn well_formed(self) -> bool {
        distinct_names(pair_texts(self.entries@))
    }

    /// The empty map.
    pub fn new() -> (r: AttributeMap)
        ensures
            r@ == Map::<Seq<char>, Seq<char>>::empty(),
    {
        let r = AttributeMap { entries: Vec::new() };
        assert(pair_texts(r.entries@) =~= Seq::empty());
        r
    }

    /// The number of attributes.
    pub fn len(&self) -> (n: usize)
        ensures
            n == self@.dom().len(),
    {
        proof {
            use_type_invariant(self);
            self.lemma_len();
        }
        self.entries.len()
    }

    proof fn lemma_len(&self)
        requires
            distinct_names(pair_texts(self.entries@)),
        ensures
            self@.dom().len() == self.entries@.len(),
    {
        lemma_distinct_len(pair_texts(self.entries@));
    }

    /// The value of an attribute, if the map has it.
    pub fn get(&self, name: &String) -> (r: Option<&String>)
        ensures
            match r {
                Some(v) => self@.dom().contains(name@) && self@[name@] == v@,
                None => !self@.dom().contains(name@),
            },
    {
        proof {
            use_type_invariant(self);
        }
        let ghost pairs = pair_texts(self.entries@);
        let n = self.entries.len();
        let mut i: usize = 0;
        while i < n
            invariant
                n == self.entries@.len(),
                pairs == pair_texts(self.entries@),
                distinct_names(pairs),
                i <= n,
                forall|j: int| 0 <= j < i ==> pairs[j].0 != name@,
            decreases n - i,
        {
            if self.entries[i].0 == *name {
                proof {
                    lemma_pairs_map_value(pairs, i as int);
                }
                return Some(&self.entries[i].1);
            }
            i = i + 1;
        }
        proof {
            lemma_pairs_map_dom(pairs, name@);
        }
        None
    }

    /// Sets the value of an attribute, replacing the one it had.
    pub fn insert(&mut self, name: String, value: String)
        ensures
            final(self)@ == old(self)@.insert(name@, value@),
    {
        proof {
            use_type_invariant(&*self);
        }
        let ghost pairs = pair_texts(self.entries@);
        let n = self.entries.len();
        let mut i: usize = 0;
        while i < n
            invariant
                n == self.entries@.len(),
                pairs == pair_texts(self.entries@),
                distinct_names(pairs),
                self.entries@ == old(self).entries@,
                i <= n,
                forall|j: int| 0 <= j < i ==> pairs[j].0 != name@,
            decreases n - i,
        {
            if self.entries[i].0 == name {
                let ghost updated = pairs.update(i as int, (name@, value@));
                proof {
                    assert(pairs[i as int].0 == name@);
                    lemma_pairs_map_update(pairs, i as int, value@);
                }
                let mut entries: Vec<(String, String)> = Vec::new();
                std::mem::swap(&mut entries, &mut self.entries);
                entries.set(i, (name, value));
                proof {
                    assert(pair_texts(entries@) =~= updated);
                }
                self.entries = entries;
                return;
            }
            i = i + 1;
        }
        proof {
            lemma_pairs_map_dom(pairs, name@);
        }
        let ghost pushed = pairs.push((name@, value@));
        let mut entries: Vec<(String, String)> = Vec::new();
        std::mem::swap(&mut entries, &mut self.entries);
        entries.push((name, value));
        proof {
            assert(pair_texts(entries@) =~= pushed);
            assert(pushed.drop_last() =~= pairs);
        }
        self.entries = entries;
    }

    /// The pairs of the map, each name once.
    pub fn as_slice(&self) -> (r: &[(String, String)])
        ensures
            pairs_map(pair_texts(r@)) == self@,
            distinct_names(pair_texts(r@)),
    {
        proof {
            use_type_invariant(self);
        }
        self.entries.as_slice()
    }
}

/// With distinct names, the map has as many names as there are pairs.
pub proof fn lemma_distinct_len(pairs: Seq<(Seq<char>, Seq<char>)>)
    requires
        distinct_names(pairs),
    ensures
        pairs_map(pairs).dom().len() == pairs.len(),
    decreases pairs.len(),
{
    if pairs.len() > 0 {
        let init = pairs.drop_last();
        assert(distinct_names(init));
        lemma_distinct_len(init);
        lemma_pairs_map_finite(init);
        lemma_pairs_map_dom(init, pairs.last().0);
        if pairs_map(init).dom().contains(pairs.last().0) {
            let i = choose|i: int| 0 <= i < init.len() && init[i].0 == pairs.last().0;
            assert(pairs[i].0 == pairs[pairs.len() - 1].0);
        }
    }
}

} // verus!
