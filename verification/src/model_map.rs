//! A map from model names to values that can be walked.

use vstd::hash_map::StringHashMap;
use vstd::prelude::*;

verus! {

/// A hash map from model names to values, with its names in the order in which they came.
#[verifier::reject_recursive_types(V)]
pub struct ModelMap<V> {
    names: Vec<String>,
    values: StringHashMap<V>,
}

impl<V> ModelMap<V> {
    /// Whether the names are those of the map, each once.
    pub closed spec fn wf(self) -> bool {
        &&& self.models().no_duplicates()
        &&& forall|model: Seq<char>|
            self.models().contains(model) <==> #[trigger] self.view().contains_key(model)
    }

    /// The names, in the order in which they came.
    pub closed spec fn models(self) -> Seq<Seq<char>> {
        self.names.deep_view()
    }

    /// The values by name.
    pub closed spec fn view(self) -> Map<Seq<char>, V> {
        self.values@
    }

    /// The names in order are the names of the map, each once.
    pub proof fn lemma_models(self)
        requires
            self.wf(),
        ensures
            self.models().no_duplicates(),
            forall|model: Seq<char>|
                self.models().contains(model) <==> #[trigger] self.view().contains_key(model),
    {
    }

    /// A map without names.
    pub fn new() -> (map: ModelMap<V>)
        ensures
            map.wf(),
            map.view() == Map::<Seq<char>, V>::empty(),
            map.models() == Seq::<Seq<char>>::empty(),
    {
        let map = ModelMap { names: Vec::new(), values: StringHashMap::new() };
        assert(map.models() == Seq::<Seq<char>>::empty());
        map
    }

    /// The number of names.
    pub fn len(&self) -> (len: usize)
        ensures
            len == self.models().len(),
    {
        self.names.len()
    }

    /// The name at a position in their order.
    pub fn model(&self, i: usize) -> (model: &str)
        requires
            i < self.models().len(),
        ensures
            model@ == self.models()[i as int],
    {
        self.names[i].as_str()
    }

    /// The value under a name.
    pub fn get(&self, model: &str) -> (value: Option<&V>)
        ensures
            match value {
                Some(value) => self.view().contains_key(model@) && self.view()[model@] == *value,
                None => !self.view().contains_key(model@),
            },
    {
        self.values.get(model)
    }

    /// Puts a value under a name, in place of the one that was there. A new name comes last.
    pub fn insert(&mut self, model: &str, value: V)
        requires
            old(self).wf(),
        ensures
            final(self).wf(),
            final(self).view() == old(self).view().insert(model@, value),
            final(self).models() == if old(self).view().contains_key(model@) {
                old(self).models()
            } else {
                old(self).models().push(model@)
            },
    {
        let ghost before = *self;
        if !self.values.contains_key(model) {
            self.names.push(model.to_string());
            assert(self.models() == before.models().push(model@));
        }
        self.values.insert(model.to_string(), value);
        proof {
            assert(!before.models().contains(model@) ==> before.models().push(
                model@,
            ).no_duplicates());
            assert forall|name: Seq<char>|
                self.models().contains(name) <==> #[trigger] self.view().contains_key(name) by {
                let added = before.models().push(model@);
                assert(added[before.models().len() as int] == model@);
                if before.models().contains(name) {
                    assert(added[before.models().index_of(name)] == name);
                }
                if added.contains(name) && name != model@ {
                    assert(before.models()[added.index_of(name)] == name);
                }
                assert(before.models().contains(name) <==> before.view().contains_key(name));
            }
        }
    }
}

} // verus!
