//! The store of resolved documents and of example sets.
//!
//! A store is made once, when the service starts, and lives as long as the
//! process. Nothing is ever removed from it.

use vstd::hash_map::StringHashMap;
use vstd::prelude::*;

verus! {

/// A code example with its title and description.
#[derive(Debug)]
pub struct CodeExample {
    pub title: String,
    pub code: String,
    pub description: String,
}

/// A code example as three texts.
pub struct CodeExampleView {
    pub title: Seq<char>,
    pub code: Seq<char>,
    pub description: Seq<char>,
}

impl View for CodeExample {
    type V = CodeExampleView;

    open spec fn view(&self) -> CodeExampleView {
        CodeExampleView { title: self.title@, code: self.code@, description: self.description@ }
    }
}

impl Clone for CodeExample {
    fn clone(&self) -> (r: Self)
        ensures
            r@ == self@,
    {
        CodeExample {
            title: self.title.clone(),
            code: self.code.clone(),
            description: self.description.clone(),
        }
    }
}

impl PartialEq for CodeExample {
    fn eq(&self, other: &Self) -> (r: bool) {
        self.title == other.title && self.code == other.code && self.description
            == other.description
    }
}

impl vstd::std_specs::cmp::PartialEqSpecImpl for CodeExample {
    open spec fn obeys_eq_spec() -> bool {
        true
    }

    open spec fn eq_spec(&self, other: &Self) -> bool {
        self@ == other@
    }
}

impl Eq for CodeExample {

}

/// The example sets of a store as sequences of views.
pub open spec fn example_views(examples: Seq<CodeExample>) -> Seq<CodeExampleView> {
    Seq::new(examples.len(), |i: int| examples[i]@)
}

/// Copies a set of examples.
pub fn clone_examples(examples: &Vec<CodeExample>) -> (r: Vec<CodeExample>)
    ensures
        example_views(r@) == example_views(examples@),
{
    let mut r: Vec<CodeExample> = Vec::new();
    let mut i: usize = 0;
    while i < examples.len()
        invariant
            i <= examples.len(),
            r@.len() == i,
            forall|j: int| 0 <= j < i ==> r@[j]@ == examples@[j]@,
        decreases examples.len() - i,
    {
        r.push(examples[i].clone());
        i += 1;
    }
    assert(example_views(r@) =~= example_views(examples@));
    r
}

/// A store of texts and of example sets, each under a key. The two kinds are
/// kept apart: a key of one is no key of the other.
pub struct DocCache {
    cache: StringHashMap<String>,
    examples_cache: StringHashMap<Vec<CodeExample>>,
}

/// What a store holds.
pub struct DocCacheView {
    pub docs: Map<Seq<char>, Seq<char>>,
    pub examples: Map<Seq<char>, Seq<CodeExampleView>>,
}

impl DocCacheView {
    /// The store that holds nothing.
    pub open spec fn empty() -> DocCacheView {
        DocCacheView { docs: Map::empty(), examples: Map::empty() }
    }

    /// The text under `key`, if there is one.
    pub open spec fn doc(self, key: Seq<char>) -> Option<Seq<char>> {
        if self.docs.contains_key(key) {
            Some(self.docs[key])
        } else {
            None
        }
    }

    /// The store after `value` was put under `key`.
    pub open spec fn with_doc(self, key: Seq<char>, value: Seq<char>) -> DocCacheView {
        DocCacheView { docs: self.docs.insert(key, value), ..self }
    }

    /// The example set under `key`, if there is one.
    pub open spec fn example_set(self, key: Seq<char>) -> Option<Seq<CodeExampleView>> {
        if self.examples.contains_key(key) {
            Some(self.examples[key])
        } else {
            None
        }
    }

    /// The store after the example set `value` was put under `key`.
    pub open spec fn with_example_set(
        self,
        key: Seq<char>,
        value: Seq<CodeExampleView>,
    ) -> DocCacheView {
        DocCacheView { examples: self.examples.insert(key, value), ..self }
    }
}

impl View for DocCache {
    type V = DocCacheView;

    closed spec fn view(&self) -> DocCacheView {
        DocCacheView {
            docs: self.cache@.map_values(|v: String| v@),
            examples: self.examples_cache@.map_values(|v: Vec<CodeExample>| example_views(v@)),
        }
    }
}

/// The characters of an optional string.
pub open spec fn opt_str_view(o: Option<String>) -> Option<Seq<char>> {
    match o {
        Some(s) => Some(s@),
        None => None,
    }
}

/// The views of an optional example set.
pub open spec fn opt_examples_view(o: Option<Vec<CodeExample>>) -> Option<Seq<CodeExampleView>> {
    match o {
        Some(v) => Some(example_views(v@)),
        None => None,
    }
}

impl DocCache {
    /// A store that holds nothing.
    pub fn new() -> (r: Self)
        ensures
            r@ == DocCacheView::empty(),
    {
        let r = DocCache { cache: StringHashMap::new(), examples_cache: StringHashMap::new() };
        assert(r@.docs =~= Map::empty());
        assert(r@.examples =~= Map::empty());
        r
    }

    /// The text under `key`, if there is one.
    pub fn get(&self, key: &str) -> (r: Option<String>)
        ensures
            opt_str_view(r) == self@.doc(key@),
    {
        match self.cache.get(key) {
            Some(v) => Some(v.clone()),
            None => None,
        }
    }

    /// Puts `value` under `key`, in place of what was there.
    pub fn set(&mut self, key: String, value: String)
        ensures
            final(self)@ == old(self)@.with_doc(key@, value@),
    {
        self.cache.insert(key, value);
        assert(self@.docs =~= old(self)@.docs.insert(key@, value@));
    }

    /// The example set under `key`, if there is one.
    pub fn get_examples(&self, key: &str) -> (r: Option<Vec<CodeExample>>)
        ensures
            opt_examples_view(r) == self@.example_set(key@),
    {
        match self.examples_cache.get(key) {
            Some(v) => Some(clone_examples(v)),
            None => None,
        }
    }

    /// Puts the example set `examples` under `key`, in place of what was there.
    pub fn set_examples(&mut self, key: String, examples: Vec<CodeExample>)
        ensures
            final(self)@ == old(self)@.with_example_set(key@, example_views(examples@)),
    {
        self.examples_cache.insert(key, examples);
        assert(self@.examples =~= old(self)@.examples.insert(key@, example_views(examples@)));
    }
}

impl Default for DocCache {
    fn default() -> (r: Self)
        ensures
            r@ == DocCacheView::empty(),
    {
        DocCache::new()
    }
}

/// What was put under a key is what is found there; what is put under one key
/// leaves every other key as it was; and a new store holds nothing.
pub proof fn lemma_cache_round_trip(
    cache: DocCacheView,
    key: Seq<char>,
    value: Seq<char>,
    other: Seq<char>,
)
    ensures
        cache.with_doc(key, value).doc(key) == Some(value),
        other != key ==> cache.with_doc(key, value).doc(other) == cache.doc(other),
        cache.with_doc(key, value).examples == cache.examples,
        DocCacheView::empty().doc(key) is None,
{
}

/// The same for example sets.
pub proof fn lemma_examples_round_trip(
    cache: DocCacheView,
    key: Seq<char>,
    value: Seq<CodeExampleView>,
    other: Seq<char>,
)
    ensures
        cache.with_example_set(key, value).example_set(key) == Some(value),
        other != key ==> cache.with_example_set(key, value).example_set(other)
            == cache.example_set(other),
        cache.with_example_set(key, value).docs == cache.docs,
        DocCacheView::empty().example_set(key) is None,
{
}

} // verus!
