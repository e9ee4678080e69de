//! The named parameter list: (name, bindable value) pairs in source order,
//! each name carrying the bind-marker prefix.

use vstd::prelude::*;

use crate::value::{SpecValue, StorageValue};

verus! {

/// The views of a sequence of named parameter entries.
pub open spec fn spec_entries(s: Seq<(String, StorageValue)>) -> Seq<(Seq<char>, SpecValue)> {
    s.map_values(|p: (String, StorageValue)| (p.0@, p.1@))
}

/// Stores named bound query arguments: one `(name, value)` pair per emitted
/// field or map entry, in source order.
#[derive(Debug)]
pub struct NamedParamSlice(pub Vec<(String, StorageValue)>);

impl View for NamedParamSlice {
    type V = Seq<(Seq<char>, SpecValue)>;

    open spec fn view(&self) -> Seq<(Seq<char>, SpecValue)> {
        spec_entries(self.0@)
    }
}

impl Default for NamedParamSlice {
    /// A list holding no entries.
    fn default() -> (r: Self)
        ensures
            r@ == Seq::<(Seq<char>, SpecValue)>::empty(),
    {
        let r = NamedParamSlice(Vec::new());
        proof {
            assert(r@ =~= Seq::<(Seq<char>, SpecValue)>::empty());
        }
        r
    }
}

impl NamedParamSlice {
    /// The entries, ready to be borrowed pairwise by the execution layer.
    pub fn to_slice(&self) -> (r: &Vec<(String, StorageValue)>)
        ensures
            r@ == self.0@,
            spec_entries(r@) == self@,
    {
        &self.0
    }

    /// How many entries the list holds.
    pub fn len(&self) -> (r: usize)
        ensures
            r == self@.len(),
    {
        self.0.len()
    }
}

impl From<Vec<(String, StorageValue)>> for NamedParamSlice {
    fn from(src: Vec<(String, StorageValue)>) -> (r: Self)
    {
        NamedParamSlice(src)
    }
}

impl vstd::std_specs::convert::FromSpecImpl<Vec<(String, StorageValue)>> for NamedParamSlice {
    open spec fn obeys_from_spec() -> bool {
        true
    }

    open spec fn from_spec(src: Vec<(String, StorageValue)>) -> Self {
        NamedParamSlice(src)
    }
}

} // verus!
