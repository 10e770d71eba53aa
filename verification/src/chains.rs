//! Registry of access chains, keyed by resource identity.
//!
//! Each tracked resource id owns one [`Chain`]; chains are created lazily
//! on a resource's first recorded access and are mutually independent.
//! The map itself is the fnv-hashed hash map the access-tracking pass
//! uses; its behaviour is taken on trust from the standard hash map,
//! while everything done with it here is verified against that view.

use vstd::prelude::*;

use fnv::FnvHashMap;

use crate::chain::{or_all, usages_of, Chain, Link};

verus! {

/// Opaque, externally supplied identifier naming one resource instance.
pub type Id = u64;

/// Declares fnv's hasher so maps hashed with it can be carried here.
#[verifier::external_type_specification]
#[verifier::external_body]
pub struct ExFnvHasher(fnv::FnvHasher);

/// Declares the standard wrapper that builds a hasher via `Default`.
#[verifier::external_type_specification]
#[verifier::external_body]
#[verifier::reject_recursive_types(H)]
pub struct ExBuildHasherDefault<H>(core::hash::BuildHasherDefault<H>);

/// The concrete map the registry holds.
type Chains = FnvHashMap<Id, Chain>;

/// The view of a registry tracking no resources.
pub open spec fn empty_chains() -> Map<Id, Chain> {
    Map::empty()
}

/// Relies on HashMap::default: a freshly built map is empty.
#[verifier::external_body]
fn chains_new() -> (r: Chains)
    ensures
        r@ == empty_chains(),
{
    FnvHashMap::default()
}

/// Relies on HashMap::get: the value under the key, if the key is present.
#[verifier::external_body]
fn chains_get<'a>(m: &'a Chains, id: Id) -> (r: Option<&'a Chain>)
    ensures
        (r is Some) == m@.contains_key(id),
        r matches Some(c) ==> *c == m@[id],
{
    m.get(&id)
}

/// Relies on HashMap::remove: takes the value under the key out of the
/// map, if the key is present.
#[verifier::external_body]
fn chains_remove(m: &mut Chains, id: Id) -> (r: Option<Chain>)
    ensures
        final(m)@ == old(m)@.remove(id),
        (r is Some) == old(m)@.contains_key(id),
        r matches Some(c) ==> c == old(m)@[id],
{
    m.remove(&id)
}

/// Relies on HashMap::insert: binds the key to the value, replacing any
/// previous binding.
#[verifier::external_body]
fn chains_insert(m: &mut Chains, id: Id, chain: Chain)
    ensures
        final(m)@ == old(m)@.insert(id, chain),
{
    m.insert(id, chain);
}

/// Relies on HashMap::len: the number of keys in the map.
#[verifier::external_body]
fn chains_len(m: &Chains) -> (r: usize)
    ensures
        r == m@.dom().len(),
{
    m.len()
}

/// The access chains of all resources of one category, keyed by id.
pub struct ChainMap {
    map: Chains,
}

impl View for ChainMap {
    type V = Map<Id, Chain>;

    closed spec fn view(&self) -> Map<Id, Chain> {
        self.map@
    }
}

impl ChainMap {
    /// A registry tracking no resources yet.
    pub fn new() -> (r: Self)
        ensures
            r@ == Map::<Id, Chain>::empty(),
    {
        ChainMap { map: chains_new() }
    }

    /// Whether `id` has a chain already.
    pub fn contains(&self, id: Id) -> (r: bool)
        ensures
            r == self@.contains_key(id),
    {
        chains_get(&self.map, id).is_some()
    }

    /// Number of resources tracked.
    pub fn len(&self) -> (r: usize)
        ensures
            r == self@.dom().len(),
    {
        chains_len(&self.map)
    }

    /// Open a new epoch on `id`'s chain, creating the chain on the
    /// resource's first recorded access.
    pub fn add_link(&mut self, id: Id, link: Link)
        ensures
            final(self)@.contains_key(id),
            final(self)@[id]@ == if old(self)@.contains_key(id) {
                old(self)@[id]@.push(link)
            } else {
                Seq::<Link>::empty().push(link)
            },
            forall|other: Id| other != id
                ==> #[trigger] final(self)@.contains_key(other) == old(self)@.contains_key(other),
            forall|other: Id| other != id && old(self)@.contains_key(other)
                ==> #[trigger] final(self)@[other] == old(self)@[other],
    {
        let mut chain = match chains_remove(&mut self.map, id) {
            Some(c) => c,
            None => Chain::new(),
        };
        chain.add_link(link);
        chains_insert(&mut self.map, id, chain);
    }

    /// Total usage of `id`'s chain: the bitwise-or of every usage ever
    /// added for it, zero for an untracked resource.
    pub fn usage(&self, id: Id) -> (r: u32)
        ensures
            r == if self@.contains_key(id) {
                or_all(usages_of(self@[id]@))
            } else {
                0u32
            },
    {
        match chains_get(&self.map, id) {
            Some(c) => c.usage(),
            None => 0,
        }
    }
}

} // verus!
