//! Per-resource ordered history of access epochs.
//!
//! A [`Chain`] records, for one resource, the sequence of synchronization
//! epochs ([`Link`]s) in the order they were opened.  A downstream
//! synchronization-emission pass walks the chain to place barriers only at
//! epoch boundaries.

use vstd::prelude::*;

verus! {

/// The zero usage mask: a resource never accessed.
pub fn no_usage() -> (r: u32)
    ensures
        r == 0u32,
{
    0u32
}

/// One synchronization epoch: an aggregated usage mask plus the
/// submission/queue references that belong to that epoch.
#[derive(Clone, Debug)]
pub struct Link {
    /// Bitwise-or of the usage of every access merged into this epoch.
    pub usage: u32,
    /// Submission/queue references participating in this epoch.
    pub nodes: Vec<u64>,
}

/// Bitwise-or of all usage masks in a sequence.
pub open spec fn or_all(s: Seq<u32>) -> u32
    decreases s.len(),
{
    if s.len() == 0 {
        0u32
    } else {
        or_all(s.drop_last()) | s.last()
    }
}

/// Ordered history of access epochs for one resource.
#[derive(Clone, Debug)]
pub struct Chain {
    links: Vec<Link>,
}

impl View for Chain {
    type V = Seq<Link>;

    closed spec fn view(&self) -> Seq<Link> {
        self.links@
    }
}

/// The usage masks of a sequence of links.
pub open spec fn usages_of(links: Seq<Link>) -> Seq<u32> {
    links.map(|_i: int, l: Link| l.usage)
}

impl Chain {
    /// Create a new empty `Chain`.
    pub fn new() -> (r: Self)
        ensures
            r@ =~= Seq::<Link>::empty(),
    {
        Chain { links: Vec::new() }
    }

    /// Get the links.
    pub fn links(&self) -> (r: &Vec<Link>)
        ensures
            r@ == self@,
    {
        &self.links
    }

    /// Add a new link to the chain, opening a new epoch.
    pub fn add_link(&mut self, link: Link)
        ensures
            final(self)@ =~= old(self)@.push(link),
    {
        self.links.push(link);
    }

    /// Merge an access into the current (last) epoch instead of opening a
    /// new one: or the usage into the tail link's mask.
    pub fn merge_into_last(&mut self, usage: u32)
        requires
            old(self)@.len() > 0,
        ensures
            final(self)@.len() == old(self)@.len(),
            final(self)@.last().usage == (old(self)@.last().usage | usage),
            final(self)@.last().nodes == old(self)@.last().nodes,
            forall|i: int|
                0 <= i < old(self)@.len() - 1 ==> final(self)@[i] == old(self)@[i],
    {
        let last: usize = self.links.len() - 1;
        let merged: u32 = self.links[last].usage | usage;
        self.links[last].usage = merged;
    }

    /// Whether the chain has at least one epoch.
    pub fn has_last_link(&self) -> (r: bool)
        ensures
            r == (self@.len() > 0),
    {
        self.links.len() > 0
    }

    /// Usage mask of the current (last) epoch.
    pub fn last_link_usage(&self) -> (r: u32)
        requires
            self@.len() > 0,
        ensures
            r == self@.last().usage,
    {
        self.links[self.links.len() - 1].usage
    }

    /// Get total usage: the bitwise-or of every link's usage ever added,
    /// `0` for an empty chain.
    pub fn usage(&self) -> (r: u32)
        ensures
            r == or_all(usages_of(self@)),
    {
        let mut acc: u32 = 0;
        let mut i: usize = 0;
        while i < self.links.len()
            invariant
                0 <= i <= self.links.len(),
                acc == or_all(usages_of(self@).take(i as int)),
            decreases self.links.len() - i,
        {
            proof {
                assert(usages_of(self@).take(i + 1).drop_last() =~= usages_of(self@).take(
                    i as int,
                ));
            }
            acc = acc | self.links[i].usage;
            i = i + 1;
        }
        proof {
            assert(usages_of(self@).take(self@.len() as int) =~= usages_of(self@));
        }
        acc
    }
}

/// Removing one element of a sequence and or-ing it back in afterwards
/// gives the aggregate of the whole sequence.
proof fn lemma_or_all_remove(s: Seq<u32>, i: int)
    requires
        0 <= i < s.len(),
    ensures
        or_all(s) == (or_all(s.remove(i)) | s[i]),
    decreases s.len(),
{
    if i == s.len() - 1 {
        assert(s.remove(i) =~= s.drop_last());
    } else {
        assert(s.remove(i).drop_last() =~= s.drop_last().remove(i));
        lemma_or_all_remove(s.drop_last(), i);
        let a = or_all(s.drop_last().remove(i));
        let b = s[i];
        let c = s.last();
        assert(((a | b) | c) == ((a | c) | b)) by (bit_vector);
        assert(s.remove(i).last() == s.last());
    }
}

/// Law: a chain's total usage does not depend on the order in which the
/// link usages were added.  Any two sequences holding the same usage
/// values, each the same number of times, have the same bitwise-or
/// aggregate.
pub proof fn lemma_usage_order_independent(s1: Seq<u32>, s2: Seq<u32>)
    requires
        s1.to_multiset() == s2.to_multiset(),
    ensures
        or_all(s1) == or_all(s2),
    decreases s1.len(),
{
    broadcast use vstd::seq_lib::group_to_multiset_ensures;

    if s1.len() == 0 {
        assert(s2.len() == s2.to_multiset().len());
        assert(s2.len() == 0);
    } else {
        let x = s1.last();
        let last: int = s1.len() - 1;
        assert(s1.contains(x));
        assert(s2.to_multiset().count(x) > 0);
        assert(s2.contains(x));
        let i = choose|i: int| 0 <= i < s2.len() && s2[i] == x;
        lemma_or_all_remove(s2, i);
        assert(s1.drop_last() =~= s1.remove(last));
        assert(s1.remove(last).to_multiset() =~= s1.to_multiset().remove(x));
        assert(s2.remove(i).to_multiset() =~= s2.to_multiset().remove(x));
        lemma_usage_order_independent(s1.drop_last(), s2.remove(i));
    }
}

} // verus!
