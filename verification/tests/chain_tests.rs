use render_core::{no_usage, Chain, ChainMap, Link};

fn link(usage: u32) -> Link {
    Link { usage, nodes: Vec::new() }
}

#[test]
fn new_chain_usage_is_zero() {
    let chain = Chain::new();
    assert_eq!(chain.usage(), no_usage());
}

#[test]
fn usage_ors_all_links() {
    // Scenario: links [ReadOnly, ReadOnly, Write] aggregate to ReadOnly | Write.
    let read_only: u32 = 0b01;
    let write: u32 = 0b10;
    let mut chain = Chain::new();
    chain.add_link(link(read_only));
    chain.add_link(link(read_only));
    chain.add_link(link(write));
    assert_eq!(chain.usage(), read_only | write);
}

#[test]
fn usage_is_order_independent() {
    let mut forward = Chain::new();
    forward.add_link(link(1));
    forward.add_link(link(2));
    forward.add_link(link(4));
    let mut backward = Chain::new();
    backward.add_link(link(4));
    backward.add_link(link(2));
    backward.add_link(link(1));
    assert_eq!(forward.usage(), backward.usage());
    assert_eq!(forward.usage(), 7);
}

#[test]
fn add_link_appends_in_order() {
    let mut chain = Chain::new();
    chain.add_link(link(1));
    chain.add_link(link(2));
    let links = chain.links();
    assert_eq!(links.len(), 2);
    assert_eq!(links[0].usage, 1);
    assert_eq!(links[1].usage, 2);
}

#[test]
fn merge_into_last_widens_tail_epoch() {
    let mut chain = Chain::new();
    chain.add_link(link(1));
    chain.add_link(link(2));
    chain.merge_into_last(4);
    assert_eq!(chain.links().len(), 2);
    assert_eq!(chain.last_link_usage(), 2 | 4);
    assert_eq!(chain.links()[0].usage, 1);
    assert_eq!(chain.usage(), 7);
}

#[test]
fn has_last_link_tracks_emptiness() {
    let mut chain = Chain::new();
    assert!(!chain.has_last_link());
    chain.add_link(link(8));
    assert!(chain.has_last_link());
}

#[test]
fn chain_map_creates_chains_lazily() {
    let mut chains = ChainMap::new();
    assert!(!chains.contains(5));
    assert_eq!(chains.len(), 0);
    assert_eq!(chains.usage(5), 0);
    chains.add_link(5, link(1));
    assert!(chains.contains(5));
    assert_eq!(chains.len(), 1);
    assert_eq!(chains.usage(5), 1);
}

#[test]
fn chain_map_keeps_ids_independent() {
    let mut chains = ChainMap::new();
    chains.add_link(1, link(1));
    chains.add_link(2, link(2));
    chains.add_link(1, link(4));
    assert_eq!(chains.usage(1), 5);
    assert_eq!(chains.usage(2), 2);
    assert_eq!(chains.len(), 2);
    assert!(!chains.contains(3));
}
