use d365_automate::graph::entity::{Edge, EdgeKind, Entity, EntityKind};
use d365_automate::graph::store::InMemoryGraph;

#[test]
fn demo_corpus_has_cross_domain_edges() {
    let g = InMemoryGraph::with_demo_corpus();
    let stats = g.stats();
    assert!(stats.node_count >= 20, "expected >= 20 nodes, got {}", stats.node_count);
    assert!(stats.edge_count >= 25, "expected >= 25 edges, got {}", stats.edge_count);
    assert!(g.outbound("concept:period_close").iter().any(|(n, _, _)| n == "ent:GeneralJournalAccountEntry"));
    assert!(g.inbound("ent:GeneralJournalAccountEntry").iter().any(|(n, _, _)| n == "sol:FIN-CORE"));
}

#[test]
fn find_seeds_locates_relevant_entities() {
    let g = InMemoryGraph::with_demo_corpus();
    let seeds = g.find_seeds("period close GeneralJournalAccountEntry", 5);
    assert!(seeds.iter().any(|s| s == "concept:period_close"
        || s == "ent:GeneralJournalAccountEntry"
        || s == "learn:finance/period-close"));
}

fn entity(id: &str, kind: EntityKind, label: &str) -> Entity {
    Entity { id: id.into(), kind, label: label.into(), description: None, uri: None, tags: vec![] }
}

#[test]
fn adding_an_entity_twice_replaces_it() {
    let mut g = InMemoryGraph::new();
    g.add_entity(entity("a", EntityKind::Concept, "first"));
    g.add_entity(entity("a", EntityKind::Concept, "second"));
    assert_eq!(g.nodes().len(), 1);
    assert_eq!(g.node("a").unwrap().label, "second");
    assert!(g.node("b").is_none());
}

#[test]
fn neighbours_sum_weights_both_ways() {
    let mut g = InMemoryGraph::new();
    g.add_edge(Edge { from: "a".into(), to: "b".into(), kind: EdgeKind::Calls, weight: 1000 });
    g.add_edge(Edge { from: "b".into(), to: "a".into(), kind: EdgeKind::Uses, weight: 1500 });
    g.add_edge(Edge { from: "a".into(), to: "c".into(), kind: EdgeKind::Uses, weight: 2000 });
    let n = g.undirected_neighbours("a");
    assert_eq!(n, vec![("b".to_string(), 2500u128), ("c".to_string(), 2000u128)]);
    assert_eq!(g.outbound("a").len(), 2);
    assert_eq!(g.inbound("a").len(), 1);
    assert!(g.outbound("zzz").is_empty());
}

#[test]
fn stats_count_nodes_by_kind() {
    let g = InMemoryGraph::with_demo_corpus();
    let s = g.stats();
    let total: usize = s.by_kind.iter().map(|(_, c)| *c).sum();
    assert_eq!(total, s.node_count);
    assert_eq!(s.node_count, 25);
    assert_eq!(s.edge_count, 34);
    assert!(s.by_kind.contains(&("Concept".to_string(), 3)));
}

#[test]
fn seeds_need_a_usable_term() {
    let g = InMemoryGraph::with_demo_corpus();
    assert!(g.find_seeds("a b", 5).is_empty());
    assert!(g.find_seeds("period", 0).is_empty());
    assert_eq!(g.find_seeds("period", 2).len(), 2);
}

#[test]
fn demo_corpus_nodes_carry_labels_uris_and_tags() {
    let g = InMemoryGraph::with_demo_corpus();
    let n = g.node("xpp:GTFinPostJournal").unwrap();
    assert_eq!(n.kind, EntityKind::XppObject);
    assert_eq!(n.label, "GTFinPostJournal");
    assert_eq!(n.uri.as_deref(), Some("xpp-obj://GTFin/GTFinPostJournal"));
    assert_eq!(n.tags, vec!["module:GeneralLedger", "model:GTFin", "kind:job"]);
    let c = g.node("concept:period_close").unwrap();
    assert_eq!(c.label, "Period Close");
    assert!(c.uri.is_none());
    assert!(g.find_seeds("period close", 5).iter().any(|id| id == "concept:period_close"));
}
