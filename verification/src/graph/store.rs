//! In-memory graph store, seeded with cross-domain Dynamics 365 fixtures: the
//! same objects the OData, Metadata and knowledge-base mocks expose, stitched
//! into one graph so multi-hop traversal is meaningful offline.
//!
//! Example dependency chain of the seed:
//!
//!   `GTFinPostable` (interface) <-implements- `GTFinJournalPoster` (class)
//!   <-calls- `GTFinPostJournal` (job), which uses `GTFinConstants` and
//!   `GTFinValidation` and calls `LedgerGeneralJournalEntry` (OData service),
//!   which reads `CompaniesV2` and `FiscalCalendarPeriod`; the concept
//!   `period_close` describes them, and the Finance solution depends on them.

use vstd::prelude::*;
use crate::json::{owned, str_eq};
use crate::text::{
    unicode_lowercase, lower_chars, push_all, score_of, split_words, vecs_view, words,
    terms_score, strings_view, contains_seq, lemma_contains_concat, lemma_contains_counts,
    lemma_score_covers_term,
};
use crate::rank::{is_ranking, rank_desc};
use crate::odata::http::{join, join_strings};
use crate::graph::entity::{Edge, EdgeKind, Entity, EntityKind, NodeId, kind_name};

verus! {

#[derive(Debug)]
pub struct InMemoryGraph {
    nodes: Vec<Entity>,
    /// The edges, in the order they were added.
    edges: Vec<Edge>,
}

#[derive(Debug)]
pub struct GraphStats {
    pub node_count: usize,
    pub edge_count: usize,
    /// The number of nodes of each kind present, kinds in declaration order.
    pub by_kind: Vec<(String, usize)>,
}

// ---------------------------------------------------------------------------
// The model
// ---------------------------------------------------------------------------

/// Position of the node with id `id`.
pub open spec fn node_index(ns: Seq<Entity>, id: Seq<char>) -> Option<int> {
    if exists|i: int| 0 <= i < ns.len() && ns[i].id@ == id {
        Some(choose|i: int| 0 <= i < ns.len() && ns[i].id@ == id)
    } else {
        None
    }
}

pub open spec fn ids_distinct(ns: Seq<Entity>) -> bool {
    forall|i: int, j: int| 0 <= i < j < ns.len() ==> (#[trigger] ns[i]).id@ != (#[trigger] ns[j]).id@
}

/// An adjacency entry: the node at the other end, the edge kind and its weight.
pub type Adjacent = (Seq<char>, EdgeKind, u32);

/// The edges leaving `id`, in insertion order, as (target, kind, weight).
pub open spec fn outbound_spec(es: Seq<Edge>, id: Seq<char>) -> Seq<Adjacent>
    decreases es.len(),
{
    if es.len() == 0 {
        seq![]
    } else if es.last().from@ == id {
        outbound_spec(es.drop_last(), id).push((es.last().to@, es.last().kind, es.last().weight))
    } else {
        outbound_spec(es.drop_last(), id)
    }
}

/// The edges entering `id`, in insertion order, as (source, kind, weight).
pub open spec fn inbound_spec(es: Seq<Edge>, id: Seq<char>) -> Seq<Adjacent>
    decreases es.len(),
{
    if es.len() == 0 {
        seq![]
    } else if es.last().to@ == id {
        inbound_spec(es.drop_last(), id).push((es.last().from@, es.last().kind, es.last().weight))
    } else {
        inbound_spec(es.drop_last(), id)
    }
}

/// No two edges join the same two nodes with the same kind.
pub open spec fn edges_distinct(es: Seq<Edge>) -> bool {
    forall|i: int, j: int|
        0 <= i < j < es.len() ==> !same_link(#[trigger] es[i], #[trigger] es[j])
}

pub open spec fn same_link(a: Edge, b: Edge) -> bool {
    a.from@ == b.from@ && a.to@ == b.to@ && a.kind == b.kind
}

/// The plain content of an edge: source, target, kind and weight.
pub open spec fn edge_view(e: Edge) -> (Seq<char>, Seq<char>, EdgeKind, u32) {
    (e.from@, e.to@, e.kind, e.weight)
}

/// The links of a list of edges: source, target and kind of each.
pub open spec fn links_of(es: Seq<Edge>) -> Seq<(Seq<char>, Seq<char>, EdgeKind)> {
    es.map_values(|e: Edge| (e.from@, e.to@, e.kind))
}

/// Position of `n` among the neighbours tallied so far.
pub open spec fn tally_index(t: Seq<(Seq<char>, int)>, n: Seq<char>) -> Option<int> {
    if exists|j: int| 0 <= j < t.len() && t[j].0 == n {
        Some(choose|j: int| 0 <= j < t.len() && t[j].0 == n)
    } else {
        None
    }
}

/// Each neighbour once, in order of first appearance, with the total weight of
/// its entries.
pub open spec fn tally(adj: Seq<(Seq<char>, u32)>) -> Seq<(Seq<char>, int)>
    decreases adj.len(),
{
    if adj.len() == 0 {
        seq![]
    } else {
        let t = tally(adj.drop_last());
        let (n, w) = adj.last();
        match tally_index(t, n) {
            Some(j) => t.update(j, (n, t[j].1 + w)),
            None => t.push((n, w as int)),
        }
    }
}

/// The undirected neighbours of `id`: outgoing targets then incoming sources,
/// each once, with the total weight of the edges joining it to `id`.
pub open spec fn neighbours_spec(es: Seq<Edge>, id: Seq<char>) -> Seq<(Seq<char>, int)> {
    tally(
        outbound_spec(es, id).map_values(|a: Adjacent| (a.0, a.2)) + inbound_spec(es, id).map_values(
            |a: Adjacent| (a.0, a.2),
        ),
    )
}

/// The number of nodes of kind `k`.
pub open spec fn kind_count(ns: Seq<Entity>, k: EntityKind) -> nat
    decreases ns.len(),
{
    if ns.len() == 0 {
        0
    } else {
        kind_count(ns.drop_last(), k) + if ns.last().kind == k {
            1nat
        } else {
            0nat
        }
    }
}

pub open spec fn all_kinds() -> Seq<EntityKind> {
    seq![
        EntityKind::XppObject,
        EntityKind::DataEntity,
        EntityKind::Field,
        EntityKind::Service,
        EntityKind::Flow,
        EntityKind::Solution,
        EntityKind::LearnPage,
        EntityKind::Concept,
    ]
}

/// The kinds among `ks` that some node has, each with its node count, in order.
pub open spec fn present_kinds(ns: Seq<Entity>, ks: Seq<EntityKind>) -> Seq<(Seq<char>, nat)>
    decreases ks.len(),
{
    if ks.len() == 0 {
        seq![]
    } else {
        let rest = present_kinds(ns, ks.drop_last());
        if kind_count(ns, ks.last()) > 0 {
            rest.push((kind_name(ks.last()), kind_count(ns, ks.last())))
        } else {
            rest
        }
    }
}

/// The text a seed query is matched against: label, description (empty when there
/// is none) and the tags joined by spaces, each lower-cased, separated by spaces.
pub open spec fn seed_text(e: Entity) -> Seq<char> {
    unicode_lowercase(e.label@) + seq![' '] + unicode_lowercase(
        match e.description {
            Some(d) => d@,
            None => Seq::<char>::empty(),
        },
    ) + seq![' '] + unicode_lowercase(join(strings_view(e.tags@), seq![' ']))
}

/// A term long enough to seed with: at least two bytes in UTF-8, that is two
/// characters, or one outside ASCII.
pub open spec fn long_enough(t: Seq<char>) -> bool {
    t.len() >= 2 || (t.len() == 1 && t[0] as u32 >= 0x80)
}

/// The query terms a seed search uses: the words of the lower-cased query that
/// are long enough, in order.
pub open spec fn seed_terms(ws: Seq<Seq<char>>) -> Seq<Seq<char>>
    decreases ws.len(),
{
    if ws.len() == 0 {
        seq![]
    } else if long_enough(ws.last()) {
        seed_terms(ws.drop_last()).push(ws.last())
    } else {
        seed_terms(ws.drop_last())
    }
}

/// Positions of the nodes whose text scores above zero, in node order.
pub open spec fn scoring_nodes(ns: Seq<Entity>, terms: Seq<Seq<char>>) -> Seq<int>
    decreases ns.len(),
{
    if ns.len() == 0 {
        seq![]
    } else if terms_score(seed_text(ns.last()), terms) > 0 {
        scoring_nodes(ns.drop_last(), terms).push(ns.len() - 1)
    } else {
        scoring_nodes(ns.drop_last(), terms)
    }
}

/// `ids` are those of the best-scoring nodes, best first (ties in node order), at
/// most `max_seeds` of them; none when the query has no usable term.
pub open spec fn seeds_result(ns: Seq<Entity>, query: Seq<char>, max_seeds: usize, ids: Seq<
    Seq<char>,
>) -> bool {
    let terms = seed_terms(words(unicode_lowercase(query)));
    if terms.len() == 0 {
        ids.len() == 0
    } else {
        let cands = scoring_nodes(ns, terms);
        let scores = cands.map_values(|i: int| terms_score(seed_text(ns[i]), terms) as u128);
        exists|ord: Seq<usize>|
            #![trigger is_ranking(scores, ord)]
            is_ranking(scores, ord) && ids.len() == (if cands.len() < max_seeds {
                cands.len()
            } else {
                max_seeds as nat
            }) && forall|k: int|
                0 <= k < ids.len() ==> #[trigger] ids[k] == ns[cands[ord[k] as int]].id@
    }
}

proof fn lemma_scoring_nodes(ns: Seq<Entity>, terms: Seq<Seq<char>>)
    ensures
        forall|k: int|
            0 <= k < scoring_nodes(ns, terms).len() ==> 0 <= #[trigger] scoring_nodes(ns, terms)[k]
                < ns.len(),
    decreases ns.len(),
{
    if ns.len() > 0 {
        let prev = scoring_nodes(ns.drop_last(), terms);
        lemma_scoring_nodes(ns.drop_last(), terms);
        assert forall|k: int| 0 <= k < scoring_nodes(ns, terms).len() implies 0
            <= #[trigger] scoring_nodes(ns, terms)[k] < ns.len() by {
            if k < prev.len() {
                assert(0 <= prev[k] < ns.drop_last().len());
            }
        }
    }
}

/// A usable word of the query is one of the seed terms.
proof fn lemma_seed_terms_keep(ws: Seq<Seq<char>>, t: Seq<char>)
    requires
        ws.contains(t),
        long_enough(t),
    ensures
        seed_terms(ws).contains(t),
    decreases ws.len(),
{
    if ws.last() == t {
        assert(seed_terms(ws).last() == t);
    } else {
        let k = choose|k: int| 0 <= k < ws.len() && ws[k] == t;
        assert(ws.drop_last()[k] == t);
        lemma_seed_terms_keep(ws.drop_last(), t);
        let p = seed_terms(ws.drop_last());
        let q = choose|q: int| 0 <= q < p.len() && p[q] == t;
        if long_enough(ws.last()) {
            assert(seed_terms(ws)[q] == t);
        }
    }
}

/// A node that scores is among the scoring positions, which are no more than the
/// nodes.
proof fn lemma_scoring_nodes_member(ns: Seq<Entity>, terms: Seq<Seq<char>>, j: int)
    requires
        0 <= j < ns.len(),
        terms_score(seed_text(ns[j]), terms) > 0,
    ensures
        exists|k: int| 0 <= k < scoring_nodes(ns, terms).len() && scoring_nodes(ns, terms)[k] == j,
        scoring_nodes(ns, terms).len() <= ns.len(),
    decreases ns.len(),
{
    let prev = scoring_nodes(ns.drop_last(), terms);
    if j == ns.len() - 1 {
        lemma_scoring_nodes_len(ns.drop_last(), terms);
        assert(scoring_nodes(ns, terms)[prev.len() as int] == j);
    } else {
        assert(ns.drop_last()[j] == ns[j]);
        lemma_scoring_nodes_member(ns.drop_last(), terms, j);
        let k = choose|k: int| 0 <= k < prev.len() && prev[k] == j;
        assert(scoring_nodes(ns, terms)[k] == j);
    }
}

proof fn lemma_scoring_nodes_len(ns: Seq<Entity>, terms: Seq<Seq<char>>)
    ensures
        scoring_nodes(ns, terms).len() <= ns.len(),
    decreases ns.len(),
{
    if ns.len() > 0 {
        lemma_scoring_nodes_len(ns.drop_last(), terms);
    }
}

/// A seed search finds every node whose lower-cased label, lower-cased
/// description or lower-cased space-joined tags contain a usable word of the
/// lower-cased query: when there are no more nodes than `max_seeds`, its id is
/// among the seeds.
pub proof fn law_seeds_find_matching_nodes(
    ns: Seq<Entity>,
    query: Seq<char>,
    max_seeds: usize,
    ids: Seq<Seq<char>>,
    j: int,
    t: Seq<char>,
)
    requires
        seeds_result(ns, query, max_seeds, ids),
        ns.len() <= max_seeds,
        0 <= j < ns.len(),
        words(unicode_lowercase(query)).contains(t),
        long_enough(t),
        contains_seq(unicode_lowercase(ns[j].label@), t) || (ns[j].description matches Some(d)
            && contains_seq(unicode_lowercase(d@), t)) || contains_seq(
            unicode_lowercase(join(strings_view(ns[j].tags@), seq![' '])),
            t,
        ),
    ensures
        ids.contains(ns[j].id@),
{
    let terms = seed_terms(words(unicode_lowercase(query)));
    lemma_seed_terms_keep(words(unicode_lowercase(query)), t);
    let e = ns[j];
    let a = unicode_lowercase(e.label@);
    let d = unicode_lowercase(
        match e.description {
            Some(d) => d@,
            None => Seq::<char>::empty(),
        },
    );
    let g = unicode_lowercase(join(strings_view(e.tags@), seq![' ']));
    lemma_contains_concat(a, seq![' '], t);
    lemma_contains_concat(a + seq![' '], d, t);
    lemma_contains_concat(a + seq![' '] + d, seq![' '], t);
    lemma_contains_concat(a + seq![' '] + d + seq![' '], g, t);
    assert(contains_seq(seed_text(e), t));
    lemma_contains_counts(seed_text(e), t);
    lemma_score_covers_term(seed_text(e), terms, t);
    lemma_scoring_nodes_member(ns, terms, j);
    let cands = scoring_nodes(ns, terms);
    let scores = cands.map_values(|i: int| terms_score(seed_text(ns[i]), terms) as u128);
    let k0 = choose|k: int| 0 <= k < cands.len() && cands[k] == j;
    let ord = choose|ord: Seq<usize>|
        #![trigger is_ranking(scores, ord)]
        is_ranking(scores, ord) && ids.len() == (if cands.len() < max_seeds {
            cands.len()
        } else {
            max_seeds as nat
        }) && forall|k: int| 0 <= k < ids.len() ==> #[trigger] ids[k] == ns[cands[ord[k] as int]].id@;
    assert(ord.contains(k0 as usize));
    let k = choose|k: int| 0 <= k < ord.len() && ord[k] == k0 as usize;
    assert(ids[k] == ns[j].id@);
}

// ---------------------------------------------------------------------------
// Helpers
// ---------------------------------------------------------------------------

fn adjacent_of(e: &Edge, other_end_is_target: bool) -> (a: (NodeId, EdgeKind, u32))
    ensures
        a.0@ == if other_end_is_target {
            e.to@
        } else {
            e.from@
        },
        a.1 == e.kind,
        a.2 == e.weight,
{
    if other_end_is_target {
        (e.to.clone(), e.kind, e.weight)
    } else {
        (e.from.clone(), e.kind, e.weight)
    }
}

pub open spec fn adjacent_view(v: Seq<(NodeId, EdgeKind, u32)>) -> Seq<Adjacent> {
    v.map_values(|a: (NodeId, EdgeKind, u32)| (a.0@, a.1, a.2))
}

fn seed_text_of(e: &Entity) -> (hay: Vec<char>)
    ensures
        hay@ == seed_text(*e),
{
    let mut hay = lower_chars(e.label.as_str());
    hay.push(' ');
    let d = match &e.description {
        Some(d) => lower_chars(d.as_str()),
        None => lower_chars(""),
    };
    proof {
        if e.description is None {
            assert(""@ =~= Seq::<char>::empty()) by {
                reveal_strlit("");
            }
        }
    }
    push_all(&mut hay, d.as_slice());
    hay.push(' ');
    let joined = join_strings(&e.tags, " ");
    proof {
        reveal_strlit(" ");
        assert(" "@ =~= seq![' ']);
    }
    let t = lower_chars(joined.as_str());
    push_all(&mut hay, t.as_slice());
    proof {
        assert(hay@ =~= seed_text(*e));
    }
    hay
}

fn strs(v: &[&str]) -> (r: Vec<String>)
    ensures
        strings_view(r@) == v@.map_values(|s: &str| s@),
{
    let mut r: Vec<String> = Vec::new();
    let mut i: usize = 0;
    while i < v.len()
        invariant
            i <= v.len(),
            strings_view(r@) == v@.take(i as int).map_values(|s: &str| s@),
        decreases v.len() - i,
    {
        let ghost before = r@;
        r.push(owned(v[i]));
        proof {
            assert(strings_view(r@) =~= strings_view(before).push(v@[i as int]@));
            assert(v@.take(i as int + 1).map_values(|s: &str| s@) =~= v@.take(i as int).map_values(
                |s: &str| s@,
            ).push(v@[i as int]@));
        }
        i = i + 1;
    }
    proof {
        assert(v@.take(v@.len() as int) =~= v@);
    }
    r
}

/// A text that may be absent, as characters.
pub open spec fn opt_chars_of(o: Option<String>) -> Option<Seq<char>> {
    match o {
        Some(t) => Some(t@),
        None => None,
    }
}

/// The plain content of a node: id, kind, label, description, URI and tags.
pub open spec fn node_content(n: Entity) -> (
    Seq<char>,
    EntityKind,
    Seq<char>,
    Option<Seq<char>>,
    Option<Seq<char>>,
    Seq<Seq<char>>,
) {
    (n.id@, n.kind, n.label@, opt_chars_of(n.description), opt_chars_of(n.uri), strings_view(n.tags@))
}

/// The nodes of the demo corpus, in the order they are added: id, kind, label,
/// description, URI and tags.
pub open spec fn demo_nodes() -> Seq<
    (Seq<char>, EntityKind, Seq<char>, Option<Seq<char>>, Option<Seq<char>>, Seq<Seq<char>>),
> {
    seq![
        (
            "xpp:GTFinPostJournal"@,
            EntityKind::XppObject,
            "GTFinPostJournal"@,
            Some("X++ job that posts general ledger journals via the LedgerGeneralJournalEntry OData service."@),
            Some("xpp-obj://GTFin/GTFinPostJournal"@),
            seq!["module:GeneralLedger"@, "model:GTFin"@, "kind:job"@],
        ),
        (
            "xpp:GTFinJournalPoster"@,
            EntityKind::XppObject,
            "GTFinJournalPoster"@,
            Some("Helper class implementing GTFinPostable."@),
            Some("xpp-obj://GTFin/GTFinJournalPoster"@),
            seq!["module:GeneralLedger"@, "model:GTFin"@, "kind:class"@],
        ),
        (
            "xpp:GTFinPostable"@,
            EntityKind::XppObject,
            "GTFinPostable"@,
            Some("GL posting contract interface."@),
            Some("xpp-obj://GTFin/GTFinPostable"@),
            seq!["module:GeneralLedger"@, "model:GTFin"@, "kind:interface"@],
        ),
        (
            "xpp:GTFinConstants"@,
            EntityKind::XppObject,
            "GTFinConstants"@,
            Some("Shared constants for GTFin classes."@),
            Some("xpp-obj://GTFin/GTFinConstants"@),
            seq!["module:GeneralLedger"@, "model:GTFin"@, "kind:class"@],
        ),
        (
            "xpp:GTFinValidation"@,
            EntityKind::XppObject,
            "GTFinValidation"@,
            Some("Validation routines for GL posting."@),
            Some("xpp-obj://GTFin/GTFinValidation"@),
            seq!["module:GeneralLedger"@, "model:GTFin"@, "kind:class"@],
        ),
        (
            "xpp:GTScmGrnCheck"@,
            EntityKind::XppObject,
            "GTScmGrnCheck"@,
            Some("Product receipt reconciliation."@),
            Some("xpp-obj://GTScm/GTScmGrnCheck"@),
            seq!["module:SupplyChain"@, "model:GTScm"@, "kind:class"@],
        ),
        (
            "svc:LedgerGeneralJournalEntry"@,
            EntityKind::Service,
            "LedgerGeneralJournalEntry"@,
            Some("Post a general ledger journal entry."@),
            Some("d365-service://LedgerGeneralJournalEntry"@),
            seq!["module:GeneralLedger"@, "group:Ledger"@],
        ),
        (
            "svc:InventoryGoodsReceipt"@,
            EntityKind::Service,
            "InventoryGoodsReceipt"@,
            Some("Post a product (goods) receipt."@),
            Some("d365-service://InventoryGoodsReceipt"@),
            seq!["module:SupplyChain"@],
        ),
        (
            "svc:ReleasedProductGetDetail"@,
            EntityKind::Service,
            "ReleasedProductGetDetail"@,
            Some("Read released product detail."@),
            Some("d365-service://ReleasedProductGetDetail"@),
            seq!["module:SupplyChain"@, "group:Product"@],
        ),
        (
            "svc:SalesOrderCreate"@,
            EntityKind::Service,
            "SalesOrderCreate"@,
            Some("Create a sales order."@),
            Some("d365-service://SalesOrderCreate"@),
            seq!["module:Sales"@],
        ),
        (
            "ent:CompaniesV2"@,
            EntityKind::DataEntity,
            "CompaniesV2"@,
            Some("Legal entities / companies."@),
            Some("d365-entity://CompaniesV2/structure"@),
            seq!["module:GeneralLedger"@],
        ),
        (
            "ent:FiscalCalendarPeriod"@,
            EntityKind::DataEntity,
            "FiscalCalendarPeriod"@,
            Some("Ledger fiscal periods."@),
            Some("d365-entity://FiscalCalendarPeriod/structure"@),
            seq!["module:GeneralLedger"@],
        ),
        (
            "ent:ReleasedProductsV2"@,
            EntityKind::DataEntity,
            "ReleasedProductsV2"@,
            Some("Released products / item master."@),
            Some("d365-entity://ReleasedProductsV2/structure"@),
            seq!["module:SupplyChain"@],
        ),
        (
            "ent:SalesOrderHeadersV2"@,
            EntityKind::DataEntity,
            "SalesOrderHeadersV2"@,
            Some("Sales order headers."@),
            Some("d365-entity://SalesOrderHeadersV2/structure"@),
            seq!["module:Sales"@],
        ),
        (
            "ent:LedgerJournalTrans"@,
            EntityKind::DataEntity,
            "LedgerJournalTrans"@,
            Some("General journal lines."@),
            Some("d365-entity://LedgerJournalTrans/structure"@),
            seq!["module:GeneralLedger"@],
        ),
        (
            "ent:GeneralJournalAccountEntry"@,
            EntityKind::DataEntity,
            "GeneralJournalAccountEntry"@,
            Some("Subledger general journal account entries (the universal accounting truth)."@),
            Some("d365-entity://GeneralJournalAccountEntry/structure"@),
            seq!["module:GeneralLedger"@],
        ),
        (
            "flow:P2P-001"@,
            EntityKind::Flow,
            "Procure-to-Pay (P2P)"@,
            Some("Purchase requisition through invoice verification."@),
            Some("flow-proc://core/P2P-001"@),
            seq!["process:p2p"@],
        ),
        (
            "flow:O2C-002"@,
            EntityKind::Flow,
            "Order-to-Cash (O2C)"@,
            Some("Sales order through cash application."@),
            Some("flow-proc://core/O2C-002"@),
            seq!["process:o2c"@],
        ),
        (
            "sol:FIN-CORE"@,
            EntityKind::Solution,
            "Dynamics 365 Finance"@,
            Some("Finance module running general ledger, AP, AR."@),
            Some("solution://FIN-CORE"@),
            seq!["lifecycle:active"@],
        ),
        (
            "sol:LEGACY-BILL"@,
            EntityKind::Solution,
            "Legacy Billing Engine"@,
            Some("Phase-out billing engine."@),
            Some("solution://LEGACY-BILL"@),
            seq!["lifecycle:phase_out"@],
        ),
        (
            "learn:finance/period-close"@,
            EntityKind::LearnPage,
            "Financial period close in Dynamics 365 Finance"@,
            Some("Procedure for ledger period-end close."@),
            Some("d365-learn://finance/period-close"@),
            seq!["module:GeneralLedger"@],
        ),
        (
            "learn:scm/product-receipt"@,
            EntityKind::LearnPage,
            "Product receipt posting"@,
            Some("Procedure for posting product receipts."@),
            Some("d365-learn://scm/product-receipt"@),
            seq!["module:SupplyChain"@],
        ),
        (
            "concept:period_close"@,
            EntityKind::Concept,
            "Period Close"@,
            Some("Financial period close: open/close ledger periods, foreign currency revaluation, reconciliation."@),
            None,
            seq!["module:GeneralLedger"@],
        ),
        (
            "concept:product_receipt"@,
            EntityKind::Concept,
            "Product Receipt"@,
            Some("Posting product receipts, issues, and transfers against the item master."@),
            None,
            seq!["module:SupplyChain"@],
        ),
        (
            "concept:journal_entry"@,
            EntityKind::Concept,
            "Journal Entry"@,
            Some("General journal posting that creates ledger documents."@),
            None,
            seq!["module:GeneralLedger"@],
        ),
    ]
}

// ---------------------------------------------------------------------------
// The store
// ---------------------------------------------------------------------------

impl InMemoryGraph {
    #[verifier::type_invariant]
    closed spec fn node_ids_distinct(self) -> bool {
        ids_distinct(self.nodes@)
    }

    /// The nodes, in the order they were first added.
    pub closed spec fn nodes_view(&self) -> Seq<Entity> {
        self.nodes@
    }

    /// The edges, in the order they were added.
    pub closed spec fn edges_view(&self) -> Seq<Edge> {
        self.edges@
    }

    pub fn new() -> (g: Self)
        ensures
            g.nodes_view().len() == 0,
            g.edges_view().len() == 0,
    {
        InMemoryGraph { nodes: Vec::new(), edges: Vec::new() }
    }

    /// Add a node; one with the same id is replaced in place.
    pub fn add_entity(&mut self, e: Entity)
        ensures
            match node_index(old(self).nodes_view(), e.id@) {
                Some(i) => final(self).nodes_view() == old(self).nodes_view().update(i, e),
                None => final(self).nodes_view() == old(self).nodes_view().push(e),
            },
            final(self).edges_view() == old(self).edges_view(),
    {
        proof {
            use_type_invariant(&*self);
        }
        let ghost before = self.nodes@;
        let ghost ev = e;
        let mut i: usize = 0;
        while i < self.nodes.len()
            invariant
                i <= self.nodes@.len(),
                self.nodes@ == before,
                before == old(self).nodes@,
                self.edges@ == old(self).edges@,
                ids_distinct(before),
                ev == e,
                forall|j: int| 0 <= j < i ==> self.nodes@[j].id@ != e.id@,
            decreases self.nodes.len() - i,
        {
            if str_eq(self.nodes[i].id.as_str(), e.id.as_str()) {
                let mut nodes: Vec<Entity> = Vec::new();
                std::mem::swap(&mut nodes, &mut self.nodes);
                nodes.set(i, e);
                proof {
                    assert(node_index(before, ev.id@) == Some(i as int)) by {
                        let c = choose|k: int| 0 <= k < before.len() && before[k].id@ == ev.id@;
                        assert(c == i) by {
                            if c != i {
                                if c < i {
                                    assert(before[c].id@ != ev.id@);
                                } else {
                                    assert(before[i as int].id@ != before[c].id@);
                                }
                            }
                        }
                    }
                    assert forall|a: int, b: int| 0 <= a < b < nodes@.len() implies (
                    #[trigger] nodes@[a]).id@ != (#[trigger] nodes@[b]).id@ by {
                        assert(nodes@[a].id@ == before[a].id@);
                        assert(nodes@[b].id@ == before[b].id@);
                    }
                }
                self.nodes = nodes;
                return;
            }
            i = i + 1;
        }
        let mut nodes: Vec<Entity> = Vec::new();
        std::mem::swap(&mut nodes, &mut self.nodes);
        nodes.push(e);
        proof {
            assert forall|a: int, b: int| 0 <= a < b < nodes@.len() implies (
            #[trigger] nodes@[a]).id@ != (#[trigger] nodes@[b]).id@ by {
                if b < before.len() {
                    assert(nodes@[a] == before[a] && nodes@[b] == before[b]);
                } else {
                    assert(nodes@[a] == before[a]);
                }
            }
        }
        self.nodes = nodes;
    }

    /// Add an edge.
    pub fn add_edge(&mut self, e: Edge)
        ensures
            final(self).edges_view() == old(self).edges_view().push(e),
            final(self).nodes_view() == old(self).nodes_view(),
    {
        proof {
            use_type_invariant(&*self);
        }
        let mut edges: Vec<Edge> = Vec::new();
        std::mem::swap(&mut edges, &mut self.edges);
        edges.push(e);
        self.edges = edges;
    }

    /// A node built from literals.
    fn add_node(
        &mut self,
        id: &str,
        kind: EntityKind,
        label: &str,
        desc: &str,
        uri: Option<&str>,
        tags: &[&str],
    )
        requires
            edges_distinct(old(self).edges_view()),
        ensures
            edges_distinct(final(self).edges_view()),
            final(self).edges_view() == old(self).edges_view(),
            !old(self).nodes_view().map_values(|n: Entity| n.id@).contains(id@)
                ==> final(self).nodes_view().map_values(|n: Entity| n.id@)
                == old(self).nodes_view().map_values(|n: Entity| n.id@).push(id@),
            !old(self).nodes_view().map_values(|n: Entity| n.id@).contains(id@)
                ==> final(self).nodes_view().map_values(|n: Entity| node_content(n))
                == old(self).nodes_view().map_values(|n: Entity| node_content(n)).push(
                (
                    id@,
                    kind,
                    label@,
                    Some(desc@),
                    match uri {
                        Some(u) => Some(u@),
                        None => None,
                    },
                    tags@.map_values(|t: &str| t@),
                ),
            ),
    {
        let ghost ids = old(self).nodes_view().map_values(|n: Entity| n.id@);
        proof {
            if !ids.contains(id@) {
                if exists|i: int| 0 <= i < old(self).nodes_view().len() && old(self).nodes_view()[i].id@ == id@ {
                    let i = choose|i: int| 0 <= i < old(self).nodes_view().len() && old(self).nodes_view()[i].id@ == id@;
                    assert(ids[i] == id@);
                }
            }
        }
        let uri = match uri {
            Some(u) => Some(owned(u)),
            None => None,
        };
        self.add_entity(
            Entity {
                id: owned(id),
                kind,
                label: owned(label),
                description: Some(owned(desc)),
                uri,
                tags: strs(tags),
            },
        );
    }

    /// The graph seeded with the cross-domain Dynamics 365 fixture set: X++
    /// objects, OData services, data entities, flows, solutions, Learn pages and
    /// the concepts that join them.  No two of its edges join the same nodes with
    /// the same kind.
    pub fn with_demo_corpus() -> (g: Self)
        ensures
            edges_distinct(g.edges_view()),
            g.edges_view().map_values(|e: Edge| edge_view(e)) == seq![
                ("xpp:GTFinJournalPoster"@, "xpp:GTFinPostable"@, EdgeKind::Implements, 1000u32),
                ("xpp:GTFinPostJournal"@, "xpp:GTFinJournalPoster"@, EdgeKind::Calls, 1000u32),
                ("xpp:GTFinPostJournal"@, "xpp:GTFinConstants"@, EdgeKind::Uses, 1000u32),
                ("xpp:GTFinPostJournal"@, "xpp:GTFinValidation"@, EdgeKind::Uses, 1000u32),
                ("xpp:GTFinJournalPoster"@, "svc:LedgerGeneralJournalEntry"@, EdgeKind::Calls, 2000u32),
                ("xpp:GTFinPostJournal"@, "svc:LedgerGeneralJournalEntry"@, EdgeKind::Calls, 1000u32),
                ("xpp:GTScmGrnCheck"@, "svc:InventoryGoodsReceipt"@, EdgeKind::Calls, 1000u32),
                ("svc:LedgerGeneralJournalEntry"@, "ent:CompaniesV2"@, EdgeKind::ReadsEntity, 1000u32),
                ("svc:LedgerGeneralJournalEntry"@, "ent:FiscalCalendarPeriod"@, EdgeKind::ReadsEntity, 1000u32),
                ("svc:LedgerGeneralJournalEntry"@, "ent:LedgerJournalTrans"@, EdgeKind::WritesEntity, 1000u32),
                ("svc:LedgerGeneralJournalEntry"@, "ent:GeneralJournalAccountEntry"@, EdgeKind::WritesEntity, 1000u32),
                ("svc:InventoryGoodsReceipt"@, "ent:ReleasedProductsV2"@, EdgeKind::ReadsEntity, 1000u32),
                ("svc:SalesOrderCreate"@, "ent:SalesOrderHeadersV2"@, EdgeKind::WritesEntity, 1000u32),
                ("flow:P2P-001"@, "svc:InventoryGoodsReceipt"@, EdgeKind::DependsOn, 1000u32),
                ("flow:P2P-001"@, "svc:LedgerGeneralJournalEntry"@, EdgeKind::DependsOn, 1000u32),
                ("flow:O2C-002"@, "svc:SalesOrderCreate"@, EdgeKind::DependsOn, 1000u32),
                ("flow:O2C-002"@, "svc:LedgerGeneralJournalEntry"@, EdgeKind::DependsOn, 1000u32),
                ("sol:FIN-CORE"@, "ent:LedgerJournalTrans"@, EdgeKind::DependsOn, 1000u32),
                ("sol:FIN-CORE"@, "ent:GeneralJournalAccountEntry"@, EdgeKind::DependsOn, 1000u32),
                ("sol:FIN-CORE"@, "ent:CompaniesV2"@, EdgeKind::DependsOn, 1000u32),
                ("sol:LEGACY-BILL"@, "ent:SalesOrderHeadersV2"@, EdgeKind::DependsOn, 1000u32),
                ("concept:period_close"@, "learn:finance/period-close"@, EdgeKind::Describes, 2000u32),
                ("concept:period_close"@, "ent:FiscalCalendarPeriod"@, EdgeKind::Describes, 2000u32),
                ("concept:period_close"@, "ent:GeneralJournalAccountEntry"@, EdgeKind::Describes, 1500u32),
                ("concept:period_close"@, "sol:FIN-CORE"@, EdgeKind::Describes, 1000u32),
                ("concept:journal_entry"@, "svc:LedgerGeneralJournalEntry"@, EdgeKind::Describes, 2000u32),
                ("concept:journal_entry"@, "ent:LedgerJournalTrans"@, EdgeKind::Describes, 1500u32),
                ("concept:journal_entry"@, "xpp:GTFinPostJournal"@, EdgeKind::Describes, 1500u32),
                ("concept:product_receipt"@, "learn:scm/product-receipt"@, EdgeKind::Describes, 2000u32),
                ("concept:product_receipt"@, "svc:InventoryGoodsReceipt"@, EdgeKind::Describes, 2000u32),
                ("concept:product_receipt"@, "xpp:GTScmGrnCheck"@, EdgeKind::Describes, 1000u32),
                ("learn:finance/period-close"@, "ent:FiscalCalendarPeriod"@, EdgeKind::References, 1000u32),
                ("learn:finance/period-close"@, "ent:GeneralJournalAccountEntry"@, EdgeKind::References, 1000u32),
                ("learn:scm/product-receipt"@, "svc:InventoryGoodsReceipt"@, EdgeKind::References, 1000u32),
            ],
            g.nodes_view().map_values(|n: Entity| n.id@) == seq![
                "xpp:GTFinPostJournal"@,
                "xpp:GTFinJournalPoster"@,
                "xpp:GTFinPostable"@,
                "xpp:GTFinConstants"@,
                "xpp:GTFinValidation"@,
                "xpp:GTScmGrnCheck"@,
                "svc:LedgerGeneralJournalEntry"@,
                "svc:InventoryGoodsReceipt"@,
                "svc:ReleasedProductGetDetail"@,
                "svc:SalesOrderCreate"@,
                "ent:CompaniesV2"@,
                "ent:FiscalCalendarPeriod"@,
                "ent:ReleasedProductsV2"@,
                "ent:SalesOrderHeadersV2"@,
                "ent:LedgerJournalTrans"@,
                "ent:GeneralJournalAccountEntry"@,
                "flow:P2P-001"@,
                "flow:O2C-002"@,
                "sol:FIN-CORE"@,
                "sol:LEGACY-BILL"@,
                "learn:finance/period-close"@,
                "learn:scm/product-receipt"@,
                "concept:period_close"@,
                "concept:product_receipt"@,
                "concept:journal_entry"@,
            ],
            g.nodes_view().map_values(|n: Entity| node_content(n)) == demo_nodes(),
    {
        let mut g = InMemoryGraph::new();
        g.seed();
        g
    }

    /// Add the fixture nodes to an empty graph.
    #[verifier::spinoff_prover]
    #[verifier::rlimit(50)]
    fn seed_nodes(&mut self)
        requires
            edges_distinct(old(self).edges_view()),
            old(self).nodes_view().len() == 0,
        ensures
            edges_distinct(final(self).edges_view()),
            final(self).edges_view() == old(self).edges_view(),
            final(self).nodes_view().map_values(|n: Entity| n.id@) == seq![
                "xpp:GTFinPostJournal"@,
                "xpp:GTFinJournalPoster"@,
                "xpp:GTFinPostable"@,
                "xpp:GTFinConstants"@,
                "xpp:GTFinValidation"@,
                "xpp:GTScmGrnCheck"@,
                "svc:LedgerGeneralJournalEntry"@,
                "svc:InventoryGoodsReceipt"@,
                "svc:ReleasedProductGetDetail"@,
                "svc:SalesOrderCreate"@,
                "ent:CompaniesV2"@,
                "ent:FiscalCalendarPeriod"@,
                "ent:ReleasedProductsV2"@,
                "ent:SalesOrderHeadersV2"@,
                "ent:LedgerJournalTrans"@,
                "ent:GeneralJournalAccountEntry"@,
                "flow:P2P-001"@,
                "flow:O2C-002"@,
                "sol:FIN-CORE"@,
                "sol:LEGACY-BILL"@,
                "learn:finance/period-close"@,
                "learn:scm/product-receipt"@,
                "concept:period_close"@,
                "concept:product_receipt"@,
                "concept:journal_entry"@,
            ],
            final(self).nodes_view().map_values(|n: Entity| node_content(n)) == demo_nodes(),
    {
        broadcast use vstd::seq_lib::lemma_seq_contains_after_push;
        proof {
            reveal_strlit("xpp:GTFinPostJournal");
            reveal_strlit("xpp:GTFinJournalPoster");
            reveal_strlit("xpp:GTFinPostable");
            reveal_strlit("xpp:GTFinConstants");
            reveal_strlit("xpp:GTFinValidation");
            reveal_strlit("xpp:GTScmGrnCheck");
            reveal_strlit("svc:LedgerGeneralJournalEntry");
            reveal_strlit("svc:InventoryGoodsReceipt");
            reveal_strlit("svc:ReleasedProductGetDetail");
            reveal_strlit("svc:SalesOrderCreate");
            reveal_strlit("ent:CompaniesV2");
            reveal_strlit("ent:FiscalCalendarPeriod");
            reveal_strlit("ent:ReleasedProductsV2");
            reveal_strlit("ent:SalesOrderHeadersV2");
            reveal_strlit("ent:LedgerJournalTrans");
            reveal_strlit("ent:GeneralJournalAccountEntry");
            reveal_strlit("flow:P2P-001");
            reveal_strlit("flow:O2C-002");
            reveal_strlit("sol:FIN-CORE");
            reveal_strlit("sol:LEGACY-BILL");
            reveal_strlit("learn:finance/period-close");
            reveal_strlit("learn:scm/product-receipt");
            reveal_strlit("concept:period_close");
            reveal_strlit("concept:product_receipt");
            reveal_strlit("concept:journal_entry");
            assert("xpp:GTFinPostJournal"@.len() == 20);
            assert("xpp:GTFinJournalPoster"@.len() == 22);
            assert("xpp:GTFinPostable"@.len() == 17);
            assert("xpp:GTFinConstants"@.len() == 18);
            assert("xpp:GTFinValidation"@.len() == 19);
            assert("xpp:GTScmGrnCheck"@.len() == 17);
            assert("svc:LedgerGeneralJournalEntry"@.len() == 29);
            assert("svc:InventoryGoodsReceipt"@.len() == 25);
            assert("svc:ReleasedProductGetDetail"@.len() == 28);
            assert("svc:SalesOrderCreate"@.len() == 20);
            assert("ent:CompaniesV2"@.len() == 15);
            assert("ent:FiscalCalendarPeriod"@.len() == 24);
            assert("ent:ReleasedProductsV2"@.len() == 22);
            assert("ent:SalesOrderHeadersV2"@.len() == 23);
            assert("ent:LedgerJournalTrans"@.len() == 22);
            assert("ent:GeneralJournalAccountEntry"@.len() == 30);
            assert("flow:P2P-001"@.len() == 12);
            assert("flow:O2C-002"@.len() == 12);
            assert("sol:FIN-CORE"@.len() == 12);
            assert("sol:LEGACY-BILL"@.len() == 15);
            assert("learn:finance/period-close"@.len() == 26);
            assert("learn:scm/product-receipt"@.len() == 25);
            assert("concept:period_close"@.len() == 20);
            assert("concept:product_receipt"@.len() == 23);
            assert("concept:journal_entry"@.len() == 21);
            assert("xpp:GTFinPostable"@[6] != "xpp:GTScmGrnCheck"@[6]);
            assert("xpp:GTFinPostJournal"@[0] != "svc:SalesOrderCreate"@[0]);
            assert("xpp:GTFinJournalPoster"@[0] != "ent:ReleasedProductsV2"@[0]);
            assert("xpp:GTFinJournalPoster"@[0] != "ent:LedgerJournalTrans"@[0]);
            assert("ent:ReleasedProductsV2"@[4] != "ent:LedgerJournalTrans"@[4]);
            assert("flow:P2P-001"@[5] != "flow:O2C-002"@[5]);
            assert("flow:P2P-001"@[0] != "sol:FIN-CORE"@[0]);
            assert("flow:O2C-002"@[0] != "sol:FIN-CORE"@[0]);
            assert("ent:CompaniesV2"@[0] != "sol:LEGACY-BILL"@[0]);
            assert("svc:InventoryGoodsReceipt"@[0] != "learn:scm/product-receipt"@[0]);
            assert("xpp:GTFinPostJournal"@[0] != "concept:period_close"@[0]);
            assert("svc:SalesOrderCreate"@[0] != "concept:period_close"@[0]);
            assert("ent:SalesOrderHeadersV2"@[0] != "concept:product_receipt"@[0]);
            assert(old(self).nodes_view().map_values(|n: Entity| n.id@) =~= Seq::<Seq<char>>::empty());
            assert(old(self).nodes_view().map_values(|n: Entity| node_content(n)) =~= Seq::<(Seq<char>, EntityKind, Seq<char>, Option<Seq<char>>, Option<Seq<char>>, Seq<Seq<char>>)>::empty());
        }
        let g = self;
        g.add_node("xpp:GTFinPostJournal", EntityKind::XppObject, "GTFinPostJournal", "X++ job that posts general ledger journals via the LedgerGeneralJournalEntry OData service.", Some("xpp-obj://GTFin/GTFinPostJournal"), &["module:GeneralLedger", "model:GTFin", "kind:job"]);
        g.add_node("xpp:GTFinJournalPoster", EntityKind::XppObject, "GTFinJournalPoster", "Helper class implementing GTFinPostable.", Some("xpp-obj://GTFin/GTFinJournalPoster"), &["module:GeneralLedger", "model:GTFin", "kind:class"]);
        g.add_node("xpp:GTFinPostable", EntityKind::XppObject, "GTFinPostable", "GL posting contract interface.", Some("xpp-obj://GTFin/GTFinPostable"), &["module:GeneralLedger", "model:GTFin", "kind:interface"]);
        g.add_node("xpp:GTFinConstants", EntityKind::XppObject, "GTFinConstants", "Shared constants for GTFin classes.", Some("xpp-obj://GTFin/GTFinConstants"), &["module:GeneralLedger", "model:GTFin", "kind:class"]);
        g.add_node("xpp:GTFinValidation", EntityKind::XppObject, "GTFinValidation", "Validation routines for GL posting.", Some("xpp-obj://GTFin/GTFinValidation"), &["module:GeneralLedger", "model:GTFin", "kind:class"]);
        g.add_node("xpp:GTScmGrnCheck", EntityKind::XppObject, "GTScmGrnCheck", "Product receipt reconciliation.", Some("xpp-obj://GTScm/GTScmGrnCheck"), &["module:SupplyChain", "model:GTScm", "kind:class"]);
        g.add_node("svc:LedgerGeneralJournalEntry", EntityKind::Service, "LedgerGeneralJournalEntry", "Post a general ledger journal entry.", Some("d365-service://LedgerGeneralJournalEntry"), &["module:GeneralLedger", "group:Ledger"]);
        g.add_node("svc:InventoryGoodsReceipt", EntityKind::Service, "InventoryGoodsReceipt", "Post a product (goods) receipt.", Some("d365-service://InventoryGoodsReceipt"), &["module:SupplyChain"]);
        g.add_node("svc:ReleasedProductGetDetail", EntityKind::Service, "ReleasedProductGetDetail", "Read released product detail.", Some("d365-service://ReleasedProductGetDetail"), &["module:SupplyChain", "group:Product"]);
        g.add_node("svc:SalesOrderCreate", EntityKind::Service, "SalesOrderCreate", "Create a sales order.", Some("d365-service://SalesOrderCreate"), &["module:Sales"]);
        g.add_node("ent:CompaniesV2", EntityKind::DataEntity, "CompaniesV2", "Legal entities / companies.", Some("d365-entity://CompaniesV2/structure"), &["module:GeneralLedger"]);
        g.add_node("ent:FiscalCalendarPeriod", EntityKind::DataEntity, "FiscalCalendarPeriod", "Ledger fiscal periods.", Some("d365-entity://FiscalCalendarPeriod/structure"), &["module:GeneralLedger"]);
        g.add_node("ent:ReleasedProductsV2", EntityKind::DataEntity, "ReleasedProductsV2", "Released products / item master.", Some("d365-entity://ReleasedProductsV2/structure"), &["module:SupplyChain"]);
        g.add_node("ent:SalesOrderHeadersV2", EntityKind::DataEntity, "SalesOrderHeadersV2", "Sales order headers.", Some("d365-entity://SalesOrderHeadersV2/structure"), &["module:Sales"]);
        g.add_node("ent:LedgerJournalTrans", EntityKind::DataEntity, "LedgerJournalTrans", "General journal lines.", Some("d365-entity://LedgerJournalTrans/structure"), &["module:GeneralLedger"]);
        g.add_node("ent:GeneralJournalAccountEntry", EntityKind::DataEntity, "GeneralJournalAccountEntry", "Subledger general journal account entries (the universal accounting truth).", Some("d365-entity://GeneralJournalAccountEntry/structure"), &["module:GeneralLedger"]);
        g.add_node("flow:P2P-001", EntityKind::Flow, "Procure-to-Pay (P2P)", "Purchase requisition through invoice verification.", Some("flow-proc://core/P2P-001"), &["process:p2p"]);
        g.add_node("flow:O2C-002", EntityKind::Flow, "Order-to-Cash (O2C)", "Sales order through cash application.", Some("flow-proc://core/O2C-002"), &["process:o2c"]);
        g.add_node("sol:FIN-CORE", EntityKind::Solution, "Dynamics 365 Finance", "Finance module running general ledger, AP, AR.", Some("solution://FIN-CORE"), &["lifecycle:active"]);
        g.add_node("sol:LEGACY-BILL", EntityKind::Solution, "Legacy Billing Engine", "Phase-out billing engine.", Some("solution://LEGACY-BILL"), &["lifecycle:phase_out"]);
        g.add_node("learn:finance/period-close", EntityKind::LearnPage, "Financial period close in Dynamics 365 Finance", "Procedure for ledger period-end close.", Some("d365-learn://finance/period-close"), &["module:GeneralLedger"]);
        g.add_node("learn:scm/product-receipt", EntityKind::LearnPage, "Product receipt posting", "Procedure for posting product receipts.", Some("d365-learn://scm/product-receipt"), &["module:SupplyChain"]);
        g.add_node("concept:period_close", EntityKind::Concept, "Period Close", "Financial period close: open/close ledger periods, foreign currency revaluation, reconciliation.", None, &["module:GeneralLedger"]);
        g.add_node("concept:product_receipt", EntityKind::Concept, "Product Receipt", "Posting product receipts, issues, and transfers against the item master.", None, &["module:SupplyChain"]);
        g.add_node("concept:journal_entry", EntityKind::Concept, "Journal Entry", "General journal posting that creates ledger documents.", None, &["module:GeneralLedger"]);

        proof {
            assert(g.nodes_view().map_values(|n: Entity| node_content(n)) =~~= demo_nodes());
        }
    }

    /// Add the fixture set; an edge already present is not added again.
    #[verifier::spinoff_prover]
    #[verifier::rlimit(50)]
    fn seed(&mut self)
        requires
            edges_distinct(old(self).edges_view()),
            old(self).nodes_view().len() == 0,
            old(self).edges_view().len() == 0,
        ensures
            edges_distinct(final(self).edges_view()),
            final(self).edges_view().map_values(|e: Edge| edge_view(e)) == seq![
                ("xpp:GTFinJournalPoster"@, "xpp:GTFinPostable"@, EdgeKind::Implements, 1000u32),
                ("xpp:GTFinPostJournal"@, "xpp:GTFinJournalPoster"@, EdgeKind::Calls, 1000u32),
                ("xpp:GTFinPostJournal"@, "xpp:GTFinConstants"@, EdgeKind::Uses, 1000u32),
                ("xpp:GTFinPostJournal"@, "xpp:GTFinValidation"@, EdgeKind::Uses, 1000u32),
                ("xpp:GTFinJournalPoster"@, "svc:LedgerGeneralJournalEntry"@, EdgeKind::Calls, 2000u32),
                ("xpp:GTFinPostJournal"@, "svc:LedgerGeneralJournalEntry"@, EdgeKind::Calls, 1000u32),
                ("xpp:GTScmGrnCheck"@, "svc:InventoryGoodsReceipt"@, EdgeKind::Calls, 1000u32),
                ("svc:LedgerGeneralJournalEntry"@, "ent:CompaniesV2"@, EdgeKind::ReadsEntity, 1000u32),
                ("svc:LedgerGeneralJournalEntry"@, "ent:FiscalCalendarPeriod"@, EdgeKind::ReadsEntity, 1000u32),
                ("svc:LedgerGeneralJournalEntry"@, "ent:LedgerJournalTrans"@, EdgeKind::WritesEntity, 1000u32),
                ("svc:LedgerGeneralJournalEntry"@, "ent:GeneralJournalAccountEntry"@, EdgeKind::WritesEntity, 1000u32),
                ("svc:InventoryGoodsReceipt"@, "ent:ReleasedProductsV2"@, EdgeKind::ReadsEntity, 1000u32),
                ("svc:SalesOrderCreate"@, "ent:SalesOrderHeadersV2"@, EdgeKind::WritesEntity, 1000u32),
                ("flow:P2P-001"@, "svc:InventoryGoodsReceipt"@, EdgeKind::DependsOn, 1000u32),
                ("flow:P2P-001"@, "svc:LedgerGeneralJournalEntry"@, EdgeKind::DependsOn, 1000u32),
                ("flow:O2C-002"@, "svc:SalesOrderCreate"@, EdgeKind::DependsOn, 1000u32),
                ("flow:O2C-002"@, "svc:LedgerGeneralJournalEntry"@, EdgeKind::DependsOn, 1000u32),
                ("sol:FIN-CORE"@, "ent:LedgerJournalTrans"@, EdgeKind::DependsOn, 1000u32),
                ("sol:FIN-CORE"@, "ent:GeneralJournalAccountEntry"@, EdgeKind::DependsOn, 1000u32),
                ("sol:FIN-CORE"@, "ent:CompaniesV2"@, EdgeKind::DependsOn, 1000u32),
                ("sol:LEGACY-BILL"@, "ent:SalesOrderHeadersV2"@, EdgeKind::DependsOn, 1000u32),
                ("concept:period_close"@, "learn:finance/period-close"@, EdgeKind::Describes, 2000u32),
                ("concept:period_close"@, "ent:FiscalCalendarPeriod"@, EdgeKind::Describes, 2000u32),
                ("concept:period_close"@, "ent:GeneralJournalAccountEntry"@, EdgeKind::Describes, 1500u32),
                ("concept:period_close"@, "sol:FIN-CORE"@, EdgeKind::Describes, 1000u32),
                ("concept:journal_entry"@, "svc:LedgerGeneralJournalEntry"@, EdgeKind::Describes, 2000u32),
                ("concept:journal_entry"@, "ent:LedgerJournalTrans"@, EdgeKind::Describes, 1500u32),
                ("concept:journal_entry"@, "xpp:GTFinPostJournal"@, EdgeKind::Describes, 1500u32),
                ("concept:product_receipt"@, "learn:scm/product-receipt"@, EdgeKind::Describes, 2000u32),
                ("concept:product_receipt"@, "svc:InventoryGoodsReceipt"@, EdgeKind::Describes, 2000u32),
                ("concept:product_receipt"@, "xpp:GTScmGrnCheck"@, EdgeKind::Describes, 1000u32),
                ("learn:finance/period-close"@, "ent:FiscalCalendarPeriod"@, EdgeKind::References, 1000u32),
                ("learn:finance/period-close"@, "ent:GeneralJournalAccountEntry"@, EdgeKind::References, 1000u32),
                ("learn:scm/product-receipt"@, "svc:InventoryGoodsReceipt"@, EdgeKind::References, 1000u32),
            ],
            final(self).nodes_view().map_values(|n: Entity| n.id@) == seq![
                "xpp:GTFinPostJournal"@,
                "xpp:GTFinJournalPoster"@,
                "xpp:GTFinPostable"@,
                "xpp:GTFinConstants"@,
                "xpp:GTFinValidation"@,
                "xpp:GTScmGrnCheck"@,
                "svc:LedgerGeneralJournalEntry"@,
                "svc:InventoryGoodsReceipt"@,
                "svc:ReleasedProductGetDetail"@,
                "svc:SalesOrderCreate"@,
                "ent:CompaniesV2"@,
                "ent:FiscalCalendarPeriod"@,
                "ent:ReleasedProductsV2"@,
                "ent:SalesOrderHeadersV2"@,
                "ent:LedgerJournalTrans"@,
                "ent:GeneralJournalAccountEntry"@,
                "flow:P2P-001"@,
                "flow:O2C-002"@,
                "sol:FIN-CORE"@,
                "sol:LEGACY-BILL"@,
                "learn:finance/period-close"@,
                "learn:scm/product-receipt"@,
                "concept:period_close"@,
                "concept:product_receipt"@,
                "concept:journal_entry"@,
            ],
            final(self).nodes_view().map_values(|n: Entity| node_content(n)) == demo_nodes(),
    {
        broadcast use vstd::seq_lib::lemma_seq_contains_after_push;
        proof {
            reveal_strlit("xpp:GTFinPostJournal");
            reveal_strlit("xpp:GTFinJournalPoster");
            reveal_strlit("xpp:GTFinPostable");
            reveal_strlit("xpp:GTFinConstants");
            reveal_strlit("xpp:GTFinValidation");
            reveal_strlit("xpp:GTScmGrnCheck");
            reveal_strlit("svc:LedgerGeneralJournalEntry");
            reveal_strlit("svc:InventoryGoodsReceipt");
            reveal_strlit("svc:ReleasedProductGetDetail");
            reveal_strlit("svc:SalesOrderCreate");
            reveal_strlit("ent:CompaniesV2");
            reveal_strlit("ent:FiscalCalendarPeriod");
            reveal_strlit("ent:ReleasedProductsV2");
            reveal_strlit("ent:SalesOrderHeadersV2");
            reveal_strlit("ent:LedgerJournalTrans");
            reveal_strlit("ent:GeneralJournalAccountEntry");
            reveal_strlit("flow:P2P-001");
            reveal_strlit("flow:O2C-002");
            reveal_strlit("sol:FIN-CORE");
            reveal_strlit("sol:LEGACY-BILL");
            reveal_strlit("learn:finance/period-close");
            reveal_strlit("learn:scm/product-receipt");
            reveal_strlit("concept:period_close");
            reveal_strlit("concept:product_receipt");
            reveal_strlit("concept:journal_entry");
            assert("xpp:GTFinPostJournal"@.len() == 20);
            assert("xpp:GTFinJournalPoster"@.len() == 22);
            assert("xpp:GTFinPostable"@.len() == 17);
            assert("xpp:GTFinConstants"@.len() == 18);
            assert("xpp:GTFinValidation"@.len() == 19);
            assert("xpp:GTScmGrnCheck"@.len() == 17);
            assert("svc:LedgerGeneralJournalEntry"@.len() == 29);
            assert("svc:InventoryGoodsReceipt"@.len() == 25);
            assert("svc:ReleasedProductGetDetail"@.len() == 28);
            assert("svc:SalesOrderCreate"@.len() == 20);
            assert("ent:CompaniesV2"@.len() == 15);
            assert("ent:FiscalCalendarPeriod"@.len() == 24);
            assert("ent:ReleasedProductsV2"@.len() == 22);
            assert("ent:SalesOrderHeadersV2"@.len() == 23);
            assert("ent:LedgerJournalTrans"@.len() == 22);
            assert("ent:GeneralJournalAccountEntry"@.len() == 30);
            assert("flow:P2P-001"@.len() == 12);
            assert("flow:O2C-002"@.len() == 12);
            assert("sol:FIN-CORE"@.len() == 12);
            assert("sol:LEGACY-BILL"@.len() == 15);
            assert("learn:finance/period-close"@.len() == 26);
            assert("learn:scm/product-receipt"@.len() == 25);
            assert("concept:period_close"@.len() == 20);
            assert("concept:product_receipt"@.len() == 23);
            assert("concept:journal_entry"@.len() == 21);
            assert("xpp:GTFinPostable"@[6] != "xpp:GTScmGrnCheck"@[6]);
            assert("xpp:GTFinPostJournal"@[0] != "svc:SalesOrderCreate"@[0]);
            assert("xpp:GTFinJournalPoster"@[0] != "ent:ReleasedProductsV2"@[0]);
            assert("xpp:GTFinJournalPoster"@[0] != "ent:LedgerJournalTrans"@[0]);
            assert("ent:ReleasedProductsV2"@[4] != "ent:LedgerJournalTrans"@[4]);
            assert("flow:P2P-001"@[5] != "flow:O2C-002"@[5]);
            assert("flow:P2P-001"@[0] != "sol:FIN-CORE"@[0]);
            assert("flow:O2C-002"@[0] != "sol:FIN-CORE"@[0]);
            assert("ent:CompaniesV2"@[0] != "sol:LEGACY-BILL"@[0]);
            assert("svc:InventoryGoodsReceipt"@[0] != "learn:scm/product-receipt"@[0]);
            assert("xpp:GTFinPostJournal"@[0] != "concept:period_close"@[0]);
            assert("svc:SalesOrderCreate"@[0] != "concept:period_close"@[0]);
            assert("ent:SalesOrderHeadersV2"@[0] != "concept:product_receipt"@[0]);
            assert(old(self).nodes_view().map_values(|n: Entity| n.id@) =~= Seq::<Seq<char>>::empty());
            assert(old(self).edges_view().map_values(|e: Edge| edge_view(e)) =~= Seq::<(Seq<char>, Seq<char>, EdgeKind, u32)>::empty());
            assert(links_of(old(self).edges_view()) =~= Seq::<(Seq<char>, Seq<char>, EdgeKind)>::empty());
        }
        let g = self;
        g.seed_nodes();
        g.add_edge_once("xpp:GTFinJournalPoster", "xpp:GTFinPostable", EdgeKind::Implements, 1000);
        g.add_edge_once("xpp:GTFinPostJournal", "xpp:GTFinJournalPoster", EdgeKind::Calls, 1000);
        g.add_edge_once("xpp:GTFinPostJournal", "xpp:GTFinConstants", EdgeKind::Uses, 1000);
        g.add_edge_once("xpp:GTFinPostJournal", "xpp:GTFinValidation", EdgeKind::Uses, 1000);
        g.add_edge_once("xpp:GTFinJournalPoster", "svc:LedgerGeneralJournalEntry", EdgeKind::Calls, 2000);
        g.add_edge_once("xpp:GTFinPostJournal", "svc:LedgerGeneralJournalEntry", EdgeKind::Calls, 1000);
        g.add_edge_once("xpp:GTScmGrnCheck", "svc:InventoryGoodsReceipt", EdgeKind::Calls, 1000);
        g.add_edge_once("svc:LedgerGeneralJournalEntry", "ent:CompaniesV2", EdgeKind::ReadsEntity, 1000);
        g.add_edge_once("svc:LedgerGeneralJournalEntry", "ent:FiscalCalendarPeriod", EdgeKind::ReadsEntity, 1000);
        g.add_edge_once("svc:LedgerGeneralJournalEntry", "ent:LedgerJournalTrans", EdgeKind::WritesEntity, 1000);
        g.add_edge_once("svc:LedgerGeneralJournalEntry", "ent:GeneralJournalAccountEntry", EdgeKind::WritesEntity, 1000);
        g.add_edge_once("svc:InventoryGoodsReceipt", "ent:ReleasedProductsV2", EdgeKind::ReadsEntity, 1000);
        g.add_edge_once("svc:SalesOrderCreate", "ent:SalesOrderHeadersV2", EdgeKind::WritesEntity, 1000);
        g.add_edge_once("flow:P2P-001", "svc:InventoryGoodsReceipt", EdgeKind::DependsOn, 1000);
        g.add_edge_once("flow:P2P-001", "svc:LedgerGeneralJournalEntry", EdgeKind::DependsOn, 1000);
        g.add_edge_once("flow:O2C-002", "svc:SalesOrderCreate", EdgeKind::DependsOn, 1000);
        g.add_edge_once("flow:O2C-002", "svc:LedgerGeneralJournalEntry", EdgeKind::DependsOn, 1000);
        g.add_edge_once("sol:FIN-CORE", "ent:LedgerJournalTrans", EdgeKind::DependsOn, 1000);
        g.add_edge_once("sol:FIN-CORE", "ent:GeneralJournalAccountEntry", EdgeKind::DependsOn, 1000);
        g.add_edge_once("sol:FIN-CORE", "ent:CompaniesV2", EdgeKind::DependsOn, 1000);
        g.add_edge_once("sol:LEGACY-BILL", "ent:SalesOrderHeadersV2", EdgeKind::DependsOn, 1000);
        g.add_edge_once("concept:period_close", "learn:finance/period-close", EdgeKind::Describes, 2000);
        g.add_edge_once("concept:period_close", "ent:FiscalCalendarPeriod", EdgeKind::Describes, 2000);
        g.add_edge_once("concept:period_close", "ent:GeneralJournalAccountEntry", EdgeKind::Describes, 1500);
        g.add_edge_once("concept:period_close", "sol:FIN-CORE", EdgeKind::Describes, 1000);
        g.add_edge_once("concept:journal_entry", "svc:LedgerGeneralJournalEntry", EdgeKind::Describes, 2000);
        g.add_edge_once("concept:journal_entry", "ent:LedgerJournalTrans", EdgeKind::Describes, 1500);
        g.add_edge_once("concept:journal_entry", "xpp:GTFinPostJournal", EdgeKind::Describes, 1500);
        g.add_edge_once("concept:product_receipt", "learn:scm/product-receipt", EdgeKind::Describes, 2000);
        g.add_edge_once("concept:product_receipt", "svc:InventoryGoodsReceipt", EdgeKind::Describes, 2000);
        g.add_edge_once("concept:product_receipt", "xpp:GTScmGrnCheck", EdgeKind::Describes, 1000);
        g.add_edge_once("learn:finance/period-close", "ent:FiscalCalendarPeriod", EdgeKind::References, 1000);
        g.add_edge_once("learn:finance/period-close", "ent:GeneralJournalAccountEntry", EdgeKind::References, 1000);
        g.add_edge_once("learn:scm/product-receipt", "svc:InventoryGoodsReceipt", EdgeKind::References, 1000);
    }

    /// Add an edge unless one already joins the same two nodes with the same kind.
    fn add_edge_once(&mut self, from: &str, to: &str, kind: EdgeKind, weight: u32)
        requires
            edges_distinct(old(self).edges_view()),
        ensures
            edges_distinct(final(self).edges_view()),
            final(self).nodes_view() == old(self).nodes_view(),
            !links_of(old(self).edges_view()).contains((from@, to@, kind))
                ==> final(self).edges_view().map_values(|e: Edge| edge_view(e))
                == old(self).edges_view().map_values(|e: Edge| edge_view(e)).push(
                (from@, to@, kind, weight),
            ),
            !links_of(old(self).edges_view()).contains((from@, to@, kind)) ==> links_of(
                final(self).edges_view(),
            ) == links_of(old(self).edges_view()).push((from@, to@, kind)),
    {
        let mut i: usize = 0;
        while i < self.edges.len()
            invariant
                i <= self.edges@.len(),
                self.edges@ == old(self).edges@,
                self.nodes@ == old(self).nodes@,
                edges_distinct(self.edges@),
                forall|j: int|
                    0 <= j < i ==> !(self.edges@[j].from@ == from@ && self.edges@[j].to@ == to@
                        && self.edges@[j].kind == kind),
            decreases self.edges.len() - i,
        {
            let x = &self.edges[i];
            if str_eq(x.from.as_str(), from) && str_eq(x.to.as_str(), to) && x.kind == kind {
                proof {
                    assert(links_of(self.edges@)[i as int] == (from@, to@, kind));
                }
                return;
            }
            i = i + 1;
        }
        let ghost before = self.edges@;
        self.add_edge(Edge { from: owned(from), to: owned(to), kind, weight });
        proof {
            assert(self.edges@.map_values(|e: Edge| edge_view(e)) =~= before.map_values(
                |e: Edge| edge_view(e),
            ).push((from@, to@, kind, weight)));
            assert(links_of(self.edges@) =~= links_of(before).push((from@, to@, kind)));
            assert forall|a: int, b: int| 0 <= a < b < self.edges@.len() implies !same_link(
                #[trigger] self.edges@[a],
                #[trigger] self.edges@[b],
            ) by {
                if b < before.len() {
                    assert(self.edges@[a] == before[a] && self.edges@[b] == before[b]);
                } else {
                    assert(self.edges@[a] == before[a]);
                }
            }
        }
    }

    /// The node with id `id`.
    pub fn node(&self, id: &str) -> (r: Option<&Entity>)
        ensures
            match node_index(self.nodes_view(), id@) {
                Some(i) => r matches Some(x) && *x == self.nodes_view()[i],
                None => r is None,
            },
    {
        proof {
            use_type_invariant(self);
        }
        let mut i: usize = 0;
        while i < self.nodes.len()
            invariant
                i <= self.nodes@.len(),
                ids_distinct(self.nodes@),
                forall|j: int| 0 <= j < i ==> self.nodes@[j].id@ != id@,
            decreases self.nodes.len() - i,
        {
            if str_eq(self.nodes[i].id.as_str(), id) {
                proof {
                    let c = choose|k: int| 0 <= k < self.nodes@.len() && self.nodes@[k].id@ == id@;
                    assert(c == i) by {
                        if c != i {
                            if c < i {
                                assert(self.nodes@[c].id@ != id@);
                            } else {
                                assert(self.nodes@[i as int].id@ != self.nodes@[c].id@);
                            }
                        }
                    }
                }
                return Some(&self.nodes[i]);
            }
            i = i + 1;
        }
        None
    }

    pub fn nodes(&self) -> (r: &[Entity])
        ensures
            r@ == self.nodes_view(),
    {
        self.nodes.as_slice()
    }

    pub fn edges(&self) -> (r: &[Edge])
        ensures
            r@ == self.edges_view(),
    {
        self.edges.as_slice()
    }

    /// Outgoing neighbours: `id -> (to, kind, weight)`, in insertion order.
    pub fn outbound(&self, id: &str) -> (r: Vec<(NodeId, EdgeKind, u32)>)
        ensures
            adjacent_view(r@) == outbound_spec(self.edges_view(), id@),
    {
        self.adjacent(id, true)
    }

    /// Incoming neighbours: `id <- (from, kind, weight)`, in insertion order.
    pub fn inbound(&self, id: &str) -> (r: Vec<(NodeId, EdgeKind, u32)>)
        ensures
            adjacent_view(r@) == inbound_spec(self.edges_view(), id@),
    {
        self.adjacent(id, false)
    }

    fn adjacent(&self, id: &str, outgoing: bool) -> (r: Vec<(NodeId, EdgeKind, u32)>)
        ensures
            outgoing ==> adjacent_view(r@) == outbound_spec(self.edges_view(), id@),
            !outgoing ==> adjacent_view(r@) == inbound_spec(self.edges_view(), id@),
    {
        let ghost es = self.edges@;
        let mut r: Vec<(NodeId, EdgeKind, u32)> = Vec::new();
        let mut i: usize = 0;
        while i < self.edges.len()
            invariant
                i <= es.len(),
                es == self.edges@,
                outgoing ==> adjacent_view(r@) == outbound_spec(es.take(i as int), id@),
                !outgoing ==> adjacent_view(r@) == inbound_spec(es.take(i as int), id@),
            decreases self.edges.len() - i,
        {
            let e = &self.edges[i];
            proof {
                assert(es.take(i as int + 1).drop_last() =~= es.take(i as int));
                assert(es.take(i as int + 1).last() == es[i as int]);
            }
            let end = if outgoing {
                &e.from
            } else {
                &e.to
            };
            if str_eq(end.as_str(), id) {
                let ghost before = r@;
                r.push(adjacent_of(e, outgoing));
                proof {
                    assert(adjacent_view(r@) =~= adjacent_view(before).push(
                        (r@.last().0@, r@.last().1, r@.last().2),
                    ));
                }
            }
            i = i + 1;
        }
        proof {
            assert(es.take(es.len() as int) =~= es);
        }
        r
    }

    /// Undirected adjacency for community detection: each neighbour once, with the
    /// total weight of the edges joining it to `id`.
    pub fn undirected_neighbours(&self, id: &str) -> (r: Vec<(NodeId, u128)>)
        ensures
            r@.map_values(|p: (NodeId, u128)| (p.0@, p.1 as int)) == neighbours_spec(
                self.edges_view(),
                id@,
            ),
    {
        let out = self.outbound(id);
        let inc = self.inbound(id);
        let ghost adj = adjacent_view(out@).map_values(|a: Adjacent| (a.0, a.2)) + adjacent_view(
            inc@,
        ).map_values(|a: Adjacent| (a.0, a.2));
        let mut pairs: Vec<(NodeId, u32)> = Vec::new();
        let mut i: usize = 0;
        while i < out.len()
            invariant
                i <= out@.len(),
                pairs@.map_values(|p: (NodeId, u32)| (p.0@, p.1)) == adjacent_view(out@).take(
                    i as int,
                ).map_values(|a: Adjacent| (a.0, a.2)),
            decreases out.len() - i,
        {
            let ghost before = pairs@;
            pairs.push((out[i].0.clone(), out[i].2));
            proof {
                assert(pairs@.map_values(|p: (NodeId, u32)| (p.0@, p.1)) =~= before.map_values(
                    |p: (NodeId, u32)| (p.0@, p.1),
                ).push((out@[i as int].0@, out@[i as int].2)));
                assert(adjacent_view(out@).take(i as int + 1) =~= adjacent_view(out@).take(
                    i as int,
                ).push(adjacent_view(out@)[i as int]));
                assert(pairs@.map_values(|p: (NodeId, u32)| (p.0@, p.1)) =~= adjacent_view(
                    out@,
                ).take(i as int + 1).map_values(|a: Adjacent| (a.0, a.2)));
            }
            i = i + 1;
        }
        let mut j: usize = 0;
        while j < inc.len()
            invariant
                j <= inc@.len(),
                pairs@.map_values(|p: (NodeId, u32)| (p.0@, p.1)) == adjacent_view(out@).map_values(
                    |a: Adjacent| (a.0, a.2),
                ) + adjacent_view(inc@).take(j as int).map_values(|a: Adjacent| (a.0, a.2)),
            decreases inc.len() - j,
        {
            let ghost before = pairs@;
            pairs.push((inc[j].0.clone(), inc[j].2));
            proof {
                assert(pairs@.map_values(|p: (NodeId, u32)| (p.0@, p.1)) =~= before.map_values(
                    |p: (NodeId, u32)| (p.0@, p.1),
                ).push((inc@[j as int].0@, inc@[j as int].2)));
                assert(adjacent_view(inc@).take(j as int + 1) =~= adjacent_view(inc@).take(
                    j as int,
                ).push(adjacent_view(inc@)[j as int]));
                assert(pairs@.map_values(|p: (NodeId, u32)| (p.0@, p.1)) =~= adjacent_view(
                    out@,
                ).map_values(|a: Adjacent| (a.0, a.2)) + adjacent_view(inc@).take(
                    j as int + 1,
                ).map_values(|a: Adjacent| (a.0, a.2)));
            }
            j = j + 1;
        }
        proof {
            assert(adjacent_view(out@).take(out@.len() as int) =~= adjacent_view(out@));
            assert(adjacent_view(inc@).take(inc@.len() as int) =~= adjacent_view(inc@));
        }
        let r = tally_pairs(&pairs);
        r
    }

    /// Node and edge counts, and the number of nodes of each kind present.
    pub fn stats(&self) -> (s: GraphStats)
        ensures
            s.node_count == self.nodes_view().len(),
            s.edge_count == self.edges_view().len(),
            s.by_kind@.map_values(|p: (String, usize)| (p.0@, p.1 as nat)) == present_kinds(
                self.nodes_view(),
                all_kinds(),
            ),
    {
        let mut kinds: Vec<EntityKind> = Vec::new();
        kinds.push(EntityKind::XppObject);
        kinds.push(EntityKind::DataEntity);
        kinds.push(EntityKind::Field);
        kinds.push(EntityKind::Service);
        kinds.push(EntityKind::Flow);
        kinds.push(EntityKind::Solution);
        kinds.push(EntityKind::LearnPage);
        kinds.push(EntityKind::Concept);
        proof {
            assert(kinds@ =~= all_kinds());
        }
        let mut by_kind: Vec<(String, usize)> = Vec::new();
        let mut k: usize = 0;
        while k < kinds.len()
            invariant
                k <= kinds@.len(),
                by_kind@.map_values(|p: (String, usize)| (p.0@, p.1 as nat)) == present_kinds(
                    self.nodes@,
                    kinds@.take(k as int),
                ),
            decreases kinds.len() - k,
        {
            let c = self.count_kind(kinds[k]);
            proof {
                assert(kinds@.take(k as int + 1).drop_last() =~= kinds@.take(k as int));
                assert(kinds@.take(k as int + 1).last() == kinds@[k as int]);
            }
            if c > 0 {
                let ghost before = by_kind@;
                by_kind.push((owned(kinds[k].name()), c));
                proof {
                    assert(by_kind@.map_values(|p: (String, usize)| (p.0@, p.1 as nat))
                        =~= before.map_values(|p: (String, usize)| (p.0@, p.1 as nat)).push(
                        (kind_name(kinds@[k as int]), c as nat),
                    ));
                }
            }
            k = k + 1;
        }
        proof {
            assert(kinds@.take(kinds@.len() as int) =~= kinds@);
        }
        GraphStats { node_count: self.nodes.len(), edge_count: self.edges.len(), by_kind }
    }

    fn count_kind(&self, k: EntityKind) -> (c: usize)
        ensures
            c == kind_count(self.nodes_view(), k),
    {
        let mut c: usize = 0;
        let mut i: usize = 0;
        while i < self.nodes.len()
            invariant
                i <= self.nodes@.len(),
                c == kind_count(self.nodes@.take(i as int), k),
                c <= i,
            decreases self.nodes.len() - i,
        {
            proof {
                assert(self.nodes@.take(i as int + 1).drop_last() =~= self.nodes@.take(i as int));
            }
            if self.nodes[i].kind == k {
                c = c + 1;
            }
            i = i + 1;
        }
        proof {
            assert(self.nodes@.take(self.nodes@.len() as int) =~= self.nodes@);
        }
        c
    }

    /// Ids of the nodes matching a free-text query over label, description and
    /// tags, best first, at most `max_seeds`.
    pub fn find_seeds(&self, query: &str, max_seeds: usize) -> (ids: Vec<NodeId>)
        ensures
            seeds_result(self.nodes_view(), query@, max_seeds, strings_view(ids@)),
    {
        let lq = lower_chars(query);
        let ws = split_words(lq.as_slice());
        let ghost wv = vecs_view(ws@);
        let mut terms: Vec<Vec<char>> = Vec::new();
        let mut t: usize = 0;
        while t < ws.len()
            invariant
                t <= ws@.len(),
                wv == vecs_view(ws@),
                vecs_view(terms@) == seed_terms(wv.take(t as int)),
            decreases ws.len() - t,
        {
            let w = &ws[t];
            proof {
                assert(wv.take(t as int + 1).drop_last() =~= wv.take(t as int));
                assert(wv.take(t as int + 1).last() == w@);
            }
            let ok = w.len() >= 2 || (w.len() == 1 && (w[0] as u32) >= 0x80);
            if ok {
                let ghost before = terms@;
                let mut copy: Vec<char> = Vec::new();
                push_all(&mut copy, w.as_slice());
                terms.push(copy);
                proof {
                    assert(vecs_view(terms@) =~= vecs_view(before).push(w@));
                }
            }
            t = t + 1;
        }
        proof {
            assert(wv.take(wv.len() as int) =~= wv);
        }
        let ghost tv = vecs_view(terms@);
        if terms.len() == 0 {
            return Vec::new();
        }
        let ns = &self.nodes;
        let mut cands: Vec<usize> = Vec::new();
        let mut scores: Vec<u128> = Vec::new();
        let mut i: usize = 0;
        while i < ns.len()
            invariant
                i <= ns@.len(),
                tv == vecs_view(terms@),
                cands@.len() == scores@.len(),
                cands@.map_values(|c: usize| c as int) == scoring_nodes(ns@.take(i as int), tv),
                forall|k: int|
                    0 <= k < scores@.len() ==> #[trigger] scores@[k] as int == terms_score(
                        seed_text(ns@[cands@[k] as int]),
                        tv,
                    ),
                forall|k: int| 0 <= k < cands@.len() ==> cands@[k] < i,
            decreases ns.len() - i,
        {
            proof {
                let p = ns@.take(i as int + 1);
                assert(p.drop_last() =~= ns@.take(i as int));
                assert(p.last() == ns@[i as int]);
            }
            let hay = seed_text_of(&ns[i]);
            let s = score_of(&hay, &terms);
            if s > 0 {
                let ghost before = cands@;
                cands.push(i);
                scores.push(s);
                proof {
                    assert(cands@.map_values(|c: usize| c as int) =~= before.map_values(
                        |c: usize| c as int,
                    ).push(i as int));
                }
            }
            i = i + 1;
        }
        proof {
            assert(ns@.take(ns@.len() as int) =~= ns@);
        }
        let ord = rank_desc(scores.as_slice());
        let n: usize = if ord.len() < max_seeds {
            ord.len()
        } else {
            max_seeds
        };
        let ghost cs = scoring_nodes(ns@, tv);
        let ghost sc = cs.map_values(|c: int| terms_score(seed_text(ns@[c]), tv) as u128);
        proof {
            lemma_scoring_nodes(ns@, tv);
            assert(sc =~= scores@) by {
                assert forall|k: int| 0 <= k < sc.len() implies sc[k] == scores@[k] by {
                    assert(cs[k] == cands@[k] as int);
                }
            }
        }
        let mut ids: Vec<NodeId> = Vec::new();
        let mut k: usize = 0;
        while k < n
            invariant
                k <= n,
                n <= ord@.len(),
                is_ranking(scores@, ord@),
                ord@.len() == cands@.len(),
                cands@.len() == scores@.len(),
                forall|q: int| 0 <= q < cands@.len() ==> #[trigger] cands@[q] < ns@.len(),
                ids@.len() == k,
                forall|q: int|
                    0 <= q < k ==> (#[trigger] ids@[q])@ == ns@[cands@[ord@[q] as int] as int].id@,
            decreases n - k,
        {
            ids.push(ns[cands[ord[k]]].id.clone());
            k = k + 1;
        }
        proof {
            assert(is_ranking(sc, ord@));
            assert forall|q: int| 0 <= q < ids@.len() implies #[trigger] strings_view(ids@)[q]
                == ns@[cs[ord@[q] as int]].id@ by {
                let oi = ord@[q] as int;
                assert(cs[oi] == cands@[oi] as int);
            }
        }
        ids
    }
}

/// Position of the entry for `n`.
fn find_tallied(r: &Vec<(NodeId, u128)>, n: &str) -> (j: Option<usize>)
    ensures
        match j {
            Some(k) => k < r@.len() && r@[k as int].0@ == n@ && forall|q: int|
                0 <= q < k ==> (#[trigger] r@[q]).0@ != n@,
            None => forall|q: int| 0 <= q < r@.len() ==> (#[trigger] r@[q]).0@ != n@,
        },
{
    let mut j: usize = 0;
    while j < r.len()
        invariant
            j <= r@.len(),
            forall|q: int| 0 <= q < j ==> (#[trigger] r@[q]).0@ != n@,
        decreases r.len() - j,
    {
        if str_eq(r[j].0.as_str(), n) {
            return Some(j);
        }
        j = j + 1;
    }
    None
}

/// Each first element once, in order of first appearance, with the total of its
/// second elements.
fn tally_pairs(pairs: &Vec<(NodeId, u32)>) -> (r: Vec<(NodeId, u128)>)
    ensures
        r@.map_values(|p: (NodeId, u128)| (p.0@, p.1 as int)) == tally(
            pairs@.map_values(|p: (NodeId, u32)| (p.0@, p.1)),
        ),
{
    let ghost pv = pairs@.map_values(|p: (NodeId, u32)| (p.0@, p.1));
    let mut r: Vec<(NodeId, u128)> = Vec::new();
    let mut i: usize = 0;
    while i < pairs.len()
        invariant
            i <= pairs@.len(),
            pv == pairs@.map_values(|p: (NodeId, u32)| (p.0@, p.1)),
            r@.map_values(|p: (NodeId, u128)| (p.0@, p.1 as int)) == tally(pv.take(i as int)),
            forall|q: int| 0 <= q < r@.len() ==> (#[trigger] r@[q]).1 <= i * 0x1_0000_0000,
            r@.len() <= i,
        decreases pairs.len() - i,
    {
        let ghost rv = r@.map_values(|p: (NodeId, u128)| (p.0@, p.1 as int));
        proof {
            assert(pv.take(i as int + 1).drop_last() =~= pv.take(i as int));
            assert(pv.take(i as int + 1).last() == pv[i as int]);
        }
        let (n, w) = (&pairs[i].0, pairs[i].1);
        let found = find_tallied(&r, n.as_str());
        if let Some(j) = found {
            proof {
                assert(rv[j as int].0 == n@);
                assert(tally_index(rv, n@) == Some(j as int)) by {
                    let c = choose|q: int| 0 <= q < rv.len() && rv[q].0 == n@;
                    assert(c == j) by {
                        if c < j {
                            assert(r@[c].0@ != n@);
                        } else if c > j {
                            assert(tally(pv.take(i as int)) == rv);
                            lemma_tally_distinct(pv.take(i as int));
                            assert(rv[c].0 != rv[j as int].0);
                        }
                    }
                }
                assert(r@[j as int].1 <= i * 0x1_0000_0000);
                assert(i * 0x1_0000_0000 + 0x1_0000_0000 <= u128::MAX) by (nonlinear_arith)
                    requires
                        i <= usize::MAX,
                ;
            }
            let total = r[j].1 + w as u128;
            let name = r[j].0.clone();
            let ghost before = r@;
            r.set(j, (name, total));
            proof {
                assert(r@.map_values(|p: (NodeId, u128)| (p.0@, p.1 as int)) =~= rv.update(
                    j as int,
                    (n@, rv[j as int].1 + w),
                ));
                assert forall|q: int| 0 <= q < r@.len() implies (#[trigger] r@[q]).1 <= (i + 1)
                    * 0x1_0000_0000 by {
                    if q != j {
                        assert(r@[q] == before[q]);
                    }
                }
            }
        } else {
            let j = r.len();
            proof {
                assert(tally_index(rv, n@) is None) by {
                    if exists|q: int| 0 <= q < rv.len() && rv[q].0 == n@ {
                        let c = choose|q: int| 0 <= q < rv.len() && rv[q].0 == n@;
                        assert(r@[c].0@ != n@);
                    }
                }
            }
            let ghost before = r@;
            r.push((n.clone(), w as u128));
            proof {
                assert(r@.map_values(|p: (NodeId, u128)| (p.0@, p.1 as int)) =~= rv.push(
                    (n@, w as int),
                ));
                assert forall|q: int| 0 <= q < r@.len() implies (#[trigger] r@[q]).1 <= (i + 1)
                    * 0x1_0000_0000 by {
                    if q < before.len() {
                        assert(r@[q] == before[q]);
                    }
                }
            }
        }
        i = i + 1;
    }
    proof {
        assert(pv.take(pv.len() as int) =~= pv);
    }
    r
}

proof fn lemma_tally_distinct(adj: Seq<(Seq<char>, u32)>)
    ensures
        forall|a: int, b: int|
            0 <= a < b < tally(adj).len() ==> (#[trigger] tally(adj)[a]).0 != (#[trigger] tally(
                adj,
            )[b]).0,
    decreases adj.len(),
{
    if adj.len() > 0 {
        let t = tally(adj.drop_last());
        lemma_tally_distinct(adj.drop_last());
        let (n, w) = adj.last();
        match tally_index(t, n) {
            Some(j) => {
                assert forall|a: int, b: int| 0 <= a < b < tally(adj).len() implies (
                #[trigger] tally(adj)[a]).0 != (#[trigger] tally(adj)[b]).0 by {
                    assert(tally(adj)[a].0 == t[a].0);
                    assert(tally(adj)[b].0 == t[b].0);
                }
            },
            None => {
                assert forall|a: int, b: int| 0 <= a < b < tally(adj).len() implies (
                #[trigger] tally(adj)[a]).0 != (#[trigger] tally(adj)[b]).0 by {
                    if b == t.len() {
                        assert(tally(adj)[a] == t[a]);
                    } else {
                        assert(tally(adj)[a] == t[a] && tally(adj)[b] == t[b]);
                    }
                }
            },
        }
    }
}


// ---------------------------------------------------------------------------
// Laws
// ---------------------------------------------------------------------------

/// The nodes after adding `e`: a node with the same id is replaced in place,
/// otherwise `e` is appended.
pub open spec fn after_add(ns: Seq<Entity>, e: Entity) -> Seq<Entity> {
    match node_index(ns, e.id@) {
        Some(i) => ns.update(i, e),
        None => ns.push(e),
    }
}

/// After adding a node, looking its id up finds exactly that node, ids stay
/// distinct, and the node count grows by one exactly when the id was new.
pub proof fn law_added_node_is_found(ns: Seq<Entity>, e: Entity)
    requires
        ids_distinct(ns),
    ensures
        ids_distinct(after_add(ns, e)),
        node_index(after_add(ns, e), e.id@) matches Some(j) && after_add(ns, e)[j] == e,
        after_add(ns, e).len() == if node_index(ns, e.id@) is Some {
            ns.len()
        } else {
            ns.len() + 1
        },
{
    let n2 = after_add(ns, e);
    match node_index(ns, e.id@) {
        Some(i) => {
            assert forall|a: int, b: int| 0 <= a < b < n2.len() implies (#[trigger] n2[a]).id@
                != (#[trigger] n2[b]).id@ by {
                assert(n2[a].id@ == ns[a].id@);
                assert(n2[b].id@ == ns[b].id@);
            }
            assert(n2[i].id@ == e.id@);
            let j = choose|k: int| 0 <= k < n2.len() && n2[k].id@ == e.id@;
            assert(j == i) by {
                if j != i {
                    if j < i {
                        assert(n2[j].id@ != n2[i].id@);
                    } else {
                        assert(n2[i].id@ != n2[j].id@);
                    }
                }
            }
        },
        None => {
            assert forall|a: int, b: int| 0 <= a < b < n2.len() implies (#[trigger] n2[a]).id@
                != (#[trigger] n2[b]).id@ by {
                if b < ns.len() {
                    assert(n2[a] == ns[a] && n2[b] == ns[b]);
                } else {
                    assert(n2[a] == ns[a]);
                }
            }
            assert(n2[ns.len() as int].id@ == e.id@);
            let j = choose|k: int| 0 <= k < n2.len() && n2[k].id@ == e.id@;
            assert(j == ns.len()) by {
                if j < ns.len() {
                    assert(n2[j] == ns[j]);
                }
            }
        },
    }
}

/// Adding an edge appends it to the outgoing list of its source and to the
/// incoming list of its target, and changes no other node's lists.
pub proof fn law_added_edge_is_adjacent(es: Seq<Edge>, e: Edge, id: Seq<char>)
    ensures
        outbound_spec(es.push(e), e.from@) == outbound_spec(es, e.from@).push(
            (e.to@, e.kind, e.weight),
        ),
        inbound_spec(es.push(e), e.to@) == inbound_spec(es, e.to@).push(
            (e.from@, e.kind, e.weight),
        ),
        id != e.from@ ==> outbound_spec(es.push(e), id) == outbound_spec(es, id),
        id != e.to@ ==> inbound_spec(es.push(e), id) == inbound_spec(es, id),
{
    assert(es.push(e).drop_last() =~= es);
}

/// The number of nodes of all kinds together.
pub open spec fn all_kind_counts(ns: Seq<Entity>) -> nat {
    kind_count(ns, EntityKind::XppObject) + kind_count(ns, EntityKind::DataEntity) + kind_count(
        ns,
        EntityKind::Field,
    ) + kind_count(ns, EntityKind::Service) + kind_count(ns, EntityKind::Flow) + kind_count(
        ns,
        EntityKind::Solution,
    ) + kind_count(ns, EntityKind::LearnPage) + kind_count(ns, EntityKind::Concept)
}

pub open spec fn sum_counts(p: Seq<(Seq<char>, nat)>) -> nat
    decreases p.len(),
{
    if p.len() == 0 {
        0
    } else {
        sum_counts(p.drop_last()) + p.last().1
    }
}

proof fn lemma_all_kind_counts(ns: Seq<Entity>)
    ensures
        all_kind_counts(ns) == ns.len(),
    decreases ns.len(),
{
    if ns.len() > 0 {
        lemma_all_kind_counts(ns.drop_last());
    }
}

proof fn lemma_sum_present(ns: Seq<Entity>, ks: Seq<EntityKind>)
    ensures
        sum_counts(present_kinds(ns, ks)) == sum_kind_counts(ns, ks),
    decreases ks.len(),
{
    if ks.len() > 0 {
        lemma_sum_present(ns, ks.drop_last());
        let rest = present_kinds(ns, ks.drop_last());
        if kind_count(ns, ks.last()) > 0 {
            assert(present_kinds(ns, ks).drop_last() =~= rest);
        }
    }
}

pub open spec fn sum_kind_counts(ns: Seq<Entity>, ks: Seq<EntityKind>) -> nat
    decreases ks.len(),
{
    if ks.len() == 0 {
        0
    } else {
        sum_kind_counts(ns, ks.drop_last()) + kind_count(ns, ks.last())
    }
}

/// The per-kind counts of the statistics add up to the node count: every node is
/// counted under exactly one kind.
pub proof fn law_kind_counts_partition_nodes(ns: Seq<Entity>)
    ensures
        sum_counts(present_kinds(ns, all_kinds())) == ns.len(),
{
    lemma_sum_present(ns, all_kinds());
    lemma_all_kind_counts(ns);
    let k = all_kinds();
    assert(k.drop_last() =~= seq![
        EntityKind::XppObject,
        EntityKind::DataEntity,
        EntityKind::Field,
        EntityKind::Service,
        EntityKind::Flow,
        EntityKind::Solution,
        EntityKind::LearnPage,
    ]);
    assert(k.drop_last().drop_last() =~= seq![
        EntityKind::XppObject,
        EntityKind::DataEntity,
        EntityKind::Field,
        EntityKind::Service,
        EntityKind::Flow,
        EntityKind::Solution,
    ]);
    assert(k.drop_last().drop_last().drop_last() =~= seq![
        EntityKind::XppObject,
        EntityKind::DataEntity,
        EntityKind::Field,
        EntityKind::Service,
        EntityKind::Flow,
    ]);
    assert(k.drop_last().drop_last().drop_last().drop_last() =~= seq![
        EntityKind::XppObject,
        EntityKind::DataEntity,
        EntityKind::Field,
        EntityKind::Service,
    ]);
    assert(k.drop_last().drop_last().drop_last().drop_last().drop_last() =~= seq![
        EntityKind::XppObject,
        EntityKind::DataEntity,
        EntityKind::Field,
    ]);
    assert(k.drop_last().drop_last().drop_last().drop_last().drop_last().drop_last() =~= seq![
        EntityKind::XppObject,
        EntityKind::DataEntity,
    ]);
    assert(k.drop_last().drop_last().drop_last().drop_last().drop_last().drop_last().drop_last()
        =~= seq![EntityKind::XppObject]);
    assert(k.drop_last().drop_last().drop_last().drop_last().drop_last().drop_last().drop_last().drop_last()
        =~= Seq::<EntityKind>::empty());
    reveal_with_fuel(sum_kind_counts, 9);
    assert(sum_kind_counts(ns, k) == all_kind_counts(ns));
}

} // verus!
