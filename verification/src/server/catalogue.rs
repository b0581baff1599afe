//! The tools the server registers, in registration order, and which of them a
//! read-only server exposes: a read-only server hides every tool that writes.

use vstd::prelude::*;
use crate::json::owned;

verus! {

/// A registered tool: its name, its description, and whether it changes state.
#[derive(Debug)]
pub struct ToolInfo {
    pub name: String,
    pub description: String,
    pub writes: bool,
}

impl View for ToolInfo {
    type V = (Seq<char>, Seq<char>, bool);

    open spec fn view(&self) -> (Seq<char>, Seq<char>, bool) {
        (self.name@, self.description@, self.writes)
    }
}

/// Every tool, in registration order: knowledge-base search, service and
/// environment, X++ metadata, knowledge graph, then the guided workflows.
pub open spec fn tool_catalogue_spec() -> Seq<(Seq<char>, Seq<char>, bool)> {
    seq![
        ("xpp.search"@, "Hybrid search over the X++ source corpus."@, false),
        ("flow.find_process"@, "Search the Power Automate / business-process repository."@, false),
        ("app.search_solutions"@, "Search the Dataverse solution / module fact sheets."@, false),
        ("d365.learn.search"@, "Search the Microsoft Learn corpus."@, false),
        ("d365.kb.navigate"@, "Walk the hierarchical document tree section by section. Pass a document_id and an optional dotted path (e.g. '1.2.1') and depth to bound the returned subtree. Use this for long Microsoft Learn pages / X++ source files when similarity-blind retrieval would miss the right section."@, false),
        ("d365.env.info"@, "Dynamics 365 environment identity: environment, default legal entity, version, base URL. Always read-only."@, false),
        ("d365.env.health"@, "Operator health snapshot: connection pool, read-only mode, metadata connection summary, graph stats. Always read-only."@, false),
        ("d365.env.cache_stats"@, "Live hit/miss counters for the service-metadata cache. JSON."@, false),
        ("d365.env.cache_invalidate"@, "Drop every cached service-metadata entry (e.g. after a metadata-changing deployment). Always allowed."@, false),
        ("d365.service.search"@, "Search OData actions / Custom Service operations by name, description, or service group."@, false),
        ("d365.service.metadata"@, "Parameter signature, read-only flag, change-set requirement, and security privileges for one OData operation. Call this before d365.service.call."@, false),
        ("d365.service.bulk_metadata"@, "Fetch metadata for several operations in one call; returns found operations plus a `missing` list."@, false),
        ("d365.service.call"@, "Invoke an OData action / Custom Service operation by name with a parameters object. Read-only mode (default) blocks any operation not declared safe. Set commit=true to submit it inside an atomic $batch change set with automatic commit/rollback based on the returned Infolog (requires --enable-writes)."@, false),
        ("d365.entity.read"@, "Read rows from a Dynamics 365 data entity with optional $select projection and $filter clauses. Company-scoped entities are automatically restricted to the connection's legal entity. Hard-capped at 1000 rows."@, false),
        ("d365.entity.structure"@, "Field metadata for a data entity: EDM types, key fields, company-scoping flag, security duty, and the SAP→D365 mapping note."@, false),
        ("d365.docs.search"@, "Default hybrid retrieval (dense + BM25 + RRF + rerank) across the whole D365 corpus. Start here; promote to kb.multi_hop only for dependency / impact questions."@, false),
        ("d365.infolog.parse"@, "Parse an OData error payload or an Infolog message list into typed messages with severities, and report whether any message indicates failure."@, false),
        ("d365.customer.search"@, "Search customers (CustomersV3) by organization name. Read-only."@, false),
        ("d365.customer.get"@, "Fetch a single customer (CustomersV3) by account number. Read-only."@, false),
        ("xpp.meta.get_class"@, "Retrieve X++ class source."@, false),
        ("xpp.meta.get_interface"@, "Retrieve X++ interface source."@, false),
        ("xpp.meta.get_table"@, "Retrieve X++ table definition."@, false),
        ("xpp.meta.get_job"@, "Retrieve X++ job source."@, false),
        ("xpp.meta.get_form"@, "Retrieve X++ form source."@, false),
        ("xpp.meta.get_data_entity"@, "Retrieve a data entity definition (public collection name, properties, source) via the Metadata API."@, false),
        ("xpp.meta.get_model_contents"@, "List the objects in a model (classes, jobs, interfaces, tables, ...)."@, false),
        ("xpp.meta.search"@, "Live X++/AOT object search via the Metadata API (different from xpp.search, which queries the RAG-indexed corpus). Constrained kind enum."@, false),
        ("xpp.meta.cross_reference"@, "Impact analysis: list places that use a given X++ object (the analog of ABAP where-used). Returns object name, kind, location, and usage type (implements / call / read / write)."@, false),
        ("xpp.meta.get_entity_contents"@, "Data-entity contents via the Metadata path. Some environments block bulk entity reads — error code EntityDataBlocked tells the agent to fall back to d365.entity.read (OData)."@, false),
        ("xpp.meta.deploy"@, "Build & deploy an X++ object (state-mutating; the analog of ABAP activate). Hidden in read-only mode by the server exposure policy; still re-checks the per-request read-only flag."@, true),
        ("kb.multi_hop"@, "HippoRAG-style multi-hop traversal (Personalised PageRank) across the Dynamics 365 knowledge graph. Use this for impact / cross-reference / dependency-chain queries. Returns nodes with hop distance from any seed."@, false),
        ("kb.global_query"@, "GraphRAG community-level Q&A. Returns the top communities (clusters of related entities) overlapping the query, with members and a synthesised summary. Use this for global / analytical / cross-domain questions."@, false),
        ("kb.summarise"@, "RAPTOR hierarchical summary at the requested level (0 = leaves, 1 = communities, 2 = module roll-ups). Use for granularity-aware orientation queries."@, false),
        ("kb.graph_neighborhood"@, "Multi-hop neighbourhood of an explicit set of entity IDs (e.g. ['xpp:GTFinPostJournal', 'svc:LedgerGeneralJournalEntry']). PPR-ranked. Use after d365.docs.search or xpp.meta.cross_reference has identified concrete entities."@, false),
        ("d365.workflow.create_purchase_order"@, "Guided purchase-order creation. Mid-execution the tool elicits vendor, item, quantity, legal entity, currency, and delivery date — declining the form cancels without side-effects. Wires PurchaseOrderCreate (atomic $batch) in write mode."@, true),
        ("d365.workflow.maintain_customer"@, "Two-step elicitation walking the user through a customer (CustomersV3) change: pick the data view, then fill in the scoped fields. Demonstrates chained elicitation — either step can be declined safely. Wires CustomerMaintain in write mode."@, true),
        ("d365.workflow.deploy_package"@, "Deploy a deployable package with a confirmation form. Requires the user to re-type the package name and explicitly opt in to dangerous flags (skip_solution_checker). Refuses entirely on clients that don't advertise the elicitation capability."@, true),
    ]
}

fn tool(name: &str, description: &str, writes: bool) -> (t: ToolInfo)
    ensures
        t@ == (name@, description@, writes),
{
    ToolInfo { name: owned(name), description: owned(description), writes }
}

/// The registered tools.
pub fn tool_catalogue() -> (r: Vec<ToolInfo>)
    ensures
        r@.map_values(|t: ToolInfo| t@) == tool_catalogue_spec(),
{
    let mut out: Vec<ToolInfo> = Vec::new();
    out.push(tool("xpp.search", "Hybrid search over the X++ source corpus.", false));
    out.push(tool("flow.find_process", "Search the Power Automate / business-process repository.", false));
    out.push(tool("app.search_solutions", "Search the Dataverse solution / module fact sheets.", false));
    out.push(tool("d365.learn.search", "Search the Microsoft Learn corpus.", false));
    out.push(tool("d365.kb.navigate", "Walk the hierarchical document tree section by section. Pass a document_id and an optional dotted path (e.g. '1.2.1') and depth to bound the returned subtree. Use this for long Microsoft Learn pages / X++ source files when similarity-blind retrieval would miss the right section.", false));
    out.push(tool("d365.env.info", "Dynamics 365 environment identity: environment, default legal entity, version, base URL. Always read-only.", false));
    out.push(tool("d365.env.health", "Operator health snapshot: connection pool, read-only mode, metadata connection summary, graph stats. Always read-only.", false));
    out.push(tool("d365.env.cache_stats", "Live hit/miss counters for the service-metadata cache. JSON.", false));
    out.push(tool("d365.env.cache_invalidate", "Drop every cached service-metadata entry (e.g. after a metadata-changing deployment). Always allowed.", false));
    out.push(tool("d365.service.search", "Search OData actions / Custom Service operations by name, description, or service group.", false));
    out.push(tool("d365.service.metadata", "Parameter signature, read-only flag, change-set requirement, and security privileges for one OData operation. Call this before d365.service.call.", false));
    out.push(tool("d365.service.bulk_metadata", "Fetch metadata for several operations in one call; returns found operations plus a `missing` list.", false));
    out.push(tool("d365.service.call", "Invoke an OData action / Custom Service operation by name with a parameters object. Read-only mode (default) blocks any operation not declared safe. Set commit=true to submit it inside an atomic $batch change set with automatic commit/rollback based on the returned Infolog (requires --enable-writes).", false));
    out.push(tool("d365.entity.read", "Read rows from a Dynamics 365 data entity with optional $select projection and $filter clauses. Company-scoped entities are automatically restricted to the connection's legal entity. Hard-capped at 1000 rows.", false));
    out.push(tool("d365.entity.structure", "Field metadata for a data entity: EDM types, key fields, company-scoping flag, security duty, and the SAP→D365 mapping note.", false));
    out.push(tool("d365.docs.search", "Default hybrid retrieval (dense + BM25 + RRF + rerank) across the whole D365 corpus. Start here; promote to kb.multi_hop only for dependency / impact questions.", false));
    out.push(tool("d365.infolog.parse", "Parse an OData error payload or an Infolog message list into typed messages with severities, and report whether any message indicates failure.", false));
    out.push(tool("d365.customer.search", "Search customers (CustomersV3) by organization name. Read-only.", false));
    out.push(tool("d365.customer.get", "Fetch a single customer (CustomersV3) by account number. Read-only.", false));
    out.push(tool("xpp.meta.get_class", "Retrieve X++ class source.", false));
    out.push(tool("xpp.meta.get_interface", "Retrieve X++ interface source.", false));
    out.push(tool("xpp.meta.get_table", "Retrieve X++ table definition.", false));
    out.push(tool("xpp.meta.get_job", "Retrieve X++ job source.", false));
    out.push(tool("xpp.meta.get_form", "Retrieve X++ form source.", false));
    out.push(tool("xpp.meta.get_data_entity", "Retrieve a data entity definition (public collection name, properties, source) via the Metadata API.", false));
    out.push(tool("xpp.meta.get_model_contents", "List the objects in a model (classes, jobs, interfaces, tables, ...).", false));
    out.push(tool("xpp.meta.search", "Live X++/AOT object search via the Metadata API (different from xpp.search, which queries the RAG-indexed corpus). Constrained kind enum.", false));
    out.push(tool("xpp.meta.cross_reference", "Impact analysis: list places that use a given X++ object (the analog of ABAP where-used). Returns object name, kind, location, and usage type (implements / call / read / write).", false));
    out.push(tool("xpp.meta.get_entity_contents", "Data-entity contents via the Metadata path. Some environments block bulk entity reads — error code EntityDataBlocked tells the agent to fall back to d365.entity.read (OData).", false));
    out.push(tool("xpp.meta.deploy", "Build & deploy an X++ object (state-mutating; the analog of ABAP activate). Hidden in read-only mode by the server exposure policy; still re-checks the per-request read-only flag.", true));
    out.push(tool("kb.multi_hop", "HippoRAG-style multi-hop traversal (Personalised PageRank) across the Dynamics 365 knowledge graph. Use this for impact / cross-reference / dependency-chain queries. Returns nodes with hop distance from any seed.", false));
    out.push(tool("kb.global_query", "GraphRAG community-level Q&A. Returns the top communities (clusters of related entities) overlapping the query, with members and a synthesised summary. Use this for global / analytical / cross-domain questions.", false));
    out.push(tool("kb.summarise", "RAPTOR hierarchical summary at the requested level (0 = leaves, 1 = communities, 2 = module roll-ups). Use for granularity-aware orientation queries.", false));
    out.push(tool("kb.graph_neighborhood", "Multi-hop neighbourhood of an explicit set of entity IDs (e.g. ['xpp:GTFinPostJournal', 'svc:LedgerGeneralJournalEntry']). PPR-ranked. Use after d365.docs.search or xpp.meta.cross_reference has identified concrete entities.", false));
    out.push(tool("d365.workflow.create_purchase_order", "Guided purchase-order creation. Mid-execution the tool elicits vendor, item, quantity, legal entity, currency, and delivery date — declining the form cancels without side-effects. Wires PurchaseOrderCreate (atomic $batch) in write mode.", true));
    out.push(tool("d365.workflow.maintain_customer", "Two-step elicitation walking the user through a customer (CustomersV3) change: pick the data view, then fill in the scoped fields. Demonstrates chained elicitation — either step can be declined safely. Wires CustomerMaintain in write mode.", true));
    out.push(tool("d365.workflow.deploy_package", "Deploy a deployable package with a confirmation form. Requires the user to re-type the package name and explicitly opt in to dangerous flags (skip_solution_checker). Refuses entirely on clients that don't advertise the elicitation capability.", true));
    proof {
        assert(out@.map_values(|t: ToolInfo| t@) =~= tool_catalogue_spec());
    }
    out
}

/// The names of the tools a server exposes, in order: all of them, or in
/// read-only mode those that do not write.
pub open spec fn exposed_spec(tools: Seq<(Seq<char>, Seq<char>, bool)>, read_only: bool) -> Seq<
    Seq<char>,
>
    decreases tools.len(),
{
    if tools.len() == 0 {
        seq![]
    } else if read_only && tools.last().2 {
        exposed_spec(tools.drop_last(), read_only)
    } else {
        exposed_spec(tools.drop_last(), read_only).push(tools.last().0)
    }
}

/// The names of the tools exposed by a server in the given mode.
pub fn exposed_tool_names(tools: &Vec<ToolInfo>, read_only: bool) -> (r: Vec<String>)
    ensures
        r@.map_values(|s: String| s@) == exposed_spec(
            tools@.map_values(|t: ToolInfo| t@),
            read_only,
        ),
{
    let ghost tv = tools@.map_values(|t: ToolInfo| t@);
    let mut r: Vec<String> = Vec::new();
    let mut i: usize = 0;
    while i < tools.len()
        invariant
            i <= tools@.len(),
            tv == tools@.map_values(|t: ToolInfo| t@),
            r@.map_values(|s: String| s@) == exposed_spec(tv.take(i as int), read_only),
        decreases tools.len() - i,
    {
        proof {
            assert(tv.take(i as int + 1).drop_last() =~= tv.take(i as int));
            assert(tv.take(i as int + 1).last() == tools@[i as int]@);
        }
        if !(read_only && tools[i].writes) {
            let ghost before = r@;
            r.push(tools[i].name.clone());
            proof {
                assert(r@.map_values(|s: String| s@) =~= before.map_values(|s: String| s@).push(
                    tools@[i as int].name@,
                ));
            }
        }
        i = i + 1;
    }
    proof {
        assert(tv.take(tv.len() as int) =~= tv);
    }
    r
}

/// A read-only server exposes no tool that writes and every tool that does not;
/// a server with writes enabled exposes every tool.
pub proof fn law_read_only_hides_writes(tools: Seq<(Seq<char>, Seq<char>, bool)>)
    ensures
        forall|k: int|
            0 <= k < exposed_spec(tools, true).len() ==> exists|j: int|
                0 <= j < tools.len() && !tools[j].2 && tools[j].0 == #[trigger] exposed_spec(
                    tools,
                    true,
                )[k],
        forall|j: int|
            0 <= j < tools.len() && !(#[trigger] tools[j]).2 ==> exposed_spec(tools, true).contains(
                tools[j].0,
            ),
        exposed_spec(tools, false) == tools.map_values(|t: (Seq<char>, Seq<char>, bool)| t.0),
    decreases tools.len(),
{
    if tools.len() > 0 {
        let init = tools.drop_last();
        law_read_only_hides_writes(init);
        let e = exposed_spec(tools, true);
        let ei = exposed_spec(init, true);
        assert forall|k: int| 0 <= k < e.len() implies exists|j: int|
            0 <= j < tools.len() && !tools[j].2 && tools[j].0 == #[trigger] e[k] by {
            if k < ei.len() {
                assert(e[k] == ei[k]);
                let j = choose|j: int| 0 <= j < init.len() && !init[j].2 && init[j].0 == ei[k];
                assert(tools[j] == init[j]);
            } else {
                assert(tools[tools.len() - 1] == tools.last());
            }
        }
        assert forall|j: int| 0 <= j < tools.len() && !(#[trigger] tools[j]).2 implies e.contains(
            tools[j].0,
        ) by {
            if j < tools.len() - 1 {
                assert(init[j] == tools[j]);
                let w = choose|w: int| 0 <= w < ei.len() && ei[w] == init[j].0;
                assert(e[w] == ei[w]);
            } else {
                assert(tools[j] == tools.last());
                assert(e[e.len() - 1] == tools.last().0);
            }
        }
        assert(exposed_spec(tools, false) =~= tools.map_values(
            |t: (Seq<char>, Seq<char>, bool)| t.0,
        )) by {
            assert(init.map_values(|t: (Seq<char>, Seq<char>, bool)| t.0).push(tools.last().0)
                =~= tools.map_values(|t: (Seq<char>, Seq<char>, bool)| t.0));
        }
    } else {
        assert(exposed_spec(tools, false) =~= tools.map_values(
            |t: (Seq<char>, Seq<char>, bool)| t.0,
        ));
    }
}

} // verus!
