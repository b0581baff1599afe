//! The illustrative documents the knowledge base is seeded with, across the four
//! Dynamics 365 knowledge domains (X++, Power Automate flows, Dataverse
//! solutions, Microsoft Learn).  Chunking, embedding and storage happen in the
//! knowledge-base pipeline; the corpus itself is fixed here.

use vstd::prelude::*;
use crate::json::owned;

verus! {

/// The knowledge domain a document belongs to.
#[derive(Debug, Clone, Copy, PartialEq, Eq, Structural)]
pub enum KbDomain {
    Xpp,
    Flow,
    Solution,
    Learn,
}

/// A document of the seed corpus.
#[derive(Debug)]
pub struct SeedDocument {
    pub id: String,
    pub domain: KbDomain,
    pub uri: String,
    pub title: String,
    pub text: String,
    /// Section path of the document within its source, outermost first.
    pub breadcrumbs: Vec<String>,
    /// Extra key/value facts, in key order.
    pub metadata: Vec<(String, String)>,
}

/// The plain content of a seed document.
pub struct SeedDocumentView {
    pub id: Seq<char>,
    pub domain: KbDomain,
    pub uri: Seq<char>,
    pub title: Seq<char>,
    pub text: Seq<char>,
    pub breadcrumbs: Seq<Seq<char>>,
    pub metadata: Seq<(Seq<char>, Seq<char>)>,
}

impl View for SeedDocument {
    type V = SeedDocumentView;

    open spec fn view(&self) -> SeedDocumentView {
        SeedDocumentView {
            id: self.id@,
            domain: self.domain,
            uri: self.uri@,
            title: self.title@,
            text: self.text@,
            breadcrumbs: self.breadcrumbs@.map_values(|s: String| s@),
            metadata: self.metadata@.map_values(|p: (String, String)| (p.0@, p.1@)),
        }
    }
}

pub open spec fn doc_spec(
    id: Seq<char>,
    domain: KbDomain,
    uri: Seq<char>,
    title: Seq<char>,
    text: Seq<char>,
    breadcrumbs: Seq<Seq<char>>,
    metadata: Seq<(Seq<char>, Seq<char>)>,
) -> SeedDocumentView {
    SeedDocumentView { id, domain, uri, title, text, breadcrumbs, metadata }
}

/// The seed corpus, in order.
pub open spec fn seed_documents_spec() -> Seq<SeedDocumentView> {
    seq![
        doc_spec(
            "xpp:GTFin/GTFinPostJournal"@,
            KbDomain::Xpp,
            "xpp-obj://GTFin/GTFinPostJournal"@,
            "GTFinPostJournal"@,
            "X++ job GTFinPostJournal posts general ledger journals via the LedgerGeneralJournalEntry OData service. Validates the ledger period is open (FiscalCalendarPeriod), checks financial dimensions, and submits the journal lines in a $batch change set so the post is atomic."@,
            seq![],
            seq![("model"@, "GTFin"@), ("type"@, "JOB"@)],
        ),
        doc_spec(
            "xpp:GTScm/GTScmGrnCheck"@,
            KbDomain::Xpp,
            "xpp-obj://GTScm/GTScmGrnCheck"@,
            "GTScmGrnCheck"@,
            "X++ class GTScmGrnCheck reconciles product (goods) receipts with purchase order quantities; triggers tolerance checks and inventory valuation flow. Calls the InventoryProductReceiptPost OData operation on success."@,
            seq![],
            seq![("model"@, "GTScm"@), ("type"@, "CLASS"@)],
        ),
        doc_spec(
            "flow:core/P2P-001"@,
            KbDomain::Flow,
            "flow-proc://core/P2P-001"@,
            "Procure-to-Pay (P2P)"@,
            "Power Automate / business process P2P-001: purchase requisition → PO approval → product receipt → invoice matching → payment release. Throughput drops 18% at PO approval due to approver coverage gaps."@,
            seq!["core"@],
            seq![],
        ),
        doc_spec(
            "flow:core/O2C-002"@,
            KbDomain::Flow,
            "flow-proc://core/O2C-002"@,
            "Order-to-Cash (O2C)"@,
            "Power Automate / business process O2C-002: sales order entry → availability check → delivery → invoicing → settlement. Mining shows a 12% rework loop between invoicing and delivery, primarily caused by incomplete delivery addresses."@,
            seq!["core"@],
            seq![],
        ),
        doc_spec(
            "solution:FIN-CORE"@,
            KbDomain::Solution,
            "solution://FIN-CORE"@,
            "Dynamics 365 Finance"@,
            "Solution fact sheet for the Dynamics 365 Finance module (FIN-CORE). Lifecycle: active. Capabilities: general ledger, accounts payable, accounts receivable, fixed assets. Integrations: GTFinPostJournal, dual-write to Dataverse. EOL: 2031-12."@,
            seq![],
            seq![],
        ),
        doc_spec(
            "solution:LEGACY-BILL"@,
            KbDomain::Solution,
            "solution://LEGACY-BILL"@,
            "Legacy Billing Engine"@,
            "Solution fact sheet for the Legacy Billing Engine (LEGACY-BILL). Lifecycle: phase-out. Integrations: mainframe. EOL: 2026-09. Replacement: Dynamics 365 Sales/Finance billing."@,
            seq![],
            seq![],
        ),
        doc_spec(
            "learn:finance/period-close"@,
            KbDomain::Learn,
            "d365-learn://finance/period-close"@,
            "Financial period close in Dynamics 365 Finance"@,
            "Microsoft Learn page on financial period close: open and close ledger periods via the FiscalCalendarPeriod entity, execute foreign-currency revaluation, post accruals and deferrals, run LedgerJournalTrans to GeneralJournalAccountEntry reconciliation, and generate the balance audit trail."@,
            seq!["Finance"@, "General Ledger"@],
            seq![("module"@, "GeneralLedger"@)],
        ),
        doc_spec(
            "learn:scm/product-receipt"@,
            KbDomain::Learn,
            "d365-learn://scm/product-receipt"@,
            "Product receipt posting"@,
            "Microsoft Learn page describing product receipt posting against a purchase order. Journal types: arrival receipt, reversal, return. Updates InventTrans and the inventory valuation."@,
            seq!["Supply Chain"@, "Inventory Management"@],
            seq![("module"@, "SupplyChain"@)],
        ),
    ]
}

fn doc(
    id: &str,
    domain: KbDomain,
    uri: &str,
    title: &str,
    text: &str,
    breadcrumbs: &[&str],
    metadata: &[(&str, &str)],
) -> (d: SeedDocument)
    ensures
        d@ == doc_spec(
            id@,
            domain,
            uri@,
            title@,
            text@,
            breadcrumbs@.map_values(|s: &str| s@),
            metadata@.map_values(|p: (&str, &str)| (p.0@, p.1@)),
        ),
{
    let mut crumbs: Vec<String> = Vec::new();
    let mut i: usize = 0;
    while i < breadcrumbs.len()
        invariant
            i <= breadcrumbs@.len(),
            crumbs@.map_values(|s: String| s@) == breadcrumbs@.take(i as int).map_values(
                |s: &str| s@,
            ),
        decreases breadcrumbs.len() - i,
    {
        let ghost before = crumbs@;
        crumbs.push(owned(breadcrumbs[i]));
        proof {
            assert(crumbs@.map_values(|s: String| s@) =~= before.map_values(|s: String| s@).push(
                breadcrumbs@[i as int]@,
            ));
            assert(breadcrumbs@.take(i as int + 1).map_values(|s: &str| s@) =~= breadcrumbs@.take(
                i as int,
            ).map_values(|s: &str| s@).push(breadcrumbs@[i as int]@));
        }
        i = i + 1;
    }
    let mut meta: Vec<(String, String)> = Vec::new();
    let mut j: usize = 0;
    while j < metadata.len()
        invariant
            j <= metadata@.len(),
            meta@.map_values(|p: (String, String)| (p.0@, p.1@)) == metadata@.take(
                j as int,
            ).map_values(|p: (&str, &str)| (p.0@, p.1@)),
        decreases metadata.len() - j,
    {
        let ghost before = meta@;
        let (k, v) = metadata[j];
        meta.push((owned(k), owned(v)));
        proof {
            assert(meta@.map_values(|p: (String, String)| (p.0@, p.1@)) =~= before.map_values(
                |p: (String, String)| (p.0@, p.1@),
            ).push((metadata@[j as int].0@, metadata@[j as int].1@)));
            assert(metadata@.take(j as int + 1).map_values(|p: (&str, &str)| (p.0@, p.1@))
                =~= metadata@.take(j as int).map_values(|p: (&str, &str)| (p.0@, p.1@)).push(
                (metadata@[j as int].0@, metadata@[j as int].1@),
            ));
        }
        j = j + 1;
    }
    proof {
        assert(breadcrumbs@.take(breadcrumbs@.len() as int) =~= breadcrumbs@);
        assert(metadata@.take(metadata@.len() as int) =~= metadata@);
    }
    SeedDocument {
        id: owned(id),
        domain,
        uri: owned(uri),
        title: owned(title),
        text: owned(text),
        breadcrumbs: crumbs,
        metadata: meta,
    }
}

/// The seed corpus: two X++ objects, two business processes, two solution fact
/// sheets and two Microsoft Learn pages.
pub fn seed_documents() -> (docs: Vec<SeedDocument>)
    ensures
        docs@.map_values(|d: SeedDocument| d@) == seed_documents_spec(),
{
    let mut out: Vec<SeedDocument> = Vec::new();
    {
        let crumbs: [&str; 0] = [];
        let meta: [(&str, &str); 2] = [("model", "GTFin"), ("type", "JOB")];
        proof {
            assert(crumbs@.map_values(|s: &str| s@) =~= seq![]);
            assert(meta@.map_values(|p: (&str, &str)| (p.0@, p.1@)) =~= seq![("model"@, "GTFin"@), ("type"@, "JOB"@)]);
        }
        out.push(
            doc(
                "xpp:GTFin/GTFinPostJournal",
                KbDomain::Xpp,
                "xpp-obj://GTFin/GTFinPostJournal",
                "GTFinPostJournal",
                "X++ job GTFinPostJournal posts general ledger journals via the LedgerGeneralJournalEntry OData service. Validates the ledger period is open (FiscalCalendarPeriod), checks financial dimensions, and submits the journal lines in a $batch change set so the post is atomic.",
                &crumbs,
                &meta,
            ),
        );
    }
    {
        let crumbs: [&str; 0] = [];
        let meta: [(&str, &str); 2] = [("model", "GTScm"), ("type", "CLASS")];
        proof {
            assert(crumbs@.map_values(|s: &str| s@) =~= seq![]);
            assert(meta@.map_values(|p: (&str, &str)| (p.0@, p.1@)) =~= seq![("model"@, "GTScm"@), ("type"@, "CLASS"@)]);
        }
        out.push(
            doc(
                "xpp:GTScm/GTScmGrnCheck",
                KbDomain::Xpp,
                "xpp-obj://GTScm/GTScmGrnCheck",
                "GTScmGrnCheck",
                "X++ class GTScmGrnCheck reconciles product (goods) receipts with purchase order quantities; triggers tolerance checks and inventory valuation flow. Calls the InventoryProductReceiptPost OData operation on success.",
                &crumbs,
                &meta,
            ),
        );
    }
    {
        let crumbs: [&str; 1] = ["core"];
        let meta: [(&str, &str); 0] = [];
        proof {
            assert(crumbs@.map_values(|s: &str| s@) =~= seq!["core"@]);
            assert(meta@.map_values(|p: (&str, &str)| (p.0@, p.1@)) =~= seq![]);
        }
        out.push(
            doc(
                "flow:core/P2P-001",
                KbDomain::Flow,
                "flow-proc://core/P2P-001",
                "Procure-to-Pay (P2P)",
                "Power Automate / business process P2P-001: purchase requisition → PO approval → product receipt → invoice matching → payment release. Throughput drops 18% at PO approval due to approver coverage gaps.",
                &crumbs,
                &meta,
            ),
        );
    }
    {
        let crumbs: [&str; 1] = ["core"];
        let meta: [(&str, &str); 0] = [];
        proof {
            assert(crumbs@.map_values(|s: &str| s@) =~= seq!["core"@]);
            assert(meta@.map_values(|p: (&str, &str)| (p.0@, p.1@)) =~= seq![]);
        }
        out.push(
            doc(
                "flow:core/O2C-002",
                KbDomain::Flow,
                "flow-proc://core/O2C-002",
                "Order-to-Cash (O2C)",
                "Power Automate / business process O2C-002: sales order entry → availability check → delivery → invoicing → settlement. Mining shows a 12% rework loop between invoicing and delivery, primarily caused by incomplete delivery addresses.",
                &crumbs,
                &meta,
            ),
        );
    }
    {
        let crumbs: [&str; 0] = [];
        let meta: [(&str, &str); 0] = [];
        proof {
            assert(crumbs@.map_values(|s: &str| s@) =~= seq![]);
            assert(meta@.map_values(|p: (&str, &str)| (p.0@, p.1@)) =~= seq![]);
        }
        out.push(
            doc(
                "solution:FIN-CORE",
                KbDomain::Solution,
                "solution://FIN-CORE",
                "Dynamics 365 Finance",
                "Solution fact sheet for the Dynamics 365 Finance module (FIN-CORE). Lifecycle: active. Capabilities: general ledger, accounts payable, accounts receivable, fixed assets. Integrations: GTFinPostJournal, dual-write to Dataverse. EOL: 2031-12.",
                &crumbs,
                &meta,
            ),
        );
    }
    {
        let crumbs: [&str; 0] = [];
        let meta: [(&str, &str); 0] = [];
        proof {
            assert(crumbs@.map_values(|s: &str| s@) =~= seq![]);
            assert(meta@.map_values(|p: (&str, &str)| (p.0@, p.1@)) =~= seq![]);
        }
        out.push(
            doc(
                "solution:LEGACY-BILL",
                KbDomain::Solution,
                "solution://LEGACY-BILL",
                "Legacy Billing Engine",
                "Solution fact sheet for the Legacy Billing Engine (LEGACY-BILL). Lifecycle: phase-out. Integrations: mainframe. EOL: 2026-09. Replacement: Dynamics 365 Sales/Finance billing.",
                &crumbs,
                &meta,
            ),
        );
    }
    {
        let crumbs: [&str; 2] = ["Finance", "General Ledger"];
        let meta: [(&str, &str); 1] = [("module", "GeneralLedger")];
        proof {
            assert(crumbs@.map_values(|s: &str| s@) =~= seq!["Finance"@, "General Ledger"@]);
            assert(meta@.map_values(|p: (&str, &str)| (p.0@, p.1@)) =~= seq![("module"@, "GeneralLedger"@)]);
        }
        out.push(
            doc(
                "learn:finance/period-close",
                KbDomain::Learn,
                "d365-learn://finance/period-close",
                "Financial period close in Dynamics 365 Finance",
                "Microsoft Learn page on financial period close: open and close ledger periods via the FiscalCalendarPeriod entity, execute foreign-currency revaluation, post accruals and deferrals, run LedgerJournalTrans to GeneralJournalAccountEntry reconciliation, and generate the balance audit trail.",
                &crumbs,
                &meta,
            ),
        );
    }
    {
        let crumbs: [&str; 2] = ["Supply Chain", "Inventory Management"];
        let meta: [(&str, &str); 1] = [("module", "SupplyChain")];
        proof {
            assert(crumbs@.map_values(|s: &str| s@) =~= seq!["Supply Chain"@, "Inventory Management"@]);
            assert(meta@.map_values(|p: (&str, &str)| (p.0@, p.1@)) =~= seq![("module"@, "SupplyChain"@)]);
        }
        out.push(
            doc(
                "learn:scm/product-receipt",
                KbDomain::Learn,
                "d365-learn://scm/product-receipt",
                "Product receipt posting",
                "Microsoft Learn page describing product receipt posting against a purchase order. Journal types: arrival receipt, reversal, return. Updates InventTrans and the inventory valuation.",
                &crumbs,
                &meta,
            ),
        );
    }
    proof {
        assert(out@.map_values(|d: SeedDocument| d@) =~= seed_documents_spec());
    }
    out
}

} // verus!
