//! Offline Metadata backend, seeded with the GTFin / GTScm fixtures that mirror
//! the knowledge-graph seed: jobs, classes, an interface, a table, a form, a data
//! entity, two models, cross-references wired between them, and entity rows.

use vstd::prelude::*;
use std::sync::Arc;
use crate::json::{Json, JsonV, owned, members_view, lemma_members_view, items_view, lemma_items_view};
use crate::text::{
    decimal, decimal_text, line_count, line_count_spec, unicode_lowercase, terms_score,
    query_terms, lower_chars, push_all, score_of, split_words, vecs_view, contains_seq,
    lemma_contains_concat, lemma_contains_counts, lemma_score_covers_term,
};
use crate::rank::{is_ranking, rank_desc};
use crate::odata::client::clone_opt;
use crate::meta::client::{MetaCallContext, MetadataClient};
use crate::meta::connection::{D365Connection, opt_chars};
use crate::meta::error::{MetaError, MetaResult};
use crate::meta::types::{
    CrossReferenceHit, CrossReferenceRequest, DataEntityView, DeployOutcome, DeployRequest,
    EntityRow, MetaSearchHit, MetaSearchRequest, ModelContents, ModelMember, ObjectSource,
    XppObjectKind, MAX_ENTITY_ROWS, kind_label,
};

verus! {

/// The cross-references recorded against one object.
pub struct CrossRefs {
    pub name: String,
    pub kind: XppObjectKind,
    pub hits: Vec<CrossReferenceHit>,
}

/// The rows held for one data entity.
pub struct EntityData {
    pub entity: String,
    pub rows: Vec<EntityRow>,
}

pub struct MockMetadataClient {
    connection: D365Connection,
    classes: Vec<ObjectSource>,
    interfaces: Vec<ObjectSource>,
    tables: Vec<ObjectSource>,
    jobs: Vec<ObjectSource>,
    forms: Vec<ObjectSource>,
    data_entities: Vec<DataEntityView>,
    models: Vec<ModelContents>,
    cross_refs: Vec<CrossRefs>,
    entity_data: Vec<EntityData>,
}

// ---------------------------------------------------------------------------
// Lookups
// ---------------------------------------------------------------------------

/// Position of the first object named `name`.
pub open spec fn object_index(objs: Seq<ObjectSource>, name: Seq<char>) -> Option<int> {
    if exists|i: int| 0 <= i < objs.len() && objs[i].name@ == name {
        Some(
            choose|i: int|
                0 <= i < objs.len() && objs[i].name@ == name && forall|j: int|
                    0 <= j < i ==> objs[j].name@ != name,
        )
    } else {
        None
    }
}

/// What a lookup of `name` in `objs` gives: a copy of the object, or `NotFound`
/// naming the kind and the name.
pub open spec fn object_outcome(
    objs: Seq<ObjectSource>,
    name: Seq<char>,
    kind: Seq<char>,
    r: MetaResult<ObjectSource>,
) -> bool {
    match object_index(objs, name) {
        Some(i) => r matches Ok(o) && o == objs[i],
        None => r matches Err(MetaError::NotFound { kind: k, name: n }) && k@ == kind && n@ == name,
    }
}

fn find_object(objs: &Vec<ObjectSource>, name: &str) -> (r: Option<usize>)
    ensures
        match object_index(objs@, name@) {
            Some(i) => r matches Some(k) && k as int == i && i < objs@.len(),
            None => r is None,
        },
{
    let mut i: usize = 0;
    while i < objs.len()
        invariant
            i <= objs.len(),
            forall|j: int| 0 <= j < i ==> objs@[j].name@ != name@,
        decreases objs.len() - i,
    {
        if crate::json::str_eq(objs[i].name.as_str(), name) {
            proof {
                let c = choose|k: int|
                    0 <= k < objs@.len() && objs@[k].name@ == name@ && forall|j: int|
                        0 <= j < k ==> objs@[j].name@ != name@;
                assert(c == i) by {
                    if c > i {
                        assert(objs@[i as int].name@ == name@);
                    }
                }
            }
            return Some(i);
        }
        i = i + 1;
    }
    None
}

fn fetch_object(objs: &Vec<ObjectSource>, name: &str, kind: &str) -> (r: MetaResult<ObjectSource>)
    ensures
        object_outcome(objs@, name@, kind@, r),
{
    match find_object(objs, name) {
        Some(i) => Ok(objs[i].duplicate()),
        None => Err(MetaError::NotFound { kind: owned(kind), name: owned(name) }),
    }
}

/// Position of the first data entity named `name`.
pub open spec fn entity_view_index(es: Seq<DataEntityView>, name: Seq<char>) -> Option<int> {
    if exists|i: int| 0 <= i < es.len() && es[i].name@ == name {
        Some(
            choose|i: int|
                0 <= i < es.len() && es[i].name@ == name && forall|j: int|
                    0 <= j < i ==> es[j].name@ != name,
        )
    } else {
        None
    }
}

/// Position of the first model named `name`.
pub open spec fn model_index(ms: Seq<ModelContents>, name: Seq<char>) -> Option<int> {
    if exists|i: int| 0 <= i < ms.len() && ms[i].model@ == name {
        Some(
            choose|i: int|
                0 <= i < ms.len() && ms[i].model@ == name && forall|j: int|
                    0 <= j < i ==> ms[j].model@ != name,
        )
    } else {
        None
    }
}

/// Position of the first cross-reference list recorded against `(name, kind)`.
pub open spec fn xref_index(xs: Seq<CrossRefs>, name: Seq<char>, kind: XppObjectKind) -> Option<
    int,
> {
    if exists|i: int| 0 <= i < xs.len() && xs[i].name@ == name && xs[i].kind == kind {
        Some(
            choose|i: int|
                0 <= i < xs.len() && xs[i].name@ == name && xs[i].kind == kind && forall|j: int|
                    0 <= j < i ==> !(xs[j].name@ == name && xs[j].kind == kind),
        )
    } else {
        None
    }
}

/// Position of the first row set held for `entity`.
pub open spec fn data_index(ds: Seq<EntityData>, entity: Seq<char>) -> Option<int> {
    if exists|i: int| 0 <= i < ds.len() && ds[i].entity@ == entity {
        Some(
            choose|i: int|
                0 <= i < ds.len() && ds[i].entity@ == entity && forall|j: int|
                    0 <= j < i ==> ds[j].entity@ != entity,
        )
    } else {
        None
    }
}

pub open spec fn rows_view(rows: Seq<EntityRow>) -> Seq<Seq<(Seq<char>, JsonV)>> {
    rows.map_values(|r: EntityRow| members_view(r.values@))
}

fn copy_row(r: &EntityRow) -> (c: EntityRow)
    ensures
        members_view(c.values@) == members_view(r.values@),
{
    let mut values: Vec<(String, Json)> = Vec::new();
    let mut i: usize = 0;
    while i < r.values.len()
        invariant
            i <= r.values.len(),
            members_view(values@) == members_view(r.values@.take(i as int)),
        decreases r.values.len() - i,
    {
        let (k, v) = &r.values[i];
        let ghost before = values@;
        values.push((k.clone(), v.duplicate()));
        proof {
            assert(values@.drop_last() =~= before);
            assert(r.values@.take(i as int + 1).drop_last() =~= r.values@.take(i as int));
        }
        i = i + 1;
    }
    proof {
        assert(r.values@.take(r.values@.len() as int) =~= r.values@);
    }
    EntityRow { values }
}

// ---------------------------------------------------------------------------
// Search
// ---------------------------------------------------------------------------

/// The text a query is matched against: the name and the description (empty when
/// there is none), each lower-cased, separated by a space.
pub open spec fn object_text(o: ObjectSource) -> Seq<char> {
    unicode_lowercase(o.name@) + seq![' '] + unicode_lowercase(
        match o.description {
            Some(d) => d@,
            None => Seq::<char>::empty(),
        },
    )
}

pub open spec fn kind_admits(filter: Option<XppObjectKind>, k: XppObjectKind) -> bool {
    match filter {
        Some(f) => f == k,
        None => true,
    }
}

/// Positions of the objects of the requested kind that score above zero, in
/// catalogue order.
pub open spec fn scoring_objects(
    objs: Seq<ObjectSource>,
    filter: Option<XppObjectKind>,
    terms: Seq<Seq<char>>,
) -> Seq<int>
    decreases objs.len(),
{
    if objs.len() == 0 {
        seq![]
    } else if kind_admits(filter, objs.last().kind) && terms_score(object_text(objs.last()), terms)
        > 0 {
        scoring_objects(objs.drop_last(), filter, terms).push(objs.len() - 1)
    } else {
        scoring_objects(objs.drop_last(), filter, terms)
    }
}

proof fn lemma_scoring_objects(
    objs: Seq<ObjectSource>,
    filter: Option<XppObjectKind>,
    terms: Seq<Seq<char>>,
)
    ensures
        forall|k: int|
            0 <= k < scoring_objects(objs, filter, terms).len() ==> 0 <= #[trigger] scoring_objects(
                objs,
                filter,
                terms,
            )[k] < objs.len(),
    decreases objs.len(),
{
    if objs.len() > 0 {
        let prev = scoring_objects(objs.drop_last(), filter, terms);
        lemma_scoring_objects(objs.drop_last(), filter, terms);
        assert forall|k: int| 0 <= k < scoring_objects(objs, filter, terms).len() implies 0
            <= #[trigger] scoring_objects(objs, filter, terms)[k] < objs.len() by {
            if k < prev.len() {
                assert(0 <= prev[k] < objs.drop_last().len());
            }
        }
    }
}

/// The number of hits a search returns: the scoring objects, at most
/// `max_results` (at least one).
pub open spec fn hit_cap(found: nat, max_results: usize) -> nat {
    let cap: nat = if max_results == 0 {
        1
    } else {
        max_results as nat
    };
    if found < cap {
        found
    } else {
        cap
    }
}

/// `hits` are the best scoring objects of the requested kind, best first, ties in
/// catalogue order.
pub open spec fn meta_search_result(
    objs: Seq<ObjectSource>,
    request: MetaSearchRequest,
    hits: Seq<MetaSearchHit>,
) -> bool {
    let terms = query_terms(request.query@);
    let cands = scoring_objects(objs, request.kind, terms);
    let scores = cands.map_values(|i: int| terms_score(object_text(objs[i]), terms) as u128);
    exists|ord: Seq<usize>|
        #![trigger is_ranking(scores, ord)]
        is_ranking(scores, ord) && hits.len() == hit_cap(cands.len(), request.max_results)
            && forall|k: int|
            0 <= k < hits.len() ==> {
                let o = objs[cands[ord[k] as int]];
                &&& (#[trigger] hits[k]).name == o.name
                &&& hits[k].kind == o.kind
                &&& hits[k].description == o.description
                &&& hits[k].model == o.model
                &&& hits[k].score == terms_score(object_text(o), terms)
            }
}

/// An admitted object that scores is among the scoring positions, which are no
/// more than the objects.
proof fn lemma_scoring_objects_member(
    objs: Seq<ObjectSource>,
    filter: Option<XppObjectKind>,
    terms: Seq<Seq<char>>,
    j: int,
)
    requires
        0 <= j < objs.len(),
        kind_admits(filter, objs[j].kind),
        terms_score(object_text(objs[j]), terms) > 0,
    ensures
        exists|k: int|
            0 <= k < scoring_objects(objs, filter, terms).len() && scoring_objects(objs, filter, terms)[k]
                == j,
        scoring_objects(objs, filter, terms).len() <= objs.len(),
    decreases objs.len(),
{
    let prev = scoring_objects(objs.drop_last(), filter, terms);
    if j == objs.len() - 1 {
        lemma_scoring_objects_len(objs.drop_last(), filter, terms);
        assert(scoring_objects(objs, filter, terms)[prev.len() as int] == j);
    } else {
        assert(objs.drop_last()[j] == objs[j]);
        lemma_scoring_objects_member(objs.drop_last(), filter, terms, j);
        let k = choose|k: int| 0 <= k < prev.len() && prev[k] == j;
        assert(scoring_objects(objs, filter, terms)[k] == j);
    }
}

proof fn lemma_scoring_objects_len(
    objs: Seq<ObjectSource>,
    filter: Option<XppObjectKind>,
    terms: Seq<Seq<char>>,
)
    ensures
        scoring_objects(objs, filter, terms).len() <= objs.len(),
    decreases objs.len(),
{
    if objs.len() > 0 {
        lemma_scoring_objects_len(objs.drop_last(), filter, terms);
    }
}

/// A metadata search finds every object of the requested kind (any kind when
/// none is requested) whose lower-cased name or lower-cased description contains
/// a word of the lower-cased query: when there are no more objects than
/// `max_results`, the object is among the hits, with a score of at least one.
pub proof fn law_search_finds_matching_objects(
    objs: Seq<ObjectSource>,
    request: MetaSearchRequest,
    hits: Seq<MetaSearchHit>,
    j: int,
    t: Seq<char>,
)
    requires
        meta_search_result(objs, request, hits),
        objs.len() <= request.max_results,
        0 <= j < objs.len(),
        request.kind is None || request.kind == Some(objs[j].kind),
        t.len() > 0,
        query_terms(request.query@).contains(t),
        contains_seq(unicode_lowercase(objs[j].name@), t) || (objs[j].description matches Some(d)
            && contains_seq(unicode_lowercase(d@), t)),
    ensures
        exists|k: int|
            0 <= k < hits.len() && (#[trigger] hits[k]).name@ == objs[j].name@ && hits[k].kind
                == objs[j].kind && hits[k].score >= 1,
{
    let terms = query_terms(request.query@);
    let o = objs[j];
    let a = unicode_lowercase(o.name@);
    let d = unicode_lowercase(
        match o.description {
            Some(d) => d@,
            None => Seq::<char>::empty(),
        },
    );
    lemma_contains_concat(a, seq![' '], t);
    lemma_contains_concat(a + seq![' '], d, t);
    assert(contains_seq(object_text(o), t));
    lemma_contains_counts(object_text(o), t);
    lemma_score_covers_term(object_text(o), terms, t);
    lemma_scoring_objects_member(objs, request.kind, terms, j);
    let cands = scoring_objects(objs, request.kind, terms);
    let scores = cands.map_values(|i: int| terms_score(object_text(objs[i]), terms) as u128);
    let k0 = choose|k: int| 0 <= k < cands.len() && cands[k] == j;
    let ord = choose|ord: Seq<usize>|
        #![trigger is_ranking(scores, ord)]
        is_ranking(scores, ord) && hits.len() == hit_cap(cands.len(), request.max_results)
            && forall|k: int|
            0 <= k < hits.len() ==> {
                let o = objs[cands[ord[k] as int]];
                &&& (#[trigger] hits[k]).name == o.name
                &&& hits[k].kind == o.kind
                &&& hits[k].description == o.description
                &&& hits[k].model == o.model
                &&& hits[k].score == terms_score(object_text(o), terms)
            };
    assert(ord.contains(k0 as usize));
    let k = choose|k: int| 0 <= k < ord.len() && ord[k] == k0 as usize;
    assert(hits[k].name == objs[j].name);
}

fn object_text_of(o: &ObjectSource) -> (hay: Vec<char>)
    ensures
        hay@ == object_text(*o),
{
    let mut hay = lower_chars(o.name.as_str());
    hay.push(' ');
    let d = match &o.description {
        Some(d) => lower_chars(d.as_str()),
        None => lower_chars(""),
    };
    proof {
        if o.description is None {
            assert(""@ =~= Seq::<char>::empty()) by {
                reveal_strlit("");
            }
        }
    }
    push_all(&mut hay, d.as_slice());
    proof {
        assert(hay@ =~= object_text(*o));
    }
    hay
}

fn search_objects(objs: &Vec<ObjectSource>, request: &MetaSearchRequest) -> (hits: Vec<
    MetaSearchHit,
>)
    ensures
        meta_search_result(objs@, *request, hits@),
{
    let lq = lower_chars(request.query.as_str());
    let terms = split_words(lq.as_slice());
    let ghost tv = query_terms(request.query@);
    let mut cands: Vec<usize> = Vec::new();
    let mut scores: Vec<u128> = Vec::new();
    let mut i: usize = 0;
    while i < objs.len()
        invariant
            i <= objs.len(),
            tv == vecs_view(terms@),
            cands@.len() == scores@.len(),
            cands@.map_values(|c: usize| c as int) == scoring_objects(
                objs@.take(i as int),
                request.kind,
                tv,
            ),
            forall|k: int|
                0 <= k < scores@.len() ==> #[trigger] scores@[k] as int == terms_score(
                    object_text(objs@[cands@[k] as int]),
                    tv,
                ),
            forall|k: int| 0 <= k < cands@.len() ==> cands@[k] < i,
        decreases objs.len() - i,
    {
        let o = &objs[i];
        proof {
            let t = objs@.take(i as int + 1);
            assert(t.drop_last() =~= objs@.take(i as int));
            assert(t.last() == objs@[i as int]);
        }
        let admitted = match request.kind {
            Some(k) => k == o.kind,
            None => true,
        };
        if admitted {
            let hay = object_text_of(o);
            let s = score_of(&hay, &terms);
            if s > 0 {
                let ghost before = cands@;
                cands.push(i);
                scores.push(s);
                proof {
                    assert(cands@.map_values(|c: usize| c as int) =~= before.map_values(
                        |c: usize| c as int,
                    ).push(i as int));
                }
            }
        }
        i = i + 1;
    }
    proof {
        assert(objs@.take(objs@.len() as int) =~= objs@);
    }
    let ord = rank_desc(scores.as_slice());
    let cap: usize = if request.max_results == 0 {
        1
    } else {
        request.max_results
    };
    let n: usize = if ord.len() < cap {
        ord.len()
    } else {
        cap
    };
    let ghost cs = scoring_objects(objs@, request.kind, tv);
    let ghost sc = cs.map_values(|c: int| terms_score(object_text(objs@[c]), tv) as u128);
    proof {
        lemma_scoring_objects(objs@, request.kind, tv);
        assert(sc =~= scores@) by {
            assert forall|k: int| 0 <= k < sc.len() implies sc[k] == scores@[k] by {
                assert(cs[k] == cands@[k] as int);
            }
        }
    }
    let mut hits: Vec<MetaSearchHit> = Vec::new();
    let mut k: usize = 0;
    while k < n
        invariant
            k <= n,
            n <= ord@.len(),
            is_ranking(scores@, ord@),
            ord@.len() == cands@.len(),
            cands@.len() == scores@.len(),
            forall|q: int| 0 <= q < cands@.len() ==> #[trigger] cands@[q] < objs@.len(),
            hits@.len() == k,
            forall|q: int|
                0 <= q < k ==> {
                    let o = objs@[cands@[ord@[q] as int] as int];
                    &&& (#[trigger] hits@[q]).name == o.name
                    &&& hits@[q].kind == o.kind
                    &&& hits@[q].description == o.description
                    &&& hits@[q].model == o.model
                    &&& hits@[q].score == scores@[ord@[q] as int]
                },
        decreases n - k,
    {
        let o = &objs[cands[ord[k]]];
        hits.push(
            MetaSearchHit {
                name: o.name.clone(),
                kind: o.kind,
                description: clone_opt(&o.description),
                model: clone_opt(&o.model),
                score: scores[ord[k]],
            },
        );
        k = k + 1;
    }
    proof {
        assert(is_ranking(sc, ord@));
        assert forall|q: int| 0 <= q < hits@.len() implies {
            let o = objs@[cs[ord@[q] as int]];
            &&& (#[trigger] hits@[q]).name == o.name
            &&& hits@[q].kind == o.kind
            &&& hits@[q].description == o.description
            &&& hits@[q].model == o.model
            &&& hits@[q].score == terms_score(object_text(o), tv)
        } by {
            let oi = ord@[q] as int;
            assert(cs[oi] == cands@[oi] as int);
            assert(sc[oi] == scores@[oi]);
        }
    }
    hits
}

// ---------------------------------------------------------------------------
// The client
// ---------------------------------------------------------------------------

fn obj(name: &str, kind: XppObjectKind, model: &str, desc: &str, source: &str) -> (o: ObjectSource)
    ensures
        o.name@ == name@,
        o.kind == kind,
        o.model matches Some(m) && m@ == model@,
        o.description matches Some(d) && d@ == desc@,
        o.source@ == source@,
        o.deployed,
        o.line_count == line_count_spec(source@),
        object_content(o) == seeded_object(name@, kind, model@, desc@, source@),
{
    ObjectSource {
        name: owned(name),
        kind,
        model: Some(owned(model)),
        description: Some(owned(desc)),
        source: owned(source),
        deployed: true,
        line_count: line_count(source),
    }
}

fn member(name: &str, kind: XppObjectKind, desc: &str) -> (m: ModelMember)
    ensures
        m.name@ == name@,
        m.kind == kind,
        m.description matches Some(d) && d@ == desc@,
        member_content(m) == (name@, kind, Some(desc@)),
{
    ModelMember { name: owned(name), kind, description: Some(owned(desc)) }
}

fn xref(object: &str, kind: XppObjectKind, location: &str, usage: &str) -> (h: CrossReferenceHit)
    ensures
        h.object@ == object@,
        h.kind == kind,
        h.location@ == location@,
        h.usage@ == usage@,
        hit_content(h) == (object@, kind, location@, usage@),
{
    CrossReferenceHit {
        object: owned(object),
        kind,
        location: owned(location),
        usage: owned(usage),
    }
}

pub open spec fn names_of(objs: Seq<ObjectSource>) -> Seq<Seq<char>> {
    objs.map_values(|o: ObjectSource| o.name@)
}

/// Every object of a table has the table's kind, is deployed, and counts the
/// lines of its source.
pub open spec fn table_well_formed(objs: Seq<ObjectSource>, kind: XppObjectKind) -> bool {
    forall|i: int|
        0 <= i < objs.len() ==> (#[trigger] objs[i]).kind == kind && objs[i].deployed
            && objs[i].line_count == line_count_spec(objs[i].source@)
}

/// The plain content of an object: name, kind, model, description and source.
pub open spec fn object_content(o: ObjectSource) -> (
    Seq<char>,
    XppObjectKind,
    Option<Seq<char>>,
    Option<Seq<char>>,
    Seq<char>,
) {
    (o.name@, o.kind, opt_chars(o.model), opt_chars(o.description), o.source@)
}

/// A seeded object: it belongs to `model` and carries a description.
pub open spec fn seeded_object(
    name: Seq<char>,
    kind: XppObjectKind,
    model: Seq<char>,
    desc: Seq<char>,
    source: Seq<char>,
) -> (Seq<char>, XppObjectKind, Option<Seq<char>>, Option<Seq<char>>, Seq<char>) {
    (name, kind, Some(model), Some(desc), source)
}

/// The seeded classes, in lookup order.
pub open spec fn seed_classes() -> Seq<(Seq<char>, XppObjectKind, Option<Seq<char>>, Option<Seq<char>>, Seq<char>)> {
    seq![
        seeded_object("GTFinJournalPoster"@, XppObjectKind::Class, "GTFin"@, "GL posting helper"@, "class GTFinJournalPoster implements GTFinPostable\n{\n    public boolean validate(LedgerJournalTable _hdr) { return true; }\n    public Voucher post(LedgerJournalName _name)\n    {\n        // calls the LedgerGeneralJournalEntry OData service via $batch\n        return '';\n    }\n}\n"@),
        seeded_object("GTFinConstants"@, XppObjectKind::Class, "GTFin"@, "Shared GTFin constants"@, "class GTFinConstants\n{\n    public static LedgerJournalName defaultJournalName() { return 'GenJrn'; }\n}\n"@),
        seeded_object("GTFinValidation"@, XppObjectKind::Class, "GTFin"@, "GL posting validation"@, "class GTFinValidation\n{\n    public static boolean periodOpen(TransDate _d) { return true; }\n}\n"@),
    ]
}

/// The seeded interfaces, in lookup order.
pub open spec fn seed_interfaces() -> Seq<(Seq<char>, XppObjectKind, Option<Seq<char>>, Option<Seq<char>>, Seq<char>)> {
    seq![
        seeded_object("GTFinPostable"@, XppObjectKind::Interface, "GTFin"@, "GL posting contract"@, "interface GTFinPostable\n{\n    boolean validate(LedgerJournalTable _hdr);\n    Voucher post(LedgerJournalName _name);\n}\n"@),
    ]
}

/// The seeded tables, in lookup order.
pub open spec fn seed_tables() -> Seq<(Seq<char>, XppObjectKind, Option<Seq<char>>, Option<Seq<char>>, Seq<char>)> {
    seq![
        seeded_object("LedgerJournalTrans"@, XppObjectKind::Table, "ApplicationSuite"@, "General journal lines"@, "// table LedgerJournalTrans\n// fields: JournalNum, LineNum, LedgerDimension, AmountCurDebit, AmountCurCredit, DataAreaId\n"@),
    ]
}

/// The seeded jobs, in lookup order.
pub open spec fn seed_jobs() -> Seq<(Seq<char>, XppObjectKind, Option<Seq<char>>, Option<Seq<char>>, Seq<char>)> {
    seq![
        seeded_object("GTFinPostJournal"@, XppObjectKind::Job, "GTFin"@, "Post GL journals"@, "class GTFinPostJournal\n{\n    public static void main(Args _args)\n    {\n        GTFinJournalPoster poster = new GTFinJournalPoster();\n        poster.post(GTFinConstants::defaultJournalName());\n    }\n}\n"@),
        seeded_object("GTScmGrnCheck"@, XppObjectKind::Job, "GTScm"@, "Product receipt reconciliation"@, "class GTScmGrnCheck\n{\n    public static void main(Args _args)\n    {\n        // reconcile product receipts against PO\n    }\n}\n"@),
    ]
}

/// The seeded forms, in lookup order.
pub open spec fn seed_forms() -> Seq<(Seq<char>, XppObjectKind, Option<Seq<char>>, Option<Seq<char>>, Seq<char>)> {
    seq![
        seeded_object("GTFinJournalForm"@, XppObjectKind::Form, "GTFin"@, "General journal entry form"@, "[Form]\npublic class GTFinJournalForm extends FormRun\n{\n    // data sources: LedgerJournalTable, LedgerJournalTrans\n}\n"@),
    ]
}

/// The plain content of a model member: name, kind and description.
pub open spec fn member_content(m: ModelMember) -> (Seq<char>, XppObjectKind, Option<Seq<char>>) {
    (m.name@, m.kind, opt_chars(m.description))
}

/// The plain content of a model: name, description and members.
pub open spec fn model_content(m: ModelContents) -> (
    Seq<char>,
    Option<Seq<char>>,
    Seq<(Seq<char>, XppObjectKind, Option<Seq<char>>)>,
) {
    (m.model@, opt_chars(m.description), m.members@.map_values(|x: ModelMember| member_content(x)))
}

/// The seeded models with their members.
pub open spec fn seed_models() -> Seq<
    (Seq<char>, Option<Seq<char>>, Seq<(Seq<char>, XppObjectKind, Option<Seq<char>>)>),
> {
    seq![
        (
            "GTFin"@,
            Some("GaussianTech Finance customisations"@),
            seq![
                ("GTFinPostJournal"@, XppObjectKind::Job, Some("Post GL journals"@)),
                ("GTFinJournalPoster"@, XppObjectKind::Class, Some("GL posting helper"@)),
                ("GTFinPostable"@, XppObjectKind::Interface, Some("GL posting contract"@)),
                ("GTFinConstants"@, XppObjectKind::Class, Some("Shared constants"@)),
                ("GTFinValidation"@, XppObjectKind::Class, Some("Posting validation"@)),
            ],
        ),
        (
            "GTScm"@,
            Some("GaussianTech Supply Chain customisations"@),
            seq![("GTScmGrnCheck"@, XppObjectKind::Job, Some("Product receipt reconciliation"@))],
        ),
    ]
}

/// The plain content of a cross-reference hit: object, kind, location and usage.
pub open spec fn hit_content(h: CrossReferenceHit) -> (Seq<char>, XppObjectKind, Seq<char>, Seq<char>) {
    (h.object@, h.kind, h.location@, h.usage@)
}

/// The plain content of the cross-references recorded against one object.
pub open spec fn xref_content(x: CrossRefs) -> (
    Seq<char>,
    XppObjectKind,
    Seq<(Seq<char>, XppObjectKind, Seq<char>, Seq<char>)>,
) {
    (x.name@, x.kind, x.hits@.map_values(|h: CrossReferenceHit| hit_content(h)))
}

/// The seeded cross-references: the referenced object and the hits against it.
pub open spec fn seed_cross_refs() -> Seq<
    (Seq<char>, XppObjectKind, Seq<(Seq<char>, XppObjectKind, Seq<char>, Seq<char>)>),
> {
    seq![
        (
            "GTFinPostable"@,
            XppObjectKind::Interface,
            seq![("GTFinJournalPoster"@, XppObjectKind::Class, "class declaration"@, "implements"@)],
        ),
        (
            "GTFinJournalPoster"@,
            XppObjectKind::Class,
            seq![("GTFinPostJournal"@, XppObjectKind::Job, "main()"@, "call"@)],
        ),
        (
            "LedgerJournalTrans"@,
            XppObjectKind::Table,
            seq![
                ("LedgerJournalLineEntity"@, XppObjectKind::DataEntity, "data source"@, "read"@),
                ("GTFinJournalPoster"@, XppObjectKind::Class, "post()"@, "write"@),
            ],
        ),
    ]
}

/// The plain content of a data entity: name, public name, properties, source and
/// line count.
pub open spec fn data_entity_content(e: DataEntityView) -> (Seq<char>, Seq<char>, JsonV, Seq<char>, usize) {
    (e.name@, e.public_entity_name@, e.properties@, e.source@, e.line_count)
}

/// The seeded data entities.
pub open spec fn seed_data_entities() -> Seq<(Seq<char>, Seq<char>, JsonV, Seq<char>, usize)> {
    seq![
        (
            "LedgerJournalLineEntity"@,
            "LedgerJournalLines"@,
            JsonV::Object(
                seq![
                    ("DataManagementEnabled"@, JsonV::Str("Yes"@)),
                    ("IsReadOnly"@, JsonV::Str("No"@)),
                    (
                        "PrimaryKey"@,
                        JsonV::Array(seq![JsonV::Str("JournalBatchNumber"@), JsonV::Str("LineNumber"@)]),
                    ),
                    ("PublicCollectionName"@, JsonV::Str("LedgerJournalLines"@)),
                ],
            ),
            "[DataEntity]\npublic class LedgerJournalLineEntity extends common\n{\n    // maps to table LedgerJournalTrans\n}\n"@,
            5,
        ),
    ]
}

/// The plain content of an entity's rows: the entity and each row's members.
pub open spec fn entity_data_content(d: EntityData) -> (Seq<char>, Seq<Seq<(Seq<char>, JsonV)>>) {
    (d.entity@, rows_view(d.rows@))
}

/// The seeded entity rows.
pub open spec fn seed_entity_data() -> Seq<(Seq<char>, Seq<Seq<(Seq<char>, JsonV)>>)> {
    seq![
        (
            "LedgerJournalLineEntity"@,
            seq![
                seq![
                    ("AccountDisplayValue"@, JsonV::Str("110180"@)),
                    ("JournalBatchNumber"@, JsonV::Str("000123"@)),
                    ("LineNumber"@, JsonV::Number("1"@)),
                ],
            ],
        ),
    ]
}

impl MockMetadataClient {
    pub closed spec fn connection_of(&self) -> D365Connection {
        self.connection
    }

    pub closed spec fn classes(&self) -> Seq<ObjectSource> {
        self.classes@
    }

    pub closed spec fn interfaces(&self) -> Seq<ObjectSource> {
        self.interfaces@
    }

    pub closed spec fn tables(&self) -> Seq<ObjectSource> {
        self.tables@
    }

    pub closed spec fn jobs(&self) -> Seq<ObjectSource> {
        self.jobs@
    }

    pub closed spec fn forms(&self) -> Seq<ObjectSource> {
        self.forms@
    }

    pub closed spec fn data_entities(&self) -> Seq<DataEntityView> {
        self.data_entities@
    }

    pub closed spec fn models(&self) -> Seq<ModelContents> {
        self.models@
    }

    pub closed spec fn cross_refs(&self) -> Seq<CrossRefs> {
        self.cross_refs@
    }

    pub closed spec fn entity_data(&self) -> Seq<EntityData> {
        self.entity_data@
    }

    /// Everything a search looks through: classes, interfaces, tables, jobs, forms.
    pub open spec fn searchable(&self) -> Seq<ObjectSource> {
        self.classes() + self.interfaces() + self.tables() + self.jobs() + self.forms()
    }

    /// A mock over `connection`, seeded with the fixtures.
    pub fn new(connection: D365Connection) -> (r: Arc<Self>)
        ensures
            r.connection_of() == connection,
            names_of(r.classes()) == seq![
                "GTFinJournalPoster"@,
                "GTFinConstants"@,
                "GTFinValidation"@,
            ],
            names_of(r.interfaces()) == seq!["GTFinPostable"@],
            names_of(r.tables()) == seq!["LedgerJournalTrans"@],
            names_of(r.jobs()) == seq!["GTFinPostJournal"@, "GTScmGrnCheck"@],
            names_of(r.forms()) == seq!["GTFinJournalForm"@],
            table_well_formed(r.classes(), XppObjectKind::Class),
            table_well_formed(r.interfaces(), XppObjectKind::Interface),
            table_well_formed(r.tables(), XppObjectKind::Table),
            table_well_formed(r.jobs(), XppObjectKind::Job),
            table_well_formed(r.forms(), XppObjectKind::Form),
            r.data_entities().len() == 1,
            r.data_entities()[0].name@ == "LedgerJournalLineEntity"@,
            r.data_entities()[0].public_entity_name@ == "LedgerJournalLines"@,
            r.models().len() == 2,
            r.models()[0].model@ == "GTFin"@,
            r.models()[0].members@.len() == 5,
            r.models()[1].model@ == "GTScm"@,
            r.models()[1].members@.len() == 1,
            r.cross_refs().len() == 3,
            r.cross_refs()[0].name@ == "GTFinPostable"@,
            r.cross_refs()[0].kind == XppObjectKind::Interface,
            r.cross_refs()[0].hits@.len() == 1,
            r.cross_refs()[0].hits@[0].object@ == "GTFinJournalPoster"@,
            r.cross_refs()[0].hits@[0].usage@ == "implements"@,
            r.cross_refs()[1].name@ == "GTFinJournalPoster"@,
            r.cross_refs()[1].kind == XppObjectKind::Class,
            r.cross_refs()[2].name@ == "LedgerJournalTrans"@,
            r.cross_refs()[2].kind == XppObjectKind::Table,
            r.cross_refs()[2].hits@.len() == 2,
            r.entity_data().len() == 1,
            r.entity_data()[0].entity@ == "LedgerJournalLineEntity"@,
            r.entity_data()[0].rows@.len() == 1,
            r.classes().map_values(|o: ObjectSource| object_content(o)) == seed_classes(),
            r.interfaces().map_values(|o: ObjectSource| object_content(o)) == seed_interfaces(),
            r.tables().map_values(|o: ObjectSource| object_content(o)) == seed_tables(),
            r.jobs().map_values(|o: ObjectSource| object_content(o)) == seed_jobs(),
            r.forms().map_values(|o: ObjectSource| object_content(o)) == seed_forms(),
            r.models().map_values(|m: ModelContents| model_content(m)) == seed_models(),
            r.cross_refs().map_values(|x: CrossRefs| xref_content(x)) == seed_cross_refs(),
            r.data_entities().map_values(|e: DataEntityView| data_entity_content(e))
                == seed_data_entities(),
            r.entity_data().map_values(|d: EntityData| entity_data_content(d)) == seed_entity_data(),
    {
        let mut jobs: Vec<ObjectSource> = Vec::new();
        jobs.push(
            obj(
                "GTFinPostJournal",
                XppObjectKind::Job,
                "GTFin",
                "Post GL journals",
                "class GTFinPostJournal\n{\n    public static void main(Args _args)\n    {\n        GTFinJournalPoster poster = new GTFinJournalPoster();\n        poster.post(GTFinConstants::defaultJournalName());\n    }\n}\n",
            ),
        );
        jobs.push(
            obj(
                "GTScmGrnCheck",
                XppObjectKind::Job,
                "GTScm",
                "Product receipt reconciliation",
                "class GTScmGrnCheck\n{\n    public static void main(Args _args)\n    {\n        // reconcile product receipts against PO\n    }\n}\n",
            ),
        );
        let mut classes: Vec<ObjectSource> = Vec::new();
        classes.push(
            obj(
                "GTFinJournalPoster",
                XppObjectKind::Class,
                "GTFin",
                "GL posting helper",
                "class GTFinJournalPoster implements GTFinPostable\n{\n    public boolean validate(LedgerJournalTable _hdr) { return true; }\n    public Voucher post(LedgerJournalName _name)\n    {\n        // calls the LedgerGeneralJournalEntry OData service via $batch\n        return '';\n    }\n}\n",
            ),
        );
        classes.push(
            obj(
                "GTFinConstants",
                XppObjectKind::Class,
                "GTFin",
                "Shared GTFin constants",
                "class GTFinConstants\n{\n    public static LedgerJournalName defaultJournalName() { return 'GenJrn'; }\n}\n",
            ),
        );
        classes.push(
            obj(
                "GTFinValidation",
                XppObjectKind::Class,
                "GTFin",
                "GL posting validation",
                "class GTFinValidation\n{\n    public static boolean periodOpen(TransDate _d) { return true; }\n}\n",
            ),
        );
        let mut interfaces: Vec<ObjectSource> = Vec::new();
        interfaces.push(
            obj(
                "GTFinPostable",
                XppObjectKind::Interface,
                "GTFin",
                "GL posting contract",
                "interface GTFinPostable\n{\n    boolean validate(LedgerJournalTable _hdr);\n    Voucher post(LedgerJournalName _name);\n}\n",
            ),
        );
        let mut tables: Vec<ObjectSource> = Vec::new();
        tables.push(
            obj(
                "LedgerJournalTrans",
                XppObjectKind::Table,
                "ApplicationSuite",
                "General journal lines",
                "// table LedgerJournalTrans\n// fields: JournalNum, LineNum, LedgerDimension, AmountCurDebit, AmountCurCredit, DataAreaId\n",
            ),
        );
        let mut forms: Vec<ObjectSource> = Vec::new();
        forms.push(
            obj(
                "GTFinJournalForm",
                XppObjectKind::Form,
                "GTFin",
                "General journal entry form",
                "[Form]\npublic class GTFinJournalForm extends FormRun\n{\n    // data sources: LedgerJournalTable, LedgerJournalTrans\n}\n",
            ),
        );
        let mut key: Vec<Json> = Vec::new();
        key.push(Json::Str(owned("JournalBatchNumber")));
        key.push(Json::Str(owned("LineNumber")));
        proof {
            lemma_items_view(key@);
            assert(items_view(key@) =~= seq![JsonV::Str("JournalBatchNumber"@), JsonV::Str("LineNumber"@)]);
        }
        let mut props: Vec<(String, Json)> = Vec::new();
        props.push((owned("DataManagementEnabled"), Json::Str(owned("Yes"))));
        props.push((owned("IsReadOnly"), Json::Str(owned("No"))));
        props.push((owned("PrimaryKey"), Json::Array(key)));
        props.push((owned("PublicCollectionName"), Json::Str(owned("LedgerJournalLines"))));
        proof {
            lemma_members_view(props@);
            assert(members_view(props@) =~= seed_data_entities()[0].2->Object_0);
        }
        let entity_source = "[DataEntity]\npublic class LedgerJournalLineEntity extends common\n{\n    // maps to table LedgerJournalTrans\n}\n";
        let mut data_entities: Vec<DataEntityView> = Vec::new();
        data_entities.push(
            DataEntityView {
                name: owned("LedgerJournalLineEntity"),
                public_entity_name: owned("LedgerJournalLines"),
                properties: Json::Object(props),
                source: owned(entity_source),
                line_count: 5,
            },
        );
        let mut fin: Vec<ModelMember> = Vec::new();
        fin.push(member("GTFinPostJournal", XppObjectKind::Job, "Post GL journals"));
        fin.push(member("GTFinJournalPoster", XppObjectKind::Class, "GL posting helper"));
        fin.push(member("GTFinPostable", XppObjectKind::Interface, "GL posting contract"));
        fin.push(member("GTFinConstants", XppObjectKind::Class, "Shared constants"));
        fin.push(member("GTFinValidation", XppObjectKind::Class, "Posting validation"));
        let mut scm: Vec<ModelMember> = Vec::new();
        scm.push(member("GTScmGrnCheck", XppObjectKind::Job, "Product receipt reconciliation"));
        let mut models: Vec<ModelContents> = Vec::new();
        models.push(
            ModelContents {
                model: owned("GTFin"),
                description: Some(owned("GaussianTech Finance customisations")),
                members: fin,
            },
        );
        models.push(
            ModelContents {
                model: owned("GTScm"),
                description: Some(owned("GaussianTech Supply Chain customisations")),
                members: scm,
            },
        );
        let mut x0: Vec<CrossReferenceHit> = Vec::new();
        x0.push(xref("GTFinJournalPoster", XppObjectKind::Class, "class declaration", "implements"));
        let mut x1: Vec<CrossReferenceHit> = Vec::new();
        x1.push(xref("GTFinPostJournal", XppObjectKind::Job, "main()", "call"));
        let mut x2: Vec<CrossReferenceHit> = Vec::new();
        x2.push(xref("LedgerJournalLineEntity", XppObjectKind::DataEntity, "data source", "read"));
        x2.push(xref("GTFinJournalPoster", XppObjectKind::Class, "post()", "write"));
        let mut cross_refs: Vec<CrossRefs> = Vec::new();
        cross_refs.push(
            CrossRefs { name: owned("GTFinPostable"), kind: XppObjectKind::Interface, hits: x0 },
        );
        cross_refs.push(
            CrossRefs { name: owned("GTFinJournalPoster"), kind: XppObjectKind::Class, hits: x1 },
        );
        cross_refs.push(
            CrossRefs { name: owned("LedgerJournalTrans"), kind: XppObjectKind::Table, hits: x2 },
        );
        let mut row: Vec<(String, Json)> = Vec::new();
        row.push((owned("AccountDisplayValue"), Json::Str(owned("110180"))));
        row.push((owned("JournalBatchNumber"), Json::Str(owned("000123"))));
        row.push((owned("LineNumber"), Json::Number(owned("1"))));
        let mut rows: Vec<EntityRow> = Vec::new();
        proof {
            lemma_members_view(row@);
            assert(members_view(row@) =~= seed_entity_data()[0].1[0]);
        }
        rows.push(EntityRow { values: row });
        let mut entity_data: Vec<EntityData> = Vec::new();
        entity_data.push(EntityData { entity: owned("LedgerJournalLineEntity"), rows });
        let r = MockMetadataClient {
            connection,
            classes,
            interfaces,
            tables,
            jobs,
            forms,
            data_entities,
            models,
            cross_refs,
            entity_data,
        };
        proof {
            assert(names_of(r.classes@) =~= seq![
                "GTFinJournalPoster"@,
                "GTFinConstants"@,
                "GTFinValidation"@,
            ]);
            assert(names_of(r.interfaces@) =~= seq!["GTFinPostable"@]);
            assert(names_of(r.tables@) =~= seq!["LedgerJournalTrans"@]);
            assert(names_of(r.jobs@) =~= seq!["GTFinPostJournal"@, "GTScmGrnCheck"@]);
            assert(names_of(r.forms@) =~= seq!["GTFinJournalForm"@]);
            assert(r.classes@.map_values(|o: ObjectSource| object_content(o)) =~= seed_classes());
            assert(r.interfaces@.map_values(|o: ObjectSource| object_content(o)) =~= seed_interfaces());
            assert(r.tables@.map_values(|o: ObjectSource| object_content(o)) =~= seed_tables());
            assert(r.jobs@.map_values(|o: ObjectSource| object_content(o)) =~= seed_jobs());
            assert(r.forms@.map_values(|o: ObjectSource| object_content(o)) =~= seed_forms());
            assert(r.models@[0].members@.map_values(|x: ModelMember| member_content(x)) =~= seed_models()[0].2);
            assert(r.models@[1].members@.map_values(|x: ModelMember| member_content(x)) =~= seed_models()[1].2);
            assert(r.models@.map_values(|m: ModelContents| model_content(m)) =~= seed_models());
            assert(r.cross_refs@[0].hits@.map_values(|h: CrossReferenceHit| hit_content(h)) =~= seed_cross_refs()[0].2);
            assert(r.cross_refs@[1].hits@.map_values(|h: CrossReferenceHit| hit_content(h)) =~= seed_cross_refs()[1].2);
            assert(r.cross_refs@[2].hits@.map_values(|h: CrossReferenceHit| hit_content(h)) =~= seed_cross_refs()[2].2);
            assert(r.cross_refs@.map_values(|x: CrossRefs| xref_content(x)) =~= seed_cross_refs());
            assert(r.data_entities@.map_values(|e: DataEntityView| data_entity_content(e)) =~= seed_data_entities());
            assert(rows_view(r.entity_data@[0].rows@) =~= seed_entity_data()[0].1);
            assert(r.entity_data@.map_values(|d: EntityData| entity_data_content(d)) =~= seed_entity_data());
        }
        Arc::new(r)
    }

    /// Every object a search looks through, in search order.
    fn searchable_objects(&self) -> (all: Vec<ObjectSource>)
        ensures
            all@ == self.searchable(),
    {
        let mut all: Vec<ObjectSource> = Vec::new();
        append_objects(&mut all, &self.classes);
        append_objects(&mut all, &self.interfaces);
        append_objects(&mut all, &self.tables);
        append_objects(&mut all, &self.jobs);
        append_objects(&mut all, &self.forms);
        all
    }
}

fn append_objects(out: &mut Vec<ObjectSource>, objs: &Vec<ObjectSource>)
    ensures
        final(out)@ == old(out)@ + objs@,
{
    let mut i: usize = 0;
    while i < objs.len()
        invariant
            i <= objs.len(),
            out@ == old(out)@ + objs@.take(i as int),
        decreases objs.len() - i,
    {
        out.push(objs[i].duplicate());
        proof {
            assert(objs@.take(i as int + 1) =~= objs@.take(i as int).push(objs@[i as int]));
        }
        i = i + 1;
    }
    proof {
        assert(objs@.take(objs@.len() as int) =~= objs@);
    }
}

/// Whether an object is one a deploy knows: a class, job, interface or table.
pub open spec fn deployable(c: MockMetadataClient, name: Seq<char>) -> bool {
    object_index(c.classes(), name) is Some || object_index(c.jobs(), name) is Some
        || object_index(c.interfaces(), name) is Some || object_index(c.tables(), name) is Some
}

/// The refusal of an entity read above the metadata-path cap.
pub open spec fn over_cap_message(max_rows: usize) -> Seq<char> {
    "requested "@ + decimal(max_rows as nat)
        + " rows exceeds the metadata-path cap of 1000; use d365.entity.read"@
}

/// The refusal of a deploy in read-only mode.
pub open spec fn read_only_deploy_message(kind: XppObjectKind, name: Seq<char>) -> Seq<char> {
    "deploy of "@ + kind_label(kind) + " '"@ + name + "' requires write mode (--enable-writes)"@
}

impl MetadataClient for MockMetadataClient {
    fn connection(&self) -> (r: &D365Connection)
        ensures
            *r == self.connection_of(),
    {
        &self.connection
    }

    fn get_class(&self, name: &str) -> (r: MetaResult<ObjectSource>)
        ensures
            object_outcome(self.classes(), name@, "Class"@, r),
    {
        fetch_object(&self.classes, name, "Class")
    }

    fn get_interface(&self, name: &str) -> (r: MetaResult<ObjectSource>)
        ensures
            object_outcome(self.interfaces(), name@, "Interface"@, r),
    {
        fetch_object(&self.interfaces, name, "Interface")
    }

    fn get_table(&self, name: &str) -> (r: MetaResult<ObjectSource>)
        ensures
            object_outcome(self.tables(), name@, "Table"@, r),
    {
        fetch_object(&self.tables, name, "Table")
    }

    fn get_job(&self, name: &str) -> (r: MetaResult<ObjectSource>)
        ensures
            object_outcome(self.jobs(), name@, "Job"@, r),
    {
        fetch_object(&self.jobs, name, "Job")
    }

    fn get_form(&self, name: &str) -> (r: MetaResult<ObjectSource>)
        ensures
            object_outcome(self.forms(), name@, "Form"@, r),
    {
        fetch_object(&self.forms, name, "Form")
    }

    fn get_model_contents(&self, model: &str) -> (r: MetaResult<ModelContents>)
        ensures
            match model_index(self.models(), model@) {
                Some(i) => r matches Ok(m) && m.model == self.models()[i].model
                    && m.description == self.models()[i].description && m.members@
                    == self.models()[i].members@,
                None => r matches Err(MetaError::NotFound { kind, name }) && kind@ == "Model"@
                    && name@ == model@,
            },
    {
        let mut i: usize = 0;
        while i < self.models.len()
            invariant
                i <= self.models.len(),
                forall|j: int| 0 <= j < i ==> self.models@[j].model@ != model@,
            decreases self.models.len() - i,
        {
            if crate::json::str_eq(self.models[i].model.as_str(), model) {
                proof {
                    let c = choose|k: int|
                        0 <= k < self.models@.len() && self.models@[k].model@ == model@
                            && forall|j: int| 0 <= j < k ==> self.models@[j].model@ != model@;
                    assert(c == i) by {
                        if c > i {
                            assert(self.models@[i as int].model@ == model@);
                        }
                    }
                }
                return Ok(self.models[i].duplicate());
            }
            i = i + 1;
        }
        Err(MetaError::NotFound { kind: owned("Model"), name: owned(model) })
    }

    fn get_data_entity(&self, name: &str) -> (r: MetaResult<DataEntityView>)
        ensures
            match entity_view_index(self.data_entities(), name@) {
                Some(i) => r matches Ok(e) && e.name@ == self.data_entities()[i].name@
                    && e.source@ == self.data_entities()[i].source@ && e.public_entity_name@
                    == self.data_entities()[i].public_entity_name@ && e.properties@
                    == self.data_entities()[i].properties@ && e.line_count
                    == self.data_entities()[i].line_count,
                None => r matches Err(MetaError::NotFound { kind, name: n }) && kind@
                    == "DataEntity"@ && n@ == name@,
            },
    {
        let mut i: usize = 0;
        while i < self.data_entities.len()
            invariant
                i <= self.data_entities.len(),
                forall|j: int| 0 <= j < i ==> self.data_entities@[j].name@ != name@,
            decreases self.data_entities.len() - i,
        {
            if crate::json::str_eq(self.data_entities[i].name.as_str(), name) {
                proof {
                    let c = choose|k: int|
                        0 <= k < self.data_entities@.len() && self.data_entities@[k].name@ == name@
                            && forall|j: int| 0 <= j < k ==> self.data_entities@[j].name@ != name@;
                    assert(c == i) by {
                        if c > i {
                            assert(self.data_entities@[i as int].name@ == name@);
                        }
                    }
                }
                return Ok(self.data_entities[i].duplicate());
            }
            i = i + 1;
        }
        Err(MetaError::NotFound { kind: owned("DataEntity"), name: owned(name) })
    }

    fn search(&self, request: MetaSearchRequest) -> (r: MetaResult<Vec<MetaSearchHit>>)
        ensures
            r matches Ok(hits) && meta_search_result(self.searchable(), request, hits@),
    {
        let all = self.searchable_objects();
        Ok(search_objects(&all, &request))
    }

    fn cross_reference(&self, request: CrossReferenceRequest) -> (r: MetaResult<
        Vec<CrossReferenceHit>,
    >)
        ensures
            match xref_index(self.cross_refs(), request.name@, request.kind) {
                Some(i) => r matches Ok(v) && v@ == self.cross_refs()[i].hits@,
                None => r matches Ok(v) && v@.len() == 0,
            },
    {
        let mut i: usize = 0;
        while i < self.cross_refs.len()
            invariant
                i <= self.cross_refs.len(),
                forall|j: int|
                    0 <= j < i ==> !(self.cross_refs@[j].name@ == request.name@
                        && self.cross_refs@[j].kind == request.kind),
            decreases self.cross_refs.len() - i,
        {
            let x = &self.cross_refs[i];
            if crate::json::str_eq(x.name.as_str(), request.name.as_str()) && x.kind == request.kind {
                proof {
                    let xs = self.cross_refs@;
                    let c = choose|k: int|
                        0 <= k < xs.len() && xs[k].name@ == request.name@ && xs[k].kind
                            == request.kind && forall|j: int|
                            0 <= j < k ==> !(xs[j].name@ == request.name@ && xs[j].kind
                                == request.kind);
                    assert(c == i) by {
                        if c > i {
                            assert(xs[i as int].name@ == request.name@ && xs[i as int].kind
                                == request.kind);
                        }
                    }
                }
                let mut out: Vec<CrossReferenceHit> = Vec::new();
                let mut k: usize = 0;
                while k < x.hits.len()
                    invariant
                        k <= x.hits.len(),
                        out@ == x.hits@.take(k as int),
                    decreases x.hits.len() - k,
                {
                    out.push(x.hits[k].duplicate());
                    proof {
                        assert(x.hits@.take(k as int + 1) =~= x.hits@.take(k as int).push(
                            x.hits@[k as int],
                        ));
                    }
                    k = k + 1;
                }
                proof {
                    assert(x.hits@.take(x.hits@.len() as int) =~= x.hits@);
                }
                return Ok(out);
            }
            i = i + 1;
        }
        Ok(Vec::new())
    }

    fn get_entity_contents(&self, entity: &str, max_rows: usize) -> (r: MetaResult<
        Vec<EntityRow>,
    >)
        ensures
            max_rows > MAX_ENTITY_ROWS ==> (r matches Err(MetaError::EntityDataBlocked(m)) && m@
                == over_cap_message(max_rows)),
            max_rows <= MAX_ENTITY_ROWS ==> match data_index(self.entity_data(), entity@) {
                Some(i) => r matches Ok(rows) && rows_view(rows@) == rows_view(
                    self.entity_data()[i].rows@,
                ).take(
                    if max_rows < self.entity_data()[i].rows@.len() {
                        max_rows as int
                    } else {
                        self.entity_data()[i].rows@.len() as int
                    },
                ),
                None => r matches Err(MetaError::NotFound { kind, name }) && kind@ == "DataEntity"@
                    && name@ == entity@,
            },
    {
        if max_rows > MAX_ENTITY_ROWS {
            let mut m = owned("requested ");
            m.append(decimal_text(max_rows as u64).as_str());
            m.append(" rows exceeds the metadata-path cap of 1000; use d365.entity.read");
            return Err(MetaError::EntityDataBlocked(m));
        }
        let mut i: usize = 0;
        while i < self.entity_data.len()
            invariant
                i <= self.entity_data.len(),
                max_rows <= MAX_ENTITY_ROWS,
                forall|j: int| 0 <= j < i ==> self.entity_data@[j].entity@ != entity@,
            decreases self.entity_data.len() - i,
        {
            let d = &self.entity_data[i];
            if crate::json::str_eq(d.entity.as_str(), entity) {
                proof {
                    let ds = self.entity_data@;
                    let c = choose|k: int|
                        0 <= k < ds.len() && ds[k].entity@ == entity@ && forall|j: int|
                            0 <= j < k ==> ds[j].entity@ != entity@;
                    assert(c == i) by {
                        if c > i {
                            assert(ds[i as int].entity@ == entity@);
                        }
                    }
                }
                let n: usize = if max_rows < d.rows.len() {
                    max_rows
                } else {
                    d.rows.len()
                };
                let mut out: Vec<EntityRow> = Vec::new();
                let mut k: usize = 0;
                while k < n
                    invariant
                        k <= n,
                        n <= d.rows@.len(),
                        rows_view(out@) == rows_view(d.rows@).take(k as int),
                    decreases n - k,
                {
                    let ghost before = out@;
                    out.push(copy_row(&d.rows[k]));
                    proof {
                        assert(rows_view(out@) =~= rows_view(before).push(
                            members_view(d.rows@[k as int].values@),
                        ));
                        assert(rows_view(d.rows@).take(k as int + 1) =~= rows_view(d.rows@).take(
                            k as int,
                        ).push(members_view(d.rows@[k as int].values@)));
                    }
                    k = k + 1;
                }
                return Ok(out);
            }
            i = i + 1;
        }
        Err(MetaError::NotFound { kind: owned("DataEntity"), name: owned(entity) })
    }

    fn deploy(&self, request: DeployRequest, ctx: MetaCallContext) -> (r: MetaResult<
        DeployOutcome,
    >)
        ensures
            ctx.read_only ==> (r matches Err(MetaError::PermissionDenied(m)) && m@
                == read_only_deploy_message(request.kind, request.name@)),
            !ctx.read_only && !deployable(*self, request.name@) ==> (r matches Err(
                MetaError::NotFound { kind, name },
            ) && kind@ == kind_label(request.kind) && name@ == request.name@),
            !ctx.read_only && deployable(*self, request.name@) ==> (r matches Ok(o) && o.name@
                == request.name@ && o.kind == request.kind && o.deployed && o.messages@.len() == 1
                && o.messages@[0]@ == kind_label(request.kind) + " '"@ + request.name@
                + "' built and synchronised (mock)"@),
    {
        if ctx.read_only {
            let mut m = owned("deploy of ");
            m.append(request.kind.label());
            m.append(" '");
            m.append(request.name.as_str());
            m.append("' requires write mode (--enable-writes)");
            return Err(MetaError::PermissionDenied(m));
        }
        let known = find_object(&self.classes, request.name.as_str()).is_some() || find_object(
            &self.jobs,
            request.name.as_str(),
        ).is_some() || find_object(&self.interfaces, request.name.as_str()).is_some()
            || find_object(&self.tables, request.name.as_str()).is_some();
        if !known {
            return Err(
                MetaError::NotFound { kind: owned(request.kind.label()), name: request.name },
            );
        }
        let mut msg = owned(request.kind.label());
        msg.append(" '");
        msg.append(request.name.as_str());
        msg.append("' built and synchronised (mock)");
        let mut messages: Vec<String> = Vec::new();
        messages.push(msg);
        Ok(DeployOutcome { name: request.name, kind: request.kind, deployed: true, messages })
    }
}

} // verus!
