//! The in-memory backend: a deterministic `D365Client` over the curated catalogue,
//! so the whole tool surface is callable offline.

use vstd::prelude::*;
use crate::json::{
    Json, JsonV, owned, render, members_view, lemma_members_view, json_view, key_index, member,
    find_member,
};
use crate::text::{
    chars_of, to_lowercase, unicode_lowercase, words, split_words, vecs_view, count_occ,
    count_matches, eq_ignore_case, chars_eq_ignore_case, str_eq_ignore_case, strings_view,
    terms_score, query_terms, push_all, lower_chars, score_of, contains_seq,
    lemma_contains_concat, lemma_contains_counts, lemma_score_covers_term,
};
use crate::rank::{is_ranking, rank_desc};
use crate::odata::error::{D365Error, D365Result};
use crate::odata::pool::{ConnectionPool, MAX_POOL_CAP};
use crate::odata::client::{
    D365Client, EnvironmentInfo, ServiceSearchResult, ServiceSummary, ServiceOperationMeta,
    ServiceOperationMetaView, BulkMetadata, ServiceCallRequest, ReadEntityRequest, EntityRow,
    EntityStructure, EntityStructureView, PoolStatus, ParamDirection, ServiceParameter,
    MAX_ROWS_HARD_CAP, COMPANY_FIELD, clone_strings,
};
use crate::odata::fixtures::{
    MockEntity, seed_operations, seed_entities, operation_invariants, entity_invariants, seed_keys,
    seed_rows, operation_content, seed_operation_contents, structure_content, seed_structures,
};
use crate::odata::filter::{
    Condition, ConditionView, CondOp, conditions_view, clause_spec, parse_conditions,
    unsupported_reason, row_matches, match_row, key_index_ci, find_key_ci,
};

verus! {

// ---------------------------------------------------------------------------
// Catalogue lookups
// ---------------------------------------------------------------------------

/// Position of the first operation named `name`.
pub open spec fn op_index(ops: Seq<ServiceOperationMeta>, name: Seq<char>) -> Option<int> {
    if exists|i: int| 0 <= i < ops.len() && ops[i].operation@ == name {
        Some(
            choose|i: int|
                0 <= i < ops.len() && ops[i].operation@ == name && forall|j: int|
                    0 <= j < i ==> ops[j].operation@ != name,
        )
    } else {
        None
    }
}

/// Position of the first entity named `name`.
pub open spec fn entity_index(es: Seq<MockEntity>, name: Seq<char>) -> Option<int> {
    if exists|i: int| 0 <= i < es.len() && es[i].structure.entity@ == name {
        Some(
            choose|i: int|
                0 <= i < es.len() && es[i].structure.entity@ == name && forall|j: int|
                    0 <= j < i ==> es[j].structure.entity@ != name,
        )
    } else {
        None
    }
}

pub fn find_op(ops: &Vec<ServiceOperationMeta>, name: &str) -> (r: Option<usize>)
    ensures
        r.is_some() == op_index(ops@, name@).is_some(),
        r.is_some() ==> r.unwrap() < ops@.len() && op_index(ops@, name@) == Some(
            r.unwrap() as int,
        ),
{
    let mut i: usize = 0;
    while i < ops.len()
        invariant
            i <= ops.len(),
            forall|j: int| 0 <= j < i ==> ops@[j].operation@ != name@,
        decreases ops.len() - i,
    {
        if crate::json::str_eq(ops[i].operation.as_str(), name) {
            proof {
                let c = choose|k: int|
                    0 <= k < ops@.len() && ops@[k].operation@ == name@ && forall|j: int|
                        0 <= j < k ==> ops@[j].operation@ != name@;
                assert(c == i) by {
                    if c > i {
                        assert(ops@[i as int].operation@ == name@);
                    }
                }
            }
            return Some(i);
        }
        i = i + 1;
    }
    None
}

fn find_entity(es: &Vec<MockEntity>, name: &str) -> (r: Option<usize>)
    ensures
        r.is_some() == entity_index(es@, name@).is_some(),
        r.is_some() ==> r.unwrap() < es@.len() && entity_index(es@, name@) == Some(
            r.unwrap() as int,
        ),
{
    let mut i: usize = 0;
    while i < es.len()
        invariant
            i <= es.len(),
            forall|j: int| 0 <= j < i ==> es@[j].structure.entity@ != name@,
        decreases es.len() - i,
    {
        if crate::json::str_eq(es[i].structure.entity.as_str(), name) {
            proof {
                let c = choose|k: int|
                    0 <= k < es@.len() && es@[k].structure.entity@ == name@ && forall|j: int|
                        0 <= j < k ==> es@[j].structure.entity@ != name@;
                assert(c == i) by {
                    if c > i {
                        assert(es@[i as int].structure.entity@ == name@);
                    }
                }
            }
            return Some(i);
        }
        i = i + 1;
    }
    None
}

/// The legal entity an identity names under `legal_entity`, or `USMF`.
pub open spec fn legal_entity_of(identity: JsonV) -> Seq<char> {
    match identity.get_spec("legal_entity"@) {
        Some(JsonV::Str(s)) => s,
        _ => "USMF"@,
    }
}

// ---------------------------------------------------------------------------
// Search
// ---------------------------------------------------------------------------

/// The text a query is matched against: name, description and service group,
/// each lower-cased, separated by single spaces.
pub open spec fn search_text(o: ServiceOperationMeta) -> Seq<char> {
    unicode_lowercase(o.operation@) + seq![' '] + unicode_lowercase(o.description@) + seq![' ']
        + unicode_lowercase(o.service_group@)
}

/// Positions of the operations that score above zero, in catalogue order.
pub open spec fn scoring_ops(ops: Seq<ServiceOperationMeta>, terms: Seq<Seq<char>>) -> Seq<int>
    decreases ops.len(),
{
    if ops.len() == 0 {
        seq![]
    } else if terms_score(search_text(ops.last()), terms) > 0 {
        scoring_ops(ops.drop_last(), terms).push(ops.len() - 1)
    } else {
        scoring_ops(ops.drop_last(), terms)
    }
}

/// The number of hits a search returns.
pub open spec fn hit_count(found: nat, limit: usize) -> nat {
    let cap: nat = if limit == 0 {
        1
    } else {
        limit as nat
    };
    if found < cap {
        found
    } else {
        cap
    }
}

/// `hits` are the best `hit_count` scoring operations, best first, ties in
/// catalogue order.
pub open spec fn search_result(
    ops: Seq<ServiceOperationMeta>,
    query: Seq<char>,
    limit: usize,
    hits: Seq<ServiceSummary>,
) -> bool {
    let terms = query_terms(query);
    let cands = scoring_ops(ops, terms);
    let scores = cands.map_values(|i: int| terms_score(search_text(ops[i]), terms) as u128);
    exists|ord: Seq<usize>|
        #![trigger is_ranking(scores, ord)]
        is_ranking(scores, ord) && hits.len() == hit_count(cands.len(), limit) && forall|k: int|
            0 <= k < hits.len() ==> {
                let o = ops[cands[ord[k] as int]];
                &&& (#[trigger] hits[k]).operation@ == o.operation@
                &&& hits[k].description@ == o.description@
                &&& hits[k].service_group@ == o.service_group@
                &&& hits[k].read_only == o.read_only
                &&& hits[k].score == terms_score(search_text(o), terms)
            }
}

proof fn lemma_scoring_ops(ops: Seq<ServiceOperationMeta>, terms: Seq<Seq<char>>)
    ensures
        forall|k: int|
            0 <= k < scoring_ops(ops, terms).len() ==> 0 <= #[trigger] scoring_ops(ops, terms)[k]
                < ops.len(),
    decreases ops.len(),
{
    if ops.len() > 0 {
        let prev = scoring_ops(ops.drop_last(), terms);
        lemma_scoring_ops(ops.drop_last(), terms);
        assert forall|k: int| 0 <= k < scoring_ops(ops, terms).len() implies 0
            <= #[trigger] scoring_ops(ops, terms)[k] < ops.len() by {
            if k < prev.len() {
                assert(0 <= prev[k] < ops.drop_last().len());
            }
        }
    }
}

/// An operation that scores is among the scoring positions, which are no more
/// than the operations.
proof fn lemma_scoring_ops_member(ops: Seq<ServiceOperationMeta>, terms: Seq<Seq<char>>, j: int)
    requires
        0 <= j < ops.len(),
        terms_score(search_text(ops[j]), terms) > 0,
    ensures
        exists|k: int| 0 <= k < scoring_ops(ops, terms).len() && scoring_ops(ops, terms)[k] == j,
        scoring_ops(ops, terms).len() <= ops.len(),
    decreases ops.len(),
{
    let prev = scoring_ops(ops.drop_last(), terms);
    if j == ops.len() - 1 {
        lemma_scoring_ops_len(ops.drop_last(), terms);
        assert(scoring_ops(ops, terms)[prev.len() as int] == j);
    } else {
        assert(ops.drop_last()[j] == ops[j]);
        lemma_scoring_ops_member(ops.drop_last(), terms, j);
        let k = choose|k: int| 0 <= k < prev.len() && prev[k] == j;
        assert(scoring_ops(ops, terms)[k] == j);
    }
}

proof fn lemma_scoring_ops_len(ops: Seq<ServiceOperationMeta>, terms: Seq<Seq<char>>)
    ensures
        scoring_ops(ops, terms).len() <= ops.len(),
    decreases ops.len(),
{
    if ops.len() > 0 {
        lemma_scoring_ops_len(ops.drop_last(), terms);
    }
}

/// A service search finds every operation whose lower-cased name, description or
/// service group contains a word of the lower-cased query: when the catalogue
/// holds no more operations than the limit, each such operation is among the hits,
/// with a score of at least one.
pub proof fn law_search_finds_matching_operations(
    ops: Seq<ServiceOperationMeta>,
    query: Seq<char>,
    limit: usize,
    hits: Seq<ServiceSummary>,
    j: int,
    t: Seq<char>,
)
    requires
        search_result(ops, query, limit, hits),
        ops.len() <= limit,
        0 <= j < ops.len(),
        t.len() > 0,
        query_terms(query).contains(t),
        contains_seq(unicode_lowercase(ops[j].operation@), t) || contains_seq(
            unicode_lowercase(ops[j].description@),
            t,
        ) || contains_seq(unicode_lowercase(ops[j].service_group@), t),
    ensures
        exists|k: int|
            0 <= k < hits.len() && (#[trigger] hits[k]).operation@ == ops[j].operation@
                && hits[k].score >= 1,
{
    let terms = query_terms(query);
    let o = ops[j];
    let a = unicode_lowercase(o.operation@);
    let d = unicode_lowercase(o.description@);
    let g = unicode_lowercase(o.service_group@);
    lemma_contains_concat(a, seq![' '], t);
    lemma_contains_concat(a + seq![' '], d, t);
    lemma_contains_concat(a + seq![' '] + d, seq![' '], t);
    lemma_contains_concat(a + seq![' '] + d + seq![' '], g, t);
    assert(contains_seq(search_text(o), t));
    lemma_contains_counts(search_text(o), t);
    lemma_score_covers_term(search_text(o), terms, t);
    lemma_scoring_ops_member(ops, terms, j);
    let cands = scoring_ops(ops, terms);
    let scores = cands.map_values(|i: int| terms_score(search_text(ops[i]), terms) as u128);
    let k0 = choose|k: int| 0 <= k < cands.len() && cands[k] == j;
    let ord = choose|ord: Seq<usize>|
        #![trigger is_ranking(scores, ord)]
        is_ranking(scores, ord) && hits.len() == hit_count(cands.len(), limit) && forall|k: int|
            0 <= k < hits.len() ==> {
                let o = ops[cands[ord[k] as int]];
                &&& (#[trigger] hits[k]).operation@ == o.operation@
                &&& hits[k].description@ == o.description@
                &&& hits[k].service_group@ == o.service_group@
                &&& hits[k].read_only == o.read_only
                &&& hits[k].score == terms_score(search_text(o), terms)
            };
    assert(ord.contains(k0 as usize));
    let k = choose|k: int| 0 <= k < ord.len() && ord[k] == k0 as usize;
    assert(hits[k].operation@ == ops[j].operation@);
}

fn search_text_of(o: &ServiceOperationMeta) -> (hay: Vec<char>)
    ensures
        hay@ == search_text(*o),
{
    let mut hay = lower_chars(o.operation.as_str());
    hay.push(' ');
    let d = lower_chars(o.description.as_str());
    push_all(&mut hay, d.as_slice());
    hay.push(' ');
    let g = lower_chars(o.service_group.as_str());
    push_all(&mut hay, g.as_slice());
    proof {
        assert(hay@ =~= search_text(*o));
    }
    hay
}

// ---------------------------------------------------------------------------
// Bulk metadata
// ---------------------------------------------------------------------------

/// The requested operations that the catalogue holds, in request order.
pub open spec fn found_ops(ops: Seq<ServiceOperationMeta>, names: Seq<Seq<char>>) -> Seq<
    ServiceOperationMetaView,
>
    decreases names.len(),
{
    if names.len() == 0 {
        seq![]
    } else {
        let rest = found_ops(ops, names.drop_last());
        match op_index(ops, names.last()) {
            Some(i) => rest.push(ops[i]@),
            None => rest,
        }
    }
}

/// The requested operations that the catalogue lacks, in request order.
pub open spec fn missing_ops(ops: Seq<ServiceOperationMeta>, names: Seq<Seq<char>>) -> Seq<
    Seq<char>,
>
    decreases names.len(),
{
    if names.len() == 0 {
        seq![]
    } else {
        let rest = missing_ops(ops, names.drop_last());
        match op_index(ops, names.last()) {
            Some(_) => rest,
            None => rest.push(names.last()),
        }
    }
}

pub open spec fn metas_view(v: Seq<ServiceOperationMeta>) -> Seq<ServiceOperationMetaView> {
    v.map_values(|m: ServiceOperationMeta| m@)
}

// ---------------------------------------------------------------------------
// Service calls
// ---------------------------------------------------------------------------

/// Object member update: replace the value of an existing member, or append a new one.
pub open spec fn obj_insert(m: Seq<(Seq<char>, JsonV)>, k: Seq<char>, v: JsonV) -> Seq<
    (Seq<char>, JsonV),
> {
    let i = key_index(m, k);
    if i < m.len() {
        m.update(i, (k, v))
    } else {
        m.push((k, v))
    }
}

/// The placeholder outputs of a mock call: each output parameter mapped to
/// `"<mock TYPE>"`.
pub open spec fn mock_outputs_spec(params: Seq<ServiceParameter>) -> Seq<(Seq<char>, JsonV)>
    decreases params.len(),
{
    if params.len() == 0 {
        seq![]
    } else {
        let rest = mock_outputs_spec(params.drop_last());
        let p = params.last();
        if p.direction == ParamDirection::Out {
            obj_insert(rest, p.name@, JsonV::Str("<mock "@ + p.type_token@ + ">"@))
        } else {
            rest
        }
    }
}

/// Position of the first required input parameter the arguments lack.
pub open spec fn missing_input(params: Seq<ServiceParameter>, args: Seq<(Seq<char>, JsonV)>) -> Option<
    int,
> {
    if exists|j: int| 0 <= j < params.len() && lacks_input(params[j], args) {
        Some(
            choose|j: int|
                0 <= j < params.len() && lacks_input(params[j], args) && forall|k: int|
                    0 <= k < j ==> !lacks_input(params[k], args),
        )
    } else {
        None
    }
}

pub open spec fn lacks_input(p: ServiceParameter, args: Seq<(Seq<char>, JsonV)>) -> bool {
    p.direction == ParamDirection::In && !p.optional && key_index(args, p.name@) >= args.len()
}

/// The result object of a successful mock call.
pub open spec fn call_result(operation: Seq<char>, args: Seq<(Seq<char>, JsonV)>, meta: ServiceOperationMeta) -> JsonV {
    JsonV::Object(
        seq![
            ("executed_on"@, JsonV::Str("gt-dev"@)),
            ("inputs"@, JsonV::Object(args)),
            ("operation"@, JsonV::Str(operation)),
            ("outputs"@, JsonV::Object(mock_outputs_spec(meta.parameters@))),
        ],
    )
}

pub open spec fn modifies_state_refusal(operation: Seq<char>) -> Seq<char> {
    "operation '"@ + operation + "' modifies state; not callable in read-only mode"@
}

fn insert_member(m: &mut Vec<(String, Json)>, k: String, v: Json)
    ensures
        members_view(final(m)@) == obj_insert(members_view(old(m)@), k@, v@),
{
    proof {
        lemma_members_view(m@);
    }
    match find_member(m, k.as_str()) {
        Some(i) => {
            let ghost before = m@;
            let ghost kv = k@;
            let ghost vv = v@;
            m.set(i, (k, v));
            proof {
                lemma_members_view(m@);
                assert(members_view(m@) =~= members_view(before).update(i as int, (kv, vv)));
            }
        },
        None => {
            let ghost before = m@;
            m.push((k, v));
            proof {
                lemma_members_view(m@);
                lemma_members_view(before);
                assert(members_view(m@) =~= members_view(before).push((k@, v@)));
            }
        },
    }
}

fn mock_outputs(meta: &ServiceOperationMeta) -> (out: Json)
    ensures
        out@ == JsonV::Object(mock_outputs_spec(meta.parameters@)),
{
    let mut out: Vec<(String, Json)> = Vec::new();
    let mut i: usize = 0;
    while i < meta.parameters.len()
        invariant
            i <= meta.parameters.len(),
            members_view(out@) == mock_outputs_spec(meta.parameters@.take(i as int)),
        decreases meta.parameters.len() - i,
    {
        let p = &meta.parameters[i];
        proof {
            assert(meta.parameters@.take(i as int + 1).drop_last() =~= meta.parameters@.take(
                i as int,
            ));
        }
        if p.direction == ParamDirection::Out {
            let mut text = owned("<mock ");
            text.append(p.type_token.as_str());
            text.append(">");
            insert_member(&mut out, p.name.clone(), Json::Str(text));
        }
        i = i + 1;
    }
    proof {
        assert(meta.parameters@.take(meta.parameters@.len() as int) =~= meta.parameters@);
    }
    Json::Object(out)
}

fn first_missing_input(params: &Vec<ServiceParameter>, args: &Vec<(String, Json)>) -> (r: Option<
    usize,
>)
    ensures
        r.is_some() == missing_input(params@, members_view(args@)).is_some(),
        r.is_some() ==> r.unwrap() < params@.len() && missing_input(params@, members_view(args@))
            == Some(r.unwrap() as int),
{
    let ghost a = members_view(args@);
    let mut i: usize = 0;
    while i < params.len()
        invariant
            i <= params.len(),
            a == members_view(args@),
            forall|j: int| 0 <= j < i ==> !lacks_input(params@[j], a),
        decreases params.len() - i,
    {
        let p = &params[i];
        if p.direction == ParamDirection::In && !p.optional && find_member(
            args,
            p.name.as_str(),
        ).is_none() {
            proof {
                assert(lacks_input(params@[i as int], a));
                let c = choose|j: int|
                    0 <= j < params@.len() && lacks_input(params@[j], a) && forall|k: int|
                        0 <= k < j ==> !lacks_input(params@[k], a);
                assert(c == i) by {
                    if c > i {
                        assert(lacks_input(params@[i as int], a));
                    }
                }
            }
            return Some(i);
        }
        i = i + 1;
    }
    None
}

// ---------------------------------------------------------------------------
// Entity reads
// ---------------------------------------------------------------------------

/// A record's members as a map (a later member of the same name wins).
pub open spec fn row_map(m: Seq<(Seq<char>, JsonV)>) -> Map<Seq<char>, JsonV>
    decreases m.len(),
{
    if m.len() == 0 {
        Map::empty()
    } else {
        row_map(m.drop_last()).insert(m.last().0, m.last().1)
    }
}

/// The records of an entity, as plain members.
pub open spec fn rows_view(rows: Seq<Vec<(String, Json)>>) -> Seq<Seq<(Seq<char>, JsonV)>> {
    rows.map_values(|r: Vec<(String, Json)>| members_view(r@))
}

/// Position of the first requested field that names no field of the entity
/// (names compared ignoring ASCII case).
pub open spec fn unknown_field(st: EntityStructure, fields: Seq<Seq<char>>) -> Option<int> {
    if exists|j: int| 0 <= j < fields.len() && !names_field(st, fields[j]) {
        Some(
            choose|j: int|
                0 <= j < fields.len() && !names_field(st, fields[j]) && forall|k: int|
                    0 <= k < j ==> names_field(st, fields[k]),
        )
    } else {
        None
    }
}

pub open spec fn names_field(st: EntityStructure, f: Seq<char>) -> bool {
    exists|t: int| 0 <= t < st.fields@.len() && eq_ignore_case(st.fields@[t].name@, f)
}

/// The fields a read returns: the requested ones, or every field of the entity.
pub open spec fn projection_of(st: EntityStructure, fields: Seq<Seq<char>>) -> Seq<Seq<char>> {
    if fields.len() == 0 {
        st.fields@.map_values(|f: crate::odata::client::EntityField| f.name@)
    } else {
        fields
    }
}

/// The conditions a read applies: the requested ones, plus `dataAreaId` equal to the
/// connection's legal entity when the entity is company-scoped and no requested
/// condition names `dataAreaId`.
pub open spec fn effective_conditions(
    conds: Seq<ConditionView>,
    company_scoped: bool,
    legal: Seq<char>,
) -> Seq<ConditionView> {
    if company_scoped && !(exists|j: int|
        0 <= j < conds.len() && eq_ignore_case(conds[j].field, "dataAreaId"@)) {
        conds.push(ConditionView { field: "dataAreaId"@, op: CondOp::Eq, value: legal })
    } else {
        conds
    }
}

pub open spec fn row_satisfies(row: Seq<(Seq<char>, JsonV)>, conds: Seq<ConditionView>) -> bool {
    forall|j: int| 0 <= j < conds.len() ==> row_matches(row, #[trigger] conds[j])
}

/// The records satisfying every condition, in stored order.
pub open spec fn matching_rows(rows: Seq<Seq<(Seq<char>, JsonV)>>, conds: Seq<ConditionView>) -> Seq<
    Seq<(Seq<char>, JsonV)>,
>
    decreases rows.len(),
{
    if rows.len() == 0 {
        seq![]
    } else if row_satisfies(rows.last(), conds) {
        matching_rows(rows.drop_last(), conds).push(rows.last())
    } else {
        matching_rows(rows.drop_last(), conds)
    }
}

/// A record projected onto fields: each field (ASCII case-insensitive) that the
/// record holds, under the record's own spelling of its name.
pub open spec fn project(row: Seq<(Seq<char>, JsonV)>, proj: Seq<Seq<char>>) -> Map<
    Seq<char>,
    JsonV,
>
    decreases proj.len(),
{
    if proj.len() == 0 {
        Map::empty()
    } else {
        let m = project(row, proj.drop_last());
        match key_index_ci(row, proj.last()) {
            Some(j) => m.insert(row[j].0, row[j].1),
            None => m,
        }
    }
}

pub open spec fn entity_rows_view(rows: Seq<EntityRow>) -> Seq<Map<Seq<char>, JsonV>> {
    rows.map_values(|r: EntityRow| row_map(members_view(r.values@)))
}

/// Whether a returned list of records is what a read of `st`/`rows` gives with the
/// parsed conditions `conds`: the first `max_rows` matching records, projected.
pub open spec fn read_result(
    st: EntityStructure,
    rows: Seq<Seq<(Seq<char>, JsonV)>>,
    conds: Seq<ConditionView>,
    legal: Seq<char>,
    fields: Seq<Seq<char>>,
    max_rows: usize,
    out: Seq<Map<Seq<char>, JsonV>>,
) -> bool {
    let m = matching_rows(rows, effective_conditions(conds, st.company_scoped, legal));
    let n: nat = if m.len() < max_rows {
        m.len()
    } else {
        max_rows as nat
    };
    &&& out.len() == n
    &&& forall|k: int|
        0 <= k < n ==> #[trigger] out[k] == project(m[k], projection_of(st, fields))
}

proof fn lemma_matching_push(rows: Seq<Seq<(Seq<char>, JsonV)>>, conds: Seq<ConditionView>, i: int)
    requires
        0 <= i < rows.len(),
    ensures
        matching_rows(rows.take(i + 1), conds) == if row_satisfies(rows[i], conds) {
            matching_rows(rows.take(i), conds).push(rows[i])
        } else {
            matching_rows(rows.take(i), conds)
        },
{
    assert(rows.take(i + 1).drop_last() =~= rows.take(i));
    assert(rows.take(i + 1).last() == rows[i]);
}

proof fn lemma_matching_prefix(rows: Seq<Seq<(Seq<char>, JsonV)>>, conds: Seq<ConditionView>, i: int)
    requires
        0 <= i <= rows.len(),
    ensures
        matching_rows(rows.take(i), conds).len() <= matching_rows(rows, conds).len(),
        forall|k: int|
            0 <= k < matching_rows(rows.take(i), conds).len() ==> #[trigger] matching_rows(
                rows.take(i),
                conds,
            )[k] == matching_rows(rows, conds)[k],
    decreases rows.len() - i,
{
    if i < rows.len() {
        lemma_matching_prefix(rows, conds, i + 1);
        lemma_matching_push(rows, conds, i);
        let a = matching_rows(rows.take(i), conds);
        let b = matching_rows(rows.take(i + 1), conds);
        assert forall|k: int| 0 <= k < a.len() implies #[trigger] a[k] == matching_rows(
            rows,
            conds,
        )[k] by {
            assert(a[k] == b[k]);
        }
    } else {
        assert(rows.take(i) =~= rows);
    }
}

/// Every record a read returns satisfies every condition it applied.
proof fn lemma_matching_satisfies(rows: Seq<Seq<(Seq<char>, JsonV)>>, conds: Seq<ConditionView>)
    ensures
        forall|k: int|
            0 <= k < matching_rows(rows, conds).len() ==> row_satisfies(
                #[trigger] matching_rows(rows, conds)[k],
                conds,
            ),
    decreases rows.len(),
{
    if rows.len() > 0 {
        let prev = matching_rows(rows.drop_last(), conds);
        lemma_matching_satisfies(rows.drop_last(), conds);
        assert forall|k: int| 0 <= k < matching_rows(rows, conds).len() implies row_satisfies(
            #[trigger] matching_rows(rows, conds)[k],
            conds,
        ) by {
            if k < prev.len() {
                assert(row_satisfies(prev[k], conds));
            }
        }
    }
}

/// Reading a company-scoped entity without naming `dataAreaId` in any condition
/// returns only records whose `dataAreaId` equals the connection's legal entity
/// (ignoring ASCII case): a read can never leak another company's records.
pub proof fn law_reads_stay_in_company(
    rows: Seq<Seq<(Seq<char>, JsonV)>>,
    conds: Seq<ConditionView>,
    legal: Seq<char>,
)
    requires
        !(exists|j: int| 0 <= j < conds.len() && eq_ignore_case(conds[j].field, "dataAreaId"@)),
    ensures
        forall|k: int|
            0 <= k < matching_rows(rows, effective_conditions(conds, true, legal)).len()
                ==> eq_ignore_case(
                crate::odata::filter::field_text(
                    #[trigger] matching_rows(rows, effective_conditions(conds, true, legal))[k],
                    "dataAreaId"@,
                ),
                legal,
            ),
{
    let ec = effective_conditions(conds, true, legal);
    lemma_matching_satisfies(rows, ec);
    assert forall|k: int| 0 <= k < matching_rows(rows, ec).len() implies eq_ignore_case(
        crate::odata::filter::field_text(#[trigger] matching_rows(rows, ec)[k], "dataAreaId"@),
        legal,
    ) by {
        let r = matching_rows(rows, ec)[k];
        assert(row_satisfies(r, ec));
        assert(ec[conds.len() as int] == ConditionView {
            field: "dataAreaId"@,
            op: CondOp::Eq,
            value: legal,
        });
        assert(row_matches(r, ec[conds.len() as int]));
    }
}

proof fn lemma_row_map_push(m: Seq<(Seq<char>, JsonV)>, k: Seq<char>, v: JsonV)
    ensures
        row_map(m.push((k, v))) == row_map(m).insert(k, v),
{
    assert(m.push((k, v)).drop_last() =~= m);
}

#[verifier::rlimit(40)]
fn project_row(row: &Vec<(String, Json)>, proj: &Vec<Vec<char>>) -> (out: Vec<(String, Json)>)
    ensures
        row_map(members_view(out@)) == project(members_view(row@), vecs_view(proj@)),
{
    proof {
        lemma_members_view(row@);
    }
    let ghost pv = vecs_view(proj@);
    let mut out: Vec<(String, Json)> = Vec::new();
    let mut i: usize = 0;
    while i < proj.len()
        invariant
            i <= proj.len(),
            pv == vecs_view(proj@),
            members_view(row@).len() == row@.len(),
            forall|j: int|
                0 <= j < row@.len() ==> #[trigger] members_view(row@)[j] == (
                    row@[j].0@,
                    json_view(row@[j].1),
                ),
            row_map(members_view(out@)) == project(members_view(row@), pv.take(i as int)),
        decreases proj.len() - i,
    {
        proof {
            assert(pv.take(i as int + 1).drop_last() =~= pv.take(i as int));
            assert(pv[i as int] == proj@[i as int]@);
        }
        match find_key_ci(row, proj[i].as_slice()) {
            Some(j) => {
                let k = row[j].0.clone();
                let v = row[j].1.duplicate();
                let ghost before = out@;
                out.push((k, v));
                proof {
                    lemma_members_view(before);
                    lemma_members_view(out@);
                    assert(members_view(out@) =~= members_view(before).push(
                        (row@[j as int].0@, json_view(row@[j as int].1)),
                    ));
                    lemma_row_map_push(
                        members_view(before),
                        row@[j as int].0@,
                        json_view(row@[j as int].1),
                    );
                }
            },
            None => {},
        }
        i = i + 1;
    }
    proof {
        assert(pv.take(proj@.len() as int) =~= pv);
    }
    out
}

fn row_passes(row: &Vec<(String, Json)>, conds: &Vec<Condition>) -> (b: bool)
    ensures
        b == row_satisfies(members_view(row@), conditions_view(conds@)),
{
    let ghost cv = conditions_view(conds@);
    let mut j: usize = 0;
    while j < conds.len()
        invariant
            j <= conds.len(),
            cv == conditions_view(conds@),
            forall|k: int| 0 <= k < j ==> row_matches(members_view(row@), #[trigger] cv[k]),
        decreases conds.len() - j,
    {
        if !match_row(row, &conds[j]) {
            proof {
                assert(cv[j as int] == conds@[j as int]@);
            }
            return false;
        }
        proof {
            assert(cv[j as int] == conds@[j as int]@);
        }
        j = j + 1;
    }
    true
}

/// The catalogued operations whose search text mentions a query term, best score
/// first (ties in catalogue order), at most `limit` of them (at least one).
pub fn search_operations(ops: &Vec<ServiceOperationMeta>, query: &str, limit: usize) -> (res:
    ServiceSearchResult)
    ensures
        res.query@ == query@,
        search_result(ops@, query@, limit, res.hits@),
{
    let lq = lower_chars(query);
    let terms = split_words(lq.as_slice());
    let ghost tv = query_terms(query@);
    let mut cands: Vec<usize> = Vec::new();
    let mut scores: Vec<u128> = Vec::new();
    let mut i: usize = 0;
    while i < ops.len()
        invariant
            i <= ops.len(),
            tv == vecs_view(terms@),
            cands@.len() == scores@.len(),
            cands@.map_values(|c: usize| c as int) == scoring_ops(ops@.take(i as int), tv),
            forall|k: int|
                0 <= k < scores@.len() ==> #[trigger] scores@[k] as int == terms_score(
                    search_text(ops@[cands@[k] as int]),
                    tv,
                ),
            forall|k: int| 0 <= k < cands@.len() ==> cands@[k] < i,
        decreases ops.len() - i,
    {
        let hay = search_text_of(&ops[i]);
        let s = score_of(&hay, &terms);
        proof {
            let t = ops@.take(i as int + 1);
            assert(t.drop_last() =~= ops@.take(i as int));
            assert(t.last() == ops@[i as int]);
        }
        if s > 0 {
            let ghost before = cands@;
            cands.push(i);
            scores.push(s);
            proof {
                assert(cands@.map_values(|c: usize| c as int) =~= before.map_values(
                    |c: usize| c as int,
                ).push(i as int));
            }
        }
        i = i + 1;
    }
    proof {
        assert(ops@.take(ops@.len() as int) =~= ops@);
    }
    let ord = rank_desc(scores.as_slice());
    let cap: usize = if limit == 0 {
        1
    } else {
        limit
    };
    let n: usize = if ord.len() < cap {
        ord.len()
    } else {
        cap
    };
    let ghost cs = scoring_ops(ops@, tv);
    let ghost sc = cs.map_values(|c: int| terms_score(search_text(ops@[c]), tv) as u128);
    proof {
        lemma_scoring_ops(ops@, tv);
        assert(sc =~= scores@) by {
            assert forall|k: int| 0 <= k < sc.len() implies sc[k] == scores@[k] by {
                assert(cs[k] == cands@[k] as int);
            }
        }
    }
    let mut hits: Vec<ServiceSummary> = Vec::new();
    let mut k: usize = 0;
    while k < n
        invariant
            k <= n,
            n <= ord@.len(),
            is_ranking(scores@, ord@),
            ord@.len() == cands@.len(),
            cands@.len() == scores@.len(),
            forall|q: int| 0 <= q < cands@.len() ==> #[trigger] cands@[q] < ops@.len(),
            hits@.len() == k,
            forall|q: int|
                0 <= q < k ==> {
                    let o = ops@[cands@[ord@[q] as int] as int];
                    &&& (#[trigger] hits@[q]).operation@ == o.operation@
                    &&& hits@[q].description@ == o.description@
                    &&& hits@[q].service_group@ == o.service_group@
                    &&& hits@[q].read_only == o.read_only
                    &&& hits@[q].score == scores@[ord@[q] as int]
                },
        decreases n - k,
    {
        let c = cands[ord[k]];
        let o = &ops[c];
        hits.push(
            ServiceSummary {
                operation: o.operation.clone(),
                description: o.description.clone(),
                service_group: o.service_group.clone(),
                read_only: o.read_only,
                score: scores[ord[k]],
            },
        );
        k = k + 1;
    }
    proof {
        assert(is_ranking(sc, ord@));
        assert forall|q: int| 0 <= q < hits@.len() implies {
            let o = ops@[cs[ord@[q] as int]];
            &&& (#[trigger] hits@[q]).operation@ == o.operation@
            &&& hits@[q].description@ == o.description@
            &&& hits@[q].service_group@ == o.service_group@
            &&& hits@[q].read_only == o.read_only
            &&& hits@[q].score == terms_score(search_text(o), tv)
        } by {
            let oi = ord@[q] as int;
            assert(cs[oi] == cands@[oi] as int);
            assert(sc[oi] == scores@[oi]);
        }
    }
    ServiceSearchResult { query: owned(query), hits }
}

/// The catalogued operation named `operation`, or `NotFound`.
pub fn lookup_operation(ops: &Vec<ServiceOperationMeta>, operation: &str) -> (r: D365Result<
    ServiceOperationMeta,
>)
    ensures
        match op_index(ops@, operation@) {
            Some(i) => r matches Ok(m) && m@ == ops@[i]@,
            None => r matches Err(D365Error::NotFound(n)) && n@ == operation@,
        },
{
    match find_op(ops, operation) {
        Some(i) => Ok(ops[i].duplicate()),
        None => Err(D365Error::NotFound(owned(operation))),
    }
}

/// The catalogued operations among `operations`, in request order, and the names
/// that are not catalogued.
pub fn bulk_lookup(ops: &Vec<ServiceOperationMeta>, operations: &[String], language: &str) -> (b:
    BulkMetadata)
    ensures
        b.language@ == language@,
        metas_view(b.operations@) == found_ops(ops@, strings_view(operations@)),
        strings_view(b.missing@) == missing_ops(ops@, strings_view(operations@)),
{
    let ghost names = strings_view(operations@);
    let mut out: Vec<ServiceOperationMeta> = Vec::new();
    let mut missing: Vec<String> = Vec::new();
    let mut i: usize = 0;
    while i < operations.len()
        invariant
            i <= operations.len(),
            names == strings_view(operations@),
            metas_view(out@) == found_ops(ops@, names.take(i as int)),
            strings_view(missing@) == missing_ops(ops@, names.take(i as int)),
        decreases operations.len() - i,
    {
        proof {
            assert(names.take(i as int + 1).drop_last() =~= names.take(i as int));
            assert(names[i as int] == operations@[i as int]@);
        }
        match find_op(ops, operations[i].as_str()) {
            Some(j) => {
                let ghost before = out@;
                out.push(ops[j].duplicate());
                proof {
                    assert(metas_view(out@) =~= metas_view(before).push(
                        ops@[j as int]@,
                    ));
                }
            },
            None => {
                let ghost before = missing@;
                missing.push(operations[i].clone());
                proof {
                    assert(strings_view(missing@) =~= strings_view(before).push(
                        operations@[i as int]@,
                    ));
                }
            },
        }
        i = i + 1;
    }
    proof {
        assert(names.take(operations@.len() as int) =~= names);
    }
    BulkMetadata { language: owned(language), operations: out, missing }
}

// ---------------------------------------------------------------------------
// The backend
// ---------------------------------------------------------------------------

/// In-memory backend over the curated catalogue.
pub struct MockD365Client {
    pool: ConnectionPool,
    operations: Vec<ServiceOperationMeta>,
    entities: Vec<MockEntity>,
    identity: Json,
    legal_entity: String,
}

impl MockD365Client {
    /// The catalogued operations.
    pub closed spec fn catalogue(&self) -> Seq<ServiceOperationMeta> {
        self.operations@
    }

    /// The catalogued entities and their records.
    pub closed spec fn entity_catalogue(&self) -> Seq<MockEntity> {
        self.entities@
    }

    /// The legal entity reads are scoped to.
    pub closed spec fn legal_entity_view(&self) -> Seq<char> {
        self.legal_entity@
    }

    /// The identity reported by `environment_info`.
    pub closed spec fn identity_view(&self) -> JsonV {
        self.identity@
    }

    /// The connection pool bounding concurrent calls.
    pub closed spec fn pool_cap(&self) -> usize {
        self.pool.cap_limit()
    }

    /// A backend over the given catalogue.  The legal entity is the identity's
    /// `legal_entity` string, or `USMF`.
    pub fn with_catalogue(
        pool_size: usize,
        identity: Json,
        operations: Vec<ServiceOperationMeta>,
        entities: Vec<MockEntity>,
    ) -> (c: Self)
        requires
            pool_size <= MAX_POOL_CAP,
        ensures
            c.catalogue() == operations@,
            c.entity_catalogue() == entities@,
            c.legal_entity_view() == legal_entity_of(identity@),
            c.identity_view() == identity@,
            c.pool_cap() == if pool_size == 0 {
                1
            } else {
                pool_size
            },
    {
        let legal_entity = match identity.get("legal_entity") {
            Some(v) => match v.as_str() {
                Some(s) => s.clone(),
                None => owned("USMF"),
            },
            None => owned("USMF"),
        };
        proof {
            match identity@.get_spec("legal_entity"@) {
                Some(JsonV::Str(s)) => {},
                _ => {},
            }
        }
        MockD365Client {
            pool: ConnectionPool::new(pool_size),
            operations,
            entities,
            identity,
            legal_entity,
        }
    }

    /// The in-memory backend over the curated catalogue: the seed operations and
    /// the seed entities with their records.
    pub fn new(pool_size: usize, identity: Json) -> (c: std::sync::Arc<Self>)
        requires
            pool_size <= MAX_POOL_CAP,
        ensures
            c.catalogue().len() == 7,
            c.catalogue().map_values(|o: ServiceOperationMeta| o.operation@) == seq![
                "EnvironmentInfo"@,
                "ReleasedProductGetDetail"@,
                "LedgerGeneralJournalEntryPost"@,
                "InventoryProductReceiptPost"@,
                "PurchaseOrderCreate"@,
                "SalesOrderCreate"@,
                "CustomerMaintain"@,
            ],
            c.catalogue().map_values(|o: ServiceOperationMeta| o.read_only) == seq![
                true,
                true,
                false,
                false,
                false,
                false,
                false,
            ],
            c.catalogue().map_values(|o: ServiceOperationMeta| o.uses_changeset) == seq![
                false,
                false,
                true,
                true,
                true,
                true,
                true,
            ],
            c.entity_catalogue().map_values(|e: MockEntity| e.structure.entity@) == seq![
                "CompaniesV2"@,
                "FiscalCalendarPeriod"@,
                "ReleasedProductsV2"@,
                "LedgerJournalTrans"@,
                "GeneralJournalAccountEntry"@,
                "CustomersV3"@,
                "SalesOrderHeadersV2"@,
            ],
            c.entity_catalogue().map_values(|e: MockEntity| e.structure.company_scoped) == seq![
                false,
                true,
                true,
                true,
                true,
                true,
                true,
            ],
            c.entity_catalogue().map_values(
                |e: MockEntity| e.structure.key_fields@.map_values(|k: String| k@),
            ) == seed_keys(),
            c.entity_catalogue().map_values(|e: MockEntity| rows_view(e.rows@)) == seed_rows(),
            c.catalogue().map_values(|o: ServiceOperationMeta| operation_content(o))
                == seed_operation_contents(),
            c.entity_catalogue().map_values(|e: MockEntity| structure_content(e.structure))
                == seed_structures(),
            forall|i: int|
                0 <= i < c.catalogue().len() ==> operation_invariants(#[trigger] c.catalogue()[i]),
            c.entity_catalogue().len() == 7,
            forall|i: int|
                0 <= i < c.entity_catalogue().len() ==> entity_invariants(
                    #[trigger] c.entity_catalogue()[i].structure,
                ),
            c.legal_entity_view() == legal_entity_of(identity@),
            c.identity_view() == identity@,
            c.pool_cap() == if pool_size == 0 {
                1
            } else {
                pool_size
            },
    {
        std::sync::Arc::new(
            Self::with_catalogue(pool_size, identity, seed_operations(), seed_entities()),
        )
    }

    /// The pool, for callers that hold a slot for the duration of a call.
    pub fn pool(&self) -> (p: &ConnectionPool)
        ensures
            p.cap_limit() == self.pool_cap(),
    {
        &self.pool
    }
}

impl D365Client for MockD365Client {
    open spec fn environment_info_post(&self, r: D365Result<EnvironmentInfo>) -> bool {
        r matches Ok(info) && {
            &&& info.environment@ == "gt-dev"@
            &&& info.legal_entity@ == self.legal_entity_view()
            &&& info.version@ == "Dynamics 365 Finance 10.0.40 (mock)"@
            &&& info.environment_role@ == "DEV"@
            &&& info.base_url@ == "https://gt-dev.operations.dynamics.com"@
            &&& info.platform@ == "Finance & Operations"@
            &&& info.identity@ == self.identity_view()
        }
    }

    open spec fn search_service_post(
        &self,
        query: Seq<char>,
        limit: usize,
        r: D365Result<ServiceSearchResult>,
    ) -> bool {
        r matches Ok(res) && res.query@ == query && search_result(
            self.catalogue(),
            query,
            limit,
            res.hits@,
        )
    }

    open spec fn service_metadata_post(
        &self,
        operation: Seq<char>,
        language: Seq<char>,
        r: D365Result<ServiceOperationMeta>,
    ) -> bool {
        match op_index(self.catalogue(), operation) {
            Some(i) => r matches Ok(m) && m@ == self.catalogue()[i]@,
            None => r matches Err(D365Error::NotFound(n)) && n@ == operation,
        }
    }

    open spec fn bulk_service_metadata_post(
        &self,
        operations: Seq<Seq<char>>,
        language: Seq<char>,
        r: D365Result<BulkMetadata>,
    ) -> bool {
        r matches Ok(b) && {
            &&& b.language@ == language
            &&& metas_view(b.operations@) == found_ops(self.catalogue(), operations)
            &&& strings_view(b.missing@) == missing_ops(self.catalogue(), operations)
        }
    }

    open spec fn call_service_post(
        &self,
        request: ServiceCallRequest,
        read_only_mode: bool,
        r: D365Result<Json>,
    ) -> bool {
        match op_index(self.catalogue(), request.operation@) {
            None => r matches Err(D365Error::NotFound(n)) && n@ == request.operation@,
            Some(i) => {
                let meta = self.catalogue()[i];
                if read_only_mode && !meta.read_only {
                    r matches Err(D365Error::PermissionDenied(msg)) && msg@
                        == modifies_state_refusal(request.operation@)
                } else {
                    match request.parameters@ {
                        JsonV::Object(args) => call_outcome(request.operation@, args, meta, r),
                        JsonV::Null => call_outcome(request.operation@, seq![], meta, r),
                        other => r matches Err(D365Error::InvalidParameter { name, reason })
                            && name@ == "parameters"@ && reason@ == "expected object, got "@
                            + render(other),
                    }
                }
            },
        }
    }

    open spec fn read_entity_post(&self, request: ReadEntityRequest, r: D365Result<Vec<EntityRow>>) -> bool {
        &&& request.max_rows == 0 ==> (r matches Err(D365Error::InvalidParameter { name, reason })
            && name@ == "max_rows"@ && reason@ == "must be >= 1"@)
        &&& request.max_rows > MAX_ROWS_HARD_CAP ==> (r matches Err(
            D365Error::QueryResultOverflow { entity, max_rows },
        ) && entity@ == request.entity@ && max_rows == request.max_rows)
        &&& 1 <= request.max_rows <= MAX_ROWS_HARD_CAP ==> read_entity_outcome(
            self.entity_catalogue(),
            self.legal_entity_view(),
            request,
            r,
        )
    }

    open spec fn pool_status_post(&self, s: PoolStatus) -> bool {
        s.cap == self.pool_cap() && s.available <= usize::MAX / 2
    }

    open spec fn entity_structure_post(&self, entity: Seq<char>, r: D365Result<EntityStructure>) -> bool {
        match entity_index(self.entity_catalogue(), entity) {
            Some(i) => r matches Ok(s) && s@ == self.entity_catalogue()[i].structure@,
            None => r matches Err(D365Error::NotFound(n)) && n@ == entity,
        }
    }

    fn environment_info(&self) -> (r: D365Result<EnvironmentInfo>)
    {
        Ok(
            EnvironmentInfo {
                environment: owned("gt-dev"),
                legal_entity: self.legal_entity.clone(),
                version: owned("Dynamics 365 Finance 10.0.40 (mock)"),
                environment_role: owned("DEV"),
                base_url: owned("https://gt-dev.operations.dynamics.com"),
                platform: owned("Finance & Operations"),
                identity: self.identity.duplicate(),
            },
        )
    }

    fn search_service(&self, query: &str, limit: usize) -> (r: D365Result<ServiceSearchResult>)
    {
        Ok(search_operations(&self.operations, query, limit))
    }

    fn service_metadata(&self, operation: &str, language: &str) -> (r: D365Result<
        ServiceOperationMeta,
    >)
    {
        lookup_operation(&self.operations, operation)
    }

    fn bulk_service_metadata(&self, operations: &[String], language: &str) -> (r: D365Result<
        BulkMetadata,
    >)
    {
        Ok(bulk_lookup(&self.operations, operations, language))
    }

    fn call_service(&self, request: ServiceCallRequest, read_only_mode: bool) -> (r: D365Result<
        Json,
    >)
    {
        let meta = match find_op(&self.operations, request.operation.as_str()) {
            Some(i) => &self.operations[i],
            None => {
                return Err(D365Error::NotFound(request.operation.clone()));
            },
        };
        if read_only_mode && !meta.read_only {
            let mut msg = owned("operation '");
            msg.append(request.operation.as_str());
            msg.append("' modifies state; not callable in read-only mode");
            return Err(D365Error::PermissionDenied(msg));
        }
        let args: Vec<(String, Json)> = match &request.parameters {
            Json::Object(m) => match request.parameters.duplicate() {
                Json::Object(copy) => copy,
                _ => Vec::new(),
            },
            Json::Null => Vec::new(),
            other => {
                let mut reason = owned("expected object, got ");
                let shown = other.to_text();
                reason.append(shown.as_str());
                return Err(D365Error::InvalidParameter { name: owned("parameters"), reason });
            },
        };
        proof {
            if request.parameters@ is Null {
                assert(members_view(args@) =~= seq![]);
            }
        }
        if let Some(j) = first_missing_input(&meta.parameters, &args) {
            return Err(
                D365Error::InvalidParameter {
                    name: meta.parameters[j].name.clone(),
                    reason: owned("required input parameter missing"),
                },
            );
        }
        let outputs = mock_outputs(meta);
        let mut result: Vec<(String, Json)> = Vec::new();
        result.push((owned("executed_on"), Json::Str(owned("gt-dev"))));
        result.push((owned("inputs"), Json::Object(args)));
        result.push((owned("operation"), Json::Str(request.operation.clone())));
        result.push((owned("outputs"), outputs));
        let out = Json::Object(result);
        proof {
            lemma_members_view(result@);
            assert(members_view(result@) =~= seq![
                ("executed_on"@, JsonV::Str("gt-dev"@)),
                ("inputs"@, JsonV::Object(members_view(args@))),
                ("operation"@, JsonV::Str(request.operation@)),
                ("outputs"@, JsonV::Object(mock_outputs_spec(meta.parameters@))),
            ]);
        }
        Ok(out)
    }

    fn read_entity(&self, request: ReadEntityRequest) -> (r: D365Result<Vec<EntityRow>>)
    {
        if request.max_rows == 0 {
            return Err(
                D365Error::InvalidParameter {
                    name: owned("max_rows"),
                    reason: owned("must be >= 1"),
                },
            );
        }
        if request.max_rows > MAX_ROWS_HARD_CAP {
            return Err(
                D365Error::QueryResultOverflow {
                    entity: request.entity.clone(),
                    max_rows: request.max_rows,
                },
            );
        }
        match find_entity(&self.entities, request.entity.as_str()) {
            Some(i) => read_found(&self.entities[i], &self.legal_entity, &request),
            None => Err(D365Error::NotFound(request.entity.clone())),
        }
    }

    fn entity_structure(&self, entity: &str) -> (r: D365Result<EntityStructure>)
    {
        match find_entity(&self.entities, entity) {
            Some(i) => Ok(self.entities[i].structure.duplicate()),
            None => Err(D365Error::NotFound(owned(entity))),
        }
    }

    fn pool_status(&self) -> (s: PoolStatus)
        ensures
            s.cap == self.pool_cap(),
            s.available <= usize::MAX / 2,
    {
        PoolStatus { cap: self.pool.cap(), available: self.pool.available() }
    }
}

/// The result of a successful call with arguments `args`, or the refusal for a
/// missing required input.
pub open spec fn call_outcome(
    operation: Seq<char>,
    args: Seq<(Seq<char>, JsonV)>,
    meta: ServiceOperationMeta,
    r: D365Result<Json>,
) -> bool {
    match missing_input(meta.parameters@, args) {
        Some(j) => r matches Err(D365Error::InvalidParameter { name, reason }) && name@
            == meta.parameters@[j].name@ && reason@ == "required input parameter missing"@,
        None => r matches Ok(v) && v@ == call_result(operation, args, meta),
    }
}

/// What a read of an existing entity within the row cap gives: `NotFound` for an
/// unknown entity; the first unknown requested field; the first clause that does not
/// parse; otherwise the matching records, projected.
pub open spec fn read_entity_outcome(
    es: Seq<MockEntity>,
    legal: Seq<char>,
    request: ReadEntityRequest,
    r: D365Result<Vec<EntityRow>>,
) -> bool {
    match entity_index(es, request.entity@) {
        None => r matches Err(D365Error::NotFound(n)) && n@ == request.entity@,
        Some(i) => read_found_outcome(es[i], legal, request, r),
    }
}

/// What a read of the found entity `e` gives: the first unknown requested field;
/// the first clause that does not parse; otherwise the matching records, projected.
pub open spec fn read_found_outcome(
    e: MockEntity,
    legal: Seq<char>,
    request: ReadEntityRequest,
    r: D365Result<Vec<EntityRow>>,
) -> bool {
    let fields = strings_view(request.fields@);
    match unknown_field(e.structure, fields) {
        Some(j) => r matches Err(D365Error::InvalidParameter { name, reason }) && name@
            == "fields"@ && reason@ == "unknown field '"@ + fields[j] + "'"@,
        None => filtered_outcome(e, legal, request.filters@, fields, request.max_rows, r),
    }
}

/// What a read of `e` with known fields gives: the first clause that does not
/// parse, or the matching records, projected.
pub open spec fn filtered_outcome(
    e: MockEntity,
    legal: Seq<char>,
    raw: Seq<String>,
    fields: Seq<Seq<char>>,
    max_rows: usize,
    r: D365Result<Vec<EntityRow>>,
) -> bool {
    if exists|j: int| 0 <= j < raw.len() && clause_spec(raw[j]@) is None {
        exists|j: int|
            0 <= j < raw.len() && clause_spec(raw[j]@) is None && (forall|k: int|
                0 <= k < j ==> clause_spec(#[trigger] raw[k]@) is Some) && (r matches Err(
                D365Error::InvalidParameter { name, reason },
            ) && name@ == "filters"@ && reason@ == unsupported_reason(raw[j]@))
    } else {
        r matches Ok(out) && read_result(
            e.structure,
            rows_view(e.rows@),
            Seq::new(raw.len(), |j: int| clause_spec(raw[j]@).unwrap()),
            legal,
            fields,
            max_rows,
            entity_rows_view(out@),
        )
    }
}

fn read_found(e: &MockEntity, legal: &String, request: &ReadEntityRequest) -> (r: D365Result<
    Vec<EntityRow>,
>)
    requires
        request.max_rows >= 1,
    ensures
        read_found_outcome(*e, legal@, *request, r),
{
    match projection(&e.structure, &request.fields) {
        Ok(proj) => read_filtered(e, legal, &proj, &request.filters, request.max_rows, Ghost(strings_view(request.fields@))),
        Err(f) => {
            let mut reason = owned("unknown field '");
            reason.append(request.fields[f].as_str());
            reason.append("'");
            proof {
                assert(request.fields@[f as int]@ == strings_view(request.fields@)[f as int]);
                assert(reason@ == "unknown field '"@ + strings_view(request.fields@)[f as int]
                    + "'"@);
                assert(unknown_field(e.structure, strings_view(request.fields@)) == Some(
                    f as int,
                ));
            }
            Err(D365Error::InvalidParameter { name: owned("fields"), reason })
        },
    }
}

fn read_filtered(
    e: &MockEntity,
    legal: &String,
    proj: &Vec<Vec<char>>,
    filters: &Vec<String>,
    max_rows: usize,
    Ghost(fields): Ghost<Seq<Seq<char>>>,
) -> (r: D365Result<Vec<EntityRow>>)
    requires
        max_rows >= 1,
        unknown_field(e.structure, fields) is None,
        vecs_view(proj@) == projection_of(e.structure, fields),
    ensures
        filtered_outcome(*e, legal@, filters@, fields, max_rows, r),
{
    let mut conds = match parse_conditions(filters.as_slice()) {
        Ok(c) => c,
        Err(err) => {
            return Err(err);
        },
    };
    let ghost parsed = conditions_view(conds@);
    proof {
        assert forall|j: int| 0 <= j < filters@.len() implies clause_spec(
            #[trigger] filters@[j]@,
        ) == Some(parsed[j]) by {
            assert(clause_spec(filters@[j]@) == Some(conditions_view(conds@)[j]));
        }
        assert(parsed =~= Seq::new(filters@.len(), |j: int| clause_spec(filters@[j]@).unwrap()));
    }
    if e.structure.company_scoped && !names_company(&conds) {
        let ghost before = conds@;
        conds.push(
            Condition { field: owned(COMPANY_FIELD), op: CondOp::Eq, value: legal.clone() },
        );
        proof {
            assert(conditions_view(conds@) =~= conditions_view(before).push(
                ConditionView { field: "dataAreaId"@, op: CondOp::Eq, value: legal@ },
            ));
        }
    }
    proof {
        assert(conditions_view(conds@) == effective_conditions(
            parsed,
            e.structure.company_scoped,
            legal@,
        ));
    }
    Ok(select_rows(&e.rows, &conds, proj, max_rows))
}

fn names_company(conds: &Vec<Condition>) -> (b: bool)
    ensures
        b == exists|j: int|
            0 <= j < conds@.len() && eq_ignore_case(conditions_view(conds@)[j].field, "dataAreaId"@),
{
    let mut j: usize = 0;
    while j < conds.len()
        invariant
            j <= conds.len(),
            forall|k: int|
                0 <= k < j ==> !eq_ignore_case(conditions_view(conds@)[k].field, "dataAreaId"@),
        decreases conds.len() - j,
    {
        proof {
            assert(conditions_view(conds@)[j as int] == conds@[j as int]@);
        }
        if str_eq_ignore_case(conds[j].field.as_str(), COMPANY_FIELD) {
            return true;
        }
        j = j + 1;
    }
    false
}

/// The fields to return, or the position of the first requested field the entity
/// does not have.
fn projection(st: &EntityStructure, fields: &Vec<String>) -> (r: Result<Vec<Vec<char>>, usize>)
    ensures
        match unknown_field(*st, strings_view(fields@)) {
            Some(j) => r matches Err(f) && f as int == j && j < fields@.len(),
            None => r matches Ok(p) && vecs_view(p@) == projection_of(*st, strings_view(fields@)),
        },
{
    let ghost fv = strings_view(fields@);
    let mut out: Vec<Vec<char>> = Vec::new();
    if fields.len() == 0 {
        let mut i: usize = 0;
        while i < st.fields.len()
            invariant
                i <= st.fields.len(),
                vecs_view(out@) == st.fields@.take(i as int).map_values(
                    |f: crate::odata::client::EntityField| f.name@,
                ),
            decreases st.fields.len() - i,
        {
            let ghost before = out@;
            out.push(chars_of(st.fields[i].name.as_str()));
            proof {
                assert(vecs_view(out@) =~= vecs_view(before).push(st.fields@[i as int].name@));
                assert(st.fields@.take(i as int + 1).map_values(
                    |f: crate::odata::client::EntityField| f.name@,
                ) =~= st.fields@.take(i as int).map_values(
                    |f: crate::odata::client::EntityField| f.name@,
                ).push(st.fields@[i as int].name@));
            }
            i = i + 1;
        }
        proof {
            assert(st.fields@.take(st.fields@.len() as int) =~= st.fields@);
            assert(!exists|j: int| 0 <= j < fv.len() && !names_field(*st, fv[j]));
        }
        return Ok(out);
    }
    let mut j: usize = 0;
    while j < fields.len()
        invariant
            j <= fields.len(),
            fv == strings_view(fields@),
            vecs_view(out@) == fv.take(j as int),
            forall|k: int| 0 <= k < j ==> names_field(*st, fv[k]),
        decreases fields.len() - j,
    {
        let f = chars_of(fields[j].as_str());
        proof {
            assert(fv[j as int] == f@);
        }
        let mut t: usize = 0;
        let mut known = false;
        while t < st.fields.len()
            invariant
                t <= st.fields.len(),
                !known ==> forall|q: int| 0 <= q < t ==> !eq_ignore_case(st.fields@[q].name@, f@),
                known ==> names_field(*st, f@),
            decreases st.fields.len() - t,
        {
            let n = chars_of(st.fields[t].name.as_str());
            if chars_eq_ignore_case(n.as_slice(), f.as_slice()) {
                known = true;
            }
            t = t + 1;
        }
        if !known {
            proof {
                let c = choose|q: int|
                    0 <= q < fv.len() && !names_field(*st, fv[q]) && forall|k: int|
                        0 <= k < q ==> names_field(*st, fv[k]);
                assert(!names_field(*st, fv[j as int]));
                assert(c == j) by {
                    if c > j {
                        assert(!names_field(*st, fv[j as int]));
                    }
                }
            }
            return Err(j);
        }
        let ghost before = out@;
        out.push(f);
        proof {
            assert(vecs_view(out@) =~= vecs_view(before).push(fv[j as int]));
            assert(fv.take(j as int + 1) =~= fv.take(j as int).push(fv[j as int]));
        }
        j = j + 1;
    }
    proof {
        assert(fv.take(fields@.len() as int) =~= fv);
        assert(!exists|q: int| 0 <= q < fv.len() && !names_field(*st, fv[q]));
    }
    Ok(out)
}

fn select_rows(
    rows: &Vec<Vec<(String, Json)>>,
    conds: &Vec<Condition>,
    proj: &Vec<Vec<char>>,
    max_rows: usize,
) -> (out: Vec<EntityRow>)
    requires
        max_rows >= 1,
    ensures
        ({
            let m = matching_rows(rows_view(rows@), conditions_view(conds@));
            let n: nat = if m.len() < max_rows {
                m.len()
            } else {
                max_rows as nat
            };
            &&& entity_rows_view(out@).len() == n
            &&& forall|k: int|
                0 <= k < n ==> #[trigger] entity_rows_view(out@)[k] == project(
                    m[k],
                    vecs_view(proj@),
                )
        }),
{
    let ghost rv = rows_view(rows@);
    let ghost cv = conditions_view(conds@);
    let mut out: Vec<EntityRow> = Vec::new();
    let mut i: usize = 0;
    while i < rows.len()
        invariant
            i <= rows.len(),
            rv == rows_view(rows@),
            cv == conditions_view(conds@),
            max_rows >= 1,
            out@.len() == matching_rows(rv.take(i as int), cv).len(),
            out@.len() < max_rows,
            forall|k: int|
                0 <= k < out@.len() ==> #[trigger] entity_rows_view(out@)[k] == project(
                    matching_rows(rv.take(i as int), cv)[k],
                    vecs_view(proj@),
                ),
        decreases rows.len() - i,
    {
        proof {
            lemma_matching_push(rv, cv, i as int);
            assert(rv[i as int] == members_view(rows@[i as int]@));
        }
        if row_passes(&rows[i], conds) {
            let projected = project_row(&rows[i], proj);
            let ghost before = out@;
            out.push(EntityRow { values: projected });
            proof {
                assert forall|k: int| 0 <= k < out@.len() implies #[trigger] entity_rows_view(
                    out@,
                )[k] == project(matching_rows(rv.take(i as int + 1), cv)[k], vecs_view(proj@)) by {
                    if k < before.len() {
                        assert(out@[k] == before[k]);
                        assert(entity_rows_view(before)[k] == entity_rows_view(out@)[k]);
                    }
                }
            }
            if out.len() >= max_rows {
                proof {
                    lemma_matching_prefix(rv, cv, i as int + 1);
                }
                return out;
            }
        } else {
            proof {
                assert forall|k: int| 0 <= k < out@.len() implies #[trigger] entity_rows_view(
                    out@,
                )[k] == project(matching_rows(rv.take(i as int + 1), cv)[k], vecs_view(proj@)) by {
                }
            }
        }
        i = i + 1;
    }
    proof {
        assert(rv.take(rows@.len() as int) =~= rv);
    }
    out
}

} // verus!
