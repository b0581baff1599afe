//! The `$filter` mini-language of entity reads: `Field eq 'value'`,
//! `Field like 'pattern'` and `FIELD = 'value'` clauses, and how a clause is
//! matched against a record.

use vstd::prelude::*;
use crate::json::{Json, JsonV, render, members_view, lemma_members_view, json_view};
use crate::text::{
    trim, chars_of, trimmed_chars, string_of, eq_ignore_case, occurs_at_ignore_case,
    find_chars_ignore_case, chars_eq_ignore_case, unicode_lowercase, to_lowercase, contains_seq,
    has_prefix, find_chars, first_occurrence, occurs_at, unicode_whitespace, is_whitespace,
};
use crate::json::owned;
use crate::odata::error::{D365Error, D365Result};

verus! {

/// The comparison of a filter clause.
#[derive(Debug, Clone, Copy, PartialEq, Eq, Structural)]
pub enum CondOp {
    /// Case-insensitive equality (`eq` / `=`).
    Eq,
    /// SQL-style `like` pattern.
    Like,
}

/// One parsed filter clause.
#[derive(Debug)]
pub struct Condition {
    pub field: String,
    pub op: CondOp,
    pub value: String,
}

/// The plain content of a filter clause.
pub struct ConditionView {
    pub field: Seq<char>,
    pub op: CondOp,
    pub value: Seq<char>,
}

impl View for Condition {
    type V = ConditionView;

    open spec fn view(&self) -> ConditionView {
        ConditionView { field: self.field@, op: self.op, value: self.value@ }
    }
}

pub open spec fn conditions_view(v: Seq<Condition>) -> Seq<ConditionView> {
    v.map_values(|c: Condition| c@)
}

// ---------------------------------------------------------------------------
// Clause syntax
// ---------------------------------------------------------------------------

/// `s.trim_start_matches('\'')`.
pub open spec fn trim_start_quotes(s: Seq<char>) -> Seq<char>
    decreases s.len(),
{
    if s.len() > 0 && s[0] == '\'' {
        trim_start_quotes(s.drop_first())
    } else {
        s
    }
}

/// `s.trim_end_matches('\'')`.
pub open spec fn trim_end_quotes(s: Seq<char>) -> Seq<char>
    decreases s.len(),
{
    if s.len() > 0 && s.last() == '\'' {
        trim_end_quotes(s.drop_last())
    } else {
        s
    }
}

/// A clause value: surrounding whitespace removed, then surrounding quotes removed.
pub open spec fn strip_val_spec(s: Seq<char>) -> Seq<char> {
    trim_end_quotes(trim_start_quotes(trim(s)))
}

/// Position of the first place `p` occurs in `h`, ignoring ASCII case.
pub open spec fn first_ci(h: Seq<char>, p: Seq<char>) -> Option<int> {
    if exists|i: int| occurs_at_ignore_case(h, p, i) {
        Some(
            choose|i: int|
                occurs_at_ignore_case(h, p, i) && forall|j: int|
                    0 <= j < i ==> !occurs_at_ignore_case(h, p, j),
        )
    } else {
        None
    }
}

/// The clause a filter string denotes, or `None` when it is none of the three forms.
/// The keyword is looked for first as ` like `, then as ` eq `, then as `=`, each
/// time at its first occurrence (keywords match in any letter case).
pub open spec fn clause_spec(s: Seq<char>) -> Option<ConditionView> {
    let t = trim(s);
    match first_ci(t, " LIKE "@) {
        Some(i) => Some(
            ConditionView {
                field: trim(t.take(i)),
                op: CondOp::Like,
                value: strip_val_spec(t.skip(i + 6)),
            },
        ),
        None => match first_ci(t, " EQ "@) {
            Some(i) => Some(
                ConditionView {
                    field: trim(t.take(i)),
                    op: CondOp::Eq,
                    value: strip_val_spec(t.skip(i + 4)),
                },
            ),
            None => match first_occurrence(t, seq!['=']) {
                Some(i) => Some(
                    ConditionView {
                        field: trim(t.take(i)),
                        op: CondOp::Eq,
                        value: strip_val_spec(t.skip(i + 1)),
                    },
                ),
                None => None,
            },
        },
    }
}

/// The reason given for a clause that is not understood.
pub open spec fn unsupported_reason(s: Seq<char>) -> Seq<char> {
    "unsupported clause '"@ + s
        + "' (expected Field eq 'value' or Field like 'pattern')"@
}

pub proof fn lemma_first_ci(h: Seq<char>, p: Seq<char>, i: int)
    requires
        occurs_at_ignore_case(h, p, i),
        forall|j: int| 0 <= j < i ==> !occurs_at_ignore_case(h, p, j),
    ensures
        first_ci(h, p) == Some(i),
{
    let c = choose|k: int|
        occurs_at_ignore_case(h, p, k) && forall|j: int|
            0 <= j < k ==> !occurs_at_ignore_case(h, p, j);
    assert(occurs_at_ignore_case(h, p, c));
    assert(c == i) by {
        if c < i {
            assert(!occurs_at_ignore_case(h, p, c));
        } else if c > i {
            assert(!occurs_at_ignore_case(h, p, i));
        }
    }
}

pub fn trim_chars(v: &[char]) -> (r: Vec<char>)
    ensures
        r@ == trim(v@),
{
    let s = string_of(v);
    trimmed_chars(s.as_str())
}

proof fn lemma_trim_start_quotes(s: Seq<char>, i: int)
    requires
        0 <= i <= s.len(),
        forall|j: int| 0 <= j < i ==> s[j] == '\'',
        i < s.len() ==> s[i] != '\'',
    ensures
        trim_start_quotes(s) == s.skip(i),
    decreases i,
{
    if i == 0 {
        assert(s.skip(0) =~= s);
    } else {
        assert forall|j: int| 0 <= j < i - 1 implies s.drop_first()[j] == '\'' by {
            assert(s.drop_first()[j] == s[j + 1]);
        }
        lemma_trim_start_quotes(s.drop_first(), i - 1);
        assert(s.drop_first().skip(i - 1) =~= s.skip(i));
    }
}

proof fn lemma_trim_end_quotes(s: Seq<char>, k: int)
    requires
        0 <= k <= s.len(),
        forall|j: int| k <= j < s.len() ==> s[j] == '\'',
        k > 0 ==> s[k - 1] != '\'',
    ensures
        trim_end_quotes(s) == s.take(k),
    decreases s.len() - k,
{
    if k == s.len() {
        assert(s.take(k) =~= s);
    } else {
        assert forall|j: int| k <= j < s.drop_last().len() implies s.drop_last()[j] == '\'' by {
            assert(s.drop_last()[j] == s[j]);
        }
        lemma_trim_end_quotes(s.drop_last(), k);
        assert(s.drop_last().take(k) =~= s.take(k));
    }
}

/// `s.trim().trim_matches('\'')`.
pub fn strip_val(v: &[char]) -> (r: Vec<char>)
    ensures
        r@ == strip_val_spec(v@),
{
    let t = trim_chars(v);
    let mut a: usize = 0;
    while a < t.len() && t[a] == '\''
        invariant
            a <= t.len(),
            forall|j: int| 0 <= j < a ==> t@[j] == '\'',
        decreases t.len() - a,
    {
        a = a + 1;
    }
    proof {
        lemma_trim_start_quotes(t@, a as int);
    }
    let mut b: usize = t.len();
    while b > a && t[b - 1] == '\''
        invariant
            a <= b <= t.len(),
            forall|j: int| b <= j < t.len() ==> t@[j] == '\'',
        decreases b - a,
    {
        b = b - 1;
    }
    let ghost u = t@.skip(a as int);
    proof {
        assert forall|j: int| b - a <= j < u.len() implies u[j] == '\'' by {
            assert(u[j] == t@[j + a]);
        }
        if b > a {
            assert(u[b - a - 1] == t@[b - 1]);
        }
        lemma_trim_end_quotes(u, b - a);
    }
    let r = slice_chars(&t, a, b);
    proof {
        assert(r@ =~= u.take(b - a));
    }
    r
}

/// The characters `v[a..b]`.
pub fn slice_chars(v: &Vec<char>, a: usize, b: usize) -> (r: Vec<char>)
    requires
        a <= b <= v.len(),
    ensures
        r@ == v@.subrange(a as int, b as int),
{
    let mut r: Vec<char> = Vec::new();
    let mut i: usize = a;
    while i < b
        invariant
            a <= i <= b <= v.len(),
            r@ == v@.subrange(a as int, i as int),
        decreases b - i,
    {
        r.push(v[i]);
        proof {
            assert(v@.subrange(a as int, i as int + 1) =~= v@.subrange(a as int, i as int).push(
                v@[i as int],
            ));
        }
        i = i + 1;
    }
    r
}

fn make_condition(t: &Vec<char>, i: usize, width: usize, op: CondOp) -> (c: Condition)
    requires
        i + width <= t.len(),
    ensures
        c@ == (ConditionView {
            field: trim(t@.take(i as int)),
            op,
            value: strip_val_spec(t@.skip(i + width)),
        }),
{
    let head = slice_chars(t, 0, i);
    let tail = slice_chars(t, i + width, t.len());
    let field = trim_chars(head.as_slice());
    let value = strip_val(tail.as_slice());
    proof {
        assert(head@ =~= t@.take(i as int));
        assert(tail@ =~= t@.skip(i + width));
    }
    Condition { field: string_of(field.as_slice()), op, value: string_of(value.as_slice()) }
}

/// Parse one clause.
pub fn parse_clause(s: &str) -> (r: Option<Condition>)
    ensures
        r.is_some() == clause_spec(s@).is_some(),
        r.is_some() ==> r.unwrap()@ == clause_spec(s@).unwrap(),
{
    let t = trimmed_chars(s);
    let like = chars_of(" LIKE ");
    let eq = chars_of(" EQ ");
    let assign = chars_of("=");
    proof {
        reveal_strlit(" LIKE ");
        reveal_strlit(" EQ ");
        reveal_strlit("=");
        assert(assign@ =~= seq!['=']);
    }
    match find_chars_ignore_case(t.as_slice(), like.as_slice()) {
        Some(i) => {
            proof {
                lemma_first_ci(t@, like@, i as int);
            }
            Some(make_condition(&t, i, 6, CondOp::Like))
        },
        None => {
            proof {
                assert(!exists|i: int| occurs_at_ignore_case(t@, " LIKE "@, i));
            }
            match find_chars_ignore_case(t.as_slice(), eq.as_slice()) {
                Some(i) => {
                    proof {
                        lemma_first_ci(t@, eq@, i as int);
                    }
                    Some(make_condition(&t, i, 4, CondOp::Eq))
                },
                None => {
                    proof {
                        assert(!exists|i: int| occurs_at_ignore_case(t@, " EQ "@, i));
                    }
                    match find_chars(t.as_slice(), assign.as_slice()) {
                        Some(i) => Some(make_condition(&t, i, 1, CondOp::Eq)),
                        None => None,
                    }
                },
            }
        },
    }
}

/// Parse every clause; the first clause that is none of the three forms is refused.
pub fn parse_conditions(raw: &[String]) -> (r: D365Result<Vec<Condition>>)
    ensures
        r matches Ok(cs) ==> conditions_view(cs@).len() == raw@.len() && forall|j: int|
            0 <= j < raw@.len() ==> clause_spec(raw@[j]@) == Some(
                #[trigger] conditions_view(cs@)[j],
            ),
        r is Err ==> exists|j: int|
            0 <= j < raw@.len() && clause_spec(raw@[j]@) is None && (forall|k: int|
                0 <= k < j ==> clause_spec(#[trigger] raw@[k]@) is Some) && (r matches Err(
                D365Error::InvalidParameter { name, reason },
            ) && name@ == "filters"@ && reason@ == unsupported_reason(raw@[j]@)),
{
    let mut out: Vec<Condition> = Vec::new();
    let mut i: usize = 0;
    while i < raw.len()
        invariant
            i <= raw.len(),
            out@.len() == i,
            forall|j: int|
                0 <= j < i ==> clause_spec(raw@[j]@) == Some(#[trigger] conditions_view(out@)[j]),
        decreases raw.len() - i,
    {
        match parse_clause(raw[i].as_str()) {
            Some(c) => {
                let ghost before = out@;
                out.push(c);
                proof {
                    assert forall|j: int| 0 <= j < i + 1 implies clause_spec(raw@[j]@) == Some(
                        #[trigger] conditions_view(out@)[j],
                    ) by {
                        assert(conditions_view(out@)[j] == out@[j]@);
                        if j < i {
                            assert(out@[j] == before[j]);
                            assert(conditions_view(before)[j] == before[j]@);
                        }
                    }
                }
            },
            None => {
                let mut reason = owned("unsupported clause '");
                reason.append(raw[i].as_str());
                reason.append("' (expected Field eq 'value' or Field like 'pattern')");
                let e = D365Error::InvalidParameter { name: owned("filters"), reason };
                proof {
                    assert forall|k: int| 0 <= k < i implies clause_spec(#[trigger] raw@[k]@) is Some by {
                        assert(clause_spec(raw@[k]@) == Some(conditions_view(out@)[k]));
                    }
                }
                return Err(e);
            },
        }
        i = i + 1;
    }
    Ok(out)
}

// ---------------------------------------------------------------------------
// Matching a record
// ---------------------------------------------------------------------------

/// Position of the first member whose name equals `field` ignoring ASCII case.
pub open spec fn key_index_ci(m: Seq<(Seq<char>, JsonV)>, field: Seq<char>) -> Option<int> {
    if exists|j: int| 0 <= j < m.len() && eq_ignore_case(m[j].0, field) {
        Some(
            choose|j: int|
                0 <= j < m.len() && eq_ignore_case(m[j].0, field) && forall|k: int|
                    0 <= k < j ==> !eq_ignore_case(m[k].0, field),
        )
    } else {
        None
    }
}

/// The text a record holds under `field` (ASCII case-insensitive name): a string
/// value gives its text, any other value its compact JSON text; an absent field
/// gives the empty text.
pub open spec fn field_text(row: Seq<(Seq<char>, JsonV)>, field: Seq<char>) -> Seq<char> {
    match key_index_ci(row, field) {
        Some(j) => match row[j].1 {
            JsonV::Str(s) => s,
            other => render(other),
        },
        None => seq![],
    }
}

/// `s` with every occurrence of `c` removed.
pub open spec fn remove_char(s: Seq<char>, c: char) -> Seq<char> {
    s.filter(|x: char| x != c)
}

/// SQL-style `like`, compared after Unicode lower-casing both sides: a pattern
/// without `%` or `_` must equal the text; otherwise `_` marks are dropped, and a
/// leading `%` means "contains" (a trailing `%` after it is dropped too), a trailing
/// `%` means "starts with", and no `%` means equality.
pub open spec fn like_spec(hay: Seq<char>, pat: Seq<char>) -> bool {
    let h = unicode_lowercase(hay);
    let p = unicode_lowercase(pat);
    if !p.contains('%') && !p.contains('_') {
        h == p
    } else {
        let st = remove_char(p, '_');
        if st.len() > 0 && st[0] == '%' {
            let rest = st.drop_first();
            let rest = if rest.len() > 0 && rest.last() == '%' {
                rest.drop_last()
            } else {
                rest
            };
            contains_seq(h, rest)
        } else if st.len() > 0 && st.last() == '%' {
            has_prefix(h, st.drop_last())
        } else {
            h == st
        }
    }
}

/// How `like` compares a text with a pattern, both lower-cased, where `st` is the
/// pattern with its `_` marks dropped:
/// - a pattern with no `%` and no `_` matches only the equal text;
/// - `%x%` (and `%x`) matches a text containing `x`;
/// - `x%` with no leading `%` matches a text starting with `x`;
/// - otherwise the text must equal `st`.
pub proof fn law_like_wildcards(hay: Seq<char>, pat: Seq<char>)
    ensures
        ({
            let h = unicode_lowercase(hay);
            let p = unicode_lowercase(pat);
            let st = remove_char(p, '_');
            &&& !p.contains('%') && !p.contains('_') ==> (like_spec(hay, pat) <==> h == p)
            &&& (p.contains('%') || p.contains('_')) && st.len() >= 2 && st[0] == '%' && st.last()
                == '%' ==> (like_spec(hay, pat) <==> contains_seq(h, st.subrange(1, st.len() - 1)))
            &&& (p.contains('%') || p.contains('_')) && st.len() >= 1 && st[0] == '%' && st.last()
                != '%' ==> (like_spec(hay, pat) <==> contains_seq(h, st.subrange(1, st.len() as int)))
            &&& (p.contains('%') || p.contains('_')) && st.len() >= 1 && st[0] != '%' && st.last()
                == '%' ==> (like_spec(hay, pat) <==> st.len() - 1 <= h.len() && h.take(
                st.len() - 1,
            ) == st.take(st.len() - 1))
            &&& (p.contains('%') || p.contains('_')) && !(st.len() >= 1 && (st[0] == '%'
                || st.last() == '%')) ==> (like_spec(hay, pat) <==> h == st)
        }),
{
    let h = unicode_lowercase(hay);
    let p = unicode_lowercase(pat);
    let st = remove_char(p, '_');
    if st.len() >= 2 && st[0] == '%' && st.last() == '%' {
        let rest = st.drop_first();
        assert(rest.drop_last() =~= st.subrange(1, st.len() - 1));
        assert(rest.last() == st.last());
    }
    if st.len() >= 1 && st[0] == '%' && st.last() != '%' {
        let rest = st.drop_first();
        assert(rest =~= st.subrange(1, st.len() as int));
        if rest.len() > 0 {
            assert(rest.last() == st.last());
        }
    }
    if st.len() >= 1 && st[0] != '%' && st.last() == '%' {
        assert(st.drop_last() =~= st.take(st.len() - 1));
    }
}

/// Whether a record satisfies a clause.
pub open spec fn row_matches(row: Seq<(Seq<char>, JsonV)>, c: ConditionView) -> bool {
    let actual = field_text(row, c.field);
    match c.op {
        CondOp::Eq => eq_ignore_case(actual, c.value),
        CondOp::Like => like_spec(actual, c.value),
    }
}

/// Position of the first member named `field`, ignoring ASCII case.
pub fn find_key_ci(m: &Vec<(String, Json)>, field: &[char]) -> (r: Option<usize>)
    ensures
        r.is_some() == key_index_ci(members_view(m@), field@).is_some(),
        r.is_some() ==> r.unwrap() < m@.len() && key_index_ci(members_view(m@), field@) == Some(
            r.unwrap() as int,
        ),
{
    proof {
        lemma_members_view(m@);
    }
    let ghost mv = members_view(m@);
    let mut i: usize = 0;
    while i < m.len()
        invariant
            i <= m.len(),
            mv == members_view(m@),
            mv.len() == m@.len(),
            forall|j: int| 0 <= j < m.len() ==> #[trigger] mv[j] == (m@[j].0@, json_view(m@[j].1)),
            forall|j: int| 0 <= j < i ==> !eq_ignore_case(mv[j].0, field@),
        decreases m.len() - i,
    {
        let k = chars_of(m[i].0.as_str());
        if chars_eq_ignore_case(k.as_slice(), field) {
            proof {
                assert(mv[i as int].0 == k@);
                lemma_key_index_ci(mv, field@, i as int);
            }
            return Some(i);
        }
        proof {
            assert(mv[i as int].0 == k@);
        }
        i = i + 1;
    }
    None
}

proof fn lemma_key_index_ci(m: Seq<(Seq<char>, JsonV)>, field: Seq<char>, i: int)
    requires
        0 <= i < m.len(),
        eq_ignore_case(m[i].0, field),
        forall|j: int| 0 <= j < i ==> !eq_ignore_case(m[j].0, field),
    ensures
        key_index_ci(m, field) == Some(i),
{
    let c = choose|j: int|
        0 <= j < m.len() && eq_ignore_case(m[j].0, field) && forall|k: int|
            0 <= k < j ==> !eq_ignore_case(m[k].0, field);
    assert(c == i) by {
        if c > i {
            assert(eq_ignore_case(m[i].0, field));
        }
    }
}

/// The text a record holds under `field`.
pub fn field_value_text(row: &Vec<(String, Json)>, field: &[char]) -> (r: String)
    ensures
        r@ == field_text(members_view(row@), field@),
{
    proof {
        lemma_members_view(row@);
    }
    match find_key_ci(row, field) {
        Some(j) => match &row[j].1 {
            Json::Str(s) => s.clone(),
            other => other.to_text(),
        },
        None => String::new(),
    }
}

fn remove_underscores(p: &Vec<char>) -> (r: Vec<char>)
    ensures
        r@ == remove_char(p@, '_'),
{
    let mut r: Vec<char> = Vec::new();
    let mut i: usize = 0;
    while i < p.len()
        invariant
            i <= p.len(),
            r@ == remove_char(p@.take(i as int), '_'),
        decreases p.len() - i,
    {
        proof {
            assert(p@.take(i as int + 1).drop_last() =~= p@.take(i as int));
            reveal(Seq::filter);
        }
        if p[i] != '_' {
            r.push(p[i]);
        }
        i = i + 1;
    }
    proof {
        assert(p@.take(p@.len() as int) =~= p@);
    }
    r
}

fn has_char(v: &Vec<char>, c: char) -> (b: bool)
    ensures
        b == v@.contains(c),
{
    let mut i: usize = 0;
    while i < v.len()
        invariant
            i <= v.len(),
            forall|j: int| 0 <= j < i ==> v@[j] != c,
        decreases v.len() - i,
    {
        if v[i] == c {
            return true;
        }
        i = i + 1;
    }
    false
}

/// SQL-style `like` matching.
pub fn sql_like(haystack: &str, pattern: &str) -> (b: bool)
    ensures
        b == like_spec(haystack@, pattern@),
{
    let hs = to_lowercase(haystack);
    let ps = to_lowercase(pattern);
    let h = chars_of(hs.as_str());
    let p = chars_of(ps.as_str());
    if !has_char(&p, '%') && !has_char(&p, '_') {
        return crate::text::chars_eq(h.as_slice(), p.as_slice());
    }
    let st = remove_underscores(&p);
    if st.len() > 0 && st[0] == '%' {
        let end = if st.len() > 1 && st[st.len() - 1] == '%' {
            st.len() - 1
        } else {
            st.len()
        };
        let rest = slice_chars(&st, 1, end);
        proof {
            let r0 = st@.drop_first();
            if r0.len() > 0 && r0.last() == '%' {
                assert(rest@ =~= r0.drop_last());
            } else {
                assert(rest@ =~= r0);
            }
        }
        find_chars(h.as_slice(), rest.as_slice()).is_some()
    } else if st.len() > 0 && st[st.len() - 1] == '%' {
        let prefix = slice_chars(&st, 0, st.len() - 1);
        proof {
            assert(prefix@ =~= st@.drop_last());
        }
        if prefix.len() > h.len() {
            return false;
        }
        let head = slice_chars(&h, 0, prefix.len());
        proof {
            assert(head@ =~= h@.take(prefix@.len() as int));
        }
        crate::text::chars_eq(head.as_slice(), prefix.as_slice())
    } else {
        crate::text::chars_eq(h.as_slice(), st.as_slice())
    }
}

/// Whether a record satisfies a clause.
pub fn match_row(row: &Vec<(String, Json)>, c: &Condition) -> (b: bool)
    ensures
        b == row_matches(members_view(row@), c@),
{
    let f = chars_of(c.field.as_str());
    let actual = field_value_text(row, f.as_slice());
    match c.op {
        CondOp::Eq => crate::text::str_eq_ignore_case(actual.as_str(), c.value.as_str()),
        CondOp::Like => sql_like(actual.as_str(), c.value.as_str()),
    }
}

} // verus!
