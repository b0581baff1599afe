//! Infolog / OData operation-status parser.
//!
//! A Dynamics 365 response reports the business outcome of an operation either as
//! an OData error payload (`{ "error": { "code", "message" } }`) or as the Infolog,
//! the list of `Error` / `Warning` / `Info` messages the X++ runtime accumulates.
//! This module turns either shape into a typed list.

use vstd::prelude::*;
use crate::json::{
    Json, JsonV, member, key_index, find_member, render, str_of, members_view, items_view,
    lemma_members_view, lemma_items_view,
};
use crate::text::{
    trim, ascii_lower_seq, trimmed_chars, lower_ascii_chars, chars_eq_str,
};

verus! {

#[derive(Debug, Clone, Copy, PartialEq, Eq, Structural)]
pub enum InfologSeverity {
    /// Operation reported success.
    Success,
    /// `Error`: the operation did NOT complete its work.
    Error,
    Warning,
    Info,
    /// Anything else (forward compatibility with future extensions).
    Unknown(char),
}

/// The severity a severity string denotes: the trimmed text, ASCII lower-cased, is
/// compared with the known words and one-letter codes; anything else is `Unknown`
/// carrying the first trimmed character (a space when the trimmed text is empty).
pub open spec fn severity_of(s: Seq<char>) -> InfologSeverity {
    let t = trim(s);
    let l = ascii_lower_seq(t);
    if l == "success"@ || l == "s"@ {
        InfologSeverity::Success
    } else if l == "error"@ || l == "e"@ {
        InfologSeverity::Error
    } else if l == "warning"@ || l == "warn"@ || l == "w"@ {
        InfologSeverity::Warning
    } else if l == "info"@ || l == "information"@ || l == "i"@ {
        InfologSeverity::Info
    } else {
        InfologSeverity::Unknown(if t.len() > 0 { t[0] } else { ' ' })
    }
}

/// Severities that mean the operation failed: `Error` and every unrecognised one.
pub open spec fn severity_fails(s: InfologSeverity) -> bool {
    s is Error || s is Unknown
}

impl InfologSeverity {
    /// Parse an Infolog severity string (`"Error"`, `"Warning"`, `"Info"`) or a
    /// single severity letter (`E` / `W` / `I` / `S`).
    pub fn parse(s: &str) -> (r: Self)
        ensures
            r == severity_of(s@),
    {
        let t = trimmed_chars(s);
        let l = lower_ascii_chars(t.as_slice());
        let l = l.as_slice();
        if chars_eq_str(l, "success") || chars_eq_str(l, "s") {
            InfologSeverity::Success
        } else if chars_eq_str(l, "error") || chars_eq_str(l, "e") {
            InfologSeverity::Error
        } else if chars_eq_str(l, "warning") || chars_eq_str(l, "warn") || chars_eq_str(l, "w") {
            InfologSeverity::Warning
        } else if chars_eq_str(l, "info") || chars_eq_str(l, "information") || chars_eq_str(
            l,
            "i",
        ) {
            InfologSeverity::Info
        } else {
            InfologSeverity::Unknown(
                if t.len() > 0 {
                    t[0]
                } else {
                    ' '
                },
            )
        }
    }

    /// Whether this severity means the operation failed (so a `$batch` change set
    /// must NOT be treated as committed).  Unknown severities count as failures.
    pub fn is_failure(self) -> (b: bool)
        ensures
            b == severity_fails(self),
    {
        match self {
            InfologSeverity::Error | InfologSeverity::Unknown(_) => true,
            _ => false,
        }
    }
}

#[derive(Debug, Clone)]
pub struct InfologMessage {
    pub severity: InfologSeverity,
    /// OData error code or X++ exception code.
    pub code: String,
    pub text: String,
    /// Offending field / OData property, if the message names one.
    pub field: Option<String>,
    /// Originating environment, if reported.
    pub environment: Option<String>,
}

/// The plain content of an Infolog message.
pub struct InfologMessageView {
    pub severity: InfologSeverity,
    pub code: Seq<char>,
    pub text: Seq<char>,
    pub field: Option<Seq<char>>,
    pub environment: Option<Seq<char>>,
}

pub open spec fn opt_text(o: Option<String>) -> Option<Seq<char>> {
    match o {
        Some(s) => Some(s@),
        None => None,
    }
}

impl View for InfologMessage {
    type V = InfologMessageView;

    open spec fn view(&self) -> InfologMessageView {
        InfologMessageView {
            severity: self.severity,
            code: self.code@,
            text: self.text@,
            field: opt_text(self.field),
            environment: opt_text(self.environment),
        }
    }
}

/// The views of a list of messages.
pub open spec fn messages_view(v: Seq<InfologMessage>) -> Seq<InfologMessageView> {
    v.map_values(|m: InfologMessage| m@)
}

impl InfologMessage {
    pub fn is_failure(&self) -> (b: bool)
        ensures
            b == severity_fails(self.severity),
    {
        self.severity.is_failure()
    }
}

// ---------------------------------------------------------------------------
// Specification of the parser
// ---------------------------------------------------------------------------

/// Text of a member read as a string: a JSON string gives its text, a JSON number
/// gives its number text; anything else gives nothing.
pub open spec fn scalar_text(v: JsonV) -> Option<Seq<char>> {
    match v {
        JsonV::Str(s) => Some(s),
        JsonV::Number(t) => Some(t),
        _ => None,
    }
}

/// The first of `keys` whose member is a string or a number, read as text.
pub open spec fn first_str_spec(m: Seq<(Seq<char>, JsonV)>, keys: Seq<Seq<char>>) -> Option<
    Seq<char>,
>
    decreases keys.len(),
{
    if keys.len() == 0 {
        None
    } else {
        match member(m, keys[0]) {
            Some(v) if scalar_text(v).is_some() => scalar_text(v),
            _ => first_str_spec(m, keys.drop_first()),
        }
    }
}

pub open spec fn has_key(m: Seq<(Seq<char>, JsonV)>, key: Seq<char>) -> bool {
    key_index(m, key) < m.len()
}

/// The text of an OData `message`: a plain string, or the string under `value`,
/// or else the compact JSON text of the value.
pub open spec fn message_text_spec(v: JsonV) -> Seq<char> {
    match str_of(v) {
        Some(s) => s,
        None => match v.get_spec("value"@) {
            Some(inner) if str_of(inner).is_some() => str_of(inner).unwrap(),
            _ => render(v),
        },
    }
}

pub open spec fn keys2(a: Seq<char>, b: Seq<char>) -> Seq<Seq<char>> {
    seq![a, b]
}

pub open spec fn keys3(a: Seq<char>, b: Seq<char>, c: Seq<char>) -> Seq<Seq<char>> {
    seq![a, b, c]
}

pub open spec fn keys4(a: Seq<char>, b: Seq<char>, c: Seq<char>, d: Seq<char>) -> Seq<
    Seq<char>,
> {
    seq![a, b, c, d]
}

/// The message an OData error object `{ "code", "message", "target" }` stands for.
pub open spec fn error_message_spec(err: Seq<(Seq<char>, JsonV)>) -> InfologMessageView {
    InfologMessageView {
        severity: InfologSeverity::Error,
        code: match first_str_spec(err, keys2("code"@, "Code"@)) {
            Some(c) => c,
            None => seq![],
        },
        text: match member(err, "message"@) {
            Some(m) => message_text_spec(m),
            None => seq![],
        },
        field: first_str_spec(err, keys2("target"@, "Target"@)),
        environment: None,
    }
}

/// Whether an object looks like an Infolog row: it names a severity and a message.
pub open spec fn is_row(m: Seq<(Seq<char>, JsonV)>) -> bool {
    &&& (has_key(m, "severity"@) || has_key(m, "Severity"@) || has_key(m, "type"@) || has_key(
        m,
        "TYPE"@,
    ))
    &&& (has_key(m, "message"@) || has_key(m, "Message"@) || has_key(m, "text"@) || has_key(
        m,
        "MESSAGE"@,
    ))
}

/// The message an Infolog row stands for.
pub open spec fn row_message_spec(m: Seq<(Seq<char>, JsonV)>) -> InfologMessageView {
    InfologMessageView {
        severity: match first_str_spec(m, keys4("severity"@, "Severity"@, "type"@, "TYPE"@)) {
            Some(s) => severity_of(s),
            None => InfologSeverity::Unknown(' '),
        },
        code: match first_str_spec(m, keys4("code"@, "Code"@, "ID"@, "id"@)) {
            Some(c) => c,
            None => seq![],
        },
        text: match first_str_spec(m, keys4("message"@, "Message"@, "text"@, "MESSAGE"@)) {
            Some(c) => c,
            None => seq![],
        },
        field: first_str_spec(m, keys4("field"@, "Field"@, "FIELD"@, "target"@)),
        environment: first_str_spec(m, keys3("environment"@, "system"@, "SYSTEM"@)),
    }
}

/// The messages found in `v`, searched depth-first down to nesting depth 8: an
/// object holding an `error` object yields that error; an Infolog row yields that
/// row; any other object or array is searched member by member, in order.
pub open spec fn walk_spec(v: JsonV, depth: int) -> Seq<InfologMessageView>
    decreases v,
{
    if depth > 8 {
        seq![]
    } else {
        match v {
            JsonV::Object(m) => match member(m, "error"@) {
                Some(JsonV::Object(err)) => seq![error_message_spec(err)],
                _ => if is_row(m) {
                    seq![row_message_spec(m)]
                } else {
                    walk_members(m, depth + 1)
                },
            },
            JsonV::Array(a) => walk_items(a, depth + 1),
            _ => seq![],
        }
    }
}

pub open spec fn walk_items(s: Seq<JsonV>, depth: int) -> Seq<InfologMessageView>
    decreases s,
{
    if s.len() == 0 {
        seq![]
    } else {
        walk_items(s.drop_last(), depth) + walk_spec(s.last(), depth)
    }
}

pub open spec fn walk_members(m: Seq<(Seq<char>, JsonV)>, depth: int) -> Seq<InfologMessageView>
    decreases m,
{
    if m.len() == 0 {
        seq![]
    } else {
        walk_members(m.drop_last(), depth) + walk_spec(m.last().1, depth)
    }
}

/// The messages that `parse_infolog` finds in a value.
pub open spec fn infolog_spec(v: JsonV) -> Seq<InfologMessageView> {
    walk_spec(v, 0)
}

/// A list holding one Infolog row (an object with a `severity` and a string
/// `message` member and no `error` member) gives exactly one message.  Its text is
/// the row's message, and it names the row's field: the string member `field`, or
/// failing that `Field`, `FIELD` or `target`, in that order; a row with none of
/// those members names no field.
pub proof fn law_row_names_its_field(m: Seq<(Seq<char>, JsonV)>, text: Seq<char>)
    requires
        member(m, "error"@) is None,
        member(m, "severity"@) is Some,
        member(m, "message"@) == Some(JsonV::Str(text)),
    ensures
        infolog_spec(JsonV::Array(seq![JsonV::Object(m)])).len() == 1,
        infolog_spec(JsonV::Array(seq![JsonV::Object(m)]))[0].text == text,
        member(m, "code"@) matches Some(JsonV::Str(c)) ==> infolog_spec(
            JsonV::Array(seq![JsonV::Object(m)]),
        )[0].code == c,
        member(m, "environment"@) matches Some(JsonV::Str(e)) ==> infolog_spec(
            JsonV::Array(seq![JsonV::Object(m)]),
        )[0].environment == Some(e),
        member(m, "field"@) matches Some(JsonV::Str(f)) ==> infolog_spec(
            JsonV::Array(seq![JsonV::Object(m)]),
        )[0].field == Some(f),
        member(m, "field"@) is None ==> (member(m, "Field"@) matches Some(JsonV::Str(f))
            ==> infolog_spec(JsonV::Array(seq![JsonV::Object(m)]))[0].field == Some(f)),
        member(m, "field"@) is None && member(m, "Field"@) is None ==> (member(m, "FIELD"@) matches Some(
            JsonV::Str(f),
        ) ==> infolog_spec(JsonV::Array(seq![JsonV::Object(m)]))[0].field == Some(f)),
        member(m, "field"@) is None && member(m, "Field"@) is None && member(m, "FIELD"@) is None
            ==> (member(m, "target"@) matches Some(JsonV::Str(f)) ==> infolog_spec(
            JsonV::Array(seq![JsonV::Object(m)]),
        )[0].field == Some(f)),
        member(m, "field"@) is None && member(m, "Field"@) is None && member(m, "FIELD"@) is None
            && member(m, "target"@) is None ==> infolog_spec(
            JsonV::Array(seq![JsonV::Object(m)]),
        )[0].field is None,
{
    let v = JsonV::Array(seq![JsonV::Object(m)]);
    let a = seq![JsonV::Object(m)];
    assert(a.drop_last() =~= Seq::<JsonV>::empty());
    assert(is_row(m));
    assert(walk_spec(JsonV::Object(m), 1) == seq![row_message_spec(m)]);
    assert(a.last() == JsonV::Object(m));
    assert(walk_items(a.drop_last(), 1) == Seq::<InfologMessageView>::empty());
    assert(walk_items(a, 1) == walk_items(a.drop_last(), 1) + walk_spec(a.last(), 1));
    assert(walk_items(a, 1) =~= seq![row_message_spec(m)]);
    assert(infolog_spec(v) == walk_items(a, 1));
    reveal_with_fuel(first_str_spec, 5);
    let fk = keys4("field"@, "Field"@, "FIELD"@, "target"@);
    assert(fk.drop_first() =~= seq!["Field"@, "FIELD"@, "target"@]);
    assert(fk.drop_first().drop_first() =~= seq!["FIELD"@, "target"@]);
    assert(fk.drop_first().drop_first().drop_first() =~= seq!["target"@]);
    assert(fk.drop_first().drop_first().drop_first().drop_first() =~= Seq::<Seq<char>>::empty());
    let tk = keys4("message"@, "Message"@, "text"@, "MESSAGE"@);
    assert(first_str_spec(m, tk) == Some(text));
}

/// An OData error payload `{ "error": { "code", "message", "target" } }` gives
/// exactly one message: an error carrying the payload's code, its message text and
/// its target as the field.
pub proof fn law_error_payload_is_one_error(
    outer: Seq<(Seq<char>, JsonV)>,
    err: Seq<(Seq<char>, JsonV)>,
    code: Seq<char>,
    text: Seq<char>,
    target: Seq<char>,
)
    requires
        member(outer, "error"@) == Some(JsonV::Object(err)),
        member(err, "code"@) == Some(JsonV::Str(code)),
        member(err, "message"@) == Some(JsonV::Str(text)),
        member(err, "target"@) == Some(JsonV::Str(target)),
    ensures
        infolog_spec(JsonV::Object(outer)).len() == 1,
        infolog_spec(JsonV::Object(outer))[0].severity == InfologSeverity::Error,
        infolog_spec(JsonV::Object(outer))[0].code == code,
        infolog_spec(JsonV::Object(outer))[0].text == text,
        infolog_spec(JsonV::Object(outer))[0].field == Some(target),
{
    reveal_with_fuel(first_str_spec, 3);
    assert(keys2("code"@, "Code"@)[0] == "code"@);
    assert(keys2("target"@, "Target"@)[0] == "target"@);
    assert(message_text_spec(JsonV::Str(text)) == text);
}

// ---------------------------------------------------------------------------
// Parser
// ---------------------------------------------------------------------------

/// Parse a JSON value into Infolog messages.  Accepts an OData error payload
/// `{ "error": { "code", "message" } }`, an array of Infolog rows
/// (`[{ "severity", "message" }, ...]`), or such rows nested inside other objects
/// (e.g. an `outputs.Infolog` slot).  Returns an empty list if no recognised shape
/// is found.
pub fn parse_infolog(value: &Json) -> (out: Vec<InfologMessage>)
    ensures
        messages_view(out@) == infolog_spec(value@),
{
    let mut out: Vec<InfologMessage> = Vec::new();
    walk(value, &mut out, 0);
    proof {
        assert(messages_view(out@) =~= infolog_spec(value@));
    }
    out
}

proof fn lemma_messages_view_push(v: Seq<InfologMessage>, m: InfologMessage)
    ensures
        messages_view(v.push(m)) == messages_view(v).push(m@),
{
    assert(messages_view(v.push(m)) =~= messages_view(v).push(m@));
}

#[verifier::loop_isolation(false)]
fn walk(v: &Json, out: &mut Vec<InfologMessage>, depth: usize)
    requires
        depth <= 9,
    ensures
        messages_view(final(out)@) == messages_view(old(out)@) + walk_spec(v@, depth as int),
    decreases v,
{
    if depth > 8 {
        proof {
            assert(messages_view(out@) =~= messages_view(old(out)@) + walk_spec(v@, depth as int));
        }
        return ;
    }
    match v {
        Json::Object(m) => {
            proof {
                lemma_members_view(m@);
            }
            let err_idx = find_member(m, "error");
            if let Some(i) = err_idx {
                if let Json::Object(err) = &m[i].1 {
                    let msg = error_message(err);
                    proof {
                        lemma_messages_view_push(out@, msg);
                    }
                    out.push(msg);
                    return ;
                }
            }
            if row_like(m) {
                let msg = row_message(m);
                proof {
                    lemma_messages_view_push(out@, msg);
                }
                out.push(msg);
                return ;
            }
            let ghost start = messages_view(out@);
            let mut k: usize = 0;
            while k < m.len()
                invariant
                    k <= m.len(),
                    messages_view(out@) == start + walk_members(
                        members_view(m@.take(k as int)),
                        depth as int + 1,
                    ),
                decreases m.len() - k,
            {
                proof {
                    assert(decreases_to!(*v => (*v)->Object_0));
                    assert(decreases_to!((*v)->Object_0 => m@));
                    assert(decreases_to!(m@ => m@[k as int]));
                    assert(decreases_to!(m@[k as int] => m@[k as int].1));
                }
                walk(&m[k].1, out, depth + 1);
                proof {
                    let t = m@.take(k as int + 1);
                    assert(t.drop_last() =~= m@.take(k as int));
                    assert(t.last() == m@[k as int]);
                    lemma_members_view(t);
                    lemma_members_view(m@.take(k as int));
                    assert(members_view(t).drop_last() =~= members_view(m@.take(k as int)));
                }
                k = k + 1;
            }
            proof {
                assert(m@.take(m@.len() as int) =~= m@);
            }
        },
        Json::Array(a) => {
            let ghost start = messages_view(out@);
            let mut k: usize = 0;
            while k < a.len()
                invariant
                    k <= a.len(),
                    messages_view(out@) == start + walk_items(
                        items_view(a@.take(k as int)),
                        depth as int + 1,
                    ),
                decreases a.len() - k,
            {
                proof {
                    assert(decreases_to!(*v => (*v)->Array_0));
                    assert(decreases_to!((*v)->Array_0 => a@));
                    assert(decreases_to!(a@ => a@[k as int]));
                }
                walk(&a[k], out, depth + 1);
                proof {
                    let t = a@.take(k as int + 1);
                    assert(t.drop_last() =~= a@.take(k as int));
                    assert(t.last() == a@[k as int]);
                    lemma_items_view(t);
                    lemma_items_view(a@.take(k as int));
                    assert(items_view(t).drop_last() =~= items_view(a@.take(k as int)));
                }
                k = k + 1;
            }
            proof {
                assert(a@.take(a@.len() as int) =~= a@);
            }
        },
        _ => {
            proof {
                assert(messages_view(out@) =~= messages_view(old(out)@) + walk_spec(
                    v@,
                    depth as int,
                ));
            }
        },
    }
}

fn has_member(m: &Vec<(String, Json)>, key: &str) -> (b: bool)
    ensures
        b == has_key(members_view(m@), key@),
{
    find_member(m, key).is_some()
}

fn row_like(m: &Vec<(String, Json)>) -> (b: bool)
    ensures
        b == is_row(members_view(m@)),
{
    let has_sev = has_member(m, "severity") || has_member(m, "Severity") || has_member(m, "type")
        || has_member(m, "TYPE");
    let has_msg = has_member(m, "message") || has_member(m, "Message") || has_member(m, "text")
        || has_member(m, "MESSAGE");
    has_sev && has_msg
}

/// A member read as text: strings give their text, numbers their number text.
fn scalar(v: &Json) -> (r: Option<String>)
    ensures
        opt_text(r) == scalar_text(v@),
{
    match v {
        Json::Str(s) => Some(s.clone()),
        Json::Number(t) => Some(t.clone()),
        _ => None,
    }
}

/// The first of `keys` present as a string or number member.
pub fn first_str(m: &Vec<(String, Json)>, keys: &[&str]) -> (r: Option<String>)
    ensures
        opt_text(r) == first_str_spec(members_view(m@), keys@.map_values(|k: &str| k@)),
{
    let ghost ks = keys@.map_values(|k: &str| k@);
    proof {
        assert(ks.skip(0) =~= ks);
        lemma_members_view(m@);
    }
    let mut i: usize = 0;
    while i < keys.len()
        invariant
            i <= keys.len(),
            ks == keys@.map_values(|k: &str| k@),
            first_str_spec(members_view(m@), ks) == first_str_spec(
                members_view(m@),
                ks.skip(i as int),
            ),
        decreases keys.len() - i,
    {
        proof {
            assert(ks.skip(i as int)[0] == keys@[i as int]@);
            assert(ks.skip(i as int).drop_first() =~= ks.skip(i as int + 1));
        }
        if let Some(j) = find_member(m, keys[i]) {
            let r = scalar(&m[j].1);
            if r.is_some() {
                return r;
            }
        }
        i = i + 1;
    }
    proof {
        assert(ks.skip(keys.len() as int).len() == 0);
    }
    None
}

fn text_or_empty(o: Option<String>) -> (r: String)
    ensures
        r@ == (match opt_text(o) {
            Some(c) => c,
            None => seq![],
        }),
{
    match o {
        Some(s) => s,
        None => String::new(),
    }
}

/// OData wraps `message` either as a plain string or as `{ "value": "..." }`.
pub fn odata_message_text(v: &Json) -> (r: String)
    ensures
        r@ == message_text_spec(v@),
{
    if let Some(s) = v.as_str() {
        return s.clone();
    }
    if let Some(inner) = v.get("value") {
        if let Some(s) = inner.as_str() {
            return s.clone();
        }
    }
    v.to_text()
}

fn error_message(err: &Vec<(String, Json)>) -> (r: InfologMessage)
    ensures
        r@ == error_message_spec(members_view(err@)),
{
    let code = text_or_empty(first_str(err, &["code", "Code"]));
    proof {
        lemma_members_view(err@);
    }
    let text = match find_member(err, "message") {
        Some(i) => odata_message_text(&err[i].1),
        None => String::new(),
    };
    let field = first_str(err, &["target", "Target"]);
    proof {
        assert(seq!["code", "Code"].map_values(|k: &str| k@) =~= keys2("code"@, "Code"@));
        assert(seq!["target", "Target"].map_values(|k: &str| k@) =~= keys2("target"@, "Target"@));
    }
    InfologMessage {
        severity: InfologSeverity::Error,
        code,
        text,
        field,
        environment: None,
    }
}

fn row_message(m: &Vec<(String, Json)>) -> (r: InfologMessage)
    ensures
        r@ == row_message_spec(members_view(m@)),
{
    let severity = match first_str(m, &["severity", "Severity", "type", "TYPE"]) {
        Some(s) => InfologSeverity::parse(s.as_str()),
        None => InfologSeverity::Unknown(' '),
    };
    let code = text_or_empty(first_str(m, &["code", "Code", "ID", "id"]));
    let text = text_or_empty(first_str(m, &["message", "Message", "text", "MESSAGE"]));
    let field = first_str(m, &["field", "Field", "FIELD", "target"]);
    let environment = first_str(m, &["environment", "system", "SYSTEM"]);
    proof {
        assert(seq!["severity", "Severity", "type", "TYPE"].map_values(|k: &str| k@) =~= keys4(
            "severity"@,
            "Severity"@,
            "type"@,
            "TYPE"@,
        ));
        assert(seq!["code", "Code", "ID", "id"].map_values(|k: &str| k@) =~= keys4(
            "code"@,
            "Code"@,
            "ID"@,
            "id"@,
        ));
        assert(seq!["message", "Message", "text", "MESSAGE"].map_values(|k: &str| k@) =~= keys4(
            "message"@,
            "Message"@,
            "text"@,
            "MESSAGE"@,
        ));
        assert(seq!["field", "Field", "FIELD", "target"].map_values(|k: &str| k@) =~= keys4(
            "field"@,
            "Field"@,
            "FIELD"@,
            "target"@,
        ));
        assert(seq!["environment", "system", "SYSTEM"].map_values(|k: &str| k@) =~= keys3(
            "environment"@,
            "system"@,
            "SYSTEM"@,
        ));
    }
    InfologMessage { severity, code, text, field, environment }
}

} // verus!
