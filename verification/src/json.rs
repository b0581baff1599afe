//! A plain JSON document model, with member lookup and the compact text form.

use vstd::prelude::*;
use crate::text::{push_char, string_of};

verus! {

/// A JSON value. Numbers keep the text they are written with; object members keep
/// their order.
#[derive(Debug)]
pub enum Json {
    Null,
    Bool(bool),
    Number(String),
    Str(String),
    Array(Vec<Json>),
    Object(Vec<(String, Json)>),
}

/// The plain content of a JSON value.
pub enum JsonV {
    Null,
    Bool(bool),
    Number(Seq<char>),
    Str(Seq<char>),
    Array(Seq<JsonV>),
    Object(Seq<(Seq<char>, JsonV)>),
}

pub open spec fn json_view(j: Json) -> JsonV
    decreases j,
{
    match j {
        Json::Null => JsonV::Null,
        Json::Bool(b) => JsonV::Bool(b),
        Json::Number(t) => JsonV::Number(t@),
        Json::Str(s) => JsonV::Str(s@),
        Json::Array(items) => JsonV::Array(items_view(items@)),
        Json::Object(m) => JsonV::Object(members_view(m@)),
    }
}

pub open spec fn items_view(s: Seq<Json>) -> Seq<JsonV>
    decreases s,
{
    if s.len() == 0 {
        seq![]
    } else {
        items_view(s.drop_last()).push(json_view(s.last()))
    }
}

pub open spec fn members_view(m: Seq<(String, Json)>) -> Seq<(Seq<char>, JsonV)>
    decreases m,
{
    if m.len() == 0 {
        seq![]
    } else {
        members_view(m.drop_last()).push((m.last().0@, json_view(m.last().1)))
    }
}

impl View for Json {
    type V = JsonV;

    open spec fn view(&self) -> JsonV {
        json_view(*self)
    }
}

pub proof fn lemma_items_view(s: Seq<Json>)
    ensures
        items_view(s).len() == s.len(),
        forall|i: int| 0 <= i < s.len() ==> #[trigger] items_view(s)[i] == json_view(s[i]),
    decreases s.len(),
{
    if s.len() > 0 {
        lemma_items_view(s.drop_last());
    }
}

pub proof fn lemma_members_view(m: Seq<(String, Json)>)
    ensures
        members_view(m).len() == m.len(),
        forall|i: int|
            0 <= i < m.len() ==> #[trigger] members_view(m)[i] == (m[i].0@, json_view(m[i].1)),
    decreases m.len(),
{
    if m.len() > 0 {
        lemma_members_view(m.drop_last());
    }
}

/// Index of the first member named `key`, or `m.len()` when there is none.
pub open spec fn key_index(m: Seq<(Seq<char>, JsonV)>, key: Seq<char>) -> int
    decreases m.len(),
{
    if m.len() == 0 {
        0
    } else if m[0].0 == key {
        0
    } else {
        1 + key_index(m.drop_first(), key)
    }
}

/// The value of the first member named `key`.
pub open spec fn member(m: Seq<(Seq<char>, JsonV)>, key: Seq<char>) -> Option<JsonV> {
    let i = key_index(m, key);
    if i < m.len() {
        Some(m[i].1)
    } else {
        None
    }
}

/// Some(text) when `v` is a JSON string.
pub open spec fn str_of(v: JsonV) -> Option<Seq<char>> {
    match v {
        JsonV::Str(s) => Some(s),
        _ => None,
    }
}

impl JsonV {
    /// `v.get(key)`: the member `key` of an object; `None` for any other value.
    pub open spec fn get_spec(self, key: Seq<char>) -> Option<JsonV> {
        match self {
            JsonV::Object(m) => member(m, key),
            _ => None,
        }
    }
}

impl Json {
    /// The member `key` of an object, as `serde_json::Value::get` gives it.
    pub fn get(&self, key: &str) -> (r: Option<&Json>)
        ensures
            r.is_some() == self@.get_spec(key@).is_some(),
            r.is_some() ==> r.unwrap()@ == self@.get_spec(key@).unwrap(),
    {
        match self {
            Json::Object(m) => {
                match find_member(m, key) {
                    Some(i) => Some(&m[i].1),
                    None => None,
                }
            },
            _ => None,
        }
    }

    /// The text of a JSON string.
    pub fn as_str(&self) -> (r: Option<&String>)
        ensures
            r.is_some() == str_of(self@).is_some(),
            r.is_some() ==> r.unwrap()@ == str_of(self@).unwrap(),
    {
        match self {
            Json::Str(s) => Some(s),
            _ => None,
        }
    }

    /// Whether the value is a JSON number.
    pub fn is_number(&self) -> (b: bool)
        ensures
            b == (self@ is Number),
    {
        match self {
            Json::Number(_) => true,
            _ => false,
        }
    }

    /// A deep copy of the value.
    #[verifier::loop_isolation(false)]
    pub fn duplicate(&self) -> (r: Json)
        ensures
            r@ == self@,
        decreases self,
    {
        match self {
            Json::Null => Json::Null,
            Json::Bool(b) => Json::Bool(*b),
            Json::Number(t) => Json::Number(t.clone()),
            Json::Str(s) => Json::Str(s.clone()),
            Json::Array(items) => {
                let mut out: Vec<Json> = Vec::new();
                let mut i: usize = 0;
                while i < items.len()
                    invariant
                        i <= items.len(),
                        items_view(out@) == items_view(items@.take(i as int)),
                    decreases items.len() - i,
                {
                    proof {
                        assert(decreases_to!(*self => (*self)->Array_0));
                        assert(decreases_to!((*self)->Array_0 => items@));
                        assert(decreases_to!(items@ => items@[i as int]));
                    }
                    let v = items[i].duplicate();
                    let ghost before = out@;
                    out.push(v);
                    proof {
                        assert(out@.drop_last() =~= before);
                        assert(items@.take(i as int + 1).drop_last() =~= items@.take(i as int));
                    }
                    i = i + 1;
                }
                proof {
                    assert(items@.take(items@.len() as int) =~= items@);
                }
                Json::Array(out)
            },
            Json::Object(m) => {
                let mut out: Vec<(String, Json)> = Vec::new();
                let mut i: usize = 0;
                while i < m.len()
                    invariant
                        i <= m.len(),
                        members_view(out@) == members_view(m@.take(i as int)),
                    decreases m.len() - i,
                {
                    proof {
                        assert(decreases_to!(*self => (*self)->Object_0));
                        assert(decreases_to!((*self)->Object_0 => m@));
                        assert(decreases_to!(m@ => m@[i as int]));
                        assert(decreases_to!(m@[i as int] => m@[i as int].1));
                    }
                    let v = m[i].1.duplicate();
                    let ghost before = out@;
                    out.push((m[i].0.clone(), v));
                    proof {
                        assert(out@.drop_last() =~= before);
                        assert(m@.take(i as int + 1).drop_last() =~= m@.take(i as int));
                    }
                    i = i + 1;
                }
                proof {
                    assert(m@.take(m@.len() as int) =~= m@);
                }
                Json::Object(out)
            },
        }
    }

    /// The compact text form of the value.
    pub fn to_text(&self) -> (s: String)
        ensures
            s@ == render(self@),
    {
        let mut out = String::new();
        write_value(self, &mut out);
        out
    }
}

pub proof fn lemma_key_index(m: Seq<(Seq<char>, JsonV)>, key: Seq<char>)
    ensures
        0 <= key_index(m, key) <= m.len(),
        key_index(m, key) < m.len() ==> m[key_index(m, key)].0 == key,
        forall|j: int| 0 <= j < key_index(m, key) ==> m[j].0 != key,
    decreases m.len(),
{
    if m.len() > 0 && m[0].0 != key {
        lemma_key_index(m.drop_first(), key);
        assert forall|j: int| 0 <= j < key_index(m, key) implies m[j].0 != key by {
            if j > 0 {
                assert(m[j] == m.drop_first()[j - 1]);
            }
        }
    }
}

proof fn lemma_key_index_unique(m: Seq<(Seq<char>, JsonV)>, key: Seq<char>, i: int)
    requires
        0 <= i <= m.len(),
        i < m.len() ==> m[i].0 == key,
        forall|j: int| 0 <= j < i ==> m[j].0 != key,
    ensures
        key_index(m, key) == i,
    decreases m.len(),
{
    if m.len() > 0 && i > 0 {
        assert(m[0].0 != key);
        assert forall|j: int| 0 <= j < i - 1 implies m.drop_first()[j].0 != key by {
            assert(m.drop_first()[j] == m[j + 1]);
        }
        lemma_key_index_unique(m.drop_first(), key, i - 1);
    }
}

/// Position of the first member named `key`.
pub fn find_member(m: &Vec<(String, Json)>, key: &str) -> (r: Option<usize>)
    ensures
        members_view(m@).len() == m@.len(),
        r.is_some() == (key_index(members_view(m@), key@) < m@.len()),
        r.is_some() == member(members_view(m@), key@).is_some(),
        r.is_some() ==> r.unwrap() == key_index(members_view(m@), key@),
        r.is_some() ==> r.unwrap() < m@.len() && m@[r.unwrap() as int].1@ == member(
            members_view(m@),
            key@,
        ).unwrap(),
{
    proof {
        lemma_members_view(m@);
    }
    let mut i: usize = 0;
    while i < m.len()
        invariant
            i <= m.len(),
            members_view(m@).len() == m@.len(),
            forall|j: int|
                0 <= j < m.len() ==> #[trigger] members_view(m@)[j] == (m@[j].0@, json_view(m@[j].1)),
            forall|j: int| 0 <= j < i ==> members_view(m@)[j].0 != key@,
        decreases m.len() - i,
    {
        if str_eq(m[i].0.as_str(), key) {
            proof {
                lemma_key_index_unique(members_view(m@), key@, i as int);
            }
            return Some(i);
        }
        i = i + 1;
    }
    proof {
        lemma_key_index_unique(members_view(m@), key@, m@.len() as int);
    }
    None
}

/// Equality of two strings, character by character.
pub fn str_eq(a: &str, b: &str) -> (r: bool)
    ensures
        r == (a@ == b@),
{
    let x = crate::text::chars_of(a);
    let y = crate::text::chars_of(b);
    crate::text::chars_eq(x.as_slice(), y.as_slice())
}

// ---------------------------------------------------------------------------
// Compact text form
// ---------------------------------------------------------------------------

/// Lower-case hexadecimal digit for `d < 16`.
pub open spec fn hex_digit(d: u32) -> char {
    if d < 10 {
        (48 + d) as char
    } else {
        (87 + d) as char
    }
}

/// How one character of a string is written inside JSON quotes.
pub open spec fn escape_char(c: char) -> Seq<char> {
    if c == '"' {
        seq!['\\', '"']
    } else if c == '\\' {
        seq!['\\', '\\']
    } else if c == '\u{8}' {
        seq!['\\', 'b']
    } else if c == '\t' {
        seq!['\\', 't']
    } else if c == '\n' {
        seq!['\\', 'n']
    } else if c == '\u{c}' {
        seq!['\\', 'f']
    } else if c == '\r' {
        seq!['\\', 'r']
    } else if (c as u32) < 0x20 {
        seq!['\\', 'u', '0', '0', hex_digit((c as u32) / 16), hex_digit((c as u32) % 16)]
    } else {
        seq![c]
    }
}

/// The escaped body of a JSON string.
pub open spec fn escape_str(s: Seq<char>) -> Seq<char>
    decreases s.len(),
{
    if s.len() == 0 {
        seq![]
    } else {
        escape_str(s.drop_last()) + escape_char(s.last())
    }
}

/// A JSON string literal.
pub open spec fn quote(s: Seq<char>) -> Seq<char> {
    seq!['"'] + escape_str(s) + seq!['"']
}

/// Compact JSON text of a value (no whitespace between tokens), as
/// `serde_json::Value`'s `Display` writes it.
pub open spec fn render(v: JsonV) -> Seq<char>
    decreases v,
{
    match v {
        JsonV::Null => seq!['n', 'u', 'l', 'l'],
        JsonV::Bool(b) => if b {
            seq!['t', 'r', 'u', 'e']
        } else {
            seq!['f', 'a', 'l', 's', 'e']
        },
        JsonV::Number(t) => t,
        JsonV::Str(s) => quote(s),
        JsonV::Array(items) => seq!['['] + render_items(items) + seq![']'],
        JsonV::Object(m) => seq!['{'] + render_members(m) + seq!['}'],
    }
}

/// Comma-separated compact text of a sequence of values.
pub open spec fn render_items(s: Seq<JsonV>) -> Seq<char>
    decreases s,
{
    if s.len() == 0 {
        seq![]
    } else if s.len() == 1 {
        render(s[0])
    } else {
        render_items(s.drop_last()) + seq![','] + render(s.last())
    }
}

/// Comma-separated `"key":value` text of object members.
pub open spec fn render_members(m: Seq<(Seq<char>, JsonV)>) -> Seq<char>
    decreases m,
{
    if m.len() == 0 {
        seq![]
    } else if m.len() == 1 {
        quote(m[0].0) + seq![':'] + render(m[0].1)
    } else {
        render_members(m.drop_last()) + seq![','] + quote(m.last().0) + seq![':'] + render(
            m.last().1,
        )
    }
}

fn hex_char(d: u32) -> (c: char)
    requires
        d < 16,
    ensures
        c == hex_digit(d),
{
    let b: u8 = d as u8;
    if b < 10 {
        (48u8 + b) as char
    } else {
        (87u8 + b) as char
    }
}

fn push_str(out: &mut String, s: &str)
    ensures
        final(out)@ == old(out)@ + s@,
{
    let v = crate::text::chars_of(s);
    let mut i: usize = 0;
    while i < v.len()
        invariant
            i <= v.len(),
            v@ == s@,
            out@ == old(out)@ + v@.take(i as int),
        decreases v.len() - i,
    {
        push_char(out, v[i]);
        proof {
            assert(v@.take(i as int + 1) =~= v@.take(i as int).push(v@[i as int]));
        }
        i = i + 1;
    }
    proof {
        assert(v@.take(v@.len() as int) =~= v@);
    }
}

fn write_escaped_char(out: &mut String, c: char)
    ensures
        final(out)@ == old(out)@ + escape_char(c),
{
    if c == '"' {
        push_char(out, '\\');
        push_char(out, '"');
    } else if c == '\\' {
        push_char(out, '\\');
        push_char(out, '\\');
    } else if c == '\u{8}' {
        push_char(out, '\\');
        push_char(out, 'b');
    } else if c == '\t' {
        push_char(out, '\\');
        push_char(out, 't');
    } else if c == '\n' {
        push_char(out, '\\');
        push_char(out, 'n');
    } else if c == '\u{c}' {
        push_char(out, '\\');
        push_char(out, 'f');
    } else if c == '\r' {
        push_char(out, '\\');
        push_char(out, 'r');
    } else if (c as u32) < 0x20 {
        let n = c as u32;
        push_char(out, '\\');
        push_char(out, 'u');
        push_char(out, '0');
        push_char(out, '0');
        push_char(out, hex_char(n / 16));
        push_char(out, hex_char(n % 16));
    } else {
        push_char(out, c);
    }
    proof {
        assert(final(out)@ =~= old(out)@ + escape_char(c)) by {
            reveal_with_fuel(escape_char, 1);
        }
    }
}

fn write_quoted(out: &mut String, s: &str)
    ensures
        final(out)@ == old(out)@ + quote(s@),
{
    let v = crate::text::chars_of(s);
    push_char(out, '"');
    let ghost start = out@;
    let mut i: usize = 0;
    while i < v.len()
        invariant
            i <= v.len(),
            v@ == s@,
            out@ == start + escape_str(v@.take(i as int)),
        decreases v.len() - i,
    {
        write_escaped_char(out, v[i]);
        proof {
            assert(v@.take(i as int + 1).drop_last() =~= v@.take(i as int));
        }
        i = i + 1;
    }
    push_char(out, '"');
    proof {
        assert(v@.take(v@.len() as int) =~= v@);
        assert(out@ =~= old(out)@ + quote(s@));
    }
}

#[verifier::loop_isolation(false)]
#[verifier::rlimit(40)]
fn write_value(v: &Json, out: &mut String)
    ensures
        final(out)@ == old(out)@ + render(v@),
    decreases v,
{
    match v {
        Json::Null => {
            push_str(out, "null");
            proof {
                reveal_strlit("null");
            }
        },
        Json::Bool(b) => {
            if *b {
                push_str(out, "true");
                proof {
                    reveal_strlit("true");
                }
            } else {
                push_str(out, "false");
                proof {
                    reveal_strlit("false");
                }
            }
        },
        Json::Number(t) => {
            push_str(out, t.as_str());
        },
        Json::Str(s) => {
            write_quoted(out, s.as_str());
        },
        Json::Array(items) => {
            push_char(out, '[');
            let ghost start = out@;
            let mut i: usize = 0;
            while i < items.len()
                invariant
                    i <= items.len(),
                    out@ == start + render_items(items_view(items@.take(i as int))),
                decreases items.len() - i,
            {
                if i > 0 {
                    push_char(out, ',');
                }
                proof {
                    assert(decreases_to!(*v => (*v)->Array_0));
                    assert(decreases_to!((*v)->Array_0 => items@));
                    assert(decreases_to!(items@ => items@[i as int]));
                }
                write_value(&items[i], out);
                proof {
                    let t = items@.take(i as int + 1);
                    assert(t.drop_last() =~= items@.take(i as int));
                    lemma_items_view(t);
                    lemma_items_view(items@.take(i as int));
                    assert(items_view(t).drop_last() =~= items_view(items@.take(i as int)));
                    if i == 0 {
                        assert(render_items(items_view(items@.take(0))) =~= seq![]);
                    }
                }
                i = i + 1;
            }
            push_char(out, ']');
            proof {
                assert(items@.take(items@.len() as int) =~= items@);
            }
        },
        Json::Object(m) => {
            push_char(out, '{');
            let ghost start = out@;
            let mut i: usize = 0;
            while i < m.len()
                invariant
                    i <= m.len(),
                    out@ == start + render_members(members_view(m@.take(i as int))),
                decreases m.len() - i,
            {
                if i > 0 {
                    push_char(out, ',');
                }
                write_quoted(out, m[i].0.as_str());
                push_char(out, ':');
                proof {
                    assert(decreases_to!(*v => (*v)->Object_0));
                    assert(decreases_to!((*v)->Object_0 => m@));
                    assert(decreases_to!(m@ => m@[i as int]));
                    assert(decreases_to!(m@[i as int] => m@[i as int].1));
                }
                write_value(&m[i].1, out);
                proof {
                    let t = m@.take(i as int + 1);
                    assert(t.drop_last() =~= m@.take(i as int));
                    lemma_members_view(t);
                    lemma_members_view(m@.take(i as int));
                    assert(members_view(t).drop_last() =~= members_view(m@.take(i as int)));
                    if i == 0 {
                        assert(render_members(members_view(m@.take(0))) =~= seq![]);
                    }
                }
                i = i + 1;
            }
            push_char(out, '}');
            proof {
                assert(m@.take(m@.len() as int) =~= m@);
            }
        },
    }
}

/// A `String` with the characters of a string literal.
pub fn owned(s: &str) -> (r: String)
    ensures
        r@ == s@,
{
    let v = crate::text::chars_of(s);
    string_of(v.as_slice())
}

} // verus!
