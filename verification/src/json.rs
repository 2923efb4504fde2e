//! JSON values as the library holds them, their structural equality, and
//! their text.
//!
//! An object holds its members in the order they were given, and a number
//! its text as given; equality and the text go by both. A value is
//! canonical when, at every level, each object's keys are in ascending
//! order, each once, as a `serde_json` map holds them: on a canonical
//! value whose numbers are written as `serde_json` writes them, the text is
//! what `serde_json` writes for the same value. `is_canonical` tells
//! whether a value is so.

use vstd::prelude::*;
use crate::text::{str_eq, str_le, seq_le, chars_of, push_char};

verus! {

/// A JSON value.
#[derive(Debug, PartialEq, Eq)]
pub enum JsonValue {
    /// `null`
    Null,
    /// `true` or `false`
    Bool(bool),
    /// A number, held as its JSON text
    Number(String),
    /// A string
    Str(String),
    /// An array
    Array(Vec<JsonValue>),
    /// An object: its members, in the order given (ascending key order in
    /// a canonical value)
    Object(Vec<(String, JsonValue)>),
}

/// A JSON value as plain values.
pub enum JsonView {
    Null,
    Bool(bool),
    Number(Seq<char>),
    Str(Seq<char>),
    Array(Seq<JsonView>),
    Object(Seq<(Seq<char>, JsonView)>),
}

/// The plain value of a JSON value.
pub open spec fn json_view(v: JsonValue) -> JsonView
    decreases v,
{
    match v {
        JsonValue::Null => JsonView::Null,
        JsonValue::Bool(b) => JsonView::Bool(b),
        JsonValue::Number(n) => JsonView::Number(n@),
        JsonValue::Str(s) => JsonView::Str(s@),
        JsonValue::Array(items) => JsonView::Array(items_view(items@)),
        JsonValue::Object(fields) => JsonView::Object(fields_view(fields@)),
    }
}

/// The plain values of a sequence of JSON values.
pub open spec fn items_view(s: Seq<JsonValue>) -> Seq<JsonView>
    decreases s,
{
    if s.len() == 0 {
        Seq::empty()
    } else {
        items_view(s.drop_last()).push(json_view(s.last()))
    }
}

/// The plain values of a sequence of object members.
pub open spec fn fields_view(s: Seq<(String, JsonValue)>) -> Seq<(Seq<char>, JsonView)>
    decreases s,
{
    if s.len() == 0 {
        Seq::empty()
    } else {
        fields_view(s.drop_last()).push((s.last().0@, json_view(s.last().1)))
    }
}

impl View for JsonValue {
    type V = JsonView;

    open spec fn view(&self) -> JsonView {
        json_view(*self)
    }
}

/// The views of a sequence of JSON values, element by element.
pub proof fn lemma_items_view(s: Seq<JsonValue>)
    ensures
        items_view(s).len() == s.len(),
        forall|i: int| 0 <= i < s.len() ==> #[trigger] items_view(s)[i] == json_view(s[i]),
    decreases s.len(),
{
    if s.len() > 0 {
        lemma_items_view(s.drop_last());
        assert forall|i: int| 0 <= i < s.len() implies #[trigger] items_view(s)[i] == json_view(s[i]) by {
            if i < s.len() - 1 {
                assert(s.drop_last()[i] == s[i]);
            }
        }
    }
}

/// The views of a sequence of object members, member by member.
pub proof fn lemma_fields_view(s: Seq<(String, JsonValue)>)
    ensures
        fields_view(s).len() == s.len(),
        forall|i: int|
            0 <= i < s.len() ==> #[trigger] fields_view(s)[i] == (s[i].0@, json_view(s[i].1)),
    decreases s.len(),
{
    if s.len() > 0 {
        lemma_fields_view(s.drop_last());
        assert forall|i: int| 0 <= i < s.len() implies #[trigger] fields_view(s)[i] == (s[i].0@, json_view(s[i].1)) by {
            if i < s.len() - 1 {
                assert(s.drop_last()[i] == s[i]);
            }
        }
    }
}

/// The value of the first member named `key`, if any.
pub open spec fn member(fields: Seq<(Seq<char>, JsonView)>, key: Seq<char>) -> Option<JsonView>
    decreases fields.len(),
{
    if fields.len() == 0 {
        None
    } else if fields[0].0 == key {
        Some(fields[0].1)
    } else {
        member(fields.drop_first(), key)
    }
}

/// The value of member `key` of an object; `None` for anything else.
pub open spec fn get_member(v: JsonView, key: Seq<char>) -> Option<JsonView> {
    match v {
        JsonView::Object(fields) => member(fields, key),
        _ => None,
    }
}

/// The text of a hexadecimal digit, lower case.
pub open spec fn hex_digit(d: int) -> char {
    if d < 10 {
        (('0' as int) + d) as char
    } else {
        (('a' as int) + d - 10) as char
    }
}

/// The JSON escape of one character of a string.
pub open spec fn escape_char(c: char) -> Seq<char> {
    if c == '"' {
        seq!['\\', '"']
    } else if c == '\\' {
        seq!['\\', '\\']
    } else if c == '\n' {
        seq!['\\', 'n']
    } else if c == '\r' {
        seq!['\\', 'r']
    } else if c == '\t' {
        seq!['\\', 't']
    } else if c == '\x08' {
        seq!['\\', 'b']
    } else if c == '\x0c' {
        seq!['\\', 'f']
    } else if (c as int) < 0x20 {
        seq!['\\', 'u', '0', '0', hex_digit((c as int) / 16), hex_digit((c as int) % 16)]
    } else {
        seq![c]
    }
}

/// The JSON escape of a string's characters.
pub open spec fn escape_text(s: Seq<char>) -> Seq<char>
    decreases s.len(),
{
    if s.len() == 0 {
        Seq::empty()
    } else {
        escape_text(s.drop_last()) + escape_char(s.last())
    }
}

/// A string as a JSON string literal.
pub open spec fn quoted(s: Seq<char>) -> Seq<char> {
    seq!['"'] + escape_text(s) + seq!['"']
}

/// The canonical JSON text of a value.
pub open spec fn json_text(v: JsonView) -> Seq<char>
    decreases v,
{
    match v {
        JsonView::Null => "null"@,
        JsonView::Bool(b) => if b {
            "true"@
        } else {
            "false"@
        },
        JsonView::Number(n) => n,
        JsonView::Str(s) => quoted(s),
        JsonView::Array(items) => seq!['['] + items_text(items) + seq![']'],
        JsonView::Object(fields) => seq!['{'] + fields_text(fields) + seq!['}'],
    }
}

/// The texts of values, separated by commas.
pub open spec fn items_text(s: Seq<JsonView>) -> Seq<char>
    decreases s,
{
    if s.len() == 0 {
        Seq::empty()
    } else if s.len() == 1 {
        json_text(s[0])
    } else {
        items_text(s.drop_last()) + seq![','] + json_text(s.last())
    }
}

/// The texts `"key":value` of members, separated by commas.
pub open spec fn fields_text(s: Seq<(Seq<char>, JsonView)>) -> Seq<char>
    decreases s,
{
    if s.len() == 0 {
        Seq::empty()
    } else if s.len() == 1 {
        quoted(s[0].0) + seq![':'] + json_text(s[0].1)
    } else {
        fields_text(s.drop_last()) + seq![','] + quoted(s.last().0) + seq![':'] + json_text(s.last().1)
    }
}

/// The keys of the members rise strictly: each is below the next.
pub open spec fn keys_ascending(fields: Seq<(Seq<char>, JsonView)>) -> bool {
    forall|i: int|
        0 <= i < fields.len() - 1 ==> seq_le((#[trigger] fields[i]).0, fields[i + 1].0) && fields[i].0 != fields[i
            + 1].0
}

/// Every object, at every level, has its keys in ascending order, each
/// once.
pub open spec fn canonical(v: JsonView) -> bool
    decreases v,
{
    match v {
        JsonView::Array(items) => items_canonical(items),
        JsonView::Object(fields) => keys_ascending(fields) && fields_canonical(fields),
        _ => true,
    }
}

/// Every value is canonical.
pub open spec fn items_canonical(s: Seq<JsonView>) -> bool
    decreases s,
{
    if s.len() == 0 {
        true
    } else {
        items_canonical(s.drop_last()) && canonical(s.last())
    }
}

/// Every member's value is canonical.
pub open spec fn fields_canonical(s: Seq<(Seq<char>, JsonView)>) -> bool
    decreases s,
{
    if s.len() == 0 {
        true
    } else {
        fields_canonical(s.drop_last()) && canonical(s.last().1)
    }
}

/// Values are canonical together exactly when each one is.
proof fn lemma_items_canonical(s: Seq<JsonView>)
    ensures
        items_canonical(s) <==> forall|i: int| 0 <= i < s.len() ==> canonical(#[trigger] s[i]),
    decreases s.len(),
{
    if s.len() > 0 {
        let p = s.drop_last();
        lemma_items_canonical(p);
        if items_canonical(s) {
            assert forall|i: int| 0 <= i < s.len() implies canonical(#[trigger] s[i]) by {
                if i < s.len() - 1 {
                    assert(p[i] == s[i]);
                }
            }
        } else if !items_canonical(p) {
            let j = choose|j: int| 0 <= j < p.len() && !canonical(#[trigger] p[j]);
            assert(p[j] == s[j]);
        } else {
            assert(!canonical(s[s.len() - 1]));
        }
    }
}

/// Member values are canonical together exactly when each one is.
proof fn lemma_fields_canonical(s: Seq<(Seq<char>, JsonView)>)
    ensures
        fields_canonical(s) <==> forall|i: int| 0 <= i < s.len() ==> canonical(#[trigger] s[i].1),
    decreases s.len(),
{
    if s.len() > 0 {
        let p = s.drop_last();
        lemma_fields_canonical(p);
        if fields_canonical(s) {
            assert forall|i: int| 0 <= i < s.len() implies canonical(#[trigger] s[i].1) by {
                if i < s.len() - 1 {
                    assert(p[i] == s[i]);
                }
            }
        } else if !fields_canonical(p) {
            let j = choose|j: int| 0 <= j < p.len() && !canonical(#[trigger] p[j].1);
            assert(p[j] == s[j]);
        } else {
            assert(!canonical(s[s.len() - 1].1));
        }
    }
}

/// A copy of a string with its text.
fn copy_text(s: &String) -> (r: String)
    ensures
        r@ == s@,
{
    s.as_str().to_owned()
}

/// The hexadecimal digit `d` (below 16).
fn hex_char(d: u32) -> (c: char)
    requires
        d < 16,
    ensures
        c == hex_digit(d as int),
{
    let digits: [char; 16] = ['0', '1', '2', '3', '4', '5', '6', '7', '8', '9', 'a', 'b', 'c', 'd', 'e', 'f'];
    assert(digits@ =~= seq!['0', '1', '2', '3', '4', '5', '6', '7', '8', '9', 'a', 'b', 'c', 'd', 'e', 'f']);
    digits[d as usize]
}

/// Append the JSON escape of `c` to `out`.
fn push_escaped(out: &mut String, c: char)
    ensures
        final(out)@ == old(out)@ + escape_char(c),
{
    let ghost o = out@;
    if c == '"' {
        push_char(out, '\\');
        push_char(out, '"');
    } else if c == '\\' {
        push_char(out, '\\');
        push_char(out, '\\');
    } else if c == '\n' {
        push_char(out, '\\');
        push_char(out, 'n');
    } else if c == '\r' {
        push_char(out, '\\');
        push_char(out, 'r');
    } else if c == '\t' {
        push_char(out, '\\');
        push_char(out, 't');
    } else if c == '\x08' {
        push_char(out, '\\');
        push_char(out, 'b');
    } else if c == '\x0c' {
        push_char(out, '\\');
        push_char(out, 'f');
    } else if (c as u32) < 0x20 {
        let code = c as u32;
        push_char(out, '\\');
        push_char(out, 'u');
        push_char(out, '0');
        push_char(out, '0');
        push_char(out, hex_char(code / 16));
        push_char(out, hex_char(code % 16));
    } else {
        push_char(out, c);
    }
    assert(out@ =~= o + escape_char(c));
}

/// Append the JSON string literal of `s` to `out`.
fn push_quoted(out: &mut String, s: &str)
    ensures
        final(out)@ == old(out)@ + quoted(s@),
{
    let ghost o = out@;
    let cs = chars_of(s);
    push_char(out, '"');
    let mut i: usize = 0;
    while i < cs.len()
        invariant
            i <= cs@.len(),
            cs@ == s@,
            out@ == o + seq!['"'] + escape_text(s@.subrange(0, i as int)),
        decreases cs@.len() - i,
    {
        assert(s@.subrange(0, i + 1).drop_last() =~= s@.subrange(0, i as int));
        push_escaped(out, cs[i]);
        assert(out@ =~= o + seq!['"'] + escape_text(s@.subrange(0, i + 1)));
        i = i + 1;
    }
    assert(s@.subrange(0, s@.len() as int) =~= s@);
    push_char(out, '"');
    assert(out@ =~= o + quoted(s@));
}

/// Append the canonical JSON text of `v` to `out`.
fn write_json(v: &JsonValue, out: &mut String)
    ensures
        final(out)@ == old(out)@ + json_text(v@),
    decreases v,
{
    let ghost o = out@;
    match v {
        JsonValue::Null => {
            out.append("null");
        },
        JsonValue::Bool(b) => {
            if *b {
                out.append("true");
            } else {
                out.append("false");
            }
        },
        JsonValue::Number(n) => {
            out.append(n.as_str());
        },
        JsonValue::Str(t) => {
            push_quoted(out, t.as_str());
        },
        JsonValue::Array(items) => {
            push_char(out, '[');
            let mut i: usize = 0;
            while i < items.len()
                invariant
                    i <= items@.len(),
                    *v == JsonValue::Array(*items),
                    out@ == o + seq!['['] + items_text(items_view(items@.subrange(0, i as int))),
                decreases items@.len() - i,
            {
                let ghost pre = items@.subrange(0, i as int);
                assert(items@.subrange(0, i + 1).drop_last() =~= pre);
                if i > 0 {
                    push_char(out, ',');
                }
                assert(decreases_to!(*v => (*v)->Array_0));
                assert(decreases_to!(*items => items@));
                assert(decreases_to!(items@ => items@[i as int]));
                write_json(&items[i], out);
                proof {
                    lemma_items_view(pre);
                    assert(items_view(items@.subrange(0, i + 1)) == items_view(pre).push(json_view(items@[i as int])));
                    assert(items_view(pre).push(json_view(items@[i as int])).drop_last() =~= items_view(pre));
                }
                assert(out@ =~= o + seq!['['] + items_text(items_view(items@.subrange(0, i + 1))));
                i = i + 1;
            }
            assert(items@.subrange(0, items@.len() as int) =~= items@);
            push_char(out, ']');
        },
        JsonValue::Object(fields) => {
            push_char(out, '{');
            let mut i: usize = 0;
            while i < fields.len()
                invariant
                    i <= fields@.len(),
                    *v == JsonValue::Object(*fields),
                    out@ == o + seq!['{'] + fields_text(fields_view(fields@.subrange(0, i as int))),
                decreases fields@.len() - i,
            {
                let ghost pre = fields@.subrange(0, i as int);
                assert(fields@.subrange(0, i + 1).drop_last() =~= pre);
                if i > 0 {
                    push_char(out, ',');
                }
                push_quoted(out, fields[i].0.as_str());
                push_char(out, ':');
                assert(decreases_to!(*v => (*v)->Object_0));
                assert(decreases_to!(*fields => fields@));
                assert(decreases_to!(fields@ => fields@[i as int]));
                assert(decreases_to!(fields@[i as int] => fields@[i as int].1));
                write_json(&fields[i].1, out);
                proof {
                    lemma_fields_view(pre);
                    let fx = (fields@[i as int].0@, json_view(fields@[i as int].1));
                    assert(fields_view(fields@.subrange(0, i + 1)) == fields_view(pre).push(fx));
                    assert(fields_view(pre).push(fx).drop_last() =~= fields_view(pre));
                }
                assert(out@ =~= o + seq!['{'] + fields_text(fields_view(fields@.subrange(0, i + 1))));
                i = i + 1;
            }
            assert(fields@.subrange(0, fields@.len() as int) =~= fields@);
            push_char(out, '}');
        },
    }
    proof {
        reveal_strlit("null");
        reveal_strlit("true");
        reveal_strlit("false");
    }
    assert(out@ =~= o + json_text(v@));
}

impl JsonValue {
    /// The canonical JSON text of the value.
    pub fn to_json_text(&self) -> (r: String)
        ensures
            r@ == json_text(self@),
    {
        let mut out = String::new();
        write_json(self, &mut out);
        assert(out@ =~= json_text(self@));
        out
    }

    /// A copy of the value.
    pub fn duplicate(&self) -> (r: JsonValue)
        ensures
            r@ == self@,
        decreases self,
    {
        match self {
            JsonValue::Null => JsonValue::Null,
            JsonValue::Bool(b) => JsonValue::Bool(*b),
            JsonValue::Number(n) => JsonValue::Number(copy_text(n)),
            JsonValue::Str(t) => JsonValue::Str(copy_text(t)),
            JsonValue::Array(items) => {
                let mut out: Vec<JsonValue> = Vec::new();
                let mut i: usize = 0;
                while i < items.len()
                    invariant
                        i <= items@.len(),
                        *self == JsonValue::Array(*items),
                        items_view(out@) == items_view(items@.subrange(0, i as int)),
                        out@.len() == i,
                    decreases items@.len() - i,
                {
                    assert(items@.subrange(0, i + 1).drop_last() =~= items@.subrange(0, i as int));
                    assert(decreases_to!(*self => (*self)->Array_0));
                    assert(decreases_to!(*items => items@));
                    assert(decreases_to!(items@ => items@[i as int]));
                    let d = items[i].duplicate();
                    let ghost before = out@;
                    out.push(d);
                    assert(out@.drop_last() =~= before);
                    i = i + 1;
                }
                assert(items@.subrange(0, items@.len() as int) =~= items@);
                JsonValue::Array(out)
            },
            JsonValue::Object(fields) => {
                let mut out: Vec<(String, JsonValue)> = Vec::new();
                let mut i: usize = 0;
                while i < fields.len()
                    invariant
                        i <= fields@.len(),
                        *self == JsonValue::Object(*fields),
                        fields_view(out@) == fields_view(fields@.subrange(0, i as int)),
                        out@.len() == i,
                    decreases fields@.len() - i,
                {
                    assert(fields@.subrange(0, i + 1).drop_last() =~= fields@.subrange(0, i as int));
                    assert(decreases_to!(*self => (*self)->Object_0));
                    assert(decreases_to!(*fields => fields@));
                    assert(decreases_to!(fields@ => fields@[i as int]));
                    assert(decreases_to!(fields@[i as int] => fields@[i as int].1));
                    let d = fields[i].1.duplicate();
                    let k = copy_text(&fields[i].0);
                    let ghost before = out@;
                    out.push((k, d));
                    assert(out@.drop_last() =~= before);
                    i = i + 1;
                }
                assert(fields@.subrange(0, fields@.len() as int) =~= fields@);
                JsonValue::Object(out)
            },
        }
    }

    /// The value of member `key`, where this is an object that has one.
    pub fn get(&self, key: &str) -> (r: Option<&JsonValue>)
        ensures
            match r {
                Some(x) => get_member(self@, key@) == Some(x@),
                None => get_member(self@, key@) is None,
            },
    {
        match self {
            JsonValue::Object(fields) => {
                assert(self@ == JsonView::Object(fields_view(fields@)));
                find_member(fields, key)
            },
            _ => None,
        }
    }
}

/// The object with the two members `k1` and `k2` (in that order):
/// canonical where `k1` is below `k2` and both values are canonical.
pub fn object_of_two(k1: &str, v1: JsonValue, k2: &str, v2: JsonValue) -> (r: JsonValue)
    ensures
        r@ == JsonView::Object(seq![(k1@, v1@), (k2@, v2@)]),
        seq_le(k1@, k2@) && k1@ != k2@ && canonical(v1@) && canonical(v2@) ==> canonical(r@),
{
    let mut f: Vec<(String, JsonValue)> = Vec::new();
    f.push((k1.to_owned(), v1));
    f.push((k2.to_owned(), v2));
    proof {
        lemma_fields_view(f@);
    }
    assert(fields_view(f@) =~= seq![(k1@, v1@), (k2@, v2@)]);
    proof {
        lemma_fields_canonical(seq![(k1@, v1@), (k2@, v2@)]);
    }
    JsonValue::Object(f)
}

/// The value of member `key` among `fields`, if any: the first with that key.
pub fn find_member<'a>(fields: &'a Vec<(String, JsonValue)>, key: &str) -> (r: Option<&'a JsonValue>)
    ensures
        match r {
            Some(x) => member(fields_view(fields@), key@) == Some(x@),
            None => member(fields_view(fields@), key@) is None,
        },
{
    let ghost fv = fields_view(fields@);
    proof {
        lemma_fields_view(fields@);
    }
    let mut i: usize = 0;
    assert(fv.subrange(0, fv.len() as int) =~= fv);
    while i < fields.len()
        invariant
            i <= fields@.len(),
            fv == fields_view(fields@),
            fv.len() == fields@.len(),
            forall|j: int| 0 <= j < fields@.len() ==> #[trigger] fv[j] == (fields@[j].0@, json_view(fields@[j].1)),
            member(fv, key@) == member(fv.subrange(i as int, fv.len() as int), key@),
        decreases fields@.len() - i,
    {
        let ghost rest = fv.subrange(i as int, fv.len() as int);
        assert(rest[0] == fv[i as int]);
        assert(fv[i as int] == (fields@[i as int].0@, json_view(fields@[i as int].1)));
        if str_eq(fields[i].0.as_str(), key) {
            return Some(&fields[i].1);
        }
        assert(rest.drop_first() =~= fv.subrange(i + 1, fv.len() as int));
        i = i + 1;
    }
    None
}

impl Clone for JsonValue {
    fn clone(&self) -> (r: Self)
        ensures
            r@ == self@,
    {
        self.duplicate()
    }
}

/// Whether two JSON values are equal.
pub fn json_eq(a: &JsonValue, b: &JsonValue) -> (r: bool)
    ensures
        r == (a@ == b@),
    decreases a,
{
    match (a, b) {
        (JsonValue::Null, JsonValue::Null) => true,
        (JsonValue::Bool(x), JsonValue::Bool(y)) => *x == *y,
        (JsonValue::Number(x), JsonValue::Number(y)) => str_eq(x.as_str(), y.as_str()),
        (JsonValue::Str(x), JsonValue::Str(y)) => str_eq(x.as_str(), y.as_str()),
        (JsonValue::Array(xs), JsonValue::Array(ys)) => {
            proof {
                lemma_items_view(xs@);
                lemma_items_view(ys@);
            }
            if xs.len() != ys.len() {
                return false;
            }
            let mut i: usize = 0;
            while i < xs.len()
                invariant
                    i <= xs@.len(),
                    xs@.len() == ys@.len(),
                    a@ == JsonView::Array(items_view(xs@)),
                    *a == JsonValue::Array(*xs),
                    b@ == JsonView::Array(items_view(ys@)),
                    items_view(xs@).len() == xs@.len(),
                    items_view(ys@).len() == ys@.len(),
                    forall|j: int| 0 <= j < xs@.len() ==> #[trigger] items_view(xs@)[j] == json_view(xs@[j]),
                    forall|j: int| 0 <= j < ys@.len() ==> #[trigger] items_view(ys@)[j] == json_view(ys@[j]),
                    forall|j: int| 0 <= j < i ==> json_view(#[trigger] xs@[j]) == json_view(ys@[j]),
                decreases xs@.len() - i,
            {
                if !json_eq(&xs[i], &ys[i]) {
                    assert(items_view(xs@)[i as int] != items_view(ys@)[i as int]);
                    return false;
                }
                i = i + 1;
            }
            assert(items_view(xs@) =~= items_view(ys@));
            true
        },
        (JsonValue::Object(xs), JsonValue::Object(ys)) => {
            proof {
                lemma_fields_view(xs@);
                lemma_fields_view(ys@);
            }
            if xs.len() != ys.len() {
                return false;
            }
            let mut i: usize = 0;
            while i < xs.len()
                invariant
                    i <= xs@.len(),
                    xs@.len() == ys@.len(),
                    a@ == JsonView::Object(fields_view(xs@)),
                    *a == JsonValue::Object(*xs),
                    b@ == JsonView::Object(fields_view(ys@)),
                    fields_view(xs@).len() == xs@.len(),
                    fields_view(ys@).len() == ys@.len(),
                    forall|j: int| 0 <= j < xs@.len() ==> #[trigger] fields_view(xs@)[j] == (xs@[j].0@, json_view(xs@[j].1)),
                    forall|j: int| 0 <= j < ys@.len() ==> #[trigger] fields_view(ys@)[j] == (ys@[j].0@, json_view(ys@[j].1)),
                    forall|j: int| 0 <= j < i ==> #[trigger] fields_view(xs@)[j] == fields_view(ys@)[j],
                decreases xs@.len() - i,
            {
                if !str_eq(xs[i].0.as_str(), ys[i].0.as_str()) {
                    assert(fields_view(xs@)[i as int] != fields_view(ys@)[i as int]);
                    return false;
                }
                if !json_eq(&xs[i].1, &ys[i].1) {
                    assert(fields_view(xs@)[i as int] != fields_view(ys@)[i as int]);
                    return false;
                }
                i = i + 1;
            }
            assert(fields_view(xs@) =~= fields_view(ys@));
            true
        },
        _ => false,
    }
}

/// Whether a JSON value is canonical: at every level, each object's keys
/// in ascending order, each once.
pub fn is_canonical(v: &JsonValue) -> (r: bool)
    ensures
        r == canonical(v@),
    decreases v,
{
    match v {
        JsonValue::Array(xs) => {
            proof {
                lemma_items_view(xs@);
                lemma_items_canonical(items_view(xs@));
            }
            let mut i: usize = 0;
            while i < xs.len()
                invariant
                    i <= xs@.len(),
                    v@ == JsonView::Array(items_view(xs@)),
                    *v == JsonValue::Array(*xs),
                    items_view(xs@).len() == xs@.len(),
                    forall|j: int| 0 <= j < xs@.len() ==> #[trigger] items_view(xs@)[j] == json_view(xs@[j]),
                    items_canonical(items_view(xs@)) <==> forall|j: int|
                        0 <= j < xs@.len() ==> canonical(#[trigger] items_view(xs@)[j]),
                    forall|j: int| 0 <= j < i ==> canonical(json_view(#[trigger] xs@[j])),
                decreases xs@.len() - i,
            {
                if !is_canonical(&xs[i]) {
                    assert(!canonical(items_view(xs@)[i as int]));
                    return false;
                }
                i = i + 1;
            }
            assert forall|j: int| 0 <= j < xs@.len() implies canonical(#[trigger] items_view(xs@)[j]) by {
                assert(canonical(json_view(xs@[j])));
            }
            true
        },
        JsonValue::Object(fs) => {
            let ghost fv = fields_view(fs@);
            proof {
                lemma_fields_view(fs@);
                lemma_fields_canonical(fv);
            }
            let mut i: usize = 0;
            while i < fs.len()
                invariant
                    i <= fs@.len(),
                    fv == fields_view(fs@),
                    v@ == JsonView::Object(fv),
                    *v == JsonValue::Object(*fs),
                    fv.len() == fs@.len(),
                    forall|j: int| 0 <= j < fs@.len() ==> #[trigger] fv[j] == (fs@[j].0@, json_view(fs@[j].1)),
                    fields_canonical(fv) <==> forall|j: int| 0 <= j < fv.len() ==> canonical(#[trigger] fv[j].1),
                    forall|j: int| 0 <= j < i ==> canonical(#[trigger] fv[j].1),
                    forall|j: int| 0 <= j < i && j + 1 < fv.len() ==> seq_le((#[trigger] fv[j]).0, fv[j + 1].0) && fv[j].0
                        != fv[j + 1].0,
                decreases fs@.len() - i,
            {
                if !is_canonical(&fs[i].1) {
                    assert(!canonical(fv[i as int].1));
                    return false;
                }
                if i + 1 < fs.len() {
                    let a = fs[i].0.as_str();
                    let b = fs[i + 1].0.as_str();
                    if !str_le(a, b) || str_eq(a, b) {
                        assert(fv[i as int].0 == a@ && fv[i + 1].0 == b@);
                        assert(!keys_ascending(fv));
                        return false;
                    }
                }
                i = i + 1;
            }
            true
        },
        _ => true,
    }
}

/// A copy of object members, with their keys and values.
pub fn copy_fields(v: &Vec<(String, JsonValue)>) -> (r: Vec<(String, JsonValue)>)
    ensures
        fields_view(r@) == fields_view(v@),
{
    let mut out: Vec<(String, JsonValue)> = Vec::new();
    let mut i: usize = 0;
    while i < v.len()
        invariant
            i <= v@.len(),
            fields_view(out@) == fields_view(v@.subrange(0, i as int)),
            out@.len() == i,
        decreases v@.len() - i,
    {
        assert(v@.subrange(0, i + 1).drop_last() =~= v@.subrange(0, i as int));
        let ghost before = out@;
        out.push((copy_text(&v[i].0), v[i].1.duplicate()));
        assert(out@.drop_last() =~= before);
        i = i + 1;
    }
    assert(v@.subrange(0, v@.len() as int) =~= v@);
    out
}

} // verus!
