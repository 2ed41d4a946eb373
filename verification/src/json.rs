//! The JSON documents the service exchanges with this client, and their
//! mathematical model.
//!
//! `JsonValue` is the executable document; `JsonView` is what contracts speak
//! of. Numbers are the unsigned integers the wire protocol uses (cursor
//! counts, expirations); the service's envelopes carry nothing else.

use vstd::prelude::*;

verus! {

use vstd::string::StrSliceExecFns;
use vstd::string::StringExecFns;

broadcast use vstd::std_specs::vec::group_vec_axioms;

/// The mathematical model of a JSON document: what a `JsonValue` means.
pub enum JsonView {
    Null,
    Bool(bool),
    Num(u64),
    Str(Seq<char>),
    Arr(Seq<JsonView>),
    Obj(Seq<(Seq<char>, JsonView)>),
}

/// A JSON document, as handed to the library by the transport and as built
/// by the library for request bodies. Object members keep their order.
#[derive(Debug, PartialEq, Eq)]
pub enum JsonValue {
    Null,
    Bool(bool),
    Num(u64),
    Str(String),
    Arr(Vec<JsonValue>),
    Obj(Vec<(String, JsonValue)>),
}

pub open spec fn json_view(v: JsonValue) -> JsonView
    decreases v,
{
    match v {
        JsonValue::Null => JsonView::Null,
        JsonValue::Bool(b) => JsonView::Bool(b),
        JsonValue::Num(n) => JsonView::Num(n),
        JsonValue::Str(s) => JsonView::Str(s@),
        JsonValue::Arr(a) => JsonView::Arr(arr_view(a@)),
        JsonValue::Obj(o) => JsonView::Obj(obj_view(o@)),
    }
}

pub open spec fn arr_view(items: Seq<JsonValue>) -> Seq<JsonView>
    decreases items,
{
    if items.len() == 0 {
        Seq::empty()
    } else {
        arr_view(items.drop_last()).push(json_view(items.last()))
    }
}

pub open spec fn obj_view(entries: Seq<(String, JsonValue)>) -> Seq<(Seq<char>, JsonView)>
    decreases entries,
{
    if entries.len() == 0 {
        Seq::empty()
    } else {
        obj_view(entries.drop_last()).push((entries.last().0@, json_view(entries.last().1)))
    }
}

impl View for JsonValue {
    type V = JsonView;

    open spec fn view(&self) -> JsonView {
        json_view(*self)
    }
}

impl DeepView for JsonValue {
    type V = JsonView;

    open spec fn deep_view(&self) -> JsonView {
        self.view()
    }
}

pub proof fn lemma_arr_view_index(items: Seq<JsonValue>)
    ensures
        arr_view(items).len() == items.len(),
        forall|i: int| 0 <= i < items.len() ==> arr_view(items)[i] == json_view(items[i]),
    decreases items,
{
    if items.len() > 0 {
        lemma_arr_view_index(items.drop_last());
    }
}

pub proof fn lemma_obj_view_index(entries: Seq<(String, JsonValue)>)
    ensures
        obj_view(entries).len() == entries.len(),
        forall|i: int| 0 <= i < entries.len() ==> obj_view(entries)[i]
            == (entries[i].0@, json_view(entries[i].1)),
    decreases entries,
{
    if entries.len() > 0 {
        lemma_obj_view_index(entries.drop_last());
    }
}

/// The first member of `entries` named `key`, scanning front to back.
pub open spec fn entries_get(entries: Seq<(Seq<char>, JsonView)>, key: Seq<char>) -> Option<
    JsonView,
>
    decreases entries,
{
    if entries.len() == 0 {
        None
    } else if entries[0].0 == key {
        Some(entries[0].1)
    } else {
        entries_get(entries.drop_first(), key)
    }
}

/// The member named `key` of an object, `None` on any other document.
pub open spec fn obj_get(v: JsonView, key: Seq<char>) -> Option<JsonView> {
    match v {
        JsonView::Obj(entries) => entries_get(entries, key),
        _ => None,
    }
}

impl JsonValue {
    /// Looks a member up by name; `None` when this document is not an object
    /// or has no member of that name.
    pub fn get<'a>(&'a self, key: &str) -> (r: Option<&'a JsonValue>)
        ensures
            match r {
                Some(j) => obj_get(self@, key@) == Some(j@),
                None => obj_get(self@, key@) is None,
            },
    {
        match self {
            JsonValue::Obj(entries) => {
                proof {
                    lemma_obj_view_index(entries@);
                }
                let needle: String = key.to_owned();
                let ghost es = obj_view(entries@);
                proof {
                    assert(es.skip(0) =~= es);
                }
                let mut i: usize = 0;
                while i < entries.len()
                    invariant
                        0 <= i <= entries.len(),
                        es == obj_view(entries@),
                        es.len() == entries@.len(),
                        forall|j: int| 0 <= j < entries@.len() ==> es[j]
                            == (entries@[j].0@, json_view(entries@[j].1)),
                        needle@ == key@,
                        entries_get(es, key@) == entries_get(es.skip(i as int), key@),
                        self@ == JsonView::Obj(es),
                    decreases entries.len() - i,
                {
                    if entries[i].0 == needle {
                        proof {
                            assert(es.skip(i as int)[0] == es[i as int]);
                        }
                        return Some(&entries[i].1);
                    }
                    proof {
                        assert(es.skip(i as int).drop_first() =~= es.skip(i as int + 1));
                        assert(es.skip(i as int)[0] == es[i as int]);
                    }
                    i = i + 1;
                }
                proof {
                    assert(es.skip(i as int) =~= Seq::empty());
                }
                None
            },
            _ => None,
        }
    }
}

/// The decimal digit `n`, for `0 <= n < 10`.
pub open spec fn dec_digit(n: int) -> char {
    if n == 0 {
        '0'
    } else if n == 1 {
        '1'
    } else if n == 2 {
        '2'
    } else if n == 3 {
        '3'
    } else if n == 4 {
        '4'
    } else if n == 5 {
        '5'
    } else if n == 6 {
        '6'
    } else if n == 7 {
        '7'
    } else if n == 8 {
        '8'
    } else {
        '9'
    }
}

/// The decimal rendering of `n`, most significant digit first.
pub open spec fn dec_text(n: nat) -> Seq<char>
    decreases n,
{
    if n < 10 {
        seq![dec_digit(n as int)]
    } else {
        dec_text(n / 10).push(dec_digit((n % 10) as int))
    }
}

/// The lower-case hexadecimal digit `n`, for `0 <= n < 16`.
pub open spec fn hex_digit(n: int) -> char {
    if n < 10 {
        dec_digit(n)
    } else if n == 10 {
        'a'
    } else if n == 11 {
        'b'
    } else if n == 12 {
        'c'
    } else if n == 13 {
        'd'
    } else if n == 14 {
        'e'
    } else {
        'f'
    }
}

/// How one character is written inside a JSON string literal: quotes and
/// backslashes get a backslash escape, control characters a `\u00..` escape,
/// every other character stands as it is.
pub open spec fn esc_char(c: char) -> Seq<char> {
    if c == '"' {
        seq!['\\', '"']
    } else if c == '\\' {
        seq!['\\', '\\']
    } else if (c as u32) < 32 {
        seq!['\\', 'u', '0', '0', hex_digit(c as u32 as int / 16), hex_digit(c as u32 as int % 16)]
    } else {
        seq![c]
    }
}

/// The body of a JSON string literal for the text `s`.
pub open spec fn esc_text(s: Seq<char>) -> Seq<char>
    decreases s,
{
    if s.len() == 0 {
        Seq::empty()
    } else {
        esc_text(s.drop_last()) + esc_char(s.last())
    }
}

/// The serialized form of a document: minimal JSON, members and elements in
/// order, no added whitespace.
pub open spec fn json_text(v: JsonView) -> Seq<char>
    decreases v,
{
    match v {
        JsonView::Null => "null"@,
        JsonView::Bool(b) => if b {
            "true"@
        } else {
            "false"@
        },
        JsonView::Num(n) => dec_text(n as nat),
        JsonView::Str(s) => seq!['"'] + esc_text(s) + seq!['"'],
        JsonView::Arr(items) => seq!['['] + arr_text(items) + seq![']'],
        JsonView::Obj(entries) => seq!['{'] + obj_text(entries) + seq!['}'],
    }
}

/// The serialized elements of an array, comma-separated.
pub open spec fn arr_text(items: Seq<JsonView>) -> Seq<char>
    decreases items,
{
    if items.len() == 0 {
        Seq::empty()
    } else if items.len() == 1 {
        json_text(items[0])
    } else {
        arr_text(items.drop_last()) + seq![','] + json_text(items.last())
    }
}

/// The serialized members of an object, comma-separated.
pub open spec fn obj_text(entries: Seq<(Seq<char>, JsonView)>) -> Seq<char>
    decreases entries,
{
    if entries.len() == 0 {
        Seq::empty()
    } else if entries.len() == 1 {
        member_text(entries[0])
    } else {
        obj_text(entries.drop_last()) + seq![','] + member_text(entries.last())
    }
}

/// One serialized object member: quoted name, colon, value.
pub open spec fn member_text(entry: (Seq<char>, JsonView)) -> Seq<char>
    decreases entry,
{
    seq!['"'] + esc_text(entry.0) + seq!['"', ':'] + json_text(entry.1)
}

/// Relies on `String::push`: appends exactly the one given character.
#[verifier::external_body]
fn push_char(s: &mut String, c: char)
    ensures
        final(s)@ == old(s)@.push(c),
{
    s.push(c);
}

fn dec_digit_char(n: u64) -> (c: char)
    requires
        n < 10,
    ensures
        c == dec_digit(n as int),
{
    if n == 0 {
        '0'
    } else if n == 1 {
        '1'
    } else if n == 2 {
        '2'
    } else if n == 3 {
        '3'
    } else if n == 4 {
        '4'
    } else if n == 5 {
        '5'
    } else if n == 6 {
        '6'
    } else if n == 7 {
        '7'
    } else if n == 8 {
        '8'
    } else {
        '9'
    }
}

fn hex_digit_char(n: u32) -> (c: char)
    requires
        n < 16,
    ensures
        c == hex_digit(n as int),
{
    if n < 10 {
        dec_digit_char(n as u64)
    } else if n == 10 {
        'a'
    } else if n == 11 {
        'b'
    } else if n == 12 {
        'c'
    } else if n == 13 {
        'd'
    } else if n == 14 {
        'e'
    } else {
        'f'
    }
}

fn write_dec(out: &mut String, n: u64)
    ensures
        final(out)@ == old(out)@ + dec_text(n as nat),
    decreases n,
{
    if n >= 10 {
        write_dec(out, n / 10);
        push_char(out, dec_digit_char(n % 10));
        proof {
            assert(final(out)@ =~= old(out)@ + dec_text(n as nat));
        }
    } else {
        push_char(out, dec_digit_char(n));
        proof {
            assert(final(out)@ =~= old(out)@ + dec_text(n as nat));
        }
    }
}

fn write_escaped(out: &mut String, s: &str)
    ensures
        final(out)@ == old(out)@ + esc_text(s@),
{
    let len = s.unicode_len();
    let mut i: usize = 0;
    proof {
        assert(s@.take(0) =~= Seq::empty());
        assert(old(out)@ + esc_text(s@.take(0)) =~= old(out)@);
    }
    while i < len
        invariant
            0 <= i <= len,
            len == s@.len(),
            out@ == old(out)@ + esc_text(s@.take(i as int)),
        decreases len - i,
    {
        let c = s.get_char(i);
        let code = c as u32;
        if c == '"' {
            push_char(out, '\\');
            push_char(out, '"');
        } else if c == '\\' {
            push_char(out, '\\');
            push_char(out, '\\');
        } else if code < 32 {
            push_char(out, '\\');
            push_char(out, 'u');
            push_char(out, '0');
            push_char(out, '0');
            push_char(out, hex_digit_char(code / 16));
            push_char(out, hex_digit_char(code % 16));
        } else {
            push_char(out, c);
        }
        proof {
            assert(s@.take(i + 1).drop_last() =~= s@.take(i as int));
            assert(s@.take(i + 1).last() == s@[i as int]);
            assert(out@ =~= old(out)@ + esc_text(s@.take(i + 1)));
        }
        i = i + 1;
    }
    proof {
        assert(s@.take(len as int) =~= s@);
    }
}

#[verifier::loop_isolation(false)]
fn write_json(out: &mut String, v: &JsonValue)
    ensures
        final(out)@ == old(out)@ + json_text(v@),
    decreases v,
{
    match v {
        JsonValue::Null => {
            out.append("null");
        },
        JsonValue::Bool(b) => {
            if *b {
                out.append("true");
            } else {
                out.append("false");
            }
        },
        JsonValue::Num(n) => {
            write_dec(out, *n);
        },
        JsonValue::Str(s) => {
            push_char(out, '"');
            write_escaped(out, s.as_str());
            push_char(out, '"');
            proof {
                assert(final(out)@ =~= old(out)@ + json_text(v@));
            }
        },
        JsonValue::Arr(a) => {
            proof {
                lemma_arr_view_index(a@);
            }
            let ghost items = arr_view(a@);
            push_char(out, '[');
            proof {
                assert(out@ + arr_text(items.take(0)) =~= out@);
            }
            let ghost started = out@;
            let mut i: usize = 0;
            while i < a.len()
                invariant
                    0 <= i <= a@.len(),
                    items == arr_view(a@),
                    items.len() == a@.len(),
                    forall|j: int| 0 <= j < a@.len() ==> items[j] == json_view(a@[j]),
                    started == old(out)@.push('['),
                    out@ == started + arr_text(items.take(i as int)),
                decreases a@.len() - i,
            {
                if i > 0 {
                    push_char(out, ',');
                }
                write_json(out, &a[i]);
                proof {
                    if i > 0 {
                        assert(items.take(i + 1).drop_last() =~= items.take(i as int));
                        assert(items.take(i + 1).last() == items[i as int]);
                    } else {
                        assert(items.take(1)[0] == items[0]);
                    }
                    assert(out@ =~= started + arr_text(items.take(i + 1)));
                }
                i = i + 1;
            }
            push_char(out, ']');
            proof {
                assert(items.take(a@.len() as int) =~= items);
                assert(final(out)@ =~= old(out)@ + json_text(v@));
            }
        },
        JsonValue::Obj(o) => {
            proof {
                lemma_obj_view_index(o@);
            }
            let ghost entries = obj_view(o@);
            push_char(out, '{');
            proof {
                assert(out@ + obj_text(entries.take(0)) =~= out@);
            }
            let ghost started = out@;
            let mut i: usize = 0;
            while i < o.len()
                invariant
                    0 <= i <= o@.len(),
                    entries == obj_view(o@),
                    entries.len() == o@.len(),
                    forall|j: int| 0 <= j < o@.len() ==> entries[j]
                        == (o@[j].0@, json_view(o@[j].1)),
                    started == old(out)@.push('{'),
                    out@ == started + obj_text(entries.take(i as int)),
                decreases o@.len() - i,
            {
                if i > 0 {
                    push_char(out, ',');
                }
                push_char(out, '"');
                write_escaped(out, o[i].0.as_str());
                push_char(out, '"');
                push_char(out, ':');
                write_json(out, &o[i].1);
                proof {
                    assert(member_text(entries[i as int]) =~= seq!['"'] + esc_text(o@[i as int].0@)
                        + seq!['"', ':'] + json_text(o@[i as int].1@));
                    if i > 0 {
                        assert(entries.take(i + 1).drop_last() =~= entries.take(i as int));
                        assert(entries.take(i + 1).last() == entries[i as int]);
                    } else {
                        assert(entries.take(1)[0] == entries[0]);
                    }
                    assert(out@ =~= started + obj_text(entries.take(i + 1)));
                }
                i = i + 1;
            }
            push_char(out, '}');
            proof {
                assert(entries.take(o@.len() as int) =~= entries);
                assert(final(out)@ =~= old(out)@ + json_text(v@));
            }
        },
    }
}

impl JsonValue {
    /// Serializes this document: minimal JSON, members and elements in order,
    /// no added whitespace.
    pub fn to_text(&self) -> (r: String)
        ensures
            r@ == json_text(self@),
    {
        let mut out = String::new();
        write_json(&mut out, self);
        proof {
            assert(out@ =~= json_text(self@));
        }
        out
    }

    /// An equal copy of this document.
    #[verifier::loop_isolation(false)]
    pub fn deep_clone(&self) -> (r: JsonValue)
        ensures
            r@ == self@,
        decreases self,
    {
        match self {
            JsonValue::Null => JsonValue::Null,
            JsonValue::Bool(b) => JsonValue::Bool(*b),
            JsonValue::Num(n) => JsonValue::Num(*n),
            JsonValue::Str(s) => JsonValue::Str(s.clone()),
            JsonValue::Arr(a) => {
                let mut items: Vec<JsonValue> = Vec::new();
                let mut i: usize = 0;
                while i < a.len()
                    invariant
                        0 <= i <= a@.len(),
                        items@.len() == i,
                        forall|j: int| 0 <= j < i ==> items@[j]@ == a@[j]@,
                    decreases a@.len() - i,
                {
                    let c = a[i].deep_clone();
                    items.push(c);
                    i = i + 1;
                }
                proof {
                    lemma_arr_view_index(items@);
                    lemma_arr_view_index(a@);
                    assert(arr_view(items@) =~= arr_view(a@));
                }
                JsonValue::Arr(items)
            },
            JsonValue::Obj(o) => {
                let mut entries: Vec<(String, JsonValue)> = Vec::new();
                let mut i: usize = 0;
                while i < o.len()
                    invariant
                        0 <= i <= o@.len(),
                        entries@.len() == i,
                        forall|j: int| 0 <= j < i ==> entries@[j].0@ == o@[j].0@ && entries@[j].1@
                            == o@[j].1@,
                    decreases o@.len() - i,
                {
                    let k = o[i].0.clone();
                    let c = o[i].1.deep_clone();
                    entries.push((k, c));
                    i = i + 1;
                }
                proof {
                    lemma_obj_view_index(entries@);
                    lemma_obj_view_index(o@);
                    assert(obj_view(entries@) =~= obj_view(o@));
                }
                JsonValue::Obj(entries)
            },
        }
    }
}

} // verus!
