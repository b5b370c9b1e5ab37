//! JSON values as the broker carries them, and their compact notation.
use vstd::prelude::*;

use crate::outside::{json_string, quote_json};
use crate::text::{decimal, decimal_text, push_text};

verus! {

/// A JSON value. Numbers keep the notation they came with, objects keep the
/// order of their members.
#[derive(Debug, PartialEq, Eq)]
pub enum JsonValue {
    Null,
    Bool(bool),
    Number(String),
    Text(String),
    List(Vec<JsonValue>),
    Object(Vec<JsonMember>),
}

/// A named member of a JSON object.
#[derive(Debug, PartialEq, Eq)]
pub struct JsonMember {
    pub name: String,
    pub value: JsonValue,
}

/// The mathematical value behind a [`JsonValue`].
pub enum JsonModel {
    Null,
    Bool(bool),
    Number(Seq<char>),
    Text(Seq<char>),
    List(Seq<JsonModel>),
    Object(Seq<MemberModel>),
}

/// The mathematical value behind a [`JsonMember`].
pub struct MemberModel {
    pub name: Seq<char>,
    pub value: JsonModel,
}

impl View for JsonValue {
    type V = JsonModel;

    open spec fn view(&self) -> JsonModel
        decreases self,
    {
        match self {
            JsonValue::Null => JsonModel::Null,
            JsonValue::Bool(b) => JsonModel::Bool(*b),
            JsonValue::Number(n) => JsonModel::Number(n@),
            JsonValue::Text(t) => JsonModel::Text(t@),
            JsonValue::List(items) => JsonModel::List(
                Seq::new(
                    items@.len(),
                    |i: int|
                        if 0 <= i < items@.len() {
                            items@[i].view()
                        } else {
                            JsonModel::Null
                        },
                ),
            ),
            JsonValue::Object(members) => JsonModel::Object(
                Seq::new(
                    members@.len(),
                    |i: int|
                        if 0 <= i < members@.len() {
                            MemberModel { name: members@[i].name@, value: members@[i].value.view() }
                        } else {
                            MemberModel { name: Seq::empty(), value: JsonModel::Null }
                        },
                ),
            ),
        }
    }
}

impl Clone for JsonValue {
    fn clone(&self) -> (r: Self)
        ensures
            r@ == self@,
        decreases self,
    {
        match self {
            JsonValue::Null => JsonValue::Null,
            JsonValue::Bool(b) => JsonValue::Bool(*b),
            JsonValue::Number(n) => JsonValue::Number(n.clone()),
            JsonValue::Text(t) => JsonValue::Text(t.clone()),
            JsonValue::List(items) => {
                let mut out: Vec<JsonValue> = Vec::new();
                for i in 0..items.len()
                    invariant
                        out@.len() == i,
                        decreases_to!(self => items),
                        forall|j: int| 0 <= j < i ==> (#[trigger] out@[j])@ == items@[j]@,
                {
                    out.push(items[i].clone());
                }
                let r = JsonValue::List(out);
                assert(r@->List_0 =~= self@->List_0);
                r
            },
            JsonValue::Object(members) => {
                let mut out: Vec<JsonMember> = Vec::new();
                for i in 0..members.len()
                    invariant
                        out@.len() == i,
                        decreases_to!(self => members),
                        forall|j: int|
                            0 <= j < i ==> (#[trigger] out@[j]).name@ == members@[j].name@ && out@[j].value@
                                == members@[j].value@,
                {
                    let member = &members[i];
                    out.push(JsonMember { name: member.name.clone(), value: member.value.clone() });
                }
                let ghost copied = out@;
                let r = JsonValue::Object(out);
                assert forall|j: int| 0 <= j < copied.len() implies r@->Object_0[j]
                    == self@->Object_0[j] by {
                    assert(copied[j].name@ == members@[j].name@);
                }
                assert(r@->Object_0 =~= self@->Object_0);
                r
            },
        }
    }
}

/// A named member.
pub open spec fn member(name: Seq<char>, value: JsonModel) -> MemberModel {
    MemberModel { name, value }
}

/// A whole number in decimal notation.
pub open spec fn number_json(n: nat) -> JsonModel {
    JsonModel::Number(decimal_text(n))
}

/// A list of strings.
pub open spec fn texts_json(texts: Seq<Seq<char>>) -> JsonModel {
    JsonModel::List(texts.map_values(|t: Seq<char>| JsonModel::Text(t)))
}

/// An object with one member.
pub open spec fn object1(name: Seq<char>, value: JsonModel) -> JsonModel {
    JsonModel::Object(seq![member(name, value)])
}

/// An object with one member that holds a string.
pub open spec fn text_object(name: Seq<char>, value: Seq<char>) -> JsonModel {
    object1(name, JsonModel::Text(value))
}

/// A whole number in decimal notation.
pub fn number(n: u128) -> (r: JsonValue)
    ensures
        r@ == number_json(n as nat),
{
    JsonValue::Number(decimal(n))
}

/// A list of strings.
pub fn text_list(texts: &Vec<String>) -> (r: JsonValue)
    ensures
        r@ == texts_json(crate::text::texts(texts@)),
{
    let mut out: Vec<JsonValue> = Vec::new();
    for i in 0..texts.len()
        invariant
            out@.len() == i,
            forall|j: int| 0 <= j < i ==> (#[trigger] out@[j])@ == JsonModel::Text(texts@[j]@),
    {
        out.push(JsonValue::Text(texts[i].clone()));
    }
    let r = JsonValue::List(out);
    assert(r@->List_0 =~= texts_json(crate::text::texts(texts@))->List_0);
    r
}

/// Collects the members of an object in order.
pub struct ObjectBuilder {
    members: Vec<JsonMember>,
}

impl View for ObjectBuilder {
    type V = Seq<MemberModel>;

    closed spec fn view(&self) -> Seq<MemberModel> {
        self.members@.map_values(
            |m: JsonMember| MemberModel { name: m.name@, value: m.value@ },
        )
    }
}

impl ObjectBuilder {
    pub fn new() -> (r: Self)
        ensures
            r@ == Seq::<MemberModel>::empty(),
    {
        let r = ObjectBuilder { members: Vec::new() };
        assert(r@ =~= Seq::<MemberModel>::empty());
        r
    }

    /// Adds a member behind those already there.
    pub fn put(&mut self, name: &str, value: JsonValue)
        ensures
            final(self)@ == old(self)@.push(member(name@, value@)),
    {
        self.members.push(JsonMember { name: name.to_owned(), value });
        assert(self@ =~= old(self)@.push(member(name@, value@)));
    }

    /// Adds a member that holds a string.
    pub fn put_text(&mut self, name: &str, value: &str)
        ensures
            final(self)@ == old(self)@.push(member(name@, JsonModel::Text(value@))),
    {
        self.put(name, JsonValue::Text(value.to_owned()));
    }

    /// The object with the members collected so far.
    pub fn finish(self) -> (r: JsonValue)
        ensures
            r@ == JsonModel::Object(self@),
    {
        let ghost members = self.members@;
        let r = JsonValue::Object(self.members);
        assert forall|j: int| 0 <= j < members.len() implies r@->Object_0[j] == self@[j] by {
            assert(members[j].name@ == self@[j].name);
        }
        assert(r@->Object_0 =~= self@);
        r
    }
}

/// An object with one member that holds a string.
pub fn text_member(name: &str, value: &str) -> (r: JsonValue)
    ensures
        r@ == text_object(name@, value@),
{
    let mut object = ObjectBuilder::new();
    object.put_text(name, value);
    object.finish()
}

/// The compact notation of a value: no white space between tokens, strings in
/// the notation of [`json_string`].
pub open spec fn render(v: JsonModel) -> Seq<char>
    decreases v, 0nat,
{
    match v {
        JsonModel::Null => seq!['n', 'u', 'l', 'l'],
        JsonModel::Bool(b) => if b {
            seq!['t', 'r', 'u', 'e']
        } else {
            seq!['f', 'a', 'l', 's', 'e']
        },
        JsonModel::Number(n) => n,
        JsonModel::Text(t) => json_string(t),
        JsonModel::List(items) => seq!['['] + render_items(items, items.len()) + seq![']'],
        JsonModel::Object(members) => seq!['{'] + render_members(members, members.len()) + seq!['}'],
    }
}

/// The first `n` items of a list, separated by commas.
pub open spec fn render_items(items: Seq<JsonModel>, n: nat) -> Seq<char>
    decreases items, n,
    when n <= items.len()
{
    if n == 0 {
        Seq::empty()
    } else {
        let head = render_items(items, (n - 1) as nat);
        let head = if n == 1 {
            head
        } else {
            head.push(',')
        };
        head + render(items[n - 1])
    }
}

/// The first `n` members of an object, separated by commas.
pub open spec fn render_members(members: Seq<MemberModel>, n: nat) -> Seq<char>
    decreases members, n,
    when n <= members.len()
{
    if n == 0 {
        Seq::empty()
    } else {
        let head = render_members(members, (n - 1) as nat);
        let head = if n == 1 {
            head
        } else {
            head.push(',')
        };
        let member = members[n - 1];
        head + json_string(member.name).push(':') + render(member.value)
    }
}

/// The compact notation of a value.
pub fn to_text(v: &JsonValue) -> (r: String)
    ensures
        r@ == render(v@),
    decreases v,
{
    match v {
        JsonValue::Null => {
            proof {
                reveal_strlit("null");
            }
            let r = "null".to_owned();
            assert(r@ =~= render(v@));
            r
        },
        JsonValue::Bool(b) => {
            proof {
                reveal_strlit("true");
                reveal_strlit("false");
            }
            let r = if *b {
                "true".to_owned()
            } else {
                "false".to_owned()
            };
            assert(r@ =~= render(v@));
            r
        },
        JsonValue::Number(n) => n.clone(),
        JsonValue::Text(t) => quote_json(t.as_str()),
        JsonValue::List(items) => {
            let mut out = String::new();
            out.push('[');
            let ghost models = v@->List_0;
            assert(out@ =~= seq!['['] + render_items(models, 0));
            for i in 0..items.len()
                invariant
                    decreases_to!(v => items),
                    models.len() == items@.len(),
                    forall|j: int| 0 <= j < models.len() ==> #[trigger] models[j] == items@[j]@,
                    out@ == seq!['['] + render_items(models, i as nat),
            {
                if i > 0 {
                    out.push(',');
                }
                let item = to_text(&items[i]);
                push_text(&mut out, item.as_str());
                assert(models[i as int] == items@[i as int]@);
                assert(out@ =~= seq!['['] + render_items(models, (i + 1) as nat));
            }
            out.push(']');
            assert(out@ =~= render(v@));
            out
        },
        JsonValue::Object(members) => {
            let mut out = String::new();
            out.push('{');
            let ghost models = v@->Object_0;
            assert(out@ =~= seq!['{'] + render_members(models, 0));
            for i in 0..members.len()
                invariant
                    decreases_to!(v => members),
                    models.len() == members@.len(),
                    forall|j: int|
                        0 <= j < models.len() ==> #[trigger] models[j] == (MemberModel {
                            name: members@[j].name@,
                            value: members@[j].value@,
                        }),
                    out@ == seq!['{'] + render_members(models, i as nat),
            {
                if i > 0 {
                    out.push(',');
                }
                let member = &members[i];
                let name = quote_json(member.name.as_str());
                let item = to_text(&member.value);
                push_text(&mut out, name.as_str());
                out.push(':');
                push_text(&mut out, item.as_str());
                assert(models[i as int].name == members@[i as int].name@);
                assert(out@ =~= seq!['{'] + render_members(models, (i + 1) as nat));
            }
            out.push('}');
            assert(out@ =~= render(v@));
            out
        },
    }
}

} // verus!
