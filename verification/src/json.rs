//! JSON values.
//!
//! [`Json`] is the library's own value type; `serde_json` reads and writes
//! the text. Integers are kept exactly; a number that is no 64-bit integer is
//! carried as `serde_json` read it.

use crate::text::{opt_view, same, views};
use vstd::prelude::*;
use vstd::string::*;

verus! {

/// A JSON value of `serde_json`.
#[verifier::external_type_specification]
#[verifier::external_body]
pub struct ExValue(serde_json::Value);

/// A JSON number of `serde_json`.
#[verifier::external_type_specification]
#[verifier::external_body]
pub struct ExNumber(serde_json::Number);

/// `Clone` on `serde_json::Number` gives the same number.
pub assume_specification[ <serde_json::Number as Clone>::clone ](n: &serde_json::Number) -> (r:
    serde_json::Number)
    ensures
        r == *n,
;

/// A number that is no 64-bit integer, as `serde_json` carries it.
pub struct Decimal {
    number: serde_json::Number,
}

impl View for Decimal {
    type V = serde_json::Number;

    closed spec fn view(&self) -> serde_json::Number {
        self.number
    }
}

/// Is it no 64-bit integer?
pub open spec fn is_decimal(number: serde_json::Number) -> bool {
    number_contents(number) == JsonView::Decimal(number)
}

impl Decimal {
    #[verifier::type_invariant]
    spec fn holds_a_decimal(self) -> bool {
        is_decimal(self.number)
    }

    fn new(number: serde_json::Number) -> (r: Decimal)
        requires
            is_decimal(number),
        ensures
            r@ == number,
    {
        Decimal { number }
    }

    /// The number. It is no 64-bit integer.
    pub fn number(&self) -> (r: serde_json::Number)
        ensures
            r == self@,
            is_decimal(r),
    {
        proof {
            use_type_invariant(self);
        }
        self.number.clone()
    }

    /// The same number again.
    pub fn copy(&self) -> (r: Decimal)
        ensures
            r@ == self@,
    {
        Decimal::new(self.number())
    }
}

/// A JSON value.
pub enum Json {
    Null,
    Bool(bool),
    /// An integer from zero up.
    UInt(u64),
    /// An integer below zero.
    NegInt(i64),
    /// A number that is no 64-bit integer.
    Decimal(Decimal),
    Text(String),
    Array(Vec<Json>),
    /// Members in the order in which they were set; of two members with the
    /// same name the later one counts.
    Object(Vec<(String, Json)>),
}

/// What a JSON value is.
pub enum JsonView {
    Null,
    Bool(bool),
    Int(int),
    Decimal(serde_json::Number),
    Text(Seq<char>),
    Array(Seq<JsonView>),
    Object(Map<Seq<char>, JsonView>),
}

impl View for Json {
    type V = JsonView;

    open spec fn view(&self) -> JsonView
        decreases self,
    {
        match self {
            Json::Null => JsonView::Null,
            Json::Bool(b) => JsonView::Bool(*b),
            Json::UInt(n) => JsonView::Int(*n as int),
            Json::NegInt(n) => JsonView::Int(*n as int),
            Json::Decimal(d) => JsonView::Decimal(d@),
            Json::Text(s) => JsonView::Text(s@),
            Json::Array(items) => JsonView::Array(
                Seq::new(
                    items@.len(),
                    |i: int|
                        if 0 <= i < items@.len() {
                            items@[i].view()
                        } else {
                            JsonView::Null
                        },
                ),
            ),
            Json::Object(members) => JsonView::Object(members_view(members@)),
        }
    }
}

/// The members of an object as a map; of two with the same name the later one
/// counts.
pub open spec fn members_view(members: Seq<(String, Json)>) -> Map<Seq<char>, JsonView>
    decreases members,
{
    if members.len() == 0 {
        Map::empty()
    } else {
        members_view(members.drop_last()).insert(members.last().0@, members.last().1.view())
    }
}

/// What a `serde_json::Value` holds.
pub uninterp spec fn value_contents(v: serde_json::Value) -> JsonView;

/// What a `serde_json::Number` is: the 64-bit integer, or itself as a decimal.
pub uninterp spec fn number_contents(n: serde_json::Number) -> JsonView;

/// What `serde_json` reads from a text: the value, or the words of its error.
pub uninterp spec fn json_parse(text: Seq<char>) -> Result<JsonView, Seq<char>>;

/// The compact text that `serde_json` writes for a value.
pub uninterp spec fn json_text(v: JsonView) -> Seq<char>;

/// A `serde_json::Value` opened one level deep.
pub enum OpenValue {
    Null,
    Bool(bool),
    UInt(u64),
    NegInt(i64),
    Decimal(serde_json::Number),
    Text(String),
    Array(Vec<serde_json::Value>),
    Object(Vec<(String, serde_json::Value)>),
}

/// The members of an opened object as a map.
pub open spec fn open_members(members: Seq<(String, serde_json::Value)>) -> Map<Seq<char>, JsonView>
    decreases members.len(),
{
    if members.len() == 0 {
        Map::empty()
    } else {
        open_members(members.drop_last()).insert(
            members.last().0@,
            value_contents(members.last().1),
        )
    }
}

/// The value that was opened.
pub open spec fn opened(o: OpenValue) -> JsonView {
    match o {
        OpenValue::Null => JsonView::Null,
        OpenValue::Bool(b) => JsonView::Bool(b),
        OpenValue::UInt(n) => JsonView::Int(n as int),
        OpenValue::NegInt(n) => JsonView::Int(n as int),
        OpenValue::Decimal(d) => JsonView::Decimal(d),
        OpenValue::Text(s) => JsonView::Text(s@),
        OpenValue::Array(items) => JsonView::Array(
            items@.map_values(|v: serde_json::Value| value_contents(v)),
        ),
        OpenValue::Object(members) => JsonView::Object(open_members(members@)),
    }
}

/// Tells the variants of `serde_json::Value` apart, and of its `Number` the
/// integers (`as_u64`, `as_i64`) from the rest. What comes out is what the
/// value holds, one level deep; a member's name occurs once, and a decimal is
/// no integer.
#[verifier::external_body]
fn open_value(v: serde_json::Value) -> (r: OpenValue)
    ensures
        opened(r) == value_contents(v),
        r matches OpenValue::Object(members) ==> names_distinct(members@),
        r matches OpenValue::Decimal(n) ==> is_decimal(n),
{
    match v {
        serde_json::Value::Null => OpenValue::Null,
        serde_json::Value::Bool(b) => OpenValue::Bool(b),
        serde_json::Value::Number(n) => match (n.as_u64(), n.as_i64()) {
            (Some(u), _) => OpenValue::UInt(u),
            (None, Some(i)) => OpenValue::NegInt(i),
            (None, None) => OpenValue::Decimal(n),
        },
        serde_json::Value::String(s) => OpenValue::Text(s),
        serde_json::Value::Array(items) => OpenValue::Array(items),
        serde_json::Value::Object(members) => OpenValue::Object(members.into_iter().collect()),
    }
}

/// Builds a `serde_json::Value` from its parts: `Number::from` for an integer,
/// the variants of `Value` for the rest. The members of an object, no two of
/// one name, are collected into its `Map`.
#[verifier::external_body]
fn close_value(o: OpenValue) -> (r: serde_json::Value)
    requires
        o matches OpenValue::Decimal(n) ==> is_decimal(n),
        o matches OpenValue::Object(members) ==> names_distinct(members@),
    ensures
        value_contents(r) == opened(o),
{
    match o {
        OpenValue::Null => serde_json::Value::Null,
        OpenValue::Bool(b) => serde_json::Value::Bool(b),
        OpenValue::UInt(u) => serde_json::Value::Number(serde_json::Number::from(u)),
        OpenValue::NegInt(i) => serde_json::Value::Number(serde_json::Number::from(i)),
        OpenValue::Decimal(n) => serde_json::Value::Number(n),
        OpenValue::Text(s) => serde_json::Value::String(s),
        OpenValue::Array(items) => serde_json::Value::Array(items),
        OpenValue::Object(members) => serde_json::Value::Object(members.into_iter().collect()),
    }
}

/// `serde_json::from_str` into a `serde_json::Value`. The result is a function
/// of the text alone; an error is handed on as its words.
#[verifier::external_body]
fn read_value(text: &str) -> (r: Result<serde_json::Value, String>)
    ensures
        match r {
            Ok(v) => json_parse(text@) == Ok::<JsonView, Seq<char>>(value_contents(v)),
            Err(e) => json_parse(text@) == Err::<JsonView, Seq<char>>(e@),
        },
{
    serde_json::from_str::<serde_json::Value>(text).map_err(|e| e.to_string())
}

/// `Display` on `serde_json::Value` writes the value as compact JSON text,
/// which is a function of what the value holds.
#[verifier::external_body]
fn write_value(v: &serde_json::Value) -> (r: String)
    ensures
        r@ == json_text(value_contents(*v)),
{
    v.to_string()
}

/// `Value::Number`: a value that holds what the number is. That is an integer,
/// or the number itself.
#[verifier::external_body]
fn number_value(n: serde_json::Number) -> (r: serde_json::Value)
    ensures
        value_contents(r) == number_contents(n),
        value_contents(r) is Int || value_contents(r) == JsonView::Decimal(n),
{
    serde_json::Value::Number(n)
}

/// Does every member have a name of its own?
pub open spec fn names_distinct(members: Seq<(String, serde_json::Value)>) -> bool {
    forall|i: int, j: int|
        0 <= i < j < members.len() ==> #[trigger] members[i].0@ != #[trigger] members[j].0@
}

/// Where names are distinct, the map holds every member.
proof fn lemma_open_members(members: Seq<(String, serde_json::Value)>)
    requires
        names_distinct(members),
    ensures
        open_members(members).dom().finite(),
        forall|k: Seq<char>| #[trigger]
            open_members(members).dom().contains(k) ==> exists|i: int|
                0 <= i < members.len() && #[trigger] members[i].0@ == k,
        forall|i: int|
            0 <= i < members.len() ==> open_members(members).dom().contains(
                #[trigger] members[i].0@,
            ) && open_members(members)[members[i].0@] == value_contents(members[i].1),
    decreases members.len(),
{
    if members.len() > 0 {
        let rest = members.drop_last();
        assert forall|i: int, j: int| 0 <= i < j < rest.len() implies #[trigger] rest[i].0@
            != #[trigger] rest[j].0@ by {
            assert(rest[i] == members[i] && rest[j] == members[j]);
        }
        lemma_open_members(rest);
        assert forall|i: int| 0 <= i < members.len() implies open_members(members).dom().contains(
            #[trigger] members[i].0@,
        ) && open_members(members)[members[i].0@] == value_contents(members[i].1) by {
            if i < rest.len() {
                assert(rest[i] == members[i]);
            }
        }
        assert forall|k: Seq<char>| #[trigger]
            open_members(members).dom().contains(k) implies exists|i: int|
            0 <= i < members.len() && #[trigger] members[i].0@ == k by {
            if k == members.last().0@ {
                assert(members[members.len() - 1].0@ == k);
            } else {
                assert(open_members(rest).dom().contains(k));
                let i = choose|i: int| 0 <= i < rest.len() && #[trigger] rest[i].0@ == k;
                assert(members[i].0@ == k);
            }
        }
    }
}

/// A member that takes the place of the one of its name sets it in the map.
proof fn lemma_member_replaced(
    members: Seq<(String, serde_json::Value)>,
    j: int,
    member: (String, serde_json::Value),
)
    requires
        names_distinct(members),
        0 <= j < members.len(),
        members[j].0@ == member.0@,
    ensures
        names_distinct(members.update(j, member)),
        open_members(members.update(j, member)) == open_members(members).insert(
            member.0@,
            value_contents(member.1),
        ),
    decreases members.len(),
{
    let rest = members.drop_last();
    let new = members.update(j, member);
    assert(names_distinct(rest)) by {
        assert forall|a: int, b: int| 0 <= a < b < rest.len() implies #[trigger] rest[a].0@
            != #[trigger] rest[b].0@ by {
            assert(rest[a] == members[a] && rest[b] == members[b]);
        }
    }
    if j == members.len() - 1 {
        assert(new.drop_last() =~= rest);
        assert(open_members(new) =~= open_members(members).insert(
            member.0@,
            value_contents(member.1),
        ));
    } else {
        assert(new.drop_last() =~= rest.update(j, member));
        assert(members[j].0@ != members[members.len() - 1].0@);
        lemma_member_replaced(rest, j, member);
        assert(open_members(new) =~= open_members(members).insert(
            member.0@,
            value_contents(member.1),
        ));
    }
}

/// Sets a member: in the place of the one of its name, or behind the others.
fn set_member(members: &mut Vec<(String, serde_json::Value)>, name: String, value: serde_json::Value)
    requires
        names_distinct(old(members)@),
    ensures
        names_distinct(final(members)@),
        open_members(final(members)@) == open_members(old(members)@).insert(
            name@,
            value_contents(value),
        ),
{
    let ghost before = members@;
    let mut j: usize = 0;
    while j < members.len()
        invariant
            j <= members@.len(),
            members@ == before,
            before == old(members)@,
            names_distinct(before),
            forall|k: int| 0 <= k < j ==> (#[trigger] before[k]).0@ != name@,
        decreases members@.len() - j,
    {
        if same(&members[j].0, &name) {
            let member = (name, value);
            proof {
                lemma_member_replaced(before, j as int, member);
            }
            members.set(j, member);
            return;
        }
        j = j + 1;
    }
    members.push((name, value));
    assert(members@.drop_last() =~= before);
}

/// The library's value for one of `serde_json`.
fn of_value(v: serde_json::Value) -> (r: Json)
    ensures
        r@ == value_contents(v),
    decreases value_contents(v),
{
    let ghost whole = value_contents(v);
    match open_value(v) {
        OpenValue::Null => Json::Null,
        OpenValue::Bool(b) => Json::Bool(b),
        OpenValue::UInt(n) => Json::UInt(n),
        OpenValue::NegInt(n) => Json::NegInt(n),
        OpenValue::Decimal(d) => Json::Decimal(Decimal::new(d)),
        OpenValue::Text(s) => Json::Text(s),
        OpenValue::Array(items) => {
            let ghost parts = items@;
            let ghost inner = parts.map_values(|v: serde_json::Value| value_contents(v));
            let mut out: Vec<Json> = Vec::new();
            for item in it: items
                invariant
                    it.seq() == parts,
                    whole == JsonView::Array(inner),
                    value_contents(v) == whole,
                    inner == parts.map_values(|v: serde_json::Value| value_contents(v)),
                    out@.len() == it.index(),
                    forall|k: int| 0 <= k < out@.len() ==> (#[trigger] out@[k])@ == inner[k],
            {
                proof {
                    let k = it.index();
                    assert(inner[k] == value_contents(item));
                    assert(decreases_to!(whole => whole->Array_0));
                    assert(decreases_to!(inner => inner[k]));
                }
                out.push(of_value(item));
            }
            assert(Json::Array(out)@->Array_0 == inner);
            Json::Array(out)
        },
        OpenValue::Object(members) => {
            let ghost parts = members@;
            let mut out: Vec<(String, Json)> = Vec::new();
            proof {
                lemma_open_members(parts);
                assert(parts.take(0) == Seq::<(String, serde_json::Value)>::empty());
            }
            for member in it: members
                invariant
                    it.seq() == parts,
                    names_distinct(parts),
                    whole == JsonView::Object(open_members(parts)),
                    value_contents(v) == whole,
                    members_view(out@) == open_members(parts.take(it.index())),
            {
                let ghost k = it.index();
                proof {
                    lemma_open_members(parts);
                    let map = open_members(parts);
                    assert(map[parts[k].0@] == value_contents(parts[k].1));
                    assert(decreases_to!(whole => whole->Object_0));
                    assert(decreases_to!(map => map[parts[k].0@]));
                }
                let (name, value) = member;
                let ghost before = out@;
                out.push((name, of_value(value)));
                proof {
                    assert(out@.drop_last() == before);
                    assert(parts.take(k + 1).drop_last() == parts.take(k));
                }
            }
            assert(parts.take(parts.len() as int) == parts);
            Json::Object(out)
        },
    }
}

/// The value of `serde_json` for one of the library.
fn to_value(j: &Json) -> (r: serde_json::Value)
    ensures
        value_contents(r) == j@,
    decreases j,
{
    match j {
        Json::Null => close_value(OpenValue::Null),
        Json::Bool(b) => close_value(OpenValue::Bool(*b)),
        Json::UInt(n) => close_value(OpenValue::UInt(*n)),
        Json::NegInt(n) => close_value(OpenValue::NegInt(*n)),
        Json::Decimal(d) => close_value(OpenValue::Decimal(d.number())),
        Json::Text(s) => close_value(OpenValue::Text(s.clone())),
        Json::Array(items) => {
            let mut out: Vec<serde_json::Value> = Vec::new();
            let mut i: usize = 0;
            while i < items.len()
                invariant
                    *j == Json::Array(*items),
                    i <= items@.len(),
                    out@.len() == i,
                    forall|k: int|
                        0 <= k < i ==> value_contents(#[trigger] out@[k]) == items@[k]@,
                decreases items@.len() - i,
            {
                proof {
                    assert(decreases_to!(j => j->Array_0));
                    assert(decreases_to!(j->Array_0 => j->Array_0@));
                    assert(decreases_to!(j->Array_0@ => j->Array_0@[i as int]));
                }
                out.push(to_value(&items[i]));
                i = i + 1;
            }
            let ghost inner = out@.map_values(|v: serde_json::Value| value_contents(v));
            assert(inner == j@->Array_0);
            close_value(OpenValue::Array(out))
        },
        Json::Object(members) => {
            let mut out: Vec<(String, serde_json::Value)> = Vec::new();
            let mut i: usize = 0;
            while i < members.len()
                invariant
                    *j == Json::Object(*members),
                    i <= members@.len(),
                    names_distinct(out@),
                    open_members(out@) == members_view(members@.take(i as int)),
                decreases members@.len() - i,
            {
                proof {
                    let parts = j->Object_0@;
                    assert(decreases_to!(j => j->Object_0));
                    assert(decreases_to!(j->Object_0 => j->Object_0@));
                    assert(decreases_to!(parts => parts[i as int]));
                    assert(decreases_to!(parts[i as int] => parts[i as int].1));
                }
                set_member(&mut out, members[i].0.clone(), to_value(&members[i].1));
                i = i + 1;
                proof {
                    assert(members@.take(i as int).drop_last() == members@.take(i - 1));
                }
            }
            assert(members@.take(members@.len() as int) == members@);
            close_value(OpenValue::Object(out))
        },
    }
}

impl JsonView {
    /// The member `key`, where the value is an object that has one.
    pub open spec fn get(self, key: Seq<char>) -> Option<JsonView> {
        match self {
            JsonView::Object(m) => if m.dom().contains(key) {
                Some(m[key])
            } else {
                None
            },
            _ => None,
        }
    }

    /// The text, where the value is one.
    pub open spec fn as_text(self) -> Option<Seq<char>> {
        match self {
            JsonView::Text(s) => Some(s),
            _ => None,
        }
    }

    /// The number, where the value is an integer from zero up.
    pub open spec fn as_uint(self) -> Option<u64> {
        match self {
            JsonView::Int(n) => if 0 <= n <= u64::MAX {
                Some(n as u64)
            } else {
                None
            },
            _ => None,
        }
    }

    /// The truth value, where the value is one.
    pub open spec fn as_bool(self) -> Option<bool> {
        match self {
            JsonView::Bool(b) => Some(b),
            _ => None,
        }
    }

    /// The items, where the value is an array.
    pub open spec fn as_array(self) -> Option<Seq<JsonView>> {
        match self {
            JsonView::Array(s) => Some(s),
            _ => None,
        }
    }

    /// The text of the member `key`.
    pub open spec fn text_at(self, key: Seq<char>) -> Option<Seq<char>> {
        match self.get(key) {
            Some(v) => v.as_text(),
            None => None,
        }
    }

    /// The non-negative integer of the member `key`.
    pub open spec fn uint_at(self, key: Seq<char>) -> Option<u64> {
        match self.get(key) {
            Some(v) => v.as_uint(),
            None => None,
        }
    }

    /// The truth value of the member `key`.
    pub open spec fn bool_at(self, key: Seq<char>) -> Option<bool> {
        match self.get(key) {
            Some(v) => v.as_bool(),
            None => None,
        }
    }

    /// The items of the member `key`.
    pub open spec fn array_at(self, key: Seq<char>) -> Option<Seq<JsonView>> {
        match self.get(key) {
            Some(v) => v.as_array(),
            None => None,
        }
    }

    /// The member `key`, or null.
    pub open spec fn member(self, key: Seq<char>) -> JsonView {
        match self.get(key) {
            Some(v) => v,
            None => JsonView::Null,
        }
    }

    /// The object with one member set; a value that is no object stays as it is.
    pub open spec fn with(self, key: Seq<char>, value: JsonView) -> JsonView {
        match self {
            JsonView::Object(m) => JsonView::Object(m.insert(key, value)),
            other => other,
        }
    }

    /// The object without members.
    pub open spec fn object() -> JsonView {
        JsonView::Object(Map::empty())
    }
}

/// Does every member have a name of its own?
pub open spec fn members_distinct(members: Seq<(String, Json)>) -> bool {
    forall|i: int, j: int|
        0 <= i < j < members.len() ==> #[trigger] members[i].0@ != #[trigger] members[j].0@
}

/// A member that takes the place of the one of its name sets it in the map.
proof fn lemma_member_put(members: Seq<(String, Json)>, j: int, member: (String, Json))
    requires
        members_distinct(members),
        0 <= j < members.len(),
        members[j].0@ == member.0@,
    ensures
        members_distinct(members.update(j, member)),
        members_view(members.update(j, member)) == members_view(members).insert(
            member.0@,
            member.1@,
        ),
    decreases members.len(),
{
    let rest = members.drop_last();
    let new = members.update(j, member);
    assert(members_distinct(rest)) by {
        assert forall|a: int, b: int| 0 <= a < b < rest.len() implies #[trigger] rest[a].0@
            != #[trigger] rest[b].0@ by {
            assert(rest[a] == members[a] && rest[b] == members[b]);
        }
    }
    reveal_with_fuel(members_view, 2);
    assert(members_view(members) == members_view(rest).insert(
        members.last().0@,
        members.last().1@,
    ));
    assert(members_view(new) == members_view(new.drop_last()).insert(new.last().0@, new.last().1@));
    if j == members.len() - 1 {
        assert(new.drop_last() =~= rest);
    } else {
        assert(new.drop_last() =~= rest.update(j, member));
        assert(members[j].0@ != members[members.len() - 1].0@);
        lemma_member_put(rest, j, member);
    }
    assert(members_view(new) =~= members_view(members).insert(member.0@, member.1@));
}

/// Puts a member in: in the place of the one of its name, or behind the others.
pub fn put_member(members: &mut Vec<(String, Json)>, name: String, value: Json)
    requires
        members_distinct(old(members)@),
    ensures
        members_distinct(final(members)@),
        members_view(final(members)@) == members_view(old(members)@).insert(name@, value@),
{
    let ghost before = members@;
    let mut j: usize = 0;
    while j < members.len()
        invariant
            j <= members@.len(),
            members@ == before,
            before == old(members)@,
            members_distinct(before),
            forall|k: int| 0 <= k < j ==> (#[trigger] before[k]).0@ != name@,
        decreases members@.len() - j,
    {
        if same(&members[j].0, &name) {
            let member = (name, value);
            proof {
                lemma_member_put(before, j as int, member);
            }
            members.set(j, member);
            return;
        }
        j = j + 1;
    }
    members.push((name, value));
    assert(members@.drop_last() =~= before);
}

/// An optional borrowed value as its view.
pub open spec fn opt_json(o: Option<&Json>) -> Option<JsonView> {
    match o {
        Some(j) => Some(j@),
        None => None,
    }
}

/// The views of the items of an array.
pub open spec fn json_views(items: Seq<Json>) -> Seq<JsonView> {
    items.map_values(|j: Json| j@)
}

/// The view of an array is the sequence of its items' views.
pub proof fn lemma_array_view(items: Vec<Json>)
    ensures
        Json::Array(items)@ == JsonView::Array(json_views(items@)),
{
    assert(Json::Array(items)@->Array_0 == json_views(items@));
}

/// A name that occurs among the members is in the map, with the value of its
/// last occurrence.
proof fn lemma_members_lookup(members: Seq<(String, Json)>, key: Seq<char>, n: int)
    requires
        0 <= n <= members.len(),
        forall|k: int| n <= k < members.len() ==> #[trigger] members[k].0@ != key,
    ensures
        n > 0 && members[n - 1].0@ == key ==> {
            &&& members_view(members).dom().contains(key)
            &&& members_view(members)[key] == members[n - 1].1@
        },
        n == 0 ==> !members_view(members).dom().contains(key),
    decreases members.len(),
{
    reveal_with_fuel(members_view, 2);
    if members.len() > 0 && members.len() > n {
        let rest = members.drop_last();
        assert(members[members.len() - 1].0@ != key);
        assert forall|k: int| n <= k < rest.len() implies #[trigger] rest[k].0@ != key by {
            assert(rest[k] == members[k]);
        }
        lemma_members_lookup(rest, key, n);
        if n > 0 {
            assert(rest[n - 1] == members[n - 1]);
        }
    }
}

impl Json {
    /// Reads a JSON text.
    pub fn parse(text: &str) -> (r: Result<Json, String>)
        ensures
            match r {
                Ok(j) => json_parse(text@) == Ok::<JsonView, Seq<char>>(j@),
                Err(e) => json_parse(text@) == Err::<JsonView, Seq<char>>(e@),
            },
    {
        match read_value(text) {
            Ok(v) => Ok(of_value(v)),
            Err(e) => Err(e),
        }
    }

    /// A number of `serde_json` as a value: an integer where it is one, and else
    /// the number itself.
    pub fn number(n: serde_json::Number) -> (r: Json)
        ensures
            r@ == number_contents(n),
            r@ is Int || r@ == JsonView::Decimal(n),
    {
        of_value(number_value(n))
    }

    /// Writes the value as compact JSON text.
    pub fn render(&self) -> (r: String)
        ensures
            r@ == json_text(self@),
    {
        write_value(&to_value(self))
    }

    /// The same value again.
    pub fn copy(&self) -> (r: Json)
        ensures
            r@ == self@,
        decreases self,
    {
        match self {
            Json::Null => Json::Null,
            Json::Bool(b) => Json::Bool(*b),
            Json::UInt(n) => Json::UInt(*n),
            Json::NegInt(n) => Json::NegInt(*n),
            Json::Decimal(d) => Json::Decimal(d.copy()),
            Json::Text(s) => Json::Text(s.clone()),
            Json::Array(items) => {
                let mut out: Vec<Json> = Vec::new();
                let mut i: usize = 0;
                while i < items.len()
                    invariant
                        *self == Json::Array(*items),
                        i <= items@.len(),
                        out@.len() == i,
                        forall|k: int| 0 <= k < i ==> (#[trigger] out@[k])@ == items@[k]@,
                    decreases items@.len() - i,
                {
                    proof {
                        assert(decreases_to!(self => self->Array_0));
                        assert(decreases_to!(self->Array_0 => self->Array_0@));
                        assert(decreases_to!(self->Array_0@ => self->Array_0@[i as int]));
                    }
                    out.push(items[i].copy());
                    i = i + 1;
                }
                assert(Json::Array(out)@->Array_0 == self@->Array_0);
                Json::Array(out)
            },
            Json::Object(members) => {
                let mut out: Vec<(String, Json)> = Vec::new();
                let mut i: usize = 0;
                while i < members.len()
                    invariant
                        *self == Json::Object(*members),
                        i <= members@.len(),
                        members_view(out@) == members_view(members@.take(i as int)),
                    decreases members@.len() - i,
                {
                    let ghost before = out@;
                    proof {
                        let parts = self->Object_0@;
                        assert(decreases_to!(self => self->Object_0));
                        assert(decreases_to!(self->Object_0 => self->Object_0@));
                        assert(decreases_to!(parts => parts[i as int]));
                        assert(decreases_to!(parts[i as int] => parts[i as int].1));
                    }
                    out.push((members[i].0.clone(), members[i].1.copy()));
                    i = i + 1;
                    proof {
                        assert(out@.drop_last() == before);
                        assert(members@.take(i as int).drop_last() == members@.take(i - 1));
                    }
                }
                assert(members@.take(members@.len() as int) == members@);
                Json::Object(out)
            },
        }
    }

    /// The member `key`, where the value is an object that has one.
    pub fn get(&self, key: &str) -> (r: Option<&Json>)
        ensures
            opt_json(r) == self@.get(key@),
    {
        match self {
            Json::Object(members) => {
                let mut n: usize = members.len();
                while n > 0
                    invariant
                        *self == Json::Object(*members),
                        n <= members@.len(),
                        forall|k: int|
                            n <= k < members@.len() ==> #[trigger] members@[k].0@ != key@,
                    decreases n,
                {
                    if same(&members[n - 1].0, key) {
                        proof {
                            lemma_members_lookup(members@, key@, n as int);
                        }
                        return Some(&members[n - 1].1);
                    }
                    n = n - 1;
                }
                proof {
                    lemma_members_lookup(members@, key@, 0);
                }
                None
            },
            _ => None,
        }
    }

    /// The text, where the value is one.
    pub fn as_text(&self) -> (r: Option<&String>)
        ensures
            match r {
                Some(s) => self@.as_text() == Some(s@),
                None => self@.as_text() is None,
            },
    {
        match self {
            Json::Text(s) => Some(s),
            _ => None,
        }
    }

    /// The number, where the value is an integer from zero up.
    pub fn as_uint(&self) -> (r: Option<u64>)
        ensures
            r == self@.as_uint(),
    {
        match self {
            Json::UInt(n) => Some(*n),
            Json::NegInt(n) => if *n >= 0 {
                Some(*n as u64)
            } else {
                None
            },
            _ => None,
        }
    }

    /// The truth value, where the value is one.
    pub fn as_bool(&self) -> (r: Option<bool>)
        ensures
            r == self@.as_bool(),
    {
        match self {
            Json::Bool(b) => Some(*b),
            _ => None,
        }
    }

    /// The items, where the value is an array.
    pub fn as_array(&self) -> (r: Option<&Vec<Json>>)
        ensures
            match r {
                Some(v) => self@.as_array() == Some(json_views(v@)),
                None => self@.as_array() is None,
            },
    {
        match self {
            Json::Array(items) => {
                proof {
                    lemma_array_view(*items);
                }
                Some(items)
            },
            _ => None,
        }
    }

    /// Is the value an object?
    pub fn is_object(&self) -> (r: bool)
        ensures
            r == (self@ is Object),
    {
        match self {
            Json::Object(_) => true,
            _ => false,
        }
    }

    /// Is the value null?
    pub fn is_null(&self) -> (r: bool)
        ensures
            r == (self@ is Null),
    {
        match self {
            Json::Null => true,
            _ => false,
        }
    }

    /// The text of the member `key`.
    pub fn text_at(&self, key: &str) -> (r: Option<String>)
        ensures
            opt_view(r) == self@.text_at(key@),
    {
        match self.get(key) {
            Some(v) => match v.as_text() {
                Some(s) => Some(s.clone()),
                None => None,
            },
            None => None,
        }
    }

    /// The non-negative integer of the member `key`.
    pub fn uint_at(&self, key: &str) -> (r: Option<u64>)
        ensures
            r == self@.uint_at(key@),
    {
        match self.get(key) {
            Some(v) => v.as_uint(),
            None => None,
        }
    }

    /// The truth value of the member `key`.
    pub fn bool_at(&self, key: &str) -> (r: Option<bool>)
        ensures
            r == self@.bool_at(key@),
    {
        match self.get(key) {
            Some(v) => v.as_bool(),
            None => None,
        }
    }

    /// The items of the member `key`.
    pub fn array_at(&self, key: &str) -> (r: Option<&Vec<Json>>)
        ensures
            match r {
                Some(v) => self@.array_at(key@) == Some(json_views(v@)),
                None => self@.array_at(key@) is None,
            },
    {
        match self.get(key) {
            Some(v) => v.as_array(),
            None => None,
        }
    }

    /// The member `key`, or null.
    pub fn member(&self, key: &str) -> (r: Json)
        ensures
            r@ == self@.member(key@),
    {
        match self.get(key) {
            Some(v) => v.copy(),
            None => Json::Null,
        }
    }

    /// The object without members.
    pub fn object() -> (r: Json)
        ensures
            r@ == JsonView::object(),
    {
        let members: Vec<(String, Json)> = Vec::new();
        proof {
            reveal_with_fuel(members_view, 2);
            assert(members_view(members@) == Map::<Seq<char>, JsonView>::empty());
            assert(Json::Object(members)@ == JsonView::Object(members_view(members@)));
        }
        Json::Object(members)
    }

    /// A text value.
    pub fn text(s: &str) -> (r: Json)
        ensures
            r@ == JsonView::Text(s@),
    {
        Json::Text(s.to_owned())
    }

    /// The object with one member set; a value that is no object stays as it is.
    pub fn with(self, key: &str, value: Json) -> (r: Json)
        ensures
            r@ == self@.with(key@, value@),
    {
        match self {
            Json::Object(members) => {
                let ghost before = members@;
                let mut all = members;
                all.push((key.to_owned(), value));
                proof {
                    reveal_with_fuel(members_view, 2);
                    assert(all@.drop_last() == before);
                    assert(members_view(all@) == members_view(before).insert(key@, value@));
                    assert(Json::Object(all)@ == JsonView::Object(members_view(all@)));
                }
                Json::Object(all)
            },
            other => other,
        }
    }

    /// An object with the members of another put over its own; a value that
    /// is no object stays as it is.
    pub fn merge(self, extra: Json) -> (r: Json)
        ensures
            r@ == (match (self@, extra@) {
                (JsonView::Object(b), JsonView::Object(e)) => JsonView::Object(
                    b.union_prefer_right(e),
                ),
                (other, _) => other,
            }),
    {
        match (self, extra) {
            (Json::Object(base), Json::Object(more)) => {
                let ghost start = base@;
                let ghost added = more@;
                let mut all = base;
                proof {
                    reveal_with_fuel(members_view, 2);
                    assert(members_view(all@) =~= members_view(start).union_prefer_right(
                        members_view(added.take(0)),
                    ));
                }
                for member in it: more
                    invariant
                        it.seq() == added,
                        members_view(all@) == members_view(start).union_prefer_right(
                            members_view(added.take(it.index())),
                        ),
                {
                    let ghost k = it.index();
                    let ghost before = all@;
                    all.push(member);
                    proof {
                        reveal_with_fuel(members_view, 2);
                        assert(all@.drop_last() == before);
                        assert(added.take(k + 1).drop_last() == added.take(k));
                        assert(members_view(all@) =~= members_view(start).union_prefer_right(
                            members_view(added.take(k + 1)),
                        ));
                    }
                }
                proof {
                    assert(added.take(added.len() as int) == added);
                    assert(Json::Object(all)@ == JsonView::Object(members_view(all@)));
                    assert(self@ == JsonView::Object(members_view(start)));
                    assert(extra@ == JsonView::Object(members_view(added)));
                }
                Json::Object(all)
            },
            (other, _) => other,
        }
    }
}

/// An array of texts.
pub open spec fn text_array(texts: Seq<Seq<char>>) -> JsonView {
    JsonView::Array(texts.map_values(|t: Seq<char>| JsonView::Text(t)))
}

/// An array of texts.
pub fn array_of_texts(texts: &Vec<String>) -> (r: Json)
    ensures
        r@ == text_array(views(texts@)),
{
    let mut out: Vec<Json> = Vec::new();
    let mut i: usize = 0;
    while i < texts.len()
        invariant
            i <= texts@.len(),
            out@.len() == i,
            forall|k: int| 0 <= k < i ==> (#[trigger] out@[k])@ == JsonView::Text(texts@[k]@),
        decreases texts@.len() - i,
    {
        out.push(Json::Text(texts[i].clone()));
        i = i + 1;
    }
    proof {
        lemma_array_view(out);
        assert(json_views(out@) =~= views(texts@).map_values(|t: Seq<char>| JsonView::Text(t)));
    }
    Json::Array(out)
}

/// An object holds what was put in, under the name that it was put in under; what it
/// held under other names stays. What is no object stays as it is.
pub proof fn law_members_are_found_again(
    base: Json,
    key: &str,
    value: Json,
    r: Json,
    other: Seq<char>,
)
    requires
        call_ensures(Json::with, (base, key, value), r),
    ensures
        base@ is Object ==> r@.get(key@) == Some(value@),
        other != key@ ==> r@.get(other) == base@.get(other),
        !(base@ is Object) ==> r@ == base@,
{
}

/// Of two objects put together the second one's members count; the first one's others
/// stay.
pub proof fn law_later_members_count(base: Json, extra: Json, r: Json, key: Seq<char>)
    requires
        call_ensures(Json::merge, (base, extra), r),
        base@ is Object,
        extra@ is Object,
    ensures
        extra@.get(key) is Some ==> r@.get(key) == extra@.get(key),
        extra@.get(key) is None ==> r@.get(key) == base@.get(key),
{
}

/// A member is read only as what it is: a text as a text, an integer from zero up as a
/// number, a truth value as one; and else as nothing.
pub proof fn law_members_are_read_as_they_are(
    j: Json,
    key: &str,
    t: Option<String>,
    n: Option<u64>,
    b: Option<bool>,
)
    requires
        call_ensures(Json::text_at, (&j, key), t),
        call_ensures(Json::uint_at, (&j, key), n),
        call_ensures(Json::bool_at, (&j, key), b),
    ensures
        match j@.get(key@) {
            Some(JsonView::Text(s)) => t is Some && t->0@ == s && n is None && b is None,
            Some(JsonView::Int(i)) => t is None && b is None && (n is Some <==> 0 <= i
                <= 0xffff_ffff_ffff_ffff) && (n is Some ==> n->0 == i),
            Some(JsonView::Bool(v)) => t is None && n is None && b == Some(v),
            _ => t is None && n is None && b is None,
        },
{
}

} // verus!
