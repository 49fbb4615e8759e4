//! The parameters of a tool and the schema that describes them.

use crate::json::{array_of_texts, text_array, Json, JsonView};
use crate::text::views;
use vstd::prelude::*;

verus! {

/// What a parameter takes.
#[derive(Debug, Clone, Copy, PartialEq, Eq, Structural)]
pub enum ParamKind {
    Text,
    Integer,
    Number,
    Boolean,
    TextList,
}

impl ParamKind {
    /// The name of the kind in a schema.
    pub open spec fn name(self) -> Seq<char> {
        match self {
            ParamKind::Text => "string"@,
            ParamKind::Integer => "integer"@,
            ParamKind::Number => "number"@,
            ParamKind::Boolean => "boolean"@,
            ParamKind::TextList => "array"@,
        }
    }

    fn as_str(self) -> (r: &'static str)
        ensures
            r@ == self.name(),
    {
        match self {
            ParamKind::Text => "string",
            ParamKind::Integer => "integer",
            ParamKind::Number => "number",
            ParamKind::Boolean => "boolean",
            ParamKind::TextList => "array",
        }
    }
}

/// One parameter of a tool.
#[derive(Debug)]
pub struct Param {
    name: String,
    kind: ParamKind,
    about: Option<String>,
    minimum: Option<u64>,
    maximum: Option<u64>,
    count: Option<u64>,
    flag: Option<bool>,
    choices: Vec<String>,
    optional: bool,
    needed: bool,
}

/// [`Param`] taken by its views.
pub struct ParamView {
    pub name: Seq<char>,
    pub kind: ParamKind,
    pub about: Option<Seq<char>>,
    pub minimum: Option<u64>,
    pub maximum: Option<u64>,
    /// The number that is used where none is given.
    pub count: Option<u64>,
    /// The switch position that is used where none is given.
    pub flag: Option<bool>,
    pub choices: Seq<Seq<char>>,
    pub optional: bool,
    pub needed: bool,
}

impl ParamView {
    /// A parameter of which only the kind is said.
    pub open spec fn new(name: Seq<char>, kind: ParamKind) -> ParamView {
        ParamView {
            name,
            kind,
            about: None,
            minimum: None,
            maximum: None,
            count: None,
            flag: None,
            choices: Seq::empty(),
            optional: false,
            needed: false,
        }
    }

    /// The same with a description.
    pub open spec fn about(self, words: Seq<char>) -> ParamView {
        ParamView { about: Some(words), ..self }
    }

    /// The same with a least value.
    pub open spec fn at_least(self, n: u64) -> ParamView {
        ParamView { minimum: Some(n), ..self }
    }

    /// The same with a greatest value.
    pub open spec fn at_most(self, n: u64) -> ParamView {
        ParamView { maximum: Some(n), ..self }
    }

    /// The same with a number to fall back on.
    pub open spec fn or_count(self, n: u64) -> ParamView {
        ParamView { count: Some(n), ..self }
    }

    /// The same with a switch position to fall back on.
    pub open spec fn or_flag(self, b: bool) -> ParamView {
        ParamView { flag: Some(b), ..self }
    }

    /// The same with one more text that is taken.
    pub open spec fn choice(self, text: Seq<char>) -> ParamView {
        ParamView { choices: self.choices.push(text), ..self }
    }

    /// The same, marked as one that may be left out.
    pub open spec fn optional(self) -> ParamView {
        ParamView { optional: true, ..self }
    }

    /// The same, as one that has to be given.
    pub open spec fn needed(self) -> ParamView {
        ParamView { needed: true, ..self }
    }
}

impl View for Param {
    type V = ParamView;

    closed spec fn view(&self) -> ParamView {
        ParamView {
            name: self.name@,
            kind: self.kind,
            about: crate::text::opt_view(self.about),
            minimum: self.minimum,
            maximum: self.maximum,
            count: self.count,
            flag: self.flag,
            choices: views(self.choices@),
            optional: self.optional,
            needed: self.needed,
        }
    }
}

impl Param {
    /// A parameter of which only the kind is said.
    pub fn new(name: &str, kind: ParamKind) -> (r: Param)
        ensures
            r@ == ParamView::new(name@, kind),
    {
        let choices: Vec<String> = Vec::new();
        assert(views(choices@) =~= Seq::<Seq<char>>::empty());
        Param {
            name: name.to_string(),
            kind,
            about: None,
            minimum: None,
            maximum: None,
            count: None,
            flag: None,
            choices,
            optional: false,
            needed: false,
        }
    }

    /// The same with a description.
    pub fn about(self, words: &str) -> (r: Param)
        ensures
            r@ == self@.about(words@),
    {
        Param { about: Some(words.to_string()), ..self }
    }

    /// The same with a least value.
    pub fn at_least(self, n: u64) -> (r: Param)
        ensures
            r@ == self@.at_least(n),
    {
        Param { minimum: Some(n), ..self }
    }

    /// The same with a greatest value.
    pub fn at_most(self, n: u64) -> (r: Param)
        ensures
            r@ == self@.at_most(n),
    {
        Param { maximum: Some(n), ..self }
    }

    /// The same with a number to fall back on.
    pub fn or_count(self, n: u64) -> (r: Param)
        ensures
            r@ == self@.or_count(n),
    {
        Param { count: Some(n), ..self }
    }

    /// The same with a switch position to fall back on.
    pub fn or_flag(self, b: bool) -> (r: Param)
        ensures
            r@ == self@.or_flag(b),
    {
        Param { flag: Some(b), ..self }
    }

    /// The same with one more text that is taken.
    pub fn choice(self, text: &str) -> (r: Param)
        ensures
            r@ == self@.choice(text@),
    {
        let mut out = self;
        let ghost before = out.choices@;
        out.choices.push(text.to_string());
        assert(views(out.choices@) =~= views(before).push(text@));
        out
    }

    /// The same, marked as one that may be left out.
    pub fn optional(self) -> (r: Param)
        ensures
            r@ == self@.optional(),
    {
        Param { optional: true, ..self }
    }

    /// The same, as one that has to be given.
    pub fn needed(self) -> (r: Param)
        ensures
            r@ == self@.needed(),
    {
        Param { needed: true, ..self }
    }
}

/// An object with one more member, where there is a value for it.
pub open spec fn with_given(base: JsonView, key: Seq<char>, value: Option<JsonView>) -> JsonView {
    match value {
        Some(v) => base.with(key, v),
        None => base,
    }
}

/// An object with one more member, where there is a value for it.
pub fn add_given(base: Json, key: &str, value: Option<Json>) -> (r: Json)
    ensures
        r@ == with_given(base@, key@, match value {
            Some(v) => Some(v@),
            None => None,
        }),
{
    match value {
        Some(v) => base.with(key, v),
        None => base,
    }
}

/// A number of a schema.
pub open spec fn count_json(n: Option<u64>) -> Option<JsonView> {
    match n {
        Some(n) => Some(JsonView::Int(n as int)),
        None => None,
    }
}

fn json_of_count(n: Option<u64>) -> (r: Option<Json>)
    ensures
        count_json(n) == (match r {
            Some(v) => Some(v@),
            None => None,
        }),
{
    match n {
        Some(n) => Some(Json::UInt(n)),
        None => None,
    }
}

/// The items of a list of texts.
pub open spec fn text_items() -> JsonView {
    JsonView::object().with("type"@, JsonView::Text("string"@))
}

/// What a schema says of one parameter.
pub open spec fn property_view(p: ParamView) -> JsonView {
    let base = JsonView::object().with("type"@, JsonView::Text(p.kind.name()));
    let base = if p.kind == ParamKind::TextList {
        base.with("items"@, text_items())
    } else {
        base
    };
    let base = if p.choices.len() > 0 {
        base.with("enum"@, text_array(p.choices))
    } else {
        base
    };
    let base = with_given(base, "minimum"@, count_json(p.minimum));
    let base = with_given(base, "maximum"@, count_json(p.maximum));
    let base = with_given(base, "default"@, count_json(p.count));
    let base = match p.flag {
        Some(b) => base.with("default"@, JsonView::Bool(b)),
        None => base,
    };
    let base = if p.optional {
        base.with("optional"@, JsonView::Bool(true))
    } else {
        base
    };
    match p.about {
        Some(words) => base.with("description"@, JsonView::Text(words)),
        None => base,
    }
}

/// What a schema says of one parameter.
pub fn property(p: &Param) -> (r: Json)
    ensures
        r@ == property_view(p@),
{
    let mut base = Json::object().with("type", Json::text(p.kind.as_str()));
    if let ParamKind::TextList = p.kind {
        base = base.with("items", Json::object().with("type", Json::text("string")));
    }
    if p.choices.len() > 0 {
        base = base.with("enum", array_of_texts(&p.choices));
    }
    base = add_given(base, "minimum", json_of_count(p.minimum));
    base = add_given(base, "maximum", json_of_count(p.maximum));
    base = add_given(base, "default", json_of_count(p.count));
    if let Some(b) = p.flag {
        base = base.with("default", Json::Bool(b));
    }
    if p.optional {
        base = base.with("optional", Json::Bool(true));
    }
    match &p.about {
        Some(words) => base.with("description", Json::text(words)),
        None => base,
    }
}

/// What a schema says of all parameters.
pub open spec fn properties_view(params: Seq<ParamView>) -> JsonView
    decreases params.len(),
{
    if params.len() == 0 {
        JsonView::object()
    } else {
        properties_view(params.drop_last()).with(params.last().name, property_view(params.last()))
    }
}

/// The names of the parameters that have to be given.
pub open spec fn needed_names(params: Seq<ParamView>) -> Seq<Seq<char>>
    decreases params.len(),
{
    if params.len() == 0 {
        Seq::empty()
    } else if params.last().needed {
        needed_names(params.drop_last()).push(params.last().name)
    } else {
        needed_names(params.drop_last())
    }
}

/// The parameters taken by their views.
pub open spec fn param_views(params: Seq<Param>) -> Seq<ParamView> {
    params.map_values(|p: Param| p@)
}

/// The schema of a tool with these parameters and no others.
pub open spec fn schema_view(params: Seq<ParamView>) -> JsonView {
    let base = JsonView::object().with("type"@, JsonView::Text("object"@)).with(
        "properties"@,
        properties_view(params),
    ).with("additionalProperties"@, JsonView::Bool(false));
    if needed_names(params).len() > 0 {
        base.with("required"@, text_array(needed_names(params)))
    } else {
        base
    }
}

/// The schema of a tool with these parameters and no others.
pub fn input_schema(params: &Vec<Param>) -> (r: Json)
    ensures
        r@ == schema_view(param_views(params@)),
{
    let ghost all = param_views(params@);
    let mut properties = Json::object();
    let mut names: Vec<String> = Vec::new();
    let mut i: usize = 0;
    proof {
        assert(all.take(0).len() == 0);
        assert(views(names@) =~= Seq::<Seq<char>>::empty());
    }
    while i < params.len()
        invariant
            all == param_views(params@),
            i <= params@.len(),
            properties@ == properties_view(all.take(i as int)),
            views(names@) == needed_names(all.take(i as int)),
        decreases params@.len() - i,
    {
        let p = &params[i];
        let ghost before = names@;
        properties = properties.with(&p.name, property(p));
        if p.needed {
            names.push(p.name.clone());
        }
        proof {
            assert(all.take(i + 1).drop_last() =~= all.take(i as int));
            assert(all.take(i + 1).last() == p@);
            if p.needed {
                assert(views(names@) =~= views(before).push(p.name@));
            }
        }
        i = i + 1;
    }
    assert(all.take(all.len() as int) =~= all);
    let base = Json::object().with("type", Json::text("object")).with("properties", properties).with(
        "additionalProperties",
        Json::Bool(false),
    );
    assert(views(names@).len() == names@.len());
    if names.len() > 0 {
        base.with("required", array_of_texts(&names))
    } else {
        base
    }
}

/// The schema of a tool whose parameters are read elsewhere.
pub open spec fn open_schema_view() -> JsonView {
    JsonView::object().with("type"@, JsonView::Text("object"@))
}

/// The schema of a tool whose parameters are read elsewhere.
pub fn open_schema() -> (r: Json)
    ensures
        r@ == open_schema_view(),
{
    Json::object().with("type", Json::text("object"))
}

/// What is said of a parameter is said in the schema: its kind, its bounds, what it
/// falls back on, what it takes and its description; and nothing that was not said.
pub proof fn law_parameters_are_described(p: Param, r: Json)
    requires
        call_ensures(property, (&p,), r),
    ensures
        r@.text_at("type"@) == Some("string"@) <==> p@.kind == ParamKind::Text,
        r@.text_at("type"@) == Some("integer"@) <==> p@.kind == ParamKind::Integer,
        r@.text_at("type"@) == Some("number"@) <==> p@.kind == ParamKind::Number,
        r@.text_at("type"@) == Some("boolean"@) <==> p@.kind == ParamKind::Boolean,
        r@.text_at("type"@) == Some("array"@) <==> p@.kind == ParamKind::TextList,
        r@.get("items"@) is Some <==> p@.kind == ParamKind::TextList,
        r@.uint_at("minimum"@) == p@.minimum,
        r@.get("minimum"@) is Some <==> p@.minimum is Some,
        r@.uint_at("maximum"@) == p@.maximum,
        r@.get("maximum"@) is Some <==> p@.maximum is Some,
        p@.flag is None ==> r@.uint_at("default"@) == p@.count,
        p@.flag is Some ==> r@.bool_at("default"@) == p@.flag,
        r@.text_at("description"@) == p@.about,
        r@.get("enum"@) is Some <==> p@.choices.len() > 0,
        p@.choices.len() > 0 ==> r@.get("enum"@) == Some(text_array(p@.choices)),
        r@.get("optional"@) is Some <==> p@.optional,
{
    reveal_strlit("type");
    assert("type"@.len() == 4);
    reveal_strlit("items");
    assert("items"@.len() == 5);
    reveal_strlit("enum");
    assert("enum"@.len() == 4);
    reveal_strlit("minimum");
    assert("minimum"@.len() == 7);
    reveal_strlit("maximum");
    assert("maximum"@.len() == 7);
    reveal_strlit("default");
    assert("default"@.len() == 7);
    reveal_strlit("optional");
    assert("optional"@.len() == 8);
    reveal_strlit("description");
    assert("description"@.len() == 11);
    assert("type"@[0] != "enum"@[0]);
    assert("minimum"@[1] != "maximum"@[1]);
    assert("minimum"@[0] != "default"@[0]);
    assert("maximum"@[0] != "default"@[0]);
    reveal_strlit("string");
    assert("string"@.len() == 6);
    reveal_strlit("integer");
    assert("integer"@.len() == 7);
    reveal_strlit("number");
    assert("number"@.len() == 6);
    reveal_strlit("boolean");
    assert("boolean"@.len() == 7);
    reveal_strlit("array");
    assert("array"@.len() == 5);
    assert("string"@[0] != "number"@[0]);
    assert("integer"@[0] != "boolean"@[0]);
}

/// A schema is one of an object with just these parameters, each described under its
/// name; those that have to be given are named.
pub proof fn law_schemas_hold_every_parameter(params: Vec<Param>, r: Json, i: int)
    requires
        call_ensures(input_schema, (&params,), r),
        0 <= i < params@.len(),
        forall|j: int|
            0 <= j < params@.len() && j != i ==> (#[trigger] params@[j])@.name != params@[i]@.name,
    ensures
        r@.text_at("type"@) == Some("object"@),
        r@.bool_at("additionalProperties"@) == Some(false),
        r@.member("properties"@).get(params@[i]@.name) == Some(property_view(params@[i]@)),
        params@[i]@.needed ==> r@.get("required"@) is Some,
        needed_names(param_views(params@)).contains(params@[i]@.name) <==> params@[i]@.needed,
        r@.get("required"@) is Some ==> r@.get("required"@) == Some(
            text_array(needed_names(param_views(params@))),
        ),
{
    reveal_strlit("type");
    assert("type"@.len() == 4);
    reveal_strlit("properties");
    assert("properties"@.len() == 10);
    reveal_strlit("additionalProperties");
    assert("additionalProperties"@.len() == 20);
    reveal_strlit("required");
    assert("required"@.len() == 8);
    let all = param_views(params@);
    assert(all[i] == params@[i]@);
    assert forall|j: int| 0 <= j < all.len() && j != i implies (#[trigger] all[j]).name
        != all[i].name by {
        assert(all[j] == params@[j]@);
    }
    lemma_property_of(all, i);
    lemma_needed_of(all, i);
}

proof fn lemma_property_of(params: Seq<ParamView>, i: int)
    requires
        0 <= i < params.len(),
        forall|j: int|
            0 <= j < params.len() && j != i ==> (#[trigger] params[j]).name != params[i].name,
    ensures
        properties_view(params) is Object,
        properties_view(params).get(params[i].name) == Some(property_view(params[i])),
    decreases params.len(),
{
    let rest = params.drop_last();
    lemma_is_object(rest);
    if i < rest.len() {
        assert(rest[i] == params[i]);
        assert forall|j: int| 0 <= j < rest.len() && j != i implies (#[trigger] rest[j]).name
            != rest[i].name by {
            assert(rest[j] == params[j]);
        }
        lemma_property_of(rest, i);
        assert(params[params.len() - 1].name != params[i].name);
    }
}

proof fn lemma_is_object(params: Seq<ParamView>)
    ensures
        properties_view(params) is Object,
    decreases params.len(),
{
    if params.len() > 0 {
        lemma_is_object(params.drop_last());
    }
}

proof fn lemma_needed_of(params: Seq<ParamView>, i: int)
    requires
        0 <= i < params.len(),
        forall|j: int|
            0 <= j < params.len() && j != i ==> (#[trigger] params[j]).name != params[i].name,
    ensures
        needed_names(params).contains(params[i].name) <==> params[i].needed,
    decreases params.len(),
{
    let rest = params.drop_last();
    let before = needed_names(rest);
    let name = params[i].name;
    if i < rest.len() {
        assert(rest[i] == params[i]);
        assert forall|j: int| 0 <= j < rest.len() && j != i implies (#[trigger] rest[j]).name
            != rest[i].name by {
            assert(rest[j] == params[j]);
        }
        lemma_needed_of(rest, i);
        assert(params[params.len() - 1].name != name);
        if params.last().needed {
            let after = before.push(params.last().name);
            if before.contains(name) {
                let k = choose|k: int| 0 <= k < before.len() && before[k] == name;
                assert(after[k] == name);
            }
            if after.contains(name) {
                let k = choose|k: int| 0 <= k < after.len() && after[k] == name;
                assert(before[k] == name);
            }
        }
    } else {
        assert forall|j: int| 0 <= j < rest.len() implies (#[trigger] rest[j]).name != name by {
            assert(rest[j] == params[j]);
        }
        lemma_needed_are_named(rest, name);
        if params.last().needed {
            assert(before.push(name)[before.len() as int] == name);
        }
    }
}

proof fn lemma_needed_are_named(params: Seq<ParamView>, name: Seq<char>)
    requires
        forall|j: int| 0 <= j < params.len() ==> (#[trigger] params[j]).name != name,
    ensures
        !needed_names(params).contains(name),
    decreases params.len(),
{
    if params.len() > 0 {
        let rest = params.drop_last();
        assert forall|j: int| 0 <= j < rest.len() implies (#[trigger] rest[j]).name != name by {
            assert(rest[j] == params[j]);
        }
        lemma_needed_are_named(rest, name);
        assert(params[params.len() - 1].name != name);
    }
}

/// A parameter begins with its name and kind alone: nothing bounds it, nothing stands in
/// for it, and it need not be given.
pub proof fn law_parameters_begin_plain(name: &str, kind: ParamKind, r: Param)
    requires
        call_ensures(Param::new, (name, kind), r),
    ensures
        r@.name == name@,
        r@.kind == kind,
        r@.about is None,
        r@.minimum is None && r@.maximum is None,
        r@.count is None && r@.flag is None,
        r@.choices.len() == 0,
        !r@.optional && !r@.needed,
{
}

/// Each thing that is said of a parameter changes that alone.
pub proof fn law_parameters_are_told_one_thing(p: Param, n: u64, text: &str)
    ensures
        forall|r: Param| #[trigger]
            call_ensures(Param::at_least, (p, n), r) ==> r@.minimum == Some(n) && r@.maximum
                == p@.maximum && r@.count == p@.count && r@.needed == p@.needed && r@.name
                == p@.name,
        forall|r: Param| #[trigger]
            call_ensures(Param::at_most, (p, n), r) ==> r@.maximum == Some(n) && r@.minimum
                == p@.minimum && r@.count == p@.count && r@.needed == p@.needed && r@.name
                == p@.name,
        forall|r: Param| #[trigger]
            call_ensures(Param::or_count, (p, n), r) ==> r@.count == Some(n) && r@.minimum
                == p@.minimum && r@.maximum == p@.maximum && r@.needed == p@.needed && r@.name
                == p@.name,
        forall|r: Param| #[trigger]
            call_ensures(Param::about, (p, text), r) ==> r@.about == Some(text@) && r@.name
                == p@.name && r@.needed == p@.needed && r@.choices == p@.choices,
        forall|r: Param| #[trigger]
            call_ensures(Param::choice, (p, text), r) ==> r@.choices == p@.choices.push(text@)
                && r@.name == p@.name && r@.about == p@.about && r@.needed == p@.needed,
        forall|r: Param| #[trigger]
            call_ensures(Param::needed, (p,), r) ==> r@.needed && r@.optional == p@.optional
                && r@.name == p@.name && r@.kind == p@.kind,
        forall|r: Param| #[trigger]
            call_ensures(Param::optional, (p,), r) ==> r@.optional && r@.needed == p@.needed
                && r@.name == p@.name && r@.kind == p@.kind,
{
}

} // verus!
