//! Tool definitions sent to the model, and the tool calls it answers with.
use vstd::prelude::*;
use vstd::string::*;

use crate::json::JsonNumber;

verus! {

/// One property of a tool's parameter object.
#[derive(Debug)]
#[allow(inconsistent_fields)]
pub enum PropDef {
    String { desc: String, enum_: Option<Vec<String>> },
    Number { desc: String, enum_: Option<Vec<JsonNumber>> },
    Boolean { desc: String },
    Array { desc: String },
    Object { desc: String },
}

/// The description of a property.
pub open spec fn prop_description(p: PropDef) -> Seq<char> {
    match p {
        PropDef::String { desc, .. } => desc@,
        PropDef::Number { desc, .. } => desc@,
        PropDef::Boolean { desc } => desc@,
        PropDef::Array { desc } => desc@,
        PropDef::Object { desc } => desc@,
    }
}

/// The JSON Schema type name of a property.
pub open spec fn prop_type(p: PropDef) -> Seq<char> {
    match p {
        PropDef::String { .. } => "string"@,
        PropDef::Number { .. } => "number"@,
        PropDef::Boolean { .. } => "boolean"@,
        PropDef::Array { .. } => "array"@,
        PropDef::Object { .. } => "object"@,
    }
}

impl PropDef {
    pub fn description(&self) -> (r: &str)
        ensures
            r@ == prop_description(*self),
    {
        match self {
            PropDef::String { desc, .. } => desc.as_str(),
            PropDef::Number { desc, .. } => desc.as_str(),
            PropDef::Boolean { desc } => desc.as_str(),
            PropDef::Array { desc } => desc.as_str(),
            PropDef::Object { desc } => desc.as_str(),
        }
    }

    pub fn typ(&self) -> (r: &'static str)
        ensures
            r@ == prop_type(*self),
    {
        proof {
            reveal_strlit("string");
            reveal_strlit("number");
            reveal_strlit("boolean");
            reveal_strlit("array");
            reveal_strlit("object");
        }
        match self {
            PropDef::String { .. } => "string",
            PropDef::Number { .. } => "number",
            PropDef::Boolean { .. } => "boolean",
            PropDef::Array { .. } => "array",
            PropDef::Object { .. } => "object",
        }
    }
}

/// The allowed numbers of a number property.
pub open spec fn numbers_view(e: Option<Vec<JsonNumber>>) -> Option<Seq<JsonNumber>> {
    match e {
        Some(v) => Some(v@),
        None => None,
    }
}

/// Two properties alike: the same kind, description and allowed values.
pub open spec fn same_prop(a: PropDef, b: PropDef) -> bool {
    match (a, b) {
        (PropDef::String { desc: d1, enum_: e1 }, PropDef::String { desc: d2, enum_: e2 }) => d1@
            == d2@ && names_view(e1) == names_view(e2),
        (PropDef::Number { desc: d1, enum_: e1 }, PropDef::Number { desc: d2, enum_: e2 }) => d1@
            == d2@ && numbers_view(e1) == numbers_view(e2),
        (PropDef::Boolean { desc: d1 }, PropDef::Boolean { desc: d2 }) => d1@ == d2@,
        (PropDef::Array { desc: d1 }, PropDef::Array { desc: d2 }) => d1@ == d2@,
        (PropDef::Object { desc: d1 }, PropDef::Object { desc: d2 }) => d1@ == d2@,
        _ => false,
    }
}

fn clone_names(e: &Option<Vec<String>>) -> (r: Option<Vec<String>>)
    ensures
        names_view(r) == names_view(*e),
{
    match e {
        Some(v) => {
            let mut out: Vec<String> = Vec::new();
            let mut i: usize = 0;
            while i < v.len()
                invariant
                    i <= v.len(),
                    out@.map_values(|s: String| s@) == v@.take(i as int).map_values(|s: String| s@),
                decreases v.len() - i,
            {
                let c = v[i].clone();
                let ghost before = out@;
                out.push(c);
                assert(out@.map_values(|s: String| s@) =~= before.map_values(|s: String| s@).push(c@));
                assert(v@.take(i + 1) =~= v@.take(i as int).push(v@[i as int]));
                assert(v@.take(i + 1).map_values(|s: String| s@) =~= v@.take(i as int).map_values(
                    |s: String| s@,
                ).push(v@[i as int]@));
                i = i + 1;
            }
            assert(v@.take(v.len() as int) =~= v@);
            Some(out)
        },
        None => None,
    }
}

fn clone_numbers(e: &Option<Vec<JsonNumber>>) -> (r: Option<Vec<JsonNumber>>)
    ensures
        numbers_view(r) == numbers_view(*e),
{
    match e {
        Some(v) => {
            let mut out: Vec<JsonNumber> = Vec::new();
            let mut i: usize = 0;
            while i < v.len()
                invariant
                    i <= v.len(),
                    out@ == v@.take(i as int),
                decreases v.len() - i,
            {
                out.push(v[i].clone());
                assert(out@ =~= v@.take(i + 1));
                i = i + 1;
            }
            assert(v@.take(v.len() as int) =~= v@);
            Some(out)
        },
        None => None,
    }
}

impl Clone for PropDef {
    /// A property alike; see [`same_prop`].
    fn clone(&self) -> (r: Self)
        ensures
            same_prop(r, *self),
    {
        match self {
            PropDef::String { desc, enum_ } => PropDef::String { desc: desc.clone(), enum_: clone_names(enum_) },
            PropDef::Number { desc, enum_ } => PropDef::Number { desc: desc.clone(), enum_: clone_numbers(enum_) },
            PropDef::Boolean { desc } => PropDef::Boolean { desc: desc.clone() },
            PropDef::Array { desc } => PropDef::Array { desc: desc.clone() },
            PropDef::Object { desc } => PropDef::Object { desc: desc.clone() },
        }
    }
}

/// The named properties of a parameter object; a name occurs at most once,
/// and setting a name that is present replaces its property in place.
#[derive(Debug)]
pub struct Properties {
    entries: Vec<(String, PropDef)>,
}

/// Names in `s` are pairwise distinct.
pub open spec fn distinct_names(s: Seq<(Seq<char>, PropDef)>) -> bool {
    forall|i: int, j: int| 0 <= i < j < s.len() ==> s[i].0 != s[j].0
}

/// Whether `name` is among the names of `s`.
pub open spec fn has_name(s: Seq<(Seq<char>, PropDef)>, name: Seq<char>) -> bool {
    exists|i: int| 0 <= i < s.len() && s[i].0 == name
}

/// The entries after setting `name` to `prop`: replaced in place when the name
/// is present, appended otherwise.
pub open spec fn set_property(
    s: Seq<(Seq<char>, PropDef)>,
    name: Seq<char>,
    prop: PropDef,
) -> Seq<(Seq<char>, PropDef)> {
    if has_name(s, name) {
        let i = choose|i: int| 0 <= i < s.len() && s[i].0 == name;
        s.update(i, (name, prop))
    } else {
        s.push((name, prop))
    }
}

impl View for Properties {
    type V = Seq<(Seq<char>, PropDef)>;

    closed spec fn view(&self) -> Seq<(Seq<char>, PropDef)> {
        self.entries@.map_values(|e: (String, PropDef)| (e.0@, e.1))
    }
}

impl Properties {
    #[verifier::type_invariant]
    closed spec fn wf(self) -> bool {
        distinct_names(self@)
    }

    pub fn new() -> (r: Self)
        ensures
            r@ == Seq::<(Seq<char>, PropDef)>::empty(),
    {
        let r = Properties { entries: Vec::new() };
        assert(r@ =~= Seq::<(Seq<char>, PropDef)>::empty());
        r
    }

    /// Number of properties.
    pub fn len(&self) -> (r: usize)
        ensures
            r == self@.len(),
    {
        self.entries.len()
    }

    /// The name and property at position `i`.
    pub fn entry(&self, i: usize) -> (r: (&str, &PropDef))
        requires
            i < self@.len(),
        ensures
            r.0@ == self@[i as int].0,
            *r.1 == self@[i as int].1,
    {
        let e = &self.entries[i];
        (e.0.as_str(), &e.1)
    }

    /// The position of `name`, if present.
    pub fn position(&self, name: &str) -> (r: Option<usize>)
        ensures
            r matches Some(i) ==> i < self@.len() && self@[i as int].0 == name@,
            r is None <==> !has_name(self@, name@),
    {
        let mut i: usize = 0;
        while i < self.entries.len()
            invariant
                i <= self.entries.len(),
                forall|k: int| 0 <= k < i ==> self@[k].0 != name@,
            decreases self.entries.len() - i,
        {
            if crate::resolver::action::str_equals(self.entries[i].0.as_str(), name) {
                assert(self@[i as int].0 == name@);
                return Some(i);
            }
            i = i + 1;
        }
        None
    }

    /// Whether a property is named `name`.
    pub fn contains_key(&self, name: &str) -> (r: bool)
        ensures
            r == has_name(self@, name@),
    {
        self.position(name).is_some()
    }

    /// Sets the property of `name`, replacing one already present.
    pub fn insert(&mut self, name: String, prop: PropDef)
        ensures
            final(self)@ == set_property(old(self)@, name@, prop),
            has_name(final(self)@, name@),
    {
        proof {
            use_type_invariant(&*self);
        }
        let ghost n = name@;
        let ghost s = self@;
        let pos = self.position(name.as_str());
        let mut entries: Vec<(String, PropDef)> = Vec::new();
        std::mem::swap(&mut entries, &mut self.entries);
        assert(entries@.map_values(|e: (String, PropDef)| (e.0@, e.1)) == s);
        match pos {
            Some(i) => {
                assert(forall|j: int| 0 <= j < s.len() && s[j].0 == n ==> j == i);
                entries.set(i, (name, prop));
                assert(entries@.map_values(|e: (String, PropDef)| (e.0@, e.1)) =~= s.update(
                    i as int,
                    (n, prop),
                ));
            },
            None => {
                entries.push((name, prop));
                assert(entries@.map_values(|e: (String, PropDef)| (e.0@, e.1)) =~= s.push(
                    (n, prop),
                ));
            },
        }
        self.entries = entries;
        assert(self@[if pos is Some { pos->0 as int } else { s.len() as int }].0 == n);
    }
}

impl Clone for Properties {
    /// Copies the names; each property is copied by its own `clone`.
    fn clone(&self) -> (r: Self)
        ensures
            same_props(r@, self@),
    {
        proof {
            use_type_invariant(self);
        }
        let mut entries: Vec<(String, PropDef)> = Vec::new();
        let mut i: usize = 0;
        while i < self.entries.len()
            invariant
                i <= self.entries.len(),
                entries.len() == i,
                distinct_names(self@),
                forall|k: int|
                    0 <= k < i ==> #[trigger] entries@[k].0@ == self@[k].0 && same_prop(
                        entries@[k].1,
                        self@[k].1,
                    ),
            decreases self.entries.len() - i,
        {
            let name = self.entries[i].0.clone();
            let prop = self.entries[i].1.clone();
            entries.push((name, prop));
            i = i + 1;
        }
        let r = Properties { entries };
        assert(forall|k: int| 0 <= k < i ==> #[trigger] r@[k].0 == self@[k].0 && same_prop(r@[k].1, self@[k].1));
        r
    }
}

/// Two lists of properties alike: the same names, in order, with alike
/// properties.
pub open spec fn same_props(a: Seq<(Seq<char>, PropDef)>, b: Seq<(Seq<char>, PropDef)>) -> bool {
    &&& a.len() == b.len()
    &&& forall|i: int| 0 <= i < a.len() ==> (#[trigger] a[i]).0 == b[i].0 && same_prop(a[i].1, b[i].1)
}

/// Two parameter objects alike: the same type, alike properties, the same
/// required names and the same policy on other properties.
pub open spec fn same_params(a: ParamDef, b: ParamDef) -> bool {
    &&& a.type_@ == b.type_@
    &&& same_props(a.props@, b.props@)
    &&& names_view(a.required) == names_view(b.required)
    &&& a.additional_props == b.additional_props
}

/// The parameters of a tool: a JSON Schema object.
#[derive(Debug)]
pub struct ParamDef {
    pub type_: String,
    pub props: Properties,
    pub required: Option<Vec<String>>,
    pub additional_props: Option<bool>,
}

/// `names` set one after the other into `s`.
pub open spec fn set_properties(
    s: Seq<(Seq<char>, PropDef)>,
    names: Seq<(Seq<char>, PropDef)>,
) -> Seq<(Seq<char>, PropDef)>
    decreases names.len(),
{
    if names.len() == 0 {
        s
    } else {
        set_property(set_properties(s, names.drop_last()), names.last().0, names.last().1)
    }
}

/// Setting pairwise distinct names one after the other into no properties
/// gives them back in order.
pub proof fn lemma_set_distinct_properties(names: Seq<(Seq<char>, PropDef)>)
    requires
        distinct_names(names),
    ensures
        set_properties(Seq::empty(), names) == names,
    decreases names.len(),
{
    if names.len() > 0 {
        let init = names.drop_last();
        assert(distinct_names(init));
        lemma_set_distinct_properties(init);
        assert(!has_name(init, names.last().0)) by {
            if has_name(init, names.last().0) {
                let i = choose|i: int| 0 <= i < init.len() && init[i].0 == names.last().0;
                assert(names[i].0 == names[names.len() - 1].0);
            }
        }
        assert(init.push(names.last()) =~= names);
    }
}

/// A property described as a string without allowed values.
pub open spec fn plain_string_prop(e: (Seq<char>, PropDef), name: Seq<char>, desc: Seq<char>) -> bool {
    &&& e.0 == name
    &&& e.1 matches PropDef::String { enum_: None, .. }
    &&& prop_description(e.1) == desc
}

/// A property described as a number without allowed values.
pub open spec fn plain_number_prop(e: (Seq<char>, PropDef), name: Seq<char>, desc: Seq<char>) -> bool {
    &&& e.0 == name
    &&& e.1 matches PropDef::Number { enum_: None, .. }
    &&& prop_description(e.1) == desc
}

/// The names in a list of required names.
pub open spec fn names_view(r: Option<Vec<String>>) -> Option<Seq<Seq<char>>> {
    match r {
        Some(v) => Some(v@.map_values(|s: String| s@)),
        None => None,
    }
}

/// A string property with the given description and no allowed values.
pub fn string_prop(desc: &str) -> (r: PropDef)
    ensures
        r matches PropDef::String { enum_: None, .. },
        prop_description(r) == desc@,
{
    PropDef::String { desc: desc.to_owned(), enum_: None }
}

/// A number property with the given description and no allowed values.
pub fn number_prop(desc: &str) -> (r: PropDef)
    ensures
        r matches PropDef::Number { enum_: None, .. },
        prop_description(r) == desc@,
{
    PropDef::Number { desc: desc.to_owned(), enum_: None }
}

impl ParamDef {
    pub fn new(typ: &str) -> (r: Self)
        ensures
            r.type_@ == typ@,
            r.props@ == Seq::<(Seq<char>, PropDef)>::empty(),
            r.required is None,
            r.additional_props is None,
    {
        Self {
            type_: typ.to_owned(),
            props: Properties::new(),
            required: None,
            additional_props: None,
        }
    }

    /// Sets each `(name, property)` in order.
    pub fn with_properties(self, properties: Vec<(&str, PropDef)>) -> (r: Self)
        ensures
            r.type_ == self.type_,
            r.required == self.required,
            r.additional_props == self.additional_props,
            r.props@ == set_properties(
                self.props@,
                properties@.map_values(|e: (&str, PropDef)| (e.0@, e.1)),
            ),
    {
        let ghost pv = properties@.map_values(|e: (&str, PropDef)| (e.0@, e.1));
        let mut this = self;
        let mut rest = properties;
        assert(pv.take(0) =~= Seq::<(Seq<char>, PropDef)>::empty());
        assert(rest@.map_values(|e: (&str, PropDef)| (e.0@, e.1)) =~= pv.skip(0));
        while rest.len() > 0
            invariant
                rest.len() <= pv.len(),
                rest@.map_values(|e: (&str, PropDef)| (e.0@, e.1)) == pv.skip(pv.len() - rest.len()),
                this.type_ == self.type_,
                this.required == self.required,
                this.additional_props == self.additional_props,
                this.props@ == set_properties(self.props@, pv.take(pv.len() - rest.len())),
            decreases rest.len(),
        {
            let ghost i = pv.len() - rest.len();
            let ghost before = rest@;
            let (name, prop) = rest.remove(0);
            assert(before[0] == (name, prop));
            assert(pv.skip(i)[0] == pv[i]);
            this.props.insert(name.to_owned(), prop);
            assert(pv.take(i + 1).drop_last() =~= pv.take(i));
            assert(pv.take(i + 1).last() == pv[i]);
            assert(rest@ =~= before.drop_first());
            assert(before.map_values(|e: (&str, PropDef)| (e.0@, e.1)) == pv.skip(i));
            assert(pv.skip(i).drop_first() =~= pv.skip(i + 1));
            assert(rest@.map_values(|e: (&str, PropDef)| (e.0@, e.1)) =~= before.map_values(
                |e: (&str, PropDef)| (e.0@, e.1),
            ).drop_first());
        }
        assert(pv.take(pv.len() as int) =~= pv);
        this
    }

    pub fn with_required(self, required: Vec<String>) -> (r: Self)
        ensures
            r.type_ == self.type_,
            r.props == self.props,
            r.additional_props == self.additional_props,
            r.required == Some(required),
    {
        ParamDef { required: Some(required), ..self }
    }
}

impl Clone for ParamDef {
    /// Parameters alike; see [`same_params`].
    fn clone(&self) -> (r: Self)
        ensures
            same_params(r, *self),
    {
        ParamDef {
            type_: self.type_.clone(),
            props: self.props.clone(),
            required: clone_names(&self.required),
            additional_props: self.additional_props,
        }
    }
}

impl Default for ParamDef {
    fn default() -> (r: Self)
        ensures
            r.type_@ == "object"@,
            r.props@ == Seq::<(Seq<char>, PropDef)>::empty(),
            r.required is None,
            r.additional_props is None,
    {
        Self::new("object")
    }
}

/// A tool as the model sees it.
#[derive(Debug)]
pub struct ToolDefination {
    pub name: String,
    pub description: String,
    pub parameters: ParamDef,
    pub strict: Option<bool>,
}

/// The name the first generation of tools gives a tool definition.
pub type ToolDef = ToolDefination;

impl ToolDefination {
    pub fn new(name: &str, description: &str, parameters: ParamDef) -> (r: Self)
        ensures
            r.name@ == name@,
            r.description@ == description@,
            r.parameters == parameters,
            r.strict is None,
    {
        Self { name: name.to_owned(), description: description.to_owned(), parameters, strict: None }
    }

    pub fn with_strict(self, strict: bool) -> (r: Self)
        ensures
            r.name == self.name,
            r.description == self.description,
            r.parameters == self.parameters,
            r.strict == Some(strict),
    {
        ToolDefination { strict: Some(strict), ..self }
    }
}

impl Clone for ToolDefination {
    /// Copies name, description and strictness; the parameters come out
    /// alike (see [`same_params`]).
    fn clone(&self) -> (r: Self)
        ensures
            r.name == self.name,
            r.description == self.description,
            r.strict == self.strict,
            same_params(r.parameters, self.parameters),
    {
        ToolDefination {
            name: self.name.clone(),
            description: self.description.clone(),
            parameters: self.parameters.clone(),
            strict: self.strict,
        }
    }
}

impl Default for ToolDefination {
    fn default() -> (r: Self)
        ensures
            r.name@ == Seq::<char>::empty(),
            r.description@ == Seq::<char>::empty(),
            r.parameters.type_@ == "object"@,
            r.parameters.props@ == Seq::<(Seq<char>, PropDef)>::empty(),
            r.strict is None,
    {
        ToolDefination {
            name: String::new(),
            description: String::new(),
            parameters: ParamDef::default(),
            strict: None,
        }
    }
}

/// A call of a tool: its id, the tool's name and the JSON text of its
/// arguments.
pub trait IToolCall {
    spec fn id_view(&self) -> Seq<char>;

    spec fn name_view(&self) -> Seq<char>;

    spec fn args_view(&self) -> Seq<char>;

    fn id(&self) -> (r: &str)
        ensures
            r@ == self.id_view(),
    ;

    fn name(&self) -> (r: &str)
        ensures
            r@ == self.name_view(),
    ;

    fn args(&self) -> (r: &str)
        ensures
            r@ == self.args_view(),
    ;
}

} // verus!
