//! From a checked schema to a sample value, and from the sample to the
//! declarations of the types that hold such values.

use crate::models::{lemma_schema_view, JsonSchema, JsonSchemaTypes, SchemaModel};
use crate::text::{pascal_case, snake_case, to_pascal_case, to_snake_case};
use vstd::prelude::*;
use vstd::string::StringExecFns;

verus! {

/// A value in the shape of a schema, with every string empty and every
/// number zero.
#[derive(Debug, PartialEq, Eq)]
pub enum Sample {
    Null,
    Bool(bool),
    Number(i64),
    Text(String),
    Array(Vec<Sample>),
    /// The name that the schema gave the object, if it gave one, and the
    /// entries of the object in the order of the properties.
    Object(Option<String>, Vec<(String, Sample)>),
}

/// The mathematical value of a [`Sample`].
pub enum SampleModel {
    Null,
    Bool(bool),
    Number(i64),
    Text(Seq<char>),
    Array(Seq<SampleModel>),
    Object(Option<Seq<char>>, Seq<(Seq<char>, SampleModel)>),
}

impl Sample {
    /// The mathematical value of the sample.
    pub open spec fn model(&self) -> SampleModel
        decreases self,
    {
        match self {
            Sample::Null => SampleModel::Null,
            Sample::Bool(b) => SampleModel::Bool(*b),
            Sample::Number(n) => SampleModel::Number(*n),
            Sample::Text(text) => SampleModel::Text(text@),
            Sample::Array(elements) => SampleModel::Array(
                Seq::new(
                    elements.len() as nat,
                    |i: int|
                        if 0 <= i < elements.len() {
                            elements[i].model()
                        } else {
                            arbitrary()
                        },
                ),
            ),
            Sample::Object(name, entries) => SampleModel::Object(
                name.deep_view(),
                Seq::new(
                    entries.len() as nat,
                    |i: int|
                        if 0 <= i < entries.len() {
                            (entries[i].0@, entries[i].1.model())
                        } else {
                            arbitrary()
                        },
                ),
            ),
        }
    }
}

impl View for Sample {
    type V = SampleModel;

    open spec fn view(&self) -> SampleModel {
        self.model()
    }
}

impl DeepView for Sample {
    type V = SampleModel;

    open spec fn deep_view(&self) -> SampleModel {
        self.model()
    }
}

impl Clone for Sample {
    fn clone(&self) -> (copy: Sample)
        ensures
            copy@ == self@,
        decreases self,
    {
        match self {
            Sample::Null => Sample::Null,
            Sample::Bool(b) => Sample::Bool(*b),
            Sample::Number(n) => Sample::Number(*n),
            Sample::Text(text) => Sample::Text(text.clone()),
            Sample::Array(elements) => {
                let mut copies: Vec<Sample> = Vec::new();
                let mut i: usize = 0;
                while i < elements.len()
                    invariant
                        i <= elements.len(),
                        copies.len() == i,
                        decreases_to!(self => elements),
                        forall|j: int| 0 <= j < i ==> (#[trigger] copies[j])@ == elements[j]@,
                    decreases elements.len() - i,
                {
                    copies.push(elements[i].clone());
                    i += 1;
                }
                proof {
                    lemma_sample_view(*self);
                    lemma_sample_view(Sample::Array(copies));
                    assert(copies.deep_view() =~= elements.deep_view());
                }
                Sample::Array(copies)
            },
            Sample::Object(name, entries) => {
                let name_copy = match name {
                    Some(name) => Some(name.clone()),
                    None => None,
                };
                let mut copies: Vec<(String, Sample)> = Vec::new();
                let mut i: usize = 0;
                while i < entries.len()
                    invariant
                        i <= entries.len(),
                        copies.len() == i,
                        decreases_to!(self => entries),
                        forall|j: int|
                            0 <= j < i ==> (#[trigger] copies[j]).0@ == entries[j].0@
                                && copies[j].1@ == entries[j].1@,
                    decreases entries.len() - i,
                {
                    let value = entries[i].1.clone();
                    copies.push((entries[i].0.clone(), value));
                    i += 1;
                }
                proof {
                    lemma_sample_view(*self);
                    lemma_sample_view(Sample::Object(name_copy, copies));
                    assert(copies.deep_view() =~= entries.deep_view());
                }
                Sample::Object(name_copy, copies)
            },
        }
    }
}

/// The value of an array sample holds the values of its elements, and the
/// value of an object sample the values of its entries.
pub proof fn lemma_sample_view(sample: Sample)
    ensures
        sample matches Sample::Array(elements) ==> sample@ == SampleModel::Array(
            elements.deep_view(),
        ),
        sample matches Sample::Object(name, entries) ==> sample@ == SampleModel::Object(
            name.deep_view(),
            entries.deep_view(),
        ),
{
    match sample {
        Sample::Array(elements) => {
            assert(sample@->Array_0 =~= elements.deep_view());
        },
        Sample::Object(name, entries) => {
            assert(sample@->Object_1 =~= entries.deep_view());
        },
        _ => {},
    }
}

/// The sample of a schema.
///
/// A string gives the empty string, a number zero, and a schema without a
/// type null. An array gives the sample of its `items` as its one element,
/// or no element without `items`. An object gives one entry for each
/// property, in their order, and carries the `struct` name of the schema.
pub open spec fn sample_of(node: SchemaModel) -> SampleModel
    decreases node,
{
    match node.ty {
        JsonSchemaTypes::String => SampleModel::Text(Seq::empty()),
        JsonSchemaTypes::Number => SampleModel::Number(0),
        JsonSchemaTypes::Unset => SampleModel::Null,
        JsonSchemaTypes::Array => match node.items {
            Some(items) => SampleModel::Array(seq![sample_of(*items.value)]),
            None => SampleModel::Array(Seq::empty()),
        },
        JsonSchemaTypes::Object => SampleModel::Object(
            match node.struct_name {
                Some(name) => Some(name.value),
                None => None,
            },
            match node.properties {
                Some(properties) => Seq::new(
                    properties.value.len(),
                    |i: int|
                        if 0 <= i < properties.value.len() {
                            (properties.value[i].0, sample_of(properties.value[i].1))
                        } else {
                            arbitrary()
                        },
                ),
                None => Seq::empty(),
            },
        ),
    }
}

impl JsonSchema {
    /// The sample of this schema.
    pub fn to_json_sample(&self) -> (sample: Sample)
        ensures
            sample@ == sample_of(self@),
        decreases self,
    {
        match self.ty {
            JsonSchemaTypes::String => Sample::Text(String::new()),
            JsonSchemaTypes::Number => Sample::Number(0),
            JsonSchemaTypes::Unset => Sample::Null,
            JsonSchemaTypes::Array => {
                let mut elements: Vec<Sample> = Vec::new();
                match &self.items {
                    Some(items) => {
                        let element = items.value.to_json_sample();
                        elements.push(element);
                        proof {
                            lemma_sample_view(Sample::Array(elements));
                            assert(elements.deep_view() =~= seq![sample_of(*self@.items->0.value)]);
                        }
                    },
                    None => {
                        proof {
                            lemma_sample_view(Sample::Array(elements));
                            assert(elements.deep_view() =~= Seq::<SampleModel>::empty());
                        }
                    },
                }
                Sample::Array(elements)
            },
            JsonSchemaTypes::Object => {
                let name = match &self.struct_name {
                    Some(name) => Some(name.value.clone()),
                    None => None,
                };
                let mut entries: Vec<(String, Sample)> = Vec::new();
                match &self.properties {
                    Some(properties) => {
                        let mut i: usize = 0;
                        while i < properties.value.len()
                            invariant
                                i <= properties.value.len(),
                                entries.len() == i,
                                decreases_to!(self => properties),
                                forall|j: int|
                                    0 <= j < i ==> (#[trigger] entries[j]).0@
                                        == properties.value[j].0@ && entries[j].1@ == sample_of(
                                        properties.value[j].1@,
                                    ),
                            decreases properties.value.len() - i,
                        {
                            let child = properties.value[i].1.to_json_sample();
                            entries.push((properties.value[i].0.clone(), child));
                            i += 1;
                        }
                    },
                    None => {},
                }
                proof {
                    lemma_sample_view(Sample::Object(name, entries));
                    lemma_schema_view(*self);
                    assert(Sample::Object(name, entries)@->Object_1 =~= sample_of(
                        self@,
                    )->Object_1);
                }
                Sample::Object(name, entries)
            },
        }
    }
}

/// What the elements of a sequence field are declared as.
#[derive(Clone, Copy, Debug, PartialEq, Eq, Structural)]
pub enum ElementType {
    Text,
    Float,
    Boolean,
    /// Any value: nothing is known of the elements.
    Any,
}

/// What a field is declared as.
#[derive(Clone, Debug, PartialEq, Eq)]
pub enum FieldType {
    Text,
    Float,
    Boolean,
    Sequence(ElementType),
    /// The declaration of that name, which is emitted as well.
    Nested(String),
    /// Any value, or none.
    OptionalAny,
}

/// The mathematical value of a [`FieldType`].
pub enum FieldTypeModel {
    Text,
    Float,
    Boolean,
    Sequence(ElementType),
    Nested(Seq<char>),
    OptionalAny,
}

impl DeepView for FieldType {
    type V = FieldTypeModel;

    open spec fn deep_view(&self) -> FieldTypeModel {
        match self {
            FieldType::Text => FieldTypeModel::Text,
            FieldType::Float => FieldTypeModel::Float,
            FieldType::Boolean => FieldTypeModel::Boolean,
            FieldType::Sequence(element) => FieldTypeModel::Sequence(*element),
            FieldType::Nested(name) => FieldTypeModel::Nested(name@),
            FieldType::OptionalAny => FieldTypeModel::OptionalAny,
        }
    }
}

/// One field of a declaration.
#[derive(Clone, Debug, PartialEq, Eq)]
pub struct Field {
    /// The name of the field, in snake_case.
    pub name: String,
    pub ty: FieldType,
    /// The key as the schema spells it, under which the field is read too.
    pub alias: String,
}

/// The mathematical value of a [`Field`].
pub struct FieldModel {
    pub name: Seq<char>,
    pub ty: FieldTypeModel,
    pub alias: Seq<char>,
}

impl DeepView for Field {
    type V = FieldModel;

    open spec fn deep_view(&self) -> FieldModel {
        FieldModel { name: self.name@, ty: self.ty.deep_view(), alias: self.alias@ }
    }
}

/// A named type with its fields.
#[derive(Clone, Debug, PartialEq, Eq)]
pub struct Declaration {
    pub name: String,
    pub fields: Vec<Field>,
}

/// The mathematical value of a [`Declaration`].
pub struct DeclarationModel {
    pub name: Seq<char>,
    pub fields: Seq<FieldModel>,
}

impl DeepView for Declaration {
    type V = DeclarationModel;

    open spec fn deep_view(&self) -> DeclarationModel {
        DeclarationModel { name: self.name@, fields: self.fields.deep_view() }
    }
}

/// What the type generator starts from: the sample of a schema and the name
/// of the root.
#[derive(Clone, Debug, PartialEq, Eq)]
pub struct JsonMacroInput {
    pub struct_name: String,
    pub content: Sample,
}

/// What the elements of an array are declared as: it goes by the first
/// element, and an empty array, or one that starts with anything but a
/// string, a number or a boolean, holds any value.
pub open spec fn element_type(elements: Seq<SampleModel>) -> ElementType {
    if elements.len() == 0 {
        ElementType::Any
    } else {
        match elements[0] {
            SampleModel::Text(_) => ElementType::Text,
            SampleModel::Number(_) => ElementType::Float,
            SampleModel::Bool(_) => ElementType::Boolean,
            _ => ElementType::Any,
        }
    }
}

/// The name of the declaration for the object under `key`: the name that
/// the schema gave it, in PascalCase, or else the name of the enclosing
/// declaration followed by the name of the field in PascalCase.
pub open spec fn nested_name(given: Option<Seq<char>>, base_name: Seq<char>, key: Seq<char>) -> Seq<
    char,
> {
    match given {
        Some(name) => pascal_case(name),
        None => base_name + pascal_case(snake_case(key)),
    }
}

/// What the field for the entry `key: value` is declared as, in the
/// declaration named `base_name`.
pub open spec fn field_type(key: Seq<char>, value: SampleModel, base_name: Seq<char>) -> FieldTypeModel {
    match value {
        SampleModel::Text(_) => FieldTypeModel::Text,
        SampleModel::Number(_) => FieldTypeModel::Float,
        SampleModel::Bool(_) => FieldTypeModel::Boolean,
        SampleModel::Array(elements) => FieldTypeModel::Sequence(element_type(elements)),
        SampleModel::Object(given, _) => FieldTypeModel::Nested(nested_name(given, base_name, key)),
        SampleModel::Null => FieldTypeModel::OptionalAny,
    }
}

/// The field for the entry `key: value`: its name is the key in snake_case,
/// and the key itself is its alias.
pub open spec fn field_of(key: Seq<char>, value: SampleModel, base_name: Seq<char>) -> FieldModel {
    FieldModel { name: snake_case(key), ty: field_type(key, value, base_name), alias: key }
}

/// The entries of an object sample; anything else has none.
pub open spec fn entries_of(content: SampleModel) -> Seq<(Seq<char>, SampleModel)> {
    match content {
        SampleModel::Object(_, entries) => entries,
        _ => Seq::empty(),
    }
}

/// The declaration named `base_name` for a sample: one field for each entry,
/// in their order.
pub open spec fn main_declaration(content: SampleModel, base_name: Seq<char>) -> DeclarationModel {
    let entries = entries_of(content);
    DeclarationModel {
        name: base_name,
        fields: Seq::new(entries.len(), |i: int| field_of(entries[i].0, entries[i].1, base_name)),
    }
}

/// The declarations that the declaration named `base_name` for a sample
/// refers to, directly or through others, each one after those it refers
/// to.
pub open spec fn nested_declarations(content: SampleModel, base_name: Seq<char>) -> Seq<
    DeclarationModel,
>
    decreases content, 0int,
{
    match content {
        SampleModel::Object(_, entries) => nested_upto(entries, base_name, entries.len() as int),
        _ => Seq::empty(),
    }
}

/// The declarations that the first `upto` entries bring.
///
/// An entry that holds an object brings what the object's own declaration
/// refers to, and then that declaration; any other entry brings nothing.
pub open spec fn nested_upto(
    entries: Seq<(Seq<char>, SampleModel)>,
    base_name: Seq<char>,
    upto: int,
) -> Seq<DeclarationModel>
    decreases entries, upto,
{
    if upto <= 0 || upto > entries.len() {
        Seq::empty()
    } else {
        let earlier = nested_upto(entries, base_name, upto - 1);
        let (key, value) = entries[upto - 1];
        match value {
            SampleModel::Object(given, _) => {
                let name = nested_name(given, base_name, key);
                earlier + nested_declarations(value, name).push(main_declaration(value, name))
            },
            _ => earlier,
        }
    }
}

/// What the elements of an array are declared as.
fn infer_array_type(elements: &Vec<Sample>) -> (element: ElementType)
    ensures
        element == element_type(elements.deep_view()),
{
    if elements.len() == 0 {
        return ElementType::Any;
    }
    match &elements[0] {
        Sample::Text(_) => ElementType::Text,
        Sample::Number(_) => ElementType::Float,
        Sample::Bool(_) => ElementType::Boolean,
        _ => ElementType::Any,
    }
}

/// The name of a declaration that is named after the declaration around it
/// and the field that holds it: `field_name`, which is in PascalCase, after
/// `base_name`.
pub fn synthesized_name(base_name: &str, field_name: &str) -> (name: String)
    ensures
        name@ == base_name@ + field_name@,
{
    let mut name = base_name.to_owned();
    name.append(field_name);
    name
}

/// The name of the declaration for the object under `key`.
fn name_nested(given: &Option<String>, base_name: &str, key: &str) -> (name: String)
    ensures
        name@ == nested_name(given.deep_view(), base_name@, key@),
{
    match given {
        Some(explicit) => to_pascal_case(explicit.as_str()),
        None => {
            let field_name = to_snake_case(key);
            let suffix = to_pascal_case(field_name.as_str());
            synthesized_name(base_name, suffix.as_str())
        },
    }
}

/// Declares the types for a sample.
///
/// Returns the declaration named `base_name`, which has one field for each
/// entry of the sample, and the declarations that it refers to, each one
/// after those it refers to. A sample that is no object has no entries.
pub fn generate_structs(json_struct: &JsonMacroInput, base_name: &str) -> (declared: (
    Declaration,
    Vec<Declaration>,
))
    ensures
        declared.0.deep_view() == main_declaration(json_struct.content@, base_name@),
        declared.1.deep_view() == nested_declarations(json_struct.content@, base_name@),
{
    declare(&json_struct.content, base_name)
}

/// Declares the types for a sample: the declaration named `base_name`, and
/// those that it refers to.
fn declare(content: &Sample, base_name: &str) -> (declared: (Declaration, Vec<Declaration>))
    ensures
        declared.0.deep_view() == main_declaration(content@, base_name@),
        declared.1.deep_view() == nested_declarations(content@, base_name@),
    decreases content,
{
    let mut all_structs: Vec<Declaration> = Vec::new();
    let mut fields: Vec<Field> = Vec::new();
    proof {
        lemma_sample_view(*content);
    }
    match content {
        Sample::Object(_, entries) => {
            let ghost models = entries.deep_view();
            let mut i: usize = 0;
            while i < entries.len()
                invariant
                    i <= entries.len(),
                    models == entries.deep_view(),
                    decreases_to!(content => entries),
                    fields.len() == i,
                    forall|j: int|
                        0 <= j < i ==> (#[trigger] fields[j]).deep_view() == field_of(
                            models[j].0,
                            models[j].1,
                            base_name@,
                        ),
                    all_structs.deep_view() == nested_upto(models, base_name@, i as int),
                decreases entries.len() - i,
            {
                let key = &entries[i].0;
                let value = &entries[i].1;
                proof {
                    lemma_sample_view(*value);
                }
                let ty = match value {
                    Sample::Text(_) => FieldType::Text,
                    Sample::Number(_) => FieldType::Float,
                    Sample::Bool(_) => FieldType::Boolean,
                    Sample::Array(elements) => FieldType::Sequence(infer_array_type(elements)),
                    Sample::Object(given, _) => {
                        let name = name_nested(given, base_name, key.as_str());
                        let (nested_struct, nested_structs) = declare(value, name.as_str());
                        let ghost before = all_structs.deep_view();
                        let ghost inner = nested_structs.deep_view();
                        let ghost last = nested_struct.deep_view();
                        extend(&mut all_structs, nested_structs);
                        let ghost joined = all_structs.deep_view();
                        all_structs.push(nested_struct);
                        assert(joined.push(last) =~= before + inner.push(last));
                        FieldType::Nested(name)
                    },
                    Sample::Null => FieldType::OptionalAny,
                };
                fields.push(Field { name: to_snake_case(key.as_str()), ty, alias: key.clone() });
                i += 1;
            }
            assert(fields.deep_view() =~= main_declaration(content@, base_name@).fields);
        },
        _ => {
            assert(fields.deep_view() =~= main_declaration(content@, base_name@).fields);
        },
    }
    (Declaration { name: base_name.to_owned(), fields }, all_structs)
}

/// Moves the declarations of `more` to the end of `all`.
fn extend(all: &mut Vec<Declaration>, more: Vec<Declaration>)
    ensures
        final(all).deep_view() == old(all).deep_view() + more.deep_view(),
{
    let ghost before = all.deep_view();
    let ghost added = more.deep_view();
    let mut more = more;
    all.append(&mut more);
    assert(all.deep_view() =~= before + added);
}

} // verus!
