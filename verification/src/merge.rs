//! How a field joins the schema that is being read: the first occurrence of
//! a keyword stays.

use crate::models::{JsonSchema, JsonSchemaTypes, SchemaModel};
use vstd::prelude::*;

verus! {

/// The first of two values for one field: what is kept if anything is, and
/// else what is offered.
pub open spec fn first<T>(kept: Option<T>, offered: Option<T>) -> Option<T> {
    if kept is Some {
        kept
    } else {
        offered
    }
}

/// The schema `node` after the fields of `field` have joined it.
///
/// A field that `node` has already is kept as it is, with its provenance; a
/// field that it lacks is taken from `field`. The type is a field like any
/// other: it is lacking while it is `Unset`.
pub open spec fn merged(node: SchemaModel, field: SchemaModel) -> SchemaModel {
    let take_type = node.ty == JsonSchemaTypes::Unset && field.ty != JsonSchemaTypes::Unset;
    SchemaModel {
        ty: if take_type {
            field.ty
        } else {
            node.ty
        },
        ty_span: if take_type {
            field.ty_span
        } else {
            node.ty_span
        },
        title: first(node.title, field.title),
        description: first(node.description, field.description),
        default: first(node.default, field.default),
        examples: first(node.examples, field.examples),
        enum_values: first(node.enum_values, field.enum_values),
        const_value: first(node.const_value, field.const_value),
        properties: first(node.properties, field.properties),
        required: first(node.required, field.required),
        min_length: first(node.min_length, field.min_length),
        max_length: first(node.max_length, field.max_length),
        pattern: first(node.pattern, field.pattern),
        format: first(node.format, field.format),
        minimum: first(node.minimum, field.minimum),
        maximum: first(node.maximum, field.maximum),
        items: first(node.items, field.items),
        min_items: first(node.min_items, field.min_items),
        max_items: first(node.max_items, field.max_items),
        unique_items: first(node.unique_items, field.unique_items),
        contains: first(node.contains, field.contains),
        depth: node.depth,
        current_key_span: node.current_key_span,
        struct_name: first(node.struct_name, field.struct_name),
    }
}

/// The first of two values for one field.
fn keep_first<T>(kept: Option<T>, offered: Option<T>) -> (chosen: Option<T>)
    ensures
        chosen == first(kept, offered),
{
    if kept.is_some() {
        kept
    } else {
        offered
    }
}

impl JsonSchema {
    /// Takes from `field` every field that this schema lacks, and keeps what
    /// it has.
    pub fn merge(self, field: JsonSchema) -> (joined: JsonSchema)
        ensures
            joined@ == merged(self@, field@),
    {
        let take_type = matches!(self.ty, JsonSchemaTypes::Unset) && !matches!(
            field.ty,
            JsonSchemaTypes::Unset
        );
        JsonSchema {
            ty: if take_type {
                field.ty
            } else {
                self.ty
            },
            ty_span: if take_type {
                field.ty_span
            } else {
                self.ty_span
            },
            title: keep_first(self.title, field.title),
            description: keep_first(self.description, field.description),
            default: keep_first(self.default, field.default),
            examples: keep_first(self.examples, field.examples),
            enum_values: keep_first(self.enum_values, field.enum_values),
            const_value: keep_first(self.const_value, field.const_value),
            properties: keep_first(self.properties, field.properties),
            required: keep_first(self.required, field.required),
            min_length: keep_first(self.min_length, field.min_length),
            max_length: keep_first(self.max_length, field.max_length),
            pattern: keep_first(self.pattern, field.pattern),
            format: keep_first(self.format, field.format),
            minimum: keep_first(self.minimum, field.minimum),
            maximum: keep_first(self.maximum, field.maximum),
            items: keep_first(self.items, field.items),
            min_items: keep_first(self.min_items, field.min_items),
            max_items: keep_first(self.max_items, field.max_items),
            unique_items: keep_first(self.unique_items, field.unique_items),
            contains: keep_first(self.contains, field.contains),
            depth: self.depth,
            current_key_span: self.current_key_span,
            struct_name: keep_first(self.struct_name, field.struct_name),
        }
    }
}

} // verus!
