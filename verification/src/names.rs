//! The names of types, formats and keywords are read back as what they were
//! written for.

use crate::models::{Formats, JsonSchemaKeywords, JsonSchemaTypes};
use vstd::prelude::*;

verus! {

/// A type is decoded from the way it is written, and what is not set cannot
/// be written as a type.
pub proof fn lemma_type_names_decode(ty: JsonSchemaTypes)
    ensures
        ty != JsonSchemaTypes::Unset ==> JsonSchemaTypes::from_name(ty.name()) == Some(ty),
        JsonSchemaTypes::from_name(JsonSchemaTypes::Unset.name()) is None,
{
    reveal_strlit("array");
    assert("array"@.len() == 5);
    assert("array"@[0] == 'a');
    assert("array"@[1] == 'r');
    assert("array"@[2] == 'r');
    assert("array"@[3] == 'a');
    reveal_strlit("object");
    assert("object"@.len() == 6);
    assert("object"@[0] == 'o');
    assert("object"@[1] == 'b');
    assert("object"@[2] == 'j');
    assert("object"@[3] == 'e');
    reveal_strlit("string");
    assert("string"@.len() == 6);
    assert("string"@[0] == 's');
    assert("string"@[1] == 't');
    assert("string"@[2] == 'r');
    assert("string"@[3] == 'i');
    reveal_strlit("number");
    assert("number"@.len() == 6);
    assert("number"@[0] == 'n');
    assert("number"@[1] == 'u');
    assert("number"@[2] == 'm');
    assert("number"@[3] == 'b');
    reveal_strlit("null");
    assert("null"@.len() == 4);
    assert("null"@[0] == 'n');
    assert("null"@[1] == 'u');
    assert("null"@[2] == 'l');
    assert("null"@[3] == 'l');
}

/// A format is decoded from the way it is written.
pub proof fn lemma_format_names_decode(format: Formats)
    ensures
        Formats::from_name(format.name()) == Some(format),
{
    reveal_strlit("date");
    assert("date"@.len() == 4);
    assert("date"@[0] == 'd');
    assert("date"@[1] == 'a');
    assert("date"@[2] == 't');
    assert("date"@[3] == 'e');
    reveal_strlit("time");
    assert("time"@.len() == 4);
    assert("time"@[0] == 't');
    assert("time"@[1] == 'i');
    assert("time"@[2] == 'm');
    assert("time"@[3] == 'e');
    reveal_strlit("date-time");
    assert("date-time"@.len() == 9);
    assert("date-time"@[0] == 'd');
    assert("date-time"@[1] == 'a');
    assert("date-time"@[2] == 't');
    assert("date-time"@[3] == 'e');
    reveal_strlit("email");
    assert("email"@.len() == 5);
    assert("email"@[0] == 'e');
    assert("email"@[1] == 'm');
    assert("email"@[2] == 'a');
    assert("email"@[3] == 'i');
    reveal_strlit("hostname");
    assert("hostname"@.len() == 8);
    assert("hostname"@[0] == 'h');
    assert("hostname"@[1] == 'o');
    assert("hostname"@[2] == 's');
    assert("hostname"@[3] == 't');
    reveal_strlit("ipv4");
    assert("ipv4"@.len() == 4);
    assert("ipv4"@[0] == 'i');
    assert("ipv4"@[1] == 'p');
    assert("ipv4"@[2] == 'v');
    assert("ipv4"@[3] == '4');
    reveal_strlit("ipv6");
    assert("ipv6"@.len() == 4);
    assert("ipv6"@[0] == 'i');
    assert("ipv6"@[1] == 'p');
    assert("ipv6"@[2] == 'v');
    assert("ipv6"@[3] == '6');
    reveal_strlit("uri");
    assert("uri"@.len() == 3);
    assert("uri"@[0] == 'u');
    assert("uri"@[1] == 'r');
    assert("uri"@[2] == 'i');
}

/// A keyword is decoded from the way it is written.
pub proof fn lemma_keyword_names_decode(keyword: JsonSchemaKeywords)
    ensures
        JsonSchemaKeywords::from_name(keyword.name()) == Some(keyword),
{
    reveal_strlit("type");
    assert("type"@.len() == 4);
    assert("type"@[0] == 't');
    assert("type"@[1] == 'y');
    assert("type"@[2] == 'p');
    assert("type"@[3] == 'e');
    reveal_strlit("title");
    assert("title"@.len() == 5);
    assert("title"@[0] == 't');
    assert("title"@[1] == 'i');
    assert("title"@[2] == 't');
    assert("title"@[3] == 'l');
    reveal_strlit("required");
    assert("required"@.len() == 8);
    assert("required"@[0] == 'r');
    assert("required"@[1] == 'e');
    assert("required"@[2] == 'q');
    assert("required"@[3] == 'u');
    reveal_strlit("description");
    assert("description"@.len() == 11);
    assert("description"@[0] == 'd');
    assert("description"@[1] == 'e');
    assert("description"@[2] == 's');
    assert("description"@[3] == 'c');
    reveal_strlit("items");
    assert("items"@.len() == 5);
    assert("items"@[0] == 'i');
    assert("items"@[1] == 't');
    assert("items"@[2] == 'e');
    assert("items"@[3] == 'm');
    reveal_strlit("properties");
    assert("properties"@.len() == 10);
    assert("properties"@[0] == 'p');
    assert("properties"@[1] == 'r');
    assert("properties"@[2] == 'o');
    assert("properties"@[3] == 'p');
    reveal_strlit("default");
    assert("default"@.len() == 7);
    assert("default"@[0] == 'd');
    assert("default"@[1] == 'e');
    assert("default"@[2] == 'f');
    assert("default"@[3] == 'a');
    reveal_strlit("examples");
    assert("examples"@.len() == 8);
    assert("examples"@[0] == 'e');
    assert("examples"@[1] == 'x');
    assert("examples"@[2] == 'a');
    assert("examples"@[3] == 'm');
    reveal_strlit("enum");
    assert("enum"@.len() == 4);
    assert("enum"@[0] == 'e');
    assert("enum"@[1] == 'n');
    assert("enum"@[2] == 'u');
    assert("enum"@[3] == 'm');
    reveal_strlit("const");
    assert("const"@.len() == 5);
    assert("const"@[0] == 'c');
    assert("const"@[1] == 'o');
    assert("const"@[2] == 'n');
    assert("const"@[3] == 's');
    reveal_strlit("min_length");
    assert("min_length"@.len() == 10);
    assert("min_length"@[0] == 'm');
    assert("min_length"@[1] == 'i');
    assert("min_length"@[2] == 'n');
    assert("min_length"@[3] == '_');
    reveal_strlit("max_length");
    assert("max_length"@.len() == 10);
    assert("max_length"@[0] == 'm');
    assert("max_length"@[1] == 'a');
    assert("max_length"@[2] == 'x');
    assert("max_length"@[3] == '_');
    reveal_strlit("pattern");
    assert("pattern"@.len() == 7);
    assert("pattern"@[0] == 'p');
    assert("pattern"@[1] == 'a');
    assert("pattern"@[2] == 't');
    assert("pattern"@[3] == 't');
    reveal_strlit("format");
    assert("format"@.len() == 6);
    assert("format"@[0] == 'f');
    assert("format"@[1] == 'o');
    assert("format"@[2] == 'r');
    assert("format"@[3] == 'm');
    reveal_strlit("minimum");
    assert("minimum"@.len() == 7);
    assert("minimum"@[0] == 'm');
    assert("minimum"@[1] == 'i');
    assert("minimum"@[2] == 'n');
    assert("minimum"@[3] == 'i');
    reveal_strlit("maximum");
    assert("maximum"@.len() == 7);
    assert("maximum"@[0] == 'm');
    assert("maximum"@[1] == 'a');
    assert("maximum"@[2] == 'x');
    assert("maximum"@[3] == 'i');
    reveal_strlit("max_items");
    assert("max_items"@.len() == 9);
    assert("max_items"@[0] == 'm');
    assert("max_items"@[1] == 'a');
    assert("max_items"@[2] == 'x');
    assert("max_items"@[3] == '_');
    reveal_strlit("min_items");
    assert("min_items"@.len() == 9);
    assert("min_items"@[0] == 'm');
    assert("min_items"@[1] == 'i');
    assert("min_items"@[2] == 'n');
    assert("min_items"@[3] == '_');
    reveal_strlit("unique_items");
    assert("unique_items"@.len() == 12);
    assert("unique_items"@[0] == 'u');
    assert("unique_items"@[1] == 'n');
    assert("unique_items"@[2] == 'i');
    assert("unique_items"@[3] == 'q');
    reveal_strlit("contains");
    assert("contains"@.len() == 8);
    assert("contains"@[0] == 'c');
    assert("contains"@[1] == 'o');
    assert("contains"@[2] == 'n');
    assert("contains"@[3] == 't');
    reveal_strlit("struct");
    assert("struct"@.len() == 6);
    assert("struct"@[0] == 's');
    assert("struct"@[1] == 't');
    assert("struct"@[2] == 'r');
    assert("struct"@[3] == 'u');
}

} // verus!
