//! The order of the declarations: a declaration comes after every
//! declaration that one of its fields refers to.

use crate::generator::{
    field_of, main_declaration, nested_declarations, nested_name, nested_upto, sample_of,
    DeclarationModel, SampleModel,
};
use crate::models::SchemaModel;
use crate::declarations_of;
use vstd::prelude::*;

verus! {

/// Whether one of the first `upto` declarations is named `name`.
pub open spec fn declared_before(all: Seq<DeclarationModel>, upto: int, name: Seq<char>) -> bool {
    exists|j: int| 0 <= j < upto && j < all.len() && (#[trigger] all[j]).name == name
}

/// Whether every declaration that a field refers to stands before the
/// declaration that holds the field.
pub open spec fn bottom_up(all: Seq<DeclarationModel>) -> bool {
    forall|i: int, k: int|
        0 <= i < all.len() && 0 <= k < all[i].fields.len() && (
        #[trigger] all[i].fields[k]).ty is Nested ==> declared_before(
            all,
            i,
            all[i].fields[k].ty->Nested_0,
        )
}

/// Two sequences of declarations in this order give one when joined.
pub proof fn lemma_bottom_up_join(first: Seq<DeclarationModel>, second: Seq<DeclarationModel>)
    requires
        bottom_up(first),
        bottom_up(second),
    ensures
        bottom_up(first + second),
{
    let all = first + second;
    assert forall|i: int, k: int|
        0 <= i < all.len() && 0 <= k < all[i].fields.len() && (
        #[trigger] all[i].fields[k]).ty is Nested implies declared_before(
        all,
        i,
        all[i].fields[k].ty->Nested_0,
    ) by {
        let name = all[i].fields[k].ty->Nested_0;
        if i < first.len() {
            assert(all[i] == first[i]);
            assert(first[i].fields[k].ty is Nested);
            assert(declared_before(first, i, name));
            let j = choose|j: int| 0 <= j < i && j < first.len() && (#[trigger] first[j]).name == name;
            assert(all[j] == first[j]);
        } else {
            let inner = i - first.len();
            assert(all[i] == second[inner]);
            assert(second[inner].fields[k].ty is Nested);
            assert(declared_before(second, inner, name));
            let j = choose|j: int|
                0 <= j < inner && j < second.len() && (#[trigger] second[j]).name == name;
            assert(all[j + first.len()] == second[j]);
        }
    }
}

/// The declarations that the first `upto` entries bring are in order, and
/// hold a declaration for every object among those entries, under the name
/// that the field for the object refers to.
pub proof fn lemma_nested_upto_order(
    entries: Seq<(Seq<char>, SampleModel)>,
    base_name: Seq<char>,
    upto: int,
)
    requires
        0 <= upto <= entries.len(),
    ensures
        bottom_up(nested_upto(entries, base_name, upto)),
        forall|k: int|
            0 <= k < upto && (#[trigger] entries[k]).1 is Object ==> declared_before(
                nested_upto(entries, base_name, upto),
                nested_upto(entries, base_name, upto).len() as int,
                nested_name(entries[k].1->Object_0, base_name, entries[k].0),
            ),
    decreases entries, upto,
{
    let all = nested_upto(entries, base_name, upto);
    if upto > 0 {
        let earlier = nested_upto(entries, base_name, upto - 1);
        lemma_nested_upto_order(entries, base_name, upto - 1);
        let (key, value) = entries[upto - 1];
        match value {
            SampleModel::Object(given, _) => {
                let name = nested_name(given, base_name, key);
                let inner = nested_declarations(value, name).push(main_declaration(value, name));
                lemma_declarations_order(value, name);
                lemma_bottom_up_join(earlier, inner);
                assert(all == earlier + inner);
                assert forall|k: int|
                    0 <= k < upto && (#[trigger] entries[k]).1 is Object implies declared_before(
                    all,
                    all.len() as int,
                    nested_name(entries[k].1->Object_0, base_name, entries[k].0),
                ) by {
                    let wanted = nested_name(entries[k].1->Object_0, base_name, entries[k].0);
                    if k < upto - 1 {
                        let j = choose|j: int|
                            0 <= j < earlier.len() && j < earlier.len() && (
                            #[trigger] earlier[j]).name == wanted;
                        assert(all[j] == earlier[j]);
                    } else {
                        let last = all.len() - 1;
                        assert(all[last] == inner[inner.len() - 1]);
                        assert(all[last].name == wanted);
                    }
                }
            },
            _ => {
                assert(all == earlier);
            },
        }
    }
}

/// The declarations for a sample are in order when the declaration named
/// `base_name` is put last.
pub proof fn lemma_declarations_order(content: SampleModel, base_name: Seq<char>)
    ensures
        bottom_up(
            nested_declarations(content, base_name).push(main_declaration(content, base_name)),
        ),
    decreases content, 1int,
{
    let nested = nested_declarations(content, base_name);
    let main = main_declaration(content, base_name);
    let all = nested.push(main);
    match content {
        SampleModel::Object(_, entries) => {
            lemma_nested_upto_order(entries, base_name, entries.len() as int);
            assert forall|i: int, k: int|
                0 <= i < all.len() && 0 <= k < all[i].fields.len() && (
                #[trigger] all[i].fields[k]).ty is Nested implies declared_before(
                all,
                i,
                all[i].fields[k].ty->Nested_0,
            ) by {
                let name = all[i].fields[k].ty->Nested_0;
                if i < nested.len() {
                    assert(all[i] == nested[i]);
                    assert(nested[i].fields[k].ty is Nested);
                    assert(declared_before(nested, i, name));
                    let j = choose|j: int|
                        0 <= j < i && j < nested.len() && (#[trigger] nested[j]).name == name;
                    assert(all[j] == nested[j]);
                } else {
                    assert(main.fields[k] == field_of(entries[k].0, entries[k].1, base_name));
                    assert(entries[k].1 is Object);
                    assert(declared_before(nested, nested.len() as int, name));
                    let j = choose|j: int|
                        0 <= j < nested.len() && j < nested.len() && (#[trigger] nested[j]).name
                            == name;
                    assert(all[j] == nested[j]);
                }
            }
        },
        _ => {
            assert(main.fields.len() == 0);
        },
    }
}

/// The declarations that are generated for a schema are in order: each one
/// stands after those that its fields refer to, and the declaration of the
/// root stands last.
pub proof fn lemma_generated_order(node: SchemaModel, name: Seq<char>)
    ensures
        bottom_up(declarations_of(node, name)),
        declarations_of(node, name).len() > 0,
        declarations_of(node, name).last().name == name,
{
    lemma_declarations_order(sample_of(node), name);
}

} // verus!
