//! The names of a generated enum and of its variants.
//!
//! Identifiers are Pascal-cased by `convert_case`, and the name of an owning
//! table is reduced to its singular by `pluralizer`. Neither crate is verified
//! here: the first stands behind a named result, the second behind a call of
//! which nothing is claimed.

use crate::model::CustomEnum;
use convert_case::{Case, Casing};
use pluralizer::pluralize;
use vstd::prelude::*;

verus! {

/// The Pascal-cased form of `identifier`: what `convert_case` returns for it
/// with `Case::Pascal` and its default word boundaries.
pub uninterp spec fn pascal_case(identifier: Seq<char>) -> Seq<char>;

/// Pascal-cases `identifier` with `convert_case::Casing::to_case`.
///
/// Trusted: the result is the crate's Pascal case of the text, which depends
/// on the characters of `identifier` alone. The conversion splits the text at
/// the default boundaries, capitalizes each word and joins the words without
/// a delimiter; it does not fail on any text.
#[verifier::external_body]
fn to_pascal_case(identifier: &str) -> (cased: String)
    ensures
        cased@ == pascal_case(identifier@),
{
    identifier.to_case(Case::Pascal)
}

/// Reduces `word` to its singular with `pluralizer::pluralize`, called with a
/// count of one and without the count in its result.
///
/// Trusted, and nothing is claimed of the result: the crate consults rule
/// tables that any part of a program may extend while it runs, so the same
/// word need not give the same singular twice.
#[verifier::external_body]
fn singular_of(word: &str) -> (singular: String) {
    pluralize(word, 1, false)
}

/// An enum's cased name with the cased singular of its owning table in front,
/// where a table owns it. Nothing stands between the two.
pub open spec fn joined_name(cased_table: Option<Seq<char>>, cased_enum: Seq<char>) -> Seq<char> {
    match cased_table {
        Some(prefix) => prefix + cased_enum,
        None => cased_enum,
    }
}

/// The name of an enum called `enum_name` in the schema, given the singular
/// of the table that owns it, where one does.
///
/// Without an owning table the name is the Pascal case of `enum_name`. With
/// one, the Pascal case of the table's singular is put in front. An empty
/// singular gives no name: the table's name was not reduced to a word, and
/// without one the enums of two tables that share a name could not be told
/// apart.
pub open spec fn scoped_name(enum_name: Seq<char>, singular_table: Option<Seq<char>>) -> Option<
    Seq<char>,
> {
    match singular_table {
        None => Some(joined_name(None, pascal_case(enum_name))),
        Some(singular) => if singular.len() == 0 {
            None
        } else {
            Some(joined_name(Some(pascal_case(singular)), pascal_case(enum_name)))
        },
    }
}

/// Names a variant: the Pascal case of its schema name, and nothing else.
pub fn name_variant(variant_name: &str) -> (name: String)
    ensures
        name@ == pascal_case(variant_name@),
{
    to_pascal_case(variant_name)
}

/// Joins the cased name of an enum and the cased singular of its owning
/// table: the table first, the enum's own name right behind it.
pub fn join_type_name(cased_table: Option<&str>, cased_enum: &str) -> (name: String)
    ensures
        name@ == joined_name(cased_table.deep_view(), cased_enum@),
{
    match cased_table {
        Some(prefix) => String::from_str(prefix).concat(cased_enum),
        None => String::from_str(cased_enum),
    }
}

/// Names an enum from its schema name and the singular of its owning table.
///
/// Returns `None` exactly where `singular_table` holds an empty text.
pub fn name_type_from_singular(enum_name: &str, singular_table: Option<&str>) -> (name: Option<
    String,
>)
    ensures
        name.deep_view() == scoped_name(enum_name@, singular_table.deep_view()),
{
    let cased_enum = to_pascal_case(enum_name);
    match singular_table {
        None => Some(join_type_name(None, cased_enum.as_str())),
        Some(singular) => {
            if singular.is_empty() {
                None
            } else {
                let cased_table = to_pascal_case(singular);
                Some(join_type_name(Some(cased_table.as_str()), cased_enum.as_str()))
            }
        },
    }
}

/// The singular of the table that owns `custom_enum`, where one does.
pub(crate) fn singular_table_of(custom_enum: &CustomEnum) -> (singular: Option<String>)
    ensures
        singular is Some <==> custom_enum.child_of_table is Some,
{
    match &custom_enum.child_of_table {
        Some(table) => Some(singular_of(table.as_str())),
        None => None,
    }
}

/// Names the enum that `custom_enum` translates to.
///
/// An enum without an owning table is named by the Pascal case of its own
/// name. An enum with one is named as [`scoped_name`] says, for the singular
/// that the pluralization rules give to the table's name; `None` is returned
/// where that singular is empty.
pub fn name_type(custom_enum: &CustomEnum) -> (name: Option<String>)
    ensures
        custom_enum.child_of_table is None ==> name.deep_view() == scoped_name(
            custom_enum.name@,
            None,
        ),
        custom_enum.child_of_table is Some ==> exists|singular: Seq<char>|
            name.deep_view() == #[trigger] scoped_name(custom_enum.name@, Some(singular)),
{
    let singular = singular_table_of(custom_enum);
    match &singular {
        Some(text) => name_type_from_singular(custom_enum.name.as_str(), Some(text.as_str())),
        None => name_type_from_singular(custom_enum.name.as_str(), None),
    }
}

} // verus!
