//! The translation of a schema enum into the enum to generate.

use crate::derives::{lemma_resolved_derives_no_duplicates, resolve_derives, resolved_derives};
use crate::model::{
    enum_typename_attribute, enum_variant_rename_attribute, enum_variant_rename_attribute_serde,
    AttributeView, CodegenOptions, CodegenOptionsView, CustomEnum, CustomEnumVariant,
    CustomEnumView, EnumView, RustDbSetAttribute, RustDbSetEnum, RustDbSetEnumVariant,
    VariantView,
};
use crate::naming::{
    name_type_from_singular, name_variant, pascal_case, scoped_name, singular_table_of,
};
use vstd::prelude::*;

verus! {

/// The part of a schema enum that a translation found unusable.
#[derive(Debug, Clone, Copy, PartialEq, Eq)]
pub enum InvalidField {
    /// The enum has no variant.
    Variants,
    /// The owning table's name has no singular to prefix the enum's name with.
    ChildOfTable,
}

/// Why a schema enum was not translated.
#[derive(Debug, Clone, PartialEq, Eq)]
pub struct TranslateError {
    /// The schema name of the enum that was given up.
    pub enum_name: String,
    /// The field that made it unusable.
    pub field: InvalidField,
}

/// The view of a [`TranslateError`].
pub struct TranslateErrorView {
    pub enum_name: Seq<char>,
    pub field: InvalidField,
}

impl View for TranslateError {
    type V = TranslateErrorView;

    open spec fn view(&self) -> TranslateErrorView {
        TranslateErrorView { enum_name: self.enum_name@, field: self.field }
    }
}

/// The outcome of a translation, over views.
pub open spec fn outcome_view(outcome: Result<RustDbSetEnum, TranslateError>) -> Result<
    EnumView,
    TranslateErrorView,
> {
    match outcome {
        Ok(rust_enum) => Ok(rust_enum@),
        Err(error) => Err(error@),
    }
}

/// The outcome that gives up the enum called `enum_name` over `field`.
pub open spec fn refusal(enum_name: Seq<char>, field: InvalidField) -> Result<
    EnumView,
    TranslateErrorView,
> {
    Err(TranslateErrorView { enum_name, field })
}

/// The attributes of a generated enum: the name of its database type where
/// the schema gives one, and nothing else.
pub open spec fn type_attributes(physical_type_name: Option<Seq<char>>) -> Seq<AttributeView> {
    match physical_type_name {
        Some(name) => seq![AttributeView::TypeName(name)],
        None => Seq::empty(),
    }
}

/// The attributes of the variant that the schema calls `schema_name`. Each
/// binds the variant to that very name: first for storage, then, where
/// serialization is asked for, for serialization.
pub open spec fn variant_attributes(schema_name: Seq<char>, serde: bool) -> Seq<AttributeView> {
    if serde {
        seq![AttributeView::Rename(schema_name), AttributeView::RenameSerde(schema_name)]
    } else {
        seq![AttributeView::Rename(schema_name)]
    }
}

/// The variant called `name` that stands for the schema's `schema_name`.
pub open spec fn bound_variant(name: Seq<char>, schema_name: Seq<char>, serde: bool) -> VariantView {
    VariantView { name, attributes: variant_attributes(schema_name, serde) }
}

/// The generated variant for the variant that the schema calls `schema_name`:
/// named by the Pascal case of that name, and bound to the name itself.
pub open spec fn translated_variant(schema_name: Seq<char>, serde: bool) -> VariantView {
    bound_variant(pascal_case(schema_name), schema_name, serde)
}

/// The generated variants, one for each schema variant and in their order.
pub open spec fn translated_variants(schema_names: Seq<Seq<char>>, serde: bool) -> Seq<
    VariantView,
> {
    Seq::new(schema_names.len(), |i: int| translated_variant(schema_names[i], serde))
}

/// What a schema enum translates to, given the singular of the table that
/// owns it, where one does.
///
/// An enum without variants is refused, and so is one whose owning table has
/// an empty singular. Every other enum is translated in full.
pub open spec fn translated(
    custom_enum: CustomEnumView,
    singular_table: Option<Seq<char>>,
    options: CodegenOptionsView,
) -> Result<EnumView, TranslateErrorView> {
    if custom_enum.variants.len() == 0 {
        refusal(custom_enum.name, InvalidField::Variants)
    } else {
        match scoped_name(custom_enum.name, singular_table) {
            None => refusal(custom_enum.name, InvalidField::ChildOfTable),
            Some(name) => Ok(
                EnumView {
                    name,
                    attributes: type_attributes(custom_enum.physical_type_name),
                    variants: translated_variants(custom_enum.variants, options.serde),
                    derives: resolved_derives(options.enum_derives, options.serde),
                    comment: custom_enum.comments,
                },
            ),
        }
    }
}

/// Whether `outcome` is what `custom_enum` translates to for some singular of
/// its owning table, and for no singular where it has no owning table.
pub open spec fn is_translation_of(
    custom_enum: CustomEnumView,
    options: CodegenOptionsView,
    outcome: Result<EnumView, TranslateErrorView>,
) -> bool {
    exists|singular_table: Option<Seq<char>>|
        (singular_table is Some <==> custom_enum.child_of_table is Some) && outcome
            == #[trigger] translated(custom_enum, singular_table, options)
}

/// The name that an attribute carries.
pub open spec fn carried_name(attribute: AttributeView) -> Seq<char> {
    match attribute {
        AttributeView::TypeName(name) => name,
        AttributeView::Rename(name) => name,
        AttributeView::RenameSerde(name) => name,
    }
}

/// Every generated variant is bound to the schema name of the variant it
/// stands for, character for character: it has a storage rename that carries
/// that name, where serialization is asked for a serialization rename that
/// carries it too, and no attribute that carries anything else.
pub proof fn lemma_renames_carry_schema_names(
    custom_enum: CustomEnumView,
    singular_table: Option<Seq<char>>,
    options: CodegenOptionsView,
    i: int,
)
    requires
        translated(custom_enum, singular_table, options) is Ok,
        0 <= i < custom_enum.variants.len(),
    ensures
        ({
            let variant = translated(custom_enum, singular_table, options)->Ok_0.variants[i];
            &&& variant.attributes.len() == if options.serde {
                2int
            } else {
                1int
            }
            &&& variant.attributes[0] == AttributeView::Rename(custom_enum.variants[i])
            &&& options.serde ==> variant.attributes[1] == AttributeView::RenameSerde(
                custom_enum.variants[i],
            )
            &&& forall|j: int|
                0 <= j < variant.attributes.len() ==> carried_name(#[trigger] variant.attributes[j])
                    == custom_enum.variants[i]
        }),
{
}

/// A translated enum has its variants in the order of the schema: as many as
/// the schema enum has, the one at each place named after the schema variant
/// at that place.
pub proof fn lemma_variants_keep_order(
    custom_enum: CustomEnumView,
    singular_table: Option<Seq<char>>,
    options: CodegenOptionsView,
)
    requires
        translated(custom_enum, singular_table, options) is Ok,
    ensures
        ({
            let variants = translated(custom_enum, singular_table, options)->Ok_0.variants;
            &&& variants.len() == custom_enum.variants.len()
            &&& forall|i: int|
                0 <= i < variants.len() ==> (#[trigger] variants[i]).name == pascal_case(
                    custom_enum.variants[i],
                )
        }),
{
}

/// A translation succeeds exactly where the enum has a variant and the
/// singular of its owning table, if it has one, is not empty. The options
/// have no part in it.
pub proof fn lemma_success_is_owed(
    custom_enum: CustomEnumView,
    singular_table: Option<Seq<char>>,
    options: CodegenOptionsView,
)
    ensures
        translated(custom_enum, singular_table, options) is Ok <==> custom_enum.variants.len() > 0
            && !(singular_table matches Some(singular) && singular.len() == 0),
{
}

/// Where the requested derives hold no derive twice, neither do the derives
/// of the translated enum.
pub proof fn lemma_translated_derives_no_duplicates(
    custom_enum: CustomEnumView,
    singular_table: Option<Seq<char>>,
    options: CodegenOptionsView,
)
    requires
        translated(custom_enum, singular_table, options) is Ok,
        options.enum_derives.no_duplicates(),
    ensures
        translated(custom_enum, singular_table, options)->Ok_0.derives.no_duplicates(),
{
    lemma_resolved_derives_no_duplicates(options.enum_derives, options.serde);
}

/// Builds the variant called `name` and binds it to `schema_name`: by a
/// storage rename, and behind it, where `serde` is set, by a serialization
/// rename.
pub fn bind_variant(name: String, schema_name: &str, serde: bool) -> (variant: RustDbSetEnumVariant)
    ensures
        variant@ == bound_variant(name@, schema_name@, serde),
{
    let mut attributes: Vec<RustDbSetAttribute> = Vec::new();
    attributes.push(enum_variant_rename_attribute(schema_name));
    if serde {
        attributes.push(enum_variant_rename_attribute_serde(schema_name));
    }
    let variant = RustDbSetEnumVariant { name, attributes };
    assert(variant@.attributes =~= variant_attributes(schema_name@, serde));
    variant
}

/// Translates one schema variant.
pub fn translate_variant(variant: &CustomEnumVariant, serde: bool) -> (translated:
    RustDbSetEnumVariant)
    ensures
        translated@ == translated_variant(variant@, serde),
{
    bind_variant(name_variant(variant.name.as_str()), variant.name.as_str(), serde)
}

/// Translates the variants of a schema enum, keeping their order.
fn translate_variants(variants: &Vec<CustomEnumVariant>, serde: bool) -> (translated: Vec<
    RustDbSetEnumVariant,
>)
    ensures
        translated.deep_view() == translated_variants(variants.deep_view(), serde),
{
    let mut translated: Vec<RustDbSetEnumVariant> = Vec::new();
    let mut i: usize = 0;
    while i < variants.len()
        invariant
            i <= variants.len(),
            translated.len() == i,
            forall|j: int| 0 <= j < i ==> translated[j]@ == translated_variant(variants[j]@, serde),
        decreases variants.len() - i,
    {
        translated.push(translate_variant(&variants[i], serde));
        i += 1;
    }
    assert(translated.deep_view() =~= translated_variants(variants.deep_view(), serde));
    translated
}

/// The attributes of the generated enum itself.
fn translate_type_attributes(physical_type_name: &Option<String>) -> (attributes: Vec<
    RustDbSetAttribute,
>)
    ensures
        attributes.deep_view() == type_attributes(physical_type_name.deep_view()),
{
    let mut attributes: Vec<RustDbSetAttribute> = Vec::new();
    if let Some(name) = physical_type_name {
        attributes.push(enum_typename_attribute(name.as_str()));
    }
    assert(attributes.deep_view() =~= type_attributes(physical_type_name.deep_view()));
    attributes
}

/// A copy of an optional text.
fn copy_text(text: &Option<String>) -> (copy: Option<String>)
    ensures
        copy.deep_view() == text.deep_view(),
{
    match text {
        Some(text) => Some(text.clone()),
        None => None,
    }
}

/// Gives up `custom_enum` over `field`.
fn refuse(custom_enum: &CustomEnum, field: InvalidField) -> (outcome: Result<
    RustDbSetEnum,
    TranslateError,
>)
    ensures
        outcome_view(outcome) == refusal(custom_enum.name@, field),
{
    Err(TranslateError { enum_name: custom_enum.name.clone(), field })
}

/// Translates `custom_enum`, given the singular of the table that owns it.
///
/// `singular_table` is taken as it is given: with `None` the enum is named as
/// one that no table owns, whatever `custom_enum.child_of_table` holds. The
/// result is exactly [`translated`]: an enum without variants is refused over
/// its variants, an empty singular over the owning table, and every other
/// input gives the whole enum.
pub fn convert_db_enum_with_singular(
    custom_enum: &CustomEnum,
    singular_table: Option<&str>,
    options: &CodegenOptions,
) -> (outcome: Result<RustDbSetEnum, TranslateError>)
    ensures
        outcome_view(outcome) == translated(custom_enum@, singular_table.deep_view(), options@),
{
    if custom_enum.variants.len() == 0 {
        return refuse(custom_enum, InvalidField::Variants);
    }
    match name_type_from_singular(custom_enum.name.as_str(), singular_table) {
        None => refuse(custom_enum, InvalidField::ChildOfTable),
        Some(name) => Ok(
            RustDbSetEnum {
                name,
                attributes: translate_type_attributes(&custom_enum.physical_type_name),
                variants: translate_variants(&custom_enum.variants, options.serde),
                derives: resolve_derives(options.enum_derives.as_slice(), options.serde),
                comment: copy_text(&custom_enum.comments),
            },
        ),
    }
}

/// Translates `custom_enum` into the enum to generate for it.
///
/// The enum is refused over its variants exactly where it has none. An enum
/// that no table owns is otherwise translated as [`translated`] says without
/// a singular. For an enum that a table owns, the pluralization rules decide
/// the singular of the table's name, and the outcome is [`translated`] for
/// that singular.
///
/// Whatever the singular, a translated enum has one variant for each schema
/// variant, in the schema's order, each bound to its schema name; it has the
/// resolved derives, the database type where one is given, and the schema's
/// comment.
pub fn convert_db_enum_to_rust_enum(custom_enum: &CustomEnum, options: &CodegenOptions) -> (outcome:
    Result<RustDbSetEnum, TranslateError>)
    ensures
        is_translation_of(custom_enum@, options@, outcome_view(outcome)),
        custom_enum.child_of_table is None ==> outcome_view(outcome) == translated(
            custom_enum@,
            None,
            options@,
        ),
        custom_enum.variants.len() > 0 && custom_enum.child_of_table is None ==> outcome is Ok,
        custom_enum.variants.len() == 0 <==> outcome_view(outcome) == refusal(
            custom_enum.name@,
            InvalidField::Variants,
        ),
        outcome is Err && custom_enum.variants.len() > 0 ==> custom_enum.child_of_table is Some
            && outcome_view(outcome) == refusal(custom_enum.name@, InvalidField::ChildOfTable),
        outcome matches Ok(rust_enum) ==> rust_enum@.variants == translated_variants(
            custom_enum@.variants,
            options.serde,
        ),
        outcome matches Ok(rust_enum) ==> rust_enum@.derives == resolved_derives(
            options@.enum_derives,
            options.serde,
        ),
        outcome matches Ok(rust_enum) ==> rust_enum@.attributes == type_attributes(
            custom_enum@.physical_type_name,
        ),
        outcome matches Ok(rust_enum) ==> rust_enum@.comment == custom_enum@.comments,
{
    let singular = singular_table_of(custom_enum);
    match &singular {
        Some(text) => convert_db_enum_with_singular(custom_enum, Some(text.as_str()), options),
        None => convert_db_enum_with_singular(custom_enum, None, options),
    }
}

/// Translates every enum of a schema.
///
/// The outcomes stand in the order of `custom_enums`, one for each. An enum
/// that is refused does not stop the others: whether to go on without it is
/// for the caller to decide.
pub fn convert_db_enums_to_rust_enum(custom_enums: Vec<CustomEnum>, options: &CodegenOptions) -> (outcomes:
    Vec<Result<RustDbSetEnum, TranslateError>>)
    ensures
        outcomes.len() == custom_enums.len(),
        forall|i: int|
            0 <= i < outcomes.len() ==> is_translation_of(
                custom_enums[i]@,
                options@,
                #[trigger] outcome_view(outcomes[i]),
            ),
{
    let mut outcomes: Vec<Result<RustDbSetEnum, TranslateError>> = Vec::new();
    let mut i: usize = 0;
    while i < custom_enums.len()
        invariant
            i <= custom_enums.len(),
            outcomes.len() == i,
            forall|j: int|
                0 <= j < i ==> is_translation_of(
                    custom_enums[j]@,
                    options@,
                    #[trigger] outcome_view(outcomes[j]),
                ),
        decreases custom_enums.len() - i,
    {
        outcomes.push(convert_db_enum_to_rust_enum(&custom_enums[i], options));
        i += 1;
    }
    outcomes
}

} // verus!
