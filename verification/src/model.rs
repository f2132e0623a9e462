//! The schema side and the Rust side of a translation, and their views.
//!
//! Each type has a view that holds its texts as `Seq<char>`; the contracts of
//! the crate are stated over these views.

use vstd::prelude::*;

verus! {

/// One variant of a database enum, as the schema names it.
#[derive(Debug, Clone, PartialEq, Eq)]
pub struct CustomEnumVariant {
    pub name: String,
}

/// A database enum as the schema describes it.
#[derive(Debug, Clone, PartialEq, Eq)]
pub struct CustomEnum {
    /// The name of the enum in the schema.
    pub name: String,
    /// The table that owns the enum, where one does.
    pub child_of_table: Option<String>,
    /// The name of the database type that stores the enum, where it is given.
    pub physical_type_name: Option<String>,
    /// The variants, in the order of the schema.
    pub variants: Vec<CustomEnumVariant>,
    /// Free text that documents the enum.
    pub comments: Option<String>,
}

/// What a caller asks of the generated code.
#[derive(Debug, Clone, PartialEq, Eq)]
pub struct CodegenOptions {
    /// Whether the generated enums support serialization.
    pub serde: bool,
    /// The derives requested for every generated enum; empty for the defaults.
    pub enum_derives: Vec<String>,
}

/// An attribute of a generated enum or of one of its variants.
#[derive(Debug, Clone, PartialEq, Eq)]
pub enum RustDbSetAttribute {
    /// Names the database type that stores the enum.
    TypeName(String),
    /// Binds a variant to the name it is stored under.
    Rename(String),
    /// Binds a variant to the name it is serialized under.
    RenameSerde(String),
}

/// One variant of a generated enum.
#[derive(Debug, Clone, PartialEq, Eq)]
pub struct RustDbSetEnumVariant {
    pub name: String,
    pub attributes: Vec<RustDbSetAttribute>,
}

/// A generated enum, ready for a code emitter.
#[derive(Debug, Clone, PartialEq, Eq)]
pub struct RustDbSetEnum {
    pub name: String,
    pub attributes: Vec<RustDbSetAttribute>,
    pub variants: Vec<RustDbSetEnumVariant>,
    pub derives: Vec<String>,
    pub comment: Option<String>,
}

/// The view of a [`CustomEnum`]; a variant is viewed as its name.
pub struct CustomEnumView {
    pub name: Seq<char>,
    pub child_of_table: Option<Seq<char>>,
    pub physical_type_name: Option<Seq<char>>,
    pub variants: Seq<Seq<char>>,
    pub comments: Option<Seq<char>>,
}

/// The view of a [`CodegenOptions`].
pub struct CodegenOptionsView {
    pub serde: bool,
    pub enum_derives: Seq<Seq<char>>,
}

/// The view of a [`RustDbSetAttribute`].
pub enum AttributeView {
    TypeName(Seq<char>),
    Rename(Seq<char>),
    RenameSerde(Seq<char>),
}

/// The view of a [`RustDbSetEnumVariant`].
pub struct VariantView {
    pub name: Seq<char>,
    pub attributes: Seq<AttributeView>,
}

/// The view of a [`RustDbSetEnum`].
pub struct EnumView {
    pub name: Seq<char>,
    pub attributes: Seq<AttributeView>,
    pub variants: Seq<VariantView>,
    pub derives: Seq<Seq<char>>,
    pub comment: Option<Seq<char>>,
}

impl View for CustomEnumVariant {
    type V = Seq<char>;

    open spec fn view(&self) -> Seq<char> {
        self.name@
    }
}

impl DeepView for CustomEnumVariant {
    type V = Seq<char>;

    open spec fn deep_view(&self) -> Seq<char> {
        self@
    }
}

impl View for CustomEnum {
    type V = CustomEnumView;

    open spec fn view(&self) -> CustomEnumView {
        CustomEnumView {
            name: self.name@,
            child_of_table: self.child_of_table.deep_view(),
            physical_type_name: self.physical_type_name.deep_view(),
            variants: self.variants.deep_view(),
            comments: self.comments.deep_view(),
        }
    }
}

impl DeepView for CustomEnum {
    type V = CustomEnumView;

    open spec fn deep_view(&self) -> CustomEnumView {
        self@
    }
}

impl View for CodegenOptions {
    type V = CodegenOptionsView;

    open spec fn view(&self) -> CodegenOptionsView {
        CodegenOptionsView { serde: self.serde, enum_derives: self.enum_derives.deep_view() }
    }
}

impl View for RustDbSetAttribute {
    type V = AttributeView;

    open spec fn view(&self) -> AttributeView {
        match self {
            RustDbSetAttribute::TypeName(name) => AttributeView::TypeName(name@),
            RustDbSetAttribute::Rename(name) => AttributeView::Rename(name@),
            RustDbSetAttribute::RenameSerde(name) => AttributeView::RenameSerde(name@),
        }
    }
}

impl DeepView for RustDbSetAttribute {
    type V = AttributeView;

    open spec fn deep_view(&self) -> AttributeView {
        self@
    }
}

impl View for RustDbSetEnumVariant {
    type V = VariantView;

    open spec fn view(&self) -> VariantView {
        VariantView { name: self.name@, attributes: self.attributes.deep_view() }
    }
}

impl DeepView for RustDbSetEnumVariant {
    type V = VariantView;

    open spec fn deep_view(&self) -> VariantView {
        self@
    }
}

impl View for RustDbSetEnum {
    type V = EnumView;

    open spec fn view(&self) -> EnumView {
        EnumView {
            name: self.name@,
            attributes: self.attributes.deep_view(),
            variants: self.variants.deep_view(),
            derives: self.derives.deep_view(),
            comment: self.comment.deep_view(),
        }
    }
}

impl DeepView for RustDbSetEnum {
    type V = EnumView;

    open spec fn deep_view(&self) -> EnumView {
        self@
    }
}

/// The attribute that names the database type of an enum.
pub fn enum_typename_attribute(physical_name: &str) -> (attribute: RustDbSetAttribute)
    ensures
        attribute@ == AttributeView::TypeName(physical_name@),
{
    RustDbSetAttribute::TypeName(String::from_str(physical_name))
}

/// The attribute that binds a variant to the name it is stored under.
pub fn enum_variant_rename_attribute(name: &str) -> (attribute: RustDbSetAttribute)
    ensures
        attribute@ == AttributeView::Rename(name@),
{
    RustDbSetAttribute::Rename(String::from_str(name))
}

/// The attribute that binds a variant to the name it is serialized under.
pub fn enum_variant_rename_attribute_serde(name: &str) -> (attribute: RustDbSetAttribute)
    ensures
        attribute@ == AttributeView::RenameSerde(name@),
{
    RustDbSetAttribute::RenameSerde(String::from_str(name))
}

} // verus!
