//! The shape of a native type definition, as the derive generator reads it.
//!
//! The generator is a compile-time source transformer: all it consumes of a
//! type definition is its name, its generic parameters, and the shape of its
//! fields or variants — plain names and type tags, plus the optional per-field
//! rename attribute, the only configuration surface the generator exposes.

use vstd::prelude::*;

use crate::convert::TypeTag;
use crate::convert::TypeTagModel;

verus! {

/// One field of a struct definition: its name (absent for a tuple-style
/// field), the optional rename attribute, and its type.
#[derive(Debug)]
pub struct FieldDef {
    pub name: Option<String>,
    pub rename: Option<String>,
    pub ty: TypeTag,
}

/// Mathematical model of a field definition.
pub struct FieldDefModel {
    pub name: Option<Seq<char>>,
    pub rename: Option<Seq<char>>,
    pub ty: TypeTagModel,
}

impl DeepView for FieldDef {
    type V = FieldDefModel;

    open spec fn deep_view(&self) -> FieldDefModel {
        FieldDefModel {
            name: self.name.deep_view(),
            rename: self.rename.deep_view(),
            ty: self.ty.deep_view(),
        }
    }
}

/// The field shape of one enum variant.
#[derive(Debug)]
pub enum VariantFields {
    /// No fields: a unit variant.
    Unit,
    /// Unnamed (tuple-style) fields, by type.
    Unnamed(Vec<TypeTag>),
    /// Named fields.
    Named,
}

/// Mathematical model of a variant's field shape.
pub enum VariantFieldsModel {
    Unit,
    Unnamed(Seq<TypeTagModel>),
    Named,
}

impl DeepView for VariantFields {
    type V = VariantFieldsModel;

    open spec fn deep_view(&self) -> VariantFieldsModel {
        match self {
            VariantFields::Unit => VariantFieldsModel::Unit,
            VariantFields::Unnamed(tys) => VariantFieldsModel::Unnamed(tys.deep_view()),
            VariantFields::Named => VariantFieldsModel::Named,
        }
    }
}

/// One variant of an enum definition.
#[derive(Debug)]
pub struct VariantDef {
    pub name: String,
    pub fields: VariantFields,
}

/// Mathematical model of a variant definition.
pub struct VariantDefModel {
    pub name: Seq<char>,
    pub fields: VariantFieldsModel,
}

impl DeepView for VariantDef {
    type V = VariantDefModel;

    open spec fn deep_view(&self) -> VariantDefModel {
        VariantDefModel { name: self.name@, fields: self.fields.deep_view() }
    }
}

/// One generic parameter of the type definition.
#[derive(Debug)]
pub enum GenericParamDef {
    TypeParam(String),
    LifetimeParam(String),
    ConstParam(String),
}

/// Mathematical model of a generic parameter.
pub enum GenericParamModel {
    TypeParam(Seq<char>),
    LifetimeParam(Seq<char>),
    ConstParam(Seq<char>),
}

impl DeepView for GenericParamDef {
    type V = GenericParamModel;

    open spec fn deep_view(&self) -> GenericParamModel {
        match self {
            GenericParamDef::TypeParam(n) => GenericParamModel::TypeParam(n@),
            GenericParamDef::LifetimeParam(n) => GenericParamModel::LifetimeParam(n@),
            GenericParamDef::ConstParam(n) => GenericParamModel::ConstParam(n@),
        }
    }
}

/// The data shape of the type definition.
#[derive(Debug)]
pub enum DataDef {
    StructData(Vec<FieldDef>),
    EnumData(Vec<VariantDef>),
    UnionData,
}

/// Mathematical model of the data shape.
pub enum DataDefModel {
    StructData(Seq<FieldDefModel>),
    EnumData(Seq<VariantDefModel>),
    UnionData,
}

impl DeepView for DataDef {
    type V = DataDefModel;

    open spec fn deep_view(&self) -> DataDefModel {
        match self {
            DataDef::StructData(fields) => DataDefModel::StructData(fields.deep_view()),
            DataDef::EnumData(variants) => DataDefModel::EnumData(variants.deep_view()),
            DataDef::UnionData => DataDefModel::UnionData,
        }
    }
}

/// A native type definition as handed to the derive generator: the type's
/// name, its generic parameters in declaration order, and its data shape.
#[derive(Debug)]
pub struct DeriveInputDef {
    pub ident: String,
    pub generics: Vec<GenericParamDef>,
    pub data: DataDef,
}

/// Mathematical model of a type definition.
pub struct DeriveInputModel {
    pub ident: Seq<char>,
    pub generics: Seq<GenericParamModel>,
    pub data: DataDefModel,
}

impl DeepView for DeriveInputDef {
    type V = DeriveInputModel;

    open spec fn deep_view(&self) -> DeriveInputModel {
        DeriveInputModel {
            ident: self.ident@,
            generics: self.generics.deep_view(),
            data: self.data.deep_view(),
        }
    }
}

/// The conditions under which the derive generator refuses a type definition
/// rather than emit a conversion that would misbehave.
#[derive(Clone, Copy, Debug, PartialEq, Eq, Structural)]
pub enum DeriveError {
    /// Only structs and enums are supported.
    UnsupportedData,
    /// Struct fields require names: tuple-style structs are rejected.
    UnnamedField,
    /// An enum variant must be a unit variant or hold exactly one unnamed
    /// field.
    BadVariantShape,
    /// At most one unit variant may serve as the fallback.
    DuplicateFallback,
}

} // verus!
