//! The derive generator for the read direction: from a native type
//! definition, the plan for reading that type out of a boxed value.
//!
//! A struct reads as a runtime object: every field is looked up by its bound
//! key and converted; one missing property or failed conversion fails the
//! whole read, so a partially built struct is never exposed.  An enum reads by
//! trying its single-field variants in declaration order against the same
//! boxed value — first success wins, so declaration order is part of the
//! type's contract — with the at most one unit variant as the fallback.
//!
//! For every generic type parameter the generated implementation requires
//! that the parameter itself can be read from a boxed value with the same
//! borrowed lifetime; every lifetime parameter must be outlived by the boxed
//! value's own borrow.

use vstd::prelude::*;

use crate::derive_model::DataDef;
use crate::derive_model::DataDefModel;
use crate::derive_model::DeriveError;
use crate::derive_model::DeriveInputDef;
use crate::derive_model::DeriveInputModel;
use crate::derive_model::FieldDef;
use crate::derive_model::GenericParamDef;
use crate::derive_model::GenericParamModel;
use crate::derive_model::VariantDef;
use crate::derive_model::VariantFields;
use crate::plan::PropBinding;
use crate::plan::PropBindingModel;
use crate::plan::VariantBinding;
use crate::plan::VariantBindingModel;
use crate::plan::enum_scan_spec;
use crate::plan::lemma_enum_scan_err_prefix;
use crate::plan::lemma_struct_bindings_err_prefix;
use crate::plan::struct_bindings_spec;

verus! {

/// One constraint of the generated read implementation.
#[derive(Debug, PartialEq)]
pub enum FromBound {
    /// The named type parameter must itself be readable from a boxed value
    /// borrowed with the same lifetime.
    ParamFromBoxed(String),
    /// The boxed value's borrow lifetime must outlive the named lifetime
    /// parameter.
    ZvalOutlives(String),
}

/// Mathematical model of a read constraint.
pub enum FromBoundModel {
    ParamFromBoxed(Seq<char>),
    ZvalOutlives(Seq<char>),
}

impl DeepView for FromBound {
    type V = FromBoundModel;

    open spec fn deep_view(&self) -> FromBoundModel {
        match self {
            FromBound::ParamFromBoxed(n) => FromBoundModel::ParamFromBoxed(n@),
            FromBound::ZvalOutlives(n) => FromBoundModel::ZvalOutlives(n@),
        }
    }
}

/// The body of the generated read implementation.
#[derive(Debug, PartialEq)]
pub enum FromBody {
    /// Read a runtime object property for every field binding.
    StructObject(Vec<PropBinding>),
    /// Try each variant binding in declaration order, with the optional unit
    /// fallback.
    EnumTrials(Vec<VariantBinding>, Option<String>),
}

/// Mathematical model of a read body.
pub enum FromBodyModel {
    StructObject(Seq<PropBindingModel>),
    EnumTrials(Seq<VariantBindingModel>, Option<Seq<char>>),
}

impl DeepView for FromBody {
    type V = FromBodyModel;

    open spec fn deep_view(&self) -> FromBodyModel {
        match self {
            FromBody::StructObject(bs) => FromBodyModel::StructObject(bs.deep_view()),
            FromBody::EnumTrials(bs, fallback) => FromBodyModel::EnumTrials(
                bs.deep_view(),
                fallback.deep_view(),
            ),
        }
    }
}

impl FromBody {
    /// The discriminant the generated read declares it accepts: a struct
    /// reads a runtime object, an enum accepts any value and sorts it out by
    /// trial.  Introspective only; the conversions themselves check payloads.
    pub fn accepted_type(&self) -> (r: crate::value::DataType)
        ensures
            r == (match self {
                FromBody::StructObject(_) => crate::value::DataType::Object,
                FromBody::EnumTrials(..) => crate::value::DataType::Mixed,
            }),
    {
        match self {
            FromBody::StructObject(_) => crate::value::DataType::Object,
            FromBody::EnumTrials(..) => crate::value::DataType::Mixed,
        }
    }
}

/// The generated read implementation for one native type.
#[derive(Debug, PartialEq)]
pub struct FromImpl {
    pub ident: String,
    pub bounds: Vec<FromBound>,
    pub body: FromBody,
}

/// Mathematical model of a generated read implementation.
pub struct FromImplModel {
    pub ident: Seq<char>,
    pub bounds: Seq<FromBoundModel>,
    pub body: FromBodyModel,
}

impl DeepView for FromImpl {
    type V = FromImplModel;

    open spec fn deep_view(&self) -> FromImplModel {
        FromImplModel {
            ident: self.ident@,
            bounds: self.bounds.deep_view(),
            body: self.body.deep_view(),
        }
    }
}

/// The constraints the read implementation needs: one per type parameter, in
/// declaration order, and one per lifetime parameter.
pub open spec fn from_bounds_spec(gs: Seq<GenericParamModel>) -> Seq<FromBoundModel>
    decreases gs.len(),
{
    if gs.len() == 0 {
        Seq::empty()
    } else {
        from_bounds_spec(gs.drop_last()) + (match gs.last() {
            GenericParamModel::TypeParam(n) => seq![FromBoundModel::ParamFromBoxed(n)],
            GenericParamModel::LifetimeParam(n) => seq![FromBoundModel::ZvalOutlives(n)],
            GenericParamModel::ConstParam(_) => Seq::<FromBoundModel>::empty(),
        })
    }
}

/// What the read-direction generator produces for a type definition, or the
/// error on which it refuses the definition.
pub open spec fn from_impl_spec(d: DeriveInputModel) -> Result<FromImplModel, DeriveError> {
    match d.data {
        DataDefModel::StructData(fs) => match struct_bindings_spec(fs) {
            Ok(bs) => Ok(
                FromImplModel {
                    ident: d.ident,
                    bounds: from_bounds_spec(d.generics),
                    body: FromBodyModel::StructObject(bs),
                },
            ),
            Err(e) => Err(e),
        },
        DataDefModel::EnumData(vs) => match enum_scan_spec(vs) {
            Ok((bs, fallback)) => Ok(
                FromImplModel {
                    ident: d.ident,
                    bounds: from_bounds_spec(d.generics),
                    body: FromBodyModel::EnumTrials(bs, fallback),
                },
            ),
            Err(e) => Err(e),
        },
        DataDefModel::UnionData => Err(DeriveError::UnsupportedData),
    }
}

/// Collects the generated implementation's constraints from the generic
/// parameters.
fn collect_bounds(generics: &Vec<GenericParamDef>) -> (r: Vec<FromBound>)
    ensures
        r.deep_view() == from_bounds_spec(generics.deep_view()),
{
    let mut bounds: Vec<FromBound> = Vec::new();
    let mut i: usize = 0;
    proof {
        assert(generics.deep_view().take(0) =~= Seq::<GenericParamModel>::empty());
    }
    while i < generics.len()
        invariant
            i <= generics@.len(),
            generics.deep_view().len() == generics@.len(),
            bounds.deep_view() == from_bounds_spec(generics.deep_view().take(i as int)),
        decreases generics@.len() - i,
    {
        proof {
            assert(generics.deep_view().take(i + 1).drop_last() =~= generics.deep_view().take(
                i as int,
            ));
            assert(generics.deep_view().take(i + 1).last() == generics.deep_view()[i as int]);
        }
        match &generics[i] {
            GenericParamDef::TypeParam(n) => {
                bounds.push(FromBound::ParamFromBoxed(n.clone()));
            },
            GenericParamDef::LifetimeParam(n) => {
                bounds.push(FromBound::ZvalOutlives(n.clone()));
            },
            GenericParamDef::ConstParam(_) => {},
        }
        proof {
            assert(bounds.deep_view() =~= from_bounds_spec(
                generics.deep_view().take(i + 1),
            ));
        }
        i = i + 1;
    }
    proof {
        assert(generics.deep_view().take(generics@.len() as int) =~= generics.deep_view());
    }
    bounds
}

/// Generates the read implementation for a struct: one property read per
/// named field, rejecting a tuple-style field.
fn parse_struct(fields: &Vec<FieldDef>, ident: &String, bounds: Vec<FromBound>) -> (r: Result<
    FromImpl,
    DeriveError,
>)
    ensures
        match r {
            Ok(out) => struct_bindings_spec(fields.deep_view()) is Ok && out.deep_view()
                == (FromImplModel {
                ident: ident@,
                bounds: bounds.deep_view(),
                body: FromBodyModel::StructObject(
                    struct_bindings_spec(fields.deep_view())->Ok_0,
                ),
            }),
            Err(e) => struct_bindings_spec(fields.deep_view()) == Err::<
                Seq<PropBindingModel>,
                DeriveError,
            >(e),
        },
{
    let ghost fs = fields.deep_view();
    let mut reads: Vec<PropBinding> = Vec::new();
    let mut i: usize = 0;
    proof {
        assert(fs.take(0) =~= Seq::<crate::derive_model::FieldDefModel>::empty());
        assert(reads.deep_view() =~= Seq::<PropBindingModel>::empty());
    }
    while i < fields.len()
        invariant
            i <= fields@.len(),
            fs == fields.deep_view(),
            fs.len() == fields@.len(),
            struct_bindings_spec(fs.take(i as int)) == Ok::<_, DeriveError>(reads.deep_view()),
        decreases fields@.len() - i,
    {
        proof {
            assert(fs.take(i + 1).drop_last() =~= fs.take(i as int));
            assert(fs.take(i + 1).last() == fs[i as int]);
        }
        let field = &fields[i];
        match &field.name {
            None => {
                proof {
                    lemma_struct_bindings_err_prefix(fs, i + 1);
                }
                return Err(DeriveError::UnnamedField);
            },
            Some(name) => {
                let key = match &field.rename {
                    Some(rename) => rename.clone(),
                    None => name.clone(),
                };
                reads.push(PropBinding { field: name.clone(), key, ty: field.ty.dup() });
                proof {
                    assert(reads.deep_view() =~= struct_bindings_spec(fs.take(i + 1))->Ok_0);
                }
            },
        }
        i = i + 1;
    }
    proof {
        assert(fs.take(fields@.len() as int) =~= fs);
    }
    Ok(FromImpl { ident: ident.clone(), bounds, body: FromBody::StructObject(reads) })
}

/// Generates the read implementation for an enum: a trial per single-field
/// variant in declaration order, at most one unit fallback, and an error for
/// every other variant shape.
fn parse_enum(variants: &Vec<VariantDef>, ident: &String, bounds: Vec<FromBound>) -> (r: Result<
    FromImpl,
    DeriveError,
>)
    ensures
        match r {
            Ok(out) => enum_scan_spec(variants.deep_view()) is Ok && out.deep_view()
                == (FromImplModel {
                ident: ident@,
                bounds: bounds.deep_view(),
                body: FromBodyModel::EnumTrials(
                    enum_scan_spec(variants.deep_view())->Ok_0.0,
                    enum_scan_spec(variants.deep_view())->Ok_0.1,
                ),
            }),
            Err(e) => enum_scan_spec(variants.deep_view()) == Err::<
                (Seq<VariantBindingModel>, Option<Seq<char>>),
                DeriveError,
            >(e),
        },
{
    let ghost vs = variants.deep_view();
    let mut trials: Vec<VariantBinding> = Vec::new();
    let mut fallback: Option<String> = None;
    let mut i: usize = 0;
    proof {
        assert(vs.take(0) =~= Seq::<crate::derive_model::VariantDefModel>::empty());
        assert(trials.deep_view() =~= Seq::<VariantBindingModel>::empty());
    }
    while i < variants.len()
        invariant
            i <= variants@.len(),
            vs == variants.deep_view(),
            vs.len() == variants@.len(),
            enum_scan_spec(vs.take(i as int)) == Ok::<_, DeriveError>(
                (trials.deep_view(), fallback.deep_view()),
            ),
        decreases variants@.len() - i,
    {
        proof {
            assert(vs.take(i + 1).drop_last() =~= vs.take(i as int));
            assert(vs.take(i + 1).last() == vs[i as int]);
        }
        let variant = &variants[i];
        match &variant.fields {
            VariantFields::Unnamed(tys) => {
                if tys.len() != 1 {
                    proof {
                        lemma_enum_scan_err_prefix(vs, i + 1);
                    }
                    return Err(DeriveError::BadVariantShape);
                }
                trials.push(VariantBinding { variant: variant.name.clone(), ty: tys[0].dup() });
                proof {
                    assert(trials.deep_view() =~= enum_scan_spec(vs.take(i + 1))->Ok_0.0);
                }
            },
            VariantFields::Unit => {
                if fallback.is_some() {
                    proof {
                        lemma_enum_scan_err_prefix(vs, i + 1);
                    }
                    return Err(DeriveError::DuplicateFallback);
                }
                fallback = Some(variant.name.clone());
            },
            VariantFields::Named => {
                proof {
                    lemma_enum_scan_err_prefix(vs, i + 1);
                }
                return Err(DeriveError::BadVariantShape);
            },
        }
        i = i + 1;
    }
    proof {
        assert(vs.take(variants@.len() as int) =~= vs);
    }
    Ok(FromImpl { ident: ident.clone(), bounds, body: FromBody::EnumTrials(trials, fallback) })
}

/// Generates the read implementation for a native type definition: the
/// constraint set from its generic parameters and the body from its data
/// shape.  Only structs and enums are supported.
pub fn parser(input: &DeriveInputDef) -> (r: Result<FromImpl, DeriveError>)
    ensures
        match r {
            Ok(out) => from_impl_spec(input.deep_view()) == Ok::<_, DeriveError>(out.deep_view()),
            Err(e) => from_impl_spec(input.deep_view()) == Err::<FromImplModel, DeriveError>(e),
        },
{
    let bounds = collect_bounds(&input.generics);
    match &input.data {
        DataDef::StructData(fields) => parse_struct(fields, &input.ident, bounds),
        DataDef::EnumData(variants) => parse_enum(variants, &input.ident, bounds),
        DataDef::UnionData => Err(DeriveError::UnsupportedData),
    }
}

} // verus!
