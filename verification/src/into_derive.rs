//! The derive generator for the write direction: from a native type
//! definition, the plan for writing that type into a boxed value.
//!
//! A struct writes as a fresh generic object: every field is converted and set
//! as a named property under its bound key, short-circuiting on the first
//! conversion error, and the completed object is stored into the caller's
//! target slot.  An enum writes by matching the active variant: a single-field
//! variant delegates to its field's conversion, and a unit variant — the
//! fallback included — writes the null discriminant.
//!
//! For every generic type parameter the generated implementation requires
//! that the parameter itself can be written into a boxed value.

use vstd::prelude::*;

use crate::derive_model::DataDef;
use crate::derive_model::DataDefModel;
use crate::derive_model::DeriveError;
use crate::derive_model::DeriveInputDef;
use crate::derive_model::DeriveInputModel;
use crate::derive_model::FieldDef;
use crate::derive_model::GenericParamDef;
use crate::derive_model::GenericParamModel;
use crate::derive_model::VariantDef;
use crate::derive_model::VariantFields;
use crate::plan::PropBinding;
use crate::plan::PropBindingModel;
use crate::plan::VariantBinding;
use crate::plan::VariantBindingModel;
use crate::plan::enum_scan_spec;
use crate::plan::lemma_enum_scan_err_prefix;
use crate::plan::lemma_struct_bindings_err_prefix;
use crate::plan::struct_bindings_spec;

verus! {

/// The body of the generated write implementation.
#[derive(Debug, PartialEq)]
pub enum IntoBody {
    /// Write an object property for every field binding.
    StructObject(Vec<PropBinding>),
    /// Delegate per single-field variant; every unit variant writes null.
    EnumArms(Vec<VariantBinding>, Option<String>),
}

/// Mathematical model of a write body.
pub enum IntoBodyModel {
    StructObject(Seq<PropBindingModel>),
    EnumArms(Seq<VariantBindingModel>, Option<Seq<char>>),
}

impl DeepView for IntoBody {
    type V = IntoBodyModel;

    open spec fn deep_view(&self) -> IntoBodyModel {
        match self {
            IntoBody::StructObject(bs) => IntoBodyModel::StructObject(bs.deep_view()),
            IntoBody::EnumArms(bs, fallback) => IntoBodyModel::EnumArms(
                bs.deep_view(),
                fallback.deep_view(),
            ),
        }
    }
}

impl IntoBody {
    /// The discriminant the generated write declares it produces: a struct
    /// writes a runtime object, an enum's discriminant depends on the active
    /// variant.  Introspective only.
    pub fn produced_type(&self) -> (r: crate::value::DataType)
        ensures
            r == (match self {
                IntoBody::StructObject(_) => crate::value::DataType::Object,
                IntoBody::EnumArms(..) => crate::value::DataType::Mixed,
            }),
    {
        match self {
            IntoBody::StructObject(_) => crate::value::DataType::Object,
            IntoBody::EnumArms(..) => crate::value::DataType::Mixed,
        }
    }
}

/// The generated write implementation for one native type: the type
/// parameters that must themselves be writable, and the body.
#[derive(Debug, PartialEq)]
pub struct IntoImpl {
    pub ident: String,
    pub bounds: Vec<String>,
    pub body: IntoBody,
}

/// Mathematical model of a generated write implementation.
pub struct IntoImplModel {
    pub ident: Seq<char>,
    pub bounds: Seq<Seq<char>>,
    pub body: IntoBodyModel,
}

impl DeepView for IntoImpl {
    type V = IntoImplModel;

    open spec fn deep_view(&self) -> IntoImplModel {
        IntoImplModel {
            ident: self.ident@,
            bounds: self.bounds.deep_view(),
            body: self.body.deep_view(),
        }
    }
}

/// The constraints the write implementation needs: one per type parameter, in
/// declaration order.  Lifetime parameters need no constraint here: a written
/// value is owned by the target cell, not borrowed from it.
pub open spec fn into_bounds_spec(gs: Seq<GenericParamModel>) -> Seq<Seq<char>>
    decreases gs.len(),
{
    if gs.len() == 0 {
        Seq::empty()
    } else {
        into_bounds_spec(gs.drop_last()) + (match gs.last() {
            GenericParamModel::TypeParam(n) => seq![n],
            GenericParamModel::LifetimeParam(_) => Seq::<Seq<char>>::empty(),
            GenericParamModel::ConstParam(_) => Seq::<Seq<char>>::empty(),
        })
    }
}

/// What the write-direction generator produces for a type definition, or the
/// error on which it refuses the definition.
pub open spec fn into_impl_spec(d: DeriveInputModel) -> Result<IntoImplModel, DeriveError> {
    match d.data {
        DataDefModel::StructData(fs) => match struct_bindings_spec(fs) {
            Ok(bs) => Ok(
                IntoImplModel {
                    ident: d.ident,
                    bounds: into_bounds_spec(d.generics),
                    body: IntoBodyModel::StructObject(bs),
                },
            ),
            Err(e) => Err(e),
        },
        DataDefModel::EnumData(vs) => match enum_scan_spec(vs) {
            Ok((bs, fallback)) => Ok(
                IntoImplModel {
                    ident: d.ident,
                    bounds: into_bounds_spec(d.generics),
                    body: IntoBodyModel::EnumArms(bs, fallback),
                },
            ),
            Err(e) => Err(e),
        },
        DataDefModel::UnionData => Err(DeriveError::UnsupportedData),
    }
}

/// Collects the generated implementation's constraints from the generic
/// parameters.
fn collect_bounds(generics: &Vec<GenericParamDef>) -> (r: Vec<String>)
    ensures
        r.deep_view() == into_bounds_spec(generics.deep_view()),
{
    let mut bounds: Vec<String> = Vec::new();
    let mut i: usize = 0;
    proof {
        assert(generics.deep_view().take(0) =~= Seq::<GenericParamModel>::empty());
        assert(bounds.deep_view() =~= Seq::<Seq<char>>::empty());
    }
    while i < generics.len()
        invariant
            i <= generics@.len(),
            generics.deep_view().len() == generics@.len(),
            bounds.deep_view() == into_bounds_spec(generics.deep_view().take(i as int)),
        decreases generics@.len() - i,
    {
        proof {
            assert(generics.deep_view().take(i + 1).drop_last() =~= generics.deep_view().take(
                i as int,
            ));
            assert(generics.deep_view().take(i + 1).last() == generics.deep_view()[i as int]);
        }
        match &generics[i] {
            GenericParamDef::TypeParam(n) => {
                bounds.push(n.clone());
            },
            GenericParamDef::LifetimeParam(_) => {},
            GenericParamDef::ConstParam(_) => {},
        }
        proof {
            assert(bounds.deep_view() =~= into_bounds_spec(generics.deep_view().take(i + 1)));
        }
        i = i + 1;
    }
    proof {
        assert(generics.deep_view().take(generics@.len() as int) =~= generics.deep_view());
    }
    bounds
}

/// Generates the write implementation for a struct: one property write per
/// named field, rejecting a tuple-style field.
fn parse_struct(fields: &Vec<FieldDef>, ident: &String, bounds: Vec<String>) -> (r: Result<
    IntoImpl,
    DeriveError,
>)
    ensures
        match r {
            Ok(out) => struct_bindings_spec(fields.deep_view()) is Ok && out.deep_view()
                == (IntoImplModel {
                ident: ident@,
                bounds: bounds.deep_view(),
                body: IntoBodyModel::StructObject(
                    struct_bindings_spec(fields.deep_view())->Ok_0,
                ),
            }),
            Err(e) => struct_bindings_spec(fields.deep_view()) == Err::<
                Seq<PropBindingModel>,
                DeriveError,
            >(e),
        },
{
    let ghost fs = fields.deep_view();
    let mut writes: Vec<PropBinding> = Vec::new();
    let mut i: usize = 0;
    proof {
        assert(fs.take(0) =~= Seq::<crate::derive_model::FieldDefModel>::empty());
        assert(writes.deep_view() =~= Seq::<PropBindingModel>::empty());
    }
    while i < fields.len()
        invariant
            i <= fields@.len(),
            fs == fields.deep_view(),
            fs.len() == fields@.len(),
            struct_bindings_spec(fs.take(i as int)) == Ok::<_, DeriveError>(writes.deep_view()),
        decreases fields@.len() - i,
    {
        proof {
            assert(fs.take(i + 1).drop_last() =~= fs.take(i as int));
            assert(fs.take(i + 1).last() == fs[i as int]);
        }
        let field = &fields[i];
        match &field.name {
            None => {
                proof {
                    lemma_struct_bindings_err_prefix(fs, i + 1);
                }
                return Err(DeriveError::UnnamedField);
            },
            Some(name) => {
                let key = match &field.rename {
                    Some(rename) => rename.clone(),
                    None => name.clone(),
                };
                writes.push(PropBinding { field: name.clone(), key, ty: field.ty.dup() });
                proof {
                    assert(writes.deep_view() =~= struct_bindings_spec(fs.take(i + 1))->Ok_0);
                }
            },
        }
        i = i + 1;
    }
    proof {
        assert(fs.take(fields@.len() as int) =~= fs);
    }
    Ok(IntoImpl { ident: ident.clone(), bounds, body: IntoBody::StructObject(writes) })
}

/// Generates the write implementation for an enum: a delegating arm per
/// single-field variant, at most one unit variant (which writes null, as the
/// fallback arm does), and an error for every other variant shape.
fn parse_enum(variants: &Vec<VariantDef>, ident: &String, bounds: Vec<String>) -> (r: Result<
    IntoImpl,
    DeriveError,
>)
    ensures
        match r {
            Ok(out) => enum_scan_spec(variants.deep_view()) is Ok && out.deep_view()
                == (IntoImplModel {
                ident: ident@,
                bounds: bounds.deep_view(),
                body: IntoBodyModel::EnumArms(
                    enum_scan_spec(variants.deep_view())->Ok_0.0,
                    enum_scan_spec(variants.deep_view())->Ok_0.1,
                ),
            }),
            Err(e) => enum_scan_spec(variants.deep_view()) == Err::<
                (Seq<VariantBindingModel>, Option<Seq<char>>),
                DeriveError,
            >(e),
        },
{
    let ghost vs = variants.deep_view();
    let mut arms: Vec<VariantBinding> = Vec::new();
    let mut fallback: Option<String> = None;
    let mut i: usize = 0;
    proof {
        assert(vs.take(0) =~= Seq::<crate::derive_model::VariantDefModel>::empty());
        assert(arms.deep_view() =~= Seq::<VariantBindingModel>::empty());
    }
    while i < variants.len()
        invariant
            i <= variants@.len(),
            vs == variants.deep_view(),
            vs.len() == variants@.len(),
            enum_scan_spec(vs.take(i as int)) == Ok::<_, DeriveError>(
                (arms.deep_view(), fallback.deep_view()),
            ),
        decreases variants@.len() - i,
    {
        proof {
            assert(vs.take(i + 1).drop_last() =~= vs.take(i as int));
            assert(vs.take(i + 1).last() == vs[i as int]);
        }
        let variant = &variants[i];
        match &variant.fields {
            VariantFields::Unnamed(tys) => {
                if tys.len() != 1 {
                    proof {
                        lemma_enum_scan_err_prefix(vs, i + 1);
                    }
                    return Err(DeriveError::BadVariantShape);
                }
                arms.push(VariantBinding { variant: variant.name.clone(), ty: tys[0].dup() });
                proof {
                    assert(arms.deep_view() =~= enum_scan_spec(vs.take(i + 1))->Ok_0.0);
                }
            },
            VariantFields::Unit => {
                if fallback.is_some() {
                    proof {
                        lemma_enum_scan_err_prefix(vs, i + 1);
                    }
                    return Err(DeriveError::DuplicateFallback);
                }
                fallback = Some(variant.name.clone());
            },
            VariantFields::Named => {
                proof {
                    lemma_enum_scan_err_prefix(vs, i + 1);
                }
                return Err(DeriveError::BadVariantShape);
            },
        }
        i = i + 1;
    }
    proof {
        assert(vs.take(variants@.len() as int) =~= vs);
    }
    Ok(IntoImpl { ident: ident.clone(), bounds, body: IntoBody::EnumArms(arms, fallback) })
}

/// Generates the write implementation for a native type definition: the
/// constraint set from its generic parameters and the body from its data
/// shape.  Only structs and enums are supported.
pub fn parser(input: &DeriveInputDef) -> (r: Result<IntoImpl, DeriveError>)
    ensures
        match r {
            Ok(out) => into_impl_spec(input.deep_view()) == Ok::<_, DeriveError>(out.deep_view()),
            Err(e) => into_impl_spec(input.deep_view()) == Err::<IntoImplModel, DeriveError>(e),
        },
{
    let bounds = collect_bounds(&input.generics);
    match &input.data {
        DataDef::StructData(fields) => parse_struct(fields, &input.ident, bounds),
        DataDef::EnumData(variants) => parse_enum(variants, &input.ident, bounds),
        DataDef::UnionData => Err(DeriveError::UnsupportedData),
    }
}

} // verus!
