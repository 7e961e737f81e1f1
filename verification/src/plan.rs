//! Conversion plans: the structured output of the derive generator.
//!
//! For a struct, the plan binds each field to the object property key it is
//! read from or written to — the field's own name, unless a rename attribute
//! gives another key — together with the field's type tag.  For an enum, the
//! plan lists the single-field variants in declaration order and names the at
//! most one unit variant that serves as the fallback.

use vstd::prelude::*;

use crate::convert::TypeTag;
use crate::convert::TypeTagModel;
use crate::derive_model::DeriveError;
use crate::derive_model::FieldDefModel;
use crate::derive_model::VariantDefModel;
use crate::derive_model::VariantFieldsModel;

verus! {

/// One struct field's binding: the native field, the property key, and the
/// field's type.
#[derive(Debug, PartialEq)]
pub struct PropBinding {
    pub field: String,
    pub key: String,
    pub ty: TypeTag,
}

/// Mathematical model of a field binding.
pub struct PropBindingModel {
    pub field: Seq<char>,
    pub key: Seq<char>,
    pub ty: TypeTagModel,
}

impl DeepView for PropBinding {
    type V = PropBindingModel;

    open spec fn deep_view(&self) -> PropBindingModel {
        PropBindingModel { field: self.field@, key: self.key@, ty: self.ty.deep_view() }
    }
}

/// One enum variant's binding: the variant and its single field's type.
#[derive(Debug, PartialEq)]
pub struct VariantBinding {
    pub variant: String,
    pub ty: TypeTag,
}

/// Mathematical model of a variant binding.
pub struct VariantBindingModel {
    pub variant: Seq<char>,
    pub ty: TypeTagModel,
}

impl DeepView for VariantBinding {
    type V = VariantBindingModel;

    open spec fn deep_view(&self) -> VariantBindingModel {
        VariantBindingModel { variant: self.variant@, ty: self.ty.deep_view() }
    }
}

/// The key a field is bound to: its rename when the attribute is present,
/// else the field's own name.
pub open spec fn bound_key(f: FieldDefModel) -> Seq<char>
    recommends
        f.name is Some,
{
    match f.rename {
        Some(r) => r,
        None => f.name->Some_0,
    }
}

/// Scans a struct's fields in declaration order into their property
/// bindings.  A field without a name — a tuple-style struct — is a hard
/// error, reported for the first such field.
pub open spec fn struct_bindings_spec(fs: Seq<FieldDefModel>) -> Result<
    Seq<PropBindingModel>,
    DeriveError,
>
    decreases fs.len(),
{
    if fs.len() == 0 {
        Ok(Seq::empty())
    } else {
        match struct_bindings_spec(fs.drop_last()) {
            Err(e) => Err(e),
            Ok(bs) => match fs.last().name {
                None => Err(DeriveError::UnnamedField),
                Some(n) => Ok(
                    bs.push(PropBindingModel { field: n, key: bound_key(fs.last()), ty: fs.last().ty }),
                ),
            },
        }
    }
}

/// Scans an enum's variants in declaration order.  A variant with exactly one
/// unnamed field becomes a binding; the first unit variant becomes the
/// fallback; a second unit variant, a variant with zero or several unnamed
/// fields, and a named-field variant are hard errors, reported for the first
/// offending variant.
pub open spec fn enum_scan_spec(vs: Seq<VariantDefModel>) -> Result<
    (Seq<VariantBindingModel>, Option<Seq<char>>),
    DeriveError,
>
    decreases vs.len(),
{
    if vs.len() == 0 {
        Ok((Seq::empty(), None))
    } else {
        match enum_scan_spec(vs.drop_last()) {
            Err(e) => Err(e),
            Ok((bs, fallback)) => match vs.last().fields {
                VariantFieldsModel::Unnamed(tys) => if tys.len() == 1 {
                    Ok(
                        (
                            bs.push(
                                VariantBindingModel { variant: vs.last().name, ty: tys[0] },
                            ),
                            fallback,
                        ),
                    )
                } else {
                    Err(DeriveError::BadVariantShape)
                },
                VariantFieldsModel::Unit => if fallback is Some {
                    Err(DeriveError::DuplicateFallback)
                } else {
                    Ok((bs, Some(vs.last().name)))
                },
                VariantFieldsModel::Named => Err(DeriveError::BadVariantShape),
            },
        }
    }
}

/// A scan that fails on a prefix fails on the whole input, with the same
/// error: the scan reports the first offending field.
pub proof fn lemma_struct_bindings_err_prefix(fs: Seq<FieldDefModel>, i: int)
    requires
        0 <= i <= fs.len(),
        struct_bindings_spec(fs.take(i)) is Err,
    ensures
        struct_bindings_spec(fs) == struct_bindings_spec(fs.take(i)),
    decreases fs.len() - i,
{
    if i < fs.len() {
        assert(fs.take(i + 1).drop_last() =~= fs.take(i));
        lemma_struct_bindings_err_prefix(fs, i + 1);
    } else {
        assert(fs.take(i) =~= fs);
    }
}

/// A scan that fails on a prefix fails on the whole input, with the same
/// error: the scan reports the first offending variant.
pub proof fn lemma_enum_scan_err_prefix(vs: Seq<VariantDefModel>, i: int)
    requires
        0 <= i <= vs.len(),
        enum_scan_spec(vs.take(i)) is Err,
    ensures
        enum_scan_spec(vs) == enum_scan_spec(vs.take(i)),
    decreases vs.len() - i,
{
    if i < vs.len() {
        assert(vs.take(i + 1).drop_last() =~= vs.take(i));
        lemma_enum_scan_err_prefix(vs, i + 1);
    } else {
        assert(vs.take(i) =~= vs);
    }
}

} // verus!
