//! Tests of the derive generators: accepted shapes, emitted plans, constraint
//! propagation, and the definitions they must refuse.

use zend_marshal::convert::TypeTag;
use zend_marshal::derive_model::{
    DataDef, DeriveError, DeriveInputDef, FieldDef, GenericParamDef, VariantDef, VariantFields,
};
use zend_marshal::from_derive::{self, FromBody, FromBound};
use zend_marshal::into_derive::{self, IntoBody};
use zend_marshal::value::DataType;

fn field(name: &str, rename: Option<&str>, ty: TypeTag) -> FieldDef {
    FieldDef {
        name: Some(name.to_string()),
        rename: rename.map(|r| r.to_string()),
        ty,
    }
}

fn renamed_struct_input() -> DeriveInputDef {
    DeriveInputDef {
        ident: "TestPair".to_string(),
        generics: vec![],
        data: DataDef::StructData(vec![
            field("a", Some("Hello"), TypeTag::Long),
            field("b", None, TypeTag::Text),
        ]),
    }
}

#[test]
fn struct_plan_binds_renamed_and_plain_keys() {
    let out = from_derive::parser(&renamed_struct_input()).expect("named fields are accepted");
    assert_eq!(out.ident, "TestPair");
    assert!(out.bounds.is_empty());
    match out.body {
        FromBody::StructObject(reads) => {
            assert_eq!(reads.len(), 2);
            assert_eq!(reads[0].field, "a");
            assert_eq!(reads[0].key, "Hello");
            assert_eq!(reads[0].ty, TypeTag::Long);
            assert_eq!(reads[1].field, "b");
            assert_eq!(reads[1].key, "b");
            assert_eq!(reads[1].ty, TypeTag::Text);
        }
        FromBody::EnumTrials(..) => panic!("a struct must generate an object body"),
    }
}

#[test]
fn into_struct_plan_matches_from_plan() {
    let out = into_derive::parser(&renamed_struct_input()).expect("named fields are accepted");
    match out.body {
        IntoBody::StructObject(writes) => {
            assert_eq!(writes.len(), 2);
            assert_eq!(writes[0].key, "Hello");
            assert_eq!(writes[1].key, "b");
        }
        IntoBody::EnumArms(..) => panic!("a struct must generate an object body"),
    }
}

#[test]
fn generic_parameters_become_bounds() {
    let input = DeriveInputDef {
        ident: "TestStdClass".to_string(),
        generics: vec![
            GenericParamDef::LifetimeParam("a".to_string()),
            GenericParamDef::TypeParam("A".to_string()),
            GenericParamDef::TypeParam("B".to_string()),
            GenericParamDef::ConstParam("N".to_string()),
        ],
        data: DataDef::StructData(vec![
            field("a", None, TypeTag::Opaque("A".to_string())),
            field("b", None, TypeTag::Opaque("B".to_string())),
        ]),
    };
    let out = from_derive::parser(&input).expect("generics are accepted");
    assert_eq!(
        out.bounds,
        vec![
            FromBound::ZvalOutlives("a".to_string()),
            FromBound::ParamFromBoxed("A".to_string()),
            FromBound::ParamFromBoxed("B".to_string()),
        ]
    );
    let out = into_derive::parser(&input).expect("generics are accepted");
    assert_eq!(out.bounds, vec!["A".to_string(), "B".to_string()]);
}

#[test]
fn generated_bodies_declare_their_discriminants() {
    let struct_out = from_derive::parser(&renamed_struct_input()).expect("accepted");
    assert_eq!(struct_out.body.accepted_type(), DataType::Object);
    let struct_out = into_derive::parser(&renamed_struct_input()).expect("accepted");
    assert_eq!(struct_out.body.produced_type(), DataType::Object);

    let enum_input = DeriveInputDef {
        ident: "OneOf".to_string(),
        generics: vec![],
        data: DataDef::EnumData(vec![VariantDef {
            name: "Only".to_string(),
            fields: VariantFields::Unnamed(vec![TypeTag::Long]),
        }]),
    };
    let enum_out = from_derive::parser(&enum_input).expect("accepted");
    assert_eq!(enum_out.body.accepted_type(), DataType::Mixed);
    let enum_out = into_derive::parser(&enum_input).expect("accepted");
    assert_eq!(enum_out.body.produced_type(), DataType::Mixed);
}

#[test]
fn tuple_struct_is_rejected() {
    let input = DeriveInputDef {
        ident: "Tuple".to_string(),
        generics: vec![],
        data: DataDef::StructData(vec![FieldDef {
            name: None,
            rename: None,
            ty: TypeTag::Long,
        }]),
    };
    assert_eq!(from_derive::parser(&input), Err(DeriveError::UnnamedField));
    assert_eq!(into_derive::parser(&input), Err(DeriveError::UnnamedField));
}

#[test]
fn enum_plan_keeps_declaration_order_and_fallback() {
    let input = DeriveInputDef {
        ident: "UnionExample".to_string(),
        generics: vec![],
        data: DataDef::EnumData(vec![
            VariantDef {
                name: "B".to_string(),
                fields: VariantFields::Unnamed(vec![TypeTag::Long]),
            },
            VariantDef {
                name: "C".to_string(),
                fields: VariantFields::Unnamed(vec![TypeTag::Text]),
            },
            VariantDef {
                name: "None".to_string(),
                fields: VariantFields::Unit,
            },
        ]),
    };
    let out = from_derive::parser(&input).expect("well-shaped enum");
    match out.body {
        FromBody::EnumTrials(trials, fallback) => {
            assert_eq!(trials.len(), 2);
            assert_eq!(trials[0].variant, "B");
            assert_eq!(trials[0].ty, TypeTag::Long);
            assert_eq!(trials[1].variant, "C");
            assert_eq!(trials[1].ty, TypeTag::Text);
            assert_eq!(fallback, Some("None".to_string()));
        }
        FromBody::StructObject(..) => panic!("an enum must generate a trial body"),
    }
}

#[test]
fn two_unit_variants_are_rejected() {
    let input = DeriveInputDef {
        ident: "TwoUnits".to_string(),
        generics: vec![],
        data: DataDef::EnumData(vec![
            VariantDef {
                name: "First".to_string(),
                fields: VariantFields::Unit,
            },
            VariantDef {
                name: "Second".to_string(),
                fields: VariantFields::Unit,
            },
        ]),
    };
    assert_eq!(from_derive::parser(&input), Err(DeriveError::DuplicateFallback));
    assert_eq!(into_derive::parser(&input), Err(DeriveError::DuplicateFallback));
}

#[test]
fn multi_field_variant_is_rejected() {
    let input = DeriveInputDef {
        ident: "Wide".to_string(),
        generics: vec![],
        data: DataDef::EnumData(vec![VariantDef {
            name: "Two".to_string(),
            fields: VariantFields::Unnamed(vec![TypeTag::Long, TypeTag::Bool]),
        }]),
    };
    assert_eq!(from_derive::parser(&input), Err(DeriveError::BadVariantShape));
    assert_eq!(into_derive::parser(&input), Err(DeriveError::BadVariantShape));
}

#[test]
fn named_field_variant_is_rejected() {
    let input = DeriveInputDef {
        ident: "Named".to_string(),
        generics: vec![],
        data: DataDef::EnumData(vec![VariantDef {
            name: "Record".to_string(),
            fields: VariantFields::Named,
        }]),
    };
    assert_eq!(from_derive::parser(&input), Err(DeriveError::BadVariantShape));
    assert_eq!(into_derive::parser(&input), Err(DeriveError::BadVariantShape));
}

#[test]
fn union_is_rejected() {
    let input = DeriveInputDef {
        ident: "RawUnion".to_string(),
        generics: vec![],
        data: DataDef::UnionData,
    };
    assert_eq!(from_derive::parser(&input), Err(DeriveError::UnsupportedData));
    assert_eq!(into_derive::parser(&input), Err(DeriveError::UnsupportedData));
}

#[test]
fn first_offending_variant_wins() {
    // A bad shape before the second unit variant is the error reported.
    let input = DeriveInputDef {
        ident: "Order".to_string(),
        generics: vec![],
        data: DataDef::EnumData(vec![
            VariantDef {
                name: "U1".to_string(),
                fields: VariantFields::Unit,
            },
            VariantDef {
                name: "Empty".to_string(),
                fields: VariantFields::Unnamed(vec![]),
            },
            VariantDef {
                name: "U2".to_string(),
                fields: VariantFields::Unit,
            },
        ]),
    };
    assert_eq!(from_derive::parser(&input), Err(DeriveError::BadVariantShape));
}
