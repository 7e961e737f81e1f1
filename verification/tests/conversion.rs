//! Tests of the conversions and the plan interpreter: object-backed struct
//! reads and writes, ordered enum trials, the lenient numeric-string rule,
//! and the round-trip behaviour.

use zend_marshal::convert::{accepted_type, convert_from, convert_into, NativeValue, TypeTag};
use zend_marshal::derive_model::{DataDef, DeriveInputDef, FieldDef};
use zend_marshal::from_derive::{self, FromBody};
use zend_marshal::interp::{
    enum_from_zval, enum_set_zval, struct_from_zval, struct_set_zval, EnumValue, FieldValue,
};
use zend_marshal::into_derive::{self, IntoBody};
use zend_marshal::plan::VariantBinding;
use zend_marshal::runtime::Runtime;
use zend_marshal::value::{DataType, ZendObject, Zval};
use zend_marshal::zend_string::ZendString;

fn str_zval(rt: &mut Runtime, text: &str) -> Zval {
    let zs = ZendString::new(rt, text, false);
    Zval::Str(zs.release())
}

fn renamed_struct_plan() -> Vec<zend_marshal::plan::PropBinding> {
    let input = DeriveInputDef {
        ident: "TestPair".to_string(),
        generics: vec![],
        data: DataDef::StructData(vec![
            FieldDef {
                name: Some("a".to_string()),
                rename: Some("Hello".to_string()),
                ty: TypeTag::Long,
            },
            FieldDef {
                name: Some("b".to_string()),
                rename: None,
                ty: TypeTag::Text,
            },
        ]),
    };
    match from_derive::parser(&input).expect("named fields are accepted").body {
        FromBody::StructObject(reads) => reads,
        FromBody::EnumTrials(..) => panic!("a struct must generate an object body"),
    }
}

#[test]
fn struct_read_uses_renamed_key() {
    let mut rt = Runtime::new();
    let mut obj = ZendObject::new_stdclass();
    obj.set_property("Hello".to_string(), Zval::Long(100));
    let x = str_zval(&mut rt, "x");
    obj.set_property("b".to_string(), x);
    let zv = Zval::Object(obj);

    let reads = renamed_struct_plan();
    let fields = struct_from_zval(&reads, &rt, &zv).expect("both properties convert");
    assert_eq!(
        fields,
        vec![
            FieldValue { name: "a".to_string(), value: NativeValue::Long(100) },
            FieldValue { name: "b".to_string(), value: NativeValue::Text("x".to_string()) },
        ]
    );
}

#[test]
fn struct_read_missing_property_yields_nothing() {
    let mut rt = Runtime::new();
    let mut obj = ZendObject::new_stdclass();
    // The field was renamed: its own name does not satisfy the lookup.
    obj.set_property("a".to_string(), Zval::Long(100));
    let x = str_zval(&mut rt, "x");
    obj.set_property("b".to_string(), x);
    let zv = Zval::Object(obj);

    let reads = renamed_struct_plan();
    assert!(struct_from_zval(&reads, &rt, &zv).is_none());
}

#[test]
fn struct_read_requires_object_discriminant() {
    let rt = Runtime::new();
    let reads = renamed_struct_plan();
    assert!(struct_from_zval(&reads, &rt, &Zval::Long(1)).is_none());
    assert!(struct_from_zval(&reads, &rt, &Zval::Null).is_none());
}

fn union_trials() -> (Vec<VariantBinding>, Option<String>) {
    (
        vec![
            VariantBinding { variant: "B".to_string(), ty: TypeTag::Long },
            VariantBinding { variant: "C".to_string(), ty: TypeTag::Text },
        ],
        Some("None".to_string()),
    )
}

#[test]
fn enum_read_integer_resolves_to_first_variant() {
    let rt = Runtime::new();
    let (trials, fallback) = union_trials();
    let got = enum_from_zval(&trials, &fallback, &rt, &Zval::Long(5)).expect("integer matches");
    assert_eq!(got.variant, "B");
    assert_eq!(got.payload, Some(NativeValue::Long(5)));
}

#[test]
fn enum_read_ambiguous_numeric_string_prefers_declaration_order() {
    // "123" converts both under the lenient numeric rule of the integer
    // variant and as text: the earlier declaration must win.
    let mut rt = Runtime::new();
    let zv = str_zval(&mut rt, "123");
    let (trials, fallback) = union_trials();
    let got = enum_from_zval(&trials, &fallback, &rt, &zv).expect("both variants match");
    assert_eq!(got.variant, "B");
    assert_eq!(got.payload, Some(NativeValue::Long(123)));

    let reversed = vec![
        VariantBinding { variant: "C".to_string(), ty: TypeTag::Text },
        VariantBinding { variant: "B".to_string(), ty: TypeTag::Long },
    ];
    let got = enum_from_zval(&reversed, &fallback, &rt, &zv).expect("both variants match");
    assert_eq!(got.variant, "C");
    assert_eq!(got.payload, Some(NativeValue::Text("123".to_string())));
}

#[test]
fn enum_read_unmatched_value_takes_unit_fallback() {
    let rt = Runtime::new();
    let (trials, fallback) = union_trials();
    let got = enum_from_zval(&trials, &fallback, &rt, &Zval::Bool(true)).expect("fallback");
    assert_eq!(got.variant, "None");
    assert_eq!(got.payload, None);
    assert!(enum_from_zval(&trials, &None, &rt, &Zval::Bool(true)).is_none());
}

#[test]
fn struct_write_then_read_round_trips() {
    let input = DeriveInputDef {
        ident: "TestPair".to_string(),
        generics: vec![],
        data: DataDef::StructData(vec![
            FieldDef { name: Some("a".to_string()), rename: None, ty: TypeTag::Long },
            FieldDef { name: Some("b".to_string()), rename: None, ty: TypeTag::Text },
            FieldDef { name: Some("c".to_string()), rename: None, ty: TypeTag::Bool },
        ]),
    };
    let writes = match into_derive::parser(&input).expect("accepted").body {
        IntoBody::StructObject(writes) => writes,
        IntoBody::EnumArms(..) => panic!("a struct must generate an object body"),
    };
    let reads = match from_derive::parser(&input).expect("accepted").body {
        FromBody::StructObject(reads) => reads,
        FromBody::EnumTrials(..) => panic!("a struct must generate an object body"),
    };

    let mut rt = Runtime::new();
    let mut zv = Zval::Null;
    let values = vec![
        NativeValue::Long(7),
        NativeValue::Text("hi".to_string()),
        NativeValue::Bool(true),
    ];
    struct_set_zval(&writes, values, &mut rt, &mut zv, false).expect("writes succeed");
    assert_eq!(zv.data_type(), DataType::Object);

    let fields = struct_from_zval(&reads, &rt, &zv).expect("round trip");
    assert_eq!(
        fields,
        vec![
            FieldValue { name: "a".to_string(), value: NativeValue::Long(7) },
            FieldValue { name: "b".to_string(), value: NativeValue::Text("hi".to_string()) },
            FieldValue { name: "c".to_string(), value: NativeValue::Bool(true) },
        ]
    );
}

#[test]
fn struct_write_persistent_allocates_persistent_strings() {
    let input = DeriveInputDef {
        ident: "OneText".to_string(),
        generics: vec![],
        data: DataDef::StructData(vec![FieldDef {
            name: Some("t".to_string()),
            rename: None,
            ty: TypeTag::Text,
        }]),
    };
    let writes = match into_derive::parser(&input).expect("accepted").body {
        IntoBody::StructObject(writes) => writes,
        IntoBody::EnumArms(..) => panic!("a struct must generate an object body"),
    };
    let mut rt = Runtime::new();
    let mut zv = Zval::Null;
    let values = vec![NativeValue::Text("keep".to_string())];
    struct_set_zval(&writes, values, &mut rt, &mut zv, true).expect("writes succeed");
    // One string cell was allocated for the field.
    assert!(rt.handle_is_valid(1));
    assert_eq!(rt.string_bytes(1), Some(b"keep".to_vec()));
}

#[test]
fn enum_write_delegates_payload_and_unit_writes_null() {
    let (arms, _) = union_trials();
    let mut rt = Runtime::new();

    let mut zv = Zval::Null;
    let value = EnumValue { variant: "B".to_string(), payload: Some(NativeValue::Long(9)) };
    enum_set_zval(&arms, value, &mut rt, &mut zv, false).expect("write succeeds");
    assert_eq!(zv, Zval::Long(9));

    let mut zv = Zval::Bool(true);
    let unit = EnumValue { variant: "None".to_string(), payload: None };
    enum_set_zval(&arms, unit, &mut rt, &mut zv, false).expect("write succeeds");
    assert_eq!(zv, Zval::Null);
}

#[test]
fn lenient_numeric_string_edges() {
    let mut rt = Runtime::new();
    let cases: Vec<(&str, Option<i64>)> = vec![
        ("0", Some(0)),
        ("007", Some(7)),
        ("123", Some(123)),
        ("9223372036854775807", Some(i64::MAX)),
        ("9223372036854775808", None),
        ("99999999999999999999", None),
        ("", None),
        ("12a", None),
        ("-5", None),
        (" 5", None),
    ];
    for (text, expected) in cases {
        let zv = str_zval(&mut rt, text);
        let got = convert_from(&TypeTag::Long, &rt, &zv);
        assert_eq!(got, expected.map(NativeValue::Long), "input {:?}", text);
    }
}

#[test]
fn typed_reads_check_the_discriminant() {
    let rt = Runtime::new();
    assert_eq!(convert_from(&TypeTag::Bool, &rt, &Zval::Long(1)), None);
    assert_eq!(convert_from(&TypeTag::Long, &rt, &Zval::Bool(true)), None);
    assert_eq!(convert_from(&TypeTag::Text, &rt, &Zval::Long(1)), None);
    assert_eq!(
        convert_from(&TypeTag::Bool, &rt, &Zval::Bool(true)),
        Some(NativeValue::Bool(true))
    );
    assert_eq!(convert_from(&TypeTag::Opaque("T".to_string()), &rt, &Zval::Long(1)), None);
}

#[test]
fn text_read_rejects_stale_handle_and_bad_encoding() {
    let mut rt = Runtime::new();
    let zv = str_zval(&mut rt, "ok");
    let handle = match zv {
        Zval::Str(h) => h,
        _ => unreachable!(),
    };
    assert_eq!(
        convert_from(&TypeTag::Text, &rt, &zv),
        Some(NativeValue::Text("ok".to_string()))
    );
    let bad = rt.string_init(vec![0x80], false);
    assert_eq!(convert_from(&TypeTag::Text, &rt, &Zval::Str(bad)), None);
    rt.string_release(handle);
    assert_eq!(convert_from(&TypeTag::Text, &rt, &Zval::Str(handle)), None);
}

#[test]
fn write_propagates_lifetime_class_to_strings() {
    let mut rt = Runtime::new();
    let mut zv = Zval::Null;
    convert_into(NativeValue::Text("p".to_string()), &mut rt, &mut zv, true)
        .expect("write succeeds");
    let h = match zv {
        Zval::Str(h) => h,
        _ => panic!("a text write stores a string handle"),
    };
    assert_eq!(rt.string_bytes(h), Some(b"p".to_vec()));
    assert_eq!(rt.string_refcount(h), Some(1));
}

#[test]
fn declared_discriminants_match_the_tags() {
    assert_eq!(accepted_type(&TypeTag::Long), DataType::Long);
    assert_eq!(accepted_type(&TypeTag::Bool), DataType::Bool);
    assert_eq!(accepted_type(&TypeTag::Text), DataType::Str);
    assert_eq!(accepted_type(&TypeTag::Opaque("T".to_string())), DataType::Mixed);
}

#[test]
fn typed_accessors_never_read_mismatched_payloads() {
    let zv = Zval::Double(0x3ff0000000000000);
    assert_eq!(zv.data_type(), DataType::Double);
    assert_eq!(zv.long(), None);
    assert_eq!(zv.boolean(), None);
    assert_eq!(zv.str_handle(), None);
    assert!(zv.object().is_none());
    assert_eq!(zv.double_bits(), Some(0x3ff0000000000000));
}
