use std::convert::TryFrom;

use shank_idl::descriptor::{
    Composite, Primitive, RustType, StructField, StructFieldAttr, TypeKind,
};
use shank_idl::error::TranslationError;
use shank_idl::idl_field::{auto_docs, IdlField};
use shank_idl::idl_type::IdlType;

fn decimal(precision: u8, inner: Primitive) -> RustType {
    RustType::owned(
        "Decimal",
        TypeKind::Composite(
            Composite::Decimal(precision),
            vec![RustType::owned_primitive("inner", inner)],
        ),
    )
}

fn field(ident: &str, rust_type: RustType, attrs: Vec<StructFieldAttr>) -> StructField {
    StructField { ident: ident.to_string(), rust_type, attrs }
}

#[test]
fn decimal_field_documents_its_precision() {
    let derived = IdlField::try_from(field("token_amount", decimal(6, Primitive::U64), vec![]));
    assert_eq!(
        derived,
        Ok(IdlField {
            name: "tokenAmount".to_string(),
            ty: IdlType::U64,
            attrs: None,
            docs: Some(vec!["@amount decimals=6".to_string()]),
        })
    );
}

#[test]
fn auto_docs_of_each_precision_width() {
    assert_eq!(
        auto_docs(&decimal(0, Primitive::U64)),
        Some(vec!["@amount decimals=0".to_string()])
    );
    assert_eq!(
        auto_docs(&decimal(18, Primitive::U128)),
        Some(vec!["@amount decimals=18".to_string()])
    );
    assert_eq!(
        auto_docs(&decimal(255, Primitive::U8)),
        Some(vec!["@amount decimals=255".to_string()])
    );
}

#[test]
fn auto_docs_looks_at_the_kind_alone() {
    let no_inner = RustType::owned("Decimal", TypeKind::Composite(Composite::Decimal(3), vec![]));
    assert_eq!(auto_docs(&no_inner), Some(vec!["@amount decimals=3".to_string()]));
    assert_eq!(auto_docs(&RustType::owned_primitive("p", Primitive::U64)), None);
    assert_eq!(auto_docs(&RustType::owned_string("s")), None);
    let wrapped = RustType::owned(
        "Option",
        TypeKind::Composite(Composite::Option, vec![decimal(6, Primitive::U64)]),
    );
    assert_eq!(auto_docs(&wrapped), None);
    assert_eq!(auto_docs(&RustType::owned("unit", TypeKind::Unit)), None);
}

#[test]
fn plain_field_has_no_docs_and_no_attrs() {
    let derived = IdlField::derive(&field(
        "owner",
        RustType::owned_custom_value("owner", "Pubkey"),
        vec![],
    ));
    assert_eq!(
        derived,
        Ok(IdlField {
            name: "owner".to_string(),
            ty: IdlType::PublicKey,
            attrs: None,
            docs: None,
        })
    );
}

#[test]
fn name_is_put_in_lower_camel_case() {
    for (ident, expected) in [
        ("token_amount", "tokenAmount"),
        ("authority", "authority"),
        ("seller_fee_basis_points", "sellerFeeBasisPoints"),
        ("_reserved", "reserved"),
        ("update_authority_", "updateAuthority"),
        ("XMLHttpRequest", "xmlHttpRequest"),
        ("is_mutable2", "isMutable2"),
    ] {
        let derived = IdlField::derive(&field(
            ident,
            RustType::owned_primitive("p", Primitive::Bool),
            vec![],
        ))
        .expect("a boolean field has a record");
        assert_eq!(derived.name, expected);
    }
}

#[test]
fn named_keeps_the_given_name() {
    let source = field("token_amount", RustType::owned_primitive("p", Primitive::U8), vec![]);
    let derived = IdlField::named(&source, "token_amount".to_string());
    assert_eq!(
        derived,
        Ok(IdlField {
            name: "token_amount".to_string(),
            ty: IdlType::U8,
            attrs: None,
            docs: None,
        })
    );
}

#[test]
fn attrs_are_listed_in_order() {
    let derived = IdlField::derive(&field(
        "padding_bytes",
        RustType::owned_array_primitive("a", Primitive::U8, 3),
        vec![
            StructFieldAttr::Skip,
            StructFieldAttr::Padding,
            StructFieldAttr::IdlName("pad".to_string()),
            StructFieldAttr::Padding,
        ],
    ));
    assert_eq!(
        derived,
        Ok(IdlField {
            name: "paddingBytes".to_string(),
            ty: IdlType::Array(Box::new(IdlType::U8), 3),
            attrs: Some(vec![
                "skip".to_string(),
                "padding".to_string(),
                "idl-name".to_string(),
                "padding".to_string(),
            ]),
            docs: None,
        })
    );
}

#[test]
fn each_marker_has_its_text() {
    assert_eq!(StructFieldAttr::Padding.text(), "padding");
    assert_eq!(
        StructFieldAttr::IdlType(RustType::owned_primitive("p", Primitive::U8)).text(),
        "idl-type"
    );
    assert_eq!(StructFieldAttr::IdlName("n".to_string()).text(), "idl-name");
    assert_eq!(StructFieldAttr::Skip.text(), "skip");
}

#[test]
fn override_replaces_the_type_and_keeps_the_docs() {
    let derived = IdlField::derive(&field(
        "price",
        decimal(9, Primitive::U64),
        vec![
            StructFieldAttr::Padding,
            StructFieldAttr::IdlType(RustType::owned_custom_value("o", "Price")),
        ],
    ));
    assert_eq!(
        derived,
        Ok(IdlField {
            name: "price".to_string(),
            ty: IdlType::Defined("Price".to_string()),
            attrs: Some(vec!["padding".to_string(), "idl-type".to_string()]),
            docs: Some(vec!["@amount decimals=9".to_string()]),
        })
    );
}

#[test]
fn override_by_a_decimal_brings_no_docs() {
    let derived = IdlField::derive(&field(
        "price",
        RustType::owned_primitive("p", Primitive::U32),
        vec![StructFieldAttr::IdlType(decimal(4, Primitive::U64))],
    ));
    assert_eq!(
        derived,
        Ok(IdlField {
            name: "price".to_string(),
            ty: IdlType::U64,
            attrs: Some(vec!["idl-type".to_string()]),
            docs: None,
        })
    );
}

#[test]
fn override_hides_a_declared_type_without_translation() {
    let derived = IdlField::derive(&field(
        "opaque",
        RustType::owned("unknown", TypeKind::Unknown),
        vec![StructFieldAttr::IdlType(RustType::owned_vec_primitive("o", Primitive::U8))],
    ));
    assert_eq!(
        derived,
        Ok(IdlField {
            name: "opaque".to_string(),
            ty: IdlType::Bytes,
            attrs: Some(vec!["idl-type".to_string()]),
            docs: None,
        })
    );
}

#[test]
fn first_override_wins() {
    let source = field(
        "value",
        RustType::owned_primitive("p", Primitive::U8),
        vec![
            StructFieldAttr::IdlName("v".to_string()),
            StructFieldAttr::IdlType(RustType::owned_primitive("a", Primitive::U16)),
            StructFieldAttr::IdlType(RustType::owned_primitive("b", Primitive::U32)),
        ],
    );
    assert_eq!(
        source.type_override(),
        Some(&RustType::owned_primitive("a", Primitive::U16))
    );
    let derived = IdlField::derive(&source).expect("the override has a translation");
    assert_eq!(derived.ty, IdlType::U16);
    let plain = field("value", RustType::owned_primitive("p", Primitive::U8), vec![]);
    assert_eq!(plain.type_override(), None);
    let marked = field(
        "value",
        RustType::owned_primitive("p", Primitive::U8),
        vec![StructFieldAttr::Padding, StructFieldAttr::Skip],
    );
    assert_eq!(marked.type_override(), None);
}

#[test]
fn failure_of_the_type_fails_the_field() {
    let derived = IdlField::try_from(field("nothing", RustType::owned("unit", TypeKind::Unit), vec![]));
    assert_eq!(derived, Err(TranslationError::Unit));
    let derived = IdlField::derive(&field(
        "amount",
        RustType::owned("Decimal", TypeKind::Composite(Composite::Decimal(6), vec![])),
        vec![],
    ));
    assert_eq!(derived, Err(TranslationError::DecimalArity(0)));
    let derived = IdlField::derive(&field(
        "amount",
        RustType::owned_primitive("p", Primitive::U8),
        vec![StructFieldAttr::IdlType(RustType::owned(
            "tuple",
            TypeKind::Composite(Composite::Tuple, vec![]),
        ))],
    ));
    assert_eq!(derived, Err(TranslationError::TupleNeedsTwo));
}

#[test]
fn derivation_is_repeatable() {
    let source = field(
        "token_amount",
        decimal(6, Primitive::U64),
        vec![StructFieldAttr::Padding],
    );
    let first = IdlField::derive(&source);
    let second = IdlField::derive(&source);
    assert_eq!(first, second);
    let record = first.expect("a decimal field has a record");
    assert_eq!(record.clone(), record);
}

#[test]
fn clone_of_a_field_derives_the_same_record() {
    let source = field(
        "max_supply",
        decimal(2, Primitive::U128),
        vec![
            StructFieldAttr::IdlName("supply".to_string()),
            StructFieldAttr::IdlType(RustType::owned_option_primitive("o", Primitive::U64)),
        ],
    );
    let copy = source.clone();
    assert_eq!(copy.ident, source.ident);
    assert_eq!(copy.rust_type, source.rust_type);
    assert_eq!(copy.attrs, source.attrs);
    assert_eq!(
        IdlField::derive(&copy),
        Ok(IdlField {
            name: "maxSupply".to_string(),
            ty: IdlType::Option(Box::new(IdlType::U64)),
            attrs: Some(vec!["idl-name".to_string(), "idl-type".to_string()]),
            docs: Some(vec!["@amount decimals=2".to_string()]),
        })
    );
}
