use diesel_ltree::{
    Lquery, Ltree, Ltxtquery, SchemaTypeUnavailable, TypeCatalog, TypeMetadata, TypeTag,
};

fn installed() -> TypeCatalog {
    let mut c = TypeCatalog::new();
    c.add("text", TypeMetadata { oid: 25, array_oid: 1009 });
    c.add("ltree", TypeMetadata { oid: 16400, array_oid: 16405 });
    c.add("lquery", TypeMetadata { oid: 16410, array_oid: 16415 });
    c.add("ltxtquery", TypeMetadata { oid: 16420, array_oid: 16425 });
    c
}

#[test]
fn backend_names() {
    assert_eq!(TypeTag::LabelPath.backend_name(), "ltree");
    assert_eq!(TypeTag::PathPattern.backend_name(), "lquery");
    assert_eq!(TypeTag::TextPathPattern.backend_name(), "ltxtquery");
}

#[test]
fn label_path_resolves_the_same_twice() {
    let c = installed();
    let first = Ltree::metadata(&c);
    let second = Ltree::metadata(&c);
    assert_eq!(first, Ok(TypeMetadata { oid: 16400, array_oid: 16405 }));
    assert_eq!(first, second);
}

#[test]
fn patterns_resolve() {
    let c = installed();
    assert_eq!(Lquery::metadata(&c), Ok(TypeMetadata { oid: 16410, array_oid: 16415 }));
    assert_eq!(Ltxtquery::metadata(&c), Ok(TypeMetadata { oid: 16420, array_oid: 16425 }));
}

#[test]
fn missing_extension_is_reported() {
    let mut c = TypeCatalog::new();
    c.add("text", TypeMetadata { oid: 25, array_oid: 1009 });
    assert_eq!(
        Ltree::metadata(&c),
        Err(SchemaTypeUnavailable { missing_name: "ltree".to_string() })
    );
    assert_eq!(
        TypeCatalog::new().resolve(TypeTag::TextPathPattern),
        Err(SchemaTypeUnavailable { missing_name: "ltxtquery".to_string() })
    );
}

#[test]
fn first_entry_of_a_name_wins() {
    let mut c = TypeCatalog::new();
    c.add("ltree", TypeMetadata { oid: 1, array_oid: 2 });
    c.add("ltree", TypeMetadata { oid: 3, array_oid: 4 });
    assert_eq!(c.lookup_type("ltree"), Ok(TypeMetadata { oid: 1, array_oid: 2 }));
}

#[test]
fn label_path_serializes_as_its_text() {
    assert_eq!(Ltree::to_sql("top.science.physics"), b"top.science.physics".to_vec());
    assert_eq!(Ltree::to_sql(""), Vec::<u8>::new());
    assert_eq!(Ltree::to_sql("a.\u{e9}"), vec![b'a', b'.', 0xc3, 0xa9]);
}
