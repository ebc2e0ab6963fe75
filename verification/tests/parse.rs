use tql_macros::expand::SqlTableExpansion;
use tql_macros::methods::RowGet;
use tql_macros::model::{Fields, Item};
use tql_macros::parse::{
    check_missing_fields_text, item_from_syntax, parse_arguments, parse_discriminant, parse_item,
    parse_macro_slot, parse_type_head, rust_type_from_text, sql_table_text, stable_check_missing_fieds,
    Discriminant, MacroSlot, StableCheck,
};
use tql_macros::types::{field_ty_to_type, SqlType};

const TABLE: &str = "struct TableConnectionExpr {
    primary_key: PrimaryKey,
    field1: String,
    field2: i32,
    related_field: ForeignKey<RelatedTableConnectionExpr>,
    optional_field: Option<i32>,
}";

#[test]
fn type_heads_are_parsed() {
    let (ident, arg) = parse_type_head("ForeignKey<RelatedTable>").expect("path type");
    assert_eq!(ident, "ForeignKey");
    assert_eq!(arg.map(|a| a.replace(' ', "")), Some("RelatedTable".to_string()));
    let (ident, arg) = parse_type_head("i32").expect("path type");
    assert_eq!(ident, "i32");
    assert_eq!(arg, None);
    assert_eq!(parse_type_head("&str"), None);
}

#[test]
fn nested_types_are_modelled() {
    let ty = rust_type_from_text("Option<Option<i64>>", 20);
    assert_eq!(
        field_ty_to_type(&ty),
        SqlType::Nullable(Box::new(SqlType::Nullable(Box::new(SqlType::I64))))
    );
    let shallow = rust_type_from_text("Option<i64>", 0);
    assert!(shallow.path.is_none());
}

#[test]
fn struct_item_is_parsed() {
    let syntax = parse_item(TABLE).expect("item");
    match item_from_syntax(&syntax) {
        Item::Struct(s) => {
            assert_eq!(s.ident, "TableConnectionExpr");
            match s.fields {
                Fields::Named(fields) => {
                    assert_eq!(fields.len(), 5);
                    assert_eq!(fields[3].name, "related_field");
                    assert!(fields[3].ty.text.starts_with("ForeignKey"));
                    assert_eq!(
                        field_ty_to_type(&fields[3].ty),
                        SqlType::Custom("RelatedTableConnectionExpr".to_string())
                    );
                    assert_eq!(field_ty_to_type(&fields[0].ty), SqlType::Serial);
                }
                Fields::Unnamed => panic!("named fields expected"),
            }
        }
        Item::Other => panic!("struct expected"),
    }
    assert!(parse_item("struct struct").is_none());
}

#[test]
fn sql_table_text_expands_struct() {
    match sql_table_text(TABLE, 3).expect("parses") {
        SqlTableExpansion::Generated { methods, macros, checks, .. } => {
            assert_eq!(methods.field_count, 4);
            assert_eq!(methods.columns[3], RowGet::Foreign);
            assert_eq!(methods.columns[4], RowGet::Column { index: 3, with_delta: false });
            assert_eq!(
                macros.check_missing_fields.mandatory,
                vec!["field1".to_string(), "field2".to_string(), "related_field".to_string()]
            );
            assert_eq!(checks.len(), 1);
            assert_eq!(checks[0].table.replace(' ', ""), "RelatedTableConnectionExpr");
        }
        _ => panic!("expected generated code"),
    }
}

#[test]
fn sql_table_text_rejects_and_fails() {
    assert!(matches!(sql_table_text("enum E { A }", 3), Some(SqlTableExpansion::NotAStruct(_))));
    assert!(matches!(
        sql_table_text("struct T(i32);", 3),
        Some(SqlTableExpansion::Rejected { .. })
    ));
    assert!(sql_table_text("not an item", 3).is_none());
}

#[test]
fn arguments_are_parsed() {
    let lists = parse_arguments("[a, b], [c, 1]").expect("tuple");
    assert_eq!(lists.len(), 2);
    assert_eq!(lists[0], Some(vec![Some("a".to_string()), Some("b".to_string())]));
    assert_eq!(lists[1], Some(vec![Some("c".to_string()), None]));
    assert_eq!(parse_arguments("[a]"), None);
}

#[test]
fn missing_fields_from_text() {
    assert_eq!(
        check_missing_fields_text("[field1, field2, related_field], [field1]"),
        Some(Some("missing fields: field2, related_field".to_string()))
    );
    assert_eq!(check_missing_fields_text("[field1, field2], [field2, field1]"), Some(None));
    assert_eq!(check_missing_fields_text("[a], [1]"), None);
    assert_eq!(check_missing_fields_text("[a]"), None);
}

#[test]
fn stable_check_from_enum_text() {
    let text = "enum Check { Value = (check_missing_fields!([a, b], [a]), 0).0 }";
    match parse_discriminant(text) {
        Some(Discriminant::Expr(e)) => match parse_macro_slot(&e) {
            MacroSlot::Macro(tts) => assert_eq!(tts.replace(' ', ""), "[a,b],[a]"),
            _ => panic!("macro expected"),
        },
        _ => panic!("discriminant expected"),
    }
    assert!(matches!(
        stable_check_missing_fieds(text),
        Some(StableCheck::Check(Some(ref m))) if m == "missing fields: b"
    ));
    assert!(matches!(stable_check_missing_fieds("struct S;"), Some(StableCheck::Empty)));
    assert!(matches!(stable_check_missing_fieds("enum E { A = 1 }"), Some(StableCheck::Empty)));
    assert!(stable_check_missing_fieds("enum E { A }").is_none());
}
