use tql_macros::error::{Position, Severity};
use tql_macros::expand::{sql_table, SqlTableExpansion};
use tql_macros::fields::{get_struct_fields, rand_string};
use tql_macros::macros::table_macro;
use tql_macros::methods::{create_debug_impl, table_methods, to_row_get, tosql_impl, RowGet, ToSqlCode};
use tql_macros::model::{get_type_parameter, Field, Fields, Item, ItemStruct, PathSegment, RustType};
use tql_macros::types::{field_ty_to_type, SqlType};

fn scalar(name: &str) -> RustType {
    RustType {
        text: name.to_string(),
        path: Some(PathSegment { ident: name.to_string(), argument: None }),
    }
}

fn generic(head: &str, inner: RustType) -> RustType {
    RustType {
        text: format!("{}<{}>", head, inner.text),
        path: Some(PathSegment { ident: head.to_string(), argument: Some(Box::new(inner)) }),
    }
}

fn field(name: &str, ty: RustType) -> Field {
    Field { name: name.to_string(), ty }
}

fn table_connection_expr() -> ItemStruct {
    ItemStruct {
        ident: "TableConnectionExpr".to_string(),
        fields: Fields::Named(vec![
            field("primary_key", scalar("PrimaryKey")),
            field("field1", scalar("String")),
            field("field2", scalar("i32")),
            field("related_field", generic("ForeignKey", scalar("RelatedTableConnectionExpr"))),
            field("optional_field", generic("Option", scalar("i32"))),
            field("boolean", generic("Option", scalar("bool"))),
            field("float64", generic("Option", scalar("f64"))),
            field("int16", generic("Option", scalar("i16"))),
            field("int64", generic("Option", scalar("i64"))),
        ]),
    }
}

fn related_table_connection_expr() -> ItemStruct {
    ItemStruct {
        ident: "RelatedTableConnectionExpr".to_string(),
        fields: Fields::Named(vec![
            field("primary_key", scalar("PrimaryKey")),
            field("field1", scalar("i32")),
        ]),
    }
}

#[test]
fn field_types_map_to_sql_types() {
    assert_eq!(field_ty_to_type(&scalar("PrimaryKey")), SqlType::Serial);
    assert_eq!(field_ty_to_type(&scalar("String")), SqlType::Text);
    assert_eq!(field_ty_to_type(&scalar("i16")), SqlType::I16);
    assert_eq!(
        field_ty_to_type(&generic("ForeignKey", scalar("Related"))),
        SqlType::Custom("Related".to_string())
    );
    assert_eq!(
        field_ty_to_type(&generic("Option", scalar("f64"))),
        SqlType::Nullable(Box::new(SqlType::F64))
    );
    assert_eq!(
        field_ty_to_type(&generic("Vec", scalar("u8"))),
        SqlType::Unsupported("Vec<u8>".to_string())
    );
    let not_a_path = RustType { text: "&str".to_string(), path: None };
    assert_eq!(field_ty_to_type(&not_a_path), SqlType::Unsupported("&str".to_string()));
    assert_eq!(get_type_parameter(&generic("ForeignKey", scalar("T"))), Some("T".to_string()));
    assert_eq!(get_type_parameter(&scalar("i32")), None);
}

#[test]
fn struct_fields_of_valid_table() {
    let table = table_connection_expr();
    let (fields, primary_key, checks) = get_struct_fields(&table, 7);
    let columns = fields.ok().expect("no diagnostic");
    assert_eq!(columns.len(), 9);
    assert_eq!(columns[3].name, "related_field");
    assert_eq!(columns[3].sql_type, SqlType::Custom("RelatedTableConnectionExpr".to_string()));
    assert_eq!(columns[5].sql_type, SqlType::Nullable(Box::new(SqlType::Bool)));
    assert_eq!(primary_key, Some("primary_key".to_string()));
    assert_eq!(checks.len(), 1);
    assert_eq!(checks[0].table, "RelatedTableConnectionExpr");
    assert!(checks[0].struct_name.starts_with("CheckForeignKey"));
    assert_eq!(checks[0].struct_name.len(), 45);
    assert!(checks[0].struct_name[15..].chars().all(|c| c.is_ascii_alphanumeric()));
}

#[test]
fn struct_without_primary_key_is_warned() {
    let table = ItemStruct {
        ident: "NoKey".to_string(),
        fields: Fields::Named(vec![field("name", scalar("String"))]),
    };
    let (fields, primary_key, checks) = get_struct_fields(&table, 7);
    let errors = fields.err().expect("diagnostics");
    assert_eq!(errors.len(), 1);
    assert_eq!(errors[0].message, "No primary key found");
    assert_eq!(errors[0].severity, Severity::Warning);
    assert_eq!(errors[0].position, Position::StructName);
    assert_eq!(primary_key, None);
    assert!(checks.is_empty());
}

#[test]
fn struct_with_two_primary_keys_is_warned() {
    let table = ItemStruct {
        ident: "TwoKeys".to_string(),
        fields: Fields::Named(vec![
            field("id", scalar("PrimaryKey")),
            field("other_id", scalar("PrimaryKey")),
        ]),
    };
    let (fields, primary_key, _) = get_struct_fields(&table, 7);
    let errors = fields.err().expect("diagnostics");
    assert_eq!(errors.len(), 1);
    assert_eq!(errors[0].message, "More than one primary key is currently not supported");
    assert_eq!(errors[0].severity, Severity::Warning);
    assert_eq!(primary_key, Some("other_id".to_string()));
}

#[test]
fn unsupported_field_types_are_errors() {
    let table = ItemStruct {
        ident: "Bad".to_string(),
        fields: Fields::Named(vec![
            field("bytes", generic("Vec", scalar("u8"))),
            field("id", scalar("PrimaryKey")),
            field("maybe", generic("Option", scalar("u64"))),
        ]),
    };
    let (fields, primary_key, _) = get_struct_fields(&table, 7);
    let errors = fields.err().expect("diagnostics");
    assert_eq!(errors.len(), 2);
    assert_eq!(errors[0].message, "use of unsupported type name `Vec<u8>`");
    assert_eq!(errors[0].code, Some("E0412".to_string()));
    assert_eq!(errors[0].severity, Severity::Error);
    assert_eq!(errors[0].position, Position::FieldType(0));
    assert_eq!(errors[1].message, "use of unsupported type name `u64`");
    assert_eq!(errors[1].position, Position::FieldType(2));
    assert_eq!(primary_key, Some("id".to_string()));
}

#[test]
fn missing_key_warning_comes_first() {
    let table = ItemStruct {
        ident: "Bad".to_string(),
        fields: Fields::Named(vec![field("bytes", generic("Vec", scalar("u8")))]),
    };
    let (fields, _, _) = get_struct_fields(&table, 7);
    let errors = fields.err().expect("diagnostics");
    assert_eq!(errors.len(), 2);
    assert_eq!(errors[0].message, "No primary key found");
    assert_eq!(errors[1].message, "use of unsupported type name `Vec<u8>`");
}

#[test]
fn tuple_struct_is_rejected() {
    let table = ItemStruct { ident: "Tuple".to_string(), fields: Fields::Unnamed };
    let (fields, primary_key, checks) = get_struct_fields(&table, 7);
    let errors = fields.err().expect("diagnostics");
    assert_eq!(errors.len(), 1);
    assert_eq!(errors[0].message, "Expected normal struct, found");
    assert_eq!(errors[0].severity, Severity::Error);
    assert_eq!(primary_key, None);
    assert!(checks.is_empty());
}

#[test]
fn rand_string_is_thirty_alphanumerics_fixed_by_its_seed() {
    let a = rand_string(42, 0);
    let b = rand_string(42, 1);
    let c = rand_string(43, 0);
    assert_eq!(a.chars().count(), 30);
    assert!(a.chars().all(|c| c.is_ascii_alphanumeric()));
    assert_eq!(a, rand_string(42, 0));
    assert_ne!(a, b);
    assert_ne!(a, c);
}

#[test]
fn foreign_key_checks_get_distinct_names() {
    let table = ItemStruct {
        ident: "Two".to_string(),
        fields: Fields::Named(vec![
            field("id", scalar("PrimaryKey")),
            field("a", generic("ForeignKey", scalar("A"))),
            field("b", generic("ForeignKey", scalar("B"))),
        ]),
    };
    let (_, _, checks) = get_struct_fields(&table, 9);
    assert_eq!(checks.len(), 2);
    assert_eq!(checks[0].struct_name, format!("CheckForeignKey{}", rand_string(9, 0)));
    assert_eq!(checks[1].struct_name, format!("CheckForeignKey{}", rand_string(9, 1)));
    assert_ne!(checks[0].struct_name, checks[1].struct_name);
}

#[test]
fn from_row_reads_columns_in_order() {
    let methods = table_methods(&table_connection_expr());
    assert_eq!(methods.table, "TableConnectionExpr");
    assert_eq!(methods.field_count, 8);
    let expected: Vec<RowGet> = vec![
        RowGet::Column { index: 0, with_delta: false },
        RowGet::Column { index: 1, with_delta: false },
        RowGet::Column { index: 2, with_delta: false },
        RowGet::Foreign,
        RowGet::Column { index: 3, with_delta: false },
        RowGet::Column { index: 4, with_delta: false },
        RowGet::Column { index: 5, with_delta: false },
        RowGet::Column { index: 6, with_delta: false },
        RowGet::Column { index: 7, with_delta: false },
    ];
    assert_eq!(methods.columns, expected);
    assert_eq!(methods.related_columns[8], RowGet::Column { index: 7, with_delta: true });
    assert_eq!(methods.related_columns[3], RowGet::Foreign);
    assert_eq!(methods.fields[4], "optional_field");
}

#[test]
fn to_row_get_advances_index() {
    let mut index = 5;
    assert_eq!(to_row_get(&scalar("i32"), true, &mut index), RowGet::Column { index: 5, with_delta: true });
    assert_eq!(index, 6);
    assert_eq!(to_row_get(&generic("ForeignKey", scalar("T")), false, &mut index), RowGet::Foreign);
    assert_eq!(index, 6);
}

#[test]
fn to_sql_uses_primary_key() {
    let table = related_table_connection_expr();
    let code = tosql_impl(&table, Some("primary_key".to_string()));
    assert_eq!(code.table, "RelatedTableConnectionExpr");
    assert_eq!(code.debug.fields, vec!["primary_key".to_string(), "field1".to_string()]);
    assert!(matches!(code.to_sql, ToSqlCode::PrimaryKey(ref pk) if pk == "primary_key"));
    let code = tosql_impl(&table, None);
    assert!(matches!(code.to_sql, ToSqlCode::NoPrimaryKey));
    let debug = create_debug_impl(&table);
    assert_eq!(debug.table, "RelatedTableConnectionExpr");
    assert_eq!(debug.fields.len(), 2);
}

#[test]
fn table_macros_of_table_connection_expr() {
    let macros = table_macro(&table_connection_expr());
    assert_eq!(macros.related_field_list.name, "tql_TableConnectionExpr_related_field_list");
    assert_eq!(macros.related_field_list.arms.len(), 1);
    assert_eq!(macros.related_field_list.arms[0].field, "related_field");
    assert_eq!(macros.related_field_list.arms[0].target, "tql_RelatedTableConnectionExpr_field_list");
    assert_eq!(macros.check_pk.name, "tql_TableConnectionExpr_check_primary_key");
    assert_eq!(macros.check_pk.error, None);
    assert_eq!(macros.check_missing_fields.name, "tql_TableConnectionExpr_check_missing_fields");
    assert_eq!(
        macros.check_missing_fields.mandatory,
        vec!["field1".to_string(), "field2".to_string(), "related_field".to_string()]
    );
    assert_eq!(macros.field_list.name, "tql_TableConnectionExpr_field_list");
    assert_eq!(
        macros.field_list.field_list,
        "TableConnectionExpr.primary_key, TableConnectionExpr.field1, TableConnectionExpr.field2, \
         TableConnectionExpr.optional_field, TableConnectionExpr.boolean, TableConnectionExpr.float64, \
         TableConnectionExpr.int16, TableConnectionExpr.int64"
    );
    assert_eq!(macros.create_query.name, "tql_TableConnectionExpr_create_query");
    assert_eq!(macros.create_query.table, "TableConnectionExpr");
    assert_eq!(macros.create_query.fields[7].sql_type, SqlType::Nullable(Box::new(SqlType::I16)));
    assert_eq!(macros.related_pks.name, "tql_TableConnectionExpr_related_pks");
    assert_eq!(macros.related_pks.arms[0].target, "tql_RelatedTableConnectionExpr_primary_key_field");
    assert_eq!(macros.pk.name, "tql_TableConnectionExpr_primary_key_field");
    assert_eq!(macros.pk.primary_key, "primary_key");
    let related = &macros.related_tables;
    assert_eq!(related.name, "tql_TableConnectionExpr_related_tables");
    assert_eq!(related.check_name, "tql_TableConnectionExpr_check_related_tables");
    assert_eq!(related.check_related_pk_name, "tql_TableConnectionExpr_check_related_pks");
    assert_eq!(related.related.len(), 1);
    assert_eq!(related.related[0].target, "tql_RelatedTableConnectionExpr_check_primary_key");
    assert_eq!(related.tables, vec!["RelatedTableConnectionExpr".to_string()]);
    assert_eq!(related.non_related.len(), 8);
    assert_eq!(related.non_related[1].field, "field1");
    assert_eq!(related.non_related[1].index, 1);
    assert_eq!(
        related.non_related[1].message,
        "mismatched types\nexpected type `ForeignKey<_>`\n   found type `String`"
    );
    assert_eq!(related.non_related[3].index, 4);
}

#[test]
fn table_without_primary_key_cannot_be_joined() {
    let table = ItemStruct {
        ident: "Plain".to_string(),
        fields: Fields::Named(vec![field("name", scalar("String")), field("note", generic("Option", scalar("String")))]),
    };
    let macros = table_macro(&table);
    assert_eq!(
        macros.check_pk.error,
        Some("No primary key found for table Plain which is needed for a join".to_string())
    );
    assert_eq!(macros.pk.primary_key, "-1");
    assert_eq!(macros.check_missing_fields.mandatory, vec!["name".to_string()]);
    assert_eq!(macros.field_list.field_list, "Plain.name, Plain.note");
    assert!(macros.related_pks.arms.is_empty());
}

#[test]
fn sql_table_generates_for_valid_table() {
    match sql_table(&Item::Struct(related_table_connection_expr()), 7) {
        SqlTableExpansion::Generated { methods, to_sql, macros, checks } => {
            assert_eq!(methods.field_count, 2);
            assert!(matches!(to_sql.to_sql, ToSqlCode::PrimaryKey(ref pk) if pk == "primary_key"));
            assert_eq!(macros.pk.primary_key, "primary_key");
            assert!(checks.is_empty());
        }
        _ => panic!("expected generated code"),
    }
}

#[test]
fn sql_table_rejects_non_struct_and_bad_struct() {
    match sql_table(&Item::Other, 7) {
        SqlTableExpansion::NotAStruct(errors) => {
            assert_eq!(errors.len(), 1);
            assert_eq!(errors[0].message, "Expected struct but found");
            assert_eq!(errors[0].position, Position::Item);
        }
        _ => panic!("expected an error"),
    }
    let table = ItemStruct {
        ident: "Orphan".to_string(),
        fields: Fields::Named(vec![field("other", generic("ForeignKey", scalar("Other")))]),
    };
    match sql_table(&Item::Struct(table), 7) {
        SqlTableExpansion::Rejected { errors, checks } => {
            assert_eq!(errors.len(), 1);
            assert_eq!(errors[0].message, "No primary key found");
            assert_eq!(checks.len(), 1);
            assert_eq!(checks[0].table, "Other");
        }
        _ => panic!("expected diagnostics"),
    }
}
