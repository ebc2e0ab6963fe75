use tql_macros::error::{Error, Position};
use tql_macros::missing::{
    check_missing_fields, gen_check_missing_fields, missing_fields_message, ArgExpr, ArgList, Arguments,
};
use tql_macros::query::{
    add_error, create_struct, gen_aggregate_struct, generate_errors, typecheck_arguments, unqualified_field,
    Aggregate, Arg, Join, MethodCall, SqlQueryWithArgs,
};

fn names(list: &[&str]) -> Vec<String> {
    list.iter().map(|s| s.to_string()).collect()
}

fn array(list: &[&str]) -> ArgList {
    ArgList::Array(list.iter().map(|s| ArgExpr::Path(s.to_string())).collect())
}

#[test]
fn insert_with_all_mandatory_fields_passes() {
    let args = Arguments(vec![
        array(&["field1", "field2", "related_field"]),
        array(&["field1", "field2", "related_field", "optional_field"]),
    ]);
    assert_eq!(gen_check_missing_fields(&args), None);
    assert_eq!(check_missing_fields(&args), None);
}

#[test]
fn insert_missing_fields_is_an_error() {
    let args = Arguments(vec![array(&["field1", "field2", "related_field"]), array(&["field1"])]);
    assert_eq!(
        gen_check_missing_fields(&args),
        Some("missing fields: field2, related_field".to_string())
    );
    let args = Arguments(vec![array(&["field1", "field2"]), array(&["field2"])]);
    assert_eq!(gen_check_missing_fields(&args), Some("missing fields: field1".to_string()));
}

#[test]
fn grouped_paths_count_as_given_and_other_mandatory_elements_are_ignored() {
    let args = Arguments(vec![
        ArgList::Array(vec![ArgExpr::Path("a".to_string()), ArgExpr::Other, ArgExpr::Path("b".to_string())]),
        ArgList::Array(vec![ArgExpr::Group(Box::new(ArgExpr::Path("b".to_string())))]),
    ]);
    assert_eq!(gen_check_missing_fields(&args), Some("missing fields: a".to_string()));
    let args = Arguments(vec![ArgList::Other, ArgList::Other]);
    assert_eq!(gen_check_missing_fields(&args), None);
}

#[test]
fn missing_fields_message_keeps_mandatory_order() {
    assert_eq!(
        missing_fields_message(&names(&["c", "a", "b"]), &names(&["a"])),
        Some("missing fields: c, b".to_string())
    );
    assert_eq!(missing_fields_message(&names(&[]), &names(&["a"])), None);
}

#[test]
fn unqualified_field_strips_table() {
    assert_eq!(unqualified_field("TableConnectionExpr.field1"), "field1");
    assert_eq!(unqualified_field("field1"), "field1");
    assert_eq!(unqualified_field("a.b.c"), "b.c");
}

fn arg(field: Option<&str>, expression: &str, is_literal: bool) -> Arg {
    Arg { field_name: field.map(|f| f.to_string()), expression: expression.to_string(), is_literal }
}

#[test]
fn typecheck_arguments_of_insert() {
    let args = SqlQueryWithArgs {
        table_name: "TableConnectionExpr".to_string(),
        arguments: vec![
            arg(Some("TableConnectionExpr.field1"), "\"value1\"", true),
            arg(Some("TableConnectionExpr.field2"), "new_field2", false),
            arg(None, "limit", false),
        ],
        literal_arguments: vec![arg(Some("related_field"), "42", true)],
        idents: vec![],
        limit_exprs: vec![],
        insert_idents: Some(names(&["field1", "field2", "related_field"])),
        method_calls: vec![],
    };
    let checks = typecheck_arguments(&args);
    assert_eq!(checks.table, "TableConnectionExpr");
    assert_eq!(checks.arg_refs, names(&["new_field2", "limit"]));
    assert_eq!(checks.assigns.len(), 3);
    assert_eq!(checks.assigns[0].field, "field1");
    assert_eq!(checks.assigns[0].expression, "\"value1\"");
    assert_eq!(checks.assigns[1].field, "field2");
    assert_eq!(checks.assigns[2].field, "related_field");
    assert_eq!(checks.assigns[2].expression, "42");
    let call = checks.missing_fields_call.expect("insert check");
    assert_eq!(call.macro_name, "tql_TableConnectionExpr_check_missing_fields");
    assert_eq!(call.fields, names(&["field1", "field2", "related_field"]));
}

#[test]
fn typecheck_arguments_without_insert() {
    let args = SqlQueryWithArgs {
        table_name: "T".to_string(),
        arguments: vec![],
        literal_arguments: vec![],
        idents: names(&["a"]),
        limit_exprs: names(&["10"]),
        insert_idents: None,
        method_calls: vec![
            (
                MethodCall {
                    object_name: "date".to_string(),
                    method_name: "year".to_string(),
                    arguments: vec![],
                },
                Some("2018".to_string()),
            ),
            (
                MethodCall {
                    object_name: "name".to_string(),
                    method_name: "contains".to_string(),
                    arguments: names(&["\"a\""]),
                },
                None,
            ),
        ],
    };
    let checks = typecheck_arguments(&args);
    assert_eq!(checks.existing_fields, names(&["a"]));
    assert_eq!(checks.limit_exprs, names(&["10"]));
    assert_eq!(checks.method_checks.len(), 2);
    assert_eq!(checks.method_checks[0].field, "date");
    assert_eq!(checks.method_checks[0].method, "year");
    assert_eq!(checks.method_checks[0].comparison, Some("2018".to_string()));
    assert_eq!(checks.method_checks[1].arguments, names(&["\"a\""]));
    assert_eq!(checks.method_checks[1].comparison, None);
    assert!(checks.assigns.is_empty());
    assert!(checks.arg_refs.is_empty());
    assert!(checks.missing_fields_call.is_none());
}

#[test]
fn struct_expression_reads_joined_fields() {
    let joins = vec![Join { base_field: "related_field".to_string() }, Join { base_field: "other".to_string() }];
    let expr = create_struct("TableConnectionExpr", &joins);
    assert_eq!(expr.table, "TableConnectionExpr");
    assert_eq!(expr.related_fields, names(&["related_field", "other"]));
}

#[test]
fn aggregate_fields_read_columns_by_position() {
    let aggregates = vec![
        Aggregate { result_name: "field2_avg".to_string() },
        Aggregate { result_name: "field1_count".to_string() },
    ];
    let fields = gen_aggregate_struct(&aggregates);
    assert_eq!(fields.len(), 2);
    assert_eq!(fields[0].name, "field2_avg");
    assert_eq!(fields[0].index, 0);
    assert_eq!(fields[1].name, "field1_count");
    assert_eq!(fields[1].index, 1);
}

#[test]
fn errors_are_reported_in_order() {
    let errors = vec![
        Error::new("first", Position::CallSite),
        Error::new_with_code("second", Position::FieldType(2), "E0412"),
        Error::new_warning("third", Position::StructName),
    ];
    let reported = generate_errors(errors);
    assert_eq!(reported.len(), 3);
    assert_eq!(reported[0].message, "first");
    assert_eq!(reported[1].message, "second");
    assert_eq!(reported[1].code, Some("E0412".to_string()));
    assert_eq!(reported[2].message, "third");
    let mut collected = vec![];
    add_error(Error::new("x", Position::CallSite), &mut collected);
    add_error(Error::new("y", Position::CallSite), &mut collected);
    assert_eq!(collected[1].message, "y");
}

