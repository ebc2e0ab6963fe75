//! The expansion of the table derive.

use vstd::prelude::*;

use crate::error::{Error, ErrorView, Position, Severity, errors_view};
use crate::fields::{
    ForeignKeyCheck,
    checks_match,
    custom_tables,
    get_struct_fields,
    last_serial,
    lemma_accepted_struct_has_primary_key,
    not_named_error,
    struct_errors,
};
use crate::macros::{TableMacros, macros_match, table_macro};
use crate::methods::{TableMethods, named_fields, ToSqlImpl, methods_match, table_methods, to_sql_match, tosql_impl};
use crate::model::{Fields, Item, ItemStruct};

verus! {

/// What the table derive expands to.
pub enum SqlTableExpansion {
    /// The item is not a struct: the diagnostics.
    NotAStruct(Vec<Error>),
    /// The struct is rejected: the diagnostics, and the foreign key checks, which are still
    /// generated.
    Rejected { errors: Vec<Error>, checks: Vec<ForeignKeyCheck> },
    /// The struct is a table: its `SqlTable`, `Debug` and `ToSql` implementations, its helper
    /// macros and its foreign key checks.
    Generated {
        methods: TableMethods,
        to_sql: ToSqlImpl,
        macros: TableMacros,
        checks: Vec<ForeignKeyCheck>,
    },
}

/// The error for an item that is not a struct.
pub open spec fn not_struct_error() -> ErrorView {
    ErrorView {
        message: "Expected struct but found"@,
        code: None,
        severity: Severity::Error,
        position: Position::Item,
    }
}

/// `res` is the expansion of the table derive for the struct `s`, with check structs named from
/// the random value `seed`.
pub open spec fn struct_expansion(s: ItemStruct, seed: u64, res: SqlTableExpansion) -> bool {
    match s.fields {
        Fields::Unnamed => res matches SqlTableExpansion::Rejected { errors, checks }
            && errors_view(errors@) == seq![not_named_error()] && checks@.len() == 0,
        Fields::Named(fields) => if struct_errors(fields@).len() == 0 {
            res matches SqlTableExpansion::Generated { methods, to_sql, macros, checks }
                && methods_match(s, methods) && to_sql_match(s, last_serial(fields@), to_sql)
                && to_sql.to_sql is PrimaryKey
                && macros_match(s, macros) && checks_match(checks@, custom_tables(fields@), seed)
        } else {
            res matches SqlTableExpansion::Rejected { errors, checks } && errors_view(errors@)
                == struct_errors(fields@) && checks_match(checks@, custom_tables(fields@), seed)
        },
    }
}

/// `res` is the expansion of the table derive for `item`.
pub open spec fn item_expansion(item: Item, seed: u64, res: SqlTableExpansion) -> bool {
    match item {
        Item::Struct(s) => struct_expansion(s, seed, res),
        Item::Other => res matches SqlTableExpansion::NotAStruct(errors) && errors_view(errors@)
            == seq![not_struct_error()],
    }
}

/// Expand the table derive, which must be used on structs to tell that they represent an SQL
/// table. The check structs are named from the random value `seed`.
pub fn sql_table(item: &Item, seed: u64) -> (res: SqlTableExpansion)
    ensures
        item_expansion(*item, seed, res),
{
    match item {
        Item::Struct(item_struct) => {
            let (fields, primary_key, impls) = get_struct_fields(item_struct, seed);
            match fields {
                Err(errors) => SqlTableExpansion::Rejected { errors, checks: impls },
                Ok(_columns) => {
                    proof {
                        lemma_accepted_struct_has_primary_key(named_fields(*item_struct));
                    }
                    let to_sql = tosql_impl(item_struct, primary_key);
                    let methods = table_methods(item_struct);
                    let macros = table_macro(item_struct);
                    SqlTableExpansion::Generated { methods, to_sql, macros, checks: impls }
                },
            }
        },
        Item::Other => {
            let errors = vec![Error::new("Expected struct but found", Position::Item)];
            assert(errors_view(errors@) =~= seq![not_struct_error()]);
            SqlTableExpansion::NotAStruct(errors)
        },
    }
}

} // verus!
