//! The `macro_rules!` helpers generated for each table struct, which the query macro expands to
//! check and build queries on that table.

use vstd::prelude::*;

use crate::fields::TypedColumn;
use crate::methods::{
    RowGet,
    is_foreign_key_path,
    is_foreign_key_text,
    lemma_counts_agree,
    lemma_path_column_count_bound,
    named_fields,
    path_column_count,
    row_gets,
    text_column_count,
    texts,
};
use crate::model::{Field, Fields, ItemStruct, get_type_parameter, type_parameter};
use crate::text::{concat3, has_prefix, same_text, starts_with};
use crate::types::{field_ty_to_type, sql_type_of};

verus! {

/// The name `tql_{table}{suffix}` of a generated macro.
pub open spec fn macro_name(table: Seq<char>, suffix: Seq<char>) -> Seq<char> {
    "tql_"@ + table + suffix
}

/// The field's type text starts with `ForeignKey`.
pub open spec fn is_fk_text(f: Field) -> bool {
    has_prefix(f.ty.text@, "ForeignKey"@)
}

/// The field's type text is `PrimaryKey`.
pub open spec fn is_pk_text(f: Field) -> bool {
    f.ty.text@ == "PrimaryKey"@
}

/// A field that an insert must give: neither optional nor the primary key.
pub open spec fn is_mandatory(f: Field) -> bool {
    !has_prefix(f.ty.text@, "Option"@) && !is_pk_text(f)
}

/// The names of the mandatory fields, in order.
pub open spec fn mandatory_fields(fields: Seq<Field>) -> Seq<Seq<char>>
    decreases fields.len(),
{
    if fields.len() == 0 {
        seq![]
    } else {
        let prev = mandatory_fields(fields.drop_last());
        if is_mandatory(fields.last()) {
            prev.push(fields.last().name@)
        } else {
            prev
        }
    }
}

/// A rule of a generated macro: the field name it matches and the text it expands to.
pub struct MacroArm {
    pub field: String,
    pub target: String,
}

/// The views of macro rules.
pub open spec fn arms_view(arms: Seq<MacroArm>) -> Seq<(Seq<char>, Seq<char>)> {
    arms.map_values(|a: MacroArm| (a.field@, a.target@))
}

/// For each foreign key field with a table parameter `T`, in order: the field's name and the
/// macro name `tql_{T}{suffix}`.
pub open spec fn fk_arms(fields: Seq<Field>, suffix: Seq<char>) -> Seq<(Seq<char>, Seq<char>)>
    decreases fields.len(),
{
    if fields.len() == 0 {
        seq![]
    } else {
        let prev = fk_arms(fields.drop_last(), suffix);
        let f = fields.last();
        if is_fk_text(f) && type_parameter(f.ty) is Some {
            prev.push((f.name@, macro_name(type_parameter(f.ty)->0, suffix)))
        } else {
            prev
        }
    }
}

/// For each foreign key field with a table parameter, in order: that table.
pub open spec fn fk_tables(fields: Seq<Field>) -> Seq<Seq<char>>
    decreases fields.len(),
{
    if fields.len() == 0 {
        seq![]
    } else {
        let prev = fk_tables(fields.drop_last());
        let f = fields.last();
        if is_fk_text(f) && type_parameter(f.ty) is Some {
            prev.push(type_parameter(f.ty)->0)
        } else {
            prev
        }
    }
}

fn macro_name_exec(table: &str, suffix: &str) -> (res: String)
    ensures
        res@ == macro_name(table@, suffix@),
{
    concat3("tql_", table, suffix)
}

fn foreign_key_arms(fields: &Vec<Field>, suffix: &str) -> (res: (Vec<MacroArm>, Vec<String>))
    ensures
        arms_view(res.0@) == fk_arms(fields@, suffix@),
        texts(res.1@) == fk_tables(fields@),
{
    let mut arms: Vec<MacroArm> = Vec::new();
    let mut tables: Vec<String> = Vec::new();
    let mut i: usize = 0;
    while i < fields.len()
        invariant
            i <= fields@.len(),
            arms_view(arms@) == fk_arms(fields@.take(i as int), suffix@),
            texts(tables@) == fk_tables(fields@.take(i as int)),
        decreases fields.len() - i,
    {
        let ghost prefix = fields@.take(i + 1);
        assert(prefix.drop_last() =~= fields@.take(i as int));
        assert(prefix.last() == fields@[i as int]);
        let field = &fields[i];
        if starts_with(field.ty.text.as_str(), "ForeignKey") {
            if let Some(typ) = get_type_parameter(&field.ty) {
                let ghost prev_arms = arms@;
                let ghost prev_tables = tables@;
                let target = macro_name_exec(typ.as_str(), suffix);
                arms.push(MacroArm { field: field.name.clone(), target });
                tables.push(typ);
                assert(arms_view(arms@) =~= arms_view(prev_arms).push(
                    (field.name@, macro_name(type_parameter(field.ty)->0, suffix@)),
                ));
                assert(texts(tables@) =~= texts(prev_tables).push(type_parameter(field.ty)->0));
            }
        }
        i += 1;
    }
    assert(fields@.take(fields@.len() as int) =~= fields@);
    (arms, tables)
}

/// The macro that checks that an insert gives all the mandatory fields.
pub struct CheckMissingFieldsMacro {
    pub name: String,
    pub mandatory: Vec<String>,
}

/// Create the macro that checks that an insert gives all the mandatory fields.
pub fn check_missing_fields_macro(named: &Vec<Field>, table_ident: &str) -> (res:
    CheckMissingFieldsMacro)
    ensures
        res.name@ == macro_name(table_ident@, "_check_missing_fields"@),
        texts(res.mandatory@) == mandatory_fields(named@),
{
    let mut mandatory: Vec<String> = Vec::new();
    let mut i: usize = 0;
    while i < named.len()
        invariant
            i <= named@.len(),
            texts(mandatory@) == mandatory_fields(named@.take(i as int)),
        decreases named.len() - i,
    {
        let ghost prefix = named@.take(i + 1);
        assert(prefix.drop_last() =~= named@.take(i as int));
        assert(prefix.last() == named@[i as int]);
        let field = &named[i];
        let ghost prev = mandatory@;
        if !starts_with(field.ty.text.as_str(), "Option") && !same_text(
            field.ty.text.as_str(),
            "PrimaryKey",
        ) {
            mandatory.push(field.name.clone());
            assert(texts(mandatory@) =~= texts(prev).push(field.name@));
        }
        i += 1;
    }
    assert(named@.take(named@.len() as int) =~= named@);
    CheckMissingFieldsMacro {
        name: macro_name_exec(table_ident, "_check_missing_fields"),
        mandatory,
    }
}

/// `parts` joined with `sep` between each two.
pub open spec fn join(parts: Seq<Seq<char>>, sep: Seq<char>) -> Seq<char>
    decreases parts.len(),
{
    if parts.len() == 0 {
        seq![]
    } else if parts.len() == 1 {
        parts[0]
    } else {
        join(parts.drop_last(), sep) + sep + parts.last()
    }
}

/// The qualified columns `{table}.{field}` of the fields that are not foreign keys, in order.
pub open spec fn qualified_columns(fields: Seq<Field>, table: Seq<char>) -> Seq<Seq<char>>
    decreases fields.len(),
{
    if fields.len() == 0 {
        seq![]
    } else {
        let prev = qualified_columns(fields.drop_last(), table);
        if is_fk_text(fields.last()) {
            prev
        } else {
            prev.push(table + "."@ + fields.last().name@)
        }
    }
}

/// The macro that expands to the list of the table's columns.
pub struct FieldListMacro {
    pub name: String,
    /// The columns, as `{table}.{field}` joined with `, `.
    pub field_list: String,
}

/// Create the macro that expands to the list of the table's columns.
pub fn field_list_macro(named: &Vec<Field>, table_ident: &str) -> (res: FieldListMacro)
    ensures
        res.name@ == macro_name(table_ident@, "_field_list"@),
        res.field_list@ == join(qualified_columns(named@, table_ident@), ", "@),
{
    let mut list = String::from_str("");
    let mut count: usize = 0;
    let mut i: usize = 0;
    proof {
        reveal_strlit("");
    }
    while i < named.len()
        invariant
            i <= named@.len(),
            count == qualified_columns(named@.take(i as int), table_ident@).len(),
            count <= i,
            list@ == join(qualified_columns(named@.take(i as int), table_ident@), ", "@),
        decreases named.len() - i,
    {
        let ghost prefix = named@.take(i + 1);
        assert(prefix.drop_last() =~= named@.take(i as int));
        assert(prefix.last() == named@[i as int]);
        let field = &named[i];
        if !starts_with(field.ty.text.as_str(), "ForeignKey") {
            let column = concat3(table_ident, ".", field.name.as_str());
            let ghost parts = qualified_columns(prefix, table_ident@);
            if count == 0 {
                list = column;
                assert(parts.len() == 1);
            } else {
                list = list.concat(", ").concat(column.as_str());
                assert(parts.drop_last() =~= qualified_columns(named@.take(i as int), table_ident@));
            }
            count += 1;
        }
        i += 1;
    }
    assert(named@.take(named@.len() as int) =~= named@);
    FieldListMacro { name: macro_name_exec(table_ident, "_field_list"), field_list: list }
}

/// The macro that expands to the `CREATE TABLE` query of the table: the table's name and each
/// field with its SQL type.
pub struct CreateQueryMacro {
    pub name: String,
    pub table: String,
    pub fields: Vec<TypedColumn>,
}

/// Create the macro that expands to the `CREATE TABLE` query of the table.
pub fn create_query_macro(named: &Vec<Field>, table_ident: &str) -> (res: CreateQueryMacro)
    ensures
        res.name@ == macro_name(table_ident@, "_create_query"@),
        res.table@ == table_ident@,
        res.fields@.len() == named@.len(),
        forall|i: int|
            0 <= i < named@.len() ==> #[trigger] res.fields@[i].name@ == named@[i].name@
                && res.fields@[i].sql_type == sql_type_of(named@[i].ty),
{
    let mut fields: Vec<TypedColumn> = Vec::new();
    let mut i: usize = 0;
    while i < named.len()
        invariant
            i <= named@.len(),
            fields@.len() == i,
            forall|j: int|
                0 <= j < i ==> #[trigger] fields@[j].name@ == named@[j].name@ && fields@[j].sql_type
                    == sql_type_of(named@[j].ty),
        decreases named.len() - i,
    {
        let field = &named[i];
        fields.push(TypedColumn { name: field.name.clone(), sql_type: field_ty_to_type(&field.ty) });
        i += 1;
    }
    CreateQueryMacro {
        name: macro_name_exec(table_ident, "_create_query"),
        table: String::from_str(table_ident),
        fields,
    }
}

/// A macro with one rule for each foreign key field.
pub struct ForeignKeyMacro {
    pub name: String,
    pub arms: Vec<MacroArm>,
}

/// Create the macro that maps each foreign key field to the macro giving the primary key field
/// of the related table.
pub fn related_pks_macro(named: &Vec<Field>, table_ident: &str) -> (res: ForeignKeyMacro)
    ensures
        res.name@ == macro_name(table_ident@, "_related_pks"@),
        arms_view(res.arms@) == fk_arms(named@, "_primary_key_field"@),
{
    let (arms, _tables) = foreign_key_arms(named, "_primary_key_field");
    ForeignKeyMacro { name: macro_name_exec(table_ident, "_related_pks"), arms }
}

/// The name of the last field whose type is `PrimaryKey`.
pub open spec fn last_pk_text(fields: Seq<Field>) -> Option<Seq<char>>
    decreases fields.len(),
{
    if fields.len() == 0 {
        None
    } else if is_pk_text(fields.last()) {
        Some(fields.last().name@)
    } else {
        last_pk_text(fields.drop_last())
    }
}

/// The macro that expands to the name of the table's primary key field.
pub struct PkMacro {
    pub name: String,
    /// The primary key field's name, or `-1` for a table without one.
    pub primary_key: String,
}

/// Create the macro that expands to the name of the table's primary key field.
pub fn pk_macro(named: &Vec<Field>, table_ident: &str) -> (res: PkMacro)
    ensures
        res.name@ == macro_name(table_ident@, "_primary_key_field"@),
        res.primary_key@ == match last_pk_text(named@) {
            Some(pk) => pk,
            None => "-1"@,
        },
{
    let mut primary_key: Option<usize> = None;
    let mut i: usize = 0;
    while i < named.len()
        invariant
            i <= named@.len(),
            match primary_key {
                Some(k) => k < i && last_pk_text(named@.take(i as int)) == Some(named@[k as int].name@),
                None => last_pk_text(named@.take(i as int)) is None,
            },
        decreases named.len() - i,
    {
        let ghost prefix = named@.take(i + 1);
        assert(prefix.drop_last() =~= named@.take(i as int));
        assert(prefix.last() == named@[i as int]);
        if same_text(named[i].ty.text.as_str(), "PrimaryKey") {
            primary_key = Some(i);
        }
        i += 1;
    }
    assert(named@.take(named@.len() as int) =~= named@);
    let primary_key = match primary_key {
        Some(k) => named[k].name.clone(),
        None => String::from_str("-1"),
    };
    PkMacro { name: macro_name_exec(table_ident, "_primary_key_field"), primary_key }
}

/// A field that a join names but that is not a foreign key, with the compile error to emit.
pub struct FieldMismatch {
    pub field: String,
    /// The index of the field in the struct.
    pub index: usize,
    pub message: String,
}

/// The error for a join on the field with type text `typ`, which is not a foreign key.
pub open spec fn mismatch_message(typ: Seq<char>) -> Seq<char> {
    "mismatched types\nexpected type `ForeignKey<_>`\n   found type `"@ + typ + "`"@
}

/// For each field that is not a foreign key, in order: its name, index and mismatch error.
pub open spec fn mismatches(fields: Seq<Field>) -> Seq<(Seq<char>, usize, Seq<char>)>
    decreases fields.len(),
{
    if fields.len() == 0 {
        seq![]
    } else {
        let prev = mismatches(fields.drop_last());
        let f = fields.last();
        if is_fk_text(f) {
            prev
        } else {
            prev.push((f.name@, (fields.len() - 1) as usize, mismatch_message(f.ty.text@)))
        }
    }
}

/// The views of field mismatches.
pub open spec fn mismatches_view(m: Seq<FieldMismatch>) -> Seq<(Seq<char>, usize, Seq<char>)> {
    m.map_values(|x: FieldMismatch| (x.field@, x.index, x.message@))
}

/// The macros that give the table related to each foreign key field, reject joins on the other
/// fields, and check that each related table has a primary key.
pub struct RelatedTableMacro {
    /// The macro that maps each foreign key field to its related table.
    pub name: String,
    /// The macro that rejects a join on a field that is not a foreign key.
    pub check_name: String,
    /// The macro that checks that the table related to a foreign key field has a primary key.
    pub check_related_pk_name: String,
    /// Each foreign key field with the primary key check macro of its related table.
    pub related: Vec<MacroArm>,
    /// The related table of each foreign key field, in the order of `related`.
    pub tables: Vec<String>,
    /// The fields that are not foreign keys.
    pub non_related: Vec<FieldMismatch>,
}

/// Create the macros about the tables related by foreign keys.
pub fn related_table_macro(named: &Vec<Field>, table_ident: &str) -> (res: RelatedTableMacro)
    ensures
        res.name@ == macro_name(table_ident@, "_related_tables"@),
        res.check_name@ == macro_name(table_ident@, "_check_related_tables"@),
        res.check_related_pk_name@ == macro_name(table_ident@, "_check_related_pks"@),
        arms_view(res.related@) == fk_arms(named@, "_check_primary_key"@),
        texts(res.tables@) == fk_tables(named@),
        mismatches_view(res.non_related@) == mismatches(named@),
{
    let (related, tables) = foreign_key_arms(named, "_check_primary_key");
    let mut non_related: Vec<FieldMismatch> = Vec::new();
    let mut i: usize = 0;
    while i < named.len()
        invariant
            i <= named@.len(),
            mismatches_view(non_related@) == mismatches(named@.take(i as int)),
        decreases named.len() - i,
    {
        let ghost prefix = named@.take(i + 1);
        assert(prefix.drop_last() =~= named@.take(i as int));
        assert(prefix.last() == named@[i as int]);
        let field = &named[i];
        if !starts_with(field.ty.text.as_str(), "ForeignKey") {
            let ghost prev = non_related@;
            let message = concat3(
                "mismatched types\nexpected type `ForeignKey<_>`\n   found type `",
                field.ty.text.as_str(),
                "`",
            );
            non_related.push(FieldMismatch { field: field.name.clone(), index: i, message });
            assert(mismatches_view(non_related@) =~= mismatches_view(prev).push(
                (field.name@, i, mismatch_message(field.ty.text@)),
            ));
        }
        i += 1;
    }
    assert(named@.take(named@.len() as int) =~= named@);
    RelatedTableMacro {
        name: macro_name_exec(table_ident, "_related_tables"),
        check_name: macro_name_exec(table_ident, "_check_related_tables"),
        check_related_pk_name: macro_name_exec(table_ident, "_check_related_pks"),
        related,
        tables,
        non_related,
    }
}

/// Some field's type text is `PrimaryKey`.
pub open spec fn has_pk_text(fields: Seq<Field>) -> bool {
    exists|i: int| 0 <= i < fields.len() && is_pk_text(#[trigger] fields[i])
}

/// The error for a join on a table without a primary key.
pub open spec fn no_pk_for_join_message(table: Seq<char>) -> Seq<char> {
    "No primary key found for table "@ + table + " which is needed for a join"@
}

/// The macro that checks that the table has a primary key, which a join needs.
pub struct CheckPkMacro {
    pub name: String,
    /// The compile error it expands to, for a table without a primary key.
    pub error: Option<String>,
}

/// Create the macro that checks that the table has a primary key.
pub fn check_pk_macro(named: &Vec<Field>, table_ident: &str) -> (res: CheckPkMacro)
    ensures
        res.name@ == macro_name(table_ident@, "_check_primary_key"@),
        has_pk_text(named@) ==> res.error is None,
        !has_pk_text(named@) ==> (res.error matches Some(e) && e@ == no_pk_for_join_message(
            table_ident@,
        )),
{
    let mut primary_key_found = false;
    let mut i: usize = 0;
    while i < named.len()
        invariant
            i <= named@.len(),
            primary_key_found == exists|j: int| 0 <= j < i && is_pk_text(#[trigger] named@[j]),
        decreases named.len() - i,
    {
        if same_text(named[i].ty.text.as_str(), "PrimaryKey") {
            primary_key_found = true;
        }
        i += 1;
    }
    let error = if primary_key_found {
        None
    } else {
        Some(concat3("No primary key found for table ", table_ident, " which is needed for a join"))
    };
    CheckPkMacro { name: macro_name_exec(table_ident, "_check_primary_key"), error }
}

/// All the macros generated for a table struct.
pub struct TableMacros {
    /// The macro that maps each foreign key field to the column list macro of its table.
    pub related_field_list: ForeignKeyMacro,
    pub check_pk: CheckPkMacro,
    pub related_tables: RelatedTableMacro,
    pub check_missing_fields: CheckMissingFieldsMacro,
    pub field_list: FieldListMacro,
    pub create_query: CreateQueryMacro,
    pub related_pks: ForeignKeyMacro,
    pub pk: PkMacro,
}

/// `res` holds the macros generated for `item_struct`: each one's name and content.
pub open spec fn macros_match(item_struct: ItemStruct, res: TableMacros) -> bool {
    let fields = named_fields(item_struct);
    let t = item_struct.ident@;
        &&& res.related_field_list.name@ == macro_name(t, "_related_field_list"@)
        &&& arms_view(res.related_field_list.arms@) == fk_arms(fields, "_field_list"@)
        &&& res.check_pk.name@ == macro_name(t, "_check_primary_key"@)
        &&& (res.check_pk.error is None) == has_pk_text(fields)
        &&& res.check_pk.error matches Some(e) ==> e@ == no_pk_for_join_message(t)
        &&& res.related_tables.name@ == macro_name(t, "_related_tables"@)
        &&& res.related_tables.check_name@ == macro_name(t, "_check_related_tables"@)
        &&& res.related_tables.check_related_pk_name@ == macro_name(t, "_check_related_pks"@)
        &&& arms_view(res.related_tables.related@) == fk_arms(fields, "_check_primary_key"@)
        &&& texts(res.related_tables.tables@) == fk_tables(fields)
        &&& mismatches_view(res.related_tables.non_related@) == mismatches(fields)
        &&& res.check_missing_fields.name@ == macro_name(t, "_check_missing_fields"@)
        &&& texts(res.check_missing_fields.mandatory@) == mandatory_fields(fields)
        &&& res.field_list.name@ == macro_name(t, "_field_list"@)
        &&& res.field_list.field_list@ == join(qualified_columns(fields, t), ", "@)
        &&& res.create_query.name@ == macro_name(t, "_create_query"@)
        &&& res.create_query.table@ == t
        &&& res.create_query.fields@.len() == fields.len()
        &&& forall|i: int|
            0 <= i < fields.len() ==> #[trigger] res.create_query.fields@[i].name@
                == fields[i].name@ && res.create_query.fields@[i].sql_type == sql_type_of(
                fields[i].ty,
            )
        &&& res.related_pks.name@ == macro_name(t, "_related_pks"@)
        &&& arms_view(res.related_pks.arms@) == fk_arms(fields, "_primary_key_field"@)
        &&& res.pk.name@ == macro_name(t, "_primary_key_field"@)
        &&& res.pk.primary_key@ == match last_pk_text(fields) {
            Some(pk) => pk,
            None => "-1"@,
        }
}

/// Create the macros for the table struct, among which the insert macro that checks that all the
/// mandatory fields are given.
pub fn table_macro(item_struct: &ItemStruct) -> (res: TableMacros)
    requires
        item_struct.fields is Named,
    ensures
        macros_match(*item_struct, res),
{
    let named = match &item_struct.fields {
        Fields::Named(named) => named,
        Fields::Unnamed => unreached(),
    };
    let table_ident = item_struct.ident.as_str();
    let (fk_patterns, _tables) = foreign_key_arms(named, "_field_list");
    let related_field_list = ForeignKeyMacro {
        name: macro_name_exec(table_ident, "_related_field_list"),
        arms: fk_patterns,
    };
    TableMacros {
        related_field_list,
        check_pk: check_pk_macro(named, table_ident),
        related_tables: related_table_macro(named, table_ident),
        check_missing_fields: check_missing_fields_macro(named, table_ident),
        field_list: field_list_macro(named, table_ident),
        create_query: create_query_macro(named, table_ident),
        related_pks: related_pks_macro(named, table_ident),
        pk: pk_macro(named, table_ident),
    }
}

/// Law: the join check of a table reports no missing primary key exactly when its primary key
/// macro names a field (rather than `-1`).
pub proof fn lemma_pk_check_agrees_with_pk_macro(fields: Seq<Field>)
    ensures
        has_pk_text(fields) == (last_pk_text(fields) is Some),
    decreases fields.len(),
{
    if fields.len() > 0 {
        let prev = fields.drop_last();
        lemma_pk_check_agrees_with_pk_macro(prev);
        if has_pk_text(prev) {
            let i = choose|i: int| 0 <= i < prev.len() && is_pk_text(#[trigger] prev[i]);
            assert(fields[i] == prev[i]);
        }
        if has_pk_text(fields) && !is_pk_text(fields.last()) {
            let i = choose|i: int| 0 <= i < fields.len() && is_pk_text(#[trigger] fields[i]);
            assert(prev[i] == fields[i]);
        }
        if is_pk_text(fields.last()) {
            assert(is_pk_text(fields[fields.len() - 1]));
        }
    }
}

/// Law: the column list of a table names exactly `FIELD_COUNT` columns, the number of columns
/// that `from_row` reads.
pub proof fn lemma_field_list_has_field_count_columns(fields: Seq<Field>, table: Seq<char>)
    ensures
        qualified_columns(fields, table).len() == text_column_count(fields),
    decreases fields.len(),
{
    if fields.len() > 0 {
        lemma_field_list_has_field_count_columns(fields.drop_last(), table);
    }
}

/// Law: where every field's type text starts with `ForeignKey` exactly when its path does, the
/// column list of the table names, at each position `j`, the field that `from_row` reads from
/// column `j`.
pub proof fn lemma_field_list_matches_from_row(fields: Seq<Field>, table: Seq<char>)
    requires
        forall|i: int|
            0 <= i < fields.len() ==> is_foreign_key_text(#[trigger] fields[i].ty)
                == is_foreign_key_path(fields[i].ty),
        fields.len() <= usize::MAX,
    ensures
        row_gets(fields, false).len() == fields.len(),
        forall|k: int|
            0 <= k < fields.len() ==> match #[trigger] row_gets(fields, false)[k] {
                RowGet::Column { index, .. } => index < qualified_columns(fields, table).len()
                    && qualified_columns(fields, table)[index as int] == table + "."@
                    + fields[k].name@,
                RowGet::Foreign => true,
            },
    decreases fields.len(),
{
    if fields.len() > 0 {
        let prev = fields.drop_last();
        let n = fields.len() - 1;
        assert forall|i: int| 0 <= i < prev.len() implies is_foreign_key_text(#[trigger] prev[i].ty)
            == is_foreign_key_path(prev[i].ty) by {
            assert(prev[i] == fields[i]);
        }
        lemma_field_list_matches_from_row(prev, table);
        lemma_field_list_has_field_count_columns(prev, table);
        lemma_counts_agree(prev);
        lemma_path_column_count_bound(prev);
        assert(is_foreign_key_text(fields[n].ty) == is_foreign_key_path(fields[n].ty));
        assert forall|k: int| 0 <= k < fields.len() implies match #[trigger] row_gets(
            fields,
            false,
        )[k] {
            RowGet::Column { index, .. } => index < qualified_columns(fields, table).len()
                && qualified_columns(fields, table)[index as int] == table + "."@ + fields[k].name@,
            RowGet::Foreign => true,
        } by {
            if k < n {
                assert(row_gets(fields, false)[k] == row_gets(prev, false)[k]);
                assert(fields[k] == prev[k]);
            }
        }
    }
}

/// Law: where every field whose type starts with `ForeignKey` names its table, each field is
/// either mapped to its related table or rejected as a join target, and not both.
pub proof fn lemma_related_tables_partition_fields(fields: Seq<Field>)
    requires
        forall|i: int|
            0 <= i < fields.len() && is_fk_text(#[trigger] fields[i]) ==> type_parameter(
                fields[i].ty,
            ) is Some,
    ensures
        fk_tables(fields).len() + mismatches(fields).len() == fields.len(),
    decreases fields.len(),
{
    if fields.len() > 0 {
        let prev = fields.drop_last();
        assert forall|i: int| 0 <= i < prev.len() && is_fk_text(#[trigger] prev[i]) implies type_parameter(
            prev[i].ty,
        ) is Some by {
            assert(prev[i] == fields[i]);
        }
        lemma_related_tables_partition_fields(prev);
        assert(is_fk_text(fields[fields.len() - 1]) ==> type_parameter(fields[fields.len() - 1].ty) is Some);
    }
}

/// The field is a foreign key that names its table.
pub open spec fn is_fk_with_table(f: Field) -> bool {
    is_fk_text(f) && type_parameter(f.ty) is Some
}

/// Law: every foreign key field that names its table `T` gets a rule mapping its name to the
/// macro `tql_{T}{suffix}`, every rule comes from such a field, and there are as many rules as
/// related tables, the `i`-th rule naming the macro of the `i`-th related table.
pub proof fn lemma_fk_arms_one_per_foreign_key(fields: Seq<Field>, suffix: Seq<char>)
    ensures
        forall|k: int|
            0 <= k < fields.len() && is_fk_with_table(#[trigger] fields[k]) ==> fk_arms(
                fields,
                suffix,
            ).contains((fields[k].name@, macro_name(type_parameter(fields[k].ty)->0, suffix))),
        forall|i: int|
            #![trigger fk_arms(fields, suffix)[i]]
            0 <= i < fk_arms(fields, suffix).len() ==> exists|k: int|
                0 <= k < fields.len() && is_fk_with_table(#[trigger] fields[k]) && fk_arms(
                    fields,
                    suffix,
                )[i] == (fields[k].name@, macro_name(type_parameter(fields[k].ty)->0, suffix)),
        fk_arms(fields, suffix).len() == fk_tables(fields).len(),
        forall|i: int|
            0 <= i < fk_tables(fields).len() ==> #[trigger] fk_arms(fields, suffix)[i].1
                == macro_name(fk_tables(fields)[i], suffix),
    decreases fields.len(),
{
    if fields.len() > 0 {
        let prev = fields.drop_last();
        let n = fields.len() - 1;
        lemma_fk_arms_one_per_foreign_key(prev, suffix);
        let arms = fk_arms(fields, suffix);
        let parms = fk_arms(prev, suffix);
        assert(fields.last() == fields[n]);
        assert forall|k: int|
            0 <= k < fields.len() && is_fk_with_table(#[trigger] fields[k]) implies arms.contains(
            (fields[k].name@, macro_name(type_parameter(fields[k].ty)->0, suffix)),
        ) by {
            if k < n {
                assert(fields[k] == prev[k]);
                assert(is_fk_with_table(prev[k]));
                let j = choose|j: int|
                    0 <= j < parms.len() && parms[j] == (
                        prev[k].name@,
                        macro_name(type_parameter(prev[k].ty)->0, suffix),
                    );
                assert(arms[j] == parms[j]);
            } else {
                assert(arms[parms.len() as int] == (
                    fields[k].name@,
                    macro_name(type_parameter(fields[k].ty)->0, suffix),
                ));
            }
        }
        assert forall|i: int| #![trigger arms[i]] 0 <= i < arms.len() implies exists|k: int|
            0 <= k < fields.len() && is_fk_with_table(#[trigger] fields[k]) && arms[i] == (
                fields[k].name@,
                macro_name(type_parameter(fields[k].ty)->0, suffix),
            ) by {
            if i < parms.len() {
                let k = choose|k: int|
                    0 <= k < prev.len() && is_fk_with_table(#[trigger] prev[k]) && parms[i] == (
                        prev[k].name@,
                        macro_name(type_parameter(prev[k].ty)->0, suffix),
                    );
                assert(fields[k] == prev[k]);
                assert(arms[i] == parms[i]);
            } else {
                assert(is_fk_with_table(fields[n]));
            }
        }
        assert forall|i: int| 0 <= i < fk_tables(fields).len() implies #[trigger] arms[i].1
            == macro_name(fk_tables(fields)[i], suffix) by {
            if i < fk_tables(prev).len() {
                assert(arms[i] == parms[i]);
                assert(fk_tables(fields)[i] == fk_tables(prev)[i]);
                assert(parms[i].1 == macro_name(fk_tables(prev)[i], suffix));
            }
        }
    }
}

} // verus!
