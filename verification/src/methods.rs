//! The `SqlTable` methods of a table struct: reading a struct from a row, its `Debug` output and
//! its SQL representation.

use vstd::prelude::*;

use crate::fields::opt_text;
use crate::model::{Field, Fields, ItemStruct, RustType};
use crate::text::{has_prefix, same_text, starts_with};

verus! {

/// The value that `from_row` gives a field.
#[derive(Debug, PartialEq, Eq, Structural, Clone, Copy)]
pub enum RowGet {
    /// A foreign key field: `None` (the related row is read only for a join).
    Foreign,
    /// The row's column `index`, shifted by the `delta` argument of `from_related_row` when
    /// `with_delta` holds.
    Column { index: usize, with_delta: bool },
}

/// The type is a path whose first segment is `ForeignKey`.
pub open spec fn is_foreign_key_path(ty: RustType) -> bool {
    ty.path matches Some(seg) && seg.ident@ == "ForeignKey"@
}

/// The type's text starts with `ForeignKey`.
pub open spec fn is_foreign_key_text(ty: RustType) -> bool {
    has_prefix(ty.text@, "ForeignKey"@)
}

/// The number of fields whose type is not a `ForeignKey` path.
pub open spec fn path_column_count(fields: Seq<Field>) -> nat
    decreases fields.len(),
{
    if fields.len() == 0 {
        0
    } else {
        path_column_count(fields.drop_last()) + if is_foreign_key_path(fields.last().ty) {
            0nat
        } else {
            1nat
        }
    }
}

/// The number of fields whose type's text does not start with `ForeignKey`: `FIELD_COUNT`.
pub open spec fn text_column_count(fields: Seq<Field>) -> nat
    decreases fields.len(),
{
    if fields.len() == 0 {
        0
    } else {
        text_column_count(fields.drop_last()) + if is_foreign_key_text(fields.last().ty) {
            0nat
        } else {
            1nat
        }
    }
}

/// What `from_row` (or, with `with_delta`, `from_related_row`) gives each field: foreign keys
/// get `None`, and the other fields read the next column, starting from column 0.
pub open spec fn row_gets(fields: Seq<Field>, with_delta: bool) -> Seq<RowGet>
    decreases fields.len(),
{
    if fields.len() == 0 {
        seq![]
    } else {
        let prev = fields.drop_last();
        row_gets(prev, with_delta).push(
            if is_foreign_key_path(fields.last().ty) {
                RowGet::Foreign
            } else {
                RowGet::Column { index: path_column_count(prev) as usize, with_delta }
            },
        )
    }
}

/// The column indices read, in order.
pub open spec fn column_indices(gets: Seq<RowGet>) -> Seq<int>
    decreases gets.len(),
{
    if gets.len() == 0 {
        seq![]
    } else {
        let prev = column_indices(gets.drop_last());
        match gets.last() {
            RowGet::Column { index, .. } => prev.push(index as int),
            RowGet::Foreign => prev,
        }
    }
}

/// The value for a field of type `typ` in `from_row`, reading column `*index` and advancing it
/// unless the field is a foreign key.
pub fn to_row_get(typ: &RustType, with_delta: bool, index: &mut usize) -> (res: RowGet)
    requires
        *old(index) < usize::MAX,
    ensures
        is_foreign_key_path(*typ) ==> res == RowGet::Foreign && *final(index) == *old(index),
        !is_foreign_key_path(*typ) ==> res == (RowGet::Column { index: *old(index), with_delta })
            && *final(index) == *old(index) + 1,
{
    if let Some(seg) = &typ.path {
        if same_text(seg.ident.as_str(), "ForeignKey") {
            return RowGet::Foreign;
        }
    }
    let res = RowGet::Column { index: *index, with_delta };
    *index = *index + 1;
    res
}

/// The `SqlTable` implementation of a table struct.
pub struct TableMethods {
    /// The struct's name.
    pub table: String,
    /// `FIELD_COUNT`: the number of columns that the table's own row holds.
    pub field_count: usize,
    /// The field names, in order.
    pub fields: Vec<String>,
    /// What `from_row` gives each field.
    pub columns: Vec<RowGet>,
    /// What `from_related_row` gives each field.
    pub related_columns: Vec<RowGet>,
}

/// The named fields of a struct, or the empty sequence.
pub open spec fn named_fields(item_struct: ItemStruct) -> Seq<Field> {
    match item_struct.fields {
        Fields::Named(fields) => fields@,
        Fields::Unnamed => seq![],
    }
}

/// The names of the fields.
pub open spec fn field_names(fields: Seq<Field>) -> Seq<Seq<char>> {
    fields.map_values(|f: Field| f.name@)
}

/// The views of a sequence of strings.
pub open spec fn texts(s: Seq<String>) -> Seq<Seq<char>> {
    s.map_values(|t: String| t@)
}

fn collect_field_names(fields: &Vec<Field>) -> (res: Vec<String>)
    ensures
        texts(res@) == field_names(fields@),
{
    let mut res: Vec<String> = Vec::new();
    let mut i: usize = 0;
    while i < fields.len()
        invariant
            i <= fields@.len(),
            texts(res@) == field_names(fields@.take(i as int)),
        decreases fields.len() - i,
    {
        let ghost prev = res@;
        res.push(fields[i].name.clone());
        assert(texts(res@) =~= texts(prev).push(fields@[i as int].name@));
        assert(fields@.take(i + 1) =~= fields@.take(i as int).push(fields@[i as int]));
        assert(field_names(fields@.take(i + 1)) =~= field_names(fields@.take(i as int)).push(
            fields@[i as int].name@,
        ));
        i += 1;
    }
    assert(fields@.take(fields@.len() as int) =~= fields@);
    res
}

/// `res` is the `SqlTable` implementation of `item_struct`.
pub open spec fn methods_match(item_struct: ItemStruct, res: TableMethods) -> bool {
    &&& res.table@ == item_struct.ident@
    &&& res.field_count == text_column_count(named_fields(item_struct))
    &&& texts(res.fields@) == field_names(named_fields(item_struct))
    &&& res.columns@ == row_gets(named_fields(item_struct), false)
    &&& res.related_columns@ == row_gets(named_fields(item_struct), true)
}

/// Create the `SqlTable` implementation (`FIELD_COUNT`, `from_row()` and `from_related_row()`)
/// for the table struct.
pub fn table_methods(item_struct: &ItemStruct) -> (res: TableMethods)
    requires
        item_struct.fields is Named,
    ensures
        methods_match(*item_struct, res),
{
    let named = match &item_struct.fields {
        Fields::Named(named) => named,
        Fields::Unnamed => {
            assert(false);
            return TableMethods {
                table: item_struct.ident.clone(),
                field_count: 0,
                fields: Vec::new(),
                columns: Vec::new(),
                related_columns: Vec::new(),
            };
        },
    };
    let n = named.len();
    let mut columns: Vec<RowGet> = Vec::new();
    let mut related_columns: Vec<RowGet> = Vec::new();
    let mut index: usize = 0;
    let mut related_index: usize = 0;
    let mut field_count: usize = 0;
    let mut i: usize = 0;
    while i < n
        invariant
            i <= n,
            n == named@.len(),
            index == path_column_count(named@.take(i as int)),
            related_index == index,
            index <= i,
            field_count == text_column_count(named@.take(i as int)),
            field_count <= i,
            columns@ == row_gets(named@.take(i as int), false),
            related_columns@ == row_gets(named@.take(i as int), true),
        decreases n - i,
    {
        let ghost prefix = named@.take(i + 1);
        assert(prefix.drop_last() =~= named@.take(i as int));
        assert(prefix.last() == named@[i as int]);
        let field = &named[i];
        columns.push(to_row_get(&field.ty, false, &mut index));
        related_columns.push(to_row_get(&field.ty, true, &mut related_index));
        if !starts_with(field.ty.text.as_str(), "ForeignKey") {
            field_count += 1;
        }
        i += 1;
    }
    assert(named@.take(n as int) =~= named@);
    TableMethods {
        table: item_struct.ident.clone(),
        field_count,
        fields: collect_field_names(named),
        columns,
        related_columns,
    }
}

/// The `Debug` implementation of a table struct: it prints the struct's name and each field.
pub struct DebugImpl {
    pub table: String,
    pub fields: Vec<String>,
}

/// Create the `Debug` implementation of the table struct.
pub fn create_debug_impl(item_struct: &ItemStruct) -> (res: DebugImpl)
    requires
        item_struct.fields is Named,
    ensures
        res.table@ == item_struct.ident@,
        texts(res.fields@) == field_names(named_fields(*item_struct)),
{
    match &item_struct.fields {
        Fields::Named(named) => DebugImpl {
            table: item_struct.ident.clone(),
            fields: collect_field_names(named),
        },
        Fields::Unnamed => {
            assert(false);
            DebugImpl { table: item_struct.ident.clone(), fields: Vec::new() }
        },
    }
}

/// The SQL representation of a value of the table struct.
pub enum ToSqlCode {
    /// The value of the primary key field with this name.
    PrimaryKey(String),
    /// None: converting panics with a message naming the table.
    NoPrimaryKey,
}

/// The `Debug` and `ToSql` implementations of a table struct.
pub struct ToSqlImpl {
    pub table: String,
    pub debug: DebugImpl,
    pub to_sql: ToSqlCode,
}

/// `res` is the `Debug` and `ToSql` implementation of `item_struct` with the primary key field
/// `pk`.
pub open spec fn to_sql_match(item_struct: ItemStruct, pk: Option<Seq<char>>, res: ToSqlImpl) -> bool {
    &&& res.table@ == item_struct.ident@
    &&& res.debug.table@ == item_struct.ident@
    &&& texts(res.debug.fields@) == field_names(named_fields(item_struct))
    &&& match pk {
        Some(p) => res.to_sql matches ToSqlCode::PrimaryKey(q) && q@ == p,
        None => res.to_sql is NoPrimaryKey,
    }
}

/// Add the `ToSql` implementation on the struct: its SQL representation is the same as the
/// primary key's SQL representation.
pub fn tosql_impl(item_struct: &ItemStruct, primary_key_field: Option<String>) -> (res: ToSqlImpl)
    requires
        item_struct.fields is Named,
    ensures
        to_sql_match(*item_struct, opt_text(primary_key_field), res),
{
    let debug = create_debug_impl(item_struct);
    let to_sql = match primary_key_field {
        Some(pk) => ToSqlCode::PrimaryKey(pk),
        None => ToSqlCode::NoPrimaryKey,
    };
    ToSqlImpl { table: item_struct.ident.clone(), debug, to_sql }
}

/// Law: where every field's type text starts with `ForeignKey` exactly when its path does,
/// `from_row` reads the columns `0`, `1`, ..., `FIELD_COUNT - 1`, each once and in field order.
pub proof fn lemma_from_row_reads_field_count_columns(fields: Seq<Field>, with_delta: bool)
    requires
        forall|i: int|
            0 <= i < fields.len() ==> is_foreign_key_text(#[trigger] fields[i].ty)
                == is_foreign_key_path(fields[i].ty),
        fields.len() <= usize::MAX,
    ensures
        column_indices(row_gets(fields, with_delta)) == Seq::new(
            text_column_count(fields),
            |k: int| k,
        ),
    decreases fields.len(),
{
    if fields.len() > 0 {
        let prev = fields.drop_last();
        assert forall|i: int| 0 <= i < prev.len() implies is_foreign_key_text(#[trigger] prev[i].ty)
            == is_foreign_key_path(prev[i].ty) by {
            assert(prev[i] == fields[i]);
        }
        lemma_from_row_reads_field_count_columns(prev, with_delta);
        lemma_path_column_count_bound(prev);
        assert(is_foreign_key_text(fields[fields.len() - 1].ty) == is_foreign_key_path(
            fields[fields.len() - 1].ty,
        ));
        lemma_counts_agree(prev);
        assert(row_gets(fields, with_delta).drop_last() =~= row_gets(prev, with_delta));
        assert(column_indices(row_gets(fields, with_delta)) =~= Seq::new(
            text_column_count(fields),
            |k: int| k,
        ));
    }
}

/// The number of non-foreign-key fields is at most the number of fields.
pub(crate) proof fn lemma_path_column_count_bound(fields: Seq<Field>)
    ensures
        path_column_count(fields) <= fields.len(),
    decreases fields.len(),
{
    if fields.len() > 0 {
        lemma_path_column_count_bound(fields.drop_last());
    }
}

/// Where text and path agree on foreign keys, both counts agree.
pub(crate) proof fn lemma_counts_agree(fields: Seq<Field>)
    requires
        forall|i: int|
            0 <= i < fields.len() ==> is_foreign_key_text(#[trigger] fields[i].ty)
                == is_foreign_key_path(fields[i].ty),
    ensures
        path_column_count(fields) == text_column_count(fields),
    decreases fields.len(),
{
    if fields.len() > 0 {
        let prev = fields.drop_last();
        assert forall|i: int| 0 <= i < prev.len() implies is_foreign_key_text(#[trigger] prev[i].ty)
            == is_foreign_key_path(prev[i].ty) by {
            assert(prev[i] == fields[i]);
        }
        lemma_counts_agree(prev);
        assert(is_foreign_key_text(fields[fields.len() - 1].ty) == is_foreign_key_path(
            fields[fields.len() - 1].ty,
        ));
    }
}

/// Law: `from_row` and `from_related_row` read the same columns for the same fields, and
/// `from_related_row` shifts every one of them by `delta` while `from_row` shifts none.
pub proof fn lemma_related_row_shifts_every_column(fields: Seq<Field>)
    ensures
        row_gets(fields, false).len() == fields.len(),
        row_gets(fields, true).len() == fields.len(),
        forall|k: int|
            0 <= k < fields.len() ==> match #[trigger] row_gets(fields, true)[k] {
                RowGet::Column { index, with_delta } => with_delta && row_gets(fields, false)[k]
                    == (RowGet::Column { index, with_delta: false }),
                RowGet::Foreign => row_gets(fields, false)[k] == RowGet::Foreign,
            },
        forall|k: int|
            0 <= k < fields.len() ==> !(#[trigger] row_gets(fields, false)[k] matches RowGet::Column {
                with_delta: true,
                ..
            }),
    decreases fields.len(),
{
    if fields.len() > 0 {
        let prev = fields.drop_last();
        lemma_related_row_shifts_every_column(prev);
        assert forall|k: int| 0 <= k < fields.len() implies match #[trigger] row_gets(fields, true)[k] {
            RowGet::Column { index, with_delta } => with_delta && row_gets(fields, false)[k]
                == (RowGet::Column { index, with_delta: false }),
            RowGet::Foreign => row_gets(fields, false)[k] == RowGet::Foreign,
        } by {
            if k < prev.len() {
                assert(row_gets(fields, true)[k] == row_gets(prev, true)[k]);
                assert(row_gets(fields, false)[k] == row_gets(prev, false)[k]);
            }
        }
        assert forall|k: int| 0 <= k < fields.len() implies !(#[trigger] row_gets(fields, false)[k] matches RowGet::Column {
            with_delta: true,
            ..
        }) by {
            if k < prev.len() {
                assert(row_gets(fields, false)[k] == row_gets(prev, false)[k]);
            }
        }
    }
}

} // verus!
