//! Checking the fields of a table struct.

use rand::{Rng, SeedableRng};
use vstd::prelude::*;

use crate::error::{Error, ErrorView, Position, Severity, errors_view, res};
use crate::model::{Field, Fields, ItemStruct};
use crate::text::concat3;
use crate::types::{SqlType, field_ty_to_type, sql_type_of};

verus! {

/// A field of a table struct with the SQL type it maps to.
pub struct TypedColumn {
    pub name: String,
    pub sql_type: SqlType,
}

/// A struct to generate so that the compiler checks that `table`, used in a `ForeignKey`, is
/// itself a table.
pub struct ForeignKeyCheck {
    /// The generated struct's name.
    pub struct_name: String,
    /// The table type that the foreign key refers to.
    pub table: String,
}

/// The fields of a table struct once checked: the columns or the diagnostics, the name of the
/// primary key field, and the foreign key checks to generate.
pub type StructFieldsResult = (Result<Vec<TypedColumn>, Vec<Error>>, Option<String>, Vec<ForeignKeyCheck>);

/// `c` is an ASCII letter or digit.
pub open spec fn is_ascii_alphanumeric(c: char) -> bool {
    ('A' as int <= c as int <= 'Z' as int) || ('a' as int <= c as int <= 'z' as int) || (
    '0' as int <= c as int <= '9' as int)
}

/// The characters that an ISAAC-64 generator seeded with `[seed, index]` yields first, `len` of
/// them, through `gen_ascii_chars`, on the target the crate is built for.
pub uninterp spec fn seeded_ascii_chars(seed: u64, index: usize, len: usize) -> Seq<char>;

/// Calls `rand::Isaac64Rng::from_seed(&[seed, index])` and collects the first `len` characters
/// of its `gen_ascii_chars()`. The crate documents that a generator built from a given seed
/// yields the same sequence every time; the characters drawn also depend on the width of
/// `usize`, so on a given target the result is named by its arguments. Its source draws each
/// character from `A`-`Z`, `a`-`z` and `0`-`9`, and neither seeding nor drawing
/// panics.
#[verifier::external_body]
fn isaac64_ascii_chars(seed: u64, index: usize, len: usize) -> (s: String)
    ensures
        s@ == seeded_ascii_chars(seed, index, len),
        s@.len() == len,
        forall|i: int| 0 <= i < len ==> is_ascii_alphanumeric(#[trigger] s@[i]),
{
    let seed = [seed, index as u64];
    rand::Isaac64Rng::from_seed(&seed[..]).gen_ascii_chars().take(len).collect()
}

/// The random suffix of the `index`-th generated name for the random `seed`: 30 ASCII letters
/// and digits.
pub fn rand_string(seed: u64, index: usize) -> (s: String)
    ensures
        s@ == seeded_ascii_chars(seed, index, 30),
        s@.len() == 30,
        forall|i: int| 0 <= i < 30 ==> is_ascii_alphanumeric(#[trigger] s@[i]),
{
    isaac64_ascii_chars(seed, index, 30)
}

/// The name of an unsupported type, for a field type that is unsupported or a nullable
/// unsupported type.
pub open spec fn unsupported_name(t: SqlType) -> Option<Seq<char>> {
    match t {
        SqlType::Nullable(inner) => match *inner {
            SqlType::Unsupported(n) => Some(n@),
            _ => None,
        },
        SqlType::Unsupported(n) => Some(n@),
        _ => None,
    }
}

/// The error for the unsupported type `name` of the field with index `index`.
pub open spec fn unsupported_error(name: Seq<char>, index: usize) -> ErrorView {
    ErrorView {
        message: "use of unsupported type name `"@ + name + "`"@,
        code: Some("E0412"@),
        severity: Severity::Error,
        position: Position::FieldType(index),
    }
}

/// The errors for the unsupported field types, in field order.
pub open spec fn unsupported_errors(fields: Seq<Field>) -> Seq<ErrorView>
    decreases fields.len(),
{
    if fields.len() == 0 {
        seq![]
    } else {
        let prev = unsupported_errors(fields.drop_last());
        match unsupported_name(sql_type_of(fields.last().ty)) {
            Some(n) => prev.push(unsupported_error(n, (fields.len() - 1) as usize)),
            None => prev,
        }
    }
}

/// The number of primary key fields.
pub open spec fn serial_count(fields: Seq<Field>) -> nat
    decreases fields.len(),
{
    if fields.len() == 0 {
        0
    } else {
        serial_count(fields.drop_last()) + if sql_type_of(fields.last().ty) is Serial {
            1nat
        } else {
            0nat
        }
    }
}

/// The name of the last primary key field.
pub open spec fn last_serial(fields: Seq<Field>) -> Option<Seq<char>>
    decreases fields.len(),
{
    if fields.len() == 0 {
        None
    } else if sql_type_of(fields.last().ty) is Serial {
        Some(fields.last().name@)
    } else {
        last_serial(fields.drop_last())
    }
}

/// The tables that the foreign key fields refer to, in field order.
pub open spec fn custom_tables(fields: Seq<Field>) -> Seq<Seq<char>>
    decreases fields.len(),
{
    if fields.len() == 0 {
        seq![]
    } else {
        let prev = custom_tables(fields.drop_last());
        match sql_type_of(fields.last().ty) {
            SqlType::Custom(t) => prev.push(t@),
            _ => prev,
        }
    }
}

/// The warning about the number of primary keys, if it is not one.
pub open spec fn primary_key_warnings(count: nat) -> Seq<ErrorView> {
    if count == 0 {
        seq![
            ErrorView {
                message: "No primary key found"@,
                code: None,
                severity: Severity::Warning,
                position: Position::StructName,
            },
        ]
    } else if count == 1 {
        seq![]
    } else {
        seq![
            ErrorView {
                message: "More than one primary key is currently not supported"@,
                code: None,
                severity: Severity::Warning,
                position: Position::StructName,
            },
        ]
    }
}

/// All the diagnostics for the named fields of a table struct.
pub open spec fn struct_errors(fields: Seq<Field>) -> Seq<ErrorView> {
    primary_key_warnings(serial_count(fields)) + unsupported_errors(fields)
}

/// The error for a struct without named fields.
pub open spec fn not_named_error() -> ErrorView {
    ErrorView {
        message: "Expected normal struct, found"@,
        code: None,
        severity: Severity::Error,
        position: Position::StructName,
    }
}

/// `cols` holds each field with its SQL type, in field order.
pub open spec fn columns_match(cols: Seq<TypedColumn>, fields: Seq<Field>) -> bool {
    &&& cols.len() == fields.len()
    &&& forall|i: int|
        0 <= i < fields.len() ==> #[trigger] cols[i].name@ == fields[i].name@ && cols[i].sql_type
            == sql_type_of(fields[i].ty)
}

/// The name of the `index`-th foreign key check struct for the random `seed`:
/// `CheckForeignKey` followed by 30 random ASCII letters and digits.
pub open spec fn check_struct_name(seed: u64, index: int) -> Seq<char> {
    "CheckForeignKey"@ + seeded_ascii_chars(seed, index as usize, 30)
}

/// `name` is `CheckForeignKey` followed by 30 ASCII letters and digits.
pub open spec fn is_check_struct_name(name: Seq<char>) -> bool {
    &&& name.len() == 15 + 30
    &&& name.subrange(0, 15) == "CheckForeignKey"@
    &&& forall|j: int| 15 <= j < 45 ==> is_ascii_alphanumeric(#[trigger] name[j])
}

/// `checks` holds one check for each of `tables`, in order, the `i`-th one named by
/// `check_struct_name(seed, i)`: `CheckForeignKey` followed by 30 ASCII letters and digits.
pub open spec fn checks_match(checks: Seq<ForeignKeyCheck>, tables: Seq<Seq<char>>, seed: u64) -> bool {
    &&& checks.len() == tables.len()
    &&& forall|i: int|
        0 <= i < tables.len() ==> #[trigger] checks[i].table@ == tables[i] && checks[i].struct_name@
            == check_struct_name(seed, i) && is_check_struct_name(checks[i].struct_name@)
}

/// The view of an optional `String`.
pub open spec fn opt_text(s: Option<String>) -> Option<Seq<char>> {
    match s {
        Some(t) => Some(t@),
        None => None,
    }
}

/// Get the fields from the struct, with the checks that the tables used in `ForeignKey` are
/// tables, and check that the field types are supported and that there is one primary key. The
/// check structs are named from the random value `seed`.
pub fn get_struct_fields(item_struct: &ItemStruct, seed: u64) -> (res: StructFieldsResult)
    ensures
        match item_struct.fields {
            Fields::Unnamed => {
                &&& res.0 matches Err(es) && errors_view(es@) == seq![not_named_error()]
                &&& res.1 is None
                &&& res.2@.len() == 0
            },
            Fields::Named(fields) => {
                &&& (res.0 is Ok) == (struct_errors(fields@).len() == 0)
                &&& res.0 matches Err(es) ==> errors_view(es@) == struct_errors(fields@)
                &&& res.0 matches Ok(cols) ==> columns_match(cols@, fields@)
                &&& opt_text(res.1) == last_serial(fields@)
                &&& checks_match(res.2@, custom_tables(fields@), seed)
            },
        },
{
    let named = match &item_struct.fields {
        Fields::Named(named) => named,
        Fields::Unnamed => {
            let errors = vec![Error::new("Expected normal struct, found", Position::StructName)];
            assert(errors_view(errors@) =~= seq![not_named_error()]);
            return (Err(errors), None, Vec::new());
        },
    };
    let mut primary_key_field: Option<String> = None;
    let mut errors: Vec<Error> = Vec::new();
    let mut checks: Vec<ForeignKeyCheck> = Vec::new();
    let mut columns: Vec<TypedColumn> = Vec::new();
    let mut primary_key_count: usize = 0;
    let n = named.len();
    let mut i: usize = 0;
    while i < n
        invariant
            i <= n,
            n == named@.len(),
            errors_view(errors@) == unsupported_errors(named@.take(i as int)),
            primary_key_count == serial_count(named@.take(i as int)),
            primary_key_count <= i,
            opt_text(primary_key_field) == last_serial(named@.take(i as int)),
            checks_match(checks@, custom_tables(named@.take(i as int)), seed),
            columns_match(columns@, named@.take(i as int)),
        decreases n - i,
    {
        let field = &named[i];
        let ghost prefix = named@.take(i + 1);
        assert(prefix.drop_last() =~= named@.take(i as int));
        assert(prefix.last() == named@[i as int]);
        let ghost old_checks = checks@;
        let typ = field_ty_to_type(&field.ty);
        match &typ {
            SqlType::Nullable(inner) => {
                if let SqlType::Unsupported(name) = &**inner {
                    let e = Error::new_with_code(
                        concat3("use of unsupported type name `", name.as_str(), "`").as_str(),
                        Position::FieldType(i),
                        "E0412",
                    );
                    errors.push(e);
                }
            },
            SqlType::Unsupported(name) => {
                let e = Error::new_with_code(
                    concat3("use of unsupported type name `", name.as_str(), "`").as_str(),
                    Position::FieldType(i),
                    "E0412",
                );
                errors.push(e);
            },
            SqlType::Serial => {
                primary_key_field = Some(field.name.clone());
                primary_key_count += 1;
            },
            SqlType::Custom(table) => {
                let suffix = rand_string(seed, checks.len());
                let struct_name = String::from_str("CheckForeignKey").concat(suffix.as_str());
                proof {
                    reveal_strlit("CheckForeignKey");
                    assert(struct_name@.subrange(0, 15) =~= "CheckForeignKey"@);
                    assert forall|j: int| 15 <= j < 45 implies is_ascii_alphanumeric(
                        #[trigger] struct_name@[j],
                    ) by {
                        assert(struct_name@[j] == suffix@[j - 15]);
                    }
                    assert(is_check_struct_name(struct_name@));
                }
                let ghost prev_checks = checks@;
                checks.push(ForeignKeyCheck { struct_name, table: table.clone() });
                assert(checks@ == prev_checks.push(checks@[prev_checks.len() as int]));
                assert(is_check_struct_name(checks@[prev_checks.len() as int].struct_name@));
            },
            _ => {},
        }
        columns.push(TypedColumn { name: field.name.clone(), sql_type: typ });
        i += 1;
        assert(errors_view(errors@) =~= unsupported_errors(prefix));
        assert forall|k: int| 0 <= k < custom_tables(prefix).len() implies #[trigger] checks@[k].table@
            == custom_tables(prefix)[k] && checks@[k].struct_name@ == check_struct_name(seed, k)
            && is_check_struct_name(checks@[k].struct_name@) by {
            let before = custom_tables(named@.take((i - 1) as int));
            if k < before.len() {
                assert(checks@[k] == old_checks[k]);
                assert(old_checks[k].table@ == before[k]);
                assert(custom_tables(prefix)[k] == before[k]);
            } else {
                assert(k == old_checks.len());
            }
        }
        assert(checks_match(checks@, custom_tables(prefix), seed));
        assert(columns_match(columns@, prefix));
    }
    assert(named@.take(n as int) =~= named@);
    let ghost type_errors = errors_view(errors@);
    if primary_key_count == 0 {
        errors.insert(0, Error::new_warning("No primary key found", Position::StructName));
    } else if primary_key_count > 1 {
        errors.insert(
            0,
            Error::new_warning(
                "More than one primary key is currently not supported",
                Position::StructName,
            ),
        );
    }
    assert(errors_view(errors@) =~= struct_errors(named@));
    let result = res(columns, errors);
    (result, primary_key_field, checks)
}

/// Law: a table struct whose fields raise no diagnostic has exactly one primary key field, so
/// the primary key that `get_struct_fields` returns for it is present.
pub proof fn lemma_accepted_struct_has_primary_key(fields: Seq<Field>)
    requires
        struct_errors(fields).len() == 0,
    ensures
        serial_count(fields) == 1,
        last_serial(fields) is Some,
{
    lemma_last_serial_present(fields);
}

proof fn lemma_last_serial_present(fields: Seq<Field>)
    ensures
        (last_serial(fields) is Some) == (serial_count(fields) > 0),
    decreases fields.len(),
{
    if fields.len() > 0 {
        lemma_last_serial_present(fields.drop_last());
    }
}

/// Law: a field type is reported as unsupported exactly when it is an unsupported type or the
/// nullable type of an unsupported type, under its own name; every other type, nullable or not,
/// is accepted.
pub proof fn lemma_unsupported_only_for_unsupported_types(t: SqlType)
    ensures
        (unsupported_name(t) is Some) == (t is Unsupported || (t matches SqlType::Nullable(b)
            && *b is Unsupported)),
        t matches SqlType::Unsupported(n) ==> unsupported_name(t) == Some(n@),
        t matches SqlType::Nullable(b) ==> (match *b {
            SqlType::Unsupported(n) => unsupported_name(t) == Some(n@),
            _ => unsupported_name(t) is None,
        }),
{
}

/// Law: a struct whose fields all have supported types (a nullable type counting as supported
/// when its inner type is) gets no unsupported-type error; with exactly one primary key field
/// besides, it gets no diagnostic at all.
pub proof fn lemma_supported_fields_have_no_errors(fields: Seq<Field>)
    requires
        forall|k: int|
            0 <= k < fields.len() ==> !(sql_type_of(#[trigger] fields[k].ty) is Unsupported) && !(
            sql_type_of(fields[k].ty) matches SqlType::Nullable(b) && *b is Unsupported),
    ensures
        unsupported_errors(fields).len() == 0,
        serial_count(fields) == 1 ==> struct_errors(fields).len() == 0,
    decreases fields.len(),
{
    if fields.len() > 0 {
        let prev = fields.drop_last();
        assert forall|k: int| 0 <= k < prev.len() implies !(sql_type_of(#[trigger] prev[k].ty) is Unsupported) && !(
        sql_type_of(prev[k].ty) matches SqlType::Nullable(b) && *b is Unsupported) by {
            assert(prev[k] == fields[k]);
        }
        lemma_supported_fields_have_no_errors(prev);
        let t = sql_type_of(fields[fields.len() - 1].ty);
        lemma_unsupported_only_for_unsupported_types(t);
        assert(fields.last() == fields[fields.len() - 1]);
    }
}

} // verus!
