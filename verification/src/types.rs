//! The SQL types that struct fields map to.

use vstd::prelude::*;

use crate::model::RustType;
use crate::text::same_text;

verus! {

/// The SQL type that a field's Rust type stands for.
#[derive(Debug, PartialEq, Eq)]
pub enum SqlType {
    Bool,
    Char,
    F32,
    F64,
    I8,
    I16,
    I32,
    I64,
    /// `String`.
    Text,
    /// `PrimaryKey`: an auto-incremented primary key.
    Serial,
    /// `ForeignKey<T>`: a reference to the table `T`.
    Custom(String),
    /// `Option<T>`: a column that may hold NULL.
    Nullable(Box<SqlType>),
    /// A Rust type that no SQL type stands for, with its text.
    Unsupported(String),
}

/// The SQL type of a scalar Rust type named by `ident`, if it is one.
pub open spec fn scalar_type(ident: Seq<char>) -> Option<SqlType> {
    if ident == "bool"@ {
        Some(SqlType::Bool)
    } else if ident == "char"@ {
        Some(SqlType::Char)
    } else if ident == "f32"@ {
        Some(SqlType::F32)
    } else if ident == "f64"@ {
        Some(SqlType::F64)
    } else if ident == "i8"@ {
        Some(SqlType::I8)
    } else if ident == "i16"@ {
        Some(SqlType::I16)
    } else if ident == "i32"@ {
        Some(SqlType::I32)
    } else if ident == "i64"@ {
        Some(SqlType::I64)
    } else if ident == "String"@ {
        Some(SqlType::Text)
    } else if ident == "PrimaryKey"@ {
        Some(SqlType::Serial)
    } else {
        None
    }
}

/// The SQL type of a field's Rust type: a scalar by its name, `ForeignKey<T>` as a reference to
/// `T`, `Option<T>` as the nullable type of `T`, and anything else as unsupported.
pub open spec fn sql_type_of(ty: RustType) -> SqlType
    decreases ty,
{
    match ty.path {
        Some(seg) => {
            if scalar_type(seg.ident@) is Some {
                scalar_type(seg.ident@)->0
            } else if seg.ident@ == "ForeignKey"@ {
                match seg.argument {
                    Some(arg) => SqlType::Custom(arg.text),
                    None => SqlType::Unsupported(ty.text),
                }
            } else if seg.ident@ == "Option"@ {
                match seg.argument {
                    Some(arg) => SqlType::Nullable(Box::new(sql_type_of(*arg))),
                    None => SqlType::Unsupported(ty.text),
                }
            } else {
                SqlType::Unsupported(ty.text)
            }
        },
        None => SqlType::Unsupported(ty.text),
    }
}

fn scalar_type_exec(ident: &str) -> (res: Option<SqlType>)
    ensures
        res == scalar_type(ident@),
{
    if same_text(ident, "bool") {
        Some(SqlType::Bool)
    } else if same_text(ident, "char") {
        Some(SqlType::Char)
    } else if same_text(ident, "f32") {
        Some(SqlType::F32)
    } else if same_text(ident, "f64") {
        Some(SqlType::F64)
    } else if same_text(ident, "i8") {
        Some(SqlType::I8)
    } else if same_text(ident, "i16") {
        Some(SqlType::I16)
    } else if same_text(ident, "i32") {
        Some(SqlType::I32)
    } else if same_text(ident, "i64") {
        Some(SqlType::I64)
    } else if same_text(ident, "String") {
        Some(SqlType::Text)
    } else if same_text(ident, "PrimaryKey") {
        Some(SqlType::Serial)
    } else {
        None
    }
}

/// The SQL type of a field's Rust type.
pub fn field_ty_to_type(ty: &RustType) -> (res: SqlType)
    ensures
        res == sql_type_of(*ty),
    decreases ty,
{
    match &ty.path {
        Some(seg) => {
            if let Some(t) = scalar_type_exec(seg.ident.as_str()) {
                t
            } else if same_text(seg.ident.as_str(), "ForeignKey") {
                match &seg.argument {
                    Some(arg) => SqlType::Custom(arg.text.clone()),
                    None => SqlType::Unsupported(ty.text.clone()),
                }
            } else if same_text(seg.ident.as_str(), "Option") {
                match &seg.argument {
                    Some(arg) => {
                        let inner = field_ty_to_type(arg);
                        SqlType::Nullable(Box::new(inner))
                    },
                    None => SqlType::Unsupported(ty.text.clone()),
                }
            } else {
                SqlType::Unsupported(ty.text.clone())
            }
        },
        None => SqlType::Unsupported(ty.text.clone()),
    }
}

/// Law: the SQL type of a scalar type is fixed by its name, whatever else the type holds:
/// `bool`, `char`, `f32`, `f64`, `i8`, `i16`, `i32`, `i64`, `String` and `PrimaryKey` map to
/// `Bool`, `Char`, `F32`, `F64`, `I8`, `I16`, `I32`, `I64`, `Text` and `Serial`; `ForeignKey<T>`
/// is a reference to `T`, `Option<T>` is the nullable type of `T`, and a type that is not a path
/// is unsupported.
pub proof fn lemma_sql_type_by_name(ty: RustType)
    ensures
        ty.path matches Some(seg) && seg.ident@ == "bool"@ ==> sql_type_of(ty) == SqlType::Bool,
        ty.path matches Some(seg) && seg.ident@ == "char"@ ==> sql_type_of(ty) == SqlType::Char,
        ty.path matches Some(seg) && seg.ident@ == "f32"@ ==> sql_type_of(ty) == SqlType::F32,
        ty.path matches Some(seg) && seg.ident@ == "f64"@ ==> sql_type_of(ty) == SqlType::F64,
        ty.path matches Some(seg) && seg.ident@ == "i8"@ ==> sql_type_of(ty) == SqlType::I8,
        ty.path matches Some(seg) && seg.ident@ == "i16"@ ==> sql_type_of(ty) == SqlType::I16,
        ty.path matches Some(seg) && seg.ident@ == "i32"@ ==> sql_type_of(ty) == SqlType::I32,
        ty.path matches Some(seg) && seg.ident@ == "i64"@ ==> sql_type_of(ty) == SqlType::I64,
        ty.path matches Some(seg) && seg.ident@ == "String"@ ==> sql_type_of(ty) == SqlType::Text,
        ty.path matches Some(seg) && seg.ident@ == "PrimaryKey"@ ==> sql_type_of(ty)
            == SqlType::Serial,
        ty.path matches Some(seg) ==> (seg.ident@ == "ForeignKey"@ ==> match seg.argument {
            Some(arg) => sql_type_of(ty) == SqlType::Custom(arg.text),
            None => sql_type_of(ty) == SqlType::Unsupported(ty.text),
        }),
        ty.path matches Some(seg) ==> (seg.ident@ == "Option"@ ==> match seg.argument {
            Some(arg) => sql_type_of(ty) == SqlType::Nullable(Box::new(sql_type_of(*arg))),
            None => sql_type_of(ty) == SqlType::Unsupported(ty.text),
        }),
        ty.path is None ==> sql_type_of(ty) == SqlType::Unsupported(ty.text),
{
    reveal_strlit("bool");
    reveal_strlit("char");
    reveal_strlit("f32");
    reveal_strlit("f64");
    reveal_strlit("i8");
    reveal_strlit("i16");
    reveal_strlit("i32");
    reveal_strlit("i64");
    reveal_strlit("String");
    reveal_strlit("PrimaryKey");
    reveal_strlit("ForeignKey");
    reveal_strlit("Option");
    assert("bool"@ != "char"@) by { assert("bool"@[0] != "char"@[0]); }
    assert("bool"@ != "f32"@) by { assert("bool"@.len() != "f32"@.len()); }
    assert("bool"@ != "f64"@) by { assert("bool"@.len() != "f64"@.len()); }
    assert("bool"@ != "i8"@) by { assert("bool"@.len() != "i8"@.len()); }
    assert("bool"@ != "i16"@) by { assert("bool"@.len() != "i16"@.len()); }
    assert("bool"@ != "i32"@) by { assert("bool"@.len() != "i32"@.len()); }
    assert("bool"@ != "i64"@) by { assert("bool"@.len() != "i64"@.len()); }
    assert("bool"@ != "String"@) by { assert("bool"@.len() != "String"@.len()); }
    assert("bool"@ != "PrimaryKey"@) by { assert("bool"@.len() != "PrimaryKey"@.len()); }
    assert("bool"@ != "ForeignKey"@) by { assert("bool"@.len() != "ForeignKey"@.len()); }
    assert("bool"@ != "Option"@) by { assert("bool"@.len() != "Option"@.len()); }
    assert("char"@ != "f32"@) by { assert("char"@.len() != "f32"@.len()); }
    assert("char"@ != "f64"@) by { assert("char"@.len() != "f64"@.len()); }
    assert("char"@ != "i8"@) by { assert("char"@.len() != "i8"@.len()); }
    assert("char"@ != "i16"@) by { assert("char"@.len() != "i16"@.len()); }
    assert("char"@ != "i32"@) by { assert("char"@.len() != "i32"@.len()); }
    assert("char"@ != "i64"@) by { assert("char"@.len() != "i64"@.len()); }
    assert("char"@ != "String"@) by { assert("char"@.len() != "String"@.len()); }
    assert("char"@ != "PrimaryKey"@) by { assert("char"@.len() != "PrimaryKey"@.len()); }
    assert("char"@ != "ForeignKey"@) by { assert("char"@.len() != "ForeignKey"@.len()); }
    assert("char"@ != "Option"@) by { assert("char"@.len() != "Option"@.len()); }
    assert("f32"@ != "f64"@) by { assert("f32"@[1] != "f64"@[1]); }
    assert("f32"@ != "i8"@) by { assert("f32"@.len() != "i8"@.len()); }
    assert("f32"@ != "i16"@) by { assert("f32"@[0] != "i16"@[0]); }
    assert("f32"@ != "i32"@) by { assert("f32"@[0] != "i32"@[0]); }
    assert("f32"@ != "i64"@) by { assert("f32"@[0] != "i64"@[0]); }
    assert("f32"@ != "String"@) by { assert("f32"@.len() != "String"@.len()); }
    assert("f32"@ != "PrimaryKey"@) by { assert("f32"@.len() != "PrimaryKey"@.len()); }
    assert("f32"@ != "ForeignKey"@) by { assert("f32"@.len() != "ForeignKey"@.len()); }
    assert("f32"@ != "Option"@) by { assert("f32"@.len() != "Option"@.len()); }
    assert("f64"@ != "i8"@) by { assert("f64"@.len() != "i8"@.len()); }
    assert("f64"@ != "i16"@) by { assert("f64"@[0] != "i16"@[0]); }
    assert("f64"@ != "i32"@) by { assert("f64"@[0] != "i32"@[0]); }
    assert("f64"@ != "i64"@) by { assert("f64"@[0] != "i64"@[0]); }
    assert("f64"@ != "String"@) by { assert("f64"@.len() != "String"@.len()); }
    assert("f64"@ != "PrimaryKey"@) by { assert("f64"@.len() != "PrimaryKey"@.len()); }
    assert("f64"@ != "ForeignKey"@) by { assert("f64"@.len() != "ForeignKey"@.len()); }
    assert("f64"@ != "Option"@) by { assert("f64"@.len() != "Option"@.len()); }
    assert("i8"@ != "i16"@) by { assert("i8"@.len() != "i16"@.len()); }
    assert("i8"@ != "i32"@) by { assert("i8"@.len() != "i32"@.len()); }
    assert("i8"@ != "i64"@) by { assert("i8"@.len() != "i64"@.len()); }
    assert("i8"@ != "String"@) by { assert("i8"@.len() != "String"@.len()); }
    assert("i8"@ != "PrimaryKey"@) by { assert("i8"@.len() != "PrimaryKey"@.len()); }
    assert("i8"@ != "ForeignKey"@) by { assert("i8"@.len() != "ForeignKey"@.len()); }
    assert("i8"@ != "Option"@) by { assert("i8"@.len() != "Option"@.len()); }
    assert("i16"@ != "i32"@) by { assert("i16"@[1] != "i32"@[1]); }
    assert("i16"@ != "i64"@) by { assert("i16"@[1] != "i64"@[1]); }
    assert("i16"@ != "String"@) by { assert("i16"@.len() != "String"@.len()); }
    assert("i16"@ != "PrimaryKey"@) by { assert("i16"@.len() != "PrimaryKey"@.len()); }
    assert("i16"@ != "ForeignKey"@) by { assert("i16"@.len() != "ForeignKey"@.len()); }
    assert("i16"@ != "Option"@) by { assert("i16"@.len() != "Option"@.len()); }
    assert("i32"@ != "i64"@) by { assert("i32"@[1] != "i64"@[1]); }
    assert("i32"@ != "String"@) by { assert("i32"@.len() != "String"@.len()); }
    assert("i32"@ != "PrimaryKey"@) by { assert("i32"@.len() != "PrimaryKey"@.len()); }
    assert("i32"@ != "ForeignKey"@) by { assert("i32"@.len() != "ForeignKey"@.len()); }
    assert("i32"@ != "Option"@) by { assert("i32"@.len() != "Option"@.len()); }
    assert("i64"@ != "String"@) by { assert("i64"@.len() != "String"@.len()); }
    assert("i64"@ != "PrimaryKey"@) by { assert("i64"@.len() != "PrimaryKey"@.len()); }
    assert("i64"@ != "ForeignKey"@) by { assert("i64"@.len() != "ForeignKey"@.len()); }
    assert("i64"@ != "Option"@) by { assert("i64"@.len() != "Option"@.len()); }
    assert("String"@ != "PrimaryKey"@) by { assert("String"@.len() != "PrimaryKey"@.len()); }
    assert("String"@ != "ForeignKey"@) by { assert("String"@.len() != "ForeignKey"@.len()); }
    assert("String"@ != "Option"@) by { assert("String"@[0] != "Option"@[0]); }
    assert("PrimaryKey"@ != "ForeignKey"@) by { assert("PrimaryKey"@[0] != "ForeignKey"@[0]); }
    assert("PrimaryKey"@ != "Option"@) by { assert("PrimaryKey"@.len() != "Option"@.len()); }
    assert("ForeignKey"@ != "Option"@) by { assert("ForeignKey"@.len() != "Option"@.len()); }
}

} // verus!
