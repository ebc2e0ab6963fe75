//! The plain model of the Rust items that the table derive receives.

use vstd::prelude::*;

verus! {

/// A Rust type as written for a struct field.
pub struct RustType {
    /// The type's tokens, as text.
    pub text: String,
    /// For a path type, the first segment of its path; `None` for any other kind of type.
    pub path: Option<PathSegment>,
}

/// The first segment of a type path, such as `Option<i32>` in `Option<i32>`.
pub struct PathSegment {
    /// The segment's identifier, such as `Option`.
    pub ident: String,
    /// The first type given between angle brackets, if any.
    pub argument: Option<Box<RustType>>,
}

/// A named field of a struct.
pub struct Field {
    pub name: String,
    pub ty: RustType,
}

/// The fields of a struct.
pub enum Fields {
    /// A struct with named fields, in declaration order.
    Named(Vec<Field>),
    /// A tuple struct or a unit struct.
    Unnamed,
}

/// A struct item.
pub struct ItemStruct {
    pub ident: String,
    pub fields: Fields,
}

/// An item given to the table derive.
pub enum Item {
    Struct(ItemStruct),
    /// Any item that is not a struct (an enum, a union, ...).
    Other,
}

/// The text of the type's first generic argument, when the type is a path with one.
pub open spec fn type_parameter(ty: RustType) -> Option<Seq<char>> {
    match ty.path {
        Some(seg) => match seg.argument {
            Some(arg) => Some(arg.text@),
            None => None,
        },
        None => None,
    }
}

/// The text of the type's first generic argument, when the type is a path with one.
pub fn get_type_parameter(ty: &RustType) -> (res: Option<String>)
    ensures
        match res {
            Some(s) => type_parameter(*ty) == Some(s@),
            None => type_parameter(*ty) is None,
        },
{
    match &ty.path {
        Some(seg) => match &seg.argument {
            Some(arg) => Some(arg.text.clone()),
            None => None,
        },
        None => None,
    }
}

} // verus!
