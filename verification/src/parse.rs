//! Parsing the macros' token input, given as text, into the plain model.

use quote::ToTokens;
use vstd::prelude::*;

use crate::expand::{SqlTableExpansion, item_expansion, sql_table};
use crate::fields::opt_text;
use crate::missing::{
    ArgExpr,
    ArgList,
    Arguments,
    gen_check_missing_fields,
    given_arg,
    given_arg_wf,
    missing,
    missing_fields_check,
    missing_fields_error,
    path_names,
};
use crate::model::{Field, Fields, Item, ItemStruct, PathSegment, RustType};

verus! {

/// A field of a parsed struct: its name and its type's tokens as text.
pub struct FieldSyntax {
    pub name: String,
    pub ty: String,
}

/// A parsed item: a struct with its name and, for named fields, its fields; or any other item.
pub enum ItemSyntax {
    Struct { ident: String, fields: Option<Vec<FieldSyntax>> },
    Other,
}

/// The content of a parsed item, with its texts as character sequences.
pub enum ItemShape {
    Struct { ident: Seq<char>, fields: Option<Seq<(Seq<char>, Seq<char>)>> },
    Other,
}

impl View for ItemSyntax {
    type V = ItemShape;

    open spec fn view(&self) -> ItemShape {
        match self {
            ItemSyntax::Struct { ident, fields } => ItemShape::Struct {
                ident: ident@,
                fields: match fields {
                    Some(v) => Some(v@.map_values(|f: FieldSyntax| (f.name@, f.ty@))),
                    None => None,
                },
            },
            ItemSyntax::Other => ItemShape::Other,
        }
    }
}

/// What `syn` parses `text` into as an item, if it parses.
pub uninterp spec fn parsed_item(text: Seq<char>) -> Option<ItemShape>;

/// Calls `syn::parse_str::<syn::Item>` on `text` and, for a struct, keeps its name and, when its
/// fields are named, each field's name and type tokens as text. What `syn` parses is named
/// `parsed_item`; `None` is a parse error.
#[verifier::external_body]
pub fn parse_item(text: &str) -> (res: Option<ItemSyntax>)
    ensures
        match res {
            Some(item) => parsed_item(text@) == Some(item@),
            None => parsed_item(text@) is None,
        },
{
    match syn::parse_str::<syn::Item>(text) {
        Ok(syn::Item::Struct(s)) => Some(ItemSyntax::Struct {
            ident: s.ident.to_string(),
            fields: match s.fields {
                syn::Fields::Named(ref named) => Some(named.named.iter().map(|f| FieldSyntax {
                    name: (&f.ident).into_tokens().to_string(),
                    ty: (&f.ty).into_tokens().to_string(),
                }).collect()),
                _ => None,
            },
        }),
        Ok(_) => Some(ItemSyntax::Other),
        Err(_) => None,
    }
}

/// What `syn` parses `text` into as a type, when it parses as a path type: the identifier of
/// the path's first segment, and the tokens of that segment's first generic type argument.
pub uninterp spec fn parsed_type_head(text: Seq<char>) -> Option<(Seq<char>, Option<Seq<char>>)>;

/// Calls `syn::parse_str::<syn::Type>` on `text` and, for a path type, gives the first segment's
/// identifier and the text of its first generic type argument. Named by `parsed_type_head`;
/// `None` when `text` is not a path type (or does not parse).
#[verifier::external_body]
pub fn parse_type_head(text: &str) -> (res: Option<(String, Option<String>)>)
    ensures
        match res {
            Some((ident, arg)) => parsed_type_head(text@) == Some((ident@, opt_text(arg))),
            None => parsed_type_head(text@) is None,
        },
{
    match syn::parse_str::<syn::Type>(text) {
        Ok(syn::Type::Path(p)) => p.path.segments.first().map(|pair| {
            let segment = pair.into_value();
            let argument = match segment.arguments {
                syn::PathArguments::AngleBracketed(ref a) => a.args.first().and_then(|arg| match *arg.into_value() {
                    syn::GenericArgument::Type(ref t) => Some(t.into_tokens().to_string()),
                    _ => None,
                }),
                _ => None,
            };
            (segment.ident.to_string(), argument)
        }),
        _ => None,
    }
}

/// `ty` describes the type with text `text`, down to `fuel` levels of generic arguments.
pub open spec fn type_matches(ty: RustType, text: Seq<char>, fuel: nat) -> bool
    decreases fuel,
{
    &&& ty.text@ == text
    &&& if fuel == 0 {
        ty.path is None
    } else {
        match parsed_type_head(text) {
            None => ty.path is None,
            Some((ident, arg)) => ty.path matches Some(seg) && seg.ident@ == ident && match arg {
                None => seg.argument is None,
                Some(a) => seg.argument matches Some(b) && type_matches(*b, a, (fuel - 1) as nat),
            },
        }
    }
}

/// The model of the type with text `text`, down to `fuel` levels of generic arguments.
pub fn rust_type_from_text(text: &str, fuel: usize) -> (res: RustType)
    ensures
        type_matches(res, text@, fuel as nat),
    decreases fuel,
{
    let owned = String::from_str(text);
    if fuel == 0 {
        return RustType { text: owned, path: None };
    }
    match parse_type_head(text) {
        None => RustType { text: owned, path: None },
        Some((ident, arg)) => {
            let argument = match arg {
                Some(a) => Some(Box::new(rust_type_from_text(a.as_str(), fuel - 1))),
                None => None,
            };
            RustType { text: owned, path: Some(PathSegment { ident, argument }) }
        },
    }
}

/// `item` is the model of the parsed item `shape`: each field type described to as many levels
/// as its text has characters.
pub open spec fn item_matches(item: Item, shape: ItemShape) -> bool {
    match shape {
        ItemShape::Other => item is Other,
        ItemShape::Struct { ident, fields } => item matches Item::Struct(s) && s.ident@ == ident
            && match fields {
            None => s.fields is Unnamed,
            Some(fs) => s.fields matches Fields::Named(v) && v@.len() == fs.len() && forall|i: int|
                0 <= i < fs.len() ==> #[trigger] v@[i].name@ == fs[i].0 && type_matches(
                    v@[i].ty,
                    fs[i].1,
                    fs[i].1.len(),
                ),
        },
    }
}

/// The model of a parsed item.
pub fn item_from_syntax(syntax: &ItemSyntax) -> (res: Item)
    ensures
        item_matches(res, syntax@),
{
    match syntax {
        ItemSyntax::Other => Item::Other,
        ItemSyntax::Struct { ident, fields } => {
            let fields = match fields {
                None => Fields::Unnamed,
                Some(v) => {
                    let mut named: Vec<Field> = Vec::new();
                    let mut i: usize = 0;
                    while i < v.len()
                        invariant
                            i <= v@.len(),
                            named@.len() == i,
                            forall|j: int|
                                0 <= j < i ==> #[trigger] named@[j].name@ == v@[j].name@
                                    && type_matches(named@[j].ty, v@[j].ty@, v@[j].ty@.len()),
                        decreases v.len() - i,
                    {
                        let f = &v[i];
                        let fuel = f.ty.as_str().unicode_len();
                        let ty = rust_type_from_text(f.ty.as_str(), fuel);
                        named.push(Field { name: f.name.clone(), ty });
                        i += 1;
                    }
                    Fields::Named(named)
                },
            };
            Item::Struct(ItemStruct { ident: ident.clone(), fields })
        },
    }
}

/// Expand the table derive on the item written in `text`, naming the check structs from the
/// random value `seed`. `None` when `text` does not parse as an item.
pub fn sql_table_text(text: &str, seed: u64) -> (res: Option<SqlTableExpansion>)
    ensures
        match parsed_item(text@) {
            None => res is None,
            Some(shape) => exists|item: Item|
                #[trigger] item_matches(item, shape) && (res matches Some(e) && item_expansion(
                    item,
                    seed,
                    e,
                )),
        },
{
    match parse_item(text) {
        None => None,
        Some(syntax) => {
            let item = item_from_syntax(&syntax);
            let res = sql_table(&item, seed);
            assert(item_matches(item, syntax@));
            Some(res)
        },
    }
}

/// The content of a parsed argument of the missing-fields check: for an array, each element's
/// path identifier (`None` for an element that is not a path); `None` for any other expression.
pub type ArgListShape = Option<Seq<Option<Seq<char>>>>;

/// What `syn` parses `text`, put between parentheses, into: for a tuple, each element's
/// content; `None` when it is not a tuple (or does not parse).
pub uninterp spec fn parsed_arguments(text: Seq<char>) -> Option<Seq<ArgListShape>>;

/// The views of the elements of a parsed array.
pub open spec fn elems_view(v: Seq<Option<String>>) -> Seq<Option<Seq<char>>> {
    v.map_values(|e: Option<String>| opt_text(e))
}

/// The view of a parsed argument.
pub open spec fn list_view(l: Option<Vec<Option<String>>>) -> ArgListShape {
    match l {
        Some(v) => Some(elems_view(v@)),
        None => None,
    }
}

/// The views of parsed arguments.
pub open spec fn arg_lists_view(lists: Vec<Option<Vec<Option<String>>>>) -> Seq<ArgListShape> {
    lists@.map_values(|l: Option<Vec<Option<String>>>| list_view(l))
}

/// The identifiers of given fields that are all paths.
pub open spec fn given_names(g: Seq<Option<Seq<char>>>) -> Seq<Seq<char>> {
    g.map_values(|x: Option<Seq<char>>| x->0)
}

/// Calls `syn::parse_str::<syn::Expr>` on `text` put between parentheses and, for a tuple, gives
/// for each element that is an array the first path identifier of each of its elements. Named
/// by `parsed_arguments`.
#[verifier::external_body]
pub fn parse_arguments(text: &str) -> (res: Option<Vec<Option<Vec<Option<String>>>>>)
    ensures
        match res {
            Some(lists) => parsed_arguments(text@) == Some(arg_lists_view(lists)),
            None => parsed_arguments(text@) is None,
        },
{
    match syn::parse_str::<syn::Expr>(&format!("({})", text)) {
        Ok(syn::Expr::Tuple(tuple)) => Some(tuple.elems.iter().map(|arg| match *arg {
            syn::Expr::Array(ref array) => Some(array.elems.iter().map(|elem| match *elem {
                syn::Expr::Path(ref path) => Some(path.path.segments[0].ident.to_string()),
                _ => None,
            }).collect()),
            _ => None,
        }).collect()),
        _ => None,
    }
}

/// The path identifiers among `elems`, in order.
pub open spec fn some_values(elems: Seq<Option<Seq<char>>>) -> Seq<Seq<char>>
    decreases elems.len(),
{
    if elems.len() == 0 {
        seq![]
    } else {
        let prev = some_values(elems.drop_last());
        match elems.last() {
            Some(p) => prev.push(p),
            None => prev,
        }
    }
}

/// `args` is the model of the parsed arguments `lists`.
pub open spec fn arguments_match(args: Arguments, lists: Seq<ArgListShape>) -> bool {
    &&& args.0@.len() == lists.len()
    &&& forall|k: int| 0 <= k < lists.len() ==> arg_list_matches(#[trigger] args.0@[k], lists[k])
}

/// `list` is the model of the parsed argument `shape`.
pub open spec fn arg_list_matches(list: ArgList, shape: ArgListShape) -> bool {
    match shape {
        None => list is Other,
        Some(elems) => list matches ArgList::Array(v) && v@.len() == elems.len() && forall|i: int|
            0 <= i < elems.len() ==> #[trigger] arg_expr_matches(v@[i], elems[i]),
    }
}

/// `e` is the model of the parsed array element `shape`.
pub open spec fn arg_expr_matches(e: ArgExpr, shape: Option<Seq<char>>) -> bool {
    match shape {
        Some(p) => e matches ArgExpr::Path(q) && q@ == p,
        None => e is Other,
    }
}

/// The result of the missing-fields check on parsed arguments: `None` where the check panics
/// (fewer than two arguments, or a given field that is not a path), else the compile error to
/// emit, if any.
pub open spec fn lists_check(lists: Seq<ArgListShape>) -> Option<Option<Seq<char>>> {
    if lists.len() < 2 {
        None
    } else {
        match lists[1] {
            Some(given) => if forall|i: int| 0 <= i < given.len() ==> (#[trigger] given[i]) is Some {
                let mandatory = match lists[0] {
                    Some(m) => some_values(m),
                    None => seq![],
                };
                Some(missing_fields_error(missing(mandatory, given_names(given))))
            } else {
                None
            },
            None => Some(missing_fields_error(missing(
                match lists[0] {
                    Some(m) => some_values(m),
                    None => seq![],
                },
                seq![],
            ))),
        }
    }
}

/// The result of the missing-fields check on the arguments written in `text`: `None` where the
/// check panics, else the compile error to emit, if any.
pub open spec fn text_check(text: Seq<char>) -> Option<Option<Seq<char>>> {
    match parsed_arguments(text) {
        None => None,
        Some(lists) => lists_check(lists),
    }
}

/// The view of an optional optional text.
pub open spec fn opt_opt_text(r: Option<Option<String>>) -> Option<Option<Seq<char>>> {
    match r {
        Some(m) => Some(opt_text(m)),
        None => None,
    }
}

fn arg_list_from(list: &Option<Vec<Option<String>>>) -> (res: ArgList)
    ensures
        arg_list_matches(res, list_view(*list)),
{
    match list {
        None => ArgList::Other,
        Some(v) => {
            let mut elems: Vec<ArgExpr> = Vec::new();
            let mut i: usize = 0;
            while i < v.len()
                invariant
                    i <= v@.len(),
                    elems@.len() == i,
                    forall|j: int| 0 <= j < i ==> #[trigger] arg_expr_matches(elems@[j], opt_text(v@[j])),
                decreases v.len() - i,
            {
                let e = match &v[i] {
                    Some(p) => ArgExpr::Path(p.clone()),
                    None => ArgExpr::Other,
                };
                elems.push(e);
                i += 1;
            }
            let res = ArgList::Array(elems);
            assert forall|j: int| 0 <= j < v@.len() implies #[trigger] arg_expr_matches(
                elems@[j],
                elems_view(v@)[j],
            ) by {
                assert(arg_expr_matches(elems@[j], opt_text(v@[j])));
            }
            res
        },
    }
}

proof fn lemma_path_names_match(v: Seq<ArgExpr>, elems: Seq<Option<Seq<char>>>)
    requires
        v.len() == elems.len(),
        forall|i: int| 0 <= i < elems.len() ==> #[trigger] arg_expr_matches(v[i], elems[i]),
    ensures
        path_names(v) == some_values(elems),
    decreases v.len(),
{
    if v.len() > 0 {
        let n = v.len() - 1;
        assert forall|i: int| 0 <= i < n implies #[trigger] arg_expr_matches(
            v.drop_last()[i],
            elems.drop_last()[i],
        ) by {
            assert(arg_expr_matches(v[i], elems[i]));
        }
        lemma_path_names_match(v.drop_last(), elems.drop_last());
        assert(arg_expr_matches(v[n], elems[n]));
    }
}

/// Check that an insert gives all the mandatory fields, on the arguments written in `text`: the
/// array of the mandatory fields, a comma, and the array of the given fields. `None` where the
/// check panics: `text` does not parse as two or more arguments, or a given field is not a path.
/// Otherwise the compile error to emit, if any field is missing.
pub fn check_missing_fields_text(text: &str) -> (res: Option<Option<String>>)
    ensures
        opt_opt_text(res) == text_check(text@),
        match parsed_arguments(text@) {
            None => res is None,
            Some(lists) => exists|args: Arguments|
                #[trigger] arguments_match(args, lists) && if args.0@.len() >= 2 && given_arg_wf(
                    args.0@[1],
                ) {
                    res matches Some(r) && opt_text(r) == missing_fields_check(args)
                } else {
                    res is None
                },
        },
{
    let lists = match parse_arguments(text) {
        None => return None,
        Some(lists) => lists,
    };
    let ghost shapes = arg_lists_view(lists);
    let mut converted: Vec<ArgList> = Vec::new();
    let mut k: usize = 0;
    while k < lists.len()
        invariant
            k <= lists@.len(),
            shapes == arg_lists_view(lists),
            converted@.len() == k,
            forall|j: int| 0 <= j < k ==> #[trigger] arg_list_matches(converted@[j], shapes[j]),
        decreases lists.len() - k,
    {
        converted.push(arg_list_from(&lists[k]));
        k += 1;
    }
    let args = Arguments(converted);
    assert(arguments_match(args, shapes));
    if args.0.len() < 2 {
        return None;
    }
    proof {
        assert(arg_list_matches(args.0@[0], shapes[0]));
        assert(arg_list_matches(args.0@[1], shapes[1]));
        if let Some(m) = shapes[0] {
            if let ArgList::Array(v) = args.0@[0] {
                lemma_path_names_match(v@, m);
            }
        }
        if let Some(g) = shapes[1] {
            if let ArgList::Array(v) = args.0@[1] {
                assert(given_arg_wf(args.0@[1]) == forall|i: int|
                    0 <= i < g.len() ==> (#[trigger] g[i]) is Some) by {
                    if given_arg_wf(args.0@[1]) {
                        assert forall|i: int| 0 <= i < g.len() implies (#[trigger] g[i]) is Some by {
                            assert(arg_expr_matches(v@[i], g[i]));
                        }
                    }
                    if forall|i: int| 0 <= i < g.len() ==> (#[trigger] g[i]) is Some {
                        assert forall|i: int| 0 <= i < v@.len() implies crate::missing::given_name(
                            #[trigger] v@[i],
                        ) is Some by {
                            assert(arg_expr_matches(v@[i], g[i]));
                            assert(g[i] is Some);
                        }
                    }
                }
                if given_arg_wf(args.0@[1]) {
                    assert(given_arg(args.0@[1]) =~= given_names(g)) by {
                        assert forall|i: int| 0 <= i < g.len() implies given_arg(args.0@[1])[i]
                            == given_names(g)[i] by {
                            assert(arg_expr_matches(v@[i], g[i]));
                        }
                    }
                }
            }
        }
    }
    if !given_ok(&args.0[1]) {
        return None;
    }
    Some(gen_check_missing_fields(&args))
}

fn given_ok(list: &ArgList) -> (res: bool)
    ensures
        res == given_arg_wf(*list),
{
    match list {
        ArgList::Other => true,
        ArgList::Array(v) => {
            let mut i: usize = 0;
            while i < v.len()
                invariant
                    i <= v@.len(),
                    *list == ArgList::Array(*v),
                    forall|j: int| 0 <= j < i ==> crate::missing::given_name(#[trigger] v@[j]) is Some,
                decreases v.len() - i,
            {
                let ok = match &v[i] {
                    ArgExpr::Path(_) => true,
                    ArgExpr::Group(inner) => match &**inner {
                        ArgExpr::Path(_) => true,
                        _ => false,
                    },
                    ArgExpr::Other => false,
                };
                if !ok {
                    assert(crate::missing::given_name(v@[i as int]) is None);
                    return false;
                }
                i += 1;
            }
            true
        },
    }
}

/// The first discriminant of a parsed item.
pub enum Discriminant {
    /// The item is not an enum.
    NotEnum,
    /// The enum has no variant.
    NoVariant,
    /// The first variant has no discriminant.
    NoDiscriminant,
    /// The first variant's discriminant, as text.
    Expr(String),
}

/// The content of a parsed first discriminant.
pub enum DiscriminantShape {
    NotEnum,
    NoVariant,
    NoDiscriminant,
    Expr(Seq<char>),
}

impl View for Discriminant {
    type V = DiscriminantShape;

    open spec fn view(&self) -> DiscriminantShape {
        match self {
            Discriminant::NotEnum => DiscriminantShape::NotEnum,
            Discriminant::NoVariant => DiscriminantShape::NoVariant,
            Discriminant::NoDiscriminant => DiscriminantShape::NoDiscriminant,
            Discriminant::Expr(e) => DiscriminantShape::Expr(e@),
        }
    }
}

/// What `syn` parses `text` into as an item, reduced to the first discriminant of an enum.
pub uninterp spec fn parsed_discriminant(text: Seq<char>) -> Option<DiscriminantShape>;

/// Calls `syn::parse_str::<syn::Item>` on `text` and, for an enum, gives its first variant's
/// discriminant expression as text. Named by `parsed_discriminant`; `None` is a parse error.
#[verifier::external_body]
pub fn parse_discriminant(text: &str) -> (res: Option<Discriminant>)
    ensures
        match res {
            Some(d) => parsed_discriminant(text@) == Some(d@),
            None => parsed_discriminant(text@) is None,
        },
{
    match syn::parse_str::<syn::Item>(text) {
        Ok(syn::Item::Enum(e)) => Some(match e.variants.first().map(|v| v.into_value().discriminant.clone()) {
            None => Discriminant::NoVariant,
            Some(None) => Discriminant::NoDiscriminant,
            Some(Some((_, expr))) => Discriminant::Expr(expr.into_tokens().to_string()),
        }),
        Ok(_) => Some(Discriminant::NotEnum),
        Err(_) => None,
    }
}

/// The macro call found in a discriminant of the form `(macro!(...), ...).field`.
pub enum MacroSlot {
    /// The expression is not a field of a tuple.
    NotTupleField,
    /// The tuple is empty.
    EmptyTuple,
    /// The tuple's first element is not a macro call.
    NotMacro,
    /// The tokens given to the macro, as text.
    Macro(String),
}

/// The content of a parsed macro slot.
pub enum MacroSlotShape {
    NotTupleField,
    EmptyTuple,
    NotMacro,
    Macro(Seq<char>),
}

impl View for MacroSlot {
    type V = MacroSlotShape;

    open spec fn view(&self) -> MacroSlotShape {
        match self {
            MacroSlot::NotTupleField => MacroSlotShape::NotTupleField,
            MacroSlot::EmptyTuple => MacroSlotShape::EmptyTuple,
            MacroSlot::NotMacro => MacroSlotShape::NotMacro,
            MacroSlot::Macro(t) => MacroSlotShape::Macro(t@),
        }
    }
}

/// What `syn` parses `text` into as an expression, reduced to the macro call in the first
/// element of a tuple whose field is taken.
pub uninterp spec fn parsed_macro_slot(text: Seq<char>) -> MacroSlotShape;

/// Calls `syn::parse_str::<syn::Expr>` on `text` and, for a field of a tuple, looks at the
/// tuple's first element: the tokens of a macro call, as text. Named by `parsed_macro_slot`.
#[verifier::external_body]
pub fn parse_macro_slot(text: &str) -> (res: MacroSlot)
    ensures
        res@ == parsed_macro_slot(text@),
{
    match syn::parse_str::<syn::Expr>(text) {
        Ok(syn::Expr::Field(field)) => match *field.base {
            syn::Expr::Tuple(tuple) => match tuple.elems.first().map(|e| e.into_value().clone()) {
                None => MacroSlot::EmptyTuple,
                Some(syn::Expr::Macro(m)) => MacroSlot::Macro(m.mac.tts.to_string()),
                Some(_) => MacroSlot::NotMacro,
            },
            _ => MacroSlot::NotTupleField,
        },
        _ => MacroSlot::NotTupleField,
    }
}

/// What the stable missing-fields derive expands to.
pub enum StableCheck {
    /// Nothing.
    Empty,
    /// The helper macro that runs the missing-fields check, with the compile error it emits, if
    /// any.
    Check(Option<String>),
}

/// The expansion of the stable missing-fields derive on the item written in `text`: `None`
/// where it panics, `Some(None)` for no expansion, and `Some(Some(m))` for the helper macro
/// emitting `m`.
pub open spec fn stable_check(text: Seq<char>) -> Option<Option<Option<Seq<char>>>> {
    match parsed_discriminant(text) {
        None => None,
        Some(DiscriminantShape::NotEnum) => Some(None),
        Some(DiscriminantShape::NoVariant) => None,
        Some(DiscriminantShape::NoDiscriminant) => None,
        Some(DiscriminantShape::Expr(e)) => match parsed_macro_slot(e) {
            MacroSlotShape::NotTupleField => Some(None),
            MacroSlotShape::NotMacro => Some(None),
            MacroSlotShape::EmptyTuple => None,
            MacroSlotShape::Macro(tts) => match text_check(tts) {
                None => None,
                Some(m) => Some(Some(m)),
            },
        },
    }
}

/// The view of a stable expansion.
pub open spec fn stable_view(r: Option<StableCheck>) -> Option<Option<Option<Seq<char>>>> {
    match r {
        None => None,
        Some(StableCheck::Empty) => Some(None),
        Some(StableCheck::Check(m)) => Some(Some(opt_text(m))),
    }
}

/// The stable form of the missing-fields check: a derive on an enum whose first variant's
/// discriminant is `(check_missing_fields!(...), 0).0`. `None` where the expansion panics.
pub fn stable_check_missing_fieds(text: &str) -> (res: Option<StableCheck>)
    ensures
        stable_view(res) == stable_check(text@),
{
    match parse_discriminant(text) {
        None => None,
        Some(Discriminant::NotEnum) => Some(StableCheck::Empty),
        Some(Discriminant::NoVariant) => None,
        Some(Discriminant::NoDiscriminant) => None,
        Some(Discriminant::Expr(e)) => match parse_macro_slot(e.as_str()) {
            MacroSlot::NotTupleField => Some(StableCheck::Empty),
            MacroSlot::NotMacro => Some(StableCheck::Empty),
            MacroSlot::EmptyTuple => None,
            MacroSlot::Macro(tts) => match check_missing_fields_text(tts.as_str()) {
                None => None,
                Some(m) => Some(StableCheck::Check(m)),
            },
        },
    }
}

} // verus!
