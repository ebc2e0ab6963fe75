//! The check that an insert gives every mandatory field of the table.

use vstd::prelude::*;

use crate::fields::opt_text;
use crate::macros::{join, mandatory_fields};
use crate::methods::texts;
use crate::model::Field;
use crate::text::same_text;

verus! {

/// An expression given to the missing-fields check.
pub enum ArgExpr {
    /// A path, with the identifier of its first segment.
    Path(String),
    /// An expression in invisible delimiters, as macro expansion produces.
    Group(Box<ArgExpr>),
    /// Any other expression.
    Other,
}

/// An argument of the missing-fields check.
pub enum ArgList {
    /// An array expression with its elements.
    Array(Vec<ArgExpr>),
    /// Any other expression.
    Other,
}

/// The arguments of the missing-fields check: the mandatory fields of the table, then the
/// fields that the insert gives.
pub struct Arguments(pub Vec<ArgList>);

/// The identifiers of the plain paths of an array argument, in order.
pub open spec fn path_names(elems: Seq<ArgExpr>) -> Seq<Seq<char>>
    decreases elems.len(),
{
    if elems.len() == 0 {
        seq![]
    } else {
        let prev = path_names(elems.drop_last());
        match elems.last() {
            ArgExpr::Path(p) => prev.push(p@),
            _ => prev,
        }
    }
}

/// The identifier of a path, possibly in invisible delimiters.
pub open spec fn given_name(e: ArgExpr) -> Option<Seq<char>> {
    match e {
        ArgExpr::Path(p) => Some(p@),
        ArgExpr::Group(inner) => match *inner {
            ArgExpr::Path(p) => Some(p@),
            _ => None,
        },
        ArgExpr::Other => None,
    }
}

/// The mandatory fields named by the first argument.
pub open spec fn mandatory_arg(list: ArgList) -> Seq<Seq<char>> {
    match list {
        ArgList::Array(elems) => path_names(elems@),
        ArgList::Other => seq![],
    }
}

/// The given fields named by the second argument.
pub open spec fn given_arg(list: ArgList) -> Seq<Seq<char>> {
    match list {
        ArgList::Array(elems) => elems@.map_values(|e: ArgExpr| given_name(e)->0),
        ArgList::Other => seq![],
    }
}

/// Each element of the second argument is a path (the check panics on anything else).
pub open spec fn given_arg_wf(list: ArgList) -> bool {
    match list {
        ArgList::Array(elems) => forall|i: int|
            0 <= i < elems@.len() ==> given_name(#[trigger] elems@[i]) is Some,
        ArgList::Other => true,
    }
}

/// The mandatory fields missing from `given`, in order.
pub open spec fn missing(mandatory: Seq<Seq<char>>, given: Seq<Seq<char>>) -> Seq<Seq<char>>
    decreases mandatory.len(),
{
    if mandatory.len() == 0 {
        seq![]
    } else {
        let prev = missing(mandatory.drop_last(), given);
        if given.contains(mandatory.last()) {
            prev
        } else {
            prev.push(mandatory.last())
        }
    }
}

/// The compile error for the missing fields `m`, if there are any.
pub open spec fn missing_fields_error(m: Seq<Seq<char>>) -> Option<Seq<char>> {
    if m.len() == 0 {
        None
    } else {
        Some("missing fields: "@ + join(m, ", "@))
    }
}

/// The compile error that the missing-fields check emits for `args`, if any.
pub open spec fn missing_fields_check(args: Arguments) -> Option<Seq<char>> {
    missing_fields_error(missing(mandatory_arg(args.0@[0]), given_arg(args.0@[1])))
}

fn contains_text(names: &Vec<String>, name: &str) -> (res: bool)
    ensures
        res == texts(names@).contains(name@),
{
    let mut i: usize = 0;
    while i < names.len()
        invariant
            i <= names@.len(),
            forall|j: int| 0 <= j < i ==> names@[j]@ != name@,
        decreases names.len() - i,
    {
        if same_text(names[i].as_str(), name) {
            assert(texts(names@)[i as int] == name@);
            return true;
        }
        i += 1;
    }
    assert forall|j: int| 0 <= j < texts(names@).len() implies texts(names@)[j] != name@ by {
        assert(texts(names@)[j] == names@[j]@);
    }
    false
}

/// The compile error to emit when an insert misses some of the mandatory fields: `missing
/// fields: ` followed by the missing fields, in the order of `mandatory`, joined with `, `.
pub fn missing_fields_message(mandatory: &Vec<String>, fields: &Vec<String>) -> (res: Option<String>)
    ensures
        opt_text(res) == missing_fields_error(missing(texts(mandatory@), texts(fields@))),
{
    let ghost given = texts(fields@);
    let mut list = String::from_str("");
    let mut count: usize = 0;
    let mut i: usize = 0;
    proof {
        reveal_strlit("");
    }
    while i < mandatory.len()
        invariant
            i <= mandatory@.len(),
            given == texts(fields@),
            count == missing(texts(mandatory@.take(i as int)), given).len(),
            count <= i,
            list@ == join(missing(texts(mandatory@.take(i as int)), given), ", "@),
        decreases mandatory.len() - i,
    {
        let ghost prefix = texts(mandatory@.take(i + 1));
        assert(prefix.drop_last() =~= texts(mandatory@.take(i as int)));
        assert(prefix.last() == mandatory@[i as int]@);
        let field = &mandatory[i];
        if !contains_text(fields, field.as_str()) {
            let ghost parts = missing(prefix, given);
            if count == 0 {
                list = field.clone();
                assert(parts.len() == 1);
            } else {
                list = list.concat(", ").concat(field.as_str());
                assert(parts.drop_last() =~= missing(texts(mandatory@.take(i as int)), given));
            }
            count += 1;
        }
        i += 1;
    }
    assert(mandatory@.take(mandatory@.len() as int) =~= mandatory@);
    if count == 0 {
        None
    } else {
        Some(String::from_str("missing fields: ").concat(list.as_str()))
    }
}

fn mandatory_arg_names(list: &ArgList) -> (res: Vec<String>)
    ensures
        texts(res@) == mandatory_arg(*list),
{
    let mut res: Vec<String> = Vec::new();
    if let ArgList::Array(elems) = list {
        let mut i: usize = 0;
        while i < elems.len()
            invariant
                i <= elems@.len(),
                texts(res@) == path_names(elems@.take(i as int)),
            decreases elems.len() - i,
        {
            let ghost prefix = elems@.take(i + 1);
            assert(prefix.drop_last() =~= elems@.take(i as int));
            assert(prefix.last() == elems@[i as int]);
            if let ArgExpr::Path(p) = &elems[i] {
                let ghost prev = res@;
                res.push(p.clone());
                assert(texts(res@) =~= texts(prev).push(p@));
            }
            i += 1;
        }
        assert(elems@.take(elems@.len() as int) =~= elems@);
    }
    res
}

fn given_arg_names(list: &ArgList) -> (res: Vec<String>)
    requires
        given_arg_wf(*list),
    ensures
        texts(res@) == given_arg(*list),
{
    let mut res: Vec<String> = Vec::new();
    if let ArgList::Array(elems) = list {
        let mut i: usize = 0;
        while i < elems.len()
            invariant
                i <= elems@.len(),
                given_arg_wf(*list),
                *list == ArgList::Array(*elems),
                res@.len() == i,
                forall|j: int| 0 <= j < i ==> #[trigger] res@[j]@ == given_name(elems@[j])->0,
            decreases elems.len() - i,
        {
            assert(given_name(elems@[i as int]) is Some);
            let name = match &elems[i] {
                ArgExpr::Path(p) => p.clone(),
                ArgExpr::Group(inner) => match &**inner {
                    ArgExpr::Path(p) => p.clone(),
                    _ => unreached(),
                },
                ArgExpr::Other => unreached(),
            };
            res.push(name);
            i += 1;
        }
        assert(texts(res@) =~= given_arg(*list));
    }
    res
}

/// Check that an insert gives all the mandatory fields: `args` holds the array of the mandatory
/// fields and the array of the given fields. Returns the compile error to emit, if any field is
/// missing.
pub fn gen_check_missing_fields(args: &Arguments) -> (res: Option<String>)
    requires
        args.0@.len() >= 2,
        given_arg_wf(args.0@[1]),
    ensures
        opt_text(res) == missing_fields_check(*args),
        res is None <==> forall|i: int|
            0 <= i < mandatory_arg(args.0@[0]).len() ==> given_arg(args.0@[1]).contains(
                #[trigger] mandatory_arg(args.0@[0])[i],
            ),
{
    let mandatory = mandatory_arg_names(&args.0[0]);
    let fields = given_arg_names(&args.0[1]);
    proof {
        lemma_missing_empty(mandatory_arg(args.0@[0]), given_arg(args.0@[1]));
    }
    missing_fields_message(&mandatory, &fields)
}

/// Expand the missing-fields check macro.
pub fn check_missing_fields(args: &Arguments) -> (res: Option<String>)
    requires
        args.0@.len() >= 2,
        given_arg_wf(args.0@[1]),
    ensures
        opt_text(res) == missing_fields_check(*args),
{
    gen_check_missing_fields(args)
}

/// Nothing is missing exactly when every mandatory field is given.
pub proof fn lemma_missing_empty(mandatory: Seq<Seq<char>>, given: Seq<Seq<char>>)
    ensures
        (missing(mandatory, given).len() == 0) <==> forall|i: int|
            0 <= i < mandatory.len() ==> given.contains(#[trigger] mandatory[i]),
    decreases mandatory.len(),
{
    if mandatory.len() > 0 {
        let prev = mandatory.drop_last();
        lemma_missing_empty(prev, given);
        lemma_missing_len(prev, given);
        if missing(mandatory, given).len() == 0 {
            assert forall|i: int| 0 <= i < mandatory.len() implies given.contains(
                #[trigger] mandatory[i],
            ) by {
                if i < mandatory.len() - 1 {
                    assert(mandatory[i] == prev[i]);
                }
            }
        }
        if forall|i: int| 0 <= i < mandatory.len() ==> given.contains(#[trigger] mandatory[i]) {
            assert forall|i: int| 0 <= i < prev.len() implies given.contains(#[trigger] prev[i]) by {
                assert(prev[i] == mandatory[i]);
            }
            assert(given.contains(mandatory[mandatory.len() - 1]));
        }
    }
}

proof fn lemma_missing_len(mandatory: Seq<Seq<char>>, given: Seq<Seq<char>>)
    ensures
        missing(mandatory, given).len() <= mandatory.len(),
    decreases mandatory.len(),
{
    if mandatory.len() > 0 {
        lemma_missing_len(mandatory.drop_last(), given);
    }
}

/// Law: the missing fields depend on the given fields only through which names are given:
/// reordering or repeating the given fields keeps the missing fields, and so the message.
pub proof fn lemma_missing_depends_on_membership(
    mandatory: Seq<Seq<char>>,
    given1: Seq<Seq<char>>,
    given2: Seq<Seq<char>>,
)
    requires
        forall|x: Seq<char>| given1.contains(x) <==> given2.contains(x),
    ensures
        missing(mandatory, given1) == missing(mandatory, given2),
        missing_fields_error(missing(mandatory, given1)) == missing_fields_error(
            missing(mandatory, given2),
        ),
    decreases mandatory.len(),
{
    if mandatory.len() > 0 {
        lemma_missing_depends_on_membership(mandatory.drop_last(), given1, given2);
        assert(given1.contains(mandatory.last()) == given2.contains(mandatory.last()));
    }
}

/// Law: giving more fields never adds a name to the missing fields.
pub proof fn lemma_more_given_fewer_missing(
    mandatory: Seq<Seq<char>>,
    given1: Seq<Seq<char>>,
    given2: Seq<Seq<char>>,
)
    requires
        forall|x: Seq<char>| given1.contains(x) ==> given2.contains(x),
    ensures
        forall|x: Seq<char>|
            missing(mandatory, given2).contains(x) ==> missing(mandatory, given1).contains(x),
    decreases mandatory.len(),
{
    if mandatory.len() > 0 {
        let prev = mandatory.drop_last();
        lemma_more_given_fewer_missing(prev, given1, given2);
        let last = mandatory.last();
        assert forall|x: Seq<char>|
            missing(mandatory, given2).contains(x) implies missing(mandatory, given1).contains(x) by {
            if missing(prev, given2).contains(x) {
                let i = choose|i: int| 0 <= i < missing(prev, given2).len() && missing(prev, given2)[i] == x;
                assert(missing(prev, given1).contains(x));
                let j = choose|j: int| 0 <= j < missing(prev, given1).len() && missing(prev, given1)[j] == x;
                if !given1.contains(last) {
                    assert(missing(mandatory, given1)[j] == x);
                } else {
                    assert(missing(mandatory, given1)[j] == x);
                }
            } else {
                assert(!given2.contains(last));
                assert(missing(mandatory, given2) == missing(prev, given2).push(last));
                let i = choose|i: int| 0 <= i < missing(mandatory, given2).len() && missing(mandatory, given2)[i] == x;
                assert(x == last);
                assert(!given1.contains(last));
                assert(missing(mandatory, given1)[missing(prev, given1).len() as int] == x);
            }
        }
    }
}

/// Law: an insert that gives every field of the table struct, in any order, misses none of the
/// mandatory fields that the table's insert check lists.
pub proof fn lemma_all_fields_given_nothing_missing(fields: Seq<Field>, given: Seq<Seq<char>>)
    requires
        forall|i: int| 0 <= i < fields.len() ==> given.contains(#[trigger] fields[i].name@),
    ensures
        missing(mandatory_fields(fields), given).len() == 0,
{
    lemma_mandatory_are_fields(fields);
    lemma_missing_empty(mandatory_fields(fields), given);
    assert forall|i: int| 0 <= i < mandatory_fields(fields).len() implies given.contains(
        #[trigger] mandatory_fields(fields)[i],
    ) by {
        let k = choose|k: int| 0 <= k < fields.len() && fields[k].name@ == mandatory_fields(fields)[i];
        assert(given.contains(fields[k].name@));
    }
}

/// Each mandatory field is a field of the struct.
proof fn lemma_mandatory_are_fields(fields: Seq<Field>)
    ensures
        forall|i: int|
            0 <= i < mandatory_fields(fields).len() ==> exists|k: int|
                0 <= k < fields.len() && fields[k].name@ == #[trigger] mandatory_fields(fields)[i],
    decreases fields.len(),
{
    if fields.len() > 0 {
        let prev = fields.drop_last();
        lemma_mandatory_are_fields(prev);
        assert forall|i: int| 0 <= i < mandatory_fields(fields).len() implies exists|k: int|
            0 <= k < fields.len() && fields[k].name@ == #[trigger] mandatory_fields(fields)[i] by {
            if i < mandatory_fields(prev).len() {
                let k = choose|k: int|
                    0 <= k < prev.len() && prev[k].name@ == mandatory_fields(prev)[i];
                assert(fields[k] == prev[k]);
            } else {
                assert(fields[fields.len() - 1].name@ == mandatory_fields(fields)[i]);
            }
        }
    }
}

} // verus!
