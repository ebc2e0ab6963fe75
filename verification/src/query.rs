//! The checks and values that a generated query carries with it.

use vstd::prelude::*;

use crate::error::{Error, errors_view};
use crate::fields::opt_text;
use crate::macros::macro_name;
use crate::methods::texts;
use crate::text::concat3;

verus! {

/// An argument of a query.
pub struct Arg {
    /// The field that the argument is compared with or assigned to, possibly qualified by its
    /// table as `table.field`.
    pub field_name: Option<String>,
    /// The argument's expression, as text.
    pub expression: String,
    /// The expression is a literal, which then stands in the query text itself.
    pub is_literal: bool,
}

/// A method called on a field in a filter, such as `date.year()`.
pub struct MethodCall {
    pub object_name: String,
    pub method_name: String,
    pub arguments: Vec<String>,
}

/// The parts of an analysed query that the type checks of its arguments read.
pub struct SqlQueryWithArgs {
    pub table_name: String,
    /// The arguments that are sent along with the query.
    pub arguments: Vec<Arg>,
    /// The literal arguments, which stand in the query text.
    pub literal_arguments: Vec<Arg>,
    /// The fields named by a sort or an update.
    pub idents: Vec<String>,
    /// The expressions of `limit` and `offset`.
    pub limit_exprs: Vec<String>,
    /// The fields given by an insert.
    pub insert_idents: Option<Vec<String>>,
    /// The methods called on fields, with the expression that their result is compared with.
    pub method_calls: Vec<(MethodCall, Option<String>)>,
}

/// The assignment of an argument's expression to a field of the table, through which the
/// compiler checks the argument's type.
pub struct FieldAssign {
    pub field: String,
    pub expression: String,
}

/// The call of the table's missing-fields check macro on the fields of an insert.
pub struct MissingFieldsCall {
    pub macro_name: String,
    pub fields: Vec<String>,
}

/// The check of a method called on a field: the result is assigned the compared expression, or,
/// without one, compared with `true`.
pub struct MethodCheck {
    pub field: String,
    pub method: String,
    pub arguments: Vec<String>,
    pub comparison: Option<String>,
}

/// The type checks of a query's arguments and the arguments to send with the query.
pub struct ArgumentChecks {
    pub table: String,
    /// The fields that a sort or an update names, which must exist.
    pub existing_fields: Vec<String>,
    /// The `limit` and `offset` expressions, which must be `i64`.
    pub limit_exprs: Vec<String>,
    /// The checks of the methods called on fields.
    pub method_checks: Vec<MethodCheck>,
    /// The assignments that check the types of the arguments.
    pub assigns: Vec<FieldAssign>,
    /// The expressions of the arguments to send with the query, in order.
    pub arg_refs: Vec<String>,
    /// The check that an insert gives all the mandatory fields.
    pub missing_fields_call: Option<MissingFieldsCall>,
}

/// What follows the first `.` of `s`, if it holds one.
pub open spec fn after_first_dot(s: Seq<char>) -> Option<Seq<char>>
    decreases s.len(),
{
    if s.len() == 0 {
        None
    } else if s[0] == '.' {
        Some(s.drop_first())
    } else {
        after_first_dot(s.drop_first())
    }
}

/// A field name without the table that qualifies it: what follows the first `.`, or the whole
/// name.
pub open spec fn unqualified(s: Seq<char>) -> Seq<char> {
    match after_first_dot(s) {
        Some(rest) => rest,
        None => s,
    }
}

proof fn lemma_after_first_dot(s: Seq<char>, i: int)
    requires
        0 <= i <= s.len(),
        forall|j: int| 0 <= j < i ==> s[j] != '.',
    ensures
        after_first_dot(s) == after_first_dot(s.subrange(i, s.len() as int)),
    decreases i,
{
    if i > 0 {
        assert(s.drop_first().subrange(i - 1, s.drop_first().len() as int) =~= s.subrange(
            i,
            s.len() as int,
        ));
        assert forall|j: int| 0 <= j < i - 1 implies s.drop_first()[j] != '.' by {
            assert(s.drop_first()[j] == s[j + 1]);
        }
        lemma_after_first_dot(s.drop_first(), i - 1);
    } else {
        assert(s.subrange(0, s.len() as int) =~= s);
    }
}

/// The field name without the table that qualifies it.
pub fn unqualified_field(name: &str) -> (res: String)
    ensures
        res@ == unqualified(name@),
{
    let n = name.unicode_len();
    let mut i: usize = 0;
    while i < n
        invariant
            i <= n,
            n == name@.len(),
            forall|j: int| 0 <= j < i ==> name@[j] != '.',
        decreases n - i,
    {
        if name.get_char(i) == '.' {
            proof {
                lemma_after_first_dot(name@, i as int);
                assert(name@.subrange(i as int, n as int).drop_first() =~= name@.subrange(
                    i + 1,
                    n as int,
                ));
            }
            return String::from_str(name.substring_char(i + 1, n));
        }
        i += 1;
    }
    proof {
        lemma_after_first_dot(name@, n as int);
    }
    String::from_str(name)
}

/// Law: a field qualified by a table whose name holds no `.` is unqualified back to the field.
pub proof fn lemma_unqualified_strips_table(table: Seq<char>, field: Seq<char>)
    requires
        forall|i: int| 0 <= i < table.len() ==> table[i] != '.',
    ensures
        unqualified(table + "."@ + field) == field,
{
    reveal_strlit(".");
    let s = table + "."@ + field;
    assert(s[table.len() as int] == '.');
    assert forall|j: int| 0 <= j < table.len() implies s[j] != '.' by {
        assert(s[j] == table[j]);
    }
    lemma_after_first_dot(s, table.len() as int);
    assert(s.subrange(table.len() as int, s.len() as int).drop_first() =~= field);
}

/// `check` is the check of the method call `call`.
pub open spec fn method_check_matches(check: MethodCheck, call: (MethodCall, Option<String>)) -> bool {
    &&& check.field@ == call.0.object_name@
    &&& check.method@ == call.0.method_name@
    &&& texts(check.arguments@) == texts(call.0.arguments@)
    &&& opt_text(check.comparison) == opt_text(call.1)
}

/// The number of arguments that are not literals.
pub open spec fn sent_count(args: Seq<Arg>) -> nat
    decreases args.len(),
{
    if args.len() == 0 {
        0
    } else {
        sent_count(args.drop_last()) + if args.last().is_literal {
            0nat
        } else {
            1nat
        }
    }
}

/// Law: the arguments sent with a query are the non-literal arguments, one for each of them,
/// whatever their expressions: there are as many as there are non-literal arguments, and the
/// `k`-th argument, when it is not a literal, is sent at the position given by the number of
/// non-literal arguments before it.
pub proof fn lemma_refs_one_per_sent_argument(args: Seq<Arg>)
    ensures
        refs_of(args).len() == sent_count(args),
        forall|k: int|
            0 <= k < args.len() && !(#[trigger] args[k]).is_literal ==> sent_count(args.take(k))
                < refs_of(args).len() && refs_of(args)[sent_count(args.take(k)) as int]
                == args[k].expression@,
    decreases args.len(),
{
    if args.len() > 0 {
        let prev = args.drop_last();
        let n = args.len() - 1;
        lemma_refs_one_per_sent_argument(prev);
        assert forall|k: int| 0 <= k < args.len() && !(#[trigger] args[k]).is_literal implies sent_count(
            args.take(k),
        ) < refs_of(args).len() && refs_of(args)[sent_count(args.take(k)) as int]
            == args[k].expression@ by {
            if k < n {
                assert(args[k] == prev[k]);
                assert(args.take(k) =~= prev.take(k));
                assert(refs_of(args)[sent_count(args.take(k)) as int] == refs_of(prev)[sent_count(
                    prev.take(k),
                ) as int]);
            } else {
                assert(args.take(k) =~= prev);
            }
        }
    }
}

/// The type-checking assignments for the arguments that name a field, in order.
pub open spec fn assigns_of(args: Seq<Arg>) -> Seq<(Seq<char>, Seq<char>)>
    decreases args.len(),
{
    if args.len() == 0 {
        seq![]
    } else {
        let prev = assigns_of(args.drop_last());
        match args.last().field_name {
            Some(name) => prev.push((unqualified(name@), args.last().expression@)),
            None => prev,
        }
    }
}

/// The expressions of the arguments that are not literals, in order.
pub open spec fn refs_of(args: Seq<Arg>) -> Seq<Seq<char>>
    decreases args.len(),
{
    if args.len() == 0 {
        seq![]
    } else {
        let prev = refs_of(args.drop_last());
        if args.last().is_literal {
            prev
        } else {
            prev.push(args.last().expression@)
        }
    }
}

/// The views of field assignments.
pub open spec fn assigns_view(a: Seq<FieldAssign>) -> Seq<(Seq<char>, Seq<char>)> {
    a.map_values(|x: FieldAssign| (x.field@, x.expression@))
}

fn push_assigns(assigns: &mut Vec<FieldAssign>, args: &Vec<Arg>)
    ensures
        assigns_view(final(assigns)@) == assigns_view(old(assigns)@) + assigns_of(args@),
{
    let ghost start = assigns_view(assigns@);
    let mut i: usize = 0;
    while i < args.len()
        invariant
            i <= args@.len(),
            assigns_view(assigns@) == start + assigns_of(args@.take(i as int)),
        decreases args.len() - i,
    {
        let ghost prefix = args@.take(i + 1);
        assert(prefix.drop_last() =~= args@.take(i as int));
        assert(prefix.last() == args@[i as int]);
        let arg = &args[i];
        if let Some(name) = &arg.field_name {
            let ghost prev = assigns@;
            let field = unqualified_field(name.as_str());
            assigns.push(FieldAssign { field, expression: arg.expression.clone() });
            assert(assigns_view(assigns@) =~= assigns_view(prev).push(
                (unqualified(name@), arg.expression@),
            ));
        }
        i += 1;
    }
    assert(args@.take(args@.len() as int) =~= args@);
}

/// Get the arguments to send with the query, and the assignments through which the compiler
/// checks the types of the arguments and the missing-fields check of an insert.
pub fn typecheck_arguments(args: &SqlQueryWithArgs) -> (res: ArgumentChecks)
    ensures
        res.table@ == args.table_name@,
        assigns_view(res.assigns@) == assigns_of(args.arguments@) + assigns_of(
            args.literal_arguments@,
        ),
        texts(res.arg_refs@) == refs_of(args.arguments@),
        texts(res.existing_fields@) == texts(args.idents@),
        texts(res.limit_exprs@) == texts(args.limit_exprs@),
        res.method_checks@.len() == args.method_calls@.len(),
        forall|i: int|
            0 <= i < args.method_calls@.len() ==> method_check_matches(
                #[trigger] res.method_checks@[i],
                args.method_calls@[i],
            ),
        match args.insert_idents {
            Some(ids) => res.missing_fields_call matches Some(call) && call.macro_name@
                == macro_name(args.table_name@, "_check_missing_fields"@) && texts(call.fields@)
                == texts(ids@),
            None => res.missing_fields_call is None,
        },
{
    let mut arg_refs: Vec<String> = Vec::new();
    let mut i: usize = 0;
    while i < args.arguments.len()
        invariant
            i <= args.arguments@.len(),
            texts(arg_refs@) == refs_of(args.arguments@.take(i as int)),
        decreases args.arguments.len() - i,
    {
        let ghost prefix = args.arguments@.take(i + 1);
        assert(prefix.drop_last() =~= args.arguments@.take(i as int));
        assert(prefix.last() == args.arguments@[i as int]);
        let arg = &args.arguments[i];
        if !arg.is_literal {
            let ghost prev = arg_refs@;
            arg_refs.push(arg.expression.clone());
            assert(texts(arg_refs@) =~= texts(prev).push(arg.expression@));
        }
        i += 1;
    }
    assert(args.arguments@.take(args.arguments@.len() as int) =~= args.arguments@);
    let mut assigns: Vec<FieldAssign> = Vec::new();
    push_assigns(&mut assigns, &args.arguments);
    push_assigns(&mut assigns, &args.literal_arguments);
    assert(assigns_view(assigns@) =~= assigns_of(args.arguments@) + assigns_of(
        args.literal_arguments@,
    ));
    let missing_fields_call = match &args.insert_idents {
        Some(ids) => Some(
            MissingFieldsCall {
                macro_name: concat3("tql_", args.table_name.as_str(), "_check_missing_fields"),
                fields: ids.clone(),
            },
        ),
        None => None,
    };
    let mut method_checks: Vec<MethodCheck> = Vec::new();
    let mut k: usize = 0;
    while k < args.method_calls.len()
        invariant
            k <= args.method_calls@.len(),
            method_checks@.len() == k,
            forall|j: int|
                0 <= j < k ==> method_check_matches(
                    #[trigger] method_checks@[j],
                    args.method_calls@[j],
                ),
        decreases args.method_calls.len() - k,
    {
        let (call, comparison) = &args.method_calls[k];
        let comparison = match comparison {
            Some(expr) => Some(expr.clone()),
            None => None,
        };
        method_checks.push(
            MethodCheck {
                field: call.object_name.clone(),
                method: call.method_name.clone(),
                arguments: call.arguments.clone(),
                comparison,
            },
        );
        k += 1;
    }
    ArgumentChecks {
        table: args.table_name.clone(),
        existing_fields: args.idents.clone(),
        limit_exprs: args.limit_exprs.clone(),
        method_checks,
        assigns,
        arg_refs,
        missing_fields_call,
    }
}

/// A join of a query: the foreign key field through which the related row is read.
pub struct Join {
    pub base_field: String,
}

/// The expression that builds a table struct from a row: the struct's own columns, then the
/// related row of each joined field, in order.
pub struct StructExpr {
    pub table: String,
    pub related_fields: Vec<String>,
}

/// Create the struct expression needed by the generated code.
pub fn create_struct(table_ident: &str, joins: &Vec<Join>) -> (res: StructExpr)
    ensures
        res.table@ == table_ident@,
        texts(res.related_fields@) == joins@.map_values(|j: Join| j.base_field@),
{
    let mut related_fields: Vec<String> = Vec::new();
    let mut i: usize = 0;
    while i < joins.len()
        invariant
            i <= joins@.len(),
            related_fields@.len() == i,
            forall|j: int| 0 <= j < i ==> #[trigger] related_fields@[j]@ == joins@[j].base_field@,
        decreases joins.len() - i,
    {
        related_fields.push(joins[i].base_field.clone());
        i += 1;
    }
    assert(texts(related_fields@) =~= joins@.map_values(|j: Join| j.base_field@));
    StructExpr { table: String::from_str(table_ident), related_fields }
}

/// An aggregate of a query, with the name of the field that holds its result.
pub struct Aggregate {
    pub result_name: String,
}

/// A field of the struct that holds the aggregates' results, with the row column it is read
/// from.
pub struct AggregateField {
    pub name: String,
    pub index: usize,
}

/// Generate the aggregate struct: one field for each aggregate, read from the row column of the
/// same position.
pub fn gen_aggregate_struct(aggregates: &Vec<Aggregate>) -> (res: Vec<AggregateField>)
    ensures
        res@.len() == aggregates@.len(),
        forall|i: int|
            0 <= i < aggregates@.len() ==> #[trigger] res@[i].name@ == aggregates@[i].result_name@
                && res@[i].index == i,
{
    let mut res: Vec<AggregateField> = Vec::new();
    let mut i: usize = 0;
    while i < aggregates.len()
        invariant
            i <= aggregates@.len(),
            res@.len() == i,
            forall|j: int|
                0 <= j < i ==> #[trigger] res@[j].name@ == aggregates@[j].result_name@
                    && res@[j].index == j,
        decreases aggregates.len() - i,
    {
        res.push(AggregateField { name: aggregates[i].result_name.clone(), index: i });
        i += 1;
    }
    res
}

/// Add a diagnostic after those already collected.
pub fn add_error(error: Error, compiler_errors: &mut Vec<Error>)
    ensures
        final(compiler_errors)@ == old(compiler_errors)@.push(error),
{
    compiler_errors.push(error);
}

/// The diagnostics to emit for a query that failed: each error, in order.
pub fn generate_errors(errors: Vec<Error>) -> (res: Vec<Error>)
    ensures
        errors_view(res@) == errors_view(errors@),
{
    let mut compiler_errors: Vec<Error> = Vec::new();
    let ghost all = errors@;
    let mut errors = errors;
    while errors.len() > 0
        invariant
            all == compiler_errors@ + errors@,
        decreases errors.len(),
    {
        let ghost before = errors@;
        let error = errors.remove(0);
        assert(before =~= seq![error] + errors@);
        add_error(error, &mut compiler_errors);
    }
    assert(compiler_errors@ =~= all);
    compiler_errors
}

} // verus!
