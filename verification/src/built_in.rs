//! The built-in functions and special forms, and the environment they are
//! installed in at startup.
//!
//! Each built-in is verified against its arm of the spec interpreter's
//! `native_s`. Special forms (`def`, `let`, `if`, `quote`, `fn`, `macro`,
//! `is-list`) take some arguments unevaluated; the others evaluate exactly
//! the arguments they use, left to right, in the caller's environment.

use vstd::prelude::*;
use crate::lisp::{
    Context,
    Function,
    FunctionType,
    Type,
    deep_seq,
    eval_forms,
    lemma_deep_seq_subrange,
    names_of,
    res_deep,
};
use crate::semantics::{
    EnvS,
    EvalError,
    FnVal,
    NativeOp,
    Val,
    bind_lets_s,
    is_vararg_name,
    lemma_evals_len,
    lemma_wrapping_add_u32,
    lemma_wrapping_mul_u32,
    lemma_wrapping_sub_u32,
    make_fn_s,
    native_s,
    prod_from,
    strip_dots,
    sub_from,
    sum_from,
    sym_name,
};

verus! {

broadcast use {
    crate::views::lemma_deep_seq_index,
    crate::views::lemma_deep_pairs_index,
    crate::views::lemma_names_of_index,
};

/// What every built-in promises: it returns the result that its arm of
/// the spec interpreter gives, and leaves the environment, the identity
/// counter and the diagnostics log exactly as that arm says; the
/// environment's own bookkeeping fields are untouched.
pub open spec fn native_post(
    op: NativeOp,
    pre: Context,
    post: Context,
    args: Seq<Val>,
    ids0: u64,
    ids1: u64,
    out0: Seq<Val>,
    out1: Seq<Val>,
    fuel: nat,
    r: Result<Type, EvalError>,
) -> bool {
    let o = native_s(op, args, pre.deep(), ids0, out0, fuel);
    o.res == res_deep(r) && post.deep() == o.env && ids1 == o.ctr && out1 == o.out
        && post.counter() == pre.counter() && post.log() == pre.log()
}

/// Dispatches a native call to its implementation.
pub(crate) fn apply_native(
    op: NativeOp,
    context: &mut Context,
    args: &[Type],
    ids: &mut u64,
    out: &mut Vec<Type>,
    fuel: u64,
) -> (r: Result<Type, EvalError>)
    ensures
        native_post(
            op,
            *old(context),
            *final (context),
            deep_seq(args@),
            *old(ids),
            *final (ids),
            deep_seq(old(out)@),
            deep_seq(final (out)@),
            fuel as nat,
            r,
        ),
    decreases fuel, args@, 3int,
{
    match op {
        NativeOp::Def => crate::built_in::def_special(context, args, ids, out, fuel),
        NativeOp::Let => crate::built_in::let_special(context, args, ids, out, fuel),
        NativeOp::Fun => crate::built_in::fn_special(context, args, ids, out, fuel),
        NativeOp::Mac => crate::built_in::macro_special(context, args, ids, out, fuel),
        NativeOp::If => crate::built_in::if_special(context, args, ids, out, fuel),
        NativeOp::Plus => crate::built_in::add(context, args, ids, out, fuel),
        NativeOp::Minus => crate::built_in::sub(context, args, ids, out, fuel),
        NativeOp::Times => crate::built_in::mult(context, args, ids, out, fuel),
        NativeOp::Greater => crate::built_in::gt(context, args, ids, out, fuel),
        NativeOp::Quote => crate::built_in::quote(context, args, ids, out, fuel),
        NativeOp::MakeList => crate::built_in::list(context, args, ids, out, fuel),
        NativeOp::Car => crate::built_in::car(context, args, ids, out, fuel),
        NativeOp::Cdr => crate::built_in::cdr(context, args, ids, out, fuel),
        NativeOp::Push => crate::built_in::push(context, args, ids, out, fuel),
        NativeOp::Dbg => crate::built_in::dbg(context, args, ids, out, fuel),
        NativeOp::Prn => crate::built_in::prn(context, args, ids, out, fuel),
        NativeOp::IsList => crate::built_in::is_list(context, args, ids, out, fuel),
        NativeOp::Cons => crate::built_in::cons(context, args, ids, out, fuel),
        NativeOp::Apply => crate::built_in::apply(context, args, ids, out, fuel),
        NativeOp::Equal => crate::built_in::eq(context, args, ids, out, fuel),
        NativeOp::And => crate::built_in::and(context, args, ids, out, fuel),
        NativeOp::Or => crate::built_in::or(context, args, ids, out, fuel),
        NativeOp::Not => crate::built_in::not(context, args, ids, out, fuel),
    }
}

/// `(quote form)`: the first argument, unevaluated.
fn quote(
    context: &mut Context,
    args: &[Type],
    ids: &mut u64,
    out: &mut Vec<Type>,
    fuel: u64,
) -> (r: Result<Type, EvalError>)
    ensures
        native_post(
            NativeOp::Quote,
            *old(context),
            *final (context),
            deep_seq(args@),
            *old(ids),
            *final (ids),
            deep_seq(old(out)@),
            deep_seq(final (out)@),
            fuel as nat,
            r,
        ),
    decreases fuel, args@, 2int,
{
    if args.len() < 1 {
        return Err(EvalError::ArityMismatch);
    }
    Ok(args[0].duplicate())
}

/// `(is-list form)`: whether the first argument is a list literal at the
/// syntax level; the argument is not evaluated.
fn is_list(
    context: &mut Context,
    args: &[Type],
    ids: &mut u64,
    out: &mut Vec<Type>,
    fuel: u64,
) -> (r: Result<Type, EvalError>)
    ensures
        native_post(
            NativeOp::IsList,
            *old(context),
            *final (context),
            deep_seq(args@),
            *old(ids),
            *final (ids),
            deep_seq(old(out)@),
            deep_seq(final (out)@),
            fuel as nat,
            r,
        ),
    decreases fuel, args@, 2int,
{
    if args.len() < 1 {
        return Err(EvalError::ArityMismatch);
    }
    match &args[0] {
        Type::List(_) => Ok(Type::Bool(true)),
        _ => Ok(Type::Bool(false)),
    }
}

/// `(def name form)`: evaluates the form and binds the unevaluated name to
/// it in the caller's environment; the value is returned.
fn def_special(
    context: &mut Context,
    args: &[Type],
    ids: &mut u64,
    out: &mut Vec<Type>,
    fuel: u64,
) -> (r: Result<Type, EvalError>)
    ensures
        native_post(
            NativeOp::Def,
            *old(context),
            *final (context),
            deep_seq(args@),
            *old(ids),
            *final (ids),
            deep_seq(old(out)@),
            deep_seq(final (out)@),
            fuel as nat,
            r,
        ),
    decreases fuel, args@, 2int,
{
    if args.len() < 2 {
        return Err(EvalError::ArityMismatch);
    }
    let name = match &args[0] {
        Type::Symbol(s) => s,
        _ => {
            return Err(EvalError::TypeMismatch);
        },
    };
    let value = match args[1].eval(context, ids, out, fuel) {
        Ok(v) => v,
        Err(e) => {
            return Err(e);
        },
    };
    context.insert(name.clone(), value.duplicate());
    Ok(value)
}

/// `(if test then else)`: evaluates the test, which must be a boolean, and
/// then exactly one branch.
fn if_special(
    context: &mut Context,
    args: &[Type],
    ids: &mut u64,
    out: &mut Vec<Type>,
    fuel: u64,
) -> (r: Result<Type, EvalError>)
    ensures
        native_post(
            NativeOp::If,
            *old(context),
            *final (context),
            deep_seq(args@),
            *old(ids),
            *final (ids),
            deep_seq(old(out)@),
            deep_seq(final (out)@),
            fuel as nat,
            r,
        ),
    decreases fuel, args@, 2int,
{
    if args.len() < 3 {
        return Err(EvalError::ArityMismatch);
    }
    let test = match args[0].eval(context, ids, out, fuel) {
        Ok(v) => v,
        Err(e) => {
            return Err(e);
        },
    };
    match test {
        Type::Bool(true) => args[1].eval(context, ids, out, fuel),
        Type::Bool(false) => args[2].eval(context, ids, out, fuel),
        _ => Err(EvalError::TypeMismatch),
    }
}

/// `(prn form)`: evaluates the form, records the value in the
/// diagnostics log for the host to print, and returns it.
fn prn(
    context: &mut Context,
    args: &[Type],
    ids: &mut u64,
    out: &mut Vec<Type>,
    fuel: u64,
) -> (r: Result<Type, EvalError>)
    ensures
        native_post(
            NativeOp::Prn,
            *old(context),
            *final (context),
            deep_seq(args@),
            *old(ids),
            *final (ids),
            deep_seq(old(out)@),
            deep_seq(final (out)@),
            fuel as nat,
            r,
        ),
    decreases fuel, args@, 2int,
{
    if args.len() < 1 {
        return Err(EvalError::ArityMismatch);
    }
    let value = match args[0].eval(context, ids, out, fuel) {
        Ok(v) => v,
        Err(e) => {
            return Err(e);
        },
    };
    let ghost pre = deep_seq(out@);
    out.push(value.duplicate());
    proof {
        assert(deep_seq(out@) =~= pre.push(value.deep()));
    }
    Ok(value)
}

/// `(dbg form)`: as `prn`, but the unevaluated form is recorded before the
/// value.
fn dbg(
    context: &mut Context,
    args: &[Type],
    ids: &mut u64,
    out: &mut Vec<Type>,
    fuel: u64,
) -> (r: Result<Type, EvalError>)
    ensures
        native_post(
            NativeOp::Dbg,
            *old(context),
            *final (context),
            deep_seq(args@),
            *old(ids),
            *final (ids),
            deep_seq(old(out)@),
            deep_seq(final (out)@),
            fuel as nat,
            r,
        ),
    decreases fuel, args@, 2int,
{
    if args.len() < 1 {
        return Err(EvalError::ArityMismatch);
    }
    let value = match args[0].eval(context, ids, out, fuel) {
        Ok(v) => v,
        Err(e) => {
            return Err(e);
        },
    };
    let ghost pre = deep_seq(out@);
    out.push(args[0].duplicate());
    out.push(value.duplicate());
    proof {
        assert(deep_seq(out@) =~= pre.push(args@[0].deep()).push(value.deep()));
    }
    Ok(value)
}

/// Sums evaluated arguments with the seed 0; wraps modulo 2^32.
#[verifier::loop_isolation(false)]
fn sum_values(vals: &Vec<Type>) -> (r: Result<u32, EvalError>)
    ensures
        r == sum_from(deep_seq(vals@), 0),
{
    let ghost whole = deep_seq(vals@);
    let mut acc: u32 = 0;
    let mut i: usize = 0;
    proof {
        assert(whole.subrange(0, whole.len() as int) =~= whole);
    }
    while i < vals.len()
        invariant
            i <= vals@.len(),
            sum_from(whole, 0) == sum_from(whole.subrange(i as int, whole.len() as int), acc),
        decreases vals@.len() - i,
    {
        let ghost suffix = whole.subrange(i as int, whole.len() as int);
        proof {
            assert(suffix[0] == whole[i as int]);
            assert(suffix.drop_first() =~= whole.subrange(i + 1, whole.len() as int));
        }
        match &vals[i] {
            Type::Number(n) => {
                proof {
                    lemma_wrapping_add_u32(acc, *n);
                }
                acc = acc.wrapping_add(*n);
                i = i + 1;
            },
            _ => {
                return Err(EvalError::TypeMismatch);
            },
        }
    }
    proof {
        assert(whole.subrange(i as int, whole.len() as int) =~= Seq::<Val>::empty());
    }
    Ok(acc)
}

/// Multiplies evaluated arguments with the seed 1; wraps modulo 2^32.
#[verifier::loop_isolation(false)]
fn prod_values(vals: &Vec<Type>) -> (r: Result<u32, EvalError>)
    ensures
        r == prod_from(deep_seq(vals@), 1),
{
    let ghost whole = deep_seq(vals@);
    let mut acc: u32 = 1;
    let mut i: usize = 0;
    proof {
        assert(whole.subrange(0, whole.len() as int) =~= whole);
    }
    while i < vals.len()
        invariant
            i <= vals@.len(),
            prod_from(whole, 1) == prod_from(whole.subrange(i as int, whole.len() as int), acc),
        decreases vals@.len() - i,
    {
        let ghost suffix = whole.subrange(i as int, whole.len() as int);
        proof {
            assert(suffix[0] == whole[i as int]);
            assert(suffix.drop_first() =~= whole.subrange(i + 1, whole.len() as int));
        }
        match &vals[i] {
            Type::Number(n) => {
                proof {
                    lemma_wrapping_mul_u32(acc, *n);
                }
                acc = acc.wrapping_mul(*n);
                i = i + 1;
            },
            _ => {
                return Err(EvalError::TypeMismatch);
            },
        }
    }
    proof {
        assert(whole.subrange(i as int, whole.len() as int) =~= Seq::<Val>::empty());
    }
    Ok(acc)
}

/// Subtracts the evaluated arguments after the first from the first; wraps
/// modulo 2^32.
#[verifier::loop_isolation(false)]
fn sub_values(vals: &Vec<Type>, first: u32) -> (r: Result<u32, EvalError>)
    requires
        vals@.len() >= 1,
    ensures
        r == sub_from(deep_seq(vals@).drop_first(), first),
{
    let ghost whole = deep_seq(vals@).drop_first();
    let mut acc: u32 = first;
    let mut i: usize = 1;
    proof {
        assert(whole.subrange(0, whole.len() as int) =~= whole);
    }
    while i < vals.len()
        invariant
            1 <= i <= vals@.len(),
            sub_from(whole, first) == sub_from(whole.subrange(i - 1, whole.len() as int), acc),
        decreases vals@.len() - i,
    {
        let ghost suffix = whole.subrange(i - 1, whole.len() as int);
        proof {
            assert(suffix[0] == whole[i - 1]);
            assert(whole[i - 1] == deep_seq(vals@)[i as int]);
            assert(suffix.drop_first() =~= whole.subrange(i as int, whole.len() as int));
        }
        match &vals[i] {
            Type::Number(n) => {
                proof {
                    lemma_wrapping_sub_u32(acc, *n);
                }
                acc = acc.wrapping_sub(*n);
                i = i + 1;
            },
            _ => {
                return Err(EvalError::TypeMismatch);
            },
        }
    }
    proof {
        assert(whole.subrange(i - 1, whole.len() as int) =~= Seq::<Val>::empty());
    }
    Ok(acc)
}

/// `(+ forms...)`: the sum of the evaluated arguments, each a number; zero
/// arguments give 0.
fn add(
    context: &mut Context,
    args: &[Type],
    ids: &mut u64,
    out: &mut Vec<Type>,
    fuel: u64,
) -> (r: Result<Type, EvalError>)
    ensures
        native_post(
            NativeOp::Plus,
            *old(context),
            *final (context),
            deep_seq(args@),
            *old(ids),
            *final (ids),
            deep_seq(old(out)@),
            deep_seq(final (out)@),
            fuel as nat,
            r,
        ),
    decreases fuel, args@, 2int,
{
    let vals = match eval_forms(args, context, ids, out, fuel) {
        Ok(vs) => vs,
        Err(e) => {
            return Err(e);
        },
    };
    match crate::built_in::sum_values(&vals) {
        Ok(n) => Ok(Type::Number(n)),
        Err(e) => Err(e),
    }
}

/// `(* forms...)`: the product of the evaluated arguments; zero arguments
/// give 1.
fn mult(
    context: &mut Context,
    args: &[Type],
    ids: &mut u64,
    out: &mut Vec<Type>,
    fuel: u64,
) -> (r: Result<Type, EvalError>)
    ensures
        native_post(
            NativeOp::Times,
            *old(context),
            *final (context),
            deep_seq(args@),
            *old(ids),
            *final (ids),
            deep_seq(old(out)@),
            deep_seq(final (out)@),
            fuel as nat,
            r,
        ),
    decreases fuel, args@, 2int,
{
    let vals = match eval_forms(args, context, ids, out, fuel) {
        Ok(vs) => vs,
        Err(e) => {
            return Err(e);
        },
    };
    match crate::built_in::prod_values(&vals) {
        Ok(n) => Ok(Type::Number(n)),
        Err(e) => Err(e),
    }
}

/// `(- first rest...)`: the first evaluated argument minus each of the
/// rest; at least one argument is required.
fn sub(
    context: &mut Context,
    args: &[Type],
    ids: &mut u64,
    out: &mut Vec<Type>,
    fuel: u64,
) -> (r: Result<Type, EvalError>)
    ensures
        native_post(
            NativeOp::Minus,
            *old(context),
            *final (context),
            deep_seq(args@),
            *old(ids),
            *final (ids),
            deep_seq(old(out)@),
            deep_seq(final (out)@),
            fuel as nat,
            r,
        ),
    decreases fuel, args@, 2int,
{
    if args.len() < 1 {
        return Err(EvalError::ArityMismatch);
    }
    let vals = match eval_forms(args, context, ids, out, fuel) {
        Ok(vs) => vs,
        Err(e) => {
            return Err(e);
        },
    };
    proof {
        lemma_evals_len(
            deep_seq(args@),
            old(context).deep(),
            *old(ids),
            deep_seq(old(out)@),
            fuel as nat,
        );
    }
    let first = match &vals[0] {
        Type::Number(n) => *n,
        _ => {
            return Err(EvalError::TypeMismatch);
        },
    };
    match crate::built_in::sub_values(&vals, first) {
        Ok(n) => Ok(Type::Number(n)),
        Err(e) => Err(e),
    }
}

/// `(> a b)`: strictly-greater comparison of two evaluated numbers.
fn gt(
    context: &mut Context,
    args: &[Type],
    ids: &mut u64,
    out: &mut Vec<Type>,
    fuel: u64,
) -> (r: Result<Type, EvalError>)
    ensures
        native_post(
            NativeOp::Greater,
            *old(context),
            *final (context),
            deep_seq(args@),
            *old(ids),
            *final (ids),
            deep_seq(old(out)@),
            deep_seq(final (out)@),
            fuel as nat,
            r,
        ),
    decreases fuel, args@, 2int,
{
    if args.len() < 2 {
        return Err(EvalError::ArityMismatch);
    }
    let l = match args[0].eval(context, ids, out, fuel) {
        Ok(v) => v,
        Err(e) => {
            return Err(e);
        },
    };
    let rv = match args[1].eval(context, ids, out, fuel) {
        Ok(v) => v,
        Err(e) => {
            return Err(e);
        },
    };
    match (l, rv) {
        (Type::Number(a), Type::Number(b)) => Ok(Type::Bool(a > b)),
        _ => Err(EvalError::TypeMismatch),
    }
}

/// `(eq a b)`: structural equality of the two evaluated arguments.
fn eq(
    context: &mut Context,
    args: &[Type],
    ids: &mut u64,
    out: &mut Vec<Type>,
    fuel: u64,
) -> (r: Result<Type, EvalError>)
    ensures
        native_post(
            NativeOp::Equal,
            *old(context),
            *final (context),
            deep_seq(args@),
            *old(ids),
            *final (ids),
            deep_seq(old(out)@),
            deep_seq(final (out)@),
            fuel as nat,
            r,
        ),
    decreases fuel, args@, 2int,
{
    if args.len() < 2 {
        return Err(EvalError::ArityMismatch);
    }
    let l = match args[0].eval(context, ids, out, fuel) {
        Ok(v) => v,
        Err(e) => {
            return Err(e);
        },
    };
    let rv = match args[1].eval(context, ids, out, fuel) {
        Ok(v) => v,
        Err(e) => {
            return Err(e);
        },
    };
    Ok(Type::Bool(crate::lisp::value_eq(&l, &rv)))
}

/// `(and a b)`: conjunction of two evaluated booleans; both are always
/// evaluated, and a non-boolean argument yields false.
fn and(
    context: &mut Context,
    args: &[Type],
    ids: &mut u64,
    out: &mut Vec<Type>,
    fuel: u64,
) -> (r: Result<Type, EvalError>)
    ensures
        native_post(
            NativeOp::And,
            *old(context),
            *final (context),
            deep_seq(args@),
            *old(ids),
            *final (ids),
            deep_seq(old(out)@),
            deep_seq(final (out)@),
            fuel as nat,
            r,
        ),
    decreases fuel, args@, 2int,
{
    if args.len() < 2 {
        return Err(EvalError::ArityMismatch);
    }
    let l = match args[0].eval(context, ids, out, fuel) {
        Ok(v) => v,
        Err(e) => {
            return Err(e);
        },
    };
    let rv = match args[1].eval(context, ids, out, fuel) {
        Ok(v) => v,
        Err(e) => {
            return Err(e);
        },
    };
    match (l, rv) {
        (Type::Bool(a), Type::Bool(b)) => Ok(Type::Bool(a && b)),
        _ => Ok(Type::Bool(false)),
    }
}

/// `(or a b)`: disjunction of two evaluated booleans; both are always
/// evaluated, and a non-boolean argument yields false.
fn or(
    context: &mut Context,
    args: &[Type],
    ids: &mut u64,
    out: &mut Vec<Type>,
    fuel: u64,
) -> (r: Result<Type, EvalError>)
    ensures
        native_post(
            NativeOp::Or,
            *old(context),
            *final (context),
            deep_seq(args@),
            *old(ids),
            *final (ids),
            deep_seq(old(out)@),
            deep_seq(final (out)@),
            fuel as nat,
            r,
        ),
    decreases fuel, args@, 2int,
{
    if args.len() < 2 {
        return Err(EvalError::ArityMismatch);
    }
    let l = match args[0].eval(context, ids, out, fuel) {
        Ok(v) => v,
        Err(e) => {
            return Err(e);
        },
    };
    let rv = match args[1].eval(context, ids, out, fuel) {
        Ok(v) => v,
        Err(e) => {
            return Err(e);
        },
    };
    match (l, rv) {
        (Type::Bool(a), Type::Bool(b)) => Ok(Type::Bool(a || b)),
        _ => Ok(Type::Bool(false)),
    }
}

/// `(not a)`: negation of one evaluated boolean.
fn not(
    context: &mut Context,
    args: &[Type],
    ids: &mut u64,
    out: &mut Vec<Type>,
    fuel: u64,
) -> (r: Result<Type, EvalError>)
    ensures
        native_post(
            NativeOp::Not,
            *old(context),
            *final (context),
            deep_seq(args@),
            *old(ids),
            *final (ids),
            deep_seq(old(out)@),
            deep_seq(final (out)@),
            fuel as nat,
            r,
        ),
    decreases fuel, args@, 2int,
{
    if args.len() < 1 {
        return Err(EvalError::ArityMismatch);
    }
    let v = match args[0].eval(context, ids, out, fuel) {
        Ok(v) => v,
        Err(e) => {
            return Err(e);
        },
    };
    match v {
        Type::Bool(b) => Ok(Type::Bool(!b)),
        _ => Err(EvalError::TypeMismatch),
    }
}

/// `(list forms...)`: the evaluated arguments, collected into a list.
fn list(
    context: &mut Context,
    args: &[Type],
    ids: &mut u64,
    out: &mut Vec<Type>,
    fuel: u64,
) -> (r: Result<Type, EvalError>)
    ensures
        native_post(
            NativeOp::MakeList,
            *old(context),
            *final (context),
            deep_seq(args@),
            *old(ids),
            *final (ids),
            deep_seq(old(out)@),
            deep_seq(final (out)@),
            fuel as nat,
            r,
        ),
    decreases fuel, args@, 2int,
{
    match eval_forms(args, context, ids, out, fuel) {
        Ok(vs) => Ok(Type::List(vs)),
        Err(e) => Err(e),
    }
}

/// `(car l)`: the head of an evaluated list; no argument or an empty list
/// gives the empty list.
fn car(
    context: &mut Context,
    args: &[Type],
    ids: &mut u64,
    out: &mut Vec<Type>,
    fuel: u64,
) -> (r: Result<Type, EvalError>)
    ensures
        native_post(
            NativeOp::Car,
            *old(context),
            *final (context),
            deep_seq(args@),
            *old(ids),
            *final (ids),
            deep_seq(old(out)@),
            deep_seq(final (out)@),
            fuel as nat,
            r,
        ),
    decreases fuel, args@, 2int,
{
    if args.len() == 0 {
        return Ok(crate::lisp::empty_list());
    }
    let v = match args[0].eval(context, ids, out, fuel) {
        Ok(v) => v,
        Err(e) => {
            return Err(e);
        },
    };
    match v {
        Type::List(mut elems) => {
            if elems.len() == 0 {
                Ok(crate::lisp::empty_list())
            } else {
                Ok(elems.remove(0))
            }
        },
        _ => Err(EvalError::TypeMismatch),
    }
}

/// `(cdr l)`: the tail of an evaluated list; no argument or an empty list
/// gives the empty list.
fn cdr(
    context: &mut Context,
    args: &[Type],
    ids: &mut u64,
    out: &mut Vec<Type>,
    fuel: u64,
) -> (r: Result<Type, EvalError>)
    ensures
        native_post(
            NativeOp::Cdr,
            *old(context),
            *final (context),
            deep_seq(args@),
            *old(ids),
            *final (ids),
            deep_seq(old(out)@),
            deep_seq(final (out)@),
            fuel as nat,
            r,
        ),
    decreases fuel, args@, 2int,
{
    if args.len() == 0 {
        return Ok(crate::lisp::empty_list());
    }
    let v = match args[0].eval(context, ids, out, fuel) {
        Ok(v) => v,
        Err(e) => {
            return Err(e);
        },
    };
    match v {
        Type::List(mut elems) => {
            if elems.len() == 0 {
                Ok(crate::lisp::empty_list())
            } else {
                let ghost pre = deep_seq(elems@);
                elems.remove(0);
                proof {
                    assert(deep_seq(elems@) =~= pre.drop_first());
                }
                Ok(Type::List(elems))
            }
        },
        _ => Err(EvalError::TypeMismatch),
    }
}

/// `(cons v l)`: the evaluated value prepended to the evaluated list.
fn cons(
    context: &mut Context,
    args: &[Type],
    ids: &mut u64,
    out: &mut Vec<Type>,
    fuel: u64,
) -> (r: Result<Type, EvalError>)
    ensures
        native_post(
            NativeOp::Cons,
            *old(context),
            *final (context),
            deep_seq(args@),
            *old(ids),
            *final (ids),
            deep_seq(old(out)@),
            deep_seq(final (out)@),
            fuel as nat,
            r,
        ),
    decreases fuel, args@, 2int,
{
    if args.len() < 2 {
        return Err(EvalError::ArityMismatch);
    }
    let v0 = match args[0].eval(context, ids, out, fuel) {
        Ok(v) => v,
        Err(e) => {
            return Err(e);
        },
    };
    let v1 = match args[1].eval(context, ids, out, fuel) {
        Ok(v) => v,
        Err(e) => {
            return Err(e);
        },
    };
    match v1 {
        Type::List(mut elems) => {
            let ghost pre = deep_seq(elems@);
            elems.insert(0, v0);
            proof {
                assert(deep_seq(elems@) =~= seq![deep_seq(elems@)[0]] + pre);
            }
            Ok(Type::List(elems))
        },
        _ => Err(EvalError::TypeMismatch),
    }
}

/// `(push v l)`: the evaluated value appended to the evaluated list.
fn push(
    context: &mut Context,
    args: &[Type],
    ids: &mut u64,
    out: &mut Vec<Type>,
    fuel: u64,
) -> (r: Result<Type, EvalError>)
    ensures
        native_post(
            NativeOp::Push,
            *old(context),
            *final (context),
            deep_seq(args@),
            *old(ids),
            *final (ids),
            deep_seq(old(out)@),
            deep_seq(final (out)@),
            fuel as nat,
            r,
        ),
    decreases fuel, args@, 2int,
{
    if args.len() < 2 {
        return Err(EvalError::ArityMismatch);
    }
    let v0 = match args[0].eval(context, ids, out, fuel) {
        Ok(v) => v,
        Err(e) => {
            return Err(e);
        },
    };
    let v1 = match args[1].eval(context, ids, out, fuel) {
        Ok(v) => v,
        Err(e) => {
            return Err(e);
        },
    };
    match v1 {
        Type::List(mut elems) => {
            let ghost pre = deep_seq(elems@);
            elems.push(v0);
            proof {
                assert(deep_seq(elems@) =~= pre.push(deep_seq(elems@).last()));
            }
            Ok(Type::List(elems))
        },
        _ => Err(EvalError::TypeMismatch),
    }
}

/// `(apply f l)`: calls the evaluated function with the elements of the
/// evaluated list as its arguments; the list is evaluated first.
fn apply(
    context: &mut Context,
    args: &[Type],
    ids: &mut u64,
    out: &mut Vec<Type>,
    fuel: u64,
) -> (r: Result<Type, EvalError>)
    ensures
        native_post(
            NativeOp::Apply,
            *old(context),
            *final (context),
            deep_seq(args@),
            *old(ids),
            *final (ids),
            deep_seq(old(out)@),
            deep_seq(final (out)@),
            fuel as nat,
            r,
        ),
    decreases fuel, args@, 2int,
{
    if args.len() < 2 {
        return Err(EvalError::ArityMismatch);
    }
    let v1 = match args[1].eval(context, ids, out, fuel) {
        Ok(v) => v,
        Err(e) => {
            return Err(e);
        },
    };
    let elems = match v1 {
        Type::List(elems) => elems,
        _ => {
            return Err(EvalError::TypeMismatch);
        },
    };
    let v0 = match args[0].eval(context, ids, out, fuel) {
        Ok(v) => v,
        Err(e) => {
            return Err(e);
        },
    };
    match v0 {
        Type::Function(f) => {
            if fuel == 0 {
                Err(EvalError::OutOfFuel)
            } else {
                f.eval(context, elems.as_slice(), ids, out, fuel - 1)
            }
        },
        _ => Err(EvalError::TypeMismatch),
    }
}

/// Whether a parameter name ends in the literal `...`.
fn ends_with_dots(s: &String) -> (r: bool)
    ensures
        r == is_vararg_name(s@),
{
    let cs = crate::lexer::str_chars(s.as_str());
    if cs.len() < 3 {
        return false;
    }
    let n = cs.len();
    let r = cs[n - 3] == '.' && cs[n - 2] == '.' && cs[n - 1] == '.';
    proof {
        let t = s@.subrange(s@.len() - 3, s@.len() as int);
        assert(t.len() == 3);
        assert(t[0] == s@[s@.len() - 3]);
        assert(t[1] == s@[s@.len() - 2]);
        assert(t[2] == s@[s@.len() - 1]);
        if r {
            assert(t =~= seq!['.', '.', '.']);
        } else {
            assert(seq!['.', '.', '.'][0] == '.');
            assert(seq!['.', '.', '.'][1] == '.');
            assert(seq!['.', '.', '.'][2] == '.');
        }
    }
    r
}

/// The parameter name with the trailing `...` stripped.
fn strip_dots_string(s: &String) -> (r: String)
    requires
        s@.len() >= 3,
    ensures
        r@ == strip_dots(s@),
{
    let mut cs = crate::lexer::str_chars(s.as_str());
    let n = cs.len() - 3;
    cs.truncate(n);
    proof {
        assert(cs@ =~= s@.subrange(0, s@.len() - 3));
    }
    crate::lexer::chars_to_string(&cs)
}

/// Constructs a user-defined function or macro from a name, a parameter
/// list and body forms, capturing the defining environment by snapshot.
#[verifier::loop_isolation(false)]
fn fn_generic(context: &Context, args: &[Type], ids: &mut u64, is_macro: bool) -> (r: Result<
    Type,
    EvalError,
>)
    ensures
        (match r {
            Ok(v) => make_fn_s(deep_seq(args@), context.deep(), *old(ids), is_macro) == Ok::<
                (Val, u64),
                EvalError,
            >((v.deep(), *final (ids))),
            Err(e) => make_fn_s(deep_seq(args@), context.deep(), *old(ids), is_macro) == Err::<
                (Val, u64),
                EvalError,
            >(e) && *final (ids) == *old(ids),
        }),
{
    if args.len() < 2 {
        return Err(EvalError::ArityMismatch);
    }
    let name = match &args[0] {
        Type::Symbol(s) => s,
        _ => {
            return Err(EvalError::TypeMismatch);
        },
    };
    let params = match &args[1] {
        Type::List(ps) => ps,
        _ => {
            return Err(EvalError::TypeMismatch);
        },
    };
    let ghost pdeep = deep_seq(params@);
    let mut names: Vec<String> = Vec::new();
    let mut i: usize = 0;
    while i < params.len()
        invariant
            i <= params@.len(),
            names@.len() == i,
            forall|j: int| 0 <= j < i ==> pdeep[j] is Symbol,
            forall|j: int| 0 <= j < i ==> #[trigger] names@[j]@ == sym_name(pdeep[j]),
        decreases params@.len() - i,
    {
        match &params[i] {
            Type::Symbol(s) => {
                names.push(s.clone());
            },
            _ => {
                proof {
                    assert(pdeep[i as int] == params@[i as int].deep());
                    assert(!(pdeep[i as int] is Symbol));
                }
                return Err(EvalError::TypeMismatch);
            },
        }
        i = i + 1;
    }
    proof {
        assert(crate::semantics::all_symbols(pdeep));
        assert(names_of(names@) =~= pdeep.map_values(|p: Val| sym_name(p)));
    }
    let mut vararg: Option<String> = None;
    if names.len() > 0 {
        let is_va = crate::built_in::ends_with_dots(&names[names.len() - 1]);
        if is_va {
            let lastn = match names.pop() {
                Some(s) => s,
                None => {
                    return Err(EvalError::ArityMismatch);
                },
            };
            vararg = Some(crate::built_in::strip_dots_string(&lastn));
        }
    }
    if *ids == u64::MAX {
        return Err(EvalError::OutOfFuel);
    }
    let fid = *ids;
    *ids = fid + 1;
    let body_slice = vstd::slice::slice_subrange(args, 2, args.len());
    let body = crate::lisp::dup_slice(body_slice);
    proof {
        lemma_deep_seq_subrange(args@, 2, args@.len() as int);
    }
    let f = Function {
        is_macro,
        context: context.duplicate(),
        name: name.clone(),
        args: names,
        vararg,
        body,
        id: fid,
    };
    let r = Type::Function(FunctionType::UserDefined(f));
    proof {
        let spec_names = pdeep.map_values(|p: Val| sym_name(p));
        let made = make_fn_s(deep_seq(args@), context.deep(), fid, is_macro);
        assert(crate::semantics::all_symbols(pdeep));
        assert(made is Ok);
        let el = r->Function_0->UserDefined_0;
        let has_va = spec_names.len() > 0 && is_vararg_name(spec_names.last());
        if has_va {
            assert(names_of(el.args@) =~= spec_names.drop_last());
        } else {
            assert(names_of(el.args@) =~= spec_names);
        }
        let lam = crate::semantics::Lambda {
            is_macro,
            context: context.deep(),
            name: deep_seq(args@)[0]->Symbol_0,
            params: if has_va {
                spec_names.drop_last()
            } else {
                spec_names
            },
            vararg: if has_va {
                Option::Some(strip_dots(spec_names.last()))
            } else {
                Option::None
            },
            body: deep_seq(args@).subrange(2, deep_seq(args@).len() as int),
            id: fid,
        };
        assert(made == Ok::<(Val, u64), EvalError>(
            (Val::Function(FnVal::UserDefined(lam)), (fid + 1) as u64),
        ));
        assert(el.deep() =~= lam);
    }
    Ok(r)
}

/// `(fn name (params...) body...)`: a user-defined function.
fn fn_special(
    context: &mut Context,
    args: &[Type],
    ids: &mut u64,
    out: &mut Vec<Type>,
    fuel: u64,
) -> (r: Result<Type, EvalError>)
    ensures
        native_post(
            NativeOp::Fun,
            *old(context),
            *final (context),
            deep_seq(args@),
            *old(ids),
            *final (ids),
            deep_seq(old(out)@),
            deep_seq(final (out)@),
            fuel as nat,
            r,
        ),
    decreases fuel, args@, 2int,
{
    crate::built_in::fn_generic(context, args, ids, false)
}

/// `(macro name (params...) body...)`: a user-defined macro.
fn macro_special(
    context: &mut Context,
    args: &[Type],
    ids: &mut u64,
    out: &mut Vec<Type>,
    fuel: u64,
) -> (r: Result<Type, EvalError>)
    ensures
        native_post(
            NativeOp::Mac,
            *old(context),
            *final (context),
            deep_seq(args@),
            *old(ids),
            *final (ids),
            deep_seq(old(out)@),
            deep_seq(final (out)@),
            fuel as nat,
            r,
        ),
    decreases fuel, args@, 2int,
{
    crate::built_in::fn_generic(context, args, ids, true)
}

/// `(let ((n1 e1) (n2 e2) ...) body...)`: evaluates the bindings in order
/// into a copy of the caller's environment, so a later binding sees the
/// earlier ones, then the body forms; the last body form's value is
/// returned and the caller's own bindings are untouched.
#[verifier::loop_isolation(false)]
fn let_special(
    context: &mut Context,
    args: &[Type],
    ids: &mut u64,
    out: &mut Vec<Type>,
    fuel: u64,
) -> (r: Result<Type, EvalError>)
    ensures
        native_post(
            NativeOp::Let,
            *old(context),
            *final (context),
            deep_seq(args@),
            *old(ids),
            *final (ids),
            deep_seq(old(out)@),
            deep_seq(final (out)@),
            fuel as nat,
            r,
        ),
    decreases fuel, args@, 2int,
{
    if args.len() < 2 {
        return Err(EvalError::ArityMismatch);
    }
    let bindings = match &args[0] {
        Type::List(bs) => bs,
        _ => {
            return Err(EvalError::TypeMismatch);
        },
    };
    let ghost bdeep = deep_seq(bindings@);
    let mut scope = context.duplicate();
    let mut i: usize = 0;
    proof {
        assert(bdeep.subrange(0, bdeep.len() as int) =~= bdeep);
    }
    while i < bindings.len()
        invariant
            i <= bindings@.len(),
            bind_lets_s(
                bdeep,
                old(context).deep(),
                *old(ids),
                deep_seq(old(out)@),
                fuel as nat,
            ) == bind_lets_s(
                bdeep.subrange(i as int, bdeep.len() as int),
                scope.deep(),
                *ids,
                deep_seq(out@),
                fuel as nat,
            ),
        decreases bindings@.len() - i,
    {
        let ghost suffix = bdeep.subrange(i as int, bdeep.len() as int);
        proof {
            assert(suffix[0] == bdeep[i as int]);
            assert(suffix.drop_first() =~= bdeep.subrange(i + 1, bdeep.len() as int));
            assert(decreases_to!(args@ => args@[0]));
            assert(decreases_to!(args@[0] => args@[0]->List_0));
            assert(decreases_to!(args@[0]->List_0@ => args@[0]->List_0@[i as int]));
        }
        let ghost scope_pre = scope.deep();
        let ghost ids_pre = *ids;
        let ghost out_pre = deep_seq(out@);
        match &bindings[i] {
            Type::List(pair) => {
                proof {
                    assert(bdeep[i as int] == bindings@[i as int].deep());
                    assert(bdeep[i as int] is List);
                    assert(bdeep[i as int]->List_0 == deep_seq(pair@));
                    assert(deep_seq(pair@).len() == pair@.len());
                }
                if pair.len() < 2 {
                    return Err(EvalError::ArityMismatch);
                }
                let name = match &pair[0] {
                    Type::Symbol(s) => s,
                    _ => {
                        return Err(EvalError::TypeMismatch);
                    },
                };
                proof {
                    let b = args@[0]->List_0@[i as int];
                    assert(decreases_to!(b => b->List_0));
                    assert(decreases_to!(b->List_0@ => b->List_0@[1]));
                }
                let value = match pair[1].eval(&mut scope, ids, out, fuel) {
                    Ok(v) => v,
                    Err(e) => {
                        return Err(e);
                    },
                };
                scope.insert(name.clone(), value);
                proof {
                    let b = deep_seq(pair@);
                    let o = crate::semantics::eval_s(b[1], scope_pre, ids_pre, out_pre, fuel as nat);
                    assert(b[1] == pair@[1].deep());
                    assert(o.res is Ok);
                    assert(scope.deep() == o.env.push((b[0]->Symbol_0, o.res->Ok_0)));
                    assert(bind_lets_s(suffix, scope_pre, ids_pre, out_pre, fuel as nat)
                        == bind_lets_s(
                        suffix.drop_first(),
                        scope.deep(),
                        *ids,
                        deep_seq(out@),
                        fuel as nat,
                    ));
                }
            },
            _ => {
                proof {
                    assert(bdeep[i as int] == bindings@[i as int].deep());
                    assert(!(bdeep[i as int] is List));
                    assert(bind_lets_s(suffix, scope_pre, ids_pre, out_pre, fuel as nat)
                        == bind_lets_s(
                        suffix.drop_first(),
                        scope.deep(),
                        *ids,
                        deep_seq(out@),
                        fuel as nat,
                    ));
                }
            },
        }
        i = i + 1;
    }
    proof {
        assert(bdeep.subrange(i as int, bdeep.len() as int) =~= Seq::<Val>::empty());
    }
    let body_slice = vstd::slice::slice_subrange(args, 1, args.len());
    proof {
        lemma_deep_seq_subrange(args@, 1, args@.len() as int);
    }
    let mut results = match eval_forms(body_slice, &mut scope, ids, out, fuel) {
        Ok(vs) => vs,
        Err(e) => {
            return Err(e);
        },
    };
    match results.pop() {
        Some(v) => Ok(v),
        None => Err(EvalError::ArityMismatch),
    }
}

/// The environment that `init_context` builds: every built-in under its
/// name.
pub open spec fn builtin_pair(name: Seq<char>, op: NativeOp) -> (Seq<char>, Val) {
    (name, Val::Function(FnVal::Native(name, op)))
}

pub open spec fn builtins_env() -> EnvS {
    Seq::empty()
        .push(("true"@, Val::Bool(true)))
        .push(("false"@, Val::Bool(false)))
        .push(builtin_pair("def"@, NativeOp::Def))
        .push(builtin_pair("let"@, NativeOp::Let))
        .push(builtin_pair("fn"@, NativeOp::Fun))
        .push(builtin_pair("if"@, NativeOp::If))
        .push(builtin_pair("macro"@, NativeOp::Mac))
        .push(builtin_pair("*"@, NativeOp::Times))
        .push(builtin_pair("+"@, NativeOp::Plus))
        .push(builtin_pair("-"@, NativeOp::Minus))
        .push(builtin_pair(">"@, NativeOp::Greater))
        .push(builtin_pair("quote"@, NativeOp::Quote))
        .push(builtin_pair("list"@, NativeOp::MakeList))
        .push(builtin_pair("car"@, NativeOp::Car))
        .push(builtin_pair("cdr"@, NativeOp::Cdr))
        .push(builtin_pair("push"@, NativeOp::Push))
        .push(builtin_pair("dbg"@, NativeOp::Dbg))
        .push(builtin_pair("prn"@, NativeOp::Prn))
        .push(builtin_pair("is-list"@, NativeOp::IsList))
        .push(builtin_pair("cons"@, NativeOp::Cons))
        .push(builtin_pair("apply"@, NativeOp::Apply))
        .push(builtin_pair("eq"@, NativeOp::Equal))
        .push(builtin_pair("and"@, NativeOp::And))
        .push(builtin_pair("or"@, NativeOp::Or))
        .push(builtin_pair("not"@, NativeOp::Not))
}

/// Installs one built-in under its name.
pub fn add_to_context(name: &str, context: &mut Context, op: NativeOp)
    ensures
        final (context).deep() == old(context).deep().push(
            (name@, Val::Function(FnVal::Native(name@, op))),
        ),
        final (context).counter() == old(context).counter(),
        final (context).log() == old(context).log(),
{
    let owned = name.to_owned();
    let key = owned.clone();
    context.insert(key, Type::Function(FunctionType::Native(owned, op)));
}

/// The environment a fresh evaluation starts from: the boolean literals
/// bound to themselves, and all built-ins bound under their names.
pub fn init_context() -> (r: Context)
    ensures
        r.deep() == builtins_env(),
        r.counter() == 0,
        r.log() == Seq::<Val>::empty(),
{
    let mut context = Context::new();
    context.insert("true".to_owned(), Type::Bool(true));
    context.insert("false".to_owned(), Type::Bool(false));
    crate::built_in::add_to_context("def", &mut context, NativeOp::Def);
    crate::built_in::add_to_context("let", &mut context, NativeOp::Let);
    crate::built_in::add_to_context("fn", &mut context, NativeOp::Fun);
    crate::built_in::add_to_context("if", &mut context, NativeOp::If);
    crate::built_in::add_to_context("macro", &mut context, NativeOp::Mac);
    crate::built_in::add_to_context("*", &mut context, NativeOp::Times);
    crate::built_in::add_to_context("+", &mut context, NativeOp::Plus);
    crate::built_in::add_to_context("-", &mut context, NativeOp::Minus);
    crate::built_in::add_to_context(">", &mut context, NativeOp::Greater);
    crate::built_in::add_to_context("quote", &mut context, NativeOp::Quote);
    crate::built_in::add_to_context("list", &mut context, NativeOp::MakeList);
    crate::built_in::add_to_context("car", &mut context, NativeOp::Car);
    crate::built_in::add_to_context("cdr", &mut context, NativeOp::Cdr);
    crate::built_in::add_to_context("push", &mut context, NativeOp::Push);
    crate::built_in::add_to_context("dbg", &mut context, NativeOp::Dbg);
    crate::built_in::add_to_context("prn", &mut context, NativeOp::Prn);
    crate::built_in::add_to_context("is-list", &mut context, NativeOp::IsList);
    crate::built_in::add_to_context("cons", &mut context, NativeOp::Cons);
    crate::built_in::add_to_context("apply", &mut context, NativeOp::Apply);
    crate::built_in::add_to_context("eq", &mut context, NativeOp::Equal);
    crate::built_in::add_to_context("and", &mut context, NativeOp::And);
    crate::built_in::add_to_context("or", &mut context, NativeOp::Or);
    crate::built_in::add_to_context("not", &mut context, NativeOp::Not);
    proof {
        assert(context.deep() =~= builtins_env());
    }
    context
}

} // verus!
