//! The laws of the language, proved against the spec interpreter.
//!
//! Each law is stated over the ghost model: forms built from ghost values,
//! evaluated by `eval_s` in any environment that binds the built-ins the
//! form mentions, at any identity counter and diagnostics log. The lemma
//! `lemma_builtins_bind` shows that the startup environment binds every
//! built-in, so every law applies to a fresh evaluation.

use vstd::prelude::*;
use crate::built_in::builtins_env;
use crate::lexer::{LexState, Tok, digit_val, extend_number, is_digit_char, is_space_char, lex, lex_run};
use crate::lisp::eval_source_s;
use crate::parser::{parse_run, parse_tokens, push_onto_top};
use crate::semantics::{
    EnvS,
    EvalError,
    FnVal,
    Lambda,
    NativeOp,
    SOut,
    SOutSeq,
    Val,
    apply_s,
    bind_lets_s,
    eval_s,
    evals_s,
    lookup_s,
    native_s,
    prod_from,
    sum_from,
    w_add,
    w_mul,
};

verus! {

/// The built-in that `name` is bound to in `env`, if any.
pub open spec fn native_binding(env: EnvS, name: Seq<char>) -> Option<NativeOp> {
    match lookup_s(env, name) {
        Option::Some(Val::Function(FnVal::Native(_, op))) => Option::Some(op),
        _ => Option::None,
    }
}

/// Binding one more name leaves every other lookup unchanged.
pub proof fn lemma_lookup_push(env: EnvS, p: (Seq<char>, Val))
    ensures
        forall|name: Seq<char>| #[trigger] lookup_s(env.push(p), name) == (if p.0 == name {
            Option::Some(p.1)
        } else {
            lookup_s(env, name)
        }),
{
    assert forall|name: Seq<char>| #[trigger] lookup_s(env.push(p), name) == (if p.0 == name {
        Option::Some(p.1)
    } else {
        lookup_s(env, name)
    }) by {
        let e2 = env.push(p);
        assert(e2.last() == p);
        assert(e2.drop_last() =~= env);
    }
}

/// The startup environment binds every built-in under its name.
pub proof fn lemma_builtins_bind()
    ensures
        native_binding(builtins_env(), "def"@) == Option::Some(NativeOp::Def),
        native_binding(builtins_env(), "let"@) == Option::Some(NativeOp::Let),
        native_binding(builtins_env(), "fn"@) == Option::Some(NativeOp::Fun),
        native_binding(builtins_env(), "if"@) == Option::Some(NativeOp::If),
        native_binding(builtins_env(), "macro"@) == Option::Some(NativeOp::Mac),
        native_binding(builtins_env(), "*"@) == Option::Some(NativeOp::Times),
        native_binding(builtins_env(), "+"@) == Option::Some(NativeOp::Plus),
        native_binding(builtins_env(), "-"@) == Option::Some(NativeOp::Minus),
        native_binding(builtins_env(), ">"@) == Option::Some(NativeOp::Greater),
        native_binding(builtins_env(), "quote"@) == Option::Some(NativeOp::Quote),
        native_binding(builtins_env(), "list"@) == Option::Some(NativeOp::MakeList),
        native_binding(builtins_env(), "car"@) == Option::Some(NativeOp::Car),
        native_binding(builtins_env(), "cdr"@) == Option::Some(NativeOp::Cdr),
        native_binding(builtins_env(), "push"@) == Option::Some(NativeOp::Push),
        native_binding(builtins_env(), "cons"@) == Option::Some(NativeOp::Cons),
        native_binding(builtins_env(), "apply"@) == Option::Some(NativeOp::Apply),
        native_binding(builtins_env(), "eq"@) == Option::Some(NativeOp::Equal),
        native_binding(builtins_env(), "and"@) == Option::Some(NativeOp::And),
        native_binding(builtins_env(), "or"@) == Option::Some(NativeOp::Or),
        native_binding(builtins_env(), "not"@) == Option::Some(NativeOp::Not),
        native_binding(builtins_env(), "is-list"@) == Option::Some(NativeOp::IsList),
        native_binding(builtins_env(), "prn"@) == Option::Some(NativeOp::Prn),
        native_binding(builtins_env(), "dbg"@) == Option::Some(NativeOp::Dbg),
{
    broadcast use vstd::string::group_string_axioms;

    reveal_strlit("def");
    reveal_strlit("let");
    reveal_strlit("fn");
    reveal_strlit("if");
    reveal_strlit("macro");
    reveal_strlit("*");
    reveal_strlit("+");
    reveal_strlit("-");
    reveal_strlit(">");
    reveal_strlit("quote");
    reveal_strlit("list");
    reveal_strlit("car");
    reveal_strlit("cdr");
    reveal_strlit("push");
    reveal_strlit("dbg");
    reveal_strlit("prn");
    reveal_strlit("is-list");
    reveal_strlit("cons");
    reveal_strlit("apply");
    reveal_strlit("eq");
    reveal_strlit("and");
    reveal_strlit("or");
    reveal_strlit("not");
    assert(("*"@).len() == 1 && ("*"@)[0] == '*');
    assert(("+"@).len() == 1 && ("+"@)[0] == '+');
    assert(("-"@).len() == 1 && ("-"@)[0] == '-');
    assert((">"@).len() == 1 && (">"@)[0] == '>');
    assert("def"@ =~= seq!['d', 'e', 'f']);
    assert("let"@ =~= seq!['l', 'e', 't']);
    assert("fn"@ =~= seq!['f', 'n']);
    assert("if"@ =~= seq!['i', 'f']);
    assert("macro"@ =~= seq!['m', 'a', 'c', 'r', 'o']);
    assert("*"@ =~= seq!['*']);
    assert("+"@ =~= seq!['+']);
    assert("-"@ =~= seq!['-']);
    assert(">"@ =~= seq!['>']);
    assert("quote"@ =~= seq!['q', 'u', 'o', 't', 'e']);
    assert("list"@ =~= seq!['l', 'i', 's', 't']);
    assert("car"@ =~= seq!['c', 'a', 'r']);
    assert("cdr"@ =~= seq!['c', 'd', 'r']);
    assert("push"@ =~= seq!['p', 'u', 's', 'h']);
    assert("dbg"@ =~= seq!['d', 'b', 'g']);
    assert("prn"@ =~= seq!['p', 'r', 'n']);
    assert("is-list"@ =~= seq!['i', 's', '-', 'l', 'i', 's', 't']);
    assert("cons"@ =~= seq!['c', 'o', 'n', 's']);
    assert("apply"@ =~= seq!['a', 'p', 'p', 'l', 'y']);
    assert("eq"@ =~= seq!['e', 'q']);
    assert("and"@ =~= seq!['a', 'n', 'd']);
    assert("or"@ =~= seq!['o', 'r']);
    assert("not"@ =~= seq!['n', 'o', 't']);
    reveal_strlit("true");
    reveal_strlit("false");
    let b0 = Seq::<(Seq<char>, Val)>::empty();
    let b1 = b0.push(("true"@, Val::Bool(true)));
    lemma_lookup_push(b0, ("true"@, Val::Bool(true)));
    let e0 = b1.push(("false"@, Val::Bool(false)));
    lemma_lookup_push(b1, ("false"@, Val::Bool(false)));
    let e1 = e0.push(crate::built_in::builtin_pair("def"@, NativeOp::Def));
    lemma_lookup_push(e0, crate::built_in::builtin_pair("def"@, NativeOp::Def));
    let e2 = e1.push(crate::built_in::builtin_pair("let"@, NativeOp::Let));
    lemma_lookup_push(e1, crate::built_in::builtin_pair("let"@, NativeOp::Let));
    let e3 = e2.push(crate::built_in::builtin_pair("fn"@, NativeOp::Fun));
    lemma_lookup_push(e2, crate::built_in::builtin_pair("fn"@, NativeOp::Fun));
    let e4 = e3.push(crate::built_in::builtin_pair("if"@, NativeOp::If));
    lemma_lookup_push(e3, crate::built_in::builtin_pair("if"@, NativeOp::If));
    let e5 = e4.push(crate::built_in::builtin_pair("macro"@, NativeOp::Mac));
    lemma_lookup_push(e4, crate::built_in::builtin_pair("macro"@, NativeOp::Mac));
    let e6 = e5.push(crate::built_in::builtin_pair("*"@, NativeOp::Times));
    lemma_lookup_push(e5, crate::built_in::builtin_pair("*"@, NativeOp::Times));
    let e7 = e6.push(crate::built_in::builtin_pair("+"@, NativeOp::Plus));
    lemma_lookup_push(e6, crate::built_in::builtin_pair("+"@, NativeOp::Plus));
    let e8 = e7.push(crate::built_in::builtin_pair("-"@, NativeOp::Minus));
    lemma_lookup_push(e7, crate::built_in::builtin_pair("-"@, NativeOp::Minus));
    let e9 = e8.push(crate::built_in::builtin_pair(">"@, NativeOp::Greater));
    lemma_lookup_push(e8, crate::built_in::builtin_pair(">"@, NativeOp::Greater));
    let e10 = e9.push(crate::built_in::builtin_pair("quote"@, NativeOp::Quote));
    lemma_lookup_push(e9, crate::built_in::builtin_pair("quote"@, NativeOp::Quote));
    let e11 = e10.push(crate::built_in::builtin_pair("list"@, NativeOp::MakeList));
    lemma_lookup_push(e10, crate::built_in::builtin_pair("list"@, NativeOp::MakeList));
    let e12 = e11.push(crate::built_in::builtin_pair("car"@, NativeOp::Car));
    lemma_lookup_push(e11, crate::built_in::builtin_pair("car"@, NativeOp::Car));
    let e13 = e12.push(crate::built_in::builtin_pair("cdr"@, NativeOp::Cdr));
    lemma_lookup_push(e12, crate::built_in::builtin_pair("cdr"@, NativeOp::Cdr));
    let e14 = e13.push(crate::built_in::builtin_pair("push"@, NativeOp::Push));
    lemma_lookup_push(e13, crate::built_in::builtin_pair("push"@, NativeOp::Push));
    let e15 = e14.push(crate::built_in::builtin_pair("dbg"@, NativeOp::Dbg));
    lemma_lookup_push(e14, crate::built_in::builtin_pair("dbg"@, NativeOp::Dbg));
    let e16 = e15.push(crate::built_in::builtin_pair("prn"@, NativeOp::Prn));
    lemma_lookup_push(e15, crate::built_in::builtin_pair("prn"@, NativeOp::Prn));
    let e17 = e16.push(crate::built_in::builtin_pair("is-list"@, NativeOp::IsList));
    lemma_lookup_push(e16, crate::built_in::builtin_pair("is-list"@, NativeOp::IsList));
    let e18 = e17.push(crate::built_in::builtin_pair("cons"@, NativeOp::Cons));
    lemma_lookup_push(e17, crate::built_in::builtin_pair("cons"@, NativeOp::Cons));
    let e19 = e18.push(crate::built_in::builtin_pair("apply"@, NativeOp::Apply));
    lemma_lookup_push(e18, crate::built_in::builtin_pair("apply"@, NativeOp::Apply));
    let e20 = e19.push(crate::built_in::builtin_pair("eq"@, NativeOp::Equal));
    lemma_lookup_push(e19, crate::built_in::builtin_pair("eq"@, NativeOp::Equal));
    let e21 = e20.push(crate::built_in::builtin_pair("and"@, NativeOp::And));
    lemma_lookup_push(e20, crate::built_in::builtin_pair("and"@, NativeOp::And));
    let e22 = e21.push(crate::built_in::builtin_pair("or"@, NativeOp::Or));
    lemma_lookup_push(e21, crate::built_in::builtin_pair("or"@, NativeOp::Or));
    let e23 = e22.push(crate::built_in::builtin_pair("not"@, NativeOp::Not));
    lemma_lookup_push(e22, crate::built_in::builtin_pair("not"@, NativeOp::Not));
    assert(builtins_env() == e23);
}

/// `(quote v)` returns `v` itself, unevaluated, for every value `v` the
/// parser can produce, and leaves the environment, the counter and the
/// log unchanged.
pub proof fn lemma_quote_identity(v: Val, env: EnvS, ctr: u64, outl: Seq<Val>, fuel: nat)
    requires
        native_binding(env, "quote"@) == Option::Some(NativeOp::Quote),
    ensures
        eval_s(Val::List(seq![Val::Symbol("quote"@), v]), env, ctr, outl, fuel) == (SOut {
            env,
            ctr,
            out: outl,
            res: Ok::<Val, EvalError>(v),
        }),
{
    let elems = seq![Val::Symbol("quote"@), v];
    assert(elems.len() == 2);
    assert(elems[0] == Val::Symbol("quote"@));
    assert(elems[1] == v);
    assert(lookup_s(env, "quote"@) is Some);
    let w = lookup_s(env, "quote"@)->Some_0;
    assert(w is Function);
    assert(w->Function_0 is Native);
    assert(w->Function_0->Native_1 == NativeOp::Quote);
    assert(eval_s(elems[0], env, ctr, outl, fuel) == (SOut { env, ctr, out: outl, res: Ok::<Val, EvalError>(w) }));
    let rest = elems.subrange(1, 2);
    assert(rest =~= seq![v]);
    assert(rest[0] == v);
    assert(rest.len() == 1);
    assert(native_s(NativeOp::Quote, rest, env, ctr, outl, fuel) == (SOut {
        env,
        ctr,
        out: outl,
        res: Ok::<Val, EvalError>(v),
    }));
    assert(apply_s(w->Function_0, rest, env, ctr, outl, fuel) == (SOut {
        env,
        ctr,
        out: outl,
        res: Ok::<Val, EvalError>(v),
    }));
    assert(eval_s(Val::List(elems), env, ctr, outl, fuel) == (SOut {
        env,
        ctr,
        out: outl,
        res: Ok::<Val, EvalError>(v),
    }));
}

/// `(eq x x)` is true for every value `x`: both arguments are protected by
/// `quote`, so the very same value reaches the comparison on both sides.
pub proof fn lemma_eq_reflexive(x: Val, env: EnvS, ctr: u64, outl: Seq<Val>, fuel: nat)
    requires
        native_binding(env, "quote"@) == Option::Some(NativeOp::Quote),
        native_binding(env, "eq"@) == Option::Some(NativeOp::Equal),
    ensures
        eval_s(
            Val::List(
                seq![
                    Val::Symbol("eq"@),
                    Val::List(seq![Val::Symbol("quote"@), x]),
                    Val::List(seq![Val::Symbol("quote"@), x]),
                ],
            ),
            env,
            ctr,
            outl,
            fuel,
        ) == (SOut { env, ctr, out: outl, res: Ok::<Val, EvalError>(Val::Bool(true)) }),
{
    let q = Val::List(seq![Val::Symbol("quote"@), x]);
    let elems = seq![Val::Symbol("eq"@), q, q];
    assert(elems.len() == 3);
    assert(elems[0] == Val::Symbol("eq"@));
    assert(elems[1] == q);
    assert(elems[2] == q);
    assert(lookup_s(env, "eq"@) is Some);
    let w = lookup_s(env, "eq"@)->Some_0;
    assert(w is Function);
    assert(w->Function_0 is Native);
    assert(w->Function_0->Native_1 == NativeOp::Equal);
    assert(eval_s(elems[0], env, ctr, outl, fuel) == (SOut { env, ctr, out: outl, res: Ok::<Val, EvalError>(w) }));
    let rest = elems.subrange(1, 3);
    assert(rest.len() == 2);
    assert(rest[0] == q);
    assert(rest[1] == q);
    lemma_quote_identity(x, env, ctr, outl, fuel);
    assert(eval_s(q, env, ctr, outl, fuel) == (SOut { env, ctr, out: outl, res: Ok::<Val, EvalError>(x) }));
    assert(native_s(NativeOp::Equal, rest, env, ctr, outl, fuel) == (SOut {
        env,
        ctr,
        out: outl,
        res: Ok::<Val, EvalError>(Val::Bool(true)),
    }));
    assert(apply_s(w->Function_0, rest, env, ctr, outl, fuel) == (SOut {
        env,
        ctr,
        out: outl,
        res: Ok::<Val, EvalError>(Val::Bool(true)),
    }));
    assert(eval_s(Val::List(elems), env, ctr, outl, fuel) == (SOut {
        env,
        ctr,
        out: outl,
        res: Ok::<Val, EvalError>(Val::Bool(true)),
    }));
}

/// Evaluating two pure forms in sequence yields their two values and
/// leaves the environment unchanged.
proof fn lemma_evals_pair(fu: Val, fv: Val, xu: Val, xv: Val, env: EnvS, ctr: u64, outl: Seq<Val>, fuel: nat)
    requires
        eval_s(fu, env, ctr, outl, fuel) == (SOut { env, ctr, out: outl, res: Ok::<Val, EvalError>(xu) }),
        eval_s(fv, env, ctr, outl, fuel) == (SOut { env, ctr, out: outl, res: Ok::<Val, EvalError>(xv) }),
    ensures
        evals_s(seq![fu, fv], env, ctr, outl, fuel) == (SOutSeq {
            env,
            ctr,
            out: outl,
            res: Ok::<Seq<Val>, EvalError>(seq![xu, xv]),
        }),
{
    let forms = seq![fu, fv];
    assert(forms.len() == 2);
    assert(forms[0] == fu);
    assert(forms[1] == fv);
    assert(forms.drop_first() =~= seq![fv]);
    assert(seq![fv][0] == fv);
    assert(seq![fv].drop_first() =~= Seq::<Val>::empty());
    assert(evals_s(Seq::<Val>::empty(), env, ctr, outl, fuel) == (SOutSeq {
        env,
        ctr,
        out: outl,
        res: Ok::<Seq<Val>, EvalError>(Seq::<Val>::empty()),
    }));
    assert(evals_s(seq![fv], env, ctr, outl, fuel).res == Ok::<Seq<Val>, EvalError>(
        seq![xv] + Seq::<Val>::empty(),
    ));
    assert(evals_s(forms, env, ctr, outl, fuel).res == Ok::<Seq<Val>, EvalError>(
        seq![xu] + (seq![xv] + Seq::<Val>::empty()),
    ));
    assert(evals_s(forms, env, ctr, outl, fuel).env == env);
    assert(seq![xu] + (seq![xv] + Seq::<Val>::empty()) =~= seq![xu, xv]);
}

/// `(car (cons x xs))` is `x` for every value `x` and list `xs`; the
/// arguments are protected by `quote` so that exactly these values reach
/// `cons`.
pub proof fn lemma_car_cons(x: Val, l: Seq<Val>, env: EnvS, ctr: u64, outl: Seq<Val>, fuel: nat)
    requires
        native_binding(env, "quote"@) == Option::Some(NativeOp::Quote),
        native_binding(env, "cons"@) == Option::Some(NativeOp::Cons),
        native_binding(env, "car"@) == Option::Some(NativeOp::Car),
    ensures
        eval_s(
            Val::List(
                seq![
                    Val::Symbol("car"@),
                    Val::List(
                        seq![
                            Val::Symbol("cons"@),
                            Val::List(seq![Val::Symbol("quote"@), x]),
                            Val::List(seq![Val::Symbol("quote"@), Val::List(l)]),
                        ],
                    ),
                ],
            ),
            env,
            ctr,
            outl,
            fuel,
        ) == (SOut { env, ctr, out: outl, res: Ok::<Val, EvalError>(x) }),
{
    let inner = lemma_cons_quoted(x, l, env, ctr, outl, fuel);
    let oe = seq![Val::Symbol("car"@), inner];
    assert(oe.len() == 2);
    assert(oe[0] == Val::Symbol("car"@));
    assert(oe[1] == inner);
    assert(lookup_s(env, "car"@) is Some);
    let w = lookup_s(env, "car"@)->Some_0;
    assert(w is Function && w->Function_0 is Native && w->Function_0->Native_1 == NativeOp::Car);
    assert(eval_s(oe[0], env, ctr, outl, fuel) == (SOut { env, ctr, out: outl, res: Ok::<Val, EvalError>(w) }));
    let orest = oe.subrange(1, 2);
    assert(orest.len() == 1);
    assert(orest[0] == inner);
    assert((seq![x] + l).len() >= 1);
    assert((seq![x] + l)[0] == x);
    assert(native_s(NativeOp::Car, orest, env, ctr, outl, fuel) == (SOut {
        env,
        ctr,
        out: outl,
        res: Ok::<Val, EvalError>(x),
    }));
    assert(apply_s(w->Function_0, orest, env, ctr, outl, fuel) == (SOut {
        env,
        ctr,
        out: outl,
        res: Ok::<Val, EvalError>(x),
    }));
    assert(eval_s(Val::List(oe), env, ctr, outl, fuel) == (SOut { env, ctr, out: outl, res: Ok::<Val, EvalError>(x) }));
}

/// `(cdr (cons x xs))` is `xs` for every value `x` and list `xs`.
pub proof fn lemma_cdr_cons(x: Val, l: Seq<Val>, env: EnvS, ctr: u64, outl: Seq<Val>, fuel: nat)
    requires
        native_binding(env, "quote"@) == Option::Some(NativeOp::Quote),
        native_binding(env, "cons"@) == Option::Some(NativeOp::Cons),
        native_binding(env, "cdr"@) == Option::Some(NativeOp::Cdr),
    ensures
        eval_s(
            Val::List(
                seq![
                    Val::Symbol("cdr"@),
                    Val::List(
                        seq![
                            Val::Symbol("cons"@),
                            Val::List(seq![Val::Symbol("quote"@), x]),
                            Val::List(seq![Val::Symbol("quote"@), Val::List(l)]),
                        ],
                    ),
                ],
            ),
            env,
            ctr,
            outl,
            fuel,
        ) == (SOut { env, ctr, out: outl, res: Ok::<Val, EvalError>(Val::List(l)) }),
{
    let inner = lemma_cons_quoted(x, l, env, ctr, outl, fuel);
    let oe = seq![Val::Symbol("cdr"@), inner];
    assert(oe.len() == 2);
    assert(oe[0] == Val::Symbol("cdr"@));
    assert(oe[1] == inner);
    assert(lookup_s(env, "cdr"@) is Some);
    let w = lookup_s(env, "cdr"@)->Some_0;
    assert(w is Function && w->Function_0 is Native && w->Function_0->Native_1 == NativeOp::Cdr);
    assert(eval_s(oe[0], env, ctr, outl, fuel) == (SOut { env, ctr, out: outl, res: Ok::<Val, EvalError>(w) }));
    let orest = oe.subrange(1, 2);
    assert(orest.len() == 1);
    assert(orest[0] == inner);
    assert((seq![x] + l).len() >= 1);
    assert((seq![x] + l).drop_first() =~= l);
    assert(native_s(NativeOp::Cdr, orest, env, ctr, outl, fuel) == (SOut {
        env,
        ctr,
        out: outl,
        res: Ok::<Val, EvalError>(Val::List(l)),
    }));
    assert(apply_s(w->Function_0, orest, env, ctr, outl, fuel) == (SOut {
        env,
        ctr,
        out: outl,
        res: Ok::<Val, EvalError>(Val::List(l)),
    }));
    assert(eval_s(Val::List(oe), env, ctr, outl, fuel) == (SOut {
        env,
        ctr,
        out: outl,
        res: Ok::<Val, EvalError>(Val::List(l)),
    }));
}

/// `(cons (quote x) (quote xs))` evaluates to `x` prepended to `xs`;
/// returns the form, for use in the laws above.
proof fn lemma_cons_quoted(x: Val, l: Seq<Val>, env: EnvS, ctr: u64, outl: Seq<Val>, fuel: nat) -> (inner: Val)
    requires
        native_binding(env, "quote"@) == Option::Some(NativeOp::Quote),
        native_binding(env, "cons"@) == Option::Some(NativeOp::Cons),
    ensures
        inner == Val::List(
            seq![
                Val::Symbol("cons"@),
                Val::List(seq![Val::Symbol("quote"@), x]),
                Val::List(seq![Val::Symbol("quote"@), Val::List(l)]),
            ],
        ),
        eval_s(inner, env, ctr, outl, fuel) == (SOut {
            env,
            ctr,
            out: outl,
            res: Ok::<Val, EvalError>(Val::List(seq![x] + l)),
        }),
{
    let qx = Val::List(seq![Val::Symbol("quote"@), x]);
    let ql = Val::List(seq![Val::Symbol("quote"@), Val::List(l)]);
    let ie = seq![Val::Symbol("cons"@), qx, ql];
    assert(ie.len() == 3);
    assert(ie[0] == Val::Symbol("cons"@));
    assert(ie[1] == qx);
    assert(ie[2] == ql);
    assert(lookup_s(env, "cons"@) is Some);
    let w = lookup_s(env, "cons"@)->Some_0;
    assert(w is Function && w->Function_0 is Native && w->Function_0->Native_1 == NativeOp::Cons);
    assert(eval_s(ie[0], env, ctr, outl, fuel) == (SOut { env, ctr, out: outl, res: Ok::<Val, EvalError>(w) }));
    let irest = ie.subrange(1, 3);
    assert(irest.len() == 2);
    assert(irest[0] == qx);
    assert(irest[1] == ql);
    lemma_quote_identity(x, env, ctr, outl, fuel);
    lemma_quote_identity(Val::List(l), env, ctr, outl, fuel);
    assert(native_s(NativeOp::Cons, irest, env, ctr, outl, fuel) == (SOut {
        env,
        ctr,
        out: outl,
        res: Ok::<Val, EvalError>(Val::List(seq![x] + l)),
    }));
    assert(apply_s(w->Function_0, irest, env, ctr, outl, fuel) == (SOut {
        env,
        ctr,
        out: outl,
        res: Ok::<Val, EvalError>(Val::List(seq![x] + l)),
    }));
    assert(eval_s(Val::List(ie), env, ctr, outl, fuel) == (SOut {
        env,
        ctr,
        out: outl,
        res: Ok::<Val, EvalError>(Val::List(seq![x] + l)),
    }));
    Val::List(ie)
}

/// Wrapping addition is commutative.
pub proof fn lemma_w_add_commutative(a: u32, b: u32)
    ensures
        w_add(a, b) == w_add(b, a),
{
}

/// Wrapping addition is associative.
pub proof fn lemma_w_add_associative(a: u32, b: u32, c: u32)
    ensures
        w_add(w_add(a, b), c) == w_add(a, w_add(b, c)),
{
    vstd::arithmetic::div_mod::lemma_small_mod(c as nat, 0x1_0000_0000);
    vstd::arithmetic::div_mod::lemma_small_mod(a as nat, 0x1_0000_0000);
    vstd::arithmetic::div_mod::lemma_add_mod_noop(a as int + b as int, c as int, 0x1_0000_0000);
    vstd::arithmetic::div_mod::lemma_add_mod_noop(a as int, b as int + c as int, 0x1_0000_0000);
}

/// Wrapping multiplication is commutative.
pub proof fn lemma_w_mul_commutative(a: u32, b: u32)
    ensures
        w_mul(a, b) == w_mul(b, a),
{
    assert(a as int * b as int == b as int * a as int) by (nonlinear_arith);
}

/// Wrapping multiplication is associative.
pub proof fn lemma_w_mul_associative(a: u32, b: u32, c: u32)
    ensures
        w_mul(w_mul(a, b), c) == w_mul(a, w_mul(b, c)),
{
    vstd::arithmetic::div_mod::lemma_mul_mod_noop_general(
        a as int * b as int,
        c as int,
        0x1_0000_0000,
    );
    vstd::arithmetic::div_mod::lemma_mul_mod_noop_general(
        a as int,
        b as int * c as int,
        0x1_0000_0000,
    );
    assert((a as int * b as int) * (c as int) == (a as int) * (b as int * c as int))
        by (nonlinear_arith);
}

/// The sum fold over exactly two numbers.
proof fn lemma_sum_pair(x: u32, y: u32)
    ensures
        sum_from(seq![Val::Number(x), Val::Number(y)], 0) == Ok::<u32, EvalError>(w_add(x, y)),
{
    let vals = seq![Val::Number(x), Val::Number(y)];
    assert(vals[0] == Val::Number(x));
    assert(vals.drop_first() =~= seq![Val::Number(y)]);
    assert(seq![Val::Number(y)][0] == Val::Number(y));
    assert(seq![Val::Number(y)].drop_first() =~= Seq::<Val>::empty());
    assert(sum_from(Seq::<Val>::empty(), w_add(w_add(0, x), y)) == Ok::<u32, EvalError>(
        w_add(w_add(0, x), y),
    ));
    assert(sum_from(seq![Val::Number(y)], w_add(0, x)) == Ok::<u32, EvalError>(
        w_add(w_add(0, x), y),
    ));
    vstd::arithmetic::div_mod::lemma_small_mod(x as nat, 0x1_0000_0000);
    assert(w_add(0, x) == x);
}

/// The product fold over exactly two numbers.
proof fn lemma_prod_pair(x: u32, y: u32)
    ensures
        prod_from(seq![Val::Number(x), Val::Number(y)], 1) == Ok::<u32, EvalError>(w_mul(x, y)),
{
    let vals = seq![Val::Number(x), Val::Number(y)];
    assert(vals[0] == Val::Number(x));
    assert(vals.drop_first() =~= seq![Val::Number(y)]);
    assert(seq![Val::Number(y)][0] == Val::Number(y));
    assert(seq![Val::Number(y)].drop_first() =~= Seq::<Val>::empty());
    assert(prod_from(Seq::<Val>::empty(), w_mul(w_mul(1, x), y)) == Ok::<u32, EvalError>(
        w_mul(w_mul(1, x), y),
    ));
    assert(prod_from(seq![Val::Number(y)], w_mul(1, x)) == Ok::<u32, EvalError>(
        w_mul(w_mul(1, x), y),
    ));
    vstd::arithmetic::div_mod::lemma_small_mod(x as nat, 0x1_0000_0000);
    assert(w_mul(1, x) == x);
}

/// The result of applying `+` or `*` to two forms that evaluate purely to
/// numbers.
proof fn lemma_arith_pair(
    opname: Seq<char>,
    op: NativeOp,
    fu: Val,
    fv: Val,
    x: u32,
    y: u32,
    z: u32,
    env: EnvS,
    ctr: u64,
    outl: Seq<Val>,
    fuel: nat,
)
    requires
        native_binding(env, opname) == Option::Some(op),
        op == NativeOp::Plus || op == NativeOp::Times,
        eval_s(fu, env, ctr, outl, fuel) == (SOut { env, ctr, out: outl, res: Ok::<Val, EvalError>(Val::Number(x)) }),
        eval_s(fv, env, ctr, outl, fuel) == (SOut { env, ctr, out: outl, res: Ok::<Val, EvalError>(Val::Number(y)) }),
        op == NativeOp::Plus ==> z == w_add(x, y),
        op == NativeOp::Times ==> z == w_mul(x, y),
    ensures
        eval_s(Val::List(seq![Val::Symbol(opname), fu, fv]), env, ctr, outl, fuel) == (SOut {
            env,
            ctr,
            out: outl,
            res: Ok::<Val, EvalError>(Val::Number(z)),
        }),
{
    let elems = seq![Val::Symbol(opname), fu, fv];
    assert(elems.len() == 3);
    assert(elems[0] == Val::Symbol(opname));
    assert(elems[1] == fu);
    assert(elems[2] == fv);
    assert(lookup_s(env, opname) is Some);
    let w = lookup_s(env, opname)->Some_0;
    assert(w is Function && w->Function_0 is Native && w->Function_0->Native_1 == op);
    assert(eval_s(elems[0], env, ctr, outl, fuel) == (SOut { env, ctr, out: outl, res: Ok::<Val, EvalError>(w) }));
    let rest = elems.subrange(1, 3);
    assert(rest =~= seq![fu, fv]);
    lemma_evals_pair(fu, fv, Val::Number(x), Val::Number(y), env, ctr, outl, fuel);
    lemma_sum_pair(x, y);
    lemma_prod_pair(x, y);
    assert(native_s(op, rest, env, ctr, outl, fuel) == (SOut {
        env,
        ctr,
        out: outl,
        res: Ok::<Val, EvalError>(Val::Number(z)),
    }));
    assert(apply_s(w->Function_0, rest, env, ctr, outl, fuel) == (SOut {
        env,
        ctr,
        out: outl,
        res: Ok::<Val, EvalError>(Val::Number(z)),
    }));
    assert(eval_s(Val::List(elems), env, ctr, outl, fuel) == (SOut {
        env,
        ctr,
        out: outl,
        res: Ok::<Val, EvalError>(Val::Number(z)),
    }));
}

/// `(+ a b)` on number literals is their wrapping sum.
pub proof fn lemma_plus_numbers(a: u32, b: u32, env: EnvS, ctr: u64, outl: Seq<Val>, fuel: nat)
    requires
        native_binding(env, "+"@) == Option::Some(NativeOp::Plus),
    ensures
        eval_s(Val::List(seq![Val::Symbol("+"@), Val::Number(a), Val::Number(b)]), env, ctr, outl, fuel)
            == (SOut { env, ctr, out: outl, res: Ok::<Val, EvalError>(Val::Number(w_add(a, b))) }),
{
    lemma_arith_pair(
        "+"@,
        NativeOp::Plus,
        Val::Number(a),
        Val::Number(b),
        a,
        b,
        w_add(a, b),
        env,
        ctr,
        outl,
        fuel,
    );
}

/// `(* a b)` on number literals is their wrapping product.
pub proof fn lemma_times_numbers(a: u32, b: u32, env: EnvS, ctr: u64, outl: Seq<Val>, fuel: nat)
    requires
        native_binding(env, "*"@) == Option::Some(NativeOp::Times),
    ensures
        eval_s(Val::List(seq![Val::Symbol("*"@), Val::Number(a), Val::Number(b)]), env, ctr, outl, fuel)
            == (SOut { env, ctr, out: outl, res: Ok::<Val, EvalError>(Val::Number(w_mul(a, b))) }),
{
    lemma_arith_pair(
        "*"@,
        NativeOp::Times,
        Val::Number(a),
        Val::Number(b),
        a,
        b,
        w_mul(a, b),
        env,
        ctr,
        outl,
        fuel,
    );
}

/// `+` is commutative over numbers.
pub proof fn lemma_plus_commutative(a: u32, b: u32, env: EnvS, ctr: u64, outl: Seq<Val>, fuel: nat)
    requires
        native_binding(env, "+"@) == Option::Some(NativeOp::Plus),
    ensures
        eval_s(Val::List(seq![Val::Symbol("+"@), Val::Number(a), Val::Number(b)]), env, ctr, outl, fuel)
            == eval_s(
            Val::List(seq![Val::Symbol("+"@), Val::Number(b), Val::Number(a)]),
            env,
            ctr,
            outl,
            fuel,
        ),
{
    lemma_plus_numbers(a, b, env, ctr, outl, fuel);
    lemma_plus_numbers(b, a, env, ctr, outl, fuel);
    lemma_w_add_commutative(a, b);
}

/// `*` is commutative over numbers.
pub proof fn lemma_times_commutative(a: u32, b: u32, env: EnvS, ctr: u64, outl: Seq<Val>, fuel: nat)
    requires
        native_binding(env, "*"@) == Option::Some(NativeOp::Times),
    ensures
        eval_s(Val::List(seq![Val::Symbol("*"@), Val::Number(a), Val::Number(b)]), env, ctr, outl, fuel)
            == eval_s(
            Val::List(seq![Val::Symbol("*"@), Val::Number(b), Val::Number(a)]),
            env,
            ctr,
            outl,
            fuel,
        ),
{
    lemma_times_numbers(a, b, env, ctr, outl, fuel);
    lemma_times_numbers(b, a, env, ctr, outl, fuel);
    lemma_w_mul_commutative(a, b);
}

/// `+` is associative over numbers: both nestings give the same result.
pub proof fn lemma_plus_associative(a: u32, b: u32, c: u32, env: EnvS, ctr: u64, outl: Seq<Val>, fuel: nat)
    requires
        native_binding(env, "+"@) == Option::Some(NativeOp::Plus),
    ensures
        eval_s(
            Val::List(
                seq![
                    Val::Symbol("+"@),
                    Val::List(seq![Val::Symbol("+"@), Val::Number(a), Val::Number(b)]),
                    Val::Number(c),
                ],
            ),
            env,
            ctr,
            outl,
            fuel,
        ) == eval_s(
            Val::List(
                seq![
                    Val::Symbol("+"@),
                    Val::Number(a),
                    Val::List(seq![Val::Symbol("+"@), Val::Number(b), Val::Number(c)]),
                ],
            ),
            env,
            ctr,
            outl,
            fuel,
        ),
{
    lemma_plus_numbers(a, b, env, ctr, outl, fuel);
    lemma_plus_numbers(b, c, env, ctr, outl, fuel);
    lemma_arith_pair(
        "+"@,
        NativeOp::Plus,
        Val::List(seq![Val::Symbol("+"@), Val::Number(a), Val::Number(b)]),
        Val::Number(c),
        w_add(a, b),
        c,
        w_add(w_add(a, b), c),
        env,
        ctr,
        outl,
        fuel,
    );
    lemma_arith_pair(
        "+"@,
        NativeOp::Plus,
        Val::Number(a),
        Val::List(seq![Val::Symbol("+"@), Val::Number(b), Val::Number(c)]),
        a,
        w_add(b, c),
        w_add(a, w_add(b, c)),
        env,
        ctr,
        outl,
        fuel,
    );
    lemma_w_add_associative(a, b, c);
}

/// `*` is associative over numbers: both nestings give the same result.
pub proof fn lemma_times_associative(a: u32, b: u32, c: u32, env: EnvS, ctr: u64, outl: Seq<Val>, fuel: nat)
    requires
        native_binding(env, "*"@) == Option::Some(NativeOp::Times),
    ensures
        eval_s(
            Val::List(
                seq![
                    Val::Symbol("*"@),
                    Val::List(seq![Val::Symbol("*"@), Val::Number(a), Val::Number(b)]),
                    Val::Number(c),
                ],
            ),
            env,
            ctr,
            outl,
            fuel,
        ) == eval_s(
            Val::List(
                seq![
                    Val::Symbol("*"@),
                    Val::Number(a),
                    Val::List(seq![Val::Symbol("*"@), Val::Number(b), Val::Number(c)]),
                ],
            ),
            env,
            ctr,
            outl,
            fuel,
        ),
{
    lemma_times_numbers(a, b, env, ctr, outl, fuel);
    lemma_times_numbers(b, c, env, ctr, outl, fuel);
    lemma_arith_pair(
        "*"@,
        NativeOp::Times,
        Val::List(seq![Val::Symbol("*"@), Val::Number(a), Val::Number(b)]),
        Val::Number(c),
        w_mul(a, b),
        c,
        w_mul(w_mul(a, b), c),
        env,
        ctr,
        outl,
        fuel,
    );
    lemma_arith_pair(
        "*"@,
        NativeOp::Times,
        Val::Number(a),
        Val::List(seq![Val::Symbol("*"@), Val::Number(b), Val::Number(c)]),
        a,
        w_mul(b, c),
        w_mul(a, w_mul(b, c)),
        env,
        ctr,
        outl,
        fuel,
    );
    lemma_w_mul_associative(a, b, c);
}

/// Function values evaluate to themselves: a function can be handed around
/// and bound like any other value.
pub proof fn lemma_function_self_evaluates(f: FnVal, env: EnvS, ctr: u64, outl: Seq<Val>, fuel: nat)
    ensures
        eval_s(Val::Function(f), env, ctr, outl, fuel) == (SOut { env, ctr, out: outl, res: Ok::<Val, EvalError>(Val::Function(f)) }),
{
}

/// `let` binds sequentially: in `(let ((n1 (quote v)) (n2 n1)) n2)` the
/// second binding reads the first, so the whole form yields `v`, whatever
/// the environment held before; the caller's bindings are untouched.
pub proof fn lemma_let_binds_sequentially(n1: Seq<char>, n2: Seq<char>, v: Val, env: EnvS, ctr: u64, outl: Seq<Val>, fuel: nat)
    requires
        native_binding(env, "let"@) == Option::Some(NativeOp::Let),
        native_binding(env, "quote"@) == Option::Some(NativeOp::Quote),
    ensures
        eval_s(
            Val::List(
                seq![
                    Val::Symbol("let"@),
                    Val::List(
                        seq![
                            Val::List(
                                seq![
                                    Val::Symbol(n1),
                                    Val::List(seq![Val::Symbol("quote"@), v]),
                                ],
                            ),
                            Val::List(seq![Val::Symbol(n2), Val::Symbol(n1)]),
                        ],
                    ),
                    Val::Symbol(n2),
                ],
            ),
            env,
            ctr,
            outl,
            fuel,
        ) == (SOut { env, ctr, out: outl, res: Ok::<Val, EvalError>(v) }),
{
    let qv = Val::List(seq![Val::Symbol("quote"@), v]);
    let b1 = Val::List(seq![Val::Symbol(n1), qv]);
    let b2 = Val::List(seq![Val::Symbol(n2), Val::Symbol(n1)]);
    let bs = seq![b1, b2];
    let blist = Val::List(bs);
    let elems = seq![Val::Symbol("let"@), blist, Val::Symbol(n2)];
    assert(elems.len() == 3);
    assert(elems[0] == Val::Symbol("let"@));
    assert(elems[1] == blist);
    assert(elems[2] == Val::Symbol(n2));
    assert(lookup_s(env, "let"@) is Some);
    let w = lookup_s(env, "let"@)->Some_0;
    assert(w is Function && w->Function_0 is Native && w->Function_0->Native_1 == NativeOp::Let);
    assert(eval_s(elems[0], env, ctr, outl, fuel) == (SOut { env, ctr, out: outl, res: Ok::<Val, EvalError>(w) }));
    let rest = elems.subrange(1, 3);
    assert(rest.len() == 2);
    assert(rest[0] == blist);
    assert(rest[1] == Val::Symbol(n2));

    // The bindings, evaluated in order into a copy of the environment.
    let scope1 = env.push((n1, v));
    let scope2 = scope1.push((n2, v));
    assert(bs[0] == b1);
    assert(bs.drop_first() =~= seq![b2]);
    assert(seq![b2][0] == b2);
    assert(seq![b2].drop_first() =~= Seq::<Val>::empty());
    let p1 = seq![Val::Symbol(n1), qv];
    assert(p1.len() == 2 && p1[0] == Val::Symbol(n1) && p1[1] == qv);
    let p2 = seq![Val::Symbol(n2), Val::Symbol(n1)];
    assert(p2.len() == 2 && p2[0] == Val::Symbol(n2) && p2[1] == Val::Symbol(n1));
    lemma_quote_identity(v, env, ctr, outl, fuel);
    lemma_lookup_push(env, (n1, v));
    assert(lookup_s(scope1, n1) == Option::Some(v));
    assert(eval_s(Val::Symbol(n1), scope1, ctr, outl, fuel) == (SOut {
        env: scope1,
        ctr,
        out: outl,
        res: Ok::<Val, EvalError>(v),
    }));
    assert(bind_lets_s(Seq::<Val>::empty(), scope2, ctr, outl, fuel) == (crate::semantics::BindOut {
        ctr,
        out: outl,
        res: Ok::<EnvS, EvalError>(scope2),
    }));
    assert(bind_lets_s(seq![b2], scope1, ctr, outl, fuel) == (crate::semantics::BindOut {
        ctr,
        out: outl,
        res: Ok::<EnvS, EvalError>(scope2),
    }));
    assert(bind_lets_s(bs, env, ctr, outl, fuel) == (crate::semantics::BindOut {
        ctr,
        out: outl,
        res: Ok::<EnvS, EvalError>(scope2),
    }));

    // The body, evaluated in the scope the bindings built.
    lemma_lookup_push(scope1, (n2, v));
    assert(lookup_s(scope2, n2) == Option::Some(v));
    assert(eval_s(Val::Symbol(n2), scope2, ctr, outl, fuel) == (SOut {
        env: scope2,
        ctr,
        out: outl,
        res: Ok::<Val, EvalError>(v),
    }));
    let body = rest.subrange(1, 2);
    assert(body =~= seq![Val::Symbol(n2)]);
    assert(seq![Val::Symbol(n2)][0] == Val::Symbol(n2));
    assert(seq![Val::Symbol(n2)].drop_first() =~= Seq::<Val>::empty());
    assert(evals_s(Seq::<Val>::empty(), scope2, ctr, outl, fuel) == (SOutSeq {
        env: scope2,
        ctr,
        out: outl,
        res: Ok::<Seq<Val>, EvalError>(Seq::<Val>::empty()),
    }));
    assert(evals_s(body, scope2, ctr, outl, fuel).res == Ok::<Seq<Val>, EvalError>(
        seq![v] + Seq::<Val>::empty(),
    ));
    assert((seq![v] + Seq::<Val>::empty()) =~= seq![v]);
    assert((seq![v] + Seq::<Val>::empty()).last() == v);
    assert(native_s(NativeOp::Let, rest, env, ctr, outl, fuel) == (SOut {
        env,
        ctr,
        out: outl,
        res: Ok::<Val, EvalError>(v),
    }));
    assert(apply_s(w->Function_0, rest, env, ctr, outl, fuel) == (SOut {
        env,
        ctr,
        out: outl,
        res: Ok::<Val, EvalError>(v),
    }));
    assert(eval_s(Val::List(elems), env, ctr, outl, fuel) == (SOut { env, ctr, out: outl, res: Ok::<Val, EvalError>(v) }));
}

/// A recursive call inside `fn name (...) ...` sees `name` bound to the
/// function itself: applying `(fn g () g)` to no arguments returns the very
/// function value, resolved through its own name in the call frame.
pub proof fn lemma_self_name_resolves(g: Seq<char>, env: EnvS, ctr: u64, outl: Seq<Val>, fuel: nat)
    requires
        native_binding(env, "fn"@) == Option::Some(NativeOp::Fun),
        fuel >= 1,
        ctr < u64::MAX,
    ensures
        ({
            let lam = Lambda {
                is_macro: false,
                context: env,
                name: g,
                params: Seq::empty(),
                vararg: Option::None,
                body: seq![Val::Symbol(g)],
                id: ctr,
            };
            eval_s(
                Val::List(
                    seq![
                        Val::List(
                            seq![
                                Val::Symbol("fn"@),
                                Val::Symbol(g),
                                Val::List(Seq::empty()),
                                Val::Symbol(g),
                            ],
                        ),
                    ],
                ),
                env,
                ctr,
                outl,
                fuel,
            ) == (SOut {
                env,
                ctr: (ctr + 1) as u64,
                out: outl,
                res: Ok::<Val, EvalError>(Val::Function(FnVal::UserDefined(lam))),
            })
        }),
{
    let lam = Lambda {
        is_macro: false,
        context: env,
        name: g,
        params: Seq::empty(),
        vararg: Option::None,
        body: seq![Val::Symbol(g)],
        id: ctr,
    };
    let c2 = (ctr + 1) as u64;
    let fv = Val::Function(FnVal::UserDefined(lam));
    let fnform = Val::List(
        seq![Val::Symbol("fn"@), Val::Symbol(g), Val::List(Seq::empty()), Val::Symbol(g)],
    );
    lemma_fn_no_params(g, Val::Symbol(g), env, ctr, outl, fuel);
    let elems = seq![fnform];
    assert(elems.len() == 1);
    assert(elems[0] == fnform);
    let rest = elems.subrange(1, 1);
    assert(rest =~= Seq::<Val>::empty());
    // Applying the closure to no arguments: the frame binds the
    // function's own name to the function.
    let frame = env.push((g, fv));
    assert(crate::semantics::frame_of(lam, FnVal::UserDefined(lam), Seq::empty(), env)
        =~= frame) by {
        assert(env + Seq::new(0, |i: int| (lam.params[i], Seq::<Val>::empty()[i])) =~= env);
    }
    lemma_lookup_push(env, (g, fv));
    assert(lookup_s(frame, g) == Option::Some(fv));
    assert(evals_s(Seq::<Val>::empty(), env, c2, outl, fuel) == (SOutSeq {
        env,
        ctr: c2,
        out: outl,
        res: Ok::<Seq<Val>, EvalError>(Seq::<Val>::empty()),
    }));
    assert(eval_s(Val::Symbol(g), frame, c2, outl, (fuel - 1) as nat) == (SOut {
        env: frame,
        ctr: c2,
        out: outl,
        res: Ok::<Val, EvalError>(fv),
    }));
    assert(seq![Val::Symbol(g)][0] == Val::Symbol(g));
    assert(seq![Val::Symbol(g)].drop_first() =~= Seq::<Val>::empty());
    assert(evals_s(Seq::<Val>::empty(), frame, c2, outl, (fuel - 1) as nat) == (SOutSeq {
        env: frame,
        ctr: c2,
        out: outl,
        res: Ok::<Seq<Val>, EvalError>(Seq::<Val>::empty()),
    }));
    assert(evals_s(seq![Val::Symbol(g)], frame, c2, outl, (fuel - 1) as nat).res == Ok::<
        Seq<Val>,
        EvalError,
    >(seq![fv] + Seq::<Val>::empty()));
    assert((seq![fv] + Seq::<Val>::empty()).last() == fv);
    assert((seq![fv] + Seq::<Val>::empty()).len() == 1);
    assert(apply_s(FnVal::UserDefined(lam), Seq::empty(), env, c2, outl, fuel) == (SOut {
        env,
        ctr: c2,
        out: outl,
        res: Ok::<Val, EvalError>(fv),
    }));
    assert(eval_s(Val::List(elems), env, ctr, outl, fuel) == (SOut {
        env,
        ctr: c2,
        out: outl,
        res: Ok::<Val, EvalError>(fv),
    }));
}

/// `(fn g () body)` constructs a zero-parameter closure over the current
/// environment.
proof fn lemma_fn_no_params(g: Seq<char>, bodyform: Val, env: EnvS, ctr: u64, outl: Seq<Val>, fuel: nat)
    requires
        native_binding(env, "fn"@) == Option::Some(NativeOp::Fun),
        ctr < u64::MAX,
    ensures
        ({
            let lam = Lambda {
                is_macro: false,
                context: env,
                name: g,
                params: Seq::empty(),
                vararg: Option::None,
                body: seq![bodyform],
                id: ctr,
            };
            eval_s(
                Val::List(
                    seq![Val::Symbol("fn"@), Val::Symbol(g), Val::List(Seq::empty()), bodyform],
                ),
                env,
                ctr,
                outl,
                fuel,
            ) == (SOut {
                env,
                ctr: (ctr + 1) as u64,
                out: outl,
                res: Ok::<Val, EvalError>(Val::Function(FnVal::UserDefined(lam))),
            })
        }),
{
    let elems = seq![Val::Symbol("fn"@), Val::Symbol(g), Val::List(Seq::empty()), bodyform];
    assert(elems.len() == 4);
    assert(elems[0] == Val::Symbol("fn"@));
    assert(elems[1] == Val::Symbol(g));
    assert(elems[2] == Val::List(Seq::empty()));
    assert(elems[3] == bodyform);
    assert(lookup_s(env, "fn"@) is Some);
    let w = lookup_s(env, "fn"@)->Some_0;
    assert(w is Function && w->Function_0 is Native && w->Function_0->Native_1 == NativeOp::Fun);
    assert(eval_s(elems[0], env, ctr, outl, fuel) == (SOut {
        env,
        ctr,
        out: outl,
        res: Ok::<Val, EvalError>(w),
    }));
    let rest = elems.subrange(1, 4);
    assert(rest.len() == 3);
    assert(rest[0] == Val::Symbol(g));
    assert(rest[1] == Val::List(Seq::empty()));
    assert(rest[2] == bodyform);
    assert(crate::semantics::all_symbols(Seq::empty()));
    assert(Seq::<Val>::empty().map_values(|p: Val| crate::semantics::sym_name(p)) =~= Seq::<
        Seq<char>,
    >::empty());
    assert(rest.subrange(2, 3) =~= seq![bodyform]);
    let lam = Lambda {
        is_macro: false,
        context: env,
        name: g,
        params: Seq::empty(),
        vararg: Option::None,
        body: seq![bodyform],
        id: ctr,
    };
    let c2 = (ctr + 1) as u64;
    assert(crate::semantics::make_fn_s(rest, env, ctr, false) == Ok::<(Val, u64), EvalError>(
        (Val::Function(FnVal::UserDefined(lam)), c2),
    )) by {
        let made = crate::semantics::make_fn_s(rest, env, ctr, false);
        assert(made is Ok);
        assert(made->Ok_0.0->Function_0->UserDefined_0 =~~= lam);
        assert(made->Ok_0.1 == c2);
    }
    assert(native_s(NativeOp::Fun, rest, env, ctr, outl, fuel) == (SOut {
        env,
        ctr: c2,
        out: outl,
        res: Ok::<Val, EvalError>(Val::Function(FnVal::UserDefined(lam))),
    }));
    assert(apply_s(w->Function_0, rest, env, ctr, outl, fuel) == (SOut {
        env,
        ctr: c2,
        out: outl,
        res: Ok::<Val, EvalError>(Val::Function(FnVal::UserDefined(lam))),
    }));
}

/// A closure created inside a `let` keeps the `let`'s bindings after the
/// `let` returns: `((let ((a (quote v))) (fn g () a)))` first evaluates the
/// `let` to a closure whose captured scope binds `a`, then calls it in the
/// original environment, and still gets `v`.
pub proof fn lemma_closure_retains_let_bindings(
    aname: Seq<char>,
    g: Seq<char>,
    v: Val,
    env: EnvS,
    ctr: u64,
    outl: Seq<Val>,
    fuel: nat,
)
    requires
        native_binding(env, "let"@) == Option::Some(NativeOp::Let),
        native_binding(env, "quote"@) == Option::Some(NativeOp::Quote),
        native_binding(env, "fn"@) == Option::Some(NativeOp::Fun),
        aname != g,
        aname != "fn"@,
        fuel >= 1,
        ctr < u64::MAX,
    ensures
        eval_s(
            Val::List(
                seq![
                    Val::List(
                        seq![
                            Val::Symbol("let"@),
                            Val::List(
                                seq![
                                    Val::List(
                                        seq![
                                            Val::Symbol(aname),
                                            Val::List(seq![Val::Symbol("quote"@), v]),
                                        ],
                                    ),
                                ],
                            ),
                            Val::List(
                                seq![
                                    Val::Symbol("fn"@),
                                    Val::Symbol(g),
                                    Val::List(Seq::empty()),
                                    Val::Symbol(aname),
                                ],
                            ),
                        ],
                    ),
                ],
            ),
            env,
            ctr,
            outl,
            fuel,
        ) == (SOut { env, ctr: (ctr + 1) as u64, out: outl, res: Ok::<Val, EvalError>(v) }),
{
    let qv = Val::List(seq![Val::Symbol("quote"@), v]);
    let b1 = Val::List(seq![Val::Symbol(aname), qv]);
    let fnform = Val::List(
        seq![Val::Symbol("fn"@), Val::Symbol(g), Val::List(Seq::empty()), Val::Symbol(aname)],
    );
    let letform = Val::List(seq![Val::Symbol("let"@), Val::List(seq![b1]), fnform]);
    let scope1 = env.push((aname, v));
    let lam = Lambda {
        is_macro: false,
        context: scope1,
        name: g,
        params: Seq::empty(),
        vararg: Option::None,
        body: seq![Val::Symbol(aname)],
        id: ctr,
    };
    let c2 = (ctr + 1) as u64;
    let fv = Val::Function(FnVal::UserDefined(lam));

    // The let evaluates its one binding, then the fn form in the extended
    // scope, and returns the closure; the caller environment is untouched.
    let le = seq![Val::Symbol("let"@), Val::List(seq![b1]), fnform];
    assert(le.len() == 3);
    assert(le[0] == Val::Symbol("let"@));
    assert(le[1] == Val::List(seq![b1]));
    assert(le[2] == fnform);
    assert(lookup_s(env, "let"@) is Some);
    let wl = lookup_s(env, "let"@)->Some_0;
    assert(wl is Function && wl->Function_0 is Native && wl->Function_0->Native_1
        == NativeOp::Let);
    assert(eval_s(le[0], env, ctr, outl, fuel) == (SOut {
        env,
        ctr,
        out: outl,
        res: Ok::<Val, EvalError>(wl),
    }));
    let lrest = le.subrange(1, 3);
    assert(lrest.len() == 2);
    assert(lrest[0] == Val::List(seq![b1]));
    assert(lrest[1] == fnform);
    assert(seq![b1][0] == b1);
    assert(seq![b1].drop_first() =~= Seq::<Val>::empty());
    let p1 = seq![Val::Symbol(aname), qv];
    assert(p1.len() == 2 && p1[0] == Val::Symbol(aname) && p1[1] == qv);
    lemma_quote_identity(v, env, ctr, outl, fuel);
    assert(bind_lets_s(Seq::<Val>::empty(), scope1, ctr, outl, fuel) == (crate::semantics::BindOut {
        ctr,
        out: outl,
        res: Ok::<EnvS, EvalError>(scope1),
    }));
    assert(bind_lets_s(seq![b1], env, ctr, outl, fuel) == (crate::semantics::BindOut {
        ctr,
        out: outl,
        res: Ok::<EnvS, EvalError>(scope1),
    }));

    // The fn form is evaluated in the extended scope, capturing it and
    // drawing the next function identity.
    lemma_lookup_push(env, (aname, v));
    assert(lookup_s(scope1, "fn"@) == lookup_s(env, "fn"@));
    assert(native_binding(scope1, "fn"@) == Option::Some(NativeOp::Fun));
    lemma_fn_no_params(g, Val::Symbol(aname), scope1, ctr, outl, fuel);
    assert(eval_s(fnform, scope1, ctr, outl, fuel) == (SOut {
        env: scope1,
        ctr: c2,
        out: outl,
        res: Ok::<Val, EvalError>(fv),
    }));
    let body = lrest.subrange(1, 2);
    assert(body =~= seq![fnform]);
    assert(seq![fnform][0] == fnform);
    assert(seq![fnform].drop_first() =~= Seq::<Val>::empty());
    assert(evals_s(Seq::<Val>::empty(), scope1, c2, outl, fuel) == (SOutSeq {
        env: scope1,
        ctr: c2,
        out: outl,
        res: Ok::<Seq<Val>, EvalError>(Seq::<Val>::empty()),
    }));
    assert(evals_s(body, scope1, ctr, outl, fuel).res == Ok::<Seq<Val>, EvalError>(
        seq![fv] + Seq::<Val>::empty(),
    ));
    assert((seq![fv] + Seq::<Val>::empty()).last() == fv);
    assert((seq![fv] + Seq::<Val>::empty()).len() == 1);
    assert(native_s(NativeOp::Let, lrest, env, ctr, outl, fuel) == (SOut {
        env,
        ctr: c2,
        out: outl,
        res: Ok::<Val, EvalError>(fv),
    }));
    assert(apply_s(wl->Function_0, lrest, env, ctr, outl, fuel) == (SOut {
        env,
        ctr: c2,
        out: outl,
        res: Ok::<Val, EvalError>(fv),
    }));
    assert(eval_s(letform, env, ctr, outl, fuel) == (SOut {
        env,
        ctr: c2,
        out: outl,
        res: Ok::<Val, EvalError>(fv),
    }));

    // Applying the closure after the let has returned: its body still sees
    // the let's binding of `aname` through the captured scope.
    let elems = seq![letform];
    assert(elems.len() == 1);
    assert(elems[0] == letform);
    let rest = elems.subrange(1, 1);
    assert(rest =~= Seq::<Val>::empty());
    let frame = scope1.push((g, fv));
    assert(crate::semantics::frame_of(lam, FnVal::UserDefined(lam), Seq::empty(), scope1)
        =~= frame) by {
        assert(scope1 + Seq::new(0, |i: int| (lam.params[i], Seq::<Val>::empty()[i])) =~= scope1);
    }
    assert(evals_s(Seq::<Val>::empty(), env, c2, outl, fuel) == (SOutSeq {
        env,
        ctr: c2,
        out: outl,
        res: Ok::<Seq<Val>, EvalError>(Seq::<Val>::empty()),
    }));
    lemma_lookup_push(scope1, (g, fv));
    assert(lookup_s(frame, aname) == lookup_s(scope1, aname));
    assert(lookup_s(scope1, aname) == Option::Some(v));
    assert(eval_s(Val::Symbol(aname), frame, c2, outl, (fuel - 1) as nat) == (SOut {
        env: frame,
        ctr: c2,
        out: outl,
        res: Ok::<Val, EvalError>(v),
    }));
    assert(seq![Val::Symbol(aname)][0] == Val::Symbol(aname));
    assert(seq![Val::Symbol(aname)].drop_first() =~= Seq::<Val>::empty());
    assert(evals_s(Seq::<Val>::empty(), frame, c2, outl, (fuel - 1) as nat) == (SOutSeq {
        env: frame,
        ctr: c2,
        out: outl,
        res: Ok::<Seq<Val>, EvalError>(Seq::<Val>::empty()),
    }));
    assert(evals_s(seq![Val::Symbol(aname)], frame, c2, outl, (fuel - 1) as nat).res == Ok::<
        Seq<Val>,
        EvalError,
    >(seq![v] + Seq::<Val>::empty()));
    assert((seq![v] + Seq::<Val>::empty()).last() == v);
    assert((seq![v] + Seq::<Val>::empty()).len() == 1);
    assert(apply_s(FnVal::UserDefined(lam), Seq::empty(), env, c2, outl, fuel) == (SOut {
        env,
        ctr: c2,
        out: outl,
        res: Ok::<Val, EvalError>(v),
    }));
    assert(eval_s(Val::List(elems), env, ctr, outl, fuel) == (SOut {
        env,
        ctr: c2,
        out: outl,
        res: Ok::<Val, EvalError>(v),
    }));
}

/// The numeric value of a run of decimal digits, accumulating left to
/// right in unsigned 32-bit arithmetic.
pub open spec fn digits_value_from(s: Seq<char>, i: int, acc: u32) -> u32
    decreases s.len() - i,
{
    if i < 0 || i >= s.len() {
        acc
    } else {
        digits_value_from(s, i + 1, extend_number(acc, digit_val(s[i])))
    }
}

pub open spec fn digits_value(s: Seq<char>) -> u32 {
    digits_value_from(s, 0, 0)
}

/// Lexing a run of digits from inside a number yields one number token.
proof fn lemma_lex_digits(s: Seq<char>, i: int, acc: u32)
    requires
        0 <= i <= s.len(),
        forall|j: int| i <= j < s.len() ==> is_digit_char(s[j]),
    ensures
        lex_run(s, i, LexState::InNumber(acc)) == seq![
            Tok::Number(digits_value_from(s, i, acc)),
        ],
    decreases s.len() - i,
{
    if i < s.len() {
        lemma_lex_digits(s, i + 1, extend_number(acc, digit_val(s[i])));
    }
}

/// For every numeric literal `n`, evaluating the source text `n` yields
/// `Number(n)`: a source string of decimal digits evaluates, in any
/// environment, to the number those digits denote in unsigned 32-bit
/// arithmetic, and the environment is unchanged.
pub proof fn lemma_literal_evaluates(src: Seq<char>, env: EnvS, ctr: u64, fuel: nat)
    requires
        src.len() >= 1,
        forall|j: int| 0 <= j < src.len() ==> is_digit_char(src[j]),
    ensures
        eval_source_s(src, env, ctr, fuel) == (SOut {
            env,
            ctr,
            out: Seq::empty(),
            res: Ok::<Val, EvalError>(Val::Number(digits_value(src))),
        }),
{
    let outl = Seq::<Val>::empty();
    // Lexing: the whole string is one number token.
    let c0 = src[0];
    assert(is_digit_char(c0));
    assert(' ' as u32 == 32 && '\t' as u32 == 9 && '\n' as u32 == 10 && '\r' as u32 == 13);
    assert('(' as u32 == 40 && ')' as u32 == 41);
    assert(!is_space_char(c0));
    assert(c0 != '(' && c0 != ')');
    lemma_lex_digits(src, 1, digit_val(c0));
    vstd::arithmetic::div_mod::lemma_small_mod(digit_val(c0) as nat, 0x1_0000_0000);
    assert(extend_number(0, digit_val(c0)) == digit_val(c0));
    let dv = digits_value(src);
    assert(digits_value_from(src, 1, digit_val(c0)) == dv);
    assert(lex(src) == seq![Tok::Number(dv)]);

    // Parsing: one number token is one top-level number form.
    let toks = seq![Tok::Number(dv)];
    assert(toks.len() == 1);
    assert(toks[0] == Tok::Number(dv));
    let stack0 = seq![Seq::<Val>::empty()];
    assert(stack0.len() == 1);
    assert(stack0.last() =~= Seq::<Val>::empty());
    let stack1 = push_onto_top(stack0, Val::Number(dv));
    assert(stack1 =~~= seq![seq![Val::Number(dv)]]);
    assert(stack1.len() == 1);
    assert(parse_run(toks, 1, stack1) == Ok::<Seq<Val>, EvalError>(stack1[0]));
    assert(stack1[0] =~= seq![Val::Number(dv)]);
    assert(parse_tokens(toks) == Ok::<Seq<Val>, EvalError>(seq![Val::Number(dv)]));

    // Evaluation: a number evaluates to itself.
    let forms = seq![Val::Number(dv)];
    assert(forms[0] == Val::Number(dv));
    assert(forms.len() == 1);
    assert(forms.drop_first() =~= Seq::<Val>::empty());
    assert(eval_s(Val::Number(dv), env, ctr, outl, fuel) == (SOut {
        env,
        ctr,
        out: outl,
        res: Ok::<Val, EvalError>(Val::Number(dv)),
    }));
    assert(evals_s(Seq::<Val>::empty(), env, ctr, outl, fuel) == (SOutSeq {
        env,
        ctr,
        out: outl,
        res: Ok::<Seq<Val>, EvalError>(Seq::<Val>::empty()),
    }));
    assert(evals_s(forms, env, ctr, outl, fuel).res == Ok::<Seq<Val>, EvalError>(
        seq![Val::Number(dv)] + Seq::<Val>::empty(),
    ));
    assert((seq![Val::Number(dv)] + Seq::<Val>::empty()).last() == Val::Number(dv));
    assert((seq![Val::Number(dv)] + Seq::<Val>::empty()).len() == 1);
    assert(crate::semantics::run_forms_s(forms, env, ctr, fuel) == (SOut {
        env,
        ctr,
        out: outl,
        res: Ok::<Val, EvalError>(Val::Number(dv)),
    }));
}

} // verus!


