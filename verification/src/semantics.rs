//! The mathematical model of the language: ghost values, ghost environments
//! and a definitional spec interpreter.
//!
//! Ghost values (`Val`) mirror the executable value type over `Seq`. An
//! environment is a sequence of name/value pairs; a lookup takes the pair
//! pushed last, so pushing a pair is exactly a map update. The interpreter
//! `eval_s` is a total spec function: evaluation that would recurse through
//! a computed function value consumes one unit of fuel, and evaluation stops
//! with an error when the fuel runs out, so every contract is stated against
//! a mathematically well-defined result.
//!
//! Besides the environment, each evaluation step threads two more pieces of
//! state: the identity counter, from which every `fn`/`macro` construction
//! draws a fresh identity (so that distinct constructions compare unequal
//! while copies of one construction stay equal), and the diagnostics log,
//! to which `prn` and `dbg` append the values they would print.

use vstd::prelude::*;

verus! {

/// The identity of a built-in implementation. A native function value
/// carries its name and one of these; two natives are equal when both
/// agree.
#[derive(Clone, Copy, Debug, PartialEq, Eq, Structural)]
pub enum NativeOp {
    Def,
    Let,
    Fun,
    Mac,
    If,
    Plus,
    Minus,
    Times,
    Greater,
    Quote,
    MakeList,
    Car,
    Cdr,
    Push,
    Dbg,
    Prn,
    IsList,
    Cons,
    Apply,
    Equal,
    And,
    Or,
    Not,
}

/// Evaluation failures. They are fatal to the evaluation at hand and
/// propagate to the top-level caller; bindings installed before the failure
/// remain in the environment.
#[derive(Clone, Copy, Debug, PartialEq, Eq, Structural)]
pub enum EvalError {
    /// Unbalanced parentheses or a stray close paren.
    ParseError,
    /// A symbol was evaluated in an environment that does not bind it.
    UnboundSymbol,
    /// A built-in received a value of the wrong variant, or the head of an
    /// application is not a function.
    TypeMismatch,
    /// A call with the wrong number of arguments, or a function body with
    /// no forms.
    ArityMismatch,
    /// The evaluation depth budget, or the supply of function identities,
    /// ran out.
    OutOfFuel,
}

/// Ghost counterpart of the executable value type.
#[verifier::ext_equal]
pub enum Val {
    Symbol(Seq<char>),
    Bool(bool),
    Number(u32),
    List(Seq<Val>),
    Function(FnVal),
}

#[verifier::ext_equal]
pub enum FnVal {
    Native(Seq<char>, NativeOp),
    UserDefined(Lambda),
}

/// Ghost counterpart of a user-defined function or macro.
#[verifier::ext_equal]
pub struct Lambda {
    pub is_macro: bool,
    /// Snapshot of the defining environment.
    pub context: Seq<(Seq<char>, Val)>,
    /// The function's own name, rebound in each call frame for recursion.
    pub name: Seq<char>,
    /// The fixed parameter names.
    pub params: Seq<Seq<char>>,
    /// The rest-parameter name, if the last declared parameter ended in
    /// `...`.
    pub vararg: Option<Seq<char>>,
    pub body: Seq<Val>,
    /// The identity drawn when this function was constructed. Copies of
    /// one construction share it; distinct constructions never do, so two
    /// separately constructed functions compare unequal even with
    /// identical source and captured environment.
    pub id: u64,
}

/// A ghost environment: name/value pairs in the order they were bound.
pub type EnvS = Seq<(Seq<char>, Val)>;

/// The result of a spec evaluation step: the environment, the identity
/// counter and the diagnostics log as the step left them, and either a
/// value or the error that stopped evaluation.
#[verifier::ext_equal]
pub struct SOut {
    pub env: EnvS,
    pub ctr: u64,
    pub out: Seq<Val>,
    pub res: Result<Val, EvalError>,
}

/// As `SOut`, for steps that produce one value per input form.
#[verifier::ext_equal]
pub struct SOutSeq {
    pub env: EnvS,
    pub ctr: u64,
    pub out: Seq<Val>,
    pub res: Result<Seq<Val>, EvalError>,
}

/// The result of evaluating the bindings of a `let`: the scope built so
/// far on success; the counter and log advance either way, but the caller's
/// environment is never touched.
#[verifier::ext_equal]
pub struct BindOut {
    pub ctr: u64,
    pub out: Seq<Val>,
    pub res: Result<EnvS, EvalError>,
}

/// The value bound to `name`: the pair pushed last wins.
pub open spec fn lookup_s(env: EnvS, name: Seq<char>) -> Option<Val>
    decreases env.len(),
{
    if env.len() == 0 {
        Option::None
    } else if env.last().0 == name {
        Option::Some(env.last().1)
    } else {
        lookup_s(env.drop_last(), name)
    }
}

/// Unsigned 32-bit arithmetic: results wrap modulo 2^32.
pub open spec fn w_add(a: u32, b: u32) -> u32 {
    ((a as int + b as int) % 0x1_0000_0000) as u32
}

pub open spec fn w_mul(a: u32, b: u32) -> u32 {
    ((a as int * b as int) % 0x1_0000_0000) as u32
}

pub open spec fn w_sub(a: u32, b: u32) -> u32 {
    ((a as int - b as int) % 0x1_0000_0000) as u32
}

/// Left fold of `+` over numbers, seed `acc`; a non-number stops it.
pub open spec fn sum_from(vals: Seq<Val>, acc: u32) -> Result<u32, EvalError>
    decreases vals.len(),
{
    if vals.len() == 0 {
        Ok(acc)
    } else {
        match vals[0] {
            Val::Number(n) => sum_from(vals.drop_first(), w_add(acc, n)),
            _ => Err(EvalError::TypeMismatch),
        }
    }
}

/// Left fold of `*` over numbers, seed `acc`.
pub open spec fn prod_from(vals: Seq<Val>, acc: u32) -> Result<u32, EvalError>
    decreases vals.len(),
{
    if vals.len() == 0 {
        Ok(acc)
    } else {
        match vals[0] {
            Val::Number(n) => prod_from(vals.drop_first(), w_mul(acc, n)),
            _ => Err(EvalError::TypeMismatch),
        }
    }
}

/// Left fold of `-`: the accumulator minus each following number.
pub open spec fn sub_from(vals: Seq<Val>, acc: u32) -> Result<u32, EvalError>
    decreases vals.len(),
{
    if vals.len() == 0 {
        Ok(acc)
    } else {
        match vals[0] {
            Val::Number(n) => sub_from(vals.drop_first(), w_sub(acc, n)),
            _ => Err(EvalError::TypeMismatch),
        }
    }
}

pub open spec fn is_vararg_name(s: Seq<char>) -> bool {
    s.len() >= 3 && s.subrange(s.len() - 3, s.len() as int) == seq!['.', '.', '.']
}

pub open spec fn strip_dots(s: Seq<char>) -> Seq<char>
    recommends
        s.len() >= 3,
{
    s.subrange(0, s.len() - 3)
}

pub open spec fn all_symbols(params: Seq<Val>) -> bool {
    forall|i: int| 0 <= i < params.len() ==> params[i] is Symbol
}

pub open spec fn sym_name(v: Val) -> Seq<char> {
    match v {
        Val::Symbol(s) => s,
        _ => Seq::empty(),
    }
}

/// Constructs a user-defined function or macro from the unevaluated
/// arguments of `fn`/`macro`: a name, a parameter list and the body forms.
/// The defining environment is captured by snapshot, and the function is
/// stamped with the next identity; the counter after the construction is
/// returned alongside. If the last declared parameter name ends in `...`,
/// the three dots are stripped and the parameter becomes the rest
/// parameter.
pub open spec fn make_fn_s(args: Seq<Val>, env: EnvS, ctr: u64, is_macro: bool) -> Result<
    (Val, u64),
    EvalError,
> {
    if args.len() < 2 {
        Err(EvalError::ArityMismatch)
    } else {
        match (args[0], args[1]) {
            (Val::Symbol(name), Val::List(params)) => {
                if !all_symbols(params) {
                    Err(EvalError::TypeMismatch)
                } else if ctr == u64::MAX {
                    Err(EvalError::OutOfFuel)
                } else {
                    let names = params.map_values(|p: Val| sym_name(p));
                    let has_va = names.len() > 0 && is_vararg_name(names.last());
                    let fixed = if has_va {
                        names.drop_last()
                    } else {
                        names
                    };
                    let va = if has_va {
                        Option::Some(strip_dots(names.last()))
                    } else {
                        Option::None
                    };
                    Ok(
                        (
                            Val::Function(
                                FnVal::UserDefined(
                                    Lambda {
                                        is_macro,
                                        context: env,
                                        name,
                                        params: fixed,
                                        vararg: va,
                                        body: args.subrange(2, args.len() as int),
                                        id: ctr,
                                    },
                                ),
                            ),
                            (ctr + 1) as u64,
                        ),
                    )
                }
            },
            (Val::Symbol(_), _) => Err(EvalError::TypeMismatch),
            _ => Err(EvalError::TypeMismatch),
        }
    }
}

/// The call frame of a user-defined function: the base environment extended
/// with the fixed parameters, then the rest parameter (the remaining
/// arguments as a list), then the function's own name bound to the function
/// itself, which supports recursion through the name.
pub open spec fn frame_of(lam: Lambda, f: FnVal, argvals: Seq<Val>, base: EnvS) -> EnvS {
    let n = lam.params.len() as int;
    let fixed = base + Seq::new(n as nat, |i: int| (lam.params[i], argvals[i]));
    let with_va = match lam.vararg {
        Option::Some(vn) => fixed.push(
            (vn, Val::List(argvals.subrange(n, argvals.len() as int))),
        ),
        Option::None => fixed,
    };
    with_va.push((lam.name, Val::Function(f)))
}

/// Evaluates one form. Numbers, booleans and functions evaluate to
/// themselves; a symbol to the value bound to it; a non-empty list as an
/// application of its evaluated head to the remaining forms.
pub open spec fn eval_s(v: Val, env: EnvS, ctr: u64, out: Seq<Val>, fuel: nat) -> SOut
    decreases fuel, v, 0int,
{
    match v {
        Val::Number(_) => SOut { env, ctr, out, res: Ok(v) },
        Val::Bool(_) => SOut { env, ctr, out, res: Ok(v) },
        Val::Function(_) => SOut { env, ctr, out, res: Ok(v) },
        Val::Symbol(name) => match lookup_s(env, name) {
            Option::Some(w) => SOut { env, ctr, out, res: Ok(w) },
            Option::None => SOut { env, ctr, out, res: Err(EvalError::UnboundSymbol) },
        },
        Val::List(elems) => {
            if elems.len() == 0 {
                SOut { env, ctr, out, res: Ok(Val::List(Seq::empty())) }
            } else {
                let head = eval_s(elems[0], env, ctr, out, fuel);
                match head.res {
                    Err(e) => SOut { env: head.env, ctr: head.ctr, out: head.out, res: Err(e) },
                    Ok(hv) => match hv {
                        Val::Function(f) => apply_s(
                            f,
                            elems.subrange(1, elems.len() as int),
                            head.env,
                            head.ctr,
                            head.out,
                            fuel,
                        ),
                        _ => SOut {
                            env: head.env,
                            ctr: head.ctr,
                            out: head.out,
                            res: Err(EvalError::TypeMismatch),
                        },
                    },
                }
            }
        },
    }
}

/// Evaluates forms left to right, threading the state; the first error
/// stops the walk.
pub open spec fn evals_s(forms: Seq<Val>, env: EnvS, ctr: u64, out: Seq<Val>, fuel: nat) -> SOutSeq
    decreases fuel, forms, 1int,
{
    if forms.len() == 0 {
        SOutSeq { env, ctr, out, res: Ok(Seq::empty()) }
    } else {
        let first = eval_s(forms[0], env, ctr, out, fuel);
        match first.res {
            Err(e) => SOutSeq { env: first.env, ctr: first.ctr, out: first.out, res: Err(e) },
            Ok(v0) => {
                let rest = evals_s(forms.drop_first(), first.env, first.ctr, first.out, fuel);
                match rest.res {
                    Err(e) => SOutSeq {
                        env: rest.env,
                        ctr: rest.ctr,
                        out: rest.out,
                        res: Err(e),
                    },
                    Ok(vs) => SOutSeq {
                        env: rest.env,
                        ctr: rest.ctr,
                        out: rest.out,
                        res: Ok(seq![v0] + vs),
                    },
                }
            },
        }
    }
}

/// Evaluates the bindings of a `let` in order into `scope`, so that a later
/// binding sees the earlier ones. A binding that is not a list is skipped;
/// in a pair, the name must be a symbol and the value form is evaluated in
/// the scope built so far.
pub open spec fn bind_lets_s(
    bindings: Seq<Val>,
    scope: EnvS,
    ctr: u64,
    out: Seq<Val>,
    fuel: nat,
) -> BindOut
    decreases fuel, bindings, 1int,
{
    if bindings.len() == 0 {
        BindOut { ctr, out, res: Ok(scope) }
    } else {
        match bindings[0] {
            Val::List(b) => {
                if b.len() < 2 {
                    BindOut { ctr, out, res: Err(EvalError::ArityMismatch) }
                } else {
                    match b[0] {
                        Val::Symbol(name) => {
                            let o = eval_s(b[1], scope, ctr, out, fuel);
                            match o.res {
                                Err(e) => BindOut { ctr: o.ctr, out: o.out, res: Err(e) },
                                Ok(value) => bind_lets_s(
                                    bindings.drop_first(),
                                    o.env.push((name, value)),
                                    o.ctr,
                                    o.out,
                                    fuel,
                                ),
                            }
                        },
                        _ => BindOut { ctr, out, res: Err(EvalError::TypeMismatch) },
                    }
                }
            },
            _ => bind_lets_s(bindings.drop_first(), scope, ctr, out, fuel),
        }
    }
}

/// Applies a function value to unevaluated argument forms. A native
/// decides per argument whether to evaluate. A user-defined function
/// evaluates all arguments in the caller's environment and runs its body in
/// a frame built over its captured environment; a macro takes the arguments
/// unevaluated, runs its body in a frame built over the caller's
/// environment, and the resulting forms are then evaluated again in the
/// caller's environment, the last result winning.
pub open spec fn apply_s(
    f: FnVal,
    args: Seq<Val>,
    env: EnvS,
    ctr: u64,
    out: Seq<Val>,
    fuel: nat,
) -> SOut
    decreases fuel, args, 3int,
{
    match f {
        FnVal::Native(_, op) => native_s(op, args, env, ctr, out, fuel),
        FnVal::UserDefined(lam) => {
            let arity_ok = if lam.vararg is Some {
                args.len() >= lam.params.len()
            } else {
                args.len() == lam.params.len()
            };
            if !arity_ok {
                SOut { env, ctr, out, res: Err(EvalError::ArityMismatch) }
            } else if lam.body.len() == 0 {
                SOut { env, ctr, out, res: Err(EvalError::ArityMismatch) }
            } else if fuel == 0 {
                SOut { env, ctr, out, res: Err(EvalError::OutOfFuel) }
            } else if lam.is_macro {
                let frame = frame_of(lam, f, args, env);
                let body_out = evals_s(lam.body, frame, ctr, out, (fuel - 1) as nat);
                match body_out.res {
                    Err(e) => SOut { env, ctr: body_out.ctr, out: body_out.out, res: Err(e) },
                    Ok(expansion) => {
                        let second = evals_s(
                            expansion,
                            env,
                            body_out.ctr,
                            body_out.out,
                            (fuel - 1) as nat,
                        );
                        match second.res {
                            Err(e) => SOut {
                                env: second.env,
                                ctr: second.ctr,
                                out: second.out,
                                res: Err(e),
                            },
                            Ok(vs) => {
                                if vs.len() == 0 {
                                    SOut {
                                        env: second.env,
                                        ctr: second.ctr,
                                        out: second.out,
                                        res: Err(EvalError::ArityMismatch),
                                    }
                                } else {
                                    SOut {
                                        env: second.env,
                                        ctr: second.ctr,
                                        out: second.out,
                                        res: Ok(vs.last()),
                                    }
                                }
                            },
                        }
                    },
                }
            } else {
                let argout = evals_s(args, env, ctr, out, fuel);
                match argout.res {
                    Err(e) => SOut {
                        env: argout.env,
                        ctr: argout.ctr,
                        out: argout.out,
                        res: Err(e),
                    },
                    Ok(vals) => {
                        let frame = frame_of(lam, f, vals, lam.context);
                        let body_out = evals_s(
                            lam.body,
                            frame,
                            argout.ctr,
                            argout.out,
                            (fuel - 1) as nat,
                        );
                        match body_out.res {
                            Err(e) => SOut {
                                env: argout.env,
                                ctr: body_out.ctr,
                                out: body_out.out,
                                res: Err(e),
                            },
                            Ok(results) => {
                                if results.len() == 0 {
                                    SOut {
                                        env: argout.env,
                                        ctr: body_out.ctr,
                                        out: body_out.out,
                                        res: Err(EvalError::ArityMismatch),
                                    }
                                } else {
                                    SOut {
                                        env: argout.env,
                                        ctr: body_out.ctr,
                                        out: body_out.out,
                                        res: Ok(results.last()),
                                    }
                                }
                            },
                        }
                    },
                }
            }
        },
    }
}

/// The built-ins. Special forms (`def`, `let`, `if`, `quote`, `fn`,
/// `macro`, `is-list`) take some arguments unevaluated; the rest evaluate
/// exactly the arguments they use, left to right. `prn` and `dbg` append
/// to the diagnostics log what they would print.
pub open spec fn native_s(
    op: NativeOp,
    args: Seq<Val>,
    env: EnvS,
    ctr: u64,
    out: Seq<Val>,
    fuel: nat,
) -> SOut
    decreases fuel, args, 2int,
{
    match op {
        NativeOp::Quote => {
            if args.len() < 1 {
                SOut { env, ctr, out, res: Err(EvalError::ArityMismatch) }
            } else {
                SOut { env, ctr, out, res: Ok(args[0]) }
            }
        },
        NativeOp::IsList => {
            if args.len() < 1 {
                SOut { env, ctr, out, res: Err(EvalError::ArityMismatch) }
            } else {
                SOut { env, ctr, out, res: Ok(Val::Bool(args[0] is List)) }
            }
        },
        NativeOp::Def => {
            if args.len() < 2 {
                SOut { env, ctr, out, res: Err(EvalError::ArityMismatch) }
            } else {
                match args[0] {
                    Val::Symbol(name) => {
                        let o = eval_s(args[1], env, ctr, out, fuel);
                        match o.res {
                            Err(e) => SOut { env: o.env, ctr: o.ctr, out: o.out, res: Err(e) },
                            Ok(value) => SOut {
                                env: o.env.push((name, value)),
                                ctr: o.ctr,
                                out: o.out,
                                res: Ok(value),
                            },
                        }
                    },
                    _ => SOut { env, ctr, out, res: Err(EvalError::TypeMismatch) },
                }
            }
        },
        NativeOp::Let => {
            if args.len() < 2 {
                SOut { env, ctr, out, res: Err(EvalError::ArityMismatch) }
            } else {
                match args[0] {
                    Val::List(bindings) => {
                        // The whole `let` runs in a copy of the caller's
                        // environment; the caller's own bindings are not
                        // touched.
                        let bound = bind_lets_s(bindings, env, ctr, out, fuel);
                        match bound.res {
                            Err(e) => SOut { env, ctr: bound.ctr, out: bound.out, res: Err(e) },
                            Ok(scope) => {
                                let body = evals_s(
                                    args.subrange(1, args.len() as int),
                                    scope,
                                    bound.ctr,
                                    bound.out,
                                    fuel,
                                );
                                match body.res {
                                    Err(e) => SOut {
                                        env,
                                        ctr: body.ctr,
                                        out: body.out,
                                        res: Err(e),
                                    },
                                    Ok(vs) => {
                                        if vs.len() == 0 {
                                            SOut {
                                                env,
                                                ctr: body.ctr,
                                                out: body.out,
                                                res: Err(EvalError::ArityMismatch),
                                            }
                                        } else {
                                            SOut {
                                                env,
                                                ctr: body.ctr,
                                                out: body.out,
                                                res: Ok(vs.last()),
                                            }
                                        }
                                    },
                                }
                            },
                        }
                    },
                    _ => SOut { env, ctr, out, res: Err(EvalError::TypeMismatch) },
                }
            }
        },
        NativeOp::Fun => {
            match make_fn_s(args, env, ctr, false) {
                Ok((v, c2)) => SOut { env, ctr: c2, out, res: Ok(v) },
                Err(e) => SOut { env, ctr, out, res: Err(e) },
            }
        },
        NativeOp::Mac => {
            match make_fn_s(args, env, ctr, true) {
                Ok((v, c2)) => SOut { env, ctr: c2, out, res: Ok(v) },
                Err(e) => SOut { env, ctr, out, res: Err(e) },
            }
        },
        NativeOp::If => {
            if args.len() < 3 {
                SOut { env, ctr, out, res: Err(EvalError::ArityMismatch) }
            } else {
                let test = eval_s(args[0], env, ctr, out, fuel);
                match test.res {
                    Err(e) => SOut { env: test.env, ctr: test.ctr, out: test.out, res: Err(e) },
                    Ok(tv) => match tv {
                        Val::Bool(true) => eval_s(args[1], test.env, test.ctr, test.out, fuel),
                        Val::Bool(false) => eval_s(args[2], test.env, test.ctr, test.out, fuel),
                        _ => SOut {
                            env: test.env,
                            ctr: test.ctr,
                            out: test.out,
                            res: Err(EvalError::TypeMismatch),
                        },
                    },
                }
            }
        },
        NativeOp::Plus => {
            let o = evals_s(args, env, ctr, out, fuel);
            match o.res {
                Err(e) => SOut { env: o.env, ctr: o.ctr, out: o.out, res: Err(e) },
                Ok(vals) => match sum_from(vals, 0) {
                    Ok(n) => SOut { env: o.env, ctr: o.ctr, out: o.out, res: Ok(Val::Number(n)) },
                    Err(e) => SOut { env: o.env, ctr: o.ctr, out: o.out, res: Err(e) },
                },
            }
        },
        NativeOp::Times => {
            let o = evals_s(args, env, ctr, out, fuel);
            match o.res {
                Err(e) => SOut { env: o.env, ctr: o.ctr, out: o.out, res: Err(e) },
                Ok(vals) => match prod_from(vals, 1) {
                    Ok(n) => SOut { env: o.env, ctr: o.ctr, out: o.out, res: Ok(Val::Number(n)) },
                    Err(e) => SOut { env: o.env, ctr: o.ctr, out: o.out, res: Err(e) },
                },
            }
        },
        NativeOp::Minus => {
            if args.len() < 1 {
                SOut { env, ctr, out, res: Err(EvalError::ArityMismatch) }
            } else {
                let o = evals_s(args, env, ctr, out, fuel);
                match o.res {
                    Err(e) => SOut { env: o.env, ctr: o.ctr, out: o.out, res: Err(e) },
                    Ok(vals) => match vals[0] {
                        Val::Number(first) => match sub_from(vals.drop_first(), first) {
                            Ok(n) => SOut {
                                env: o.env,
                                ctr: o.ctr,
                                out: o.out,
                                res: Ok(Val::Number(n)),
                            },
                            Err(e) => SOut { env: o.env, ctr: o.ctr, out: o.out, res: Err(e) },
                        },
                        _ => SOut {
                            env: o.env,
                            ctr: o.ctr,
                            out: o.out,
                            res: Err(EvalError::TypeMismatch),
                        },
                    },
                }
            }
        },
        NativeOp::Greater => {
            if args.len() < 2 {
                SOut { env, ctr, out, res: Err(EvalError::ArityMismatch) }
            } else {
                let l = eval_s(args[0], env, ctr, out, fuel);
                match l.res {
                    Err(e) => SOut { env: l.env, ctr: l.ctr, out: l.out, res: Err(e) },
                    Ok(lv) => {
                        let r = eval_s(args[1], l.env, l.ctr, l.out, fuel);
                        match r.res {
                            Err(e) => SOut { env: r.env, ctr: r.ctr, out: r.out, res: Err(e) },
                            Ok(rv) => match (lv, rv) {
                                (Val::Number(a), Val::Number(b)) => SOut {
                                    env: r.env,
                                    ctr: r.ctr,
                                    out: r.out,
                                    res: Ok(Val::Bool(a > b)),
                                },
                                _ => SOut {
                                    env: r.env,
                                    ctr: r.ctr,
                                    out: r.out,
                                    res: Err(EvalError::TypeMismatch),
                                },
                            },
                        }
                    },
                }
            }
        },
        NativeOp::Equal => {
            if args.len() < 2 {
                SOut { env, ctr, out, res: Err(EvalError::ArityMismatch) }
            } else {
                let l = eval_s(args[0], env, ctr, out, fuel);
                match l.res {
                    Err(e) => SOut { env: l.env, ctr: l.ctr, out: l.out, res: Err(e) },
                    Ok(lv) => {
                        let r = eval_s(args[1], l.env, l.ctr, l.out, fuel);
                        match r.res {
                            Err(e) => SOut { env: r.env, ctr: r.ctr, out: r.out, res: Err(e) },
                            Ok(rv) => SOut {
                                env: r.env,
                                ctr: r.ctr,
                                out: r.out,
                                res: Ok(Val::Bool(lv == rv)),
                            },
                        }
                    },
                }
            }
        },
        NativeOp::And => {
            if args.len() < 2 {
                SOut { env, ctr, out, res: Err(EvalError::ArityMismatch) }
            } else {
                let l = eval_s(args[0], env, ctr, out, fuel);
                match l.res {
                    Err(e) => SOut { env: l.env, ctr: l.ctr, out: l.out, res: Err(e) },
                    Ok(lv) => {
                        let r = eval_s(args[1], l.env, l.ctr, l.out, fuel);
                        match r.res {
                            Err(e) => SOut { env: r.env, ctr: r.ctr, out: r.out, res: Err(e) },
                            Ok(rv) => match (lv, rv) {
                                // Both arguments are always evaluated; any
                                // non-boolean argument yields false.
                                (Val::Bool(a), Val::Bool(b)) => SOut {
                                    env: r.env,
                                    ctr: r.ctr,
                                    out: r.out,
                                    res: Ok(Val::Bool(a && b)),
                                },
                                _ => SOut {
                                    env: r.env,
                                    ctr: r.ctr,
                                    out: r.out,
                                    res: Ok(Val::Bool(false)),
                                },
                            },
                        }
                    },
                }
            }
        },
        NativeOp::Or => {
            if args.len() < 2 {
                SOut { env, ctr, out, res: Err(EvalError::ArityMismatch) }
            } else {
                let l = eval_s(args[0], env, ctr, out, fuel);
                match l.res {
                    Err(e) => SOut { env: l.env, ctr: l.ctr, out: l.out, res: Err(e) },
                    Ok(lv) => {
                        let r = eval_s(args[1], l.env, l.ctr, l.out, fuel);
                        match r.res {
                            Err(e) => SOut { env: r.env, ctr: r.ctr, out: r.out, res: Err(e) },
                            Ok(rv) => match (lv, rv) {
                                (Val::Bool(a), Val::Bool(b)) => SOut {
                                    env: r.env,
                                    ctr: r.ctr,
                                    out: r.out,
                                    res: Ok(Val::Bool(a || b)),
                                },
                                _ => SOut {
                                    env: r.env,
                                    ctr: r.ctr,
                                    out: r.out,
                                    res: Ok(Val::Bool(false)),
                                },
                            },
                        }
                    },
                }
            }
        },
        NativeOp::Not => {
            if args.len() < 1 {
                SOut { env, ctr, out, res: Err(EvalError::ArityMismatch) }
            } else {
                let o = eval_s(args[0], env, ctr, out, fuel);
                match o.res {
                    Err(e) => SOut { env: o.env, ctr: o.ctr, out: o.out, res: Err(e) },
                    Ok(v) => match v {
                        Val::Bool(b) => SOut {
                            env: o.env,
                            ctr: o.ctr,
                            out: o.out,
                            res: Ok(Val::Bool(!b)),
                        },
                        _ => SOut {
                            env: o.env,
                            ctr: o.ctr,
                            out: o.out,
                            res: Err(EvalError::TypeMismatch),
                        },
                    },
                }
            }
        },
        NativeOp::MakeList => {
            let o = evals_s(args, env, ctr, out, fuel);
            match o.res {
                Err(e) => SOut { env: o.env, ctr: o.ctr, out: o.out, res: Err(e) },
                Ok(vals) => SOut { env: o.env, ctr: o.ctr, out: o.out, res: Ok(Val::List(vals)) },
            }
        },
        NativeOp::Car => {
            if args.len() == 0 {
                SOut { env, ctr, out, res: Ok(Val::List(Seq::empty())) }
            } else {
                let o = eval_s(args[0], env, ctr, out, fuel);
                match o.res {
                    Err(e) => SOut { env: o.env, ctr: o.ctr, out: o.out, res: Err(e) },
                    Ok(v) => match v {
                        Val::List(elems) => {
                            if elems.len() == 0 {
                                SOut {
                                    env: o.env,
                                    ctr: o.ctr,
                                    out: o.out,
                                    res: Ok(Val::List(Seq::empty())),
                                }
                            } else {
                                SOut { env: o.env, ctr: o.ctr, out: o.out, res: Ok(elems[0]) }
                            }
                        },
                        _ => SOut {
                            env: o.env,
                            ctr: o.ctr,
                            out: o.out,
                            res: Err(EvalError::TypeMismatch),
                        },
                    },
                }
            }
        },
        NativeOp::Cdr => {
            if args.len() == 0 {
                SOut { env, ctr, out, res: Ok(Val::List(Seq::empty())) }
            } else {
                let o = eval_s(args[0], env, ctr, out, fuel);
                match o.res {
                    Err(e) => SOut { env: o.env, ctr: o.ctr, out: o.out, res: Err(e) },
                    Ok(v) => match v {
                        Val::List(elems) => {
                            if elems.len() == 0 {
                                SOut {
                                    env: o.env,
                                    ctr: o.ctr,
                                    out: o.out,
                                    res: Ok(Val::List(Seq::empty())),
                                }
                            } else {
                                SOut {
                                    env: o.env,
                                    ctr: o.ctr,
                                    out: o.out,
                                    res: Ok(Val::List(elems.drop_first())),
                                }
                            }
                        },
                        _ => SOut {
                            env: o.env,
                            ctr: o.ctr,
                            out: o.out,
                            res: Err(EvalError::TypeMismatch),
                        },
                    },
                }
            }
        },
        NativeOp::Cons => {
            if args.len() < 2 {
                SOut { env, ctr, out, res: Err(EvalError::ArityMismatch) }
            } else {
                let first = eval_s(args[0], env, ctr, out, fuel);
                match first.res {
                    Err(e) => SOut {
                        env: first.env,
                        ctr: first.ctr,
                        out: first.out,
                        res: Err(e),
                    },
                    Ok(v0) => {
                        let second = eval_s(args[1], first.env, first.ctr, first.out, fuel);
                        match second.res {
                            Err(e) => SOut {
                                env: second.env,
                                ctr: second.ctr,
                                out: second.out,
                                res: Err(e),
                            },
                            Ok(v1) => match v1 {
                                Val::List(elems) => SOut {
                                    env: second.env,
                                    ctr: second.ctr,
                                    out: second.out,
                                    res: Ok(Val::List(seq![v0] + elems)),
                                },
                                _ => SOut {
                                    env: second.env,
                                    ctr: second.ctr,
                                    out: second.out,
                                    res: Err(EvalError::TypeMismatch),
                                },
                            },
                        }
                    },
                }
            }
        },
        NativeOp::Push => {
            if args.len() < 2 {
                SOut { env, ctr, out, res: Err(EvalError::ArityMismatch) }
            } else {
                let first = eval_s(args[0], env, ctr, out, fuel);
                match first.res {
                    Err(e) => SOut {
                        env: first.env,
                        ctr: first.ctr,
                        out: first.out,
                        res: Err(e),
                    },
                    Ok(v0) => {
                        let second = eval_s(args[1], first.env, first.ctr, first.out, fuel);
                        match second.res {
                            Err(e) => SOut {
                                env: second.env,
                                ctr: second.ctr,
                                out: second.out,
                                res: Err(e),
                            },
                            Ok(v1) => match v1 {
                                Val::List(elems) => SOut {
                                    env: second.env,
                                    ctr: second.ctr,
                                    out: second.out,
                                    res: Ok(Val::List(elems.push(v0))),
                                },
                                _ => SOut {
                                    env: second.env,
                                    ctr: second.ctr,
                                    out: second.out,
                                    res: Err(EvalError::TypeMismatch),
                                },
                            },
                        }
                    },
                }
            }
        },
        NativeOp::Apply => {
            if args.len() < 2 {
                SOut { env, ctr, out, res: Err(EvalError::ArityMismatch) }
            } else {
                // The list argument is evaluated first, then the function.
                let second = eval_s(args[1], env, ctr, out, fuel);
                match second.res {
                    Err(e) => SOut {
                        env: second.env,
                        ctr: second.ctr,
                        out: second.out,
                        res: Err(e),
                    },
                    Ok(v1) => match v1 {
                        Val::List(elems) => {
                            let first = eval_s(args[0], second.env, second.ctr, second.out, fuel);
                            match first.res {
                                Err(e) => SOut {
                                    env: first.env,
                                    ctr: first.ctr,
                                    out: first.out,
                                    res: Err(e),
                                },
                                Ok(v0) => match v0 {
                                    Val::Function(f) => {
                                        if fuel == 0 {
                                            SOut {
                                                env: first.env,
                                                ctr: first.ctr,
                                                out: first.out,
                                                res: Err(EvalError::OutOfFuel),
                                            }
                                        } else {
                                            apply_s(
                                                f,
                                                elems,
                                                first.env,
                                                first.ctr,
                                                first.out,
                                                (fuel - 1) as nat,
                                            )
                                        }
                                    },
                                    _ => SOut {
                                        env: first.env,
                                        ctr: first.ctr,
                                        out: first.out,
                                        res: Err(EvalError::TypeMismatch),
                                    },
                                },
                            }
                        },
                        _ => SOut {
                            env: second.env,
                            ctr: second.ctr,
                            out: second.out,
                            res: Err(EvalError::TypeMismatch),
                        },
                    },
                }
            }
        },
        NativeOp::Prn => {
            if args.len() < 1 {
                SOut { env, ctr, out, res: Err(EvalError::ArityMismatch) }
            } else {
                let o = eval_s(args[0], env, ctr, out, fuel);
                match o.res {
                    Err(e) => SOut { env: o.env, ctr: o.ctr, out: o.out, res: Err(e) },
                    Ok(v) => SOut { env: o.env, ctr: o.ctr, out: o.out.push(v), res: Ok(v) },
                }
            }
        },
        NativeOp::Dbg => {
            if args.len() < 1 {
                SOut { env, ctr, out, res: Err(EvalError::ArityMismatch) }
            } else {
                let o = eval_s(args[0], env, ctr, out, fuel);
                match o.res {
                    Err(e) => SOut { env: o.env, ctr: o.ctr, out: o.out, res: Err(e) },
                    Ok(v) => SOut {
                        env: o.env,
                        ctr: o.ctr,
                        out: o.out.push(args[0]).push(v),
                        res: Ok(v),
                    },
                }
            }
        },
    }
}

/// A successful evaluation of a sequence of forms yields one value per
/// form.
pub proof fn lemma_evals_len(forms: Seq<Val>, env: EnvS, ctr: u64, out: Seq<Val>, fuel: nat)
    ensures
        (evals_s(forms, env, ctr, out, fuel).res matches Ok(vs) ==> vs.len() == forms.len()),
    decreases forms.len(),
{
    if forms.len() > 0 {
        let first = eval_s(forms[0], env, ctr, out, fuel);
        if first.res is Ok {
            lemma_evals_len(forms.drop_first(), first.env, first.ctr, first.out, fuel);
        }
    }
}

/// The standard library's wrapping addition computes `w_add`.
pub proof fn lemma_wrapping_add_u32(a: u32, b: u32)
    ensures
        vstd::wrapping::u32_specs::wrapping_add(a, b) == w_add(a, b),
{
    if a + b > u32::MAX {
        vstd::arithmetic::div_mod::lemma_mod_sub_multiples_vanish(
            a as int + b as int,
            0x1_0000_0000,
        );
        vstd::arithmetic::div_mod::lemma_small_mod(
            (a as int + b as int - 0x1_0000_0000) as nat,
            0x1_0000_0000,
        );
    } else {
        vstd::arithmetic::div_mod::lemma_small_mod((a + b) as nat, 0x1_0000_0000);
    }
}

/// The standard library's wrapping multiplication computes `w_mul`.
pub proof fn lemma_wrapping_mul_u32(a: u32, b: u32)
    ensures
        vstd::wrapping::u32_specs::wrapping_mul(a, b) == w_mul(a, b),
{
}

/// The standard library's wrapping subtraction computes `w_sub`.
pub proof fn lemma_wrapping_sub_u32(a: u32, b: u32)
    ensures
        vstd::wrapping::u32_specs::wrapping_sub(a, b) == w_sub(a, b),
{
    if a < b {
        vstd::arithmetic::div_mod::lemma_mod_add_multiples_vanish(
            a as int - b as int,
            0x1_0000_0000,
        );
        vstd::arithmetic::div_mod::lemma_small_mod(
            (a as int - b as int + 0x1_0000_0000) as nat,
            0x1_0000_0000,
        );
    } else {
        vstd::arithmetic::div_mod::lemma_small_mod((a - b) as nat, 0x1_0000_0000);
    }
}

/// Evaluates top-level forms in order and returns the value of the last
/// one; no forms at all give the empty list.
pub open spec fn run_forms_s(forms: Seq<Val>, env: EnvS, ctr: u64, fuel: nat) -> SOut {
    if forms.len() == 0 {
        SOut { env, ctr, out: Seq::empty(), res: Ok(Val::List(Seq::empty())) }
    } else {
        let o = evals_s(forms, env, ctr, Seq::empty(), fuel);
        match o.res {
            Err(e) => SOut { env: o.env, ctr: o.ctr, out: o.out, res: Err(e) },
            Ok(vs) => {
                if vs.len() == 0 {
                    SOut { env: o.env, ctr: o.ctr, out: o.out, res: Err(EvalError::ArityMismatch) }
                } else {
                    SOut { env: o.env, ctr: o.ctr, out: o.out, res: Ok(vs.last()) }
                }
            },
        }
    }
}

} // verus!
