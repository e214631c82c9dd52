//! The value model and the environment.
//!
//! A value is a closed sum: symbols, booleans, unsigned 32-bit numbers,
//! lists, and functions (native or user-defined). An environment maps names
//! to values; entering a scope copies the environment, so a closure's
//! captured scope never observes later mutations of its defining scope.
//!
//! Every type here has a ghost view into the model of `crate::semantics`,
//! and the executable helpers (`duplicate`, `value_eq`, the environment
//! methods) are verified against those views.

use vstd::prelude::*;
use crate::semantics::{
    EnvS,
    EvalError,
    FnVal,
    Lambda,
    NativeOp,
    SOut,
    Val,
    apply_s,
    eval_s,
    evals_s,
    frame_of,
    lookup_s,
    run_forms_s,
};

verus! {

/// A value of the language.
#[derive(Debug, PartialEq)]
pub enum Type {
    Symbol(String),
    Bool(bool),
    Number(u32),
    List(Vec<Type>),
    Function(FunctionType),
}

/// A callable value: a built-in, or a user-defined function or macro.
#[derive(Debug, PartialEq)]
pub enum FunctionType {
    Native(String, NativeOp),
    UserDefined(Function),
}

/// A user-defined function or macro.
#[derive(Debug, PartialEq)]
pub struct Function {
    pub is_macro: bool,
    /// Snapshot of the environment at the moment of definition.
    pub context: Context,
    /// The function's own name; rebound in each call frame for recursion.
    pub name: String,
    /// The fixed parameter names.
    pub args: Vec<String>,
    /// The rest-parameter name, present iff the last declared parameter
    /// ended in `...` (the dots are stripped).
    pub vararg: Option<String>,
    /// The body forms; the last one's value is the call's result.
    pub body: Vec<Type>,
    /// The identity drawn when this function was constructed; copies share
    /// it, distinct constructions never do.
    pub id: u64,
}

/// An environment: names bound to values. Insertion pushes a pair; a
/// lookup takes the pair pushed last, so the environment behaves as a map.
/// The environment also carries the interpreter's bookkeeping between
/// driver calls: the identity counter that `fn`/`macro` constructions draw
/// from, and the diagnostics log that `prn`/`dbg` append to.
#[derive(Debug, PartialEq)]
pub struct Context {
    table: Vec<(String, Type)>,
    next_id: u64,
    output: Vec<Type>,
}

/// The ghost values of a value vector, in order.
pub open spec fn deep_seq(s: Seq<Type>) -> Seq<Val>
    decreases s,
{
    Seq::new(
        s.len(),
        |i: int|
            if 0 <= i < s.len() {
                s[i].deep()
            } else {
                Val::Bool(false)
            },
    )
}

/// The ghost bindings of a binding vector, in order.
pub open spec fn deep_pairs(s: Seq<(String, Type)>) -> EnvS
    decreases s,
{
    Seq::new(
        s.len(),
        |i: int|
            if 0 <= i < s.len() {
                (s[i].0@, s[i].1.deep())
            } else {
                (Seq::<char>::empty(), Val::Bool(false))
            },
    )
}

/// The character sequences of a name vector, in order.
pub open spec fn names_of(s: Seq<String>) -> Seq<Seq<char>> {
    s.map_values(|n: String| n@)
}

/// Taking a subrange commutes with taking ghost values.
pub proof fn lemma_deep_seq_subrange(s: Seq<Type>, i: int, j: int)
    requires
        0 <= i <= j <= s.len(),
    ensures
        deep_seq(s.subrange(i, j)) == deep_seq(s).subrange(i, j),
{
    assert(deep_seq(s.subrange(i, j)) =~= deep_seq(s).subrange(i, j));
}

impl Type {
    /// The ghost value this value stands for.
    pub open spec fn deep(&self) -> Val
        decreases self,
    {
        match self {
            Type::Symbol(s) => Val::Symbol(s@),
            Type::Bool(b) => Val::Bool(*b),
            Type::Number(n) => Val::Number(*n),
            Type::List(elems) => Val::List(deep_seq(elems@)),
            Type::Function(f) => Val::Function(f.deep()),
        }
    }
}

impl FunctionType {
    pub open spec fn deep(&self) -> FnVal
        decreases self,
    {
        match self {
            FunctionType::Native(name, op) => FnVal::Native(name@, *op),
            FunctionType::UserDefined(f) => FnVal::UserDefined(f.deep()),
        }
    }
}

impl Function {
    pub open spec fn deep(&self) -> Lambda
        decreases self,
    {
        Lambda {
            is_macro: self.is_macro,
            context: self.context.deep(),
            name: self.name@,
            params: names_of(self.args@),
            vararg: match self.vararg {
                Option::Some(ref v) => Option::Some(v@),
                Option::None => Option::None,
            },
            body: deep_seq(self.body@),
            id: self.id,
        }
    }
}

/// The ghost result of an evaluation result.
pub open spec fn res_deep(r: Result<Type, EvalError>) -> Result<Val, EvalError> {
    match r {
        Ok(v) => Ok(v.deep()),
        Err(e) => Err(e),
    }
}

/// The ghost results of a sequence of evaluation results.
pub open spec fn ress_deep(r: Result<Vec<Type>, EvalError>) -> Result<Seq<Val>, EvalError> {
    match r {
        Ok(vs) => Ok(deep_seq(vs@)),
        Err(e) => Err(e),
    }
}

impl Context {
    /// The ghost environment this environment stands for.
    pub closed spec fn deep(&self) -> EnvS
        decreases self,
    {
        deep_pairs(self.table@)
    }

    /// The next function identity to be drawn.
    pub closed spec fn counter(&self) -> u64 {
        self.next_id
    }

    /// The values that `prn` and `dbg` have recorded and nobody has taken
    /// yet.
    pub closed spec fn log(&self) -> Seq<Val> {
        deep_seq(self.output@)
    }

    /// An empty environment with a fresh counter and an empty log.
    pub fn new() -> (r: Context)
        ensures
            r.deep() == Seq::<(Seq<char>, Val)>::empty(),
            r.counter() == 0,
            r.log() == Seq::<Val>::empty(),
    {
        let r = Context { table: Vec::new(), next_id: 0, output: Vec::new() };
        proof {
            assert(r.deep() =~= Seq::<(Seq<char>, Val)>::empty());
            assert(r.log() =~= Seq::<Val>::empty());
        }
        r
    }

    /// Binds `name` to `value`; an earlier binding of the same name is
    /// shadowed.
    pub fn insert(&mut self, name: String, value: Type)
        ensures
            final (self).deep() == old(self).deep().push((name@, value.deep())),
            final (self).counter() == old(self).counter(),
            final (self).log() == old(self).log(),
    {
        let ghost pre = self.deep();
        self.table.push((name, value));
        proof {
            assert(self.deep() =~= pre.push((name@, value.deep())));
        }
    }

    /// The value bound to `name`, as a fresh copy, or nothing where the
    /// name is unbound.
    #[verifier::loop_isolation(false)]
    pub fn lookup(&self, name: &String) -> (r: Option<Type>)
        ensures
            (match r {
                Option::Some(v) => lookup_s(self.deep(), name@) == Option::Some(v.deep()),
                Option::None => lookup_s(self.deep(), name@) == Option::<Val>::None,
            }),
    {
        let mut i: usize = self.table.len();
        proof {
            assert(self.deep().subrange(0, i as int) =~= self.deep());
        }
        while i > 0
            invariant
                i <= self.table.len(),
                lookup_s(self.deep(), name@) == lookup_s(
                    self.deep().subrange(0, i as int),
                    name@,
                ),
            decreases i,
        {
            i = i - 1;
            let entry = &self.table[i];
            let ghost pre = self.deep().subrange(0, i + 1);
            proof {
                assert(pre.drop_last() =~= self.deep().subrange(0, i as int));
            }
            if entry.0 == *name {
                return Some(entry.1.duplicate());
            }
        }
        proof {
            assert(self.deep().subrange(0, 0) =~= Seq::<(Seq<char>, Val)>::empty());
        }
        None
    }

    /// A fresh copy of the environment, used when a scope is entered.
    #[verifier::loop_isolation(false)]
    pub fn duplicate(&self) -> (r: Context)
        ensures
            r.deep() == self.deep(),
        decreases self,
    {
        let mut table: Vec<(String, Type)> = Vec::new();
        let mut i: usize = 0;
        while i < self.table.len()
            invariant
                i <= self.table.len(),
                table@.len() == i,
                forall|j: int|
                    0 <= j < i ==> #[trigger] table@[j].0@ == self.table@[j].0@ && table@[j].1.deep()
                        == self.table@[j].1.deep(),
            decreases self.table.len() - i,
        {
            let entry = &self.table[i];
            proof {
                assert(decreases_to!(*self => self.table));
                assert(decreases_to!(self.table@ => self.table@[i as int]));
            }
            table.push((entry.0.clone(), entry.1.duplicate()));
            i = i + 1;
        }
        let r = Context { table, next_id: 0, output: Vec::new() };
        proof {
            assert(r.deep() =~= self.deep());
        }
        r
    }

    /// Hands out the recorded diagnostics and empties the log; bindings
    /// and the counter are untouched. The host prints these values.
    pub fn take_output(&mut self) -> (r: Vec<Type>)
        ensures
            deep_seq(r@) == old(self).log(),
            final (self).log() == Seq::<Val>::empty(),
            final (self).deep() == old(self).deep(),
            final (self).counter() == old(self).counter(),
    {
        let r = self.output.split_off(0);
        proof {
            assert(r@ =~= old(self).output@);
            assert(self.output@ =~= Seq::<Type>::empty());
            assert(self.log() =~= Seq::<Val>::empty());
            assert(self.deep() =~= old(self).deep());
        }
        r
    }
}

impl Type {
    /// A fresh copy standing for the same ghost value.
    #[verifier::loop_isolation(false)]
    pub fn duplicate(&self) -> (r: Type)
        ensures
            r.deep() == self.deep(),
        decreases self,
    {
        match self {
            Type::Symbol(s) => Type::Symbol(s.clone()),
            Type::Bool(b) => Type::Bool(*b),
            Type::Number(n) => Type::Number(*n),
            Type::List(elems) => {
                let mut out: Vec<Type> = Vec::new();
                let mut i: usize = 0;
                while i < elems.len()
                    invariant
                        i <= elems.len(),
                        out@.len() == i,
                        forall|j: int|
                            0 <= j < i ==> #[trigger] out@[j].deep() == elems@[j].deep(),
                    decreases elems.len() - i,
                {
                    proof {
                        assert(elems@ == self->List_0@);
                        assert(decreases_to!(*self => self->List_0));
                        assert(decreases_to!(self->List_0@ => self->List_0@[i as int]));
                    }
                    out.push(elems[i].duplicate());
                    i = i + 1;
                }
                let r = Type::List(out);
                proof {
                    assert forall|j: int| 0 <= j < out@.len() implies deep_seq(out@)[j] == deep_seq(
                        elems@,
                    )[j] by {
                        assert(deep_seq(out@)[j] == out@[j].deep());
                        assert(deep_seq(elems@)[j] == elems@[j].deep());
                    }
                    assert(deep_seq(out@) =~= deep_seq(elems@));
                }
                r
            },
            Type::Function(f) => Type::Function(f.duplicate()),
        }
    }
}

impl FunctionType {
    pub fn duplicate(&self) -> (r: FunctionType)
        ensures
            r.deep() == self.deep(),
        decreases self,
    {
        match self {
            FunctionType::Native(name, op) => FunctionType::Native(name.clone(), *op),
            FunctionType::UserDefined(f) => FunctionType::UserDefined(f.duplicate()),
        }
    }
}

impl Function {
    #[verifier::loop_isolation(false)]
    pub fn duplicate(&self) -> (r: Function)
        ensures
            r.deep() == self.deep(),
        decreases self,
    {
        let mut args: Vec<String> = Vec::new();
        let mut i: usize = 0;
        while i < self.args.len()
            invariant
                i <= self.args.len(),
                args@.len() == i,
                forall|j: int| 0 <= j < i ==> #[trigger] args@[j]@ == self.args@[j]@,
            decreases self.args.len() - i,
        {
            args.push(self.args[i].clone());
            i = i + 1;
        }
        let mut body: Vec<Type> = Vec::new();
        let mut k: usize = 0;
        while k < self.body.len()
            invariant
                k <= self.body.len(),
                body@.len() == k,
                forall|j: int| 0 <= j < k ==> #[trigger] body@[j].deep() == self.body@[j].deep(),
            decreases self.body.len() - k,
        {
            proof {
                assert(decreases_to!(*self => self.body));
                assert(decreases_to!(self.body@ => self.body@[k as int]));
            }
            body.push(self.body[k].duplicate());
            k = k + 1;
        }
        let vararg = match &self.vararg {
            Option::Some(v) => Option::Some(v.clone()),
            Option::None => Option::None,
        };
        let r = Function {
            is_macro: self.is_macro,
            context: self.context.duplicate(),
            name: self.name.clone(),
            args,
            vararg,
            body,
            id: self.id,
        };
        proof {
            assert(names_of(r.args@) =~= names_of(self.args@));
            assert forall|j: int| 0 <= j < r.body@.len() implies deep_seq(r.body@)[j] == deep_seq(
                self.body@,
            )[j] by {
                assert(deep_seq(r.body@)[j] == r.body@[j].deep());
                assert(deep_seq(self.body@)[j] == self.body@[j].deep());
            }
            assert(deep_seq(r.body@) =~= deep_seq(self.body@));
            assert(r.deep() =~= self.deep());
        }
        r
    }
}

/// Structural equality of two values, deciding equality of their ghost
/// values. Lists compare element-wise; native functions by name and
/// implementation identity; user-defined functions field by field,
/// captured environments and the identity drawn at construction included,
/// so a function value equals its copies but never a separately
/// constructed function, even one with identical source.
#[verifier::loop_isolation(false)]
pub fn value_eq(a: &Type, b: &Type) -> (r: bool)
    ensures
        r == (a.deep() == b.deep()),
    decreases a,
{
    match (a, b) {
        (Type::Symbol(s1), Type::Symbol(s2)) => *s1 == *s2,
        (Type::Bool(b1), Type::Bool(b2)) => *b1 == *b2,
        (Type::Number(n1), Type::Number(n2)) => *n1 == *n2,
        (Type::List(x), Type::List(y)) => {
            if x.len() != y.len() {
                proof {
                    assert(deep_seq(x@).len() != deep_seq(y@).len());
                }
                false
            } else {
                let mut i: usize = 0;
                while i < x.len()
                    invariant
                        i <= x.len(),
                        x@.len() == y@.len(),
                        forall|j: int|
                            0 <= j < i ==> #[trigger] deep_seq(x@)[j] == deep_seq(y@)[j],
                    decreases x.len() - i,
                {
                    proof {
                        assert(x@ == a->List_0@);
                        assert(decreases_to!(*a => a->List_0));
                        assert(decreases_to!(a->List_0@ => a->List_0@[i as int]));
                    }
                    if !value_eq(&x[i], &y[i]) {
                        proof {
                            assert(deep_seq(x@)[i as int] != deep_seq(y@)[i as int]);
                        }
                        return false;
                    }
                    i = i + 1;
                }
                proof {
                    assert(deep_seq(x@) =~= deep_seq(y@));
                }
                true
            }
        },
        (Type::Function(f1), Type::Function(f2)) => fntype_eq(f1, f2),
        _ => false,
    }
}

fn fntype_eq(a: &FunctionType, b: &FunctionType) -> (r: bool)
    ensures
        r == (a.deep() == b.deep()),
    decreases a,
{
    match (a, b) {
        (FunctionType::Native(n1, op1), FunctionType::Native(n2, op2)) => *n1 == *n2 && *op1
            == *op2,
        (FunctionType::UserDefined(f1), FunctionType::UserDefined(f2)) => function_eq(f1, f2),
        _ => false,
    }
}

#[verifier::loop_isolation(false)]
fn function_eq(a: &Function, b: &Function) -> (r: bool)
    ensures
        r == (a.deep() == b.deep()),
    decreases a,
{
    if a.is_macro != b.is_macro {
        return false;
    }
    if a.id != b.id {
        return false;
    }
    if !(a.name == b.name) {
        return false;
    }
    match (&a.vararg, &b.vararg) {
        (Option::Some(v1), Option::Some(v2)) => {
            if !(*v1 == *v2) {
                return false;
            }
        },
        (Option::None, Option::None) => {},
        _ => {
            return false;
        },
    }
    if a.args.len() != b.args.len() {
        proof {
            assert(names_of(a.args@).len() != names_of(b.args@).len());
        }
        return false;
    }
    let mut i: usize = 0;
    while i < a.args.len()
        invariant
            i <= a.args.len(),
            a.args@.len() == b.args@.len(),
            forall|j: int| 0 <= j < i ==> #[trigger] names_of(a.args@)[j] == names_of(b.args@)[j],
        decreases a.args.len() - i,
    {
        if !(a.args[i] == b.args[i]) {
            proof {
                assert(names_of(a.args@)[i as int] != names_of(b.args@)[i as int]);
            }
            return false;
        }
        i = i + 1;
    }
    proof {
        assert(names_of(a.args@) =~= names_of(b.args@));
    }
    if a.body.len() != b.body.len() {
        proof {
            assert(deep_seq(a.body@).len() != deep_seq(b.body@).len());
        }
        return false;
    }
    let mut k: usize = 0;
    while k < a.body.len()
        invariant
            k <= a.body.len(),
            a.body@.len() == b.body@.len(),
            forall|j: int| 0 <= j < k ==> #[trigger] deep_seq(a.body@)[j] == deep_seq(b.body@)[j],
        decreases a.body.len() - k,
    {
        proof {
            assert(decreases_to!(*a => a.body));
            assert(decreases_to!(a.body@ => a.body@[k as int]));
        }
        if !value_eq(&a.body[k], &b.body[k]) {
            proof {
                assert(deep_seq(a.body@)[k as int] != deep_seq(b.body@)[k as int]);
            }
            return false;
        }
        k = k + 1;
    }
    proof {
        assert(deep_seq(a.body@) =~= deep_seq(b.body@));
    }
    if !context_eq(&a.context, &b.context) {
        return false;
    }
    proof {
        assert(a.deep() =~= b.deep());
    }
    true
}

#[verifier::loop_isolation(false)]
fn context_eq(a: &Context, b: &Context) -> (r: bool)
    ensures
        r == (a.deep() == b.deep()),
    decreases a,
{
    if a.table.len() != b.table.len() {
        proof {
            assert(a.deep().len() != b.deep().len());
        }
        return false;
    }
    let mut i: usize = 0;
    while i < a.table.len()
        invariant
            i <= a.table.len(),
            a.table@.len() == b.table@.len(),
            forall|j: int| 0 <= j < i ==> #[trigger] a.deep()[j] == b.deep()[j],
        decreases a.table.len() - i,
    {
        let ea = &a.table[i];
        let eb = &b.table[i];
        proof {
            assert(decreases_to!(*a => a.table));
            assert(decreases_to!(a.table@ => a.table@[i as int]));
        }
        if !(ea.0 == eb.0) {
            proof {
                assert(a.deep()[i as int] != b.deep()[i as int]);
            }
            return false;
        }
        if !value_eq(&ea.1, &eb.1) {
            proof {
                assert(a.deep()[i as int] != b.deep()[i as int]);
            }
            return false;
        }
        i = i + 1;
    }
    proof {
        assert(a.deep() =~= b.deep());
    }
    true
}

/// The empty list, the value that stands for nothing.
pub(crate) fn empty_list() -> (r: Type)
    ensures
        r.deep() == Val::List(Seq::<Val>::empty()),
{
    let r = Type::List(Vec::new());
    proof {
        assert(deep_seq(r->List_0@) =~= Seq::<Val>::empty());
    }
    r
}

/// A fresh copy of a slice of values.
#[verifier::loop_isolation(false)]
pub(crate) fn dup_slice(xs: &[Type]) -> (r: Vec<Type>)
    ensures
        deep_seq(r@) == deep_seq(xs@),
{
    broadcast use {
        crate::views::lemma_deep_seq_index,
        crate::views::lemma_names_of_index,
    };
    let mut out: Vec<Type> = Vec::new();
    let mut i: usize = 0;
    while i < xs.len()
        invariant
            i <= xs@.len(),
            out@.len() == i,
            forall|j: int| 0 <= j < i ==> #[trigger] out@[j].deep() == xs@[j].deep(),
        decreases xs@.len() - i,
    {
        out.push(xs[i].duplicate());
        i = i + 1;
    }
    proof {
        assert(deep_seq(out@) =~= deep_seq(xs@));
    }
    out
}

/// Builds the call frame of a user-defined function over `base`: the fixed
/// parameters bound to the leading argument values, the rest parameter (if
/// any) to the remaining values as a list, and the function's own name to
/// the function itself, so that recursion through the name works.
#[verifier::loop_isolation(false)]
fn bind_frame(f: &Function, whole: &FunctionType, argvals: Vec<Type>, base: Context) -> (frame:
    Context)
    requires
        argvals@.len() >= f.args@.len(),
        whole.deep() == FnVal::UserDefined(f.deep()),
    ensures
        frame.deep() == frame_of(f.deep(), whole.deep(), deep_seq(argvals@), base.deep()),
{
    broadcast use {
        crate::views::lemma_deep_seq_index,
        crate::views::lemma_names_of_index,
    };
    let ghost lam = f.deep();
    let ghost avals = deep_seq(argvals@);
    let ghost base0 = base.deep();
    let n = f.args.len();
    let mut frame = base;
    let mut i: usize = 0;
    while i < n
        invariant
            i <= n,
            frame.deep() == base0 + Seq::new(i as nat, |k: int| (lam.params[k], avals[k])),
        decreases n - i,
    {
        frame.insert(f.args[i].clone(), argvals[i].duplicate());
        i = i + 1;
        proof {
            assert(frame.deep() =~= base0 + Seq::new(i as nat, |k: int| (lam.params[k], avals[k])));
        }
    }
    let mut argvals = argvals;
    let ghost argvals0 = argvals@;
    let rest = argvals.split_off(n);
    match &f.vararg {
        Option::Some(vn) => {
            proof {
                lemma_deep_seq_subrange(argvals0, n as int, argvals0.len() as int);
                assert(deep_seq(rest@) == avals.subrange(n as int, avals.len() as int));
            }
            frame.insert(vn.clone(), Type::List(rest));
        },
        Option::None => {},
    }
    frame.insert(f.name.clone(), Type::Function(whole.duplicate()));
    proof {
        assert(frame.deep() =~= frame_of(lam, whole.deep(), avals, base0));
    }
    frame
}

impl Type {
    /// Evaluates this form in `context`: numbers, booleans and functions
    /// evaluate to themselves, a symbol to the value bound to it, the empty
    /// list to itself, and a non-empty list as an application of its
    /// evaluated head, which must be a function, to the remaining forms.
    /// `ids` supplies function identities and `out` collects diagnostics;
    /// the result, environment, counter and log are exactly what the spec
    /// interpreter says.
    pub fn eval(
        &self,
        context: &mut Context,
        ids: &mut u64,
        out: &mut Vec<Type>,
        fuel: u64,
    ) -> (r: Result<Type, EvalError>)
        ensures
            ({
                let o = eval_s(
                    self.deep(),
                    old(context).deep(),
                    *old(ids),
                    deep_seq(old(out)@),
                    fuel as nat,
                );
                o.res == res_deep(r) && final (context).deep() == o.env && *final (ids) == o.ctr
                    && deep_seq(final (out)@) == o.out && final (context).counter() == old(
                    context,
                ).counter() && final (context).log() == old(context).log()
            }),
        decreases fuel, self, 0int,
    {
        broadcast use crate::views::lemma_deep_seq_index;

        match self {
            Type::Number(_) => Ok(self.duplicate()),
            Type::Bool(_) => Ok(self.duplicate()),
            Type::Function(_) => Ok(self.duplicate()),
            Type::Symbol(name) => match context.lookup(name) {
                Option::Some(v) => Ok(v),
                Option::None => Err(EvalError::UnboundSymbol),
            },
            Type::List(elems) => {
                if elems.len() == 0 {
                    Ok(empty_list())
                } else {
                    proof {
                        assert(decreases_to!(*self => self->List_0));
                        assert(decreases_to!(self->List_0@ => self->List_0@[0]));
                    }
                    let head = match elems[0].eval(context, ids, out, fuel) {
                        Ok(v) => v,
                        Err(e) => {
                            return Err(e);
                        },
                    };
                    match head {
                        Type::Function(f) => {
                            let rest = vstd::slice::slice_subrange(
                                elems.as_slice(),
                                1,
                                elems.len(),
                            );
                            proof {
                                lemma_deep_seq_subrange(elems@, 1, elems@.len() as int);
                                assert(decreases_to!(self->List_0@ => self->List_0@.subrange(
                                    1,
                                    self->List_0@.len() as int,
                                )));
                            }
                            f.eval(context, rest, ids, out, fuel)
                        },
                        _ => Err(EvalError::TypeMismatch),
                    }
                }
            },
        }
    }
}

impl FunctionType {
    /// Invokes this function on the unevaluated argument forms `args` in
    /// `context`. A native decides per argument whether to evaluate. A
    /// user-defined function evaluates all arguments in the caller's
    /// environment and runs its body in a frame over its captured
    /// environment; a macro takes the arguments unevaluated, runs its body
    /// in a frame over the caller's environment, and each resulting form is
    /// evaluated again in the caller's environment, the last result
    /// winning. Each user-defined call consumes one unit of fuel.
    pub fn eval(
        &self,
        context: &mut Context,
        args: &[Type],
        ids: &mut u64,
        out: &mut Vec<Type>,
        fuel: u64,
    ) -> (r: Result<Type, EvalError>)
        ensures
            ({
                let o = apply_s(
                    self.deep(),
                    deep_seq(args@),
                    old(context).deep(),
                    *old(ids),
                    deep_seq(old(out)@),
                    fuel as nat,
                );
                o.res == res_deep(r) && final (context).deep() == o.env && *final (ids) == o.ctr
                    && deep_seq(final (out)@) == o.out && final (context).counter() == old(
                    context,
                ).counter() && final (context).log() == old(context).log()
            }),
        decreases fuel, args@, 4int,
    {
        broadcast use crate::views::lemma_deep_seq_index;

        match self {
            FunctionType::Native(_, op) => crate::built_in::apply_native(
                *op,
                context,
                args,
                ids,
                out,
                fuel,
            ),
            FunctionType::UserDefined(f) => {
                let arity_ok = if f.vararg.is_some() {
                    args.len() >= f.args.len()
                } else {
                    args.len() == f.args.len()
                };
                if !arity_ok {
                    return Err(EvalError::ArityMismatch);
                }
                if f.body.len() == 0 {
                    return Err(EvalError::ArityMismatch);
                }
                if fuel == 0 {
                    return Err(EvalError::OutOfFuel);
                }
                if f.is_macro {
                    let argvals = dup_slice(args);
                    let mut frame = bind_frame(f, self, argvals, context.duplicate());
                    let expansion = match eval_forms(
                        f.body.as_slice(),
                        &mut frame,
                        ids,
                        out,
                        fuel - 1,
                    ) {
                        Ok(vs) => vs,
                        Err(e) => {
                            return Err(e);
                        },
                    };
                    let mut second = match eval_forms(
                        expansion.as_slice(),
                        context,
                        ids,
                        out,
                        fuel - 1,
                    ) {
                        Ok(vs) => vs,
                        Err(e) => {
                            return Err(e);
                        },
                    };
                    match second.pop() {
                        Option::Some(v) => Ok(v),
                        Option::None => Err(EvalError::ArityMismatch),
                    }
                } else {
                    let argvals = match eval_forms(args, context, ids, out, fuel) {
                        Ok(vs) => vs,
                        Err(e) => {
                            return Err(e);
                        },
                    };
                    proof {
                        crate::semantics::lemma_evals_len(
                            deep_seq(args@),
                            old(context).deep(),
                            *old(ids),
                            deep_seq(old(out)@),
                            fuel as nat,
                        );
                    }
                    let mut frame = bind_frame(f, self, argvals, f.context.duplicate());
                    let mut results = match eval_forms(
                        f.body.as_slice(),
                        &mut frame,
                        ids,
                        out,
                        fuel - 1,
                    ) {
                        Ok(vs) => vs,
                        Err(e) => {
                            return Err(e);
                        },
                    };
                    match results.pop() {
                        Option::Some(v) => Ok(v),
                        Option::None => Err(EvalError::ArityMismatch),
                    }
                }
            },
        }
    }
}

/// Evaluates forms left to right in `context`, collecting the values; the
/// first error stops the walk.
pub(crate) fn eval_forms(
    forms: &[Type],
    context: &mut Context,
    ids: &mut u64,
    out: &mut Vec<Type>,
    fuel: u64,
) -> (r: Result<Vec<Type>, EvalError>)
    ensures
        ({
            let o = evals_s(
                deep_seq(forms@),
                old(context).deep(),
                *old(ids),
                deep_seq(old(out)@),
                fuel as nat,
            );
            o.res == ress_deep(r) && final (context).deep() == o.env && *final (ids) == o.ctr
                && deep_seq(final (out)@) == o.out && final (context).counter() == old(
                context,
            ).counter() && final (context).log() == old(context).log()
        }),
    decreases fuel, forms@, 1int,
{
    broadcast use crate::views::lemma_deep_seq_index;

    if forms.len() == 0 {
        let r: Vec<Type> = Vec::new();
        proof {
            assert(deep_seq(r@) =~= Seq::<Val>::empty());
        }
        Ok(r)
    } else {
        proof {
            assert(decreases_to!(forms@ => forms@[0]));
        }
        let v0 = match forms[0].eval(context, ids, out, fuel) {
            Ok(v) => v,
            Err(e) => {
                return Err(e);
            },
        };
        let rest_slice = vstd::slice::slice_subrange(forms, 1, forms.len());
        proof {
            lemma_deep_seq_subrange(forms@, 1, forms@.len() as int);
            assert(deep_seq(forms@).drop_first() =~= deep_seq(forms@).subrange(
                1,
                deep_seq(forms@).len() as int,
            ));
            assert(decreases_to!(forms@ => forms@.subrange(1, forms@.len() as int)));
        }
        let mut rest = match eval_forms(rest_slice, context, ids, out, fuel) {
            Ok(vs) => vs,
            Err(e) => {
                return Err(e);
            },
        };
        let ghost pre = deep_seq(rest@);
        rest.insert(0, v0);
        proof {
            assert(deep_seq(rest@) =~= seq![deep_seq(rest@)[0]] + pre);
        }
        Ok(rest)
    }
}

/// The evaluation depth budget of the top-level drivers: each nested call
/// of a user-defined function or macro consumes one unit.
pub const DEFAULT_FUEL: u64 = 0xFFFF_FFFF;

/// The meaning of a whole source text: lex, parse, then evaluate the
/// top-level forms in order, the last one's value winning; no forms at all
/// give the empty list. `ctr` is the identity counter the run starts from;
/// the log starts empty.
pub open spec fn eval_source_s(src: Seq<char>, env: EnvS, ctr: u64, fuel: nat) -> SOut {
    match crate::parser::parse_tokens(crate::lexer::lex(src)) {
        Ok(forms) => run_forms_s(forms, env, ctr, fuel),
        Err(e) => SOut { env, ctr, out: Seq::empty(), res: Err(e) },
    }
}

/// Evaluates a source string against a caller-owned environment, which
/// keeps the bindings that top-level `def`s install, failures included,
/// carries the identity counter across calls, and collects what `prn` and
/// `dbg` recorded (the host takes it with `take_output`).
pub fn eval_in_context(input: &String, context: &mut Context) -> (r: Result<Type, EvalError>)
    ensures
        ({
            let o = eval_source_s(
                input@,
                old(context).deep(),
                old(context).counter(),
                DEFAULT_FUEL as nat,
            );
            o.res == res_deep(r) && final (context).deep() == o.env && final (context).counter()
                == o.ctr && final (context).log() == old(context).log() + o.out
        }),
{
    broadcast use crate::views::lemma_deep_seq_index;

    let tokens = crate::lexer::parse_fsm(input);
    let forms = match crate::parser::build(&tokens, 0) {
        Ok(fs) => fs,
        Err(e) => {
            proof {
                assert(old(context).log() + Seq::<Val>::empty() =~= old(context).log());
            }
            return Err(e);
        },
    };
    if forms.len() == 0 {
        proof {
            assert(old(context).log() + Seq::<Val>::empty() =~= old(context).log());
        }
        return Ok(empty_list());
    }
    let mut ids: u64 = context.next_id;
    let mut recorded: Vec<Type> = Vec::new();
    proof {
        assert(deep_seq(recorded@) =~= Seq::<Val>::empty());
    }
    let outcome = eval_forms(forms.as_slice(), context, &mut ids, &mut recorded, DEFAULT_FUEL);
    let ghost logged = deep_seq(recorded@);
    context.next_id = ids;
    context.output.append(&mut recorded);
    proof {
        assert(context.log() =~= old(context).log() + logged);
    }
    let mut results = match outcome {
        Ok(vs) => vs,
        Err(e) => {
            return Err(e);
        },
    };
    match results.pop() {
        Option::Some(v) => Ok(v),
        Option::None => Err(EvalError::ArityMismatch),
    }
}

/// Evaluates a source string in a fresh environment holding the built-ins,
/// with the identity counter starting at zero. The environment, and with
/// it the diagnostics log, is dropped afterwards; a host that wants the
/// recorded diagnostics evaluates through `eval_in_context` and takes them
/// from its environment.
pub fn eval(input: &String) -> (r: Result<Type, EvalError>)
    ensures
        ({
            let o = eval_source_s(
                input@,
                crate::built_in::builtins_env(),
                0,
                DEFAULT_FUEL as nat,
            );
            o.res == res_deep(r)
        }),
{
    let mut context = crate::built_in::init_context();
    eval_in_context(input, &mut context)
}

} // verus!

