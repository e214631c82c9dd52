//! Parser: turns a token sequence into the top-level forms.
//!
//! The parser is a single left-to-right pass over the tokens with a stack
//! of open lists: the bottom entry collects the top-level forms, an open
//! paren pushes a fresh list, and a close paren pops the top list and
//! appends it, as a value, to the list below. A close paren with no open
//! list, or an open list left at the end of input, is a parse error.
//!
//! The executable `build` is verified against the spec run `parse_run`.

use vstd::prelude::*;
use crate::lexer::{Tok, Tokens, toks_of};
use crate::lisp::{Type, deep_seq};
use crate::semantics::{EvalError, Val};

verus! {

broadcast use crate::views::lemma_deep_seq_index;

/// Appends a parsed value to the innermost open list.
pub open spec fn push_onto_top(stack: Seq<Seq<Val>>, v: Val) -> Seq<Seq<Val>>
    recommends
        stack.len() >= 1,
{
    stack.update(stack.len() - 1, stack.last().push(v))
}

/// The spec parser: one pushdown step per token, from position `i` with the
/// open lists in `stack` (bottom entry first).
pub open spec fn parse_run(toks: Seq<Tok>, i: int, stack: Seq<Seq<Val>>) -> Result<
    Seq<Val>,
    EvalError,
>
    decreases toks.len() - i,
{
    if i < 0 || i >= toks.len() {
        if stack.len() == 1 {
            Ok(stack[0])
        } else {
            Err(EvalError::ParseError)
        }
    } else {
        match toks[i] {
            Tok::Symbol(s) => parse_run(toks, i + 1, push_onto_top(stack, Val::Symbol(s))),
            Tok::Number(n) => parse_run(toks, i + 1, push_onto_top(stack, Val::Number(n))),
            Tok::OP => parse_run(toks, i + 1, stack.push(Seq::empty())),
            Tok::CP => {
                if stack.len() >= 2 {
                    parse_run(
                        toks,
                        i + 1,
                        push_onto_top(stack.drop_last(), Val::List(stack.last())),
                    )
                } else {
                    Err(EvalError::ParseError)
                }
            },
        }
    }
}

/// The top-level forms of a token sequence, or a parse error where the
/// parentheses do not balance.
pub open spec fn parse_tokens(toks: Seq<Tok>) -> Result<Seq<Val>, EvalError> {
    parse_run(toks, 0, seq![Seq::empty()])
}

/// The ghost stack of an executable parser stack.
pub open spec fn stack_of(st: Seq<Vec<Type>>) -> Seq<Seq<Val>> {
    st.map_values(|v: Vec<Type>| deep_seq(v@))
}

/// Builds the top-level forms from the tokens, starting at index `i`.
/// Returns exactly what the spec parser returns: the forms whose views the
/// spec run yields, or the parse error it yields.
pub fn build(tokens: &Vec<Tokens>, i: usize) -> (r: Result<Vec<Type>, EvalError>)
    ensures
        (match r {
            Ok(forms) => parse_run(toks_of(tokens@), i as int, seq![Seq::empty()]) == Ok::<
                Seq<Val>,
                EvalError,
            >(deep_seq(forms@)),
            Err(e) => parse_run(toks_of(tokens@), i as int, seq![Seq::empty()]) == Err::<
                Seq<Val>,
                EvalError,
            >(e),
        }),
{
    let ghost toks = toks_of(tokens@);
    let mut stack: Vec<Vec<Type>> = Vec::new();
    stack.push(Vec::new());
    let mut j: usize = i;
    proof {
        assert(stack_of(stack@) =~~= seq![Seq::<Val>::empty()]);
    }
    while j < tokens.len()
        invariant
            stack.len() >= 1,
            toks == toks_of(tokens@),
            parse_run(toks, i as int, seq![Seq::empty()]) == parse_run(
                toks,
                j as int,
                stack_of(stack@),
            ),
        decreases tokens.len() - j,
    {
        let ghost pre_stack = stack_of(stack@);
        match &tokens[j] {
            Tokens::Symbol(s) => {
                let mut top = stack.pop().unwrap();
                top.push(Type::Symbol(s.clone()));
                stack.push(top);
                proof {
                    assert(stack_of(stack@) =~~= push_onto_top(pre_stack, Val::Symbol(s@)));
                }
            },
            Tokens::Number(n) => {
                let mut top = stack.pop().unwrap();
                top.push(Type::Number(*n));
                stack.push(top);
                proof {
                    assert(stack_of(stack@) =~~= push_onto_top(pre_stack, Val::Number(*n)));
                }
            },
            Tokens::OP => {
                stack.push(Vec::new());
                proof {
                    assert(stack_of(stack@) =~~= pre_stack.push(Seq::empty()));
                }
            },
            Tokens::CP => {
                if stack.len() >= 2 {
                    let closed = stack.pop().unwrap();
                    let mut below = stack.pop().unwrap();
                    below.push(Type::List(closed));
                    stack.push(below);
                    proof {
                        assert(stack_of(stack@) =~~= push_onto_top(
                            pre_stack.drop_last(),
                            Val::List(pre_stack.last()),
                        ));
                    }
                } else {
                    return Err(EvalError::ParseError);
                }
            },
        }
        j = j + 1;
    }
    if stack.len() == 1 {
        let forms = stack.pop().unwrap();
        Ok(forms)
    } else {
        Err(EvalError::ParseError)
    }
}

} // verus!
