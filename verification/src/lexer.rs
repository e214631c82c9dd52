//! Lexer: turns a source string into a sequence of tokens.
//!
//! The lexer is a three-state machine over characters. In the start state,
//! whitespace is skipped, parentheses are emitted directly, a decimal digit
//! opens a number and any other character opens a symbol. A number is
//! extended by digits; a symbol is extended by any character up to the next
//! whitespace or parenthesis, so that names such as `c...` or `->` survive
//! as single tokens. A non-extending character flushes the token in flight
//! and is then reconsidered in the start state. The machine never fails:
//! at end of input the token in flight, if any, is flushed.
//!
//! The executable lexer `parse_fsm` is verified against the spec machine
//! `lex`, which runs over the string's character sequence.

use vstd::prelude::*;

verus! {

/// The tokens of the language: open and close parentheses, unsigned decimal
/// numbers, and symbols.
#[derive(Debug, Clone, PartialEq)]
pub enum Tokens {
    Symbol(String),
    OP,
    CP,
    Number(u32),
}

/// Ghost counterpart of `Tokens`, over character sequences.
pub enum Tok {
    Symbol(Seq<char>),
    OP,
    CP,
    Number(u32),
}

impl View for Tokens {
    type V = Tok;

    open spec fn view(&self) -> Tok {
        match self {
            Tokens::Symbol(s) => Tok::Symbol(s@),
            Tokens::OP => Tok::OP,
            Tokens::CP => Tok::CP,
            Tokens::Number(n) => Tok::Number(*n),
        }
    }
}

/// The token views of a token vector, in order.
pub open spec fn toks_of(ts: Seq<Tokens>) -> Seq<Tok> {
    ts.map_values(|t: Tokens| t@)
}

/// Characters that separate tokens: blanks and parentheses.
pub open spec fn is_space_char(c: char) -> bool {
    c == ' ' || c == '\t' || c == '\n' || c == '\r'
}

pub open spec fn is_digit_char(c: char) -> bool {
    48 <= c as u32 <= 57
}

pub open spec fn digit_val(c: char) -> u32 {
    (c as u32 - 48) as u32
}

/// A character that ends a symbol: whitespace or a parenthesis.
pub open spec fn is_delim_char(c: char) -> bool {
    is_space_char(c) || c == '(' || c == ')'
}

/// Numeric literals accumulate in unsigned 32-bit arithmetic, wrapping on
/// overflow.
pub open spec fn extend_number(acc: u32, d: u32) -> u32 {
    ((acc as int * 10 + d as int) % 0x1_0000_0000) as u32
}

/// The lexer's state: between tokens, inside a number, or inside a symbol.
pub enum LexState {
    Start,
    InNumber(u32),
    InSymbol(Seq<char>),
}

pub open spec fn state_rank(st: LexState) -> int {
    match st {
        LexState::Start => 0,
        _ => 1,
    }
}

/// The spec state machine: the tokens emitted from position `i` onward,
/// starting in state `st`. Flushing a token in flight does not consume the
/// current character; the measure still falls because the state returns to
/// `Start`.
pub open spec fn lex_run(cs: Seq<char>, i: int, st: LexState) -> Seq<Tok>
    decreases cs.len() - i, state_rank(st),
{
    if i < 0 || i >= cs.len() {
        match st {
            LexState::Start => Seq::empty(),
            LexState::InNumber(n) => seq![Tok::Number(n)],
            LexState::InSymbol(s) => seq![Tok::Symbol(s)],
        }
    } else {
        let c = cs[i];
        match st {
            LexState::Start => {
                if is_space_char(c) {
                    lex_run(cs, i + 1, LexState::Start)
                } else if c == '(' {
                    seq![Tok::OP] + lex_run(cs, i + 1, LexState::Start)
                } else if c == ')' {
                    seq![Tok::CP] + lex_run(cs, i + 1, LexState::Start)
                } else if is_digit_char(c) {
                    lex_run(cs, i + 1, LexState::InNumber(digit_val(c)))
                } else {
                    lex_run(cs, i + 1, LexState::InSymbol(seq![c]))
                }
            },
            LexState::InNumber(n) => {
                if is_digit_char(c) {
                    lex_run(cs, i + 1, LexState::InNumber(extend_number(n, digit_val(c))))
                } else {
                    seq![Tok::Number(n)] + lex_run(cs, i, LexState::Start)
                }
            },
            LexState::InSymbol(s) => {
                if !is_delim_char(c) {
                    lex_run(cs, i + 1, LexState::InSymbol(s.push(c)))
                } else {
                    seq![Tok::Symbol(s)] + lex_run(cs, i, LexState::Start)
                }
            },
        }
    }
}

/// The token sequence of a source text.
pub open spec fn lex(cs: Seq<char>) -> Seq<Tok> {
    lex_run(cs, 0, LexState::Start)
}

/// Relies on str::chars: yields the characters of the string in order.
#[verifier::external_body]
pub(crate) fn str_chars(s: &str) -> (r: Vec<char>)
    ensures
        r@ == s@,
{
    s.chars().collect()
}

/// Relies on String's FromIterator over char: collecting characters builds
/// the string of exactly those characters in order.
#[verifier::external_body]
pub(crate) fn chars_to_string(v: &Vec<char>) -> (r: String)
    ensures
        r@ == v@,
{
    v.iter().collect()
}

fn is_space(c: char) -> (r: bool)
    ensures
        r == is_space_char(c),
{
    c == ' ' || c == '\t' || c == '\n' || c == '\r'
}

fn is_digit(c: char) -> (r: bool)
    ensures
        r == is_digit_char(c),
{
    let n = c as u32;
    48 <= n && n <= 57
}

fn is_delim(c: char) -> (r: bool)
    ensures
        r == is_delim_char(c),
{
    is_space(c) || c == '(' || c == ')'
}

/// The lexer's executable state.
enum FsmState {
    Start,
    InNumber(u32),
    InSymbol(Vec<char>),
}

impl FsmState {
    spec fn view(&self) -> LexState {
        match self {
            FsmState::Start => LexState::Start,
            FsmState::InNumber(n) => LexState::InNumber(*n),
            FsmState::InSymbol(buf) => LexState::InSymbol(buf@),
        }
    }
}

/// Lexes a source string. Total: ill-formed input yields tokens whose
/// interpretation may fail later, never a lexing error.
pub fn parse_fsm(input: &String) -> (tokens: Vec<Tokens>)
    ensures
        toks_of(tokens@) == lex(input@),
{
    let cs = str_chars(input.as_str());
    let mut tokens: Vec<Tokens> = Vec::new();
    let mut st = FsmState::Start;
    let mut i: usize = 0;
    while i < cs.len() || !(matches!(st, FsmState::Start))
        invariant
            i <= cs.len(),
            cs@ == input@,
            lex(input@) == toks_of(tokens@) + lex_run(cs@, i as int, st.view()),
        decreases cs@.len() - i, state_rank(st.view()),
    {
        if i >= cs.len() {
            // End of input: flush the token in flight.
            match st {
                FsmState::Start => {},
                FsmState::InNumber(n) => {
                    tokens.push(Tokens::Number(n));
                },
                FsmState::InSymbol(buf) => {
                    tokens.push(Tokens::Symbol(chars_to_string(&buf)));
                },
            }
            st = FsmState::Start;
            proof {
                assert(toks_of(tokens@) + lex_run(cs@, i as int, st.view()) =~= lex(input@));
            }
        } else {
            let c = cs[i];
            match st {
                FsmState::Start => {
                    if is_space(c) {
                        st = FsmState::Start;
                        i = i + 1;
                    } else if c == '(' {
                        tokens.push(Tokens::OP);
                        st = FsmState::Start;
                        i = i + 1;
                    } else if c == ')' {
                        tokens.push(Tokens::CP);
                        st = FsmState::Start;
                        i = i + 1;
                    } else if is_digit(c) {
                        st = FsmState::InNumber(c as u32 - 48);
                        i = i + 1;
                    } else {
                        let mut buf: Vec<char> = Vec::new();
                        buf.push(c);
                        st = FsmState::InSymbol(buf);
                        i = i + 1;
                    }
                },
                FsmState::InNumber(n) => {
                    if is_digit(c) {
                        let d = c as u32 - 48;
                        let acc = n.wrapping_mul(10).wrapping_add(d);
                        proof {
                            vstd::arithmetic::div_mod::lemma_add_mod_noop(
                                n as int * 10,
                                d as int,
                                0x1_0000_0000,
                            );
                            vstd::arithmetic::div_mod::lemma_small_mod(
                                d as nat,
                                0x1_0000_0000,
                            );
                        }
                        st = FsmState::InNumber(acc);
                        i = i + 1;
                    } else {
                        tokens.push(Tokens::Number(n));
                        st = FsmState::Start;
                    }
                },
                FsmState::InSymbol(buf) => {
                    if !is_delim(c) {
                        let mut buf2 = buf;
                        buf2.push(c);
                        st = FsmState::InSymbol(buf2);
                        i = i + 1;
                    } else {
                        tokens.push(Tokens::Symbol(chars_to_string(&buf)));
                        st = FsmState::Start;
                    }
                },
            }
            proof {
                assert(toks_of(tokens@) + lex_run(cs@, i as int, st.view()) =~= lex(input@));
            }
        }
    }
    proof {
        assert(toks_of(tokens@) =~= lex(input@));
    }
    tokens
}

} // verus!
