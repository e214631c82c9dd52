use lesp::built_in::init_context;
use lesp::lexer::{parse_fsm, Tokens};
use lesp::lisp::{eval, eval_in_context, Type};
use lesp::semantics::EvalError;

#[test]
fn literal_evaluates_to_its_number() {
    assert_eq!(eval(&String::from("12345")), Ok(Type::Number(12345)));
    assert_eq!(eval(&String::from("0")), Ok(Type::Number(0)));
    assert_eq!(eval(&String::from("4294967295")), Ok(Type::Number(4294967295)));
}

#[test]
fn literal_wraps_in_unsigned_32_bits() {
    assert_eq!(eval(&String::from("4294967296")), Ok(Type::Number(0)));
    assert_eq!(eval(&String::from("4294967297")), Ok(Type::Number(1)));
}

#[test]
fn quote_returns_the_form_itself() {
    assert_eq!(
        eval(&String::from("(quote (1 a true))")),
        Ok(Type::List(vec![
            Type::Number(1),
            Type::Symbol(String::from("a")),
            Type::Symbol(String::from("true"))
        ]))
    );
    assert_eq!(
        eval(&String::from("(quote (quote x))")),
        Ok(Type::List(vec![
            Type::Symbol(String::from("quote")),
            Type::Symbol(String::from("x"))
        ]))
    );
}

#[test]
fn car_of_cons_is_the_head() {
    assert_eq!(eval(&String::from("(car (cons 5 (list 1 2)))")), Ok(Type::Number(5)));
}

#[test]
fn cdr_of_cons_is_the_tail() {
    assert_eq!(
        eval(&String::from("(cdr (cons 5 (list 1 2)))")),
        Ok(Type::List(vec![Type::Number(1), Type::Number(2)]))
    );
}

#[test]
fn eq_is_reflexive_on_quoted_values() {
    assert_eq!(eval(&String::from("(eq (quote a) (quote a))")), Ok(Type::Bool(true)));
    assert_eq!(
        eval(&String::from("(eq (quote (1 (2 b))) (quote (1 (2 b))))")),
        Ok(Type::Bool(true))
    );
}

#[test]
fn plus_and_times_commute_and_associate() {
    assert_eq!(eval(&String::from("(+ 2 3)")), eval(&String::from("(+ 3 2)")));
    assert_eq!(eval(&String::from("(* 6 7)")), eval(&String::from("(* 7 6)")));
    assert_eq!(eval(&String::from("(+ (+ 1 2) 3)")), eval(&String::from("(+ 1 (+ 2 3))")));
    assert_eq!(eval(&String::from("(* (* 2 3) 4)")), eval(&String::from("(* 2 (* 3 4))")));
    assert_eq!(eval(&String::from("(+ (+ 1 2) 3)")), Ok(Type::Number(6)));
    assert_eq!(eval(&String::from("(* (* 2 3) 4)")), Ok(Type::Number(24)));
}

#[test]
fn plus_and_times_have_seeds() {
    assert_eq!(eval(&String::from("(+)")), Ok(Type::Number(0)));
    assert_eq!(eval(&String::from("(*)")), Ok(Type::Number(1)));
}

#[test]
fn subtraction_wraps_below_zero() {
    assert_eq!(eval(&String::from("(- 2 4)")), Ok(Type::Number(4294967294)));
}

#[test]
fn let_binds_sequentially() {
    assert_eq!(eval(&String::from("(let ((a 1) (b a)) b)")), Ok(Type::Number(1)));
    assert_eq!(eval(&String::from("(let ((a 1) (b (+ a 1))) (+ a b))")), Ok(Type::Number(3)));
}

#[test]
fn closure_outlives_its_let() {
    assert_eq!(eval(&String::from("((let ((a 7)) (fn g () a)))")), Ok(Type::Number(7)));
}

#[test]
fn functions_are_first_class() {
    assert_eq!(
        eval(&String::from("(def pick (fn pick (f g) g)) ((pick + *) 2 3)")),
        Ok(Type::Number(6))
    );
}

#[test]
fn self_name_resolves_to_the_function() {
    assert_eq!(
        eval(&String::from("(def f (fn g () g)) (eq f (f))")),
        Ok(Type::Bool(true))
    );
}

#[test]
fn distinct_constructions_are_unequal() {
    assert_eq!(eval(&String::from("(eq (fn f () 1) (fn f () 1))")), Ok(Type::Bool(false)));
    assert_eq!(
        eval(&String::from("(def a (fn f () 1)) (def b (fn f () 1)) (eq a b)")),
        Ok(Type::Bool(false))
    );
    assert_eq!(
        eval(&String::from("(def make (fn make () (fn inner () 1))) (eq (make) (make))")),
        Ok(Type::Bool(false))
    );
}

#[test]
fn copies_of_one_construction_are_equal() {
    assert_eq!(
        eval(&String::from("(def a (fn f () 1)) (def b a) (eq a b)")),
        Ok(Type::Bool(true))
    );
    assert_eq!(eval(&String::from("(def a (fn f () 1)) (eq a a)")), Ok(Type::Bool(true)));
}

#[test]
fn identities_persist_across_driver_calls() {
    let mut context = init_context();
    eval_in_context(&String::from("(def a (fn f () 1))"), &mut context).unwrap();
    eval_in_context(&String::from("(def b (fn f () 1))"), &mut context).unwrap();
    assert_eq!(eval_in_context(&String::from("(eq a b)"), &mut context), Ok(Type::Bool(false)));
}

#[test]
fn prn_and_dbg_record_what_they_print() {
    let mut context = init_context();
    assert_eq!(
        eval_in_context(&String::from("(prn (+ 1 2))"), &mut context),
        Ok(Type::Number(3))
    );
    assert_eq!(context.take_output(), vec![Type::Number(3)]);
    assert_eq!(
        eval_in_context(&String::from("(dbg (+ 1 2))"), &mut context),
        Ok(Type::Number(3))
    );
    let logged = context.take_output();
    assert_eq!(
        logged,
        vec![
            Type::List(vec![
                Type::Symbol(String::from("+")),
                Type::Number(1),
                Type::Number(2)
            ]),
            Type::Number(3)
        ]
    );
    assert!(context.take_output().is_empty());
}

#[test]
fn inner_let_binding_is_invisible_outside() {
    assert_eq!(
        eval(&String::from("(let ((a (let ((b 1)(c 2)) (+ b c)))) b)")),
        Err(EvalError::UnboundSymbol)
    );
}

#[test]
fn adding_a_boolean_is_a_type_mismatch() {
    assert_eq!(eval(&String::from("(+ 1 true)")), Err(EvalError::TypeMismatch));
}

#[test]
fn boolean_literals_evaluate_to_themselves() {
    assert_eq!(eval(&String::from("true")), Ok(Type::Bool(true)));
    assert_eq!(eval(&String::from("false")), Ok(Type::Bool(false)));
    assert_eq!(eval(&String::from("(if true 1 2)")), Ok(Type::Number(1)));
    assert_eq!(eval(&String::from("(if false 1 2)")), Ok(Type::Number(2)));
}

#[test]
fn unbound_symbol_fails() {
    assert_eq!(eval(&String::from("nosuchname")), Err(EvalError::UnboundSymbol));
}

#[test]
fn unbalanced_parens_fail_to_parse() {
    assert_eq!(eval(&String::from("(")), Err(EvalError::ParseError));
    assert_eq!(eval(&String::from(")")), Err(EvalError::ParseError));
    assert_eq!(eval(&String::from("(+ 1 2")), Err(EvalError::ParseError));
    assert_eq!(eval(&String::from("(+ 1 2))")), Err(EvalError::ParseError));
}

#[test]
fn wrong_argument_count_fails() {
    assert_eq!(eval(&String::from("((fn f (a) a))")), Err(EvalError::ArityMismatch));
    assert_eq!(eval(&String::from("((fn f (a) a) 1 2)")), Err(EvalError::ArityMismatch));
    assert_eq!(eval(&String::from("(if true)")), Err(EvalError::ArityMismatch));
}

#[test]
fn head_of_application_must_be_a_function() {
    assert_eq!(eval(&String::from("(1 2)")), Err(EvalError::TypeMismatch));
}

#[test]
fn if_test_must_be_boolean() {
    assert_eq!(eval(&String::from("(if 1 2 3)")), Err(EvalError::TypeMismatch));
}

#[test]
fn whitespace_only_source_is_nil() {
    assert_eq!(eval(&String::from("   ")), Ok(Type::List(vec![])));
    assert_eq!(eval(&String::from("\t\n\r ")), Ok(Type::List(vec![])));
}

#[test]
fn definitions_persist_across_driver_calls() {
    let mut context = init_context();
    assert_eq!(eval_in_context(&String::from("(def a 5)"), &mut context), Ok(Type::Number(5)));
    assert_eq!(eval_in_context(&String::from("(+ a a)"), &mut context), Ok(Type::Number(10)));
}

#[test]
fn bindings_before_a_failure_remain() {
    let mut context = init_context();
    assert_eq!(
        eval_in_context(&String::from("(def a 5) (nosuch)"), &mut context),
        Err(EvalError::UnboundSymbol)
    );
    assert_eq!(eval_in_context(&String::from("a"), &mut context), Ok(Type::Number(5)));
}

#[test]
fn symbols_extend_to_the_next_delimiter() {
    assert_eq!(parse_fsm(&String::from("->")), vec![Tokens::Symbol(String::from("->"))]);
    assert_eq!(parse_fsm(&String::from("c...")), vec![Tokens::Symbol(String::from("c..."))]);
    assert_eq!(
        parse_fsm(&String::from("a1 2b")),
        vec![
            Tokens::Symbol(String::from("a1")),
            Tokens::Number(2),
            Tokens::Symbol(String::from("b"))
        ]
    );
}

#[test]
fn apply_calls_with_list_elements() {
    assert_eq!(eval(&String::from("(apply + (list 1 2 3))")), Ok(Type::Number(6)));
}

#[test]
fn is_list_checks_the_unevaluated_form() {
    assert_eq!(eval(&String::from("(is-list (list))")), Ok(Type::Bool(true)));
    assert_eq!(eval(&String::from("(is-list 1)")), Ok(Type::Bool(false)));
}

#[test]
fn prn_and_dbg_return_the_value() {
    assert_eq!(eval(&String::from("(prn (+ 1 2))")), Ok(Type::Number(3)));
    assert_eq!(eval(&String::from("(dbg (+ 1 2))")), Ok(Type::Number(3)));
}

#[test]
fn macro_sees_the_callers_scope() {
    assert_eq!(
        eval(&String::from(
            "(def m (macro m (x) (list (quote +) x hidden))) (let ((hidden 10)) (m 5))"
        )),
        Ok(Type::Number(15))
    );
}
