use lesp::built_in::init_context;
use lesp::lexer::{parse_fsm, Tokens};
use lesp::lisp::{eval, eval_in_context, Type};
use lesp::semantics::EvalError;

/// The helper prelude used by the integration tests: a `defn` shorthand,
/// squaring, list generation, map, reverse, and a thread-first macro.
fn bootstrap_and_eval(input: &String) -> Result<Type, EvalError> {
    let mut context = init_context();
    let init_str = String::from(
        "(def defmacro (macro defmacro (name args body) \
            (list (quote def) name (list (quote macro) name args body)))) \
         (defmacro defn (name args body) \
            (list (quote def) name (list (quote fn) name args body))) \
         (defn square (a) (* a a)) \
         (defn genlist (n) (if (> n 0) (cons n (genlist (- n 1))) (list))) \
         (defn map (l f) (if (eq l (list)) (list) (cons (f (car l)) (map (cdr l) f)))) \
         (defn reverse (l) (if (eq l (list)) (list) (push (car l) (reverse (cdr l))))) \
         (defn thread (x forms) \
            (if (eq forms (list)) \
                x \
                (thread (cons (car (car forms)) (cons x (cdr (car forms)))) (cdr forms)))) \
         (def -> (macro -> (x forms...) (thread x forms)))",
    );
    eval_in_context(&init_str, &mut context).expect("prelude evaluates");
    eval_in_context(&input, &mut context)
}

#[test]
fn test_fsm() {
    assert_eq!(parse_fsm(&String::from("1")), vec![Tokens::Number(1)]);
    assert_eq!(parse_fsm(&String::from("2")), vec![Tokens::Number(2)]);
    assert_eq!(
        parse_fsm(&String::from("(+ 1 2)")),
        vec![
            Tokens::OP,
            Tokens::Symbol(String::from("+")),
            Tokens::Number(1),
            Tokens::Number(2),
            Tokens::CP
        ]
    );
}

#[test]
fn test_simple_forms() {
    assert_eq!(eval(&String::from("(def a 1) (+ a a)")), Ok(Type::Number(2)));
    assert_eq!(eval(&String::from(" (def a 1) (+ a a) ")), Ok(Type::Number(2)));
    assert_eq!(
        eval(&String::from("(def a 10) (def sq (fn sq (a) (* a a))) (sq a)")),
        Ok(Type::Number(100))
    );
    assert_eq!(eval(&String::from("((fn sq (a) (* a a)) 10)")), Ok(Type::Number(100)));
    assert_eq!(eval(&String::from("1")), Ok(Type::Number(1)));
    assert_eq!(eval(&String::from("")), Ok(Type::List(vec![])));
    assert_eq!(eval(&String::from("(+ 1 2)")), Ok(Type::Number(3)));
    assert_eq!(eval(&String::from("(* 2 2)")), Ok(Type::Number(4)));
    assert_eq!(eval(&String::from("(> 4 2)")), Ok(Type::Bool(true)));
    assert_eq!(eval(&String::from("(- 4 2)")), Ok(Type::Number(2)));
    assert_eq!(eval(&String::from("(* 10 20) (- 4 2)")), Ok(Type::Number(2)));
}

#[test]
fn test_vararg() {
    assert_eq!(eval(&String::from("((fn a (c...) c))")), Ok(Type::List(vec![])));
    assert_eq!(eval(&String::from("((fn a (b c...) b) 1 2 3)")), Ok(Type::Number(1)));
    assert_eq!(
        eval(&String::from("((fn a (b c...) c) 1 2 3)")),
        Ok(Type::List(vec![Type::Number(2), Type::Number(3)]))
    );
    assert_eq!(
        eval(&String::from("((fn a (c...) c) 1 2 3)")),
        Ok(Type::List(vec![Type::Number(1), Type::Number(2), Type::Number(3)]))
    );
}

#[test]
fn test_eq() {
    assert_eq!(eval(&String::from("(eq 1 1)")), Ok(Type::Bool(true)));
    assert_eq!(eval(&String::from("(eq 1 2)")), Ok(Type::Bool(false)));
    assert_eq!(eval(&String::from("(eq (list 1 2) (list 1 2))")), Ok(Type::Bool(true)));
    assert_eq!(eval(&String::from("(eq (list 1 2) (list 1 2 3))")), Ok(Type::Bool(false)));
    assert_eq!(eval(&String::from("(eq (quote 1) 1)")), Ok(Type::Bool(true)));
}

#[test]
fn test_and_or_not() {
    assert_eq!(eval(&String::from("(and (eq 1 1) (> 2 1))")), Ok(Type::Bool(true)));
    assert_eq!(eval(&String::from("(and (eq 1 2) (> 2 1))")), Ok(Type::Bool(false)));
    assert_eq!(eval(&String::from("(not (and (eq 1 2) (> 2 1)))")), Ok(Type::Bool(true)));
    assert_eq!(eval(&String::from("(not (or (eq 1 2) (> 2 1)))")), Ok(Type::Bool(false)));
    assert_eq!(eval(&String::from("(not (or (eq 1 2) (> 2 3)))")), Ok(Type::Bool(true)));
}

#[test]
fn test_named_lambdas() {
    assert_eq!(
        eval(&String::from("((fn sum (l) (if (> l 0) (+ l (sum (- l 1))) l)) 3)")),
        Ok(Type::Number(6))
    );
}

#[test]
fn test_macro() {
    assert_eq!(
        eval(&String::from(
            "(def add (macro add (a b) (list (quote +) a b)))
                                       (add 10 20)
                                       (add 10 30)"
        )),
        Ok(Type::Number(40))
    );
    assert_eq!(
        eval(&String::from(
            "(def defmacro (macro defmacro (name args body) (list (quote def) name (list (quote macro) name args body))))
                                       (defmacro defn (name args body) (list (quote def) name (list (quote fn) name args body)))
                                       (defn add (a b) (+ a b))
                                       (add 10 20)"
        )),
        Ok(Type::Number(30))
    );
}

#[test]
fn test_fibonacci() {
    assert_eq!(
        eval(&String::from(
            "(let ((fib (fn fib (n) (if (> 3 n)(- n 1)(+ (fib (- n 1))(fib (- n 2)))))))(fib 3)(fib 8))"
        )),
        Ok(Type::Number(13))
    );
}

#[test]
fn test_higher_order_functions() {
    assert_eq!(
        eval(&String::from(
            "(let ((apply (fn apply (f n) (f (n)))))(apply (fn _ (a) (* a a)) (fn _ () 10)))"
        )),
        Ok(Type::Number(100))
    );
}

#[test]
fn test_fn_eq() {
    assert_eq!(eval(&String::from("(eq + -)")), Ok(Type::Bool(false)));
    assert_eq!(
        eval(&String::from(
            "(def a (fn a () 1))
                                       (def b (fn b () 2))
                                       (list (eq a b) (eq a a) (eq b b))"
        )),
        Ok(Type::List(vec![Type::Bool(false), Type::Bool(true), Type::Bool(true)]))
    );
}

#[test]
fn test_closures() {
    assert_eq!(
        eval(&String::from("(let ((a 100)(adda (fn adda (n) (+ a n))))(adda 3))")),
        Ok(Type::Number(103))
    );
}

#[test]
fn test_closures_with_recursion() {
    assert_eq!(
        eval(&String::from(
            "(let ((one 1)(three 3)(two 2)(fib (fn fib (n) (if (> three n)(- n one)(+ (fib (- n one))(fib (- n two)))))))(fib 8))"
        )),
        Ok(Type::Number(13))
    );
}

#[test]
#[should_panic]
fn test_nested_scope_invisible() {
    assert_eq!(
        eval(&String::from("(let ((a (let ((b 1)(c 2)) (+ b c))))b)")).unwrap(),
        Type::Number(13)
    );
}

#[test]
fn test_nested_scope_invisible_proper_setup() {
    assert_eq!(
        eval(&String::from("(let ((a (let ((b 1)(c 2)) (+ b c))))a)")),
        Ok(Type::Number(3))
    );
}

#[test]
fn test_closure_captures_nested_context() {
    assert_eq!(
        eval(&String::from("(let ((a (let ((b 1)(c 2)) (fn _ () (+ b c)))))(a))")),
        Ok(Type::Number(3))
    );
}

#[test]
fn test_quote() {
    assert_eq!(eval(&String::from("(quote (1))")), Ok(Type::List(vec![Type::Number(1)])));
    assert_eq!(eval(&String::from("(quote 1)")), Ok(Type::Number(1)));
    assert_eq!(eval(&String::from("(quote ())")), Ok(Type::List(vec![])));
}

#[test]
fn test_list() {
    assert_eq!(eval(&String::from("(list)")), Ok(Type::List(vec![])));
    assert_eq!(
        eval(&String::from("(list 1 2 3)")),
        Ok(Type::List(vec![Type::Number(1), Type::Number(2), Type::Number(3)]))
    );
    assert_eq!(
        eval(&String::from("(list 1 (+ 1 2))")),
        Ok(Type::List(vec![Type::Number(1), Type::Number(3)]))
    );
}

#[test]
fn test_car() {
    assert_eq!(eval(&String::from("(car (list))")), Ok(Type::List(vec![])));
    assert_eq!(eval(&String::from("(car)")), Ok(Type::List(vec![])));
    assert_eq!(eval(&String::from("(car (list (+ 0 0 0 0 1) 2 3))")), Ok(Type::Number(1)));
}

#[test]
fn test_cdr() {
    assert_eq!(
        eval(&String::from("(cdr (list 1 (+ 0 2) (+ 1 2)))")),
        Ok(Type::List(vec![Type::Number(2), Type::Number(3)]))
    );
    assert_eq!(eval(&String::from("(cdr (list))")), Ok(Type::List(vec![])));
    assert_eq!(eval(&String::from("(cdr)")), Ok(Type::List(vec![])));
}

#[test]
fn test_cons() {
    assert_eq!(
        eval(&String::from("(cons 0 (list 1 (+ 0 2) (+ 1 2)))")),
        Ok(Type::List(vec![
            Type::Number(0),
            Type::Number(1),
            Type::Number(2),
            Type::Number(3)
        ]))
    );
    assert_eq!(eval(&String::from("(cons 0 (list))")), Ok(Type::List(vec![Type::Number(0)])));
    assert_eq!(
        eval(&String::from("(cons (quote 0) (list))")),
        Ok(Type::List(vec![Type::Number(0)]))
    );
}

#[test]
fn test_push() {
    assert_eq!(
        eval(&String::from("(push 1 (list 1 2 3))")),
        Ok(Type::List(vec![
            Type::Number(1),
            Type::Number(2),
            Type::Number(3),
            Type::Number(1),
        ]))
    );
}

#[test]
fn integration_1() {
    assert_eq!(
        bootstrap_and_eval(&String::from("(-> 10 (genlist) (map square) (map square))")),
        Ok(Type::List(vec![
            Type::Number(10000),
            Type::Number(6561),
            Type::Number(4096),
            Type::Number(2401),
            Type::Number(1296),
            Type::Number(625),
            Type::Number(256),
            Type::Number(81),
            Type::Number(16),
            Type::Number(1)
        ]))
    );
}

#[test]
fn integration_2() {
    assert_eq!(
        bootstrap_and_eval(&String::from("(-> (list 1 2 3) (reverse))")),
        Ok(Type::List(vec![Type::Number(3), Type::Number(2), Type::Number(1)]))
    );
}
