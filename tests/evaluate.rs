use hole_synth::ast::{Args, Env, Param, Term, Type, Val};
use hole_synth::eval::EvalError;

fn s(x: &str) -> String {
    x.to_string()
}

fn string_param(n: &str) -> Param {
    Param(s(n), Box::new(Type::Exact(s("String"))), s("d"))
}

fn var(n: &str) -> Term {
    Term::Var(s(n))
}

fn lit(x: &str) -> Term {
    Term::Lit(s(x))
}

fn app(f: Term, a: Term) -> Term {
    Term::App(Box::new(f), Box::new(a))
}

fn one_arg(v: Val) -> Args {
    Args::Push(Box::new(Args::Empty), Box::new(v))
}

#[test]
fn literal_and_hole_evaluate_to_themselves() {
    assert_eq!(lit("a").eval(&Env::new(), 10), Ok(Val::Lit(s("a"))));
    let p = string_param("h");
    assert_eq!(Term::Hole(p.clone()).eval(&Env::new(), 10), Ok(Val::Hole(p)));
}

#[test]
fn unbound_variable_is_an_error() {
    assert_eq!(var("nope").eval(&Env::new(), 10), Err(EvalError::UnboundVariable(s("nope"))));
}

#[test]
fn closure_application_binds_the_parameter() {
    let id = Term::Func(string_param("x"), Box::new(var("x")));
    assert_eq!(app(id, lit("v")).eval(&Env::new(), 10), Ok(Val::Lit(s("v"))));
}

#[test]
fn closure_captures_its_defining_environment() {
    // (x => (y => x)) "a" "b" gives "a"
    let inner = Term::Func(string_param("y"), Box::new(var("x")));
    let outer = Term::Func(string_param("x"), Box::new(inner));
    let t = app(app(outer, lit("a")), lit("b"));
    assert_eq!(t.eval(&Env::new(), 20), Ok(Val::Lit(s("a"))));
}

#[test]
fn library_application_accumulates_arguments() {
    let env = Env::new().push(s("f"), Val::Lib(s("f")));
    let t = app(app(var("f"), lit("a")), lit("b"));
    let args = Args::Push(Box::new(one_arg(Val::Lit(s("a")))), Box::new(Val::Lit(s("b"))));
    assert_eq!(t.eval(&env, 20), Ok(Val::App(Box::new(Val::Lib(s("f"))), args)));
}

#[test]
fn apply_and_unrec_on_plain_values() {
    let v = Val::Var(s("g")).apply(Val::Lit(s("x")), 5);
    assert_eq!(v, Ok(Val::App(Box::new(Val::Var(s("g"))), one_arg(Val::Lit(s("x"))))));
    assert_eq!(Val::Lit(s("k")).unrec(s("k"), 5), Ok(Val::Lit(s("k"))));
}

#[test]
fn recursive_let_terminates_with_the_literal() {
    // let f = (x => ((_ => x)(f))); f("x")
    let f_ty = Type::Func(string_param("x"), Box::new(Type::Exact(s("String"))));
    let f = Param(s("f"), Box::new(f_ty), s("recursive"));
    let ignore = Term::Func(string_param("unused"), Box::new(var("x")));
    let body = app(ignore, var("f"));
    let def = Term::Func(string_param("x"), Box::new(body));
    let t = Term::Let(f, Box::new(def), Box::new(app(var("f"), lit("x"))));
    assert_eq!(t.eval(&Env::new(), 50), Ok(Val::Lit(s("x"))));
}

#[test]
fn non_reducing_recursion_exhausts_the_depth() {
    let f = string_param("f");
    let t = Term::Let(f, Box::new(var("f")), Box::new(var("f")));
    assert_eq!(t.eval(&Env::new(), 100), Err(EvalError::DepthExceeded));
}

#[test]
fn zero_depth_is_exhausted() {
    assert_eq!(lit("a").eval(&Env::new(), 0), Err(EvalError::DepthExceeded));
}

#[test]
fn evaluation_is_deterministic() {
    let id = Term::Func(string_param("x"), Box::new(var("x")));
    let t = app(id, lit("v"));
    let env = Env::new().push(s("z"), Val::Lit(s("z")));
    let a = t.eval(&env, 10);
    let b = t.eval(&env, 10);
    let c = t.eval(&env, 1000);
    assert_eq!(a, b);
    assert_eq!(a, c);
}

#[test]
fn inner_binding_shadows_outer() {
    let inner = Term::Func(string_param("x"), Box::new(var("x")));
    let outer = Term::Func(string_param("x"), Box::new(app(inner, lit("inner"))));
    assert_eq!(app(outer, lit("outer")).eval(&Env::new(), 20), Ok(Val::Lit(s("inner"))));
}

#[test]
fn function_hint_evaluates_to_a_call_awaiting_its_argument() {
    let prefix = string_param("prefix");
    let predict_ty = Type::Func(prefix.clone(), Box::new(Type::Exact(s("String"))));
    let predict = Param(s("predict"), Box::new(predict_ty), s("d"));
    let hint = hole_synth::hints::as_hint(&predict, &Type::Exact(s("String"))).unwrap();
    let env = Env::new().push(s("predict"), Val::Lib(s("predict")));
    let expected = Val::App(Box::new(Val::Lib(s("predict"))), one_arg(Val::Hole(prefix)));
    assert_eq!(hint.eval(&env, 10), Ok(expected));
}
