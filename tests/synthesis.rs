use hole_synth::ast::{Env, Param, Term, Type, Val};
use hole_synth::gen::{gen, Step, SynthError};
use hole_synth::hints::{as_hint, candidates, more_hints};
use hole_synth::position::{first_hole, Frame, Hole, Position};
use hole_synth::run::run;

fn s(x: &str) -> String {
    x.to_string()
}

fn string_ty() -> Type {
    Type::Exact(s("String"))
}

fn param(n: &str, ty: Type, d: &str) -> Param {
    Param(s(n), Box::new(ty), s(d))
}

fn predict_param() -> Param {
    let prefix = param("prefix", string_ty(), "Prefix of predicted string");
    param("predict", Type::Func(prefix, Box::new(string_ty())), "Predict what follows `prefix`")
}

fn root() -> Position {
    Position::root(vec![predict_param()], Env::new().push(s("predict"), Val::Lib(s("predict"))))
}

#[test]
fn hole_inside_function_comes_before_argument_hole() {
    let p = param("p", string_ty(), "p");
    let a = param("a", string_ty(), "a");
    let b = param("b", string_ty(), "b");
    let f = Term::Func(p.clone(), Box::new(Term::Hole(a.clone())));
    let t = Term::App(Box::new(f), Box::new(Term::Hole(b)));
    let h = first_hole(&t, Position::root(vec![], Env::new())).unwrap();
    assert_eq!(h.param, a);
    assert_eq!(h.pos.ctx, vec![p]);
    assert_eq!(h.pos.env.get(&s("p")), Some(Val::Var(s("p"))));
}

#[test]
fn complete_term_has_no_hole() {
    let t = Term::App(Box::new(Term::Var(s("f"))), Box::new(Term::Lit(s("x"))));
    assert!(first_hole(&t, Position::root(vec![], Env::new())).is_none());
}

#[test]
fn let_bound_term_sees_the_let_parameter() {
    let f = param("f", string_ty(), "f");
    let h1 = param("h1", string_ty(), "first");
    let h2 = param("h2", string_ty(), "second");
    let t = Term::Let(f.clone(), Box::new(Term::Hole(h1.clone())), Box::new(Term::Hole(h2)));
    let h = first_hole(&t, Position::root(vec![], Env::new())).unwrap();
    assert_eq!(h.param, h1);
    assert_eq!(h.pos.ctx, vec![f]);
    let rebuilt = h.pos.rebuild(Term::Lit(s("v")));
    assert_eq!(rebuilt.render(), "let (f: String /* f */) = \"v\";\n<h2: String /* second */>");
}

#[test]
fn context_and_environment_stay_parallel() {
    let x = param("x", string_ty(), "x");
    let y = param("y", string_ty(), "y");
    let inner = Term::Func(y.clone(), Box::new(Term::Hole(param("h", string_ty(), "h"))));
    let t = Term::Func(x.clone(), Box::new(inner));
    let h = first_hole(&t, root()).unwrap();
    assert_eq!(h.pos.ctx.len(), 3);
    assert_eq!(h.pos.ctx[1], x);
    assert_eq!(h.pos.ctx[2], y);
    assert_eq!(h.pos.env.get(&s("y")), Some(Val::Var(s("y"))));
    assert_eq!(h.pos.env.get(&s("predict")), Some(Val::Lib(s("predict"))));
}

#[test]
fn rebuild_puts_the_replacement_at_its_place() {
    let a = Term::Var(s("a"));
    let b = Term::Var(s("b"));
    let pos = Position::root(vec![], Env::new())
        .map(Frame::AppArg(Box::new(a.clone())))
        .map(Frame::AppFunc(Box::new(b.clone())));
    let r1 = pos.rebuild(Term::Lit(s("x")));
    let r2 = pos.rebuild(Term::Lit(s("y")));
    assert_eq!(r1.render(), "(a)((\"x\")(b))");
    assert_eq!(r2.render(), "(a)((\"y\")(b))");
}

#[test]
fn variable_of_wanted_type_is_its_own_hint() {
    let x = param("x", string_ty(), "x");
    assert_eq!(as_hint(&x, &string_ty()), Some(Term::Var(s("x"))));
    assert_eq!(as_hint(&x, &Type::Exact(s("Int"))), None);
}

#[test]
fn function_returning_wanted_type_is_applied_to_a_hole() {
    let prefix = param("prefix", string_ty(), "Prefix of predicted string");
    let expected = Term::App(Box::new(Term::Var(s("predict"))), Box::new(Term::Hole(prefix)));
    assert_eq!(as_hint(&predict_param(), &string_ty()), Some(expected));
}

#[test]
fn generic_hints_by_type() {
    let mut hints = vec![Term::Var(s("keep"))];
    more_hints(&mut hints, &string_ty());
    assert_eq!(hints, vec![Term::Var(s("keep")), Term::Lit(s("{SOME_STRING}"))]);

    let mut none = vec![];
    more_hints(&mut none, &Type::Exact(s("Int")));
    assert!(none.is_empty());

    let arg = param("a", string_ty(), "a");
    let mut funcs = vec![];
    more_hints(&mut funcs, &Type::Func(arg.clone(), Box::new(string_ty())));
    let body = Term::Hole(param("func_body", string_ty(), "Function Body"));
    assert_eq!(funcs, vec![Term::Func(arg, Box::new(body))]);
}

#[test]
fn candidates_list_context_hints_then_generic_ones() {
    let ctx = vec![param("a", string_ty(), "a"), param("n", Type::Exact(s("Int")), "n"), predict_param()];
    let cs = candidates(&ctx, &string_ty());
    assert_eq!(cs.len(), 3);
    assert_eq!(cs[0], Term::Var(s("a")));
    assert_eq!(cs[1].render(), "(predict)(<prefix: String /* Prefix of predicted string */>)");
    assert_eq!(cs[2], Term::Lit(s("{SOME_STRING}")));
}

#[test]
fn hole_without_candidates_cannot_be_synthesized() {
    let p = param("n", Type::Exact(s("Int")), "a number");
    let hole = Hole { pos: root(), param: p.clone() };
    match gen(s("desc"), hole, root()) {
        Err(SynthError::EmptyCandidateSet(q)) => assert_eq!(q, p),
        _ => panic!("expected an empty candidate set"),
    }
}

#[test]
fn choice_past_the_options_is_refused() {
    let hole = Hole { pos: root(), param: param("result", string_ty(), "Result of question") };
    let state = match gen(s("desc"), hole, root()) {
        Ok(Step::Choose { state, .. }) => state,
        _ => panic!("expected a choice"),
    };
    match state.chosen(7) {
        Err(SynthError::ChoiceOutOfRange(7)) => {},
        _ => panic!("expected an out of range choice"),
    }
}

#[test]
fn end_to_end_predict_is_filled_and_run() {
    let desc = s("Predict the next words of \"114514\"");
    let hole = Hole { pos: root(), param: param("result", string_ty(), "Result of question") };
    let (state, prompt) = match gen(desc.clone(), hole, root()) {
        Ok(Step::Choose { state, prompt }) => (state, prompt),
        _ => panic!("expected a choice"),
    };
    assert_eq!(prompt, format!("Which one satisfies most: \n```\n{}\n```", desc));
    assert_eq!(state.texts.len(), 2);
    assert_eq!(state.texts[0], "(predict)(<prefix: String /* Prefix of predicted string */>)");
    assert_eq!(state.texts[1], "\"{SOME_STRING}\"");

    let state = match state.chosen(0) {
        Ok(Step::Choose { state, .. }) => state,
        _ => panic!("expected a second choice"),
    };
    assert_eq!(state.hole.param.0, "prefix");
    assert_eq!(state.texts[1], "(predict)(\"{SOME_STRING}\")");

    let (state, template, blank) = match state.chosen(1) {
        Ok(Step::Fill { state, template, blank }) => (state, template, blank),
        _ => panic!("expected a blank to fill"),
    };
    assert_eq!(template, "(predict)(\"{SOME_STRING}\")");
    assert_eq!(blank, "{SOME_STRING}");

    let done = match state.filled(s("114514")) {
        Ok(Step::Done(t)) => t,
        _ => panic!("expected a finished term"),
    };
    assert_eq!(done.render(), "(predict)(\"114514\")");

    let env = Env::new().push(s("predict"), Val::Lib(s("predict")));
    let val = done.eval(&env, 100).unwrap();
    assert_eq!(run(val, &env), Ok(Val::Lit(s("predict(114514)"))));
}

#[test]
fn context_hint_without_holes_finishes_at_once() {
    let ctx = vec![param("answer", string_ty(), "known answer")];
    let root = Position::root(ctx, Env::new().push(s("answer"), Val::Lit(s("42"))));
    let hole = Hole { pos: root.clone(), param: param("result", string_ty(), "r") };
    let state = match gen(s("d"), hole, root) {
        Ok(Step::Choose { state, .. }) => state,
        _ => panic!("expected a choice"),
    };
    match state.chosen(0) {
        Ok(Step::Done(t)) => assert_eq!(t, Term::Var(s("answer"))),
        _ => panic!("expected a finished term"),
    }
}
