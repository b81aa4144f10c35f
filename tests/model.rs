use hole_synth::ast::{Args, Env, Param, Term, Type, Val};

fn exact(n: &str) -> Type {
    Type::Exact(n.to_string())
}

fn param(n: &str, ty: Type, d: &str) -> Param {
    Param(n.to_string(), Box::new(ty), d.to_string())
}

#[test]
fn param_renders_name_type_and_description() {
    let p = param("x", exact("String"), "some text");
    assert_eq!(p.render(), "x: String /* some text */");
}

#[test]
fn function_type_renders_param_and_return() {
    let t = Type::Func(param("prefix", exact("String"), "Prefix"), Box::new(exact("String")));
    assert_eq!(t.render(), "(prefix: String /* Prefix */) -> (String)");
}

#[test]
fn term_renders_every_variant() {
    let p = param("x", exact("String"), "d");
    let f = Term::Func(p.clone(), Box::new(Term::Var("x".to_string())));
    assert_eq!(f.render(), "(x: String /* d */) => (x)");
    let lit = Term::Lit("hi".to_string());
    assert_eq!(lit.render(), "\"hi\"");
    let app = Term::App(Box::new(Term::Var("f".to_string())), Box::new(lit.clone()));
    assert_eq!(app.render(), "(f)(\"hi\")");
    let let_t = Term::Let(p.clone(), Box::new(lit.clone()), Box::new(Term::Var("x".to_string())));
    assert_eq!(let_t.render(), "let (x: String /* d */) = \"hi\";\nx");
    let hole = Term::Hole(p);
    assert_eq!(hole.render(), "<x: String /* d */>");
}

#[test]
fn application_value_renders_each_argument() {
    let args = Args::Push(
        Box::new(Args::Push(Box::new(Args::Empty), Box::new(Val::Lit("a".to_string())))),
        Box::new(Val::Var("b".to_string())),
    );
    let v = Val::App(Box::new(Val::Lib("f".to_string())), args);
    assert_eq!(v.render(), "(f)(\"a\")(b)");
}

#[test]
fn types_compare_structurally() {
    let a = Type::Func(param("p", exact("String"), "d"), Box::new(exact("String")));
    let b = a.clone();
    assert!(a.same(&b));
    let c = Type::Func(param("q", exact("String"), "d"), Box::new(exact("String")));
    assert!(!a.same(&c));
    assert!(!a.same(&exact("String")));
    assert!(exact("Int").same(&exact("Int")));
}

#[test]
fn most_recent_binding_is_found() {
    let env = Env::new()
        .push("x".to_string(), Val::Lit("old".to_string()))
        .push("y".to_string(), Val::Lit("y".to_string()))
        .push("x".to_string(), Val::Lit("new".to_string()));
    assert_eq!(env.get(&"x".to_string()), Some(Val::Lit("new".to_string())));
    assert_eq!(env.get(&"z".to_string()), None);
}
