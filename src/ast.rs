use vstd::prelude::*;
use vstd::string::*;

verus! {

/// A parameter: `name: Type /* description */`.
#[derive(Debug, PartialEq, Eq)]
pub struct Param(pub String, pub Box<Type>, pub String);

/// A type: a nominal base type or a function type.
#[derive(Debug, PartialEq, Eq)]
pub enum Type {
    /// Function: `(param) -> (return type)`
    Func(Param, Box<Type>),
    /// Nominal base type, named by its text
    Exact(String),
}

/// Structural equality of types: names, descriptions and shapes all agree.
pub open spec fn same_type(a: Type, b: Type) -> bool
    decreases a,
{
    match (a, b) {
        (Type::Exact(x), Type::Exact(y)) => x@ == y@,
        (Type::Func(p, r), Type::Func(q, s)) => {
            &&& p.0@ == q.0@
            &&& p.2@ == q.2@
            &&& same_type(*p.1, *q.1)
            &&& same_type(*r, *s)
        },
        _ => false,
    }
}

impl Type {
    /// Structural comparison of two types.
    pub fn same(&self, other: &Type) -> (r: bool)
        ensures
            r == same_type(*self, *other),
        decreases self,
    {
        match (self, other) {
            (Type::Exact(x), Type::Exact(y)) => *x == *y,
            (Type::Func(p, r), Type::Func(q, s)) => {
                p.0 == q.0 && p.2 == q.2 && (&*p.1).same((&*q.1)) && (&**r).same(
                    (&**s),
                )
            },
            _ => false,
        }
    }
}

impl Clone for Type {
    fn clone(&self) -> (r: Self)
        ensures
            r == *self,
        decreases self,
    {
        match self {
            Type::Func(p, ret) => Type::Func(
                Param(p.0.clone(), Box::new((&*p.1).clone()), p.2.clone()),
                Box::new((&**ret).clone()),
            ),
            Type::Exact(n) => Type::Exact(n.clone()),
        }
    }
}

impl Clone for Param {
    fn clone(&self) -> (r: Self)
        ensures
            r == *self,
    {
        Param(self.0.clone(), Box::new((&*self.1).clone()), self.2.clone())
    }
}


/// A term: the syntax of a (possibly partial) program.
#[derive(Debug, PartialEq, Eq)]
pub enum Term {
    /// Function: `(param) => (body)`
    Func(Param, Box<Term>),
    /// Variable
    Var(String),
    /// Literal text
    Lit(String),
    /// Application: `(func)(arg)`
    App(Box<Term>, Box<Term>),
    /// Let: `let (param) = term; next`, where `param` is also visible inside `term`
    Let(Param, Box<Term>, Box<Term>),
    /// Placeholder still to be filled, carrying the parameter its filling must satisfy
    Hole(Param),
}

impl Clone for Term {
    fn clone(&self) -> (r: Self)
        ensures
            r == *self,
        decreases self,
    {
        match self {
            Term::Func(p, body) => Term::Func(p.clone(), Box::new((&**body).clone())),
            Term::Var(n) => Term::Var(n.clone()),
            Term::Lit(s) => Term::Lit(s.clone()),
            Term::App(f, a) => Term::App(Box::new((&**f).clone()), Box::new((&**a).clone())),
            Term::Let(p, t, n) => Term::Let(
                p.clone(),
                Box::new((&**t).clone()),
                Box::new((&**n).clone()),
            ),
            Term::Hole(p) => Term::Hole(p.clone()),
        }
    }
}

/// Text of a parameter: `name: Type /* description */`.
pub open spec fn param_text(p: Param) -> Seq<char>
    decreases p,
{
    p.0@ + ": "@ + type_text(*p.1) + " /* "@ + p.2@ + " */"@
}

/// Text of a type: `(param) -> (return type)` or the base type's name.
pub open spec fn type_text(t: Type) -> Seq<char>
    decreases t,
{
    match t {
        Type::Func(p, r) => "("@ + param_text(p) + ") -> ("@ + type_text(*r) + ")"@,
        Type::Exact(n) => n@,
    }
}

/// Text of a term, as shown to the oracle.
pub open spec fn term_text(t: Term) -> Seq<char>
    decreases t,
{
    match t {
        Term::Func(p, b) => "("@ + param_text(p) + ") => ("@ + term_text(*b) + ")"@,
        Term::Var(n) => n@,
        Term::Lit(s) => "\""@ + s@ + "\""@,
        Term::App(f, a) => "("@ + term_text(*f) + ")("@ + term_text(*a) + ")"@,
        Term::Let(p, t, n) => "let ("@ + param_text(p) + ") = "@ + term_text(*t) + ";\n"@
            + term_text(*n),
        Term::Hole(p) => "<"@ + param_text(p) + ">"@,
    }
}

impl Param {
    /// Appends the text of this parameter to `out`.
    pub fn render_into(&self, out: &mut String)
        ensures
            final(out)@ == old(out)@ + param_text(*self),
        decreases self,
    {
        out.append(self.0.as_str());
        out.append(": ");
        (&*self.1).render_into(out);
        out.append(" /* ");
        out.append(self.2.as_str());
        out.append(" */");
    }

    /// The text of this parameter.
    pub fn render(&self) -> (r: String)
        ensures
            r@ == param_text(*self),
    {
        let mut out = String::new();
        self.render_into(&mut out);
        out
    }
}

impl Type {
    /// Appends the text of this type to `out`.
    pub fn render_into(&self, out: &mut String)
        ensures
            final(out)@ == old(out)@ + type_text(*self),
        decreases self,
    {
        match self {
            Type::Func(p, r) => {
                out.append("(");
                p.render_into(out);
                out.append(") -> (");
                (&**r).render_into(out);
                out.append(")");
            },
            Type::Exact(n) => out.append(n.as_str()),
        }
    }

    /// The text of this type.
    pub fn render(&self) -> (r: String)
        ensures
            r@ == type_text(*self),
    {
        let mut out = String::new();
        self.render_into(&mut out);
        out
    }
}


impl Term {
    /// Appends the text of this term to `out`.
    pub fn render_into(&self, out: &mut String)
        ensures
            final(out)@ == old(out)@ + term_text(*self),
        decreases self,
    {
        match self {
            Term::Func(p, b) => {
                out.append("(");
                p.render_into(out);
                out.append(") => (");
                (&**b).render_into(out);
                out.append(")");
            },
            Term::Var(n) => out.append(n.as_str()),
            Term::Lit(s) => {
                out.append("\"");
                out.append(s.as_str());
                out.append("\"");
            },
            Term::App(f, a) => {
                out.append("(");
                (&**f).render_into(out);
                out.append(")(");
                (&**a).render_into(out);
                out.append(")");
            },
            Term::Let(p, t, n) => {
                out.append("let (");
                p.render_into(out);
                out.append(") = ");
                (&**t).render_into(out);
                out.append(";\n");
                (&**n).render_into(out);
            },
            Term::Hole(p) => {
                out.append("<");
                p.render_into(out);
                out.append(">");
            },
        }
    }

    /// The text of this term.
    pub fn render(&self) -> (r: String)
        ensures
            r@ == term_text(*self),
    {
        let mut out = String::new();
        self.render_into(&mut out);
        out
    }
}

/// A value: the result of evaluating a term.
#[derive(Debug, PartialEq, Eq)]
pub enum Val {
    /// Closure: a function body with the environment it was defined in
    Func(Param, Box<Term>, Env),
    /// Self-referential binding, evaluated one step when looked up.
    /// Its environment does not contain the binding itself.
    Rec(Box<Term>, Env),
    /// Unresolved variable
    Var(String),
    /// Library function, dispatched by name when the value is run
    Lib(String),
    /// Literal text
    Lit(String),
    /// Partial application: a function value and the arguments given so far
    App(Box<Val>, Args),
    /// Placeholder left unfilled
    Hole(Param),
}

/// A binding of a name to a value.
#[derive(Debug, PartialEq, Eq)]
pub struct Arg(pub String, pub Val);

/// An environment: an append-only sequence of bindings, most recent outermost.
#[derive(Debug, PartialEq, Eq)]
pub enum Env {
    Empty,
    Bind(Box<Env>, Box<Arg>),
}

/// Arguments of a partial application, in order, last given outermost.
#[derive(Debug, PartialEq, Eq)]
pub enum Args {
    Empty,
    Push(Box<Args>, Box<Val>),
}

/// The bindings of an environment, oldest first.
pub open spec fn env_seq(e: Env) -> Seq<Arg>
    decreases e,
{
    match e {
        Env::Empty => Seq::empty(),
        Env::Bind(rest, a) => env_seq(*rest).push(*a),
    }
}

/// The arguments of a partial application, first given first.
pub open spec fn args_seq(a: Args) -> Seq<Val>
    decreases a,
{
    match a {
        Args::Empty => Seq::empty(),
        Args::Push(rest, v) => args_seq(*rest).push(*v),
    }
}

/// The value bound to `name` by the most recent binding of that name.
pub open spec fn lookup(e: Env, name: Seq<char>) -> Option<Val>
    decreases e,
{
    match e {
        Env::Empty => None,
        Env::Bind(rest, a) => if a.0@ == name {
            Some(a.1)
        } else {
            lookup(*rest, name)
        },
    }
}

impl View for Env {
    type V = Seq<Arg>;

    open spec fn view(&self) -> Seq<Arg> {
        env_seq(*self)
    }
}

impl View for Args {
    type V = Seq<Val>;

    open spec fn view(&self) -> Seq<Val> {
        args_seq(*self)
    }
}

impl Clone for Val {
    fn clone(&self) -> (r: Self)
        ensures
            r == *self,
        decreases self,
    {
        match self {
            Val::Func(p, b, env) => Val::Func(p.clone(), Box::new((&**b).clone()), env.clone()),
            Val::Rec(t, env) => Val::Rec(Box::new((&**t).clone()), env.clone()),
            Val::Var(n) => Val::Var(n.clone()),
            Val::Lib(n) => Val::Lib(n.clone()),
            Val::Lit(s) => Val::Lit(s.clone()),
            Val::App(f, args) => Val::App(Box::new((&**f).clone()), args.clone()),
            Val::Hole(p) => Val::Hole(p.clone()),
        }
    }
}

impl Clone for Arg {
    fn clone(&self) -> (r: Self)
        ensures
            r == *self,
        decreases self,
    {
        Arg(self.0.clone(), self.1.clone())
    }
}

impl Clone for Env {
    fn clone(&self) -> (r: Self)
        ensures
            r == *self,
        decreases self,
    {
        match self {
            Env::Empty => Env::Empty,
            Env::Bind(rest, a) => Env::Bind(Box::new((&**rest).clone()), Box::new((&**a).clone())),
        }
    }
}

impl Clone for Args {
    fn clone(&self) -> (r: Self)
        ensures
            r == *self,
        decreases self,
    {
        match self {
            Args::Empty => Args::Empty,
            Args::Push(rest, v) => Args::Push(Box::new((&**rest).clone()), Box::new((&**v).clone())),
        }
    }
}


/// Text of a value: closures show their parameter and body, applications each argument.
pub open spec fn val_text(v: Val) -> Seq<char>
    decreases v,
{
    match v {
        Val::Func(p, b, _) => "("@ + param_text(p) + ") => ("@ + term_text(*b) + ")"@,
        Val::Rec(t, _) => term_text(*t),
        Val::Var(n) => n@,
        Val::Lib(n) => n@,
        Val::Lit(s) => "\""@ + s@ + "\""@,
        Val::App(f, args) => "("@ + val_text(*f) + ")"@ + args_text(args),
        Val::Hole(p) => "<"@ + param_text(p) + ">"@,
    }
}

/// Text of arguments: each one in parentheses, in order.
pub open spec fn args_text(a: Args) -> Seq<char>
    decreases a,
{
    match a {
        Args::Empty => Seq::empty(),
        Args::Push(rest, v) => args_text(*rest) + "("@ + val_text(*v) + ")"@,
    }
}

impl Val {
    /// Appends the text of this value to `out`.
    pub fn render_into(&self, out: &mut String)
        ensures
            final(out)@ == old(out)@ + val_text(*self),
        decreases self,
    {
        match self {
            Val::Func(p, b, _) => {
                out.append("(");
                p.render_into(out);
                out.append(") => (");
                (&**b).render_into(out);
                out.append(")");
            },
            Val::Rec(t, _) => (&**t).render_into(out),
            Val::Var(n) => out.append(n.as_str()),
            Val::Lib(n) => out.append(n.as_str()),
            Val::Lit(s) => {
                out.append("\"");
                out.append(s.as_str());
                out.append("\"");
            },
            Val::App(f, args) => {
                out.append("(");
                (&**f).render_into(out);
                out.append(")");
                args.render_into(out);
            },
            Val::Hole(p) => {
                out.append("<");
                p.render_into(out);
                out.append(">");
            },
        }
    }

    /// The text of this value.
    pub fn render(&self) -> (r: String)
        ensures
            r@ == val_text(*self),
    {
        let mut out = String::new();
        self.render_into(&mut out);
        out
    }
}

impl Args {
    /// Appends the text of these arguments to `out`.
    pub fn render_into(&self, out: &mut String)
        ensures
            final(out)@ == old(out)@ + args_text(*self),
        decreases self,
    {
        match self {
            Args::Empty => {
                assert(old(out)@ + args_text(*self) =~= old(out)@);
            },
            Args::Push(rest, v) => {
                (&**rest).render_into(out);
                out.append("(");
                (&**v).render_into(out);
                out.append(")");
            },
        }
    }
}

impl Env {
    /// The environment with no bindings.
    pub fn new() -> (r: Env)
        ensures
            r == Env::Empty,
            r@ == Seq::<Arg>::empty(),
    {
        Env::Empty
    }

    /// This environment extended by one binding, which shadows earlier ones of its name.
    pub fn push(self, name: String, value: Val) -> (r: Env)
        ensures
            r == Env::Bind(Box::new(self), Box::new(Arg(name, value))),
            r@ == self@.push(Arg(name, value)),
    {
        Env::Bind(Box::new(self), Box::new(Arg(name, value)))
    }

    /// The value of the most recent binding of `name`, if any.
    pub fn get(&self, name: &String) -> (r: Option<Val>)
        ensures
            r == lookup(*self, name@),
        decreases self,
    {
        match self {
            Env::Empty => None,
            Env::Bind(rest, a) => if a.0 == *name {
                Some(a.1.clone())
            } else {
                (&**rest).get(name)
            },
        }
    }
}

} // verus!
