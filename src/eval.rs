use vstd::prelude::*;
use crate::ast::{Arg, Args, Env, Term, Val, lookup};

verus! {

/// Why evaluation stopped without a value.
#[derive(Debug, PartialEq, Eq)]
pub enum EvalError {
    /// A variable with no binding in the environment
    UnboundVariable(String),
    /// The depth budget ran out: a recursive binding that does not reduce ends here
    DepthExceeded,
}

/// `env` extended by binding `name` to `v`.
pub open spec fn bind(env: Env, name: String, v: Val) -> Env {
    Env::Bind(Box::new(env), Box::new(Arg(name, v)))
}

/// The value of `t` in `env`, evaluated with at most `depth` nested steps.
///
/// A function evaluates to a closure over `env`; a variable to its most recent
/// binding, unfolded one step if that binding is recursive; an application
/// evaluates its function, then its argument, then applies the one to the other;
/// a `let` evaluates its continuation with the parameter bound to the unevaluated,
/// self-referential term; literals and holes evaluate to themselves.
pub open spec fn eval_spec(t: Term, env: Env, depth: nat) -> Result<Val, EvalError>
    decreases depth, 0nat,
{
    if depth == 0 {
        Err(EvalError::DepthExceeded)
    } else {
        let d = (depth - 1) as nat;
        match t {
            Term::Func(p, body) => Ok(Val::Func(p, body, env)),
            Term::Var(id) => match lookup(env, id@) {
                Some(v) => unrec_spec(v, id, d),
                None => Err(EvalError::UnboundVariable(id)),
            },
            Term::Lit(s) => Ok(Val::Lit(s)),
            Term::App(f, a) => match eval_spec(*f, env, d) {
                Err(e) => Err(e),
                Ok(fv) => match eval_spec(*a, env, d) {
                    Err(e) => Err(e),
                    Ok(av) => apply_spec(fv, av, d),
                },
            },
            Term::Let(p, bound, next) => eval_spec(*next, bind(env, p.0, Val::Rec(bound, env)), d),
            Term::Hole(p) => Ok(Val::Hole(p)),
        }
    }
}

/// `f` applied to `arg`: a closure evaluates its body with its parameter bound to
/// `arg`; any other value accumulates `arg` as its next argument.
pub open spec fn apply_spec(f: Val, arg: Val, depth: nat) -> Result<Val, EvalError>
    decreases depth, 1nat,
{
    match f {
        Val::Func(p, body, env) => eval_spec(*body, bind(env, p.0, arg), depth),
        Val::App(g, args) => Ok(Val::App(g, Args::Push(Box::new(args), Box::new(arg)))),
        other => Ok(Val::App(Box::new(other), Args::Push(Box::new(Args::Empty), Box::new(arg)))),
    }
}

/// `v` unfolded one step: a recursive binding evaluates its term with the binding
/// itself in scope under `id` again; any other value is left as it is.
pub open spec fn unrec_spec(v: Val, id: String, depth: nat) -> Result<Val, EvalError>
    decreases depth, 1nat,
{
    match v {
        Val::Rec(t, env) => eval_spec(*t, bind(env, id, Val::Rec(t, env)), depth),
        other => Ok(other),
    }
}

impl Term {
    /// Evaluates this term in `env`, with at most `depth` nested steps.
    ///
    /// Recursive bindings carry no cycle check: one that never reduces unfolds
    /// until the depth budget is spent, and evaluation ends in `DepthExceeded`.
    pub fn eval(&self, env: &Env, depth: u64) -> (r: Result<Val, EvalError>)
        ensures
            r == eval_spec(*self, *env, depth as nat),
        decreases depth, 0nat,
    {
        if depth == 0 {
            return Err(EvalError::DepthExceeded);
        }
        let d = depth - 1;
        match self {
            Term::Func(p, body) => Ok(Val::Func(p.clone(), Box::new((&**body).clone()), env.clone())),
            Term::Var(id) => match env.get(id) {
                Some(v) => v.unrec(id.clone(), d),
                None => Err(EvalError::UnboundVariable(id.clone())),
            },
            Term::Lit(s) => Ok(Val::Lit(s.clone())),
            Term::App(f, a) => {
                let fv = match (&**f).eval(env, d) {
                    Ok(v) => v,
                    Err(e) => return Err(e),
                };
                let av = match (&**a).eval(env, d) {
                    Ok(v) => v,
                    Err(e) => return Err(e),
                };
                fv.apply(av, d)
            },
            Term::Let(p, bound, next) => {
                let rec = Val::Rec(Box::new((&**bound).clone()), env.clone());
                let inner = env.clone().push(p.0.clone(), rec);
                (&**next).eval(&inner, d)
            },
            Term::Hole(p) => Ok(Val::Hole(p.clone())),
        }
    }
}

impl Val {
    /// Applies this value to `arg`, with at most `depth` nested steps.
    pub fn apply(self, arg: Val, depth: u64) -> (r: Result<Val, EvalError>)
        ensures
            r == apply_spec(self, arg, depth as nat),
        decreases depth, 1nat,
    {
        match self {
            Val::Func(p, body, env) => {
                let inner = env.push(p.0, arg);
                (&*body).eval(&inner, depth)
            },
            Val::App(g, args) => Ok(Val::App(g, Args::Push(Box::new(args), Box::new(arg)))),
            other => Ok(Val::App(Box::new(other), Args::Push(Box::new(Args::Empty), Box::new(arg)))),
        }
    }

    /// Unfolds a recursive binding named `id` one step; any other value is returned as it is.
    pub fn unrec(self, id: String, depth: u64) -> (r: Result<Val, EvalError>)
        ensures
            r == unrec_spec(self, id, depth as nat),
        decreases depth, 1nat,
    {
        match self {
            Val::Rec(t, env) => {
                let again = Val::Rec(Box::new((&*t).clone()), env.clone());
                let inner = env.push(id, again);
                (&*t).eval(&inner, depth)
            },
            other => Ok(other),
        }
    }
}


/// Evaluation depends on the term and the environment alone: once a depth budget
/// is enough to finish, every larger budget gives the same result.
pub proof fn lemma_eval_determined(t: Term, env: Env, d1: nat, d2: nat)
    requires
        d1 <= d2,
        eval_spec(t, env, d1) != Err::<Val, EvalError>(EvalError::DepthExceeded),
    ensures
        eval_spec(t, env, d2) == eval_spec(t, env, d1),
    decreases d1, 0nat,
{
    let e1 = (d1 - 1) as nat;
    let e2 = (d2 - 1) as nat;
    match t {
        Term::Var(id) => match lookup(env, id@) {
            Some(v) => lemma_unrec_determined(v, id, e1, e2),
            None => {},
        },
        Term::App(f, a) => {
            lemma_eval_determined(*f, env, e1, e2);
            if let Ok(fv) = eval_spec(*f, env, e1) {
                lemma_eval_determined(*a, env, e1, e2);
                if let Ok(av) = eval_spec(*a, env, e1) {
                    lemma_apply_determined(fv, av, e1, e2);
                }
            }
        },
        Term::Let(p, bound, next) => {
            lemma_eval_determined(*next, bind(env, p.0, Val::Rec(bound, env)), e1, e2);
        },
        _ => {},
    }
}

/// Application, like evaluation, gives the same result under every budget that
/// is enough to finish.
pub proof fn lemma_apply_determined(f: Val, arg: Val, d1: nat, d2: nat)
    requires
        d1 <= d2,
        apply_spec(f, arg, d1) != Err::<Val, EvalError>(EvalError::DepthExceeded),
    ensures
        apply_spec(f, arg, d2) == apply_spec(f, arg, d1),
    decreases d1, 1nat,
{
    if let Val::Func(p, body, env) = f {
        lemma_eval_determined(*body, bind(env, p.0, arg), d1, d2);
    }
}

/// Unfolding a recursive binding gives the same result under every budget that
/// is enough to finish.
pub proof fn lemma_unrec_determined(v: Val, id: String, d1: nat, d2: nat)
    requires
        d1 <= d2,
        unrec_spec(v, id, d1) != Err::<Val, EvalError>(EvalError::DepthExceeded),
    ensures
        unrec_spec(v, id, d2) == unrec_spec(v, id, d1),
    decreases d1, 1nat,
{
    if let Val::Rec(t, env) = v {
        lemma_eval_determined(*t, bind(env, id, Val::Rec(t, env)), d1, d2);
    }
}

} // verus!
