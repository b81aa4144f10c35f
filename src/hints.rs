use vstd::prelude::*;
use vstd::string::*;
use crate::ast::{Env, Param, Term, Type, Val, lookup, same_type};
use crate::eval::{EvalError, apply_spec, eval_spec};

verus! {

/// The hint for a parameter named `name` of type `pty` where a `ty` is wanted.
///
/// A parameter of type `ty` itself is hinted by its name. A function whose
/// return type is `ty` is hinted as its called form applied to a fresh hole for
/// its argument. Anything else has no hint.
pub open spec fn hint_spec(name: String, pty: Type, ty: Type) -> Option<Term>
    decreases pty,
{
    match pty {
        Type::Func(p, ret) if same_type(*ret, ty) => match hint_spec(name, *ret, ty) {
            Some(t) => Some(Term::App(Box::new(t), Box::new(Term::Hole(p)))),
            None => None,
        },
        _ => if same_type(pty, ty) {
            Some(Term::Var(name))
        } else {
            None
        },
    }
}

fn hint_of(name: &String, pty: &Type, ty: &Type) -> (r: Option<Term>)
    ensures
        r == hint_spec(*name, *pty, *ty),
    decreases pty,
{
    match pty {
        Type::Func(p, ret) => {
            if (&**ret).same(ty) {
                match hint_of(name, &**ret, ty) {
                    Some(t) => {
                        return Some(Term::App(Box::new(t), Box::new(Term::Hole(p.clone()))));
                    },
                    None => {
                        return None;
                    },
                }
            }
        },
        Type::Exact(_) => {},
    }
    if pty.same(ty) {
        Some(Term::Var(name.clone()))
    } else {
        None
    }
}

/// The hint that `param` gives where a `ty` is wanted, if any.
pub fn as_hint(param: &Param, ty: &Type) -> (r: Option<Term>)
    ensures
        r == hint_spec(param.0, *param.1, *ty),
{
    hint_of(&param.0, &*param.1, ty)
}

/// Text of the literal that stands for a string still to be written.
pub open spec fn blank_text() -> Seq<char> {
    "{SOME_STRING}"@
}

/// Whether `hs` are the hints that come from the wanted type `ty` alone: a
/// function with a hole named `func_body` for its body where a function is wanted;
/// the blank literal, to be filled in later, where a `String` is; none otherwise.
pub open spec fn generic_hints(ty: Type, hs: Seq<Term>) -> bool {
    match ty {
        Type::Func(p, ret) => {
            &&& hs.len() == 1
            &&& match hs[0] {
                Term::Func(q, body) => {
                    &&& q == p
                    &&& match *body {
                        Term::Hole(h) => {
                            &&& h.0@ == "func_body"@
                            &&& *h.1 == *ret
                            &&& h.2@ == "Function Body"@
                        },
                        _ => false,
                    }
                },
                _ => false,
            }
        },
        Type::Exact(n) => if n@ == "String"@ {
            &&& hs.len() == 1
            &&& hs[0] is Lit
            &&& hs[0]->Lit_0@ == blank_text()
        } else {
            hs.len() == 0
        },
    }
}

/// Appends to `hints` the hints that come from the wanted type `ty` alone.
pub fn more_hints(hints: &mut Vec<Term>, ty: &Type)
    ensures
        final(hints)@.len() >= old(hints)@.len(),
        final(hints)@.subrange(0, old(hints)@.len() as int) == old(hints)@,
        generic_hints(*ty, final(hints)@.subrange(old(hints)@.len() as int, final(hints)@.len() as int)),
{
    let ghost start = hints@.len();
    match ty {
        Type::Func(param, ret) => {
            let hole = Term::Hole(
                Param(String::from_str("func_body"), Box::new((&**ret).clone()), String::from_str("Function Body")),
            );
            hints.push(Term::Func(param.clone(), Box::new(hole)));
        },
        Type::Exact(n) => {
            if *n == String::from_str("String") {
                hints.push(Term::Lit(String::from_str("{SOME_STRING}")));
            }
        },
    }
    assert(hints@.subrange(0, start as int) =~= old(hints)@);
}

/// The hints that the context `ctx` gives where a `ty` is wanted, in context order.
pub open spec fn context_hints(ctx: Seq<Param>, ty: Type) -> Seq<Term>
    decreases ctx.len(),
{
    if ctx.len() == 0 {
        Seq::empty()
    } else {
        let init = context_hints(ctx.drop_last(), ty);
        match hint_spec(ctx.last().0, *ctx.last().1, ty) {
            Some(t) => init.push(t),
            None => init,
        }
    }
}

/// Whether `cs` are the candidates for a hole of type `ty` with `ctx` in scope:
/// the context's hints, then the generic ones.
pub open spec fn candidates_spec(ctx: Seq<Param>, ty: Type, cs: Seq<Term>) -> bool {
    let k = context_hints(ctx, ty).len();
    &&& k <= cs.len()
    &&& cs.subrange(0, k as int) == context_hints(ctx, ty)
    &&& generic_hints(ty, cs.subrange(k as int, cs.len() as int))
}

/// The candidate completions of a hole of type `ty` with `ctx` in scope.
pub fn candidates(ctx: &Vec<Param>, ty: &Type) -> (r: Vec<Term>)
    ensures
        candidates_spec(ctx@, *ty, r@),
{
    let mut hints: Vec<Term> = Vec::new();
    let mut i: usize = 0;
    while i < ctx.len()
        invariant
            i <= ctx@.len(),
            hints@ == context_hints(ctx@.subrange(0, i as int), *ty),
        decreases ctx@.len() - i,
    {
        assert(ctx@.subrange(0, i + 1).drop_last() =~= ctx@.subrange(0, i as int));
        if let Some(t) = as_hint(&ctx[i], ty) {
            hints.push(t);
        }
        i = i + 1;
    }
    assert(ctx@.subrange(0, i as int) =~= ctx@);
    more_hints(&mut hints, ty);
    hints
}

spec fn type_size(t: Type) -> nat
    decreases t,
{
    match t {
        Type::Func(p, r) => 1 + type_size(*p.1) + type_size(*r),
        Type::Exact(_) => 1,
    }
}

proof fn lemma_same_type_size(a: Type, b: Type)
    requires
        same_type(a, b),
    ensures
        type_size(a) == type_size(b),
    decreases a,
{
    if let (Type::Func(p, r), Type::Func(q, s)) = (a, b) {
        lemma_same_type_size(*p.1, *q.1);
        lemma_same_type_size(*r, *s);
    }
}

/// The two shapes of a hint: the parameter itself, when its type is the wanted
/// one; or the parameter applied to a hole for its argument, when its return
/// type is the wanted one.
pub proof fn lemma_hint_shape(name: String, pty: Type, ty: Type)
    requires
        hint_spec(name, pty, ty) is Some,
    ensures
        ({
            let t = hint_spec(name, pty, ty)->Some_0;
            ||| same_type(pty, ty) && t == Term::Var(name)
            ||| match pty {
                Type::Func(p, ret) => same_type(*ret, ty) && t == Term::App(
                    Box::new(Term::Var(name)),
                    Box::new(Term::Hole(p)),
                ),
                _ => false,
            }
        }),
{
    reveal_with_fuel(hint_spec, 2);
    if let Type::Func(p, ret) = pty {
        if same_type(*ret, ty) {
            lemma_same_type_size(*ret, ty);
            if let Type::Func(p2, ret2) = *ret {
                if same_type(*ret2, ty) {
                    lemma_same_type_size(*ret2, ty);
                }
            }
        }
    }
}

/// Hints are sound. Let `typed` be any typing of values that respects structural
/// type equality, and under which a function value applied to a hole of its
/// parameter type has its return type (the hole stands for the argument still to
/// come). Then the hint that `param` gives where a `ty` is wanted, evaluated in an
/// environment that binds `param` to a value of its declared type, yields a value
/// typed `ty` whenever evaluation finishes.
pub proof fn lemma_hint_sound(
    param: Param,
    ty: Type,
    v: Val,
    env: Env,
    depth: nat,
    typed: spec_fn(Val, Type) -> bool,
)
    requires
        forall|x: Val, a: Type, b: Type| same_type(a, b) && #[trigger] typed(x, a) ==> #[trigger] typed(x, b),
        forall|f: Val, p: Param, ret: Type, d: nat|
            #![trigger typed(f, Type::Func(p, Box::new(ret))), apply_spec(f, Val::Hole(p), d)]
            typed(f, Type::Func(p, Box::new(ret))) && apply_spec(f, Val::Hole(p), d) is Ok
                ==> typed(apply_spec(f, Val::Hole(p), d)->Ok_0, ret),
        !(v is Rec),
        typed(v, *param.1),
        lookup(env, param.0@) == Some(v),
        hint_spec(param.0, *param.1, ty) is Some,
        eval_spec(hint_spec(param.0, *param.1, ty)->Some_0, env, depth) is Ok,
    ensures
        typed(eval_spec(hint_spec(param.0, *param.1, ty)->Some_0, env, depth)->Ok_0, ty),
{
    lemma_hint_shape(param.0, *param.1, ty);
    let t = hint_spec(param.0, *param.1, ty)->Some_0;
    reveal_with_fuel(eval_spec, 3);
    if let Type::Func(p, ret) = *param.1 {
        if t == Term::App(Box::new(Term::Var(param.0)), Box::new(Term::Hole(p))) {
            let d = (depth - 1) as nat;
            assert(eval_spec(Term::Var(param.0), env, d) == Ok::<Val, EvalError>(v));
            assert(eval_spec(Term::Hole(p), env, d) == Ok::<Val, EvalError>(Val::Hole(p)));
            assert(typed(v, Type::Func(p, Box::new(*ret))));
            assert(typed(apply_spec(v, Val::Hole(p), d)->Ok_0, *ret));
        }
    }
}

} // verus!
