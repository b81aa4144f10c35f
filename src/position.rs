use vstd::prelude::*;
use crate::ast::{Arg, Env, Param, Term, Val, env_seq};
use crate::eval::bind;

verus! {

/// One step of descent into a term: the parent with the visited child left out.
#[derive(Debug, PartialEq, Eq)]
pub enum Frame {
    /// The body of `Func(param, _)`
    FuncBody(Param),
    /// The function of `App(_, arg)`
    AppFunc(Box<Term>),
    /// The argument of `App(func, _)`
    AppArg(Box<Term>),
    /// The bound term of `Let(param, _, next)`
    LetBound(Param, Box<Term>),
    /// The continuation of `Let(param, bound, _)`
    LetNext(Param, Box<Term>),
}

impl Clone for Frame {
    fn clone(&self) -> (r: Self)
        ensures
            r == *self,
    {
        match self {
            Frame::FuncBody(p) => Frame::FuncBody(p.clone()),
            Frame::AppFunc(a) => Frame::AppFunc(Box::new((&**a).clone())),
            Frame::AppArg(f) => Frame::AppArg(Box::new((&**f).clone())),
            Frame::LetBound(p, n) => Frame::LetBound(p.clone(), Box::new((&**n).clone())),
            Frame::LetNext(p, b) => Frame::LetNext(p.clone(), Box::new((&**b).clone())),
        }
    }
}

/// `t` put back in the place that `f` left out.
pub open spec fn wrap(f: Frame, t: Term) -> Term {
    match f {
        Frame::FuncBody(p) => Term::Func(p, Box::new(t)),
        Frame::AppFunc(a) => Term::App(Box::new(t), a),
        Frame::AppArg(g) => Term::App(g, Box::new(t)),
        Frame::LetBound(p, n) => Term::Let(p, Box::new(t), n),
        Frame::LetNext(p, b) => Term::Let(p, b, Box::new(t)),
    }
}

/// `t` put back through `frames`, innermost (last) first: the whole term.
pub open spec fn plug(frames: Seq<Frame>, t: Term) -> Term
    decreases frames.len(),
{
    if frames.len() == 0 {
        t
    } else {
        plug(frames.drop_last(), wrap(frames.last(), t))
    }
}

impl Frame {
    /// `t` put back in the place that this frame left out.
    pub fn wrap(&self, t: Term) -> (r: Term)
        ensures
            r == wrap(*self, t),
    {
        match self {
            Frame::FuncBody(p) => Term::Func(p.clone(), Box::new(t)),
            Frame::AppFunc(a) => Term::App(Box::new(t), Box::new((&**a).clone())),
            Frame::AppArg(g) => Term::App(Box::new((&**g).clone()), Box::new(t)),
            Frame::LetBound(p, n) => Term::Let(p.clone(), Box::new(t), Box::new((&**n).clone())),
            Frame::LetNext(p, b) => Term::Let(p.clone(), Box::new((&**b).clone()), Box::new(t)),
        }
    }
}

/// A place inside a term: the frames that lead to it from the root, and the
/// parameters (context) and bindings (environment) in scope there.
#[derive(Debug)]
pub struct Position {
    pub lens: Vec<Frame>,
    pub ctx: Vec<Param>,
    pub env: Env,
}

/// What a position is: its frames, its context and its environment.
pub struct PosView {
    pub lens: Seq<Frame>,
    pub ctx: Seq<Param>,
    pub env: Env,
}

impl View for Position {
    type V = PosView;

    open spec fn view(&self) -> PosView {
        PosView { lens: self.lens@, ctx: self.ctx@, env: self.env }
    }
}

/// `pv` one frame further down.
pub open spec fn pos_map(pv: PosView, f: Frame) -> PosView {
    PosView { lens: pv.lens.push(f), ctx: pv.ctx, env: pv.env }
}

/// `pv` with `p` in scope: in the context, and bound to itself in the environment.
pub open spec fn pos_with(pv: PosView, p: Param) -> PosView {
    PosView { lens: pv.lens, ctx: pv.ctx.push(p), env: bind(pv.env, p.0, Val::Var(p.0)) }
}

impl Clone for Position {
    fn clone(&self) -> (r: Self)
        ensures
            r@ == self@,
    {
        let lens = self.lens.clone();
        let ctx = self.ctx.clone();
        assert(lens@ =~= self.lens@);
        assert(ctx@ =~= self.ctx@);
        Position { lens, ctx, env: self.env.clone() }
    }
}

impl Position {
    /// The root of a term: nothing to put back, with `ctx` and `env` in scope.
    pub fn root(ctx: Vec<Param>, env: Env) -> (r: Position)
        ensures
            r@ == (PosView { lens: Seq::empty(), ctx: ctx@, env }),
    {
        Position { lens: Vec::new(), ctx, env }
    }

    /// This position one frame further down.
    pub fn map(self, f: Frame) -> (r: Self)
        ensures
            r@ == pos_map(self@, f),
    {
        let mut r = self;
        r.lens.push(f);
        r
    }

    /// This position with `param` in scope.
    pub fn with(self, param: &Param) -> (r: Self)
        ensures
            r@ == pos_with(self@, *param),
    {
        let mut r = self;
        r.ctx.push(param.clone());
        let env = r.env.push(param.0.clone(), Val::Var(param.0.clone()));
        Position { lens: r.lens, ctx: r.ctx, env }
    }

    /// The whole term with `t` in this position.
    pub fn rebuild(&self, t: Term) -> (r: Term)
        ensures
            r == plug(self.lens@, t),
    {
        let mut cur = t;
        let mut i: usize = self.lens.len();
        assert(self.lens@.subrange(0, i as int) =~= self.lens@);
        while i > 0
            invariant
                i <= self.lens@.len(),
                plug(self.lens@.subrange(0, i as int), cur) == plug(self.lens@, t),
            decreases i,
        {
            let ghost s = self.lens@.subrange(0, i as int);
            assert(s.drop_last() =~= self.lens@.subrange(0, i - 1));
            i = i - 1;
            cur = self.lens[i].wrap(cur);
        }
        assert(self.lens@.subrange(0, 0) =~= Seq::<Frame>::empty());
        cur
    }
}

/// A hole found in a term: where it is, and the parameter it carries.
#[derive(Debug)]
pub struct Hole {
    pub pos: Position,
    pub param: Param,
}

impl View for Hole {
    type V = (PosView, Param);

    open spec fn view(&self) -> (PosView, Param) {
        (self.pos@, self.param)
    }
}

impl Clone for Hole {
    fn clone(&self) -> (r: Self)
        ensures
            r@ == self@,
    {
        Hole { pos: self.pos.clone(), param: self.param.clone() }
    }
}

/// What an optional hole is.
pub open spec fn hole_view(h: Option<Hole>) -> Option<(PosView, Param)> {
    match h {
        Some(h) => Some(h@),
        None => None,
    }
}

/// The first hole of `t` in pre-order, left to right, for `t` standing at `pv`.
///
/// A function's body is searched with its parameter in scope; an application's
/// function before its argument; a `let`'s bound term before its continuation,
/// both with the let-parameter in scope.
pub open spec fn first_hole_spec(t: Term, pv: PosView) -> Option<(PosView, Param)>
    decreases t,
{
    match t {
        Term::Func(p, body) => first_hole_spec(*body, pos_with(pos_map(pv, Frame::FuncBody(p)), p)),
        Term::Var(_) => None,
        Term::Lit(_) => None,
        Term::App(f, a) => match first_hole_spec(*f, pos_map(pv, Frame::AppFunc(a))) {
            Some(h) => Some(h),
            None => first_hole_spec(*a, pos_map(pv, Frame::AppArg(f))),
        },
        Term::Let(p, bound, next) => match first_hole_spec(
            *bound,
            pos_with(pos_map(pv, Frame::LetBound(p, next)), p),
        ) {
            Some(h) => Some(h),
            None => first_hole_spec(*next, pos_with(pos_map(pv, Frame::LetNext(p, bound)), p)),
        },
        Term::Hole(p) => Some((pv, p)),
    }
}

/// The first hole of `term`, which stands at `pos`; `None` when `term` is complete.
pub fn first_hole(term: &Term, pos: Position) -> (r: Option<Hole>)
    ensures
        hole_view(r) == first_hole_spec(*term, pos@),
    decreases term,
{
    match term {
        Term::Func(param, body) => {
            let body_pos = pos.map(Frame::FuncBody(param.clone())).with(param);
            first_hole(&**body, body_pos)
        },
        Term::Var(_) => None,
        Term::Lit(_) => None,
        Term::App(func, arg) => {
            let arg_pos = pos.clone().map(Frame::AppArg(Box::new((&**func).clone())));
            let func_pos = pos.map(Frame::AppFunc(Box::new((&**arg).clone())));
            match first_hole(&**func, func_pos) {
                Some(h) => Some(h),
                None => first_hole(&**arg, arg_pos),
            }
        },
        Term::Let(param, bound, next) => {
            let next_pos = pos.clone().map(
                Frame::LetNext(param.clone(), Box::new((&**bound).clone())),
            ).with(param);
            let bound_pos = pos.map(
                Frame::LetBound(param.clone(), Box::new((&**next).clone())),
            ).with(param);
            match first_hole(&**bound, bound_pos) {
                Some(h) => Some(h),
                None => first_hole(&**next, next_pos),
            }
        },
        Term::Hole(param) => Some(Hole { pos, param: param.clone() }),
    }
}

/// The position reached from `pv` by descending into `t` along `path`, one child
/// per step: 0 is the body of a function, the function of an application or the
/// bound term of a `let`; 1 is the argument of an application or the continuation
/// of a `let`. `None` when the path leaves the term.
pub open spec fn descend(t: Term, path: Seq<int>, pv: PosView) -> Option<PosView>
    decreases path.len(),
{
    if path.len() == 0 {
        Some(pv)
    } else {
        let rest = path.drop_first();
        match t {
            Term::Func(p, b) => if path[0] == 0 {
                descend(*b, rest, pos_with(pos_map(pv, Frame::FuncBody(p)), p))
            } else {
                None
            },
            Term::App(f, a) => if path[0] == 0 {
                descend(*f, rest, pos_map(pv, Frame::AppFunc(a)))
            } else if path[0] == 1 {
                descend(*a, rest, pos_map(pv, Frame::AppArg(f)))
            } else {
                None
            },
            Term::Let(p, b, n) => if path[0] == 0 {
                descend(*b, rest, pos_with(pos_map(pv, Frame::LetBound(p, n)), p))
            } else if path[0] == 1 {
                descend(*n, rest, pos_with(pos_map(pv, Frame::LetNext(p, b)), p))
            } else {
                None
            },
            _ => None,
        }
    }
}

/// `t` with the subterm at `path` (numbered as in `descend`) replaced by `r`,
/// written out directly; `t` itself when the path leaves the term.
pub open spec fn replace_at(t: Term, path: Seq<int>, r: Term) -> Term
    decreases path.len(),
{
    if path.len() == 0 {
        r
    } else {
        let rest = path.drop_first();
        match t {
            Term::Func(p, b) => if path[0] == 0 {
                Term::Func(p, Box::new(replace_at(*b, rest, r)))
            } else {
                t
            },
            Term::App(f, a) => if path[0] == 0 {
                Term::App(Box::new(replace_at(*f, rest, r)), a)
            } else if path[0] == 1 {
                Term::App(f, Box::new(replace_at(*a, rest, r)))
            } else {
                t
            },
            Term::Let(p, b, n) => if path[0] == 0 {
                Term::Let(p, Box::new(replace_at(*b, rest, r)), n)
            } else if path[0] == 1 {
                Term::Let(p, b, Box::new(replace_at(*n, rest, r)))
            } else {
                t
            },
            _ => t,
        }
    }
}

/// The subterm of `t` at `path`, numbered as in `descend`.
pub open spec fn subterm_at(t: Term, path: Seq<int>) -> Option<Term>
    decreases path.len(),
{
    if path.len() == 0 {
        Some(t)
    } else {
        let rest = path.drop_first();
        match t {
            Term::Func(_, b) => if path[0] == 0 {
                subterm_at(*b, rest)
            } else {
                None
            },
            Term::App(f, a) => if path[0] == 0 {
                subterm_at(*f, rest)
            } else if path[0] == 1 {
                subterm_at(*a, rest)
            } else {
                None
            },
            Term::Let(_, b, n) => if path[0] == 0 {
                subterm_at(*b, rest)
            } else if path[0] == 1 {
                subterm_at(*n, rest)
            } else {
                None
            },
            _ => None,
        }
    }
}

proof fn lemma_plug_push(fs: Seq<Frame>, f: Frame, t: Term)
    ensures
        plug(fs.push(f), t) == plug(fs, wrap(f, t)),
{
    assert(fs.push(f).drop_last() =~= fs);
}

/// Rebuilding composes: putting a term back through the frames `outer + inner`
/// is putting it back through `inner`, then through `outer`.
pub proof fn lemma_plug_compose(outer: Seq<Frame>, inner: Seq<Frame>, t: Term)
    ensures
        plug(outer + inner, t) == plug(outer, plug(inner, t)),
    decreases inner.len(),
{
    if inner.len() == 0 {
        assert(outer + inner =~= outer);
    } else {
        assert((outer + inner).drop_last() =~= outer + inner.drop_last());
        assert((outer + inner).last() == inner.last());
        lemma_plug_compose(outer, inner.drop_last(), wrap(inner.last(), t));
    }
}

/// Rebuilding through a position reached by descent is substitution at its
/// address: for every replacement `r`, putting `r` back through the frames gives
/// the term with the subterm at `path` replaced by `r`.
pub proof fn lemma_lens_round_trip(t: Term, path: Seq<int>, pv: PosView, r: Term)
    requires
        descend(t, path, pv) is Some,
    ensures
        plug(descend(t, path, pv)->Some_0.lens, r) == plug(pv.lens, replace_at(t, path, r)),
    decreases path.len(),
{
    if path.len() > 0 {
        let rest = path.drop_first();
        match t {
            Term::Func(p, b) => {
                lemma_lens_round_trip(*b, rest, pos_with(pos_map(pv, Frame::FuncBody(p)), p), r);
                lemma_plug_push(pv.lens, Frame::FuncBody(p), replace_at(*b, rest, r));
            },
            Term::App(f, a) => if path[0] == 0 {
                lemma_lens_round_trip(*f, rest, pos_map(pv, Frame::AppFunc(a)), r);
                lemma_plug_push(pv.lens, Frame::AppFunc(a), replace_at(*f, rest, r));
            } else {
                lemma_lens_round_trip(*a, rest, pos_map(pv, Frame::AppArg(f)), r);
                lemma_plug_push(pv.lens, Frame::AppArg(f), replace_at(*a, rest, r));
            },
            Term::Let(p, b, n) => if path[0] == 0 {
                lemma_lens_round_trip(*b, rest, pos_with(pos_map(pv, Frame::LetBound(p, n)), p), r);
                lemma_plug_push(pv.lens, Frame::LetBound(p, n), replace_at(*b, rest, r));
            } else {
                lemma_lens_round_trip(*n, rest, pos_with(pos_map(pv, Frame::LetNext(p, b)), p), r);
                lemma_plug_push(pv.lens, Frame::LetNext(p, b), replace_at(*n, rest, r));
            },
            _ => {},
        }
    }
}

/// The context and the environment of a position stand side by side: as many
/// entries, with the same names in the same order.
pub open spec fn parallel(pv: PosView) -> bool {
    let e = env_seq(pv.env);
    &&& pv.ctx.len() == e.len()
    &&& forall|i: int| 0 <= i < e.len() ==> pv.ctx[i].0@ == #[trigger] e[i].0@
}

/// Descent keeps the context and the environment side by side.
pub proof fn lemma_descend_parallel(t: Term, path: Seq<int>, pv: PosView)
    requires
        parallel(pv),
        descend(t, path, pv) is Some,
    ensures
        parallel(descend(t, path, pv)->Some_0),
    decreases path.len(),
{
    if path.len() > 0 {
        let rest = path.drop_first();
        match t {
            Term::Func(p, b) => {
                lemma_with_parallel(pos_map(pv, Frame::FuncBody(p)), p);
                lemma_descend_parallel(*b, rest, pos_with(pos_map(pv, Frame::FuncBody(p)), p));
            },
            Term::App(f, a) => if path[0] == 0 {
                lemma_descend_parallel(*f, rest, pos_map(pv, Frame::AppFunc(a)));
            } else {
                lemma_descend_parallel(*a, rest, pos_map(pv, Frame::AppArg(f)));
            },
            Term::Let(p, b, n) => if path[0] == 0 {
                lemma_with_parallel(pos_map(pv, Frame::LetBound(p, n)), p);
                lemma_descend_parallel(*b, rest, pos_with(pos_map(pv, Frame::LetBound(p, n)), p));
            } else {
                lemma_with_parallel(pos_map(pv, Frame::LetNext(p, b)), p);
                lemma_descend_parallel(*n, rest, pos_with(pos_map(pv, Frame::LetNext(p, b)), p));
            },
            _ => {},
        }
    }
}

proof fn lemma_with_parallel(pv: PosView, p: Param)
    requires
        parallel(pv),
    ensures
        parallel(pos_with(pv, p)),
{
    let q = pos_with(pv, p);
    assert(env_seq(q.env) == env_seq(pv.env).push(Arg(p.0, Val::Var(p.0))));
}

/// The hole that `first_hole` finds is reached by descent: along some path, the
/// descent from the root gives the hole's position, and the subterm there is the hole.
pub proof fn lemma_first_hole_reached(t: Term, pv: PosView) -> (path: Seq<int>)
    requires
        first_hole_spec(t, pv) is Some,
    ensures
        descend(t, path, pv) == Some(first_hole_spec(t, pv)->Some_0.0),
        subterm_at(t, path) == Some(Term::Hole(first_hole_spec(t, pv)->Some_0.1)),
    decreases t,
{
    match t {
        Term::Func(p, b) => {
            let sub = lemma_first_hole_reached(*b, pos_with(pos_map(pv, Frame::FuncBody(p)), p));
            let path = seq![0int] + sub;
            assert(path.drop_first() =~= sub);
            path
        },
        Term::App(f, a) => {
            if first_hole_spec(*f, pos_map(pv, Frame::AppFunc(a))) is Some {
                let sub = lemma_first_hole_reached(*f, pos_map(pv, Frame::AppFunc(a)));
                let path = seq![0int] + sub;
                assert(path.drop_first() =~= sub);
                path
            } else {
                let sub = lemma_first_hole_reached(*a, pos_map(pv, Frame::AppArg(f)));
                let path = seq![1int] + sub;
                assert(path.drop_first() =~= sub);
                path
            }
        },
        Term::Let(p, b, n) => {
            if first_hole_spec(*b, pos_with(pos_map(pv, Frame::LetBound(p, n)), p)) is Some {
                let sub = lemma_first_hole_reached(*b, pos_with(pos_map(pv, Frame::LetBound(p, n)), p));
                let path = seq![0int] + sub;
                assert(path.drop_first() =~= sub);
                path
            } else {
                let sub = lemma_first_hole_reached(*n, pos_with(pos_map(pv, Frame::LetNext(p, b)), p));
                let path = seq![1int] + sub;
                assert(path.drop_first() =~= sub);
                path
            }
        },
        _ => Seq::empty(),
    }
}

/// Holes are found left to right: in `App(Func(p, Hole(a)), Hole(b))` the hole
/// found first is `a`, inside the function, with `p` in scope.
pub proof fn lemma_hole_order(p: Param, a: Param, b: Param, pv: PosView)
    ensures
        ({
            let t = Term::App(
                Box::new(Term::Func(p, Box::new(Term::Hole(a)))),
                Box::new(Term::Hole(b)),
            );
            &&& first_hole_spec(t, pv) is Some
            &&& first_hole_spec(t, pv)->Some_0.1 == a
            &&& first_hole_spec(t, pv)->Some_0.0.ctx == pv.ctx.push(p)
        }),
{
    reveal_with_fuel(first_hole_spec, 3);
}

} // verus!
