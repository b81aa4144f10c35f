use vstd::prelude::*;
use vstd::string::*;
use crate::ast::{Param, Term, Type, term_text};
use crate::hints::{candidates, candidates_spec, context_hints, generic_hints};
use crate::position::{Hole, PosView, Position, first_hole, first_hole_spec, plug};

verus! {

/// Why synthesis cannot go on.
#[derive(Debug, PartialEq, Eq)]
pub enum SynthError {
    /// No context entry and no generic hint fits the hole's type
    EmptyCandidateSet(Param),
    /// The oracle chose an index past the end of the options
    ChoiceOutOfRange(usize),
}

/// A synthesis in progress: the hole being resolved and its candidates.
#[derive(Debug)]
pub struct Synthesis {
    /// What the finished term should do, in words
    pub desc: String,
    /// The root of the whole term
    pub root: Position,
    /// The hole being resolved
    pub hole: Hole,
    /// Its candidate completions
    pub options: Vec<Term>,
    /// The whole term with each candidate in the hole
    pub previews: Vec<Term>,
    /// The text of each preview, as shown to the oracle
    pub texts: Vec<String>,
}

/// What the host does next.
#[derive(Debug)]
pub enum Step {
    /// Ask the oracle which of `state.texts` fits `prompt` best, and hand the
    /// index to `Synthesis::chosen`
    Choose { state: Synthesis, prompt: String },
    /// Ask the oracle for the text of the blank `blank` in `template`, and hand it
    /// to `Synthesis::filled`
    Fill { state: Synthesis, template: String, blank: String },
    /// Synthesis is complete: the term has no hole left
    Done(Term),
}

/// The question put to the oracle for a synthesis described by `desc`.
pub open spec fn prompt_text(desc: Seq<char>) -> Seq<char> {
    "Which one satisfies most: \n```\n"@ + desc + "\n```"@
}

/// Whether a hole of type `ty` with `ctx` in scope has no candidate at all.
pub open spec fn no_candidates(ctx: Seq<Param>, ty: Type) -> bool {
    &&& context_hints(ctx, ty).len() == 0
    &&& generic_hints(ty, Seq::empty())
}

impl Synthesis {
    /// The state is consistent: the options are the hole's candidates, none
    /// missing, each with its preview and the preview's text.
    pub open spec fn wf(&self) -> bool {
        let n = self.options@.len();
        &&& n > 0
        &&& self.previews@.len() == n
        &&& self.texts@.len() == n
        &&& candidates_spec(self.hole.pos.ctx@, *self.hole.param.1, self.options@)
        &&& forall|i: int|
            0 <= i < n ==> #[trigger] self.previews@[i] == plug(self.hole.pos.lens@, self.options@[i])
        &&& forall|i: int| 0 <= i < n ==> #[trigger] self.texts@[i]@ == term_text(self.previews@[i])
    }
}

/// Whether `r` is how synthesis starts on the hole `hole` of the term rooted at
/// `root`: the hole's candidates are offered to the oracle, or, when there is
/// none, the hole cannot be synthesized.
pub open spec fn started(
    desc: Seq<char>,
    hole: (PosView, Param),
    root: PosView,
    r: Result<Step, SynthError>,
) -> bool {
    match r {
        Err(SynthError::EmptyCandidateSet(p)) => p == hole.1 && no_candidates(hole.0.ctx, *hole.1.1),
        Ok(Step::Choose { state, prompt }) => {
            &&& state.wf()
            &&& state.desc@ == desc
            &&& state.hole@ == hole
            &&& state.root@ == root
            &&& prompt@ == prompt_text(desc)
        },
        _ => false,
    }
}

/// Whether `r` is how synthesis goes on with `t`, the whole term after a hole was
/// resolved: done when `t` has no hole left, else started on its first hole,
/// searched from the root.
pub open spec fn continued(desc: Seq<char>, root: PosView, t: Term, r: Result<Step, SynthError>) -> bool {
    match first_hole_spec(t, root) {
        None => match r {
            Ok(Step::Done(u)) => u == t,
            _ => false,
        },
        Some(h) => started(desc, h, root, r),
    }
}

/// Starts resolving `hole` of the term rooted at `root`: builds its candidates and
/// the whole term with each of them in place, for the oracle to choose from.
///
/// Each call does one step; the host drives the loop through `Synthesis::chosen`
/// and `Synthesis::filled` and owns any bound on the number of steps.
pub fn gen(desc: String, hole: Hole, root: Position) -> (r: Result<Step, SynthError>)
    ensures
        started(desc@, hole@, root@, r),
{
    let options = candidates(&hole.pos.ctx, &*hole.param.1);
    if options.len() == 0 {
        assert(options@.subrange(0, 0) =~= Seq::<Term>::empty());
        return Err(SynthError::EmptyCandidateSet(hole.param));
    }
    let mut previews: Vec<Term> = Vec::new();
    let mut texts: Vec<String> = Vec::new();
    let mut i: usize = 0;
    while i < options.len()
        invariant
            i <= options@.len(),
            previews@.len() == i,
            texts@.len() == i,
            forall|j: int| 0 <= j < i ==> #[trigger] previews@[j] == plug(hole.pos.lens@, options@[j]),
            forall|j: int| 0 <= j < i ==> #[trigger] texts@[j]@ == term_text(previews@[j]),
        decreases options@.len() - i,
    {
        let p = hole.pos.rebuild(options[i].clone());
        texts.push(p.render());
        previews.push(p);
        i = i + 1;
    }
    let mut prompt = String::from_str("Which one satisfies most: \n```\n");
    prompt.append(desc.as_str());
    prompt.append("\n```");
    let state = Synthesis { desc, root, hole, options, previews, texts };
    Ok(Step::Choose { state, prompt })
}

impl Synthesis {
    /// Goes on with `t`, the whole term after the hole was resolved.
    fn go_on(self, t: Term) -> (r: Result<Step, SynthError>)
        ensures
            continued(self.desc@, self.root@, t, r),
    {
        match first_hole(&t, self.root.clone()) {
            Some(h) => gen(self.desc, h, self.root),
            None => Ok(Step::Done(t)),
        }
    }

    /// Takes the oracle's choice `ix` among the options. A blank literal asks for
    /// its text first, and the state stays as it is; any other candidate is put in
    /// the hole, and synthesis goes on with the first hole of the new whole term.
    pub fn chosen(self, ix: usize) -> (r: Result<Step, SynthError>)
        ensures
            ix >= self.options@.len() || ix >= self.previews@.len() || ix >= self.texts@.len()
                ==> match r {
                Err(SynthError::ChoiceOutOfRange(j)) => j == ix,
                _ => false,
            },
            ix < self.options@.len() && ix < self.previews@.len() && ix < self.texts@.len()
                && self.options@[ix as int] is Lit ==> match r {
                Ok(Step::Fill { state, template, blank }) => {
                    &&& state == self
                    &&& template@ == self.texts@[ix as int]@
                    &&& blank@ == self.options@[ix as int]->Lit_0@
                },
                _ => false,
            },
            ix < self.options@.len() && ix < self.previews@.len() && ix < self.texts@.len()
                && !(self.options@[ix as int] is Lit) ==> continued(
                self.desc@,
                self.root@,
                self.previews@[ix as int],
                r,
            ),
    {
        if ix >= self.options.len() || ix >= self.previews.len() || ix >= self.texts.len() {
            return Err(SynthError::ChoiceOutOfRange(ix));
        }
        let blank = match &self.options[ix] {
            Term::Lit(blank) => Some(blank.clone()),
            _ => None,
        };
        match blank {
            Some(blank) => {
                let template = self.texts[ix].clone();
                Ok(Step::Fill { state: self, template, blank })
            },
            None => {
                let t = self.previews[ix].clone();
                self.go_on(t)
            },
        }
    }

    /// Takes the oracle's text for the chosen blank literal, puts the literal in
    /// the hole, and goes on with the first hole of the new whole term.
    pub fn filled(self, text: String) -> (r: Result<Step, SynthError>)
        ensures
            continued(self.desc@, self.root@, plug(self.hole.pos.lens@, Term::Lit(text)), r),
    {
        let t = self.hole.pos.rebuild(Term::Lit(text));
        self.go_on(t)
    }
}

} // verus!
