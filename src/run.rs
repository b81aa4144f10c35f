use vstd::prelude::*;
use vstd::string::*;
use crate::ast::{Args, Env, Val};

verus! {

/// Why running a value failed.
#[derive(Debug, PartialEq, Eq)]
pub enum RunError {
    /// An application that is not a library call with exactly one literal argument
    InvalidApplication(Val),
}

/// Text that the predict backend gives for `prefix`.
pub open spec fn predict_text(prefix: Seq<char>) -> Seq<char> {
    "predict("@ + prefix + ")"@
}

/// Text that the ask backend gives for `question`: it shares the predict
/// backend's form.
pub open spec fn ask_text(question: Seq<char>) -> Seq<char> {
    "predict("@ + question + ")"@
}

/// Predicts the words that follow `prefix`.
pub fn predict(prefix: String) -> (r: String)
    ensures
        r@ == predict_text(prefix@),
{
    let mut r = String::from_str("predict(");
    r.append(prefix.as_str());
    r.append(")");
    r
}

/// Asks the user `question`.
pub fn ask(question: String) -> (r: String)
    ensures
        r@ == ask_text(question@),
{
    let mut r = String::from_str("predict(");
    r.append(question.as_str());
    r.append(")");
    r
}

/// The single argument of `args`, if it holds exactly one.
pub open spec fn sole_arg(args: Args) -> Option<Val> {
    match args {
        Args::Push(rest, v) => match *rest {
            Args::Empty => Some(*v),
            _ => None,
        },
        Args::Empty => None,
    }
}

/// What running a value gives.
pub enum Ran {
    /// The value itself, left as it is
    Kept(Val),
    /// A literal with this text, from a library call
    Text(Seq<char>),
    /// The application that is invalid
    Invalid(Val),
}

/// The text a library call named `name` gives for `arg`.
pub open spec fn call_text(name: Seq<char>, arg: Seq<char>) -> Seq<char> {
    if name == "predict"@ {
        predict_text(arg)
    } else {
        ask_text(arg)
    }
}

/// `v` with its library calls carried out.
///
/// An application of the library function `predict` or `ask` to exactly one
/// argument runs that argument, which must give a literal, and calls the
/// function on the literal's text; any other application is invalid. Values that
/// are not applications are left as they are.
pub open spec fn run_spec(v: Val) -> Ran
    decreases v,
{
    match v {
        Val::App(f, args) => match (*f, sole_arg(args)) {
            (Val::Lib(name), Some(a)) => if name@ == "predict"@ || name@ == "ask"@ {
                match run_spec(a) {
                    Ran::Kept(Val::Lit(s)) => Ran::Text(call_text(name@, s@)),
                    Ran::Text(s) => Ran::Text(call_text(name@, s)),
                    Ran::Kept(other) => Ran::Invalid(other),
                    Ran::Invalid(x) => Ran::Invalid(x),
                }
            } else {
                Ran::Invalid(Val::App(f, args))
            },
            _ => Ran::Invalid(Val::App(f, args)),
        },
        other => Ran::Kept(other),
    }
}

/// Whether `r` is what running gives as `ran`.
pub open spec fn ran_as(ran: Ran, r: Result<Val, RunError>) -> bool {
    match ran {
        Ran::Kept(v) => r == Ok::<Val, RunError>(v),
        Ran::Text(t) => match r {
            Ok(Val::Lit(s)) => s@ == t,
            _ => false,
        },
        Ran::Invalid(v) => r == Err::<Val, RunError>(RunError::InvalidApplication(v)),
    }
}

/// Runs `val`, the value of a finished term in `_env`, so that the library calls
/// in it are carried out.
pub fn run(val: Val, _env: &Env) -> (r: Result<Val, RunError>)
    ensures
        ran_as(run_spec(val), r),
    decreases val,
{
    match val {
        Val::App(f, args) => {
            let name = match &*f {
                Val::Lib(name) => name.clone(),
                _ => return Err(RunError::InvalidApplication(Val::App(f, args))),
            };
            let is_predict = name == String::from_str("predict");
            let is_ask = name == String::from_str("ask");
            if !is_predict && !is_ask {
                return Err(RunError::InvalidApplication(Val::App(f, args)));
            }
            let arg = match &args {
                Args::Push(rest, v) => match &**rest {
                    Args::Empty => (&**v).clone(),
                    _ => return Err(RunError::InvalidApplication(Val::App(f, args))),
                },
                Args::Empty => return Err(RunError::InvalidApplication(Val::App(f, args))),
            };
            match run(arg, _env) {
                Ok(Val::Lit(s)) => {
                    let text = if is_predict {
                        predict(s)
                    } else {
                        ask(s)
                    };
                    Ok(Val::Lit(text))
                },
                Ok(other) => Err(RunError::InvalidApplication(other)),
                Err(e) => Err(e),
            }
        },
        other => Ok(other),
    }
}

} // verus!
