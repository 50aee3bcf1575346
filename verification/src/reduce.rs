//! Single-step beta reduction under two evaluation strategies.
//!
//! Both engines perform exactly one reduction step; iterating to a normal
//! form is left to the caller. A term on which no step applies — anything
//! that is not an application, or a stuck application whose function
//! position is not an abstraction — comes back unchanged.

use crate::subst::{replace_parameter, substitute};
use crate::term::{share, Term};
use std::rc::Rc;
use vstd::prelude::*;

verus! {

/// One call-by-name step: when the function position is an abstraction,
/// beta-reduce with the argument passed in unevaluated; otherwise reduce
/// the function position one step and rebuild the application with the
/// original argument; anything that is not an application is unchanged.
pub open spec fn reduce_call_by_name(t: Term) -> Term
    decreases t,
{
    match t {
        Term::Application(f, a) => match *f {
            Term::Lambda(p, body) => substitute(*body, p, *a),
            _ => Term::Application(Rc::new(reduce_call_by_name(*f)), a),
        },
        _ => t,
    }
}

/// One call-by-value step: an application whose argument is itself an
/// application first has that argument reduced one call-by-name step; once
/// the argument is a variable or an abstraction, an abstraction in the
/// function position is beta-reduced, and anything else is stuck and
/// unchanged; a term that is not an application is unchanged.
pub open spec fn reduce_call_by_value(t: Term) -> Term {
    match t {
        Term::Application(f, a) => match *a {
            Term::Application(_, _) => Term::Application(f, Rc::new(reduce_call_by_name(*a))),
            _ => match *f {
                Term::Lambda(p, body) => substitute(*body, p, *a),
                _ => t,
            },
        },
        _ => t,
    }
}

/// Performs one step of call-by-value evaluation on `t`.
///
/// The argument of an application is evaluated first: while it is still an
/// application it is driven one call-by-name step; once it is a variable or
/// an abstraction, beta reduction fires when the function position is an
/// abstraction. A term on which no step applies is handed back unchanged,
/// as the same shared instance.
pub fn call_by_value(t: &Rc<Term>) -> (r: Rc<Term>)
    ensures
        *r == reduce_call_by_value(**t),
{
    match &**t {
        Term::Application(caller, argument) => {
            match &**argument {
                Term::Application(_, _) => {
                    Rc::new(Term::Application(share(caller), call_by_name(argument)))
                },
                _ => {
                    match &**caller {
                        Term::Lambda(parameter, body) => {
                            replace_parameter(body, argument, *parameter)
                        },
                        _ => share(t),
                    }
                },
            }
        },
        _ => share(t),
    }
}

/// Performs one step of call-by-name evaluation on `t`.
///
/// The argument is never evaluated: an abstraction in the function position
/// is beta-reduced with the argument substituted as it stands; otherwise
/// the function position is reduced one step and the application rebuilt
/// around it. A term on which no step applies is handed back unchanged, as
/// the same shared instance.
pub fn call_by_name(t: &Rc<Term>) -> (r: Rc<Term>)
    ensures
        *r == reduce_call_by_name(**t),
    decreases **t,
{
    match &**t {
        Term::Application(caller, argument) => {
            match &**caller {
                Term::Lambda(parameter, body) => replace_parameter(body, argument, *parameter),
                _ => Rc::new(Term::Application(call_by_name(caller), share(argument))),
            }
        },
        _ => share(t),
    }
}

/// A term that is not an application admits no reduction step: both
/// engines hand it back unchanged.
pub proof fn lemma_reduce_non_application(t: Term)
    requires
        !(t is Application),
    ensures
        reduce_call_by_value(t) == t,
        reduce_call_by_name(t) == t,
{
}

/// A stuck application is unchanged by a call-by-value step: when the
/// argument is already a value (not an application) and the function
/// position is not an abstraction, beta reduction cannot fire.
pub proof fn lemma_reduce_stuck_application(f: Rc<Term>, a: Rc<Term>)
    requires
        !(*f is Lambda),
        !(*a is Application),
    ensures
        reduce_call_by_value(Term::Application(f, a)) == Term::Application(f, a),
{
}

/// An application whose function position is a bare variable is stuck
/// under call-by-name as well: the rebuilt application equals the
/// original, whatever the argument is.
pub proof fn lemma_reduce_stuck_application_by_name(f: Rc<Term>, a: Rc<Term>)
    requires
        *f is Variable,
    ensures
        reduce_call_by_name(Term::Application(f, a)) == Term::Application(f, a),
{
    reveal_with_fuel(reduce_call_by_name, 2);
}

} // verus!
