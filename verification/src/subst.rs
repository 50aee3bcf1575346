//! Substitution: replacing free occurrences of a name with a replacement
//! term, by structural recursion.
//!
//! This substitution is deliberately capture-naive: it never alpha-renames
//! a bound parameter, so a free variable of the replacement that collides
//! with a parameter inside the target is captured. That limitation is part
//! of the engine's documented behaviour, not repaired here.

use crate::term::{occurs_free, share, Term};
use std::rc::Rc;
use vstd::prelude::*;

verus! {

/// What substitution returns: `r` in place of each free `Variable(name)`
/// leaf of `t`, descent stopping at a `Lambda` whose parameter shadows
/// `name`, and everything else left as it is.
pub open spec fn substitute(t: Term, name: char, r: Term) -> Term
    decreases t,
{
    match t {
        Term::Variable(v) => if v == name {
            r
        } else {
            t
        },
        Term::Lambda(p, body) => if p == name {
            t
        } else {
            Term::Lambda(p, Rc::new(substitute(*body, name, r)))
        },
        Term::Application(f, a) => Term::Application(
            Rc::new(substitute(*f, name, r)),
            Rc::new(substitute(*a, name, r)),
        ),
    }
}

/// Replaces every free occurrence of `Variable(name)` in `t` with
/// `argument`, sharing untouched subtrees instead of copying them.
pub fn replace_parameter(t: &Rc<Term>, argument: &Rc<Term>, name: char) -> (r: Rc<Term>)
    ensures
        *r == substitute(**t, name, **argument),
    decreases **t,
{
    match &**t {
        Term::Variable(v) => {
            if *v == name {
                share(argument)
            } else {
                share(t)
            }
        },
        Term::Lambda(parameter, body) => {
            if *parameter != name {
                Rc::new(Term::Lambda(*parameter, replace_parameter(body, argument, name)))
            } else {
                share(t)
            }
        },
        Term::Application(caller, inner_argument) => {
            Rc::new(Term::Application(
                replace_parameter(caller, argument, name),
                replace_parameter(inner_argument, argument, name),
            ))
        },
    }
}

/// Substituting for a name that occurs nowhere free in `t` leaves `t`
/// unchanged, whatever the replacement is.
pub proof fn lemma_substitute_absent(t: &Term, name: char, r: &Term)
    requires
        !occurs_free(*t, name),
    ensures
        substitute(*t, name, *r) == *t,
    decreases *t,
{
    match t {
        Term::Variable(_) => {},
        Term::Lambda(p, body) => {
            if *p != name {
                lemma_substitute_absent(&**body, name, r);
            }
        },
        Term::Application(f, a) => {
            lemma_substitute_absent(&**f, name, r);
            lemma_substitute_absent(&**a, name, r);
        },
    }
}

/// Substituting into a variable whose name is exactly the one replaced
/// yields the replacement itself, whatever it is.
pub proof fn lemma_substitute_exact_match(name: char, r: Term)
    ensures
        substitute(Term::Variable(name), name, r) == r,
{
}

/// An abstraction whose parameter is the substituted name shadows it: the
/// abstraction comes back unchanged, whatever the replacement is.
pub proof fn lemma_substitute_shadowed(param: char, body: Rc<Term>, r: Term)
    ensures
        substitute(Term::Lambda(param, body), param, r) == Term::Lambda(param, body),
{
}

} // verus!
