//! The term model: a recursive sum type for untyped lambda-calculus terms.
//!
//! A term is immutable once built and subterms are shared by reference
//! counting, so an operation that leaves a subtree untouched can hand the
//! same subtree back instead of copying it.

use std::rc::Rc;
use vstd::prelude::*;

verus! {

/// A lambda-calculus term: a variable, an abstraction, or an application.
#[derive(Debug, PartialEq)]
pub enum Term {
    /// A variable with a single-character name.
    Variable(char),
    /// An abstraction: a parameter name binding its occurrences in the body.
    Lambda(char, Rc<Term>),
    /// An application of a function-position term to an argument-position term.
    Application(Rc<Term>, Rc<Term>),
}

/// Whether `name` occurs free in `t`: as a `Variable(name)` leaf not
/// enclosed by a `Lambda` whose parameter is also `name`.
pub open spec fn occurs_free(t: Term, name: char) -> bool
    decreases t,
{
    match t {
        Term::Variable(v) => v == name,
        Term::Lambda(p, body) => p != name && occurs_free(*body, name),
        Term::Application(f, a) => occurs_free(*f, name) || occurs_free(*a, name),
    }
}

/// Builds a variable term.
pub fn variable(name: char) -> (t: Rc<Term>)
    ensures
        *t == Term::Variable(name),
{
    Rc::new(Term::Variable(name))
}

/// Builds an abstraction term from a parameter name and a body.
pub fn lambda(parameter: char, body: Rc<Term>) -> (t: Rc<Term>)
    ensures
        *t == Term::Lambda(parameter, body),
{
    Rc::new(Term::Lambda(parameter, body))
}

/// Builds an application term from a function and an argument.
pub fn application(func: Rc<Term>, arg: Rc<Term>) -> (t: Rc<Term>)
    ensures
        *t == Term::Application(func, arg),
{
    Rc::new(Term::Application(func, arg))
}

/// Relies on `Rc::clone`: the returned handle refers to the same term,
/// nothing is copied.
#[verifier::external_body]
pub(crate) fn share(t: &Rc<Term>) -> (r: Rc<Term>)
    ensures
        *r == **t,
{
    Rc::clone(t)
}

} // verus!
