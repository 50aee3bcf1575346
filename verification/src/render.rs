//! The printer: renders a term to its canonical textual form.
//!
//! The grammar is fixed: a variable renders as its one-character name, an
//! abstraction as `λ(<parameter>.<body>)`, an application as
//! `(<function> <argument>)`. Rendering appends to a single growable
//! buffer during one traversal, so the cost is linear in the length of the
//! output.

use crate::term::Term;
use std::rc::Rc;
use vstd::prelude::*;

verus! {

/// The canonical rendering of `t`, character for character.
pub open spec fn render(t: Term) -> Seq<char>
    decreases t,
{
    match t {
        Term::Variable(v) => seq![v],
        Term::Lambda(p, body) => seq!['λ', '(', p, '.'] + render(*body) + seq![')'],
        Term::Application(f, a) => seq!['('] + render(*f) + seq![' '] + render(*a) + seq![')'],
    }
}

/// Relies on `String::push`: appends the given character to the end of
/// the string.
#[verifier::external_body]
fn push_char(out: &mut String, c: char)
    ensures
        final(out)@ == old(out)@.push(c),
{
    out.push(c);
}

/// Appends the canonical rendering of `t` to `out`.
fn render_into(t: &Rc<Term>, out: &mut String)
    ensures
        final(out)@ == old(out)@ + render(**t),
    decreases **t,
{
    match &**t {
        Term::Variable(v) => {
            push_char(out, *v);
        },
        Term::Lambda(parameter, body) => {
            push_char(out, 'λ');
            push_char(out, '(');
            push_char(out, *parameter);
            push_char(out, '.');
            render_into(body, out);
            push_char(out, ')');
        },
        Term::Application(caller, argument) => {
            push_char(out, '(');
            render_into(caller, out);
            push_char(out, ' ');
            render_into(argument, out);
            push_char(out, ')');
        },
    }
}

/// Renders `t` to a freshly built string holding exactly its canonical
/// form.
pub fn pretty_print(t: &Rc<Term>) -> (s: String)
    ensures
        s@ == render(**t),
{
    let mut s = String::new();
    render_into(t, &mut s);
    s
}

} // verus!
