use lambda_calc::reduce::{call_by_name, call_by_value};
use lambda_calc::render::pretty_print;
use lambda_calc::term::{application, lambda, variable, Term};
use std::rc::Rc;

#[test]
fn beta_reduction_identity_application() {
    // (λ(y.y) x) reduces in one call-by-value step to x.
    let t = application(lambda('y', variable('y')), variable('x'));
    let r = call_by_value(&t);
    assert_eq!(*r, Term::Variable('x'));
}

#[test]
fn beta_reduction_constant_function() {
    // (λ(y.k) x): the bound name does not occur, so the body comes back.
    let t = application(lambda('y', variable('k')), variable('x'));
    let r = call_by_value(&t);
    assert_eq!(*r, Term::Variable('k'));
}

#[test]
fn beta_reduction_lambda_argument() {
    // (λ(y.y) λ(z.z)): a lambda argument counts as fully evaluated.
    let t = application(lambda('y', variable('y')), lambda('z', variable('z')));
    let r = call_by_value(&t);
    assert_eq!(pretty_print(&r), "λ(z.z)");
}

#[test]
fn variable_is_unchanged_by_value_step() {
    let t = variable('x');
    let r = call_by_value(&t);
    assert_eq!(r, t);
    assert!(Rc::ptr_eq(&r, &t));
}

#[test]
fn lambda_is_unchanged_by_value_step() {
    let t = lambda('x', variable('x'));
    let r = call_by_value(&t);
    assert_eq!(r, t);
    assert!(Rc::ptr_eq(&r, &t));
}

#[test]
fn stuck_application_is_unchanged() {
    // (f x): the function position is not a lambda, so no step applies.
    let t = application(variable('f'), variable('x'));
    let r = call_by_value(&t);
    assert_eq!(r, t);
    assert!(Rc::ptr_eq(&r, &t));
}

#[test]
fn value_step_reduces_application_argument_first() {
    // (f (λ(y.y) x)): the argument is an application, so it is driven one
    // call-by-name step before anything else happens.
    let t = application(variable('f'), application(lambda('y', variable('y')), variable('x')));
    let r = call_by_value(&t);
    assert_eq!(pretty_print(&r), "(f x)");
}

#[test]
fn name_step_substitutes_unevaluated_argument() {
    // (λ(y.y) (a b)): call-by-name passes the argument in as it stands.
    let arg = application(variable('a'), variable('b'));
    let t = application(lambda('y', variable('y')), Rc::clone(&arg));
    let r = call_by_name(&t);
    assert_eq!(r, arg);
}

#[test]
fn name_step_reduces_function_position() {
    // ((λ(x.x) u) v): the function position reduces one step, the
    // argument is untouched.
    let t = application(application(lambda('x', variable('x')), variable('u')), variable('v'));
    let r = call_by_name(&t);
    assert_eq!(pretty_print(&r), "(u v)");
}

#[test]
fn variable_is_unchanged_by_name_step() {
    let t = variable('x');
    let r = call_by_name(&t);
    assert_eq!(r, t);
    assert!(Rc::ptr_eq(&r, &t));
}

#[test]
fn stuck_application_is_unchanged_by_name_step() {
    let t = application(variable('f'), variable('x'));
    let r = call_by_name(&t);
    assert_eq!(r, t);
    assert_eq!(pretty_print(&r), "(f x)");
}

#[test]
fn value_step_duplicates_shared_argument() {
    // (λ(y.(y y)) v): substitution may share one argument instance twice.
    let body = application(variable('y'), variable('y'));
    let t = application(lambda('y', body), variable('v'));
    let r = call_by_value(&t);
    assert_eq!(pretty_print(&r), "(v v)");
}
