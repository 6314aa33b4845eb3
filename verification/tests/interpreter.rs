use expr_eval::ast::{Add, Ast, Id, If, Let, Number};
use expr_eval::env::Environment;
use expr_eval::eval::interpret;

fn num(v: i32) -> Box<Ast> {
    Box::new(Ast::Number(Number::new(v)))
}

fn id(name: &str) -> Box<Ast> {
    Box::new(Ast::Id(Id::new(name.to_string())))
}

fn add(l: Box<Ast>, r: Box<Ast>) -> Box<Ast> {
    Box::new(Ast::Add(Add::new(l, r)))
}

fn if_(c: Box<Ast>, t: Box<Ast>, e: Box<Ast>) -> Box<Ast> {
    Box::new(Ast::If(If::new(c, t, e)))
}

fn let_(p: &str, v: Box<Ast>, n: Box<Ast>) -> Box<Ast> {
    Box::new(Ast::Let(Let::new(p.to_string(), v, n)))
}

#[test]
fn number_evaluates_to_itself() {
    let mut env = Environment::new();
    assert_eq!(interpret(&mut env, &num(42)), 42);
    assert_eq!(interpret(&mut env, &num(0)), 0);
    assert_eq!(interpret(&mut env, &num(-7)), -7);
    // Independent of the environment's contents.
    let mut env = Environment::new();
    env.insert("x".to_string(), 99);
    assert_eq!(interpret(&mut env, &num(42)), 42);
}

#[test]
fn missing_id_defaults_to_zero() {
    let mut env = Environment::new();
    assert_eq!(interpret(&mut env, &id("nowhere")), 0);
}

#[test]
fn bound_id_reads_environment() {
    let mut env = Environment::new();
    env.insert("a".to_string(), 5);
    assert_eq!(interpret(&mut env, &id("a")), 5);
}

#[test]
fn add_sums_let_free_operands() {
    let mut env = Environment::new();
    assert_eq!(interpret(&mut env, &add(num(2), num(3))), 5);
    assert_eq!(interpret(&mut env, &add(num(-2), num(3))), 1);
    // An unbound name contributes its default of 0.
    assert_eq!(interpret(&mut env, &add(id("absent"), num(4))), 4);
}

#[test]
fn add_wraps_at_the_i32_boundary() {
    let mut env = Environment::new();
    assert_eq!(interpret(&mut env, &add(num(i32::MAX), num(1))), i32::MIN);
    assert_eq!(interpret(&mut env, &add(num(i32::MIN), num(-1))), i32::MAX);
}

#[test]
fn add_evaluates_left_before_right() {
    // The left operand binds a name as a side effect; the right operand
    // reads it.
    let mut env = Environment::new();
    let tree = add(let_("x", num(1), num(0)), id("x"));
    assert_eq!(interpret(&mut env, &tree), 1);
}

#[test]
fn if_takes_then_on_nonzero_and_else_on_zero() {
    let mut env = Environment::new();
    assert_eq!(interpret(&mut env, &if_(num(1), num(10), num(20))), 10);
    assert_eq!(interpret(&mut env, &if_(num(0), num(10), num(20))), 20);
    // Any nonzero condition counts as true.
    assert_eq!(interpret(&mut env, &if_(num(-3), num(10), num(20))), 10);
}

#[test]
fn if_untaken_branch_has_no_effect() {
    // The untaken branch would bind a sentinel name; after evaluation the
    // sentinel must not be bound.
    let mut env = Environment::new();
    let tree = if_(num(1), num(1), let_("sentinel", num(9), num(0)));
    assert_eq!(interpret(&mut env, &tree), 1);
    assert_eq!(env.get(&"sentinel".to_string()), None);

    let mut env = Environment::new();
    let tree = if_(num(0), let_("sentinel", num(9), num(0)), num(1));
    assert_eq!(interpret(&mut env, &tree), 1);
    assert_eq!(env.get(&"sentinel".to_string()), None);
}

#[test]
fn let_binding_persists_after_its_subtree() {
    let mut env = Environment::new();
    let tree = let_("x", num(7), num(99));
    assert_eq!(interpret(&mut env, &tree), 99);
    assert_eq!(env.get(&"x".to_string()), Some(7));
}

#[test]
fn let_rebind_last_write_wins() {
    let mut env = Environment::new();
    let tree = let_("x", num(1), let_("x", num(2), id("x")));
    assert_eq!(interpret(&mut env, &tree), 2);
    assert_eq!(env.get(&"x".to_string()), Some(2));
}

#[test]
fn sum_test_scenario() {
    // let a = 2 in let b = 3 in a + b
    let mut env = Environment::new();
    let tree = let_("a", num(2), let_("b", num(3), add(id("a"), id("b"))));
    assert_eq!(interpret(&mut env, &tree), 5);
    assert_eq!(env.get(&"a".to_string()), Some(2));
    assert_eq!(env.get(&"b".to_string()), Some(3));
}

#[test]
fn if_test_scenario() {
    // if 1 then 1 else 0
    let mut env = Environment::new();
    let tree = if_(num(1), num(1), num(0));
    assert_eq!(interpret(&mut env, &tree), 1);
    let tree = if_(num(0), num(1), num(0));
    assert_eq!(interpret(&mut env, &tree), 0);
}

#[test]
fn shared_environment_quirk_scenario() {
    // The left operand rebinds `a` permanently before the right operand
    // reads it: there is no scope-exit restoration.
    let mut env = Environment::new();
    env.insert("a".to_string(), 5);
    let tree = add(let_("a", num(10), id("a")), id("a"));
    assert_eq!(interpret(&mut env, &tree), 20);
    assert_eq!(env.get(&"a".to_string()), Some(10));
}

#[test]
fn reevaluation_is_deterministic() {
    let tree = let_("a", num(2), let_("b", num(3), add(id("a"), id("b"))));
    let mut first = Environment::new();
    let r1 = interpret(&mut first, &tree);
    let mut second = Environment::new();
    let r2 = interpret(&mut second, &tree);
    assert_eq!(r1, r2);
    assert_eq!(first.get(&"a".to_string()), second.get(&"a".to_string()));
    assert_eq!(first.get(&"b".to_string()), second.get(&"b".to_string()));
}

#[test]
fn environment_insert_and_get() {
    let mut env = Environment::new();
    assert_eq!(env.get(&"k".to_string()), None);
    env.insert("k".to_string(), 1);
    assert_eq!(env.get(&"k".to_string()), Some(1));
    env.insert("k".to_string(), -2);
    assert_eq!(env.get(&"k".to_string()), Some(-2));
    env.insert("other".to_string(), 8);
    assert_eq!(env.get(&"k".to_string()), Some(-2));
    assert_eq!(env.get(&"other".to_string()), Some(8));
}
