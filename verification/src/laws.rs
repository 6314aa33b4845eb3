//! General properties of the evaluator, stated over [`eval`] and proved once
//! and for all.

use vstd::prelude::*;
use crate::ast::{Add, Ast, Id, If, Let, Number};
use crate::eval::eval;

verus! {

/// Holds when no node of `ast` is a `Let`: such a tree cannot mutate the
/// environment.
pub open spec fn let_free(ast: Ast) -> bool
    decreases ast,
{
    match ast {
        Ast::Let(_) => false,
        Ast::Number(_) => true,
        Ast::Add(a) => let_free(*a.left) && let_free(*a.right),
        Ast::If(i) => let_free(*i.condition) && let_free(*i.then_branch) && let_free(
            *i.else_branch,
        ),
        Ast::Id(_) => true,
    }
}

/// Holds when some `Let` node of `ast` binds the name `name`: only such a
/// tree can change what `name` is bound to.
pub open spec fn binds_name(ast: Ast, name: Seq<char>) -> bool
    decreases ast,
{
    match ast {
        Ast::Let(l) => l.param@ == name || binds_name(*l.value, name) || binds_name(
            *l.next,
            name,
        ),
        Ast::Number(_) => false,
        Ast::Add(a) => binds_name(*a.left, name) || binds_name(*a.right, name),
        Ast::If(i) => binds_name(*i.condition, name) || binds_name(*i.then_branch, name)
            || binds_name(*i.else_branch, name),
        Ast::Id(_) => false,
    }
}

/// A literal evaluates to itself and leaves the environment untouched,
/// whatever the environment holds.
pub proof fn lemma_number(env: Map<Seq<char>, i32>, value: i32)
    ensures
        eval(env, Ast::Number(Number { value })).0 == value,
        eval(env, Ast::Number(Number { value })).1 == env,
{
}

/// A reference to a name the environment does not hold evaluates to 0, and
/// leaves the environment untouched.
pub proof fn lemma_id_absent(env: Map<Seq<char>, i32>, id: Id)
    requires
        !env.dom().contains(id.value@),
    ensures
        eval(env, Ast::Id(id)).0 == 0,
        eval(env, Ast::Id(id)).1 == env,
{
}

/// A tree with no `Let` node leaves the environment exactly as it found it.
pub proof fn lemma_let_free_preserves_env(env: Map<Seq<char>, i32>, ast: Ast)
    requires
        let_free(ast),
    ensures
        eval(env, ast).1 == env,
    decreases ast,
{
    match ast {
        Ast::Let(_) => {
        },
        Ast::Number(_) => {
        },
        Ast::Add(a) => {
            lemma_let_free_preserves_env(env, *a.left);
            lemma_let_free_preserves_env(eval(env, *a.left).1, *a.right);
        },
        Ast::If(i) => {
            lemma_let_free_preserves_env(env, *i.condition);
            let env1 = eval(env, *i.condition).1;
            lemma_let_free_preserves_env(env1, *i.then_branch);
            lemma_let_free_preserves_env(env1, *i.else_branch);
        },
        Ast::Id(_) => {
        },
    }
}

/// When neither operand holds a `Let`, a sum is the sum of the operands each
/// evaluated under the starting environment — exactly, when the sum does not
/// overflow — and the environment is left untouched.
pub proof fn lemma_add_is_sum(env: Map<Seq<char>, i32>, a: Add)
    requires
        let_free(*a.left),
        let_free(*a.right),
    ensures
        eval(env, Ast::Add(a)).0 == vstd::wrapping::i32_specs::wrapping_add(
            eval(env, *a.left).0,
            eval(env, *a.right).0,
        ),
        i32::MIN <= eval(env, *a.left).0 + eval(env, *a.right).0 <= i32::MAX ==> eval(
            env,
            Ast::Add(a),
        ).0 == eval(env, *a.left).0 + eval(env, *a.right).0,
        eval(env, Ast::Add(a)).1 == env,
{
    lemma_let_free_preserves_env(env, *a.left);
    lemma_let_free_preserves_env(env, *a.right);
}

/// A conditional evaluates exactly one branch: with a nonzero condition it
/// is the `then` branch alone, with a zero condition the `else` branch
/// alone, each under the environment the condition left behind.  The untaken
/// branch contributes neither value nor environment mutation.
pub proof fn lemma_if_one_branch(env: Map<Seq<char>, i32>, i: If)
    ensures
        eval(env, *i.condition).0 != 0 ==> eval(env, Ast::If(i)) == eval(
            eval(env, *i.condition).1,
            *i.then_branch,
        ),
        eval(env, *i.condition).0 == 0 ==> eval(env, Ast::If(i)) == eval(
            eval(env, *i.condition).1,
            *i.else_branch,
        ),
{
}

/// Evaluation never unbinds a name: every name bound before stays bound
/// after.
pub proof fn lemma_bindings_persist(env: Map<Seq<char>, i32>, ast: Ast, name: Seq<char>)
    requires
        env.dom().contains(name),
    ensures
        eval(env, ast).1.dom().contains(name),
    decreases ast,
{
    match ast {
        Ast::Let(l) => {
            lemma_bindings_persist(env, *l.value, name);
            let (v, env1) = eval(env, *l.value);
            lemma_bindings_persist(env1.insert(l.param@, v), *l.next, name);
        },
        Ast::Number(_) => {
        },
        Ast::Add(a) => {
            lemma_bindings_persist(env, *a.left, name);
            lemma_bindings_persist(eval(env, *a.left).1, *a.right, name);
        },
        Ast::If(i) => {
            lemma_bindings_persist(env, *i.condition, name);
            let env1 = eval(env, *i.condition).1;
            if eval(env, *i.condition).0 != 0 {
                lemma_bindings_persist(env1, *i.then_branch, name);
            } else {
                lemma_bindings_persist(env1, *i.else_branch, name);
            }
        },
        Ast::Id(_) => {
        },
    }
}

/// A tree in which no `Let` binds `name` leaves `name` exactly as it found
/// it: bound to the same value, or unbound.
pub proof fn lemma_unbound_name_unchanged(env: Map<Seq<char>, i32>, ast: Ast, name: Seq<char>)
    requires
        !binds_name(ast, name),
    ensures
        eval(env, ast).1.dom().contains(name) == env.dom().contains(name),
        env.dom().contains(name) ==> eval(env, ast).1[name] == env[name],
    decreases ast,
{
    match ast {
        Ast::Let(l) => {
            lemma_unbound_name_unchanged(env, *l.value, name);
            let (v, env1) = eval(env, *l.value);
            lemma_unbound_name_unchanged(env1.insert(l.param@, v), *l.next, name);
        },
        Ast::Number(_) => {
        },
        Ast::Add(a) => {
            lemma_unbound_name_unchanged(env, *a.left, name);
            lemma_unbound_name_unchanged(eval(env, *a.left).1, *a.right, name);
        },
        Ast::If(i) => {
            lemma_unbound_name_unchanged(env, *i.condition, name);
            let env1 = eval(env, *i.condition).1;
            if eval(env, *i.condition).0 != 0 {
                lemma_unbound_name_unchanged(env1, *i.then_branch, name);
            } else {
                lemma_unbound_name_unchanged(env1, *i.else_branch, name);
            }
        },
        Ast::Id(_) => {
        },
    }
}

/// A `Let` binding outlives the `Let`'s own subtree: after the whole `Let`
/// is evaluated, its parameter is still bound — and still bound to the value
/// of the `Let`'s right-hand side whenever no `Let` in `next` rebinds the
/// parameter.
pub proof fn lemma_let_binding_persists(env: Map<Seq<char>, i32>, l: Let)
    ensures
        eval(env, Ast::Let(l)).1.dom().contains(l.param@),
        !binds_name(*l.next, l.param@) ==> eval(env, Ast::Let(l)).1[l.param@] == eval(
            env,
            *l.value,
        ).0,
{
    let (v, env1) = eval(env, *l.value);
    let env2 = env1.insert(l.param@, v);
    lemma_bindings_persist(env2, *l.next, l.param@);
    if !binds_name(*l.next, l.param@) {
        lemma_unbound_name_unchanged(env2, *l.next, l.param@);
    }
}

/// Evaluation is deterministic: the same tree under the same starting
/// environment yields the same value and the same final environment, every
/// time.
pub proof fn lemma_deterministic(
    env1: Map<Seq<char>, i32>,
    env2: Map<Seq<char>, i32>,
    ast: Ast,
)
    requires
        env1 == env2,
    ensures
        eval(env1, ast) == eval(env2, ast),
{
}

} // verus!
