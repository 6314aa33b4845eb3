//! The evaluator: one recursive walk that reduces a tree plus an environment
//! to an `i32`, mutating the environment only at `Let` nodes.
//!
//! The meaning of a tree is fixed by the specification function [`eval`],
//! which returns both the value of the tree and the environment left behind.
//! [`interpret`] is the executable evaluator, proved to implement `eval`.

use vstd::prelude::*;
use crate::ast::Ast;
use crate::env::Environment;

verus! {

/// The value of `ast` under `env`, paired with the environment after the
/// walk.
///
/// - `Number(v)` is `v`; the environment is untouched.
/// - `Id(name)` is the value bound to `name`, or 0 if `name` is unbound;
///   the environment is untouched.
/// - `Add(l, r)` evaluates `l` first, then `r` in the environment `l` left
///   behind, and wraps the sum at the `i32` boundary.
/// - `If(c, t, e)` evaluates `c`, then exactly one branch, chosen by
///   `c != 0`, in the environment `c` left behind.
/// - `Let(p, v, n)` evaluates `v`, binds `p` to the result (last write
///   wins), and evaluates `n` in the mutated environment.  The binding is
///   never undone afterwards.
pub open spec fn eval(env: Map<Seq<char>, i32>, ast: Ast) -> (i32, Map<Seq<char>, i32>)
    decreases ast,
{
    match ast {
        Ast::Let(l) => {
            let (v, env1) = eval(env, *l.value);
            eval(env1.insert(l.param@, v), *l.next)
        },
        Ast::Number(n) => (n.value, env),
        Ast::Add(a) => {
            let (vl, env1) = eval(env, *a.left);
            let (vr, env2) = eval(env1, *a.right);
            (vstd::wrapping::i32_specs::wrapping_add(vl, vr), env2)
        },
        Ast::If(i) => {
            let (c, env1) = eval(env, *i.condition);
            if c != 0 {
                eval(env1, *i.then_branch)
            } else {
                eval(env1, *i.else_branch)
            }
        },
        Ast::Id(id) => (
            if env.dom().contains(id.value@) {
                env[id.value@]
            } else {
                0i32
            },
            env,
        ),
    }
}

/// Evaluates `ast`, reading and mutating `environment` in place, and returns
/// the value of the tree.  The result and the final environment are exactly
/// those of [`eval`] on the starting environment.
pub fn interpret(environment: &mut Environment, ast: &Ast) -> (r: i32)
    ensures
        r == eval(old(environment)@, *ast).0,
        final(environment)@ == eval(old(environment)@, *ast).1,
    decreases *ast,
{
    match ast {
        Ast::Let(l) => {
            let result = interpret(environment, &l.value);
            environment.insert(l.param.clone(), result);
            interpret(environment, &l.next)
        },
        Ast::Number(n) => n.value,
        Ast::Add(a) => {
            let vl = interpret(environment, &a.left);
            let vr = interpret(environment, &a.right);
            vl.wrapping_add(vr)
        },
        Ast::If(i) => {
            if interpret(environment, &i.condition) != 0 {
                interpret(environment, &i.then_branch)
            } else {
                interpret(environment, &i.else_branch)
            }
        },
        Ast::Id(id) => {
            match environment.get(&id.value) {
                Some(v) => v,
                None => 0,
            }
        },
    }
}

} // verus!
