//! The argument grammar of per-parameter annotations.
//!
//! An annotation argument is, by this compiler's explicit grammar, one of:
//! a literal, a path `ident (:: ident)*`, or a call `path ( arg , ... )`
//! whose arguments are themselves literals or paths (a trailing comma is
//! allowed). The recognizer is a token-at-a-time state machine, specified by
//! the same machine at the mathematical level.

use vstd::prelude::*;
use crate::tokens::{Tok, TokV};

verus! {

/// States of the expression grammar.
#[derive(Clone, Copy)]
pub enum ExprState {
    /// Start of input.
    Start,
    /// Inside the head path, after an identifier (an accepting state).
    PathId,
    /// Inside the head path, after `::`.
    PathSep2,
    /// A top-level literal was read (an accepting state).
    LitEnd,
    /// Inside a call, at an argument boundary (after `(` or `,`).
    ArgBound,
    /// Inside a call argument path, after an identifier.
    ArgPathId,
    /// Inside a call argument path, after `::`.
    ArgPathSep,
    /// Inside a call, after a literal argument.
    ArgLit,
    /// After the closing `)` of a call (an accepting state).
    CallEnd,
    /// The input left the grammar.
    Rejected,
}

pub open spec fn expr_step(s: ExprState, t: TokV) -> ExprState {
    match s {
        ExprState::Start => match t {
            TokV::Ident(_) => ExprState::PathId,
            TokV::Lit(_) => ExprState::LitEnd,
            _ => ExprState::Rejected,
        },
        ExprState::PathId => match t {
            TokV::PathSep => ExprState::PathSep2,
            TokV::LParen => ExprState::ArgBound,
            _ => ExprState::Rejected,
        },
        ExprState::PathSep2 => match t {
            TokV::Ident(_) => ExprState::PathId,
            _ => ExprState::Rejected,
        },
        ExprState::LitEnd => ExprState::Rejected,
        ExprState::ArgBound => match t {
            TokV::RParen => ExprState::CallEnd,
            TokV::Ident(_) => ExprState::ArgPathId,
            TokV::Lit(_) => ExprState::ArgLit,
            _ => ExprState::Rejected,
        },
        ExprState::ArgPathId => match t {
            TokV::PathSep => ExprState::ArgPathSep,
            TokV::Comma => ExprState::ArgBound,
            TokV::RParen => ExprState::CallEnd,
            _ => ExprState::Rejected,
        },
        ExprState::ArgPathSep => match t {
            TokV::Ident(_) => ExprState::ArgPathId,
            _ => ExprState::Rejected,
        },
        ExprState::ArgLit => match t {
            TokV::Comma => ExprState::ArgBound,
            TokV::RParen => ExprState::CallEnd,
            _ => ExprState::Rejected,
        },
        ExprState::CallEnd => ExprState::Rejected,
        ExprState::Rejected => ExprState::Rejected,
    }
}

pub open spec fn expr_run(ts: Seq<TokV>) -> ExprState
    decreases ts.len(),
{
    if ts.len() == 0 {
        ExprState::Start
    } else {
        expr_step(expr_run(ts.drop_last()), ts.last())
    }
}

/// A non-empty token sequence forms an expression of the grammar.
pub open spec fn is_expr(ts: Seq<TokV>) -> bool {
    expr_run(ts) is PathId || expr_run(ts) is LitEnd || expr_run(ts) is CallEnd
}

/// A non-empty token sequence forms a bare path `ident (:: ident)*`.
pub open spec fn is_path(ts: Seq<TokV>) -> bool {
    expr_run(ts) is PathId
}

/// A token sequence is exactly one identifier.
pub open spec fn is_single_ident(ts: Seq<TokV>) -> bool {
    ts.len() == 1 && ts[0] is Ident
}

fn expr_step_exec(s: ExprState, t: &Tok) -> (r: ExprState)
    ensures
        r == expr_step(s, t.deep_view()),
{
    match s {
        ExprState::Start => match t {
            Tok::Ident(_) => ExprState::PathId,
            Tok::Lit(_) => ExprState::LitEnd,
            _ => ExprState::Rejected,
        },
        ExprState::PathId => match t {
            Tok::PathSep => ExprState::PathSep2,
            Tok::LParen => ExprState::ArgBound,
            _ => ExprState::Rejected,
        },
        ExprState::PathSep2 => match t {
            Tok::Ident(_) => ExprState::PathId,
            _ => ExprState::Rejected,
        },
        ExprState::LitEnd => ExprState::Rejected,
        ExprState::ArgBound => match t {
            Tok::RParen => ExprState::CallEnd,
            Tok::Ident(_) => ExprState::ArgPathId,
            Tok::Lit(_) => ExprState::ArgLit,
            _ => ExprState::Rejected,
        },
        ExprState::ArgPathId => match t {
            Tok::PathSep => ExprState::ArgPathSep,
            Tok::Comma => ExprState::ArgBound,
            Tok::RParen => ExprState::CallEnd,
            _ => ExprState::Rejected,
        },
        ExprState::ArgPathSep => match t {
            Tok::Ident(_) => ExprState::ArgPathId,
            _ => ExprState::Rejected,
        },
        ExprState::ArgLit => match t {
            Tok::Comma => ExprState::ArgBound,
            Tok::RParen => ExprState::CallEnd,
            _ => ExprState::Rejected,
        },
        ExprState::CallEnd => ExprState::Rejected,
        ExprState::Rejected => ExprState::Rejected,
    }
}

/// Runs the expression machine over a token sequence.
pub fn run_expr_machine(ts: &Vec<Tok>) -> (r: ExprState)
    ensures
        r == expr_run(ts.deep_view()),
{
    let ghost tv = ts.deep_view();
    let mut st = ExprState::Start;
    let mut i: usize = 0;
    while i < ts.len()
        invariant
            i <= ts.len(),
            tv == ts.deep_view(),
            st == expr_run(tv.take(i as int)),
        decreases ts.len() - i,
    {
        proof {
            assert(tv.take(i + 1).drop_last() =~= tv.take(i as int));
            assert(tv.take(i + 1).last() == tv[i as int]);
        }
        st = expr_step_exec(st, &ts[i]);
        i = i + 1;
    }
    proof {
        assert(tv.take(ts.len() as int) =~= tv);
    }
    st
}

/// Checks the expression grammar.
pub fn check_expr(ts: &Vec<Tok>) -> (r: bool)
    ensures
        r == is_expr(ts.deep_view()),
{
    match run_expr_machine(ts) {
        ExprState::PathId => true,
        ExprState::LitEnd => true,
        ExprState::CallEnd => true,
        _ => false,
    }
}

/// Checks the bare-path grammar.
pub fn check_path(ts: &Vec<Tok>) -> (r: bool)
    ensures
        r == is_path(ts.deep_view()),
{
    match run_expr_machine(ts) {
        ExprState::PathId => true,
        _ => false,
    }
}

} // verus!
