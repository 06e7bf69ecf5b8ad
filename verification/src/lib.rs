//! A declarative component-definition compiler.
//!
//! The library takes a lightweight, attribute-annotated description of a UI
//! component — a configuration token list plus a decorated function
//! declaration — and produces a complete component implementation: a data
//! structure, a constructor, state-binding glue, an optional composition
//! implementation, and a render-dispatch implementation.
//!
//! The pipeline runs in four stages: the attribute parser ([`config`]), the
//! signature validator ([`validate`]), the parameter classifier ([`fields`])
//! and the code generator ([`codegen`]). Each stage short-circuits on the
//! first error; errors never propagate past a stage as generated code.

pub mod codegen;
pub mod config;
pub mod diag;
pub mod expr;
pub mod extensions;
pub mod fields;
pub mod ir;
pub mod laws;
pub mod theme;
pub mod tokens;
pub mod validate;
pub mod widgets;
pub mod window;
