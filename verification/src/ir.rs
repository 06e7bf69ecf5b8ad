//! The intermediate representation of a generated component.
//!
//! The code generator first builds this explicit definition record — fields,
//! constructor, shared-state statements, render prologue, trait choices —
//! and a separate back-end prints it as source text. The record is the
//! structural contract with the rendering runtime.

use vstd::prelude::*;
use crate::tokens::{Tok, TokV};

verus! {

/// A name/type pair: a struct field, a constructor parameter, or a render
/// prologue binding.
pub struct NamedTy {
    pub name: String,
    pub ty: String,
}

/// The model of a name/type pair.
#[verifier::ext_equal]
pub struct NamedTyV {
    pub name: Seq<char>,
    pub ty: Seq<char>,
}

impl DeepView for NamedTy {
    type V = NamedTyV;

    open spec fn deep_view(&self) -> NamedTyV {
        NamedTyV { name: self.name@, ty: self.ty@ }
    }
}

/// How the constructor initializes one struct field.
pub enum InitValue {
    /// Forward the constructor argument of the same name.
    Forward,
    /// Evaluate the stored default expression.
    Expr(Vec<Tok>),
}

/// The model of an initializer value.
#[verifier::ext_equal]
pub enum InitValueV {
    Forward,
    Expr(Seq<TokV>),
}

impl DeepView for InitValue {
    type V = InitValueV;

    open spec fn deep_view(&self) -> InitValueV {
        match self {
            InitValue::Forward => InitValueV::Forward,
            InitValue::Expr(ts) => InitValueV::Expr(ts.deep_view()),
        }
    }
}

/// One field initializer of the generated constructor.
pub struct FieldInit {
    pub name: String,
    pub value: InitValue,
}

/// The model of a field initializer.
#[verifier::ext_equal]
pub struct FieldInitV {
    pub name: Seq<char>,
    pub value: InitValueV,
}

impl DeepView for FieldInit {
    type V = FieldInitV;

    open spec fn deep_view(&self) -> FieldInitV {
        FieldInitV { name: self.name@, value: self.value.deep_view() }
    }
}

/// One statement of the generated shared-state initialization routine.
pub enum GlobalStmt {
    /// Install a value expression into shared state, keyed by the type.
    SetValue { ty: String, value: Vec<Tok> },
    /// Invoke a loader with the runtime context and install the result,
    /// keyed by the type.
    SetLoaded { ty: String, loader: Vec<Tok> },
}

/// The model of a shared-state statement.
#[verifier::ext_equal]
pub enum GlobalStmtV {
    SetValue { ty: Seq<char>, value: Seq<TokV> },
    SetLoaded { ty: Seq<char>, loader: Seq<TokV> },
}

impl DeepView for GlobalStmt {
    type V = GlobalStmtV;

    open spec fn deep_view(&self) -> GlobalStmtV {
        match self {
            GlobalStmt::SetValue { ty, value } => GlobalStmtV::SetValue {
                ty: ty@,
                value: value.deep_view(),
            },
            GlobalStmt::SetLoaded { ty, loader } => GlobalStmtV::SetLoaded {
                ty: ty@,
                loader: loader.deep_view(),
            },
        }
    }
}

/// The complete definition of one generated component.
pub struct ComponentDef {
    /// The component's (and generated struct's) name.
    pub name: String,
    /// The decorated function's body text, reused as the render body.
    pub body: String,
    /// Derive the element-conversion capability.
    pub element_derive: bool,
    /// Extra trait paths from the configuration, verbatim.
    pub extra_derives: Option<Vec<Tok>>,
    /// Public struct fields, one per property, in declaration order.
    pub struct_fields: Vec<NamedTy>,
    /// Append the child-collection field and the composition
    /// implementation.
    pub has_children: bool,
    /// Constructor parameters: properties without defaults, in order.
    pub ctor_params: Vec<NamedTy>,
    /// Constructor field initializers, one per property, in order.
    pub inits: Vec<FieldInit>,
    /// Shared-state installation statements, in declaration order.
    pub globals: Vec<GlobalStmt>,
    /// Render prologue bindings, in declaration order.
    pub prologue: Vec<NamedTy>,
    /// Select the by-value, stateless render contract.
    pub render_once: bool,
}

/// The model of a component definition.
#[verifier::ext_equal]
pub struct ComponentV {
    pub name: Seq<char>,
    pub body: Seq<char>,
    pub element_derive: bool,
    pub extra_derives: Option<Seq<TokV>>,
    pub struct_fields: Seq<NamedTyV>,
    pub has_children: bool,
    pub ctor_params: Seq<NamedTyV>,
    pub inits: Seq<FieldInitV>,
    pub globals: Seq<GlobalStmtV>,
    pub prologue: Seq<NamedTyV>,
    pub render_once: bool,
}

impl DeepView for ComponentDef {
    type V = ComponentV;

    open spec fn deep_view(&self) -> ComponentV {
        ComponentV {
            name: self.name@,
            body: self.body@,
            element_derive: self.element_derive,
            extra_derives: match self.extra_derives {
                Some(ts) => Some(ts.deep_view()),
                None => None,
            },
            struct_fields: self.struct_fields.deep_view(),
            has_children: self.has_children,
            ctor_params: self.ctor_params.deep_view(),
            inits: self.inits.deep_view(),
            globals: self.globals.deep_view(),
            prologue: self.prologue.deep_view(),
            render_once: self.render_once,
        }
    }
}

} // verus!
