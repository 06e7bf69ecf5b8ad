//! Compile-time diagnostics.
//!
//! Every stage of the compiler fails fast with the first diagnostic it meets;
//! no partial output is ever emitted. Each diagnostic carries the offending
//! construct so that a caller can point at the source position.

use vstd::prelude::*;
use vstd::string::StringExecFns;
use crate::tokens::{Tok, TokV, spec_tok_text};

verus! {

/// A compile-time diagnostic.
#[derive(Debug)]
pub enum Diagnostic {
    /// An unknown configuration keyword, or a wrong shape for `derive(...)`.
    /// Carries the offending token.
    MalformedConfigOption { at: Tok },
    /// A destructuring parameter pattern carries a recognized field
    /// annotation. Carries the pattern's text.
    UnsupportedParameterPattern { pat: String },
    /// An annotation argument is not a valid instance of its expected
    /// grammar. Carries the annotation name and the parameter name.
    InvalidAttributeShape { attr: String, param: String },
    /// A `signal` or `resource` annotation was given with no argument.
    /// Carries the annotation name and the parameter name.
    MissingRequiredAttributeArgument { attr: String, param: String },
}

/// The mathematical model of a diagnostic.
pub enum DiagV {
    MalformedConfigOption { at: TokV },
    UnsupportedParameterPattern { pat: Seq<char> },
    InvalidAttributeShape { attr: Seq<char>, param: Seq<char> },
    MissingRequiredAttributeArgument { attr: Seq<char>, param: Seq<char> },
}

impl DeepView for Diagnostic {
    type V = DiagV;

    open spec fn deep_view(&self) -> DiagV {
        match self {
            Diagnostic::MalformedConfigOption { at } => DiagV::MalformedConfigOption {
                at: at.deep_view(),
            },
            Diagnostic::UnsupportedParameterPattern { pat } => DiagV::UnsupportedParameterPattern {
                pat: pat@,
            },
            Diagnostic::InvalidAttributeShape { attr, param } => DiagV::InvalidAttributeShape {
                attr: attr@,
                param: param@,
            },
            Diagnostic::MissingRequiredAttributeArgument {
                attr,
                param,
            } => DiagV::MissingRequiredAttributeArgument { attr: attr@, param: param@ },
        }
    }
}

/// The human-readable text of a diagnostic.
pub open spec fn spec_message(d: DiagV) -> Seq<char> {
    match d {
        DiagV::MalformedConfigOption { at } => "unknown or malformed configuration option: "@
            + spec_tok_text(at),
        DiagV::UnsupportedParameterPattern { pat } => "unsupported parameter pattern: "@ + pat
            + " (only simple identifiers may carry a field annotation)"@,
        DiagV::InvalidAttributeShape { attr, param } => "invalid "@ + attr
            + " attribute on parameter "@ + param,
        DiagV::MissingRequiredAttributeArgument { attr, param } => "missing required argument of "@
            + attr + " attribute on parameter "@ + param,
    }
}

impl Diagnostic {
    /// Renders the diagnostic as one line of text.
    pub fn message(&self) -> (r: String)
        ensures
            r@ == spec_message(self.deep_view()),
    {
        let mut out = String::new();
        match self {
            Diagnostic::MalformedConfigOption { at } => {
                out.append("unknown or malformed configuration option: ");
                match at {
                    Tok::Ident(s) => out.append(s.as_str()),
                    Tok::Lit(s) => out.append(s.as_str()),
                    Tok::PathSep => out.append("::"),
                    Tok::Comma => out.append(", "),
                    Tok::LParen => out.append("("),
                    Tok::RParen => out.append(")"),
                    Tok::Punct(s) => out.append(s.as_str()),
                }
            },
            Diagnostic::UnsupportedParameterPattern { pat } => {
                out.append("unsupported parameter pattern: ");
                out.append(pat.as_str());
                out.append(" (only simple identifiers may carry a field annotation)");
            },
            Diagnostic::InvalidAttributeShape { attr, param } => {
                out.append("invalid ");
                out.append(attr.as_str());
                out.append(" attribute on parameter ");
                out.append(param.as_str());
            },
            Diagnostic::MissingRequiredAttributeArgument { attr, param } => {
                out.append("missing required argument of ");
                out.append(attr.as_str());
                out.append(" attribute on parameter ");
                out.append(param.as_str());
            },
        }
        out
    }
}

} // verus!
