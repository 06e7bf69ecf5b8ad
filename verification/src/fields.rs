//! The parameter classifier: the decorated function's parameter list becomes
//! the ordered list of fields.
//!
//! Only simple identifier-pattern parameters may carry a recognized
//! annotation; a destructuring pattern with a recognized annotation is a hard
//! error, while parameters without a recognized annotation are skipped
//! whatever their pattern. The first recognized annotation in attribute order
//! determines the field kind; later annotations on the same parameter are
//! silently ignored, preserving the compiler's historical precedence rule.

use vstd::prelude::*;
use vstd::string::StringExecFns;
use crate::diag::{Diagnostic, DiagV};
use crate::expr::{check_expr, check_path, is_expr, is_path, is_single_ident};
use crate::tokens::{clone_toks_range, str_eq, Tok, TokV};

verus! {

/// The pattern of one parameter of the decorated function.
pub enum PatKind {
    /// A simple identifier pattern, carrying the identifier.
    Ident(String),
    /// Any other (destructuring) pattern, carrying its text for diagnostics.
    Other(String),
}

/// The model of a parameter pattern.
pub enum PatV {
    Ident(Seq<char>),
    Other(Seq<char>),
}

impl DeepView for PatKind {
    type V = PatV;

    open spec fn deep_view(&self) -> PatV {
        match self {
            PatKind::Ident(s) => PatV::Ident(s@),
            PatKind::Other(s) => PatV::Other(s@),
        }
    }
}

/// One annotation attached to a parameter: its name and every token that
/// follows the name, verbatim (empty for `#[name]`, a parenthesized group
/// for `#[name(...)]`).
pub struct ParamAttr {
    pub name: String,
    pub rest: Vec<Tok>,
}

/// The model of an annotation.
#[verifier::ext_equal]
pub struct AttrV {
    pub name: Seq<char>,
    pub rest: Seq<TokV>,
}

impl DeepView for ParamAttr {
    type V = AttrV;

    open spec fn deep_view(&self) -> AttrV {
        AttrV { name: self.name@, rest: self.rest.deep_view() }
    }
}

/// One parameter of the decorated function.
pub struct Param {
    pub pat: PatKind,
    pub ty: String,
    pub attrs: Vec<ParamAttr>,
}

/// The model of a parameter.
#[verifier::ext_equal]
pub struct ParamV {
    pub pat: PatV,
    pub ty: Seq<char>,
    pub attrs: Seq<AttrV>,
}

impl DeepView for Param {
    type V = ParamV;

    open spec fn deep_view(&self) -> ParamV {
        ParamV { pat: self.pat.deep_view(), ty: self.ty@, attrs: self.attrs.deep_view() }
    }
}

/// The decorated function: its name, parameters, and body text.
pub struct FnDecl {
    pub name: String,
    pub params: Vec<Param>,
    pub body: String,
}

/// The model of a function declaration.
#[verifier::ext_equal]
pub struct FnDeclV {
    pub name: Seq<char>,
    pub params: Seq<ParamV>,
    pub body: Seq<char>,
}

impl DeepView for FnDecl {
    type V = FnDeclV;

    open spec fn deep_view(&self) -> FnDeclV {
        FnDeclV { name: self.name@, params: self.params.deep_view(), body: self.body@ }
    }
}

/// The semantic role of an annotated parameter.
pub enum FieldKind {
    /// A component-owned value, with an optional default expression kept as
    /// verbatim tokens.
    Prop { default: Option<Vec<Tok>> },
    /// A named event channel; recorded, but deliberately emits nothing.
    Signal { name: String },
    /// A reference to process-wide shared state, with an optional installer
    /// value expression.
    Global { value: Option<Vec<Tok>> },
    /// A reference to shared state loaded by a named loader function.
    Resource { loader: Vec<Tok> },
}

/// The model of a field kind.
#[verifier::ext_equal]
pub enum FieldKindV {
    Prop { default: Option<Seq<TokV>> },
    Signal { name: Seq<char> },
    Global { value: Option<Seq<TokV>> },
    Resource { loader: Seq<TokV> },
}

impl DeepView for FieldKind {
    type V = FieldKindV;

    open spec fn deep_view(&self) -> FieldKindV {
        match self {
            FieldKind::Prop { default } => FieldKindV::Prop {
                default: match default {
                    Some(ts) => Some(ts.deep_view()),
                    None => None,
                },
            },
            FieldKind::Signal { name } => FieldKindV::Signal { name: name@ },
            FieldKind::Global { value } => FieldKindV::Global {
                value: match value {
                    Some(ts) => Some(ts.deep_view()),
                    None => None,
                },
            },
            FieldKind::Resource { loader } => FieldKindV::Resource { loader: loader.deep_view() },
        }
    }
}

/// One field of the component under construction.
pub struct Field {
    pub name: String,
    pub ty: String,
    pub kind: FieldKind,
}

/// The model of a field.
#[verifier::ext_equal]
pub struct FieldV {
    pub name: Seq<char>,
    pub ty: Seq<char>,
    pub kind: FieldKindV,
}

impl DeepView for Field {
    type V = FieldV;

    open spec fn deep_view(&self) -> FieldV {
        FieldV { name: self.name@, ty: self.ty@, kind: self.kind.deep_view() }
    }
}

/// The shape of an annotation's argument tokens.
pub enum ArgShape {
    /// `#[name]`: nothing follows the name.
    Bare,
    /// `#[name(...)]`: the tokens between the outer parentheses.
    Grouped(Vec<Tok>),
    /// Anything else.
    Malformed,
}

/// The model of an argument shape.
#[verifier::ext_equal]
pub enum ArgShapeV {
    Bare,
    Grouped(Seq<TokV>),
    Malformed,
}

impl DeepView for ArgShape {
    type V = ArgShapeV;

    open spec fn deep_view(&self) -> ArgShapeV {
        match self {
            ArgShape::Bare => ArgShapeV::Bare,
            ArgShape::Grouped(ts) => ArgShapeV::Grouped(ts.deep_view()),
            ArgShape::Malformed => ArgShapeV::Malformed,
        }
    }
}

/// Classifies an annotation's trailing tokens.
pub open spec fn attr_shape(rest: Seq<TokV>) -> ArgShapeV {
    if rest.len() == 0 {
        ArgShapeV::Bare
    } else if rest.len() >= 2 && rest[0] is LParen && rest.last() is RParen {
        ArgShapeV::Grouped(rest.subrange(1, rest.len() - 1))
    } else {
        ArgShapeV::Malformed
    }
}

/// Exec counterpart of [`attr_shape`].
pub fn attr_shape_exec(rest: &Vec<Tok>) -> (r: ArgShape)
    ensures
        r.deep_view() == attr_shape(rest.deep_view()),
{
    if rest.len() == 0 {
        ArgShape::Bare
    } else {
        let first_open = match &rest[0] {
            Tok::LParen => true,
            _ => false,
        };
        let last_close = match &rest[rest.len() - 1] {
            Tok::RParen => true,
            _ => false,
        };
        if rest.len() >= 2 && first_open && last_close {
            ArgShape::Grouped(clone_toks_range(rest, 1, rest.len() - 1))
        } else {
            ArgShape::Malformed
        }
    }
}

/// The annotation names this compiler recognizes.
pub open spec fn recognized(name: Seq<char>) -> bool {
    ||| name == "prop"@
    ||| name == "signal"@
    ||| name == "global"@
    ||| name == "resource"@
}

/// The first recognized annotation of a parameter, in attribute order.
pub open spec fn find_recognized(attrs: Seq<AttrV>) -> Option<AttrV>
    decreases attrs.len(),
{
    if attrs.len() == 0 {
        None
    } else if recognized(attrs[0].name) {
        Some(attrs[0])
    } else {
        find_recognized(attrs.drop_first())
    }
}

/// The token spelling of the type-default expression a bare `default`
/// keyword expands to.
pub open spec fn default_call_toks() -> Seq<TokV> {
    seq![
        TokV::Ident("Default"@),
        TokV::PathSep,
        TokV::Ident("default"@),
        TokV::LParen,
        TokV::RParen,
    ]
}

/// The argument is exactly the keyword `default`.
pub open spec fn is_default_kw(inner: Seq<TokV>) -> bool {
    inner =~= seq![TokV::Ident("default"@)]
}

/// What `#[prop...]` yields: no argument means a constructor-supplied value,
/// `default` expands to the type default, any other expression is kept
/// verbatim.
pub open spec fn spec_parse_prop(rest: Seq<TokV>, param: Seq<char>) -> Result<FieldKindV, DiagV> {
    match attr_shape(rest) {
        ArgShapeV::Bare => Ok(FieldKindV::Prop { default: None }),
        ArgShapeV::Grouped(inner) => if is_default_kw(inner) {
            Ok(FieldKindV::Prop { default: Some(default_call_toks()) })
        } else if is_expr(inner) {
            Ok(FieldKindV::Prop { default: Some(inner) })
        } else {
            Err(DiagV::InvalidAttributeShape { attr: "prop"@, param })
        },
        ArgShapeV::Malformed => Err(DiagV::InvalidAttributeShape { attr: "prop"@, param }),
    }
}

/// What `#[global...]` yields; the bare form is accepted and installs
/// nothing.
pub open spec fn spec_parse_global(rest: Seq<TokV>, param: Seq<char>) -> Result<FieldKindV, DiagV> {
    match attr_shape(rest) {
        ArgShapeV::Bare => Ok(FieldKindV::Global { value: None }),
        ArgShapeV::Grouped(inner) => if is_default_kw(inner) {
            Ok(FieldKindV::Global { value: Some(default_call_toks()) })
        } else if is_expr(inner) {
            Ok(FieldKindV::Global { value: Some(inner) })
        } else {
            Err(DiagV::InvalidAttributeShape { attr: "global"@, param })
        },
        ArgShapeV::Malformed => Err(DiagV::InvalidAttributeShape { attr: "global"@, param }),
    }
}

/// What `#[signal(...)]` yields: exactly one identifier, the channel name.
pub open spec fn spec_parse_signal(rest: Seq<TokV>, param: Seq<char>) -> Result<FieldKindV, DiagV> {
    match attr_shape(rest) {
        ArgShapeV::Bare => Err(
            DiagV::MissingRequiredAttributeArgument { attr: "signal"@, param },
        ),
        ArgShapeV::Grouped(inner) => if inner.len() == 0 {
            Err(DiagV::MissingRequiredAttributeArgument { attr: "signal"@, param })
        } else if is_single_ident(inner) {
            Ok(FieldKindV::Signal { name: inner[0]->Ident_0 })
        } else {
            Err(DiagV::InvalidAttributeShape { attr: "signal"@, param })
        },
        ArgShapeV::Malformed => Err(DiagV::InvalidAttributeShape { attr: "signal"@, param }),
    }
}

/// What `#[resource(...)]` yields: exactly one path, the loader reference.
pub open spec fn spec_parse_resource(rest: Seq<TokV>, param: Seq<char>) -> Result<
    FieldKindV,
    DiagV,
> {
    match attr_shape(rest) {
        ArgShapeV::Bare => Err(
            DiagV::MissingRequiredAttributeArgument { attr: "resource"@, param },
        ),
        ArgShapeV::Grouped(inner) => if inner.len() == 0 {
            Err(DiagV::MissingRequiredAttributeArgument { attr: "resource"@, param })
        } else if is_path(inner) {
            Ok(FieldKindV::Resource { loader: inner })
        } else {
            Err(DiagV::InvalidAttributeShape { attr: "resource"@, param })
        },
        ArgShapeV::Malformed => Err(DiagV::InvalidAttributeShape { attr: "resource"@, param }),
    }
}

/// Dispatches a recognized annotation by name.
pub open spec fn spec_attr_kind(a: AttrV, param: Seq<char>) -> Result<FieldKindV, DiagV> {
    if a.name == "prop"@ {
        spec_parse_prop(a.rest, param)
    } else if a.name == "signal"@ {
        spec_parse_signal(a.rest, param)
    } else if a.name == "global"@ {
        spec_parse_global(a.rest, param)
    } else {
        spec_parse_resource(a.rest, param)
    }
}

/// Classifies one parameter: `Ok(None)` skips it, `Ok(Some(..))` yields its
/// field, and a diagnostic aborts the compilation.
pub open spec fn spec_classify(p: ParamV) -> Result<Option<FieldV>, DiagV> {
    match find_recognized(p.attrs) {
        None => Ok(None),
        Some(a) => match p.pat {
            PatV::Other(text) => Err(DiagV::UnsupportedParameterPattern { pat: text }),
            PatV::Ident(name) => match spec_attr_kind(a, name) {
                Ok(k) => Ok(Some(FieldV { name, ty: p.ty, kind: k })),
                Err(d) => Err(d),
            },
        },
    }
}

/// The ordered field list of a parameter sequence, or its first diagnostic.
pub open spec fn spec_extract_fields(params: Seq<ParamV>) -> Result<Seq<FieldV>, DiagV>
    decreases params.len(),
{
    if params.len() == 0 {
        Ok(Seq::empty())
    } else {
        match spec_extract_fields(params.drop_last()) {
            Err(d) => Err(d),
            Ok(fs) => match spec_classify(params.last()) {
                Err(d) => Err(d),
                Ok(None) => Ok(fs),
                Ok(Some(f)) => Ok(fs.push(f)),
            },
        }
    }
}

/// An error among the first `i` parameters decides the whole extraction.
pub proof fn lemma_extract_err_persists(params: Seq<ParamV>, i: int, d: DiagV)
    requires
        0 <= i <= params.len(),
        spec_extract_fields(params.take(i)) == Err::<Seq<FieldV>, DiagV>(d),
    ensures
        spec_extract_fields(params) == Err::<Seq<FieldV>, DiagV>(d),
    decreases params.len() - i,
{
    if i < params.len() {
        assert(params.take(i + 1).drop_last() =~= params.take(i));
        assert(spec_extract_fields(params.take(i + 1)) == Err::<Seq<FieldV>, DiagV>(d));
        lemma_extract_err_persists(params, i + 1, d);
    } else {
        assert(params.take(i) =~= params);
    }
}

/// Maps an exec extraction result onto the model plane.
pub open spec fn fields_result_view(r: Result<Vec<Field>, Diagnostic>) -> Result<
    Seq<FieldV>,
    DiagV,
> {
    match r {
        Ok(fs) => Ok(fs.deep_view()),
        Err(d) => Err(d.deep_view()),
    }
}

/// Builds the token spelling of the type-default expression.
pub fn default_call_toks_exec() -> (r: Vec<Tok>)
    ensures
        r.deep_view() == default_call_toks(),
{
    let mut out: Vec<Tok> = Vec::new();
    out.push(Tok::Ident(String::from_str("Default")));
    out.push(Tok::PathSep);
    out.push(Tok::Ident(String::from_str("default")));
    out.push(Tok::LParen);
    out.push(Tok::RParen);
    proof {
        assert(out.deep_view() =~= default_call_toks());
    }
    out
}

/// Checks whether a group is exactly the keyword `default`.
fn check_default_kw(inner: &Vec<Tok>) -> (r: bool)
    ensures
        r == is_default_kw(inner.deep_view()),
{
    if inner.len() == 1 {
        match &inner[0] {
            Tok::Ident(s) => {
                let e = str_eq(s, "default");
                proof {
                    if e {
                        assert(inner.deep_view() =~= seq![TokV::Ident("default"@)]);
                    } else {
                        assert(inner.deep_view()[0] != TokV::Ident("default"@));
                    }
                }
                e
            },
            _ => false,
        }
    } else {
        false
    }
}

/// Parses a recognized annotation into the field kind it denotes.
fn attr_kind_exec(a: &ParamAttr, param: &String) -> (r: Result<FieldKind, Diagnostic>)
    ensures
        match r {
            Ok(k) => spec_attr_kind(a.deep_view(), param@) == Ok::<FieldKindV, DiagV>(
                k.deep_view(),
            ),
            Err(d) => spec_attr_kind(a.deep_view(), param@) == Err::<FieldKindV, DiagV>(
                d.deep_view(),
            ),
        },
{
    let shape = attr_shape_exec(&a.rest);
    if str_eq(&a.name, "prop") {
        match shape {
            ArgShape::Bare => Ok(FieldKind::Prop { default: None }),
            ArgShape::Grouped(inner) => {
                if check_default_kw(&inner) {
                    Ok(FieldKind::Prop { default: Some(default_call_toks_exec()) })
                } else if check_expr(&inner) {
                    Ok(FieldKind::Prop { default: Some(inner) })
                } else {
                    Err(
                        Diagnostic::InvalidAttributeShape {
                            attr: String::from_str("prop"),
                            param: param.clone(),
                        },
                    )
                }
            },
            ArgShape::Malformed => Err(
                Diagnostic::InvalidAttributeShape {
                    attr: String::from_str("prop"),
                    param: param.clone(),
                },
            ),
        }
    } else if str_eq(&a.name, "signal") {
        match shape {
            ArgShape::Bare => Err(
                Diagnostic::MissingRequiredAttributeArgument {
                    attr: String::from_str("signal"),
                    param: param.clone(),
                },
            ),
            ArgShape::Grouped(inner) => {
                if inner.len() == 0 {
                    Err(
                        Diagnostic::MissingRequiredAttributeArgument {
                            attr: String::from_str("signal"),
                            param: param.clone(),
                        },
                    )
                } else if inner.len() == 1 {
                    match &inner[0] {
                        Tok::Ident(s) => Ok(FieldKind::Signal { name: s.clone() }),
                        _ => Err(
                            Diagnostic::InvalidAttributeShape {
                                attr: String::from_str("signal"),
                                param: param.clone(),
                            },
                        ),
                    }
                } else {
                    Err(
                        Diagnostic::InvalidAttributeShape {
                            attr: String::from_str("signal"),
                            param: param.clone(),
                        },
                    )
                }
            },
            ArgShape::Malformed => Err(
                Diagnostic::InvalidAttributeShape {
                    attr: String::from_str("signal"),
                    param: param.clone(),
                },
            ),
        }
    } else if str_eq(&a.name, "global") {
        match shape {
            ArgShape::Bare => Ok(FieldKind::Global { value: None }),
            ArgShape::Grouped(inner) => {
                if check_default_kw(&inner) {
                    Ok(FieldKind::Global { value: Some(default_call_toks_exec()) })
                } else if check_expr(&inner) {
                    Ok(FieldKind::Global { value: Some(inner) })
                } else {
                    Err(
                        Diagnostic::InvalidAttributeShape {
                            attr: String::from_str("global"),
                            param: param.clone(),
                        },
                    )
                }
            },
            ArgShape::Malformed => Err(
                Diagnostic::InvalidAttributeShape {
                    attr: String::from_str("global"),
                    param: param.clone(),
                },
            ),
        }
    } else {
        match shape {
            ArgShape::Bare => Err(
                Diagnostic::MissingRequiredAttributeArgument {
                    attr: String::from_str("resource"),
                    param: param.clone(),
                },
            ),
            ArgShape::Grouped(inner) => {
                if inner.len() == 0 {
                    Err(
                        Diagnostic::MissingRequiredAttributeArgument {
                            attr: String::from_str("resource"),
                            param: param.clone(),
                        },
                    )
                } else if check_path(&inner) {
                    Ok(FieldKind::Resource { loader: inner })
                } else {
                    Err(
                        Diagnostic::InvalidAttributeShape {
                            attr: String::from_str("resource"),
                            param: param.clone(),
                        },
                    )
                }
            },
            ArgShape::Malformed => Err(
                Diagnostic::InvalidAttributeShape {
                    attr: String::from_str("resource"),
                    param: param.clone(),
                },
            ),
        }
    }
}

/// Finds the index of the first recognized annotation, if any.
fn find_first_recognized(attrs: &Vec<ParamAttr>) -> (r: Option<usize>)
    ensures
        match r {
            Some(j) => j < attrs@.len() && find_recognized(attrs.deep_view()) == Some(
                attrs.deep_view()[j as int],
            ),
            None => find_recognized(attrs.deep_view()) is None,
        },
{
    let ghost av = attrs.deep_view();
    let mut j: usize = 0;
    proof {
        assert(av.skip(0) =~= av);
    }
    while j < attrs.len()
        invariant
            j <= attrs.len(),
            av == attrs.deep_view(),
            find_recognized(av) == find_recognized(av.skip(j as int)),
        decreases attrs.len() - j,
    {
        let a = &attrs[j];
        let is_rec = str_eq(&a.name, "prop") || str_eq(&a.name, "signal") || str_eq(
            &a.name,
            "global",
        ) || str_eq(&a.name, "resource");
        proof {
            assert(av.skip(j as int)[0] == av[j as int]);
            assert(av.skip(j as int).drop_first() =~= av.skip(j + 1));
        }
        if is_rec {
            return Some(j);
        }
        j = j + 1;
    }
    proof {
        assert(av.skip(attrs.len() as int) =~= Seq::<AttrV>::empty());
    }
    None
}

/// Classifies one parameter.
fn classify_param(p: &Param) -> (r: Result<Option<Field>, Diagnostic>)
    ensures
        match r {
            Ok(Some(f)) => spec_classify(p.deep_view()) == Ok::<Option<FieldV>, DiagV>(
                Some(f.deep_view()),
            ),
            Ok(None) => spec_classify(p.deep_view()) == Ok::<Option<FieldV>, DiagV>(None),
            Err(d) => spec_classify(p.deep_view()) == Err::<Option<FieldV>, DiagV>(d.deep_view()),
        },
{
    let ghost pv = p.deep_view();
    let found = find_first_recognized(&p.attrs);
    match found {
        None => Ok(None),
        Some(j) => {
            let a = &p.attrs[j];
            proof {
                assert(find_recognized(pv.attrs) == Some(pv.attrs[j as int]));
            }
            match &p.pat {
                PatKind::Other(text) => Err(
                    Diagnostic::UnsupportedParameterPattern { pat: text.clone() },
                ),
                PatKind::Ident(name) => match attr_kind_exec(a, name) {
                    Ok(k) => Ok(
                        Some(Field { name: name.clone(), ty: p.ty.clone(), kind: k }),
                    ),
                    Err(d) => Err(d),
                },
            }
        },
    }
}

/// Scans the decorated function's parameters and returns the ordered field
/// list, or the first diagnostic encountered.
pub fn extract_fields(func: &FnDecl) -> (r: Result<Vec<Field>, Diagnostic>)
    ensures
        fields_result_view(r) == spec_extract_fields(func.deep_view().params),
{
    let ghost psv = func.deep_view().params;
    let mut fields: Vec<Field> = Vec::new();
    let mut i: usize = 0;
    proof {
        assert(psv.take(0) =~= Seq::<ParamV>::empty());
        assert(fields.deep_view() =~= Seq::<FieldV>::empty());
    }
    while i < func.params.len()
        invariant
            i <= func.params.len(),
            psv == func.deep_view().params,
            spec_extract_fields(psv.take(i as int)) == Ok::<Seq<FieldV>, DiagV>(
                fields.deep_view(),
            ),
        decreases func.params.len() - i,
    {
        proof {
            assert(psv.take(i + 1).drop_last() =~= psv.take(i as int));
            assert(psv.take(i + 1).last() == psv[i as int]);
        }
        match classify_param(&func.params[i]) {
            Err(d) => {
                proof {
                    lemma_extract_err_persists(psv, i + 1, d.deep_view());
                }
                return Err(d);
            },
            Ok(None) => {},
            Ok(Some(f)) => {
                let ghost prev = fields@;
                let ghost before = fields.deep_view();
                proof {
                    assert(before.len() == prev.len());
                }
                fields.push(f);
                proof {
                    assert(fields@ == prev.push(f));
                    assert forall|k: int|
                        0 <= k < fields@.len() implies fields.deep_view()[k] == before.push(
                        f.deep_view(),
                    )[k] by {
                        if k < prev.len() {
                            assert(fields@[k] == prev[k]);
                            assert(before[k] == prev[k].deep_view());
                        } else {
                            assert(fields@[k] == f);
                        }
                    }
                    assert(fields.deep_view() =~= before.push(f.deep_view()));
                }
            },
        }
        i = i + 1;
    }
    proof {
        assert(psv.take(func.params.len() as int) =~= psv);
    }
    Ok(fields)
}

} // verus!
