//! The code generator: configuration plus classified fields become a
//! component definition, and the definition is printed as source text.
//!
//! Generation is total over well-formed inputs: every failure of the
//! pipeline surfaces in the attribute parser or the parameter classifier,
//! never here.

use vstd::prelude::*;
use vstd::string::StringExecFns;
use crate::config::{ConfigV, MacroConfig, spec_parse_config};
use crate::diag::{Diagnostic, DiagV};
use crate::fields::{
    extract_fields, spec_extract_fields, Field, FieldKind, FieldKindV, FieldV, FnDecl, FnDeclV,
};
use crate::ir::{
    ComponentDef, ComponentV, FieldInit, FieldInitV, GlobalStmt, GlobalStmtV, InitValue,
    InitValueV, NamedTy, NamedTyV,
};
use crate::tokens::{clone_toks, push_deep, spec_render_toks, render_toks, Tok, TokV};
use crate::validate::validate_signature;

verus! {

/// The generated struct's public fields: one per property, in declaration
/// order, typed as declared.
pub open spec fn spec_struct_fields(fs: Seq<FieldV>) -> Seq<NamedTyV>
    decreases fs.len(),
{
    if fs.len() == 0 {
        Seq::empty()
    } else {
        let rest = spec_struct_fields(fs.drop_last());
        let f = fs.last();
        if f.kind is Prop {
            rest.push(NamedTyV { name: f.name, ty: f.ty })
        } else {
            rest
        }
    }
}

/// The constructor's parameters: one per property without a default, in
/// declaration order.
pub open spec fn spec_ctor_params(fs: Seq<FieldV>) -> Seq<NamedTyV>
    decreases fs.len(),
{
    if fs.len() == 0 {
        Seq::empty()
    } else {
        let rest = spec_ctor_params(fs.drop_last());
        let f = fs.last();
        if f.kind matches FieldKindV::Prop { default } && default is None {
            rest.push(NamedTyV { name: f.name, ty: f.ty })
        } else {
            rest
        }
    }
}

/// The constructor's field initializers: every property, in declaration
/// order; default-bearing properties evaluate their expression, the others
/// forward the constructor argument.
pub open spec fn spec_inits(fs: Seq<FieldV>) -> Seq<FieldInitV>
    decreases fs.len(),
{
    if fs.len() == 0 {
        Seq::empty()
    } else {
        let rest = spec_inits(fs.drop_last());
        let f = fs.last();
        match f.kind {
            FieldKindV::Prop { default: Some(e) } => rest.push(
                FieldInitV { name: f.name, value: InitValueV::Expr(e) },
            ),
            FieldKindV::Prop { default: None } => rest.push(
                FieldInitV { name: f.name, value: InitValueV::Forward },
            ),
            _ => rest,
        }
    }
}

/// The shared-state routine's statements: an installer for every global
/// with a value and every resource, in declaration order.
pub open spec fn spec_globals(fs: Seq<FieldV>) -> Seq<GlobalStmtV>
    decreases fs.len(),
{
    if fs.len() == 0 {
        Seq::empty()
    } else {
        let rest = spec_globals(fs.drop_last());
        let f = fs.last();
        match f.kind {
            FieldKindV::Global { value: Some(v) } => rest.push(
                GlobalStmtV::SetValue { ty: f.ty, value: v },
            ),
            FieldKindV::Resource { loader } => rest.push(
                GlobalStmtV::SetLoaded { ty: f.ty, loader },
            ),
            _ => rest,
        }
    }
}

/// The render prologue's bindings: one fetch per global or resource, bound
/// to the parameter's name, in declaration order.
pub open spec fn spec_prologue(fs: Seq<FieldV>) -> Seq<NamedTyV>
    decreases fs.len(),
{
    if fs.len() == 0 {
        Seq::empty()
    } else {
        let rest = spec_prologue(fs.drop_last());
        let f = fs.last();
        match f.kind {
            FieldKindV::Global { value } => rest.push(NamedTyV { name: f.name, ty: f.ty }),
            FieldKindV::Resource { loader } => rest.push(NamedTyV { name: f.name, ty: f.ty }),
            _ => rest,
        }
    }
}

/// The complete component definition a configuration and field list yield.
pub open spec fn spec_component(
    name: Seq<char>,
    body: Seq<char>,
    fs: Seq<FieldV>,
    c: ConfigV,
) -> ComponentV {
    ComponentV {
        name,
        body,
        element_derive: c.is_element,
        extra_derives: c.derive_traits,
        struct_fields: spec_struct_fields(fs),
        has_children: c.is_parent,
        ctor_params: spec_ctor_params(fs),
        inits: spec_inits(fs),
        globals: spec_globals(fs),
        prologue: spec_prologue(fs),
        render_once: c.is_once,
    }
}

/// Builds the constructor parameters and initializers, the shared-state
/// statements, and the render prologue, all in one pass over the fields.
pub fn generate_constructor(fields: &Vec<Field>, config: &MacroConfig) -> (r: (
    Vec<NamedTy>,
    Vec<FieldInit>,
    Vec<GlobalStmt>,
    Vec<NamedTy>,
))
    ensures
        r.0.deep_view() == spec_ctor_params(fields.deep_view()),
        r.1.deep_view() == spec_inits(fields.deep_view()),
        r.2.deep_view() == spec_globals(fields.deep_view()),
        r.3.deep_view() == spec_prologue(fields.deep_view()),
{
    let ghost fsv = fields.deep_view();
    let mut params: Vec<NamedTy> = Vec::new();
    let mut inits: Vec<FieldInit> = Vec::new();
    let mut globals: Vec<GlobalStmt> = Vec::new();
    let mut prologue: Vec<NamedTy> = Vec::new();
    let mut i: usize = 0;
    proof {
        assert(fsv.take(0) =~= Seq::<FieldV>::empty());
        assert(params.deep_view() =~= Seq::<NamedTyV>::empty());
        assert(inits.deep_view() =~= Seq::<FieldInitV>::empty());
        assert(globals.deep_view() =~= Seq::<GlobalStmtV>::empty());
        assert(prologue.deep_view() =~= Seq::<NamedTyV>::empty());
    }
    while i < fields.len()
        invariant
            i <= fields.len(),
            fsv == fields.deep_view(),
            params.deep_view() == spec_ctor_params(fsv.take(i as int)),
            inits.deep_view() == spec_inits(fsv.take(i as int)),
            globals.deep_view() == spec_globals(fsv.take(i as int)),
            prologue.deep_view() == spec_prologue(fsv.take(i as int)),
        decreases fields.len() - i,
    {
        let f = &fields[i];
        proof {
            assert(fsv.take(i + 1).drop_last() =~= fsv.take(i as int));
            assert(fsv.take(i + 1).last() == fsv[i as int]);
        }
        match &f.kind {
            FieldKind::Prop { default } => {
                match default {
                    None => {
                        push_deep(
                            &mut params,
                            NamedTy { name: f.name.clone(), ty: f.ty.clone() },
                        );
                        push_deep(
                            &mut inits,
                            FieldInit { name: f.name.clone(), value: InitValue::Forward },
                        );
                    },
                    Some(e) => {
                        push_deep(
                            &mut inits,
                            FieldInit {
                                name: f.name.clone(),
                                value: InitValue::Expr(clone_toks(e)),
                            },
                        );
                    },
                }
            },
            FieldKind::Signal { name } => {},
            FieldKind::Global { value } => {
                match value {
                    Some(v) => {
                        push_deep(
                            &mut globals,
                            GlobalStmt::SetValue { ty: f.ty.clone(), value: clone_toks(v) },
                        );
                    },
                    None => {},
                }
                push_deep(&mut prologue, NamedTy { name: f.name.clone(), ty: f.ty.clone() });
            },
            FieldKind::Resource { loader } => {
                push_deep(
                    &mut globals,
                    GlobalStmt::SetLoaded { ty: f.ty.clone(), loader: clone_toks(loader) },
                );
                push_deep(&mut prologue, NamedTy { name: f.name.clone(), ty: f.ty.clone() });
            },
        }
        i = i + 1;
    }
    proof {
        assert(fsv.take(fields.len() as int) =~= fsv);
    }
    (params, inits, globals, prologue)
}

/// Builds the component definition from the classified inputs. Generation
/// is total: it cannot fail.
pub fn build_component(
    name: &String,
    body: &String,
    fields: &Vec<Field>,
    config: &MacroConfig,
) -> (cd: ComponentDef)
    ensures
        cd.deep_view() == spec_component(name@, body@, fields.deep_view(), config.deep_view()),
{
    let ghost fsv = fields.deep_view();
    let mut struct_fields: Vec<NamedTy> = Vec::new();
    let mut i: usize = 0;
    proof {
        assert(fsv.take(0) =~= Seq::<FieldV>::empty());
        assert(struct_fields.deep_view() =~= Seq::<NamedTyV>::empty());
    }
    while i < fields.len()
        invariant
            i <= fields.len(),
            fsv == fields.deep_view(),
            struct_fields.deep_view() == spec_struct_fields(fsv.take(i as int)),
        decreases fields.len() - i,
    {
        let f = &fields[i];
        proof {
            assert(fsv.take(i + 1).drop_last() =~= fsv.take(i as int));
            assert(fsv.take(i + 1).last() == fsv[i as int]);
        }
        match &f.kind {
            FieldKind::Prop { default } => {
                push_deep(
                    &mut struct_fields,
                    NamedTy { name: f.name.clone(), ty: f.ty.clone() },
                );
            },
            _ => {},
        }
        i = i + 1;
    }
    proof {
        assert(fsv.take(fields.len() as int) =~= fsv);
    }
    let (ctor_params, inits, globals, prologue) = generate_constructor(fields, config);
    let extra_derives = match &config.derive_traits {
        Some(ts) => Some(clone_toks(ts)),
        None => None,
    };
    ComponentDef {
        name: name.clone(),
        body: body.clone(),
        element_derive: config.is_element,
        extra_derives,
        struct_fields,
        has_children: config.is_parent,
        ctor_params,
        inits,
        globals,
        prologue,
        render_once: config.is_once,
    }
}

/// The derive attribute line of the generated struct, if any.
pub open spec fn spec_render_derives(cv: ComponentV) -> Seq<char> {
    if cv.element_derive {
        match cv.extra_derives {
            Some(ts) => "#[derive(gpui::IntoElement, "@ + spec_render_toks(ts) + ")]\n"@,
            None => "#[derive(gpui::IntoElement)]\n"@,
        }
    } else {
        match cv.extra_derives {
            Some(ts) => "#[derive("@ + spec_render_toks(ts) + ")]\n"@,
            None => Seq::empty(),
        }
    }
}

pub open spec fn spec_field_line(f: NamedTyV) -> Seq<char> {
    "    pub "@ + f.name + ": "@ + f.ty + ",\n"@
}

pub open spec fn spec_render_struct_fields(fs: Seq<NamedTyV>) -> Seq<char>
    decreases fs.len(),
{
    if fs.len() == 0 {
        Seq::empty()
    } else {
        spec_render_struct_fields(fs.drop_last()) + spec_field_line(fs.last())
    }
}

/// The generated struct definition.
pub open spec fn spec_render_struct(cv: ComponentV) -> Seq<char> {
    spec_render_derives(cv) + "pub struct "@ + cv.name + " {\n"@ + spec_render_struct_fields(
        cv.struct_fields,
    ) + (if cv.has_children {
        "    children: Vec<gpui::AnyElement>,\n"@
    } else {
        Seq::empty()
    }) + "}\n"@
}

pub open spec fn spec_param_item(p: NamedTyV) -> Seq<char> {
    p.name + ": "@ + p.ty
}

pub open spec fn spec_render_params(ps: Seq<NamedTyV>) -> Seq<char>
    decreases ps.len(),
{
    if ps.len() == 0 {
        Seq::empty()
    } else if ps.len() == 1 {
        spec_param_item(ps[0])
    } else {
        spec_render_params(ps.drop_last()) + ", "@ + spec_param_item(ps.last())
    }
}

pub open spec fn spec_init_line(it: FieldInitV) -> Seq<char> {
    match it.value {
        InitValueV::Forward => "            "@ + it.name + ",\n"@,
        InitValueV::Expr(e) => "            "@ + it.name + ": "@ + spec_render_toks(e) + ",\n"@,
    }
}

pub open spec fn spec_render_inits(its: Seq<FieldInitV>) -> Seq<char>
    decreases its.len(),
{
    if its.len() == 0 {
        Seq::empty()
    } else {
        spec_render_inits(its.drop_last()) + spec_init_line(its.last())
    }
}

pub open spec fn spec_global_line(g: GlobalStmtV) -> Seq<char> {
    match g {
        GlobalStmtV::SetValue { ty, value } => "        cx.set_global::<"@ + ty + ">("@
            + spec_render_toks(value) + ");\n"@,
        GlobalStmtV::SetLoaded { ty, loader } => "        cx.set_global("@ + spec_render_toks(
            loader,
        ) + "::load(cx));\n"@,
    }
}

pub open spec fn spec_render_globals(gs: Seq<GlobalStmtV>) -> Seq<char>
    decreases gs.len(),
{
    if gs.len() == 0 {
        Seq::empty()
    } else {
        spec_render_globals(gs.drop_last()) + spec_global_line(gs.last())
    }
}

pub open spec fn spec_prologue_line(p: NamedTyV) -> Seq<char> {
    "        let "@ + p.name + " = cx.global::<"@ + p.ty + ">();\n"@
}

pub open spec fn spec_render_prologue(ps: Seq<NamedTyV>) -> Seq<char>
    decreases ps.len(),
{
    if ps.len() == 0 {
        Seq::empty()
    } else {
        spec_render_prologue(ps.drop_last()) + spec_prologue_line(ps.last())
    }
}

/// The constructor and shared-state routine, inside one `impl` block.
pub open spec fn spec_render_ctor(cv: ComponentV) -> Seq<char> {
    "impl "@ + cv.name + " {\n    pub fn new("@ + spec_render_params(cv.ctor_params)
        + ") -> Self {\n        Self {\n"@ + (if cv.has_children {
        "            children: Vec::new(),\n"@
    } else {
        Seq::empty()
    }) + spec_render_inits(cv.inits)
        + "        }\n    }\n\n    pub fn globals(&self, cx: &mut gpui::App) {\n"@
        + spec_render_globals(cv.globals) + "    }\n}\n"@
}

/// The render-trait implementation: by-value with the stateless context
/// when `once`, mutably-borrowed with the stateful context otherwise.
pub open spec fn spec_render_render_impl(cv: ComponentV) -> Seq<char> {
    (if cv.render_once {
        "impl gpui::RenderOnce for "@ + cv.name
            + " {\n    fn render(mut self, window: &mut gpui::Window, cx: &mut gpui::App) -> impl gpui::IntoElement {\n"@
    } else {
        "impl gpui::Render for "@ + cv.name
            + " {\n    fn render(&mut self, window: &mut gpui::Window, cx: &mut gpui::Context<Self>) -> impl gpui::IntoElement {\n"@
    }) + spec_render_prologue(cv.prologue) + "        "@ + cv.body + "\n    }\n}\n"@
}

/// The composition implementation, only for a parent component.
pub open spec fn spec_render_parent_impl(cv: ComponentV) -> Seq<char> {
    if cv.has_children {
        "impl gpui::ParentElement for "@ + cv.name
            + " {\n    fn extend(&mut self, elements: impl IntoIterator<Item = gpui::AnyElement>) {\n        self.children.extend(elements.into_iter())\n    }\n}\n"@
    } else {
        Seq::empty()
    }
}

/// The full printed component.
pub open spec fn spec_render_component(cv: ComponentV) -> Seq<char> {
    spec_render_struct(cv) + "\n"@ + spec_render_ctor(cv) + "\n"@ + spec_render_render_impl(cv)
        + spec_render_parent_impl(cv)
}

fn append_field_line(out: &mut String, f: &NamedTy)
    ensures
        final(out)@ == old(out)@ + spec_field_line(f.deep_view()),
{
    out.append("    pub ");
    out.append(f.name.as_str());
    out.append(": ");
    out.append(f.ty.as_str());
    out.append(",\n");
    proof {
        assert(out@ =~= old(out)@ + spec_field_line(f.deep_view()));
    }
}

fn append_struct_fields(out: &mut String, fs: &Vec<NamedTy>)
    ensures
        final(out)@ == old(out)@ + spec_render_struct_fields(fs.deep_view()),
{
    let ghost base = out@;
    let ghost fv = fs.deep_view();
    let mut i: usize = 0;
    proof {
        assert(fv.take(0) =~= Seq::<NamedTyV>::empty());
        assert(base + spec_render_struct_fields(fv.take(0)) =~= base);
    }
    while i < fs.len()
        invariant
            i <= fs.len(),
            fv == fs.deep_view(),
            out@ == base + spec_render_struct_fields(fv.take(i as int)),
        decreases fs.len() - i,
    {
        proof {
            assert(fv.take(i + 1).drop_last() =~= fv.take(i as int));
            assert(fv.take(i + 1).last() == fv[i as int]);
        }
        append_field_line(out, &fs[i]);
        proof {
            assert(out@ =~= base + spec_render_struct_fields(fv.take(i + 1)));
        }
        i = i + 1;
    }
    proof {
        assert(fv.take(fs.len() as int) =~= fv);
    }
}

fn append_params(out: &mut String, ps: &Vec<NamedTy>)
    ensures
        final(out)@ == old(out)@ + spec_render_params(ps.deep_view()),
{
    let ghost base = out@;
    let ghost pv = ps.deep_view();
    let mut i: usize = 0;
    proof {
        assert(pv.take(0) =~= Seq::<NamedTyV>::empty());
        assert(base + spec_render_params(pv.take(0)) =~= base);
    }
    while i < ps.len()
        invariant
            i <= ps.len(),
            pv == ps.deep_view(),
            out@ == base + spec_render_params(pv.take(i as int)),
        decreases ps.len() - i,
    {
        proof {
            assert(pv.take(i + 1).drop_last() =~= pv.take(i as int));
            assert(pv.take(i + 1).last() == pv[i as int]);
            assert(pv.take(i + 1)[0] == pv[0]);
        }
        if i > 0 {
            out.append(", ");
        }
        out.append(ps[i].name.as_str());
        out.append(": ");
        out.append(ps[i].ty.as_str());
        proof {
            assert(out@ =~= base + spec_render_params(pv.take(i + 1)));
        }
        i = i + 1;
    }
    proof {
        assert(pv.take(ps.len() as int) =~= pv);
    }
}

fn append_init_line(out: &mut String, it: &FieldInit)
    ensures
        final(out)@ == old(out)@ + spec_init_line(it.deep_view()),
{
    out.append("            ");
    out.append(it.name.as_str());
    match &it.value {
        InitValue::Forward => {},
        InitValue::Expr(e) => {
            out.append(": ");
            let s = render_toks(e);
            out.append(s.as_str());
        },
    }
    out.append(",\n");
    proof {
        assert(out@ =~= old(out)@ + spec_init_line(it.deep_view()));
    }
}

fn append_inits(out: &mut String, its: &Vec<FieldInit>)
    ensures
        final(out)@ == old(out)@ + spec_render_inits(its.deep_view()),
{
    let ghost base = out@;
    let ghost iv = its.deep_view();
    let mut i: usize = 0;
    proof {
        assert(iv.take(0) =~= Seq::<FieldInitV>::empty());
        assert(base + spec_render_inits(iv.take(0)) =~= base);
    }
    while i < its.len()
        invariant
            i <= its.len(),
            iv == its.deep_view(),
            out@ == base + spec_render_inits(iv.take(i as int)),
        decreases its.len() - i,
    {
        proof {
            assert(iv.take(i + 1).drop_last() =~= iv.take(i as int));
            assert(iv.take(i + 1).last() == iv[i as int]);
        }
        append_init_line(out, &its[i]);
        proof {
            assert(out@ =~= base + spec_render_inits(iv.take(i + 1)));
        }
        i = i + 1;
    }
    proof {
        assert(iv.take(its.len() as int) =~= iv);
    }
}

fn append_global_line(out: &mut String, g: &GlobalStmt)
    ensures
        final(out)@ == old(out)@ + spec_global_line(g.deep_view()),
{
    match g {
        GlobalStmt::SetValue { ty, value } => {
            out.append("        cx.set_global::<");
            out.append(ty.as_str());
            out.append(">(");
            let s = render_toks(value);
            out.append(s.as_str());
            out.append(");\n");
        },
        GlobalStmt::SetLoaded { ty, loader } => {
            out.append("        cx.set_global(");
            let s = render_toks(loader);
            out.append(s.as_str());
            out.append("::load(cx));\n");
        },
    }
    proof {
        assert(out@ =~= old(out)@ + spec_global_line(g.deep_view()));
    }
}

fn append_globals(out: &mut String, gs: &Vec<GlobalStmt>)
    ensures
        final(out)@ == old(out)@ + spec_render_globals(gs.deep_view()),
{
    let ghost base = out@;
    let ghost gv = gs.deep_view();
    let mut i: usize = 0;
    proof {
        assert(gv.take(0) =~= Seq::<GlobalStmtV>::empty());
        assert(base + spec_render_globals(gv.take(0)) =~= base);
    }
    while i < gs.len()
        invariant
            i <= gs.len(),
            gv == gs.deep_view(),
            out@ == base + spec_render_globals(gv.take(i as int)),
        decreases gs.len() - i,
    {
        proof {
            assert(gv.take(i + 1).drop_last() =~= gv.take(i as int));
            assert(gv.take(i + 1).last() == gv[i as int]);
        }
        append_global_line(out, &gs[i]);
        proof {
            assert(out@ =~= base + spec_render_globals(gv.take(i + 1)));
        }
        i = i + 1;
    }
    proof {
        assert(gv.take(gs.len() as int) =~= gv);
    }
}

fn append_prologue(out: &mut String, ps: &Vec<NamedTy>)
    ensures
        final(out)@ == old(out)@ + spec_render_prologue(ps.deep_view()),
{
    let ghost base = out@;
    let ghost pv = ps.deep_view();
    let mut i: usize = 0;
    proof {
        assert(pv.take(0) =~= Seq::<NamedTyV>::empty());
        assert(base + spec_render_prologue(pv.take(0)) =~= base);
    }
    while i < ps.len()
        invariant
            i <= ps.len(),
            pv == ps.deep_view(),
            out@ == base + spec_render_prologue(pv.take(i as int)),
        decreases ps.len() - i,
    {
        proof {
            assert(pv.take(i + 1).drop_last() =~= pv.take(i as int));
            assert(pv.take(i + 1).last() == pv[i as int]);
        }
        out.append("        let ");
        out.append(ps[i].name.as_str());
        out.append(" = cx.global::<");
        out.append(ps[i].ty.as_str());
        out.append(">();\n");
        proof {
            assert(out@ =~= base + spec_render_prologue(pv.take(i + 1)));
        }
        i = i + 1;
    }
    proof {
        assert(pv.take(ps.len() as int) =~= pv);
    }
}

/// Prints a component definition as source text: the back-end of the
/// generator.
#[verifier::rlimit(80)]
pub fn render_component(cd: &ComponentDef) -> (r: String)
    ensures
        r@ == spec_render_component(cd.deep_view()),
{
    let ghost cv = cd.deep_view();
    let mut out = String::new();
    // the struct definition
    if cd.element_derive {
        match &cd.extra_derives {
            Some(ts) => {
                out.append("#[derive(gpui::IntoElement, ");
                let s = render_toks(ts);
                out.append(s.as_str());
                out.append(")]\n");
            },
            None => {
                out.append("#[derive(gpui::IntoElement)]\n");
            },
        }
    } else {
        match &cd.extra_derives {
            Some(ts) => {
                out.append("#[derive(");
                let s = render_toks(ts);
                out.append(s.as_str());
                out.append(")]\n");
            },
            None => {},
        }
    }
    proof {
        assert(out@ =~= spec_render_derives(cv));
    }
    out.append("pub struct ");
    out.append(cd.name.as_str());
    out.append(" {\n");
    append_struct_fields(&mut out, &cd.struct_fields);
    if cd.has_children {
        out.append("    children: Vec<gpui::AnyElement>,\n");
    }
    out.append("}\n");
    proof {
        assert(out@ =~= spec_render_struct(cv));
    }
    out.append("\n");
    // the constructor and the shared-state routine
    out.append("impl ");
    out.append(cd.name.as_str());
    out.append(" {\n    pub fn new(");
    append_params(&mut out, &cd.ctor_params);
    out.append(") -> Self {\n        Self {\n");
    if cd.has_children {
        out.append("            children: Vec::new(),\n");
    }
    append_inits(&mut out, &cd.inits);
    out.append("        }\n    }\n\n    pub fn globals(&self, cx: &mut gpui::App) {\n");
    append_globals(&mut out, &cd.globals);
    out.append("    }\n}\n");
    proof {
        assert(out@ =~= spec_render_struct(cv) + "\n"@ + spec_render_ctor(cv));
    }
    out.append("\n");
    // the render-trait implementation
    if cd.render_once {
        out.append("impl gpui::RenderOnce for ");
        out.append(cd.name.as_str());
        out.append(
            " {\n    fn render(mut self, window: &mut gpui::Window, cx: &mut gpui::App) -> impl gpui::IntoElement {\n",
        );
    } else {
        out.append("impl gpui::Render for ");
        out.append(cd.name.as_str());
        out.append(
            " {\n    fn render(&mut self, window: &mut gpui::Window, cx: &mut gpui::Context<Self>) -> impl gpui::IntoElement {\n",
        );
    }
    append_prologue(&mut out, &cd.prologue);
    out.append("        ");
    out.append(cd.body.as_str());
    out.append("\n    }\n}\n");
    proof {
        assert(out@ =~= spec_render_struct(cv) + "\n"@ + spec_render_ctor(cv) + "\n"@
            + spec_render_render_impl(cv));
    }
    // the composition implementation
    if cd.has_children {
        out.append("impl gpui::ParentElement for ");
        out.append(cd.name.as_str());
        out.append(
            " {\n    fn extend(&mut self, elements: impl IntoIterator<Item = gpui::AnyElement>) {\n        self.children.extend(elements.into_iter())\n    }\n}\n",
        );
    }
    proof {
        assert(out@ =~= spec_render_component(cv));
    }
    out
}

/// What expansion yields for a declaration under a parsed configuration.
pub open spec fn spec_expand(fv: FnDeclV, cv: ConfigV) -> Result<Seq<char>, DiagV> {
    match spec_extract_fields(fv.params) {
        Err(d) => Err(d),
        Ok(fs) => Ok(spec_render_component(spec_component(fv.name, fv.body, fs, cv))),
    }
}

/// Expands one decorated function under a configuration: classification,
/// generation, and printing; the classifier's first diagnostic aborts it.
pub fn expand_renderable(func: &FnDecl, config: &MacroConfig) -> (r: Result<String, Diagnostic>)
    ensures
        match r {
            Ok(s) => spec_expand(func.deep_view(), config.deep_view()) == Ok::<Seq<char>, DiagV>(
                s@,
            ),
            Err(d) => spec_expand(func.deep_view(), config.deep_view()) == Err::<
                Seq<char>,
                DiagV,
            >(d.deep_view()),
        },
{
    let fields = match extract_fields(func) {
        Ok(fs) => fs,
        Err(d) => {
            return Err(d);
        },
    };
    let cd = build_component(&func.name, &func.body, &fields, config);
    Ok(render_component(&cd))
}

/// What the whole pipeline yields for a raw configuration token sequence
/// and a declaration.
pub open spec fn spec_renderable(attr: Seq<TokV>, fv: FnDeclV) -> Result<Seq<char>, DiagV> {
    match spec_parse_config(attr) {
        Err(d) => Err(d),
        Ok(cv) => match crate::validate::spec_validate(fv) {
            Err(d) => Err(d),
            Ok(u) => spec_expand(fv, cv),
        },
    }
}

/// The compiler's entry point: attribute parsing, validation,
/// classification, generation, printing. The first diagnostic of any stage
/// is returned and nothing is emitted.
pub fn renderable(attr: &Vec<Tok>, func: &FnDecl) -> (r: Result<String, Diagnostic>)
    ensures
        match r {
            Ok(s) => spec_renderable(attr.deep_view(), func.deep_view()) == Ok::<
                Seq<char>,
                DiagV,
            >(s@),
            Err(d) => spec_renderable(attr.deep_view(), func.deep_view()) == Err::<
                Seq<char>,
                DiagV,
            >(d.deep_view()),
        },
{
    let config = match MacroConfig::parse(attr) {
        Ok(c) => c,
        Err(d) => {
            return Err(d);
        },
    };
    match validate_signature(func) {
        Ok(u) => {},
        Err(d) => {
            return Err(d);
        },
    }
    expand_renderable(func, &config)
}

} // verus!
