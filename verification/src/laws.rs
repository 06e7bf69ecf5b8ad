//! The laws the compiler obeys, stated over the specification plane and
//! proved once and for all.

use vstd::prelude::*;
use crate::codegen::{
    spec_component, spec_ctor_params, spec_render_parent_impl, spec_renderable,
    spec_struct_fields,
};
use crate::config::{
    cfg_finalize, cfg_run, cfg_step, known_flag, spec_default_config, spec_parse_config, CfgState,
    ConfigV,
};
use crate::diag::DiagV;
use crate::fields::{FieldV, FnDeclV};
use crate::ir::NamedTyV;
use crate::tokens::TokV;

verus! {

/// The property fields of a field list, in declaration order.
pub open spec fn prop_fields(fs: Seq<FieldV>) -> Seq<FieldV> {
    fs.filter(|f: FieldV| f.kind is Prop)
}

/// The property fields without a default, in declaration order.
pub open spec fn required_prop_fields(fs: Seq<FieldV>) -> Seq<FieldV> {
    fs.filter(|f: FieldV| prop_no_default(f))
}

/// Whether a field is a property without a default expression.
pub open spec fn prop_no_default(f: FieldV) -> bool {
    f.kind matches crate::fields::FieldKindV::Prop { default } && default is None
}

/// The struct-field projection of a field.
pub open spec fn as_named_ty(f: FieldV) -> NamedTyV {
    NamedTyV { name: f.name, ty: f.ty }
}

/// Field order preservation: the generated struct's fields are exactly the
/// property fields in declaration order, and the constructor's parameters
/// are exactly the default-less property fields in declaration order, each
/// carried over with its declared name and type.
pub proof fn lemma_field_order_preservation(fs: Seq<FieldV>)
    ensures
        spec_struct_fields(fs) =~= prop_fields(fs).map_values(|f: FieldV| as_named_ty(f)),
        spec_ctor_params(fs) =~= required_prop_fields(fs).map_values(|f: FieldV| as_named_ty(f)),
    decreases fs.len(),
{
    reveal(Seq::filter);
    if fs.len() == 0 {
        assert(prop_fields(fs) =~= Seq::<FieldV>::empty());
        assert(required_prop_fields(fs) =~= Seq::<FieldV>::empty());
    } else {
        lemma_field_order_preservation(fs.drop_last());
        let f = fs.last();
        let m = |g: FieldV| as_named_ty(g);
        if f.kind is Prop {
            assert(prop_fields(fs) =~= prop_fields(fs.drop_last()).push(f));
            assert(prop_fields(fs).map_values(m) =~= prop_fields(fs.drop_last()).map_values(
                m,
            ).push(as_named_ty(f)));
        } else {
            assert(prop_fields(fs) =~= prop_fields(fs.drop_last()));
        }
        if prop_no_default(f) {
            assert(required_prop_fields(fs) =~= required_prop_fields(fs.drop_last()).push(f));
            assert(required_prop_fields(fs).map_values(m) =~= required_prop_fields(
                fs.drop_last(),
            ).map_values(m).push(as_named_ty(f)));
        } else {
            assert(required_prop_fields(fs) =~= required_prop_fields(fs.drop_last()));
        }
    }
}

/// Kind exclusivity: a `Signal`, `Global` or `Resource` parameter never
/// yields a struct field — appending one leaves the generated struct's
/// field list unchanged, so the struct holds fields for properties alone.
pub proof fn lemma_kind_exclusivity(fs: Seq<FieldV>, f: FieldV)
    requires
        !(f.kind is Prop),
    ensures
        spec_struct_fields(fs.push(f)) == spec_struct_fields(fs),
        spec_struct_fields(fs).len() == prop_fields(fs).len(),
{
    assert(fs.push(f).drop_last() =~= fs);
    lemma_field_order_preservation(fs);
}

/// Default idempotence: the pipeline is a function of its input alone, so
/// compiling the same declaration twice yields byte-identical output.
pub proof fn lemma_compile_deterministic(
    attr: Seq<TokV>,
    fv: FnDeclV,
    r1: Result<Seq<char>, DiagV>,
    r2: Result<Seq<char>, DiagV>,
)
    requires
        r1 == spec_renderable(attr, fv),
        r2 == spec_renderable(attr, fv),
    ensures
        r1 == r2,
{
}

/// Parent composition: the `parent` flag alone decides whether the
/// component definition carries the child collection and whether the
/// composition implementation is printed; without it, neither exists.
pub proof fn lemma_parent_composition(
    name: Seq<char>,
    body: Seq<char>,
    fs: Seq<FieldV>,
    c: ConfigV,
)
    ensures
        spec_component(name, body, fs, c).has_children == c.is_parent,
        spec_component(name, body, fs, c).struct_fields == spec_struct_fields(fs),
        !c.is_parent ==> spec_render_parent_impl(spec_component(name, body, fs, c))
            == Seq::<char>::empty(),
        c.is_parent ==> spec_render_parent_impl(spec_component(name, body, fs, c)).len() > 0,
{
    if c.is_parent {
        reveal_strlit("impl gpui::ParentElement for ");
    }
}

/// Render contract selection: the `once` flag alone selects the render
/// contract; no other flag moves the choice.
pub proof fn lemma_render_contract_selection(
    name: Seq<char>,
    body: Seq<char>,
    fs: Seq<FieldV>,
    c1: ConfigV,
    c2: ConfigV,
)
    requires
        c1.is_once == c2.is_once,
    ensures
        spec_component(name, body, fs, c1).render_once == c1.is_once,
        spec_component(name, body, fs, c1).render_once == spec_component(
            name,
            body,
            fs,
            c2,
        ).render_once,
        crate::codegen::spec_render_render_impl(spec_component(name, body, fs, c1))
            == crate::codegen::spec_render_render_impl(spec_component(name, body, fs, c2)),
{
}

/// The option names the attribute parser accepts.
pub open spec fn known_option(name: Seq<char>) -> bool {
    name == "derive"@ || known_flag(name)
}

/// Running the machine from a state over a token sequence.
pub open spec fn cfg_run_from(s: CfgState, ts: Seq<TokV>) -> CfgState
    decreases ts.len(),
{
    if ts.len() == 0 {
        s
    } else {
        cfg_step(cfg_run_from(s, ts.drop_last()), ts.last())
    }
}

/// A run from the initial state is the ordinary run.
pub proof fn lemma_run_is_run_from(ts: Seq<TokV>)
    ensures
        cfg_run(ts) == cfg_run_from(
            CfgState::Options { c: spec_default_config() },
            ts,
        ),
    decreases ts.len(),
{
    if ts.len() > 0 {
        lemma_run_is_run_from(ts.drop_last());
    }
}

/// Runs compose over concatenation.
pub proof fn lemma_run_from_add(s: CfgState, a: Seq<TokV>, b: Seq<TokV>)
    ensures
        cfg_run_from(s, a + b) == cfg_run_from(cfg_run_from(s, a), b),
    decreases b.len(),
{
    if b.len() == 0 {
        assert(a + b =~= a);
    } else {
        assert((a + b).drop_last() =~= a + b.drop_last());
        assert((a + b).last() == b.last());
        lemma_run_from_add(s, a, b.drop_last());
    }
}

/// A token is an option name outside the accepted set.
pub open spec fn unknown_name_tok(t: TokV) -> bool {
    t matches TokV::Ident(nm) && !known_option(nm)
}

/// A state doomed to end in a malformed-option diagnostic.
pub open spec fn doomed(s: CfgState) -> bool {
    ||| (s matches CfgState::Named { c, name } && unknown_name_tok(name))
    ||| (s matches CfgState::Group { c, name, inner } && unknown_name_tok(name))
    ||| (s matches CfgState::Failed { d } && d is MalformedConfigOption)
}

/// From a doomed state, whatever tokens follow, the machine finishes with a
/// malformed-option diagnostic.
pub proof fn lemma_doomed_sticky(s: CfgState, ts: Seq<TokV>)
    requires
        doomed(s),
    ensures
        cfg_finalize(cfg_run_from(s, ts)) matches Err(d) && d is MalformedConfigOption,
    decreases ts.len(),
{
    if ts.len() == 0 {
    } else {
        let t = ts[0];
        let s2 = cfg_step(s, t);
        assert(doomed(s2));
        assert(ts =~= seq![t] + ts.drop_first());
        lemma_run_from_add(s, seq![t], ts.drop_first());
        let ghost e: Seq<TokV> = Seq::empty();
        assert(cfg_run_from(s, e) == s);
        assert(seq![t].drop_last() =~= e);
        assert(seq![t].last() == t);
        assert(cfg_run_from(s, seq![t]) == cfg_step(cfg_run_from(s, seq![t].drop_last()), t));
        assert(cfg_run_from(s, seq![t]) == s2);
        lemma_doomed_sticky(s2, ts.drop_first());
    }
}

/// Unknown option rejection: wherever an option name outside
/// {`derive`, `parent`, `once`, `element`, `owned`, `mutable`} stands in the
/// list, parsing the configuration fails with a malformed-option
/// diagnostic, whatever precedes or follows it.
pub proof fn lemma_unknown_option_rejected(ts: Seq<TokV>, i: int)
    requires
        0 <= i < ts.len(),
        cfg_run(ts.take(i)) matches CfgState::Options { c },
        unknown_name_tok(ts[i]),
    ensures
        spec_parse_config(ts) matches Err(d) && d is MalformedConfigOption,
{
    let init = CfgState::Options { c: spec_default_config() };
    assert(ts.take(i + 1).drop_last() =~= ts.take(i));
    assert(ts.take(i + 1).last() == ts[i]);
    let s = cfg_run(ts.take(i + 1));
    assert(doomed(s));
    lemma_run_is_run_from(ts.take(i + 1));
    assert(ts =~= ts.take(i + 1) + ts.skip(i + 1));
    lemma_run_from_add(init, ts.take(i + 1), ts.skip(i + 1));
    lemma_doomed_sticky(s, ts.skip(i + 1));
    lemma_run_is_run_from(ts);
}

} // verus!
