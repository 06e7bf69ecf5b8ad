//! The attribute parser: the macro's own invocation arguments become a
//! configuration record.
//!
//! The input grammar is a comma-separated list of options; an option is an
//! identifier, optionally followed by a parenthesized group of tokens. Only
//! `derive` requires a group, and its group must be a comma-separated list of
//! trait paths. The parser is table-driven: a small state machine consumes
//! one token at a time, and its specification is the same machine at the
//! mathematical level.

use vstd::prelude::*;
use crate::diag::{Diagnostic, DiagV};
use crate::tokens::{clone_toks, str_eq, Tok, TokV};

verus! {

/// The configuration of one component definition, built once per invocation
/// and immutable thereafter.
pub struct MacroConfig {
    /// Extra trait paths to add to the derived output, kept verbatim as the
    /// token list written inside `derive(...)`.
    pub derive_traits: Option<Vec<Tok>>,
    pub is_parent: bool,
    pub is_once: bool,
    pub is_element: bool,
    pub is_mut: bool,
    pub is_owned: bool,
}

/// The mathematical model of a configuration.
#[verifier::ext_equal]
pub struct ConfigV {
    pub derive_traits: Option<Seq<TokV>>,
    pub is_parent: bool,
    pub is_once: bool,
    pub is_element: bool,
    pub is_mut: bool,
    pub is_owned: bool,
}

impl DeepView for MacroConfig {
    type V = ConfigV;

    open spec fn deep_view(&self) -> ConfigV {
        ConfigV {
            derive_traits: match self.derive_traits {
                Some(ts) => Some(ts.deep_view()),
                None => None,
            },
            is_parent: self.is_parent,
            is_once: self.is_once,
            is_element: self.is_element,
            is_mut: self.is_mut,
            is_owned: self.is_owned,
        }
    }
}

/// The default configuration: no extra traits, every flag false.
pub open spec fn spec_default_config() -> ConfigV {
    ConfigV {
        derive_traits: None,
        is_parent: false,
        is_once: false,
        is_element: false,
        is_mut: false,
        is_owned: false,
    }
}

impl Default for MacroConfig {
    fn default() -> (c: MacroConfig)
        ensures
            c.deep_view() == spec_default_config(),
    {
        MacroConfig {
            derive_traits: None,
            is_parent: false,
            is_once: false,
            is_element: false,
            is_mut: false,
            is_owned: false,
        }
    }
}

/// The bare keywords that set a boolean flag.
pub open spec fn known_flag(name: Seq<char>) -> bool {
    ||| name == "parent"@
    ||| name == "once"@
    ||| name == "element"@
    ||| name == "owned"@
    ||| name == "mutable"@
}

/// Setting a flag is idempotent: a duplicate keyword changes nothing more.
pub open spec fn spec_flag_set(c: ConfigV, name: Seq<char>) -> ConfigV {
    if name == "parent"@ {
        ConfigV { is_parent: true, ..c }
    } else if name == "once"@ {
        ConfigV { is_once: true, ..c }
    } else if name == "element"@ {
        ConfigV { is_element: true, ..c }
    } else if name == "owned"@ {
        ConfigV { is_owned: true, ..c }
    } else if name == "mutable"@ {
        ConfigV { is_mut: true, ..c }
    } else {
        c
    }
}

/// States of the trait-path-list grammar: `ε | path (',' path)* ','?` with
/// `path := ident ('::' ident)*`.
#[derive(Clone, Copy)]
pub enum PathListState {
    /// At a path boundary (start, or just after a comma).
    Boundary,
    /// Inside a path, just after an identifier.
    InPath,
    /// Just after a `::` separator.
    AfterSep,
    /// The input left the grammar.
    Bad,
}

pub open spec fn path_list_step(s: PathListState, t: TokV) -> PathListState {
    match s {
        PathListState::Boundary => match t {
            TokV::Ident(_) => PathListState::InPath,
            _ => PathListState::Bad,
        },
        PathListState::InPath => match t {
            TokV::PathSep => PathListState::AfterSep,
            TokV::Comma => PathListState::Boundary,
            _ => PathListState::Bad,
        },
        PathListState::AfterSep => match t {
            TokV::Ident(_) => PathListState::InPath,
            _ => PathListState::Bad,
        },
        PathListState::Bad => PathListState::Bad,
    }
}

pub open spec fn path_list_run(ts: Seq<TokV>) -> PathListState
    decreases ts.len(),
{
    if ts.len() == 0 {
        PathListState::Boundary
    } else {
        path_list_step(path_list_run(ts.drop_last()), ts.last())
    }
}

/// A token sequence forms a (possibly empty) comma-separated list of paths.
pub open spec fn is_path_list(ts: Seq<TokV>) -> bool {
    path_list_run(ts) is Boundary || path_list_run(ts) is InPath
}

fn path_list_step_exec(s: PathListState, t: &Tok) -> (r: PathListState)
    ensures
        r == path_list_step(s, t.deep_view()),
{
    match s {
        PathListState::Boundary => match t {
            Tok::Ident(_) => PathListState::InPath,
            _ => PathListState::Bad,
        },
        PathListState::InPath => match t {
            Tok::PathSep => PathListState::AfterSep,
            Tok::Comma => PathListState::Boundary,
            _ => PathListState::Bad,
        },
        PathListState::AfterSep => match t {
            Tok::Ident(_) => PathListState::InPath,
            _ => PathListState::Bad,
        },
        PathListState::Bad => PathListState::Bad,
    }
}

/// Checks the trait-path-list grammar.
pub fn check_path_list(ts: &Vec<Tok>) -> (r: bool)
    ensures
        r == is_path_list(ts.deep_view()),
{
    let ghost tv = ts.deep_view();
    let mut st = PathListState::Boundary;
    let mut i: usize = 0;
    while i < ts.len()
        invariant
            i <= ts.len(),
            tv == ts.deep_view(),
            st == path_list_run(tv.take(i as int)),
        decreases ts.len() - i,
    {
        proof {
            assert(tv.take(i + 1).drop_last() =~= tv.take(i as int));
            assert(tv.take(i + 1).last() == tv[i as int]);
        }
        st = path_list_step_exec(st, &ts[i]);
        i = i + 1;
    }
    proof {
        assert(tv.take(ts.len() as int) =~= tv);
    }
    match st {
        PathListState::Boundary => true,
        PathListState::InPath => true,
        _ => false,
    }
}

/// Dispatch of a bare (group-less) option by name.
pub open spec fn spec_apply_bare(c: ConfigV, name_tok: TokV) -> Result<ConfigV, DiagV> {
    match name_tok {
        TokV::Ident(name) => if name == "derive"@ {
            // `derive` demands a parenthesized list of traits.
            Err(DiagV::MalformedConfigOption { at: name_tok })
        } else if known_flag(name) {
            Ok(spec_flag_set(c, name))
        } else {
            Err(DiagV::MalformedConfigOption { at: name_tok })
        },
        _ => Err(DiagV::MalformedConfigOption { at: name_tok }),
    }
}

/// Dispatch of an option with a parenthesized group by name. A flag keyword
/// tolerates a group; `derive` demands a well-formed path list and replaces
/// any earlier list.
pub open spec fn spec_apply_grouped(c: ConfigV, name_tok: TokV, inner: Seq<TokV>) -> Result<
    ConfigV,
    DiagV,
> {
    match name_tok {
        TokV::Ident(name) => if name == "derive"@ {
            if is_path_list(inner) {
                Ok(ConfigV { derive_traits: Some(inner), ..c })
            } else {
                Err(DiagV::MalformedConfigOption { at: name_tok })
            }
        } else if known_flag(name) {
            Ok(spec_flag_set(c, name))
        } else {
            Err(DiagV::MalformedConfigOption { at: name_tok })
        },
        _ => Err(DiagV::MalformedConfigOption { at: name_tok }),
    }
}

/// States of the option-list machine.
#[verifier::ext_equal]
pub enum CfgState {
    /// At an option boundary: expecting an option name or the end.
    Options { c: ConfigV },
    /// After an option name: expecting `(`, a comma, or the end.
    Named { c: ConfigV, name: TokV },
    /// Inside a group: collecting tokens until `)`.
    Group { c: ConfigV, name: TokV, inner: Seq<TokV> },
    /// After a closed group: expecting a comma or the end.
    AfterGroup { c: ConfigV },
    /// A diagnostic was raised; it absorbs the rest of the input.
    Failed { d: DiagV },
}

pub open spec fn cfg_step(s: CfgState, t: TokV) -> CfgState {
    match s {
        CfgState::Options { c } => match t {
            TokV::Ident(_) => CfgState::Named { c, name: t },
            _ => CfgState::Failed { d: DiagV::MalformedConfigOption { at: t } },
        },
        CfgState::Named { c, name } => match t {
            TokV::LParen => CfgState::Group { c, name, inner: Seq::empty() },
            TokV::Comma => match spec_apply_bare(c, name) {
                Ok(c2) => CfgState::Options { c: c2 },
                Err(d) => CfgState::Failed { d },
            },
            _ => CfgState::Failed { d: DiagV::MalformedConfigOption { at: t } },
        },
        CfgState::Group { c, name, inner } => match t {
            TokV::RParen => match spec_apply_grouped(c, name, inner) {
                Ok(c2) => CfgState::AfterGroup { c: c2 },
                Err(d) => CfgState::Failed { d },
            },
            TokV::LParen => CfgState::Failed { d: DiagV::MalformedConfigOption { at: t } },
            _ => CfgState::Group { c, name, inner: inner.push(t) },
        },
        CfgState::AfterGroup { c } => match t {
            TokV::Comma => CfgState::Options { c },
            _ => CfgState::Failed { d: DiagV::MalformedConfigOption { at: t } },
        },
        CfgState::Failed { d } => CfgState::Failed { d },
    }
}

pub open spec fn cfg_run(ts: Seq<TokV>) -> CfgState
    decreases ts.len(),
{
    if ts.len() == 0 {
        CfgState::Options { c: spec_default_config() }
    } else {
        cfg_step(cfg_run(ts.drop_last()), ts.last())
    }
}

pub open spec fn cfg_finalize(s: CfgState) -> Result<ConfigV, DiagV> {
    match s {
        CfgState::Options { c } => Ok(c),
        CfgState::Named { c, name } => spec_apply_bare(c, name),
        CfgState::Group { c, name, inner } => Err(DiagV::MalformedConfigOption { at: name }),
        CfgState::AfterGroup { c } => Ok(c),
        CfgState::Failed { d } => Err(d),
    }
}

/// What the attribute parser returns for a given token sequence: the empty
/// input yields the default configuration, and the first diagnostic wins.
pub open spec fn spec_parse_config(ts: Seq<TokV>) -> Result<ConfigV, DiagV> {
    cfg_finalize(cfg_run(ts))
}

/// A failed state absorbs every later token.
pub proof fn lemma_cfg_failed_persists(ts: Seq<TokV>, i: int, d: DiagV)
    requires
        0 <= i <= ts.len(),
        cfg_run(ts.take(i)) == (CfgState::Failed { d }),
    ensures
        cfg_run(ts) == (CfgState::Failed { d }),
    decreases ts.len() - i,
{
    if i < ts.len() {
        assert(ts.take(i + 1).drop_last() =~= ts.take(i));
        assert(ts.take(i + 1).last() == ts[i]);
        assert(cfg_run(ts.take(i + 1)) == (CfgState::Failed { d }));
        lemma_cfg_failed_persists(ts, i + 1, d);
    } else {
        assert(ts.take(i) =~= ts);
    }
}

/// The exec counterpart of the machine's control state; the data lives in
/// ordinary locals.
#[derive(Clone, Copy)]
enum CfgMode {
    Options,
    Named,
    Group,
    AfterGroup,
}

/// Ties the exec locals to the machine state they stand for.
spec fn cfg_exec_state(m: CfgMode, c: ConfigV, name: TokV, inner: Seq<TokV>) -> CfgState {
    match m {
        CfgMode::Options => CfgState::Options { c },
        CfgMode::Named => CfgState::Named { c, name },
        CfgMode::Group => CfgState::Group { c, name, inner },
        CfgMode::AfterGroup => CfgState::AfterGroup { c },
    }
}

/// Maps an exec parse result onto the model plane.
pub open spec fn cfg_result_view(r: Result<MacroConfig, Diagnostic>) -> Result<ConfigV, DiagV> {
    match r {
        Ok(c) => Ok(c.deep_view()),
        Err(d) => Err(d.deep_view()),
    }
}

/// Applies a bare option to the configuration.
fn apply_bare(config: &mut MacroConfig, name_tok: &Tok) -> (r: Result<(), Diagnostic>)
    ensures
        match spec_apply_bare(old(config).deep_view(), name_tok.deep_view()) {
            Ok(cv) => r is Ok && final(config).deep_view() == cv,
            Err(dv) => (r matches Err(d) && d.deep_view() == dv) && final(config).deep_view()
                == old(config).deep_view(),
        },
{
    match name_tok {
        Tok::Ident(name) => {
            if str_eq(name, "derive") {
                Err(Diagnostic::MalformedConfigOption { at: name_tok.clone() })
            } else if str_eq(name, "parent") {
                config.is_parent = true;
                Ok(())
            } else if str_eq(name, "once") {
                config.is_once = true;
                Ok(())
            } else if str_eq(name, "element") {
                config.is_element = true;
                Ok(())
            } else if str_eq(name, "owned") {
                config.is_owned = true;
                Ok(())
            } else if str_eq(name, "mutable") {
                config.is_mut = true;
                Ok(())
            } else {
                Err(Diagnostic::MalformedConfigOption { at: name_tok.clone() })
            }
        },
        _ => Err(Diagnostic::MalformedConfigOption { at: name_tok.clone() }),
    }
}

/// Applies an option that came with a parenthesized group.
fn apply_grouped(config: &mut MacroConfig, name_tok: &Tok, inner: &Vec<Tok>) -> (r: Result<
    (),
    Diagnostic,
>)
    ensures
        match spec_apply_grouped(
            old(config).deep_view(),
            name_tok.deep_view(),
            inner.deep_view(),
        ) {
            Ok(cv) => r is Ok && final(config).deep_view() == cv,
            Err(dv) => (r matches Err(d) && d.deep_view() == dv) && final(config).deep_view()
                == old(config).deep_view(),
        },
{
    match name_tok {
        Tok::Ident(name) => {
            if str_eq(name, "derive") {
                if check_path_list(inner) {
                    config.derive_traits = Some(clone_toks(inner));
                    Ok(())
                } else {
                    Err(Diagnostic::MalformedConfigOption { at: name_tok.clone() })
                }
            } else {
                apply_bare(config, name_tok)
            }
        },
        _ => Err(Diagnostic::MalformedConfigOption { at: name_tok.clone() }),
    }
}

impl MacroConfig {
    /// Parses the raw token sequence supplied to the macro invocation.
    ///
    /// The empty input yields the default configuration; otherwise the input
    /// must be a comma-separated list of options, each dispatched by name,
    /// and the first diagnostic encountered is returned.
    pub fn parse(toks: &Vec<Tok>) -> (r: Result<MacroConfig, Diagnostic>)
        ensures
            cfg_result_view(r) == spec_parse_config(toks.deep_view()),
    {
        let ghost tv = toks.deep_view();
        let mut config = MacroConfig::default();
        let mut mode = CfgMode::Options;
        let mut name_tok = Tok::Comma;  // placeholder until a name is seen
        let mut inner: Vec<Tok> = Vec::new();
        let mut i: usize = 0;
        while i < toks.len()
            invariant
                i <= toks.len(),
                tv == toks.deep_view(),
                cfg_run(tv.take(i as int)) == cfg_exec_state(
                    mode,
                    config.deep_view(),
                    name_tok.deep_view(),
                    inner.deep_view(),
                ),
            decreases toks.len() - i,
        {
            let t = &toks[i];
            proof {
                assert(tv.take(i + 1).drop_last() =~= tv.take(i as int));
                assert(tv.take(i + 1).last() == tv[i as int]);
            }
            match mode {
                CfgMode::Options => match t {
                    Tok::Ident(_) => {
                        name_tok = t.clone();
                        mode = CfgMode::Named;
                    },
                    _ => {
                        let d = Diagnostic::MalformedConfigOption { at: t.clone() };
                        proof {
                            lemma_cfg_failed_persists(tv, i + 1, d.deep_view());
                        }
                        return Err(d);
                    },
                },
                CfgMode::Named => match t {
                    Tok::LParen => {
                        inner = Vec::new();
                        mode = CfgMode::Group;
                        proof {
                            assert(inner.deep_view() =~= Seq::<TokV>::empty());
                        }
                    },
                    Tok::Comma => match apply_bare(&mut config, &name_tok) {
                        Ok(_) => {
                            mode = CfgMode::Options;
                        },
                        Err(d) => {
                            proof {
                                lemma_cfg_failed_persists(tv, i + 1, d.deep_view());
                            }
                            return Err(d);
                        },
                    },
                    _ => {
                        let d = Diagnostic::MalformedConfigOption { at: t.clone() };
                        proof {
                            lemma_cfg_failed_persists(tv, i + 1, d.deep_view());
                        }
                        return Err(d);
                    },
                },
                CfgMode::Group => match t {
                    Tok::RParen => match apply_grouped(&mut config, &name_tok, &inner) {
                        Ok(_) => {
                            mode = CfgMode::AfterGroup;
                        },
                        Err(d) => {
                            proof {
                                lemma_cfg_failed_persists(tv, i + 1, d.deep_view());
                            }
                            return Err(d);
                        },
                    },
                    Tok::LParen => {
                        let d = Diagnostic::MalformedConfigOption { at: t.clone() };
                        proof {
                            lemma_cfg_failed_persists(tv, i + 1, d.deep_view());
                        }
                        return Err(d);
                    },
                    _ => {
                        inner.push(t.clone());
                        proof {
                            assert(inner.deep_view() =~= cfg_run(
                                tv.take(i + 1),
                            )->Group_inner);
                        }
                    },
                },
                CfgMode::AfterGroup => match t {
                    Tok::Comma => {
                        mode = CfgMode::Options;
                    },
                    _ => {
                        let d = Diagnostic::MalformedConfigOption { at: t.clone() };
                        proof {
                            lemma_cfg_failed_persists(tv, i + 1, d.deep_view());
                        }
                        return Err(d);
                    },
                },
            }
            i = i + 1;
        }
        proof {
            assert(tv.take(toks.len() as int) =~= tv);
        }
        match mode {
            CfgMode::Options => Ok(config),
            CfgMode::AfterGroup => Ok(config),
            CfgMode::Named => match apply_bare(&mut config, &name_tok) {
                Ok(_) => Ok(config),
                Err(d) => Err(d),
            },
            CfgMode::Group => Err(Diagnostic::MalformedConfigOption { at: name_tok }),
        }
    }
}

} // verus!
