use eighx_ui::codegen::{build_component, expand_renderable, renderable};
use eighx_ui::config::MacroConfig;
use eighx_ui::diag::Diagnostic;
use eighx_ui::fields::{extract_fields, Field, FieldKind, FnDecl, Param, ParamAttr, PatKind};
use eighx_ui::tokens::Tok;

fn id(s: &str) -> Tok {
    Tok::Ident(s.to_string())
}

fn grouped(inner: Vec<Tok>) -> Vec<Tok> {
    let mut v = vec![Tok::LParen];
    v.extend(inner);
    v.push(Tok::RParen);
    v
}

fn attr(name: &str, rest: Vec<Tok>) -> ParamAttr {
    ParamAttr { name: name.to_string(), rest }
}

fn ident_param(name: &str, ty: &str, attrs: Vec<ParamAttr>) -> Param {
    Param { pat: PatKind::Ident(name.to_string()), ty: ty.to_string(), attrs }
}

fn decl(name: &str, params: Vec<Param>, body: &str) -> FnDecl {
    FnDecl { name: name.to_string(), params, body: body.to_string() }
}

fn compile(config: Vec<Tok>, func: &FnDecl) -> Result<String, Diagnostic> {
    renderable(&config, func)
}

#[test]
fn empty_config_empty_params_exact_output() {
    let func = decl("Empty", vec![], "div()");
    let out = compile(vec![], &func).unwrap();
    let expected = "pub struct Empty {\n}\n\nimpl Empty {\n    pub fn new() -> Self {\n        Self {\n        }\n    }\n\n    pub fn globals(&self, cx: &mut gpui::App) {\n    }\n}\n\nimpl gpui::Render for Empty {\n    fn render(&mut self, window: &mut gpui::Window, cx: &mut gpui::Context<Self>) -> impl gpui::IntoElement {\n        div()\n    }\n}\n";
    assert_eq!(out, expected);
}

fn block_decl() -> FnDecl {
    decl(
        "Block",
        vec![
            ident_param(
                "bg",
                "ThemeColor",
                vec![attr("prop", grouped(vec![id("ThemeColor"), Tok::PathSep, id("Base")]))],
            ),
            ident_param(
                "border",
                "ThemeBorder",
                vec![attr("prop", grouped(vec![id("ThemeBorder"), Tok::PathSep, id("None")]))],
            ),
        ],
        "Theme::stylize(div(), theme).bg(self.bg).into()",
    )
}

#[test]
fn element_owned_once_component() {
    let config = vec![id("element"), Tok::Comma, id("owned"), Tok::Comma, id("once")];
    let out = compile(config, &block_decl()).unwrap();
    // two public fields, in declaration order
    assert!(out.contains("pub struct Block {\n    pub bg: ThemeColor,\n    pub border: ThemeBorder,\n}"));
    // both properties carry defaults, so the constructor takes no arguments
    assert!(out.contains("pub fn new() -> Self"));
    assert!(out.contains("            bg: ThemeColor::Base,\n"));
    assert!(out.contains("            border: ThemeBorder::None,\n"));
    // by-value render under the stateless context
    assert!(out.contains("impl gpui::RenderOnce for Block"));
    assert!(out.contains("fn render(mut self, window: &mut gpui::Window, cx: &mut gpui::App)"));
    // element derive
    assert!(out.contains("#[derive(gpui::IntoElement)]\n"));
    // no composition implementation without `parent`
    assert!(!out.contains("ParentElement"));
    assert!(!out.contains("children"));
}

#[test]
fn global_default_parameter() {
    let func = decl(
        "UIRoot",
        vec![ident_param("_theme", "ThemeState", vec![attr("global", grouped(vec![id("default")]))])],
        "div()",
    );
    let out = compile(vec![], &func).unwrap();
    // no struct field
    assert!(out.contains("pub struct UIRoot {\n}"));
    // one installer statement with the type's default value
    assert!(out.contains("        cx.set_global::<ThemeState>(Default::default());\n"));
    // one fetch binding under the parameter's name
    assert!(out.contains("        let _theme = cx.global::<ThemeState>();\n"));
}

#[test]
fn unknown_config_option_rejected() {
    let func = decl("Empty", vec![], "div()");
    match compile(vec![id("foo")], &func) {
        Err(Diagnostic::MalformedConfigOption { .. }) => {},
        _ => panic!("expected a malformed-option diagnostic"),
    }
    // position in the list does not matter
    match compile(vec![id("parent"), Tok::Comma, id("foo")], &func) {
        Err(Diagnostic::MalformedConfigOption { .. }) => {},
        _ => panic!("expected a malformed-option diagnostic"),
    }
    match compile(vec![id("foo"), Tok::Comma, id("parent")], &func) {
        Err(Diagnostic::MalformedConfigOption { .. }) => {},
        _ => panic!("expected a malformed-option diagnostic"),
    }
}

#[test]
fn destructured_annotated_param_rejected() {
    let func = decl(
        "Pairy",
        vec![Param {
            pat: PatKind::Other("(a, b)".to_string()),
            ty: "(i32, i32)".to_string(),
            attrs: vec![attr("prop", vec![])],
        }],
        "div()",
    );
    match compile(vec![], &func) {
        Err(Diagnostic::UnsupportedParameterPattern { .. }) => {},
        _ => panic!("expected an unsupported-pattern diagnostic"),
    }
}

#[test]
fn destructured_unannotated_param_skipped() {
    let func = decl(
        "Pairy",
        vec![Param {
            pat: PatKind::Other("(a, b)".to_string()),
            ty: "(i32, i32)".to_string(),
            attrs: vec![],
        }],
        "div()",
    );
    let out = compile(vec![], &func).unwrap();
    assert!(out.contains("pub struct Pairy {\n}"));
}

#[test]
fn parent_composition() {
    let func = decl(
        "UIRoot",
        vec![ident_param("_theme", "ThemeState", vec![attr("global", grouped(vec![id("default")]))])],
        "div().children(self.children)",
    );
    let out = compile(vec![id("parent")], &func).unwrap();
    // exactly one extra collection field, seeded empty by the constructor
    assert_eq!(out.matches("children: Vec<gpui::AnyElement>,").count(), 1);
    assert_eq!(out.matches("children: Vec::new(),").count(), 1);
    // exactly one composition implementation, appending in order
    assert_eq!(out.matches("impl gpui::ParentElement for UIRoot").count(), 1);
    assert!(out.contains("self.children.extend(elements.into_iter())"));

    // without the flag: neither the field nor the implementation
    let plain = compile(vec![], &func).unwrap();
    assert!(!plain.contains("children: Vec<gpui::AnyElement>,"));
    assert!(!plain.contains("children: Vec::new(),"));
    assert!(!plain.contains("ParentElement"));
}

#[test]
fn default_idempotence() {
    let config = vec![id("element"), Tok::Comma, id("once")];
    let func = decl(
        "Twice",
        vec![ident_param("n", "u32", vec![attr("prop", grouped(vec![id("default")]))])],
        "div()",
    );
    let first = compile(config.clone(), &func).unwrap();
    let second = compile(config, &func).unwrap();
    assert_eq!(first, second);
}

#[test]
fn field_order_preservation() {
    let func = decl(
        "Ordered",
        vec![
            ident_param("a", "u8", vec![attr("prop", vec![])]),
            ident_param("s", "Sig", vec![attr("signal", grouped(vec![id("clicks")]))]),
            ident_param("b", "u16", vec![attr("prop", grouped(vec![id("default")]))]),
            ident_param("plain", "u64", vec![]),
            ident_param("c", "u32", vec![attr("prop", vec![])]),
        ],
        "div()",
    );
    let config = MacroConfig::parse(&vec![]).unwrap();
    let fields = extract_fields(&func).unwrap();
    let cd = build_component(&func.name, &func.body, &fields, &config);
    let names: Vec<&str> = cd.struct_fields.iter().map(|f| f.name.as_str()).collect();
    assert_eq!(names, vec!["a", "b", "c"]);
    let params: Vec<&str> = cd.ctor_params.iter().map(|f| f.name.as_str()).collect();
    assert_eq!(params, vec!["a", "c"]);
}

#[test]
fn kind_exclusivity() {
    let func = decl(
        "Mixed",
        vec![
            ident_param("p", "u8", vec![attr("prop", vec![])]),
            ident_param("s", "Sig", vec![attr("signal", grouped(vec![id("clicks")]))]),
            ident_param("g", "G", vec![attr("global", vec![])]),
            ident_param("r", "R", vec![attr("resource", grouped(vec![id("loader")]))]),
        ],
        "div()",
    );
    let config = MacroConfig::parse(&vec![]).unwrap();
    let fields = extract_fields(&func).unwrap();
    assert_eq!(fields.len(), 4);
    let cd = build_component(&func.name, &func.body, &fields, &config);
    // only the property becomes struct storage
    assert_eq!(cd.struct_fields.len(), 1);
    assert_eq!(cd.struct_fields[0].name.as_str(), "p");
    // a signal is recorded but emits nothing
    assert!(matches!(fields[1].kind, FieldKind::Signal { .. }));
    let out = expand_renderable(&func, &config).unwrap();
    assert!(!out.contains("clicks"));
    // bare global installs nothing but is fetched in the prologue
    assert_eq!(cd.globals.len(), 1); // the resource's loader statement alone
    assert_eq!(cd.prologue.len(), 2);
    assert!(out.contains("        cx.set_global(loader::load(cx));\n"));
    assert!(out.contains("        let g = cx.global::<G>();\n"));
    assert!(out.contains("        let r = cx.global::<R>();\n"));
}

#[test]
fn render_contract_selection() {
    let func = decl("Pick", vec![], "div()");
    let stateless = compile(vec![id("once")], &func).unwrap();
    assert!(stateless.contains("impl gpui::RenderOnce for Pick"));
    assert!(stateless.contains("fn render(mut self,"));
    assert!(stateless.contains("cx: &mut gpui::App"));

    let stateful = compile(vec![], &func).unwrap();
    assert!(stateful.contains("impl gpui::Render for Pick"));
    assert!(stateful.contains("fn render(&mut self,"));
    assert!(stateful.contains("cx: &mut gpui::Context<Self>"));

    // other flags leave the choice alone
    let with_flags = compile(vec![id("element"), Tok::Comma, id("owned"), Tok::Comma, id("mutable")], &func).unwrap();
    assert!(with_flags.contains("impl gpui::Render for Pick"));
    let with_flags_once = compile(
        vec![id("element"), Tok::Comma, id("owned"), Tok::Comma, id("once")],
        &func,
    )
    .unwrap();
    assert!(with_flags_once.contains("impl gpui::RenderOnce for Pick"));
}

#[test]
fn derive_handling() {
    let func = decl("Derived", vec![], "div()");
    let out = compile(
        vec![
            id("element"),
            Tok::Comma,
            id("derive"),
            Tok::LParen,
            id("Debug"),
            Tok::Comma,
            id("Clone"),
            Tok::RParen,
        ],
        &func,
    )
    .unwrap();
    assert!(out.contains("#[derive(gpui::IntoElement, Debug, Clone)]\n"));

    let plain = compile(
        vec![id("derive"), Tok::LParen, id("Debug"), Tok::RParen],
        &func,
    )
    .unwrap();
    assert!(plain.contains("#[derive(Debug)]\npub struct Derived"));

    // derive demands a parenthesized list
    match compile(vec![id("derive")], &func) {
        Err(Diagnostic::MalformedConfigOption { .. }) => {},
        _ => panic!("expected a malformed-option diagnostic"),
    }
}

#[test]
fn invalid_attribute_shape_rejected() {
    // `#[prop = x]` is not an accepted shape
    let func = decl(
        "Shapes",
        vec![ident_param(
            "x",
            "u8",
            vec![attr("prop", vec![Tok::Punct("=".to_string()), id("x")])],
        )],
        "div()",
    );
    match compile(vec![], &func) {
        Err(Diagnostic::InvalidAttributeShape { .. }) => {},
        _ => panic!("expected an invalid-shape diagnostic"),
    }
    // a group that is not one expression
    let func2 = decl(
        "Shapes",
        vec![ident_param(
            "x",
            "u8",
            vec![attr("prop", grouped(vec![id("a"), id("b")]))],
        )],
        "div()",
    );
    match compile(vec![], &func2) {
        Err(Diagnostic::InvalidAttributeShape { .. }) => {},
        _ => panic!("expected an invalid-shape diagnostic"),
    }
}

#[test]
fn missing_required_argument_rejected() {
    let func = decl(
        "Signals",
        vec![ident_param("s", "Sig", vec![attr("signal", vec![])])],
        "div()",
    );
    match compile(vec![], &func) {
        Err(Diagnostic::MissingRequiredAttributeArgument { .. }) => {},
        _ => panic!("expected a missing-argument diagnostic"),
    }
    let func2 = decl(
        "Loads",
        vec![ident_param("r", "Res", vec![attr("resource", grouped(vec![]))])],
        "div()",
    );
    match compile(vec![], &func2) {
        Err(Diagnostic::MissingRequiredAttributeArgument { .. }) => {},
        _ => panic!("expected a missing-argument diagnostic"),
    }
}

#[test]
fn first_recognized_annotation_wins() {
    let func = decl(
        "Multi",
        vec![ident_param(
            "x",
            "u8",
            vec![attr("global", vec![]), attr("prop", vec![])],
        )],
        "div()",
    );
    let config = MacroConfig::parse(&vec![]).unwrap();
    let fields = extract_fields(&func).unwrap();
    assert!(matches!(fields[0].kind, FieldKind::Global { .. }));
}

#[test]
fn prop_expression_kept_verbatim() {
    let func = decl(
        "Verbatim",
        vec![ident_param(
            "x",
            "Option<u8>",
            vec![attr("prop", grouped(vec![id("Some"), Tok::LParen, Tok::Lit("3".to_string()), Tok::RParen]))],
        )],
        "div()",
    );
    let out = compile(vec![], &func).unwrap();
    assert!(out.contains("            x: Some(3),\n"));
}

#[test]
fn default_keyword_expands_to_type_default() {
    let func = decl(
        "Defaulted",
        vec![ident_param("n", "u32", vec![attr("prop", grouped(vec![id("default")]))])],
        "div()",
    );
    let out = compile(vec![], &func).unwrap();
    assert!(out.contains("            n: Default::default(),\n"));
    // the constructor takes no argument for a defaulted property
    assert!(out.contains("pub fn new() -> Self"));
}

#[test]
fn global_expression_installed() {
    let func = decl(
        "Dark",
        vec![ident_param(
            "theme",
            "Theme",
            vec![attr(
                "global",
                grouped(vec![id("Theme"), Tok::PathSep, id("dark"), Tok::LParen, Tok::RParen]),
            )],
        )],
        "div()",
    );
    let out = compile(vec![], &func).unwrap();
    assert!(out.contains("        cx.set_global::<Theme>(Theme::dark());\n"));
    assert!(out.contains("        let theme = cx.global::<Theme>();\n"));
}

#[test]
fn resource_loader_path_rendered() {
    let func = decl(
        "Assets",
        vec![ident_param(
            "icons",
            "IconSet",
            vec![attr(
                "resource",
                grouped(vec![id("assets"), Tok::PathSep, id("icons")]),
            )],
        )],
        "div()",
    );
    let out = compile(vec![], &func).unwrap();
    assert!(out.contains("        cx.set_global(assets::icons::load(cx));\n"));
    assert!(out.contains("        let icons = cx.global::<IconSet>();\n"));
}

#[test]
fn diagnostic_messages() {
    let func = decl("Empty", vec![], "div()");
    let d = compile(vec![id("foo")], &func).unwrap_err();
    assert_eq!(d.message(), "unknown or malformed configuration option: foo");
    let func2 = decl(
        "Signals",
        vec![ident_param("s", "Sig", vec![attr("signal", vec![])])],
        "div()",
    );
    let d2 = compile(vec![], &func2).unwrap_err();
    assert_eq!(
        d2.message(),
        "missing required argument of signal attribute on parameter s"
    );
}

#[test]
fn duplicate_flags_idempotent() {
    let func = decl("Dup", vec![], "div()");
    let once = compile(vec![id("parent")], &func).unwrap();
    let twice = compile(vec![id("parent"), Tok::Comma, id("parent")], &func).unwrap();
    assert_eq!(once, twice);
}

#[test]
fn trailing_comma_accepted() {
    let func = decl("Trail", vec![], "div()");
    let out = compile(vec![id("once"), Tok::Comma], &func).unwrap();
    assert!(out.contains("RenderOnce"));
}
