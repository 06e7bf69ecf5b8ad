use eighx_ui::extensions::{Capabilities, Permissions};
use eighx_ui::theme::{Theme, ThemeBorder, ThemeColor, ThemeColors, ThemeState};
use eighx_ui::widgets::Block;

#[test]
fn default_palette_values() {
    let c = ThemeColors::default();
    assert_eq!(c.base, 0x1e1e2eff);
    assert_eq!(c.primary, 0xcba6f7ff);
    assert_eq!(c.info, 0x89b4faff);
}

#[test]
fn get_color_resolves_roles() {
    let t = Theme::default();
    assert_eq!(Theme::get_color(ThemeColor::Base, &t), 0x1e1e2eff);
    assert_eq!(Theme::get_color(ThemeColor::Crust, &t), 0x181825ff);
    assert_eq!(Theme::get_color(ThemeColor::Mantle, &t), 0x11111bff);
    assert_eq!(Theme::get_color(ThemeColor::Primary, &t), 0xcba6f7ff);
    assert_eq!(Theme::get_color(ThemeColor::Secondary, &t), 0xeba0acff);
    assert_eq!(Theme::get_color(ThemeColor::Tertiary, &t), 0x89dcebff);
}

#[test]
fn theme_state_wraps_theme() {
    let fresh = ThemeState::new();
    assert_eq!(fresh.inner.styles.block.border, 0);
    let mut custom = Theme::default();
    custom.styles.block.border = 2;
    let wrapped = ThemeState::with(custom);
    assert_eq!(wrapped.inner.styles.block.border, 2);
}

#[test]
fn block_builder_sets_background() {
    let b = Block::new();
    assert_eq!(b.bg, ThemeColor::Base);
    assert_eq!(b.border, ThemeBorder::Bare);
    assert!(b.round.is_none());
    let p = Block::bg(ThemeColor::Primary);
    assert_eq!(p.bg, ThemeColor::Primary);
    assert_eq!(p.border, ThemeBorder::Bare);
}

#[test]
fn extension_descriptors_exist() {
    let cap = Capabilities::Lang("rust");
    assert!(matches!(cap, Capabilities::Lang("rust")));
    let perm = Permissions::Networking;
    assert!(matches!(perm, Permissions::Networking));
}

#[test]
fn stylizer_resolves_background_and_border() {
    let t = Theme::default();
    let style = Theme::stylize(&t)
        .bg(ThemeColor::Base)
        .border(ThemeBorder::Colored(ThemeColor::Primary), Some(3))
        .into();
    assert_eq!(style.bg, Some(0x1e1e2eff));
    assert_eq!(style.border_width, Some(3));
    assert_eq!(style.border_color, Some(0xcba6f7ff));

    // an explicitly sized border wins over the fallback
    let sized = Theme::stylize(&t)
        .border(ThemeBorder::Sized(ThemeColor::Crust, 7), Some(3))
        .into();
    assert_eq!(sized.border_width, Some(7));
    assert_eq!(sized.border_color, Some(0x181825ff));

    // no fallback means one pixel
    let one = Theme::stylize(&t)
        .border(ThemeBorder::Colored(ThemeColor::Crust), None)
        .into();
    assert_eq!(one.border_width, Some(1));

    // a bare border leaves the style alone
    let bare = Theme::stylize(&t).border(ThemeBorder::Bare, Some(3)).into();
    assert_eq!(bare.border_width, None);
    assert_eq!(bare.border_color, None);
}

#[test]
fn ui_it_works() {
    let _ = eighx_ui::window::launch();
}
