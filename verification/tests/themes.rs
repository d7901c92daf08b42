use lazysql::themes::builtin::{collect_by_name, fallback_theme, find_by_name};
use lazysql::themes::palette::{parse_hex_color, Color, RawTheme, RawThemeColors, Theme};
use lazysql::themes::picker::ThemePickerState;
use lazysql::themes::storage::{combine_errors, load_builtin, load_inline, load_parsed, theme_file_content};

fn picker(names: &[&str]) -> ThemePickerState {
    ThemePickerState::new(names.iter().map(|name| (*name).to_string()).collect())
}

#[test]
fn filters_theme_names() {
    let mut state = picker(&["Solarized Dark", "Gruvbox", "Solarized Light"]);
    state.push_query('s');
    state.push_query('o');
    state.push_query('l');
    assert_eq!(state.filtered_names(), vec!["Solarized Dark", "Solarized Light"]);
}

#[test]
fn selection_clamps_after_filtering() {
    let mut state = picker(&["Alpha", "Beta", "Gamma"]);
    state.move_prev();
    state.push_query('b');
    assert_eq!(state.selected, 0);
    assert_eq!(state.selected_name(), Some("Beta"));
}

#[test]
fn cancel_closes_without_selection() {
    let mut state = picker(&["Alpha", "Beta"]);
    state.open();
    state.push_query('b');
    state.cancel();
    assert!(!state.open);
    assert!(state.query.is_empty());
    assert_eq!(state.selected, 0);
}

#[test]
fn move_prev_wraps_from_first_to_last() {
    let mut state = picker(&["Alpha", "Beta", "Gamma"]);
    state.move_prev();
    assert_eq!(state.selected_name(), Some("Gamma"));
}

#[test]
fn empty_filtered_list_returns_no_selected_name_and_movement_does_not_panic() {
    let mut state = picker(&["Alpha", "Beta"]);
    state.push_query('z');
    state.move_next();
    state.move_prev();
    assert_eq!(state.filtered_names(), Vec::<&str>::new());
    assert_eq!(state.selected_name(), None);
}

#[test]
fn picker_sorts_names_by_code_point() {
    let state = picker(&["gruvbox", "Dracula", "everforest"]);
    assert_eq!(state.filtered_names(), vec!["Dracula", "everforest", "gruvbox"]);
}

#[test]
fn set_names_resorts_and_clamps() {
    let mut state = picker(&["a", "b", "c"]);
    state.move_prev();
    assert_eq!(state.selected, 2);
    state.set_names(vec!["z".to_string(), "y".to_string()]);
    assert_eq!(state.selected, 1);
    assert_eq!(state.selected_name(), Some("z"));
}

#[test]
fn parses_valid_hex_color() {
    assert_eq!(parse_hex_color("#1d2021").unwrap(), Color::Rgb(0x1d, 0x20, 0x21));
    assert_eq!(parse_hex_color("#FFaa09").unwrap(), Color::Rgb(0xff, 0xaa, 0x09));
}

#[test]
fn rejects_malformed_hex_color() {
    assert!(parse_hex_color("1d2021").is_err());
    assert!(parse_hex_color("#12345").is_err());
    assert!(parse_hex_color("#xx2021").is_err());
    assert!(parse_hex_color("#1234567").is_err());
    assert_eq!(parse_hex_color("red").unwrap_err().0, "invalid color: red");
}

fn raw_colors(bg2: &str) -> RawThemeColors {
    RawThemeColors {
        primary: "#282828".into(),
        secondary: "#ebdbb2".into(),
        bg0: "#000000".into(),
        bg1: "#111111".into(),
        bg2: bg2.into(),
        bg_sel: "#444444".into(),
        fg0: "#ffffff".into(),
        fg1: "#c0c0c0".into(),
        fg2: "#808080".into(),
        red: "#ff5555".into(),
        green: "#50fa7b".into(),
        yellow: "#f1fa8c".into(),
        blue: "#8be9fd".into(),
        aqua: "#8be9fd".into(),
        orange: "#ffb86c".into(),
        purple: "#bd93f9".into(),
    }
}

fn theme(name: &str) -> Theme {
    Theme::try_from(RawTheme { name: name.into(), colors: raw_colors("#333333") }).unwrap()
}

#[test]
fn converts_complete_toml_theme() {
    let raw = RawTheme { name: "test".into(), colors: raw_colors("#333333") };
    let theme = Theme::try_from(raw).unwrap();
    assert_eq!(theme.name, "test");
    assert_eq!(theme.colors.bg_sel, Color::Rgb(0x44, 0x44, 0x44));
    assert_eq!(theme.colors.bg2, Color::Rgb(0x33, 0x33, 0x33));
}

#[test]
fn invalid_color_reports_the_field_name() {
    let raw = RawTheme { name: "broken".into(), colors: raw_colors("bad") };
    let err = Theme::try_from(raw).unwrap_err();
    assert_eq!(err.0, "invalid color for bg3");
    let mut colors = raw_colors("bad");
    colors.primary = "nope".into();
    let err = Theme::try_from(RawTheme { name: "x".into(), colors }).unwrap_err();
    assert_eq!(err.to_string(), "invalid color for primary");
}

#[test]
fn fallback_theme_returns_gruvbox() {
    assert_eq!(fallback_theme().name, "gruvbox");
    assert_eq!(fallback_theme().colors.bg0, Color::Rgb(0x1d, 0x20, 0x21));
}

#[test]
fn find_by_name_is_exact_and_takes_the_first() {
    let themes = vec![theme("gruvbox"), theme("solarized")];
    assert_eq!(find_by_name(&themes, "solarized").unwrap().name, "solarized");
    assert!(find_by_name(&themes, "Solarized").is_none());
}

#[test]
fn loads_themes_from_directory_sorted_by_name() {
    let mut zeta = theme("zeta");
    zeta.colors.red = Color::Rgb(1, 1, 1);
    let mut later_zeta = theme("zeta");
    later_zeta.colors.red = Color::Rgb(2, 2, 2);
    let themes = collect_by_name(vec![zeta, theme("alpha"), later_zeta]);
    let names: Vec<&str> = themes.iter().map(|t| t.name.as_str()).collect();
    assert_eq!(names, vec!["alpha", "zeta"]);
    assert_eq!(themes[1].colors.red, Color::Rgb(2, 2, 2));
}

#[test]
fn creates_default_theme_config_with_examples() {
    let content = theme_file_content("gruvbox");
    assert!(content.starts_with("theme = \"gruvbox\""));
    assert!(content.contains("# Built-in themes"));
    assert!(content.contains("# theme = \"gruvbox\""));
    assert!(content.contains("# theme = \"gruvbox-material\""));
    assert!(content.contains("# theme = \"gruvbox-baby\""));
    assert!(content.contains("# theme = \"everforest\""));
    assert!(content.contains("# theme = \"dracula\""));
    assert!(content.contains("# theme = \"tokyo-night\""));
    assert!(content.contains("# theme = \"catppuccin-mocha\""));
    assert!(content.contains("# Full custom theme example"));
    assert!(content.contains("# [colors]"));
}

#[test]
fn loads_selected_builtin_theme() {
    let themes = vec![theme("gruvbox"), theme("solarized")];
    let loaded = load_parsed(&themes, Ok(Some("solarized".into())), Err("unused".into()));
    assert_eq!(loaded.theme.name, "solarized");
    assert_eq!(loaded.error, None);
}

#[test]
fn falls_back_for_unknown_builtin_theme_with_error_string() {
    let themes = vec![theme("gruvbox")];
    let loaded = load_builtin(&themes, "missing");
    assert_eq!(loaded.theme.name, "gruvbox");
    assert_eq!(loaded.error, Some("unknown theme: missing".to_string()));
}

#[test]
fn loads_inline_custom_theme() {
    let raw = RawTheme { name: "midnight".into(), colors: raw_colors("#333333") };
    let loaded = load_parsed(&[theme("gruvbox")], Ok(None), Ok(raw));
    assert_eq!(loaded.theme.name, "midnight");
    assert_eq!(loaded.error, None);
}

#[test]
fn invalid_inline_custom_theme_falls_back_with_error() {
    let loaded = load_inline(Err("missing field `primary`".into()));
    assert_eq!(loaded.theme.name, "gruvbox");
    assert_eq!(loaded.error, Some("failed to parse custom theme: missing field `primary`".to_string()));
    let raw = RawTheme { name: "broken".into(), colors: raw_colors("bad") };
    let loaded = load_inline(Ok(raw));
    assert_eq!(loaded.theme.name, "gruvbox");
    assert_eq!(loaded.error, Some("invalid custom theme: invalid color for bg3".to_string()));
}

#[test]
fn unparsable_theme_config_falls_back_with_error() {
    let loaded = load_parsed(&[theme("gruvbox")], Err("expected `=`".into()), Err("x".into()));
    assert_eq!(loaded.theme.name, "gruvbox");
    assert_eq!(loaded.error, Some("failed to parse theme config: expected `=`".to_string()));
}

#[test]
fn combine_errors_joins_both_messages() {
    assert_eq!(combine_errors(Some("a".into()), Some("b".into())), Some("a; b".to_string()));
    assert_eq!(combine_errors(Some("a".into()), None), Some("a".to_string()));
    assert_eq!(combine_errors(None, Some("b".into())), Some("b".to_string()));
    assert_eq!(combine_errors(None, None), None);
}
