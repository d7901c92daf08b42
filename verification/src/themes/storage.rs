//! Choosing the active theme from the theme configuration: a built-in theme
//! by name, an inline custom theme, or the fallback with an error.
use crate::text::{owned, push_str};
use crate::themes::builtin::{fallback_theme, find_by_name, gruvbox_colors};
use crate::themes::palette::{all_colors_valid, palette_of, RawTheme, Theme};
use vstd::prelude::*;

verus! {

/// Everything after the selected name in a newly written theme configuration:
/// the list of built-in themes and a commented custom theme.
pub const THEME_FILE_EXAMPLES: &'static str = "\"

# Built-in themes
# Set `theme` to one of the built-in theme names.
# theme = \"gruvbox\"
# theme = \"gruvbox-material\"
# theme = \"gruvbox-baby\"
# theme = \"everforest\"
# theme = \"dracula\"
# theme = \"tokyo-night\"
# theme = \"catppuccin-mocha\"

# Full custom theme example
# Remove the `theme` line above and uncomment this block to use an inline theme.
# name = \"custom\"
#
# [colors]
# bg0 = \"#1d2021\"
# bg1 = \"#282828\"
# bg3 = \"#3c3836\"
# bg_sel = \"#504945\"
# fg0 = \"#ebdbb2\"
# fg3 = \"#a89984\"
# fg4 = \"#7c6f64\"
# red = \"#fb4934\"
# green = \"#b8bb26\"
# yellow = \"#fabd2f\"
# blue = \"#83a598\"
# aqua = \"#8ec07c\"
# orange = \"#fe8019\"
# purple = \"#d3869b\"
";

/// Loaded theme plus an optional user-facing load error.
pub struct LoadedTheme {
    /// Theme selected for rendering.
    pub theme: Theme,
    /// User-facing load error when loading fell back to the built-in theme.
    pub error: Option<String>,
}

/// `l` is the fallback theme reported with the error `msg`.
pub open spec fn is_fallback_with(l: LoadedTheme, msg: Seq<char>) -> bool {
    &&& l.theme.name@ == "gruvbox"@
    &&& l.theme.colors == gruvbox_colors()
    &&& l.error matches Some(e) && e@ == msg
}

/// The fallback theme with the error `prefix` followed by `detail`.
pub fn fallback_with(prefix: &str, detail: &str) -> (l: LoadedTheme)
    ensures
        is_fallback_with(l, prefix@ + detail@),
{
    let mut msg = owned(prefix);
    push_str(&mut msg, detail);
    LoadedTheme { theme: fallback_theme(), error: Some(msg) }
}

/// The built-in theme named `name`; an unknown name falls back with
/// `unknown theme: <name>`.
pub fn load_builtin(themes: &[Theme], name: &str) -> (l: LoadedTheme)
    ensures
        match find_spec(themes@, name@) {
            Some(t) => l.theme == t && l.error.is_none(),
            None => is_fallback_with(l, "unknown theme: "@ + name@),
        },
{
    match find_by_name(themes, name) {
        Some(theme) => LoadedTheme { theme, error: None },
        None => fallback_with("unknown theme: ", name),
    }
}

/// The first theme of `themes` named `name`, if any.
pub open spec fn find_spec(themes: Seq<Theme>, name: Seq<char>) -> Option<Theme> {
    if exists|i: int| 0 <= i < themes.len() && #[trigger] themes[i].name@ == name {
        let i = choose|i: int|
            0 <= i < themes.len() && #[trigger] themes[i].name@ == name && forall|j: int|
                0 <= j < i ==> (#[trigger] themes[j]).name@ != name;
        Some(themes[i])
    } else {
        None
    }
}

/// The theme written inline in the configuration, given what parsing it as a
/// theme produced (the parse error's text on failure); either failure falls
/// back with an error.
pub fn load_inline(parsed: Result<RawTheme, String>) -> (l: LoadedTheme)
    ensures
        match parsed {
            Err(e) => is_fallback_with(l, "failed to parse custom theme: "@ + e@),
            Ok(raw) => match Theme::try_from_spec(raw) {
                Ok(t) => l.theme.name@ == t.0 && l.theme.colors == t.1 && l.error.is_none(),
                Err(msg) => is_fallback_with(l, "invalid custom theme: "@ + msg),
            },
        },
{
    match parsed {
        Err(e) => fallback_with("failed to parse custom theme: ", e.as_str()),
        Ok(raw) => match Theme::try_from(raw) {
            Ok(theme) => LoadedTheme { theme, error: None },
            Err(e) => fallback_with("invalid custom theme: ", e.0.as_str()),
        },
    }
}

/// The theme chosen by a configuration, given what parsing it produced: the
/// `theme` key (absent, or the parse error's text) and the file read as an
/// inline theme. A named theme wins; without one the inline theme is used.
pub fn load_parsed(
    themes: &[Theme],
    selection: Result<Option<String>, String>,
    inline: Result<RawTheme, String>,
) -> (l: LoadedTheme)
    ensures
        match selection {
            Err(e) => is_fallback_with(l, "failed to parse theme config: "@ + e@),
            Ok(Some(name)) => match find_spec(themes@, name@) {
                Some(t) => l.theme == t && l.error.is_none(),
                None => is_fallback_with(l, "unknown theme: "@ + name@),
            },
            Ok(None) => match inline {
                Err(e) => is_fallback_with(l, "failed to parse custom theme: "@ + e@),
                Ok(raw) => match Theme::try_from_spec(raw) {
                    Ok(t) => l.theme.name@ == t.0 && l.theme.colors == t.1 && l.error.is_none(),
                    Err(msg) => is_fallback_with(l, "invalid custom theme: "@ + msg),
                },
            },
        },
{
    match selection {
        Err(e) => fallback_with("failed to parse theme config: ", e.as_str()),
        Ok(Some(name)) => load_builtin(themes, name.as_str()),
        Ok(None) => load_inline(inline),
    }
}

/// Merges the built-in themes' load error and the configuration's load error
/// into one message, joined by `; ` when both are present.
pub fn combine_errors(builtin: Option<String>, storage: Option<String>) -> (r: Option<String>)
    ensures
        match (builtin, storage) {
            (Some(b), Some(s)) => r matches Some(m) && m@ == b@ + "; "@ + s@,
            (Some(b), None) => r == Some(b),
            (None, s) => r == s,
        },
{
    match (builtin, storage) {
        (Some(b), Some(s)) => {
            let mut m = b;
            push_str(&mut m, "; ");
            push_str(&mut m, s.as_str());
            Some(m)
        },
        (Some(b), None) => Some(b),
        (None, s) => s,
    }
}

/// The content of a newly written theme configuration selecting `selected`.
pub fn theme_file_content(selected: &str) -> (r: String)
    ensures
        r@ == "theme = \""@ + selected@ + THEME_FILE_EXAMPLES@,
{
    let mut r = owned("theme = \"");
    push_str(&mut r, selected);
    push_str(&mut r, THEME_FILE_EXAMPLES);
    r
}

} // verus!
