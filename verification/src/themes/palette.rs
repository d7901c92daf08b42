//! Theme palettes: `#rrggbb` colors and the conversion of a raw theme, as read
//! from a configuration file, into a runtime theme.
use crate::text::{chars_of, push_str};
use vstd::prelude::*;

verus! {

/// A terminal color. Themes only ever hold true colors.
#[derive(Debug, Clone, Copy, PartialEq, Eq, Structural)]
pub enum Color {
    /// Red, green and blue components.
    Rgb(u8, u8, u8),
}

/// Runtime color palette used by screens and widgets.
#[derive(Debug, Clone, Copy, PartialEq, Eq, Structural)]
pub struct ThemeColors {
    pub primary: Color,
    pub secondary: Color,
    pub bg0: Color,
    pub bg1: Color,
    pub bg2: Color,
    pub bg_sel: Color,
    pub fg0: Color,
    pub fg1: Color,
    pub fg2: Color,
    pub red: Color,
    pub green: Color,
    pub yellow: Color,
    pub blue: Color,
    pub aqua: Color,
    pub orange: Color,
    pub purple: Color,
}

/// Runtime TUI theme.
#[derive(Debug)]
pub struct Theme {
    pub name: String,
    pub colors: ThemeColors,
}

impl Clone for Theme {
    fn clone(&self) -> (r: Self)
        ensures
            r == *self,
    {
        Theme { name: self.name.clone(), colors: self.colors }
    }
}

/// One theme as written in a configuration file.
#[derive(Debug, Clone)]
pub struct RawTheme {
    pub name: String,
    pub colors: RawThemeColors,
}

/// Theme colors as written in a configuration file.
#[derive(Debug, Clone)]
pub struct RawThemeColors {
    pub primary: String,
    pub secondary: String,
    pub bg0: String,
    pub bg1: String,
    pub bg2: String,
    pub bg_sel: String,
    pub fg0: String,
    pub fg1: String,
    pub fg2: String,
    pub red: String,
    pub green: String,
    pub yellow: String,
    pub blue: String,
    pub aqua: String,
    pub orange: String,
    pub purple: String,
}

/// Theme parsing error suitable for user-facing display.
#[derive(Debug, Clone, PartialEq)]
pub struct ThemeError(pub String);

impl ThemeError {
    /// The message shown to the user.
    pub fn to_string(&self) -> (r: String)
        ensures
            r@ == self.0@,
    {
        self.0.clone()
    }
}

/// `c` is an ASCII hexadecimal digit.
pub open spec fn is_hex_digit(c: char) -> bool {
    ('0' <= c <= '9') || ('a' <= c <= 'f') || ('A' <= c <= 'F')
}

/// The value of a hexadecimal digit.
pub open spec fn hex_digit_value(c: char) -> nat {
    if '0' <= c <= '9' {
        (c as int - '0' as int) as nat
    } else if 'a' <= c <= 'f' {
        (c as int - 'a' as int + 10) as nat
    } else {
        (c as int - 'A' as int + 10) as nat
    }
}

/// `v` is `#` followed by exactly six hexadecimal digits.
pub open spec fn is_hex_color(v: Seq<char>) -> bool {
    &&& v.len() == 7
    &&& v[0] == '#'
    &&& forall|i: int| 1 <= i < 7 ==> is_hex_digit(#[trigger] v[i])
}

/// The byte written by the two hexadecimal digits at `i` and `i + 1`.
pub open spec fn hex_byte(v: Seq<char>, i: int) -> u8 {
    (16 * hex_digit_value(v[i]) + hex_digit_value(v[i + 1])) as u8
}

/// The color written as `#rrggbb`, if `v` is one.
pub open spec fn hex_color(v: Seq<char>) -> Option<Color> {
    if is_hex_color(v) {
        Some(Color::Rgb(hex_byte(v, 1), hex_byte(v, 3), hex_byte(v, 5)))
    } else {
        None
    }
}

/// The value of one hexadecimal digit character, if it is one.
fn hex_digit(c: char) -> (r: Option<u8>)
    ensures
        match r {
            Some(d) => is_hex_digit(c) && d == hex_digit_value(c) && d < 16,
            None => !is_hex_digit(c),
        },
{
    if '0' <= c && c <= '9' {
        Some(((c as u32) - ('0' as u32)) as u8)
    } else if 'a' <= c && c <= 'f' {
        Some(((c as u32) - ('a' as u32) + 10) as u8)
    } else if 'A' <= c && c <= 'F' {
        Some(((c as u32) - ('A' as u32) + 10) as u8)
    } else {
        None
    }
}

/// `invalid color: <value>`.
fn invalid_color(value: &str) -> (e: ThemeError)
    ensures
        e.0@ == "invalid color: "@ + value@,
{
    let mut s = String::new();
    push_str(&mut s, "invalid color: ");
    push_str(&mut s, value);
    ThemeError(s)
}

/// Parses a `#rrggbb` color string.
pub fn parse_hex_color(value: &str) -> (r: Result<Color, ThemeError>)
    ensures
        match r {
            Ok(c) => hex_color(value@) == Some(c),
            Err(e) => hex_color(value@).is_none() && e.0@ == "invalid color: "@ + value@,
        },
{
    let cs = chars_of(value);
    if cs.len() != 7 || cs[0] != '#' {
        return Err(invalid_color(value));
    }
    let mut digits: Vec<u8> = Vec::new();
    let mut i: usize = 1;
    while i < 7
        invariant
            cs@ == value@,
            cs@.len() == 7,
            1 <= i <= 7,
            digits@.len() == i - 1,
            forall|j: int| 1 <= j < i ==> is_hex_digit(#[trigger] cs@[j]),
            forall|k: int|
                0 <= k < i - 1 ==> #[trigger] digits@[k] == hex_digit_value(cs@[k + 1])
                    && digits@[k] < 16,
        decreases 7 - i,
    {
        match hex_digit(cs[i]) {
            Some(d) => digits.push(d),
            None => {
                return Err(invalid_color(value));
            },
        }
        i += 1;
    }
    assert(is_hex_color(value@));
    assert(digits@[0] < 16 && digits@[1] < 16 && digits@[2] < 16);
    assert(digits@[3] < 16 && digits@[4] < 16 && digits@[5] < 16);
    let red = digits[0] * 16 + digits[1];
    let green = digits[2] * 16 + digits[3];
    let blue = digits[4] * 16 + digits[5];
    Ok(Color::Rgb(red, green, blue))
}

/// Parses the color of one named palette field; the error names the field.
fn parse_theme_color(field: &str, value: &str) -> (r: Result<Color, ThemeError>)
    ensures
        match r {
            Ok(c) => hex_color(value@) == Some(c),
            Err(e) => hex_color(value@).is_none() && e.0@ == "invalid color for "@ + field@,
        },
{
    match parse_hex_color(value) {
        Ok(c) => Ok(c),
        Err(_) => {
            let mut s = String::new();
            push_str(&mut s, "invalid color for ");
            push_str(&mut s, field);
            Err(ThemeError(s))
        },
    }
}

/// The palette fields in conversion order, each with the name its error uses
/// and its written value. Three fields are reported under other names.
pub open spec fn color_fields(c: RawThemeColors) -> Seq<(Seq<char>, Seq<char>)> {
    seq![
        ("primary"@, c.primary@),
        ("secondary"@, c.secondary@),
        ("bg0"@, c.bg0@),
        ("bg1"@, c.bg1@),
        ("bg3"@, c.bg2@),
        ("bg_sel"@, c.bg_sel@),
        ("fg0"@, c.fg0@),
        ("fg3"@, c.fg1@),
        ("fg4"@, c.fg2@),
        ("red"@, c.red@),
        ("green"@, c.green@),
        ("yellow"@, c.yellow@),
        ("blue"@, c.blue@),
        ("aqua"@, c.aqua@),
        ("orange"@, c.orange@),
        ("purple"@, c.purple@),
    ]
}

/// Every palette field holds a valid color.
pub open spec fn all_colors_valid(c: RawThemeColors) -> bool {
    forall|i: int| 0 <= i < 16 ==> (#[trigger] hex_color(color_fields(c)[i].1)).is_some()
}

/// The palette whose colors are those written in `c`.
pub open spec fn palette_of(c: RawThemeColors) -> ThemeColors {
    ThemeColors {
        primary: hex_color(c.primary@).unwrap(),
        secondary: hex_color(c.secondary@).unwrap(),
        bg0: hex_color(c.bg0@).unwrap(),
        bg1: hex_color(c.bg1@).unwrap(),
        bg2: hex_color(c.bg2@).unwrap(),
        bg_sel: hex_color(c.bg_sel@).unwrap(),
        fg0: hex_color(c.fg0@).unwrap(),
        fg1: hex_color(c.fg1@).unwrap(),
        fg2: hex_color(c.fg2@).unwrap(),
        red: hex_color(c.red@).unwrap(),
        green: hex_color(c.green@).unwrap(),
        yellow: hex_color(c.yellow@).unwrap(),
        blue: hex_color(c.blue@).unwrap(),
        aqua: hex_color(c.aqua@).unwrap(),
        orange: hex_color(c.orange@).unwrap(),
        purple: hex_color(c.purple@).unwrap(),
    }
}

/// The first palette field, in conversion order, whose color is invalid is `k`.
pub open spec fn first_invalid_field(c: RawThemeColors, k: int) -> bool {
    &&& 0 <= k < 16
    &&& hex_color(color_fields(c)[k].1).is_none()
    &&& forall|j: int| 0 <= j < k ==> (#[trigger] hex_color(color_fields(c)[j].1)).is_some()
}

impl Theme {
    /// What converting `raw` gives: its name and palette, or the message of the
    /// error for the first invalid color.
    pub open spec fn try_from_spec(raw: RawTheme) -> Result<(Seq<char>, ThemeColors), Seq<char>> {
        if all_colors_valid(raw.colors) {
            Ok((raw.name@, palette_of(raw.colors)))
        } else {
            let k = choose|k: int| first_invalid_field(raw.colors, k);
            Err("invalid color for "@ + color_fields(raw.colors)[k].0)
        }
    }

    /// Converts a raw theme into a runtime theme; the first invalid color, in
    /// field order, is reported by its field's name.
    pub fn try_from(raw: RawTheme) -> (r: Result<Theme, ThemeError>)
        ensures
            match r {
                Ok(t) => all_colors_valid(raw.colors) && t.name@ == raw.name@ && t.colors
                    == palette_of(raw.colors),
                Err(e) => exists|k: int|
                    first_invalid_field(raw.colors, k) && e.0@ == "invalid color for "@
                        + #[trigger] color_fields(raw.colors)[k].0,
            },
            match r {
                Ok(t) => Theme::try_from_spec(raw) == Ok::<(Seq<char>, ThemeColors), Seq<char>>((t.name@, t.colors)),
                Err(e) => Theme::try_from_spec(raw) == Err::<(Seq<char>, ThemeColors), Seq<char>>(e.0@),
            },
    {
        let c = &raw.colors;
        let fields: Vec<(&str, &str)> = vec![
            ("primary", c.primary.as_str()),
            ("secondary", c.secondary.as_str()),
            ("bg0", c.bg0.as_str()),
            ("bg1", c.bg1.as_str()),
            ("bg3", c.bg2.as_str()),
            ("bg_sel", c.bg_sel.as_str()),
            ("fg0", c.fg0.as_str()),
            ("fg3", c.fg1.as_str()),
            ("fg4", c.fg2.as_str()),
            ("red", c.red.as_str()),
            ("green", c.green.as_str()),
            ("yellow", c.yellow.as_str()),
            ("blue", c.blue.as_str()),
            ("aqua", c.aqua.as_str()),
            ("orange", c.orange.as_str()),
            ("purple", c.purple.as_str()),
        ];
        let ghost spec_fields = color_fields(raw.colors);
        assert(fields@.len() == 16);
        assert(forall|j: int|
            0 <= j < 16 ==> (#[trigger] fields@[j]).0@ == spec_fields[j].0 && fields@[j].1@
                == spec_fields[j].1);
        let mut colors: Vec<Color> = Vec::new();
        let mut i: usize = 0;
        while i < 16
            invariant
                fields@.len() == 16,
                spec_fields == color_fields(raw.colors),
                forall|j: int|
                    0 <= j < 16 ==> (#[trigger] fields@[j]).0@ == spec_fields[j].0 && fields@[j].1@
                        == spec_fields[j].1,
                i <= 16,
                colors@.len() == i,
                forall|j: int|
                    0 <= j < i ==> hex_color(spec_fields[j].1) == Some(#[trigger] colors@[j]),
            decreases 16 - i,
        {
            let (name, value) = fields[i];
            match parse_theme_color(name, value) {
                Ok(col) => colors.push(col),
                Err(e) => {
                    assert forall|j: int| 0 <= j < i implies (#[trigger] hex_color(
                        color_fields(raw.colors)[j].1,
                    )).is_some() by {
                        assert(hex_color(spec_fields[j].1) == Some(colors@[j]));
                    }
                    assert(first_invalid_field(raw.colors, i as int));
                    assert(e.0@ == "invalid color for "@ + color_fields(raw.colors)[i as int].0);
                    return Err(e);
                },
            }
            i += 1;
        }
        assert forall|j: int| 0 <= j < 16 implies (#[trigger] hex_color(
            color_fields(raw.colors)[j].1,
        )).is_some() by {
            assert(hex_color(spec_fields[j].1) == Some(colors@[j]));
        }
        assert(all_colors_valid(raw.colors));
        let colors = ThemeColors {
            primary: colors[0],
            secondary: colors[1],
            bg0: colors[2],
            bg1: colors[3],
            bg2: colors[4],
            bg_sel: colors[5],
            fg0: colors[6],
            fg1: colors[7],
            fg2: colors[8],
            red: colors[9],
            green: colors[10],
            yellow: colors[11],
            blue: colors[12],
            aqua: colors[13],
            orange: colors[14],
            purple: colors[15],
        };
        Ok(Theme { name: raw.name, colors })
    }
}

/// A converted theme keeps, field by field, the color written in the raw
/// field of the same name: `t` is what `Theme::try_from(raw)` gives on success.
pub proof fn law_theme_fields_keep_their_colors(raw: RawTheme, t: Theme)
    requires
        all_colors_valid(raw.colors),
        t.name@ == raw.name@,
        t.colors == palette_of(raw.colors),
    ensures
        t.name@ == raw.name@,
        Some(t.colors.primary) == hex_color(raw.colors.primary@),
        Some(t.colors.secondary) == hex_color(raw.colors.secondary@),
        Some(t.colors.bg0) == hex_color(raw.colors.bg0@),
        Some(t.colors.bg1) == hex_color(raw.colors.bg1@),
        Some(t.colors.bg2) == hex_color(raw.colors.bg2@),
        Some(t.colors.bg_sel) == hex_color(raw.colors.bg_sel@),
        Some(t.colors.fg0) == hex_color(raw.colors.fg0@),
        Some(t.colors.fg1) == hex_color(raw.colors.fg1@),
        Some(t.colors.fg2) == hex_color(raw.colors.fg2@),
        Some(t.colors.red) == hex_color(raw.colors.red@),
        Some(t.colors.green) == hex_color(raw.colors.green@),
        Some(t.colors.yellow) == hex_color(raw.colors.yellow@),
        Some(t.colors.blue) == hex_color(raw.colors.blue@),
        Some(t.colors.aqua) == hex_color(raw.colors.aqua@),
        Some(t.colors.orange) == hex_color(raw.colors.orange@),
        Some(t.colors.purple) == hex_color(raw.colors.purple@),
{
    assert(hex_color(color_fields(raw.colors)[0].1).is_some());
    assert(hex_color(color_fields(raw.colors)[1].1).is_some());
    assert(hex_color(color_fields(raw.colors)[2].1).is_some());
    assert(hex_color(color_fields(raw.colors)[3].1).is_some());
    assert(hex_color(color_fields(raw.colors)[4].1).is_some());
    assert(hex_color(color_fields(raw.colors)[5].1).is_some());
    assert(hex_color(color_fields(raw.colors)[6].1).is_some());
    assert(hex_color(color_fields(raw.colors)[7].1).is_some());
    assert(hex_color(color_fields(raw.colors)[8].1).is_some());
    assert(hex_color(color_fields(raw.colors)[9].1).is_some());
    assert(hex_color(color_fields(raw.colors)[10].1).is_some());
    assert(hex_color(color_fields(raw.colors)[11].1).is_some());
    assert(hex_color(color_fields(raw.colors)[12].1).is_some());
    assert(hex_color(color_fields(raw.colors)[13].1).is_some());
    assert(hex_color(color_fields(raw.colors)[14].1).is_some());
    assert(hex_color(color_fields(raw.colors)[15].1).is_some());
}

} // verus!
