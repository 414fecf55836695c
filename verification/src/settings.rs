//! Display settings of the front end: plot scale, colour theme, axis flags.
use vstd::prelude::*;
use vstd::string::StringSliceAdditionalSpecFns;
use crate::text::same_text;

verus! {

/// Frequency-axis scale of the spectrum plot.
#[derive(Clone, Copy, Debug, PartialEq, Eq, Structural)]
pub enum PlotScale {
    Linear,
    Mel,
    Log,
    Bark,
}

/// Named colour themes.
#[derive(Clone, Copy, Debug, PartialEq, Eq, Structural)]
pub enum Theme {
    RGB,
    CYM,
    POG,
    BWG,
    SEPIA,
    CUSTOM,
}

impl Theme {
    /// The name under which the theme is stored.
    pub open spec fn name(self) -> Seq<char> {
        match self {
            Theme::RGB => "RGB"@,
            Theme::CYM => "CYM"@,
            Theme::POG => "POG"@,
            Theme::BWG => "BWG"@,
            Theme::SEPIA => "SEPIA"@,
            Theme::CUSTOM => "CUSTOM"@,
        }
    }

    /// Whether `s` is the name of some theme.
    pub open spec fn is_name(s: Seq<char>) -> bool {
        exists|t: Theme| #[trigger] t.name() == s
    }

    pub fn as_str(&self) -> (r: &'static str)
        ensures
            r@ == self.name(),
    {
        match self {
            Theme::RGB => "RGB",
            Theme::CYM => "CYM",
            Theme::POG => "POG",
            Theme::BWG => "BWG",
            Theme::SEPIA => "SEPIA",
            Theme::CUSTOM => "CUSTOM",
        }
    }

    /// Reads a theme back from its name; any other text is rejected.
    pub fn from_str(s: &str) -> (r: Result<Theme, &'static str>)
        ensures
            match r {
                Ok(t) => t.name() == s@,
                Err(e) => !Theme::is_name(s@) && e@ == "invalid theme string"@,
            },
    {
        if same_text(s, "RGB") {
            Ok(Theme::RGB)
        } else if same_text(s, "CYM") {
            Ok(Theme::CYM)
        } else if same_text(s, "POG") {
            Ok(Theme::POG)
        } else if same_text(s, "BWG") {
            Ok(Theme::BWG)
        } else if same_text(s, "SEPIA") {
            Ok(Theme::SEPIA)
        } else if same_text(s, "CUSTOM") {
            Ok(Theme::CUSTOM)
        } else {
            assert forall|t: Theme| #[trigger] t.name() != s@ by {}
            Err("invalid theme string")
        }
    }
}

/// What the front end stores about its own appearance.
#[derive(Clone, Copy, Debug, PartialEq, Eq, Structural)]
pub struct Settings {
    pub id: i32,
    pub plot_scale: PlotScale,
    pub theme: Theme,
    pub draw_freq_axis: bool,
    pub draw_fft_amp_axis: bool,
    pub draw_filter_amp_axis: bool,
}

impl Default for Settings {
    /// Linear scale, the theme `POG`, every axis drawn.
    fn default() -> (r: Settings)
        ensures
            r == (Settings {
                id: 0,
                plot_scale: PlotScale::Linear,
                theme: Theme::POG,
                draw_freq_axis: true,
                draw_fft_amp_axis: true,
                draw_filter_amp_axis: true,
            }),
    {
        Settings {
            id: 0,
            plot_scale: PlotScale::Linear,
            theme: Theme::POG,
            draw_freq_axis: true,
            draw_fft_amp_axis: true,
            draw_filter_amp_axis: true,
        }
    }
}

/// Names of the colours of the rotary control.
#[derive(Clone, Copy, Debug, PartialEq, Eq, Structural)]
pub enum Colors {
    RotaryTick,
    RotaryHover,
}

impl Colors {
    /// One empty string for each colour value that a `Colors` stores. A
    /// `Colors` names a colour and stores none, so the list is empty.
    pub fn as_slice() -> (v: Vec<String>)
        ensures
            v@.len() == 0,
    {
        Vec::new()
    }
}

/// A colour as text, `#` and six digits.
pub type Color = String;

/// The colour of every component of the front end.
#[derive(Clone, Debug, PartialEq, Eq)]
pub struct ComponentColors {
    pub rotary_tick: Color,
    pub rotary_hover: Color,
    pub slider_background: Color,
    pub slider_hover: Color,
    pub slider_border: Color,
    pub slider_active: Color,
    pub slider_indicator: Color,
    pub plot_main: Color,
    pub plot_single_filter: Color,
    pub plot_total_curve: Color,
    pub plot_filter_hover: Color,
    pub app_background: Color,
    pub app_text: Color,
    pub button_background: Color,
    pub button_text: Color,
}

/// Whether `b` is the code of a decimal digit.
pub open spec fn is_digit(b: u8) -> bool {
    48 <= b <= 57
}

/// The number that the two bytes at `i` and `i + 1` spell in decimal: two
/// digits, or a plus sign and one digit.
pub open spec fn field_at(bytes: Seq<u8>, i: int) -> Option<u8> {
    if is_digit(bytes[i]) && is_digit(bytes[i + 1]) {
        Some((10 * (bytes[i] - 48) + (bytes[i + 1] - 48)) as u8)
    } else if bytes[i] == 43 && is_digit(bytes[i + 1]) {
        Some((bytes[i + 1] - 48) as u8)
    } else {
        None
    }
}

/// The three components that a colour text spells. The text is read if it
/// is seven bytes long or begins with `#`; it must then have seven bytes at
/// least, and the bytes 1 to 6 must spell three decimal fields.
pub open spec fn rgb_of(bytes: Seq<u8>) -> Option<(u8, u8, u8)> {
    if bytes.len() >= 7 && (bytes.len() == 7 || bytes[0] == 35) && field_at(bytes, 1) is Some
        && field_at(bytes, 3) is Some && field_at(bytes, 5) is Some {
        Some((field_at(bytes, 1)->0, field_at(bytes, 3)->0, field_at(bytes, 5)->0))
    } else {
        None
    }
}

/// Reads the two bytes at `i` as a decimal field.
fn read_field(bytes: &[u8], i: usize) -> (r: Option<u8>)
    requires
        i + 1 < bytes@.len(),
    ensures
        r == field_at(bytes@, i as int),
{
    let a: u8 = bytes[i];
    let b: u8 = bytes[i + 1];
    if 48 <= b && b <= 57 {
        if 48 <= a && a <= 57 {
            Some(10 * (a - 48) + (b - 48))
        } else if a == 43 {
            Some(b - 48)
        } else {
            None
        }
    } else {
        None
    }
}

/// Reads the red, green and blue fields of a colour text, each as a decimal
/// number of two places. Any text that [`rgb_of`] does not read is an
/// invalid colour.
pub fn hex_to_rgb(hex_string: &str) -> (r: Result<(u8, u8, u8), String>)
    ensures
        match r {
            Ok(rgb) => rgb_of(hex_string.spec_bytes()) == Some(rgb),
            Err(e) => rgb_of(hex_string.spec_bytes()) is None && e@ == "invalid color"@,
        },
{
    let bytes = hex_string.as_bytes();
    if bytes.len() < 7 || (bytes.len() != 7 && bytes[0] != 35) {
        return Err("invalid color".to_owned());
    }
    match (read_field(bytes, 1), read_field(bytes, 3), read_field(bytes, 5)) {
        (Some(red), Some(green), Some(blue)) => Ok((red, green, blue)),
        _ => Err("invalid color".to_owned()),
    }
}

} // verus!
