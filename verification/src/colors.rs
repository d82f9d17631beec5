//! Theme colors: each color has a light and a dark theme value.

use vstd::prelude::*;

verus! {

/// Premultiplied RGBA color.
#[derive(PartialEq, Eq, Structural, Clone, Copy)]
pub struct Color {
    pub r: u8,
    pub g: u8,
    pub b: u8,
    pub a: u8,
}

/// Opaque gray with lightness `l`.
pub open spec fn gray(l: u8) -> Color {
    Color { r: l, g: l, b: l, a: 255 }
}

/// Opaque color.
pub open spec fn rgb(r: u8, g: u8, b: u8) -> Color {
    Color { r, g, b, a: 255 }
}

/// Black with opacity `a`.
pub open spec fn black_alpha(a: u8) -> Color {
    Color { r: 0, g: 0, b: 0, a }
}

/// Value of a color for the theme: `dark` or `light`.
pub open spec fn themed(use_dark: bool, dark: Color, light: Color) -> Color {
    if use_dark {
        dark
    } else {
        light
    }
}

fn from_gray(l: u8) -> (c: Color)
    ensures
        c == gray(l),
{
    Color { r: l, g: l, b: l, a: 255 }
}

fn from_rgb(r: u8, g: u8, b: u8) -> (c: Color)
    ensures
        c == rgb(r, g, b),
{
    Color { r, g, b, a: 255 }
}

fn from_black_alpha(a: u8) -> (c: Color)
    ensures
        c == black_alpha(a),
{
    Color { r: 0, g: 0, b: 0, a }
}

/// Check if dark theme should be used: the saved theme choice, light when none is saved.
pub fn use_dark(dark_theme: Option<bool>) -> (r: bool)
    ensures
        r == (dark_theme == Some(true)),
{
    match dark_theme {
        Some(d) => d,
        None => false,
    }
}

/// Provides colors values based on current theme.
pub struct Colors;

impl Colors {
    /// Fully transparent color.
    pub fn transparent() -> (c: Color)
        ensures
            c == black_alpha(0),
    {
        from_black_alpha(0)
    }

    /// Default stroke color of the light theme.
    pub fn stroke_light() -> (c: Color)
        ensures
            c == gray(200),
    {
        from_gray(200)
    }

    /// White, or black where `black_in_white` is set; swapped at dark theme.
    pub fn white_or_black(use_dark: bool, black_in_white: bool) -> (c: Color)
        ensures
            c == (if use_dark == black_in_white {
                gray(253)
            } else {
                gray(12)
            }),
    {
        if use_dark == black_in_white {
            from_gray(253)
        } else {
            from_gray(12)
        }
    }

    pub fn semi_transparent(use_dark: bool) -> (c: Color)
        ensures
            c == themed(use_dark, black_alpha(170), black_alpha(100)),
    {
        if use_dark {
            from_black_alpha(170)
        } else {
            from_black_alpha(100)
        }
    }

    pub fn yellow() -> (c: Color)
        ensures
            c == rgb(254, 241, 2),
    {
        from_rgb(254, 241, 2)
    }

    pub fn yellow_dark() -> (c: Color)
        ensures
            c == rgb(239, 229, 3),
    {
        from_rgb(239, 229, 3)
    }

    /// Green; at dark theme its green channel is 30% brighter.
    pub fn green(use_dark: bool) -> (c: Color)
        ensures
            c == themed(use_dark, rgb(0, 130, 0), rgb(0, 0x64, 0)),
    {
        if use_dark {
            from_rgb(0, 130, 0)
        } else {
            from_rgb(0, 0x64, 0)
        }
    }

    /// Red; at dark theme its red channel is 30% brighter.
    pub fn red(use_dark: bool) -> (c: Color)
        ensures
            c == themed(use_dark, rgb(181, 0, 0), rgb(0x8B, 0, 0)),
    {
        if use_dark {
            from_rgb(181, 0, 0)
        } else {
            from_rgb(0x8B, 0, 0)
        }
    }

    /// Blue; at dark theme its channels are 30% brighter, saturated at 255.
    pub fn blue(use_dark: bool) -> (c: Color)
        ensures
            c == themed(use_dark, rgb(0, 133, 255), rgb(0, 0x66, 0xE4)),
    {
        if use_dark {
            from_rgb(0, 133, 255)
        } else {
            from_rgb(0, 0x66, 0xE4)
        }
    }

    pub fn fill(use_dark: bool) -> (c: Color)
        ensures
            c == themed(use_dark, gray(24), gray(244)),
    {
        from_gray(if use_dark {
            24
        } else {
            244
        })
    }

    pub fn fill_deep(use_dark: bool) -> (c: Color)
        ensures
            c == themed(use_dark, gray(18), gray(238)),
    {
        from_gray(if use_dark {
            18
        } else {
            238
        })
    }

    pub fn fill_lite(use_dark: bool) -> (c: Color)
        ensures
            c == themed(use_dark, gray(16), gray(249)),
    {
        from_gray(if use_dark {
            16
        } else {
            249
        })
    }

    pub fn checkbox(use_dark: bool) -> (c: Color)
        ensures
            c == themed(use_dark, gray(175), gray(100)),
    {
        from_gray(if use_dark {
            175
        } else {
            100
        })
    }

    /// Text color; the light theme value when `always_light` is set.
    pub fn text(use_dark: bool, always_light: bool) -> (c: Color)
        ensures
            c == themed(use_dark && !always_light, gray(185), gray(80)),
    {
        from_gray(if use_dark && !always_light {
            185
        } else {
            80
        })
    }

    pub fn text_button(use_dark: bool) -> (c: Color)
        ensures
            c == themed(use_dark, gray(195), gray(70)),
    {
        from_gray(if use_dark {
            195
        } else {
            70
        })
    }

    /// Title color; the light theme value when `always_light` is set.
    pub fn title(use_dark: bool, always_light: bool) -> (c: Color)
        ensures
            c == themed(use_dark && !always_light, gray(205), gray(60)),
    {
        from_gray(if use_dark && !always_light {
            205
        } else {
            60
        })
    }

    pub fn gray(use_dark: bool) -> (c: Color)
        ensures
            c == themed(use_dark, gray(145), gray(120)),
    {
        from_gray(if use_dark {
            145
        } else {
            120
        })
    }

    pub fn stroke(use_dark: bool) -> (c: Color)
        ensures
            c == themed(use_dark, gray(50), gray(200)),
    {
        from_gray(if use_dark {
            50
        } else {
            200
        })
    }

    pub fn inactive_text(use_dark: bool) -> (c: Color)
        ensures
            c == themed(use_dark, gray(115), gray(150)),
    {
        from_gray(if use_dark {
            115
        } else {
            150
        })
    }

    pub fn item_button(use_dark: bool) -> (c: Color)
        ensures
            c == themed(use_dark, gray(175), gray(90)),
    {
        from_gray(if use_dark {
            175
        } else {
            90
        })
    }

    pub fn item_stroke(use_dark: bool) -> (c: Color)
        ensures
            c == themed(use_dark, gray(40), gray(220)),
    {
        from_gray(if use_dark {
            40
        } else {
            220
        })
    }

    pub fn item_hover(use_dark: bool) -> (c: Color)
        ensures
            c == themed(use_dark, gray(48), gray(205)),
    {
        from_gray(if use_dark {
            48
        } else {
            205
        })
    }
}

} // verus!
