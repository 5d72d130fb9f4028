//! Colours: the built-in palettes, colour overrides from the configuration file, and the
//! choice of palette for a terminal.

use vstd::prelude::*;

use crate::text::{
    digit_value, digits_value, lower_char, ascii_lower, chars_are, chars_eq, chars_of, lower_chars, parse_unsigned, parse_unsigned_chars,
    slice_chars, string_of, trim, trim_chars, utf8_len, utf8_len_capped,
};

verus! {

/// A terminal colour: one of the sixteen ANSI colours, the terminal default, a 256-palette
/// index or a truecolor value.
#[derive(Clone, Copy, Debug, PartialEq, Eq, Structural)]
pub enum ColorSpec {
    Reset,
    Black,
    Red,
    Green,
    Yellow,
    Blue,
    Magenta,
    Cyan,
    Gray,
    DarkGray,
    LightRed,
    LightGreen,
    LightYellow,
    LightBlue,
    LightMagenta,
    LightCyan,
    White,
    Rgb(u8, u8, u8),
    Indexed(u8),
}

/// The truecolor value written `0xRRGGBB`.
pub open spec fn rgb_spec(value: nat) -> ColorSpec {
    ColorSpec::Rgb(((value / 65536) % 256) as u8, ((value / 256) % 256) as u8, (value % 256) as u8)
}

/// The truecolor value written `0xRRGGBB` (higher bits ignored).
pub fn rgb(value: u32) -> (color: ColorSpec)
    ensures
        color == rgb_spec(value as nat),
{
    ColorSpec::Rgb(((value / 65536) % 256) as u8, ((value / 256) % 256) as u8, (value % 256) as u8)
}

/// The colours every screen draws with.
#[derive(Clone, Copy, Debug, PartialEq, Eq, Structural)]
pub struct Theme {
    pub accent: ColorSpec,
    pub accent_soft: ColorSpec,
    pub directory: ColorSpec,
    pub file: ColorSpec,
    pub text: ColorSpec,
    pub muted: ColorSpec,
    pub faint: ColorSpec,
    pub success: ColorSpec,
    pub warning: ColorSpec,
    pub danger: ColorSpec,
    pub border: ColorSpec,
    pub border_focused: ColorSpec,
    pub selection_background: ColorSpec,
    pub bar_track: ColorSpec,
}

/// The `terracotta` palette.
pub open spec fn terracotta_palette() -> Theme {
    Theme {
        accent: rgb_spec(0xd97757),
        accent_soft: rgb_spec(0xe8aa8c),
        directory: rgb_spec(0x61afef),
        file: rgb_spec(0xc8ccd4),
        text: rgb_spec(0xdcdfe4),
        muted: rgb_spec(0x8c94a0),
        faint: rgb_spec(0x5a606a),
        success: rgb_spec(0x98c379),
        warning: rgb_spec(0xe5c07b),
        danger: rgb_spec(0xe06c75),
        border: rgb_spec(0x464c56),
        border_focused: rgb_spec(0xd97757),
        selection_background: rgb_spec(0x343842),
        bar_track: rgb_spec(0x3a3e48),
    }
}

/// The `btop` palette.
pub open spec fn btop_palette() -> Theme {
    Theme {
        accent: rgb_spec(0xb54040),
        accent_soft: rgb_spec(0xd9626d),
        directory: rgb_spec(0x4897d4),
        file: rgb_spec(0xcccccc),
        text: rgb_spec(0xeeeeee),
        muted: rgb_spec(0x999999),
        faint: rgb_spec(0x606060),
        success: rgb_spec(0x50f095),
        warning: rgb_spec(0xf2e266),
        danger: rgb_spec(0xfa1e1e),
        border: rgb_spec(0x303030),
        border_focused: rgb_spec(0xb54040),
        selection_background: rgb_spec(0x6a2f2f),
        bar_track: rgb_spec(0x262626),
    }
}

/// The `nord` palette.
pub open spec fn nord_palette() -> Theme {
    Theme {
        accent: rgb_spec(0x88c0d0),
        accent_soft: rgb_spec(0x8fbcbb),
        directory: rgb_spec(0x81a1c1),
        file: rgb_spec(0xd8dee9),
        text: rgb_spec(0xeceff4),
        muted: rgb_spec(0x7b88a1),
        faint: rgb_spec(0x4c566a),
        success: rgb_spec(0xa3be8c),
        warning: rgb_spec(0xebcb8b),
        danger: rgb_spec(0xbf616a),
        border: rgb_spec(0x434c5e),
        border_focused: rgb_spec(0x88c0d0),
        selection_background: rgb_spec(0x3b4252),
        bar_track: rgb_spec(0x434c5e),
    }
}

/// The `dracula` palette.
pub open spec fn dracula_palette() -> Theme {
    Theme {
        accent: rgb_spec(0xbd93f9),
        accent_soft: rgb_spec(0xff79c6),
        directory: rgb_spec(0x8be9fd),
        file: rgb_spec(0xf8f8f2),
        text: rgb_spec(0xf8f8f2),
        muted: rgb_spec(0x6272a4),
        faint: rgb_spec(0x44475a),
        success: rgb_spec(0x50fa7b),
        warning: rgb_spec(0xf1fa8c),
        danger: rgb_spec(0xff5555),
        border: rgb_spec(0x44475a),
        border_focused: rgb_spec(0xbd93f9),
        selection_background: rgb_spec(0x44475a),
        bar_track: rgb_spec(0x383a4a),
    }
}

/// The `gruvbox` palette.
pub open spec fn gruvbox_palette() -> Theme {
    Theme {
        accent: rgb_spec(0xfe8019),
        accent_soft: rgb_spec(0xfabd2f),
        directory: rgb_spec(0x83a598),
        file: rgb_spec(0xebdbb2),
        text: rgb_spec(0xebdbb2),
        muted: rgb_spec(0xa89984),
        faint: rgb_spec(0x665c54),
        success: rgb_spec(0xb8bb26),
        warning: rgb_spec(0xfabd2f),
        danger: rgb_spec(0xfb4934),
        border: rgb_spec(0x504945),
        border_focused: rgb_spec(0xfe8019),
        selection_background: rgb_spec(0x3c3836),
        bar_track: rgb_spec(0x3c3836),
    }
}

/// The `catppuccin` palette.
pub open spec fn catppuccin_palette() -> Theme {
    Theme {
        accent: rgb_spec(0xcba6f7),
        accent_soft: rgb_spec(0xf5c2e7),
        directory: rgb_spec(0x89b4fa),
        file: rgb_spec(0xcdd6f4),
        text: rgb_spec(0xcdd6f4),
        muted: rgb_spec(0xa6adc8),
        faint: rgb_spec(0x6c7086),
        success: rgb_spec(0xa6e3a1),
        warning: rgb_spec(0xf9e2af),
        danger: rgb_spec(0xf38ba8),
        border: rgb_spec(0x45475a),
        border_focused: rgb_spec(0xcba6f7),
        selection_background: rgb_spec(0x313244),
        bar_track: rgb_spec(0x313244),
    }
}

/// The `tokyo_night` palette.
pub open spec fn tokyo_night_palette() -> Theme {
    Theme {
        accent: rgb_spec(0x7aa2f7),
        accent_soft: rgb_spec(0xbb9af7),
        directory: rgb_spec(0x7dcfff),
        file: rgb_spec(0xc0caf5),
        text: rgb_spec(0xc0caf5),
        muted: rgb_spec(0xa9b1d6),
        faint: rgb_spec(0x565f89),
        success: rgb_spec(0x9ece6a),
        warning: rgb_spec(0xe0af68),
        danger: rgb_spec(0xf7768e),
        border: rgb_spec(0x3b4261),
        border_focused: rgb_spec(0x7aa2f7),
        selection_background: rgb_spec(0x292e42),
        bar_track: rgb_spec(0x292e42),
    }
}

/// The `solarized` palette.
pub open spec fn solarized_palette() -> Theme {
    Theme {
        accent: rgb_spec(0xb58900),
        accent_soft: rgb_spec(0xcb4b16),
        directory: rgb_spec(0x268bd2),
        file: rgb_spec(0x839496),
        text: rgb_spec(0x93a1a1),
        muted: rgb_spec(0x657b83),
        faint: rgb_spec(0x586e75),
        success: rgb_spec(0x859900),
        warning: rgb_spec(0xb58900),
        danger: rgb_spec(0xdc322f),
        border: rgb_spec(0x586e75),
        border_focused: rgb_spec(0xb58900),
        selection_background: rgb_spec(0x073642),
        bar_track: rgb_spec(0x073642),
    }
}

/// The `monochrome` palette.
pub open spec fn monochrome_palette() -> Theme {
    Theme {
        accent: rgb_spec(0xffffff),
        accent_soft: rgb_spec(0xd0d0d0),
        directory: rgb_spec(0xe0e0e0),
        file: rgb_spec(0xb0b0b0),
        text: rgb_spec(0xd0d0d0),
        muted: rgb_spec(0x8a8a8a),
        faint: rgb_spec(0x5a5a5a),
        success: rgb_spec(0xc0c0c0),
        warning: rgb_spec(0xa0a0a0),
        danger: rgb_spec(0xffffff),
        border: rgb_spec(0x4a4a4a),
        border_focused: rgb_spec(0xffffff),
        selection_background: rgb_spec(0x3a3a3a),
        bar_track: rgb_spec(0x303030),
    }
}

/// The `light` palette.
pub open spec fn light_palette() -> Theme {
    Theme {
        accent: rgb_spec(0xc2410c),
        accent_soft: rgb_spec(0xea580c),
        directory: rgb_spec(0x0550ae),
        file: rgb_spec(0x24292e),
        text: rgb_spec(0x1f2328),
        muted: rgb_spec(0x57606a),
        faint: rgb_spec(0x8c959f),
        success: rgb_spec(0x1a7f37),
        warning: rgb_spec(0x9a6700),
        danger: rgb_spec(0xcf222e),
        border: rgb_spec(0xd0d7de),
        border_focused: rgb_spec(0xc2410c),
        selection_background: rgb_spec(0xeaeef2),
        bar_track: rgb_spec(0xe6e9ed),
    }
}

/// The `basic` palette.
pub open spec fn basic_palette() -> Theme {
    Theme {
        accent: ColorSpec::LightRed,
        accent_soft: ColorSpec::Yellow,
        directory: ColorSpec::LightBlue,
        file: ColorSpec::White,
        text: ColorSpec::White,
        muted: ColorSpec::Gray,
        faint: ColorSpec::DarkGray,
        success: ColorSpec::LightGreen,
        warning: ColorSpec::LightYellow,
        danger: ColorSpec::LightRed,
        border: ColorSpec::DarkGray,
        border_focused: ColorSpec::LightRed,
        selection_background: ColorSpec::DarkGray,
        bar_track: ColorSpec::DarkGray,
    }
}

impl Theme {
    /// Warm dark palette with terracotta accents. The default.
    pub fn terracotta() -> (theme: Theme)
        ensures
            theme == terracotta_palette(),
    {
        Theme {
            accent: rgb(0xd97757),
            accent_soft: rgb(0xe8aa8c),
            directory: rgb(0x61afef),
            file: rgb(0xc8ccd4),
            text: rgb(0xdcdfe4),
            muted: rgb(0x8c94a0),
            faint: rgb(0x5a606a),
            success: rgb(0x98c379),
            warning: rgb(0xe5c07b),
            danger: rgb(0xe06c75),
            border: rgb(0x464c56),
            border_focused: rgb(0xd97757),
            selection_background: rgb(0x343842),
            bar_track: rgb(0x3a3e48),
        }
    }

    /// btop's default look: red accents, blue directories.
    pub fn btop() -> (theme: Theme)
        ensures
            theme == btop_palette(),
    {
        Theme {
            accent: rgb(0xb54040),
            accent_soft: rgb(0xd9626d),
            directory: rgb(0x4897d4),
            file: rgb(0xcccccc),
            text: rgb(0xeeeeee),
            muted: rgb(0x999999),
            faint: rgb(0x606060),
            success: rgb(0x50f095),
            warning: rgb(0xf2e266),
            danger: rgb(0xfa1e1e),
            border: rgb(0x303030),
            border_focused: rgb(0xb54040),
            selection_background: rgb(0x6a2f2f),
            bar_track: rgb(0x262626),
        }
    }

    pub fn nord() -> (theme: Theme)
        ensures
            theme == nord_palette(),
    {
        Theme {
            accent: rgb(0x88c0d0),
            accent_soft: rgb(0x8fbcbb),
            directory: rgb(0x81a1c1),
            file: rgb(0xd8dee9),
            text: rgb(0xeceff4),
            muted: rgb(0x7b88a1),
            faint: rgb(0x4c566a),
            success: rgb(0xa3be8c),
            warning: rgb(0xebcb8b),
            danger: rgb(0xbf616a),
            border: rgb(0x434c5e),
            border_focused: rgb(0x88c0d0),
            selection_background: rgb(0x3b4252),
            bar_track: rgb(0x434c5e),
        }
    }

    pub fn dracula() -> (theme: Theme)
        ensures
            theme == dracula_palette(),
    {
        Theme {
            accent: rgb(0xbd93f9),
            accent_soft: rgb(0xff79c6),
            directory: rgb(0x8be9fd),
            file: rgb(0xf8f8f2),
            text: rgb(0xf8f8f2),
            muted: rgb(0x6272a4),
            faint: rgb(0x44475a),
            success: rgb(0x50fa7b),
            warning: rgb(0xf1fa8c),
            danger: rgb(0xff5555),
            border: rgb(0x44475a),
            border_focused: rgb(0xbd93f9),
            selection_background: rgb(0x44475a),
            bar_track: rgb(0x383a4a),
        }
    }

    pub fn gruvbox() -> (theme: Theme)
        ensures
            theme == gruvbox_palette(),
    {
        Theme {
            accent: rgb(0xfe8019),
            accent_soft: rgb(0xfabd2f),
            directory: rgb(0x83a598),
            file: rgb(0xebdbb2),
            text: rgb(0xebdbb2),
            muted: rgb(0xa89984),
            faint: rgb(0x665c54),
            success: rgb(0xb8bb26),
            warning: rgb(0xfabd2f),
            danger: rgb(0xfb4934),
            border: rgb(0x504945),
            border_focused: rgb(0xfe8019),
            selection_background: rgb(0x3c3836),
            bar_track: rgb(0x3c3836),
        }
    }

    /// Catppuccin Mocha.
    pub fn catppuccin() -> (theme: Theme)
        ensures
            theme == catppuccin_palette(),
    {
        Theme {
            accent: rgb(0xcba6f7),
            accent_soft: rgb(0xf5c2e7),
            directory: rgb(0x89b4fa),
            file: rgb(0xcdd6f4),
            text: rgb(0xcdd6f4),
            muted: rgb(0xa6adc8),
            faint: rgb(0x6c7086),
            success: rgb(0xa6e3a1),
            warning: rgb(0xf9e2af),
            danger: rgb(0xf38ba8),
            border: rgb(0x45475a),
            border_focused: rgb(0xcba6f7),
            selection_background: rgb(0x313244),
            bar_track: rgb(0x313244),
        }
    }

    pub fn tokyo_night() -> (theme: Theme)
        ensures
            theme == tokyo_night_palette(),
    {
        Theme {
            accent: rgb(0x7aa2f7),
            accent_soft: rgb(0xbb9af7),
            directory: rgb(0x7dcfff),
            file: rgb(0xc0caf5),
            text: rgb(0xc0caf5),
            muted: rgb(0xa9b1d6),
            faint: rgb(0x565f89),
            success: rgb(0x9ece6a),
            warning: rgb(0xe0af68),
            danger: rgb(0xf7768e),
            border: rgb(0x3b4261),
            border_focused: rgb(0x7aa2f7),
            selection_background: rgb(0x292e42),
            bar_track: rgb(0x292e42),
        }
    }

    /// Solarized dark.
    pub fn solarized() -> (theme: Theme)
        ensures
            theme == solarized_palette(),
    {
        Theme {
            accent: rgb(0xb58900),
            accent_soft: rgb(0xcb4b16),
            directory: rgb(0x268bd2),
            file: rgb(0x839496),
            text: rgb(0x93a1a1),
            muted: rgb(0x657b83),
            faint: rgb(0x586e75),
            success: rgb(0x859900),
            warning: rgb(0xb58900),
            danger: rgb(0xdc322f),
            border: rgb(0x586e75),
            border_focused: rgb(0xb58900),
            selection_background: rgb(0x073642),
            bar_track: rgb(0x073642),
        }
    }

    /// Shades of grey only.
    pub fn monochrome() -> (theme: Theme)
        ensures
            theme == monochrome_palette(),
    {
        Theme {
            accent: rgb(0xffffff),
            accent_soft: rgb(0xd0d0d0),
            directory: rgb(0xe0e0e0),
            file: rgb(0xb0b0b0),
            text: rgb(0xd0d0d0),
            muted: rgb(0x8a8a8a),
            faint: rgb(0x5a5a5a),
            success: rgb(0xc0c0c0),
            warning: rgb(0xa0a0a0),
            danger: rgb(0xffffff),
            border: rgb(0x4a4a4a),
            border_focused: rgb(0xffffff),
            selection_background: rgb(0x3a3a3a),
            bar_track: rgb(0x303030),
        }
    }

    /// For terminals with a light background.
    pub fn light() -> (theme: Theme)
        ensures
            theme == light_palette(),
    {
        Theme {
            accent: rgb(0xc2410c),
            accent_soft: rgb(0xea580c),
            directory: rgb(0x0550ae),
            file: rgb(0x24292e),
            text: rgb(0x1f2328),
            muted: rgb(0x57606a),
            faint: rgb(0x8c959f),
            success: rgb(0x1a7f37),
            warning: rgb(0x9a6700),
            danger: rgb(0xcf222e),
            border: rgb(0xd0d7de),
            border_focused: rgb(0xc2410c),
            selection_background: rgb(0xeaeef2),
            bar_track: rgb(0xe6e9ed),
        }
    }

    /// Palette without truecolor for terminals that only support 16 colours.
    pub fn basic() -> (theme: Theme)
        ensures
            theme == basic_palette(),
    {
        Theme {
            accent: ColorSpec::LightRed,
            accent_soft: ColorSpec::Yellow,
            directory: ColorSpec::LightBlue,
            file: ColorSpec::White,
            text: ColorSpec::White,
            muted: ColorSpec::Gray,
            faint: ColorSpec::DarkGray,
            success: ColorSpec::LightGreen,
            warning: ColorSpec::LightYellow,
            danger: ColorSpec::LightRed,
            border: ColorSpec::DarkGray,
            border_focused: ColorSpec::LightRed,
            selection_background: ColorSpec::DarkGray,
            bar_track: ColorSpec::DarkGray,
        }
    }

    /// Kept for callers that only want "the default".
    pub fn default_dark() -> (theme: Theme)
        ensures
            theme == terracotta_palette(),
    {
        Theme::terracotta()
    }
}

// ---------------------------------------------------------------------------------------
// Names
// ---------------------------------------------------------------------------------------

/// Number of built-in palettes.
pub const THEME_COUNT: usize = 11;

/// The built-in palette names, in the order the settings popup cycles through them.
pub open spec fn theme_name_spec(index: int) -> Seq<char> {
    if index == 0 {
        "terracotta"@
    } else if index == 1 {
        "btop"@
    } else if index == 2 {
        "nord"@
    } else if index == 3 {
        "dracula"@
    } else if index == 4 {
        "gruvbox"@
    } else if index == 5 {
        "catppuccin"@
    } else if index == 6 {
        "tokyo-night"@
    } else if index == 7 {
        "solarized"@
    } else if index == 8 {
        "monochrome"@
    } else if index == 9 {
        "light"@
    } else {
        "basic"@
    }
}

/// The name of built-in palette `index`.
pub fn theme_name(index: usize) -> (name: &'static str)
    requires
        index < THEME_COUNT,
    ensures
        name@ == theme_name_spec(index as int),
{
    if index == 0 {
        "terracotta"
    } else if index == 1 {
        "btop"
    } else if index == 2 {
        "nord"
    } else if index == 3 {
        "dracula"
    } else if index == 4 {
        "gruvbox"
    } else if index == 5 {
        "catppuccin"
    } else if index == 6 {
        "tokyo-night"
    } else if index == 7 {
        "solarized"
    } else if index == 8 {
        "monochrome"
    } else if index == 9 {
        "light"
    } else {
        "basic"
    }
}

/// How `by_name` reads a name: trimmed, lower case, `_` as `-`.
pub open spec fn theme_key(name: Seq<char>) -> Seq<char> {
    ascii_lower(trim(name)).map_values(|c: char| if c == '_' {
        '-'
    } else {
        c
    })
}

/// The palette a normalised name stands for.
pub open spec fn palette_for_key(key: Seq<char>) -> Option<Theme> {
    if key == "terracotta"@ || key == "default"@ {
        Some(terracotta_palette())
    } else if key == "btop"@ {
        Some(btop_palette())
    } else if key == "nord"@ {
        Some(nord_palette())
    } else if key == "dracula"@ {
        Some(dracula_palette())
    } else if key == "gruvbox"@ {
        Some(gruvbox_palette())
    } else if key == "catppuccin"@ || key == "catppuccin-mocha"@ || key == "mocha"@ {
        Some(catppuccin_palette())
    } else if key == "tokyo-night"@ || key == "tokyonight"@ || key == "tokyo"@ {
        Some(tokyo_night_palette())
    } else if key == "solarized"@ || key == "solarized-dark"@ {
        Some(solarized_palette())
    } else if key == "monochrome"@ || key == "mono"@ || key == "grey"@ || key == "gray"@ {
        Some(monochrome_palette())
    } else if key == "light"@ {
        Some(light_palette())
    } else if key == "basic"@ || key == "ansi"@ || key == "16"@ {
        Some(basic_palette())
    } else {
        None
    }
}

proof fn lemma_palette_key_terracotta()
    ensures
        palette_for_key("terracotta"@) == Some(terracotta_palette()),
{

}

proof fn lemma_palette_key_default()
    ensures
        palette_for_key("default"@) == Some(terracotta_palette()),
{
    assert("default"@ != "terracotta"@) by {
        reveal_strlit("default");
        reveal_strlit("terracotta");
        assert("default"@.len() != "terracotta"@.len());
    }
}

proof fn lemma_palette_key_btop()
    ensures
        palette_for_key("btop"@) == Some(btop_palette()),
{
    assert("btop"@ != "terracotta"@ && "btop"@ != "default"@) by {
        reveal_strlit("terracotta");
        reveal_strlit("default");
        reveal_strlit("btop");
        assert("btop"@.len() != "default"@.len() && "btop"@.len() != "terracotta"@.len());
    }
}

proof fn lemma_palette_key_nord()
    ensures
        palette_for_key("nord"@) == Some(nord_palette()),
{
    assert("nord"@ != "terracotta"@ && "nord"@ != "default"@ && "nord"@ != "btop"@) by {
        reveal_strlit("default");
        reveal_strlit("terracotta");
        reveal_strlit("btop");
        reveal_strlit("nord");
        assert("nord"@.len() != "terracotta"@.len() && "nord"@[0] != "btop"@[0] && "nord"@.len() != "default"@.len());
    }
}

proof fn lemma_palette_key_dracula()
    ensures
        palette_for_key("dracula"@) == Some(dracula_palette()),
{
    assert("dracula"@ != "terracotta"@ && "dracula"@ != "default"@ && "dracula"@ != "btop"@ && "dracula"@ != "nord"@) by {
        reveal_strlit("btop");
        reveal_strlit("terracotta");
        reveal_strlit("nord");
        reveal_strlit("dracula");
        reveal_strlit("default");
        assert("dracula"@.len() != "btop"@.len() && "dracula"@.len() != "nord"@.len() && "dracula"@[1] != "default"@[1] && "dracula"@.len() != "terracotta"@.len());
    }
}

proof fn lemma_palette_key_gruvbox()
    ensures
        palette_for_key("gruvbox"@) == Some(gruvbox_palette()),
{
    assert("gruvbox"@ != "terracotta"@ && "gruvbox"@ != "default"@ && "gruvbox"@ != "btop"@ && "gruvbox"@ != "nord"@ && "gruvbox"@ != "dracula"@) by {
        reveal_strlit("btop");
        reveal_strlit("dracula");
        reveal_strlit("gruvbox");
        reveal_strlit("default");
        reveal_strlit("nord");
        reveal_strlit("terracotta");
        assert("gruvbox"@[0] != "dracula"@[0] && "gruvbox"@[0] != "default"@[0] && "gruvbox"@.len() != "terracotta"@.len() && "gruvbox"@.len() != "btop"@.len() && "gruvbox"@.len() != "nord"@.len());
    }
}

proof fn lemma_palette_key_catppuccin()
    ensures
        palette_for_key("catppuccin"@) == Some(catppuccin_palette()),
{
    assert("catppuccin"@ != "terracotta"@ && "catppuccin"@ != "default"@ && "catppuccin"@ != "btop"@ && "catppuccin"@ != "nord"@ && "catppuccin"@ != "dracula"@ && "catppuccin"@ != "gruvbox"@) by {
        reveal_strlit("btop");
        reveal_strlit("default");
        reveal_strlit("nord");
        reveal_strlit("terracotta");
        reveal_strlit("catppuccin");
        reveal_strlit("dracula");
        reveal_strlit("gruvbox");
        assert("catppuccin"@.len() != "default"@.len() && "catppuccin"@.len() != "btop"@.len() && "catppuccin"@[0] != "terracotta"@[0] && "catppuccin"@.len() != "dracula"@.len() && "catppuccin"@.len() != "gruvbox"@.len() && "catppuccin"@.len() != "nord"@.len());
    }
}

proof fn lemma_palette_key_catppuccin_mocha()
    ensures
        palette_for_key("catppuccin-mocha"@) == Some(catppuccin_palette()),
{
    assert("catppuccin-mocha"@ != "terracotta"@ && "catppuccin-mocha"@ != "default"@ && "catppuccin-mocha"@ != "btop"@ && "catppuccin-mocha"@ != "nord"@ && "catppuccin-mocha"@ != "dracula"@ && "catppuccin-mocha"@ != "gruvbox"@ && "catppuccin-mocha"@ != "catppuccin"@) by {
        reveal_strlit("catppuccin");
        reveal_strlit("terracotta");
        reveal_strlit("nord");
        reveal_strlit("default");
        reveal_strlit("dracula");
        reveal_strlit("btop");
        reveal_strlit("gruvbox");
        reveal_strlit("catppuccin-mocha");
        assert("catppuccin-mocha"@.len() != "default"@.len() && "catppuccin-mocha"@.len() != "catppuccin"@.len() && "catppuccin-mocha"@.len() != "gruvbox"@.len() && "catppuccin-mocha"@.len() != "nord"@.len() && "catppuccin-mocha"@.len() != "btop"@.len() && "catppuccin-mocha"@.len() != "terracotta"@.len() && "catppuccin-mocha"@.len() != "dracula"@.len());
    }
}

proof fn lemma_palette_key_mocha()
    ensures
        palette_for_key("mocha"@) == Some(catppuccin_palette()),
{
    assert("mocha"@ != "terracotta"@ && "mocha"@ != "default"@ && "mocha"@ != "btop"@ && "mocha"@ != "nord"@ && "mocha"@ != "dracula"@ && "mocha"@ != "gruvbox"@ && "mocha"@ != "catppuccin"@ && "mocha"@ != "catppuccin-mocha"@) by {
        reveal_strlit("mocha");
        reveal_strlit("default");
        reveal_strlit("nord");
        reveal_strlit("btop");
        reveal_strlit("catppuccin");
        reveal_strlit("terracotta");
        reveal_strlit("catppuccin-mocha");
        reveal_strlit("gruvbox");
        reveal_strlit("dracula");
        assert("mocha"@.len() != "gruvbox"@.len() && "mocha"@.len() != "terracotta"@.len() && "mocha"@.len() != "default"@.len() && "mocha"@.len() != "btop"@.len() && "mocha"@.len() != "dracula"@.len() && "mocha"@.len() != "catppuccin-mocha"@.len() && "mocha"@.len() != "catppuccin"@.len() && "mocha"@.len() != "nord"@.len());
    }
}

proof fn lemma_palette_key_tokyo_night()
    ensures
        palette_for_key("tokyo-night"@) == Some(tokyo_night_palette()),
{
    assert("tokyo-night"@ != "terracotta"@ && "tokyo-night"@ != "default"@ && "tokyo-night"@ != "btop"@ && "tokyo-night"@ != "nord"@ && "tokyo-night"@ != "dracula"@ && "tokyo-night"@ != "gruvbox"@ && "tokyo-night"@ != "catppuccin"@ && "tokyo-night"@ != "catppuccin-mocha"@ && "tokyo-night"@ != "mocha"@) by {
        reveal_strlit("terracotta");
        reveal_strlit("mocha");
        reveal_strlit("gruvbox");
        reveal_strlit("tokyo-night");
        reveal_strlit("catppuccin-mocha");
        reveal_strlit("dracula");
        reveal_strlit("nord");
        reveal_strlit("default");
        reveal_strlit("btop");
        reveal_strlit("catppuccin");
        assert("tokyo-night"@.len() != "dracula"@.len() && "tokyo-night"@.len() != "btop"@.len() && "tokyo-night"@.len() != "gruvbox"@.len() && "tokyo-night"@.len() != "catppuccin-mocha"@.len() && "tokyo-night"@.len() != "terracotta"@.len() && "tokyo-night"@.len() != "default"@.len() && "tokyo-night"@.len() != "mocha"@.len() && "tokyo-night"@.len() != "nord"@.len() && "tokyo-night"@.len() != "catppuccin"@.len());
    }
}

proof fn lemma_palette_key_tokyonight()
    ensures
        palette_for_key("tokyonight"@) == Some(tokyo_night_palette()),
{
    assert("tokyonight"@ != "terracotta"@ && "tokyonight"@ != "default"@ && "tokyonight"@ != "btop"@ && "tokyonight"@ != "nord"@ && "tokyonight"@ != "dracula"@ && "tokyonight"@ != "gruvbox"@ && "tokyonight"@ != "catppuccin"@ && "tokyonight"@ != "catppuccin-mocha"@ && "tokyonight"@ != "mocha"@ && "tokyonight"@ != "tokyo-night"@) by {
        reveal_strlit("btop");
        reveal_strlit("terracotta");
        reveal_strlit("catppuccin");
        reveal_strlit("catppuccin-mocha");
        reveal_strlit("mocha");
        reveal_strlit("nord");
        reveal_strlit("tokyonight");
        reveal_strlit("default");
        reveal_strlit("gruvbox");
        reveal_strlit("dracula");
        reveal_strlit("tokyo-night");
        assert("tokyonight"@[0] != "catppuccin"@[0] && "tokyonight"@.len() != "default"@.len() && "tokyonight"@.len() != "catppuccin-mocha"@.len() && "tokyonight"@.len() != "dracula"@.len() && "tokyonight"@.len() != "mocha"@.len() && "tokyonight"@.len() != "gruvbox"@.len() && "tokyonight"@.len() != "tokyo-night"@.len() && "tokyonight"@.len() != "btop"@.len() && "tokyonight"@[1] != "terracotta"@[1] && "tokyonight"@.len() != "nord"@.len());
    }
}

proof fn lemma_palette_key_tokyo()
    ensures
        palette_for_key("tokyo"@) == Some(tokyo_night_palette()),
{
    assert("tokyo"@ != "terracotta"@ && "tokyo"@ != "default"@ && "tokyo"@ != "btop"@ && "tokyo"@ != "nord"@ && "tokyo"@ != "dracula"@ && "tokyo"@ != "gruvbox"@ && "tokyo"@ != "catppuccin"@ && "tokyo"@ != "catppuccin-mocha"@ && "tokyo"@ != "mocha"@ && "tokyo"@ != "tokyo-night"@ && "tokyo"@ != "tokyonight"@) by {
        reveal_strlit("mocha");
        reveal_strlit("tokyo");
        reveal_strlit("nord");
        reveal_strlit("dracula");
        reveal_strlit("default");
        reveal_strlit("tokyonight");
        reveal_strlit("tokyo-night");
        reveal_strlit("gruvbox");
        reveal_strlit("terracotta");
        reveal_strlit("btop");
        reveal_strlit("catppuccin-mocha");
        reveal_strlit("catppuccin");
        assert("tokyo"@.len() != "nord"@.len() && "tokyo"@.len() != "terracotta"@.len() && "tokyo"@.len() != "tokyo-night"@.len() && "tokyo"@.len() != "catppuccin"@.len() && "tokyo"@[0] != "mocha"@[0] && "tokyo"@.len() != "dracula"@.len() && "tokyo"@.len() != "tokyonight"@.len() && "tokyo"@.len() != "gruvbox"@.len() && "tokyo"@.len() != "catppuccin-mocha"@.len() && "tokyo"@.len() != "default"@.len() && "tokyo"@.len() != "btop"@.len());
    }
}

proof fn lemma_palette_key_solarized()
    ensures
        palette_for_key("solarized"@) == Some(solarized_palette()),
{
    assert("solarized"@ != "terracotta"@ && "solarized"@ != "default"@ && "solarized"@ != "btop"@ && "solarized"@ != "nord"@ && "solarized"@ != "dracula"@ && "solarized"@ != "gruvbox"@ && "solarized"@ != "catppuccin"@ && "solarized"@ != "catppuccin-mocha"@ && "solarized"@ != "mocha"@ && "solarized"@ != "tokyo-night"@ && "solarized"@ != "tokyonight"@ && "solarized"@ != "tokyo"@) by {
        reveal_strlit("nord");
        reveal_strlit("solarized");
        reveal_strlit("tokyo");
        reveal_strlit("default");
        reveal_strlit("btop");
        reveal_strlit("tokyo-night");
        reveal_strlit("gruvbox");
        reveal_strlit("terracotta");
        reveal_strlit("catppuccin-mocha");
        reveal_strlit("mocha");
        reveal_strlit("catppuccin");
        reveal_strlit("dracula");
        reveal_strlit("tokyonight");
        assert("solarized"@.len() != "default"@.len() && "solarized"@.len() != "tokyo"@.len() && "solarized"@.len() != "catppuccin-mocha"@.len() && "solarized"@.len() != "tokyonight"@.len() && "solarized"@.len() != "catppuccin"@.len() && "solarized"@.len() != "tokyo-night"@.len() && "solarized"@.len() != "btop"@.len() && "solarized"@.len() != "gruvbox"@.len() && "solarized"@.len() != "mocha"@.len() && "solarized"@.len() != "nord"@.len() && "solarized"@.len() != "terracotta"@.len() && "solarized"@.len() != "dracula"@.len());
    }
}

proof fn lemma_palette_key_solarized_dark()
    ensures
        palette_for_key("solarized-dark"@) == Some(solarized_palette()),
{
    assert("solarized-dark"@ != "terracotta"@ && "solarized-dark"@ != "default"@ && "solarized-dark"@ != "btop"@ && "solarized-dark"@ != "nord"@ && "solarized-dark"@ != "dracula"@ && "solarized-dark"@ != "gruvbox"@ && "solarized-dark"@ != "catppuccin"@ && "solarized-dark"@ != "catppuccin-mocha"@ && "solarized-dark"@ != "mocha"@ && "solarized-dark"@ != "tokyo-night"@ && "solarized-dark"@ != "tokyonight"@ && "solarized-dark"@ != "tokyo"@ && "solarized-dark"@ != "solarized"@) by {
        reveal_strlit("solarized");
        reveal_strlit("terracotta");
        reveal_strlit("tokyo-night");
        reveal_strlit("nord");
        reveal_strlit("tokyo");
        reveal_strlit("catppuccin");
        reveal_strlit("solarized-dark");
        reveal_strlit("gruvbox");
        reveal_strlit("dracula");
        reveal_strlit("tokyonight");
        reveal_strlit("btop");
        reveal_strlit("mocha");
        reveal_strlit("catppuccin-mocha");
        reveal_strlit("default");
        assert("solarized-dark"@.len() != "catppuccin"@.len() && "solarized-dark"@.len() != "catppuccin-mocha"@.len() && "solarized-dark"@.len() != "mocha"@.len() && "solarized-dark"@.len() != "dracula"@.len() && "solarized-dark"@.len() != "nord"@.len() && "solarized-dark"@.len() != "tokyo"@.len() && "solarized-dark"@.len() != "btop"@.len() && "solarized-dark"@.len() != "tokyo-night"@.len() && "solarized-dark"@.len() != "terracotta"@.len() && "solarized-dark"@.len() != "gruvbox"@.len() && "solarized-dark"@.len() != "solarized"@.len() && "solarized-dark"@.len() != "default"@.len() && "solarized-dark"@.len() != "tokyonight"@.len());
    }
}

proof fn lemma_palette_key_monochrome()
    ensures
        palette_for_key("monochrome"@) == Some(monochrome_palette()),
{
    assert("monochrome"@ != "terracotta"@ && "monochrome"@ != "default"@ && "monochrome"@ != "btop"@ && "monochrome"@ != "nord"@ && "monochrome"@ != "dracula"@ && "monochrome"@ != "gruvbox"@ && "monochrome"@ != "catppuccin"@ && "monochrome"@ != "catppuccin-mocha"@ && "monochrome"@ != "mocha"@ && "monochrome"@ != "tokyo-night"@ && "monochrome"@ != "tokyonight"@ && "monochrome"@ != "tokyo"@ && "monochrome"@ != "solarized"@ && "monochrome"@ != "solarized-dark"@) by {
        reveal_strlit("solarized-dark");
        reveal_strlit("catppuccin-mocha");
        reveal_strlit("dracula");
        reveal_strlit("tokyonight");
        reveal_strlit("tokyo-night");
        reveal_strlit("btop");
        reveal_strlit("solarized");
        reveal_strlit("monochrome");
        reveal_strlit("catppuccin");
        reveal_strlit("default");
        reveal_strlit("gruvbox");
        reveal_strlit("nord");
        reveal_strlit("tokyo");
        reveal_strlit("mocha");
        reveal_strlit("terracotta");
        assert("monochrome"@[0] != "terracotta"@[0] && "monochrome"@.len() != "solarized"@.len() && "monochrome"@[0] != "tokyonight"@[0] && "monochrome"@.len() != "solarized-dark"@.len() && "monochrome"@.len() != "tokyo-night"@.len() && "monochrome"@.len() != "default"@.len() && "monochrome"@[0] != "catppuccin"@[0] && "monochrome"@.len() != "dracula"@.len() && "monochrome"@.len() != "mocha"@.len() && "monochrome"@.len() != "nord"@.len() && "monochrome"@.len() != "tokyo"@.len() && "monochrome"@.len() != "btop"@.len() && "monochrome"@.len() != "gruvbox"@.len() && "monochrome"@.len() != "catppuccin-mocha"@.len());
    }
}

proof fn lemma_palette_key_mono()
    ensures
        palette_for_key("mono"@) == Some(monochrome_palette()),
{
    assert("mono"@ != "terracotta"@ && "mono"@ != "default"@ && "mono"@ != "btop"@ && "mono"@ != "nord"@ && "mono"@ != "dracula"@ && "mono"@ != "gruvbox"@ && "mono"@ != "catppuccin"@ && "mono"@ != "catppuccin-mocha"@ && "mono"@ != "mocha"@ && "mono"@ != "tokyo-night"@ && "mono"@ != "tokyonight"@ && "mono"@ != "tokyo"@ && "mono"@ != "solarized"@ && "mono"@ != "solarized-dark"@ && "mono"@ != "monochrome"@) by {
        reveal_strlit("tokyonight");
        reveal_strlit("solarized-dark");
        reveal_strlit("solarized");
        reveal_strlit("terracotta");
        reveal_strlit("gruvbox");
        reveal_strlit("tokyo");
        reveal_strlit("dracula");
        reveal_strlit("tokyo-night");
        reveal_strlit("mocha");
        reveal_strlit("nord");
        reveal_strlit("btop");
        reveal_strlit("monochrome");
        reveal_strlit("catppuccin-mocha");
        reveal_strlit("default");
        reveal_strlit("mono");
        reveal_strlit("catppuccin");
        assert("mono"@[0] != "btop"@[0] && "mono"@.len() != "mocha"@.len() && "mono"@.len() != "monochrome"@.len() && "mono"@.len() != "solarized"@.len() && "mono"@.len() != "tokyo-night"@.len() && "mono"@[0] != "nord"@[0] && "mono"@.len() != "catppuccin"@.len() && "mono"@.len() != "default"@.len() && "mono"@.len() != "terracotta"@.len() && "mono"@.len() != "tokyonight"@.len() && "mono"@.len() != "catppuccin-mocha"@.len() && "mono"@.len() != "gruvbox"@.len() && "mono"@.len() != "dracula"@.len() && "mono"@.len() != "tokyo"@.len() && "mono"@.len() != "solarized-dark"@.len());
    }
}

proof fn lemma_palette_key_grey()
    ensures
        palette_for_key("grey"@) == Some(monochrome_palette()),
{
    assert("grey"@ != "terracotta"@ && "grey"@ != "default"@ && "grey"@ != "btop"@ && "grey"@ != "nord"@ && "grey"@ != "dracula"@ && "grey"@ != "gruvbox"@ && "grey"@ != "catppuccin"@ && "grey"@ != "catppuccin-mocha"@ && "grey"@ != "mocha"@ && "grey"@ != "tokyo-night"@ && "grey"@ != "tokyonight"@ && "grey"@ != "tokyo"@ && "grey"@ != "solarized"@ && "grey"@ != "solarized-dark"@ && "grey"@ != "monochrome"@ && "grey"@ != "mono"@) by {
        reveal_strlit("grey");
        reveal_strlit("solarized");
        reveal_strlit("solarized-dark");
        reveal_strlit("dracula");
        reveal_strlit("btop");
        reveal_strlit("catppuccin-mocha");
        reveal_strlit("tokyo-night");
        reveal_strlit("tokyonight");
        reveal_strlit("default");
        reveal_strlit("catppuccin");
        reveal_strlit("nord");
        reveal_strlit("gruvbox");
        reveal_strlit("mocha");
        reveal_strlit("tokyo");
        reveal_strlit("monochrome");
        reveal_strlit("mono");
        reveal_strlit("terracotta");
        assert("grey"@[0] != "btop"@[0] && "grey"@.len() != "tokyo"@.len() && "grey"@.len() != "dracula"@.len() && "grey"@[0] != "mono"@[0] && "grey"@.len() != "solarized"@.len() && "grey"@.len() != "tokyo-night"@.len() && "grey"@.len() != "catppuccin"@.len() && "grey"@.len() != "tokyonight"@.len() && "grey"@.len() != "solarized-dark"@.len() && "grey"@[0] != "nord"@[0] && "grey"@.len() != "catppuccin-mocha"@.len() && "grey"@.len() != "default"@.len() && "grey"@.len() != "mocha"@.len() && "grey"@.len() != "gruvbox"@.len() && "grey"@.len() != "terracotta"@.len() && "grey"@.len() != "monochrome"@.len());
    }
}

proof fn lemma_palette_key_gray()
    ensures
        palette_for_key("gray"@) == Some(monochrome_palette()),
{
    assert("gray"@ != "terracotta"@ && "gray"@ != "default"@ && "gray"@ != "btop"@ && "gray"@ != "nord"@ && "gray"@ != "dracula"@ && "gray"@ != "gruvbox"@ && "gray"@ != "catppuccin"@ && "gray"@ != "catppuccin-mocha"@ && "gray"@ != "mocha"@ && "gray"@ != "tokyo-night"@ && "gray"@ != "tokyonight"@ && "gray"@ != "tokyo"@ && "gray"@ != "solarized"@ && "gray"@ != "solarized-dark"@ && "gray"@ != "monochrome"@ && "gray"@ != "mono"@ && "gray"@ != "grey"@) by {
        reveal_strlit("catppuccin");
        reveal_strlit("gruvbox");
        reveal_strlit("btop");
        reveal_strlit("solarized-dark");
        reveal_strlit("dracula");
        reveal_strlit("solarized");
        reveal_strlit("mono");
        reveal_strlit("monochrome");
        reveal_strlit("tokyo-night");
        reveal_strlit("grey");
        reveal_strlit("terracotta");
        reveal_strlit("tokyonight");
        reveal_strlit("default");
        reveal_strlit("catppuccin-mocha");
        reveal_strlit("tokyo");
        reveal_strlit("mocha");
        reveal_strlit("gray");
        reveal_strlit("nord");
        assert("gray"@.len() != "catppuccin-mocha"@.len() && "gray"@.len() != "dracula"@.len() && "gray"@.len() != "terracotta"@.len() && "gray"@.len() != "tokyo-night"@.len() && "gray"@.len() != "solarized-dark"@.len() && "gray"@[0] != "btop"@[0] && "gray"@[0] != "nord"@[0] && "gray"@[0] != "mono"@[0] && "gray"@[2] != "grey"@[2] && "gray"@.len() != "solarized"@.len() && "gray"@.len() != "catppuccin"@.len() && "gray"@.len() != "tokyo"@.len() && "gray"@.len() != "monochrome"@.len() && "gray"@.len() != "default"@.len() && "gray"@.len() != "gruvbox"@.len() && "gray"@.len() != "tokyonight"@.len() && "gray"@.len() != "mocha"@.len());
    }
}

proof fn lemma_palette_key_light()
    ensures
        palette_for_key("light"@) == Some(light_palette()),
{
    assert("light"@ != "terracotta"@ && "light"@ != "default"@ && "light"@ != "btop"@ && "light"@ != "nord"@ && "light"@ != "dracula"@ && "light"@ != "gruvbox"@ && "light"@ != "catppuccin"@ && "light"@ != "catppuccin-mocha"@ && "light"@ != "mocha"@ && "light"@ != "tokyo-night"@ && "light"@ != "tokyonight"@ && "light"@ != "tokyo"@ && "light"@ != "solarized"@ && "light"@ != "solarized-dark"@ && "light"@ != "monochrome"@ && "light"@ != "mono"@ && "light"@ != "grey"@ && "light"@ != "gray"@) by {
        reveal_strlit("light");
        reveal_strlit("terracotta");
        reveal_strlit("solarized");
        reveal_strlit("solarized-dark");
        reveal_strlit("gray");
        reveal_strlit("mocha");
        reveal_strlit("tokyonight");
        reveal_strlit("nord");
        reveal_strlit("dracula");
        reveal_strlit("grey");
        reveal_strlit("monochrome");
        reveal_strlit("btop");
        reveal_strlit("gruvbox");
        reveal_strlit("tokyo");
        reveal_strlit("tokyo-night");
        reveal_strlit("catppuccin");
        reveal_strlit("catppuccin-mocha");
        reveal_strlit("default");
        reveal_strlit("mono");
        assert("light"@.len() != "gruvbox"@.len() && "light"@[0] != "tokyo"@[0] && "light"@.len() != "terracotta"@.len() && "light"@.len() != "solarized"@.len() && "light"@.len() != "catppuccin"@.len() && "light"@.len() != "catppuccin-mocha"@.len() && "light"@.len() != "mono"@.len() && "light"@.len() != "gray"@.len() && "light"@.len() != "nord"@.len() && "light"@.len() != "tokyonight"@.len() && "light"@.len() != "btop"@.len() && "light"@.len() != "solarized-dark"@.len() && "light"@.len() != "grey"@.len() && "light"@.len() != "dracula"@.len() && "light"@.len() != "tokyo-night"@.len() && "light"@.len() != "monochrome"@.len() && "light"@[0] != "mocha"@[0] && "light"@.len() != "default"@.len());
    }
}

proof fn lemma_palette_key_basic()
    ensures
        palette_for_key("basic"@) == Some(basic_palette()),
{
    assert("basic"@ != "terracotta"@ && "basic"@ != "default"@ && "basic"@ != "btop"@ && "basic"@ != "nord"@ && "basic"@ != "dracula"@ && "basic"@ != "gruvbox"@ && "basic"@ != "catppuccin"@ && "basic"@ != "catppuccin-mocha"@ && "basic"@ != "mocha"@ && "basic"@ != "tokyo-night"@ && "basic"@ != "tokyonight"@ && "basic"@ != "tokyo"@ && "basic"@ != "solarized"@ && "basic"@ != "solarized-dark"@ && "basic"@ != "monochrome"@ && "basic"@ != "mono"@ && "basic"@ != "grey"@ && "basic"@ != "gray"@ && "basic"@ != "light"@) by {
        reveal_strlit("solarized");
        reveal_strlit("btop");
        reveal_strlit("tokyo-night");
        reveal_strlit("solarized-dark");
        reveal_strlit("mono");
        reveal_strlit("grey");
        reveal_strlit("mocha");
        reveal_strlit("catppuccin");
        reveal_strlit("dracula");
        reveal_strlit("basic");
        reveal_strlit("nord");
        reveal_strlit("light");
        reveal_strlit("monochrome");
        reveal_strlit("default");
        reveal_strlit("gruvbox");
        reveal_strlit("tokyonight");
        reveal_strlit("terracotta");
        reveal_strlit("tokyo");
        reveal_strlit("catppuccin-mocha");
        reveal_strlit("gray");
        assert("basic"@.len() != "tokyo-night"@.len() && "basic"@.len() != "terracotta"@.len() && "basic"@.len() != "solarized-dark"@.len() && "basic"@.len() != "dracula"@.len() && "basic"@[0] != "light"@[0] && "basic"@.len() != "mono"@.len() && "basic"@.len() != "btop"@.len() && "basic"@.len() != "monochrome"@.len() && "basic"@[0] != "mocha"@[0] && "basic"@.len() != "gray"@.len() && "basic"@.len() != "catppuccin"@.len() && "basic"@.len() != "gruvbox"@.len() && "basic"@.len() != "tokyonight"@.len() && "basic"@.len() != "nord"@.len() && "basic"@[0] != "tokyo"@[0] && "basic"@.len() != "default"@.len() && "basic"@.len() != "solarized"@.len() && "basic"@.len() != "catppuccin-mocha"@.len() && "basic"@.len() != "grey"@.len());
    }
}

proof fn lemma_palette_key_ansi()
    ensures
        palette_for_key("ansi"@) == Some(basic_palette()),
{
    assert("ansi"@ != "terracotta"@ && "ansi"@ != "default"@ && "ansi"@ != "btop"@ && "ansi"@ != "nord"@ && "ansi"@ != "dracula"@ && "ansi"@ != "gruvbox"@ && "ansi"@ != "catppuccin"@ && "ansi"@ != "catppuccin-mocha"@ && "ansi"@ != "mocha"@ && "ansi"@ != "tokyo-night"@ && "ansi"@ != "tokyonight"@ && "ansi"@ != "tokyo"@ && "ansi"@ != "solarized"@ && "ansi"@ != "solarized-dark"@ && "ansi"@ != "monochrome"@ && "ansi"@ != "mono"@ && "ansi"@ != "grey"@ && "ansi"@ != "gray"@ && "ansi"@ != "light"@ && "ansi"@ != "basic"@) by {
        reveal_strlit("monochrome");
        reveal_strlit("btop");
        reveal_strlit("solarized-dark");
        reveal_strlit("nord");
        reveal_strlit("ansi");
        reveal_strlit("gruvbox");
        reveal_strlit("mono");
        reveal_strlit("mocha");
        reveal_strlit("tokyonight");
        reveal_strlit("default");
        reveal_strlit("grey");
        reveal_strlit("light");
        reveal_strlit("basic");
        reveal_strlit("catppuccin-mocha");
        reveal_strlit("tokyo");
        reveal_strlit("terracotta");
        reveal_strlit("dracula");
        reveal_strlit("gray");
        reveal_strlit("solarized");
        reveal_strlit("tokyo-night");
        reveal_strlit("catppuccin");
        assert("ansi"@.len() != "terracotta"@.len() && "ansi"@.len() != "gruvbox"@.len() && "ansi"@.len() != "light"@.len() && "ansi"@.len() != "basic"@.len() && "ansi"@.len() != "catppuccin"@.len() && "ansi"@[0] != "nord"@[0] && "ansi"@.len() != "mocha"@.len() && "ansi"@.len() != "default"@.len() && "ansi"@[0] != "btop"@[0] && "ansi"@.len() != "solarized-dark"@.len() && "ansi"@.len() != "dracula"@.len() && "ansi"@.len() != "tokyonight"@.len() && "ansi"@[0] != "grey"@[0] && "ansi"@[0] != "gray"@[0] && "ansi"@.len() != "monochrome"@.len() && "ansi"@.len() != "catppuccin-mocha"@.len() && "ansi"@.len() != "tokyo-night"@.len() && "ansi"@.len() != "solarized"@.len() && "ansi"@.len() != "tokyo"@.len() && "ansi"@[0] != "mono"@[0]);
    }
}

proof fn lemma_palette_key_n16()
    ensures
        palette_for_key("16"@) == Some(basic_palette()),
{
    assert("16"@ != "terracotta"@ && "16"@ != "default"@ && "16"@ != "btop"@ && "16"@ != "nord"@ && "16"@ != "dracula"@ && "16"@ != "gruvbox"@ && "16"@ != "catppuccin"@ && "16"@ != "catppuccin-mocha"@ && "16"@ != "mocha"@ && "16"@ != "tokyo-night"@ && "16"@ != "tokyonight"@ && "16"@ != "tokyo"@ && "16"@ != "solarized"@ && "16"@ != "solarized-dark"@ && "16"@ != "monochrome"@ && "16"@ != "mono"@ && "16"@ != "grey"@ && "16"@ != "gray"@ && "16"@ != "light"@ && "16"@ != "basic"@ && "16"@ != "ansi"@) by {
        reveal_strlit("solarized");
        reveal_strlit("gray");
        reveal_strlit("tokyo");
        reveal_strlit("grey");
        reveal_strlit("light");
        reveal_strlit("solarized-dark");
        reveal_strlit("16");
        reveal_strlit("mocha");
        reveal_strlit("gruvbox");
        reveal_strlit("dracula");
        reveal_strlit("btop");
        reveal_strlit("default");
        reveal_strlit("catppuccin-mocha");
        reveal_strlit("tokyonight");
        reveal_strlit("mono");
        reveal_strlit("basic");
        reveal_strlit("tokyo-night");
        reveal_strlit("monochrome");
        reveal_strlit("nord");
        reveal_strlit("catppuccin");
        reveal_strlit("ansi");
        reveal_strlit("terracotta");
        assert("16"@.len() != "catppuccin"@.len() && "16"@.len() != "light"@.len() && "16"@.len() != "tokyo-night"@.len() && "16"@.len() != "grey"@.len() && "16"@.len() != "basic"@.len() && "16"@.len() != "terracotta"@.len() && "16"@.len() != "btop"@.len() && "16"@.len() != "gray"@.len() && "16"@.len() != "tokyonight"@.len() && "16"@.len() != "tokyo"@.len() && "16"@.len() != "solarized-dark"@.len() && "16"@.len() != "solarized"@.len() && "16"@.len() != "catppuccin-mocha"@.len() && "16"@.len() != "dracula"@.len() && "16"@.len() != "mocha"@.len() && "16"@.len() != "nord"@.len() && "16"@.len() != "monochrome"@.len() && "16"@.len() != "mono"@.len() && "16"@.len() != "ansi"@.len() && "16"@.len() != "gruvbox"@.len() && "16"@.len() != "default"@.len());
    }
}

/// Each built-in palette is found under its name and under each of its other spellings,
/// whatever the case, with `_` for `-` and with whitespace around it; `default` is the
/// default palette.
pub proof fn lemma_palette_names(name: Seq<char>)
    ensures
        theme_key(name) == "terracotta"@ ==> palette_for_key(theme_key(name)) == Some(terracotta_palette()),
        theme_key(name) == "default"@ ==> palette_for_key(theme_key(name)) == Some(terracotta_palette()),
        theme_key(name) == "btop"@ ==> palette_for_key(theme_key(name)) == Some(btop_palette()),
        theme_key(name) == "nord"@ ==> palette_for_key(theme_key(name)) == Some(nord_palette()),
        theme_key(name) == "dracula"@ ==> palette_for_key(theme_key(name)) == Some(dracula_palette()),
        theme_key(name) == "gruvbox"@ ==> palette_for_key(theme_key(name)) == Some(gruvbox_palette()),
        theme_key(name) == "catppuccin"@ ==> palette_for_key(theme_key(name)) == Some(catppuccin_palette()),
        theme_key(name) == "catppuccin-mocha"@ ==> palette_for_key(theme_key(name)) == Some(catppuccin_palette()),
        theme_key(name) == "mocha"@ ==> palette_for_key(theme_key(name)) == Some(catppuccin_palette()),
        theme_key(name) == "tokyo-night"@ ==> palette_for_key(theme_key(name)) == Some(tokyo_night_palette()),
        theme_key(name) == "tokyonight"@ ==> palette_for_key(theme_key(name)) == Some(tokyo_night_palette()),
        theme_key(name) == "tokyo"@ ==> palette_for_key(theme_key(name)) == Some(tokyo_night_palette()),
        theme_key(name) == "solarized"@ ==> palette_for_key(theme_key(name)) == Some(solarized_palette()),
        theme_key(name) == "solarized-dark"@ ==> palette_for_key(theme_key(name)) == Some(solarized_palette()),
        theme_key(name) == "monochrome"@ ==> palette_for_key(theme_key(name)) == Some(monochrome_palette()),
        theme_key(name) == "mono"@ ==> palette_for_key(theme_key(name)) == Some(monochrome_palette()),
        theme_key(name) == "grey"@ ==> palette_for_key(theme_key(name)) == Some(monochrome_palette()),
        theme_key(name) == "gray"@ ==> palette_for_key(theme_key(name)) == Some(monochrome_palette()),
        theme_key(name) == "light"@ ==> palette_for_key(theme_key(name)) == Some(light_palette()),
        theme_key(name) == "basic"@ ==> palette_for_key(theme_key(name)) == Some(basic_palette()),
        theme_key(name) == "ansi"@ ==> palette_for_key(theme_key(name)) == Some(basic_palette()),
        theme_key(name) == "16"@ ==> palette_for_key(theme_key(name)) == Some(basic_palette()),
{
    lemma_palette_key_terracotta();
    lemma_palette_key_default();
    lemma_palette_key_btop();
    lemma_palette_key_nord();
    lemma_palette_key_dracula();
    lemma_palette_key_gruvbox();
    lemma_palette_key_catppuccin();
    lemma_palette_key_catppuccin_mocha();
    lemma_palette_key_mocha();
    lemma_palette_key_tokyo_night();
    lemma_palette_key_tokyonight();
    lemma_palette_key_tokyo();
    lemma_palette_key_solarized();
    lemma_palette_key_solarized_dark();
    lemma_palette_key_monochrome();
    lemma_palette_key_mono();
    lemma_palette_key_grey();
    lemma_palette_key_gray();
    lemma_palette_key_light();
    lemma_palette_key_basic();
    lemma_palette_key_ansi();
    lemma_palette_key_n16();
}

fn underscores_to_dashes(chars: &[char]) -> (result: Vec<char>)
    ensures
        result@ == chars@.map_values(|c: char| if c == '_' {
            '-'
        } else {
            c
        }),
{
    let mut result: Vec<char> = Vec::new();
    let mut i: usize = 0;
    while i < chars.len()
        invariant
            0 <= i <= chars@.len(),
            result@ == chars@.take(i as int).map_values(|c: char| if c == '_' {
                '-'
            } else {
                c
            }),
        decreases chars@.len() - i,
    {
        let c = chars[i];
        result.push(if c == '_' {
            '-'
        } else {
            c
        });
        assert(result@ =~= chars@.take(i + 1).map_values(|c: char| if c == '_' {
            '-'
        } else {
            c
        }));
        i += 1;
    }
    assert(chars@.take(chars@.len() as int) =~= chars@);
    result
}

impl Theme {
    /// The built-in palette called `name` (any case, surrounding spaces ignored, `_` for `-`,
    /// a few aliases).
    pub fn by_name(name: &str) -> (theme: Option<Theme>)
        ensures
            theme == palette_for_key(theme_key(name@)),
    {
        let chars = chars_of(name);
        let trimmed = trim_chars(chars.as_slice());
        let lower = lower_chars(trimmed.as_slice());
        let key_chars = underscores_to_dashes(lower.as_slice());
        let key = key_chars.as_slice();
        if chars_are(key, "terracotta") || chars_are(key, "default") {
            Some(Theme::terracotta())
        } else if chars_are(key, "btop") {
            Some(Theme::btop())
        } else if chars_are(key, "nord") {
            Some(Theme::nord())
        } else if chars_are(key, "dracula") {
            Some(Theme::dracula())
        } else if chars_are(key, "gruvbox") {
            Some(Theme::gruvbox())
        } else if chars_are(key, "catppuccin") || chars_are(key, "catppuccin-mocha") || chars_are(key, "mocha") {
            Some(Theme::catppuccin())
        } else if chars_are(key, "tokyo-night") || chars_are(key, "tokyonight") || chars_are(key, "tokyo") {
            Some(Theme::tokyo_night())
        } else if chars_are(key, "solarized") || chars_are(key, "solarized-dark") {
            Some(Theme::solarized())
        } else if chars_are(key, "monochrome") || chars_are(key, "mono") || chars_are(key, "grey") || chars_are(key, "gray") {
            Some(Theme::monochrome())
        } else if chars_are(key, "light") {
            Some(Theme::light())
        } else if chars_are(key, "basic") || chars_are(key, "ansi") || chars_are(key, "16") {
            Some(Theme::basic())
        } else {
            None
        }
    }

    /// One line about the palette called exactly `name`.
    pub fn describe(name: &str) -> (description: &'static str)
        ensures
            description@ == describe_spec(name@),
    {
        let chars = chars_of(name);
        let n = chars.as_slice();
        if chars_are(n, "terracotta") {
            "warm terracotta accents, blue directories (default)"
        } else if chars_are(n, "btop") {
            "red accents and blue directories, like btop"
        } else if chars_are(n, "nord") {
            "cool arctic blues"
        } else if chars_are(n, "dracula") {
            "purple, pink and cyan"
        } else if chars_are(n, "gruvbox") {
            "retro orange and olive"
        } else if chars_are(n, "catppuccin") {
            "pastel mocha"
        } else if chars_are(n, "tokyo-night") {
            "deep blue night"
        } else if chars_are(n, "solarized") {
            "solarized dark"
        } else if chars_are(n, "monochrome") {
            "greys only"
        } else if chars_are(n, "light") {
            "for light terminal backgrounds"
        } else if chars_are(n, "basic") {
            "16 ANSI colours, for terminals without truecolor"
        } else {
            "custom"
        }
    }

    /// The built-in name `step` positions away from `current` (wrapping); an unknown name
    /// counts as the first.
    pub fn neighbour_name(current: &str, step: isize) -> (name: &'static str)
        requires
            theme_position(current@, 0) + step <= isize::MAX,
        ensures
            name@ == theme_name_spec((theme_position(current@, 0) + step) % (THEME_COUNT as int)),
    {
        let chars = chars_of(current);
        let mut index: usize = 0;
        let mut found = false;
        while index < THEME_COUNT && !found
            invariant
                0 <= index <= THEME_COUNT,
                chars@ == current@,
                theme_position(current@, 0) == (if found {
                    index as nat
                } else {
                    theme_position(current@, index as nat)
                }),
                found ==> index < THEME_COUNT,
            decreases THEME_COUNT - index + (if found {
                0int
            } else {
                1int
            }),
        {
            if chars_are(chars.as_slice(), theme_name(index)) {
                found = true;
            } else {
                index += 1;
            }
        }
        let position: usize = if found {
            index
        } else {
            0
        };
        let total: i128 = position as i128 + step as i128;
        let count: i128 = THEME_COUNT as i128;
        let wrapped: i128 = if total >= 0 {
            total % count
        } else {
            let r = (-total) % count;
            if r == 0 {
                0
            } else {
                count - r
            }
        };
        proof {
            let t = total as int;
            if t < 0 {
                let r = (-t) % 11;
                assert(r == 0 ==> t % 11 == 0) by (nonlinear_arith)
                    requires
                        r == (-t) % 11,
                        t < 0,
                ;
                assert(r != 0 ==> t % 11 == 11 - r) by (nonlinear_arith)
                    requires
                        r == (-t) % 11,
                        t < 0,
                ;
            }
        }
        theme_name(wrapped as usize)
    }
}

/// Position of `name` among the built-in names from `from` on; the first when it is not one.
pub open spec fn theme_position(name: Seq<char>, from: nat) -> nat
    decreases THEME_COUNT - from,
{
    if from >= THEME_COUNT {
        0
    } else if name == theme_name_spec(from as int) {
        from
    } else {
        theme_position(name, from + 1)
    }
}

/// One line about a palette.
pub open spec fn describe_spec(name: Seq<char>) -> Seq<char> {
    if name == "terracotta"@ {
        "warm terracotta accents, blue directories (default)"@
    } else if name == "btop"@ {
        "red accents and blue directories, like btop"@
    } else if name == "nord"@ {
        "cool arctic blues"@
    } else if name == "dracula"@ {
        "purple, pink and cyan"@
    } else if name == "gruvbox"@ {
        "retro orange and olive"@
    } else if name == "catppuccin"@ {
        "pastel mocha"@
    } else if name == "tokyo-night"@ {
        "deep blue night"@
    } else if name == "solarized"@ {
        "solarized dark"@
    } else if name == "monochrome"@ {
        "greys only"@
    } else if name == "light"@ {
        "for light terminal backgrounds"@
    } else if name == "basic"@ {
        "16 ANSI colours, for terminals without truecolor"@
    } else {
        "custom"@
    }
}

// ---------------------------------------------------------------------------------------
// Colour values
// ---------------------------------------------------------------------------------------

/// How a colour name is read: lower case, `-` and spaces as `_`.
pub open spec fn color_key(text: Seq<char>) -> Seq<char> {
    ascii_lower(text).map_values(|c: char| if c == '-' || c == ' ' {
        '_'
    } else {
        c
    })
}

/// The ANSI colour a normalised name stands for.
pub open spec fn named_color(key: Seq<char>) -> Option<ColorSpec> {
    if key == "black"@ {
        Some(ColorSpec::Black)
    } else if key == "red"@ {
        Some(ColorSpec::Red)
    } else if key == "green"@ {
        Some(ColorSpec::Green)
    } else if key == "yellow"@ {
        Some(ColorSpec::Yellow)
    } else if key == "blue"@ {
        Some(ColorSpec::Blue)
    } else if key == "magenta"@ || key == "purple"@ {
        Some(ColorSpec::Magenta)
    } else if key == "cyan"@ {
        Some(ColorSpec::Cyan)
    } else if key == "white"@ {
        Some(ColorSpec::White)
    } else if key == "gray"@ || key == "grey"@ {
        Some(ColorSpec::Gray)
    } else if key == "dark_gray"@ || key == "dark_grey"@ || key == "darkgray"@ || key == "darkgrey"@ {
        Some(ColorSpec::DarkGray)
    } else if key == "light_red"@ || key == "lightred"@ {
        Some(ColorSpec::LightRed)
    } else if key == "light_green"@ || key == "lightgreen"@ {
        Some(ColorSpec::LightGreen)
    } else if key == "light_yellow"@ || key == "lightyellow"@ {
        Some(ColorSpec::LightYellow)
    } else if key == "light_blue"@ || key == "lightblue"@ {
        Some(ColorSpec::LightBlue)
    } else if key == "light_magenta"@ || key == "lightmagenta"@ {
        Some(ColorSpec::LightMagenta)
    } else if key == "light_cyan"@ || key == "lightcyan"@ {
        Some(ColorSpec::LightCyan)
    } else if key == "reset"@ || key == "default"@ || key == "none"@ {
        Some(ColorSpec::Reset)
    } else {
        None
    }
}

/// A string with a character that is not a digit of `radix` has no value.
proof fn lemma_not_all_digits(s: Seq<char>, radix: nat, k: int)
    requires
        0 <= k < s.len(),
        digit_value(s[k], radix) is None,
    ensures
        digits_value(s, radix) is None,
    decreases s.len(),
{
    if k < s.len() - 1 {
        assert(s.drop_last()[k] == s[k]);
        lemma_not_all_digits(s.drop_last(), radix, k);
    }
}

/// A value whose name starts with a letter is neither a `#` value nor a palette index, so
/// it is read as a name.
proof fn lemma_read_as_name(text: Seq<char>)
    requires
        color_key(trim(text)).len() > 0,
        'a' <= color_key(trim(text))[0] <= 'z',
    ensures
        parse_color_spec(text) == (match named_color(color_key(trim(text))) {
            Some(color) => Ok::<ColorSpec, Seq<char>>(color),
            None => Err(
                "`"@ + trim(text) + "` is not a known colour (use #rrggbb, an ANSI name or 0-255)"@,
            ),
        }),
{
    let t = trim(text);
    assert(color_key(t).len() == t.len());
    assert(color_key(t)[0] == (if lower_char(t[0]) == '-' || lower_char(t[0]) == ' ' {
        '_'
    } else {
        lower_char(t[0])
    }));
    assert(('a' <= t[0] <= 'z') || ('A' <= t[0] <= 'Z'));
    assert(digit_value(t[0], 10) is None);
    lemma_not_all_digits(t, 10, 0);
}

/// Each ANSI colour name, and each of its spellings, gives its colour: whatever the case,
/// with `-` or a space in place of `_`, and with whitespace around it.
pub proof fn lemma_ansi_colour_names(text: Seq<char>)
    ensures
        color_key(trim(text)) == "black"@ ==> parse_color_spec(text) == Ok::<ColorSpec, Seq<char>>(ColorSpec::Black),
        color_key(trim(text)) == "red"@ ==> parse_color_spec(text) == Ok::<ColorSpec, Seq<char>>(ColorSpec::Red),
        color_key(trim(text)) == "green"@ ==> parse_color_spec(text) == Ok::<ColorSpec, Seq<char>>(ColorSpec::Green),
        color_key(trim(text)) == "yellow"@ ==> parse_color_spec(text) == Ok::<ColorSpec, Seq<char>>(ColorSpec::Yellow),
        color_key(trim(text)) == "blue"@ ==> parse_color_spec(text) == Ok::<ColorSpec, Seq<char>>(ColorSpec::Blue),
        color_key(trim(text)) == "magenta"@ ==> parse_color_spec(text) == Ok::<ColorSpec, Seq<char>>(ColorSpec::Magenta),
        color_key(trim(text)) == "purple"@ ==> parse_color_spec(text) == Ok::<ColorSpec, Seq<char>>(ColorSpec::Magenta),
        color_key(trim(text)) == "cyan"@ ==> parse_color_spec(text) == Ok::<ColorSpec, Seq<char>>(ColorSpec::Cyan),
        color_key(trim(text)) == "white"@ ==> parse_color_spec(text) == Ok::<ColorSpec, Seq<char>>(ColorSpec::White),
        color_key(trim(text)) == "gray"@ ==> parse_color_spec(text) == Ok::<ColorSpec, Seq<char>>(ColorSpec::Gray),
        color_key(trim(text)) == "grey"@ ==> parse_color_spec(text) == Ok::<ColorSpec, Seq<char>>(ColorSpec::Gray),
        color_key(trim(text)) == "dark_gray"@ ==> parse_color_spec(text) == Ok::<ColorSpec, Seq<char>>(ColorSpec::DarkGray),
        color_key(trim(text)) == "dark_grey"@ ==> parse_color_spec(text) == Ok::<ColorSpec, Seq<char>>(ColorSpec::DarkGray),
        color_key(trim(text)) == "darkgray"@ ==> parse_color_spec(text) == Ok::<ColorSpec, Seq<char>>(ColorSpec::DarkGray),
        color_key(trim(text)) == "darkgrey"@ ==> parse_color_spec(text) == Ok::<ColorSpec, Seq<char>>(ColorSpec::DarkGray),
        color_key(trim(text)) == "light_red"@ ==> parse_color_spec(text) == Ok::<ColorSpec, Seq<char>>(ColorSpec::LightRed),
        color_key(trim(text)) == "lightred"@ ==> parse_color_spec(text) == Ok::<ColorSpec, Seq<char>>(ColorSpec::LightRed),
        color_key(trim(text)) == "light_green"@ ==> parse_color_spec(text) == Ok::<ColorSpec, Seq<char>>(ColorSpec::LightGreen),
        color_key(trim(text)) == "lightgreen"@ ==> parse_color_spec(text) == Ok::<ColorSpec, Seq<char>>(ColorSpec::LightGreen),
        color_key(trim(text)) == "light_yellow"@ ==> parse_color_spec(text) == Ok::<ColorSpec, Seq<char>>(ColorSpec::LightYellow),
        color_key(trim(text)) == "lightyellow"@ ==> parse_color_spec(text) == Ok::<ColorSpec, Seq<char>>(ColorSpec::LightYellow),
        color_key(trim(text)) == "light_blue"@ ==> parse_color_spec(text) == Ok::<ColorSpec, Seq<char>>(ColorSpec::LightBlue),
        color_key(trim(text)) == "lightblue"@ ==> parse_color_spec(text) == Ok::<ColorSpec, Seq<char>>(ColorSpec::LightBlue),
        color_key(trim(text)) == "light_magenta"@ ==> parse_color_spec(text) == Ok::<ColorSpec, Seq<char>>(ColorSpec::LightMagenta),
        color_key(trim(text)) == "lightmagenta"@ ==> parse_color_spec(text) == Ok::<ColorSpec, Seq<char>>(ColorSpec::LightMagenta),
        color_key(trim(text)) == "light_cyan"@ ==> parse_color_spec(text) == Ok::<ColorSpec, Seq<char>>(ColorSpec::LightCyan),
        color_key(trim(text)) == "lightcyan"@ ==> parse_color_spec(text) == Ok::<ColorSpec, Seq<char>>(ColorSpec::LightCyan),
        color_key(trim(text)) == "reset"@ ==> parse_color_spec(text) == Ok::<ColorSpec, Seq<char>>(ColorSpec::Reset),
        color_key(trim(text)) == "default"@ ==> parse_color_spec(text) == Ok::<ColorSpec, Seq<char>>(ColorSpec::Reset),
        color_key(trim(text)) == "none"@ ==> parse_color_spec(text) == Ok::<ColorSpec, Seq<char>>(ColorSpec::Reset),
{
    assert(named_color("black"@) == Some(ColorSpec::Black)) by {
        reveal_strlit("black");
    }
    assert(named_color("red"@) == Some(ColorSpec::Red)) by {
        reveal_strlit("red");
        reveal_strlit("black");
        assert("red"@.len() != "black"@.len());
    }
    assert(named_color("green"@) == Some(ColorSpec::Green)) by {
        reveal_strlit("green");
        reveal_strlit("black");
        reveal_strlit("red");
        assert("green"@[0] != "black"@[0]);
        assert("green"@.len() != "red"@.len());
    }
    assert(named_color("yellow"@) == Some(ColorSpec::Yellow)) by {
        reveal_strlit("yellow");
        reveal_strlit("black");
        reveal_strlit("red");
        reveal_strlit("green");
        assert("yellow"@.len() != "black"@.len());
        assert("yellow"@.len() != "red"@.len());
        assert("yellow"@.len() != "green"@.len());
    }
    assert(named_color("blue"@) == Some(ColorSpec::Blue)) by {
        reveal_strlit("blue");
        reveal_strlit("black");
        reveal_strlit("red");
        reveal_strlit("green");
        reveal_strlit("yellow");
        assert("blue"@.len() != "black"@.len());
        assert("blue"@.len() != "red"@.len());
        assert("blue"@.len() != "green"@.len());
        assert("blue"@.len() != "yellow"@.len());
    }
    assert(named_color("magenta"@) == Some(ColorSpec::Magenta)) by {
        reveal_strlit("magenta");
        reveal_strlit("black");
        reveal_strlit("red");
        reveal_strlit("green");
        reveal_strlit("yellow");
        reveal_strlit("blue");
        assert("magenta"@.len() != "black"@.len());
        assert("magenta"@.len() != "red"@.len());
        assert("magenta"@.len() != "green"@.len());
        assert("magenta"@.len() != "yellow"@.len());
        assert("magenta"@.len() != "blue"@.len());
    }
    assert(named_color("purple"@) == Some(ColorSpec::Magenta)) by {
        reveal_strlit("purple");
        reveal_strlit("black");
        reveal_strlit("red");
        reveal_strlit("green");
        reveal_strlit("yellow");
        reveal_strlit("blue");
        reveal_strlit("magenta");
        assert("purple"@.len() != "black"@.len());
        assert("purple"@.len() != "red"@.len());
        assert("purple"@.len() != "green"@.len());
        assert("purple"@[0] != "yellow"@[0]);
        assert("purple"@.len() != "blue"@.len());
        assert("purple"@.len() != "magenta"@.len());
    }
    assert(named_color("cyan"@) == Some(ColorSpec::Cyan)) by {
        reveal_strlit("cyan");
        reveal_strlit("black");
        reveal_strlit("red");
        reveal_strlit("green");
        reveal_strlit("yellow");
        reveal_strlit("blue");
        reveal_strlit("magenta");
        reveal_strlit("purple");
        assert("cyan"@.len() != "black"@.len());
        assert("cyan"@.len() != "red"@.len());
        assert("cyan"@.len() != "green"@.len());
        assert("cyan"@.len() != "yellow"@.len());
        assert("cyan"@[0] != "blue"@[0]);
        assert("cyan"@.len() != "magenta"@.len());
        assert("cyan"@.len() != "purple"@.len());
    }
    assert(named_color("white"@) == Some(ColorSpec::White)) by {
        reveal_strlit("white");
        reveal_strlit("black");
        reveal_strlit("red");
        reveal_strlit("green");
        reveal_strlit("yellow");
        reveal_strlit("blue");
        reveal_strlit("magenta");
        reveal_strlit("purple");
        reveal_strlit("cyan");
        assert("white"@[0] != "black"@[0]);
        assert("white"@.len() != "red"@.len());
        assert("white"@[0] != "green"@[0]);
        assert("white"@.len() != "yellow"@.len());
        assert("white"@.len() != "blue"@.len());
        assert("white"@.len() != "magenta"@.len());
        assert("white"@.len() != "purple"@.len());
        assert("white"@.len() != "cyan"@.len());
    }
    assert(named_color("gray"@) == Some(ColorSpec::Gray)) by {
        reveal_strlit("gray");
        reveal_strlit("black");
        reveal_strlit("red");
        reveal_strlit("green");
        reveal_strlit("yellow");
        reveal_strlit("blue");
        reveal_strlit("magenta");
        reveal_strlit("purple");
        reveal_strlit("cyan");
        reveal_strlit("white");
        assert("gray"@.len() != "black"@.len());
        assert("gray"@.len() != "red"@.len());
        assert("gray"@.len() != "green"@.len());
        assert("gray"@.len() != "yellow"@.len());
        assert("gray"@[0] != "blue"@[0]);
        assert("gray"@.len() != "magenta"@.len());
        assert("gray"@.len() != "purple"@.len());
        assert("gray"@[0] != "cyan"@[0]);
        assert("gray"@.len() != "white"@.len());
    }
    assert(named_color("grey"@) == Some(ColorSpec::Gray)) by {
        reveal_strlit("grey");
        reveal_strlit("black");
        reveal_strlit("red");
        reveal_strlit("green");
        reveal_strlit("yellow");
        reveal_strlit("blue");
        reveal_strlit("magenta");
        reveal_strlit("purple");
        reveal_strlit("cyan");
        reveal_strlit("white");
        reveal_strlit("gray");
        assert("grey"@.len() != "black"@.len());
        assert("grey"@.len() != "red"@.len());
        assert("grey"@.len() != "green"@.len());
        assert("grey"@.len() != "yellow"@.len());
        assert("grey"@[0] != "blue"@[0]);
        assert("grey"@.len() != "magenta"@.len());
        assert("grey"@.len() != "purple"@.len());
        assert("grey"@[0] != "cyan"@[0]);
        assert("grey"@.len() != "white"@.len());
        assert("grey"@[2] != "gray"@[2]);
    }
    assert(named_color("dark_gray"@) == Some(ColorSpec::DarkGray)) by {
        reveal_strlit("dark_gray");
        reveal_strlit("black");
        reveal_strlit("red");
        reveal_strlit("green");
        reveal_strlit("yellow");
        reveal_strlit("blue");
        reveal_strlit("magenta");
        reveal_strlit("purple");
        reveal_strlit("cyan");
        reveal_strlit("white");
        reveal_strlit("gray");
        reveal_strlit("grey");
        assert("dark_gray"@.len() != "black"@.len());
        assert("dark_gray"@.len() != "red"@.len());
        assert("dark_gray"@.len() != "green"@.len());
        assert("dark_gray"@.len() != "yellow"@.len());
        assert("dark_gray"@.len() != "blue"@.len());
        assert("dark_gray"@.len() != "magenta"@.len());
        assert("dark_gray"@.len() != "purple"@.len());
        assert("dark_gray"@.len() != "cyan"@.len());
        assert("dark_gray"@.len() != "white"@.len());
        assert("dark_gray"@.len() != "gray"@.len());
        assert("dark_gray"@.len() != "grey"@.len());
    }
    assert(named_color("dark_grey"@) == Some(ColorSpec::DarkGray)) by {
        reveal_strlit("dark_grey");
        reveal_strlit("black");
        reveal_strlit("red");
        reveal_strlit("green");
        reveal_strlit("yellow");
        reveal_strlit("blue");
        reveal_strlit("magenta");
        reveal_strlit("purple");
        reveal_strlit("cyan");
        reveal_strlit("white");
        reveal_strlit("gray");
        reveal_strlit("grey");
        reveal_strlit("dark_gray");
        assert("dark_grey"@.len() != "black"@.len());
        assert("dark_grey"@.len() != "red"@.len());
        assert("dark_grey"@.len() != "green"@.len());
        assert("dark_grey"@.len() != "yellow"@.len());
        assert("dark_grey"@.len() != "blue"@.len());
        assert("dark_grey"@.len() != "magenta"@.len());
        assert("dark_grey"@.len() != "purple"@.len());
        assert("dark_grey"@.len() != "cyan"@.len());
        assert("dark_grey"@.len() != "white"@.len());
        assert("dark_grey"@.len() != "gray"@.len());
        assert("dark_grey"@.len() != "grey"@.len());
        assert("dark_grey"@[7] != "dark_gray"@[7]);
    }
    assert(named_color("darkgray"@) == Some(ColorSpec::DarkGray)) by {
        reveal_strlit("darkgray");
        reveal_strlit("black");
        reveal_strlit("red");
        reveal_strlit("green");
        reveal_strlit("yellow");
        reveal_strlit("blue");
        reveal_strlit("magenta");
        reveal_strlit("purple");
        reveal_strlit("cyan");
        reveal_strlit("white");
        reveal_strlit("gray");
        reveal_strlit("grey");
        reveal_strlit("dark_gray");
        reveal_strlit("dark_grey");
        assert("darkgray"@.len() != "black"@.len());
        assert("darkgray"@.len() != "red"@.len());
        assert("darkgray"@.len() != "green"@.len());
        assert("darkgray"@.len() != "yellow"@.len());
        assert("darkgray"@.len() != "blue"@.len());
        assert("darkgray"@.len() != "magenta"@.len());
        assert("darkgray"@.len() != "purple"@.len());
        assert("darkgray"@.len() != "cyan"@.len());
        assert("darkgray"@.len() != "white"@.len());
        assert("darkgray"@.len() != "gray"@.len());
        assert("darkgray"@.len() != "grey"@.len());
        assert("darkgray"@.len() != "dark_gray"@.len());
        assert("darkgray"@.len() != "dark_grey"@.len());
    }
    assert(named_color("darkgrey"@) == Some(ColorSpec::DarkGray)) by {
        reveal_strlit("darkgrey");
        reveal_strlit("black");
        reveal_strlit("red");
        reveal_strlit("green");
        reveal_strlit("yellow");
        reveal_strlit("blue");
        reveal_strlit("magenta");
        reveal_strlit("purple");
        reveal_strlit("cyan");
        reveal_strlit("white");
        reveal_strlit("gray");
        reveal_strlit("grey");
        reveal_strlit("dark_gray");
        reveal_strlit("dark_grey");
        reveal_strlit("darkgray");
        assert("darkgrey"@.len() != "black"@.len());
        assert("darkgrey"@.len() != "red"@.len());
        assert("darkgrey"@.len() != "green"@.len());
        assert("darkgrey"@.len() != "yellow"@.len());
        assert("darkgrey"@.len() != "blue"@.len());
        assert("darkgrey"@.len() != "magenta"@.len());
        assert("darkgrey"@.len() != "purple"@.len());
        assert("darkgrey"@.len() != "cyan"@.len());
        assert("darkgrey"@.len() != "white"@.len());
        assert("darkgrey"@.len() != "gray"@.len());
        assert("darkgrey"@.len() != "grey"@.len());
        assert("darkgrey"@.len() != "dark_gray"@.len());
        assert("darkgrey"@.len() != "dark_grey"@.len());
        assert("darkgrey"@[6] != "darkgray"@[6]);
    }
    assert(named_color("light_red"@) == Some(ColorSpec::LightRed)) by {
        reveal_strlit("light_red");
        reveal_strlit("black");
        reveal_strlit("red");
        reveal_strlit("green");
        reveal_strlit("yellow");
        reveal_strlit("blue");
        reveal_strlit("magenta");
        reveal_strlit("purple");
        reveal_strlit("cyan");
        reveal_strlit("white");
        reveal_strlit("gray");
        reveal_strlit("grey");
        reveal_strlit("dark_gray");
        reveal_strlit("dark_grey");
        reveal_strlit("darkgray");
        reveal_strlit("darkgrey");
        assert("light_red"@.len() != "black"@.len());
        assert("light_red"@.len() != "red"@.len());
        assert("light_red"@.len() != "green"@.len());
        assert("light_red"@.len() != "yellow"@.len());
        assert("light_red"@.len() != "blue"@.len());
        assert("light_red"@.len() != "magenta"@.len());
        assert("light_red"@.len() != "purple"@.len());
        assert("light_red"@.len() != "cyan"@.len());
        assert("light_red"@.len() != "white"@.len());
        assert("light_red"@.len() != "gray"@.len());
        assert("light_red"@.len() != "grey"@.len());
        assert("light_red"@[0] != "dark_gray"@[0]);
        assert("light_red"@[0] != "dark_grey"@[0]);
        assert("light_red"@.len() != "darkgray"@.len());
        assert("light_red"@.len() != "darkgrey"@.len());
    }
    assert(named_color("lightred"@) == Some(ColorSpec::LightRed)) by {
        reveal_strlit("lightred");
        reveal_strlit("black");
        reveal_strlit("red");
        reveal_strlit("green");
        reveal_strlit("yellow");
        reveal_strlit("blue");
        reveal_strlit("magenta");
        reveal_strlit("purple");
        reveal_strlit("cyan");
        reveal_strlit("white");
        reveal_strlit("gray");
        reveal_strlit("grey");
        reveal_strlit("dark_gray");
        reveal_strlit("dark_grey");
        reveal_strlit("darkgray");
        reveal_strlit("darkgrey");
        reveal_strlit("light_red");
        assert("lightred"@.len() != "black"@.len());
        assert("lightred"@.len() != "red"@.len());
        assert("lightred"@.len() != "green"@.len());
        assert("lightred"@.len() != "yellow"@.len());
        assert("lightred"@.len() != "blue"@.len());
        assert("lightred"@.len() != "magenta"@.len());
        assert("lightred"@.len() != "purple"@.len());
        assert("lightred"@.len() != "cyan"@.len());
        assert("lightred"@.len() != "white"@.len());
        assert("lightred"@.len() != "gray"@.len());
        assert("lightred"@.len() != "grey"@.len());
        assert("lightred"@.len() != "dark_gray"@.len());
        assert("lightred"@.len() != "dark_grey"@.len());
        assert("lightred"@[0] != "darkgray"@[0]);
        assert("lightred"@[0] != "darkgrey"@[0]);
        assert("lightred"@.len() != "light_red"@.len());
    }
    assert(named_color("light_green"@) == Some(ColorSpec::LightGreen)) by {
        reveal_strlit("light_green");
        reveal_strlit("black");
        reveal_strlit("red");
        reveal_strlit("green");
        reveal_strlit("yellow");
        reveal_strlit("blue");
        reveal_strlit("magenta");
        reveal_strlit("purple");
        reveal_strlit("cyan");
        reveal_strlit("white");
        reveal_strlit("gray");
        reveal_strlit("grey");
        reveal_strlit("dark_gray");
        reveal_strlit("dark_grey");
        reveal_strlit("darkgray");
        reveal_strlit("darkgrey");
        reveal_strlit("light_red");
        reveal_strlit("lightred");
        assert("light_green"@.len() != "black"@.len());
        assert("light_green"@.len() != "red"@.len());
        assert("light_green"@.len() != "green"@.len());
        assert("light_green"@.len() != "yellow"@.len());
        assert("light_green"@.len() != "blue"@.len());
        assert("light_green"@.len() != "magenta"@.len());
        assert("light_green"@.len() != "purple"@.len());
        assert("light_green"@.len() != "cyan"@.len());
        assert("light_green"@.len() != "white"@.len());
        assert("light_green"@.len() != "gray"@.len());
        assert("light_green"@.len() != "grey"@.len());
        assert("light_green"@.len() != "dark_gray"@.len());
        assert("light_green"@.len() != "dark_grey"@.len());
        assert("light_green"@.len() != "darkgray"@.len());
        assert("light_green"@.len() != "darkgrey"@.len());
        assert("light_green"@.len() != "light_red"@.len());
        assert("light_green"@.len() != "lightred"@.len());
    }
    assert(named_color("lightgreen"@) == Some(ColorSpec::LightGreen)) by {
        reveal_strlit("lightgreen");
        reveal_strlit("black");
        reveal_strlit("red");
        reveal_strlit("green");
        reveal_strlit("yellow");
        reveal_strlit("blue");
        reveal_strlit("magenta");
        reveal_strlit("purple");
        reveal_strlit("cyan");
        reveal_strlit("white");
        reveal_strlit("gray");
        reveal_strlit("grey");
        reveal_strlit("dark_gray");
        reveal_strlit("dark_grey");
        reveal_strlit("darkgray");
        reveal_strlit("darkgrey");
        reveal_strlit("light_red");
        reveal_strlit("lightred");
        reveal_strlit("light_green");
        assert("lightgreen"@.len() != "black"@.len());
        assert("lightgreen"@.len() != "red"@.len());
        assert("lightgreen"@.len() != "green"@.len());
        assert("lightgreen"@.len() != "yellow"@.len());
        assert("lightgreen"@.len() != "blue"@.len());
        assert("lightgreen"@.len() != "magenta"@.len());
        assert("lightgreen"@.len() != "purple"@.len());
        assert("lightgreen"@.len() != "cyan"@.len());
        assert("lightgreen"@.len() != "white"@.len());
        assert("lightgreen"@.len() != "gray"@.len());
        assert("lightgreen"@.len() != "grey"@.len());
        assert("lightgreen"@.len() != "dark_gray"@.len());
        assert("lightgreen"@.len() != "dark_grey"@.len());
        assert("lightgreen"@.len() != "darkgray"@.len());
        assert("lightgreen"@.len() != "darkgrey"@.len());
        assert("lightgreen"@.len() != "light_red"@.len());
        assert("lightgreen"@.len() != "lightred"@.len());
        assert("lightgreen"@.len() != "light_green"@.len());
    }
    assert(named_color("light_yellow"@) == Some(ColorSpec::LightYellow)) by {
        reveal_strlit("light_yellow");
        reveal_strlit("black");
        reveal_strlit("red");
        reveal_strlit("green");
        reveal_strlit("yellow");
        reveal_strlit("blue");
        reveal_strlit("magenta");
        reveal_strlit("purple");
        reveal_strlit("cyan");
        reveal_strlit("white");
        reveal_strlit("gray");
        reveal_strlit("grey");
        reveal_strlit("dark_gray");
        reveal_strlit("dark_grey");
        reveal_strlit("darkgray");
        reveal_strlit("darkgrey");
        reveal_strlit("light_red");
        reveal_strlit("lightred");
        reveal_strlit("light_green");
        reveal_strlit("lightgreen");
        assert("light_yellow"@.len() != "black"@.len());
        assert("light_yellow"@.len() != "red"@.len());
        assert("light_yellow"@.len() != "green"@.len());
        assert("light_yellow"@.len() != "yellow"@.len());
        assert("light_yellow"@.len() != "blue"@.len());
        assert("light_yellow"@.len() != "magenta"@.len());
        assert("light_yellow"@.len() != "purple"@.len());
        assert("light_yellow"@.len() != "cyan"@.len());
        assert("light_yellow"@.len() != "white"@.len());
        assert("light_yellow"@.len() != "gray"@.len());
        assert("light_yellow"@.len() != "grey"@.len());
        assert("light_yellow"@.len() != "dark_gray"@.len());
        assert("light_yellow"@.len() != "dark_grey"@.len());
        assert("light_yellow"@.len() != "darkgray"@.len());
        assert("light_yellow"@.len() != "darkgrey"@.len());
        assert("light_yellow"@.len() != "light_red"@.len());
        assert("light_yellow"@.len() != "lightred"@.len());
        assert("light_yellow"@.len() != "light_green"@.len());
        assert("light_yellow"@.len() != "lightgreen"@.len());
    }
    assert(named_color("lightyellow"@) == Some(ColorSpec::LightYellow)) by {
        reveal_strlit("lightyellow");
        reveal_strlit("black");
        reveal_strlit("red");
        reveal_strlit("green");
        reveal_strlit("yellow");
        reveal_strlit("blue");
        reveal_strlit("magenta");
        reveal_strlit("purple");
        reveal_strlit("cyan");
        reveal_strlit("white");
        reveal_strlit("gray");
        reveal_strlit("grey");
        reveal_strlit("dark_gray");
        reveal_strlit("dark_grey");
        reveal_strlit("darkgray");
        reveal_strlit("darkgrey");
        reveal_strlit("light_red");
        reveal_strlit("lightred");
        reveal_strlit("light_green");
        reveal_strlit("lightgreen");
        reveal_strlit("light_yellow");
        assert("lightyellow"@.len() != "black"@.len());
        assert("lightyellow"@.len() != "red"@.len());
        assert("lightyellow"@.len() != "green"@.len());
        assert("lightyellow"@.len() != "yellow"@.len());
        assert("lightyellow"@.len() != "blue"@.len());
        assert("lightyellow"@.len() != "magenta"@.len());
        assert("lightyellow"@.len() != "purple"@.len());
        assert("lightyellow"@.len() != "cyan"@.len());
        assert("lightyellow"@.len() != "white"@.len());
        assert("lightyellow"@.len() != "gray"@.len());
        assert("lightyellow"@.len() != "grey"@.len());
        assert("lightyellow"@.len() != "dark_gray"@.len());
        assert("lightyellow"@.len() != "dark_grey"@.len());
        assert("lightyellow"@.len() != "darkgray"@.len());
        assert("lightyellow"@.len() != "darkgrey"@.len());
        assert("lightyellow"@.len() != "light_red"@.len());
        assert("lightyellow"@.len() != "lightred"@.len());
        assert("lightyellow"@[5] != "light_green"@[5]);
        assert("lightyellow"@.len() != "lightgreen"@.len());
        assert("lightyellow"@.len() != "light_yellow"@.len());
    }
    assert(named_color("light_blue"@) == Some(ColorSpec::LightBlue)) by {
        reveal_strlit("light_blue");
        reveal_strlit("black");
        reveal_strlit("red");
        reveal_strlit("green");
        reveal_strlit("yellow");
        reveal_strlit("blue");
        reveal_strlit("magenta");
        reveal_strlit("purple");
        reveal_strlit("cyan");
        reveal_strlit("white");
        reveal_strlit("gray");
        reveal_strlit("grey");
        reveal_strlit("dark_gray");
        reveal_strlit("dark_grey");
        reveal_strlit("darkgray");
        reveal_strlit("darkgrey");
        reveal_strlit("light_red");
        reveal_strlit("lightred");
        reveal_strlit("light_green");
        reveal_strlit("lightgreen");
        reveal_strlit("light_yellow");
        reveal_strlit("lightyellow");
        assert("light_blue"@.len() != "black"@.len());
        assert("light_blue"@.len() != "red"@.len());
        assert("light_blue"@.len() != "green"@.len());
        assert("light_blue"@.len() != "yellow"@.len());
        assert("light_blue"@.len() != "blue"@.len());
        assert("light_blue"@.len() != "magenta"@.len());
        assert("light_blue"@.len() != "purple"@.len());
        assert("light_blue"@.len() != "cyan"@.len());
        assert("light_blue"@.len() != "white"@.len());
        assert("light_blue"@.len() != "gray"@.len());
        assert("light_blue"@.len() != "grey"@.len());
        assert("light_blue"@.len() != "dark_gray"@.len());
        assert("light_blue"@.len() != "dark_grey"@.len());
        assert("light_blue"@.len() != "darkgray"@.len());
        assert("light_blue"@.len() != "darkgrey"@.len());
        assert("light_blue"@.len() != "light_red"@.len());
        assert("light_blue"@.len() != "lightred"@.len());
        assert("light_blue"@.len() != "light_green"@.len());
        assert("light_blue"@[5] != "lightgreen"@[5]);
        assert("light_blue"@.len() != "light_yellow"@.len());
        assert("light_blue"@.len() != "lightyellow"@.len());
    }
    assert(named_color("lightblue"@) == Some(ColorSpec::LightBlue)) by {
        reveal_strlit("lightblue");
        reveal_strlit("black");
        reveal_strlit("red");
        reveal_strlit("green");
        reveal_strlit("yellow");
        reveal_strlit("blue");
        reveal_strlit("magenta");
        reveal_strlit("purple");
        reveal_strlit("cyan");
        reveal_strlit("white");
        reveal_strlit("gray");
        reveal_strlit("grey");
        reveal_strlit("dark_gray");
        reveal_strlit("dark_grey");
        reveal_strlit("darkgray");
        reveal_strlit("darkgrey");
        reveal_strlit("light_red");
        reveal_strlit("lightred");
        reveal_strlit("light_green");
        reveal_strlit("lightgreen");
        reveal_strlit("light_yellow");
        reveal_strlit("lightyellow");
        reveal_strlit("light_blue");
        assert("lightblue"@.len() != "black"@.len());
        assert("lightblue"@.len() != "red"@.len());
        assert("lightblue"@.len() != "green"@.len());
        assert("lightblue"@.len() != "yellow"@.len());
        assert("lightblue"@.len() != "blue"@.len());
        assert("lightblue"@.len() != "magenta"@.len());
        assert("lightblue"@.len() != "purple"@.len());
        assert("lightblue"@.len() != "cyan"@.len());
        assert("lightblue"@.len() != "white"@.len());
        assert("lightblue"@.len() != "gray"@.len());
        assert("lightblue"@.len() != "grey"@.len());
        assert("lightblue"@[0] != "dark_gray"@[0]);
        assert("lightblue"@[0] != "dark_grey"@[0]);
        assert("lightblue"@.len() != "darkgray"@.len());
        assert("lightblue"@.len() != "darkgrey"@.len());
        assert("lightblue"@[5] != "light_red"@[5]);
        assert("lightblue"@.len() != "lightred"@.len());
        assert("lightblue"@.len() != "light_green"@.len());
        assert("lightblue"@.len() != "lightgreen"@.len());
        assert("lightblue"@.len() != "light_yellow"@.len());
        assert("lightblue"@.len() != "lightyellow"@.len());
        assert("lightblue"@.len() != "light_blue"@.len());
    }
    assert(named_color("light_magenta"@) == Some(ColorSpec::LightMagenta)) by {
        reveal_strlit("light_magenta");
        reveal_strlit("black");
        reveal_strlit("red");
        reveal_strlit("green");
        reveal_strlit("yellow");
        reveal_strlit("blue");
        reveal_strlit("magenta");
        reveal_strlit("purple");
        reveal_strlit("cyan");
        reveal_strlit("white");
        reveal_strlit("gray");
        reveal_strlit("grey");
        reveal_strlit("dark_gray");
        reveal_strlit("dark_grey");
        reveal_strlit("darkgray");
        reveal_strlit("darkgrey");
        reveal_strlit("light_red");
        reveal_strlit("lightred");
        reveal_strlit("light_green");
        reveal_strlit("lightgreen");
        reveal_strlit("light_yellow");
        reveal_strlit("lightyellow");
        reveal_strlit("light_blue");
        reveal_strlit("lightblue");
        assert("light_magenta"@.len() != "black"@.len());
        assert("light_magenta"@.len() != "red"@.len());
        assert("light_magenta"@.len() != "green"@.len());
        assert("light_magenta"@.len() != "yellow"@.len());
        assert("light_magenta"@.len() != "blue"@.len());
        assert("light_magenta"@.len() != "magenta"@.len());
        assert("light_magenta"@.len() != "purple"@.len());
        assert("light_magenta"@.len() != "cyan"@.len());
        assert("light_magenta"@.len() != "white"@.len());
        assert("light_magenta"@.len() != "gray"@.len());
        assert("light_magenta"@.len() != "grey"@.len());
        assert("light_magenta"@.len() != "dark_gray"@.len());
        assert("light_magenta"@.len() != "dark_grey"@.len());
        assert("light_magenta"@.len() != "darkgray"@.len());
        assert("light_magenta"@.len() != "darkgrey"@.len());
        assert("light_magenta"@.len() != "light_red"@.len());
        assert("light_magenta"@.len() != "lightred"@.len());
        assert("light_magenta"@.len() != "light_green"@.len());
        assert("light_magenta"@.len() != "lightgreen"@.len());
        assert("light_magenta"@.len() != "light_yellow"@.len());
        assert("light_magenta"@.len() != "lightyellow"@.len());
        assert("light_magenta"@.len() != "light_blue"@.len());
        assert("light_magenta"@.len() != "lightblue"@.len());
    }
    assert(named_color("lightmagenta"@) == Some(ColorSpec::LightMagenta)) by {
        reveal_strlit("lightmagenta");
        reveal_strlit("black");
        reveal_strlit("red");
        reveal_strlit("green");
        reveal_strlit("yellow");
        reveal_strlit("blue");
        reveal_strlit("magenta");
        reveal_strlit("purple");
        reveal_strlit("cyan");
        reveal_strlit("white");
        reveal_strlit("gray");
        reveal_strlit("grey");
        reveal_strlit("dark_gray");
        reveal_strlit("dark_grey");
        reveal_strlit("darkgray");
        reveal_strlit("darkgrey");
        reveal_strlit("light_red");
        reveal_strlit("lightred");
        reveal_strlit("light_green");
        reveal_strlit("lightgreen");
        reveal_strlit("light_yellow");
        reveal_strlit("lightyellow");
        reveal_strlit("light_blue");
        reveal_strlit("lightblue");
        reveal_strlit("light_magenta");
        assert("lightmagenta"@.len() != "black"@.len());
        assert("lightmagenta"@.len() != "red"@.len());
        assert("lightmagenta"@.len() != "green"@.len());
        assert("lightmagenta"@.len() != "yellow"@.len());
        assert("lightmagenta"@.len() != "blue"@.len());
        assert("lightmagenta"@.len() != "magenta"@.len());
        assert("lightmagenta"@.len() != "purple"@.len());
        assert("lightmagenta"@.len() != "cyan"@.len());
        assert("lightmagenta"@.len() != "white"@.len());
        assert("lightmagenta"@.len() != "gray"@.len());
        assert("lightmagenta"@.len() != "grey"@.len());
        assert("lightmagenta"@.len() != "dark_gray"@.len());
        assert("lightmagenta"@.len() != "dark_grey"@.len());
        assert("lightmagenta"@.len() != "darkgray"@.len());
        assert("lightmagenta"@.len() != "darkgrey"@.len());
        assert("lightmagenta"@.len() != "light_red"@.len());
        assert("lightmagenta"@.len() != "lightred"@.len());
        assert("lightmagenta"@.len() != "light_green"@.len());
        assert("lightmagenta"@.len() != "lightgreen"@.len());
        assert("lightmagenta"@[5] != "light_yellow"@[5]);
        assert("lightmagenta"@.len() != "lightyellow"@.len());
        assert("lightmagenta"@.len() != "light_blue"@.len());
        assert("lightmagenta"@.len() != "lightblue"@.len());
        assert("lightmagenta"@.len() != "light_magenta"@.len());
    }
    assert(named_color("light_cyan"@) == Some(ColorSpec::LightCyan)) by {
        reveal_strlit("light_cyan");
        reveal_strlit("black");
        reveal_strlit("red");
        reveal_strlit("green");
        reveal_strlit("yellow");
        reveal_strlit("blue");
        reveal_strlit("magenta");
        reveal_strlit("purple");
        reveal_strlit("cyan");
        reveal_strlit("white");
        reveal_strlit("gray");
        reveal_strlit("grey");
        reveal_strlit("dark_gray");
        reveal_strlit("dark_grey");
        reveal_strlit("darkgray");
        reveal_strlit("darkgrey");
        reveal_strlit("light_red");
        reveal_strlit("lightred");
        reveal_strlit("light_green");
        reveal_strlit("lightgreen");
        reveal_strlit("light_yellow");
        reveal_strlit("lightyellow");
        reveal_strlit("light_blue");
        reveal_strlit("lightblue");
        reveal_strlit("light_magenta");
        reveal_strlit("lightmagenta");
        assert("light_cyan"@.len() != "black"@.len());
        assert("light_cyan"@.len() != "red"@.len());
        assert("light_cyan"@.len() != "green"@.len());
        assert("light_cyan"@.len() != "yellow"@.len());
        assert("light_cyan"@.len() != "blue"@.len());
        assert("light_cyan"@.len() != "magenta"@.len());
        assert("light_cyan"@.len() != "purple"@.len());
        assert("light_cyan"@.len() != "cyan"@.len());
        assert("light_cyan"@.len() != "white"@.len());
        assert("light_cyan"@.len() != "gray"@.len());
        assert("light_cyan"@.len() != "grey"@.len());
        assert("light_cyan"@.len() != "dark_gray"@.len());
        assert("light_cyan"@.len() != "dark_grey"@.len());
        assert("light_cyan"@.len() != "darkgray"@.len());
        assert("light_cyan"@.len() != "darkgrey"@.len());
        assert("light_cyan"@.len() != "light_red"@.len());
        assert("light_cyan"@.len() != "lightred"@.len());
        assert("light_cyan"@.len() != "light_green"@.len());
        assert("light_cyan"@[5] != "lightgreen"@[5]);
        assert("light_cyan"@.len() != "light_yellow"@.len());
        assert("light_cyan"@.len() != "lightyellow"@.len());
        assert("light_cyan"@[6] != "light_blue"@[6]);
        assert("light_cyan"@.len() != "lightblue"@.len());
        assert("light_cyan"@.len() != "light_magenta"@.len());
        assert("light_cyan"@.len() != "lightmagenta"@.len());
    }
    assert(named_color("lightcyan"@) == Some(ColorSpec::LightCyan)) by {
        reveal_strlit("lightcyan");
        reveal_strlit("black");
        reveal_strlit("red");
        reveal_strlit("green");
        reveal_strlit("yellow");
        reveal_strlit("blue");
        reveal_strlit("magenta");
        reveal_strlit("purple");
        reveal_strlit("cyan");
        reveal_strlit("white");
        reveal_strlit("gray");
        reveal_strlit("grey");
        reveal_strlit("dark_gray");
        reveal_strlit("dark_grey");
        reveal_strlit("darkgray");
        reveal_strlit("darkgrey");
        reveal_strlit("light_red");
        reveal_strlit("lightred");
        reveal_strlit("light_green");
        reveal_strlit("lightgreen");
        reveal_strlit("light_yellow");
        reveal_strlit("lightyellow");
        reveal_strlit("light_blue");
        reveal_strlit("lightblue");
        reveal_strlit("light_magenta");
        reveal_strlit("lightmagenta");
        reveal_strlit("light_cyan");
        assert("lightcyan"@.len() != "black"@.len());
        assert("lightcyan"@.len() != "red"@.len());
        assert("lightcyan"@.len() != "green"@.len());
        assert("lightcyan"@.len() != "yellow"@.len());
        assert("lightcyan"@.len() != "blue"@.len());
        assert("lightcyan"@.len() != "magenta"@.len());
        assert("lightcyan"@.len() != "purple"@.len());
        assert("lightcyan"@.len() != "cyan"@.len());
        assert("lightcyan"@.len() != "white"@.len());
        assert("lightcyan"@.len() != "gray"@.len());
        assert("lightcyan"@.len() != "grey"@.len());
        assert("lightcyan"@[0] != "dark_gray"@[0]);
        assert("lightcyan"@[0] != "dark_grey"@[0]);
        assert("lightcyan"@.len() != "darkgray"@.len());
        assert("lightcyan"@.len() != "darkgrey"@.len());
        assert("lightcyan"@[5] != "light_red"@[5]);
        assert("lightcyan"@.len() != "lightred"@.len());
        assert("lightcyan"@.len() != "light_green"@.len());
        assert("lightcyan"@.len() != "lightgreen"@.len());
        assert("lightcyan"@.len() != "light_yellow"@.len());
        assert("lightcyan"@.len() != "lightyellow"@.len());
        assert("lightcyan"@.len() != "light_blue"@.len());
        assert("lightcyan"@[5] != "lightblue"@[5]);
        assert("lightcyan"@.len() != "light_magenta"@.len());
        assert("lightcyan"@.len() != "lightmagenta"@.len());
        assert("lightcyan"@.len() != "light_cyan"@.len());
    }
    assert(named_color("reset"@) == Some(ColorSpec::Reset)) by {
        reveal_strlit("reset");
        reveal_strlit("black");
        reveal_strlit("red");
        reveal_strlit("green");
        reveal_strlit("yellow");
        reveal_strlit("blue");
        reveal_strlit("magenta");
        reveal_strlit("purple");
        reveal_strlit("cyan");
        reveal_strlit("white");
        reveal_strlit("gray");
        reveal_strlit("grey");
        reveal_strlit("dark_gray");
        reveal_strlit("dark_grey");
        reveal_strlit("darkgray");
        reveal_strlit("darkgrey");
        reveal_strlit("light_red");
        reveal_strlit("lightred");
        reveal_strlit("light_green");
        reveal_strlit("lightgreen");
        reveal_strlit("light_yellow");
        reveal_strlit("lightyellow");
        reveal_strlit("light_blue");
        reveal_strlit("lightblue");
        reveal_strlit("light_magenta");
        reveal_strlit("lightmagenta");
        reveal_strlit("light_cyan");
        reveal_strlit("lightcyan");
        assert("reset"@[0] != "black"@[0]);
        assert("reset"@.len() != "red"@.len());
        assert("reset"@[0] != "green"@[0]);
        assert("reset"@.len() != "yellow"@.len());
        assert("reset"@.len() != "blue"@.len());
        assert("reset"@.len() != "magenta"@.len());
        assert("reset"@.len() != "purple"@.len());
        assert("reset"@.len() != "cyan"@.len());
        assert("reset"@[0] != "white"@[0]);
        assert("reset"@.len() != "gray"@.len());
        assert("reset"@.len() != "grey"@.len());
        assert("reset"@.len() != "dark_gray"@.len());
        assert("reset"@.len() != "dark_grey"@.len());
        assert("reset"@.len() != "darkgray"@.len());
        assert("reset"@.len() != "darkgrey"@.len());
        assert("reset"@.len() != "light_red"@.len());
        assert("reset"@.len() != "lightred"@.len());
        assert("reset"@.len() != "light_green"@.len());
        assert("reset"@.len() != "lightgreen"@.len());
        assert("reset"@.len() != "light_yellow"@.len());
        assert("reset"@.len() != "lightyellow"@.len());
        assert("reset"@.len() != "light_blue"@.len());
        assert("reset"@.len() != "lightblue"@.len());
        assert("reset"@.len() != "light_magenta"@.len());
        assert("reset"@.len() != "lightmagenta"@.len());
        assert("reset"@.len() != "light_cyan"@.len());
        assert("reset"@.len() != "lightcyan"@.len());
    }
    assert(named_color("default"@) == Some(ColorSpec::Reset)) by {
        reveal_strlit("default");
        reveal_strlit("black");
        reveal_strlit("red");
        reveal_strlit("green");
        reveal_strlit("yellow");
        reveal_strlit("blue");
        reveal_strlit("magenta");
        reveal_strlit("purple");
        reveal_strlit("cyan");
        reveal_strlit("white");
        reveal_strlit("gray");
        reveal_strlit("grey");
        reveal_strlit("dark_gray");
        reveal_strlit("dark_grey");
        reveal_strlit("darkgray");
        reveal_strlit("darkgrey");
        reveal_strlit("light_red");
        reveal_strlit("lightred");
        reveal_strlit("light_green");
        reveal_strlit("lightgreen");
        reveal_strlit("light_yellow");
        reveal_strlit("lightyellow");
        reveal_strlit("light_blue");
        reveal_strlit("lightblue");
        reveal_strlit("light_magenta");
        reveal_strlit("lightmagenta");
        reveal_strlit("light_cyan");
        reveal_strlit("lightcyan");
        reveal_strlit("reset");
        assert("default"@.len() != "black"@.len());
        assert("default"@.len() != "red"@.len());
        assert("default"@.len() != "green"@.len());
        assert("default"@.len() != "yellow"@.len());
        assert("default"@.len() != "blue"@.len());
        assert("default"@[0] != "magenta"@[0]);
        assert("default"@.len() != "purple"@.len());
        assert("default"@.len() != "cyan"@.len());
        assert("default"@.len() != "white"@.len());
        assert("default"@.len() != "gray"@.len());
        assert("default"@.len() != "grey"@.len());
        assert("default"@.len() != "dark_gray"@.len());
        assert("default"@.len() != "dark_grey"@.len());
        assert("default"@.len() != "darkgray"@.len());
        assert("default"@.len() != "darkgrey"@.len());
        assert("default"@.len() != "light_red"@.len());
        assert("default"@.len() != "lightred"@.len());
        assert("default"@.len() != "light_green"@.len());
        assert("default"@.len() != "lightgreen"@.len());
        assert("default"@.len() != "light_yellow"@.len());
        assert("default"@.len() != "lightyellow"@.len());
        assert("default"@.len() != "light_blue"@.len());
        assert("default"@.len() != "lightblue"@.len());
        assert("default"@.len() != "light_magenta"@.len());
        assert("default"@.len() != "lightmagenta"@.len());
        assert("default"@.len() != "light_cyan"@.len());
        assert("default"@.len() != "lightcyan"@.len());
        assert("default"@.len() != "reset"@.len());
    }
    assert(named_color("none"@) == Some(ColorSpec::Reset)) by {
        reveal_strlit("none");
        reveal_strlit("black");
        reveal_strlit("red");
        reveal_strlit("green");
        reveal_strlit("yellow");
        reveal_strlit("blue");
        reveal_strlit("magenta");
        reveal_strlit("purple");
        reveal_strlit("cyan");
        reveal_strlit("white");
        reveal_strlit("gray");
        reveal_strlit("grey");
        reveal_strlit("dark_gray");
        reveal_strlit("dark_grey");
        reveal_strlit("darkgray");
        reveal_strlit("darkgrey");
        reveal_strlit("light_red");
        reveal_strlit("lightred");
        reveal_strlit("light_green");
        reveal_strlit("lightgreen");
        reveal_strlit("light_yellow");
        reveal_strlit("lightyellow");
        reveal_strlit("light_blue");
        reveal_strlit("lightblue");
        reveal_strlit("light_magenta");
        reveal_strlit("lightmagenta");
        reveal_strlit("light_cyan");
        reveal_strlit("lightcyan");
        reveal_strlit("reset");
        reveal_strlit("default");
        assert("none"@.len() != "black"@.len());
        assert("none"@.len() != "red"@.len());
        assert("none"@.len() != "green"@.len());
        assert("none"@.len() != "yellow"@.len());
        assert("none"@[0] != "blue"@[0]);
        assert("none"@.len() != "magenta"@.len());
        assert("none"@.len() != "purple"@.len());
        assert("none"@[0] != "cyan"@[0]);
        assert("none"@.len() != "white"@.len());
        assert("none"@[0] != "gray"@[0]);
        assert("none"@[0] != "grey"@[0]);
        assert("none"@.len() != "dark_gray"@.len());
        assert("none"@.len() != "dark_grey"@.len());
        assert("none"@.len() != "darkgray"@.len());
        assert("none"@.len() != "darkgrey"@.len());
        assert("none"@.len() != "light_red"@.len());
        assert("none"@.len() != "lightred"@.len());
        assert("none"@.len() != "light_green"@.len());
        assert("none"@.len() != "lightgreen"@.len());
        assert("none"@.len() != "light_yellow"@.len());
        assert("none"@.len() != "lightyellow"@.len());
        assert("none"@.len() != "light_blue"@.len());
        assert("none"@.len() != "lightblue"@.len());
        assert("none"@.len() != "light_magenta"@.len());
        assert("none"@.len() != "lightmagenta"@.len());
        assert("none"@.len() != "light_cyan"@.len());
        assert("none"@.len() != "lightcyan"@.len());
        assert("none"@.len() != "reset"@.len());
        assert("none"@.len() != "default"@.len());
    }
    assert("black"@.len() > 0 && "black"@[0] == 'b' && "red"@.len() > 0 && "red"@[0] == 'r' && "green"@.len() > 0 && "green"@[0] == 'g' && "yellow"@.len() > 0 && "yellow"@[0] == 'y' && "blue"@.len() > 0 && "blue"@[0] == 'b' && "magenta"@.len() > 0 && "magenta"@[0] == 'm' && "purple"@.len() > 0 && "purple"@[0] == 'p' && "cyan"@.len() > 0 && "cyan"@[0] == 'c' && "white"@.len() > 0 && "white"@[0] == 'w' && "gray"@.len() > 0 && "gray"@[0] == 'g' && "grey"@.len() > 0 && "grey"@[0] == 'g' && "dark_gray"@.len() > 0 && "dark_gray"@[0] == 'd' && "dark_grey"@.len() > 0 && "dark_grey"@[0] == 'd' && "darkgray"@.len() > 0 && "darkgray"@[0] == 'd' && "darkgrey"@.len() > 0 && "darkgrey"@[0] == 'd' && "light_red"@.len() > 0 && "light_red"@[0] == 'l' && "lightred"@.len() > 0 && "lightred"@[0] == 'l' && "light_green"@.len() > 0 && "light_green"@[0] == 'l' && "lightgreen"@.len() > 0 && "lightgreen"@[0] == 'l' && "light_yellow"@.len() > 0 && "light_yellow"@[0] == 'l' && "lightyellow"@.len() > 0 && "lightyellow"@[0] == 'l' && "light_blue"@.len() > 0 && "light_blue"@[0] == 'l' && "lightblue"@.len() > 0 && "lightblue"@[0] == 'l' && "light_magenta"@.len() > 0 && "light_magenta"@[0] == 'l' && "lightmagenta"@.len() > 0 && "lightmagenta"@[0] == 'l' && "light_cyan"@.len() > 0 && "light_cyan"@[0] == 'l' && "lightcyan"@.len() > 0 && "lightcyan"@[0] == 'l' && "reset"@.len() > 0 && "reset"@[0] == 'r' && "default"@.len() > 0 && "default"@[0] == 'd' && "none"@.len() > 0 && "none"@[0] == 'n') by {
        reveal_strlit("black");
        reveal_strlit("red");
        reveal_strlit("green");
        reveal_strlit("yellow");
        reveal_strlit("blue");
        reveal_strlit("magenta");
        reveal_strlit("purple");
        reveal_strlit("cyan");
        reveal_strlit("white");
        reveal_strlit("gray");
        reveal_strlit("grey");
        reveal_strlit("dark_gray");
        reveal_strlit("dark_grey");
        reveal_strlit("darkgray");
        reveal_strlit("darkgrey");
        reveal_strlit("light_red");
        reveal_strlit("lightred");
        reveal_strlit("light_green");
        reveal_strlit("lightgreen");
        reveal_strlit("light_yellow");
        reveal_strlit("lightyellow");
        reveal_strlit("light_blue");
        reveal_strlit("lightblue");
        reveal_strlit("light_magenta");
        reveal_strlit("lightmagenta");
        reveal_strlit("light_cyan");
        reveal_strlit("lightcyan");
        reveal_strlit("reset");
        reveal_strlit("default");
        reveal_strlit("none");
    }
    let t = trim(text);
    if color_key(t).len() > 0 && 'a' <= color_key(t)[0] <= 'z' {
        lemma_read_as_name(text);
    }
}

/// Six hex digits from a `#` value of three or six bytes: `abc` means `aabbcc`.
pub open spec fn hex_expanded(hex: Seq<char>) -> Option<Seq<char>> {
    if utf8_len(hex) == 3 {
        Some(Seq::new(2 * hex.len(), |i: int| hex[i / 2]))
    } else if utf8_len(hex) == 6 {
        Some(hex)
    } else {
        None
    }
}

/// What a colour value in the configuration means: `#rrggbb`, `#rgb`, a 0-255 palette
/// index or an ANSI name, surrounding whitespace ignored.
pub open spec fn parse_color_spec(text: Seq<char>) -> Result<ColorSpec, Seq<char>> {
    let t = trim(text);
    if t.len() > 0 && t[0] == '#' {
        let bad = "`"@ + t + "` is not a #rrggbb colour"@;
        match hex_expanded(t.drop_first()) {
            Some(digits) => match parse_unsigned(digits, 16, u32::MAX as nat) {
                Some(v) => Ok(rgb_spec(v)),
                None => Err(bad),
            },
            None => Err(bad),
        }
    } else {
        match parse_unsigned(t, 10, 255) {
            Some(index) => Ok(ColorSpec::Indexed(index as u8)),
            None => match named_color(color_key(t)) {
                Some(color) => Ok(color),
                None => Err(
                    "`"@ + t + "` is not a known colour (use #rrggbb, an ANSI name or 0-255)"@,
                ),
            },
        }
    }
}

fn doubled(chars: &[char]) -> (result: Vec<char>)
    ensures
        result@ == Seq::new(2 * chars@.len(), |i: int| chars@[i / 2]),
{
    let mut result: Vec<char> = Vec::new();
    let mut i: usize = 0;
    while i < chars.len()
        invariant
            0 <= i <= chars@.len(),
            result@ == Seq::new(2 * i as nat, |k: int| chars@[k / 2]),
        decreases chars@.len() - i,
    {
        result.push(chars[i]);
        result.push(chars[i]);
        assert(result@ =~= Seq::new(2 * (i + 1) as nat, |k: int| chars@[k / 2]));
        i += 1;
    }
    result
}

fn color_key_chars(chars: &[char]) -> (result: Vec<char>)
    ensures
        result@ == color_key(chars@),
{
    let lower = lower_chars(chars);
    let mut result: Vec<char> = Vec::new();
    let mut i: usize = 0;
    while i < lower.len()
        invariant
            0 <= i <= lower@.len(),
            lower@ == ascii_lower(chars@),
            result@ == lower@.take(i as int).map_values(|c: char| if c == '-' || c == ' ' {
                '_'
            } else {
                c
            }),
        decreases lower@.len() - i,
    {
        let c = lower[i];
        result.push(if c == '-' || c == ' ' {
            '_'
        } else {
            c
        });
        assert(result@ =~= lower@.take(i + 1).map_values(|c: char| if c == '-' || c == ' ' {
            '_'
        } else {
            c
        }));
        i += 1;
    }
    assert(lower@.take(lower@.len() as int) =~= lower@);
    result
}

fn quoted_error(text: &[char], tail: &str) -> (message: String)
    ensures
        message@ == "`"@ + text@ + tail@,
{
    let mut message = String::from_str("`");
    let body = string_of(text);
    message.append(body.as_str());
    message.append(tail);
    message
}

/// Reads a colour value: `#rrggbb`, `#rgb`, an ANSI name or a 0-255 palette index.
pub fn parse_color(text: &str) -> (color: Result<ColorSpec, String>)
    ensures
        match color {
            Ok(c) => parse_color_spec(text@) == Ok::<ColorSpec, Seq<char>>(c),
            Err(reason) => parse_color_spec(text@) == Err::<ColorSpec, Seq<char>>(reason@),
        },
{
    let chars = chars_of(text);
    let t = trim_chars(chars.as_slice());
    if t.len() > 0 && t[0] == '#' {
        let hex = slice_chars(t.as_slice(), 1, t.len());
        assert(hex@ =~= t@.drop_first());
        let bytes = utf8_len_capped(hex.as_slice(), 7);
        let digits: Vec<char> = if bytes == 3 {
            doubled(hex.as_slice())
        } else if bytes == 6 {
            hex
        } else {
            return Err(quoted_error(t.as_slice(), "` is not a #rrggbb colour"));
        };
        return match parse_unsigned_chars(digits.as_slice(), 16, 0xffff_ffff) {
            Some(v) => Ok(rgb(v as u32)),
            None => Err(quoted_error(t.as_slice(), "` is not a #rrggbb colour")),
        };
    }
    if let Some(index) = parse_unsigned_chars(t.as_slice(), 10, 255) {
        return Ok(ColorSpec::Indexed(index as u8));
    }
    let key_chars = color_key_chars(t.as_slice());
    let key = key_chars.as_slice();
    if chars_are(key, "black") {
        Ok(ColorSpec::Black)
    } else if chars_are(key, "red") {
        Ok(ColorSpec::Red)
    } else if chars_are(key, "green") {
        Ok(ColorSpec::Green)
    } else if chars_are(key, "yellow") {
        Ok(ColorSpec::Yellow)
    } else if chars_are(key, "blue") {
        Ok(ColorSpec::Blue)
    } else if chars_are(key, "magenta") || chars_are(key, "purple") {
        Ok(ColorSpec::Magenta)
    } else if chars_are(key, "cyan") {
        Ok(ColorSpec::Cyan)
    } else if chars_are(key, "white") {
        Ok(ColorSpec::White)
    } else if chars_are(key, "gray") || chars_are(key, "grey") {
        Ok(ColorSpec::Gray)
    } else if chars_are(key, "dark_gray") || chars_are(key, "dark_grey") || chars_are(key, "darkgray") || chars_are(key, "darkgrey") {
        Ok(ColorSpec::DarkGray)
    } else if chars_are(key, "light_red") || chars_are(key, "lightred") {
        Ok(ColorSpec::LightRed)
    } else if chars_are(key, "light_green") || chars_are(key, "lightgreen") {
        Ok(ColorSpec::LightGreen)
    } else if chars_are(key, "light_yellow") || chars_are(key, "lightyellow") {
        Ok(ColorSpec::LightYellow)
    } else if chars_are(key, "light_blue") || chars_are(key, "lightblue") {
        Ok(ColorSpec::LightBlue)
    } else if chars_are(key, "light_magenta") || chars_are(key, "lightmagenta") {
        Ok(ColorSpec::LightMagenta)
    } else if chars_are(key, "light_cyan") || chars_are(key, "lightcyan") {
        Ok(ColorSpec::LightCyan)
    } else if chars_are(key, "reset") || chars_are(key, "default") || chars_are(key, "none") {
        Ok(ColorSpec::Reset)
    } else {
        Err(quoted_error(t.as_slice(), "` is not a known colour (use #rrggbb, an ANSI name or 0-255)"))
    }
}

// ---------------------------------------------------------------------------------------
// Overrides
// ---------------------------------------------------------------------------------------

/// `theme` with the colour called `field` set to `color`; unknown fields change nothing.
pub open spec fn with_field(theme: Theme, field: Seq<char>, color: ColorSpec) -> Theme {
    if field == "accent"@ {
        Theme { accent: color, ..theme }
    } else if field == "accent_soft"@ {
        Theme { accent_soft: color, ..theme }
    } else if field == "directory"@ {
        Theme { directory: color, ..theme }
    } else if field == "file"@ {
        Theme { file: color, ..theme }
    } else if field == "text"@ {
        Theme { text: color, ..theme }
    } else if field == "muted"@ {
        Theme { muted: color, ..theme }
    } else if field == "faint"@ {
        Theme { faint: color, ..theme }
    } else if field == "success"@ {
        Theme { success: color, ..theme }
    } else if field == "warning"@ {
        Theme { warning: color, ..theme }
    } else if field == "danger"@ {
        Theme { danger: color, ..theme }
    } else if field == "border"@ {
        Theme { border: color, ..theme }
    } else if field == "border_focused"@ {
        Theme { border_focused: color, ..theme }
    } else if field == "selection_background"@ {
        Theme { selection_background: color, ..theme }
    } else if field == "bar_track"@ {
        Theme { bar_track: color, ..theme }
    } else {
        theme
    }
}

/// The theme after the overrides from `from` on, in order; the first value that is not a
/// colour stops with an error naming its field.
pub open spec fn overrides_from(theme: Theme, overrides: Seq<(String, String)>, from: int) -> Result<
    Theme,
    Seq<char>,
>
    decreases overrides.len() - from,
{
    if from < 0 || from >= overrides.len() {
        Ok(theme)
    } else {
        match parse_color_spec(overrides[from].1@) {
            Ok(color) => overrides_from(
                with_field(theme, overrides[from].0@, color),
                overrides,
                from + 1,
            ),
            Err(reason) => Err("theme."@ + overrides[from].0@ + ": "@ + reason),
        }
    }
}

fn set_field(theme: Theme, field: &String, color: ColorSpec) -> (result: Theme)
    ensures
        result == with_field(theme, field@, color),
{
    let chars = chars_of(field.as_str());
    let f = chars.as_slice();
    let mut result = theme;
    if chars_are(f, "accent") {
        result.accent = color;
    } else if chars_are(f, "accent_soft") {
        result.accent_soft = color;
    } else if chars_are(f, "directory") {
        result.directory = color;
    } else if chars_are(f, "file") {
        result.file = color;
    } else if chars_are(f, "text") {
        result.text = color;
    } else if chars_are(f, "muted") {
        result.muted = color;
    } else if chars_are(f, "faint") {
        result.faint = color;
    } else if chars_are(f, "success") {
        result.success = color;
    } else if chars_are(f, "warning") {
        result.warning = color;
    } else if chars_are(f, "danger") {
        result.danger = color;
    } else if chars_are(f, "border") {
        result.border = color;
    } else if chars_are(f, "border_focused") {
        result.border_focused = color;
    } else if chars_are(f, "selection_background") {
        result.selection_background = color;
    } else if chars_are(f, "bar_track") {
        result.bar_track = color;
    }
    result
}

impl Theme {
    /// Applies colour overrides `(field, value)` in order, as the `[theme]` table of the
    /// configuration file gives them.
    pub fn with_overrides(self, overrides: &[(String, String)]) -> (result: Result<Theme, String>)
        ensures
            match result {
                Ok(theme) => overrides_from(self, overrides@, 0) == Ok::<Theme, Seq<char>>(theme),
                Err(reason) => overrides_from(self, overrides@, 0) == Err::<Theme, Seq<char>>(
                    reason@,
                ),
            },
    {
        let mut theme = self;
        let mut i: usize = 0;
        while i < overrides.len()
            invariant
                0 <= i <= overrides@.len(),
                overrides_from(self, overrides@, 0) == overrides_from(theme, overrides@, i as int),
            decreases overrides@.len() - i,
        {
            match parse_color(overrides[i].1.as_str()) {
                Ok(color) => {
                    theme = set_field(theme, &overrides[i].0, color);
                },
                Err(reason) => {
                    let mut message = String::from_str("theme.");
                    message.append(overrides[i].0.as_str());
                    message.append(": ");
                    message.append(reason.as_str());
                    return Err(message);
                },
            }
            i += 1;
        }
        Ok(theme)
    }
}

// ---------------------------------------------------------------------------------------
// Choosing the palette
// ---------------------------------------------------------------------------------------

/// The palette name the configuration asks for: trimmed, lower case, `terracotta` when empty.
pub open spec fn requested_theme(name: Seq<char>) -> Seq<char> {
    if ascii_lower(trim(name)).len() == 0 {
        "terracotta"@
    } else {
        ascii_lower(trim(name))
    }
}

/// The effective palette name, the theme and a warning: an unknown name falls back to
/// `terracotta` with a warning; overrides that do not parse are dropped with a warning naming
/// the value; a terminal without truecolor gets the `basic` palette unless that is the
/// name asked for.
pub open spec fn resolve_spec(name: Seq<char>, overrides: Seq<(String, String)>, truecolor: bool) -> (
    Seq<char>,
    Theme,
    Option<Seq<char>>,
) {
    let requested = requested_theme(name);
    let (effective, base) = match palette_for_key(theme_key(requested)) {
        Some(theme) => (requested, theme),
        None => ("terracotta"@, terracotta_palette()),
    };
    let unknown = if effective != requested {
        Some("unknown theme `"@ + requested + "` in the configuration, using terracotta"@)
    } else {
        None
    };
    let (themed, warning) = match overrides_from(base, overrides, 0) {
        Ok(theme) => (theme, unknown),
        Err(reason) => (base, Some(reason)),
    };
    if !truecolor && effective != "basic"@ {
        (effective, basic_palette(), warning)
    } else {
        (effective, themed, warning)
    }
}

/// The palette the configuration asks for, degraded to the 16-colour one when the terminal
/// cannot show truecolor. Returns the effective name, the theme and a warning.
pub fn resolve_theme(name: &str, overrides: &[(String, String)], truecolor: bool) -> (result: (
    String,
    Theme,
    Option<String>,
))
    ensures
        ({
            let (effective, theme, warning) = resolve_spec(name@, overrides@, truecolor);
            &&& result.0@ == effective
            &&& result.1 == theme
            &&& match result.2 {
                Some(w) => warning == Some(w@),
                None => warning is None,
            }
        }),
{
    let chars = chars_of(name);
    let trimmed = trim_chars(chars.as_slice());
    let lowered = lower_chars(trimmed.as_slice());
    let requested: String = if lowered.len() == 0 {
        String::from_str("terracotta")
    } else {
        string_of(lowered.as_slice())
    };
    let (effective, base) = match Theme::by_name(requested.as_str()) {
        Some(theme) => (requested.clone(), theme),
        None => (String::from_str("terracotta"), Theme::terracotta()),
    };
    let mut warning: Option<String> = if effective != requested {
        let mut text = String::from_str("unknown theme `");
        text.append(requested.as_str());
        text.append("` in the configuration, using terracotta");
        Some(text)
    } else {
        None
    };
    let themed = match base.with_overrides(overrides) {
        Ok(theme) => theme,
        Err(reason) => {
            warning = Some(reason);
            base
        },
    };
    let effective_chars = chars_of(effective.as_str());
    if !truecolor && !chars_are(effective_chars.as_slice(), "basic") {
        return (effective, Theme::basic(), warning);
    }
    (effective, themed, warning)
}

/// The built-in palettes have distinct names.
pub proof fn lemma_theme_names_distinct(i: int, j: int)
    requires
        0 <= i < j < THEME_COUNT,
    ensures
        theme_name_spec(i) != theme_name_spec(j),
{
    reveal_strlit("terracotta");
    reveal_strlit("btop");
    reveal_strlit("nord");
    reveal_strlit("dracula");
    reveal_strlit("gruvbox");
    reveal_strlit("catppuccin");
    reveal_strlit("tokyo-night");
    reveal_strlit("solarized");
    reveal_strlit("monochrome");
    reveal_strlit("light");
    reveal_strlit("basic");
    let a = theme_name_spec(i);
    let b = theme_name_spec(j);
    if a == b {
        assert(a.len() == b.len());
        assert(a[0] == b[0]);
        assert(false);
    }
}

/// A position among the built-in names is one of them.
pub proof fn lemma_theme_position_bounded(name: Seq<char>, from: nat)
    ensures
        theme_position(name, from) < THEME_COUNT,
    decreases THEME_COUNT - from,
{
    if from < THEME_COUNT && name != theme_name_spec(from as int) {
        lemma_theme_position_bounded(name, from + 1);
    }
}

proof fn lemma_theme_position_from(k: int, from: nat)
    requires
        0 <= from <= k < THEME_COUNT,
    ensures
        theme_position(theme_name_spec(k), from) == k,
    decreases k - from,
{
    if from < k {
        lemma_theme_names_distinct(from as int, k);
        lemma_theme_position_from(k, from + 1);
    }
}

/// Stepping `step` palettes forward and then `step` back comes back to the palette one
/// started from.
pub proof fn lemma_neighbour_round_trip(k: int, step: int)
    requires
        0 <= k < THEME_COUNT,
    ensures
        ({
            let there = theme_name_spec((k + step) % (THEME_COUNT as int));
            theme_name_spec((theme_position(there, 0) - step) % (THEME_COUNT as int))
                == theme_name_spec(k)
        }),
{
    let m = (k + step) % 11;
    assert(0 <= m < 11);
    lemma_theme_position_from(m, 0);
    assert((m - step) % 11 == k) by (nonlinear_arith)
        requires
            m == (k + step) % 11,
            0 <= k < 11,
    ;
}

// ---------------------------------------------------------------------------------------
// Listing and switching palettes
// ---------------------------------------------------------------------------------------

/// `text` followed by spaces up to `width` characters, as `{:<width}` formats it.
pub open spec fn pad_right(text: Seq<char>, width: nat) -> Seq<char> {
    if text.len() >= width {
        text
    } else {
        text + Seq::new((width - text.len()) as nat, |i: int| ' ')
    }
}

/// The line of the palette list for the built-in `name`: a marker on the one in use, the
/// name in a column of twelve, and its description.
pub open spec fn listing_line(name: Seq<char>, current: Seq<char>) -> Seq<char> {
    (if name == current {
        "\u{25b6}"@
    } else {
        " "@
    }) + " "@ + pad_right(name, 12) + " "@ + describe_spec(name)
}

/// The first built-in name, from index `from` on, whose palette is `palette`; `terracotta` when
/// none is.
pub open spec fn first_name_of(palette: Theme, from: nat) -> Seq<char>
    decreases THEME_COUNT - from,
{
    if from >= THEME_COUNT {
        "terracotta"@
    } else if palette_for_key(theme_key(theme_name_spec(from as int))) == Some(palette) {
        theme_name_spec(from as int)
    } else {
        first_name_of(palette, from + 1)
    }
}

/// The built-in name a palette name stands for: the first built-in name with the same
/// palette.
pub open spec fn canonical_name_spec(name: Seq<char>) -> Option<Seq<char>> {
    match palette_for_key(theme_key(name)) {
        Some(palette) => Some(first_name_of(palette, 0)),
        None => None,
    }
}

fn spaces(line: &mut String, count: usize)
    ensures
        final(line)@ == old(line)@ + Seq::new(count as nat, |i: int| ' '),
{
    let mut i: usize = 0;
    while i < count
        invariant
            0 <= i <= count,
            line@ == old(line)@ + Seq::new(i as nat, |k: int| ' '),
        decreases count - i,
    {
        crate::text::push_char(line, ' ');
        assert(line@ =~= old(line)@ + Seq::new((i + 1) as nat, |k: int| ' '));
        i += 1;
    }
}

impl Theme {
    /// One line per built-in palette, the one called `current` marked.
    pub fn listing(current: &str) -> (lines: Vec<String>)
        ensures
            lines@.len() == THEME_COUNT,
            forall|k: int|
                0 <= k < THEME_COUNT ==> (#[trigger] lines@[k])@ == listing_line(
                    theme_name_spec(k),
                    current@,
                ),
    {
        let current_chars = chars_of(current);
        let mut lines: Vec<String> = Vec::new();
        let mut k: usize = 0;
        while k < THEME_COUNT
            invariant
                0 <= k <= THEME_COUNT,
                current_chars@ == current@,
                lines@.len() == k,
                forall|j: int|
                    0 <= j < k ==> (#[trigger] lines@[j])@ == listing_line(
                        theme_name_spec(j),
                        current@,
                    ),
            decreases THEME_COUNT - k,
        {
            let name = theme_name(k);
            let mut line = if chars_are(current_chars.as_slice(), name) {
                String::from_str("\u{25b6}")
            } else {
                String::from_str(" ")
            };
            line.append(" ");
            line.append(name);
            let width = chars_of(name).len();
            if width < 12 {
                spaces(&mut line, 12 - width);
            }
            line.append(" ");
            line.append(Theme::describe(name));
            proof {
                reveal_strlit("\u{25b6}");
                reveal_strlit(" ");
                assert(line@ =~= listing_line(theme_name_spec(k as int), current@));
            }
            lines.push(line);
            k += 1;
        }
        lines
    }

    /// The built-in name `name` stands for (aliases resolved), if it names a palette.
    pub fn canonical_name(name: &str) -> (canonical: Option<&'static str>)
        ensures
            match canonical {
                Some(c) => canonical_name_spec(name@) == Some(c@),
                None => canonical_name_spec(name@) is None,
            },
    {
        let base = match Theme::by_name(name) {
            Some(theme) => theme,
            None => return None,
        };
        let mut k: usize = 0;
        while k < THEME_COUNT
            invariant
                0 <= k <= THEME_COUNT,
                palette_for_key(theme_key(name@)) == Some(base),
                first_name_of(base, 0) == first_name_of(base, k as nat),
            decreases THEME_COUNT - k,
        {
            let candidate = theme_name(k);
            match Theme::by_name(candidate) {
                Some(palette) => {
                    if palette == base {
                        return Some(candidate);
                    }
                },
                None => {},
            }
            k += 1;
        }
        Some("terracotta")
    }
}

} // verus!
