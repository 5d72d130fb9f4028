use tree_cleaner::theme::{parse_color, resolve_theme, theme_name, ColorSpec, Theme, THEME_COUNT};

#[test]
fn eleven_palettes_with_distinct_names() {
    assert_eq!(THEME_COUNT, 11);
    let names: Vec<&str> = (0..THEME_COUNT).map(theme_name).collect();
    assert_eq!(
        names,
        vec!["terracotta", "btop", "nord", "dracula", "gruvbox", "catppuccin", "tokyo-night", "solarized", "monochrome", "light", "basic"]
    );
    for name in &names {
        assert!(Theme::by_name(name).is_some());
        assert_eq!(Theme::canonical_name(name), Some(*name));
    }
}

#[test]
fn by_name_reads_aliases_case_and_underscores() {
    assert_eq!(Theme::by_name("  Default "), Some(Theme::terracotta()));
    assert_eq!(Theme::by_name("MOCHA"), Some(Theme::catppuccin()));
    assert_eq!(Theme::by_name("tokyo_night"), Some(Theme::tokyo_night()));
    assert_eq!(Theme::by_name("grey"), Some(Theme::monochrome()));
    assert_eq!(Theme::by_name("16"), Some(Theme::basic()));
    assert_eq!(Theme::by_name("neon"), None);
    assert_eq!(Theme::canonical_name("solarized_dark"), Some("solarized"));
    assert_eq!(Theme::canonical_name("neon"), None);
    assert_eq!(Theme::default_dark(), Theme::terracotta());
}

#[test]
fn describe_known_and_custom() {
    assert_eq!(Theme::describe("nord"), "cool arctic blues");
    assert_eq!(Theme::describe("Nord"), "custom");
}

#[test]
fn neighbours_wrap_around() {
    assert_eq!(Theme::neighbour_name("terracotta", 1), "btop");
    assert_eq!(Theme::neighbour_name("terracotta", -1), "basic");
    assert_eq!(Theme::neighbour_name("basic", 1), "terracotta");
    assert_eq!(Theme::neighbour_name("unknown", 0), "terracotta");
    assert_eq!(Theme::neighbour_name("nord", 22), "nord");
}

#[test]
fn stepping_forward_then_back_returns() {
    for start in 0..THEME_COUNT {
        for step in [-13isize, -1, 1, 5, 11] {
            let there = Theme::neighbour_name(theme_name(start), step);
            assert_eq!(Theme::neighbour_name(there, -step), theme_name(start));
        }
    }
}

#[test]
fn colours_in_every_notation() {
    assert_eq!(parse_color("#ff8000"), Ok(ColorSpec::Rgb(255, 128, 0)));
    assert_eq!(parse_color(" #F80 "), Ok(ColorSpec::Rgb(255, 136, 0)));
    assert_eq!(parse_color("200"), Ok(ColorSpec::Indexed(200)));
    assert_eq!(parse_color("Light-Blue"), Ok(ColorSpec::LightBlue));
    assert_eq!(parse_color("dark grey"), Ok(ColorSpec::DarkGray));
    assert_eq!(parse_color("purple"), Ok(ColorSpec::Magenta));
    assert_eq!(parse_color("none"), Ok(ColorSpec::Reset));
}

#[test]
fn colour_errors_quote_the_value() {
    assert_eq!(parse_color("#12345"), Err("`#12345` is not a #rrggbb colour".to_owned()));
    assert_eq!(parse_color("#gggggg"), Err("`#gggggg` is not a #rrggbb colour".to_owned()));
    assert_eq!(
        parse_color("256"),
        Err("`256` is not a known colour (use #rrggbb, an ANSI name or 0-255)".to_owned())
    );
    assert_eq!(
        parse_color(" teal "),
        Err("`teal` is not a known colour (use #rrggbb, an ANSI name or 0-255)".to_owned())
    );
}

#[test]
fn overrides_apply_in_order_and_stop_at_a_bad_value() {
    let overrides = vec![
        ("accent".to_owned(), "#010203".to_owned()),
        ("unknown_field".to_owned(), "red".to_owned()),
        ("accent".to_owned(), "blue".to_owned()),
    ];
    let theme = Theme::terracotta().with_overrides(&overrides).unwrap();
    assert_eq!(theme.accent, ColorSpec::Blue);
    assert_eq!(theme.directory, Theme::terracotta().directory);
    let bad = vec![("danger".to_owned(), "#zz".to_owned())];
    assert_eq!(Theme::nord().with_overrides(&bad), Err("theme.danger: `#zz` is not a #rrggbb colour".to_owned()));
}

#[test]
fn resolving_the_configured_palette() {
    let (name, theme, warning) = resolve_theme("  NORD ", &[], true);
    assert_eq!(name, "nord");
    assert_eq!(theme, Theme::nord());
    assert_eq!(warning, None);
    let (name, theme, warning) = resolve_theme("", &[], true);
    assert_eq!((name.as_str(), theme, warning), ("terracotta", Theme::terracotta(), None));
    let (name, theme, warning) = resolve_theme("neon", &[], true);
    assert_eq!(name, "terracotta");
    assert_eq!(theme, Theme::terracotta());
    assert_eq!(warning, Some("unknown theme `neon` in the configuration, using terracotta".to_owned()));
}

#[test]
fn no_truecolor_means_basic_unless_asked() {
    let (name, theme, _) = resolve_theme("dracula", &[], false);
    assert_eq!(name, "dracula");
    assert_eq!(theme, Theme::basic());
    let overrides = vec![("text".to_owned(), "white".to_owned())];
    let (_, theme, _) = resolve_theme("basic", &overrides, false);
    assert_eq!(theme.text, ColorSpec::White);
}

#[test]
fn bad_override_is_reported_and_dropped() {
    let overrides = vec![("accent".to_owned(), "nope".to_owned())];
    let (name, theme, warning) = resolve_theme("gruvbox", &overrides, true);
    assert_eq!(name, "gruvbox");
    assert_eq!(theme, Theme::gruvbox());
    assert_eq!(
        warning,
        Some("theme.accent: `nope` is not a known colour (use #rrggbb, an ANSI name or 0-255)".to_owned())
    );
}

#[test]
fn listing_marks_the_current_palette() {
    let lines = Theme::listing("nord");
    assert_eq!(lines.len(), 11);
    assert_eq!(lines[0], "  terracotta   warm terracotta accents, blue directories (default)");
    assert_eq!(lines[2], "\u{25B6} nord         cool arctic blues");
    assert_eq!(lines[6], "  tokyo-night  deep blue night");
}

#[test]
fn rgb_drops_higher_bits() {
    assert_eq!(tree_cleaner::theme::rgb(0x01d97757), ColorSpec::Rgb(0xd9, 0x77, 0x57));
}
