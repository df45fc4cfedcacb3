use typy::config::{ConfigToml, CursorTable, GraphTable, Language, LanguageTable, ThemeTable};
use typy::theme::{hex_to_rgb, CursorKind, CursorShape, Graph, Rgb, TermColor, ThemeColors};

fn empty_config() -> ConfigToml {
    ConfigToml {
        theme: None,
        graph: None,
        cursor: None,
        modes: None,
        language: None,
    }
}

#[test]
fn theme_test_hex_to_rgb() {
    assert_eq!(
        hex_to_rgb("#ffffff"),
        Some(Rgb {
            r: 255,
            g: 255,
            b: 255
        })
    );
    assert_eq!(hex_to_rgb("#000000"), Some(Rgb { r: 0, g: 0, b: 0 }));
    assert_eq!(hex_to_rgb("#ff0000"), Some(Rgb { r: 255, g: 0, b: 0 }));
    assert_eq!(hex_to_rgb("#00ff00"), Some(Rgb { r: 0, g: 255, b: 0 }));
    assert_eq!(hex_to_rgb("#0000ff"), Some(Rgb { r: 0, g: 0, b: 255 }));
    assert_eq!(
        hex_to_rgb("#123456"),
        Some(Rgb {
            r: 18,
            g: 52,
            b: 86
        })
    );
    assert_eq!(
        hex_to_rgb("#abcdef"),
        Some(Rgb {
            r: 171,
            g: 205,
            b: 239
        })
    );
    assert_eq!(hex_to_rgb("#12345"), None);
    assert_eq!(hex_to_rgb("#1234567"), None);
    assert_eq!(hex_to_rgb("123456"), None);
    assert_eq!(hex_to_rgb("#12345g"), None);
}

#[test]
fn graph_colors_test_hex_to_rgb() {
    assert_eq!(
        hex_to_rgb("#FFFFFF"),
        Some(Rgb {
            r: 255,
            g: 255,
            b: 255
        })
    );
    assert_eq!(hex_to_rgb("#000000"), Some(Rgb { r: 0, g: 0, b: 0 }));
    assert_eq!(hex_to_rgb("#FF0000"), Some(Rgb { r: 255, g: 0, b: 0 }));
    assert_eq!(hex_to_rgb("#00FF00"), Some(Rgb { r: 0, g: 255, b: 0 }));
    assert_eq!(hex_to_rgb("#0000FF"), Some(Rgb { r: 0, g: 0, b: 255 }));
    assert_eq!(
        hex_to_rgb("#123456"),
        Some(Rgb {
            r: 18,
            g: 52,
            b: 86
        })
    );
    assert_eq!(hex_to_rgb("123456"), None);
    assert_eq!(hex_to_rgb("#12345G"), None);
    assert_eq!(hex_to_rgb("#12345"), None);
}

#[test]
fn theme_defaults_without_a_table() {
    let theme = ThemeColors::new(&empty_config());
    assert_eq!(theme.fg, TermColor::White);
    assert_eq!(theme.missing, TermColor::Grey);
    assert_eq!(theme.error, TermColor::Red);
    assert_eq!(theme.accent, TermColor::Yellow);
}

#[test]
fn theme_resolves_hex_entries_and_falls_back() {
    let mut config = empty_config();
    config.theme = Some(ThemeTable {
        fg: Some("#123456".to_string()),
        missing: Some("nonsense".to_string()),
        error: None,
        accent: Some("#abcdef".to_string()),
    });
    let theme = ThemeColors::new(&config);
    assert_eq!(
        theme.fg,
        TermColor::Rgb(Rgb {
            r: 18,
            g: 52,
            b: 86
        })
    );
    assert_eq!(theme.missing, TermColor::Grey);
    assert_eq!(theme.error, TermColor::Red);
    assert_eq!(
        theme.accent,
        TermColor::Rgb(Rgb {
            r: 171,
            g: 205,
            b: 239
        })
    );
}

#[test]
fn graph_defaults_and_resolution() {
    let graph = Graph::new(&empty_config());
    assert_eq!(graph.data, TermColor::Yellow);
    assert_eq!(graph.title, TermColor::Red);
    assert_eq!(graph.axis, TermColor::White);

    let mut config = empty_config();
    config.graph = Some(GraphTable {
        data: Some("#FF0000".to_string()),
        title: None,
        axis: Some("bad".to_string()),
    });
    let graph = Graph::new(&config);
    assert_eq!(graph.data, TermColor::Rgb(Rgb { r: 255, g: 0, b: 0 }));
    assert_eq!(graph.title, TermColor::Red);
    assert_eq!(graph.axis, TermColor::White);
}

#[test]
fn cursor_shape_from_config() {
    let mut config = empty_config();
    config.cursor = Some(CursorTable {
        style: Some("SteadyBar".to_string()),
    });
    assert_eq!(CursorKind::new(&config).style, CursorShape::SteadyBar);

    config.cursor = Some(CursorTable {
        style: Some("NoSuchShape".to_string()),
    });
    assert_eq!(
        CursorKind::new(&config).style,
        CursorShape::DefaultUserShape
    );

    assert_eq!(
        CursorKind::new(&empty_config()).style,
        CursorShape::DefaultUserShape
    );
}

#[test]
fn language_defaults_to_english() {
    assert_eq!(Language::new(&empty_config()).lang, "english");

    let mut config = empty_config();
    config.language = Some(LanguageTable {
        lang: Some("german".to_string()),
    });
    assert_eq!(Language::new(&config).lang, "german");

    config.language = Some(LanguageTable { lang: None });
    assert_eq!(Language::new(&config).lang, "english");
}

#[test]
fn config_getters_hand_the_tables_back() {
    let mut config = empty_config();
    config.theme = Some(ThemeTable {
        fg: Some("#ffffff".to_string()),
        missing: None,
        error: None,
        accent: None,
    });
    let theme = config.get_theme().unwrap();
    assert_eq!(theme.fg.as_deref(), Some("#ffffff"));
    assert!(theme.missing.is_none());
    assert!(config.get_graph().is_none());
    assert!(config.get_cursor().is_none());
    assert!(config.get_modes().is_none());
    assert!(config.get_language().is_none());
}
