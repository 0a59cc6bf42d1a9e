use tmux_portal::config::{
    has_all_fields, has_all_fields_recursive, needs_rewrite, parse_color, Color, ColorConfig,
    Config, LineNumberConfig, SearchPatternConfig, Style, StyleConfig, TableEntry, ValueShape,
    default_list_highlight, default_numeric_buffer, default_popup_text,
    default_quick_search_match, default_quick_search_selected, default_search_highlight,
};

#[test]
fn test_parse_color() {
    assert_eq!(parse_color("red"), Color::Red);
    assert_eq!(parse_color("RED"), Color::Red);
    assert_eq!(parse_color("#FF0000"), Color::Rgb(255, 0, 0));
    assert_eq!(parse_color("FF0000"), Color::Rgb(255, 0, 0));
    assert_eq!(parse_color("0xFF0000"), Color::Rgb(255, 0, 0));
    assert_eq!(parse_color("0x11161f"), Color::Rgb(17, 22, 31));
    assert_eq!(parse_color("42"), Color::Indexed(42));
    assert_eq!(parse_color("invalid"), Color::White);
}

#[test]
fn parse_color_knows_every_name() {
    let names = [
        ("black", Color::Black),
        ("green", Color::Green),
        ("yellow", Color::Yellow),
        ("blue", Color::Blue),
        ("magenta", Color::Magenta),
        ("cyan", Color::Cyan),
        ("gray", Color::Gray),
        ("grey", Color::Gray),
        ("dark_gray", Color::DarkGray),
        ("dark_grey", Color::DarkGray),
        ("light_red", Color::LightRed),
        ("light_green", Color::LightGreen),
        ("light_yellow", Color::LightYellow),
        ("light_blue", Color::LightBlue),
        ("light_magenta", Color::LightMagenta),
        ("light_cyan", Color::LightCyan),
        ("white", Color::White),
    ];
    for (name, color) in names {
        assert_eq!(parse_color(name), color);
    }
}

#[test]
fn parse_color_reads_numbers_as_the_standard_parsers_do() {
    assert_eq!(parse_color("0"), Color::Indexed(0));
    assert_eq!(parse_color("255"), Color::Indexed(255));
    assert_eq!(parse_color("256"), Color::White);
    assert_eq!(parse_color("+7"), Color::Indexed(7));
    assert_eq!(parse_color("007"), Color::Indexed(7));
    assert_eq!(parse_color("-1"), Color::White);
    assert_eq!(parse_color(""), Color::White);
    assert_eq!(parse_color("+"), Color::White);
    assert_eq!(parse_color("#12345"), Color::White);
    assert_eq!(parse_color("#12345g"), Color::White);
    assert_eq!(parse_color("+12345"), Color::Rgb(0x01, 0x23, 0x45));
    assert_eq!(parse_color("000042"), Color::Rgb(0, 0, 0x42));
    assert_eq!(parse_color("1b2433"), Color::Rgb(0x1b, 0x24, 0x33));
    assert_eq!(parse_color("99999999999999999999"), Color::White);
    for text in ["0", "255", "256", "+7", "007", "-1", "", "+", "12", "1e", "٣"] {
        let expected = match text.parse::<u8>() {
            Ok(index) => Color::Indexed(index),
            Err(_) => Color::White,
        };
        assert_eq!(parse_color(text), expected, "{text}");
    }
    for text in ["ff0000", "+12345", "12345g", "-12345", "abcdef", "00000+"] {
        let expected = match u32::from_str_radix(text, 16) {
            Ok(rgb) => Color::Rgb((rgb >> 16) as u8, (rgb >> 8) as u8, rgb as u8),
            Err(_) => Color::White,
        };
        assert_eq!(parse_color(text), expected, "{text}");
    }
}

#[test]
fn style_takes_colours_and_attributes() {
    let config = StyleConfig {
        fg: Some("Yellow".to_string()),
        bg: Some("#1b2433".to_string()),
        bold: Some(true),
        italic: Some(false),
        underline: None,
        dim: Some(true),
        reversed: None,
    };
    assert_eq!(
        config.to_ratatui_style(),
        Style {
            fg: Some(Color::Yellow),
            bg: Some(Color::Rgb(0x1b, 0x24, 0x33)),
            bold: true,
            italic: false,
            underlined: false,
            dim: true,
            reversed: false,
        }
    );
    let plain = StyleConfig::default().to_ratatui_style();
    assert_eq!(plain.fg, None);
    assert_eq!(plain.bg, None);
    assert!(!plain.bold && !plain.italic && !plain.underlined && !plain.dim && !plain.reversed);
}

fn style_fields(s: &StyleConfig) -> (Option<&str>, Option<&str>, Option<bool>, Option<bool>) {
    assert_eq!(s.italic, None);
    assert_eq!(s.underline, None);
    assert_eq!(s.dim, None);
    (s.fg.as_deref(), s.bg.as_deref(), s.bold, s.reversed)
}

#[test]
fn default_styles() {
    assert_eq!(style_fields(&default_numeric_buffer()), (Some("cyan"), None, Some(true), None));
    assert_eq!(style_fields(&default_popup_text()), (Some("white"), None, None, None));
    assert_eq!(style_fields(&default_search_highlight()), (Some("cyan"), None, Some(true), None));
    assert_eq!(style_fields(&default_quick_search_match()), (None, None, Some(true), None));
    assert_eq!(
        style_fields(&default_quick_search_selected()),
        (Some("black"), Some("cyan"), Some(true), None)
    );
    assert_eq!(style_fields(&default_list_highlight()), (None, None, None, Some(true)));
}

#[test]
fn default_configuration() {
    let config = Config::default();
    assert!(config.show_window_ids);
    assert!(config.session_order.is_none());
    assert!(config.search_paths.is_empty());
    assert!(config.search_patterns.is_empty());
    assert_eq!(config.line_numbers.padding, 5);
    assert_eq!(
        style_fields(&config.line_numbers.current_line_color),
        (Some("dark_gray"), None, None, None)
    );
    let colors = ColorConfig::default();
    assert_eq!(style_fields(&colors.session), (None, None, Some(true), None));
    assert_eq!(style_fields(&colors.window_active), (None, None, Some(false), None));
    assert_eq!(style_fields(&colors.window_inactive), (None, None, None, None));
    assert_eq!(
        style_fields(&colors.window_selected),
        (Some("yellow"), Some("#1b2433"), Some(true), None)
    );
    assert_eq!(
        style_fields(&colors.session_selected),
        (None, Some("light_blue"), Some(true), None)
    );
    assert_eq!(style_fields(&colors.border_search), (Some("cyan"), None, None, None));
    assert_eq!(style_fields(&colors.status_text), (Some("green"), None, None, None));
    assert_eq!(style_fields(&colors.error_text), (Some("red"), None, None, None));
    assert_eq!(style_fields(&colors.list_highlight), (None, None, None, Some(true)));
    let numbers = LineNumberConfig::default();
    assert_eq!(numbers.padding, 5);
    let pattern = SearchPatternConfig::default();
    assert_eq!(pattern.name, "git-style");
    assert_eq!(pattern.pattern, "{session}/{window}");
    assert!(pattern.paths.is_empty());
    let copy = config.clone();
    assert_eq!(copy.line_numbers.padding, 5);
    assert_eq!(style_fields(&copy.colors.help_key), (Some("yellow"), None, Some(true), None));
}

fn entry(key: &str, value: ValueShape) -> TableEntry {
    TableEntry { key: key.to_string(), value }
}

#[test]
fn configuration_with_every_default_field() {
    let default = ValueShape::Table(vec![
        entry("show_window_ids", ValueShape::Boolean),
        entry(
            "colors",
            ValueShape::Table(vec![entry("session", ValueShape::Table(vec![]))]),
        ),
    ]);
    let full = ValueShape::Table(vec![
        entry(
            "colors",
            ValueShape::Table(vec![
                entry("extra", ValueShape::Text),
                entry("session", ValueShape::Table(vec![entry("bold", ValueShape::Boolean)])),
            ]),
        ),
        entry("show_window_ids", ValueShape::Boolean),
    ]);
    let lacking = ValueShape::Table(vec![
        entry("colors", ValueShape::Table(vec![])),
        entry("show_window_ids", ValueShape::Boolean),
    ]);
    let other_kind = ValueShape::Table(vec![
        entry(
            "colors",
            ValueShape::Table(vec![entry("session", ValueShape::Table(vec![]))]),
        ),
        entry("show_window_ids", ValueShape::Text),
    ]);
    assert!(has_all_fields_recursive(&full, &default));
    assert!(!has_all_fields_recursive(&lacking, &default));
    assert!(!has_all_fields_recursive(&other_kind, &default));
    assert!(has_all_fields_recursive(&ValueShape::Array, &ValueShape::Array));
    assert!(!has_all_fields_recursive(&ValueShape::Integer, &ValueShape::Real));
    assert!(has_all_fields(Some(&full), Some(&default)));
    assert!(!has_all_fields(None, Some(&default)));
    assert!(!has_all_fields(Some(&full), None));
}

#[test]
fn configuration_is_rewritten_only_when_it_lacks_fields() {
    assert!(needs_rewrite("a = 1", "a = 1\nb = 2", false));
    assert!(!needs_rewrite("a = 1", "a = 1\nb = 2", true));
    assert!(!needs_rewrite("a = 1", "a = 1", false));
}

#[test]
fn colour_names_in_any_case() {
    for name in ["Light_Blue", "LIGHT_BLUE", "light_BLUE", "DARK_grey", "0XFF0000", "#aBcDeF"] {
        assert_eq!(parse_color(name), parse_color(&name.to_ascii_lowercase()), "{name}");
    }
    assert_eq!(parse_color("Light_Blue"), Color::LightBlue);
    assert_eq!(parse_color("0XFF0000"), Color::Rgb(255, 0, 0));
    assert_eq!(parse_color("#aBcDeF"), Color::Rgb(0xab, 0xcd, 0xef));
    for code in 0..128u8 {
        let c = code as char;
        let text = format!("#{c}00000");
        let lower = format!("#{}00000", c.to_ascii_lowercase());
        assert_eq!(text.to_lowercase(), lower);
    }
}
