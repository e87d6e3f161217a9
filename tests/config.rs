use watchx::config::{lookup_env, Config};
use watchx::display::{get_file_icon, hyperlink};
use watchx::text::{parse_decimal_u16, same_text, split_words};

fn config(env: &[(&str, &str)]) -> Config {
    Config {
        env: env.iter().map(|(k, v)| (k.to_string(), v.to_string())).collect(),
        commands: vec!["node server.js".to_string()],
        watch_dir: ".".to_string(),
        ignore: None,
    }
}

#[test]
fn port_comes_from_environment() {
    assert_eq!(config(&[("NODE_ENV", "dev"), ("PORT", "3000")]).target_port(), 3000);
}

#[test]
fn port_defaults_when_absent_or_unreadable() {
    assert_eq!(config(&[]).target_port(), 8080);
    assert_eq!(config(&[("PORT", "http")]).target_port(), 8080);
    assert_eq!(config(&[("PORT", "70000")]).target_port(), 8080);
}

#[test]
fn environment_lookup_by_key() {
    let c = config(&[("A", "1"), ("PORT", "3000")]);
    assert_eq!(lookup_env(&c.env, "PORT"), Some(&"3000".to_string()));
    assert_eq!(lookup_env(&c.env, "B"), None);
}

#[test]
fn decimal_port_numbers() {
    assert_eq!(parse_decimal_u16("3000"), Some(3000));
    assert_eq!(parse_decimal_u16("+80"), Some(80));
    assert_eq!(parse_decimal_u16("0065535"), Some(65535));
    assert_eq!(parse_decimal_u16("65536"), None);
    assert_eq!(parse_decimal_u16("-1"), None);
    assert_eq!(parse_decimal_u16("+"), None);
    assert_eq!(parse_decimal_u16(""), None);
    assert_eq!(parse_decimal_u16(" 80"), None);
}

#[test]
fn words_split_at_white_space() {
    assert_eq!(split_words("  a bc\td\n"), vec!["a", "bc", "d"]);
    assert!(split_words(" \t\u{3000}").is_empty());
}

#[test]
fn text_equality() {
    assert!(same_text("PORT", "PORT"));
    assert!(!same_text("PORT", "PORTS"));
    assert!(!same_text("port", "PORT"));
}

#[test]
fn icons_by_extension() {
    assert_eq!(get_file_icon("src/main.rs"), "\u{1F980}");
    assert_eq!(get_file_icon("web/app.tsx"), "\u{1F537}");
    assert_eq!(get_file_icon("Makefile"), "\u{1F4C4}");
    assert_eq!(get_file_icon("notes.unknown"), "\u{1F4C4}");
}

#[test]
fn hyperlink_layout() {
    assert_eq!(
        hyperlink("/w/p/src/a.rs", "X", "p", "src/a.rs"),
        "\x1b]8;;file:///w/p/src/a.rs\x1b\\X p/src/a.rs\x1b]8;;\x1b\\"
    );
}

#[test]
fn pid_listing_keeps_numbers_only() {
    assert_eq!(watchx::text::pid_list("1234\n 56\tabc -7 +8\n4294967296\n"), vec![1234, 56, 8]);
    assert!(watchx::text::pid_list("").is_empty());
}
