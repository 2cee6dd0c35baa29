use litrpg::ui::theme::{hex_text_fits, parse_hex, pywal_theme};

#[test]
fn parse_hex_reads_rrggbb() {
    assert_eq!(parse_hex("#ff0080"), Some((255, 0, 128)));
    assert_eq!(parse_hex("#1A2b3C"), Some((26, 43, 60)));
    assert_eq!(parse_hex("#+f0080"), Some((15, 0, 128)));
    assert_eq!(parse_hex("ff0080"), None);
    assert_eq!(parse_hex("#ff008"), None);
    assert_eq!(parse_hex("#ff00801"), None);
    assert_eq!(parse_hex("#gg0000"), None);
    assert_eq!(parse_hex("#-10000"), None);
}

#[test]
fn hex_text_fits_flags_cut_characters() {
    assert!(hex_text_fits("#ff0080"));
    assert!(hex_text_fits("plain"));
    assert!(!hex_text_fits("#a\u{e9}123"));
    assert!(hex_text_fits("#\u{e9}1234"));
    assert_eq!(parse_hex("#\u{e9}1234"), None);
}

const WAL: &str = r##"{
  "special": { "background": "#0a0b0c", "foreground": "#f0f1f2", "cursor": "#ffffff" },
  "colors": { "color1": "#ff0000", "color2": "#00ff00", "color4": "#0000ff", "color8": "#808080" }
}"##;

#[test]
fn pywal_theme_reads_six_colours() {
    let t = pywal_theme(WAL).unwrap();
    assert_eq!(t.bg, (10, 11, 12));
    assert_eq!(t.fg, (240, 241, 242));
    assert_eq!(t.accent, (255, 0, 0));
    assert_eq!(t.dimmed, (128, 128, 128));
    assert_eq!(t.secondary, (0, 255, 0));
    assert_eq!(t.border, (0, 0, 255));
}

#[test]
fn pywal_theme_needs_every_colour() {
    assert!(pywal_theme("not json").is_none());
    assert!(pywal_theme(&WAL.replace("\"color8\"", "\"color9\"")).is_none());
    assert!(pywal_theme(&WAL.replace("#808080", "grey")).is_none());
    assert!(pywal_theme(&WAL.replace("#808080", "#a\u{e9}123")).is_none());
    assert!(pywal_theme(r##"{"special": 3, "colors": {}}"##).is_none());
}
