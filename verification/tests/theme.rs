use action_center::theme::{Colors, Rgba};

#[test]
fn six_digit_hex_parses_to_an_opaque_color() {
    let colors = Colors::from_stylesheet("@define-color primary_fixed_dim #1a2b3c;");
    assert_eq!(colors.primary, Rgba { red: 26, green: 43, blue: 60, alpha: 255 });
    // Only the named colour moved off its default.
    assert_eq!(colors.background, Colors::default().background);
    assert_eq!(colors.on_primary, Colors::default().on_primary);
}

#[test]
fn five_digit_hex_is_skipped() {
    let colors = Colors::from_stylesheet("@define-color primary_fixed_dim #1a2b3;");
    assert_eq!(colors, Colors::default());
}

#[test]
fn long_hex_is_skipped() {
    let colors = Colors::from_stylesheet("@define-color primary_fixed_dim #1a2b3c4d;");
    assert_eq!(colors, Colors::default());
}

#[test]
fn uppercase_hex_and_missing_semicolon_parse() {
    let colors = Colors::from_stylesheet("@define-color secondary_fixed_dim #A1B2C3");
    assert_eq!(colors.secondary, Rgba { red: 161, green: 178, blue: 195, alpha: 255 });
}

#[test]
fn value_without_hash_is_skipped() {
    let colors = Colors::from_stylesheet("@define-color primary_fixed_dim 1a2b3c;");
    assert_eq!(colors, Colors::default());
}

#[test]
fn unrecognised_key_is_skipped() {
    let colors = Colors::from_stylesheet("@define-color shadow_color #010203;");
    assert_eq!(colors, Colors::default());
}

#[test]
fn every_recognised_key_lands_on_its_colour() {
    let sheet = "@define-color surface_container_lowest #010101;\n\
                 @define-color surface_container_low #020202;\n\
                 @define-color on_surface_variant #030303;\n\
                 @define-color primary_fixed_dim #040404;\n\
                 @define-color on_primary_fixed #050505;\n\
                 @define-color secondary_fixed_dim #060606;\n\
                 @define-color on_secondary_fixed #070707;\n";
    let colors = Colors::from_stylesheet(sheet);
    assert_eq!(colors.background, Rgba::opaque(1, 1, 1));
    assert_eq!(colors.surface, Rgba::opaque(2, 2, 2));
    assert_eq!(colors.on_surface, Rgba::opaque(3, 3, 3));
    assert_eq!(colors.primary, Rgba::opaque(4, 4, 4));
    assert_eq!(colors.on_primary, Rgba::opaque(5, 5, 5));
    assert_eq!(colors.secondary, Rgba::opaque(6, 6, 6));
    assert_eq!(colors.on_secondary, Rgba::opaque(7, 7, 7));
}

#[test]
fn later_definitions_override_earlier_ones() {
    let sheet = "@define-color primary_fixed_dim #111111;\n@define-color primary_fixed_dim #222222;\n";
    let colors = Colors::from_stylesheet(sheet);
    assert_eq!(colors.primary, Rgba::opaque(0x22, 0x22, 0x22));
}

#[test]
fn other_lines_and_blank_lines_are_ignored() {
    let sheet = "/* a comment */\n\n@import url(\"other.css\");\n@define-color primary_fixed_dim #1a2b3c;\nbody { color: red; }\n";
    let colors = Colors::from_stylesheet(sheet);
    assert_eq!(colors.primary, Rgba { red: 26, green: 43, blue: 60, alpha: 255 });
}

#[test]
fn trailing_text_after_the_value_is_ignored() {
    let colors = Colors::from_stylesheet("@define-color primary_fixed_dim #1a2b3c; /* note */");
    assert_eq!(colors.primary, Rgba { red: 26, green: 43, blue: 60, alpha: 255 });
}

#[test]
fn empty_stylesheet_keeps_the_defaults() {
    let colors = Colors::from_stylesheet("");
    assert_eq!(colors, Colors::default());
    assert_eq!(colors.background, Rgba::opaque(30, 30, 30));
    assert_eq!(colors.on_surface, Rgba::opaque(200, 200, 200));
    assert_eq!(colors.primary, Rgba::opaque(0, 120, 215));
}

#[test]
fn windows_line_endings_are_handled() {
    let colors = Colors::from_stylesheet("@define-color primary_fixed_dim #1a2b3c;\r\n");
    assert_eq!(colors.primary, Rgba { red: 26, green: 43, blue: 60, alpha: 255 });
}
