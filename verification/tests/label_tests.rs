use ticket_to_ride::github::issues::LabelInfo;
use ticket_to_ride::github::labels::{generate_label_color, get_or_create_label, LabelDecision};

#[test]
fn test_generate_label_color() {
    let color1 = generate_label_color("bug");
    let color2 = generate_label_color("feature");
    let color3 = generate_label_color("bug"); // Same as color1

    assert_eq!(color1.len(), 6);
    assert_eq!(color2.len(), 6);
    assert_eq!(color1, color3); // Deterministic
    assert_ne!(color1, color2); // Different inputs = different colors
}

#[test]
fn label_colors_have_their_exact_values() {
    assert_eq!(generate_label_color("bug"), "567834");
    assert_eq!(generate_label_color("feature"), "d4573e");
    assert_eq!(generate_label_color(""), "282828");
    assert_eq!(generate_label_color("enhancement"), "9a789c");
    assert_eq!(generate_label_color("Bug"), "473854");
    assert_eq!(generate_label_color("é"), "2a64a2");
}

fn color_by_formula(name: &str) -> String {
    let hash: u32 = name.bytes().fold(0u32, |acc, b| acc.wrapping_add(b as u32).wrapping_mul(31));
    let r = ((hash >> 16) & 0xFF) % 180 + 40;
    let g = ((hash >> 8) & 0xFF) % 180 + 40;
    let b = (hash & 0xFF) % 180 + 40;
    format!("{:02x}{:02x}{:02x}", r, g, b)
}

#[test]
fn label_colors_wrap_as_32_bit_arithmetic_does() {
    for name in ["", "a", "documentation", "a very long label name that overflows many times", "日本語"] {
        assert_eq!(generate_label_color(name), color_by_formula(name), "{:?}", name);
    }
}

fn label(id: &str, name: &str) -> LabelInfo {
    LabelInfo { id: id.to_string(), name: name.to_string() }
}

#[test]
fn existing_label_is_found_ignoring_ascii_case() {
    let labels = vec![label("L1", "Bug"), label("L2", "bug")];
    assert!(matches!(get_or_create_label(&labels, "BUG", true), LabelDecision::Existing(ref id) if id == "L1"));
}

#[test]
fn only_ascii_case_is_ignored_for_labels() {
    let labels = vec![label("L1", "ÉTÉ")];
    assert!(matches!(get_or_create_label(&labels, "été", false), LabelDecision::Absent));
    assert!(matches!(get_or_create_label(&labels, "Été", false), LabelDecision::Absent));
    assert!(matches!(get_or_create_label(&labels, "Éte", false), LabelDecision::Absent));
    assert!(matches!(get_or_create_label(&labels, "étÉ", false), LabelDecision::Absent));
    assert!(matches!(get_or_create_label(&labels, "ÉTÉ", false), LabelDecision::Existing(_)));
}

#[test]
fn missing_label_is_created_only_where_wanted() {
    let labels = vec![label("L1", "bug")];
    assert!(matches!(get_or_create_label(&labels, "docs", false), LabelDecision::Absent));
    match get_or_create_label(&labels, "docs", true) {
        LabelDecision::Create { color } => assert_eq!(color, generate_label_color("docs")),
        _ => panic!("a label was to be created"),
    }
}
