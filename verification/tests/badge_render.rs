use hits::badge::{
    BadgeStyle, RenderBadgeParams, render_badge_svg, FONT_FAMILY, SOCIAL_FONT_FAMILY,
    default_label_color, default_message_color,
};
use hits::font_metrics::{CharAdvance, Typeface, TypefaceRegistry, get_text_width_px};

fn registry_for_badge_tests() -> TypefaceRegistry {
    let verdana = Typeface::new(
        "verdana".to_string(),
        vec![CharAdvance { ch: 'i', milli: 3000 }],
        7500,
    )
    .unwrap();
    let helvetica = Typeface::new("helvetica".to_string(), vec![], 6000).unwrap();
    TypefaceRegistry::new(vec![verdana, helvetica]).unwrap()
}

fn render(style: BadgeStyle, label: &str, message: &str, c1: &str, c2: &str) -> String {
    let reg = registry_for_badge_tests();
    render_badge_svg(
        RenderBadgeParams { style, label, message, label_color: c1, message_color: c2 },
        &reg,
    )
}

#[test]
fn flat_total_width_is_sum_of_segments() {
    let reg = registry_for_badge_tests();
    let wl = get_text_width_px("build", FONT_FAMILY, &reg) as u64;
    let wm = get_text_width_px("passing", FONT_FAMILY, &reg) as u64;
    let svg = render(BadgeStyle::Flat, "build", "passing", "#555", "#4c1");
    assert!(svg.starts_with(&format!("<svg xmlns=\"http://www.w3.org/2000/svg\" xmlns:xlink=\"http://www.w3.org/1999/xlink\" width=\"{}\"", (wl + 12) + (wm + 12))));
}

#[test]
fn flat_square_total_width_is_sum_of_segments() {
    let reg = registry_for_badge_tests();
    let wl = get_text_width_px("a", FONT_FAMILY, &reg) as u64;
    let wm = get_text_width_px("bb", FONT_FAMILY, &reg) as u64;
    let svg = render(BadgeStyle::FlatSquare, "a", "bb", "#555", "#4c1");
    assert!(svg.contains(&format!("width=\"{}\"", (wl + 12) + (wm + 12))));
    assert!(svg.contains("rx=\"0\""));
}

#[test]
fn plastic_total_width_is_sum_of_segments() {
    let reg = registry_for_badge_tests();
    let wl = get_text_width_px("a", FONT_FAMILY, &reg) as u64;
    let wm = get_text_width_px("bb", FONT_FAMILY, &reg) as u64;
    let svg = render(BadgeStyle::Plastic, "a", "bb", "#555", "#4c1");
    assert!(svg.contains(&format!("width=\"{}\"", (wl + 12) + (wm + 12))));
    assert!(svg.contains("y=\"135\""));
    assert!(svg.contains("y=\"145\""));
}

#[test]
fn social_total_width_includes_gap_and_round_up() {
    let reg = registry_for_badge_tests();
    let wl = get_text_width_px("Star", SOCIAL_FONT_FAMILY, &reg) as u64;
    let wm = get_text_width_px("7", SOCIAL_FONT_FAMILY, &reg) as u64;
    let svg = render(BadgeStyle::Social, "Star", "7", "red", "red");
    let expected = (wl + 12) + 6 + (wm + 12) + 1;
    assert!(svg.contains(&format!("width=\"{}\"", expected)));
    // the message rectangle starts a fifth of a pixel left of the gap edge
    let msg_start = (wl + 12) + 6;
    assert!(svg.contains(&format!("<rect x=\"{}.8\"", msg_start - 1)));
}

#[test]
fn social_ignores_supplied_colors() {
    let a = render(BadgeStyle::Social, "Star", "7", "red", "red");
    let b = render(BadgeStyle::Social, "Star", "7", "blue", "green");
    assert_eq!(a, b);
    assert!(!a.contains("red"));
}

#[test]
fn rendering_is_deterministic() {
    for style in [BadgeStyle::Flat, BadgeStyle::FlatSquare, BadgeStyle::Plastic, BadgeStyle::Social]
    {
        let a = render(style, "Hits", "42", "#555", "#007ec6");
        let b = render(style, "Hits", "42", "#555", "#007ec6");
        assert_eq!(a, b);
    }
}

#[test]
fn flat_scenario_hits_two() {
    let reg = registry_for_badge_tests();
    let wl = get_text_width_px("Hits", FONT_FAMILY, &reg) as u64;
    let wm = get_text_width_px("2", FONT_FAMILY, &reg) as u64;
    let svg = render(BadgeStyle::Flat, "Hits", "2", "#555", "#007ec6");
    assert!(svg.contains(&format!("width=\"{}\"", (wl + 12) + (wm + 12))));
    assert!(svg.contains(&format!("<rect width=\"{}\" height=\"20\" fill=\"#555\"/>", wl + 12)));
    assert!(svg.contains(&format!(
        "<rect x=\"{}\" width=\"{}\" height=\"20\" fill=\"#007ec6\"/>",
        wl + 12,
        wm + 12
    )));
    assert!(svg.contains(">Hits</text>"));
    assert!(svg.contains(">2</text>"));
}

#[test]
fn untrusted_text_is_escaped() {
    let svg = render(BadgeStyle::Flat, "a<b>&c", "\"quoted\"", "#555\"><script>", "#4c1");
    assert!(svg.contains("a&lt;b&gt;&amp;c"));
    assert!(svg.contains("&quot;quoted&quot;"));
    assert!(svg.contains("#555&quot;&gt;&lt;script&gt;"));
    assert!(!svg.contains("<script>"));
}

#[test]
fn empty_texts_render_with_floor_widths() {
    let svg = render(BadgeStyle::Flat, "", "", "#555", "#4c1");
    // both segments are 5 + 12 wide
    assert!(svg.contains("width=\"34\""));
    assert!(svg.contains("<rect width=\"17\" height=\"20\" fill=\"#555\"/>"));
}

#[test]
fn badge_height_is_fixed_per_style() {
    for style in [BadgeStyle::Flat, BadgeStyle::FlatSquare, BadgeStyle::Plastic, BadgeStyle::Social]
    {
        let svg = render(style, "a", "b", "#555", "#4c1");
        assert!(svg.contains(&format!("height=\"{}\"", hits::badge::BADGE_HEIGHT)));
    }
}

#[test]
fn unmapped_characters_use_fallback_advance() {
    let reg = registry_for_badge_tests();
    // three characters outside the table, at the 7500 milli fallback
    assert_eq!(get_text_width_px("äöü", FONT_FAMILY, &reg), 23);
    let svg = render(BadgeStyle::Flat, "äöü", "1", "#555", "#4c1");
    assert!(svg.contains(">äöü</text>"));
}

#[test]
fn default_render_params() {
    let p = RenderBadgeParams::default();
    assert!(matches!(p.style, BadgeStyle::Flat));
    assert_eq!(p.label, "");
    assert_eq!(p.message, "");
    assert_eq!(p.label_color, default_label_color());
    assert_eq!(p.message_color, default_message_color());
    assert_eq!(default_label_color(), "#555");
    assert_eq!(default_message_color(), "#007ec6");
}

#[test]
fn default_badge_style_is_flat() {
    assert!(matches!(BadgeStyle::default(), BadgeStyle::Flat));
}
