use hits::api::{
    shields_badge_for, shields_badge_svg, store_error_response, AppInfo, BadgeStyle,
    HitBadgeParams, default_badge_style, default_label, default_label_color,
    default_message_color,
};

#[test]
fn api_defaults() {
    assert_eq!(default_label(), "Hits");
    assert!(matches!(default_badge_style(), BadgeStyle::Flat));
    assert!(matches!(BadgeStyle::default(), BadgeStyle::Flat));
    assert_eq!(default_label_color(), "#555");
    assert_eq!(default_message_color(), "#007ec6");
}

#[test]
fn store_errors_degrade_to_one_generic_message() {
    let (status, body) = store_error_response();
    assert_eq!(status, 500);
    assert_eq!(body.message, "An unexpected database error occurred.");
}

#[test]
fn shields_badge_body_for_count() {
    let badge = shields_badge_for(1234);
    assert_eq!(badge.schema_version, 1);
    assert_eq!(badge.label, "hits");
    assert_eq!(badge.message, "1234");
    assert_eq!(badge.color, "blue");
}

#[test]
fn app_info_fields() {
    let info = AppInfo::new("0.1.0".to_string());
    assert_eq!(info.project_name, "Hits");
    assert_eq!(info.version, "0.1.0");
    assert_eq!(info.docs_path, "/scalar");
}

fn params(style: BadgeStyle) -> HitBadgeParams {
    HitBadgeParams {
        style,
        label: default_label(),
        label_color: default_label_color(),
        message_color: default_message_color(),
        link: None,
        extra_link: None,
        logo: None,
        logo_color: None,
    }
}

#[test]
fn external_renderer_produces_badges() {
    for style in [
        BadgeStyle::Flat,
        BadgeStyle::FlatSquare,
        BadgeStyle::Plastic,
        BadgeStyle::Social,
        BadgeStyle::ForTheBadge,
    ] {
        let svg = shields_badge_svg(&params(style), "42");
        assert!(svg.starts_with("<svg"));
        assert!(svg.contains("42"));
    }
}

#[test]
fn external_renderer_is_deterministic() {
    let a = shields_badge_svg(&params(BadgeStyle::Flat), "7");
    let b = shields_badge_svg(&params(BadgeStyle::Flat), "7");
    assert_eq!(a, b);
    assert!(a.contains("Hits"));
}
