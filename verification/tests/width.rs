use hits::font_metrics::{CharAdvance, Typeface, TypefaceRegistry, get_text_width_px};

/// Two faces with simple synthetic metrics: in "verdana" most characters
/// advance 7.5 px (7500 milli-pixels) and 'i' only 3 px; in "helvetica"
/// everything advances 6 px.
fn registry_for_width_tests() -> TypefaceRegistry {
    let verdana = Typeface::new(
        "verdana".to_string(),
        vec![CharAdvance { ch: 'i', milli: 3000 }],
        7500,
    )
    .unwrap();
    let helvetica = Typeface::new("helvetica".to_string(), vec![], 6000).unwrap();
    TypefaceRegistry::new(vec![verdana, helvetica]).unwrap()
}

#[test]
fn width_floor_on_empty_text() {
    let reg = registry_for_width_tests();
    assert_eq!(get_text_width_px("", "verdana", &reg), 5);
    assert_eq!(get_text_width_px("", "no such font", &reg), 5);
}

#[test]
fn width_floor_on_thin_text() {
    let reg = registry_for_width_tests();
    // one 'i' measures 3 px, below the 5 px floor
    assert_eq!(get_text_width_px("i", "verdana", &reg), 5);
}

#[test]
fn width_floor_holds_for_nonempty_texts() {
    let reg = registry_for_width_tests();
    for text in ["i", "x", "hello", "Hits", " "] {
        assert!(get_text_width_px(text, "verdana", &reg) >= 5);
        assert!(get_text_width_px(text, "helvetica", &reg) >= 5);
    }
}

#[test]
fn width_sums_advances_and_rounds_up() {
    let reg = registry_for_width_tests();
    // "xx" = 15000 milli -> exactly 15 px
    assert_eq!(get_text_width_px("xx", "verdana", &reg), 15);
    // "xi" = 7500 + 3000 = 10500 milli -> rounds up to 11 px
    assert_eq!(get_text_width_px("xi", "verdana", &reg), 11);
    // helvetica fallback advance applies to every character
    assert_eq!(get_text_width_px("ab", "helvetica", &reg), 12);
}

#[test]
fn width_monotonic_under_doubling() {
    let reg = registry_for_width_tests();
    for s in ["i", "ii", "x", "xxxx"] {
        let doubled = format!("{}{}", s, s);
        assert!(
            get_text_width_px(s, "verdana", &reg)
                <= get_text_width_px(&doubled, "verdana", &reg)
        );
    }
}

#[test]
fn resolution_round_trip_through_alias_list() {
    let reg = registry_for_width_tests();
    let by_list = reg.resolve_font("Verdana,Geneva,DejaVu Sans,sans-serif");
    let by_name = reg.resolve_font("verdana");
    assert_eq!(by_list.name, by_name.name);
    assert_eq!(by_list.name, "verdana");
}

#[test]
fn resolution_is_case_insensitive() {
    let reg = registry_for_width_tests();
    assert_eq!(reg.resolve_font("HELVETICA").name, "helvetica");
    assert_eq!(reg.resolve_font("Helvetica Neue,Helvetica,Arial,sans-serif").name, "helvetica");
}

#[test]
fn resolution_falls_back_to_first_face() {
    let reg = registry_for_width_tests();
    assert_eq!(reg.resolve_font("comic sans").name, "verdana");
}

#[test]
fn typeface_rejects_oversized_advance() {
    assert!(Typeface::new("t".to_string(), vec![], 1_000_001).is_none());
    assert!(
        Typeface::new("t".to_string(), vec![CharAdvance { ch: 'a', milli: 2_000_000 }], 100)
            .is_none()
    );
    assert!(Typeface::new("t".to_string(), vec![], 1_000_000).is_some());
}

#[test]
fn typeface_requires_canonical_lowercase_name() {
    assert!(Typeface::new("Verdana".to_string(), vec![], 100).is_none());
    assert!(Typeface::new("verdana".to_string(), vec![], 100).is_some());
}

#[test]
fn registry_rejects_empty_face_list() {
    assert!(TypefaceRegistry::new(vec![]).is_none());
}

#[test]
fn registry_rejects_duplicate_names() {
    let a = Typeface::new("verdana".to_string(), vec![], 100).unwrap();
    let b = Typeface::new("verdana".to_string(), vec![], 200).unwrap();
    assert!(TypefaceRegistry::new(vec![a, b]).is_none());
}
