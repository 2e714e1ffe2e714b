use streamrs::clock::{
    clock_background_name, clock_background_svg, clock_char_width, current_clock_text,
    is_clock_icon, push_clock_digit_rects, render_clock_segments_svg, seven_segment_pattern,
    CLOCK_BACKGROUND_ICON, CLOCK_FALLBACK_BACKGROUND_COLOR,
};

#[test]
fn clock_icon_alias_and_prefix_are_case_insensitive() {
    assert!(is_clock_icon("clock.svg"));
    assert!(is_clock_icon("CLOCK.SVG"));
    assert!(is_clock_icon("clock://hh:mm"));
    assert!(is_clock_icon("CLOCK://HH:MM"));
    assert!(!is_clock_icon("clock.png"));
}

#[test]
fn render_clock_svg_uses_image_background_when_present() {
    let svg = render_clock_segments_svg("12:34", None, true);
    assert!(svg.contains(&format!(r#"href="{CLOCK_BACKGROUND_ICON}""#)));
    assert!(!svg.contains(CLOCK_FALLBACK_BACKGROUND_COLOR));
}

#[test]
fn render_clock_svg_falls_back_for_missing_background() {
    let svg = render_clock_segments_svg("12:34", Some("missing.png"), false);
    assert!(svg.contains(CLOCK_FALLBACK_BACKGROUND_COLOR));
    assert!(!svg.contains(r#"href="missing.png""#));
}

#[test]
fn clock_svg_uses_fallback_background_when_blank_png_is_missing() {
    let svg = render_clock_segments_svg("12:34", None, false);
    assert!(svg.contains(CLOCK_FALLBACK_BACKGROUND_COLOR));
    assert!(!svg.contains(CLOCK_BACKGROUND_ICON));
}

#[test]
fn clock_face_names_chosen_background() {
    let svg = render_clock_segments_svg("12:34", Some("bg-a.png"), true);
    assert!(svg.contains(r#"<image href="bg-a.png" x="0" y="0" width="72" height="72"/>"#));
    assert!(!svg.contains(CLOCK_FALLBACK_BACKGROUND_COLOR));
    assert_eq!(clock_background_name(Some("bg-a.png")), "bg-a.png");
    assert_eq!(clock_background_name(None), CLOCK_BACKGROUND_ICON);
}

#[test]
fn clock_face_layout_is_centred() {
    let svg = render_clock_segments_svg("12:34", None, false);
    assert!(svg.starts_with(
        "<svg xmlns=\"http://www.w3.org/2000/svg\" width=\"72\" height=\"72\" viewBox=\"0 0 72 72\">\n"
    ));
    assert!(svg.ends_with("\n</svg>"));
    // Four digits of 12, a colon of 4 and four gaps of 2: 60 wide, so x starts at 6.
    assert!(svg.contains(r##"<rect x="8" y="24" width="8" height="2" fill="#2f2f2f"/>"##));
    assert!(svg.contains(r##"<rect x="16" y="26" width="2" height="8" fill="#ffffff"/>"##));
    // The colon sits after "12" at x = 6 + 2 * 14 = 34.
    assert!(svg.contains(r##"<rect x="35" y="32" width="2" height="2" fill="#ffffff"/>"##));
    assert!(svg.contains(r##"<rect x="35" y="40" width="2" height="2" fill="#ffffff"/>"##));
    assert_eq!(svg.matches("<rect").count(), 1 + 4 * 7 + 2);
}

#[test]
fn clock_face_is_deterministic() {
    assert_eq!(
        render_clock_segments_svg("09:58", None, false),
        render_clock_segments_svg("09:58", None, false)
    );
    assert_ne!(
        render_clock_segments_svg("09:58", None, false),
        render_clock_segments_svg("09:59", None, false)
    );
}

#[test]
fn seven_segment_table() {
    assert_eq!(seven_segment_pattern('0'), [true, true, true, true, true, true, false]);
    assert_eq!(seven_segment_pattern('1'), [false, true, true, false, false, false, false]);
    assert_eq!(seven_segment_pattern('8'), [true; 7]);
    assert_eq!(seven_segment_pattern('x'), [false; 7]);
    assert_eq!(clock_char_width(':'), 4);
    assert_eq!(clock_char_width('7'), 12);
}

#[test]
fn digit_rects_append_seven_segments() {
    let mut svg = String::from("<g>");
    push_clock_digit_rects(&mut svg, 10, 20, '1');
    assert!(svg.starts_with("<g><rect x=\"12\" y=\"20\" width=\"8\" height=\"2\" fill=\"#2f2f2f\"/>"));
    assert!(svg.contains(r##"<rect x="20" y="22" width="2" height="8" fill="#ffffff"/>"##));
    assert_eq!(svg.matches("<rect").count(), 7);
}

#[test]
fn background_element_choices() {
    assert_eq!(
        clock_background_svg(None, false),
        r##"<rect x="0" y="0" width="72" height="72" fill="#1f1f1f"/>"##
    );
    assert_eq!(
        clock_background_svg(None, true),
        r#"<image href="blank.png" x="0" y="0" width="72" height="72"/>"#
    );
}

#[test]
fn current_clock_text_is_hours_and_minutes() {
    let text = current_clock_text();
    assert_eq!(text.len(), 5);
    assert_eq!(&text[2..3], ":");
    assert!(text.chars().enumerate().all(|(i, c)| i == 2 || c.is_ascii_digit()));
}

#[test]
fn picture_named_like_the_fallback_colour_shows_it() {
    let svg = render_clock_segments_svg("12:34", Some("#1f1f1f.png"), true);
    assert!(svg.contains(CLOCK_FALLBACK_BACKGROUND_COLOR));
    let svg = render_clock_segments_svg("12:34", Some("a#1.png"), true);
    assert!(!svg.contains(CLOCK_FALLBACK_BACKGROUND_COLOR));
}
