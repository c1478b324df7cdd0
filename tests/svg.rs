use paper_age::builder::BuildError;
use paper_age::svg::qrcode_svg;

#[test]
fn svg_test_svg_qrcode() {
    let svg = qrcode_svg("Some value").unwrap();
    assert!(svg.starts_with(r#"<?xml version="1.0" standalone="yes"?><svg xmlns="http://www.w3.org/2000/svg""#));
    assert!(svg.contains(r##"fill="#ffffff""##));
    assert!(svg.contains(r##"<path fill="#000000""##));
    assert!(svg.ends_with(r#""/></svg>"#));
    assert_eq!(svg, qrcode_svg("Some value").unwrap());
}

#[test]
fn svg_test_input_too_large() {
    let result = qrcode_svg(&"x".repeat(8000));
    assert!(result.is_err());
    assert_eq!(result, Err(BuildError::CapacityExceeded));
}

#[test]
fn qrcode_at_the_largest_low_level_size() {
    // 2953 bytes is the byte-mode capacity of a version 40 code at level L.
    assert!(qrcode_svg(&"x".repeat(2953)).is_ok());
    assert_eq!(qrcode_svg(&"x".repeat(2954)), Err(BuildError::CapacityExceeded));
}

fn render_at(text: &str, level: qrcode::EcLevel) -> Option<String> {
    qrcode::QrCode::with_error_correction_level(text, level).ok().map(|code| {
        code.render()
            .min_dimensions(256, 256)
            .dark_color(qrcode::render::svg::Color("#000000"))
            .light_color(qrcode::render::svg::Color("#ffffff"))
            .quiet_zone(false)
            .build()
    })
}

#[test]
fn qrcode_uses_the_most_redundant_level_that_fits() {
    let short = "Some value";
    assert_eq!(qrcode_svg(short).ok(), render_at(short, qrcode::EcLevel::H));
    // Too long for levels H, Q and M, but not for L.
    let long = "x".repeat(2900);
    assert!(render_at(&long, qrcode::EcLevel::M).is_none());
    assert_eq!(qrcode_svg(&long).ok(), render_at(&long, qrcode::EcLevel::L));
}
