use paper_age::builder::{
    pem_text_size, BuildError, DocumentBuilder, FOOTER_TEXT, GRID_SPACING, LABEL_GLYPH_WIDTH,
    TITLE_FONT_SIZE,
};
use paper_age::instruction::{Color, DrawingInstruction, Font, ImagePlacement, Layer};
use paper_age::scaler::scale_barcode;
use paper_age::encryption::encrypt_plaintext;
use paper_age::page::{a4_page, letter_page, PageSize, Point, EMU_PER_MM, EMU_PER_PT};

fn mm(v: i64) -> i64 {
    v * EMU_PER_MM
}

fn pt(v: i64) -> i64 {
    v * EMU_PER_PT
}

/// An armored-looking text of `n` lines.
fn pem_of_lines(n: usize) -> String {
    let mut lines = vec!["-----BEGIN AGE ENCRYPTED FILE-----".to_string()];
    while lines.len() + 1 < n {
        lines.push("YWdlLWVuY3J5cHRpb24ub3JnL3YxCi0+IHNjcnlwdCBBQUFBQUFBQUFBQUFBQUFB".to_string());
    }
    if n > 1 {
        lines.push("-----END AGE ENCRYPTED FILE-----".to_string());
    }
    lines.truncate(n);
    lines.join("\n") + "\n"
}

fn title_cursor(ops: &[DrawingInstruction]) -> Point {
    match &ops[3] {
        DrawingInstruction::SetTextCursor { pos } => *pos,
        other => panic!("unexpected {:?}", other),
    }
}

fn count_lines(ops: &[DrawingInstruction]) -> usize {
    ops.iter().filter(|op| matches!(op, DrawingInstruction::DrawLine { .. })).count()
}

#[test]
fn test_new_document() {
    let title = String::from("Hello World!");
    let doc = DocumentBuilder::new(title, PageSize::A4);
    assert_eq!(doc.page_size.dimensions(), a4_page());
}

#[test]
fn test_new_letter_document() {
    let title = String::from("Hello Letter!");
    let doc = DocumentBuilder::new(title, PageSize::Letter);
    assert_eq!(doc.page_size.dimensions(), letter_page());
}

#[test]
fn test_qrcode() {
    let doc = DocumentBuilder::new(String::from("QR code"), PageSize::A4);
    let result = doc.generate_qr_code("payload");
    assert!(result.is_ok());
}

#[test]
fn test_qrcode_too_large() {
    let doc = DocumentBuilder::new(String::from("QR code"), PageSize::A4);
    let result = doc.generate_qr_code(&"x".repeat(8000));
    assert!(result.is_err());
    assert!(matches!(result, Err(BuildError::CapacityExceeded)));
}

#[test]
fn title_alignment_boundary() {
    let short = DocumentBuilder::new("t".repeat(37), PageSize::A4);
    let long = DocumentBuilder::new("t".repeat(38), PageSize::A4);
    let top = mm(297) - mm(10) - TITLE_FONT_SIZE;
    assert_eq!(title_cursor(&short.insert_title_text()), Point::new(mm(50), top));
    assert_eq!(title_cursor(&long.insert_title_text()), Point::new(mm(10), top));
    assert_eq!(TITLE_FONT_SIZE, pt(14));
}

#[test]
fn title_text_section() {
    let builder = DocumentBuilder::new("Hello".to_string(), PageSize::Letter);
    let ops = builder.insert_title_text();
    assert_eq!(ops.len(), 6);
    assert_eq!(ops[0], DrawingInstruction::StartTextSection);
    assert_eq!(ops[1], DrawingInstruction::SetFillColor { color: Color::Black });
    assert_eq!(ops[2], DrawingInstruction::SetFont { font: Font::Title, size: pt(14) });
    assert_eq!(ops[4], DrawingInstruction::WriteText { text: "Hello".to_string(), font: Font::Title });
    assert_eq!(ops[5], DrawingInstruction::EndTextSection);
    assert_eq!(title_cursor(&ops).x, PageSize::Letter.qrcode_left_edge());
}

#[test]
fn ciphertext_tier_boundaries() {
    let expect = [
        (22, 13 * EMU_PER_PT, 15 * EMU_PER_PT),
        (23, 10 * EMU_PER_PT, 12 * EMU_PER_PT),
        (27, 10 * EMU_PER_PT, 12 * EMU_PER_PT),
        (28, 8 * EMU_PER_PT, 9 * EMU_PER_PT),
        (39, 8 * EMU_PER_PT, 9 * EMU_PER_PT),
        (40, 7 * EMU_PER_PT, 8 * EMU_PER_PT),
        (42, 7 * EMU_PER_PT, 8 * EMU_PER_PT),
        (43, 13 * EMU_PER_PT / 2, 7 * EMU_PER_PT),
    ];
    for (count, size, height) in expect {
        assert_eq!(pem_text_size(count), (size, height), "{} lines", count);
    }
    let mut previous = pem_text_size(0);
    for count in 0..100 {
        let now = pem_text_size(count);
        assert!(now.0 <= previous.0 && now.1 <= previous.1);
        previous = now;
    }
}

#[test]
fn ciphertext_block_writes_each_line() {
    let builder = DocumentBuilder::new("t".to_string(), PageSize::A4);
    let pem = pem_of_lines(23);
    let ops = builder.insert_pem_text(&pem);
    assert_eq!(ops.len(), 5 + 2 * 23 + 1);
    assert_eq!(ops[2], DrawingInstruction::SetLineHeight { height: pt(12) });
    assert_eq!(ops[3], DrawingInstruction::SetFont { font: Font::Code, size: pt(10) });
    assert_eq!(
        ops[4],
        DrawingInstruction::SetTextCursor { pos: Point::new(mm(10), mm(297) / 2 - pt(10) - mm(10)) }
    );
    for (i, line) in pem.lines().enumerate() {
        assert_eq!(
            ops[5 + 2 * i],
            DrawingInstruction::WriteText { text: line.to_string(), font: Font::Code }
        );
        assert_eq!(ops[6 + 2 * i], DrawingInstruction::AddLineBreak);
    }
    assert_eq!(ops[ops.len() - 1], DrawingInstruction::EndTextSection);
}

#[test]
fn notes_line_presence() {
    let builder = DocumentBuilder::new("t".to_string(), PageSize::A4);
    for (len, skip, drawn) in [(32, false, true), (33, false, false), (32, true, false), (33, true, false), (0, false, true)] {
        let ops = builder.insert_notes_field("n".repeat(len), skip);
        assert_eq!(count_lines(&ops), if drawn { 1 } else { 0 }, "{} {}", len, skip);
        assert_eq!(ops.len(), if drawn { 12 } else { 6 });
    }
}

#[test]
fn notes_line_geometry() {
    let builder = DocumentBuilder::new("t".to_string(), PageSize::A4);
    let ops = builder.insert_notes_field("Passphrase: ".to_string(), false);
    let baseline = mm(297) / 2 + mm(10);
    assert_eq!(ops[3], DrawingInstruction::SetTextCursor { pos: Point::new(mm(50), baseline) });
    assert_eq!(LABEL_GLYPH_WIDTH * 5, 3 * 13 * EMU_PER_PT);
    assert_eq!(
        ops[10],
        DrawingInstruction::DrawLine {
            from: Point::new(mm(50) + 12 * LABEL_GLYPH_WIDTH, baseline - mm(1)),
            to: Point::new(mm(50) + mm(110), baseline - mm(1)),
        }
    );
    assert_eq!(ops[9], DrawingInstruction::SetOutlineThickness { thickness: pt(1) });
    assert_eq!(ops[8], DrawingInstruction::SetLineDashPattern { dash: None });
}

#[test]
fn divider_and_footer() {
    let builder = DocumentBuilder::new("t".to_string(), PageSize::A4);
    let divider = builder.insert_divider();
    assert_eq!(divider[2], DrawingInstruction::SetLineDashPattern { dash: Some(pt(5)) });
    assert_eq!(
        divider[4],
        DrawingInstruction::DrawLine {
            from: Point::new(mm(10), mm(297) / 2),
            to: Point::new(mm(200), mm(297) / 2),
        }
    );
    let footer = builder.insert_footer();
    assert_eq!(footer[3], DrawingInstruction::SetTextCursor { pos: Point::new(mm(10), mm(10)) });
    assert_eq!(footer[4], DrawingInstruction::WriteText { text: FOOTER_TEXT.to_string(), font: Font::Title });
}

#[test]
fn grid_covers_the_page() {
    let builder = DocumentBuilder::new("t".to_string(), PageSize::A4);
    let ops = builder.draw_grid();
    // 42 vertical lines (5 mm to 210 mm) and 60 horizontal ones (292 mm down to -3 mm).
    assert_eq!(count_lines(&ops), 42 + 60);
    assert_eq!(ops.len(), 6 * (42 + 60));
    assert_eq!(GRID_SPACING, mm(5));
    assert_eq!(
        ops[4],
        DrawingInstruction::DrawLine { from: Point::new(mm(5), mm(297)), to: Point::new(mm(5), 0) }
    );
    assert_eq!(
        ops[10],
        DrawingInstruction::DrawLine { from: Point::new(mm(210), mm(292)), to: Point::new(0, mm(292)) }
    );
    assert_eq!(ops[3], DrawingInstruction::SetOutlineThickness { thickness: 0 });
    assert_eq!(ops[1], DrawingInstruction::SetOutlineColor { color: Color::LightGray });
}

#[test]
fn barcode_scaling() {
    let placement = scale_barcode(a4_page(), mm(110), 273, 273).unwrap();
    assert_eq!(
        placement,
        ImagePlacement {
            translate_x: mm(50) as i128,
            translate_y: (mm(297) - mm(110) - mm(20)) as i128,
            scale_num: mm(110) as i128,
            scale_den: 273 * 3048,
        }
    );
    let wide = scale_barcode(a4_page(), mm(110), 546, 273).unwrap();
    assert_eq!(wide.translate_x, ((mm(210) - mm(220)) / 2) as i128);
    assert_eq!(scale_barcode(a4_page(), mm(110), 273, 0), Err(BuildError::DegenerateImage));
}

#[test]
fn layout_order() {
    let builder = DocumentBuilder::new("Hello".to_string(), PageSize::A4);
    let ops = builder.layout(&pem_of_lines(10), 273, 273).unwrap();
    assert_eq!(ops[0], DrawingInstruction::BeginLayer { layer: Layer::Background });
    assert_eq!(ops[1], DrawingInstruction::SetFillColor { color: Color::White });
    assert_eq!(ops[2], DrawingInstruction::EndLayer { layer: Layer::Background });
    assert_eq!(ops[3], DrawingInstruction::BeginLayer { layer: Layer::Foreground });
    assert_eq!(ops[ops.len() - 1], DrawingInstruction::EndLayer { layer: Layer::Foreground });
    assert!(matches!(ops[10], DrawingInstruction::PlaceImage { .. }));
    let without_footer = DocumentBuilder { footer: false, ..DocumentBuilder::new("Hello".to_string(), PageSize::A4) };
    let shorter = without_footer.layout(&pem_of_lines(10), 273, 273).unwrap();
    assert_eq!(shorter.len() + 6, ops.len());
    assert_eq!(builder.layout("x", 273, 0), Err(BuildError::DegenerateImage));
}

#[test]
fn layout_is_deterministic() {
    let a = DocumentBuilder::new("Same".to_string(), PageSize::Letter);
    let b = DocumentBuilder::new("Same".to_string(), PageSize::Letter);
    let pem = pem_of_lines(30);
    assert_eq!(a.layout(&pem, 300, 300).unwrap(), b.layout(&pem, 300, 300).unwrap());
    assert_eq!(a.build(&pem).unwrap().instructions, b.build(&pem).unwrap().instructions);
}

#[test]
fn scenario_small_plaintext_builds() {
    let (len, armored) = encrypt_plaintext(b"Hello", "secret".to_string()).unwrap();
    assert_eq!(len, 5);
    let builder = DocumentBuilder::new("PaperAge".to_string(), PageSize::A4);
    let doc = builder.build(&armored).unwrap();
    assert!(doc.barcode_width_px > 0 && doc.barcode_height_px > 0);
    assert!(doc.instructions.iter().any(|op| matches!(op, DrawingInstruction::PlaceImage { .. })));
    assert_eq!(doc.page_size, PageSize::A4);
    assert_eq!(doc.title, "PaperAge");
}

#[test]
fn scenario_grid_only_adds_lines() {
    let pem = pem_of_lines(12);
    let plain = DocumentBuilder::new("Grid".to_string(), PageSize::A4);
    let gridded = DocumentBuilder { grid: true, ..DocumentBuilder::new("Grid".to_string(), PageSize::A4) };
    let a = plain.layout(&pem, 273, 273).unwrap();
    let b = gridded.layout(&pem, 273, 273).unwrap();
    let grid = plain.draw_grid();
    assert_eq!(b.len(), a.len() + grid.len());
    assert_eq!(&b[..4], &a[..4]);
    assert_eq!(&b[4..4 + grid.len()], &grid[..]);
    assert_eq!(&b[4 + grid.len()..], &a[4..]);
    assert!(grid.iter().all(|op| matches!(
        op,
        DrawingInstruction::SaveGraphicsState
            | DrawingInstruction::RestoreGraphicsState
            | DrawingInstruction::SetOutlineColor { .. }
            | DrawingInstruction::SetLineDashPattern { .. }
            | DrawingInstruction::SetOutlineThickness { .. }
            | DrawingInstruction::DrawLine { .. }
    )));
}

#[test]
fn scenario_too_much_data() {
    let builder = DocumentBuilder::new("Big".to_string(), PageSize::A4);
    let result = builder.build(&"x".repeat(4000));
    assert!(matches!(result, Err(BuildError::CapacityExceeded)));
}

#[test]
fn scenario_armored_too_much_data() {
    let (_, armored) = encrypt_plaintext(&[b'x'; 2048], "secret".to_string()).unwrap();
    let builder = DocumentBuilder::new("Big".to_string(), PageSize::A4);
    assert!(matches!(builder.build(&armored), Err(BuildError::CapacityExceeded)));
}
