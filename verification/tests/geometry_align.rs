use textrender::geometry::{AlignOp, AlignRole};
use textrender::input::{
    Background, Ellipsize, Font, FontStretch, FontStyle, FontVariant, FontWeight,
    HorizontalAlignment, Mode, Pos2, ReadDirection, Rgb, Rgba, Size2, Styling, Text,
    VerticalAlignment, Wrap,
};

fn base_style() -> Styling {
    Styling {
        spacing: None,
        line_spacing: None,
        ellipsize: Ellipsize::default(),
        wrap: Wrap::Word,
        indent: None,
        single_paragraph_mode: true,
        auto_dir: false,
        read_direction: ReadDirection::default(),
        vertical: false,
        font: Some(Font {
            font_family: "Arial Hebrew Scholar".to_string(),
            variant: FontVariant::default(),
            stretch: FontStretch::default(),
            weight: FontWeight::default(),
            style: FontStyle::default(),
        }),
        justiy: false,
        justify_last_line: false,
    }
}

fn item() -> Text {
    Text {
        mode: Mode::Text,
        value: "Hello".to_string(),
        pos: Pos2::new(50, 50),
        size: Size2::new(100, 200),
        font_size: 12,
        font_color: Rgb::new(0, 255, 0),
        background: Background::Rgb(Rgb::new(255, 0, 0)),
        style: None,
        align: None,
        outline_color: Rgba::new(0, 0, 255, 128),
        font_stroke: 5,
    }
}

#[test]
fn top_left_origin_equals_pivot() {
    let t = item();
    let measured = Size2::new(60, 30);
    let op = VerticalAlignment::Top.set(measured, t.pos, t.size, false);
    assert_eq!(op, AlignOp::MoveTo(Pos2::new(50, 50)));
    let op = HorizontalAlignment::Left.set(measured, t.pos, t.size, false);
    assert_eq!(op, AlignOp::Paragraph(HorizontalAlignment::Left));
}

#[test]
fn horizontal_offsets() {
    let pos = Pos2::new(50, 50);
    let size = Size2::new(100, 200);
    let measured = Size2::new(60, 30);
    let op = VerticalAlignment::Center.set(measured, pos, size, false);
    assert_eq!(op, AlignOp::MoveTo(Pos2::new(50, 135)));
    let op = VerticalAlignment::Bottom.set(measured, pos, size, false);
    assert_eq!(op, AlignOp::MoveTo(Pos2::new(50, 220)));
    let op = HorizontalAlignment::Right.set(measured, pos, size, false);
    assert_eq!(op, AlignOp::Paragraph(HorizontalAlignment::Right));
}

#[test]
fn vertical_axis_swaps_extents() {
    let t = item();
    let setup = t.set(true);
    assert_eq!(setup.width_units, 200 * 1024);
    assert_eq!(setup.height_units, 100 * 1024);
    let setup = t.set(false);
    assert_eq!(setup.width_units, 100 * 1024);
    assert_eq!(setup.height_units, 200 * 1024);
}

#[test]
fn vertical_transform_rotates_about_box_center() {
    let t = item();
    let setup = t.set(true);
    assert!(setup.transform.rotate_quarter);
    assert_eq!(setup.transform.translate1, Pos2::new(50 + 50, 50 + 100));
    assert_eq!(setup.transform.translate2, Pos2::new(-100 - 50, -50 - 50));
    let setup = t.set(false);
    assert!(!setup.transform.rotate_quarter);
    assert_eq!(setup.transform.translate1, Pos2::new(0, 0));
    assert_eq!(setup.transform.translate2, Pos2::new(0, 0));
}

#[test]
fn vertical_cross_mapping_centers_both_axes() {
    let pos = Pos2::new(50, 50);
    let size = Size2::new(100, 200);
    let measured = Size2::new(60, 30);
    // horizontal=center vertically centers the run along the rotated axis
    let op = HorizontalAlignment::Center.set(measured, pos, size, true);
    assert_eq!(op, AlignOp::MoveTo(Pos2::new(50, 50 + (100 - 30) / 2)));
    // vertical=center drives the paragraph-centering call
    let op = VerticalAlignment::Center.set(measured, pos, size, true);
    assert_eq!(op, AlignOp::Paragraph(HorizontalAlignment::Center));
    // and the remaining corners of the role swap
    let op = HorizontalAlignment::Right.set(measured, pos, size, true);
    assert_eq!(op, AlignOp::MoveTo(Pos2::new(50, 50)));
    let op = HorizontalAlignment::Left.set(measured, pos, size, true);
    assert_eq!(op, AlignOp::MoveTo(Pos2::new(50, 50 + 100 - 30)));
    let op = VerticalAlignment::Top.set(measured, pos, size, true);
    assert_eq!(op, AlignOp::Paragraph(HorizontalAlignment::Left));
    let op = VerticalAlignment::Bottom.set(measured, pos, size, true);
    assert_eq!(op, AlignOp::Paragraph(HorizontalAlignment::Right));
}

#[test]
fn centered_offset_rounds_toward_zero() {
    assert_eq!(textrender::geometry::offset_for(10, 25, AlignRole::Center), -7);
    assert_eq!(textrender::geometry::offset_for(25, 10, AlignRole::Center), 7);
    assert_eq!(textrender::geometry::offset_for(25, 10, AlignRole::End), 15);
    assert_eq!(textrender::geometry::offset_for(25, 10, AlignRole::Start), 0);
}

#[test]
fn font_size_override_and_stroke() {
    let t = item();
    let font = t.set_font_size();
    assert_eq!(font.size_units, 12 * 1024);
    assert_eq!(font.color, Rgb::new(0, 255, 0));
    let stroke = t.set_stroke();
    assert!(stroke.round_join);
    assert_eq!(stroke.color, Rgba::new(0, 0, 255, 128));
    assert_eq!(stroke.width, 5);
}

#[test]
fn layouter_resolves_engine_configuration() {
    let mut style = base_style();
    style.indent = Some(5);
    style.spacing = Some(3);
    style.line_spacing = Some(1500);
    let c = style.layouter();
    assert_eq!(c.gravity, 0);
    assert_eq!(c.base_dir, 4); // weak left-to-right
    assert_eq!(c.wrap, 0);
    assert_eq!(c.ellipsize, 0);
    assert_eq!(c.indent_units, Some(5 * 1024));
    assert_eq!(c.spacing_units, Some(3 * 1024));
    assert_eq!(c.line_spacing, Some(1500));
    assert!(!c.justify);
    assert!(!c.justify_last_line);
    assert!(c.single_paragraph_mode);
    assert!(!c.auto_dir);
    let f = c.font.expect("font expected");
    assert_eq!(f.family, "Arial Hebrew Scholar");
    assert_eq!(f.weight, 400);
    assert_eq!(f.stretch, 4);
    assert_eq!(f.variant, 0);
    assert_eq!(f.style, 0);
    assert_eq!(f.size_units, 12 * 1024);
}

#[test]
fn layouter_vertical_sets_rotated_gravity() {
    let mut style = base_style();
    style.vertical = true;
    style.read_direction = ReadDirection::RL;
    style.wrap = Wrap::WordChar;
    style.ellipsize = Ellipsize::End;
    let c = style.layouter();
    assert_eq!(c.gravity, 1);
    assert_eq!(c.base_dir, 1);
    assert_eq!(c.wrap, 2);
    assert_eq!(c.ellipsize, 3);
}

#[test]
fn font_class_codes() {
    assert_eq!(FontWeight::Thin.to_pango(), 100);
    assert_eq!(FontWeight::Semilight.to_pango(), 350);
    assert_eq!(FontWeight::Book.to_pango(), 380);
    assert_eq!(FontWeight::Bold.to_pango(), 700);
    assert_eq!(FontWeight::Ultraheavy.to_pango(), 1000);
    assert_eq!(FontStretch::UltraCondensed.to_pango(), 0);
    assert_eq!(FontStretch::Normal.to_pango(), 4);
    assert_eq!(FontStretch::UltraExpanded.to_pango(), 8);
    assert_eq!(FontVariant::Normal.to_pango(), 0);
    assert_eq!(FontVariant::TitleCaps.to_pango(), 6);
    assert_eq!(FontStyle::Normal.to_pango(), 0);
    assert_eq!(FontStyle::Oblique.to_pango(), 1);
    assert_eq!(FontStyle::Italic.to_pango(), 2);
    assert_eq!(ReadDirection::LR.set(), 0);
    assert_eq!(ReadDirection::WeakRL.set(), 5);
    assert_eq!(Wrap::Char.set(), 1);
    assert_eq!(Ellipsize::Middle.set(), 2);
}
