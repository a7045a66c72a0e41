use vstd::prelude::*;

use crate::input::{
    Alignments, HorizontalAlignment, Mode, Pos2, Rgb, Rgba, Size2, Text, VerticalAlignment,
    MAX_EXTENT, SCALE,
};

verus! {

/// Where along one axis a measured glyph run is placed inside the box extent.
#[derive(Clone, Copy, Debug, PartialEq, Eq, Structural)]
pub enum AlignRole {
    /// At the start of the axis: offset 0.
    Start,
    /// Centered: offset (extent - measured) / 2.
    Center,
    /// At the end of the axis: offset extent - measured.
    End,
}

/// One alignment action against the layout and its drawing context.
#[derive(Clone, Copy, Debug, PartialEq, Eq, Structural)]
pub enum AlignOp {
    /// Set the layout's own paragraph alignment.
    Paragraph(HorizontalAlignment),
    /// Move the drawing cursor to this position.
    MoveTo(Pos2),
}

/// The canvas transform applied before a text block is drawn: a translation,
/// an optional quarter rotation, then a second translation.
#[derive(Clone, Copy, Debug, PartialEq, Eq, Structural)]
pub struct Transform {
    /// First translation, relative to the origin.
    pub translate1: Pos2,
    /// Whether the canvas is rotated by 90 degrees between the translations.
    pub rotate_quarter: bool,
    /// Second translation, applied in the rotated frame.
    pub translate2: Pos2,
}

/// Geometry handed to the layout engine for one text block: the canvas
/// transform, the input mode, and the layout extents in engine subunits.
#[derive(Clone, Copy, Debug, PartialEq, Eq, Structural)]
pub struct TextSetup {
    /// Input mode the content is set with; the text itself stays on the item.
    pub mode: Mode,
    /// Canvas transform to apply before drawing.
    pub transform: Transform,
    /// Layout width in engine subunits.
    pub width_units: i64,
    /// Layout height in engine subunits.
    pub height_units: i64,
}

/// Font override and fill color applied to one text block after layout
/// construction: the item's font size always wins over the style's.
#[derive(Clone, Copy, Debug, PartialEq, Eq, Structural)]
pub struct FontPaint {
    /// Font size in engine subunits.
    pub size_units: i64,
    /// Source color for glyph painting.
    pub color: Rgb,
}

/// Outline pass configuration for one text block.
#[derive(Clone, Copy, Debug, PartialEq, Eq, Structural)]
pub struct StrokeSetup {
    /// The outline path is stroked with rounded joins.
    pub round_join: bool,
    /// Outline color with alpha.
    pub color: Rgba,
    /// Stroke width in pixels.
    pub width: i64,
}

/// Half of `d`, with the half pixel rounded toward zero.
pub open spec fn half_toward_zero(d: int) -> int {
    if d >= 0 {
        d / 2
    } else {
        -((-d) / 2)
    }
}

/// Pivot-relative offset that places a run of extent `measured` inside a box
/// extent: start maps to 0, end to `extent - measured`, center to half the
/// difference.
pub open spec fn axis_offset(extent: int, measured: int, role: AlignRole) -> int {
    match role {
        AlignRole::Start => 0,
        AlignRole::Center => half_toward_zero(extent - measured),
        AlignRole::End => extent - measured,
    }
}

/// The role each vertical alignment choice plays on the standard axis.
pub open spec fn vertical_role(va: VerticalAlignment) -> AlignRole {
    match va {
        VerticalAlignment::Top => AlignRole::Start,
        VerticalAlignment::Center => AlignRole::Center,
        VerticalAlignment::Bottom => AlignRole::End,
    }
}

/// The role each horizontal alignment choice plays on the rotated axis:
/// right behaves as top, left as bottom, center stays centered.
pub open spec fn horizontal_role(ha: HorizontalAlignment) -> AlignRole {
    match ha {
        HorizontalAlignment::Right => AlignRole::Start,
        HorizontalAlignment::Center => AlignRole::Center,
        HorizontalAlignment::Left => AlignRole::End,
    }
}

/// The paragraph alignment each vertical choice drives on the rotated axis.
pub open spec fn cross_paragraph(va: VerticalAlignment) -> HorizontalAlignment {
    match va {
        VerticalAlignment::Top => HorizontalAlignment::Left,
        VerticalAlignment::Center => HorizontalAlignment::Center,
        VerticalAlignment::Bottom => HorizontalAlignment::Right,
    }
}

/// Action of the horizontal alignment choice: on the standard axis it sets the
/// paragraph alignment; on the rotated axis it moves the cursor along the
/// rotated direction, measured against the box width.
pub open spec fn ha_action(
    ha: HorizontalAlignment,
    pos: Pos2,
    size: Size2,
    measured: Size2,
    vertical: bool,
) -> AlignOp {
    if vertical {
        AlignOp::MoveTo(
            Pos2 {
                x: pos.x,
                y: (pos.y + axis_offset(
                    size.width as int,
                    measured.height as int,
                    horizontal_role(ha),
                )) as i64,
            },
        )
    } else {
        AlignOp::Paragraph(ha)
    }
}

/// Action of the vertical alignment choice: on the standard axis it moves the
/// cursor down from the pivot by the resolved offset; on the rotated axis it
/// drives the paragraph alignment through the cross-mapping.
pub open spec fn va_action(
    va: VerticalAlignment,
    pos: Pos2,
    size: Size2,
    measured: Size2,
    vertical: bool,
) -> AlignOp {
    if vertical {
        AlignOp::Paragraph(cross_paragraph(va))
    } else {
        AlignOp::MoveTo(
            Pos2 {
                x: pos.x,
                y: (pos.y + axis_offset(
                    size.height as int,
                    measured.height as int,
                    vertical_role(va),
                )) as i64,
            },
        )
    }
}

/// The identity canvas transform, used on the standard axis.
pub open spec fn identity_transform() -> Transform {
    Transform {
        translate1: Pos2 { x: 0, y: 0 },
        rotate_quarter: false,
        translate2: Pos2 { x: 0, y: 0 },
    }
}

/// The transform that rotates the canvas a quarter turn about the box center:
/// translate to the center, rotate, then translate back with the extents
/// swapped.
pub open spec fn rotation_transform(pos: Pos2, size: Size2) -> Transform {
    Transform {
        translate1: Pos2 {
            x: (pos.x + size.width / 2) as i64,
            y: (pos.y + size.height / 2) as i64,
        },
        rotate_quarter: true,
        translate2: Pos2 {
            x: (-(size.height / 2) - pos.x) as i64,
            y: (-(size.width / 2) - pos.y) as i64,
        },
    }
}

/// Layout extents in engine subunits for a box: swapped on the vertical axis.
pub open spec fn layout_width_units(size: Size2, vertical: bool) -> int {
    if vertical {
        size.height * SCALE
    } else {
        size.width * SCALE
    }
}

/// Layout height counterpart of `layout_width_units`.
pub open spec fn layout_height_units(size: Size2, vertical: bool) -> int {
    if vertical {
        size.width * SCALE
    } else {
        size.height * SCALE
    }
}

/// Offset of a run of extent `measured` inside the box extent for one role.
pub fn offset_for(extent: i64, measured: i64, role: AlignRole) -> (r: i64)
    requires
        0 <= extent <= MAX_EXTENT,
        0 <= measured <= MAX_EXTENT,
    ensures
        r == axis_offset(extent as int, measured as int, role),
{
    match role {
        AlignRole::Start => 0,
        AlignRole::Center => {
            let d: i64 = extent - measured;
            if d >= 0 {
                d / 2
            } else {
                -((-d) / 2)
            }
        },
        AlignRole::End => extent - measured,
    }
}

impl HorizontalAlignment {
    /// Resolves this choice into its alignment action for the given writing
    /// axis, pivot, box and measured run size.
    pub fn set(&self, measured: Size2, pos: Pos2, size: Size2, vertical: bool) -> (r: AlignOp)
        requires
            pos.wf(),
            size.wf(),
            measured.wf(),
        ensures
            r == ha_action(*self, pos, size, measured, vertical),
    {
        if vertical {
            let role: AlignRole = match self {
                HorizontalAlignment::Right => AlignRole::Start,
                HorizontalAlignment::Center => AlignRole::Center,
                HorizontalAlignment::Left => AlignRole::End,
            };
            let off: i64 = offset_for(size.width, measured.height, role);
            AlignOp::MoveTo(Pos2 { x: pos.x, y: pos.y + off })
        } else {
            AlignOp::Paragraph(*self)
        }
    }
}

impl VerticalAlignment {
    /// Resolves this choice into its alignment action for the given writing
    /// axis, pivot, box and measured run size.
    pub fn set(&self, measured: Size2, pos: Pos2, size: Size2, vertical: bool) -> (r: AlignOp)
        requires
            pos.wf(),
            size.wf(),
            measured.wf(),
        ensures
            r == va_action(*self, pos, size, measured, vertical),
    {
        if vertical {
            let para: HorizontalAlignment = match self {
                VerticalAlignment::Top => HorizontalAlignment::Left,
                VerticalAlignment::Center => HorizontalAlignment::Center,
                VerticalAlignment::Bottom => HorizontalAlignment::Right,
            };
            AlignOp::Paragraph(para)
        } else {
            let role: AlignRole = match self {
                VerticalAlignment::Top => AlignRole::Start,
                VerticalAlignment::Center => AlignRole::Center,
                VerticalAlignment::Bottom => AlignRole::End,
            };
            let off: i64 = offset_for(size.height, measured.height, role);
            AlignOp::MoveTo(Pos2 { x: pos.x, y: pos.y + off })
        }
    }
}

impl Text {
    /// Resolves this item's geometry for the given writing axis: the canvas
    /// transform, and the layout extents in engine subunits, swapped when the
    /// axis is vertical.
    pub fn set(&self, vertical: bool) -> (t: TextSetup)
        requires
            self.wf(),
        ensures
            t.mode == self.mode,
            t.width_units == layout_width_units(self.size, vertical),
            t.height_units == layout_height_units(self.size, vertical),
            !vertical ==> t.transform == identity_transform(),
            vertical ==> t.transform == rotation_transform(self.pos, self.size),
    {
        if vertical {
            TextSetup {
                mode: self.mode,
                transform: Transform {
                    translate1: Pos2 {
                        x: self.pos.x + self.size.width / 2,
                        y: self.pos.y + self.size.height / 2,
                    },
                    rotate_quarter: true,
                    translate2: Pos2 {
                        x: -(self.size.height / 2) - self.pos.x,
                        y: -(self.size.width / 2) - self.pos.y,
                    },
                },
                width_units: self.size.height * SCALE,
                height_units: self.size.width * SCALE,
            }
        } else {
            TextSetup {
                mode: self.mode,
                transform: Transform {
                    translate1: Pos2 { x: 0, y: 0 },
                    rotate_quarter: false,
                    translate2: Pos2 { x: 0, y: 0 },
                },
                width_units: self.size.width * SCALE,
                height_units: self.size.height * SCALE,
            }
        }
    }

    /// The font-size override and fill color for this item's glyph paint: the
    /// explicit item font size, scaled to engine subunits, always wins.
    pub fn set_font_size(&self) -> (r: FontPaint)
        requires
            self.wf(),
        ensures
            r.size_units == self.font_size * SCALE,
            r.color == self.font_color,
    {
        FontPaint { size_units: self.font_size * SCALE, color: self.font_color }
    }

    /// The outline pass for this item: rounded joins, the outline color with
    /// its alpha, and the stroke width.
    pub fn set_stroke(&self) -> (s: StrokeSetup)
        ensures
            s.round_join,
            s.color == self.outline_color,
            s.width == self.font_stroke,
    {
        StrokeSetup { round_join: true, color: self.outline_color, width: self.font_stroke }
    }

    /// Resolves both alignment choices for this item, in the order the draw
    /// pass applies them: the horizontal action first, then the vertical one.
    pub fn align(&self, measured: Size2, vertical: bool, align: &Alignments) -> (r: (
        AlignOp,
        AlignOp,
    ))
        requires
            self.wf(),
            measured.wf(),
        ensures
            r.0 == ha_action(align.ha, self.pos, self.size, measured, vertical),
            r.1 == va_action(align.va, self.pos, self.size, measured, vertical),
    {
        let first = align.ha.set(measured, self.pos, self.size, vertical);
        let second = align.va.set(measured, self.pos, self.size, vertical);
        (first, second)
    }
}

/// On the standard writing axis, with horizontal alignment `left` and vertical
/// alignment `top`, the resolved draw origin is exactly the item's pivot, and
/// the paragraph alignment is `left`.
pub proof fn lemma_top_left_origin_is_pivot(pos: Pos2, size: Size2, measured: Size2)
    requires
        pos.wf(),
        size.wf(),
        measured.wf(),
    ensures
        ha_action(HorizontalAlignment::Left, pos, size, measured, false) == (
        AlignOp::Paragraph(HorizontalAlignment::Left)),
        va_action(VerticalAlignment::Top, pos, size, measured, false) == (AlignOp::MoveTo(pos)),
{
}

/// On the vertical writing axis the layout extents are the box extents
/// swapped: the layout width comes from the box height and the layout height
/// from the box width.
pub proof fn lemma_vertical_swaps_extents(size: Size2)
    ensures
        layout_width_units(size, true) == size.height * SCALE,
        layout_height_units(size, true) == size.width * SCALE,
        layout_width_units(size, true) == layout_height_units(size, false),
        layout_height_units(size, true) == layout_width_units(size, false),
{
}

/// Alignment cross-mapping on the vertical writing axis: horizontal `center`
/// centers the run along the rotated axis with the same centered-offset
/// formula the vertical axis uses, and vertical `center` drives the
/// paragraph-centering call.
pub proof fn lemma_vertical_cross_mapping(pos: Pos2, size: Size2, measured: Size2)
    requires
        pos.wf(),
        size.wf(),
        measured.wf(),
    ensures
        ha_action(HorizontalAlignment::Center, pos, size, measured, true) matches AlignOp::MoveTo(
            p,
        ) && p.x == pos.x && p.y == pos.y + half_toward_zero(size.width - measured.height),
        va_action(VerticalAlignment::Center, pos, size, measured, true) == (
        AlignOp::Paragraph(HorizontalAlignment::Center)),
{
}

/// The 2x2 role swap behind the cross-mapping: on the rotated axis each
/// horizontal choice takes the offset formula of the corresponding vertical
/// choice (right as top, left as bottom, center unchanged), and each vertical
/// choice becomes the corresponding paragraph alignment.
pub proof fn lemma_axis_role_swap()
    ensures
        horizontal_role(HorizontalAlignment::Right) == vertical_role(VerticalAlignment::Top),
        horizontal_role(HorizontalAlignment::Left) == vertical_role(VerticalAlignment::Bottom),
        horizontal_role(HorizontalAlignment::Center) == vertical_role(VerticalAlignment::Center),
        cross_paragraph(VerticalAlignment::Top) == HorizontalAlignment::Left,
        cross_paragraph(VerticalAlignment::Bottom) == HorizontalAlignment::Right,
        cross_paragraph(VerticalAlignment::Center) == HorizontalAlignment::Center,
{
}

} // verus!
