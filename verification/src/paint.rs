use vstd::prelude::*;

use crate::codec::{convert_bytes_to_image, decode_result};
use crate::geometry::{
    identity_transform, layout_height_units, layout_width_units, rotation_transform, FontPaint,
    StrokeSetup, TextSetup,
};
use crate::input::{
    Alignments, Background, Data, OutputMode, Pos2, Rgb, Size2, Styling, Text, MAX_EXTENT, SCALE,
};

verus! {

/// The output surface chosen for a render, with its target dimensions.
#[derive(Clone, Copy, Debug, PartialEq, Eq, Structural)]
pub enum Surfaces {
    /// A streaming document surface backed by an in-memory byte sink.
    Pdf(Size2),
    /// The raster pixel surface, used for every raster target; true when it
    /// was seeded from the decoded background image, whose dimensions it then
    /// takes.
    Png(Size2, bool),
    /// A streaming vector surface backed by an in-memory byte sink.
    Svg(Size2),
    /// A streaming PostScript surface backed by an in-memory byte sink.
    Ps(Size2),
}

/// One item's background paint, applied before any text is drawn.
#[derive(Clone, Copy, Debug, PartialEq, Eq, Structural)]
pub enum BackgroundPaint {
    /// Composite the item's background image into its box.
    Image { index: usize, pos: Pos2, size: Size2 },
    /// Fill the item's box with a flat color.
    Fill { color: Rgb, pos: Pos2, size: Size2 },
    /// Nothing is painted for this item.
    Skip,
}

/// One item's draw pass: everything the drawing contexts are driven with,
/// besides the text itself and the alignment actions resolved after measuring.
#[derive(Clone, Copy, Debug, PartialEq, Eq, Structural)]
pub struct ItemPaint {
    /// Index of the item in the document.
    pub index: usize,
    /// Effective writing axis of the item.
    pub vertical: bool,
    /// Whether the item brings its own style; otherwise the global one applies.
    pub own_style: bool,
    /// Geometry: input mode, canvas transform and layout extents.
    pub setup: TextSetup,
    /// Font-size override and fill color.
    pub font: FontPaint,
    /// Outline pass.
    pub stroke: StrokeSetup,
    /// Effective alignment of the item.
    pub align: Alignments,
}

/// Phase of the render pipeline for one document.
#[derive(Clone, Copy, Debug, PartialEq, Eq, Structural)]
pub enum Phase {
    /// The surface exists and the document background is accounted for.
    Created,
    /// Every item's own background is painted.
    BackgroundPainted,
    /// Every item's draw pass is built.
    ItemsDrawn,
    /// The plan is complete; no further mutation is permitted.
    Finalized,
}

/// A render failure.
#[derive(Clone, Copy, Debug, PartialEq, Eq, Structural)]
pub enum RenderError {
    /// The target dimensions are not valid for a surface.
    InvalidDimensions,
    /// The document background bytes do not decode as an image.
    BackgroundImage,
    /// This item's background bytes do not decode as an image.
    ItemImage(usize),
}

/// The full paint plan of one document render: the chosen surface, the
/// background compositing decision, the background paints and the draw passes,
/// all in document order.
#[derive(Debug)]
pub struct Painter {
    /// The surface every drawing context composites onto.
    pub surface: Surfaces,
    /// Whether the document background is composited onto the surface at the
    /// origin before anything else.
    pub composite_background: bool,
    /// Per-item background paints, in document order.
    pub backgrounds: Vec<BackgroundPaint>,
    /// Per-item draw passes, in document order.
    pub passes: Vec<ItemPaint>,
    /// Phase of the pipeline.
    pub phase: Phase,
}

/// Valid target dimensions for a surface.
pub open spec fn dims_ok(width: i64, height: i64) -> bool {
    0 < width <= MAX_EXTENT && 0 < height <= MAX_EXTENT
}

/// The modes whose render is a pixel raster: every mode except the three
/// streaming document and vector targets.
pub open spec fn is_raster(mode: OutputMode) -> bool {
    match mode {
        OutputMode::Pdf(_) => false,
        OutputMode::Svg => false,
        OutputMode::Ps => false,
        _ => true,
    }
}

/// The surface each output mode constructs: every raster mode takes the
/// pixel surface, seeded from the decoded background when one is supplied;
/// the vector modes take their streaming surface; the document mode renders
/// into a document surface.
pub open spec fn surface_spec(
    mode: OutputMode,
    background: Option<Size2>,
    width: i64,
    height: i64,
) -> Surfaces {
    if is_raster(mode) {
        match background {
            Some(s) => Surfaces::Png(s, true),
            None => Surfaces::Png(Size2 { width, height }, false),
        }
    } else {
        match mode {
            OutputMode::Svg => Surfaces::Svg(Size2 { width, height }),
            OutputMode::Ps => Surfaces::Ps(Size2 { width, height }),
            _ => Surfaces::Pdf(Size2 { width, height }),
        }
    }
}

/// Dimensions of a decoded image stream.
pub open spec fn decoded_size(bytes: Seq<u8>) -> Size2
    recommends
        decode_result(bytes) is Some,
{
    Size2 {
        width: decode_result(bytes)->Some_0.0 as i64,
        height: decode_result(bytes)->Some_0.1 as i64,
    }
}

/// A background that is present but does not decode as an image.
pub open spec fn background_bad(background: Option<Vec<u8>>) -> bool {
    background matches Some(b) && decode_result(b@) is None
}

/// An item background that is present but does not decode as an image.
pub open spec fn item_bg_bad(item: Text) -> bool {
    item.background matches Background::Bytes(b) && decode_result(b@) is None
}

/// The effective writing axis of an item: its own style's, or the global one.
pub open spec fn effective_vertical(item: Text, global_style: Styling) -> bool {
    match item.style {
        Some(s) => s.vertical,
        None => global_style.vertical,
    }
}

/// The effective alignment of an item: its own, or the global one.
pub open spec fn effective_align(item: Text, global_align: Alignments) -> Alignments {
    match item.align {
        Some(a) => a,
        None => global_align,
    }
}

/// The background paint owed to one item: its image composited into its box,
/// a flat fill of its box, or nothing.
pub open spec fn background_paint_ok(b: BackgroundPaint, item: Text, index: int) -> bool {
    match item.background {
        Background::Bytes(_) => b matches BackgroundPaint::Image { index: ix, pos, size }
            && ix == index && pos == item.pos && size == item.size,
        Background::Rgb(c) => b matches BackgroundPaint::Fill { color, pos, size } && color == c
            && pos == item.pos && size == item.size,
        Background::Blank => b is Skip,
    }
}

/// The draw pass owed to one item: the effective style and alignment resolved,
/// the geometry for the effective axis, the font-size override, the fill
/// color, and the outline pass.
pub open spec fn item_paint_ok(
    p: ItemPaint,
    item: Text,
    global_style: Styling,
    global_align: Alignments,
    index: int,
) -> bool {
    &&& p.index == index
    &&& p.vertical == effective_vertical(item, global_style)
    &&& p.own_style == item.style is Some
    &&& p.setup.mode == item.mode
    &&& p.setup.width_units == layout_width_units(item.size, p.vertical)
    &&& p.setup.height_units == layout_height_units(item.size, p.vertical)
    &&& p.setup.transform == if p.vertical {
        rotation_transform(item.pos, item.size)
    } else {
        identity_transform()
    }
    &&& p.font.size_units == item.font_size * SCALE
    &&& p.font.color == item.font_color
    &&& p.stroke.round_join
    &&& p.stroke.color == item.outline_color
    &&& p.stroke.width == item.font_stroke
    &&& p.align == effective_align(item, global_align)
}

/// Everything the pipeline promises of a finished plan: the phase, the
/// surface choice, the background compositing decision, and the background
/// paint and draw pass of every item, in document order.
pub open spec fn plan_ok(
    p: Painter,
    data: Data,
    output_mode: OutputMode,
    width: i64,
    height: i64,
) -> bool {
    &&& p.phase is Finalized
    &&& p.surface == surface_spec(
        output_mode,
        match data.background {
            Some(b) => Some(decoded_size(b@)),
            None => None,
        },
        width,
        height,
    )
    &&& p.composite_background == (data.background is Some && !is_raster(output_mode))
    &&& p.backgrounds@.len() == data.items@.len()
    &&& forall|i: int|
        0 <= i < data.items@.len() ==> #[trigger] background_paint_ok(
            p.backgrounds@[i],
            data.items@[i],
            i,
        )
    &&& p.passes@.len() == data.items@.len()
    &&& forall|i: int|
        0 <= i < data.items@.len() ==> #[trigger] item_paint_ok(
            p.passes@[i],
            data.items@[i],
            data.global_style,
            data.global_align,
            i,
        )
}

/// The paint plan is a function of the document, mode and dimensions alone:
/// any two plans this pipeline accepts for the same inputs agree everywhere.
/// (What the outside renderer makes of equal plans is beyond the library.)
pub proof fn lemma_plan_deterministic(
    p1: Painter,
    p2: Painter,
    data: Data,
    output_mode: OutputMode,
    width: i64,
    height: i64,
)
    requires
        plan_ok(p1, data, output_mode, width, height),
        plan_ok(p2, data, output_mode, width, height),
    ensures
        p1.surface == p2.surface,
        p1.composite_background == p2.composite_background,
        p1.backgrounds@ == p2.backgrounds@,
        p1.passes@ == p2.passes@,
        p1.phase == p2.phase,
{
    assert forall|i: int| 0 <= i < data.items@.len() implies p1.backgrounds@[i]
        == p2.backgrounds@[i] by {
        assert(background_paint_ok(p1.backgrounds@[i], data.items@[i], i));
        assert(background_paint_ok(p2.backgrounds@[i], data.items@[i], i));
    }
    assert(p1.backgrounds@ =~= p2.backgrounds@);
    assert forall|i: int| 0 <= i < data.items@.len() implies p1.passes@[i] == p2.passes@[i] by {
        assert(item_paint_ok(p1.passes@[i], data.items@[i], data.global_style, data.global_align, i));
        assert(item_paint_ok(p2.passes@[i], data.items@[i], data.global_style, data.global_align, i));
    }
    assert(p1.passes@ =~= p2.passes@);
}

impl Painter {
    /// Constructs the surface for the requested mode: the pixel surface for
    /// every raster mode, seeded from the decoded background when one is
    /// given, the streaming surface for each vector mode, and a document
    /// surface for the document mode.
    pub fn new_surface(
        output_mode: &OutputMode,
        image_surface: Option<Size2>,
        width: i64,
        height: i64,
    ) -> (s: Surfaces)
        ensures
            s == surface_spec(*output_mode, image_surface, width, height),
    {
        match output_mode {
            OutputMode::Svg => Surfaces::Svg(Size2 { width, height }),
            OutputMode::Ps => Surfaces::Ps(Size2 { width, height }),
            OutputMode::Pdf(_) => Surfaces::Pdf(Size2 { width, height }),
            _ => match image_surface {
                Some(seeded) => Surfaces::Png(seeded, true),
                None => Surfaces::Png(Size2 { width, height }, false),
            },
        }
    }

    /// Creates the pipeline: validates the dimensions, decodes the document
    /// background if one is given, chooses the surface, and decides the
    /// background compositing with one explicit condition: a background is
    /// composited exactly when one is provided and the surface was not already
    /// seeded with it (the raster mode seeds it instead).
    pub fn new(output_mode: OutputMode, image: &Option<Vec<u8>>, width: i64, height: i64) -> (r:
        Result<Painter, RenderError>)
        ensures
            r is Ok <==> dims_ok(width, height) && !background_bad(*image),
            !dims_ok(width, height) <==> (r matches Err(e) && e is InvalidDimensions),
            (dims_ok(width, height) && background_bad(*image)) <==> (r matches Err(e)
                && e is BackgroundImage),
            r matches Ok(p) ==> p.phase is Created && p.backgrounds@.len() == 0 && p.passes@.len()
                == 0,
            r matches Ok(p) ==> p.composite_background == ((*image) is Some && !is_raster(
                output_mode,
            )),
            r matches Ok(p) ==> p.surface == surface_spec(
                output_mode,
                match *image {
                    Some(b) => Some(decoded_size(b@)),
                    None => None,
                },
                width,
                height,
            ),
    {
        if !(1 <= width && width <= MAX_EXTENT && 1 <= height && height <= MAX_EXTENT) {
            return Err(RenderError::InvalidDimensions);
        }
        let image_surface: Option<Size2> = match image {
            Some(bytes) => match convert_bytes_to_image(bytes.as_slice()) {
                Ok(raster) => Some(
                    Size2 { width: raster.width as i64, height: raster.height as i64 },
                ),
                Err(_) => {
                    return Err(RenderError::BackgroundImage);
                },
            },
            None => None,
        };
        let raster = match output_mode {
            OutputMode::Pdf(_) => false,
            OutputMode::Svg => false,
            OutputMode::Ps => false,
            _ => true,
        };
        let surface = Painter::new_surface(&output_mode, image_surface, width, height);
        Ok(
            Painter {
                surface,
                composite_background: image.is_some() && !raster,
                backgrounds: Vec::new(),
                passes: Vec::new(),
                phase: Phase::Created,
            },
        )
    }

    /// Paints every item's own background into its box, in document order
    /// (second phase). An item image that does not decode stops the render
    /// with a typed error naming the first such item.
    pub fn paint_backgrounds(&mut self, items: &Vec<Text>) -> (r: Result<(), RenderError>)
        requires
            old(self).phase is Created,
            old(self).backgrounds@.len() == 0,
        ensures
            final(self).surface == old(self).surface,
            final(self).composite_background == old(self).composite_background,
            final(self).passes == old(self).passes,
            (r is Ok <==> forall|i: int| 0 <= i < items@.len() ==> !item_bg_bad(
                #[trigger] items@[i],
            )),
            r is Ok ==> final(self).phase is BackgroundPainted && final(self).backgrounds@.len()
                == items@.len() && (forall|i: int|
                0 <= i < items@.len() ==> #[trigger] background_paint_ok(
                    final(self).backgrounds@[i],
                    items@[i],
                    i,
                )),
            r matches Err(e) ==> e matches RenderError::ItemImage(ix) && ix < items@.len()
                && item_bg_bad(items@[ix as int]) && (forall|j: int|
                0 <= j < ix ==> !item_bg_bad(#[trigger] items@[j])),
    {
        let n = items.len();
        let mut i: usize = 0;
        while i < n
            invariant
                n == items@.len(),
                0 <= i <= n,
                self.phase is Created,
                self.surface == old(self).surface,
                self.composite_background == old(self).composite_background,
                self.passes == old(self).passes,
                self.backgrounds@.len() == i as int,
                forall|j: int|
                    0 <= j < i ==> #[trigger] background_paint_ok(
                        self.backgrounds@[j],
                        items@[j],
                        j,
                    ),
                forall|j: int| 0 <= j < i ==> !item_bg_bad(#[trigger] items@[j]),
            decreases n - i,
        {
            let item = &items[i];
            match &item.background {
                Background::Bytes(bytes) => {
                    match convert_bytes_to_image(bytes.as_slice()) {
                        Ok(_) => {
                            self.backgrounds.push(
                                BackgroundPaint::Image { index: i, pos: item.pos, size: item.size },
                            );
                        },
                        Err(_) => {
                            return Err(RenderError::ItemImage(i));
                        },
                    }
                },
                Background::Rgb(color) => {
                    self.backgrounds.push(
                        BackgroundPaint::Fill { color: *color, pos: item.pos, size: item.size },
                    );
                },
                Background::Blank => {
                    self.backgrounds.push(BackgroundPaint::Skip);
                },
            }
            i = i + 1;
        }
        self.phase = Phase::BackgroundPainted;
        Ok(())
    }

    /// Builds every item's draw pass, in document order (third phase): the
    /// effective style and alignment are the item's own where given, otherwise
    /// the document's.
    pub fn draw_items(&mut self, items: &Vec<Text>, global_style: &Styling, global_align:
        &Alignments)
        requires
            old(self).phase is BackgroundPainted,
            old(self).passes@.len() == 0,
            forall|i: int| 0 <= i < items@.len() ==> (#[trigger] items@[i]).wf(),
        ensures
            final(self).surface == old(self).surface,
            final(self).composite_background == old(self).composite_background,
            final(self).backgrounds == old(self).backgrounds,
            final(self).phase is ItemsDrawn,
            final(self).passes@.len() == items@.len(),
            forall|i: int|
                0 <= i < items@.len() ==> #[trigger] item_paint_ok(
                    final(self).passes@[i],
                    items@[i],
                    *global_style,
                    *global_align,
                    i,
                ),
    {
        let n = items.len();
        let mut i: usize = 0;
        while i < n
            invariant
                n == items@.len(),
                0 <= i <= n,
                self.phase is BackgroundPainted,
                self.surface == old(self).surface,
                self.composite_background == old(self).composite_background,
                self.backgrounds == old(self).backgrounds,
                self.passes@.len() == i as int,
                forall|j: int| 0 <= j < items@.len() ==> (#[trigger] items@[j]).wf(),
                forall|j: int|
                    0 <= j < i ==> #[trigger] item_paint_ok(
                        self.passes@[j],
                        items@[j],
                        *global_style,
                        *global_align,
                        j,
                    ),
            decreases n - i,
        {
            let item = &items[i];
            let vertical = match &item.style {
                Some(style) => style.vertical,
                None => global_style.vertical,
            };
            let own_style = item.style.is_some();
            let setup = item.set(vertical);
            let font = item.set_font_size();
            let stroke = item.set_stroke();
            let align = match &item.align {
                Some(a) => *a,
                None => *global_align,
            };
            self.passes.push(ItemPaint { index: i, vertical, own_style, setup, font, stroke, align });
            i = i + 1;
        }
        self.phase = Phase::ItemsDrawn;
    }

    /// Closes the pipeline (final phase): the plan may no longer change.
    pub fn finalize(&mut self)
        requires
            old(self).phase is ItemsDrawn,
        ensures
            final(self).phase is Finalized,
            final(self).surface == old(self).surface,
            final(self).composite_background == old(self).composite_background,
            final(self).backgrounds == old(self).backgrounds,
            final(self).passes == old(self).passes,
    {
        self.phase = Phase::Finalized;
    }
}

impl Data {
    /// Runs the whole render pipeline on this document: chooses and seeds the
    /// surface for the requested mode and dimensions, paints every item
    /// background, builds every item's draw pass in document order, and
    /// finalizes the plan. A failure to decode the document background or an
    /// item background is a typed error; invalid dimensions abort the render.
    pub fn painter(self, output_mode: OutputMode, width: i64, height: i64) -> (r: Result<
        Painter,
        RenderError,
    >)
        requires
            self.wf(),
        ensures
            !dims_ok(width, height) <==> (r matches Err(e) && e is InvalidDimensions),
            (dims_ok(width, height) && background_bad(self.background)) <==> (r matches Err(e)
                && e is BackgroundImage),
            r matches Err(RenderError::ItemImage(ix)) ==> ix < self.items@.len() && item_bg_bad(
                self.items@[ix as int],
            ) && (forall|j: int| 0 <= j < ix ==> !item_bg_bad(#[trigger] self.items@[j])),
            (dims_ok(width, height) && !background_bad(self.background) && (forall|i: int|
                0 <= i < self.items@.len() ==> !item_bg_bad(#[trigger] self.items@[i]))) <==> (
            r is Ok),
            r matches Ok(p) ==> plan_ok(p, self, output_mode, width, height),
    {
        let mut painter = match Painter::new(output_mode, &self.background, width, height) {
            Ok(p) => p,
            Err(e) => {
                return Err(e);
            },
        };
        match painter.paint_backgrounds(&self.items) {
            Ok(()) => (),
            Err(e) => {
                return Err(e);
            },
        }
        painter.draw_items(&self.items, &self.global_style, &self.global_align);
        painter.finalize();
        Ok(painter)
    }
}

} // verus!
