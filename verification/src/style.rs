use vstd::prelude::*;

use crate::input::{
    Ellipsize, FontStretch, FontStyle, FontVariant, FontWeight, ReadDirection, Styling, Wrap,
    SCALE,
};

verus! {

/// Glyph-flow orientation code of the engine: the standard horizontal axis.
pub const GRAVITY_SOUTH: i32 = 0;

/// Glyph-flow orientation code of the engine: the rotated axis used for
/// vertical writing, where text flows top-to-bottom.
pub const GRAVITY_EAST: i32 = 1;

/// Nominal font size, in pixels, given to a freshly built font description.
/// It is always replaced by the item's own font size after layout construction.
pub const PROVISIONAL_FONT_SIZE: i64 = 12;

/// A fully resolved text-layout engine configuration: the exact values the
/// engine is driven with, one field per configuration call.
pub struct LayoutConfig {
    /// Base glyph-flow orientation code (`GRAVITY_SOUTH` or `GRAVITY_EAST`).
    pub gravity: i32,
    /// Base direction code of the engine context.
    pub base_dir: i32,
    /// Wrap mode code.
    pub wrap: i32,
    /// Ellipsization mode code.
    pub ellipsize: i32,
    /// Paragraph indent in engine subunits, when set.
    pub indent_units: Option<i64>,
    /// Spacing between lines in engine subunits, when set.
    pub spacing_units: Option<i64>,
    /// Line-spacing factor in thousandths, when set.
    pub line_spacing: Option<u32>,
    /// Whether every complete line is justified.
    pub justify: bool,
    /// Whether the last line is justified.
    pub justify_last_line: bool,
    /// Font description, when the style names one.
    pub font: Option<FontSpec>,
    /// Single paragraph mode.
    pub single_paragraph_mode: bool,
    /// Whether the engine derives the base direction from the contents.
    pub auto_dir: bool,
}

/// A resolved font description: family plus the engine's numeric classes.
pub struct FontSpec {
    /// Font family name.
    pub family: String,
    /// Stretch class code.
    pub stretch: i32,
    /// Variant (caps) class code.
    pub variant: i32,
    /// Numeric weight class.
    pub weight: i32,
    /// Slant class code.
    pub style: i32,
    /// Font size in engine subunits.
    pub size_units: i64,
}

/// Direction code the engine uses for each read direction.
pub open spec fn direction_code(d: ReadDirection) -> i32 {
    match d {
        ReadDirection::LR => 0,
        ReadDirection::RL => 1,
        ReadDirection::WeakLR => 4,
        ReadDirection::WeakRL => 5,
    }
}

/// Wrap mode code the engine uses for each wrap choice.
pub open spec fn wrap_code(w: Wrap) -> i32 {
    match w {
        Wrap::Word => 0,
        Wrap::Char => 1,
        Wrap::WordChar => 2,
    }
}

/// Ellipsization mode code the engine uses for each ellipsize choice.
pub open spec fn ellipsize_code(e: Ellipsize) -> i32 {
    match e {
        Ellipsize::Off => 0,
        Ellipsize::Start => 1,
        Ellipsize::Middle => 2,
        Ellipsize::End => 3,
    }
}

/// Orientation code for a writing axis: rotated when vertical.
pub open spec fn gravity_code(vertical: bool) -> i32 {
    if vertical {
        GRAVITY_EAST
    } else {
        GRAVITY_SOUTH
    }
}

/// Numeric weight class of each weight step.
pub open spec fn weight_code(w: FontWeight) -> i32 {
    match w {
        FontWeight::Thin => 100,
        FontWeight::Ultralight => 200,
        FontWeight::Light => 300,
        FontWeight::Semilight => 350,
        FontWeight::Book => 380,
        FontWeight::Normal => 400,
        FontWeight::Medium => 500,
        FontWeight::Semibold => 600,
        FontWeight::Bold => 700,
        FontWeight::Ultrabold => 800,
        FontWeight::Heavy => 900,
        FontWeight::Ultraheavy => 1000,
    }
}

/// Stretch class code of each stretch step, from ultra-condensed to
/// ultra-expanded.
pub open spec fn stretch_code(s: FontStretch) -> i32 {
    match s {
        FontStretch::UltraCondensed => 0,
        FontStretch::ExtraCondensed => 1,
        FontStretch::Condensed => 2,
        FontStretch::SemiCondensed => 3,
        FontStretch::Normal => 4,
        FontStretch::SemiExpanded => 5,
        FontStretch::Expanded => 6,
        FontStretch::ExtraExpanded => 7,
        FontStretch::UltraExpanded => 8,
    }
}

/// Variant (caps) class code of each variant.
pub open spec fn variant_code(v: FontVariant) -> i32 {
    match v {
        FontVariant::Normal => 0,
        FontVariant::SmallCaps => 1,
        FontVariant::AllSmallCaps => 2,
        FontVariant::PetiteCaps => 3,
        FontVariant::AllPetiteCaps => 4,
        FontVariant::Unicase => 5,
        FontVariant::TitleCaps => 6,
    }
}

/// Slant class code of each style.
pub open spec fn style_code(s: FontStyle) -> i32 {
    match s {
        FontStyle::Normal => 0,
        FontStyle::Oblique => 1,
        FontStyle::Italic => 2,
    }
}

impl ReadDirection {
    /// The direction code handed to the engine context.
    pub fn set(&self) -> (r: i32)
        ensures
            r == direction_code(*self),
    {
        match self {
            ReadDirection::LR => 0,
            ReadDirection::RL => 1,
            ReadDirection::WeakLR => 4,
            ReadDirection::WeakRL => 5,
        }
    }
}

impl Wrap {
    /// The wrap mode code handed to the layout.
    pub fn set(&self) -> (r: i32)
        ensures
            r == wrap_code(*self),
    {
        match self {
            Wrap::Word => 0,
            Wrap::Char => 1,
            Wrap::WordChar => 2,
        }
    }
}

impl Ellipsize {
    /// The ellipsization mode code handed to the layout.
    pub fn set(&self) -> (r: i32)
        ensures
            r == ellipsize_code(*self),
    {
        match self {
            Ellipsize::Off => 0,
            Ellipsize::Start => 1,
            Ellipsize::Middle => 2,
            Ellipsize::End => 3,
        }
    }
}

impl FontWeight {
    /// The numeric weight class of this weight step.
    pub fn to_pango(&self) -> (r: i32)
        ensures
            r == weight_code(*self),
    {
        match self {
            FontWeight::Thin => 100,
            FontWeight::Ultralight => 200,
            FontWeight::Light => 300,
            FontWeight::Semilight => 350,
            FontWeight::Book => 380,
            FontWeight::Normal => 400,
            FontWeight::Medium => 500,
            FontWeight::Semibold => 600,
            FontWeight::Bold => 700,
            FontWeight::Ultrabold => 800,
            FontWeight::Heavy => 900,
            FontWeight::Ultraheavy => 1000,
        }
    }
}

impl FontStretch {
    /// The stretch class code of this stretch step.
    pub fn to_pango(&self) -> (r: i32)
        ensures
            r == stretch_code(*self),
    {
        match self {
            FontStretch::UltraCondensed => 0,
            FontStretch::ExtraCondensed => 1,
            FontStretch::Condensed => 2,
            FontStretch::SemiCondensed => 3,
            FontStretch::Normal => 4,
            FontStretch::SemiExpanded => 5,
            FontStretch::Expanded => 6,
            FontStretch::ExtraExpanded => 7,
            FontStretch::UltraExpanded => 8,
        }
    }
}

impl FontVariant {
    /// The variant class code of this variant.
    pub fn to_pango(&self) -> (r: i32)
        ensures
            r == variant_code(*self),
    {
        match self {
            FontVariant::Normal => 0,
            FontVariant::SmallCaps => 1,
            FontVariant::AllSmallCaps => 2,
            FontVariant::PetiteCaps => 3,
            FontVariant::AllPetiteCaps => 4,
            FontVariant::Unicase => 5,
            FontVariant::TitleCaps => 6,
        }
    }
}

impl FontStyle {
    /// The slant class code of this style.
    pub fn to_pango(&self) -> (r: i32)
        ensures
            r == style_code(*self),
    {
        match self {
            FontStyle::Normal => 0,
            FontStyle::Oblique => 1,
            FontStyle::Italic => 2,
        }
    }
}

impl Styling {
    /// Resolves this style into the exact engine configuration: orientation
    /// from the writing axis, direction, wrap and ellipsization codes, sizes
    /// scaled to engine subunits, justification flags, and the font
    /// description with its provisional size.
    pub fn layouter(&self) -> (c: LayoutConfig)
        ensures
            c.gravity == gravity_code(self.vertical),
            c.base_dir == direction_code(self.read_direction),
            c.wrap == wrap_code(self.wrap),
            c.ellipsize == ellipsize_code(self.ellipsize),
            self.indent matches Some(i) ==> c.indent_units matches Some(u) && u == i * SCALE,
            self.indent is None ==> c.indent_units is None,
            self.spacing matches Some(s) ==> c.spacing_units matches Some(u) && u == s * SCALE,
            self.spacing is None ==> c.spacing_units is None,
            c.line_spacing == self.line_spacing,
            c.justify == self.justiy,
            c.justify_last_line == self.justify_last_line,
            c.single_paragraph_mode == self.single_paragraph_mode,
            c.auto_dir == self.auto_dir,
            c.font is Some <==> self.font is Some,
            self.font matches Some(f) ==> c.font matches Some(g) && {
                &&& g.family == f.font_family
                &&& g.stretch == stretch_code(f.stretch)
                &&& g.variant == variant_code(f.variant)
                &&& g.weight == weight_code(f.weight)
                &&& g.style == style_code(f.style)
                &&& g.size_units == PROVISIONAL_FONT_SIZE * SCALE
            },
    {
        let indent_units: Option<i64> = match self.indent {
            Some(i) => Some((i as i64) * SCALE),
            None => None,
        };
        let spacing_units: Option<i64> = match self.spacing {
            Some(s) => Some((s as i64) * SCALE),
            None => None,
        };
        let font: Option<FontSpec> = match &self.font {
            Some(f) => Some(
                FontSpec {
                    family: f.font_family.clone(),
                    stretch: f.stretch.to_pango(),
                    variant: f.variant.to_pango(),
                    weight: f.weight.to_pango(),
                    style: f.style.to_pango(),
                    size_units: PROVISIONAL_FONT_SIZE * SCALE,
                },
            ),
            None => None,
        };
        LayoutConfig {
            gravity: if self.vertical {
                GRAVITY_EAST
            } else {
                GRAVITY_SOUTH
            },
            base_dir: self.read_direction.set(),
            wrap: self.wrap.set(),
            ellipsize: self.ellipsize.set(),
            indent_units,
            spacing_units,
            line_spacing: self.line_spacing,
            justify: self.justiy,
            justify_last_line: self.justify_last_line,
            font,
            single_paragraph_mode: self.single_paragraph_mode,
            auto_dir: self.auto_dir,
        }
    }
}

} // verus!
