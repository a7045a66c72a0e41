use vstd::prelude::*;

verus! {

/// Number of engine subunits per pixel: every size-like quantity handed to the
/// text-layout engine is scaled by this constant.
pub const SCALE: i64 = 1024;

/// Largest pixel extent a box, font size or stroke width may have, so that the
/// subunit value (`px * SCALE`) still fits the engine's 32-bit size fields.
pub const MAX_EXTENT: i64 = 2_000_000;

/// Largest magnitude a pivot coordinate may have, so that every transform and
/// alignment computation stays far away from 64-bit overflow.
pub const MAX_COORD: i64 = 1_000_000_000;

/// Main Item that contains the data
#[derive(Clone)]
pub struct Data {
    /// Text blocks
    pub items: Vec<Text>,
    /// Style to fall back to when nothing is specified in Text
    pub global_style: Styling,
    /// The alignment of the text within the box when not specified in Text
    pub global_align: Alignments,
    /// The background image as png in bytes
    pub background: Option<Vec<u8>>,
}

impl Data {
    /// Every item respects the machine bounds on coordinates and extents.
    pub open spec fn wf(&self) -> bool {
        forall|i: int| 0 <= i < self.items@.len() ==> (#[trigger] self.items@[i]).wf()
    }
}

/// Alignment of the text within the box
#[derive(Clone, Copy, Debug, PartialEq, Eq, Structural)]
pub struct Alignments {
    /// Horizontal alignment: left -- center -- right
    pub ha: HorizontalAlignment,
    /// Vertical alignment: top -- center -- bottom
    pub va: VerticalAlignment,
}

/// Text section
#[derive(Clone)]
pub struct Text {
    /// Different inputs like plain text or markup
    pub mode: Mode,
    /// Text in the textblock
    pub value: String,
    /// upper left corner of the textblock
    pub pos: Pos2,
    /// width and height of the textblock
    pub size: Size2,
    /// fontsize in pixels
    pub font_size: i64,
    /// fontcolor
    pub font_color: Rgb,
    /// Background of the text section
    pub background: Background,
    /// Alternative style for the text section
    pub style: Option<Styling>,
    /// Alternative alignment for the text section
    pub align: Option<Alignments>,
    /// the color of the outline
    pub outline_color: Rgba,
    /// The thickness of the outline/stroke in pixels
    pub font_stroke: i64,
}

impl Text {
    /// Geometry and size-like fields respect the machine bounds.
    pub open spec fn wf(&self) -> bool {
        &&& self.pos.wf()
        &&& self.size.wf()
        &&& 0 <= self.font_size <= MAX_EXTENT
        &&& 0 <= self.font_stroke <= MAX_EXTENT
    }
}

/// background of a text box
#[derive(Clone)]
pub enum Background {
    /// bytes of a png image
    Bytes(Vec<u8>),
    /// flat fill color in rgb format from 0 to 255
    Rgb(Rgb),
    /// Do nothing
    Blank,
}

/// Text input type
#[derive(Clone, Copy, Debug, PartialEq, Eq, Structural)]
pub enum Mode {
    /// Plain text, taken verbatim
    Text,
    /// Markup format
    Markup,
    /// Markup with one designated accelerator marker character
    MarkupWithAccel,
}

/// Read direction of text
#[derive(Clone, Copy, Debug, PartialEq, Eq, Structural, Default)]
pub enum ReadDirection {
    /// A strong left-to-right direction.
    LR,
    /// A strong right-to-left direction.
    RL,
    /// A weak left-to-right direction.
    #[default]
    WeakLR,
    /// A weak right-to-left direction.
    WeakRL,
}

/// Layout and typesetting configuration, independent of the text content
#[derive(Clone)]
pub struct Styling {
    /// Amount of spacing between the lines of the layout, in pixels.
    pub spacing: Option<i32>,
    /// Factor for line spacing, in thousandths.
    pub line_spacing: Option<u32>,
    /// The type of ellipsization performed for the layout:
    /// text shortening with ...
    pub ellipsize: Ellipsize,
    /// The wrap mode.
    pub wrap: Wrap,
    /// Width to indent each paragraph by, in pixels.
    pub indent: Option<i32>,
    /// Single paragraph mode of the layout.
    pub single_paragraph_mode: bool,
    /// Whether to compute the base direction of the layout from its contents.
    pub auto_dir: bool,
    /// Explicit read direction.
    pub read_direction: ReadDirection,
    /// Vertical writing axis: the text flows top-to-bottom.
    pub vertical: bool,
    /// Font to use; the size it implies is always replaced per item.
    pub font: Option<Font>,
    /// Whether each complete line is stretched to fill the layout width.
    pub justiy: bool,
    /// Whether the last line is stretched to fill the layout width.
    pub justify_last_line: bool,
}

/// Shortening of text when overflowing, with ...
#[derive(Clone, Copy, Debug, PartialEq, Eq, Structural, Default)]
pub enum Ellipsize {
    /// No ellipsization
    #[default]
    Off,
    /// Ellipsization at the start of the text
    Start,
    /// Ellipsization in the middle of the text
    Middle,
    /// Ellipsization at the end of the text
    End,
}

/// Color with alpha channel
#[derive(Clone, Copy, Debug, PartialEq, Eq, Structural)]
pub struct Rgba {
    /// red 0-255
    pub r: u8,
    /// green 0-255
    pub g: u8,
    /// blue 0-255
    pub b: u8,
    /// alpha 0-255
    pub a: u8,
}

/// Color without alpha channel
#[derive(Clone, Copy, Debug, PartialEq, Eq, Structural)]
pub struct Rgb {
    /// red 0-255
    pub r: u8,
    /// green 0-255
    pub g: u8,
    /// blue 0-255
    pub b: u8,
}

/// Position in pixels
#[derive(Clone, Copy, Debug, PartialEq, Eq, Structural)]
pub struct Pos2 {
    /// x position in px
    pub x: i64,
    /// y position in px
    pub y: i64,
}

impl Pos2 {
    /// Both coordinates stay within the machine bounds.
    pub open spec fn wf(&self) -> bool {
        -MAX_COORD <= self.x <= MAX_COORD && -MAX_COORD <= self.y <= MAX_COORD
    }
}

/// Size in pixels
#[derive(Clone, Copy, Debug, PartialEq, Eq, Structural)]
pub struct Size2 {
    /// width in px
    pub width: i64,
    /// height in px
    pub height: i64,
}

impl Size2 {
    /// Both extents are nonnegative and small enough for the engine subunit scale.
    pub open spec fn wf(&self) -> bool {
        0 <= self.width <= MAX_EXTENT && 0 <= self.height <= MAX_EXTENT
    }
}

/// Where to break lines so the text fits the box
#[derive(Clone, Copy, Debug, PartialEq, Eq, Structural)]
pub enum Wrap {
    /// Wrap lines at word boundaries.
    Word,
    /// Wrap lines at character boundaries.
    Char,
    /// Wrap lines at word boundaries, but fall back to character boundaries
    /// if there is not enough space for a full word.
    WordChar,
}

/// Alignment of text along the horizontal axis
#[derive(Clone, Copy, Debug, PartialEq, Eq, Structural)]
pub enum HorizontalAlignment {
    /// Left side
    Left,
    /// Right side
    Right,
    /// Center
    Center,
}

/// Alignment of text along the vertical axis
#[derive(Clone, Copy, Debug, PartialEq, Eq, Structural)]
pub enum VerticalAlignment {
    /// Top
    Top,
    /// Center
    Center,
    /// Bottom
    Bottom,
}

/// Output format
#[derive(Clone, Copy, Debug, PartialEq, Eq, Structural)]
pub enum OutputMode {
    /// Portable Document Format.
    /// bool: if bytes should be returned instead of creating a file
    Pdf(bool),
    /// Portable Network Graphics.
    /// bool: lossless compression
    Png(bool),
    /// Scalable Vector Graphics
    Svg,
    /// PostScript
    Ps,
    /// An image in JPEG format with specified quality, up to 100
    Jpeg(u8),
    /// An image in one of the PNM formats
    Pnm(PnmKind),
    /// An image in ICO format
    Ico,
    /// An image in BMP format
    Bmp,
    /// An image in farbfeld format
    Farbfeld,
    /// An image in TGA format
    Tga,
    /// An image in OpenEXR format
    OpenExr,
    /// An image in TIFF format
    Tiff,
    /// An image in AVIF format
    Avif,
    /// An image in QOI format
    Qoi,
    /// An image in WebP format
    WebP,
}

/// The concrete PNM container to emit
#[derive(Clone, Copy, Debug, PartialEq, Eq, Structural)]
pub enum PnmKind {
    /// Magic numbers P1 and P4
    Bitmap(SampleKind),
    /// Magic numbers P2 and P5
    Graymap(SampleKind),
    /// Magic numbers P3 and P6
    Pixmap(SampleKind),
    /// Magic number P7
    ArbitraryMap,
}

/// How PNM samples are written
#[derive(Clone, Copy, Debug, PartialEq, Eq, Structural)]
pub enum SampleKind {
    /// Samples are unsigned binary integers in big endian
    Binary,
    /// Samples are encoded as decimal ascii strings separated by whitespace
    Ascii,
}

/// font configuration
#[derive(Clone)]
pub struct Font {
    /// font family name
    pub font_family: String,
    /// caps
    pub variant: FontVariant,
    /// char spacing
    pub stretch: FontStretch,
    /// bold, normal, light
    pub weight: FontWeight,
    /// italic, oblique, normal
    pub style: FontStyle,
}

#[derive(Clone, Copy, Debug, PartialEq, Eq, Structural, Default)]
pub enum FontStyle {
    /// The font is upright.
    #[default]
    Normal,
    /// The font is slanted in an italic style.
    Italic,
    /// The font is slanted, but in a roman style.
    Oblique,
}

#[derive(Clone, Copy, Debug, PartialEq, Eq, Structural, Default)]
pub enum FontVariant {
    /// A normal font.
    #[default]
    Normal,
    /// Lower case characters replaced by smaller variants of the capitals.
    SmallCaps,
    /// All characters replaced by smaller variants of the capitals.
    AllSmallCaps,
    /// Like small caps, but the variants can be even smaller.
    PetiteCaps,
    /// Like all small caps, but the variants can be even smaller.
    AllPetiteCaps,
    /// Upper case characters replaced by smaller variants of the capitals.
    Unicase,
    /// Capital letters more suitable for all-uppercase titles.
    TitleCaps,
}

#[derive(Clone, Copy, Debug, PartialEq, Eq, Structural, Default)]
pub enum FontStretch {
    /// Ultra condensed width.
    UltraCondensed,
    /// Extra condensed width.
    ExtraCondensed,
    /// Condensed width.
    Condensed,
    /// Semi condensed width.
    SemiCondensed,
    /// The normal width.
    #[default]
    Normal,
    /// Semi expanded width.
    SemiExpanded,
    /// Expanded width.
    Expanded,
    /// Extra expanded width.
    ExtraExpanded,
    /// Ultra expanded width.
    UltraExpanded,
}

#[derive(Clone, Copy, Debug, PartialEq, Eq, Structural, Default)]
pub enum FontWeight {
    /// The thin weight (= 100)
    Thin,
    /// The ultralight weight (= 200)
    Ultralight,
    /// The light weight (= 300)
    Light,
    /// The semilight weight (= 350)
    Semilight,
    /// The book weight (= 380)
    Book,
    /// The default weight (= 400)
    #[default]
    Normal,
    /// The medium weight (= 500)
    Medium,
    /// The semibold weight (= 600)
    Semibold,
    /// The bold weight (= 700)
    Bold,
    /// The ultrabold weight (= 800)
    Ultrabold,
    /// The heavy weight (= 900)
    Heavy,
    /// The ultraheavy weight (= 1000)
    Ultraheavy,
}

impl Rgb {
    pub fn new(r: u8, g: u8, b: u8) -> (c: Rgb)
        ensures
            c == (Rgb { r, g, b }),
    {
        Rgb { r, g, b }
    }
}

impl Rgba {
    pub fn new(r: u8, g: u8, b: u8, a: u8) -> (c: Rgba)
        ensures
            c == (Rgba { r, g, b, a }),
    {
        Rgba { r, g, b, a }
    }
}

impl Pos2 {
    pub fn new(x: i64, y: i64) -> (p: Pos2)
        ensures
            p == (Pos2 { x, y }),
    {
        Pos2 { x, y }
    }
}

impl Size2 {
    pub fn new(width: i64, height: i64) -> (s: Size2)
        ensures
            s == (Size2 { width, height }),
    {
        Size2 { width, height }
    }
}

} // verus!
