//! Resolved CSS values, the per-node style and layout records they are
//! collected in, and the rule that writes one property into those records.

use vstd::prelude::*;
use std::rc::Rc;

verus! {

/// A CSS number in fixed point: `number` is the value times 1000.
#[derive(Debug, Clone, Copy, PartialEq, Eq, Structural, Hash)]
pub struct FloatValue {
    pub number: isize,
}

/// A CSS percentage.
#[derive(Debug, Clone, Copy, PartialEq, Eq, Structural, Hash)]
pub struct PercentageValue {
    pub number: FloatValue,
}

/// A CSS length: a number and its unit.
#[derive(Debug, Clone, Copy, PartialEq, Eq, Structural, Hash)]
pub struct PixelValue {
    pub metric: SizeMetric,
    pub number: FloatValue,
}

/// An RGBA color with 8 bits per channel.
#[derive(Debug, Clone, Copy, PartialEq, Eq, Structural, Hash)]
pub struct ColorU {
    pub r: u8,
    pub g: u8,
    pub b: u8,
    pub a: u8,
}

impl ColorU {
    /// Opaque white.
    pub fn white() -> (color: ColorU)
        ensures
            color == (ColorU { r: 255, g: 255, b: 255, a: 255 }),
    {
        ColorU { r: 255, g: 255, b: 255, a: 255 }
    }

    /// Opaque black.
    pub fn black() -> (color: ColorU)
        ensures
            color == (ColorU { r: 0, g: 0, b: 0, a: 255 }),
    {
        ColorU { r: 0, g: 0, b: 0, a: 255 }
    }
}

/// Unit of a CSS length.
#[derive(Debug, Clone, Copy, PartialEq, Eq, Structural, Hash)]
pub enum SizeMetric {
    Px,
    Pt,
    Em,
    Percent,
}

/// `display`
#[derive(Debug, Clone, Copy, PartialEq, Eq, Structural, Hash)]
pub enum LayoutDisplay {
    Flex,
    Inline,
}

/// `float`
#[derive(Debug, Clone, Copy, PartialEq, Eq, Structural, Hash)]
pub enum LayoutFloat {
    Left,
    Right,
}

/// `box-sizing`
#[derive(Debug, Clone, Copy, PartialEq, Eq, Structural, Hash)]
pub enum LayoutBoxSizing {
    ContentBox,
    BorderBox,
}

/// `position`
#[derive(Debug, Clone, Copy, PartialEq, Eq, Structural, Hash)]
pub enum LayoutPosition {
    Static,
    Relative,
    Absolute,
}

/// `flex-wrap`
#[derive(Debug, Clone, Copy, PartialEq, Eq, Structural, Hash)]
pub enum LayoutWrap {
    Wrap,
    NoWrap,
}

/// `flex-direction`
#[derive(Debug, Clone, Copy, PartialEq, Eq, Structural, Hash)]
pub enum LayoutDirection {
    Row,
    RowReverse,
    Column,
    ColumnReverse,
}

/// `justify-content`
#[derive(Debug, Clone, Copy, PartialEq, Eq, Structural, Hash)]
pub enum LayoutJustifyContent {
    Start,
    End,
    Center,
    SpaceBetween,
    SpaceAround,
    SpaceEvenly,
}

/// `align-items`
#[derive(Debug, Clone, Copy, PartialEq, Eq, Structural, Hash)]
pub enum LayoutAlignItems {
    Stretch,
    Center,
    Start,
    End,
}

/// `align-content`
#[derive(Debug, Clone, Copy, PartialEq, Eq, Structural, Hash)]
pub enum LayoutAlignContent {
    Stretch,
    Center,
    Start,
    End,
    SpaceBetween,
    SpaceAround,
}

/// `overflow-x` and `overflow-y`
#[derive(Debug, Clone, Copy, PartialEq, Eq, Structural, Hash)]
pub enum Overflow {
    Scroll,
    Auto,
    Hidden,
    Visible,
}

/// `text-align`
#[derive(Debug, Clone, Copy, PartialEq, Eq, Structural, Hash)]
pub enum StyleTextAlignmentHorz {
    Left,
    Center,
    Right,
}

/// `cursor`
#[derive(Debug, Clone, Copy, PartialEq, Eq, Structural, Hash)]
pub enum StyleCursor {
    Alias,
    AllScroll,
    Cell,
    ColResize,
    ContextMenu,
    Copy,
    Crosshair,
    Default,
    EResize,
    EwResize,
    Grab,
    Grabbing,
    Help,
    Move,
    NResize,
    NsResize,
    NeswResize,
    NwseResize,
    Pointer,
    Progress,
    RowResize,
    SResize,
    SeResize,
    Text,
    Unset,
    VerticalText,
    WResize,
    Wait,
    ZoomIn,
    ZoomOut,
}

/// `border-*-style`; `NoneKeyword` is the keyword `none`.
#[derive(Debug, Clone, Copy, PartialEq, Eq, Structural, Hash)]
pub enum BorderStyle {
    NoneKeyword,
    Solid,
    Double,
    Dotted,
    Dashed,
    Hidden,
    Groove,
    Ridge,
    Inset,
    Outset,
}

/// Whether a shadow is drawn outside or inside its box.
#[derive(Debug, Clone, Copy, PartialEq, Eq, Structural, Hash)]
pub enum BoxShadowClipMode {
    Outset,
    Inset,
}

/// How a gradient continues past its last stop.
#[derive(Debug, Clone, Copy, PartialEq, Eq, Structural, Hash)]
pub enum ExtendMode {
    Clamp,
    Repeat,
}

/// Shape of a radial gradient.
#[derive(Debug, Clone, Copy, PartialEq, Eq, Structural, Hash)]
pub enum Shape {
    Ellipse,
    Circle,
}

/// Corner or side that a gradient runs from or to.
#[derive(Debug, Clone, Copy, PartialEq, Eq, Structural, Hash)]
pub enum DirectionCorner {
    Right,
    Left,
    Top,
    Bottom,
    TopRight,
    TopLeft,
    BottomRight,
    BottomLeft,
}

/// `background-repeat`
#[derive(Debug, Clone, Copy, PartialEq, Eq, Structural, Hash)]
pub enum StyleBackgroundRepeat {
    NoRepeat,
    Repeat,
    RepeatX,
    RepeatY,
}

/// A property as the cascade leaves it: one of the CSS-wide keywords or an
/// exact value.
#[derive(Debug, Clone, Copy, PartialEq, Eq, Structural, Hash)]
pub enum CssPropertyValue<T> {
    Auto,
    /// The keyword `none`.
    NoneKeyword,
    Initial,
    Inherit,
    Exact(T),
}

impl<T> CssPropertyValue<T> {
    /// The exact value, if the property holds one.
    pub open spec fn exact(self) -> Option<T> {
        match self {
            CssPropertyValue::Exact(value) => Some(value),
            _ => None,
        }
    }

    /// The exact value, if the property holds one.
    pub fn get_property(&self) -> (value: Option<&T>)
        ensures
            value == match self.exact() {
                Some(v) => Some(&v),
                None => None,
            },
    {
        match self {
            CssPropertyValue::Exact(value) => Some(value),
            _ => None,
        }
    }
}

/// Direction of a linear gradient.
#[derive(Debug, Clone, Copy, PartialEq, Eq, Structural, Hash)]
pub enum Direction {
    Angle(FloatValue),
    FromTo(DirectionCorner, DirectionCorner),
}

/// `background-size`
#[derive(Debug, Clone, Copy, PartialEq, Eq, Structural, Hash)]
pub enum StyleBackgroundSize {
    ExactSize(PixelValue, PixelValue),
    Contain,
    Cover,
}

/// Horizontal part of `background-position`.
#[derive(Debug, Clone, Copy, PartialEq, Eq, Structural, Hash)]
pub enum BackgroundPositionHorizontal {
    Left,
    Center,
    Right,
    Exact(PixelValue),
}

/// Vertical part of `background-position`.
#[derive(Debug, Clone, Copy, PartialEq, Eq, Structural, Hash)]
pub enum BackgroundPositionVertical {
    Top,
    Center,
    Bottom,
    Exact(PixelValue),
}

/// `background-position`
#[derive(Debug, Clone, Copy, PartialEq, Eq, Structural, Hash)]
pub struct StyleBackgroundPosition {
    pub horizontal: BackgroundPositionHorizontal,
    pub vertical: BackgroundPositionVertical,
}

/// One side's `box-shadow`.
#[derive(Debug, Clone, Copy, PartialEq, Eq, Structural, Hash)]
pub struct BoxShadowPreDisplayItem {
    pub offset_x: PixelValue,
    pub offset_y: PixelValue,
    pub color: ColorU,
    pub blur_radius: PixelValue,
    pub spread_radius: PixelValue,
    pub clip_mode: BoxShadowClipMode,
}

/// A color stop of a gradient.
#[derive(Debug, Clone, Copy, PartialEq, Eq, Structural, Hash)]
pub struct GradientStopPre {
    pub offset: Option<PercentageValue>,
    pub color: ColorU,
}

/// A linear gradient. The stops are shared, never copied: a clone refers to
/// the same list.
#[derive(Debug, PartialEq, Eq, Hash)]
pub struct LinearGradient {
    pub direction: Direction,
    pub extend_mode: ExtendMode,
    pub stops: Rc<Vec<GradientStopPre>>,
}

/// A radial gradient. The stops are shared, never copied: a clone refers to
/// the same list.
#[derive(Debug, PartialEq, Eq, Hash)]
pub struct RadialGradient {
    pub shape: Shape,
    pub extend_mode: ExtendMode,
    pub stops: Rc<Vec<GradientStopPre>>,
}

/// Name under which a stylesheet refers to an image.
#[derive(Debug, PartialEq, Eq, Hash)]
pub struct CssImageId(pub String);

/// `background`
#[derive(Debug, PartialEq, Eq, Hash)]
pub enum StyleBackgroundContent {
    LinearGradient(LinearGradient),
    RadialGradient(RadialGradient),
    Image(CssImageId),
    Color(ColorU),
}

/// Name of a font as a stylesheet gives it.
#[derive(Debug, PartialEq, Eq, Hash)]
pub struct FontId(pub String);

/// `font-family`: the fonts to try, in order. The list is shared, never
/// copied: a clone refers to the same list.
#[derive(Debug, PartialEq, Eq, Hash)]
pub struct StyleFontFamily {
    pub fonts: Rc<Vec<FontId>>,
}

/// `Rc::clone`: the clone points at the very allocation that `rc` points
/// at, so to a reader of the value the two are equal.
#[verifier::external_body]
pub(crate) fn share<T>(rc: &Rc<T>) -> (shared: Rc<T>)
    ensures
        shared == *rc,
{
    Rc::clone(rc)
}

impl Clone for LinearGradient {
    fn clone(&self) -> (copy: Self)
        ensures
            copy == *self,
    {
        LinearGradient {
            direction: self.direction,
            extend_mode: self.extend_mode,
            stops: share(&self.stops),
        }
    }
}

impl Clone for RadialGradient {
    fn clone(&self) -> (copy: Self)
        ensures
            copy == *self,
    {
        RadialGradient {
            shape: self.shape,
            extend_mode: self.extend_mode,
            stops: share(&self.stops),
        }
    }
}

impl Clone for CssImageId {
    fn clone(&self) -> (copy: Self)
        ensures
            copy == *self,
    {
        CssImageId(self.0.clone())
    }
}

impl Clone for StyleBackgroundContent {
    fn clone(&self) -> (copy: Self)
        ensures
            copy == *self,
    {
        match self {
            StyleBackgroundContent::LinearGradient(gradient) => StyleBackgroundContent::LinearGradient(
                gradient.clone(),
            ),
            StyleBackgroundContent::RadialGradient(gradient) => StyleBackgroundContent::RadialGradient(
                gradient.clone(),
            ),
            StyleBackgroundContent::Image(id) => StyleBackgroundContent::Image(id.clone()),
            StyleBackgroundContent::Color(color) => StyleBackgroundContent::Color(*color),
        }
    }
}

impl Clone for FontId {
    fn clone(&self) -> (copy: Self)
        ensures
            copy == *self,
    {
        FontId(self.0.clone())
    }
}

impl Clone for StyleFontFamily {
    fn clone(&self) -> (copy: Self)
        ensures
            copy == *self,
    {
        StyleFontFamily { fonts: share(&self.fonts) }
    }
}

/// Copies a property whose exact value is not `Copy`.
fn clone_background(value: &CssPropertyValue<StyleBackgroundContent>) -> (copy: CssPropertyValue<
    StyleBackgroundContent,
>)
    ensures
        copy == *value,
{
    match value {
        CssPropertyValue::Auto => CssPropertyValue::Auto,
        CssPropertyValue::NoneKeyword => CssPropertyValue::NoneKeyword,
        CssPropertyValue::Initial => CssPropertyValue::Initial,
        CssPropertyValue::Inherit => CssPropertyValue::Inherit,
        CssPropertyValue::Exact(content) => CssPropertyValue::Exact(content.clone()),
    }
}

/// Copies a property whose exact value is not `Copy`.
fn clone_font_family(value: &CssPropertyValue<StyleFontFamily>) -> (copy: CssPropertyValue<
    StyleFontFamily,
>)
    ensures
        copy == *value,
{
    match value {
        CssPropertyValue::Auto => CssPropertyValue::Auto,
        CssPropertyValue::NoneKeyword => CssPropertyValue::NoneKeyword,
        CssPropertyValue::Initial => CssPropertyValue::Initial,
        CssPropertyValue::Inherit => CssPropertyValue::Inherit,
        CssPropertyValue::Exact(family) => CssPropertyValue::Exact(family.clone()),
    }
}

/// The kind of a CSS property, without its value.
#[derive(Debug, Clone, Copy, PartialEq, Eq, Structural, Hash)]
pub enum CssPropertyType {
    TextColor,
    FontSize,
    FontFamily,
    TextAlign,
    LetterSpacing,
    LineHeight,
    WordSpacing,
    TabWidth,
    Cursor,
    Display,
    Float,
    BoxSizing,
    Width,
    Height,
    MinWidth,
    MinHeight,
    MaxWidth,
    MaxHeight,
    Position,
    Top,
    Right,
    Left,
    Bottom,
    FlexWrap,
    FlexDirection,
    FlexGrow,
    FlexShrink,
    JustifyContent,
    AlignItems,
    AlignContent,
    BackgroundContent,
    BackgroundPosition,
    BackgroundSize,
    BackgroundRepeat,
    OverflowX,
    OverflowY,
    PaddingTop,
    PaddingLeft,
    PaddingRight,
    PaddingBottom,
    MarginTop,
    MarginLeft,
    MarginRight,
    MarginBottom,
    BorderTopLeftRadius,
    BorderTopRightRadius,
    BorderBottomLeftRadius,
    BorderBottomRightRadius,
    BorderTopColor,
    BorderRightColor,
    BorderLeftColor,
    BorderBottomColor,
    BorderTopStyle,
    BorderRightStyle,
    BorderLeftStyle,
    BorderBottomStyle,
    BorderTopWidth,
    BorderRightWidth,
    BorderLeftWidth,
    BorderBottomWidth,
    BoxShadowLeft,
    BoxShadowRight,
    BoxShadowTop,
    BoxShadowBottom,
}

/// A CSS property with its value.
#[derive(Debug, PartialEq, Eq, Hash)]
pub enum CssProperty {
    TextColor(CssPropertyValue<ColorU>),
    FontSize(CssPropertyValue<PixelValue>),
    FontFamily(CssPropertyValue<StyleFontFamily>),
    TextAlign(CssPropertyValue<StyleTextAlignmentHorz>),
    LetterSpacing(CssPropertyValue<PixelValue>),
    LineHeight(CssPropertyValue<PercentageValue>),
    WordSpacing(CssPropertyValue<PixelValue>),
    TabWidth(CssPropertyValue<PercentageValue>),
    Cursor(CssPropertyValue<StyleCursor>),
    Display(CssPropertyValue<LayoutDisplay>),
    Float(CssPropertyValue<LayoutFloat>),
    BoxSizing(CssPropertyValue<LayoutBoxSizing>),
    Width(CssPropertyValue<PixelValue>),
    Height(CssPropertyValue<PixelValue>),
    MinWidth(CssPropertyValue<PixelValue>),
    MinHeight(CssPropertyValue<PixelValue>),
    MaxWidth(CssPropertyValue<PixelValue>),
    MaxHeight(CssPropertyValue<PixelValue>),
    Position(CssPropertyValue<LayoutPosition>),
    Top(CssPropertyValue<PixelValue>),
    Right(CssPropertyValue<PixelValue>),
    Left(CssPropertyValue<PixelValue>),
    Bottom(CssPropertyValue<PixelValue>),
    FlexWrap(CssPropertyValue<LayoutWrap>),
    FlexDirection(CssPropertyValue<LayoutDirection>),
    FlexGrow(CssPropertyValue<FloatValue>),
    FlexShrink(CssPropertyValue<FloatValue>),
    JustifyContent(CssPropertyValue<LayoutJustifyContent>),
    AlignItems(CssPropertyValue<LayoutAlignItems>),
    AlignContent(CssPropertyValue<LayoutAlignContent>),
    BackgroundContent(CssPropertyValue<StyleBackgroundContent>),
    BackgroundPosition(CssPropertyValue<StyleBackgroundPosition>),
    BackgroundSize(CssPropertyValue<StyleBackgroundSize>),
    BackgroundRepeat(CssPropertyValue<StyleBackgroundRepeat>),
    OverflowX(CssPropertyValue<Overflow>),
    OverflowY(CssPropertyValue<Overflow>),
    PaddingTop(CssPropertyValue<PixelValue>),
    PaddingLeft(CssPropertyValue<PixelValue>),
    PaddingRight(CssPropertyValue<PixelValue>),
    PaddingBottom(CssPropertyValue<PixelValue>),
    MarginTop(CssPropertyValue<PixelValue>),
    MarginLeft(CssPropertyValue<PixelValue>),
    MarginRight(CssPropertyValue<PixelValue>),
    MarginBottom(CssPropertyValue<PixelValue>),
    BorderTopLeftRadius(CssPropertyValue<PixelValue>),
    BorderTopRightRadius(CssPropertyValue<PixelValue>),
    BorderBottomLeftRadius(CssPropertyValue<PixelValue>),
    BorderBottomRightRadius(CssPropertyValue<PixelValue>),
    BorderTopColor(CssPropertyValue<ColorU>),
    BorderRightColor(CssPropertyValue<ColorU>),
    BorderLeftColor(CssPropertyValue<ColorU>),
    BorderBottomColor(CssPropertyValue<ColorU>),
    BorderTopStyle(CssPropertyValue<BorderStyle>),
    BorderRightStyle(CssPropertyValue<BorderStyle>),
    BorderLeftStyle(CssPropertyValue<BorderStyle>),
    BorderBottomStyle(CssPropertyValue<BorderStyle>),
    BorderTopWidth(CssPropertyValue<PixelValue>),
    BorderRightWidth(CssPropertyValue<PixelValue>),
    BorderLeftWidth(CssPropertyValue<PixelValue>),
    BorderBottomWidth(CssPropertyValue<PixelValue>),
    BoxShadowLeft(CssPropertyValue<BoxShadowPreDisplayItem>),
    BoxShadowRight(CssPropertyValue<BoxShadowPreDisplayItem>),
    BoxShadowTop(CssPropertyValue<BoxShadowPreDisplayItem>),
    BoxShadowBottom(CssPropertyValue<BoxShadowPreDisplayItem>),
}

/// Paint attributes of a node: colors, borders, shadows, text.
#[derive(Debug, PartialEq, Eq, Hash)]
pub struct RectStyle {
    pub text_color: Option<CssPropertyValue<ColorU>>,
    pub font_size: Option<CssPropertyValue<PixelValue>>,
    pub font_family: Option<CssPropertyValue<StyleFontFamily>>,
    pub text_align: Option<CssPropertyValue<StyleTextAlignmentHorz>>,
    pub letter_spacing: Option<CssPropertyValue<PixelValue>>,
    pub line_height: Option<CssPropertyValue<PercentageValue>>,
    pub word_spacing: Option<CssPropertyValue<PixelValue>>,
    pub tab_width: Option<CssPropertyValue<PercentageValue>>,
    pub cursor: Option<CssPropertyValue<StyleCursor>>,
    pub background: Option<CssPropertyValue<StyleBackgroundContent>>,
    pub background_position: Option<CssPropertyValue<StyleBackgroundPosition>>,
    pub background_size: Option<CssPropertyValue<StyleBackgroundSize>>,
    pub background_repeat: Option<CssPropertyValue<StyleBackgroundRepeat>>,
    pub border_top_left_radius: Option<CssPropertyValue<PixelValue>>,
    pub border_top_right_radius: Option<CssPropertyValue<PixelValue>>,
    pub border_bottom_left_radius: Option<CssPropertyValue<PixelValue>>,
    pub border_bottom_right_radius: Option<CssPropertyValue<PixelValue>>,
    pub border_top_color: Option<CssPropertyValue<ColorU>>,
    pub border_right_color: Option<CssPropertyValue<ColorU>>,
    pub border_left_color: Option<CssPropertyValue<ColorU>>,
    pub border_bottom_color: Option<CssPropertyValue<ColorU>>,
    pub border_top_style: Option<CssPropertyValue<BorderStyle>>,
    pub border_right_style: Option<CssPropertyValue<BorderStyle>>,
    pub border_left_style: Option<CssPropertyValue<BorderStyle>>,
    pub border_bottom_style: Option<CssPropertyValue<BorderStyle>>,
    pub box_shadow_left: Option<CssPropertyValue<BoxShadowPreDisplayItem>>,
    pub box_shadow_right: Option<CssPropertyValue<BoxShadowPreDisplayItem>>,
    pub box_shadow_top: Option<CssPropertyValue<BoxShadowPreDisplayItem>>,
    pub box_shadow_bottom: Option<CssPropertyValue<BoxShadowPreDisplayItem>>,
}

impl Default for RectStyle {
    fn default() -> (value: RectStyle)
        ensures
            value == RectStyle::unset(),
    {
        RectStyle {
            text_color: None,
            font_size: None,
            font_family: None,
            text_align: None,
            letter_spacing: None,
            line_height: None,
            word_spacing: None,
            tab_width: None,
            cursor: None,
            background: None,
            background_position: None,
            background_size: None,
            background_repeat: None,
            border_top_left_radius: None,
            border_top_right_radius: None,
            border_bottom_left_radius: None,
            border_bottom_right_radius: None,
            border_top_color: None,
            border_right_color: None,
            border_left_color: None,
            border_bottom_color: None,
            border_top_style: None,
            border_right_style: None,
            border_left_style: None,
            border_bottom_style: None,
            box_shadow_left: None,
            box_shadow_right: None,
            box_shadow_top: None,
            box_shadow_bottom: None,
        }
    }
}

impl RectStyle {
    /// The record in which no property is set.
    pub open spec fn unset() -> RectStyle {
        RectStyle {
            text_color: None,
            font_size: None,
            font_family: None,
            text_align: None,
            letter_spacing: None,
            line_height: None,
            word_spacing: None,
            tab_width: None,
            cursor: None,
            background: None,
            background_position: None,
            background_size: None,
            background_repeat: None,
            border_top_left_radius: None,
            border_top_right_radius: None,
            border_bottom_left_radius: None,
            border_bottom_right_radius: None,
            border_top_color: None,
            border_right_color: None,
            border_left_color: None,
            border_bottom_color: None,
            border_top_style: None,
            border_right_style: None,
            border_left_style: None,
            border_bottom_style: None,
            box_shadow_left: None,
            box_shadow_right: None,
            box_shadow_top: None,
            box_shadow_bottom: None,
        }
    }
}

/// Box-model attributes of a node, as the layout solver consumes them.
#[derive(Debug, Clone, Copy, PartialEq, Eq, Structural, Hash)]
pub struct RectLayout {
    pub display: Option<CssPropertyValue<LayoutDisplay>>,
    pub float: Option<CssPropertyValue<LayoutFloat>>,
    pub box_sizing: Option<CssPropertyValue<LayoutBoxSizing>>,
    pub width: Option<CssPropertyValue<PixelValue>>,
    pub height: Option<CssPropertyValue<PixelValue>>,
    pub min_width: Option<CssPropertyValue<PixelValue>>,
    pub min_height: Option<CssPropertyValue<PixelValue>>,
    pub max_width: Option<CssPropertyValue<PixelValue>>,
    pub max_height: Option<CssPropertyValue<PixelValue>>,
    pub position: Option<CssPropertyValue<LayoutPosition>>,
    pub top: Option<CssPropertyValue<PixelValue>>,
    pub right: Option<CssPropertyValue<PixelValue>>,
    pub left: Option<CssPropertyValue<PixelValue>>,
    pub bottom: Option<CssPropertyValue<PixelValue>>,
    pub wrap: Option<CssPropertyValue<LayoutWrap>>,
    pub direction: Option<CssPropertyValue<LayoutDirection>>,
    pub flex_grow: Option<CssPropertyValue<FloatValue>>,
    pub flex_shrink: Option<CssPropertyValue<FloatValue>>,
    pub justify_content: Option<CssPropertyValue<LayoutJustifyContent>>,
    pub align_items: Option<CssPropertyValue<LayoutAlignItems>>,
    pub align_content: Option<CssPropertyValue<LayoutAlignContent>>,
    pub overflow_x: Option<CssPropertyValue<Overflow>>,
    pub overflow_y: Option<CssPropertyValue<Overflow>>,
    pub padding_top: Option<CssPropertyValue<PixelValue>>,
    pub padding_left: Option<CssPropertyValue<PixelValue>>,
    pub padding_right: Option<CssPropertyValue<PixelValue>>,
    pub padding_bottom: Option<CssPropertyValue<PixelValue>>,
    pub margin_top: Option<CssPropertyValue<PixelValue>>,
    pub margin_left: Option<CssPropertyValue<PixelValue>>,
    pub margin_right: Option<CssPropertyValue<PixelValue>>,
    pub margin_bottom: Option<CssPropertyValue<PixelValue>>,
    pub border_top_width: Option<CssPropertyValue<PixelValue>>,
    pub border_right_width: Option<CssPropertyValue<PixelValue>>,
    pub border_left_width: Option<CssPropertyValue<PixelValue>>,
    pub border_bottom_width: Option<CssPropertyValue<PixelValue>>,
}

impl Default for RectLayout {
    fn default() -> (value: RectLayout)
        ensures
            value == RectLayout::unset(),
    {
        RectLayout {
            display: None,
            float: None,
            box_sizing: None,
            width: None,
            height: None,
            min_width: None,
            min_height: None,
            max_width: None,
            max_height: None,
            position: None,
            top: None,
            right: None,
            left: None,
            bottom: None,
            wrap: None,
            direction: None,
            flex_grow: None,
            flex_shrink: None,
            justify_content: None,
            align_items: None,
            align_content: None,
            overflow_x: None,
            overflow_y: None,
            padding_top: None,
            padding_left: None,
            padding_right: None,
            padding_bottom: None,
            margin_top: None,
            margin_left: None,
            margin_right: None,
            margin_bottom: None,
            border_top_width: None,
            border_right_width: None,
            border_left_width: None,
            border_bottom_width: None,
        }
    }
}

impl RectLayout {
    /// The record in which no property is set.
    pub open spec fn unset() -> RectLayout {
        RectLayout {
            display: None,
            float: None,
            box_sizing: None,
            width: None,
            height: None,
            min_width: None,
            min_height: None,
            max_width: None,
            max_height: None,
            position: None,
            top: None,
            right: None,
            left: None,
            bottom: None,
            wrap: None,
            direction: None,
            flex_grow: None,
            flex_shrink: None,
            justify_content: None,
            align_items: None,
            align_content: None,
            overflow_x: None,
            overflow_y: None,
            padding_top: None,
            padding_left: None,
            padding_right: None,
            padding_bottom: None,
            margin_top: None,
            margin_left: None,
            margin_right: None,
            margin_bottom: None,
            border_top_width: None,
            border_right_width: None,
            border_left_width: None,
            border_bottom_width: None,
        }
    }
}

impl CssProperty {
    /// The kind of this property.
    pub open spec fn property_type(self) -> CssPropertyType {
        match self {
            CssProperty::TextColor(_) => CssPropertyType::TextColor,
            CssProperty::FontSize(_) => CssPropertyType::FontSize,
            CssProperty::FontFamily(_) => CssPropertyType::FontFamily,
            CssProperty::TextAlign(_) => CssPropertyType::TextAlign,
            CssProperty::LetterSpacing(_) => CssPropertyType::LetterSpacing,
            CssProperty::LineHeight(_) => CssPropertyType::LineHeight,
            CssProperty::WordSpacing(_) => CssPropertyType::WordSpacing,
            CssProperty::TabWidth(_) => CssPropertyType::TabWidth,
            CssProperty::Cursor(_) => CssPropertyType::Cursor,
            CssProperty::Display(_) => CssPropertyType::Display,
            CssProperty::Float(_) => CssPropertyType::Float,
            CssProperty::BoxSizing(_) => CssPropertyType::BoxSizing,
            CssProperty::Width(_) => CssPropertyType::Width,
            CssProperty::Height(_) => CssPropertyType::Height,
            CssProperty::MinWidth(_) => CssPropertyType::MinWidth,
            CssProperty::MinHeight(_) => CssPropertyType::MinHeight,
            CssProperty::MaxWidth(_) => CssPropertyType::MaxWidth,
            CssProperty::MaxHeight(_) => CssPropertyType::MaxHeight,
            CssProperty::Position(_) => CssPropertyType::Position,
            CssProperty::Top(_) => CssPropertyType::Top,
            CssProperty::Right(_) => CssPropertyType::Right,
            CssProperty::Left(_) => CssPropertyType::Left,
            CssProperty::Bottom(_) => CssPropertyType::Bottom,
            CssProperty::FlexWrap(_) => CssPropertyType::FlexWrap,
            CssProperty::FlexDirection(_) => CssPropertyType::FlexDirection,
            CssProperty::FlexGrow(_) => CssPropertyType::FlexGrow,
            CssProperty::FlexShrink(_) => CssPropertyType::FlexShrink,
            CssProperty::JustifyContent(_) => CssPropertyType::JustifyContent,
            CssProperty::AlignItems(_) => CssPropertyType::AlignItems,
            CssProperty::AlignContent(_) => CssPropertyType::AlignContent,
            CssProperty::BackgroundContent(_) => CssPropertyType::BackgroundContent,
            CssProperty::BackgroundPosition(_) => CssPropertyType::BackgroundPosition,
            CssProperty::BackgroundSize(_) => CssPropertyType::BackgroundSize,
            CssProperty::BackgroundRepeat(_) => CssPropertyType::BackgroundRepeat,
            CssProperty::OverflowX(_) => CssPropertyType::OverflowX,
            CssProperty::OverflowY(_) => CssPropertyType::OverflowY,
            CssProperty::PaddingTop(_) => CssPropertyType::PaddingTop,
            CssProperty::PaddingLeft(_) => CssPropertyType::PaddingLeft,
            CssProperty::PaddingRight(_) => CssPropertyType::PaddingRight,
            CssProperty::PaddingBottom(_) => CssPropertyType::PaddingBottom,
            CssProperty::MarginTop(_) => CssPropertyType::MarginTop,
            CssProperty::MarginLeft(_) => CssPropertyType::MarginLeft,
            CssProperty::MarginRight(_) => CssPropertyType::MarginRight,
            CssProperty::MarginBottom(_) => CssPropertyType::MarginBottom,
            CssProperty::BorderTopLeftRadius(_) => CssPropertyType::BorderTopLeftRadius,
            CssProperty::BorderTopRightRadius(_) => CssPropertyType::BorderTopRightRadius,
            CssProperty::BorderBottomLeftRadius(_) => CssPropertyType::BorderBottomLeftRadius,
            CssProperty::BorderBottomRightRadius(_) => CssPropertyType::BorderBottomRightRadius,
            CssProperty::BorderTopColor(_) => CssPropertyType::BorderTopColor,
            CssProperty::BorderRightColor(_) => CssPropertyType::BorderRightColor,
            CssProperty::BorderLeftColor(_) => CssPropertyType::BorderLeftColor,
            CssProperty::BorderBottomColor(_) => CssPropertyType::BorderBottomColor,
            CssProperty::BorderTopStyle(_) => CssPropertyType::BorderTopStyle,
            CssProperty::BorderRightStyle(_) => CssPropertyType::BorderRightStyle,
            CssProperty::BorderLeftStyle(_) => CssPropertyType::BorderLeftStyle,
            CssProperty::BorderBottomStyle(_) => CssPropertyType::BorderBottomStyle,
            CssProperty::BorderTopWidth(_) => CssPropertyType::BorderTopWidth,
            CssProperty::BorderRightWidth(_) => CssPropertyType::BorderRightWidth,
            CssProperty::BorderLeftWidth(_) => CssPropertyType::BorderLeftWidth,
            CssProperty::BorderBottomWidth(_) => CssPropertyType::BorderBottomWidth,
            CssProperty::BoxShadowLeft(_) => CssPropertyType::BoxShadowLeft,
            CssProperty::BoxShadowRight(_) => CssPropertyType::BoxShadowRight,
            CssProperty::BoxShadowTop(_) => CssPropertyType::BoxShadowTop,
            CssProperty::BoxShadowBottom(_) => CssPropertyType::BoxShadowBottom,
        }
    }

    /// The kind of this property.
    pub fn get_type(&self) -> (kind: CssPropertyType)
        ensures
            kind == self.property_type(),
    {
        match self {
            CssProperty::TextColor(_) => CssPropertyType::TextColor,
            CssProperty::FontSize(_) => CssPropertyType::FontSize,
            CssProperty::FontFamily(_) => CssPropertyType::FontFamily,
            CssProperty::TextAlign(_) => CssPropertyType::TextAlign,
            CssProperty::LetterSpacing(_) => CssPropertyType::LetterSpacing,
            CssProperty::LineHeight(_) => CssPropertyType::LineHeight,
            CssProperty::WordSpacing(_) => CssPropertyType::WordSpacing,
            CssProperty::TabWidth(_) => CssPropertyType::TabWidth,
            CssProperty::Cursor(_) => CssPropertyType::Cursor,
            CssProperty::Display(_) => CssPropertyType::Display,
            CssProperty::Float(_) => CssPropertyType::Float,
            CssProperty::BoxSizing(_) => CssPropertyType::BoxSizing,
            CssProperty::Width(_) => CssPropertyType::Width,
            CssProperty::Height(_) => CssPropertyType::Height,
            CssProperty::MinWidth(_) => CssPropertyType::MinWidth,
            CssProperty::MinHeight(_) => CssPropertyType::MinHeight,
            CssProperty::MaxWidth(_) => CssPropertyType::MaxWidth,
            CssProperty::MaxHeight(_) => CssPropertyType::MaxHeight,
            CssProperty::Position(_) => CssPropertyType::Position,
            CssProperty::Top(_) => CssPropertyType::Top,
            CssProperty::Right(_) => CssPropertyType::Right,
            CssProperty::Left(_) => CssPropertyType::Left,
            CssProperty::Bottom(_) => CssPropertyType::Bottom,
            CssProperty::FlexWrap(_) => CssPropertyType::FlexWrap,
            CssProperty::FlexDirection(_) => CssPropertyType::FlexDirection,
            CssProperty::FlexGrow(_) => CssPropertyType::FlexGrow,
            CssProperty::FlexShrink(_) => CssPropertyType::FlexShrink,
            CssProperty::JustifyContent(_) => CssPropertyType::JustifyContent,
            CssProperty::AlignItems(_) => CssPropertyType::AlignItems,
            CssProperty::AlignContent(_) => CssPropertyType::AlignContent,
            CssProperty::BackgroundContent(_) => CssPropertyType::BackgroundContent,
            CssProperty::BackgroundPosition(_) => CssPropertyType::BackgroundPosition,
            CssProperty::BackgroundSize(_) => CssPropertyType::BackgroundSize,
            CssProperty::BackgroundRepeat(_) => CssPropertyType::BackgroundRepeat,
            CssProperty::OverflowX(_) => CssPropertyType::OverflowX,
            CssProperty::OverflowY(_) => CssPropertyType::OverflowY,
            CssProperty::PaddingTop(_) => CssPropertyType::PaddingTop,
            CssProperty::PaddingLeft(_) => CssPropertyType::PaddingLeft,
            CssProperty::PaddingRight(_) => CssPropertyType::PaddingRight,
            CssProperty::PaddingBottom(_) => CssPropertyType::PaddingBottom,
            CssProperty::MarginTop(_) => CssPropertyType::MarginTop,
            CssProperty::MarginLeft(_) => CssPropertyType::MarginLeft,
            CssProperty::MarginRight(_) => CssPropertyType::MarginRight,
            CssProperty::MarginBottom(_) => CssPropertyType::MarginBottom,
            CssProperty::BorderTopLeftRadius(_) => CssPropertyType::BorderTopLeftRadius,
            CssProperty::BorderTopRightRadius(_) => CssPropertyType::BorderTopRightRadius,
            CssProperty::BorderBottomLeftRadius(_) => CssPropertyType::BorderBottomLeftRadius,
            CssProperty::BorderBottomRightRadius(_) => CssPropertyType::BorderBottomRightRadius,
            CssProperty::BorderTopColor(_) => CssPropertyType::BorderTopColor,
            CssProperty::BorderRightColor(_) => CssPropertyType::BorderRightColor,
            CssProperty::BorderLeftColor(_) => CssPropertyType::BorderLeftColor,
            CssProperty::BorderBottomColor(_) => CssPropertyType::BorderBottomColor,
            CssProperty::BorderTopStyle(_) => CssPropertyType::BorderTopStyle,
            CssProperty::BorderRightStyle(_) => CssPropertyType::BorderRightStyle,
            CssProperty::BorderLeftStyle(_) => CssPropertyType::BorderLeftStyle,
            CssProperty::BorderBottomStyle(_) => CssPropertyType::BorderBottomStyle,
            CssProperty::BorderTopWidth(_) => CssPropertyType::BorderTopWidth,
            CssProperty::BorderRightWidth(_) => CssPropertyType::BorderRightWidth,
            CssProperty::BorderLeftWidth(_) => CssPropertyType::BorderLeftWidth,
            CssProperty::BorderBottomWidth(_) => CssPropertyType::BorderBottomWidth,
            CssProperty::BoxShadowLeft(_) => CssPropertyType::BoxShadowLeft,
            CssProperty::BoxShadowRight(_) => CssPropertyType::BoxShadowRight,
            CssProperty::BoxShadowTop(_) => CssPropertyType::BoxShadowTop,
            CssProperty::BoxShadowBottom(_) => CssPropertyType::BoxShadowBottom,
        }
    }
}

impl Clone for CssProperty {
    fn clone(&self) -> (copy: Self)
        ensures
            copy == *self,
    {
        match self {
            CssProperty::TextColor(v) => CssProperty::TextColor(*v),
            CssProperty::FontSize(v) => CssProperty::FontSize(*v),
            CssProperty::FontFamily(v) => CssProperty::FontFamily(clone_font_family(v)),
            CssProperty::TextAlign(v) => CssProperty::TextAlign(*v),
            CssProperty::LetterSpacing(v) => CssProperty::LetterSpacing(*v),
            CssProperty::LineHeight(v) => CssProperty::LineHeight(*v),
            CssProperty::WordSpacing(v) => CssProperty::WordSpacing(*v),
            CssProperty::TabWidth(v) => CssProperty::TabWidth(*v),
            CssProperty::Cursor(v) => CssProperty::Cursor(*v),
            CssProperty::Display(v) => CssProperty::Display(*v),
            CssProperty::Float(v) => CssProperty::Float(*v),
            CssProperty::BoxSizing(v) => CssProperty::BoxSizing(*v),
            CssProperty::Width(v) => CssProperty::Width(*v),
            CssProperty::Height(v) => CssProperty::Height(*v),
            CssProperty::MinWidth(v) => CssProperty::MinWidth(*v),
            CssProperty::MinHeight(v) => CssProperty::MinHeight(*v),
            CssProperty::MaxWidth(v) => CssProperty::MaxWidth(*v),
            CssProperty::MaxHeight(v) => CssProperty::MaxHeight(*v),
            CssProperty::Position(v) => CssProperty::Position(*v),
            CssProperty::Top(v) => CssProperty::Top(*v),
            CssProperty::Right(v) => CssProperty::Right(*v),
            CssProperty::Left(v) => CssProperty::Left(*v),
            CssProperty::Bottom(v) => CssProperty::Bottom(*v),
            CssProperty::FlexWrap(v) => CssProperty::FlexWrap(*v),
            CssProperty::FlexDirection(v) => CssProperty::FlexDirection(*v),
            CssProperty::FlexGrow(v) => CssProperty::FlexGrow(*v),
            CssProperty::FlexShrink(v) => CssProperty::FlexShrink(*v),
            CssProperty::JustifyContent(v) => CssProperty::JustifyContent(*v),
            CssProperty::AlignItems(v) => CssProperty::AlignItems(*v),
            CssProperty::AlignContent(v) => CssProperty::AlignContent(*v),
            CssProperty::BackgroundContent(v) => CssProperty::BackgroundContent(clone_background(v)),
            CssProperty::BackgroundPosition(v) => CssProperty::BackgroundPosition(*v),
            CssProperty::BackgroundSize(v) => CssProperty::BackgroundSize(*v),
            CssProperty::BackgroundRepeat(v) => CssProperty::BackgroundRepeat(*v),
            CssProperty::OverflowX(v) => CssProperty::OverflowX(*v),
            CssProperty::OverflowY(v) => CssProperty::OverflowY(*v),
            CssProperty::PaddingTop(v) => CssProperty::PaddingTop(*v),
            CssProperty::PaddingLeft(v) => CssProperty::PaddingLeft(*v),
            CssProperty::PaddingRight(v) => CssProperty::PaddingRight(*v),
            CssProperty::PaddingBottom(v) => CssProperty::PaddingBottom(*v),
            CssProperty::MarginTop(v) => CssProperty::MarginTop(*v),
            CssProperty::MarginLeft(v) => CssProperty::MarginLeft(*v),
            CssProperty::MarginRight(v) => CssProperty::MarginRight(*v),
            CssProperty::MarginBottom(v) => CssProperty::MarginBottom(*v),
            CssProperty::BorderTopLeftRadius(v) => CssProperty::BorderTopLeftRadius(*v),
            CssProperty::BorderTopRightRadius(v) => CssProperty::BorderTopRightRadius(*v),
            CssProperty::BorderBottomLeftRadius(v) => CssProperty::BorderBottomLeftRadius(*v),
            CssProperty::BorderBottomRightRadius(v) => CssProperty::BorderBottomRightRadius(*v),
            CssProperty::BorderTopColor(v) => CssProperty::BorderTopColor(*v),
            CssProperty::BorderRightColor(v) => CssProperty::BorderRightColor(*v),
            CssProperty::BorderLeftColor(v) => CssProperty::BorderLeftColor(*v),
            CssProperty::BorderBottomColor(v) => CssProperty::BorderBottomColor(*v),
            CssProperty::BorderTopStyle(v) => CssProperty::BorderTopStyle(*v),
            CssProperty::BorderRightStyle(v) => CssProperty::BorderRightStyle(*v),
            CssProperty::BorderLeftStyle(v) => CssProperty::BorderLeftStyle(*v),
            CssProperty::BorderBottomStyle(v) => CssProperty::BorderBottomStyle(*v),
            CssProperty::BorderTopWidth(v) => CssProperty::BorderTopWidth(*v),
            CssProperty::BorderRightWidth(v) => CssProperty::BorderRightWidth(*v),
            CssProperty::BorderLeftWidth(v) => CssProperty::BorderLeftWidth(*v),
            CssProperty::BorderBottomWidth(v) => CssProperty::BorderBottomWidth(*v),
            CssProperty::BoxShadowLeft(v) => CssProperty::BoxShadowLeft(*v),
            CssProperty::BoxShadowRight(v) => CssProperty::BoxShadowRight(*v),
            CssProperty::BoxShadowTop(v) => CssProperty::BoxShadowTop(*v),
            CssProperty::BoxShadowBottom(v) => CssProperty::BoxShadowBottom(*v),
        }
    }
}

/// The style and layout records after `property` is written into them:
/// the one field that the property names holds its value, every other
/// field is as before.
pub open spec fn with_property(style: RectStyle, layout: RectLayout, property: CssProperty) -> (
    RectStyle,
    RectLayout,
) {
    match property {
        CssProperty::TextColor(v) => (
            RectStyle { text_color: Some(v), ..style },
            layout,
        ),
        CssProperty::FontSize(v) => (
            RectStyle { font_size: Some(v), ..style },
            layout,
        ),
        CssProperty::FontFamily(v) => (
            RectStyle { font_family: Some(v), ..style },
            layout,
        ),
        CssProperty::TextAlign(v) => (
            RectStyle { text_align: Some(v), ..style },
            layout,
        ),
        CssProperty::LetterSpacing(v) => (
            RectStyle { letter_spacing: Some(v), ..style },
            layout,
        ),
        CssProperty::LineHeight(v) => (
            RectStyle { line_height: Some(v), ..style },
            layout,
        ),
        CssProperty::WordSpacing(v) => (
            RectStyle { word_spacing: Some(v), ..style },
            layout,
        ),
        CssProperty::TabWidth(v) => (
            RectStyle { tab_width: Some(v), ..style },
            layout,
        ),
        CssProperty::Cursor(v) => (
            RectStyle { cursor: Some(v), ..style },
            layout,
        ),
        CssProperty::Display(v) => (
            style,
            RectLayout { display: Some(v), ..layout },
        ),
        CssProperty::Float(v) => (
            style,
            RectLayout { float: Some(v), ..layout },
        ),
        CssProperty::BoxSizing(v) => (
            style,
            RectLayout { box_sizing: Some(v), ..layout },
        ),
        CssProperty::Width(v) => (
            style,
            RectLayout { width: Some(v), ..layout },
        ),
        CssProperty::Height(v) => (
            style,
            RectLayout { height: Some(v), ..layout },
        ),
        CssProperty::MinWidth(v) => (
            style,
            RectLayout { min_width: Some(v), ..layout },
        ),
        CssProperty::MinHeight(v) => (
            style,
            RectLayout { min_height: Some(v), ..layout },
        ),
        CssProperty::MaxWidth(v) => (
            style,
            RectLayout { max_width: Some(v), ..layout },
        ),
        CssProperty::MaxHeight(v) => (
            style,
            RectLayout { max_height: Some(v), ..layout },
        ),
        CssProperty::Position(v) => (
            style,
            RectLayout { position: Some(v), ..layout },
        ),
        CssProperty::Top(v) => (
            style,
            RectLayout { top: Some(v), ..layout },
        ),
        CssProperty::Right(v) => (
            style,
            RectLayout { right: Some(v), ..layout },
        ),
        CssProperty::Left(v) => (
            style,
            RectLayout { left: Some(v), ..layout },
        ),
        CssProperty::Bottom(v) => (
            style,
            RectLayout { bottom: Some(v), ..layout },
        ),
        CssProperty::FlexWrap(v) => (
            style,
            RectLayout { wrap: Some(v), ..layout },
        ),
        CssProperty::FlexDirection(v) => (
            style,
            RectLayout { direction: Some(v), ..layout },
        ),
        CssProperty::FlexGrow(v) => (
            style,
            RectLayout { flex_grow: Some(v), ..layout },
        ),
        CssProperty::FlexShrink(v) => (
            style,
            RectLayout { flex_shrink: Some(v), ..layout },
        ),
        CssProperty::JustifyContent(v) => (
            style,
            RectLayout { justify_content: Some(v), ..layout },
        ),
        CssProperty::AlignItems(v) => (
            style,
            RectLayout { align_items: Some(v), ..layout },
        ),
        CssProperty::AlignContent(v) => (
            style,
            RectLayout { align_content: Some(v), ..layout },
        ),
        CssProperty::BackgroundContent(v) => (
            RectStyle { background: Some(v), ..style },
            layout,
        ),
        CssProperty::BackgroundPosition(v) => (
            RectStyle { background_position: Some(v), ..style },
            layout,
        ),
        CssProperty::BackgroundSize(v) => (
            RectStyle { background_size: Some(v), ..style },
            layout,
        ),
        CssProperty::BackgroundRepeat(v) => (
            RectStyle { background_repeat: Some(v), ..style },
            layout,
        ),
        CssProperty::OverflowX(v) => (
            style,
            RectLayout { overflow_x: Some(v), ..layout },
        ),
        CssProperty::OverflowY(v) => (
            style,
            RectLayout { overflow_y: Some(v), ..layout },
        ),
        CssProperty::PaddingTop(v) => (
            style,
            RectLayout { padding_top: Some(v), ..layout },
        ),
        CssProperty::PaddingLeft(v) => (
            style,
            RectLayout { padding_left: Some(v), ..layout },
        ),
        CssProperty::PaddingRight(v) => (
            style,
            RectLayout { padding_right: Some(v), ..layout },
        ),
        CssProperty::PaddingBottom(v) => (
            style,
            RectLayout { padding_bottom: Some(v), ..layout },
        ),
        CssProperty::MarginTop(v) => (
            style,
            RectLayout { margin_top: Some(v), ..layout },
        ),
        CssProperty::MarginLeft(v) => (
            style,
            RectLayout { margin_left: Some(v), ..layout },
        ),
        CssProperty::MarginRight(v) => (
            style,
            RectLayout { margin_right: Some(v), ..layout },
        ),
        CssProperty::MarginBottom(v) => (
            style,
            RectLayout { margin_bottom: Some(v), ..layout },
        ),
        CssProperty::BorderTopLeftRadius(v) => (
            RectStyle { border_top_left_radius: Some(v), ..style },
            layout,
        ),
        CssProperty::BorderTopRightRadius(v) => (
            RectStyle { border_top_right_radius: Some(v), ..style },
            layout,
        ),
        CssProperty::BorderBottomLeftRadius(v) => (
            RectStyle { border_bottom_left_radius: Some(v), ..style },
            layout,
        ),
        CssProperty::BorderBottomRightRadius(v) => (
            RectStyle { border_bottom_right_radius: Some(v), ..style },
            layout,
        ),
        CssProperty::BorderTopColor(v) => (
            RectStyle { border_top_color: Some(v), ..style },
            layout,
        ),
        CssProperty::BorderRightColor(v) => (
            RectStyle { border_right_color: Some(v), ..style },
            layout,
        ),
        CssProperty::BorderLeftColor(v) => (
            RectStyle { border_left_color: Some(v), ..style },
            layout,
        ),
        CssProperty::BorderBottomColor(v) => (
            RectStyle { border_bottom_color: Some(v), ..style },
            layout,
        ),
        CssProperty::BorderTopStyle(v) => (
            RectStyle { border_top_style: Some(v), ..style },
            layout,
        ),
        CssProperty::BorderRightStyle(v) => (
            RectStyle { border_right_style: Some(v), ..style },
            layout,
        ),
        CssProperty::BorderLeftStyle(v) => (
            RectStyle { border_left_style: Some(v), ..style },
            layout,
        ),
        CssProperty::BorderBottomStyle(v) => (
            RectStyle { border_bottom_style: Some(v), ..style },
            layout,
        ),
        CssProperty::BorderTopWidth(v) => (
            style,
            RectLayout { border_top_width: Some(v), ..layout },
        ),
        CssProperty::BorderRightWidth(v) => (
            style,
            RectLayout { border_right_width: Some(v), ..layout },
        ),
        CssProperty::BorderLeftWidth(v) => (
            style,
            RectLayout { border_left_width: Some(v), ..layout },
        ),
        CssProperty::BorderBottomWidth(v) => (
            style,
            RectLayout { border_bottom_width: Some(v), ..layout },
        ),
        CssProperty::BoxShadowLeft(v) => (
            RectStyle { box_shadow_left: Some(v), ..style },
            layout,
        ),
        CssProperty::BoxShadowRight(v) => (
            RectStyle { box_shadow_right: Some(v), ..style },
            layout,
        ),
        CssProperty::BoxShadowTop(v) => (
            RectStyle { box_shadow_top: Some(v), ..style },
            layout,
        ),
        CssProperty::BoxShadowBottom(v) => (
            RectStyle { box_shadow_bottom: Some(v), ..style },
            layout,
        ),
    }
}

/// Writes `property` into the field of `style` or `layout` that it names.
pub fn apply_style_property(style: &mut RectStyle, layout: &mut RectLayout, property: &CssProperty)
    ensures
        (*final(style), *final(layout)) == with_property(*old(style), *old(layout), *property),
{
    match property {
        CssProperty::TextColor(v) => {
            style.text_color = Some(*v);
        },
        CssProperty::FontSize(v) => {
            style.font_size = Some(*v);
        },
        CssProperty::FontFamily(v) => {
            style.font_family = Some(clone_font_family(v));
        },
        CssProperty::TextAlign(v) => {
            style.text_align = Some(*v);
        },
        CssProperty::LetterSpacing(v) => {
            style.letter_spacing = Some(*v);
        },
        CssProperty::LineHeight(v) => {
            style.line_height = Some(*v);
        },
        CssProperty::WordSpacing(v) => {
            style.word_spacing = Some(*v);
        },
        CssProperty::TabWidth(v) => {
            style.tab_width = Some(*v);
        },
        CssProperty::Cursor(v) => {
            style.cursor = Some(*v);
        },
        CssProperty::Display(v) => {
            layout.display = Some(*v);
        },
        CssProperty::Float(v) => {
            layout.float = Some(*v);
        },
        CssProperty::BoxSizing(v) => {
            layout.box_sizing = Some(*v);
        },
        CssProperty::Width(v) => {
            layout.width = Some(*v);
        },
        CssProperty::Height(v) => {
            layout.height = Some(*v);
        },
        CssProperty::MinWidth(v) => {
            layout.min_width = Some(*v);
        },
        CssProperty::MinHeight(v) => {
            layout.min_height = Some(*v);
        },
        CssProperty::MaxWidth(v) => {
            layout.max_width = Some(*v);
        },
        CssProperty::MaxHeight(v) => {
            layout.max_height = Some(*v);
        },
        CssProperty::Position(v) => {
            layout.position = Some(*v);
        },
        CssProperty::Top(v) => {
            layout.top = Some(*v);
        },
        CssProperty::Right(v) => {
            layout.right = Some(*v);
        },
        CssProperty::Left(v) => {
            layout.left = Some(*v);
        },
        CssProperty::Bottom(v) => {
            layout.bottom = Some(*v);
        },
        CssProperty::FlexWrap(v) => {
            layout.wrap = Some(*v);
        },
        CssProperty::FlexDirection(v) => {
            layout.direction = Some(*v);
        },
        CssProperty::FlexGrow(v) => {
            layout.flex_grow = Some(*v);
        },
        CssProperty::FlexShrink(v) => {
            layout.flex_shrink = Some(*v);
        },
        CssProperty::JustifyContent(v) => {
            layout.justify_content = Some(*v);
        },
        CssProperty::AlignItems(v) => {
            layout.align_items = Some(*v);
        },
        CssProperty::AlignContent(v) => {
            layout.align_content = Some(*v);
        },
        CssProperty::BackgroundContent(v) => {
            style.background = Some(clone_background(v));
        },
        CssProperty::BackgroundPosition(v) => {
            style.background_position = Some(*v);
        },
        CssProperty::BackgroundSize(v) => {
            style.background_size = Some(*v);
        },
        CssProperty::BackgroundRepeat(v) => {
            style.background_repeat = Some(*v);
        },
        CssProperty::OverflowX(v) => {
            layout.overflow_x = Some(*v);
        },
        CssProperty::OverflowY(v) => {
            layout.overflow_y = Some(*v);
        },
        CssProperty::PaddingTop(v) => {
            layout.padding_top = Some(*v);
        },
        CssProperty::PaddingLeft(v) => {
            layout.padding_left = Some(*v);
        },
        CssProperty::PaddingRight(v) => {
            layout.padding_right = Some(*v);
        },
        CssProperty::PaddingBottom(v) => {
            layout.padding_bottom = Some(*v);
        },
        CssProperty::MarginTop(v) => {
            layout.margin_top = Some(*v);
        },
        CssProperty::MarginLeft(v) => {
            layout.margin_left = Some(*v);
        },
        CssProperty::MarginRight(v) => {
            layout.margin_right = Some(*v);
        },
        CssProperty::MarginBottom(v) => {
            layout.margin_bottom = Some(*v);
        },
        CssProperty::BorderTopLeftRadius(v) => {
            style.border_top_left_radius = Some(*v);
        },
        CssProperty::BorderTopRightRadius(v) => {
            style.border_top_right_radius = Some(*v);
        },
        CssProperty::BorderBottomLeftRadius(v) => {
            style.border_bottom_left_radius = Some(*v);
        },
        CssProperty::BorderBottomRightRadius(v) => {
            style.border_bottom_right_radius = Some(*v);
        },
        CssProperty::BorderTopColor(v) => {
            style.border_top_color = Some(*v);
        },
        CssProperty::BorderRightColor(v) => {
            style.border_right_color = Some(*v);
        },
        CssProperty::BorderLeftColor(v) => {
            style.border_left_color = Some(*v);
        },
        CssProperty::BorderBottomColor(v) => {
            style.border_bottom_color = Some(*v);
        },
        CssProperty::BorderTopStyle(v) => {
            style.border_top_style = Some(*v);
        },
        CssProperty::BorderRightStyle(v) => {
            style.border_right_style = Some(*v);
        },
        CssProperty::BorderLeftStyle(v) => {
            style.border_left_style = Some(*v);
        },
        CssProperty::BorderBottomStyle(v) => {
            style.border_bottom_style = Some(*v);
        },
        CssProperty::BorderTopWidth(v) => {
            layout.border_top_width = Some(*v);
        },
        CssProperty::BorderRightWidth(v) => {
            layout.border_right_width = Some(*v);
        },
        CssProperty::BorderLeftWidth(v) => {
            layout.border_left_width = Some(*v);
        },
        CssProperty::BorderBottomWidth(v) => {
            layout.border_bottom_width = Some(*v);
        },
        CssProperty::BoxShadowLeft(v) => {
            style.box_shadow_left = Some(*v);
        },
        CssProperty::BoxShadowRight(v) => {
            style.box_shadow_right = Some(*v);
        },
        CssProperty::BoxShadowTop(v) => {
            style.box_shadow_top = Some(*v);
        },
        CssProperty::BoxShadowBottom(v) => {
            style.box_shadow_bottom = Some(*v);
        },
    }
}

} // verus!
