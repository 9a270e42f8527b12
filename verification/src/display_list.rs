//! The display list: the tree of frames and paint items that one frame of
//! the user interface consists of, and how it is built from the styled and
//! laid-out node tree.

use vstd::prelude::*;
use vstd::hash_map::StringHashMap;
use std::collections::BTreeMap;
use std::rc::Rc;
use crate::css::{
    share, BorderStyle, BoxShadowClipMode, BoxShadowPreDisplayItem, ColorU, CssPropertyValue,
    LinearGradient, Overflow, PixelValue, RadialGradient, RectLayout, RectStyle,
    StyleBackgroundContent, StyleBackgroundPosition, StyleBackgroundRepeat, StyleBackgroundSize,
};
use crate::geometry::{subtract_padding, LayoutPoint, LayoutRect, LayoutSize, ResolvedOffsets};
use crate::id_tree::{NodeDataContainer, NodeId};
use crate::rendering_order::{
    group_in_range, group_is_in_range, ContentGroup, ContentGroupView, DisplayRectangle,
};
use crate::gl::{insert_into_active_gl_textures, ActiveTexture, Texture, TextureRegistry};
use crate::resources::{
    Epoch, ExternalImageId, FontInstanceKey, ImageDescriptor, ImageId, ImageInfo, ImageKey,
    PipelineId, RawImageFormat,
};
use crate::scroll_clip::{ExternalScrollId, PositionedRectangle, ScrollTagId, ScrolledNodes};

verus! {

broadcast use vstd::std_specs::btree::group_btree_axioms;

/// The computed styles of all nodes of one tree.
#[derive(Debug)]
pub struct DisplayList {
    pub rectangles: NodeDataContainer<DisplayRectangle>,
}

/// One positioned glyph of a text run.
#[derive(Debug, Clone, Copy, PartialEq, Eq, Structural, Hash)]
pub struct GlyphInstance {
    pub index: u32,
    pub point: LayoutPoint,
}

/// The glyphs of a text node, as text layout positioned them. The run is
/// shared, never copied: a clone refers to the same glyphs.
#[derive(Debug, PartialEq, Eq, Hash)]
pub struct LayoutedGlyphs {
    pub glyphs: Rc<Vec<GlyphInstance>>,
}

/// How an image is resampled when it is scaled.
#[derive(Debug, Clone, Copy, PartialEq, Eq, Structural, Hash)]
pub enum ImageRendering {
    Auto,
    CrispEdges,
    Pixelated,
}

/// Whether the color channels of an image are already multiplied by alpha.
#[derive(Debug, Clone, Copy, PartialEq, Eq, Structural, Hash)]
pub enum AlphaType {
    Alpha,
    PremultipliedAlpha,
}

/// How glyphs are rasterized.
#[derive(Debug, Clone, Copy, PartialEq, Eq, Structural, Hash)]
pub struct GlyphOptions {
    pub render_subpixel: bool,
    pub synthetic_italics: bool,
}

/// The four corner radii of a frame.
#[derive(Debug, Clone, Copy, PartialEq, Eq, Structural, Hash)]
pub struct StyleBorderRadius {
    pub top_left: Option<CssPropertyValue<PixelValue>>,
    pub top_right: Option<CssPropertyValue<PixelValue>>,
    pub bottom_left: Option<CssPropertyValue<PixelValue>>,
    pub bottom_right: Option<CssPropertyValue<PixelValue>>,
}

/// The widths of the four borders of a frame.
#[derive(Debug, Clone, Copy, PartialEq, Eq, Structural, Hash)]
pub struct StyleBorderWidths {
    pub top: Option<CssPropertyValue<PixelValue>>,
    pub left: Option<CssPropertyValue<PixelValue>>,
    pub bottom: Option<CssPropertyValue<PixelValue>>,
    pub right: Option<CssPropertyValue<PixelValue>>,
}

/// The colors of the four borders of a frame.
#[derive(Debug, Clone, Copy, PartialEq, Eq, Structural, Hash)]
pub struct StyleBorderColors {
    pub top: Option<CssPropertyValue<ColorU>>,
    pub left: Option<CssPropertyValue<ColorU>>,
    pub bottom: Option<CssPropertyValue<ColorU>>,
    pub right: Option<CssPropertyValue<ColorU>>,
}

/// The styles of the four borders of a frame.
#[derive(Debug, Clone, Copy, PartialEq, Eq, Structural, Hash)]
pub struct StyleBorderStyles {
    pub top: Option<CssPropertyValue<BorderStyle>>,
    pub left: Option<CssPropertyValue<BorderStyle>>,
    pub bottom: Option<CssPropertyValue<BorderStyle>>,
    pub right: Option<CssPropertyValue<BorderStyle>>,
}

/// The shadows on the four sides of a frame.
#[derive(Debug, Clone, Copy, PartialEq, Eq, Structural, Hash)]
pub struct StyleBoxShadow {
    pub left: Option<CssPropertyValue<BoxShadowPreDisplayItem>>,
    pub right: Option<CssPropertyValue<BoxShadowPreDisplayItem>>,
    pub top: Option<CssPropertyValue<BoxShadowPreDisplayItem>>,
    pub bottom: Option<CssPropertyValue<BoxShadowPreDisplayItem>>,
}

/// What a background is filled with.
#[derive(Debug, PartialEq, Eq, Hash)]
pub enum RectBackground {
    LinearGradient(LinearGradient),
    RadialGradient(RadialGradient),
    Image(ImageInfo),
    Color(ColorU),
}

/// One paint item of a frame.
#[derive(Debug, PartialEq, Eq, Hash)]
#[allow(inconsistent_fields)]
pub enum LayoutRectContent {
    Text {
        glyphs: Rc<Vec<GlyphInstance>>,
        font_instance_key: FontInstanceKey,
        color: ColorU,
        glyph_options: Option<GlyphOptions>,
        clip: Option<LayoutRect>,
    },
    Background {
        content: RectBackground,
        size: Option<StyleBackgroundSize>,
        offset: Option<StyleBackgroundPosition>,
        repeat: Option<StyleBackgroundRepeat>,
    },
    Image {
        size: LayoutSize,
        offset: LayoutPoint,
        image_rendering: ImageRendering,
        alpha_type: AlphaType,
        image_key: ImageKey,
        background_color: ColorU,
    },
    Border { widths: StyleBorderWidths, colors: StyleBorderColors, styles: StyleBorderStyles },
    BoxShadow { shadow: StyleBoxShadow, clip_mode: BoxShadowClipMode },
}

/// A frame of the display list: a rectangle, what is painted in it, in
/// order, and the frames below it.
#[derive(Debug, PartialEq)]
pub struct DisplayListFrame {
    pub tag: Option<(u64, u16)>,
    pub clip_rect: Option<LayoutRect>,
    pub rect: LayoutRect,
    pub border_radius: StyleBorderRadius,
    pub content: Vec<LayoutRectContent>,
    pub children: Vec<DisplayListMsg>,
}

/// A frame that clips its content and scrolls it.
#[derive(Debug, PartialEq)]
pub struct DisplayListScrollFrame {
    /// Bounding rectangle of the content that is scrolled
    pub content_rect: LayoutRect,
    /// Identity under which the scroll position is kept across frames
    pub scroll_id: ExternalScrollId,
    /// Tag by which a hit test finds the scroll frame
    pub scroll_tag: ScrollTagId,
    /// The frame that is scrolled
    pub frame: DisplayListFrame,
}

/// A node of the display list.
#[derive(Debug, PartialEq)]
pub enum DisplayListMsg {
    Frame(DisplayListFrame),
    ScrollFrame(DisplayListScrollFrame),
}

/// The mathematical value of a `DisplayListFrame`.
pub struct DisplayListFrameView {
    pub tag: Option<(u64, u16)>,
    pub clip_rect: Option<LayoutRect>,
    pub rect: LayoutRect,
    pub border_radius: StyleBorderRadius,
    pub content: Seq<LayoutRectContent>,
    pub children: Seq<DisplayListMsgView>,
}

/// The mathematical value of a `DisplayListMsg`.
pub enum DisplayListMsgView {
    Frame(DisplayListFrameView),
    ScrollFrame {
        content_rect: LayoutRect,
        scroll_id: ExternalScrollId,
        scroll_tag: ScrollTagId,
        frame: DisplayListFrameView,
    },
}

/// The mathematical value of the frame `frame`.
pub open spec fn frame_view(frame: DisplayListFrame) -> DisplayListFrameView
    decreases frame,
{
    DisplayListFrameView {
        tag: frame.tag,
        clip_rect: frame.clip_rect,
        rect: frame.rect,
        border_radius: frame.border_radius,
        content: frame.content@,
        children: Seq::new(
            frame.children@.len(),
            |i: int|
                if 0 <= i < frame.children@.len() {
                    match frame.children@[i] {
                        DisplayListMsg::Frame(child) => DisplayListMsgView::Frame(frame_view(child)),
                        DisplayListMsg::ScrollFrame(scroll) => DisplayListMsgView::ScrollFrame {
                            content_rect: scroll.content_rect,
                            scroll_id: scroll.scroll_id,
                            scroll_tag: scroll.scroll_tag,
                            frame: frame_view(scroll.frame),
                        },
                    }
                } else {
                    arbitrary()
                },
        ),
    }
}

impl View for DisplayListFrame {
    type V = DisplayListFrameView;

    open spec fn view(&self) -> DisplayListFrameView {
        frame_view(*self)
    }
}

impl View for DisplayListMsg {
    type V = DisplayListMsgView;

    open spec fn view(&self) -> DisplayListMsgView {
        match self {
            DisplayListMsg::Frame(frame) => DisplayListMsgView::Frame(frame_view(*frame)),
            DisplayListMsg::ScrollFrame(scroll) => DisplayListMsgView::ScrollFrame {
                content_rect: scroll.content_rect,
                scroll_id: scroll.scroll_id,
                scroll_tag: scroll.scroll_tag,
                frame: frame_view(scroll.frame),
            },
        }
    }
}

impl DisplayListMsgView {
    /// The frame of this node, whether it scrolls or not.
    pub open spec fn frame(self) -> DisplayListFrameView {
        match self {
            DisplayListMsgView::Frame(frame) => frame,
            DisplayListMsgView::ScrollFrame { frame, .. } => frame,
        }
    }

    /// This node with `children` appended to the children of its frame.
    pub open spec fn with_children(self, children: Seq<DisplayListMsgView>) -> DisplayListMsgView {
        match self {
            DisplayListMsgView::Frame(frame) => DisplayListMsgView::Frame(
                DisplayListFrameView { children: frame.children + children, ..frame },
            ),
            DisplayListMsgView::ScrollFrame { content_rect, scroll_id, scroll_tag, frame } => DisplayListMsgView::ScrollFrame {
                content_rect,
                scroll_id,
                scroll_tag,
                frame: DisplayListFrameView { children: frame.children + children, ..frame },
            },
        }
    }
}

/// The views of the nodes of `children`, in order.
pub open spec fn views_of(children: Seq<DisplayListMsg>) -> Seq<DisplayListMsgView> {
    Seq::new(children.len(), |i: int| children[i]@)
}

impl DisplayListMsg {
    /// Appends `children` to the children of this node's frame.
    pub fn append_children(&mut self, children: Vec<DisplayListMsg>)
        ensures
            final(self)@ == old(self)@.with_children(views_of(children@)),
    {
        let mut children = children;
        match self {
            DisplayListMsg::Frame(frame) => {
                extend_children(frame, &mut children);
            },
            DisplayListMsg::ScrollFrame(scroll) => {
                extend_children(&mut scroll.frame, &mut children);
            },
        }
    }
}

/// Moves `children` to the end of the children of `frame`.
fn extend_children(frame: &mut DisplayListFrame, children: &mut Vec<DisplayListMsg>)
    ensures
        final(frame)@ == (DisplayListFrameView {
            children: old(frame)@.children + views_of(old(children)@),
            ..old(frame)@
        }),
{
    let ghost appended = children@;
    let ghost old_children = frame.children@;
    frame.children.append(children);
    assert(frame.children@ == old_children + appended);
    assert forall|i: int| 0 <= i < frame.children@.len() implies (#[trigger] frame.children@[i])@ == (
    old(frame)@.children + views_of(appended))[i] by {
        if i < old_children.len() {
            assert(frame.children@[i] == old_children[i]);
        } else {
            assert(frame.children@[i] == appended[i - old_children.len()]);
        }
    }
    assert(frame@.children =~= old(frame)@.children + views_of(appended));
}

/// The color that text is drawn in when its style names none.
pub open spec fn default_font_color() -> ColorU {
    ColorU { r: 0, b: 0, g: 0, a: 255 }
}

impl RectLayout {
    /// Whether content may be drawn beyond the sides of the box:
    /// `overflow-x: visible`.
    pub open spec fn horizontal_overflow_visible(self) -> bool {
        self.overflow_x == Some(CssPropertyValue::Exact(Overflow::Visible))
    }

    /// Whether content may be drawn beyond the top and bottom of the box:
    /// `overflow-y: visible`.
    pub open spec fn vertical_overflow_visible(self) -> bool {
        self.overflow_y == Some(CssPropertyValue::Exact(Overflow::Visible))
    }

    /// Whether `overflow-x` is set to `visible`.
    pub fn is_horizontal_overflow_visible(&self) -> (visible: bool)
        ensures
            visible == self.horizontal_overflow_visible(),
    {
        match self.overflow_x {
            Some(CssPropertyValue::Exact(Overflow::Visible)) => true,
            _ => false,
        }
    }

    /// Whether `overflow-y` is set to `visible`.
    pub fn is_vertical_overflow_visible(&self) -> (visible: bool)
        ensures
            visible == self.vertical_overflow_visible(),
    {
        match self.overflow_y {
            Some(CssPropertyValue::Exact(Overflow::Visible)) => true,
            _ => false,
        }
    }
}

/// Whether a node clips its children: neither of its two overflows is
/// `visible`. An unset overflow clips.
pub fn node_needs_to_clip_children(layout: &RectLayout) -> (clips: bool)
    ensures
        clips == !(layout.horizontal_overflow_visible() || layout.vertical_overflow_visible()),
{
    !(layout.is_horizontal_overflow_visible() || layout.is_vertical_overflow_visible())
}

/// The rectangle that the text of a node is clipped to, if it is clipped.
///
/// Each axis is decided on its own. Where the overflow of an axis is
/// visible, the clip spans the window along that axis; where it is not,
/// the clip spans the bounds less the padding. Text whose overflow is
/// visible on both axes is not clipped at all.
pub open spec fn text_clip_rect(
    bounds: LayoutRect,
    padding: ResolvedOffsets,
    root_window_size: LayoutSize,
    layout: RectLayout,
) -> Option<LayoutRect> {
    let padded = LayoutRect {
        origin: LayoutPoint {
            x: (bounds.origin.x + padding.left) as i64,
            y: (bounds.origin.y + padding.top) as i64,
        },
        size: LayoutSize {
            width: (bounds.size.width - (padding.right + padding.left)) as i64,
            height: (bounds.size.height - (padding.top + padding.bottom)) as i64,
        },
    };
    match (layout.horizontal_overflow_visible(), layout.vertical_overflow_visible()) {
        (true, true) => None,
        (false, false) => Some(padded),
        (true, false) => Some(
            LayoutRect {
                origin: bounds.origin,
                size: LayoutSize { width: root_window_size.width, height: padded.size.height },
            },
        ),
        (false, true) => Some(
            LayoutRect {
                origin: bounds.origin,
                size: LayoutSize { width: padded.size.width, height: root_window_size.height },
            },
        ),
    }
}

/// The paint item for the text of a node.
pub fn get_text(
    bounds: LayoutRect,
    padding: &ResolvedOffsets,
    root_window_size: LayoutSize,
    layouted_glyphs: LayoutedGlyphs,
    font_instance_key: FontInstanceKey,
    font_color: ColorU,
    rect_layout: &RectLayout,
) -> (content: LayoutRectContent)
    requires
        bounds.in_range(),
        padding.in_range(),
    ensures
        content == (LayoutRectContent::Text {
            glyphs: layouted_glyphs.glyphs,
            font_instance_key,
            color: font_color,
            glyph_options: None,
            clip: text_clip_rect(bounds, *padding, root_window_size, *rect_layout),
        }),
{
    let overflow_horizontal_visible = rect_layout.is_horizontal_overflow_visible();
    let overflow_vertical_visible = rect_layout.is_vertical_overflow_visible();

    let padding_clip_bounds = subtract_padding(&bounds, padding);

    // Adjust the bounds by the padding, depending on the overflow:visible parameter
    let text_clip_rect = match (overflow_horizontal_visible, overflow_vertical_visible) {
        (true, true) => None,
        (false, false) => Some(padding_clip_bounds),
        (true, false) => {
            // Horizontally visible, vertically cut
            Some(
                LayoutRect {
                    origin: bounds.origin,
                    size: LayoutSize::new(root_window_size.width, padding_clip_bounds.size.height),
                },
            )
        },
        (false, true) => {
            // Vertically visible, horizontally cut
            Some(
                LayoutRect {
                    origin: bounds.origin,
                    size: LayoutSize::new(padding_clip_bounds.size.width, root_window_size.height),
                },
            )
        },
    };

    LayoutRectContent::Text {
        glyphs: layouted_glyphs.glyphs,
        font_instance_key,
        color: font_color,
        glyph_options: None,
        clip: text_clip_rect,
    }
}

/// Identity of one node tree among the trees of a window: the window's own
/// tree and the trees embedded in it.
#[derive(Debug, Clone, Copy, PartialEq, Eq, Structural, Hash, PartialOrd, Ord)]
pub struct DomId(pub usize);

/// Identity of a text in the text cache.
#[derive(Debug, Clone, Copy, PartialEq, Eq, Structural, Hash, PartialOrd, Ord)]
pub struct TextId(pub u64);

/// What kind of content a node shows.
#[derive(Debug, PartialEq, Eq, Hash)]
pub enum NodeType {
    /// A rectangle without content of its own
    Div,
    /// A line of text that the node holds itself
    Label(String),
    /// A text from the text cache
    Text(TextId),
    /// An image from the resource cache
    Image(ImageId),
    /// A texture that a callback rendered for this frame
    GlTexture,
    /// An embedded node tree
    IFrame,
}

/// What the layout solver and text layout computed for one node tree.
#[derive(Debug)]
pub struct LayoutResult {
    /// Position of each node
    pub rects: NodeDataContainer<PositionedRectangle>,
    /// Glyph run of each text node, by the node's index
    pub layouted_glyph_cache: BTreeMap<usize, LayoutedGlyphs>,
    /// Font instance that each text node is set in, by the node's index
    pub positioned_word_cache: BTreeMap<usize, FontInstanceKey>,
    /// The nodes that have children, each with its depth in the tree
    pub node_depths: Vec<(usize, NodeId)>,
}

/// The image that each name of a stylesheet stands for.
pub type CssImageIds = StringHashMap<ImageId>;

/// The images that the resource cache holds.
pub struct AppResources {
    /// The image that each name of a stylesheet stands for
    pub css_ids_to_image_ids: CssImageIds,
    /// The images that are registered with the rasterizer, by pipeline
    pub currently_registered_images: Vec<(PipelineId, ImageId, ImageInfo)>,
}

/// The image that `names` holds under the name `name`, if any.
pub open spec fn css_image_id(names: Map<Seq<char>, ImageId>, name: Seq<char>) -> Option<ImageId> {
    if names.contains_key(name) {
        Some(names[name])
    } else {
        None
    }
}

/// What the first entry of `images` for `image_id` in `pipeline_id` gives.
pub open spec fn image_info(
    images: Seq<(PipelineId, ImageId, ImageInfo)>,
    pipeline_id: PipelineId,
    image_id: ImageId,
) -> Option<ImageInfo>
    decreases images.len(),
{
    if images.len() == 0 {
        None
    } else if images[0].0 == pipeline_id && images[0].1 == image_id {
        Some(images[0].2)
    } else {
        image_info(images.drop_first(), pipeline_id, image_id)
    }
}

impl AppResources {
    /// The image that a stylesheet means by `css_id`, if it is known.
    pub fn get_css_image_id(&self, css_id: &String) -> (image_id: Option<ImageId>)
        ensures
            image_id == css_image_id(self.css_ids_to_image_ids@, css_id@),
    {
        match self.css_ids_to_image_ids.get(css_id.as_str()) {
            Some(image_id) => Some(*image_id),
            None => None,
        }
    }

    /// What the rasterizer knows of `image_id` in `pipeline_id`, if the
    /// image is registered there.
    pub fn get_image_info(&self, pipeline_id: &PipelineId, image_id: &ImageId) -> (info: Option<
        ImageInfo,
    >)
        ensures
            info == image_info(self.currently_registered_images@, *pipeline_id, *image_id),
    {
        let mut i: usize = 0;
        assert(self.currently_registered_images@.skip(0) =~= self.currently_registered_images@);
        while i < self.currently_registered_images.len()
            invariant
                i <= self.currently_registered_images.len(),
                image_info(self.currently_registered_images@, *pipeline_id, *image_id)
                    == image_info(
                    self.currently_registered_images@.skip(i as int),
                    *pipeline_id,
                    *image_id,
                ),
            decreases self.currently_registered_images.len() - i,
        {
            let entry = &self.currently_registered_images[i];
            if entry.0.0 == pipeline_id.0 && entry.0.1 == pipeline_id.1 && entry.1.0 == image_id.0 {
                return Some(entry.2);
            }
            assert(self.currently_registered_images@.skip(i as int).drop_first()
                =~= self.currently_registered_images@.skip(i + 1));
            i = i + 1;
        }
        None
    }
}

/// Whether a property is set to an exact value.
pub open spec fn is_exact<T>(value: Option<CssPropertyValue<T>>) -> bool {
    value matches Some(CssPropertyValue::Exact(_))
}

/// The exact value of a property, if it is set to one.
pub open spec fn exact_value<T>(value: Option<CssPropertyValue<T>>) -> Option<T> {
    match value {
        Some(CssPropertyValue::Exact(v)) => Some(v),
        _ => None,
    }
}

/// The exact value of a property, if it is set to one.
fn get_exact<T: Copy>(value: &Option<CssPropertyValue<T>>) -> (exact: Option<T>)
    ensures
        exact == exact_value(*value),
{
    match value {
        Some(CssPropertyValue::Exact(v)) => Some(*v),
        _ => None,
    }
}

impl RectStyle {
    /// Whether a shadow is set on at least one side.
    pub open spec fn shows_box_shadow(self) -> bool {
        is_exact(self.box_shadow_left) || is_exact(self.box_shadow_right) || is_exact(
            self.box_shadow_top,
        ) || is_exact(self.box_shadow_bottom)
    }

    /// Whether a border style is set on at least one side.
    pub open spec fn shows_border(self) -> bool {
        is_exact(self.border_top_style) || is_exact(self.border_left_style) || is_exact(
            self.border_right_style,
        ) || is_exact(self.border_bottom_style)
    }

    /// The shadows of the four sides.
    pub open spec fn box_shadow(self) -> StyleBoxShadow {
        StyleBoxShadow {
            left: self.box_shadow_left,
            right: self.box_shadow_right,
            top: self.box_shadow_top,
            bottom: self.box_shadow_bottom,
        }
    }

    /// The radii of the four corners.
    pub open spec fn border_radius(self) -> StyleBorderRadius {
        StyleBorderRadius {
            top_left: self.border_top_left_radius,
            top_right: self.border_top_right_radius,
            bottom_left: self.border_bottom_left_radius,
            bottom_right: self.border_bottom_right_radius,
        }
    }

    /// Whether a shadow is set on at least one side.
    pub fn has_box_shadow(&self) -> (shown: bool)
        ensures
            shown == self.shows_box_shadow(),
    {
        get_exact(&self.box_shadow_left).is_some() || get_exact(&self.box_shadow_right).is_some()
            || get_exact(&self.box_shadow_top).is_some() || get_exact(
            &self.box_shadow_bottom,
        ).is_some()
    }

    /// Whether a border style is set on at least one side.
    pub fn has_border(&self) -> (shown: bool)
        ensures
            shown == self.shows_border(),
    {
        get_exact(&self.border_top_style).is_some() || get_exact(&self.border_left_style).is_some()
            || get_exact(&self.border_right_style).is_some() || get_exact(
            &self.border_bottom_style,
        ).is_some()
    }
}

/// The shadow item of a node for one clip mode: one item if the node has
/// a shadow on any side, else none.
pub open spec fn shadow_items(style: RectStyle, clip_mode: BoxShadowClipMode) -> Seq<
    LayoutRectContent,
> {
    if style.shows_box_shadow() {
        seq![LayoutRectContent::BoxShadow { shadow: style.box_shadow(), clip_mode }]
    } else {
        Seq::empty()
    }
}

/// What the background `content` is filled with, if it can be resolved. An
/// image that the resource cache does not know resolves to nothing.
pub open spec fn resolved_background(
    content: StyleBackgroundContent,
    resources: AppResources,
    pipeline_id: PipelineId,
) -> Option<RectBackground> {
    match content {
        StyleBackgroundContent::LinearGradient(gradient) => Some(
            RectBackground::LinearGradient(gradient),
        ),
        StyleBackgroundContent::RadialGradient(gradient) => Some(
            RectBackground::RadialGradient(gradient),
        ),
        StyleBackgroundContent::Image(name) => match css_image_id(
            resources.css_ids_to_image_ids@,
            name.0@,
        ) {
            Some(image_id) => match image_info(
                resources.currently_registered_images@,
                pipeline_id,
                image_id,
            ) {
                Some(info) => Some(RectBackground::Image(info)),
                None => None,
            },
            None => None,
        },
        StyleBackgroundContent::Color(color) => Some(RectBackground::Color(color)),
    }
}

/// The background item of a node: one item if a background is set and can
/// be resolved, else none.
pub open spec fn background_items(
    style: RectStyle,
    resources: AppResources,
    pipeline_id: PipelineId,
) -> Seq<LayoutRectContent> {
    match style.background {
        Some(CssPropertyValue::Exact(content)) => match resolved_background(
            content,
            resources,
            pipeline_id,
        ) {
            Some(background) => seq![
                LayoutRectContent::Background {
                    content: background,
                    size: exact_value(style.background_size),
                    offset: exact_value(style.background_position),
                    repeat: exact_value(style.background_repeat),
                },
            ],
            None => Seq::empty(),
        },
        _ => Seq::empty(),
    }
}

/// The border item of a node: one item if a border is set, else none.
pub open spec fn border_items(rect: DisplayRectangle) -> Seq<LayoutRectContent> {
    if rect.style.shows_border() {
        seq![
            LayoutRectContent::Border {
                widths: StyleBorderWidths {
                    top: rect.layout.border_top_width,
                    left: rect.layout.border_left_width,
                    bottom: rect.layout.border_bottom_width,
                    right: rect.layout.border_right_width,
                },
                colors: StyleBorderColors {
                    top: rect.style.border_top_color,
                    left: rect.style.border_left_color,
                    bottom: rect.style.border_bottom_color,
                    right: rect.style.border_right_color,
                },
                styles: StyleBorderStyles {
                    top: rect.style.border_top_style,
                    left: rect.style.border_left_style,
                    bottom: rect.style.border_bottom_style,
                    right: rect.style.border_right_style,
                },
            },
        ]
    } else {
        Seq::empty()
    }
}

/// A number of whole pixels as a fixed-point length, or the largest
/// length if that does not fit.
pub open spec fn pixels_to_length(pixels: usize) -> i64 {
    if pixels * 1000 <= i64::MAX {
        (pixels * 1000) as i64
    } else {
        i64::MAX
    }
}

/// A number of whole pixels as a fixed-point length, or the largest
/// length if that does not fit.
pub fn length_of_pixels(pixels: usize) -> (length: i64)
    ensures
        length == pixels_to_length(pixels),
{
    let wide: u64 = pixels as u64;
    if wide <= 9_223_372_036_854_775u64 {
        (wide as i64) * 1000
    } else {
        i64::MAX
    }
}

/// Everything that is known of one node tree when its display list is
/// built.
#[derive(Debug)]
pub struct DomLayout {
    /// What kind of content each node shows
    pub node_types: NodeDataContainer<NodeType>,
    /// The computed style of each node
    pub display_list: DisplayList,
    /// Positions and glyph runs
    pub layout_result: LayoutResult,
    /// The nodes that scroll
    pub scrollable_nodes: ScrolledNodes,
    /// The nodes in paint order
    pub rects_in_rendering_order: ContentGroup,
    /// The texture that was rendered for each texture node, by the node's index
    pub solved_textures: BTreeMap<usize, (ImageKey, ImageDescriptor, ExternalImageId)>,
    /// The tree that is embedded at each embedding node: the node's index
    /// and the index of the embedded tree
    pub iframe_mappings: BTreeMap<usize, usize>,
}

/// The node trees of a window, each at the index that its `DomId` holds.
#[derive(Debug)]
pub struct SolvedLayoutCache {
    pub doms: Vec<DomLayout>,
}

impl DomLayout {
    /// Number of nodes of the tree.
    pub open spec fn node_count(self) -> nat {
        self.node_types@.len()
    }

    /// The tables of the tree agree with each other: they cover the same
    /// nodes, the paint order names only nodes of the tree, and the
    /// layout's numbers are in range.
    pub open spec fn wf(self) -> bool {
        &&& self.display_list.rectangles@.len() == self.node_count()
        &&& self.layout_result.rects@.len() == self.node_count()
        &&& group_in_range(self.rects_in_rendering_order@, self.node_count())
        &&& forall|i: int|
            0 <= i < self.layout_result.rects@.len() ==> {
                &&& (#[trigger] self.layout_result.rects@[i]).bounds.in_range()
                &&& self.layout_result.rects@[i].padding.in_range()
            }
    }

    /// Whether the tables of the tree agree with each other.
    pub fn is_well_formed(&self) -> (ok: bool)
        ensures
            ok == self.wf(),
    {
        let count = self.node_types.len();
        if self.display_list.rectangles.len() != count || self.layout_result.rects.len() != count {
            return false;
        }
        if !group_is_in_range(&self.rects_in_rendering_order, count) {
            return false;
        }
        let mut i: usize = 0;
        while i < count
            invariant
                i <= count,
                count == self.layout_result.rects@.len(),
                forall|k: int|
                    0 <= k < i ==> {
                        &&& (#[trigger] self.layout_result.rects@[k]).bounds.in_range()
                        &&& self.layout_result.rects@[k].padding.in_range()
                    },
            decreases count - i,
        {
            let rect = &self.layout_result.rects.internal[i];
            if !(rect.bounds.is_in_range() && rect.padding.is_in_range()) {
                return false;
            }
            i = i + 1;
        }
        true
    }
}

impl SolvedLayoutCache {
    /// Every tree is well-formed.
    pub open spec fn wf(self) -> bool {
        forall|d: int| 0 <= d < self.doms@.len() ==> (#[trigger] self.doms@[d]).wf()
    }

    /// Whether every tree is well-formed.
    pub fn is_well_formed(&self) -> (ok: bool)
        ensures
            ok == self.wf(),
    {
        let mut d: usize = 0;
        while d < self.doms.len()
            invariant
                d <= self.doms.len(),
                forall|k: int| 0 <= k < d ==> (#[trigger] self.doms@[k]).wf(),
            decreases self.doms.len() - d,
        {
            if !self.doms[d].is_well_formed() {
                return false;
            }
            d = d + 1;
        }
        true
    }
}

/// What is handed down while a display list is built.
pub struct DisplayListParametersRef<'a> {
    /// The tree that is being built
    pub dom_id: DomId,
    /// The pipeline that the display list is built for
    pub pipeline_id: PipelineId,
    /// Size of the window
    pub window_size: LayoutSize,
    /// Layouts, styles and paint orders of all trees
    pub layout_cache: &'a SolvedLayoutCache,
    /// The resource cache
    pub app_resources: &'a AppResources,
}

/// The paint item that shows the content of a node, according to its
/// kind: text with its glyphs, an image, or a rendered texture. A node
/// whose content is not available shows nothing.
pub open spec fn node_content_items(
    dom: DomLayout,
    resources: AppResources,
    pipeline_id: PipelineId,
    window_size: LayoutSize,
    node: NodeId,
) -> Seq<LayoutRectContent> {
    let rect = dom.display_list.rectangles@[node.index as int];
    let positioned = dom.layout_result.rects@[node.index as int];
    match dom.node_types@[node.index as int] {
        NodeType::Div => Seq::empty(),
        NodeType::IFrame => Seq::empty(),
        NodeType::Text(_) | NodeType::Label(_) => if dom.layout_result.layouted_glyph_cache@.contains_key(
            node.index,
        ) && dom.layout_result.positioned_word_cache@.contains_key(node.index) {
            seq![
                LayoutRectContent::Text {
                    glyphs: dom.layout_result.layouted_glyph_cache@[node.index].glyphs,
                    font_instance_key: dom.layout_result.positioned_word_cache@[node.index],
                    color: match exact_value(rect.style.text_color) {
                        Some(color) => color,
                        None => default_font_color(),
                    },
                    glyph_options: None,
                    clip: text_clip_rect(
                        positioned.bounds,
                        positioned.padding,
                        window_size,
                        rect.layout,
                    ),
                },
            ]
        } else {
            Seq::empty()
        },
        NodeType::Image(image_id) => match image_info(
            resources.currently_registered_images@,
            pipeline_id,
            image_id,
        ) {
            Some(info) => seq![
                LayoutRectContent::Image {
                    size: positioned.bounds.size,
                    offset: LayoutPoint { x: 0, y: 0 },
                    image_rendering: ImageRendering::Auto,
                    alpha_type: AlphaType::PremultipliedAlpha,
                    image_key: info.key,
                    background_color: ColorU { r: 255, g: 255, b: 255, a: 255 },
                },
            ],
            None => Seq::empty(),
        },
        NodeType::GlTexture => if dom.solved_textures@.contains_key(node.index) {
            let texture = dom.solved_textures@[node.index];
            seq![
                LayoutRectContent::Image {
                    size: LayoutSize {
                        width: pixels_to_length(texture.1.dimensions.0),
                        height: pixels_to_length(texture.1.dimensions.1),
                    },
                    offset: LayoutPoint { x: 0, y: 0 },
                    image_rendering: ImageRendering::Auto,
                    alpha_type: AlphaType::Alpha,
                    image_key: texture.0,
                    background_color: ColorU { r: 255, g: 255, b: 255, a: 255 },
                },
            ]
        } else {
            Seq::empty()
        },
    }
}

/// The paint items of a node in the order in which they are drawn: the
/// outer shadow, the background, the node's own content, the border and
/// the inner shadow.
pub open spec fn frame_content(
    dom: DomLayout,
    resources: AppResources,
    pipeline_id: PipelineId,
    window_size: LayoutSize,
    node: NodeId,
) -> Seq<LayoutRectContent> {
    let rect = dom.display_list.rectangles@[node.index as int];
    shadow_items(rect.style, BoxShadowClipMode::Outset) + background_items(
        rect.style,
        resources,
        pipeline_id,
    ) + node_content_items(dom, resources, pipeline_id, window_size, node) + border_items(rect)
        + shadow_items(rect.style, BoxShadowClipMode::Inset)
}

/// The hit-test tag of a node's frame: the node's own tag, else the tag of
/// its scroll frame, else none.
pub open spec fn frame_tag(dom: DomLayout, node: NodeId) -> Option<(u64, u16)> {
    match dom.display_list.rectangles@[node.index as int].tag {
        Some(tag) => Some((tag, 0u16)),
        None => if dom.scrollable_nodes.overflowing_nodes@.contains_key(node.index) {
            Some((dom.scrollable_nodes.overflowing_nodes@[node.index].scroll_tag_id.0, 0u16))
        } else {
            None
        },
    }
}

/// The display list node of a single tree node, without the tree node's
/// children: its frame with its paint items, below it the embedded tree
/// `embedded` if there is one, the whole wrapped in a scroll frame if the
/// node scrolls.
pub open spec fn node_display_list(
    dom: DomLayout,
    resources: AppResources,
    pipeline_id: PipelineId,
    window_size: LayoutSize,
    node: NodeId,
    embedded: Option<DisplayListMsgView>,
) -> DisplayListMsgView {
    let frame = DisplayListFrameView {
        tag: frame_tag(dom, node),
        clip_rect: None,
        rect: dom.layout_result.rects@[node.index as int].bounds,
        border_radius: dom.display_list.rectangles@[node.index as int].style.border_radius(),
        content: frame_content(dom, resources, pipeline_id, window_size, node),
        children: match embedded {
            Some(child) => seq![child],
            None => Seq::empty(),
        },
    };
    if dom.scrollable_nodes.overflowing_nodes@.contains_key(node.index) {
        let scroll_node = dom.scrollable_nodes.overflowing_nodes@[node.index];
        DisplayListMsgView::ScrollFrame {
            content_rect: scroll_node.child_rect,
            scroll_id: scroll_node.parent_external_scroll_id,
            scroll_tag: scroll_node.scroll_tag_id,
            frame,
        }
    } else {
        DisplayListMsgView::Frame(frame)
    }
}

/// The background paint item of a node, if a background is set and can be
/// resolved.
fn get_background(
    style: &RectStyle,
    app_resources: &AppResources,
    pipeline_id: &PipelineId,
) -> (background: Option<LayoutRectContent>)
    ensures
        match background {
            Some(item) => background_items(*style, *app_resources, *pipeline_id) == seq![item],
            None => background_items(*style, *app_resources, *pipeline_id) == Seq::<
                LayoutRectContent,
            >::empty(),
        },
{
    let bg = match &style.background {
        Some(CssPropertyValue::Exact(bg)) => bg,
        _ => {
            return None;
        },
    };
    let background_content = match bg {
        StyleBackgroundContent::LinearGradient(lg) => Some(RectBackground::LinearGradient(lg.clone())),
        StyleBackgroundContent::RadialGradient(rg) => Some(RectBackground::RadialGradient(rg.clone())),
        StyleBackgroundContent::Image(style_image_id) => {
            match app_resources.get_css_image_id(&style_image_id.0) {
                Some(image_id) => match app_resources.get_image_info(pipeline_id, &image_id) {
                    Some(image_info) => Some(RectBackground::Image(image_info)),
                    None => None,
                },
                None => None,
            }
        },
        StyleBackgroundContent::Color(c) => Some(RectBackground::Color(*c)),
    };
    match background_content {
        Some(background_content) => Some(
            LayoutRectContent::Background {
                content: background_content,
                size: get_exact(&style.background_size),
                offset: get_exact(&style.background_position),
                repeat: get_exact(&style.background_repeat),
            },
        ),
        None => None,
    }
}

/// Builds the display list node of a single tree node, without the tree
/// node's children. `embedded` is the display list of the tree that is
/// embedded at this node, if one is.
pub fn displaylist_handle_rect<'a>(
    rect_idx: NodeId,
    referenced_content: &DisplayListParametersRef<'a>,
    embedded: Option<DisplayListMsg>,
) -> (msg: DisplayListMsg)
    requires
        referenced_content.layout_cache.wf(),
        referenced_content.dom_id.0 < referenced_content.layout_cache.doms@.len(),
        rect_idx.index < referenced_content.layout_cache.doms@[referenced_content.dom_id.0 as int].node_count(),
    ensures
        msg@ == node_display_list(
            referenced_content.layout_cache.doms@[referenced_content.dom_id.0 as int],
            *referenced_content.app_resources,
            referenced_content.pipeline_id,
            referenced_content.window_size,
            rect_idx,
            match embedded {
                Some(child) => Some(child@),
                None => None,
            },
        ),
{
    let dom = &referenced_content.layout_cache.doms[referenced_content.dom_id.0];
    let rect = &dom.display_list.rectangles.internal[rect_idx.index];
    let positioned = &dom.layout_result.rects.internal[rect_idx.index];
    let bounds = positioned.bounds;
    let scroll_node = dom.scrollable_nodes.get(rect_idx);

    let display_list_rect_bounds = LayoutRect::new(
        LayoutPoint::new(bounds.origin.x, bounds.origin.y),
        LayoutSize::new(bounds.size.width, bounds.size.height),
    );

    let tag_id = match rect.tag {
        Some(tag) => Some((tag, 0u16)),
        None => match scroll_node {
            Some(scrolled) => Some((scrolled.scroll_tag_id.0, 0u16)),
            None => None,
        },
    };

    let mut content: Vec<LayoutRectContent> = Vec::new();
    let mut children: Vec<DisplayListMsg> = Vec::new();
    let ghost outset = shadow_items(rect.style, BoxShadowClipMode::Outset);
    let ghost background = background_items(
        rect.style,
        *referenced_content.app_resources,
        referenced_content.pipeline_id,
    );
    let ghost own = node_content_items(
        *dom,
        *referenced_content.app_resources,
        referenced_content.pipeline_id,
        referenced_content.window_size,
        rect_idx,
    );
    let ghost border = border_items(*rect);

    if rect.style.has_box_shadow() {
        content.push(
            LayoutRectContent::BoxShadow {
                shadow: StyleBoxShadow {
                    left: rect.style.box_shadow_left,
                    right: rect.style.box_shadow_right,
                    top: rect.style.box_shadow_top,
                    bottom: rect.style.box_shadow_bottom,
                },
                clip_mode: BoxShadowClipMode::Outset,
            },
        );
    }
    assert(content@ =~= outset);

    if let Some(item) = get_background(
        &rect.style,
        referenced_content.app_resources,
        &referenced_content.pipeline_id,
    ) {
        content.push(item);
    }
    assert(content@ =~= outset + background);

    match &dom.node_types.internal[rect_idx.index] {
        NodeType::Div => {},
        NodeType::Text(_) | NodeType::Label(_) => {
            let layouted_glyphs = dom.layout_result.layouted_glyph_cache.get(&rect_idx.index);
            let positioned_words = dom.layout_result.positioned_word_cache.get(&rect_idx.index);
            if let (Some(layouted_glyphs), Some(font_instance_key)) = (
                layouted_glyphs,
                positioned_words,
            ) {
                let text_color = match get_exact(&rect.style.text_color) {
                    Some(color) => color,
                    None => ColorU::black(),
                };

                content.push(
                    get_text(
                        display_list_rect_bounds,
                        &positioned.padding,
                        referenced_content.window_size,
                        LayoutedGlyphs { glyphs: share(&layouted_glyphs.glyphs) },
                        *font_instance_key,
                        text_color,
                        &rect.layout,
                    ),
                );
            }
        },
        NodeType::Image(image_id) => {
            if let Some(image_info) = referenced_content.app_resources.get_image_info(
                &referenced_content.pipeline_id,
                image_id,
            ) {
                content.push(
                    LayoutRectContent::Image {
                        size: LayoutSize::new(bounds.size.width, bounds.size.height),
                        offset: LayoutPoint::new(0, 0),
                        image_rendering: ImageRendering::Auto,
                        alpha_type: AlphaType::PremultipliedAlpha,
                        image_key: image_info.key,
                        background_color: ColorU::white(),
                    },
                );
            }
        },
        NodeType::GlTexture => {
            if let Some(texture) = dom.solved_textures.get(&rect_idx.index) {
                content.push(
                    LayoutRectContent::Image {
                        size: LayoutSize::new(
                            length_of_pixels(texture.1.dimensions.0),
                            length_of_pixels(texture.1.dimensions.1),
                        ),
                        offset: LayoutPoint::new(0, 0),
                        image_rendering: ImageRendering::Auto,
                        alpha_type: AlphaType::Alpha,
                        image_key: texture.0,
                        background_color: ColorU::white(),
                    },
                );
            }
        },
        NodeType::IFrame => {},
    }
    assert(content@ =~= outset + background + own);

    if let Some(child) = embedded {
        children.push(child);
    }

    if rect.style.has_border() {
        content.push(
            LayoutRectContent::Border {
                widths: StyleBorderWidths {
                    top: rect.layout.border_top_width,
                    left: rect.layout.border_left_width,
                    bottom: rect.layout.border_bottom_width,
                    right: rect.layout.border_right_width,
                },
                colors: StyleBorderColors {
                    top: rect.style.border_top_color,
                    left: rect.style.border_left_color,
                    bottom: rect.style.border_bottom_color,
                    right: rect.style.border_right_color,
                },
                styles: StyleBorderStyles {
                    top: rect.style.border_top_style,
                    left: rect.style.border_left_style,
                    bottom: rect.style.border_bottom_style,
                    right: rect.style.border_right_style,
                },
            },
        );
    }
    assert(content@ =~= outset + background + own + border);

    if rect.style.has_box_shadow() {
        content.push(
            LayoutRectContent::BoxShadow {
                shadow: StyleBoxShadow {
                    left: rect.style.box_shadow_left,
                    right: rect.style.box_shadow_right,
                    top: rect.style.box_shadow_top,
                    bottom: rect.style.box_shadow_bottom,
                },
                clip_mode: BoxShadowClipMode::Inset,
            },
        );
    }
    assert(content@ =~= outset + background + own + border + shadow_items(
        rect.style,
        BoxShadowClipMode::Inset,
    ));

    let frame = DisplayListFrame {
        tag: tag_id,
        clip_rect: None,
        border_radius: StyleBorderRadius {
            top_left: rect.style.border_top_left_radius,
            top_right: rect.style.border_top_right_radius,
            bottom_left: rect.style.border_bottom_left_radius,
            bottom_right: rect.style.border_bottom_right_radius,
        },
        rect: display_list_rect_bounds,
        content,
        children,
    };
    proof {
        assert(frame@.children =~= match embedded {
            Some(child) => seq![child@],
            None => Seq::empty(),
        });
    }

    match scroll_node {
        Some(scroll_node) => DisplayListMsg::ScrollFrame(
            DisplayListScrollFrame {
                content_rect: scroll_node.child_rect,
                scroll_id: scroll_node.parent_external_scroll_id,
                scroll_tag: scroll_node.scroll_tag_id,
                frame,
            },
        ),
        None => DisplayListMsg::Frame(frame),
    }
}

/// The display list of the subtree of `group` in the tree with index
/// `dom`: the display list node of the subtree's root and, below it, first
/// the display list of the tree that is embedded at the root, if one is,
/// then the display lists of the root's children in paint order.
pub open spec fn display_list_of(
    cache: SolvedLayoutCache,
    resources: AppResources,
    pipeline_id: PipelineId,
    window_size: LayoutSize,
    dom: int,
    group: ContentGroupView,
) -> DisplayListMsgView
    decreases cache.doms@.len() - dom, group,
{
    if 0 <= dom < cache.doms@.len() {
        let layout = cache.doms@[dom];
        node_display_list(
            layout,
            resources,
            pipeline_id,
            window_size,
            group.root,
            match embedded_dom(layout, group.root) {
                Some(target) => if dom < target < cache.doms@.len() {
                    Some(
                        display_list_of(
                            cache,
                            resources,
                            pipeline_id,
                            window_size,
                            target,
                            cache.doms@[target].rects_in_rendering_order@,
                        ),
                    )
                } else {
                    None
                },
                None => None,
            },
        ).with_children(
            Seq::new(
                group.children.len(),
                |i: int|
                    if 0 <= i < group.children.len() {
                        display_list_of(
                            cache,
                            resources,
                            pipeline_id,
                            window_size,
                            dom,
                            group.children[i],
                        )
                    } else {
                        arbitrary()
                    },
            ),
        )
    } else {
        arbitrary()
    }
}

/// The index of the tree that is embedded at `node`, if `node` embeds one.
pub open spec fn embedded_dom(layout: DomLayout, node: NodeId) -> Option<int> {
    if layout.node_types@[node.index as int] is IFrame && layout.iframe_mappings@.contains_key(
        node.index,
    ) {
        Some(layout.iframe_mappings@[node.index] as int)
    } else {
        None
    }
}

/// Builds the display list of the subtree of `root_content_group`: walks
/// the paint order depth first, builds each node with
/// `displaylist_handle_rect` and descends into embedded trees.
pub fn push_rectangles_into_displaylist<'a>(
    root_content_group: &ContentGroup,
    referenced_content: &DisplayListParametersRef<'a>,
) -> (msg: DisplayListMsg)
    requires
        referenced_content.layout_cache.wf(),
        referenced_content.dom_id.0 < referenced_content.layout_cache.doms@.len(),
        group_in_range(
            root_content_group@,
            referenced_content.layout_cache.doms@[referenced_content.dom_id.0 as int].node_count(),
        ),
    ensures
        msg@ == display_list_of(
            *referenced_content.layout_cache,
            *referenced_content.app_resources,
            referenced_content.pipeline_id,
            referenced_content.window_size,
            referenced_content.dom_id.0 as int,
            root_content_group@,
        ),
    decreases
            referenced_content.layout_cache.doms@.len() - referenced_content.dom_id.0,
            root_content_group,
{
    let cache = referenced_content.layout_cache;
    let dom = &cache.doms[referenced_content.dom_id.0];
    let node = root_content_group.root;

    let embedded = match &dom.node_types.internal[node.index] {
        NodeType::IFrame => match dom.iframe_mappings.get(&node.index) {
            // A tree embeds only trees that come after it
            Some(iframe_dom_id) if referenced_content.dom_id.0 < *iframe_dom_id && *iframe_dom_id
                < cache.doms.len() => {
                let iframe = DisplayListParametersRef {
                    // Important: the embedded tree is built under its own id
                    dom_id: DomId(*iframe_dom_id),
                    pipeline_id: referenced_content.pipeline_id,
                    window_size: referenced_content.window_size,
                    layout_cache: referenced_content.layout_cache,
                    app_resources: referenced_content.app_resources,
                };
                Some(
                    push_rectangles_into_displaylist(
                        &cache.doms[*iframe_dom_id].rects_in_rendering_order,
                        &iframe,
                    ),
                )
            },
            _ => None,
        },
        _ => None,
    };

    let mut content = displaylist_handle_rect(node, referenced_content, embedded);

    let mut children: Vec<DisplayListMsg> = Vec::new();
    let mut i: usize = 0;
    while i < root_content_group.children.len()
        invariant
            i <= root_content_group.children.len(),
            referenced_content.layout_cache.wf(),
            referenced_content.dom_id.0 < referenced_content.layout_cache.doms@.len(),
            group_in_range(
                root_content_group@,
                referenced_content.layout_cache.doms@[referenced_content.dom_id.0 as int].node_count(),
            ),
            children.len() == i,
            forall|k: int|
                0 <= k < i ==> (#[trigger] children@[k])@ == display_list_of(
                    *referenced_content.layout_cache,
                    *referenced_content.app_resources,
                    referenced_content.pipeline_id,
                    referenced_content.window_size,
                    referenced_content.dom_id.0 as int,
                    root_content_group@.children[k],
                ),
        decreases root_content_group.children.len() - i,
    {
        assert(root_content_group@.children[i as int] == root_content_group.children@[i as int]@);
        let child = push_rectangles_into_displaylist(
            &root_content_group.children[i],
            referenced_content,
        );
        children.push(child);
        i = i + 1;
    }

    let ghost own = content@;
    let ghost kids = views_of(children@);
    content.append_children(children);
    proof {
        let expected = display_list_of(
            *referenced_content.layout_cache,
            *referenced_content.app_resources,
            referenced_content.pipeline_id,
            referenced_content.window_size,
            referenced_content.dom_id.0 as int,
            root_content_group@,
        );
        assert(expected.frame().children =~= own.frame().children + kids);
    }

    content
}

/// A texture that a callback rendered for a node of a tree.
#[derive(Debug)]
pub struct RenderedTexture {
    pub dom_id: DomId,
    pub node_id: NodeId,
    pub texture: Texture,
}

/// A rendered texture as the display list refers to it: the image key
/// and descriptor that the rasterizer knows it by, and the id under
/// which the texture itself is registered.
#[derive(Debug, Clone, Copy, PartialEq, Eq, Hash)]
pub struct SolvedTexture {
    pub dom_id: DomId,
    pub node_id: NodeId,
    pub key: ImageKey,
    pub descriptor: ImageDescriptor,
    pub external_image_id: ExternalImageId,
}

/// The number of whole pixels in a fixed-point length, none if the
/// length is negative.
pub open spec fn pixel_count(length: i64) -> usize {
    if length <= 0 {
        0
    } else if length / 1000 > usize::MAX {
        usize::MAX
    } else {
        (length / 1000) as usize
    }
}

/// The number of whole pixels in a fixed-point length, none if the
/// length is negative.
pub fn count_pixels(length: i64) -> (pixels: usize)
    ensures
        pixels == pixel_count(length),
{
    if length <= 0 {
        0
    } else {
        let pixels: u64 = (length / 1000) as u64;
        if pixels > usize::MAX as u64 {
            usize::MAX
        } else {
            pixels as usize
        }
    }
}

/// The descriptor of a rendered texture: four channels, not known to be
/// opaque, and without smaller copies, since the texture is mapped onto
/// the screen one to one.
pub open spec fn texture_descriptor(dimensions: (usize, usize)) -> ImageDescriptor {
    ImageDescriptor {
        format: RawImageFormat::RGBA8,
        dimensions,
        stride: None,
        offset: 0,
        is_opaque: false,
        allow_mipmaps: false,
    }
}

/// The registrations that `textures` add to a registry whose next id is
/// `first_id`: one for each texture, in order, under consecutive ids.
pub open spec fn texture_registrations(
    textures: Seq<RenderedTexture>,
    pipeline_id: PipelineId,
    epoch: Epoch,
    first_id: u64,
) -> Seq<ActiveTexture> {
    Seq::new(
        textures.len(),
        |i: int|
            ActiveTexture {
                pipeline_id,
                epoch,
                image_id: ExternalImageId((first_id + i) as u64),
                texture: textures[i].texture,
            },
    )
}

/// Registers the textures that were rendered for this frame under
/// `epoch`, each before the display list that refers to it is built, and
/// returns what the display list needs to refer to them. `image_keys`
/// holds the image key that the rasterizer handed out for each texture.
pub fn register_rendered_textures(
    registry: &mut TextureRegistry,
    pipeline_id: PipelineId,
    epoch: Epoch,
    textures: Vec<RenderedTexture>,
    image_keys: &Vec<ImageKey>,
) -> (solved: Vec<SolvedTexture>)
    requires
        old(registry).wf(),
        image_keys@.len() == textures@.len(),
        old(registry)@.next_id + textures@.len() <= u64::MAX,
    ensures
        final(registry).wf(),
        final(registry)@.next_id == old(registry)@.next_id + textures@.len(),
        final(registry)@.entries == old(registry)@.entries + texture_registrations(
            textures@,
            pipeline_id,
            epoch,
            old(registry)@.next_id,
        ),
        solved@.len() == textures@.len(),
        forall|i: int|
            0 <= i < textures@.len() ==> {
                let entry = #[trigger] solved@[i];
                &&& entry.dom_id == textures@[i].dom_id
                &&& entry.node_id == textures@[i].node_id
                &&& entry.key == image_keys@[i]
                &&& entry.external_image_id.0 == old(registry)@.next_id + i
                &&& entry.descriptor == texture_descriptor(
                    (
                        pixel_count(textures@[i].texture.size.width),
                        pixel_count(textures@[i].texture.size.height),
                    ),
                )
            },
{
    let ghost all = textures@;
    let ghost first_id = registry@.next_id;
    let ghost before = registry@.entries;
    let mut solved: Vec<SolvedTexture> = Vec::new();
    let count = image_keys.len();
    let mut index: usize = 0;
    for rendered in it: textures
        invariant
            it.seq() == all,
            index == it.index(),
            count == all.len(),
            registry.wf(),
            image_keys@.len() == all.len(),
            first_id + all.len() <= u64::MAX,
            registry@.next_id == first_id + index,
            registry@.entries == before + texture_registrations(all, pipeline_id, epoch, first_id).take(
                index as int,
            ),
            solved@.len() == index,
            forall|i: int|
                0 <= i < index ==> {
                    let entry = #[trigger] solved@[i];
                    &&& entry.dom_id == all[i].dom_id
                    &&& entry.node_id == all[i].node_id
                    &&& entry.key == image_keys@[i]
                    &&& entry.external_image_id.0 == first_id + i
                    &&& entry.descriptor == texture_descriptor(
                        (
                            pixel_count(all[i].texture.size.width),
                            pixel_count(all[i].texture.size.height),
                        ),
                    )
                },
    {
        // The descriptor has no effect on how large the image appears on-screen
        let descriptor = ImageDescriptor {
            format: RawImageFormat::RGBA8,
            dimensions: (
                count_pixels(rendered.texture.size.width),
                count_pixels(rendered.texture.size.height),
            ),
            stride: None,
            offset: 0,
            is_opaque: false,
            allow_mipmaps: false,
        };
        let key = image_keys[index];
        let dom_id = rendered.dom_id;
        let node_id = rendered.node_id;
        let ghost registrations = texture_registrations(all, pipeline_id, epoch, first_id);
        let external_image_id = insert_into_active_gl_textures(
            registry,
            pipeline_id,
            epoch,
            rendered.texture,
        );
        proof {
            assert(registrations.take(index + 1) =~= registrations.take(index as int).push(
                registrations[index as int],
            ));
            assert(registry@.entries =~= before + registrations.take(index + 1));
        }
        solved.push(SolvedTexture { dom_id, node_id, key, descriptor, external_image_id });
        index = index + 1;
    }
    proof {
        let registrations = texture_registrations(all, pipeline_id, epoch, first_id);
        assert(registrations.take(all.len() as int) =~= registrations);
    }
    solved
}

} // verus!
