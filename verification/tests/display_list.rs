use azul_frame::css::{
    BorderStyle, BoxShadowClipMode, BoxShadowPreDisplayItem, ColorU, CssImageId, CssPropertyValue,
    FloatValue, Overflow, PixelValue, RectLayout, SizeMetric, StyleBackgroundContent,
    StyleBackgroundRepeat,
};
use azul_frame::display_list::{
    displaylist_handle_rect, get_text, length_of_pixels, node_needs_to_clip_children,
    push_rectangles_into_displaylist, register_rendered_textures, AlphaType, AppResources,
    CssImageIds, DisplayList, DisplayListFrame, DisplayListMsg, DisplayListParametersRef,
    DisplayListScrollFrame, DomId, DomLayout, GlyphInstance, ImageRendering, LayoutRectContent,
    LayoutResult, LayoutedGlyphs, NodeType, RectBackground, RenderedTexture, SolvedLayoutCache,
    SolvedTexture, StyleBorderColors, StyleBorderRadius, StyleBorderStyles, StyleBorderWidths,
    StyleBoxShadow, TextId,
};
use azul_frame::geometry::{LayoutPoint, LayoutRect, LayoutSize, LogicalSize, ResolvedOffsets};
use azul_frame::gl::{get_opengl_texture, Texture, TextureRegistry};
use azul_frame::id_tree::{NodeDataContainer, NodeId};
use azul_frame::rendering_order::{ContentGroup, DisplayRectangle};
use azul_frame::resources::{
    Epoch, ExternalImageId, FontInstanceKey, IdNamespace, ImageDescriptor, ImageId, ImageInfo,
    ImageKey, PipelineId, RawImageFormat,
};
use azul_frame::scroll_clip::{
    DomHash, ExternalScrollId, OverflowingScrollNode, PositionedRectangle, ScrollTagId,
    ScrolledNodes,
};
use std::collections::BTreeMap;
use std::rc::Rc;

const PIPELINE: PipelineId = PipelineId(1, 1);

fn rect(x: i64, y: i64, width: i64, height: i64) -> LayoutRect {
    LayoutRect::new(LayoutPoint::new(x, y), LayoutSize::new(width, height))
}

fn exact<T>(value: T) -> Option<CssPropertyValue<T>> {
    Some(CssPropertyValue::Exact(value))
}

fn px(value: isize) -> PixelValue {
    PixelValue { metric: SizeMetric::Px, number: FloatValue { number: value * 1000 } }
}

fn glyphs() -> Rc<Vec<GlyphInstance>> {
    Rc::new(vec![
        GlyphInstance { index: 7, point: LayoutPoint::new(0, 0) },
        GlyphInstance { index: 8, point: LayoutPoint::new(9_000, 0) },
    ])
}

fn font_key() -> FontInstanceKey {
    FontInstanceKey { namespace: IdNamespace(1), key: 33 }
}

fn image_info(key: u32) -> ImageInfo {
    ImageInfo {
        key: ImageKey { namespace: IdNamespace(1), key },
        descriptor: ImageDescriptor {
            format: RawImageFormat::BGRA8,
            dimensions: (4, 4),
            stride: None,
            offset: 0,
            is_opaque: true,
            allow_mipmaps: true,
        },
    }
}

fn positioned(bounds: LayoutRect, padding: ResolvedOffsets) -> PositionedRectangle {
    PositionedRectangle {
        bounds,
        padding,
        margin: ResolvedOffsets::zero(),
        border_widths: ResolvedOffsets::zero(),
        overflow: Overflow::Auto,
    }
}

fn no_scroll() -> ScrolledNodes {
    ScrolledNodes { overflowing_nodes: BTreeMap::new(), tags_to_node_ids: BTreeMap::new() }
}

fn leaf(index: usize) -> ContentGroup {
    ContentGroup { root: NodeId::new(index), children: Vec::new() }
}

fn dom(nodes: Vec<(NodeType, DisplayRectangle, LayoutRect)>, order: ContentGroup) -> DomLayout {
    let mut node_types = Vec::new();
    let mut rectangles = Vec::new();
    let mut rects = Vec::new();
    for (node_type, rectangle, bounds) in nodes {
        node_types.push(node_type);
        rectangles.push(rectangle);
        rects.push(positioned(bounds, ResolvedOffsets::zero()));
    }
    DomLayout {
        node_types: NodeDataContainer::new(node_types),
        display_list: DisplayList { rectangles: NodeDataContainer::new(rectangles) },
        layout_result: LayoutResult {
            rects: NodeDataContainer::new(rects),
            layouted_glyph_cache: BTreeMap::new(),
            positioned_word_cache: BTreeMap::new(),
            node_depths: Vec::new(),
        },
        scrollable_nodes: no_scroll(),
        rects_in_rendering_order: order,
        solved_textures: BTreeMap::new(),
        iframe_mappings: BTreeMap::new(),
    }
}

fn resources() -> AppResources {
    let mut css_ids_to_image_ids = CssImageIds::new();
    css_ids_to_image_ids.insert("cat".to_string(), ImageId(5));
    css_ids_to_image_ids.insert("dog".to_string(), ImageId(6));
    AppResources {
        css_ids_to_image_ids,
        currently_registered_images: vec![
            (PipelineId(9, 9), ImageId(5), image_info(1)),
            (PIPELINE, ImageId(5), image_info(2)),
        ],
    }
}

fn plain_frame(bounds: LayoutRect, content: Vec<LayoutRectContent>, children: Vec<DisplayListMsg>) -> DisplayListMsg {
    DisplayListMsg::Frame(DisplayListFrame {
        tag: None,
        clip_rect: None,
        rect: bounds,
        border_radius: StyleBorderRadius {
            top_left: None,
            top_right: None,
            bottom_left: None,
            bottom_right: None,
        },
        content,
        children,
    })
}

fn build(cache: &SolvedLayoutCache, app_resources: &AppResources, dom_id: usize) -> DisplayListMsg {
    let params = DisplayListParametersRef {
        dom_id: DomId(dom_id),
        pipeline_id: PIPELINE,
        window_size: LayoutSize::new(800_000, 600_000),
        layout_cache: cache,
        app_resources,
    };
    push_rectangles_into_displaylist(&cache.doms[dom_id].rects_in_rendering_order, &params)
}

#[test]
fn test_overflow_parsing() {
    let layout1 = RectLayout::default();

    // The default for overflowing is overflow: auto, which clips
    // children, so this should evaluate to true by default
    assert_eq!(node_needs_to_clip_children(&layout1), true);

    let layout2 = RectLayout {
        overflow_x: Some(CssPropertyValue::Exact(Overflow::Visible)),
        overflow_y: Some(CssPropertyValue::Exact(Overflow::Visible)),
        ..Default::default()
    };
    assert_eq!(node_needs_to_clip_children(&layout2), false);

    let layout3 = RectLayout {
        overflow_x: Some(CssPropertyValue::Exact(Overflow::Hidden)),
        overflow_y: Some(CssPropertyValue::Exact(Overflow::Hidden)),
        ..Default::default()
    };
    assert_eq!(node_needs_to_clip_children(&layout3), true);
}

fn text_clip(overflow_x: Option<Overflow>, overflow_y: Option<Overflow>) -> Option<LayoutRect> {
    let layout = RectLayout {
        overflow_x: overflow_x.map(CssPropertyValue::Exact),
        overflow_y: overflow_y.map(CssPropertyValue::Exact),
        ..Default::default()
    };
    let content = get_text(
        rect(10_000, 20_000, 200_000, 100_000),
        &ResolvedOffsets { top: 1_000, left: 2_000, right: 3_000, bottom: 4_000 },
        LayoutSize::new(800_000, 600_000),
        LayoutedGlyphs { glyphs: glyphs() },
        font_key(),
        ColorU { r: 1, g: 2, b: 3, a: 4 },
        &layout,
    );
    match content {
        LayoutRectContent::Text { glyphs: run, font_instance_key, color, glyph_options, clip } => {
            assert_eq!(run, glyphs());
            assert_eq!(font_instance_key, font_key());
            assert_eq!(color, ColorU { r: 1, g: 2, b: 3, a: 4 });
            assert_eq!(glyph_options, None);
            clip
        }
        other => panic!("not a text item: {:?}", other),
    }
}

// `overflow-x: visible; overflow-y: hidden`: the clip has the width of
// the window and the height of the bounds less the padding.
#[test]
fn scenario_text_is_clipped_vertically_only() {
    assert_eq!(
        text_clip(Some(Overflow::Visible), Some(Overflow::Hidden)),
        Some(rect(10_000, 20_000, 800_000, 95_000))
    );
}

#[test]
fn text_clip_follows_each_overflow_on_its_own() {
    assert_eq!(text_clip(Some(Overflow::Visible), Some(Overflow::Visible)), None);
    assert_eq!(
        text_clip(Some(Overflow::Hidden), Some(Overflow::Visible)),
        Some(rect(10_000, 20_000, 195_000, 600_000))
    );
    assert_eq!(
        text_clip(Some(Overflow::Hidden), Some(Overflow::Scroll)),
        Some(rect(12_000, 21_000, 195_000, 95_000))
    );
    // an unset overflow clips
    assert_eq!(text_clip(None, None), Some(rect(12_000, 21_000, 195_000, 95_000)));
    assert_eq!(text_clip(Some(Overflow::Visible), None), Some(rect(10_000, 20_000, 800_000, 95_000)));
}

#[test]
fn paint_items_come_in_a_fixed_order() {
    let shadow = BoxShadowPreDisplayItem {
        offset_x: px(1),
        offset_y: px(2),
        color: ColorU { r: 0, g: 0, b: 0, a: 128 },
        blur_radius: px(3),
        spread_radius: px(4),
        clip_mode: BoxShadowClipMode::Outset,
    };
    let mut rectangle = DisplayRectangle::new(Some(77));
    rectangle.style.box_shadow_left = exact(shadow);
    rectangle.style.background = exact(StyleBackgroundContent::Color(ColorU { r: 9, g: 9, b: 9, a: 255 }));
    rectangle.style.background_repeat = exact(StyleBackgroundRepeat::NoRepeat);
    rectangle.style.border_top_style = exact(BorderStyle::Solid);
    rectangle.style.border_top_color = exact(ColorU { r: 1, g: 1, b: 1, a: 255 });
    rectangle.layout.border_top_width = exact(px(2));
    rectangle.style.border_top_left_radius = exact(px(5));
    rectangle.style.text_color = exact(ColorU { r: 200, g: 0, b: 0, a: 255 });

    let bounds = rect(10_000, 20_000, 200_000, 100_000);
    let mut layout = dom(vec![(NodeType::Label("hi".to_string()), rectangle, bounds)], leaf(0));
    layout.layout_result.layouted_glyph_cache.insert(0, LayoutedGlyphs { glyphs: glyphs() });
    layout.layout_result.positioned_word_cache.insert(0, font_key());
    let cache = SolvedLayoutCache { doms: vec![layout] };

    let shadows = StyleBoxShadow { left: exact(shadow), right: None, top: None, bottom: None };
    let expected = DisplayListMsg::Frame(DisplayListFrame {
        tag: Some((77, 0)),
        clip_rect: None,
        rect: bounds,
        border_radius: StyleBorderRadius {
            top_left: exact(px(5)),
            top_right: None,
            bottom_left: None,
            bottom_right: None,
        },
        content: vec![
            LayoutRectContent::BoxShadow { shadow: shadows, clip_mode: BoxShadowClipMode::Outset },
            LayoutRectContent::Background {
                content: RectBackground::Color(ColorU { r: 9, g: 9, b: 9, a: 255 }),
                size: None,
                offset: None,
                repeat: Some(StyleBackgroundRepeat::NoRepeat),
            },
            LayoutRectContent::Text {
                glyphs: glyphs(),
                font_instance_key: font_key(),
                color: ColorU { r: 200, g: 0, b: 0, a: 255 },
                glyph_options: None,
                clip: Some(bounds),
            },
            LayoutRectContent::Border {
                widths: StyleBorderWidths { top: exact(px(2)), left: None, bottom: None, right: None },
                colors: StyleBorderColors {
                    top: exact(ColorU { r: 1, g: 1, b: 1, a: 255 }),
                    left: None,
                    bottom: None,
                    right: None,
                },
                styles: StyleBorderStyles {
                    top: exact(BorderStyle::Solid),
                    left: None,
                    bottom: None,
                    right: None,
                },
            },
            LayoutRectContent::BoxShadow { shadow: shadows, clip_mode: BoxShadowClipMode::Inset },
        ],
        children: Vec::new(),
    });
    assert_eq!(build(&cache, &resources(), 0), expected);
}

#[test]
fn text_without_glyphs_and_default_color() {
    let bounds = rect(0, 0, 10_000, 10_000);
    let layout = dom(vec![(NodeType::Text(TextId(1)), DisplayRectangle::new(None), bounds)], leaf(0));
    let cache = SolvedLayoutCache { doms: vec![layout] };
    assert_eq!(build(&cache, &resources(), 0), plain_frame(bounds, Vec::new(), Vec::new()));

    let mut layout = dom(vec![(NodeType::Text(TextId(1)), DisplayRectangle::new(None), bounds)], leaf(0));
    layout.layout_result.layouted_glyph_cache.insert(0, LayoutedGlyphs { glyphs: glyphs() });
    layout.layout_result.positioned_word_cache.insert(0, font_key());
    let cache = SolvedLayoutCache { doms: vec![layout] };
    let text = LayoutRectContent::Text {
        glyphs: glyphs(),
        font_instance_key: font_key(),
        color: ColorU::black(),
        glyph_options: None,
        clip: Some(bounds),
    };
    assert_eq!(build(&cache, &resources(), 0), plain_frame(bounds, vec![text], Vec::new()));
}

#[test]
fn an_unresolved_image_is_left_out() {
    let bounds = rect(0, 0, 10_000, 10_000);
    let background = |name: &str| {
        let mut rectangle = DisplayRectangle::new(None);
        rectangle.style.background = exact(StyleBackgroundContent::Image(CssImageId(name.to_string())));
        rectangle
    };
    // "cat" is known and registered for the pipeline
    let cache = SolvedLayoutCache { doms: vec![dom(vec![(NodeType::Div, background("cat"), bounds)], leaf(0))] };
    let item = LayoutRectContent::Background {
        content: RectBackground::Image(image_info(2)),
        size: None,
        offset: None,
        repeat: None,
    };
    assert_eq!(build(&cache, &resources(), 0), plain_frame(bounds, vec![item], Vec::new()));
    // "dog" is known but not registered, "bird" is not known at all
    for name in ["dog", "bird"] {
        let cache =
            SolvedLayoutCache { doms: vec![dom(vec![(NodeType::Div, background(name), bounds)], leaf(0))] };
        assert_eq!(build(&cache, &resources(), 0), plain_frame(bounds, Vec::new(), Vec::new()));
    }
    // an image node
    for (id, expected) in [(5u64, Some(2u32)), (6, None)] {
        let cache = SolvedLayoutCache {
            doms: vec![dom(vec![(NodeType::Image(ImageId(id)), DisplayRectangle::new(None), bounds)], leaf(0))],
        };
        let content = match expected {
            Some(key) => vec![LayoutRectContent::Image {
                size: LayoutSize::new(10_000, 10_000),
                offset: LayoutPoint::new(0, 0),
                image_rendering: ImageRendering::Auto,
                alpha_type: AlphaType::PremultipliedAlpha,
                image_key: ImageKey { namespace: IdNamespace(1), key },
                background_color: ColorU::white(),
            }],
            None => Vec::new(),
        };
        assert_eq!(build(&cache, &resources(), 0), plain_frame(bounds, content, Vec::new()));
    }
}

#[test]
fn a_rendered_texture_is_shown_by_its_image_key() {
    assert_eq!(length_of_pixels(0), 0);
    assert_eq!(length_of_pixels(640), 640_000);
    let bounds = rect(0, 0, 10_000, 10_000);
    let mut layout = dom(vec![(NodeType::GlTexture, DisplayRectangle::new(None), bounds)], leaf(0));
    let descriptor = ImageDescriptor {
        format: RawImageFormat::RGBA8,
        dimensions: (640, 480),
        stride: None,
        offset: 0,
        is_opaque: false,
        allow_mipmaps: false,
    };
    layout
        .solved_textures
        .insert(0, (ImageKey { namespace: IdNamespace(2), key: 8 }, descriptor, ExternalImageId(3)));
    let cache = SolvedLayoutCache { doms: vec![layout] };
    let item = LayoutRectContent::Image {
        size: LayoutSize::new(640_000, 480_000),
        offset: LayoutPoint::new(0, 0),
        image_rendering: ImageRendering::Auto,
        alpha_type: AlphaType::Alpha,
        image_key: ImageKey { namespace: IdNamespace(2), key: 8 },
        background_color: ColorU::white(),
    };
    assert_eq!(build(&cache, &resources(), 0), plain_frame(bounds, vec![item], Vec::new()));
}

#[test]
fn a_scrolling_node_is_wrapped_in_a_scroll_frame() {
    let bounds = rect(0, 0, 10_000, 10_000);
    let mut layout = dom(
        vec![
            (NodeType::Div, DisplayRectangle::new(None), bounds),
            (NodeType::Div, DisplayRectangle::new(None), rect(0, 0, 10_000, 90_000)),
        ],
        ContentGroup { root: NodeId::new(0), children: vec![leaf(1)] },
    );
    let scroll_node = OverflowingScrollNode {
        child_rect: rect(0, 0, 10_000, 90_000),
        parent_external_scroll_id: ExternalScrollId(123, PIPELINE),
        parent_dom_hash: DomHash(123),
        scroll_tag_id: ScrollTagId(55),
    };
    layout.scrollable_nodes.overflowing_nodes.insert(0, scroll_node);
    layout.scrollable_nodes.tags_to_node_ids.insert(55, NodeId::new(0));
    let cache = SolvedLayoutCache { doms: vec![layout] };
    let expected = DisplayListMsg::ScrollFrame(DisplayListScrollFrame {
        content_rect: rect(0, 0, 10_000, 90_000),
        scroll_id: ExternalScrollId(123, PIPELINE),
        scroll_tag: ScrollTagId(55),
        frame: DisplayListFrame {
            tag: Some((55, 0)),
            clip_rect: None,
            rect: bounds,
            border_radius: StyleBorderRadius {
                top_left: None,
                top_right: None,
                bottom_left: None,
                bottom_right: None,
            },
            content: Vec::new(),
            children: vec![plain_frame(rect(0, 0, 10_000, 90_000), Vec::new(), Vec::new())],
        },
    });
    assert_eq!(build(&cache, &resources(), 0), expected);
}

#[test]
fn an_embedded_tree_comes_before_the_children() {
    let outer = dom(
        vec![
            (NodeType::IFrame, DisplayRectangle::new(None), rect(0, 0, 100_000, 100_000)),
            (NodeType::Div, DisplayRectangle::new(None), rect(0, 0, 1_000, 1_000)),
            (NodeType::IFrame, DisplayRectangle::new(None), rect(0, 0, 2_000, 2_000)),
        ],
        ContentGroup { root: NodeId::new(0), children: vec![leaf(1), leaf(2)] },
    );
    let inner = dom(
        vec![
            (NodeType::Div, DisplayRectangle::new(None), rect(5_000, 5_000, 50_000, 50_000)),
            (NodeType::Div, DisplayRectangle::new(None), rect(6_000, 6_000, 10_000, 10_000)),
        ],
        ContentGroup { root: NodeId::new(0), children: vec![leaf(1)] },
    );
    let mut outer = outer;
    outer.iframe_mappings.insert(0, 1);
    let cache = SolvedLayoutCache { doms: vec![outer, inner] };

    let embedded = plain_frame(
        rect(5_000, 5_000, 50_000, 50_000),
        Vec::new(),
        vec![plain_frame(rect(6_000, 6_000, 10_000, 10_000), Vec::new(), Vec::new())],
    );
    let expected = plain_frame(
        rect(0, 0, 100_000, 100_000),
        Vec::new(),
        vec![
            embedded,
            plain_frame(rect(0, 0, 1_000, 1_000), Vec::new(), Vec::new()),
            // an embedding node without a tree shows nothing
            plain_frame(rect(0, 0, 2_000, 2_000), Vec::new(), Vec::new()),
        ],
    );
    assert_eq!(build(&cache, &resources(), 0), expected);
}

#[test]
fn a_single_node_can_be_built_with_an_embedded_list() {
    let bounds = rect(0, 0, 10_000, 10_000);
    let cache = SolvedLayoutCache {
        doms: vec![dom(vec![(NodeType::Div, DisplayRectangle::new(None), bounds)], leaf(0))],
    };
    let params = DisplayListParametersRef {
        dom_id: DomId(0),
        pipeline_id: PIPELINE,
        window_size: LayoutSize::new(800_000, 600_000),
        layout_cache: &cache,
        app_resources: &resources(),
    };
    let child = plain_frame(rect(1, 2, 3, 4), Vec::new(), Vec::new());
    let mut msg = displaylist_handle_rect(NodeId::new(0), &params, Some(child));
    assert_eq!(
        msg,
        plain_frame(bounds, Vec::new(), vec![plain_frame(rect(1, 2, 3, 4), Vec::new(), Vec::new())])
    );
    msg.append_children(vec![plain_frame(rect(5, 6, 7, 8), Vec::new(), Vec::new())]);
    assert_eq!(
        msg,
        plain_frame(
            bounds,
            Vec::new(),
            vec![
                plain_frame(rect(1, 2, 3, 4), Vec::new(), Vec::new()),
                plain_frame(rect(5, 6, 7, 8), Vec::new(), Vec::new())
            ]
        )
    );
}

#[test]
fn rendered_textures_are_registered_under_the_epoch() {
    let mut registry = TextureRegistry::new();
    let textures = vec![
        RenderedTexture {
            dom_id: DomId(0),
            node_id: NodeId::new(3),
            texture: Texture { texture_id: 70, size: LogicalSize::new(640_000, 480_500) },
        },
        RenderedTexture {
            dom_id: DomId(1),
            node_id: NodeId::new(0),
            texture: Texture { texture_id: 71, size: LogicalSize::new(-5_000, 999) },
        },
    ];
    let keys = vec![
        ImageKey { namespace: IdNamespace(1), key: 100 },
        ImageKey { namespace: IdNamespace(1), key: 101 },
    ];
    let solved = register_rendered_textures(&mut registry, PIPELINE, Epoch(5), textures, &keys);
    let descriptor = |dimensions| ImageDescriptor {
        format: RawImageFormat::RGBA8,
        dimensions,
        stride: None,
        offset: 0,
        is_opaque: false,
        allow_mipmaps: false,
    };
    assert_eq!(
        solved,
        vec![
            SolvedTexture {
                dom_id: DomId(0),
                node_id: NodeId::new(3),
                key: keys[0],
                descriptor: descriptor((640, 480)),
                external_image_id: ExternalImageId(0),
            },
            SolvedTexture {
                dom_id: DomId(1),
                node_id: NodeId::new(0),
                key: keys[1],
                descriptor: descriptor((0, 0)),
                external_image_id: ExternalImageId(1),
            },
        ]
    );
    assert_eq!(get_opengl_texture(&registry, &ExternalImageId(0)), Some((70, (640_000, 480_500))));
    assert_eq!(get_opengl_texture(&registry, &ExternalImageId(1)), Some((71, (-5_000, 999))));
}
