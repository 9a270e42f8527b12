use azul_frame::css::{
    apply_style_property, ColorU, CssImageId, CssProperty, CssPropertyType, CssPropertyValue,
    FloatValue, GradientStopPre, LayoutPosition, LinearGradient, Direction, DirectionCorner,
    ExtendMode, PixelValue, RectLayout, RectStyle, SizeMetric, StyleBackgroundContent,
};
use azul_frame::id_tree::{NodeDataContainer, NodeId};
use azul_frame::rendering_order::DisplayRectangle;
use azul_frame::style_overrides::{
    display_list_from_ui_description, populate_css_properties, CssDeclaration, DynamicCssProperty,
    DynamicOverrides, OverrideWarning, StyledNode,
};
use std::collections::BTreeMap;
use std::rc::Rc;

fn px(value: isize) -> PixelValue {
    PixelValue { metric: SizeMetric::Px, number: FloatValue { number: value * 1000 } }
}

fn width(value: isize) -> CssProperty {
    CssProperty::Width(CssPropertyValue::Exact(px(value)))
}

fn height(value: isize) -> CssProperty {
    CssProperty::Height(CssPropertyValue::Exact(px(value)))
}

fn text_color(r: u8) -> CssProperty {
    CssProperty::TextColor(CssPropertyValue::Exact(ColorU { r, g: 0, b: 0, a: 255 }))
}

fn dynamic(id: &str, default_value: CssProperty) -> CssDeclaration {
    CssDeclaration::Dynamic(DynamicCssProperty { dynamic_id: id.to_string(), default_value })
}

fn overrides_for(node: usize, list: Vec<(&str, CssProperty)>) -> BTreeMap<usize, DynamicOverrides> {
    let mut overrides = DynamicOverrides::new();
    for (id, property) in list {
        overrides.insert(id.to_string(), property);
    }
    let mut map = BTreeMap::new();
    map.insert(node, overrides);
    map
}

#[test]
fn a_property_is_written_into_its_own_field() {
    let mut style = RectStyle::default();
    let mut layout = RectLayout::default();
    apply_style_property(&mut style, &mut layout, &width(10));
    assert_eq!(layout, RectLayout { width: Some(CssPropertyValue::Exact(px(10))), ..RectLayout::default() });
    assert_eq!(style, RectStyle::default());

    apply_style_property(&mut style, &mut layout, &text_color(9));
    assert_eq!(
        style,
        RectStyle {
            text_color: Some(CssPropertyValue::Exact(ColorU { r: 9, g: 0, b: 0, a: 255 })),
            ..RectStyle::default()
        }
    );
    apply_style_property(
        &mut style,
        &mut layout,
        &CssProperty::Position(CssPropertyValue::Exact(LayoutPosition::Absolute)),
    );
    assert_eq!(layout.position, Some(CssPropertyValue::Exact(LayoutPosition::Absolute)));
    assert_eq!(layout.width, Some(CssPropertyValue::Exact(px(10))));
}

#[test]
fn a_background_is_copied_with_its_gradient() {
    let gradient = LinearGradient {
        direction: Direction::FromTo(DirectionCorner::Top, DirectionCorner::Bottom),
        extend_mode: ExtendMode::Clamp,
        stops: Rc::new(vec![
            GradientStopPre { offset: None, color: ColorU { r: 1, g: 2, b: 3, a: 4 } },
            GradientStopPre { offset: None, color: ColorU { r: 5, g: 6, b: 7, a: 8 } },
        ]),
    };
    let property = CssProperty::BackgroundContent(CssPropertyValue::Exact(
        StyleBackgroundContent::LinearGradient(gradient.clone()),
    ));
    assert_eq!(property.get_type(), CssPropertyType::BackgroundContent);
    assert_eq!(property.clone(), property);
    let mut style = RectStyle::default();
    let mut layout = RectLayout::default();
    apply_style_property(&mut style, &mut layout, &property);
    assert_eq!(
        style.background,
        Some(CssPropertyValue::Exact(StyleBackgroundContent::LinearGradient(gradient)))
    );

    let image = CssProperty::BackgroundContent(CssPropertyValue::Exact(StyleBackgroundContent::Image(
        CssImageId("cat".to_string()),
    )));
    apply_style_property(&mut style, &mut layout, &image);
    assert_eq!(
        style.background,
        Some(CssPropertyValue::Exact(StyleBackgroundContent::Image(CssImageId("cat".to_string()))))
    );
}

#[test]
fn an_override_of_the_same_property_is_applied() {
    let mut rect = DisplayRectangle::new(Some(5));
    let constraints = vec![CssDeclaration::Static(height(3)), dynamic("my_width", width(10))];
    let overrides = overrides_for(4, vec![("my_width", width(99))]);
    let warnings = populate_css_properties(&mut rect, NodeId::new(4), &constraints, &overrides);
    assert!(warnings.is_empty());
    assert_eq!(rect.tag, Some(5));
    assert_eq!(rect.layout.width, Some(CssPropertyValue::Exact(px(99))));
    assert_eq!(rect.layout.height, Some(CssPropertyValue::Exact(px(3))));
}

#[test]
fn an_override_of_another_property_is_dropped_and_reported_once() {
    let mut rect = DisplayRectangle::new(None);
    let constraints = vec![
        CssDeclaration::Static(width(1)),
        dynamic("my_width", width(10)),
        CssDeclaration::Static(height(2)),
    ];
    let overrides = overrides_for(0, vec![("my_width", text_color(200))]);
    let warnings = populate_css_properties(&mut rect, NodeId::new(0), &constraints, &overrides);
    assert_eq!(
        warnings,
        vec![OverrideWarning { default: width(10), overridden_property: text_color(200) }]
    );
    // the rendered values are those of the static declarations alone
    assert_eq!(rect.layout.width, Some(CssPropertyValue::Exact(px(1))));
    assert_eq!(rect.layout.height, Some(CssPropertyValue::Exact(px(2))));
    assert_eq!(rect.style, RectStyle::default());
}

#[test]
fn a_dynamic_declaration_without_override_writes_nothing() {
    let mut rect = DisplayRectangle::new(None);
    let constraints = vec![dynamic("my_width", width(10))];
    let warnings = populate_css_properties(&mut rect, NodeId::new(0), &constraints, &BTreeMap::new());
    assert!(warnings.is_empty());
    assert_eq!(rect.layout, RectLayout::default());
    // overrides of another node are not looked at
    let overrides = overrides_for(1, vec![("my_width", width(99))]);
    let warnings = populate_css_properties(&mut rect, NodeId::new(0), &constraints, &overrides);
    assert!(warnings.is_empty());
    assert_eq!(rect.layout, RectLayout::default());
}

#[test]
fn every_mismatched_pair_is_reported_exactly_once() {
    let styled = NodeDataContainer::new(vec![
        StyledNode { css_constraints: vec![dynamic("a", width(1)), dynamic("b", height(1))] },
        StyledNode { css_constraints: vec![dynamic("a", width(2))] },
        StyledNode { css_constraints: vec![CssDeclaration::Static(width(3))] },
    ]);
    let mut overrides = overrides_for(0, vec![("a", text_color(1)), ("b", height(7))]);
    overrides.append(&mut overrides_for(1, vec![("a", height(8))]));
    let mut tags = BTreeMap::new();
    tags.insert(1usize, 44u64);

    let (display_list, warnings) = display_list_from_ui_description(&styled, &tags, &overrides);
    assert_eq!(
        warnings,
        vec![
            OverrideWarning { default: width(1), overridden_property: text_color(1) },
            OverrideWarning { default: width(2), overridden_property: height(8) },
        ]
    );
    assert_eq!(display_list.rectangles.len(), 3);
    let first = display_list.rectangles.get(NodeId::new(0)).unwrap();
    assert_eq!(first.tag, None);
    assert_eq!(first.layout.width, None);
    assert_eq!(first.layout.height, Some(CssPropertyValue::Exact(px(7))));
    let second = display_list.rectangles.get(NodeId::new(1)).unwrap();
    assert_eq!(second.tag, Some(44));
    assert_eq!(second.layout, RectLayout::default());
    let third = display_list.rectangles.get(NodeId::new(2)).unwrap();
    assert_eq!(third.layout.width, Some(CssPropertyValue::Exact(px(3))));
    assert!(display_list.rectangles.get(NodeId::new(3)).is_none());
}
