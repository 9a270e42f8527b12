use azul_frame::css::{CssPropertyValue, LayoutPosition, Overflow};
use azul_frame::geometry::{LayoutPoint, LayoutRect, LayoutSize, ResolvedOffsets};
use azul_frame::id_tree::{Node, NodeDataContainer, NodeHierarchy, NodeId};
use azul_frame::rendering_order::{
    determine_rendering_order, sort_children_by_position, ContentGroup, DisplayRectangle,
};
use azul_frame::resources::PipelineId;
use azul_frame::scroll_clip::{
    get_nodes_that_need_scroll_clip, DomHash, ExternalScrollId, PositionedRectangle, ScrollTagId,
    TagIdGenerator,
};

fn id(index: usize) -> NodeId {
    NodeId::new(index)
}

fn node(
    parent: Option<usize>,
    previous_sibling: Option<usize>,
    next_sibling: Option<usize>,
    first_child: Option<usize>,
    last_child: Option<usize>,
) -> Node {
    Node {
        parent: parent.map(id),
        previous_sibling: previous_sibling.map(id),
        next_sibling: next_sibling.map(id),
        first_child: first_child.map(id),
        last_child: last_child.map(id),
    }
}

fn rect_with_position(position: Option<LayoutPosition>) -> DisplayRectangle {
    let mut rect = DisplayRectangle::new(None);
    rect.layout.position = position.map(CssPropertyValue::Exact);
    rect
}

fn leaf(index: usize) -> ContentGroup {
    ContentGroup { root: id(index), children: Vec::new() }
}

fn positioned(x: i64, y: i64, width: i64, height: i64, overflow: Overflow) -> PositionedRectangle {
    PositionedRectangle {
        bounds: LayoutRect::new(LayoutPoint::new(x, y), LayoutSize::new(width, height)),
        padding: ResolvedOffsets::zero(),
        margin: ResolvedOffsets::zero(),
        border_widths: ResolvedOffsets::zero(),
        overflow,
    }
}

// root (0) with the children 1 (absolute), 2, 3 (absolute), 4
fn flat_tree() -> (NodeHierarchy, NodeDataContainer<DisplayRectangle>) {
    let hierarchy = NodeHierarchy::new(vec![
        node(None, None, None, Some(1), Some(4)),
        node(Some(0), None, Some(2), None, None),
        node(Some(0), Some(1), Some(3), None, None),
        node(Some(0), Some(2), Some(4), None, None),
        node(Some(0), Some(3), None, None, None),
    ]);
    let rects = NodeDataContainer::new(vec![
        rect_with_position(None),
        rect_with_position(Some(LayoutPosition::Absolute)),
        rect_with_position(Some(LayoutPosition::Relative)),
        rect_with_position(Some(LayoutPosition::Absolute)),
        rect_with_position(None),
    ]);
    (hierarchy, rects)
}

#[test]
fn children_are_listed_in_document_order() {
    let (hierarchy, _) = flat_tree();
    assert_eq!(hierarchy.children(id(0)), vec![id(1), id(2), id(3), id(4)]);
    assert_eq!(hierarchy.children(id(2)), Vec::<NodeId>::new());
}

#[test]
fn absolute_children_come_after_the_others() {
    let (hierarchy, rects) = flat_tree();
    assert_eq!(
        sort_children_by_position(id(0), &hierarchy, &rects),
        vec![id(2), id(4), id(1), id(3)]
    );
}

#[test]
fn paint_order_is_a_permutation_of_the_children() {
    let (hierarchy, rects) = flat_tree();
    let mut sorted = sort_children_by_position(id(0), &hierarchy, &rects);
    sorted.sort();
    assert_eq!(sorted, hierarchy.children(id(0)));
}

#[test]
fn unset_and_keyword_positions_are_not_absolute() {
    let hierarchy = NodeHierarchy::new(vec![
        node(None, None, None, Some(1), Some(3)),
        node(Some(0), None, Some(2), None, None),
        node(Some(0), Some(1), Some(3), None, None),
        node(Some(0), Some(2), None, None, None),
    ]);
    let mut inherit = DisplayRectangle::new(None);
    inherit.layout.position = Some(CssPropertyValue::Inherit);
    let rects = NodeDataContainer::new(vec![
        rect_with_position(None),
        rect_with_position(Some(LayoutPosition::Absolute)),
        inherit,
        rect_with_position(Some(LayoutPosition::Static)),
    ]);
    assert_eq!(sort_children_by_position(id(0), &hierarchy, &rects), vec![id(2), id(3), id(1)]);
}

#[test]
fn rendering_order_of_a_single_node() {
    let hierarchy = NodeHierarchy::new(vec![Node::root()]);
    let rects = NodeDataContainer::new(vec![DisplayRectangle::new(None)]);
    assert_eq!(determine_rendering_order(&hierarchy, &rects), leaf(0));
}

#[test]
fn rendering_order_descends_depth_first() {
    // 0
    // +- 1 (absolute)
    // |  +- 2
    // |  +- 3
    // +- 4
    //    +- 5 (absolute)
    //    +- 6
    let hierarchy = NodeHierarchy::new(vec![
        node(None, None, None, Some(1), Some(4)),
        node(Some(0), None, Some(4), Some(2), Some(3)),
        node(Some(1), None, Some(3), None, None),
        node(Some(1), Some(2), None, None, None),
        node(Some(0), Some(1), None, Some(5), Some(6)),
        node(Some(4), None, Some(6), None, None),
        node(Some(4), Some(5), None, None, None),
    ]);
    let rects = NodeDataContainer::new(vec![
        rect_with_position(None),
        rect_with_position(Some(LayoutPosition::Absolute)),
        rect_with_position(None),
        rect_with_position(None),
        rect_with_position(None),
        rect_with_position(Some(LayoutPosition::Absolute)),
        rect_with_position(None),
    ]);
    let expected = ContentGroup {
        root: id(0),
        children: vec![
            ContentGroup { root: id(4), children: vec![leaf(6), leaf(5)] },
            ContentGroup { root: id(1), children: vec![leaf(2), leaf(3)] },
        ],
    };
    assert_eq!(determine_rendering_order(&hierarchy, &rects), expected);
}

// A three-level tree. The root has `overflow: auto`; one of its children
// is positioned normally, the other absolutely and outside of the root.
#[test]
fn scenario_root_scrolls_and_absolute_child_paints_last() {
    let hierarchy = NodeHierarchy::new(vec![
        node(None, None, None, Some(1), Some(2)),
        node(Some(0), None, Some(2), None, None),
        node(Some(0), Some(1), None, Some(3), Some(3)),
        node(Some(2), None, None, None, None),
    ]);
    let rects = NodeDataContainer::new(vec![
        rect_with_position(None),
        rect_with_position(Some(LayoutPosition::Absolute)),
        rect_with_position(None),
        rect_with_position(None),
    ]);
    let order = determine_rendering_order(&hierarchy, &rects);
    assert_eq!(
        order,
        ContentGroup {
            root: id(0),
            children: vec![ContentGroup { root: id(2), children: vec![leaf(3)] }, leaf(1)],
        }
    );

    let layout = NodeDataContainer::new(vec![
        positioned(0, 0, 100_000, 100_000, Overflow::Auto),
        positioned(150_000, 0, 50_000, 50_000, Overflow::Auto),
        positioned(0, 0, 100_000, 50_000, Overflow::Auto),
        positioned(0, 0, 50_000, 50_000, Overflow::Auto),
    ]);
    let hashes = NodeDataContainer::new(vec![DomHash(11), DomHash(12), DomHash(13), DomHash(14)]);
    let parents = vec![(0, id(0)), (1, id(2))];
    let mut tags = TagIdGenerator::starting_at(1);
    let scrolled = get_nodes_that_need_scroll_clip(
        &hierarchy,
        &rects,
        &hashes,
        &layout,
        &parents,
        PipelineId(0, 9),
        &mut tags,
    );
    assert_eq!(scrolled.len(), 1);
    let root = scrolled.get(id(0)).expect("the root scrolls");
    assert_eq!(
        root.child_rect,
        LayoutRect::new(LayoutPoint::new(0, 0), LayoutSize::new(200_000, 50_000))
    );
    assert_eq!(root.parent_external_scroll_id, ExternalScrollId(11, PipelineId(0, 9)));
    assert_eq!(root.parent_dom_hash, DomHash(11));
    assert_eq!(root.scroll_tag_id, ScrollTagId(1));
    assert!(scrolled.get(id(2)).is_none());
    assert_eq!(scrolled.node_of_tag(ScrollTagId(1)), Some(id(0)));
    assert_eq!(tags.peek(), 2);
}
