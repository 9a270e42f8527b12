use azul_frame::css::Overflow;
use azul_frame::geometry::{
    contains_rect_rounded, round_to_pixel, subtract_padding, LayoutPoint, LayoutRect, LayoutSize,
    ResolvedOffsets,
};
use azul_frame::id_tree::{Node, NodeDataContainer, NodeHierarchy, NodeId};
use azul_frame::rendering_order::DisplayRectangle;
use azul_frame::resources::PipelineId;
use azul_frame::scroll_clip::{
    get_nodes_that_need_scroll_clip, tags_are_below, DomHash, ExternalScrollId,
    PositionedRectangle, ScrollTagId, ScrolledNodes, TagIdGenerator,
};

fn rect(x: i64, y: i64, width: i64, height: i64) -> LayoutRect {
    LayoutRect::new(LayoutPoint::new(x, y), LayoutSize::new(width, height))
}

fn positioned(bounds: LayoutRect, overflow: Overflow) -> PositionedRectangle {
    PositionedRectangle {
        bounds,
        padding: ResolvedOffsets::zero(),
        margin: ResolvedOffsets::zero(),
        border_widths: ResolvedOffsets::zero(),
        overflow,
    }
}

// a parent (0) with two children (1, 2)
fn family() -> NodeHierarchy {
    NodeHierarchy::new(vec![
        Node { first_child: Some(NodeId::new(1)), last_child: Some(NodeId::new(2)), ..Node::root() },
        Node { parent: Some(NodeId::new(0)), next_sibling: Some(NodeId::new(2)), ..Node::root() },
        Node { parent: Some(NodeId::new(0)), previous_sibling: Some(NodeId::new(1)), ..Node::root() },
    ])
}

fn analyse(
    parent: LayoutRect,
    overflow: Overflow,
    first: LayoutRect,
    second: LayoutRect,
    tag: Option<u64>,
    first_tag: u64,
) -> (ScrolledNodes, u64) {
    let display_rects = NodeDataContainer::new(vec![
        DisplayRectangle::new(tag),
        DisplayRectangle::new(None),
        DisplayRectangle::new(None),
    ]);
    let layout = NodeDataContainer::new(vec![
        positioned(parent, overflow),
        positioned(first, Overflow::Auto),
        positioned(second, Overflow::Auto),
    ]);
    let hashes = NodeDataContainer::new(vec![DomHash(500), DomHash(501), DomHash(502)]);
    let mut tags = TagIdGenerator::starting_at(first_tag);
    let scrolled = get_nodes_that_need_scroll_clip(
        &family(),
        &display_rects,
        &hashes,
        &layout,
        &vec![(0, NodeId::new(0))],
        PipelineId(3, 4),
        &mut tags,
    );
    (scrolled, tags.peek())
}

#[test]
fn rounding_goes_to_the_nearest_pixel_away_from_zero() {
    assert_eq!(round_to_pixel(0), 0);
    assert_eq!(round_to_pixel(499), 0);
    assert_eq!(round_to_pixel(500), 1);
    assert_eq!(round_to_pixel(1_499), 1);
    assert_eq!(round_to_pixel(1_500), 2);
    assert_eq!(round_to_pixel(-499), 0);
    assert_eq!(round_to_pixel(-500), -1);
    assert_eq!(round_to_pixel(-1_500), -2);
    assert_eq!(round_to_pixel(i64::MAX), 9_223_372_036_854_776);
    assert_eq!(round_to_pixel(i64::MIN), -9_223_372_036_854_776);
}

#[test]
fn containment_tolerates_less_than_half_a_pixel() {
    let outer = rect(0, 0, 100_000, 100_000);
    assert!(contains_rect_rounded(&outer, rect(0, 0, 100_000, 100_000)));
    assert!(contains_rect_rounded(&outer, rect(-400, -400, 100_400, 100_400)));
    assert!(!contains_rect_rounded(&outer, rect(0, 0, 100_500, 100_000)));
    assert!(!contains_rect_rounded(&outer, rect(-500, 0, 10_000, 10_000)));
}

#[test]
fn containment_compares_the_axes_independently() {
    let outer = rect(10_000, 50_000, 100_000, 20_000);
    // inside horizontally and vertically
    assert!(contains_rect_rounded(&outer, rect(60_000, 50_000, 50_000, 20_000)));
    // too high
    assert!(!contains_rect_rounded(&outer, rect(60_000, 50_000, 50_000, 21_000)));
    // above the outer rectangle
    assert!(!contains_rect_rounded(&outer, rect(60_000, 49_000, 50_000, 20_000)));
    // right of the outer rectangle
    assert!(!contains_rect_rounded(&outer, rect(60_000, 50_000, 51_000, 20_000)));
}

#[test]
fn union_is_the_bounding_rectangle() {
    assert_eq!(LayoutRect::union(&Vec::new()), None);
    assert_eq!(LayoutRect::union(&vec![rect(5, 6, 7, 8)]), Some(rect(5, 6, 7, 8)));
    assert_eq!(
        LayoutRect::union(&vec![rect(10, 20, 30, 40), rect(-5, 25, 10, 100), rect(0, 0, 1, 1)]),
        Some(rect(-5, 0, 45, 125))
    );
}

#[test]
fn padding_is_subtracted_on_all_sides() {
    let padding = ResolvedOffsets { top: 1_000, left: 2_000, right: 3_000, bottom: 4_000 };
    assert_eq!(
        subtract_padding(&rect(10_000, 20_000, 100_000, 50_000), &padding),
        rect(12_000, 21_000, 95_000, 45_000)
    );
    // the result may have a negative size
    assert_eq!(subtract_padding(&rect(0, 0, 1_000, 1_000), &padding), rect(2_000, 1_000, -4_000, -4_000));
}

#[test]
fn contained_children_need_no_scroll_frame() {
    let (scrolled, next) = analyse(
        rect(0, 0, 100_000, 100_000),
        Overflow::Auto,
        rect(0, 0, 50_000, 50_000),
        rect(50_000, 50_000, 50_000, 50_000),
        None,
        7,
    );
    assert_eq!(scrolled.len(), 0);
    assert!(scrolled.get(NodeId::new(0)).is_none());
    assert_eq!(next, 7);
}

#[test]
fn hidden_and_visible_overflow_need_no_scroll_frame() {
    for overflow in [Overflow::Hidden, Overflow::Visible] {
        let (scrolled, next) = analyse(
            rect(0, 0, 100_000, 100_000),
            overflow,
            rect(0, 0, 50_000, 50_000),
            rect(0, 0, 500_000, 500_000),
            None,
            7,
        );
        assert_eq!(scrolled.len(), 0);
        assert_eq!(next, 7);
    }
}

#[test]
fn overflowing_children_get_a_scroll_frame() {
    for overflow in [Overflow::Auto, Overflow::Scroll] {
        let (scrolled, next) = analyse(
            rect(0, 0, 100_000, 100_000),
            overflow,
            rect(0, 0, 50_000, 50_000),
            rect(0, 90_000, 50_000, 50_000),
            None,
            7,
        );
        assert_eq!(scrolled.len(), 1);
        let node = scrolled.get(NodeId::new(0)).expect("the parent scrolls");
        assert_eq!(node.child_rect, rect(0, 0, 50_000, 140_000));
        assert_eq!(node.parent_external_scroll_id, ExternalScrollId(500, PipelineId(3, 4)));
        assert_eq!(node.parent_dom_hash, DomHash(500));
        assert_eq!(node.scroll_tag_id, ScrollTagId(7));
        assert_eq!(scrolled.node_of_tag(ScrollTagId(7)), Some(NodeId::new(0)));
        assert_eq!(next, 8);
    }
}

#[test]
fn an_existing_hit_test_tag_is_reused() {
    let (scrolled, next) = analyse(
        rect(0, 0, 100_000, 100_000),
        Overflow::Scroll,
        rect(0, 0, 50_000, 50_000),
        rect(0, 90_000, 50_000, 50_000),
        Some(5),
        7,
    );
    let node = scrolled.get(NodeId::new(0)).expect("the parent scrolls");
    assert_eq!(node.scroll_tag_id, ScrollTagId(5));
    assert_eq!(scrolled.node_of_tag(ScrollTagId(5)), Some(NodeId::new(0)));
    assert_eq!(scrolled.node_of_tag(ScrollTagId(7)), None);
    assert_eq!(next, 7);
}

#[test]
fn existing_tags_are_compared_with_the_next_fresh_one() {
    let rects = NodeDataContainer::new(vec![
        DisplayRectangle::new(Some(3)),
        DisplayRectangle::new(None),
        DisplayRectangle::new(Some(6)),
    ]);
    assert!(tags_are_below(&rects, 7));
    assert!(!tags_are_below(&rects, 6));
    assert!(!tags_are_below(&rects, 0));
    assert!(tags_are_below(&NodeDataContainer::new(Vec::new()), 0));
    assert!(tags_are_below(&NodeDataContainer::new(vec![DisplayRectangle::new(None)]), 0));
}

// A root (0) that scrolls and carries a tag, and its child (1) that
// scrolls and carries none: every scroll tag leads back to its own node.
#[test]
fn scroll_tags_lead_back_to_their_nodes() {
    let hierarchy = NodeHierarchy::new(vec![
        Node { first_child: Some(NodeId::new(1)), last_child: Some(NodeId::new(1)), ..Node::root() },
        Node {
            parent: Some(NodeId::new(0)),
            first_child: Some(NodeId::new(2)),
            last_child: Some(NodeId::new(2)),
            ..Node::root()
        },
        Node { parent: Some(NodeId::new(1)), ..Node::root() },
    ]);
    let display_rects = NodeDataContainer::new(vec![
        DisplayRectangle::new(Some(4)),
        DisplayRectangle::new(None),
        DisplayRectangle::new(Some(2)),
    ]);
    let layout = NodeDataContainer::new(vec![
        positioned(rect(0, 0, 100_000, 100_000), Overflow::Auto),
        positioned(rect(0, 0, 200_000, 100_000), Overflow::Scroll),
        positioned(rect(0, 0, 200_000, 300_000), Overflow::Auto),
    ]);
    let hashes = NodeDataContainer::new(vec![DomHash(1), DomHash(2), DomHash(3)]);
    assert!(tags_are_below(&display_rects, 5));
    let mut tags = TagIdGenerator::starting_at(5);
    let scrolled = get_nodes_that_need_scroll_clip(
        &hierarchy,
        &display_rects,
        &hashes,
        &layout,
        &vec![(0, NodeId::new(0)), (1, NodeId::new(1))],
        PipelineId(0, 0),
        &mut tags,
    );
    assert_eq!(scrolled.len(), 2);
    let root = scrolled.get(NodeId::new(0)).expect("the root scrolls").scroll_tag_id;
    let child = scrolled.get(NodeId::new(1)).expect("the child scrolls").scroll_tag_id;
    assert_eq!(root, ScrollTagId(4));
    assert_eq!(child, ScrollTagId(5));
    assert_eq!(scrolled.node_of_tag(root), Some(NodeId::new(0)));
    assert_eq!(scrolled.node_of_tag(child), Some(NodeId::new(1)));
    assert_eq!(scrolled.node_of_tag(ScrollTagId(2)), None);
    assert_eq!(tags.peek(), 6);
}

#[test]
fn a_node_without_children_needs_no_scroll_frame() {
    let hierarchy = NodeHierarchy::new(vec![Node::root()]);
    let display_rects = NodeDataContainer::new(vec![DisplayRectangle::new(None)]);
    let layout = NodeDataContainer::new(vec![positioned(rect(0, 0, 1, 1), Overflow::Scroll)]);
    let hashes = NodeDataContainer::new(vec![DomHash(1)]);
    let mut tags = TagIdGenerator::starting_at(0);
    let scrolled = get_nodes_that_need_scroll_clip(
        &hierarchy,
        &display_rects,
        &hashes,
        &layout,
        &vec![(0, NodeId::new(0))],
        PipelineId(0, 0),
        &mut tags,
    );
    assert_eq!(scrolled.len(), 0);
}

// The same content at another index of another tree keeps its scroll id.
#[test]
fn external_scroll_ids_are_stable_across_trees() {
    let (first, _) = analyse(
        rect(0, 0, 100_000, 100_000),
        Overflow::Scroll,
        rect(0, 0, 50_000, 50_000),
        rect(0, 90_000, 50_000, 50_000),
        None,
        1,
    );

    // the same parent, now at index 1 below a new root
    let hierarchy = NodeHierarchy::new(vec![
        Node { first_child: Some(NodeId::new(1)), last_child: Some(NodeId::new(1)), ..Node::root() },
        Node {
            parent: Some(NodeId::new(0)),
            first_child: Some(NodeId::new(2)),
            last_child: Some(NodeId::new(2)),
            ..Node::root()
        },
        Node { parent: Some(NodeId::new(1)), ..Node::root() },
    ]);
    let display_rects = NodeDataContainer::new(vec![
        DisplayRectangle::new(None),
        DisplayRectangle::new(None),
        DisplayRectangle::new(None),
    ]);
    let layout = NodeDataContainer::new(vec![
        positioned(rect(0, 0, 900_000, 900_000), Overflow::Auto),
        positioned(rect(10_000, 10_000, 100_000, 100_000), Overflow::Scroll),
        positioned(rect(10_000, 10_000, 100_000, 300_000), Overflow::Auto),
    ]);
    let hashes = NodeDataContainer::new(vec![DomHash(77), DomHash(500), DomHash(78)]);
    let mut tags = TagIdGenerator::starting_at(90);
    let second = get_nodes_that_need_scroll_clip(
        &hierarchy,
        &display_rects,
        &hashes,
        &layout,
        &vec![(0, NodeId::new(0)), (1, NodeId::new(1))],
        PipelineId(3, 4),
        &mut tags,
    );
    assert_eq!(second.len(), 1);
    assert_eq!(
        first.get(NodeId::new(0)).unwrap().parent_external_scroll_id,
        second.get(NodeId::new(1)).unwrap().parent_external_scroll_id
    );
}
