//! Which nodes need a scroll frame, and under which identity.
//!
//! A node gets a scroll frame when its children reach outside its bounds
//! and its overflow lets the user scroll. The frame's external id is made
//! from the node's content and the pipeline alone, so it stays the same
//! from frame to frame even when the node's index in the arena changes.

use vstd::prelude::*;
use std::collections::BTreeMap;
use crate::css::Overflow;
use crate::geometry::{contains_rect_rounded, contains_rounded, LayoutRect, ResolvedOffsets};
use crate::id_tree::{NodeDataContainer, NodeHierarchy, NodeId};
use crate::rendering_order::DisplayRectangle;
use crate::resources::PipelineId;

verus! {

broadcast use vstd::std_specs::btree::group_btree_axioms;

/// Where the layout solver placed a node.
#[derive(Debug, Clone, Copy, PartialEq, Eq, Structural, Hash)]
pub struct PositionedRectangle {
    /// Outer bounds of the rectangle
    pub bounds: LayoutRect,
    /// Padding of the rectangle
    pub padding: ResolvedOffsets,
    /// Margin of the rectangle
    pub margin: ResolvedOffsets,
    /// Border widths of the rectangle
    pub border_widths: ResolvedOffsets,
    /// Determined overflow of this rectangle
    pub overflow: Overflow,
}

/// Hash of the static content of a node.
#[derive(Debug, Clone, Copy, PartialEq, Eq, Structural, Hash, PartialOrd, Ord)]
pub struct DomHash(pub u64);

/// Identity of a scroll frame that persists across frames.
#[derive(Debug, Clone, Copy, PartialEq, Eq, Structural, Hash, PartialOrd, Ord)]
pub struct ExternalScrollId(pub u64, pub PipelineId);

/// Tag by which a hit test finds a scrollable node.
#[derive(Debug, Clone, Copy, PartialEq, Eq, Structural, Hash, PartialOrd, Ord)]
pub struct ScrollTagId(pub u64);

/// Source of tags that were never handed out before.
#[derive(Debug)]
pub struct TagIdGenerator {
    next_tag: u64,
}

impl TagIdGenerator {
    /// The number that the next minted tag will carry.
    pub closed spec fn next(&self) -> u64 {
        self.next_tag
    }

    /// A generator whose first tag carries the number `first`.
    pub fn starting_at(first: u64) -> (generator: TagIdGenerator)
        ensures
            generator.next() == first,
    {
        TagIdGenerator { next_tag: first }
    }

    /// The number that the next minted tag will carry.
    pub fn peek(&self) -> (next: u64)
        ensures
            next == self.next(),
    {
        self.next_tag
    }

    /// Mints a tag that this generator has not handed out before.
    pub fn fresh(&mut self) -> (tag: ScrollTagId)
        requires
            old(self).next() < u64::MAX,
        ensures
            tag.0 == old(self).next(),
            final(self).next() == old(self).next() + 1,
    {
        let tag = ScrollTagId(self.next_tag);
        self.next_tag = self.next_tag + 1;
        tag
    }
}

/// A node whose children overflow it and can be scrolled.
#[derive(Debug, Clone, Copy, PartialEq, Eq, Structural, Hash)]
pub struct OverflowingScrollNode {
    /// Bounding rectangle of the node's children
    pub child_rect: LayoutRect,
    pub parent_external_scroll_id: ExternalScrollId,
    pub parent_dom_hash: DomHash,
    pub scroll_tag_id: ScrollTagId,
}

/// The nodes of one tree that need a scroll frame.
#[derive(Debug)]
pub struct ScrolledNodes {
    /// The scroll node of each overflowing node, by the node's index
    pub overflowing_nodes: BTreeMap<usize, OverflowingScrollNode>,
    /// The node that each scroll tag stands for, by the tag's number
    pub tags_to_node_ids: BTreeMap<u64, NodeId>,
}

impl ScrolledNodes {
    /// Whether the tag map leads from the scroll tag of every scroll node
    /// back to that node, so that no two scroll nodes share a tag.
    pub open spec fn has_unique_tags(&self) -> bool {
        tags_lead_back(self.overflowing_nodes@, self.tags_to_node_ids@)
    }

    /// The scroll node of `node_id`, if it has one.
    pub fn get(&self, node_id: NodeId) -> (node: Option<&OverflowingScrollNode>)
        ensures
            node == if self.overflowing_nodes@.contains_key(node_id.index) {
                Some(&self.overflowing_nodes@[node_id.index])
            } else {
                None
            },
    {
        self.overflowing_nodes.get(&node_id.index)
    }

    /// The node that the scroll tag `tag` stands for, if any.
    pub fn node_of_tag(&self, tag: ScrollTagId) -> (node: Option<NodeId>)
        ensures
            node == if self.tags_to_node_ids@.contains_key(tag.0) {
                Some(self.tags_to_node_ids@[tag.0])
            } else {
                None
            },
    {
        match self.tags_to_node_ids.get(&tag.0) {
            Some(id) => Some(*id),
            None => None,
        }
    }

    /// Number of nodes that need a scroll frame.
    pub fn len(&self) -> (n: usize)
        ensures
            n == self.overflowing_nodes@.len(),
    {
        self.overflowing_nodes.len()
    }
}

/// The bounds of the children of `parent`, in document order.
pub open spec fn children_bounds(
    hierarchy: NodeHierarchy,
    positioned: Seq<PositionedRectangle>,
    parent: NodeId,
) -> Seq<LayoutRect> {
    hierarchy.children_of(parent).map_values(|child: NodeId| positioned[child.index as int].bounds)
}

/// The smallest rectangle around the children of `parent`, which must
/// have at least one child.
pub open spec fn children_scroll_rect(
    hierarchy: NodeHierarchy,
    positioned: Seq<PositionedRectangle>,
    parent: NodeId,
) -> LayoutRect {
    let extent = LayoutRect::extent_of(children_bounds(hierarchy, positioned, parent));
    LayoutRect {
        origin: crate::geometry::LayoutPoint { x: extent.left as i64, y: extent.top as i64 },
        size: crate::geometry::LayoutSize {
            width: (extent.right - extent.left) as i64,
            height: (extent.bottom - extent.top) as i64,
        },
    }
}

/// Whether `parent` needs a scroll frame: it has a child, its children's
/// bounding rectangle is not contained in its own bounds, and its overflow
/// is neither `visible` nor `hidden`.
pub open spec fn needs_scroll_clip(
    hierarchy: NodeHierarchy,
    positioned: Seq<PositionedRectangle>,
    parent: NodeId,
) -> bool {
    let rect = positioned[parent.index as int];
    &&& hierarchy.children_of(parent).len() > 0
    &&& !contains_rounded(rect.bounds, children_scroll_rect(hierarchy, positioned, parent))
    &&& rect.overflow != Overflow::Visible
    &&& rect.overflow != Overflow::Hidden
}

/// The external scroll id of a node with content hash `hash` in
/// `pipeline_id`.
pub open spec fn external_scroll_id(hash: DomHash, pipeline_id: PipelineId) -> ExternalScrollId {
    ExternalScrollId(hash.0, pipeline_id)
}

/// What the analysis has found after some of the parents were looked at.
pub struct ScrollAnalysis {
    pub nodes: Map<usize, OverflowingScrollNode>,
    pub tags: Map<u64, NodeId>,
    pub next_tag: int,
}

/// The hit-test tag that `node` already carries, if any.
pub open spec fn existing_tag(rects: Seq<DisplayRectangle>, node: NodeId) -> Option<u64> {
    if node.index < rects.len() {
        rects[node.index as int].tag
    } else {
        None
    }
}

/// Whether every hit-test tag that a node carries is below `bound`.
pub open spec fn existing_tags_are_below(rects: Seq<DisplayRectangle>, bound: int) -> bool {
    forall|i: int| 0 <= i < rects.len() ==> ((#[trigger] rects[i]).tag matches Some(tag) ==> tag < bound)
}

/// Whether no two nodes carry the same hit-test tag.
pub open spec fn distinct_existing_tags(rects: Seq<DisplayRectangle>) -> bool {
    forall|i: int, j: int|
        0 <= i < rects.len() && 0 <= j < rects.len() && i != j && (#[trigger] rects[i]).tag is Some
            ==> rects[i].tag != (#[trigger] rects[j]).tag
}

/// Whether every hit-test tag that a node carries is below `bound`: that
/// is so where the tags came from a generator whose next number is
/// `bound`.
pub fn tags_are_below(rects: &NodeDataContainer<DisplayRectangle>, bound: u64) -> (below: bool)
    ensures
        below == existing_tags_are_below(rects@, bound as int),
{
    let mut i: usize = 0;
    while i < rects.internal.len()
        invariant
            i <= rects.internal.len(),
            rects@ == rects.internal@,
            forall|k: int| 0 <= k < i ==> ((#[trigger] rects@[k]).tag matches Some(tag) ==> tag < bound),
        decreases rects.internal.len() - i,
    {
        match rects.internal[i].tag {
            Some(tag) => {
                if tag >= bound {
                    return false;
                }
            },
            None => {},
        }
        i = i + 1;
    }
    true
}

/// The analysis after `parent` was looked at, given the analysis before.
pub open spec fn analysis_step(
    before: ScrollAnalysis,
    hierarchy: NodeHierarchy,
    rects: Seq<DisplayRectangle>,
    hashes: Seq<DomHash>,
    positioned: Seq<PositionedRectangle>,
    pipeline_id: PipelineId,
    parent: NodeId,
) -> ScrollAnalysis {
    if needs_scroll_clip(hierarchy, positioned, parent) {
        let tag = match existing_tag(rects, parent) {
            Some(tag) => tag,
            None => before.next_tag as u64,
        };
        ScrollAnalysis {
            nodes: before.nodes.insert(
                parent.index,
                OverflowingScrollNode {
                    child_rect: children_scroll_rect(hierarchy, positioned, parent),
                    parent_external_scroll_id: external_scroll_id(
                        hashes[parent.index as int],
                        pipeline_id,
                    ),
                    parent_dom_hash: hashes[parent.index as int],
                    scroll_tag_id: ScrollTagId(tag),
                },
            ),
            tags: before.tags.insert(tag, parent),
            next_tag: if existing_tag(rects, parent) is Some {
                before.next_tag
            } else {
                before.next_tag + 1
            },
        }
    } else {
        before
    }
}

/// The analysis after all of `parents` were looked at in order, the first
/// fresh tag carrying the number `first_tag`.
pub open spec fn scroll_analysis(
    hierarchy: NodeHierarchy,
    rects: Seq<DisplayRectangle>,
    hashes: Seq<DomHash>,
    positioned: Seq<PositionedRectangle>,
    parents: Seq<(usize, NodeId)>,
    pipeline_id: PipelineId,
    first_tag: int,
) -> ScrollAnalysis
    decreases parents.len(),
{
    if parents.len() == 0 {
        ScrollAnalysis { nodes: Map::empty(), tags: Map::empty(), next_tag: first_tag }
    } else {
        analysis_step(
            scroll_analysis(
                hierarchy,
                rects,
                hashes,
                positioned,
                parents.drop_last(),
                pipeline_id,
                first_tag,
            ),
            hierarchy,
            rects,
            hashes,
            positioned,
            pipeline_id,
            parents.last().1,
        )
    }
}

/// The bounding rectangle of the children of `parent`, or `None` if it has
/// no children.
fn get_scroll_rect(
    node_hierarchy: &NodeHierarchy,
    layouted_rects: &NodeDataContainer<PositionedRectangle>,
    parent: NodeId,
) -> (scroll_rect: Option<LayoutRect>)
    requires
        node_hierarchy.wf(),
        parent.index < node_hierarchy@.len(),
        layouted_rects@.len() == node_hierarchy@.len(),
        forall|i: int| 0 <= i < layouted_rects@.len() ==> (#[trigger] layouted_rects@[i]).bounds.in_range(),
    ensures
        node_hierarchy.children_of(parent).len() == 0 ==> scroll_rect is None,
        node_hierarchy.children_of(parent).len() > 0 ==> scroll_rect == Some(
            children_scroll_rect(*node_hierarchy, layouted_rects@, parent),
        ),
{
    let children = node_hierarchy.children(parent);
    proof {
        node_hierarchy.lemma_children_follow_parent(parent);
    }
    let ghost bounds_of = |child: NodeId| layouted_rects@[child.index as int].bounds;
    let mut bounds: Vec<LayoutRect> = Vec::new();
    let mut i: usize = 0;
    while i < children.len()
        invariant
            i <= children.len(),
            layouted_rects@.len() == node_hierarchy@.len(),
            forall|k: int| 0 <= k < children.len() ==> (#[trigger] children@[k]).index < node_hierarchy@.len(),
            forall|k: int| 0 <= k < layouted_rects@.len() ==> (#[trigger] layouted_rects@[k]).bounds.in_range(),
            bounds_of == |child: NodeId| layouted_rects@[child.index as int].bounds,
            bounds@ == children@.take(i as int).map_values(bounds_of),
        decreases children.len() - i,
    {
        let child = children[i];
        proof {
            children@.lemma_take_succ_push(i as int);
            children@.take(i as int).lemma_push_map_commute(bounds_of, child);
        }
        bounds.push(layouted_rects.internal[child.index].bounds);
        i = i + 1;
    }
    proof {
        assert(children@.take(children.len() as int) =~= children@);
        assert(bounds@ == children_bounds(*node_hierarchy, layouted_rects@, parent));
    }
    LayoutRect::union(&bounds)
}

/// Returns all nodes whose children overflow them and can be scrolled,
/// each with the bounding rectangle of its children, its scroll identity
/// and its hit-test tag. A node that already carries a hit-test tag keeps
/// it; any other gets a fresh one from `tags`.
///
/// The tags that nodes already carry have to come from `tags` too, so
/// that they lie below its next number, which `tags_are_below` tells. A
/// fresh tag then is none of them, and where no two nodes carry the same
/// tag, the tag map leads from every scroll tag back to its own node.
pub fn get_nodes_that_need_scroll_clip(
    node_hierarchy: &NodeHierarchy,
    display_list_rects: &NodeDataContainer<DisplayRectangle>,
    node_hashes: &NodeDataContainer<DomHash>,
    layouted_rects: &NodeDataContainer<PositionedRectangle>,
    parents: &Vec<(usize, NodeId)>,
    pipeline_id: PipelineId,
    tags: &mut TagIdGenerator,
) -> (scrolled: ScrolledNodes)
    requires
        node_hierarchy.wf(),
        layouted_rects@.len() == node_hierarchy@.len(),
        node_hashes@.len() == node_hierarchy@.len(),
        forall|k: int| 0 <= k < parents@.len() ==> (#[trigger] parents@[k]).1.index < node_hierarchy@.len(),
        forall|i: int| 0 <= i < layouted_rects@.len() ==> (#[trigger] layouted_rects@[i]).bounds.in_range(),
        old(tags).next() + parents@.len() <= u64::MAX,
        existing_tags_are_below(display_list_rects@, old(tags).next() as int),
    ensures
        ({
            let analysis = scroll_analysis(
                *node_hierarchy,
                display_list_rects@,
                node_hashes@,
                layouted_rects@,
                parents@,
                pipeline_id,
                old(tags).next() as int,
            );
            &&& scrolled.overflowing_nodes@ == analysis.nodes
            &&& scrolled.tags_to_node_ids@ == analysis.tags
            &&& final(tags).next() == analysis.next_tag
        }),
        distinct_existing_tags(display_list_rects@) ==> scrolled.has_unique_tags(),
{
    let mut nodes: BTreeMap<usize, OverflowingScrollNode> = BTreeMap::new();
    let mut tags_to_node_ids: BTreeMap<u64, NodeId> = BTreeMap::new();
    let ghost first_tag = tags.next() as int;

    let mut i: usize = 0;
    while i < parents.len()
        invariant
            i <= parents.len(),
            node_hierarchy.wf(),
            layouted_rects@.len() == node_hierarchy@.len(),
            node_hashes@.len() == node_hierarchy@.len(),
            forall|k: int| 0 <= k < parents@.len() ==> (#[trigger] parents@[k]).1.index < node_hierarchy@.len(),
            forall|k: int| 0 <= k < layouted_rects@.len() ==> (#[trigger] layouted_rects@[k]).bounds.in_range(),
            first_tag + parents@.len() <= u64::MAX,
            first_tag <= tags.next() <= first_tag + i,
            ({
                let analysis = scroll_analysis(
                    *node_hierarchy,
                    display_list_rects@,
                    node_hashes@,
                    layouted_rects@,
                    parents@.take(i as int),
                    pipeline_id,
                    first_tag,
                );
                &&& nodes@ == analysis.nodes
                &&& tags_to_node_ids@ == analysis.tags
                &&& tags.next() == analysis.next_tag
            }),
        decreases parents.len() - i,
    {
        let parent = parents[i].1;
        proof {
            assert(parents@.take(i + 1).drop_last() =~= parents@.take(i as int));
            assert(parents@.take(i + 1).last() == parents@[i as int]);
        }
        i = i + 1;

        let parent_rect = &layouted_rects.internal[parent.index];

        let children_scroll_rect = match get_scroll_rect(node_hierarchy, layouted_rects, parent) {
            None => {
                continue ;
            },
            Some(sum) => sum,
        };

        // Check if the scroll rect overflows the parent bounds
        if contains_rect_rounded(&parent_rect.bounds, children_scroll_rect) {
            continue ;
        }
        // If the overflow isn't "scroll", then there doesn't need to be a scroll frame

        match parent_rect.overflow {
            Overflow::Visible => {
                continue ;
            },
            Overflow::Hidden => {
                continue ;
            },
            _ => {},
        }

        let parent_dom_hash = node_hashes.internal[parent.index];

        // Create an external scroll id. This id is required to preserve its
        // scroll state accross multiple frames.
        let parent_external_scroll_id = ExternalScrollId(parent_dom_hash.0, pipeline_id);

        // Create a unique scroll tag for hit-testing
        let existing = match display_list_rects.get(parent) {
            Some(node) => node.tag,
            None => None,
        };
        let scroll_tag_id = match existing {
            Some(existing_tag) => ScrollTagId(existing_tag),
            None => tags.fresh(),
        };

        tags_to_node_ids.insert(scroll_tag_id.0, parent);
        nodes.insert(
            parent.index,
            OverflowingScrollNode {
                child_rect: children_scroll_rect,
                parent_external_scroll_id,
                parent_dom_hash,
                scroll_tag_id,
            },
        );
    }
    proof {
        assert(parents@.take(parents.len() as int) =~= parents@);
        if distinct_existing_tags(display_list_rects@) {
            lemma_scroll_tags_are_unique(
                *node_hierarchy,
                display_list_rects@,
                node_hashes@,
                layouted_rects@,
                parents@,
                pipeline_id,
                first_tag,
            );
        }
    }

    ScrolledNodes { overflowing_nodes: nodes, tags_to_node_ids }
}

/// Whether one of `parents` is the node with index `index` and needs a
/// scroll frame.
pub open spec fn is_scrolled_parent(
    hierarchy: NodeHierarchy,
    positioned: Seq<PositionedRectangle>,
    parents: Seq<(usize, NodeId)>,
    index: usize,
) -> bool {
    exists|k: int|
        0 <= k < parents.len() && (#[trigger] parents[k]).1.index == index && needs_scroll_clip(
            hierarchy,
            positioned,
            parents[k].1,
        )
}

/// The analysis holds an entry for exactly those parents that need a
/// scroll frame, and what an entry says of the children's rectangle, the
/// content hash and the external scroll id depends on the node alone.
pub proof fn lemma_scroll_analysis_entries(
    hierarchy: NodeHierarchy,
    rects: Seq<DisplayRectangle>,
    hashes: Seq<DomHash>,
    positioned: Seq<PositionedRectangle>,
    parents: Seq<(usize, NodeId)>,
    pipeline_id: PipelineId,
    first_tag: int,
)
    ensures
        ({
            let analysis = scroll_analysis(
                hierarchy,
                rects,
                hashes,
                positioned,
                parents,
                pipeline_id,
                first_tag,
            );
            forall|index: usize|
                {
                    &&& #[trigger] analysis.nodes.contains_key(index) <==> is_scrolled_parent(
                        hierarchy,
                        positioned,
                        parents,
                        index,
                    )
                    &&& analysis.nodes.contains_key(index) ==> {
                        let entry = analysis.nodes[index];
                        &&& entry.child_rect == children_scroll_rect(
                            hierarchy,
                            positioned,
                            NodeId { index },
                        )
                        &&& entry.parent_dom_hash == hashes[index as int]
                        &&& entry.parent_external_scroll_id == external_scroll_id(
                            hashes[index as int],
                            pipeline_id,
                        )
                    }
                }
        }),
    decreases parents.len(),
{
    let analysis = scroll_analysis(hierarchy, rects, hashes, positioned, parents, pipeline_id, first_tag);
    if parents.len() == 0 {
        assert forall|index: usize|
            !is_scrolled_parent(hierarchy, positioned, parents, index) by {}
    } else {
        let init = parents.drop_last();
        let last = parents.last().1;
        let before = scroll_analysis(hierarchy, rects, hashes, positioned, init, pipeline_id, first_tag);
        lemma_scroll_analysis_entries(hierarchy, rects, hashes, positioned, init, pipeline_id, first_tag);
        assert forall|index: usize|
            {
                &&& #[trigger] analysis.nodes.contains_key(index) <==> is_scrolled_parent(
                    hierarchy,
                    positioned,
                    parents,
                    index,
                )
                &&& analysis.nodes.contains_key(index) ==> {
                    let entry = analysis.nodes[index];
                    &&& entry.child_rect == children_scroll_rect(
                        hierarchy,
                        positioned,
                        NodeId { index },
                    )
                    &&& entry.parent_dom_hash == hashes[index as int]
                    &&& entry.parent_external_scroll_id == external_scroll_id(
                        hashes[index as int],
                        pipeline_id,
                    )
                }
            } by {
            assert(before.nodes.contains_key(index) <==> is_scrolled_parent(
                hierarchy,
                positioned,
                init,
                index,
            ));
            if is_scrolled_parent(hierarchy, positioned, init, index) {
                let k = choose|k: int|
                    0 <= k < init.len() && (#[trigger] init[k]).1.index == index
                        && needs_scroll_clip(hierarchy, positioned, init[k].1);
                assert(parents[k] == init[k]);
            }
            if is_scrolled_parent(hierarchy, positioned, parents, index) {
                let k = choose|k: int|
                    0 <= k < parents.len() && (#[trigger] parents[k]).1.index == index
                        && needs_scroll_clip(hierarchy, positioned, parents[k].1);
                if k < init.len() {
                    assert(init[k] == parents[k]);
                } else {
                    assert(parents[k].1 == last);
                }
            }
            if last.index == index && needs_scroll_clip(hierarchy, positioned, last) {
                assert(parents[parents.len() - 1].1 == last);
                assert(last == NodeId { index });
            }
        }
    }
}

/// The scroll tag of a node is the hit-test tag that the node already
/// carries, if it carries one. Any other scroll tag is fresh: it is none
/// of the tags below `first_tag`, and no two nodes share a fresh tag.
pub proof fn lemma_scroll_tags_are_reused_or_fresh(
    hierarchy: NodeHierarchy,
    rects: Seq<DisplayRectangle>,
    hashes: Seq<DomHash>,
    positioned: Seq<PositionedRectangle>,
    parents: Seq<(usize, NodeId)>,
    pipeline_id: PipelineId,
    first_tag: int,
)
    requires
        0 <= first_tag,
        first_tag + parents.len() <= u64::MAX,
    ensures
        ({
            let analysis = scroll_analysis(
                hierarchy,
                rects,
                hashes,
                positioned,
                parents,
                pipeline_id,
                first_tag,
            );
            &&& first_tag <= analysis.next_tag <= first_tag + parents.len()
            &&& forall|index: usize| #[trigger]
                analysis.nodes.contains_key(index) ==> {
                    let tag = analysis.nodes[index].scroll_tag_id.0;
                    match existing_tag(rects, NodeId { index }) {
                        Some(existing) => tag == existing,
                        None => first_tag <= tag < analysis.next_tag,
                    }
                }
            &&& forall|a: usize, b: usize|
                #![trigger analysis.nodes.contains_key(a), analysis.nodes.contains_key(b)]
                analysis.nodes.contains_key(a) && analysis.nodes.contains_key(b) && a != b
                    && existing_tag(rects, NodeId { index: a }) is None && existing_tag(
                    rects,
                    NodeId { index: b },
                ) is None ==> analysis.nodes[a].scroll_tag_id != analysis.nodes[b].scroll_tag_id
        }),
    decreases parents.len(),
{
    if parents.len() > 0 {
        let init = parents.drop_last();
        let last = parents.last().1;
        lemma_scroll_tags_are_reused_or_fresh(
            hierarchy,
            rects,
            hashes,
            positioned,
            init,
            pipeline_id,
            first_tag,
        );
        assert(last == NodeId { index: last.index });
    }
}

/// Whether the tag map leads from the scroll tag of every entry back to
/// the entry's node. No two entries then share a scroll tag.
pub open spec fn tags_lead_back(nodes: Map<usize, OverflowingScrollNode>, tags: Map<u64, NodeId>) -> bool {
    forall|index: usize| #[trigger]
        nodes.contains_key(index) ==> tags.contains_key(nodes[index].scroll_tag_id.0)
            && tags[nodes[index].scroll_tag_id.0] == (NodeId { index })
}

/// Where every hit-test tag that a node carries is below the first fresh
/// tag, and no two nodes carry the same one, the scroll tags are unique:
/// the tag map leads from the scroll tag of every entry back to the
/// entry's node, and so no two entries share a scroll tag.
pub proof fn lemma_scroll_tags_are_unique(
    hierarchy: NodeHierarchy,
    rects: Seq<DisplayRectangle>,
    hashes: Seq<DomHash>,
    positioned: Seq<PositionedRectangle>,
    parents: Seq<(usize, NodeId)>,
    pipeline_id: PipelineId,
    first_tag: int,
)
    requires
        0 <= first_tag,
        first_tag + parents.len() <= u64::MAX,
        existing_tags_are_below(rects, first_tag),
        distinct_existing_tags(rects),
    ensures
        ({
            let analysis = scroll_analysis(
                hierarchy,
                rects,
                hashes,
                positioned,
                parents,
                pipeline_id,
                first_tag,
            );
            &&& tags_lead_back(analysis.nodes, analysis.tags)
            &&& forall|a: usize, b: usize|
                #![trigger analysis.nodes.contains_key(a), analysis.nodes.contains_key(b)]
                analysis.nodes.contains_key(a) && analysis.nodes.contains_key(b) && a != b
                    ==> analysis.nodes[a].scroll_tag_id != analysis.nodes[b].scroll_tag_id
        }),
    decreases parents.len(),
{
    let analysis = scroll_analysis(hierarchy, rects, hashes, positioned, parents, pipeline_id, first_tag);
    lemma_scroll_tags_are_reused_or_fresh(hierarchy, rects, hashes, positioned, parents, pipeline_id, first_tag);
    if parents.len() > 0 {
        let init = parents.drop_last();
        let last = parents.last().1;
        let before = scroll_analysis(hierarchy, rects, hashes, positioned, init, pipeline_id, first_tag);
        lemma_scroll_tags_are_unique(hierarchy, rects, hashes, positioned, init, pipeline_id, first_tag);
        lemma_scroll_tags_are_reused_or_fresh(hierarchy, rects, hashes, positioned, init, pipeline_id, first_tag);
        if needs_scroll_clip(hierarchy, positioned, last) {
            let tag = analysis.nodes[last.index].scroll_tag_id.0;
            assert(last == NodeId { index: last.index });
            assert forall|index: usize| #[trigger] analysis.nodes.contains_key(index) implies analysis.tags.contains_key(
                analysis.nodes[index].scroll_tag_id.0,
            ) && analysis.tags[analysis.nodes[index].scroll_tag_id.0] == (NodeId { index }) by {
                if index != last.index {
                    assert(before.nodes.contains_key(index));
                    let other = before.nodes[index].scroll_tag_id.0;
                    assert(before.tags[other] == NodeId { index });
                    match existing_tag(rects, NodeId { index }) {
                        Some(e) => {
                            assert(other == e);
                            assert(rects[index as int].tag == Some(e));
                            assert(e < first_tag);
                            match existing_tag(rects, last) {
                                Some(own) => {
                                    assert(rects[last.index as int].tag == Some(own));
                                    assert(own != e);
                                },
                                None => {},
                            }
                        },
                        None => {
                            match existing_tag(rects, last) {
                                Some(own) => {
                                    assert(rects[last.index as int].tag == Some(own));
                                    assert(own < first_tag);
                                },
                                None => {},
                            }
                        },
                    }
                    assert(other != tag);
                }
            }
        }
    }
    assert forall|a: usize, b: usize|
        #![trigger analysis.nodes.contains_key(a), analysis.nodes.contains_key(b)]
        analysis.nodes.contains_key(a) && analysis.nodes.contains_key(b) && a != b implies analysis.nodes[a].scroll_tag_id
        != analysis.nodes[b].scroll_tag_id by {
        let t = analysis.nodes[a].scroll_tag_id.0;
        assert(analysis.tags[t] == NodeId { index: a });
        if analysis.nodes[b].scroll_tag_id.0 == t {
            assert(analysis.tags[t] == NodeId { index: b });
        }
    }
}

/// Every scroll tag of the analysis maps to a node that has an entry, and
/// the scroll tag of every entry is one of the tags of the analysis.
pub proof fn lemma_scroll_tags_map_to_entries(
    hierarchy: NodeHierarchy,
    rects: Seq<DisplayRectangle>,
    hashes: Seq<DomHash>,
    positioned: Seq<PositionedRectangle>,
    parents: Seq<(usize, NodeId)>,
    pipeline_id: PipelineId,
    first_tag: int,
)
    ensures
        ({
            let analysis = scroll_analysis(
                hierarchy,
                rects,
                hashes,
                positioned,
                parents,
                pipeline_id,
                first_tag,
            );
            &&& forall|tag: u64| #[trigger]
                analysis.tags.contains_key(tag) ==> analysis.nodes.contains_key(
                    analysis.tags[tag].index,
                )
            &&& forall|index: usize| #[trigger]
                analysis.nodes.contains_key(index) ==> analysis.tags.contains_key(
                    analysis.nodes[index].scroll_tag_id.0,
                )
        }),
    decreases parents.len(),
{
    if parents.len() > 0 {
        let init = parents.drop_last();
        let last = parents.last().1;
        let before = scroll_analysis(hierarchy, rects, hashes, positioned, init, pipeline_id, first_tag);
        let analysis = analysis_step(before, hierarchy, rects, hashes, positioned, pipeline_id, last);
        lemma_scroll_tags_map_to_entries(hierarchy, rects, hashes, positioned, init, pipeline_id, first_tag);
        assert forall|tag: u64| #[trigger] analysis.tags.contains_key(tag) implies analysis.nodes.contains_key(
            analysis.tags[tag].index,
        ) by {
            if before.tags.contains_key(tag) {
                assert(before.nodes.contains_key(before.tags[tag].index));
            }
        }
        assert forall|index: usize| #[trigger] analysis.nodes.contains_key(index) implies analysis.tags.contains_key(
            analysis.nodes[index].scroll_tag_id.0,
        ) by {
            if before.nodes.contains_key(index) {
                assert(before.tags.contains_key(before.nodes[index].scroll_tag_id.0));
            }
        }
    }
}

/// A parent whose children's bounding rectangle is contained in its own
/// bounds gets no entry, and neither does a parent whose overflow is
/// `hidden` or `visible`, whatever its children's bounds.
pub proof fn lemma_no_scroll_frame_without_need(
    hierarchy: NodeHierarchy,
    rects: Seq<DisplayRectangle>,
    hashes: Seq<DomHash>,
    positioned: Seq<PositionedRectangle>,
    parents: Seq<(usize, NodeId)>,
    pipeline_id: PipelineId,
    first_tag: int,
    parent: NodeId,
)
    requires
        ({
            let rect = positioned[parent.index as int];
            ||| contains_rounded(rect.bounds, children_scroll_rect(hierarchy, positioned, parent))
            ||| rect.overflow == Overflow::Hidden
            ||| rect.overflow == Overflow::Visible
        }),
    ensures
        !scroll_analysis(
            hierarchy,
            rects,
            hashes,
            positioned,
            parents,
            pipeline_id,
            first_tag,
        ).nodes.contains_key(parent.index),
{
    lemma_scroll_analysis_entries(hierarchy, rects, hashes, positioned, parents, pipeline_id, first_tag);
    if is_scrolled_parent(hierarchy, positioned, parents, parent.index) {
        let k = choose|k: int|
            0 <= k < parents.len() && (#[trigger] parents[k]).1.index == parent.index
                && needs_scroll_clip(hierarchy, positioned, parents[k].1);
        assert(parents[k].1 == parent);
    }
}

/// External scroll ids are stable: when two trees are analysed for the
/// same pipeline, two scrolled nodes with the same content hash get the
/// same external scroll id, whatever their indices and whatever else
/// differs between the trees.
pub proof fn lemma_external_scroll_ids_are_stable(
    hierarchy_a: NodeHierarchy,
    rects_a: Seq<DisplayRectangle>,
    hashes_a: Seq<DomHash>,
    positioned_a: Seq<PositionedRectangle>,
    parents_a: Seq<(usize, NodeId)>,
    first_tag_a: int,
    node_a: NodeId,
    hierarchy_b: NodeHierarchy,
    rects_b: Seq<DisplayRectangle>,
    hashes_b: Seq<DomHash>,
    positioned_b: Seq<PositionedRectangle>,
    parents_b: Seq<(usize, NodeId)>,
    first_tag_b: int,
    node_b: NodeId,
    pipeline_id: PipelineId,
)
    requires
        hashes_a[node_a.index as int] == hashes_b[node_b.index as int],
        scroll_analysis(
            hierarchy_a,
            rects_a,
            hashes_a,
            positioned_a,
            parents_a,
            pipeline_id,
            first_tag_a,
        ).nodes.contains_key(node_a.index),
        scroll_analysis(
            hierarchy_b,
            rects_b,
            hashes_b,
            positioned_b,
            parents_b,
            pipeline_id,
            first_tag_b,
        ).nodes.contains_key(node_b.index),
    ensures
        scroll_analysis(
            hierarchy_a,
            rects_a,
            hashes_a,
            positioned_a,
            parents_a,
            pipeline_id,
            first_tag_a,
        ).nodes[node_a.index].parent_external_scroll_id == scroll_analysis(
            hierarchy_b,
            rects_b,
            hashes_b,
            positioned_b,
            parents_b,
            pipeline_id,
            first_tag_b,
        ).nodes[node_b.index].parent_external_scroll_id,
{
    lemma_scroll_analysis_entries(
        hierarchy_a,
        rects_a,
        hashes_a,
        positioned_a,
        parents_a,
        pipeline_id,
        first_tag_a,
    );
    lemma_scroll_analysis_entries(
        hierarchy_b,
        rects_b,
        hashes_b,
        positioned_b,
        parents_b,
        pipeline_id,
        first_tag_b,
    );
}

} // verus!
