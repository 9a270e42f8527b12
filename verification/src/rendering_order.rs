//! The order in which the nodes of a tree are painted and hit-tested.
//!
//! Within each group of siblings the absolutely positioned nodes come after
//! the others, so that they paint on top; apart from that, document order is
//! kept.

use vstd::prelude::*;
use crate::css::{CssPropertyValue, LayoutPosition, RectLayout, RectStyle};
use crate::id_tree::{NodeDataContainer, NodeHierarchy, NodeId};

verus! {

/// The computed style of one node, split into paint and box-model attributes.
#[derive(Debug)]
pub struct DisplayRectangle {
    /// `Some(id)` if this rectangle has a callback attached to it.
    /// This is not the `NodeId`: the two are separate numbers.
    pub tag: Option<u64>,
    /// The style properties of the node
    pub style: RectStyle,
    /// The layout properties of the node
    pub layout: RectLayout,
}

impl DisplayRectangle {
    /// The rectangle of a node with the given tag and no style yet.
    pub fn new(tag: Option<u64>) -> (rect: DisplayRectangle)
        ensures
            rect.tag == tag,
            rect.style == RectStyle::unset(),
            rect.layout == RectLayout::unset(),
    {
        DisplayRectangle { tag, style: RectStyle::default(), layout: RectLayout::default() }
    }

    /// Whether the node is taken out of the flow: `position: absolute`.
    /// An unset position, or a CSS-wide keyword in its place, is not absolute.
    pub open spec fn is_absolute(self) -> bool {
        self.layout.position == Some(CssPropertyValue::Exact(LayoutPosition::Absolute))
    }

    /// Whether the node is taken out of the flow: `position: absolute`.
    pub fn is_absolutely_positioned(&self) -> (absolute: bool)
        ensures
            absolute == self.is_absolute(),
    {
        match self.layout.position {
            Some(CssPropertyValue::Exact(LayoutPosition::Absolute)) => true,
            _ => false,
        }
    }
}

/// A subtree in paint order: a node and, below it, the groups of its
/// children in the order in which they are drawn.
#[derive(Debug, PartialEq)]
pub struct ContentGroup {
    /// The node that this group is rooted at
    pub root: NodeId,
    /// The groups of the node's children, in order of drawing
    pub children: Vec<ContentGroup>,
}

/// The mathematical value of a `ContentGroup`.
pub struct ContentGroupView {
    pub root: NodeId,
    pub children: Seq<ContentGroupView>,
}

/// The mathematical value of the group `group`.
pub open spec fn group_view(group: ContentGroup) -> ContentGroupView
    decreases group,
{
    ContentGroupView {
        root: group.root,
        children: Seq::new(
            group.children@.len(),
            |i: int|
                if 0 <= i < group.children@.len() {
                    group_view(group.children@[i])
                } else {
                    arbitrary()
                },
        ),
    }
}

impl View for ContentGroup {
    type V = ContentGroupView;

    open spec fn view(&self) -> ContentGroupView {
        group_view(*self)
    }
}

/// Whether every node of `group` has an index below `len`.
pub open spec fn group_in_range(group: ContentGroupView, len: nat) -> bool
    decreases group,
{
    &&& group.root.index < len
    &&& forall|i: int|
        0 <= i < group.children.len() ==> group_in_range(#[trigger] group.children[i], len)
}

/// Whether every node of `group` has an index below `len`.
pub fn group_is_in_range(group: &ContentGroup, len: usize) -> (ok: bool)
    ensures
        ok == group_in_range(group@, len as nat),
    decreases group,
{
    if group.root.index >= len {
        return false;
    }
    let mut i: usize = 0;
    while i < group.children.len()
        invariant
            i <= group.children.len(),
            group.root.index < len,
            forall|k: int| 0 <= k < i ==> group_in_range(#[trigger] group@.children[k], len as nat),
        decreases group.children.len() - i,
    {
        assert(group@.children[i as int] == group.children@[i as int]@);
        if !group_is_in_range(&group.children[i], len) {
            return false;
        }
        i = i + 1;
    }
    true
}

/// Whether the node `id` is absolutely positioned according to `rects`.
pub open spec fn node_is_absolute(rects: Seq<DisplayRectangle>, id: NodeId) -> bool {
    id.index < rects.len() && rects[id.index as int].is_absolute()
}

/// The children of `parent` in paint order: those that are not absolutely
/// positioned, in document order, then the absolutely positioned ones, in
/// document order.
pub open spec fn children_in_paint_order(
    hierarchy: NodeHierarchy,
    rects: Seq<DisplayRectangle>,
    parent: NodeId,
) -> Seq<NodeId> {
    let children = hierarchy.children_of(parent);
    children.filter(|id: NodeId| !node_is_absolute(rects, id)) + children.filter(
        |id: NodeId| node_is_absolute(rects, id),
    )
}

/// The paint order of the subtree below `node`.
pub open spec fn rendering_order(
    hierarchy: NodeHierarchy,
    rects: Seq<DisplayRectangle>,
    node: NodeId,
) -> ContentGroupView
    decreases hierarchy@.len() - node.index,
{
    let order = children_in_paint_order(hierarchy, rects, node);
    ContentGroupView {
        root: node,
        children: Seq::new(
            order.len(),
            |i: int|
                if 0 <= i < order.len() && node.index < order[i].index < hierarchy@.len() {
                    rendering_order(hierarchy, rects, order[i])
                } else {
                    ContentGroupView { root: order[i], children: Seq::empty() }
                },
        ),
    }
}

/// The children of `parent`, the absolutely positioned ones moved behind the
/// others.
pub fn sort_children_by_position(
    parent: NodeId,
    node_hierarchy: &NodeHierarchy,
    rectangles: &NodeDataContainer<DisplayRectangle>,
) -> (sorted: Vec<NodeId>)
    requires
        node_hierarchy.wf(),
        parent.index < node_hierarchy@.len(),
        rectangles@.len() == node_hierarchy@.len(),
    ensures
        sorted@ == children_in_paint_order(*node_hierarchy, rectangles@, parent),
{
    let children = node_hierarchy.children(parent);
    let ghost in_flow = |id: NodeId| !node_is_absolute(rectangles@, id);
    let ghost absolute = |id: NodeId| node_is_absolute(rectangles@, id);
    proof {
        node_hierarchy.lemma_children_follow_parent(parent);
    }
    let mut not_absolute_children: Vec<NodeId> = Vec::new();
    let mut absolute_children: Vec<NodeId> = Vec::new();
    let mut i: usize = 0;
    while i < children.len()
        invariant
            i <= children.len(),
            rectangles@.len() == node_hierarchy@.len(),
            forall|k: int| 0 <= k < children.len() ==> (#[trigger] children@[k]).index < node_hierarchy@.len(),
            in_flow == |id: NodeId| !node_is_absolute(rectangles@, id),
            absolute == |id: NodeId| node_is_absolute(rectangles@, id),
            not_absolute_children@ == children@.take(i as int).filter(in_flow),
            absolute_children@ == children@.take(i as int).filter(absolute),
        decreases children.len() - i,
    {
        let id = children[i];
        proof {
            children@.lemma_take_succ_push(i as int);
            children@.take(i as int).lemma_filter_push(id, in_flow);
            children@.take(i as int).lemma_filter_push(id, absolute);
        }
        if rectangles.internal[id.index].is_absolutely_positioned() {
            absolute_children.push(id);
        } else {
            not_absolute_children.push(id);
        }
        i = i + 1;
    }
    proof {
        assert(children@.take(children.len() as int) =~= children@);
    }
    // Append the position:absolute children after the regular children
    not_absolute_children.append(&mut absolute_children);
    not_absolute_children
}

/// Fills in the children of `group`, and theirs, in paint order.
pub fn fill_content_group_children(
    group: &mut ContentGroup,
    node_hierarchy: &NodeHierarchy,
    rectangles: &NodeDataContainer<DisplayRectangle>,
)
    requires
        node_hierarchy.wf(),
        old(group).root.index < node_hierarchy@.len(),
        rectangles@.len() == node_hierarchy@.len(),
    ensures
        final(group)@ == rendering_order(*node_hierarchy, rectangles@, old(group).root),
        group_in_range(final(group)@, node_hierarchy@.len()),
    decreases node_hierarchy@.len() - old(group).root.index,
{
    let sorted = sort_children_by_position(group.root, node_hierarchy, rectangles);
    let ghost order = children_in_paint_order(*node_hierarchy, rectangles@, group.root);
    proof {
        lemma_paint_order_follows_parent(*node_hierarchy, rectangles@, group.root);
    }
    let mut children: Vec<ContentGroup> = Vec::new();
    let mut i: usize = 0;
    while i < sorted.len()
        invariant
            i <= sorted.len(),
            node_hierarchy.wf(),
            rectangles@.len() == node_hierarchy@.len(),
            sorted@ == order,
            group.root == old(group).root,
            forall|k: int|
                0 <= k < order.len() ==> group.root.index < (#[trigger] order[k]).index
                    < node_hierarchy@.len(),
            children.len() == i,
            forall|k: int|
                0 <= k < i ==> (#[trigger] children@[k])@ == rendering_order(
                    *node_hierarchy,
                    rectangles@,
                    order[k],
                ) && group_in_range(children@[k]@, node_hierarchy@.len()),
        decreases sorted.len() - i,
    {
        let mut child = ContentGroup { root: sorted[i], children: Vec::new() };
        fill_content_group_children(&mut child, node_hierarchy, rectangles);
        children.push(child);
        i = i + 1;
    }
    group.children = children;
    proof {
        assert(group@.children =~= rendering_order(
            *node_hierarchy,
            rectangles@,
            group.root,
        ).children);
    }
}

/// The paint order of the whole tree, from the root node down.
pub fn determine_rendering_order(
    node_hierarchy: &NodeHierarchy,
    rectangles: &NodeDataContainer<DisplayRectangle>,
) -> (root_content_group: ContentGroup)
    requires
        node_hierarchy.wf(),
        node_hierarchy@.len() > 0,
        rectangles@.len() == node_hierarchy@.len(),
    ensures
        root_content_group@ == rendering_order(*node_hierarchy, rectangles@, NodeId { index: 0 }),
        group_in_range(root_content_group@, node_hierarchy@.len()),
{
    let mut root_content_group = ContentGroup { root: NodeId::zero(), children: Vec::new() };
    fill_content_group_children(&mut root_content_group, node_hierarchy, rectangles);
    root_content_group
}

/// Every node in the paint order of `parent`'s children lies after
/// `parent`, inside the arena.
pub proof fn lemma_paint_order_follows_parent(
    hierarchy: NodeHierarchy,
    rects: Seq<DisplayRectangle>,
    parent: NodeId,
)
    requires
        hierarchy.wf(),
    ensures
        forall|k: int|
            0 <= k < children_in_paint_order(hierarchy, rects, parent).len() ==> parent.index < (
            #[trigger] children_in_paint_order(hierarchy, rects, parent)[k]).index
                < hierarchy@.len(),
{
    let children = hierarchy.children_of(parent);
    let in_flow = |id: NodeId| !node_is_absolute(rects, id);
    let absolute = |id: NodeId| node_is_absolute(rects, id);
    let order = children_in_paint_order(hierarchy, rects, parent);
    hierarchy.lemma_children_follow_parent(parent);
    assert forall|k: int| 0 <= k < order.len() implies parent.index < (#[trigger] order[k]).index
        < hierarchy@.len() by {
        let first = children.filter(in_flow);
        let second = children.filter(absolute);
        if k < first.len() {
            assert(order[k] == first[k]);
            children.lemma_filter_contains_rev(in_flow, first[k]);
            assert(first.contains(first[k]));
        } else {
            assert(order[k] == second[k - first.len()]);
            children.lemma_filter_contains_rev(absolute, second[k - first.len()]);
            assert(second.contains(second[k - first.len()]));
        }
        let j = choose|j: int| 0 <= j < children.len() && children[j] == order[k];
        assert(parent.index < children[j].index < hierarchy@.len());
    }
}

/// Filtering by a predicate that every element meets changes nothing, and
/// filtering by one that no element meets leaves nothing.
proof fn lemma_filter_all_or_none<A>(s: Seq<A>, pred: spec_fn(A) -> bool)
    ensures
        (forall|i: int| 0 <= i < s.len() ==> pred(#[trigger] s[i])) ==> s.filter(pred) == s,
        (forall|i: int| 0 <= i < s.len() ==> !pred(#[trigger] s[i])) ==> s.filter(pred)
            == Seq::<A>::empty(),
    decreases s.len(),
{
    reveal(Seq::filter);
    if s.len() > 0 {
        lemma_filter_all_or_none(s.drop_last(), pred);
        if forall|i: int| 0 <= i < s.len() ==> pred(#[trigger] s[i]) {
            assert forall|i: int| 0 <= i < s.drop_last().len() implies pred(
                #[trigger] s.drop_last()[i],
            ) by {
                assert(s.drop_last()[i] == s[i]);
            }
            assert(s.drop_last().push(s.last()) =~= s);
        }
        if forall|i: int| 0 <= i < s.len() ==> !pred(#[trigger] s[i]) {
            assert forall|i: int| 0 <= i < s.drop_last().len() implies !pred(
                #[trigger] s.drop_last()[i],
            ) by {
                assert(s.drop_last()[i] == s[i]);
            }
        }
    }
}

/// Splitting a sequence by a predicate and its negation loses and adds
/// nothing.
proof fn lemma_partition_is_permutation<A>(
    s: Seq<A>,
    pred: spec_fn(A) -> bool,
    negated: spec_fn(A) -> bool,
)
    requires
        forall|a: A| #[trigger] negated(a) == !pred(a),
    ensures
        (s.filter(negated) + s.filter(pred)).to_multiset() == s.to_multiset(),
    decreases s.len(),
{
    broadcast use vstd::seq_lib::group_to_multiset_ensures;

    if s.len() == 0 {
        assert(s.filter(negated) + s.filter(pred) =~= s);
    } else {
        let init = s.drop_last();
        let last = s.last();
        lemma_partition_is_permutation(init, pred, negated);
        assert(init.push(last) =~= s);
        init.lemma_filter_push(last, pred);
        init.lemma_filter_push(last, negated);
        vstd::seq_lib::lemma_multiset_commutative(init.filter(negated), init.filter(pred));
        vstd::seq_lib::lemma_multiset_commutative(s.filter(negated), s.filter(pred));
        assert((s.filter(negated) + s.filter(pred)).to_multiset() =~= s.to_multiset());
    }
}

/// The paint order of a node's children is a permutation of those
/// children in which every absolutely positioned child comes after every
/// child that is not, and in which the children of each of the two kinds
/// keep their document order.
pub proof fn lemma_paint_order_is_stable_partition(
    hierarchy: NodeHierarchy,
    rects: Seq<DisplayRectangle>,
    parent: NodeId,
)
    ensures
        ({
            let children = hierarchy.children_of(parent);
            let order = children_in_paint_order(hierarchy, rects, parent);
            let in_flow = |id: NodeId| !node_is_absolute(rects, id);
            let absolute = |id: NodeId| node_is_absolute(rects, id);
            &&& order.to_multiset() == children.to_multiset()
            &&& order.len() == children.len()
            &&& forall|i: int, j: int|
                0 <= i < j < order.len() && node_is_absolute(rects, #[trigger] order[i])
                    ==> node_is_absolute(rects, #[trigger] order[j])
            &&& order.filter(in_flow) == children.filter(in_flow)
            &&& order.filter(absolute) == children.filter(absolute)
        }),
{
    let children = hierarchy.children_of(parent);
    let order = children_in_paint_order(hierarchy, rects, parent);
    let in_flow = |id: NodeId| !node_is_absolute(rects, id);
    let absolute = |id: NodeId| node_is_absolute(rects, id);
    let first = children.filter(in_flow);
    let second = children.filter(absolute);
    lemma_partition_is_permutation(children, absolute, in_flow);
    vstd::seq_lib::to_multiset_len(order);
    vstd::seq_lib::to_multiset_len(children);
    assert forall|k: int| 0 <= k < first.len() implies in_flow(#[trigger] first[k]) && !absolute(
        first[k],
    ) by {
        children.lemma_filter_pred(in_flow, k);
    }
    assert forall|k: int| 0 <= k < second.len() implies absolute(#[trigger] second[k]) && !in_flow(
        second[k],
    ) by {
        children.lemma_filter_pred(absolute, k);
    }
    assert forall|i: int, j: int|
        0 <= i < j < order.len() && node_is_absolute(rects, #[trigger] order[i]) implies node_is_absolute(
        rects,
        #[trigger] order[j],
    ) by {
        if i < first.len() {
            assert(order[i] == first[i]);
        }
        assert(order[j] == second[j - first.len()]);
    }
    Seq::filter_distributes_over_add(first, second, in_flow);
    Seq::filter_distributes_over_add(first, second, absolute);
    lemma_filter_all_or_none(first, in_flow);
    lemma_filter_all_or_none(first, absolute);
    lemma_filter_all_or_none(second, in_flow);
    lemma_filter_all_or_none(second, absolute);
    assert(first + Seq::<NodeId>::empty() =~= first);
    assert(Seq::<NodeId>::empty() + second =~= second);
}

/// In the paint order of a subtree, the groups below a node are rooted at
/// that node's children in paint order, one group for each.
pub proof fn lemma_rendering_order_children(
    hierarchy: NodeHierarchy,
    rects: Seq<DisplayRectangle>,
    node: NodeId,
)
    ensures
        ({
            let group = rendering_order(hierarchy, rects, node);
            let order = children_in_paint_order(hierarchy, rects, node);
            &&& group.root == node
            &&& group.children.len() == order.len()
            &&& forall|i: int| 0 <= i < order.len() ==> (#[trigger] group.children[i]).root == order[i]
        }),
{
    reveal_with_fuel(rendering_order, 2);
}

} // verus!
