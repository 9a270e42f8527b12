//! How the CSS declarations of a node, and the values that the
//! application overrides them with at run time, become the node's
//! computed style.
//!
//! An override replaces the value of a dynamic declaration only if it is
//! a value for the same property. An override for another property is
//! dropped and reported; it never stops the frame from being built.

use vstd::prelude::*;
use std::collections::BTreeMap;
use vstd::hash_map::StringHashMap;
use crate::css::{apply_style_property, with_property, CssProperty, RectLayout, RectStyle};
use crate::display_list::DisplayList;
use crate::id_tree::{NodeDataContainer, NodeId};
use crate::rendering_order::DisplayRectangle;

verus! {

broadcast use vstd::std_specs::btree::group_btree_axioms;

/// A declaration whose value the application may override at run time,
/// under the name `dynamic_id`.
#[derive(Debug, PartialEq, Eq, Hash)]
pub struct DynamicCssProperty {
    /// Name under which the application overrides the value
    pub dynamic_id: String,
    /// The value that the stylesheet gives
    pub default_value: CssProperty,
}

/// One declaration of a stylesheet, as it applies to a node.
#[derive(Debug, PartialEq, Eq, Hash)]
pub enum CssDeclaration {
    /// A declaration with a fixed value
    Static(CssProperty),
    /// A declaration whose value can be overridden
    Dynamic(DynamicCssProperty),
}

/// The declarations that the cascade selected for one node, in the order
/// in which they are applied.
#[derive(Debug, PartialEq, Eq, Hash)]
pub struct StyledNode {
    pub css_constraints: Vec<CssDeclaration>,
}

/// Report of an override that was dropped because it is a value for
/// another property than the declaration it was meant for.
#[derive(Debug, PartialEq, Eq, Hash)]
pub struct OverrideWarning {
    pub default: CssProperty,
    pub overridden_property: CssProperty,
}

/// The values that override the dynamic declarations of one node, each
/// under the name of the declaration that it is meant for.
pub type DynamicOverrides = StringHashMap<CssProperty>;

/// The value that `overrides` holds under the name `id`, if any.
pub open spec fn override_for(overrides: Map<Seq<char>, CssProperty>, id: Seq<char>) -> Option<
    CssProperty,
> {
    if overrides.contains_key(id) {
        Some(overrides[id])
    } else {
        None
    }
}

/// Whether `declaration` is a dynamic declaration for which `overrides`
/// holds a value for another property.
pub open spec fn is_mismatched(
    declaration: CssDeclaration,
    overrides: Map<Seq<char>, CssProperty>,
) -> bool {
    match declaration {
        CssDeclaration::Static(_) => false,
        CssDeclaration::Dynamic(dynamic) => match override_for(overrides, dynamic.dynamic_id@) {
            Some(value) => value.property_type() != dynamic.default_value.property_type(),
            None => false,
        },
    }
}

/// The property that `declaration` writes into the style, if it writes
/// one: a static declaration writes its value, a dynamic declaration
/// writes its override if that is a value for the same property.
pub open spec fn effective_property(
    declaration: CssDeclaration,
    overrides: Map<Seq<char>, CssProperty>,
) -> Option<CssProperty> {
    match declaration {
        CssDeclaration::Static(property) => Some(property),
        CssDeclaration::Dynamic(dynamic) => match override_for(overrides, dynamic.dynamic_id@) {
            Some(value) => if value.property_type() == dynamic.default_value.property_type() {
                Some(value)
            } else {
                None
            },
            None => None,
        },
    }
}

/// The warning that `declaration` gives rise to, if it does.
pub open spec fn warning_for(
    declaration: CssDeclaration,
    overrides: Map<Seq<char>, CssProperty>,
) -> Option<OverrideWarning> {
    match declaration {
        CssDeclaration::Static(_) => None,
        CssDeclaration::Dynamic(dynamic) => match override_for(overrides, dynamic.dynamic_id@) {
            Some(value) => if value.property_type() != dynamic.default_value.property_type() {
                Some(OverrideWarning { default: dynamic.default_value, overridden_property: value })
            } else {
                None
            },
            None => None,
        },
    }
}

/// The style and layout after `declarations` were applied in order.
pub open spec fn after_declarations(
    style: RectStyle,
    layout: RectLayout,
    declarations: Seq<CssDeclaration>,
    overrides: Map<Seq<char>, CssProperty>,
) -> (RectStyle, RectLayout)
    decreases declarations.len(),
{
    if declarations.len() == 0 {
        (style, layout)
    } else {
        let before = after_declarations(style, layout, declarations.drop_last(), overrides);
        match effective_property(declarations.last(), overrides) {
            Some(property) => with_property(before.0, before.1, property),
            None => before,
        }
    }
}

/// The warnings that `declarations` give rise to, in order.
pub open spec fn warnings_of(
    declarations: Seq<CssDeclaration>,
    overrides: Map<Seq<char>, CssProperty>,
) -> Seq<OverrideWarning>
    decreases declarations.len(),
{
    if declarations.len() == 0 {
        Seq::empty()
    } else {
        let before = warnings_of(declarations.drop_last(), overrides);
        match warning_for(declarations.last(), overrides) {
            Some(warning) => before.push(warning),
            None => before,
        }
    }
}

/// The value that `overrides` holds under the name `id`, if any.
fn find_override<'a>(overrides: &'a DynamicOverrides, id: &String) -> (found: Option<
    &'a CssProperty,
>)
    ensures
        match found {
            Some(value) => override_for(overrides@, id@) == Some(*value),
            None => override_for(overrides@, id@) is None,
        },
{
    overrides.get(id.as_str())
}

/// The overrides of the node `node_id`; none if the table has no entry
/// for the node.
pub open spec fn overrides_of(
    css_overrides: Map<usize, DynamicOverrides>,
    node_id: NodeId,
) -> Map<Seq<char>, CssProperty> {
    if css_overrides.contains_key(node_id.index) {
        css_overrides[node_id.index]@
    } else {
        Map::empty()
    }
}

/// Populates the style properties of the `DisplayRectangle`: applies the
/// static declarations and the overrides of the dynamic ones, and returns
/// a warning for every override that is a value for another property.
pub fn populate_css_properties(
    rect: &mut DisplayRectangle,
    node_id: NodeId,
    css_constraints: &Vec<CssDeclaration>,
    css_overrides: &BTreeMap<usize, DynamicOverrides>,
) -> (warnings: Vec<OverrideWarning>)
    ensures
        final(rect).tag == old(rect).tag,
        (final(rect).style, final(rect).layout) == after_declarations(
            old(rect).style,
            old(rect).layout,
            css_constraints@,
            overrides_of(css_overrides@, node_id),
        ),
        warnings@ == warnings_of(css_constraints@, overrides_of(css_overrides@, node_id)),
{
    let mut warnings: Vec<OverrideWarning> = Vec::new();
    let overrides = css_overrides.get(&node_id.index);
    let ghost given = overrides_of(css_overrides@, node_id);

    let mut i: usize = 0;
    while i < css_constraints.len()
        invariant
            i <= css_constraints.len(),
            rect.tag == old(rect).tag,
            given == overrides_of(css_overrides@, node_id),
            match overrides {
                Some(list) => given == list@,
                None => given == Map::<Seq<char>, CssProperty>::empty(),
            },
            (rect.style, rect.layout) == after_declarations(
                old(rect).style,
                old(rect).layout,
                css_constraints@.take(i as int),
                given,
            ),
            warnings@ == warnings_of(css_constraints@.take(i as int), given),
        decreases css_constraints.len() - i,
    {
        proof {
            assert(css_constraints@.take(i + 1).drop_last() =~= css_constraints@.take(i as int));
            assert(css_constraints@.take(i + 1).last() == css_constraints@[i as int]);
        }
        match &css_constraints[i] {
            CssDeclaration::Static(static_property) => {
                apply_style_property(&mut rect.style, &mut rect.layout, static_property);
            },
            CssDeclaration::Dynamic(dynamic_property) => {
                let overridden_property = match overrides {
                    Some(list) => find_override(list, &dynamic_property.dynamic_id),
                    None => None,
                };
                if let Some(overridden_property) = overridden_property {
                    // Apply the override only if it is a value for the same property
                    if overridden_property.get_type() == dynamic_property.default_value.get_type() {
                        apply_style_property(&mut rect.style, &mut rect.layout, overridden_property);
                    } else {
                        warnings.push(
                            OverrideWarning {
                                default: dynamic_property.default_value.clone(),
                                overridden_property: overridden_property.clone(),
                            },
                        );
                    }
                }
            },
        }
        i = i + 1;
    }
    proof {
        assert(css_constraints@.take(css_constraints.len() as int) =~= css_constraints@);
    }
    warnings
}

/// The computed style of the node with index `index`: its hit-test tag
/// and what its declarations make of the unset style.
pub open spec fn computed_rectangle(
    styled_nodes: Seq<StyledNode>,
    tags: Map<usize, u64>,
    css_overrides: Map<usize, DynamicOverrides>,
    index: usize,
) -> DisplayRectangle {
    let computed = after_declarations(
        RectStyle::unset(),
        RectLayout::unset(),
        styled_nodes[index as int].css_constraints@,
        overrides_of(css_overrides, NodeId { index }),
    );
    DisplayRectangle {
        tag: if tags.contains_key(index) {
            Some(tags[index])
        } else {
            None
        },
        style: computed.0,
        layout: computed.1,
    }
}

/// The warnings of the first `count` nodes, node by node.
pub open spec fn warnings_of_nodes(
    styled_nodes: Seq<StyledNode>,
    css_overrides: Map<usize, DynamicOverrides>,
    count: nat,
) -> Seq<OverrideWarning>
    decreases count,
{
    if count == 0 {
        Seq::empty()
    } else {
        warnings_of_nodes(styled_nodes, css_overrides, (count - 1) as nat) + warnings_of(
            styled_nodes[count - 1].css_constraints@,
            overrides_of(css_overrides, NodeId { index: (count - 1) as usize }),
        )
    }
}

/// Computes the style of every node from its declarations, its overrides
/// and its hit-test tag. The second result holds a warning for every
/// override that was dropped.
///
/// This only looks at the styles, not at the layout, which is solved
/// later.
pub fn display_list_from_ui_description(
    styled_nodes: &NodeDataContainer<StyledNode>,
    node_ids_to_tag_ids: &BTreeMap<usize, u64>,
    dynamic_css_overrides: &BTreeMap<usize, DynamicOverrides>,
) -> (result: (DisplayList, Vec<OverrideWarning>))
    ensures
        result.0.rectangles@.len() == styled_nodes@.len(),
        forall|i: int|
            0 <= i < styled_nodes@.len() ==> #[trigger] result.0.rectangles@[i] == computed_rectangle(
                styled_nodes@,
                node_ids_to_tag_ids@,
                dynamic_css_overrides@,
                i as usize,
            ),
        result.1@ == warnings_of_nodes(
            styled_nodes@,
            dynamic_css_overrides@,
            styled_nodes@.len(),
        ),
{
    let mut override_warnings: Vec<OverrideWarning> = Vec::new();
    let mut rectangles: Vec<DisplayRectangle> = Vec::new();

    let mut i: usize = 0;
    while i < styled_nodes.internal.len()
        invariant
            i <= styled_nodes@.len(),
            rectangles@.len() == i,
            forall|k: int|
                0 <= k < i ==> #[trigger] rectangles@[k] == computed_rectangle(
                    styled_nodes@,
                    node_ids_to_tag_ids@,
                    dynamic_css_overrides@,
                    k as usize,
                ),
            override_warnings@ == warnings_of_nodes(
                styled_nodes@,
                dynamic_css_overrides@,
                i as nat,
            ),
        decreases styled_nodes@.len() - i,
    {
        let node_id = NodeId::new(i);
        let style = &styled_nodes.internal[i];
        let tag = match node_ids_to_tag_ids.get(&i) {
            Some(tag) => Some(*tag),
            None => None,
        };
        let mut rect = DisplayRectangle::new(tag);
        let mut warnings = populate_css_properties(
            &mut rect,
            node_id,
            &style.css_constraints,
            dynamic_css_overrides,
        );
        override_warnings.append(&mut warnings);
        rectangles.push(rect);
        i = i + 1;
    }

    (DisplayList { rectangles: NodeDataContainer::new(rectangles) }, override_warnings)
}

/// An override for another property than its declaration never changes
/// the computed style, and it is reported exactly once: the style is what
/// the declarations without the mismatched ones give, and the warnings
/// are those of the mismatched declarations, one for each, in order.
pub proof fn lemma_mismatched_overrides_are_dropped_and_reported(
    style: RectStyle,
    layout: RectLayout,
    declarations: Seq<CssDeclaration>,
    overrides: Map<Seq<char>, CssProperty>,
)
    ensures
        ({
            let mismatched = |d: CssDeclaration| is_mismatched(d, overrides);
            let matched = |d: CssDeclaration| !is_mismatched(d, overrides);
            let warnings = warnings_of(declarations, overrides);
            &&& after_declarations(style, layout, declarations, overrides) == after_declarations(
                style,
                layout,
                declarations.filter(matched),
                overrides,
            )
            &&& warnings.len() == declarations.filter(mismatched).len()
            &&& forall|k: int|
                0 <= k < warnings.len() ==> Some(#[trigger] warnings[k]) == warning_for(
                    declarations.filter(mismatched)[k],
                    overrides,
                )
        }),
    decreases declarations.len(),
{
    let mismatched = |d: CssDeclaration| is_mismatched(d, overrides);
    let matched = |d: CssDeclaration| !is_mismatched(d, overrides);
    if declarations.len() == 0 {
        assert(declarations.filter(matched) =~= declarations);
        assert(declarations.filter(mismatched) =~= declarations);
    } else {
        let init = declarations.drop_last();
        let last = declarations.last();
        lemma_mismatched_overrides_are_dropped_and_reported(style, layout, init, overrides);
        assert(init.push(last) =~= declarations);
        init.lemma_filter_push(last, matched);
        init.lemma_filter_push(last, mismatched);
        if is_mismatched(last, overrides) {
            assert(effective_property(last, overrides) is None);
            assert(warning_for(last, overrides) is Some);
        } else {
            assert(warning_for(last, overrides) is None);
            let kept = init.filter(matched).push(last);
            assert(kept.drop_last() =~= init.filter(matched));
            assert(kept.last() == last);
        }
    }
}

/// A single dynamic declaration whose override is a value for another
/// property leaves the style and the layout as they are and adds one
/// warning, which names the declaration's own value and the override.
pub proof fn lemma_mismatched_override_step(
    style: RectStyle,
    layout: RectLayout,
    declarations: Seq<CssDeclaration>,
    overrides: Map<Seq<char>, CssProperty>,
    dynamic: DynamicCssProperty,
    value: CssProperty,
)
    requires
        override_for(overrides, dynamic.dynamic_id@) == Some(value),
        value.property_type() != dynamic.default_value.property_type(),
    ensures
        after_declarations(
            style,
            layout,
            declarations.push(CssDeclaration::Dynamic(dynamic)),
            overrides,
        ) == after_declarations(style, layout, declarations, overrides),
        warnings_of(declarations.push(CssDeclaration::Dynamic(dynamic)), overrides) == warnings_of(
            declarations,
            overrides,
        ).push(OverrideWarning { default: dynamic.default_value, overridden_property: value }),
{
    let extended = declarations.push(CssDeclaration::Dynamic(dynamic));
    assert(extended.drop_last() =~= declarations);
    assert(extended.last() == CssDeclaration::Dynamic(dynamic));
}

} // verus!
