//! Grid alignment: children may share a cell. Content alignment in a grid follows the row
//! semantics.
use crate::align::{
    placement_of_x, placement_of_y, x_placement, y_placement, Alignment, NodeAlignment, Placement, AlignX, AlignY, flip_x, flip_y, flip_placement,
};
use vstd::prelude::*;

verus! {

/// Grid self-alignment: the horizontal axis sets `justify_self`, the vertical axis sets
/// `align_self`; every other field is kept.
pub open spec fn spec_apply_alignment(node: NodeAlignment, alignment: Alignment) -> NodeAlignment {
    NodeAlignment {
        justify_self: placement_of_x(alignment.x),
        align_self: placement_of_y(alignment.y),
        ..node
    }
}

/// Grid self-alignment reset.
pub open spec fn spec_reset_alignment(node: NodeAlignment) -> NodeAlignment {
    NodeAlignment { justify_self: Placement::Default, align_self: Placement::Default, ..node }
}

/// Apply grid-style self-alignment to a child node.
pub fn apply_alignment(node: &mut NodeAlignment, alignment: &Alignment)
    ensures
        *final(node) == spec_apply_alignment(*old(node), *alignment),
{
    node.justify_self = x_placement(alignment.x);
    node.align_self = y_placement(alignment.y);
}

/// Reset grid-style alignment on a child node.
pub fn reset_alignment(node: &mut NodeAlignment)
    ensures
        *final(node) == spec_reset_alignment(*old(node)),
{
    node.justify_self = Placement::Default;
    node.align_self = Placement::Default;
}

/// In a grid or stack a child justifies itself within its cell by its horizontal alignment and
/// aligns itself by its vertical alignment; margins and everything else stay; mirroring mirrors
/// both; each axis acts on its own field only.
pub proof fn lemma_grid_alignment(node: NodeAlignment, a: Alignment, other_x: AlignX, other_y: AlignY)
    ensures
        ({
            let r = spec_apply_alignment(node, a);
            &&& a.x == AlignX::Unset ==> r.justify_self == Placement::Default
            &&& a.x == AlignX::Left ==> r.justify_self == Placement::Start
            &&& a.x == AlignX::Center ==> r.justify_self == Placement::Center
            &&& a.x == AlignX::Right ==> r.justify_self == Placement::End
            &&& a.y == AlignY::Unset ==> r.align_self == Placement::Default
            &&& a.y == AlignY::Top ==> r.align_self == Placement::Start
            &&& a.y == AlignY::Center ==> r.align_self == Placement::Center
            &&& a.y == AlignY::Bottom ==> r.align_self == Placement::End
            &&& r.align_items == node.align_items
            &&& r.justify_content == node.justify_content
            &&& r.margin_top == node.margin_top
            &&& r.margin_bottom == node.margin_bottom
            &&& r.margin_left == node.margin_left
            &&& r.margin_right == node.margin_right
        }),
        ({
            let r = spec_apply_alignment(node, a);
            let m = spec_apply_alignment(node, Alignment { x: flip_x(a.x), y: flip_y(a.y) });
            let sx = spec_apply_alignment(node, Alignment { x: other_x, y: a.y });
            let sy = spec_apply_alignment(node, Alignment { x: a.x, y: other_y });
            &&& m.justify_self == flip_placement(r.justify_self) && m.align_self == flip_placement(r.align_self)
            &&& sx.align_self == r.align_self
            &&& sy.justify_self == r.justify_self
        }),
{
}

/// Resetting a grid child's alignment puts its self justification and alignment back to their
/// defaults and leaves every other field alone.
pub proof fn lemma_grid_reset(node: NodeAlignment)
    ensures
        ({
            let r = spec_reset_alignment(node);
            &&& r.align_self == Placement::Default && r.justify_self == Placement::Default
            &&& r.align_items == node.align_items && r.justify_content == node.justify_content
            &&& r.margin_top == node.margin_top && r.margin_bottom == node.margin_bottom
            &&& r.margin_left == node.margin_left && r.margin_right == node.margin_right
        }),
{
}

} // verus!
