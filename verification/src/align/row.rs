//! Row alignment: children stack horizontally.
use crate::align::{
    margins_of_x, placement_of_x, placement_of_y, x_margins, x_placement, y_placement, Alignment, ContentAlignment, Margin, NodeAlignment, Placement, AlignX, AlignY, flip_x, flip_y, flip_placement,
};
use vstd::prelude::*;

verus! {

/// Row self-alignment: the horizontal axis sets the left and right margins, the vertical axis
/// sets `align_self`; every other field is kept.
pub open spec fn spec_apply_alignment(node: NodeAlignment, alignment: Alignment) -> NodeAlignment {
    NodeAlignment {
        margin_left: margins_of_x(alignment.x).0,
        margin_right: margins_of_x(alignment.x).1,
        align_self: placement_of_y(alignment.y),
        ..node
    }
}

/// Row content alignment: the horizontal axis sets `justify_content`, the vertical axis sets
/// `align_items`.
pub open spec fn spec_apply_content_alignment(
    node: NodeAlignment,
    content_alignment: ContentAlignment,
) -> NodeAlignment {
    NodeAlignment {
        justify_content: placement_of_x(content_alignment.x),
        align_items: placement_of_y(content_alignment.y),
        ..node
    }
}

/// Row self-alignment reset.
pub open spec fn spec_reset_alignment(node: NodeAlignment) -> NodeAlignment {
    NodeAlignment {
        margin_left: Margin::Zero,
        margin_right: Margin::Zero,
        align_self: Placement::Default,
        ..node
    }
}

/// Row content alignment reset.
pub open spec fn spec_reset_content_alignment(node: NodeAlignment) -> NodeAlignment {
    NodeAlignment { justify_content: Placement::Default, align_items: Placement::Default, ..node }
}

/// Apply row-style self-alignment to a child node.
pub fn apply_alignment(node: &mut NodeAlignment, alignment: &Alignment)
    ensures
        *final(node) == spec_apply_alignment(*old(node), *alignment),
{
    let (left, right) = x_margins(alignment.x);
    node.margin_left = left;
    node.margin_right = right;
    node.align_self = y_placement(alignment.y);
}

/// Apply row-style content alignment to a parent node.
pub fn apply_content_alignment(node: &mut NodeAlignment, content_alignment: &ContentAlignment)
    ensures
        *final(node) == spec_apply_content_alignment(*old(node), *content_alignment),
{
    node.justify_content = x_placement(content_alignment.x);
    node.align_items = y_placement(content_alignment.y);
}

/// Reset row-style alignment on a child node.
pub fn reset_alignment(node: &mut NodeAlignment)
    ensures
        *final(node) == spec_reset_alignment(*old(node)),
{
    node.margin_left = Margin::Zero;
    node.margin_right = Margin::Zero;
    node.align_self = Placement::Default;
}

/// Reset row-style content alignment on a parent node.
pub fn reset_content_alignment(node: &mut NodeAlignment)
    ensures
        *final(node) == spec_reset_content_alignment(*old(node)),
{
    node.justify_content = Placement::Default;
    node.align_items = Placement::Default;
}

/// In a row a child's vertical alignment sets how it aligns itself across the row, and its
/// horizontal alignment sets automatic left and right margins: centered gets both, left gets the
/// right one, right gets the left one, none gets neither. Nothing else changes; mirroring the
/// alignment mirrors the placement and swaps the margins; each axis acts on its own fields only.
pub proof fn lemma_row_alignment(node: NodeAlignment, a: Alignment, other_x: AlignX, other_y: AlignY)
    ensures
        ({
            let r = spec_apply_alignment(node, a);
            &&& a.x == AlignX::Unset ==> r.margin_left == Margin::Zero && r.margin_right == Margin::Zero
            &&& a.x == AlignX::Left ==> r.margin_left == Margin::Zero && r.margin_right == Margin::Auto
            &&& a.x == AlignX::Center ==> r.margin_left == Margin::Auto && r.margin_right == Margin::Auto
            &&& a.x == AlignX::Right ==> r.margin_left == Margin::Auto && r.margin_right == Margin::Zero
            &&& a.y == AlignY::Unset ==> r.align_self == Placement::Default
            &&& a.y == AlignY::Top ==> r.align_self == Placement::Start
            &&& a.y == AlignY::Center ==> r.align_self == Placement::Center
            &&& a.y == AlignY::Bottom ==> r.align_self == Placement::End
            &&& r.justify_self == node.justify_self
            &&& r.align_items == node.align_items
            &&& r.justify_content == node.justify_content
            &&& r.margin_top == node.margin_top
            &&& r.margin_bottom == node.margin_bottom
            &&& (r.margin_left == r.margin_right) == (a.x == AlignX::Center || a.x == AlignX::Unset)
        }),
        ({
            let r = spec_apply_alignment(node, a);
            let m = spec_apply_alignment(node, Alignment { x: flip_x(a.x), y: flip_y(a.y) });
            let sx = spec_apply_alignment(node, Alignment { x: other_x, y: a.y });
            let sy = spec_apply_alignment(node, Alignment { x: a.x, y: other_y });
            &&& m.margin_left == r.margin_right && m.margin_right == r.margin_left
            &&& m.align_self == flip_placement(r.align_self)
            &&& sx.align_self == r.align_self
            &&& sy.margin_left == r.margin_left && sy.margin_right == r.margin_right
        }),
{
}

/// A row (and a grid) distributes its content along the row by its horizontal alignment
/// (content justification) and aligns it across the row by its vertical alignment (item
/// alignment); nothing else changes; mirroring mirrors both; each axis acts on its own field only.
pub proof fn lemma_row_content_alignment(node: NodeAlignment, a: ContentAlignment, other_x: AlignX, other_y: AlignY)
    ensures
        ({
            let r = spec_apply_content_alignment(node, a);
            &&& a.x == AlignX::Unset ==> r.justify_content == Placement::Default
            &&& a.x == AlignX::Left ==> r.justify_content == Placement::Start
            &&& a.x == AlignX::Center ==> r.justify_content == Placement::Center
            &&& a.x == AlignX::Right ==> r.justify_content == Placement::End
            &&& a.y == AlignY::Unset ==> r.align_items == Placement::Default
            &&& a.y == AlignY::Top ==> r.align_items == Placement::Start
            &&& a.y == AlignY::Center ==> r.align_items == Placement::Center
            &&& a.y == AlignY::Bottom ==> r.align_items == Placement::End
            &&& r.align_self == node.align_self
            &&& r.justify_self == node.justify_self
            &&& r.margin_top == node.margin_top
            &&& r.margin_bottom == node.margin_bottom
            &&& r.margin_left == node.margin_left
            &&& r.margin_right == node.margin_right
        }),
        ({
            let r = spec_apply_content_alignment(node, a);
            let m = spec_apply_content_alignment(node, ContentAlignment { x: flip_x(a.x), y: flip_y(a.y) });
            let sx = spec_apply_content_alignment(node, ContentAlignment { x: other_x, y: a.y });
            let sy = spec_apply_content_alignment(node, ContentAlignment { x: a.x, y: other_y });
            &&& m.align_items == flip_placement(r.align_items) && m.justify_content == flip_placement(r.justify_content)
            &&& sx.align_items == r.align_items
            &&& sy.justify_content == r.justify_content
        }),
{
}

/// Resetting a row child's alignment or a row's content alignment puts the fields they
/// write back to their defaults and leaves every other field alone.
pub proof fn lemma_row_resets(node: NodeAlignment)
    ensures
        ({
            let r = spec_reset_alignment(node);
            &&& r.align_self == Placement::Default && r.margin_left == Margin::Zero && r.margin_right == Margin::Zero
            &&& r.justify_self == node.justify_self && r.align_items == node.align_items
            &&& r.justify_content == node.justify_content && r.margin_top == node.margin_top
            &&& r.margin_bottom == node.margin_bottom
        }),
        ({
            let r = spec_reset_content_alignment(node);
            &&& r.align_items == Placement::Default && r.justify_content == Placement::Default
            &&& r.align_self == node.align_self && r.justify_self == node.justify_self
            &&& r.margin_top == node.margin_top && r.margin_bottom == node.margin_bottom
            &&& r.margin_left == node.margin_left && r.margin_right == node.margin_right
        }),
{
}

} // verus!
