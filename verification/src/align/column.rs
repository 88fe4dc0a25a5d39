//! Column alignment: children stack vertically.
use crate::align::{
    margins_of_y, placement_of_x, placement_of_y, x_placement, y_margins, y_placement, Alignment, ContentAlignment, Margin, NodeAlignment, Placement, AlignX, AlignY, flip_x, flip_y, flip_placement,
};
use vstd::prelude::*;

verus! {

/// Column self-alignment: the horizontal axis sets `align_self`, the vertical axis sets the top
/// and bottom margins; every other field is kept.
pub open spec fn spec_apply_alignment(node: NodeAlignment, alignment: Alignment) -> NodeAlignment {
    NodeAlignment {
        align_self: placement_of_x(alignment.x),
        margin_top: margins_of_y(alignment.y).0,
        margin_bottom: margins_of_y(alignment.y).1,
        ..node
    }
}

/// Column content alignment: the horizontal axis sets `align_items`, the vertical axis sets
/// `justify_content`.
pub open spec fn spec_apply_content_alignment(
    node: NodeAlignment,
    content_alignment: ContentAlignment,
) -> NodeAlignment {
    NodeAlignment {
        align_items: placement_of_x(content_alignment.x),
        justify_content: placement_of_y(content_alignment.y),
        ..node
    }
}

/// Column self-alignment reset.
pub open spec fn spec_reset_alignment(node: NodeAlignment) -> NodeAlignment {
    NodeAlignment {
        align_self: Placement::Default,
        margin_top: Margin::Zero,
        margin_bottom: Margin::Zero,
        ..node
    }
}

/// Column content alignment reset.
pub open spec fn spec_reset_content_alignment(node: NodeAlignment) -> NodeAlignment {
    NodeAlignment { align_items: Placement::Default, justify_content: Placement::Default, ..node }
}

/// Apply column-style self-alignment to a child node.
pub fn apply_alignment(node: &mut NodeAlignment, alignment: &Alignment)
    ensures
        *final(node) == spec_apply_alignment(*old(node), *alignment),
{
    node.align_self = x_placement(alignment.x);
    let (top, bottom) = y_margins(alignment.y);
    node.margin_top = top;
    node.margin_bottom = bottom;
}

/// Apply column-style content alignment to a parent node.
pub fn apply_content_alignment(node: &mut NodeAlignment, content_alignment: &ContentAlignment)
    ensures
        *final(node) == spec_apply_content_alignment(*old(node), *content_alignment),
{
    node.align_items = x_placement(content_alignment.x);
    node.justify_content = y_placement(content_alignment.y);
}

/// Reset column-style alignment on a child node.
pub fn reset_alignment(node: &mut NodeAlignment)
    ensures
        *final(node) == spec_reset_alignment(*old(node)),
{
    node.align_self = Placement::Default;
    node.margin_top = Margin::Zero;
    node.margin_bottom = Margin::Zero;
}

/// Reset column-style content alignment on a parent node.
pub fn reset_content_alignment(node: &mut NodeAlignment)
    ensures
        *final(node) == spec_reset_content_alignment(*old(node)),
{
    node.align_items = Placement::Default;
    node.justify_content = Placement::Default;
}

/// In a column a child's horizontal alignment sets how it aligns itself across the column,
/// and its vertical alignment sets automatic top and bottom margins: centered gets both, top gets
/// the bottom one, bottom gets the top one, none gets neither. Nothing else changes; mirroring the
/// alignment mirrors the placement and swaps the margins; each axis acts on its own fields only.
pub proof fn lemma_column_alignment(node: NodeAlignment, a: Alignment, other_x: AlignX, other_y: AlignY)
    ensures
        ({
            let r = spec_apply_alignment(node, a);
            &&& a.x == AlignX::Unset ==> r.align_self == Placement::Default
            &&& a.x == AlignX::Left ==> r.align_self == Placement::Start
            &&& a.x == AlignX::Center ==> r.align_self == Placement::Center
            &&& a.x == AlignX::Right ==> r.align_self == Placement::End
            &&& a.y == AlignY::Unset ==> r.margin_top == Margin::Zero && r.margin_bottom == Margin::Zero
            &&& a.y == AlignY::Top ==> r.margin_top == Margin::Zero && r.margin_bottom == Margin::Auto
            &&& a.y == AlignY::Center ==> r.margin_top == Margin::Auto && r.margin_bottom == Margin::Auto
            &&& a.y == AlignY::Bottom ==> r.margin_top == Margin::Auto && r.margin_bottom == Margin::Zero
            &&& r.justify_self == node.justify_self
            &&& r.align_items == node.align_items
            &&& r.justify_content == node.justify_content
            &&& r.margin_left == node.margin_left
            &&& r.margin_right == node.margin_right
            &&& (r.margin_top == r.margin_bottom) == (a.y == AlignY::Center || a.y == AlignY::Unset)
        }),
        ({
            let r = spec_apply_alignment(node, a);
            let m = spec_apply_alignment(node, Alignment { x: flip_x(a.x), y: flip_y(a.y) });
            let sx = spec_apply_alignment(node, Alignment { x: other_x, y: a.y });
            let sy = spec_apply_alignment(node, Alignment { x: a.x, y: other_y });
            &&& m.margin_top == r.margin_bottom && m.margin_bottom == r.margin_top
            &&& m.align_self == flip_placement(r.align_self)
            &&& sx.margin_top == r.margin_top && sx.margin_bottom == r.margin_bottom
            &&& sy.align_self == r.align_self
        }),
{
}

/// A column aligns its content across the column by its horizontal alignment (item alignment)
/// and along it by its vertical alignment (content justification); nothing else changes;
/// mirroring mirrors both; each axis acts on its own field only.
pub proof fn lemma_column_content_alignment(node: NodeAlignment, a: ContentAlignment, other_x: AlignX, other_y: AlignY)
    ensures
        ({
            let r = spec_apply_content_alignment(node, a);
            &&& a.x == AlignX::Unset ==> r.align_items == Placement::Default
            &&& a.x == AlignX::Left ==> r.align_items == Placement::Start
            &&& a.x == AlignX::Center ==> r.align_items == Placement::Center
            &&& a.x == AlignX::Right ==> r.align_items == Placement::End
            &&& a.y == AlignY::Unset ==> r.justify_content == Placement::Default
            &&& a.y == AlignY::Top ==> r.justify_content == Placement::Start
            &&& a.y == AlignY::Center ==> r.justify_content == Placement::Center
            &&& a.y == AlignY::Bottom ==> r.justify_content == Placement::End
            &&& r.align_self == node.align_self
            &&& r.justify_self == node.justify_self
            &&& r.margin_top == node.margin_top
            &&& r.margin_bottom == node.margin_bottom
            &&& r.margin_left == node.margin_left
            &&& r.margin_right == node.margin_right
        }),
        ({
            let r = spec_apply_content_alignment(node, a);
            let m = spec_apply_content_alignment(node, ContentAlignment { x: flip_x(a.x), y: flip_y(a.y) });
            let sx = spec_apply_content_alignment(node, ContentAlignment { x: other_x, y: a.y });
            let sy = spec_apply_content_alignment(node, ContentAlignment { x: a.x, y: other_y });
            &&& m.align_items == flip_placement(r.align_items) && m.justify_content == flip_placement(r.justify_content)
            &&& sx.justify_content == r.justify_content
            &&& sy.align_items == r.align_items
        }),
{
}

/// Resetting a column child's alignment or a column's content alignment puts the fields they
/// write back to their defaults and leaves every other field alone.
pub proof fn lemma_column_resets(node: NodeAlignment)
    ensures
        ({
            let r = spec_reset_alignment(node);
            &&& r.align_self == Placement::Default && r.margin_top == Margin::Zero && r.margin_bottom == Margin::Zero
            &&& r.justify_self == node.justify_self && r.align_items == node.align_items
            &&& r.justify_content == node.justify_content && r.margin_left == node.margin_left
            &&& r.margin_right == node.margin_right
        }),
        ({
            let r = spec_reset_content_alignment(node);
            &&& r.align_items == Placement::Default && r.justify_content == Placement::Default
            &&& r.align_self == node.align_self && r.justify_self == node.justify_self
            &&& r.margin_top == node.margin_top && r.margin_bottom == node.margin_bottom
            &&& r.margin_left == node.margin_left && r.margin_right == node.margin_right
        }),
{
}

} // verus!
