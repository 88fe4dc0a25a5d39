//! Alignment semantics: nine areas an element can be aligned to relative to its parent, and
//! how each layout direction turns an alignment into layout style fields.
use vstd::prelude::*;

pub mod column;
pub mod grid;
pub mod row;

verus! {

/// Horizontal alignment axis.
#[derive(Clone, Copy, PartialEq, Eq, Debug, Hash, Structural)]
pub enum AlignX {
    /// No horizontal alignment constraint.
    Unset,
    /// Align to the left.
    Left,
    /// Align to the horizontal center.
    Center,
    /// Align to the right.
    Right,
}

/// Vertical alignment axis.
#[derive(Clone, Copy, PartialEq, Eq, Debug, Hash, Structural)]
pub enum AlignY {
    /// No vertical alignment constraint.
    Unset,
    /// Align to the top.
    Top,
    /// Align to the vertical center.
    Center,
    /// Align to the bottom.
    Bottom,
}

impl Default for AlignX {
    fn default() -> (r: Self)
        ensures
            r == AlignX::Unset,
    {
        AlignX::Unset
    }
}

impl Default for AlignY {
    fn default() -> (r: Self)
        ensures
            r == AlignY::Unset,
    {
        AlignY::Unset
    }
}

/// Self-alignment of an element within its parent.
#[derive(Clone, Copy, PartialEq, Eq, Debug, Structural)]
pub struct Alignment {
    /// Horizontal alignment.
    pub x: AlignX,
    /// Vertical alignment.
    pub y: AlignY,
}

/// Content alignment: how a parent aligns its children.
#[derive(Clone, Copy, PartialEq, Eq, Debug, Structural)]
pub struct ContentAlignment {
    /// Horizontal content alignment.
    pub x: AlignX,
    /// Vertical content alignment.
    pub y: AlignY,
}

impl Default for Alignment {
    fn default() -> (r: Self)
        ensures
            r.x == AlignX::Unset && r.y == AlignY::Unset,
    {
        Alignment { x: AlignX::Unset, y: AlignY::Unset }
    }
}

impl Default for ContentAlignment {
    fn default() -> (r: Self)
        ensures
            r.x == AlignX::Unset && r.y == AlignY::Unset,
    {
        ContentAlignment { x: AlignX::Unset, y: AlignY::Unset }
    }
}

/// Layout direction of a container; decides which handlers turn alignments into style fields.
#[derive(Clone, Copy, PartialEq, Eq, Debug, Hash, Structural)]
pub enum LayoutDirection {
    /// Vertical stacking.
    Column,
    /// Horizontal stacking.
    Row,
    /// Grid or stack layout, where children may share a cell.
    Grid,
}

impl Default for LayoutDirection {
    fn default() -> (r: Self)
        ensures
            r == LayoutDirection::Column,
    {
        LayoutDirection::Column
    }
}

/// Composable alignment builder.
#[derive(Clone, Copy, PartialEq, Eq, Debug, Structural)]
pub struct Align {
    x: AlignX,
    y: AlignY,
}

impl Align {
    /// Horizontal part of this alignment.
    pub closed spec fn spec_x(self) -> AlignX {
        self.x
    }

    /// Vertical part of this alignment.
    pub closed spec fn spec_y(self) -> AlignY {
        self.y
    }

    /// An empty alignment.
    pub fn new() -> (r: Self)
        ensures
            r.spec_x() == AlignX::Unset,
            r.spec_y() == AlignY::Unset,
    {
        Align { x: AlignX::Unset, y: AlignY::Unset }
    }

    /// Center on both axes.
    pub fn center() -> (r: Self)
        ensures
            r.spec_x() == AlignX::Center,
            r.spec_y() == AlignY::Center,
    {
        Align { x: AlignX::Center, y: AlignY::Center }
    }

    /// Center horizontally.
    pub fn center_x(self) -> (r: Self)
        ensures
            r.spec_x() == AlignX::Center,
            r.spec_y() == self.spec_y(),
    {
        Align { x: AlignX::Center, y: self.y }
    }

    /// Center vertically.
    pub fn center_y(self) -> (r: Self)
        ensures
            r.spec_x() == self.spec_x(),
            r.spec_y() == AlignY::Center,
    {
        Align { x: self.x, y: AlignY::Center }
    }

    /// Align to the top.
    pub fn top(self) -> (r: Self)
        ensures
            r.spec_x() == self.spec_x(),
            r.spec_y() == AlignY::Top,
    {
        Align { x: self.x, y: AlignY::Top }
    }

    /// Align to the bottom.
    pub fn bottom(self) -> (r: Self)
        ensures
            r.spec_x() == self.spec_x(),
            r.spec_y() == AlignY::Bottom,
    {
        Align { x: self.x, y: AlignY::Bottom }
    }

    /// Align to the left.
    pub fn left(self) -> (r: Self)
        ensures
            r.spec_x() == AlignX::Left,
            r.spec_y() == self.spec_y(),
    {
        Align { x: AlignX::Left, y: self.y }
    }

    /// Align to the right.
    pub fn right(self) -> (r: Self)
        ensures
            r.spec_x() == AlignX::Right,
            r.spec_y() == self.spec_y(),
    {
        Align { x: AlignX::Right, y: self.y }
    }

    /// The self-alignment component this builder describes.
    pub fn to_alignment(self) -> (r: Alignment)
        ensures
            r.x == self.spec_x(),
            r.y == self.spec_y(),
    {
        Alignment { x: self.x, y: self.y }
    }

    /// The content-alignment component this builder describes.
    pub fn to_content_alignment(self) -> (r: ContentAlignment)
        ensures
            r.x == self.spec_x(),
            r.y == self.spec_y(),
    {
        ContentAlignment { x: self.x, y: self.y }
    }
}

impl Default for Align {
    fn default() -> (r: Self)
        ensures
            r.spec_x() == AlignX::Unset,
            r.spec_y() == AlignY::Unset,
    {
        Align::new()
    }
}

/// Two builders are equal exactly when both axes agree.
pub proof fn lemma_align_ext(a: Align, b: Align)
    requires
        a.spec_x() == b.spec_x(),
        a.spec_y() == b.spec_y(),
    ensures
        a == b,
{
}

/// One of the placement-like style fields of a layout node (self alignment, self
/// justification, item alignment, content justification), as far as alignment reads or
/// writes it. `Other` stands for any value this layer never writes.
#[derive(Clone, Copy, PartialEq, Eq, Debug, Hash, Structural)]
pub enum Placement {
    /// The style's default value.
    Default,
    /// Start of the axis.
    Start,
    /// Center of the axis.
    Center,
    /// End of the axis.
    End,
    /// Any other value, left as it is by conversions.
    Other,
}

/// A margin side as far as alignment reads or writes it. `Other` stands for any value this
/// layer never writes.
#[derive(Clone, Copy, PartialEq, Eq, Debug, Hash, Structural)]
pub enum Margin {
    /// A zero-length margin.
    Zero,
    /// An automatic margin, which absorbs free space.
    Auto,
    /// Any other value, left as it is by conversions.
    Other,
}

/// The alignment-related style fields of a layout node.
#[derive(Clone, Copy, PartialEq, Eq, Debug, Structural)]
pub struct NodeAlignment {
    /// How the node aligns itself on the cross axis of its parent.
    pub align_self: Placement,
    /// How the node justifies itself within a grid cell.
    pub justify_self: Placement,
    /// How the node aligns its children on its cross axis.
    pub align_items: Placement,
    /// How the node distributes its children on its main axis.
    pub justify_content: Placement,
    /// Top margin.
    pub margin_top: Margin,
    /// Bottom margin.
    pub margin_bottom: Margin,
    /// Left margin.
    pub margin_left: Margin,
    /// Right margin.
    pub margin_right: Margin,
}

impl Default for NodeAlignment {
    fn default() -> (r: Self)
        ensures
            r == NodeAlignment::spec_default(),
    {
        NodeAlignment {
            align_self: Placement::Default,
            justify_self: Placement::Default,
            align_items: Placement::Default,
            justify_content: Placement::Default,
            margin_top: Margin::Zero,
            margin_bottom: Margin::Zero,
            margin_left: Margin::Zero,
            margin_right: Margin::Zero,
        }
    }
}

impl NodeAlignment {
    /// A node whose alignment fields all hold their defaults.
    pub open spec fn spec_default() -> NodeAlignment {
        NodeAlignment {
            align_self: Placement::Default,
            justify_self: Placement::Default,
            align_items: Placement::Default,
            justify_content: Placement::Default,
            margin_top: Margin::Zero,
            margin_bottom: Margin::Zero,
            margin_left: Margin::Zero,
            margin_right: Margin::Zero,
        }
    }
}

/// The placement a horizontal alignment asks for.
pub open spec fn placement_of_x(x: AlignX) -> Placement {
    match x {
        AlignX::Unset => Placement::Default,
        AlignX::Left => Placement::Start,
        AlignX::Center => Placement::Center,
        AlignX::Right => Placement::End,
    }
}

/// The placement a vertical alignment asks for.
pub open spec fn placement_of_y(y: AlignY) -> Placement {
    match y {
        AlignY::Unset => Placement::Default,
        AlignY::Top => Placement::Start,
        AlignY::Center => Placement::Center,
        AlignY::Bottom => Placement::End,
    }
}

/// The (left, right) margins a horizontal alignment asks for along a row.
pub open spec fn margins_of_x(x: AlignX) -> (Margin, Margin) {
    match x {
        AlignX::Unset => (Margin::Zero, Margin::Zero),
        AlignX::Left => (Margin::Zero, Margin::Auto),
        AlignX::Center => (Margin::Auto, Margin::Auto),
        AlignX::Right => (Margin::Auto, Margin::Zero),
    }
}

/// The (top, bottom) margins a vertical alignment asks for along a column.
pub open spec fn margins_of_y(y: AlignY) -> (Margin, Margin) {
    match y {
        AlignY::Unset => (Margin::Zero, Margin::Zero),
        AlignY::Top => (Margin::Zero, Margin::Auto),
        AlignY::Center => (Margin::Auto, Margin::Auto),
        AlignY::Bottom => (Margin::Auto, Margin::Zero),
    }
}

/// Placement for a horizontal alignment.
pub fn x_placement(x: AlignX) -> (r: Placement)
    ensures
        r == placement_of_x(x),
{
    match x {
        AlignX::Unset => Placement::Default,
        AlignX::Left => Placement::Start,
        AlignX::Center => Placement::Center,
        AlignX::Right => Placement::End,
    }
}

/// Placement for a vertical alignment.
pub fn y_placement(y: AlignY) -> (r: Placement)
    ensures
        r == placement_of_y(y),
{
    match y {
        AlignY::Unset => Placement::Default,
        AlignY::Top => Placement::Start,
        AlignY::Center => Placement::Center,
        AlignY::Bottom => Placement::End,
    }
}

/// Margins along a row for a horizontal alignment.
pub fn x_margins(x: AlignX) -> (r: (Margin, Margin))
    ensures
        r == margins_of_x(x),
{
    match x {
        AlignX::Unset => (Margin::Zero, Margin::Zero),
        AlignX::Left => (Margin::Zero, Margin::Auto),
        AlignX::Center => (Margin::Auto, Margin::Auto),
        AlignX::Right => (Margin::Auto, Margin::Zero),
    }
}

/// Margins along a column for a vertical alignment.
pub fn y_margins(y: AlignY) -> (r: (Margin, Margin))
    ensures
        r == margins_of_y(y),
{
    match y {
        AlignY::Unset => (Margin::Zero, Margin::Zero),
        AlignY::Top => (Margin::Zero, Margin::Auto),
        AlignY::Center => (Margin::Auto, Margin::Auto),
        AlignY::Bottom => (Margin::Auto, Margin::Zero),
    }
}

/// Which self-alignment handler a parent installs for its children.
#[derive(Clone, Copy, PartialEq, Eq, Debug, Hash, Structural)]
pub enum AlignmentHandler {
    /// Column semantics.
    Column,
    /// Row semantics.
    Row,
    /// Grid semantics.
    Grid,
}

/// Which content-alignment handler a parent installs for itself.
#[derive(Clone, Copy, PartialEq, Eq, Debug, Hash, Structural)]
pub enum ContentAlignmentHandler {
    /// Column semantics.
    Column,
    /// Row semantics (also used by grids).
    Row,
}

/// The pair of handlers that a layout direction installs.
#[derive(Clone, Copy, PartialEq, Eq, Debug, Structural)]
pub struct LayoutHandlers {
    /// Handler applied to children's self-alignment.
    pub alignment: AlignmentHandler,
    /// Handler applied to this node's content alignment.
    pub content: ContentAlignmentHandler,
}

/// The handlers each layout direction installs; grids use row semantics for content.
pub open spec fn spec_handlers_for(direction: LayoutDirection) -> LayoutHandlers {
    match direction {
        LayoutDirection::Column => LayoutHandlers {
            alignment: AlignmentHandler::Column,
            content: ContentAlignmentHandler::Column,
        },
        LayoutDirection::Row => LayoutHandlers {
            alignment: AlignmentHandler::Row,
            content: ContentAlignmentHandler::Row,
        },
        LayoutDirection::Grid => LayoutHandlers {
            alignment: AlignmentHandler::Grid,
            content: ContentAlignmentHandler::Row,
        },
    }
}

/// Self-alignment through a handler.
pub open spec fn spec_apply_alignment_with(
    handler: AlignmentHandler,
    node: NodeAlignment,
    alignment: Alignment,
) -> NodeAlignment {
    match handler {
        AlignmentHandler::Column => column::spec_apply_alignment(node, alignment),
        AlignmentHandler::Row => row::spec_apply_alignment(node, alignment),
        AlignmentHandler::Grid => grid::spec_apply_alignment(node, alignment),
    }
}

/// Self-alignment reset through a handler.
pub open spec fn spec_reset_alignment_with(handler: AlignmentHandler, node: NodeAlignment) -> NodeAlignment {
    match handler {
        AlignmentHandler::Column => column::spec_reset_alignment(node),
        AlignmentHandler::Row => row::spec_reset_alignment(node),
        AlignmentHandler::Grid => grid::spec_reset_alignment(node),
    }
}

/// Content alignment through a handler.
pub open spec fn spec_apply_content_alignment_with(
    handler: ContentAlignmentHandler,
    node: NodeAlignment,
    content_alignment: ContentAlignment,
) -> NodeAlignment {
    match handler {
        ContentAlignmentHandler::Column => column::spec_apply_content_alignment(node, content_alignment),
        ContentAlignmentHandler::Row => row::spec_apply_content_alignment(node, content_alignment),
    }
}

/// Content alignment reset through a handler.
pub open spec fn spec_reset_content_alignment_with(
    handler: ContentAlignmentHandler,
    node: NodeAlignment,
) -> NodeAlignment {
    match handler {
        ContentAlignmentHandler::Column => column::spec_reset_content_alignment(node),
        ContentAlignmentHandler::Row => row::spec_reset_content_alignment(node),
    }
}

/// The handlers that a layout direction installs.
pub fn handlers_for(direction: LayoutDirection) -> (r: LayoutHandlers)
    ensures
        r == spec_handlers_for(direction),
{
    match direction {
        LayoutDirection::Column => LayoutHandlers {
            alignment: AlignmentHandler::Column,
            content: ContentAlignmentHandler::Column,
        },
        LayoutDirection::Row => LayoutHandlers {
            alignment: AlignmentHandler::Row,
            content: ContentAlignmentHandler::Row,
        },
        LayoutDirection::Grid => LayoutHandlers {
            alignment: AlignmentHandler::Grid,
            content: ContentAlignmentHandler::Row,
        },
    }
}

/// Apply self-alignment through a handler.
pub fn apply_alignment_with(handler: AlignmentHandler, node: &mut NodeAlignment, alignment: &Alignment)
    ensures
        *final(node) == spec_apply_alignment_with(handler, *old(node), *alignment),
{
    match handler {
        AlignmentHandler::Column => column::apply_alignment(node, alignment),
        AlignmentHandler::Row => row::apply_alignment(node, alignment),
        AlignmentHandler::Grid => grid::apply_alignment(node, alignment),
    }
}

/// Reset self-alignment through a handler.
pub fn reset_alignment_with(handler: AlignmentHandler, node: &mut NodeAlignment)
    ensures
        *final(node) == spec_reset_alignment_with(handler, *old(node)),
{
    match handler {
        AlignmentHandler::Column => column::reset_alignment(node),
        AlignmentHandler::Row => row::reset_alignment(node),
        AlignmentHandler::Grid => grid::reset_alignment(node),
    }
}

/// Apply content alignment through a handler.
pub fn apply_content_alignment_with(
    handler: ContentAlignmentHandler,
    node: &mut NodeAlignment,
    content_alignment: &ContentAlignment,
)
    ensures
        *final(node) == spec_apply_content_alignment_with(handler, *old(node), *content_alignment),
{
    match handler {
        ContentAlignmentHandler::Column => column::apply_content_alignment(node, content_alignment),
        ContentAlignmentHandler::Row => row::apply_content_alignment(node, content_alignment),
    }
}

/// Reset content alignment through a handler.
pub fn reset_content_alignment_with(handler: ContentAlignmentHandler, node: &mut NodeAlignment)
    ensures
        *final(node) == spec_reset_content_alignment_with(handler, *old(node)),
{
    match handler {
        ContentAlignmentHandler::Column => column::reset_content_alignment(node),
        ContentAlignmentHandler::Row => row::reset_content_alignment(node),
    }
}

/// A child's self-alignment, applied when the child or its parent changes: the parent's
/// handler decides; a child whose parent has no handler is left as it is.
pub fn apply_self_alignment(
    parent_handler: Option<AlignmentHandler>,
    node: &mut NodeAlignment,
    alignment: &Alignment,
)
    ensures
        *final(node) == match parent_handler {
            Some(h) => spec_apply_alignment_with(h, *old(node), *alignment),
            None => *old(node),
        },
{
    if let Some(h) = parent_handler {
        apply_alignment_with(h, node, alignment);
    }
}

/// When a child's self-alignment is removed, its parent's handler resets the fields it writes;
/// a child whose parent has no handler is left as it is.
pub fn on_alignment_remove(parent_handler: Option<AlignmentHandler>, node: &mut NodeAlignment)
    ensures
        *final(node) == match parent_handler {
            Some(h) => spec_reset_alignment_with(h, *old(node)),
            None => *old(node),
        },
{
    if let Some(h) = parent_handler {
        reset_alignment_with(h, node);
    }
}

/// When a node's content alignment is removed, its own content handler resets the fields it
/// writes; a node without a content handler is left as it is.
pub fn on_content_alignment_remove(handler: Option<ContentAlignmentHandler>, node: &mut NodeAlignment)
    ensures
        *final(node) == match handler {
            Some(h) => spec_reset_content_alignment_with(h, *old(node)),
            None => *old(node),
        },
{
    if let Some(h) = handler {
        reset_content_alignment_with(h, node);
    }
}

/// A child of a container whose layout direction is (re)inserted.
#[derive(Clone, Copy, PartialEq, Eq, Debug, Structural)]
pub struct AlignedChild {
    /// Whether the child carries a self-alignment.
    pub has_alignment: bool,
    /// The child's alignment-related style fields.
    pub node: NodeAlignment,
}

/// What inserting a layout direction does: children that carry a self-alignment are reset with
/// the handler that was installed before (if any), and the handlers of the new direction are
/// returned to be installed.
pub fn on_layout_direction_insert(
    previous_handler: Option<AlignmentHandler>,
    children: &mut Vec<AlignedChild>,
    direction: LayoutDirection,
) -> (r: LayoutHandlers)
    ensures
        r == spec_handlers_for(direction),
        final(children)@.len() == old(children)@.len(),
        forall|i: int|
            0 <= i < old(children)@.len() ==> #[trigger] final(children)@[i] == match previous_handler {
                Some(h) => if old(children)@[i].has_alignment {
                    AlignedChild {
                        has_alignment: true,
                        node: spec_reset_alignment_with(h, old(children)@[i].node),
                    }
                } else {
                    old(children)@[i]
                },
                None => old(children)@[i],
            },
{
    if let Some(h) = previous_handler {
        let n = children.len();
        let mut i: usize = 0;
        while i < n
            invariant
                n == old(children)@.len(),
                children@.len() == n,
                0 <= i <= n,
                forall|j: int|
                    0 <= j < i ==> #[trigger] children@[j] == if old(children)@[j].has_alignment {
                        AlignedChild {
                            has_alignment: true,
                            node: spec_reset_alignment_with(h, old(children)@[j].node),
                        }
                    } else {
                        old(children)@[j]
                    },
                forall|j: int| i <= j < n ==> #[trigger] children@[j] == old(children)@[j],
            decreases n - i,
        {
            let child = children[i];
            if child.has_alignment {
                let mut node = child.node;
                reset_alignment_with(h, &mut node);
                children.set(i, AlignedChild { has_alignment: true, node });
            }
            i = i + 1;
        }
    }
    handlers_for(direction)
}

/// Resetting through a handler erases whatever an alignment applied through the same handler
/// wrote: reset after apply is the same as reset alone.
pub proof fn lemma_reset_erases_alignment(
    handler: AlignmentHandler,
    node: NodeAlignment,
    alignment: Alignment,
)
    ensures
        spec_reset_alignment_with(handler, spec_apply_alignment_with(handler, node, alignment))
            == spec_reset_alignment_with(handler, node),
{
}

/// Resetting content alignment erases whatever a content alignment applied through the same
/// handler wrote.
pub proof fn lemma_reset_erases_content_alignment(
    handler: ContentAlignmentHandler,
    node: NodeAlignment,
    content_alignment: ContentAlignment,
)
    ensures
        spec_reset_content_alignment_with(
            handler,
            spec_apply_content_alignment_with(handler, node, content_alignment),
        ) == spec_reset_content_alignment_with(handler, node),
{
}

/// A later self-alignment fully replaces an earlier one applied through the same handler.
pub proof fn lemma_alignment_last_wins(
    handler: AlignmentHandler,
    node: NodeAlignment,
    first: Alignment,
    second: Alignment,
)
    ensures
        spec_apply_alignment_with(handler, spec_apply_alignment_with(handler, node, first), second)
            == spec_apply_alignment_with(handler, node, second),
{
}

/// A later content alignment fully replaces an earlier one applied through the same handler.
pub proof fn lemma_content_alignment_last_wins(
    handler: ContentAlignmentHandler,
    node: NodeAlignment,
    first: ContentAlignment,
    second: ContentAlignment,
)
    ensures
        spec_apply_content_alignment_with(
            handler,
            spec_apply_content_alignment_with(handler, node, first),
            second,
        ) == spec_apply_content_alignment_with(handler, node, second),
{
}

/// Self-alignment handlers and content-alignment handlers write disjoint fields, so a node's
/// own self-alignment (written by its parent's handler) and its content alignment (written by
/// its own handler) can be applied in either order with the same result.
pub proof fn lemma_self_and_content_alignment_commute(
    alignment_handler: AlignmentHandler,
    content_handler: ContentAlignmentHandler,
    node: NodeAlignment,
    alignment: Alignment,
    content_alignment: ContentAlignment,
)
    ensures
        spec_apply_content_alignment_with(
            content_handler,
            spec_apply_alignment_with(alignment_handler, node, alignment),
            content_alignment,
        ) == spec_apply_alignment_with(
            alignment_handler,
            spec_apply_content_alignment_with(content_handler, node, content_alignment),
            alignment,
        ),
{
}

/// The horizontal alignment mirrored left to right.
pub open spec fn flip_x(x: AlignX) -> AlignX {
    match x {
        AlignX::Left => AlignX::Right,
        AlignX::Right => AlignX::Left,
        other => other,
    }
}

/// The vertical alignment mirrored top to bottom.
pub open spec fn flip_y(y: AlignY) -> AlignY {
    match y {
        AlignY::Top => AlignY::Bottom,
        AlignY::Bottom => AlignY::Top,
        other => other,
    }
}

/// A placement mirrored along its axis.
pub open spec fn flip_placement(p: Placement) -> Placement {
    match p {
        Placement::Start => Placement::End,
        Placement::End => Placement::Start,
        other => other,
    }
}

/// An alignment asks for the start of its axis (left, top), the center, the end (right,
/// bottom), or nothing (the style's default).
pub proof fn lemma_placements(x: AlignX, y: AlignY)
    ensures
        (x == AlignX::Unset) == (placement_of_x(x) == Placement::Default),
        (x == AlignX::Left) == (placement_of_x(x) == Placement::Start),
        (x == AlignX::Center) == (placement_of_x(x) == Placement::Center),
        (x == AlignX::Right) == (placement_of_x(x) == Placement::End),
        (y == AlignY::Unset) == (placement_of_y(y) == Placement::Default),
        (y == AlignY::Top) == (placement_of_y(y) == Placement::Start),
        (y == AlignY::Center) == (placement_of_y(y) == Placement::Center),
        (y == AlignY::Bottom) == (placement_of_y(y) == Placement::End),
        placement_of_x(flip_x(x)) == flip_placement(placement_of_x(x)),
        placement_of_y(flip_y(y)) == flip_placement(placement_of_y(y)),
{
}

/// Margins push a child along its parent's main axis: an automatic margin absorbs the free
/// space on its side. Centering puts automatic margins on both sides, aligning to one side puts
/// the automatic margin on the other side only, and no alignment leaves both margins zero.
/// Mirroring the alignment swaps the two margins.
pub proof fn lemma_margins(x: AlignX, y: AlignY)
    ensures
        x == AlignX::Unset ==> margins_of_x(x) == (Margin::Zero, Margin::Zero),
        x == AlignX::Left ==> margins_of_x(x) == (Margin::Zero, Margin::Auto),
        x == AlignX::Center ==> margins_of_x(x) == (Margin::Auto, Margin::Auto),
        x == AlignX::Right ==> margins_of_x(x) == (Margin::Auto, Margin::Zero),
        y == AlignY::Unset ==> margins_of_y(y) == (Margin::Zero, Margin::Zero),
        y == AlignY::Top ==> margins_of_y(y) == (Margin::Zero, Margin::Auto),
        y == AlignY::Center ==> margins_of_y(y) == (Margin::Auto, Margin::Auto),
        y == AlignY::Bottom ==> margins_of_y(y) == (Margin::Auto, Margin::Zero),
        margins_of_x(flip_x(x)) == (margins_of_x(x).1, margins_of_x(x).0),
        margins_of_y(flip_y(y)) == (margins_of_y(y).1, margins_of_y(y).0),
        margins_of_x(x).0 != Margin::Other && margins_of_x(x).1 != Margin::Other,
        margins_of_y(y).0 != Margin::Other && margins_of_y(y).1 != Margin::Other,
{
}

/// Each layout direction installs its own semantics for children's self-alignment; content
/// alignment follows column semantics in a column and row semantics in a row or a grid.
pub proof fn lemma_handlers_per_direction(direction: LayoutDirection)
    ensures
        direction == LayoutDirection::Column ==> spec_handlers_for(direction).alignment == AlignmentHandler::Column
            && spec_handlers_for(direction).content == ContentAlignmentHandler::Column,
        direction == LayoutDirection::Row ==> spec_handlers_for(direction).alignment == AlignmentHandler::Row
            && spec_handlers_for(direction).content == ContentAlignmentHandler::Row,
        direction == LayoutDirection::Grid ==> spec_handlers_for(direction).alignment == AlignmentHandler::Grid
            && spec_handlers_for(direction).content == ContentAlignmentHandler::Row,
{
}

} // verus!
