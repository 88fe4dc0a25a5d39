//! The container layout each element kind starts from, and the stripe element whose direction
//! can switch between column and row.
use crate::align::{LayoutDirection, Placement};
use vstd::prelude::*;

verus! {

/// Layout algorithm of a container.
#[derive(Clone, Copy, PartialEq, Eq, Debug, Hash, Structural)]
pub enum Display {
    /// Flexbox.
    Flex,
    /// Grid.
    Grid,
}

/// Main axis of a flex container.
#[derive(Clone, Copy, PartialEq, Eq, Debug, Hash, Structural)]
pub enum FlexDirection {
    /// Children laid out left to right.
    Row,
    /// Children laid out top to bottom.
    Column,
}

/// The built-in element kinds.
#[derive(Clone, Copy, PartialEq, Eq, Debug, Hash, Structural)]
pub enum ElementKind {
    /// A singleton container.
    El,
    /// Vertically stacked children.
    Column,
    /// Horizontally stacked children.
    Row,
    /// Children layered in one grid cell.
    Stack,
    /// Children in a wrapping grid.
    Grid,
    /// Children stacked vertically or horizontally, switchably.
    Stripe,
}

/// The style an element kind starts from. `None` leaves a field at its default.
#[derive(Clone, Copy, PartialEq, Eq, Debug, Structural)]
pub struct ContainerLayout {
    /// Layout algorithm.
    pub display: Display,
    /// Main axis, for flex containers.
    pub flex_direction: Option<FlexDirection>,
    /// Cross-axis alignment of children, when set.
    pub align_items: Option<Placement>,
    /// Layout direction, which decides the alignment handlers.
    pub layout_direction: LayoutDirection,
}

/// The starting layout of each element kind: singletons, columns and stripes are vertical flex
/// containers; rows are horizontal flex containers centering their children vertically; stacks
/// and grids are grid containers.
pub open spec fn spec_container_layout(kind: ElementKind) -> ContainerLayout {
    match kind {
        ElementKind::El | ElementKind::Column | ElementKind::Stripe => ContainerLayout {
            display: Display::Flex,
            flex_direction: Some(FlexDirection::Column),
            align_items: None,
            layout_direction: LayoutDirection::Column,
        },
        ElementKind::Row => ContainerLayout {
            display: Display::Flex,
            flex_direction: Some(FlexDirection::Row),
            align_items: Some(Placement::Center),
            layout_direction: LayoutDirection::Row,
        },
        ElementKind::Stack | ElementKind::Grid => ContainerLayout {
            display: Display::Grid,
            flex_direction: None,
            align_items: None,
            layout_direction: LayoutDirection::Grid,
        },
    }
}

/// The starting layout of an element kind.
pub fn container_layout(kind: ElementKind) -> (r: ContainerLayout)
    ensures
        r == spec_container_layout(kind),
{
    match kind {
        ElementKind::El | ElementKind::Column | ElementKind::Stripe => ContainerLayout {
            display: Display::Flex,
            flex_direction: Some(FlexDirection::Column),
            align_items: None,
            layout_direction: LayoutDirection::Column,
        },
        ElementKind::Row => ContainerLayout {
            display: Display::Flex,
            flex_direction: Some(FlexDirection::Row),
            align_items: Some(Placement::Center),
            layout_direction: LayoutDirection::Row,
        },
        ElementKind::Stack | ElementKind::Grid => ContainerLayout {
            display: Display::Grid,
            flex_direction: None,
            align_items: None,
            layout_direction: LayoutDirection::Grid,
        },
    }
}

/// Direction of a stripe.
#[derive(Clone, Copy, PartialEq, Eq, Debug, Hash, Structural)]
pub enum Direction {
    /// Vertical.
    Column,
    /// Horizontal.
    Row,
}

impl Default for Direction {
    fn default() -> (r: Self)
        ensures
            r == Direction::Column,
    {
        Direction::Column
    }
}

/// The flex direction of a stripe direction.
pub fn flex_direction_of(direction: Direction) -> (r: FlexDirection)
    ensures
        r == match direction {
            Direction::Column => FlexDirection::Column,
            Direction::Row => FlexDirection::Row,
        },
{
    match direction {
        Direction::Column => FlexDirection::Column,
        Direction::Row => FlexDirection::Row,
    }
}

/// The layout direction of a stripe direction.
pub fn layout_direction_of(direction: Direction) -> (r: LayoutDirection)
    ensures
        r == match direction {
            Direction::Column => LayoutDirection::Column,
            Direction::Row => LayoutDirection::Row,
        },
{
    match direction {
        Direction::Column => LayoutDirection::Column,
        Direction::Row => LayoutDirection::Row,
    }
}

/// The style a stripe direction sets: the flex direction, the children's cross-axis alignment
/// (centered in a row, default in a column), and the layout direction.
#[derive(Clone, Copy, PartialEq, Eq, Debug, Structural)]
pub struct StripeDirectionStyle {
    /// Main axis.
    pub flex_direction: FlexDirection,
    /// Cross-axis alignment of children.
    pub align_items: Placement,
    /// Layout direction.
    pub layout_direction: LayoutDirection,
}

/// The style a stripe direction sets.
pub fn stripe_direction_style(direction: Direction) -> (r: StripeDirectionStyle)
    ensures
        r.flex_direction == (match direction {
            Direction::Column => FlexDirection::Column,
            Direction::Row => FlexDirection::Row,
        }),
        r.align_items == (if direction == Direction::Row {
            Placement::Center
        } else {
            Placement::Default
        }),
        r.layout_direction == (match direction {
            Direction::Column => LayoutDirection::Column,
            Direction::Row => LayoutDirection::Row,
        }),
{
    StripeDirectionStyle {
        flex_direction: flex_direction_of(direction),
        align_items: if direction == Direction::Row {
            Placement::Center
        } else {
            Placement::Default
        },
        layout_direction: layout_direction_of(direction),
    }
}

/// Wrapping of a flex container's children.
#[derive(Clone, Copy, PartialEq, Eq, Debug, Hash, Structural)]
pub enum Wrapping {
    /// Children wrap onto further lines; the container grows from a zero basis.
    Multiline,
    /// Children stay on one line; the container keeps an automatic basis and does not grow.
    SingleLine,
    /// Whatever the container had before.
    Unchanged,
}

/// A row wrapping its children onto further lines.
pub fn row_multiline() -> (r: Wrapping)
    ensures
        r == Wrapping::Multiline,
{
    Wrapping::Multiline
}

/// A stripe's static multiline request: only a stripe currently laid out as a row wraps.
pub fn stripe_multiline_row(flex_direction: FlexDirection) -> (r: Wrapping)
    ensures
        r == if flex_direction == FlexDirection::Row {
            Wrapping::Multiline
        } else {
            Wrapping::Unchanged
        },
{
    if flex_direction == FlexDirection::Row {
        Wrapping::Multiline
    } else {
        Wrapping::Unchanged
    }
}

/// A stripe's reactive multiline request: a row wraps while requested; otherwise the stripe is
/// put back on a single line.
pub fn stripe_multiline_row_signal(flex_direction: FlexDirection, multiline: bool) -> (r: Wrapping)
    ensures
        r == if flex_direction == FlexDirection::Row && multiline {
            Wrapping::Multiline
        } else {
            Wrapping::SingleLine
        },
{
    if flex_direction == FlexDirection::Row && multiline {
        Wrapping::Multiline
    } else {
        Wrapping::SingleLine
    }
}

/// The grid cell every stack layer is placed in: column 1 to row 1, spanning one track each.
#[derive(Clone, Copy, PartialEq, Eq, Debug, Structural)]
pub struct GridCell {
    /// First column line.
    pub column_start: u16,
    /// Columns spanned.
    pub column_span: u16,
    /// First row line.
    pub row_start: u16,
    /// Rows spanned.
    pub row_span: u16,
}

/// The grid cell of a stack layer: all layers share the first cell, so they overlap.
pub fn stack_child_cell() -> (r: GridCell)
    ensures
        r.column_start == 1 && r.column_span == 1 && r.row_start == 1 && r.row_span == 1,
{
    GridCell { column_start: 1, column_span: 1, row_start: 1, row_span: 1 }
}

/// Plain elements, columns and stripes stack their children vertically with flex layout; rows
/// stack them horizontally and center them vertically; grids and stacks use grid layout, with
/// no flex direction. The layout direction matches: column, row or grid.
pub proof fn lemma_container_layouts(kind: ElementKind)
    ensures
        ({
            let l = spec_container_layout(kind);
            &&& (l.display == Display::Grid) == (kind == ElementKind::Stack || kind == ElementKind::Grid)
            &&& (l.display == Display::Grid) == (l.layout_direction == LayoutDirection::Grid)
            &&& (l.display == Display::Grid) == (l.flex_direction is None)
            &&& (l.flex_direction == Some(FlexDirection::Row)) == (kind == ElementKind::Row)
            &&& (l.layout_direction == LayoutDirection::Row) == (kind == ElementKind::Row)
            &&& (l.flex_direction == Some(FlexDirection::Column)) == (l.layout_direction == LayoutDirection::Column)
            &&& (l.align_items == Some(Placement::Center)) == (kind == ElementKind::Row)
            &&& kind != ElementKind::Row ==> l.align_items is None
        }),
{
}

} // verus!
