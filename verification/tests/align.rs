use haalka::align::{
    apply_alignment_with, apply_content_alignment_with, apply_self_alignment, handlers_for, on_alignment_remove, on_content_alignment_remove, on_layout_direction_insert,
    reset_alignment_with, reset_content_alignment_with, x_margins, x_placement, y_margins,
    y_placement, AlignedChild, AlignmentHandler, ContentAlignmentHandler, LayoutHandlers, Margin,
    NodeAlignment, Placement,
};
use haalka::{Align, AlignX, AlignY, Alignment, ContentAlignment, LayoutDirection};

fn node() -> NodeAlignment {
    NodeAlignment::default()
}

fn other_node() -> NodeAlignment {
    NodeAlignment {
        align_self: Placement::Other,
        justify_self: Placement::Other,
        align_items: Placement::Other,
        justify_content: Placement::Other,
        margin_top: Margin::Other,
        margin_bottom: Margin::Other,
        margin_left: Margin::Other,
        margin_right: Margin::Other,
    }
}

#[test]
fn align_builder_composes_axes() {
    let a = Align::new().top().left();
    assert_eq!(a.to_alignment(), Alignment { x: AlignX::Left, y: AlignY::Top });
    let b = Align::center().right();
    assert_eq!(b.to_alignment(), Alignment { x: AlignX::Right, y: AlignY::Center });
    let c = Align::new().bottom().center_x();
    assert_eq!(c.to_content_alignment(), ContentAlignment { x: AlignX::Center, y: AlignY::Bottom });
    let d = Align::new().left().center_y();
    assert_eq!(d.to_alignment(), Alignment { x: AlignX::Left, y: AlignY::Center });
    assert_eq!(Align::default(), Align::new());
    assert_eq!(Align::new().to_alignment(), Alignment::default());
    assert_eq!(Align::new().to_content_alignment(), ContentAlignment::default());
}

#[test]
fn align_later_call_on_an_axis_wins() {
    assert_eq!(Align::new().left().right(), Align::new().right());
    assert_eq!(Align::new().top().bottom().left(), Align::new().bottom().left());
}

#[test]
fn defaults() {
    assert_eq!(AlignX::default(), AlignX::Unset);
    assert_eq!(AlignY::default(), AlignY::Unset);
    assert_eq!(LayoutDirection::default(), LayoutDirection::Column);
    let n = node();
    assert_eq!(n.align_self, Placement::Default);
    assert_eq!(n.margin_left, Margin::Zero);
}

#[test]
fn placements_and_margins() {
    assert_eq!(x_placement(AlignX::Unset), Placement::Default);
    assert_eq!(x_placement(AlignX::Left), Placement::Start);
    assert_eq!(x_placement(AlignX::Center), Placement::Center);
    assert_eq!(x_placement(AlignX::Right), Placement::End);
    assert_eq!(y_placement(AlignY::Top), Placement::Start);
    assert_eq!(y_placement(AlignY::Bottom), Placement::End);
    assert_eq!(x_margins(AlignX::Left), (Margin::Zero, Margin::Auto));
    assert_eq!(x_margins(AlignX::Center), (Margin::Auto, Margin::Auto));
    assert_eq!(x_margins(AlignX::Right), (Margin::Auto, Margin::Zero));
    assert_eq!(x_margins(AlignX::Unset), (Margin::Zero, Margin::Zero));
    assert_eq!(y_margins(AlignY::Top), (Margin::Zero, Margin::Auto));
    assert_eq!(y_margins(AlignY::Bottom), (Margin::Auto, Margin::Zero));
}

#[test]
fn column_alignment_uses_align_self_and_vertical_margins() {
    let mut n = other_node();
    haalka::align::column::apply_alignment(&mut n, &Alignment { x: AlignX::Right, y: AlignY::Bottom });
    assert_eq!(n.align_self, Placement::End);
    assert_eq!(n.margin_top, Margin::Auto);
    assert_eq!(n.margin_bottom, Margin::Zero);
    assert_eq!(n.margin_left, Margin::Other);
    assert_eq!(n.justify_self, Placement::Other);
    haalka::align::column::reset_alignment(&mut n);
    assert_eq!(n.align_self, Placement::Default);
    assert_eq!(n.margin_top, Margin::Zero);
    assert_eq!(n.margin_bottom, Margin::Zero);
    assert_eq!(n.margin_right, Margin::Other);
}

#[test]
fn column_content_alignment() {
    let mut n = other_node();
    haalka::align::column::apply_content_alignment(&mut n, &ContentAlignment { x: AlignX::Center, y: AlignY::Top });
    assert_eq!(n.align_items, Placement::Center);
    assert_eq!(n.justify_content, Placement::Start);
    assert_eq!(n.align_self, Placement::Other);
    haalka::align::column::reset_content_alignment(&mut n);
    assert_eq!(n.align_items, Placement::Default);
    assert_eq!(n.justify_content, Placement::Default);
}

#[test]
fn row_alignment_uses_horizontal_margins_and_align_self() {
    let mut n = other_node();
    haalka::align::row::apply_alignment(&mut n, &Alignment { x: AlignX::Center, y: AlignY::Top });
    assert_eq!(n.margin_left, Margin::Auto);
    assert_eq!(n.margin_right, Margin::Auto);
    assert_eq!(n.align_self, Placement::Start);
    assert_eq!(n.margin_top, Margin::Other);
    haalka::align::row::reset_alignment(&mut n);
    assert_eq!(n.margin_left, Margin::Zero);
    assert_eq!(n.margin_right, Margin::Zero);
    assert_eq!(n.align_self, Placement::Default);
    let mut m = other_node();
    haalka::align::row::apply_content_alignment(&mut m, &ContentAlignment { x: AlignX::Right, y: AlignY::Bottom });
    assert_eq!(m.justify_content, Placement::End);
    assert_eq!(m.align_items, Placement::End);
    haalka::align::row::reset_content_alignment(&mut m);
    assert_eq!(m.justify_content, Placement::Default);
    assert_eq!(m.align_items, Placement::Default);
}

#[test]
fn grid_alignment_uses_justify_self_and_align_self() {
    let mut n = other_node();
    haalka::align::grid::apply_alignment(&mut n, &Alignment { x: AlignX::Left, y: AlignY::Bottom });
    assert_eq!(n.justify_self, Placement::Start);
    assert_eq!(n.align_self, Placement::End);
    assert_eq!(n.margin_left, Margin::Other);
    haalka::align::grid::reset_alignment(&mut n);
    assert_eq!(n.justify_self, Placement::Default);
    assert_eq!(n.align_self, Placement::Default);
}

#[test]
fn handlers_per_direction() {
    assert_eq!(
        handlers_for(LayoutDirection::Column),
        LayoutHandlers { alignment: AlignmentHandler::Column, content: ContentAlignmentHandler::Column }
    );
    assert_eq!(
        handlers_for(LayoutDirection::Row),
        LayoutHandlers { alignment: AlignmentHandler::Row, content: ContentAlignmentHandler::Row }
    );
    assert_eq!(
        handlers_for(LayoutDirection::Grid),
        LayoutHandlers { alignment: AlignmentHandler::Grid, content: ContentAlignmentHandler::Row }
    );
}

#[test]
fn handler_dispatch_matches_direct_calls() {
    let a = Alignment { x: AlignX::Right, y: AlignY::Center };
    for (h, f) in [
        (AlignmentHandler::Column, haalka::align::column::apply_alignment as fn(&mut NodeAlignment, &Alignment)),
        (AlignmentHandler::Row, haalka::align::row::apply_alignment),
        (AlignmentHandler::Grid, haalka::align::grid::apply_alignment),
    ] {
        let mut via = other_node();
        let mut direct = other_node();
        apply_alignment_with(h, &mut via, &a);
        f(&mut direct, &a);
        assert_eq!(via, direct);
    }
    let c = ContentAlignment { x: AlignX::Left, y: AlignY::Bottom };
    let mut via = other_node();
    let mut direct = other_node();
    apply_content_alignment_with(ContentAlignmentHandler::Column, &mut via, &c);
    haalka::align::column::apply_content_alignment(&mut direct, &c);
    assert_eq!(via, direct);
}

#[test]
fn reset_after_apply_is_reset_alone() {
    let a = Alignment { x: AlignX::Center, y: AlignY::Bottom };
    for h in [AlignmentHandler::Column, AlignmentHandler::Row, AlignmentHandler::Grid] {
        let mut applied = other_node();
        apply_alignment_with(h, &mut applied, &a);
        reset_alignment_with(h, &mut applied);
        let mut plain = other_node();
        reset_alignment_with(h, &mut plain);
        assert_eq!(applied, plain);
    }
    let c = ContentAlignment { x: AlignX::Right, y: AlignY::Top };
    for h in [ContentAlignmentHandler::Column, ContentAlignmentHandler::Row] {
        let mut applied = other_node();
        apply_content_alignment_with(h, &mut applied, &c);
        reset_content_alignment_with(h, &mut applied);
        let mut plain = other_node();
        reset_content_alignment_with(h, &mut plain);
        assert_eq!(applied, plain);
    }
}

#[test]
fn last_alignment_wins() {
    let first = Alignment { x: AlignX::Left, y: AlignY::Top };
    let second = Alignment { x: AlignX::Unset, y: AlignY::Center };
    for h in [AlignmentHandler::Column, AlignmentHandler::Row, AlignmentHandler::Grid] {
        let mut twice = node();
        apply_alignment_with(h, &mut twice, &first);
        apply_alignment_with(h, &mut twice, &second);
        let mut once = node();
        apply_alignment_with(h, &mut once, &second);
        assert_eq!(twice, once);
    }
}

#[test]
fn self_and_content_alignment_commute() {
    let a = Alignment { x: AlignX::Right, y: AlignY::Top };
    let c = ContentAlignment { x: AlignX::Center, y: AlignY::Bottom };
    let mut one = other_node();
    apply_alignment_with(AlignmentHandler::Row, &mut one, &a);
    apply_content_alignment_with(ContentAlignmentHandler::Column, &mut one, &c);
    let mut two = other_node();
    apply_content_alignment_with(ContentAlignmentHandler::Column, &mut two, &c);
    apply_alignment_with(AlignmentHandler::Row, &mut two, &a);
    assert_eq!(one, two);
}

#[test]
fn self_alignment_without_parent_handler_changes_nothing() {
    let a = Alignment { x: AlignX::Right, y: AlignY::Top };
    let mut n = other_node();
    apply_self_alignment(None, &mut n, &a);
    assert_eq!(n, other_node());
    apply_self_alignment(Some(AlignmentHandler::Grid), &mut n, &a);
    assert_eq!(n.justify_self, Placement::End);
    assert_eq!(n.align_self, Placement::Start);
}

#[test]
fn removing_alignments_resets_through_handlers() {
    let mut n = other_node();
    on_alignment_remove(None, &mut n);
    assert_eq!(n, other_node());
    on_alignment_remove(Some(AlignmentHandler::Column), &mut n);
    assert_eq!(n.align_self, Placement::Default);
    assert_eq!(n.margin_top, Margin::Zero);
    assert_eq!(n.margin_left, Margin::Other);
    let mut m = other_node();
    on_content_alignment_remove(None, &mut m);
    assert_eq!(m, other_node());
    on_content_alignment_remove(Some(ContentAlignmentHandler::Row), &mut m);
    assert_eq!(m.justify_content, Placement::Default);
    assert_eq!(m.align_items, Placement::Default);
}

#[test]
fn layout_direction_insert_resets_aligned_children() {
    let mut children = vec![
        AlignedChild { has_alignment: true, node: other_node() },
        AlignedChild { has_alignment: false, node: other_node() },
    ];
    let h = on_layout_direction_insert(Some(AlignmentHandler::Row), &mut children, LayoutDirection::Grid);
    assert_eq!(h, handlers_for(LayoutDirection::Grid));
    assert_eq!(children[0].node.margin_left, Margin::Zero);
    assert_eq!(children[0].node.margin_right, Margin::Zero);
    assert_eq!(children[0].node.align_self, Placement::Default);
    assert_eq!(children[0].node.margin_top, Margin::Other);
    assert!(children[0].has_alignment);
    assert_eq!(children[1].node, other_node());

    let mut untouched = vec![AlignedChild { has_alignment: true, node: other_node() }];
    let h2 = on_layout_direction_insert(None, &mut untouched, LayoutDirection::Row);
    assert_eq!(h2, handlers_for(LayoutDirection::Row));
    assert_eq!(untouched[0].node, other_node());

    let mut empty: Vec<AlignedChild> = Vec::new();
    on_layout_direction_insert(Some(AlignmentHandler::Column), &mut empty, LayoutDirection::Column);
    assert!(empty.is_empty());
}
