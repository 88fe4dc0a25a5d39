use haalka::children::{
    offset, spawn_static_children, ChildBlocks, ChildDiff, ChildOp, ReactiveChild, ReactiveChildren,
};

/// Carry the operations out on a parent's ordered child list, as the world would.
fn apply(parent: &mut Vec<u64>, ops: &[ChildOp]) {
    for op in ops {
        match op {
            ChildOp::Despawn { entity } | ChildOp::Detach { entity } => {
                if let Some(p) = parent.iter().position(|e| e == entity) {
                    parent.remove(p);
                }
            }
            ChildOp::Insert { index, entities } => {
                for (k, e) in entities.iter().enumerate() {
                    parent.insert(index + k, *e);
                }
            }
        }
    }
}

#[test]
fn blocks_offsets_are_prefix_sums() {
    let mut blocks = ChildBlocks::new();
    assert_eq!(blocks.len(), 0);
    assert_eq!(blocks.offset(0), 0);
    assert_eq!(blocks.child(), (0, 0));
    assert_eq!(blocks.children(3), (1, 1));
    assert_eq!(blocks.child_signal(), 2);
    assert_eq!(blocks.children_signal_vec(), 3);
    assert_eq!(blocks.child(), (4, 4));
    assert_eq!(blocks.len(), 5);
    assert_eq!(blocks.offset(2), 4);
    assert_eq!(blocks.offset(4), 4);
    assert_eq!(blocks.offset(5), 5);
    blocks.set_population(3, 2);
    assert_eq!(blocks.population(3), 2);
    assert_eq!(blocks.offset(4), 6);
    assert_eq!(blocks.push_block(7), (5, 7));
    assert_eq!(offset(3, &vec![2, 0, 5, 1]), 7);
    assert_eq!(offset(0, &vec![2, 0, 5, 1]), 0);
    assert_eq!(offset(4, &vec![2, 0, 5, 1]), 8);
}

#[test]
fn static_children_are_inserted_at_their_offset() {
    assert_eq!(
        spawn_static_children(3, vec![10, 11], true),
        vec![ChildOp::Insert { index: 3, entities: vec![10, 11] }]
    );
    assert_eq!(
        spawn_static_children(3, vec![10, 11], false),
        vec![ChildOp::Despawn { entity: 10 }, ChildOp::Despawn { entity: 11 }]
    );
}

#[test]
fn reactive_list_ops_for_each_diff() {
    let mut blocks = ChildBlocks::new();
    blocks.children(2);
    let b = blocks.children_signal_vec();
    let mut list = ReactiveChildren::new();

    let ops = list.apply_diff(&mut blocks, b, ChildDiff::Push { entity: 7 }, true);
    assert_eq!(ops, vec![ChildOp::Insert { index: 2, entities: vec![7] }]);
    assert_eq!(list.entities(), &vec![7]);
    assert_eq!(blocks.population(b), 1);

    let ops = list.apply_diff(&mut blocks, b, ChildDiff::InsertAt { index: 0, entity: 8 }, true);
    assert_eq!(ops, vec![ChildOp::Insert { index: 2, entities: vec![8] }]);
    assert_eq!(list.entities(), &vec![8, 7]);

    let ops = list.apply_diff(&mut blocks, b, ChildDiff::UpdateAt { index: 1, entity: 9 }, true);
    assert_eq!(
        ops,
        vec![ChildOp::Despawn { entity: 7 }, ChildOp::Insert { index: 3, entities: vec![9] }]
    );
    assert_eq!(list.entities(), &vec![8, 9]);
    assert_eq!(blocks.population(b), 2);

    let ops = list.apply_diff(&mut blocks, b, ChildDiff::RemoveAt { index: 0 }, true);
    assert_eq!(ops, vec![ChildOp::Despawn { entity: 8 }]);
    assert_eq!(list.entities(), &vec![9]);
    assert_eq!(blocks.population(b), 1);

    let ops = list.apply_diff(&mut blocks, b, ChildDiff::Pop, true);
    assert_eq!(ops, vec![ChildOp::Despawn { entity: 9 }]);
    assert!(list.entities().is_empty());
    assert_eq!(blocks.population(b), 0);

    let ops = list.apply_diff(&mut blocks, b, ChildDiff::Pop, true);
    assert!(ops.is_empty());

    let ops = list.apply_diff(&mut blocks, b, ChildDiff::Replace { entities: vec![1, 2, 3] }, true);
    assert_eq!(ops, vec![ChildOp::Insert { index: 2, entities: vec![1, 2, 3] }]);
    assert_eq!(blocks.population(b), 3);

    let ops = list.apply_diff(&mut blocks, b, ChildDiff::Replace { entities: vec![4] }, true);
    assert_eq!(
        ops,
        vec![
            ChildOp::Despawn { entity: 1 },
            ChildOp::Despawn { entity: 2 },
            ChildOp::Despawn { entity: 3 },
            ChildOp::Insert { index: 2, entities: vec![4] },
        ]
    );

    let ops = list.apply_diff(&mut blocks, b, ChildDiff::RemoveAt { index: 5 }, true);
    assert!(ops.is_empty());
    assert_eq!(list.entities(), &vec![4]);

    let ops = list.apply_diff(&mut blocks, b, ChildDiff::Clear, true);
    assert_eq!(ops, vec![ChildOp::Despawn { entity: 4 }]);
    assert!(list.entities().is_empty());
    assert_eq!(blocks.population(b), 0);
}

#[test]
fn reactive_list_move_takes_out_and_puts_back() {
    let mut blocks = ChildBlocks::new();
    let b = blocks.children_signal_vec();
    let mut list = ReactiveChildren::new();
    list.apply_diff(&mut blocks, b, ChildDiff::Replace { entities: vec![1, 2, 3] }, true);
    let ops = list.apply_diff(&mut blocks, b, ChildDiff::Move { old_index: 0, new_index: 2 }, true);
    assert_eq!(list.entities(), &vec![2, 3, 1]);
    assert_eq!(
        ops,
        vec![ChildOp::Detach { entity: 1 }, ChildOp::Insert { index: 2, entities: vec![1] }]
    );
    assert_eq!(blocks.population(b), 3);
    let ops = list.apply_diff(&mut blocks, b, ChildDiff::Move { old_index: 1, new_index: 1 }, true);
    assert_eq!(list.entities(), &vec![2, 3, 1]);
    assert_eq!(
        ops,
        vec![ChildOp::Detach { entity: 3 }, ChildOp::Insert { index: 1, entities: vec![3] }]
    );
    let ops = list.apply_diff(&mut blocks, b, ChildDiff::Move { old_index: 0, new_index: 1 }, false);
    assert!(ops.is_empty());
    assert_eq!(list.entities(), &vec![3, 2, 1]);
}

#[test]
fn parent_follows_moves() {
    let mut blocks = ChildBlocks::new();
    let mut parent: Vec<u64> = Vec::new();
    let (_, off) = blocks.children(1);
    apply(&mut parent, &spawn_static_children(off, vec![100], true));
    let b = blocks.children_signal_vec();
    let (_, off2) = blocks.child();
    apply(&mut parent, &spawn_static_children(off2, vec![300], true));
    let mut list = ReactiveChildren::new();
    apply(&mut parent, &list.apply_diff(&mut blocks, b, ChildDiff::Replace { entities: vec![10, 11, 12] }, true));
    assert_eq!(parent, vec![100, 10, 11, 12, 300]);
    for (o, n) in [(0, 2), (2, 0), (1, 2), (2, 1), (1, 1), (0, 1)] {
        apply(&mut parent, &list.apply_diff(&mut blocks, b, ChildDiff::Move { old_index: o, new_index: n }, true));
        let mut expected = vec![100];
        expected.extend(list.entities().iter().copied());
        expected.push(300);
        assert_eq!(parent, expected);
    }
    let mut mirror = vec![10u64, 11, 12];
    for (o, n) in [(0, 2), (2, 0), (1, 2), (2, 1), (1, 1), (0, 1)] {
        let v = mirror.remove(o);
        mirror.insert(n, v);
    }
    assert_eq!(list.entities(), &mirror);
}

#[test]
fn reactive_list_with_dead_parent_despawns_new_children() {
    let mut blocks = ChildBlocks::new();
    let b = blocks.children_signal_vec();
    let mut list = ReactiveChildren::new();
    let ops = list.apply_diff(&mut blocks, b, ChildDiff::Push { entity: 5 }, false);
    assert_eq!(ops, vec![ChildOp::Despawn { entity: 5 }]);
    assert!(list.entities().is_empty());
    assert_eq!(blocks.population(b), 0);
    let ops = list.apply_diff(&mut blocks, b, ChildDiff::Replace { entities: vec![6, 7] }, false);
    assert_eq!(ops, vec![ChildOp::Despawn { entity: 6 }, ChildOp::Despawn { entity: 7 }]);
    assert!(list.entities().is_empty());
    let ops = list.apply_diff(&mut blocks, b, ChildDiff::InsertAt { index: 9, entity: 8 }, false);
    assert_eq!(ops, vec![ChildOp::Despawn { entity: 8 }]);
}

#[test]
fn parent_stays_in_step_with_blocks() {
    let mut blocks = ChildBlocks::new();
    let mut parent: Vec<u64> = Vec::new();
    let (_, off) = blocks.children(2);
    apply(&mut parent, &spawn_static_children(off, vec![100, 101], true));
    let lb = blocks.children_signal_vec();
    let ob = blocks.child_signal();
    let (_, off2) = blocks.child();
    apply(&mut parent, &spawn_static_children(off2, vec![300], true));
    assert_eq!(parent, vec![100, 101, 300]);

    let mut list = ReactiveChildren::new();
    let mut opt = ReactiveChild::new();

    let diffs = vec![
        ChildDiff::Push { entity: 1 },
        ChildDiff::Push { entity: 2 },
        ChildDiff::InsertAt { index: 1, entity: 3 },
        ChildDiff::UpdateAt { index: 0, entity: 4 },
        ChildDiff::RemoveAt { index: 1 },
        ChildDiff::Replace { entities: vec![5, 6, 7] },
        ChildDiff::Pop,
    ];
    for d in diffs {
        let ops = list.apply_diff(&mut blocks, lb, d, true);
        apply(&mut parent, &ops);
        let mut expected = vec![100, 101];
        expected.extend(list.entities().iter().copied());
        expected.extend(opt.existing());
        expected.push(300);
        assert_eq!(parent, expected);
    }

    for c in [Some(200), Some(201), None, Some(202)] {
        let ops = opt.apply_signal(&mut blocks, ob, c, true);
        apply(&mut parent, &ops);
        let mut expected = vec![100, 101];
        expected.extend(list.entities().iter().copied());
        expected.extend(opt.existing());
        expected.push(300);
        assert_eq!(parent, expected);
    }

    let ops = list.apply_diff(&mut blocks, lb, ChildDiff::Clear, true);
    apply(&mut parent, &ops);
    assert_eq!(parent, vec![100, 101, 202, 300]);
}

#[test]
fn reactive_child_replaces_and_removes() {
    let mut blocks = ChildBlocks::new();
    blocks.child();
    let b = blocks.child_signal();
    let mut c = ReactiveChild::new();
    assert_eq!(c.existing(), None);

    let ops = c.apply_signal(&mut blocks, b, Some(10), true);
    assert_eq!(ops, vec![ChildOp::Insert { index: 1, entities: vec![10] }]);
    assert_eq!(c.existing(), Some(10));
    assert_eq!(blocks.population(b), 1);

    let ops = c.apply_signal(&mut blocks, b, Some(11), true);
    assert_eq!(
        ops,
        vec![ChildOp::Despawn { entity: 10 }, ChildOp::Insert { index: 1, entities: vec![11] }]
    );
    assert_eq!(c.existing(), Some(11));

    let ops = c.apply_signal(&mut blocks, b, None, true);
    assert_eq!(ops, vec![ChildOp::Despawn { entity: 11 }]);
    assert_eq!(c.existing(), None);
    assert_eq!(blocks.population(b), 0);

    let ops = c.apply_signal(&mut blocks, b, Some(12), false);
    assert_eq!(ops, vec![ChildOp::Despawn { entity: 12 }]);
    assert_eq!(c.existing(), None);
    assert_eq!(blocks.population(b), 1);
}

#[test]
fn blocks_are_placed_in_declaration_order() {
    let mut blocks = ChildBlocks::new();
    let (first, _) = blocks.children(0);
    let list_block = blocks.children_signal_vec();
    let opt_block = blocks.child_signal();
    let (last, _) = blocks.child();
    assert!(blocks.block_ready(first));
    assert!(!blocks.block_ready(list_block));
    let ops = blocks.place_static(first, vec![1, 2], true);
    assert_eq!(ops, vec![ChildOp::Insert { index: 0, entities: vec![1, 2] }]);
    assert_eq!(blocks.population(first), 2);
    assert!(blocks.block_ready(list_block));
    assert!(!blocks.block_ready(opt_block));
    let mut list = ReactiveChildren::new();
    list.apply_diff(&mut blocks, list_block, ChildDiff::Push { entity: 5 }, true);
    assert!(blocks.block_ready(opt_block));
    assert!(!blocks.block_ready(last));
    let mut opt = ReactiveChild::new();
    opt.apply_signal(&mut blocks, opt_block, None, true);
    assert!(blocks.block_ready(last));
    let ops = blocks.place_static(last, vec![9], false);
    assert_eq!(ops, vec![ChildOp::Despawn { entity: 9 }]);
    assert_eq!(blocks.population(last), 1);
    let mut other = ChildBlocks::new();
    other.child();
    other.child();
    other.mark_inserted(0);
    assert!(other.block_ready(1));
}
