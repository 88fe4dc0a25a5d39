//! Child blocks: how the children a node declares (static children, reactive optional children,
//! and reactive lists of children) map onto the single ordered child list of the parent entity.
//!
//! Each declaration reserves a *block*; the registry records how many children each block
//! currently holds, and the position of a block's first child in the parent's list is the sum of
//! the populations of the blocks declared before it. Reactive blocks keep their own entity list
//! and turn every change into operations on the parent's child list.
use vstd::prelude::*;

verus! {

/// Sum of the first `i` populations.
pub open spec fn prefix_sum(s: Seq<usize>, i: int) -> int
    decreases i,
{
    if i <= 0 {
        0
    } else {
        prefix_sum(s, i - 1) + s[i - 1]
    }
}

/// Sum of all populations.
pub open spec fn total(s: Seq<usize>) -> int {
    prefix_sum(s, s.len() as int)
}

/// Prefix sums grow with their length.
pub proof fn lemma_prefix_sum_monotone(s: Seq<usize>, i: int, j: int)
    requires
        0 <= i <= j <= s.len(),
    ensures
        0 <= prefix_sum(s, i) <= prefix_sum(s, j),
    decreases j - i,
{
    if i < j {
        lemma_prefix_sum_monotone(s, i, j - 1);
        lemma_prefix_sum_nonneg(s, j - 1);
    } else {
        lemma_prefix_sum_nonneg(s, i);
    }
}

/// Prefix sums are never negative.
pub proof fn lemma_prefix_sum_nonneg(s: Seq<usize>, i: int)
    requires
        0 <= i <= s.len(),
    ensures
        prefix_sum(s, i) >= 0,
    decreases i,
{
    if i > 0 {
        lemma_prefix_sum_nonneg(s, i - 1);
    }
}

/// Changing one population leaves the prefix sums before it unchanged and shifts the later ones
/// by the difference.
pub proof fn lemma_prefix_sum_update(s: Seq<usize>, b: int, v: usize, i: int)
    requires
        0 <= b < s.len(),
        0 <= i <= s.len(),
    ensures
        i <= b ==> prefix_sum(s.update(b, v), i) == prefix_sum(s, i),
        i > b ==> prefix_sum(s.update(b, v), i) == prefix_sum(s, i) - s[b] + v,
    decreases i,
{
    if i > 0 {
        lemma_prefix_sum_update(s, b, v, i - 1);
    }
}

/// Appending a population leaves the earlier prefix sums unchanged.
pub proof fn lemma_prefix_sum_push(s: Seq<usize>, v: usize, i: int)
    requires
        0 <= i <= s.len(),
    ensures
        prefix_sum(s.push(v), i) == prefix_sum(s, i),
    decreases i,
{
    if i > 0 {
        lemma_prefix_sum_push(s, v, i - 1);
    }
}

/// The populations of the child blocks a node has declared, in declaration order, and for each
/// block whether its children have been placed in the parent yet.
pub struct ChildBlocks {
    populations: Vec<usize>,
    inserted: Vec<bool>,
}

impl View for ChildBlocks {
    type V = Seq<usize>;

    closed spec fn view(&self) -> Seq<usize> {
        self.populations@
    }
}

impl ChildBlocks {
    /// For each block, whether its children have been placed in the parent yet.
    pub closed spec fn spec_inserted(&self) -> Seq<bool> {
        self.inserted@
    }

    /// The total number of children fits in a machine word, and every block has its placed flag.
    pub open spec fn wf(&self) -> bool {
        &&& total(self@) <= usize::MAX
        &&& self.spec_inserted().len() == self@.len()
    }

    /// A node with no declared children.
    pub fn new() -> (r: Self)
        ensures
            r@ == Seq::<usize>::empty(),
            r.spec_inserted() == Seq::<bool>::empty(),
            r.wf(),
    {
        ChildBlocks { populations: Vec::new(), inserted: Vec::new() }
    }

    /// Record that a block's children have been placed in the parent.
    pub fn mark_inserted(&mut self, block: usize)
        requires
            old(self).wf(),
            block < old(self)@.len(),
        ensures
            final(self)@ == old(self)@,
            final(self).spec_inserted() == old(self).spec_inserted().update(block as int, true),
            final(self).wf(),
    {
        self.inserted.set(block, true);
    }

    /// Whether a block's children may be placed: the first block may always be; any other block
    /// waits until the block before it has been placed, so that blocks land in declaration order.
    pub fn block_ready(&self, block: usize) -> (r: bool)
        requires
            self.wf(),
            block < self@.len(),
        ensures
            r == (block == 0 || self.spec_inserted()[block - 1]),
    {
        block == 0 || self.inserted[block - 1]
    }

    /// Number of declared blocks.
    pub fn len(&self) -> (r: usize)
        ensures
            r == self@.len(),
    {
        self.populations.len()
    }

    /// Current population of a block.
    pub fn population(&self, block: usize) -> (r: usize)
        requires
            block < self@.len(),
        ensures
            r == self@[block as int],
    {
        self.populations[block]
    }

    /// Position in the parent's child list of the first child of `block`: the sum of the
    /// populations of the blocks declared before it.
    pub fn offset(&self, block: usize) -> (r: usize)
        requires
            self.wf(),
            block <= self@.len(),
        ensures
            r == prefix_sum(self@, block as int),
    {
        let mut acc: usize = 0;
        let mut j: usize = 0;
        while j < block
            invariant
                self.wf(),
                block <= self@.len(),
                0 <= j <= block,
                acc == prefix_sum(self@, j as int),
            decreases block - j,
        {
            proof {
                lemma_prefix_sum_monotone(self@, (j + 1) as int, self@.len() as int);
            }
            acc = acc + self.populations[j];
            j = j + 1;
        }
        acc
    }

    /// Declare a new block with the given initial population. Returns the block's index and its
    /// offset at the time of declaration.
    pub fn push_block(&mut self, population: usize) -> (r: (usize, usize))
        requires
            old(self).wf(),
            total(old(self)@) + population <= usize::MAX,
        ensures
            final(self)@ == old(self)@.push(population),
            final(self).spec_inserted() == old(self).spec_inserted().push(false),
            final(self).wf(),
            r.0 == old(self)@.len(),
            r.1 == total(old(self)@),
    {
        let block = self.populations.len();
        let offset = self.offset(block);
        self.populations.push(population);
        self.inserted.push(false);
        proof {
            lemma_prefix_sum_push(old(self)@, population, old(self)@.len() as int);
        }
        (block, offset)
    }

    /// Record a block's new population.
    pub fn set_population(&mut self, block: usize, population: usize)
        requires
            old(self).wf(),
            block < old(self)@.len(),
            total(old(self)@) - old(self)@[block as int] + population <= usize::MAX,
        ensures
            final(self)@ == old(self)@.update(block as int, population),
            final(self).spec_inserted() == old(self).spec_inserted(),
            final(self).wf(),
    {
        self.populations.set(block, population);
        proof {
            lemma_prefix_sum_update(old(self)@, block as int, population, old(self)@.len() as int);
        }
    }

    /// Declare a static child: a block of one. Returns the block and the position at which the
    /// child is inserted when the node spawns.
    pub fn child(&mut self) -> (r: (usize, usize))
        requires
            old(self).wf(),
            total(old(self)@) + 1 <= usize::MAX,
        ensures
            final(self)@ == old(self)@.push(1),
            final(self).spec_inserted() == old(self).spec_inserted().push(false),
            final(self).wf(),
            r.0 == old(self)@.len(),
            r.1 == total(old(self)@),
    {
        self.push_block(1)
    }

    /// Declare static children: a block of `population`. Returns the block and the position at
    /// which the children are inserted when the node spawns.
    pub fn children(&mut self, population: usize) -> (r: (usize, usize))
        requires
            old(self).wf(),
            total(old(self)@) + population <= usize::MAX,
        ensures
            final(self)@ == old(self)@.push(population),
            final(self).spec_inserted() == old(self).spec_inserted().push(false),
            final(self).wf(),
            r.0 == old(self)@.len(),
            r.1 == total(old(self)@),
    {
        self.push_block(population)
    }

    /// Declare a reactive optional child: an initially empty block. Returns the block.
    pub fn child_signal(&mut self) -> (r: usize)
        requires
            old(self).wf(),
        ensures
            final(self)@ == old(self)@.push(0),
            final(self).spec_inserted() == old(self).spec_inserted().push(false),
            final(self).wf(),
            r == old(self)@.len(),
    {
        self.push_block(0).0
    }

    /// Declare a reactive list of children: an initially empty block. Returns the block.
    pub fn children_signal_vec(&mut self) -> (r: usize)
        requires
            old(self).wf(),
        ensures
            final(self)@ == old(self)@.push(0),
            final(self).spec_inserted() == old(self).spec_inserted().push(false),
            final(self).wf(),
            r == old(self)@.len(),
    {
        self.push_block(0).0
    }
}

impl ChildBlocks {
    /// Place a block of static children, spawned on `entities` (one per present child), when
    /// the node spawns: they are inserted at the block's offset, or despawned if the parent is
    /// gone; the block's population becomes their number and the block is marked placed.
    pub fn place_static(&mut self, block: usize, entities: Vec<u64>, parent_alive: bool) -> (ops: Vec<ChildOp>)
        requires
            old(self).wf(),
            block < old(self)@.len(),
            total(old(self)@) - old(self)@[block as int] + entities@.len() <= usize::MAX,
        ensures
            final(self)@ == old(self)@.update(block as int, entities@.len() as usize),
            final(self).spec_inserted() == old(self).spec_inserted().update(block as int, true),
            final(self).wf(),
            ops_view(ops@) == spec_spawn_ops(prefix_sum(old(self)@, block as int), entities@, parent_alive),
    {
        let off = self.offset(block);
        let n = entities.len();
        let ops = spawn_static_children(off, entities, parent_alive);
        self.set_population(block, n);
        self.mark_inserted(block);
        ops
    }
}

/// The offset of a block: the sum of the populations of the blocks before it.
pub fn offset(block: usize, populations: &Vec<usize>) -> (r: usize)
    requires
        block <= populations@.len(),
        total(populations@) <= usize::MAX,
    ensures
        r == prefix_sum(populations@, block as int),
{
    let mut acc: usize = 0;
    let mut j: usize = 0;
    while j < block
        invariant
            block <= populations@.len(),
            total(populations@) <= usize::MAX,
            0 <= j <= block,
            acc == prefix_sum(populations@, j as int),
        decreases block - j,
    {
        proof {
            lemma_prefix_sum_monotone(populations@, (j + 1) as int, populations@.len() as int);
        }
        acc = acc + populations[j];
        j = j + 1;
    }
    acc
}

/// An operation on the parent's ordered child list, to be carried out on the world.
#[derive(Clone, PartialEq, Eq, Debug)]
pub enum ChildOp {
    /// Despawn the entity (and its descendants); this removes it from its parent's children.
    Despawn { entity: u64 },
    /// Remove the entity from the parent's children without despawning it.
    Detach { entity: u64 },
    /// Insert the entities, in order, into the parent's children starting at `index`.
    Insert { index: usize, entities: Vec<u64> },
}

/// Mathematical form of a [`ChildOp`].
pub enum ChildOpView {
    /// See [`ChildOp::Despawn`].
    Despawn(u64),
    /// See [`ChildOp::Detach`].
    Detach(u64),
    /// See [`ChildOp::Insert`].
    Insert(int, Seq<u64>),
}

impl View for ChildOp {
    type V = ChildOpView;

    open spec fn view(&self) -> ChildOpView {
        match self {
            ChildOp::Despawn { entity } => ChildOpView::Despawn(*entity),
            ChildOp::Detach { entity } => ChildOpView::Detach(*entity),
            ChildOp::Insert { index, entities } => ChildOpView::Insert(*index as int, entities@),
        }
    }
}

/// The mathematical form of a list of operations.
pub open spec fn ops_view(ops: Seq<ChildOp>) -> Seq<ChildOpView> {
    ops.map_values(|o: ChildOp| o@)
}

/// What an operation does to the parent's ordered child list: despawning or detaching an entity
/// removes it from the list; inserting places the entities, in order, at the index.
pub open spec fn apply_op(children: Seq<u64>, op: ChildOpView) -> Seq<u64> {
    match op {
        ChildOpView::Despawn(e) => children.remove_value(e),
        ChildOpView::Detach(e) => children.remove_value(e),
        ChildOpView::Insert(i, es) => children.take(i) + es + children.skip(i),
    }
}

/// What a list of operations, carried out in order, does to the parent's child list.
pub open spec fn apply_ops(children: Seq<u64>, ops: Seq<ChildOpView>) -> Seq<u64>
    decreases ops.len(),
{
    if ops.len() == 0 {
        children
    } else {
        apply_ops(apply_op(children, ops[0]), ops.drop_first())
    }
}

/// A change to a reactive list of children, with the entities freshly spawned for new children.
/// It speaks of present children only: a list of optional children reaches the handler with its
/// absent entries filtered out, the indices counting present children.
#[derive(Clone, PartialEq, Eq, Debug)]
pub enum ChildDiff {
    /// The whole list is replaced by children spawned on these entities.
    Replace { entities: Vec<u64> },
    /// A child spawned on `entity` is inserted at `index`.
    InsertAt { index: usize, entity: u64 },
    /// The child at `index` is replaced by a child spawned on `entity`.
    UpdateAt { index: usize, entity: u64 },
    /// A child spawned on `entity` is appended.
    Push { entity: u64 },
    /// The child at `old_index` is taken out and put back at `new_index`, counted in the list
    /// without it.
    Move { old_index: usize, new_index: usize },
    /// The child at `index` is removed.
    RemoveAt { index: usize },
    /// The last child is removed.
    Pop,
    /// All children are removed.
    Clear,
}

/// Mathematical form of a [`ChildDiff`].
pub enum ChildDiffView {
    /// See [`ChildDiff::Replace`].
    Replace(Seq<u64>),
    /// See [`ChildDiff::InsertAt`].
    InsertAt(int, u64),
    /// See [`ChildDiff::UpdateAt`].
    UpdateAt(int, u64),
    /// See [`ChildDiff::Push`].
    Push(u64),
    /// See [`ChildDiff::Move`].
    Move(int, int),
    /// See [`ChildDiff::RemoveAt`].
    RemoveAt(int),
    /// See [`ChildDiff::Pop`].
    Pop,
    /// See [`ChildDiff::Clear`].
    Clear,
}

impl View for ChildDiff {
    type V = ChildDiffView;

    open spec fn view(&self) -> ChildDiffView {
        match self {
            ChildDiff::Replace { entities } => ChildDiffView::Replace(entities@),
            ChildDiff::InsertAt { index, entity } => ChildDiffView::InsertAt(*index as int, *entity),
            ChildDiff::UpdateAt { index, entity } => ChildDiffView::UpdateAt(*index as int, *entity),
            ChildDiff::Push { entity } => ChildDiffView::Push(*entity),
            ChildDiff::Move { old_index, new_index } => ChildDiffView::Move(
                *old_index as int,
                *new_index as int,
            ),
            ChildDiff::RemoveAt { index } => ChildDiffView::RemoveAt(*index as int),
            ChildDiff::Pop => ChildDiffView::Pop,
            ChildDiff::Clear => ChildDiffView::Clear,
        }
    }
}

/// The list with the element at `from` taken out and put back at `to` (counted in the list
/// without it).
pub open spec fn move_spec(s: Seq<u64>, from: int, to: int) -> Seq<u64> {
    s.remove(from).insert(to, s[from])
}

/// One despawn per entity, in order.
pub open spec fn despawn_all(es: Seq<u64>) -> Seq<ChildOpView> {
    es.map_values(|e: u64| ChildOpView::Despawn(e))
}

/// The block's entity list after a diff.
pub open spec fn spec_list_after(list: Seq<u64>, diff: ChildDiffView, parent_alive: bool) -> Seq<u64> {
    match diff {
        ChildDiffView::Replace(es) => if parent_alive {
            es
        } else {
            Seq::empty()
        },
        ChildDiffView::InsertAt(i, e) => if parent_alive {
            list.insert(i, e)
        } else {
            list
        },
        ChildDiffView::UpdateAt(i, e) => if parent_alive {
            list.update(i, e)
        } else {
            list
        },
        ChildDiffView::Push(e) => if parent_alive {
            list.push(e)
        } else {
            list
        },
        ChildDiffView::Move(o, n) => move_spec(list, o, n),
        ChildDiffView::RemoveAt(i) => if 0 <= i < list.len() {
            list.remove(i)
        } else {
            list
        },
        ChildDiffView::Pop => if list.len() > 0 {
            list.drop_last()
        } else {
            list
        },
        ChildDiffView::Clear => Seq::empty(),
    }
}

/// Whether a diff records the block's new population.
pub open spec fn spec_updates_population(list: Seq<u64>, diff: ChildDiffView, parent_alive: bool) -> bool {
    match diff {
        ChildDiffView::Replace(_) => parent_alive,
        ChildDiffView::InsertAt(_, _) => parent_alive,
        ChildDiffView::Push(_) => parent_alive,
        ChildDiffView::UpdateAt(_, _) => false,
        ChildDiffView::Move(_, _) => false,
        ChildDiffView::RemoveAt(i) => 0 <= i < list.len(),
        ChildDiffView::Pop => list.len() > 0,
        ChildDiffView::Clear => true,
    }
}

/// The block populations after a diff on `block`.
pub open spec fn spec_populations_after(
    populations: Seq<usize>,
    block: int,
    list: Seq<u64>,
    diff: ChildDiffView,
    parent_alive: bool,
) -> Seq<usize> {
    if spec_updates_population(list, diff, parent_alive) {
        populations.update(block, spec_list_after(list, diff, parent_alive).len() as usize)
    } else {
        populations
    }
}

/// The operations on the parent's child list that a diff on a block at `offset` produces.
pub open spec fn spec_diff_ops(
    offset: int,
    list: Seq<u64>,
    diff: ChildDiffView,
    parent_alive: bool,
) -> Seq<ChildOpView> {
    match diff {
        ChildDiffView::Replace(es) => despawn_all(list) + if parent_alive {
            seq![ChildOpView::Insert(offset, es)]
        } else {
            despawn_all(es)
        },
        ChildDiffView::InsertAt(i, e) => if parent_alive {
            seq![ChildOpView::Insert(offset + i, seq![e])]
        } else {
            seq![ChildOpView::Despawn(e)]
        },
        ChildDiffView::UpdateAt(i, e) => (if 0 <= i < list.len() {
            seq![ChildOpView::Despawn(list[i])]
        } else {
            Seq::empty()
        }) + if parent_alive {
            seq![ChildOpView::Insert(offset + i, seq![e])]
        } else {
            seq![ChildOpView::Despawn(e)]
        },
        ChildDiffView::Push(e) => if parent_alive {
            seq![ChildOpView::Insert(offset + list.len(), seq![e])]
        } else {
            seq![ChildOpView::Despawn(e)]
        },
        ChildDiffView::Move(o, n) => if parent_alive {
            seq![ChildOpView::Detach(list[o]), ChildOpView::Insert(offset + n, seq![list[o]])]
        } else {
            Seq::empty()
        },
        ChildDiffView::RemoveAt(i) => if 0 <= i < list.len() {
            seq![ChildOpView::Despawn(list[i])]
        } else {
            Seq::empty()
        },
        ChildDiffView::Pop => if list.len() > 0 {
            seq![ChildOpView::Despawn(list.last())]
        } else {
            Seq::empty()
        },
        ChildDiffView::Clear => despawn_all(list),
    }
}

/// The inputs on which handling a diff would index out of bounds: inserting past the end,
/// updating a missing child while the parent is alive, or moving from or to a missing child.
pub open spec fn spec_diff_in_bounds(list: Seq<u64>, diff: ChildDiffView, parent_alive: bool) -> bool {
    match diff {
        ChildDiffView::InsertAt(i, _) => parent_alive ==> 0 <= i <= list.len(),
        ChildDiffView::UpdateAt(i, _) => parent_alive ==> 0 <= i < list.len(),
        ChildDiffView::Move(o, n) => 0 <= o < list.len() && 0 <= n < list.len(),
        _ => true,
    }
}

/// The arithmetic of handling a diff fits in a machine word: parent positions up to one past
/// the block's end, and the new total number of children.
pub open spec fn spec_diff_fits(
    populations: Seq<usize>,
    block: int,
    list: Seq<u64>,
    diff: ChildDiffView,
    parent_alive: bool,
) -> bool {
    &&& prefix_sum(populations, block) + list.len() + 1 <= usize::MAX
    &&& total(populations) - populations[block] + spec_list_after(list, diff, parent_alive).len()
        <= usize::MAX
}

/// The entity list of a reactive list of children.
pub struct ReactiveChildren {
    entities: Vec<u64>,
}

impl View for ReactiveChildren {
    type V = Seq<u64>;

    closed spec fn view(&self) -> Seq<u64> {
        self.entities@
    }
}

impl ReactiveChildren {
    /// An empty reactive list.
    pub fn new() -> (r: Self)
        ensures
            r@ == Seq::<u64>::empty(),
    {
        ReactiveChildren { entities: Vec::new() }
    }

    /// The entities of the list's children, in order.
    pub fn entities(&self) -> (r: &Vec<u64>)
        ensures
            r@ == self@,
    {
        &self.entities
    }

    /// Handle one change of the reactive list on `block`: update the block's entity list and
    /// population, and return the operations to carry out on the parent's child list.
    /// `parent_alive` tells whether the parent entity still exists; when it does not, children
    /// spawned for the change are despawned instead of inserted.
    pub fn apply_diff(
        &mut self,
        blocks: &mut ChildBlocks,
        block: usize,
        diff: ChildDiff,
        parent_alive: bool,
    ) -> (ops: Vec<ChildOp>)
        requires
            old(blocks).wf(),
            block < old(blocks)@.len(),
            spec_diff_in_bounds(old(self)@, diff@, parent_alive),
            spec_diff_fits(old(blocks)@, block as int, old(self)@, diff@, parent_alive),
        ensures
            final(self)@ == spec_list_after(old(self)@, diff@, parent_alive),
            final(blocks)@ == spec_populations_after(
                old(blocks)@,
                block as int,
                old(self)@,
                diff@,
                parent_alive,
            ),
            final(blocks).spec_inserted() == old(blocks).spec_inserted().update(block as int, true),
            final(blocks).wf(),
            ops_view(ops@) == spec_diff_ops(
                prefix_sum(old(blocks)@, block as int),
                old(self)@,
                diff@,
                parent_alive,
            ),
    {
        let ghost old_list = self@;
        let ghost old_pops = blocks@;
        let off = blocks.offset(block);
        proof {
            lemma_prefix_sum_monotone(blocks@, block as int, (block + 1) as int);
            lemma_prefix_sum_monotone(blocks@, (block + 1) as int, blocks@.len() as int);
        }
        let mut ops: Vec<ChildOp> = Vec::new();
        match diff {
            ChildDiff::Replace { entities } => {
                despawn_each(&mut ops, &self.entities);
                self.entities = Vec::new();
                if parent_alive {
                    let n = entities.len();
                    ops.push(ChildOp::Insert { index: off, entities: entities.clone() });
                    self.entities = entities;
                    blocks.set_population(block, n);
                } else {
                    despawn_each(&mut ops, &entities);
                }
                proof {
                    assert(ops_view(ops@) =~= spec_diff_ops(off as int, old_list, diff@, parent_alive));
                }
            },
            ChildDiff::InsertAt { index, entity } => {
                if parent_alive {
                    let mut es: Vec<u64> = Vec::new();
                    es.push(entity);
                    ops.push(ChildOp::Insert { index: off + index, entities: es });
                    self.entities.insert(index, entity);
                    let n = self.entities.len();
                    blocks.set_population(block, n);
                } else {
                    ops.push(ChildOp::Despawn { entity });
                }
                proof {
                    assert(ops_view(ops@) =~= spec_diff_ops(off as int, old_list, diff@, parent_alive));
                    assert(self@ =~= spec_list_after(old_list, diff@, parent_alive));
                }
            },
            ChildDiff::Push { entity } => {
                if parent_alive {
                    let mut es: Vec<u64> = Vec::new();
                    es.push(entity);
                    let len = self.entities.len();
                    ops.push(ChildOp::Insert { index: off + len, entities: es });
                    self.entities.push(entity);
                    let n = self.entities.len();
                    blocks.set_population(block, n);
                } else {
                    ops.push(ChildOp::Despawn { entity });
                }
                proof {
                    assert(ops_view(ops@) =~= spec_diff_ops(off as int, old_list, diff@, parent_alive));
                }
            },
            ChildDiff::UpdateAt { index, entity } => {
                if index < self.entities.len() {
                    let existing = self.entities[index];
                    ops.push(ChildOp::Despawn { entity: existing });
                }
                if parent_alive {
                    self.entities.set(index, entity);
                    let mut es: Vec<u64> = Vec::new();
                    es.push(entity);
                    ops.push(ChildOp::Insert { index: off + index, entities: es });
                } else {
                    ops.push(ChildOp::Despawn { entity });
                }
                proof {
                    assert(ops_view(ops@) =~= spec_diff_ops(off as int, old_list, diff@, parent_alive));
                }
            },
            ChildDiff::Move { old_index, new_index } => {
                let e = self.entities.remove(old_index);
                self.entities.insert(new_index, e);
                if parent_alive {
                    ops.push(ChildOp::Detach { entity: e });
                    let mut es: Vec<u64> = Vec::new();
                    es.push(e);
                    ops.push(ChildOp::Insert { index: off + new_index, entities: es });
                }
                proof {
                    assert(self@ =~= move_spec(old_list, old_index as int, new_index as int));
                    assert(ops_view(ops@) =~= spec_diff_ops(off as int, old_list, diff@, parent_alive));
                }
            },
            ChildDiff::RemoveAt { index } => {
                if index < self.entities.len() {
                    let existing = self.entities[index];
                    ops.push(ChildOp::Despawn { entity: existing });
                    self.entities.remove(index);
                    let n = self.entities.len();
                    blocks.set_population(block, n);
                }
                proof {
                    assert(ops_view(ops@) =~= spec_diff_ops(off as int, old_list, diff@, parent_alive));
                }
            },
            ChildDiff::Pop => {
                if let Some(existing) = self.entities.pop() {
                    ops.push(ChildOp::Despawn { entity: existing });
                    let n = self.entities.len();
                    blocks.set_population(block, n);
                }
                proof {
                    assert(ops_view(ops@) =~= spec_diff_ops(off as int, old_list, diff@, parent_alive));
                    assert(self@ =~= spec_list_after(old_list, diff@, parent_alive));
                }
            },
            ChildDiff::Clear => {
                despawn_each(&mut ops, &self.entities);
                self.entities = Vec::new();
                blocks.set_population(block, 0);
                proof {
                    assert(ops_view(ops@) =~= spec_diff_ops(off as int, old_list, diff@, parent_alive));
                }
            },
        }
        blocks.mark_inserted(block);
        ops
    }
}

/// Append one despawn per entity, in order.
fn despawn_each(ops: &mut Vec<ChildOp>, entities: &Vec<u64>)
    ensures
        ops_view(final(ops)@) == ops_view(old(ops)@) + despawn_all(entities@),
{
    let ghost start = ops@;
    let mut i: usize = 0;
    while i < entities.len()
        invariant
            0 <= i <= entities@.len(),
            ops_view(ops@) == ops_view(start) + despawn_all(entities@.take(i as int)),
        decreases entities@.len() - i,
    {
        let ghost before = ops@;
        ops.push(ChildOp::Despawn { entity: entities[i] });
        proof {
            assert(ops_view(ops@) =~= ops_view(before).push(ChildOpView::Despawn(entities@[i as int])));
            assert(despawn_all(entities@.take((i + 1) as int)) =~= despawn_all(
                entities@.take(i as int),
            ).push(ChildOpView::Despawn(entities@[i as int])));
            assert(ops_view(ops@) =~= ops_view(start) + despawn_all(entities@.take((i + 1) as int)));
        }
        i = i + 1;
    }
    proof {
        assert(entities@.take(entities@.len() as int) =~= entities@);
    }
}

/// The children of all blocks, concatenated in block order.
pub open spec fn concat_blocks(blocks: Seq<Seq<u64>>) -> Seq<u64>
    decreases blocks.len(),
{
    if blocks.len() == 0 {
        Seq::empty()
    } else {
        concat_blocks(blocks.drop_last()) + blocks.last()
    }
}

/// The parent's ordered child list is in step with its declared blocks: every block's population
/// is the number of its children, the parent's children are the blocks' children in block order,
/// and no entity occurs twice.
pub open spec fn parent_in_step(parent: Seq<u64>, blocks: Seq<Seq<u64>>, populations: Seq<usize>) -> bool {
    &&& populations.len() == blocks.len()
    &&& forall|c: int| 0 <= c < blocks.len() ==> #[trigger] populations[c] as int == blocks[c].len()
    &&& parent == concat_blocks(blocks)
    &&& parent.no_duplicates()
}

/// The entities a diff spawns are new: not children of the parent, and (for a replacement)
/// pairwise distinct.
pub open spec fn spec_diff_fresh(parent: Seq<u64>, diff: ChildDiffView) -> bool {
    match diff {
        ChildDiffView::Replace(es) => es.no_duplicates() && forall|x: u64| #[trigger]
            es.contains(x) ==> !parent.contains(x),
        ChildDiffView::InsertAt(_, e) => !parent.contains(e),
        ChildDiffView::UpdateAt(_, e) => !parent.contains(e),
        ChildDiffView::Push(e) => !parent.contains(e),
        _ => true,
    }
}

proof fn lemma_concat_split(blocks: Seq<Seq<u64>>, k: int)
    requires
        0 <= k <= blocks.len(),
    ensures
        concat_blocks(blocks) == concat_blocks(blocks.take(k)) + concat_blocks(blocks.skip(k)),
    decreases blocks.len(),
{
    if k == blocks.len() {
        assert(blocks.take(k) =~= blocks);
        assert(blocks.skip(k) =~= Seq::<Seq<u64>>::empty());
        assert(concat_blocks(blocks) + Seq::<u64>::empty() =~= concat_blocks(blocks));
    } else {
        let dl = blocks.drop_last();
        lemma_concat_split(dl, k);
        assert(dl.take(k) =~= blocks.take(k));
        assert(blocks.skip(k).drop_last() =~= dl.skip(k));
        assert(blocks.skip(k).last() == blocks.last());
        assert(concat_blocks(blocks) =~= concat_blocks(blocks.take(k)) + concat_blocks(blocks.skip(k)));
    }
}

proof fn lemma_concat_take_succ(blocks: Seq<Seq<u64>>, k: int)
    requires
        0 <= k < blocks.len(),
    ensures
        concat_blocks(blocks.take(k + 1)) == concat_blocks(blocks.take(k)) + blocks[k],
{
    assert(blocks.take(k + 1).drop_last() =~= blocks.take(k));
}

proof fn lemma_concat_around(blocks: Seq<Seq<u64>>, b: int)
    requires
        0 <= b < blocks.len(),
    ensures
        concat_blocks(blocks) == concat_blocks(blocks.take(b)) + blocks[b] + concat_blocks(
            blocks.skip(b + 1),
        ),
{
    lemma_concat_split(blocks, b + 1);
    lemma_concat_take_succ(blocks, b);
}

proof fn lemma_concat_take_len(blocks: Seq<Seq<u64>>, populations: Seq<usize>, k: int)
    requires
        populations.len() == blocks.len(),
        forall|c: int| 0 <= c < blocks.len() ==> #[trigger] populations[c] as int == blocks[c].len(),
        0 <= k <= blocks.len(),
    ensures
        concat_blocks(blocks.take(k)).len() == prefix_sum(populations, k),
    decreases k,
{
    if k > 0 {
        lemma_concat_take_len(blocks, populations, k - 1);
        lemma_concat_take_succ(blocks, k - 1);
    }
}

proof fn lemma_remove_value_at(s: Seq<u64>, k: int)
    requires
        s.no_duplicates(),
        0 <= k < s.len(),
    ensures
        s.remove_value(s[k]) == s.remove(k),
{
    s.index_of_first_ensures(s[k]);
    let found = s.index_of_first(s[k]);
    assert(found == Some(k));
}

proof fn lemma_remove_no_dup(s: Seq<u64>, k: int)
    requires
        s.no_duplicates(),
        0 <= k < s.len(),
    ensures
        s.remove(k).no_duplicates(),
        forall|x: u64| #[trigger] s.remove(k).contains(x) ==> s.contains(x),
{
    let r = s.remove(k);
    assert forall|i: int, j: int| 0 <= i < r.len() && 0 <= j < r.len() && i != j implies r[i] != r[j] by {
        let si = if i < k { i } else { i + 1 };
        let sj = if j < k { j } else { j + 1 };
        assert(r[i] == s[si]);
        assert(r[j] == s[sj]);
    }
    assert forall|x: u64| #[trigger] r.contains(x) implies s.contains(x) by {
        let i = choose|i: int| 0 <= i < r.len() && r[i] == x;
        let si = if i < k { i } else { i + 1 };
        assert(s[si] == x);
    }
}

proof fn lemma_insert_seq_no_dup(s: Seq<u64>, k: int, es: Seq<u64>)
    requires
        s.no_duplicates(),
        es.no_duplicates(),
        forall|x: u64| #[trigger] es.contains(x) ==> !s.contains(x),
        0 <= k <= s.len(),
    ensures
        (s.take(k) + es + s.skip(k)).no_duplicates(),
{
    let r = s.take(k) + es + s.skip(k);
    let n = es.len();
    assert forall|i: int, j: int| 0 <= i < r.len() && 0 <= j < r.len() && i != j implies r[i] != r[j] by {
        if k <= i < k + n && k <= j < k + n {
            assert(r[i] == es[i - k]);
            assert(r[j] == es[j - k]);
        } else if k <= i < k + n {
            let sj = if j < k { j } else { j - n };
            assert(r[j] == s[sj]);
            assert(r[i] == es[i - k]);
            assert(es.contains(es[i - k]));
            assert(s.contains(s[sj]));
        } else if k <= j < k + n {
            let si = if i < k { i } else { i - n };
            assert(r[i] == s[si]);
            assert(r[j] == es[j - k]);
            assert(es.contains(es[j - k]));
            assert(s.contains(s[si]));
        } else {
            let si = if i < k { i } else { i - n };
            let sj = if j < k { j } else { j - n };
            assert(r[i] == s[si]);
            assert(r[j] == s[sj]);
        }
    }
}

proof fn lemma_apply_single(parent: Seq<u64>, ops: Seq<ChildOpView>)
    requires
        ops.len() == 1,
    ensures
        apply_ops(parent, ops) == apply_op(parent, ops[0]),
{
    let next = apply_op(parent, ops[0]);
    assert(ops.drop_first() =~= Seq::<ChildOpView>::empty());
    assert(apply_ops(next, ops.drop_first()) == next);
}

proof fn lemma_apply_ops_append(parent: Seq<u64>, a: Seq<ChildOpView>, b: Seq<ChildOpView>)
    ensures
        apply_ops(parent, a + b) == apply_ops(apply_ops(parent, a), b),
    decreases a.len(),
{
    if a.len() == 0 {
        assert(a + b =~= b);
    } else {
        assert((a + b)[0] == a[0]);
        assert((a + b).drop_first() =~= a.drop_first() + b);
        lemma_apply_ops_append(apply_op(parent, a[0]), a.drop_first(), b);
    }
}

proof fn lemma_despawn_block(pre: Seq<u64>, list: Seq<u64>, post: Seq<u64>)
    requires
        (pre + list + post).no_duplicates(),
    ensures
        apply_ops(pre + list + post, despawn_all(list)) == pre + post,
        (pre + post).no_duplicates(),
    decreases list.len(),
{
    if list.len() == 0 {
        assert(pre + list + post =~= pre + post);
        assert(despawn_all(list) =~= Seq::<ChildOpView>::empty());
    } else {
        let p = pre + list + post;
        let k = pre.len() as int;
        assert(p[k] == list[0]);
        lemma_remove_value_at(p, k);
        lemma_remove_no_dup(p, k);
        let rest = list.drop_first();
        assert(p.remove(k) =~= pre + rest + post);
        assert(despawn_all(list)[0] == ChildOpView::Despawn(list[0]));
        assert(despawn_all(list).drop_first() =~= despawn_all(rest));
        lemma_despawn_block(pre, rest, post);
    }
}

proof fn lemma_insert_into_block(pre: Seq<u64>, list: Seq<u64>, post: Seq<u64>, i: int, es: Seq<u64>)
    requires
        0 <= i <= list.len(),
    ensures
        apply_op(pre + list + post, ChildOpView::Insert(pre.len() + i, es)) == pre + (list.take(i) + es
            + list.skip(i)) + post,
{
    let p = pre + list + post;
    let k = pre.len() + i;
    assert(p.take(k) =~= pre + list.take(i));
    assert(p.skip(k) =~= list.skip(i) + post);
    assert(p.take(k) + es + p.skip(k) =~= pre + (list.take(i) + es + list.skip(i)) + post);
}

proof fn lemma_remove_from_block(pre: Seq<u64>, list: Seq<u64>, post: Seq<u64>, i: int)
    requires
        (pre + list + post).no_duplicates(),
        0 <= i < list.len(),
    ensures
        apply_op(pre + list + post, ChildOpView::Despawn(list[i])) == pre + list.remove(i) + post,
        (pre + list.remove(i) + post).no_duplicates(),
        forall|x: u64| #[trigger] (pre + list.remove(i) + post).contains(x) ==> (pre + list + post).contains(x),
{
    let p = pre + list + post;
    let k = pre.len() + i;
    assert(p[k] == list[i]);
    lemma_remove_value_at(p, k);
    lemma_remove_no_dup(p, k);
    assert(p.remove(k) =~= pre + list.remove(i) + post);
}

proof fn lemma_removed_absent(s: Seq<u64>, k: int)
    requires
        s.no_duplicates(),
        0 <= k < s.len(),
    ensures
        !s.remove(k).contains(s[k]),
{
    let r = s.remove(k);
    if r.contains(s[k]) {
        let i = choose|i: int| 0 <= i < r.len() && r[i] == s[k];
        let si = if i < k { i } else { i + 1 };
        assert(r[i] == s[si]);
    }
}

proof fn lemma_move_within_block(pre: Seq<u64>, list: Seq<u64>, post: Seq<u64>, o: int, n: int)
    requires
        (pre + list + post).no_duplicates(),
        0 <= o < list.len(),
        0 <= n < list.len(),
    ensures
        apply_ops(
            pre + list + post,
            seq![ChildOpView::Detach(list[o]), ChildOpView::Insert(pre.len() + n, seq![list[o]])],
        ) == pre + move_spec(list, o, n) + post,
        (pre + move_spec(list, o, n) + post).no_duplicates(),
{
    let parent = pre + list + post;
    let off = pre.len() as int;
    let x = list[o];
    let d = seq![ChildOpView::Detach(x)];
    let ins = seq![ChildOpView::Insert(off + n, seq![x])];
    assert(seq![ChildOpView::Detach(x), ChildOpView::Insert(off + n, seq![x])] =~= d + ins);
    lemma_apply_ops_append(parent, d, ins);
    lemma_apply_single(parent, d);
    lemma_remove_from_block(pre, list, post, o);
    let removed = list.remove(o);
    let mid = pre + removed + post;
    assert(apply_op(parent, ChildOpView::Detach(x)) == mid);
    lemma_apply_single(mid, ins);
    lemma_insert_into_block(pre, removed, post, n, seq![x]);
    assert(removed.take(n) + seq![x] + removed.skip(n) =~= move_spec(list, o, n));
    assert(mid.take(off + n) =~= pre + removed.take(n));
    assert(mid.skip(off + n) =~= removed.skip(n) + post);
    assert(parent[off + o] == x);
    assert(parent.remove(off + o) =~= mid);
    lemma_removed_absent(parent, off + o);
    assert forall|y: u64| #[trigger] seq![x].contains(y) implies !mid.contains(y) by {
        assert(seq![x][0] == x);
    }
    lemma_insert_seq_no_dup(mid, off + n, seq![x]);
    assert(mid.take(off + n) + seq![x] + mid.skip(off + n) =~= pre + move_spec(list, o, n) + post);
}

/// A change to one reactive list of children keeps the parent's child list in step with its
/// blocks: carrying out the operations the change produces on the parent's children gives the
/// blocks' children in order again, with the changed block holding its new list and every
/// population matching its block.
#[verifier::spinoff_prover]
pub proof fn lemma_reactive_children_keep_parent_in_step(
    parent: Seq<u64>,
    blocks: Seq<Seq<u64>>,
    populations: Seq<usize>,
    b: int,
    diff: ChildDiffView,
)
    requires
        parent_in_step(parent, blocks, populations),
        0 <= b < blocks.len(),
        spec_diff_in_bounds(blocks[b], diff, true),
        spec_diff_fresh(parent, diff),
        spec_list_after(blocks[b], diff, true).len() <= usize::MAX,
    ensures
        parent_in_step(
            apply_ops(parent, spec_diff_ops(prefix_sum(populations, b), blocks[b], diff, true)),
            blocks.update(b, spec_list_after(blocks[b], diff, true)),
            spec_populations_after(populations, b, blocks[b], diff, true),
        ),
{
    let list = blocks[b];
    let pre = concat_blocks(blocks.take(b));
    let post = concat_blocks(blocks.skip(b + 1));
    lemma_concat_around(blocks, b);
    lemma_concat_take_len(blocks, populations, b);
    let off = prefix_sum(populations, b);
    assert(off == pre.len());
    let new_list = spec_list_after(list, diff, true);
    let new_blocks = blocks.update(b, new_list);
    lemma_concat_around(new_blocks, b);
    assert(new_blocks.take(b) =~= blocks.take(b));
    assert(new_blocks.skip(b + 1) =~= blocks.skip(b + 1));
    let ops = spec_diff_ops(off, list, diff, true);
    let result = apply_ops(parent, ops);
    assert(parent == pre + list + post);
    match diff {
        ChildDiffView::Replace(es) => {
            lemma_apply_ops_append(parent, despawn_all(list), seq![ChildOpView::Insert(off, es)]);
            lemma_despawn_block(pre, list, post);
            let e: Seq<u64> = Seq::empty();
            lemma_insert_into_block(pre, e, post, 0, es);
            assert(pre + e + post =~= pre + post);
            assert(e.take(0) + es + e.skip(0) =~= es);
            lemma_apply_single(pre + post, seq![ChildOpView::Insert(off, es)]);
            assert forall|x: u64| #[trigger] es.contains(x) implies !(pre + post).contains(x) by {
                if (pre + post).contains(x) {
                    let i = choose|i: int| 0 <= i < (pre + post).len() && (pre + post)[i] == x;
                    if i < pre.len() {
                        assert(parent[i] == x);
                    } else {
                        assert(parent[i + list.len()] == x);
                    }
                }
            }
            assert((pre + post).take(pre.len() as int) =~= pre);
            assert((pre + post).skip(pre.len() as int) =~= post);
            lemma_insert_seq_no_dup(pre + post, pre.len() as int, es);
            assert(result == pre + new_list + post);
        },
        ChildDiffView::InsertAt(i, e) => {
            lemma_insert_into_block(pre, list, post, i, seq![e]);
            assert(list.take(i) + seq![e] + list.skip(i) =~= list.insert(i, e));
            lemma_apply_single(parent, ops);
            assert(parent.take(off + i) =~= pre + list.take(i));
            assert(parent.skip(off + i) =~= list.skip(i) + post);
            assert forall|x: u64| #[trigger] seq![e].contains(x) implies !parent.contains(x) by {
                assert(seq![e][0] == e);
            }
            lemma_insert_seq_no_dup(parent, off + i, seq![e]);
            assert(parent.take(off + i) + seq![e] + parent.skip(off + i) =~= pre + new_list + post);
        },
        ChildDiffView::Push(e) => {
            let i = list.len() as int;
            lemma_insert_into_block(pre, list, post, i, seq![e]);
            assert(list.take(i) + seq![e] + list.skip(i) =~= list.push(e));
            lemma_apply_single(parent, ops);
            assert(parent.take(off + i) =~= pre + list.take(i));
            assert(parent.skip(off + i) =~= list.skip(i) + post);
            assert forall|x: u64| #[trigger] seq![e].contains(x) implies !parent.contains(x) by {
                assert(seq![e][0] == e);
            }
            lemma_insert_seq_no_dup(parent, off + i, seq![e]);
            assert(parent.take(off + i) + seq![e] + parent.skip(off + i) =~= pre + new_list + post);
        },
        ChildDiffView::UpdateAt(i, e) => {
            let d = seq![ChildOpView::Despawn(list[i])];
            let ins = seq![ChildOpView::Insert(off + i, seq![e])];
            assert(ops =~= d + ins);
            lemma_apply_ops_append(parent, d, ins);
            lemma_apply_single(parent, d);
            lemma_remove_from_block(pre, list, post, i);
            let removed = list.remove(i);
            let mid = pre + removed + post;
            lemma_apply_single(mid, ins);
            lemma_insert_into_block(pre, removed, post, i, seq![e]);
            assert(removed.take(i) + seq![e] + removed.skip(i) =~= list.update(i, e));
            assert(mid.take(off + i) =~= pre + removed.take(i));
            assert(mid.skip(off + i) =~= removed.skip(i) + post);
            assert forall|x: u64| #[trigger] seq![e].contains(x) implies !mid.contains(x) by {
                assert(seq![e][0] == e);
            }
            lemma_insert_seq_no_dup(mid, off + i, seq![e]);
            assert(mid.take(off + i) + seq![e] + mid.skip(off + i) =~= pre + new_list + post);
        },
        ChildDiffView::Move(o, n) => {
            lemma_move_within_block(pre, list, post, o, n);
        },
        ChildDiffView::RemoveAt(i) => {
            if 0 <= i < list.len() {
                lemma_apply_single(parent, ops);
                lemma_remove_from_block(pre, list, post, i);
            } else {
                assert(new_blocks =~= blocks);
            }
        },
        ChildDiffView::Pop => {
            if list.len() > 0 {
                let i = list.len() - 1;
                lemma_apply_single(parent, ops);
                lemma_remove_from_block(pre, list, post, i);
                assert(list.remove(i) =~= list.drop_last());
            } else {
                assert(new_blocks =~= blocks);
            }
        },
        ChildDiffView::Clear => {
            lemma_despawn_block(pre, list, post);
            assert(pre + new_list + post =~= pre + post);
        },
    }
}

/// A block's list after a run of changes, with the parent alive: each change as a list does it.
pub open spec fn list_after_run(list: Seq<u64>, diffs: Seq<ChildDiffView>) -> Seq<u64>
    decreases diffs.len(),
{
    if diffs.len() == 0 {
        list
    } else {
        list_after_run(spec_list_after(list, diffs[0], true), diffs.drop_first())
    }
}

/// The parent's children, the blocks' lists and the populations after a run of changes to block
/// `b`, each carried out as its operations say, with the parent alive.
pub open spec fn state_after_run(
    parent: Seq<u64>,
    blocks: Seq<Seq<u64>>,
    populations: Seq<usize>,
    b: int,
    diffs: Seq<ChildDiffView>,
) -> (Seq<u64>, Seq<Seq<u64>>, Seq<usize>)
    decreases diffs.len(),
{
    if diffs.len() == 0 {
        (parent, blocks, populations)
    } else {
        let d = diffs[0];
        state_after_run(
            apply_ops(parent, spec_diff_ops(prefix_sum(populations, b), blocks[b], d, true)),
            blocks.update(b, spec_list_after(blocks[b], d, true)),
            spec_populations_after(populations, b, blocks[b], d, true),
            b,
            diffs.drop_first(),
        )
    }
}

/// Every change of a run is one the handler accepts at its turn: its indices are in bounds, its
/// new entities are new to the parent, and the new list fits in a machine word.
pub open spec fn run_acceptable(
    parent: Seq<u64>,
    blocks: Seq<Seq<u64>>,
    populations: Seq<usize>,
    b: int,
    diffs: Seq<ChildDiffView>,
) -> bool
    decreases diffs.len(),
{
    diffs.len() > 0 ==> {
        let d = diffs[0];
        &&& spec_diff_in_bounds(blocks[b], d, true)
        &&& spec_diff_fresh(parent, d)
        &&& spec_list_after(blocks[b], d, true).len() <= usize::MAX
        &&& run_acceptable(
            apply_ops(parent, spec_diff_ops(prefix_sum(populations, b), blocks[b], d, true)),
            blocks.update(b, spec_list_after(blocks[b], d, true)),
            spec_populations_after(populations, b, blocks[b], d, true),
            b,
            diffs.drop_first(),
        )
    }
}

/// Over any run of changes to a reactive list of children, the parent's children stay in step
/// with its blocks, and the block's children are, in order, the list that the run of changes
/// makes of the block's starting list; the other blocks keep their children.
pub proof fn lemma_reactive_children_follow_run(
    parent: Seq<u64>,
    blocks: Seq<Seq<u64>>,
    populations: Seq<usize>,
    b: int,
    diffs: Seq<ChildDiffView>,
)
    requires
        parent_in_step(parent, blocks, populations),
        0 <= b < blocks.len(),
        run_acceptable(parent, blocks, populations, b, diffs),
    ensures
        ({
            let (p, bl, po) = state_after_run(parent, blocks, populations, b, diffs);
            &&& parent_in_step(p, bl, po)
            &&& bl.len() == blocks.len()
            &&& bl[b] == list_after_run(blocks[b], diffs)
            &&& forall|c: int| 0 <= c < blocks.len() && c != b ==> #[trigger] bl[c] == blocks[c]
        }),
    decreases diffs.len(),
{
    if diffs.len() > 0 {
        let d = diffs[0];
        lemma_reactive_children_keep_parent_in_step(parent, blocks, populations, b, d);
        lemma_reactive_children_follow_run(
            apply_ops(parent, spec_diff_ops(prefix_sum(populations, b), blocks[b], d, true)),
            blocks.update(b, spec_list_after(blocks[b], d, true)),
            spec_populations_after(populations, b, blocks[b], d, true),
            b,
            diffs.drop_first(),
        );
    }
}

/// The children an optional child block holds.
pub open spec fn option_list(child: Option<u64>) -> Seq<u64> {
    match child {
        Some(e) => seq![e],
        None => Seq::empty(),
    }
}

/// The operations a new value of a reactive optional child produces: the existing child (if any)
/// is despawned; a new child is inserted at the block's offset, or despawned if the parent is
/// gone.
pub open spec fn spec_signal_ops(
    offset: int,
    existing: Option<u64>,
    child: Option<u64>,
    parent_alive: bool,
) -> Seq<ChildOpView> {
    despawn_all(option_list(existing)) + match child {
        Some(e) => if parent_alive {
            seq![ChildOpView::Insert(offset, seq![e])]
        } else {
            seq![ChildOpView::Despawn(e)]
        },
        None => Seq::empty(),
    }
}

/// The optional child held after a new value.
pub open spec fn spec_signal_child_after(child: Option<u64>, parent_alive: bool) -> Option<u64> {
    match child {
        Some(e) => if parent_alive {
            Some(e)
        } else {
            None
        },
        None => None,
    }
}

/// Static children spawned with the node: inserted at their block's offset, or despawned if
/// the parent is gone.
pub open spec fn spec_spawn_ops(offset: int, entities: Seq<u64>, parent_alive: bool) -> Seq<ChildOpView> {
    if parent_alive {
        seq![ChildOpView::Insert(offset, entities)]
    } else {
        despawn_all(entities)
    }
}

/// The operations that place a block of static children, spawned on `entities`, when the node
/// spawns.
pub fn spawn_static_children(offset: usize, entities: Vec<u64>, parent_alive: bool) -> (ops: Vec<ChildOp>)
    ensures
        ops_view(ops@) == spec_spawn_ops(offset as int, entities@, parent_alive),
{
    let mut ops: Vec<ChildOp> = Vec::new();
    if parent_alive {
        ops.push(ChildOp::Insert { index: offset, entities });
        proof {
            assert(ops_view(ops@) =~= spec_spawn_ops(offset as int, entities@, parent_alive));
        }
    } else {
        despawn_each(&mut ops, &entities);
        proof {
            assert(ops_view(ops@) =~= spec_spawn_ops(offset as int, entities@, parent_alive));
        }
    }
    ops
}

/// The state of a reactive optional child: the entity it currently holds, if any.
pub struct ReactiveChild {
    existing: Option<u64>,
}

impl View for ReactiveChild {
    type V = Option<u64>;

    closed spec fn view(&self) -> Option<u64> {
        self.existing
    }
}

impl ReactiveChild {
    /// A reactive optional child holding nothing.
    pub fn new() -> (r: Self)
        ensures
            r@ == None::<u64>,
    {
        ReactiveChild { existing: None }
    }

    /// The entity currently held.
    pub fn existing(&self) -> (r: Option<u64>)
        ensures
            r == self@,
    {
        self.existing
    }

    /// Handle a new value of the reactive optional child on `block`: `child` is the entity
    /// freshly spawned for a new child, or `None` when the child is removed. The block's
    /// population becomes one for a new child and zero for a removal.
    pub fn apply_signal(
        &mut self,
        blocks: &mut ChildBlocks,
        block: usize,
        child: Option<u64>,
        parent_alive: bool,
    ) -> (ops: Vec<ChildOp>)
        requires
            old(blocks).wf(),
            block < old(blocks)@.len(),
            total(old(blocks)@) - old(blocks)@[block as int] + 1 <= usize::MAX,
        ensures
            final(self)@ == spec_signal_child_after(child, parent_alive),
            final(blocks)@ == old(blocks)@.update(
                block as int,
                if child is Some {
                    1usize
                } else {
                    0usize
                },
            ),
            final(blocks).spec_inserted() == old(blocks).spec_inserted().update(block as int, true),
            final(blocks).wf(),
            ops_view(ops@) == spec_signal_ops(
                prefix_sum(old(blocks)@, block as int),
                old(self)@,
                child,
                parent_alive,
            ),
    {
        let ghost old_existing = self@;
        let off = blocks.offset(block);
        let mut ops: Vec<ChildOp> = Vec::new();
        if let Some(x) = self.existing {
            ops.push(ChildOp::Despawn { entity: x });
        }
        self.existing = None;
        proof {
            assert(ops_view(ops@) =~= despawn_all(option_list(old_existing)));
        }
        match child {
            Some(e) => {
                if parent_alive {
                    let mut es: Vec<u64> = Vec::new();
                    es.push(e);
                    ops.push(ChildOp::Insert { index: off, entities: es });
                    self.existing = Some(e);
                } else {
                    ops.push(ChildOp::Despawn { entity: e });
                }
                blocks.set_population(block, 1);
            },
            None => {
                blocks.set_population(block, 0);
            },
        }
        proof {
            assert(ops_view(ops@) =~= spec_signal_ops(off as int, old_existing, child, parent_alive));
        }
        blocks.mark_inserted(block);
        ops
    }
}

/// A new value of a reactive optional child keeps the parent's child list in step with its
/// blocks, when the parent is alive and a new child's entity is not already a child of it.
pub proof fn lemma_reactive_child_keeps_parent_in_step(
    parent: Seq<u64>,
    blocks: Seq<Seq<u64>>,
    populations: Seq<usize>,
    b: int,
    existing: Option<u64>,
    child: Option<u64>,
)
    requires
        parent_in_step(parent, blocks, populations),
        0 <= b < blocks.len(),
        blocks[b] == option_list(existing),
        child matches Some(e) ==> !parent.contains(e),
    ensures
        parent_in_step(
            apply_ops(parent, spec_signal_ops(prefix_sum(populations, b), existing, child, true)),
            blocks.update(b, option_list(spec_signal_child_after(child, true))),
            populations.update(
                b,
                if child is Some {
                    1usize
                } else {
                    0usize
                },
            ),
        ),
{
    let off = prefix_sum(populations, b);
    let list = blocks[b];
    match child {
        Some(e) => {
            let diff = ChildDiffView::Replace(seq![e]);
            assert(seq![e].no_duplicates());
            assert forall|x: u64| #[trigger] seq![e].contains(x) implies !parent.contains(x) by {
                assert(seq![e][0] == e);
            }
            lemma_reactive_children_keep_parent_in_step(parent, blocks, populations, b, diff);
            assert(spec_signal_ops(off, existing, child, true) =~= spec_diff_ops(off, list, diff, true));
            assert(option_list(spec_signal_child_after(child, true)) =~= spec_list_after(list, diff, true));
        },
        None => {
            let diff = ChildDiffView::Clear;
            lemma_reactive_children_keep_parent_in_step(parent, blocks, populations, b, diff);
            assert(spec_signal_ops(off, existing, child, true) =~= spec_diff_ops(off, list, diff, true));
            assert(option_list(spec_signal_child_after(child, true)) =~= spec_list_after(list, diff, true));
        },
    }
}

/// Spawning a node places its static blocks one after another: when every block after `b` is
/// still empty, inserting block `b`'s children at its offset keeps the parent in step.
pub proof fn lemma_static_children_keep_parent_in_step(
    parent: Seq<u64>,
    blocks: Seq<Seq<u64>>,
    populations: Seq<usize>,
    b: int,
    entities: Seq<u64>,
)
    requires
        parent_in_step(parent, blocks, populations),
        0 <= b < blocks.len(),
        blocks[b] == Seq::<u64>::empty(),
        entities.no_duplicates(),
        forall|x: u64| #[trigger] entities.contains(x) ==> !parent.contains(x),
        entities.len() <= usize::MAX,
    ensures
        parent_in_step(
            apply_ops(parent, spec_spawn_ops(prefix_sum(populations, b), entities, true)),
            blocks.update(b, entities),
            populations.update(b, entities.len() as usize),
        ),
{
    let off = prefix_sum(populations, b);
    let diff = ChildDiffView::Replace(entities);
    lemma_reactive_children_keep_parent_in_step(parent, blocks, populations, b, diff);
    assert(despawn_all(blocks[b]) =~= Seq::<ChildOpView>::empty());
    assert(spec_spawn_ops(off, entities, true) =~= spec_diff_ops(off, blocks[b], diff, true));
}

} // verus!
