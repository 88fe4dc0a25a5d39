//! Deferred updaters: updates forced to run after all direct updates of an element, appended to
//! the front or the back of the queue.
use vstd::prelude::*;

verus! {

/// Whether a deferred update goes to the front or the back of the queue.
#[derive(Clone, Copy, PartialEq, Eq, Debug, Structural)]
pub enum DeferredUpdaterAppendDirection {
    /// Before every queued update.
    Front,
    /// After every queued update.
    Back,
}

/// A queue of deferred updates, run in order when the element is built.
pub struct DeferredQueue<T> {
    items: Vec<T>,
}

impl<T> View for DeferredQueue<T> {
    type V = Seq<T>;

    closed spec fn view(&self) -> Seq<T> {
        self.items@
    }
}

impl<T> DeferredQueue<T> {
    /// An empty queue.
    pub fn new() -> (r: Self)
        ensures
            r@ == Seq::<T>::empty(),
    {
        DeferredQueue { items: Vec::new() }
    }

    /// Queue an update at the front or the back.
    pub fn defer(&mut self, direction: DeferredUpdaterAppendDirection, item: T)
        ensures
            final(self)@ == match direction {
                DeferredUpdaterAppendDirection::Front => seq![item] + old(self)@,
                DeferredUpdaterAppendDirection::Back => old(self)@.push(item),
            },
    {
        match direction {
            DeferredUpdaterAppendDirection::Front => {
                self.items.insert(0, item);
                proof {
                    assert(self@ =~= seq![item] + old(self)@);
                }
            },
            DeferredUpdaterAppendDirection::Back => self.items.push(item),
        }
    }

    /// Take the next updater to run, from the front of the line. Updaters deferred while others
    /// run join the same line, so running until nothing is left runs them too.
    pub fn take_next(&mut self) -> (r: Option<T>)
        ensures
            r == if old(self)@.len() > 0 {
                Some(old(self)@[0])
            } else {
                None::<T>
            },
            final(self)@ == if old(self)@.len() > 0 {
                old(self)@.drop_first()
            } else {
                old(self)@
            },
    {
        if self.items.len() > 0 {
            let first = self.items.remove(0);
            proof {
                assert(self@ =~= old(self)@.drop_first());
            }
            Some(first)
        } else {
            None
        }
    }

    /// Take every queued update, in the order they run, leaving the queue empty.
    pub fn drain(&mut self) -> (r: Vec<T>)
        ensures
            r@ == old(self)@,
            final(self)@ == Seq::<T>::empty(),
    {
        let mut taken: Vec<T> = Vec::new();
        std::mem::swap(&mut taken, &mut self.items);
        taken
    }
}

/// While updaters run, an updater deferred to the front of the line runs next, and one deferred
/// to the back runs after every updater already waiting.
pub proof fn lemma_deferred_order<T>(waiting: Seq<T>, item: T)
    ensures
        (seq![item] + waiting)[0] == item,
        (seq![item] + waiting).drop_first() == waiting,
        waiting.push(item).len() == waiting.len() + 1,
        waiting.push(item)[waiting.len() as int] == item,
        forall|i: int| 0 <= i < waiting.len() ==> #[trigger] waiting.push(item)[i] == waiting[i],
{
    assert((seq![item] + waiting).drop_first() =~= waiting);
}

} // verus!
