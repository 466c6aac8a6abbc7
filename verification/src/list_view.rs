//! The mathematical model of a scrollable list: a sequence of items and an
//! optional cursor, with the moves an operator can make.

use vstd::prelude::*;

verus! {

/// What a scrollable list is, as a value: its items in arrival order and the
/// index of the selected item, if any.
pub struct ListView<T> {
    pub items: Seq<T>,
    pub cursor: Option<int>,
}

/// One of the operations that change a list during a session.
pub enum ListOp<T> {
    Append(T),
    Up(nat),
    Down(nat),
    First,
    Last,
    Unselect,
}

/// `target` brought into `[0, len - 1]`; meaningful for `len > 0`.
pub open spec fn clamp_index(target: int, len: int) -> int {
    if target < 0 {
        0
    } else if target >= len {
        len - 1
    } else {
        target
    }
}

impl<T> ListView<T> {
    /// The list with no item and no selection.
    pub open spec fn empty() -> Self {
        ListView { items: Seq::empty(), cursor: None }
    }

    /// The list that starts out holding `items`: the first item is selected
    /// when there is one.
    pub open spec fn starting_with(items: Seq<T>) -> Self {
        ListView { items, cursor: if items.len() > 0 { Some(0int) } else { None } }
    }

    pub open spec fn len(self) -> int {
        self.items.len() as int
    }

    /// The cursor, if set, is an index of an item.
    pub open spec fn valid(self) -> bool {
        self.cursor matches Some(i) ==> 0 <= i < self.len()
    }

    /// Valid, and unselected only while empty.
    pub open spec fn settled(self) -> bool {
        &&& self.valid()
        &&& self.cursor is None ==> self.len() == 0
    }

    /// The index a move starts from: the cursor, or the first item when
    /// nothing is selected.
    pub open spec fn origin(self) -> int {
        match self.cursor {
            Some(i) => i,
            None => 0,
        }
    }

    /// Selects the item nearest to `target`. An empty list has nothing to
    /// select.
    pub open spec fn jump_to(self, target: int) -> Self {
        if self.len() == 0 {
            ListView { items: self.items, cursor: None }
        } else {
            ListView { items: self.items, cursor: Some(clamp_index(target, self.len())) }
        }
    }

    /// `item` is added at the end. The first item to arrive is selected; after
    /// that the cursor stays where it is.
    pub open spec fn append(self, item: T) -> Self {
        ListView {
            items: self.items.push(item),
            cursor: if self.len() == 0 { Some(0int) } else { self.cursor },
        }
    }

    pub open spec fn move_up(self, n: nat) -> Self {
        self.jump_to(self.origin() - n)
    }

    pub open spec fn move_down(self, n: nat) -> Self {
        self.jump_to(self.origin() + n)
    }

    pub open spec fn first(self) -> Self {
        self.jump_to(0)
    }

    pub open spec fn last(self) -> Self {
        self.jump_to(self.len() - 1)
    }

    /// The selection is given up where there is nothing to select: the cursor
    /// of an empty list is cleared. While the list holds an item the cursor
    /// stays, since a list with items always has one selected.
    pub open spec fn unselected(self) -> Self {
        if self.len() == 0 {
            ListView { items: self.items, cursor: None }
        } else {
            self
        }
    }

    /// The items of `batch` appended one after the other, first to last.
    pub open spec fn append_all(self, batch: Seq<T>) -> Self
        decreases batch.len(),
    {
        if batch.len() == 0 {
            self
        } else {
            self.append_all(batch.drop_last()).append(batch.last())
        }
    }

    pub open spec fn apply(self, op: ListOp<T>) -> Self {
        match op {
            ListOp::Append(item) => self.append(item),
            ListOp::Up(n) => self.move_up(n),
            ListOp::Down(n) => self.move_down(n),
            ListOp::First => self.first(),
            ListOp::Last => self.last(),
            ListOp::Unselect => self.unselected(),
        }
    }

    /// The operations of `ops` applied one after the other, first to last.
    pub open spec fn replay(self, ops: Seq<ListOp<T>>) -> Self
        decreases ops.len(),
    {
        if ops.len() == 0 {
            self
        } else {
            self.replay(ops.drop_last()).apply(ops.last())
        }
    }

    /// What appending a whole batch comes to: the batch follows the items
    /// already held, in its own order, and the cursor moves only if the list
    /// was empty and the batch is not.
    pub proof fn lemma_append_all(self, batch: Seq<T>)
        ensures
            self.append_all(batch).items == self.items + batch,
            self.append_all(batch).cursor == if self.len() == 0 && batch.len() > 0 {
                Some(0int)
            } else {
                self.cursor
            },
        decreases batch.len(),
    {
        if batch.len() > 0 {
            self.lemma_append_all(batch.drop_last());
            assert(batch == batch.drop_last().push(batch.last()));
            assert(self.items + batch == (self.items + batch.drop_last()).push(batch.last()));
        } else {
            assert(self.items + batch == self.items);
        }
    }

    /// Appending two batches in turn is appending their concatenation.
    pub proof fn lemma_append_all_twice(self, a: Seq<T>, b: Seq<T>)
        ensures
            self.append_all(a).append_all(b) == self.append_all(a + b),
    {
        self.lemma_append_all(a);
        self.append_all(a).lemma_append_all(b);
        self.lemma_append_all(a + b);
        assert((self.items + a) + b == self.items + (a + b));
    }

    /// A list that starts out with some items is the empty list after those
    /// items have arrived.
    pub proof fn lemma_starting_with_is_appending(items: Seq<T>)
        ensures
            Self::starting_with(items) == Self::empty().append_all(items),
    {
        Self::empty().lemma_append_all(items);
        assert(Seq::<T>::empty() + items == items);
    }

    /// Before anything arrives nothing is selected; once anything has
    /// arrived, however much, the first item is.
    pub proof fn lemma_first_arrival_selects_first(batch: Seq<T>)
        ensures
            Self::empty().cursor is None,
            batch.len() > 0 ==> Self::empty().append_all(batch).cursor == Some(0int),
            batch.len() > 0 ==> forall|later: Seq<T>|
                (#[trigger] Self::empty().append_all(batch + later)).cursor == Some(0int),
    {
        Self::empty().lemma_append_all(batch);
        assert forall|later: Seq<T>| batch.len() > 0 implies (#[trigger] Self::empty().append_all(
            batch + later,
        )).cursor == Some(0int) by {
            Self::empty().lemma_append_all(batch + later);
        }
    }

    /// Every operation leads from a settled list to a settled list.
    pub proof fn lemma_apply_settled(self, op: ListOp<T>)
        requires
            self.settled(),
        ensures
            self.apply(op).settled(),
    {
    }

    /// Whatever is done to a list that started out empty or with some items,
    /// its cursor is an index of an item, and is unset only while the list is
    /// empty.
    pub proof fn lemma_reachable_settled(initial: Seq<T>, ops: Seq<ListOp<T>>)
        ensures
            Self::starting_with(initial).replay(ops).settled(),
        decreases ops.len(),
    {
        if ops.len() > 0 {
            Self::lemma_reachable_settled(initial, ops.drop_last());
            Self::starting_with(initial).replay(ops.drop_last()).lemma_apply_settled(ops.last());
        }
    }

    /// Moving down and then up by the same distance: the way down stops at
    /// the last item, the way back at the first, and where neither stop is
    /// reached the cursor is back where it was.
    pub proof fn lemma_down_then_up(self, n: nat)
        requires
            self.valid(),
            self.cursor is Some,
        ensures
            self.move_down(n).cursor == Some(
                if self.cursor->0 + n > self.len() - 1 {
                    self.len() - 1
                } else {
                    self.cursor->0 + n
                },
            ),
            self.move_down(n).move_up(n).cursor == Some(
                if self.cursor->0 + n <= self.len() - 1 {
                    self.cursor->0
                } else if n > self.len() - 1 {
                    0
                } else {
                    self.len() - 1 - n
                },
            ),
            self.cursor->0 + n <= self.len() - 1 ==> self.move_down(n).move_up(n) == self,
    {
    }

    /// Moving up and then down by the same distance, likewise.
    pub proof fn lemma_up_then_down(self, n: nat)
        requires
            self.valid(),
            self.cursor is Some,
        ensures
            self.move_up(n).cursor == Some(
                if n > self.cursor->0 {
                    0
                } else {
                    self.cursor->0 - n
                },
            ),
            self.move_up(n).move_down(n).cursor == Some(
                if n <= self.cursor->0 {
                    self.cursor->0
                } else if n > self.len() - 1 {
                    self.len() - 1
                } else {
                    n as int
                },
            ),
            n <= self.cursor->0 ==> self.move_up(n).move_down(n) == self,
    {
    }

    /// Items that arrive while something is selected leave the selection
    /// alone: the same index, and the same item under it.
    pub proof fn lemma_arrivals_keep_selection(self, batch: Seq<T>)
        requires
            self.valid(),
            self.cursor is Some,
        ensures
            self.append_all(batch).cursor == self.cursor,
            self.append_all(batch).items[self.cursor->0] == self.items[self.cursor->0],
            self.append_all(batch).valid(),
    {
        self.lemma_append_all(batch);
    }

    /// Items keep the order in which they arrived, whatever moves of the
    /// cursor happen in between: the items already held stay where they are,
    /// and moves change no item.
    pub proof fn lemma_order_kept(self, op: ListOp<T>)
        ensures
            self.items.is_prefix_of(self.apply(op).items),
            op matches ListOp::Append(item) ==> self.apply(op).items == self.items.push(item),
            !(op is Append) ==> self.apply(op).items == self.items,
    {
    }
}

} // verus!
