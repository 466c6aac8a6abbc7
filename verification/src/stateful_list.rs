//! A growing list of items with a selection cursor kept in a
//! `tui::widgets::ListState`, so that a list widget can be drawn from it.

use crate::list_view::ListView;
use tui::widgets::ListState;
use vstd::prelude::*;

verus! {

/// `tui::widgets::ListState`, the selection and scroll offset that a list
/// widget is drawn with. Nothing of its inside is visible here.
#[verifier::external_type_specification]
#[verifier::external_body]
pub struct ExListState(ListState);

/// The index that a `ListState` holds as selected.
pub uninterp spec fn list_state_selected(state: ListState) -> Option<usize>;

/// `ListState::default()`: a fresh state has nothing selected.
pub assume_specification[ <ListState as Default>::default ]() -> (state: ListState)
    ensures
        list_state_selected(state) is None,
;

/// `ListState::selected`: hands out the selected index.
pub assume_specification[ ListState::selected ](state: &ListState) -> (index: Option<usize>)
    ensures
        index == list_state_selected(*state),
;

/// `ListState::select`: stores `index` as the selected index.
pub assume_specification[ ListState::select ](state: &mut ListState, index: Option<usize>)
    ensures
        list_state_selected(*final(state)) == index,
;

/// The cursor of the model that stands for a selected index.
pub open spec fn cursor_of(selected: Option<usize>) -> Option<int> {
    match selected {
        Some(i) => Some(i as int),
        None => None,
    }
}

pub struct StatefulList<T> {
    state: ListState,
    items: Vec<T>,
}

impl<T> View for StatefulList<T> {
    type V = ListView<T>;

    closed spec fn view(&self) -> ListView<T> {
        ListView { items: self.items@, cursor: cursor_of(list_state_selected(self.state)) }
    }
}

impl<T> StatefulList<T> {
    /// The state that a widget is drawn with.
    pub closed spec fn state(&self) -> ListState {
        self.state
    }

    pub fn with_items(items: Vec<T>) -> (list: StatefulList<T>)
        ensures
            list@ == ListView::starting_with(items@),
            list@.settled(),
    {
        let mut list = StatefulList { state: ListState::default(), items };
        if list.items.len() > 0 {
            list.state.select(Some(0));
        }
        list
    }

    pub fn items(&self) -> (items: &Vec<T>)
        ensures
            items@ == self@.items,
    {
        &self.items
    }

    pub fn len(&self) -> (n: usize)
        ensures
            n == self@.len(),
    {
        self.items.len()
    }

    /// The selected index, as the state holds it.
    pub fn selected(&self) -> (index: Option<usize>)
        ensures
            cursor_of(index) == self@.cursor,
    {
        self.state.selected()
    }

    pub fn add(&mut self, item: T)
        ensures
            final(self)@ == old(self)@.append(item),
            old(self)@.valid() ==> final(self)@.valid(),
            old(self)@.settled() ==> final(self)@.settled(),
    {
        self.items.push(item);
        if self.items.len() == 1 {
            self.state.select(Some(0));
        }
    }

    /// Selects the item nearest to `index`, or nothing while the list is
    /// empty.
    fn settle_on(&mut self, index: usize)
        ensures
            final(self)@ == old(self)@.jump_to(index as int),
            final(self)@.settled(),
    {
        let len: usize = self.items.len();
        if len == 0 {
            if self.state.selected().is_some() {
                self.state.select(None);
            }
        } else if index >= len {
            self.state.select(Some(len - 1));
        } else {
            self.state.select(Some(index));
        }
    }

    /// The index a move starts from.
    fn origin(&self) -> (origin: usize)
        ensures
            origin == self@.origin(),
    {
        match self.state.selected() {
            Some(i) => i,
            None => 0,
        }
    }

    pub fn select_n_up(&mut self, n: usize)
        ensures
            final(self)@ == old(self)@.move_up(n as nat),
            final(self)@.settled(),
    {
        let origin: usize = self.origin();
        let target: usize = if n > origin {
            0
        } else {
            origin - n
        };
        self.settle_on(target);
    }

    pub fn select_n_down(&mut self, n: usize)
        ensures
            final(self)@ == old(self)@.move_down(n as nat),
            final(self)@.settled(),
    {
        let origin: usize = self.origin();
        assert(self@.len() == self.items.len() <= usize::MAX);
        let target: usize = if n > usize::MAX - origin {
            usize::MAX
        } else {
            origin + n
        };
        self.settle_on(target);
    }

    pub fn select_first(&mut self)
        ensures
            final(self)@ == old(self)@.first(),
            final(self)@.settled(),
    {
        self.settle_on(0);
    }

    pub fn select_last(&mut self)
        ensures
            final(self)@ == old(self)@.last(),
            final(self)@.settled(),
    {
        let len: usize = self.items.len();
        let last: usize = if len > 0 {
            len - 1
        } else {
            0
        };
        self.settle_on(last);
    }

    /// Gives up the selection where there is nothing to select. A list that
    /// holds an item keeps its cursor.
    pub fn unselect(&mut self)
        ensures
            final(self)@ == old(self)@.unselected(),
            final(self)@.items == old(self)@.items,
            old(self)@.valid() ==> final(self)@.valid(),
            old(self)@.settled() ==> final(self)@.settled(),
    {
        if self.items.len() == 0 {
            self.state.select(None);
        }
    }

    /// The selected index and the item under it, for a reader that draws the
    /// list. `None` when nothing is selected, or when the state was set from
    /// outside to an index that no item has.
    pub fn current_selection(&self) -> (selection: Option<(usize, &T)>)
        ensures
            match selection {
                Some((i, item)) => self@.cursor == Some(i as int) && i < self@.len() && *item
                    == self@.items[i as int],
                None => self@.cursor is None || self@.cursor->0 >= self@.len(),
            },
    {
        match self.state.selected() {
            Some(i) => {
                if i < self.items.len() {
                    Some((i, &self.items[i]))
                } else {
                    None
                }
            },
            None => None,
        }
    }

    /// The widget state itself, for the call that draws the list. It selects
    /// this list's cursor when it is handed out, and whatever the borrower
    /// leaves selected in it is this list's cursor afterwards; the items are
    /// not touched.
    pub fn state_mut(&mut self) -> (state: &mut ListState)
        ensures
            *state == old(self).state(),
            cursor_of(list_state_selected(*state)) == old(self)@.cursor,
            final(self).state() == *final(state),
            final(self)@.items == old(self)@.items,
            final(self)@.cursor == cursor_of(list_state_selected(*final(state))),
    {
        &mut self.state
    }
}

} // verus!
