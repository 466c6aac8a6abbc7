//! The viewer's state and the steps of its event loop: carrying out a
//! command, and draining the queue of records on a tick.

use crate::keys::{command_for, command_of, key_of, Command, Flow};
use crate::list_view::ListView;
use crate::record::Record;
use crate::row::{project, projection, Row};
use crate::stateful_list::{cursor_of, list_state_selected, StatefulList};
use crate::tick::tick_due;
use crate::title::{position_of, title, title_text};
use async_std::channel::Receiver;
use crossterm::event::KeyCode;
use tui::widgets::ListState;
use vstd::prelude::*;

verus! {

/// `async_std::channel::Receiver`, the consumer's end of a channel. Nothing
/// of its inside is visible here.
#[verifier::external_type_specification]
#[verifier::external_body]
#[verifier::reject_recursive_types(T)]
pub struct ExReceiver<T>(Receiver<T>);

/// What one look at the queue finds.
#[derive(Debug)]
pub enum Polled {
    /// The next record in line.
    Record(Record),
    /// Nothing for now; the producer may still send.
    Empty,
    /// Nothing, and the producer is gone: nothing will come any more.
    Closed,
}

/// `async_std::channel::Receiver::try_recv`, which is that of the crate
/// `async-channel`: takes the next record off the queue without waiting, or
/// tells why there is none. What it finds depends on what the
/// producer has done so far, so nothing is promised of it.
#[verifier::external_body]
fn poll(receiver: &Receiver<Record>) -> (polled: Polled) {
    match receiver.try_recv() {
        Ok(record) => Polled::Record(record),
        Err(async_std::channel::TryRecvError::Empty) => Polled::Empty,
        Err(async_std::channel::TryRecvError::Closed) => Polled::Closed,
    }
}

/// The list after a command, moving by `page` rows where the command moves
/// by a page.
pub open spec fn after_command(list: ListView<Record>, command: Command, page: nat) -> ListView<
    Record,
> {
    match command {
        Command::Quit => list,
        Command::LineUp => list.move_up(1),
        Command::LineDown => list.move_down(1),
        Command::PageUp => list.move_up(page),
        Command::PageDown => list.move_down(page),
        Command::First => list.first(),
        Command::Last => list.last(),
        Command::Nothing => list,
    }
}

/// The list after one look at the queue.
pub open spec fn after_poll(list: ListView<Record>, polled: Polled) -> ListView<Record> {
    match polled {
        Polled::Record(record) => list.append(record),
        Polled::Empty => list,
        Polled::Closed => list,
    }
}

/// How a list stands after records have arrived: the records held before
/// are still there, in place; those that follow them were appended one after
/// the other; and the cursor moved only from an empty list onto its first
/// record.
pub open spec fn grown_from(before: ListView<Record>, after: ListView<Record>) -> bool {
    &&& before.items.is_prefix_of(after.items)
    &&& after == before.append_all(after.items.skip(before.len()))
    &&& after.cursor == if before.len() == 0 && after.len() > 0 {
        Some(0int)
    } else {
        before.cursor
    }
}

/// How one turn of the event loop ends.
#[derive(Clone, Copy, Debug, PartialEq, Eq, Structural)]
pub enum Turn {
    /// The operator quit: the loop ends.
    Quit,
    /// The loop goes on. `ticked` says that the tick was due and the queue
    /// was drained, so that the tick timer starts anew.
    Continue { ticked: bool },
}

pub struct App<'a> {
    input_filename: String,
    log_receiver: &'a Receiver<Record>,
    stateful_list: StatefulList<Record>,
    drained: bool,
}

impl<'a> App<'a> {
    /// The records received so far and the cursor on them.
    pub closed spec fn list(&self) -> ListView<Record> {
        self.stateful_list@
    }

    /// The name of the input, as shown in the title.
    pub closed spec fn input(&self) -> Seq<char> {
        self.input_filename@
    }

    /// Whether the queue was found closed, so that it is not looked at again.
    pub closed spec fn finished(&self) -> bool {
        self.drained
    }

    /// The state that the list widget is drawn with.
    pub closed spec fn state(&self) -> ListState {
        self.stateful_list.state()
    }

    pub fn new(input: String, receiver: &'a Receiver<Record>) -> (app: App<'a>)
        ensures
            app.list() == ListView::<Record>::empty(),
            app.input() == input@,
            !app.finished(),
    {
        App {
            input_filename: input,
            log_receiver: receiver,
            stateful_list: StatefulList::with_items(Vec::new()),
            drained: false,
        }
    }

    pub fn len(&self) -> (n: usize)
        ensures
            n == self.list().len(),
    {
        self.stateful_list.len()
    }

    pub fn selected(&self) -> (index: Option<usize>)
        ensures
            cursor_of(index) == self.list().cursor,
    {
        self.stateful_list.selected()
    }

    pub fn records(&self) -> (records: &Vec<Record>)
        ensures
            records@ == self.list().items,
    {
        self.stateful_list.items()
    }

    pub fn is_finished(&self) -> (finished: bool)
        ensures
            finished == self.finished(),
    {
        self.drained
    }

    /// Carries out a command. `page` is the height of the viewport, in rows;
    /// only the page commands read it.
    pub fn perform(&mut self, command: Command, page: usize) -> (flow: Flow)
        ensures
            final(self).list() == after_command(old(self).list(), command, page as nat),
            final(self).input() == old(self).input(),
            final(self).finished() == old(self).finished(),
            flow == if command == Command::Quit {
                Flow::Quit
            } else {
                Flow::Continue
            },
    {
        match command {
            Command::Quit => {
                return Flow::Quit;
            },
            Command::LineUp => self.stateful_list.select_n_up(1),
            Command::LineDown => self.stateful_list.select_n_down(1),
            Command::PageUp => self.stateful_list.select_n_up(page),
            Command::PageDown => self.stateful_list.select_n_down(page),
            Command::First => self.stateful_list.select_first(),
            Command::Last => self.stateful_list.select_last(),
            Command::Nothing => {},
        }
        Flow::Continue
    }

    /// Carries out the command bound to a key.
    pub fn on_key(&mut self, code: KeyCode, page: usize) -> (flow: Flow)
        ensures
            final(self).list() == after_command(
                old(self).list(),
                command_of(key_of(code)),
                page as nat,
            ),
            final(self).input() == old(self).input(),
            final(self).finished() == old(self).finished(),
            flow == if command_of(key_of(code)) == Command::Quit {
                Flow::Quit
            } else {
                Flow::Continue
            },
    {
        let command = command_for(code);
        self.perform(command, page)
    }

    /// Takes in what one look at the queue found: a record is appended, a
    /// closed queue is remembered. Says whether another look is in order,
    /// which it is after a record and only then.
    pub fn accept(&mut self, polled: Polled) -> (more: bool)
        ensures
            final(self).list() == after_poll(old(self).list(), polled),
            final(self).input() == old(self).input(),
            final(self).finished() == (old(self).finished() || polled is Closed),
            more == polled is Record,
    {
        match polled {
            Polled::Record(record) => {
                self.stateful_list.add(record);
                true
            },
            Polled::Empty => false,
            Polled::Closed => {
                self.drained = true;
                false
            },
        }
    }

    /// Drains the queue: takes records off it, in the order in which it hands
    /// them out, until it is empty for now or closed, and appends each. Once
    /// the queue was found closed it is not looked at again. Hands back the
    /// number of records taken.
    ///
    /// What the queue holds is the producer's doing, so which records arrive
    /// is not promised; what is promised is what becomes of them. The records
    /// held before stay where they are, the new ones follow in the order
    /// taken, and the cursor moves only from an empty list onto its first
    /// record.
    pub fn on_tick(&mut self) -> (taken: usize)
        ensures
            grown_from(old(self).list(), final(self).list()),
            final(self).list().len() == old(self).list().len() + taken,
            final(self).input() == old(self).input(),
            old(self).finished() ==> final(self).finished() && taken == 0 && final(self).list()
                == old(self).list(),
    {
        let mut taken: usize = 0;
        let ghost start = self.list();
        proof {
            assert(start.items.skip(start.len()) == Seq::<Record>::empty());
        }
        // A list cannot hold more than `usize::MAX` records, which also bounds
        // the number of looks at the queue in one tick.
        while !self.drained && self.stateful_list.len() < usize::MAX
            invariant
                self.list() == start.append_all(self.list().items.skip(start.len())),
                self.list().len() == start.len() + taken,
                self.input() == old(self).input(),
                old(self).finished() ==> self.finished() && taken == 0,
            decreases usize::MAX - self.list().len(),
        {
            let ghost before = self.list();
            let polled = poll(self.log_receiver);
            let more = self.accept(polled);
            if !more {
                break;
            }
            taken += 1;
            proof {
                let tail = self.list().items.skip(start.len());
                start.lemma_append_all(before.items.skip(start.len()));
                assert(tail.drop_last() == before.items.skip(start.len()));
                assert(tail.last() == self.list().items.last());
            }
        }
        proof {
            start.lemma_append_all(self.list().items.skip(start.len()));
        }
        taken
    }

    /// One turn of the event loop after the list was drawn and a key was
    /// waited for: first the command of the key that came, if one came, then
    /// the tick, if it is due `elapsed` after the last one. Quitting ends the
    /// turn at once, before any tick.
    pub fn turn(&mut self, command: Option<Command>, page: usize, tick_rate: u128, elapsed: u128)
        -> (turn: Turn)
        ensures
            final(self).input() == old(self).input(),
            command == Some(Command::Quit) ==> turn == Turn::Quit && final(self).list() == old(
                self,
            ).list() && final(self).finished() == old(self).finished(),
            command != Some(Command::Quit) ==> {
                let moved = match command {
                    Some(c) => after_command(old(self).list(), c, page as nat),
                    None => old(self).list(),
                };
                &&& turn == Turn::Continue { ticked: elapsed >= tick_rate }
                &&& elapsed < tick_rate ==> final(self).list() == moved && final(self).finished()
                    == old(self).finished()
                &&& elapsed >= tick_rate ==> grown_from(moved, final(self).list())
                &&& old(self).finished() ==> final(self).list() == moved && final(self).finished()
            },
    {
        match command {
            Some(c) => {
                match self.perform(c, page) {
                    Flow::Quit => {
                        return Turn::Quit;
                    },
                    Flow::Continue => {},
                }
            },
            None => {},
        }
        let ticked = tick_due(tick_rate, elapsed);
        if ticked {
            self.on_tick();
        }
        Turn::Continue { ticked }
    }

    /// The title above the list: the input's name, then the position of the
    /// cursor, counted from one, and the number of records.
    pub fn title(&self) -> (text: String)
        ensures
            text@ == title_text(
                self.input(),
                position_of(self.list().cursor),
                self.list().len() as nat,
            ),
    {
        title(
            self.input_filename.as_str(),
            self.stateful_list.selected(),
            self.stateful_list.len(),
        )
    }

    /// A row for each record, in order.
    pub fn rows(&self) -> (rows: Vec<Row>)
        ensures
            rows@.len() == self.list().len(),
            forall|i: int| 0 <= i < rows@.len() ==> (#[trigger] rows@[i])@ == projection(
                self.list().items[i],
            ),
    {
        let records = self.stateful_list.items();
        let mut rows: Vec<Row> = Vec::new();
        let mut i: usize = 0;
        while i < records.len()
            invariant
                0 <= i <= records@.len(),
                records@ == self.list().items,
                rows@.len() == i,
                forall|k: int| 0 <= k < i ==> (#[trigger] rows@[k])@ == projection(records@[k]),
            decreases records@.len() - i,
        {
            rows.push(project(&records[i]));
            i += 1;
        }
        rows
    }

    /// The widget state, for the call that draws the list. It selects the
    /// cursor when it is handed out, and whatever the borrower leaves
    /// selected in it is the cursor afterwards; nothing else changes.
    pub fn state_mut(&mut self) -> (state: &mut ListState)
        ensures
            *state == old(self).state(),
            cursor_of(list_state_selected(*state)) == old(self).list().cursor,
            final(self).state() == *final(state),
            final(self).list().items == old(self).list().items,
            final(self).list().cursor == cursor_of(list_state_selected(*final(state))),
            final(self).input() == old(self).input(),
            final(self).finished() == old(self).finished(),
    {
        self.stateful_list.state_mut()
    }
}

} // verus!
