//! The screen between two frames: which view is shown, the queue with its
//! cursor, the cached total time, and what each event does to them.

use vstd::prelude::*;
use vstd::string::StringExecFns;
use crate::connections::Song;
use crate::drawing_utils::{
    create_title, is_title, progress_bar, progress_fill, render_header, render_songs, row_shows,
    volume_text, bar_text, fill_width, Alignment, QueueEntry, Row, Title,
};
use crate::events::{Event, Key};
use crate::utils::{fmt_groups, fmt_time, group_count, groups_text, Padding};
use tui::widgets::TableState;

verus! {

/// The state that the terminal toolkit keeps for a table between two
/// frames: the selected row, and how far the table is scrolled.
#[verifier::external_type_specification]
#[verifier::external_body]
pub struct ExTableState(tui::widgets::TableState);

/// The row that a table state has selected, if any. Nothing is proved of
/// it: the three statements below say what the toolkit's `TableState` does
/// with it, and are taken on trust.
pub uninterp spec fn selected_row(state: TableState) -> Option<usize>;

/// Taken on trust: `TableState::default` gives a state with no row
/// selected.
pub assume_specification[ <TableState as Default>::default ]() -> (state: TableState)
    ensures
        selected_row(state) == None::<usize>,
;

/// Taken on trust: `TableState::selected` gives the selected row and
/// changes nothing.
pub assume_specification[ TableState::selected ](state: &TableState) -> (selected: Option<usize>)
    ensures
        selected == selected_row(*state),
;

/// Taken on trust: `TableState::select` makes `index` the selected row,
/// whatever was selected before.
pub assume_specification[ TableState::select ](state: &mut TableState, index: Option<usize>)
    ensures
        selected_row(*final(state)) == index,
;

/// The views of the screen.
#[derive(Copy, Clone, Debug, PartialEq, Eq, Structural)]
pub enum MenuItem {
    Home,
    Songs,
}

/// The position of a view among the views.
pub open spec fn menu_index(item: MenuItem) -> usize {
    match item {
        MenuItem::Home => 0,
        MenuItem::Songs => 1,
    }
}

/// The name of a view, as the header shows it.
pub open spec fn menu_title(item: MenuItem) -> Seq<char> {
    match item {
        MenuItem::Home => "Playlist"@,
        MenuItem::Songs => "Browse"@,
    }
}

impl From<MenuItem> for usize {
    fn from(input: MenuItem) -> (index: usize) {
        match input {
            MenuItem::Home => 0,
            MenuItem::Songs => 1,
        }
    }
}

impl vstd::std_specs::convert::FromSpecImpl<MenuItem> for usize {
    open spec fn obeys_from_spec() -> bool {
        true
    }

    open spec fn from_spec(input: MenuItem) -> usize {
        menu_index(input)
    }
}

impl MenuItem {
    /// The name of the view.
    pub fn title(self) -> (name: String)
        ensures
            name@ == menu_title(self),
    {
        match self {
            MenuItem::Home => String::from_str("Playlist"),
            MenuItem::Songs => String::from_str("Browse"),
        }
    }
}

/// The cursor after a step forward over a queue of `len` entries: the
/// first entry where nothing was selected or the cursor stood at the last
/// entry or beyond, else the next entry. Over an empty queue, none.
pub open spec fn next_index(selected: Option<usize>, len: nat) -> Option<usize> {
    if len == 0 {
        None
    } else {
        match selected {
            None => Some(0usize),
            Some(i) => if i >= len - 1 {
                Some(0usize)
            } else {
                Some((i + 1) as usize)
            },
        }
    }
}

/// The cursor after a step back over a queue of `len` entries: the first
/// entry where nothing was selected, the last entry where the cursor stood
/// at the first, else the entry before. Over an empty queue, none.
pub open spec fn prev_index(selected: Option<usize>, len: nat) -> Option<usize> {
    if len == 0 {
        None
    } else {
        match selected {
            None => Some(0usize),
            Some(i) => if i == 0 {
                Some((len - 1) as usize)
            } else {
                Some((i - 1) as usize)
            },
        }
    }
}

/// Whether a cursor is unset or points into a queue of `len` entries.
pub open spec fn in_range(selected: Option<usize>, len: nat) -> bool {
    match selected {
        None => true,
        Some(i) => i < len,
    }
}

/// The queue with its cursor. The cursor lives in the table state that the
/// terminal toolkit draws the table with.
pub struct QueueTable {
    pub state: TableState,
    items: Vec<QueueEntry>,
}

impl QueueTable {
    /// The entries of the queue.
    pub closed spec fn entries(&self) -> Seq<QueueEntry> {
        self.items@
    }

    /// The cursor, as it was left: it may point beyond a queue that has
    /// shrunk since.
    pub closed spec fn cursor(&self) -> Option<usize> {
        selected_row(self.state)
    }

    /// The entry to highlight: the cursor where it points into the queue.
    pub open spec fn highlighted(&self) -> Option<usize> {
        match self.cursor() {
            Some(i) if i < self.entries().len() => Some(i),
            _ => None,
        }
    }

    /// An empty queue with no selection.
    pub fn new() -> (table: QueueTable)
        ensures
            table.entries() == Seq::<QueueEntry>::empty(),
            table.cursor() == None::<usize>,
    {
        QueueTable { state: TableState::default(), items: Vec::new() }
    }

    /// Moves the cursor one entry forward, from the last entry to the
    /// first.
    pub fn next(&mut self)
        ensures
            final(self).entries() == old(self).entries(),
            final(self).cursor() == next_index(old(self).cursor(), old(self).entries().len()),
    {
        let n = self.items.len();
        let i = if n == 0 {
            None
        } else {
            match self.state.selected() {
                Some(i) => if i >= n - 1 {
                    Some(0)
                } else {
                    Some(i + 1)
                },
                None => Some(0),
            }
        };
        self.state.select(i);
    }

    /// Moves the cursor one entry back, from the first entry to the last.
    pub fn prev(&mut self)
        ensures
            final(self).entries() == old(self).entries(),
            final(self).cursor() == prev_index(old(self).cursor(), old(self).entries().len()),
    {
        let n = self.items.len();
        let i = if n == 0 {
            None
        } else {
            match self.state.selected() {
                Some(i) => if i == 0 {
                    Some(n - 1)
                } else {
                    Some(i - 1)
                },
                None => Some(0),
            }
        };
        self.state.select(i);
    }

    /// Replaces the entries by a new listing. The cursor stays as it is.
    pub fn set_items(&mut self, items: Vec<QueueEntry>)
        ensures
            final(self).entries() == items@,
            final(self).cursor() == old(self).cursor(),
    {
        self.items = items;
    }

    /// The entries of the queue.
    pub fn items(&self) -> (items: &Vec<QueueEntry>)
        ensures
            items@ == self.entries(),
    {
        &self.items
    }

    /// The cursor as it was left.
    pub fn selected(&self) -> (selected: Option<usize>)
        ensures
            selected == self.cursor(),
    {
        self.state.selected()
    }

    /// The entry to highlight, if any.
    pub fn highlight(&self) -> (selected: Option<usize>)
        ensures
            selected == self.highlighted(),
    {
        match self.state.selected() {
            Some(i) => if i < self.items.len() {
                Some(i)
            } else {
                None
            },
            None => None,
        }
    }
}

/// Over an empty queue a step in either direction leaves nothing selected.
pub proof fn lemma_empty_queue_selects_nothing(selected: Option<usize>)
    ensures
        next_index(selected, 0) == None::<usize>,
        prev_index(selected, 0) == None::<usize>,
{
}

/// Over a queue that is not empty, a step from a cursor that is unset or
/// in range selects an entry of the queue.
pub proof fn lemma_step_stays_in_range(selected: Option<usize>, len: nat)
    requires
        len > 0,
        len <= usize::MAX,
        in_range(selected, len),
    ensures
        next_index(selected, len) is Some,
        next_index(selected, len)->Some_0 < len,
        prev_index(selected, len) is Some,
        prev_index(selected, len)->Some_0 < len,
{
}

/// A step forward always selects an entry of a queue that is not empty,
/// wherever the cursor was left.
pub proof fn lemma_next_recovers(selected: Option<usize>, len: nat)
    requires
        len > 0,
        len <= usize::MAX,
    ensures
        next_index(selected, len) is Some,
        next_index(selected, len)->Some_0 < len,
{
}

/// The steps go round: from a selected entry, a step forward selects the
/// entry after it, counted modulo the length, and a step back the entry
/// before it.
pub proof fn lemma_steps_go_round(i: usize, len: nat)
    requires
        i < len,
        len <= usize::MAX,
    ensures
        next_index(Some(i), len) == Some(((i + 1) % (len as int)) as usize),
        prev_index(Some(i), len) == Some(((i + len - 1) % (len as int)) as usize),
{
    let n = len as int;
    let j = i as int;
    if j + 1 < n {
        assert((j + 1) % n == j + 1) by (nonlinear_arith)
            requires
                0 <= j + 1 < n,
        ;
    } else {
        assert((j + 1) % n == 0) by (nonlinear_arith)
            requires
                j + 1 == n,
                n > 0,
        ;
    }
    if j == 0 {
        assert((j + n - 1) % n == n - 1) by (nonlinear_arith)
            requires
                j == 0,
                n > 0,
        ;
    } else {
        assert((j + n - 1) % n == j - 1) by (nonlinear_arith)
            requires
                0 < j < n,
        ;
    }
}

/// From a selected entry, a step forward and a step back undo each other.
pub proof fn lemma_steps_undo(i: usize, len: nat)
    requires
        i < len,
        len <= usize::MAX,
    ensures
        prev_index(next_index(Some(i), len), len) == Some(i),
        next_index(prev_index(Some(i), len), len) == Some(i),
{
}

/// Whether the display is still running.
#[derive(Copy, Clone, Debug, PartialEq, Eq, Structural)]
pub enum Phase {
    Running,
    Exiting,
}

/// What is to be done after an event.
#[derive(Copy, Clone, Debug, PartialEq, Eq, Structural)]
pub enum Step {
    /// Draw the next frame.
    Redraw,
    /// Restore the terminal and stop.
    Restore,
    /// Nothing: the display has stopped.
    Halt,
}

/// The status line and the progress line of a frame.
#[derive(Clone, Debug)]
pub struct StatusLine {
    /// The progress bar; none where nothing is filled.
    pub bar: Option<String>,
    /// The transport state, at the left.
    pub state: Title,
    /// The song's title, in the middle.
    pub title: Title,
    /// Elapsed and total time, at the right.
    pub time: Title,
}

/// The text `[elapsed/total]`: the elapsed seconds in `count` groups
/// before the cached text of the total. Empty where the total is empty.
pub open spec fn countdown_text(elapsed: int, count: nat, total: Seq<char>) -> Seq<char> {
    if total.len() == 0 {
        Seq::empty()
    } else {
        seq!['['] + groups_text(elapsed, count, Padding::FromTen) + seq!['/'] + total + seq![']']
    }
}

/// The cached number of groups after a frame for `song`: that of the
/// song's total time where the song reports a change, else as before.
pub open spec fn groups_after(cached: nat, song: Song) -> nat {
    if song.is_change {
        group_count(song.total as int)
    } else {
        cached
    }
}

/// The cached text of the total time after a frame for `song`: the song's
/// total time where the song reports a change, else as before.
pub open spec fn total_after(cached: Seq<char>, song: Song) -> Seq<char> {
    if song.is_change {
        groups_text(song.total as int, group_count(song.total as int), Padding::AboveTen)
    } else {
        cached
    }
}

/// Whether an event is the press of the key `c`.
pub open spec fn is_key(event: Event<Key>, c: char) -> bool {
    event == Event::Input(Key::Char(c))
}

/// The phase after an event: `q` ends a running display.
pub open spec fn phase_after(phase: Phase, event: Event<Key>) -> Phase {
    if is_key(event, 'q') {
        Phase::Exiting
    } else {
        phase
    }
}

/// The view after an event: `1` and `2` choose it while the display runs.
pub open spec fn menu_after(phase: Phase, item: MenuItem, event: Event<Key>) -> MenuItem {
    if phase == Phase::Exiting {
        item
    } else if is_key(event, '1') {
        MenuItem::Home
    } else if is_key(event, '2') {
        MenuItem::Songs
    } else {
        item
    }
}

/// The cursor after an event: the arrows move it while the display runs.
pub open spec fn cursor_after(
    phase: Phase,
    selected: Option<usize>,
    len: nat,
    event: Event<Key>,
) -> Option<usize> {
    if phase == Phase::Exiting {
        selected
    } else if event == Event::Input(Key::Down) {
        next_index(selected, len)
    } else if event == Event::Input(Key::Up) {
        prev_index(selected, len)
    } else {
        selected
    }
}

/// What is to be done after an event: the terminal is restored when `q`
/// ends a running display, and only then.
pub open spec fn step_of(phase: Phase, event: Event<Key>) -> Step {
    if phase == Phase::Exiting {
        Step::Halt
    } else if is_key(event, 'q') {
        Step::Restore
    } else {
        Step::Redraw
    }
}

/// The screen between two frames.
pub struct Screen {
    pub phase: Phase,
    pub active_menu_item: MenuItem,
    pub table: QueueTable,
    /// The text of the total time, as last formatted.
    pub current_total_time: String,
    /// The number of groups of the total time, as last counted.
    pub count: usize,
}

impl Screen {
    /// The cached text of the total time.
    pub open spec fn total_text(&self) -> Seq<char> {
        self.current_total_time@
    }

    /// The cached number of groups of the total time.
    pub open spec fn total_groups(&self) -> nat {
        self.count as nat
    }

    /// The screen at the start: running, on the first view, with an empty
    /// queue, nothing selected and no total time.
    pub fn new() -> (screen: Screen)
        ensures
            screen.phase == Phase::Running,
            screen.active_menu_item == MenuItem::Home,
            screen.table.entries() == Seq::<QueueEntry>::empty(),
            screen.table.cursor() == None::<usize>,
            screen.total_text() == Seq::<char>::empty(),
            screen.total_groups() == 0,
    {
        Screen {
            phase: Phase::Running,
            active_menu_item: MenuItem::Home,
            table: QueueTable::new(),
            current_total_time: String::new(),
            count: 0,
        }
    }

    /// The header of the frame: the name of the view and the volume.
    pub fn header(&self, volume: i8) -> (header: (Title, Title))
        ensures
            is_title(header.0, menu_title(self.active_menu_item), true, Alignment::Left, true),
            is_title(header.1, volume_text(volume), true, Alignment::Right, false),
    {
        let name = self.active_menu_item.title();
        render_header(name.as_str(), volume)
    }

    /// Takes a new listing of the queue and gives the rows of the table.
    /// The second part of the result says whether the rest of the frame is
    /// drawn: it is not while the queue is empty.
    pub fn load_queue(&mut self, queue: Vec<QueueEntry>) -> (r: (Vec<Row>, bool))
        ensures
            final(self).table.entries() == queue@,
            final(self).table.cursor() == old(self).table.cursor(),
            final(self).phase == old(self).phase,
            final(self).active_menu_item == old(self).active_menu_item,
            final(self).total_text() == old(self).total_text(),
            final(self).total_groups() == old(self).total_groups(),
            r.0@.len() == queue@.len(),
            forall|i: int| 0 <= i < queue@.len() ==> row_shows(#[trigger] r.0@[i], queue@[i]),
            r.1 == (queue@.len() > 0),
    {
        let rows = render_songs(&queue);
        let shown = queue.len() > 0;
        self.table.set_items(queue);
        (rows, shown)
    }

    /// The text of the countdown for `song`. Where the song reports a
    /// change, the total time is formatted anew and cached with its number
    /// of groups; else the cache stays. The elapsed time is always written
    /// anew, in as many groups as the cache says.
    pub fn countdown(&mut self, song: &Song) -> (text: String)
        ensures
            final(self).phase == old(self).phase,
            final(self).active_menu_item == old(self).active_menu_item,
            final(self).table == old(self).table,
            final(self).total_groups() == groups_after(old(self).total_groups(), *song),
            final(self).total_text() == total_after(old(self).total_text(), *song),
            text@ == countdown_text(
                song.elapsed as int,
                final(self).total_groups(),
                final(self).total_text(),
            ),
    {
        if song.is_change {
            let (count, total) = fmt_time(song.total);
            self.count = count;
            self.current_total_time = total;
        }
        let mut text = String::new();
        if !self.current_total_time.as_str().is_empty() {
            let elapsed = fmt_groups(song.elapsed, self.count, Padding::FromTen);
            text.push('[');
            text.append(elapsed.as_str());
            text.push('/');
            text.append(self.current_total_time.as_str());
            text.push(']');
            assert(text@ =~= countdown_text(
                song.elapsed as int,
                self.total_groups(),
                self.total_text(),
            ));
        }
        text
    }

    /// The status line and the progress line for `song` on a screen of
    /// `width` cells.
    pub fn status_line(&mut self, song: &Song, width: u16) -> (line: StatusLine)
        ensures
            final(self).phase == old(self).phase,
            final(self).active_menu_item == old(self).active_menu_item,
            final(self).table == old(self).table,
            final(self).total_groups() == groups_after(old(self).total_groups(), *song),
            final(self).total_text() == total_after(old(self).total_text(), *song),
            is_title(line.state, song.state@ + seq![':'], false, Alignment::Left, true),
            is_title(line.title, song.title@, false, Alignment::Left, false),
            is_title(
                line.time,
                countdown_text(
                    song.elapsed as int,
                    final(self).total_groups(),
                    final(self).total_text(),
                ),
                false,
                Alignment::Right,
                true,
            ),
            bar_shows(line.bar, fill_width(song.elapsed as int, song.total as int, width as int)),
    {
        let bar = progress_bar(progress_fill(song.elapsed, song.total, width));
        let mut label = song.state.clone();
        label.push(':');
        assert(label@ =~= song.state@ + seq![':']);
        let time = self.countdown(song);
        StatusLine {
            bar,
            state: create_title(label.as_str(), false, Alignment::Left, true),
            title: create_title(song.title.as_str(), false, Alignment::Left, false),
            time: create_title(time.as_str(), false, Alignment::Right, true),
        }
    }

    /// What an event does to the screen. While the display runs, `q` ends
    /// it, and the terminal is then to be restored; the arrows move the
    /// cursor; `1` and `2` choose the view; every other key and the tick
    /// change nothing. Once the display has ended, nothing changes any
    /// more.
    pub fn on_event(&mut self, event: Event<Key>) -> (step: Step)
        ensures
            final(self).phase == phase_after(old(self).phase, event),
            final(self).active_menu_item == menu_after(
                old(self).phase,
                old(self).active_menu_item,
                event,
            ),
            final(self).table.entries() == old(self).table.entries(),
            final(self).table.cursor() == cursor_after(
                old(self).phase,
                old(self).table.cursor(),
                old(self).table.entries().len(),
                event,
            ),
            final(self).total_text() == old(self).total_text(),
            final(self).total_groups() == old(self).total_groups(),
            step == step_of(old(self).phase, event),
    {
        match self.phase {
            Phase::Exiting => Step::Halt,
            Phase::Running => {
                match event {
                    Event::Input(Key::Char(c)) => {
                        if c == 'q' {
                            self.phase = Phase::Exiting;
                            return Step::Restore;
                        } else if c == '1' {
                            self.active_menu_item = MenuItem::Home;
                        } else if c == '2' {
                            self.active_menu_item = MenuItem::Songs;
                        }
                    },
                    Event::Input(Key::Down) => {
                        self.table.next();
                    },
                    Event::Input(Key::Up) => {
                        self.table.prev();
                    },
                    _ => {},
                }
                Step::Redraw
            },
        }
    }
}

/// Whether `bar` is the progress bar for a fill of `fill` cells, which
/// counts as the largest `usize` where it is beyond that.
pub open spec fn bar_shows(bar: Option<String>, fill: int) -> bool {
    if fill <= 0 {
        bar is None
    } else if fill <= usize::MAX {
        bar is Some && bar->Some_0@ == bar_text(fill as nat)
    } else {
        bar is Some && bar->Some_0@ == bar_text(usize::MAX as nat)
    }
}

} // verus!
