use ncmp_rust::connections::Song;
use ncmp_rust::draw::{MenuItem, Phase, QueueTable, Screen, Step};
use ncmp_rust::drawing_utils::{Alignment, QueueEntry};
use ncmp_rust::events::{Event, Key};

fn entries(n: usize) -> Vec<QueueEntry> {
    let mut list = Vec::new();
    for i in 0..n {
        list.push(QueueEntry {
            file: format!("dir/{}.mp3", i),
            title: None,
            artist: None,
            duration: Some(65),
            tags: Vec::new(),
        });
    }
    list
}

fn table(n: usize) -> QueueTable {
    let mut t = QueueTable::new();
    t.set_items(entries(n));
    t
}

fn song(title: &str, elapsed: i64, total: i64, is_change: bool) -> Song {
    Song {
        title: title.to_string(),
        elapsed,
        total,
        state: "Playing".to_string(),
        is_change,
    }
}

#[test]
fn forward_over_three_entries() {
    let mut t = table(3);
    assert_eq!(t.selected(), None);
    t.next();
    assert_eq!(t.selected(), Some(0));
    t.next();
    assert_eq!(t.selected(), Some(1));
    t.next();
    assert_eq!(t.selected(), Some(2));
    t.next();
    assert_eq!(t.selected(), Some(0));
}

#[test]
fn back_over_three_entries() {
    let mut t = table(3);
    t.prev();
    assert_eq!(t.selected(), Some(0));
    t.prev();
    assert_eq!(t.selected(), Some(2));
    t.prev();
    assert_eq!(t.selected(), Some(1));
    t.prev();
    assert_eq!(t.selected(), Some(0));
}

#[test]
fn an_empty_queue_selects_nothing() {
    let mut t = QueueTable::new();
    t.next();
    assert_eq!(t.selected(), None);
    t.prev();
    assert_eq!(t.selected(), None);
    t.prev();
    t.next();
    assert_eq!(t.selected(), None);
    assert_eq!(t.highlight(), None);
}

#[test]
fn a_queue_that_became_empty_selects_nothing() {
    let mut t = table(3);
    t.next();
    t.next();
    t.set_items(Vec::new());
    assert_eq!(t.selected(), Some(1));
    assert_eq!(t.highlight(), None);
    t.prev();
    assert_eq!(t.selected(), None);
    let mut t = table(2);
    t.next();
    t.set_items(Vec::new());
    t.next();
    assert_eq!(t.selected(), None);
}

#[test]
fn a_single_entry_stays_selected() {
    let mut t = table(1);
    t.next();
    assert_eq!(t.selected(), Some(0));
    t.next();
    assert_eq!(t.selected(), Some(0));
    t.prev();
    assert_eq!(t.selected(), Some(0));
}

#[test]
fn a_stale_cursor_is_not_highlighted() {
    let mut t = table(5);
    for _ in 0..5 {
        t.next();
    }
    assert_eq!(t.selected(), Some(4));
    assert_eq!(t.highlight(), Some(4));
    t.set_items(entries(2));
    assert_eq!(t.selected(), Some(4));
    assert_eq!(t.highlight(), None);
    assert_eq!(t.items().len(), 2);
    t.next();
    assert_eq!(t.selected(), Some(0));
    assert_eq!(t.highlight(), Some(0));
}

#[test]
fn a_stale_cursor_steps_back_by_one() {
    let mut t = table(5);
    for _ in 0..5 {
        t.next();
    }
    t.set_items(entries(2));
    t.prev();
    assert_eq!(t.selected(), Some(3));
    assert_eq!(t.highlight(), None);
}

#[test]
fn the_views_by_number_and_name() {
    assert_eq!(usize::from(MenuItem::Home), 0);
    assert_eq!(usize::from(MenuItem::Songs), 1);
    assert_eq!(MenuItem::Home.title(), "Playlist");
    assert_eq!(MenuItem::Songs.title(), "Browse");
}

#[test]
fn the_screen_at_the_start() {
    let s = Screen::new();
    assert_eq!(s.phase, Phase::Running);
    assert_eq!(s.active_menu_item, MenuItem::Home);
    assert_eq!(s.table.selected(), None);
    assert!(s.table.items().is_empty());
    assert_eq!(s.current_total_time, "");
    assert_eq!(s.count, 0);
}

#[test]
fn two_entries_down_twice_then_quit() {
    let mut s = Screen::new();
    let (rows, shown) = s.load_queue(entries(2));
    assert_eq!(rows.len(), 2);
    assert!(shown);
    assert_eq!(s.on_event(Event::Input(Key::Down)), Step::Redraw);
    assert_eq!(s.table.selected(), Some(0));
    assert_eq!(s.on_event(Event::Input(Key::Down)), Step::Redraw);
    assert_eq!(s.table.selected(), Some(1));
    assert_eq!(s.on_event(Event::Input(Key::Down)), Step::Redraw);
    assert_eq!(s.table.selected(), Some(0));
    assert_eq!(s.on_event(Event::Input(Key::Char('q'))), Step::Restore);
    assert_eq!(s.phase, Phase::Exiting);
    assert_eq!(s.on_event(Event::Input(Key::Char('q'))), Step::Halt);
    assert_eq!(s.on_event(Event::Tick), Step::Halt);
    assert_eq!(s.phase, Phase::Exiting);
}

#[test]
fn nothing_moves_after_the_end() {
    let mut s = Screen::new();
    s.load_queue(entries(3));
    s.on_event(Event::Input(Key::Down));
    s.on_event(Event::Input(Key::Char('2')));
    s.on_event(Event::Input(Key::Char('q')));
    assert_eq!(s.on_event(Event::Input(Key::Down)), Step::Halt);
    assert_eq!(s.on_event(Event::Input(Key::Char('1'))), Step::Halt);
    assert_eq!(s.table.selected(), Some(0));
    assert_eq!(s.active_menu_item, MenuItem::Songs);
}

#[test]
fn the_number_keys_choose_the_view() {
    let mut s = Screen::new();
    assert_eq!(s.on_event(Event::Input(Key::Char('2'))), Step::Redraw);
    assert_eq!(s.active_menu_item, MenuItem::Songs);
    assert_eq!(s.header(7).0.text, "Browse");
    assert_eq!(s.on_event(Event::Input(Key::Char('1'))), Step::Redraw);
    assert_eq!(s.active_menu_item, MenuItem::Home);
    assert_eq!(s.header(7).0.text, "Playlist");
    assert_eq!(s.header(7).1.text, "Volume: 7%");
}

#[test]
fn other_keys_and_the_tick_change_nothing() {
    let mut s = Screen::new();
    s.load_queue(entries(3));
    s.on_event(Event::Input(Key::Down));
    for event in [
        Event::Tick,
        Event::Input(Key::Other),
        Event::Input(Key::Char('x')),
        Event::Input(Key::Char('Q')),
        Event::Input(Key::Char('3')),
    ] {
        assert_eq!(s.on_event(event), Step::Redraw);
        assert_eq!(s.phase, Phase::Running);
        assert_eq!(s.active_menu_item, MenuItem::Home);
        assert_eq!(s.table.selected(), Some(0));
    }
}

#[test]
fn up_on_the_screen_steps_back() {
    let mut s = Screen::new();
    s.load_queue(entries(3));
    s.on_event(Event::Input(Key::Up));
    assert_eq!(s.table.selected(), Some(0));
    s.on_event(Event::Input(Key::Up));
    assert_eq!(s.table.selected(), Some(2));
}

#[test]
fn keys_over_an_empty_queue() {
    let mut s = Screen::new();
    let (rows, shown) = s.load_queue(Vec::new());
    assert!(rows.is_empty());
    assert!(!shown);
    assert_eq!(s.on_event(Event::Input(Key::Down)), Step::Redraw);
    assert_eq!(s.table.selected(), None);
    assert_eq!(s.on_event(Event::Input(Key::Up)), Step::Redraw);
    assert_eq!(s.table.selected(), None);
}

#[test]
fn a_new_listing_keeps_the_cursor() {
    let mut s = Screen::new();
    s.load_queue(entries(3));
    s.on_event(Event::Input(Key::Down));
    s.on_event(Event::Input(Key::Down));
    let (rows, shown) = s.load_queue(entries(4));
    assert!(shown);
    assert_eq!(rows[3].title, "3");
    assert_eq!(rows[3].time, "01:05");
    assert_eq!(s.table.selected(), Some(1));
    assert_eq!(s.table.items().len(), 4);
}

#[test]
fn the_countdown_of_a_changed_song() {
    let mut s = Screen::new();
    assert_eq!(s.countdown(&song("a", 5, 65, true)), "[00:05/01:05]");
    assert_eq!(s.current_total_time, "01:05");
    assert_eq!(s.count, 2);
}

#[test]
fn the_total_is_kept_while_nothing_changes() {
    let mut s = Screen::new();
    s.countdown(&song("a", 5, 65, true));
    assert_eq!(s.countdown(&song("a", 6, 65, false)), "[00:06/01:05]");
    assert_eq!(s.countdown(&song("a", 70, 3661, false)), "[01:10/01:05]");
    assert_eq!(s.current_total_time, "01:05");
    assert_eq!(s.countdown(&song("b", 70, 3661, true)), "[00:01:10/01:01:01]");
    assert_eq!(s.count, 3);
}

#[test]
fn no_countdown_without_a_total() {
    let mut s = Screen::new();
    assert_eq!(s.countdown(&song("a", 5, 65, false)), "");
    assert_eq!(s.countdown(&song("", 0, 0, true)), "");
    s.countdown(&song("a", 5, 65, true));
    assert_eq!(s.countdown(&song("", 0, 0, true)), "");
    assert_eq!(s.count, 0);
    assert_eq!(s.current_total_time, "");
}

#[test]
fn each_side_of_the_countdown_pads_by_its_own_rule() {
    let mut s = Screen::new();
    assert_eq!(s.countdown(&song("a", 10, 10, true)), "[10/010]");
    assert_eq!(s.countdown(&song("a", 600, 610, true)), "[10:00/010:010]");
}

#[test]
fn the_status_line_of_a_song() {
    let mut s = Screen::new();
    let line = s.status_line(&song("Tune", 50, 200, true), 80);
    assert_eq!(line.bar, Some(format!("{}>", "=".repeat(19))));
    assert_eq!(line.state.text, "Playing:");
    assert!(line.state.bold && !line.state.border);
    assert_eq!(line.state.align, Alignment::Left);
    assert_eq!(line.title.text, "Tune");
    assert!(!line.title.bold && !line.title.border);
    assert_eq!(line.title.align, Alignment::Left);
    assert_eq!(line.time.text, "[00:50/03:20]");
    assert!(line.time.bold && !line.time.border);
    assert_eq!(line.time.align, Alignment::Right);
}

#[test]
fn the_status_line_without_progress() {
    let mut s = Screen::new();
    let line = s.status_line(&song("", 0, 0, true), 80);
    assert_eq!(line.bar, None);
    assert_eq!(line.time.text, "");
    let line = s.status_line(&song("Tune", 200, 200, true), 4);
    assert_eq!(line.bar, Some("===>".to_string()));
    assert_eq!(line.time.text, "[03:20/03:20]");
}
