use russ::app::{App, Reply, Request, Selected, Stage};
use russ::list::StatefulList;
use russ::model::{filter_entries, Entry, Feed, Mode, ReadMode, ReaderError};
use russ::text::{render_entry, source_text, text_lines, NO_TEXT};

fn entry(id: i64, feed_id: i64, read: bool) -> Entry {
    Entry {
        id,
        feed_id,
        title: format!("E{}", id),
        content: Some(format!("<p>Entry {}</p>", id)),
        description: None,
        read,
        pub_date: None,
    }
}

fn copy(e: &Entry) -> Entry {
    Entry {
        id: e.id,
        feed_id: e.feed_id,
        title: e.title.clone(),
        content: e.content.clone(),
        description: e.description.clone(),
        read: e.read,
        pub_date: e.pub_date,
    }
}

struct FakeStore {
    feeds: Vec<(i64, String, String)>,
    entries: Vec<Entry>,
}

impl FakeStore {
    fn new(feeds: &[(i64, &str)], entries: Vec<Entry>) -> FakeStore {
        FakeStore {
            feeds: feeds
                .iter()
                .map(|(id, t)| (*id, t.to_string(), format!("http://feeds.test/{}", id)))
                .collect(),
            entries,
        }
    }

    fn perform(&mut self, req: Request) -> Result<Reply, ReaderError> {
        match req {
            Request::FeedTitles => Ok(Reply::FeedTitles(
                self.feeds.iter().map(|(id, t, _)| (*id, t.clone())).collect(),
            )),
            Request::Feed(id) => self
                .feeds
                .iter()
                .find(|f| f.0 == id)
                .map(|(id, t, u)| Reply::Feed(Feed { id: *id, title: t.clone(), url: u.clone() }))
                .ok_or(ReaderError::NotFound),
            Request::Entries(feed_id, mode) => {
                let of_feed: Vec<Entry> =
                    self.entries.iter().filter(|e| e.feed_id == feed_id).map(copy).collect();
                Ok(Reply::Entries(filter_entries(of_feed, mode)))
            }
            Request::Entry(id) => self
                .entries
                .iter()
                .find(|e| e.id == id)
                .map(|e| Reply::Entry(copy(e)))
                .ok_or(ReaderError::NotFound),
            Request::ToggleRead(id) => match self.entries.iter_mut().find(|e| e.id == id) {
                Some(e) => {
                    e.read = !e.read;
                    Ok(Reply::Done)
                }
                None => Err(ReaderError::NotFound),
            },
            Request::Subscribe(url) => {
                if !url.starts_with("http") {
                    return Err(ReaderError::InvalidInput);
                }
                let id = self.feeds.iter().map(|f| f.0).max().unwrap_or(0) + 1;
                self.feeds.push((id, url.clone(), url));
                Ok(Reply::Done)
            }
            Request::Refresh(_) => Ok(Reply::Done),
        }
    }
}

fn run(app: &mut App, store: &mut FakeStore) -> Result<(), ReaderError> {
    while app.is_busy() {
        if let Some(req) = app.step() {
            match store.perform(req) {
                Ok(reply) => assert!(app.deliver(reply)),
                Err(e) => {
                    app.abort();
                    return Err(e);
                }
            }
        }
    }
    Ok(())
}

fn started(store: &mut FakeStore) -> App {
    let mut app = App::new();
    run(&mut app, store).unwrap();
    app
}

fn entry_ids(app: &App) -> Vec<i64> {
    app.entries.items.iter().map(|e| e.id).collect()
}

#[test]
fn list_next_then_previous_round_trip() {
    let mut l = StatefulList::with_items(vec![1, 2, 3]);
    l.select(Some(1));
    l.next();
    assert_eq!(l.selected(), Some(2));
    l.previous();
    assert_eq!(l.selected(), Some(1));
    l.select(Some(2));
    l.next();
    assert_eq!(l.selected(), Some(0));
    l.previous();
    assert_eq!(l.selected(), Some(2));
    l.select(Some(0));
    l.previous();
    assert_eq!(l.selected(), Some(2));
    l.next();
    assert_eq!(l.selected(), Some(0));
}

#[test]
fn list_first_move_selects_first_row() {
    let mut l = StatefulList::with_items(vec!['a', 'b']);
    assert_eq!(l.selected(), None);
    l.previous();
    assert_eq!(l.selected(), Some(0));
    let mut m = StatefulList::with_items(vec!['a', 'b']);
    m.next();
    assert_eq!(m.selected(), Some(0));
}

#[test]
fn empty_list_moves_keep_no_selection() {
    let mut l: StatefulList<u8> = StatefulList::with_items(Vec::new());
    l.next();
    assert_eq!(l.selected(), None);
    l.previous();
    assert_eq!(l.selected(), None);
    assert!(l.is_empty());
    assert_eq!(l.len(), 0);
}

#[test]
fn start_loads_first_feed_and_unread_entries() {
    let mut store = FakeStore::new(
        &[(1, "A"), (2, "B")],
        vec![entry(10, 1, false), entry(11, 1, false), entry(12, 1, true), entry(20, 2, false)],
    );
    let app = started(&mut store);
    assert_eq!(app.feed_titles.items.len(), 2);
    assert_eq!(app.feed_titles.selected(), Some(0));
    assert_eq!(app.current_feed.as_ref().map(|f| f.id), Some(1));
    assert_eq!(entry_ids(&app), vec![10, 11]);
    assert_eq!(app.entries.selected(), Some(0));
    assert!(matches!(app.selected, Selected::Feeds));
    assert_eq!(app.read_mode, ReadMode::ShowUnread);
}

#[test]
fn start_without_feeds_has_no_entries() {
    let mut store = FakeStore::new(&[], vec![]);
    let app = started(&mut store);
    assert!(app.feed_titles.is_empty());
    assert!(app.current_feed.is_none());
    assert!(app.entries.is_empty());
    assert_eq!(app.entries.selected(), None);
}

#[test]
fn scenario_read_entry_and_back() {
    let mut store = FakeStore::new(&[(1, "A"), (2, "B")], vec![entry(10, 1, false), entry(11, 1, false)]);
    let mut app = started(&mut store);
    app.on_right().unwrap();
    run(&mut app, &mut store).unwrap();
    assert!(matches!(app.selected, Selected::Entries));
    assert_eq!(app.current_entry.as_ref().map(|e| e.id), Some(10));
    app.on_down();
    run(&mut app, &mut store).unwrap();
    assert_eq!(app.entries.selected(), Some(1));
    assert_eq!(app.entry_selection_position, 1);
    assert_eq!(app.current_entry.as_ref().map(|e| e.id), Some(11));
    app.on_enter().unwrap();
    match &app.selected {
        Selected::Entry(e) => assert_eq!(e.id, 11),
        _ => panic!("not reading an entry"),
    }
    assert_eq!(app.scroll, 0);
    assert_eq!(app.current_entry_text[0], "Entry 11\n");
    app.on_down();
    assert_eq!(app.scroll, 1);
    app.on_esc();
    assert!(matches!(app.selected, Selected::Entries));
    assert_eq!(app.scroll, 0);
    assert!(app.current_entry_text.is_empty());
}

#[test]
fn move_left_from_entry_resets_scroll() {
    let mut store = FakeStore::new(&[(1, "A")], vec![entry(10, 1, false)]);
    let mut app = started(&mut store);
    app.on_right().unwrap();
    run(&mut app, &mut store).unwrap();
    app.on_right().unwrap();
    assert!(matches!(app.selected, Selected::Entry(_)));
    app.on_down();
    app.on_down();
    assert_eq!(app.scroll, 2);
    app.on_left();
    assert!(matches!(app.selected, Selected::Entries));
    assert_eq!(app.scroll, 0);
    assert!(app.current_entry_text.is_empty());
    app.on_left();
    assert!(matches!(app.selected, Selected::Feeds));
    app.on_left();
    app.on_esc();
    assert!(matches!(app.selected, Selected::Feeds));
}

#[test]
fn scroll_never_below_zero() {
    let mut store = FakeStore::new(&[(1, "A")], vec![entry(10, 1, false)]);
    let mut app = started(&mut store);
    app.on_right().unwrap();
    run(&mut app, &mut store).unwrap();
    app.on_enter().unwrap();
    app.on_down();
    for _ in 0..5 {
        app.on_up();
    }
    assert_eq!(app.scroll, 0);
    app.on_down();
    assert_eq!(app.scroll, 1);
}

#[test]
fn scroll_stops_at_its_largest_value() {
    let mut store = FakeStore::new(&[(1, "A")], vec![entry(10, 1, false)]);
    let mut app = started(&mut store);
    app.on_right().unwrap();
    run(&mut app, &mut store).unwrap();
    app.on_enter().unwrap();
    app.scroll = u16::MAX;
    app.on_down();
    assert_eq!(app.scroll, u16::MAX);
}

#[test]
fn scenario_subscribe_adds_one_feed() {
    let mut store = FakeStore::new(&[(1, "A"), (2, "B")], vec![]);
    let mut app = started(&mut store);
    let before = app.feed_titles.items.len();
    app.input = String::from("http://example.com/feed.xml");
    app.subscribe_to_feed();
    assert_eq!(app.pending, vec![Stage::Subscribe, Stage::LoadFeedTitles]);
    run(&mut app, &mut store).unwrap();
    assert_eq!(app.feed_titles.items.len(), before + 1);
}

#[test]
fn subscribe_failure_is_reported_and_aborts() {
    let mut store = FakeStore::new(&[(1, "A")], vec![]);
    let mut app = started(&mut store);
    app.input = String::from("not a url");
    app.subscribe_to_feed();
    assert_eq!(run(&mut app, &mut store), Err(ReaderError::InvalidInput));
    assert!(!app.is_busy());
    assert_eq!(app.feed_titles.items.len(), 1);
}

#[test]
fn scenario_show_all_lists_every_entry() {
    let mut store = FakeStore::new(
        &[(1, "A")],
        vec![
            entry(1, 1, false),
            entry(2, 1, true),
            entry(3, 1, false),
            entry(4, 1, true),
            entry(5, 1, false),
        ],
    );
    let mut app = started(&mut store);
    assert_eq!(app.entries.items.len(), 3);
    app.on_down();
    run(&mut app, &mut store).unwrap();
    app.on_right().unwrap();
    run(&mut app, &mut store).unwrap();
    app.on_down();
    run(&mut app, &mut store).unwrap();
    assert_eq!(app.entries.selected(), Some(1));
    app.toggle_read_mode();
    run(&mut app, &mut store).unwrap();
    assert_eq!(app.read_mode, ReadMode::ShowAll);
    assert_eq!(app.entries.items.len(), 5);
    assert_eq!(app.entries.selected(), Some(0));
    assert_eq!(app.current_entry.as_ref().map(|e| e.id), Some(1));
}

#[test]
fn toggle_read_mode_twice_restores_filter() {
    let mut store = FakeStore::new(&[(1, "A")], vec![entry(1, 1, false), entry(2, 1, true)]);
    let mut app = started(&mut store);
    assert_eq!(entry_ids(&app), vec![1]);
    app.toggle_read_mode();
    run(&mut app, &mut store).unwrap();
    assert_eq!(entry_ids(&app), vec![1, 2]);
    app.toggle_read_mode();
    run(&mut app, &mut store).unwrap();
    assert_eq!(app.read_mode, ReadMode::ShowUnread);
    assert_eq!(entry_ids(&app), vec![1]);
}

#[test]
fn toggle_read_mode_keeps_mode_in_entry_view() {
    let mut store = FakeStore::new(&[(1, "A")], vec![entry(1, 1, false)]);
    let mut app = started(&mut store);
    app.on_right().unwrap();
    run(&mut app, &mut store).unwrap();
    app.on_enter().unwrap();
    app.toggle_read_mode();
    assert_eq!(app.read_mode, ReadMode::ShowUnread);
    assert_eq!(
        app.pending,
        vec![Stage::LoadEntries, Stage::SelectFirstEntry, Stage::LoadCurrentEntry]
    );
}

#[test]
fn toggled_read_entry_leaves_unread_list() {
    let mut store = FakeStore::new(&[(1, "A")], vec![entry(10, 1, false), entry(11, 1, false)]);
    let mut app = started(&mut store);
    app.on_right().unwrap();
    run(&mut app, &mut store).unwrap();
    app.toggle_read();
    run(&mut app, &mut store).unwrap();
    assert_eq!(entry_ids(&app), vec![11]);
    assert!(store.entries[0].read);
    assert_eq!(app.entries.selected(), Some(0));
    assert_eq!(app.current_entry.as_ref().map(|e| e.id), Some(11));
}

#[test]
fn toggle_read_in_entry_view_returns_to_list() {
    let mut store = FakeStore::new(&[(1, "A")], vec![entry(10, 1, false), entry(11, 1, false)]);
    let mut app = started(&mut store);
    app.on_right().unwrap();
    run(&mut app, &mut store).unwrap();
    app.on_down();
    run(&mut app, &mut store).unwrap();
    app.on_enter().unwrap();
    app.on_down();
    app.toggle_read();
    run(&mut app, &mut store).unwrap();
    assert!(matches!(app.selected, Selected::Entries));
    assert_eq!(app.scroll, 0);
    assert_eq!(entry_ids(&app), vec![10]);
    assert_eq!(app.entries.selected(), Some(0));
}

#[test]
fn reload_to_empty_list_selects_nothing() {
    let mut store = FakeStore::new(&[(1, "A")], vec![entry(10, 1, false)]);
    let mut app = started(&mut store);
    app.on_right().unwrap();
    run(&mut app, &mut store).unwrap();
    app.toggle_read();
    run(&mut app, &mut store).unwrap();
    assert!(app.entries.is_empty());
    assert_eq!(app.entries.selected(), None);
}

#[test]
fn refresh_plans_refresh_of_selected_feed() {
    let mut store = FakeStore::new(&[(1, "A"), (2, "B")], vec![]);
    let mut app = started(&mut store);
    app.on_down();
    run(&mut app, &mut store).unwrap();
    app.on_refresh();
    assert_eq!(app.pending, vec![Stage::Refresh(2), Stage::LoadCurrentFeed, Stage::LoadEntries]);
    run(&mut app, &mut store).unwrap();
    assert_eq!(app.current_feed.as_ref().map(|f| f.id), Some(2));
}

#[test]
fn refresh_without_feeds_does_nothing() {
    let mut app = App::new();
    app.abort();
    app.on_refresh();
    assert!(!app.is_busy());
}

#[test]
fn feed_moves_wrap_and_reload() {
    let mut store = FakeStore::new(&[(1, "A"), (2, "B")], vec![entry(20, 2, false)]);
    let mut app = started(&mut store);
    app.on_up();
    run(&mut app, &mut store).unwrap();
    assert_eq!(app.feed_titles.selected(), Some(1));
    assert_eq!(entry_ids(&app), vec![20]);
    app.on_down();
    run(&mut app, &mut store).unwrap();
    assert_eq!(app.feed_titles.selected(), Some(0));
    assert!(app.entries.is_empty());
}

#[test]
fn missing_feed_is_not_found() {
    let mut store = FakeStore::new(&[(1, "A")], vec![]);
    let mut app = started(&mut store);
    app.feed_titles = StatefulList::with_items(vec![(9, String::from("gone"))]);
    app.update_current_feed_and_entries();
    assert_eq!(run(&mut app, &mut store), Err(ReaderError::NotFound));
    assert!(!app.is_busy());
}

#[test]
fn deliver_refuses_wrong_reply() {
    let mut app = App::new();
    assert!(matches!(app.step(), Some(Request::FeedTitles)));
    assert!(!app.deliver(Reply::Done));
    assert_eq!(app.pending.len(), 3);
    assert!(app.deliver(Reply::FeedTitles(vec![])));
    assert_eq!(app.pending.len(), 2);
    app.abort();
    assert!(!app.deliver(Reply::Done));
}

#[test]
fn keys_drive_the_same_actions() {
    let mut store = FakeStore::new(&[(1, "A")], vec![entry(10, 1, false)]);
    let mut app = started(&mut store);
    app.on_key('l').unwrap();
    run(&mut app, &mut store).unwrap();
    assert!(matches!(app.selected, Selected::Entries));
    app.on_key('l').unwrap();
    assert!(matches!(app.selected, Selected::Entry(_)));
    app.on_key('j').unwrap();
    assert_eq!(app.scroll, 1);
    app.on_key('k').unwrap();
    assert_eq!(app.scroll, 0);
    app.on_key('h').unwrap();
    assert!(matches!(app.selected, Selected::Entries));
    app.on_key('a').unwrap();
    assert_eq!(app.read_mode, ReadMode::ShowAll);
    app.abort();
    app.on_key('x').unwrap();
    assert!(!app.is_busy());
    app.on_key('e').unwrap();
    assert_eq!(app.mode, Mode::Editing);
    app.on_key('q').unwrap();
    assert!(app.should_quit);
}

#[test]
fn select_feeds_moves_focus() {
    let mut store = FakeStore::new(&[(1, "A")], vec![entry(10, 1, false)]);
    let mut app = started(&mut store);
    app.on_right().unwrap();
    app.select_feeds();
    assert!(matches!(app.selected, Selected::Feeds));
}

#[test]
fn tick_wraps_after_one_whole() {
    let mut app = App::new();
    app.on_tick();
    assert_eq!(app.progress, 1);
    app.progress = 999;
    app.on_tick();
    assert_eq!(app.progress, 1000);
    app.on_tick();
    assert_eq!(app.progress, 0);
}

#[test]
fn text_lines_end_every_piece_with_newline() {
    assert_eq!(text_lines("a\nb"), vec!["a\n".to_string(), "b\n".to_string()]);
    assert_eq!(text_lines(""), vec!["\n".to_string()]);
    assert_eq!(text_lines("a\n"), vec!["a\n".to_string(), "\n".to_string()]);
    assert_eq!(text_lines("\n\n"), vec!["\n".to_string(), "\n".to_string(), "\n".to_string()]);
    assert_eq!(text_lines("héllo wörld"), vec!["héllo wörld\n".to_string()]);
}

#[test]
fn source_text_prefers_content_then_description() {
    let mut e = entry(1, 1, false);
    e.content = Some(String::from("c"));
    e.description = Some(String::from("d"));
    assert_eq!(source_text(&e), "c");
    e.content = None;
    assert_eq!(source_text(&e), "d");
    e.description = None;
    assert_eq!(source_text(&e), NO_TEXT);
    assert_eq!(NO_TEXT, "No content or description tag provided.");
}

#[test]
fn render_entry_lays_out_html() {
    let mut e = entry(1, 1, false);
    e.content = Some(String::from("<p>Hello world</p>"));
    let lines = render_entry(&e).unwrap();
    assert_eq!(lines[0], "Hello world\n");
    assert!(lines.iter().all(|l| !l.contains("<p>")));
}

#[test]
fn filter_entries_keeps_order() {
    let all = vec![entry(1, 1, true), entry(2, 1, false), entry(3, 1, false)];
    let unread = filter_entries(all.iter().map(copy).collect(), ReadMode::ShowUnread);
    assert_eq!(unread.iter().map(|e| e.id).collect::<Vec<_>>(), vec![2, 3]);
    let every = filter_entries(all, ReadMode::ShowAll);
    assert_eq!(every.iter().map(|e| e.id).collect::<Vec<_>>(), vec![1, 2, 3]);
    assert!(filter_entries(Vec::new(), ReadMode::ShowUnread).is_empty());
}

#[test]
fn read_mode_toggle_flips() {
    assert_eq!(ReadMode::ShowAll.toggle(), ReadMode::ShowUnread);
    assert_eq!(ReadMode::ShowUnread.toggle(), ReadMode::ShowAll);
}

#[test]
fn snapshot_copies_every_field() {
    let mut e = entry(7, 3, true);
    e.pub_date = Some(42);
    e.description = Some(String::from("d"));
    let s = e.snapshot();
    assert_eq!(s.id, 7);
    assert_eq!(s.feed_id, 3);
    assert_eq!(s.title, "E7");
    assert_eq!(s.content, e.content);
    assert_eq!(s.description, e.description);
    assert!(s.read);
    assert_eq!(s.pub_date, Some(42));
}
