use vstd::prelude::*;
use crate::list::{StatefulList, next_index, previous_index};
use crate::model::{Entry, Feed, Mode, ReadMode, ReaderError, toggled};
use crate::text::{display_lines, entry_source, html_as_text, render_entry, TEXT_WIDTH};

verus! {

/// The panel that has focus.
#[derive(Debug)]
pub enum Selected {
    Feeds,
    Entries,
    /// Reading one entry, a copy of it taken on the way in.
    Entry(Entry),
}

/// One step of a transition that is still to run. A transition that needs
/// the store is a plan of stages, run in order by `step` and `deliver`.
#[derive(Clone, Copy, Debug, PartialEq, Eq, Structural)]
pub enum Stage {
    /// Reload the feed titles.
    LoadFeedTitles,
    /// Reload the feed that the title list selects.
    LoadCurrentFeed,
    /// Reload the entries of the current feed under the read mode.
    LoadEntries,
    /// Reload the entry that the entry list selects.
    LoadCurrentEntry,
    /// Select the first entry, or nothing in an empty list.
    SelectFirstEntry,
    /// Leave the entry view for the entry list.
    ReturnToEntries,
    /// Flip the read flag of the entry with this id.
    ToggleRead(i64),
    /// Subscribe to the feed at the URL in the input line.
    Subscribe,
    /// Fetch new entries of the feed with this id.
    Refresh(i64),
}

/// A call that the store is asked to make.
#[derive(Debug)]
pub enum Request {
    FeedTitles,
    Feed(i64),
    Entries(i64, ReadMode),
    Entry(i64),
    ToggleRead(i64),
    Subscribe(String),
    Refresh(i64),
}

/// What the store answered.
#[derive(Debug)]
pub enum Reply {
    FeedTitles(Vec<(i64, String)>),
    Feed(Feed),
    Entries(Vec<Entry>),
    Entry(Entry),
    /// A call that returns nothing has completed.
    Done,
}

/// The row selected after the entry list is reloaded: the remembered row
/// where it still exists, else the last row, else none.
pub open spec fn restored_selection(pos: usize, len: nat) -> Option<usize> {
    if pos < len {
        Some(pos)
    } else if len > 0 {
        Some((len - 1) as usize)
    } else {
        None
    }
}

fn restore_selection(pos: usize, len: usize) -> (r: Option<usize>)
    ensures
        r == restored_selection(pos, len as nat),
{
    if pos < len {
        Some(pos)
    } else if len > 0 {
        Some(len - 1)
    } else {
        None
    }
}

/// The navigation state of the reader.
pub struct App {
    pub should_quit: bool,
    /// Progress of the decorative tick, in thousandths.
    pub progress: u16,
    pub error_flash: Option<ReaderError>,
    pub feed_titles: StatefulList<(i64, String)>,
    pub entries: StatefulList<Entry>,
    pub selected: Selected,
    pub scroll: u16,
    pub current_entry: Option<Entry>,
    pub current_entry_text: Vec<String>,
    pub current_feed: Option<Feed>,
    pub input: String,
    pub mode: Mode,
    pub read_mode: ReadMode,
    /// The entry row to come back to after the entry list is reloaded.
    pub entry_selection_position: usize,
    /// What remains of the transition in progress.
    pub pending: Vec<Stage>,
}

impl App {
    /// Both selections point at rows that exist.
    pub open spec fn wf(&self) -> bool {
        self.feed_titles.wf() && self.entries.wf()
    }

    /// The state `t` that `step` leaves from `s`, and the request `r` it
    /// hands out.
    pub open spec fn step_post(s: App, t: App, r: Option<Request>) -> bool {
        if s.pending@.len() == 0 {
            r is None && t == s
        } else {
            let rest = s.pending@.drop_first();
            match s.pending@[0] {
                Stage::LoadFeedTitles => r == Some(Request::FeedTitles) && t == s,
                Stage::LoadCurrentFeed => if s.feed_titles.items@.len() == 0 {
                    &&& r is None
                    &&& t == (App { current_feed: None, pending: t.pending, ..s })
                    &&& t.pending@ == rest
                } else {
                    let sel: usize = match s.feed_titles.selected {
                        Some(i) => i,
                        None => 0,
                    };
                    &&& r == Some(Request::Feed(s.feed_titles.items@[sel as int].0))
                    &&& t == (App {
                        feed_titles: StatefulList { items: s.feed_titles.items, selected: Some(sel) },
                        ..s
                    })
                },
                Stage::LoadEntries => match s.current_feed {
                    Some(f) => r == Some(Request::Entries(f.id, s.read_mode)) && t == s,
                    None => {
                        &&& r is None
                        &&& t == (App { entries: t.entries, pending: t.pending, ..s })
                        &&& t.entries.items@.len() == 0
                        &&& t.entries.selected is None
                        &&& t.pending@ == rest
                    },
                },
                Stage::LoadCurrentEntry => match s.entries.selected {
                    Some(i) if i < s.entries.items@.len() => {
                        r == Some(Request::Entry(s.entries.items@[i as int].id)) && t == s
                    },
                    _ => r is None && t == (App { pending: t.pending, ..s }) && t.pending@ == rest,
                },
                Stage::SelectFirstEntry => {
                    let first = if s.entries.items@.len() > 0 { Some(0usize) } else { None };
                    &&& r is None
                    &&& t == (App {
                        entries: StatefulList { items: s.entries.items, selected: first },
                        pending: t.pending,
                        ..s
                    })
                    &&& t.pending@ == rest
                },
                Stage::ReturnToEntries => {
                    &&& r is None
                    &&& t == (App {
                        selected: Selected::Entries,
                        scroll: 0,
                        current_entry_text: t.current_entry_text,
                        pending: t.pending,
                        ..s
                    })
                    &&& t.current_entry_text@.len() == 0
                    &&& t.pending@ == rest
                },
                Stage::ToggleRead(id) => r == Some(Request::ToggleRead(id)) && t == s,
                Stage::Subscribe => {
                    &&& r matches Some(Request::Subscribe(url))
                    &&& r->Some_0->Subscribe_0@ == s.input@
                    &&& t == s
                },
                Stage::Refresh(id) => r == Some(Request::Refresh(id)) && t == s,
            }
        }
    }

    /// Whether `reply` answers the stage that runs first.
    pub open spec fn answers(s: App, reply: Reply) -> bool {
        s.pending@.len() > 0 && match (s.pending@[0], reply) {
            (Stage::LoadFeedTitles, Reply::FeedTitles(_)) => true,
            (Stage::LoadCurrentFeed, Reply::Feed(_)) => true,
            (Stage::LoadEntries, Reply::Entries(_)) => true,
            (Stage::LoadCurrentEntry, Reply::Entry(_)) => true,
            (Stage::ToggleRead(_), Reply::Done) => true,
            (Stage::Subscribe, Reply::Done) => true,
            (Stage::Refresh(_), Reply::Done) => true,
            _ => false,
        }
    }

    /// The state `t` that `deliver` leaves from `s` once `reply` answers
    /// its first stage.
    pub open spec fn deliver_post(s: App, t: App, reply: Reply) -> bool {
        &&& t.pending@ == s.pending@.drop_first()
        &&& match reply {
            Reply::FeedTitles(v) => t == (App {
                feed_titles: StatefulList { items: v, selected: None },
                pending: t.pending,
                ..s
            }),
            Reply::Feed(f) => t == (App { current_feed: Some(f), pending: t.pending, ..s }),
            Reply::Entries(v) => t == (App {
                entries: StatefulList {
                    items: v,
                    selected: restored_selection(s.entry_selection_position, v@.len()),
                },
                pending: t.pending,
                ..s
            }),
            Reply::Entry(e) => t == (App { current_entry: Some(e), pending: t.pending, ..s }),
            Reply::Done => t == (App { pending: t.pending, ..s }),
        }
    }

    /// A reader on the feed list, showing unread entries, that first loads
    /// the feed titles, then the first feed and its entries.
    pub fn new() -> (r: App)
        ensures
            r.wf(),
            !r.should_quit,
            r.progress == 0,
            r.error_flash is None,
            r.feed_titles.items@.len() == 0,
            r.feed_titles.selected is None,
            r.entries.items@.len() == 0,
            r.entries.selected is None,
            r.selected is Feeds,
            r.scroll == 0,
            r.current_entry is None,
            r.current_entry_text@.len() == 0,
            r.current_feed is None,
            r.input@.len() == 0,
            r.mode == Mode::Normal,
            r.read_mode == ReadMode::ShowUnread,
            r.entry_selection_position == 0,
            r.pending@ == seq![Stage::LoadFeedTitles, Stage::LoadCurrentFeed, Stage::LoadEntries],
    {
        let r = App {
            should_quit: false,
            progress: 0,
            error_flash: None,
            feed_titles: StatefulList::with_items(Vec::new()),
            entries: StatefulList::with_items(Vec::new()),
            selected: Selected::Feeds,
            scroll: 0,
            current_entry: None,
            current_entry_text: Vec::new(),
            current_feed: None,
            input: String::new(),
            mode: Mode::Normal,
            read_mode: ReadMode::ShowUnread,
            entry_selection_position: 0,
            pending: vec![Stage::LoadFeedTitles, Stage::LoadCurrentFeed, Stage::LoadEntries],
        };
        proof {
            assert(r.pending@ =~= seq![Stage::LoadFeedTitles, Stage::LoadCurrentFeed, Stage::LoadEntries]);
        }
        r
    }

    /// Whether a transition still has stages to run.
    pub fn is_busy(&self) -> (r: bool)
        ensures
            r == (self.pending@.len() > 0),
    {
        self.pending.len() > 0
    }

    fn finish_stage(&mut self)
        requires
            old(self).pending@.len() > 0,
        ensures
            *final(self) == (App { pending: final(self).pending, ..*old(self) }),
            final(self).pending@ == old(self).pending@.drop_first(),
    {
        self.pending.remove(0);
        proof {
            assert(self.pending@ =~= old(self).pending@.drop_first());
        }
    }

    /// Runs the first stage of the transition in progress: a stage that the
    /// store must answer is handed out as a request and stays first until
    /// `deliver` brings the answer; any other is carried out and removed.
    pub fn step(&mut self) -> (r: Option<Request>)
        requires
            old(self).wf(),
        ensures
            final(self).wf(),
            Self::step_post(*old(self), *final(self), r),
    {
        if self.pending.len() == 0 {
            return None;
        }
        match self.pending[0] {
            Stage::LoadFeedTitles => Some(Request::FeedTitles),
            Stage::LoadCurrentFeed => {
                if self.feed_titles.is_empty() {
                    self.current_feed = None;
                    self.finish_stage();
                    None
                } else {
                    let sel: usize = match self.feed_titles.selected {
                        Some(i) => i,
                        None => 0,
                    };
                    self.feed_titles.select(Some(sel));
                    Some(Request::Feed(self.feed_titles.items[sel].0))
                }
            },
            Stage::LoadEntries => {
                match &self.current_feed {
                    Some(f) => Some(Request::Entries(f.id, self.read_mode)),
                    None => {
                        let sel = restore_selection(self.entry_selection_position, 0);
                        self.entries = StatefulList { items: Vec::new(), selected: sel };
                        self.finish_stage();
                        None
                    },
                }
            },
            Stage::LoadCurrentEntry => {
                match self.entries.selected {
                    Some(i) => {
                        if i < self.entries.items.len() {
                            Some(Request::Entry(self.entries.items[i].id))
                        } else {
                            self.finish_stage();
                            None
                        }
                    },
                    None => {
                        self.finish_stage();
                        None
                    },
                }
            },
            Stage::SelectFirstEntry => {
                if self.entries.is_empty() {
                    self.entries.select(None);
                } else {
                    self.entries.select(Some(0));
                }
                self.finish_stage();
                None
            },
            Stage::ReturnToEntries => {
                self.selected = Selected::Entries;
                self.scroll = 0;
                self.current_entry_text = Vec::new();
                self.finish_stage();
                None
            },
            Stage::ToggleRead(id) => Some(Request::ToggleRead(id)),
            Stage::Subscribe => Some(Request::Subscribe(self.input.clone())),
            Stage::Refresh(id) => Some(Request::Refresh(id)),
        }
    }

    /// Hands the store's answer to the first stage. An answer of the wrong
    /// kind, or with no stage waiting, is refused and changes nothing.
    pub fn deliver(&mut self, reply: Reply) -> (ok: bool)
        requires
            old(self).wf(),
        ensures
            final(self).wf(),
            ok == Self::answers(*old(self), reply),
            ok ==> Self::deliver_post(*old(self), *final(self), reply),
            !ok ==> *final(self) == *old(self),
    {
        if self.pending.len() == 0 {
            return false;
        }
        let stage = self.pending[0];
        match (stage, reply) {
            (Stage::LoadFeedTitles, Reply::FeedTitles(v)) => {
                self.feed_titles = StatefulList::with_items(v);
            },
            (Stage::LoadCurrentFeed, Reply::Feed(f)) => {
                self.current_feed = Some(f);
            },
            (Stage::LoadEntries, Reply::Entries(v)) => {
                let sel = restore_selection(self.entry_selection_position, v.len());
                self.entries = StatefulList { items: v, selected: sel };
            },
            (Stage::LoadCurrentEntry, Reply::Entry(e)) => {
                self.current_entry = Some(e);
            },
            (Stage::ToggleRead(_), Reply::Done) => {},
            (Stage::Subscribe, Reply::Done) => {},
            (Stage::Refresh(_), Reply::Done) => {},
            _ => {
                return false;
            },
        }
        self.finish_stage();
        true
    }

    /// Drops what remains of the transition in progress, after the store
    /// failed; what the transition already changed stays changed.
    pub fn abort(&mut self)
        ensures
            *final(self) == (App { pending: final(self).pending, ..*old(self) }),
            final(self).pending@.len() == 0,
    {
        self.pending = Vec::new();
    }
}

impl App {
    /// The state `t` that a move up leaves from `s`.
    pub open spec fn up_post(s: App, t: App) -> bool {
        match s.selected {
            Selected::Feeds => {
                &&& t == (App {
                    feed_titles: StatefulList {
                        items: s.feed_titles.items,
                        selected: previous_index(s.feed_titles.selected, s.feed_titles.items@.len()),
                    },
                    pending: t.pending,
                    ..s
                })
                &&& t.pending@ == seq![Stage::LoadCurrentFeed, Stage::LoadEntries]
            },
            Selected::Entries => if s.entries.items@.len() == 0 {
                t == s
            } else {
                let sel = previous_index(s.entries.selected, s.entries.items@.len());
                &&& t == (App {
                    entries: StatefulList { items: s.entries.items, selected: sel },
                    entry_selection_position: sel->Some_0,
                    pending: t.pending,
                    ..s
                })
                &&& t.pending@ == seq![Stage::LoadCurrentEntry]
            },
            Selected::Entry(_) => t == (App {
                scroll: if s.scroll > 0 { (s.scroll - 1) as u16 } else { 0 },
                ..s
            }),
        }
    }

    /// The state `t` that a move down leaves from `s`.
    pub open spec fn down_post(s: App, t: App) -> bool {
        match s.selected {
            Selected::Feeds => {
                &&& t == (App {
                    feed_titles: StatefulList {
                        items: s.feed_titles.items,
                        selected: next_index(s.feed_titles.selected, s.feed_titles.items@.len()),
                    },
                    pending: t.pending,
                    ..s
                })
                &&& t.pending@ == seq![Stage::LoadCurrentFeed, Stage::LoadEntries]
            },
            Selected::Entries => if s.entries.items@.len() == 0 {
                t == s
            } else {
                let sel = next_index(s.entries.selected, s.entries.items@.len());
                &&& t == (App {
                    entries: StatefulList { items: s.entries.items, selected: sel },
                    entry_selection_position: sel->Some_0,
                    pending: t.pending,
                    ..s
                })
                &&& t.pending@ == seq![Stage::LoadCurrentEntry]
            },
            Selected::Entry(_) => t == (App {
                scroll: if s.scroll < u16::MAX { (s.scroll + 1) as u16 } else { s.scroll },
                ..s
            }),
        }
    }

    /// `t` is `s` back on the entry list, with the entry's text dropped and
    /// the scroll reset.
    pub open spec fn left_entry(s: App, t: App) -> bool {
        &&& t == (App {
            selected: Selected::Entries,
            scroll: 0,
            current_entry_text: t.current_entry_text,
            ..s
        })
        &&& t.current_entry_text@.len() == 0
    }

    /// The state `t` that a move left leaves from `s`.
    pub open spec fn left_post(s: App, t: App) -> bool {
        match s.selected {
            Selected::Feeds => t == s,
            Selected::Entries => t == (App { selected: Selected::Feeds, ..s }),
            Selected::Entry(_) => Self::left_entry(s, t),
        }
    }

    /// The state `t` that escape leaves from `s`.
    pub open spec fn esc_post(s: App, t: App) -> bool {
        match s.selected {
            Selected::Entry(_) => Self::left_entry(s, t),
            _ => t == s,
        }
    }

    /// Whether `s` can open its current entry: it is on a non-empty entry
    /// list with a current entry.
    pub open spec fn can_open(s: App) -> bool {
        &&& s.selected is Entries
        &&& s.entries.items@.len() > 0
        &&& s.current_entry is Some
    }

    /// `t` is `s` reading a copy of its current entry, shown as `lines`.
    pub open spec fn opened(s: App, t: App, lines: Seq<Seq<char>>) -> bool {
        &&& t == (App {
            selected: t.selected,
            current_entry_text: t.current_entry_text,
            ..s
        })
        &&& t.current_entry_text@.map_values(|l: String| l@) == lines
        &&& t.selected matches Selected::Entry(snap)
        &&& t.selected->Entry_0.same_as(&s.current_entry->Some_0)
    }

    /// The state `t` and result `r` that confirming leaves from `s`.
    pub open spec fn enter_post(s: App, t: App, r: Result<(), ReaderError>) -> bool {
        if Self::can_open(s) {
            let laid_out = html_as_text(entry_source(&s.current_entry->Some_0), TEXT_WIDTH);
            &&& r is Ok <==> laid_out is Some
            &&& r is Ok ==> Self::opened(s, t, display_lines(laid_out->Some_0))
            &&& r is Err ==> r == Err::<(), ReaderError>(ReaderError::Render) && t == s
        } else {
            r is Ok && t == s
        }
    }

    /// The state `t` and result `r` that a move right leaves from `s`.
    pub open spec fn right_post(s: App, t: App, r: Result<(), ReaderError>) -> bool {
        match s.selected {
            Selected::Feeds => {
                &&& r is Ok
                &&& if s.entries.items@.len() == 0 {
                    t == s
                } else {
                    &&& t == (App {
                        selected: Selected::Entries,
                        entries: StatefulList { items: s.entries.items, selected: Some(0) },
                        pending: t.pending,
                        ..s
                    })
                    &&& t.pending@ == seq![Stage::LoadCurrentEntry]
                }
            },
            Selected::Entries => Self::enter_post(s, t, r),
            Selected::Entry(_) => r is Ok && t == s,
        }
    }

    /// `t` is `s` with `plan` as the transition in progress.
    pub open spec fn planned(s: App, t: App, plan: Seq<Stage>) -> bool {
        t == (App { pending: t.pending, ..s }) && t.pending@ == plan
    }

    fn plan(&mut self, stages: Vec<Stage>)
        ensures
            Self::planned(*old(self), *final(self), stages@),
    {
        self.pending = stages;
    }

    /// Moves up: to the previous feed, then reloads it and its entries; to the
    /// previous entry, then reloads it; or scrolls the entry's text up a line.
    pub fn on_up(&mut self)
        requires
            old(self).wf(),
        ensures
            final(self).wf(),
            Self::up_post(*old(self), *final(self)),
    {
        match &self.selected {
            Selected::Feeds => {
                self.feed_titles.previous();
                self.plan(vec![Stage::LoadCurrentFeed, Stage::LoadEntries]);
                proof {
                    assert(self.pending@ =~= seq![Stage::LoadCurrentFeed, Stage::LoadEntries]);
                }
            },
            Selected::Entries => {
                if !self.entries.is_empty() {
                    self.entries.previous();
                    self.entry_selection_position = match self.entries.selected {
                        Some(i) => i,
                        None => 0,
                    };
                    self.plan(vec![Stage::LoadCurrentEntry]);
                    proof {
                        assert(self.pending@ =~= seq![Stage::LoadCurrentEntry]);
                    }
                }
            },
            Selected::Entry(_) => {
                if self.scroll > 0 {
                    self.scroll = self.scroll - 1;
                }
            },
        }
    }

    /// Moves down: to the next feed, then reloads it and its entries; to the
    /// next entry, then reloads it; or scrolls the entry's text down a line.
    pub fn on_down(&mut self)
        requires
            old(self).wf(),
        ensures
            final(self).wf(),
            Self::down_post(*old(self), *final(self)),
    {
        match &self.selected {
            Selected::Feeds => {
                self.feed_titles.next();
                self.plan(vec![Stage::LoadCurrentFeed, Stage::LoadEntries]);
                proof {
                    assert(self.pending@ =~= seq![Stage::LoadCurrentFeed, Stage::LoadEntries]);
                }
            },
            Selected::Entries => {
                if !self.entries.is_empty() {
                    self.entries.next();
                    self.entry_selection_position = match self.entries.selected {
                        Some(i) => i,
                        None => 0,
                    };
                    self.plan(vec![Stage::LoadCurrentEntry]);
                    proof {
                        assert(self.pending@ =~= seq![Stage::LoadCurrentEntry]);
                    }
                }
            },
            Selected::Entry(_) => {
                if self.scroll < u16::MAX {
                    self.scroll = self.scroll + 1;
                }
            },
        }
    }

    /// Goes back one panel: from the entry to the entry list, from the entry
    /// list to the feeds.
    pub fn on_left(&mut self)
        requires
            old(self).wf(),
        ensures
            final(self).wf(),
            Self::left_post(*old(self), *final(self)),
    {
        match &self.selected {
            Selected::Feeds => {},
            Selected::Entries => {
                self.selected = Selected::Feeds;
            },
            Selected::Entry(_) => {
                self.scroll = 0;
                self.current_entry_text = Vec::new();
                self.selected = Selected::Entries;
            },
        }
    }

    /// Leaves the entry view for the entry list.
    pub fn on_esc(&mut self)
        requires
            old(self).wf(),
        ensures
            final(self).wf(),
            Self::esc_post(*old(self), *final(self)),
    {
        match &self.selected {
            Selected::Entry(_) => {
                self.scroll = 0;
                self.current_entry_text = Vec::new();
                self.selected = Selected::Entries;
            },
            _ => {},
        }
    }

    /// Opens the current entry, laid out as `lines`.
    pub fn show_entry(&mut self, lines: Vec<String>)
        requires
            Self::can_open(*old(self)),
            old(self).wf(),
        ensures
            final(self).wf(),
            Self::opened(*old(self), *final(self), lines@.map_values(|l: String| l@)),
            final(self).current_entry_text == lines,
    {
        let snap = match &self.current_entry {
            Some(e) => e.snapshot(),
            None => {
                return;
            },
        };
        self.selected = Selected::Entry(snap);
        self.current_entry_text = lines;
    }

    /// Opens the current entry: lays out its text and reads a copy of it.
    pub fn on_enter(&mut self) -> (r: Result<(), ReaderError>)
        requires
            old(self).wf(),
        ensures
            final(self).wf(),
            Self::enter_post(*old(self), *final(self), r),
    {
        let on_list = match &self.selected {
            Selected::Entries => true,
            _ => false,
        };
        if !on_list || self.entries.is_empty() {
            return Ok(());
        }
        let lines = match &self.current_entry {
            Some(e) => render_entry(e)?,
            None => {
                return Ok(());
            },
        };
        self.show_entry(lines);
        Ok(())
    }

    /// Goes one panel further: from the feeds to the first entry, from the
    /// entry list into the current entry.
    pub fn on_right(&mut self) -> (r: Result<(), ReaderError>)
        requires
            old(self).wf(),
        ensures
            final(self).wf(),
            Self::right_post(*old(self), *final(self), r),
    {
        match &self.selected {
            Selected::Feeds => {
                if !self.entries.is_empty() {
                    self.selected = Selected::Entries;
                    self.entries.select(Some(0));
                    self.plan(vec![Stage::LoadCurrentEntry]);
                    proof {
                        assert(self.pending@ =~= seq![Stage::LoadCurrentEntry]);
                    }
                }
                Ok(())
            },
            Selected::Entries => self.on_enter(),
            Selected::Entry(_) => Ok(()),
        }
    }
}

impl App {
    /// The state `t` that toggling the read flag leaves from `s`.
    pub open spec fn toggle_read_post(s: App, t: App) -> bool {
        match s.selected {
            Selected::Entry(e) => Self::planned(s, t, seq![
                Stage::ToggleRead(e.id),
                Stage::LoadEntries,
                Stage::LoadCurrentEntry,
                Stage::ReturnToEntries,
            ]),
            Selected::Entries => match s.current_entry {
                Some(e) => Self::planned(s, t, seq![
                    Stage::ToggleRead(e.id),
                    Stage::LoadEntries,
                    Stage::LoadCurrentEntry,
                ]),
                None => t == s,
            },
            Selected::Feeds => t == s,
        }
    }

    /// The state `t` that switching the read mode leaves from `s`: the mode
    /// changes on the two lists, not in the entry view.
    pub open spec fn toggle_read_mode_post(s: App, t: App) -> bool {
        &&& t == (App {
            read_mode: if s.selected is Entry { s.read_mode } else { toggled(s.read_mode) },
            pending: t.pending,
            ..s
        })
        &&& t.pending@ == seq![Stage::LoadEntries, Stage::SelectFirstEntry, Stage::LoadCurrentEntry]
    }

    /// The state `t` that a refresh leaves from `s`.
    pub open spec fn refresh_post(s: App, t: App) -> bool {
        match s.feed_titles.selected {
            Some(i) => Self::planned(s, t, seq![
                Stage::Refresh(s.feed_titles.items@[i as int].0),
                Stage::LoadCurrentFeed,
                Stage::LoadEntries,
            ]),
            None => t == s,
        }
    }

    /// The state `t` and result `r` that the key `c` leaves from `s`.
    pub open spec fn key_post(s: App, t: App, c: char, r: Result<(), ReaderError>) -> bool {
        if c == 'l' {
            Self::right_post(s, t, r)
        } else {
            &&& r is Ok
            &&& if c == 'q' {
                t == (App { should_quit: true, ..s })
            } else if c == 'h' {
                Self::left_post(s, t)
            } else if c == 'j' {
                Self::down_post(s, t)
            } else if c == 'k' {
                Self::up_post(s, t)
            } else if c == 'r' {
                if s.selected is Feeds {
                    Self::refresh_post(s, t)
                } else {
                    Self::toggle_read_post(s, t)
                }
            } else if c == 'a' {
                Self::toggle_read_mode_post(s, t)
            } else if c == 'e' || c == 'i' {
                t == (App { mode: Mode::Editing, ..s })
            } else {
                t == s
            }
        }
    }

    /// Reloads the feed titles.
    pub fn update_feed_titles(&mut self)
        ensures
            Self::planned(*old(self), *final(self), seq![Stage::LoadFeedTitles]),
    {
        self.plan(vec![Stage::LoadFeedTitles]);
        proof {
            assert(self.pending@ =~= seq![Stage::LoadFeedTitles]);
        }
    }

    /// Reloads the selected feed, then its entries.
    pub fn update_current_feed_and_entries(&mut self)
        ensures
            Self::planned(*old(self), *final(self), seq![Stage::LoadCurrentFeed, Stage::LoadEntries]),
    {
        self.plan(vec![Stage::LoadCurrentFeed, Stage::LoadEntries]);
        proof {
            assert(self.pending@ =~= seq![Stage::LoadCurrentFeed, Stage::LoadEntries]);
        }
    }

    /// Gives the focus to the feed list.
    pub fn select_feeds(&mut self)
        ensures
            *final(self) == (App { selected: Selected::Feeds, ..*old(self) }),
    {
        self.selected = Selected::Feeds;
    }

    /// Subscribes to the feed at the URL in the input line, then reloads the
    /// feed titles.
    pub fn subscribe_to_feed(&mut self)
        ensures
            Self::planned(*old(self), *final(self), seq![Stage::Subscribe, Stage::LoadFeedTitles]),
    {
        self.plan(vec![Stage::Subscribe, Stage::LoadFeedTitles]);
        proof {
            assert(self.pending@ =~= seq![Stage::Subscribe, Stage::LoadFeedTitles]);
        }
    }

    /// Fetches new entries of the selected feed, then reloads it and its
    /// entries; with no feed selected there is nothing to refresh.
    pub fn on_refresh(&mut self)
        requires
            old(self).wf(),
        ensures
            final(self).wf(),
            Self::refresh_post(*old(self), *final(self)),
    {
        match self.feed_titles.selected {
            Some(i) => {
                let id = self.feed_titles.items[i].0;
                self.plan(vec![Stage::Refresh(id), Stage::LoadCurrentFeed, Stage::LoadEntries]);
                proof {
                    assert(self.pending@ =~= seq![
                        Stage::Refresh(id),
                        Stage::LoadCurrentFeed,
                        Stage::LoadEntries,
                    ]);
                }
            },
            None => {},
        }
    }

    /// Flips the read flag of the entry being read, or of the current entry
    /// on the entry list, then reloads the entries and the current entry.
    pub fn toggle_read(&mut self)
        requires
            old(self).wf(),
        ensures
            final(self).wf(),
            Self::toggle_read_post(*old(self), *final(self)),
    {
        match &self.selected {
            Selected::Entry(e) => {
                let id = e.id;
                self.plan(vec![
                    Stage::ToggleRead(id),
                    Stage::LoadEntries,
                    Stage::LoadCurrentEntry,
                    Stage::ReturnToEntries,
                ]);
                proof {
                    assert(self.pending@ =~= seq![
                        Stage::ToggleRead(id),
                        Stage::LoadEntries,
                        Stage::LoadCurrentEntry,
                        Stage::ReturnToEntries,
                    ]);
                }
            },
            Selected::Entries => {
                match &self.current_entry {
                    Some(e) => {
                        let id = e.id;
                        self.plan(vec![
                            Stage::ToggleRead(id),
                            Stage::LoadEntries,
                            Stage::LoadCurrentEntry,
                        ]);
                        proof {
                            assert(self.pending@ =~= seq![
                                Stage::ToggleRead(id),
                                Stage::LoadEntries,
                                Stage::LoadCurrentEntry,
                            ]);
                        }
                    },
                    None => {},
                }
            },
            Selected::Feeds => {},
        }
    }

    /// Switches between all and unread entries, then reloads the entries,
    /// selects the first and reloads it.
    pub fn toggle_read_mode(&mut self)
        requires
            old(self).wf(),
        ensures
            final(self).wf(),
            Self::toggle_read_mode_post(*old(self), *final(self)),
    {
        match &self.selected {
            Selected::Entry(_) => {},
            _ => {
                self.read_mode = self.read_mode.toggle();
            },
        }
        self.plan(vec![Stage::LoadEntries, Stage::SelectFirstEntry, Stage::LoadCurrentEntry]);
        proof {
            assert(self.pending@ =~= seq![
                Stage::LoadEntries,
                Stage::SelectFirstEntry,
                Stage::LoadCurrentEntry,
            ]);
        }
    }

    /// Acts on a key of the normal mode.
    pub fn on_key(&mut self, c: char) -> (r: Result<(), ReaderError>)
        requires
            old(self).wf(),
        ensures
            final(self).wf(),
            Self::key_post(*old(self), *final(self), c, r),
    {
        if c == 'q' {
            self.should_quit = true;
        } else if c == 'h' {
            self.on_left();
        } else if c == 'j' {
            self.on_down();
        } else if c == 'k' {
            self.on_up();
        } else if c == 'l' {
            return self.on_right();
        } else if c == 'r' {
            match &self.selected {
                Selected::Feeds => self.on_refresh(),
                _ => self.toggle_read(),
            }
        } else if c == 'a' {
            self.toggle_read_mode();
        } else if c == 'e' || c == 'i' {
            self.mode = Mode::Editing;
        }
        Ok(())
    }

    /// Advances the progress by one thousandth, back to zero past one whole.
    pub fn on_tick(&mut self)
        ensures
            *final(self) == (App {
                progress: if old(self).progress >= 1000 { 0 } else { (old(self).progress + 1) as u16 },
                ..*old(self)
            }),
    {
        if self.progress >= 1000 {
            self.progress = 0;
        } else {
            self.progress = self.progress + 1;
        }
    }
}

/// Neither step of a reload changes the read mode.
pub proof fn lemma_reload_keeps_read_mode(s: App, t: App, r: Option<Request>, u: App, reply: Reply)
    ensures
        App::step_post(s, t, r) ==> t.read_mode == s.read_mode,
        App::deliver_post(s, u, reply) ==> u.read_mode == s.read_mode,
{
}

/// Switching the read mode twice on the lists gives back the mode one
/// started from, whatever reload ran between the two switches as long as it
/// kept the read mode and did not open an entry; each switch then reloads the
/// entries under that mode.
pub proof fn lemma_read_mode_toggle_twice(s: App, t: App, u: App, v: App)
    requires
        !(s.selected is Entry),
        App::toggle_read_mode_post(s, t),
        u.read_mode == t.read_mode,
        !(u.selected is Entry),
        App::toggle_read_mode_post(u, v),
    ensures
        t.read_mode == toggled(s.read_mode),
        v.read_mode == s.read_mode,
        t.pending@[0] == Stage::LoadEntries,
        v.pending@[0] == Stage::LoadEntries,
{
}

/// Opening an entry and leaving it again, by a move left or by escape,
/// comes back to the entry list with the scroll at zero and the text dropped.
pub proof fn lemma_open_then_leave(s: App, t: App, u: App, lines: Seq<Seq<char>>)
    requires
        App::opened(s, t, lines),
        App::left_post(t, u) || App::esc_post(t, u),
    ensures
        u.scroll == 0,
        u.selected is Entries,
        u.current_entry_text@.len() == 0,
{
}

/// Leaving the entry view after toggling the read flag resets the scroll too.
pub proof fn lemma_toggle_read_leaves_entry(s: App, t: App, r: Option<Request>)
    requires
        s.pending@.len() > 0,
        s.pending@[0] == Stage::ReturnToEntries,
        App::step_post(s, t, r),
    ensures
        t.scroll == 0,
        t.selected is Entries,
{
}

/// The scroll after `k` moves up from `scroll`: it stops at zero.
pub open spec fn scroll_after_ups(scroll: u16, k: nat) -> int {
    if scroll >= k { scroll - k } else { 0 }
}

proof fn lemma_up_in_entry(s: App, t: App)
    requires
        s.selected is Entry,
        App::up_post(s, t),
    ensures
        t.selected is Entry,
        t.scroll == scroll_after_ups(s.scroll, 1),
{
}

/// In the entry view, a run of moves up never takes the scroll below zero,
/// and a move down after them goes one line further.
pub proof fn lemma_scroll_floor(states: Seq<App>, t: App)
    requires
        states.len() >= 1,
        states[0].selected is Entry,
        forall|i: int| 0 <= i < states.len() - 1
            ==> App::up_post(#[trigger] states[i], states[i + 1]),
        App::down_post(states.last(), t),
    ensures
        forall|i: int| 0 <= i < states.len()
            ==> (#[trigger] states[i]).scroll == scroll_after_ups(states[0].scroll, i as nat)
                && states[i].selected is Entry,
        t.scroll == states.last().scroll + 1 || t.scroll == u16::MAX,
        t.scroll >= 1,
{
    assert forall|i: int| 0 <= i < states.len()
        implies (#[trigger] states[i]).scroll == scroll_after_ups(states[0].scroll, i as nat)
            && states[i].selected is Entry by {
        lemma_scroll_prefix(states, i);
    }
    lemma_scroll_prefix(states, states.len() - 1);
}

proof fn lemma_scroll_prefix(states: Seq<App>, k: int)
    requires
        0 <= k < states.len(),
        states[0].selected is Entry,
        forall|i: int| 0 <= i < states.len() - 1
            ==> App::up_post(#[trigger] states[i], states[i + 1]),
    ensures
        states[k].scroll == scroll_after_ups(states[0].scroll, k as nat),
        states[k].selected is Entry,
    decreases k,
{
    if k > 0 {
        lemma_scroll_prefix(states, k - 1);
        lemma_up_in_entry(states[k - 1], states[k]);
    }
}

} // verus!
