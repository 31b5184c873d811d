use vstd::prelude::*;

verus! {

/// Which entries of a feed the store is asked for.
#[derive(Clone, Copy, Debug, PartialEq, Eq, Structural)]
pub enum ReadMode {
    ShowAll,
    ShowUnread,
}

/// The other read mode.
pub open spec fn toggled(m: ReadMode) -> ReadMode {
    match m {
        ReadMode::ShowAll => ReadMode::ShowUnread,
        ReadMode::ShowUnread => ReadMode::ShowAll,
    }
}

impl ReadMode {
    pub fn toggle(self) -> (r: ReadMode)
        ensures
            r == toggled(self),
    {
        match self {
            ReadMode::ShowAll => ReadMode::ShowUnread,
            ReadMode::ShowUnread => ReadMode::ShowAll,
        }
    }
}

/// Switching the read mode twice gives back the mode one started from.
pub proof fn lemma_toggled_twice(m: ReadMode)
    ensures
        toggled(toggled(m)) == m,
        toggled(m) != m,
{
}

/// Whether keystrokes go to the navigation or to the input line.
#[derive(Clone, Copy, Debug, PartialEq, Eq, Structural)]
pub enum Mode {
    Editing,
    Normal,
}

/// What can make a transition fail.
#[derive(Clone, Copy, Debug, PartialEq, Eq, Structural)]
pub enum ReaderError {
    /// The store could not be read or written.
    Storage,
    /// A feed or entry id that the store does not hold.
    NotFound,
    /// A feed could not be fetched or parsed.
    Network,
    /// A subscription URL that is not well formed.
    InvalidInput,
    /// An entry's text could not be laid out for display.
    Render,
}

/// A subscribed feed, as the store returns it.
#[derive(Clone, Debug)]
pub struct Feed {
    pub id: i64,
    pub title: String,
    pub url: String,
}

/// One item of a feed, as the store returns it.
#[derive(Clone, Debug)]
pub struct Entry {
    pub id: i64,
    pub feed_id: i64,
    pub title: String,
    pub content: Option<String>,
    pub description: Option<String>,
    pub read: bool,
    /// Seconds since the Unix epoch, when the feed gave a date.
    pub pub_date: Option<i64>,
}

pub open spec fn same_text(a: Option<String>, b: Option<String>) -> bool {
    match (a, b) {
        (Some(x), Some(y)) => x@ == y@,
        (None, None) => true,
        _ => false,
    }
}

fn copy_text(t: &Option<String>) -> (r: Option<String>)
    ensures
        same_text(r, *t),
{
    match t {
        Some(s) => Some(s.clone()),
        None => None,
    }
}

impl Entry {
    /// Both entries hold the same data.
    pub open spec fn same_as(&self, other: &Entry) -> bool {
        &&& self.id == other.id
        &&& self.feed_id == other.feed_id
        &&& self.title@ == other.title@
        &&& same_text(self.content, other.content)
        &&& same_text(self.description, other.description)
        &&& self.read == other.read
        &&& self.pub_date == other.pub_date
    }

    /// An independent copy of this entry.
    pub fn snapshot(&self) -> (r: Entry)
        ensures
            r.same_as(self),
    {
        Entry {
            id: self.id,
            feed_id: self.feed_id,
            title: self.title.clone(),
            content: copy_text(&self.content),
            description: copy_text(&self.description),
            read: self.read,
            pub_date: self.pub_date,
        }
    }
}

/// Whether `e` is listed under `mode`.
pub open spec fn shown(e: Entry, mode: ReadMode) -> bool {
    mode == ReadMode::ShowAll || !e.read
}

/// The entries that `mode` lists, in their order.
pub open spec fn listed(entries: Seq<Entry>, mode: ReadMode) -> Seq<Entry> {
    entries.filter(|e: Entry| shown(e, mode))
}

/// Keeps the entries that `mode` lists, in their order.
pub fn filter_entries(entries: Vec<Entry>, mode: ReadMode) -> (r: Vec<Entry>)
    ensures
        r@ == listed(entries@, mode),
{
    let ghost all = entries@;
    let mut rest = entries;
    let mut out: Vec<Entry> = Vec::new();
    while rest.len() > 0
        invariant
            rest@.len() <= all.len(),
            rest@ == all.skip(all.len() - rest@.len()),
            out@ == listed(all.take(all.len() - rest@.len()), mode),
        decreases rest@.len(),
    {
        let ghost k = all.len() - rest@.len();
        let e = rest.remove(0);
        proof {
            assert(all.take(k + 1).drop_last() =~= all.take(k));
            assert(all.take(k + 1).last() == all[k]);
            assert(rest@ =~= all.skip(k + 1));
            reveal_with_fuel(Seq::filter, 1);
        }
        let keep = match mode {
            ReadMode::ShowAll => true,
            ReadMode::ShowUnread => !e.read,
        };
        if keep {
            out.push(e);
        }
    }
    proof {
        assert(all.take(all.len() as int) =~= all);
    }
    out
}

/// Under `ShowUnread` no read entry is listed: once an entry's read flag is
/// set, a reload of the unread entries leaves it out.
pub proof fn lemma_unread_leaves_out_read(entries: Seq<Entry>, e: Entry)
    requires
        e.read,
    ensures
        !listed(entries, ReadMode::ShowUnread).contains(e),
        forall|i: int| 0 <= i < listed(entries, ReadMode::ShowUnread).len()
            ==> !(#[trigger] listed(entries, ReadMode::ShowUnread)[i]).read,
{
    let l = listed(entries, ReadMode::ShowUnread);
    assert forall|i: int| 0 <= i < l.len() implies !(#[trigger] l[i]).read by {
        entries.lemma_filter_pred(|x: Entry| shown(x, ReadMode::ShowUnread), i);
    }
}

} // verus!
