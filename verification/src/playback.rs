//! The local playback queue: a list of items, a cursor on the current one,
//! and the repeat modes that decide where "next" goes.

use vstd::prelude::*;

use crate::text::text_eq;

verus! {

#[derive(Debug, Clone, Copy, PartialEq, Eq, Structural)]
pub enum RepeatMode {
    Off,
    One,
    All,
}

#[derive(Debug, PartialEq, Eq)]
pub enum PlaybackSource {
    SoundCloudTrack { urn: String },
    ImportedLocalFile { path: String },
}

pub enum PlaybackSourceView {
    SoundCloudTrack { urn: Seq<char> },
    ImportedLocalFile { path: Seq<char> },
}

impl View for PlaybackSource {
    type V = PlaybackSourceView;

    open spec fn view(&self) -> PlaybackSourceView {
        match self {
            PlaybackSource::SoundCloudTrack { urn } => PlaybackSourceView::SoundCloudTrack {
                urn: urn@,
            },
            PlaybackSource::ImportedLocalFile { path } => PlaybackSourceView::ImportedLocalFile {
                path: path@,
            },
        }
    }
}

impl Clone for PlaybackSource {
    fn clone(&self) -> (r: Self)
        ensures
            r@ == self@,
    {
        match self {
            PlaybackSource::SoundCloudTrack { urn } => PlaybackSource::SoundCloudTrack {
                urn: urn.clone(),
            },
            PlaybackSource::ImportedLocalFile { path } => PlaybackSource::ImportedLocalFile {
                path: path.clone(),
            },
        }
    }
}

#[derive(Debug, PartialEq, Eq)]
pub struct QueueItem {
    pub id: String,
    pub source: PlaybackSource,
    pub title: String,
}

pub struct QueueItemView {
    pub id: Seq<char>,
    pub source: PlaybackSourceView,
    pub title: Seq<char>,
}

impl View for QueueItem {
    type V = QueueItemView;

    open spec fn view(&self) -> QueueItemView {
        QueueItemView { id: self.id@, source: self.source@, title: self.title@ }
    }
}

impl Clone for QueueItem {
    fn clone(&self) -> (r: Self)
        ensures
            r@ == self@,
    {
        QueueItem { id: self.id.clone(), source: self.source.clone(), title: self.title.clone() }
    }
}

#[derive(Debug, Clone, Copy, PartialEq, Eq, Structural)]
pub enum QueueError {
    ItemNotFound,
}

/// The queue: its items, and the position of the current one, if any.
pub struct PlaybackQueueView {
    pub items: Seq<QueueItemView>,
    pub cursor: Option<int>,
}

/// Where the cursor goes on "next" over a queue of `len` items.
pub open spec fn next_cursor(cursor: Option<int>, len: int, repeat: RepeatMode) -> Option<int> {
    match cursor {
        None => None,
        Some(c) => match repeat {
            RepeatMode::One => Some(c),
            RepeatMode::Off => if c + 1 >= len {
                None
            } else {
                Some(c + 1)
            },
            RepeatMode::All => if len == 0 {
                None
            } else {
                Some((c + 1) % len)
            },
        },
    }
}

/// The cursor, if any, points at one of the items.
pub open spec fn cursor_valid(q: PlaybackQueueView) -> bool {
    q.cursor matches Some(c) ==> 0 <= c < q.items.len()
}

/// The item under the cursor.
pub open spec fn current_item(q: PlaybackQueueView) -> Option<QueueItemView> {
    match q.cursor {
        Some(c) => Some(q.items[c]),
        None => None,
    }
}

pub open spec fn pushed(q: PlaybackQueueView, item: QueueItemView) -> PlaybackQueueView {
    PlaybackQueueView {
        items: q.items.push(item),
        cursor: if q.cursor is None {
            Some(0)
        } else {
            q.cursor
        },
    }
}

pub open spec fn advanced(q: PlaybackQueueView, repeat: RepeatMode) -> PlaybackQueueView {
    PlaybackQueueView { cursor: next_cursor(q.cursor, q.items.len() as int, repeat), ..q }
}

/// `i` is the first position of the queue that holds item `id`.
pub open spec fn is_first_queued(items: Seq<QueueItemView>, id: Seq<char>, i: int) -> bool {
    &&& 0 <= i < items.len()
    &&& items[i].id == id
    &&& forall|j: int| 0 <= j < i ==> #[trigger] items[j].id != id
}

/// The first position of item `id`, or -1.
pub open spec fn first_queued(items: Seq<QueueItemView>, id: Seq<char>) -> int {
    if exists|i: int| is_first_queued(items, id, i) {
        choose|i: int| is_first_queued(items, id, i)
    } else {
        -1
    }
}

/// Removing an item keeps the cursor in range: it clears when the queue
/// empties and otherwise moves back to the last item if it fell off the end.
pub open spec fn removed(q: PlaybackQueueView, id: Seq<char>) -> (
    PlaybackQueueView,
    Result<QueueItemView, QueueError>,
) {
    let i = first_queued(q.items, id);
    if i < 0 {
        (q, Err(QueueError::ItemNotFound))
    } else {
        let items = q.items.remove(i);
        let cursor = if items.len() == 0 {
            None
        } else {
            match q.cursor {
                Some(c) => Some(
                    if c < items.len() - 1 {
                        c
                    } else {
                        items.len() - 1
                    },
                ),
                None => None,
            }
        };
        (PlaybackQueueView { items, cursor }, Ok(q.items[i]))
    }
}

pub struct PlaybackQueue {
    items: Vec<QueueItem>,
    cursor: Option<usize>,
}

impl View for PlaybackQueue {
    type V = PlaybackQueueView;

    open spec fn view(&self) -> PlaybackQueueView {
        self.model()
    }
}

impl Default for PlaybackQueue {
    fn default() -> (r: Self)
        ensures
            r@.items.len() == 0,
            r@.cursor is None,
    {
        PlaybackQueue { items: Vec::new(), cursor: None }
    }
}

impl PlaybackQueue {
    /// The cursor always points at an item.
    #[verifier::type_invariant]
    spec fn cursor_in_range(self) -> bool {
        self.cursor matches Some(c) ==> c < self.items@.len()
    }

    pub closed spec fn model(&self) -> PlaybackQueueView {
        PlaybackQueueView {
            items: self.items@.map_values(|i: QueueItem| i@),
            cursor: match self.cursor {
                Some(c) => Some(c as int),
                None => None,
            },
        }
    }

    pub fn push(&mut self, item: QueueItem)
        ensures
            final(self)@ == pushed(old(self)@, item@),
            cursor_valid(final(self)@),
    {
        proof {
            use_type_invariant(&*self);
        }
        let ghost before = self.items@;
        let cursor = self.cursor;
        self.cursor = None;
        let mut items = Vec::new();
        std::mem::swap(&mut items, &mut self.items);
        items.push(item);
        self.items = items;
        self.cursor = match cursor {
            Some(c) => Some(c),
            None => Some(0),
        };
        proof {
            assert(self.items@.map_values(|i: QueueItem| i@) =~= before.map_values(
                |i: QueueItem| i@,
            ).push(item@));
        }
    }

    pub fn current(&self) -> (r: Option<&QueueItem>)
        ensures
            match r {
                Some(i) => current_item(self@) == Some(i@),
                None => current_item(self@) is None,
            },
    {
        proof {
            use_type_invariant(self);
        }
        match self.cursor {
            Some(index) => Some(&self.items[index]),
            None => None,
        }
    }

    pub fn next(&mut self, repeat: RepeatMode) -> (r: Option<&QueueItem>)
        ensures
            final(self)@ == advanced(old(self)@, repeat),
            cursor_valid(final(self)@),
            match r {
                Some(i) => current_item(final(self)@) == Some(i@),
                None => current_item(final(self)@) is None,
            },
    {
        proof {
            use_type_invariant(&*self);
        }
        let cursor = match self.cursor {
            Some(c) => c,
            None => {
                return None;
            },
        };
        let len = self.items.len();
        self.cursor = match repeat {
            RepeatMode::One => Some(cursor),
            RepeatMode::Off => if cursor + 1 >= len {
                None
            } else {
                Some(cursor + 1)
            },
            RepeatMode::All => if len == 0 {
                None
            } else {
                Some((cursor + 1) % len)
            },
        };
        self.current()
    }

    /// The first position of item `id`.
    fn find(&self, id: &str) -> (r: Option<usize>)
        ensures
            r matches Some(i) ==> first_queued(self@.items, id@) == i,
            r is None ==> first_queued(self@.items, id@) == -1,
    {
        let ghost q = self@.items;
        let mut index: usize = 0;
        while index < self.items.len()
            invariant
                index <= self.items@.len(),
                q == self@.items,
                forall|j: int| 0 <= j < index ==> #[trigger] q[j].id != id@,
            decreases self.items@.len() - index,
        {
            if text_eq(self.items[index].id.as_str(), id) {
                proof {
                    assert(is_first_queued(q, id@, index as int));
                    let k = first_queued(q, id@);
                    assert(is_first_queued(q, id@, k));
                    if k < index {
                        assert(q[k].id != id@);
                    } else if k > index {
                        assert(q[index as int].id != id@);
                    }
                }
                return Some(index);
            }
            index = index + 1;
        }
        proof {
            if exists|i: int| is_first_queued(q, id@, i) {
                let k = choose|i: int| is_first_queued(q, id@, i);
                assert(q[k].id != id@);
            }
        }
        None
    }

    pub fn remove(&mut self, id: &str) -> (r: Result<QueueItem, QueueError>)
        ensures
            (final(self)@, match r {
                Ok(i) => Ok(i@),
                Err(e) => Err(e),
            }) == removed(old(self)@, id@),
            cursor_valid(final(self)@),
    {
        proof {
            use_type_invariant(&*self);
        }
        let index = match self.find(id) {
            Some(i) => i,
            None => {
                return Err(QueueError::ItemNotFound);
            },
        };
        let ghost before = self.items@;
        let cursor = self.cursor;
        self.cursor = None;
        let mut items = Vec::new();
        std::mem::swap(&mut items, &mut self.items);
        let removed_item = items.remove(index);
        let remaining = items.len();
        self.items = items;
        if remaining > 0 {
            self.cursor = match cursor {
                Some(c) => Some(
                    if c < remaining - 1 {
                        c
                    } else {
                        remaining - 1
                    },
                ),
                None => None,
            };
        }
        proof {
            assert(self.items@.map_values(|i: QueueItem| i@) =~= before.map_values(
                |i: QueueItem| i@,
            ).remove(index as int));
        }
        Ok(removed_item)
    }
}

/// The cursor after `k` moves to "next".
pub open spec fn cursor_after(cursor: Option<int>, len: int, repeat: RepeatMode, k: nat) -> Option<
    int,
>
    decreases k,
{
    if k == 0 {
        cursor
    } else {
        next_cursor(cursor_after(cursor, len, repeat, (k - 1) as nat), len, repeat)
    }
}

/// Repeating one item never moves the cursor.
pub proof fn lemma_repeat_one_stays(cursor: Option<int>, len: int, k: nat)
    ensures
        cursor_after(cursor, len, RepeatMode::One, k) == cursor,
    decreases k,
{
    if k > 0 {
        lemma_repeat_one_stays(cursor, len, (k - 1) as nat);
    }
}

/// Repeating all items walks the queue cyclically: after `k` moves the
/// cursor is `k` places further on, modulo the queue's length.
pub proof fn lemma_repeat_all_cycles(c: int, len: int, k: nat)
    requires
        0 <= c < len,
    ensures
        cursor_after(Some(c), len, RepeatMode::All, k) == Some((c + k) % len),
    decreases k,
{
    if k == 0 {
        vstd::arithmetic::div_mod::lemma_small_mod(c as nat, len as nat);
    } else {
        lemma_repeat_all_cycles(c, len, (k - 1) as nat);
        vstd::arithmetic::div_mod::lemma_add_mod_noop_right(1, c + k - 1, len);
    }
}

/// After as many moves as there are items, repeating all items brings the
/// cursor back where it started.
pub proof fn lemma_repeat_all_returns(c: int, len: int)
    requires
        0 <= c < len,
    ensures
        cursor_after(Some(c), len, RepeatMode::All, len as nat) == Some(c),
{
    lemma_repeat_all_cycles(c, len, len as nat);
    vstd::arithmetic::div_mod::lemma_mod_add_multiples_vanish(c, len);
    vstd::arithmetic::div_mod::lemma_small_mod(c as nat, len as nat);
}

/// Without repeat the cursor runs off the end: from position `c`, after
/// `len - c` moves there is no current item.
pub proof fn lemma_repeat_off_ends(c: int, len: int)
    requires
        0 <= c < len,
    ensures
        cursor_after(Some(c), len, RepeatMode::Off, (len - c) as nat) is None,
{
    lemma_repeat_off_steps(c, len, (len - c - 1) as nat);
}

proof fn lemma_repeat_off_steps(c: int, len: int, k: nat)
    requires
        0 <= c,
        c + k < len,
    ensures
        cursor_after(Some(c), len, RepeatMode::Off, k) == Some(c + k),
        cursor_after(Some(c), len, RepeatMode::Off, k + 1) == (if c + k + 1 >= len {
            None
        } else {
            Some(c + k + 1)
        }),
    decreases k,
{
    if k > 0 {
        lemma_repeat_off_steps(c, len, (k - 1) as nat);
    }
}

/// Pushing appends the item and keeps the current item; an empty or
/// finished queue starts again at its first item.
pub proof fn lemma_push_appends(q: PlaybackQueueView, item: QueueItemView)
    ensures
        pushed(q, item).items == q.items.push(item),
        q.cursor is Some ==> pushed(q, item).cursor == q.cursor,
        q.cursor is None ==> pushed(q, item).cursor == Some(0int),
{
}

/// "Next" moves the cursor one place on: it stays put under repeat-one,
/// stops after the last item without repeat, and wraps to the first item
/// under repeat-all. A queue with no current item stays without one. The
/// items never change.
pub proof fn lemma_next_moves_one(q: PlaybackQueueView, repeat: RepeatMode)
    requires
        cursor_valid(q),
    ensures
        advanced(q, repeat).items == q.items,
        q.cursor is None ==> advanced(q, repeat).cursor is None,
        q.cursor matches Some(c) ==> match repeat {
            RepeatMode::One => advanced(q, repeat).cursor == Some(c),
            RepeatMode::Off => advanced(q, repeat).cursor == if c == q.items.len() - 1 {
                None::<int>
            } else {
                Some(c + 1)
            },
            RepeatMode::All => advanced(q, repeat).cursor == if c == q.items.len() - 1 {
                Some(0int)
            } else {
                Some(c + 1)
            },
        },
{
    if let Some(c) = q.cursor {
        if repeat == RepeatMode::All {
            if c == q.items.len() - 1 {
                assert((c + 1) % (q.items.len() as int) == 0) by {
                    vstd::arithmetic::div_mod::lemma_mod_self_0(q.items.len() as int);
                }
            } else {
                vstd::arithmetic::div_mod::lemma_small_mod((c + 1) as nat, q.items.len() as nat);
            }
        }
    }
}

/// Removing an item takes out the first item with that id and hands it
/// back; the current position stays where it was, moved back onto the last
/// item if it fell off the end, and an emptied queue has no current item.
/// A missing id fails and changes nothing.
pub proof fn lemma_remove_takes_first(q: PlaybackQueueView, id: Seq<char>)
    requires
        cursor_valid(q),
    ensures
        ({
            let (n, r) = removed(q, id);
            &&& (r is Err <==> forall|j: int| 0 <= j < q.items.len() ==> #[trigger] q.items[j].id != id)
            &&& r is Err ==> n == q && r == Err::<QueueItemView, QueueError>(QueueError::ItemNotFound)
            &&& r is Ok ==> exists|i: int|
                0 <= i < q.items.len() && #[trigger] q.items[i].id == id && (forall|j: int|
                    0 <= j < i ==> #[trigger] q.items[j].id != id) && r == Ok::<_, QueueError>(
                    q.items[i],
                ) && n.items == q.items.remove(i)
            &&& r is Ok ==> (n.items.len() == 0 ==> n.cursor is None)
            &&& r is Ok && n.items.len() > 0 ==> match q.cursor {
                Some(c) => n.cursor == Some(if c < n.items.len() {
                    c
                } else {
                    n.items.len() - 1
                }),
                None => n.cursor is None,
            }
        }),
{
    let (n, r) = removed(q, id);
    if exists|i: int| is_first_queued(q.items, id, i) {
        let k = choose|i: int| is_first_queued(q.items, id, i);
        assert(is_first_queued(q.items, id, k));
        assert(first_queued(q.items, id) == k);
    } else {
        if exists|j: int| 0 <= j < q.items.len() && #[trigger] q.items[j].id == id {
            let j = choose|j: int| 0 <= j < q.items.len() && #[trigger] q.items[j].id == id;
            lemma_some_first_queued(q.items, id, j);
        }
    }
}

proof fn lemma_some_first_queued(items: Seq<QueueItemView>, id: Seq<char>, w: int)
    requires
        0 <= w < items.len(),
        items[w].id == id,
    ensures
        exists|i: int| is_first_queued(items, id, i),
    decreases w,
{
    if exists|j: int| 0 <= j < w && #[trigger] items[j].id == id {
        let j = choose|j: int| 0 <= j < w && #[trigger] items[j].id == id;
        lemma_some_first_queued(items, id, j);
    } else {
        assert(is_first_queued(items, id, w));
    }
}

} // verus!
