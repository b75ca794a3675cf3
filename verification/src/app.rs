//! The shared application state and its navigation state machine.
//!
//! One `App` value is the whole mutable model: the configured feed sources,
//! the currently loaded document (if any), the view that receives cursor
//! input, a drill-down depth counter, the loading flag, and the queue of
//! pending fetch requests. The input loop mutates it through the methods
//! here; the background worker consumes the queue in FIFO order and merges
//! fetch outcomes back in. Callers serialize access (one exclusive lock);
//! every method is a single atomic step on the state.

use vstd::prelude::*;

verus! {

use crate::feed::{FeedDocument, FeedItem};
use crate::list::{next_cursor, prev_cursor, StatefulList};
use crate::network::{FetchError, IoEvent};

/// One configured feed source. Immutable once configured; its identity is its
/// position in the configured list.
pub struct ConfigFeed {
    /// The display name of the source.
    pub name: String,
    /// The URL the source is fetched from.
    pub url: String,
}

/// The startup configuration: an ordered list of feed sources.
pub struct Config {
    /// The configured sources, in order. No deduplication by URL is done.
    pub feeds: Vec<ConfigFeed>,
}

impl Clone for ConfigFeed {
    /// Cloning keeps both fields.
    fn clone(&self) -> (res: ConfigFeed)
        ensures
            res == *self,
    {
        ConfigFeed { name: self.name.clone(), url: self.url.clone() }
    }
}

impl Clone for Config {
    /// Cloning keeps the source list, element for element.
    fn clone(&self) -> (res: Config)
        ensures
            res.feeds@ == self.feeds@,
    {
        let mut feeds: Vec<ConfigFeed> = Vec::new();
        let mut i: usize = 0;
        while i < self.feeds.len()
            invariant
                i <= self.feeds@.len(),
                feeds@ == self.feeds@.subrange(0, i as int),
            decreases self.feeds@.len() - i,
        {
            feeds.push(self.feeds[i].clone());
            proof {
                assert(feeds@ =~= self.feeds@.subrange(0, i as int + 1));
            }
            i = i + 1;
        }
        proof {
            assert(feeds@ =~= self.feeds@);
        }
        Config { feeds }
    }
}

/// Which list receives cursor-movement input.
#[derive(Clone, Copy, Debug, PartialEq, Eq, Structural)]
pub enum SelectedView {
    FeedView,
    NewsView,
}

/// The abstract key semantics the input loop hands in; concrete key glyphs
/// are decoded outside the library.
#[derive(Clone, Copy, Debug, PartialEq, Eq, Structural)]
pub enum KeyAction {
    QuitOrBack,
    ToggleView,
    CursorNext,
    CursorPrevious,
    Unselect,
    Activate,
}

/// A recoverable navigation fault; the navigation layer treats it as a no-op.
#[derive(Clone, Copy, Debug, PartialEq, Eq, Structural)]
pub enum NavError {
    /// `back` was asked for at drill depth zero.
    BackAtDepthZero,
}

/// The view mode that `toggled` swaps to.
pub open spec fn toggled(v: SelectedView) -> SelectedView {
    match v {
        SelectedView::FeedView => SelectedView::NewsView,
        SelectedView::NewsView => SelectedView::FeedView,
    }
}

/// The shared application state.
pub struct App {
    /// The configured sources with the feed-list cursor.
    pub feeds: StatefulList<ConfigFeed>,
    /// The currently loaded document's items with the item-list cursor;
    /// `None` until a fetch succeeds.
    pub news_data: Option<StatefulList<FeedItem>>,
    /// Fetch requests the worker has not taken yet, oldest first.
    pub pending: Vec<IoEvent>,
    /// Set when a request is dispatched, cleared when the worker finishes one.
    pub is_loading: bool,
    /// Which list receives cursor input.
    pub selected_view: SelectedView,
    /// The item index remembered when drilling into an item's detail.
    pub news_index: usize,
    /// Drill-down depth: zero at the item list, positive inside a detail view.
    pub stacking: usize,
    /// Why the most recent fetch produced no document, until a later fetch
    /// succeeds; `None` otherwise. A failed fetch is visible here instead of
    /// being indistinguishable from one that never finishes.
    pub last_fetch_error: Option<FetchError>,
    /// The configuration the state was built from.
    pub config: Config,
}

/// The request was appended to the queue and the loading flag raised;
/// everything else is unchanged.
pub open spec fn dispatch_step(pre: App, post: App, action: IoEvent) -> bool {
    &&& post.pending@ == pre.pending@.push(action)
    &&& post.is_loading == true
    &&& post.feeds == pre.feeds
    &&& post.news_data == pre.news_data
    &&& post.selected_view == pre.selected_view
    &&& post.news_index == pre.news_index
    &&& post.stacking == pre.stacking
    &&& post.last_fetch_error == pre.last_fetch_error
    &&& post.config == pre.config
}

/// The view mode was swapped; cursors, data and queue are untouched.
pub open spec fn toggle_step(pre: App, post: App) -> bool {
    &&& post.selected_view == toggled(pre.selected_view)
    &&& post.feeds == pre.feeds
    &&& post.news_data == pre.news_data
    &&& post.pending == pre.pending
    &&& post.is_loading == pre.is_loading
    &&& post.news_index == pre.news_index
    &&& post.stacking == pre.stacking
    &&& post.last_fetch_error == pre.last_fetch_error
    &&& post.config == pre.config
}

/// One drill-down level was left: the depth dropped by one and the remembered
/// index was reset.
pub open spec fn back_step(pre: App, post: App) -> bool {
    &&& post.stacking == pre.stacking - 1
    &&& post.news_index == 0
    &&& post.feeds == pre.feeds
    &&& post.news_data == pre.news_data
    &&& post.pending == pre.pending
    &&& post.is_loading == pre.is_loading
    &&& post.selected_view == pre.selected_view
    &&& post.last_fetch_error == pre.last_fetch_error
    &&& post.config == pre.config
}

/// The item index under the item-list cursor, or zero when nothing is
/// selected or no document is loaded.
pub open spec fn news_cursor_or_zero(app: App) -> usize {
    match app.news_data {
        Some(l) => match l.cursor {
            Some(i) => i,
            None => 0,
        },
        None => 0,
    }
}

/// One drill-down level was entered: the depth rose by one and the item under
/// the cursor was remembered. At the depth counter's ceiling nothing changes.
pub open spec fn drill_step(pre: App, post: App) -> bool {
    if pre.stacking < usize::MAX {
        &&& post.stacking == pre.stacking + 1
        &&& post.news_index == news_cursor_or_zero(pre)
        &&& post.feeds == pre.feeds
        &&& post.news_data == pre.news_data
        &&& post.pending == pre.pending
        &&& post.is_loading == pre.is_loading
        &&& post.selected_view == pre.selected_view
        &&& post.last_fetch_error == pre.last_fetch_error
        &&& post.config == pre.config
    } else {
        post == pre
    }
}

/// A fetch for the source under the feed cursor was dispatched; with no
/// source selected, nothing changes.
pub open spec fn activate_feed_step(pre: App, post: App) -> bool {
    match pre.feeds.cursor {
        Some(i) => dispatch_step(pre, post, IoEvent::GetChannel(pre.feeds.items@[i as int].url)),
        None => post == pre,
    }
}

/// The cursor of the focused list advanced one cyclic step; with the item
/// list focused but no document loaded, nothing changes.
pub open spec fn cursor_next_step(pre: App, post: App) -> bool {
    match pre.selected_view {
        SelectedView::FeedView => {
            &&& post.feeds.items == pre.feeds.items
            &&& post.feeds.cursor == next_cursor(pre.feeds.cursor, pre.feeds.items@.len())
            &&& post.news_data == pre.news_data
            &&& same_rest(pre, post)
        },
        SelectedView::NewsView => match pre.news_data {
            Some(l) => {
                &&& post.news_data matches Some(l2) && l2.items == l.items && l2.cursor
                    == next_cursor(l.cursor, l.items@.len())
                &&& post.feeds == pre.feeds
                &&& same_rest(pre, post)
            },
            None => post == pre,
        },
    }
}

/// The cursor of the focused list stepped back one cyclic step; with the item
/// list focused but no document loaded, nothing changes.
pub open spec fn cursor_prev_step(pre: App, post: App) -> bool {
    match pre.selected_view {
        SelectedView::FeedView => {
            &&& post.feeds.items == pre.feeds.items
            &&& post.feeds.cursor == prev_cursor(pre.feeds.cursor, pre.feeds.items@.len())
            &&& post.news_data == pre.news_data
            &&& same_rest(pre, post)
        },
        SelectedView::NewsView => match pre.news_data {
            Some(l) => {
                &&& post.news_data matches Some(l2) && l2.items == l.items && l2.cursor
                    == prev_cursor(l.cursor, l.items@.len())
                &&& post.feeds == pre.feeds
                &&& same_rest(pre, post)
            },
            None => post == pre,
        },
    }
}

/// The feed-list cursor was cleared; everything else is unchanged.
pub open spec fn unselect_step(pre: App, post: App) -> bool {
    &&& post.feeds.items == pre.feeds.items
    &&& post.feeds.cursor is None
    &&& post.news_data == pre.news_data
    &&& same_rest(pre, post)
}

/// The fields a pure cursor move never touches.
pub open spec fn same_rest(pre: App, post: App) -> bool {
    &&& post.pending == pre.pending
    &&& post.is_loading == pre.is_loading
    &&& post.selected_view == pre.selected_view
    &&& post.news_index == pre.news_index
    &&& post.stacking == pre.stacking
    &&& post.last_fetch_error == pre.last_fetch_error
    &&& post.config == pre.config
}

impl App {
    /// Both cursors point inside their lists.
    pub open spec fn wf(&self) -> bool {
        &&& self.feeds.wf()
        &&& match self.news_data {
            Some(l) => l.wf(),
            None => true,
        }
    }

    /// Builds the startup state from a configuration: sources listed with
    /// nothing selected, no document, an empty queue, the feed list focused,
    /// drill depth zero, and the loading flag down.
    pub fn new(config: Config) -> (app: App)
        ensures
            app.wf(),
            app.feeds.items@ == config.feeds@,
            app.feeds.cursor is None,
            app.news_data is None,
            app.pending@ == Seq::<IoEvent>::empty(),
            app.is_loading == false,
            app.selected_view == SelectedView::FeedView,
            app.news_index == 0,
            app.stacking == 0,
            app.last_fetch_error is None,
            app.config.feeds@ == config.feeds@,
    {
        let sources = config.clone();
        App {
            feeds: StatefulList::with_items(sources.feeds),
            news_data: None,
            pending: Vec::new(),
            is_loading: false,
            selected_view: SelectedView::FeedView,
            news_index: 0,
            stacking: 0,
            last_fetch_error: None,
            config,
        }
    }

    /// Enqueues a fetch request and raises the loading flag at once, before
    /// the worker has seen the request. The queue is owned by the state, so
    /// enqueueing cannot fail and is unbounded by design.
    pub fn dispatch(&mut self, action: IoEvent)
        ensures
            dispatch_step(*old(self), *final(self), action),
    {
        self.is_loading = true;
        self.pending.push(action);
    }

    /// Hands the worker the oldest pending request, if any. Requests leave
    /// the queue in the order they were dispatched.
    pub fn take_next_request(&mut self) -> (r: Option<IoEvent>)
        ensures
            old(self).pending@.len() == 0 ==> r is None && *final(self) == *old(self),
            old(self).pending@.len() > 0 ==> {
                &&& r == Some(old(self).pending@.first())
                &&& final(self).pending@ == old(self).pending@.drop_first()
                &&& final(self).feeds == old(self).feeds
                &&& final(self).news_data == old(self).news_data
                &&& final(self).is_loading == old(self).is_loading
                &&& final(self).selected_view == old(self).selected_view
                &&& final(self).news_index == old(self).news_index
                &&& final(self).stacking == old(self).stacking
                &&& final(self).last_fetch_error == old(self).last_fetch_error
                &&& final(self).config == old(self).config
            },
    {
        if self.pending.len() == 0 {
            None
        } else {
            let ev = self.pending.remove(0);
            proof {
                assert(self.pending@ =~= old(self).pending@.drop_first());
            }
            Some(ev)
        }
    }

    /// Swaps which list has focus; cursors and loaded data are untouched.
    pub fn switch_view(&mut self)
        ensures
            toggle_step(*old(self), *final(self)),
    {
        match self.selected_view {
            SelectedView::FeedView => self.selected_view = SelectedView::NewsView,
            SelectedView::NewsView => self.selected_view = SelectedView::FeedView,
        }
    }

    /// Dispatches a fetch of the given URL.
    pub fn get_channel(&mut self, url: String)
        ensures
            dispatch_step(*old(self), *final(self), IoEvent::GetChannel(url)),
    {
        self.dispatch(IoEvent::GetChannel(url));
    }

    /// Replaces the loaded document in full with a fresh, unselected item
    /// list. The loading flag is not touched here; the worker clears it.
    pub fn set_feed(&mut self, doc: FeedDocument)
        ensures
            final(self).news_data matches Some(l) && l.items == doc.items && l.cursor is None,
            final(self).feeds == old(self).feeds,
            final(self).pending == old(self).pending,
            final(self).is_loading == old(self).is_loading,
            final(self).selected_view == old(self).selected_view,
            final(self).news_index == old(self).news_index,
            final(self).stacking == old(self).stacking,
            final(self).last_fetch_error == old(self).last_fetch_error,
            final(self).config == old(self).config,
    {
        self.news_data = Some(StatefulList::with_items(doc.items));
    }

    /// Dispatches a fetch for the source under the feed cursor; a no-op when
    /// nothing is selected.
    pub fn view_feed_under_cursor(&mut self)
        requires
            old(self).wf(),
        ensures
            final(self).wf(),
            activate_feed_step(*old(self), *final(self)),
    {
        match self.feeds.cursor {
            Some(index) => {
                let url = self.feeds.items[index].url.clone();
                self.get_channel(url);
            },
            None => {},
        }
    }

    /// Leaves one drill-down level and resets the remembered item index.
    /// At depth zero the state is untouched and an error comes back instead:
    /// the depth counter never underflows.
    pub fn back(&mut self) -> (r: Result<(), NavError>)
        ensures
            old(self).stacking == 0 ==> r == Err::<(), NavError>(NavError::BackAtDepthZero)
                && *final(self) == *old(self),
            old(self).stacking > 0 ==> r == Ok::<(), NavError>(()) && back_step(
                *old(self),
                *final(self),
            ),
    {
        if self.stacking == 0 {
            Err(NavError::BackAtDepthZero)
        } else {
            self.news_index = 0;
            self.stacking = self.stacking - 1;
            Ok(())
        }
    }

    /// Drills into the item under the cursor: the depth rises by one and the
    /// cursor's index (or zero) is remembered for the detail view.
    pub fn view_news_under_cursor(&mut self)
        ensures
            drill_step(*old(self), *final(self)),
    {
        if self.stacking < usize::MAX {
            self.stacking = self.stacking + 1;
            self.news_index = match &self.news_data {
                Some(data) => match data.cursor {
                    Some(i) => i,
                    None => 0,
                },
                None => 0,
            };
        }
    }

    /// The item whose detail a drilled-in view shows: the remembered item of
    /// the loaded document, present exactly when the state is drilled in and
    /// the remembered index points inside the document. The renderer reads
    /// it; nothing is mutated.
    pub fn drilled_item(&self) -> (r: Option<&FeedItem>)
        ensures
            match r {
                Some(it) => self.stacking > 0 && (match self.news_data {
                    Some(l) => self.news_index < l.items@.len()
                        && *it == l.items@[self.news_index as int],
                    None => false,
                }),
                None => self.stacking == 0 || (match self.news_data {
                    Some(l) => self.news_index >= l.items@.len(),
                    None => true,
                }),
            },
    {
        if self.stacking == 0 {
            return None;
        }
        match &self.news_data {
            Some(l) => if self.news_index < l.items.len() {
                Some(&l.items[self.news_index])
            } else {
                None
            },
            None => None,
        }
    }

    /// One step of the input loop's decision logic: applies the semantics of
    /// one key to the state and says whether the loop should terminate.
    /// Quitting is only possible at drill depth zero; deeper, the same key
    /// first backs out one level.
    pub fn handle_key(&mut self, action: KeyAction) -> (quit: bool)
        requires
            old(self).wf(),
        ensures
            final(self).wf(),
            match action {
                KeyAction::QuitOrBack => (if old(self).stacking == 0 {
                    quit == true && *final(self) == *old(self)
                } else {
                    quit == false && back_step(*old(self), *final(self))
                }),
                KeyAction::ToggleView => quit == false && toggle_step(*old(self), *final(self)),
                KeyAction::CursorNext => quit == false && cursor_next_step(
                    *old(self),
                    *final(self),
                ),
                KeyAction::CursorPrevious => quit == false && cursor_prev_step(
                    *old(self),
                    *final(self),
                ),
                KeyAction::Unselect => quit == false && unselect_step(*old(self), *final(self)),
                KeyAction::Activate => quit == false && match old(self).selected_view {
                    SelectedView::FeedView => activate_feed_step(*old(self), *final(self)),
                    SelectedView::NewsView => drill_step(*old(self), *final(self)),
                },
            },
    {
        match action {
            KeyAction::QuitOrBack => {
                if self.stacking == 0 {
                    true
                } else {
                    let _ = self.back();
                    false
                }
            },
            KeyAction::ToggleView => {
                self.switch_view();
                false
            },
            KeyAction::CursorNext => {
                match self.selected_view {
                    SelectedView::FeedView => self.feeds.next(),
                    SelectedView::NewsView => {
                        match &mut self.news_data {
                            Some(l) => l.next(),
                            None => {},
                        }
                    },
                }
                false
            },
            KeyAction::CursorPrevious => {
                match self.selected_view {
                    SelectedView::FeedView => self.feeds.previous(),
                    SelectedView::NewsView => {
                        match &mut self.news_data {
                            Some(l) => l.previous(),
                            None => {},
                        }
                    },
                }
                false
            },
            KeyAction::Unselect => {
                self.feeds.unselect();
                false
            },
            KeyAction::Activate => {
                match self.selected_view {
                    SelectedView::FeedView => self.view_feed_under_cursor(),
                    SelectedView::NewsView => self.view_news_under_cursor(),
                }
                false
            },
        }
    }
}

/// Toggling the view twice restores the mode it started in; `toggle_step`
/// keeps every other field, so two toggles leave the whole state as it was.
pub proof fn lemma_toggle_twice(v: SelectedView)
    ensures
        toggled(toggled(v)) == v,
{
}

} // verus!
