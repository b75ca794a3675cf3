//! The background worker's side of the fetch hand-off.
//!
//! The input loop never performs network I/O: it enqueues an `IoEvent` and
//! returns. The worker takes one request at a time from the queue, lets the
//! transport retrieve the response bytes outside any lock, and then — in one
//! exclusive step on the state — parses the bytes, merges a successful
//! document in full, and clears the loading flag. A failed transport or parse
//! leaves the loaded document untouched; the flag is still cleared exactly
//! once per request.

use vstd::prelude::*;

verus! {

use crate::app::App;
use crate::feed::{FeedDocument, FeedDocumentView, FeedItem};
use crate::list::StatefulList;

/// A request from the input loop to the worker.
pub enum IoEvent {
    /// Fetch and load the feed at this URL.
    GetChannel(String),
}

/// Why a fetch produced no document.
#[derive(Clone, Copy, Debug, PartialEq, Eq, Structural)]
pub enum FetchError {
    /// The transport failed before a response body arrived.
    Network,
    /// The response body was not a valid feed document.
    Parse,
}

/// The document that parsing the given bytes yields, if they parse; parsing
/// depends on the bytes alone.
pub uninterp spec fn parsed_feed(bytes: Seq<u8>) -> Option<FeedDocumentView>;

/// Relies on rss::Channel::read_from: it parses raw bytes into a feed channel
/// or fails, deterministically in the bytes; the channel's title and items
/// are carried over field by field.
#[verifier::external_body]
fn parse_feed(bytes: &Vec<u8>) -> (r: Result<FeedDocument, FetchError>)
    ensures
        match r {
            Ok(doc) => parsed_feed(bytes@) == Some(doc@),
            Err(e) => parsed_feed(bytes@) is None && e == FetchError::Parse,
        },
{
    match rss::Channel::read_from(&bytes[..]) {
        Ok(ch) => Ok(FeedDocument {
            title: ch.title().to_string(),
            items: ch.items().iter().map(|it| FeedItem {
                title: it.title().unwrap_or_default().to_string(),
                description: it.description().map(|d| d.to_string()),
            }).collect(),
        }),
        Err(_) => Err(FetchError::Parse),
    }
}

/// The document was merged: the loaded items were replaced in full by the
/// document's items with nothing selected, the loading flag was cleared, any
/// remembered fetch error was forgotten, and nothing else moved.
pub open spec fn merge_step(pre: App, post: App, doc: FeedDocumentView) -> bool {
    &&& post.news_data matches Some(l) && items_of(l) == doc.items && l.cursor is None
    &&& post.is_loading == false
    &&& post.last_fetch_error is None
    &&& post.feeds == pre.feeds
    &&& post.pending == pre.pending
    &&& post.selected_view == pre.selected_view
    &&& post.news_index == pre.news_index
    &&& post.stacking == pre.stacking
    &&& post.config == pre.config
}

/// The outcome was discarded: the loaded document is untouched, the loading
/// flag was cleared, and the failure is visible in `last_fetch_error`.
pub open spec fn discard_step(pre: App, post: App, err: FetchError) -> bool {
    &&& post.is_loading == false
    &&& post.last_fetch_error == Some(err)
    &&& post.feeds == pre.feeds
    &&& post.news_data == pre.news_data
    &&& post.pending == pre.pending
    &&& post.selected_view == pre.selected_view
    &&& post.news_index == pre.news_index
    &&& post.stacking == pre.stacking
    &&& post.config == pre.config
}

/// The item list's contents as mathematical values.
pub open spec fn items_of(l: StatefulList<FeedItem>) -> Seq<crate::feed::FeedItemView> {
    l.items@.map_values(|it: FeedItem| it@)
}

/// The worker. It owns no state of its own: every effect of a fetch lands in
/// the shared `App`, under the caller's exclusive access.
pub struct Network {
}

impl Network {
    /// Builds a worker.
    pub fn new() -> (n: Network) {
        Network {  }
    }

    /// Merges one fetch outcome into the state: a document replaces the
    /// loaded items in full; an error of either kind leaves them untouched
    /// and is remembered as the last fetch error. Either way the loading
    /// flag is cleared exactly once.
    pub fn apply_fetch_outcome(&mut self, app: &mut App, fetched: Result<FeedDocument, FetchError>)
        requires
            old(app).wf(),
        ensures
            final(app).wf(),
            final(app).is_loading == false,
            match fetched {
                Ok(doc) => merge_step(*old(app), *final(app), doc@),
                Err(e) => discard_step(*old(app), *final(app), e),
            },
    {
        match fetched {
            Ok(doc) => {
                app.set_feed(doc);
                app.last_fetch_error = None;
            },
            Err(e) => {
                app.last_fetch_error = Some(e);
            },
        }
        app.is_loading = false;
    }

    /// Handles one request from the queue, given what the transport brought
    /// back for its URL: response bytes are parsed and a document merged; a
    /// transport error or unparsable bytes leave the loaded document
    /// untouched and are remembered as the last fetch error. The loading
    /// flag is cleared exactly once, whatever came back. The worker finishes
    /// each request before it looks at the next, so two fetches never
    /// interleave.
    pub fn handle_network_event(
        &mut self,
        app: &mut App,
        io_event: IoEvent,
        transport: Result<Vec<u8>, FetchError>,
    )
        requires
            old(app).wf(),
        ensures
            final(app).wf(),
            final(app).is_loading == false,
            match transport {
                Ok(bytes) => match parsed_feed(bytes@) {
                    Some(doc) => merge_step(*old(app), *final(app), doc),
                    None => discard_step(*old(app), *final(app), FetchError::Parse),
                },
                Err(e) => discard_step(*old(app), *final(app), e),
            },
    {
        match io_event {
            IoEvent::GetChannel(url) => {
                let fetched: Result<FeedDocument, FetchError> = match transport {
                    Ok(bytes) => parse_feed(&bytes),
                    Err(e) => Err(e),
                };
                self.apply_fetch_outcome(app, fetched);
            },
        }
    }
}

/// FIFO law: from an empty queue, after dispatching first `r1` and then `r2`,
/// the worker is handed `r1` first and exactly `r2` remains — the first
/// request's effect is applied before the second's fetch begins.
pub proof fn lemma_fifo_order(r1: IoEvent, r2: IoEvent)
    ensures
        Seq::<IoEvent>::empty().push(r1).push(r2).first() == r1,
        Seq::<IoEvent>::empty().push(r1).push(r2).drop_first() == seq![r2],
{
    assert(Seq::<IoEvent>::empty().push(r1).push(r2).drop_first() =~= seq![r2]);
}

} // verus!
