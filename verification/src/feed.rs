//! The feed document model: a parsed feed is a titled, ordered sequence of
//! items, each with a title and an optional description. A document replaces
//! any previously loaded one in full; nothing is merged incrementally.

use vstd::prelude::*;

verus! {

/// One entry of a feed document.
pub struct FeedItem {
    /// The item's title; empty when the feed carries none.
    pub title: String,
    /// The item's body text, if the feed carries one.
    pub description: Option<String>,
}

/// A parsed feed document.
pub struct FeedDocument {
    /// The feed's own title.
    pub title: String,
    /// The feed's entries, in document order.
    pub items: Vec<FeedItem>,
}

/// The mathematical value of a `FeedItem`.
pub ghost struct FeedItemView {
    pub title: Seq<char>,
    pub description: Option<Seq<char>>,
}

/// The mathematical value of a `FeedDocument`.
pub ghost struct FeedDocumentView {
    pub title: Seq<char>,
    pub items: Seq<FeedItemView>,
}

impl View for FeedItem {
    type V = FeedItemView;

    open spec fn view(&self) -> FeedItemView {
        FeedItemView {
            title: self.title@,
            description: match self.description {
                Some(d) => Some(d@),
                None => None,
            },
        }
    }
}

impl View for FeedDocument {
    type V = FeedDocumentView;

    open spec fn view(&self) -> FeedDocumentView {
        FeedDocumentView { title: self.title@, items: self.items@.map_values(|it: FeedItem| it@) }
    }
}

} // verus!
