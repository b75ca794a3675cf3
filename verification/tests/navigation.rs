use fred_rss::app::{App, Config, ConfigFeed, KeyAction, NavError, SelectedView};
use fred_rss::feed::{FeedDocument, FeedItem};
use fred_rss::list::StatefulList;

fn source(name: &str, url: &str) -> ConfigFeed {
    ConfigFeed { name: name.to_string(), url: url.to_string() }
}

fn document(n: usize) -> FeedDocument {
    let mut items = Vec::new();
    let mut i = 0;
    while i < n {
        items.push(FeedItem {
            title: format!("item {}", i),
            description: if i % 2 == 0 { Some(format!("body {}", i)) } else { None },
        });
        i += 1;
    }
    FeedDocument { title: "Example".to_string(), items }
}

#[test]
fn next_wraps_from_last_to_first() {
    let mut l = StatefulList::with_items(vec![10u32, 20, 30]);
    assert_eq!(l.cursor, None);
    l.next();
    assert_eq!(l.cursor, Some(0));
    l.next();
    assert_eq!(l.cursor, Some(1));
    l.next();
    assert_eq!(l.cursor, Some(2));
    l.next();
    assert_eq!(l.cursor, Some(0));
}

#[test]
fn previous_wraps_from_first_to_last() {
    let mut l = StatefulList::with_items(vec![1u32, 2, 3]);
    l.next();
    assert_eq!(l.cursor, Some(0));
    l.previous();
    assert_eq!(l.cursor, Some(2));
    l.previous();
    assert_eq!(l.cursor, Some(1));
}

#[test]
fn full_cycle_returns_to_start() {
    let mut l = StatefulList::with_items(vec![0u32, 1, 2, 3]);
    l.next();
    l.next();
    assert_eq!(l.cursor, Some(1));
    for _ in 0..4 {
        l.next();
    }
    assert_eq!(l.cursor, Some(1));
}

#[test]
fn unselect_then_next_selects_first() {
    let mut l = StatefulList::with_items(vec!["a", "b", "c"]);
    l.next();
    l.next();
    assert_eq!(l.cursor, Some(1));
    l.unselect();
    assert_eq!(l.cursor, None);
    l.next();
    assert_eq!(l.cursor, Some(0));
}

#[test]
fn moves_on_empty_list_keep_cursor_cleared() {
    let mut l: StatefulList<u32> = StatefulList::with_items(Vec::new());
    l.next();
    assert_eq!(l.cursor, None);
    l.previous();
    assert_eq!(l.cursor, None);
    l.unselect();
    l.next();
    assert_eq!(l.cursor, None);
}

#[test]
fn item_list_cursor_wraps_at_five() {
    let mut app = App::new(Config { feeds: vec![source("Example", "http://x/feed")] });
    app.set_feed(document(5));
    app.switch_view();
    assert_eq!(app.selected_view, SelectedView::NewsView);
    for _ in 0..5 {
        app.handle_key(KeyAction::CursorNext);
    }
    assert_eq!(app.news_data.as_ref().unwrap().cursor, Some(4));
    let quit = app.handle_key(KeyAction::CursorNext);
    assert!(!quit);
    assert_eq!(app.news_data.as_ref().unwrap().cursor, Some(0));
}

#[test]
fn toggle_twice_restores_mode_and_cursors() {
    let mut app = App::new(Config { feeds: vec![source("A", "http://a/"), source("B", "http://b/")] });
    app.feeds.next();
    app.set_feed(document(3));
    let mode_before = app.selected_view;
    let feed_cursor_before = app.feeds.cursor;
    let news_cursor_before = app.news_data.as_ref().unwrap().cursor;
    app.handle_key(KeyAction::ToggleView);
    assert_eq!(app.selected_view, SelectedView::NewsView);
    app.handle_key(KeyAction::ToggleView);
    assert_eq!(app.selected_view, mode_before);
    assert_eq!(app.feeds.cursor, feed_cursor_before);
    assert_eq!(app.news_data.as_ref().unwrap().cursor, news_cursor_before);
}

#[test]
fn back_at_depth_zero_is_a_checked_error() {
    let mut app = App::new(Config { feeds: vec![source("A", "http://a/")] });
    assert_eq!(app.stacking, 0);
    let r = app.back();
    assert_eq!(r, Err(NavError::BackAtDepthZero));
    assert_eq!(app.stacking, 0);
    assert_eq!(app.news_index, 0);
}

#[test]
fn quit_key_backs_out_of_drill_before_quitting() {
    let mut app = App::new(Config { feeds: vec![source("A", "http://a/")] });
    app.set_feed(document(3));
    app.switch_view();
    app.handle_key(KeyAction::CursorNext);
    app.handle_key(KeyAction::CursorNext);
    assert_eq!(app.news_data.as_ref().unwrap().cursor, Some(1));
    let quit = app.handle_key(KeyAction::Activate);
    assert!(!quit);
    assert_eq!(app.stacking, 1);
    assert_eq!(app.news_index, 1);
    let quit = app.handle_key(KeyAction::QuitOrBack);
    assert!(!quit);
    assert_eq!(app.stacking, 0);
    assert_eq!(app.news_index, 0);
    let quit = app.handle_key(KeyAction::QuitOrBack);
    assert!(quit);
}

#[test]
fn drilled_item_is_the_one_under_the_cursor() {
    let mut app = App::new(Config { feeds: vec![source("A", "http://a/")] });
    app.set_feed(document(3));
    assert!(app.drilled_item().is_none());
    app.switch_view();
    app.handle_key(KeyAction::CursorNext);
    app.handle_key(KeyAction::CursorNext);
    app.handle_key(KeyAction::Activate);
    let item = app.drilled_item().expect("drilled into a loaded item");
    assert_eq!(item.title, "item 1");
    assert_eq!(item.description.as_deref(), None);
    app.handle_key(KeyAction::QuitOrBack);
    assert!(app.drilled_item().is_none());
}

#[test]
fn drill_without_document_remembers_index_zero() {
    let mut app = App::new(Config { feeds: vec![source("A", "http://a/")] });
    app.switch_view();
    app.handle_key(KeyAction::Activate);
    assert_eq!(app.stacking, 1);
    assert_eq!(app.news_index, 0);
}

#[test]
fn unselect_clears_feed_cursor_only() {
    let mut app = App::new(Config { feeds: vec![source("A", "http://a/"), source("B", "http://b/")] });
    app.feeds.next();
    app.set_feed(document(2));
    app.switch_view();
    app.handle_key(KeyAction::CursorNext);
    app.handle_key(KeyAction::Unselect);
    assert_eq!(app.feeds.cursor, None);
    assert_eq!(app.news_data.as_ref().unwrap().cursor, Some(0));
}
