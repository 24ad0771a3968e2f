use chat_interaction::content::{extract, find_first_link, has_links, join_lines, render};
use chat_interaction::friend::{remove_friend, start_conversation, CreateError, RemovalOutcome};
use chat_interaction::msg::{group_positions, Message, Msg, Position, Props};
use chat_interaction::preview::{FetchState, PreviewAction, PreviewCache, SiteMeta};
use chat_interaction::reply::{ReplyComposer, TypingSignal};
use chat_interaction::state::{Action, AppState, ConversationId, Language};

fn meta(title: &str, url: &str) -> SiteMeta {
    SiteMeta {
        title: title.to_string(),
        description: "about".to_string(),
        favicon: Some("https://example.com/favicon.ico".to_string()),
        url: url.to_string(),
    }
}

fn is_empty_meta(m: &SiteMeta) -> bool {
    m.title.is_empty() && m.description.is_empty() && m.favicon.is_none() && m.url.is_empty()
}

#[test]
fn render_strikethrough() {
    let html = render("~~gone~~");
    assert!(html.contains("<del>gone</del>"), "{}", html);
}

#[test]
fn render_emphasis_and_code() {
    assert_eq!(render("*hi* `x`"), "<p><em>hi</em> <code>x</code></p>\n");
}

#[test]
fn render_empty_is_empty() {
    assert_eq!(render(""), "");
}

#[test]
fn render_plain_text_is_a_paragraph() {
    assert_eq!(render("hello"), "<p>hello</p>\n");
}

#[test]
fn extract_two_links_in_order() {
    let text = "check https://example.com and www.foo.org";
    let links = extract(text);
    assert_eq!(links, vec!["https://example.com".to_string(), "www.foo.org".to_string()]);
    assert!(has_links(text));
    assert_eq!(find_first_link(text), Some("https://example.com".to_string()));
}

#[test]
fn extract_no_links() {
    let text = "no links here";
    assert!(extract(text).is_empty());
    assert!(!has_links(text));
    assert_eq!(find_first_link(text), None);
}

#[test]
fn join_lines_with_newlines() {
    let lines = vec!["a".to_string(), "bc".to_string(), "".to_string(), "d".to_string()];
    assert_eq!(join_lines(&lines), "a\nbc\n\nd");
    assert_eq!(join_lines(&vec!["one".to_string()]), "one");
    assert_eq!(join_lines(&Vec::new()), "");
}

#[test]
fn preview_without_links_needs_no_fetch() {
    let mut cache = PreviewCache::new();
    match cache.request("no links here") {
        PreviewAction::Show(m) => assert!(is_empty_meta(&m)),
        _ => panic!("expected the empty preview"),
    }
    assert!(cache.state_of("no links here").is_none());
}

#[test]
fn preview_same_text_fetches_once() {
    let mut cache = PreviewCache::new();
    let text = "see https://example.com/a and https://example.com/b";
    match cache.request(text) {
        PreviewAction::Fetch(url) => assert_eq!(url, "https://example.com/a"),
        _ => panic!("expected a fetch of the first link"),
    }
    assert!(matches!(cache.request(text), PreviewAction::Wait));
    assert!(matches!(cache.state_of(text), Some(FetchState::Pending)));
    cache.complete(text, Some(meta("Example", "https://example.com/a")));
    for _ in 0..2 {
        match cache.request(text) {
            PreviewAction::Show(m) => {
                assert_eq!(m.title, "Example");
                assert_eq!(m.url, "https://example.com/a");
            }
            _ => panic!("expected the fetched preview"),
        }
    }
}

#[test]
fn preview_failed_fetch_shows_empty() {
    let mut cache = PreviewCache::new();
    let text = "www.foo.org";
    assert!(matches!(cache.request(text), PreviewAction::Fetch(_)));
    cache.complete(text, None);
    assert!(matches!(cache.state_of(text), Some(FetchState::Failed)));
    match cache.request(text) {
        PreviewAction::Show(m) => assert!(is_empty_meta(&m)),
        _ => panic!("expected the empty preview"),
    }
}

#[test]
fn preview_result_for_unrequested_text_is_discarded() {
    let mut cache = PreviewCache::new();
    cache.complete("https://example.com", Some(meta("X", "https://example.com")));
    assert!(cache.state_of("https://example.com").is_none());
    assert!(matches!(cache.request("https://example.com"), PreviewAction::Fetch(_)));
}

#[test]
fn preview_second_result_does_not_overwrite() {
    let mut cache = PreviewCache::new();
    let text = "https://example.com";
    assert!(matches!(cache.request(text), PreviewAction::Fetch(_)));
    cache.complete(text, Some(meta("First", text)));
    cache.complete(text, None);
    match cache.request(text) {
        PreviewAction::Show(m) => assert_eq!(m.title, "First"),
        _ => panic!("expected the first result"),
    }
}

#[test]
fn preview_distinct_texts_fetch_separately() {
    let mut cache = PreviewCache::new();
    assert!(matches!(cache.request("https://a.example.com"), PreviewAction::Fetch(_)));
    assert!(matches!(cache.request("https://a.example.com again"), PreviewAction::Fetch(_)));
}

#[test]
fn site_meta_default_is_empty() {
    assert!(is_empty_meta(&SiteMeta::default()));
    let m = meta("T", "u");
    let c = m.duplicate();
    assert_eq!(c.title, "T");
    assert_eq!(c.favicon, m.favicon);
}

#[test]
fn reply_round_trip() {
    let mut c = ReplyComposer::new();
    c.open();
    assert!(c.is_open());
    assert_eq!(c.on_input("hi".to_string()), TypingSignal::Typing);
    let sent = c.on_submit();
    assert_eq!(sent, "hi");
    assert!(c.draft().is_empty());
    assert!(!c.is_open());
}

#[test]
fn reply_empty_submit_is_forwarded() {
    let mut c = ReplyComposer::new();
    assert_eq!(c.on_submit(), "");
}

#[test]
fn reply_dismiss_discards_draft() {
    let mut c = ReplyComposer::new();
    c.open();
    c.on_input("draft".to_string());
    c.dismiss();
    assert!(c.draft().is_empty());
    assert!(!c.is_open());
}

#[test]
fn start_conversation_new() {
    let mut s = AppState::new();
    let c = ConversationId { id: 7 };
    assert_eq!(start_conversation(&mut s, Ok(c)), Some(c));
    assert_eq!(s.active_conversation, Some(c));
}

#[test]
fn start_conversation_twice_same_handle() {
    let mut s = AppState::new();
    let c = ConversationId { id: 42 };
    let a = start_conversation(&mut s, Ok(c));
    let b = start_conversation(&mut s, Err(CreateError::ConversationExist { conversation: c }));
    assert_eq!(a, Some(c));
    assert_eq!(b, Some(c));
    assert_eq!(s.active_conversation, Some(c));
}

#[test]
fn start_conversation_other_failure_keeps_state() {
    let mut s = AppState::new();
    let before = ConversationId { id: 1 };
    s.dispatch(Action::ChatWith(before));
    let r = start_conversation(&mut s, Err(CreateError::Other("offline".to_string())));
    assert_eq!(r, None);
    assert_eq!(s.active_conversation, Some(before));
}

#[test]
fn remove_friend_failure_is_absorbed() {
    let mut s = AppState::new();
    s.dispatch(Action::ChatWith(ConversationId { id: 3 }));
    s.dispatch(Action::HideSidebar(true));
    match remove_friend(&mut s, Err("not a friend".to_string())) {
        RemovalOutcome::Failed(e) => assert_eq!(e, "not a friend"),
        RemovalOutcome::Removed => panic!("expected a failure"),
    }
    assert_eq!(s.active_conversation, Some(ConversationId { id: 3 }));
    assert!(s.hide_sidebar);
    assert_eq!(s.language.tag, "en-US");
}

#[test]
fn remove_friend_success_keeps_conversation() {
    let mut s = AppState::new();
    s.dispatch(Action::ChatWith(ConversationId { id: 9 }));
    assert!(matches!(remove_friend(&mut s, Ok(())), RemovalOutcome::Removed));
    assert_eq!(s.active_conversation, Some(ConversationId { id: 9 }));
}

#[test]
fn dispatch_changes_one_field() {
    let mut s = AppState::new();
    assert_eq!(s.active_conversation, None);
    assert!(!s.hide_sidebar);
    s.dispatch(Action::HideSidebar(true));
    assert!(s.hide_sidebar);
    s.dispatch(Action::SetLanguage(Language { tag: "de-DE".to_string() }));
    assert_eq!(s.language.tag, "de-DE");
    assert!(s.hide_sidebar);
    assert_eq!(s.active_conversation, None);
}

#[test]
fn positions_of_runs() {
    let senders: Vec<String> = ["a", "a", "a", "b", "a", "a"].iter().map(|s| s.to_string()).collect();
    let p = group_positions(&senders);
    let pos = |first, middle, last| Position { first, middle, last };
    assert_eq!(
        p,
        vec![
            pos(true, false, false),
            pos(false, true, false),
            pos(false, false, true),
            pos(true, false, true),
            pos(true, false, false),
            pos(false, false, true),
        ]
    );
    assert!(group_positions(&Vec::new()).is_empty());
}

#[test]
fn msg_renders_joined_text() {
    let props = Props {
        message: Message {
            lines: vec!["~~old~~ see".to_string(), "https://example.com".to_string()],
            timestamp: 0,
            sender: "did:key:abc".to_string(),
        },
        remote: true,
        position: Position { first: true, middle: false, last: true },
    };
    let r = Msg(&props);
    assert_eq!(r.text, "~~old~~ see\nhttps://example.com");
    assert!(r.html.contains("<del>old</del>"));
    assert_eq!(r.links, vec!["https://example.com".to_string()]);
    assert!(r.has_links());
    assert!(r.remote);
    assert_eq!(r.position, Position { first: true, middle: false, last: true });
}
