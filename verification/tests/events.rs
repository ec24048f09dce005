use edge_webview::edge::Lifecycle;
use edge_webview::edge_manual::ffi_result;
use edge_webview::edge_manual::webview;
use edge_webview::edge_manual::webview_dispatch_callback;
use edge_webview::edge_manual::Content;
use edge_webview::edge_manual::CreateWindow;
use edge_webview::edge_manual::Event;
use edge_webview::edge_manual::EventType;
use edge_webview::edge_manual::NativeText;
use edge_webview::edge_manual::Navigate;
use edge_webview::edge_manual::NavigateTarget;
use edge_webview::edge_manual::Run;
use edge_webview::edge_manual::Step;
use edge_webview::edge_manual::WebView;
use edge_webview::error::Error;

fn ready_view() -> WebView<'static> {
    let (mut view, _) = WebView::new("Basic Example", Content::Html(String::from("<p>hi</p>")), (800, 600), true)
        .unwrap_or_else(|e| panic!("{:?}", e));
    assert!(view.window_created(0, 0x40, String::new()).is_ok());
    assert_eq!(view.navigated(0, String::new()), Ok(()));
    view
}

#[test]
fn web_view_starts_with_the_call_that_opens_its_window() {
    let (view, call) = WebView::new("Basic Example", Content::Html(String::from("<p>hi</p>")), (800, 600), true)
        .unwrap_or_else(|e| panic!("{:?}", e));
    assert_eq!(
        call,
        CreateWindow {
            title: vec![66, 97, 115, 105, 99, 32, 69, 120, 97, 109, 112, 108, 101, 0],
            width: 800,
            height: 600,
            resizable: true,
        }
    );
    assert_eq!(view.state(), Lifecycle::Pending);
}

#[test]
fn title_with_a_zero_byte_is_invalid() {
    assert_eq!(
        WebView::new("a\0b", Content::Url(String::from("https://example.org")), (1, 1), false).err(),
        Some(Error::InvalidText)
    );
}

#[test]
fn window_shows_markup_address_or_embedded_page() {
    let (mut html, _) = WebView::new("t", Content::Html(String::from("<b>")), (1, 1), false)
        .unwrap_or_else(|e| panic!("{:?}", e));
    assert_eq!(
        html.window_created(0, 5, String::new()),
        Ok(Navigate { window: 5, target: NavigateTarget::Html(vec![b'<', b'b', b'>', 0]) })
    );
    assert_eq!(html.window(), 5);
    let (mut url, _) = WebView::new("t", Content::Url(String::from("a:b")), (1, 1), false)
        .unwrap_or_else(|e| panic!("{:?}", e));
    assert_eq!(
        url.window_created(0, 6, String::new()),
        Ok(Navigate { window: 6, target: NavigateTarget::Url(vec![b'a', b':', b'b', 0]) })
    );
    let entries = [];
    let dir = include_dir::Dir::new("", &entries);
    let (mut embedded, _) = WebView::new("t", Content::Dir(dir, String::from("/i")), (1, 1), false)
        .unwrap_or_else(|e| panic!("{:?}", e));
    assert_eq!(
        embedded.window_created(0, 7, String::new()),
        Ok(Navigate { window: 7, target: NavigateTarget::StreamResolver(vec![b'/', b'i', 0]) })
    );
    assert_eq!(embedded.state(), Lifecycle::Pending);
}

#[test]
fn window_that_was_not_made_fails_the_web_view() {
    let (mut view, _) = WebView::new("t", Content::Html(String::from("<b>")), (1, 1), false)
        .unwrap_or_else(|e| panic!("{:?}", e));
    assert_eq!(
        view.window_created(-3, 0, String::from("no window")),
        Err(Error::NativeCreationFailed(-3, String::from("no window")))
    );
    assert_eq!(view.state(), Lifecycle::Failed);
    assert_eq!(view.window_created(0, 5, String::new()), Err(Error::NotInitialized));
    assert_eq!(view.navigated(0, String::new()), Err(Error::NotInitialized));
    assert_eq!(view.eval_script("1").err(), Some(Error::NotInitialized));
}

#[test]
fn content_with_a_zero_byte_fails_the_web_view() {
    let (mut view, _) = WebView::new("t", Content::Url(String::from("a\0b")), (1, 1), false)
        .unwrap_or_else(|e| panic!("{:?}", e));
    assert_eq!(view.window_created(0, 5, String::new()), Err(Error::InvalidText));
    assert_eq!(view.state(), Lifecycle::Failed);
    assert_eq!(view.window(), 5);
}

#[test]
fn navigation_that_fails_fails_the_web_view() {
    let (mut view, _) = WebView::new("t", Content::Url(String::from("x")), (1, 1), false)
        .unwrap_or_else(|e| panic!("{:?}", e));
    assert_eq!(view.navigated(0, String::new()), Err(Error::NotInitialized));
    assert!(view.window_created(0, 5, String::new()).is_ok());
    assert_eq!(
        view.navigated(7, String::from("bad address")),
        Err(Error::NativeCreationFailed(7, String::from("bad address")))
    );
    assert_eq!(view.state(), Lifecycle::Failed);
    assert_eq!(view.navigated(0, String::new()), Err(Error::NotInitialized));
}

#[test]
fn scripts_and_styles_become_zero_terminated_text() {
    let mut view = ready_view();
    assert_eq!(view.state(), Lifecycle::Ready);
    assert_eq!(view.eval_script("1+1"), Ok(NativeText { window: 0x40, text: vec![b'1', b'+', b'1', 0] }));
    assert_eq!(view.inject_css("p{}"), Ok(NativeText { window: 0x40, text: vec![b'p', b'{', b'}', 0] }));
    assert_eq!(view.eval_script("1\0"), Err(Error::InvalidText));
    assert_eq!(view.inject_css("\0"), Err(Error::InvalidText));
}

#[test]
fn scripts_are_refused_before_ready_and_after_disposal() {
    let (mut view, _) = WebView::new("t", Content::Url(String::from("x")), (1, 1), false)
        .unwrap_or_else(|e| panic!("{:?}", e));
    assert_eq!(view.eval_script("1"), Err(Error::NotInitialized));
    assert_eq!(view.eval_script("\0"), Err(Error::InvalidText));
    let mut ready = ready_view();
    assert_eq!(ready.dispose(), Vec::<u64>::new());
    assert_eq!(ready.eval_script("1"), Err(Error::Disposed));
    assert_eq!(ready.inject_css("p{}"), Err(Error::Disposed));
}

#[test]
fn native_answers_become_results() {
    assert_eq!(ffi_result((String::from("2"), 0), String::new()), Ok(String::from("2")));
    assert_eq!(ffi_result(((), 0), String::from("stale")), Ok(()));
    assert_eq!(
        ffi_result((String::from("2"), -1), String::from("script failed")),
        Err(Error::NativeCreationFailed(-1, String::from("script failed")))
    );
}

#[test]
fn notifications_become_events() {
    assert_eq!(Event::from_native(EventType::Idle, String::from("x")), None);
    assert_eq!(Event::from_native(EventType::Quit, String::from("x")), Some(Event::Quit));
    assert_eq!(
        Event::from_native(EventType::DOMContentLoaded, String::new()),
        Some(Event::DOMContentLoaded)
    );
    assert_eq!(
        Event::from_native(EventType::ScriptNotify, String::from("x")),
        Some(Event::ScriptNotify(String::from("x")))
    );
    assert!(Event::Quit.is_quit());
    assert!(!Event::DOMContentLoaded.is_quit());
    assert!(!Event::ScriptNotify(String::new()).is_quit());
}

#[test]
fn polling_hands_out_what_waits_and_never_blocks() {
    let mut view = ready_view();
    let mut none = view.poll_iter();
    assert!(!none.blocking());
    assert_eq!(none.next(&mut view), Step::Done);
    view.notify(EventType::DOMContentLoaded, String::new());
    view.notify(EventType::Idle, String::new());
    view.notify(EventType::ScriptNotify, String::from("a"));
    view.notify(EventType::ScriptNotify, String::from("a"));
    let mut poll = view.poll_iter();
    assert_eq!(poll.next(&mut view), Step::Event(Event::DOMContentLoaded));
    assert_eq!(poll.next(&mut view), Step::Event(Event::ScriptNotify(String::from("a"))));
    assert_eq!(poll.next(&mut view), Step::Event(Event::ScriptNotify(String::from("a"))));
    assert_eq!(poll.next(&mut view), Step::Done);
    assert_eq!(poll.next(&mut view), Step::Done);
    let mut again = view.poll_iter();
    assert_eq!(again.next(&mut view), Step::Done);
}

#[test]
fn waiting_ends_only_after_an_event() {
    let mut view = ready_view();
    let mut wait = view.wait_iter();
    assert!(wait.blocking());
    assert_eq!(wait.next(&mut view), Step::Block);
    assert_eq!(wait.next(&mut view), Step::Block);
    view.notify(EventType::Idle, String::new());
    assert_eq!(wait.next(&mut view), Step::Block);
    view.notify(EventType::ScriptNotify, String::from("ping"));
    assert_eq!(wait.next(&mut view), Step::Event(Event::ScriptNotify(String::from("ping"))));
    assert_eq!(wait.next(&mut view), Step::Done);
    let mut next = view.wait_iter();
    assert_eq!(next.next(&mut view), Step::Block);
}

#[test]
fn run_loop_delivers_until_quit() {
    let mut view = ready_view();
    assert_eq!(webview(&mut view), Run { deliver: vec![], quit: false });
    view.notify(EventType::DOMContentLoaded, String::new());
    view.notify(EventType::ScriptNotify, String::from("a"));
    assert_eq!(
        webview(&mut view),
        Run {
            deliver: vec![Event::DOMContentLoaded, Event::ScriptNotify(String::from("a"))],
            quit: false,
        }
    );
    view.notify(EventType::ScriptNotify, String::from("b"));
    view.notify(EventType::Quit, String::new());
    view.notify(EventType::ScriptNotify, String::from("c"));
    view.notify(EventType::Quit, String::new());
    assert_eq!(
        webview(&mut view),
        Run { deliver: vec![Event::ScriptNotify(String::from("b"))], quit: true }
    );
    assert_eq!(
        webview(&mut view),
        Run { deliver: vec![Event::ScriptNotify(String::from("c"))], quit: true }
    );
    assert_eq!(webview(&mut view), Run { deliver: vec![], quit: false });
}

#[test]
fn dispatcher_posts_in_order_to_a_ready_web_view() {
    let (mut view, _) = WebView::new("t", Content::Url(String::from("x")), (1, 1), false)
        .unwrap_or_else(|e| panic!("{:?}", e));
    let mut dispatcher = view.dispatcher();
    assert_eq!(dispatcher.dispatch(&mut view, 1), Err(Error::NotInitialized));
    assert!(view.window_created(0, 5, String::new()).is_ok());
    assert_eq!(dispatcher.dispatch(&mut view, 1), Err(Error::NotInitialized));
    assert_eq!(view.navigated(0, String::new()), Ok(()));
    let mut other = dispatcher.clone();
    assert_eq!(dispatcher.dispatch(&mut view, 11), Ok(()));
    assert_eq!(other.dispatch(&mut view, 12), Ok(()));
    assert_eq!(dispatcher.dispatch(&mut view, 13), Ok(()));
    assert_eq!(webview_dispatch_callback(&mut view), Some(11));
    assert_eq!(webview_dispatch_callback(&mut view), Some(12));
    assert_eq!(webview_dispatch_callback(&mut view), Some(13));
    assert_eq!(webview_dispatch_callback(&mut view), None);
}

#[test]
fn dispatcher_fails_after_disposal() {
    let mut view = ready_view();
    let mut dispatcher = view.dispatcher();
    assert_eq!(dispatcher.dispatch(&mut view, 11), Ok(()));
    assert_eq!(view.dispose(), vec![11]);
    assert_eq!(dispatcher.dispatch(&mut view, 12), Err(Error::Disposed));
    assert_eq!(webview_dispatch_callback(&mut view), None);
}
