use edge_webview::api::assert_initialized;
use edge_webview::api::assert_main;
use edge_webview::api::dispatch;
use edge_webview::api::execute;
use edge_webview::api::exit;
use edge_webview::api::start;
use edge_webview::api::Command;
use edge_webview::api::Context;
use edge_webview::api::Handler;
use edge_webview::api::Ignore;
use edge_webview::api::Options;
use edge_webview::api::RawOptions;
use edge_webview::api::Window;
use edge_webview::error::Error;

struct Recorder {
    seen: Vec<(Option<Command>, String)>,
}

impl Handler for Recorder {
    fn handle(&mut self, window: Window, message: &str) {
        self.seen.push((window.focus(), String::from(message)));
    }
}

fn main_context() -> Context {
    let mut ctx = Context::new();
    start(&mut ctx, 1);
    ctx
}

#[test]
fn runtime_starts_on_the_main_thread() {
    let mut ctx = Context::new();
    assert!(!ctx.is_initialized());
    assert!(!ctx.is_main(1));
    assert_eq!(assert_initialized(&ctx), Err(Error::NotInitialized));
    start(&mut ctx, 1);
    assert!(ctx.is_initialized());
    assert!(ctx.is_main(1));
    assert!(!ctx.is_main(2));
    assert_eq!(assert_initialized(&ctx), Ok(()));
    assert_main(&ctx, 1);
}

#[test]
fn default_options_are_a_debug_window_of_640_by_480() {
    let opts: Options<Ignore> = Options::default();
    assert_eq!(opts.initial_width, 640);
    assert_eq!(opts.initial_height, 480);
    assert_eq!(opts.minimum_width, 480);
    assert_eq!(opts.minimum_height, 360);
    assert!(!opts.borderless);
    assert!(opts.debug);
    assert!(opts.handler.is_none());
}

#[test]
fn window_is_launched_with_its_options() {
    let ctx = main_context();
    let opts: Options<Ignore> = Options {
        initial_width: 800,
        initial_height: 600,
        minimum_width: 80,
        minimum_height: 60,
        borderless: true,
        debug: false,
        handler: None,
    };
    let (window, launch) = Window::new(&ctx, 1, opts);
    assert_eq!(window.focus(), None);
    assert_eq!(
        launch.options,
        RawOptions {
            initial_width: 800,
            initial_height: 600,
            minimum_width: 80,
            minimum_height: 60,
            borderless: true,
            debug: false,
        }
    );
    assert!(launch.handler.is_none());
}

#[test]
fn window_with_handler_uses_the_default_options() {
    let ctx = main_context();
    let (window, launch) = Window::with_handler(&ctx, 1, Ignore);
    assert_eq!(window.close(), None);
    assert_eq!(
        launch.options,
        RawOptions {
            initial_width: 640,
            initial_height: 480,
            minimum_width: 480,
            minimum_height: 360,
            borderless: false,
            debug: true,
        }
    );
    assert_eq!(launch.handler, Some(Ignore));
}

#[test]
fn window_asks_nothing_before_it_exists() {
    let ctx = main_context();
    let (window, _) = Window::with_handler(&ctx, 1, Ignore);
    assert_eq!(window.eval("1"), Ok(None));
    assert_eq!(window.eval("\0"), Ok(None));
    assert_eq!(window.load("x"), Ok(None));
    assert_eq!(window.title("x"), Ok(None));
    assert_eq!(window.focus(), None);
    assert_eq!(window.close(), None);
}

#[test]
fn window_that_exists_gets_native_calls() {
    let ctx = main_context();
    let (mut window, _) = Window::with_handler(&ctx, 1, Ignore);
    window.created(0x77);
    assert_eq!(window.eval("1"), Ok(Some(Command::Eval(0x77, vec![b'1', 0]))));
    assert_eq!(window.load("a:b"), Ok(Some(Command::Load(0x77, vec![b'a', b':', b'b', 0]))));
    assert_eq!(window.title("T"), Ok(Some(Command::Title(0x77, vec![b'T', 0]))));
    assert_eq!(window.focus(), Some(Command::Focus(0x77)));
    assert_eq!(window.close(), Some(Command::Close(0x77)));
    assert_eq!(window.eval("a\0"), Err(Error::InvalidText));
    assert_eq!(window.load("\0a"), Err(Error::InvalidText));
    assert_eq!(window.title("a\0b"), Err(Error::InvalidText));
    window.closed();
    assert_eq!(window.eval("1"), Ok(None));
    assert_eq!(window.focus(), None);
}

#[test]
fn messages_reach_the_handler_as_text() {
    let ctx = main_context();
    let (mut window, mut launch) = Window::with_handler(&ctx, 1, Recorder { seen: vec![] });
    window.created(3);
    assert_eq!(window.message(&mut launch.handler, b"hello"), Ok(()));
    assert_eq!(window.message(&mut launch.handler, &[0xc3, 0xa9]), Ok(()));
    let seen = match &launch.handler {
        Some(recorder) => &recorder.seen,
        None => panic!("the handler is gone"),
    };
    assert_eq!(
        seen,
        &vec![
            (Some(Command::Focus(3)), String::from("hello")),
            (Some(Command::Focus(3)), String::from("é")),
        ]
    );
}

#[test]
fn message_that_is_not_text_is_an_error_and_not_handled() {
    let ctx = main_context();
    let (window, mut launch) = Window::with_handler(&ctx, 1, Recorder { seen: vec![] });
    assert_eq!(window.message(&mut launch.handler, &[0xff]), Err(Error::InvalidText));
    assert_eq!(launch.handler.map(|r| r.seen.len()), Some(0));
}

#[test]
fn message_without_a_handler_passes() {
    let ctx = main_context();
    let opts: Options<Ignore> = Options::default();
    let (window, mut launch) = Window::new(&ctx, 1, opts);
    assert_eq!(window.message(&mut launch.handler, b"hello"), Ok(()));
    assert_eq!(window.message(&mut launch.handler, &[0x80]), Err(Error::InvalidText));
}

#[test]
fn callbacks_reach_the_main_thread_in_order() {
    let mut ctx = Context::new();
    assert_eq!(dispatch(&mut ctx, 1), Err(Error::NotInitialized));
    start(&mut ctx, 9);
    assert_eq!(dispatch(&mut ctx, 2), Ok(()));
    assert_eq!(dispatch(&mut ctx, 3), Ok(()));
    assert_eq!(execute(&mut ctx, 9), Some(2));
    assert_eq!(execute(&mut ctx, 9), Some(3));
    assert_eq!(execute(&mut ctx, 9), None);
}

#[test]
fn exit_ends_dispatching() {
    let mut ctx = main_context();
    assert_eq!(dispatch(&mut ctx, 2), Ok(()));
    assert_eq!(exit(&mut ctx, 1), vec![2]);
    assert_eq!(dispatch(&mut ctx, 3), Err(Error::Disposed));
    assert_eq!(execute(&mut ctx, 1), None);
    assert!(ctx.is_main(1));
}
