use vstd::prelude::*;
use vstd::string::StrSliceExecFns;
use vstd::string::StringSliceAdditionalSpecFns;
use crate::dispatch::DispatchQueue;
use crate::dispatch::QueueModel;
use crate::edge::Lifecycle;
pub use crate::error::Error;
use crate::text::c_text;
use crate::text::has_nul;
use crate::text::terminated;

verus! {

/// The embedded directory tree of `include_dir`, carried through as an opaque value.
#[verifier::external_type_specification]
#[verifier::external_body]
pub struct ExDir<'a>(include_dir::Dir<'a>);

/// The contents of the file that `include_dir::Dir::get_file` finds in a directory
/// under a path, `None` where it finds no file there. Paths are compared as
/// `std::path::Path` compares them, component by component.
pub uninterp spec fn stored_file(dir: include_dir::Dir<'_>, path: Seq<char>) -> Option<Seq<u8>>;

/// Calls `include_dir::Dir::get_file`, which searches the tree for the first entry
/// whose path equals `path` and answers with it if it is a file, and hands out the
/// contents of that file as `include_dir::File::contents` gives them.
#[verifier::external_body]
fn dir_get_file<'a>(dir: &include_dir::Dir<'a>, path: &str) -> (r: Option<&'a [u8]>)
    ensures
        r is Some <==> stored_file(*dir, path@) is Some,
        r is Some ==> r.unwrap()@ == stored_file(*dir, path@).unwrap(),
{
    match dir.get_file(path) {
        Some(file) => Some(file.contents()),
        None => None,
    }
}

/// What a web view shows first.
pub enum Content<'a> {
    /// Markup given inline.
    Html(String),
    /// A page to load from an address.
    Url(String),
    /// A page of an embedded directory, whose files are served on request.
    Dir(include_dir::Dir<'a>, String),
}

impl<'a> Content<'a> {
    /// The text that names or holds the content.
    pub open spec fn text(self) -> Seq<char> {
        match self {
            Content::Html(html) => html@,
            Content::Url(url) => url@,
            Content::Dir(_, source) => source@,
        }
    }

    /// The embedded directory that comes with the content, if any.
    pub open spec fn dir(self) -> Option<include_dir::Dir<'a>> {
        match self {
            Content::Dir(dir, _) => Some(dir),
            _ => None,
        }
    }
}

/// What happened in the native window.
#[derive(Debug, PartialEq, Eq)]
pub enum Event {
    /// The window was closed.
    Quit,
    /// The document of the page was loaded.
    DOMContentLoaded,
    /// A script of the page sent this text.
    ScriptNotify(String),
}

/// The kind of notification that the native event loop reports.
#[derive(Clone, Copy, Debug, PartialEq, Eq, Structural)]
pub enum EventType {
    /// Nothing the host has to know of.
    Idle,
    Quit,
    DOMContentLoaded,
    ScriptNotify,
}

impl Event {
    /// Whether the event is `Quit`.
    pub open spec fn spec_is_quit(&self) -> bool {
        *self is Quit
    }

    /// Whether the event ends the processing of events.
    #[verifier::when_used_as_spec(spec_is_quit)]
    pub fn is_quit(&self) -> (r: bool)
        ensures
            r == self.spec_is_quit(),
    {
        match self {
            Event::Quit => true,
            _ => false,
        }
    }

    /// The event that a native notification stands for, with the text that came with
    /// it; `None` where the native loop had nothing to report.
    pub fn from_native(kind: EventType, data: String) -> (r: Option<Event>)
        ensures
            r == match kind {
                EventType::Idle => None,
                EventType::Quit => Some(Event::Quit),
                EventType::DOMContentLoaded => Some(Event::DOMContentLoaded),
                EventType::ScriptNotify => Some(Event::ScriptNotify(data)),
            },
    {
        match kind {
            EventType::Idle => None,
            EventType::Quit => Some(Event::Quit),
            EventType::DOMContentLoaded => Some(Event::DOMContentLoaded),
            EventType::ScriptNotify => Some(Event::ScriptNotify(data)),
        }
    }
}

/// Turns the answer of a native call into a result: the value where the code is zero,
/// and otherwise an error that carries the code and the last error message of the
/// native layer.
pub fn ffi_result<T>(result: (T, i32), message: String) -> (r: Result<T, Error>)
    ensures
        result.1 == 0 ==> r == Ok::<T, Error>(result.0),
        result.1 != 0 ==> r == Err::<T, Error>(Error::NativeCreationFailed(result.1, message)),
{
    let (value, code) = result;
    if code == 0 {
        Ok(value)
    } else {
        Err(Error::NativeCreationFailed(code, message))
    }
}

/// The number of `/` characters at the start of a path.
pub open spec fn leading_slashes(path: Seq<char>) -> nat
    decreases path.len(),
{
    if path.len() > 0 && path[0] == '/' {
        1 + leading_slashes(path.subrange(1, path.len() as int))
    } else {
        0
    }
}

/// A requested path taken relative to the root of the embedded directory: the path
/// without the `/` characters that it starts with.
pub open spec fn relative_path(path: Seq<char>) -> Seq<char> {
    path.subrange(leading_slashes(path) as int, path.len() as int)
}

/// The slashes at the start of a path are the longest run of `/` that it starts with.
pub proof fn lemma_leading_slashes(path: Seq<char>)
    ensures
        leading_slashes(path) <= path.len(),
        forall|i: int| 0 <= i < leading_slashes(path) ==> path[i] == '/',
        leading_slashes(path) < path.len() ==> path[leading_slashes(path) as int] != '/',
    decreases path.len(),
{
    if path.len() > 0 && path[0] == '/' {
        let rest = path.subrange(1, path.len() as int);
        lemma_leading_slashes(rest);
        assert forall|i: int| 0 <= i < leading_slashes(path) implies path[i] == '/' by {
            if i > 0 {
                assert(path[i] == rest[i - 1]);
            }
        }
        if leading_slashes(path) < path.len() {
            assert(path[leading_slashes(path) as int] == rest[leading_slashes(rest) as int]);
        }
    }
}

/// A run of `n` slashes followed by another character, or by the end, is the run of
/// leading slashes.
proof fn lemma_slashes_counted(path: Seq<char>, n: nat)
    requires
        n <= path.len(),
        forall|i: int| 0 <= i < n ==> path[i] == '/',
        n < path.len() ==> path[n as int] != '/',
    ensures
        leading_slashes(path) == n,
    decreases n,
{
    if n > 0 {
        let rest = path.subrange(1, path.len() as int);
        assert forall|i: int| 0 <= i < n - 1 implies rest[i] == '/' by {
            assert(rest[i] == path[i + 1]);
        }
        if n - 1 < rest.len() {
            assert(rest[n - 1] == path[n as int]);
        }
        lemma_slashes_counted(rest, (n - 1) as nat);
    }
}

/// Takes the `/` characters off the start of a requested path.
pub fn strip_root(source: &str) -> (r: &str)
    ensures
        r@ == relative_path(source@),
{
    let n: usize = source.unicode_len();
    let mut i: usize = 0;
    while i < n && source.get_char(i) == '/'
        invariant
            i <= n,
            n == source@.len(),
            forall|j: int| 0 <= j < i ==> source@[j] == '/',
        decreases n - i,
    {
        i = i + 1;
    }
    proof {
        lemma_slashes_counted(source@, i as nat);
    }
    source.substring_char(i, n)
}

/// What belongs to a web view besides its window.
pub struct InternalData<'a> {
    dir: Option<include_dir::Dir<'a>>,
}

impl<'a> InternalData<'a> {
    /// The embedded directory from which requests of the page are served.
    pub closed spec fn dir(&self) -> Option<include_dir::Dir<'a>> {
        self.dir
    }

    /// Data of a web view that serves the files of `dir`, or none.
    pub fn new(dir: Option<include_dir::Dir<'a>>) -> (r: InternalData<'a>)
        ensures
            r.dir() == dir,
    {
        InternalData { dir }
    }
}

/// The bytes that answer a request of the page for `source`.
pub open spec fn served_content(dir: Option<include_dir::Dir<'_>>, source: Seq<char>) -> Option<Seq<u8>> {
    match dir {
        Some(d) => stored_file(d, relative_path(source)),
        None => None,
    }
}

/// Answers a request of the page for the content at `source`.
///
/// The path is taken relative to the root of the embedded directory. The answer is
/// the file stored there, and `None` where the web view serves no directory or the
/// directory holds no file under that path.
pub fn webview_get_content<'a>(internal: &InternalData<'a>, source: &str) -> (content: Option<&'a [u8]>)
    ensures
        content is Some <==> served_content(internal.dir(), source@) is Some,
        content is Some ==> content.unwrap()@ == served_content(internal.dir(), source@).unwrap(),
{
    match &internal.dir {
        Some(dir) => dir_get_file(dir, strip_root(source)),
        None => None,
    }
}

/// The native call that opens the window of a web view.
#[derive(Debug, PartialEq, Eq)]
pub struct CreateWindow {
    /// The title, as zero-terminated text.
    pub title: Vec<u8>,
    pub width: i32,
    pub height: i32,
    pub resizable: bool,
}

/// What the window of a web view is told to show, as zero-terminated text.
#[derive(Debug, PartialEq, Eq)]
pub enum NavigateTarget {
    /// Load the page at this address.
    Url(Vec<u8>),
    /// Show this markup.
    Html(Vec<u8>),
    /// Load this page of the embedded directory through the content requests.
    StreamResolver(Vec<u8>),
}

/// The native call that sends a window of a web view to its first content.
#[derive(Debug, PartialEq, Eq)]
pub struct Navigate {
    pub window: usize,
    pub target: NavigateTarget,
}

/// A native call that hands zero-terminated text to the window of a web view.
#[derive(Debug, PartialEq, Eq)]
pub struct NativeText {
    pub window: usize,
    pub text: Vec<u8>,
}

/// What an event iterator answers when it is asked for the next event.
#[derive(Debug, PartialEq, Eq)]
pub enum Step {
    /// The oldest event that waited.
    Event(Event),
    /// No event waits: the iteration is over.
    Done,
    /// No event waits and none was handed out yet: the host has to block on the
    /// native loop and ask again.
    Block,
}

/// What the host has to do after the events of one turn of the run loop.
#[derive(Debug, PartialEq, Eq)]
pub struct Run {
    /// The events to hand to the callback of the host, oldest first.
    pub deliver: Vec<Event>,
    /// Whether the window was closed, which ends the run loop.
    pub quit: bool,
}

/// The mathematical state of a web view.
pub struct WebViewModel<'a> {
    /// The native window; meaningful once the native layer made it.
    pub window: usize,
    pub state: Lifecycle,
    /// The first content, until the window exists that is to show it.
    pub content: Option<Content<'a>>,
    /// The embedded directory from which requests of the page are served.
    pub dir: Option<include_dir::Dir<'a>>,
    /// The events that the native layer raised and the host did not take, oldest first.
    pub events: Seq<Event>,
    /// The callbacks that wait for the owning thread.
    pub queue: QueueModel,
}

impl<'a> WebViewModel<'a> {
    /// The window was requested and the native layer has not answered.
    pub open spec fn awaits_window(self) -> bool {
        self.state == Lifecycle::Pending && self.content is Some
    }

    /// The window exists and has not confirmed its first content.
    pub open spec fn awaits_navigation(self) -> bool {
        self.state == Lifecycle::Pending && self.content is None
    }

    /// The state after the native layer answered the request for a window.
    pub open spec fn after_window(self, code: i32, window: usize) -> WebViewModel<'a> {
        if !self.awaits_window() {
            self
        } else if code != 0 {
            WebViewModel { state: Lifecycle::Failed, content: None, ..self }
        } else if has_nul(vstd::utf8::encode_utf8(self.content.unwrap().text())) {
            WebViewModel { window, state: Lifecycle::Failed, content: None, ..self }
        } else {
            WebViewModel {
                window,
                content: None,
                dir: if self.content.unwrap().dir() is Some {
                    self.content.unwrap().dir()
                } else {
                    self.dir
                },
                ..self
            }
        }
    }

    /// What the host is told when the native layer answered the request for a window.
    pub open spec fn window_result(self, code: i32, window: usize, message: Seq<char>, r: Result<Navigate, Error>) -> bool {
        if !self.awaits_window() {
            r matches Err(Error::NotInitialized)
        } else if code != 0 {
            r matches Err(Error::NativeCreationFailed(c, m)) && c == code && m@ == message
        } else if has_nul(vstd::utf8::encode_utf8(self.content.unwrap().text())) {
            r matches Err(Error::InvalidText)
        } else {
            let text = terminated(vstd::utf8::encode_utf8(self.content.unwrap().text()));
            &&& r matches Ok(nav)
            &&& nav.window == window
            &&& match self.content.unwrap() {
                Content::Html(_) => nav.target matches NavigateTarget::Html(t) && t@ == text,
                Content::Url(_) => nav.target matches NavigateTarget::Url(t) && t@ == text,
                Content::Dir(_, _) => nav.target matches NavigateTarget::StreamResolver(t) && t@ == text,
            }
        }
    }

    /// The state after the native layer answered the first navigation.
    pub open spec fn after_navigated(self, code: i32) -> WebViewModel<'a> {
        if !self.awaits_navigation() {
            self
        } else if code != 0 {
            WebViewModel { state: Lifecycle::Failed, ..self }
        } else {
            WebViewModel {
                state: Lifecycle::Ready,
                queue: QueueModel { initialized: true, ..self.queue },
                ..self
            }
        }
    }

    /// What the host is told when the native layer answered the first navigation.
    pub open spec fn navigated_result(self, code: i32, message: Seq<char>, r: Result<(), Error>) -> bool {
        if !self.awaits_navigation() {
            r matches Err(Error::NotInitialized)
        } else if code != 0 {
            r matches Err(Error::NativeCreationFailed(c, m)) && c == code && m@ == message
        } else {
            r is Ok
        }
    }

    /// What a request to hand `text` to the window answers.
    pub open spec fn text_result(self, text: Seq<u8>, r: Result<NativeText, Error>) -> bool {
        if has_nul(text) {
            r matches Err(Error::InvalidText)
        } else if self.queue.disposed {
            r matches Err(Error::Disposed)
        } else if self.state != Lifecycle::Ready {
            r matches Err(Error::NotInitialized)
        } else {
            r matches Ok(call) && call.window == self.window && call.text@ == terminated(text)
        }
    }
}

/// What an iterator over the events answers next: the oldest event where one waits;
/// otherwise a blocking iterator that has handed out nothing yet asks the host to
/// block, and any other iterator is done.
pub open spec fn next_step(blocking: bool, yielded: bool, events: Seq<Event>) -> Step {
    if events.len() > 0 {
        Step::Event(events[0])
    } else if blocking && !yielded {
        Step::Block
    } else {
        Step::Done
    }
}

/// A window with a web page in it, together with the events it raised and the
/// callbacks that wait to run on its thread.
pub struct WebView<'a> {
    window: usize,
    state: Lifecycle,
    content: Option<Content<'a>>,
    internal: InternalData<'a>,
    events: Vec<Event>,
    queue: DispatchQueue,
}

impl<'a> View for WebView<'a> {
    type V = WebViewModel<'a>;

    closed spec fn view(&self) -> WebViewModel<'a> {
        WebViewModel {
            window: self.window,
            state: self.state,
            content: self.content,
            dir: self.internal.dir(),
            events: self.events@,
            queue: self.queue@,
        }
    }
}

/// A handle through which any thread posts callbacks to the thread of a web view.
#[derive(Clone, Copy, Debug)]
pub struct Dispatcher {
    window: usize,
}

/// Hands out the events of a web view one at a time.
#[derive(Debug)]
pub struct EventIterator {
    window: usize,
    blocking: bool,
    yielded: bool,
}

impl<'a> WebView<'a> {
    /// Starts a web view: checks the title and gives the call that opens the window.
    ///
    /// The web view that comes back is pending, with `content` held until the window
    /// exists. Fails with `InvalidText` exactly when the title holds a zero byte.
    pub fn new(title: &str, content: Content<'a>, size: (i32, i32), resizable: bool) -> (r: Result<(WebView<'a>, CreateWindow), Error>)
        ensures
            r is Err <==> has_nul(title.spec_bytes()),
            r is Err ==> r matches Err(Error::InvalidText),
            r is Ok ==> ({
                let (view, call) = r.unwrap();
                &&& view@.window == 0
                &&& view@.state == Lifecycle::Pending
                &&& view@.content == Some(content)
                &&& view@.dir is None
                &&& view@.events.len() == 0
                &&& view@.queue.pending.len() == 0
                &&& !view@.queue.initialized
                &&& !view@.queue.disposed
                &&& call.title@ == terminated(title.spec_bytes())
                &&& call.width == size.0
                &&& call.height == size.1
                &&& call.resizable == resizable
            }),
    {
        match c_text(title) {
            Err(_) => Err(Error::InvalidText),
            Ok(title) => {
                let view = WebView {
                    window: 0,
                    state: Lifecycle::Pending,
                    content: Some(content),
                    internal: InternalData::new(None),
                    events: Vec::new(),
                    queue: DispatchQueue::new(),
                };
                Ok((view, CreateWindow { title, width: size.0, height: size.1, resizable }))
            },
        }
    }

    /// Takes in the answer of the native layer to the request for a window: its code,
    /// the window where the code is zero, and its error message where it is not.
    ///
    /// On success the content that was held is checked and the call that shows it
    /// comes back; an embedded directory that came with the content serves the
    /// requests of the page from now on. A non-zero code fails the web view with
    /// `NativeCreationFailed`, content with a zero byte in its text with
    /// `InvalidText`. A web view that does not wait for its window answers
    /// `NotInitialized` and stays as it is.
    pub fn window_created(&mut self, code: i32, window: usize, message: String) -> (r: Result<Navigate, Error>)
        ensures
            old(self)@.window_result(code, window, message@, r),
            final(self)@ == old(self)@.after_window(code, window),
    {
        if !matches!(self.state, Lifecycle::Pending) || self.content.is_none() {
            return Err(Error::NotInitialized);
        }
        let content = self.content.take().unwrap();
        if code != 0 {
            self.state = Lifecycle::Failed;
            return Err(Error::NativeCreationFailed(code, message));
        }
        self.window = window;
        match content {
            Content::Html(html) => match c_text(html.as_str()) {
                Ok(text) => Ok(Navigate { window, target: NavigateTarget::Html(text) }),
                Err(_) => {
                    self.state = Lifecycle::Failed;
                    Err(Error::InvalidText)
                },
            },
            Content::Url(url) => match c_text(url.as_str()) {
                Ok(text) => Ok(Navigate { window, target: NavigateTarget::Url(text) }),
                Err(_) => {
                    self.state = Lifecycle::Failed;
                    Err(Error::InvalidText)
                },
            },
            Content::Dir(dir, source) => match c_text(source.as_str()) {
                Ok(text) => {
                    self.internal = InternalData::new(Some(dir));
                    Ok(Navigate { window, target: NavigateTarget::StreamResolver(text) })
                },
                Err(_) => {
                    self.state = Lifecycle::Failed;
                    Err(Error::InvalidText)
                },
            },
        }
    }

    /// Takes in the answer of the native layer to the first navigation. With code zero
    /// the web view is ready and takes callbacks; a non-zero code fails it with
    /// `NativeCreationFailed`. A web view that does not wait for this answer says
    /// `NotInitialized` and stays as it is.
    pub fn navigated(&mut self, code: i32, message: String) -> (r: Result<(), Error>)
        ensures
            old(self)@.navigated_result(code, message@, r),
            final(self)@ == old(self)@.after_navigated(code),
    {
        if !matches!(self.state, Lifecycle::Pending) || self.content.is_some() {
            return Err(Error::NotInitialized);
        }
        if code != 0 {
            self.state = Lifecycle::Failed;
            return Err(Error::NativeCreationFailed(code, message));
        }
        self.state = Lifecycle::Ready;
        self.queue.initialize();
        Ok(())
    }

    /// The native window.
    pub fn window(&self) -> (w: usize)
        ensures
            w == self@.window,
    {
        self.window
    }

    /// Where the web view stands in its lifecycle.
    pub fn state(&self) -> (s: Lifecycle)
        ensures
            s == self@.state,
    {
        self.state
    }

    /// What belongs to the web view besides its window.
    pub fn internal(&self) -> (data: &InternalData<'a>)
        ensures
            data.dir() == self@.dir,
    {
        &self.internal
    }

    /// A handle for posting callbacks to the thread of this web view.
    pub fn dispatcher(&mut self) -> (d: Dispatcher)
        ensures
            d.window() == old(self)@.window,
            final(self)@ == old(self)@,
    {
        Dispatcher { window: self.window }
    }

    /// An iterator over the events of this web view's window that hands out the
    /// events that wait and never asks the host to block.
    pub fn poll_iter(&self) -> (it: EventIterator)
        ensures
            it.window() == self@.window,
            !it.is_blocking(),
            !it.has_yielded(),
    {
        EventIterator { window: self.window, blocking: false, yielded: false }
    }

    /// An iterator over the events of this web view's window that hands out at
    /// least one event: where none waits it asks the host to block on the native
    /// loop first.
    pub fn wait_iter(&self) -> (it: EventIterator)
        ensures
            it.window() == self@.window,
            it.is_blocking(),
            !it.has_yielded(),
    {
        EventIterator { window: self.window, blocking: true, yielded: false }
    }

    /// Takes in a notification of the native loop, with the text that came with it.
    /// What stands for an event joins the events that wait, behind all of them.
    pub fn notify(&mut self, kind: EventType, data: String)
        ensures
            final(self)@ == (WebViewModel {
                events: match kind {
                    EventType::Idle => old(self)@.events,
                    EventType::Quit => old(self)@.events.push(Event::Quit),
                    EventType::DOMContentLoaded => old(self)@.events.push(Event::DOMContentLoaded),
                    EventType::ScriptNotify => old(self)@.events.push(Event::ScriptNotify(data)),
                },
                ..old(self)@
            }),
    {
        match Event::from_native(kind, data) {
            Some(event) => {
                self.events.push(event);
            },
            None => {},
        }
    }

    /// Checks a script and gives the native call that runs it in the page.
    ///
    /// Fails with `InvalidText` where the script holds a zero byte, else with
    /// `Disposed` after disposal, else with `NotInitialized` while the web view is
    /// not ready.
    pub fn eval_script(&mut self, script: &str) -> (r: Result<NativeText, Error>)
        ensures
            old(self)@.text_result(script.spec_bytes(), r),
            final(self)@ == old(self)@,
    {
        self.native_text(script)
    }

    /// Checks a style sheet and gives the native call that adds it to the page.
    ///
    /// Fails as `eval_script` does.
    pub fn inject_css(&mut self, css: &str) -> (r: Result<NativeText, Error>)
        ensures
            old(self)@.text_result(css.spec_bytes(), r),
            final(self)@ == old(self)@,
    {
        self.native_text(css)
    }

    fn native_text(&self, text: &str) -> (r: Result<NativeText, Error>)
        ensures
            self@.text_result(text.spec_bytes(), r),
    {
        match c_text(text) {
            Err(_) => Err(Error::InvalidText),
            Ok(text) => {
                if self.queue.is_disposed() {
                    Err(Error::Disposed)
                } else if !matches!(self.state, Lifecycle::Ready) {
                    Err(Error::NotInitialized)
                } else {
                    Ok(NativeText { window: self.window, text })
                }
            },
        }
    }

    /// Disposes of the web view. Callbacks that were still waiting come back unrun,
    /// oldest first; from now on every dispatch fails with `Disposed`.
    pub fn dispose(&mut self) -> (unrun: Vec<u64>)
        ensures
            unrun@ == old(self)@.queue.pending,
            final(self)@ == (WebViewModel { queue: old(self)@.queue.after_dispose(), ..old(self)@ }),
    {
        self.queue.dispose()
    }
}

impl Dispatcher {
    /// The window of the web view that the dispatcher posts to.
    pub closed spec fn window(&self) -> usize {
        self.window
    }

    /// Posts a callback to the thread that owns the web view.
    ///
    /// The callback joins the back of the queue of a web view that is ready. After
    /// disposal the answer is `Disposed`, before the web view is ready it is
    /// `NotInitialized`; the callback is then not queued and never runs.
    pub fn dispatch(&mut self, webview: &mut WebView, callback: u64) -> (r: Result<(), Error>)
        ensures
            r == old(webview)@.queue.dispatch_result(),
            final(webview)@ == (WebViewModel {
                queue: old(webview)@.queue.after_dispatch(callback),
                ..old(webview)@
            }),
            *final(self) == *old(self),
    {
        webview.queue.dispatch(callback)
    }
}

impl EventIterator {
    /// The window whose native loop feeds the iterator.
    pub closed spec fn window(&self) -> usize {
        self.window
    }

    /// Whether the iterator asks the host to block where no event waits.
    pub closed spec fn is_blocking(&self) -> bool {
        self.blocking
    }

    /// Whether the iterator has handed out an event.
    pub closed spec fn has_yielded(&self) -> bool {
        self.yielded
    }

    /// Whether the host has to pass `blocking` to the native loop.
    pub fn blocking(&self) -> (b: bool)
        ensures
            b == self.is_blocking(),
    {
        self.blocking
    }

    /// Hands out the oldest event that waits in `webview`.
    ///
    /// Events come out in the order in which the native layer raised them, each
    /// once. Where none waits, an iterator made by `poll_iter` is done; one made by
    /// `wait_iter` is done only after it handed out an event, and asks the host to
    /// block before that.
    pub fn next(&mut self, webview: &mut WebView) -> (r: Step)
        ensures
            r == next_step(old(self).is_blocking(), old(self).has_yielded(), old(webview)@.events),
            final(self).window() == old(self).window(),
            final(self).is_blocking() == old(self).is_blocking(),
            final(self).has_yielded() == (old(self).has_yielded() || r is Event),
            r is Event ==> final(webview)@ == (WebViewModel {
                events: old(webview)@.events.subrange(1, old(webview)@.events.len() as int),
                ..old(webview)@
            }),
            !(r is Event) ==> final(webview)@ == old(webview)@,
    {
        if webview.events.len() > 0 {
            let event = webview.events.remove(0);
            assert(webview.events@ =~= old(webview).events@.subrange(1, old(webview).events@.len() as int));
            self.yielded = true;
            Step::Event(event)
        } else if self.blocking && !self.yielded {
            Step::Block
        } else {
            Step::Done
        }
    }
}

/// One turn of the run loop of a web view: takes the events that wait, up to the
/// first `Quit`.
///
/// The events before the first `Quit` are handed out for the callback of the host, in
/// the order in which they were raised. With a `Quit` among the events the loop
/// ends: the `Quit` is consumed and what was raised after it stays behind. Without
/// one, every event is handed out and the host has to wait for more.
pub fn webview(view: &mut WebView) -> (run: Run)
    ensures
        ({
            let events = old(view)@.events;
            let k = run.deliver@.len() as int;
            &&& k <= events.len()
            &&& run.deliver@ == events.subrange(0, k)
            &&& forall|i: int| 0 <= i < k ==> !(#[trigger] events[i]).is_quit()
            &&& run.quit <==> k < events.len()
            &&& run.quit ==> events[k].is_quit()
            &&& final(view)@ == (WebViewModel {
                events: if run.quit {
                    events.subrange(k + 1, events.len() as int)
                } else {
                    Seq::empty()
                },
                ..old(view)@
            })
        }),
{
    let mut deliver: Vec<Event> = Vec::new();
    let ghost events = view@.events;
    assert(events.subrange(0, events.len() as int) =~= events);
    assert(deliver@ =~= events.subrange(0, 0));
    while view.events.len() > 0
        invariant
            deliver@.len() <= events.len(),
            deliver@ == events.subrange(0, deliver@.len() as int),
            forall|i: int| 0 <= i < deliver@.len() ==> !(#[trigger] events[i]).is_quit(),
            view@ == (WebViewModel {
                events: events.subrange(deliver@.len() as int, events.len() as int),
                ..old(view)@
            }),
            events == old(view)@.events,
        decreases view.events.len(),
    {
        let event = view.events.remove(0);
        assert(event == events[deliver@.len() as int]);
        assert(view.events@ =~= events.subrange(deliver@.len() as int + 1, events.len() as int));
        if event.is_quit() {
            return Run { deliver, quit: true };
        }
        deliver.push(event);
        assert(deliver@ =~= events.subrange(0, deliver@.len() as int));
    }
    assert(view.events@ =~= Seq::<Event>::empty());
    Run { deliver, quit: false }
}

/// Takes the callback that the owning thread of a web view has to run now: the one
/// that has waited longest. Each callback is handed out once.
pub fn webview_dispatch_callback(webview: &mut WebView) -> (callback: Option<u64>)
    ensures
        callback == old(webview)@.queue.next(),
        final(webview)@ == (WebViewModel { queue: old(webview)@.queue.after_take(), ..old(webview)@ }),
{
    webview.queue.take()
}

/// Polling never blocks: an iterator made by `poll_iter` hands out an event or is done.
pub proof fn lemma_poll_never_blocks(yielded: bool, events: Seq<Event>)
    ensures
        !(next_step(false, yielded, events) is Block),
        next_step(false, yielded, events) is Event <==> events.len() > 0,
{
}

/// Waiting is over only after an event: an iterator made by `wait_iter` is never done
/// before it handed out an event, and it hands one out as soon as one waits.
pub proof fn lemma_wait_ends_after_event(yielded: bool, events: Seq<Event>)
    ensures
        next_step(true, yielded, events) is Done ==> yielded && events.len() == 0,
        next_step(true, false, events) is Block <==> events.len() == 0,
        events.len() > 0 ==> next_step(true, yielded, events) == Step::Event(events[0]),
{
}

} // verus!
