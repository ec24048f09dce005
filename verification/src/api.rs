use vstd::prelude::*;
use vstd::string::StringSliceAdditionalSpecFns;
use crate::dispatch::DispatchQueue;
use crate::dispatch::QueueModel;
use crate::error::Error;
use crate::text::c_text;
use crate::text::decode_text;
use crate::text::has_nul;
use crate::text::terminated;

verus! {

/// Receives the messages that the page of a window sends.
pub trait Handler {
    /// Called on the main thread for each message. A handler that does not say
    /// otherwise lets the message pass.
    fn handle(&mut self, window: Window, message: &str) {
    }
}

/// A handler that lets every message pass.
#[derive(Clone, Copy, Debug, PartialEq, Eq)]
pub struct Ignore;

impl Handler for Ignore {}

/// How a window is made.
pub struct Options<H: Handler> {
    pub initial_width: usize,
    pub initial_height: usize,
    pub minimum_width: usize,
    pub minimum_height: usize,
    pub borderless: bool,
    pub debug: bool,
    /// Receives the messages of the page; without one every message passes.
    pub handler: Option<H>,
}

impl<H: Handler> Default for Options<H> {
    fn default() -> (opts: Options<H>)
        ensures
            opts.initial_width == 640,
            opts.initial_height == 480,
            opts.minimum_width == 480,
            opts.minimum_height == 360,
            !opts.borderless,
            opts.debug,
            opts.handler is None,
    {
        Options {
            initial_width: 640,
            initial_height: 480,
            minimum_width: 480,
            minimum_height: 360,
            borderless: false,
            debug: true,
            handler: None,
        }
    }
}

/// A native window with a web page in it, named by its handle once it exists.
#[derive(Clone, Copy, Debug, PartialEq, Eq, Structural)]
pub struct Window {
    data: Option<usize>,
}

/// The numbers that the native layer takes when it makes a window.
#[derive(Clone, Copy, Debug, PartialEq, Eq, Structural)]
pub struct RawOptions {
    pub initial_width: usize,
    pub initial_height: usize,
    pub minimum_width: usize,
    pub minimum_height: usize,
    pub borderless: bool,
    pub debug: bool,
}

/// What the host hands to the native layer to have a window made: the numbers, and
/// the handler that the native layer keeps for the messages of the page.
pub struct Launch<H: Handler> {
    pub options: RawOptions,
    pub handler: Option<H>,
}

/// A native call on a window that exists.
#[derive(Debug, PartialEq, Eq)]
pub enum Command {
    /// Run this script in the page.
    Eval(usize, Vec<u8>),
    /// Load the page at this address.
    Load(usize, Vec<u8>),
    /// Set the title of the window.
    Title(usize, Vec<u8>),
    /// Bring the window to the front.
    Focus(usize),
    /// Close the window.
    Close(usize),
}

/// The mathematical state of the runtime.
pub struct ContextModel {
    /// The thread on which the runtime was started, once it was.
    pub owner: Option<u64>,
    /// The callbacks that wait for that thread.
    pub queue: QueueModel,
}

/// The state of the runtime of one process: whether it was started, on which thread,
/// and the callbacks that wait for that thread.
pub struct Context {
    owner: Option<u64>,
    queue: DispatchQueue,
}

impl View for Context {
    type V = ContextModel;

    closed spec fn view(&self) -> ContextModel {
        ContextModel { owner: self.owner, queue: self.queue@ }
    }
}

impl Context {
    /// The runtime of a process before it is started.
    pub fn new() -> (ctx: Context)
        ensures
            ctx@.owner is None,
            ctx@.queue.pending.len() == 0,
            !ctx@.queue.initialized,
            !ctx@.queue.disposed,
    {
        Context { owner: None, queue: DispatchQueue::new() }
    }

    /// Whether `thread` is the thread on which the runtime was started.
    pub fn is_main(&self, thread: u64) -> (r: bool)
        ensures
            r == (self@.owner == Some(thread)),
    {
        match self.owner {
            Some(owner) => owner == thread,
            None => false,
        }
    }

    /// Whether the runtime was started.
    pub fn is_initialized(&self) -> (r: bool)
        ensures
            r == self@.queue.initialized,
    {
        match assert_initialized(self) {
            Ok(_) => true,
            Err(_) => false,
        }
    }
}

/// Starts the runtime on `thread`: that thread is the main thread from now on, and
/// callbacks are accepted for it.
pub fn start(ctx: &mut Context, thread: u64)
    ensures
        final(ctx)@ == (ContextModel {
            owner: Some(thread),
            queue: QueueModel { initialized: true, ..old(ctx)@.queue },
        }),
{
    ctx.owner = Some(thread);
    ctx.queue.initialize();
}

/// Checks that the runtime was started. Fails with `NotInitialized` exactly when it
/// was not.
pub fn assert_initialized(ctx: &Context) -> (r: Result<(), Error>)
    ensures
        r is Ok <==> ctx@.queue.initialized,
        r is Err ==> r == Err::<(), Error>(Error::NotInitialized),
{
    if ctx.queue.is_initialized() {
        Ok(())
    } else {
        Err(Error::NotInitialized)
    }
}

/// States that the caller runs on the main thread. Only the main thread may call.
pub fn assert_main(ctx: &Context, thread: u64)
    requires
        ctx@.owner == Some(thread),
{
}

/// Ends the runtime. Only the main thread may call.
///
/// Callbacks that were still waiting come back unrun, oldest first; from now on
/// every dispatch fails with `Disposed`.
pub fn exit(ctx: &mut Context, thread: u64) -> (unrun: Vec<u64>)
    requires
        old(ctx)@.owner == Some(thread),
    ensures
        unrun@ == old(ctx)@.queue.pending,
        final(ctx)@ == (ContextModel { queue: old(ctx)@.queue.after_dispose(), ..old(ctx)@ }),
{
    assert_main(ctx, thread);
    ctx.queue.dispose()
}

/// Posts a callback to the main thread, from any thread.
///
/// Fails with `Disposed` after the runtime has ended and with `NotInitialized` before
/// it was started; the callback is then not queued and never runs. Otherwise it
/// joins the back of the queue.
pub fn dispatch(ctx: &mut Context, callback: u64) -> (r: Result<(), Error>)
    ensures
        r == old(ctx)@.queue.dispatch_result(),
        final(ctx)@ == (ContextModel { queue: old(ctx)@.queue.after_dispatch(callback), ..old(ctx)@ }),
{
    ctx.queue.dispatch(callback)
}

/// Takes the callback that the main thread has to run now: the one that has waited
/// longest. Each callback is handed out once. Only the main thread may call.
pub fn execute(ctx: &mut Context, thread: u64) -> (callback: Option<u64>)
    requires
        old(ctx)@.owner == Some(thread),
    ensures
        callback == old(ctx)@.queue.next(),
        final(ctx)@ == (ContextModel { queue: old(ctx)@.queue.after_take(), ..old(ctx)@ }),
{
    assert_main(ctx, thread);
    ctx.queue.take()
}

impl Window {
    /// The handle of the native window, once it exists.
    pub closed spec fn handle(&self) -> Option<usize> {
        self.data
    }

    /// What a request that carries text asks of the host: nothing while the window
    /// does not exist, else the native call with the text zero-terminated.
    pub open spec fn text_command(&self, text: Seq<u8>, r: Result<Option<Vec<u8>>, Error>) -> bool {
        if self.handle() is None {
            r matches Ok(None)
        } else if has_nul(text) {
            r matches Err(Error::InvalidText)
        } else {
            r matches Ok(Some(t)) && t@ == terminated(text)
        }
    }

    /// Prepares a window. Only the main thread may call.
    ///
    /// The window that comes back does not exist yet; with it comes what the host
    /// hands to the native layer to have it made, the handler of `opts` included.
    pub fn new<H: Handler>(ctx: &Context, thread: u64, opts: Options<H>) -> (r: (Window, Launch<H>))
        requires
            ctx@.owner == Some(thread),
        ensures
            r.0.handle() is None,
            r.1.options == (RawOptions {
                initial_width: opts.initial_width,
                initial_height: opts.initial_height,
                minimum_width: opts.minimum_width,
                minimum_height: opts.minimum_height,
                borderless: opts.borderless,
                debug: opts.debug,
            }),
            r.1.handler == opts.handler,
    {
        assert_main(ctx, thread);
        let options = RawOptions {
            initial_width: opts.initial_width,
            initial_height: opts.initial_height,
            minimum_width: opts.minimum_width,
            minimum_height: opts.minimum_height,
            borderless: opts.borderless,
            debug: opts.debug,
        };
        (Window { data: None }, Launch { options, handler: opts.handler })
    }

    /// Prepares a window with the default options and `handler` for the messages of
    /// its page. Only the main thread may call.
    pub fn with_handler<H: Handler>(ctx: &Context, thread: u64, handler: H) -> (r: (Window, Launch<H>))
        requires
            ctx@.owner == Some(thread),
        ensures
            r.0.handle() is None,
            r.1.options == (RawOptions {
                initial_width: 640,
                initial_height: 480,
                minimum_width: 480,
                minimum_height: 360,
                borderless: false,
                debug: true,
            }),
            r.1.handler == Some(handler),
    {
        let mut opts: Options<H> = Options::default();
        opts.handler = Some(handler);
        Window::new(ctx, thread, opts)
    }

    /// Records the handle of the native window that was made for this one.
    pub fn created(&mut self, raw: usize)
        ensures
            final(self).handle() == Some(raw),
    {
        self.data = Some(raw);
    }

    /// Records that the native window was closed: it does not exist any more.
    pub fn closed(&mut self)
        ensures
            final(self).handle() is None,
    {
        self.data = None;
    }

    /// Takes in a message of the page and hands it to the handler, if there is one.
    ///
    /// Fails with `InvalidText` exactly when the message is not UTF-8; the handler
    /// is then not called.
    pub fn message<H: Handler>(&self, handler: &mut Option<H>, message: &[u8]) -> (r: Result<(), Error>)
        ensures
            r is Ok <==> vstd::utf8::valid_utf8(message@),
            r is Err ==> r == Err::<(), Error>(Error::InvalidText),
    {
        match decode_text(message) {
            Ok(text) => {
                match handler {
                    Some(h) => {
                        h.handle(*self, text);
                    },
                    None => {},
                }
                Ok(())
            },
            Err(e) => Err(Error::InvalidText),
        }
    }

    fn text_for(&self, s: &str) -> (r: Result<Option<Vec<u8>>, Error>)
        ensures
            self.text_command(s.spec_bytes(), r),
    {
        match self.data {
            None => Ok(None),
            Some(_) => match c_text(s) {
                Ok(text) => Ok(Some(text)),
                Err(_) => Err(Error::InvalidText),
            },
        }
    }

    /// The call that runs a script in the page. Nothing is asked of the host while
    /// the window does not exist. Fails with `InvalidText` where the window exists
    /// and the script holds a zero byte.
    pub fn eval(&self, s: &str) -> (r: Result<Option<Command>, Error>)
        ensures
            self.handle() is None ==> r matches Ok(None),
            self.handle() is Some && has_nul(s.spec_bytes()) ==> r matches Err(Error::InvalidText),
            self.handle() is Some && !has_nul(s.spec_bytes()) ==> (r matches Ok(Some(Command::Eval(w, t)))
                && Some(w) == self.handle() && t@ == terminated(s.spec_bytes())),
    {
        match (self.data, self.text_for(s)) {
            (Some(window), Ok(Some(text))) => Ok(Some(Command::Eval(window, text))),
            (_, Err(e)) => Err(Error::InvalidText),
            (_, _) => Ok(None),
        }
    }

    /// The call that loads the page at an address; as `eval` otherwise.
    pub fn load(&self, s: &str) -> (r: Result<Option<Command>, Error>)
        ensures
            self.handle() is None ==> r matches Ok(None),
            self.handle() is Some && has_nul(s.spec_bytes()) ==> r matches Err(Error::InvalidText),
            self.handle() is Some && !has_nul(s.spec_bytes()) ==> (r matches Ok(Some(Command::Load(w, t)))
                && Some(w) == self.handle() && t@ == terminated(s.spec_bytes())),
    {
        match (self.data, self.text_for(s)) {
            (Some(window), Ok(Some(text))) => Ok(Some(Command::Load(window, text))),
            (_, Err(e)) => Err(Error::InvalidText),
            (_, _) => Ok(None),
        }
    }

    /// The call that sets the title of the window; as `eval` otherwise.
    pub fn title(&self, s: &str) -> (r: Result<Option<Command>, Error>)
        ensures
            self.handle() is None ==> r matches Ok(None),
            self.handle() is Some && has_nul(s.spec_bytes()) ==> r matches Err(Error::InvalidText),
            self.handle() is Some && !has_nul(s.spec_bytes()) ==> (r matches Ok(Some(Command::Title(w, t)))
                && Some(w) == self.handle() && t@ == terminated(s.spec_bytes())),
    {
        match (self.data, self.text_for(s)) {
            (Some(window), Ok(Some(text))) => Ok(Some(Command::Title(window, text))),
            (_, Err(e)) => Err(Error::InvalidText),
            (_, _) => Ok(None),
        }
    }

    /// The call that brings the window to the front, if the window exists.
    pub fn focus(&self) -> (r: Option<Command>)
        ensures
            r == match self.handle() {
                Some(window) => Some(Command::Focus(window)),
                None => None,
            },
    {
        match self.data {
            Some(window) => Some(Command::Focus(window)),
            None => None,
        }
    }

    /// The call that closes the window, if the window exists.
    pub fn close(&self) -> (r: Option<Command>)
        ensures
            r == match self.handle() {
                Some(window) => Some(Command::Close(window)),
                None => None,
            },
    {
        match self.data {
            Some(window) => Some(Command::Close(window)),
            None => None,
        }
    }
}

} // verus!
