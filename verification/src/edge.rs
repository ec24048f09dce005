use vstd::prelude::*;
use crate::error::Error;

verus! {

/// `SetWindowPos` flag: keep the current size.
pub const SWP_NOSIZE: u32 = 0x0001;

/// `SetWindowPos` flag: keep the current position.
pub const SWP_NOMOVE: u32 = 0x0002;

/// `SetWindowPos` flag: keep the current place in the Z order.
pub const SWP_NOZORDER: u32 = 0x0004;

/// `HRESULT` of a call that succeeded.
pub const S_OK: i32 = 0;

/// `HRESULT` of a call that succeeded and had nothing left to do.
pub const S_FALSE: i32 = 1;

/// Bounds of the control inside its host window, in physical pixels.
#[derive(Clone, Copy, Debug, PartialEq, Eq, Structural)]
pub struct Rect {
    pub x: i64,
    pub y: i64,
    pub width: i64,
    pub height: i64,
}

/// A window rectangle as the window manager reports it.
#[derive(Clone, Copy, Debug, PartialEq, Eq, Structural)]
pub struct WindowRect {
    pub left: i32,
    pub top: i32,
    pub right: i32,
    pub bottom: i32,
}

/// How the control gets the window it lives in. A window is named by its handle.
#[derive(Clone, Copy, Debug, PartialEq, Eq, Structural)]
pub enum HwndType {
    /// The control fills this top-level window.
    FillWindow(usize),
    /// The control takes over this window, which the host made for it.
    ConsumeHwnd(usize),
    /// A child window is made for the control inside this window.
    NewHwndInWindow(usize),
}

/// Where a control stands between the request to create it and its end.
#[derive(Clone, Copy, Debug, PartialEq, Eq, Structural)]
pub enum Lifecycle {
    /// Nothing was requested yet.
    Uninitialized,
    /// Creation was requested and the native layer has not answered.
    Pending,
    /// The native control exists.
    Ready,
    /// The native layer reported that it could not create the control.
    Failed,
}

/// What the host has to do with bounds that were handed to a control.
#[derive(Clone, Copy, Debug, PartialEq, Eq, Structural)]
pub enum BoundsAction {
    /// The native control exists: set these bounds on it now.
    Apply(Rect),
    /// The native control does not exist yet: the bounds wait for it.
    Queued,
}

/// A call of `SetWindowPos` followed by `UpdateWindow` that the host has to make.
#[derive(Clone, Copy, Debug, PartialEq, Eq, Structural)]
pub struct WindowPos {
    pub hwnd: usize,
    pub x: i32,
    pub y: i32,
    pub width: i32,
    pub height: i32,
    pub flags: u32,
}

/// What a resize asks of the host.
#[derive(Clone, Copy, Debug, PartialEq, Eq, Structural)]
pub struct ResizePlan {
    /// Move or resize the control's own window first, when it has one.
    pub window_pos: Option<WindowPos>,
    /// What to do with the new bounds. `None` asks the host to measure the window
    /// and to report its rectangle through `update_bounds`.
    pub bounds: Option<BoundsAction>,
}

/// What the host has to do when the native control has come into being.
#[derive(Clone, Copy, Debug, PartialEq, Eq, Structural)]
pub struct Completion {
    /// The completion callback to run, handed out this once.
    pub callback: Option<u64>,
    /// Bounds that were requested while the control was pending, to set now.
    pub bounds: Option<Rect>,
}

/// The request to the native layer that starts the creation of a control.
#[derive(Clone, Copy, Debug, PartialEq, Eq, Structural)]
pub struct CreateRequest {
    /// The window that hosts the control.
    pub hwnd: usize,
    /// The bounds the control starts with.
    pub bounds: Rect,
}

/// Content that the host has to hand to the native control.
#[derive(Clone, Debug, PartialEq, Eq)]
pub enum Navigation {
    /// Navigate the control to this address.
    Uri(u64, String),
    /// Show this markup in the control.
    Markup(u64, String),
}

/// The flags of the `SetWindowPos` call of a resize: the Z order is never touched, and
/// the position and the size only where one was given.
pub open spec fn resize_flags(has_position: bool, has_size: bool) -> u32 {
    let moved = if has_position {
        SWP_NOZORDER
    } else {
        SWP_NOZORDER | SWP_NOMOVE
    };
    if has_size {
        moved
    } else {
        moved | SWP_NOSIZE
    }
}

/// The bounds that a window rectangle gives a control. A control that fills its window
/// starts at the window's origin; another one sits where its own window sits.
pub open spec fn bounds_of(window: WindowRect, is_window_hwnd: bool) -> Rect {
    Rect {
        x: if is_window_hwnd { 0i64 } else { window.left as i64 },
        y: if is_window_hwnd { 0i64 } else { window.top as i64 },
        width: (window.right - window.left) as i64,
        height: (window.bottom - window.top) as i64,
    }
}

/// The mathematical state of a control.
pub struct ControlModel {
    pub hwnd: usize,
    pub is_window_hwnd: bool,
    pub state: Lifecycle,
    /// The native control, once it exists.
    pub control: Option<u64>,
    /// The last bounds requested while the control was pending.
    pub queued: Option<Rect>,
    /// The completion callback, until it is handed out.
    pub callback: Option<u64>,
}

impl ControlModel {
    /// What holds of every control: the native control exists exactly in state `Ready`,
    /// and bounds or a callback are held back only while creation is pending.
    pub open spec fn wf(self) -> bool {
        &&& self.control is Some <==> self.state == Lifecycle::Ready
        &&& self.queued is Some ==> self.state == Lifecycle::Pending
        &&& self.callback is Some ==> self.state == Lifecycle::Pending
    }

    /// The state after bounds were handed in: they replace whatever was queued while
    /// the control is pending, and leave no trace otherwise.
    pub open spec fn after_bounds(self, rect: Rect) -> ControlModel {
        if self.state == Lifecycle::Pending {
            ControlModel { queued: Some(rect), ..self }
        } else {
            self
        }
    }

    /// The state after a run of bounds was handed in, one after the other.
    pub open spec fn after_all_bounds(self, rects: Seq<Rect>) -> ControlModel
        decreases rects.len(),
    {
        if rects.len() == 0 {
            self
        } else {
            self.after_all_bounds(rects.drop_last()).after_bounds(rects.last())
        }
    }

    /// What the host is told to do with bounds that were handed in.
    pub open spec fn bounds_result(self, rect: Rect) -> Result<BoundsAction, Error> {
        match self.state {
            Lifecycle::Ready => Ok(BoundsAction::Apply(rect)),
            Lifecycle::Pending => Ok(BoundsAction::Queued),
            _ => Err(Error::NotInitialized),
        }
    }

    /// The state after the native layer answered the creation request with `code`.
    pub open spec fn after_created(self, code: i32, native: u64) -> ControlModel {
        if self.state != Lifecycle::Pending {
            self
        } else if code != 0 {
            ControlModel { state: Lifecycle::Failed, control: None, queued: None, callback: None, ..self }
        } else {
            ControlModel {
                state: Lifecycle::Ready,
                control: Some(native),
                queued: None,
                callback: None,
                ..self
            }
        }
    }

    /// What the host is told when the native layer answered the creation request.
    pub open spec fn created_result(self, code: i32, message: Seq<char>, r: Result<Completion, Error>) -> bool {
        if self.state != Lifecycle::Pending {
            r == Err::<Completion, Error>(Error::NotInitialized)
        } else if code != 0 {
            &&& r matches Err(Error::NativeCreationFailed(c, m))
            &&& c == code
            &&& m@ == message
        } else {
            r == Ok::<Completion, Error>(Completion { callback: self.callback, bounds: self.queued })
        }
    }
}

/// The state of one control: its window, its place in the lifecycle, and what waits
/// for the native control to exist.
pub struct ControlInner {
    hwnd: usize,
    is_window_hwnd: bool,
    state: Lifecycle,
    control: Option<u64>,
    queued_bounds_update: Option<Rect>,
    callback: Option<u64>,
}

impl View for ControlInner {
    type V = ControlModel;

    closed spec fn view(&self) -> ControlModel {
        ControlModel {
            hwnd: self.hwnd,
            is_window_hwnd: self.is_window_hwnd,
            state: self.state,
            control: self.control,
            queued: self.queued_bounds_update,
            callback: self.callback,
        }
    }
}

impl ControlInner {
    #[verifier::type_invariant]
    closed spec fn inv(self) -> bool {
        self@.wf()
    }

    /// Where the control stands in its lifecycle. Every control is well formed.
    pub fn state(&self) -> (s: Lifecycle)
        ensures
            s == self@.state,
            self@.wf(),
    {
        proof {
            use_type_invariant(self);
        }
        self.state
    }

    /// A control for which nothing was requested yet.
    pub fn new(hwnd: usize, is_window_hwnd: bool) -> (c: ControlInner)
        ensures
            c@ == (ControlModel {
                hwnd,
                is_window_hwnd,
                state: Lifecycle::Uninitialized,
                control: None,
                queued: None,
                callback: None,
            }),
    {
        ControlInner {
            hwnd,
            is_window_hwnd,
            state: Lifecycle::Uninitialized,
            control: None,
            queued_bounds_update: None,
            callback: None,
        }
    }

    /// Records that creation was requested, and holds the completion callback until
    /// the native control exists. Only a control for which nothing was requested yet
    /// can start; any other is left as it is and the answer is `false`.
    pub fn begin_creation(&mut self, callback: Option<u64>) -> (started: bool)
        ensures
            started == (old(self)@.state == Lifecycle::Uninitialized),
            started ==> final(self)@ == (ControlModel {
                state: Lifecycle::Pending,
                callback,
                ..old(self)@
            }),
            !started ==> final(self)@ == old(self)@,
    {
        proof {
            use_type_invariant(&*self);
        }
        match self.state {
            Lifecycle::Uninitialized => {
                *self = ControlInner {
                    hwnd: self.hwnd,
                    is_window_hwnd: self.is_window_hwnd,
                    state: Lifecycle::Pending,
                    control: None,
                    queued_bounds_update: None,
                    callback,
                };
                true
            },
            _ => false,
        }
    }

    /// Takes in the rectangle that the window manager reported for the control's
    /// window, or `None` where it could not tell, and updates the bounds from it.
    pub fn update_bounds(&mut self, window: Option<WindowRect>) -> (r: Result<BoundsAction, Error>)
        ensures
            window is None ==> r == Err::<BoundsAction, Error>(Error::IoFailure) && final(self)@ == old(self)@,
            window is Some ==> {
                let rect = bounds_of(window.unwrap(), old(self)@.is_window_hwnd);
                &&& r == old(self)@.bounds_result(rect)
                &&& final(self)@ == old(self)@.after_bounds(rect)
            },
    {
        match window {
            None => Err(Error::IoFailure),
            Some(w) => {
                let width: i64 = w.right as i64 - w.left as i64;
                let height: i64 = w.bottom as i64 - w.top as i64;
                let rect = Rect {
                    x: if self.is_window_hwnd { 0 } else { w.left as i64 },
                    y: if self.is_window_hwnd { 0 } else { w.top as i64 },
                    width,
                    height,
                };
                self.update_bounds_from_rect(rect)
            },
        }
    }

    /// Hands new bounds to the control. A control that exists gets them at once; for
    /// a pending one they are held back, in place of any held back before; a control
    /// that was never requested, or that failed, refuses them with `NotInitialized`.
    pub fn update_bounds_from_rect(&mut self, rect: Rect) -> (r: Result<BoundsAction, Error>)
        ensures
            r == old(self)@.bounds_result(rect),
            final(self)@ == old(self)@.after_bounds(rect),
    {
        proof {
            use_type_invariant(&*self);
        }
        match self.state {
            Lifecycle::Ready => Ok(BoundsAction::Apply(rect)),
            Lifecycle::Pending => {
                self.queued_bounds_update = Some(rect);
                Ok(BoundsAction::Queued)
            },
            _ => Err(Error::NotInitialized),
        }
    }

    /// Takes in the answer of the native layer to the creation request: its code, the
    /// native control where the code is zero, and its error message where it is not.
    ///
    /// On success the control is ready, and the host gets the completion callback and
    /// the bounds that were held back, each for the only time. On a non-zero code the
    /// control has failed and the error carries code and message. An answer that
    /// reaches a control whose creation is not pending changes nothing.
    pub fn creation_reported(&mut self, code: i32, native: u64, message: String) -> (r: Result<Completion, Error>)
        ensures
            old(self)@.created_result(code, message@, r),
            final(self)@ == old(self)@.after_created(code, native),
    {
        match self.state {
            Lifecycle::Pending => {
                if code != 0 {
                    *self = ControlInner {
                        hwnd: self.hwnd,
                        is_window_hwnd: self.is_window_hwnd,
                        state: Lifecycle::Failed,
                        control: None,
                        queued_bounds_update: None,
                        callback: None,
                    };
                    Err(Error::NativeCreationFailed(code, message))
                } else {
                    let done = Completion { callback: self.callback, bounds: self.queued_bounds_update };
                    *self = ControlInner {
                        hwnd: self.hwnd,
                        is_window_hwnd: self.is_window_hwnd,
                        state: Lifecycle::Ready,
                        control: Some(native),
                        queued_bounds_update: None,
                        callback: None,
                    };
                    Ok(done)
                }
            },
            _ => Err(Error::NotInitialized),
        }
    }
}

impl HwndType {
    /// The window under which a child window has to be made for the control, if the
    /// host asked for one.
    pub open spec fn spec_new_hwnd_parent(&self) -> Option<usize> {
        match *self {
            HwndType::NewHwndInWindow(parent) => Some(parent),
            _ => None,
        }
    }

    /// The window that hosts the control, given the child window that was made where
    /// one was asked for. `None` where a child window was asked for and is missing.
    pub open spec fn host(self, new_hwnd: Option<usize>) -> Option<usize> {
        match self {
            HwndType::FillWindow(hwnd) => Some(hwnd),
            HwndType::ConsumeHwnd(hwnd) => Some(hwnd),
            HwndType::NewHwndInWindow(_) => new_hwnd,
        }
    }

    /// The window under which the host has to make a child window before the control
    /// can be created, if any.
    #[verifier::when_used_as_spec(spec_new_hwnd_parent)]
    pub fn new_hwnd_parent(&self) -> (parent: Option<usize>)
        ensures
            parent == self.spec_new_hwnd_parent(),
    {
        match self {
            HwndType::NewHwndInWindow(parent) => Some(*parent),
            _ => None,
        }
    }
}

/// Whether the runtime is usable after its initialization answered with `hr`: it is
/// when the call succeeded or found the runtime initialized already.
pub fn runtime_context(hr: i32) -> (usable: bool)
    ensures
        usable == (hr == S_OK || hr == S_FALSE),
{
    hr == S_OK || hr == S_FALSE
}

/// The host process in which controls are created.
pub struct Process {
    exited: bool,
}

impl Process {
    /// Whether the host process has exited.
    pub closed spec fn has_exited(&self) -> bool {
        self.exited
    }

    /// A running host process.
    pub fn new() -> (p: Process)
        ensures
            !p.has_exited(),
    {
        Process { exited: false }
    }

    /// Records that the native layer reported the end of the host process.
    pub fn process_exited(&mut self)
        ensures
            final(self).has_exited(),
    {
        self.exited = true;
    }

    /// Whether the host process has exited.
    pub fn is_exited(&self) -> (r: bool)
        ensures
            r == self.has_exited(),
    {
        self.exited
    }

    /// What a request to create a control gives: the pending control and the request
    /// for the native layer, or the reason why none can be made.
    pub open spec fn create_result(
        &self,
        hwnd_type: HwndType,
        new_hwnd: Option<usize>,
        position: (i32, i32),
        size: (i32, i32),
        callback: Option<u64>,
    ) -> Result<(ControlModel, CreateRequest), Error> {
        if self.has_exited() {
            Err(Error::Disposed)
        } else if hwnd_type.host(new_hwnd) is None {
            Err(Error::IoFailure)
        } else {
            let hwnd = hwnd_type.host(new_hwnd).unwrap();
            Ok(
                (
                    ControlModel {
                        hwnd,
                        is_window_hwnd: hwnd_type is FillWindow,
                        state: Lifecycle::Pending,
                        control: None,
                        queued: None,
                        callback,
                    },
                    CreateRequest {
                        hwnd,
                        bounds: Rect {
                            x: position.0 as i64,
                            y: position.1 as i64,
                            width: size.0 as i64,
                            height: size.1 as i64,
                        },
                    },
                ),
            )
        }
    }

    /// Starts the creation of a control in the window that `hwnd_type` names.
    ///
    /// `new_hwnd` is the child window that the host made under
    /// `hwnd_type.new_hwnd_parent()`, or `None` where it made none. `callback` is run
    /// once the control exists. The control that comes back is pending; the request
    /// that comes with it is what the host sends to the native layer.
    ///
    /// Fails with `Disposed` after the host process has exited, and with `IoFailure`
    /// where a child window was asked for and could not be made.
    pub fn create_control(
        &self,
        hwnd_type: HwndType,
        new_hwnd: Option<usize>,
        position: (i32, i32),
        size: (i32, i32),
        callback: Option<u64>,
    ) -> (r: Result<(Control, CreateRequest), Error>)
        ensures
            match self.create_result(hwnd_type, new_hwnd, position, size, callback) {
                Ok((model, request)) => r is Ok && r.unwrap().0@ == model && r.unwrap().1 == request,
                Err(e) => r == Err::<(Control, CreateRequest), Error>(e),
            },
    {
        if self.exited {
            return Err(Error::Disposed);
        }
        let is_window_hwnd = match hwnd_type {
            HwndType::FillWindow(_) => true,
            _ => false,
        };
        let host = match hwnd_type {
            HwndType::FillWindow(hwnd) => Some(hwnd),
            HwndType::ConsumeHwnd(hwnd) => Some(hwnd),
            HwndType::NewHwndInWindow(_) => new_hwnd,
        };
        match host {
            None => Err(Error::IoFailure),
            Some(hwnd) => {
                let mut inner = ControlInner::new(hwnd, is_window_hwnd);
                let started = inner.begin_creation(callback);
                assert(started);
                let request = CreateRequest {
                    hwnd,
                    bounds: Rect {
                        x: position.0 as i64,
                        y: position.1 as i64,
                        width: size.0 as i64,
                        height: size.1 as i64,
                    },
                };
                Ok((Control { inner }, request))
            },
        }
    }
}

/// Content that can be shown in a control.
pub trait WebView {
    type Error;

    /// Shows the page at `url`. Nothing is asked of the host while the native control
    /// does not exist.
    fn navigate(&self, url: &str) -> Result<Option<Navigation>, Self::Error>;

    /// Shows the markup that the host read from a local file, `None` standing for a
    /// read that failed.
    fn navigate_to_string(&self, contents: Option<String>) -> Result<Option<Navigation>, Self::Error>;
}

/// A control and everything the host may ask of it.
pub struct Control {
    inner: ControlInner,
}

impl View for Control {
    type V = ControlModel;

    closed spec fn view(&self) -> ControlModel {
        self.inner@
    }
}

impl ControlModel {
    /// The `SetWindowPos` call of a resize. A control that fills its window has no
    /// window of its own to move.
    pub open spec fn window_pos(self, position: Option<(i32, i32)>, size: Option<(i32, i32)>) -> Option<WindowPos> {
        if self.is_window_hwnd {
            None
        } else {
            Some(
                WindowPos {
                    hwnd: self.hwnd,
                    x: if position is Some { position.unwrap().0 } else { 0i32 },
                    y: if position is Some { position.unwrap().1 } else { 0i32 },
                    width: if size is Some { size.unwrap().0 } else { 0i32 },
                    height: if size is Some { size.unwrap().1 } else { 0i32 },
                    flags: resize_flags(position is Some, size is Some),
                },
            )
        }
    }

    /// The bounds that a resize to `size` hands to the control.
    pub open spec fn resize_bounds(size: (i32, i32)) -> Rect {
        Rect { x: 0, y: 0, width: size.0 as i64, height: size.1 as i64 }
    }

    /// What a resize asks of the host.
    pub open spec fn resize_result(self, position: Option<(i32, i32)>, size: Option<(i32, i32)>) -> Result<ResizePlan, Error> {
        match size {
            Some(s) => match self.bounds_result(Self::resize_bounds(s)) {
                Ok(action) => Ok(ResizePlan { window_pos: self.window_pos(position, size), bounds: Some(action) }),
                Err(e) => Err(e),
            },
            None => Ok(ResizePlan { window_pos: self.window_pos(position, size), bounds: None }),
        }
    }

    /// The state after a resize.
    pub open spec fn after_resize(self, size: Option<(i32, i32)>) -> ControlModel {
        match size {
            Some(s) => self.after_bounds(Self::resize_bounds(s)),
            None => self,
        }
    }
}

impl Control {
    /// Moves or resizes the control.
    ///
    /// A control with a window of its own has that window moved and resized first,
    /// as far as a position and a size are given. With a size, the control's bounds
    /// become that size at the origin: at once where the native control exists, held
    /// back where it is pending. Without a size the host is asked to measure the
    /// window and to report it through `update_bounds`.
    pub fn resize(&mut self, position: Option<(i32, i32)>, size: Option<(i32, i32)>) -> (r: Result<ResizePlan, Error>)
        ensures
            r == old(self)@.resize_result(position, size),
            final(self)@ == old(self)@.after_resize(size),
            final(self)@.wf(),
    {
        let window_pos = if self.inner.is_window_hwnd {
            None
        } else {
            let (x, y) = match position {
                Some(p) => p,
                None => (0i32, 0i32),
            };
            let (width, height) = match size {
                Some(s) => s,
                None => (0i32, 0i32),
            };
            let mut flags: u32 = SWP_NOZORDER;
            if position.is_none() {
                flags = flags | SWP_NOMOVE;
            }
            if size.is_none() {
                flags = flags | SWP_NOSIZE;
            }
            Some(WindowPos { hwnd: self.inner.hwnd, x, y, width, height, flags })
        };
        let r = match size {
            Some((width, height)) => {
                let rect = Rect { x: 0, y: 0, width: width as i64, height: height as i64 };
                match self.inner.update_bounds_from_rect(rect) {
                    Ok(action) => Ok(ResizePlan { window_pos, bounds: Some(action) }),
                    Err(e) => Err(e),
                }
            },
            None => Ok(ResizePlan { window_pos, bounds: None }),
        };
        proof {
            use_type_invariant(&self.inner);
        }
        r
    }

    /// Takes in the window rectangle that the host measured after a resize without a
    /// size; see `ControlInner::update_bounds`.
    pub fn update_bounds(&mut self, window: Option<WindowRect>) -> (r: Result<BoundsAction, Error>)
        ensures
            window is None ==> r == Err::<BoundsAction, Error>(Error::IoFailure) && final(self)@ == old(self)@,
            window is Some ==> {
                let rect = bounds_of(window.unwrap(), old(self)@.is_window_hwnd);
                &&& r == old(self)@.bounds_result(rect)
                &&& final(self)@ == old(self)@.after_bounds(rect)
            },
    {
        self.inner.update_bounds(window)
    }

    /// Takes in the answer of the native layer to the creation request; see
    /// `ControlInner::creation_reported`.
    pub fn control_created(&mut self, code: i32, native: u64, message: String) -> (r: Result<Completion, Error>)
        ensures
            old(self)@.created_result(code, message@, r),
            final(self)@ == old(self)@.after_created(code, native),
    {
        self.inner.creation_reported(code, native, message)
    }

    /// The window that hosts the control.
    pub fn get_hwnd(&self) -> (hwnd: usize)
        ensures
            hwnd == self@.hwnd,
    {
        self.inner.hwnd
    }

    /// The native control, once it exists.
    pub fn get_inner(&self) -> (control: Option<u64>)
        ensures
            control == self@.control,
            self@.wf(),
    {
        proof {
            use_type_invariant(&self.inner);
        }
        self.inner.control
    }

    /// Where the control stands in its lifecycle.
    pub fn state(&self) -> (s: Lifecycle)
        ensures
            s == self@.state,
            self@.wf(),
    {
        self.inner.state()
    }
}

impl WebView for Control {
    type Error = Error;

    fn navigate(&self, url: &str) -> (r: Result<Option<Navigation>, Error>)
        ensures
            r is Ok,
            self@.control is None ==> r.unwrap() is None,
            self@.control is Some ==> (r.unwrap() matches Some(Navigation::Uri(native, address))
                && native == self@.control.unwrap() && address@ == url@),
    {
        match self.inner.control {
            Some(native) => Ok(Some(Navigation::Uri(native, url.to_owned()))),
            None => Ok(None),
        }
    }

    fn navigate_to_string(&self, contents: Option<String>) -> (r: Result<Option<Navigation>, Error>)
        ensures
            contents is None ==> r == Err::<Option<Navigation>, Error>(Error::IoFailure),
            contents is Some ==> r is Ok,
            contents is Some && self@.control is None ==> r.unwrap() is None,
            contents is Some && self@.control is Some ==> r.unwrap() == Some(
                Navigation::Markup(self@.control.unwrap(), contents.unwrap()),
            ),
    {
        match contents {
            None => Err(Error::IoFailure),
            Some(markup) => match self.inner.control {
                Some(native) => Ok(Some(Navigation::Markup(native, markup))),
                None => Ok(None),
            },
        }
    }
}

/// The numbers behind `resize_flags`.
pub proof fn lemma_resize_flags()
    ensures
        resize_flags(true, true) == 4,
        resize_flags(true, false) == 5,
        resize_flags(false, true) == 6,
        resize_flags(false, false) == 7,
{
    assert(0x0004u32 | 0x0002u32 == 6) by (bit_vector);
    assert(0x0004u32 | 0x0001u32 == 5) by (bit_vector);
    assert(6u32 | 0x0001u32 == 7) by (bit_vector);
}

/// Bounds requested while a control is pending are held back, the later request in
/// place of the earlier one. When the native control comes into being the host is
/// told to set the bounds requested last, and the callback to run; from then on
/// nothing is held back, a second answer of the native layer is refused and hands
/// nothing out again, and new bounds are set at once.
pub proof fn lemma_queued_bounds_applied_once(
    c: ControlModel,
    first: Rect,
    last: Rect,
    native: u64,
    later: Rect,
)
    requires
        c.wf(),
        c.state == Lifecycle::Pending,
    ensures
        c.bounds_result(first) == Ok::<BoundsAction, Error>(BoundsAction::Queued),
        c.after_bounds(first).bounds_result(last) == Ok::<BoundsAction, Error>(BoundsAction::Queued),
        c.after_bounds(first).after_bounds(last).queued == Some(last),
        ({
            let pending = c.after_bounds(first).after_bounds(last);
            let ready = pending.after_created(0, native);
            &&& forall|message: Seq<char>|
                pending.created_result(
                    0,
                    message,
                    Ok(Completion { callback: c.callback, bounds: Some(last) }),
                )
            &&& ready.wf()
            &&& ready.state == Lifecycle::Ready
            &&& ready.control == Some(native)
            &&& ready.queued is None
            &&& ready.callback is None
            &&& forall|code: i32, other: u64| ready.after_created(code, other) == ready
            &&& forall|code: i32, message: Seq<char>|
                ready.created_result(code, message, Err(Error::NotInitialized))
            &&& ready.bounds_result(later) == Ok::<BoundsAction, Error>(BoundsAction::Apply(later))
            &&& ready.after_bounds(later) == ready
        }),
{
}

/// However many bounds are requested while a control is pending, the control stays
/// as it was but for the bounds it holds back, and those are the ones requested last:
/// nothing accumulates. They are what the host is told to set when the native control
/// comes into being.
pub proof fn lemma_last_bounds_win(c: ControlModel, rects: Seq<Rect>, native: u64)
    requires
        c.wf(),
        c.state == Lifecycle::Pending,
        rects.len() > 0,
    ensures
        c.after_all_bounds(rects) == (ControlModel { queued: Some(rects.last()), ..c }),
        forall|message: Seq<char>|
            c.after_all_bounds(rects).created_result(
                0,
                message,
                Ok(Completion { callback: c.callback, bounds: Some(rects.last()) }),
            ),
        c.after_all_bounds(rects).after_created(0, native).queued is None,
    decreases rects.len(),
{
    if rects.len() > 1 {
        lemma_last_bounds_win(c, rects.drop_last(), native);
    } else {
        assert(rects.drop_last().len() == 0);
        assert(c.after_all_bounds(rects.drop_last()) == c);
    }
}

} // verus!
