use vstd::prelude::*;
use crate::edge::Control;
use crate::edge::CreateRequest;
use crate::edge::Process;
use crate::error::Error;

verus! {

/// How the control gets its window, seen from the window of the event loop.
#[derive(Clone, Copy, Debug, PartialEq, Eq, Structural)]
pub enum HwndType {
    /// The control fills the window of the event loop.
    FillWindow,
    /// The control takes over this window, which the host made for it.
    ConsumeHwnd(usize),
    /// A child window is made for the control inside the window of the event loop.
    NewHwndInWindow,
}

impl HwndType {
    /// The same choice with the window of the event loop filled in.
    pub open spec fn spec_in_window(self, window_hwnd: usize) -> crate::edge::HwndType {
        match self {
            HwndType::FillWindow => crate::edge::HwndType::FillWindow(window_hwnd),
            HwndType::ConsumeHwnd(hwnd) => crate::edge::HwndType::ConsumeHwnd(hwnd),
            HwndType::NewHwndInWindow => crate::edge::HwndType::NewHwndInWindow(window_hwnd),
        }
    }

    /// Fills in the window of the event loop.
    #[verifier::when_used_as_spec(spec_in_window)]
    pub fn in_window(self, window_hwnd: usize) -> (r: crate::edge::HwndType)
        ensures
            r == self.spec_in_window(window_hwnd),
    {
        match self {
            HwndType::FillWindow => crate::edge::HwndType::FillWindow(window_hwnd),
            HwndType::ConsumeHwnd(hwnd) => crate::edge::HwndType::ConsumeHwnd(hwnd),
            HwndType::NewHwndInWindow => crate::edge::HwndType::NewHwndInWindow(window_hwnd),
        }
    }
}

/// A count of physical pixels as the signed number that the window manager takes:
/// the value with the same 32 bits.
pub open spec fn pixels(v: u32) -> i32 {
    if v <= 0x7fff_ffff {
        v as i32
    } else {
        (v - 0x1_0000_0000) as i32
    }
}

/// Where a new control goes and how large it is, in physical pixels: the position
/// asked for, else the origin; the size asked for, else the inner size of the window.
pub open spec fn spec_geometry(
    position: Option<(i32, i32)>,
    size: Option<(u32, u32)>,
    inner_size: (u32, u32),
) -> ((i32, i32), (i32, i32)) {
    let position = if position is Some { position.unwrap() } else { (0i32, 0i32) };
    let size = if size is Some { size.unwrap() } else { inner_size };
    (position, (pixels(size.0), pixels(size.1)))
}

/// Converts a count of physical pixels to the signed number with the same bits.
fn to_pixels(v: u32) -> (r: i32)
    ensures
        r == pixels(v),
{
    if v <= 0x7fff_ffff {
        v as i32
    } else {
        (v as i64 - 0x1_0000_0000) as i32
    }
}

/// Works out where a new control goes and how large it is.
#[verifier::when_used_as_spec(spec_geometry)]
pub fn geometry(position: Option<(i32, i32)>, size: Option<(u32, u32)>, inner_size: (u32, u32)) -> (r: (
    (i32, i32),
    (i32, i32),
))
    ensures
        r == spec_geometry(position, size, inner_size),
{
    let position = match position {
        Some(p) => p,
        None => (0i32, 0i32),
    };
    let size = match size {
        Some(s) => s,
        None => inner_size,
    };
    (position, (to_pixels(size.0), to_pixels(size.1)))
}

/// Starts the creation of a control in a window of the event loop.
///
/// `window_hwnd` and `inner_size` are the handle and the inner size of that window,
/// `position` and `size` what the host asked for, all in physical pixels. `new_hwnd`
/// is the child window that the host made where `hwnd_type` asks for one. The
/// control is created by `process` with the geometry that `geometry` gives.
pub fn new_control(
    process: &Process,
    window_hwnd: usize,
    inner_size: (u32, u32),
    hwnd_type: HwndType,
    new_hwnd: Option<usize>,
    position: Option<(i32, i32)>,
    size: Option<(u32, u32)>,
    callback: Option<u64>,
) -> (r: Result<(Control, CreateRequest), Error>)
    ensures
        ({
            let (at, extent) = spec_geometry(position, size, inner_size);
            match process.create_result(hwnd_type.spec_in_window(window_hwnd), new_hwnd, at, extent, callback) {
                Ok((model, request)) => r is Ok && r.unwrap().0@ == model && r.unwrap().1 == request,
                Err(e) => r == Err::<(Control, CreateRequest), Error>(e),
            }
        }),
{
    let (at, extent) = geometry(position, size, inner_size);
    process.create_control(hwnd_type.in_window(window_hwnd), new_hwnd, at, extent, callback)
}

} // verus!
