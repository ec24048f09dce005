use vstd::prelude::*;

verus! {

/// Everything that can go wrong between the host application and the native control.
#[derive(Debug, Clone, PartialEq, Eq)]
pub enum Error {
    /// The control was disposed before the request reached it.
    Disposed,
    /// The runtime, the process or the control has not been brought up yet.
    NotInitialized,
    /// The native layer answered with a non-zero code; the text is its last error message.
    NativeCreationFailed(i32, String),
    /// A string argument cannot cross the boundary as text: it holds a zero byte,
    /// or the bytes that came back are not UTF-8.
    InvalidText,
    /// Reading local content, or a window of the host, failed.
    IoFailure,
}

impl Error {
    /// The native code carried by the error, if it came from the native layer.
    pub fn code(&self) -> (r: Option<i32>)
        ensures
            r == match *self {
                Error::NativeCreationFailed(code, _) => Some(code),
                _ => None,
            },
    {
        match self {
            Error::NativeCreationFailed(code, _) => Some(*code),
            _ => None,
        }
    }

    /// Whether the error was reported by the native layer.
    pub fn is_native(&self) -> (r: bool)
        ensures
            r == (*self is NativeCreationFailed),
    {
        match self {
            Error::NativeCreationFailed(_, _) => true,
            _ => false,
        }
    }
}

} // verus!
