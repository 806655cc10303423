use vstd::prelude::*;

verus! {

/// A platform window reference as the host application hands it over: the
/// addresses of the native window and of its content view, zero where absent.
#[derive(Debug, Clone, Copy, PartialEq, Eq, Structural)]
pub struct WindowHandle {
    pub ns_window: usize,
    pub ns_view: usize,
}

impl WindowHandle {
    /// A reference is usable only when both the window and its view are present.
    pub open spec fn is_valid(self) -> bool {
        self.ns_window != 0 && self.ns_view != 0
    }

    pub fn new(ns_window: usize, ns_view: usize) -> (r: WindowHandle)
        ensures
            r.ns_window == ns_window,
            r.ns_view == ns_view,
    {
        WindowHandle { ns_window, ns_view }
    }

    pub fn is_valid_handle(&self) -> (r: bool)
        ensures
            r == self.is_valid(),
    {
        self.ns_window != 0 && self.ns_view != 0
    }
}

} // verus!
