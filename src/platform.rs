use vstd::prelude::*;

verus! {

/// The windowing system that a native window handle belongs to.
#[derive(Debug, Clone, Copy, PartialEq, Eq, Structural)]
pub enum WindowHandleKind {
    AppKit,
    Xlib,
    Xcb,
    Wayland,
    Win32,
    Other,
}

/// The windowing system that a native display handle belongs to.
#[derive(Debug, Clone, Copy, PartialEq, Eq, Structural)]
pub enum DisplayHandleKind {
    AppKit,
    Xlib,
    Xcb,
    Wayland,
    Windows,
    Other,
}

/// How a native presentation surface is made for a window.
#[derive(Debug, Clone, Copy, PartialEq, Eq, Structural)]
pub enum SurfacePlatform {
    /// Through a Metal layer attached to the window's view.
    Metal,
    Xlib,
    Xcb,
    Wayland,
    Win32,
}

/// The platform for a pair of handles: X11 and Wayland windows need a display of their own
/// system; AppKit and Win32 windows need none.
pub open spec fn platform_of(w: WindowHandleKind, d: DisplayHandleKind) -> Option<SurfacePlatform> {
    match w {
        WindowHandleKind::AppKit => Some(SurfacePlatform::Metal),
        WindowHandleKind::Xlib => if d == DisplayHandleKind::Xlib {
            Some(SurfacePlatform::Xlib)
        } else {
            None
        },
        WindowHandleKind::Xcb => if d == DisplayHandleKind::Xcb {
            Some(SurfacePlatform::Xcb)
        } else {
            None
        },
        WindowHandleKind::Wayland => if d == DisplayHandleKind::Wayland {
            Some(SurfacePlatform::Wayland)
        } else {
            None
        },
        WindowHandleKind::Win32 => Some(SurfacePlatform::Win32),
        WindowHandleKind::Other => None,
    }
}

/// Which native surface to create for a window and display handle; `None` for a combination
/// that is not supported.
pub fn surface_platform(w: WindowHandleKind, d: DisplayHandleKind) -> (r: Option<SurfacePlatform>)
    ensures
        r == platform_of(w, d),
{
    match (w, d) {
        (WindowHandleKind::AppKit, _) => Some(SurfacePlatform::Metal),
        (WindowHandleKind::Xlib, DisplayHandleKind::Xlib) => Some(SurfacePlatform::Xlib),
        (WindowHandleKind::Xcb, DisplayHandleKind::Xcb) => Some(SurfacePlatform::Xcb),
        (WindowHandleKind::Wayland, DisplayHandleKind::Wayland) => Some(SurfacePlatform::Wayland),
        (WindowHandleKind::Win32, _) => Some(SurfacePlatform::Win32),
        _ => None,
    }
}

} // verus!
