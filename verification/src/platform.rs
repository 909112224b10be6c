//! Platform capture-method decisions, computed from the reported OS
//! version. Reading the version itself is platform work outside the
//! library; the choices made from it are here.

use vstd::prelude::*;

verus! {

/// The capture backends the platform offers.
#[derive(Debug, Clone, Copy, PartialEq, Eq, Structural)]
pub enum CaptureMethod {
    /// Desktop duplication.
    DXGI,
    /// The classic device-context blit.
    GDI,
}

/// A captured cursor image with its hotspot.
#[derive(Clone, Debug)]
pub struct CursorData {
    /// The platform cursor id.
    pub id: u64,
    /// The cursor pixels.
    pub colors: Vec<u8>,
    /// Hotspot x offset.
    pub hotx: i32,
    /// Hotspot y offset.
    pub hoty: i32,
    /// Width in pixels.
    pub width: i32,
    /// Height in pixels.
    pub height: i32,
}

impl Default for CursorData {
    fn default() -> (r: Self)
        ensures
            r.id == 0,
            r.colors@.len() == 0,
            r.hotx == 0,
            r.hoty == 0,
            r.width == 0,
            r.height == 0,
    {
        CursorData { id: 0, colors: Vec::new(), hotx: 0, hoty: 0, width: 0, height: 0 }
    }
}

/// Whether desktop duplication exists on an OS of the given major
/// version: it arrived with major version six.
pub fn is_dxgi_available(major: u32) -> (r: bool)
    ensures
        r == (major >= 6),
{
    major >= 6
}

/// The capture method to prefer on an OS version: desktop duplication
/// from version 6.2 on, the device-context blit before that.
pub fn get_optimal_capture_method(major: u32, minor: u32) -> (r: CaptureMethod)
    ensures
        r == (if major > 6 || (major == 6 && minor >= 2) {
            CaptureMethod::DXGI
        } else {
            CaptureMethod::GDI
        }),
{
    if !is_dxgi_available(major) {
        return CaptureMethod::GDI;
    }
    if major > 6 || (major == 6 && minor >= 2) {
        CaptureMethod::DXGI
    } else {
        CaptureMethod::GDI
    }
}

} // verus!
