use vstd::prelude::*;
use vstd::string::*;
use crate::error::{is_capture_error, AppError};

verus! {

/// The operating systems the application is built for.
#[derive(Debug, Clone, Copy, PartialEq, Eq, Structural)]
pub enum TargetOs {
    Linux,
    MacOs,
    Windows,
    Other,
}

/// The screen capture implementations.
#[derive(Debug, Clone, Copy, PartialEq, Eq, Structural)]
pub enum CaptureBackend {
    /// X11 through shared memory (Linux).
    X11,
    /// PipeWire (Linux under Wayland).
    PipeWire,
    /// scap (macOS and Windows).
    Scap,
}

/// The capturer that suits a platform: on Linux, PipeWire under Wayland and X11
/// otherwise; scap on macOS and Windows; none elsewhere.
pub open spec fn backend_for(os: TargetOs, wayland: bool) -> Option<CaptureBackend> {
    match os {
        TargetOs::Linux => if wayland {
            Some(CaptureBackend::PipeWire)
        } else {
            Some(CaptureBackend::X11)
        },
        TargetOs::MacOs => Some(CaptureBackend::Scap),
        TargetOs::Windows => Some(CaptureBackend::Scap),
        TargetOs::Other => None,
    }
}

/// Picks the capturer for the platform (`wayland` tells whether the Wayland
/// build is wanted); an unsupported platform is a capture error.
pub fn create_capturer(os: TargetOs, wayland: bool) -> (r: Result<CaptureBackend, AppError>)
    ensures
        match backend_for(os, wayland) {
            Some(b) => r == Ok::<CaptureBackend, AppError>(b),
            None => r matches Err(e) && is_capture_error(e, "Unsupported platform"@),
        },
{
    match os {
        TargetOs::Linux => if wayland {
            Ok(CaptureBackend::PipeWire)
        } else {
            Ok(CaptureBackend::X11)
        },
        TargetOs::MacOs => Ok(CaptureBackend::Scap),
        TargetOs::Windows => Ok(CaptureBackend::Scap),
        TargetOs::Other => Err(AppError::Capture(String::from_str("Unsupported platform"))),
    }
}

} // verus!
