//! Failure taxonomy of the bootstrap pipeline.

use vstd::prelude::*;

verus! {

/// The failure kinds a bootstrap operation can report.
///
/// Callers are expected to abort startup on any of them; there is no
/// partial-initialization recovery and no retry.
#[derive(Clone, Copy, Debug, PartialEq, Eq, Structural)]
pub enum BootstrapError {
    /// Instance, layer, extension or messenger setup failed.
    Initialization,
    /// The platform integration could not bind a surface to the window.
    SurfaceCreation,
    /// No physical device exposes a queue family that can present.
    NoDeviceFound,
    /// A single support query failed.  Always downgraded to
    /// "non-qualifying" inside the device selector; never propagated
    /// out of it.
    Query,
}

impl BootstrapError {
    /// An operator-visible description of the failure.
    pub fn describe(&self) -> (r: &'static str)
        ensures
            *self is Initialization ==> r@ == "instance or diagnostics setup failed"@,
            *self is SurfaceCreation ==> r@ == "surface creation failed"@,
            *self is NoDeviceFound ==> r@ == "no presentable physical device found"@,
            *self is Query ==> r@ == "support query failed"@,
    {
        match self {
            BootstrapError::Initialization => "instance or diagnostics setup failed",
            BootstrapError::SurfaceCreation => "surface creation failed",
            BootstrapError::NoDeviceFound => "no presentable physical device found",
            BootstrapError::Query => "support query failed",
        }
    }
}

} // verus!
