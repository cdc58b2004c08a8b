//! The desktop variant of the bridge.

use vstd::prelude::*;

use crate::bridge::{Fcm, PlatformCapability};
use crate::native::{fresh_native, NativeModel};

verus! {

/// Initialize the bridge as a desktop build: every operation returns the
/// `UnsupportedPlatform` error at once, side-effect free, and the native
/// layer is never touched.
pub fn init() -> (r: Fcm)
    ensures
        r.wf(),
        r@.capability == PlatformCapability::Desktop,
        r@.native == fresh_native(),
{
    Fcm::new(PlatformCapability::Desktop, NativeModel::new())
}

} // verus!
