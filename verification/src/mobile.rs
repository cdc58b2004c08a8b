//! The mobile stub variant of the bridge.

use vstd::prelude::*;

use crate::bridge::{Fcm, PlatformCapability};
use crate::native::{fresh_native, NativeModel};

verus! {

/// Initialize the bridge as a mobile build whose native FCM bridge is not
/// wired yet: every operation returns the `NativeImplementationUnavailable`
/// error at once, side-effect free, and the native layer is never touched.
pub fn init() -> (r: Fcm)
    ensures
        r.wf(),
        r@.capability == PlatformCapability::MobileStub,
        r@.native == fresh_native(),
{
    Fcm::new(PlatformCapability::MobileStub, NativeModel::new())
}

} // verus!
