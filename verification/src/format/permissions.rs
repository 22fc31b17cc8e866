//! Declared permission constants (each corresponds to a capability in the WIT interface).

use vstd::prelude::*;

verus! {

/// Local data read/write (`save-data` / `load-data`).
pub const STORAGE: &'static str = "storage";

/// System notifications (`show-notification`).
pub const NOTIFICATIONS: &'static str = "notifications";

/// Network access (`http-request`).
pub const NETWORK: &'static str = "network";

/// Location (`get-location`).
pub const LOCATION: &'static str = "location";

/// Camera / gallery (`take-photo`).
pub const CAMERA: &'static str = "camera";

/// Native push (`get-push-token`).
pub const PUSH: &'static str = "push";

} // verus!
