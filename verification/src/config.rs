use vstd::prelude::*;

verus! {

/// How long a user must wait between two rolls, in seconds.
pub const ROLL_COOLDOWN_SECONDS: i64 = 900;

/// How long a user must wait between two inventory views, in seconds.
pub const INVENTORY_COOLDOWN_SECONDS: i64 = 300;

/// How long a browsing session waits for one input before it expires,
/// in seconds.
pub const SESSION_STEP_TIMEOUT_SECONDS: i64 = 30;

/// The total inactivity budget of a browsing session, in seconds.
pub const SESSION_TOTAL_TIMEOUT_SECONDS: i64 = 300;

} // verus!
