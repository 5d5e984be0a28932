//! Constant values used across the library.

use vstd::prelude::*;

verus! {

/// Default listener port
pub const WEB_SERVER_DEFAULT_PORT: u16 = 8888;

/// Default number of history entries to show on the service check page
pub const DEFAULT_SERVICE_CHECK_HISTORY_VIEW_ENTRIES: u64 = 50;

/// Expiry time + x hours is when we clean up old sessions from the DB
pub const SESSION_EXPIRY_WINDOW_HOURS: i64 = 8;

/// How many minutes a check will be in "Checking" state before we consider it stuck
pub const STUCK_CHECK_MINUTES: i64 = 5;

/// Default number of history entries to keep in the database
pub const DEFAULT_SERVICE_CHECK_HISTORY_STORAGE: u64 = 25000;

/// The default listener port, which is never zero.
pub fn web_server_default_port() -> (p: u16)
    ensures
        p == WEB_SERVER_DEFAULT_PORT,
        p != 0,
{
    WEB_SERVER_DEFAULT_PORT
}

} // verus!
