//! The status shown by the user interface.

use vstd::prelude::*;

verus! {

/// The application's status as the user interface shows it.
#[derive(Debug, Clone)]
pub struct AppStatus {
    pub mode: String,
    pub connected: bool,
    pub peer_name: Option<String>,
    pub fingerprint: String,
}

impl AppStatus {
    /// The status while nothing runs: mode "Idle", not connected, no peer,
    /// and this machine's certificate fingerprint, or "Unknown" when the
    /// certificate could not be loaded.
    pub fn idle(fingerprint: Option<String>) -> (s: AppStatus)
        ensures
            s.mode@ == "Idle"@,
            !s.connected,
            s.peer_name is None,
            match fingerprint {
                Some(f) => s.fingerprint@ == f@,
                None => s.fingerprint@ == "Unknown"@,
            },
    {
        AppStatus {
            mode: "Idle".to_owned(),
            connected: false,
            peer_name: None,
            fingerprint: match fingerprint {
                Some(f) => f,
                None => "Unknown".to_owned(),
            },
        }
    }
}

} // verus!
