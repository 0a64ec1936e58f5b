//! macOS Accessibility Permission Handling

use vstd::prelude::*;

verus! {

pub open spec fn granted_message() -> Seq<char> {
    "Accessibility access is enabled."@
}

pub open spec fn required_message() -> Seq<char> {
    "MacWinShare requires accessibility access to capture and inject input events.\n\nPlease go to System Settings > Privacy & Security > Accessibility\nand enable access for MacWinShare."@
}

/// Get a user-friendly message about accessibility requirements, given
/// whether the process is trusted for accessibility.
pub fn get_accessibility_message(trusted: bool) -> (m: &'static str)
    ensures
        m@ == (if trusted {
            granted_message()
        } else {
            required_message()
        }),
{
    if trusted {
        "Accessibility access is enabled."
    } else {
        "MacWinShare requires accessibility access to capture and inject input events.\n\nPlease go to System Settings > Privacy & Security > Accessibility\nand enable access for MacWinShare."
    }
}

} // verus!
