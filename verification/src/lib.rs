//! Switches a console to interpret ANSI/VT100 escape sequences.
//!
//! Some consoles print escape sequences verbatim until they are told to
//! interpret them. Telling them is one read-modify-write of the device's
//! mode flags: open the console output device, read its mode, set the
//! virtual-terminal flag, clear the newline flag, write the mode back.
//!
//! * [`mode`] computes the mode that is written back.
//! * [`protocol`] decides, report by report, what is asked of the device next
//!   and how the sequence ends. The caller that owns the device performs each
//!   request and hands back the device's report.
//! * [`console`] runs that sequence against a console held in memory, which
//!   shows what the sequence does to every device state.
//! * [`try_init`] and [`init`] are the entry points for platforms whose
//!   consoles interpret escape sequences on their own.

use vstd::prelude::*;

pub mod console;
pub mod mode;
pub mod protocol;

verus! {

/// Fallible initialisation where nothing needs activating: succeeds at once,
/// without touching any device.
pub fn try_init() -> (outcome: Result<(), ()>)
    ensures
        outcome == Ok::<(), ()>(()),
{
    Ok(())
}

/// Strict initialisation where nothing needs activating. It runs
/// [`try_init`], whose success is certain, so there is no failure to halt on.
pub fn init() {
    let outcome = try_init();
    assert(outcome is Ok);
}

} // verus!
