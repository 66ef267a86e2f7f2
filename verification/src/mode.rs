//! The console mode bitmask and the one change that activation makes to it.

use vstd::prelude::*;

verus! {

/// Output-mode flag: the console interprets virtual-terminal (ANSI) escape
/// sequences written to it.
pub const ENABLE_VIRTUAL_TERMINAL_PROCESSING: u32 = 0x0004;

/// Output-mode flag that alters how the console treats a newline on write.
/// It interferes with escape-sequence interpretation, so activation clears it.
pub const DISABLE_NEWLINE_AUTO_RETURN: u32 = 0x0008;

/// Every bit of `flag` is set in `mode`.
pub open spec fn has_flag(mode: u32, flag: u32) -> bool {
    mode & flag == flag
}

/// No bit of `flag` is set in `mode`.
pub open spec fn lacks_flag(mode: u32, flag: u32) -> bool {
    mode & flag == 0
}

/// The bits of `mode` that activation leaves alone: all but the two flags.
pub open spec fn unrelated_bits(mode: u32) -> u32 {
    mode & !(ENABLE_VIRTUAL_TERMINAL_PROCESSING | DISABLE_NEWLINE_AUTO_RETURN)
}

/// The mode that activation writes back for a console found in `mode`.
pub open spec fn activated(mode: u32) -> u32 {
    (mode | ENABLE_VIRTUAL_TERMINAL_PROCESSING) & !DISABLE_NEWLINE_AUTO_RETURN
}

/// `mode` already is what activation would make of it.
pub open spec fn is_activated(mode: u32) -> bool {
    &&& has_flag(mode, ENABLE_VIRTUAL_TERMINAL_PROCESSING)
    &&& lacks_flag(mode, DISABLE_NEWLINE_AUTO_RETURN)
}

/// Computes the mode to write back: the virtual-terminal flag set, the
/// newline flag cleared, every other bit as it was read.
pub fn activate_mode(mode: u32) -> (new_mode: u32)
    ensures
        new_mode == activated(mode),
        has_flag(new_mode, ENABLE_VIRTUAL_TERMINAL_PROCESSING),
        lacks_flag(new_mode, DISABLE_NEWLINE_AUTO_RETURN),
        unrelated_bits(new_mode) == unrelated_bits(mode),
{
    proof {
        lemma_activated_flags(mode);
    }
    (mode | ENABLE_VIRTUAL_TERMINAL_PROCESSING) & !DISABLE_NEWLINE_AUTO_RETURN
}

/// Whatever the mode was, the activated mode has the virtual-terminal flag
/// set and the newline flag cleared, and agrees with the old mode on every
/// other bit.
pub proof fn lemma_activated_flags(mode: u32)
    ensures
        has_flag(activated(mode), ENABLE_VIRTUAL_TERMINAL_PROCESSING),
        lacks_flag(activated(mode), DISABLE_NEWLINE_AUTO_RETURN),
        unrelated_bits(activated(mode)) == unrelated_bits(mode),
        is_activated(activated(mode)),
{
    assert(has_flag(activated(mode), ENABLE_VIRTUAL_TERMINAL_PROCESSING)) by (bit_vector);
    assert(lacks_flag(activated(mode), DISABLE_NEWLINE_AUTO_RETURN)) by (bit_vector);
    assert(unrelated_bits(activated(mode)) == unrelated_bits(mode)) by (bit_vector);
}

/// The three flag conditions leave no choice: a mode that has the
/// virtual-terminal flag, lacks the newline flag and agrees with `mode` on
/// the other bits is the activated mode.
pub proof fn lemma_activated_unique(mode: u32, other: u32)
    requires
        has_flag(other, ENABLE_VIRTUAL_TERMINAL_PROCESSING),
        lacks_flag(other, DISABLE_NEWLINE_AUTO_RETURN),
        unrelated_bits(other) == unrelated_bits(mode),
    ensures
        other == activated(mode),
{
    assert(other == activated(mode)) by (bit_vector)
        requires
            has_flag(other, ENABLE_VIRTUAL_TERMINAL_PROCESSING),
            lacks_flag(other, DISABLE_NEWLINE_AUTO_RETURN),
            unrelated_bits(other) == unrelated_bits(mode),
    ;
}

/// Activating an activated mode changes nothing.
pub proof fn lemma_activated_idempotent(mode: u32)
    ensures
        activated(activated(mode)) == activated(mode),
{
    assert(activated(activated(mode)) == activated(mode)) by (bit_vector);
}

/// A mode is a fixed point of activation exactly when it is activated.
pub proof fn lemma_activated_fixed_point(mode: u32)
    ensures
        activated(mode) == mode <==> is_activated(mode),
{
    assert(activated(mode) == mode <==> is_activated(mode)) by (bit_vector);
}

} // verus!
