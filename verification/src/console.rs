//! A console held in memory, and the activation sequence run against it.
//!
//! [`Console`] is a console device reduced to what the sequence can observe
//! of it: whether a handle can be had, whether the mode can be read and
//! written, and the mode itself. Running the sequence against it states, for
//! every such device, how activation ends and what it leaves behind.

use vstd::prelude::*;
use crate::mode::activated;
use crate::mode::has_flag;
use crate::mode::is_activated;
use crate::mode::lacks_flag;
use crate::mode::lemma_activated_flags;
use crate::mode::lemma_activated_idempotent;
use crate::mode::unrelated_bits;
use crate::mode::DISABLE_NEWLINE_AUTO_RETURN;
use crate::mode::ENABLE_VIRTUAL_TERMINAL_PROCESSING;
use crate::protocol::collapse;
use crate::protocol::collapsed;
use crate::protocol::Event;
use crate::protocol::Failure;
use crate::protocol::Step;

verus! {

/// A console output device as the activation sequence sees it.
#[derive(Clone, Copy, Debug, PartialEq, Eq)]
pub struct Console {
    /// A handle to the device can be opened.
    pub attached: bool,
    /// Reading the mode through a handle succeeds.
    pub readable: bool,
    /// Writing the mode through a handle succeeds.
    pub writable: bool,
    /// The device's current mode flags.
    pub mode: u32,
}

impl Console {
    /// How an activation of this console ends: it fails at the first request
    /// that the console refuses, and succeeds if it refuses none.
    pub open spec fn activation_result(self) -> Result<(), Failure> {
        if !self.attached {
            Err(Failure::Unavailable)
        } else if !self.readable {
            Err(Failure::QueryFailed)
        } else if !self.writable {
            Err(Failure::UpdateFailed)
        } else {
            Ok(())
        }
    }

    /// The console as an activation leaves it: with the activated mode if the
    /// activation succeeds, untouched if it fails.
    pub open spec fn after_activation(self) -> Console {
        if self.activation_result() is Ok {
            Console { mode: activated(self.mode), ..self }
        } else {
            self
        }
    }

    /// What the console reports when asked for a handle.
    pub open spec fn open_report(self) -> Event {
        if self.attached {
            Event::HandleOpened
        } else {
            Event::Refused
        }
    }

    /// What the console reports when asked for its mode.
    pub open spec fn query_report(self) -> Event {
        if self.attached && self.readable {
            Event::ModeRead(self.mode)
        } else {
            Event::Refused
        }
    }

    /// What the console reports when asked to take a new mode.
    pub open spec fn update_report(self) -> Event {
        if self.attached && self.writable {
            Event::ModeWritten
        } else {
            Event::Refused
        }
    }

    /// How far a sequence that began on `before` and now stands at `step` has
    /// brought the console.
    spec fn reached(self, before: Console, step: Step) -> bool {
        match step {
            Step::OpenConsole => self == before,
            Step::QueryMode => self == before && before.attached,
            Step::UpdateMode(mode) => {
                &&& self == before
                &&& before.attached
                &&& before.readable
                &&& mode == activated(before.mode)
            },
            Step::Done => {
                &&& before.activation_result() is Ok
                &&& self == before.after_activation()
            },
            Step::Failed(failure) => {
                &&& self == before
                &&& before.activation_result() == Err::<(), Failure>(failure)
            },
        }
    }

    /// An attached console in the given mode that refuses nothing.
    pub fn new(mode: u32) -> (console: Console)
        ensures
            console == (Console { attached: true, readable: true, writable: true, mode }),
    {
        Console { attached: true, readable: true, writable: true, mode }
    }

    /// Asks for a handle to the device.
    pub fn open(&self) -> (event: Event)
        ensures
            event == self.open_report(),
    {
        if self.attached {
            Event::HandleOpened
        } else {
            Event::Refused
        }
    }

    /// Asks for the current mode.
    pub fn query(&self) -> (event: Event)
        ensures
            event == self.query_report(),
    {
        if self.attached && self.readable {
            Event::ModeRead(self.mode)
        } else {
            Event::Refused
        }
    }

    /// Asks the device to take `mode`. A refused write leaves the device as
    /// it was.
    pub fn update(&mut self, mode: u32) -> (event: Event)
        ensures
            event == old(self).update_report(),
            event is ModeWritten ==> *final(self) == (Console { mode, ..*old(self) }),
            event !is ModeWritten ==> *final(self) == *old(self),
    {
        if self.attached && self.writable {
            self.mode = mode;
            Event::ModeWritten
        } else {
            Event::Refused
        }
    }

    /// Runs the activation sequence against this console and reports how it
    /// ended, with the cause where it failed.
    pub fn activate(&mut self) -> (result: Result<(), Failure>)
        ensures
            result == old(self).activation_result(),
            *final(self) == old(self).after_activation(),
    {
        let mut step = Step::start();
        loop
            invariant
                self.reached(*old(self), step),
            decreases step.requests_left(),
        {
            let event = match step {
                Step::OpenConsole => self.open(),
                Step::QueryMode => self.query(),
                Step::UpdateMode(mode) => self.update(mode),
                Step::Done => {
                    return Ok(());
                },
                Step::Failed(failure) => {
                    return Err(failure);
                },
            };
            step = step.advance(event);
        }
    }

    /// Fallible initialisation of this console: success or the one opaque
    /// failure signal.
    ///
    /// It fails exactly when the console cannot be opened, read or written.
    /// On success the mode has the virtual-terminal flag set, the newline
    /// flag cleared and every other bit as before; on failure the console is
    /// as it was.
    pub fn try_init(&mut self) -> (outcome: Result<(), ()>)
        ensures
            outcome == collapsed(old(self).activation_result()),
            outcome is Ok <==> old(self).attached && old(self).readable && old(self).writable,
            *final(self) == old(self).after_activation(),
            outcome is Ok ==> final(self).mode == activated(old(self).mode),
            outcome is Ok ==> is_activated(final(self).mode),
            outcome is Ok ==> unrelated_bits(final(self).mode) == unrelated_bits(old(self).mode),
            outcome is Err ==> *final(self) == *old(self),
    {
        proof {
            lemma_activated_flags(self.mode);
        }
        collapse(self.activate())
    }

    /// Strict initialisation of this console, for callers that cannot go on
    /// without it: the console must be one whose activation succeeds.
    pub fn init(&mut self)
        requires
            old(self).activation_result() is Ok,
        ensures
            *final(self) == old(self).after_activation(),
            final(self).mode == activated(old(self).mode),
    {
        let outcome = self.try_init();
        assert(outcome is Ok);
    }
}

/// Activating twice in succession is activating once: the second activation
/// ends as the first did and leaves the console as the first left it.
pub proof fn lemma_activation_idempotent(console: Console)
    ensures
        console.after_activation().activation_result() == console.activation_result(),
        console.after_activation().after_activation() == console.after_activation(),
{
    lemma_activated_idempotent(console.mode);
}

/// After a successful activation the virtual-terminal flag is set and the
/// newline flag is cleared, whatever they were before, and nothing else about
/// the console has changed.
pub proof fn lemma_activation_sets_flags(console: Console)
    requires
        console.activation_result() is Ok,
    ensures
        has_flag(console.after_activation().mode, ENABLE_VIRTUAL_TERMINAL_PROCESSING),
        lacks_flag(console.after_activation().mode, DISABLE_NEWLINE_AUTO_RETURN),
        unrelated_bits(console.after_activation().mode) == unrelated_bits(console.mode),
        console.after_activation().attached == console.attached,
        console.after_activation().readable == console.readable,
        console.after_activation().writable == console.writable,
{
    lemma_activated_flags(console.mode);
}

/// Each refusal gives its own failure, and a failed activation leaves the
/// console untouched.
pub proof fn lemma_activation_failures(console: Console)
    ensures
        console.activation_result() == Err::<(), Failure>(Failure::Unavailable)
            <==> !console.attached,
        console.activation_result() == Err::<(), Failure>(Failure::QueryFailed)
            <==> console.attached && !console.readable,
        console.activation_result() == Err::<(), Failure>(Failure::UpdateFailed)
            <==> console.attached && console.readable && !console.writable,
        console.activation_result() is Err ==> console.after_activation() == console,
{
}

} // verus!
