//! The activation sequence as a state machine.
//!
//! Activation alternates between asking the console device for something and
//! deciding what the answer means. The asking belongs to whoever owns the
//! device; the deciding is here. A driver starts at [`Step::start`], performs
//! the request that the current step names, reports what the device said with
//! [`Step::advance`], and stops once [`Step::outcome`] has a value.

use vstd::prelude::*;
use crate::mode::activated;
use crate::mode::activate_mode;

verus! {

/// Why an activation did not go through.
#[derive(Clone, Copy, Debug, PartialEq, Eq)]
pub enum Failure {
    /// No handle to the console output device could be had, as when the
    /// process has no console attached.
    Unavailable,
    /// The handle was valid but the current mode could not be read.
    QueryFailed,
    /// The mode was read but the new mode could not be written.
    UpdateFailed,
}

/// What the device reported on the request that was last made of it.
#[derive(Clone, Copy, Debug, PartialEq, Eq)]
pub enum Event {
    /// A valid handle to the console output device was obtained.
    HandleOpened,
    /// The current mode was read, and this is it.
    ModeRead(u32),
    /// The new mode was written.
    ModeWritten,
    /// The request failed.
    Refused,
}

/// Where the sequence stands, which is also what the driver is to do next.
#[derive(Clone, Copy, Debug, PartialEq, Eq)]
pub enum Step {
    /// Open a handle to the active console output device. The device is
    /// addressed by its own name, not through the standard streams, so that
    /// redirecting those does not matter.
    OpenConsole,
    /// Read the current mode through the handle.
    QueryMode,
    /// Write this mode through the handle.
    UpdateMode(u32),
    /// All three requests succeeded; nothing is left to do.
    Done,
    /// A request failed; nothing more is asked of the device.
    Failed(Failure),
}

impl Step {
    /// The step that follows `self` once the device has reported `event`.
    ///
    /// Each request has one report that counts as its success; any other
    /// report fails the sequence with that request's failure. A finished
    /// sequence stays as it is.
    pub open spec fn after(self, event: Event) -> Step {
        match self {
            Step::OpenConsole => match event {
                Event::HandleOpened => Step::QueryMode,
                _ => Step::Failed(Failure::Unavailable),
            },
            Step::QueryMode => match event {
                Event::ModeRead(mode) => Step::UpdateMode(activated(mode)),
                _ => Step::Failed(Failure::QueryFailed),
            },
            Step::UpdateMode(_) => match event {
                Event::ModeWritten => Step::Done,
                _ => Step::Failed(Failure::UpdateFailed),
            },
            Step::Done => Step::Done,
            Step::Failed(failure) => Step::Failed(failure),
        }
    }

    /// The sequence has ended, one way or the other.
    pub open spec fn finished(self) -> bool {
        self is Done || self is Failed
    }

    /// How the sequence ended, if it has.
    pub open spec fn result(self) -> Option<Result<(), Failure>> {
        match self {
            Step::Done => Some(Ok(())),
            Step::Failed(failure) => Some(Err(failure)),
            _ => None,
        }
    }

    /// How many requests can still be made from here, at most.
    pub open spec fn requests_left(self) -> nat {
        match self {
            Step::OpenConsole => 3,
            Step::QueryMode => 2,
            Step::UpdateMode(_) => 1,
            _ => 0,
        }
    }

    /// Every sequence starts by opening the console.
    pub fn start() -> (step: Step)
        ensures
            step == Step::OpenConsole,
    {
        Step::OpenConsole
    }

    /// Takes the device's report on the request that `self` named and says
    /// what to do next.
    pub fn advance(self, event: Event) -> (next: Step)
        ensures
            next == self.after(event),
            self.finished() ==> next == self,
            !self.finished() ==> next.requests_left() < self.requests_left(),
    {
        match self {
            Step::OpenConsole => match event {
                Event::HandleOpened => Step::QueryMode,
                _ => Step::Failed(Failure::Unavailable),
            },
            Step::QueryMode => match event {
                Event::ModeRead(mode) => Step::UpdateMode(activate_mode(mode)),
                _ => Step::Failed(Failure::QueryFailed),
            },
            Step::UpdateMode(_) => match event {
                Event::ModeWritten => Step::Done,
                _ => Step::Failed(Failure::UpdateFailed),
            },
            Step::Done => Step::Done,
            Step::Failed(failure) => Step::Failed(failure),
        }
    }

    /// The result of the sequence once it has ended, `None` while a request
    /// is still to be made.
    pub fn outcome(&self) -> (outcome: Option<Result<(), Failure>>)
        ensures
            outcome == self.result(),
            outcome is Some <==> self.finished(),
    {
        match self {
            Step::Done => Some(Ok(())),
            Step::Failed(failure) => Some(Err(*failure)),
            _ => None,
        }
    }
}

/// What a caller of the public entry points gets to see of a result: success
/// or failure, without the cause.
pub open spec fn collapsed(result: Result<(), Failure>) -> Result<(), ()> {
    match result {
        Ok(_) => Ok(()),
        Err(_) => Err(()),
    }
}

/// Reduces a result to the single opaque failure signal of the public
/// contract.
pub fn collapse(result: Result<(), Failure>) -> (signal: Result<(), ()>)
    ensures
        signal == collapsed(result),
        signal is Ok <==> result is Ok,
{
    match result {
        Ok(_) => Ok(()),
        Err(_) => Err(()),
    }
}

/// A sequence ends within three reports, whatever they are; it succeeds
/// exactly when they are, in this order, an opened handle, a mode and a
/// completed write; and then the mode it asked to have written was the
/// activated form of the mode it was given.
pub proof fn lemma_three_reports_decide(first: Event, second: Event, third: Event)
    ensures
        Step::OpenConsole.after(first).after(second).after(third).finished(),
        Step::OpenConsole.after(first).after(second).after(third) is Done <==> first
            is HandleOpened && second is ModeRead && third is ModeWritten,
        first is HandleOpened && second is ModeRead ==> Step::OpenConsole.after(first).after(
            second,
        ) == Step::UpdateMode(activated(second->ModeRead_0)),
{
}

/// The first request that is refused decides the failure, and what is
/// reported afterwards does not change it.
pub proof fn lemma_first_refusal_decides(first: Event, second: Event, third: Event)
    ensures
        first !is HandleOpened ==> Step::OpenConsole.after(first).after(second).after(third)
            == Step::Failed(Failure::Unavailable),
        first is HandleOpened && second !is ModeRead ==> Step::OpenConsole.after(first).after(
            second,
        ).after(third) == Step::Failed(Failure::QueryFailed),
        first is HandleOpened && second is ModeRead && third !is ModeWritten
            ==> Step::OpenConsole.after(first).after(second).after(third) == Step::Failed(
            Failure::UpdateFailed,
        ),
{
}

} // verus!
