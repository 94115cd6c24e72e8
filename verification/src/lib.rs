//! Take the value out of a `Result<T, E>` or an `Option<T>` without asking
//! anything of the error type.
//!
//! `Result::unwrap` formats the error it finds and therefore wants
//! `E: Debug`. The operation here never looks at the error. A carrier either
//! holds a value, which is handed back, or it holds none, and then the call
//! ends the thread that made it: there is nothing to recover.
//!
//! Verified code calls [`UnwrapOrPanic::unwrap_or_panic`] and shows that the
//! value is there. Code that cannot show it calls
//! [`UnwrapOrPanic::unwrap_or_report`], which decides between the value and
//! the end of the call and, for the latter, words the message; ending the
//! thread is then the caller's single step.

use vstd::prelude::*;

pub mod decimal;
pub mod termination;

pub use crate::termination::{termination_message, CallSite, Reporting};

use crate::termination::{message_text, message_view};

verus! {

/// How a call on a carrier comes out.
///
/// `Terminated` is no error to recover from. It tells the caller to end the
/// thread, which is the one thing left to do.
#[must_use]
#[derive(Debug, PartialEq, Eq)]
pub enum Outcome<T> {
    /// The carrier held this value, and the call returns it.
    Returned(T),
    /// The carrier held no value. The call ends the thread, with this
    /// message if there is one.
    Terminated(Option<String>),
}

/// A carrier that may hold one value of type `T`.
pub trait UnwrapOrPanic<T>: Sized {
    /// What the carrier holds, with everything but the value forgotten.
    spec fn carried(&self) -> Option<T>;

    /// Return the contained value.
    ///
    /// The carrier is consumed. A carrier without a value is excluded: every
    /// verified caller shows that there is one. Compiled code that makes the
    /// call on a carrier without a value all the same is stopped by a panic.
    fn unwrap_or_panic(self) -> (value: T)
        requires
            self.carried() is Some,
        ensures
            self.carried() == Some(value),
    ;

    /// Decide how a call made at `site` comes out, for any carrier.
    ///
    /// The carrier is consumed. Where it holds a value the call returns it;
    /// where it holds none the call is to end, with the message that
    /// `reporting` asks for. What a failure carried is dropped unread.
    fn unwrap_or_report(self, reporting: Reporting, site: &CallSite) -> (outcome: Outcome<T>)
        ensures
            match outcome {
                Outcome::Returned(value) => self.carried() == Some(value),
                Outcome::Terminated(message) => self.carried() is None && message_view(message)
                    == message_text(reporting, *site),
            },
    ;
}

impl<T, E> UnwrapOrPanic<T> for Result<T, E> {
    open spec fn carried(&self) -> Option<T> {
        match *self {
            Ok(value) => Some(value),
            Err(_) => None,
        }
    }

    fn unwrap_or_panic(self) -> (value: T)
        ensures
            self is Ok,
            self->Ok_0 == value,
    {
        match self {
            Ok(value) => value,
            Err(_) => unreached(),
        }
    }

    fn unwrap_or_report(self, reporting: Reporting, site: &CallSite) -> (outcome: Outcome<T>)
        ensures
            match self {
                Ok(value) => outcome == Outcome::Returned(value),
                Err(_) => outcome matches Outcome::Terminated(message) && message_view(message)
                    == message_text(reporting, *site),
            },
    {
        match self {
            Ok(value) => Outcome::Returned(value),
            Err(_) => Outcome::Terminated(termination_message(reporting, site)),
        }
    }
}

impl<T> UnwrapOrPanic<T> for Option<T> {
    open spec fn carried(&self) -> Option<T> {
        *self
    }

    fn unwrap_or_panic(self) -> (value: T)
        ensures
            self == Some(value),
    {
        match self {
            Some(value) => value,
            None => unreached(),
        }
    }

    fn unwrap_or_report(self, reporting: Reporting, site: &CallSite) -> (outcome: Outcome<T>)
        ensures
            match self {
                Some(value) => outcome == Outcome::Returned(value),
                None => outcome matches Outcome::Terminated(message) && message_view(message)
                    == message_text(reporting, *site),
            },
    {
        match self {
            Some(value) => Outcome::Returned(value),
            None => Outcome::Terminated(termination_message(reporting, site)),
        }
    }
}

/// Which carriers hold a value: a success and a present value hold theirs,
/// a failure holds none whatever it carries, and an absent value holds none.
/// So a success and a present value can always be unwrapped, and nothing
/// else can.
pub proof fn lemma_carried_values<T, E>(value: T, payload: E)
    ensures
        Ok::<T, E>(value).carried() == Some(value),
        Some(value).carried() == Some(value),
        Err::<T, E>(payload).carried() == None::<T>,
        None::<T>.carried() == None::<T>,
{
}

} // verus!
