//! The boundary at which a fault of a domain becomes an error value.
//!
//! Every operation that a domain offers runs inside a region that catches
//! faults. The region reports how the operation ended as an `Outcome`; what
//! the caller gets to see for it is decided here.

use vstd::prelude::*;
use crate::error::{AlienError, AlienResult};

verus! {

/// How an operation of a wrapped domain ended.
pub enum Outcome<T> {
    /// It came back with an answer of its own.
    Returned(AlienResult<T>),
    /// It did not come back: it faulted, or a domain that it called did and
    /// the fault went through it.
    Faulted,
}

impl<T> Outcome<T> {
    /// What the caller of the wrapped domain gets: the operation's own
    /// answer, or the crash signal in place of a fault.
    pub open spec fn answer(self) -> AlienResult<T> {
        match self {
            Outcome::Returned(result) => result,
            Outcome::Faulted => Err(AlienError::DomainCrash),
        }
    }

    /// Whether the operation faulted.
    pub fn is_fault(&self) -> (fault: bool)
        ensures
            fault == (*self is Faulted),
    {
        match self {
            Outcome::Faulted => true,
            Outcome::Returned(_) => false,
        }
    }

    /// Turns the outcome into what the caller gets. An answer passes
    /// unchanged, success or error; a fault becomes the crash signal. Nothing
    /// is remembered of a fault: the next call starts anew.
    pub fn into_result(self) -> (result: AlienResult<T>)
        ensures
            result == self.answer(),
    {
        match self {
            Outcome::Returned(result) => result,
            Outcome::Faulted => Err(AlienError::DomainCrash),
        }
    }
}

/// A domain behind the boundary. The boundary keeps nothing but the domain:
/// a fault is reported for the call in which it happened and leaves no mark,
/// so the domain can be called again afterwards.
pub struct UnwindWrap<D> {
    domain: D,
}

impl<D> UnwindWrap<D> {
    /// The wrapped domain.
    pub closed spec fn view(&self) -> D {
        self.domain
    }

    /// Puts `domain` behind the boundary.
    pub fn new(domain: D) -> (wrap: Self)
        ensures
            wrap@ == domain,
    {
        UnwindWrap { domain }
    }

    /// The wrapped domain, to call an operation that only reads it.
    pub fn domain(&self) -> (domain: &D)
        ensures
            *domain == self@,
    {
        &self.domain
    }

    /// The wrapped domain, to call an operation that changes it.
    pub fn domain_mut(&mut self) -> (domain: &mut D)
        ensures
            *domain == old(self)@,
            final(self)@ == *final(domain),
    {
        &mut self.domain
    }

    /// What the caller gets for an operation of the wrapped domain that
    /// ended as `outcome`.
    pub fn conclude<T>(&self, outcome: Outcome<T>) -> (result: AlienResult<T>)
        ensures
            result == outcome.answer(),
    {
        outcome.into_result()
    }
}

} // verus!
