//! What a failed request reports, and how it is classed.

use crate::text::contains;
use crate::text::occurs_in;
use vstd::prelude::*;

verus! {

/// The text by which the store marks a conflict among concurrent writers.
pub const CONTENTION_MARKER: &'static str = "Resource busy:";

/// A failure that came back for one request.
#[derive(Debug, Clone)]
pub enum StoreError {
    /// The store refused a statement as a query error, with this message.
    Query(String),
    /// A statement failed in any other way.
    Protocol(String),
    /// The request never reached the store or its answer never came back.
    Connection(String),
}

/// The three classes of failure.
#[derive(Debug, Clone, Copy, PartialEq, Eq, Structural)]
pub enum ErrorClass {
    /// A conflict among concurrent writers: transient, worth another attempt.
    Contention,
    /// A statement failed for good.
    Query,
    /// The transport failed.
    Connection,
}

impl StoreError {
    /// The text that the failure carries.
    pub open spec fn detail(&self) -> Seq<char> {
        match self {
            StoreError::Query(d) => d@,
            StoreError::Protocol(d) => d@,
            StoreError::Connection(d) => d@,
        }
    }

    /// The class of the failure. Only a query error whose message holds the
    /// contention marker is contention.
    pub open spec fn class(&self) -> ErrorClass {
        match self {
            StoreError::Query(d) => if occurs_in(d@, CONTENTION_MARKER@) {
                ErrorClass::Contention
            } else {
                ErrorClass::Query
            },
            StoreError::Protocol(_) => ErrorClass::Query,
            StoreError::Connection(_) => ErrorClass::Connection,
        }
    }

    /// Classes the failure.
    pub fn classify(&self) -> (c: ErrorClass)
        ensures
            c == self.class(),
    {
        match self {
            StoreError::Query(d) => {
                if contains(d.as_str(), CONTENTION_MARKER) {
                    ErrorClass::Contention
                } else {
                    ErrorClass::Query
                }
            },
            StoreError::Protocol(_) => ErrorClass::Query,
            StoreError::Connection(_) => ErrorClass::Connection,
        }
    }

    /// The text that the failure carries.
    pub fn message(&self) -> (text: &str)
        ensures
            text@ == self.detail(),
    {
        match self {
            StoreError::Query(d) => d.as_str(),
            StoreError::Protocol(d) => d.as_str(),
            StoreError::Connection(d) => d.as_str(),
        }
    }
}

} // verus!
