//! Errors of accepting, validating and publishing SMS requests.
use vstd::prelude::*;

use crate::phone::PhoneParseError;

verus! {

/// Errors that can occur while accepting, validating, or publishing SMS jobs.
#[derive(Clone, Debug, PartialEq, Eq)]
pub enum ServiceError {
    /// ZeroMQ reported a failure; the payload is its error number.
    Zmq(i32),
    /// SNS refused or failed the publish; the payload describes why.
    Publish(String),
    /// The SNS request could not be built; the payload describes why.
    Build(String),
    /// The request is malformed; the payload says which part.
    InvalidMessage(String),
    /// The phone number is not a valid phone number.
    InvalidPhoneNumber(PhoneParseError),
}

/// The mathematical value of a `ServiceError`: its kind and payload.
pub enum ServiceErrorView {
    Zmq(i32),
    Publish(Seq<char>),
    Build(Seq<char>),
    InvalidMessage(Seq<char>),
    InvalidPhoneNumber(PhoneParseError),
}

impl View for ServiceError {
    type V = ServiceErrorView;

    open spec fn view(&self) -> ServiceErrorView {
        match self {
            ServiceError::Zmq(code) => ServiceErrorView::Zmq(*code),
            ServiceError::Publish(m) => ServiceErrorView::Publish(m@),
            ServiceError::Build(m) => ServiceErrorView::Build(m@),
            ServiceError::InvalidMessage(m) => ServiceErrorView::InvalidMessage(m@),
            ServiceError::InvalidPhoneNumber(k) => ServiceErrorView::InvalidPhoneNumber(*k),
        }
    }
}

} // verus!
