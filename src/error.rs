//! Errors reported by the library.

use vstd::prelude::*;

verus! {

/// The kinds of failure that the library reports.
#[derive(Clone, Copy, Debug, PartialEq, Eq, Structural)]
pub enum ErrorKind {
    /// The transport could not perform the request, or the server answered
    /// with a failure status that is not interpreted further.
    TransportError,
    /// The response was well-formed but lacked a required part.
    InvalidResponse,
    /// No endpoint could be found for a service.
    EndpointNotFound,
    /// No resource matched where one was required.
    ResourceNotFound,
    /// More than one resource matched where exactly one was required.
    TooManyItems,
}

/// An error: its kind and a human-readable detail.
#[derive(Clone, Debug)]
pub struct Error {
    pub kind: ErrorKind,
    pub detail: String,
}

impl Error {
    /// Create an error of the given kind.
    pub fn new(kind: ErrorKind, detail: String) -> (r: Error)
        ensures
            r.kind == kind,
            r.detail == detail,
    {
        Error { kind, detail }
    }

    /// The kind of this error.
    pub fn kind(&self) -> (r: ErrorKind)
        ensures
            r == self.kind,
    {
        self.kind
    }

    /// The error reported when no endpoint serves `service_type`; the detail
    /// is the service type.
    pub fn new_endpoint_not_found(service_type: String) -> (r: Error)
        ensures
            r == endpoint_not_found(service_type),
    {
        Error { kind: ErrorKind::EndpointNotFound, detail: service_type }
    }
}

/// What an HTTP status means: no error for a success (2xx), a missing
/// resource for 404, and a transport failure otherwise.
pub open spec fn status_kind(status: u16) -> Option<ErrorKind> {
    if 200 <= status && status < 300 {
        None
    } else if status == 404 {
        Some(ErrorKind::ResourceNotFound)
    } else {
        Some(ErrorKind::TransportError)
    }
}

/// Classify an HTTP status.
pub fn status_error(status: u16) -> (r: Option<ErrorKind>)
    ensures
        r == status_kind(status),
{
    if 200 <= status && status < 300 {
        None
    } else if status == 404 {
        Some(ErrorKind::ResourceNotFound)
    } else {
        Some(ErrorKind::TransportError)
    }
}

/// The error that names a service for which no endpoint was found.
pub open spec fn endpoint_not_found(service_type: String) -> Error {
    Error { kind: ErrorKind::EndpointNotFound, detail: service_type }
}

} // verus!
