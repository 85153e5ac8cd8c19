//! What can go wrong with a worker.

use vstd::prelude::*;

verus! {

/// An I/O error of the operating system, as `std` reports it. The library
/// only carries such a value to the caller.
#[verifier::external_type_specification]
#[verifier::external_body]
pub struct ExIoError(std::io::Error);

/// An error of an HTTP exchange, as `hyper` reports it. The library only
/// carries such a value to the caller.
#[verifier::external_type_specification]
#[verifier::external_body]
pub struct ExHyperError(hyper::Error);

/// An error in the parts of an HTTP request, as `hyper::http` reports it. The
/// library only carries such a value to the caller.
#[verifier::external_type_specification]
#[verifier::external_body]
pub struct ExHttpError(hyper::http::Error);

/// An error of the HTTP client, as `hyper_util` reports it. The library only
/// carries such a value to the caller.
#[verifier::external_type_specification]
#[verifier::external_body]
pub struct ExClientError(hyper_util::client::legacy::Error);

/// The reason why `serde_json` did not take a text for JSON. The library
/// only carries such a value to the caller.
#[verifier::external_type_specification]
#[verifier::external_body]
pub struct ExJsonError(serde_json::Error);

/// What can go wrong with a worker.
#[derive(Debug)]
pub enum DenoWorkerError {
    /// The runtime ended when nobody had asked it to.
    EarlyExit { message: String, stderr: String, stdout: String, code: Option<i32>, signal: String },
    /// The runtime could not be started, or another I/O operation failed.
    Io(std::io::Error),
    /// The exchange with the runtime failed.
    Http(hyper::Error),
    /// The parts of a request did not make a request.
    HttpRequest(hyper::http::Error),
    /// The request could not be sent, or no response came back.
    HttpClient(hyper_util::client::legacy::Error),
    /// The runtime did not bind its socket in time.
    SocketTimeout,
    /// The body of a response was no JSON.
    ParseResponse(serde_json::Error),
}

impl From<std::io::Error> for DenoWorkerError {
    fn from(error: std::io::Error) -> (out: DenoWorkerError) {
        DenoWorkerError::Io(error)
    }
}

impl vstd::std_specs::convert::FromSpecImpl<std::io::Error> for DenoWorkerError {
    open spec fn obeys_from_spec() -> bool {
        true
    }

    open spec fn from_spec(error: std::io::Error) -> DenoWorkerError {
        DenoWorkerError::Io(error)
    }
}

impl From<hyper::Error> for DenoWorkerError {
    fn from(error: hyper::Error) -> (out: DenoWorkerError) {
        DenoWorkerError::Http(error)
    }
}

impl vstd::std_specs::convert::FromSpecImpl<hyper::Error> for DenoWorkerError {
    open spec fn obeys_from_spec() -> bool {
        true
    }

    open spec fn from_spec(error: hyper::Error) -> DenoWorkerError {
        DenoWorkerError::Http(error)
    }
}

impl From<hyper::http::Error> for DenoWorkerError {
    fn from(error: hyper::http::Error) -> (out: DenoWorkerError) {
        DenoWorkerError::HttpRequest(error)
    }
}

impl vstd::std_specs::convert::FromSpecImpl<hyper::http::Error> for DenoWorkerError {
    open spec fn obeys_from_spec() -> bool {
        true
    }

    open spec fn from_spec(error: hyper::http::Error) -> DenoWorkerError {
        DenoWorkerError::HttpRequest(error)
    }
}

impl From<hyper_util::client::legacy::Error> for DenoWorkerError {
    fn from(error: hyper_util::client::legacy::Error) -> (out: DenoWorkerError) {
        DenoWorkerError::HttpClient(error)
    }
}

impl vstd::std_specs::convert::FromSpecImpl<hyper_util::client::legacy::Error> for DenoWorkerError {
    open spec fn obeys_from_spec() -> bool {
        true
    }

    open spec fn from_spec(error: hyper_util::client::legacy::Error) -> DenoWorkerError {
        DenoWorkerError::HttpClient(error)
    }
}

impl From<serde_json::Error> for DenoWorkerError {
    fn from(error: serde_json::Error) -> (out: DenoWorkerError) {
        DenoWorkerError::ParseResponse(error)
    }
}

impl vstd::std_specs::convert::FromSpecImpl<serde_json::Error> for DenoWorkerError {
    open spec fn obeys_from_spec() -> bool {
        true
    }

    open spec fn from_spec(error: serde_json::Error) -> DenoWorkerError {
        DenoWorkerError::ParseResponse(error)
    }
}

} // verus!
