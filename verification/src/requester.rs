//! Requests to a server, abstracted so that the connectors work the same on the board
//! (where requests go over BLE) and on a computer (where they go over HTTP).
use vstd::prelude::*;
use std::sync::mpsc::Sender;

verus! {

broadcast use vstd::string::group_string_axioms;

/// An error that can say what went wrong.
pub trait ErrorMessage {
    fn message(&self) -> String;
}

/// Sends requests and receives responses. Implemented by users of the library; nothing is
/// promised of an implementation.
pub trait Requester {
    type RequestError: ErrorMessage;

    /// Starts a stream from `url`; each line of it is sent to `tx`.
    fn stream(&self, tx: &mut Sender<String>, url: &str) -> Result<(), Self::RequestError>;

    /// Posts `body` to `url` and gives the response's body.
    fn post(&self, url: &str, body: &str) -> Result<String, Self::RequestError>;

    /// Gets `url` and gives the response's body.
    fn get(&self, url: &str) -> Result<String, Self::RequestError>;

    fn is_connected(&self) -> bool;
}

/// The error of the dummy requester.
#[derive(Debug)]
pub struct DummyError;

impl ErrorMessage for DummyError {
    fn message(&self) -> (r: String)
        ensures
            r@ == "Dummy error"@,
    {
        "Dummy error".to_string()
    }
}

/// A requester that does nothing: every request succeeds with an empty body.
#[derive(Debug)]
pub struct DummyRequester;

impl Requester for DummyRequester {
    type RequestError = DummyError;

    fn stream(&self, _tx: &mut Sender<String>, _url: &str) -> (r: Result<(), DummyError>)
        ensures
            r is Ok,
    {
        Ok(())
    }

    fn post(&self, _url: &str, _body: &str) -> (r: Result<String, DummyError>)
        ensures
            r matches Ok(s) && s@.len() == 0,
    {
        Ok(String::new())
    }

    fn get(&self, _url: &str) -> (r: Result<String, DummyError>)
        ensures
            r matches Ok(s) && s@.len() == 0,
    {
        Ok(String::new())
    }

    fn is_connected(&self) -> (r: bool)
        ensures
            r,
    {
        true
    }
}

} // verus!
