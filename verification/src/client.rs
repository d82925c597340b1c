//! The calls of the billing API and the records that they exchange.
//!
//! A call has two halves, and both are decided here: the request to send,
//! and what the reply to it means. Sending is left to the caller.

pub mod price_intervals;
pub mod prices;

use crate::error::Error;
use crate::json::texts;
use vstd::prelude::*;
use vstd::string::*;

verus! {

/// The HTTP methods that the billing API is called with.
#[derive(Debug, Clone, Copy, PartialEq, Eq, Structural, Hash)]
pub enum Method {
    Get,
    Post,
    Put,
    Delete,
}

/// A request to the billing API, ready to be sent.
#[derive(Debug, Clone, PartialEq, Eq)]
pub struct Request {
    /// The method of the request.
    pub method: Method,
    /// The segments of the path, from the root of the API on.
    pub path_segments: Vec<String>,
    /// The body: JSON text.
    pub body: String,
}

/// The path made of `segments`: each segment behind a slash.
pub open spec fn path_text(segments: Seq<Seq<char>>) -> Seq<char>
    decreases segments.len(),
{
    if segments.len() == 0 {
        Seq::empty()
    } else {
        path_text(segments.drop_last()) + seq!['/'] + segments.last()
    }
}

impl Request {
    /// The segments of the path as texts.
    pub open spec fn segments(&self) -> Seq<Seq<char>> {
        texts(self.path_segments@)
    }

    /// The path of the request: its segments, each behind a slash.
    pub fn path(&self) -> (r: String)
        ensures
            r@ == path_text(self.segments()),
    {
        let mut out = String::new();
        let mut i: usize = 0;
        while i < self.path_segments.len()
            invariant
                i <= self.path_segments.len(),
                out@ == path_text(self.segments().take(i as int)),
            decreases self.path_segments.len() - i,
        {
            proof {
                reveal_strlit("/");
                assert(self.segments().take(i + 1).drop_last() =~= self.segments().take(i as int));
            }
            out.append("/");
            out.append(self.path_segments[i].as_str());
            i += 1;
        }
        assert(self.segments().take(i as int) =~= self.segments());
        out
    }
}

/// What the service sent back for a request.
#[derive(Debug, Clone, PartialEq, Eq)]
pub struct Response {
    /// The HTTP status code.
    pub status: u16,
    /// The body, as text.
    pub body: String,
}

/// Whether `status` is one of the codes by which a service reports success.
pub open spec fn is_success(status: u16) -> bool {
    200 <= status <= 299
}

impl Response {
    /// Tells whether the service reported success.
    pub fn is_success(&self) -> (r: bool)
        ensures
            r == is_success(self.status),
    {
        200 <= self.status && self.status <= 299
    }
}

/// The billing API, as far as it can be decided without a connection: which
/// request a call sends, and what the reply to it means.
#[derive(Debug, Clone, Copy, PartialEq, Eq, Structural)]
pub struct Client {}

impl Client {
    /// Judges what came back for a request: the response of the service,
    /// or the reason for which none came.
    ///
    /// A response that reports success yields its body, which still is to
    /// be decoded. Any other response is an [`Error::Api`] with the status
    /// and the body as they came, and no response is an
    /// [`Error::Transport`]: neither is ever an [`Error::Decode`].
    pub fn receive(&self, reply: Result<Response, String>) -> (r: Result<String, Error>)
        ensures
            match reply {
                Ok(response) => if is_success(response.status) {
                    r == Ok::<String, Error>(response.body)
                } else {
                    r == Err::<String, Error>(
                        Error::Api { status: response.status, body: response.body },
                    )
                },
                Err(reason) => r == Err::<String, Error>(Error::Transport(reason)),
            },
    {
        match reply {
            Ok(response) => {
                if response.is_success() {
                    Ok(response.body)
                } else {
                    Err(Error::Api { status: response.status, body: response.body })
                }
            },
            Err(reason) => Err(Error::Transport(reason)),
        }
    }

    /// Judges the outcome of decoding the body of a successful response:
    /// the record that it holds, or an [`Error::Decode`] with the reason
    /// for which it holds none.
    pub fn decoded<T>(&self, parsed: Result<T, String>) -> (r: Result<T, Error>)
        ensures
            match parsed {
                Ok(record) => r == Ok::<T, Error>(record),
                Err(reason) => r == Err::<T, Error>(Error::Decode(reason)),
            },
    {
        match parsed {
            Ok(record) => Ok(record),
            Err(reason) => Err(Error::Decode(reason)),
        }
    }
}

} // verus!
