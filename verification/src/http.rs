//! Requests and responses as plain values, and the ways an exchange can fail
//! before a provider's answer can be judged.

use vstd::prelude::*;

verus! {

/// The status of an answer that holds what was asked for.
pub const OK: u16 = 200;

/// The status of an answer that complied and holds nothing.
pub const NO_CONTENT: u16 = 204;

/// The status of an answer that knows nothing of what was asked for.
pub const NOT_FOUND: u16 = 404;

/// The status of an answer that asks to wait before asking again.
pub const TOO_MANY_REQUESTS: u16 = 429;

/// The request methods that the providers are addressed with.
#[derive(Debug, Clone, Copy, PartialEq, Eq)]
pub enum Method {
    Get,
    Delete,
}

/// One header line of a request.
#[derive(Debug, Clone, PartialEq, Eq)]
pub struct Header {
    pub name: String,
    pub value: String,
}

/// The model of a [`Header`].
pub ghost struct HeaderView {
    pub name: Seq<char>,
    pub value: Seq<char>,
}

impl View for Header {
    type V = HeaderView;

    open spec fn view(&self) -> HeaderView {
        HeaderView { name: self.name@, value: self.value@ }
    }
}

impl Header {
    pub fn new(name: &str, value: &str) -> (h: Header)
        ensures
            h@ == (HeaderView { name: name@, value: value@ }),
    {
        Header { name: String::from_str(name), value: String::from_str(value) }
    }
}

/// A request that is ready to be sent: where it goes and what accompanies it.
#[derive(Debug, Clone, PartialEq, Eq)]
pub struct Request {
    pub method: Method,
    pub url: String,
    pub headers: Vec<Header>,
}

/// The model of a [`Request`].
pub ghost struct RequestView {
    pub method: Method,
    pub url: Seq<char>,
    pub headers: Seq<HeaderView>,
}

impl View for Request {
    type V = RequestView;

    open spec fn view(&self) -> RequestView {
        RequestView {
            method: self.method,
            url: self.url@,
            headers: self.headers@.map_values(|h: Header| h@),
        }
    }
}

/// What the library reads of a provider's answer: the status, and the raw
/// value of the `retry-after` header where the answer has one.
#[derive(Debug, Clone, PartialEq, Eq)]
pub struct Response {
    pub status: u16,
    pub retry_after: Option<Vec<u8>>,
}

/// The model of a [`Response`].
pub ghost struct ResponseView {
    pub status: u16,
    pub retry_after: Option<Seq<u8>>,
}

impl View for Response {
    type V = ResponseView;

    open spec fn view(&self) -> ResponseView {
        ResponseView {
            status: self.status,
            retry_after: match self.retry_after {
                Some(v) => Some(v@),
                None => None,
            },
        }
    }
}

/// An exchange that yielded no usable answer.
#[derive(Debug, Clone, PartialEq, Eq)]
pub enum TransportError {
    /// No response was obtained; the text is the transport's own account.
    Request(String),
    /// A response came, but its body did not have the expected shape.
    Decode(String),
    /// A rate-limited response whose wait is not a number of seconds; the
    /// bytes are the header's value.
    RetryAfter(Vec<u8>),
}

/// The model of a [`TransportError`].
pub ghost enum TransportErrorView {
    Request(Seq<char>),
    Decode(Seq<char>),
    RetryAfter(Seq<u8>),
}

impl View for TransportError {
    type V = TransportErrorView;

    open spec fn view(&self) -> TransportErrorView {
        match *self {
            TransportError::Request(m) => TransportErrorView::Request(m@),
            TransportError::Decode(m) => TransportErrorView::Decode(m@),
            TransportError::RetryAfter(v) => TransportErrorView::RetryAfter(v@),
        }
    }
}

impl TransportError {
    /// Whether no response was obtained at all.
    pub fn is_request(&self) -> (b: bool)
        ensures
            b == (self@ is Request),
    {
        match self {
            TransportError::Request(_) => true,
            _ => false,
        }
    }

    /// Whether a response came whose content could not be read.
    pub fn is_decode(&self) -> (b: bool)
        ensures
            b == (self@ is Decode || self@ is RetryAfter),
    {
        match self {
            TransportError::Request(_) => false,
            _ => true,
        }
    }
}

} // verus!
