//! Failures as they are reported to a caller, and the wire response that
//! carries them.

use crate::upload::{record_views, Record, UploadedImage};
use vstd::prelude::*;

verus! {

/// A failure as the caller of the service sees it: a status code and,
/// for faults of the caller's own making, a message. Internal faults
/// carry no message, so that no detail of them can leave the service.
#[derive(Debug, Clone, PartialEq, Eq)]
pub struct ApiError {
    pub status: u16,
    pub message: Option<String>,
}

/// A failure as contracts speak of it: the status, and the message as a
/// sequence of characters.
pub struct Failure {
    pub status: u16,
    pub message: Option<Seq<char>>,
}

impl View for ApiError {
    type V = Failure;

    open spec fn view(&self) -> Failure {
        Failure {
            status: self.status,
            message: match self.message {
                None => None,
                Some(m) => Some(m@),
            },
        }
    }
}

/// What a response carries besides its status.
#[derive(Debug, Clone, PartialEq, Eq)]
pub enum ResponseBody {
    /// Nothing at all.
    Empty,
    /// A human-readable reason, sent as the member `message` of an object.
    Message(String),
    /// The stored variants, sent as an array of objects.
    Images(Vec<UploadedImage>),
}

/// A response reduced to what the rules of the service decide.
#[derive(Debug, Clone, PartialEq, Eq)]
pub struct WireResponse {
    pub status: u16,
    pub body: ResponseBody,
}

/// The content of a response as contracts speak of it.
pub enum Content {
    Empty,
    Message(Seq<char>),
    Images(Seq<Record>),
}

/// A response as contracts speak of it.
pub struct Reply {
    pub status: u16,
    pub content: Content,
}

impl View for WireResponse {
    type V = Reply;

    open spec fn view(&self) -> Reply {
        Reply {
            status: self.status,
            content: match self.body {
                ResponseBody::Empty => Content::Empty,
                ResponseBody::Message(m) => Content::Message(m@),
                ResponseBody::Images(v) => Content::Images(record_views(v@)),
            },
        }
    }
}

impl Failure {
    /// The response a failure is sent as: its status, and its message as
    /// the only content, or no content where it has none.
    pub open spec fn reply(self) -> Reply {
        Reply {
            status: self.status,
            content: match self.message {
                None => Content::Empty,
                Some(m) => Content::Message(m),
            },
        }
    }
}

impl ApiError {
    /// A failure that explains itself to the caller.
    pub fn new(status: u16, msg: String) -> (e: ApiError)
        ensures
            e.status == status,
            e.message == Some(msg),
            e@ == (Failure { status, message: Some(msg@) }),
    {
        ApiError { status, message: Some(msg) }
    }

    /// A failure that tells the caller nothing but its status.
    pub fn no_msg(status: u16) -> (e: ApiError)
        ensures
            e.status == status,
            e.message is None,
            e@ == (Failure { status, message: None }),
    {
        ApiError { status, message: None }
    }

    /// Builds the response for this failure.
    pub fn to_response(&self) -> (r: WireResponse)
        ensures
            r@ == self@.reply(),
    {
        let body = match &self.message {
            None => ResponseBody::Empty,
            Some(m) => ResponseBody::Message(m.clone()),
        };
        WireResponse { status: self.status, body }
    }
}

} // verus!
