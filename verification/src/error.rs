//! Error taxonomy of the library, and the HTTP-facing error payload.

use vstd::prelude::*;

use std::collections::HashMap;

verus! {

/// What can go wrong in the framing, codec, write and verify paths.
#[derive(Debug, Clone, Copy, PartialEq, Eq, Structural)]
pub enum TrailError {
    /// A malformed or incomplete request.
    BadRequest,
    /// The caller's authorization context is absent or unusable.
    Unauthorized,
    /// A frame whose schema identifier is outside the fixed set.
    UnknownSchema,
    /// A corrupt payload: bad framing, field count, UTF-8 or embedded JSON.
    DecodeError,
    /// The signer refused to produce a signature.
    Signing,
}

impl TrailError {
    /// The HTTP status this error surfaces as.
    pub fn status(&self) -> (r: u16)
        ensures
            r == match *self {
                TrailError::BadRequest => 400u16,
                TrailError::Unauthorized => 401u16,
                _ => 500u16,
            },
    {
        match *self {
            TrailError::BadRequest => 400,
            TrailError::Unauthorized => 401,
            TrailError::UnknownSchema => 500,
            TrailError::DecodeError => 500,
            TrailError::Signing => 500,
        }
    }
}

/// The canonical reason phrase for the statuses this service emits.
pub open spec fn spec_status_message(status: u16) -> Seq<char> {
    if status == 400 {
        "Bad Request"@
    } else if status == 401 {
        "Unauthorized"@
    } else if status == 404 {
        "Not Found"@
    } else if status == 500 {
        "Internal Server Error"@
    } else {
        ""@
    }
}

/// The JSON error body returned to HTTP callers.
#[derive(Debug)]
pub struct ErrorResponse {
    status: u16,
    message: String,
    id: Option<String>,
    detail: Option<String>,
    properties: Option<HashMap<String, String>>,
}

impl ErrorResponse {
    pub closed spec fn spec_status(self) -> u16 {
        self.status
    }

    pub closed spec fn spec_message(self) -> Seq<char> {
        self.message@
    }

    pub closed spec fn spec_id(self) -> Option<String> {
        self.id
    }

    pub closed spec fn spec_detail(self) -> Option<String> {
        self.detail
    }

    pub closed spec fn spec_properties(self) -> Option<HashMap<String, String>> {
        self.properties
    }

    pub fn new(status: u16) -> (r: Self)
        ensures
            r.spec_status() == status,
            r.spec_message() == spec_status_message(status),
            r.spec_id() is None,
            r.spec_detail() is None,
            r.spec_properties() is None,
    {
        let message = if status == 400 {
            "Bad Request".to_owned()
        } else if status == 401 {
            "Unauthorized".to_owned()
        } else if status == 404 {
            "Not Found".to_owned()
        } else if status == 500 {
            "Internal Server Error".to_owned()
        } else {
            "".to_owned()
        };
        ErrorResponse { status, message, id: None, detail: None, properties: None }
    }

    pub fn with_id(self, id: &str) -> (r: Self)
        ensures
            r.spec_status() == self.spec_status(),
            r.spec_message() == self.spec_message(),
            r.spec_id() matches Some(s) && s@ == id@,
            r.spec_detail() == self.spec_detail(),
            r.spec_properties() == self.spec_properties(),
    {
        ErrorResponse { id: Some(id.to_owned()), ..self }
    }

    pub fn with_detail(self, detail: &str) -> (r: Self)
        ensures
            r.spec_status() == self.spec_status(),
            r.spec_message() == self.spec_message(),
            r.spec_id() == self.spec_id(),
            r.spec_detail() matches Some(s) && s@ == detail@,
            r.spec_properties() == self.spec_properties(),
    {
        ErrorResponse { detail: Some(detail.to_owned()), ..self }
    }

    pub fn with_properties(self, properties: HashMap<String, String>) -> (r: Self)
        ensures
            r.spec_status() == self.spec_status(),
            r.spec_message() == self.spec_message(),
            r.spec_id() == self.spec_id(),
            r.spec_detail() == self.spec_detail(),
            r.spec_properties() == Some(properties),
    {
        ErrorResponse { properties: Some(properties), ..self }
    }

    pub fn status(&self) -> (r: u16)
        ensures
            r == self.spec_status(),
    {
        self.status
    }

    pub fn message(&self) -> (r: &str)
        ensures
            r@ == self.spec_message(),
    {
        self.message.as_str()
    }

    pub fn id(&self) -> (r: &Option<String>)
        ensures
            *r == self.spec_id(),
    {
        &self.id
    }

    pub fn detail(&self) -> (r: &Option<String>)
        ensures
            *r == self.spec_detail(),
    {
        &self.detail
    }

    pub fn properties(&self) -> (r: &Option<HashMap<String, String>>)
        ensures
            *r == self.spec_properties(),
    {
        &self.properties
    }
}

} // verus!
