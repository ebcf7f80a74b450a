//! API keys: their text form, and which of them are accepted.

use vstd::prelude::*;

verus! {

/// base64's reason for refusing a text, carried through unread.
#[verifier::external_type_specification]
#[verifier::external_body]
pub struct ExDecodeError(base64::DecodeError);

/// The standard base64 text of `bytes`, as `base64::encode` gives it.
pub uninterp spec fn encoded(bytes: Seq<u8>) -> Seq<char>;

/// The bytes that `base64::decode` reads from `text`; `None` where it refuses
/// the text.
pub uninterp spec fn decoded(text: Seq<char>) -> Option<Seq<u8>>;

/// `base64::encode`: the standard base64 text of the bytes. The contract only
/// names the result.
#[verifier::external_body]
fn encode(bytes: &Vec<u8>) -> (text: String)
    ensures
        text@ == encoded(bytes@),
{
    base64::encode(bytes.as_slice())
}

/// `base64::decode`: the bytes that the standard base64 text stands for, or
/// the reason why the text is refused. The contract names the bytes and says
/// that an error comes exactly where there are none.
#[verifier::external_body]
fn decode(text: &str) -> (bytes: Result<Vec<u8>, base64::DecodeError>)
    ensures
        match bytes {
            Ok(read) => decoded(text@) == Some(read@),
            Err(_) => decoded(text@) is None,
        },
{
    base64::decode(text)
}

/// The text that `base64::DecodeError` displays. Nothing is claimed of it.
#[verifier::external_body]
fn describe(error: &base64::DecodeError) -> (text: String) {
    error.to_string()
}

/// `rand::random::<u8>`: a byte from the thread's random number generator.
/// Nothing is claimed of it.
#[verifier::external_body]
fn random_byte() -> (byte: u8) {
    rand::random::<u8>()
}

/// The number of bytes of a fresh API key.
pub const API_KEY_LEN: usize = 16;

/// The request header that carries the API key.
pub const API_KEY_HEADER: &'static str = "x-api-key";

/// Why a request's API key was refused.
#[derive(Clone, Debug, PartialEq, Eq)]
pub enum ApiKeyError {
    /// No key was sent, or the key is not a known one.
    NotFound(String),
    /// The key is not base64 text.
    DecodeError(String),
}

impl ApiKeyError {
    /// The HTTP status that answers a request refused for this reason.
    pub fn status(&self) -> (code: u16)
        ensures
            code == (if self is NotFound {
                404u16
            } else {
                400u16
            }),
    {
        match self {
            ApiKeyError::NotFound(_) => 404,
            ApiKeyError::DecodeError(_) => 400,
        }
    }

    /// The reason in words.
    pub fn message(&self) -> (text: &'static str)
        ensures
            text@ == (if self is NotFound {
                "API key not found"@
            } else {
                "Invalid API key format"@
            }),
    {
        match self {
            ApiKeyError::NotFound(_) => "API key not found",
            ApiKeyError::DecodeError(_) => "Invalid API key format",
        }
    }
}

/// Why an API request failed.
#[derive(Clone, Debug, PartialEq, Eq)]
pub enum ApiError {
    NotFound(String),
    Server(String),
    User(String),
    KeyError(ApiKeyError),
}

impl ApiError {
    /// The HTTP status that answers a request that failed in this way.
    pub fn status(&self) -> (code: u16)
        ensures
            code == match self {
                ApiError::NotFound(_) => 404u16,
                ApiError::Server(_) => 500u16,
                ApiError::User(_) => 401u16,
                ApiError::KeyError(_) => 400u16,
            },
    {
        match self {
            ApiError::NotFound(_) => 404,
            ApiError::Server(_) => 500,
            ApiError::User(_) => 401,
            ApiError::KeyError(_) => 400,
        }
    }

    /// The failure in words.
    pub fn message(&self) -> (text: &'static str)
        ensures
            text@ == match self {
                ApiError::NotFound(_) => "not found"@,
                ApiError::Server(_) => "server error"@,
                ApiError::User(_) => "client error"@,
                ApiError::KeyError(_) => "key error"@,
            },
    {
        match self {
            ApiError::NotFound(_) => "not found",
            ApiError::Server(_) => "server error",
            ApiError::User(_) => "client error",
            ApiError::KeyError(_) => "key error",
        }
    }
}

/// An API key: the bytes that a client presents, as base64 text, with each
/// request.
#[derive(Clone, Debug, PartialEq, Eq)]
pub struct ApiKey(Vec<u8>);

impl View for ApiKey {
    type V = Seq<u8>;

    closed spec fn view(&self) -> Seq<u8> {
        self.0@
    }
}

impl ApiKey {
    /// The key made of the given bytes.
    pub fn from_bytes(bytes: Vec<u8>) -> (key: ApiKey)
        ensures
            key@ == bytes@,
    {
        ApiKey(bytes)
    }

    /// The key as base64 text.
    pub fn to_base64(&self) -> (text: String)
        ensures
            text@ == encoded(self@),
    {
        encode(&self.0)
    }

    /// The bytes of the key.
    pub fn into_inner(self) -> (bytes: Vec<u8>)
        ensures
            bytes@ == self@,
    {
        self.0
    }

    /// Reads a key from its base64 text. Text that is not base64 is refused
    /// with `ApiKeyError::DecodeError`.
    pub fn from_str(key: &str) -> (parsed: Result<ApiKey, ApiKeyError>)
        ensures
            match parsed {
                Ok(api_key) => decoded(key@) == Some(api_key@),
                Err(error) => decoded(key@) is None && error is DecodeError,
            },
    {
        match decode(key) {
            Ok(bytes) => Ok(ApiKey(bytes)),
            Err(error) => Err(ApiKeyError::DecodeError(describe(&error))),
        }
    }

    /// Reads the key of a request from the value of its key header. A request
    /// without the header is refused with `ApiKeyError::NotFound`, one whose
    /// header is not base64 text with `ApiKeyError::DecodeError`.
    pub fn from_header(header: Option<&str>) -> (parsed: Result<ApiKey, ApiKeyError>)
        ensures
            match parsed {
                Ok(api_key) => header is Some && decoded(header->0@) == Some(api_key@),
                Err(ApiKeyError::NotFound(text)) => header is None && text@
                    == "API key not found"@,
                Err(ApiKeyError::DecodeError(_)) => header is Some && decoded(header->0@) is None,
            },
    {
        match header {
            None => Err(ApiKeyError::NotFound("API key not found".to_owned())),
            Some(key) => ApiKey::from_str(key),
        }
    }

    /// Decides on a request whose key was read: `known` is what storage says
    /// of the key, `None` where storage failed. A known key is accepted, an
    /// unknown one refused as not found, and a failure of storage is a server
    /// error.
    pub fn accept(self, known: Option<bool>) -> (accepted: Result<ApiKey, ApiError>)
        ensures
            match accepted {
                Ok(api_key) => known == Some(true) && api_key@ == self@,
                Err(ApiError::KeyError(ApiKeyError::NotFound(text))) => known == Some(false)
                    && text@ == "API key not found"@,
                Err(ApiError::Server(text)) => known is None && text@ == "server error"@,
                Err(_) => false,
            },
    {
        match known {
            Some(true) => Ok(self),
            Some(false) => Err(
                ApiError::KeyError(ApiKeyError::NotFound("API key not found".to_owned())),
            ),
            None => Err(ApiError::Server("server error".to_owned())),
        }
    }
}

impl Default for ApiKey {
    /// A fresh key of `API_KEY_LEN` random bytes.
    fn default() -> (key: ApiKey)
        ensures
            key@.len() == API_KEY_LEN,
    {
        let mut bytes: Vec<u8> = Vec::new();
        while bytes.len() < API_KEY_LEN
            invariant
                bytes@.len() <= API_KEY_LEN,
            decreases API_KEY_LEN - bytes@.len(),
        {
            bytes.push(random_byte());
        }
        ApiKey(bytes)
    }
}

} // verus!
