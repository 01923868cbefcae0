//! Errors of the RPC service, and the messages they display.
//!
//! The errors that other crates raise are carried by their messages, which
//! is all that the messages here read of them.
use vstd::prelude::*;

verus! {

/// A lowercase hexadecimal digit.
pub open spec fn hex_digit(v: u128) -> char {
    if v < 10 {
        (48 + v) as char
    } else {
        (87 + v) as char
    }
}

/// Digit `k` (from 0, most significant first) of the 32 hexadecimal digits
/// of a 128-bit value.
pub open spec fn uuid_digit(id: u128, k: int) -> char {
    hex_digit((id >> ((124 - 4 * k) as u128)) & 0xf)
}

/// Digits `from..to` of the 32 hexadecimal digits of a 128-bit value.
pub open spec fn uuid_digits(id: u128, from: int, to: int) -> Seq<char> {
    Seq::new((to - from) as nat, |i: int| uuid_digit(id, from + i))
}

/// The hyphenated lowercase form of the UUID whose big-endian value is `id`,
/// such as `67e55044-10b1-426f-9247-bb680e5fe0c8`.
pub open spec fn uuid_text(id: u128) -> Seq<char> {
    uuid_digits(id, 0, 8) + seq!['-'] + uuid_digits(id, 8, 12) + seq!['-'] + uuid_digits(
        id,
        12,
        16,
    ) + seq!['-'] + uuid_digits(id, 16, 20) + seq!['-'] + uuid_digits(id, 20, 32)
}

/// `uuid::Uuid::from_u128` then its `Display`: the UUID with this big-endian
/// value, written hyphenated in lowercase hexadecimal.
#[verifier::external_body]
fn uuid_to_string(id: u128) -> (text: String)
    ensures
        text@ == uuid_text(id),
{
    uuid::Uuid::from_u128(id).to_string()
}

/// Errors of the RPC service.
#[derive(Debug)]
pub enum RpcsrvError {
    /// An id of the named kind did not parse as a UUID; the message of the
    /// parse error.
    InvalidId(&'static str, String),
    /// No session has this id (the UUID's big-endian value).
    MissingSession(u128),
    PhysicalPlansNotSupported,
    /// The message of a protocol conversion error.
    ProtoConvError(String),
    /// The message of an execution error.
    ExecError(String),
    /// The message of a DataFusion error.
    Datafusion(String),
    /// The message of an Arrow error.
    Arrow(String),
    Internal(String),
}

/// The message that an error displays.
pub open spec fn error_message(e: RpcsrvError) -> Seq<char> {
    match e {
        RpcsrvError::InvalidId(kind, err) => "Invalid "@ + kind@ + " id: "@ + err@,
        RpcsrvError::MissingSession(id) => "Missing session for id "@ + uuid_text(id),
        RpcsrvError::PhysicalPlansNotSupported => "Executing physical plans is not currently supported"@,
        RpcsrvError::ProtoConvError(message) => message@,
        RpcsrvError::ExecError(message) => message@,
        RpcsrvError::Datafusion(message) => message@,
        RpcsrvError::Arrow(message) => message@,
        RpcsrvError::Internal(message) => message@,
    }
}

impl RpcsrvError {
    /// The message this error displays: errors of other crates show their
    /// own message unchanged.
    pub fn message(&self) -> (message: String)
        ensures
            message@ == error_message(*self),
    {
        match self {
            RpcsrvError::InvalidId(kind, err) => {
                let mut message = String::new();
                message.append("Invalid ");
                message.append(kind);
                message.append(" id: ");
                message.append(err.as_str());
                message
            },
            RpcsrvError::MissingSession(id) => {
                let mut message = String::new();
                message.append("Missing session for id ");
                let id_text = uuid_to_string(*id);
                message.append(id_text.as_str());
                message
            },
            RpcsrvError::PhysicalPlansNotSupported => {
                "Executing physical plans is not currently supported".to_owned()
            },
            RpcsrvError::ProtoConvError(message) => message.clone(),
            RpcsrvError::ExecError(message) => message.clone(),
            RpcsrvError::Datafusion(message) => message.clone(),
            RpcsrvError::Arrow(message) => message.clone(),
            RpcsrvError::Internal(message) => message.clone(),
        }
    }
}

} // verus!
